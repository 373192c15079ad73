//! The driver's operations as programs: the register reads and writes that
//! each one makes, in order, and where each value read goes.
use crate::codec::be_bytes;
use crate::registers::Registers;
use crate::types::{ConfigField, MeasurementField, SetData, StateField, Config};
use vstd::prelude::*;

verus! {

/// The I2C address of the sensor.
pub const ADDRESS: u8 = 0x68;

/// Milliseconds to wait after writing a RAM register.
pub const RAM_DELAY: u32 = 1;

/// Milliseconds to wait after writing an EEPROM register.
pub const EEPROM_DELAY: u32 = 25;

/// Milliseconds the sensor needs to start up and stabilise after power-on.
pub const STARTUP_DELAY: u32 = 35;

/// The value that the calibration status register holds after a successful
/// background calibration.
pub const CALIBRATION_DONE: u8 = 0x20;

/// The bytes written to a register: one byte, or a 16-bit value big-endian.
#[derive(Clone, Copy, Debug, PartialEq, Eq, Structural)]
pub enum Payload {
    Byte(u8),
    Word(u16),
}

impl Payload {
    /// The bytes of the payload, in the order they are sent.
    pub open spec fn bytes(self) -> Seq<u8> {
        match self {
            Payload::Byte(b) => seq![b],
            Payload::Word(w) => be_bytes(w),
        }
    }
}

/// Where a value read from a register goes.
#[derive(Clone, Copy, Debug, PartialEq, Eq, Structural)]
pub enum Target {
    /// A value of the state data (two bytes).
    State(StateField),
    /// The firmware type (one byte).
    FirmwareType,
    /// The main and the sub revision of the firmware (two bytes).
    FirmwareVersion,
    /// The sensor id (four bytes).
    SensorId,
    /// The product code (sixteen bytes), which firmware 4.8 and later holds.
    ProductCode,
    /// A value of the configuration (two bytes).
    Config(ConfigField),
    /// A value of the measurement.
    Measurement(MeasurementField),
    /// The scaled concentration that the operation returns (two bytes).
    ScaledValue,
    /// The elapsed time counter that the operation returns (four bytes).
    ElapsedValue,
    /// The sensor's error status word (two bytes): an error that it reports
    /// ends the operation.
    ErrorWord,
    /// The calibration status, which decides whether a background
    /// calibration succeeded (one byte).
    CalibrationStatus,
}

impl Target {
    /// The number of bytes read into the target.
    pub open spec fn spec_len(self) -> nat {
        match self {
            Target::State(_) => 2,
            Target::FirmwareType => 1,
            Target::FirmwareVersion => 2,
            Target::SensorId => 4,
            Target::ProductCode => 16,
            Target::Config(_) => 2,
            Target::Measurement(f) => f.read_len(),
            Target::ScaledValue => 2,
            Target::ElapsedValue => 4,
            Target::ErrorWord => 2,
            Target::CalibrationStatus => 1,
        }
    }

    /// The number of bytes read into the target.
    pub fn len(self) -> (n: usize)
        ensures
            n == self.spec_len(),
    {
        match self {
            Target::State(_) => 2,
            Target::FirmwareType => 1,
            Target::FirmwareVersion => 2,
            Target::SensorId => 4,
            Target::ProductCode => 16,
            Target::Config(_) => 2,
            Target::Measurement(MeasurementField::ElapsedTime) => 4,
            Target::Measurement(_) => 2,
            Target::ScaledValue => 2,
            Target::ElapsedValue => 4,
            Target::ErrorWord => 2,
            Target::CalibrationStatus => 1,
        }
    }
}

/// One step of an operation.
#[derive(Clone, Copy, Debug, PartialEq, Eq, Structural)]
pub enum Step {
    /// Read from `register` as many bytes as `target` takes, into `target`.
    Read { register: Registers, target: Target },
    /// Write `payload` to `register`, then wait `delay` milliseconds.
    Write { register: Registers, payload: Payload, delay: u32 },
    /// Write `value` to the EEPROM register of configuration field `field`,
    /// unless the configuration already holds that value.
    UpdateConfig { field: ConfigField, value: u16 },
    /// Wait until the sensor signals that it is ready.
    WaitReady,
    /// Drive the enable pin high or low.
    SetEnable { high: bool },
    /// Wait `ms` milliseconds.
    Wait { ms: u32 },
}

impl StateField {
    /// The register that holds the field.
    pub open spec fn spec_register(self) -> Registers {
        match self {
            StateField::AbcTime => Registers::AbcTime,
            StateField::AbcPar0 => Registers::AbcPar0,
            StateField::AbcPar1 => Registers::AbcPar1,
            StateField::AbcPar2 => Registers::AbcPar2,
            StateField::AbcPar3 => Registers::AbcPar3,
            StateField::FilterPar0 => Registers::FilterPar0,
            StateField::FilterPar1 => Registers::FilterPar1,
            StateField::FilterPar2 => Registers::FilterPar2,
            StateField::FilterPar3 => Registers::FilterPar3,
            StateField::FilterPar4 => Registers::FilterPar4,
            StateField::FilterPar5 => Registers::FilterPar5,
            StateField::FilterPar6 => Registers::FilterPar6,
        }
    }

    /// The register that holds the field.
    #[verifier::when_used_as_spec(spec_register)]
    pub fn register(self) -> (r: Registers)
        ensures
            r == self.spec_register(),
    {
        match self {
            StateField::AbcTime => Registers::AbcTime,
            StateField::AbcPar0 => Registers::AbcPar0,
            StateField::AbcPar1 => Registers::AbcPar1,
            StateField::AbcPar2 => Registers::AbcPar2,
            StateField::AbcPar3 => Registers::AbcPar3,
            StateField::FilterPar0 => Registers::FilterPar0,
            StateField::FilterPar1 => Registers::FilterPar1,
            StateField::FilterPar2 => Registers::FilterPar2,
            StateField::FilterPar3 => Registers::FilterPar3,
            StateField::FilterPar4 => Registers::FilterPar4,
            StateField::FilterPar5 => Registers::FilterPar5,
            StateField::FilterPar6 => Registers::FilterPar6,
        }
    }
}

impl ConfigField {
    /// The EEPROM register that holds the field: it is read from and
    /// written to there.
    pub open spec fn spec_register(self) -> Registers {
        match self {
            ConfigField::SingleMeasurementMode => Registers::MeasurementModeEe,
            ConfigField::MeasurementPeriod => Registers::MeasurementPeriodEe,
            ConfigField::NumberOfSamples => Registers::NumberOfSamplesEe,
            ConfigField::AbcPeriod => Registers::AbcPeriodEe,
            ConfigField::AbcTarget => Registers::AbcTargetEe,
            ConfigField::IirFilter => Registers::StaticIIRFilterEe,
            ConfigField::MeterControl => Registers::MeterControlEe,
            ConfigField::I2cAddress => Registers::I2cAddressEe,
            ConfigField::Nominator => Registers::NominatorEe,
            ConfigField::Denominator => Registers::DenominatorEe,
            ConfigField::ScaledAbcTarget => Registers::ScaleAbcTarget,
        }
    }

    /// The EEPROM register that holds the field.
    #[verifier::when_used_as_spec(spec_register)]
    pub fn register(self) -> (r: Registers)
        ensures
            r == self.spec_register(),
    {
        match self {
            ConfigField::SingleMeasurementMode => Registers::MeasurementModeEe,
            ConfigField::MeasurementPeriod => Registers::MeasurementPeriodEe,
            ConfigField::NumberOfSamples => Registers::NumberOfSamplesEe,
            ConfigField::AbcPeriod => Registers::AbcPeriodEe,
            ConfigField::AbcTarget => Registers::AbcTargetEe,
            ConfigField::IirFilter => Registers::StaticIIRFilterEe,
            ConfigField::MeterControl => Registers::MeterControlEe,
            ConfigField::I2cAddress => Registers::I2cAddressEe,
            ConfigField::Nominator => Registers::NominatorEe,
            ConfigField::Denominator => Registers::DenominatorEe,
            ConfigField::ScaledAbcTarget => Registers::ScaleAbcTarget,
        }
    }

    /// The payload that writes `value` to the field: a byte value as its one
    /// byte, a 16-bit value as two.
    pub open spec fn spec_payload(self, value: u16) -> Payload {
        if self.is_byte() {
            Payload::Byte(value as u8)
        } else {
            Payload::Word(value)
        }
    }

    /// The payload that writes `value` to the field.
    #[verifier::when_used_as_spec(spec_payload)]
    pub fn payload(self, value: u16) -> (p: Payload)
        ensures
            p == self.spec_payload(value),
    {
        if self.byte_sized() {
            Payload::Byte(value as u8)
        } else {
            Payload::Word(value)
        }
    }
}

impl MeasurementField {
    /// The register that holds the field.
    pub open spec fn spec_register(self) -> Registers {
        match self {
            MeasurementField::FilteredPressComp => Registers::MeasuredFilteredPc,
            MeasurementField::Temperature => Registers::Temperature,
            MeasurementField::Count => Registers::MeasurementCount,
            MeasurementField::CycleTime => Registers::MeasurCycleTime,
            MeasurementField::UnfilteredPressComp => Registers::MeasUnfPressCompens,
            MeasurementField::Filtered => Registers::MeasFilPressCompens,
            MeasurementField::Unfiltered => Registers::MeasuredUnfiltered,
            MeasurementField::Scaled => Registers::ScaledMeasured,
            MeasurementField::ElapsedTime => Registers::Etc,
        }
    }

    /// The register that holds the field.
    #[verifier::when_used_as_spec(spec_register)]
    pub fn register(self) -> (r: Registers)
        ensures
            r == self.spec_register(),
    {
        match self {
            MeasurementField::FilteredPressComp => Registers::MeasuredFilteredPc,
            MeasurementField::Temperature => Registers::Temperature,
            MeasurementField::Count => Registers::MeasurementCount,
            MeasurementField::CycleTime => Registers::MeasurCycleTime,
            MeasurementField::UnfilteredPressComp => Registers::MeasUnfPressCompens,
            MeasurementField::Filtered => Registers::MeasFilPressCompens,
            MeasurementField::Unfiltered => Registers::MeasuredUnfiltered,
            MeasurementField::Scaled => Registers::ScaledMeasured,
            MeasurementField::ElapsedTime => Registers::Etc,
        }
    }

}

/// The state data, in the order the sensor's registers hold it.
pub open spec fn state_fields() -> Seq<StateField> {
    seq![
        StateField::AbcTime,
        StateField::AbcPar0,
        StateField::AbcPar1,
        StateField::AbcPar2,
        StateField::AbcPar3,
        StateField::FilterPar0,
        StateField::FilterPar1,
        StateField::FilterPar2,
        StateField::FilterPar3,
        StateField::FilterPar4,
        StateField::FilterPar5,
        StateField::FilterPar6,
    ]
}

/// The configuration, in the order it is read.
pub open spec fn config_read_order() -> Seq<ConfigField> {
    seq![
        ConfigField::SingleMeasurementMode,
        ConfigField::MeasurementPeriod,
        ConfigField::NumberOfSamples,
        ConfigField::AbcPeriod,
        ConfigField::AbcTarget,
        ConfigField::IirFilter,
        ConfigField::MeterControl,
        ConfigField::I2cAddress,
        ConfigField::Nominator,
        ConfigField::Denominator,
        ConfigField::ScaledAbcTarget,
    ]
}

/// The configuration values that a new configuration writes, in the order
/// they are written.
pub open spec fn config_write_order() -> Seq<ConfigField> {
    seq![
        ConfigField::SingleMeasurementMode,
        ConfigField::MeterControl,
        ConfigField::MeasurementPeriod,
        ConfigField::AbcPeriod,
        ConfigField::AbcTarget,
        ConfigField::Denominator,
        ConfigField::Nominator,
        ConfigField::NumberOfSamples,
        ConfigField::ScaledAbcTarget,
        ConfigField::I2cAddress,
        ConfigField::IirFilter,
    ]
}

/// The measurement values, in the order they are read.
pub open spec fn measurement_read_order() -> Seq<MeasurementField> {
    seq![
        MeasurementField::FilteredPressComp,
        MeasurementField::Temperature,
        MeasurementField::Count,
        MeasurementField::CycleTime,
        MeasurementField::UnfilteredPressComp,
        MeasurementField::Filtered,
        MeasurementField::Unfiltered,
        MeasurementField::Scaled,
        MeasurementField::ElapsedTime,
    ]
}

/// The step that reads state data field `f` from its register.
pub open spec fn state_read(f: StateField) -> Step {
    Step::Read { register: f.spec_register(), target: Target::State(f) }
}

/// The step that writes the value of state data field `f` to its register.
pub open spec fn state_write(d: SetData, f: StateField) -> Step {
    Step::Write { register: f.spec_register(), payload: Payload::Word(d.field(f)), delay: RAM_DELAY }
}

/// The step that reads configuration field `f` from its register.
pub open spec fn config_read(f: ConfigField) -> Step {
    Step::Read { register: f.spec_register(), target: Target::Config(f) }
}

/// The step that brings configuration field `f` to its value in `c`.
pub open spec fn config_update(c: Config, f: ConfigField) -> Step {
    Step::UpdateConfig { field: f, value: c.field(f) }
}

/// The step that reads measurement field `f` from its register.
pub open spec fn measurement_read(f: MeasurementField) -> Step {
    Step::Read { register: f.spec_register(), target: Target::Measurement(f) }
}

/// Reads the state data from the sensor, value by value.
pub open spec fn state_data_get_steps() -> Seq<Step> {
    state_fields().map_values(|f: StateField| state_read(f))
}

/// Writes the state data `d` to the sensor, value by value.
pub open spec fn state_data_set_steps(d: SetData) -> Seq<Step> {
    state_fields().map_values(|f: StateField| state_write(d, f))
}

/// Reads the product type: firmware type, firmware version, sensor id, and
/// the product code (which only firmware 4.8 and later holds; before that the
/// read is passed over).
pub open spec fn product_type_get_steps() -> Seq<Step> {
    seq![
        Step::Read { register: Registers::FirmwareType, target: Target::FirmwareType },
        Step::Read { register: Registers::FirmwareVer, target: Target::FirmwareVersion },
        Step::Read { register: Registers::SensorId, target: Target::SensorId },
        Step::Read { register: Registers::ProductCode, target: Target::ProductCode },
    ]
}

/// Reads the configuration from the sensor's EEPROM, value by value.
pub open spec fn get_config_steps() -> Seq<Step> {
    config_read_order().map_values(|f: ConfigField| config_read(f))
}

/// Brings the configuration in the sensor's EEPROM to `c`, writing only the
/// values that differ.
pub open spec fn set_config_steps(c: Config) -> Seq<Step> {
    config_write_order().map_values(|f: ConfigField| config_update(c, f))
}

/// Reads the measurement, value by value.
pub open spec fn measurement_read_steps() -> Seq<Step> {
    measurement_read_order().map_values(|f: MeasurementField| measurement_read(f))
}

/// Clears the sensor's error status.
pub open spec fn clear_error_status_step() -> Step {
    Step::Write { register: Registers::ClearErrorStatus, payload: Payload::Byte(0x00), delay: RAM_DELAY }
}

/// Powers the sensor on through the enable pin, if there is one.
pub open spec fn power_on_steps(has_enable_pin: bool) -> Seq<Step> {
    if has_enable_pin {
        seq![Step::SetEnable { high: true }, Step::Wait { ms: STARTUP_DELAY }]
    } else {
        Seq::empty()
    }
}

/// Powers the sensor off through the enable pin, if there is one.
pub open spec fn power_off_steps(has_enable_pin: bool) -> Seq<Step> {
    if has_enable_pin {
        seq![Step::SetEnable { high: false }]
    } else {
        Seq::empty()
    }
}

/// Starts a measurement.
pub open spec fn start_measurement_steps() -> Seq<Step> {
    seq![Step::Write { register: Registers::StartMesurement, payload: Payload::Byte(0x01), delay: RAM_DELAY }]
}

/// Resets the sensor.
pub open spec fn reset_steps() -> Seq<Step> {
    seq![Step::Write { register: Registers::Scr, payload: Payload::Byte(0xFF), delay: RAM_DELAY }]
}

/// Reads the scaled concentration.
pub open spec fn scaled_measurement_steps() -> Seq<Step> {
    seq![Step::Read { register: Registers::ScaledMeasured, target: Target::ScaledValue }]
}

/// Reads the elapsed time counter.
pub open spec fn elapsed_time_steps() -> Seq<Step> {
    seq![Step::Read { register: Registers::Etc, target: Target::ElapsedValue }]
}

/// Sets the target of a target calibration.
pub open spec fn target_calibration_steps(value: u16) -> Seq<Step> {
    seq![Step::Write { register: Registers::CalibrationTarget, payload: Payload::Word(value), delay: RAM_DELAY }]
}

/// A background calibration: reset the calibration status, command the
/// calibration, and in single measurement mode hand the sensor its state
/// data and wait for it; then check the calibration status, and in single
/// measurement mode read the state data back.
pub open spec fn background_calibration_steps(single_measurement_mode: u8, d: SetData) -> Seq<Step> {
    let single = single_measurement_mode == 1;
    seq![
        Step::Write { register: Registers::CalibrationStatus, payload: Payload::Byte(0x00), delay: RAM_DELAY },
        Step::Write { register: Registers::CalibrationCommand, payload: Payload::Word(0x07C6), delay: RAM_DELAY },
    ]
        + (if single { state_data_set_steps(d).push(Step::WaitReady) } else { Seq::empty() })
        + seq![Step::Read { register: Registers::CalibrationStatus, target: Target::CalibrationStatus }]
        + (if single { state_data_get_steps() } else { Seq::empty() })
}

/// The initialisation: read the state data, the product type and the
/// configuration, then bring the configuration to `config`, if given.
pub open spec fn init_steps(config: Option<Config>) -> Seq<Step> {
    state_data_get_steps() + product_type_get_steps() + get_config_steps() + match config {
        Some(c) => set_config_steps(c),
        None => Seq::empty(),
    }
}

/// A CO2 measurement: clear the error status, hand the sensor its state
/// data, give it the air pressure if known, wait for it to be ready, read the
/// error status (an error it reports ends the measurement), then the
/// measurement, and the state data back.
pub open spec fn co2_measurement_steps(d: SetData, pressure: Option<u16>) -> Seq<Step> {
    seq![clear_error_status_step()] + state_data_set_steps(d) + match pressure {
        Some(p) => seq![Step::Write { register: Registers::PressureValue, payload: Payload::Word(p), delay: RAM_DELAY }],
        None => Seq::empty(),
    } + seq![
        Step::WaitReady,
        Step::Read { register: Registers::ErrorStatus, target: Target::ErrorWord },
    ] + measurement_read_steps() + state_data_get_steps()
}

/// The state data fields, in register order.
fn state_field_list() -> (l: [StateField; 12])
    ensures
        l@ == state_fields(),
{
    [
        StateField::AbcTime,
        StateField::AbcPar0,
        StateField::AbcPar1,
        StateField::AbcPar2,
        StateField::AbcPar3,
        StateField::FilterPar0,
        StateField::FilterPar1,
        StateField::FilterPar2,
        StateField::FilterPar3,
        StateField::FilterPar4,
        StateField::FilterPar5,
        StateField::FilterPar6,
    ]
}

/// Appends the steps that read the state data.
pub fn push_state_data_get(steps: &mut Vec<Step>)
    ensures
        final(steps)@ == old(steps)@ + state_data_get_steps(),
{
    let fields = state_field_list();
    let ghost start = steps@;
    for i in 0..12
        invariant
            fields@ == state_fields(),
            steps@ == start + state_data_get_steps().take(i as int),
    {
        let f = fields[i];
        steps.push(Step::Read { register: f.register(), target: Target::State(f) });
        assert(state_data_get_steps().take(i + 1) =~= state_data_get_steps().take(i as int).push(state_read(f)));
    }
    assert(state_data_get_steps().take(12) =~= state_data_get_steps());
}

/// Appends the steps that write the state data `d`.
pub fn push_state_data_set(steps: &mut Vec<Step>, d: &SetData)
    ensures
        final(steps)@ == old(steps)@ + state_data_set_steps(*d),
{
    let fields = state_field_list();
    let ghost start = steps@;
    for i in 0..12
        invariant
            fields@ == state_fields(),
            steps@ == start + state_data_set_steps(*d).take(i as int),
    {
        let f = fields[i];
        steps.push(Step::Write { register: f.register(), payload: Payload::Word(d.value(f)), delay: RAM_DELAY });
        assert(state_data_set_steps(*d).take(i + 1) =~= state_data_set_steps(*d).take(i as int).push(state_write(*d, f)));
    }
    assert(state_data_set_steps(*d).take(12) =~= state_data_set_steps(*d));
}

/// Appends the steps that read the product type.
pub fn push_product_type_get(steps: &mut Vec<Step>)
    ensures
        final(steps)@ == old(steps)@ + product_type_get_steps(),
{
    steps.push(Step::Read { register: Registers::FirmwareType, target: Target::FirmwareType });
    steps.push(Step::Read { register: Registers::FirmwareVer, target: Target::FirmwareVersion });
    steps.push(Step::Read { register: Registers::SensorId, target: Target::SensorId });
    steps.push(Step::Read { register: Registers::ProductCode, target: Target::ProductCode });
    assert(steps@ =~= old(steps)@ + product_type_get_steps());
}

/// The configuration fields, in the order they are read.
fn config_read_list() -> (l: [ConfigField; 11])
    ensures
        l@ == config_read_order(),
{
    [
        ConfigField::SingleMeasurementMode,
        ConfigField::MeasurementPeriod,
        ConfigField::NumberOfSamples,
        ConfigField::AbcPeriod,
        ConfigField::AbcTarget,
        ConfigField::IirFilter,
        ConfigField::MeterControl,
        ConfigField::I2cAddress,
        ConfigField::Nominator,
        ConfigField::Denominator,
        ConfigField::ScaledAbcTarget,
    ]
}

/// The configuration fields, in the order they are written.
fn config_write_list() -> (l: [ConfigField; 11])
    ensures
        l@ == config_write_order(),
{
    [
        ConfigField::SingleMeasurementMode,
        ConfigField::MeterControl,
        ConfigField::MeasurementPeriod,
        ConfigField::AbcPeriod,
        ConfigField::AbcTarget,
        ConfigField::Denominator,
        ConfigField::Nominator,
        ConfigField::NumberOfSamples,
        ConfigField::ScaledAbcTarget,
        ConfigField::I2cAddress,
        ConfigField::IirFilter,
    ]
}

/// Appends the steps that read the configuration.
pub fn push_get_config(steps: &mut Vec<Step>)
    ensures
        final(steps)@ == old(steps)@ + get_config_steps(),
{
    let fields = config_read_list();
    let ghost start = steps@;
    for i in 0..11
        invariant
            fields@ == config_read_order(),
            steps@ == start + get_config_steps().take(i as int),
    {
        let f = fields[i];
        steps.push(Step::Read { register: f.register(), target: Target::Config(f) });
        assert(get_config_steps().take(i + 1) =~= get_config_steps().take(i as int).push(config_read(f)));
    }
    assert(get_config_steps().take(11) =~= get_config_steps());
}

/// Appends the steps that bring the configuration to `c`.
pub fn push_set_config(steps: &mut Vec<Step>, c: &Config)
    ensures
        final(steps)@ == old(steps)@ + set_config_steps(*c),
{
    let fields = config_write_list();
    let ghost start = steps@;
    for i in 0..11
        invariant
            fields@ == config_write_order(),
            steps@ == start + set_config_steps(*c).take(i as int),
    {
        let f = fields[i];
        steps.push(Step::UpdateConfig { field: f, value: c.value(f) });
        assert(set_config_steps(*c).take(i + 1) =~= set_config_steps(*c).take(i as int).push(config_update(*c, f)));
    }
    assert(set_config_steps(*c).take(11) =~= set_config_steps(*c));
}

/// The measurement fields, in the order they are read.
fn measurement_read_list() -> (l: [MeasurementField; 9])
    ensures
        l@ == measurement_read_order(),
{
    [
        MeasurementField::FilteredPressComp,
        MeasurementField::Temperature,
        MeasurementField::Count,
        MeasurementField::CycleTime,
        MeasurementField::UnfilteredPressComp,
        MeasurementField::Filtered,
        MeasurementField::Unfiltered,
        MeasurementField::Scaled,
        MeasurementField::ElapsedTime,
    ]
}

/// Appends the steps that read the measurement.
pub fn push_measurement_read(steps: &mut Vec<Step>)
    ensures
        final(steps)@ == old(steps)@ + measurement_read_steps(),
{
    let fields = measurement_read_list();
    let ghost start = steps@;
    for i in 0..9
        invariant
            fields@ == measurement_read_order(),
            steps@ == start + measurement_read_steps().take(i as int),
    {
        let f = fields[i];
        steps.push(Step::Read { register: f.register(), target: Target::Measurement(f) });
        assert(measurement_read_steps().take(i + 1) =~= measurement_read_steps().take(i as int).push(measurement_read(f)));
    }
    assert(measurement_read_steps().take(9) =~= measurement_read_steps());
}

/// Appends the steps of a CO2 measurement.
pub fn push_co2_measurement(steps: &mut Vec<Step>, d: &SetData, pressure: Option<u16>)
    ensures
        final(steps)@ == old(steps)@ + co2_measurement_steps(*d, pressure),
{
    let ghost start = steps@;
    steps.push(Step::Write { register: Registers::ClearErrorStatus, payload: Payload::Byte(0x00), delay: RAM_DELAY });
    push_state_data_set(steps, d);
    let ghost after_set = steps@;
    if let Some(p) = pressure {
        steps.push(Step::Write { register: Registers::PressureValue, payload: Payload::Word(p), delay: RAM_DELAY });
    }
    let ghost after_pressure = steps@;
    steps.push(Step::WaitReady);
    steps.push(Step::Read { register: Registers::ErrorStatus, target: Target::ErrorWord });
    let ghost after_check = steps@;
    push_measurement_read(steps);
    push_state_data_get(steps);
    proof {
        let pstep = match pressure {
            Some(p) => seq![Step::Write { register: Registers::PressureValue, payload: Payload::Word(p), delay: RAM_DELAY }],
            None => Seq::<Step>::empty(),
        };
        assert(after_pressure =~= after_set + pstep);
        assert(after_set =~= start + seq![clear_error_status_step()] + state_data_set_steps(*d));
        assert(steps@ =~= start + co2_measurement_steps(*d, pressure));
    }
}

/// Appends the steps of a background calibration.
pub fn push_background_calibration(steps: &mut Vec<Step>, single_measurement_mode: u8, d: &SetData)
    ensures
        final(steps)@ == old(steps)@ + background_calibration_steps(single_measurement_mode, *d),
{
    let ghost start = steps@;
    steps.push(Step::Write { register: Registers::CalibrationStatus, payload: Payload::Byte(0x00), delay: RAM_DELAY });
    steps.push(Step::Write { register: Registers::CalibrationCommand, payload: Payload::Word(0x07C6), delay: RAM_DELAY });
    let ghost after_command = steps@;
    if single_measurement_mode == 0x01 {
        push_state_data_set(steps, d);
        steps.push(Step::WaitReady);
    }
    let ghost after_wait = steps@;
    steps.push(Step::Read { register: Registers::CalibrationStatus, target: Target::CalibrationStatus });
    let ghost after_status = steps@;
    if single_measurement_mode == 0x01 {
        push_state_data_get(steps);
    }
    proof {
        let single = single_measurement_mode == 1;
        let head = seq![
            Step::Write { register: Registers::CalibrationStatus, payload: Payload::Byte(0x00), delay: RAM_DELAY },
            Step::Write { register: Registers::CalibrationCommand, payload: Payload::Word(0x07C6), delay: RAM_DELAY },
        ];
        let mid = if single { state_data_set_steps(*d).push(Step::WaitReady) } else { Seq::<Step>::empty() };
        let tail = if single { state_data_get_steps() } else { Seq::<Step>::empty() };
        assert(after_command =~= start + head);
        assert(after_wait =~= start + head + mid);
        assert(steps@ =~= start + background_calibration_steps(single_measurement_mode, *d));
    }
}

/// Appends the steps that power the sensor on.
pub fn push_power_on(steps: &mut Vec<Step>, has_enable_pin: bool)
    ensures
        final(steps)@ == old(steps)@ + power_on_steps(has_enable_pin),
{
    if has_enable_pin {
        steps.push(Step::SetEnable { high: true });
        steps.push(Step::Wait { ms: STARTUP_DELAY });
    }
    assert(steps@ =~= old(steps)@ + power_on_steps(has_enable_pin));
}

/// Appends the steps that power the sensor off.
pub fn push_power_off(steps: &mut Vec<Step>, has_enable_pin: bool)
    ensures
        final(steps)@ == old(steps)@ + power_off_steps(has_enable_pin),
{
    if has_enable_pin {
        steps.push(Step::SetEnable { high: false });
    }
    assert(steps@ =~= old(steps)@ + power_off_steps(has_enable_pin));
}

/// Appends the steps of the initialisation.
pub fn push_init(steps: &mut Vec<Step>, config: Option<Config>)
    ensures
        final(steps)@ == old(steps)@ + init_steps(config),
{
    let ghost start = steps@;
    push_state_data_get(steps);
    push_product_type_get(steps);
    push_get_config(steps);
    let ghost after_read = steps@;
    if let Some(c) = config {
        push_set_config(steps, &c);
    }
    proof {
        assert(after_read =~= start + state_data_get_steps() + product_type_get_steps() + get_config_steps());
        assert(steps@ =~= start + init_steps(config));
    }
}

} // verus!
