//! The Sunrise driver: the decisions of each operation, as a machine that the
//! caller drives. An operation starts with a call of its method, which returns
//! the first bus action; the caller performs each action on the hardware and
//! hands the result back to [`Sunrise::advance`], which returns the next
//! action, until the action is [`Action::Finished`] with the outcome.
use crate::bounded::{
    code_buffer_extend, code_buffer_new, frame_bytes, frame_extend, frame_new, frame_push,
    product_code_from_str, product_code_from_utf8, product_code_new,
};
use crate::codec::{be_i16, be_u16, be_u32, i16_from_be, u16_from_be, u32_from_be};
use crate::program::{
    background_calibration_steps, co2_measurement_steps, config_update, config_write_order,
    elapsed_time_steps, get_config_steps, init_steps, power_off_steps, power_on_steps,
    push_background_calibration, push_co2_measurement, push_get_config, push_init, push_power_off,
    push_power_on, reset_steps, scaled_measurement_steps, set_config_steps,
    start_measurement_steps, target_calibration_steps, Payload, Step, Target, ADDRESS,
    CALIBRATION_DONE, EEPROM_DELAY, RAM_DELAY,
};
use crate::registers::{ErrorStatus, Registers};
use crate::types::{
    zero_config, zero_measurement, zero_set_data, Config, ConfigField, Measurement, ProductInfo,
    ProductType, SetData,
};
use vstd::prelude::*;
use vstd::string::StringSliceAdditionalSpecFns;

verus! {

const EXPECT_MSG: &'static str = "Vec was not large enough";

/// The operations of the driver.
#[derive(Clone, Copy, Debug, PartialEq, Eq, Structural)]
pub enum OpKind {
    NoOperation,
    PowerOn,
    PowerOff,
    StartMeasurement,
    Reset,
    ScaledMeasurement,
    ElapsedTime,
    GetConfig,
    BackgroundCalibration,
    TargetCalibration,
    Init,
    Co2Measurement,
}

/// How far the current step has got. A read is tried a second time when the
/// first attempt fails; a write first wakes the sensor up, then writes, then
/// waits.
#[derive(Clone, Copy, Debug, PartialEq, Eq, Structural)]
pub enum Phase {
    First,
    Second,
    Settling,
}

/// What a successful operation returns.
#[derive(Clone, Copy, Debug, PartialEq, Eq, Structural)]
pub enum Reply {
    Unit,
    Config(Config),
    Scaled(i16),
    Elapsed(u32),
    Measurement(Measurement),
}

/// How an operation ended.
#[derive(Clone, Copy, Debug)]
pub enum Completion {
    /// It succeeded.
    Done(Reply),
    /// A bus transfer failed; the caller holds the bus's error.
    BusError,
    /// The sensor reported an error.
    Sensor(ErrorStatus<()>),
}

/// The result of the last action, as the caller hands it back.
pub enum Event {
    /// The action was carried out.
    Completed,
    /// The bus reported an error.
    Failed,
    /// A register read gave these bytes.
    Received(Vec<u8>),
}

/// The result of the last action, as plain values.
pub enum Reception {
    Completed,
    Failed,
    Received(Seq<u8>),
}

impl View for Event {
    type V = Reception;

    open spec fn view(&self) -> Reception {
        match self {
            Event::Completed => Reception::Completed,
            Event::Failed => Reception::Failed,
            Event::Received(b) => Reception::Received(b@),
        }
    }
}

/// The bus work that the driver asks for, as plain values.
pub enum Request {
    Read { address: u8, register: u8, len: nat },
    WakeUp { address: u8 },
    Write { address: u8, frame: Seq<u8> },
    Delay { ms: u32 },
    WaitReady,
    SetEnablePin { high: bool },
    Finished(Completion),
}

/// The bus work that the driver asks the caller to do next.
pub enum Action {
    /// Write the register address `register` to the device at `address`, then
    /// read `len` bytes (`write_read`).
    ReadRegister { address: u8, register: u8, len: usize },
    /// Wake the sensor up: write the byte 0 and read one byte (`write_read`);
    /// its outcome does not matter.
    WakeUp { address: u8 },
    /// Write the frame: the register address followed by the data.
    Write { address: u8, frame: heapless::Vec<u8, 32> },
    /// Wait `ms` milliseconds.
    Delay { ms: u32 },
    /// Wait until the sensor's nRDY pin reads low.
    WaitReady,
    /// Drive the enable pin high or low, ignoring the outcome.
    SetEnablePin { high: bool },
    /// The operation is over.
    Finished(Completion),
}

impl View for Action {
    type V = Request;

    open spec fn view(&self) -> Request {
        match self {
            Action::ReadRegister { address, register, len } => Request::Read {
                address: *address,
                register: *register,
                len: *len as nat,
            },
            Action::WakeUp { address } => Request::WakeUp { address: *address },
            Action::Write { address, frame } => Request::Write {
                address: *address,
                frame: frame_bytes(*frame),
            },
            Action::Delay { ms } => Request::Delay { ms: *ms },
            Action::WaitReady => Request::WaitReady,
            Action::SetEnablePin { high } => Request::SetEnablePin { high: *high },
            Action::Finished(c) => Request::Finished(*c),
        }
    }
}

/// The bytes of the frame that writes `payload` to `register`.
pub open spec fn frame_of(register: Registers, payload: Payload) -> Seq<u8> {
    seq![register.spec_address()] + payload.bytes()
}

/// Whether the firmware of this version holds a product code: 4.8 and later.
pub open spec fn holds_product_code(main_revision: u8, sub_revision: u8) -> bool {
    main_revision >= 4 && sub_revision >= 8
}

/// The product code that the bytes `b` of the product code register give:
/// the bytes themselves when they are UTF-8, the empty code otherwise.
pub open spec fn product_code_of(b: Seq<u8>) -> Seq<u8> {
    if vstd::utf8::valid_utf8(b) {
        b
    } else {
        Seq::empty()
    }
}

/// The UTF-8 bytes of "No Supporte".
pub open spec fn unsupported_code() -> Seq<u8> {
    seq![0x4Eu8, 0x6F, 0x20, 0x53, 0x75, 0x70, 0x70, 0x6F, 0x72, 0x74, 0x65]
}

/// The driver's state as plain values.
pub struct SunriseModel {
    pub address: u8,
    pub has_enable_pin: bool,
    pub config: Config,
    pub product_type: ProductInfo,
    pub measurement: Measurement,
    pub set_data: SetData,
    pub kind: OpKind,
    pub steps: Seq<Step>,
    pub pc: int,
    pub phase: Phase,
    pub scaled: i16,
    pub elapsed: u32,
    pub failure: Option<Completion>,
}

impl SunriseModel {
    /// An operation is under way.
    pub open spec fn running(self) -> bool {
        0 <= self.pc < self.steps.len()
    }

    /// The step under way.
    pub open spec fn current(self) -> Step {
        self.steps[self.pc]
    }

    /// The state when operation `kind` starts with the program `steps`.
    pub open spec fn begin(self, kind: OpKind, steps: Seq<Step>) -> Self {
        SunriseModel { kind, steps, pc: 0, phase: Phase::First, failure: None, ..self }
    }

    /// The state when the current step is over.
    pub open spec fn next_step(self) -> Self {
        SunriseModel { pc: self.pc + 1, phase: Phase::First, ..self }
    }

    /// The state when the operation stops early with `c`.
    pub open spec fn stop(self, c: Completion) -> Self {
        SunriseModel { pc: self.steps.len() as int, phase: Phase::First, failure: Some(c), ..self }
    }

    /// The current step needs no bus work: a configuration value that already
    /// holds, or the product code of firmware that holds none.
    pub open spec fn passes_over(self) -> bool {
        &&& self.running()
        &&& self.phase == Phase::First
        &&& match self.current() {
            Step::UpdateConfig { field, value } => self.config.field(field) == value,
            Step::Read { target: Target::ProductCode, .. } => !holds_product_code(
                self.product_type.main_revision,
                self.product_type.sub_revision,
            ),
            _ => false,
        }
    }

    /// The state once the product code of firmware that holds none is set to
    /// "No Supporte".
    pub open spec fn without_product_code(self) -> Self {
        SunriseModel {
            product_type: ProductInfo { product_code: unsupported_code(), ..self.product_type },
            ..self
        }
    }

    /// The state once the steps that need no bus work are done.
    pub open spec fn settle(self) -> Self
        decreases self.steps.len() - self.pc,
    {
        if self.passes_over() {
            match self.current() {
                Step::Read { .. } => self.without_product_code().next_step().settle(),
                _ => self.next_step().settle(),
            }
        } else {
            self
        }
    }

    /// The work left of the operation: three units for each step not begun,
    /// less the phases that the current step has passed.
    pub open spec fn remaining_work(self) -> int {
        (self.steps.len() - self.pc) * 3 - match self.phase {
            Phase::First => 0int,
            Phase::Second => 1int,
            Phase::Settling => 2int,
        }
    }

    /// The invariant of the driver between calls: the program counter is in
    /// range, an operation under way has not failed, and the current step
    /// needs bus work.
    pub open spec fn well_formed(self) -> bool {
        &&& 0 <= self.pc <= self.steps.len()
        &&& self.running() ==> self.failure is None
        &&& !self.passes_over()
    }

    /// What a successful operation returns.
    pub open spec fn reply(self) -> Reply {
        match self.kind {
            OpKind::GetConfig => Reply::Config(self.config),
            OpKind::ScaledMeasurement => Reply::Scaled(self.scaled),
            OpKind::ElapsedTime => Reply::Elapsed(self.elapsed),
            OpKind::Co2Measurement => Reply::Measurement(self.measurement),
            _ => Reply::Unit,
        }
    }

    /// How the operation ended, once it is over.
    pub open spec fn outcome(self) -> Completion {
        match self.failure {
            Some(c) => c,
            None => Completion::Done(self.reply()),
        }
    }

    /// The bus work of a write-like step in the current phase.
    pub open spec fn write_request(self, register: Registers, payload: Payload, delay: u32) -> Request {
        match self.phase {
            Phase::First => Request::WakeUp { address: self.address },
            Phase::Second => Request::Write { address: self.address, frame: frame_of(register, payload) },
            Phase::Settling => Request::Delay { ms: delay },
        }
    }

    /// The bus work that the driver asks for next.
    pub open spec fn request(self) -> Request {
        if !self.running() {
            Request::Finished(self.outcome())
        } else {
            match self.current() {
                Step::Read { register, target } => Request::Read {
                    address: self.address,
                    register: register.spec_address(),
                    len: target.spec_len(),
                },
                Step::Write { register, payload, delay } => self.write_request(register, payload, delay),
                Step::UpdateConfig { field, value } => self.write_request(
                    field.spec_register(),
                    field.spec_payload(value),
                    EEPROM_DELAY,
                ),
                Step::WaitReady => Request::WaitReady,
                Step::SetEnable { high } => Request::SetEnablePin { high },
                Step::Wait { ms } => Request::Delay { ms },
            }
        }
    }

    /// The state after a read into `target` gave the bytes `b`.
    pub open spec fn on_read(self, target: Target, b: Seq<u8>) -> Self {
        match target {
            Target::State(f) => SunriseModel {
                set_data: self.set_data.with_field(f, be_u16(b[0], b[1])),
                ..self
            }.next_step(),
            Target::FirmwareType => SunriseModel {
                product_type: ProductInfo { firmware_type: b[0], ..self.product_type },
                ..self
            }.next_step(),
            Target::FirmwareVersion => SunriseModel {
                product_type: ProductInfo {
                    main_revision: b[0],
                    sub_revision: b[1],
                    ..self.product_type
                },
                ..self
            }.next_step(),
            Target::SensorId => SunriseModel {
                product_type: ProductInfo { sensor_id: be_u32(b[0], b[1], b[2], b[3]), ..self.product_type },
                ..self
            }.next_step(),
            Target::ProductCode => SunriseModel {
                product_type: ProductInfo { product_code: product_code_of(b), ..self.product_type },
                ..self
            }.next_step(),
            Target::Config(f) => SunriseModel {
                config: self.config.with_read(f, b[0], b[1]),
                ..self
            }.next_step(),
            Target::Measurement(f) => SunriseModel {
                measurement: self.measurement.with_read(f, b),
                ..self
            }.next_step(),
            Target::ScaledValue => SunriseModel { scaled: be_i16(b[0], b[1]), ..self }.next_step(),
            Target::ElapsedValue => SunriseModel {
                elapsed: be_u32(b[0], b[1], b[2], b[3]),
                ..self
            }.next_step(),
            Target::ErrorWord => match ErrorStatus::<()>::decode(be_u16(b[0], b[1])) {
                Some(e) => self.stop(Completion::Sensor(e)),
                None => self.next_step(),
            },
            Target::CalibrationStatus => if b[0] == CALIBRATION_DONE {
                self.next_step()
            } else {
                self.stop(Completion::Sensor(ErrorStatus::CalibrationError))
            },
        }
    }

    /// The state after a write-like step's bus work gave `event`: the outcome
    /// of the wake-up does not matter, a failed write ends the operation, and
    /// the wait after the write ends the step.
    pub open spec fn on_write_event(self, event: Reception) -> Self {
        match self.phase {
            Phase::First => SunriseModel { phase: Phase::Second, ..self },
            Phase::Second => if event is Failed {
                self.stop(Completion::BusError)
            } else {
                SunriseModel { phase: Phase::Settling, ..self }
            },
            Phase::Settling => self.next_step(),
        }
    }

    /// The state after the current step's bus work gave `event`.
    pub open spec fn on_event(self, event: Reception) -> Self {
        match self.current() {
            Step::Read { target, .. } => match event {
                Reception::Received(b) => self.on_read(target, b),
                _ => if self.phase == Phase::First {
                    SunriseModel { phase: Phase::Second, ..self }
                } else {
                    self.stop(Completion::BusError)
                },
            },
            Step::Write { .. } => self.on_write_event(event),
            Step::UpdateConfig { .. } => self.on_write_event(event),
            _ => self.next_step(),
        }
    }

    /// The events that the current step can give: a read gives as many
    /// bytes as it asked for, or fails; other steps give no bytes.
    pub open spec fn admits(self, event: Reception) -> bool {
        match self.current() {
            Step::Read { target, .. } => match event {
                Reception::Received(b) => b.len() == target.spec_len(),
                Reception::Failed => true,
                Reception::Completed => false,
            },
            _ => !(event is Received),
        }
    }
}

/// The Sunrise sensor driver: what it knows of the sensor, and the operation
/// under way.
pub struct Sunrise {
    address: u8,
    has_enable_pin: bool,
    config: Config,
    product_type: ProductType,
    mesurement: Measurement,
    set_data: SetData,
    kind: OpKind,
    steps: Vec<Step>,
    pc: usize,
    phase: Phase,
    scaled: i16,
    elapsed: u32,
    failure: Option<Completion>,
}

impl View for Sunrise {
    type V = SunriseModel;

    closed spec fn view(&self) -> SunriseModel {
        SunriseModel {
            address: self.address,
            has_enable_pin: self.has_enable_pin,
            config: self.config,
            product_type: self.product_type@,
            measurement: self.mesurement,
            set_data: self.set_data,
            kind: self.kind,
            steps: self.steps@,
            pc: self.pc as int,
            phase: self.phase,
            scaled: self.scaled,
            elapsed: self.elapsed,
            failure: self.failure,
        }
    }
}

/// Settling keeps the program and leaves a well-formed state behind a state
/// whose program counter is in range and which has not failed while running.
proof fn lemma_settle_well_formed(m: SunriseModel)
    requires
        0 <= m.pc <= m.steps.len(),
        m.running() ==> m.failure is None,
    ensures
        m.settle().well_formed(),
        m.settle().steps == m.steps,
    decreases m.steps.len() - m.pc,
{
    if m.passes_over() {
        match m.current() {
            Step::Read { .. } => lemma_settle_well_formed(m.without_product_code().next_step()),
            _ => lemma_settle_well_formed(m.next_step()),
        }
    }
}

impl Sunrise {
    /// The driver's invariant between calls.
    pub open spec fn wf(&self) -> bool {
        self@.well_formed()
    }

    /// A driver for a sensor at the default address, that knows nothing of
    /// the sensor yet; `has_enable_pin` tells whether the sensor's enable pin
    /// is wired.
    pub fn new(has_enable_pin: bool) -> (s: Self)
        ensures
            s.wf(),
            s@.address == ADDRESS,
            s@.has_enable_pin == has_enable_pin,
            s@.config == zero_config(),
            s@.product_type == (ProductInfo {
                firmware_type: 0,
                main_revision: 0,
                sub_revision: 0,
                sensor_id: 0,
                product_code: Seq::<u8>::empty(),
            }),
            s@.measurement == zero_measurement(),
            s@.set_data == zero_set_data(),
            !s@.running(),
            s@.kind == OpKind::NoOperation,
    {
        Sunrise {
            address: ADDRESS,
            has_enable_pin,
            config: Config::default(),
            product_type: ProductType::default(),
            mesurement: Measurement::default(),
            set_data: SetData::default(),
            kind: OpKind::NoOperation,
            steps: Vec::new(),
            pc: 0,
            phase: Phase::First,
            scaled: 0,
            elapsed: 0,
            failure: None,
        }
    }

    /// The frame that writes `payload` to `register`: the register address,
    /// then the data.
    fn write_frame(register: Registers, payload: Payload) -> (frame: heapless::Vec<u8, 32>)
        ensures
            frame_bytes(frame) == frame_of(register, payload),
    {
        let mut data: Vec<u8> = Vec::new();
        match payload {
            Payload::Byte(b) => data.push(b),
            Payload::Word(w) => {
                let bytes = crate::codec::u16_to_be(w);
                data.push(bytes[0]);
                data.push(bytes[1]);
            },
        }
        assert(data@ =~= payload.bytes());
        let mut buf = frame_new();
        frame_push(&mut buf, register.address()).expect(EXPECT_MSG);
        frame_extend(&mut buf, data.as_slice()).expect(EXPECT_MSG);
        assert(frame_bytes(buf) =~= frame_of(register, payload));
        buf
    }

    /// The error that the status word `sensor_err` reports, if any.
    fn check_sensor_error(&self, sensor_err: u16) -> (r: Option<ErrorStatus<()>>)
        ensures
            r == ErrorStatus::<()>::decode(sensor_err),
    {
        ErrorStatus::from_bits(sensor_err)
    }

    /// Ends the operation early with `c`.
    fn stop(&mut self, c: Completion)
        ensures
            final(self)@ == old(self)@.stop(c),
    {
        self.pc = self.steps.len();
        self.phase = Phase::First;
        self.failure = Some(c);
    }

    /// Ends the current step.
    fn next_step(&mut self)
        requires
            old(self)@.running(),
        ensures
            final(self)@ == old(self)@.next_step(),
    {
        let len = self.steps.len();
        assert(self.pc < len);
        self.pc = self.pc + 1;
        self.phase = Phase::First;
    }

    /// Stores the product code that the product code register gave: its
    /// bytes as a string when they are UTF-8, the empty code otherwise.
    fn store_product_code(&mut self, b: &Vec<u8>)
        requires
            b@.len() == 16,
        ensures
            final(self)@ == (SunriseModel {
                product_type: ProductInfo { product_code: product_code_of(b@), ..old(self)@.product_type },
                ..old(self)@
            }),
    {
        let mut vec = code_buffer_new();
        code_buffer_extend(&mut vec, b.as_slice()).expect(EXPECT_MSG);
        match product_code_from_utf8(vec) {
            Some(code) => self.product_type.product_code = code,
            None => self.product_type.product_code = product_code_new(),
        }
    }

    /// Sets the product code of firmware that holds none: "No Supporte".
    fn store_unsupported_code(&mut self)
        ensures
            final(self)@ == old(self)@.without_product_code(),
    {
        let text = "No Supporte";
        proof {
            reveal_strlit("No Supporte");
            vstd::string::is_ascii_spec_bytes(text);
            assert(text.spec_bytes() =~= unsupported_code());
        }
        self.product_type.product_code = product_code_from_str(text).unwrap();
    }

    /// Stores what a read into `target` gave.
    fn apply_read(&mut self, target: Target, b: &Vec<u8>)
        requires
            old(self).wf(),
            old(self)@.running(),
            old(self)@.current() matches Step::Read { target: t, .. } && t == target,
            old(self)@.admits(Reception::Received(b@)),
        ensures
            final(self)@ == old(self)@.on_read(target, b@),
    {
        match target {
            Target::State(f) => {
                self.set_data.store(f, b[0], b[1]);
                self.next_step();
            },
            Target::FirmwareType => {
                self.product_type.firmware_type = b[0];
                self.next_step();
            },
            Target::FirmwareVersion => {
                self.product_type.main_revision = b[0];
                self.product_type.sub_revision = b[1];
                self.next_step();
            },
            Target::SensorId => {
                self.product_type.sensor_id = u32_from_be(b[0], b[1], b[2], b[3]);
                self.next_step();
            },
            Target::ProductCode => {
                self.store_product_code(b);
                self.next_step();
            },
            Target::Config(f) => {
                self.config.store(f, b[0], b[1]);
                self.next_step();
            },
            Target::Measurement(f) => {
                self.mesurement.store(f, b.as_slice());
                self.next_step();
            },
            Target::ScaledValue => {
                self.scaled = i16_from_be(b[0], b[1]);
                self.next_step();
            },
            Target::ElapsedValue => {
                self.elapsed = u32_from_be(b[0], b[1], b[2], b[3]);
                self.next_step();
            },
            Target::ErrorWord => {
                let sensor_err = u16_from_be(b[0], b[1]);
                match self.check_sensor_error(sensor_err) {
                    Some(err) => self.stop(Completion::Sensor(err)),
                    None => self.next_step(),
                }
            },
            Target::CalibrationStatus => {
                if b[0] == CALIBRATION_DONE {
                    self.next_step();
                } else {
                    self.stop(Completion::Sensor(ErrorStatus::CalibrationError));
                }
            },
        }
    }

    /// Takes in the result of the current step's bus work.
    fn take_event(&mut self, event: Event)
        requires
            old(self).wf(),
            old(self)@.running(),
            old(self)@.admits(event@),
        ensures
            final(self)@ == old(self)@.on_event(event@),
    {
        let step = self.steps[self.pc];
        match step {
            Step::Read { target, .. } => match event {
                Event::Received(b) => self.apply_read(target, &b),
                _ => {
                    if self.phase == Phase::First {
                        self.phase = Phase::Second;
                    } else {
                        self.stop(Completion::BusError);
                    }
                },
            },
            Step::Write { .. } | Step::UpdateConfig { .. } => match self.phase {
                Phase::First => self.phase = Phase::Second,
                Phase::Second => match event {
                    Event::Failed => self.stop(Completion::BusError),
                    _ => self.phase = Phase::Settling,
                },
                Phase::Settling => self.next_step(),
            },
            _ => self.next_step(),
        }
    }

    /// Does the steps that need no bus work.
    fn settle(&mut self)
        requires
            0 <= old(self)@.pc <= old(self)@.steps.len(),
            old(self)@.running() ==> old(self)@.failure is None,
        ensures
            final(self)@ == old(self)@.settle(),
            final(self).wf(),
    {
        let ghost target = self@.settle();
        proof {
            lemma_settle_well_formed(self@);
        }
        loop
            invariant
                self@.settle() == target,
                0 <= self@.pc <= self@.steps.len(),
                self@.running() ==> self@.failure is None,
            ensures
                self@ == target,
            decreases self.steps.len() - self.pc,
        {
            if self.pc >= self.steps.len() || self.phase != Phase::First {
                break;
            }
            let step = self.steps[self.pc];
            match step {
                Step::UpdateConfig { field, value } => {
                    if self.config.value(field) == value {
                        self.next_step();
                    } else {
                        break;
                    }
                },
                Step::Read { target: Target::ProductCode, .. } => {
                    if self.product_type.main_revision >= 4 && self.product_type.sub_revision >= 8 {
                        break;
                    } else {
                        self.store_unsupported_code();
                        self.next_step();
                    }
                },
                _ => break,
            }
        }
        proof {
            lemma_settle_well_formed(self@);
        }
    }

    /// What a successful operation returns.
    fn reply(&self) -> (r: Reply)
        ensures
            r == self@.reply(),
    {
        match self.kind {
            OpKind::GetConfig => Reply::Config(self.config),
            OpKind::ScaledMeasurement => Reply::Scaled(self.scaled),
            OpKind::ElapsedTime => Reply::Elapsed(self.elapsed),
            OpKind::Co2Measurement => Reply::Measurement(self.mesurement),
            _ => Reply::Unit,
        }
    }

    /// The bus work of a write-like step in the current phase.
    fn write_action(&self, register: Registers, payload: Payload, delay: u32) -> (a: Action)
        ensures
            a@ == self@.write_request(register, payload, delay),
    {
        match self.phase {
            Phase::First => Action::WakeUp { address: self.address },
            Phase::Second => Action::Write {
                address: self.address,
                frame: Self::write_frame(register, payload),
            },
            Phase::Settling => Action::Delay { ms: delay },
        }
    }

    /// The bus work that the driver asks for next.
    fn request(&self) -> (a: Action)
        requires
            self.wf(),
        ensures
            a@ == self@.request(),
    {
        if self.pc >= self.steps.len() {
            let c = match self.failure {
                Some(c) => c,
                None => Completion::Done(self.reply()),
            };
            Action::Finished(c)
        } else {
            match self.steps[self.pc] {
                Step::Read { register, target } => Action::ReadRegister {
                    address: self.address,
                    register: register.address(),
                    len: target.len(),
                },
                Step::Write { register, payload, delay } => self.write_action(register, payload, delay),
                Step::UpdateConfig { field, value } => self.write_action(
                    field.register(),
                    field.payload(value),
                    EEPROM_DELAY,
                ),
                Step::WaitReady => Action::WaitReady,
                Step::SetEnable { high } => Action::SetEnablePin { high },
                Step::Wait { ms } => Action::Delay { ms },
            }
        }
    }

    /// Starts operation `kind` with the program `steps`.
    fn begin(&mut self, kind: OpKind, steps: Vec<Step>) -> (a: Action)
        ensures
            final(self).wf(),
            final(self)@ == old(self)@.begin(kind, steps@).settle(),
            a@ == final(self)@.request(),
    {
        self.kind = kind;
        self.steps = steps;
        self.pc = 0;
        self.phase = Phase::First;
        self.failure = None;
        self.settle();
        self.request()
    }

    /// Powers on the sensor using the optional enable pin: drives the pin
    /// high and waits for the sensor to start up.
    pub fn power_on(&mut self) -> (a: Action)
        ensures
            final(self).wf(),
            final(self)@ == old(self)@.begin(OpKind::PowerOn, power_on_steps(old(self)@.has_enable_pin)).settle(),
            a@ == final(self)@.request(),
    {
        let mut steps = Vec::new();
        push_power_on(&mut steps, self.has_enable_pin);
        self.begin(OpKind::PowerOn, steps)
    }

    /// Powers off the sensor by resetting the optional enable pin.
    pub fn power_off(&mut self) -> (a: Action)
        ensures
            final(self).wf(),
            final(self)@ == old(self)@.begin(OpKind::PowerOff, power_off_steps(old(self)@.has_enable_pin)).settle(),
            a@ == final(self)@.request(),
    {
        let mut steps = Vec::new();
        push_power_off(&mut steps, self.has_enable_pin);
        self.begin(OpKind::PowerOff, steps)
    }

    /// Issues a start measurement command to the sensor.
    pub fn start_measurement(&mut self) -> (a: Action)
        ensures
            final(self).wf(),
            final(self)@ == old(self)@.begin(OpKind::StartMeasurement, start_measurement_steps()).settle(),
            a@ == final(self)@.request(),
    {
        let mut steps = Vec::new();
        steps.push(Step::Write { register: Registers::StartMesurement, payload: Payload::Byte(0x01), delay: RAM_DELAY });
        assert(steps@ =~= start_measurement_steps());
        self.begin(OpKind::StartMeasurement, steps)
    }

    /// Performs a soft reset by writing `0xFF` to the SCR register.
    pub fn reset(&mut self) -> (a: Action)
        ensures
            final(self).wf(),
            final(self)@ == old(self)@.begin(OpKind::Reset, reset_steps()).settle(),
            a@ == final(self)@.request(),
    {
        let mut steps = Vec::new();
        steps.push(Step::Write { register: Registers::Scr, payload: Payload::Byte(0xFF), delay: RAM_DELAY });
        assert(steps@ =~= reset_steps());
        self.begin(OpKind::Reset, steps)
    }

    /// Reads the scaled measured concentration from the sensor.
    pub fn scaled_measurement_get(&mut self) -> (a: Action)
        ensures
            final(self).wf(),
            final(self)@ == old(self)@.begin(OpKind::ScaledMeasurement, scaled_measurement_steps()).settle(),
            a@ == final(self)@.request(),
    {
        let mut steps = Vec::new();
        steps.push(Step::Read { register: Registers::ScaledMeasured, target: Target::ScaledValue });
        assert(steps@ =~= scaled_measurement_steps());
        self.begin(OpKind::ScaledMeasurement, steps)
    }

    /// Reads the elapsed time counter (ETC) from the sensor.
    pub fn elapsed_time_get(&mut self) -> (a: Action)
        ensures
            final(self).wf(),
            final(self)@ == old(self)@.begin(OpKind::ElapsedTime, elapsed_time_steps()).settle(),
            a@ == final(self)@.request(),
    {
        let mut steps = Vec::new();
        steps.push(Step::Read { register: Registers::Etc, target: Target::ElapsedValue });
        assert(steps@ =~= elapsed_time_steps());
        self.begin(OpKind::ElapsedTime, steps)
    }

    /// Retrieves the sensor's configuration values from the sensor's EEPROM
    /// registers; the operation returns the configuration read.
    pub fn get_config(&mut self) -> (a: Action)
        ensures
            final(self).wf(),
            final(self)@ == old(self)@.begin(OpKind::GetConfig, get_config_steps()).settle(),
            a@ == final(self)@.request(),
    {
        let mut steps = Vec::new();
        push_get_config(&mut steps);
        assert(steps@ =~= get_config_steps());
        self.begin(OpKind::GetConfig, steps)
    }

    /// Runs a background calibration; in single measurement mode the sensor
    /// gets its state data before and gives it back after.
    pub fn background_calibration(&mut self) -> (a: Action)
        ensures
            final(self).wf(),
            final(self)@ == old(self)@.begin(
                OpKind::BackgroundCalibration,
                background_calibration_steps(old(self)@.config.single_measurement_mode, old(self)@.set_data),
            ).settle(),
            a@ == final(self)@.request(),
    {
        let mut steps = Vec::new();
        push_background_calibration(&mut steps, self.config.single_measurement_mode, &self.set_data);
        assert(steps@ =~= background_calibration_steps(self.config.single_measurement_mode, self.set_data));
        self.begin(OpKind::BackgroundCalibration, steps)
    }

    /// Sets the target calibration value for the sensor.
    pub fn target_calibration(&mut self, value: u16) -> (a: Action)
        ensures
            final(self).wf(),
            final(self)@ == old(self)@.begin(OpKind::TargetCalibration, target_calibration_steps(value)).settle(),
            a@ == final(self)@.request(),
    {
        let mut steps = Vec::new();
        steps.push(Step::Write { register: Registers::CalibrationTarget, payload: Payload::Word(value), delay: RAM_DELAY });
        assert(steps@ =~= target_calibration_steps(value));
        self.begin(OpKind::TargetCalibration, steps)
    }

    /// Reads the sensor's state data, product type and configuration, then
    /// brings the configuration to `config_sensor`, if given.
    pub fn init(&mut self, config_sensor: Option<Config>) -> (a: Action)
        ensures
            final(self).wf(),
            final(self)@ == old(self)@.begin(OpKind::Init, init_steps(config_sensor)).settle(),
            a@ == final(self)@.request(),
    {
        let mut steps = Vec::new();
        push_init(&mut steps, config_sensor);
        assert(steps@ =~= init_steps(config_sensor));
        self.begin(OpKind::Init, steps)
    }

    /// Runs a CO2 measurement, handing the sensor the air pressure if given;
    /// the operation ends with the error that the sensor's error status
    /// reports, if any, and otherwise returns the measurement.
    pub fn co2_measurement_get(&mut self, pressure: Option<u16>) -> (a: Action)
        ensures
            final(self).wf(),
            final(self)@ == old(self)@.begin(
                OpKind::Co2Measurement,
                co2_measurement_steps(old(self)@.set_data, pressure),
            ).settle(),
            a@ == final(self)@.request(),
    {
        let mut steps = Vec::new();
        push_co2_measurement(&mut steps, &self.set_data, pressure);
        assert(steps@ =~= co2_measurement_steps(self.set_data, pressure));
        self.begin(OpKind::Co2Measurement, steps)
    }

    /// Whether the driver takes `event` as the result of the action it asked
    /// for last: an operation is under way and the event fits its current
    /// step: a read's bytes, as many as it asked for, or its failure; for
    /// any other step, its completion or failure.
    pub fn accepts(&self, event: &Event) -> (ok: bool)
        requires
            self.wf(),
        ensures
            ok == (self@.running() && self@.admits(event@)),
    {
        if self.pc >= self.steps.len() {
            return false;
        }
        match self.steps[self.pc] {
            Step::Read { target, .. } => match event {
                Event::Received(b) => b.len() == target.len(),
                Event::Failed => true,
                Event::Completed => false,
            },
            _ => match event {
                Event::Received(_) => false,
                _ => true,
            },
        }
    }

    /// The sensor's I2C address.
    pub fn address(&self) -> (a: u8)
        ensures
            a == self@.address,
    {
        self.address
    }

    /// Whether an operation is under way.
    pub fn is_running(&self) -> (r: bool)
        requires
            self.wf(),
        ensures
            r == self@.running(),
    {
        self.pc < self.steps.len()
    }

    /// The configuration last read from the sensor.
    pub fn config(&self) -> (c: Config)
        ensures
            c == self@.config,
    {
        self.config
    }

    /// The last measurement.
    pub fn measurement(&self) -> (m: &Measurement)
        ensures
            *m == self@.measurement,
    {
        &self.mesurement
    }

    /// The product information last read from the sensor.
    pub fn product_type(&self) -> (p: &ProductType)
        ensures
            p@ == self@.product_type,
    {
        &self.product_type
    }

    /// The state data last read from the sensor.
    pub fn set_data(&self) -> (d: SetData)
        ensures
            d == self@.set_data,
    {
        self.set_data
    }

    /// Takes in the result of the last action and returns the next one.
    pub fn advance(&mut self, event: Event) -> (a: Action)
        requires
            old(self).wf(),
            old(self)@.running(),
            old(self)@.admits(event@),
        ensures
            final(self).wf(),
            final(self)@ == old(self)@.on_event(event@).settle(),
            a@ == final(self)@.request(),
    {
        self.take_event(event);
        self.settle();
        self.request()
    }
}

/// Settling only moves forward: it keeps the data read so far apart from a
/// stop, never adds work, and leaves the phase of a step under way alone.
proof fn lemma_settle_no_more_work(m: SunriseModel)
    requires
        0 <= m.pc <= m.steps.len(),
        m.pc == m.steps.len() ==> m.phase == Phase::First,
    ensures
        0 <= m.settle().remaining_work() <= m.remaining_work(),
        m.settle().pc == m.steps.len() ==> m.settle().phase == Phase::First,
    decreases m.steps.len() - m.pc,
{
    if m.passes_over() {
        match m.current() {
            Step::Read { .. } => lemma_settle_no_more_work(m.without_product_code().next_step()),
            _ => lemma_settle_no_more_work(m.next_step()),
        }
    }
}

/// Every event that the driver takes in brings its operation closer to the
/// end: the work left, which is never negative, goes down by at least one,
/// so an operation of `n` steps is over after at most `3 n` events.
pub proof fn lemma_progress(m: SunriseModel, e: Reception)
    requires
        m.well_formed(),
        m.running(),
        m.admits(e),
    ensures
        0 <= m.on_event(e).settle().remaining_work() < m.remaining_work(),
{
    let n = m.on_event(e);
    assert(0 <= n.pc <= n.steps.len());
    assert(n.pc == n.steps.len() ==> n.phase == Phase::First);
    assert(n.remaining_work() < m.remaining_work());
    lemma_settle_no_more_work(n);
}

/// A read that fails is tried once more: the driver asks for the same read
/// again, and when that fails too the operation ends with a bus error, with
/// everything else as it was.
pub proof fn lemma_read_retried_once(m: SunriseModel)
    requires
        m.well_formed(),
        m.running(),
        m.current() is Read,
        m.phase == Phase::First,
    ensures
        m.on_event(Reception::Failed).settle().running(),
        m.on_event(Reception::Failed).settle().request() == m.request(),
        m.on_event(Reception::Failed).settle().on_event(Reception::Failed).settle() == m.stop(
            Completion::BusError,
        ),
        m.stop(Completion::BusError).request() == Request::Finished(Completion::BusError),
{
}

/// A write first wakes the sensor up, whatever that gives; then it sends the
/// frame of the register address and the data; a failed write ends the
/// operation with a bus error, a completed one waits the step's delay, and
/// then the next step begins.
pub proof fn lemma_write_protocol(
    m: SunriseModel,
    register: Registers,
    payload: Payload,
    delay: u32,
    wake: Reception,
)
    requires
        m.well_formed(),
        m.running(),
        m.phase == Phase::First,
        m.current() == (Step::Write { register, payload, delay }),
        !(wake is Received),
    ensures
        m.request() == (Request::WakeUp { address: m.address }),
        m.on_event(wake).settle().request() == (Request::Write {
            address: m.address,
            frame: frame_of(register, payload),
        }),
        m.on_event(wake).settle().on_event(Reception::Failed).settle() == m.stop(Completion::BusError),
        m.on_event(wake).settle().on_event(Reception::Completed).settle().request() == (Request::Delay { ms: delay }),
        m.on_event(wake).settle().on_event(Reception::Completed).settle().on_event(
            Reception::Completed,
        ) == m.next_step(),
{
}

/// A configuration update writes exactly when the configuration does not
/// already hold its value: then it wakes the sensor up and sends the frame of
/// the field's EEPROM register and the value; otherwise it needs no bus work.
pub proof fn lemma_config_update_writes_iff_changed(
    m: SunriseModel,
    field: ConfigField,
    value: u16,
    wake: Reception,
)
    requires
        m.running(),
        m.phase == Phase::First,
        m.failure is None,
        m.current() == (Step::UpdateConfig { field, value }),
        !(wake is Received),
    ensures
        m.passes_over() <==> m.config.field(field) == value,
        m.config.field(field) == value ==> m.settle() == m.next_step().settle(),
        m.config.field(field) != value ==> m.settle() == m && m.request() == (Request::WakeUp {
            address: m.address,
        }) && m.on_event(wake).settle().request() == (Request::Write {
            address: m.address,
            frame: frame_of(field.spec_register(), field.spec_payload(value)),
        }),
{
}

/// When the rest of the program brings the configuration to the one the
/// driver already holds, it writes nothing: the operation ends without any
/// bus work.
pub proof fn lemma_matching_config_writes_nothing(m: SunriseModel, c: Config)
    requires
        0 <= m.pc <= m.steps.len(),
        m.phase == Phase::First,
        m.failure is None,
        m.config == c,
        forall|i: int|
            m.pc <= i < m.steps.len() ==> exists|f: ConfigField| #[trigger] m.steps[i] == config_update(c, f),
    ensures
        m.settle() == (SunriseModel { pc: m.steps.len() as int, ..m }),
        !m.settle().running(),
    decreases m.steps.len() - m.pc,
{
    if m.running() {
        let f = choose|f: ConfigField| m.steps[m.pc] == config_update(c, f);
        assert(m.passes_over());
        lemma_matching_config_writes_nothing(m.next_step(), c);
    }
}

/// Bringing the sensor to the configuration that the driver already holds
/// writes nothing.
pub proof fn lemma_set_same_config_writes_nothing(m: SunriseModel, kind: OpKind)
    ensures
        !m.begin(kind, set_config_steps(m.config)).settle().running(),
{
    let b = m.begin(kind, set_config_steps(m.config));
    assert forall|i: int| b.pc <= i < b.steps.len() implies exists|f: ConfigField|
        #[trigger] b.steps[i] == config_update(m.config, f) by {
        assert(b.steps[i] == config_update(m.config, config_write_order()[i]));
    }
    lemma_matching_config_writes_nothing(b, m.config);
}


/// A background calibration goes on past its status check exactly when the
/// calibration status reads 0x20; otherwise it ends with a calibration error.
pub proof fn lemma_calibration_status_decides(m: SunriseModel, b: Seq<u8>)
    requires
        m.well_formed(),
        m.running(),
        m.current() == (Step::Read { register: Registers::CalibrationStatus, target: Target::CalibrationStatus }),
        b.len() == 1,
    ensures
        b[0] == CALIBRATION_DONE ==> m.on_event(Reception::Received(b)) == m.next_step(),
        b[0] != CALIBRATION_DONE ==> m.on_event(Reception::Received(b)).settle().request()
            == Request::Finished(Completion::Sensor(ErrorStatus::CalibrationError)),
{
}

/// A CO2 measurement goes on past its error status read exactly when the
/// word read reports no error; otherwise it ends with the error that the
/// word reports, the one of its most significant flag bit.
pub proof fn lemma_error_word_decides(m: SunriseModel, b: Seq<u8>)
    requires
        m.well_formed(),
        m.running(),
        m.current() == (Step::Read { register: Registers::ErrorStatus, target: Target::ErrorWord }),
        b.len() == 2,
    ensures
        ErrorStatus::<()>::decode(be_u16(b[0], b[1])) is None ==> m.on_event(Reception::Received(b)) == m.next_step(),
        ErrorStatus::<()>::decode(be_u16(b[0], b[1])) matches Some(e) ==> m.on_event(Reception::Received(b)).settle().request()
            == Request::Finished(Completion::Sensor(e)),
{
}

} // verus!
