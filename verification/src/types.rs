//! The values that the driver reads from and writes to the sensor.
use crate::bounded::{product_code_bytes, product_code_new};
use crate::codec::{be_i16, be_u16, be_u32, i16_from_be, u16_from_be, u32_from_be};
use vstd::prelude::*;

verus! {

/// The product information of the sensor.
#[derive(Debug)]
pub struct ProductType {
    pub firmware_type: u8,
    pub main_revision: u8,
    pub sub_revision: u8,
    pub sensor_id: u32,
    pub product_code: heapless::String<16>,
}

/// The product information as plain values: the product code by its UTF-8
/// bytes.
pub struct ProductInfo {
    pub firmware_type: u8,
    pub main_revision: u8,
    pub sub_revision: u8,
    pub sensor_id: u32,
    pub product_code: Seq<u8>,
}

impl View for ProductType {
    type V = ProductInfo;

    open spec fn view(&self) -> ProductInfo {
        ProductInfo {
            firmware_type: self.firmware_type,
            main_revision: self.main_revision,
            sub_revision: self.sub_revision,
            sensor_id: self.sensor_id,
            product_code: product_code_bytes(self.product_code),
        }
    }
}

impl Default for ProductType {
    fn default() -> (p: Self)
        ensures
            p@ == (ProductInfo {
                firmware_type: 0,
                main_revision: 0,
                sub_revision: 0,
                sensor_id: 0,
                product_code: Seq::<u8>::empty(),
            }),
    {
        ProductType {
            firmware_type: 0,
            main_revision: 0,
            sub_revision: 0,
            sensor_id: 0,
            product_code: product_code_new(),
        }
    }
}

/// The configuration that the sensor keeps in its EEPROM.
#[derive(Clone, Copy, Debug, PartialEq, Eq, Structural)]
pub struct Config {
    pub single_measurement_mode: u8,
    pub measurement_period: u16,
    pub number_of_samples: u16,
    pub abc_period: u16,
    pub abc_target: u16,
    pub iir_filter: u8,
    pub meter_control: u8,
    pub i2c_address: u8,
    pub nominator: u16,
    pub denominator: u16,
    pub scaled_abc_target: u16,
}

/// The configuration with every value zero.
pub open spec fn zero_config() -> Config {
    Config {
        single_measurement_mode: 0,
        measurement_period: 0,
        number_of_samples: 0,
        abc_period: 0,
        abc_target: 0,
        iir_filter: 0,
        meter_control: 0,
        i2c_address: 0,
        nominator: 0,
        denominator: 0,
        scaled_abc_target: 0,
    }
}

impl Default for Config {
    fn default() -> (c: Self)
        ensures
            c == zero_config(),
    {
        Config {
            single_measurement_mode: 0,
            measurement_period: 0,
            number_of_samples: 0,
            abc_period: 0,
            abc_target: 0,
            iir_filter: 0,
            meter_control: 0,
            i2c_address: 0,
            nominator: 0,
            denominator: 0,
            scaled_abc_target: 0,
        }
    }
}

/// The state data of the sensor's ABC and filter algorithms, which the host
/// saves and restores around each measurement in single measurement mode.
#[derive(Clone, Copy, Debug, PartialEq, Eq, Structural)]
pub struct SetData {
    pub abc_time: u16,
    pub abc_par0: u16,
    pub abc_par1: u16,
    pub abc_par2: u16,
    pub abc_par3: u16,
    pub filter_par0: u16,
    pub filter_par1: u16,
    pub filter_par2: u16,
    pub filter_par3: u16,
    pub filter_par4: u16,
    pub filter_par5: u16,
    pub filter_par6: u16,
}

/// The state data with every value zero.
pub open spec fn zero_set_data() -> SetData {
    SetData {
        abc_time: 0,
        abc_par0: 0,
        abc_par1: 0,
        abc_par2: 0,
        abc_par3: 0,
        filter_par0: 0,
        filter_par1: 0,
        filter_par2: 0,
        filter_par3: 0,
        filter_par4: 0,
        filter_par5: 0,
        filter_par6: 0,
    }
}

impl Default for SetData {
    fn default() -> (d: Self)
        ensures
            d == zero_set_data(),
    {
        SetData {
            abc_time: 0,
            abc_par0: 0,
            abc_par1: 0,
            abc_par2: 0,
            abc_par3: 0,
            filter_par0: 0,
            filter_par1: 0,
            filter_par2: 0,
            filter_par3: 0,
            filter_par4: 0,
            filter_par5: 0,
            filter_par6: 0,
        }
    }
}

/// The results of a measurement.
#[derive(Clone, Copy, Debug, PartialEq, Eq, Structural)]
pub struct Measurement {
    pub measured_filtered_press_comp: i16,
    pub temperature: i16,
    pub measurement_count: u8,
    pub measurement_cycle_time: u16,
    pub measured_unfiltered_press_comp: i16,
    pub measured_filtered: i16,
    pub measured_unfiltered: i16,
    pub scaled_measured: i16,
    pub etc: u32,
}

/// The measurement with every value zero.
pub open spec fn zero_measurement() -> Measurement {
    Measurement {
        measured_filtered_press_comp: 0,
        temperature: 0,
        measurement_count: 0,
        measurement_cycle_time: 0,
        measured_unfiltered_press_comp: 0,
        measured_filtered: 0,
        measured_unfiltered: 0,
        scaled_measured: 0,
        etc: 0,
    }
}

impl Default for Measurement {
    fn default() -> (m: Self)
        ensures
            m == zero_measurement(),
    {
        Measurement {
            measured_filtered_press_comp: 0,
            temperature: 0,
            measurement_count: 0,
            measurement_cycle_time: 0,
            measured_unfiltered_press_comp: 0,
            measured_filtered: 0,
            measured_unfiltered: 0,
            scaled_measured: 0,
            etc: 0,
        }
    }
}

/// A value of the state data.
#[derive(Clone, Copy, Debug, PartialEq, Eq, Structural)]
pub enum StateField {
    AbcTime,
    AbcPar0,
    AbcPar1,
    AbcPar2,
    AbcPar3,
    FilterPar0,
    FilterPar1,
    FilterPar2,
    FilterPar3,
    FilterPar4,
    FilterPar5,
    FilterPar6,
}

impl SetData {
    /// The value of field `f`.
    pub open spec fn field(self, f: StateField) -> u16 {
        match f {
            StateField::AbcTime => self.abc_time,
            StateField::AbcPar0 => self.abc_par0,
            StateField::AbcPar1 => self.abc_par1,
            StateField::AbcPar2 => self.abc_par2,
            StateField::AbcPar3 => self.abc_par3,
            StateField::FilterPar0 => self.filter_par0,
            StateField::FilterPar1 => self.filter_par1,
            StateField::FilterPar2 => self.filter_par2,
            StateField::FilterPar3 => self.filter_par3,
            StateField::FilterPar4 => self.filter_par4,
            StateField::FilterPar5 => self.filter_par5,
            StateField::FilterPar6 => self.filter_par6,
        }
    }

    /// The state data with field `f` set to `v`.
    pub open spec fn with_field(self, f: StateField, v: u16) -> SetData {
        match f {
            StateField::AbcTime => SetData { abc_time: v, ..self },
            StateField::AbcPar0 => SetData { abc_par0: v, ..self },
            StateField::AbcPar1 => SetData { abc_par1: v, ..self },
            StateField::AbcPar2 => SetData { abc_par2: v, ..self },
            StateField::AbcPar3 => SetData { abc_par3: v, ..self },
            StateField::FilterPar0 => SetData { filter_par0: v, ..self },
            StateField::FilterPar1 => SetData { filter_par1: v, ..self },
            StateField::FilterPar2 => SetData { filter_par2: v, ..self },
            StateField::FilterPar3 => SetData { filter_par3: v, ..self },
            StateField::FilterPar4 => SetData { filter_par4: v, ..self },
            StateField::FilterPar5 => SetData { filter_par5: v, ..self },
            StateField::FilterPar6 => SetData { filter_par6: v, ..self },
        }
    }

    /// The value of field `f`.
    pub fn value(&self, f: StateField) -> (v: u16)
        ensures
            v == self.field(f),
    {
        match f {
            StateField::AbcTime => self.abc_time,
            StateField::AbcPar0 => self.abc_par0,
            StateField::AbcPar1 => self.abc_par1,
            StateField::AbcPar2 => self.abc_par2,
            StateField::AbcPar3 => self.abc_par3,
            StateField::FilterPar0 => self.filter_par0,
            StateField::FilterPar1 => self.filter_par1,
            StateField::FilterPar2 => self.filter_par2,
            StateField::FilterPar3 => self.filter_par3,
            StateField::FilterPar4 => self.filter_par4,
            StateField::FilterPar5 => self.filter_par5,
            StateField::FilterPar6 => self.filter_par6,
        }
    }

    /// Sets field `f` to the big-endian value of `hi`, `lo`.
    pub fn store(&mut self, f: StateField, hi: u8, lo: u8)
        ensures
            *final(self) == old(self).with_field(f, be_u16(hi, lo)),
    {
        let v = u16_from_be(hi, lo);
        match f {
            StateField::AbcTime => self.abc_time = v,
            StateField::AbcPar0 => self.abc_par0 = v,
            StateField::AbcPar1 => self.abc_par1 = v,
            StateField::AbcPar2 => self.abc_par2 = v,
            StateField::AbcPar3 => self.abc_par3 = v,
            StateField::FilterPar0 => self.filter_par0 = v,
            StateField::FilterPar1 => self.filter_par1 = v,
            StateField::FilterPar2 => self.filter_par2 = v,
            StateField::FilterPar3 => self.filter_par3 = v,
            StateField::FilterPar4 => self.filter_par4 = v,
            StateField::FilterPar5 => self.filter_par5 = v,
            StateField::FilterPar6 => self.filter_par6 = v,
        }
    }
}

/// A value of the configuration.
#[derive(Clone, Copy, Debug, PartialEq, Eq, Structural)]
pub enum ConfigField {
    SingleMeasurementMode,
    MeasurementPeriod,
    NumberOfSamples,
    AbcPeriod,
    AbcTarget,
    IirFilter,
    MeterControl,
    I2cAddress,
    Nominator,
    Denominator,
    ScaledAbcTarget,
}

impl ConfigField {
    /// True for the values of one byte.
    pub open spec fn is_byte(self) -> bool {
        match self {
            ConfigField::SingleMeasurementMode => true,
            ConfigField::IirFilter => true,
            ConfigField::MeterControl => true,
            ConfigField::I2cAddress => true,
            _ => false,
        }
    }

    /// True for the values of one byte.
    #[verifier::when_used_as_spec(is_byte)]
    pub fn byte_sized(self) -> (b: bool)
        ensures
            b == self.is_byte(),
    {
        match self {
            ConfigField::SingleMeasurementMode => true,
            ConfigField::IirFilter => true,
            ConfigField::MeterControl => true,
            ConfigField::I2cAddress => true,
            _ => false,
        }
    }
}

impl Config {
    /// The value of field `f`, a byte value widened to 16 bits.
    pub open spec fn field(self, f: ConfigField) -> u16 {
        match f {
            ConfigField::SingleMeasurementMode => self.single_measurement_mode as u16,
            ConfigField::MeasurementPeriod => self.measurement_period,
            ConfigField::NumberOfSamples => self.number_of_samples,
            ConfigField::AbcPeriod => self.abc_period,
            ConfigField::AbcTarget => self.abc_target,
            ConfigField::IirFilter => self.iir_filter as u16,
            ConfigField::MeterControl => self.meter_control as u16,
            ConfigField::I2cAddress => self.i2c_address as u16,
            ConfigField::Nominator => self.nominator,
            ConfigField::Denominator => self.denominator,
            ConfigField::ScaledAbcTarget => self.scaled_abc_target,
        }
    }

    /// The configuration after reading field `f` from a register that gave
    /// the bytes `b0`, `b1`: a byte value is the first byte, a 16-bit value
    /// is both bytes, big-endian.
    pub open spec fn with_read(self, f: ConfigField, b0: u8, b1: u8) -> Config {
        let w = be_u16(b0, b1);
        match f {
            ConfigField::SingleMeasurementMode => Config { single_measurement_mode: b0, ..self },
            ConfigField::MeasurementPeriod => Config { measurement_period: w, ..self },
            ConfigField::NumberOfSamples => Config { number_of_samples: w, ..self },
            ConfigField::AbcPeriod => Config { abc_period: w, ..self },
            ConfigField::AbcTarget => Config { abc_target: w, ..self },
            ConfigField::IirFilter => Config { iir_filter: b0, ..self },
            ConfigField::MeterControl => Config { meter_control: b0, ..self },
            ConfigField::I2cAddress => Config { i2c_address: b0, ..self },
            ConfigField::Nominator => Config { nominator: w, ..self },
            ConfigField::Denominator => Config { denominator: w, ..self },
            ConfigField::ScaledAbcTarget => Config { scaled_abc_target: w, ..self },
        }
    }

    /// The value of field `f`, a byte value widened to 16 bits.
    pub fn value(&self, f: ConfigField) -> (v: u16)
        ensures
            v == self.field(f),
    {
        match f {
            ConfigField::SingleMeasurementMode => self.single_measurement_mode as u16,
            ConfigField::MeasurementPeriod => self.measurement_period,
            ConfigField::NumberOfSamples => self.number_of_samples,
            ConfigField::AbcPeriod => self.abc_period,
            ConfigField::AbcTarget => self.abc_target,
            ConfigField::IirFilter => self.iir_filter as u16,
            ConfigField::MeterControl => self.meter_control as u16,
            ConfigField::I2cAddress => self.i2c_address as u16,
            ConfigField::Nominator => self.nominator,
            ConfigField::Denominator => self.denominator,
            ConfigField::ScaledAbcTarget => self.scaled_abc_target,
        }
    }

    /// Stores in field `f` what its register gave: the bytes `b0`, `b1`.
    pub fn store(&mut self, f: ConfigField, b0: u8, b1: u8)
        ensures
            *final(self) == old(self).with_read(f, b0, b1),
    {
        let w = u16_from_be(b0, b1);
        match f {
            ConfigField::SingleMeasurementMode => self.single_measurement_mode = b0,
            ConfigField::MeasurementPeriod => self.measurement_period = w,
            ConfigField::NumberOfSamples => self.number_of_samples = w,
            ConfigField::AbcPeriod => self.abc_period = w,
            ConfigField::AbcTarget => self.abc_target = w,
            ConfigField::IirFilter => self.iir_filter = b0,
            ConfigField::MeterControl => self.meter_control = b0,
            ConfigField::I2cAddress => self.i2c_address = b0,
            ConfigField::Nominator => self.nominator = w,
            ConfigField::Denominator => self.denominator = w,
            ConfigField::ScaledAbcTarget => self.scaled_abc_target = w,
        }
    }
}

/// A value of the measurement.
#[derive(Clone, Copy, Debug, PartialEq, Eq, Structural)]
pub enum MeasurementField {
    FilteredPressComp,
    Temperature,
    Count,
    CycleTime,
    UnfilteredPressComp,
    Filtered,
    Unfiltered,
    Scaled,
    ElapsedTime,
}

impl MeasurementField {
    /// The number of bytes that the register of the field is read with.
    pub open spec fn read_len(self) -> nat {
        match self {
            MeasurementField::ElapsedTime => 4,
            _ => 2,
        }
    }
}

impl Measurement {
    /// The measurement after reading field `f` from a register that gave the
    /// bytes `b`: the count is the first byte, the elapsed time counter four
    /// bytes, the cycle time an unsigned and the concentrations and the
    /// temperature signed 16-bit values, all big-endian.
    pub open spec fn with_read(self, f: MeasurementField, b: Seq<u8>) -> Measurement {
        let s = be_i16(b[0], b[1]);
        match f {
            MeasurementField::FilteredPressComp => Measurement {
                measured_filtered_press_comp: s,
                ..self
            },
            MeasurementField::Temperature => Measurement { temperature: s, ..self },
            MeasurementField::Count => Measurement { measurement_count: b[0], ..self },
            MeasurementField::CycleTime => Measurement {
                measurement_cycle_time: be_u16(b[0], b[1]),
                ..self
            },
            MeasurementField::UnfilteredPressComp => Measurement {
                measured_unfiltered_press_comp: s,
                ..self
            },
            MeasurementField::Filtered => Measurement { measured_filtered: s, ..self },
            MeasurementField::Unfiltered => Measurement { measured_unfiltered: s, ..self },
            MeasurementField::Scaled => Measurement { scaled_measured: s, ..self },
            MeasurementField::ElapsedTime => Measurement {
                etc: be_u32(b[0], b[1], b[2], b[3]),
                ..self
            },
        }
    }

    /// Stores in field `f` what its register gave: the bytes `b`.
    pub fn store(&mut self, f: MeasurementField, b: &[u8])
        requires
            b@.len() == f.read_len(),
        ensures
            *final(self) == old(self).with_read(f, b@),
    {
        match f {
            MeasurementField::FilteredPressComp => {
                self.measured_filtered_press_comp = i16_from_be(b[0], b[1]);
            },
            MeasurementField::Temperature => {
                self.temperature = i16_from_be(b[0], b[1]);
            },
            MeasurementField::Count => {
                self.measurement_count = b[0];
            },
            MeasurementField::CycleTime => {
                self.measurement_cycle_time = u16_from_be(b[0], b[1]);
            },
            MeasurementField::UnfilteredPressComp => {
                self.measured_unfiltered_press_comp = i16_from_be(b[0], b[1]);
            },
            MeasurementField::Filtered => {
                self.measured_filtered = i16_from_be(b[0], b[1]);
            },
            MeasurementField::Unfiltered => {
                self.measured_unfiltered = i16_from_be(b[0], b[1]);
            },
            MeasurementField::Scaled => {
                self.scaled_measured = i16_from_be(b[0], b[1]);
            },
            MeasurementField::ElapsedTime => {
                self.etc = u32_from_be(b[0], b[1], b[2], b[3]);
            },
        }
    }
}

} // verus!
