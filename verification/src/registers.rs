//! The sensor's I2C register map and the decoding of its error status word.
use vstd::prelude::*;

verus! {

/// The registers of the Sunrise sensor that the driver reads or writes.
///
/// Each register is named by the byte address at which it starts; a value of
/// more than one byte occupies the following addresses too, most significant
/// byte first.
#[derive(Clone, Copy, Debug, PartialEq, Eq, Structural)]
pub enum Registers {
    ErrorStatus,
    MeasuredFilteredPc,
    Temperature,
    MeasurementCount,
    MeasurCycleTime,
    MeasUnfPressCompens,
    MeasFilPressCompens,
    MeasuredUnfiltered,
    FirmwareType,
    FirmwareVer,
    SensorId,
    ProductCode,
    CalibrationStatus,
    CalibrationCommand,
    CalibrationTarget,
    MeasurementModeEe,
    MeasurementPeriodEe,
    NumberOfSamplesEe,
    AbcPeriodEe,
    AbcTargetEe,
    StaticIIRFilterEe,
    MeterControlEe,
    I2cAddressEe,
    NominatorEe,
    DenominatorEe,
    ScaleAbcTarget,
    StartMesurement,
    PressureValue,
    AbcTime,
    AbcPar0,
    AbcPar1,
    AbcPar2,
    AbcPar3,
    FilterPar0,
    FilterPar1,
    FilterPar2,
    FilterPar3,
    FilterPar4,
    FilterPar5,
    FilterPar6,
    ClearErrorStatus,
    /// Soft-reset control register: writing `0xFF` restarts the sensor.
    Scr,
    /// Scaled measured concentration.
    ScaledMeasured,
    /// Elapsed time counter (four bytes).
    Etc,
}

impl Registers {
    /// The byte address of the register.
    pub open spec fn spec_address(self) -> u8 {
        match self {
            Registers::ErrorStatus => 0x00,
            Registers::MeasuredFilteredPc => 0x06,
            Registers::Temperature => 0x08,
            Registers::MeasurementCount => 0x0D,
            Registers::MeasurCycleTime => 0x0E,
            Registers::MeasUnfPressCompens => 0x10,
            Registers::MeasFilPressCompens => 0x12,
            Registers::MeasuredUnfiltered => 0x14,
            Registers::FirmwareType => 0x2F,
            Registers::FirmwareVer => 0x38,
            Registers::SensorId => 0x3A,
            Registers::ProductCode => 0x70,
            Registers::CalibrationStatus => 0x81,
            Registers::CalibrationCommand => 0x82,
            Registers::CalibrationTarget => 0x84,
            Registers::MeasurementModeEe => 0x95,
            Registers::MeasurementPeriodEe => 0x96,
            Registers::NumberOfSamplesEe => 0x98,
            Registers::AbcPeriodEe => 0x9A,
            Registers::AbcTargetEe => 0x9E,
            Registers::StaticIIRFilterEe => 0xA1,
            Registers::MeterControlEe => 0xA5,
            Registers::I2cAddressEe => 0xA7,
            Registers::NominatorEe => 0xA8,
            Registers::DenominatorEe => 0xAA,
            Registers::ScaleAbcTarget => 0xB0,
            Registers::StartMesurement => 0xC3,
            Registers::PressureValue => 0xDC,
            Registers::AbcTime => 0xC4,
            Registers::AbcPar0 => 0xC6,
            Registers::AbcPar1 => 0xC8,
            Registers::AbcPar2 => 0xCA,
            Registers::AbcPar3 => 0xCC,
            Registers::FilterPar0 => 0xCE,
            Registers::FilterPar1 => 0xD0,
            Registers::FilterPar2 => 0xD2,
            Registers::FilterPar3 => 0xD4,
            Registers::FilterPar4 => 0xD6,
            Registers::FilterPar5 => 0xD8,
            Registers::FilterPar6 => 0xDA,
            Registers::ClearErrorStatus => 0x9D,
            Registers::Scr => 0xA3,
            Registers::ScaledMeasured => 0x16,
            Registers::Etc => 0x18,
        }
    }

    /// The byte address of the register, as sent on the bus.
    #[verifier::when_used_as_spec(spec_address)]
    pub fn address(self) -> (a: u8)
        ensures
            a == self.spec_address(),
    {
        match self {
            Registers::ErrorStatus => 0x00,
            Registers::MeasuredFilteredPc => 0x06,
            Registers::Temperature => 0x08,
            Registers::MeasurementCount => 0x0D,
            Registers::MeasurCycleTime => 0x0E,
            Registers::MeasUnfPressCompens => 0x10,
            Registers::MeasFilPressCompens => 0x12,
            Registers::MeasuredUnfiltered => 0x14,
            Registers::FirmwareType => 0x2F,
            Registers::FirmwareVer => 0x38,
            Registers::SensorId => 0x3A,
            Registers::ProductCode => 0x70,
            Registers::CalibrationStatus => 0x81,
            Registers::CalibrationCommand => 0x82,
            Registers::CalibrationTarget => 0x84,
            Registers::MeasurementModeEe => 0x95,
            Registers::MeasurementPeriodEe => 0x96,
            Registers::NumberOfSamplesEe => 0x98,
            Registers::AbcPeriodEe => 0x9A,
            Registers::AbcTargetEe => 0x9E,
            Registers::StaticIIRFilterEe => 0xA1,
            Registers::MeterControlEe => 0xA5,
            Registers::I2cAddressEe => 0xA7,
            Registers::NominatorEe => 0xA8,
            Registers::DenominatorEe => 0xAA,
            Registers::ScaleAbcTarget => 0xB0,
            Registers::StartMesurement => 0xC3,
            Registers::PressureValue => 0xDC,
            Registers::AbcTime => 0xC4,
            Registers::AbcPar0 => 0xC6,
            Registers::AbcPar1 => 0xC8,
            Registers::AbcPar2 => 0xCA,
            Registers::AbcPar3 => 0xCC,
            Registers::FilterPar0 => 0xCE,
            Registers::FilterPar1 => 0xD0,
            Registers::FilterPar2 => 0xD2,
            Registers::FilterPar3 => 0xD4,
            Registers::FilterPar4 => 0xD6,
            Registers::FilterPar5 => 0xD8,
            Registers::FilterPar6 => 0xDA,
            Registers::ClearErrorStatus => 0x9D,
            Registers::Scr => 0xA3,
            Registers::ScaledMeasured => 0x16,
            Registers::Etc => 0x18,
        }
    }
}

/// The errors of the driver: a failure of the I2C bus, carrying the bus's own
/// error, or one of the error flags that the sensor reports in its error
/// status register.
#[derive(Clone, Copy, Debug)]
pub enum ErrorStatus<E> {
    I2c(E),
    LowInternalRegulatedVoltage,
    MeasurementTimeout,
    AbnormalSignalLevel,
    ScaleFactorError,
    FatalError,
    I2cError,
    AlgoritmError,
    CalibrationError,
    SelfDiagnosticsError,
    OutOfRange,
    MemoryError,
    NoMeasurementCompleted,
}

/// True when bit `n` (counted from the least significant bit) is set in `bits`.
pub open spec fn bit_set(bits: u16, n: u16) -> bool {
    n < 16 && (bits >> n) & 1 == 1
}

/// The mask of all the bits that carry an error flag.
pub open spec fn flag_mask() -> u16 {
    0xE1FF
}

impl<E> ErrorStatus<E> {
    /// The bit of the error status word that reports this error, if the
    /// sensor reports it there.
    pub open spec fn flag_bit(self) -> Option<u16> {
        match self {
            ErrorStatus::I2c(_) => None,
            ErrorStatus::LowInternalRegulatedVoltage => Some(15),
            ErrorStatus::MeasurementTimeout => Some(14),
            ErrorStatus::AbnormalSignalLevel => Some(13),
            ErrorStatus::ScaleFactorError => Some(8),
            ErrorStatus::FatalError => Some(7),
            ErrorStatus::I2cError => Some(6),
            ErrorStatus::AlgoritmError => Some(5),
            ErrorStatus::CalibrationError => Some(4),
            ErrorStatus::SelfDiagnosticsError => Some(3),
            ErrorStatus::OutOfRange => Some(2),
            ErrorStatus::MemoryError => Some(1),
            ErrorStatus::NoMeasurementCompleted => Some(0),
        }
    }

    /// The error that the sensor reports by bit `n` of its error status word.
    pub open spec fn for_bit(n: u16) -> Option<Self> {
        if n == 15 {
            Some(ErrorStatus::LowInternalRegulatedVoltage)
        } else if n == 14 {
            Some(ErrorStatus::MeasurementTimeout)
        } else if n == 13 {
            Some(ErrorStatus::AbnormalSignalLevel)
        } else if n == 8 {
            Some(ErrorStatus::ScaleFactorError)
        } else if n == 7 {
            Some(ErrorStatus::FatalError)
        } else if n == 6 {
            Some(ErrorStatus::I2cError)
        } else if n == 5 {
            Some(ErrorStatus::AlgoritmError)
        } else if n == 4 {
            Some(ErrorStatus::CalibrationError)
        } else if n == 3 {
            Some(ErrorStatus::SelfDiagnosticsError)
        } else if n == 2 {
            Some(ErrorStatus::OutOfRange)
        } else if n == 1 {
            Some(ErrorStatus::MemoryError)
        } else if n == 0 {
            Some(ErrorStatus::NoMeasurementCompleted)
        } else {
            None
        }
    }

    /// The error reported by the status word `bits`: that of the most
    /// significant flag bit that is set (bits 9 to 12 carry no flag), or none
    /// when no flag bit is set.
    pub open spec fn decode(bits: u16) -> Option<Self> {
        if bit_set(bits, 15) {
            Self::for_bit(15)
        } else if bit_set(bits, 14) {
            Self::for_bit(14)
        } else if bit_set(bits, 13) {
            Self::for_bit(13)
        } else if bit_set(bits, 8) {
            Self::for_bit(8)
        } else if bit_set(bits, 7) {
            Self::for_bit(7)
        } else if bit_set(bits, 6) {
            Self::for_bit(6)
        } else if bit_set(bits, 5) {
            Self::for_bit(5)
        } else if bit_set(bits, 4) {
            Self::for_bit(4)
        } else if bit_set(bits, 3) {
            Self::for_bit(3)
        } else if bit_set(bits, 2) {
            Self::for_bit(2)
        } else if bit_set(bits, 1) {
            Self::for_bit(1)
        } else if bit_set(bits, 0) {
            Self::for_bit(0)
        } else {
            None
        }
    }

    /// Create an [`ErrorStatus`] from the raw sensor error bits.
    pub fn from_bits(bits: u16) -> (r: Option<Self>)
        ensures
            r == Self::decode(bits),
    {
        proof {
            lemma_bit_tests(bits);
        }
        if bits & (1u16 << 15u16) != 0 {
            Some(ErrorStatus::LowInternalRegulatedVoltage)
        } else if bits & (1u16 << 14u16) != 0 {
            Some(ErrorStatus::MeasurementTimeout)
        } else if bits & (1u16 << 13u16) != 0 {
            Some(ErrorStatus::AbnormalSignalLevel)
        } else if bits & (1u16 << 8u16) != 0 {
            Some(ErrorStatus::ScaleFactorError)
        } else if bits & (1u16 << 7u16) != 0 {
            Some(ErrorStatus::FatalError)
        } else if bits & (1u16 << 6u16) != 0 {
            Some(ErrorStatus::I2cError)
        } else if bits & (1u16 << 5u16) != 0 {
            Some(ErrorStatus::AlgoritmError)
        } else if bits & (1u16 << 4u16) != 0 {
            Some(ErrorStatus::CalibrationError)
        } else if bits & (1u16 << 3u16) != 0 {
            Some(ErrorStatus::SelfDiagnosticsError)
        } else if bits & (1u16 << 2u16) != 0 {
            Some(ErrorStatus::OutOfRange)
        } else if bits & (1u16 << 1u16) != 0 {
            Some(ErrorStatus::MemoryError)
        } else if bits & (1u16 << 0u16) != 0 {
            Some(ErrorStatus::NoMeasurementCompleted)
        } else {
            None
        }
    }
}

/// The mask tests that `from_bits` makes agree with `bit_set`.
proof fn lemma_bit_tests(bits: u16)
    ensures
        (bits & (1u16 << 15u16) != 0) == bit_set(bits, 15),
        (bits & (1u16 << 14u16) != 0) == bit_set(bits, 14),
        (bits & (1u16 << 13u16) != 0) == bit_set(bits, 13),
        (bits & (1u16 << 8u16) != 0) == bit_set(bits, 8),
        (bits & (1u16 << 7u16) != 0) == bit_set(bits, 7),
        (bits & (1u16 << 6u16) != 0) == bit_set(bits, 6),
        (bits & (1u16 << 5u16) != 0) == bit_set(bits, 5),
        (bits & (1u16 << 4u16) != 0) == bit_set(bits, 4),
        (bits & (1u16 << 3u16) != 0) == bit_set(bits, 3),
        (bits & (1u16 << 2u16) != 0) == bit_set(bits, 2),
        (bits & (1u16 << 1u16) != 0) == bit_set(bits, 1),
        (bits & (1u16 << 0u16) != 0) == bit_set(bits, 0),
{
    assert(forall|n: u16| #![auto] n < 16 ==> ((bits & (1u16 << n) != 0) == ((bits >> n) & 1 == 1)))
        by (bit_vector);
}

/// No error is reported exactly when none of the flag bits is set.
pub proof fn lemma_decode_none_iff_no_flag<E>(bits: u16)
    ensures
        ErrorStatus::<E>::decode(bits).is_none() <==> bits & flag_mask() == 0,
{
    assert(((bits >> 15u16) & 1 != 1 && (bits >> 14u16) & 1 != 1 && (bits >> 13u16) & 1 != 1
        && (bits >> 8u16) & 1 != 1 && (bits >> 7u16) & 1 != 1 && (bits >> 6u16) & 1 != 1
        && (bits >> 5u16) & 1 != 1 && (bits >> 4u16) & 1 != 1 && (bits >> 3u16) & 1 != 1
        && (bits >> 2u16) & 1 != 1 && (bits >> 1u16) & 1 != 1 && (bits >> 0u16) & 1 != 1)
        <==> bits & 0xE1FF == 0) by (bit_vector);
}

/// Bits 9 to 12 of the status word, which carry no flag, never change the
/// error that the word reports.
pub proof fn lemma_decode_ignores_reserved_bits<E>(bits: u16)
    ensures
        ErrorStatus::<E>::decode(bits) == ErrorStatus::<E>::decode(bits & flag_mask()),
{
    let m = bits & 0xE1FFu16;
    assert(forall|k: u16| #![auto] k < 16 && (0xE1FFu16 >> k) & 1 == 1 ==> (((bits >> k) & 1 == 1)
        == ((m >> k) & 1 == 1))) by (bit_vector)
        requires
            m == bits & 0xE1FFu16,
    ;
    assert(forall|m: u16| #![auto] m < 16 && !(9 <= m <= 12) ==> (0xE1FFu16 >> m) & 1 == 1)
        by (bit_vector);
}

/// A status word with a single flag bit set reports the error of that flag,
/// and every flag of the sensor has its own error.
pub proof fn lemma_decode_single_flag<E>(e: ErrorStatus<E>)
    requires
        e.flag_bit() is Some,
    ensures
        ErrorStatus::<E>::decode((1u16 << e.flag_bit()->0) as u16) == Some(e),
        ErrorStatus::<E>::for_bit(e.flag_bit()->0) == Some(e),
{
    let n = e.flag_bit()->0;
    let w = (1u16 << n) as u16;
    assert(n < 16 ==> forall|k: u16| #![auto] k < 16 ==> (((w >> k) & 1 == 1) <==> k == n)) by (bit_vector)
        requires w == (1u16 << n) as u16;
}

/// The error that a status word reports is that of a flag whose bit is set,
/// and no flag bit above it is set.
pub proof fn lemma_decode_reports_highest_flag<E>(bits: u16)
    ensures
        match ErrorStatus::<E>::decode(bits) {
            Some(e) => e.flag_bit() is Some && bit_set(bits, e.flag_bit()->0) && forall|m: u16|
                e.flag_bit()->0 < m < 16 && bit_set(flag_mask(), m) ==> !#[trigger] bit_set(bits, m),
            None => forall|m: u16| m < 16 && bit_set(flag_mask(), m) ==> !#[trigger] bit_set(bits, m),
        },
{
    assert(forall|m: u16| #![auto] 9 <= m <= 12 ==> (0xE1FFu16 >> m) & 1 != 1) by (bit_vector);
    assert(forall|m: u16| #![auto] m < 16 && !(9 <= m <= 12) ==> (0xE1FFu16 >> m) & 1 == 1) by (bit_vector);
}

} // verus!
