use sunrise_lib::registers::{ErrorStatus, Registers};

fn decode(bits: u16) -> Option<ErrorStatus<()>> {
    ErrorStatus::<()>::from_bits(bits)
}

fn name(e: Option<ErrorStatus<()>>) -> String {
    match e {
        None => "none".to_string(),
        Some(e) => format!("{:?}", e),
    }
}

#[test]
fn no_error_bits_decode_to_none() {
    assert!(decode(0).is_none());
}

#[test]
fn each_flag_decodes_to_its_error() {
    let expected = [
        (15, "LowInternalRegulatedVoltage"),
        (14, "MeasurementTimeout"),
        (13, "AbnormalSignalLevel"),
        (8, "ScaleFactorError"),
        (7, "FatalError"),
        (6, "I2cError"),
        (5, "AlgoritmError"),
        (4, "CalibrationError"),
        (3, "SelfDiagnosticsError"),
        (2, "OutOfRange"),
        (1, "MemoryError"),
        (0, "NoMeasurementCompleted"),
    ];
    for (bit, want) in expected.iter() {
        assert_eq!(name(decode(1u16 << bit)), *want);
    }
}

#[test]
fn reserved_bits_report_nothing() {
    for bit in 9..=12 {
        assert!(decode(1u16 << bit).is_none());
    }
    assert!(decode(0x1E00).is_none());
}

#[test]
fn reserved_bits_do_not_change_the_error() {
    assert_eq!(name(decode(0x1E10)), "CalibrationError");
    assert_eq!(name(decode(0x0010)), "CalibrationError");
}

#[test]
fn highest_flag_wins() {
    assert_eq!(name(decode(0xFFFF)), "LowInternalRegulatedVoltage");
    assert_eq!(name(decode(0x0101)), "ScaleFactorError");
    assert_eq!(name(decode(0x6000)), "MeasurementTimeout");
    assert_eq!(name(decode(0x0003)), "MemoryError");
}

#[test]
fn register_addresses() {
    assert_eq!(Registers::ErrorStatus.address(), 0x00);
    assert_eq!(Registers::MeasuredFilteredPc.address(), 0x06);
    assert_eq!(Registers::FirmwareVer.address(), 0x38);
    assert_eq!(Registers::SensorId.address(), 0x3A);
    assert_eq!(Registers::CalibrationCommand.address(), 0x82);
    assert_eq!(Registers::MeasurementModeEe.address(), 0x95);
    assert_eq!(Registers::ClearErrorStatus.address(), 0x9D);
    assert_eq!(Registers::MeterControlEe.address(), 0xA5);
    assert_eq!(Registers::StartMesurement.address(), 0xC3);
    assert_eq!(Registers::AbcTime.address(), 0xC4);
    assert_eq!(Registers::FilterPar6.address(), 0xDA);
    assert_eq!(Registers::PressureValue.address(), 0xDC);
    assert_eq!(Registers::Scr.address(), 0xA3);
}
