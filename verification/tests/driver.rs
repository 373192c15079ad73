use sunrise_lib::senseair::{Action, Completion, Event, Reply, Sunrise};
use sunrise_lib::registers::ErrorStatus;
use sunrise_lib::types::{Config, SetData};

/// A simulated sensor: its register file, the failures it is told to give,
/// and a log of the bus work it saw.
struct Sim {
    regs: [u8; 256],
    read_failures: [u8; 256],
    write_failures: [u8; 256],
    wake_fails: bool,
    log: Vec<String>,
}

fn sim() -> Sim {
    Sim {
        regs: [0; 256],
        read_failures: [0; 256],
        write_failures: [0; 256],
        wake_fails: false,
        log: Vec::new(),
    }
}

fn put16(s: &mut Sim, addr: usize, v: u16) {
    s.regs[addr] = (v >> 8) as u8;
    s.regs[addr + 1] = (v & 0xFF) as u8;
}

/// Runs the operation that began with `action` against the simulated sensor.
fn run(core: &mut Sunrise, first: Action, s: &mut Sim) -> Completion {
    let mut action = first;
    loop {
        let event = match action {
            Action::ReadRegister { address, register, len } => {
                assert_eq!(address, 0x68);
                s.log.push(format!("read {:02X} {}", register, len));
                let r = register as usize;
                if s.read_failures[r] > 0 {
                    s.read_failures[r] -= 1;
                    Event::Failed
                } else {
                    Event::Received(s.regs[r..r + len].to_vec())
                }
            }
            Action::WakeUp { address } => {
                assert_eq!(address, 0x68);
                s.log.push("wake".to_string());
                if s.wake_fails {
                    Event::Failed
                } else {
                    Event::Completed
                }
            }
            Action::Write { address, frame } => {
                assert_eq!(address, 0x68);
                let bytes: Vec<u8> = frame.iter().cloned().collect();
                s.log.push(format!("write {:02X?}", bytes));
                let r = bytes[0] as usize;
                if s.write_failures[r] > 0 {
                    s.write_failures[r] -= 1;
                    Event::Failed
                } else {
                    for (i, b) in bytes[1..].iter().enumerate() {
                        s.regs[r + i] = *b;
                    }
                    Event::Completed
                }
            }
            Action::Delay { ms } => {
                s.log.push(format!("delay {}", ms));
                Event::Completed
            }
            Action::WaitReady => {
                s.log.push("ready".to_string());
                Event::Completed
            }
            Action::SetEnablePin { high } => {
                s.log.push(format!("pin {}", high));
                Event::Completed
            }
            Action::Finished(c) => return c,
        };
        assert!(core.accepts(&event));
        action = core.advance(event);
    }
}

fn writes(s: &Sim) -> Vec<String> {
    s.log.iter().filter(|l| l.starts_with("write")).cloned().collect()
}

fn reads(s: &Sim) -> Vec<String> {
    s.log.iter().filter(|l| l.starts_with("read ")).cloned().collect()
}

fn sample_config() -> Config {
    Config {
        single_measurement_mode: 0,
        measurement_period: 16,
        number_of_samples: 8,
        abc_period: 180,
        abc_target: 400,
        iir_filter: 10,
        meter_control: 0x1C,
        i2c_address: 0x68,
        nominator: 1,
        denominator: 2,
        scaled_abc_target: 4000,
    }
}

fn load_config(s: &mut Sim, c: &Config) {
    s.regs[0x95] = c.single_measurement_mode;
    put16(s, 0x96, c.measurement_period);
    put16(s, 0x98, c.number_of_samples);
    put16(s, 0x9A, c.abc_period);
    put16(s, 0x9E, c.abc_target);
    s.regs[0xA1] = c.iir_filter;
    s.regs[0xA5] = c.meter_control;
    s.regs[0xA7] = c.i2c_address;
    put16(s, 0xA8, c.nominator);
    put16(s, 0xAA, c.denominator);
    put16(s, 0xB0, c.scaled_abc_target);
}

fn config_of(c: Completion) -> Config {
    match c {
        Completion::Done(Reply::Config(c)) => c,
        other => panic!("unexpected completion {:?}", other),
    }
}

fn sample_set_data() -> SetData {
    SetData {
        abc_time: 0x0102,
        abc_par0: 0x0304,
        abc_par1: 0x0506,
        abc_par2: 0x0708,
        abc_par3: 0x090A,
        filter_par0: 0x0B0C,
        filter_par1: 0x0D0E,
        filter_par2: 0x0F10,
        filter_par3: 0x1112,
        filter_par4: 0x1314,
        filter_par5: 0x1516,
        filter_par6: 0x1718,
    }
}

fn load_set_data(s: &mut Sim, d: &SetData) {
    let v = [
        d.abc_time,
        d.abc_par0,
        d.abc_par1,
        d.abc_par2,
        d.abc_par3,
        d.filter_par0,
        d.filter_par1,
        d.filter_par2,
        d.filter_par3,
        d.filter_par4,
        d.filter_par5,
        d.filter_par6,
    ];
    for (i, x) in v.iter().enumerate() {
        put16(s, 0xC4 + 2 * i, *x);
    }
}

#[test]
fn new_driver_is_idle_with_defaults() {
    let core = Sunrise::new(true);
    assert!(!core.is_running());
    assert_eq!(core.address(), 0x68);
    assert_eq!(core.config(), Config::default());
    assert_eq!(core.set_data(), SetData::default());
    assert_eq!(core.measurement().etc, 0);
    assert_eq!(core.product_type().product_code.as_str(), "");
}

#[test]
fn get_config_reads_the_eeprom_registers() {
    let mut s = sim();
    let k = sample_config();
    load_config(&mut s, &k);
    let mut core = Sunrise::new(false);
    let first = core.get_config();
    let c = config_of(run(&mut core, first, &mut s));
    assert_eq!(c, k);
    assert_eq!(core.config(), k);
    assert_eq!(
        reads(&s),
        vec![
            "read 95 2", "read 96 2", "read 98 2", "read 9A 2", "read 9E 2", "read A1 2",
            "read A5 2", "read A7 2", "read A8 2", "read AA 2", "read B0 2",
        ]
    );
    assert!(writes(&s).is_empty());
    assert!(!core.is_running());
}

#[test]
fn init_writes_only_changed_values_and_reads_them_back() {
    let mut s = sim();
    let k = sample_config();
    load_config(&mut s, &k);
    s.regs[0x38] = 4;
    s.regs[0x39] = 8;
    let mut core = Sunrise::new(false);
    let mut c = k;
    c.measurement_period = 0x0130;
    c.iir_filter = 3;
    let first = core.init(Some(c));
    assert!(matches!(run(&mut core, first, &mut s), Completion::Done(Reply::Unit)));
    assert_eq!(writes(&s), vec!["write [96, 01, 30]", "write [A1, 03]"]);
    let n = s.log.len();
    assert_eq!(
        s.log[n - 6..].to_vec(),
        vec!["wake", "write [96, 01, 30]", "delay 25", "wake", "write [A1, 03]", "delay 25"]
    );
    let again = core.get_config();
    assert_eq!(config_of(run(&mut core, again, &mut s)), c);
}

#[test]
fn setting_the_same_configuration_writes_nothing() {
    let mut s = sim();
    let k = sample_config();
    load_config(&mut s, &k);
    let mut core = Sunrise::new(false);
    let first = core.init(Some(k));
    assert!(matches!(run(&mut core, first, &mut s), Completion::Done(Reply::Unit)));
    assert!(writes(&s).is_empty());
    assert!(!s.log.iter().any(|l| l == "wake"));
}

#[test]
fn each_value_goes_to_the_register_it_is_read_from() {
    let mut s = sim();
    let k = sample_config();
    load_config(&mut s, &k);
    let mut core = Sunrise::new(false);
    let mut c = k;
    c.single_measurement_mode = 1;
    c.meter_control = 0x1F;
    c.i2c_address = 0x69;
    let first = core.init(Some(c));
    assert!(matches!(run(&mut core, first, &mut s), Completion::Done(Reply::Unit)));
    assert_eq!(writes(&s), vec!["write [95, 01]", "write [A5, 1F]", "write [A7, 69]"]);
    assert_eq!(s.regs[0x95], 1);
    assert_eq!(s.regs[0xA5], 0x1F);
    assert_eq!(s.regs[0xA7], 0x69);
    let again = core.get_config();
    let back = config_of(run(&mut core, again, &mut s));
    assert_eq!(back, c);
}

#[test]
fn every_changed_value_is_written_and_read_back() {
    let mut s = sim();
    let k = sample_config();
    load_config(&mut s, &k);
    let mut core = Sunrise::new(false);
    let c = Config {
        single_measurement_mode: 1,
        measurement_period: 30,
        number_of_samples: 4,
        abc_period: 200,
        abc_target: 420,
        iir_filter: 5,
        meter_control: 0x1D,
        i2c_address: 0x6A,
        nominator: 3,
        denominator: 4,
        scaled_abc_target: 4200,
    };
    let first = core.init(Some(c));
    assert!(matches!(run(&mut core, first, &mut s), Completion::Done(Reply::Unit)));
    assert_eq!(
        writes(&s),
        vec![
            "write [95, 01]",
            "write [A5, 1D]",
            "write [96, 00, 1E]",
            "write [9A, 00, C8]",
            "write [9E, 01, A4]",
            "write [AA, 00, 04]",
            "write [A8, 00, 03]",
            "write [98, 00, 04]",
            "write [B0, 10, 68]",
            "write [A7, 6A]",
            "write [A1, 05]",
        ]
    );
    let again = core.get_config();
    assert_eq!(config_of(run(&mut core, again, &mut s)), c);
}

#[test]
fn get_config_twice_gives_the_same_configuration() {
    let mut s = sim();
    let k = sample_config();
    load_config(&mut s, &k);
    let mut core = Sunrise::new(false);
    let first = core.get_config();
    let c1 = config_of(run(&mut core, first, &mut s));
    let second = core.get_config();
    let c2 = config_of(run(&mut core, second, &mut s));
    assert_eq!(c1, c2);
    assert_eq!(c1, k);
    assert!(writes(&s).is_empty());
}

#[test]
fn co2_measurement_hands_over_and_reads_back_state_data() {
    let mut s = sim();
    put16(&mut s, 0x06, 415);
    put16(&mut s, 0x08, (-250i16) as u16);
    s.regs[0x0D] = 7;
    put16(&mut s, 0x0E, 20);
    put16(&mut s, 0x10, 420);
    put16(&mut s, 0x12, 410);
    put16(&mut s, 0x14, 425);
    put16(&mut s, 0x16, 4150);
    s.regs[0x18] = 0x00;
    s.regs[0x19] = 0x01;
    s.regs[0x1A] = 0x02;
    s.regs[0x1B] = 0x03;
    let mut core = Sunrise::new(false);
    let first = core.co2_measurement_get(Some(1013));
    let c = run(&mut core, first, &mut s);
    let m = match c {
        Completion::Done(Reply::Measurement(m)) => m,
        other => panic!("unexpected completion {:?}", other),
    };
    assert_eq!(m.measured_filtered_press_comp, 415);
    assert_eq!(m.temperature, -250);
    assert_eq!(m.measurement_count, 7);
    assert_eq!(m.measurement_cycle_time, 20);
    assert_eq!(m.measured_unfiltered_press_comp, 420);
    assert_eq!(m.measured_filtered, 410);
    assert_eq!(m.measured_unfiltered, 425);
    assert_eq!(m.scaled_measured, 4150);
    assert_eq!(m.etc, 0x00010203);
    assert_eq!(*core.measurement(), m);
    let w = writes(&s);
    assert_eq!(w.len(), 14);
    assert_eq!(w[0], "write [9D, 00]");
    assert_eq!(w[1], "write [C4, 00, 00]");
    assert_eq!(w[13], "write [DC, 03, F5]");
    assert!(s.log.iter().any(|l| l == "ready"));
    let r = reads(&s);
    assert_eq!(r[0], "read 00 2");
    assert_eq!(r[9], "read 18 4");
    assert_eq!(r.len(), 10 + 12);
}

/// Runs a CO2 measurement against a sensor whose error status word is `word`.
fn co2_with_error_word(word: u16) -> (Completion, Sim) {
    let mut s = sim();
    put16(&mut s, 0x00, word);
    put16(&mut s, 0x06, 415);
    let mut core = Sunrise::new(false);
    let first = core.co2_measurement_get(None);
    let c = run(&mut core, first, &mut s);
    assert!(!core.is_running());
    (c, s)
}

#[test]
fn co2_measurement_reports_the_sensor_error() {
    let (c, s) = co2_with_error_word(0x0004);
    assert!(matches!(c, Completion::Sensor(ErrorStatus::OutOfRange)));
    assert_eq!(reads(&s), vec!["read 00 2"]);
    let (c, _) = co2_with_error_word(0x8001);
    assert!(matches!(c, Completion::Sensor(ErrorStatus::LowInternalRegulatedVoltage)));
    let (c, _) = co2_with_error_word(0x0001);
    assert!(matches!(c, Completion::Sensor(ErrorStatus::NoMeasurementCompleted)));
    let (c, _) = co2_with_error_word(0x0100);
    assert!(matches!(c, Completion::Sensor(ErrorStatus::ScaleFactorError)));
}

#[test]
fn co2_measurement_ignores_bits_without_a_flag() {
    let (c, s) = co2_with_error_word(0x1E00);
    match c {
        Completion::Done(Reply::Measurement(m)) => assert_eq!(m.measured_filtered_press_comp, 415),
        other => panic!("unexpected completion {:?}", other),
    }
    assert_eq!(reads(&s).len(), 1 + 9 + 12);
}

#[test]
fn state_data_round_trip_through_the_sensor() {
    let mut s = sim();
    let d = sample_set_data();
    load_set_data(&mut s, &d);
    let mut core = Sunrise::new(false);
    let first = core.init(None);
    assert!(matches!(run(&mut core, first, &mut s), Completion::Done(Reply::Unit)));
    assert_eq!(core.set_data(), d);
    // The measurement writes the state data back, and reads it back.
    s.regs = [0; 256];
    let next = core.co2_measurement_get(None);
    assert!(matches!(run(&mut core, next, &mut s), Completion::Done(Reply::Measurement(_))));
    assert_eq!(core.set_data(), d);
    assert_eq!(s.regs[0xC4], 0x01);
    assert_eq!(s.regs[0xDB], 0x18);
}

#[test]
fn failed_read_is_tried_again() {
    let mut s = sim();
    let k = sample_config();
    load_config(&mut s, &k);
    s.read_failures[0x9A] = 1;
    let mut core = Sunrise::new(false);
    let first = core.get_config();
    assert_eq!(config_of(run(&mut core, first, &mut s)), k);
    assert_eq!(reads(&s).iter().filter(|l| *l == "read 9A 2").count(), 2);
}

#[test]
fn read_failing_twice_ends_with_a_bus_error() {
    let mut s = sim();
    let k = sample_config();
    load_config(&mut s, &k);
    s.read_failures[0x9A] = 2;
    let mut core = Sunrise::new(false);
    let first = core.get_config();
    assert!(matches!(run(&mut core, first, &mut s), Completion::BusError));
    assert!(!core.is_running());
    let r = reads(&s);
    assert_eq!(r.last().unwrap(), "read 9A 2");
    // The values read before the failure are kept, the later ones are not.
    assert_eq!(core.config().number_of_samples, 8);
    assert_eq!(core.config().abc_period, 0);
}

#[test]
fn failed_write_ends_with_a_bus_error() {
    let mut s = sim();
    s.write_failures[0x9D] = 1;
    let mut core = Sunrise::new(false);
    let first = core.co2_measurement_get(None);
    assert!(matches!(run(&mut core, first, &mut s), Completion::BusError));
    assert_eq!(s.log, vec!["wake", "write [9D, 00]"]);
}

#[test]
fn wake_up_outcome_does_not_matter() {
    let mut s = sim();
    s.wake_fails = true;
    let mut core = Sunrise::new(false);
    let first = core.target_calibration(400);
    assert!(matches!(run(&mut core, first, &mut s), Completion::Done(Reply::Unit)));
    assert_eq!(s.log, vec!["wake", "write [84, 01, 90]", "delay 1"]);
}

/// Runs a background calibration whose calibration status reads `status`.
fn calibrate(core: &mut Sunrise, s: &mut Sim, status: u8) -> Completion {
    let mut action = core.background_calibration();
    loop {
        let event = match action {
            Action::ReadRegister { register, len, .. } => {
                s.log.push(format!("read {:02X} {}", register, len));
                let r = register as usize;
                if r == 0x81 {
                    Event::Received(vec![status])
                } else {
                    Event::Received(s.regs[r..r + len].to_vec())
                }
            }
            Action::Write { frame, .. } => {
                let bytes: Vec<u8> = frame.iter().cloned().collect();
                s.log.push(format!("write {:02X?}", bytes));
                Event::Completed
            }
            Action::WaitReady => {
                s.log.push("ready".to_string());
                Event::Completed
            }
            Action::Finished(c) => return c,
            _ => Event::Completed,
        };
        assert!(core.accepts(&event));
        action = core.advance(event);
    }
}

#[test]
fn background_calibration_succeeds_when_status_is_done() {
    let mut s = sim();
    let mut core = Sunrise::new(false);
    assert!(matches!(calibrate(&mut core, &mut s, 0x20), Completion::Done(Reply::Unit)));
    assert_eq!(writes(&s), vec!["write [81, 00]", "write [82, 07, C6]"]);
    assert_eq!(reads(&s), vec!["read 81 1"]);
}

#[test]
fn background_calibration_fails_otherwise() {
    let mut s = sim();
    let mut core = Sunrise::new(false);
    let c = calibrate(&mut core, &mut s, 0x00);
    assert!(matches!(c, Completion::Sensor(sunrise_lib::registers::ErrorStatus::CalibrationError)));
    // Against the simulated sensor, the status stays as written: zero.
    s.regs[0x81] = 0x20;
    let first = core.background_calibration();
    let c = run(&mut core, first, &mut s);
    assert!(matches!(c, Completion::Sensor(sunrise_lib::registers::ErrorStatus::CalibrationError)));
}

#[test]
fn background_calibration_in_single_measurement_mode() {
    let mut s = sim();
    let mut k = sample_config();
    k.single_measurement_mode = 1;
    load_config(&mut s, &k);
    let mut core = Sunrise::new(false);
    let first = core.get_config();
    config_of(run(&mut core, first, &mut s));
    s.log.clear();
    assert!(matches!(calibrate(&mut core, &mut s, 0x20), Completion::Done(Reply::Unit)));
    assert_eq!(writes(&s).len(), 2 + 12);
    assert_eq!(reads(&s).len(), 1 + 12);
    assert!(s.log.iter().any(|l| l == "ready"));
}

#[test]
fn product_code_from_firmware_revision() {
    let mut s = sim();
    s.regs[0x2F] = 0x12;
    s.regs[0x38] = 4;
    s.regs[0x39] = 8;
    s.regs[0x3A] = b'S';
    s.regs[0x3B] = b'U';
    s.regs[0x3C] = b'N';
    s.regs[0x3D] = b'1';
    let code = b"006-0-0008\0\0\0\0\0\0";
    s.regs[0x70..0x80].copy_from_slice(code);
    let mut core = Sunrise::new(false);
    let first = core.init(None);
    assert!(matches!(run(&mut core, first, &mut s), Completion::Done(Reply::Unit)));
    assert!(reads(&s).iter().any(|l| l == "read 70 16"));
    let p = core.product_type();
    assert_eq!(p.firmware_type, 0x12);
    assert_eq!(p.main_revision, 4);
    assert_eq!(p.sub_revision, 8);
    assert_eq!(p.sensor_id, 0x53554E31);
    assert_eq!(p.product_code.as_bytes(), code);

    s.regs[0x39] = 7;
    s.log.clear();
    let first = core.init(None);
    assert!(matches!(run(&mut core, first, &mut s), Completion::Done(Reply::Unit)));
    assert!(!reads(&s).iter().any(|l| l == "read 70 16"));
    assert_eq!(core.product_type().product_code.as_str(), "No Supporte");
}

#[test]
fn product_code_that_is_not_utf8_is_left_empty() {
    let mut s = sim();
    s.regs[0x38] = 5;
    s.regs[0x39] = 9;
    s.regs[0x3A] = 0xFF;
    s.regs[0x3B] = 0xFE;
    s.regs[0x70] = 0xFF;
    s.regs[0x71] = 0xFE;
    let mut core = Sunrise::new(false);
    let first = core.init(None);
    assert!(matches!(run(&mut core, first, &mut s), Completion::Done(Reply::Unit)));
    let p = core.product_type();
    assert_eq!(p.sensor_id, 0xFFFE0000);
    assert_eq!(p.product_code.as_str(), "");
}

#[test]
fn scaled_and_elapsed_readings() {
    let mut s = sim();
    put16(&mut s, 0x16, (-3i16) as u16);
    s.regs[0x18] = 1;
    s.regs[0x1B] = 2;
    let mut core = Sunrise::new(false);
    let first = core.scaled_measurement_get();
    assert!(matches!(run(&mut core, first, &mut s), Completion::Done(Reply::Scaled(-3))));
    let first = core.elapsed_time_get();
    assert!(matches!(run(&mut core, first, &mut s), Completion::Done(Reply::Elapsed(0x01000002))));
}

#[test]
fn command_frames() {
    let mut s = sim();
    let mut core = Sunrise::new(false);
    let first = core.start_measurement();
    assert!(matches!(run(&mut core, first, &mut s), Completion::Done(Reply::Unit)));
    let first = core.reset();
    assert!(matches!(run(&mut core, first, &mut s), Completion::Done(Reply::Unit)));
    assert_eq!(writes(&s), vec!["write [C3, 01]", "write [A3, FF]"]);
    assert_eq!(
        s.log,
        vec!["wake", "write [C3, 01]", "delay 1", "wake", "write [A3, FF]", "delay 1"]
    );
}

#[test]
fn power_through_the_enable_pin() {
    let mut s = sim();
    let mut core = Sunrise::new(true);
    let first = core.power_on();
    assert!(matches!(run(&mut core, first, &mut s), Completion::Done(Reply::Unit)));
    let first = core.power_off();
    assert!(matches!(run(&mut core, first, &mut s), Completion::Done(Reply::Unit)));
    assert_eq!(s.log, vec!["pin true", "delay 35", "pin false"]);

    let mut bare = Sunrise::new(false);
    assert!(matches!(bare.power_on(), Action::Finished(Completion::Done(Reply::Unit))));
    assert!(matches!(bare.power_off(), Action::Finished(Completion::Done(Reply::Unit))));
}

#[test]
fn reads_that_keep_failing_end_the_operation() {
    let mut s = sim();
    for r in 0..256 {
        s.read_failures[r] = 255;
    }
    let mut core = Sunrise::new(false);
    let first = core.init(None);
    assert!(matches!(run(&mut core, first, &mut s), Completion::BusError));
    assert_eq!(s.log.len(), 2);
}
