//! The sensor's register file as the driver sees it over the bus, and what
//! reading back gives of what the driver writes.
//!
//! A read of `n` bytes at an address gives the registers at that address and
//! the `n - 1` following ones; a write frame names an address in its first
//! byte and puts its other bytes at that address and the following ones.
use crate::codec::{be_bytes, be_i16, be_u16, be_u32, high_byte, low_byte};
use crate::program::{
    config_read, config_read_order, config_update, config_write_order, get_config_steps,
    clear_error_status_step, co2_measurement_steps, init_steps, measurement_read,
    measurement_read_order, measurement_read_steps, product_type_get_steps,
    scaled_measurement_steps, elapsed_time_steps, background_calibration_steps,
    target_calibration_steps, start_measurement_steps, reset_steps, power_on_steps, power_off_steps,
    set_config_steps, state_data_get_steps, state_data_set_steps, state_fields, state_read, state_write, Payload, Step,
    Target, RAM_DELAY,
};
use crate::senseair::{
    frame_of, holds_product_code, product_code_of, unsupported_code, Completion, OpKind, Phase, Reception, Reply, Request, SunriseModel,
};
use crate::registers::{ErrorStatus, Registers};
use crate::types::{Config, ConfigField, Measurement, MeasurementField, ProductInfo, SetData, StateField};
use vstd::prelude::*;

verus! {

/// The bytes that a read of `len` bytes at `address` gives.
pub open spec fn load(regs: spec_fn(u8) -> u8, address: u8, len: nat) -> Seq<u8> {
    Seq::new(len, |i: int| regs((address as int + i) as u8))
}

/// The registers after the sensor takes in `frame`, if `taken`.
pub open spec fn store_if(regs: spec_fn(u8) -> u8, taken: bool, frame: Seq<u8>) -> spec_fn(u8) -> u8 {
    |a: u8|
        if taken && frame[0] <= a && (a as int) < frame[0] as int + frame.len() - 1 {
            frame[a - frame[0] + 1]
        } else {
            regs(a)
        }
}

/// The state data after reading the fields `fields[i..]` from the
/// registers, in order, starting from `d`.
pub open spec fn state_data_in(regs: spec_fn(u8) -> u8, d: SetData, fields: Seq<StateField>, i: nat) -> SetData
    decreases fields.len() - i,
{
    if i >= fields.len() {
        d
    } else {
        let f = fields[i as int];
        let b = load(regs, f.spec_register().spec_address(), 2);
        state_data_in(regs, d.with_field(f, be_u16(b[0], b[1])), fields, i + 1)
    }
}

/// The registers after the fields `fields[i..]` of the state data `d` are
/// written, in order, each with the frame that the driver sends.
pub open spec fn after_state_data_set(regs: spec_fn(u8) -> u8, d: SetData, fields: Seq<StateField>, i: nat) -> spec_fn(u8) -> u8
    decreases fields.len() - i,
{
    if i >= fields.len() {
        regs
    } else {
        let f = fields[i as int];
        let frame = frame_of(f.spec_register(), Payload::Word(d.field(f)));
        after_state_data_set(store_if(regs, true, frame), d, fields, i + 1)
    }
}

/// The configuration after reading the fields `fields[i..]` from the
/// registers, in order, starting from `c`.
pub open spec fn config_in(regs: spec_fn(u8) -> u8, c: Config, fields: Seq<ConfigField>, i: nat) -> Config
    decreases fields.len() - i,
{
    if i >= fields.len() {
        c
    } else {
        let f = fields[i as int];
        let b = load(regs, f.spec_register().spec_address(), 2);
        config_in(regs, c.with_read(f, b[0], b[1]), fields, i + 1)
    }
}

/// The registers after the configuration updates of `fields[i..]` bring a
/// sensor configured as `k` to `c`: each value of `c` that differs from `k`
/// is written, in order, with the frame that the driver sends; the others
/// are not written.
pub open spec fn after_config_updates(
    regs: spec_fn(u8) -> u8,
    k: Config,
    c: Config,
    fields: Seq<ConfigField>,
    i: nat,
) -> spec_fn(u8) -> u8
    decreases fields.len() - i,
{
    if i >= fields.len() {
        regs
    } else {
        let f = fields[i as int];
        let frame = frame_of(f.spec_register(), f.spec_payload(c.field(f)));
        after_config_updates(store_if(regs, c.field(f) != k.field(f), frame), k, c, fields, i + 1)
    }
}

/// The register at `a` after the driver writes the state data `d`: the
/// state data occupies the addresses 0xC4 to 0xDB, two bytes a value,
/// big-endian, in the order of `state_fields`; the other registers keep
/// their bytes.
pub open spec fn state_register_after(regs: spec_fn(u8) -> u8, d: SetData, a: u8) -> u8 {
    if a == 0xC4 {
        high_byte(d.abc_time)
    } else if a == 0xC5 {
        low_byte(d.abc_time)
    } else if a == 0xC6 {
        high_byte(d.abc_par0)
    } else if a == 0xC7 {
        low_byte(d.abc_par0)
    } else if a == 0xC8 {
        high_byte(d.abc_par1)
    } else if a == 0xC9 {
        low_byte(d.abc_par1)
    } else if a == 0xCA {
        high_byte(d.abc_par2)
    } else if a == 0xCB {
        low_byte(d.abc_par2)
    } else if a == 0xCC {
        high_byte(d.abc_par3)
    } else if a == 0xCD {
        low_byte(d.abc_par3)
    } else if a == 0xCE {
        high_byte(d.filter_par0)
    } else if a == 0xCF {
        low_byte(d.filter_par0)
    } else if a == 0xD0 {
        high_byte(d.filter_par1)
    } else if a == 0xD1 {
        low_byte(d.filter_par1)
    } else if a == 0xD2 {
        high_byte(d.filter_par2)
    } else if a == 0xD3 {
        low_byte(d.filter_par2)
    } else if a == 0xD4 {
        high_byte(d.filter_par3)
    } else if a == 0xD5 {
        low_byte(d.filter_par3)
    } else if a == 0xD6 {
        high_byte(d.filter_par4)
    } else if a == 0xD7 {
        low_byte(d.filter_par4)
    } else if a == 0xD8 {
        high_byte(d.filter_par5)
    } else if a == 0xD9 {
        low_byte(d.filter_par5)
    } else if a == 0xDA {
        high_byte(d.filter_par6)
    } else if a == 0xDB {
        low_byte(d.filter_par6)
    } else {
        regs(a)
    }
}

/// Writing the state data leaves each register as `state_register_after`
/// says.
#[verifier::spinoff_prover]
proof fn lemma_state_registers_after(regs: spec_fn(u8) -> u8, d: SetData)
    ensures
        after_state_data_set(regs, d, state_fields(), 0) =~= (|a: u8| state_register_after(regs, d, a)),
{
    reveal_with_fuel(after_state_data_set, 13);
}

/// Reading back the state data after writing it gives what was written: the
/// state data that the driver hands the sensor, it reads back unchanged.
#[verifier::spinoff_prover]
pub proof fn lemma_state_data_write_read_back(regs: spec_fn(u8) -> u8, d: SetData, start: SetData)
    ensures
        state_data_in(after_state_data_set(regs, d, state_fields(), 0), start, state_fields(), 0) == d,
{
    lemma_state_registers_after(regs, d);
    let after = |a: u8| state_register_after(regs, d, a);
    reveal_with_fuel(state_data_in, 13);
    assert(state_data_in(after, start, state_fields(), 0) == d);
}

/// The register at `a` after the driver brings a sensor configured as `k`
/// to `c`: the value bytes of each changed field at its EEPROM address,
/// otherwise what the register held.
pub open spec fn config_register_after(regs: spec_fn(u8) -> u8, k: Config, c: Config, a: u8) -> u8 {
    if a == 0x95 && c.single_measurement_mode != k.single_measurement_mode {
        c.single_measurement_mode
    } else if a == 0xA5 && c.meter_control != k.meter_control {
        c.meter_control
    } else if 0x96 <= a <= 0x97 && c.measurement_period != k.measurement_period {
        be_bytes(c.measurement_period)[a - 0x96]
    } else if 0x9A <= a <= 0x9B && c.abc_period != k.abc_period {
        be_bytes(c.abc_period)[a - 0x9A]
    } else if 0x9E <= a <= 0x9F && c.abc_target != k.abc_target {
        be_bytes(c.abc_target)[a - 0x9E]
    } else if 0xAA <= a <= 0xAB && c.denominator != k.denominator {
        be_bytes(c.denominator)[a - 0xAA]
    } else if 0xA8 <= a <= 0xA9 && c.nominator != k.nominator {
        be_bytes(c.nominator)[a - 0xA8]
    } else if 0x98 <= a <= 0x99 && c.number_of_samples != k.number_of_samples {
        be_bytes(c.number_of_samples)[a - 0x98]
    } else if 0xB0 <= a <= 0xB1 && c.scaled_abc_target != k.scaled_abc_target {
        be_bytes(c.scaled_abc_target)[a - 0xB0]
    } else if a == 0xA7 && c.i2c_address != k.i2c_address {
        c.i2c_address
    } else if a == 0xA1 && c.iir_filter != k.iir_filter {
        c.iir_filter
    } else {
        regs(a)
    }
}

/// The configuration updates leave each register as `config_register_after`
/// says.
#[verifier::spinoff_prover]
proof fn lemma_config_registers_after(regs: spec_fn(u8) -> u8, k: Config, c: Config)
    ensures
        after_config_updates(regs, k, c, config_write_order(), 0) =~= (|a: u8| config_register_after(regs, k, c, a)),
{
    reveal_with_fuel(after_config_updates, 13);
}

/// Reading the configuration back after the driver brings a sensor whose
/// registers hold the configuration `k` to `c` gives `c`: each value is
/// written to the register it is read from.
#[verifier::spinoff_prover]
pub proof fn lemma_config_write_read_back(regs: spec_fn(u8) -> u8, k: Config, c: Config, start: Config)
    requires
        config_in(regs, start, config_read_order(), 0) == k,
    ensures
        config_in(after_config_updates(regs, k, c, config_write_order(), 0), start, config_read_order(), 0) == c,
{
    lemma_config_registers_after(regs, k, c);
    let after = |a: u8| config_register_after(regs, k, c, a);
    reveal_with_fuel(config_in, 13);
    assert(config_in(after, start, config_read_order(), 0) == c);
}

/// The sensor's answer to a request: a read gives the bytes of its
/// registers, everything else completes.
pub open spec fn answer(regs: spec_fn(u8) -> u8, r: Request) -> Reception {
    match r {
        Request::Read { register, len, .. } => Reception::Received(load(regs, register, len)),
        _ => Reception::Completed,
    }
}

/// The registers after the sensor serves a request: a write frame is stored.
pub open spec fn serve(regs: spec_fn(u8) -> u8, r: Request) -> spec_fn(u8) -> u8 {
    match r {
        Request::Write { frame, .. } => store_if(regs, true, frame),
        _ => regs,
    }
}

/// The driver and the registers after `n` rounds of bus work against a
/// sensor that never fails, or fewer when the operation ends before.
pub open spec fn run(m: SunriseModel, regs: spec_fn(u8) -> u8, n: nat) -> (SunriseModel, spec_fn(u8) -> u8)
    decreases n,
{
    if n == 0 || !m.running() {
        (m, regs)
    } else {
        run(m.on_event(answer(regs, m.request())).settle(), serve(regs, m.request()), (n - 1) as nat)
    }
}

/// Reading the configuration fields `config_read_order()[i..]`, which the
/// program holds from position `p + i` on, takes one round each and stores
/// in the configuration what `config_in` says.
proof fn lemma_run_config_reads(m: SunriseModel, regs: spec_fn(u8) -> u8, p: int, i: nat)
    requires
        0 <= p,
        i <= 11,
        p + 11 <= m.steps.len(),
        forall|t: int| 0 <= t < 11 ==> #[trigger] m.steps[p + t] == config_read(config_read_order()[t]),
        m.pc == p + i,
        m.phase == Phase::First,
        m.failure is None,
        !m.passes_over(),
    ensures
        run(m, regs, (11 - i) as nat) == (
            SunriseModel { config: config_in(regs, m.config, config_read_order(), i), pc: p + 11, ..m }.settle(),
            regs,
        ),
    decreases 11 - i,
{
    if i == 11 {
        assert(SunriseModel { config: config_in(regs, m.config, config_read_order(), i), pc: p + 11, ..m } == m);
    } else {
        let f = config_read_order()[i as int];
        assert(m.steps[p + i] == config_read(f));
        let b = load(regs, f.spec_register().spec_address(), 2);
        let n = SunriseModel { config: m.config.with_read(f, b[0], b[1]), pc: m.pc + 1, ..m };
        assert(m.request() == Request::Read {
            address: m.address,
            register: f.spec_register().spec_address(),
            len: 2,
        });
        assert(m.on_event(answer(regs, m.request())) == n);
        assert(serve(regs, m.request()) == regs);
        assert(config_in(regs, m.config, config_read_order(), i) == config_in(regs, n.config, config_read_order(), i + 1));
        assert(run(m, regs, (11 - i) as nat) == run(n.settle(), regs, (11 - (i + 1)) as nat));
        if i + 1 < 11 {
            assert(n.steps[p + (i + 1) as int] == config_read(config_read_order()[i + 1 as int]));
            assert(!n.passes_over());
            assert(n.settle() == n);
            lemma_run_config_reads(n, regs, p, i + 1);
            assert(SunriseModel { config: config_in(regs, n.config, config_read_order(), i + 1), pc: p + 11, ..n }
                == SunriseModel { config: config_in(regs, m.config, config_read_order(), i), pc: p + 11, ..m });
        } else {
            assert(config_in(regs, n.config, config_read_order(), i + 1) == n.config);
            assert(n == SunriseModel { config: config_in(regs, m.config, config_read_order(), i), pc: p + 11, ..m });
        }
    }
}

/// Against a sensor that never fails, reading the configuration takes one
/// round of bus work for each value and ends with the configuration that its
/// registers hold, which the operation returns.
pub proof fn lemma_get_config_reads_registers(m: SunriseModel, regs: spec_fn(u8) -> u8)
    ensures
        ({
            let (r, after) = run(m.begin(OpKind::GetConfig, get_config_steps()).settle(), regs, 11);
            &&& after == regs
            &&& !r.running()
            &&& r.config == config_in(regs, m.config, config_read_order(), 0)
            &&& r.request() == Request::Finished(Completion::Done(Reply::Config(r.config)))
        }),
{
    let b = m.begin(OpKind::GetConfig, get_config_steps());
    assert(b.steps[0] == config_read(config_read_order()[0]));
    assert(!b.passes_over());
    assert forall|t: int| 0 <= t < 11 implies #[trigger] b.steps[0 + t] == config_read(config_read_order()[t]) by {
        assert(b.steps[t] == config_read(config_read_order()[t]));
    }
    lemma_run_config_reads(b, regs, 0, 0);
}


/// Running on after the operation has ended changes nothing.
proof fn lemma_run_more_rounds(m: SunriseModel, regs: spec_fn(u8) -> u8, n: nat, e: nat)
    requires
        !run(m, regs, n).0.running(),
    ensures
        run(m, regs, n + e) == run(m, regs, n),
    decreases n,
{
    if n > 0 && m.running() {
        lemma_run_more_rounds(
            m.on_event(answer(regs, m.request())).settle(),
            serve(regs, m.request()),
            (n - 1) as nat,
            e,
        );
        assert((n + e - 1) as nat == (n - 1) as nat + e);
    }
}

/// Running `a + b` rounds is running `a` rounds, then `b` more.
proof fn lemma_run_split(m: SunriseModel, regs: spec_fn(u8) -> u8, a: nat, b: nat)
    ensures
        run(m, regs, a + b) == run(run(m, regs, a).0, run(m, regs, a).1, b),
    decreases a,
{
    if a > 0 && m.running() {
        lemma_run_split(m.on_event(answer(regs, m.request())).settle(), serve(regs, m.request()), (a - 1) as nat, b);
        assert((a + b - 1) as nat == (a - 1) as nat + b);
    }
}

/// Reading the state data fields `state_fields()[i..]`, which the program
/// holds from position `p + i` on, takes one round each and stores in the
/// state data what `state_data_in` says.
proof fn lemma_run_state_reads(m: SunriseModel, regs: spec_fn(u8) -> u8, p: int, i: nat)
    requires
        0 <= p,
        i <= 12,
        p + 12 <= m.steps.len(),
        forall|t: int| 0 <= t < 12 ==> #[trigger] m.steps[p + t] == state_read(state_fields()[t]),
        m.pc == p + i,
        m.phase == Phase::First,
        m.failure is None,
        !m.passes_over(),
    ensures
        run(m, regs, (12 - i) as nat) == (
            SunriseModel { set_data: state_data_in(regs, m.set_data, state_fields(), i), pc: p + 12, ..m }.settle(),
            regs,
        ),
    decreases 12 - i,
{
    if i == 12 {
        assert(SunriseModel { set_data: state_data_in(regs, m.set_data, state_fields(), i), pc: p + 12, ..m } == m);
    } else {
        let f = state_fields()[i as int];
        assert(m.steps[p + i] == state_read(f));
        let b = load(regs, f.spec_register().spec_address(), 2);
        let n = SunriseModel { set_data: m.set_data.with_field(f, be_u16(b[0], b[1])), pc: m.pc + 1, ..m };
        assert(m.request() == Request::Read { address: m.address, register: f.spec_register().spec_address(), len: 2 });
        assert(m.on_event(answer(regs, m.request())) == n);
        assert(serve(regs, m.request()) == regs);
        assert(state_data_in(regs, m.set_data, state_fields(), i) == state_data_in(regs, n.set_data, state_fields(), i + 1));
        assert(run(m, regs, (12 - i) as nat) == run(n.settle(), regs, (12 - (i + 1)) as nat));
        if i + 1 < 12 {
            assert(n.steps[p + (i + 1) as int] == state_read(state_fields()[i + 1 as int]));
            assert(!n.passes_over());
            assert(n.settle() == n);
            lemma_run_state_reads(n, regs, p, i + 1);
            assert(SunriseModel { set_data: state_data_in(regs, n.set_data, state_fields(), i + 1), pc: p + 12, ..n }
                == SunriseModel { set_data: state_data_in(regs, m.set_data, state_fields(), i), pc: p + 12, ..m });
        } else {
            assert(state_data_in(regs, n.set_data, state_fields(), i + 1) == n.set_data);
            assert(n == SunriseModel { set_data: state_data_in(regs, m.set_data, state_fields(), i), pc: p + 12, ..m });
        }
    }
}

/// The product information that the sensor's registers give: the firmware
/// type at 0x2F, the firmware version at 0x38, the sensor id at 0x3A, and,
/// with firmware 4.8 or later, the product code at 0x70 (sixteen bytes);
/// before that, "No Supporte".
pub open spec fn product_in(regs: spec_fn(u8) -> u8, pt: ProductInfo) -> ProductInfo {
    let id = load(regs, 0x3A, 4);
    ProductInfo {
        firmware_type: regs(0x2F),
        main_revision: regs(0x38),
        sub_revision: regs(0x39),
        sensor_id: be_u32(id[0], id[1], id[2], id[3]),
        product_code: if holds_product_code(regs(0x38), regs(0x39)) {
            product_code_of(load(regs, 0x70, 16))
        } else {
            unsupported_code()
        },
    }
}

/// The rounds of bus work that reading the product type takes: four, or
/// three when the firmware holds no product code.
pub open spec fn product_rounds(regs: spec_fn(u8) -> u8) -> nat {
    if holds_product_code(regs(0x38), regs(0x39)) {
        4
    } else {
        3
    }
}

/// Reading the product type, which the program holds from position `p` on,
/// takes `product_rounds` rounds and stores what `product_in` says.
proof fn lemma_run_product_reads(m: SunriseModel, regs: spec_fn(u8) -> u8, p: int)
    requires
        0 <= p,
        p + 4 < m.steps.len(),
        m.steps.subrange(p, p + 4) == product_type_get_steps(),
        m.steps[p + 4] matches Step::Read { target, .. } && !(target is ProductCode),
        m.pc == p,
        m.phase == Phase::First,
        m.failure is None,
    ensures
        run(m, regs, product_rounds(regs)) == (
            SunriseModel { product_type: product_in(regs, m.product_type), pc: p + 4, ..m },
            regs,
        ),
{
    assert(m.steps[p] == m.steps.subrange(p, p + 4)[0]);
    assert(m.steps[p + 1] == m.steps.subrange(p, p + 4)[1]);
    assert(m.steps[p + 2] == m.steps.subrange(p, p + 4)[2]);
    assert(m.steps[p + 3] == m.steps.subrange(p, p + 4)[3]);
    let m1 = m.on_event(answer(regs, m.request())).settle();
    let m2 = m1.on_event(answer(regs, m1.request())).settle();
    let n3 = m2.on_event(answer(regs, m2.request()));
    let m3 = n3.settle();
    let goal = SunriseModel { product_type: product_in(regs, m.product_type), pc: p + 4, ..m };
    assert(m1.pc == p + 1 && m1.phase == Phase::First);
    assert(m2.pc == p + 2 && m2.product_type.main_revision == regs(0x38) && m2.product_type.sub_revision == regs(0x39));
    assert(load(regs, 0x38, 2)[1] == regs(0x39));
    assert(serve(regs, m.request()) == regs);
    assert(serve(regs, m1.request()) == regs);
    assert(serve(regs, m2.request()) == regs);
    assert(run(m2, regs, (product_rounds(regs) - 2) as nat) == run(m3, regs, (product_rounds(regs) - 3) as nat));
    assert(run(m1, regs, (product_rounds(regs) - 1) as nat) == run(m2, regs, (product_rounds(regs) - 2) as nat));
    assert(run(m, regs, product_rounds(regs)) == run(m1, regs, (product_rounds(regs) - 1) as nat));
    if holds_product_code(regs(0x38), regs(0x39)) {
        assert(n3.pc == p + 3);
        assert(!n3.passes_over());
        assert(m3 == n3);
        let m4 = m3.on_event(answer(regs, m3.request())).settle();
        assert(serve(regs, m3.request()) == regs);
        assert(m4 == goal);
        assert(run(m4, regs, 0) == (m4, regs));
        assert(run(m3, regs, 1) == run(m4, regs, 0));
    } else {
        assert(n3.passes_over());
        let n4 = n3.without_product_code().next_step();
        assert(n4.pc == p + 4);
        assert(!n4.passes_over());
        assert(n4.settle() == n4);
        assert(m3 == goal);
        assert(run(m3, regs, 0) == (m3, regs));
    }
}

/// The configuration updates `config_write_order()[i..]` towards `c`, which
/// close the program from position `p + i` on, take three rounds for each
/// value that differs from the driver's configuration and none for the
/// others; they end the operation and leave the registers as
/// `after_config_updates` says.
proof fn lemma_run_config_updates(m: SunriseModel, regs: spec_fn(u8) -> u8, c: Config, p: int, i: nat)
    requires
        0 <= p,
        i <= 11,
        p + 11 == m.steps.len(),
        forall|t: int| 0 <= t < 11 ==> #[trigger] m.steps[p + t] == config_update(c, config_write_order()[t]),
        m.pc == p + i,
        m.phase == Phase::First,
        m.failure is None,
    ensures
        run(m.settle(), regs, (3 * (11 - i)) as nat) == (
            SunriseModel { pc: p + 11, ..m },
            after_config_updates(regs, m.config, c, config_write_order(), i),
        ),
    decreases 11 - i,
{
    if i == 11 {
        assert(SunriseModel { pc: p + 11, ..m } == m);
    } else {
        let f = config_write_order()[i as int];
        let v = c.field(f);
        let frame = frame_of(f.spec_register(), f.spec_payload(v));
        assert(m.steps[p + i] == config_update(c, f));
        assert(after_config_updates(regs, m.config, c, config_write_order(), i)
            == after_config_updates(store_if(regs, v != m.config.field(f), frame), m.config, c, config_write_order(), i + 1));
        let n = m.next_step();
        lemma_run_config_updates(n, regs, c, p, i + 1);
        if m.config.field(f) == v {
            assert(m.passes_over());
            assert(m.settle() == n.settle());
            assert(store_if(regs, false, frame) =~= regs);
            lemma_run_more_rounds(n.settle(), regs, (3 * (11 - (i + 1))) as nat, 3);
            assert((3 * (11 - i)) as nat == (3 * (11 - (i + 1))) as nat + 3);
            assert(SunriseModel { pc: p + 11, ..n } == SunriseModel { pc: p + 11, ..m });
        } else {
            assert(!m.passes_over());
            assert(m.settle() == m);
            let m1 = SunriseModel { phase: Phase::Second, ..m };
            let m2 = SunriseModel { phase: Phase::Settling, ..m };
            let regs2 = store_if(regs, true, frame);
            assert(m.request() == Request::WakeUp { address: m.address });
            assert(m.on_event(answer(regs, m.request())).settle() == m1);
            assert(m1.request() == Request::Write { address: m.address, frame });
            assert(m1.on_event(answer(regs, m1.request())).settle() == m2);
            assert(serve(regs, m1.request()) == regs2);
            assert(m2.on_event(answer(regs2, m2.request())).settle() == n.settle());
            assert(serve(regs2, m2.request()) == regs2);
            assert(run(m, regs, (3 * (11 - i)) as nat) == run(m1, regs, (3 * (11 - i) - 1) as nat));
            assert(run(m1, regs, (3 * (11 - i) - 1) as nat) == run(m2, regs2, (3 * (11 - i) - 2) as nat));
            assert(run(m2, regs2, (3 * (11 - i) - 2) as nat) == run(n.settle(), regs2, (3 * (11 - (i + 1))) as nat));
            lemma_run_config_updates(n, regs2, c, p, i + 1);
            assert(SunriseModel { pc: p + 11, ..n } == SunriseModel { pc: p + 11, ..m });
        }
    }
}


/// Reading the configuration overwrites every value: what it gives does not
/// depend on the configuration it starts from.
pub proof fn lemma_config_in_overwrites_all(regs: spec_fn(u8) -> u8, x: Config, y: Config)
    ensures
        config_in(regs, x, config_read_order(), 0) == config_in(regs, y, config_read_order(), 0),
{
    reveal_with_fuel(config_in, 12);
}

/// Reading the configuration changes no register, and reading it a second
/// time gives the same configuration as the first: against a sensor that
/// never fails, each reading ends with the configuration that the registers
/// hold, whatever the driver held before.
pub proof fn lemma_get_config_twice(m: SunriseModel, regs: spec_fn(u8) -> u8)
    ensures
        ({
            let (a, after) = run(m.begin(OpKind::GetConfig, get_config_steps()).settle(), regs, 11);
            let b = run(a.begin(OpKind::GetConfig, get_config_steps()).settle(), after, 11).0;
            &&& after == regs
            &&& a.request() == Request::Finished(Completion::Done(Reply::Config(a.config)))
            &&& b.request() == Request::Finished(Completion::Done(Reply::Config(a.config)))
            &&& b.config == a.config
        }),
{
    lemma_get_config_reads_registers(m, regs);
    let a = run(m.begin(OpKind::GetConfig, get_config_steps()).settle(), regs, 11).0;
    lemma_get_config_reads_registers(a, regs);
    lemma_config_in_overwrites_all(regs, a.config, m.config);
}

/// Against a sensor that never fails, the initialisation with a new
/// configuration `c` reads the state data, the product type and the
/// configuration `k` that the sensor's registers hold, and writes the values
/// of `c` that differ from `k`; it succeeds, and reading the configuration
/// back afterwards gives `c`.
pub proof fn lemma_init_then_read_back(m: SunriseModel, regs: spec_fn(u8) -> u8, c: Config)
    ensures
        ({
            let (a, after) = run(
                m.begin(OpKind::Init, init_steps(Some(c))).settle(),
                regs,
                56 + product_rounds(regs),
            );
            let k = config_in(regs, m.config, config_read_order(), 0);
            let b = run(a.begin(OpKind::GetConfig, get_config_steps()).settle(), after, 11).0;
            &&& !a.running()
            &&& a.request() == Request::Finished(Completion::Done(Reply::Unit))
            &&& a.set_data == state_data_in(regs, m.set_data, state_fields(), 0)
            &&& a.product_type == product_in(regs, m.product_type)
            &&& a.config == k
            &&& after == after_config_updates(regs, k, c, config_write_order(), 0)
            &&& b.config == c
        }),
{
    let steps = init_steps(Some(c));
    let sg = state_data_get_steps();
    let pg = product_type_get_steps();
    let cg = get_config_steps();
    let cs = set_config_steps(c);
    assert(steps == sg + pg + cg + cs);
    assert(steps.len() == 38);
    let b0 = m.begin(OpKind::Init, steps);
    assert forall|t: int| 0 <= t < 12 implies #[trigger] b0.steps[0 + t] == state_read(state_fields()[t]) by {
        assert(steps[t] == sg[t]);
    }
    assert(b0.steps[0] is Read);
    assert(b0.settle() == b0);
    lemma_run_state_reads(b0, regs, 0, 0);
    let sd = state_data_in(regs, m.set_data, state_fields(), 0);
    let m12 = SunriseModel { set_data: sd, pc: 12, ..b0 };
    assert(steps[12] == pg[0]);
    assert(m12.settle() == m12);
    assert(steps.subrange(12, 16) =~= pg);
    assert(steps[16] == cg[0]);
    lemma_run_product_reads(m12, regs, 12);
    let m16 = SunriseModel { product_type: product_in(regs, m.product_type), pc: 16, ..m12 };
    assert forall|t: int| 0 <= t < 11 implies #[trigger] m16.steps[16 + t] == config_read(config_read_order()[t]) by {
        assert(steps[16 + t] == cg[t]);
    }
    assert(!m16.passes_over());
    lemma_run_config_reads(m16, regs, 16, 0);
    let k = config_in(regs, m16.config, config_read_order(), 0);
    lemma_config_in_overwrites_all(regs, m16.config, m.config);
    let m27 = SunriseModel { config: k, pc: 27, ..m16 };
    assert forall|t: int| 0 <= t < 11 implies #[trigger] m27.steps[27 + t] == config_update(c, config_write_order()[t]) by {
        assert(steps[27 + t] == cs[t]);
    }
    lemma_run_config_updates(m27, regs, c, 27, 0);
    let after = after_config_updates(regs, k, c, config_write_order(), 0);
    let a = SunriseModel { pc: 38, ..m27 };
    let pr = product_rounds(regs);
    lemma_run_split(b0, regs, 12, 44 + pr);
    lemma_run_split(m12, regs, pr, 44);
    lemma_run_split(m16, regs, 11, 33);
    assert(12 + (44 + pr) == 56 + pr);
    assert(run(b0, regs, 56 + pr) == (a, after));
    lemma_get_config_reads_registers(a, after);
    lemma_config_in_overwrites_all(regs, k, m.config);
    lemma_config_write_read_back(regs, k, c, k);
}


/// The measurement after reading the fields `fields[i..]` from the
/// registers, in order, starting from `m`.
pub open spec fn measurement_in(regs: spec_fn(u8) -> u8, m: Measurement, fields: Seq<MeasurementField>, i: nat) -> Measurement
    decreases fields.len() - i,
{
    if i >= fields.len() {
        m
    } else {
        let f = fields[i as int];
        measurement_in(regs, m.with_read(f, load(regs, f.spec_register().spec_address(), f.read_len())), fields, i + 1)
    }
}

/// A write step takes three rounds: the sensor stores its frame.
proof fn lemma_run_write_step(m: SunriseModel, regs: spec_fn(u8) -> u8, register: Registers, payload: Payload, delay: u32)
    requires
        m.running(),
        m.phase == Phase::First,
        m.failure is None,
        m.current() == (Step::Write { register, payload, delay }),
    ensures
        run(m, regs, 3) == (m.next_step().settle(), store_if(regs, true, frame_of(register, payload))),
{
    let frame = frame_of(register, payload);
    let m1 = SunriseModel { phase: Phase::Second, ..m };
    let m2 = SunriseModel { phase: Phase::Settling, ..m };
    let regs2 = store_if(regs, true, frame);
    assert(m.on_event(answer(regs, m.request())).settle() == m1);
    assert(serve(regs, m.request()) == regs);
    assert(m1.on_event(answer(regs, m1.request())).settle() == m2);
    assert(serve(regs, m1.request()) == regs2);
    assert(m2.on_event(answer(regs2, m2.request())).settle() == m.next_step().settle());
    assert(serve(regs2, m2.request()) == regs2);
    assert(run(m.next_step().settle(), regs2, 0) == (m.next_step().settle(), regs2));
    assert(run(m2, regs2, 1) == run(m.next_step().settle(), regs2, 0));
    assert(run(m1, regs, 2) == run(m2, regs2, 1));
    assert(run(m, regs, 3) == run(m1, regs, 2));
}

/// Waiting for the sensor takes one round and leaves the registers alone.
proof fn lemma_run_wait(m: SunriseModel, regs: spec_fn(u8) -> u8)
    requires
        m.running(),
        m.phase == Phase::First,
        m.failure is None,
        m.current() == Step::WaitReady,
    ensures
        run(m, regs, 1) == (m.next_step().settle(), regs),
{
    assert(m.on_event(answer(regs, m.request())) == m.next_step());
    assert(serve(regs, m.request()) == regs);
    assert(run(m.next_step().settle(), regs, 0) == (m.next_step().settle(), regs));
}

/// The word that the error status register holds.
pub open spec fn error_word(regs: spec_fn(u8) -> u8) -> u16 {
    be_u16(regs(0x00), regs(0x01))
}

/// Reading the error status takes one round: the operation stops with the
/// error that the word reports, or goes on when it reports none.
proof fn lemma_run_error_word(m: SunriseModel, regs: spec_fn(u8) -> u8)
    requires
        m.running(),
        m.phase == Phase::First,
        m.failure is None,
        m.current() == (Step::Read { register: Registers::ErrorStatus, target: Target::ErrorWord }),
    ensures
        run(m, regs, 1) == (
            match ErrorStatus::<()>::decode(error_word(regs)) {
                Some(e) => m.stop(Completion::Sensor(e)),
                None => m.next_step().settle(),
            },
            regs,
        ),
{
    let b = load(regs, 0x00, 2);
    assert(m.request() == Request::Read { address: m.address, register: 0x00, len: 2 });
    assert(b[0] == regs(0x00) && b[1] == regs(0x01));
    assert(serve(regs, m.request()) == regs);
    let n = m.on_event(answer(regs, m.request()));
    match ErrorStatus::<()>::decode(error_word(regs)) {
        Some(e) => {
            assert(n == m.stop(Completion::Sensor(e)));
            assert(n.settle() == n);
            assert(run(n, regs, 0) == (n, regs));
        },
        None => {
            assert(n == m.next_step());
            assert(run(n.settle(), regs, 0) == (n.settle(), regs));
        },
    }
}

/// Writing the state data fields `state_fields()[i..]`, which the program
/// holds from position `p + i` on, takes three rounds each and leaves the
/// registers as `after_state_data_set` says.
proof fn lemma_run_state_writes(m: SunriseModel, regs: spec_fn(u8) -> u8, d: SetData, p: int, i: nat)
    requires
        0 <= p,
        i <= 12,
        p + 12 <= m.steps.len(),
        forall|t: int| 0 <= t < 12 ==> #[trigger] m.steps[p + t] == state_write(d, state_fields()[t]),
        m.pc == p + i,
        m.phase == Phase::First,
        m.failure is None,
        !m.passes_over(),
    ensures
        run(m, regs, (3 * (12 - i)) as nat) == (
            SunriseModel { pc: p + 12, ..m }.settle(),
            after_state_data_set(regs, d, state_fields(), i),
        ),
    decreases 12 - i,
{
    if i == 12 {
        assert(SunriseModel { pc: p + 12, ..m } == m);
    } else {
        let f = state_fields()[i as int];
        assert(m.steps[p + i] == state_write(d, f));
        let frame = frame_of(f.spec_register(), Payload::Word(d.field(f)));
        lemma_run_write_step(m, regs, f.spec_register(), Payload::Word(d.field(f)), RAM_DELAY);
        let regs2 = store_if(regs, true, frame);
        let n = m.next_step();
        assert(after_state_data_set(regs, d, state_fields(), i) == after_state_data_set(regs2, d, state_fields(), i + 1));
        lemma_run_split(m, regs, 3, (3 * (12 - (i + 1))) as nat);
        assert((3 * (12 - i)) as nat == 3 + (3 * (12 - (i + 1))) as nat);
        if i + 1 < 12 {
            assert(n.steps[p + (i + 1) as int] == state_write(d, state_fields()[i + 1 as int]));
            assert(n.settle() == n);
            lemma_run_state_writes(n, regs2, d, p, i + 1);
            assert(SunriseModel { pc: p + 12, ..n } == SunriseModel { pc: p + 12, ..m });
        } else {
            assert(n == SunriseModel { pc: p + 12, ..m });
            assert(after_state_data_set(regs2, d, state_fields(), i + 1) == regs2);
        }
    }
}

/// Reading the measurement fields `measurement_read_order()[i..]`, which the
/// program holds from position `p + i` on, takes one round each and stores
/// in the measurement what `measurement_in` says.
proof fn lemma_run_measurement_reads(m: SunriseModel, regs: spec_fn(u8) -> u8, p: int, i: nat)
    requires
        0 <= p,
        i <= 9,
        p + 9 <= m.steps.len(),
        forall|t: int| 0 <= t < 9 ==> #[trigger] m.steps[p + t] == measurement_read(measurement_read_order()[t]),
        m.pc == p + i,
        m.phase == Phase::First,
        m.failure is None,
        !m.passes_over(),
    ensures
        run(m, regs, (9 - i) as nat) == (
            SunriseModel {
                measurement: measurement_in(regs, m.measurement, measurement_read_order(), i),
                pc: p + 9,
                ..m
            }.settle(),
            regs,
        ),
    decreases 9 - i,
{
    if i == 9 {
        assert(SunriseModel {
            measurement: measurement_in(regs, m.measurement, measurement_read_order(), i),
            pc: p + 9,
            ..m
        } == m);
    } else {
        let f = measurement_read_order()[i as int];
        assert(m.steps[p + i] == measurement_read(f));
        let b = load(regs, f.spec_register().spec_address(), f.read_len());
        let n = SunriseModel { measurement: m.measurement.with_read(f, b), pc: m.pc + 1, ..m };
        assert(m.request() == Request::Read {
            address: m.address,
            register: f.spec_register().spec_address(),
            len: f.read_len(),
        });
        assert(m.on_event(answer(regs, m.request())) == n);
        assert(serve(regs, m.request()) == regs);
        assert(measurement_in(regs, m.measurement, measurement_read_order(), i)
            == measurement_in(regs, n.measurement, measurement_read_order(), i + 1));
        assert(run(m, regs, (9 - i) as nat) == run(n.settle(), regs, (9 - (i + 1)) as nat));
        if i + 1 < 9 {
            assert(n.steps[p + (i + 1) as int] == measurement_read(measurement_read_order()[i + 1 as int]));
            assert(!n.passes_over());
            assert(n.settle() == n);
            lemma_run_measurement_reads(n, regs, p, i + 1);
            assert(SunriseModel {
                measurement: measurement_in(regs, n.measurement, measurement_read_order(), i + 1),
                pc: p + 9,
                ..n
            } == SunriseModel {
                measurement: measurement_in(regs, m.measurement, measurement_read_order(), i),
                pc: p + 9,
                ..m
            });
        } else {
            assert(measurement_in(regs, n.measurement, measurement_read_order(), i + 1) == n.measurement);
        }
    }
}


/// Reading the measurement looks only at the registers 0x06 to 0x1B.
proof fn lemma_measurement_in_local(r1: spec_fn(u8) -> u8, r2: spec_fn(u8) -> u8, x: Measurement)
    requires
        forall|a: u8| 0x06 <= a <= 0x1B ==> #[trigger] r1(a) == r2(a),
    ensures
        measurement_in(r1, x, measurement_read_order(), 0) == measurement_in(r2, x, measurement_read_order(), 0),
{
    reveal_with_fuel(measurement_in, 10);
    assert(forall|a: u8, n: nat| 0x06 <= a && a as int + n <= 0x1C ==> #[trigger] load(r1, a, n) =~= load(r2, a, n));
}

/// Reading the state data looks only at the registers 0xC4 to 0xDB.
proof fn lemma_state_data_in_local(r1: spec_fn(u8) -> u8, r2: spec_fn(u8) -> u8, x: SetData)
    requires
        forall|a: u8| 0xC4 <= a <= 0xDB ==> #[trigger] r1(a) == r2(a),
    ensures
        state_data_in(r1, x, state_fields(), 0) == state_data_in(r2, x, state_fields(), 0),
{
    reveal_with_fuel(state_data_in, 13);
    assert(forall|a: u8| 0xC4 <= a && a as int + 2 <= 0xDC ==> #[trigger] load(r1, a, 2) =~= load(r2, a, 2));
}

/// Where the wait for the sensor stands in the program of a CO2
/// measurement: after the error status clearing, the twelve state data
/// writes and the air pressure, if known.
pub open spec fn co2_wait_index(pressure: Option<u16>) -> int {
    if pressure is Some { 14 } else { 13 }
}

/// The registers after a CO2 measurement's writes: the error status
/// clearing, the state data `d`, and the air pressure, if known.
pub open spec fn co2_registers(regs: spec_fn(u8) -> u8, d: SetData, pressure: Option<u16>) -> spec_fn(u8) -> u8 {
    let r1 = store_if(regs, true, frame_of(Registers::ClearErrorStatus, Payload::Byte(0)));
    let r2 = after_state_data_set(r1, d, state_fields(), 0);
    match pressure {
        Some(p) => store_if(r2, true, frame_of(Registers::PressureValue, Payload::Word(p))),
        None => r2,
    }
}

/// The steps of a CO2 measurement, position by position.
proof fn lemma_co2_program(d: SetData, pressure: Option<u16>)
    ensures
        ({
            let steps = co2_measurement_steps(d, pressure);
            let q = co2_wait_index(pressure);
            &&& steps.len() == q + 23
            &&& steps[0] == clear_error_status_step()
            &&& forall|t: int| 0 <= t < 12 ==> #[trigger] steps[1 + t] == state_write(d, state_fields()[t])
            &&& pressure matches Some(p) ==> steps[13] == (Step::Write {
                register: Registers::PressureValue,
                payload: Payload::Word(p),
                delay: RAM_DELAY,
            })
            &&& steps[q] == Step::WaitReady
            &&& steps[q + 1] == (Step::Read { register: Registers::ErrorStatus, target: Target::ErrorWord })
            &&& forall|t: int| 0 <= t < 9 ==> #[trigger] steps[(q + 2) + t] == measurement_read(measurement_read_order()[t])
            &&& forall|t: int| 0 <= t < 12 ==> #[trigger] steps[(q + 11) + t] == state_read(state_fields()[t])
        }),
{
    let steps = co2_measurement_steps(d, pressure);
    let sset = state_data_set_steps(d);
    let pstep = match pressure {
        Some(p) => seq![Step::Write { register: Registers::PressureValue, payload: Payload::Word(p), delay: RAM_DELAY }],
        None => Seq::<Step>::empty(),
    };
    let mid = seq![
        Step::WaitReady,
        Step::Read { register: Registers::ErrorStatus, target: Target::ErrorWord },
    ];
    let mr = measurement_read_steps();
    let sg = state_data_get_steps();
    let q = co2_wait_index(pressure);
    assert(steps == seq![clear_error_status_step()] + sset + pstep + mid + mr + sg);
    assert forall|t: int| 0 <= t < 12 implies #[trigger] steps[1 + t] == state_write(d, state_fields()[t]) by {
        assert(steps[1 + t] == sset[t]);
    }
    assert(steps[q] == mid[0]);
    assert(steps[q + 1] == mid[1]);
    assert forall|t: int| 0 <= t < 9 implies #[trigger] steps[(q + 2) + t] == measurement_read(measurement_read_order()[t]) by {
        assert(steps[q + 2 + t] == mr[t]);
    }
    assert forall|t: int| 0 <= t < 12 implies #[trigger] steps[(q + 11) + t] == state_read(state_fields()[t]) by {
        assert(steps[q + 11 + t] == sg[t]);
    }
}

/// The writes of a CO2 measurement take three rounds each and bring the
/// driver to the wait for the sensor, and the registers to `co2_registers`.
#[verifier::spinoff_prover]
proof fn lemma_run_co2_writes(m: SunriseModel, regs: spec_fn(u8) -> u8, pressure: Option<u16>)
    ensures
        ({
            let b0 = m.begin(OpKind::Co2Measurement, co2_measurement_steps(m.set_data, pressure));
            let rounds: nat = if pressure is Some { 42 } else { 39 };
            run(b0, regs, rounds) == (
                SunriseModel { pc: co2_wait_index(pressure), ..b0 },
                co2_registers(regs, m.set_data, pressure),
            )
        }),
{
    let d = m.set_data;
    lemma_co2_program(d, pressure);
    let b0 = m.begin(OpKind::Co2Measurement, co2_measurement_steps(d, pressure));
    let r1 = store_if(regs, true, frame_of(Registers::ClearErrorStatus, Payload::Byte(0)));
    lemma_run_write_step(b0, regs, Registers::ClearErrorStatus, Payload::Byte(0), RAM_DELAY);
    let b1 = b0.next_step();
    assert(b1.settle() == b1);
    lemma_run_state_writes(b1, r1, d, 1, 0);
    let r2 = after_state_data_set(r1, d, state_fields(), 0);
    let c13 = SunriseModel { pc: 13, ..b1 };
    assert(c13.settle() == c13);
    lemma_run_split(b0, regs, 3, 36);
    if let Some(p) = pressure {
        lemma_run_write_step(c13, r2, Registers::PressureValue, Payload::Word(p), RAM_DELAY);
        assert(c13.next_step().settle() == c13.next_step());
        lemma_run_split(b0, regs, 39, 3);
        assert(SunriseModel { pc: 14, ..b0 } == c13.next_step());
    } else {
        assert(SunriseModel { pc: 13, ..b0 } == c13);
    }
}

/// From the wait for the sensor on, a CO2 measurement takes at most 23
/// rounds: it waits and reads the error status; when the word reports an
/// error, it stops with it; when it reports none, it reads the measurement
/// and the state data back, and succeeds.
#[verifier::spinoff_prover]
proof fn lemma_run_co2_reads(w: SunriseModel, regs: spec_fn(u8) -> u8, d: SetData, pressure: Option<u16>)
    requires
        w.steps == co2_measurement_steps(d, pressure),
        w.pc == co2_wait_index(pressure),
        w.phase == Phase::First,
        w.failure is None,
    ensures
        run(w, regs, 23) == (
            match ErrorStatus::<()>::decode(error_word(regs)) {
                Some(e) => SunriseModel { pc: co2_wait_index(pressure) + 1, ..w }.stop(Completion::Sensor(e)),
                None => SunriseModel {
                    measurement: measurement_in(regs, w.measurement, measurement_read_order(), 0),
                    set_data: state_data_in(regs, w.set_data, state_fields(), 0),
                    pc: w.steps.len() as int,
                    ..w
                },
            },
            regs,
        ),
{
    lemma_co2_program(d, pressure);
    let q = co2_wait_index(pressure);
    lemma_run_wait(w, regs);
    let x = SunriseModel { pc: q + 1, ..w };
    assert(w.next_step() == x);
    assert(!x.passes_over());
    assert(x.settle() == x);
    lemma_run_error_word(x, regs);
    lemma_run_split(w, regs, 1, 22);
    lemma_run_split(x, regs, 1, 21);
    match ErrorStatus::<()>::decode(error_word(regs)) {
        Some(e) => {
            let s = x.stop(Completion::Sensor(e));
            assert(!s.running());
            assert(run(s, regs, 21) == (s, regs));
        },
        None => {
            let y = SunriseModel { pc: q + 2, ..w };
            assert(x.next_step() == y);
            assert(!y.passes_over());
            assert(y.settle() == y);
            lemma_run_measurement_reads(y, regs, q + 2, 0);
            let mm = measurement_in(regs, y.measurement, measurement_read_order(), 0);
            let z = SunriseModel { measurement: mm, pc: q + 11, ..y };
            assert(!z.passes_over());
            assert(z.settle() == z);
            lemma_run_split(y, regs, 9, 12);
            lemma_run_state_reads(z, regs, q + 11, 0);
            let sd = state_data_in(regs, z.set_data, state_fields(), 0);
            let a = SunriseModel { set_data: sd, pc: q + 23, ..z };
            assert(a.settle() == a);
        },
    }
}

/// Against a sensor that never fails and changes none of its registers by
/// itself, a CO2 measurement reads the error status word that the registers
/// hold. When the word reports an error, the measurement fails with it;
/// when it reports none, the measurement succeeds, returns the measurement
/// that the registers hold, and reads back the state data that it handed
/// over.
pub proof fn lemma_co2_measurement_reads_registers(m: SunriseModel, regs: spec_fn(u8) -> u8, pressure: Option<u16>)
    ensures
        ({
            let rounds: nat = if pressure is Some { 65 } else { 62 };
            let a = run(m.begin(OpKind::Co2Measurement, co2_measurement_steps(m.set_data, pressure)).settle(), regs, rounds).0;
            &&& !a.running()
            &&& match ErrorStatus::<()>::decode(error_word(regs)) {
                Some(e) => a.request() == Request::Finished(Completion::Sensor(e)),
                None => {
                    &&& a.measurement == measurement_in(regs, m.measurement, measurement_read_order(), 0)
                    &&& a.measurement.measured_filtered_press_comp == regs(0x06) * 256 + regs(0x07)
                        - (if regs(0x06) >= 128 { 65536int } else { 0int })
                    &&& a.measurement.temperature == regs(0x08) * 256 + regs(0x09)
                        - (if regs(0x08) >= 128 { 65536int } else { 0int })
                    &&& a.measurement.measurement_count == regs(0x0D)
                    &&& a.measurement.measurement_cycle_time == regs(0x0E) * 256 + regs(0x0F)
                    &&& a.measurement.measured_unfiltered_press_comp == regs(0x10) * 256 + regs(0x11)
                        - (if regs(0x10) >= 128 { 65536int } else { 0int })
                    &&& a.measurement.measured_filtered == regs(0x12) * 256 + regs(0x13)
                        - (if regs(0x12) >= 128 { 65536int } else { 0int })
                    &&& a.measurement.measured_unfiltered == regs(0x14) * 256 + regs(0x15)
                        - (if regs(0x14) >= 128 { 65536int } else { 0int })
                    &&& a.measurement.scaled_measured == regs(0x16) * 256 + regs(0x17)
                        - (if regs(0x16) >= 128 { 65536int } else { 0int })
                    &&& a.measurement.etc == regs(0x18) * 16777216 + regs(0x19) * 65536 + regs(0x1A) * 256 + regs(0x1B)
                    &&& a.set_data == m.set_data
                    &&& a.request() == Request::Finished(Completion::Done(Reply::Measurement(a.measurement)))
                },
            }
        }),
{
    let d = m.set_data;
    lemma_co2_program(d, pressure);
    let b0 = m.begin(OpKind::Co2Measurement, co2_measurement_steps(d, pressure));
    assert(b0.settle() == b0);
    lemma_run_co2_writes(m, regs, pressure);
    let w = SunriseModel { pc: co2_wait_index(pressure), ..b0 };
    let r3 = co2_registers(regs, d, pressure);
    lemma_run_co2_reads(w, r3, d, pressure);
    let first: nat = if pressure is Some { 42 } else { 39 };
    lemma_run_split(b0, regs, first, 23);

    // The registers that the error status and the measurement are read from
    // are untouched by the writes.
    let r1 = store_if(regs, true, frame_of(Registers::ClearErrorStatus, Payload::Byte(0)));
    let r2 = after_state_data_set(r1, d, state_fields(), 0);
    lemma_state_registers_after(r1, d);
    assert forall|addr: u8| 0x00 <= addr <= 0x1B implies #[trigger] r3(addr) == regs(addr) by {
        assert(r2(addr) == state_register_after(r1, d, addr));
    }
    assert(error_word(r3) == error_word(regs));
    lemma_measurement_in_local(r3, regs, m.measurement);
    lemma_measurement_in_decodes(regs, m.measurement);
    // The state data registers hold what was handed over.
    assert forall|addr: u8| 0xC4 <= addr <= 0xDB implies #[trigger] r3(addr) == r2(addr) by {}
    lemma_state_data_in_local(r3, r2, d);
    lemma_state_data_write_read_back(r1, d, d);
}


/// The measurement that the registers give, whatever the driver held
/// before: each concentration and the temperature are the signed 16-bit
/// values of their two registers, most significant byte first, in two's
/// complement (a first byte of 0x80 or more stands for a negative value);
/// the cycle time is the unsigned 16-bit value of its two registers, the
/// count is one byte, and the elapsed time counter is the unsigned 32-bit
/// value of its four registers, most significant byte first.
pub proof fn lemma_measurement_in_decodes(regs: spec_fn(u8) -> u8, x: Measurement)
    ensures
        ({
            let r = measurement_in(regs, x, measurement_read_order(), 0);
            &&& r.measured_filtered_press_comp == regs(0x06) * 256 + regs(0x07)
                - (if regs(0x06) >= 128 { 65536int } else { 0int })
            &&& r.temperature == regs(0x08) * 256 + regs(0x09) - (if regs(0x08) >= 128 { 65536int } else { 0int })
            &&& r.measurement_count == regs(0x0D)
            &&& r.measurement_cycle_time == regs(0x0E) * 256 + regs(0x0F)
            &&& r.measured_unfiltered_press_comp == regs(0x10) * 256 + regs(0x11)
                - (if regs(0x10) >= 128 { 65536int } else { 0int })
            &&& r.measured_filtered == regs(0x12) * 256 + regs(0x13) - (if regs(0x12) >= 128 { 65536int } else { 0int })
            &&& r.measured_unfiltered == regs(0x14) * 256 + regs(0x15) - (if regs(0x14) >= 128 { 65536int } else { 0int })
            &&& r.scaled_measured == regs(0x16) * 256 + regs(0x17) - (if regs(0x16) >= 128 { 65536int } else { 0int })
            &&& r.etc == regs(0x18) * 16777216 + regs(0x19) * 65536 + regs(0x1A) * 256 + regs(0x1B)
        }),
{
    reveal_with_fuel(measurement_in, 10);
}

/// The configuration that the registers give, whatever the driver held
/// before: each byte value is its register, each 16-bit value the unsigned
/// value of its two registers, most significant byte first.
pub proof fn lemma_config_in_decodes(regs: spec_fn(u8) -> u8, x: Config)
    ensures
        ({
            let c = config_in(regs, x, config_read_order(), 0);
            &&& c.single_measurement_mode == regs(0x95)
            &&& c.measurement_period == regs(0x96) * 256 + regs(0x97)
            &&& c.number_of_samples == regs(0x98) * 256 + regs(0x99)
            &&& c.abc_period == regs(0x9A) * 256 + regs(0x9B)
            &&& c.abc_target == regs(0x9E) * 256 + regs(0x9F)
            &&& c.iir_filter == regs(0xA1)
            &&& c.meter_control == regs(0xA5)
            &&& c.i2c_address == regs(0xA7)
            &&& c.nominator == regs(0xA8) * 256 + regs(0xA9)
            &&& c.denominator == regs(0xAA) * 256 + regs(0xAB)
            &&& c.scaled_abc_target == regs(0xB0) * 256 + regs(0xB1)
        }),
{
    reveal_with_fuel(config_in, 12);
}

/// The state data that the registers give, whatever the driver held before:
/// twelve unsigned 16-bit values in the registers 0xC4 to 0xDB, two
/// registers each, most significant byte first.
pub proof fn lemma_state_data_in_decodes(regs: spec_fn(u8) -> u8, x: SetData)
    ensures
        ({
            let d = state_data_in(regs, x, state_fields(), 0);
            &&& d.abc_time == regs(0xC4) * 256 + regs(0xC5)
            &&& d.abc_par0 == regs(0xC6) * 256 + regs(0xC7)
            &&& d.abc_par1 == regs(0xC8) * 256 + regs(0xC9)
            &&& d.abc_par2 == regs(0xCA) * 256 + regs(0xCB)
            &&& d.abc_par3 == regs(0xCC) * 256 + regs(0xCD)
            &&& d.filter_par0 == regs(0xCE) * 256 + regs(0xCF)
            &&& d.filter_par1 == regs(0xD0) * 256 + regs(0xD1)
            &&& d.filter_par2 == regs(0xD2) * 256 + regs(0xD3)
            &&& d.filter_par3 == regs(0xD4) * 256 + regs(0xD5)
            &&& d.filter_par4 == regs(0xD6) * 256 + regs(0xD7)
            &&& d.filter_par5 == regs(0xD8) * 256 + regs(0xD9)
            &&& d.filter_par6 == regs(0xDA) * 256 + regs(0xDB)
        }),
{
    reveal_with_fuel(state_data_in, 13);
}

/// Against a sensor that never fails, reading the scaled concentration
/// takes one round, changes no register, and returns the signed 16-bit value
/// of the registers 0x16 and 0x17, most significant byte first, in two's
/// complement.
pub proof fn lemma_scaled_measurement_reads_registers(m: SunriseModel, regs: spec_fn(u8) -> u8)
    ensures
        ({
            let (a, after) = run(m.begin(OpKind::ScaledMeasurement, scaled_measurement_steps()).settle(), regs, 1);
            &&& after == regs
            &&& !a.running()
            &&& a.request() matches Request::Finished(Completion::Done(Reply::Scaled(v)))
                && v == regs(0x16) * 256 + regs(0x17) - (if regs(0x16) >= 128 { 65536int } else { 0int })
        }),
{
    let b = m.begin(OpKind::ScaledMeasurement, scaled_measurement_steps());
    assert(!b.passes_over());
    assert(b.settle() == b);
    assert(b.request() == Request::Read { address: b.address, register: 0x16, len: 2 });
    let bytes = load(regs, 0x16, 2);
    assert(bytes[0] == regs(0x16) && bytes[1] == regs(0x17));
    let n = b.on_event(answer(regs, b.request()));
    assert(n == SunriseModel { scaled: be_i16(regs(0x16), regs(0x17)), pc: 1, ..b });
    assert(n.settle() == n);
    assert(serve(regs, b.request()) == regs);
    assert(run(n, regs, 0) == (n, regs));
}

/// Against a sensor that never fails, reading the elapsed time counter takes
/// one round, changes no register, and returns the unsigned 32-bit value of
/// the registers 0x18 to 0x1B, most significant byte first.
pub proof fn lemma_elapsed_time_reads_registers(m: SunriseModel, regs: spec_fn(u8) -> u8)
    ensures
        ({
            let (a, after) = run(m.begin(OpKind::ElapsedTime, elapsed_time_steps()).settle(), regs, 1);
            &&& after == regs
            &&& !a.running()
            &&& a.request() matches Request::Finished(Completion::Done(Reply::Elapsed(v)))
                && v == regs(0x18) * 16777216 + regs(0x19) * 65536 + regs(0x1A) * 256 + regs(0x1B)
        }),
{
    let b = m.begin(OpKind::ElapsedTime, elapsed_time_steps());
    assert(!b.passes_over());
    assert(b.settle() == b);
    assert(b.request() == Request::Read { address: b.address, register: 0x18, len: 4 });
    let bytes = load(regs, 0x18, 4);
    assert(bytes[0] == regs(0x18) && bytes[1] == regs(0x19) && bytes[2] == regs(0x1A) && bytes[3] == regs(0x1B));
    let n = b.on_event(answer(regs, b.request()));
    assert(n == SunriseModel { elapsed: be_u32(regs(0x18), regs(0x19), regs(0x1A), regs(0x1B)), pc: 1, ..b });
    assert(n.settle() == n);
    assert(serve(regs, b.request()) == regs);
    assert(run(n, regs, 0) == (n, regs));
}

/// The steps of a background calibration, position by position: the status
/// reset, the calibration command, and in single measurement mode the state
/// data hand-over and the wait for the sensor, then the status read.
proof fn lemma_background_program(mode: u8, d: SetData)
    ensures
        ({
            let steps = background_calibration_steps(mode, d);
            let q: int = if mode == 1 { 15 } else { 2 };
            &&& steps[0] == (Step::Write { register: Registers::CalibrationStatus, payload: Payload::Byte(0x00), delay: RAM_DELAY })
            &&& steps[1] == (Step::Write { register: Registers::CalibrationCommand, payload: Payload::Word(0x07C6), delay: RAM_DELAY })
            &&& mode == 1 ==> forall|t: int| 0 <= t < 12 ==> #[trigger] steps[2 + t] == state_write(d, state_fields()[t])
            &&& mode == 1 ==> steps[14] == Step::WaitReady
            &&& steps[q] == (Step::Read { register: Registers::CalibrationStatus, target: Target::CalibrationStatus })
            &&& steps.len() == if mode == 1 { 28int } else { 3int }
        }),
{
    let steps = background_calibration_steps(mode, d);
    let head = seq![
        Step::Write { register: Registers::CalibrationStatus, payload: Payload::Byte(0x00), delay: RAM_DELAY },
        Step::Write { register: Registers::CalibrationCommand, payload: Payload::Word(0x07C6), delay: RAM_DELAY },
    ];
    let read = seq![Step::Read { register: Registers::CalibrationStatus, target: Target::CalibrationStatus }];
    if mode == 1 {
        let sset = state_data_set_steps(d);
        let mid = sset.push(Step::WaitReady);
        assert(steps == head + mid + read + state_data_get_steps());
        assert forall|t: int| 0 <= t < 12 implies #[trigger] steps[2 + t] == state_write(d, state_fields()[t]) by {
            assert(steps[2 + t] == mid[t]);
        }
        assert(steps[14] == mid[12]);
    } else {
        assert(steps == head + read);
    }
}

/// The first two writes of a background calibration: the status reset and
/// the calibration command, three rounds each.
#[verifier::spinoff_prover]
proof fn lemma_run_background_head(m: SunriseModel, regs: spec_fn(u8) -> u8)
    ensures
        ({
            let steps = background_calibration_steps(m.config.single_measurement_mode, m.set_data);
            let b0 = m.begin(OpKind::BackgroundCalibration, steps);
            let r2 = store_if(
                store_if(regs, true, frame_of(Registers::CalibrationStatus, Payload::Byte(0x00))),
                true,
                frame_of(Registers::CalibrationCommand, Payload::Word(0x07C6)),
            );
            &&& b0.settle() == b0
            &&& run(b0, regs, 6) == (SunriseModel { pc: 2, ..b0 }, r2)
            &&& r2(0x81) == 0 && r2(0x82) == 0x07 && r2(0x83) == 0xC6
            &&& forall|addr: u8| 0xC4 <= addr <= 0xDB ==> #[trigger] r2(addr) == regs(addr)
        }),
{
    let mode = m.config.single_measurement_mode;
    let d = m.set_data;
    lemma_background_program(mode, d);
    let steps = background_calibration_steps(mode, d);
    let b0 = m.begin(OpKind::BackgroundCalibration, steps);
    assert(!b0.passes_over());
    assert(b0.settle() == b0);
    let f1 = frame_of(Registers::CalibrationStatus, Payload::Byte(0x00));
    let f2 = frame_of(Registers::CalibrationCommand, Payload::Word(0x07C6));
    lemma_run_write_step(b0, regs, Registers::CalibrationStatus, Payload::Byte(0x00), RAM_DELAY);
    let r1 = store_if(regs, true, f1);
    let b1 = b0.next_step();
    assert(!b1.passes_over());
    assert(b1.settle() == b1);
    lemma_run_write_step(b1, r1, Registers::CalibrationCommand, Payload::Word(0x07C6), RAM_DELAY);
    let r2 = store_if(r1, true, f2);
    let b2 = b1.next_step();
    assert(b2 == SunriseModel { pc: 2, ..b0 });
    assert(!b2.passes_over());
    assert(b2.settle() == b2);
    lemma_run_split(b0, regs, 3, 3);
    assert(f2 == seq![0x82u8, 0x07u8, 0xC6u8]);
    assert(r2(0x81) == 0 && r2(0x82) == 0x07 && r2(0x83) == 0xC6);
    assert forall|addr: u8| 0xC4 <= addr <= 0xDB implies #[trigger] r2(addr) == regs(addr) by {}
}

/// The status read that ends a background calibration, at position `q`:
/// against registers whose status is zero, it stops with a calibration error.
proof fn lemma_run_status_zero(c: SunriseModel, r: spec_fn(u8) -> u8)
    requires
        c.running(),
        c.phase == Phase::First,
        c.failure is None,
        c.current() == (Step::Read { register: Registers::CalibrationStatus, target: Target::CalibrationStatus }),
        r(0x81) == 0,
    ensures
        run(c, r, 1) == (c.stop(Completion::Sensor(ErrorStatus::CalibrationError)), r),
{
    assert(c.request() == Request::Read { address: c.address, register: 0x81, len: 1 });
    let n = c.on_event(answer(r, c.request()));
    assert(load(r, 0x81, 1)[0] == 0);
    assert(n == c.stop(Completion::Sensor(ErrorStatus::CalibrationError)));
    assert(n.settle() == n);
    assert(serve(r, c.request()) == r);
    assert(run(n, r, 0) == (n, r));
}

/// In single measurement mode, a background calibration hands over the
/// state data between the command and the status read.
#[verifier::spinoff_prover]
proof fn lemma_run_background_single(m: SunriseModel, regs: spec_fn(u8) -> u8, start: SetData)
    requires
        m.config.single_measurement_mode == 1,
    ensures
        ({
            let steps = background_calibration_steps(1, m.set_data);
            let (a, after) = run(m.begin(OpKind::BackgroundCalibration, steps).settle(), regs, 44);
            &&& after(0x81) == 0x00 && after(0x82) == 0x07 && after(0x83) == 0xC6
            &&& forall|addr: u8| 0xC4 <= addr <= 0xDB
                ==> #[trigger] after(addr) == state_register_after(regs, m.set_data, addr)
            &&& state_data_in(after, start, state_fields(), 0) == m.set_data
            &&& a == m.begin(OpKind::BackgroundCalibration, steps).stop(Completion::Sensor(ErrorStatus::CalibrationError))
        }),
{
    let d = m.set_data;
    lemma_background_program(1, d);
    lemma_run_background_head(m, regs);
    let steps = background_calibration_steps(1, d);
    let b0 = m.begin(OpKind::BackgroundCalibration, steps);
    let r2 = store_if(
        store_if(regs, true, frame_of(Registers::CalibrationStatus, Payload::Byte(0x00))),
        true,
        frame_of(Registers::CalibrationCommand, Payload::Word(0x07C6)),
    );
    let b2 = SunriseModel { pc: 2, ..b0 };
    assert(!b2.passes_over());
    lemma_run_state_writes(b2, r2, d, 2, 0);
    let r3 = after_state_data_set(r2, d, state_fields(), 0);
    lemma_state_registers_after(r2, d);
    let c14 = SunriseModel { pc: 14, ..b0 };
    assert(SunriseModel { pc: 2int + 12, ..b2 } == c14);
    assert(!c14.passes_over());
    assert(c14.settle() == c14);
    lemma_run_wait(c14, r3);
    let c15 = SunriseModel { pc: 15, ..b0 };
    assert(c14.next_step() == c15);
    assert(!c15.passes_over());
    assert(c15.settle() == c15);
    assert(r3(0x81) == state_register_after(r2, d, 0x81));
    lemma_run_status_zero(c15, r3);
    let n = c15.stop(Completion::Sensor(ErrorStatus::CalibrationError));
    assert(n == b0.stop(Completion::Sensor(ErrorStatus::CalibrationError)));
    lemma_run_split(c14, r3, 1, 1);
    lemma_run_split(b2, r2, 36, 2);
    lemma_run_split(b0, regs, 6, 38);
    assert(run(b0, regs, 44) == (n, r3));
    assert forall|addr: u8| 0xC4 <= addr <= 0xDB implies #[trigger] r3(addr) == state_register_after(regs, d, addr) by {
        assert(r3(addr) == state_register_after(r2, d, addr));
    }
    lemma_state_data_write_read_back(r2, d, start);
    assert(r3(0x82) == state_register_after(r2, d, 0x82));
    assert(r3(0x83) == state_register_after(r2, d, 0x83));
}

/// Against a sensor that never fails and changes none of its registers by
/// itself, a background calibration resets the calibration status to zero
/// and writes the command 0x07C6. In single measurement mode it then hands
/// the sensor the driver's state data, so that the state data registers
/// 0xC4 to 0xDB hold it and reading them gives it back; in any other mode it
/// leaves those registers alone. Then it reads the status, which such a
/// sensor leaves at the zero written, and ends with a calibration error.
pub proof fn lemma_background_calibration_writes(m: SunriseModel, regs: spec_fn(u8) -> u8, start: SetData)
    ensures
        ({
            let single = m.config.single_measurement_mode == 1;
            let rounds: nat = if single { 44 } else { 7 };
            let steps = background_calibration_steps(m.config.single_measurement_mode, m.set_data);
            let (a, after) = run(m.begin(OpKind::BackgroundCalibration, steps).settle(), regs, rounds);
            &&& after(0x81) == 0x00
            &&& after(0x82) == 0x07
            &&& after(0x83) == 0xC6
            &&& single ==> forall|addr: u8| 0xC4 <= addr <= 0xDB
                ==> #[trigger] after(addr) == state_register_after(regs, m.set_data, addr)
            &&& single ==> state_data_in(after, start, state_fields(), 0) == m.set_data
            &&& !single ==> forall|addr: u8| 0xC4 <= addr <= 0xDB ==> #[trigger] after(addr) == regs(addr)
            &&& !a.running()
            &&& a.request() == Request::Finished(Completion::Sensor(ErrorStatus::CalibrationError))
        }),
{
    let mode = m.config.single_measurement_mode;
    if mode == 1 {
        lemma_run_background_single(m, regs, start);
    } else {
        lemma_background_program(mode, m.set_data);
        lemma_run_background_head(m, regs);
        let steps = background_calibration_steps(mode, m.set_data);
        let b0 = m.begin(OpKind::BackgroundCalibration, steps);
        let r2 = store_if(
            store_if(regs, true, frame_of(Registers::CalibrationStatus, Payload::Byte(0x00))),
            true,
            frame_of(Registers::CalibrationCommand, Payload::Word(0x07C6)),
        );
        let b2 = SunriseModel { pc: 2, ..b0 };
        lemma_run_status_zero(b2, r2);
        lemma_run_split(b0, regs, 6, 1);
    }
}

/// Against a sensor that never fails, the initialisation without a new
/// configuration reads the state data, the product type and the
/// configuration that the sensor's registers hold, writes nothing, and
/// succeeds.
pub proof fn lemma_init_reads_sensor(m: SunriseModel, regs: spec_fn(u8) -> u8)
    ensures
        ({
            let (a, after) = run(m.begin(OpKind::Init, init_steps(None)).settle(), regs, 23 + product_rounds(regs));
            &&& after == regs
            &&& !a.running()
            &&& a.request() == Request::Finished(Completion::Done(Reply::Unit))
            &&& a.set_data == state_data_in(regs, m.set_data, state_fields(), 0)
            &&& a.product_type == product_in(regs, m.product_type)
            &&& a.config == config_in(regs, m.config, config_read_order(), 0)
        }),
{
    let steps = init_steps(None);
    let sg = state_data_get_steps();
    let pg = product_type_get_steps();
    let cg = get_config_steps();
    assert(steps == sg + pg + cg);
    assert(steps.len() == 27);
    let b0 = m.begin(OpKind::Init, steps);
    assert forall|t: int| 0 <= t < 12 implies #[trigger] b0.steps[0 + t] == state_read(state_fields()[t]) by {
        assert(steps[t] == sg[t]);
    }
    assert(b0.steps[0] is Read);
    assert(b0.settle() == b0);
    lemma_run_state_reads(b0, regs, 0, 0);
    let sd = state_data_in(regs, m.set_data, state_fields(), 0);
    let m12 = SunriseModel { set_data: sd, pc: 12, ..b0 };
    assert(steps[12] == pg[0]);
    assert(m12.settle() == m12);
    assert(steps.subrange(12, 16) =~= pg);
    assert(steps[16] == cg[0]);
    lemma_run_product_reads(m12, regs, 12);
    let m16 = SunriseModel { product_type: product_in(regs, m.product_type), pc: 16, ..m12 };
    assert forall|t: int| 0 <= t < 11 implies #[trigger] m16.steps[16 + t] == config_read(config_read_order()[t]) by {
        assert(steps[16 + t] == cg[t]);
    }
    assert(!m16.passes_over());
    lemma_run_config_reads(m16, regs, 16, 0);
    let k = config_in(regs, m16.config, config_read_order(), 0);
    lemma_config_in_overwrites_all(regs, m16.config, m.config);
    let a = SunriseModel { config: k, pc: 27, ..m16 };
    assert(a.settle() == a);
    let pr = product_rounds(regs);
    lemma_run_split(b0, regs, 12, 11 + pr);
    lemma_run_split(m12, regs, pr, 11);
    assert(12 + (11 + pr) == 23 + pr);
    assert(run(b0, regs, 23 + pr) == (a, regs));
}

/// An operation of a single write takes three rounds, stores the frame and
/// succeeds.
proof fn lemma_run_single_write(m: SunriseModel, regs: spec_fn(u8) -> u8, kind: OpKind, register: Registers, payload: Payload)
    ensures
        ({
            let b = m.begin(kind, seq![Step::Write { register, payload, delay: RAM_DELAY }]);
            run(b.settle(), regs, 3) == (SunriseModel { pc: 1, ..b }, store_if(regs, true, frame_of(register, payload)))
        }),
{
    let b = m.begin(kind, seq![Step::Write { register, payload, delay: RAM_DELAY }]);
    assert(!b.passes_over());
    assert(b.settle() == b);
    lemma_run_write_step(b, regs, register, payload, RAM_DELAY);
    assert(b.next_step().settle() == b.next_step());
}

/// Against a sensor that never fails, a target calibration with `value`,
/// a measurement start and a reset each take three rounds and succeed: the
/// first puts `value` in the registers 0x84 and 0x85, most significant byte
/// first, the second puts 0x01 in the register 0xC3, the third 0xFF in the
/// register 0xA3; no other register changes.
pub proof fn lemma_command_writes(m: SunriseModel, regs: spec_fn(u8) -> u8, value: u16)
    ensures
        ({
            let (t, t_after) = run(m.begin(OpKind::TargetCalibration, target_calibration_steps(value)).settle(), regs, 3);
            &&& t.request() == Request::Finished(Completion::Done(Reply::Unit))
            &&& t_after(0x84) * 256 + t_after(0x85) == value
            &&& forall|a: u8| a != 0x84 && a != 0x85 ==> #[trigger] t_after(a) == regs(a)
        }),
        ({
            let (s, s_after) = run(m.begin(OpKind::StartMeasurement, start_measurement_steps()).settle(), regs, 3);
            &&& s.request() == Request::Finished(Completion::Done(Reply::Unit))
            &&& s_after(0xC3) == 0x01
            &&& forall|a: u8| a != 0xC3 ==> #[trigger] s_after(a) == regs(a)
        }),
        ({
            let (r, r_after) = run(m.begin(OpKind::Reset, reset_steps()).settle(), regs, 3);
            &&& r.request() == Request::Finished(Completion::Done(Reply::Unit))
            &&& r_after(0xA3) == 0xFF
            &&& forall|a: u8| a != 0xA3 ==> #[trigger] r_after(a) == regs(a)
        }),
{
    lemma_run_single_write(m, regs, OpKind::TargetCalibration, Registers::CalibrationTarget, Payload::Word(value));
    assert(target_calibration_steps(value) == seq![Step::Write { register: Registers::CalibrationTarget, payload: Payload::Word(value), delay: RAM_DELAY }]);
    let ft = frame_of(Registers::CalibrationTarget, Payload::Word(value));
    assert(ft == seq![0x84u8, high_byte(value), low_byte(value)]);
    assert(high_byte(value) * 256 + low_byte(value) == value);
    lemma_run_single_write(m, regs, OpKind::StartMeasurement, Registers::StartMesurement, Payload::Byte(0x01));
    assert(frame_of(Registers::StartMesurement, Payload::Byte(0x01)) == seq![0xC3u8, 0x01u8]);
    lemma_run_single_write(m, regs, OpKind::Reset, Registers::Scr, Payload::Byte(0xFF));
    assert(frame_of(Registers::Scr, Payload::Byte(0xFF)) == seq![0xA3u8, 0xFFu8]);
}

/// Powering on drives the enable pin high and then waits 35 ms for the
/// sensor to start; powering off drives it low. A driver without an enable
/// pin does nothing for either and succeeds at once. Neither touches a
/// register.
pub proof fn lemma_power_through_enable_pin(m: SunriseModel, regs: spec_fn(u8) -> u8)
    ensures
        ({
            let on = m.begin(OpKind::PowerOn, power_on_steps(m.has_enable_pin)).settle();
            let off = m.begin(OpKind::PowerOff, power_off_steps(m.has_enable_pin)).settle();
            &&& m.has_enable_pin ==> {
                &&& on.request() == Request::SetEnablePin { high: true }
                &&& run(on, regs, 1).0.request() == Request::Delay { ms: 35 }
                &&& run(on, regs, 2).0.request() == Request::Finished(Completion::Done(Reply::Unit))
                &&& run(on, regs, 2).1 == regs
                &&& off.request() == Request::SetEnablePin { high: false }
                &&& run(off, regs, 1).0.request() == Request::Finished(Completion::Done(Reply::Unit))
                &&& run(off, regs, 1).1 == regs
            }
            &&& !m.has_enable_pin ==> {
                &&& on.request() == Request::Finished(Completion::Done(Reply::Unit))
                &&& off.request() == Request::Finished(Completion::Done(Reply::Unit))
            }
        }),
{
    let on0 = m.begin(OpKind::PowerOn, power_on_steps(m.has_enable_pin));
    let off0 = m.begin(OpKind::PowerOff, power_off_steps(m.has_enable_pin));
    if m.has_enable_pin {
        assert(!on0.passes_over());
        assert(on0.settle() == on0);
        let on1 = on0.next_step();
        assert(on0.on_event(answer(regs, on0.request())) == on1);
        assert(!on1.passes_over());
        assert(on1.settle() == on1);
        assert(serve(regs, on0.request()) == regs);
        assert(run(on1, regs, 0) == (on1, regs));
        let on2 = on1.next_step();
        assert(on1.on_event(answer(regs, on1.request())) == on2);
        assert(on2.settle() == on2);
        assert(serve(regs, on1.request()) == regs);
        assert(run(on2, regs, 0) == (on2, regs));
        assert(run(on1, regs, 1) == (on2, regs));
        assert(!off0.passes_over());
        assert(off0.settle() == off0);
        let off1 = off0.next_step();
        assert(off0.on_event(answer(regs, off0.request())) == off1);
        assert(off1.settle() == off1);
        assert(serve(regs, off0.request()) == regs);
        assert(run(off1, regs, 0) == (off1, regs));
    } else {
        assert(on0.settle() == on0);
        assert(off0.settle() == off0);
    }
}

} // verus!
