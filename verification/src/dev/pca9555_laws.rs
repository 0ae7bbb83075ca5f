//! What holds of the expander's driver whatever the transport does: how many
//! exchanges an operation takes, what a change of direction leaves in the
//! configuration registers, and that the shadow value keeps up with the
//! output registers.

use crate::bus::{merged, ran, verdict, Request, Transfer};
use crate::common::Direction;
use crate::dev::pca9555::{
    config_clear, config_set, direction_plan, high_byte, input_plan, joined, lines, low_byte,
    output_plan, touches_bank0, touches_bank1, Regs, ADDRESS,
};
use vstd::prelude::*;

verus! {

/// The configuration a device holds after the lines of `mask` were switched
/// to `dir`, when it held `cfg` before: each touched bank's byte went through
/// the read-modify-write, the other bank's byte stayed.
pub open spec fn configured(cfg: u16, mask: u32, dir: Direction) -> u16 {
    joined(
        if touches_bank0(mask) {
            merged(
                low_byte(cfg),
                low_byte(config_set(mask, dir)),
                low_byte(config_clear(mask, dir)),
            )
        } else {
            low_byte(cfg)
        },
        if touches_bank1(mask) {
            merged(
                high_byte(cfg),
                high_byte(config_set(mask, dir)),
                high_byte(config_clear(mask, dir)),
            )
        } else {
            high_byte(cfg)
        },
    )
}

/// A mask of one line touches the bank of that line and not the other.
pub proof fn single_line_touches_one_bank(line: u32)
    requires
        line < 16,
    ensures
        touches_bank0(1u32 << line) == (line < 8),
        touches_bank1(1u32 << line) == (line >= 8),
{
    assert(((1u32 << line) & 0x00FF != 0) == (line < 8)) by (bit_vector)
        requires
            line < 16,
    ;
    assert(((1u32 << line) & 0xFF00 != 0) == (line >= 8)) by (bit_vector)
        requires
            line < 16,
    ;
}

/// Bringing the outputs up to date for a single line takes exactly one
/// exchange, whether it succeeds or not: a write of the line's bank to the
/// output register of that bank. The other bank is not written.
pub proof fn single_line_writes_once<E>(
    pre: Seq<Transfer<E>>,
    post: Seq<Transfer<E>>,
    out: u16,
    line: u32,
)
    requires
        line < 16,
        ran(pre, post, output_plan(out, 1u32 << line)),
    ensures
        post.len() == pre.len() + 1,
        post.last().request() == if line < 8 {
            Request::Write { addr: ADDRESS, reg: Regs::OutputPort0.address(), value: low_byte(out) }
        } else {
            Request::Write { addr: ADDRESS, reg: Regs::OutputPort1.address(), value: high_byte(out) }
        },
{
    single_line_touches_one_bank(line);
    let plan = output_plan(out, 1u32 << line);
    assert(plan.len() == 1);
    assert(post[pre.len() as int].request() == plan[0]);
}

/// Bringing the outputs up to date for a mask over both banks takes exactly
/// two exchanges, unless the first one fails: a write of bank 0's byte of the
/// shadow value to output register 0, then a write of bank 1's byte to output
/// register 1.
pub proof fn both_banks_write_twice<E>(
    pre: Seq<Transfer<E>>,
    post: Seq<Transfer<E>>,
    out: u16,
    mask: u32,
)
    requires
        touches_bank0(mask),
        touches_bank1(mask),
        ran(pre, post, output_plan(out, mask)),
        post[pre.len() as int].failure() is None,
    ensures
        post.len() == pre.len() + 2,
        post[pre.len() as int].request() == (Request::Write {
            addr: ADDRESS,
            reg: Regs::OutputPort0.address(),
            value: low_byte(out),
        }),
        post[pre.len() as int + 1].request() == (Request::Write {
            addr: ADDRESS,
            reg: Regs::OutputPort1.address(),
            value: high_byte(out),
        }),
{
    let plan = output_plan(out, mask);
    assert(plan.len() == 2);
    assert(post[pre.len() as int].request() == plan[0]);
    assert(post[pre.len() as int + 1].request() == plan[1]);
}

/// When the reads of a successful change of direction bring back the bytes
/// of `cfg`, its writes carry the bytes of `configured(cfg, mask, dir)`, and
/// a touched bank takes exactly one read and one write.
pub proof fn direction_change_writes_configuration<E>(
    pre: Seq<Transfer<E>>,
    post: Seq<Transfer<E>>,
    cfg: u16,
    mask: u32,
    dir: Direction,
)
    requires
        ran(pre, post, direction_plan(post, pre.len() as int, mask, dir)),
        verdict(pre, post) is None,
        touches_bank0(mask) ==> post[pre.len() as int].data() == low_byte(cfg),
        touches_bank1(mask) ==> post[post.len() - 2].data() == high_byte(cfg),
    ensures
        post.len() == pre.len() + (if touches_bank0(mask) {
            2int
        } else {
            0int
        }) + (if touches_bank1(mask) {
            2int
        } else {
            0int
        }),
        touches_bank0(mask) ==> post[pre.len() as int + 1].request() == (Request::Write {
            addr: ADDRESS,
            reg: Regs::Configuration0.address(),
            value: low_byte(configured(cfg, mask, dir)),
        }),
        touches_bank1(mask) ==> post[post.len() - 1].request() == (Request::Write {
            addr: ADDRESS,
            reg: Regs::Configuration1.address(),
            value: high_byte(configured(cfg, mask, dir)),
        }),
{
    let at = pre.len() as int;
    let plan = direction_plan(post, at, mask, dir);
    assert(post.len() == at + plan.len());
    assert forall|a: u8, b: u8| low_byte(joined(a, b)) == a && high_byte(joined(a, b)) == b by {
        assert((((((b as u16) << 8) | (a as u16)) & 0xFF) as u8) == a) by (bit_vector);
        assert((((((b as u16) << 8) | (a as u16)) >> 8) as u8) == b) by (bit_vector);
    }
    if touches_bank0(mask) {
        assert(post[at + 1].request() == plan[1]);
    }
    if touches_bank1(mask) {
        assert(post[post.len() - 1].request() == plan[plan.len() - 1]);
    }
}

/// Switching lines to output clears exactly their configuration bits, and
/// switching them to input sets exactly those bits. So a change to output
/// followed by a change to input over the same mask leaves every bit outside
/// the mask as it was at the start.
pub proof fn direction_round_trip(cfg: u16, mask: u32)
    ensures
        configured(cfg, mask, Direction::Output) == cfg & !lines(mask),
        configured(cfg, mask, Direction::Input) == cfg | lines(mask),
        configured(configured(cfg, mask, Direction::Output), mask, Direction::Input) & !lines(mask)
            == cfg & !lines(mask),
{
    let m = lines(mask);
    assert(mask & 0xFFFF <= 0xFFFF) by (bit_vector);
    assert((m & 0x00FF != 0) == (mask & 0x00FF != 0)) by (bit_vector)
        requires
            m == (mask & 0xFFFF) as u16,
    ;
    assert((m & 0xFF00 != 0) == (mask & 0xFF00 != 0)) by (bit_vector)
        requires
            m == (mask & 0xFFFF) as u16,
    ;
    configured_bits(cfg, m);
    configured_bits((cfg & !m) as u16, m);
    assert(((cfg & !m) | m) & !m == cfg & !m) by (bit_vector);
}

/// The two bytes of a configuration after the bits of `m` were cleared, or
/// set, bank by bank; a bank that `m` does not touch keeps its byte.
proof fn configured_bits(cfg: u16, m: u16)
    by (bit_vector)
    ensures
        ((((((cfg >> 8) as u8) & !((m >> 8) as u8)) | ((0u16 >> 8) as u8)) as u16) << 8) | ((((cfg
            & 0xFF) as u8) & !((m & 0xFF) as u8)) | ((0u16 & 0xFF) as u8)) as u16 == cfg & !m,
        ((((((cfg >> 8) as u8) & !((0u16 >> 8) as u8)) | ((m >> 8) as u8)) as u16) << 8) | ((((cfg
            & 0xFF) as u8) & !((0u16 & 0xFF) as u8)) | ((m & 0xFF) as u8)) as u16 == cfg | m,
        m & 0x00FF == 0 ==> (((cfg & 0xFF) as u8) & !((m & 0xFF) as u8)) | ((0u16 & 0xFF) as u8) == (
        cfg & 0xFF) as u8,
        m & 0x00FF == 0 ==> (((cfg & 0xFF) as u8) & !((0u16 & 0xFF) as u8)) | ((m & 0xFF) as u8) == (
        cfg & 0xFF) as u8,
        m & 0xFF00 == 0 ==> (((cfg >> 8) as u8) & !((m >> 8) as u8)) | ((0u16 >> 8) as u8) == (cfg
            >> 8) as u8,
        m & 0xFF00 == 0 ==> (((cfg >> 8) as u8) & !((0u16 >> 8) as u8)) | ((m >> 8) as u8) == (cfg
            >> 8) as u8,
{
}

/// The byte that `t` left in output register `reg` of the device, if `t` is
/// a write to that register that succeeded.
pub open spec fn written<E>(t: Transfer<E>, reg: u8) -> Option<u8> {
    match t {
        Transfer::Write { addr, reg: r, value, done: Ok(_) } => if addr == ADDRESS && r == reg {
            Some(value)
        } else {
            None
        },
        _ => None,
    }
}

/// The byte that output register `reg` holds as far as `trace` tells: the
/// value of the last successful write to it, if there was one.
pub open spec fn last_output<E>(trace: Seq<Transfer<E>>, reg: u8) -> Option<u8>
    decreases trace.len(),
{
    if trace.len() == 0 {
        None
    } else {
        match written(trace.last(), reg) {
            Some(v) => Some(v),
            None => last_output(trace.drop_last(), reg),
        }
    }
}

/// The shadow value `out` agrees with the output registers: whatever was
/// last written to either of them with success is that bank's byte of `out`.
pub open spec fn in_step<E>(trace: Seq<Transfer<E>>, out: u16) -> bool {
    &&& last_output(trace, Regs::OutputPort0.address()) matches Some(v) ==> v == low_byte(out)
    &&& last_output(trace, Regs::OutputPort1.address()) matches Some(v) ==> v == high_byte(out)
}

proof fn last_output_after_push<E>(trace: Seq<Transfer<E>>, t: Transfer<E>, reg: u8)
    ensures
        last_output(trace.push(t), reg) == match written(t, reg) {
            Some(v) => Some(v),
            None => last_output(trace, reg),
        },
{
    assert(trace.push(t).drop_last() =~= trace);
    assert(trace.push(t).last() == t);
}

/// Commanding lines high or low changes the shadow value only in the banks
/// that the mask touches.
pub proof fn untouched_bank_keeps_its_byte(out: u16, mask: u32)
    ensures
        !touches_bank0(mask) ==> low_byte((out | lines(mask)) as u16) == low_byte(out) && low_byte(
            (out & !lines(mask)) as u16,
        ) == low_byte(out),
        !touches_bank1(mask) ==> high_byte((out | lines(mask)) as u16) == high_byte(out)
            && high_byte((out & !lines(mask)) as u16) == high_byte(out),
{
    let m = lines(mask);
    assert(mask & 0xFFFF <= 0xFFFF) by (bit_vector);
    assert((m & 0x00FF != 0) == (mask & 0x00FF != 0)) by (bit_vector)
        requires
            m == (mask & 0xFFFF) as u16,
    ;
    assert((m & 0xFF00 != 0) == (mask & 0xFF00 != 0)) by (bit_vector)
        requires
            m == (mask & 0xFFFF) as u16,
    ;
    assert(m & 0x00FF == 0 ==> (((out | m) & 0xFF) as u8) == ((out & 0xFF) as u8) && (((out & !m)
        & 0xFF) as u8) == ((out & 0xFF) as u8)) by (bit_vector);
    assert(m & 0xFF00 == 0 ==> (((out | m) >> 8) as u8) == ((out >> 8) as u8) && (((out & !m)
        >> 8) as u8) == ((out >> 8) as u8)) by (bit_vector);
}

/// The shadow value keeps up with the device: when it agreed with the output
/// registers before lines were commanded high or low, and every write of the
/// operation succeeded, it agrees with them afterwards. After a failed write
/// nothing of the kind is known.
pub proof fn outputs_stay_in_step<E>(
    pre: Seq<Transfer<E>>,
    post: Seq<Transfer<E>>,
    before: u16,
    after: u16,
    mask: u32,
)
    requires
        in_step(pre, before),
        after == before | lines(mask) || after == before & !lines(mask),
        ran(pre, post, output_plan(after, mask)),
        verdict(pre, post) is None,
    ensures
        in_step(post, after),
{
    untouched_bank_keeps_its_byte(before, mask);
    let at = pre.len() as int;
    let plan = output_plan(after, mask);
    let r0 = Regs::OutputPort0.address();
    let r1 = Regs::OutputPort1.address();
    assert(post.len() == at + plan.len());
    if plan.len() == 0 {
        assert(post =~= pre);
    } else if plan.len() == 1 {
        let t = post[at];
        assert(t.request() == plan[0]);
        assert(post =~= pre.push(t));
        last_output_after_push(pre, t, r0);
        last_output_after_push(pre, t, r1);
    } else {
        let t = post[at];
        let u = post[at + 1];
        assert(t.request() == plan[0]);
        assert(u.request() == plan[1]);
        assert(post =~= pre.push(t).push(u));
        last_output_after_push(pre, t, r0);
        last_output_after_push(pre, t, r1);
        last_output_after_push(pre.push(t), u, r0);
        last_output_after_push(pre.push(t), u, r1);
    }
}

/// Exchanges that write nothing to output register `reg` leave it as it was.
pub proof fn other_exchanges_keep_output<E>(pre: Seq<Transfer<E>>, post: Seq<Transfer<E>>, reg: u8)
    requires
        pre.len() <= post.len(),
        post.subrange(0, pre.len() as int) == pre,
        forall|j: int| pre.len() <= j < post.len() ==> written(#[trigger] post[j], reg) is None,
    ensures
        last_output(post, reg) == last_output(pre, reg),
    decreases post.len() - pre.len(),
{
    if post.len() == pre.len() {
        assert(post =~= pre);
    } else {
        let shorter = post.drop_last();
        assert(shorter.subrange(0, pre.len() as int) =~= pre);
        assert forall|j: int| pre.len() <= j < shorter.len() implies written(
            #[trigger] shorter[j],
            reg,
        ) is None by {
            assert(shorter[j] == post[j]);
        }
        other_exchanges_keep_output(pre, shorter, reg);
        assert(written(post[post.len() - 1], reg) is None);
    }
}

/// Reading the input levels and switching directions write to no output
/// register: a shadow value that agreed with the output registers before
/// still agrees with them afterwards, whether the operation succeeded or not.
pub proof fn queries_and_directions_keep_step<E>(
    pre: Seq<Transfer<E>>,
    post: Seq<Transfer<E>>,
    out: u16,
    mask: u32,
    dir: Direction,
)
    requires
        in_step(pre, out),
        ran(pre, post, input_plan(mask)) || ran(
            pre,
            post,
            direction_plan(post, pre.len() as int, mask, dir),
        ),
    ensures
        in_step(post, out),
{
    let at = pre.len() as int;
    let r0 = Regs::OutputPort0.address();
    let r1 = Regs::OutputPort1.address();
    let plan = if ran(pre, post, input_plan(mask)) {
        input_plan(mask)
    } else {
        direction_plan(post, at, mask, dir)
    };
    assert forall|k: int| 0 <= k < plan.len() implies !(#[trigger] plan[k] matches Request::Write {
        reg,
        ..
    } && (reg == r0 || reg == r1)) by {
        if k == 0 {
        } else if k == 1 {
        } else if k == 2 {
        } else {
        }
    }
    assert forall|j: int| at <= j < post.len() implies written(#[trigger] post[j], r0) is None
        && written(post[j], r1) is None by {
        assert(post[j].request() == plan[j - at]);
    }
    other_exchanges_keep_output(pre, post, r0);
    other_exchanges_keep_output(pre, post, r1);
}

} // verus!
