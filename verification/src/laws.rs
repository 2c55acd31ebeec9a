//! General laws of the machine, proved once over the mathematical
//! semantics. Each holds for every well-formed state, not just for the
//! concrete values the tests exercise.

use vstd::prelude::*;
use crate::state::{State, state_wf};
use crate::insn::{Instr, spec_decode};
use crate::sem::{spec_execute, spec_step, spec_advance_timers, dec_sat_by, pc_plus};
use crate::frame::{spec_draw_fb, spec_draw_collision, flips};

verus! {

/// Setting a register: after `6xnn`, register Vx holds exactly nn and
/// every other register is untouched.
pub proof fn lemma_set_reg(s: State, x: u8, nn: u8, word: u16)
    requires
        state_wf(s),
        x < 16,
    ensures
        spec_execute(s, Instr::SetImm(x, nn), word) matches Ok(t) && t.regs[x as int] == nn
            && (forall|r: int| 0 <= r < 16 && r != x ==> t.regs[r] == s.regs[r]),
{
}

/// The same law across a whole step: when the machine is running and the
/// big-endian word at the program counter encodes `6xnn`, the step
/// succeeds and Vx reads back exactly nn afterwards.
pub proof fn lemma_step_set_reg(s: State, x: u8, nn: u8)
    requires
        state_wf(s),
        s.waiting is None,
        x < 16,
        s.pc + 1 < 4096,
        s.mem[s.pc as int] == 0x60 + x,
        s.mem[s.pc as int + 1] == nn,
    ensures
        spec_step(s) matches Ok(t) && t.regs[x as int] == nn,
{
    let word = ((s.mem[s.pc as int] * 256 + s.mem[s.pc as int + 1]) as u16);
    assert(word == (0x60 + x) * 256 + nn);
    assert(spec_decode(word) == Instr::SetImm(x, nn));
}

/// Register addition: `8xy4` stores the 8-bit wrapped sum in Vx and sets
/// VF to 1 exactly when the unwrapped sum exceeds 255, else to 0. Stated
/// for x other than 15, since there Vx is the flag itself and holds the
/// carry, not the sum.
pub proof fn lemma_add_carry(s: State, x: u8, y: u8, word: u16)
    requires
        state_wf(s),
        x < 15,
        y < 16,
    ensures
        spec_execute(s, Instr::AddReg(x, y), word) matches Ok(t)
            && t.regs[x as int] == (s.regs[x as int] + s.regs[y as int]) % 256
            && t.regs[15] == (if s.regs[x as int] + s.regs[y as int] > 255 { 1u8 } else { 0u8 }),
{
}

/// Register subtraction: `8xy5` stores Vx - Vy modulo 256 in Vx and sets
/// VF to 1 exactly when Vx >= Vy (no borrow), else to 0. Stated for x
/// other than 15, since there Vx is the flag itself.
pub proof fn lemma_sub_borrow(s: State, x: u8, y: u8, word: u16)
    requires
        state_wf(s),
        x < 15,
        y < 16,
    ensures
        spec_execute(s, Instr::SubReg(x, y), word) matches Ok(t)
            && t.regs[x as int] == (s.regs[x as int] - s.regs[y as int]) % 256
            && t.regs[15] == (if s.regs[x as int] >= s.regs[y as int] { 1u8 } else { 0u8 }),
{
}

/// Round trip: `Fx55` storing V0..Vx at memory[I..], followed by `Fx65`
/// loading the same range from the same I, restores the register file
/// exactly.
pub proof fn lemma_store_load_round_trip(s: State, x: u8, w1: u16, w2: u16)
    requires
        state_wf(s),
        x < 16,
        s.index + x + 1 <= 4096,
    ensures
        spec_execute(s, Instr::StoreRegs(x), w1) matches Ok(t) && (spec_execute(
            t,
            Instr::LoadRegs(x),
            w2,
        ) matches Ok(u) && u.regs == s.regs),
{
    let t = spec_execute(s, Instr::StoreRegs(x), w1)->Ok_0;
    let u = spec_execute(t, Instr::LoadRegs(x), w2)->Ok_0;
    assert(u.regs =~= s.regs);
}

/// Clearing the screen is idempotent: after `00E0` every pixel is unlit,
/// and a second `00E0` leaves the framebuffer exactly as the first did.
pub proof fn lemma_clear_idempotent(s: State, w1: u16, w2: u16)
    requires
        state_wf(s),
    ensures
        spec_execute(s, Instr::Cls, w1) matches Ok(t) && (forall|j: int| 0 <= j < 2048 ==> !t.fb[j])
            && (spec_execute(t, Instr::Cls, w2) matches Ok(u) && u.fb == t.fb),
{
}

/// XOR drawing is self-inverse: drawing the same sprite at the same
/// location twice, with nothing drawn in between, restores the original
/// framebuffer exactly. The second draw reports a collision precisely
/// when some covered pixel was unlit before the first draw (those are
/// the pixels the first draw lit and the second unsets); so VF stays 0
/// on the second draw exactly when the first draw had unset every
/// covered pixel.
pub proof fn lemma_draw_twice(fb: Seq<bool>, rows: Seq<u8>, x0: int, y0: int)
    requires
        fb.len() == 2048,
        0 <= x0 < 64,
        0 <= y0 < 32,
    ensures
        spec_draw_fb(spec_draw_fb(fb, rows, x0, y0), rows, x0, y0) == fb,
        spec_draw_collision(spec_draw_fb(fb, rows, x0, y0), rows, x0, y0) <==> (exists|j: int|
            0 <= j < 2048 && !fb[j] && flips(rows, x0, y0, j)),
{
    let fb1 = spec_draw_fb(fb, rows, x0, y0);
    assert(spec_draw_fb(fb1, rows, x0, y0) =~= fb);
    if spec_draw_collision(fb1, rows, x0, y0) {
        let j = choose|j: int| 0 <= j < fb1.len() && fb1[j] && flips(rows, x0, y0, j);
        assert(!fb[j] && flips(rows, x0, y0, j));
    }
    if exists|j: int| 0 <= j < 2048 && !fb[j] && flips(rows, x0, y0, j) {
        let j = choose|j: int| 0 <= j < 2048 && !fb[j] && flips(rows, x0, y0, j);
        assert(0 <= j < fb1.len() && fb1[j] && flips(rows, x0, y0, j));
    }
}

/// Timer decay is exact: starting from an empty accumulator, feeding
/// `elapsed_us` microseconds decrements each counter once per whole
/// 60 Hz tick crossed (one tick per 16666.67 microseconds), saturating
/// at zero, never wrapping below it.
pub proof fn lemma_timer_decay(s: State, elapsed_us: u64)
    requires
        state_wf(s),
        s.timer_acc == 0,
        elapsed_us <= 300000000000000000,
    ensures
        spec_advance_timers(s, elapsed_us).delay == dec_sat_by(
            s.delay,
            elapsed_us * 60 / 1000000,
        ),
        spec_advance_timers(s, elapsed_us).sound == dec_sat_by(
            s.sound,
            elapsed_us * 60 / 1000000,
        ),
        s.delay * 1000000 <= elapsed_us * 60 ==> spec_advance_timers(s, elapsed_us).delay == 0,
{
}

/// Well-formedness is an invariant of the machine: a well-formed state
/// steps to a well-formed state, whichever instruction it executes, and
/// a failing step leaves no state at all.
pub proof fn lemma_step_preserves_wf(s: State)
    requires
        state_wf(s),
    ensures
        match spec_step(s) {
            Ok(t) => state_wf(t),
            Err(_) => true,
        },
{
}

/// A call and the matching return restore the flow of control: after
/// `2nnn` and then `00EE`, the program counter sits immediately past the
/// call instruction and the stack holds exactly what it held before the
/// call.
pub proof fn lemma_call_ret(s: State, nnn: u16, w1: u16, w2: u16)
    requires
        state_wf(s),
        s.stack.len() < 16,
    ensures
        spec_execute(s, Instr::Call(nnn), w1) matches Ok(t) && t.pc == nnn && (spec_execute(
            t,
            Instr::Ret,
            w2,
        ) matches Ok(u) && u.pc == pc_plus(s.pc, 2) && u.stack == s.stack),
{
    let t = spec_execute(s, Instr::Call(nnn), w1)->Ok_0;
    let u = spec_execute(t, Instr::Ret, w2)->Ok_0;
    assert(u.stack =~= s.stack);
}

} // verus!
