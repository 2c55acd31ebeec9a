//! The mathematical semantics of the machine: one transition function
//! per concern (fetch-decode-execute, timer decay, key input, program
//! loading), stated over the abstract [`State`](crate::state::State).
//!
//! The executable interpreter in [`chip8`](crate::chip8) is proved to
//! follow these functions exactly, so every property of the machine can
//! be reasoned about here, purely mathematically.

use vstd::prelude::*;
use crate::state::{State, Chip8Error};
use crate::insn::{Instr, spec_decode};
use crate::frame::{spec_draw_fb, spec_draw_collision, spec_cleared_fb};

verus! {

/// A value reduced to eight bits.
pub open spec fn wrap8(v: int) -> u8 {
    (v % 256) as u8
}

/// Eight-bit subtraction with wraparound.
pub open spec fn sub8(a: u8, b: u8) -> u8 {
    if a >= b {
        (a - b) as u8
    } else {
        (a - b + 256) as u8
    }
}

/// A counter one 60 Hz tick later: decremented once, saturating at zero.
pub open spec fn dec_sat(v: u8) -> u8 {
    if v > 0 {
        (v - 1) as u8
    } else {
        0
    }
}

/// A counter `ticks` 60 Hz ticks later, saturating at zero.
pub open spec fn dec_sat_by(v: u8, ticks: int) -> u8 {
    if v <= ticks {
        0
    } else {
        (v - ticks) as u8
    }
}

/// `base` with `cnt` bytes of `patch` written over it starting at
/// address `at`.
pub open spec fn overlay_bytes(base: Seq<u8>, patch: Seq<u8>, at: int, cnt: int) -> Seq<u8> {
    Seq::new(base.len(), |a: int| if at <= a < at + cnt {
        patch[a - at]
    } else {
        base[a]
    })
}

/// The register file after loading the first `cnt` registers from
/// memory starting at address `at`.
pub open spec fn regs_from_mem(regs: Seq<u8>, mem: Seq<u8>, at: int, cnt: int) -> Seq<u8> {
    Seq::new(regs.len(), |k: int| if k < cnt {
        mem[at + k]
    } else {
        regs[k]
    })
}

/// The next state of the pseudo-random generator (a 64-bit xorshift).
pub open spec fn rng_next(r: u64) -> u64 {
    let a = r ^ (r << 13);
    let b = a ^ (a >> 7);
    b ^ (b << 17)
}

/// The byte a generator state yields.
pub open spec fn rng_byte(r: u64) -> u8 {
    (((r / 0x100000000) % 256)) as u8
}

/// The program counter advanced past one instruction.
pub open spec fn pc_plus(pc: u16, k: int) -> u16 {
    ((pc + k) % 0x10000) as u16
}

/// The effect of one decoded instruction on the machine, starting from
/// the state in which the instruction's word was fetched at `s.pc`. The
/// program counter first advances by 2 (the default), and the
/// instruction's own effect then overrides it where it transfers
/// control. A failing instruction produces an error and no new state:
/// no effect is committed.
///
/// Behaviours that the base instruction set leaves open are fixed here,
/// as documented policy: `AddIndex` wraps the index register at 16 bits
/// and touches no flag; the data-memory instructions (`Draw`,
/// `StoreBcd`, `StoreRegs`, `LoadRegs`) fail with an out-of-bounds error
/// rather than wrap when their range would leave addressable memory; and
/// the key instructions (`SkipKey`, `SkipNoKey`) and `FontChar` read
/// their register value modulo 16.
pub open spec fn spec_execute(s: State, i: Instr, word: u16) -> Result<State, Chip8Error> {
    let pc2 = pc_plus(s.pc, 2);
    let pc4 = pc_plus(s.pc, 4);
    match i {
        Instr::Cls => Ok(State { fb: spec_cleared_fb(), pc: pc2, ..s }),
        Instr::Ret => if s.stack.len() == 0 {
            Err(Chip8Error::StackUnderflow)
        } else {
            Ok(State { pc: s.stack.last(), stack: s.stack.drop_last(), ..s })
        },
        Instr::Jump(nnn) => Ok(State { pc: nnn, ..s }),
        Instr::Call(nnn) => if s.stack.len() >= 16 {
            Err(Chip8Error::StackOverflow)
        } else {
            Ok(State { stack: s.stack.push(pc2), pc: nnn, ..s })
        },
        Instr::SkipEqImm(x, nn) => Ok(
            State { pc: if s.regs[x as int] == nn { pc4 } else { pc2 }, ..s },
        ),
        Instr::SkipNeImm(x, nn) => Ok(
            State { pc: if s.regs[x as int] != nn { pc4 } else { pc2 }, ..s },
        ),
        Instr::SkipEqReg(x, y) => Ok(
            State { pc: if s.regs[x as int] == s.regs[y as int] { pc4 } else { pc2 }, ..s },
        ),
        Instr::SetImm(x, nn) => Ok(State { regs: s.regs.update(x as int, nn), pc: pc2, ..s }),
        Instr::AddImm(x, nn) => Ok(
            State { regs: s.regs.update(x as int, wrap8(s.regs[x as int] + nn)), pc: pc2, ..s },
        ),
        Instr::MovReg(x, y) => Ok(
            State { regs: s.regs.update(x as int, s.regs[y as int]), pc: pc2, ..s },
        ),
        Instr::OrReg(x, y) => Ok(
            State {
                regs: s.regs.update(x as int, s.regs[x as int] | s.regs[y as int]),
                pc: pc2,
                ..s
            },
        ),
        Instr::AndReg(x, y) => Ok(
            State {
                regs: s.regs.update(x as int, s.regs[x as int] & s.regs[y as int]),
                pc: pc2,
                ..s
            },
        ),
        Instr::XorReg(x, y) => Ok(
            State {
                regs: s.regs.update(x as int, s.regs[x as int] ^ s.regs[y as int]),
                pc: pc2,
                ..s
            },
        ),
        Instr::AddReg(x, y) => {
            let sum = s.regs[x as int] + s.regs[y as int];
            Ok(
                State {
                    regs: s.regs.update(x as int, wrap8(sum)).update(
                        15,
                        if sum > 255 { 1u8 } else { 0u8 },
                    ),
                    pc: pc2,
                    ..s
                },
            )
        },
        Instr::SubReg(x, y) => {
            let a = s.regs[x as int];
            let b = s.regs[y as int];
            Ok(
                State {
                    regs: s.regs.update(x as int, sub8(a, b)).update(
                        15,
                        if a >= b { 1u8 } else { 0u8 },
                    ),
                    pc: pc2,
                    ..s
                },
            )
        },
        Instr::ShrReg(x, y) => {
            let a = s.regs[x as int];
            Ok(
                State {
                    regs: s.regs.update(x as int, (a as int / 2) as u8).update(
                        15,
                        (a as int % 2) as u8,
                    ),
                    pc: pc2,
                    ..s
                },
            )
        },
        Instr::SubnReg(x, y) => {
            let a = s.regs[x as int];
            let b = s.regs[y as int];
            Ok(
                State {
                    regs: s.regs.update(x as int, sub8(b, a)).update(
                        15,
                        if b >= a { 1u8 } else { 0u8 },
                    ),
                    pc: pc2,
                    ..s
                },
            )
        },
        Instr::ShlReg(x, y) => {
            let a = s.regs[x as int];
            Ok(
                State {
                    regs: s.regs.update(x as int, ((a as int * 2) % 256) as u8).update(
                        15,
                        (a as int / 128) as u8,
                    ),
                    pc: pc2,
                    ..s
                },
            )
        },
        Instr::SkipNeReg(x, y) => Ok(
            State { pc: if s.regs[x as int] != s.regs[y as int] { pc4 } else { pc2 }, ..s },
        ),
        Instr::SetIndex(nnn) => Ok(State { index: nnn, pc: pc2, ..s }),
        Instr::JumpV0(nnn) => Ok(State { pc: (nnn + s.regs[0]) as u16, ..s }),
        Instr::Rand(x, nn) => {
            let r2 = rng_next(s.rng);
            Ok(
                State { rng: r2, regs: s.regs.update(x as int, rng_byte(r2) & nn), pc: pc2, ..s },
            )
        },
        Instr::Draw(x, y, n) => if s.index + n > 4096 {
            Err(Chip8Error::OutOfBoundsFetch(s.index))
        } else {
            let rows = s.mem.subrange(s.index as int, s.index + n);
            let xs = s.regs[x as int] as int % 64;
            let ys = s.regs[y as int] as int % 32;
            let hit = spec_draw_collision(s.fb, rows, xs, ys);
            Ok(
                State {
                    fb: spec_draw_fb(s.fb, rows, xs, ys),
                    regs: s.regs.update(15, if hit { 1u8 } else { 0u8 }),
                    pc: pc2,
                    ..s
                },
            )
        },
        Instr::SkipKey(x) => {
            let k = s.regs[x as int] as int % 16;
            Ok(State { pc: if s.keys[k] { pc4 } else { pc2 }, ..s })
        },
        Instr::SkipNoKey(x) => {
            let k = s.regs[x as int] as int % 16;
            Ok(State { pc: if !s.keys[k] { pc4 } else { pc2 }, ..s })
        },
        Instr::ReadDelay(x) => Ok(State { regs: s.regs.update(x as int, s.delay), pc: pc2, ..s }),
        Instr::WaitKey(x) => Ok(State { waiting: Some(x), pc: pc2, ..s }),
        Instr::SetDelay(x) => Ok(State { delay: s.regs[x as int], pc: pc2, ..s }),
        Instr::SetSound(x) => Ok(State { sound: s.regs[x as int], pc: pc2, ..s }),
        Instr::AddIndex(x) => Ok(
            State { index: ((s.index + s.regs[x as int]) % 0x10000) as u16, pc: pc2, ..s },
        ),
        Instr::FontChar(x) => Ok(
            State { index: (80 + 5 * (s.regs[x as int] as int % 16)) as u16, pc: pc2, ..s },
        ),
        Instr::StoreBcd(x) => if s.index + 3 > 4096 {
            Err(Chip8Error::OutOfBoundsFetch(s.index))
        } else {
            let v = s.regs[x as int];
            Ok(
                State {
                    mem: s.mem.update(s.index as int, (v as int / 100) as u8).update(
                        s.index + 1,
                        ((v as int / 10) % 10) as u8,
                    ).update(s.index + 2, (v as int % 10) as u8),
                    pc: pc2,
                    ..s
                },
            )
        },
        Instr::StoreRegs(x) => if s.index + x + 1 > 4096 {
            Err(Chip8Error::OutOfBoundsFetch(s.index))
        } else {
            Ok(
                State { mem: overlay_bytes(s.mem, s.regs, s.index as int, x + 1), pc: pc2, ..s },
            )
        },
        Instr::LoadRegs(x) => if s.index + x + 1 > 4096 {
            Err(Chip8Error::OutOfBoundsFetch(s.index))
        } else {
            Ok(
                State { regs: regs_from_mem(s.regs, s.mem, s.index as int, x + 1), pc: pc2, ..s },
            )
        },
        Instr::Unknown(w) => Err(Chip8Error::UnrecognizedInstruction { word: w, addr: s.pc }),
    }
}

/// One whole interpreter step: nothing happens while the machine is
/// suspended waiting for a key; otherwise the big-endian word at `s.pc`
/// is fetched (failing when the program counter has left memory),
/// decoded, and executed.
pub open spec fn spec_step(s: State) -> Result<State, Chip8Error> {
    if s.waiting is Some {
        Ok(s)
    } else if s.pc + 1 >= 4096 {
        Err(Chip8Error::OutOfBoundsFetch(s.pc))
    } else {
        let word = ((s.mem[s.pc as int] * 256 + s.mem[s.pc as int + 1]) as u16);
        spec_execute(s, spec_decode(word), word)
    }
}

/// One 60 Hz timer tick: both counters decrement, saturating at zero.
pub open spec fn spec_tick(s: State) -> State {
    State { delay: dec_sat(s.delay), sound: dec_sat(s.sound), ..s }
}

/// Timer decay for `elapsed_us` microseconds of real time, by a
/// fixed-step accumulator: the accumulator gathers elapsed time in
/// units of one millionth of a tick (microseconds times 60), each whole
/// million is one 60 Hz tick, and the remainder is carried so that no
/// time is lost between calls.
pub open spec fn spec_advance_timers(s: State, elapsed_us: u64) -> State {
    let total = s.timer_acc + elapsed_us * 60;
    let ticks = total / 1000000;
    State {
        delay: dec_sat_by(s.delay, ticks),
        sound: dec_sat_by(s.sound, ticks),
        timer_acc: (total % 1000000) as u64,
        ..s
    }
}

/// The machine after the host reports one key's state. The key latch is
/// updated; additionally, a fresh key-down transition while the machine
/// is suspended by a wait-for-key instruction commits the key's index to
/// the waiting register and resumes execution.
pub open spec fn spec_set_key(s: State, key: u8, pressed: bool) -> State {
    let latched = State { keys: s.keys.update(key as int, pressed), ..s };
    match s.waiting {
        Some(x) => if pressed && !s.keys[key as int] {
            State { regs: s.regs.update(x as int, key), waiting: None, ..latched }
        } else {
            latched
        },
        None => latched,
    }
}

/// The machine after loading a program image: the bytes sit at the load
/// address and the program counter points at their start. An image that
/// would run past the end of memory is rejected and nothing changes.
pub open spec fn spec_load(s: State, bytes: Seq<u8>) -> Result<State, Chip8Error> {
    if bytes.len() + 512 > 4096 {
        Err(Chip8Error::ImageTooLarge)
    } else {
        Ok(State { mem: overlay_bytes(s.mem, bytes, 512, bytes.len() as int), pc: 512, ..s })
    }
}

/// The byte at offset `t` of the built-in font: sixteen hexadecimal
/// digit sprites of five rows each.
pub open spec fn spec_font(t: int) -> u8 {
    let glyph = t / 5;
    let row = t % 5;
    if glyph == 0x0 {
        if row == 0 { 0xF0 } else if row == 1 { 0x90 } else if row == 2 { 0x90 }
        else if row == 3 { 0x90 } else { 0xF0 }
    } else if glyph == 0x1 {
        if row == 0 { 0x20 } else if row == 1 { 0x60 } else if row == 2 { 0x20 }
        else if row == 3 { 0x20 } else { 0x70 }
    } else if glyph == 0x2 {
        if row == 0 { 0xF0 } else if row == 1 { 0x10 } else if row == 2 { 0xF0 }
        else if row == 3 { 0x80 } else { 0xF0 }
    } else if glyph == 0x3 {
        if row == 0 { 0xF0 } else if row == 1 { 0x10 } else if row == 2 { 0xF0 }
        else if row == 3 { 0x10 } else { 0xF0 }
    } else if glyph == 0x4 {
        if row == 0 { 0x90 } else if row == 1 { 0x90 } else if row == 2 { 0xF0 }
        else if row == 3 { 0x10 } else { 0x10 }
    } else if glyph == 0x5 {
        if row == 0 { 0xF0 } else if row == 1 { 0x80 } else if row == 2 { 0xF0 }
        else if row == 3 { 0x10 } else { 0xF0 }
    } else if glyph == 0x6 {
        if row == 0 { 0xF0 } else if row == 1 { 0x80 } else if row == 2 { 0xF0 }
        else if row == 3 { 0x90 } else { 0xF0 }
    } else if glyph == 0x7 {
        if row == 0 { 0xF0 } else if row == 1 { 0x10 } else if row == 2 { 0x20 }
        else if row == 3 { 0x40 } else { 0x40 }
    } else if glyph == 0x8 {
        if row == 0 { 0xF0 } else if row == 1 { 0x90 } else if row == 2 { 0xF0 }
        else if row == 3 { 0x90 } else { 0xF0 }
    } else if glyph == 0x9 {
        if row == 0 { 0xF0 } else if row == 1 { 0x90 } else if row == 2 { 0xF0 }
        else if row == 3 { 0x10 } else { 0xF0 }
    } else if glyph == 0xA {
        if row == 0 { 0xF0 } else if row == 1 { 0x90 } else if row == 2 { 0xF0 }
        else if row == 3 { 0x90 } else { 0x90 }
    } else if glyph == 0xB {
        if row == 0 { 0xE0 } else if row == 1 { 0x90 } else if row == 2 { 0xE0 }
        else if row == 3 { 0x90 } else { 0xE0 }
    } else if glyph == 0xC {
        if row == 0 { 0xF0 } else if row == 1 { 0x80 } else if row == 2 { 0x80 }
        else if row == 3 { 0x80 } else { 0xF0 }
    } else if glyph == 0xD {
        if row == 0 { 0xE0 } else if row == 1 { 0x90 } else if row == 2 { 0x90 }
        else if row == 3 { 0x90 } else { 0xE0 }
    } else if glyph == 0xE {
        if row == 0 { 0xF0 } else if row == 1 { 0x80 } else if row == 2 { 0xF0 }
        else if row == 3 { 0x80 } else { 0xF0 }
    } else {
        if row == 0 { 0xF0 } else if row == 1 { 0x80 } else if row == 2 { 0xF0 }
        else if row == 3 { 0x80 } else { 0x80 }
    }
}

/// The seed of the pseudo-random generator in a fresh machine.
pub const RNG_SEED: u64 = 0x139408DCBBF7A44;

/// A fresh machine: zeroed registers, stack and framebuffer, the font
/// installed in the reserved area, and the program counter at the load
/// address.
pub open spec fn spec_new() -> State {
    State {
        mem: Seq::new(4096, |a: int| if 80 <= a < 160 {
            spec_font(a - 80)
        } else {
            0u8
        }),
        pc: 512,
        stack: Seq::empty(),
        regs: Seq::new(16, |k: int| 0u8),
        index: 0,
        delay: 0,
        sound: 0,
        fb: spec_cleared_fb(),
        keys: Seq::new(16, |k: int| false),
        waiting: None,
        timer_acc: 0,
        rng: RNG_SEED,
    }
}

} // verus!
