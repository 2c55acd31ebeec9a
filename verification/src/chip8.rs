//! The executable interpreter engine.
//!
//! [`Chip8`] owns the whole machine: memory, register file, call stack,
//! framebuffer, input latch and timers. Its view is the abstract
//! [`State`], and every public operation is proved to follow the
//! corresponding transition function of [`crate::sem`] exactly.

use vstd::prelude::*;
use crate::state::{
    State, Chip8Error, state_wf, MEM_SIZE, LOAD_ADDR, FONT_ADDR, NUM_REGS, STACK_LIMIT, NUM_KEYS,
};
use crate::insn::{Instr, spec_decode, decode};
use crate::frame::Framebuffer;
use crate::sem::{
    spec_execute, spec_step, spec_tick, spec_advance_timers, spec_set_key, spec_load, spec_new,
    spec_font, overlay_bytes, regs_from_mem, RNG_SEED,
};

verus! {

/// Largest elapsed time, in microseconds, that one call of
/// [`Chip8::advance_timers`] accepts; beyond it the fixed-step
/// accumulator could overflow. It is just short of ten thousand years.
pub const MAX_ELAPSED_US: u64 = 300000000000000000;

/// The byte at offset `t` of the built-in font.
fn font_byte(t: usize) -> (b: u8)
    requires
        t < 80,
    ensures
        b == spec_font(t as int),
{
    let glyph = t / 5;
    let row = t % 5;
    if glyph == 0x0 {
        if row == 0 { 0xF0 } else if row == 1 { 0x90 } else if row == 2 { 0x90 }
        else if row == 3 { 0x90 } else { 0xF0 }
    } else if glyph == 0x1 {
        if row == 0 { 0x20 } else if row == 1 { 0x60 } else if row == 2 { 0x20 }
        else if row == 3 { 0x20 } else { 0x70 }
    } else if glyph == 0x2 {
        if row == 0 { 0xF0 } else if row == 1 { 0x10 } else if row == 2 { 0xF0 }
        else if row == 3 { 0x80 } else { 0xF0 }
    } else if glyph == 0x3 {
        if row == 0 { 0xF0 } else if row == 1 { 0x10 } else if row == 2 { 0xF0 }
        else if row == 3 { 0x10 } else { 0xF0 }
    } else if glyph == 0x4 {
        if row == 0 { 0x90 } else if row == 1 { 0x90 } else if row == 2 { 0xF0 }
        else if row == 3 { 0x10 } else { 0x10 }
    } else if glyph == 0x5 {
        if row == 0 { 0xF0 } else if row == 1 { 0x80 } else if row == 2 { 0xF0 }
        else if row == 3 { 0x10 } else { 0xF0 }
    } else if glyph == 0x6 {
        if row == 0 { 0xF0 } else if row == 1 { 0x80 } else if row == 2 { 0xF0 }
        else if row == 3 { 0x90 } else { 0xF0 }
    } else if glyph == 0x7 {
        if row == 0 { 0xF0 } else if row == 1 { 0x10 } else if row == 2 { 0x20 }
        else if row == 3 { 0x40 } else { 0x40 }
    } else if glyph == 0x8 {
        if row == 0 { 0xF0 } else if row == 1 { 0x90 } else if row == 2 { 0xF0 }
        else if row == 3 { 0x90 } else { 0xF0 }
    } else if glyph == 0x9 {
        if row == 0 { 0xF0 } else if row == 1 { 0x90 } else if row == 2 { 0xF0 }
        else if row == 3 { 0x10 } else { 0xF0 }
    } else if glyph == 0xA {
        if row == 0 { 0xF0 } else if row == 1 { 0x90 } else if row == 2 { 0xF0 }
        else if row == 3 { 0x90 } else { 0x90 }
    } else if glyph == 0xB {
        if row == 0 { 0xE0 } else if row == 1 { 0x90 } else if row == 2 { 0xE0 }
        else if row == 3 { 0x90 } else { 0xE0 }
    } else if glyph == 0xC {
        if row == 0 { 0xF0 } else if row == 1 { 0x80 } else if row == 2 { 0x80 }
        else if row == 3 { 0x80 } else { 0xF0 }
    } else if glyph == 0xD {
        if row == 0 { 0xE0 } else if row == 1 { 0x90 } else if row == 2 { 0x90 }
        else if row == 3 { 0x90 } else { 0xE0 }
    } else if glyph == 0xE {
        if row == 0 { 0xF0 } else if row == 1 { 0x80 } else if row == 2 { 0xF0 }
        else if row == 3 { 0x80 } else { 0xF0 }
    } else {
        if row == 0 { 0xF0 } else if row == 1 { 0x80 } else if row == 2 { 0xF0 }
        else if row == 3 { 0x80 } else { 0x80 }
    }
}

/// The interpreter: the whole machine as one explicitly owned value, so
/// several instances can run side by side and tests are deterministic.
pub struct Chip8 {
    memory: Vec<u8>,
    program_counter: u16,
    stack: Vec<u16>,
    v_registers: Vec<u8>,
    i_register: u16,
    delay_timer: u8,
    sound_timer: u8,
    fb: Framebuffer,
    keys: Vec<bool>,
    waiting_for_key: Option<u8>,
    timer_acc: u64,
    rng_state: u64,
}

impl View for Chip8 {
    type V = State;

    closed spec fn view(&self) -> State {
        State {
            mem: self.memory@,
            pc: self.program_counter,
            stack: self.stack@,
            regs: self.v_registers@,
            index: self.i_register,
            delay: self.delay_timer,
            sound: self.sound_timer,
            fb: self.fb@,
            keys: self.keys@,
            waiting: self.waiting_for_key,
            timer_acc: self.timer_acc,
            rng: self.rng_state,
        }
    }
}

impl Chip8 {
    /// The machine is well formed: its view satisfies [`state_wf`].
    pub open spec fn wf(&self) -> bool {
        state_wf(self@)
    }

    /// A fresh machine, as [`spec_new`] describes it: cleared memory with
    /// the font installed, zeroed registers and timers, empty stack,
    /// unlit framebuffer, no key pressed, and the program counter at the
    /// load address.
    pub fn new() -> (c: Chip8)
        ensures
            c.wf(),
            c@ == spec_new(),
    {
        let mut memory: Vec<u8> = Vec::new();
        let mut a: usize = 0;
        while a < MEM_SIZE
            invariant
                a <= MEM_SIZE,
                memory@.len() == a,
                forall|t: int| 0 <= t < a ==> memory@[t] == 0u8,
            decreases MEM_SIZE - a,
        {
            memory.push(0);
            a += 1;
        }
        let mut t: usize = 0;
        while t < 80
            invariant
                t <= 80,
                memory@.len() == MEM_SIZE,
                forall|u: int|
                    0 <= u < MEM_SIZE ==> memory@[u] == (if FONT_ADDR <= u < FONT_ADDR + t {
                        spec_font(u - FONT_ADDR)
                    } else {
                        0u8
                    }),
            decreases 80 - t,
        {
            memory.set(FONT_ADDR + t, font_byte(t));
            t += 1;
        }
        let mut v_registers: Vec<u8> = Vec::new();
        let mut r: usize = 0;
        while r < NUM_REGS
            invariant
                r <= NUM_REGS,
                v_registers@.len() == r,
                forall|u: int| 0 <= u < r ==> v_registers@[u] == 0u8,
            decreases NUM_REGS - r,
        {
            v_registers.push(0);
            r += 1;
        }
        let mut keys: Vec<bool> = Vec::new();
        let mut k: usize = 0;
        while k < NUM_KEYS
            invariant
                k <= NUM_KEYS,
                keys@.len() == k,
                forall|u: int| 0 <= u < k ==> !keys@[u],
            decreases NUM_KEYS - k,
        {
            keys.push(false);
            k += 1;
        }
        let c = Chip8 {
            memory,
            program_counter: 512,
            stack: Vec::new(),
            v_registers,
            i_register: 0,
            delay_timer: 0,
            sound_timer: 0,
            fb: Framebuffer::new(),
            keys,
            waiting_for_key: None,
            timer_acc: 0,
            rng_state: RNG_SEED,
        };
        proof {
            assert(c@.mem =~= spec_new().mem);
            assert(c@.stack =~= spec_new().stack);
            assert(c@.regs =~= spec_new().regs);
            assert(c@.keys =~= spec_new().keys);
            assert(c@ =~= spec_new());
        }
        c
    }

    /// Load a program image at the load address and point the program
    /// counter at it. An image that would run past the end of memory is
    /// rejected with [`Chip8Error::ImageTooLarge`] and nothing changes.
    pub fn load(&mut self, bytes: &Vec<u8>) -> (r: Result<(), Chip8Error>)
        requires
            old(self).wf(),
        ensures
            final(self).wf(),
            match r {
                Ok(()) => spec_load(old(self)@, bytes@) == Ok::<State, Chip8Error>(final(self)@),
                Err(e) => spec_load(old(self)@, bytes@) == Err::<State, Chip8Error>(e)
                    && final(self)@ == old(self)@,
            },
    {
        if bytes.len() > MEM_SIZE - LOAD_ADDR {
            return Err(Chip8Error::ImageTooLarge);
        }
        let ghost mem0 = self.memory@;
        let mut k: usize = 0;
        while k < bytes.len()
            invariant
                k <= bytes@.len(),
                bytes@.len() <= MEM_SIZE - LOAD_ADDR,
                self.memory@.len() == MEM_SIZE,
                mem0.len() == MEM_SIZE,
                self@ == (State { mem: self.memory@, ..old(self)@ }),
                forall|a: int|
                    0 <= a < MEM_SIZE ==> self.memory@[a] == (if LOAD_ADDR <= a < LOAD_ADDR + k {
                        bytes@[a - LOAD_ADDR]
                    } else {
                        mem0[a]
                    }),
            decreases bytes@.len() - k,
        {
            self.memory.set(LOAD_ADDR + k, bytes[k]);
            k += 1;
        }
        self.program_counter = 512;
        proof {
            assert(self.memory@ =~= overlay_bytes(mem0, bytes@, LOAD_ADDR as int,
                bytes@.len() as int));
            assert(self@ =~= (State {
                mem: overlay_bytes(old(self)@.mem, bytes@, 512, bytes@.len() as int),
                pc: 512,
                ..old(self)@
            }));
        }
        Ok(())
    }

    /// Perform exactly one fetch-decode-execute step, as [`spec_step`]
    /// describes it. While the machine is suspended waiting for a key,
    /// nothing happens. A failing step reports its error and leaves the
    /// machine exactly as it was: no partial effect is ever committed.
    pub fn step(&mut self) -> (r: Result<(), Chip8Error>)
        requires
            old(self).wf(),
        ensures
            final(self).wf(),
            match r {
                Ok(()) => spec_step(old(self)@) == Ok::<State, Chip8Error>(final(self)@),
                Err(e) => spec_step(old(self)@) == Err::<State, Chip8Error>(e)
                    && final(self)@ == old(self)@,
            },
    {
        if self.waiting_for_key.is_some() {
            return Ok(());
        }
        if self.program_counter >= 4095 {
            return Err(Chip8Error::OutOfBoundsFetch(self.program_counter));
        }
        let hi = self.memory[self.program_counter as usize];
        let lo = self.memory[self.program_counter as usize + 1];
        let word = (hi as u16) * 256 + (lo as u16);
        self.execute_opcode(word)
    }

    /// Execute one already-fetched instruction word against the machine.
    /// The program counter first advances past the word; control-transfer
    /// instructions then overwrite it. A failing instruction reports its
    /// error and leaves the machine unchanged.
    #[verifier::rlimit(100)]
    pub fn execute_opcode(&mut self, opcode: u16) -> (r: Result<(), Chip8Error>)
        requires
            old(self).wf(),
            old(self)@.pc + 2 <= 4096,
        ensures
            final(self).wf(),
            match r {
                Ok(()) => spec_execute(old(self)@, spec_decode(opcode), opcode)
                    == Ok::<State, Chip8Error>(final(self)@),
                Err(e) => spec_execute(old(self)@, spec_decode(opcode), opcode)
                    == Err::<State, Chip8Error>(e) && final(self)@ == old(self)@,
            },
    {
        let i = decode(opcode);
        let pc2 = self.program_counter + 2;
        let pc4 = self.program_counter + 4;
        match i {
            Instr::Cls => {
                self.fb.clear();
                self.program_counter = pc2;
                Ok(())
            },
            Instr::Ret => {
                if self.stack.len() == 0 {
                    return Err(Chip8Error::StackUnderflow);
                }
                let a = self.stack[self.stack.len() - 1];
                let _ = self.stack.pop();
                self.program_counter = a;
                Ok(())
            },
            Instr::Jump(nnn) => {
                self.program_counter = nnn;
                Ok(())
            },
            Instr::Call(nnn) => {
                if self.stack.len() >= STACK_LIMIT {
                    return Err(Chip8Error::StackOverflow);
                }
                self.stack.push(pc2);
                self.program_counter = nnn;
                Ok(())
            },
            Instr::SkipEqImm(x, nn) => {
                self.program_counter = if self.v_registers[x as usize] == nn { pc4 } else { pc2 };
                Ok(())
            },
            Instr::SkipNeImm(x, nn) => {
                self.program_counter = if self.v_registers[x as usize] != nn { pc4 } else { pc2 };
                Ok(())
            },
            Instr::SkipEqReg(x, y) => {
                let a = self.v_registers[x as usize];
                let b = self.v_registers[y as usize];
                self.program_counter = if a == b { pc4 } else { pc2 };
                Ok(())
            },
            Instr::SetImm(x, nn) => {
                self.v_registers.set(x as usize, nn);
                self.program_counter = pc2;
                Ok(())
            },
            Instr::AddImm(x, nn) => {
                let a = self.v_registers[x as usize];
                let v = ((a as u16 + nn as u16) % 256) as u8;
                self.v_registers.set(x as usize, v);
                self.program_counter = pc2;
                Ok(())
            },
            Instr::MovReg(x, y) => {
                let b = self.v_registers[y as usize];
                self.v_registers.set(x as usize, b);
                self.program_counter = pc2;
                Ok(())
            },
            Instr::OrReg(x, y) => {
                let a = self.v_registers[x as usize];
                let b = self.v_registers[y as usize];
                self.v_registers.set(x as usize, a | b);
                self.program_counter = pc2;
                Ok(())
            },
            Instr::AndReg(x, y) => {
                let a = self.v_registers[x as usize];
                let b = self.v_registers[y as usize];
                self.v_registers.set(x as usize, a & b);
                self.program_counter = pc2;
                Ok(())
            },
            Instr::XorReg(x, y) => {
                let a = self.v_registers[x as usize];
                let b = self.v_registers[y as usize];
                self.v_registers.set(x as usize, a ^ b);
                self.program_counter = pc2;
                Ok(())
            },
            Instr::AddReg(x, y) => {
                let a = self.v_registers[x as usize];
                let b = self.v_registers[y as usize];
                let sum = a as u16 + b as u16;
                self.v_registers.set(x as usize, (sum % 256) as u8);
                self.v_registers.set(15, if sum > 255 { 1 } else { 0 });
                self.program_counter = pc2;
                Ok(())
            },
            Instr::SubReg(x, y) => {
                let a = self.v_registers[x as usize];
                let b = self.v_registers[y as usize];
                let v = if a >= b { a - b } else { ((a as u16 + 256) - b as u16) as u8 };
                self.v_registers.set(x as usize, v);
                self.v_registers.set(15, if a >= b { 1 } else { 0 });
                self.program_counter = pc2;
                Ok(())
            },
            Instr::ShrReg(x, _y) => {
                let a = self.v_registers[x as usize];
                self.v_registers.set(x as usize, a / 2);
                self.v_registers.set(15, a % 2);
                self.program_counter = pc2;
                Ok(())
            },
            Instr::SubnReg(x, y) => {
                let a = self.v_registers[x as usize];
                let b = self.v_registers[y as usize];
                let v = if b >= a { b - a } else { ((b as u16 + 256) - a as u16) as u8 };
                self.v_registers.set(x as usize, v);
                self.v_registers.set(15, if b >= a { 1 } else { 0 });
                self.program_counter = pc2;
                Ok(())
            },
            Instr::ShlReg(x, _y) => {
                let a = self.v_registers[x as usize];
                self.v_registers.set(x as usize, ((a as u16 * 2) % 256) as u8);
                self.v_registers.set(15, a / 128);
                self.program_counter = pc2;
                Ok(())
            },
            Instr::SkipNeReg(x, y) => {
                let a = self.v_registers[x as usize];
                let b = self.v_registers[y as usize];
                self.program_counter = if a != b { pc4 } else { pc2 };
                Ok(())
            },
            Instr::SetIndex(nnn) => {
                self.i_register = nnn;
                self.program_counter = pc2;
                Ok(())
            },
            Instr::JumpV0(nnn) => {
                self.program_counter = nnn + self.v_registers[0] as u16;
                Ok(())
            },
            Instr::Rand(x, nn) => {
                let s0 = self.rng_state;
                let a = s0 ^ (s0 << 13);
                let b = a ^ (a >> 7);
                let r2 = b ^ (b << 17);
                self.rng_state = r2;
                let byte = ((r2 / 0x100000000) % 256) as u8;
                self.v_registers.set(x as usize, byte & nn);
                self.program_counter = pc2;
                Ok(())
            },
            Instr::Draw(x, y, n) => {
                if self.i_register as usize + n as usize > MEM_SIZE {
                    return Err(Chip8Error::OutOfBoundsFetch(self.i_register));
                }
                let base = self.i_register as usize;
                let mut rows: Vec<u8> = Vec::new();
                let mut t: usize = 0;
                while t < n as usize
                    invariant
                        t <= n as usize,
                        base + n as usize <= MEM_SIZE,
                        self.memory@.len() == MEM_SIZE,
                        rows@.len() == t,
                        forall|u: int| 0 <= u < t ==> rows@[u] == self.memory@[base + u],
                    decreases n as usize - t,
                {
                    rows.push(self.memory[base + t]);
                    t += 1;
                }
                proof {
                    assert(rows@ =~= self.memory@.subrange(base as int, base as int + n as int));
                }
                let xs = self.v_registers[x as usize] % 64;
                let ys = self.v_registers[y as usize] % 32;
                let hit = self.fb.draw(xs, ys, &rows);
                self.v_registers.set(15, if hit { 1 } else { 0 });
                self.program_counter = pc2;
                Ok(())
            },
            Instr::SkipKey(x) => {
                let k = self.v_registers[x as usize] % 16;
                self.program_counter = if self.keys[k as usize] { pc4 } else { pc2 };
                Ok(())
            },
            Instr::SkipNoKey(x) => {
                let k = self.v_registers[x as usize] % 16;
                self.program_counter = if !self.keys[k as usize] { pc4 } else { pc2 };
                Ok(())
            },
            Instr::ReadDelay(x) => {
                let d = self.delay_timer;
                self.v_registers.set(x as usize, d);
                self.program_counter = pc2;
                Ok(())
            },
            Instr::WaitKey(x) => {
                self.waiting_for_key = Some(x);
                self.program_counter = pc2;
                Ok(())
            },
            Instr::SetDelay(x) => {
                self.delay_timer = self.v_registers[x as usize];
                self.program_counter = pc2;
                Ok(())
            },
            Instr::SetSound(x) => {
                self.sound_timer = self.v_registers[x as usize];
                self.program_counter = pc2;
                Ok(())
            },
            Instr::AddIndex(x) => {
                let v = self.v_registers[x as usize];
                self.i_register = ((self.i_register as u32 + v as u32) % 65536) as u16;
                self.program_counter = pc2;
                Ok(())
            },
            Instr::FontChar(x) => {
                let d = self.v_registers[x as usize] % 16;
                self.i_register = 80 + 5 * (d as u16);
                self.program_counter = pc2;
                Ok(())
            },
            Instr::StoreBcd(x) => {
                if self.i_register as usize + 3 > MEM_SIZE {
                    return Err(Chip8Error::OutOfBoundsFetch(self.i_register));
                }
                let base = self.i_register as usize;
                let v = self.v_registers[x as usize];
                self.memory.set(base, v / 100);
                self.memory.set(base + 1, (v / 10) % 10);
                self.memory.set(base + 2, v % 10);
                self.program_counter = pc2;
                Ok(())
            },
            Instr::StoreRegs(x) => {
                if self.i_register as usize + x as usize + 1 > MEM_SIZE {
                    return Err(Chip8Error::OutOfBoundsFetch(self.i_register));
                }
                let base = self.i_register as usize;
                let ghost mem0 = self.memory@;
                let mut k: usize = 0;
                while k < x as usize + 1
                    invariant
                        k <= x as usize + 1,
                        base + x as usize + 1 <= MEM_SIZE,
                        self.memory@.len() == MEM_SIZE,
                        mem0.len() == MEM_SIZE,
                        self@ == (State { mem: self.memory@, ..old(self)@ }),
                        self.v_registers@.len() == NUM_REGS,
                        x < 16,
                        forall|a: int|
                            0 <= a < MEM_SIZE ==> self.memory@[a] == (if base <= a < base + k {
                                old(self)@.regs[a - base]
                            } else {
                                mem0[a]
                            }),
                    decreases x as usize + 1 - k,
                {
                    let b = self.v_registers[k];
                    self.memory.set(base + k, b);
                    k += 1;
                }
                proof {
                    assert(self.memory@ =~= overlay_bytes(mem0, old(self)@.regs, base as int,
                        x as int + 1));
                }
                self.program_counter = pc2;
                Ok(())
            },
            Instr::LoadRegs(x) => {
                if self.i_register as usize + x as usize + 1 > MEM_SIZE {
                    return Err(Chip8Error::OutOfBoundsFetch(self.i_register));
                }
                let base = self.i_register as usize;
                let ghost regs0 = self.v_registers@;
                let mut k: usize = 0;
                while k < x as usize + 1
                    invariant
                        k <= x as usize + 1,
                        base + x as usize + 1 <= MEM_SIZE,
                        self.memory@.len() == MEM_SIZE,
                        self.v_registers@.len() == NUM_REGS,
                        regs0.len() == NUM_REGS,
                        self@ == (State { regs: self.v_registers@, ..old(self)@ }),
                        x < 16,
                        forall|u: int|
                            0 <= u < NUM_REGS ==> self.v_registers@[u] == (if 0 <= u < k {
                                old(self)@.mem[base + u]
                            } else {
                                regs0[u]
                            }),
                    decreases x as usize + 1 - k,
                {
                    let b = self.memory[base + k];
                    self.v_registers.set(k, b);
                    k += 1;
                }
                proof {
                    assert(self.v_registers@ =~= regs_from_mem(regs0, old(self)@.mem, base as int,
                        x as int + 1));
                }
                self.program_counter = pc2;
                Ok(())
            },
            Instr::Unknown(w) => Err(
                Chip8Error::UnrecognizedInstruction { word: w, addr: self.program_counter },
            ),
        }
    }

    /// Decay both timers by one 60 Hz tick, saturating at zero, as
    /// [`spec_tick`] describes. Timers decay per tick of real time,
    /// never per executed instruction.
    pub fn update_timer(&mut self)
        requires
            old(self).wf(),
        ensures
            final(self).wf(),
            final(self)@ == spec_tick(old(self)@),
    {
        if self.delay_timer > 0 {
            self.delay_timer = self.delay_timer - 1;
        }
        if self.sound_timer > 0 {
            self.sound_timer = self.sound_timer - 1;
        }
    }

    /// Feed `elapsed_us` microseconds of real time into the fixed-step
    /// accumulator and decay both timers by the 60 Hz ticks it crossed,
    /// as [`spec_advance_timers`] describes. The remainder is carried,
    /// so the decay rate never drifts however unevenly the host calls.
    pub fn advance_timers(&mut self, elapsed_us: u64)
        requires
            old(self).wf(),
            elapsed_us <= MAX_ELAPSED_US,
        ensures
            final(self).wf(),
            final(self)@ == spec_advance_timers(old(self)@, elapsed_us),
    {
        let total = self.timer_acc + elapsed_us * 60;
        let ticks = total / 1000000;
        self.timer_acc = total % 1000000;
        if self.delay_timer as u64 <= ticks {
            self.delay_timer = 0;
        } else {
            self.delay_timer = self.delay_timer - ticks as u8;
        }
        if self.sound_timer as u64 <= ticks {
            self.sound_timer = 0;
        } else {
            self.sound_timer = self.sound_timer - ticks as u8;
        }
    }

    /// Report one key's pressed state, as [`spec_set_key`] describes. A
    /// fresh key-down transition while the machine waits for a key
    /// commits the key's index to the waiting register and resumes
    /// execution.
    pub fn set_key_state(&mut self, key: u8, pressed: bool)
        requires
            old(self).wf(),
            key < 16,
        ensures
            final(self).wf(),
            final(self)@ == spec_set_key(old(self)@, key, pressed),
    {
        let was = self.keys[key as usize];
        self.keys.set(key as usize, pressed);
        if pressed && !was {
            match self.waiting_for_key {
                Some(x) => {
                    self.v_registers.set(x as usize, key);
                    self.waiting_for_key = None;
                },
                None => {},
            }
        }
    }

    /// Whether the sound backend should currently be playing a tone:
    /// true exactly while the sound timer is nonzero.
    pub fn sound_active(&self) -> (b: bool)
        ensures
            b == (self@.sound > 0),
    {
        self.sound_timer > 0
    }

    /// What one host-loop iteration asks of the audio collaborator:
    /// whether a tone is owed. Same answer as [`Chip8::sound_active`].
    pub fn emulate_timer(&self) -> (b: bool)
        ensures
            b == (self@.sound > 0),
    {
        self.sound_timer > 0
    }

    /// The value of register Vx.
    pub fn register(&self, x: u8) -> (v: u8)
        requires
            self.wf(),
            x < 16,
        ensures
            v == self@.regs[x as int],
    {
        self.v_registers[x as usize]
    }

    /// The program counter.
    pub fn pc(&self) -> (v: u16)
        ensures
            v == self@.pc,
    {
        self.program_counter
    }

    /// The index register I.
    pub fn index_reg(&self) -> (v: u16)
        ensures
            v == self@.index,
    {
        self.i_register
    }

    /// The delay timer's current value.
    pub fn delay_value(&self) -> (v: u8)
        ensures
            v == self@.delay,
    {
        self.delay_timer
    }

    /// The sound timer's current value.
    pub fn sound_value(&self) -> (v: u8)
        ensures
            v == self@.sound,
    {
        self.sound_timer
    }

    /// The byte at one memory address.
    pub fn mem_byte(&self, addr: usize) -> (b: u8)
        requires
            self.wf(),
            addr < MEM_SIZE,
        ensures
            b == self@.mem[addr as int],
    {
        self.memory[addr]
    }

    /// How many calls are in flight.
    pub fn stack_depth(&self) -> (n: usize)
        ensures
            n == self@.stack.len(),
    {
        self.stack.len()
    }

    /// Whether a key is currently latched as pressed.
    pub fn is_pressed(&self, key: u8) -> (b: bool)
        requires
            self.wf(),
            key < 16,
        ensures
            b == self@.keys[key as int],
    {
        self.keys[key as usize]
    }

    /// Whether the machine is suspended waiting for a key. While this
    /// holds, the host should keep advancing timers and reporting keys
    /// but expect [`Chip8::step`] to do nothing.
    pub fn is_waiting(&self) -> (b: bool)
        ensures
            b == (self@.waiting is Some),
    {
        self.waiting_for_key.is_some()
    }

    /// One pixel of the framebuffer.
    pub fn pixel(&self, x: usize, y: usize) -> (b: bool)
        requires
            self.wf(),
            x < 64,
            y < 32,
        ensures
            b == self@.fb[y as int * 64 + x as int],
    {
        self.fb.is_lit(x, y)
    }

    /// A read-only copy of the framebuffer, row-major: pixel (x, y) is
    /// entry y * 64 + x. Valid to take between any two steps.
    pub fn framebuffer_snapshot(&self) -> (v: Vec<bool>)
        requires
            self.wf(),
        ensures
            v@ == self@.fb,
    {
        self.fb.snapshot()
    }
}

} // verus!
