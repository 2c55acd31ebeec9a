//! A verified interpreter core for the CHIP-8 virtual machine.
//!
//! The crate models the classic 35-opcode machine: 4096 bytes of memory,
//! sixteen 8-bit registers, a bounded call stack, a 64x32 one-bit
//! framebuffer with XOR sprite drawing, a 16-key input latch, and two
//! 8-bit timers that decay at a fixed 60 Hz rate independent of the
//! instruction cadence.
//!
//! Every instruction's effect is stated once, as a mathematical transition
//! function over an abstract machine state, and the executable interpreter
//! is proved to follow it exactly.

pub mod state;
pub mod insn;
pub mod frame;
pub mod sem;
pub mod chip8;
pub mod laws;
