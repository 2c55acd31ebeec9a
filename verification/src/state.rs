//! The abstract machine state and the interpreter's error conditions.

use vstd::prelude::*;

verus! {

/// Bytes of addressable memory.
pub const MEM_SIZE: usize = 4096;

/// Address at which program images are loaded; everything below is
/// reserved for the interpreter (the font area lives there).
pub const LOAD_ADDR: usize = 512;

/// First address of the built-in hexadecimal font sprites.
pub const FONT_ADDR: usize = 80;

/// Number of general-purpose registers (V0 through VF).
pub const NUM_REGS: usize = 16;

/// Maximum call-stack depth; a deeper call is a stack overflow.
pub const STACK_LIMIT: usize = 16;

/// Number of keys on the hexadecimal keypad.
pub const NUM_KEYS: usize = 16;

/// Framebuffer width in pixels.
pub const FB_WIDTH: usize = 64;

/// Framebuffer height in pixels.
pub const FB_HEIGHT: usize = 32;

/// Total framebuffer pixels.
pub const FB_SIZE: usize = 2048;

/// Failure conditions the interpreter surfaces to its host. Each is a
/// distinct, inspectable value; none is silently swallowed.
#[derive(Clone, Copy, Debug, PartialEq, Eq, Structural)]
pub enum Chip8Error {
    /// A program image does not fit between the load address and the end
    /// of memory.
    ImageTooLarge,
    /// A subroutine call was attempted with the call stack already at its
    /// depth limit.
    StackOverflow,
    /// A subroutine return was attempted with the call stack empty.
    StackUnderflow,
    /// An instruction fetch or a data access left addressable memory;
    /// carries the offending base address.
    OutOfBoundsFetch(u16),
    /// An instruction word matching no opcode pattern; carries the raw
    /// word and the address it was fetched from.
    UnrecognizedInstruction { word: u16, addr: u16 },
}

/// Mathematical model of the whole machine. Contracts of the executable
/// interpreter are stated over this view.
#[verifier::ext_equal]
pub struct State {
    /// The 4096 memory bytes.
    pub mem: Seq<u8>,
    /// Address of the next instruction to fetch.
    pub pc: u16,
    /// Return addresses of the calls in flight, oldest first.
    pub stack: Seq<u16>,
    /// The sixteen general-purpose registers; index 15 is the VF flag.
    pub regs: Seq<u8>,
    /// The 16-bit index register I.
    pub index: u16,
    /// Delay timer counter.
    pub delay: u8,
    /// Sound timer counter.
    pub sound: u8,
    /// The 64x32 framebuffer, row-major: pixel (x, y) is entry y * 64 + x.
    pub fb: Seq<bool>,
    /// Pressed state of the sixteen keys.
    pub keys: Seq<bool>,
    /// When the machine is suspended by a wait-for-key instruction, the
    /// register that the next pressed key's index must be stored into.
    pub waiting: Option<u8>,
    /// Fixed-step timer accumulator, in units of one millionth of a
    /// 60 Hz tick (elapsed microseconds times 60, remainder kept).
    pub timer_acc: u64,
    /// State of the pseudo-random byte generator.
    pub rng: u64,
}

/// Well-formedness of a machine state: every component has its fixed
/// size, the stack respects its depth bound, a pending key wait names a
/// real register, and the timer accumulator holds less than one tick.
pub open spec fn state_wf(s: State) -> bool {
    &&& s.mem.len() == MEM_SIZE
    &&& s.regs.len() == NUM_REGS
    &&& s.stack.len() <= STACK_LIMIT
    &&& s.fb.len() == FB_SIZE
    &&& s.keys.len() == NUM_KEYS
    &&& match s.waiting {
        Some(x) => x < 16,
        None => true,
    }
    &&& s.timer_acc < 1000000
}

} // verus!
