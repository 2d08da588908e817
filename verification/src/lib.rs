//! A CHIP-8 virtual machine: a byte-code interpreter for the classic fixed
//! instruction set, with a 4 KiB memory, sixteen 8-bit registers, a sixteen
//! entry call stack, a 64x32 monochrome framebuffer, a sixteen key keypad and
//! two 8-bit timers.
//!
//! The whole machine state is modelled by [`model::State`]; every operation of
//! [`Emu`] is specified against that model, and the semantics of each opcode
//! is given by [`model::exec_spec`].

use vstd::prelude::*;

pub mod emu;
pub mod laws;
pub mod model;

pub use emu::Emu;

verus! {

/// Width of the framebuffer in pixels.
pub const SCREEN_W: usize = 64;

/// Height of the framebuffer in pixels.
pub const SCREEN_H: usize = 32;

/// The conditions under which an operation of the machine refuses to run.
///
/// The machine never panics: situations that the raw semantics leaves open
/// (an unrecognized opcode, a call-return imbalance, a memory or key index
/// driven out of range by the program) are surfaced as fatal errors, and the
/// machine state is left exactly as it was.
#[derive(Clone, Copy, Debug, PartialEq, Eq, Structural)]
pub enum EmuError {
    /// A program image longer than the memory remaining past the load
    /// address 0x200.
    ImageTooLarge,
    /// An instruction word outside the documented opcode table; the word is
    /// carried so a host can report it.
    UnknownOpcode(u16),
    /// A call instruction executed with all sixteen stack slots in use.
    StackOverflow,
    /// A return instruction executed with an empty call stack.
    StackUnderflow,
    /// A fetch or a memory-touching opcode reaching past the end of memory.
    AddressOutOfBounds,
    /// A key-testing opcode whose register holds a value above 15.
    KeyOutOfRange,
}

} // verus!
