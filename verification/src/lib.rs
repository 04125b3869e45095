//! A cycle-aware interpreter for the Game Boy's 8-bit CPU core and its
//! 64KB memory-mapped address space: a decoder from bytes to tagged
//! instructions, an execution engine proved equal to a total transition
//! function over the machine model, and a strict region-dispatching
//! memory router.
//!
//! The machine is one concrete struct, [`emulator::Emulator`], passed
//! explicitly end to end; callers drive it through its contracted
//! methods rather than through an abstract machine interface, so every
//! promise made to the execution engine is itself verified.
pub mod cpu;
pub mod decoding;
pub mod emulator;
pub mod encoding;
pub mod errors;
pub mod instruction;
pub mod screen;
pub mod util;
