//! Tagged error values. Every failure the library can report is one of
//! these; nothing is retried internally and no verified function panics.
use vstd::prelude::*;

verus! {

/// A decode failure: the byte source ran out before an opcode and its
/// operands were fully consumed, the first byte names no opcode, or a
/// 0x10 prefix is followed by an unrecognized continuation byte.
#[derive(PartialEq, Eq, Structural, Clone, Copy, Debug)]
pub enum DecodeError {
    /// The byte source was exhausted mid-opcode or mid-operand.
    EndOfInput,
    /// The first byte is not a recognized opcode.
    UnknownOpcode(u8),
    /// The byte after a 0x10 prefix is not a recognized continuation.
    InvalidExtension(u8),
}

/// An illegal access into the memory address space: any write into a ROM
/// range, or any access into the cartridge-RAM or unusable ranges.
#[derive(PartialEq, Eq, Structural, Clone, Copy, Debug)]
pub enum MemoryAccessError {
    /// A read from an unmapped region, at the given address.
    IllegalRead(u16),
    /// A write to a read-only or unmapped region, at the given address.
    IllegalWrite(u16),
}

/// A 16-bit counter left its range: the program counter would wrap past
/// 0xFFFF during a fetch, a 16-bit memory access would run past 0xFFFF,
/// or the stack pointer would leave 0x0000..=0xFFFF.
#[derive(PartialEq, Eq, Structural, Clone, Copy, Debug)]
pub enum ArithmeticBoundaryError {
    /// The program counter would wrap past 0xFFFF while fetching.
    PcOverflow,
    /// The second byte of a 16-bit access would sit past 0xFFFF.
    AddressOverflow,
    /// A push would take the stack pointer below 0x0000.
    StackOverflow,
    /// A pop would take the stack pointer past 0xFFFF.
    StackUnderflow,
}

/// A malformed cartridge image, rejected at load time.
#[derive(PartialEq, Eq, Structural, Clone, Copy, Debug)]
pub enum LoadError {
    /// The image is smaller than one 16KB ROM bank.
    TooSmall,
    /// The cartridge-type byte names a bank controller that is not
    /// supported; the value is carried along.
    UnsupportedCartridgeType(u8),
    /// The declared ROM-size code is not the 32KB two-bank code; the
    /// value is carried along.
    UnsupportedRomSize(u8),
    /// The declared ROM size does not match the image length.
    RomSizeMismatch,
}

/// The failure of one `step`: a decode error, an illegal memory access,
/// or a counter leaving its range.
#[derive(PartialEq, Eq, Structural, Clone, Copy, Debug)]
pub enum StepError {
    Decode(DecodeError),
    Memory(MemoryAccessError),
    Boundary(ArithmeticBoundaryError),
}

} // verus!
