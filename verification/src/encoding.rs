//! The instruction encoder. It covers the register-to-register load
//! family; the decoder's round trip over it is proved below.
use vstd::prelude::*;

use crate::decoding::spec_decode;
use crate::decoding::spec_decode_single;
use crate::decoding::spec_instruction_length;
use crate::decoding::spec_register_code;
use crate::errors::DecodeError;
use crate::instruction::Instruction;
use crate::instruction::Register;

verus! {

/// The one to three bytes of one encoded instruction.
pub struct InstructionBytes {
    bytes: Vec<u8>,
}

impl View for InstructionBytes {
    type V = Seq<u8>;

    closed spec fn view(&self) -> Seq<u8> {
        self.bytes@
    }
}

impl InstructionBytes {
    /// A one-byte encoding.
    pub fn one(a: u8) -> (r: InstructionBytes)
        ensures
            r@ == seq![a],
    {
        let mut bytes: Vec<u8> = Vec::new();
        bytes.push(a);
        assert(bytes@ =~= seq![a]);
        InstructionBytes { bytes }
    }

    /// A two-byte encoding.
    pub fn two(a: u8, b: u8) -> (r: InstructionBytes)
        ensures
            r@ == seq![a, b],
    {
        let mut bytes: Vec<u8> = Vec::new();
        bytes.push(a);
        bytes.push(b);
        assert(bytes@ =~= seq![a, b]);
        InstructionBytes { bytes }
    }

    /// A three-byte encoding.
    pub fn three(a: u8, b: u8, c: u8) -> (r: InstructionBytes)
        ensures
            r@ == seq![a, b, c],
    {
        let mut bytes: Vec<u8> = Vec::new();
        bytes.push(a);
        bytes.push(b);
        bytes.push(c);
        assert(bytes@ =~= seq![a, b, c]);
        InstructionBytes { bytes }
    }

    /// The encoded bytes, in order.
    pub fn as_slice(&self) -> (s: &[u8])
        ensures
            s@ == self@,
    {
        self.bytes.as_slice()
    }
}

/// The three-bit operand field that addresses register `r`.
pub open spec fn spec_register_index(r: Register) -> u8 {
    match r {
        Register::BRegister => 0,
        Register::CRegister => 1,
        Register::DRegister => 2,
        Register::ERegister => 3,
        Register::HRegister => 4,
        Register::LRegister => 5,
        Register::ARegister => 7,
    }
}

/// The bytes that encode instruction `i`, for the instructions the
/// encoder covers; empty elsewhere.
pub open spec fn spec_encode(i: Instruction) -> Seq<u8> {
    match i {
        Instruction::LD_R_R(dst, src) => seq![
            (0x40 + 8 * spec_register_index(dst) + spec_register_index(src)) as u8,
        ],
        _ => Seq::empty(),
    }
}

/// The three-bit operand field that addresses register `r`.
fn register_index(r: Register) -> (c: u8)
    ensures
        c == spec_register_index(r),
        c <= 7,
{
    match r {
        Register::BRegister => 0,
        Register::CRegister => 1,
        Register::DRegister => 2,
        Register::ERegister => 3,
        Register::HRegister => 4,
        Register::LRegister => 5,
        Register::ARegister => 7,
    }
}

/// Encode one instruction of the register-to-register load family.
pub fn encode_instruction(instruction: Instruction) -> (r: InstructionBytes)
    requires
        instruction matches Instruction::LD_R_R(_, _),
    ensures
        r@ == spec_encode(instruction),
{
    match instruction {
        Instruction::LD_R_R(dst, src) => {
            let b = 0x40 + 8 * register_index(dst) + register_index(src);
            InstructionBytes::one(b)
        },
        _ => unreached(),
    }
}

/// Law: decoding the encoding of any instruction the encoder covers
/// yields that instruction back, occupying exactly its encoded length.
pub proof fn lemma_encode_decode_round_trip(i: Instruction)
    requires
        i matches Instruction::LD_R_R(_, _),
    ensures
        spec_decode(spec_encode(i)) == Ok::<(Instruction, usize), DecodeError>((i, 1)),
        spec_encode(i).len() == 1,
        spec_instruction_length(spec_encode(i)[0]) == 1,
{
    match i {
        Instruction::LD_R_R(dst, src) => {
            let di = spec_register_index(dst);
            let si = spec_register_index(src);
            assert(di <= 7 && si != 6 && si <= 7 && di != 6);
            let b = (0x40 + 8 * di + si) as u8;
            assert(0x40 <= b && b < 0xc0 && b < 0x80 && ((b >> 3) & 7) == di && (b & 7) == si)
                by (bit_vector)
                requires
                    di <= 7,
                    si <= 7,
                    b == (0x40 + 8 * di + si) as u8,
            ;
            assert(spec_register_code(di) == Some(dst));
            assert(spec_register_code(si) == Some(src));
            assert(spec_instruction_length(b) == 1);
            assert(spec_decode_single(b) == Some(i));
            assert(spec_encode(i) =~= seq![b]);
        },
        _ => {},
    }
}

} // verus!
