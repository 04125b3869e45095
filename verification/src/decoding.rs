//! The instruction decoder: a total function from a byte sequence to one
//! tagged instruction and the number of bytes it occupies, or a decode
//! error. Primary dispatch is on the first byte; the 0xCB prefix selects
//! the extended rotate/shift/bit table read from the second byte, and
//! 16-bit immediates are little-endian.
use vstd::prelude::*;

use crate::errors::DecodeError;
use crate::instruction::Bit;
use crate::instruction::Cond;
use crate::instruction::Instruction;
use crate::instruction::Register;
use crate::instruction::ResetAddress;
use crate::util::make_word16;
use crate::util::spec_word16;

verus! {

/// The register addressed by a three-bit operand field of an opcode;
/// `None` is the (HL) memory operand, code 6.
pub open spec fn spec_register_code(code: u8) -> Option<Register> {
    match code {
        0 => Some(Register::BRegister),
        1 => Some(Register::CRegister),
        2 => Some(Register::DRegister),
        3 => Some(Register::ERegister),
        4 => Some(Register::HRegister),
        5 => Some(Register::LRegister),
        7 => Some(Register::ARegister),
        _ => None,
    }
}

/// The bit index named by a three-bit field of an extended opcode.
pub open spec fn spec_bit_code(code: u8) -> Bit {
    match code {
        0 => Bit::Bit0,
        1 => Bit::Bit1,
        2 => Bit::Bit2,
        3 => Bit::Bit3,
        4 => Bit::Bit4,
        5 => Bit::Bit5,
        6 => Bit::Bit6,
        _ => Bit::Bit7,
    }
}

/// How many bytes the instruction starting with `b0` occupies, operands
/// and prefix byte included. Unrecognized opcodes occupy one byte: the
/// decoder consumes them before rejecting them.
pub open spec fn spec_instruction_length(b0: u8) -> usize {
    if 0x40 <= b0 && b0 < 0xc0 {
        1
    } else {
        match b0 {
            0x06 | 0x0e | 0x16 | 0x1e | 0x26 | 0x2e | 0x36 | 0x3e => 2,
            0x10 | 0x18 | 0x20 | 0x28 | 0x30 | 0x38 | 0xcb => 2,
            0xc6 | 0xce | 0xd6 | 0xde | 0xe0 | 0xe6 | 0xe8 | 0xee => 2,
            0xf0 | 0xf6 | 0xf8 | 0xfe => 2,
            0x01 | 0x08 | 0x11 | 0x21 | 0x31 => 3,
            0xc2 | 0xc3 | 0xc4 | 0xca | 0xcc | 0xcd => 3,
            0xd2 | 0xd4 | 0xda | 0xdc | 0xea | 0xfa => 3,
            _ => 1,
        }
    }
}

/// The arithmetic/logic instruction selected by operation code `op`
/// (bits 5-3 of the opcode) over operand code `code` (bits 2-0).
pub open spec fn spec_alu_op(op: u8, code: u8) -> Instruction {
    match spec_register_code(code) {
        Some(r) => match op {
            0 => Instruction::ADD_A_R(r),
            1 => Instruction::ADC_A_R(r),
            2 => Instruction::SUB_R(r),
            3 => Instruction::SBC_A_R(r),
            4 => Instruction::AND_R(r),
            5 => Instruction::XOR_R(r),
            6 => Instruction::OR_R(r),
            _ => Instruction::CP_R(r),
        },
        None => match op {
            0 => Instruction::ADD_A_ATHL,
            1 => Instruction::ADC_A_ATHL,
            2 => Instruction::SUB_ATHL,
            3 => Instruction::SBC_A_ATHL,
            4 => Instruction::AND_ATHL,
            5 => Instruction::XOR_ATHL,
            6 => Instruction::OR_ATHL,
            _ => Instruction::CP_ATHL,
        },
    }
}

/// The instruction of a one-byte opcode, or `None` where the byte names
/// no opcode.
pub open spec fn spec_decode_single(b0: u8) -> Option<Instruction> {
    if 0x40 <= b0 && b0 < 0x80 {
        Some(
            match (spec_register_code((b0 >> 3) & 7), spec_register_code(b0 & 7)) {
                (Some(dst), Some(src)) => Instruction::LD_R_R(dst, src),
                (Some(dst), None) => Instruction::LD_R_ATHL(dst),
                (None, Some(src)) => Instruction::LD_ATHL_R(src),
                (None, None) => Instruction::HALT,
            },
        )
    } else if 0x80 <= b0 && b0 < 0xc0 {
        Some(spec_alu_op((b0 >> 3) & 7, b0 & 7))
    } else {
        match b0 {
            0x00 => Some(Instruction::NOP),
            0x02 => Some(Instruction::LD_ATBC_A),
            0x03 => Some(Instruction::INC_BC),
            0x04 => Some(Instruction::INC_R(Register::BRegister)),
            0x05 => Some(Instruction::DEC_R(Register::BRegister)),
            0x07 => Some(Instruction::RLCA),
            0x09 => Some(Instruction::ADD_HL_BC),
            0x0a => Some(Instruction::LD_A_ATBC),
            0x0b => Some(Instruction::DEC_BC),
            0x0c => Some(Instruction::INC_R(Register::CRegister)),
            0x0d => Some(Instruction::DEC_R(Register::CRegister)),
            0x0f => Some(Instruction::RRCA),
            0x12 => Some(Instruction::LD_ATDE_A),
            0x13 => Some(Instruction::INC_DE),
            0x14 => Some(Instruction::INC_R(Register::DRegister)),
            0x15 => Some(Instruction::DEC_R(Register::DRegister)),
            0x17 => Some(Instruction::RLA),
            0x19 => Some(Instruction::ADD_HL_DE),
            0x1a => Some(Instruction::LD_A_ATDE),
            0x1b => Some(Instruction::DEC_DE),
            0x1c => Some(Instruction::INC_R(Register::ERegister)),
            0x1d => Some(Instruction::DEC_R(Register::ERegister)),
            0x1f => Some(Instruction::RRA),
            0x22 => Some(Instruction::LDI_ATHL_A),
            0x23 => Some(Instruction::INC_HL),
            0x24 => Some(Instruction::INC_R(Register::HRegister)),
            0x25 => Some(Instruction::DEC_R(Register::HRegister)),
            0x27 => Some(Instruction::DAA),
            0x29 => Some(Instruction::ADD_HL_HL),
            0x2a => Some(Instruction::LDI_A_ATHL),
            0x2b => Some(Instruction::DEC_HL),
            0x2c => Some(Instruction::INC_R(Register::LRegister)),
            0x2d => Some(Instruction::DEC_R(Register::LRegister)),
            0x2f => Some(Instruction::CPL),
            0x32 => Some(Instruction::LDD_ATHL_A),
            0x33 => Some(Instruction::INC_SP),
            0x34 => Some(Instruction::INC_ATHL),
            0x35 => Some(Instruction::DEC_ATHL),
            0x37 => Some(Instruction::SCF),
            0x39 => Some(Instruction::ADD_HL_SP),
            0x3a => Some(Instruction::LDD_A_ATHL),
            0x3b => Some(Instruction::DEC_SP),
            0x3c => Some(Instruction::INC_R(Register::ARegister)),
            0x3d => Some(Instruction::DEC_R(Register::ARegister)),
            0x3f => Some(Instruction::CCF),
            0xc0 => Some(Instruction::RET_C(Cond::NZero)),
            0xc1 => Some(Instruction::POP_BC),
            0xc5 => Some(Instruction::PUSH_BC),
            0xc7 => Some(Instruction::RST_RA(ResetAddress::Reset00)),
            0xc8 => Some(Instruction::RET_C(Cond::Zero)),
            0xc9 => Some(Instruction::RET),
            0xcf => Some(Instruction::RST_RA(ResetAddress::Reset08)),
            0xd0 => Some(Instruction::RET_C(Cond::NCarry)),
            0xd1 => Some(Instruction::POP_DE),
            0xd5 => Some(Instruction::PUSH_DE),
            0xd7 => Some(Instruction::RST_RA(ResetAddress::Reset10)),
            0xd8 => Some(Instruction::RET_C(Cond::Carry)),
            0xd9 => Some(Instruction::RETI),
            0xdf => Some(Instruction::RST_RA(ResetAddress::Reset18)),
            0xe1 => Some(Instruction::POP_HL),
            0xe2 => Some(Instruction::LD_ATC_A),
            0xe5 => Some(Instruction::PUSH_HL),
            0xe7 => Some(Instruction::RST_RA(ResetAddress::Reset20)),
            0xe9 => Some(Instruction::JP_ATHL),
            0xef => Some(Instruction::RST_RA(ResetAddress::Reset28)),
            0xf1 => Some(Instruction::POP_AF),
            0xf2 => Some(Instruction::LD_A_ATC),
            0xf3 => Some(Instruction::DI),
            0xf5 => Some(Instruction::PUSH_AF),
            0xf7 => Some(Instruction::RST_RA(ResetAddress::Reset30)),
            0xf9 => Some(Instruction::LD_SP_HL),
            0xfb => Some(Instruction::EI),
            0xff => Some(Instruction::RST_RA(ResetAddress::Reset38)),
            _ => None,
        }
    }
}

/// The instruction of a two-byte opcode whose operand is the immediate
/// byte `n`; the 0xCB and 0x10 prefixes are handled separately.
pub open spec fn spec_decode_imm8(b0: u8, n: u8) -> Instruction {
    match b0 {
        0x3e => Instruction::LD_R_N(Register::ARegister, n),
        0x06 => Instruction::LD_R_N(Register::BRegister, n),
        0x0e => Instruction::LD_R_N(Register::CRegister, n),
        0x16 => Instruction::LD_R_N(Register::DRegister, n),
        0x1e => Instruction::LD_R_N(Register::ERegister, n),
        0x26 => Instruction::LD_R_N(Register::HRegister, n),
        0x2e => Instruction::LD_R_N(Register::LRegister, n),
        0x36 => Instruction::LD_ATHL_N(n),
        0xf0 => Instruction::LDH_A_ATN(n),
        0xe0 => Instruction::LDH_ATN_A(n),
        0xc6 => Instruction::ADD_A_N(n),
        0xce => Instruction::ADC_A_N(n),
        0xd6 => Instruction::SUB_N(n),
        0xde => Instruction::SBC_A_N(n),
        0xe6 => Instruction::AND_N(n),
        0xf6 => Instruction::OR_N(n),
        0xee => Instruction::XOR_N(n),
        0xfe => Instruction::CP_N(n),
        0xe8 => Instruction::ADD_SP_N(n as i8),
        0xf8 => Instruction::LDHL_SP_N(n as i8),
        0x18 => Instruction::JR_N(n as i8),
        0x20 => Instruction::JR_C_N(Cond::NZero, n as i8),
        0x28 => Instruction::JR_C_N(Cond::Zero, n as i8),
        0x30 => Instruction::JR_C_N(Cond::NCarry, n as i8),
        _ => Instruction::JR_C_N(Cond::Carry, n as i8),
    }
}

/// The instruction of a three-byte opcode whose operand is the 16-bit
/// immediate `nn`.
pub open spec fn spec_decode_imm16(b0: u8, nn: u16) -> Instruction {
    match b0 {
        0xfa => Instruction::LD_A_ATNN(nn),
        0xea => Instruction::LD_ATNN_A(nn),
        0x01 => Instruction::LD_BC_NN(nn),
        0x11 => Instruction::LD_DE_NN(nn),
        0x21 => Instruction::LD_HL_NN(nn),
        0x31 => Instruction::LD_SP_NN(nn),
        0x08 => Instruction::LD_ATNN_SP(nn),
        0xc3 => Instruction::JP_NN(nn),
        0xc2 => Instruction::JP_C_NN(Cond::NZero, nn),
        0xca => Instruction::JP_C_NN(Cond::Zero, nn),
        0xd2 => Instruction::JP_C_NN(Cond::NCarry, nn),
        0xda => Instruction::JP_C_NN(Cond::Carry, nn),
        0xcd => Instruction::CALL_NN(nn),
        0xc4 => Instruction::CALL_C_NN(Cond::NZero, nn),
        0xcc => Instruction::CALL_C_NN(Cond::Zero, nn),
        0xd4 => Instruction::CALL_C_NN(Cond::NCarry, nn),
        _ => Instruction::CALL_C_NN(Cond::Carry, nn),
    }
}

/// The instruction of the extended (0xCB-prefixed) opcode byte `b`. The
/// extended table is total: every byte names an instruction. Bits 7-3
/// select the operation, bits 2-0 the register or (HL) operand.
pub open spec fn spec_decode_extended(b: u8) -> Instruction {
    let op = b >> 3;
    let code = b & 7;
    match spec_register_code(code) {
        Some(r) => {
            if op < 8 {
                match op {
                    0 => Instruction::RLC_R(r),
                    1 => Instruction::RRC_R(r),
                    2 => Instruction::RL_R(r),
                    3 => Instruction::RR_R(r),
                    4 => Instruction::SLA_R(r),
                    5 => Instruction::SRA_R(r),
                    6 => Instruction::SWAP_R(r),
                    _ => Instruction::SRL_R(r),
                }
            } else if op < 16 {
                Instruction::BIT_B_R(spec_bit_code(op & 7), r)
            } else if op < 24 {
                Instruction::RES_B_R(spec_bit_code(op & 7), r)
            } else {
                Instruction::SET_B_R(spec_bit_code(op & 7), r)
            }
        },
        None => {
            if op < 8 {
                match op {
                    0 => Instruction::RLC_ATHL,
                    1 => Instruction::RRC_ATHL,
                    2 => Instruction::RL_ATHL,
                    3 => Instruction::RR_ATHL,
                    4 => Instruction::SLA_ATHL,
                    5 => Instruction::SRA_ATHL,
                    6 => Instruction::SWAP_ATHL,
                    _ => Instruction::SRL_ATHL,
                }
            } else if op < 16 {
                Instruction::BIT_B_ATHL(spec_bit_code(op & 7))
            } else if op < 24 {
                Instruction::RES_B_ATHL(spec_bit_code(op & 7))
            } else {
                Instruction::SET_B_ATHL(spec_bit_code(op & 7))
            }
        },
    }
}

/// What decoding the byte sequence yields: the instruction and the count
/// of bytes it occupies, or the decode error.
pub open spec fn spec_decode(bytes: Seq<u8>) -> Result<(Instruction, usize), DecodeError> {
    if bytes.len() < 1 {
        Err(DecodeError::EndOfInput)
    } else {
        let b0 = bytes[0];
        let n = spec_instruction_length(b0);
        if bytes.len() < n as int {
            Err(DecodeError::EndOfInput)
        } else if n == 1 {
            match spec_decode_single(b0) {
                Some(i) => Ok((i, 1)),
                None => Err(DecodeError::UnknownOpcode(b0)),
            }
        } else if n == 2 {
            if b0 == 0xcb {
                Ok((spec_decode_extended(bytes[1]), 2))
            } else if b0 == 0x10 {
                if bytes[1] == 0x00 {
                    Ok((Instruction::STOP, 2))
                } else {
                    Err(DecodeError::InvalidExtension(bytes[1]))
                }
            } else {
                Ok((spec_decode_imm8(b0, bytes[1]), 2))
            }
        } else {
            Ok((spec_decode_imm16(b0, spec_word16(bytes[2], bytes[1])), 3))
        }
    }
}

/// The register addressed by a three-bit operand field.
fn register_code(code: u8) -> (r: Option<Register>)
    ensures
        r == spec_register_code(code),
{
    match code {
        0 => Some(Register::BRegister),
        1 => Some(Register::CRegister),
        2 => Some(Register::DRegister),
        3 => Some(Register::ERegister),
        4 => Some(Register::HRegister),
        5 => Some(Register::LRegister),
        7 => Some(Register::ARegister),
        _ => None,
    }
}

/// The bit index named by a three-bit field of an extended opcode.
fn bit_code(code: u8) -> (r: Bit)
    ensures
        r == spec_bit_code(code),
{
    match code {
        0 => Bit::Bit0,
        1 => Bit::Bit1,
        2 => Bit::Bit2,
        3 => Bit::Bit3,
        4 => Bit::Bit4,
        5 => Bit::Bit5,
        6 => Bit::Bit6,
        _ => Bit::Bit7,
    }
}

/// How many bytes the instruction starting with `b0` occupies.
pub fn instruction_length(b0: u8) -> (r: usize)
    ensures
        r == spec_instruction_length(b0),
        1 <= r <= 3,
{
    if 0x40 <= b0 && b0 < 0xc0 {
        1
    } else {
        match b0 {
            0x06 | 0x0e | 0x16 | 0x1e | 0x26 | 0x2e | 0x36 | 0x3e => 2,
            0x10 | 0x18 | 0x20 | 0x28 | 0x30 | 0x38 | 0xcb => 2,
            0xc6 | 0xce | 0xd6 | 0xde | 0xe0 | 0xe6 | 0xe8 | 0xee => 2,
            0xf0 | 0xf6 | 0xf8 | 0xfe => 2,
            0x01 | 0x08 | 0x11 | 0x21 | 0x31 => 3,
            0xc2 | 0xc3 | 0xc4 | 0xca | 0xcc | 0xcd => 3,
            0xd2 | 0xd4 | 0xda | 0xdc | 0xea | 0xfa => 3,
            _ => 1,
        }
    }
}

/// Decode a one-byte opcode.
fn decode_single(b0: u8) -> (r: Option<Instruction>)
    ensures
        r == spec_decode_single(b0),
{
    if 0x40 <= b0 && b0 < 0x80 {
        Some(
            match (register_code((b0 >> 3) & 7), register_code(b0 & 7)) {
                (Some(dst), Some(src)) => Instruction::LD_R_R(dst, src),
                (Some(dst), None) => Instruction::LD_R_ATHL(dst),
                (None, Some(src)) => Instruction::LD_ATHL_R(src),
                (None, None) => Instruction::HALT,
            },
        )
    } else if 0x80 <= b0 && b0 < 0xc0 {
        let op = (b0 >> 3) & 7;
        Some(
            match register_code(b0 & 7) {
                Some(r) => match op {
                    0 => Instruction::ADD_A_R(r),
                    1 => Instruction::ADC_A_R(r),
                    2 => Instruction::SUB_R(r),
                    3 => Instruction::SBC_A_R(r),
                    4 => Instruction::AND_R(r),
                    5 => Instruction::XOR_R(r),
                    6 => Instruction::OR_R(r),
                    _ => Instruction::CP_R(r),
                },
                None => match op {
                    0 => Instruction::ADD_A_ATHL,
                    1 => Instruction::ADC_A_ATHL,
                    2 => Instruction::SUB_ATHL,
                    3 => Instruction::SBC_A_ATHL,
                    4 => Instruction::AND_ATHL,
                    5 => Instruction::XOR_ATHL,
                    6 => Instruction::OR_ATHL,
                    _ => Instruction::CP_ATHL,
                },
            },
        )
    } else {
        match b0 {
            0x00 => Some(Instruction::NOP),
            0x02 => Some(Instruction::LD_ATBC_A),
            0x03 => Some(Instruction::INC_BC),
            0x04 => Some(Instruction::INC_R(Register::BRegister)),
            0x05 => Some(Instruction::DEC_R(Register::BRegister)),
            0x07 => Some(Instruction::RLCA),
            0x09 => Some(Instruction::ADD_HL_BC),
            0x0a => Some(Instruction::LD_A_ATBC),
            0x0b => Some(Instruction::DEC_BC),
            0x0c => Some(Instruction::INC_R(Register::CRegister)),
            0x0d => Some(Instruction::DEC_R(Register::CRegister)),
            0x0f => Some(Instruction::RRCA),
            0x12 => Some(Instruction::LD_ATDE_A),
            0x13 => Some(Instruction::INC_DE),
            0x14 => Some(Instruction::INC_R(Register::DRegister)),
            0x15 => Some(Instruction::DEC_R(Register::DRegister)),
            0x17 => Some(Instruction::RLA),
            0x19 => Some(Instruction::ADD_HL_DE),
            0x1a => Some(Instruction::LD_A_ATDE),
            0x1b => Some(Instruction::DEC_DE),
            0x1c => Some(Instruction::INC_R(Register::ERegister)),
            0x1d => Some(Instruction::DEC_R(Register::ERegister)),
            0x1f => Some(Instruction::RRA),
            0x22 => Some(Instruction::LDI_ATHL_A),
            0x23 => Some(Instruction::INC_HL),
            0x24 => Some(Instruction::INC_R(Register::HRegister)),
            0x25 => Some(Instruction::DEC_R(Register::HRegister)),
            0x27 => Some(Instruction::DAA),
            0x29 => Some(Instruction::ADD_HL_HL),
            0x2a => Some(Instruction::LDI_A_ATHL),
            0x2b => Some(Instruction::DEC_HL),
            0x2c => Some(Instruction::INC_R(Register::LRegister)),
            0x2d => Some(Instruction::DEC_R(Register::LRegister)),
            0x2f => Some(Instruction::CPL),
            0x32 => Some(Instruction::LDD_ATHL_A),
            0x33 => Some(Instruction::INC_SP),
            0x34 => Some(Instruction::INC_ATHL),
            0x35 => Some(Instruction::DEC_ATHL),
            0x37 => Some(Instruction::SCF),
            0x39 => Some(Instruction::ADD_HL_SP),
            0x3a => Some(Instruction::LDD_A_ATHL),
            0x3b => Some(Instruction::DEC_SP),
            0x3c => Some(Instruction::INC_R(Register::ARegister)),
            0x3d => Some(Instruction::DEC_R(Register::ARegister)),
            0x3f => Some(Instruction::CCF),
            0xc0 => Some(Instruction::RET_C(Cond::NZero)),
            0xc1 => Some(Instruction::POP_BC),
            0xc5 => Some(Instruction::PUSH_BC),
            0xc7 => Some(Instruction::RST_RA(ResetAddress::Reset00)),
            0xc8 => Some(Instruction::RET_C(Cond::Zero)),
            0xc9 => Some(Instruction::RET),
            0xcf => Some(Instruction::RST_RA(ResetAddress::Reset08)),
            0xd0 => Some(Instruction::RET_C(Cond::NCarry)),
            0xd1 => Some(Instruction::POP_DE),
            0xd5 => Some(Instruction::PUSH_DE),
            0xd7 => Some(Instruction::RST_RA(ResetAddress::Reset10)),
            0xd8 => Some(Instruction::RET_C(Cond::Carry)),
            0xd9 => Some(Instruction::RETI),
            0xdf => Some(Instruction::RST_RA(ResetAddress::Reset18)),
            0xe1 => Some(Instruction::POP_HL),
            0xe2 => Some(Instruction::LD_ATC_A),
            0xe5 => Some(Instruction::PUSH_HL),
            0xe7 => Some(Instruction::RST_RA(ResetAddress::Reset20)),
            0xe9 => Some(Instruction::JP_ATHL),
            0xef => Some(Instruction::RST_RA(ResetAddress::Reset28)),
            0xf1 => Some(Instruction::POP_AF),
            0xf2 => Some(Instruction::LD_A_ATC),
            0xf3 => Some(Instruction::DI),
            0xf5 => Some(Instruction::PUSH_AF),
            0xf7 => Some(Instruction::RST_RA(ResetAddress::Reset30)),
            0xf9 => Some(Instruction::LD_SP_HL),
            0xfb => Some(Instruction::EI),
            0xff => Some(Instruction::RST_RA(ResetAddress::Reset38)),
            _ => None,
        }
    }
}

/// Decode a two-byte opcode with an immediate-byte operand.
fn decode_imm8(b0: u8, n: u8) -> (r: Instruction)
    ensures
        r == spec_decode_imm8(b0, n),
{
    match b0 {
        0x3e => Instruction::LD_R_N(Register::ARegister, n),
        0x06 => Instruction::LD_R_N(Register::BRegister, n),
        0x0e => Instruction::LD_R_N(Register::CRegister, n),
        0x16 => Instruction::LD_R_N(Register::DRegister, n),
        0x1e => Instruction::LD_R_N(Register::ERegister, n),
        0x26 => Instruction::LD_R_N(Register::HRegister, n),
        0x2e => Instruction::LD_R_N(Register::LRegister, n),
        0x36 => Instruction::LD_ATHL_N(n),
        0xf0 => Instruction::LDH_A_ATN(n),
        0xe0 => Instruction::LDH_ATN_A(n),
        0xc6 => Instruction::ADD_A_N(n),
        0xce => Instruction::ADC_A_N(n),
        0xd6 => Instruction::SUB_N(n),
        0xde => Instruction::SBC_A_N(n),
        0xe6 => Instruction::AND_N(n),
        0xf6 => Instruction::OR_N(n),
        0xee => Instruction::XOR_N(n),
        0xfe => Instruction::CP_N(n),
        0xe8 => Instruction::ADD_SP_N(n as i8),
        0xf8 => Instruction::LDHL_SP_N(n as i8),
        0x18 => Instruction::JR_N(n as i8),
        0x20 => Instruction::JR_C_N(Cond::NZero, n as i8),
        0x28 => Instruction::JR_C_N(Cond::Zero, n as i8),
        0x30 => Instruction::JR_C_N(Cond::NCarry, n as i8),
        _ => Instruction::JR_C_N(Cond::Carry, n as i8),
    }
}

/// Decode a three-byte opcode with a 16-bit immediate operand.
fn decode_imm16(b0: u8, nn: u16) -> (r: Instruction)
    ensures
        r == spec_decode_imm16(b0, nn),
{
    match b0 {
        0xfa => Instruction::LD_A_ATNN(nn),
        0xea => Instruction::LD_ATNN_A(nn),
        0x01 => Instruction::LD_BC_NN(nn),
        0x11 => Instruction::LD_DE_NN(nn),
        0x21 => Instruction::LD_HL_NN(nn),
        0x31 => Instruction::LD_SP_NN(nn),
        0x08 => Instruction::LD_ATNN_SP(nn),
        0xc3 => Instruction::JP_NN(nn),
        0xc2 => Instruction::JP_C_NN(Cond::NZero, nn),
        0xca => Instruction::JP_C_NN(Cond::Zero, nn),
        0xd2 => Instruction::JP_C_NN(Cond::NCarry, nn),
        0xda => Instruction::JP_C_NN(Cond::Carry, nn),
        0xcd => Instruction::CALL_NN(nn),
        0xc4 => Instruction::CALL_C_NN(Cond::NZero, nn),
        0xcc => Instruction::CALL_C_NN(Cond::Zero, nn),
        0xd4 => Instruction::CALL_C_NN(Cond::NCarry, nn),
        _ => Instruction::CALL_C_NN(Cond::Carry, nn),
    }
}

/// Decode an extended (0xCB-prefixed) opcode byte.
fn decode_extended(b: u8) -> (r: Instruction)
    ensures
        r == spec_decode_extended(b),
{
    let op = b >> 3;
    match register_code(b & 7) {
        Some(r) => {
            if op < 8 {
                match op {
                    0 => Instruction::RLC_R(r),
                    1 => Instruction::RRC_R(r),
                    2 => Instruction::RL_R(r),
                    3 => Instruction::RR_R(r),
                    4 => Instruction::SLA_R(r),
                    5 => Instruction::SRA_R(r),
                    6 => Instruction::SWAP_R(r),
                    _ => Instruction::SRL_R(r),
                }
            } else if op < 16 {
                Instruction::BIT_B_R(bit_code(op & 7), r)
            } else if op < 24 {
                Instruction::RES_B_R(bit_code(op & 7), r)
            } else {
                Instruction::SET_B_R(bit_code(op & 7), r)
            }
        },
        None => {
            if op < 8 {
                match op {
                    0 => Instruction::RLC_ATHL,
                    1 => Instruction::RRC_ATHL,
                    2 => Instruction::RL_ATHL,
                    3 => Instruction::RR_ATHL,
                    4 => Instruction::SLA_ATHL,
                    5 => Instruction::SRA_ATHL,
                    6 => Instruction::SWAP_ATHL,
                    _ => Instruction::SRL_ATHL,
                }
            } else if op < 16 {
                Instruction::BIT_B_ATHL(bit_code(op & 7))
            } else if op < 24 {
                Instruction::RES_B_ATHL(bit_code(op & 7))
            } else {
                Instruction::SET_B_ATHL(bit_code(op & 7))
            }
        },
    }
}

/// Decode one instruction from the front of `bytes`. Returns the
/// instruction and the number of bytes it occupies, or the decode error;
/// no bytes past the reported count are examined.
pub fn decode_instruction(bytes: &[u8]) -> (r: Result<(Instruction, usize), DecodeError>)
    ensures
        r == spec_decode(bytes@),
{
    if bytes.len() < 1 {
        return Err(DecodeError::EndOfInput);
    }
    let b0 = bytes[0];
    let n = instruction_length(b0);
    if bytes.len() < n {
        return Err(DecodeError::EndOfInput);
    }
    if n == 1 {
        match decode_single(b0) {
            Some(i) => Ok((i, 1)),
            None => Err(DecodeError::UnknownOpcode(b0)),
        }
    } else if n == 2 {
        let b1 = bytes[1];
        if b0 == 0xcb {
            Ok((decode_extended(b1), 2))
        } else if b0 == 0x10 {
            if b1 == 0x00 {
                Ok((Instruction::STOP, 2))
            } else {
                Err(DecodeError::InvalidExtension(b1))
            }
        } else {
            Ok((decode_imm8(b0, b1), 2))
        }
    } else {
        let nn = make_word16(bytes[2], bytes[1]);
        Ok((decode_imm16(b0, nn), 3))
    }
}

} // verus!
