use rsgb::decoding::decode_instruction;
use rsgb::encoding::encode_instruction;
use rsgb::errors::DecodeError;
use rsgb::instruction::Bit;
use rsgb::instruction::Cond;
use rsgb::instruction::Instruction;
use rsgb::instruction::Register;
use rsgb::util::add16;
use rsgb::util::add8;
use rsgb::util::get_bit;
use rsgb::util::high_byte;
use rsgb::util::high_nibble;
use rsgb::util::low_byte;
use rsgb::util::low_nibble;
use rsgb::util::make_word16;
use rsgb::util::make_word8;
use rsgb::util::set_bit;
use rsgb::util::sub8;

#[test]
fn add8_matches_modular_sum_for_all_inputs() {
    for a in 0u16..256 {
        for b in 0u16..256 {
            let (r, h, c) = add8(a as u8, b as u8);
            assert_eq!(r, ((a + b) % 256) as u8);
            assert_eq!(h, (a & 0xf) + (b & 0xf) > 0xf);
            assert_eq!(c, a + b > 255);
        }
    }
}

#[test]
fn sub8_matches_modular_difference_for_all_inputs() {
    for a in 0i32..256 {
        for b in 0i32..256 {
            let (r, h, c) = sub8(a as u8, b as u8);
            assert_eq!(r, (a - b).rem_euclid(256) as u8);
            assert_eq!(h, (b & 0xf) > (a & 0xf));
            assert_eq!(c, b > a);
        }
    }
}

#[test]
fn add16_carries_cross_bit_11_and_bit_15() {
    assert_eq!(add16(0x0fff, 0x0001), (0x1000, true, false));
    assert_eq!(add16(0x0800, 0x0700), (0x0f00, false, false));
    assert_eq!(add16(0xffff, 0x0001), (0x0000, true, true));
    assert_eq!(add16(0x8000, 0x8000), (0x0000, false, true));
    assert_eq!(add16(0x1234, 0x4321), (0x5555, false, false));
}

#[test]
fn word_and_nibble_helpers() {
    assert_eq!(make_word16(0x12, 0x34), 0x1234);
    assert_eq!(low_byte(0xabcd), 0xcd);
    assert_eq!(high_byte(0xabcd), 0xab);
    assert_eq!(low_nibble(0xa7), 0x07);
    assert_eq!(high_nibble(0xa7), 0x0a);
    assert_eq!(make_word8(0x0a, 0x07), 0xa7);
}

#[test]
fn bit_get_and_set() {
    assert!(get_bit(0x80, 7));
    assert!(!get_bit(0x80, 6));
    assert_eq!(set_bit(0x00, 3, true), 0x08);
    assert_eq!(set_bit(0xff, 3, false), 0xf7);
    for i in 0..8 {
        assert_eq!(get_bit(set_bit(0, i, true), i), true);
        assert_eq!(get_bit(set_bit(0xff, i, false), i), false);
    }
}

const ALL_REGISTERS: [Register; 7] = [
    Register::ARegister,
    Register::BRegister,
    Register::CRegister,
    Register::DRegister,
    Register::ERegister,
    Register::HRegister,
    Register::LRegister,
];

#[test]
fn decode_of_encode_yields_the_instruction_back() {
    for dst in ALL_REGISTERS {
        for src in ALL_REGISTERS {
            let i = Instruction::LD_R_R(dst, src);
            let bytes = encode_instruction(i);
            assert_eq!(decode_instruction(bytes.as_slice()), Ok((i, 1)));
        }
    }
}

#[test]
fn encode_ld_b_a_is_0x47() {
    let bytes = encode_instruction(Instruction::LD_R_R(
        Register::BRegister,
        Register::ARegister,
    ));
    assert_eq!(bytes.as_slice(), &[0x47]);
}

#[test]
fn decode_one_byte_opcodes() {
    assert_eq!(decode_instruction(&[0x00]), Ok((Instruction::NOP, 1)));
    assert_eq!(decode_instruction(&[0x76]), Ok((Instruction::HALT, 1)));
    assert_eq!(
        decode_instruction(&[0x46]),
        Ok((Instruction::LD_R_ATHL(Register::BRegister), 1))
    );
    assert_eq!(
        decode_instruction(&[0x70]),
        Ok((Instruction::LD_ATHL_R(Register::BRegister), 1))
    );
    assert_eq!(decode_instruction(&[0x86]), Ok((Instruction::ADD_A_ATHL, 1)));
    assert_eq!(
        decode_instruction(&[0xaf]),
        Ok((Instruction::XOR_R(Register::ARegister), 1))
    );
    assert_eq!(
        decode_instruction(&[0xff]),
        Ok((Instruction::RST_RA(rsgb::instruction::ResetAddress::Reset38), 1))
    );
    assert_eq!(
        decode_instruction(&[0x3c]),
        Ok((Instruction::INC_R(Register::ARegister), 1))
    );
}

#[test]
fn decode_operand_opcodes_are_little_endian() {
    assert_eq!(
        decode_instruction(&[0x3e, 0x05]),
        Ok((Instruction::LD_R_N(Register::ARegister, 0x05), 2))
    );
    assert_eq!(
        decode_instruction(&[0xc3, 0x34, 0x12]),
        Ok((Instruction::JP_NN(0x1234), 3))
    );
    assert_eq!(
        decode_instruction(&[0xfa, 0xcd, 0xab]),
        Ok((Instruction::LD_A_ATNN(0xabcd), 3))
    );
    assert_eq!(
        decode_instruction(&[0x18, 0xfe]),
        Ok((Instruction::JR_N(-2), 2))
    );
    assert_eq!(
        decode_instruction(&[0x20, 0x7f]),
        Ok((Instruction::JR_C_N(Cond::NZero, 127), 2))
    );
    assert_eq!(
        decode_instruction(&[0xe8, 0x80]),
        Ok((Instruction::ADD_SP_N(-128), 2))
    );
}

#[test]
fn decode_extended_opcodes() {
    assert_eq!(
        decode_instruction(&[0xcb, 0x37]),
        Ok((Instruction::SWAP_R(Register::ARegister), 2))
    );
    assert_eq!(
        decode_instruction(&[0xcb, 0x7e]),
        Ok((Instruction::BIT_B_ATHL(Bit::Bit7), 2))
    );
    assert_eq!(
        decode_instruction(&[0xcb, 0x00]),
        Ok((Instruction::RLC_R(Register::BRegister), 2))
    );
    assert_eq!(
        decode_instruction(&[0xcb, 0xff]),
        Ok((Instruction::SET_B_R(Bit::Bit7, Register::ARegister), 2))
    );
    assert_eq!(
        decode_instruction(&[0xcb, 0x9e]),
        Ok((Instruction::RES_B_ATHL(Bit::Bit3), 2))
    );
    assert_eq!(
        decode_instruction(&[0x10, 0x00]),
        Ok((Instruction::STOP, 2))
    );
}

#[test]
fn decode_rejects_bad_input() {
    assert_eq!(decode_instruction(&[]), Err(DecodeError::EndOfInput));
    assert_eq!(decode_instruction(&[0x3e]), Err(DecodeError::EndOfInput));
    assert_eq!(decode_instruction(&[0xcb]), Err(DecodeError::EndOfInput));
    assert_eq!(
        decode_instruction(&[0xc3, 0x34]),
        Err(DecodeError::EndOfInput)
    );
    assert_eq!(
        decode_instruction(&[0xd3]),
        Err(DecodeError::UnknownOpcode(0xd3))
    );
    assert_eq!(
        decode_instruction(&[0xfd]),
        Err(DecodeError::UnknownOpcode(0xfd))
    );
    assert_eq!(
        decode_instruction(&[0x10, 0x01]),
        Err(DecodeError::InvalidExtension(0x01))
    );
}
