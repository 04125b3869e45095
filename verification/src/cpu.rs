//! The execution engine: flag semantics, the transition each instruction
//! makes on the machine, and the fetch/decode/execute step. Every
//! transition is stated first as a spec function over the machine model;
//! the executable engine is proved to realize it exactly, partial
//! effects of an instruction that fails mid-way included.
use vstd::prelude::*;

use crate::decoding::decode_instruction;
use crate::decoding::instruction_length;
use crate::decoding::spec_decode;
use crate::decoding::spec_instruction_length;
use crate::emulator::read_byte;
use crate::encoding::lemma_encode_decode_round_trip;
use crate::encoding::spec_encode;
use crate::emulator::readable;
use crate::emulator::writable;
use crate::emulator::write_byte;
use crate::emulator::Emulator;
use crate::emulator::MachineView;
use crate::errors::ArithmeticBoundaryError;
use crate::errors::MemoryAccessError;
use crate::errors::StepError;
use crate::instruction::Bit;
use crate::instruction::Cond;
use crate::instruction::Instruction;
use crate::instruction::Register;
use crate::instruction::ResetAddress;
use crate::util::add16;
use crate::util::add8;
use crate::util::bit_set;
use crate::util::get_bit;
use crate::util::high_byte;
use crate::util::high_nibble;
use crate::util::low_byte;
use crate::util::low_nibble;
use crate::util::make_word16;
use crate::util::make_word8;
use crate::util::set_bit;
use crate::util::spec_add16;
use crate::util::spec_add8;
use crate::util::spec_high_byte;
use crate::util::spec_low_byte;
use crate::util::spec_set_bit;
use crate::util::spec_sub8;
use crate::util::spec_word16;
use crate::util::sub8;

verus! {

/// The four condition flags, packed into bits 7..4 of the F byte when the
/// AF pair is read; bits 3..0 of F are always zero.
#[derive(PartialEq, Eq, Structural, Clone, Copy, Debug)]
pub struct Flags {
    pub zero: bool,
    pub subtract: bool,
    pub half_carry: bool,
    pub carry: bool,
}

/// The F byte: Zero in bit 7, Subtract in bit 6, HalfCarry in bit 5,
/// Carry in bit 4, and zero elsewhere.
pub open spec fn spec_flags_byte(f: Flags) -> u8 {
    spec_set_bit(
        spec_set_bit(spec_set_bit(spec_set_bit(0, 7, f.zero), 6, f.subtract), 5, f.half_carry),
        4,
        f.carry,
    )
}

/// The flags packed into byte `b`, as POP AF restores them; bits 3..0
/// are discarded.
pub open spec fn spec_flags_from_byte(b: u8) -> Flags {
    Flags {
        zero: bit_set(b, 7),
        subtract: bit_set(b, 6),
        half_carry: bit_set(b, 5),
        carry: bit_set(b, 4),
    }
}

/// The value of one 8-bit register.
pub open spec fn spec_get_register(m: MachineView, r: Register) -> u8 {
    match r {
        Register::ARegister => m.a,
        Register::BRegister => m.b,
        Register::CRegister => m.c,
        Register::DRegister => m.d,
        Register::ERegister => m.e,
        Register::HRegister => m.h,
        Register::LRegister => m.l,
    }
}

/// The machine with one 8-bit register replaced.
pub open spec fn spec_with_register(m: MachineView, r: Register, v: u8) -> MachineView {
    match r {
        Register::ARegister => MachineView { a: v, ..m },
        Register::BRegister => MachineView { b: v, ..m },
        Register::CRegister => MachineView { c: v, ..m },
        Register::DRegister => MachineView { d: v, ..m },
        Register::ERegister => MachineView { e: v, ..m },
        Register::HRegister => MachineView { h: v, ..m },
        Register::LRegister => MachineView { l: v, ..m },
    }
}

/// The AF pair: A concatenated with the packed flag byte.
pub open spec fn spec_af(m: MachineView) -> u16 {
    spec_word16(m.a, spec_flags_byte(m.flags))
}

/// The BC pair.
pub open spec fn spec_bc(m: MachineView) -> u16 {
    spec_word16(m.b, m.c)
}

/// The DE pair.
pub open spec fn spec_de(m: MachineView) -> u16 {
    spec_word16(m.d, m.e)
}

/// The HL pair.
pub open spec fn spec_hl(m: MachineView) -> u16 {
    spec_word16(m.h, m.l)
}

/// The machine with the AF pair replaced: A from the high byte, the
/// flags unpacked from the low byte.
pub open spec fn spec_with_af(m: MachineView, v: u16) -> MachineView {
    MachineView { a: spec_high_byte(v), flags: spec_flags_from_byte(spec_low_byte(v)), ..m }
}

/// The machine with the BC pair replaced.
pub open spec fn spec_with_bc(m: MachineView, v: u16) -> MachineView {
    MachineView { b: spec_high_byte(v), c: spec_low_byte(v), ..m }
}

/// The machine with the DE pair replaced.
pub open spec fn spec_with_de(m: MachineView, v: u16) -> MachineView {
    MachineView { d: spec_high_byte(v), e: spec_low_byte(v), ..m }
}

/// The machine with the HL pair replaced.
pub open spec fn spec_with_hl(m: MachineView, v: u16) -> MachineView {
    MachineView { h: spec_high_byte(v), l: spec_low_byte(v), ..m }
}

/// The machine with the flags replaced.
pub open spec fn spec_with_flags(m: MachineView, f: Flags) -> MachineView {
    MachineView { flags: f, ..m }
}

/// The machine with `t` cycles charged; the counter wraps at its width.
pub open spec fn spec_tick(m: MachineView, t: u8) -> MachineView {
    MachineView {
        cycles: if m.cycles + t > u64::MAX {
            (m.cycles + t - 0x1_0000_0000_0000_0000) as u64
        } else {
            (m.cycles + t) as u64
        },
        ..m
    }
}

/// A 16-bit value incremented with wrap-around.
pub open spec fn spec_inc16(v: u16) -> u16 {
    if v == 0xffff {
        0
    } else {
        (v + 1) as u16
    }
}

/// A 16-bit value decremented with wrap-around.
pub open spec fn spec_dec16(v: u16) -> u16 {
    if v == 0 {
        0xffff
    } else {
        (v - 1) as u16
    }
}

/// A 16-bit value displaced by the signed 8-bit offset `n`, wrapping at
/// the width; this is the target a relative jump lands on.
pub open spec fn spec_offset16(v: u16, n: i8) -> u16 {
    ((v + (n as u16)) % 0x10000) as u16
}

/// Whether branch condition `c` holds of the flags.
pub open spec fn spec_cond_holds(f: Flags, c: Cond) -> bool {
    match c {
        Cond::Zero => f.zero,
        Cond::NZero => !f.zero,
        Cond::Carry => f.carry,
        Cond::NCarry => !f.carry,
    }
}

/// The index of a named bit.
pub open spec fn spec_bit_number(b: Bit) -> u8 {
    match b {
        Bit::Bit0 => 0,
        Bit::Bit1 => 1,
        Bit::Bit2 => 2,
        Bit::Bit3 => 3,
        Bit::Bit4 => 4,
        Bit::Bit5 => 5,
        Bit::Bit6 => 6,
        Bit::Bit7 => 7,
    }
}

/// The fixed target address of a reset vector.
pub open spec fn spec_reset_target(r: ResetAddress) -> u16 {
    match r {
        ResetAddress::Reset00 => 0x00,
        ResetAddress::Reset08 => 0x08,
        ResetAddress::Reset10 => 0x10,
        ResetAddress::Reset18 => 0x18,
        ResetAddress::Reset20 => 0x20,
        ResetAddress::Reset28 => 0x28,
        ResetAddress::Reset30 => 0x30,
        ResetAddress::Reset38 => 0x38,
    }
}

/// What a read from `addr` yields: the byte, or the access error.
pub open spec fn spec_read_mem(m: MachineView, addr: u16) -> Result<u8, StepError> {
    if readable(addr) {
        Ok(read_byte(m, addr))
    } else {
        Err(StepError::Memory(MemoryAccessError::IllegalRead(addr)))
    }
}

/// What a write of `n` to `addr` does: the machine afterwards, and the
/// access error if the address is not writable (the machine is then
/// unchanged).
pub open spec fn spec_write_mem(m: MachineView, addr: u16, n: u8) -> (MachineView, Option<
    StepError,
>) {
    if writable(addr) {
        (write_byte(m, addr, n), None)
    } else {
        (m, Some(StepError::Memory(MemoryAccessError::IllegalWrite(addr))))
    }
}

/// A 16-bit read: the low byte from `addr`, the high byte from the next
/// address, which must not run past 0xFFFF.
pub open spec fn spec_read_mem16(m: MachineView, addr: u16) -> Result<u16, StepError> {
    match spec_read_mem(m, addr) {
        Err(e) => Err(e),
        Ok(l) => if addr == 0xffff {
            Err(StepError::Boundary(ArithmeticBoundaryError::AddressOverflow))
        } else {
            match spec_read_mem(m, (addr + 1) as u16) {
                Err(e) => Err(e),
                Ok(h) => Ok(spec_word16(h, l)),
            }
        },
    }
}

/// A 16-bit write: the low byte to `addr` first, then the high byte to
/// the next address. A failure after the first byte leaves that byte
/// written.
pub open spec fn spec_write_mem16(m: MachineView, addr: u16, nn: u16) -> (MachineView, Option<
    StepError,
>) {
    let (m1, e1) = spec_write_mem(m, addr, spec_low_byte(nn));
    if e1 is Some {
        (m1, e1)
    } else if addr == 0xffff {
        (m1, Some(StepError::Boundary(ArithmeticBoundaryError::AddressOverflow)))
    } else {
        spec_write_mem(m1, (addr + 1) as u16, spec_high_byte(nn))
    }
}

/// A push: the stack pointer moves down by two, then the word is written
/// at the new stack pointer, low byte at the lower address.
pub open spec fn spec_push16(m: MachineView, nn: u16) -> (MachineView, Option<StepError>) {
    if m.sp < 2 {
        (m, Some(StepError::Boundary(ArithmeticBoundaryError::StackOverflow)))
    } else {
        let target = (m.sp - 2) as u16;
        let (m1, e) = spec_write_mem16(m, target, nn);
        if e is Some {
            (m1, e)
        } else {
            (MachineView { sp: target, ..m1 }, None)
        }
    }
}

/// A pop: the word is read at the stack pointer, which then moves up by
/// two without leaving its range.
pub open spec fn spec_pop16(m: MachineView) -> (MachineView, Result<u16, StepError>) {
    match spec_read_mem16(m, m.sp) {
        Err(e) => (m, Err(e)),
        Ok(nn) => if m.sp >= 0xfffe {
            (m, Err(StepError::Boundary(ArithmeticBoundaryError::StackUnderflow)))
        } else {
            (MachineView { sp: (m.sp + 2) as u16, ..m }, Ok(nn))
        },
    }
}

/// ADD A,n: A takes the wrapped sum and all four flags are set from it.
pub open spec fn spec_add_a(m: MachineView, n: u8) -> MachineView {
    let (v, hc, c) = spec_add8(m.a, n);
    MachineView {
        a: v,
        flags: Flags { zero: v == 0, subtract: false, half_carry: hc, carry: c },
        ..m
    }
}

/// ADC A,n: the operand is pre-adjusted by the incoming carry, with an
/// operand of 0xFF under carry forcing the carry flag out.
pub open spec fn spec_adc_a(m: MachineView, n: u8) -> MachineView {
    let forced = m.flags.carry && n == 0xff;
    let n1 = if m.flags.carry {
        ((n + 1) % 256) as u8
    } else {
        n
    };
    let (v, hc, c) = spec_add8(m.a, n1);
    MachineView {
        a: v,
        flags: Flags { zero: v == 0, subtract: false, half_carry: hc, carry: forced || c },
        ..m
    }
}

/// SUB n: A takes the wrapped difference and all four flags are set.
pub open spec fn spec_sub_a(m: MachineView, n: u8) -> MachineView {
    let (v, hb, b) = spec_sub8(m.a, n);
    MachineView {
        a: v,
        flags: Flags { zero: v == 0, subtract: true, half_carry: hb, carry: b },
        ..m
    }
}

/// SBC A,n: the operand is pre-adjusted by the incoming carry, with an
/// operand of 0x00 under carry forcing the carry flag out.
pub open spec fn spec_sbc_a(m: MachineView, n: u8) -> MachineView {
    let forced = m.flags.carry && n == 0x00;
    let n1 = if m.flags.carry {
        ((n - 1) % 256) as u8
    } else {
        n
    };
    let (v, hb, b) = spec_sub8(m.a, n1);
    MachineView {
        a: v,
        flags: Flags { zero: v == 0, subtract: true, half_carry: hb, carry: forced || b },
        ..m
    }
}

/// AND n: HalfCarry is always set, Carry always cleared.
pub open spec fn spec_and_a(m: MachineView, n: u8) -> MachineView {
    let v = m.a & n;
    MachineView {
        a: v,
        flags: Flags { zero: v == 0, subtract: false, half_carry: true, carry: false },
        ..m
    }
}

/// OR n: HalfCarry and Carry are cleared.
pub open spec fn spec_or_a(m: MachineView, n: u8) -> MachineView {
    let v = m.a | n;
    MachineView {
        a: v,
        flags: Flags { zero: v == 0, subtract: false, half_carry: false, carry: false },
        ..m
    }
}

/// XOR n: HalfCarry and Carry are cleared.
pub open spec fn spec_xor_a(m: MachineView, n: u8) -> MachineView {
    let v = m.a ^ n;
    MachineView {
        a: v,
        flags: Flags { zero: v == 0, subtract: false, half_carry: false, carry: false },
        ..m
    }
}

/// CP n: a subtraction whose result is discarded; only flags change.
pub open spec fn spec_cp_a(m: MachineView, n: u8) -> MachineView {
    let (v, hb, b) = spec_sub8(m.a, n);
    MachineView {
        flags: Flags { zero: v == 0, subtract: true, half_carry: hb, carry: b },
        ..m
    }
}

/// ADD HL,nn: HL takes the wrapped sum; Zero is left unchanged.
pub open spec fn spec_add_hl(m: MachineView, nn: u16) -> MachineView {
    let (vv, hc, c) = spec_add16(spec_hl(m), nn);
    spec_with_flags(
        spec_with_hl(m, vv),
        Flags { zero: m.flags.zero, subtract: false, half_carry: hc, carry: c },
    )
}

/// A circular left rotate and the bit that came out of bit 7.
pub open spec fn spec_rotlc(b: u8) -> (u8, bool) {
    ((b << 1) | (b >> 7), bit_set(b, 7))
}

/// A left rotate through the carry flag.
pub open spec fn spec_rotl(b: u8, c: bool) -> (u8, bool) {
    (spec_set_bit(b << 1, 0, c), bit_set(b, 7))
}

/// A circular right rotate and the bit that came out of bit 0.
pub open spec fn spec_rotrc(b: u8) -> (u8, bool) {
    ((b >> 1) | (b << 7), bit_set(b, 0))
}

/// A right rotate through the carry flag.
pub open spec fn spec_rotr(b: u8, c: bool) -> (u8, bool) {
    (spec_set_bit(b >> 1, 7, c), bit_set(b, 0))
}

/// RLC on a register, with the rotate family's flag updates.
pub open spec fn spec_rlc_reg(m: MachineView, r: Register) -> MachineView {
    let (v, c) = spec_rotlc(spec_get_register(m, r));
    spec_with_flags(
        spec_with_register(m, r, v),
        Flags { zero: v == 0, subtract: false, half_carry: false, carry: c },
    )
}

/// RL on a register.
pub open spec fn spec_rl_reg(m: MachineView, r: Register) -> MachineView {
    let (v, c) = spec_rotl(spec_get_register(m, r), m.flags.carry);
    spec_with_flags(
        spec_with_register(m, r, v),
        Flags { zero: v == 0, subtract: false, half_carry: false, carry: c },
    )
}

/// RRC on a register.
pub open spec fn spec_rrc_reg(m: MachineView, r: Register) -> MachineView {
    let (v, c) = spec_rotrc(spec_get_register(m, r));
    spec_with_flags(
        spec_with_register(m, r, v),
        Flags { zero: v == 0, subtract: false, half_carry: false, carry: c },
    )
}

/// RR on a register.
pub open spec fn spec_rr_reg(m: MachineView, r: Register) -> MachineView {
    let (v, c) = spec_rotr(spec_get_register(m, r), m.flags.carry);
    spec_with_flags(
        spec_with_register(m, r, v),
        Flags { zero: v == 0, subtract: false, half_carry: false, carry: c },
    )
}

/// The two nibbles of a byte exchanged.
pub open spec fn spec_swap_nibbles(v: u8) -> u8 {
    (16 * (v % 16) + v / 16) as u8
}

/// DAA: the BCD correction of A, steered by the Subtract, HalfCarry and
/// Carry flags; the outgoing Carry records whether a 0x60 correction
/// fired.
pub open spec fn spec_daa(m: MachineView) -> MachineView {
    let a0 = m.a;
    let f = m.flags;
    let corr1: u8 = if f.half_carry {
        0x06
    } else {
        0
    };
    let corr2: u8 = if f.carry {
        corr1 | 0x60
    } else {
        corr1
    };
    if f.subtract {
        let a1 = ((a0 - corr2) % 256) as u8;
        MachineView {
            a: a1,
            flags: Flags {
                zero: a1 == 0,
                subtract: f.subtract,
                half_carry: false,
                carry: corr2 & 0x60 != 0,
            },
            ..m
        }
    } else {
        let corr3: u8 = if a0 & 0x0f > 0x09 {
            corr2 | 0x06
        } else {
            corr2
        };
        let corr4: u8 = if a0 > 0x99 {
            corr3 | 0x60
        } else {
            corr3
        };
        let a1 = ((a0 + corr4) % 256) as u8;
        MachineView {
            a: a1,
            flags: Flags {
                zero: a1 == 0,
                subtract: f.subtract,
                half_carry: false,
                carry: corr4 & 0x60 != 0,
            },
            ..m
        }
    }
}


impl Emulator {
    /// The value of one 8-bit register.
    pub fn get_register(&self, reg: Register) -> (v: u8)
        ensures
            v == spec_get_register(self@, reg),
    {
        match reg {
            Register::ARegister => self.a_register,
            Register::BRegister => self.b_register,
            Register::CRegister => self.c_register,
            Register::DRegister => self.d_register,
            Register::ERegister => self.e_register,
            Register::HRegister => self.h_register,
            Register::LRegister => self.l_register,
        }
    }

    /// Replace one 8-bit register.
    pub fn set_register(&mut self, reg: Register, val: u8)
        ensures
            final(self)@ == spec_with_register(old(self)@, reg, val),
    {
        match reg {
            Register::ARegister => self.a_register = val,
            Register::BRegister => self.b_register = val,
            Register::CRegister => self.c_register = val,
            Register::DRegister => self.d_register = val,
            Register::ERegister => self.e_register = val,
            Register::HRegister => self.h_register = val,
            Register::LRegister => self.l_register = val,
        }
    }

    /// The current flags.
    pub fn get_flags(&self) -> (f: Flags)
        ensures
            f == self@.flags,
    {
        self.flags
    }

    /// Replace the flags.
    pub fn set_flags(&mut self, flags: Flags)
        ensures
            final(self)@ == spec_with_flags(old(self)@, flags),
    {
        self.flags = flags;
    }

    /// The program counter.
    pub fn get_program_counter(&self) -> (pc: u16)
        ensures
            pc == self@.pc,
    {
        self.program_counter
    }

    /// Replace the program counter.
    pub fn set_program_counter(&mut self, pc: u16)
        ensures
            final(self)@ == (MachineView { pc: pc, ..old(self)@ }),
    {
        self.program_counter = pc;
    }

    /// The stack pointer.
    pub fn get_stack_pointer(&self) -> (sp: u16)
        ensures
            sp == self@.sp,
    {
        self.stack_pointer
    }

    /// Replace the stack pointer.
    pub fn set_stack_pointer(&mut self, sp: u16)
        ensures
            final(self)@ == (MachineView { sp: sp, ..old(self)@ }),
    {
        self.stack_pointer = sp;
    }

    /// Charge `count` clock cycles.
    pub fn tick(&mut self, count: u8)
        ensures
            final(self)@ == spec_tick(old(self)@, count),
    {
        self.cycle_count = self.cycle_count.wrapping_add(count as u64);
    }

    /// Enter the halted state.
    pub fn halt(&mut self)
        ensures
            final(self)@ == (MachineView { halted: true, ..old(self)@ }),
    {
        self.halted = true;
    }

    /// Enter the stopped state.
    pub fn stop(&mut self)
        ensures
            final(self)@ == (MachineView { stopped: true, ..old(self)@ }),
    {
        self.stopped = true;
    }

    /// Set the master interrupt-enable flag.
    pub fn set_interrupts_enabled(&mut self, enabled: bool)
        ensures
            final(self)@ == (MachineView { ime: enabled, ..old(self)@ }),
    {
        self.interrupt_master_enable = enabled;
    }
}

/// Read the 16-bit word at `addr`: low byte there, high byte at the
/// next address.
pub fn get_memory16(cpu: &Emulator, addr: u16) -> (r: Result<u16, StepError>)
    requires
        cpu@.wf(),
    ensures
        r == spec_read_mem16(cpu@, addr),
{
    let l = match cpu.get_memory(addr) {
        Ok(v) => v,
        Err(e) => return Err(StepError::Memory(e)),
    };
    let next = match addr.checked_add(1) {
        Some(a) => a,
        None => return Err(StepError::Boundary(ArithmeticBoundaryError::AddressOverflow)),
    };
    let h = match cpu.get_memory(next) {
        Ok(v) => v,
        Err(e) => return Err(StepError::Memory(e)),
    };
    Ok(make_word16(h, l))
}

/// Write the 16-bit word `nn` at `addr`: low byte there, high byte at
/// the next address.
pub fn set_memory16(cpu: &mut Emulator, addr: u16, nn: u16) -> (r: Result<(), StepError>)
    requires
        old(cpu)@.wf(),
    ensures
        final(cpu)@.wf(),
        ({
            let (m2, e) = spec_write_mem16(old(cpu)@, addr, nn);
            final(cpu)@ == m2 && (match r {
                Ok(_) => e is None,
                Err(err) => e == Some(err),
            })
        }),
{
    match cpu.set_memory(addr, low_byte(nn)) {
        Ok(_) => (),
        Err(e) => return Err(StepError::Memory(e)),
    };
    let next = match addr.checked_add(1) {
        Some(a) => a,
        None => return Err(StepError::Boundary(ArithmeticBoundaryError::AddressOverflow)),
    };
    match cpu.set_memory(next, high_byte(nn)) {
        Ok(_) => Ok(()),
        Err(e) => Err(StepError::Memory(e)),
    }
}

/// Push a 16-bit word: the stack pointer moves down by two, the word is
/// stored at the new stack pointer.
pub fn push_stack16(cpu: &mut Emulator, nn: u16) -> (r: Result<(), StepError>)
    requires
        old(cpu)@.wf(),
    ensures
        final(cpu)@.wf(),
        ({
            let (m2, e) = spec_push16(old(cpu)@, nn);
            final(cpu)@ == m2 && (match r {
                Ok(_) => e is None,
                Err(err) => e == Some(err),
            })
        }),
{
    let sp = cpu.get_stack_pointer();
    let sp_dec = match sp.checked_sub(2) {
        Some(v) => v,
        None => return Err(StepError::Boundary(ArithmeticBoundaryError::StackOverflow)),
    };
    match set_memory16(cpu, sp_dec, nn) {
        Ok(_) => (),
        Err(e) => return Err(e),
    };
    cpu.set_stack_pointer(sp_dec);
    Ok(())
}

/// Pop a 16-bit word: the word is read at the stack pointer, which then
/// moves up by two.
pub fn pop_stack16(cpu: &mut Emulator) -> (r: Result<u16, StepError>)
    requires
        old(cpu)@.wf(),
    ensures
        final(cpu)@.wf(),
        ({
            let (m2, rr) = spec_pop16(old(cpu)@);
            final(cpu)@ == m2 && r == rr
        }),
{
    let sp = cpu.get_stack_pointer();
    let nn = match get_memory16(cpu, sp) {
        Ok(v) => v,
        Err(e) => return Err(e),
    };
    let sp_inc = match sp.checked_add(2) {
        Some(v) => v,
        None => return Err(StepError::Boundary(ArithmeticBoundaryError::StackUnderflow)),
    };
    cpu.set_stack_pointer(sp_inc);
    Ok(nn)
}

/// The AF pair: A concatenated with the packed flag byte.
pub fn get_af(cpu: &Emulator) -> (r: u16)
    ensures
        r == spec_af(cpu@),
{
    let flags = cpu.get_flags();
    let mut f: u8 = 0;
    f = set_bit(f, 7, flags.zero);
    f = set_bit(f, 6, flags.subtract);
    f = set_bit(f, 5, flags.half_carry);
    f = set_bit(f, 4, flags.carry);
    make_word16(cpu.get_register(Register::ARegister), f)
}

/// The BC pair.
pub fn get_bc(cpu: &Emulator) -> (r: u16)
    ensures
        r == spec_bc(cpu@),
{
    make_word16(cpu.get_register(Register::BRegister), cpu.get_register(Register::CRegister))
}

/// The DE pair.
pub fn get_de(cpu: &Emulator) -> (r: u16)
    ensures
        r == spec_de(cpu@),
{
    make_word16(cpu.get_register(Register::DRegister), cpu.get_register(Register::ERegister))
}

/// The HL pair.
pub fn get_hl(cpu: &Emulator) -> (r: u16)
    ensures
        r == spec_hl(cpu@),
{
    make_word16(cpu.get_register(Register::HRegister), cpu.get_register(Register::LRegister))
}

/// Replace the AF pair: A from the high byte, the flags unpacked from
/// bits 7..4 of the low byte.
pub fn set_af(cpu: &mut Emulator, v: u16)
    ensures
        final(cpu)@ == spec_with_af(old(cpu)@, v),
{
    cpu.set_register(Register::ARegister, high_byte(v));
    let f = low_byte(v);
    cpu.set_flags(
        Flags {
            zero: get_bit(f, 7),
            subtract: get_bit(f, 6),
            half_carry: get_bit(f, 5),
            carry: get_bit(f, 4),
        },
    );
}

/// Replace the BC pair.
pub fn set_bc(cpu: &mut Emulator, v: u16)
    ensures
        final(cpu)@ == spec_with_bc(old(cpu)@, v),
{
    cpu.set_register(Register::BRegister, high_byte(v));
    cpu.set_register(Register::CRegister, low_byte(v));
}

/// Replace the DE pair.
pub fn set_de(cpu: &mut Emulator, v: u16)
    ensures
        final(cpu)@ == spec_with_de(old(cpu)@, v),
{
    cpu.set_register(Register::DRegister, high_byte(v));
    cpu.set_register(Register::ERegister, low_byte(v));
}

/// Replace the HL pair.
pub fn set_hl(cpu: &mut Emulator, v: u16)
    ensures
        final(cpu)@ == spec_with_hl(old(cpu)@, v),
{
    cpu.set_register(Register::HRegister, high_byte(v));
    cpu.set_register(Register::LRegister, low_byte(v));
}

/// The byte at the address held in BC.
pub fn get_atbc(cpu: &Emulator) -> (r: Result<u8, StepError>)
    requires
        cpu@.wf(),
    ensures
        r == spec_read_mem(cpu@, spec_bc(cpu@)),
{
    match cpu.get_memory(get_bc(cpu)) {
        Ok(v) => Ok(v),
        Err(e) => Err(StepError::Memory(e)),
    }
}

/// The byte at the address held in DE.
pub fn get_atde(cpu: &Emulator) -> (r: Result<u8, StepError>)
    requires
        cpu@.wf(),
    ensures
        r == spec_read_mem(cpu@, spec_de(cpu@)),
{
    match cpu.get_memory(get_de(cpu)) {
        Ok(v) => Ok(v),
        Err(e) => Err(StepError::Memory(e)),
    }
}

/// The byte at the address held in HL.
pub fn get_athl(cpu: &Emulator) -> (r: Result<u8, StepError>)
    requires
        cpu@.wf(),
    ensures
        r == spec_read_mem(cpu@, spec_hl(cpu@)),
{
    match cpu.get_memory(get_hl(cpu)) {
        Ok(v) => Ok(v),
        Err(e) => Err(StepError::Memory(e)),
    }
}

/// The byte at 0xFF00 plus the C register.
pub fn get_atc(cpu: &Emulator) -> (r: Result<u8, StepError>)
    requires
        cpu@.wf(),
    ensures
        r == spec_read_mem(cpu@, spec_word16(0xff, cpu@.c)),
{
    let c = cpu.get_register(Register::CRegister);
    match cpu.get_memory(make_word16(0xff, c)) {
        Ok(v) => Ok(v),
        Err(e) => Err(StepError::Memory(e)),
    }
}

/// Store a byte at the address held in BC.
pub fn set_atbc(cpu: &mut Emulator, v: u8) -> (r: Result<(), StepError>)
    requires
        old(cpu)@.wf(),
    ensures
        final(cpu)@.wf(),
        ({
            let (m2, e) = spec_write_mem(old(cpu)@, spec_bc(old(cpu)@), v);
            final(cpu)@ == m2 && (match r {
                Ok(_) => e is None,
                Err(err) => e == Some(err),
            })
        }),
{
    let bc = get_bc(cpu);
    match cpu.set_memory(bc, v) {
        Ok(_) => Ok(()),
        Err(e) => Err(StepError::Memory(e)),
    }
}

/// Store a byte at the address held in DE.
pub fn set_atde(cpu: &mut Emulator, v: u8) -> (r: Result<(), StepError>)
    requires
        old(cpu)@.wf(),
    ensures
        final(cpu)@.wf(),
        ({
            let (m2, e) = spec_write_mem(old(cpu)@, spec_de(old(cpu)@), v);
            final(cpu)@ == m2 && (match r {
                Ok(_) => e is None,
                Err(err) => e == Some(err),
            })
        }),
{
    let de = get_de(cpu);
    match cpu.set_memory(de, v) {
        Ok(_) => Ok(()),
        Err(e) => Err(StepError::Memory(e)),
    }
}

/// Store a byte at the address held in HL.
pub fn set_athl(cpu: &mut Emulator, v: u8) -> (r: Result<(), StepError>)
    requires
        old(cpu)@.wf(),
    ensures
        final(cpu)@.wf(),
        ({
            let (m2, e) = spec_write_mem(old(cpu)@, spec_hl(old(cpu)@), v);
            final(cpu)@ == m2 && (match r {
                Ok(_) => e is None,
                Err(err) => e == Some(err),
            })
        }),
{
    let hl = get_hl(cpu);
    match cpu.set_memory(hl, v) {
        Ok(_) => Ok(()),
        Err(e) => Err(StepError::Memory(e)),
    }
}

/// Store a byte at 0xFF00 plus the C register.
pub fn set_atc(cpu: &mut Emulator, v: u8) -> (r: Result<(), StepError>)
    requires
        old(cpu)@.wf(),
    ensures
        final(cpu)@.wf(),
        ({
            let (m2, e) = spec_write_mem(old(cpu)@, spec_word16(0xff, old(cpu)@.c), v);
            final(cpu)@ == m2 && (match r {
                Ok(_) => e is None,
                Err(err) => e == Some(err),
            })
        }),
{
    let c = cpu.get_register(Register::CRegister);
    let addr = make_word16(0xff, c);
    match cpu.set_memory(addr, v) {
        Ok(_) => Ok(()),
        Err(e) => Err(StepError::Memory(e)),
    }
}

/// Whether branch condition `c` holds of the current flags.
pub fn test_cond(cpu: &Emulator, c: Cond) -> (r: bool)
    ensures
        r == spec_cond_holds(cpu@.flags, c),
{
    let flags = cpu.get_flags();
    match c {
        Cond::Zero => flags.zero,
        Cond::NZero => !flags.zero,
        Cond::Carry => flags.carry,
        Cond::NCarry => !flags.carry,
    }
}

/// ADD A,n.
pub fn add_a(cpu: &mut Emulator, n: u8)
    ensures
        final(cpu)@ == spec_add_a(old(cpu)@, n),
{
    let v = cpu.get_register(Register::ARegister);
    let (v, h, c) = add8(v, n);
    cpu.set_register(Register::ARegister, v);

    let mut flags = cpu.get_flags();
    flags.zero = v == 0;
    flags.subtract = false;
    flags.half_carry = h;
    flags.carry = c;
    cpu.set_flags(flags);
}

/// ADC A,n: the operand is pre-adjusted by the incoming carry.
pub fn add_ca(cpu: &mut Emulator, n: u8)
    ensures
        final(cpu)@ == spec_adc_a(old(cpu)@, n),
{
    let v = cpu.get_register(Register::ARegister);
    let mut flags = cpu.get_flags();

    let mut n = n;
    let mut carry = false;
    if flags.carry {
        if n == 0xff {
            carry = true;
        }
        n = n.wrapping_add(1);
    }
    let (v, h, c) = add8(v, n);
    let carry = carry || c;

    cpu.set_register(Register::ARegister, v);

    flags.zero = v == 0;
    flags.subtract = false;
    flags.half_carry = h;
    flags.carry = carry;
    cpu.set_flags(flags);
}

/// SUB n.
pub fn sub_a(cpu: &mut Emulator, n: u8)
    ensures
        final(cpu)@ == spec_sub_a(old(cpu)@, n),
{
    let v = cpu.get_register(Register::ARegister);
    let (v, h, c) = sub8(v, n);
    cpu.set_register(Register::ARegister, v);

    let mut flags = cpu.get_flags();
    flags.zero = v == 0;
    flags.subtract = true;
    flags.half_carry = h;
    flags.carry = c;
    cpu.set_flags(flags);
}

/// SBC A,n: the operand is pre-adjusted by the incoming carry.
pub fn sub_ca(cpu: &mut Emulator, n: u8)
    ensures
        final(cpu)@ == spec_sbc_a(old(cpu)@, n),
{
    let v = cpu.get_register(Register::ARegister);
    let mut flags = cpu.get_flags();

    let mut n = n;
    let mut carry = false;
    if flags.carry {
        if n == 0x00 {
            carry = true;
        }
        n = n.wrapping_sub(1);
    }
    let (v, h, c) = sub8(v, n);
    let carry = carry || c;

    cpu.set_register(Register::ARegister, v);

    flags.zero = v == 0;
    flags.subtract = true;
    flags.half_carry = h;
    flags.carry = carry;
    cpu.set_flags(flags);
}

/// AND n.
pub fn do_and_a(cpu: &mut Emulator, n: u8)
    ensures
        final(cpu)@ == spec_and_a(old(cpu)@, n),
{
    let v = cpu.get_register(Register::ARegister);
    let v = v & n;
    cpu.set_register(Register::ARegister, v);

    let mut flags = cpu.get_flags();
    flags.zero = v == 0;
    flags.subtract = false;
    flags.half_carry = true;
    flags.carry = false;
    cpu.set_flags(flags);
}

/// OR n.
pub fn do_or_a(cpu: &mut Emulator, n: u8)
    ensures
        final(cpu)@ == spec_or_a(old(cpu)@, n),
{
    let v = cpu.get_register(Register::ARegister);
    let v = v | n;
    cpu.set_register(Register::ARegister, v);

    let mut flags = cpu.get_flags();
    flags.zero = v == 0;
    flags.subtract = false;
    flags.half_carry = false;
    flags.carry = false;
    cpu.set_flags(flags);
}

/// XOR n.
pub fn do_xor_a(cpu: &mut Emulator, n: u8)
    ensures
        final(cpu)@ == spec_xor_a(old(cpu)@, n),
{
    let v = cpu.get_register(Register::ARegister);
    let v = v ^ n;
    cpu.set_register(Register::ARegister, v);

    let mut flags = cpu.get_flags();
    flags.zero = v == 0;
    flags.subtract = false;
    flags.half_carry = false;
    flags.carry = false;
    cpu.set_flags(flags);
}

/// CP n: compare without storing the difference.
pub fn do_cp_a(cpu: &mut Emulator, n: u8)
    ensures
        final(cpu)@ == spec_cp_a(old(cpu)@, n),
{
    let v = cpu.get_register(Register::ARegister);
    let (v, h, c) = sub8(v, n);

    let mut flags = cpu.get_flags();
    flags.zero = v == 0;
    flags.subtract = true;
    flags.half_carry = h;
    flags.carry = c;
    cpu.set_flags(flags);
}

/// ADD HL,nn.
pub fn do_add_hl(cpu: &mut Emulator, nn: u16)
    ensures
        final(cpu)@ == spec_add_hl(old(cpu)@, nn),
{
    let vv = get_hl(cpu);
    let (vv, h, c) = add16(vv, nn);
    set_hl(cpu, vv);

    let mut flags = cpu.get_flags();
    flags.subtract = false;
    flags.half_carry = h;
    flags.carry = c;
    cpu.set_flags(flags);
}

/// A circular left rotate and the bit that came out of bit 7.
pub fn rotlc(b: u8) -> (r: (u8, bool))
    ensures
        r == spec_rotlc(b),
{
    ((b << 1) | (b >> 7), get_bit(b, 7))
}

/// A left rotate through the carry flag.
pub fn rotl(b: u8, c: bool) -> (r: (u8, bool))
    ensures
        r == spec_rotl(b, c),
{
    (set_bit(b << 1, 0, c), get_bit(b, 7))
}

/// A circular right rotate and the bit that came out of bit 0.
pub fn rotrc(b: u8) -> (r: (u8, bool))
    ensures
        r == spec_rotrc(b),
{
    ((b >> 1) | (b << 7), get_bit(b, 0))
}

/// A right rotate through the carry flag.
pub fn rotr(b: u8, c: bool) -> (r: (u8, bool))
    ensures
        r == spec_rotr(b, c),
{
    (set_bit(b >> 1, 7, c), get_bit(b, 0))
}

/// RLC on a register, with the rotate family's flag updates.
pub fn do_rlc(cpu: &mut Emulator, r: Register)
    ensures
        final(cpu)@ == spec_rlc_reg(old(cpu)@, r),
{
    let v = cpu.get_register(r);
    let (v, c) = rotlc(v);
    cpu.set_register(r, v);

    let mut flags = cpu.get_flags();
    flags.zero = v == 0;
    flags.subtract = false;
    flags.half_carry = false;
    flags.carry = c;
    cpu.set_flags(flags);
}

/// RL on a register.
pub fn do_rl(cpu: &mut Emulator, r: Register)
    ensures
        final(cpu)@ == spec_rl_reg(old(cpu)@, r),
{
    let v = cpu.get_register(r);
    let mut flags = cpu.get_flags();
    let (v, c) = rotl(v, flags.carry);
    cpu.set_register(r, v);

    flags.zero = v == 0;
    flags.subtract = false;
    flags.half_carry = false;
    flags.carry = c;
    cpu.set_flags(flags);
}

/// RRC on a register.
pub fn do_rrc(cpu: &mut Emulator, r: Register)
    ensures
        final(cpu)@ == spec_rrc_reg(old(cpu)@, r),
{
    let v = cpu.get_register(r);
    let (v, c) = rotrc(v);
    cpu.set_register(r, v);

    let mut flags = cpu.get_flags();
    flags.zero = v == 0;
    flags.subtract = false;
    flags.half_carry = false;
    flags.carry = c;
    cpu.set_flags(flags);
}

/// RR on a register.
pub fn do_rr(cpu: &mut Emulator, r: Register)
    ensures
        final(cpu)@ == spec_rr_reg(old(cpu)@, r),
{
    let v = cpu.get_register(r);
    let mut flags = cpu.get_flags();
    let (v, c) = rotr(v, flags.carry);
    cpu.set_register(r, v);

    flags.zero = v == 0;
    flags.subtract = false;
    flags.half_carry = false;
    flags.carry = c;
    cpu.set_flags(flags);
}

/// The index of a named bit.
pub fn bit_number(b: Bit) -> (r: u8)
    ensures
        r == spec_bit_number(b),
        r < 8,
{
    match b {
        Bit::Bit0 => 0,
        Bit::Bit1 => 1,
        Bit::Bit2 => 2,
        Bit::Bit3 => 3,
        Bit::Bit4 => 4,
        Bit::Bit5 => 5,
        Bit::Bit6 => 6,
        Bit::Bit7 => 7,
    }
}

/// A 16-bit value displaced by a signed 8-bit offset, wrapping at the
/// width.
pub fn offset16(v: u16, n: i8) -> (r: u16)
    ensures
        r == spec_offset16(v, n),
{
    v.wrapping_add(n as u16)
}

/// DAA: BCD-correct the accumulator by the flag-steered 0x06/0x60
/// correction.
pub fn do_daa(cpu: &mut Emulator)
    ensures
        final(cpu)@ == spec_daa(old(cpu)@),
{
    let mut a = cpu.get_register(Register::ARegister);
    let mut flags = cpu.get_flags();

    proof {
        assert(0u8 | 0x06u8 == 0x06u8 && 0u8 | 0x60u8 == 0x60u8 && 0x06u8 | 0x60u8 == 0x66u8)
            by (bit_vector);
    }
    let mut corr: u8 = 0;
    if flags.half_carry {
        corr = corr | 0x06;
    }
    if flags.carry {
        corr = corr | 0x60;
    }
    if flags.subtract {
        a = a.wrapping_sub(corr);
    } else {
        if a & 0x0f > 0x09 {
            corr = corr | 0x06;
        }
        if a > 0x99 {
            corr = corr | 0x60;
        }
        a = a.wrapping_add(corr);
    }

    cpu.set_register(Register::ARegister, a);

    flags.zero = a == 0;
    flags.half_carry = false;
    flags.carry = corr & 0x60 != 0;
    cpu.set_flags(flags);
}

/// The fixed target address of a reset vector.
pub fn reset_address(r: ResetAddress) -> (a: u16)
    ensures
        a == spec_reset_target(r),
{
    match r {
        ResetAddress::Reset00 => 0x00,
        ResetAddress::Reset08 => 0x08,
        ResetAddress::Reset10 => 0x10,
        ResetAddress::Reset18 => 0x18,
        ResetAddress::Reset20 => 0x20,
        ResetAddress::Reset28 => 0x28,
        ResetAddress::Reset30 => 0x30,
        ResetAddress::Reset38 => 0x38,
    }
}


/// Loading a register from memory: the register takes the byte read at
/// `addr`, or the read fails and nothing else changes.
pub open spec fn spec_load_reg_from(m: MachineView, r: Register, addr: u16) -> (MachineView, Option<
    StepError,
>) {
    match spec_read_mem(m, addr) {
        Ok(v) => (spec_with_register(m, r, v), None),
        Err(e) => (m, Some(e)),
    }
}

/// Storing `v` at the address in HL, then setting the flags `f`.
pub open spec fn spec_store_athl_flags(m: MachineView, v: u8, f: Flags) -> (MachineView, Option<
    StepError,
>) {
    let (m2, e) = spec_write_mem(m, spec_hl(m), v);
    if e is Some {
        (m2, e)
    } else {
        (spec_with_flags(m2, f), None)
    }
}

/// LDD A,(HL): A takes the byte at HL, then HL decrements.
pub open spec fn spec_ldd_a_athl(m: MachineView) -> (MachineView, Option<StepError>) {
    let hl = spec_hl(m);
    match spec_read_mem(m, hl) {
        Ok(v) => (spec_with_hl(spec_with_register(m, Register::ARegister, v), spec_dec16(hl)), None),
        Err(e) => (m, Some(e)),
    }
}

/// LDD (HL),A: the byte in A lands at HL, then HL decrements.
pub open spec fn spec_ldd_athl_a(m: MachineView) -> (MachineView, Option<StepError>) {
    let hl = spec_hl(m);
    let (m2, e) = spec_write_mem(m, hl, m.a);
    if e is Some {
        (m2, e)
    } else {
        (spec_with_hl(m2, spec_dec16(hl)), None)
    }
}

/// LDI A,(HL): A takes the byte at HL, then HL increments.
pub open spec fn spec_ldi_a_athl(m: MachineView) -> (MachineView, Option<StepError>) {
    let hl = spec_hl(m);
    match spec_read_mem(m, hl) {
        Ok(v) => (spec_with_hl(spec_with_register(m, Register::ARegister, v), spec_inc16(hl)), None),
        Err(e) => (m, Some(e)),
    }
}

/// LDI (HL),A: the byte in A lands at HL, then HL increments.
pub open spec fn spec_ldi_athl_a(m: MachineView) -> (MachineView, Option<StepError>) {
    let hl = spec_hl(m);
    let (m2, e) = spec_write_mem(m, hl, m.a);
    if e is Some {
        (m2, e)
    } else {
        (spec_with_hl(m2, spec_inc16(hl)), None)
    }
}

/// POP AF.
pub open spec fn spec_pop_af(m: MachineView) -> (MachineView, Option<StepError>) {
    let (m2, r) = spec_pop16(m);
    match r {
        Ok(nn) => (spec_with_af(m2, nn), None),
        Err(e) => (m2, Some(e)),
    }
}

/// POP BC.
pub open spec fn spec_pop_bc(m: MachineView) -> (MachineView, Option<StepError>) {
    let (m2, r) = spec_pop16(m);
    match r {
        Ok(nn) => (spec_with_bc(m2, nn), None),
        Err(e) => (m2, Some(e)),
    }
}

/// POP DE.
pub open spec fn spec_pop_de(m: MachineView) -> (MachineView, Option<StepError>) {
    let (m2, r) = spec_pop16(m);
    match r {
        Ok(nn) => (spec_with_de(m2, nn), None),
        Err(e) => (m2, Some(e)),
    }
}

/// POP HL.
pub open spec fn spec_pop_hl(m: MachineView) -> (MachineView, Option<StepError>) {
    let (m2, r) = spec_pop16(m);
    match r {
        Ok(nn) => (spec_with_hl(m2, nn), None),
        Err(e) => (m2, Some(e)),
    }
}

/// ADD A,(HL).
pub open spec fn spec_add_a_athl(m: MachineView) -> (MachineView, Option<StepError>) {
    match spec_read_mem(m, spec_hl(m)) {
        Ok(v) => (spec_add_a(m, v), None),
        Err(e) => (m, Some(e)),
    }
}

/// ADC A,(HL).
pub open spec fn spec_adc_a_athl(m: MachineView) -> (MachineView, Option<StepError>) {
    match spec_read_mem(m, spec_hl(m)) {
        Ok(v) => (spec_adc_a(m, v), None),
        Err(e) => (m, Some(e)),
    }
}

/// SUB (HL).
pub open spec fn spec_sub_a_athl(m: MachineView) -> (MachineView, Option<StepError>) {
    match spec_read_mem(m, spec_hl(m)) {
        Ok(v) => (spec_sub_a(m, v), None),
        Err(e) => (m, Some(e)),
    }
}

/// SBC A,(HL).
pub open spec fn spec_sbc_a_athl(m: MachineView) -> (MachineView, Option<StepError>) {
    match spec_read_mem(m, spec_hl(m)) {
        Ok(v) => (spec_sbc_a(m, v), None),
        Err(e) => (m, Some(e)),
    }
}

/// AND (HL).
pub open spec fn spec_and_a_athl(m: MachineView) -> (MachineView, Option<StepError>) {
    match spec_read_mem(m, spec_hl(m)) {
        Ok(v) => (spec_and_a(m, v), None),
        Err(e) => (m, Some(e)),
    }
}

/// OR (HL).
pub open spec fn spec_or_a_athl(m: MachineView) -> (MachineView, Option<StepError>) {
    match spec_read_mem(m, spec_hl(m)) {
        Ok(v) => (spec_or_a(m, v), None),
        Err(e) => (m, Some(e)),
    }
}

/// XOR (HL).
pub open spec fn spec_xor_a_athl(m: MachineView) -> (MachineView, Option<StepError>) {
    match spec_read_mem(m, spec_hl(m)) {
        Ok(v) => (spec_xor_a(m, v), None),
        Err(e) => (m, Some(e)),
    }
}

/// CP (HL).
pub open spec fn spec_cp_a_athl(m: MachineView) -> (MachineView, Option<StepError>) {
    match spec_read_mem(m, spec_hl(m)) {
        Ok(v) => (spec_cp_a(m, v), None),
        Err(e) => (m, Some(e)),
    }
}

/// INC on a register: Zero, Subtract and HalfCarry are set from the
/// increment; Carry is never touched.
pub open spec fn spec_inc_reg(m: MachineView, r: Register) -> MachineView {
    let (v, hc, _c) = spec_add8(spec_get_register(m, r), 1);
    spec_with_flags(
        spec_with_register(m, r, v),
        Flags { zero: v == 0, subtract: false, half_carry: hc, carry: m.flags.carry },
    )
}

/// DEC on a register: Carry is never touched.
pub open spec fn spec_dec_reg(m: MachineView, r: Register) -> MachineView {
    let (v, hb, _b) = spec_sub8(spec_get_register(m, r), 1);
    spec_with_flags(
        spec_with_register(m, r, v),
        Flags { zero: v == 0, subtract: true, half_carry: hb, carry: m.flags.carry },
    )
}

/// INC on the byte at HL.
pub open spec fn spec_inc_athl(m: MachineView) -> (MachineView, Option<StepError>) {
    match spec_read_mem(m, spec_hl(m)) {
        Err(e) => (m, Some(e)),
        Ok(v0) => {
            let (v, hc, _c) = spec_add8(v0, 1);
            spec_store_athl_flags(
                m,
                v,
                Flags { zero: v == 0, subtract: false, half_carry: hc, carry: m.flags.carry },
            )
        },
    }
}

/// DEC on the byte at HL.
pub open spec fn spec_dec_athl(m: MachineView) -> (MachineView, Option<StepError>) {
    match spec_read_mem(m, spec_hl(m)) {
        Err(e) => (m, Some(e)),
        Ok(v0) => {
            let (v, hb, _b) = spec_sub8(v0, 1);
            spec_store_athl_flags(
                m,
                v,
                Flags { zero: v == 0, subtract: true, half_carry: hb, carry: m.flags.carry },
            )
        },
    }
}

/// ADD SP,n: the signed offset is added to the stack pointer with the
/// 16-bit flag semantics; Zero is cleared.
pub open spec fn spec_add_sp_n(m: MachineView, n: i8) -> MachineView {
    let (sp, hc, c) = spec_add16(m.sp, n as u16);
    MachineView {
        sp: sp,
        flags: Flags { zero: false, subtract: false, half_carry: hc, carry: c },
        ..m
    }
}

/// SWAP on the byte at HL; the flags are untouched.
pub open spec fn spec_swap_athl(m: MachineView) -> (MachineView, Option<StepError>) {
    match spec_read_mem(m, spec_hl(m)) {
        Err(e) => (m, Some(e)),
        Ok(v0) => spec_write_mem(m, spec_hl(m), spec_swap_nibbles(v0)),
    }
}

/// CPL: A is complemented; Subtract and HalfCarry are set.
pub open spec fn spec_cpl(m: MachineView) -> MachineView {
    spec_with_flags(
        spec_with_register(m, Register::ARegister, !m.a),
        Flags { zero: m.flags.zero, subtract: true, half_carry: true, carry: m.flags.carry },
    )
}

/// CCF: the carry flips; Subtract and HalfCarry are cleared.
pub open spec fn spec_ccf(m: MachineView) -> MachineView {
    spec_with_flags(
        m,
        Flags { zero: m.flags.zero, subtract: false, half_carry: false, carry: !m.flags.carry },
    )
}

/// SCF: the carry is set; Subtract and HalfCarry are cleared.
pub open spec fn spec_scf(m: MachineView) -> MachineView {
    spec_with_flags(
        m,
        Flags { zero: m.flags.zero, subtract: false, half_carry: false, carry: true },
    )
}

/// RLC on the byte at HL.
pub open spec fn spec_rlc_athl(m: MachineView) -> (MachineView, Option<StepError>) {
    match spec_read_mem(m, spec_hl(m)) {
        Err(e) => (m, Some(e)),
        Ok(v0) => {
            let (v, c) = spec_rotlc(v0);
            spec_store_athl_flags(
                m,
                v,
                Flags { zero: v == 0, subtract: false, half_carry: false, carry: c },
            )
        },
    }
}

/// RL on the byte at HL.
pub open spec fn spec_rl_athl(m: MachineView) -> (MachineView, Option<StepError>) {
    match spec_read_mem(m, spec_hl(m)) {
        Err(e) => (m, Some(e)),
        Ok(v0) => {
            let (v, c) = spec_rotl(v0, m.flags.carry);
            spec_store_athl_flags(
                m,
                v,
                Flags { zero: v == 0, subtract: false, half_carry: false, carry: c },
            )
        },
    }
}

/// RRC on the byte at HL.
pub open spec fn spec_rrc_athl(m: MachineView) -> (MachineView, Option<StepError>) {
    match spec_read_mem(m, spec_hl(m)) {
        Err(e) => (m, Some(e)),
        Ok(v0) => {
            let (v, c) = spec_rotrc(v0);
            spec_store_athl_flags(
                m,
                v,
                Flags { zero: v == 0, subtract: false, half_carry: false, carry: c },
            )
        },
    }
}

/// RR on the byte at HL.
pub open spec fn spec_rr_athl(m: MachineView) -> (MachineView, Option<StepError>) {
    match spec_read_mem(m, spec_hl(m)) {
        Err(e) => (m, Some(e)),
        Ok(v0) => {
            let (v, c) = spec_rotr(v0, m.flags.carry);
            spec_store_athl_flags(
                m,
                v,
                Flags { zero: v == 0, subtract: false, half_carry: false, carry: c },
            )
        },
    }
}

/// SLA on a register: the sign bit feeds Carry, bit 0 fills with zero.
pub open spec fn spec_sla_reg(m: MachineView, r: Register) -> MachineView {
    let v0 = spec_get_register(m, r);
    let v = v0 << 1;
    spec_with_flags(
        spec_with_register(m, r, v),
        Flags { zero: v == 0, subtract: false, half_carry: false, carry: bit_set(v0, 7) },
    )
}

/// SRA on a register: an arithmetic right shift that preserves bit 7.
pub open spec fn spec_sra_reg(m: MachineView, r: Register) -> MachineView {
    let v0 = spec_get_register(m, r);
    let v = spec_set_bit(v0 >> 1, 7, bit_set(v0, 7));
    spec_with_flags(
        spec_with_register(m, r, v),
        Flags { zero: v == 0, subtract: false, half_carry: false, carry: bit_set(v0, 0) },
    )
}

/// SRL on a register: a logical right shift that clears bit 7.
pub open spec fn spec_srl_reg(m: MachineView, r: Register) -> MachineView {
    let v0 = spec_get_register(m, r);
    let v = v0 >> 1;
    spec_with_flags(
        spec_with_register(m, r, v),
        Flags { zero: v == 0, subtract: false, half_carry: false, carry: bit_set(v0, 0) },
    )
}

/// SLA on the byte at HL.
pub open spec fn spec_sla_athl(m: MachineView) -> (MachineView, Option<StepError>) {
    match spec_read_mem(m, spec_hl(m)) {
        Err(e) => (m, Some(e)),
        Ok(v0) => {
            let v = v0 << 1;
            spec_store_athl_flags(
                m,
                v,
                Flags { zero: v == 0, subtract: false, half_carry: false, carry: bit_set(v0, 7) },
            )
        },
    }
}

/// SRA on the byte at HL.
pub open spec fn spec_sra_athl(m: MachineView) -> (MachineView, Option<StepError>) {
    match spec_read_mem(m, spec_hl(m)) {
        Err(e) => (m, Some(e)),
        Ok(v0) => {
            let v = spec_set_bit(v0 >> 1, 7, bit_set(v0, 7));
            spec_store_athl_flags(
                m,
                v,
                Flags { zero: v == 0, subtract: false, half_carry: false, carry: bit_set(v0, 0) },
            )
        },
    }
}

/// SRL on the byte at HL.
pub open spec fn spec_srl_athl(m: MachineView) -> (MachineView, Option<StepError>) {
    match spec_read_mem(m, spec_hl(m)) {
        Err(e) => (m, Some(e)),
        Ok(v0) => {
            let v = v0 >> 1;
            spec_store_athl_flags(
                m,
                v,
                Flags { zero: v == 0, subtract: false, half_carry: false, carry: bit_set(v0, 0) },
            )
        },
    }
}

/// BIT b on a register: Zero reflects the complement of the tested bit;
/// Carry is untouched.
pub open spec fn spec_bit_test_reg(m: MachineView, b: Bit, r: Register) -> MachineView {
    let t = bit_set(spec_get_register(m, r), spec_bit_number(b));
    spec_with_flags(
        m,
        Flags { zero: !t, subtract: false, half_carry: true, carry: m.flags.carry },
    )
}

/// BIT b on the byte at HL.
pub open spec fn spec_bit_test_athl(m: MachineView, b: Bit) -> (MachineView, Option<StepError>) {
    match spec_read_mem(m, spec_hl(m)) {
        Err(e) => (m, Some(e)),
        Ok(v0) => {
            let t = bit_set(v0, spec_bit_number(b));
            (
                spec_with_flags(
                    m,
                    Flags { zero: !t, subtract: false, half_carry: true, carry: m.flags.carry },
                ),
                None,
            )
        },
    }
}

/// SET or RES b on a register; the flags are untouched.
pub open spec fn spec_set_res_reg(m: MachineView, b: Bit, r: Register, on: bool) -> MachineView {
    spec_with_register(m, r, spec_set_bit(spec_get_register(m, r), spec_bit_number(b), on))
}

/// SET or RES b on the byte at HL; the flags are untouched.
pub open spec fn spec_set_res_athl(m: MachineView, b: Bit, on: bool) -> (MachineView, Option<
    StepError,
>) {
    match spec_read_mem(m, spec_hl(m)) {
        Err(e) => (m, Some(e)),
        Ok(v0) => spec_write_mem(m, spec_hl(m), spec_set_bit(v0, spec_bit_number(b), on)),
    }
}

/// A call: the program counter, already past the whole encoded
/// instruction, is pushed, then control transfers to `target`.
pub open spec fn spec_call(m: MachineView, target: u16) -> (MachineView, Option<StepError>) {
    let (m2, e) = spec_push16(m, m.pc);
    if e is Some {
        (m2, e)
    } else {
        ((MachineView { pc: target, ..m2 }), None)
    }
}

/// A return: the program counter is popped off the stack.
pub open spec fn spec_ret(m: MachineView) -> (MachineView, Option<StepError>) {
    let (m2, r) = spec_pop16(m);
    match r {
        Ok(pc) => ((MachineView { pc: pc, ..m2 }), None),
        Err(e) => (m2, Some(e)),
    }
}

/// RETI: a return that also re-enables interrupts.
pub open spec fn spec_reti(m: MachineView) -> (MachineView, Option<StepError>) {
    let (m2, r) = spec_pop16(m);
    match r {
        Ok(pc) => ((MachineView { pc: pc, ime: true, ..m2 }), None),
        Err(e) => (m2, Some(e)),
    }
}

/// The transition one instruction makes: the machine afterwards, and the
/// failure if one occurred. A failing instruction keeps every effect it
/// applied before the failure, the cycle charge included.
pub open spec fn spec_execute(m: MachineView, instruction: Instruction) -> (MachineView, Option<
    StepError,
>) {
    match instruction {
        Instruction::LD_R_R(tr, sr) => {
            let m1 = spec_tick(m, 4);
            (spec_with_register(m1, tr, spec_get_register(m1, sr)), None)
        },
        Instruction::LD_R_N(tr, n) => (spec_with_register(spec_tick(m, 8), tr, n), None),
        Instruction::LD_R_ATHL(tr) => {
            let m1 = spec_tick(m, 8);
            spec_load_reg_from(m1, tr, spec_hl(m1))
        },
        Instruction::LD_ATHL_R(sr) => {
            let m1 = spec_tick(m, 8);
            spec_write_mem(m1, spec_hl(m1), spec_get_register(m1, sr))
        },
        Instruction::LD_ATHL_N(n) => {
            let m1 = spec_tick(m, 8);
            spec_write_mem(m1, spec_hl(m1), n)
        },
        Instruction::LD_A_ATC => {
            let m1 = spec_tick(m, 8);
            spec_load_reg_from(m1, Register::ARegister, spec_word16(0xff, m1.c))
        },
        Instruction::LD_A_ATBC => {
            let m1 = spec_tick(m, 8);
            spec_load_reg_from(m1, Register::ARegister, spec_bc(m1))
        },
        Instruction::LD_A_ATDE => {
            let m1 = spec_tick(m, 8);
            spec_load_reg_from(m1, Register::ARegister, spec_de(m1))
        },
        Instruction::LD_A_ATNN(nn) => spec_load_reg_from(
            spec_tick(m, 16),
            Register::ARegister,
            nn,
        ),
        Instruction::LD_ATC_A => {
            let m1 = spec_tick(m, 8);
            spec_write_mem(m1, spec_word16(0xff, m1.c), m1.a)
        },
        Instruction::LD_ATBC_A => {
            let m1 = spec_tick(m, 8);
            spec_write_mem(m1, spec_bc(m1), m1.a)
        },
        Instruction::LD_ATDE_A => {
            let m1 = spec_tick(m, 8);
            spec_write_mem(m1, spec_de(m1), m1.a)
        },
        Instruction::LD_ATNN_A(nn) => {
            let m1 = spec_tick(m, 16);
            spec_write_mem(m1, nn, m1.a)
        },
        Instruction::LDD_A_ATHL => spec_ldd_a_athl(spec_tick(m, 8)),
        Instruction::LDD_ATHL_A => spec_ldd_athl_a(spec_tick(m, 8)),
        Instruction::LDI_A_ATHL => spec_ldi_a_athl(spec_tick(m, 8)),
        Instruction::LDI_ATHL_A => spec_ldi_athl_a(spec_tick(m, 8)),
        Instruction::LDH_A_ATN(n) => spec_load_reg_from(
            spec_tick(m, 12),
            Register::ARegister,
            spec_word16(0xff, n),
        ),
        Instruction::LDH_ATN_A(n) => {
            let m1 = spec_tick(m, 12);
            spec_write_mem(m1, spec_word16(0xff, n), m1.a)
        },
        Instruction::LD_BC_NN(nn) => (spec_with_bc(spec_tick(m, 12), nn), None),
        Instruction::LD_DE_NN(nn) => (spec_with_de(spec_tick(m, 12), nn), None),
        Instruction::LD_HL_NN(nn) => (spec_with_hl(spec_tick(m, 12), nn), None),
        Instruction::LD_SP_NN(nn) => ((MachineView { sp: nn, ..spec_tick(m, 12) }), None),
        Instruction::LD_SP_HL => {
            let m1 = spec_tick(m, 8);
            ((MachineView { sp: spec_hl(m1), ..m1 }), None)
        },
        Instruction::LDHL_SP_N(n) => {
            let m1 = spec_tick(m, 12);
            let (v, hc, c) = spec_add16(m1.sp, n as u16);
            (
                spec_with_flags(
                    spec_with_hl(m1, v),
                    Flags { zero: false, subtract: false, half_carry: hc, carry: c },
                ),
                None,
            )
        },
        Instruction::LD_ATNN_SP(nn) => {
            let m1 = spec_tick(m, 20);
            spec_write_mem16(m1, nn, m1.sp)
        },
        Instruction::PUSH_AF => {
            let m1 = spec_tick(m, 16);
            spec_push16(m1, spec_af(m1))
        },
        Instruction::PUSH_BC => {
            let m1 = spec_tick(m, 16);
            spec_push16(m1, spec_bc(m1))
        },
        Instruction::PUSH_DE => {
            let m1 = spec_tick(m, 16);
            spec_push16(m1, spec_de(m1))
        },
        Instruction::PUSH_HL => {
            let m1 = spec_tick(m, 16);
            spec_push16(m1, spec_hl(m1))
        },
        Instruction::POP_AF => spec_pop_af(spec_tick(m, 12)),
        Instruction::POP_BC => spec_pop_bc(spec_tick(m, 12)),
        Instruction::POP_DE => spec_pop_de(spec_tick(m, 12)),
        Instruction::POP_HL => spec_pop_hl(spec_tick(m, 12)),
        Instruction::ADD_A_R(r) => {
            let m1 = spec_tick(m, 4);
            (spec_add_a(m1, spec_get_register(m1, r)), None)
        },
        Instruction::ADD_A_N(n) => (spec_add_a(spec_tick(m, 8), n), None),
        Instruction::ADD_A_ATHL => spec_add_a_athl(spec_tick(m, 8)),
        Instruction::ADC_A_R(r) => {
            let m1 = spec_tick(m, 4);
            (spec_adc_a(m1, spec_get_register(m1, r)), None)
        },
        Instruction::ADC_A_N(n) => (spec_adc_a(spec_tick(m, 8), n), None),
        Instruction::ADC_A_ATHL => spec_adc_a_athl(spec_tick(m, 8)),
        Instruction::SUB_R(r) => {
            let m1 = spec_tick(m, 4);
            (spec_sub_a(m1, spec_get_register(m1, r)), None)
        },
        Instruction::SUB_N(n) => (spec_sub_a(spec_tick(m, 8), n), None),
        Instruction::SUB_ATHL => spec_sub_a_athl(spec_tick(m, 8)),
        Instruction::SBC_A_R(r) => {
            let m1 = spec_tick(m, 4);
            (spec_sbc_a(m1, spec_get_register(m1, r)), None)
        },
        Instruction::SBC_A_N(n) => (spec_sbc_a(spec_tick(m, 8), n), None),
        Instruction::SBC_A_ATHL => spec_sbc_a_athl(spec_tick(m, 8)),
        Instruction::AND_R(r) => {
            let m1 = spec_tick(m, 4);
            (spec_and_a(m1, spec_get_register(m1, r)), None)
        },
        Instruction::AND_N(n) => (spec_and_a(spec_tick(m, 8), n), None),
        Instruction::AND_ATHL => spec_and_a_athl(spec_tick(m, 8)),
        Instruction::OR_R(r) => {
            let m1 = spec_tick(m, 4);
            (spec_or_a(m1, spec_get_register(m1, r)), None)
        },
        Instruction::OR_N(n) => (spec_or_a(spec_tick(m, 8), n), None),
        Instruction::OR_ATHL => spec_or_a_athl(spec_tick(m, 8)),
        Instruction::XOR_R(r) => {
            let m1 = spec_tick(m, 4);
            (spec_xor_a(m1, spec_get_register(m1, r)), None)
        },
        Instruction::XOR_N(n) => (spec_xor_a(spec_tick(m, 8), n), None),
        Instruction::XOR_ATHL => spec_xor_a_athl(spec_tick(m, 8)),
        Instruction::CP_R(r) => {
            let m1 = spec_tick(m, 4);
            (spec_cp_a(m1, spec_get_register(m1, r)), None)
        },
        Instruction::CP_N(n) => (spec_cp_a(spec_tick(m, 8), n), None),
        Instruction::CP_ATHL => spec_cp_a_athl(spec_tick(m, 8)),
        Instruction::INC_R(r) => (spec_inc_reg(spec_tick(m, 4), r), None),
        Instruction::INC_ATHL => spec_inc_athl(spec_tick(m, 12)),
        Instruction::DEC_R(r) => (spec_dec_reg(spec_tick(m, 4), r), None),
        Instruction::DEC_ATHL => spec_dec_athl(spec_tick(m, 12)),
        Instruction::ADD_HL_BC => {
            let m1 = spec_tick(m, 8);
            (spec_add_hl(m1, spec_bc(m1)), None)
        },
        Instruction::ADD_HL_DE => {
            let m1 = spec_tick(m, 8);
            (spec_add_hl(m1, spec_de(m1)), None)
        },
        Instruction::ADD_HL_HL => {
            let m1 = spec_tick(m, 8);
            (spec_add_hl(m1, spec_hl(m1)), None)
        },
        Instruction::ADD_HL_SP => {
            let m1 = spec_tick(m, 8);
            (spec_add_hl(m1, m1.sp), None)
        },
        Instruction::ADD_SP_N(n) => (spec_add_sp_n(spec_tick(m, 16), n), None),
        Instruction::INC_BC => {
            let m1 = spec_tick(m, 8);
            (spec_with_bc(m1, spec_inc16(spec_bc(m1))), None)
        },
        Instruction::INC_DE => {
            let m1 = spec_tick(m, 8);
            (spec_with_de(m1, spec_inc16(spec_de(m1))), None)
        },
        Instruction::INC_HL => {
            let m1 = spec_tick(m, 8);
            (spec_with_hl(m1, spec_inc16(spec_hl(m1))), None)
        },
        Instruction::INC_SP => {
            let m1 = spec_tick(m, 8);
            ((MachineView { sp: spec_inc16(m1.sp), ..m1 }), None)
        },
        Instruction::DEC_BC => {
            let m1 = spec_tick(m, 8);
            (spec_with_bc(m1, spec_dec16(spec_bc(m1))), None)
        },
        Instruction::DEC_DE => {
            let m1 = spec_tick(m, 8);
            (spec_with_de(m1, spec_dec16(spec_de(m1))), None)
        },
        Instruction::DEC_HL => {
            let m1 = spec_tick(m, 8);
            (spec_with_hl(m1, spec_dec16(spec_hl(m1))), None)
        },
        Instruction::DEC_SP => {
            let m1 = spec_tick(m, 8);
            ((MachineView { sp: spec_dec16(m1.sp), ..m1 }), None)
        },
        Instruction::SWAP_R(r) => {
            let m1 = spec_tick(m, 8);
            (spec_with_register(m1, r, spec_swap_nibbles(spec_get_register(m1, r))), None)
        },
        Instruction::SWAP_ATHL => spec_swap_athl(spec_tick(m, 16)),
        Instruction::DAA => (spec_daa(spec_tick(m, 4)), None),
        Instruction::CPL => (spec_cpl(spec_tick(m, 4)), None),
        Instruction::CCF => (spec_ccf(spec_tick(m, 4)), None),
        Instruction::SCF => (spec_scf(spec_tick(m, 4)), None),
        Instruction::NOP => (spec_tick(m, 4), None),
        Instruction::HALT => ((MachineView { halted: true, ..spec_tick(m, 4) }), None),
        Instruction::STOP => ((MachineView { stopped: true, ..spec_tick(m, 4) }), None),
        Instruction::DI => ((MachineView { ime: false, ..spec_tick(m, 4) }), None),
        Instruction::EI => ((MachineView { ime: true, ..spec_tick(m, 4) }), None),
        Instruction::RLCA => (spec_rlc_reg(spec_tick(m, 4), Register::ARegister), None),
        Instruction::RLA => (spec_rl_reg(spec_tick(m, 4), Register::ARegister), None),
        Instruction::RRCA => (spec_rrc_reg(spec_tick(m, 4), Register::ARegister), None),
        Instruction::RRA => (spec_rr_reg(spec_tick(m, 4), Register::ARegister), None),
        Instruction::RLC_R(r) => (spec_rlc_reg(spec_tick(m, 8), r), None),
        Instruction::RLC_ATHL => spec_rlc_athl(spec_tick(m, 16)),
        Instruction::RL_R(r) => (spec_rl_reg(spec_tick(m, 8), r), None),
        Instruction::RL_ATHL => spec_rl_athl(spec_tick(m, 16)),
        Instruction::RRC_R(r) => (spec_rrc_reg(spec_tick(m, 8), r), None),
        Instruction::RRC_ATHL => spec_rrc_athl(spec_tick(m, 16)),
        Instruction::RR_R(r) => (spec_rr_reg(spec_tick(m, 8), r), None),
        Instruction::RR_ATHL => spec_rr_athl(spec_tick(m, 16)),
        Instruction::SLA_R(r) => (spec_sla_reg(spec_tick(m, 8), r), None),
        Instruction::SLA_ATHL => spec_sla_athl(spec_tick(m, 16)),
        Instruction::SRA_R(r) => (spec_sra_reg(spec_tick(m, 8), r), None),
        Instruction::SRA_ATHL => spec_sra_athl(spec_tick(m, 16)),
        Instruction::SRL_R(r) => (spec_srl_reg(spec_tick(m, 8), r), None),
        Instruction::SRL_ATHL => spec_srl_athl(spec_tick(m, 16)),
        Instruction::BIT_B_R(b, r) => (spec_bit_test_reg(spec_tick(m, 8), b, r), None),
        Instruction::BIT_B_ATHL(b) => spec_bit_test_athl(spec_tick(m, 16), b),
        Instruction::SET_B_R(b, r) => (spec_set_res_reg(spec_tick(m, 8), b, r, true), None),
        Instruction::SET_B_ATHL(b) => spec_set_res_athl(spec_tick(m, 16), b, true),
        Instruction::RES_B_R(b, r) => (spec_set_res_reg(spec_tick(m, 8), b, r, false), None),
        Instruction::RES_B_ATHL(b) => spec_set_res_athl(spec_tick(m, 16), b, false),
        Instruction::JP_NN(nn) => ((MachineView { pc: nn, ..spec_tick(m, 12) }), None),
        Instruction::JP_C_NN(c, nn) => {
            let m1 = spec_tick(m, 12);
            if spec_cond_holds(m1.flags, c) {
                ((MachineView { pc: nn, ..m1 }), None)
            } else {
                (m1, None)
            }
        },
        Instruction::JP_ATHL => {
            let m1 = spec_tick(m, 4);
            ((MachineView { pc: spec_hl(m1), ..m1 }), None)
        },
        Instruction::JR_N(n) => {
            let m1 = spec_tick(m, 8);
            ((MachineView { pc: spec_offset16(m1.pc, n), ..m1 }), None)
        },
        Instruction::JR_C_N(c, n) => {
            let m1 = spec_tick(m, 8);
            if spec_cond_holds(m1.flags, c) {
                ((MachineView { pc: spec_offset16(m1.pc, n), ..m1 }), None)
            } else {
                (m1, None)
            }
        },
        Instruction::CALL_NN(nn) => spec_call(spec_tick(m, 12), nn),
        Instruction::CALL_C_NN(c, nn) => {
            let m1 = spec_tick(m, 12);
            if spec_cond_holds(m1.flags, c) {
                spec_call(m1, nn)
            } else {
                (m1, None)
            }
        },
        Instruction::RST_RA(ra) => {
            let m1 = spec_tick(m, 32);
            spec_call(m1, spec_reset_target(ra))
        },
        Instruction::RET => spec_ret(spec_tick(m, 8)),
        Instruction::RET_C(c) => {
            let m1 = spec_tick(m, 8);
            if spec_cond_holds(m1.flags, c) {
                spec_ret(m1)
            } else {
                (m1, None)
            }
        },
        Instruction::RETI => spec_reti(spec_tick(m, 8)),
    }
}


/// Interpret one decoded instruction against the machine: registers,
/// flags, memory, program counter and stack pointer change as the
/// instruction prescribes, and its fixed cycle cost is charged whether
/// or not it fails part-way.
pub fn execute(cpu: &mut Emulator, instruction: Instruction) -> (r: Result<(), StepError>)
    requires
        old(cpu)@.wf(),
    ensures
        final(cpu)@.wf(),
        ({
            let (m2, e) = spec_execute(old(cpu)@, instruction);
            final(cpu)@ == m2 && (match r {
                Ok(_) => e is None,
                Err(err) => e == Some(err),
            })
        }),
{
    match instruction {
        Instruction::LD_R_R(..) | Instruction::LD_R_N(..) |
        Instruction::LD_R_ATHL(..) | Instruction::LD_ATHL_R(..) |
        Instruction::LD_ATHL_N(..) => execute_load_register(cpu, instruction),
        Instruction::LD_A_ATC | Instruction::LD_A_ATBC | Instruction::LD_A_ATDE |
        Instruction::LD_A_ATNN(..) | Instruction::LD_ATC_A | Instruction::LD_ATBC_A |
        Instruction::LD_ATDE_A | Instruction::LD_ATNN_A(..) => execute_load_accumulator(cpu, instruction),
        Instruction::LDD_A_ATHL | Instruction::LDD_ATHL_A | Instruction::LDI_A_ATHL |
        Instruction::LDI_ATHL_A | Instruction::LDH_A_ATN(..) |
        Instruction::LDH_ATN_A(..) => execute_load_stepping(cpu, instruction),
        Instruction::LD_BC_NN(..) | Instruction::LD_DE_NN(..) |
        Instruction::LD_HL_NN(..) | Instruction::LD_SP_NN(..) | Instruction::LD_SP_HL |
        Instruction::LDHL_SP_N(..) | Instruction::LD_ATNN_SP(..) => execute_load_wide(cpu, instruction),
        Instruction::PUSH_AF | Instruction::PUSH_BC | Instruction::PUSH_DE |
        Instruction::PUSH_HL => execute_push(cpu, instruction),
        Instruction::POP_AF | Instruction::POP_BC | Instruction::POP_DE |
        Instruction::POP_HL => execute_pop(cpu, instruction),
        Instruction::ADD_A_R(..) | Instruction::ADD_A_N(..) | Instruction::ADD_A_ATHL |
        Instruction::ADC_A_R(..) | Instruction::ADC_A_N(..) | Instruction::ADC_A_ATHL => execute_add8(cpu, instruction),
        Instruction::SUB_R(..) | Instruction::SUB_N(..) | Instruction::SUB_ATHL |
        Instruction::SBC_A_R(..) | Instruction::SBC_A_N(..) | Instruction::SBC_A_ATHL => execute_sub8(cpu, instruction),
        Instruction::AND_R(..) | Instruction::AND_N(..) | Instruction::AND_ATHL |
        Instruction::OR_R(..) | Instruction::OR_N(..) | Instruction::OR_ATHL => execute_and_or(cpu, instruction),
        Instruction::XOR_R(..) | Instruction::XOR_N(..) | Instruction::XOR_ATHL |
        Instruction::CP_R(..) | Instruction::CP_N(..) | Instruction::CP_ATHL => execute_xor_compare(cpu, instruction),
        Instruction::INC_R(..) | Instruction::INC_ATHL | Instruction::DEC_R(..) |
        Instruction::DEC_ATHL => execute_inc_dec8(cpu, instruction),
        Instruction::ADD_HL_BC | Instruction::ADD_HL_DE | Instruction::ADD_HL_HL |
        Instruction::ADD_HL_SP | Instruction::ADD_SP_N(..) => execute_add16(cpu, instruction),
        Instruction::INC_BC | Instruction::INC_DE | Instruction::INC_HL |
        Instruction::INC_SP | Instruction::DEC_BC | Instruction::DEC_DE |
        Instruction::DEC_HL | Instruction::DEC_SP => execute_inc_dec16(cpu, instruction),
        Instruction::SWAP_R(..) | Instruction::SWAP_ATHL | Instruction::DAA |
        Instruction::CPL | Instruction::CCF | Instruction::SCF => execute_accumulator_misc(cpu, instruction),
        Instruction::NOP | Instruction::HALT | Instruction::STOP | Instruction::DI |
        Instruction::EI => execute_system(cpu, instruction),
        Instruction::RLCA | Instruction::RLA | Instruction::RRCA | Instruction::RRA => execute_rotate_accumulator(cpu, instruction),
        Instruction::RLC_R(..) | Instruction::RLC_ATHL | Instruction::RL_R(..) |
        Instruction::RL_ATHL | Instruction::RRC_R(..) | Instruction::RRC_ATHL |
        Instruction::RR_R(..) | Instruction::RR_ATHL => execute_rotate(cpu, instruction),
        Instruction::SLA_R(..) | Instruction::SLA_ATHL | Instruction::SRA_R(..) |
        Instruction::SRA_ATHL | Instruction::SRL_R(..) | Instruction::SRL_ATHL => execute_shift(cpu, instruction),
        Instruction::BIT_B_R(..) | Instruction::BIT_B_ATHL(..) |
        Instruction::SET_B_R(..) | Instruction::SET_B_ATHL(..) |
        Instruction::RES_B_R(..) | Instruction::RES_B_ATHL(..) => execute_bit_ops(cpu, instruction),
        Instruction::JP_NN(..) | Instruction::JP_C_NN(..) | Instruction::JP_ATHL |
        Instruction::JR_N(..) | Instruction::JR_C_N(..) => execute_jump(cpu, instruction),
        Instruction::CALL_NN(..) | Instruction::CALL_C_NN(..) |
        Instruction::RST_RA(..) | Instruction::RET | Instruction::RET_C(..) |
        Instruction::RETI => execute_call_return(cpu, instruction),
    }
}

/// Interpret one instruction of the register-to-register and register/(HL) load family.
#[verifier::rlimit(100)]
fn execute_load_register(cpu: &mut Emulator, instruction: Instruction) -> (r: Result<(), StepError>)
    requires
        old(cpu)@.wf(),
        (            instruction is LD_R_R || instruction is LD_R_N || instruction is LD_R_ATHL ||
            instruction is LD_ATHL_R || instruction is LD_ATHL_N),
    ensures
        final(cpu)@.wf(),
        ({
            let (m2, e) = spec_execute(old(cpu)@, instruction);
            final(cpu)@ == m2 && (match r {
                Ok(_) => e is None,
                Err(err) => e == Some(err),
            })
        }),
{
    match instruction {
        Instruction::LD_R_R(tr, sr) => {
            cpu.tick(4);
            let sv = cpu.get_register(sr);
            cpu.set_register(tr, sv);
            Ok(())
        },
        Instruction::LD_R_N(tr, n) => {
            cpu.tick(8);
            cpu.set_register(tr, n);
            Ok(())
        },
        Instruction::LD_R_ATHL(tr) => {
            cpu.tick(8);
            let v = match get_athl(cpu) {
                Ok(v) => v,
                Err(e) => return Err(e),
            };
            cpu.set_register(tr, v);
            Ok(())
        },
        Instruction::LD_ATHL_R(sr) => {
            cpu.tick(8);
            let v = cpu.get_register(sr);
            set_athl(cpu, v)
        },
        Instruction::LD_ATHL_N(n) => {
            cpu.tick(8);
            set_athl(cpu, n)
        },
        _ => unreached(),
    }
}

/// Interpret one instruction of the accumulator loads through BC, DE, 0xFF00+C and absolute addresses.
#[verifier::rlimit(100)]
fn execute_load_accumulator(cpu: &mut Emulator, instruction: Instruction) -> (r: Result<(), StepError>)
    requires
        old(cpu)@.wf(),
        (            instruction is LD_A_ATC || instruction is LD_A_ATBC || instruction is LD_A_ATDE ||
            instruction is LD_A_ATNN || instruction is LD_ATC_A || instruction is LD_ATBC_A ||
            instruction is LD_ATDE_A || instruction is LD_ATNN_A),
    ensures
        final(cpu)@.wf(),
        ({
            let (m2, e) = spec_execute(old(cpu)@, instruction);
            final(cpu)@ == m2 && (match r {
                Ok(_) => e is None,
                Err(err) => e == Some(err),
            })
        }),
{
    match instruction {
        Instruction::LD_A_ATC => {
            cpu.tick(8);
            let v = match get_atc(cpu) {
                Ok(v) => v,
                Err(e) => return Err(e),
            };
            cpu.set_register(Register::ARegister, v);
            Ok(())
        },
        Instruction::LD_A_ATBC => {
            cpu.tick(8);
            let v = match get_atbc(cpu) {
                Ok(v) => v,
                Err(e) => return Err(e),
            };
            cpu.set_register(Register::ARegister, v);
            Ok(())
        },
        Instruction::LD_A_ATDE => {
            cpu.tick(8);
            let v = match get_atde(cpu) {
                Ok(v) => v,
                Err(e) => return Err(e),
            };
            cpu.set_register(Register::ARegister, v);
            Ok(())
        },
        Instruction::LD_A_ATNN(nn) => {
            cpu.tick(16);
            let v = match cpu.get_memory(nn) {
                Ok(v) => v,
                Err(e) => return Err(StepError::Memory(e)),
            };
            cpu.set_register(Register::ARegister, v);
            Ok(())
        },
        Instruction::LD_ATC_A => {
            cpu.tick(8);
            let v = cpu.get_register(Register::ARegister);
            set_atc(cpu, v)
        },
        Instruction::LD_ATBC_A => {
            cpu.tick(8);
            let v = cpu.get_register(Register::ARegister);
            set_atbc(cpu, v)
        },
        Instruction::LD_ATDE_A => {
            cpu.tick(8);
            let v = cpu.get_register(Register::ARegister);
            set_atde(cpu, v)
        },
        Instruction::LD_ATNN_A(nn) => {
            cpu.tick(16);
            let v = cpu.get_register(Register::ARegister);
            match cpu.set_memory(nn, v) {
                Ok(_) => Ok(()),
                Err(e) => Err(StepError::Memory(e)),
            }
        },
        _ => unreached(),
    }
}

/// Interpret one instruction of the post-decrement, post-increment and high-page loads.
#[verifier::rlimit(100)]
fn execute_load_stepping(cpu: &mut Emulator, instruction: Instruction) -> (r: Result<(), StepError>)
    requires
        old(cpu)@.wf(),
        (            instruction is LDD_A_ATHL || instruction is LDD_ATHL_A ||
            instruction is LDI_A_ATHL || instruction is LDI_ATHL_A ||
            instruction is LDH_A_ATN || instruction is LDH_ATN_A),
    ensures
        final(cpu)@.wf(),
        ({
            let (m2, e) = spec_execute(old(cpu)@, instruction);
            final(cpu)@ == m2 && (match r {
                Ok(_) => e is None,
                Err(err) => e == Some(err),
            })
        }),
{
    match instruction {
        Instruction::LDD_A_ATHL => {
            cpu.tick(8);
            let hl = get_hl(cpu);
            let v = match cpu.get_memory(hl) {
                Ok(v) => v,
                Err(e) => return Err(StepError::Memory(e)),
            };
            cpu.set_register(Register::ARegister, v);
            set_hl(cpu, hl.wrapping_sub(1));
            Ok(())
        },
        Instruction::LDD_ATHL_A => {
            cpu.tick(8);
            let hl = get_hl(cpu);
            let v = cpu.get_register(Register::ARegister);
            match cpu.set_memory(hl, v) {
                Ok(_) => (),
                Err(e) => return Err(StepError::Memory(e)),
            };
            set_hl(cpu, hl.wrapping_sub(1));
            Ok(())
        },
        Instruction::LDI_A_ATHL => {
            cpu.tick(8);
            let hl = get_hl(cpu);
            let v = match cpu.get_memory(hl) {
                Ok(v) => v,
                Err(e) => return Err(StepError::Memory(e)),
            };
            cpu.set_register(Register::ARegister, v);
            set_hl(cpu, hl.wrapping_add(1));
            Ok(())
        },
        Instruction::LDI_ATHL_A => {
            cpu.tick(8);
            let hl = get_hl(cpu);
            let v = cpu.get_register(Register::ARegister);
            match cpu.set_memory(hl, v) {
                Ok(_) => (),
                Err(e) => return Err(StepError::Memory(e)),
            };
            set_hl(cpu, hl.wrapping_add(1));
            Ok(())
        },
        Instruction::LDH_A_ATN(n) => {
            cpu.tick(12);
            let v = match cpu.get_memory(make_word16(0xff, n)) {
                Ok(v) => v,
                Err(e) => return Err(StepError::Memory(e)),
            };
            cpu.set_register(Register::ARegister, v);
            Ok(())
        },
        Instruction::LDH_ATN_A(n) => {
            cpu.tick(12);
            let v = cpu.get_register(Register::ARegister);
            let addr = make_word16(0xff, n);
            match cpu.set_memory(addr, v) {
                Ok(_) => Ok(()),
                Err(e) => Err(StepError::Memory(e)),
            }
        },
        _ => unreached(),
    }
}

/// Interpret one instruction of the 16-bit immediate loads and the stack-pointer loads.
#[verifier::rlimit(100)]
fn execute_load_wide(cpu: &mut Emulator, instruction: Instruction) -> (r: Result<(), StepError>)
    requires
        old(cpu)@.wf(),
        (            instruction is LD_BC_NN || instruction is LD_DE_NN || instruction is LD_HL_NN ||
            instruction is LD_SP_NN || instruction is LD_SP_HL || instruction is LDHL_SP_N ||
            instruction is LD_ATNN_SP),
    ensures
        final(cpu)@.wf(),
        ({
            let (m2, e) = spec_execute(old(cpu)@, instruction);
            final(cpu)@ == m2 && (match r {
                Ok(_) => e is None,
                Err(err) => e == Some(err),
            })
        }),
{
    match instruction {
        Instruction::LD_BC_NN(nn) => {
            cpu.tick(12);
            set_bc(cpu, nn);
            Ok(())
        },
        Instruction::LD_DE_NN(nn) => {
            cpu.tick(12);
            set_de(cpu, nn);
            Ok(())
        },
        Instruction::LD_HL_NN(nn) => {
            cpu.tick(12);
            set_hl(cpu, nn);
            Ok(())
        },
        Instruction::LD_SP_NN(nn) => {
            cpu.tick(12);
            cpu.set_stack_pointer(nn);
            Ok(())
        },
        Instruction::LD_SP_HL => {
            cpu.tick(8);
            let hl = get_hl(cpu);
            cpu.set_stack_pointer(hl);
            Ok(())
        },
        Instruction::LDHL_SP_N(n) => {
            cpu.tick(12);
            let sp = cpu.get_stack_pointer();
            let (v, h, c) = add16(sp, n as u16);
            set_hl(cpu, v);

            let mut flags = cpu.get_flags();
            flags.zero = false;
            flags.subtract = false;
            flags.half_carry = h;
            flags.carry = c;
            cpu.set_flags(flags);
            Ok(())
        },
        Instruction::LD_ATNN_SP(nn) => {
            cpu.tick(20);
            let sp = cpu.get_stack_pointer();
            set_memory16(cpu, nn, sp)
        },
        _ => unreached(),
    }
}

/// Interpret one instruction of the pushes of the four register pairs.
#[verifier::rlimit(100)]
fn execute_push(cpu: &mut Emulator, instruction: Instruction) -> (r: Result<(), StepError>)
    requires
        old(cpu)@.wf(),
        (            instruction is PUSH_AF || instruction is PUSH_BC || instruction is PUSH_DE ||
            instruction is PUSH_HL),
    ensures
        final(cpu)@.wf(),
        ({
            let (m2, e) = spec_execute(old(cpu)@, instruction);
            final(cpu)@ == m2 && (match r {
                Ok(_) => e is None,
                Err(err) => e == Some(err),
            })
        }),
{
    match instruction {
        Instruction::PUSH_AF => {
            cpu.tick(16);
            let af = get_af(cpu);
            push_stack16(cpu, af)
        },
        Instruction::PUSH_BC => {
            cpu.tick(16);
            let bc = get_bc(cpu);
            push_stack16(cpu, bc)
        },
        Instruction::PUSH_DE => {
            cpu.tick(16);
            let de = get_de(cpu);
            push_stack16(cpu, de)
        },
        Instruction::PUSH_HL => {
            cpu.tick(16);
            let hl = get_hl(cpu);
            push_stack16(cpu, hl)
        },
        _ => unreached(),
    }
}

/// Interpret one instruction of the pops into the four register pairs.
#[verifier::rlimit(100)]
fn execute_pop(cpu: &mut Emulator, instruction: Instruction) -> (r: Result<(), StepError>)
    requires
        old(cpu)@.wf(),
        (            instruction is POP_AF || instruction is POP_BC || instruction is POP_DE ||
            instruction is POP_HL),
    ensures
        final(cpu)@.wf(),
        ({
            let (m2, e) = spec_execute(old(cpu)@, instruction);
            final(cpu)@ == m2 && (match r {
                Ok(_) => e is None,
                Err(err) => e == Some(err),
            })
        }),
{
    match instruction {
        Instruction::POP_AF => {
            cpu.tick(12);
            let nn = match pop_stack16(cpu) {
                Ok(v) => v,
                Err(e) => return Err(e),
            };
            set_af(cpu, nn);
            Ok(())
        },
        Instruction::POP_BC => {
            cpu.tick(12);
            let nn = match pop_stack16(cpu) {
                Ok(v) => v,
                Err(e) => return Err(e),
            };
            set_bc(cpu, nn);
            Ok(())
        },
        Instruction::POP_DE => {
            cpu.tick(12);
            let nn = match pop_stack16(cpu) {
                Ok(v) => v,
                Err(e) => return Err(e),
            };
            set_de(cpu, nn);
            Ok(())
        },
        Instruction::POP_HL => {
            cpu.tick(12);
            let nn = match pop_stack16(cpu) {
                Ok(v) => v,
                Err(e) => return Err(e),
            };
            set_hl(cpu, nn);
            Ok(())
        },
        _ => unreached(),
    }
}

/// Interpret one instruction of the 8-bit additions, with and without carry.
#[verifier::rlimit(100)]
fn execute_add8(cpu: &mut Emulator, instruction: Instruction) -> (r: Result<(), StepError>)
    requires
        old(cpu)@.wf(),
        (            instruction is ADD_A_R || instruction is ADD_A_N || instruction is ADD_A_ATHL ||
            instruction is ADC_A_R || instruction is ADC_A_N || instruction is ADC_A_ATHL),
    ensures
        final(cpu)@.wf(),
        ({
            let (m2, e) = spec_execute(old(cpu)@, instruction);
            final(cpu)@ == m2 && (match r {
                Ok(_) => e is None,
                Err(err) => e == Some(err),
            })
        }),
{
    match instruction {
        Instruction::ADD_A_R(r) => {
            cpu.tick(4);
            let n = cpu.get_register(r);
            add_a(cpu, n);
            Ok(())
        },
        Instruction::ADD_A_N(n) => {
            cpu.tick(8);
            add_a(cpu, n);
            Ok(())
        },
        Instruction::ADD_A_ATHL => {
            cpu.tick(8);
            let athl = match get_athl(cpu) {
                Ok(v) => v,
                Err(e) => return Err(e),
            };
            add_a(cpu, athl);
            Ok(())
        },
        Instruction::ADC_A_R(r) => {
            cpu.tick(4);
            let n = cpu.get_register(r);
            add_ca(cpu, n);
            Ok(())
        },
        Instruction::ADC_A_N(n) => {
            cpu.tick(8);
            add_ca(cpu, n);
            Ok(())
        },
        Instruction::ADC_A_ATHL => {
            cpu.tick(8);
            let athl = match get_athl(cpu) {
                Ok(v) => v,
                Err(e) => return Err(e),
            };
            add_ca(cpu, athl);
            Ok(())
        },
        _ => unreached(),
    }
}

/// Interpret one instruction of the 8-bit subtractions, with and without borrow.
#[verifier::rlimit(100)]
fn execute_sub8(cpu: &mut Emulator, instruction: Instruction) -> (r: Result<(), StepError>)
    requires
        old(cpu)@.wf(),
        (            instruction is SUB_R || instruction is SUB_N || instruction is SUB_ATHL ||
            instruction is SBC_A_R || instruction is SBC_A_N || instruction is SBC_A_ATHL),
    ensures
        final(cpu)@.wf(),
        ({
            let (m2, e) = spec_execute(old(cpu)@, instruction);
            final(cpu)@ == m2 && (match r {
                Ok(_) => e is None,
                Err(err) => e == Some(err),
            })
        }),
{
    match instruction {
        Instruction::SUB_R(r) => {
            cpu.tick(4);
            let n = cpu.get_register(r);
            sub_a(cpu, n);
            Ok(())
        },
        Instruction::SUB_N(n) => {
            cpu.tick(8);
            sub_a(cpu, n);
            Ok(())
        },
        Instruction::SUB_ATHL => {
            cpu.tick(8);
            let athl = match get_athl(cpu) {
                Ok(v) => v,
                Err(e) => return Err(e),
            };
            sub_a(cpu, athl);
            Ok(())
        },
        Instruction::SBC_A_R(r) => {
            cpu.tick(4);
            let n = cpu.get_register(r);
            sub_ca(cpu, n);
            Ok(())
        },
        Instruction::SBC_A_N(n) => {
            cpu.tick(8);
            sub_ca(cpu, n);
            Ok(())
        },
        Instruction::SBC_A_ATHL => {
            cpu.tick(8);
            let athl = match get_athl(cpu) {
                Ok(v) => v,
                Err(e) => return Err(e),
            };
            sub_ca(cpu, athl);
            Ok(())
        },
        _ => unreached(),
    }
}

/// Interpret one instruction of AND and OR over the accumulator.
#[verifier::rlimit(100)]
fn execute_and_or(cpu: &mut Emulator, instruction: Instruction) -> (r: Result<(), StepError>)
    requires
        old(cpu)@.wf(),
        (            instruction is AND_R || instruction is AND_N || instruction is AND_ATHL ||
            instruction is OR_R || instruction is OR_N || instruction is OR_ATHL),
    ensures
        final(cpu)@.wf(),
        ({
            let (m2, e) = spec_execute(old(cpu)@, instruction);
            final(cpu)@ == m2 && (match r {
                Ok(_) => e is None,
                Err(err) => e == Some(err),
            })
        }),
{
    match instruction {
        Instruction::AND_R(r) => {
            cpu.tick(4);
            let n = cpu.get_register(r);
            do_and_a(cpu, n);
            Ok(())
        },
        Instruction::AND_N(n) => {
            cpu.tick(8);
            do_and_a(cpu, n);
            Ok(())
        },
        Instruction::AND_ATHL => {
            cpu.tick(8);
            let v = match get_athl(cpu) {
                Ok(v) => v,
                Err(e) => return Err(e),
            };
            do_and_a(cpu, v);
            Ok(())
        },
        Instruction::OR_R(r) => {
            cpu.tick(4);
            let n = cpu.get_register(r);
            do_or_a(cpu, n);
            Ok(())
        },
        Instruction::OR_N(n) => {
            cpu.tick(8);
            do_or_a(cpu, n);
            Ok(())
        },
        Instruction::OR_ATHL => {
            cpu.tick(8);
            let v = match get_athl(cpu) {
                Ok(v) => v,
                Err(e) => return Err(e),
            };
            do_or_a(cpu, v);
            Ok(())
        },
        _ => unreached(),
    }
}

/// Interpret one instruction of XOR and the flag-only compare over the accumulator.
#[verifier::rlimit(100)]
fn execute_xor_compare(cpu: &mut Emulator, instruction: Instruction) -> (r: Result<(), StepError>)
    requires
        old(cpu)@.wf(),
        (            instruction is XOR_R || instruction is XOR_N || instruction is XOR_ATHL ||
            instruction is CP_R || instruction is CP_N || instruction is CP_ATHL),
    ensures
        final(cpu)@.wf(),
        ({
            let (m2, e) = spec_execute(old(cpu)@, instruction);
            final(cpu)@ == m2 && (match r {
                Ok(_) => e is None,
                Err(err) => e == Some(err),
            })
        }),
{
    match instruction {
        Instruction::XOR_R(r) => {
            cpu.tick(4);
            let n = cpu.get_register(r);
            do_xor_a(cpu, n);
            Ok(())
        },
        Instruction::XOR_N(n) => {
            cpu.tick(8);
            do_xor_a(cpu, n);
            Ok(())
        },
        Instruction::XOR_ATHL => {
            cpu.tick(8);
            let athl = match get_athl(cpu) {
                Ok(v) => v,
                Err(e) => return Err(e),
            };
            do_xor_a(cpu, athl);
            Ok(())
        },
        Instruction::CP_R(r) => {
            cpu.tick(4);
            let n = cpu.get_register(r);
            do_cp_a(cpu, n);
            Ok(())
        },
        Instruction::CP_N(n) => {
            cpu.tick(8);
            do_cp_a(cpu, n);
            Ok(())
        },
        Instruction::CP_ATHL => {
            cpu.tick(8);
            let athl = match get_athl(cpu) {
                Ok(v) => v,
                Err(e) => return Err(e),
            };
            do_cp_a(cpu, athl);
            Ok(())
        },
        _ => unreached(),
    }
}

/// Interpret one instruction of the 8-bit increments and decrements, which never touch Carry.
#[verifier::rlimit(100)]
fn execute_inc_dec8(cpu: &mut Emulator, instruction: Instruction) -> (r: Result<(), StepError>)
    requires
        old(cpu)@.wf(),
        (            instruction is INC_R || instruction is INC_ATHL || instruction is DEC_R ||
            instruction is DEC_ATHL),
    ensures
        final(cpu)@.wf(),
        ({
            let (m2, e) = spec_execute(old(cpu)@, instruction);
            final(cpu)@ == m2 && (match r {
                Ok(_) => e is None,
                Err(err) => e == Some(err),
            })
        }),
{
    match instruction {
        Instruction::INC_R(r) => {
            cpu.tick(4);
            let v = cpu.get_register(r);
            let (res, h, _c) = add8(v, 1);
            cpu.set_register(r, res);

            let mut flags = cpu.get_flags();
            flags.zero = res == 0;
            flags.subtract = false;
            flags.half_carry = h;
            cpu.set_flags(flags);
            Ok(())
        },
        Instruction::INC_ATHL => {
            cpu.tick(12);
            let v = match get_athl(cpu) {
                Ok(v) => v,
                Err(e) => return Err(e),
            };
            let (res, h, _c) = add8(v, 1);
            match set_athl(cpu, res) {
                Ok(_) => (),
                Err(e) => return Err(e),
            };

            let mut flags = cpu.get_flags();
            flags.zero = res == 0;
            flags.subtract = false;
            flags.half_carry = h;
            cpu.set_flags(flags);
            Ok(())
        },
        Instruction::DEC_R(r) => {
            cpu.tick(4);
            let v = cpu.get_register(r);
            let (res, h, _b) = sub8(v, 1);
            cpu.set_register(r, res);

            let mut flags = cpu.get_flags();
            flags.zero = res == 0;
            flags.subtract = true;
            flags.half_carry = h;
            cpu.set_flags(flags);
            Ok(())
        },
        Instruction::DEC_ATHL => {
            cpu.tick(12);
            let v = match get_athl(cpu) {
                Ok(v) => v,
                Err(e) => return Err(e),
            };
            let (res, h, _b) = sub8(v, 1);
            match set_athl(cpu, res) {
                Ok(_) => (),
                Err(e) => return Err(e),
            };

            let mut flags = cpu.get_flags();
            flags.zero = res == 0;
            flags.subtract = true;
            flags.half_carry = h;
            cpu.set_flags(flags);
            Ok(())
        },
        _ => unreached(),
    }
}

/// Interpret one instruction of the 16-bit additions into HL and the signed addition into SP.
#[verifier::rlimit(100)]
fn execute_add16(cpu: &mut Emulator, instruction: Instruction) -> (r: Result<(), StepError>)
    requires
        old(cpu)@.wf(),
        (            instruction is ADD_HL_BC || instruction is ADD_HL_DE || instruction is ADD_HL_HL ||
            instruction is ADD_HL_SP || instruction is ADD_SP_N),
    ensures
        final(cpu)@.wf(),
        ({
            let (m2, e) = spec_execute(old(cpu)@, instruction);
            final(cpu)@ == m2 && (match r {
                Ok(_) => e is None,
                Err(err) => e == Some(err),
            })
        }),
{
    match instruction {
        Instruction::ADD_HL_BC => {
            cpu.tick(8);
            let bc = get_bc(cpu);
            do_add_hl(cpu, bc);
            Ok(())
        },
        Instruction::ADD_HL_DE => {
            cpu.tick(8);
            let de = get_de(cpu);
            do_add_hl(cpu, de);
            Ok(())
        },
        Instruction::ADD_HL_HL => {
            cpu.tick(8);
            let hl = get_hl(cpu);
            do_add_hl(cpu, hl);
            Ok(())
        },
        Instruction::ADD_HL_SP => {
            cpu.tick(8);
            let sp = cpu.get_stack_pointer();
            do_add_hl(cpu, sp);
            Ok(())
        },
        Instruction::ADD_SP_N(n) => {
            cpu.tick(16);
            let sp = cpu.get_stack_pointer();
            let (sp, h, c) = add16(sp, n as u16);
            cpu.set_stack_pointer(sp);

            let mut flags = cpu.get_flags();
            flags.zero = false;
            flags.subtract = false;
            flags.half_carry = h;
            flags.carry = c;
            cpu.set_flags(flags);
            Ok(())
        },
        _ => unreached(),
    }
}

/// Interpret one instruction of the flagless 16-bit increments and decrements.
#[verifier::rlimit(100)]
fn execute_inc_dec16(cpu: &mut Emulator, instruction: Instruction) -> (r: Result<(), StepError>)
    requires
        old(cpu)@.wf(),
        (            instruction is INC_BC || instruction is INC_DE || instruction is INC_HL ||
            instruction is INC_SP || instruction is DEC_BC || instruction is DEC_DE ||
            instruction is DEC_HL || instruction is DEC_SP),
    ensures
        final(cpu)@.wf(),
        ({
            let (m2, e) = spec_execute(old(cpu)@, instruction);
            final(cpu)@ == m2 && (match r {
                Ok(_) => e is None,
                Err(err) => e == Some(err),
            })
        }),
{
    match instruction {
        Instruction::INC_BC => {
            cpu.tick(8);
            let bc = get_bc(cpu);
            set_bc(cpu, bc.wrapping_add(1));
            Ok(())
        },
        Instruction::INC_DE => {
            cpu.tick(8);
            let de = get_de(cpu);
            set_de(cpu, de.wrapping_add(1));
            Ok(())
        },
        Instruction::INC_HL => {
            cpu.tick(8);
            let hl = get_hl(cpu);
            set_hl(cpu, hl.wrapping_add(1));
            Ok(())
        },
        Instruction::INC_SP => {
            cpu.tick(8);
            let sp = cpu.get_stack_pointer();
            cpu.set_stack_pointer(sp.wrapping_add(1));
            Ok(())
        },
        Instruction::DEC_BC => {
            cpu.tick(8);
            let bc = get_bc(cpu);
            set_bc(cpu, bc.wrapping_sub(1));
            Ok(())
        },
        Instruction::DEC_DE => {
            cpu.tick(8);
            let de = get_de(cpu);
            set_de(cpu, de.wrapping_sub(1));
            Ok(())
        },
        Instruction::DEC_HL => {
            cpu.tick(8);
            let hl = get_hl(cpu);
            set_hl(cpu, hl.wrapping_sub(1));
            Ok(())
        },
        Instruction::DEC_SP => {
            cpu.tick(8);
            let sp = cpu.get_stack_pointer();
            cpu.set_stack_pointer(sp.wrapping_sub(1));
            Ok(())
        },
        _ => unreached(),
    }
}

/// Interpret one instruction of nibble swap, BCD adjust, complement and the carry-flag opcodes.
#[verifier::rlimit(100)]
fn execute_accumulator_misc(cpu: &mut Emulator, instruction: Instruction) -> (r: Result<(), StepError>)
    requires
        old(cpu)@.wf(),
        (            instruction is SWAP_R || instruction is SWAP_ATHL || instruction is DAA ||
            instruction is CPL || instruction is CCF || instruction is SCF),
    ensures
        final(cpu)@.wf(),
        ({
            let (m2, e) = spec_execute(old(cpu)@, instruction);
            final(cpu)@ == m2 && (match r {
                Ok(_) => e is None,
                Err(err) => e == Some(err),
            })
        }),
{
    match instruction {
        Instruction::SWAP_R(r) => {
            cpu.tick(8);
            let v = cpu.get_register(r);
            let v = make_word8(low_nibble(v), high_nibble(v));
            cpu.set_register(r, v);
            Ok(())
        },
        Instruction::SWAP_ATHL => {
            cpu.tick(16);
            let v = match get_athl(cpu) {
                Ok(v) => v,
                Err(e) => return Err(e),
            };
            let v = make_word8(low_nibble(v), high_nibble(v));
            set_athl(cpu, v)
        },
        Instruction::DAA => {
            cpu.tick(4);
            do_daa(cpu);
            Ok(())
        },
        Instruction::CPL => {
            cpu.tick(4);
            let a = cpu.get_register(Register::ARegister);
            cpu.set_register(Register::ARegister, !a);

            let mut flags = cpu.get_flags();
            flags.subtract = true;
            flags.half_carry = true;
            cpu.set_flags(flags);
            Ok(())
        },
        Instruction::CCF => {
            cpu.tick(4);

            let mut flags = cpu.get_flags();
            flags.subtract = false;
            flags.half_carry = false;
            flags.carry = !flags.carry;
            cpu.set_flags(flags);
            Ok(())
        },
        Instruction::SCF => {
            cpu.tick(4);

            let mut flags = cpu.get_flags();
            flags.subtract = false;
            flags.half_carry = false;
            flags.carry = true;
            cpu.set_flags(flags);
            Ok(())
        },
        _ => unreached(),
    }
}

/// Interpret one instruction of no-op, halting, stopping and interrupt control.
#[verifier::rlimit(100)]
fn execute_system(cpu: &mut Emulator, instruction: Instruction) -> (r: Result<(), StepError>)
    requires
        old(cpu)@.wf(),
        (            instruction is NOP || instruction is HALT || instruction is STOP ||
            instruction is DI || instruction is EI),
    ensures
        final(cpu)@.wf(),
        ({
            let (m2, e) = spec_execute(old(cpu)@, instruction);
            final(cpu)@ == m2 && (match r {
                Ok(_) => e is None,
                Err(err) => e == Some(err),
            })
        }),
{
    match instruction {
        Instruction::NOP => {
            cpu.tick(4);
            Ok(())
        },
        Instruction::HALT => {
            cpu.tick(4);
            cpu.halt();
            Ok(())
        },
        Instruction::STOP => {
            cpu.tick(4);
            cpu.stop();
            Ok(())
        },
        Instruction::DI => {
            cpu.tick(4);
            cpu.set_interrupts_enabled(false);
            Ok(())
        },
        Instruction::EI => {
            cpu.tick(4);
            cpu.set_interrupts_enabled(true);
            Ok(())
        },
        _ => unreached(),
    }
}

/// Interpret one instruction of the one-byte rotates of the accumulator.
#[verifier::rlimit(100)]
fn execute_rotate_accumulator(cpu: &mut Emulator, instruction: Instruction) -> (r: Result<(), StepError>)
    requires
        old(cpu)@.wf(),
        (            instruction is RLCA || instruction is RLA || instruction is RRCA ||
            instruction is RRA),
    ensures
        final(cpu)@.wf(),
        ({
            let (m2, e) = spec_execute(old(cpu)@, instruction);
            final(cpu)@ == m2 && (match r {
                Ok(_) => e is None,
                Err(err) => e == Some(err),
            })
        }),
{
    match instruction {
        Instruction::RLCA => {
            cpu.tick(4);
            do_rlc(cpu, Register::ARegister);
            Ok(())
        },
        Instruction::RLA => {
            cpu.tick(4);
            do_rl(cpu, Register::ARegister);
            Ok(())
        },
        Instruction::RRCA => {
            cpu.tick(4);
            do_rrc(cpu, Register::ARegister);
            Ok(())
        },
        Instruction::RRA => {
            cpu.tick(4);
            do_rr(cpu, Register::ARegister);
            Ok(())
        },
        _ => unreached(),
    }
}

/// Interpret one instruction of the extended rotates, circular and through the carry.
#[verifier::rlimit(100)]
fn execute_rotate(cpu: &mut Emulator, instruction: Instruction) -> (r: Result<(), StepError>)
    requires
        old(cpu)@.wf(),
        (            instruction is RLC_R || instruction is RLC_ATHL || instruction is RL_R ||
            instruction is RL_ATHL || instruction is RRC_R || instruction is RRC_ATHL ||
            instruction is RR_R || instruction is RR_ATHL),
    ensures
        final(cpu)@.wf(),
        ({
            let (m2, e) = spec_execute(old(cpu)@, instruction);
            final(cpu)@ == m2 && (match r {
                Ok(_) => e is None,
                Err(err) => e == Some(err),
            })
        }),
{
    match instruction {
        Instruction::RLC_R(r) => {
            cpu.tick(8);
            do_rlc(cpu, r);
            Ok(())
        },
        Instruction::RLC_ATHL => {
            cpu.tick(16);
            let v = match get_athl(cpu) {
                Ok(v) => v,
                Err(e) => return Err(e),
            };
            let (v, c) = rotlc(v);
            match set_athl(cpu, v) {
                Ok(_) => (),
                Err(e) => return Err(e),
            };

            let mut flags = cpu.get_flags();
            flags.zero = v == 0;
            flags.subtract = false;
            flags.half_carry = false;
            flags.carry = c;
            cpu.set_flags(flags);
            Ok(())
        },
        Instruction::RL_R(r) => {
            cpu.tick(8);
            do_rl(cpu, r);
            Ok(())
        },
        Instruction::RL_ATHL => {
            cpu.tick(16);

            let mut flags = cpu.get_flags();
            let v = match get_athl(cpu) {
                Ok(v) => v,
                Err(e) => return Err(e),
            };
            let c = flags.carry;
            let (v, c) = rotl(v, c);
            match set_athl(cpu, v) {
                Ok(_) => (),
                Err(e) => return Err(e),
            };

            flags.zero = v == 0;
            flags.subtract = false;
            flags.half_carry = false;
            flags.carry = c;
            cpu.set_flags(flags);
            Ok(())
        },
        Instruction::RRC_R(r) => {
            cpu.tick(8);
            do_rrc(cpu, r);
            Ok(())
        },
        Instruction::RRC_ATHL => {
            cpu.tick(16);
            let v = match get_athl(cpu) {
                Ok(v) => v,
                Err(e) => return Err(e),
            };
            let (v, c) = rotrc(v);
            match set_athl(cpu, v) {
                Ok(_) => (),
                Err(e) => return Err(e),
            };

            let mut flags = cpu.get_flags();
            flags.zero = v == 0;
            flags.subtract = false;
            flags.half_carry = false;
            flags.carry = c;
            cpu.set_flags(flags);
            Ok(())
        },
        Instruction::RR_R(r) => {
            cpu.tick(8);
            do_rr(cpu, r);
            Ok(())
        },
        Instruction::RR_ATHL => {
            cpu.tick(16);
            let mut flags = cpu.get_flags();
            let v = match get_athl(cpu) {
                Ok(v) => v,
                Err(e) => return Err(e),
            };
            let c = flags.carry;
            let (v, c) = rotr(v, c);
            match set_athl(cpu, v) {
                Ok(_) => (),
                Err(e) => return Err(e),
            };

            flags.zero = v == 0;
            flags.subtract = false;
            flags.half_carry = false;
            flags.carry = c;
            cpu.set_flags(flags);
            Ok(())
        },
        _ => unreached(),
    }
}

/// Interpret one instruction of the extended shifts: arithmetic left, sign-keeping right, logical right.
#[verifier::rlimit(100)]
fn execute_shift(cpu: &mut Emulator, instruction: Instruction) -> (r: Result<(), StepError>)
    requires
        old(cpu)@.wf(),
        (            instruction is SLA_R || instruction is SLA_ATHL || instruction is SRA_R ||
            instruction is SRA_ATHL || instruction is SRL_R || instruction is SRL_ATHL),
    ensures
        final(cpu)@.wf(),
        ({
            let (m2, e) = spec_execute(old(cpu)@, instruction);
            final(cpu)@ == m2 && (match r {
                Ok(_) => e is None,
                Err(err) => e == Some(err),
            })
        }),
{
    match instruction {
        Instruction::SLA_R(r) => {
            cpu.tick(8);
            let v = cpu.get_register(r);
            let c = get_bit(v, 7);
            let v = v << 1;
            cpu.set_register(r, v);

            let mut flags = cpu.get_flags();
            flags.zero = v == 0;
            flags.subtract = false;
            flags.half_carry = false;
            flags.carry = c;
            cpu.set_flags(flags);
            Ok(())
        },
        Instruction::SLA_ATHL => {
            cpu.tick(16);
            let v = match get_athl(cpu) {
                Ok(v) => v,
                Err(e) => return Err(e),
            };
            let c = get_bit(v, 7);
            let v = v << 1;
            match set_athl(cpu, v) {
                Ok(_) => (),
                Err(e) => return Err(e),
            };

            let mut flags = cpu.get_flags();
            flags.zero = v == 0;
            flags.subtract = false;
            flags.half_carry = false;
            flags.carry = c;
            cpu.set_flags(flags);
            Ok(())
        },
        Instruction::SRA_R(r) => {
            cpu.tick(8);
            let v = cpu.get_register(r);
            let lsb = get_bit(v, 0);
            let msb = get_bit(v, 7);
            let v = set_bit(v >> 1, 7, msb);
            cpu.set_register(r, v);

            let mut flags = cpu.get_flags();
            flags.zero = v == 0;
            flags.subtract = false;
            flags.half_carry = false;
            flags.carry = lsb;
            cpu.set_flags(flags);
            Ok(())
        },
        Instruction::SRA_ATHL => {
            cpu.tick(16);
            let v = match get_athl(cpu) {
                Ok(v) => v,
                Err(e) => return Err(e),
            };
            let lsb = get_bit(v, 0);
            let msb = get_bit(v, 7);
            let v = set_bit(v >> 1, 7, msb);
            match set_athl(cpu, v) {
                Ok(_) => (),
                Err(e) => return Err(e),
            };

            let mut flags = cpu.get_flags();
            flags.zero = v == 0;
            flags.subtract = false;
            flags.half_carry = false;
            flags.carry = lsb;
            cpu.set_flags(flags);
            Ok(())
        },
        Instruction::SRL_R(r) => {
            cpu.tick(8);
            let v = cpu.get_register(r);
            let lsb = get_bit(v, 0);
            let v = v >> 1;
            cpu.set_register(r, v);

            let mut flags = cpu.get_flags();
            flags.zero = v == 0;
            flags.subtract = false;
            flags.half_carry = false;
            flags.carry = lsb;
            cpu.set_flags(flags);
            Ok(())
        },
        Instruction::SRL_ATHL => {
            cpu.tick(16);
            let v = match get_athl(cpu) {
                Ok(v) => v,
                Err(e) => return Err(e),
            };
            let lsb = get_bit(v, 0);
            let v = v >> 1;
            match set_athl(cpu, v) {
                Ok(_) => (),
                Err(e) => return Err(e),
            };

            let mut flags = cpu.get_flags();
            flags.zero = v == 0;
            flags.subtract = false;
            flags.half_carry = false;
            flags.carry = lsb;
            cpu.set_flags(flags);
            Ok(())
        },
        _ => unreached(),
    }
}

/// Interpret one instruction of the single-bit test, set and reset family.
#[verifier::rlimit(100)]
fn execute_bit_ops(cpu: &mut Emulator, instruction: Instruction) -> (r: Result<(), StepError>)
    requires
        old(cpu)@.wf(),
        (            instruction is BIT_B_R || instruction is BIT_B_ATHL || instruction is SET_B_R ||
            instruction is SET_B_ATHL || instruction is RES_B_R || instruction is RES_B_ATHL),
    ensures
        final(cpu)@.wf(),
        ({
            let (m2, e) = spec_execute(old(cpu)@, instruction);
            final(cpu)@ == m2 && (match r {
                Ok(_) => e is None,
                Err(err) => e == Some(err),
            })
        }),
{
    match instruction {
        Instruction::BIT_B_R(b, r) => {
            cpu.tick(8);
            let v = cpu.get_register(r);
            let btest = get_bit(v, bit_number(b));

            let mut flags = cpu.get_flags();
            flags.zero = !btest;
            flags.subtract = false;
            flags.half_carry = true;
            cpu.set_flags(flags);
            Ok(())
        },
        Instruction::BIT_B_ATHL(b) => {
            cpu.tick(16);
            let v = match get_athl(cpu) {
                Ok(v) => v,
                Err(e) => return Err(e),
            };
            let btest = get_bit(v, bit_number(b));

            let mut flags = cpu.get_flags();
            flags.zero = !btest;
            flags.subtract = false;
            flags.half_carry = true;
            cpu.set_flags(flags);
            Ok(())
        },
        Instruction::SET_B_R(b, r) => {
            cpu.tick(8);
            let v = cpu.get_register(r);
            let v = set_bit(v, bit_number(b), true);
            cpu.set_register(r, v);
            Ok(())
        },
        Instruction::SET_B_ATHL(b) => {
            cpu.tick(16);
            let v = match get_athl(cpu) {
                Ok(v) => v,
                Err(e) => return Err(e),
            };
            let v = set_bit(v, bit_number(b), true);
            set_athl(cpu, v)
        },
        Instruction::RES_B_R(b, r) => {
            cpu.tick(8);
            let v = cpu.get_register(r);
            let v = set_bit(v, bit_number(b), false);
            cpu.set_register(r, v);
            Ok(())
        },
        Instruction::RES_B_ATHL(b) => {
            cpu.tick(16);
            let v = match get_athl(cpu) {
                Ok(v) => v,
                Err(e) => return Err(e),
            };
            let v = set_bit(v, bit_number(b), false);
            set_athl(cpu, v)
        },
        _ => unreached(),
    }
}

/// Interpret one instruction of the absolute and relative jumps.
#[verifier::rlimit(100)]
fn execute_jump(cpu: &mut Emulator, instruction: Instruction) -> (r: Result<(), StepError>)
    requires
        old(cpu)@.wf(),
        (            instruction is JP_NN || instruction is JP_C_NN || instruction is JP_ATHL ||
            instruction is JR_N || instruction is JR_C_N),
    ensures
        final(cpu)@.wf(),
        ({
            let (m2, e) = spec_execute(old(cpu)@, instruction);
            final(cpu)@ == m2 && (match r {
                Ok(_) => e is None,
                Err(err) => e == Some(err),
            })
        }),
{
    match instruction {
        Instruction::JP_NN(nn) => {
            cpu.tick(12);
            cpu.set_program_counter(nn);
            Ok(())
        },
        Instruction::JP_C_NN(c, nn) => {
            cpu.tick(12);
            if test_cond(cpu, c) {
                cpu.set_program_counter(nn);
            }
            Ok(())
        },
        Instruction::JP_ATHL => {
            cpu.tick(4);
            let hl = get_hl(cpu);
            cpu.set_program_counter(hl);
            Ok(())
        },
        Instruction::JR_N(n) => {
            cpu.tick(8);
            let pc = cpu.get_program_counter();
            cpu.set_program_counter(offset16(pc, n));
            Ok(())
        },
        Instruction::JR_C_N(c, n) => {
            cpu.tick(8);
            if test_cond(cpu, c) {
                let pc = cpu.get_program_counter();
                cpu.set_program_counter(offset16(pc, n));
            }
            Ok(())
        },
        _ => unreached(),
    }
}

/// Interpret one instruction of calls, resets and returns.
#[verifier::rlimit(100)]
fn execute_call_return(cpu: &mut Emulator, instruction: Instruction) -> (r: Result<(), StepError>)
    requires
        old(cpu)@.wf(),
        (            instruction is CALL_NN || instruction is CALL_C_NN || instruction is RST_RA ||
            instruction is RET || instruction is RET_C || instruction is RETI),
    ensures
        final(cpu)@.wf(),
        ({
            let (m2, e) = spec_execute(old(cpu)@, instruction);
            final(cpu)@ == m2 && (match r {
                Ok(_) => e is None,
                Err(err) => e == Some(err),
            })
        }),
{
    match instruction {
        Instruction::CALL_NN(nn) => {
            cpu.tick(12);
            let pc = cpu.get_program_counter();
            match push_stack16(cpu, pc) {
                Ok(_) => (),
                Err(e) => return Err(e),
            };
            cpu.set_program_counter(nn);
            Ok(())
        },
        Instruction::CALL_C_NN(c, nn) => {
            cpu.tick(12);
            if test_cond(cpu, c) {
                let pc = cpu.get_program_counter();
                match push_stack16(cpu, pc) {
                    Ok(_) => (),
                    Err(e) => return Err(e),
                };
                cpu.set_program_counter(nn);
            }
            Ok(())
        },
        Instruction::RST_RA(ra) => {
            cpu.tick(32);
            let pc = cpu.get_program_counter();
            match push_stack16(cpu, pc) {
                Ok(_) => (),
                Err(e) => return Err(e),
            };
            cpu.set_program_counter(reset_address(ra));
            Ok(())
        },
        Instruction::RET => {
            cpu.tick(8);
            let pc = match pop_stack16(cpu) {
                Ok(v) => v,
                Err(e) => return Err(e),
            };
            cpu.set_program_counter(pc);
            Ok(())
        },
        Instruction::RET_C(c) => {
            cpu.tick(8);
            if test_cond(cpu, c) {
                let pc = match pop_stack16(cpu) {
                    Ok(v) => v,
                    Err(e) => return Err(e),
                };
                cpu.set_program_counter(pc);
            }
            Ok(())
        },
        Instruction::RETI => {
            cpu.tick(8);
            let nn = match pop_stack16(cpu) {
                Ok(v) => v,
                Err(e) => return Err(e),
            };
            cpu.set_program_counter(nn);
            cpu.set_interrupts_enabled(true);
            Ok(())
        },
        _ => unreached(),
    }
}

/// Consuming one byte at the program counter: the counter moves past it
/// (failing if it would wrap), then the byte is read at its old value.
pub open spec fn spec_fetch(m: MachineView) -> (MachineView, Result<u8, StepError>) {
    if m.pc == 0xffff {
        (m, Err(StepError::Boundary(ArithmeticBoundaryError::PcOverflow)))
    } else {
        let m1 = MachineView { pc: (m.pc + 1) as u16, ..m };
        match spec_read_mem(m, m.pc) {
            Ok(b) => (m1, Ok(b)),
            Err(e) => (m1, Err(e)),
        }
    }
}

/// The decode result over `bytes`, with its byte count dropped and its
/// error tagged as a step failure.
pub open spec fn spec_decoded(bytes: Seq<u8>) -> Result<Instruction, StepError> {
    match spec_decode(bytes) {
        Ok(p) => Ok(p.0),
        Err(e) => Err(StepError::Decode(e)),
    }
}

/// Fetching and decoding one instruction at the program counter: the
/// counter advances once per byte consumed, and fetching stops early on
/// the first failure.
pub open spec fn spec_fetch_decode(m: MachineView) -> (MachineView, Result<
    Instruction,
    StepError,
>) {
    let (m1, r0) = spec_fetch(m);
    match r0 {
        Err(e) => (m1, Err(e)),
        Ok(b0) => {
            let n = spec_instruction_length(b0);
            if n == 1 {
                (m1, spec_decoded(seq![b0]))
            } else if n == 2 {
                let (m2, r1) = spec_fetch(m1);
                match r1 {
                    Err(e) => (m2, Err(e)),
                    Ok(b1) => (m2, spec_decoded(seq![b0, b1])),
                }
            } else {
                let (m2, r1) = spec_fetch(m1);
                match r1 {
                    Err(e) => (m2, Err(e)),
                    Ok(b1) => {
                        let (m3, r2) = spec_fetch(m2);
                        match r2 {
                            Err(e) => (m3, Err(e)),
                            Ok(b2) => (m3, spec_decoded(seq![b0, b1, b2])),
                        }
                    },
                }
            }
        },
    }
}

/// One full step: fetch and decode one instruction, then execute it.
pub open spec fn spec_step(m: MachineView) -> (MachineView, Option<StepError>) {
    let (m1, r) = spec_fetch_decode(m);
    match r {
        Ok(i) => spec_execute(m1, i),
        Err(e) => (m1, Some(e)),
    }
}

/// Consume one byte at the program counter, which moves past it.
fn fetch_byte(cpu: &mut Emulator) -> (r: Result<u8, StepError>)
    requires
        old(cpu)@.wf(),
    ensures
        final(cpu)@.wf(),
        ({
            let (m2, rr) = spec_fetch(old(cpu)@);
            final(cpu)@ == m2 && r == rr
        }),
{
    let pc = cpu.get_program_counter();
    let next = match pc.checked_add(1) {
        Some(v) => v,
        None => return Err(StepError::Boundary(ArithmeticBoundaryError::PcOverflow)),
    };
    cpu.set_program_counter(next);
    match cpu.get_memory(pc) {
        Ok(b) => Ok(b),
        Err(e) => Err(StepError::Memory(e)),
    }
}

/// One fetch/decode/execute cycle: decode one instruction at the program
/// counter, advancing it past every byte consumed, then execute it. One
/// call is one instruction, not one clock cycle.
pub fn step_cpu(cpu: &mut Emulator) -> (r: Result<(), StepError>)
    requires
        old(cpu)@.wf(),
    ensures
        final(cpu)@.wf(),
        ({
            let (m2, e) = spec_step(old(cpu)@);
            final(cpu)@ == m2 && (match r {
                Ok(_) => e is None,
                Err(err) => e == Some(err),
            })
        }),
{
    let b0 = match fetch_byte(cpu) {
        Ok(b) => b,
        Err(e) => return Err(e),
    };
    let n = instruction_length(b0);
    let decoded = if n == 1 {
        let mut bytes: Vec<u8> = Vec::new();
        bytes.push(b0);
        proof {
            assert(bytes@ =~= seq![b0]);
        }
        decode_instruction(bytes.as_slice())
    } else if n == 2 {
        let b1 = match fetch_byte(cpu) {
            Ok(b) => b,
            Err(e) => return Err(e),
        };
        let mut bytes: Vec<u8> = Vec::new();
        bytes.push(b0);
        bytes.push(b1);
        proof {
            assert(bytes@ =~= seq![b0, b1]);
        }
        decode_instruction(bytes.as_slice())
    } else {
        let b1 = match fetch_byte(cpu) {
            Ok(b) => b,
            Err(e) => return Err(e),
        };
        let b2 = match fetch_byte(cpu) {
            Ok(b) => b,
            Err(e) => return Err(e),
        };
        let mut bytes: Vec<u8> = Vec::new();
        bytes.push(b0);
        bytes.push(b1);
        bytes.push(b2);
        proof {
            assert(bytes@ =~= seq![b0, b1, b2]);
        }
        decode_instruction(bytes.as_slice())
    };
    let instruction = match decoded {
        Ok(p) => p.0,
        Err(e) => return Err(StepError::Decode(e)),
    };
    execute(cpu, instruction)
}



/// The machine with one register replaced by its own value is the same
/// machine.
proof fn lemma_self_load_identity(m: MachineView, r: Register)
    ensures
        spec_with_register(m, r, spec_get_register(m, r)) == m,
{
    match r {
        Register::ARegister => assert(spec_with_register(m, r, spec_get_register(m, r)) =~= m),
        Register::BRegister => assert(spec_with_register(m, r, spec_get_register(m, r)) =~= m),
        Register::CRegister => assert(spec_with_register(m, r, spec_get_register(m, r)) =~= m),
        Register::DRegister => assert(spec_with_register(m, r, spec_get_register(m, r)) =~= m),
        Register::ERegister => assert(spec_with_register(m, r, spec_get_register(m, r)) =~= m),
        Register::HRegister => assert(spec_with_register(m, r, spec_get_register(m, r)) =~= m),
        Register::LRegister => assert(spec_with_register(m, r, spec_get_register(m, r)) =~= m),
    }
}

/// Law: two consecutive register-to-itself loads both succeed and leave
/// the machine identical except for the program counter, which has moved
/// past the two opcodes, and the cycle count.
pub proof fn lemma_self_load_twice(m: MachineView, r1: Register, r2: Register)
    requires
        m.pc <= 0xfffd,
        readable(m.pc),
        readable((m.pc + 1) as u16),
        read_byte(m, m.pc) == spec_encode(Instruction::LD_R_R(r1, r1))[0],
        read_byte(m, (m.pc + 1) as u16) == spec_encode(Instruction::LD_R_R(r2, r2))[0],
    ensures
        ({
            let (m1, e1) = spec_step(m);
            let (m2, e2) = spec_step(m1);
            &&& e1 is None
            &&& e2 is None
            &&& m2.pc == m.pc + 2
            &&& m2 == (MachineView { pc: m2.pc, cycles: m2.cycles, ..m })
        }),
{
    lemma_encode_decode_round_trip(Instruction::LD_R_R(r1, r1));
    lemma_encode_decode_round_trip(Instruction::LD_R_R(r2, r2));
    let b1 = spec_encode(Instruction::LD_R_R(r1, r1))[0];
    let b2 = spec_encode(Instruction::LD_R_R(r2, r2))[0];
    assert(seq![b1] =~= spec_encode(Instruction::LD_R_R(r1, r1)));
    assert(seq![b2] =~= spec_encode(Instruction::LD_R_R(r2, r2)));

    let (md1, rd1) = spec_fetch_decode(m);
    assert(rd1 == Ok::<Instruction, StepError>(Instruction::LD_R_R(r1, r1)));
    let (m1, e1) = spec_step(m);
    let t1 = spec_tick(md1, 4);
    lemma_self_load_identity(t1, r1);
    assert(m1 == t1);

    assert(m1.pc == m.pc + 1);
    assert(read_byte(m1, m1.pc) == read_byte(m, (m.pc + 1) as u16));
    let (md2, rd2) = spec_fetch_decode(m1);
    assert(rd2 == Ok::<Instruction, StepError>(Instruction::LD_R_R(r2, r2)));
    let (m2, e2) = spec_step(m1);
    let t2 = spec_tick(md2, 4);
    lemma_self_load_identity(t2, r2);
    assert(m2 == t2);

    assert(m2 =~= (MachineView { pc: m2.pc, cycles: m2.cycles, ..m }));
}

} // verus!
