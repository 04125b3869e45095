use rsgb::emulator::Emulator;
use rsgb::errors::ArithmeticBoundaryError;
use rsgb::errors::LoadError;
use rsgb::errors::MemoryAccessError;
use rsgb::errors::StepError;
use rsgb::screen::Pixel;

#[test]
fn power_on_defaults() {
    let em = Emulator::new();
    assert_eq!(em.stack_pointer, 0xfffe);
    assert_eq!(em.program_counter, 0x100);
    assert_eq!(em.a_register, 0);
    assert_eq!(em.interrupts_enabled, 0x0f);
    assert_eq!(em.cycle_count, 0);
    assert_eq!(em.get_memory(0xffff), Ok(0x0f));
}

#[test]
fn echo_region_mirrors_work_ram() {
    let mut em = Emulator::new();
    assert_eq!(em.set_memory(0xc123, 0xab), Ok(()));
    assert_eq!(em.get_memory(0xe123), Ok(0xab));
    assert_eq!(em.set_memory(0xe234, 0x5c), Ok(()));
    assert_eq!(em.get_memory(0xc234), Ok(0x5c));
    for addr in [0xe000u16, 0xf000, 0xfdff] {
        assert_eq!(em.get_memory(addr), em.get_memory(addr - 0x2000));
    }
}

#[test]
fn unmapped_regions_error_on_access() {
    let mut em = Emulator::new();
    assert_eq!(
        em.get_memory(0xa000),
        Err(MemoryAccessError::IllegalRead(0xa000))
    );
    assert_eq!(
        em.set_memory(0xbfff, 1),
        Err(MemoryAccessError::IllegalWrite(0xbfff))
    );
    assert_eq!(
        em.get_memory(0xfea0),
        Err(MemoryAccessError::IllegalRead(0xfea0))
    );
    assert_eq!(
        em.set_memory(0xfeff, 1),
        Err(MemoryAccessError::IllegalWrite(0xfeff))
    );
}

#[test]
fn hardware_register_range_reads_zero_and_swallows_writes() {
    let mut em = Emulator::new();
    assert_eq!(em.set_memory(0xff40, 0x91), Ok(()));
    assert_eq!(em.get_memory(0xff40), Ok(0));
}

#[test]
fn rom_write_is_an_error_and_rom_is_unchanged() {
    let mut em = Emulator::new();
    em.cartridge_rom_bank0[0] = 0x3e;
    assert_eq!(
        em.set_memory(0x0000, 0x99),
        Err(MemoryAccessError::IllegalWrite(0x0000))
    );
    assert_eq!(em.cartridge_rom_bank0[0], 0x3e);
    assert_eq!(em.get_memory(0x0000), Ok(0x3e));
}

#[test]
fn load_immediate_advances_pc_and_charges_eight_cycles() {
    let mut em = Emulator::new();
    em.program_counter = 0;
    em.cartridge_rom_bank0[0x00] = 0x3e;
    em.cartridge_rom_bank0[0x01] = 0x05;
    let flags_before = em.flags;
    let cycles_before = em.cycle_count;
    assert_eq!(em.step(), Ok(()));
    assert_eq!(em.a_register, 5);
    assert_eq!(em.program_counter, 2);
    assert_eq!(em.cycle_count, cycles_before + 8);
    assert_eq!(em.flags, flags_before);
}

#[test]
fn inc_a_sets_half_carry_and_keeps_carry() {
    for carry_before in [false, true] {
        let mut em = Emulator::new();
        em.a_register = 0x0f;
        em.flags.carry = carry_before;
        em.cartridge_rom_bank0[0x100] = 0x3c;
        assert_eq!(em.step(), Ok(()));
        assert_eq!(em.a_register, 0x10);
        assert_eq!(em.flags.zero, false);
        assert_eq!(em.flags.subtract, false);
        assert_eq!(em.flags.half_carry, true);
        assert_eq!(em.flags.carry, carry_before);
    }
}

#[test]
fn push_bc_stores_high_then_low_and_moves_sp_down() {
    let mut em = Emulator::new();
    em.b_register = 0x12;
    em.c_register = 0x34;
    em.cartridge_rom_bank0[0x100] = 0xc5;
    let cycles_before = em.cycle_count;
    assert_eq!(em.stack_pointer, 0xfffe);
    assert_eq!(em.step(), Ok(()));
    assert_eq!(em.get_memory(0xfffc), Ok(0x34));
    assert_eq!(em.get_memory(0xfffd), Ok(0x12));
    assert_eq!(em.stack_pointer, 0xfffc);
    assert_eq!(em.cycle_count, cycles_before + 16);
}

#[test]
fn bit_seven_of_hl_target_sets_flags() {
    for carry_before in [false, true] {
        let mut em = Emulator::new();
        em.h_register = 0xc0;
        em.l_register = 0x00;
        em.flags.carry = carry_before;
        assert_eq!(em.set_memory(0xc000, 0x80), Ok(()));
        em.cartridge_rom_bank0[0x100] = 0xcb;
        em.cartridge_rom_bank0[0x101] = 0x7e;
        assert_eq!(em.step(), Ok(()));
        assert_eq!(em.flags.zero, false);
        assert_eq!(em.flags.subtract, false);
        assert_eq!(em.flags.half_carry, true);
        assert_eq!(em.flags.carry, carry_before);
        assert_eq!(em.program_counter, 0x102);
    }
}

#[test]
fn two_self_loads_change_only_pc_and_cycles() {
    let mut em = Emulator::new();
    em.a_register = 0x42;
    em.b_register = 0x17;
    em.flags.zero = true;
    em.cartridge_rom_bank0[0x100] = 0x7f; // LD A,A
    em.cartridge_rom_bank0[0x101] = 0x40; // LD B,B
    assert_eq!(em.step(), Ok(()));
    assert_eq!(em.step(), Ok(()));
    assert_eq!(em.program_counter, 0x102);
    assert_eq!(em.cycle_count, 8);
    assert_eq!(em.a_register, 0x42);
    assert_eq!(em.b_register, 0x17);
    assert_eq!(em.flags.zero, true);
    assert_eq!(em.stack_pointer, 0xfffe);
}

#[test]
fn relative_jump_backwards_wraps_through_its_own_opcode() {
    let mut em = Emulator::new();
    em.cartridge_rom_bank0[0x100] = 0x18;
    em.cartridge_rom_bank0[0x101] = 0xfe; // -2
    assert_eq!(em.step(), Ok(()));
    assert_eq!(em.program_counter, 0x100);
    assert_eq!(em.cycle_count, 8);
}

#[test]
fn daa_corrects_a_low_nibble_overflow() {
    let mut em = Emulator::new();
    em.a_register = 0x3c;
    em.cartridge_rom_bank0[0x100] = 0x27;
    assert_eq!(em.step(), Ok(()));
    assert_eq!(em.a_register, 0x42);
    assert_eq!(em.flags.carry, false);
    assert_eq!(em.flags.zero, false);
    assert_eq!(em.flags.half_carry, false);
}

#[test]
fn daa_after_bcd_addition_with_carry_out() {
    // 0x90 + 0x90 = 0x20 with carry; DAA corrects to 0x80 and keeps carry.
    let mut em = Emulator::new();
    em.a_register = 0x90;
    em.b_register = 0x90;
    em.cartridge_rom_bank0[0x100] = 0x80; // ADD A,B
    em.cartridge_rom_bank0[0x101] = 0x27; // DAA
    assert_eq!(em.step(), Ok(()));
    assert_eq!(em.a_register, 0x20);
    assert_eq!(em.flags.carry, true);
    assert_eq!(em.step(), Ok(()));
    assert_eq!(em.a_register, 0x80);
    assert_eq!(em.flags.carry, true);
}

#[test]
fn push_and_pop_af_round_trip_the_flag_bits() {
    let mut em = Emulator::new();
    em.a_register = 0xab;
    em.flags.zero = true;
    em.flags.carry = true;
    em.cartridge_rom_bank0[0x100] = 0xf5; // PUSH AF
    em.cartridge_rom_bank0[0x101] = 0xf1; // POP AF
    assert_eq!(em.step(), Ok(()));
    assert_eq!(em.get_memory(0xfffd), Ok(0xab));
    assert_eq!(em.get_memory(0xfffc), Ok(0x90));
    em.a_register = 0;
    em.flags.zero = false;
    em.flags.carry = false;
    assert_eq!(em.step(), Ok(()));
    assert_eq!(em.a_register, 0xab);
    assert_eq!(em.flags.zero, true);
    assert_eq!(em.flags.subtract, false);
    assert_eq!(em.flags.half_carry, false);
    assert_eq!(em.flags.carry, true);
    assert_eq!(em.stack_pointer, 0xfffe);
}

#[test]
fn call_pushes_the_address_past_the_operands() {
    let mut em = Emulator::new();
    em.cartridge_rom_bank0[0x100] = 0xcd; // CALL 0x1234
    em.cartridge_rom_bank0[0x101] = 0x34;
    em.cartridge_rom_bank0[0x102] = 0x12;
    assert_eq!(em.step(), Ok(()));
    assert_eq!(em.program_counter, 0x1234);
    assert_eq!(em.get_memory(0xfffc), Ok(0x03));
    assert_eq!(em.get_memory(0xfffd), Ok(0x01));
    assert_eq!(em.stack_pointer, 0xfffc);
}

#[test]
fn step_fails_when_the_program_counter_would_wrap() {
    let mut em = Emulator::new();
    em.program_counter = 0xffff;
    assert_eq!(
        em.step(),
        Err(StepError::Boundary(ArithmeticBoundaryError::PcOverflow))
    );
    assert_eq!(em.program_counter, 0xffff);
}

#[test]
fn step_fails_when_fetching_from_an_unmapped_region() {
    let mut em = Emulator::new();
    em.program_counter = 0xa000;
    assert_eq!(
        em.step(),
        Err(StepError::Memory(MemoryAccessError::IllegalRead(0xa000)))
    );
    assert_eq!(em.program_counter, 0xa001);
}

#[test]
fn push_fails_when_the_stack_would_underrun_the_address_space() {
    let mut em = Emulator::new();
    em.stack_pointer = 0x0001;
    em.cartridge_rom_bank0[0x100] = 0xc5; // PUSH BC
    assert_eq!(
        em.step(),
        Err(StepError::Boundary(ArithmeticBoundaryError::StackOverflow))
    );
    assert_eq!(em.stack_pointer, 0x0001);
}

#[test]
fn pop_fails_when_the_stack_pointer_would_wrap() {
    let mut em = Emulator::new();
    em.stack_pointer = 0xfffe;
    em.cartridge_rom_bank0[0x100] = 0xc1; // POP BC
    assert_eq!(
        em.step(),
        Err(StepError::Boundary(ArithmeticBoundaryError::StackUnderflow))
    );
    assert_eq!(em.stack_pointer, 0xfffe);
}

#[test]
fn sixteen_bit_store_fails_past_the_top_of_memory() {
    let mut em = Emulator::new();
    em.cartridge_rom_bank0[0x100] = 0x08; // LD (nn),SP
    em.cartridge_rom_bank0[0x101] = 0xff;
    em.cartridge_rom_bank0[0x102] = 0xff;
    assert_eq!(
        em.step(),
        Err(StepError::Boundary(ArithmeticBoundaryError::AddressOverflow))
    );
    // The low byte landed in the interrupt-enable register first.
    assert_eq!(em.interrupts_enabled, 0xfe);
}

#[test]
fn push_into_rom_aborts_the_instruction_and_keeps_partial_effects() {
    let mut em = Emulator::new();
    em.stack_pointer = 0x8002;
    em.h_register = 0x12;
    em.l_register = 0x34;
    em.cartridge_rom_bank0[0x100] = 0xe5; // PUSH HL at 0x8000: first byte lands
    assert_eq!(em.step(), Ok(()));
    assert_eq!(em.get_memory(0x8000), Ok(0x34));
    em.stack_pointer = 0x0002;
    em.program_counter = 0x100;
    assert_eq!(
        em.step(),
        Err(StepError::Memory(MemoryAccessError::IllegalWrite(0x0000)))
    );
    assert_eq!(em.stack_pointer, 0x0002);
}

#[test]
fn load_rom_accepts_a_plain_32k_image() {
    let mut rom = vec![0u8; 0x8000];
    rom[0x147] = 0;
    rom[0x148] = 0;
    rom[0] = 0xaa;
    rom[0x4000] = 0xbb;
    rom[0x7fff] = 0xcc;
    let em = Emulator::load_rom(&rom).unwrap();
    assert_eq!(em.cartridge_rom_bank0[0], 0xaa);
    assert_eq!(em.cartridge_rom_bank1[0], 0xbb);
    assert_eq!(em.cartridge_rom_bank1[0x3fff], 0xcc);
    assert_eq!(em.program_counter, 0x100);
    assert_eq!(em.stack_pointer, 0xfffe);
}

#[test]
fn load_rom_rejects_malformed_images() {
    assert_eq!(
        Emulator::load_rom(&[0u8; 0x100]).err(),
        Some(LoadError::TooSmall)
    );

    let mut rom = vec![0u8; 0x8000];
    rom[0x147] = 2;
    assert_eq!(
        Emulator::load_rom(&rom).err(),
        Some(LoadError::UnsupportedCartridgeType(2))
    );

    // A bank-controller cartridge is rejected even at the 32KB size.
    let mut rom = vec![0u8; 0x8000];
    rom[0x147] = 1;
    assert_eq!(
        Emulator::load_rom(&rom).err(),
        Some(LoadError::UnsupportedCartridgeType(1))
    );

    let mut rom = vec![0u8; 0x8000];
    rom[0x148] = 1;
    assert_eq!(
        Emulator::load_rom(&rom).err(),
        Some(LoadError::UnsupportedRomSize(1))
    );

    let rom = vec![0u8; 0x4000];
    assert_eq!(
        Emulator::load_rom(&rom).err(),
        Some(LoadError::RomSizeMismatch)
    );
}

#[test]
fn screen_reads_tile_rows_bit_seven_leftmost() {
    let mut em = Emulator::new();
    em.bg_map_data[0] = 1;
    em.character_ram[16] = 0x80; // tile 1, row 0, first colour byte
    em.character_ram[17] = 0x01; // tile 1, row 0, second colour byte
    let screen = em.get_screen();
    assert_eq!(screen.get_pixel(0, 0), Pixel::DarkGray);
    assert_eq!(screen.get_pixel(7, 0), Pixel::LightGray);
    assert_eq!(screen.get_pixel(1, 0), Pixel::White);
    assert_eq!(screen.get_pixel(8, 0), Pixel::White);
}

#[test]
fn halt_and_stop_set_their_flags() {
    let mut em = Emulator::new();
    em.cartridge_rom_bank0[0x100] = 0x76; // HALT
    em.cartridge_rom_bank0[0x101] = 0x10; // STOP
    em.cartridge_rom_bank0[0x102] = 0x00;
    assert_eq!(em.step(), Ok(()));
    assert!(em.halted);
    assert!(!em.stopped);
    assert_eq!(em.step(), Ok(()));
    assert!(em.stopped);
}

#[test]
fn interrupt_enable_register_is_memory_mapped() {
    let mut em = Emulator::new();
    em.cartridge_rom_bank0[0x100] = 0xfb; // EI
    em.cartridge_rom_bank0[0x101] = 0xf3; // DI
    assert_eq!(em.step(), Ok(()));
    assert!(em.interrupt_master_enable);
    assert_eq!(em.step(), Ok(()));
    assert!(!em.interrupt_master_enable);
    assert_eq!(em.set_memory(0xffff, 0x1f), Ok(()));
    assert_eq!(em.get_memory(0xffff), Ok(0x1f));
    assert_eq!(em.interrupts_enabled, 0x1f);
}

#[test]
fn ccf_flips_carry_and_clears_subtract_and_half_carry() {
    for carry_before in [false, true] {
        let mut em = Emulator::new();
        em.flags.zero = true;
        em.flags.subtract = true;
        em.flags.half_carry = true;
        em.flags.carry = carry_before;
        em.cartridge_rom_bank0[0x100] = 0x3f;
        assert_eq!(em.step(), Ok(()));
        assert_eq!(em.flags.zero, true);
        assert_eq!(em.flags.subtract, false);
        assert_eq!(em.flags.half_carry, false);
        assert_eq!(em.flags.carry, !carry_before);
        assert_eq!(em.cycle_count, 4);
    }
}

#[test]
fn ld_sp_hl_loads_the_stack_pointer_from_hl() {
    let mut em = Emulator::new();
    em.h_register = 0x12;
    em.l_register = 0x34;
    em.cartridge_rom_bank0[0x100] = 0xf9;
    assert_eq!(em.step(), Ok(()));
    assert_eq!(em.stack_pointer, 0x1234);
    assert_eq!(em.h_register, 0x12);
    assert_eq!(em.l_register, 0x34);
    assert_eq!(em.cycle_count, 8);
}

#[test]
fn ldhl_sp_n_forms_the_sum_and_sets_the_add_flags() {
    let mut em = Emulator::new();
    em.stack_pointer = 0xfff8;
    em.flags.zero = true;
    em.cartridge_rom_bank0[0x100] = 0xf8;
    em.cartridge_rom_bank0[0x101] = 0x08;
    assert_eq!(em.step(), Ok(()));
    assert_eq!(em.h_register, 0x00);
    assert_eq!(em.l_register, 0x00);
    assert_eq!(em.stack_pointer, 0xfff8);
    assert_eq!(em.flags.zero, false);
    assert_eq!(em.flags.subtract, false);
    assert_eq!(em.flags.half_carry, true);
    assert_eq!(em.flags.carry, true);
    assert_eq!(em.cycle_count, 12);
}

#[test]
fn ldhl_sp_n_takes_a_negative_displacement() {
    let mut em = Emulator::new();
    em.stack_pointer = 0x0100;
    em.cartridge_rom_bank0[0x100] = 0xf8;
    em.cartridge_rom_bank0[0x101] = 0xfe; // -2
    assert_eq!(em.step(), Ok(()));
    assert_eq!(em.h_register, 0x00);
    assert_eq!(em.l_register, 0xfe);
    assert_eq!(em.stack_pointer, 0x0100);
}
