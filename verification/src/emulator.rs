//! The machine state and the memory-address-space router. The 64KB
//! address space is a fixed partition into named regions; reads and
//! writes dispatch by address range, the echo range mirrors work RAM
//! through `address - 0x2000`, and accesses into unmapped ranges are
//! errors rather than silent ignores.
use vstd::prelude::*;
use vstd::pervasive::VecAdditionalExecFns;

use crate::cpu::spec_step;
use crate::cpu::step_cpu;
use crate::cpu::Flags;
use crate::errors::LoadError;
use crate::errors::MemoryAccessError;
use crate::errors::StepError;
use crate::screen::Pixel;
use crate::screen::Screen;
use crate::util::bit_set;
use crate::util::get_bit;

verus! {

/// The mathematical model of the whole machine: registers, flags,
/// counters, the interrupt state, and every memory region as a byte
/// sequence.
#[verifier::ext_equal]
pub ghost struct MachineView {
    pub a: u8,
    pub b: u8,
    pub c: u8,
    pub d: u8,
    pub e: u8,
    pub h: u8,
    pub l: u8,
    pub flags: Flags,
    pub pc: u16,
    pub sp: u16,
    /// The master interrupt-enable flag, toggled by DI, EI and RETI.
    pub ime: bool,
    pub halted: bool,
    pub stopped: bool,
    /// Clock cycles accumulated so far.
    pub cycles: u64,
    /// The interrupt-enable register at address 0xFFFF.
    pub ie_reg: u8,
    pub rom0: Seq<u8>,
    pub rom1: Seq<u8>,
    pub vram_tiles: Seq<u8>,
    pub vram_map: Seq<u8>,
    pub wram0: Seq<u8>,
    pub wram1: Seq<u8>,
    pub oam: Seq<u8>,
    pub hram: Seq<u8>,
}

impl MachineView {
    /// Every memory region has its fixed size.
    pub open spec fn wf(self) -> bool {
        &&& self.rom0.len() == 0x4000
        &&& self.rom1.len() == 0x4000
        &&& self.vram_tiles.len() == 0x1800
        &&& self.vram_map.len() == 0x800
        &&& self.wram0.len() == 0x1000
        &&& self.wram1.len() == 0x1000
        &&& self.oam.len() == 0xa0
        &&& self.hram.len() == 0x7f
    }
}

/// The address an access lands on: the echo range 0xE000..=0xFDFF
/// mirrors the range 0x2000 below it, every other address is itself.
pub open spec fn effective_address(addr: u16) -> u16 {
    if 0xe000 <= addr && addr <= 0xfdff {
        (addr - 0x2000) as u16
    } else {
        addr
    }
}

/// Whether a read from `addr` succeeds: everything but the cartridge-RAM
/// range and the unusable range answers reads.
pub open spec fn readable(addr: u16) -> bool {
    let e = effective_address(addr);
    &&& !(0xa000 <= e && e < 0xc000)
    &&& !(0xfea0 <= e && e < 0xff00)
}

/// Whether a write to `addr` succeeds: as for reads, except that the two
/// ROM banks are read-only.
pub open spec fn writable(addr: u16) -> bool {
    readable(addr) && effective_address(addr) >= 0x8000
}

/// The byte a successful read from `addr` returns. The hardware I/O
/// range 0xFF00..=0xFF7F is not modelled and reads as zero; unreadable
/// addresses are given an arbitrary fixed value to keep the function
/// total.
pub open spec fn read_byte(m: MachineView, addr: u16) -> u8 {
    let e = effective_address(addr);
    if e < 0x4000 {
        m.rom0[e as int]
    } else if e < 0x8000 {
        m.rom1[e - 0x4000]
    } else if e < 0x9800 {
        m.vram_tiles[e - 0x8000]
    } else if e < 0xa000 {
        m.vram_map[e - 0x9800]
    } else if e < 0xc000 {
        0
    } else if e < 0xd000 {
        m.wram0[e - 0xc000]
    } else if e < 0xe000 {
        m.wram1[e - 0xd000]
    } else if e < 0xfe00 {
        0
    } else if e < 0xfea0 {
        m.oam[e - 0xfe00]
    } else if e < 0xff80 {
        0
    } else if e < 0xffff {
        m.hram[e - 0xff80]
    } else {
        m.ie_reg
    }
}

/// The machine after a successful write of `n` to `addr`. A write into
/// the unmodelled hardware I/O range is accepted and has no effect;
/// unwritable addresses leave the machine unchanged to keep the function
/// total.
pub open spec fn write_byte(m: MachineView, addr: u16, n: u8) -> MachineView {
    let e = effective_address(addr);
    if e < 0x8000 {
        m
    } else if e < 0x9800 {
        MachineView { vram_tiles: m.vram_tiles.update(e - 0x8000, n), ..m }
    } else if e < 0xa000 {
        MachineView { vram_map: m.vram_map.update(e - 0x9800, n), ..m }
    } else if e < 0xc000 {
        m
    } else if e < 0xd000 {
        MachineView { wram0: m.wram0.update(e - 0xc000, n), ..m }
    } else if e < 0xe000 {
        MachineView { wram1: m.wram1.update(e - 0xd000, n), ..m }
    } else if e < 0xfe00 {
        m
    } else if e < 0xfea0 {
        MachineView { oam: m.oam.update(e - 0xfe00, n), ..m }
    } else if e < 0xff80 {
        m
    } else if e < 0xffff {
        MachineView { hram: m.hram.update(e - 0xff80, n), ..m }
    } else {
        MachineView { ie_reg: n, ..m }
    }
}

/// The power-on machine: SP 0xFFFE, PC 0x0100, registers and flags
/// cleared, interrupt-enable register 0x0F, all memory zeroed.
pub open spec fn spec_power_on() -> MachineView {
    MachineView {
        a: 0,
        b: 0,
        c: 0,
        d: 0,
        e: 0,
        h: 0,
        l: 0,
        flags: Flags { zero: false, subtract: false, half_carry: false, carry: false },
        pc: 0x100,
        sp: 0xfffe,
        ime: false,
        halted: false,
        stopped: false,
        cycles: 0,
        ie_reg: 0x0f,
        rom0: Seq::new(0x4000, |i: int| 0u8),
        rom1: Seq::new(0x4000, |i: int| 0u8),
        vram_tiles: Seq::new(0x1800, |i: int| 0u8),
        vram_map: Seq::new(0x800, |i: int| 0u8),
        wram0: Seq::new(0x1000, |i: int| 0u8),
        wram1: Seq::new(0x1000, |i: int| 0u8),
        oam: Seq::new(0xa0, |i: int| 0u8),
        hram: Seq::new(0x7f, |i: int| 0u8),
    }
}

/// Law: every address in the echo range behaves exactly as its mirror
/// 0x2000 below it — it reads the same byte, and a write through either
/// address is the same write through the other.
pub proof fn lemma_echo_region(m: MachineView, addr: u16, n: u8)
    requires
        0xe000 <= addr <= 0xfdff,
    ensures
        read_byte(m, addr) == read_byte(m, (addr - 0x2000) as u16),
        write_byte(m, addr, n) == write_byte(m, (addr - 0x2000) as u16, n),
        readable(addr) == readable((addr - 0x2000) as u16),
        writable(addr) == writable((addr - 0x2000) as u16),
{
}

/// The machine: the CPU registers and counters together with every owned
/// memory region. Created once, then mutated only by the execution
/// engine.
pub struct Emulator {
    /// The interrupt-enable register at address 0xFFFF.
    pub interrupts_enabled: u8,
    /// The master interrupt-enable flag, toggled by DI, EI and RETI.
    pub interrupt_master_enable: bool,
    pub halted: bool,
    pub stopped: bool,
    pub cycle_count: u64,
    pub stack_pointer: u16,
    pub program_counter: u16,

    pub a_register: u8,
    pub b_register: u8,
    pub c_register: u8,
    pub d_register: u8,
    pub e_register: u8,
    pub h_register: u8,
    pub l_register: u8,

    pub flags: Flags,

    pub cartridge_rom_bank0: Vec<u8>,
    pub cartridge_rom_bank1: Vec<u8>,

    pub internal_ram_bank0: Vec<u8>,
    pub internal_ram_bank1: Vec<u8>,
    pub zero_page: Vec<u8>,

    pub character_ram: Vec<u8>,
    pub bg_map_data: Vec<u8>,
    pub sprite_attribute_data: Vec<u8>,
}

impl View for Emulator {
    type V = MachineView;

    open spec fn view(&self) -> MachineView {
        MachineView {
            a: self.a_register,
            b: self.b_register,
            c: self.c_register,
            d: self.d_register,
            e: self.e_register,
            h: self.h_register,
            l: self.l_register,
            flags: self.flags,
            pc: self.program_counter,
            sp: self.stack_pointer,
            ime: self.interrupt_master_enable,
            halted: self.halted,
            stopped: self.stopped,
            cycles: self.cycle_count,
            ie_reg: self.interrupts_enabled,
            rom0: self.cartridge_rom_bank0@,
            rom1: self.cartridge_rom_bank1@,
            vram_tiles: self.character_ram@,
            vram_map: self.bg_map_data@,
            wram0: self.internal_ram_bank0@,
            wram1: self.internal_ram_bank1@,
            oam: self.sprite_attribute_data@,
            hram: self.zero_page@,
        }
    }
}

/// A zero-filled byte vector of the given length.
fn zeroed(n: usize) -> (v: Vec<u8>)
    ensures
        v@ == Seq::new(n as nat, |i: int| 0u8),
{
    let mut v: Vec<u8> = Vec::new();
    let mut i: usize = 0;
    while i < n
        invariant
            i <= n,
            v@.len() == i,
            forall|j: int| 0 <= j < i ==> v@[j] == 0u8,
        decreases n - i,
    {
        v.push(0);
        i = i + 1;
    }
    assert(v@ =~= Seq::new(n as nat, |i: int| 0u8));
    v
}

impl Emulator {
    /// A machine in its power-on state.
    pub fn new() -> (r: Emulator)
        ensures
            r@ == spec_power_on(),
            r@.wf(),
    {
        let r = Emulator {
            interrupts_enabled: 0x0f,
            interrupt_master_enable: false,
            halted: false,
            stopped: false,
            cycle_count: 0,
            stack_pointer: 0xfffe,
            program_counter: 0x100,
            a_register: 0x0,
            b_register: 0x0,
            c_register: 0x0,
            d_register: 0x0,
            e_register: 0x0,
            h_register: 0x0,
            l_register: 0x0,
            flags: Flags { zero: false, subtract: false, half_carry: false, carry: false },
            cartridge_rom_bank0: zeroed(0x4000),
            cartridge_rom_bank1: zeroed(0x4000),
            internal_ram_bank0: zeroed(0x1000),
            internal_ram_bank1: zeroed(0x1000),
            zero_page: zeroed(0x7f),
            character_ram: zeroed(0x1800),
            bg_map_data: zeroed(0x800),
            sprite_attribute_data: zeroed(0x80 + 0x20),
        };
        assert(r@ =~= spec_power_on());
        r
    }

    /// Read one byte through the address-space router.
    pub fn get_memory(&self, addr: u16) -> (r: Result<u8, MemoryAccessError>)
        requires
            self@.wf(),
        ensures
            readable(addr) ==> r == Ok::<u8, MemoryAccessError>(read_byte(self@, addr)),
            !readable(addr) ==> r == Err::<u8, MemoryAccessError>(
                MemoryAccessError::IllegalRead(addr),
            ),
    {
        let a = if 0xe000 <= addr && addr <= 0xfdff {
            addr - 0x2000
        } else {
            addr
        };
        if a < 0x4000 {
            Ok(self.cartridge_rom_bank0[a as usize])
        } else if a < 0x8000 {
            Ok(self.cartridge_rom_bank1[(a - 0x4000) as usize])
        } else if a < 0x9800 {
            Ok(self.character_ram[(a - 0x8000) as usize])
        } else if a < 0xa000 {
            Ok(self.bg_map_data[(a - 0x9800) as usize])
        } else if a < 0xc000 {
            Err(MemoryAccessError::IllegalRead(addr))
        } else if a < 0xd000 {
            Ok(self.internal_ram_bank0[(a - 0xc000) as usize])
        } else if a < 0xe000 {
            Ok(self.internal_ram_bank1[(a - 0xd000) as usize])
        } else if a < 0xfea0 {
            Ok(self.sprite_attribute_data[(a - 0xfe00) as usize])
        } else if a < 0xff00 {
            Err(MemoryAccessError::IllegalRead(addr))
        } else if a < 0xff80 {
            Ok(0x0)
        } else if a < 0xffff {
            Ok(self.zero_page[(a - 0xff80) as usize])
        } else {
            Ok(self.interrupts_enabled)
        }
    }

    /// Write one byte through the address-space router.
    pub fn set_memory(&mut self, addr: u16, n: u8) -> (r: Result<(), MemoryAccessError>)
        requires
            old(self)@.wf(),
        ensures
            final(self)@.wf(),
            writable(addr) ==> r == Ok::<(), MemoryAccessError>(()) && final(self)@ == write_byte(
                old(self)@,
                addr,
                n,
            ),
            !writable(addr) ==> r == Err::<(), MemoryAccessError>(
                MemoryAccessError::IllegalWrite(addr),
            ) && final(self)@ == old(self)@,
    {
        let a = if 0xe000 <= addr && addr <= 0xfdff {
            addr - 0x2000
        } else {
            addr
        };
        if a < 0x8000 {
            Err(MemoryAccessError::IllegalWrite(addr))
        } else if a < 0x9800 {
            self.character_ram.set((a - 0x8000) as usize, n);
            Ok(())
        } else if a < 0xa000 {
            self.bg_map_data.set((a - 0x9800) as usize, n);
            Ok(())
        } else if a < 0xc000 {
            Err(MemoryAccessError::IllegalWrite(addr))
        } else if a < 0xd000 {
            self.internal_ram_bank0.set((a - 0xc000) as usize, n);
            Ok(())
        } else if a < 0xe000 {
            self.internal_ram_bank1.set((a - 0xd000) as usize, n);
            Ok(())
        } else if a < 0xfea0 {
            self.sprite_attribute_data.set((a - 0xfe00) as usize, n);
            Ok(())
        } else if a < 0xff00 {
            Err(MemoryAccessError::IllegalWrite(addr))
        } else if a < 0xff80 {
            Ok(())
        } else if a < 0xffff {
            self.zero_page.set((a - 0xff80) as usize, n);
            Ok(())
        } else {
            self.interrupts_enabled = n;
            Ok(())
        }
    }
}


/// What loading a cartridge image yields: the power-on machine with the
/// image copied into the two fixed ROM banks, or the load error. The
/// image must be at least one bank long, name the cartridge type without
/// a bank controller, and declare (and have) exactly the two-bank 32KB
/// size.
pub open spec fn spec_load_rom(rom: Seq<u8>) -> Result<MachineView, LoadError> {
    if rom.len() < 0x4000 {
        Err(LoadError::TooSmall)
    } else if rom[0x147] != 0 {
        Err(LoadError::UnsupportedCartridgeType(rom[0x147]))
    } else if rom[0x148] != 0 {
        Err(LoadError::UnsupportedRomSize(rom[0x148]))
    } else if rom.len() != 0x8000 {
        Err(LoadError::RomSizeMismatch)
    } else {
        Ok(
            MachineView {
                rom0: rom.subrange(0, 0x4000),
                rom1: rom.subrange(0x4000, 0x8000),
                ..spec_power_on()
            },
        )
    }
}

/// The shade of the background pixel at column `x`, row `y`: the
/// background map names a tile, two bytes of that tile's row encode one
/// colour bit each, and bit 7 is the leftmost column.
pub open spec fn spec_pixel(m: MachineView, x: int, y: int) -> Pixel {
    let tile = m.vram_map[(y / 8) * 32 + x / 8];
    let b1 = m.vram_tiles[tile * 16 + (y % 8) * 2];
    let b2 = m.vram_tiles[tile * 16 + (y % 8) * 2 + 1];
    let column = (7 - x % 8) as u8;
    if bit_set(b1, column) {
        if bit_set(b2, column) {
            Pixel::Black
        } else {
            Pixel::DarkGray
        }
    } else {
        if bit_set(b2, column) {
            Pixel::LightGray
        } else {
            Pixel::White
        }
    }
}

impl Emulator {
    /// Validate a raw cartridge image and load it: the image must hold at
    /// least one ROM bank, name the cartridge type without a bank
    /// controller, and declare (and have) exactly the 32KB two-bank size.
    /// On success
    /// the machine is the power-on state with the image in its two ROM
    /// banks.
    pub fn load_rom(rom: &[u8]) -> (r: Result<Emulator, LoadError>)
        ensures
            match r {
                Ok(em) => spec_load_rom(rom@) == Ok::<MachineView, LoadError>(em@) && em@.wf(),
                Err(e) => spec_load_rom(rom@) == Err::<MachineView, LoadError>(e),
            },
    {
        if rom.len() < 0x4000 {
            return Err(LoadError::TooSmall);
        }
        let cart_type = rom[0x147];
        let rom_size = rom[0x148];

        if cart_type != 0 {
            return Err(LoadError::UnsupportedCartridgeType(cart_type));
        }
        if rom_size != 0 {
            return Err(LoadError::UnsupportedRomSize(rom_size));
        }
        if rom.len() != 0x8000 {
            return Err(LoadError::RomSizeMismatch);
        }

        let mut state = Emulator::new();
        let mut i: usize = 0;
        while i < 0x4000
            invariant
                i <= 0x4000,
                rom@.len() == 0x8000,
                state@ == (MachineView { rom0: state@.rom0, ..spec_power_on() }),
                state@.rom0.len() == 0x4000,
                forall|j: int| 0 <= j < i ==> state@.rom0[j] == rom@[j],
            decreases 0x4000 - i,
        {
            state.cartridge_rom_bank0.set(i, rom[i]);
            i = i + 1;
        }
        let mut i: usize = 0;
        while i < 0x4000
            invariant
                i <= 0x4000,
                rom@.len() == 0x8000,
                state@ == (MachineView { rom0: state@.rom0, rom1: state@.rom1, ..spec_power_on() }),
                state@.rom0.len() == 0x4000,
                state@.rom1.len() == 0x4000,
                forall|j: int| 0 <= j < 0x4000 ==> state@.rom0[j] == rom@[j],
                forall|j: int| 0 <= j < i ==> state@.rom1[j] == rom@[0x4000 + j],
            decreases 0x4000 - i,
        {
            state.cartridge_rom_bank1.set(i, rom[0x4000 + i]);
            i = i + 1;
        }
        proof {
            assert(state@.rom0 =~= rom@.subrange(0, 0x4000));
            assert(state@.rom1 =~= rom@.subrange(0x4000, 0x8000));
            assert(state@ =~= (MachineView {
                rom0: rom@.subrange(0, 0x4000),
                rom1: rom@.subrange(0x4000, 0x8000),
                ..spec_power_on()
            }));
        }
        Ok(state)
    }

    /// Perform one fetch/decode/execute cycle.
    pub fn step(&mut self) -> (r: Result<(), StepError>)
        requires
            old(self)@.wf(),
        ensures
            final(self)@.wf(),
            ({
                let (m2, e) = spec_step(old(self)@);
                final(self)@ == m2 && (match r {
                    Ok(_) => e is None,
                    Err(err) => e == Some(err),
                })
            }),
    {
        step_cpu(self)
    }

    /// Render the background map into a pixel grid, reading the tile
    /// bytes from character RAM; the machine is not changed.
    pub fn get_screen(&self) -> (s: Screen)
        requires
            self@.wf(),
        ensures
            s@.len() == 160 * 144,
            forall|x: int, y: int|
                0 <= x < 160 && 0 <= y < 144 ==> s@[y * 160 + x] == spec_pixel(self@, x, y),
    {
        let mut screen = Screen::new();
        let mut y: usize = 0;
        while y < 144
            invariant
                self@.wf(),
                y <= 144,
                screen@.len() == 160 * 144,
                forall|xx: int, yy: int|
                    0 <= xx < 160 && 0 <= yy < y ==> screen@[yy * 160 + xx] == spec_pixel(
                        self@,
                        xx,
                        yy,
                    ),
            decreases 144 - y,
        {
            let mut x: usize = 0;
            while x < 160
                invariant
                    self@.wf(),
                    y < 144,
                    x <= 160,
                    screen@.len() == 160 * 144,
                    forall|xx: int, yy: int|
                        0 <= xx < 160 && 0 <= yy < y ==> screen@[yy * 160 + xx] == spec_pixel(
                            self@,
                            xx,
                            yy,
                        ),
                    forall|xx: int|
                        0 <= xx < x ==> screen@[y * 160 + xx] == spec_pixel(self@, xx, y as int),
                decreases 160 - x,
            {
                let tile = self.bg_map_data[(y / 8) * 32 + x / 8];
                let b1 = self.character_ram[tile as usize * 16 + (y % 8) * 2];
                let b2 = self.character_ram[tile as usize * 16 + (y % 8) * 2 + 1];
                let column = (7 - (x % 8)) as u8;
                let p = match (get_bit(b1, column), get_bit(b2, column)) {
                    (false, false) => Pixel::White,
                    (false, true) => Pixel::LightGray,
                    (true, false) => Pixel::DarkGray,
                    (true, true) => Pixel::Black,
                };
                screen.set_pixel(x as u8, y as u8, p);
                x = x + 1;
            }
            y = y + 1;
        }
        screen
    }
}

} // verus!
