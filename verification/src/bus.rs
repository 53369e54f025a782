//! The memory bus: a 64 KiB address space routed to nine backing regions
//! by fixed intervals. `spec_read` and `spec_write` are the mathematical
//! routing; `mem_read` and `mem_write` are the executable bus.

use vstd::prelude::*;

use crate::machine::GB;
use crate::view::CpuView;

verus! {

broadcast use vstd::array::group_array_axioms;

/// The byte an 8-bit bus read returns, by region:
/// ROM banks, video RAM, cartridge RAM, work RAM, the work-RAM mirror,
/// object-attribute memory, the unmapped gap (reads as 0), I/O registers,
/// high RAM, and the interrupt-enable byte.
pub open spec fn spec_read(s: CpuView, addr: u16) -> u8 {
    if addr < 0x8000 {
        s.cart.rom[addr as int]
    } else if addr < 0xA000 {
        s.vram[addr - 0x8000]
    } else if addr < 0xC000 {
        s.cart.ram[addr - 0xA000]
    } else if addr < 0xE000 {
        s.wram[addr - 0xC000]
    } else if addr < 0xFE00 {
        s.wram[addr - 0xE000]
    } else if addr < 0xFEA0 {
        s.oam[addr - 0xFE00]
    } else if addr < 0xFF00 {
        0
    } else if addr < 0xFF80 {
        s.io[addr - 0xFF00]
    } else if addr < 0xFFFF {
        s.hram[addr - 0xFF80]
    } else {
        s.ie
    }
}

/// The state after an 8-bit bus write. Writes into the ROM range reach
/// the backing store only when the cartridge accepts them; writes into
/// the mirror range land in work RAM at the mirrored offset; writes into
/// the unmapped gap are dropped.
pub open spec fn spec_write(s: CpuView, addr: u16, val: u8) -> CpuView {
    if addr < 0x8000 {
        if s.cart.rom_writable {
            CpuView { cart: crate::view::CartView { rom: s.cart.rom.update(addr as int, val), ..s.cart }, ..s }
        } else {
            s
        }
    } else if addr < 0xA000 {
        CpuView { vram: s.vram.update(addr - 0x8000, val), ..s }
    } else if addr < 0xC000 {
        CpuView { cart: crate::view::CartView { ram: s.cart.ram.update(addr - 0xA000, val), ..s.cart }, ..s }
    } else if addr < 0xE000 {
        CpuView { wram: s.wram.update(addr - 0xC000, val), ..s }
    } else if addr < 0xFE00 {
        CpuView { wram: s.wram.update(addr - 0xE000, val), ..s }
    } else if addr < 0xFEA0 {
        CpuView { oam: s.oam.update(addr - 0xFE00, val), ..s }
    } else if addr < 0xFF00 {
        s
    } else if addr < 0xFF80 {
        CpuView { io: s.io.update(addr - 0xFF00, val), ..s }
    } else if addr < 0xFFFF {
        CpuView { hram: s.hram.update(addr - 0xFF80, val), ..s }
    } else {
        CpuView { ie: val, ..s }
    }
}

/// Whether a write to `addr` is stored somewhere a read of some address
/// will see it again (everything but the unmapped gap, and the ROM range
/// of a cartridge that drops such writes).
pub open spec fn write_sticks(s: CpuView, addr: u16) -> bool {
    if addr < 0x8000 {
        s.cart.rom_writable
    } else {
        !(0xFEA0 <= addr < 0xFF00)
    }
}

impl GB {
    /// Routes an address to its region and returns the stored byte.
    pub fn mem_read(&self, addr: u16) -> (r: u8)
        ensures
            r == spec_read(self@, addr),
    {
        if addr < 0x8000 {
            self.cart.rom[addr as usize]
        } else if addr < 0xA000 {
            self.vram[(addr - 0x8000) as usize]
        } else if addr < 0xC000 {
            self.cart.ram[(addr - 0xA000) as usize]
        } else if addr < 0xE000 {
            self.wram[(addr - 0xC000) as usize]
        } else if addr < 0xFE00 {
            self.wram[(addr - 0xE000) as usize]
        } else if addr < 0xFEA0 {
            self.oam[(addr - 0xFE00) as usize]
        } else if addr < 0xFF00 {
            0
        } else if addr < 0xFF80 {
            self.io[(addr - 0xFF00) as usize]
        } else if addr < 0xFFFF {
            self.hram[(addr - 0xFF80) as usize]
        } else {
            self.ie
        }
    }

    /// Routes an address to its region and stores the byte, as
    /// `spec_write` describes.
    pub fn mem_write(&mut self, addr: u16, val: u8)
        ensures
            final(self)@ == spec_write(old(self)@, addr, val),
    {
        if addr < 0x8000 {
            if self.cart.rom_writable {
                self.cart.rom[addr as usize] = val;
            }
        } else if addr < 0xA000 {
            self.vram[(addr - 0x8000) as usize] = val;
        } else if addr < 0xC000 {
            self.cart.ram[(addr - 0xA000) as usize] = val;
        } else if addr < 0xE000 {
            self.wram[(addr - 0xC000) as usize] = val;
        } else if addr < 0xFE00 {
            self.wram[(addr - 0xE000) as usize] = val;
        } else if addr < 0xFEA0 {
            self.oam[(addr - 0xFE00) as usize] = val;
        } else if addr < 0xFF00 {
        } else if addr < 0xFF80 {
            self.io[(addr - 0xFF00) as usize] = val;
        } else if addr < 0xFFFF {
            self.hram[(addr - 0xFF80) as usize] = val;
        } else {
            self.ie = val;
        }
        assert(self@ =~= spec_write(old(self)@, addr, val));
    }

    /// Chooses whether the cartridge accepts writes into the ROM address
    /// range (the bank-control decision of the minimal cartridge model).
    pub fn set_rom_write_enable(&mut self, enable: bool)
        ensures
            final(self)@ == (CpuView {
                cart: (crate::view::CartView { rom_writable: enable, ..old(self)@.cart }),
                ..old(self)@
            }),
    {
        self.cart.rom_writable = enable;
    }
}

} // verus!
