//! Mathematical model of the machine: the abstract state that every
//! contract in the library speaks about.

use vstd::prelude::*;

use crate::bytes::word16;

verus! {

/// Abstract state of the cartridge: the two backing stores and the
/// bank-control policy for writes into the ROM address range.
#[verifier::ext_equal]
pub struct CartView {
    /// 32 KiB of cartridge ROM backing (banks 0 and N).
    pub rom: Seq<u8>,
    /// 8 KiB of cartridge RAM backing.
    pub ram: Seq<u8>,
    /// Whether the bank controller accepts writes into the ROM range
    /// (a test-fixture cartridge does; a faithful one drops them).
    pub rom_writable: bool,
}

/// Abstract state of the whole core: registers, flags, the
/// interrupt-master-enable latch, and every backing region of the bus.
#[verifier::ext_equal]
pub struct CpuView {
    pub a: u8,
    pub b: u8,
    pub c: u8,
    pub d: u8,
    pub e: u8,
    pub h: u8,
    pub l: u8,
    /// Zero flag (bit 7 of F).
    pub zf: bool,
    /// Subtract flag (bit 6 of F).
    pub nf: bool,
    /// Half-carry flag (bit 5 of F).
    pub hf: bool,
    /// Carry flag (bit 4 of F).
    pub cf: bool,
    pub sp: u16,
    pub pc: u16,
    /// Interrupt-master-enable latch (one bit, distinct from the IE byte).
    pub ime: bool,
    /// Interrupt-enable byte latched at address 0xFFFF.
    pub ie: u8,
    pub cart: CartView,
    /// 8 KiB of video RAM.
    pub vram: Seq<u8>,
    /// 8 KiB of work RAM (also visible through the 0xE000 mirror).
    pub wram: Seq<u8>,
    /// 160 bytes of object-attribute memory.
    pub oam: Seq<u8>,
    /// 128 bytes of memory-mapped I/O registers.
    pub io: Seq<u8>,
    /// 127 bytes of high RAM.
    pub hram: Seq<u8>,
}

impl CpuView {
    /// The BC register pair.
    pub open spec fn bc(self) -> u16 {
        word16(self.b, self.c)
    }

    /// The DE register pair.
    pub open spec fn de(self) -> u16 {
        word16(self.d, self.e)
    }

    /// The HL register pair.
    pub open spec fn hl(self) -> u16 {
        word16(self.h, self.l)
    }

    /// The F register: the four flags packed into the high nibble,
    /// with the low nibble always zero.
    pub open spec fn f(self) -> u8 {
        ((if self.zf {
            0x80int
        } else {
            0int
        }) + (if self.nf {
            0x40int
        } else {
            0int
        }) + (if self.hf {
            0x20int
        } else {
            0int
        }) + (if self.cf {
            0x10int
        } else {
            0int
        })) as u8
    }

    /// The AF register pair.
    pub open spec fn af(self) -> u16 {
        word16(self.a, self.f())
    }

    /// The same state with the four flags replaced.
    pub open spec fn with_flags(self, z: bool, n: bool, h: bool, c: bool) -> CpuView {
        CpuView { zf: z, nf: n, hf: h, cf: c, ..self }
    }

    /// Well-formedness: every backing region has its fixed size.
    pub open spec fn wf(self) -> bool {
        &&& self.cart.rom.len() == 0x8000
        &&& self.cart.ram.len() == 0x2000
        &&& self.vram.len() == 0x2000
        &&& self.wram.len() == 0x2000
        &&& self.oam.len() == 0xA0
        &&& self.io.len() == 0x80
        &&& self.hram.len() == 0x7F
    }
}

} // verus!
