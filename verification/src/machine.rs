//! The concrete machine: the cartridge and the core with its register file,
//! flags, interrupt latches, and backing memory.

use vstd::prelude::*;

use crate::view::CartView;
use crate::view::CpuView;

verus! {

broadcast use vstd::array::group_array_axioms;

/// The minimal cartridge model: 32 KiB of ROM, 8 KiB of RAM, and the
/// bank-control decision of whether writes into the ROM address range
/// are accepted into the backing store.
pub struct Cartridge {
    pub(crate) rom: [u8; 0x8000],
    pub(crate) ram: [u8; 0x2000],
    pub(crate) rom_writable: bool,
}

impl View for Cartridge {
    type V = CartView;

    open(crate) spec fn view(&self) -> CartView {
        CartView { rom: self.rom@, ram: self.ram@, rom_writable: self.rom_writable }
    }
}

impl Cartridge {
    /// A blank cartridge: zeroed ROM and RAM. It accepts writes into the
    /// ROM range, which makes it usable as a test fixture with RAM behind
    /// the ROM addresses.
    pub fn new() -> (cart: Cartridge)
        ensures
            cart@.rom =~= Seq::new(0x8000, |i: int| 0u8),
            cart@.ram =~= Seq::new(0x2000, |i: int| 0u8),
            cart@.rom_writable,
    {
        Cartridge { rom: [0u8; 0x8000], ram: [0u8; 0x2000], rom_writable: true }
    }
}

/// The CPU core together with the memory bus it owns.
pub struct GB {
    pub(crate) cart: Cartridge,
    pub(crate) vram: [u8; 0x2000],
    pub(crate) wram: [u8; 0x2000],
    pub(crate) oam: [u8; 0xA0],
    pub(crate) io: [u8; 0x80],
    pub(crate) hram: [u8; 0x7F],
    pub(crate) ie: u8,
    pub(crate) ime: bool,
    pub(crate) a: u8,
    pub(crate) b: u8,
    pub(crate) c: u8,
    pub(crate) d: u8,
    pub(crate) e: u8,
    pub(crate) h: u8,
    pub(crate) l: u8,
    pub(crate) f_z: bool,
    pub(crate) f_n: bool,
    pub(crate) f_h: bool,
    pub(crate) f_c: bool,
    pub(crate) sp: u16,
    pub(crate) pc: u16,
}

impl View for GB {
    type V = CpuView;

    open(crate) spec fn view(&self) -> CpuView {
        CpuView {
            a: self.a,
            b: self.b,
            c: self.c,
            d: self.d,
            e: self.e,
            h: self.h,
            l: self.l,
            zf: self.f_z,
            nf: self.f_n,
            hf: self.f_h,
            cf: self.f_c,
            sp: self.sp,
            pc: self.pc,
            ime: self.ime,
            ie: self.ie,
            cart: self.cart@,
            vram: self.vram@,
            wram: self.wram@,
            oam: self.oam@,
            io: self.io@,
            hram: self.hram@,
        }
    }
}

impl GB {
    /// Power-on state: every register zero except SP = 0xFFFE; IME clear;
    /// PC = 0; all memory regions zeroed.
    pub fn new() -> (gb: GB)
        ensures
            gb@.a == 0 && gb@.b == 0 && gb@.c == 0 && gb@.d == 0 && gb@.e == 0,
            gb@.h == 0 && gb@.l == 0,
            !gb@.zf && !gb@.nf && !gb@.hf && !gb@.cf,
            gb@.sp == 0xFFFE,
            gb@.pc == 0,
            !gb@.ime,
            gb@.ie == 0,
            gb@.cart.rom =~= Seq::new(0x8000, |i: int| 0u8),
            gb@.cart.ram =~= Seq::new(0x2000, |i: int| 0u8),
            gb@.cart.rom_writable,
            gb@.vram =~= Seq::new(0x2000, |i: int| 0u8),
            gb@.wram =~= Seq::new(0x2000, |i: int| 0u8),
            gb@.oam =~= Seq::new(0xA0, |i: int| 0u8),
            gb@.io =~= Seq::new(0x80, |i: int| 0u8),
            gb@.hram =~= Seq::new(0x7F, |i: int| 0u8),
            gb@.wf(),
    {
        GB {
            cart: Cartridge::new(),
            vram: [0u8; 0x2000],
            wram: [0u8; 0x2000],
            oam: [0u8; 0xA0],
            io: [0u8; 0x80],
            hram: [0u8; 0x7F],
            ie: 0,
            ime: false,
            a: 0,
            b: 0,
            c: 0,
            d: 0,
            e: 0,
            h: 0,
            l: 0,
            f_z: false,
            f_n: false,
            f_h: false,
            f_c: false,
            sp: 0xFFFE,
            pc: 0,
        }
    }

    /// Every reachable core state is well-formed: the backing regions have
    /// their fixed sizes by construction.
    pub proof fn lemma_wf(&self)
        ensures
            self@.wf(),
    {
    }
}

} // verus!
