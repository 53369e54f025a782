//! ROM loading: copies an image into the cartridge ROM backing, with the
//! capacity check the surrounding loader relies on.

use vstd::prelude::*;

use crate::machine::Cartridge;
use crate::machine::GB;
use crate::view::CpuView;

verus! {

broadcast use vstd::array::group_array_axioms;

impl Cartridge {
    /// Copies a ROM image into the ROM backing. An image larger than the
    /// 32 KiB capacity is rejected and nothing changes; otherwise the
    /// image occupies the first bytes and the rest of the backing keeps
    /// its previous contents.
    pub fn load_application(&mut self, data: &Vec<u8>) -> (ok: bool)
        ensures
            ok == (data@.len() <= 0x8000),
            final(self)@.ram == old(self)@.ram,
            final(self)@.rom_writable == old(self)@.rom_writable,
            final(self)@.rom.len() == 0x8000,
            !ok ==> final(self)@ == old(self)@,
            ok ==> forall|i: int|
                0 <= i < 0x8000 ==> final(self)@.rom[i] == (if i < data@.len() {
                    data@[i]
                } else {
                    old(self)@.rom[i]
                }),
    {
        if data.len() > 0x8000 {
            return false;
        }
        let n = data.len();
        let mut i: usize = 0;
        while i < n
            invariant
                n == data@.len() <= 0x8000,
                i <= n,
                self.ram == old(self).ram,
                self.rom_writable == old(self).rom_writable,
                forall|j: int|
                    0 <= j < 0x8000 ==> self.rom@[j] == (if j < i {
                        data@[j]
                    } else {
                        old(self).rom@[j]
                    }),
            decreases n - i,
        {
            self.rom[i] = data[i];
            i = i + 1;
        }
        true
    }
}

impl GB {
    /// Loads a ROM image into the cartridge, rejecting one larger than
    /// the ROM capacity; nothing else of the machine state changes.
    pub fn load_application(&mut self, data: &Vec<u8>) -> (ok: bool)
        ensures
            ok == (data@.len() <= 0x8000),
            final(self)@ == (CpuView { cart: final(self)@.cart, ..old(self)@ }),
            final(self)@.cart.ram == old(self)@.cart.ram,
            final(self)@.cart.rom_writable == old(self)@.cart.rom_writable,
            !ok ==> final(self)@ == old(self)@,
            ok ==> forall|i: int|
                0 <= i < 0x8000 ==> final(self)@.cart.rom[i] == (if i < data@.len() {
                    data@[i]
                } else {
                    old(self)@.cart.rom[i]
                }),
    {
        self.cart.load_application(data)
    }
}

} // verus!
