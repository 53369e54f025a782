//! Register-file accessors: the 8-bit half views, the 16-bit pairs, the
//! four flag bits packed in F, and the interrupt latches.
//!
//! Flag accessors speak in 0/1 bytes, as the surrounding emulator does.
//! The flags are stored as individual bits, so the low nibble of F is
//! zero on every path by construction.

use vstd::prelude::*;

use crate::bytes::bit_get;
use crate::bytes::hi8;
use crate::bytes::lo8;
use crate::bytes::word16;
use crate::machine::GB;
use crate::view::CpuView;

verus! {

impl GB {
    pub fn get_a(&self) -> (r: u8)
        ensures
            r == self@.a,
    {
        self.a
    }

    pub fn get_b(&self) -> (r: u8)
        ensures
            r == self@.b,
    {
        self.b
    }

    pub fn get_c(&self) -> (r: u8)
        ensures
            r == self@.c,
    {
        self.c
    }

    pub fn get_d(&self) -> (r: u8)
        ensures
            r == self@.d,
    {
        self.d
    }

    pub fn get_e(&self) -> (r: u8)
        ensures
            r == self@.e,
    {
        self.e
    }

    pub fn get_h(&self) -> (r: u8)
        ensures
            r == self@.h,
    {
        self.h
    }

    pub fn get_l(&self) -> (r: u8)
        ensures
            r == self@.l,
    {
        self.l
    }

    pub fn set_a(&mut self, val: u8)
        ensures
            final(self)@ == (CpuView { a: val, ..old(self)@ }),
    {
        self.a = val;
    }

    pub fn set_b(&mut self, val: u8)
        ensures
            final(self)@ == (CpuView { b: val, ..old(self)@ }),
    {
        self.b = val;
    }

    pub fn set_c(&mut self, val: u8)
        ensures
            final(self)@ == (CpuView { c: val, ..old(self)@ }),
    {
        self.c = val;
    }

    pub fn set_d(&mut self, val: u8)
        ensures
            final(self)@ == (CpuView { d: val, ..old(self)@ }),
    {
        self.d = val;
    }

    pub fn set_e(&mut self, val: u8)
        ensures
            final(self)@ == (CpuView { e: val, ..old(self)@ }),
    {
        self.e = val;
    }

    pub fn set_h(&mut self, val: u8)
        ensures
            final(self)@ == (CpuView { h: val, ..old(self)@ }),
    {
        self.h = val;
    }

    pub fn set_l(&mut self, val: u8)
        ensures
            final(self)@ == (CpuView { l: val, ..old(self)@ }),
    {
        self.l = val;
    }

    pub fn get_bc(&self) -> (r: u16)
        ensures
            r == self@.bc(),
    {
        ((self.b as u16) << 8) | (self.c as u16)
    }

    pub fn get_de(&self) -> (r: u16)
        ensures
            r == self@.de(),
    {
        ((self.d as u16) << 8) | (self.e as u16)
    }

    pub fn get_hl(&self) -> (r: u16)
        ensures
            r == self@.hl(),
    {
        ((self.h as u16) << 8) | (self.l as u16)
    }

    pub fn get_af(&self) -> (r: u16)
        ensures
            r == self@.af(),
    {
        let f: u8 = (if self.f_z { 0x80u8 } else { 0u8 }) + (if self.f_n { 0x40u8 } else { 0u8 })
            + (if self.f_h { 0x20u8 } else { 0u8 }) + (if self.f_c { 0x10u8 } else { 0u8 });
        ((self.a as u16) << 8) | (f as u16)
    }

    pub fn get_sp(&self) -> (r: u16)
        ensures
            r == self@.sp,
    {
        self.sp
    }

    pub fn get_pc(&self) -> (r: u16)
        ensures
            r == self@.pc,
    {
        self.pc
    }

    pub fn set_bc(&mut self, val: u16)
        ensures
            final(self)@ == (CpuView { b: hi8(val), c: lo8(val), ..old(self)@ }),
            final(self)@.bc() == val,
    {
        self.b = (val >> 8) as u8;
        self.c = (val & 0xFF) as u8;
        proof {
            crate::bytes::lemma_word_roundtrip(val);
        }
    }

    pub fn set_de(&mut self, val: u16)
        ensures
            final(self)@ == (CpuView { d: hi8(val), e: lo8(val), ..old(self)@ }),
            final(self)@.de() == val,
    {
        self.d = (val >> 8) as u8;
        self.e = (val & 0xFF) as u8;
        proof {
            crate::bytes::lemma_word_roundtrip(val);
        }
    }

    pub fn set_hl(&mut self, val: u16)
        ensures
            final(self)@ == (CpuView { h: hi8(val), l: lo8(val), ..old(self)@ }),
            final(self)@.hl() == val,
    {
        self.h = (val >> 8) as u8;
        self.l = (val & 0xFF) as u8;
        proof {
            crate::bytes::lemma_word_roundtrip(val);
        }
    }

    /// Writes the AF pair. The low nibble of the popped F byte is
    /// discarded: only the four flag bits are stored.
    pub fn set_af(&mut self, val: u16)
        ensures
            final(self)@ == (CpuView {
                a: hi8(val),
                zf: bit_get(lo8(val), 7),
                nf: bit_get(lo8(val), 6),
                hf: bit_get(lo8(val), 5),
                cf: bit_get(lo8(val), 4),
                ..old(self)@
            }),
    {
        self.a = (val >> 8) as u8;
        let f: u8 = (val & 0xFF) as u8;
        self.f_z = (f >> 7) & 1 == 1;
        self.f_n = (f >> 6) & 1 == 1;
        self.f_h = (f >> 5) & 1 == 1;
        self.f_c = (f >> 4) & 1 == 1;
    }

    pub fn set_sp(&mut self, val: u16)
        ensures
            final(self)@ == (CpuView { sp: val, ..old(self)@ }),
    {
        self.sp = val;
    }

    pub fn set_pc(&mut self, val: u16)
        ensures
            final(self)@ == (CpuView { pc: val, ..old(self)@ }),
    {
        self.pc = val;
    }

    pub fn get_z(&self) -> (r: u8)
        ensures
            r == (if self@.zf {
                1u8
            } else {
                0u8
            }),
    {
        if self.f_z {
            1
        } else {
            0
        }
    }

    pub fn get_n(&self) -> (r: u8)
        ensures
            r == (if self@.nf {
                1u8
            } else {
                0u8
            }),
    {
        if self.f_n {
            1
        } else {
            0
        }
    }

    pub fn get_hc(&self) -> (r: u8)
        ensures
            r == (if self@.hf {
                1u8
            } else {
                0u8
            }),
    {
        if self.f_h {
            1
        } else {
            0
        }
    }

    pub fn get_cy(&self) -> (r: u8)
        ensures
            r == (if self@.cf {
                1u8
            } else {
                0u8
            }),
    {
        if self.f_c {
            1
        } else {
            0
        }
    }

    pub fn set_z(&mut self, val: u8)
        ensures
            final(self)@ == (CpuView { zf: val == 1, ..old(self)@ }),
    {
        self.f_z = val == 1;
    }

    pub fn set_n(&mut self, val: u8)
        ensures
            final(self)@ == (CpuView { nf: val == 1, ..old(self)@ }),
    {
        self.f_n = val == 1;
    }

    pub fn set_hc(&mut self, val: u8)
        ensures
            final(self)@ == (CpuView { hf: val == 1, ..old(self)@ }),
    {
        self.f_h = val == 1;
    }

    pub fn set_cy(&mut self, val: u8)
        ensures
            final(self)@ == (CpuView { cf: val == 1, ..old(self)@ }),
    {
        self.f_c = val == 1;
    }

    pub fn get_ime(&self) -> (r: u8)
        ensures
            r == (if self@.ime {
                1u8
            } else {
                0u8
            }),
    {
        if self.ime {
            1
        } else {
            0
        }
    }

    pub fn set_ime(&mut self, val: u8)
        ensures
            final(self)@ == (CpuView { ime: val == 1, ..old(self)@ }),
    {
        self.ime = val == 1;
    }

    pub fn get_ie(&self) -> (r: u8)
        ensures
            r == self@.ie,
    {
        self.ie
    }

    pub fn set_ie(&mut self, val: u8)
        ensures
            final(self)@ == (CpuView { ie: val, ..old(self)@ }),
    {
        self.ie = val;
    }
}

} // verus!
