//! The arithmetic/logic kernels: the eight accumulator operations, the
//! 8- and 16-bit increments and decrements, 16-bit adds onto HL and SP,
//! the decimal-adjust pass, and the bare flag instructions.
//!
//! Each executable kernel's whole effect is the named `*_spec` function
//! of the state, so the instruction engine's contract can compose them.

use vstd::prelude::*;

use crate::bus::spec_read;
use crate::bus::spec_write;
use crate::bytes::hi8;
use crate::bytes::lo8;
use crate::bytes::sext16;
use crate::bytes::wadd16;
use crate::bytes::wadd8;
use crate::bytes::wsub16;
use crate::bytes::wsub8;
use crate::decode::r8_set;
use crate::decode::r8_val;
use crate::decode::R8;
use crate::machine::GB;
use crate::view::CpuView;

verus! {

broadcast use crate::bytes::group_mask_bounds;

/// ADD A,v: wrapping sum into A; Z from the result, N clear, H from the
/// low nibbles, C from the full byte.
pub open spec fn alu_add(s: CpuView, v: u8) -> CpuView {
    let r = wadd8(s.a, v);
    CpuView {
        a: r,
        zf: r == 0,
        nf: false,
        hf: (s.a & 0xF) + (v & 0xF) > 0xF,
        cf: s.a + v > 0xFF,
        ..s
    }
}

/// ADC A,v: like ADD with the incoming carry folded into the sum and
/// into both the H and C computations.
pub open spec fn alu_adc(s: CpuView, v: u8) -> CpuView {
    let cin: u8 = if s.cf {
        1
    } else {
        0
    };
    let r = wadd8(wadd8(s.a, v), cin);
    CpuView {
        a: r,
        zf: r == 0,
        nf: false,
        hf: (s.a & 0xF) + (v & 0xF) + cin > 0xF,
        cf: s.a + v + cin > 0xFF,
        ..s
    }
}

/// SUB A,v: wrapping difference into A; N set, H and C are borrows.
pub open spec fn alu_sub(s: CpuView, v: u8) -> CpuView {
    let r = wsub8(s.a, v);
    CpuView {
        a: r,
        zf: r == 0,
        nf: true,
        hf: (s.a & 0xF) < (v & 0xF),
        cf: s.a < v,
        ..s
    }
}

/// SBC A,v: like SUB with the incoming carry folded in.
pub open spec fn alu_sbc(s: CpuView, v: u8) -> CpuView {
    let cin: u8 = if s.cf {
        1
    } else {
        0
    };
    let r = wsub8(wsub8(s.a, v), cin);
    CpuView {
        a: r,
        zf: r == 0,
        nf: true,
        hf: (s.a & 0xF) < (v & 0xF) + cin,
        cf: s.a < v + cin,
        ..s
    }
}

/// AND A,v: Z from the result; N clear, H set, C clear.
pub open spec fn alu_and(s: CpuView, v: u8) -> CpuView {
    let r = s.a & v;
    CpuView { a: r, zf: r == 0, nf: false, hf: true, cf: false, ..s }
}

/// XOR A,v: Z from the result; N, H, C clear.
pub open spec fn alu_xor(s: CpuView, v: u8) -> CpuView {
    let r = s.a ^ v;
    CpuView { a: r, zf: r == 0, nf: false, hf: false, cf: false, ..s }
}

/// OR A,v: Z from the result; N, H, C clear.
pub open spec fn alu_or(s: CpuView, v: u8) -> CpuView {
    let r = s.a | v;
    CpuView { a: r, zf: r == 0, nf: false, hf: false, cf: false, ..s }
}

/// CP A,v: the flags of SUB with A left unchanged.
pub open spec fn alu_cp(s: CpuView, v: u8) -> CpuView {
    CpuView {
        zf: wsub8(s.a, v) == 0,
        nf: true,
        hf: (s.a & 0xF) < (v & 0xF),
        cf: s.a < v,
        ..s
    }
}

/// The flags of an 8-bit increment of `v`; C is untouched.
pub open spec fn inc8_flags(s: CpuView, v: u8) -> CpuView {
    CpuView { zf: wadd8(v, 1) == 0, nf: false, hf: (v & 0xF) == 0xF, ..s }
}

/// The flags of an 8-bit decrement of `v`; C is untouched.
pub open spec fn dec8_flags(s: CpuView, v: u8) -> CpuView {
    CpuView { zf: wsub8(v, 1) == 0, nf: true, hf: (v & 0xF) == 0, ..s }
}

/// ADD HL,w: wrapping 16-bit sum into HL; N clear, H from bit 11,
/// C from bit 15, Z untouched.
pub open spec fn addhl_spec(s: CpuView, w: u16) -> CpuView {
    let r = wadd16(s.hl(), w);
    CpuView {
        h: hi8(r),
        l: lo8(r),
        nf: false,
        hf: (s.hl() & 0xFFF) + (w & 0xFFF) > 0xFFF,
        cf: s.hl() + w > 0xFFFF,
        ..s
    }
}

/// The signed-offset SP sum shared by ADD SP,e8 and LD HL,SP+e8:
/// the new word, with Z and N clear and H and C computed on the low
/// byte as an unsigned add.
pub open spec fn spofs_word(s: CpuView, v: u8) -> u16 {
    wadd16(s.sp, sext16(v))
}

/// The flags of the signed-offset SP sum.
pub open spec fn spofs_flags(s: CpuView, v: u8) -> CpuView {
    CpuView {
        zf: false,
        nf: false,
        hf: (s.sp & 0xF) + (v & 0xF) > 0xF,
        cf: (s.sp & 0xFF) + v > 0xFF,
        ..s
    }
}

/// DAA: corrects A to packed BCD using N, H, C and the digits of A;
/// Z from the result, H cleared, C set when a high correction applies.
pub open spec fn daa_spec(s: CpuView) -> CpuView {
    if !s.nf {
        let high = s.cf || s.a > 0x99;
        let adj: u8 = ((if high {
            0x60int
        } else {
            0int
        }) + (if s.hf || (s.a & 0xF) > 0x9 {
            0x06int
        } else {
            0int
        })) as u8;
        let r = wadd8(s.a, adj);
        CpuView { a: r, zf: r == 0, hf: false, cf: high, ..s }
    } else {
        let adj: u8 = ((if s.cf {
            0x60int
        } else {
            0int
        }) + (if s.hf {
            0x06int
        } else {
            0int
        })) as u8;
        let r = wsub8(s.a, adj);
        CpuView { a: r, zf: r == 0, hf: false, ..s }
    }
}

/// CPL: complement A; N and H set.
pub open spec fn cpl_spec(s: CpuView) -> CpuView {
    CpuView { a: !s.a, nf: true, hf: true, ..s }
}

/// SCF: set C; clear N and H.
pub open spec fn scf_spec(s: CpuView) -> CpuView {
    CpuView { nf: false, hf: false, cf: true, ..s }
}

/// CCF: complement C; clear N and H.
pub open spec fn ccf_spec(s: CpuView) -> CpuView {
    CpuView { nf: false, hf: false, cf: !s.cf, ..s }
}

impl GB {
    pub fn add_r8(&mut self, val: u8) -> (cy: u32)
        ensures
            final(self)@ == alu_add(old(self)@, val),
            cy == 4,
    {
        let a = self.a;
        let r = a.wrapping_add(val);
        self.a = r;
        self.f_z = r == 0;
        self.f_n = false;
        self.f_h = (a & 0xF) + (val & 0xF) > 0xF;
        self.f_c = (a as u16) + (val as u16) > 0xFF;
        4
    }

    pub fn adc_r8(&mut self, val: u8) -> (cy: u32)
        ensures
            final(self)@ == alu_adc(old(self)@, val),
            cy == 4,
    {
        let a = self.a;
        let cin: u8 = if self.f_c {
            1
        } else {
            0
        };
        let r = a.wrapping_add(val).wrapping_add(cin);
        self.a = r;
        self.f_z = r == 0;
        self.f_n = false;
        self.f_h = (a & 0xF) + (val & 0xF) + cin > 0xF;
        self.f_c = (a as u16) + (val as u16) + (cin as u16) > 0xFF;
        4
    }

    pub fn sub_r8(&mut self, val: u8) -> (cy: u32)
        ensures
            final(self)@ == alu_sub(old(self)@, val),
            cy == 4,
    {
        let a = self.a;
        let r = a.wrapping_sub(val);
        self.a = r;
        self.f_z = r == 0;
        self.f_n = true;
        self.f_h = (a & 0xF) < (val & 0xF);
        self.f_c = a < val;
        4
    }

    pub fn sbc_r8(&mut self, val: u8) -> (cy: u32)
        ensures
            final(self)@ == alu_sbc(old(self)@, val),
            cy == 4,
    {
        let a = self.a;
        let cin: u8 = if self.f_c {
            1
        } else {
            0
        };
        let r = a.wrapping_sub(val).wrapping_sub(cin);
        self.a = r;
        self.f_z = r == 0;
        self.f_n = true;
        self.f_h = (a & 0xF) < (val & 0xF) + cin;
        self.f_c = (a as u16) < (val as u16) + (cin as u16);
        4
    }

    pub fn and_r8(&mut self, val: u8) -> (cy: u32)
        ensures
            final(self)@ == alu_and(old(self)@, val),
            cy == 4,
    {
        let r = self.a & val;
        self.a = r;
        self.f_z = r == 0;
        self.f_n = false;
        self.f_h = true;
        self.f_c = false;
        4
    }

    pub fn xor_r8(&mut self, val: u8) -> (cy: u32)
        ensures
            final(self)@ == alu_xor(old(self)@, val),
            cy == 4,
    {
        let r = self.a ^ val;
        self.a = r;
        self.f_z = r == 0;
        self.f_n = false;
        self.f_h = false;
        self.f_c = false;
        4
    }

    pub fn or_r8(&mut self, val: u8) -> (cy: u32)
        ensures
            final(self)@ == alu_or(old(self)@, val),
            cy == 4,
    {
        let r = self.a | val;
        self.a = r;
        self.f_z = r == 0;
        self.f_n = false;
        self.f_h = false;
        self.f_c = false;
        4
    }

    pub fn cp_r8(&mut self, val: u8) -> (cy: u32)
        ensures
            final(self)@ == alu_cp(old(self)@, val),
            cy == 4,
    {
        let a = self.a;
        let r = a.wrapping_sub(val);
        self.f_z = r == 0;
        self.f_n = true;
        self.f_h = (a & 0xF) < (val & 0xF);
        self.f_c = a < val;
        4
    }

    pub fn inc_r8(&mut self, r: R8) -> (cy: u32)
        ensures
            final(self)@ == r8_set(
                inc8_flags(old(self)@, r8_val(old(self)@, r)),
                r,
                wadd8(r8_val(old(self)@, r), 1),
            ),
            cy == 4,
    {
        let v = self.r8_read(r);
        let nv = v.wrapping_add(1);
        self.f_z = nv == 0;
        self.f_n = false;
        self.f_h = (v & 0xF) == 0xF;
        self.r8_write(r, nv);
        4
    }

    pub fn dec_r8(&mut self, r: R8) -> (cy: u32)
        ensures
            final(self)@ == r8_set(
                dec8_flags(old(self)@, r8_val(old(self)@, r)),
                r,
                wsub8(r8_val(old(self)@, r), 1),
            ),
            cy == 4,
    {
        let v = self.r8_read(r);
        let nv = v.wrapping_sub(1);
        self.f_z = nv == 0;
        self.f_n = true;
        self.f_h = (v & 0xF) == 0;
        self.r8_write(r, nv);
        4
    }

    pub fn inc_r8_mem(&mut self) -> (cy: u32)
        ensures
            final(self)@ == spec_write(
                inc8_flags(old(self)@, spec_read(old(self)@, old(self)@.hl())),
                old(self)@.hl(),
                wadd8(spec_read(old(self)@, old(self)@.hl()), 1),
            ),
            cy == 12,
    {
        let addr = self.get_hl();
        let v = self.mem_read(addr);
        let nv = v.wrapping_add(1);
        self.f_z = nv == 0;
        self.f_n = false;
        self.f_h = (v & 0xF) == 0xF;
        self.mem_write(addr, nv);
        12
    }

    pub fn dec_r8_mem(&mut self) -> (cy: u32)
        ensures
            final(self)@ == spec_write(
                dec8_flags(old(self)@, spec_read(old(self)@, old(self)@.hl())),
                old(self)@.hl(),
                wsub8(spec_read(old(self)@, old(self)@.hl()), 1),
            ),
            cy == 12,
    {
        let addr = self.get_hl();
        let v = self.mem_read(addr);
        let nv = v.wrapping_sub(1);
        self.f_z = nv == 0;
        self.f_n = true;
        self.f_h = (v & 0xF) == 0;
        self.mem_write(addr, nv);
        12
    }

    pub fn inc_bc(&mut self) -> (cy: u32)
        ensures
            final(self)@ == (CpuView {
                b: hi8(wadd16(old(self)@.bc(), 1)),
                c: lo8(wadd16(old(self)@.bc(), 1)),
                ..old(self)@
            }),
            cy == 8,
    {
        let v = self.get_bc().wrapping_add(1);
        self.set_bc(v);
        8
    }

    pub fn inc_de(&mut self) -> (cy: u32)
        ensures
            final(self)@ == (CpuView {
                d: hi8(wadd16(old(self)@.de(), 1)),
                e: lo8(wadd16(old(self)@.de(), 1)),
                ..old(self)@
            }),
            cy == 8,
    {
        let v = self.get_de().wrapping_add(1);
        self.set_de(v);
        8
    }

    pub fn inc_hl(&mut self) -> (cy: u32)
        ensures
            final(self)@ == (CpuView {
                h: hi8(wadd16(old(self)@.hl(), 1)),
                l: lo8(wadd16(old(self)@.hl(), 1)),
                ..old(self)@
            }),
            cy == 8,
    {
        let v = self.get_hl().wrapping_add(1);
        self.set_hl(v);
        8
    }

    pub fn inc_sp(&mut self) -> (cy: u32)
        ensures
            final(self)@ == (CpuView { sp: wadd16(old(self)@.sp, 1), ..old(self)@ }),
            cy == 8,
    {
        self.sp = self.sp.wrapping_add(1);
        8
    }

    pub fn dec_bc(&mut self) -> (cy: u32)
        ensures
            final(self)@ == (CpuView {
                b: hi8(wsub16(old(self)@.bc(), 1)),
                c: lo8(wsub16(old(self)@.bc(), 1)),
                ..old(self)@
            }),
            cy == 8,
    {
        let v = self.get_bc().wrapping_sub(1);
        self.set_bc(v);
        8
    }

    pub fn dec_de(&mut self) -> (cy: u32)
        ensures
            final(self)@ == (CpuView {
                d: hi8(wsub16(old(self)@.de(), 1)),
                e: lo8(wsub16(old(self)@.de(), 1)),
                ..old(self)@
            }),
            cy == 8,
    {
        let v = self.get_de().wrapping_sub(1);
        self.set_de(v);
        8
    }

    pub fn dec_hl(&mut self) -> (cy: u32)
        ensures
            final(self)@ == (CpuView {
                h: hi8(wsub16(old(self)@.hl(), 1)),
                l: lo8(wsub16(old(self)@.hl(), 1)),
                ..old(self)@
            }),
            cy == 8,
    {
        let v = self.get_hl().wrapping_sub(1);
        self.set_hl(v);
        8
    }

    pub fn dec_sp(&mut self) -> (cy: u32)
        ensures
            final(self)@ == (CpuView { sp: wsub16(old(self)@.sp, 1), ..old(self)@ }),
            cy == 8,
    {
        self.sp = self.sp.wrapping_sub(1);
        8
    }

    pub fn add_hl_bc(&mut self) -> (cy: u32)
        ensures
            final(self)@ == addhl_spec(old(self)@, old(self)@.bc()),
            cy == 8,
    {
        let w = self.get_bc();
        self.add_hl_word(w);
        8
    }

    pub fn add_hl_de(&mut self) -> (cy: u32)
        ensures
            final(self)@ == addhl_spec(old(self)@, old(self)@.de()),
            cy == 8,
    {
        let w = self.get_de();
        self.add_hl_word(w);
        8
    }

    pub fn add_hl_hl(&mut self) -> (cy: u32)
        ensures
            final(self)@ == addhl_spec(old(self)@, old(self)@.hl()),
            cy == 8,
    {
        let w = self.get_hl();
        self.add_hl_word(w);
        8
    }

    pub fn add_hl_sp(&mut self) -> (cy: u32)
        ensures
            final(self)@ == addhl_spec(old(self)@, old(self)@.sp),
            cy == 8,
    {
        let w = self.sp;
        self.add_hl_word(w);
        8
    }

    fn add_hl_word(&mut self, w: u16)
        ensures
            final(self)@ == addhl_spec(old(self)@, w),
    {
        let hl = self.get_hl();
        let r = hl.wrapping_add(w);
        self.f_n = false;
        self.f_h = (hl & 0xFFF) + (w & 0xFFF) > 0xFFF;
        self.f_c = (hl as u32) + (w as u32) > 0xFFFF;
        self.set_hl(r);
    }

    /// LD HL,SP+e8 with a signed 8-bit offset.
    pub fn ld_hl_sp_plus_a8(&mut self, val: u8) -> (cy: u32)
        ensures
            final(self)@ == (CpuView {
                h: hi8(spofs_word(old(self)@, val)),
                l: lo8(spofs_word(old(self)@, val)),
                ..spofs_flags(old(self)@, val)
            }),
            cy == 12,
    {
        let sp = self.sp;
        let r = sp.wrapping_add((val as i8) as u16);
        self.f_z = false;
        self.f_n = false;
        self.f_h = (sp & 0xF) + ((val & 0xF) as u16) > 0xF;
        self.f_c = (sp & 0xFF) + (val as u16) > 0xFF;
        self.set_hl(r);
        12
    }

    /// ADD SP,e8 with a signed 8-bit offset.
    pub fn add_sp_e8(&mut self, val: u8) -> (cy: u32)
        ensures
            final(self)@ == (CpuView {
                sp: spofs_word(old(self)@, val),
                ..spofs_flags(old(self)@, val)
            }),
            cy == 16,
    {
        let sp = self.sp;
        let r = sp.wrapping_add((val as i8) as u16);
        self.f_z = false;
        self.f_n = false;
        self.f_h = (sp & 0xF) + ((val & 0xF) as u16) > 0xF;
        self.f_c = (sp & 0xFF) + (val as u16) > 0xFF;
        self.sp = r;
        16
    }

    pub fn daa(&mut self) -> (cy: u32)
        ensures
            final(self)@ == daa_spec(old(self)@),
            cy == 4,
    {
        let a = self.a;
        if !self.f_n {
            let high = self.f_c || a > 0x99;
            let adj: u8 = (if high {
                0x60u8
            } else {
                0u8
            }) + (if self.f_h || (a & 0xF) > 0x9 {
                0x06u8
            } else {
                0u8
            });
            let r = a.wrapping_add(adj);
            self.a = r;
            self.f_z = r == 0;
            self.f_h = false;
            self.f_c = high;
        } else {
            let adj: u8 = (if self.f_c {
                0x60u8
            } else {
                0u8
            }) + (if self.f_h {
                0x06u8
            } else {
                0u8
            });
            let r = a.wrapping_sub(adj);
            self.a = r;
            self.f_z = r == 0;
            self.f_h = false;
        }
        4
    }

    pub fn cpl(&mut self) -> (cy: u32)
        ensures
            final(self)@ == cpl_spec(old(self)@),
            cy == 4,
    {
        self.a = !self.a;
        self.f_n = true;
        self.f_h = true;
        4
    }

    pub fn scf(&mut self) -> (cy: u32)
        ensures
            final(self)@ == scf_spec(old(self)@),
            cy == 4,
    {
        self.f_n = false;
        self.f_h = false;
        self.f_c = true;
        4
    }

    pub fn ccf(&mut self) -> (cy: u32)
        ensures
            final(self)@ == ccf_spec(old(self)@),
            cy == 4,
    {
        self.f_n = false;
        self.f_h = false;
        self.f_c = !self.f_c;
        4
    }
}

} // verus!
