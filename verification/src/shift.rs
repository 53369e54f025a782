//! The CB-prefixed kernel: eight rotate/shift families, the nibble swap,
//! and the bit test/clear/set families, on a register or on the byte at
//! (HL).

use vstd::prelude::*;

use crate::bus::spec_read;
use crate::bus::spec_write;
use crate::bytes::bit_get;
use crate::decode::r8_set;
use crate::decode::r8_val;
use crate::decode::R8;
use crate::machine::GB;
use crate::view::CpuView;

verus! {

broadcast use crate::bytes::group_mask_bounds;

/// One operation of the CB-prefixed page: a rotate/shift/swap family or
/// a bit test, clear, or set at a fixed bit position.
#[derive(Clone, Copy, PartialEq, Eq, Structural, Debug)]
pub enum CbOp {
    Rlc,
    Rrc,
    Rl,
    Rr,
    Sla,
    Sra,
    Swap,
    Srl,
    Bit0,
    Bit1,
    Bit2,
    Bit3,
    Bit4,
    Bit5,
    Bit6,
    Bit7,
    Res0,
    Res1,
    Res2,
    Res3,
    Res4,
    Res5,
    Res6,
    Res7,
    Set0,
    Set1,
    Set2,
    Set3,
    Set4,
    Set5,
    Set6,
    Set7,
}

/// Rotate left; bit 7 re-enters at bit 0.
pub open spec fn rlc_val(v: u8) -> u8 {
    (v << 1) | (v >> 7)
}

/// Rotate right; bit 0 re-enters at bit 7.
pub open spec fn rrc_val(v: u8) -> u8 {
    (v >> 1) | (v << 7)
}

/// Rotate left through the carry: the old carry enters at bit 0.
pub open spec fn rl_val(v: u8, c: bool) -> u8 {
    (v << 1) | (if c {
        1u8
    } else {
        0u8
    })
}

/// Rotate right through the carry: the old carry enters at bit 7.
pub open spec fn rr_val(v: u8, c: bool) -> u8 {
    (v >> 1) | (if c {
        0x80u8
    } else {
        0u8
    })
}

/// Arithmetic shift left; bit 0 becomes 0.
pub open spec fn sla_val(v: u8) -> u8 {
    v << 1
}

/// Arithmetic shift right; bit 7 is preserved.
pub open spec fn sra_val(v: u8) -> u8 {
    (v >> 1) | (v & 0x80)
}

/// Swap the two nibbles.
pub open spec fn swap_val(v: u8) -> u8 {
    (v >> 4) | (v << 4)
}

/// Logical shift right; bit 7 becomes 0.
pub open spec fn srl_val(v: u8) -> u8 {
    v >> 1
}

/// Clear bit `i`.
pub open spec fn res_val(v: u8, i: u8) -> u8
    recommends
        i < 8,
{
    v & !(1u8 << i)
}

/// Set bit `i`.
pub open spec fn set_val(v: u8, i: u8) -> u8
    recommends
        i < 8,
{
    v | (1u8 << i)
}

/// The byte a CB operation produces from `v` (with incoming carry `cin`
/// for the rotates through carry). Bit tests leave the byte unchanged.
pub open spec fn cb_result(op: CbOp, v: u8, cin: bool) -> u8 {
    match op {
        CbOp::Rlc => rlc_val(v),
        CbOp::Rrc => rrc_val(v),
        CbOp::Rl => rl_val(v, cin),
        CbOp::Rr => rr_val(v, cin),
        CbOp::Sla => sla_val(v),
        CbOp::Sra => sra_val(v),
        CbOp::Swap => swap_val(v),
        CbOp::Srl => srl_val(v),
        CbOp::Bit0 => v,
        CbOp::Bit1 => v,
        CbOp::Bit2 => v,
        CbOp::Bit3 => v,
        CbOp::Bit4 => v,
        CbOp::Bit5 => v,
        CbOp::Bit6 => v,
        CbOp::Bit7 => v,
        CbOp::Res0 => res_val(v, 0),
        CbOp::Res1 => res_val(v, 1),
        CbOp::Res2 => res_val(v, 2),
        CbOp::Res3 => res_val(v, 3),
        CbOp::Res4 => res_val(v, 4),
        CbOp::Res5 => res_val(v, 5),
        CbOp::Res6 => res_val(v, 6),
        CbOp::Res7 => res_val(v, 7),
        CbOp::Set0 => set_val(v, 0),
        CbOp::Set1 => set_val(v, 1),
        CbOp::Set2 => set_val(v, 2),
        CbOp::Set3 => set_val(v, 3),
        CbOp::Set4 => set_val(v, 4),
        CbOp::Set5 => set_val(v, 5),
        CbOp::Set6 => set_val(v, 6),
        CbOp::Set7 => set_val(v, 7),
    }
}

/// Whether a CB operation is a bit test (which never writes back).
pub open spec fn cb_is_bit(op: CbOp) -> bool {
    match op {
        CbOp::Bit0 | CbOp::Bit1 | CbOp::Bit2 | CbOp::Bit3 | CbOp::Bit4 | CbOp::Bit5 | CbOp::Bit6
            | CbOp::Bit7 => true,
        _ => false,
    }
}

/// The bit position a bit-test operation examines.
pub open spec fn cb_bit_index(op: CbOp) -> u8 {
    match op {
        CbOp::Bit0 => 0,
        CbOp::Bit1 => 1,
        CbOp::Bit2 => 2,
        CbOp::Bit3 => 3,
        CbOp::Bit4 => 4,
        CbOp::Bit5 => 5,
        CbOp::Bit6 => 6,
        CbOp::Bit7 => 7,
        _ => 0,
    }
}

/// The flag effect of a CB operation applied to the byte `v`:
/// rotates and shifts set Z from the result, clear N and H, and put the
/// shifted-out bit in C (SWAP clears C); bit tests set Z from the
/// complement of the tested bit, clear N, set H, and keep C; RES and SET
/// leave every flag alone.
pub open spec fn cb_flags(s: CpuView, op: CbOp, v: u8) -> CpuView {
    match op {
        CbOp::Rlc => s.with_flags(rlc_val(v) == 0, false, false, bit_get(v, 7)),
        CbOp::Rrc => s.with_flags(rrc_val(v) == 0, false, false, bit_get(v, 0)),
        CbOp::Rl => s.with_flags(rl_val(v, s.cf) == 0, false, false, bit_get(v, 7)),
        CbOp::Rr => s.with_flags(rr_val(v, s.cf) == 0, false, false, bit_get(v, 0)),
        CbOp::Sla => s.with_flags(sla_val(v) == 0, false, false, bit_get(v, 7)),
        CbOp::Sra => s.with_flags(sra_val(v) == 0, false, false, bit_get(v, 0)),
        CbOp::Swap => s.with_flags(swap_val(v) == 0, false, false, false),
        CbOp::Srl => s.with_flags(srl_val(v) == 0, false, false, bit_get(v, 0)),
        CbOp::Bit0 | CbOp::Bit1 | CbOp::Bit2 | CbOp::Bit3 | CbOp::Bit4 | CbOp::Bit5 | CbOp::Bit6
            | CbOp::Bit7 => CpuView {
            zf: !bit_get(v, cb_bit_index(op)),
            nf: false,
            hf: true,
            ..s
        },
        _ => s,
    }
}

/// A CB operation on a named register: flags from the old byte, the
/// result stored back into the register.
pub open spec fn cb_step_reg(s: CpuView, op: CbOp, r: R8) -> CpuView {
    r8_set(cb_flags(s, op, r8_val(s, r)), r, cb_result(op, r8_val(s, r), s.cf))
}

/// A CB operation on the byte at (HL): flags from the old byte; every
/// family but the bit tests writes the result back through the bus.
pub open spec fn cb_step_mem(s: CpuView, op: CbOp) -> CpuView {
    let v = spec_read(s, s.hl());
    let s2 = cb_flags(s, op, v);
    if cb_is_bit(op) {
        s2
    } else {
        spec_write(s2, s.hl(), cb_result(op, v, s.cf))
    }
}

/// Clear bit `i` of a byte.
pub fn res_op(r: u8, i: u8) -> (out: u8)
    requires
        i < 8,
    ensures
        out == res_val(r, i),
{
    r & !(1u8 << i)
}

/// Set bit `i` of a byte.
pub fn set_op(r: u8, i: u8) -> (out: u8)
    requires
        i < 8,
    ensures
        out == set_val(r, i),
{
    r | (1u8 << i)
}

impl GB {
    pub fn rlc(&mut self, r: u8) -> (out: u8)
        ensures
            out == rlc_val(r),
            final(self)@ == old(self)@.with_flags(rlc_val(r) == 0, false, false, bit_get(r, 7)),
    {
        let out = (r << 1) | (r >> 7);
        self.f_z = out == 0;
        self.f_n = false;
        self.f_h = false;
        self.f_c = (r >> 7) & 1 == 1;
        out
    }

    pub fn rrc(&mut self, r: u8) -> (out: u8)
        ensures
            out == rrc_val(r),
            final(self)@ == old(self)@.with_flags(rrc_val(r) == 0, false, false, bit_get(r, 0)),
    {
        let out = (r >> 1) | (r << 7);
        self.f_z = out == 0;
        self.f_n = false;
        self.f_h = false;
        self.f_c = r & 1 == 1;
        out
    }

    pub fn rl(&mut self, r: u8) -> (out: u8)
        ensures
            out == rl_val(r, old(self)@.cf),
            final(self)@ == old(self)@.with_flags(
                rl_val(r, old(self)@.cf) == 0,
                false,
                false,
                bit_get(r, 7),
            ),
    {
        let out = (r << 1) | (if self.f_c {
            1u8
        } else {
            0u8
        });
        self.f_z = out == 0;
        self.f_n = false;
        self.f_h = false;
        self.f_c = (r >> 7) & 1 == 1;
        out
    }

    pub fn rr(&mut self, r: u8) -> (out: u8)
        ensures
            out == rr_val(r, old(self)@.cf),
            final(self)@ == old(self)@.with_flags(
                rr_val(r, old(self)@.cf) == 0,
                false,
                false,
                bit_get(r, 0),
            ),
    {
        let out = (r >> 1) | (if self.f_c {
            0x80u8
        } else {
            0u8
        });
        self.f_z = out == 0;
        self.f_n = false;
        self.f_h = false;
        self.f_c = r & 1 == 1;
        out
    }

    pub fn sla(&mut self, r: u8) -> (out: u8)
        ensures
            out == sla_val(r),
            final(self)@ == old(self)@.with_flags(sla_val(r) == 0, false, false, bit_get(r, 7)),
    {
        let out = r << 1;
        self.f_z = out == 0;
        self.f_n = false;
        self.f_h = false;
        self.f_c = (r >> 7) & 1 == 1;
        out
    }

    pub fn sra(&mut self, r: u8) -> (out: u8)
        ensures
            out == sra_val(r),
            final(self)@ == old(self)@.with_flags(sra_val(r) == 0, false, false, bit_get(r, 0)),
    {
        let out = (r >> 1) | (r & 0x80);
        self.f_z = out == 0;
        self.f_n = false;
        self.f_h = false;
        self.f_c = r & 1 == 1;
        out
    }

    pub fn swap(&mut self, r: u8) -> (out: u8)
        ensures
            out == swap_val(r),
            final(self)@ == old(self)@.with_flags(swap_val(r) == 0, false, false, false),
    {
        let out = (r >> 4) | (r << 4);
        self.f_z = out == 0;
        self.f_n = false;
        self.f_h = false;
        self.f_c = false;
        out
    }

    pub fn srl(&mut self, r: u8) -> (out: u8)
        ensures
            out == srl_val(r),
            final(self)@ == old(self)@.with_flags(srl_val(r) == 0, false, false, bit_get(r, 0)),
    {
        let out = r >> 1;
        self.f_z = out == 0;
        self.f_n = false;
        self.f_h = false;
        self.f_c = r & 1 == 1;
        out
    }

    /// Test bit `i` of a byte: Z gets the complement of the bit, N is
    /// cleared, H set, C untouched; the byte is returned unchanged.
    pub fn bit_op(&mut self, r: u8, i: u8) -> (out: u8)
        requires
            i < 8,
        ensures
            out == r,
            final(self)@ == (CpuView {
                zf: !bit_get(r, i),
                nf: false,
                hf: true,
                ..old(self)@
            }),
    {
        proof {
            assert((r >> i) & 1 == 0 || (r >> i) & 1 == 1) by (bit_vector);
        }
        self.f_z = (r >> i) & 1 == 0;
        self.f_n = false;
        self.f_h = true;
        r
    }

    /// Applies one CB operation to a byte: flag effect on `self`, result
    /// returned.
    fn apply_cb(&mut self, op: CbOp, v: u8) -> (out: u8)
        ensures
            out == cb_result(op, v, old(self)@.cf),
            final(self)@ == cb_flags(old(self)@, op, v),
    {
        match op {
            CbOp::Rlc => self.rlc(v),
            CbOp::Rrc => self.rrc(v),
            CbOp::Rl => self.rl(v),
            CbOp::Rr => self.rr(v),
            CbOp::Sla => self.sla(v),
            CbOp::Sra => self.sra(v),
            CbOp::Swap => self.swap(v),
            CbOp::Srl => self.srl(v),
            CbOp::Bit0 => self.bit_op(v, 0),
            CbOp::Bit1 => self.bit_op(v, 1),
            CbOp::Bit2 => self.bit_op(v, 2),
            CbOp::Bit3 => self.bit_op(v, 3),
            CbOp::Bit4 => self.bit_op(v, 4),
            CbOp::Bit5 => self.bit_op(v, 5),
            CbOp::Bit6 => self.bit_op(v, 6),
            CbOp::Bit7 => self.bit_op(v, 7),
            CbOp::Res0 => res_op(v, 0),
            CbOp::Res1 => res_op(v, 1),
            CbOp::Res2 => res_op(v, 2),
            CbOp::Res3 => res_op(v, 3),
            CbOp::Res4 => res_op(v, 4),
            CbOp::Res5 => res_op(v, 5),
            CbOp::Res6 => res_op(v, 6),
            CbOp::Res7 => res_op(v, 7),
            CbOp::Set0 => set_op(v, 0),
            CbOp::Set1 => set_op(v, 1),
            CbOp::Set2 => set_op(v, 2),
            CbOp::Set3 => set_op(v, 3),
            CbOp::Set4 => set_op(v, 4),
            CbOp::Set5 => set_op(v, 5),
            CbOp::Set6 => set_op(v, 6),
            CbOp::Set7 => set_op(v, 7),
        }
    }

    /// One CB operation on a named register. 8 cycles.
    pub fn shift_r8(&mut self, op: CbOp, r: R8) -> (cy: u32)
        ensures
            final(self)@ == cb_step_reg(old(self)@, op, r),
            cy == 8,
    {
        let v = self.r8_read(r);
        let out = self.apply_cb(op, v);
        self.r8_write(r, out);
        8
    }

    /// One CB operation on the byte at (HL). 16 cycles for the
    /// read-modify-write families, 12 for a bit test.
    pub fn shift_mem(&mut self, op: CbOp) -> (cy: u32)
        ensures
            final(self)@ == cb_step_mem(old(self)@, op),
            cy == (if cb_is_bit(op) {
                12u32
            } else {
                16u32
            }),
    {
        let addr = self.get_hl();
        let v = self.mem_read(addr);
        let out = self.apply_cb(op, v);
        if self.cb_bit_test(op) {
            12
        } else {
            self.mem_write(addr, out);
            16
        }
    }

    fn cb_bit_test(&self, op: CbOp) -> (b: bool)
        ensures
            b == cb_is_bit(op),
    {
        match op {
            CbOp::Bit0 | CbOp::Bit1 | CbOp::Bit2 | CbOp::Bit3 | CbOp::Bit4 | CbOp::Bit5
                | CbOp::Bit6 | CbOp::Bit7 => true,
            _ => false,
        }
    }
}

} // verus!
