//! Load kernels and control transfer: the LD families, the stack
//! operations, jumps, calls, returns, restarts, and the interrupt-enable
//! instructions.
//!
//! Sixteen-bit immediates follow this engine's source order: the high
//! byte at PC+1, the low byte at PC+2. Stack pushes store the high byte
//! at SP-1 and the low byte at SP-2 and then lower SP by two; pops read
//! the low byte at SP and the high byte at SP+1 and then raise SP by two.

use vstd::prelude::*;

use crate::bus::spec_read;
use crate::bus::spec_write;
use crate::bytes::bit_get;
use crate::bytes::hi8;
use crate::bytes::lo8;
use crate::bytes::wadd16;
use crate::bytes::word16;
use crate::bytes::wsub16;
use crate::decode::r8_set;
use crate::decode::r8_val;
use crate::decode::R8;
use crate::machine::GB;
use crate::view::CpuView;

verus! {

broadcast use crate::bytes::group_mask_bounds;

/// The 16-bit immediate of the instruction at PC: high byte at PC+1,
/// low byte at PC+2.
pub open spec fn imm16_at(s: CpuView) -> u16 {
    word16(spec_read(s, wadd16(s.pc, 1)), spec_read(s, wadd16(s.pc, 2)))
}

/// The 8-bit immediate of the instruction at PC.
pub open spec fn imm8_at(s: CpuView) -> u8 {
    spec_read(s, wadd16(s.pc, 1))
}

/// A 16-bit push: high byte to [SP-1], low byte to [SP-2], SP lowered
/// by two.
pub open spec fn push_spec(s: CpuView, v: u16) -> CpuView {
    let s1 = spec_write(s, wsub16(s.sp, 1), hi8(v));
    let s2 = spec_write(s1, wsub16(s.sp, 2), lo8(v));
    CpuView { sp: wsub16(s.sp, 2), ..s2 }
}

/// The word a 16-bit pop yields: low byte from [SP], high from [SP+1].
pub open spec fn pop_word(s: CpuView) -> u16 {
    word16(spec_read(s, wadd16(s.sp, 1)), spec_read(s, s.sp))
}

/// The target of a relative jump: the address after the two-byte
/// instruction plus the sign-extended offset.
pub open spec fn jr_dest(s: CpuView, val: i8) -> u16 {
    wadd16(wadd16(s.pc, 2), val as u16)
}

/// CALL: push the address of the following instruction, jump to the
/// immediate target.
pub open spec fn call_spec(s: CpuView) -> CpuView {
    CpuView { pc: imm16_at(s), ..push_spec(s, wadd16(s.pc, 3)) }
}

/// RET: pop the return address into PC.
pub open spec fn ret_spec(s: CpuView) -> CpuView {
    CpuView { pc: pop_word(s), sp: wadd16(s.sp, 2), ..s }
}

/// RST: push the address of the following instruction, jump to the
/// fixed vector.
pub open spec fn rst_spec(s: CpuView, v: u8) -> CpuView {
    CpuView { pc: v as u16, ..push_spec(s, wadd16(s.pc, 1)) }
}

impl GB {
    /// Advances PC by the byte length of a decoded instruction.
    pub(crate) fn pc_add(&mut self, n: u16)
        ensures
            final(self)@ == (CpuView { pc: wadd16(old(self)@.pc, n), ..old(self)@ }),
    {
        self.pc = self.pc.wrapping_add(n);
    }

    pub fn ld_bc_d16(&mut self) -> (cy: u32)
        ensures
            final(self)@ == (CpuView {
                b: spec_read(old(self)@, wadd16(old(self)@.pc, 1)),
                c: spec_read(old(self)@, wadd16(old(self)@.pc, 2)),
                ..old(self)@
            }),
            final(self)@.bc() == imm16_at(old(self)@),
            cy == 12,
    {
        self.b = self.mem_read(self.pc.wrapping_add(1));
        self.c = self.mem_read(self.pc.wrapping_add(2));
        12
    }

    pub fn ld_de_d16(&mut self) -> (cy: u32)
        ensures
            final(self)@ == (CpuView {
                d: spec_read(old(self)@, wadd16(old(self)@.pc, 1)),
                e: spec_read(old(self)@, wadd16(old(self)@.pc, 2)),
                ..old(self)@
            }),
            final(self)@.de() == imm16_at(old(self)@),
            cy == 12,
    {
        self.d = self.mem_read(self.pc.wrapping_add(1));
        self.e = self.mem_read(self.pc.wrapping_add(2));
        12
    }

    pub fn ld_hl_d16(&mut self) -> (cy: u32)
        ensures
            final(self)@ == (CpuView {
                h: spec_read(old(self)@, wadd16(old(self)@.pc, 1)),
                l: spec_read(old(self)@, wadd16(old(self)@.pc, 2)),
                ..old(self)@
            }),
            final(self)@.hl() == imm16_at(old(self)@),
            cy == 12,
    {
        self.h = self.mem_read(self.pc.wrapping_add(1));
        self.l = self.mem_read(self.pc.wrapping_add(2));
        12
    }

    pub fn ld_sp_d16(&mut self) -> (cy: u32)
        ensures
            final(self)@ == (CpuView { sp: imm16_at(old(self)@), ..old(self)@ }),
            cy == 12,
    {
        let hi = self.mem_read(self.pc.wrapping_add(1));
        let lo = self.mem_read(self.pc.wrapping_add(2));
        self.sp = ((hi as u16) << 8) | (lo as u16);
        12
    }

    /// Stores A at the given pair address.
    pub fn ld_r16_mem(&mut self, addr: u16) -> (cy: u32)
        ensures
            final(self)@ == spec_write(old(self)@, addr, old(self)@.a),
            cy == 8,
    {
        let a = self.a;
        self.mem_write(addr, a);
        8
    }

    pub fn ld_hl_mem_inc(&mut self) -> (cy: u32)
        ensures
            final(self)@ == (CpuView {
                h: hi8(wadd16(old(self)@.hl(), 1)),
                l: lo8(wadd16(old(self)@.hl(), 1)),
                ..spec_write(old(self)@, old(self)@.hl(), old(self)@.a)
            }),
            cy == 8,
    {
        let hl = self.get_hl();
        let a = self.a;
        self.mem_write(hl, a);
        self.set_hl(hl.wrapping_add(1));
        8
    }

    pub fn ld_hl_mem_dec(&mut self) -> (cy: u32)
        ensures
            final(self)@ == (CpuView {
                h: hi8(wsub16(old(self)@.hl(), 1)),
                l: lo8(wsub16(old(self)@.hl(), 1)),
                ..spec_write(old(self)@, old(self)@.hl(), old(self)@.a)
            }),
            cy == 8,
    {
        let hl = self.get_hl();
        let a = self.a;
        self.mem_write(hl, a);
        self.set_hl(hl.wrapping_sub(1));
        8
    }

    pub fn ld_r8_r8(&mut self, dst: R8, src: R8) -> (cy: u32)
        ensures
            final(self)@ == r8_set(old(self)@, dst, r8_val(old(self)@, src)),
            cy == 4,
    {
        let v = self.r8_read(src);
        self.r8_write(dst, v);
        4
    }

    pub fn ld_mem_r16_r8(&mut self, dest_addr: u16, src: R8) -> (cy: u32)
        ensures
            final(self)@ == spec_write(old(self)@, dest_addr, r8_val(old(self)@, src)),
            cy == 8,
    {
        let v = self.r8_read(src);
        self.mem_write(dest_addr, v);
        8
    }

    pub fn ld_r8_mem_r16(&mut self, dst: R8, src_addr: u16) -> (cy: u32)
        ensures
            final(self)@ == r8_set(old(self)@, dst, spec_read(old(self)@, src_addr)),
            cy == 8,
    {
        let v = self.mem_read(src_addr);
        self.r8_write(dst, v);
        8
    }

    pub fn ld_r8_d8(&mut self, dst: R8, val: u8) -> (cy: u32)
        ensures
            final(self)@ == r8_set(old(self)@, dst, val),
            cy == 8,
    {
        self.r8_write(dst, val);
        8
    }

    pub fn ld_mem_r16_d8(&mut self, dest_addr: u16, val: u8) -> (cy: u32)
        ensures
            final(self)@ == spec_write(old(self)@, dest_addr, val),
            cy == 8,
    {
        self.mem_write(dest_addr, val);
        8
    }

    /// Stores a 16-bit value: low byte at the address, high byte just
    /// after it.
    pub fn ld_mem_a16_r16(&mut self, dest_addr: u16, val: u16) -> (cy: u32)
        ensures
            final(self)@ == spec_write(
                spec_write(old(self)@, dest_addr, lo8(val)),
                wadd16(dest_addr, 1),
                hi8(val),
            ),
            cy == 8,
    {
        self.mem_write(dest_addr, (val & 0xFF) as u8);
        self.mem_write(dest_addr.wrapping_add(1), (val >> 8) as u8);
        8
    }

    pub fn ld_a_mem_hl_inc(&mut self) -> (cy: u32)
        ensures
            final(self)@ == (CpuView {
                a: spec_read(old(self)@, old(self)@.hl()),
                h: hi8(wadd16(old(self)@.hl(), 1)),
                l: lo8(wadd16(old(self)@.hl(), 1)),
                ..old(self)@
            }),
            cy == 8,
    {
        let hl = self.get_hl();
        self.a = self.mem_read(hl);
        self.set_hl(hl.wrapping_add(1));
        8
    }

    pub fn ld_a_mem_hl_dec(&mut self) -> (cy: u32)
        ensures
            final(self)@ == (CpuView {
                a: spec_read(old(self)@, old(self)@.hl()),
                h: hi8(wsub16(old(self)@.hl(), 1)),
                l: lo8(wsub16(old(self)@.hl(), 1)),
                ..old(self)@
            }),
            cy == 8,
    {
        let hl = self.get_hl();
        self.a = self.mem_read(hl);
        self.set_hl(hl.wrapping_sub(1));
        8
    }

    /// Stores a register into the high page at 0xFF00 + a8.
    pub fn ldh_mem_a8_r8(&mut self, dest_addr: u8, src: R8) -> (cy: u32)
        ensures
            final(self)@ == spec_write(
                old(self)@,
                0xFF00u16 | (dest_addr as u16),
                r8_val(old(self)@, src),
            ),
            cy == 12,
    {
        let v = self.r8_read(src);
        self.mem_write(0xFF00u16 | (dest_addr as u16), v);
        12
    }

    /// Loads a register from the high page at 0xFF00 + a8.
    pub fn ldh_r8_mem_a8(&mut self, dst: R8, src_addr: u8) -> (cy: u32)
        ensures
            final(self)@ == r8_set(
                old(self)@,
                dst,
                spec_read(old(self)@, 0xFF00u16 | (src_addr as u16)),
            ),
            cy == 12,
    {
        let v = self.mem_read(0xFF00u16 | (src_addr as u16));
        self.r8_write(dst, v);
        12
    }

    /// Stores a register into the high page at 0xFF00 + the value of
    /// another register.
    pub fn ld_mem_r8_r8(&mut self, dest: R8, src: R8) -> (cy: u32)
        ensures
            final(self)@ == spec_write(
                old(self)@,
                0xFF00u16 | (r8_val(old(self)@, dest) as u16),
                r8_val(old(self)@, src),
            ),
            cy == 8,
    {
        let addr = 0xFF00u16 | (self.r8_read(dest) as u16);
        let v = self.r8_read(src);
        self.mem_write(addr, v);
        8
    }

    /// Loads a register from the high page at 0xFF00 + the value of
    /// another register.
    pub fn ld_r8_mem_r8(&mut self, dst: R8, src: R8) -> (cy: u32)
        ensures
            final(self)@ == r8_set(
                old(self)@,
                dst,
                spec_read(old(self)@, 0xFF00u16 | (r8_val(old(self)@, src) as u16)),
            ),
            cy == 8,
    {
        let addr = 0xFF00u16 | (self.r8_read(src) as u16);
        let v = self.mem_read(addr);
        self.r8_write(dst, v);
        8
    }

    pub fn ld_sp_hl(&mut self) -> (cy: u32)
        ensures
            final(self)@ == (CpuView { sp: old(self)@.hl(), ..old(self)@ }),
            cy == 8,
    {
        self.sp = self.get_hl();
        8
    }

    /// Stores A at the 16-bit immediate address.
    pub fn ld_mem_a16_a(&mut self) -> (cy: u32)
        ensures
            final(self)@ == spec_write(old(self)@, imm16_at(old(self)@), old(self)@.a),
            cy == 16,
    {
        let hi = self.mem_read(self.pc.wrapping_add(1));
        let lo = self.mem_read(self.pc.wrapping_add(2));
        let a = self.a;
        self.mem_write(((hi as u16) << 8) | (lo as u16), a);
        16
    }

    /// Loads A from the 16-bit immediate address.
    pub fn ld_a_mem_a16(&mut self) -> (cy: u32)
        ensures
            final(self)@ == (CpuView {
                a: spec_read(old(self)@, imm16_at(old(self)@)),
                ..old(self)@
            }),
            cy == 16,
    {
        let hi = self.mem_read(self.pc.wrapping_add(1));
        let lo = self.mem_read(self.pc.wrapping_add(2));
        self.a = self.mem_read(((hi as u16) << 8) | (lo as u16));
        16
    }

    /// EI: raises the interrupt-master-enable latch.
    pub fn ei(&mut self) -> (cy: u32)
        ensures
            final(self)@ == (CpuView { ime: true, ..old(self)@ }),
            cy == 4,
    {
        self.ime = true;
        4
    }

    /// DI: clears the interrupt-master-enable latch.
    pub fn di(&mut self) -> (cy: u32)
        ensures
            final(self)@ == (CpuView { ime: false, ..old(self)@ }),
            cy == 4,
    {
        self.ime = false;
        4
    }

    pub fn jp_a16(&mut self) -> (cy: u32)
        ensures
            final(self)@ == (CpuView { pc: imm16_at(old(self)@), ..old(self)@ }),
            cy == 16,
    {
        let hi = self.mem_read(self.pc.wrapping_add(1));
        let lo = self.mem_read(self.pc.wrapping_add(2));
        self.pc = ((hi as u16) << 8) | (lo as u16);
        16
    }

    pub fn jp_hl(&mut self) -> (cy: u32)
        ensures
            final(self)@ == (CpuView { pc: old(self)@.hl(), ..old(self)@ }),
            cy == 4,
    {
        self.pc = self.get_hl();
        4
    }

    pub fn jp_nz(&mut self) -> (cy: u32)
        ensures
            final(self)@ == (CpuView {
                pc: if !old(self)@.zf {
                    imm16_at(old(self)@)
                } else {
                    wadd16(old(self)@.pc, 3)
                },
                ..old(self)@
            }),
            cy == (if !old(self)@.zf {
                16u32
            } else {
                12u32
            }),
    {
        if !self.f_z {
            self.jp_a16()
        } else {
            self.pc_add(3);
            12
        }
    }

    pub fn jp_nc(&mut self) -> (cy: u32)
        ensures
            final(self)@ == (CpuView {
                pc: if !old(self)@.cf {
                    imm16_at(old(self)@)
                } else {
                    wadd16(old(self)@.pc, 3)
                },
                ..old(self)@
            }),
            cy == (if !old(self)@.cf {
                16u32
            } else {
                12u32
            }),
    {
        if !self.f_c {
            self.jp_a16()
        } else {
            self.pc_add(3);
            12
        }
    }

    pub fn jp_z(&mut self) -> (cy: u32)
        ensures
            final(self)@ == (CpuView {
                pc: if old(self)@.zf {
                    imm16_at(old(self)@)
                } else {
                    wadd16(old(self)@.pc, 3)
                },
                ..old(self)@
            }),
            cy == (if old(self)@.zf {
                16u32
            } else {
                12u32
            }),
    {
        if self.f_z {
            self.jp_a16()
        } else {
            self.pc_add(3);
            12
        }
    }

    pub fn jp_c(&mut self) -> (cy: u32)
        ensures
            final(self)@ == (CpuView {
                pc: if old(self)@.cf {
                    imm16_at(old(self)@)
                } else {
                    wadd16(old(self)@.pc, 3)
                },
                ..old(self)@
            }),
            cy == (if old(self)@.cf {
                16u32
            } else {
                12u32
            }),
    {
        if self.f_c {
            self.jp_a16()
        } else {
            self.pc_add(3);
            12
        }
    }

    /// JR: the sign-extended offset is relative to the address of the
    /// following instruction.
    pub fn jr_a8(&mut self, val: i8) -> (cy: u32)
        ensures
            final(self)@ == (CpuView { pc: jr_dest(old(self)@, val), ..old(self)@ }),
            cy == 12,
    {
        self.pc = self.pc.wrapping_add(2).wrapping_add(val as u16);
        12
    }

    pub fn jr_nz_a8(&mut self, val: i8) -> (cy: u32)
        ensures
            final(self)@ == (CpuView {
                pc: if !old(self)@.zf {
                    jr_dest(old(self)@, val)
                } else {
                    wadd16(old(self)@.pc, 2)
                },
                ..old(self)@
            }),
            cy == (if !old(self)@.zf {
                12u32
            } else {
                8u32
            }),
    {
        if !self.f_z {
            self.jr_a8(val)
        } else {
            self.pc_add(2);
            8
        }
    }

    pub fn jr_nc_a8(&mut self, val: i8) -> (cy: u32)
        ensures
            final(self)@ == (CpuView {
                pc: if !old(self)@.cf {
                    jr_dest(old(self)@, val)
                } else {
                    wadd16(old(self)@.pc, 2)
                },
                ..old(self)@
            }),
            cy == (if !old(self)@.cf {
                12u32
            } else {
                8u32
            }),
    {
        if !self.f_c {
            self.jr_a8(val)
        } else {
            self.pc_add(2);
            8
        }
    }

    pub fn jr_z_a8(&mut self, val: i8) -> (cy: u32)
        ensures
            final(self)@ == (CpuView {
                pc: if old(self)@.zf {
                    jr_dest(old(self)@, val)
                } else {
                    wadd16(old(self)@.pc, 2)
                },
                ..old(self)@
            }),
            cy == (if old(self)@.zf {
                12u32
            } else {
                8u32
            }),
    {
        if self.f_z {
            self.jr_a8(val)
        } else {
            self.pc_add(2);
            8
        }
    }

    pub fn jr_c_a8(&mut self, val: i8) -> (cy: u32)
        ensures
            final(self)@ == (CpuView {
                pc: if old(self)@.cf {
                    jr_dest(old(self)@, val)
                } else {
                    wadd16(old(self)@.pc, 2)
                },
                ..old(self)@
            }),
            cy == (if old(self)@.cf {
                12u32
            } else {
                8u32
            }),
    {
        if self.f_c {
            self.jr_a8(val)
        } else {
            self.pc_add(2);
            8
        }
    }

    /// CALL: pushes the address of the instruction after the three-byte
    /// CALL, then jumps to the immediate target.
    pub fn call_a16(&mut self) -> (cy: u32)
        ensures
            final(self)@ == call_spec(old(self)@),
            cy == 24,
    {
        let hi = self.mem_read(self.pc.wrapping_add(1));
        let lo = self.mem_read(self.pc.wrapping_add(2));
        let target = ((hi as u16) << 8) | (lo as u16);
        let ret = self.pc.wrapping_add(3);
        let sp = self.sp;
        self.mem_write(sp.wrapping_sub(1), (ret >> 8) as u8);
        self.mem_write(sp.wrapping_sub(2), (ret & 0xFF) as u8);
        self.sp = sp.wrapping_sub(2);
        self.pc = target;
        24
    }

    pub fn call_nz_a16(&mut self) -> (cy: u32)
        ensures
            final(self)@ == (if !old(self)@.zf {
                call_spec(old(self)@)
            } else {
                CpuView { pc: wadd16(old(self)@.pc, 3), ..old(self)@ }
            }),
            cy == (if !old(self)@.zf {
                24u32
            } else {
                12u32
            }),
    {
        if !self.f_z {
            self.call_a16()
        } else {
            self.pc_add(3);
            12
        }
    }

    pub fn call_nc_a16(&mut self) -> (cy: u32)
        ensures
            final(self)@ == (if !old(self)@.cf {
                call_spec(old(self)@)
            } else {
                CpuView { pc: wadd16(old(self)@.pc, 3), ..old(self)@ }
            }),
            cy == (if !old(self)@.cf {
                24u32
            } else {
                12u32
            }),
    {
        if !self.f_c {
            self.call_a16()
        } else {
            self.pc_add(3);
            12
        }
    }

    pub fn call_z_a16(&mut self) -> (cy: u32)
        ensures
            final(self)@ == (if old(self)@.zf {
                call_spec(old(self)@)
            } else {
                CpuView { pc: wadd16(old(self)@.pc, 3), ..old(self)@ }
            }),
            cy == (if old(self)@.zf {
                24u32
            } else {
                12u32
            }),
    {
        if self.f_z {
            self.call_a16()
        } else {
            self.pc_add(3);
            12
        }
    }

    pub fn call_c_a16(&mut self) -> (cy: u32)
        ensures
            final(self)@ == (if old(self)@.cf {
                call_spec(old(self)@)
            } else {
                CpuView { pc: wadd16(old(self)@.pc, 3), ..old(self)@ }
            }),
            cy == (if old(self)@.cf {
                24u32
            } else {
                12u32
            }),
    {
        if self.f_c {
            self.call_a16()
        } else {
            self.pc_add(3);
            12
        }
    }

    /// RET: pops the return address into PC.
    pub fn ret_a16(&mut self) -> (cy: u32)
        ensures
            final(self)@ == ret_spec(old(self)@),
            cy == 16,
    {
        let lo = self.mem_read(self.sp);
        let hi = self.mem_read(self.sp.wrapping_add(1));
        self.sp = self.sp.wrapping_add(2);
        self.pc = ((hi as u16) << 8) | (lo as u16);
        16
    }

    pub fn ret_nz_a16(&mut self) -> (cy: u32)
        ensures
            final(self)@ == (if !old(self)@.zf {
                ret_spec(old(self)@)
            } else {
                CpuView { pc: wadd16(old(self)@.pc, 1), ..old(self)@ }
            }),
            cy == (if !old(self)@.zf {
                20u32
            } else {
                8u32
            }),
    {
        if !self.f_z {
            self.ret_a16();
            20
        } else {
            self.pc_add(1);
            8
        }
    }

    pub fn ret_nc_a16(&mut self) -> (cy: u32)
        ensures
            final(self)@ == (if !old(self)@.cf {
                ret_spec(old(self)@)
            } else {
                CpuView { pc: wadd16(old(self)@.pc, 1), ..old(self)@ }
            }),
            cy == (if !old(self)@.cf {
                20u32
            } else {
                8u32
            }),
    {
        if !self.f_c {
            self.ret_a16();
            20
        } else {
            self.pc_add(1);
            8
        }
    }

    pub fn ret_z_a16(&mut self) -> (cy: u32)
        ensures
            final(self)@ == (if old(self)@.zf {
                ret_spec(old(self)@)
            } else {
                CpuView { pc: wadd16(old(self)@.pc, 1), ..old(self)@ }
            }),
            cy == (if old(self)@.zf {
                20u32
            } else {
                8u32
            }),
    {
        if self.f_z {
            self.ret_a16();
            20
        } else {
            self.pc_add(1);
            8
        }
    }

    pub fn ret_c_a16(&mut self) -> (cy: u32)
        ensures
            final(self)@ == (if old(self)@.cf {
                ret_spec(old(self)@)
            } else {
                CpuView { pc: wadd16(old(self)@.pc, 1), ..old(self)@ }
            }),
            cy == (if old(self)@.cf {
                20u32
            } else {
                8u32
            }),
    {
        if self.f_c {
            self.ret_a16();
            20
        } else {
            self.pc_add(1);
            8
        }
    }

    /// RETI: RET that also raises the interrupt-master-enable latch.
    pub fn reti_a16(&mut self) -> (cy: u32)
        ensures
            final(self)@ == (CpuView { ime: true, ..ret_spec(old(self)@) }),
            cy == 16,
    {
        self.ime = true;
        self.ret_a16();
        16
    }

    /// Pushes a 16-bit value onto the stack.
    pub fn push_r16(&mut self, val: u16) -> (cy: u32)
        ensures
            final(self)@ == push_spec(old(self)@, val),
            cy == 16,
    {
        let sp = self.sp;
        self.mem_write(sp.wrapping_sub(1), (val >> 8) as u8);
        self.mem_write(sp.wrapping_sub(2), (val & 0xFF) as u8);
        self.sp = sp.wrapping_sub(2);
        16
    }

    pub fn pop_bc(&mut self) -> (cy: u32)
        ensures
            final(self)@ == (CpuView {
                b: spec_read(old(self)@, wadd16(old(self)@.sp, 1)),
                c: spec_read(old(self)@, old(self)@.sp),
                sp: wadd16(old(self)@.sp, 2),
                ..old(self)@
            }),
            final(self)@.bc() == pop_word(old(self)@),
            cy == 12,
    {
        self.c = self.mem_read(self.sp);
        self.b = self.mem_read(self.sp.wrapping_add(1));
        self.sp = self.sp.wrapping_add(2);
        12
    }

    pub fn pop_de(&mut self) -> (cy: u32)
        ensures
            final(self)@ == (CpuView {
                d: spec_read(old(self)@, wadd16(old(self)@.sp, 1)),
                e: spec_read(old(self)@, old(self)@.sp),
                sp: wadd16(old(self)@.sp, 2),
                ..old(self)@
            }),
            final(self)@.de() == pop_word(old(self)@),
            cy == 12,
    {
        self.e = self.mem_read(self.sp);
        self.d = self.mem_read(self.sp.wrapping_add(1));
        self.sp = self.sp.wrapping_add(2);
        12
    }

    pub fn pop_hl(&mut self) -> (cy: u32)
        ensures
            final(self)@ == (CpuView {
                h: spec_read(old(self)@, wadd16(old(self)@.sp, 1)),
                l: spec_read(old(self)@, old(self)@.sp),
                sp: wadd16(old(self)@.sp, 2),
                ..old(self)@
            }),
            final(self)@.hl() == pop_word(old(self)@),
            cy == 12,
    {
        self.l = self.mem_read(self.sp);
        self.h = self.mem_read(self.sp.wrapping_add(1));
        self.sp = self.sp.wrapping_add(2);
        12
    }

    /// POP AF: the popped low byte lands in the flags with its low
    /// nibble discarded.
    pub fn pop_af(&mut self) -> (cy: u32)
        ensures
            final(self)@ == (CpuView {
                a: spec_read(old(self)@, wadd16(old(self)@.sp, 1)),
                zf: bit_get(spec_read(old(self)@, old(self)@.sp), 7),
                nf: bit_get(spec_read(old(self)@, old(self)@.sp), 6),
                hf: bit_get(spec_read(old(self)@, old(self)@.sp), 5),
                cf: bit_get(spec_read(old(self)@, old(self)@.sp), 4),
                sp: wadd16(old(self)@.sp, 2),
                ..old(self)@
            }),
            cy == 12,
    {
        let f = self.mem_read(self.sp);
        self.a = self.mem_read(self.sp.wrapping_add(1));
        self.f_z = (f >> 7) & 1 == 1;
        self.f_n = (f >> 6) & 1 == 1;
        self.f_h = (f >> 5) & 1 == 1;
        self.f_c = (f >> 4) & 1 == 1;
        self.sp = self.sp.wrapping_add(2);
        12
    }

    /// RST: pushes the address of the following instruction and jumps
    /// to the fixed vector.
    pub fn rst_n8(&mut self, val: u8) -> (cy: u32)
        ensures
            final(self)@ == rst_spec(old(self)@, val),
            cy == 16,
    {
        let ret = self.pc.wrapping_add(1);
        let sp = self.sp;
        self.mem_write(sp.wrapping_sub(1), (ret >> 8) as u8);
        self.mem_write(sp.wrapping_sub(2), (ret & 0xFF) as u8);
        self.sp = sp.wrapping_sub(2);
        self.pc = val as u16;
        16
    }

    /// RLCA: rotate A left; unlike the CB rotate, Z is cleared.
    pub(crate) fn rlca(&mut self)
        ensures
            final(self)@ == (CpuView {
                a: crate::shift::rlc_val(old(self)@.a),
                zf: false,
                nf: false,
                hf: false,
                cf: bit_get(old(self)@.a, 7),
                ..old(self)@
            }),
    {
        let a = self.a;
        self.a = (a << 1) | (a >> 7);
        self.f_z = false;
        self.f_n = false;
        self.f_h = false;
        self.f_c = (a >> 7) & 1 == 1;
    }

    /// RRCA: rotate A right; Z is cleared.
    pub(crate) fn rrca(&mut self)
        ensures
            final(self)@ == (CpuView {
                a: crate::shift::rrc_val(old(self)@.a),
                zf: false,
                nf: false,
                hf: false,
                cf: bit_get(old(self)@.a, 0),
                ..old(self)@
            }),
    {
        let a = self.a;
        self.a = (a >> 1) | (a << 7);
        self.f_z = false;
        self.f_n = false;
        self.f_h = false;
        self.f_c = a & 1 == 1;
    }

    /// RLA: rotate A left through the carry; Z is cleared.
    pub(crate) fn rla(&mut self)
        ensures
            final(self)@ == (CpuView {
                a: crate::shift::rl_val(old(self)@.a, old(self)@.cf),
                zf: false,
                nf: false,
                hf: false,
                cf: bit_get(old(self)@.a, 7),
                ..old(self)@
            }),
    {
        let a = self.a;
        self.a = (a << 1) | (if self.f_c {
            1u8
        } else {
            0u8
        });
        self.f_z = false;
        self.f_n = false;
        self.f_h = false;
        self.f_c = (a >> 7) & 1 == 1;
    }

    /// RRA: rotate A right through the carry; Z is cleared.
    pub(crate) fn rra(&mut self)
        ensures
            final(self)@ == (CpuView {
                a: crate::shift::rr_val(old(self)@.a, old(self)@.cf),
                zf: false,
                nf: false,
                hf: false,
                cf: bit_get(old(self)@.a, 0),
                ..old(self)@
            }),
    {
        let a = self.a;
        self.a = (a >> 1) | (if self.f_c {
            0x80u8
        } else {
            0u8
        });
        self.f_z = false;
        self.f_n = false;
        self.f_h = false;
        self.f_c = a & 1 == 1;
    }
}

} // verus!
