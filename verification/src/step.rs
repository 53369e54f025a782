//! The instruction engine: fetch, decode and execute one instruction.
//!
//! `spec_step` is the mathematical interpreter: for every machine state
//! it gives either the successor state and the base cycle count, or
//! nothing when the byte at PC is not a documented opcode.
//! `emulate_cycle` is the executable engine, and its contract says it
//! agrees with `spec_step` exactly.

use vstd::prelude::*;

use crate::alu::addhl_spec;
use crate::alu::alu_adc;
use crate::alu::alu_add;
use crate::alu::alu_and;
use crate::alu::alu_cp;
use crate::alu::alu_or;
use crate::alu::alu_sbc;
use crate::alu::alu_sub;
use crate::alu::alu_xor;
use crate::alu::ccf_spec;
use crate::alu::cpl_spec;
use crate::alu::daa_spec;
use crate::alu::dec8_flags;
use crate::alu::inc8_flags;
use crate::alu::scf_spec;
use crate::alu::spofs_flags;
use crate::alu::spofs_word;
use crate::bus::spec_read;
use crate::bus::spec_write;
use crate::bytes::bit_get;
use crate::bytes::hi8;
use crate::bytes::lo8;
use crate::bytes::wadd16;
use crate::bytes::wadd8;
use crate::bytes::wsub16;
use crate::bytes::wsub8;
use crate::decode::r8_set;
use crate::decode::r8_val;
use crate::decode::slot_store;
use crate::decode::slot_val;
use crate::decode::DecodeError;
use crate::decode::R8;
use crate::flow::call_spec;
use crate::flow::imm16_at;
use crate::flow::imm8_at;
use crate::flow::jr_dest;
use crate::flow::pop_word;
use crate::flow::push_spec;
use crate::flow::ret_spec;
use crate::flow::rst_spec;
use crate::machine::GB;
use crate::shift::cb_is_bit;
use crate::shift::cb_step_mem;
use crate::shift::cb_step_reg;
use crate::shift::rl_val;
use crate::shift::rlc_val;
use crate::shift::rr_val;
use crate::shift::rrc_val;
use crate::shift::CbOp;
use crate::view::CpuView;

verus! {

broadcast use crate::bytes::group_mask_bounds;

/// The named register of an operand slot other than 6.
pub open spec fn r8_of_slot(slot: u8) -> R8 {
    if slot == 0 {
        R8::B
    } else if slot == 1 {
        R8::C
    } else if slot == 2 {
        R8::D
    } else if slot == 3 {
        R8::E
    } else if slot == 4 {
        R8::H
    } else if slot == 5 {
        R8::L
    } else {
        R8::A
    }
}

/// The operation family a CB sub-opcode selects (its upper five bits).
pub open spec fn cb_op_of(sub: u8) -> CbOp {
    let fam = sub >> 3;
    if fam == 0 {
        CbOp::Rlc
    } else if fam == 1 {
        CbOp::Rrc
    } else if fam == 2 {
        CbOp::Rl
    } else if fam == 3 {
        CbOp::Rr
    } else if fam == 4 {
        CbOp::Sla
    } else if fam == 5 {
        CbOp::Sra
    } else if fam == 6 {
        CbOp::Swap
    } else if fam == 7 {
        CbOp::Srl
    } else if fam == 8 {
        CbOp::Bit0
    } else if fam == 9 {
        CbOp::Bit1
    } else if fam == 10 {
        CbOp::Bit2
    } else if fam == 11 {
        CbOp::Bit3
    } else if fam == 12 {
        CbOp::Bit4
    } else if fam == 13 {
        CbOp::Bit5
    } else if fam == 14 {
        CbOp::Bit6
    } else if fam == 15 {
        CbOp::Bit7
    } else if fam == 16 {
        CbOp::Res0
    } else if fam == 17 {
        CbOp::Res1
    } else if fam == 18 {
        CbOp::Res2
    } else if fam == 19 {
        CbOp::Res3
    } else if fam == 20 {
        CbOp::Res4
    } else if fam == 21 {
        CbOp::Res5
    } else if fam == 22 {
        CbOp::Res6
    } else if fam == 23 {
        CbOp::Res7
    } else if fam == 24 {
        CbOp::Set0
    } else if fam == 25 {
        CbOp::Set1
    } else if fam == 26 {
        CbOp::Set2
    } else if fam == 27 {
        CbOp::Set3
    } else if fam == 28 {
        CbOp::Set4
    } else if fam == 29 {
        CbOp::Set5
    } else if fam == 30 {
        CbOp::Set6
    } else if fam == 31 {
        CbOp::Set7
    } else {
        CbOp::Rlc
    }
}

/// One CB-prefixed instruction: the sub-opcode after the 0xCB byte
/// selects an operation and an operand slot; PC moves past both bytes.
pub open spec fn spec_step_cb(s: CpuView) -> (CpuView, u32) {
    let sub = spec_read(s, wadd16(s.pc, 1));
    let op = cb_op_of(sub);
    let slot = sub & 7;
    let stepped = if slot == 6 {
        cb_step_mem(s, op)
    } else {
        cb_step_reg(s, op, r8_of_slot(slot))
    };
    let cy: u32 = if slot == 6 {
        if cb_is_bit(op) {
            12
        } else {
            16
        }
    } else {
        8
    };
    ((CpuView { pc: wadd16(s.pc, 2), ..stepped }), cy)
}

/// One instruction of the LD r8,r8 block (0x40-0x7F without HALT):
/// source and destination slots are encoded in the opcode.
pub open spec fn spec_step_ld(s: CpuView, op: u8) -> (CpuView, u32) {
    let src = op & 7;
    let dst = (op >> 3) & 7;
    let stepped = slot_store(s, dst, slot_val(s, src));
    let cy: u32 = if src == 6 || dst == 6 {
        8
    } else {
        4
    };
    ((CpuView { pc: wadd16(s.pc, 1), ..stepped }), cy)
}

/// The accumulator operation an ALU opcode selects, applied to `v`.
pub open spec fn alu_apply(s: CpuView, fam: u8, v: u8) -> CpuView {
    if fam == 0 {
        alu_add(s, v)
    } else if fam == 1 {
        alu_adc(s, v)
    } else if fam == 2 {
        alu_sub(s, v)
    } else if fam == 3 {
        alu_sbc(s, v)
    } else if fam == 4 {
        alu_and(s, v)
    } else if fam == 5 {
        alu_xor(s, v)
    } else if fam == 6 {
        alu_or(s, v)
    } else {
        alu_cp(s, v)
    }
}

/// One instruction of the ALU block (0x80-0xBF): the family and the
/// operand slot are encoded in the opcode.
pub open spec fn spec_step_alu(s: CpuView, op: u8) -> (CpuView, u32) {
    let fam = (op >> 3) & 7;
    let slot = op & 7;
    let stepped = alu_apply(s, fam, slot_val(s, slot));
    let cy: u32 = if slot == 6 {
        8
    } else {
        4
    };
    ((CpuView { pc: wadd16(s.pc, 1), ..stepped }), cy)
}

/// One instruction of the first opcode quarter (0x00-0x3F), all of
/// which are documented: the 16-bit loads and arithmetic, the 8-bit
/// immediate loads, increments and decrements, the accumulator rotates,
/// the relative jumps, and DAA/CPL/SCF/CCF, NOP and STOP.
pub open spec fn spec_step_low(s: CpuView, op: u8) -> (CpuView, u32) {
    if op == 0x00 {
        ((CpuView { pc: wadd16(s.pc, 1), ..s }), 4)
    } else if op == 0x01 {
        ((CpuView {
            pc: wadd16(s.pc, 3),
            b: spec_read(s, wadd16(s.pc, 1)),
            c: spec_read(s, wadd16(s.pc, 2)),
            ..s
        }), 12)
    } else if op == 0x02 {
        ((CpuView { pc: wadd16(s.pc, 1), ..spec_write(s, s.bc(), s.a) }), 8)
    } else if op == 0x03 {
        ((CpuView {
            pc: wadd16(s.pc, 1),
            b: hi8(wadd16(s.bc(), 1)),
            c: lo8(wadd16(s.bc(), 1)),
            ..s
        }), 8)
    } else if op == 0x04 {
        ((CpuView {
            pc: wadd16(s.pc, 1),
            ..r8_set(inc8_flags(s, r8_val(s, R8::B)), R8::B, wadd8(r8_val(s, R8::B), 1))
        }), 4)
    } else if op == 0x05 {
        ((CpuView {
            pc: wadd16(s.pc, 1),
            ..r8_set(dec8_flags(s, r8_val(s, R8::B)), R8::B, wsub8(r8_val(s, R8::B), 1))
        }), 4)
    } else if op == 0x06 {
        ((CpuView { pc: wadd16(s.pc, 2), ..r8_set(s, R8::B, imm8_at(s)) }), 8)
    } else if op == 0x07 {
        ((CpuView {
            pc: wadd16(s.pc, 1),
            a: rlc_val(s.a),
            zf: false,
            nf: false,
            hf: false,
            cf: bit_get(s.a, 7),
            ..s
        }), 4)
    } else if op == 0x08 {
        ((CpuView {
            pc: wadd16(s.pc, 3),
            ..spec_write(
                spec_write(s, imm16_at(s), lo8(s.sp)),
                wadd16(imm16_at(s), 1),
                hi8(s.sp),
            )
        }), 20)
    } else if op == 0x09 {
        ((CpuView { pc: wadd16(s.pc, 1), ..addhl_spec(s, s.bc()) }), 8)
    } else if op == 0x0A {
        ((CpuView { pc: wadd16(s.pc, 1), ..r8_set(s, R8::A, spec_read(s, s.bc())) }), 8)
    } else if op == 0x0B {
        ((CpuView {
            pc: wadd16(s.pc, 1),
            b: hi8(wsub16(s.bc(), 1)),
            c: lo8(wsub16(s.bc(), 1)),
            ..s
        }), 8)
    } else if op == 0x0C {
        ((CpuView {
            pc: wadd16(s.pc, 1),
            ..r8_set(inc8_flags(s, r8_val(s, R8::C)), R8::C, wadd8(r8_val(s, R8::C), 1))
        }), 4)
    } else if op == 0x0D {
        ((CpuView {
            pc: wadd16(s.pc, 1),
            ..r8_set(dec8_flags(s, r8_val(s, R8::C)), R8::C, wsub8(r8_val(s, R8::C), 1))
        }), 4)
    } else if op == 0x0E {
        ((CpuView { pc: wadd16(s.pc, 2), ..r8_set(s, R8::C, imm8_at(s)) }), 8)
    } else if op == 0x0F {
        ((CpuView {
            pc: wadd16(s.pc, 1),
            a: rrc_val(s.a),
            zf: false,
            nf: false,
            hf: false,
            cf: bit_get(s.a, 0),
            ..s
        }), 4)
    } else if op == 0x10 {
        ((CpuView { pc: wadd16(s.pc, 2), ..s }), 4)
    } else if op == 0x11 {
        ((CpuView {
            pc: wadd16(s.pc, 3),
            d: spec_read(s, wadd16(s.pc, 1)),
            e: spec_read(s, wadd16(s.pc, 2)),
            ..s
        }), 12)
    } else if op == 0x12 {
        ((CpuView { pc: wadd16(s.pc, 1), ..spec_write(s, s.de(), s.a) }), 8)
    } else if op == 0x13 {
        ((CpuView {
            pc: wadd16(s.pc, 1),
            d: hi8(wadd16(s.de(), 1)),
            e: lo8(wadd16(s.de(), 1)),
            ..s
        }), 8)
    } else if op == 0x14 {
        ((CpuView {
            pc: wadd16(s.pc, 1),
            ..r8_set(inc8_flags(s, r8_val(s, R8::D)), R8::D, wadd8(r8_val(s, R8::D), 1))
        }), 4)
    } else if op == 0x15 {
        ((CpuView {
            pc: wadd16(s.pc, 1),
            ..r8_set(dec8_flags(s, r8_val(s, R8::D)), R8::D, wsub8(r8_val(s, R8::D), 1))
        }), 4)
    } else if op == 0x16 {
        ((CpuView { pc: wadd16(s.pc, 2), ..r8_set(s, R8::D, imm8_at(s)) }), 8)
    } else if op == 0x17 {
        ((CpuView {
            pc: wadd16(s.pc, 1),
            a: rl_val(s.a, s.cf),
            zf: false,
            nf: false,
            hf: false,
            cf: bit_get(s.a, 7),
            ..s
        }), 4)
    } else if op == 0x18 {
        ((CpuView { pc: jr_dest(s, imm8_at(s) as i8), ..s }), 12)
    } else if op == 0x19 {
        ((CpuView { pc: wadd16(s.pc, 1), ..addhl_spec(s, s.de()) }), 8)
    } else if op == 0x1A {
        ((CpuView { pc: wadd16(s.pc, 1), ..r8_set(s, R8::A, spec_read(s, s.de())) }), 8)
    } else if op == 0x1B {
        ((CpuView {
            pc: wadd16(s.pc, 1),
            d: hi8(wsub16(s.de(), 1)),
            e: lo8(wsub16(s.de(), 1)),
            ..s
        }), 8)
    } else if op == 0x1C {
        ((CpuView {
            pc: wadd16(s.pc, 1),
            ..r8_set(inc8_flags(s, r8_val(s, R8::E)), R8::E, wadd8(r8_val(s, R8::E), 1))
        }), 4)
    } else if op == 0x1D {
        ((CpuView {
            pc: wadd16(s.pc, 1),
            ..r8_set(dec8_flags(s, r8_val(s, R8::E)), R8::E, wsub8(r8_val(s, R8::E), 1))
        }), 4)
    } else if op == 0x1E {
        ((CpuView { pc: wadd16(s.pc, 2), ..r8_set(s, R8::E, imm8_at(s)) }), 8)
    } else if op == 0x1F {
        ((CpuView {
            pc: wadd16(s.pc, 1),
            a: rr_val(s.a, s.cf),
            zf: false,
            nf: false,
            hf: false,
            cf: bit_get(s.a, 0),
            ..s
        }), 4)
    } else if op == 0x20 {
        ((CpuView {
            pc: if !s.zf {
                jr_dest(s, imm8_at(s) as i8)
            } else {
                wadd16(s.pc, 2)
            },
            ..s
        }), if !s.zf {
            12
        } else {
            8
        })
    } else if op == 0x21 {
        ((CpuView {
            pc: wadd16(s.pc, 3),
            h: spec_read(s, wadd16(s.pc, 1)),
            l: spec_read(s, wadd16(s.pc, 2)),
            ..s
        }), 12)
    } else if op == 0x22 {
        ((CpuView {
            pc: wadd16(s.pc, 1),
            h: hi8(wadd16(s.hl(), 1)),
            l: lo8(wadd16(s.hl(), 1)),
            ..spec_write(s, s.hl(), s.a)
        }), 8)
    } else if op == 0x23 {
        ((CpuView {
            pc: wadd16(s.pc, 1),
            h: hi8(wadd16(s.hl(), 1)),
            l: lo8(wadd16(s.hl(), 1)),
            ..s
        }), 8)
    } else if op == 0x24 {
        ((CpuView {
            pc: wadd16(s.pc, 1),
            ..r8_set(inc8_flags(s, r8_val(s, R8::H)), R8::H, wadd8(r8_val(s, R8::H), 1))
        }), 4)
    } else if op == 0x25 {
        ((CpuView {
            pc: wadd16(s.pc, 1),
            ..r8_set(dec8_flags(s, r8_val(s, R8::H)), R8::H, wsub8(r8_val(s, R8::H), 1))
        }), 4)
    } else if op == 0x26 {
        ((CpuView { pc: wadd16(s.pc, 2), ..r8_set(s, R8::H, imm8_at(s)) }), 8)
    } else if op == 0x27 {
        ((CpuView { pc: wadd16(s.pc, 1), ..daa_spec(s) }), 4)
    } else if op == 0x28 {
        ((CpuView {
            pc: if s.zf {
                jr_dest(s, imm8_at(s) as i8)
            } else {
                wadd16(s.pc, 2)
            },
            ..s
        }), if s.zf {
            12
        } else {
            8
        })
    } else if op == 0x29 {
        ((CpuView { pc: wadd16(s.pc, 1), ..addhl_spec(s, s.hl()) }), 8)
    } else if op == 0x2A {
        ((CpuView {
            pc: wadd16(s.pc, 1),
            a: spec_read(s, s.hl()),
            h: hi8(wadd16(s.hl(), 1)),
            l: lo8(wadd16(s.hl(), 1)),
            ..s
        }), 8)
    } else if op == 0x2B {
        ((CpuView {
            pc: wadd16(s.pc, 1),
            h: hi8(wsub16(s.hl(), 1)),
            l: lo8(wsub16(s.hl(), 1)),
            ..s
        }), 8)
    } else if op == 0x2C {
        ((CpuView {
            pc: wadd16(s.pc, 1),
            ..r8_set(inc8_flags(s, r8_val(s, R8::L)), R8::L, wadd8(r8_val(s, R8::L), 1))
        }), 4)
    } else if op == 0x2D {
        ((CpuView {
            pc: wadd16(s.pc, 1),
            ..r8_set(dec8_flags(s, r8_val(s, R8::L)), R8::L, wsub8(r8_val(s, R8::L), 1))
        }), 4)
    } else if op == 0x2E {
        ((CpuView { pc: wadd16(s.pc, 2), ..r8_set(s, R8::L, imm8_at(s)) }), 8)
    } else if op == 0x2F {
        ((CpuView { pc: wadd16(s.pc, 1), ..cpl_spec(s) }), 4)
    } else if op == 0x30 {
        ((CpuView {
            pc: if !s.cf {
                jr_dest(s, imm8_at(s) as i8)
            } else {
                wadd16(s.pc, 2)
            },
            ..s
        }), if !s.cf {
            12
        } else {
            8
        })
    } else if op == 0x31 {
        ((CpuView { pc: wadd16(s.pc, 3), sp: imm16_at(s), ..s }), 12)
    } else if op == 0x32 {
        ((CpuView {
            pc: wadd16(s.pc, 1),
            h: hi8(wsub16(s.hl(), 1)),
            l: lo8(wsub16(s.hl(), 1)),
            ..spec_write(s, s.hl(), s.a)
        }), 8)
    } else if op == 0x33 {
        ((CpuView { pc: wadd16(s.pc, 1), sp: wadd16(s.sp, 1), ..s }), 8)
    } else if op == 0x34 {
        ((CpuView {
            pc: wadd16(s.pc, 1),
            ..spec_write(
                inc8_flags(s, spec_read(s, s.hl())),
                s.hl(),
                wadd8(spec_read(s, s.hl()), 1),
            )
        }), 12)
    } else if op == 0x35 {
        ((CpuView {
            pc: wadd16(s.pc, 1),
            ..spec_write(
                dec8_flags(s, spec_read(s, s.hl())),
                s.hl(),
                wsub8(spec_read(s, s.hl()), 1),
            )
        }), 12)
    } else if op == 0x36 {
        ((CpuView { pc: wadd16(s.pc, 2), ..spec_write(s, s.hl(), imm8_at(s)) }), 12)
    } else if op == 0x37 {
        ((CpuView { pc: wadd16(s.pc, 1), ..scf_spec(s) }), 4)
    } else if op == 0x38 {
        ((CpuView {
            pc: if s.cf {
                jr_dest(s, imm8_at(s) as i8)
            } else {
                wadd16(s.pc, 2)
            },
            ..s
        }), if s.cf {
            12
        } else {
            8
        })
    } else if op == 0x39 {
        ((CpuView { pc: wadd16(s.pc, 1), ..addhl_spec(s, s.sp) }), 8)
    } else if op == 0x3A {
        ((CpuView {
            pc: wadd16(s.pc, 1),
            a: spec_read(s, s.hl()),
            h: hi8(wsub16(s.hl(), 1)),
            l: lo8(wsub16(s.hl(), 1)),
            ..s
        }), 8)
    } else if op == 0x3B {
        ((CpuView { pc: wadd16(s.pc, 1), sp: wsub16(s.sp, 1), ..s }), 8)
    } else if op == 0x3C {
        ((CpuView {
            pc: wadd16(s.pc, 1),
            ..r8_set(inc8_flags(s, r8_val(s, R8::A)), R8::A, wadd8(r8_val(s, R8::A), 1))
        }), 4)
    } else if op == 0x3D {
        ((CpuView {
            pc: wadd16(s.pc, 1),
            ..r8_set(dec8_flags(s, r8_val(s, R8::A)), R8::A, wsub8(r8_val(s, R8::A), 1))
        }), 4)
    } else if op == 0x3E {
        ((CpuView { pc: wadd16(s.pc, 2), ..r8_set(s, R8::A, imm8_at(s)) }), 8)
    } else {
        ((CpuView { pc: wadd16(s.pc, 1), ..ccf_spec(s) }), 4)
    }
}

/// One instruction of the last opcode quarter (0xC0-0xFF, without the
/// 0xCB prefix byte): returns, pops, jumps, calls, pushes, the
/// immediate-operand ALU forms, restarts, the high-page loads, the
/// signed SP arithmetic, and DI/EI. Eleven bytes of this quarter are
/// not documented opcodes and decode to nothing.
pub open spec fn spec_step_high(s: CpuView, op: u8) -> Option<(CpuView, u32)> {
    if op == 0xC0 {
        Some(((if !s.zf {
            ret_spec(s)
        } else {
            CpuView { pc: wadd16(s.pc, 1), ..s }
        }), if !s.zf {
            20
        } else {
            8
        }))
    } else if op == 0xC1 {
        Some(((CpuView {
            pc: wadd16(s.pc, 1),
            b: spec_read(s, wadd16(s.sp, 1)),
            c: spec_read(s, s.sp),
            sp: wadd16(s.sp, 2),
            ..s
        }), 12))
    } else if op == 0xC2 {
        Some(((CpuView {
            pc: if !s.zf {
                imm16_at(s)
            } else {
                wadd16(s.pc, 3)
            },
            ..s
        }), if !s.zf {
            16
        } else {
            12
        }))
    } else if op == 0xC3 {
        Some(((CpuView { pc: imm16_at(s), ..s }), 16))
    } else if op == 0xC4 {
        Some(((if !s.zf {
            call_spec(s)
        } else {
            CpuView { pc: wadd16(s.pc, 3), ..s }
        }), if !s.zf {
            24
        } else {
            12
        }))
    } else if op == 0xC5 {
        Some(((CpuView { pc: wadd16(s.pc, 1), ..push_spec(s, s.bc()) }), 16))
    } else if op == 0xC6 {
        Some(((CpuView { pc: wadd16(s.pc, 2), ..alu_add(s, imm8_at(s)) }), 8))
    } else if op == 0xC7 {
        Some((rst_spec(s, 0x00), 16))
    } else if op == 0xC8 {
        Some(((if s.zf {
            ret_spec(s)
        } else {
            CpuView { pc: wadd16(s.pc, 1), ..s }
        }), if s.zf {
            20
        } else {
            8
        }))
    } else if op == 0xC9 {
        Some((ret_spec(s), 16))
    } else if op == 0xCA {
        Some(((CpuView {
            pc: if s.zf {
                imm16_at(s)
            } else {
                wadd16(s.pc, 3)
            },
            ..s
        }), if s.zf {
            16
        } else {
            12
        }))
    } else if op == 0xCC {
        Some(((if s.zf {
            call_spec(s)
        } else {
            CpuView { pc: wadd16(s.pc, 3), ..s }
        }), if s.zf {
            24
        } else {
            12
        }))
    } else if op == 0xCD {
        Some((call_spec(s), 24))
    } else if op == 0xCE {
        Some(((CpuView { pc: wadd16(s.pc, 2), ..alu_adc(s, imm8_at(s)) }), 8))
    } else if op == 0xCF {
        Some((rst_spec(s, 0x08), 16))
    } else if op == 0xD0 {
        Some(((if !s.cf {
            ret_spec(s)
        } else {
            CpuView { pc: wadd16(s.pc, 1), ..s }
        }), if !s.cf {
            20
        } else {
            8
        }))
    } else if op == 0xD1 {
        Some(((CpuView {
            pc: wadd16(s.pc, 1),
            d: spec_read(s, wadd16(s.sp, 1)),
            e: spec_read(s, s.sp),
            sp: wadd16(s.sp, 2),
            ..s
        }), 12))
    } else if op == 0xD2 {
        Some(((CpuView {
            pc: if !s.cf {
                imm16_at(s)
            } else {
                wadd16(s.pc, 3)
            },
            ..s
        }), if !s.cf {
            16
        } else {
            12
        }))
    } else if op == 0xD4 {
        Some(((if !s.cf {
            call_spec(s)
        } else {
            CpuView { pc: wadd16(s.pc, 3), ..s }
        }), if !s.cf {
            24
        } else {
            12
        }))
    } else if op == 0xD5 {
        Some(((CpuView { pc: wadd16(s.pc, 1), ..push_spec(s, s.de()) }), 16))
    } else if op == 0xD6 {
        Some(((CpuView { pc: wadd16(s.pc, 2), ..alu_sub(s, imm8_at(s)) }), 8))
    } else if op == 0xD7 {
        Some((rst_spec(s, 0x10), 16))
    } else if op == 0xD8 {
        Some(((if s.cf {
            ret_spec(s)
        } else {
            CpuView { pc: wadd16(s.pc, 1), ..s }
        }), if s.cf {
            20
        } else {
            8
        }))
    } else if op == 0xD9 {
        Some(((CpuView { ime: true, ..ret_spec(s) }), 16))
    } else if op == 0xDA {
        Some(((CpuView {
            pc: if s.cf {
                imm16_at(s)
            } else {
                wadd16(s.pc, 3)
            },
            ..s
        }), if s.cf {
            16
        } else {
            12
        }))
    } else if op == 0xDC {
        Some(((if s.cf {
            call_spec(s)
        } else {
            CpuView { pc: wadd16(s.pc, 3), ..s }
        }), if s.cf {
            24
        } else {
            12
        }))
    } else if op == 0xDE {
        Some(((CpuView { pc: wadd16(s.pc, 2), ..alu_sbc(s, imm8_at(s)) }), 8))
    } else if op == 0xDF {
        Some((rst_spec(s, 0x18), 16))
    } else if op == 0xE0 {
        Some(((CpuView {
            pc: wadd16(s.pc, 2),
            ..spec_write(s, 0xFF00u16 | (imm8_at(s) as u16), r8_val(s, R8::A))
        }), 12))
    } else if op == 0xE1 {
        Some(((CpuView {
            pc: wadd16(s.pc, 1),
            h: spec_read(s, wadd16(s.sp, 1)),
            l: spec_read(s, s.sp),
            sp: wadd16(s.sp, 2),
            ..s
        }), 12))
    } else if op == 0xE2 {
        Some(((CpuView {
            pc: wadd16(s.pc, 1),
            ..spec_write(s, 0xFF00u16 | (r8_val(s, R8::C) as u16), r8_val(s, R8::A))
        }), 8))
    } else if op == 0xE5 {
        Some(((CpuView { pc: wadd16(s.pc, 1), ..push_spec(s, s.hl()) }), 16))
    } else if op == 0xE6 {
        Some(((CpuView { pc: wadd16(s.pc, 2), ..alu_and(s, imm8_at(s)) }), 8))
    } else if op == 0xE7 {
        Some((rst_spec(s, 0x20), 16))
    } else if op == 0xE8 {
        Some(((CpuView {
            pc: wadd16(s.pc, 2),
            sp: spofs_word(s, imm8_at(s)),
            ..spofs_flags(s, imm8_at(s))
        }), 16))
    } else if op == 0xE9 {
        Some(((CpuView { pc: s.hl(), ..s }), 4))
    } else if op == 0xEA {
        Some(((CpuView { pc: wadd16(s.pc, 3), ..spec_write(s, imm16_at(s), s.a) }), 16))
    } else if op == 0xEE {
        Some(((CpuView { pc: wadd16(s.pc, 2), ..alu_xor(s, imm8_at(s)) }), 8))
    } else if op == 0xEF {
        Some((rst_spec(s, 0x28), 16))
    } else if op == 0xF0 {
        Some(((CpuView {
            pc: wadd16(s.pc, 2),
            ..r8_set(s, R8::A, spec_read(s, 0xFF00u16 | (imm8_at(s) as u16)))
        }), 12))
    } else if op == 0xF1 {
        Some(((CpuView {
            pc: wadd16(s.pc, 1),
            a: spec_read(s, wadd16(s.sp, 1)),
            zf: bit_get(spec_read(s, s.sp), 7),
            nf: bit_get(spec_read(s, s.sp), 6),
            hf: bit_get(spec_read(s, s.sp), 5),
            cf: bit_get(spec_read(s, s.sp), 4),
            sp: wadd16(s.sp, 2),
            ..s
        }), 12))
    } else if op == 0xF2 {
        Some(((CpuView {
            pc: wadd16(s.pc, 1),
            ..r8_set(s, R8::A, spec_read(s, 0xFF00u16 | (r8_val(s, R8::C) as u16)))
        }), 8))
    } else if op == 0xF3 {
        Some(((CpuView { pc: wadd16(s.pc, 1), ime: false, ..s }), 4))
    } else if op == 0xF5 {
        Some(((CpuView { pc: wadd16(s.pc, 1), ..push_spec(s, s.af()) }), 16))
    } else if op == 0xF6 {
        Some(((CpuView { pc: wadd16(s.pc, 2), ..alu_or(s, imm8_at(s)) }), 8))
    } else if op == 0xF7 {
        Some((rst_spec(s, 0x30), 16))
    } else if op == 0xF8 {
        Some(((CpuView {
            pc: wadd16(s.pc, 2),
            h: hi8(spofs_word(s, imm8_at(s))),
            l: lo8(spofs_word(s, imm8_at(s))),
            ..spofs_flags(s, imm8_at(s))
        }), 12))
    } else if op == 0xF9 {
        Some(((CpuView { pc: wadd16(s.pc, 1), sp: s.hl(), ..s }), 8))
    } else if op == 0xFA {
        Some(((CpuView { pc: wadd16(s.pc, 3), a: spec_read(s, imm16_at(s)), ..s }), 16))
    } else if op == 0xFB {
        Some(((CpuView { pc: wadd16(s.pc, 1), ime: true, ..s }), 4))
    } else if op == 0xFE {
        Some(((CpuView { pc: wadd16(s.pc, 2), ..alu_cp(s, imm8_at(s)) }), 8))
    } else if op == 0xFF {
        Some((rst_spec(s, 0x38), 16))
    } else {
        None
    }
}

/// Whether a byte is a documented unprefixed opcode. Exactly eleven
/// bytes of the instruction space decode to nothing.
pub open spec fn defined_opcode(op: u8) -> bool {
    !(op == 0xD3 || op == 0xDB || op == 0xDD || op == 0xE3 || op == 0xE4 || op == 0xEB || op
        == 0xEC || op == 0xED || op == 0xF4 || op == 0xFC || op == 0xFD)
}

/// The whole instruction engine, one instruction at a time: either the
/// successor state with its base cycle count, or nothing when the byte
/// at PC is not a documented opcode.
pub open spec fn spec_step(s: CpuView) -> Option<(CpuView, u32)> {
    let op = spec_read(s, s.pc);
    if op == 0xCB {
        Some(spec_step_cb(s))
    } else if op < 0x40 {
        Some(spec_step_low(s, op))
    } else if op == 0x76 {
        Some(((CpuView { pc: wadd16(s.pc, 1), ..s }), 4))
    } else if op < 0x80 {
        Some(spec_step_ld(s, op))
    } else if op < 0xC0 {
        Some(spec_step_alu(s, op))
    } else {
        spec_step_high(s, op)
    }
}

impl GB {
    /// Executes the CB-prefixed instruction whose 0xCB byte is at PC.
    pub(crate) fn step_cb(&mut self) -> (cy: u32)
        ensures
            (final(self)@, cy) == spec_step_cb(old(self)@),
    {
        let sub = self.mem_read(self.pc.wrapping_add(1));
        let fam = sub >> 3;
        let op = GB::decode_cb(fam);
        let slot = sub & 7;
        let cy = if slot == 6 {
            self.shift_mem(op)
        } else if slot == 0 {
            self.shift_r8(op, R8::B)
        } else if slot == 1 {
            self.shift_r8(op, R8::C)
        } else if slot == 2 {
            self.shift_r8(op, R8::D)
        } else if slot == 3 {
            self.shift_r8(op, R8::E)
        } else if slot == 4 {
            self.shift_r8(op, R8::H)
        } else if slot == 5 {
            self.shift_r8(op, R8::L)
        } else {
            self.shift_r8(op, R8::A)
        };
        self.pc_add(2);
        cy
    }

    /// Maps the upper five bits of a CB sub-opcode to its operation.
    fn decode_cb(fam: u8) -> (op: CbOp)
        ensures
            forall|sub: u8| sub >> 3 == fam ==> op == cb_op_of(sub),
    {
        let op = if fam == 0 {
            CbOp::Rlc
        } else if fam == 1 {
            CbOp::Rrc
        } else if fam == 2 {
            CbOp::Rl
        } else if fam == 3 {
            CbOp::Rr
        } else if fam == 4 {
            CbOp::Sla
        } else if fam == 5 {
            CbOp::Sra
        } else if fam == 6 {
            CbOp::Swap
        } else if fam == 7 {
            CbOp::Srl
        } else if fam == 8 {
            CbOp::Bit0
        } else if fam == 9 {
            CbOp::Bit1
        } else if fam == 10 {
            CbOp::Bit2
        } else if fam == 11 {
            CbOp::Bit3
        } else if fam == 12 {
            CbOp::Bit4
        } else if fam == 13 {
            CbOp::Bit5
        } else if fam == 14 {
            CbOp::Bit6
        } else if fam == 15 {
            CbOp::Bit7
        } else if fam == 16 {
            CbOp::Res0
        } else if fam == 17 {
            CbOp::Res1
        } else if fam == 18 {
            CbOp::Res2
        } else if fam == 19 {
            CbOp::Res3
        } else if fam == 20 {
            CbOp::Res4
        } else if fam == 21 {
            CbOp::Res5
        } else if fam == 22 {
            CbOp::Res6
        } else if fam == 23 {
            CbOp::Res7
        } else if fam == 24 {
            CbOp::Set0
        } else if fam == 25 {
            CbOp::Set1
        } else if fam == 26 {
            CbOp::Set2
        } else if fam == 27 {
            CbOp::Set3
        } else if fam == 28 {
            CbOp::Set4
        } else if fam == 29 {
            CbOp::Set5
        } else if fam == 30 {
            CbOp::Set6
        } else if fam == 31 {
            CbOp::Set7
        } else {
            CbOp::Rlc
        };
        op
    }

    /// Executes one instruction of the first opcode quarter (0x00-0x3F).
    #[verifier::rlimit(60)]
    pub(crate) fn step_low(&mut self, op: u8) -> (cy: u32)
        requires
            op < 0x40,
        ensures
            (final(self)@, cy) == spec_step_low(old(self)@, op),
    {
        match op {
            0x00 => {
                self.pc_add(1);
                4
            },
            0x01 => {
                let cy = self.ld_bc_d16();
                self.pc_add(3);
                cy
            },
            0x02 => {
                let addr = self.get_bc();
                let cy = self.ld_r16_mem(addr);
                self.pc_add(1);
                cy
            },
            0x03 => {
                let cy = self.inc_bc();
                self.pc_add(1);
                cy
            },
            0x04 => {
                let cy = self.inc_r8(R8::B);
                self.pc_add(1);
                cy
            },
            0x05 => {
                let cy = self.dec_r8(R8::B);
                self.pc_add(1);
                cy
            },
            0x06 => {
                let v = self.mem_read(self.pc.wrapping_add(1));
                let cy = self.ld_r8_d8(R8::B, v);
                self.pc_add(2);
                cy
            },
            0x07 => {
                self.rlca();
                self.pc_add(1);
                4
            },
            0x08 => {
                let hi = self.mem_read(self.pc.wrapping_add(1));
                let lo = self.mem_read(self.pc.wrapping_add(2));
                let sp = self.get_sp();
                let _ = self.ld_mem_a16_r16(((hi as u16) << 8) | (lo as u16), sp);
                self.pc_add(3);
                20
            },
            0x09 => {
                let cy = self.add_hl_bc();
                self.pc_add(1);
                cy
            },
            0x0A => {
                let addr = self.get_bc();
                let cy = self.ld_r8_mem_r16(R8::A, addr);
                self.pc_add(1);
                cy
            },
            0x0B => {
                let cy = self.dec_bc();
                self.pc_add(1);
                cy
            },
            0x0C => {
                let cy = self.inc_r8(R8::C);
                self.pc_add(1);
                cy
            },
            0x0D => {
                let cy = self.dec_r8(R8::C);
                self.pc_add(1);
                cy
            },
            0x0E => {
                let v = self.mem_read(self.pc.wrapping_add(1));
                let cy = self.ld_r8_d8(R8::C, v);
                self.pc_add(2);
                cy
            },
            0x0F => {
                self.rrca();
                self.pc_add(1);
                4
            },
            0x10 => {
                self.pc_add(2);
                4
            },
            0x11 => {
                let cy = self.ld_de_d16();
                self.pc_add(3);
                cy
            },
            0x12 => {
                let addr = self.get_de();
                let cy = self.ld_r16_mem(addr);
                self.pc_add(1);
                cy
            },
            0x13 => {
                let cy = self.inc_de();
                self.pc_add(1);
                cy
            },
            0x14 => {
                let cy = self.inc_r8(R8::D);
                self.pc_add(1);
                cy
            },
            0x15 => {
                let cy = self.dec_r8(R8::D);
                self.pc_add(1);
                cy
            },
            0x16 => {
                let v = self.mem_read(self.pc.wrapping_add(1));
                let cy = self.ld_r8_d8(R8::D, v);
                self.pc_add(2);
                cy
            },
            0x17 => {
                self.rla();
                self.pc_add(1);
                4
            },
            0x18 => {
                let v = self.mem_read(self.pc.wrapping_add(1));
                self.jr_a8(v as i8)
            },
            0x19 => {
                let cy = self.add_hl_de();
                self.pc_add(1);
                cy
            },
            0x1A => {
                let addr = self.get_de();
                let cy = self.ld_r8_mem_r16(R8::A, addr);
                self.pc_add(1);
                cy
            },
            0x1B => {
                let cy = self.dec_de();
                self.pc_add(1);
                cy
            },
            0x1C => {
                let cy = self.inc_r8(R8::E);
                self.pc_add(1);
                cy
            },
            0x1D => {
                let cy = self.dec_r8(R8::E);
                self.pc_add(1);
                cy
            },
            0x1E => {
                let v = self.mem_read(self.pc.wrapping_add(1));
                let cy = self.ld_r8_d8(R8::E, v);
                self.pc_add(2);
                cy
            },
            0x1F => {
                self.rra();
                self.pc_add(1);
                4
            },
            0x20 => {
                let v = self.mem_read(self.pc.wrapping_add(1));
                self.jr_nz_a8(v as i8)
            },
            0x21 => {
                let cy = self.ld_hl_d16();
                self.pc_add(3);
                cy
            },
            0x22 => {
                let cy = self.ld_hl_mem_inc();
                self.pc_add(1);
                cy
            },
            0x23 => {
                let cy = self.inc_hl();
                self.pc_add(1);
                cy
            },
            0x24 => {
                let cy = self.inc_r8(R8::H);
                self.pc_add(1);
                cy
            },
            0x25 => {
                let cy = self.dec_r8(R8::H);
                self.pc_add(1);
                cy
            },
            0x26 => {
                let v = self.mem_read(self.pc.wrapping_add(1));
                let cy = self.ld_r8_d8(R8::H, v);
                self.pc_add(2);
                cy
            },
            0x27 => {
                let cy = self.daa();
                self.pc_add(1);
                cy
            },
            0x28 => {
                let v = self.mem_read(self.pc.wrapping_add(1));
                self.jr_z_a8(v as i8)
            },
            0x29 => {
                let cy = self.add_hl_hl();
                self.pc_add(1);
                cy
            },
            0x2A => {
                let cy = self.ld_a_mem_hl_inc();
                self.pc_add(1);
                cy
            },
            0x2B => {
                let cy = self.dec_hl();
                self.pc_add(1);
                cy
            },
            0x2C => {
                let cy = self.inc_r8(R8::L);
                self.pc_add(1);
                cy
            },
            0x2D => {
                let cy = self.dec_r8(R8::L);
                self.pc_add(1);
                cy
            },
            0x2E => {
                let v = self.mem_read(self.pc.wrapping_add(1));
                let cy = self.ld_r8_d8(R8::L, v);
                self.pc_add(2);
                cy
            },
            0x2F => {
                let cy = self.cpl();
                self.pc_add(1);
                cy
            },
            0x30 => {
                let v = self.mem_read(self.pc.wrapping_add(1));
                self.jr_nc_a8(v as i8)
            },
            0x31 => {
                let cy = self.ld_sp_d16();
                self.pc_add(3);
                cy
            },
            0x32 => {
                let cy = self.ld_hl_mem_dec();
                self.pc_add(1);
                cy
            },
            0x33 => {
                let cy = self.inc_sp();
                self.pc_add(1);
                cy
            },
            0x34 => {
                let cy = self.inc_r8_mem();
                self.pc_add(1);
                cy
            },
            0x35 => {
                let cy = self.dec_r8_mem();
                self.pc_add(1);
                cy
            },
            0x36 => {
                let v = self.mem_read(self.pc.wrapping_add(1));
                let hl = self.get_hl();
                let _ = self.ld_mem_r16_d8(hl, v);
                self.pc_add(2);
                12
            },
            0x37 => {
                let cy = self.scf();
                self.pc_add(1);
                cy
            },
            0x38 => {
                let v = self.mem_read(self.pc.wrapping_add(1));
                self.jr_c_a8(v as i8)
            },
            0x39 => {
                let cy = self.add_hl_sp();
                self.pc_add(1);
                cy
            },
            0x3A => {
                let cy = self.ld_a_mem_hl_dec();
                self.pc_add(1);
                cy
            },
            0x3B => {
                let cy = self.dec_sp();
                self.pc_add(1);
                cy
            },
            0x3C => {
                let cy = self.inc_r8(R8::A);
                self.pc_add(1);
                cy
            },
            0x3D => {
                let cy = self.dec_r8(R8::A);
                self.pc_add(1);
                cy
            },
            0x3E => {
                let v = self.mem_read(self.pc.wrapping_add(1));
                let cy = self.ld_r8_d8(R8::A, v);
                self.pc_add(2);
                cy
            },
            _ => {
                let cy = self.ccf();
                self.pc_add(1);
                cy
            },
        }
    }

    /// Executes one LD r8,r8 instruction (0x40-0x7F, not 0x76).
    pub(crate) fn step_ld_block(&mut self, op: u8) -> (cy: u32)
        requires
            0x40 <= op < 0x80,
            op != 0x76,
        ensures
            (final(self)@, cy) == spec_step_ld(old(self)@, op),
    {
        let src = op & 7;
        let dst = (op >> 3) & 7;
        proof {
            assert(op & 7 < 8 && (op >> 3) & 7 < 8) by (bit_vector);
        }
        let v = self.slot_read(src);
        self.slot_write(dst, v);
        self.pc_add(1);
        if src == 6 || dst == 6 {
            8
        } else {
            4
        }
    }

    /// Executes one ALU instruction of the block 0x80-0xBF.
    pub(crate) fn step_alu_block(&mut self, op: u8) -> (cy: u32)
        requires
            0x80 <= op < 0xC0,
        ensures
            (final(self)@, cy) == spec_step_alu(old(self)@, op),
    {
        let fam = (op >> 3) & 7;
        let slot = op & 7;
        proof {
            assert(op & 7 < 8 && (op >> 3) & 7 < 8) by (bit_vector);
        }
        let v = self.slot_read(slot);
        let _ = if fam == 0 {
            self.add_r8(v)
        } else if fam == 1 {
            self.adc_r8(v)
        } else if fam == 2 {
            self.sub_r8(v)
        } else if fam == 3 {
            self.sbc_r8(v)
        } else if fam == 4 {
            self.and_r8(v)
        } else if fam == 5 {
            self.xor_r8(v)
        } else if fam == 6 {
            self.or_r8(v)
        } else {
            self.cp_r8(v)
        };
        self.pc_add(1);
        if slot == 6 {
            8
        } else {
            4
        }
    }

    /// Executes one instruction of the last opcode quarter, or reports
    /// the decode error for one of its eleven undocumented bytes.
    #[verifier::rlimit(60)]
    pub(crate) fn step_high(&mut self, op: u8) -> (r: Result<u32, DecodeError>)
        requires
            0xC0 <= op,
            op != 0xCB,
        ensures
            match spec_step_high(old(self)@, op) {
                Some(t) => final(self)@ == t.0 && r == Ok::<u32, DecodeError>(t.1),
                None => final(self)@ == old(self)@ && r == Err::<u32, DecodeError>(
                    DecodeError {
                        pc: old(self)@.pc,
                        opcode: op,
                        operand: spec_read(old(self)@, wadd16(old(self)@.pc, 1)),
                    },
                ),
            },
    {
        match op {
            0xC0 => Ok(self.ret_nz_a16()),
            0xC1 => {
                let cy = self.pop_bc();
                self.pc_add(1);
                Ok(cy)
            },
            0xC2 => Ok(self.jp_nz()),
            0xC3 => Ok(self.jp_a16()),
            0xC4 => Ok(self.call_nz_a16()),
            0xC5 => {
                let v = self.get_bc();
                let cy = self.push_r16(v);
                self.pc_add(1);
                Ok(cy)
            },
            0xC6 => {
                let v = self.mem_read(self.pc.wrapping_add(1));
                let _ = self.add_r8(v);
                self.pc_add(2);
                Ok(8)
            },
            0xC7 => Ok(self.rst_n8(0x00)),
            0xC8 => Ok(self.ret_z_a16()),
            0xC9 => Ok(self.ret_a16()),
            0xCA => Ok(self.jp_z()),
            0xCC => Ok(self.call_z_a16()),
            0xCD => Ok(self.call_a16()),
            0xCE => {
                let v = self.mem_read(self.pc.wrapping_add(1));
                let _ = self.adc_r8(v);
                self.pc_add(2);
                Ok(8)
            },
            0xCF => Ok(self.rst_n8(0x08)),
            0xD0 => Ok(self.ret_nc_a16()),
            0xD1 => {
                let cy = self.pop_de();
                self.pc_add(1);
                Ok(cy)
            },
            0xD2 => Ok(self.jp_nc()),
            0xD4 => Ok(self.call_nc_a16()),
            0xD5 => {
                let v = self.get_de();
                let cy = self.push_r16(v);
                self.pc_add(1);
                Ok(cy)
            },
            0xD6 => {
                let v = self.mem_read(self.pc.wrapping_add(1));
                let _ = self.sub_r8(v);
                self.pc_add(2);
                Ok(8)
            },
            0xD7 => Ok(self.rst_n8(0x10)),
            0xD8 => Ok(self.ret_c_a16()),
            0xD9 => Ok(self.reti_a16()),
            0xDA => Ok(self.jp_c()),
            0xDC => Ok(self.call_c_a16()),
            0xDE => {
                let v = self.mem_read(self.pc.wrapping_add(1));
                let _ = self.sbc_r8(v);
                self.pc_add(2);
                Ok(8)
            },
            0xDF => Ok(self.rst_n8(0x18)),
            0xE0 => {
                let v = self.mem_read(self.pc.wrapping_add(1));
                let cy = self.ldh_mem_a8_r8(v, R8::A);
                self.pc_add(2);
                Ok(cy)
            },
            0xE1 => {
                let cy = self.pop_hl();
                self.pc_add(1);
                Ok(cy)
            },
            0xE2 => {
                let cy = self.ld_mem_r8_r8(R8::C, R8::A);
                self.pc_add(1);
                Ok(cy)
            },
            0xE5 => {
                let v = self.get_hl();
                let cy = self.push_r16(v);
                self.pc_add(1);
                Ok(cy)
            },
            0xE6 => {
                let v = self.mem_read(self.pc.wrapping_add(1));
                let _ = self.and_r8(v);
                self.pc_add(2);
                Ok(8)
            },
            0xE7 => Ok(self.rst_n8(0x20)),
            0xE8 => {
                let v = self.mem_read(self.pc.wrapping_add(1));
                let cy = self.add_sp_e8(v);
                self.pc_add(2);
                Ok(cy)
            },
            0xE9 => Ok(self.jp_hl()),
            0xEA => {
                let cy = self.ld_mem_a16_a();
                self.pc_add(3);
                Ok(cy)
            },
            0xEE => {
                let v = self.mem_read(self.pc.wrapping_add(1));
                let _ = self.xor_r8(v);
                self.pc_add(2);
                Ok(8)
            },
            0xEF => Ok(self.rst_n8(0x28)),
            0xF0 => {
                let v = self.mem_read(self.pc.wrapping_add(1));
                let cy = self.ldh_r8_mem_a8(R8::A, v);
                self.pc_add(2);
                Ok(cy)
            },
            0xF1 => {
                let cy = self.pop_af();
                self.pc_add(1);
                Ok(cy)
            },
            0xF2 => {
                let cy = self.ld_r8_mem_r8(R8::A, R8::C);
                self.pc_add(1);
                Ok(cy)
            },
            0xF3 => {
                let cy = self.di();
                self.pc_add(1);
                Ok(cy)
            },
            0xF5 => {
                let v = self.get_af();
                let cy = self.push_r16(v);
                self.pc_add(1);
                Ok(cy)
            },
            0xF6 => {
                let v = self.mem_read(self.pc.wrapping_add(1));
                let _ = self.or_r8(v);
                self.pc_add(2);
                Ok(8)
            },
            0xF7 => Ok(self.rst_n8(0x30)),
            0xF8 => {
                let v = self.mem_read(self.pc.wrapping_add(1));
                let cy = self.ld_hl_sp_plus_a8(v);
                self.pc_add(2);
                Ok(cy)
            },
            0xF9 => {
                let cy = self.ld_sp_hl();
                self.pc_add(1);
                Ok(cy)
            },
            0xFA => {
                let cy = self.ld_a_mem_a16();
                self.pc_add(3);
                Ok(cy)
            },
            0xFB => {
                let cy = self.ei();
                self.pc_add(1);
                Ok(cy)
            },
            0xFE => {
                let v = self.mem_read(self.pc.wrapping_add(1));
                let _ = self.cp_r8(v);
                self.pc_add(2);
                Ok(8)
            },
            0xFF => Ok(self.rst_n8(0x38)),
            _ => {
                let operand = self.mem_read(self.pc.wrapping_add(1));
                Err(DecodeError { pc: self.pc, opcode: op, operand })
            },
        }
    }

    /// Fetches, decodes and executes the instruction at PC, exactly as
    /// `spec_step` describes: on a documented opcode the state becomes
    /// the successor state and the base cycle count is returned; on any
    /// other byte the state is left untouched and the decode error
    /// carries the PC and the offending byte pair.
    pub fn emulate_cycle(&mut self) -> (r: Result<u32, DecodeError>)
        ensures
            match spec_step(old(self)@) {
                Some(t) => final(self)@ == t.0 && r == Ok::<u32, DecodeError>(t.1),
                None => final(self)@ == old(self)@ && r == Err::<u32, DecodeError>(
                    DecodeError {
                        pc: old(self)@.pc,
                        opcode: spec_read(old(self)@, old(self)@.pc),
                        operand: spec_read(old(self)@, wadd16(old(self)@.pc, 1)),
                    },
                ),
            },
            r is Ok <==> defined_opcode(spec_read(old(self)@, old(self)@.pc)),
    {
        let op = self.mem_read(self.pc);
        if op == 0xCB {
            let cy = self.step_cb();
            Ok(cy)
        } else if op < 0x40 {
            let cy = self.step_low(op);
            Ok(cy)
        } else if op == 0x76 {
            self.pc_add(1);
            Ok(4)
        } else if op < 0x80 {
            let cy = self.step_ld_block(op);
            Ok(cy)
        } else if op < 0xC0 {
            let cy = self.step_alu_block(op);
            Ok(cy)
        } else {
            self.step_high(op)
        }
    }
}

} // verus!
