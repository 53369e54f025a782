//! The library's stated laws: the flag-register invariant, the
//! protection of cartridge ROM, the stack round trip, the work-RAM
//! mirror, and the algebraic identities of the shift and ALU kernels.

use vstd::prelude::*;

use crate::alu::alu_add;
use crate::alu::alu_and;
use crate::alu::alu_or;
use crate::alu::alu_sub;
use crate::alu::alu_xor;
use crate::bus::spec_read;
use crate::bus::spec_write;
use crate::bus::write_sticks;
use crate::bytes::bit_get;
use crate::bytes::wadd16;
use crate::bytes::wsub16;
use crate::decode::r8_val;
use crate::decode::R8;
use crate::flow::pop_word;
use crate::flow::push_spec;
use crate::shift::cb_is_bit;
use crate::shift::cb_result;
use crate::shift::cb_step_mem;
use crate::shift::cb_step_reg;
use crate::shift::res_val;
use crate::shift::rl_val;
use crate::shift::rlc_val;
use crate::shift::rr_val;
use crate::shift::rrc_val;
use crate::shift::set_val;
use crate::shift::sla_val;
use crate::shift::sra_val;
use crate::shift::swap_val;
use crate::shift::CbOp;
use crate::view::CpuView;

verus! {

/// A byte divisible by sixteen has a zero low nibble.
proof fn lemma_mod16_mask(v: u8)
    by (bit_vector)
    ensures
        v % 16 == 0 ==> v & 0xF == 0,
{
}

/// The low nibble of F is zero in every machine state: the flags are
/// stored as four bits, and the F byte is composed from them alone.
pub proof fn lemma_f_low_nibble_zero(s: CpuView)
    ensures
        s.f() % 16 == 0,
        s.f() & 0xF == 0,
{
    lemma_mod16_mask(s.f());
}

/// No write stores into cartridge ROM backing unless the bank
/// controller accepts writes into the ROM range.
pub proof fn lemma_rom_write_protected(s: CpuView, addr: u16, val: u8)
    requires
        !s.cart.rom_writable,
    ensures
        spec_write(s, addr, val).cart.rom == s.cart.rom,
{
}

/// A write that sticks is read back at the same address.
pub proof fn lemma_read_after_write(s: CpuView, addr: u16, val: u8)
    requires
        s.wf(),
        write_sticks(s, addr),
    ensures
        spec_read(spec_write(s, addr, val), addr) == val,
{
}

/// The canonical backing address: the work-RAM mirror folds onto work
/// RAM; every other address stands for itself.
pub open spec fn mirror_base(addr: u16) -> u16 {
    if 0xE000 <= addr < 0xFE00 {
        (addr - 0x2000) as u16
    } else {
        addr
    }
}

/// A write leaves every byte whose backing cell it does not touch
/// unchanged.
pub proof fn lemma_read_write_other(s: CpuView, a1: u16, val: u8, a2: u16)
    requires
        s.wf(),
        mirror_base(a1) != mirror_base(a2),
    ensures
        spec_read(spec_write(s, a1, val), a2) == spec_read(s, a2),
{
}

/// Writing to the mirror range 0xE000-0xFDFF and reading the mirror
/// address in 0xC000-0xDDFF yields the written value: mirrors alias,
/// they do not duplicate.
pub proof fn lemma_wram_mirror(s: CpuView, addr: u16, val: u8)
    requires
        s.wf(),
        0xE000 <= addr <= 0xFDFF,
    ensures
        spec_read(spec_write(s, addr, val), (addr - 0x2000) as u16) == val,
        spec_write(s, addr, val).wram == s.wram.update(addr - 0xE000, val),
{
}

/// A stack push followed by a pop restores SP and yields the pushed
/// pair bit-identically, whenever the two stack cells lie in backing
/// that stores writes (in the device, high RAM). SP and PC are separate
/// registers, so the push touches neither PC nor its storage. A popped
/// F byte is masked to a zero low nibble by the flag store itself.
pub proof fn lemma_push_pop_restores(s: CpuView, v: u16)
    requires
        s.wf(),
        write_sticks(s, wsub16(s.sp, 1)),
        write_sticks(s, wsub16(s.sp, 2)),
    ensures
        pop_word(push_spec(s, v)) == v,
        wadd16(push_spec(s, v).sp, 2) == s.sp,
        push_spec(s, v).pc == s.pc,
{
    let a1 = wsub16(s.sp, 1);
    let a2 = wsub16(s.sp, 2);
    let s1 = spec_write(s, a1, crate::bytes::hi8(v));
    assert(mirror_base(a1) != mirror_base(a2));
    assert(write_sticks(s1, a2));
    lemma_read_after_write(s1, a2, crate::bytes::lo8(v));
    lemma_read_write_other(s1, a2, crate::bytes::lo8(v), a1);
    lemma_read_after_write(s, a1, crate::bytes::hi8(v));
    assert(wadd16(wsub16(s.sp, 2), 1) == wsub16(s.sp, 1));
    crate::bytes::lemma_word_roundtrip(v);
}

/// RLC then RRC returns the byte; RL then RR, threading the carry that
/// RL put out into RR, returns the byte.
pub proof fn lemma_rotate_roundtrips(v: u8, c: bool)
    ensures
        rrc_val(rlc_val(v)) == v,
        rr_val(rl_val(v, c), bit_get(v, 7)) == v,
{
    assert((((v << 1) | (v >> 7)) >> 1) | (((v << 1) | (v >> 7)) << 7) == v) by (bit_vector);
    if c {
        if (v >> 7) & 1 == 1 {
            assert((((v << 1) | 1) >> 1) | 0x80 == v) by (bit_vector)
                requires
                    (v >> 7) & 1 == 1,
            ;
        } else {
            assert((((v << 1) | 1) >> 1) | 0 == v) by (bit_vector)
                requires
                    (v >> 7) & 1 != 1,
            ;
        }
    } else {
        if (v >> 7) & 1 == 1 {
            assert((((v << 1) | 0) >> 1) | 0x80 == v) by (bit_vector)
                requires
                    (v >> 7) & 1 == 1,
            ;
        } else {
            assert((((v << 1) | 0) >> 1) | 0 == v) by (bit_vector)
                requires
                    (v >> 7) & 1 != 1,
            ;
        }
    }
}

/// SLA then SRA returns the byte, provided bit 0 is clear and the top
/// two bits agree (SLA discards bit 7, and SRA restores it only from
/// bit 6).
pub proof fn lemma_sla_sra_roundtrip(v: u8)
    requires
        !bit_get(v, 0),
        bit_get(v, 7) == bit_get(v, 6),
    ensures
        sra_val(sla_val(v)) == v,
{
    assert(((v << 1) >> 1) | ((v << 1) & 0x80) == v) by (bit_vector)
        requires
            (v >> 0) & 1 != 1 && ((v >> 7) & 1 == 1) == ((v >> 6) & 1 == 1),
    ;
}

/// SWAP is an involution.
pub proof fn lemma_swap_involution(v: u8)
    ensures
        swap_val(swap_val(v)) == v,
{
    assert((((v >> 4) | (v << 4)) >> 4) | (((v >> 4) | (v << 4)) << 4) == v) by (bit_vector);
}

/// SET(b, RES(b, v)) has bit b set, and every other bit j equals v's.
pub proof fn lemma_set_res(v: u8, b: u8, j: u8)
    requires
        b < 8,
        j < 8,
        j != b,
    ensures
        set_val(res_val(v, b), b) == set_val(v, b),
        bit_get(set_val(res_val(v, b), b), b),
        bit_get(set_val(res_val(v, b), b), j) == bit_get(v, j),
{
    assert(((v & !(1u8 << b)) | (1u8 << b)) == (v | (1u8 << b))) by (bit_vector)
        requires
            b < 8,
    ;
    assert((((v | (1u8 << b)) >> b) & 1) == 1) by (bit_vector)
        requires
            b < 8,
    ;
    assert((((v | (1u8 << b)) >> j) & 1) == ((v >> j) & 1)) by (bit_vector)
        requires
            b < 8 && j < 8 && j != b,
    ;
}

/// A bit test modifies neither its operand byte nor, through the
/// engine, the register or memory cell it examined.
pub proof fn lemma_bit_preserves(s: CpuView, op: CbOp, r: R8, v: u8, c: bool)
    requires
        cb_is_bit(op),
    ensures
        cb_result(op, v, c) == v,
        r8_val(cb_step_reg(s, op, r), r) == r8_val(s, r),
        cb_step_mem(s, op).wram == s.wram,
        cb_step_mem(s, op).vram == s.vram,
        cb_step_mem(s, op).hram == s.hram,
        cb_step_mem(s, op).cart == s.cart,
        cb_step_mem(s, op).oam == s.oam,
        cb_step_mem(s, op).io == s.io,
        cb_step_mem(s, op).ie == s.ie,
{
}

/// XOR of A with itself yields zero and sets Z; AND with 0xFF and OR
/// with 0 leave A unchanged.
pub proof fn lemma_alu_identities(s: CpuView)
    ensures
        alu_xor(s, s.a).a == 0,
        alu_xor(s, s.a).zf,
        alu_and(s, 0xFF).a == s.a,
        alu_or(s, 0).a == s.a,
{
    let v = s.a;
    assert(v ^ v == 0 && (v & 0xFF) == v && (v | 0) == v) by (bit_vector);
}

/// ADD A,v then SUB A,v restores A, whatever the flags did in between.
pub proof fn lemma_add_sub_restores(s: CpuView, v: u8)
    ensures
        alu_sub(alu_add(s, v), v).a == s.a,
{
}

proof fn lemma_ime_low(s: CpuView, op: u8)
    requires
        op < 0x40,
    ensures
        crate::step::spec_step_low(s, op).0.ime == s.ime,
{
}

proof fn lemma_ime_high(s: CpuView, op: u8)
    requires
        0xC0 <= op,
        op != 0xCB,
        op != 0xF3 && op != 0xFB && op != 0xD9,
    ensures
        crate::step::spec_step_high(s, op) matches Some(t) ==> t.0.ime == s.ime,
{
}

/// The interrupt-master-enable latch moves only through DI, EI and
/// RETI: any other instruction leaves it exactly where it was.
pub proof fn lemma_ime_transitions(s: CpuView)
    ensures
        crate::step::spec_step(s) matches Some(t) ==> {
            let op = spec_read(s, s.pc);
            &&& (t.0.ime != s.ime ==> op == 0xF3 || op == 0xFB || op == 0xD9)
            &&& (op == 0xF3 ==> !t.0.ime)
            &&& (op == 0xFB ==> t.0.ime)
            &&& (op == 0xD9 ==> t.0.ime)
        },
{
    let op = spec_read(s, s.pc);
    if op < 0x40 && op != 0xCB {
        lemma_ime_low(s, op);
    } else if 0xC0 <= op && op != 0xCB && op != 0xF3 && op != 0xFB && op != 0xD9 {
        lemma_ime_high(s, op);
    }
}

} // verus!
