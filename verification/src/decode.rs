//! Operand addressing shared by the instruction engine: the named 8-bit
//! registers, the eight operand slots of the LR35902 encoding (slot 6 is
//! the byte at (HL)), and the decode-error value.

use vstd::prelude::*;

use crate::bus::spec_read;
use crate::bus::spec_write;
use crate::machine::GB;
use crate::view::CpuView;

verus! {

/// One of the seven named 8-bit registers.
#[derive(Clone, Copy, PartialEq, Eq, Structural, Debug)]
pub enum R8 {
    B,
    C,
    D,
    E,
    H,
    L,
    A,
}

/// An unrecoverable decode error: the offending byte pair and the PC it
/// was fetched from.
#[derive(Clone, Copy, PartialEq, Eq, Structural, Debug)]
pub struct DecodeError {
    pub pc: u16,
    pub opcode: u8,
    pub operand: u8,
}

/// The value of a named 8-bit register.
pub open spec fn r8_val(s: CpuView, r: R8) -> u8 {
    match r {
        R8::B => s.b,
        R8::C => s.c,
        R8::D => s.d,
        R8::E => s.e,
        R8::H => s.h,
        R8::L => s.l,
        R8::A => s.a,
    }
}

/// The state with a named 8-bit register replaced.
pub open spec fn r8_set(s: CpuView, r: R8, v: u8) -> CpuView {
    match r {
        R8::B => CpuView { b: v, ..s },
        R8::C => CpuView { c: v, ..s },
        R8::D => CpuView { d: v, ..s },
        R8::E => CpuView { e: v, ..s },
        R8::H => CpuView { h: v, ..s },
        R8::L => CpuView { l: v, ..s },
        R8::A => CpuView { a: v, ..s },
    }
}

/// The value of operand slot `slot` (0..=7): B, C, D, E, H, L, the byte
/// at (HL), A.
pub open spec fn slot_val(s: CpuView, slot: u8) -> u8 {
    if slot == 0 {
        s.b
    } else if slot == 1 {
        s.c
    } else if slot == 2 {
        s.d
    } else if slot == 3 {
        s.e
    } else if slot == 4 {
        s.h
    } else if slot == 5 {
        s.l
    } else if slot == 6 {
        spec_read(s, s.hl())
    } else {
        s.a
    }
}

/// The state after storing into operand slot `slot`; slot 6 writes the
/// byte at (HL) through the bus.
pub open spec fn slot_store(s: CpuView, slot: u8, v: u8) -> CpuView {
    if slot == 0 {
        CpuView { b: v, ..s }
    } else if slot == 1 {
        CpuView { c: v, ..s }
    } else if slot == 2 {
        CpuView { d: v, ..s }
    } else if slot == 3 {
        CpuView { e: v, ..s }
    } else if slot == 4 {
        CpuView { h: v, ..s }
    } else if slot == 5 {
        CpuView { l: v, ..s }
    } else if slot == 6 {
        spec_write(s, s.hl(), v)
    } else {
        CpuView { a: v, ..s }
    }
}

impl GB {
    pub(crate) fn r8_read(&self, r: R8) -> (v: u8)
        ensures
            v == r8_val(self@, r),
    {
        match r {
            R8::B => self.b,
            R8::C => self.c,
            R8::D => self.d,
            R8::E => self.e,
            R8::H => self.h,
            R8::L => self.l,
            R8::A => self.a,
        }
    }

    pub(crate) fn r8_write(&mut self, r: R8, v: u8)
        ensures
            final(self)@ == r8_set(old(self)@, r, v),
    {
        match r {
            R8::B => self.b = v,
            R8::C => self.c = v,
            R8::D => self.d = v,
            R8::E => self.e = v,
            R8::H => self.h = v,
            R8::L => self.l = v,
            R8::A => self.a = v,
        }
    }

    pub(crate) fn slot_read(&self, slot: u8) -> (v: u8)
        requires
            slot < 8,
        ensures
            v == slot_val(self@, slot),
    {
        if slot == 0 {
            self.b
        } else if slot == 1 {
            self.c
        } else if slot == 2 {
            self.d
        } else if slot == 3 {
            self.e
        } else if slot == 4 {
            self.h
        } else if slot == 5 {
            self.l
        } else if slot == 6 {
            self.mem_read(self.get_hl())
        } else {
            self.a
        }
    }

    pub(crate) fn slot_write(&mut self, slot: u8, v: u8)
        requires
            slot < 8,
        ensures
            final(self)@ == slot_store(old(self)@, slot, v),
    {
        if slot == 0 {
            self.b = v;
        } else if slot == 1 {
            self.c = v;
        } else if slot == 2 {
            self.d = v;
        } else if slot == 3 {
            self.e = v;
        } else if slot == 4 {
            self.h = v;
        } else if slot == 5 {
            self.l = v;
        } else if slot == 6 {
            let addr = self.get_hl();
            self.mem_write(addr, v);
        } else {
            self.a = v;
        }
    }
}

} // verus!
