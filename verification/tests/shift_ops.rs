//! The CB-page kernels on registers and on the byte at (HL).

use gb_core::CbOp;
use gb_core::R8;
use gb_core::GB;

// RLC

#[test]
fn rlc_b_carry() {
    let mut gb = GB::new();
    gb.set_pc(0x100);
    gb.set_b(0b11001100);
    gb.set_cy(0);
    gb.shift_r8(CbOp::Rlc, R8::B);
    assert_eq!(gb.get_b(), 0b10011001);
    assert_eq!(gb.get_cy(), 1);
}

#[test]
fn rlc_b_no_carry() {
    let mut gb = GB::new();
    gb.set_b(0b00110011);
    gb.set_cy(1);
    gb.shift_r8(CbOp::Rlc, R8::B);
    assert_eq!(gb.get_b(), 0b01100110);
    assert_eq!(gb.get_cy(), 0);
}

#[test]
fn rlc_hl_carry() {
    let mut gb = GB::new();
    let addr = 0xC000;
    gb.set_hl(addr);
    gb.mem_write(addr, 0b11001100);
    gb.set_cy(1);
    gb.shift_mem(CbOp::Rlc);
    assert_eq!(gb.mem_read(addr), 0b10011001);
    assert_eq!(gb.get_cy(), 1);
}

#[test]
fn rlc_hl_no_carry() {
    let mut gb = GB::new();
    let addr = 0xC000;
    gb.set_hl(addr);
    gb.mem_write(addr, 0b00110011);
    gb.set_cy(1);
    gb.shift_mem(CbOp::Rlc);
    assert_eq!(gb.mem_read(addr), 0b01100110);
    assert_eq!(gb.get_cy(), 0);
}

// RRC

#[test]
fn rrc_b_carry() {
    let mut gb = GB::new();
    gb.set_b(0b00110011);
    gb.set_cy(0);
    gb.shift_r8(CbOp::Rrc, R8::B);
    assert_eq!(gb.get_b(), 0b10011001);
    assert_eq!(gb.get_cy(), 1);
}

#[test]
fn rrc_b_no_carry() {
    let mut gb = GB::new();
    gb.set_b(0b11001100);
    gb.set_cy(1);
    gb.shift_r8(CbOp::Rrc, R8::B);
    assert_eq!(gb.get_b(), 0b01100110);
    assert_eq!(gb.get_cy(), 0);
}

#[test]
fn rrc_hl_carry() {
    let mut gb = GB::new();
    let addr = 0xC000;
    gb.set_hl(addr);
    gb.mem_write(addr, 0b00110011);
    gb.set_cy(0);
    gb.shift_mem(CbOp::Rrc);
    assert_eq!(gb.mem_read(addr), 0b10011001);
    assert_eq!(gb.get_cy(), 1);
}

#[test]
fn rrc_hl_no_carry() {
    let mut gb = GB::new();
    let addr = 0xC000;
    gb.set_hl(addr);
    gb.mem_write(addr, 0b11001100);
    gb.set_cy(1);
    gb.shift_mem(CbOp::Rrc);
    assert_eq!(gb.mem_read(addr), 0b01100110);
    assert_eq!(gb.get_cy(), 0);
}

// RL

#[test]
fn rl_b_carry() {
    let mut gb = GB::new();
    gb.set_b(0b11001100);
    gb.set_cy(0);
    gb.shift_r8(CbOp::Rl, R8::B);
    assert_eq!(gb.get_b(), 0b10011000);
    assert_eq!(gb.get_cy(), 1);
}

#[test]
fn rl_b_no_carry() {
    let mut gb = GB::new();
    gb.set_b(0b00110011);
    gb.set_cy(1);
    gb.shift_r8(CbOp::Rl, R8::B);
    assert_eq!(gb.get_b(), 0b01100111);
    assert_eq!(gb.get_cy(), 0);
}

#[test]
fn rl_hl_carry() {
    let mut gb = GB::new();
    let addr = 0xC000;
    gb.set_hl(addr);
    gb.mem_write(addr, 0b11001100);
    gb.set_cy(0);
    gb.shift_mem(CbOp::Rl);
    assert_eq!(gb.mem_read(addr), 0b10011000);
    assert_eq!(gb.get_cy(), 1);
}

#[test]
fn rl_hl_no_carry() {
    let mut gb = GB::new();
    let addr = 0xC000;
    gb.set_hl(addr);
    gb.mem_write(addr, 0b00110011);
    gb.set_cy(1);
    gb.shift_mem(CbOp::Rl);
    assert_eq!(gb.mem_read(addr), 0b01100111);
    assert_eq!(gb.get_cy(), 0);
}

// RR

#[test]
fn rr_b_carry() {
    let mut gb = GB::new();
    gb.set_b(0b00110011);
    gb.set_cy(0);
    gb.shift_r8(CbOp::Rr, R8::B);
    assert_eq!(gb.get_b(), 0b00011001);
    assert_eq!(gb.get_cy(), 1);
}

#[test]
fn rr_b_no_carry() {
    let mut gb = GB::new();
    gb.set_b(0b11001100);
    gb.set_cy(1);
    gb.shift_r8(CbOp::Rr, R8::B);
    assert_eq!(gb.get_b(), 0b11100110);
    assert_eq!(gb.get_cy(), 0);
}

#[test]
fn rr_hl_carry() {
    let mut gb = GB::new();
    let addr = 0xC000;
    gb.set_hl(addr);
    gb.mem_write(addr, 0b00110011);
    gb.set_cy(0);
    gb.shift_mem(CbOp::Rr);
    assert_eq!(gb.mem_read(addr), 0b00011001);
    assert_eq!(gb.get_cy(), 1);
}

#[test]
fn rr_hl_no_carry() {
    let mut gb = GB::new();
    let addr = 0xC000;
    gb.set_hl(addr);
    gb.mem_write(addr, 0b11001100);
    gb.set_cy(1);
    gb.shift_mem(CbOp::Rr);
    assert_eq!(gb.mem_read(addr), 0b11100110);
    assert_eq!(gb.get_cy(), 0);
}

// SLA

#[test]
fn sla_b_carry() {
    let mut gb = GB::new();
    gb.set_b(0b11001100);
    gb.set_cy(0);
    gb.shift_r8(CbOp::Sla, R8::B);
    assert_eq!(gb.get_b(), 0b10011000);
    assert_eq!(gb.get_cy(), 1);
}

#[test]
fn sla_b_no_carry() {
    let mut gb = GB::new();
    gb.set_b(0b00110011);
    gb.set_cy(1);
    gb.shift_r8(CbOp::Sla, R8::B);
    assert_eq!(gb.get_b(), 0b01100110);
    assert_eq!(gb.get_cy(), 0);
}

#[test]
fn sla_hl_carry() {
    let mut gb = GB::new();
    let addr = 0xC000;
    gb.set_hl(addr);
    gb.mem_write(addr, 0b11001100);
    gb.set_cy(0);
    gb.shift_mem(CbOp::Sla);
    assert_eq!(gb.mem_read(addr), 0b10011000);
    assert_eq!(gb.get_cy(), 1);
}

#[test]
fn sla_hl_no_carry() {
    let mut gb = GB::new();
    let addr = 0xC000;
    gb.set_hl(addr);
    gb.mem_write(addr, 0b00110011);
    gb.set_cy(1);
    gb.shift_mem(CbOp::Sla);
    assert_eq!(gb.mem_read(addr), 0b01100110);
    assert_eq!(gb.get_cy(), 0);
}

// SRA

#[test]
fn sra_b_positive() {
    let mut gb = GB::new();
    gb.set_b(0b00110010);
    gb.set_cy(1);
    gb.shift_r8(CbOp::Sra, R8::B);
    assert_eq!(gb.get_b(), 0b00011001);
    assert_eq!(gb.get_cy(), 0);
}

#[test]
fn sra_b_negative() {
    let mut gb = GB::new();
    gb.set_b(0b11001101);
    gb.set_cy(0);
    gb.shift_r8(CbOp::Sra, R8::B);
    assert_eq!(gb.get_b(), 0b11100110);
    assert_eq!(gb.get_cy(), 1);
}

#[test]
fn sra_hl_positive() {
    let mut gb = GB::new();
    let addr = 0xC000;
    gb.set_hl(addr);
    gb.mem_write(addr, 0b00110010);
    gb.set_cy(1);
    gb.shift_mem(CbOp::Sra);
    assert_eq!(gb.mem_read(addr), 0b00011001);
    assert_eq!(gb.get_cy(), 0);
}

#[test]
fn sra_hl_negative() {
    let mut gb = GB::new();
    let addr = 0xC000;
    gb.set_hl(addr);
    gb.mem_write(addr, 0b11001101);
    gb.set_cy(0);
    gb.shift_mem(CbOp::Sra);
    assert_eq!(gb.mem_read(addr), 0b11100110);
    assert_eq!(gb.get_cy(), 1);
}

// SWAP

#[test]
fn swap_b() {
    let mut gb = GB::new();
    gb.set_b(0b10110100);
    gb.shift_r8(CbOp::Swap, R8::B);
    assert_eq!(gb.get_b(), 0b01001011);
}

#[test]
fn swap_hl() {
    let mut gb = GB::new();
    let addr = 0xC000;
    gb.set_hl(addr);
    gb.mem_write(addr, 0b10110100);
    gb.shift_mem(CbOp::Swap);
    assert_eq!(gb.mem_read(addr), 0b01001011);
}

// SRL

#[test]
fn srl_b_positive() {
    let mut gb = GB::new();
    gb.set_b(0b00110010);
    gb.set_cy(1);
    gb.shift_r8(CbOp::Srl, R8::B);
    assert_eq!(gb.get_b(), 0b00011001);
    assert_eq!(gb.get_cy(), 0);
}

#[test]
fn srl_b_negative() {
    let mut gb = GB::new();
    gb.set_b(0b11001101);
    gb.set_cy(0);
    gb.shift_r8(CbOp::Srl, R8::B);
    assert_eq!(gb.get_b(), 0b01100110);
    assert_eq!(gb.get_cy(), 1);
}

#[test]
fn srl_hl_positive() {
    let mut gb = GB::new();
    let addr = 0xC000;
    gb.set_hl(addr);
    gb.mem_write(addr, 0b00110010);
    gb.set_cy(1);
    gb.shift_mem(CbOp::Srl);
    assert_eq!(gb.mem_read(addr), 0b00011001);
    assert_eq!(gb.get_cy(), 0);
}

#[test]
fn srl_hl_negative() {
    let mut gb = GB::new();
    let addr = 0xC000;
    gb.set_hl(addr);
    gb.mem_write(addr, 0b11001101);
    gb.set_cy(0);
    gb.shift_mem(CbOp::Srl);
    assert_eq!(gb.mem_read(addr), 0b01100110);
    assert_eq!(gb.get_cy(), 1);
}

// BIT: Z gets the complement of the tested bit.

#[test]
fn bit_0_b_on() {
    let mut gb = GB::new();
    gb.set_b(0b00000001);
    gb.set_z(1);
    gb.shift_r8(CbOp::Bit0, R8::B);
    assert_eq!(gb.get_b(), 0b00000001);
    assert_eq!(gb.get_z(), 0);
}

#[test]
fn bit_0_b_off() {
    let mut gb = GB::new();
    gb.set_b(0b11111110);
    gb.set_z(0);
    gb.shift_r8(CbOp::Bit0, R8::B);
    assert_eq!(gb.get_b(), 0b11111110);
    assert_eq!(gb.get_z(), 1);
}

#[test]
fn bit_0_hl_on() {
    let mut gb = GB::new();
    let addr = 0xC000;
    gb.set_hl(addr);
    gb.mem_write(addr, 0b00000001);
    gb.set_z(1);
    gb.shift_mem(CbOp::Bit0);
    assert_eq!(gb.mem_read(addr), 0b00000001);
    assert_eq!(gb.get_z(), 0);
}

#[test]
fn bit_0_hl_off() {
    let mut gb = GB::new();
    let addr = 0xC000;
    gb.set_hl(addr);
    gb.mem_write(addr, 0b11111110);
    gb.set_z(0);
    gb.shift_mem(CbOp::Bit0);
    assert_eq!(gb.mem_read(addr), 0b11111110);
    assert_eq!(gb.get_z(), 1);
}

#[test]
fn bit_6_b_on() {
    let mut gb = GB::new();
    gb.set_b(0b01000000);
    gb.set_z(1);
    gb.shift_r8(CbOp::Bit6, R8::B);
    assert_eq!(gb.get_b(), 0b01000000);
    assert_eq!(gb.get_z(), 0);
}

#[test]
fn bit_6_b_off() {
    let mut gb = GB::new();
    gb.set_b(0b10111111);
    gb.set_z(0);
    gb.shift_r8(CbOp::Bit6, R8::B);
    assert_eq!(gb.get_b(), 0b10111111);
    assert_eq!(gb.get_z(), 1);
}

#[test]
fn bit_6_hl_on() {
    let mut gb = GB::new();
    let addr = 0xC000;
    gb.set_hl(addr);
    gb.mem_write(addr, 0b01000000);
    gb.set_z(1);
    gb.shift_mem(CbOp::Bit6);
    assert_eq!(gb.mem_read(addr), 0b01000000);
    assert_eq!(gb.get_z(), 0);
}

#[test]
fn bit_6_hl_off() {
    let mut gb = GB::new();
    let addr = 0xC000;
    gb.set_hl(addr);
    gb.mem_write(addr, 0b10111111);
    gb.set_z(0);
    gb.shift_mem(CbOp::Bit6);
    assert_eq!(gb.mem_read(addr), 0b10111111);
    assert_eq!(gb.get_z(), 1);
}

// RES

#[test]
fn res_0_b() {
    let mut gb = GB::new();
    gb.set_b(0b11111111);
    gb.shift_r8(CbOp::Res0, R8::B);
    assert_eq!(gb.get_b(), 0b11111110);
}

#[test]
fn res_0_hl() {
    let mut gb = GB::new();
    let addr = 0xC000;
    gb.set_hl(addr);
    gb.mem_write(addr, 0b11111111);
    gb.shift_mem(CbOp::Res0);
    assert_eq!(gb.mem_read(addr), 0b11111110);
}

#[test]
fn res_6_b() {
    let mut gb = GB::new();
    gb.set_b(0b11111111);
    gb.shift_r8(CbOp::Res6, R8::B);
    assert_eq!(gb.get_b(), 0b10111111);
}

#[test]
fn res_6_hl() {
    let mut gb = GB::new();
    let addr = 0xC000;
    gb.set_hl(addr);
    gb.mem_write(addr, 0b11111111);
    gb.shift_mem(CbOp::Res6);
    assert_eq!(gb.mem_read(addr), 0b10111111);
}

// SET

#[test]
fn set_0_b() {
    let mut gb = GB::new();
    gb.set_b(0b00000000);
    gb.shift_r8(CbOp::Set0, R8::B);
    assert_eq!(gb.get_b(), 0b00000001);
}

#[test]
fn set_0_hl() {
    let mut gb = GB::new();
    let addr = 0xC000;
    gb.set_hl(addr);
    gb.mem_write(addr, 0b00000000);
    gb.shift_mem(CbOp::Set0);
    assert_eq!(gb.mem_read(addr), 0b00000001);
}

#[test]
fn set_6_b() {
    let mut gb = GB::new();
    gb.set_b(0b00000000);
    gb.shift_r8(CbOp::Set6, R8::B);
    assert_eq!(gb.get_b(), 0b01000000);
}

#[test]
fn set_6_hl() {
    let mut gb = GB::new();
    let addr = 0xC000;
    gb.set_hl(addr);
    gb.mem_write(addr, 0b00000000);
    gb.shift_mem(CbOp::Set6);
    assert_eq!(gb.mem_read(addr), 0b01000000);
}
