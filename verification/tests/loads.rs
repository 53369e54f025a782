//! The LD kernels: pair immediates, register moves, memory forms, the
//! high-page forms, and the SP/HL couplings.

use gb_core::R8;
use gb_core::GB;

#[test]
fn ld_bc_d16_test() {
    let mut gb = GB::new();
    let pc = gb.get_pc();
    gb.mem_write(pc + 1, 0xDE);
    gb.mem_write(pc + 2, 0xAD);
    gb.set_bc(0x0000);
    gb.ld_bc_d16();
    assert_eq!(gb.get_bc(), 0xDEAD);
}

#[test]
fn ld_de_d16_test() {
    let mut gb = GB::new();
    let pc = gb.get_pc();
    gb.mem_write(pc + 1, 0xDE);
    gb.mem_write(pc + 2, 0xAD);
    gb.set_de(0x0000);
    gb.ld_de_d16();
    assert_eq!(gb.get_de(), 0xDEAD);
}

#[test]
fn ld_hl_d16_test() {
    let mut gb = GB::new();
    let pc = gb.get_pc();
    gb.mem_write(pc + 1, 0xDE);
    gb.mem_write(pc + 2, 0xAD);
    gb.set_hl(0x0000);
    gb.ld_hl_d16();
    assert_eq!(gb.get_hl(), 0xDEAD);
}

#[test]
fn ld_sp_d16_test() {
    let mut gb = GB::new();
    let pc = gb.get_pc();
    gb.mem_write(pc + 1, 0xDE);
    gb.mem_write(pc + 2, 0xAD);
    gb.set_sp(0x0000);
    gb.ld_sp_d16();
    assert_eq!(gb.get_sp(), 0xDEAD);
}

#[test]
fn ld_bc_mem_test() {
    let mut gb = GB::new();
    gb.set_bc(0xC000);
    gb.set_a(0xAF);
    let bc = gb.get_bc();
    gb.mem_write(bc, 0x00);
    gb.ld_r16_mem(bc);
    assert_eq!(gb.mem_read(bc), 0xAF);
}

#[test]
fn ld_de_mem_test() {
    let mut gb = GB::new();
    gb.set_de(0xC000);
    gb.set_a(0xAF);
    let de = gb.get_de();
    gb.mem_write(de, 0x00);
    gb.ld_r16_mem(de);
    assert_eq!(gb.mem_read(de), 0xAF);
}

#[test]
fn ld_hl_mem_inc_test() {
    let mut gb = GB::new();
    gb.set_hl(0xC000);
    gb.set_a(0xAF);
    let hl = gb.get_hl();
    gb.mem_write(hl, 0x00);
    gb.ld_hl_mem_inc();
    assert_eq!(gb.get_hl(), 0xC001);
    assert_eq!(gb.mem_read(gb.get_hl() - 1), 0xAF);
}

#[test]
fn ld_hl_mem_dec_test() {
    let mut gb = GB::new();
    gb.set_hl(0xC000);
    gb.set_a(0xAF);
    let hl = gb.get_hl();
    gb.mem_write(hl, 0x00);
    gb.ld_hl_mem_dec();
    assert_eq!(gb.get_hl(), 0xBFFF);
    assert_eq!(gb.mem_read(gb.get_hl() + 1), 0xAF);
}

#[test]
fn ld_b_c_test() {
    let mut gb = GB::new();
    gb.set_b(0xAF);
    gb.set_c(0xDE);
    gb.ld_r8_r8(R8::B, R8::C);
    assert_eq!(gb.get_b(), 0xDE);
}

#[test]
fn ld_mem_hl_b_test() {
    let mut gb = GB::new();
    gb.set_b(0xAF);
    let hl = gb.get_hl();
    gb.mem_write(hl, 0x00);
    gb.ld_mem_r16_r8(hl, R8::B);
    assert_eq!(gb.mem_read(hl), 0xAF);
}

#[test]
fn ld_b_mem_hl_test() {
    let mut gb = GB::new();
    gb.set_b(0x00);
    let hl = gb.get_hl();
    gb.mem_write(hl, 0xAF);
    gb.ld_r8_mem_r16(R8::B, hl);
    assert_eq!(gb.get_b(), 0xAF);
}

#[test]
fn ld_b_d8_test() {
    let mut gb = GB::new();
    gb.set_b(0x00);
    gb.ld_r8_d8(R8::B, 0xAF);
    assert_eq!(gb.get_b(), 0xAF);
}

#[test]
fn ld_mem_hl_d8_test() {
    let mut gb = GB::new();
    let hl = gb.get_hl();
    gb.mem_write(hl, 0x00);
    gb.ld_mem_r16_d8(hl, 0xAF);
    assert_eq!(gb.mem_read(hl), 0xAF);
}

#[test]
fn ld_mem_a16_sp_test() {
    let mut gb = GB::new();
    gb.mem_write(0xC000, 0x00);
    gb.mem_write(0xC001, 0x00);
    gb.set_sp(0xDEAD);
    let sp = gb.get_sp();
    gb.ld_mem_a16_r16(0xC000, sp);
    assert_eq!(gb.mem_read(0xC000), 0xAD);
    assert_eq!(gb.mem_read(0xC001), 0xDE);
}

#[test]
fn ld_a_mem_bc_test() {
    let mut gb = GB::new();
    gb.set_a(0x00);
    let bc = gb.get_bc();
    gb.mem_write(bc, 0xFF);
    gb.ld_r8_mem_r16(R8::A, bc);
    assert_eq!(gb.get_a(), 0xFF);
}

#[test]
fn ld_a_mem_hl_inc_test() {
    let mut gb = GB::new();
    gb.set_a(0x00);
    gb.set_hl(0x1F);
    let hl = gb.get_hl();
    gb.mem_write(hl, 0xFE);
    gb.ld_a_mem_hl_inc();
    assert_eq!(gb.get_a(), 0xFE);
    assert_eq!(gb.get_hl(), 0x20);
}

#[test]
fn ld_a_mem_hl_dec_test() {
    let mut gb = GB::new();
    gb.set_a(0x00);
    gb.set_hl(0x1F);
    let hl = gb.get_hl();
    gb.mem_write(hl, 0xFF);
    gb.ld_a_mem_hl_dec();
    assert_eq!(gb.get_a(), 0xFF);
    assert_eq!(gb.get_hl(), 0x1E);
}

#[test]
fn ldh_mem_a8_r8_test() {
    let mut gb = GB::new();
    gb.mem_write(0xFF20, 0x00);
    gb.set_a(0x11);
    gb.ldh_mem_a8_r8(0x20, R8::A);
    assert_eq!(gb.mem_read(0xFF20), 0x11);
}

#[test]
fn ldh_r8_mem_a8_test() {
    let mut gb = GB::new();
    gb.mem_write(0xFF20, 0x11);
    gb.set_a(0x00);
    gb.ldh_r8_mem_a8(R8::A, 0x20);
    assert_eq!(gb.get_a(), 0x11);
}

#[test]
fn ld_mem_r8_r8_test() {
    let mut gb = GB::new();
    gb.mem_write(0xFF20, 0x00);
    gb.set_a(0x11);
    gb.set_c(0x20);
    gb.ld_mem_r8_r8(R8::C, R8::A);
    assert_eq!(gb.mem_read(0xFF20), 0x11);
}

#[test]
fn ld_r8_mem_r8_test() {
    let mut gb = GB::new();
    gb.mem_write(0xFF20, 0x11);
    gb.set_a(0x00);
    gb.set_c(0x20);
    gb.ld_r8_mem_r8(R8::A, R8::C);
    assert_eq!(gb.get_a(), 0x11);
}

#[test]
fn ld_hl_sp_plus_r8_test() {
    let mut gb = GB::new();
    gb.set_hl(0);
    gb.set_sp(0x0010);
    let val = 0xFF;
    gb.ld_hl_sp_plus_a8(val);
    assert_eq!(gb.get_hl(), 0x000F);
}

#[test]
fn ld_sp_hl_test() {
    let mut gb = GB::new();
    gb.set_sp(0);
    gb.set_hl(0xDEAD);
    gb.ld_sp_hl();
    assert_eq!(gb.get_sp(), 0xDEAD);
}

#[test]
fn ld_mem_a16_a_test() {
    let mut gb = GB::new();
    let addr = 0xDEAD;
    let pc = gb.get_pc();
    gb.mem_write(pc + 1, 0xDE);
    gb.mem_write(pc + 2, 0xAD);
    let val = 0x11;
    gb.set_a(val);
    gb.ld_mem_a16_a();
    assert_eq!(gb.mem_read(addr), val);
}

#[test]
fn ld_a_mem_a16_test() {
    let mut gb = GB::new();
    let addr = 0xDEAD;
    let pc = gb.get_pc();
    gb.mem_write(pc + 1, 0xDE);
    gb.mem_write(pc + 2, 0xAD);
    let val = 0x11;
    gb.set_a(0x00);
    gb.mem_write(addr, val);
    gb.ld_a_mem_a16();
    assert_eq!(gb.get_a(), val);
}
