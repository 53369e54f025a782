//! The arithmetic kernels: accumulator operations, 16-bit adds,
//! increments and decrements, DAA, CPL, and the interrupt latch.

use gb_core::R8;
use gb_core::GB;

#[test]
fn adc_r8_test() {
    let mut gb = GB::new();
    gb.set_a(0xF0);
    gb.set_cy(0x1);
    gb.adc_r8(0x0F);
    assert_eq!(gb.get_a(), 0x00);
    assert_eq!(gb.get_cy(), 0x01);
}

#[test]
fn add_r8_test() {
    let mut gb = GB::new();
    gb.set_a(0xF0);
    gb.set_cy(0x1);
    gb.add_r8(0x0F);
    assert_eq!(gb.get_a(), 0xFF);
    assert_eq!(gb.get_cy(), 0x00);
}

#[test]
fn add_hl_bc_test() {
    let mut gb = GB::new();
    gb.set_bc(0x1111);
    gb.set_hl(0x2222);
    gb.add_hl_bc();
    assert_eq!(gb.get_hl(), 0x3333);
}

#[test]
fn and_r8_test() {
    let mut gb = GB::new();
    gb.set_a(0b10011001);
    gb.set_cy(0x1);
    gb.and_r8(0b11110000);
    assert_eq!(gb.get_a(), 0b10010000);
    assert_eq!(gb.get_cy(), 0x00);
}

#[test]
fn cp_r8_test() {
    let mut gb = GB::new();
    gb.set_a(0xF0);
    gb.set_cy(0x1);
    gb.cp_r8(0x0F);
    assert_eq!(gb.get_a(), 0xF0);
    assert_eq!(gb.get_cy(), 0x00);
}

#[test]
fn or_r8_test() {
    let mut gb = GB::new();
    gb.set_a(0b10011001);
    gb.set_cy(0x1);
    gb.or_r8(0b11110000);
    assert_eq!(gb.get_a(), 0b11111001);
    assert_eq!(gb.get_cy(), 0x00);
}

#[test]
fn sbc_r8_test() {
    let mut gb = GB::new();
    gb.set_a(0xF0);
    gb.set_cy(0x1);
    gb.sbc_r8(0x0F);
    assert_eq!(gb.get_a(), 0xE0);
    assert_eq!(gb.get_cy(), 0x00);
}

#[test]
fn sub_r8_test() {
    let mut gb = GB::new();
    gb.set_a(0xF0);
    gb.set_cy(0x1);
    gb.sub_r8(0x0F);
    assert_eq!(gb.get_a(), 0xE1);
    assert_eq!(gb.get_cy(), 0x00);
}

#[test]
fn xor_r8_test() {
    let mut gb = GB::new();
    gb.set_a(0b10011001);
    gb.set_cy(0x1);
    gb.xor_r8(0b11110000);
    assert_eq!(gb.get_a(), 0b01101001);
    assert_eq!(gb.get_cy(), 0x00);
}

#[test]
fn dec_r8_test() {
    let mut gb = GB::new();
    gb.set_b(0x10);
    gb.set_hc(0);
    gb.dec_r8(R8::B);
    assert_eq!(gb.get_b(), 0x0F);
    assert_eq!(gb.get_hc(), 0x01);
}

#[test]
fn inc_r8_test() {
    let mut gb = GB::new();
    gb.set_b(0x0F);
    gb.set_hc(0);
    gb.inc_r8(R8::B);
    assert_eq!(gb.get_b(), 0x10);
    assert_eq!(gb.get_hc(), 0x01);
}

#[test]
fn dec_r8_mem_test() {
    let mut gb = GB::new();
    let hl = gb.get_hl();
    gb.mem_write(hl, 0x10);
    gb.set_hc(0);
    gb.dec_r8_mem();
    assert_eq!(gb.mem_read(hl), 0x0F);
    assert_eq!(gb.get_hc(), 0x01);
}

#[test]
fn inc_r8_mem_test() {
    let mut gb = GB::new();
    let hl = gb.get_hl();
    gb.mem_write(hl, 0x0F);
    gb.set_hc(0);
    gb.inc_r8_mem();
    assert_eq!(gb.mem_read(hl), 0x10);
    assert_eq!(gb.get_hc(), 0x01);
}

#[test]
fn dec_bc_test() {
    let mut gb = GB::new();
    gb.set_bc(0x1111);
    gb.dec_bc();
    assert_eq!(gb.get_bc(), 0x1110);
}

#[test]
fn inc_bc_test() {
    let mut gb = GB::new();
    gb.set_bc(0x1111);
    gb.inc_bc();
    assert_eq!(gb.get_bc(), 0x1112);
}

#[test]
fn ei_test() {
    let mut gb = GB::new();
    gb.set_ime(0);
    gb.ei();
    assert_eq!(gb.get_ime(), 1);
}

#[test]
fn di_test() {
    let mut gb = GB::new();
    gb.set_ime(1);
    gb.di();
    assert_eq!(gb.get_ime(), 0);
}

#[test]
fn cpl_test() {
    let mut gb = GB::new();
    gb.set_a(0b11001010);
    gb.cpl();
    assert_eq!(gb.get_a(), 0b00110101);
}

#[test]
fn daa_cf_add_test() {
    let mut gb = GB::new();
    gb.set_a(0x90 + 0x10);
    gb.set_n(0);
    gb.daa();
    assert_eq!(gb.get_a(), 0x00);
}

#[test]
fn daa_hf_add_test() {
    let mut gb = GB::new();
    gb.set_a(0x09 + 0x01);
    gb.set_hc(1);
    gb.set_n(0);
    gb.daa();
    assert_eq!(gb.get_a(), 0x10);
}

#[test]
fn daa_cy_sub_test() {
    let mut gb = GB::new();
    gb.set_a(0x60);
    gb.set_n(1);
    gb.set_cy(1);
    gb.daa();
    assert_eq!(gb.get_a(), 0x00);
    assert_eq!(gb.get_cy(), 1);
}

#[test]
fn daa_hf_sub_test() {
    let mut gb = GB::new();
    gb.set_a(0x10 - 0x09);
    gb.set_n(1);
    gb.set_hc(1);
    gb.daa();
    assert_eq!(gb.get_a(), 0x01);
}
