//! Control transfer: jumps, relative jumps, calls, returns, the stack
//! operations and restarts.

use gb_core::GB;

#[test]
fn jp_a16_test() {
    let mut gb = GB::new();
    gb.set_pc(0x0000);
    let pc = gb.get_pc();
    gb.mem_write(pc + 1, 0xDE);
    gb.mem_write(pc + 2, 0xAD);
    gb.jp_a16();
    assert_eq!(gb.get_pc(), 0xDEAD);
}

#[test]
fn jp_hl_test() {
    let mut gb = GB::new();
    gb.set_pc(0x0000);
    gb.set_hl(0xDEAD);
    gb.jp_hl();
    assert_eq!(gb.get_pc(), 0xDEAD);
}

#[test]
fn jp_nz_test() {
    let mut gb = GB::new();
    gb.set_pc(0x0000);
    gb.mem_write(1, 0xDE);
    gb.mem_write(2, 0xAD);
    gb.set_z(1);
    gb.jp_nz();
    assert_eq!(gb.get_pc(), 0x0003);
    gb.set_pc(0x0000);
    gb.set_z(0);
    gb.jp_nz();
    assert_eq!(gb.get_pc(), 0xDEAD);
}

#[test]
fn jp_nc_test() {
    let mut gb = GB::new();
    gb.set_pc(0x0000);
    gb.mem_write(1, 0xDE);
    gb.mem_write(2, 0xAD);
    gb.set_cy(1);
    gb.jp_nc();
    assert_eq!(gb.get_pc(), 0x0003);
    gb.set_pc(0x0000);
    gb.set_cy(0);
    gb.jp_nc();
    assert_eq!(gb.get_pc(), 0xDEAD);
}

#[test]
fn jp_z_test() {
    let mut gb = GB::new();
    gb.set_pc(0x0000);
    gb.mem_write(1, 0xDE);
    gb.mem_write(2, 0xAD);
    gb.set_z(0);
    gb.jp_z();
    assert_eq!(gb.get_pc(), 0x0003);
    gb.set_pc(0x0000);
    gb.set_z(1);
    gb.jp_z();
    assert_eq!(gb.get_pc(), 0xDEAD);
}

#[test]
fn jp_c_test() {
    let mut gb = GB::new();
    gb.set_pc(0x0000);
    gb.mem_write(1, 0xDE);
    gb.mem_write(2, 0xAD);
    gb.set_cy(0);
    gb.jp_c();
    assert_eq!(gb.get_pc(), 0x0003);
    gb.set_pc(0x0000);
    gb.set_cy(1);
    gb.jp_c();
    assert_eq!(gb.get_pc(), 0xDEAD);
}

#[test]
fn jr_a8_neg_test() {
    let mut gb = GB::new();
    gb.set_pc(0x0000);
    gb.jr_a8(0xFF_u8 as i8);
    assert_eq!(gb.get_pc(), 0x0001);
}

#[test]
fn jr_a8_pos_test() {
    let mut gb = GB::new();
    gb.set_pc(0xF000);
    gb.jr_a8(0x1F_u8 as i8);
    assert_eq!(gb.get_pc(), 0xF021);
}

#[test]
fn jr_nz_a8_test() {
    let mut gb = GB::new();
    gb.set_pc(0x0000);
    gb.set_z(1);
    gb.jr_nz_a8(0x1F_u8 as i8);
    assert_eq!(gb.get_pc(), 0x0002);
    gb.set_pc(0x0000);
    gb.set_z(0);
    gb.jr_nz_a8(0x1F_u8 as i8);
    assert_eq!(gb.get_pc(), 0x21);
}

#[test]
fn jr_nc_a8_test() {
    let mut gb = GB::new();
    gb.set_pc(0x0000);
    gb.set_cy(1);
    gb.jr_nc_a8(0x1F_u8 as i8);
    assert_eq!(gb.get_pc(), 0x0002);
    gb.set_pc(0x0000);
    gb.set_cy(0);
    gb.jr_nc_a8(0x1F_u8 as i8);
    assert_eq!(gb.get_pc(), 0x21);
}

#[test]
fn jr_z_a8_test() {
    let mut gb = GB::new();
    gb.set_pc(0x0000);
    gb.set_z(0);
    gb.jr_z_a8(0x1F_u8 as i8);
    assert_eq!(gb.get_pc(), 0x0002);
    gb.set_pc(0x0000);
    gb.set_z(1);
    gb.jr_z_a8(0x1F_u8 as i8);
    assert_eq!(gb.get_pc(), 0x21);
}

#[test]
fn jr_c_a8_test() {
    let mut gb = GB::new();
    gb.set_pc(0x0000);
    gb.set_cy(0);
    gb.jr_c_a8(0x1F_u8 as i8);
    assert_eq!(gb.get_pc(), 0x0002);
    gb.set_pc(0x0000);
    gb.set_cy(1);
    gb.jr_c_a8(0x1F_u8 as i8);
    assert_eq!(gb.get_pc(), 0x21);
}

#[test]
fn call_a16_test() {
    let mut gb = GB::new();
    gb.set_pc(0x1110);
    gb.set_sp(0xFFFE);
    let pc = gb.get_pc();
    gb.mem_write(pc + 1, 0xDE);
    gb.mem_write(pc + 2, 0xAD);
    gb.call_a16();
    assert_eq!(gb.get_pc(), 0xDEAD);
    assert_eq!(gb.get_sp(), 0xFFFC);
    assert_eq!(gb.mem_read(gb.get_sp()), 0x13);
    assert_eq!(gb.mem_read(gb.get_sp() + 1), 0x11);
}

#[test]
fn call_nz_a16_test() {
    let mut gb = GB::new();
    gb.set_pc(0x1110);
    gb.set_sp(0xFFFE);
    gb.mem_write(0x1111, 0xDE);
    gb.mem_write(0x1112, 0xAD);
    gb.set_z(1);
    gb.call_nz_a16();
    assert_eq!(gb.get_pc(), 0x1113);
    gb.set_pc(0x1110);
    gb.set_z(0);
    gb.call_nz_a16();
    assert_eq!(gb.get_pc(), 0xDEAD);
    assert_eq!(gb.get_sp(), 0xFFFC);
    assert_eq!(gb.mem_read(gb.get_sp()), 0x13);
    assert_eq!(gb.mem_read(gb.get_sp() + 1), 0x11);
}

#[test]
fn call_nc_a16_test() {
    let mut gb = GB::new();
    gb.set_pc(0x1110);
    gb.set_sp(0xFFFE);
    gb.mem_write(0x1111, 0xDE);
    gb.mem_write(0x1112, 0xAD);
    gb.set_cy(1);
    gb.call_nc_a16();
    assert_eq!(gb.get_pc(), 0x1113);
    gb.set_pc(0x1110);
    gb.set_cy(0);
    gb.call_nc_a16();
    assert_eq!(gb.get_pc(), 0xDEAD);
    assert_eq!(gb.get_sp(), 0xFFFC);
    assert_eq!(gb.mem_read(gb.get_sp()), 0x13);
    assert_eq!(gb.mem_read(gb.get_sp() + 1), 0x11);
}

#[test]
fn call_z_a16_test() {
    let mut gb = GB::new();
    gb.set_pc(0x1110);
    gb.set_sp(0xFFFE);
    gb.mem_write(0x1111, 0xDE);
    gb.mem_write(0x1112, 0xAD);
    gb.set_z(0);
    gb.call_z_a16();
    assert_eq!(gb.get_pc(), 0x1113);
    gb.set_pc(0x1110);
    gb.set_z(1);
    gb.call_z_a16();
    assert_eq!(gb.get_pc(), 0xDEAD);
    assert_eq!(gb.get_sp(), 0xFFFC);
    assert_eq!(gb.mem_read(gb.get_sp()), 0x13);
    assert_eq!(gb.mem_read(gb.get_sp() + 1), 0x11);
}

#[test]
fn call_c_a16_test() {
    let mut gb = GB::new();
    gb.set_pc(0x1110);
    gb.set_sp(0xFFFE);
    gb.mem_write(0x1111, 0xDE);
    gb.mem_write(0x1112, 0xAD);
    gb.set_cy(0);
    gb.call_c_a16();
    assert_eq!(gb.get_pc(), 0x1113);
    gb.set_pc(0x1110);
    gb.set_cy(1);
    gb.call_c_a16();
    assert_eq!(gb.get_pc(), 0xDEAD);
    assert_eq!(gb.get_sp(), 0xFFFC);
    assert_eq!(gb.mem_read(gb.get_sp()), 0x13);
    assert_eq!(gb.mem_read(gb.get_sp() + 1), 0x11);
}

#[test]
fn ret_a16_test() {
    let mut gb = GB::new();
    gb.set_pc(0x1110);
    gb.set_sp(0xFFFC);
    let sp = gb.get_sp();
    gb.mem_write(sp, 0xAD);
    gb.mem_write(sp + 1, 0xDE);
    gb.ret_a16();
    assert_eq!(gb.get_pc(), 0xDEAD);
    assert_eq!(gb.get_sp(), 0xFFFE);
}

#[test]
fn ret_nz_a16_test() {
    let mut gb = GB::new();
    gb.set_pc(0x1110);
    gb.set_sp(0xFFFC);
    gb.mem_write(0xFFFC, 0xAD);
    gb.mem_write(0xFFFD, 0xDE);
    gb.set_z(1);
    gb.ret_nz_a16();
    assert_eq!(gb.get_pc(), 0x1111);
    assert_eq!(gb.get_sp(), 0xFFFC);
    gb.set_pc(0x1110);
    gb.set_z(0);
    gb.ret_nz_a16();
    assert_eq!(gb.get_pc(), 0xDEAD);
    assert_eq!(gb.get_sp(), 0xFFFE);
}

#[test]
fn ret_nc_a16_test() {
    let mut gb = GB::new();
    gb.set_pc(0x1110);
    gb.set_sp(0xFFFC);
    gb.mem_write(0xFFFC, 0xAD);
    gb.mem_write(0xFFFD, 0xDE);
    gb.set_cy(1);
    gb.ret_nc_a16();
    assert_eq!(gb.get_pc(), 0x1111);
    assert_eq!(gb.get_sp(), 0xFFFC);
    gb.set_pc(0x1110);
    gb.set_cy(0);
    gb.ret_nc_a16();
    assert_eq!(gb.get_pc(), 0xDEAD);
    assert_eq!(gb.get_sp(), 0xFFFE);
}

#[test]
fn ret_z_a16_test() {
    let mut gb = GB::new();
    gb.set_pc(0x1110);
    gb.set_sp(0xFFFC);
    gb.mem_write(0xFFFC, 0xAD);
    gb.mem_write(0xFFFD, 0xDE);
    gb.set_z(0);
    gb.ret_z_a16();
    assert_eq!(gb.get_pc(), 0x1111);
    assert_eq!(gb.get_sp(), 0xFFFC);
    gb.set_pc(0x1110);
    gb.set_z(1);
    gb.ret_z_a16();
    assert_eq!(gb.get_pc(), 0xDEAD);
    assert_eq!(gb.get_sp(), 0xFFFE);
}

#[test]
fn ret_c_a16_test() {
    let mut gb = GB::new();
    gb.set_pc(0x1110);
    gb.set_sp(0xFFFC);
    gb.mem_write(0xFFFC, 0xAD);
    gb.mem_write(0xFFFD, 0xDE);
    gb.set_cy(0);
    gb.ret_c_a16();
    assert_eq!(gb.get_pc(), 0x1111);
    assert_eq!(gb.get_sp(), 0xFFFC);
    gb.set_pc(0x1110);
    gb.set_cy(1);
    gb.ret_c_a16();
    assert_eq!(gb.get_pc(), 0xDEAD);
    assert_eq!(gb.get_sp(), 0xFFFE);
}

#[test]
fn reti_a16_test() {
    let mut gb = GB::new();
    gb.set_pc(0x1110);
    gb.set_sp(0xFFFC);
    gb.set_ime(0);
    gb.reti_a16();
    assert_eq!(gb.get_ime(), 1);
}

#[test]
fn push_a16_test() {
    let mut gb = GB::new();
    gb.set_bc(0x1110);
    gb.set_sp(0xFFFE);
    let bc = gb.get_bc();
    gb.push_r16(bc);
    assert_eq!(gb.get_sp(), 0xFFFC);
    assert_eq!(gb.mem_read(gb.get_sp()), 0x10);
    assert_eq!(gb.mem_read(gb.get_sp() + 1), 0x11);
}

#[test]
fn pop_a16_test() {
    let mut gb = GB::new();
    gb.push_r16(0xDEAD);
    gb.set_bc(0x0000);
    gb.pop_bc();
    assert_eq!(gb.get_sp(), 0xFFFE);
    assert_eq!(gb.get_bc(), 0xDEAD);
}

#[test]
fn rst_n8_test() {
    let mut gb = GB::new();
    gb.set_pc(0xFFFF);
    gb.rst_n8(0x10);
    assert_eq!(gb.get_pc(), 0x10);
}
