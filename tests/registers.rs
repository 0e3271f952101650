use gbcpu::registers::{Register, Registers, FLAG_C, FLAG_H, FLAG_N, FLAG_Z};

#[test]
fn new_registers_are_zero() {
    let r = Registers::new();
    assert_eq!(r.get_af(), 0);
    assert_eq!(r.get_bc(), 0);
    assert_eq!(r.get_de(), 0);
    assert_eq!(r.get_hl(), 0);
    assert_eq!(r.sp, 0);
    assert_eq!(r.pc, 0);
}

#[test]
fn halves_show_in_pairs() {
    let mut r = Registers::new();
    r.set_a(0x12);
    r.set_f(0x30);
    r.set_b(0x45);
    r.set_c(0x67);
    r.set_d(0x89);
    r.set_e(0xab);
    r.set_h(0xcd);
    r.set_l(0xef);
    assert_eq!(r.get_af(), 0x1230);
    assert_eq!(r.get_bc(), 0x4567);
    assert_eq!(r.get_de(), 0x89ab);
    assert_eq!(r.get_hl(), 0xcdef);
}

#[test]
fn pairs_show_in_halves() {
    let mut r = Registers::new();
    r.set_af(0x1234);
    r.set_bc(0x5678);
    r.set_de(0x9abc);
    r.set_hl(0xdef0);
    assert_eq!((r.get_a(), r.get_f()), (0x12, 0x34));
    assert_eq!((r.get_b(), r.get_c()), (0x56, 0x78));
    assert_eq!((r.get_d(), r.get_e()), (0x9a, 0xbc));
    assert_eq!((r.get_h(), r.get_l()), (0xde, 0xf0));
}

#[test]
fn half_write_keeps_other_half_for_every_value() {
    for v in 0..=255u8 {
        let mut r = Registers::new();
        r.set_bc(0xa55a);
        r.set_b(v);
        assert_eq!(r.get_bc(), (v as u16) << 8 | 0x5a);
        r.set_c(v);
        assert_eq!(r.get_bc(), (v as u16) << 8 | v as u16);
        r.set_hl(0x1234);
        r.set_l(v);
        assert_eq!(r.get_hl(), 0x1200 | v as u16);
        assert_eq!(r.get_h(), 0x12);
    }
}

#[test]
fn flag_set_and_clear_touch_one_bit() {
    let mut r = Registers::new();
    r.set_f(0x0a);
    r.set_flag_z();
    assert_eq!(r.get_f(), 0x8a);
    r.set_flag_c();
    assert_eq!(r.get_f(), 0x9a);
    r.set_flag_n();
    r.set_flag_h();
    assert_eq!(r.get_f(), 0xfa);
    r.clear_flag_n();
    assert_eq!(r.get_f(), 0xba);
    r.clear_flag_z();
    r.clear_flag_h();
    r.clear_flag_c();
    assert_eq!(r.get_f(), 0x0a);
    assert_eq!(r.get_a(), 0);
}

#[test]
fn flag_getters_read_bits() {
    let mut r = Registers::new();
    r.set_f(0xa0);
    assert_eq!(r.get_flag_z(), 1);
    assert_eq!(r.get_flag_n(), 0);
    assert_eq!(r.get_flag_h(), 1);
    assert_eq!(r.get_flag_c(), 0);
    assert_eq!((FLAG_Z, FLAG_N, FLAG_H, FLAG_C), (7, 6, 5, 4));
}

#[test]
fn bit_helpers() {
    let r = Registers::new();
    assert_eq!(r.get_bit(0x80, 7), 1);
    assert_eq!(r.get_bit(0x80, 6), 0);
    assert_eq!(r.get_bit(0x05, 2), 1);
    assert_eq!(r.set_bit(0x00, 3), 0x08);
    assert_eq!(r.set_bit(0x08, 3), 0x08);
    assert_eq!(r.clear_bit(0xff, 0), 0xfe);
    assert_eq!(r.clear_bit(0x10, 7), 0x10);
}

#[test]
fn signed_byte() {
    let r = Registers::new();
    assert_eq!(r.to_signed_byte(0x00), 0);
    assert_eq!(r.to_signed_byte(0x7f), 127);
    assert_eq!(r.to_signed_byte(0x80), -128);
    assert_eq!(r.to_signed_byte(0xfe), -2);
    assert_eq!(r.to_signed_byte(0xff), -1);
}

#[test]
fn step_and_jump() {
    let mut r = Registers::new();
    r.step(1);
    assert_eq!(r.pc, 1);
    r.step(0x10);
    assert_eq!(r.pc, 0x11);
    r.step(-2);
    assert_eq!(r.pc, 0x0f);
    r.jump(0x0150);
    assert_eq!(r.pc, 0x0150);
    r.jump(0xffff);
    r.step(1);
    assert_eq!(r.pc, 0);
    r.step(-1);
    assert_eq!(r.pc, 0xffff);
}

#[test]
fn dec_hl_and_inc_c_wrap() {
    let mut r = Registers::new();
    r.set_hl(1);
    r.dec_hl();
    assert_eq!(r.get_hl(), 0);
    r.dec_hl();
    assert_eq!(r.get_hl(), 0xffff);
    r.set_bc(0x12fe);
    r.inc_c();
    assert_eq!(r.get_bc(), 0x12ff);
    r.inc_c();
    assert_eq!(r.get_bc(), 0x1200);
}

#[test]
fn register_selectors() {
    let mut r = Registers::new();
    r.set_r8(Register::D, 0x44);
    r.set_r8(Register::E, 0x55);
    assert_eq!(r.get_de(), 0x4455);
    assert_eq!(r.get_r8(Register::D), 0x44);
    assert_eq!(r.get_r16(Register::DE), 0x4455);
    r.set_r8(Register::A, 0x99);
    assert_eq!(r.get_r16(Register::AF), 0x9900);
}

#[test]
fn dump_lists_every_register() {
    let mut r = Registers::new();
    r.set_af(0x12b0);
    r.set_bc(0x0005);
    r.set_de(0xbeef);
    r.set_hl(0x9fff);
    r.sp = 0xfffe;
    r.pc = 0x0150;
    let lines = r.dump();
    let expected = [
        "A:  $12", "B:  $00", "C:  $05", "D:  $be", "E:  $ef", "F:  $b0", "H:  $9f", "L:  $ff",
        "AF: $12b0", "BC: $0005", "DE: $beef", "HL: $9fff", "PC: $0150", "SP: $fffe", "ZNHC3210",
        "10110000",
    ];
    assert_eq!(lines.len(), expected.len());
    for (line, want) in lines.iter().zip(expected.iter()) {
        assert_eq!(line, want);
    }
}
