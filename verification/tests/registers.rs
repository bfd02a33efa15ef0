use rustboy::cpu::registers::Registers;

#[test]
fn registers_after_boot() {
    let r = Registers::new();
    assert_eq!(r.a, 0x01);
    assert_eq!(r.f(), 0xb0);
    assert_eq!(r.af(), 0x01b0);
    assert_eq!(r.bc(), 0x0013);
    assert_eq!(r.de(), 0x00d8);
    assert_eq!(r.hl(), 0x014d);
    assert_eq!(r.sp, 0xfffe);
    assert_eq!(r.pc, 0x0100);
}

#[test]
fn registers_after_boot_on_colour_console() {
    let r = Registers::new_gbc();
    assert_eq!(r.a, 0x11);
    assert_eq!(r.af(), 0x11b0);
    assert_eq!(r.bc(), 0x0013);
    assert_eq!(r.pc, 0x0100);
}

#[test]
fn flag_register_never_shows_low_nibble() {
    let mut r = Registers::new();
    for value in 0..=255u8 {
        r.set_f(value);
        assert_eq!(r.f(), value & 0xf0);
    }
}

#[test]
fn writing_af_masks_low_nibble() {
    let mut r = Registers::new();
    for value in [0x0000u16, 0xffff, 0x1234, 0xabcf, 0x00ff, 0x5a0f] {
        r.set_af(value);
        assert_eq!(r.af(), value & 0xfff0);
    }
}

#[test]
fn flag_bits_are_z_n_h_c() {
    let mut r = Registers::new();
    r.set_f(0x80);
    assert!(r.flags.z && !r.flags.n && !r.flags.h && !r.flags.c);
    r.set_f(0x40);
    assert!(!r.flags.z && r.flags.n && !r.flags.h && !r.flags.c);
    r.set_f(0x20);
    assert!(!r.flags.z && !r.flags.n && r.flags.h && !r.flags.c);
    r.set_f(0x10);
    assert!(!r.flags.z && !r.flags.n && !r.flags.h && r.flags.c);
}

#[test]
fn pairs_split_into_bytes() {
    let mut r = Registers::new();
    r.set_bc(0x1234);
    r.set_de(0x5678);
    r.set_hl(0x9abc);
    r.set_sp(0xdef0);
    assert_eq!((r.b, r.c), (0x12, 0x34));
    assert_eq!((r.d, r.e), (0x56, 0x78));
    assert_eq!((r.h, r.l), (0x9a, 0xbc));
    assert_eq!(r.sp, 0xdef0);
    assert_eq!(r.bc(), 0x1234);
    assert_eq!(r.de(), 0x5678);
    assert_eq!(r.hl(), 0x9abc);
}

#[test]
fn hl_post_increment_and_decrement() {
    let mut r = Registers::new();
    r.set_hl(0x00ff);
    assert_eq!(r.hli(), 0x00ff);
    assert_eq!(r.hl(), 0x0100);
    assert_eq!(r.hld(), 0x0100);
    assert_eq!(r.hl(), 0x00ff);
    r.set_hl(0xffff);
    assert_eq!(r.hli(), 0xffff);
    assert_eq!(r.hl(), 0x0000);
    assert_eq!(r.hld(), 0x0000);
    assert_eq!(r.hl(), 0xffff);
}

#[test]
fn arithmetic_unit_add_and_sub() {
    let mut r = Registers::new();
    r.a = 0x3a;
    r.alu_add(0xc6, false);
    assert_eq!(r.a, 0x00);
    assert!(r.flags.z && r.flags.h && r.flags.c && !r.flags.n);
    r.a = 0x3e;
    r.alu_sub(0x3e, false);
    assert_eq!(r.a, 0x00);
    assert!(r.flags.z && r.flags.n && !r.flags.h && !r.flags.c);
    r.a = 0x3e;
    r.alu_sub(0x0f, false);
    assert_eq!(r.a, 0x2f);
    assert!(r.flags.h && !r.flags.c);
    r.a = 0x3e;
    r.alu_sub(0x40, false);
    assert_eq!(r.a, 0xfe);
    assert!(r.flags.c && !r.flags.h);
}

#[test]
fn arithmetic_unit_logic() {
    let mut r = Registers::new();
    r.a = 0x5a;
    r.alu_and(0x3f);
    assert_eq!(r.a, 0x1a);
    assert!(r.flags.h && !r.flags.c && !r.flags.z && !r.flags.n);
    r.alu_or(0x05);
    assert_eq!(r.a, 0x1f);
    assert!(!r.flags.h);
    r.alu_xor(0x1f);
    assert_eq!(r.a, 0x00);
    assert!(r.flags.z);
}

#[test]
fn arithmetic_unit_rotations() {
    let mut r = Registers::new();
    r.flags.c = false;
    assert_eq!(r.alu_rotate(0, 0x85), 0x0b);
    assert!(r.flags.c);
    assert_eq!(r.alu_rotate(1, 0x01), 0x80);
    assert!(r.flags.c);
    r.flags.c = true;
    assert_eq!(r.alu_rl(0x80), 0x01);
    assert!(r.flags.c);
    r.flags.c = false;
    assert_eq!(r.alu_rotate(3, 0x01), 0x00);
    assert!(r.flags.c && r.flags.z);
    assert_eq!(r.alu_rotate(4, 0xff), 0xfe);
    assert_eq!(r.alu_rotate(5, 0x8a), 0xc5);
    assert!(!r.flags.c);
    assert_eq!(r.alu_rotate(6, 0xf1), 0x1f);
    assert_eq!(r.alu_rotate(7, 0xff), 0x7f);
    assert!(r.flags.c);
}

#[test]
fn arithmetic_unit_increment_and_bit() {
    let mut r = Registers::new();
    r.flags.c = true;
    assert_eq!(r.alu_inc(0x0f), 0x10);
    assert!(r.flags.h && !r.flags.z && !r.flags.n && r.flags.c);
    assert_eq!(r.alu_inc(0xff), 0x00);
    assert!(r.flags.z && r.flags.h);
    assert_eq!(r.alu_dec(0x10), 0x0f);
    assert!(r.flags.h && r.flags.n);
    assert_eq!(r.alu_dec(0x01), 0x00);
    assert!(r.flags.z && !r.flags.h);
    r.alu_bit(0x10, 4);
    assert!(!r.flags.z && r.flags.h && !r.flags.n);
    r.alu_bit(0x10, 3);
    assert!(r.flags.z);
    r.alu_cp(0x02);
    assert!(r.flags.c);
}

#[test]
fn arithmetic_unit_wide_additions() {
    let mut r = Registers::new();
    r.set_hl(0x8a23);
    r.alu_add16(0x0605);
    assert_eq!(r.hl(), 0x9028);
    assert!(r.flags.h && !r.flags.c && !r.flags.n);
    r.set_hl(0x8a23);
    r.alu_add16(0x8a23);
    assert_eq!(r.hl(), 0x1446);
    assert!(r.flags.h && r.flags.c);
    assert_eq!(r.alu_add16imm(0xfff8, 0x02), 0xfffa);
    assert!(!r.flags.z && !r.flags.n && !r.flags.h && !r.flags.c);
    assert_eq!(r.alu_add16imm(0x0000, 0xff), 0xffff);
    assert!(!r.flags.h && !r.flags.c);
    assert_eq!(r.alu_add16imm(0x00ff, 0x01), 0x0100);
    assert!(r.flags.h && r.flags.c);
    r.alu_srflagupdate(0, true);
    assert!(r.flags.z && r.flags.c && !r.flags.h && !r.flags.n);
    r.a = 0x9a;
    r.flags.n = false;
    r.flags.h = false;
    r.flags.c = false;
    r.alu_daa();
    assert_eq!(r.a, 0x00);
    assert!(r.flags.c && r.flags.z);
    r.alu(7, 0x01);
    assert!(r.flags.c && r.flags.n);
}
