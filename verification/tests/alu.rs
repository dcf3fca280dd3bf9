use gb_core::cycles::Cycles;
use gb_core::flags::Flags;
use gb_core::ops::arithmetic_logic::{
    adc_a_r, add_a_n, add_a_r, add_hl_rr, add_sp_dd, and_r, cp_r, cpl, daa, dec_r, inc_r, or_r,
    sbc_a_r, sub_r, xor_r,
};

fn no_flags() -> Flags {
    Flags { z: false, n: false, h: false, c: false }
}

#[test]
fn add_wraps_and_sets_carry_and_half_carry() {
    let mut a: u8 = 250;
    let mut f = no_flags();
    let c = add_a_r(&mut a, 10, &mut f);
    assert_eq!(a, 4); // (250 + 10) mod 256
    assert!(!f.z);
    assert!(!f.n);
    assert!(f.h); // (250 & 0xF) + (10 & 0xF) = 10 + 10 > 0xF
    assert!(f.c); // 260 > 255
    assert_eq!(c, Cycles(4));
}

#[test]
fn add_zero_result_modulo_256_sets_zero_flag() {
    let mut a: u8 = 0x80;
    let mut f = no_flags();
    add_a_r(&mut a, 0x80, &mut f);
    assert_eq!(a, 0);
    assert!(f.z); // the sum is 0x100, zero modulo 256
    assert!(f.c);
    assert!(!f.h);
}

#[test]
fn add_immediate_plain() {
    let mut a: u8 = 0x3a;
    let mut f = Flags { z: true, n: true, h: true, c: true };
    let c = add_a_n(&mut a, 0x05, &mut f);
    assert_eq!(a, 0x3f);
    assert!(!f.z);
    assert!(!f.n);
    assert!(!f.h);
    assert!(!f.c);
    assert_eq!(c, Cycles(8));
}

#[test]
fn adc_includes_carry_in() {
    let mut a: u8 = 0x0f;
    let mut f = Flags { z: false, n: false, h: false, c: true };
    adc_a_r(&mut a, 0x00, &mut f);
    assert_eq!(a, 0x10);
    assert!(f.h); // 0xF + 0 + carry crosses the nibble
    assert!(!f.c);
}

#[test]
fn sub_sets_borrow_flags() {
    let mut a: u8 = 0x10;
    let mut f = no_flags();
    let c = sub_r(&mut a, 0x21, &mut f);
    assert_eq!(a, 0xef); // wraps modulo 256
    assert!(!f.z);
    assert!(f.n);
    assert!(f.h); // 0x0 < 0x1
    assert!(f.c); // 0x10 < 0x21
    assert_eq!(c, Cycles(4));
}

#[test]
fn sbc_difference_of_minus_256_is_zero_modulo_256() {
    let mut a: u8 = 0x00;
    let mut f = Flags { z: false, n: false, h: false, c: true };
    sbc_a_r(&mut a, 0xff, &mut f);
    assert_eq!(a, 0x00); // 0 - 255 - 1 = -256, zero modulo 256
    assert!(f.z);
    assert!(f.n);
    assert!(f.h);
    assert!(f.c);
}

#[test]
fn compare_sets_subtract_flags_and_keeps_accumulator() {
    let a: u8 = 0x42;
    let mut f_cp = no_flags();
    cp_r(a, 0x50, &mut f_cp);

    let mut a_sub: u8 = 0x42;
    let mut f_sub = no_flags();
    sub_r(&mut a_sub, 0x50, &mut f_sub);

    assert_eq!(f_cp, f_sub);
    assert_eq!(a, 0x42); // cp takes the accumulator by value
    assert_ne!(a_sub, 0x42); // while the subtract wrote it back
}

#[test]
fn inc_wraps_and_never_touches_carry() {
    let mut r: u8 = 0xff;
    let mut f = Flags { z: false, n: true, h: false, c: true };
    inc_r(&mut r, &mut f);
    assert_eq!(r, 0x00);
    assert!(f.z);
    assert!(!f.n);
    assert!(f.h);
    assert!(f.c); // carry untouched through the wrap

    let mut r2: u8 = 0xff;
    let mut f2 = no_flags();
    inc_r(&mut r2, &mut f2);
    assert!(!f2.c); // a clear carry stays clear too
}

#[test]
fn dec_wraps_and_never_touches_carry() {
    let mut r: u8 = 0x00;
    let mut f = no_flags();
    dec_r(&mut r, &mut f);
    assert_eq!(r, 0xff);
    assert!(!f.z);
    assert!(f.n);
    assert!(f.h); // low nibble borrows
    assert!(!f.c);

    let mut r2: u8 = 0x00;
    let mut f2 = Flags { z: false, n: false, h: false, c: true };
    dec_r(&mut r2, &mut f2);
    assert!(f2.c);
}

#[test]
fn dec_to_zero_sets_zero_flag() {
    let mut r: u8 = 0x01;
    let mut f = no_flags();
    dec_r(&mut r, &mut f);
    assert_eq!(r, 0x00);
    assert!(f.z);
    assert!(!f.h);
}

#[test]
fn bcd_adjust_after_add() {
    // 0x09 + 0x01 = 0x0A, then decimal adjust gives 0x10.
    let mut a: u8 = 0x09;
    let mut f = no_flags();
    add_a_n(&mut a, 0x01, &mut f);
    assert_eq!(a, 0x0a);
    daa(&mut a, &mut f);
    assert_eq!(a, 0x10);
    assert!(!f.z);
    assert!(!f.c);
    assert!(!f.h);
}

#[test]
fn bcd_adjust_sets_carry_past_99() {
    // 0x99 + 0x02 = 0x9B; the adjusted BCD result is 01 with carry out.
    let mut a: u8 = 0x99;
    let mut f = no_flags();
    add_a_n(&mut a, 0x02, &mut f);
    assert_eq!(a, 0x9b);
    daa(&mut a, &mut f);
    assert_eq!(a, 0x01);
    assert!(f.c);
}

#[test]
fn bcd_adjust_after_subtract() {
    // BCD 0x42 - 0x09: the raw subtract gives 0x39 with a half-borrow;
    // the adjust corrects the low nibble to give BCD 33.
    let mut a: u8 = 0x42;
    let mut f = no_flags();
    sub_r(&mut a, 0x09, &mut f);
    assert_eq!(a, 0x39);
    assert!(f.h);
    // record the half-borrow the way the flags register would
    daa(&mut a, &mut f);
    assert_eq!(a, 0x33);
    assert!(f.n);
    assert!(!f.h);
}

#[test]
fn and_sets_half_carry_only() {
    let mut a: u8 = 0b1100_1010;
    let mut f = Flags { z: false, n: true, h: false, c: true };
    and_r(&mut a, 0b1010_1100, &mut f);
    assert_eq!(a, 0b1000_1000);
    assert!(!f.z);
    assert!(!f.n);
    assert!(f.h);
    assert!(!f.c);
}

#[test]
fn or_and_xor_clear_n_h_c() {
    let mut a: u8 = 0x0f;
    let mut f = Flags { z: true, n: true, h: true, c: true };
    or_r(&mut a, 0xf0, &mut f);
    assert_eq!(a, 0xff);
    assert_eq!(f, Flags { z: false, n: false, h: false, c: false });

    let mut a2: u8 = 0xaa;
    let mut f2 = Flags { z: false, n: true, h: true, c: true };
    xor_r(&mut a2, 0xaa, &mut f2);
    assert_eq!(a2, 0x00);
    assert_eq!(f2, Flags { z: true, n: false, h: false, c: false });
}

#[test]
fn complement_flips_bits_and_sets_n_h() {
    let mut a: u8 = 0x35;
    let mut f = Flags { z: true, n: false, h: false, c: true };
    cpl(&mut a, &mut f);
    assert_eq!(a, 0xca);
    assert!(f.z); // untouched
    assert!(f.n);
    assert!(f.h);
    assert!(f.c); // untouched
}

#[test]
fn add16_half_carry_from_bit_11_and_carry_from_bit_15() {
    let mut h: u8 = 0x0f;
    let mut l: u8 = 0xff;
    let mut f = Flags { z: true, n: true, h: false, c: false };
    add_hl_rr(&mut h, &mut l, 0x00, 0x01, &mut f);
    assert_eq!((h, l), (0x10, 0x00));
    assert!(f.z); // Z untouched by 16-bit add
    assert!(!f.n);
    assert!(f.h); // carry out of bit 11
    assert!(!f.c);

    let mut h2: u8 = 0xff;
    let mut l2: u8 = 0xff;
    let mut f2 = no_flags();
    add_hl_rr(&mut h2, &mut l2, 0x00, 0x01, &mut f2);
    assert_eq!((h2, l2), (0x00, 0x00));
    assert!(f2.c); // carry out of bit 15
}

#[test]
fn sp_adjust_treats_offset_as_unsigned_for_flags() {
    let mut sp: u16 = 0xfff8;
    let mut f = Flags { z: true, n: true, h: false, c: false };
    let c = add_sp_dd(&mut sp, 8, &mut f);
    assert_eq!(sp, 0x0000); // wraps modulo 0x10000
    assert!(!f.z); // Z always cleared
    assert!(!f.n);
    assert!(f.h); // 0x8 + 0x8 crosses the nibble
    assert!(f.c); // 0xF8 + 0x08 crosses the byte
    assert_eq!(c, Cycles(16));
}

#[test]
fn sp_adjust_negative_offset() {
    let mut sp: u16 = 0x0000;
    let mut f = no_flags();
    add_sp_dd(&mut sp, -1, &mut f);
    assert_eq!(sp, 0xffff);
    assert!(!f.h); // 0x0 + 0xF does not cross the nibble
    assert!(!f.c); // 0x00 + 0xFF does not cross the byte
}
