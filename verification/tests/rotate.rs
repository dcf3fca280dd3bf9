use gb_core::flags::Flags;
use gb_core::interrupts::{highest_priority, Interrupt};
use gb_core::ops::bits::{rl_val, rr_val, rra, rrc_val, sra_val, srl_val};

fn no_flags() -> Flags {
    Flags { z: false, n: false, h: false, c: false }
}

#[test]
fn rotate_right_circular_moves_bit_zero_to_the_top() {
    let mut f = no_flags();
    let r = rrc_val(0x01, &mut f);
    assert_eq!(r, 0x80);
    assert!(f.c);
    assert!(!f.z);
}

#[test]
fn rotates_through_carry_use_and_set_the_carry() {
    let mut f = Flags { z: false, n: false, h: false, c: true };
    let r = rl_val(0x80, &mut f);
    assert_eq!(r, 0x01); // the old carry entered at bit 0
    assert!(f.c); // bit 7 left into the carry

    let mut f2 = Flags { z: false, n: false, h: false, c: true };
    let r2 = rr_val(0x01, &mut f2);
    assert_eq!(r2, 0x80);
    assert!(f2.c);
}

#[test]
fn rotate_to_zero_sets_z_in_the_extended_table_only() {
    // the extended-table form computes Z from the result
    let mut f = no_flags();
    let r = rl_val(0x00, &mut f);
    assert_eq!(r, 0x00);
    assert!(f.z);

    // the accumulator form always clears Z
    let mut a: u8 = 0x00;
    let mut f2 = no_flags();
    rra(&mut a, &mut f2);
    assert_eq!(a, 0x00);
    assert!(!f2.z);
}

#[test]
fn arithmetic_shift_right_keeps_the_sign_bit() {
    let mut f = no_flags();
    let r = sra_val(0x81, &mut f);
    assert_eq!(r, 0xc0);
    assert!(f.c);

    let mut f2 = no_flags();
    let r2 = srl_val(0x81, &mut f2);
    assert_eq!(r2, 0x40); // the logical shift clears the top bit
    assert!(f2.c);
}

#[test]
fn priority_resolution_takes_the_lowest_set_bit() {
    assert_eq!(highest_priority(0), None);
    assert_eq!(highest_priority(0b00001), Some(Interrupt::VBlank));
    assert_eq!(highest_priority(0b11111), Some(Interrupt::VBlank));
    assert_eq!(highest_priority(0b11110), Some(Interrupt::Lcd));
    assert_eq!(highest_priority(0b11100), Some(Interrupt::Timer));
    assert_eq!(highest_priority(0b11000), Some(Interrupt::Serial));
    assert_eq!(highest_priority(0b10000), Some(Interrupt::Joypad));
}

#[test]
fn interrupt_vectors_and_masks() {
    assert_eq!(Interrupt::VBlank.vector(), 0x40);
    assert_eq!(Interrupt::Lcd.vector(), 0x48);
    assert_eq!(Interrupt::Timer.vector(), 0x50);
    assert_eq!(Interrupt::Serial.vector(), 0x58);
    assert_eq!(Interrupt::Joypad.vector(), 0x60);
    assert_eq!(Interrupt::VBlank.mask(), 0x01);
    assert_eq!(Interrupt::Joypad.mask(), 0x10);
}
