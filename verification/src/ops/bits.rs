use vstd::prelude::*;

use crate::cycles::Cycles;
use crate::flags::Flags;

verus! {

// ---------------------------------------------------------------------
// Rotate and shift rules, as spec functions.  The bit at position 7 of a
// byte v is v / 128, the bit at position 0 is v % 2; a left shift is a
// doubling modulo 256 and a right shift is a halving.
// ---------------------------------------------------------------------
/// Rotate left circular: bit 7 moves to bit 0.
pub open spec fn rlc_result(v: u8) -> u8 {
    ((v * 2) % 256 + v / 128) as u8
}

/// Rotate left through carry: the carry moves to bit 0.
pub open spec fn rl_result(v: u8, cin: bool) -> u8 {
    ((v * 2) % 256 + (if cin {
        1int
    } else {
        0int
    })) as u8
}

/// Rotate right circular: bit 0 moves to bit 7.
pub open spec fn rrc_result(v: u8) -> u8 {
    (v / 2 + (v % 2) * 128) as u8
}

/// Rotate right through carry: the carry moves to bit 7.
pub open spec fn rr_result(v: u8, cin: bool) -> u8 {
    (v / 2 + (if cin {
        128int
    } else {
        0int
    })) as u8
}

/// Shift left arithmetic: bit 0 becomes zero.
pub open spec fn sla_result(v: u8) -> u8 {
    ((v * 2) % 256) as u8
}

/// Shift right arithmetic: bit 7 is kept.
pub open spec fn sra_result(v: u8) -> u8 {
    (v / 2 + (v / 128) * 128) as u8
}

/// Shift right logical: bit 7 becomes zero.
pub open spec fn srl_result(v: u8) -> u8 {
    v / 2
}

/// Swap the two nibbles.
pub open spec fn swap_result(v: u8) -> u8 {
    ((v % 16) * 16 + v / 16) as u8
}

/// Flags after an extended-table rotate or shift: Z from the result, N and
/// H clear, C the bit rotated or shifted out.
pub open spec fn rot_flags(result: u8, carry_out: bool) -> Flags {
    Flags { z: result == 0, n: false, h: false, c: carry_out }
}

/// Flags after the accumulator-only rotates of the base table (RLCA, RLA,
/// RRCA, RRA): Z, N and H always clear, C the bit rotated out.
pub open spec fn rot_a_flags(carry_out: bool) -> Flags {
    Flags { z: false, n: false, h: false, c: carry_out }
}

/// The mask with only bit `n` set.
pub open spec fn spec_bit_mask(n: u8) -> u8 {
    if n == 0 {
        0x01
    } else if n == 1 {
        0x02
    } else if n == 2 {
        0x04
    } else if n == 3 {
        0x08
    } else if n == 4 {
        0x10
    } else if n == 5 {
        0x20
    } else if n == 6 {
        0x40
    } else {
        0x80
    }
}

pub fn bit_mask(n: u8) -> (r: u8)
    requires
        n < 8,
    ensures
        r == spec_bit_mask(n),
{
    if n == 0 {
        0x01
    } else if n == 1 {
        0x02
    } else if n == 2 {
        0x04
    } else if n == 3 {
        0x08
    } else if n == 4 {
        0x10
    } else if n == 5 {
        0x20
    } else if n == 6 {
        0x40
    } else {
        0x80
    }
}

// ---------------------------------------------------------------------
// Base-table rotates of the accumulator.
// ---------------------------------------------------------------------
/// Rotates the accumulator left circular; Z always clear.
pub fn rlca(a: &mut u8, f: &mut Flags) -> (c: Cycles)
    ensures
        *final(a) == rlc_result(*old(a)),
        *final(f) == rot_a_flags(*old(a) >= 0x80),
        c == Cycles(4),
{
    let v = *a;
    *a = ((v as u16 * 2) % 256) as u8 + v / 128;
    *f = Flags { z: false, n: false, h: false, c: v >= 0x80 };
    Cycles(4)
}

/// Rotates the accumulator left through the carry; Z always clear.
pub fn rla(a: &mut u8, f: &mut Flags) -> (c: Cycles)
    ensures
        *final(a) == rl_result(*old(a), old(f).c),
        *final(f) == rot_a_flags(*old(a) >= 0x80),
        c == Cycles(4),
{
    let v = *a;
    let cin: u8 = if f.c {
        1
    } else {
        0
    };
    *a = ((v as u16 * 2) % 256) as u8 + cin;
    *f = Flags { z: false, n: false, h: false, c: v >= 0x80 };
    Cycles(4)
}

/// Rotates the accumulator right circular; Z always clear.
pub fn rrca(a: &mut u8, f: &mut Flags) -> (c: Cycles)
    ensures
        *final(a) == rrc_result(*old(a)),
        *final(f) == rot_a_flags(*old(a) % 2 == 1),
        c == Cycles(4),
{
    let v = *a;
    *a = v / 2 + (v % 2) * 128;
    *f = Flags { z: false, n: false, h: false, c: v % 2 == 1 };
    Cycles(4)
}

/// Rotates the accumulator right through the carry; Z always clear.
pub fn rra(a: &mut u8, f: &mut Flags) -> (c: Cycles)
    ensures
        *final(a) == rr_result(*old(a), old(f).c),
        *final(f) == rot_a_flags(*old(a) % 2 == 1),
        c == Cycles(4),
{
    let v = *a;
    let cin: u8 = if f.c {
        128
    } else {
        0
    };
    *a = v / 2 + cin;
    *f = Flags { z: false, n: false, h: false, c: v % 2 == 1 };
    Cycles(4)
}

// ---------------------------------------------------------------------
// Extended-table operations on one byte value.  The dispatcher reads the
// target (a register or the byte at hl), applies one of these, and writes
// the result back.
// ---------------------------------------------------------------------
/// Rotate left circular, extended-table flags.
pub fn rlc_val(v: u8, f: &mut Flags) -> (r: u8)
    ensures
        r == rlc_result(v),
        *final(f) == rot_flags(rlc_result(v), v >= 0x80),
{
    let r = ((v as u16 * 2) % 256) as u8 + v / 128;
    *f = Flags { z: r == 0, n: false, h: false, c: v >= 0x80 };
    r
}

/// Rotate right circular, extended-table flags.
pub fn rrc_val(v: u8, f: &mut Flags) -> (r: u8)
    ensures
        r == rrc_result(v),
        *final(f) == rot_flags(rrc_result(v), v % 2 == 1),
{
    let r = v / 2 + (v % 2) * 128;
    *f = Flags { z: r == 0, n: false, h: false, c: v % 2 == 1 };
    r
}

/// Rotate left through carry, extended-table flags.
pub fn rl_val(v: u8, f: &mut Flags) -> (r: u8)
    ensures
        r == rl_result(v, old(f).c),
        *final(f) == rot_flags(rl_result(v, old(f).c), v >= 0x80),
{
    let cin: u8 = if f.c {
        1
    } else {
        0
    };
    let r = ((v as u16 * 2) % 256) as u8 + cin;
    *f = Flags { z: r == 0, n: false, h: false, c: v >= 0x80 };
    r
}

/// Rotate right through carry, extended-table flags.
pub fn rr_val(v: u8, f: &mut Flags) -> (r: u8)
    ensures
        r == rr_result(v, old(f).c),
        *final(f) == rot_flags(rr_result(v, old(f).c), v % 2 == 1),
{
    let cin: u8 = if f.c {
        128
    } else {
        0
    };
    let r = v / 2 + cin;
    *f = Flags { z: r == 0, n: false, h: false, c: v % 2 == 1 };
    r
}

/// Shift left arithmetic, extended-table flags.
pub fn sla_val(v: u8, f: &mut Flags) -> (r: u8)
    ensures
        r == sla_result(v),
        *final(f) == rot_flags(sla_result(v), v >= 0x80),
{
    let r = ((v as u16 * 2) % 256) as u8;
    *f = Flags { z: r == 0, n: false, h: false, c: v >= 0x80 };
    r
}

/// Shift right arithmetic (bit 7 kept), extended-table flags.
pub fn sra_val(v: u8, f: &mut Flags) -> (r: u8)
    ensures
        r == sra_result(v),
        *final(f) == rot_flags(sra_result(v), v % 2 == 1),
{
    let r = v / 2 + (v / 128) * 128;
    *f = Flags { z: r == 0, n: false, h: false, c: v % 2 == 1 };
    r
}

/// Shift right logical, extended-table flags.
pub fn srl_val(v: u8, f: &mut Flags) -> (r: u8)
    ensures
        r == srl_result(v),
        *final(f) == rot_flags(srl_result(v), v % 2 == 1),
{
    let r = v / 2;
    *f = Flags { z: r == 0, n: false, h: false, c: v % 2 == 1 };
    r
}

/// Swap the nibbles; Z from the result, N, H and C clear.
pub fn swap_val(v: u8, f: &mut Flags) -> (r: u8)
    ensures
        r == swap_result(v),
        *final(f) == rot_flags(swap_result(v), false),
{
    let r = (v % 16) * 16 + v / 16;
    *f = Flags { z: r == 0, n: false, h: false, c: false };
    r
}

/// Tests bit `n`: Z set iff the bit is clear; N clear, H set, C untouched.
pub fn bit_n_val(n: u8, v: u8, f: &mut Flags)
    requires
        n < 8,
    ensures
        *final(f) == (Flags { z: v & spec_bit_mask(n) == 0, n: false, h: true, c: old(f).c }),
{
    let m = bit_mask(n);
    *f = Flags { z: v & m == 0, n: false, h: true, c: f.c };
}

/// Sets bit `n` of a byte; no flags change.
pub fn set_n_val(n: u8, v: u8) -> (r: u8)
    requires
        n < 8,
    ensures
        r == v | spec_bit_mask(n),
{
    v | bit_mask(n)
}

/// Clears bit `n` of a byte; no flags change.
pub fn res_n_val(n: u8, v: u8) -> (r: u8)
    requires
        n < 8,
    ensures
        r == v & !spec_bit_mask(n),
{
    v & !bit_mask(n)
}

} // verus!
