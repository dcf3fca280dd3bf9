pub mod arithmetic_logic;
pub mod bits;
pub mod control;
pub mod load;

use vstd::prelude::*;

use crate::cycles::Cycles;

verus! {

/// The 16-bit value of a register pair: the high register times 0x100 plus
/// the low register.
pub open spec fn spec_rr(hi: u8, lo: u8) -> u16 {
    (hi * 0x100 + lo) as u16
}

pub fn rr(hi: u8, lo: u8) -> (r: u16)
    ensures
        r == spec_rr(hi, lo),
{
    hi as u16 * 0x100 + lo as u16
}

/// Splits a 16-bit value into a register pair, high half to the first
/// register.
pub fn set_rr(hi: &mut u8, lo: &mut u8, val: u16) -> (r: ())
    ensures
        *final(hi) == val / 0x100,
        *final(lo) == val % 0x100,
        spec_rr(*final(hi), *final(lo)) == val,
{
    *hi = (val / 0x100) as u8;
    *lo = (val % 0x100) as u8;
}

/// Pair round trip: splitting a 16-bit value into two 8-bit halves and
/// reading the pair back yields the value, the low register holding the
/// low byte and the high register the high byte.
pub proof fn lemma_pair_roundtrip(val: u16)
    ensures
        spec_rr((val / 0x100) as u8, (val % 0x100) as u8) == val,
{
}

/// Loads an immediate byte into a register.
pub fn ld_r_n(r: &mut u8, n: u8) -> (c: Cycles)
    ensures
        *final(r) == n,
        c == Cycles(8),
{
    *r = n;
    Cycles(8)
}

/// Loads an immediate 16-bit value into a register pair, high half to the
/// first register.
pub fn ld_rr_nn(r1: &mut u8, r2: &mut u8, nn: u16) -> (c: Cycles)
    ensures
        *final(r1) == nn / 0x100,
        *final(r2) == nn % 0x100,
        spec_rr(*final(r1), *final(r2)) == nn,
        c == Cycles(12),
{
    set_rr(r1, r2, nn);
    Cycles(12)
}

/// Loads an immediate 16-bit value into the stack pointer.
pub fn ld_sp_nn(sp: &mut u16, nn: u16) -> (c: Cycles)
    ensures
        *final(sp) == nn,
        c == Cycles(12),
{
    *sp = nn;
    Cycles(12)
}

} // verus!
