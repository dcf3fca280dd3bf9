use vstd::prelude::*;

use crate::cycles::Cycles;
use crate::fault::Fault;
use crate::flags::Flags;
use crate::mmu::{mapped_read, mapped_write, mem_read, mem_write, Mapper};
use crate::ops::{rr, set_rr, spec_rr};

verus! {

// ---------------------------------------------------------------------
// Flag and result rules, as spec functions.  Every operation's contract
// is stated with these; the executable bodies are proved against them.
// ---------------------------------------------------------------------
/// The carry flag as an addend.
pub open spec fn carry_in(f: Flags) -> u8 {
    if f.c {
        1
    } else {
        0
    }
}

/// 8-bit addition result: the sum wraps modulo 256.
pub open spec fn add_result(a: u8, b: u8, cin: u8) -> u8 {
    ((a + b + cin) % 256) as u8
}

/// Flags after an 8-bit add: Z iff the sum is zero modulo 256, N clear,
/// H iff the low nibbles (plus carry-in) overflow past 0xF, C iff the
/// untruncated sum exceeds 0xFF.
pub open spec fn add_flags(a: u8, b: u8, cin: u8) -> Flags {
    Flags {
        z: (a + b + cin) % 256 == 0,
        n: false,
        h: a % 16 + b % 16 + cin > 0xf,
        c: a + b + cin > 0xff,
    }
}

/// 8-bit subtraction result: the difference wraps modulo 256.
pub open spec fn sub_result(a: u8, b: u8, cin: u8) -> u8 {
    ((a - b - cin) % 256) as u8
}

/// Flags after an 8-bit subtract: Z iff the difference is zero modulo 256,
/// N set, H iff the low nibble borrows (borrow-in included), C iff the
/// untruncated difference is negative.
pub open spec fn sub_flags(a: u8, b: u8, cin: u8) -> Flags {
    Flags { z: (a - b - cin) % 256 == 0, n: true, h: a % 16 < b % 16 + cin, c: a < b + cin }
}

/// Flags after a compare: computed exactly as a subtract of the operand
/// from the accumulator, with no borrow-in.
pub open spec fn cp_flags(a: u8, b: u8) -> Flags {
    Flags { z: (a - b) % 256 == 0, n: true, h: a % 16 < b % 16, c: a < b }
}

/// Compare sets the same flags as the corresponding subtract; it never
/// writes the accumulator back (the compare operations take the
/// accumulator by value).
pub proof fn lemma_compare_matches_subtract(a: u8, b: u8)
    ensures
        cp_flags(a, b) == sub_flags(a, b, 0),
{
}

/// Flags after AND / OR / XOR: Z from the result, N clear, C clear, and H
/// set for AND, clear for OR and XOR.
pub open spec fn logic_flags(result: u8, half: bool) -> Flags {
    Flags { z: result == 0, n: false, h: half, c: false }
}

/// 8-bit increment result, wrapping 0xFF to 0x00.
pub open spec fn inc_result(v: u8) -> u8 {
    ((v + 1) % 256) as u8
}

/// Flags after an 8-bit increment: Z and H updated, N clear, and C kept —
/// increment never modifies the carry flag.
pub open spec fn inc_flags(v: u8, f: Flags) -> Flags {
    Flags { z: (v + 1) % 256 == 0, n: false, h: v % 16 == 0xf, c: f.c }
}

/// 8-bit decrement result, wrapping 0x00 to 0xFF.
pub open spec fn dec_result(v: u8) -> u8 {
    ((v - 1) % 256) as u8
}

/// Flags after an 8-bit decrement: Z and H updated, N set, and C kept —
/// decrement never modifies the carry flag.
pub open spec fn dec_flags(v: u8, f: Flags) -> Flags {
    Flags { z: v == 1, n: true, h: v % 16 == 0, c: f.c }
}

/// Increment and decrement never change the carry flag, whatever the
/// operand — including at the 0x00 and 0xFF wrap-around points.
pub proof fn lemma_inc_dec_preserve_carry(v: u8, f: Flags)
    ensures
        inc_flags(v, f).c == f.c,
        dec_flags(v, f).c == f.c,
{
}

/// Decimal-adjust result: the post-add or post-subtract BCD fix-up.  After
/// an add (N clear), 0x60 is added when the carry is set or the high part
/// exceeds 0x99, and 0x06 when the half-carry is set or the low nibble
/// exceeds 9; after a subtract (N set), the corrections are subtracted and
/// only the recorded C and H flags decide.
pub open spec fn daa_result(a: u8, f: Flags) -> u8 {
    if f.n {
        ((a - (if f.c {
            0x60int
        } else {
            0int
        }) - (if f.h {
            0x06int
        } else {
            0int
        })) % 256) as u8
    } else {
        ((a + (if f.c || a > 0x99 {
            0x60int
        } else {
            0int
        }) + (if f.h || a % 16 > 9 {
            0x06int
        } else {
            0int
        })) % 256) as u8
    }
}

/// Flags after a decimal adjust: Z recomputed from the corrected
/// accumulator, N kept, H cleared, and C set when the add-path correction
/// of 0x60 applies (a subtract leaves C as it was).
pub open spec fn daa_flags(a: u8, f: Flags) -> Flags {
    Flags {
        z: daa_result(a, f) == 0,
        n: f.n,
        h: false,
        c: if f.n {
            f.c
        } else {
            f.c || a > 0x99
        },
    }
}

/// 16-bit addition result, wrapping modulo 0x10000.
pub open spec fn add16_result(x: u16, y: u16) -> u16 {
    ((x + y) % 0x10000) as u16
}

/// Flags after a 16-bit add: Z untouched, N clear, H from the bit-11
/// carry-out, C from the bit-15 carry-out.
pub open spec fn add16_flags(x: u16, y: u16, f: Flags) -> Flags {
    Flags { z: f.z, n: false, h: x % 0x1000 + y % 0x1000 > 0xfff, c: x + y > 0xffff }
}

/// The stack pointer moved by a signed byte, wrapping modulo 0x10000.
pub open spec fn sp_offset_result(sp: u16, dd: i8) -> u16 {
    ((sp + dd + 0x10000) % 0x10000) as u16
}

/// Flags after a signed stack-pointer adjustment: Z and N always clear;
/// H and C come from adding the displacement's byte value to the stack
/// pointer's low byte as if both were unsigned — the documented hardware
/// quirk.
pub open spec fn sp_offset_flags(sp: u16, dd: i8) -> Flags {
    let du = (dd + 256) % 256;
    Flags { z: false, n: false, h: sp % 16 + du % 16 > 0xf, c: sp % 256 + du > 0xff }
}

// ---------------------------------------------------------------------
// 8-bit arithmetic
// ---------------------------------------------------------------------
/// Adds a register to the accumulator.
pub fn add_a_r(a: &mut u8, r: u8, f: &mut Flags) -> (c: Cycles)
    ensures
        *final(a) == add_result(*old(a), r, 0),
        *final(f) == add_flags(*old(a), r, 0),
        c == Cycles(4),
{
    let res: u16 = *a as u16 + r as u16;
    *f = Flags { z: res % 256 == 0, n: false, h: *a % 16 + r % 16 > 0xf, c: res > 0xff };
    *a = (res % 256) as u8;
    Cycles(4)
}

/// Adds an immediate byte to the accumulator.
pub fn add_a_n(a: &mut u8, n: u8, f: &mut Flags) -> (c: Cycles)
    ensures
        *final(a) == add_result(*old(a), n, 0),
        *final(f) == add_flags(*old(a), n, 0),
        c == Cycles(8),
{
    let res: u16 = *a as u16 + n as u16;
    *f = Flags { z: res % 256 == 0, n: false, h: *a % 16 + n % 16 > 0xf, c: res > 0xff };
    *a = (res % 256) as u8;
    Cycles(8)
}

/// Adds the byte at address hl to the accumulator.
pub fn add_a_hlptr(a: &mut u8, h: u8, l: u8, f: &mut Flags, mapper: &Mapper) -> (r: Result<
    Cycles,
    Fault,
>)
    requires
        mapper.wf(),
    ensures
        ({
            let addr = spec_rr(h, l);
            let v = mem_read(mapper.mmu@, addr);
            &&& mapper.mmu@.open_bus || mapped_read(addr) ==> r == Ok::<Cycles, Fault>(Cycles(8))
                && *final(a) == add_result(*old(a), v, 0) && *final(f) == add_flags(*old(a), v, 0)
            &&& !(mapper.mmu@.open_bus || mapped_read(addr)) ==> r == Err::<Cycles, Fault>(
                Fault::UnmappedAddress { address: addr },
            ) && *final(a) == *old(a) && *final(f) == *old(f)
        }),
{
    let v = match mapper.read(rr(h, l)) {
        Ok(v) => v,
        Err(e) => {
            return Err(e);
        },
    };
    let res: u16 = *a as u16 + v as u16;
    *f = Flags { z: res % 256 == 0, n: false, h: *a % 16 + v % 16 > 0xf, c: res > 0xff };
    *a = (res % 256) as u8;
    Ok(Cycles(8))
}

/// Adds a register and the carry flag to the accumulator.
pub fn adc_a_r(a: &mut u8, r: u8, f: &mut Flags) -> (c: Cycles)
    ensures
        *final(a) == add_result(*old(a), r, carry_in(*old(f))),
        *final(f) == add_flags(*old(a), r, carry_in(*old(f))),
        c == Cycles(4),
{
    let cin: u8 = if f.c {
        1
    } else {
        0
    };
    let res: u16 = *a as u16 + r as u16 + cin as u16;
    *f = Flags { z: res % 256 == 0, n: false, h: *a % 16 + r % 16 + cin > 0xf, c: res > 0xff };
    *a = (res % 256) as u8;
    Cycles(4)
}

/// Adds an immediate byte and the carry flag to the accumulator.
pub fn adc_a_n(a: &mut u8, n: u8, f: &mut Flags) -> (c: Cycles)
    ensures
        *final(a) == add_result(*old(a), n, carry_in(*old(f))),
        *final(f) == add_flags(*old(a), n, carry_in(*old(f))),
        c == Cycles(8),
{
    let cin: u8 = if f.c {
        1
    } else {
        0
    };
    let res: u16 = *a as u16 + n as u16 + cin as u16;
    *f = Flags { z: res % 256 == 0, n: false, h: *a % 16 + n % 16 + cin > 0xf, c: res > 0xff };
    *a = (res % 256) as u8;
    Cycles(8)
}

/// Adds the byte at address hl and the carry flag to the accumulator.
pub fn adc_a_hlptr(a: &mut u8, h: u8, l: u8, f: &mut Flags, mapper: &Mapper) -> (r: Result<
    Cycles,
    Fault,
>)
    requires
        mapper.wf(),
    ensures
        ({
            let addr = spec_rr(h, l);
            let v = mem_read(mapper.mmu@, addr);
            &&& mapper.mmu@.open_bus || mapped_read(addr) ==> r == Ok::<Cycles, Fault>(Cycles(8))
                && *final(a) == add_result(*old(a), v, carry_in(*old(f))) && *final(f)
                == add_flags(*old(a), v, carry_in(*old(f)))
            &&& !(mapper.mmu@.open_bus || mapped_read(addr)) ==> r == Err::<Cycles, Fault>(
                Fault::UnmappedAddress { address: addr },
            ) && *final(a) == *old(a) && *final(f) == *old(f)
        }),
{
    let v = match mapper.read(rr(h, l)) {
        Ok(v) => v,
        Err(e) => {
            return Err(e);
        },
    };
    let cin: u8 = if f.c {
        1
    } else {
        0
    };
    let res: u16 = *a as u16 + v as u16 + cin as u16;
    *f = Flags { z: res % 256 == 0, n: false, h: *a % 16 + v % 16 + cin > 0xf, c: res > 0xff };
    *a = (res % 256) as u8;
    Ok(Cycles(8))
}

/// Subtracts a register from the accumulator.
pub fn sub_r(a: &mut u8, r: u8, f: &mut Flags) -> (c: Cycles)
    ensures
        *final(a) == sub_result(*old(a), r, 0),
        *final(f) == sub_flags(*old(a), r, 0),
        c == Cycles(4),
{
    let res: u16 = (*a as u16 + 0x100) - r as u16;
    *f = Flags { z: res % 256 == 0, n: true, h: *a % 16 < r % 16, c: *a < r };
    *a = (res % 256) as u8;
    Cycles(4)
}

/// Subtracts an immediate byte from the accumulator.
pub fn sub_n(a: &mut u8, n: u8, f: &mut Flags) -> (c: Cycles)
    ensures
        *final(a) == sub_result(*old(a), n, 0),
        *final(f) == sub_flags(*old(a), n, 0),
        c == Cycles(8),
{
    let res: u16 = (*a as u16 + 0x100) - n as u16;
    *f = Flags { z: res % 256 == 0, n: true, h: *a % 16 < n % 16, c: *a < n };
    *a = (res % 256) as u8;
    Cycles(8)
}

/// Subtracts the byte at address hl from the accumulator.
pub fn sub_hlptr(a: &mut u8, h: u8, l: u8, f: &mut Flags, mapper: &Mapper) -> (r: Result<
    Cycles,
    Fault,
>)
    requires
        mapper.wf(),
    ensures
        ({
            let addr = spec_rr(h, l);
            let v = mem_read(mapper.mmu@, addr);
            &&& mapper.mmu@.open_bus || mapped_read(addr) ==> r == Ok::<Cycles, Fault>(Cycles(8))
                && *final(a) == sub_result(*old(a), v, 0) && *final(f) == sub_flags(*old(a), v, 0)
            &&& !(mapper.mmu@.open_bus || mapped_read(addr)) ==> r == Err::<Cycles, Fault>(
                Fault::UnmappedAddress { address: addr },
            ) && *final(a) == *old(a) && *final(f) == *old(f)
        }),
{
    let v = match mapper.read(rr(h, l)) {
        Ok(v) => v,
        Err(e) => {
            return Err(e);
        },
    };
    let res: u16 = (*a as u16 + 0x100) - v as u16;
    *f = Flags { z: res % 256 == 0, n: true, h: *a % 16 < v % 16, c: *a < v };
    *a = (res % 256) as u8;
    Ok(Cycles(8))
}

/// Subtracts a register and the carry flag from the accumulator.
pub fn sbc_a_r(a: &mut u8, r: u8, f: &mut Flags) -> (c: Cycles)
    ensures
        *final(a) == sub_result(*old(a), r, carry_in(*old(f))),
        *final(f) == sub_flags(*old(a), r, carry_in(*old(f))),
        c == Cycles(4),
{
    let cin: u8 = if f.c {
        1
    } else {
        0
    };
    let res: u16 = (*a as u16 + 0x100) - r as u16 - cin as u16;
    *f = Flags {
        z: res % 256 == 0,
        n: true,
        h: *a % 16 < r % 16 + cin,
        c: (*a as u16) < r as u16 + cin as u16,
    };
    *a = (res % 256) as u8;
    Cycles(4)
}

/// Subtracts an immediate byte and the carry flag from the accumulator.
pub fn sbc_a_n(a: &mut u8, n: u8, f: &mut Flags) -> (c: Cycles)
    ensures
        *final(a) == sub_result(*old(a), n, carry_in(*old(f))),
        *final(f) == sub_flags(*old(a), n, carry_in(*old(f))),
        c == Cycles(8),
{
    let cin: u8 = if f.c {
        1
    } else {
        0
    };
    let res: u16 = (*a as u16 + 0x100) - n as u16 - cin as u16;
    *f = Flags {
        z: res % 256 == 0,
        n: true,
        h: *a % 16 < n % 16 + cin,
        c: (*a as u16) < n as u16 + cin as u16,
    };
    *a = (res % 256) as u8;
    Cycles(8)
}

/// Subtracts the byte at address hl and the carry flag from the
/// accumulator.
pub fn sbc_a_hlptr(a: &mut u8, h: u8, l: u8, f: &mut Flags, mapper: &Mapper) -> (r: Result<
    Cycles,
    Fault,
>)
    requires
        mapper.wf(),
    ensures
        ({
            let addr = spec_rr(h, l);
            let v = mem_read(mapper.mmu@, addr);
            &&& mapper.mmu@.open_bus || mapped_read(addr) ==> r == Ok::<Cycles, Fault>(Cycles(8))
                && *final(a) == sub_result(*old(a), v, carry_in(*old(f))) && *final(f)
                == sub_flags(*old(a), v, carry_in(*old(f)))
            &&& !(mapper.mmu@.open_bus || mapped_read(addr)) ==> r == Err::<Cycles, Fault>(
                Fault::UnmappedAddress { address: addr },
            ) && *final(a) == *old(a) && *final(f) == *old(f)
        }),
{
    let v = match mapper.read(rr(h, l)) {
        Ok(v) => v,
        Err(e) => {
            return Err(e);
        },
    };
    let cin: u8 = if f.c {
        1
    } else {
        0
    };
    let res: u16 = (*a as u16 + 0x100) - v as u16 - cin as u16;
    *f = Flags {
        z: res % 256 == 0,
        n: true,
        h: *a % 16 < v % 16 + cin,
        c: (*a as u16) < v as u16 + cin as u16,
    };
    *a = (res % 256) as u8;
    Ok(Cycles(8))
}

// ---------------------------------------------------------------------
// 8-bit logic
// ---------------------------------------------------------------------
/// Bitwise AND of a register into the accumulator.
pub fn and_r(a: &mut u8, r: u8, f: &mut Flags) -> (c: Cycles)
    ensures
        *final(a) == (*old(a) & r),
        *final(f) == logic_flags(*old(a) & r, true),
        c == Cycles(4),
{
    *a = *a & r;
    *f = Flags { z: *a == 0, n: false, h: true, c: false };
    Cycles(4)
}

/// Bitwise AND of an immediate byte into the accumulator.
pub fn and_n(a: &mut u8, n: u8, f: &mut Flags) -> (c: Cycles)
    ensures
        *final(a) == (*old(a) & n),
        *final(f) == logic_flags(*old(a) & n, true),
        c == Cycles(8),
{
    *a = *a & n;
    *f = Flags { z: *a == 0, n: false, h: true, c: false };
    Cycles(8)
}

/// Bitwise AND of the byte at address hl into the accumulator.
pub fn and_hlptr(a: &mut u8, h: u8, l: u8, f: &mut Flags, mapper: &Mapper) -> (r: Result<
    Cycles,
    Fault,
>)
    requires
        mapper.wf(),
    ensures
        ({
            let addr = spec_rr(h, l);
            let v = mem_read(mapper.mmu@, addr);
            &&& mapper.mmu@.open_bus || mapped_read(addr) ==> r == Ok::<Cycles, Fault>(Cycles(8))
                && *final(a) == (*old(a) & v) && *final(f) == logic_flags(*old(a) & v, true)
            &&& !(mapper.mmu@.open_bus || mapped_read(addr)) ==> r == Err::<Cycles, Fault>(
                Fault::UnmappedAddress { address: addr },
            ) && *final(a) == *old(a) && *final(f) == *old(f)
        }),
{
    let v = match mapper.read(rr(h, l)) {
        Ok(v) => v,
        Err(e) => {
            return Err(e);
        },
    };
    *a = *a & v;
    *f = Flags { z: *a == 0, n: false, h: true, c: false };
    Ok(Cycles(8))
}

/// Bitwise XOR of a register into the accumulator.
pub fn xor_r(a: &mut u8, r: u8, f: &mut Flags) -> (c: Cycles)
    ensures
        *final(a) == (*old(a) ^ r),
        *final(f) == logic_flags(*old(a) ^ r, false),
        c == Cycles(4),
{
    *a = *a ^ r;
    *f = Flags { z: *a == 0, n: false, h: false, c: false };
    Cycles(4)
}

/// Bitwise XOR of an immediate byte into the accumulator.
pub fn xor_n(a: &mut u8, n: u8, f: &mut Flags) -> (c: Cycles)
    ensures
        *final(a) == (*old(a) ^ n),
        *final(f) == logic_flags(*old(a) ^ n, false),
        c == Cycles(8),
{
    *a = *a ^ n;
    *f = Flags { z: *a == 0, n: false, h: false, c: false };
    Cycles(8)
}

/// Bitwise XOR of the byte at address hl into the accumulator.
pub fn xor_hlptr(a: &mut u8, h: u8, l: u8, f: &mut Flags, mapper: &Mapper) -> (r: Result<
    Cycles,
    Fault,
>)
    requires
        mapper.wf(),
    ensures
        ({
            let addr = spec_rr(h, l);
            let v = mem_read(mapper.mmu@, addr);
            &&& mapper.mmu@.open_bus || mapped_read(addr) ==> r == Ok::<Cycles, Fault>(Cycles(8))
                && *final(a) == (*old(a) ^ v) && *final(f) == logic_flags(*old(a) ^ v, false)
            &&& !(mapper.mmu@.open_bus || mapped_read(addr)) ==> r == Err::<Cycles, Fault>(
                Fault::UnmappedAddress { address: addr },
            ) && *final(a) == *old(a) && *final(f) == *old(f)
        }),
{
    let v = match mapper.read(rr(h, l)) {
        Ok(v) => v,
        Err(e) => {
            return Err(e);
        },
    };
    *a = *a ^ v;
    *f = Flags { z: *a == 0, n: false, h: false, c: false };
    Ok(Cycles(8))
}

/// Bitwise OR of a register into the accumulator.
pub fn or_r(a: &mut u8, r: u8, f: &mut Flags) -> (c: Cycles)
    ensures
        *final(a) == (*old(a) | r),
        *final(f) == logic_flags(*old(a) | r, false),
        c == Cycles(4),
{
    *a = *a | r;
    *f = Flags { z: *a == 0, n: false, h: false, c: false };
    Cycles(4)
}

/// Bitwise OR of an immediate byte into the accumulator.
pub fn or_n(a: &mut u8, n: u8, f: &mut Flags) -> (c: Cycles)
    ensures
        *final(a) == (*old(a) | n),
        *final(f) == logic_flags(*old(a) | n, false),
        c == Cycles(8),
{
    *a = *a | n;
    *f = Flags { z: *a == 0, n: false, h: false, c: false };
    Cycles(8)
}

/// Bitwise OR of the byte at address hl into the accumulator.
pub fn or_hlptr(a: &mut u8, h: u8, l: u8, f: &mut Flags, mapper: &Mapper) -> (r: Result<
    Cycles,
    Fault,
>)
    requires
        mapper.wf(),
    ensures
        ({
            let addr = spec_rr(h, l);
            let v = mem_read(mapper.mmu@, addr);
            &&& mapper.mmu@.open_bus || mapped_read(addr) ==> r == Ok::<Cycles, Fault>(Cycles(8))
                && *final(a) == (*old(a) | v) && *final(f) == logic_flags(*old(a) | v, false)
            &&& !(mapper.mmu@.open_bus || mapped_read(addr)) ==> r == Err::<Cycles, Fault>(
                Fault::UnmappedAddress { address: addr },
            ) && *final(a) == *old(a) && *final(f) == *old(f)
        }),
{
    let v = match mapper.read(rr(h, l)) {
        Ok(v) => v,
        Err(e) => {
            return Err(e);
        },
    };
    *a = *a | v;
    *f = Flags { z: *a == 0, n: false, h: false, c: false };
    Ok(Cycles(8))
}

// ---------------------------------------------------------------------
// compare
// ---------------------------------------------------------------------
/// Compares a register with the accumulator: subtract flags, accumulator
/// untouched.
pub fn cp_r(a: u8, r: u8, f: &mut Flags) -> (c: Cycles)
    ensures
        *final(f) == cp_flags(a, r),
        c == Cycles(4),
{
    *f = Flags { z: a == r, n: true, h: a % 16 < r % 16, c: a < r };
    Cycles(4)
}

/// Compares an immediate byte with the accumulator.
pub fn cp_n(a: u8, n: u8, f: &mut Flags) -> (c: Cycles)
    ensures
        *final(f) == cp_flags(a, n),
        c == Cycles(8),
{
    *f = Flags { z: a == n, n: true, h: a % 16 < n % 16, c: a < n };
    Cycles(8)
}

/// Compares the byte at address hl with the accumulator.
pub fn cp_hlptr(a: u8, h: u8, l: u8, f: &mut Flags, mapper: &Mapper) -> (r: Result<Cycles, Fault>)
    requires
        mapper.wf(),
    ensures
        ({
            let addr = spec_rr(h, l);
            let v = mem_read(mapper.mmu@, addr);
            &&& mapper.mmu@.open_bus || mapped_read(addr) ==> r == Ok::<Cycles, Fault>(Cycles(8))
                && *final(f) == cp_flags(a, v)
            &&& !(mapper.mmu@.open_bus || mapped_read(addr)) ==> r == Err::<Cycles, Fault>(
                Fault::UnmappedAddress { address: addr },
            ) && *final(f) == *old(f)
        }),
{
    let v = match mapper.read(rr(h, l)) {
        Ok(v) => v,
        Err(e) => {
            return Err(e);
        },
    };
    *f = Flags { z: a == v, n: true, h: a % 16 < v % 16, c: a < v };
    Ok(Cycles(8))
}

// ---------------------------------------------------------------------
// increment / decrement
// ---------------------------------------------------------------------
/// Increments a register, wrapping 0xFF to 0x00; the carry flag is never
/// modified.
pub fn inc_r(r: &mut u8, f: &mut Flags) -> (c: Cycles)
    ensures
        *final(r) == inc_result(*old(r)),
        *final(f) == inc_flags(*old(r), *old(f)),
        c == Cycles(4),
{
    let res: u8 = if *r == 0xff {
        0
    } else {
        *r + 1
    };
    *f = Flags { z: res == 0, n: false, h: *r % 16 == 0xf, c: f.c };
    *r = res;
    Cycles(4)
}

/// Increments the byte at address hl in place; the carry flag is never
/// modified.
pub fn inc_hlptr(h: u8, l: u8, f: &mut Flags, mapper: &mut Mapper) -> (r: Result<Cycles, Fault>)
    requires
        old(mapper).wf(),
    ensures
        final(mapper).wf(),
        ({
            let addr = spec_rr(h, l);
            let m0 = old(mapper).mmu@;
            let v = mem_read(m0, addr);
            &&& (m0.open_bus || (mapped_read(addr) && mapped_write(addr))) ==> r == Ok::<
                Cycles,
                Fault,
            >(Cycles(12)) && *final(f) == inc_flags(v, *old(f)) && final(mapper).mmu@ == mem_write(
                m0,
                addr,
                inc_result(v),
            )
            &&& !(m0.open_bus || (mapped_read(addr) && mapped_write(addr))) ==> r == Err::<
                Cycles,
                Fault,
            >(Fault::UnmappedAddress { address: addr }) && *final(f) == *old(f) && final(mapper).mmu@ == m0
        }),
{
    let addr = rr(h, l);
    let v = match mapper.read(addr) {
        Ok(v) => v,
        Err(e) => {
            return Err(e);
        },
    };
    let res: u8 = if v == 0xff {
        0
    } else {
        v + 1
    };
    match mapper.write(addr, res) {
        Ok(()) => {},
        Err(e) => {
            return Err(e);
        },
    }
    *f = Flags { z: res == 0, n: false, h: v % 16 == 0xf, c: f.c };
    Ok(Cycles(12))
}

/// Decrements a register, wrapping 0x00 to 0xFF; the carry flag is never
/// modified.
pub fn dec_r(r: &mut u8, f: &mut Flags) -> (c: Cycles)
    ensures
        *final(r) == dec_result(*old(r)),
        *final(f) == dec_flags(*old(r), *old(f)),
        c == Cycles(4),
{
    let res: u8 = if *r == 0 {
        0xff
    } else {
        *r - 1
    };
    *f = Flags { z: res == 0, n: true, h: *r % 16 == 0, c: f.c };
    *r = res;
    Cycles(4)
}

/// Decrements the byte at address hl in place; the carry flag is never
/// modified.
pub fn dec_hlptr(h: u8, l: u8, f: &mut Flags, mapper: &mut Mapper) -> (r: Result<Cycles, Fault>)
    requires
        old(mapper).wf(),
    ensures
        final(mapper).wf(),
        ({
            let addr = spec_rr(h, l);
            let m0 = old(mapper).mmu@;
            let v = mem_read(m0, addr);
            &&& (m0.open_bus || (mapped_read(addr) && mapped_write(addr))) ==> r == Ok::<
                Cycles,
                Fault,
            >(Cycles(12)) && *final(f) == dec_flags(v, *old(f)) && final(mapper).mmu@ == mem_write(
                m0,
                addr,
                dec_result(v),
            )
            &&& !(m0.open_bus || (mapped_read(addr) && mapped_write(addr))) ==> r == Err::<
                Cycles,
                Fault,
            >(Fault::UnmappedAddress { address: addr }) && *final(f) == *old(f) && final(mapper).mmu@ == m0
        }),
{
    let addr = rr(h, l);
    let v = match mapper.read(addr) {
        Ok(v) => v,
        Err(e) => {
            return Err(e);
        },
    };
    let res: u8 = if v == 0 {
        0xff
    } else {
        v - 1
    };
    match mapper.write(addr, res) {
        Ok(()) => {},
        Err(e) => {
            return Err(e);
        },
    }
    *f = Flags { z: res == 0, n: true, h: v % 16 == 0, c: f.c };
    Ok(Cycles(12))
}

// ---------------------------------------------------------------------
// accumulator adjustments
// ---------------------------------------------------------------------
/// Decimal-adjusts the accumulator after a BCD add or subtract.
pub fn daa(a: &mut u8, f: &mut Flags) -> (c: Cycles)
    ensures
        *final(a) == daa_result(*old(a), *old(f)),
        *final(f) == daa_flags(*old(a), *old(f)),
        c == Cycles(4),
{
    let a0 = *a;
    if f.n {
        let d: u16 = (if f.c {
            0x60u16
        } else {
            0u16
        }) + (if f.h {
            0x06u16
        } else {
            0u16
        });
        let res: u16 = (a0 as u16 + 0x100) - d;
        let v = (res % 0x100) as u8;
        *a = v;
        *f = Flags { z: v == 0, n: true, h: false, c: f.c };
    } else {
        let c_now = f.c || a0 > 0x99;
        let h_now = f.h || a0 % 16 > 9;
        let d: u16 = (if c_now {
            0x60u16
        } else {
            0u16
        }) + (if h_now {
            0x06u16
        } else {
            0u16
        });
        let res: u16 = a0 as u16 + d;
        let v = (res % 0x100) as u8;
        *a = v;
        *f = Flags { z: v == 0, n: false, h: false, c: c_now };
    }
    Cycles(4)
}

/// Complements the accumulator bitwise; sets N and H, leaves Z and C.
pub fn cpl(a: &mut u8, f: &mut Flags) -> (c: Cycles)
    ensures
        *final(a) == 255 - *old(a),
        *final(f) == (Flags { z: old(f).z, n: true, h: true, c: old(f).c }),
        c == Cycles(4),
{
    *a = 255 - *a;
    *f = Flags { z: f.z, n: true, h: true, c: f.c };
    Cycles(4)
}

// ---------------------------------------------------------------------
// 16-bit arithmetic
// ---------------------------------------------------------------------
/// Adds a register pair to hl.
pub fn add_hl_rr(h: &mut u8, l: &mut u8, r1: u8, r2: u8, f: &mut Flags) -> (c: Cycles)
    ensures
        ({
            let hl = spec_rr(*old(h), *old(l));
            let v = spec_rr(r1, r2);
            &&& *final(h) == add16_result(hl, v) / 0x100
            &&& *final(l) == add16_result(hl, v) % 0x100
            &&& spec_rr(*final(h), *final(l)) == add16_result(hl, v)
            &&& *final(f) == add16_flags(hl, v, *old(f))
        }),
        c == Cycles(8),
{
    let hl = rr(*h, *l);
    let v = rr(r1, r2);
    let res: u32 = hl as u32 + v as u32;
    set_rr(h, l, (res % 0x10000) as u16);
    *f = Flags { z: f.z, n: false, h: hl % 0x1000 + v % 0x1000 > 0xfff, c: res > 0xffff };
    Cycles(8)
}

/// Adds the stack pointer to hl.
pub fn add_hl_sp(h: &mut u8, l: &mut u8, sp: u16, f: &mut Flags) -> (c: Cycles)
    ensures
        ({
            let hl = spec_rr(*old(h), *old(l));
            &&& *final(h) == add16_result(hl, sp) / 0x100
            &&& *final(l) == add16_result(hl, sp) % 0x100
            &&& spec_rr(*final(h), *final(l)) == add16_result(hl, sp)
            &&& *final(f) == add16_flags(hl, sp, *old(f))
        }),
        c == Cycles(8),
{
    let hl = rr(*h, *l);
    let res: u32 = hl as u32 + sp as u32;
    set_rr(h, l, (res % 0x10000) as u16);
    *f = Flags { z: f.z, n: false, h: hl % 0x1000 + sp % 0x1000 > 0xfff, c: res > 0xffff };
    Cycles(8)
}

/// Increments a register pair, wrapping modulo 0x10000; no flags change.
pub fn inc_rr(r1: &mut u8, r2: &mut u8) -> (c: Cycles)
    ensures
        *final(r1) == (spec_rr(*old(r1), *old(r2)) + 1) % 0x10000 / 0x100,
        *final(r2) == (spec_rr(*old(r1), *old(r2)) + 1) % 0x10000 % 0x100,
        spec_rr(*final(r1), *final(r2)) == (spec_rr(*old(r1), *old(r2)) + 1) % 0x10000,
        c == Cycles(8),
{
    let val = rr(*r1, *r2);
    let res: u32 = (val as u32 + 1) % 0x10000;
    set_rr(r1, r2, res as u16);
    Cycles(8)
}

/// Increments the stack pointer, wrapping modulo 0x10000; no flags change.
pub fn inc_sp(sp: &mut u16) -> (c: Cycles)
    ensures
        *final(sp) == (*old(sp) + 1) % 0x10000,
        c == Cycles(8),
{
    let res: u32 = (*sp as u32 + 1) % 0x10000;
    *sp = res as u16;
    Cycles(8)
}

/// Decrements a register pair, wrapping modulo 0x10000; no flags change.
pub fn dec_rr(r1: &mut u8, r2: &mut u8) -> (c: Cycles)
    ensures
        *final(r1) == (spec_rr(*old(r1), *old(r2)) + 0xffff) % 0x10000 / 0x100,
        *final(r2) == (spec_rr(*old(r1), *old(r2)) + 0xffff) % 0x10000 % 0x100,
        spec_rr(*final(r1), *final(r2)) == (spec_rr(*old(r1), *old(r2)) + 0xffff) % 0x10000,
        c == Cycles(8),
{
    let val = rr(*r1, *r2);
    let res: u32 = (val as u32 + 0xffff) % 0x10000;
    set_rr(r1, r2, res as u16);
    Cycles(8)
}

/// Decrements the stack pointer, wrapping modulo 0x10000; no flags change.
pub fn dec_sp(sp: &mut u16) -> (c: Cycles)
    ensures
        *final(sp) == (*old(sp) + 0xffff) % 0x10000,
        c == Cycles(8),
{
    let res: u32 = (*sp as u32 + 0xffff) % 0x10000;
    *sp = res as u16;
    Cycles(8)
}

/// Moves the stack pointer by a signed byte; Z and N clear, H and C from
/// the unsigned low-byte addition.
pub fn add_sp_dd(sp: &mut u16, dd: i8, f: &mut Flags) -> (c: Cycles)
    ensures
        *final(sp) == sp_offset_result(*old(sp), dd),
        *final(f) == sp_offset_flags(*old(sp), dd),
        c == Cycles(16),
{
    let sp0 = *sp;
    let du: u8 = if dd >= 0 {
        dd as u8
    } else {
        ((dd as i16) + 256) as u8
    };
    let res: u32 = if dd >= 0 {
        (sp0 as u32 + du as u32) % 0x10000
    } else {
        (sp0 as u32 + du as u32 + 0xff00) % 0x10000
    };
    *sp = res as u16;
    *f = Flags {
        z: false,
        n: false,
        h: sp0 % 16 + (du % 16) as u16 > 0xf,
        c: sp0 % 0x100 + du as u16 > 0xff,
    };
    Cycles(16)
}

/// Loads hl with the stack pointer moved by a signed byte; same flag rule
/// as the stack-pointer adjustment.
#[verifier::rlimit(60)]
pub fn ld_hl_sp_dd(h: &mut u8, l: &mut u8, sp: u16, dd: i8, f: &mut Flags) -> (c: Cycles)
    ensures
        *final(h) == sp_offset_result(sp, dd) / 0x100,
        *final(l) == sp_offset_result(sp, dd) % 0x100,
        spec_rr(*final(h), *final(l)) == sp_offset_result(sp, dd),
        *final(f) == sp_offset_flags(sp, dd),
        c == Cycles(12),
{
    let du: u8 = if dd >= 0 {
        dd as u8
    } else {
        ((dd as i16) + 256) as u8
    };
    let res: u32 = if dd >= 0 {
        (sp as u32 + du as u32) % 0x10000
    } else {
        (sp as u32 + du as u32 + 0xff00) % 0x10000
    };
    set_rr(h, l, res as u16);
    *f = Flags {
        z: false,
        n: false,
        h: sp % 16 + (du % 16) as u16 > 0xf,
        c: sp % 0x100 + du as u16 > 0xff,
    };
    Cycles(12)
}

} // verus!
