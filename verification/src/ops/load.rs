use vstd::prelude::*;

use crate::cycles::Cycles;
use crate::fault::Fault;
use crate::mmu::{mapped_read, mapped_write, mem_read, mem_write, mem_write16, mapped_write16, Mapper, next_addr};
use crate::ops::{rr, set_rr, spec_rr};

verus! {

/// Loads a register from the byte at a register-pair address.
pub fn ld_r_rrptr(r: &mut u8, hi: u8, lo: u8, mapper: &Mapper) -> (c: Result<Cycles, Fault>)
    requires
        mapper.wf(),
    ensures
        ({
            let addr = spec_rr(hi, lo);
            &&& mapper.mmu@.open_bus || mapped_read(addr) ==> c == Ok::<Cycles, Fault>(Cycles(8))
                && *final(r) == mem_read(mapper.mmu@, addr)
            &&& !(mapper.mmu@.open_bus || mapped_read(addr)) ==> c == Err::<Cycles, Fault>(
                Fault::UnmappedAddress { address: addr },
            ) && *final(r) == *old(r)
        }),
{
    match mapper.read(rr(hi, lo)) {
        Ok(v) => {
            *r = v;
            Ok(Cycles(8))
        },
        Err(e) => Err(e),
    }
}

/// Stores a register to the byte at address hl.
pub fn ld_hlptr_r(h: u8, l: u8, v: u8, mapper: &mut Mapper) -> (c: Result<Cycles, Fault>)
    requires
        old(mapper).wf(),
    ensures
        final(mapper).wf(),
        ({
            let addr = spec_rr(h, l);
            let m0 = old(mapper).mmu@;
            &&& m0.open_bus || mapped_write(addr) ==> c == Ok::<Cycles, Fault>(Cycles(8)) && final(mapper).mmu@ == mem_write(m0, addr, v)
            &&& !(m0.open_bus || mapped_write(addr)) ==> c == Err::<Cycles, Fault>(
                Fault::UnmappedAddress { address: addr },
            ) && final(mapper).mmu@ == m0
        }),
{
    match mapper.write(rr(h, l), v) {
        Ok(()) => Ok(Cycles(8)),
        Err(e) => Err(e),
    }
}

/// Stores the accumulator to the byte at a register-pair address.
pub fn ld_rrptr_a(hi: u8, lo: u8, a: u8, mapper: &mut Mapper) -> (c: Result<Cycles, Fault>)
    requires
        old(mapper).wf(),
    ensures
        final(mapper).wf(),
        ({
            let addr = spec_rr(hi, lo);
            let m0 = old(mapper).mmu@;
            &&& m0.open_bus || mapped_write(addr) ==> c == Ok::<Cycles, Fault>(Cycles(8))
                && final(mapper).mmu@ == mem_write(m0, addr, a)
            &&& !(m0.open_bus || mapped_write(addr)) ==> c == Err::<Cycles, Fault>(
                Fault::UnmappedAddress { address: addr },
            ) && final(mapper).mmu@ == m0
        }),
{
    match mapper.write(rr(hi, lo), a) {
        Ok(()) => Ok(Cycles(8)),
        Err(e) => Err(e),
    }
}

/// Stores an immediate byte to the byte at address hl.
pub fn ld_hlptr_n(h: u8, l: u8, n: u8, mapper: &mut Mapper) -> (c: Result<Cycles, Fault>)
    requires
        old(mapper).wf(),
    ensures
        final(mapper).wf(),
        ({
            let addr = spec_rr(h, l);
            let m0 = old(mapper).mmu@;
            &&& m0.open_bus || mapped_write(addr) ==> c == Ok::<Cycles, Fault>(Cycles(12))
                && final(mapper).mmu@ == mem_write(m0, addr, n)
            &&& !(m0.open_bus || mapped_write(addr)) ==> c == Err::<Cycles, Fault>(
                Fault::UnmappedAddress { address: addr },
            ) && final(mapper).mmu@ == m0
        }),
{
    match mapper.write(rr(h, l), n) {
        Ok(()) => Ok(Cycles(12)),
        Err(e) => Err(e),
    }
}

/// Loads the accumulator from the byte at an immediate address.
pub fn ld_a_nnptr(a: &mut u8, nn: u16, mapper: &Mapper) -> (c: Result<Cycles, Fault>)
    requires
        mapper.wf(),
    ensures
        mapper.mmu@.open_bus || mapped_read(nn) ==> c == Ok::<Cycles, Fault>(Cycles(16)) && *final(a) == mem_read(mapper.mmu@, nn),
        !(mapper.mmu@.open_bus || mapped_read(nn)) ==> c == Err::<Cycles, Fault>(
            Fault::UnmappedAddress { address: nn },
        ) && *final(a) == *old(a),
{
    match mapper.read(nn) {
        Ok(v) => {
            *a = v;
            Ok(Cycles(16))
        },
        Err(e) => Err(e),
    }
}

/// Stores the accumulator to the byte at an immediate address.
pub fn ld_nnptr_a(nn: u16, a: u8, mapper: &mut Mapper) -> (c: Result<Cycles, Fault>)
    requires
        old(mapper).wf(),
    ensures
        final(mapper).wf(),
        old(mapper).mmu@.open_bus || mapped_write(nn) ==> c == Ok::<Cycles, Fault>(Cycles(16))
            && final(mapper).mmu@ == mem_write(old(mapper).mmu@, nn, a),
        !(old(mapper).mmu@.open_bus || mapped_write(nn)) ==> c == Err::<Cycles, Fault>(
            Fault::UnmappedAddress { address: nn },
        ) && final(mapper).mmu@ == old(mapper).mmu@,
{
    match mapper.write(nn, a) {
        Ok(()) => Ok(Cycles(16)),
        Err(e) => Err(e),
    }
}

/// Loads the accumulator from the high page: address 0xFF00 + n.
pub fn ld_a_nhptr(a: &mut u8, n: u8, mapper: &Mapper) -> (c: Result<Cycles, Fault>)
    requires
        mapper.wf(),
    ensures
        ({
            let addr = (0xff00 + n) as u16;
            &&& mapper.mmu@.open_bus || mapped_read(addr) ==> c == Ok::<Cycles, Fault>(Cycles(12))
                && *final(a) == mem_read(mapper.mmu@, addr)
            &&& !(mapper.mmu@.open_bus || mapped_read(addr)) ==> c == Err::<Cycles, Fault>(
                Fault::UnmappedAddress { address: addr },
            ) && *final(a) == *old(a)
        }),
{
    match mapper.read(0xff00 + n as u16) {
        Ok(v) => {
            *a = v;
            Ok(Cycles(12))
        },
        Err(e) => Err(e),
    }
}

/// Stores the accumulator to the high page: address 0xFF00 + n.
pub fn ld_nhptr_a(n: u8, a: u8, mapper: &mut Mapper) -> (c: Result<Cycles, Fault>)
    requires
        old(mapper).wf(),
    ensures
        final(mapper).wf(),
        ({
            let addr = (0xff00 + n) as u16;
            let m0 = old(mapper).mmu@;
            &&& m0.open_bus || mapped_write(addr) ==> c == Ok::<Cycles, Fault>(Cycles(12))
                && final(mapper).mmu@ == mem_write(m0, addr, a)
            &&& !(m0.open_bus || mapped_write(addr)) ==> c == Err::<Cycles, Fault>(
                Fault::UnmappedAddress { address: addr },
            ) && final(mapper).mmu@ == m0
        }),
{
    match mapper.write(0xff00 + n as u16, a) {
        Ok(()) => Ok(Cycles(12)),
        Err(e) => Err(e),
    }
}

/// Loads the accumulator from the high page indexed by register c.
pub fn ld_a_chptr(a: &mut u8, c: u8, mapper: &Mapper) -> (r: Result<Cycles, Fault>)
    requires
        mapper.wf(),
    ensures
        ({
            let addr = (0xff00 + c) as u16;
            &&& mapper.mmu@.open_bus || mapped_read(addr) ==> r == Ok::<Cycles, Fault>(Cycles(8))
                && *final(a) == mem_read(mapper.mmu@, addr)
            &&& !(mapper.mmu@.open_bus || mapped_read(addr)) ==> r == Err::<Cycles, Fault>(
                Fault::UnmappedAddress { address: addr },
            ) && *final(a) == *old(a)
        }),
{
    match mapper.read(0xff00 + c as u16) {
        Ok(v) => {
            *a = v;
            Ok(Cycles(8))
        },
        Err(e) => Err(e),
    }
}

/// Stores the accumulator to the high page indexed by register c.
pub fn ld_chptr_a(c: u8, a: u8, mapper: &mut Mapper) -> (r: Result<Cycles, Fault>)
    requires
        old(mapper).wf(),
    ensures
        final(mapper).wf(),
        ({
            let addr = (0xff00 + c) as u16;
            let m0 = old(mapper).mmu@;
            &&& m0.open_bus || mapped_write(addr) ==> r == Ok::<Cycles, Fault>(Cycles(8)) && final(mapper).mmu@ == mem_write(m0, addr, a)
            &&& !(m0.open_bus || mapped_write(addr)) ==> r == Err::<Cycles, Fault>(
                Fault::UnmappedAddress { address: addr },
            ) && final(mapper).mmu@ == m0
        }),
{
    match mapper.write(0xff00 + c as u16, a) {
        Ok(()) => Ok(Cycles(8)),
        Err(e) => Err(e),
    }
}

/// Stores the accumulator to the byte at hl, then increments hl (wrapping).
pub fn ld_hlptr_inc_a(h: &mut u8, l: &mut u8, a: u8, mapper: &mut Mapper) -> (r: Result<
    Cycles,
    Fault,
>)
    requires
        old(mapper).wf(),
    ensures
        final(mapper).wf(),
        ({
            let addr = spec_rr(*old(h), *old(l));
            let m0 = old(mapper).mmu@;
            &&& m0.open_bus || mapped_write(addr) ==> r == Ok::<Cycles, Fault>(Cycles(8)) && final(mapper).mmu@ == mem_write(m0, addr, a) && spec_rr(*final(h), *final(l)) == (addr + 1)
                % 0x10000
            &&& !(m0.open_bus || mapped_write(addr)) ==> r == Err::<Cycles, Fault>(
                Fault::UnmappedAddress { address: addr },
            ) && final(mapper).mmu@ == m0 && *final(h) == *old(h) && *final(l) == *old(l)
        }),
{
    let addr = rr(*h, *l);
    match mapper.write(addr, a) {
        Ok(()) => {},
        Err(e) => {
            return Err(e);
        },
    }
    let nv: u32 = (addr as u32 + 1) % 0x10000;
    set_rr(h, l, nv as u16);
    Ok(Cycles(8))
}

/// Loads the accumulator from the byte at hl, then increments hl
/// (wrapping).
pub fn ld_a_hlptr_inc(a: &mut u8, h: &mut u8, l: &mut u8, mapper: &Mapper) -> (r: Result<
    Cycles,
    Fault,
>)
    requires
        mapper.wf(),
    ensures
        ({
            let addr = spec_rr(*old(h), *old(l));
            &&& mapper.mmu@.open_bus || mapped_read(addr) ==> r == Ok::<Cycles, Fault>(Cycles(8))
                && *final(a) == mem_read(mapper.mmu@, addr) && *final(h) == (addr + 1) % 0x10000
                / 0x100 && *final(l) == (addr + 1) % 0x10000 % 0x100 && spec_rr(
                *final(h),
                *final(l),
            ) == (addr + 1) % 0x10000
            &&& !(mapper.mmu@.open_bus || mapped_read(addr)) ==> r == Err::<Cycles, Fault>(
                Fault::UnmappedAddress { address: addr },
            ) && *final(a) == *old(a) && *final(h) == *old(h) && *final(l) == *old(l)
        }),
{
    let addr = rr(*h, *l);
    match mapper.read(addr) {
        Ok(v) => {
            *a = v;
        },
        Err(e) => {
            return Err(e);
        },
    }
    let nv: u32 = (addr as u32 + 1) % 0x10000;
    set_rr(h, l, nv as u16);
    Ok(Cycles(8))
}

/// Stores the accumulator to the byte at hl, then decrements hl (wrapping).
pub fn ld_hlptr_dec_a(h: &mut u8, l: &mut u8, a: u8, mapper: &mut Mapper) -> (r: Result<
    Cycles,
    Fault,
>)
    requires
        old(mapper).wf(),
    ensures
        final(mapper).wf(),
        ({
            let addr = spec_rr(*old(h), *old(l));
            let m0 = old(mapper).mmu@;
            &&& m0.open_bus || mapped_write(addr) ==> r == Ok::<Cycles, Fault>(Cycles(8)) && final(mapper).mmu@ == mem_write(m0, addr, a) && spec_rr(*final(h), *final(l)) == (addr + 0xffff)
                % 0x10000
            &&& !(m0.open_bus || mapped_write(addr)) ==> r == Err::<Cycles, Fault>(
                Fault::UnmappedAddress { address: addr },
            ) && final(mapper).mmu@ == m0 && *final(h) == *old(h) && *final(l) == *old(l)
        }),
{
    let addr = rr(*h, *l);
    match mapper.write(addr, a) {
        Ok(()) => {},
        Err(e) => {
            return Err(e);
        },
    }
    let nv: u32 = (addr as u32 + 0xffff) % 0x10000;
    set_rr(h, l, nv as u16);
    Ok(Cycles(8))
}

/// Loads the accumulator from the byte at hl, then decrements hl
/// (wrapping).
pub fn ld_a_hlptr_dec(a: &mut u8, h: &mut u8, l: &mut u8, mapper: &Mapper) -> (r: Result<
    Cycles,
    Fault,
>)
    requires
        mapper.wf(),
    ensures
        ({
            let addr = spec_rr(*old(h), *old(l));
            &&& mapper.mmu@.open_bus || mapped_read(addr) ==> r == Ok::<Cycles, Fault>(Cycles(8))
                && *final(a) == mem_read(mapper.mmu@, addr) && *final(h) == (addr + 0xffff)
                % 0x10000 / 0x100 && *final(l) == (addr + 0xffff) % 0x10000 % 0x100 && spec_rr(
                *final(h),
                *final(l),
            ) == (addr + 0xffff) % 0x10000
            &&& !(mapper.mmu@.open_bus || mapped_read(addr)) ==> r == Err::<Cycles, Fault>(
                Fault::UnmappedAddress { address: addr },
            ) && *final(a) == *old(a) && *final(h) == *old(h) && *final(l) == *old(l)
        }),
{
    let addr = rr(*h, *l);
    match mapper.read(addr) {
        Ok(v) => {
            *a = v;
        },
        Err(e) => {
            return Err(e);
        },
    }
    let nv: u32 = (addr as u32 + 0xffff) % 0x10000;
    set_rr(h, l, nv as u16);
    Ok(Cycles(8))
}

/// Stores the stack pointer, little-endian, at an immediate address.
pub fn ld_nnptr_sp(nn: u16, sp: u16, mapper: &mut Mapper) -> (r: Result<Cycles, Fault>)
    requires
        old(mapper).wf(),
    ensures
        final(mapper).wf(),
        ({
            let m0 = old(mapper).mmu@;
            &&& m0.open_bus || mapped_write16(nn) ==> r == Ok::<Cycles, Fault>(Cycles(20)) && final(mapper).mmu@ == mem_write16(m0, nn, sp)
            &&& !(m0.open_bus || mapped_write16(nn)) ==> r is Err
            &&& !(m0.open_bus || mapped_write(nn)) ==> r == Err::<Cycles, Fault>(
                Fault::UnmappedAddress { address: nn },
            ) && final(mapper).mmu@ == m0
            &&& m0.open_bus || mapped_write(nn) ==> (!(m0.open_bus || mapped_write(next_addr(nn)))
                ==> r == Err::<Cycles, Fault>(
                Fault::UnmappedAddress { address: next_addr(nn) },
            ) && final(mapper).mmu@ == mem_write(m0, nn, (sp % 0x100) as u8))
        }),
{
    match mapper.write_word(nn, sp) {
        Ok(()) => Ok(Cycles(20)),
        Err(e) => Err(e),
    }
}

/// Copies hl into the stack pointer.
pub fn ld_sp_hl(sp: &mut u16, h: u8, l: u8) -> (c: Cycles)
    ensures
        *final(sp) == spec_rr(h, l),
        c == Cycles(8),
{
    *sp = rr(h, l);
    Cycles(8)
}

} // verus!
