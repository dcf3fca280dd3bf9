use vstd::prelude::*;

use crate::cycles::Cycles;
use crate::fault::Fault;
use crate::flags::Flags;
use crate::mmu::{
    mapped_read, mapped_read16, mapped_write, mapped_write16, mem_read16, mem_write, mem_write16,
    next_addr, Mapper,
};
use crate::ops::{rr, spec_rr};

verus! {

/// The stack pointer moved down by two, wrapping modulo 0x10000.
pub open spec fn sp_minus2(sp: u16) -> u16 {
    ((sp + 0xfffe) % 0x10000) as u16
}

/// The stack pointer moved up by two, wrapping modulo 0x10000.
pub open spec fn sp_plus2(sp: u16) -> u16 {
    ((sp + 2) % 0x10000) as u16
}

/// The target of a relative jump: the program counter moved by the signed
/// value of the displacement byte, wrapping modulo 0x10000.
pub open spec fn rel_target(pc: u16, d: u8) -> u16 {
    ((pc + d + (if d < 0x80 {
        0int
    } else {
        0xff00int
    })) % 0x10000) as u16
}

/// Pushes a 16-bit value: the stack pointer moves down by two and the
/// value is stored there little-endian.  On a fault the stack pointer
/// stays moved and the value is not (fully) stored.
pub fn push16(sp: &mut u16, val: u16, mapper: &mut Mapper) -> (r: Result<(), Fault>)
    requires
        old(mapper).wf(),
    ensures
        final(mapper).wf(),
        *final(sp) == sp_minus2(*old(sp)),
        ({
            let m0 = old(mapper).mmu@;
            let dest = sp_minus2(*old(sp));
            &&& m0.open_bus || mapped_write16(dest) ==> r == Ok::<(), Fault>(())
                && final(mapper).mmu@ == mem_write16(m0, dest, val)
            &&& !(m0.open_bus || mapped_write(dest)) ==> r == Err::<(), Fault>(
                Fault::UnmappedAddress { address: dest },
            ) && final(mapper).mmu@ == m0
            &&& (m0.open_bus || mapped_write(dest)) && !(m0.open_bus || mapped_write(
                next_addr(dest),
            )) ==> r == Err::<(), Fault>(Fault::UnmappedAddress { address: next_addr(dest) })
                && final(mapper).mmu@ == mem_write(m0, dest, (val % 0x100) as u8)
        }),
{
    let dest: u16 = ((*sp as u32 + 0xfffe) % 0x10000) as u16;
    *sp = dest;
    mapper.write_word(dest, val)
}

/// Pushes a register pair onto the stack.
pub fn push_rr(r1: u8, r2: u8, sp: &mut u16, mapper: &mut Mapper) -> (r: Result<Cycles, Fault>)
    requires
        old(mapper).wf(),
    ensures
        final(mapper).wf(),
        *final(sp) == sp_minus2(*old(sp)),
        ({
            let m0 = old(mapper).mmu@;
            let dest = sp_minus2(*old(sp));
            &&& m0.open_bus || mapped_write16(dest) ==> r == Ok::<Cycles, Fault>(Cycles(16))
                && final(mapper).mmu@ == mem_write16(m0, dest, spec_rr(r1, r2))
            &&& !(m0.open_bus || mapped_write(dest)) ==> r == Err::<Cycles, Fault>(
                Fault::UnmappedAddress { address: dest },
            ) && final(mapper).mmu@ == m0
            &&& (m0.open_bus || mapped_write(dest)) && !(m0.open_bus || mapped_write(
                next_addr(dest),
            )) ==> r == Err::<Cycles, Fault>(Fault::UnmappedAddress { address: next_addr(dest) })
                && final(mapper).mmu@ == mem_write(m0, dest, (spec_rr(r1, r2) % 0x100) as u8)
        }),
{
    match push16(sp, rr(r1, r2), mapper) {
        Ok(()) => Ok(Cycles(16)),
        Err(e) => Err(e),
    }
}

/// Pops a 16-bit value into a register pair: the value at the stack
/// pointer, read little-endian, and the stack pointer moves up by two.
pub fn pop_rr(r1: &mut u8, r2: &mut u8, sp: &mut u16, mapper: &Mapper) -> (r: Result<
    Cycles,
    Fault,
>)
    requires
        mapper.wf(),
    ensures
        ({
            let m0 = mapper.mmu@;
            let v = mem_read16(m0, *old(sp));
            &&& m0.open_bus || mapped_read16(*old(sp)) ==> r == Ok::<Cycles, Fault>(Cycles(12))
                && *final(r1) == v / 0x100 && *final(r2) == v % 0x100 && *final(sp) == sp_plus2(
                *old(sp),
            )
            &&& !(m0.open_bus || mapped_read(*old(sp))) ==> r == Err::<Cycles, Fault>(
                Fault::UnmappedAddress { address: *old(sp) },
            )
            &&& (m0.open_bus || mapped_read(*old(sp))) && !(m0.open_bus || mapped_read(
                next_addr(*old(sp)),
            )) ==> r == Err::<Cycles, Fault>(
                Fault::UnmappedAddress { address: next_addr(*old(sp)) },
            )
            &&& !(m0.open_bus || mapped_read16(*old(sp))) ==> r is Err && *final(r1) == *old(r1)
                && *final(r2) == *old(r2) && *final(sp) == *old(sp)
        }),
{
    let v = match mapper.read_word(*sp) {
        Ok(v) => v,
        Err(e) => {
            return Err(e);
        },
    };
    *r1 = (v / 0x100) as u8;
    *r2 = (v % 0x100) as u8;
    *sp = ((*sp as u32 + 2) % 0x10000) as u16;
    Ok(Cycles(12))
}

/// Pops into the accumulator and the flags register; the low nibble of the
/// popped byte is masked off, keeping the flags-register invariant.
pub fn pop_af(a: &mut u8, f: &mut Flags, sp: &mut u16, mapper: &Mapper) -> (r: Result<
    Cycles,
    Fault,
>)
    requires
        mapper.wf(),
    ensures
        ({
            let m0 = mapper.mmu@;
            let v = mem_read16(m0, *old(sp));
            &&& m0.open_bus || mapped_read16(*old(sp)) ==> r == Ok::<Cycles, Fault>(Cycles(12))
                && *final(a) == v / 0x100 && *final(f) == Flags::spec_from_byte((v % 0x100) as u8)
                && *final(sp) == sp_plus2(*old(sp))
            &&& !(m0.open_bus || mapped_read(*old(sp))) ==> r == Err::<Cycles, Fault>(
                Fault::UnmappedAddress { address: *old(sp) },
            )
            &&& (m0.open_bus || mapped_read(*old(sp))) && !(m0.open_bus || mapped_read(
                next_addr(*old(sp)),
            )) ==> r == Err::<Cycles, Fault>(
                Fault::UnmappedAddress { address: next_addr(*old(sp)) },
            )
            &&& !(m0.open_bus || mapped_read16(*old(sp))) ==> r is Err && *final(a) == *old(a)
                && *final(f) == *old(f) && *final(sp) == *old(sp)
        }),
{
    let v = match mapper.read_word(*sp) {
        Ok(v) => v,
        Err(e) => {
            return Err(e);
        },
    };
    *a = (v / 0x100) as u8;
    *f = Flags::from_byte((v % 0x100) as u8);
    *sp = ((*sp as u32 + 2) % 0x10000) as u16;
    Ok(Cycles(12))
}

/// Absolute jump to an immediate address.
pub fn jp_nn(pc: &mut u16, nn: u16) -> (c: Cycles)
    ensures
        *final(pc) == nn,
        c == Cycles(16),
{
    *pc = nn;
    Cycles(16)
}

/// Absolute jump to the address in hl.
pub fn jp_hl(pc: &mut u16, h: u8, l: u8) -> (c: Cycles)
    ensures
        *final(pc) == spec_rr(h, l),
        c == Cycles(4),
{
    *pc = rr(h, l);
    Cycles(4)
}

/// Conditional absolute jump: taken when the condition holds (16 cycles),
/// otherwise the program counter is untouched (12 cycles).
pub fn jp_f_nn(pc: &mut u16, cond: bool, nn: u16) -> (c: Cycles)
    ensures
        cond ==> *final(pc) == nn && c == Cycles(16),
        !cond ==> *final(pc) == *old(pc) && c == Cycles(12),
{
    if cond {
        *pc = nn;
        Cycles(16)
    } else {
        Cycles(12)
    }
}

/// Relative jump by a signed displacement byte.
pub fn jr(pc: &mut u16, distance: u8) -> (c: Cycles)
    ensures
        *final(pc) == rel_target(*old(pc), distance),
        c == Cycles(12),
{
    let t: u32 = if distance < 0x80 {
        (*pc as u32 + distance as u32) % 0x10000
    } else {
        (*pc as u32 + distance as u32 + 0xff00) % 0x10000
    };
    *pc = t as u16;
    Cycles(12)
}

/// Conditional relative jump: taken when the condition holds (12 cycles),
/// otherwise the program counter is untouched (8 cycles).
pub fn jr_if(pc: &mut u16, distance: u8, cond: bool) -> (c: Cycles)
    ensures
        cond ==> *final(pc) == rel_target(*old(pc), distance) && c == Cycles(12),
        !cond ==> *final(pc) == *old(pc) && c == Cycles(8),
{
    if cond {
        jr(pc, distance)
    } else {
        Cycles(8)
    }
}

/// Calls an immediate address: pushes the current program counter (the
/// return address) and jumps.  On a push fault the program counter is
/// untouched, though the stack pointer stays moved.
pub fn call_nn(pc: &mut u16, sp: &mut u16, nn: u16, mapper: &mut Mapper) -> (r: Result<
    Cycles,
    Fault,
>)
    requires
        old(mapper).wf(),
    ensures
        final(mapper).wf(),
        *final(sp) == sp_minus2(*old(sp)),
        ({
            let m0 = old(mapper).mmu@;
            let dest = sp_minus2(*old(sp));
            &&& m0.open_bus || mapped_write16(dest) ==> r == Ok::<Cycles, Fault>(Cycles(24))
                && final(mapper).mmu@ == mem_write16(m0, dest, *old(pc)) && *final(pc) == nn
            &&& !(m0.open_bus || mapped_write(dest)) ==> r == Err::<Cycles, Fault>(
                Fault::UnmappedAddress { address: dest },
            ) && *final(pc) == *old(pc) && final(mapper).mmu@ == m0
            &&& (m0.open_bus || mapped_write(dest)) && !(m0.open_bus || mapped_write(
                next_addr(dest),
            )) ==> r == Err::<Cycles, Fault>(Fault::UnmappedAddress { address: next_addr(dest) })
                && *final(pc) == *old(pc) && final(mapper).mmu@ == mem_write(
                m0,
                dest,
                (*old(pc) % 0x100) as u8,
            )
        }),
{
    match push16(sp, *pc, mapper) {
        Ok(()) => {},
        Err(e) => {
            return Err(e);
        },
    }
    *pc = nn;
    Ok(Cycles(24))
}

/// Conditional call: behaves as `call_nn` when the condition holds (24
/// cycles), otherwise nothing moves (12 cycles).
pub fn call_f_nn(pc: &mut u16, sp: &mut u16, cond: bool, nn: u16, mapper: &mut Mapper) -> (r:
    Result<Cycles, Fault>)
    requires
        old(mapper).wf(),
    ensures
        final(mapper).wf(),
        !cond ==> r == Ok::<Cycles, Fault>(Cycles(12)) && *final(pc) == *old(pc) && *final(sp)
            == *old(sp) && final(mapper).mmu@ == old(mapper).mmu@,
        cond ==> *final(sp) == sp_minus2(*old(sp)) && ({
            let m0 = old(mapper).mmu@;
            let dest = sp_minus2(*old(sp));
            &&& m0.open_bus || mapped_write16(dest) ==> r == Ok::<Cycles, Fault>(Cycles(24))
                && final(mapper).mmu@ == mem_write16(m0, dest, *old(pc)) && *final(pc) == nn
            &&& !(m0.open_bus || mapped_write(dest)) ==> r == Err::<Cycles, Fault>(
                Fault::UnmappedAddress { address: dest },
            ) && *final(pc) == *old(pc) && final(mapper).mmu@ == m0
            &&& (m0.open_bus || mapped_write(dest)) && !(m0.open_bus || mapped_write(
                next_addr(dest),
            )) ==> r == Err::<Cycles, Fault>(Fault::UnmappedAddress { address: next_addr(dest) })
                && *final(pc) == *old(pc) && final(mapper).mmu@ == mem_write(
                m0,
                dest,
                (*old(pc) % 0x100) as u8,
            )
        }),
{
    if cond {
        call_nn(pc, sp, nn, mapper)
    } else {
        Ok(Cycles(12))
    }
}

/// Returns: pops the return address into the program counter.
pub fn ret(pc: &mut u16, sp: &mut u16, mapper: &Mapper) -> (r: Result<Cycles, Fault>)
    requires
        mapper.wf(),
    ensures
        ({
            let m0 = mapper.mmu@;
            &&& m0.open_bus || mapped_read16(*old(sp)) ==> r == Ok::<Cycles, Fault>(Cycles(16))
                && *final(pc) == mem_read16(m0, *old(sp)) && *final(sp) == sp_plus2(*old(sp))
            &&& !(m0.open_bus || mapped_read(*old(sp))) ==> r == Err::<Cycles, Fault>(
                Fault::UnmappedAddress { address: *old(sp) },
            )
            &&& (m0.open_bus || mapped_read(*old(sp))) && !(m0.open_bus || mapped_read(
                next_addr(*old(sp)),
            )) ==> r == Err::<Cycles, Fault>(
                Fault::UnmappedAddress { address: next_addr(*old(sp)) },
            )
            &&& !(m0.open_bus || mapped_read16(*old(sp))) ==> r is Err && *final(pc) == *old(pc)
                && *final(sp) == *old(sp)
        }),
{
    let v = match mapper.read_word(*sp) {
        Ok(v) => v,
        Err(e) => {
            return Err(e);
        },
    };
    *pc = v;
    *sp = ((*sp as u32 + 2) % 0x10000) as u16;
    Ok(Cycles(16))
}

/// Conditional return: pops when the condition holds (20 cycles),
/// otherwise nothing moves (8 cycles).
pub fn ret_f(pc: &mut u16, sp: &mut u16, cond: bool, mapper: &Mapper) -> (r: Result<Cycles, Fault>)
    requires
        mapper.wf(),
    ensures
        !cond ==> r == Ok::<Cycles, Fault>(Cycles(8)) && *final(pc) == *old(pc) && *final(sp)
            == *old(sp),
        cond ==> ({
            let m0 = mapper.mmu@;
            &&& m0.open_bus || mapped_read16(*old(sp)) ==> r == Ok::<Cycles, Fault>(Cycles(20))
                && *final(pc) == mem_read16(m0, *old(sp)) && *final(sp) == sp_plus2(*old(sp))
            &&& !(m0.open_bus || mapped_read(*old(sp))) ==> r == Err::<Cycles, Fault>(
                Fault::UnmappedAddress { address: *old(sp) },
            )
            &&& (m0.open_bus || mapped_read(*old(sp))) && !(m0.open_bus || mapped_read(
                next_addr(*old(sp)),
            )) ==> r == Err::<Cycles, Fault>(
                Fault::UnmappedAddress { address: next_addr(*old(sp)) },
            )
            &&& !(m0.open_bus || mapped_read16(*old(sp))) ==> r is Err && *final(pc) == *old(pc)
                && *final(sp) == *old(sp)
        }),
{
    if cond {
        let v = match mapper.read_word(*sp) {
            Ok(v) => v,
            Err(e) => {
                return Err(e);
            },
        };
        *pc = v;
        *sp = ((*sp as u32 + 2) % 0x10000) as u16;
        Ok(Cycles(20))
    } else {
        Ok(Cycles(8))
    }
}

/// Returns and turns the interrupt master enable back on in the same
/// step.
pub fn reti(pc: &mut u16, sp: &mut u16, ime: &mut bool, mapper: &Mapper) -> (r: Result<
    Cycles,
    Fault,
>)
    requires
        mapper.wf(),
    ensures
        ({
            let m0 = mapper.mmu@;
            &&& m0.open_bus || mapped_read16(*old(sp)) ==> r == Ok::<Cycles, Fault>(Cycles(16))
                && *final(pc) == mem_read16(m0, *old(sp)) && *final(sp) == sp_plus2(*old(sp))
                && *final(ime)
            &&& !(m0.open_bus || mapped_read(*old(sp))) ==> r == Err::<Cycles, Fault>(
                Fault::UnmappedAddress { address: *old(sp) },
            )
            &&& (m0.open_bus || mapped_read(*old(sp))) && !(m0.open_bus || mapped_read(
                next_addr(*old(sp)),
            )) ==> r == Err::<Cycles, Fault>(
                Fault::UnmappedAddress { address: next_addr(*old(sp)) },
            )
            &&& !(m0.open_bus || mapped_read16(*old(sp))) ==> r is Err && *final(pc) == *old(pc)
                && *final(sp) == *old(sp) && *final(ime) == *old(ime)
        }),
{
    let v = match mapper.read_word(*sp) {
        Ok(v) => v,
        Err(e) => {
            return Err(e);
        },
    };
    *pc = v;
    *sp = ((*sp as u32 + 2) % 0x10000) as u16;
    *ime = true;
    Ok(Cycles(16))
}

/// Restart: pushes the current program counter and jumps to a fixed
/// one-byte vector.
pub fn rst_n(pc: &mut u16, sp: &mut u16, n: u8, mapper: &mut Mapper) -> (r: Result<Cycles, Fault>)
    requires
        old(mapper).wf(),
    ensures
        final(mapper).wf(),
        *final(sp) == sp_minus2(*old(sp)),
        ({
            let m0 = old(mapper).mmu@;
            let dest = sp_minus2(*old(sp));
            &&& m0.open_bus || mapped_write16(dest) ==> r == Ok::<Cycles, Fault>(Cycles(16))
                && final(mapper).mmu@ == mem_write16(m0, dest, *old(pc)) && *final(pc) == n as u16
            &&& !(m0.open_bus || mapped_write(dest)) ==> r == Err::<Cycles, Fault>(
                Fault::UnmappedAddress { address: dest },
            ) && *final(pc) == *old(pc) && final(mapper).mmu@ == m0
            &&& (m0.open_bus || mapped_write(dest)) && !(m0.open_bus || mapped_write(
                next_addr(dest),
            )) ==> r == Err::<Cycles, Fault>(Fault::UnmappedAddress { address: next_addr(dest) })
                && *final(pc) == *old(pc) && final(mapper).mmu@ == mem_write(
                m0,
                dest,
                (*old(pc) % 0x100) as u8,
            )
        }),
{
    match push16(sp, *pc, mapper) {
        Ok(()) => {},
        Err(e) => {
            return Err(e);
        },
    }
    *pc = n as u16;
    Ok(Cycles(16))
}

/// Does nothing for four cycles.
pub fn nop() -> (c: Cycles)
    ensures
        c == Cycles(4),
{
    Cycles(4)
}

/// Sets the carry flag; N and H clear, Z untouched.
pub fn scf(f: &mut Flags) -> (c: Cycles)
    ensures
        *final(f) == (Flags { z: old(f).z, n: false, h: false, c: true }),
        c == Cycles(4),
{
    *f = Flags { z: f.z, n: false, h: false, c: true };
    Cycles(4)
}

/// Complements the carry flag; N and H clear, Z untouched.
pub fn ccf(f: &mut Flags) -> (c: Cycles)
    ensures
        *final(f) == (Flags { z: old(f).z, n: false, h: false, c: !old(f).c }),
        c == Cycles(4),
{
    *f = Flags { z: f.z, n: false, h: false, c: !f.c };
    Cycles(4)
}

} // verus!
