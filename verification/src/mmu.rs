use vstd::prelude::*;

use crate::fault::Fault;
use crate::interrupts::{spec_pending, Interrupt};

verus! {

/// The byte an unmapped read yields under the open-bus policy.
pub const OPEN_BUS_BYTE: u8 = 0xff;

/// Ghost model of the bus: the backing stores of every region the bus owns,
/// and the two interrupt registers.
#[verifier::ext_equal]
pub ghost struct MemState {
    /// Cartridge ROM bytes, addressed from 0x0000.
    pub rom: Seq<u8>,
    /// Work RAM backing 0xC000-0xDFFF, aliased by the echo region
    /// 0xE000-0xFDFF.
    pub wram: Seq<u8>,
    /// High RAM backing 0xFF80-0xFFFE.
    pub hram: Seq<u8>,
    /// Video register window backing 0xFF40-0xFF4A.
    pub video: Seq<u8>,
    /// Interrupt request register, the byte at 0xFF0F.
    pub iflag: u8,
    /// Interrupt enable register, the byte at 0xFFFF.
    pub ienable: u8,
    /// Bus policy: when set, unmapped reads yield `OPEN_BUS_BYTE` and
    /// unmapped writes are dropped; when clear, both are faults.
    pub open_bus: bool,
}

/// The regions a read is routed to.
pub open spec fn mapped_read(addr: u16) -> bool {
    addr < 0x8000 || (0xc000 <= addr <= 0xfdff) || (0xff01 <= addr <= 0xff02) || addr == 0xff0f
        || (0xff40 <= addr <= 0xff4a) || (0xff80 <= addr <= 0xfffe) || addr == 0xffff
}

/// The regions a write is routed to.  Cartridge ROM is not writable here:
/// bank-switching writes belong to the cartridge collaborator, which this
/// bus does not model.
pub open spec fn mapped_write(addr: u16) -> bool {
    (0xc000 <= addr <= 0xfdff) || (0xff01 <= addr <= 0xff02) || addr == 0xff0f || (0xff10 <= addr
        <= 0xff26) || (0xff40 <= addr <= 0xff4a) || (0xff80 <= addr <= 0xfffe) || addr == 0xffff
}

/// Plain read-write storage: regions where a written byte is stored as-is
/// and read back as-is (work RAM with its echo alias, the video window, and
/// high RAM).
pub open spec fn plain_ram(addr: u16) -> bool {
    (0xc000 <= addr <= 0xfdff) || (0xff40 <= addr <= 0xff4a) || (0xff80 <= addr <= 0xfffe)
}

/// The backing stores have their fixed sizes.
pub open spec fn mem_wf(m: MemState) -> bool {
    m.wram.len() == 0x2000 && m.hram.len() == 0x7f && m.video.len() == 0xb
}

/// The byte a read of `addr` yields.  Unmapped addresses yield the open-bus
/// byte; whether such a read is allowed at all is the bus policy's affair.
/// Cartridge space 0x0000-0x7FFF is always a mapped region — it belongs to
/// the cartridge collaborator — so a read past the end of the image yields
/// the open-bus byte under either policy rather than a fault.
pub open spec fn mem_read(m: MemState, addr: u16) -> u8 {
    if addr < 0x8000 {
        if addr < m.rom.len() {
            m.rom[addr as int]
        } else {
            OPEN_BUS_BYTE
        }
    } else if 0xc000 <= addr <= 0xdfff {
        m.wram[addr - 0xc000]
    } else if 0xe000 <= addr <= 0xfdff {
        m.wram[addr - 0xe000]
    } else if 0xff01 <= addr <= 0xff02 {
        0x00
    } else if addr == 0xff0f {
        m.iflag
    } else if 0xff40 <= addr <= 0xff4a {
        m.video[addr - 0xff40]
    } else if 0xff80 <= addr <= 0xfffe {
        m.hram[addr - 0xff80]
    } else if addr == 0xffff {
        m.ienable
    } else {
        OPEN_BUS_BYTE
    }
}

/// The state after a write of `val` to `addr`.  Writes to the serial and
/// sound stub windows and to unmapped space leave the state unchanged.
pub open spec fn mem_write(m: MemState, addr: u16, val: u8) -> MemState {
    if 0xc000 <= addr <= 0xdfff {
        MemState { wram: m.wram.update(addr - 0xc000, val), ..m }
    } else if 0xe000 <= addr <= 0xfdff {
        MemState { wram: m.wram.update(addr - 0xe000, val), ..m }
    } else if addr == 0xff0f {
        MemState { iflag: val, ..m }
    } else if 0xff40 <= addr <= 0xff4a {
        MemState { video: m.video.update(addr - 0xff40, val), ..m }
    } else if 0xff80 <= addr <= 0xfffe {
        MemState { hram: m.hram.update(addr - 0xff80, val), ..m }
    } else if addr == 0xffff {
        MemState { ienable: val, ..m }
    } else {
        m
    }
}

/// The address after `a`, wrapping at the top of the 16-bit space.
pub open spec fn next_addr(a: u16) -> u16 {
    ((a + 1) % 0x10000) as u16
}

/// Little-endian 16-bit read: low byte at the lower address.
pub open spec fn mem_read16(m: MemState, addr: u16) -> u16 {
    (mem_read(m, addr) + 0x100 * mem_read(m, next_addr(addr))) as u16
}

/// Little-endian 16-bit write: low byte first, at the lower address.
pub open spec fn mem_write16(m: MemState, addr: u16, val: u16) -> MemState {
    mem_write(mem_write(m, addr, (val % 0x100) as u8), next_addr(addr), (val / 0x100) as u8)
}

pub open spec fn mapped_read16(addr: u16) -> bool {
    mapped_read(addr) && mapped_read(next_addr(addr))
}

pub open spec fn mapped_write16(addr: u16) -> bool {
    mapped_write(addr) && mapped_write(next_addr(addr))
}

/// Two addresses land on the same storage cell.  Distinct addresses alias
/// only through the echo region, which mirrors work RAM 0x2000 higher.
pub open spec fn aliases(a1: u16, a2: u16) -> bool {
    a1 == a2 || (0xc000 <= a1 <= 0xddff && a2 == a1 + 0x2000) || (0xc000 <= a2 <= 0xddff && a1
        == a2 + 0x2000)
}

/// A write is invisible to every read that does not alias the written
/// address.
pub proof fn lemma_write_read_noalias(m: MemState, wa: u16, ra: u16, val: u8)
    requires
        mem_wf(m),
        !aliases(wa, ra),
    ensures
        mem_read(mem_write(m, wa, val), ra) == mem_read(m, ra),
{
}

/// A byte written to plain storage is read back unchanged, through any
/// address that aliases the written one — in particular through the echo
/// region's alias of work RAM.
pub proof fn lemma_write_read_alias(m: MemState, wa: u16, ra: u16, val: u8)
    requires
        mem_wf(m),
        plain_ram(wa),
        aliases(wa, ra),
    ensures
        mem_read(mem_write(m, wa, val), ra) == val,
{
}

/// Bus round trip: writing a 16-bit value to plain storage and reading it
/// back at the same address yields the value.  Interrupt-register and stub
/// addresses are outside `plain_ram` and make no such promise.
pub proof fn lemma_bus_word_roundtrip(m: MemState, addr: u16, val: u16)
    requires
        mem_wf(m),
        plain_ram(addr),
        plain_ram(next_addr(addr)),
    ensures
        mem_read16(mem_write16(m, addr, val), addr) == val,
{
    let lo = (val % 0x100) as u8;
    let hi = (val / 0x100) as u8;
    let m1 = mem_write(m, addr, lo);
    let m2 = mem_write(m1, next_addr(addr), hi);
    lemma_write_read_alias(m, addr, addr, lo);
    lemma_write_read_noalias(m1, next_addr(addr), addr, hi);
    lemma_write_read_alias(m1, next_addr(addr), next_addr(addr), hi);
    assert(mem_read(m2, addr) == lo);
    assert(mem_read(m2, next_addr(addr)) == hi);
}

/// The memory bus: routes every address of the 16-bit space to its owning
/// store.  The cartridge and video collaborators are modelled by the plain
/// byte stores they expose at their interface boundary.
pub struct Mmu {
    pub rom: Vec<u8>,
    pub wram: Vec<u8>,
    pub hram: Vec<u8>,
    pub video: Vec<u8>,
    pub interrupt_flag: u8,
    pub interrupt_enable: u8,
    /// See `MemState::open_bus`; chosen once at construction.
    pub open_bus: bool,
}

impl View for Mmu {
    type V = MemState;

    open spec fn view(&self) -> MemState {
        MemState {
            rom: self.rom@,
            wram: self.wram@,
            hram: self.hram@,
            video: self.video@,
            iflag: self.interrupt_flag,
            ienable: self.interrupt_enable,
            open_bus: self.open_bus,
        }
    }
}

impl Mmu {
    pub open spec fn wf(self) -> bool {
        mem_wf(self@)
    }

    /// A bus over the given cartridge ROM, with zeroed RAM and registers,
    /// under the strict policy: unmapped accesses are faults.
    pub fn new(rom: Vec<u8>) -> (r: Mmu)
        ensures
            r.wf(),
            r@.rom == rom@,
            r@.iflag == 0 && r@.ienable == 0,
            !r@.open_bus,
            forall|i: int| 0 <= i < 0x2000 ==> r@.wram[i] == 0,
            forall|i: int| 0 <= i < 0x7f ==> r@.hram[i] == 0,
            forall|i: int| 0 <= i < 0xb ==> r@.video[i] == 0,
    {
        Mmu {
            rom,
            wram: vec![0u8; 0x2000],
            hram: vec![0u8; 0x7f],
            video: vec![0u8; 0xb],
            interrupt_flag: 0x00,
            interrupt_enable: 0x00,
            open_bus: false,
        }
    }

    /// Same bus under the documented open-bus policy: unmapped reads yield
    /// `OPEN_BUS_BYTE`, unmapped writes are dropped, and no bus access
    /// faults.
    pub fn new_open_bus(rom: Vec<u8>) -> (r: Mmu)
        ensures
            r.wf(),
            r@.rom == rom@,
            r@.iflag == 0 && r@.ienable == 0,
            r@.open_bus,
            forall|i: int| 0 <= i < 0x2000 ==> r@.wram[i] == 0,
            forall|i: int| 0 <= i < 0x7f ==> r@.hram[i] == 0,
            forall|i: int| 0 <= i < 0xb ==> r@.video[i] == 0,
    {
        Mmu {
            rom,
            wram: vec![0u8; 0x2000],
            hram: vec![0u8; 0x7f],
            video: vec![0u8; 0xb],
            interrupt_flag: 0x00,
            interrupt_enable: 0x00,
            open_bus: true,
        }
    }

    /// Reads one byte.  Succeeds on every mapped address, and on every
    /// address under the open-bus policy; faults otherwise.
    pub fn read(&self, address: u16) -> (r: Result<u8, Fault>)
        requires
            self.wf(),
        ensures
            self@.open_bus || mapped_read(address) ==> r == Ok::<u8, Fault>(
                mem_read(self@, address),
            ),
            !(self@.open_bus || mapped_read(address)) ==> r == Err::<u8, Fault>(
                Fault::UnmappedAddress { address },
            ),
    {
        if address < 0x8000 {
            if (address as usize) < self.rom.len() {
                Ok(self.rom[address as usize])
            } else {
                Ok(OPEN_BUS_BYTE)
            }
        } else if 0xc000 <= address && address <= 0xdfff {
            Ok(self.wram[(address - 0xc000) as usize])
        } else if 0xe000 <= address && address <= 0xfdff {
            Ok(self.wram[(address - 0xe000) as usize])
        } else if 0xff01 <= address && address <= 0xff02 {
            Ok(0x00)
        } else if address == 0xff0f {
            Ok(self.interrupt_flag)
        } else if 0xff40 <= address && address <= 0xff4a {
            Ok(self.video[(address - 0xff40) as usize])
        } else if 0xff80 <= address && address <= 0xfffe {
            Ok(self.hram[(address - 0xff80) as usize])
        } else if address == 0xffff {
            Ok(self.interrupt_enable)
        } else if self.open_bus {
            Ok(OPEN_BUS_BYTE)
        } else {
            Err(Fault::UnmappedAddress { address })
        }
    }

    /// Writes one byte.  Succeeds on every mapped address, and on every
    /// address under the open-bus policy; faults otherwise, leaving the
    /// state unchanged.
    pub fn write(&mut self, address: u16, val: u8) -> (r: Result<(), Fault>)
        requires
            old(self).wf(),
        ensures
            final(self).wf(),
            old(self)@.open_bus || mapped_write(address) ==> r == Ok::<(), Fault>(())
                && final(self)@ == mem_write(old(self)@, address, val),
            !(old(self)@.open_bus || mapped_write(address)) ==> r == Err::<(), Fault>(
                Fault::UnmappedAddress { address },
            ) && final(self)@ == old(self)@,
    {
        if 0xc000 <= address && address <= 0xdfff {
            self.wram.set((address - 0xc000) as usize, val);
            assert(self@ =~= mem_write(old(self)@, address, val));
            Ok(())
        } else if 0xe000 <= address && address <= 0xfdff {
            self.wram.set((address - 0xe000) as usize, val);
            assert(self@ =~= mem_write(old(self)@, address, val));
            Ok(())
        } else if 0xff01 <= address && address <= 0xff02 {
            // serial stub: the write is accepted and dropped
            Ok(())
        } else if address == 0xff0f {
            self.interrupt_flag = val;
            assert(self@ =~= mem_write(old(self)@, address, val));
            Ok(())
        } else if 0xff10 <= address && address <= 0xff26 {
            // sound stub: the write is accepted and dropped
            Ok(())
        } else if 0xff40 <= address && address <= 0xff4a {
            self.video.set((address - 0xff40) as usize, val);
            assert(self@ =~= mem_write(old(self)@, address, val));
            Ok(())
        } else if 0xff80 <= address && address <= 0xfffe {
            self.hram.set((address - 0xff80) as usize, val);
            assert(self@ =~= mem_write(old(self)@, address, val));
            Ok(())
        } else if address == 0xffff {
            self.interrupt_enable = val;
            assert(self@ =~= mem_write(old(self)@, address, val));
            Ok(())
        } else if self.open_bus {
            Ok(())
        } else {
            Err(Fault::UnmappedAddress { address })
        }
    }

    /// Reads a little-endian 16-bit value: low byte at `address`, high byte
    /// at the following address (wrapping at the top of the space).
    pub fn read_word(&self, address: u16) -> (r: Result<u16, Fault>)
        requires
            self.wf(),
        ensures
            self@.open_bus || mapped_read16(address) ==> r == Ok::<u16, Fault>(
                mem_read16(self@, address),
            ),
            !(self@.open_bus || mapped_read(address)) ==> r == Err::<u16, Fault>(
                Fault::UnmappedAddress { address },
            ),
            (self@.open_bus || mapped_read(address)) && !(self@.open_bus || mapped_read(
                next_addr(address),
            )) ==> r == Err::<u16, Fault>(Fault::UnmappedAddress { address: next_addr(address) }),
    {
        let lo = match self.read(address) {
            Ok(v) => v,
            Err(e) => {
                return Err(e);
            },
        };
        let hi = match self.read(address.wrapping_add(1)) {
            Ok(v) => v,
            Err(e) => {
                return Err(e);
            },
        };
        Ok(lo as u16 + hi as u16 * 0x100)
    }

    /// Writes a little-endian 16-bit value: low byte to `address` first,
    /// then the high byte to the following address (wrapping at the top of
    /// the space).  On a fault at the second address the low byte stays
    /// written.
    pub fn write_word(&mut self, address: u16, val: u16) -> (r: Result<(), Fault>)
        requires
            old(self).wf(),
        ensures
            final(self).wf(),
            old(self)@.open_bus || mapped_write16(address) ==> r == Ok::<(), Fault>(())
                && final(self)@ == mem_write16(old(self)@, address, val),
            !(old(self)@.open_bus || mapped_write16(address)) ==> r is Err,
            !(old(self)@.open_bus || mapped_write(address)) ==> r == Err::<(), Fault>(
                Fault::UnmappedAddress { address },
            ) && final(self)@ == old(self)@,
            old(self)@.open_bus || mapped_write(address) ==> (!(old(self)@.open_bus
                || mapped_write(next_addr(address))) ==> r == Err::<(), Fault>(
                Fault::UnmappedAddress { address: next_addr(address) },
            ) && final(self)@ == mem_write(old(self)@, address, (val % 0x100) as u8)),
    {
        match self.write(address, (val % 0x100) as u8) {
            Ok(()) => {},
            Err(e) => {
                return Err(e);
            },
        }
        self.write(address.wrapping_add(1), (val / 0x100) as u8)
    }

    /// The interrupt request register (the byte at 0xFF0F).
    pub fn interrupt_flags(&self) -> (r: u8)
        ensures
            r == self@.iflag,
    {
        self.interrupt_flag
    }

    /// The interrupt enable register (the byte at 0xFFFF).
    pub fn enabled_interrupts(&self) -> (r: u8)
        ensures
            r == self@.ienable,
    {
        self.interrupt_enable
    }

    /// The set of interrupts both requested and enabled.
    pub fn pending_interrupts(&self) -> (r: u8)
        ensures
            r == spec_pending(self@.iflag, self@.ienable),
            r & 0xe0 == 0,
    {
        let a = self.interrupt_flag;
        let b = self.interrupt_enable;
        let r = a & b & 0x1f;
        assert(r & 0xe0 == 0) by (bit_vector)
            requires
                r == a & b & 0x1f,
        ;
        r
    }

    /// Clears one source's bit in the request register, leaving every other
    /// bit alone; the dispatcher calls this for exactly the interrupt it
    /// services.
    pub fn reset_interrupt_flag(&mut self, i: Interrupt)
        requires
            old(self).wf(),
        ensures
            final(self).wf(),
            final(self)@ == (MemState { iflag: old(self)@.iflag & !i.spec_mask(), ..old(self)@ }),
    {
        self.interrupt_flag = self.interrupt_flag & !i.mask();
        assert(self@ =~= (MemState { iflag: old(self)@.iflag & !i.spec_mask(), ..old(self)@ }));
    }

    /// Sets one source's bit in the request register; this is the hook a
    /// requesting peripheral (or a test) uses.
    pub fn request_interrupt(&mut self, i: Interrupt)
        requires
            old(self).wf(),
        ensures
            final(self).wf(),
            final(self)@ == (MemState { iflag: old(self)@.iflag | i.spec_mask(), ..old(self)@ }),
    {
        self.interrupt_flag = self.interrupt_flag | i.mask();
        assert(self@ =~= (MemState { iflag: old(self)@.iflag | i.spec_mask(), ..old(self)@ }));
    }
}

/// The bus as the dispatcher sees it: the plain byte and word accesses of
/// the `Mmu` plus the program-counter-coupled fetches, each of which reads
/// at the program counter and then advances it past what was consumed.
pub struct Mapper {
    pub mmu: Mmu,
}

impl Mapper {
    pub open spec fn wf(self) -> bool {
        self.mmu.wf()
    }

    pub fn new(mmu: Mmu) -> (r: Mapper)
        ensures
            r.mmu == mmu,
    {
        Mapper { mmu }
    }

    /// Reads one byte; see `Mmu::read`.
    pub fn read(&self, address: u16) -> (r: Result<u8, Fault>)
        requires
            self.wf(),
        ensures
            self.mmu@.open_bus || mapped_read(address) ==> r == Ok::<u8, Fault>(
                mem_read(self.mmu@, address),
            ),
            !(self.mmu@.open_bus || mapped_read(address)) ==> r == Err::<u8, Fault>(
                Fault::UnmappedAddress { address },
            ),
    {
        self.mmu.read(address)
    }

    /// Fetches the byte at the program counter and advances it by one.
    /// On a fault the program counter does not move.
    pub fn read_pc(&self, pc: &mut u16) -> (r: Result<u8, Fault>)
        requires
            self.wf(),
        ensures
            self.mmu@.open_bus || mapped_read(*old(pc)) ==> r == Ok::<u8, Fault>(
                mem_read(self.mmu@, *old(pc)),
            ) && *final(pc) == next_addr(*old(pc)),
            !(self.mmu@.open_bus || mapped_read(*old(pc))) ==> r == Err::<u8, Fault>(
                Fault::UnmappedAddress { address: *old(pc) },
            ) && *final(pc) == *old(pc),
    {
        match self.mmu.read(*pc) {
            Ok(v) => {
                *pc = pc.wrapping_add(1);
                Ok(v)
            },
            Err(e) => Err(e),
        }
    }

    /// Reads a little-endian 16-bit value; see `Mmu::read_word`.
    pub fn read_word(&self, address: u16) -> (r: Result<u16, Fault>)
        requires
            self.wf(),
        ensures
            self.mmu@.open_bus || mapped_read16(address) ==> r == Ok::<u16, Fault>(
                mem_read16(self.mmu@, address),
            ),
            !(self.mmu@.open_bus || mapped_read(address)) ==> r == Err::<u16, Fault>(
                Fault::UnmappedAddress { address },
            ),
            (self.mmu@.open_bus || mapped_read(address)) && !(self.mmu@.open_bus || mapped_read(
                next_addr(address),
            )) ==> r == Err::<u16, Fault>(Fault::UnmappedAddress { address: next_addr(address) }),
    {
        self.mmu.read_word(address)
    }

    /// Fetches the little-endian word at the program counter and advances
    /// it by two.  On a fault the program counter does not move.
    pub fn read_word_pc(&self, pc: &mut u16) -> (r: Result<u16, Fault>)
        requires
            self.wf(),
        ensures
            self.mmu@.open_bus || mapped_read16(*old(pc)) ==> r == Ok::<u16, Fault>(
                mem_read16(self.mmu@, *old(pc)),
            ) && *final(pc) == (*old(pc) + 2) % 0x10000,
            !(self.mmu@.open_bus || mapped_read16(*old(pc))) ==> *final(pc) == *old(pc),
            !(self.mmu@.open_bus || mapped_read(*old(pc))) ==> r == Err::<u16, Fault>(
                Fault::UnmappedAddress { address: *old(pc) },
            ),
            (self.mmu@.open_bus || mapped_read(*old(pc))) && !(self.mmu@.open_bus || mapped_read(
                next_addr(*old(pc)),
            )) ==> r == Err::<u16, Fault>(
                Fault::UnmappedAddress { address: next_addr(*old(pc)) },
            ),
    {
        match self.mmu.read_word(*pc) {
            Ok(v) => {
                *pc = pc.wrapping_add(2);
                Ok(v)
            },
            Err(e) => Err(e),
        }
    }

    /// Writes one byte; see `Mmu::write`.
    pub fn write(&mut self, address: u16, val: u8) -> (r: Result<(), Fault>)
        requires
            old(self).wf(),
        ensures
            final(self).wf(),
            old(self).mmu@.open_bus || mapped_write(address) ==> r == Ok::<(), Fault>(())
                && final(self).mmu@ == mem_write(old(self).mmu@, address, val),
            !(old(self).mmu@.open_bus || mapped_write(address)) ==> r == Err::<(), Fault>(
                Fault::UnmappedAddress { address },
            ) && final(self).mmu@ == old(self).mmu@,
    {
        self.mmu.write(address, val)
    }

    /// Writes a little-endian 16-bit value; see `Mmu::write_word`.
    pub fn write_word(&mut self, address: u16, val: u16) -> (r: Result<(), Fault>)
        requires
            old(self).wf(),
        ensures
            final(self).wf(),
            old(self).mmu@.open_bus || mapped_write16(address) ==> r == Ok::<(), Fault>(())
                && final(self).mmu@ == mem_write16(old(self).mmu@, address, val),
            !(old(self).mmu@.open_bus || mapped_write16(address)) ==> r is Err,
            !(old(self).mmu@.open_bus || mapped_write(address)) ==> r == Err::<(), Fault>(
                Fault::UnmappedAddress { address },
            ) && final(self).mmu@ == old(self).mmu@,
            old(self).mmu@.open_bus || mapped_write(address) ==> (!(old(self).mmu@.open_bus
                || mapped_write(next_addr(address))) ==> r == Err::<(), Fault>(
                Fault::UnmappedAddress { address: next_addr(address) },
            ) && final(self).mmu@ == mem_write(old(self).mmu@, address, (val % 0x100) as u8)),
    {
        self.mmu.write_word(address, val)
    }
}

} // verus!
