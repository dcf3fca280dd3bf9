use vstd::prelude::*;

use crate::cpu::{op_valid, Cpu};
use crate::semantics::spec_execute;
use crate::cycles::Cycles;
use crate::fault::Fault;
use crate::flags::Flags;
use crate::interrupts::{spec_highest_priority, spec_pending};
use crate::mmu::{mapped_read, mapped_write16, mem_read, mem_write16, next_addr, Mapper, MemState, Mmu};
use crate::ops::control::sp_minus2;
use crate::rom_info::{spec_mbc_type, spec_title, RomInfo};

verus! {

/// The assembled machine: the parsed header, the register file, and the
/// bus over the cartridge image.  The pacing loop outside the core owns
/// one of these, calls `step` repeatedly, and advances the peripherals
/// between calls.
pub struct Gameboy {
    pub info: RomInfo,
    pub cpu: Cpu,
    pub mapper: Mapper,
}

impl Gameboy {
    pub open spec fn wf(self) -> bool {
        self.mapper.wf()
    }

    /// Assembles the machine from a cartridge image: parses the header,
    /// seeds the register file from the header checksum, and hands the
    /// image to the bus.  The image must be at least one header long.
    pub fn new(rom: Vec<u8>) -> (r: Gameboy)
        requires
            rom@.len() >= 0x14e,
        ensures
            r.wf(),
            r.info.title@ == spec_title(rom@.subrange(0x134, 0x144)),
            r.info.mbc_type == spec_mbc_type(rom@[0x147]),
            r.info.checksum == rom@[0x14d],
            r.cpu.a == 0x01 && r.cpu.pc == 0x0100 && r.cpu.sp == 0xfffe,
            r.cpu.f == (Flags { z: true, n: false, h: rom@[0x14d] != 0, c: rom@[0x14d] != 0 }),
            !r.cpu.ime && !r.cpu.ime_delay && !r.cpu.halted,
            r.mapper.mmu@.rom == rom@,
            r.mapper.mmu@.iflag == 0 && r.mapper.mmu@.ienable == 0,
            !r.mapper.mmu@.open_bus,
    {
        let info = RomInfo::new(rom.as_slice());
        let cpu = Cpu::new(info.checksum);
        let mmu = Mmu::new(rom);
        Gameboy { info, cpu, mapper: Mapper::new(mmu) }
    }

    /// One dispatcher step; see `Cpu::step` for the path-by-path account.
    /// The clauses here restate the exactly pinned paths: interrupt
    /// service, the idle step while halted, and the fatal fault for an
    /// opcode with no table entry.
    pub fn step(&mut self) -> (r: Result<Cycles, Fault>)
        requires
            old(self).wf(),
        ensures
            final(self).wf(),
            final(self).info == old(self).info,
            r matches Ok(c) ==> 4 <= c.0 <= 24,
            ({
                let m0 = old(self).mapper.mmu@;
                let p = spec_pending(m0.iflag, m0.ienable);
                let dest = sp_minus2(old(self).cpu.sp);
                let pushed = mem_write16(m0, dest, old(self).cpu.pc);
                old(self).cpu.ime && p != 0 && (m0.open_bus || mapped_write16(dest)) ==> (
                spec_highest_priority(p) matches Some(hp) ==> r == Ok::<Cycles, Fault>(Cycles(20))
                    && final(self).cpu == (Cpu {
                    pc: hp.spec_vector(),
                    sp: dest,
                    ime: false,
                    halted: false,
                    ..old(self).cpu
                }) && final(self).mapper.mmu@ == (MemState {
                    iflag: pushed.iflag & !hp.spec_mask(),
                    ..pushed
                }))
            }),
            ({
                let m0 = old(self).mapper.mmu@;
                let p = spec_pending(m0.iflag, m0.ienable);
                old(self).cpu.halted && p == 0 ==> r == Ok::<Cycles, Fault>(Cycles(4)) && final(self).cpu == old(self).cpu && final(self).mapper.mmu@ == m0
            }),
            ({
                let m0 = old(self).mapper.mmu@;
                let p = spec_pending(m0.iflag, m0.ienable);
                let fp = !(old(self).cpu.ime && p != 0) && !(old(self).cpu.halted && p == 0);
                let op = mem_read(m0, old(self).cpu.pc);
                fp && (m0.open_bus || mapped_read(old(self).cpu.pc)) && !op_valid(op) ==> r
                    == Err::<Cycles, Fault>(
                    Fault::UnimplementedOpcode { opcode: op, pc: old(self).cpu.pc },
                ) && final(self).mapper.mmu@ == m0
            }),
            ({
                let m0 = old(self).mapper.mmu@;
                let p = spec_pending(m0.iflag, m0.ienable);
                let fp = !(old(self).cpu.ime && p != 0) && !(old(self).cpu.halted && p == 0);
                let op = mem_read(m0, old(self).cpu.pc);
                fp && (m0.open_bus || mapped_read(old(self).cpu.pc)) && op_valid(op) ==> ({
                    let resumed = Cpu {
                        ime: old(self).cpu.ime || old(self).cpu.ime_delay,
                        ime_delay: false,
                        halted: false,
                        pc: next_addr(old(self).cpu.pc),
                        ..old(self).cpu
                    };
                    let out = spec_execute(resumed, m0, op);
                    final(self).cpu == out.cpu && final(self).mapper.mmu@ == out.mem && r == out.r
                })
            }),
    {
        self.cpu.step(&mut self.mapper)
    }
}

} // verus!
