use vstd::prelude::*;

use crate::cycles::Cycles;
use crate::fault::Fault;
use crate::flags::Flags;
use crate::interrupts::{
    highest_priority, lemma_pending_resolves, spec_highest_priority, spec_pending,
};
use crate::mmu::{mapped_read, mapped_write16, mem_read, mem_write16, next_addr, Mapper, MemState};
use crate::ops::arithmetic_logic::{
    adc_a_hlptr, adc_a_n, adc_a_r, add_a_hlptr, add_a_n, add_a_r, add_hl_rr, add_hl_sp, add_sp_dd,
    and_hlptr, and_n, and_r, cp_hlptr, cp_n, cp_r, cpl, daa, dec_hlptr, dec_r, dec_rr, dec_sp,
    inc_hlptr, inc_r, inc_rr, inc_sp, ld_hl_sp_dd, or_hlptr, or_n, or_r, sbc_a_hlptr, sbc_a_n,
    sbc_a_r, sub_hlptr, sub_n, sub_r, xor_hlptr, xor_n, xor_r,
};
use crate::ops::bits::{
    bit_n_val, res_n_val, rl_val, rla, rlc_val, rlca, rr_val, rra, rrc_val, rrca, set_n_val,
    sla_val, sra_val, srl_val, swap_val,
};
use crate::ops::control::{
    call_f_nn, call_nn, ccf, jp_f_nn, jp_hl, jp_nn, jr, jr_if, nop, pop_af, pop_rr, push_rr, ret,
    ret_f, reti, rst_n, scf, sp_minus2,
};
use crate::ops::load::{
    ld_a_chptr, ld_a_hlptr_dec, ld_a_hlptr_inc, ld_a_nhptr, ld_a_nnptr, ld_chptr_a, ld_hlptr_dec_a,
    ld_hlptr_inc_a, ld_hlptr_n, ld_nhptr_a, ld_nnptr_a, ld_nnptr_sp, ld_r_rrptr,
    ld_rrptr_a, ld_sp_hl,
};
use crate::ops::{ld_r_n, ld_rr_nn, ld_sp_nn, rr};
use crate::semantics::{
    byte_signed, spec_exec_alu, spec_exec_cb, spec_exec_control, spec_exec_control_row0,
    spec_exec_control_row1, spec_exec_control_row2, spec_exec_control_row3, spec_exec_ld,
    spec_exec_misc, spec_exec_misc_row0, spec_exec_misc_row1, spec_exec_misc_row2,
    spec_exec_misc_row3, spec_execute,
};

verus! {

/// Whether an opcode byte has an entry in the base table.  Eleven bytes of
/// the base table decode to nothing on this processor; fetching one of
/// them is a fatal fault.  Every byte of the extended (0xCB-prefixed)
/// table decodes to an operation.
pub open spec fn op_valid(op: u8) -> bool {
    op != 0xd3 && op != 0xdb && op != 0xdd && op != 0xe3 && op != 0xe4 && op != 0xeb && op != 0xec
        && op != 0xed && op != 0xf4 && op != 0xfc && op != 0xfd
}

pub fn opcode_valid(op: u8) -> (r: bool)
    ensures
        r == op_valid(op),
{
    op != 0xd3 && op != 0xdb && op != 0xdd && op != 0xe3 && op != 0xe4 && op != 0xeb && op != 0xec
        && op != 0xed && op != 0xf4 && op != 0xfc && op != 0xfd
}

/// The register file and CPU state.  The fields are public: the debug and
/// trace boundary of the core is the state itself.
pub struct Cpu {
    pub a: u8,
    pub f: Flags,
    pub b: u8,
    pub c: u8,
    pub d: u8,
    pub e: u8,
    pub h: u8,
    pub l: u8,
    pub sp: u16,
    pub pc: u16,
    /// Interrupt master enable: the global switch on servicing.
    pub ime: bool,
    /// Set by the interrupt-enable instruction; the master enable turns
    /// on only after one more instruction has executed, matching the
    /// hardware's delay.  The disable instruction clears it, so enable
    /// immediately followed by disable never lets an interrupt through.
    pub ime_delay: bool,
    /// Low-power state entered by HALT; cleared as soon as a pending and
    /// enabled interrupt is observed, even while the master enable is off.
    pub halted: bool,
}

impl Cpu {
    /// The register numbered `idx` in the instruction encoding
    /// (b, c, d, e, h, l, -, a); index 6 stands for the byte at hl and is
    /// not a register.
    pub open spec fn spec_reg8(self, idx: u8) -> u8 {
        if idx == 0 {
            self.b
        } else if idx == 1 {
            self.c
        } else if idx == 2 {
            self.d
        } else if idx == 3 {
            self.e
        } else if idx == 4 {
            self.h
        } else if idx == 5 {
            self.l
        } else {
            self.a
        }
    }

    /// The state with register `idx` replaced.
    pub open spec fn spec_set_reg8(self, idx: u8, v: u8) -> Cpu {
        if idx == 0 {
            Cpu { b: v, ..self }
        } else if idx == 1 {
            Cpu { c: v, ..self }
        } else if idx == 2 {
            Cpu { d: v, ..self }
        } else if idx == 3 {
            Cpu { e: v, ..self }
        } else if idx == 4 {
            Cpu { h: v, ..self }
        } else if idx == 5 {
            Cpu { l: v, ..self }
        } else {
            Cpu { a: v, ..self }
        }
    }

    fn get_reg8(&self, idx: u8) -> (r: u8)
        requires
            idx < 8 && idx != 6,
        ensures
            r == self.spec_reg8(idx),
    {
        if idx == 0 {
            self.b
        } else if idx == 1 {
            self.c
        } else if idx == 2 {
            self.d
        } else if idx == 3 {
            self.e
        } else if idx == 4 {
            self.h
        } else if idx == 5 {
            self.l
        } else {
            self.a
        }
    }

    fn set_reg8(&mut self, idx: u8, v: u8)
        requires
            idx < 8 && idx != 6,
        ensures
            *final(self) == old(self).spec_set_reg8(idx, v),
    {
        if idx == 0 {
            self.b = v;
        } else if idx == 1 {
            self.c = v;
        } else if idx == 2 {
            self.d = v;
        } else if idx == 3 {
            self.e = v;
        } else if idx == 4 {
            self.h = v;
        } else if idx == 5 {
            self.l = v;
        } else {
            self.a = v;
        }
    }

    /// The post-boot register values; the initial flags depend on the
    /// cartridge header checksum byte.
    pub fn new(checksum: u8) -> (r: Cpu)
        ensures
            r.a == 0x01,
            r.f == (Flags { z: true, n: false, h: checksum != 0, c: checksum != 0 }),
            r.b == 0x00 && r.c == 0x13,
            r.d == 0x00 && r.e == 0xd8,
            r.h == 0x01 && r.l == 0x4d,
            r.sp == 0xfffe,
            r.pc == 0x0100,
            !r.ime && !r.ime_delay && !r.halted,
    {
        Cpu {
            a: 0x01,
            f: if checksum == 0 {
                Flags { z: true, n: false, h: false, c: false }
            } else {
                Flags { z: true, n: false, h: true, c: true }
            },
            b: 0x00,
            c: 0x13,
            d: 0x00,
            e: 0xd8,
            h: 0x01,
            l: 0x4d,
            sp: 0xfffe,
            pc: 0x0100,
            ime: false,
            ime_delay: false,
            halted: false,
        }
    }

    /// One step of the fetch-decode-execute loop: services at most one
    /// interrupt, or idles while halted, or executes exactly one
    /// instruction, and returns the elapsed cycles.
    ///
    /// The contract pins down each non-fetch path exactly: which interrupt
    /// is serviced and what it does to the state, the idle step while
    /// halted, the halt-resume rule, and the exact fault for an opcode
    /// with no table entry.  The per-instruction semantics of the execute
    /// path are the contracts of the operation functions this dispatcher
    /// calls.
    #[verifier::rlimit(100)]
    #[verifier::spinoff_prover]
    pub fn step(&mut self, mapper: &mut Mapper) -> (r: Result<Cycles, Fault>)
        requires
            old(mapper).wf(),
        ensures
            final(mapper).wf(),
            r matches Ok(c) ==> 4 <= c.0 <= 24,
            // Interrupt service: the master enable on and a pending,
            // enabled request.  The highest-priority source is serviced:
            // the master enable turns off, the return address goes on the
            // stack, the program counter jumps to the source's vector, and
            // only that source's request bit is cleared.  Exactly one
            // interrupt per step, 20 cycles.
            ({
                let m0 = old(mapper).mmu@;
                let p = spec_pending(m0.iflag, m0.ienable);
                let dest = sp_minus2(old(self).sp);
                let pushed = mem_write16(m0, dest, old(self).pc);
                old(self).ime && p != 0 ==> (spec_highest_priority(p) matches Some(hp) ==> {
                    &&& m0.open_bus || mapped_write16(dest) ==> r == Ok::<Cycles, Fault>(Cycles(20))
                        && *final(self) == (Cpu {
                        pc: hp.spec_vector(),
                        sp: dest,
                        ime: false,
                        halted: false,
                        ..*old(self)
                    }) && final(mapper).mmu@ == (MemState {
                        iflag: pushed.iflag & !hp.spec_mask(),
                        ..pushed
                    })
                    &&& !(m0.open_bus || mapped_write16(dest)) ==> r is Err && *final(self) == (Cpu {
                        sp: dest,
                        ime: false,
                        halted: false,
                        ..*old(self)
                    })
                })
            }),
            // Halted with nothing pending: four idle cycles, nothing moves.
            ({
                let m0 = old(mapper).mmu@;
                let p = spec_pending(m0.iflag, m0.ienable);
                old(self).halted && p == 0 ==> r == Ok::<Cycles, Fault>(Cycles(4)) && *final(self)
                    == *old(self) && final(mapper).mmu@ == m0
            }),
            // Halt resume: a pending, enabled request wakes the CPU even
            // while the master enable is off — the halted state can only
            // persist if the instruction then fetched is itself HALT or
            // STOP.
            ({
                let m0 = old(mapper).mmu@;
                let p = spec_pending(m0.iflag, m0.ienable);
                let op = mem_read(m0, old(self).pc);
                old(self).halted && p != 0 ==> !final(self).halted || op == 0x76 || op == 0x10
            }),
            // Fetch path, opcode fetch faulting: the bus fault, nothing
            // else moves (beyond the halt-resume and delayed-enable
            // bookkeeping).
            ({
                let m0 = old(mapper).mmu@;
                let p = spec_pending(m0.iflag, m0.ienable);
                let fp = !(old(self).ime && p != 0) && !(old(self).halted && p == 0);
                fp && !(m0.open_bus || mapped_read(old(self).pc)) ==> r == Err::<Cycles, Fault>(
                    Fault::UnmappedAddress { address: old(self).pc },
                ) && final(mapper).mmu@ == m0 && *final(self) == (Cpu {
                    ime: old(self).ime || old(self).ime_delay,
                    ime_delay: false,
                    halted: false,
                    ..*old(self)
                })
            }),
            // Fetch-execute path: with a readable, valid opcode the step
            // behaves exactly as the spec-level decode of that opcode
            // (`spec_execute`), started from the state with the halted
            // flag cleared, the delayed enable applied, and the program
            // counter moved past the opcode byte.
            ({
                let m0 = old(mapper).mmu@;
                let p = spec_pending(m0.iflag, m0.ienable);
                let fp = !(old(self).ime && p != 0) && !(old(self).halted && p == 0);
                let op = mem_read(m0, old(self).pc);
                fp && (m0.open_bus || mapped_read(old(self).pc)) && op_valid(op) ==> ({
                    let resumed = Cpu {
                        ime: old(self).ime || old(self).ime_delay,
                        ime_delay: false,
                        halted: false,
                        pc: next_addr(old(self).pc),
                        ..*old(self)
                    };
                    let out = spec_execute(resumed, m0, op);
                    *final(self) == out.cpu && final(mapper).mmu@ == out.mem && r == out.r
                })
            }),
            // Fetch path, opcode with no table entry: fatal, reporting the
            // opcode byte and the program counter it was fetched from,
            // with the state otherwise untouched.
            ({
                let m0 = old(mapper).mmu@;
                let p = spec_pending(m0.iflag, m0.ienable);
                let fp = !(old(self).ime && p != 0) && !(old(self).halted && p == 0);
                let op = mem_read(m0, old(self).pc);
                fp && (m0.open_bus || mapped_read(old(self).pc)) && !op_valid(op) ==> r == Err::<
                    Cycles,
                    Fault,
                >(Fault::UnimplementedOpcode { opcode: op, pc: old(self).pc }) && final(mapper).mmu@ == m0 && *final(self) == (Cpu {
                    ime: old(self).ime || old(self).ime_delay,
                    ime_delay: false,
                    halted: false,
                    ..*old(self)
                })
            }),
    {
        let pend = mapper.mmu.pending_interrupts();
        if (self.ime || self.halted) && pend != 0 {
            self.halted = false;
            if self.ime {
                proof {
                    lemma_pending_resolves(old(mapper).mmu@.iflag, old(mapper).mmu@.ienable);
                }
                let hp = highest_priority(pend).unwrap();
                self.ime = false;
                let dest: u16 = ((self.sp as u32 + 0xfffe) % 0x10000) as u16;
                self.sp = dest;
                match mapper.write_word(dest, self.pc) {
                    Ok(()) => {},
                    Err(e) => {
                        return Err(e);
                    },
                }
                self.pc = hp.vector();
                mapper.mmu.reset_interrupt_flag(hp);
                return Ok(Cycles(20));
            }
        }
        if self.halted {
            return Ok(Cycles(4));
        }
        // The delayed interrupt-enable takes effect here: after the
        // interrupt check, before the next instruction runs, so the
        // instruction after the enabling one always executes, and a
        // disable there wins.
        if self.ime_delay {
            self.ime = true;
            self.ime_delay = false;
        }
        let pc0 = self.pc;
        let op = match mapper.read(pc0) {
            Ok(v) => v,
            Err(e) => {
                return Err(e);
            },
        };
        if !opcode_valid(op) {
            return Err(Fault::UnimplementedOpcode { opcode: op, pc: pc0 });
        }
        self.pc = pc0.wrapping_add(1);
        proof {
            assert(*self == (Cpu {
                ime: old(self).ime || old(self).ime_delay,
                ime_delay: false,
                halted: false,
                pc: next_addr(old(self).pc),
                ..*old(self)
            }));
        }
        self.execute(op, mapper)
    }

    /// Executes one decoded base-table opcode.  Immediate operands and
    /// addresses are fetched from the bus in left-to-right order, each
    /// fetch advancing the program counter.
    fn execute(&mut self, op: u8, mapper: &mut Mapper) -> (r: Result<Cycles, Fault>)
        requires
            op_valid(op),
            old(mapper).wf(),
        ensures
            final(mapper).wf(),
            r matches Ok(c) ==> 4 <= c.0 <= 24,
            final(self).halted ==> old(self).halted || op == 0x76 || op == 0x10,
            final(self).ime != old(self).ime ==> op == 0xf3 || op == 0xd9,
            final(self).ime_delay != old(self).ime_delay ==> op == 0xf3 || op == 0xfb,
            ({
                let out = spec_execute(*old(self), old(mapper).mmu@, op);
                *final(self) == out.cpu && final(mapper).mmu@ == out.mem && r == out.r
            }),
    {
        proof {
            reveal(spec_execute);
        }
        match op {
            // --- 0x40-0x7f: the 8-bit load block, with HALT at 0x76 ---
            0x76 => {
                self.halted = true;
                Ok(Cycles(4))
            },
            0x40..=0x75 | 0x77..=0x7f => self.exec_ld_block(op, mapper),
            // --- 0x80-0xbf: the 8-bit arithmetic/logic block ---
            0x80..=0xbf => self.exec_alu_block(op, mapper),
            // --- the extended-table prefix ---
            0xcb => self.exec_cb(mapper),
            // --- 0x00-0x3f: loads, 16-bit arithmetic, rotates, misc ---
            0x00..=0x3f => self.exec_misc(op, mapper),
            // --- 0xc0-0xff: stack, jumps, calls, immediates, control ---
            _ => self.exec_control(op, mapper),
        }
    }

    /// The 0x00-0x3F quarter of the base table.
    #[verifier::rlimit(100)]
    #[verifier::spinoff_prover]
    /// The 0x00-0x3F quarter of the base table, row by row.
    fn exec_misc(&mut self, op: u8, mapper: &mut Mapper) -> (r: Result<Cycles, Fault>)
        requires
            op < 0x40,
            old(mapper).wf(),
        ensures
            final(mapper).wf(),
            r matches Ok(c) ==> 4 <= c.0 <= 20,
            final(self).halted ==> old(self).halted || op == 0x10,
            final(self).ime == old(self).ime && final(self).ime_delay == old(self).ime_delay,
            ({
                let out = spec_exec_misc(*old(self), old(mapper).mmu@, op);
                *final(self) == out.cpu && final(mapper).mmu@ == out.mem && r == out.r
            }),
    {
        if op < 0x10 {
            self.exec_misc_row0(op, mapper)
        } else if op < 0x20 {
            self.exec_misc_row1(op, mapper)
        } else if op < 0x30 {
            self.exec_misc_row2(op, mapper)
        } else {
            self.exec_misc_row3(op, mapper)
        }
    }

    #[verifier::rlimit(100)]
    #[verifier::spinoff_prover]
    fn exec_misc_row0(&mut self, op: u8, mapper: &mut Mapper) -> (r: Result<Cycles, Fault>)
        requires
            0x0 <= op <= 0xf,
            old(mapper).wf(),
        ensures
            final(mapper).wf(),
            r matches Ok(c) ==> 4 <= c.0 <= 20,
            final(self).halted ==> old(self).halted || op == 0x10,
            final(self).ime == old(self).ime && final(self).ime_delay == old(self).ime_delay,
            ({
                let out = spec_exec_misc_row0(*old(self), old(mapper).mmu@, op);
                *final(self) == out.cpu && final(mapper).mmu@ == out.mem && r == out.r
            }),
    {
        match op {
            0x00 => Ok(nop()),
            0x01 => {
                let nn = mapper.read_word_pc(&mut self.pc)?;
                Ok(ld_rr_nn(&mut self.b, &mut self.c, nn))
            },
            0x02 => ld_rrptr_a(self.b, self.c, self.a, mapper),
            0x03 => Ok(inc_rr(&mut self.b, &mut self.c)),
            0x04 => Ok(inc_r(&mut self.b, &mut self.f)),
            0x05 => Ok(dec_r(&mut self.b, &mut self.f)),
            0x06 => {
                let n = mapper.read_pc(&mut self.pc)?;
                Ok(ld_r_n(&mut self.b, n))
            },
            0x07 => Ok(rlca(&mut self.a, &mut self.f)),
            0x08 => {
                let nn = mapper.read_word_pc(&mut self.pc)?;
                ld_nnptr_sp(nn, self.sp, mapper)
            },
            0x09 => Ok(add_hl_rr(&mut self.h, &mut self.l, self.b, self.c, &mut self.f)),
            0x0a => ld_r_rrptr(&mut self.a, self.b, self.c, mapper),
            0x0b => Ok(dec_rr(&mut self.b, &mut self.c)),
            0x0c => Ok(inc_r(&mut self.c, &mut self.f)),
            0x0d => Ok(dec_r(&mut self.c, &mut self.f)),
            0x0e => {
                let n = mapper.read_pc(&mut self.pc)?;
                Ok(ld_r_n(&mut self.c, n))
            },
            0x0f => Ok(rrca(&mut self.a, &mut self.f)),
            _ => {
                // every remaining byte of this row is unreachable here
                proof {
                    assert(false);
                }
                Err(Fault::UnimplementedOpcode { opcode: op, pc: self.pc })
            },
        }
    }

    fn exec_misc_row1(&mut self, op: u8, mapper: &mut Mapper) -> (r: Result<Cycles, Fault>)
        requires
            0x10 <= op <= 0x1f,
            old(mapper).wf(),
        ensures
            final(mapper).wf(),
            r matches Ok(c) ==> 4 <= c.0 <= 20,
            final(self).halted ==> old(self).halted || op == 0x10,
            final(self).ime == old(self).ime && final(self).ime_delay == old(self).ime_delay,
            ({
                let out = spec_exec_misc_row1(*old(self), old(mapper).mmu@, op);
                *final(self) == out.cpu && final(mapper).mmu@ == out.mem && r == out.r
            }),
    {
        if op < 0x18 {
            self.exec_misc_row1_lo(op, mapper)
        } else {
            self.exec_misc_row1_hi(op, mapper)
        }
    }

    #[verifier::rlimit(100)]
    #[verifier::spinoff_prover]
    fn exec_misc_row1_lo(&mut self, op: u8, mapper: &mut Mapper) -> (r: Result<Cycles, Fault>)
        requires
            0x10 <= op <= 0x17,
            old(mapper).wf(),
        ensures
            final(mapper).wf(),
            r matches Ok(c) ==> 4 <= c.0 <= 20,
            final(self).halted ==> old(self).halted || op == 0x10,
            final(self).ime == old(self).ime && final(self).ime_delay == old(self).ime_delay,
            ({
                let out = spec_exec_misc_row1(*old(self), old(mapper).mmu@, op);
                *final(self) == out.cpu && final(mapper).mmu@ == out.mem && r == out.r
            }),
    {
        match op {
            0x10 => {
                // STOP enters the low-power state like HALT; its second
                // instruction byte is consumed.
                let _n = mapper.read_pc(&mut self.pc)?;
                self.halted = true;
                Ok(Cycles(4))
            },
            0x11 => {
                let nn = mapper.read_word_pc(&mut self.pc)?;
                Ok(ld_rr_nn(&mut self.d, &mut self.e, nn))
            },
            0x12 => ld_rrptr_a(self.d, self.e, self.a, mapper),
            0x13 => Ok(inc_rr(&mut self.d, &mut self.e)),
            0x14 => Ok(inc_r(&mut self.d, &mut self.f)),
            0x15 => Ok(dec_r(&mut self.d, &mut self.f)),
            0x16 => {
                let n = mapper.read_pc(&mut self.pc)?;
                Ok(ld_r_n(&mut self.d, n))
            },
            0x17 => Ok(rla(&mut self.a, &mut self.f)),
            _ => {
                // every remaining byte of this half-row is unreachable here
                proof {
                    assert(false);
                }
                Err(Fault::UnimplementedOpcode { opcode: op, pc: self.pc })
            },
        }
    }

    #[verifier::rlimit(100)]
    #[verifier::spinoff_prover]
    fn exec_misc_row1_hi(&mut self, op: u8, mapper: &mut Mapper) -> (r: Result<Cycles, Fault>)
        requires
            0x18 <= op <= 0x1f,
            old(mapper).wf(),
        ensures
            final(mapper).wf(),
            r matches Ok(c) ==> 4 <= c.0 <= 20,
            final(self).halted ==> old(self).halted || op == 0x10,
            final(self).ime == old(self).ime && final(self).ime_delay == old(self).ime_delay,
            ({
                let out = spec_exec_misc_row1(*old(self), old(mapper).mmu@, op);
                *final(self) == out.cpu && final(mapper).mmu@ == out.mem && r == out.r
            }),
    {
        match op {
            0x18 => {
                let d = mapper.read_pc(&mut self.pc)?;
                Ok(jr(&mut self.pc, d))
            },
            0x19 => Ok(add_hl_rr(&mut self.h, &mut self.l, self.d, self.e, &mut self.f)),
            0x1a => ld_r_rrptr(&mut self.a, self.d, self.e, mapper),
            0x1b => Ok(dec_rr(&mut self.d, &mut self.e)),
            0x1c => Ok(inc_r(&mut self.e, &mut self.f)),
            0x1d => Ok(dec_r(&mut self.e, &mut self.f)),
            0x1e => {
                let n = mapper.read_pc(&mut self.pc)?;
                Ok(ld_r_n(&mut self.e, n))
            },
            0x1f => Ok(rra(&mut self.a, &mut self.f)),
            _ => {
                // every remaining byte of this half-row is unreachable here
                proof {
                    assert(false);
                }
                Err(Fault::UnimplementedOpcode { opcode: op, pc: self.pc })
            },
        }
    }

    #[verifier::rlimit(100)]
    #[verifier::spinoff_prover]
    fn exec_misc_row2(&mut self, op: u8, mapper: &mut Mapper) -> (r: Result<Cycles, Fault>)
        requires
            0x20 <= op <= 0x2f,
            old(mapper).wf(),
        ensures
            final(mapper).wf(),
            r matches Ok(c) ==> 4 <= c.0 <= 20,
            final(self).halted ==> old(self).halted || op == 0x10,
            final(self).ime == old(self).ime && final(self).ime_delay == old(self).ime_delay,
            ({
                let out = spec_exec_misc_row2(*old(self), old(mapper).mmu@, op);
                *final(self) == out.cpu && final(mapper).mmu@ == out.mem && r == out.r
            }),
    {
        match op {
            0x20 => {
                let d = mapper.read_pc(&mut self.pc)?;
                let z = self.f.z;
                Ok(jr_if(&mut self.pc, d, !z))
            },
            0x21 => {
                let nn = mapper.read_word_pc(&mut self.pc)?;
                Ok(ld_rr_nn(&mut self.h, &mut self.l, nn))
            },
            0x22 => ld_hlptr_inc_a(&mut self.h, &mut self.l, self.a, mapper),
            0x23 => Ok(inc_rr(&mut self.h, &mut self.l)),
            0x24 => Ok(inc_r(&mut self.h, &mut self.f)),
            0x25 => Ok(dec_r(&mut self.h, &mut self.f)),
            0x26 => {
                let n = mapper.read_pc(&mut self.pc)?;
                Ok(ld_r_n(&mut self.h, n))
            },
            0x27 => Ok(daa(&mut self.a, &mut self.f)),
            0x28 => {
                let d = mapper.read_pc(&mut self.pc)?;
                let z = self.f.z;
                Ok(jr_if(&mut self.pc, d, z))
            },
            0x29 => {
                let h0 = self.h;
                let l0 = self.l;
                Ok(add_hl_rr(&mut self.h, &mut self.l, h0, l0, &mut self.f))
            },
            0x2a => ld_a_hlptr_inc(&mut self.a, &mut self.h, &mut self.l, mapper),
            0x2b => Ok(dec_rr(&mut self.h, &mut self.l)),
            0x2c => Ok(inc_r(&mut self.l, &mut self.f)),
            0x2d => Ok(dec_r(&mut self.l, &mut self.f)),
            0x2e => {
                let n = mapper.read_pc(&mut self.pc)?;
                Ok(ld_r_n(&mut self.l, n))
            },
            0x2f => Ok(cpl(&mut self.a, &mut self.f)),
            _ => {
                // every remaining byte of this row is unreachable here
                proof {
                    assert(false);
                }
                Err(Fault::UnimplementedOpcode { opcode: op, pc: self.pc })
            },
        }
    }

    #[verifier::rlimit(100)]
    #[verifier::spinoff_prover]
    fn exec_misc_row3(&mut self, op: u8, mapper: &mut Mapper) -> (r: Result<Cycles, Fault>)
        requires
            0x30 <= op <= 0x3f,
            old(mapper).wf(),
        ensures
            final(mapper).wf(),
            r matches Ok(c) ==> 4 <= c.0 <= 20,
            final(self).halted ==> old(self).halted || op == 0x10,
            final(self).ime == old(self).ime && final(self).ime_delay == old(self).ime_delay,
            ({
                let out = spec_exec_misc_row3(*old(self), old(mapper).mmu@, op);
                *final(self) == out.cpu && final(mapper).mmu@ == out.mem && r == out.r
            }),
    {
        match op {
            0x30 => {
                let d = mapper.read_pc(&mut self.pc)?;
                let c = self.f.c;
                Ok(jr_if(&mut self.pc, d, !c))
            },
            0x31 => {
                let nn = mapper.read_word_pc(&mut self.pc)?;
                Ok(ld_sp_nn(&mut self.sp, nn))
            },
            0x32 => ld_hlptr_dec_a(&mut self.h, &mut self.l, self.a, mapper),
            0x33 => Ok(inc_sp(&mut self.sp)),
            0x34 => inc_hlptr(self.h, self.l, &mut self.f, mapper),
            0x35 => dec_hlptr(self.h, self.l, &mut self.f, mapper),
            0x36 => {
                let n = mapper.read_pc(&mut self.pc)?;
                ld_hlptr_n(self.h, self.l, n, mapper)
            },
            0x37 => Ok(scf(&mut self.f)),
            0x38 => {
                let d = mapper.read_pc(&mut self.pc)?;
                let c = self.f.c;
                Ok(jr_if(&mut self.pc, d, c))
            },
            0x39 => Ok(add_hl_sp(&mut self.h, &mut self.l, self.sp, &mut self.f)),
            0x3a => ld_a_hlptr_dec(&mut self.a, &mut self.h, &mut self.l, mapper),
            0x3b => Ok(dec_sp(&mut self.sp)),
            0x3c => Ok(inc_r(&mut self.a, &mut self.f)),
            0x3d => Ok(dec_r(&mut self.a, &mut self.f)),
            0x3e => {
                let n = mapper.read_pc(&mut self.pc)?;
                Ok(ld_r_n(&mut self.a, n))
            },
            0x3f => Ok(ccf(&mut self.f)),
            _ => {
                // every remaining byte of this row is unreachable here
                proof {
                    assert(false);
                }
                Err(Fault::UnimplementedOpcode { opcode: op, pc: self.pc })
            },
        }
    }


    /// The 0xC0-0xFF quarter of the base table (the extended-table prefix
    /// excluded).
    #[verifier::rlimit(100)]
    #[verifier::spinoff_prover]
    /// The 0xC0-0xFF quarter of the base table (the extended-table prefix
    /// excluded), row by row.
    fn exec_control(&mut self, op: u8, mapper: &mut Mapper) -> (r: Result<Cycles, Fault>)
        requires
            0xc0 <= op,
            op != 0xcb,
            op_valid(op),
            old(mapper).wf(),
        ensures
            final(mapper).wf(),
            r matches Ok(c) ==> 4 <= c.0 <= 24,
            final(self).halted == old(self).halted,
            final(self).ime != old(self).ime ==> op == 0xf3 || op == 0xd9,
            final(self).ime_delay != old(self).ime_delay ==> op == 0xf3 || op == 0xfb,
            ({
                let out = spec_exec_control(*old(self), old(mapper).mmu@, op);
                *final(self) == out.cpu && final(mapper).mmu@ == out.mem && r == out.r
            }),
    {
        if op < 0xd0 {
            self.exec_control_row0(op, mapper)
        } else if op < 0xe0 {
            self.exec_control_row1(op, mapper)
        } else if op < 0xf0 {
            self.exec_control_row2(op, mapper)
        } else {
            self.exec_control_row3(op, mapper)
        }
    }

    #[verifier::rlimit(100)]
    #[verifier::spinoff_prover]
    fn exec_control_row0(&mut self, op: u8, mapper: &mut Mapper) -> (r: Result<Cycles, Fault>)
        requires
            0xc0 <= op <= 0xcf,
            op != 0xcb,
            old(mapper).wf(),
        ensures
            final(mapper).wf(),
            r matches Ok(c) ==> 4 <= c.0 <= 24,
            final(self).halted == old(self).halted,
            final(self).ime != old(self).ime ==> op == 0xf3 || op == 0xd9,
            final(self).ime_delay != old(self).ime_delay ==> op == 0xf3 || op == 0xfb,
            ({
                let out = spec_exec_control_row0(*old(self), old(mapper).mmu@, op);
                *final(self) == out.cpu && final(mapper).mmu@ == out.mem && r == out.r
            }),
    {
        match op {
            0xc0 => {
                let z = self.f.z;
                ret_f(&mut self.pc, &mut self.sp, !z, mapper)
            },
            0xc1 => pop_rr(&mut self.b, &mut self.c, &mut self.sp, mapper),
            0xc2 => {
                let nn = mapper.read_word_pc(&mut self.pc)?;
                let z = self.f.z;
                Ok(jp_f_nn(&mut self.pc, !z, nn))
            },
            0xc3 => {
                let nn = mapper.read_word_pc(&mut self.pc)?;
                Ok(jp_nn(&mut self.pc, nn))
            },
            0xc4 => {
                let nn = mapper.read_word_pc(&mut self.pc)?;
                let z = self.f.z;
                call_f_nn(&mut self.pc, &mut self.sp, !z, nn, mapper)
            },
            0xc5 => push_rr(self.b, self.c, &mut self.sp, mapper),
            0xc6 => {
                let n = mapper.read_pc(&mut self.pc)?;
                Ok(add_a_n(&mut self.a, n, &mut self.f))
            },
            0xc7 => rst_n(&mut self.pc, &mut self.sp, 0x00, mapper),
            0xc8 => {
                let z = self.f.z;
                ret_f(&mut self.pc, &mut self.sp, z, mapper)
            },
            0xc9 => ret(&mut self.pc, &mut self.sp, mapper),
            0xca => {
                let nn = mapper.read_word_pc(&mut self.pc)?;
                let z = self.f.z;
                Ok(jp_f_nn(&mut self.pc, z, nn))
            },
            0xcc => {
                let nn = mapper.read_word_pc(&mut self.pc)?;
                let z = self.f.z;
                call_f_nn(&mut self.pc, &mut self.sp, z, nn, mapper)
            },
            0xcd => {
                let nn = mapper.read_word_pc(&mut self.pc)?;
                call_nn(&mut self.pc, &mut self.sp, nn, mapper)
            },
            0xce => {
                let n = mapper.read_pc(&mut self.pc)?;
                Ok(adc_a_n(&mut self.a, n, &mut self.f))
            },
            0xcf => rst_n(&mut self.pc, &mut self.sp, 0x08, mapper),
            _ => {
                // every remaining byte of this row is unreachable here
                proof {
                    assert(false);
                }
                Err(Fault::UnimplementedOpcode { opcode: op, pc: self.pc })
            },
        }
    }

    fn exec_control_row1(&mut self, op: u8, mapper: &mut Mapper) -> (r: Result<Cycles, Fault>)
        requires
            0xd0 <= op <= 0xdf,
            op_valid(op),
            old(mapper).wf(),
        ensures
            final(mapper).wf(),
            r matches Ok(c) ==> 4 <= c.0 <= 24,
            final(self).halted == old(self).halted,
            final(self).ime != old(self).ime ==> op == 0xf3 || op == 0xd9,
            final(self).ime_delay != old(self).ime_delay ==> op == 0xf3 || op == 0xfb,
            ({
                let out = spec_exec_control_row1(*old(self), old(mapper).mmu@, op);
                *final(self) == out.cpu && final(mapper).mmu@ == out.mem && r == out.r
            }),
    {
        if op < 0xd8 {
            self.exec_control_row1_lo(op, mapper)
        } else {
            self.exec_control_row1_hi(op, mapper)
        }
    }

    #[verifier::rlimit(100)]
    #[verifier::spinoff_prover]
    fn exec_control_row1_lo(&mut self, op: u8, mapper: &mut Mapper) -> (r: Result<Cycles, Fault>)
        requires
            0xd0 <= op <= 0xd7,
            op_valid(op),
            old(mapper).wf(),
        ensures
            final(mapper).wf(),
            r matches Ok(c) ==> 4 <= c.0 <= 24,
            final(self).halted == old(self).halted,
            final(self).ime != old(self).ime ==> op == 0xf3 || op == 0xd9,
            final(self).ime_delay != old(self).ime_delay ==> op == 0xf3 || op == 0xfb,
            ({
                let out = spec_exec_control_row1(*old(self), old(mapper).mmu@, op);
                *final(self) == out.cpu && final(mapper).mmu@ == out.mem && r == out.r
            }),
    {
        match op {
            0xd0 => {
                let c = self.f.c;
                ret_f(&mut self.pc, &mut self.sp, !c, mapper)
            },
            0xd1 => pop_rr(&mut self.d, &mut self.e, &mut self.sp, mapper),
            0xd2 => {
                let nn = mapper.read_word_pc(&mut self.pc)?;
                let c = self.f.c;
                Ok(jp_f_nn(&mut self.pc, !c, nn))
            },
            0xd4 => {
                let nn = mapper.read_word_pc(&mut self.pc)?;
                let c = self.f.c;
                call_f_nn(&mut self.pc, &mut self.sp, !c, nn, mapper)
            },
            0xd5 => push_rr(self.d, self.e, &mut self.sp, mapper),
            0xd6 => {
                let n = mapper.read_pc(&mut self.pc)?;
                Ok(sub_n(&mut self.a, n, &mut self.f))
            },
            0xd7 => rst_n(&mut self.pc, &mut self.sp, 0x10, mapper),
            _ => {
                // every remaining byte of this span is unreachable here
                proof {
                    assert(false);
                }
                Err(Fault::UnimplementedOpcode { opcode: op, pc: self.pc })
            },
        }
    }

    #[verifier::rlimit(100)]
    #[verifier::spinoff_prover]
    fn exec_control_row1_hi(&mut self, op: u8, mapper: &mut Mapper) -> (r: Result<Cycles, Fault>)
        requires
            0xd8 <= op <= 0xdf,
            op_valid(op),
            old(mapper).wf(),
        ensures
            final(mapper).wf(),
            r matches Ok(c) ==> 4 <= c.0 <= 24,
            final(self).halted == old(self).halted,
            final(self).ime != old(self).ime ==> op == 0xf3 || op == 0xd9,
            final(self).ime_delay != old(self).ime_delay ==> op == 0xf3 || op == 0xfb,
            ({
                let out = spec_exec_control_row1(*old(self), old(mapper).mmu@, op);
                *final(self) == out.cpu && final(mapper).mmu@ == out.mem && r == out.r
            }),
    {
        match op {
            0xd8 => {
                let c = self.f.c;
                ret_f(&mut self.pc, &mut self.sp, c, mapper)
            },
            0xd9 => reti(&mut self.pc, &mut self.sp, &mut self.ime, mapper),
            0xda => {
                let nn = mapper.read_word_pc(&mut self.pc)?;
                let c = self.f.c;
                Ok(jp_f_nn(&mut self.pc, c, nn))
            },
            0xdc => {
                let nn = mapper.read_word_pc(&mut self.pc)?;
                let c = self.f.c;
                call_f_nn(&mut self.pc, &mut self.sp, c, nn, mapper)
            },
            0xde => {
                let n = mapper.read_pc(&mut self.pc)?;
                Ok(sbc_a_n(&mut self.a, n, &mut self.f))
            },
            0xdf => rst_n(&mut self.pc, &mut self.sp, 0x18, mapper),
            _ => {
                // every remaining byte of this span is unreachable here
                proof {
                    assert(false);
                }
                Err(Fault::UnimplementedOpcode { opcode: op, pc: self.pc })
            },
        }
    }

    fn exec_control_row2(&mut self, op: u8, mapper: &mut Mapper) -> (r: Result<Cycles, Fault>)
        requires
            0xe0 <= op <= 0xef,
            op_valid(op),
            old(mapper).wf(),
        ensures
            final(mapper).wf(),
            r matches Ok(c) ==> 4 <= c.0 <= 24,
            final(self).halted == old(self).halted,
            final(self).ime != old(self).ime ==> op == 0xf3 || op == 0xd9,
            final(self).ime_delay != old(self).ime_delay ==> op == 0xf3 || op == 0xfb,
            ({
                let out = spec_exec_control_row2(*old(self), old(mapper).mmu@, op);
                *final(self) == out.cpu && final(mapper).mmu@ == out.mem && r == out.r
            }),
    {
        if op < 0xe8 {
            self.exec_control_row2_lo(op, mapper)
        } else if op < 0xeb {
            self.exec_control_row2_mid(op, mapper)
        } else {
            self.exec_control_row2_top(op, mapper)
        }
    }

    #[verifier::rlimit(100)]
    #[verifier::spinoff_prover]
    fn exec_control_row2_lo(&mut self, op: u8, mapper: &mut Mapper) -> (r: Result<Cycles, Fault>)
        requires
            0xe0 <= op <= 0xe7,
            op_valid(op),
            old(mapper).wf(),
        ensures
            final(mapper).wf(),
            r matches Ok(c) ==> 4 <= c.0 <= 24,
            final(self).halted == old(self).halted,
            final(self).ime != old(self).ime ==> op == 0xf3 || op == 0xd9,
            final(self).ime_delay != old(self).ime_delay ==> op == 0xf3 || op == 0xfb,
            ({
                let out = spec_exec_control_row2(*old(self), old(mapper).mmu@, op);
                *final(self) == out.cpu && final(mapper).mmu@ == out.mem && r == out.r
            }),
    {
        match op {
            0xe0 => {
                let n = mapper.read_pc(&mut self.pc)?;
                ld_nhptr_a(n, self.a, mapper)
            },
            0xe1 => pop_rr(&mut self.h, &mut self.l, &mut self.sp, mapper),
            0xe2 => ld_chptr_a(self.c, self.a, mapper),
            0xe5 => push_rr(self.h, self.l, &mut self.sp, mapper),
            0xe6 => {
                let n = mapper.read_pc(&mut self.pc)?;
                Ok(and_n(&mut self.a, n, &mut self.f))
            },
            0xe7 => rst_n(&mut self.pc, &mut self.sp, 0x20, mapper),
            _ => {
                // every remaining byte of this half-row is unreachable here
                proof {
                    assert(false);
                }
                Err(Fault::UnimplementedOpcode { opcode: op, pc: self.pc })
            },
        }
    }

    #[verifier::rlimit(100)]
    #[verifier::spinoff_prover]
    fn exec_control_row2_mid(&mut self, op: u8, mapper: &mut Mapper) -> (r: Result<Cycles, Fault>)
        requires
            0xe8 <= op <= 0xea,
            op_valid(op),
            old(mapper).wf(),
        ensures
            final(mapper).wf(),
            r matches Ok(c) ==> 4 <= c.0 <= 24,
            final(self).halted == old(self).halted,
            final(self).ime != old(self).ime ==> op == 0xf3 || op == 0xd9,
            final(self).ime_delay != old(self).ime_delay ==> op == 0xf3 || op == 0xfb,
            ({
                let out = spec_exec_control_row2(*old(self), old(mapper).mmu@, op);
                *final(self) == out.cpu && final(mapper).mmu@ == out.mem && r == out.r
            }),
    {
        match op {
            0xe8 => {
                let n = mapper.read_pc(&mut self.pc)?;
                let dd: i8 = if n < 0x80 {
                    n as i8
                } else {
                    ((n as i16) - 256) as i8
                };
                proof {
                    assert(dd as int == byte_signed(n));
                }
                Ok(add_sp_dd(&mut self.sp, dd, &mut self.f))
            },
            0xe9 => Ok(jp_hl(&mut self.pc, self.h, self.l)),
            0xea => {
                let nn = mapper.read_word_pc(&mut self.pc)?;
                ld_nnptr_a(nn, self.a, mapper)
            },
            _ => {
                // every remaining byte of this span is unreachable here
                proof {
                    assert(false);
                }
                Err(Fault::UnimplementedOpcode { opcode: op, pc: self.pc })
            },
        }
    }

    #[verifier::rlimit(100)]
    #[verifier::spinoff_prover]
    fn exec_control_row2_top(&mut self, op: u8, mapper: &mut Mapper) -> (r: Result<Cycles, Fault>)
        requires
            0xeb <= op <= 0xef,
            op_valid(op),
            old(mapper).wf(),
        ensures
            final(mapper).wf(),
            r matches Ok(c) ==> 4 <= c.0 <= 24,
            final(self).halted == old(self).halted,
            final(self).ime != old(self).ime ==> op == 0xf3 || op == 0xd9,
            final(self).ime_delay != old(self).ime_delay ==> op == 0xf3 || op == 0xfb,
            ({
                let out = spec_exec_control_row2(*old(self), old(mapper).mmu@, op);
                *final(self) == out.cpu && final(mapper).mmu@ == out.mem && r == out.r
            }),
    {
        match op {
            0xee => {
                let n = mapper.read_pc(&mut self.pc)?;
                Ok(xor_n(&mut self.a, n, &mut self.f))
            },
            0xef => rst_n(&mut self.pc, &mut self.sp, 0x28, mapper),
            _ => {
                // every remaining byte of this span is unreachable here
                proof {
                    assert(false);
                }
                Err(Fault::UnimplementedOpcode { opcode: op, pc: self.pc })
            },
        }
    }

    fn exec_control_row3(&mut self, op: u8, mapper: &mut Mapper) -> (r: Result<Cycles, Fault>)
        requires
            0xf0 <= op <= 0xff,
            op_valid(op),
            old(mapper).wf(),
        ensures
            final(mapper).wf(),
            r matches Ok(c) ==> 4 <= c.0 <= 24,
            final(self).halted == old(self).halted,
            final(self).ime != old(self).ime ==> op == 0xf3 || op == 0xd9,
            final(self).ime_delay != old(self).ime_delay ==> op == 0xf3 || op == 0xfb,
            ({
                let out = spec_exec_control_row3(*old(self), old(mapper).mmu@, op);
                *final(self) == out.cpu && final(mapper).mmu@ == out.mem && r == out.r
            }),
    {
        if op < 0xf8 {
            self.exec_control_row3_lo(op, mapper)
        } else {
            self.exec_control_row3_hi(op, mapper)
        }
    }

    #[verifier::rlimit(100)]
    #[verifier::spinoff_prover]
    fn exec_control_row3_lo(&mut self, op: u8, mapper: &mut Mapper) -> (r: Result<Cycles, Fault>)
        requires
            0xf0 <= op <= 0xf7,
            op_valid(op),
            old(mapper).wf(),
        ensures
            final(mapper).wf(),
            r matches Ok(c) ==> 4 <= c.0 <= 24,
            final(self).halted == old(self).halted,
            final(self).ime != old(self).ime ==> op == 0xf3 || op == 0xd9,
            final(self).ime_delay != old(self).ime_delay ==> op == 0xf3 || op == 0xfb,
            ({
                let out = spec_exec_control_row3(*old(self), old(mapper).mmu@, op);
                *final(self) == out.cpu && final(mapper).mmu@ == out.mem && r == out.r
            }),
    {
        match op {
            0xf0 => {
                let n = mapper.read_pc(&mut self.pc)?;
                ld_a_nhptr(&mut self.a, n, mapper)
            },
            0xf1 => pop_af(&mut self.a, &mut self.f, &mut self.sp, mapper),
            0xf2 => ld_a_chptr(&mut self.a, self.c, mapper),
            0xf3 => {
                // Disable interrupts, cancelling a pending delayed enable.
                self.ime = false;
                self.ime_delay = false;
                Ok(Cycles(4))
            },
            0xf5 => {
                let fb = self.f.to_byte();
                push_rr(self.a, fb, &mut self.sp, mapper)
            },
            0xf6 => {
                let n = mapper.read_pc(&mut self.pc)?;
                Ok(or_n(&mut self.a, n, &mut self.f))
            },
            0xf7 => rst_n(&mut self.pc, &mut self.sp, 0x30, mapper),
            _ => {
                // every remaining byte of this half-row is unreachable here
                proof {
                    assert(false);
                }
                Err(Fault::UnimplementedOpcode { opcode: op, pc: self.pc })
            },
        }
    }

    #[verifier::rlimit(100)]
    #[verifier::spinoff_prover]
    fn exec_control_row3_hi(&mut self, op: u8, mapper: &mut Mapper) -> (r: Result<Cycles, Fault>)
        requires
            0xf8 <= op <= 0xff,
            op_valid(op),
            old(mapper).wf(),
        ensures
            final(mapper).wf(),
            r matches Ok(c) ==> 4 <= c.0 <= 24,
            final(self).halted == old(self).halted,
            final(self).ime != old(self).ime ==> op == 0xf3 || op == 0xd9,
            final(self).ime_delay != old(self).ime_delay ==> op == 0xf3 || op == 0xfb,
            ({
                let out = spec_exec_control_row3(*old(self), old(mapper).mmu@, op);
                *final(self) == out.cpu && final(mapper).mmu@ == out.mem && r == out.r
            }),
    {
        match op {
            0xf8 => {
                let n = mapper.read_pc(&mut self.pc)?;
                let dd: i8 = if n < 0x80 {
                    n as i8
                } else {
                    ((n as i16) - 256) as i8
                };
                proof {
                    assert(dd as int == byte_signed(n));
                }
                Ok(ld_hl_sp_dd(&mut self.h, &mut self.l, self.sp, dd, &mut self.f))
            },
            0xf9 => Ok(ld_sp_hl(&mut self.sp, self.h, self.l)),
            0xfa => {
                let nn = mapper.read_word_pc(&mut self.pc)?;
                ld_a_nnptr(&mut self.a, nn, mapper)
            },
            0xfb => {
                // Enable interrupts after one more instruction.
                self.ime_delay = true;
                Ok(Cycles(4))
            },
            0xfe => {
                let n = mapper.read_pc(&mut self.pc)?;
                Ok(cp_n(self.a, n, &mut self.f))
            },
            0xff => rst_n(&mut self.pc, &mut self.sp, 0x38, mapper),
            _ => {
                // every remaining byte of this half-row is unreachable here
                proof {
                    assert(false);
                }
                Err(Fault::UnimplementedOpcode { opcode: op, pc: self.pc })
            },
        }
    }


    /// The 8-bit load block 0x40-0x7F (HALT at 0x76 excluded): the low
    /// three bits select the source, the next three the destination, with
    /// register code 6 standing for the byte at hl.
    fn exec_ld_block(&mut self, op: u8, mapper: &mut Mapper) -> (r: Result<Cycles, Fault>)
        requires
            0x40 <= op <= 0x7f,
            op != 0x76,
            old(mapper).wf(),
        ensures
            final(mapper).wf(),
            r matches Ok(c) ==> c.0 == 4 || c.0 == 8,
            final(self).halted == old(self).halted,
            final(self).ime == old(self).ime && final(self).ime_delay == old(self).ime_delay,
            ({
                let out = spec_exec_ld(*old(self), old(mapper).mmu@, op);
                *final(self) == out.cpu && final(mapper).mmu@ == out.mem && r == out.r
            }),
    {
        let src: u8 = op % 8;
        let dst: u8 = (op / 8) % 8;
        if src == 6 {
            let v = match mapper.read(rr(self.h, self.l)) {
                Ok(v) => v,
                Err(e) => {
                    return Err(e);
                },
            };
            self.set_reg8(dst, v);
            Ok(Cycles(8))
        } else if dst == 6 {
            let v = self.get_reg8(src);
            match mapper.write(rr(self.h, self.l), v) {
                Ok(()) => Ok(Cycles(8)),
                Err(e) => Err(e),
            }
        } else {
            let v = self.get_reg8(src);
            self.set_reg8(dst, v);
            Ok(Cycles(4))
        }
    }

    /// The 8-bit arithmetic/logic block 0x80-0xBF: the low three bits
    /// select the operand, the next three the operation (add, adc, sub,
    /// sbc, and, xor, or, cp).
    fn exec_alu_block(&mut self, op: u8, mapper: &Mapper) -> (r: Result<Cycles, Fault>)
        requires
            0x80 <= op <= 0xbf,
            mapper.wf(),
        ensures
            r matches Ok(c) ==> c.0 == 4 || c.0 == 8,
            final(self).halted == old(self).halted,
            final(self).ime == old(self).ime && final(self).ime_delay == old(self).ime_delay,
            ({
                let out = spec_exec_alu(*old(self), mapper.mmu@, op);
                *final(self) == out.cpu && r == out.r && out.mem == mapper.mmu@
            }),
    {
        let src: u8 = op % 8;
        let sel: u8 = (op / 8) % 8;
        if src == 6 {
            match sel {
                0 => add_a_hlptr(&mut self.a, self.h, self.l, &mut self.f, mapper),
                1 => adc_a_hlptr(&mut self.a, self.h, self.l, &mut self.f, mapper),
                2 => sub_hlptr(&mut self.a, self.h, self.l, &mut self.f, mapper),
                3 => sbc_a_hlptr(&mut self.a, self.h, self.l, &mut self.f, mapper),
                4 => and_hlptr(&mut self.a, self.h, self.l, &mut self.f, mapper),
                5 => xor_hlptr(&mut self.a, self.h, self.l, &mut self.f, mapper),
                6 => or_hlptr(&mut self.a, self.h, self.l, &mut self.f, mapper),
                _ => cp_hlptr(self.a, self.h, self.l, &mut self.f, mapper),
            }
        } else {
            let v = self.get_reg8(src);
            Ok(
                match sel {
                    0 => add_a_r(&mut self.a, v, &mut self.f),
                    1 => adc_a_r(&mut self.a, v, &mut self.f),
                    2 => sub_r(&mut self.a, v, &mut self.f),
                    3 => sbc_a_r(&mut self.a, v, &mut self.f),
                    4 => and_r(&mut self.a, v, &mut self.f),
                    5 => xor_r(&mut self.a, v, &mut self.f),
                    6 => or_r(&mut self.a, v, &mut self.f),
                    _ => cp_r(self.a, v, &mut self.f),
                },
            )
        }
    }

    /// The extended (0xCB-prefixed) table: rotates, shifts and swap in the
    /// first quarter, then bit test, bit clear and bit set, each over the
    /// eight register codes with code 6 the byte at hl.  Every one of the
    /// 256 extended opcodes decodes to an operation.
    #[verifier::rlimit(100)]
    #[verifier::spinoff_prover]
    fn exec_cb(&mut self, mapper: &mut Mapper) -> (r: Result<Cycles, Fault>)
        requires
            old(mapper).wf(),
        ensures
            final(mapper).wf(),
            r matches Ok(c) ==> 8 <= c.0 <= 16,
            final(self).halted == old(self).halted,
            final(self).ime == old(self).ime && final(self).ime_delay == old(self).ime_delay,
            ({
                let out = spec_exec_cb(*old(self), old(mapper).mmu@);
                *final(self) == out.cpu && final(mapper).mmu@ == out.mem && r == out.r
            }),
    {
        let cb = match mapper.read_pc(&mut self.pc) {
            Ok(v) => v,
            Err(e) => {
                return Err(e);
            },
        };
        let target: u8 = cb % 8;
        let sel: u8 = (cb / 8) % 8;
        let group: u8 = cb / 64;
        let v: u8 = if target == 6 {
            match mapper.read(rr(self.h, self.l)) {
                Ok(v) => v,
                Err(e) => {
                    return Err(e);
                },
            }
        } else {
            self.get_reg8(target)
        };
        if group == 1 {
            bit_n_val(sel, v, &mut self.f);
            return Ok(
                if target == 6 {
                    Cycles(12)
                } else {
                    Cycles(8)
                },
            );
        }
        let nv: u8 = if group == 0 {
            match sel {
                0 => rlc_val(v, &mut self.f),
                1 => rrc_val(v, &mut self.f),
                2 => rl_val(v, &mut self.f),
                3 => rr_val(v, &mut self.f),
                4 => sla_val(v, &mut self.f),
                5 => sra_val(v, &mut self.f),
                6 => swap_val(v, &mut self.f),
                _ => srl_val(v, &mut self.f),
            }
        } else if group == 2 {
            res_n_val(sel, v)
        } else {
            set_n_val(sel, v)
        };
        if target == 6 {
            match mapper.write(rr(self.h, self.l), nv) {
                Ok(()) => Ok(Cycles(16)),
                Err(e) => Err(e),
            }
        } else {
            self.set_reg8(target, nv);
            Ok(Cycles(8))
        }
    }
}

} // verus!
