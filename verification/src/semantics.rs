use vstd::prelude::*;

use crate::cpu::Cpu;
use crate::cycles::Cycles;
use crate::fault::Fault;
use crate::flags::Flags;
use crate::mmu::{
    mapped_read, mapped_write, mem_read, mem_read16, mem_write, mem_write16, next_addr, MemState,
};
use crate::ops::arithmetic_logic::{
    add16_flags, add16_result, add_flags, add_result, carry_in, cp_flags, daa_flags, daa_result,
    dec_flags, dec_result, inc_flags, inc_result, logic_flags, sub_flags, sub_result,
};
use crate::ops::bits::{
    rl_result, rlc_result, rot_a_flags, rot_flags, rr_result, rrc_result, sla_result, spec_bit_mask,
    sra_result, srl_result, swap_result,
};
use crate::ops::control::{rel_target, sp_minus2, sp_plus2};
use crate::ops::spec_rr;

verus! {

// ---------------------------------------------------------------------
// A specification-level decode of the full instruction set.  For a CPU
// state whose program counter already points past the opcode byte,
// `spec_execute` gives the exact machine state and result of executing
// that opcode — including every operand-fetch and bus fault, which leave
// exactly the state the executable dispatcher leaves.  `Cpu::step`'s
// contract equates the dispatcher's execute path with this function.
// ---------------------------------------------------------------------
/// The machine state after one dispatched operation, with its result.
#[verifier::ext_equal]
pub ghost struct StepOutcome {
    pub cpu: Cpu,
    pub mem: MemState,
    pub r: Result<Cycles, Fault>,
}

pub open spec fn out_ok(cpu: Cpu, mem: MemState, k: u32) -> StepOutcome {
    StepOutcome { cpu, mem, r: Ok(Cycles(k)) }
}

pub open spec fn out_fault(cpu: Cpu, mem: MemState, f: Fault) -> StepOutcome {
    StepOutcome { cpu, mem, r: Err(f) }
}

/// A read of `a` succeeds: the address is mapped, or the open-bus policy
/// absorbs it.
pub open spec fn rd_ok(m: MemState, a: u16) -> bool {
    m.open_bus || mapped_read(a)
}

pub open spec fn wr_ok(m: MemState, a: u16) -> bool {
    m.open_bus || mapped_write(a)
}

pub open spec fn rd16_ok(m: MemState, a: u16) -> bool {
    rd_ok(m, a) && rd_ok(m, next_addr(a))
}

pub open spec fn wr16_ok(m: MemState, a: u16) -> bool {
    wr_ok(m, a) && wr_ok(m, next_addr(a))
}

/// The fault a faulting 16-bit read at `a` raises: the lower address is
/// tried first.
pub open spec fn rd16_fault(m: MemState, a: u16) -> Fault {
    if !rd_ok(m, a) {
        Fault::UnmappedAddress { address: a }
    } else {
        Fault::UnmappedAddress { address: next_addr(a) }
    }
}

pub open spec fn wr16_fault(m: MemState, a: u16) -> Fault {
    if !wr_ok(m, a) {
        Fault::UnmappedAddress { address: a }
    } else {
        Fault::UnmappedAddress { address: next_addr(a) }
    }
}

/// The state after attempting a little-endian 16-bit store: a fault at the
/// first address stores nothing; a fault at the second leaves the low byte
/// stored.
pub open spec fn wr16_mem(m: MemState, a: u16, v: u16) -> MemState {
    if wr16_ok(m, a) {
        mem_write16(m, a, v)
    } else if wr_ok(m, a) {
        mem_write(m, a, (v % 0x100) as u8)
    } else {
        m
    }
}

/// The CPU with its program counter moved forward, wrapping.
pub open spec fn pc_plus(cpu: Cpu, k: u16) -> Cpu {
    Cpu { pc: ((cpu.pc + k) % 0x10000) as u16, ..cpu }
}

/// The signed value of a displacement byte.
pub open spec fn byte_signed(n: u8) -> int {
    if n < 0x80 {
        n as int
    } else {
        n - 256
    }
}

/// The stack pointer moved by the signed value of a displacement byte.
pub open spec fn sp_off_result(sp: u16, n: u8) -> u16 {
    ((sp + byte_signed(n) + 0x10000) % 0x10000) as u16
}

/// Flags of the signed stack-pointer adjustment, over the raw byte: H and
/// C from adding the byte to the low byte of the stack pointer as if both
/// were unsigned.
pub open spec fn sp_off_flags(sp: u16, n: u8) -> Flags {
    Flags { z: false, n: false, h: sp % 16 + n % 16 > 0xf, c: sp % 256 + n > 0xff }
}

/// One arithmetic/logic operation applied to the accumulator, by its
/// three-bit operation code: add, adc, sub, sbc, and, xor, or, cp.
pub open spec fn alu_apply(cpu: Cpu, sel: u8, v: u8) -> Cpu {
    if sel == 0 {
        Cpu { a: add_result(cpu.a, v, 0), f: add_flags(cpu.a, v, 0), ..cpu }
    } else if sel == 1 {
        Cpu {
            a: add_result(cpu.a, v, carry_in(cpu.f)),
            f: add_flags(cpu.a, v, carry_in(cpu.f)),
            ..cpu
        }
    } else if sel == 2 {
        Cpu { a: sub_result(cpu.a, v, 0), f: sub_flags(cpu.a, v, 0), ..cpu }
    } else if sel == 3 {
        Cpu {
            a: sub_result(cpu.a, v, carry_in(cpu.f)),
            f: sub_flags(cpu.a, v, carry_in(cpu.f)),
            ..cpu
        }
    } else if sel == 4 {
        Cpu { a: (cpu.a & v), f: logic_flags(cpu.a & v, true), ..cpu }
    } else if sel == 5 {
        Cpu { a: (cpu.a ^ v), f: logic_flags(cpu.a ^ v, false), ..cpu }
    } else if sel == 6 {
        Cpu { a: (cpu.a | v), f: logic_flags(cpu.a | v, false), ..cpu }
    } else {
        Cpu { f: cp_flags(cpu.a, v), ..cpu }
    }
}

/// One extended-table rotate/shift/swap result, by its three-bit code.
pub open spec fn rot_value(sel: u8, v: u8, f: Flags) -> u8 {
    if sel == 0 {
        rlc_result(v)
    } else if sel == 1 {
        rrc_result(v)
    } else if sel == 2 {
        rl_result(v, f.c)
    } else if sel == 3 {
        rr_result(v, f.c)
    } else if sel == 4 {
        sla_result(v)
    } else if sel == 5 {
        sra_result(v)
    } else if sel == 6 {
        swap_result(v)
    } else {
        srl_result(v)
    }
}

/// The bit the extended-table rotate/shift moves into the carry.
pub open spec fn rot_carry(sel: u8, v: u8) -> bool {
    if sel == 0 || sel == 2 || sel == 4 {
        v >= 0x80
    } else if sel == 6 {
        false
    } else {
        v % 2 == 1
    }
}

// ---------------------------------------------------------------------
// Block semantics
// ---------------------------------------------------------------------
/// The 8-bit load block 0x40-0x7F (HALT excluded).
pub open spec fn spec_exec_ld(cpu: Cpu, m: MemState, op: u8) -> StepOutcome {
    let src = (op % 8) as u8;
    let dst = (op / 8 % 8) as u8;
    let hl = spec_rr(cpu.h, cpu.l);
    if src == 6 {
        if rd_ok(m, hl) {
            out_ok(cpu.spec_set_reg8(dst, mem_read(m, hl)), m, 8)
        } else {
            out_fault(cpu, m, Fault::UnmappedAddress { address: hl })
        }
    } else if dst == 6 {
        if wr_ok(m, hl) {
            out_ok(cpu, mem_write(m, hl, cpu.spec_reg8(src)), 8)
        } else {
            out_fault(cpu, m, Fault::UnmappedAddress { address: hl })
        }
    } else {
        out_ok(cpu.spec_set_reg8(dst, cpu.spec_reg8(src)), m, 4)
    }
}

/// The arithmetic/logic block 0x80-0xBF.
pub open spec fn spec_exec_alu(cpu: Cpu, m: MemState, op: u8) -> StepOutcome {
    let src = (op % 8) as u8;
    let sel = (op / 8 % 8) as u8;
    let hl = spec_rr(cpu.h, cpu.l);
    if src == 6 {
        if rd_ok(m, hl) {
            out_ok(alu_apply(cpu, sel, mem_read(m, hl)), m, 8)
        } else {
            out_fault(cpu, m, Fault::UnmappedAddress { address: hl })
        }
    } else {
        out_ok(alu_apply(cpu, sel, cpu.spec_reg8(src)), m, 4)
    }
}

/// The extended (0xCB-prefixed) table, starting from the state whose
/// program counter points at the second opcode byte.
pub open spec fn spec_exec_cb(cpu: Cpu, m: MemState) -> StepOutcome {
    if !rd_ok(m, cpu.pc) {
        out_fault(cpu, m, Fault::UnmappedAddress { address: cpu.pc })
    } else {
        let cb = mem_read(m, cpu.pc);
        let cpu1 = pc_plus(cpu, 1);
        let target = (cb % 8) as u8;
        let sel = (cb / 8 % 8) as u8;
        let group = (cb / 64) as u8;
        let hl = spec_rr(cpu1.h, cpu1.l);
        if target == 6 {
            if !rd_ok(m, hl) {
                out_fault(cpu1, m, Fault::UnmappedAddress { address: hl })
            } else {
                let v = mem_read(m, hl);
                if group == 1 {
                    out_ok(
                        Cpu {
                            f: Flags {
                                z: v & spec_bit_mask(sel) == 0,
                                n: false,
                                h: true,
                                c: cpu1.f.c,
                            },
                            ..cpu1
                        },
                        m,
                        12,
                    )
                } else {
                    let nv = if group == 0 {
                        rot_value(sel, v, cpu1.f)
                    } else if group == 2 {
                        v & !spec_bit_mask(sel)
                    } else {
                        v | spec_bit_mask(sel)
                    };
                    let cpu2 = if group == 0 {
                        Cpu { f: rot_flags(rot_value(sel, v, cpu1.f), rot_carry(sel, v)), ..cpu1 }
                    } else {
                        cpu1
                    };
                    if !wr_ok(m, hl) {
                        out_fault(cpu2, m, Fault::UnmappedAddress { address: hl })
                    } else {
                        out_ok(cpu2, mem_write(m, hl, nv), 16)
                    }
                }
            }
        } else {
            let v = cpu1.spec_reg8(target);
            if group == 1 {
                out_ok(
                    Cpu {
                        f: Flags { z: v & spec_bit_mask(sel) == 0, n: false, h: true, c: cpu1.f.c },
                        ..cpu1
                    },
                    m,
                    8,
                )
            } else {
                let nv = if group == 0 {
                    rot_value(sel, v, cpu1.f)
                } else if group == 2 {
                    v & !spec_bit_mask(sel)
                } else {
                    v | spec_bit_mask(sel)
                };
                let cpu2 = if group == 0 {
                    Cpu { f: rot_flags(rot_value(sel, v, cpu1.f), rot_carry(sel, v)), ..cpu1 }
                } else {
                    cpu1
                };
                out_ok(cpu2.spec_set_reg8(target, nv), m, 8)
            }
        }
    }
}

// ---------------------------------------------------------------------
// Scalar-arm helpers
// ---------------------------------------------------------------------
/// Increment of the register numbered `idx`; the carry flag is kept.
pub open spec fn sem_inc_r(cpu: Cpu, m: MemState, idx: u8) -> StepOutcome {
    let v = cpu.spec_reg8(idx);
    out_ok((Cpu { f: inc_flags(v, cpu.f), ..cpu }).spec_set_reg8(idx, inc_result(v)), m, 4)
}

/// Decrement of the register numbered `idx`; the carry flag is kept.
pub open spec fn sem_dec_r(cpu: Cpu, m: MemState, idx: u8) -> StepOutcome {
    let v = cpu.spec_reg8(idx);
    out_ok((Cpu { f: dec_flags(v, cpu.f), ..cpu }).spec_set_reg8(idx, dec_result(v)), m, 4)
}

/// Immediate load into the register numbered `idx`.
pub open spec fn sem_ld_r_n(cpu: Cpu, m: MemState, idx: u8) -> StepOutcome {
    if !rd_ok(m, cpu.pc) {
        out_fault(cpu, m, Fault::UnmappedAddress { address: cpu.pc })
    } else {
        out_ok(pc_plus(cpu, 1).spec_set_reg8(idx, mem_read(m, cpu.pc)), m, 8)
    }
}

/// Return: pop the program counter off the stack.
pub open spec fn sem_ret(cpu: Cpu, m: MemState, k: u32) -> StepOutcome {
    if rd16_ok(m, cpu.sp) {
        out_ok(Cpu { pc: mem_read16(m, cpu.sp), sp: sp_plus2(cpu.sp), ..cpu }, m, k)
    } else {
        out_fault(cpu, m, rd16_fault(m, cpu.sp))
    }
}

/// Push a 16-bit value: the stack pointer moves down even when the store
/// then faults.
pub open spec fn sem_push(cpu: Cpu, m: MemState, val: u16, k: u32) -> StepOutcome {
    let dest = sp_minus2(cpu.sp);
    let cpu2 = Cpu { sp: dest, ..cpu };
    if wr16_ok(m, dest) {
        out_ok(cpu2, mem_write16(m, dest, val), k)
    } else {
        out_fault(cpu2, wr16_mem(m, dest, val), wr16_fault(m, dest))
    }
}

/// Call: push the return address, then jump.  On a push fault the program
/// counter stays.
pub open spec fn sem_call(cpu: Cpu, m: MemState, nn: u16) -> StepOutcome {
    let dest = sp_minus2(cpu.sp);
    let cpu2 = Cpu { sp: dest, ..cpu };
    if wr16_ok(m, dest) {
        out_ok(Cpu { pc: nn, ..cpu2 }, mem_write16(m, dest, cpu.pc), 24)
    } else {
        out_fault(cpu2, wr16_mem(m, dest, cpu.pc), wr16_fault(m, dest))
    }
}

/// Restart: a call to a fixed one-byte vector.
pub open spec fn sem_rst(cpu: Cpu, m: MemState, vec: u8) -> StepOutcome {
    let dest = sp_minus2(cpu.sp);
    let cpu2 = Cpu { sp: dest, ..cpu };
    if wr16_ok(m, dest) {
        out_ok(Cpu { pc: vec as u16, ..cpu2 }, mem_write16(m, dest, cpu.pc), 16)
    } else {
        out_fault(cpu2, wr16_mem(m, dest, cpu.pc), wr16_fault(m, dest))
    }
}

// ---------------------------------------------------------------------
// More scalar-arm helpers
// ---------------------------------------------------------------------
/// Relative jump: fetch the displacement, then move the program counter
/// when the condition holds.
pub open spec fn sem_jr(cpu: Cpu, m: MemState, cond: bool) -> StepOutcome {
    if !rd_ok(m, cpu.pc) {
        out_fault(cpu, m, Fault::UnmappedAddress { address: cpu.pc })
    } else {
        let d = mem_read(m, cpu.pc);
        let cpu1 = pc_plus(cpu, 1);
        if cond {
            out_ok(Cpu { pc: rel_target(cpu1.pc, d), ..cpu1 }, m, 12)
        } else {
            out_ok(cpu1, m, 8)
        }
    }
}

/// Absolute jump: fetch the address, then jump when the condition holds.
pub open spec fn sem_jp(cpu: Cpu, m: MemState, cond: bool) -> StepOutcome {
    if !rd16_ok(m, cpu.pc) {
        out_fault(cpu, m, rd16_fault(m, cpu.pc))
    } else {
        let nn = mem_read16(m, cpu.pc);
        let cpu1 = pc_plus(cpu, 2);
        if cond {
            out_ok(Cpu { pc: nn, ..cpu1 }, m, 16)
        } else {
            out_ok(cpu1, m, 12)
        }
    }
}

/// Conditional call: fetch the address, then push and jump when the
/// condition holds.
pub open spec fn sem_call_cc(cpu: Cpu, m: MemState, cond: bool) -> StepOutcome {
    if !rd16_ok(m, cpu.pc) {
        out_fault(cpu, m, rd16_fault(m, cpu.pc))
    } else {
        let nn = mem_read16(m, cpu.pc);
        let cpu1 = pc_plus(cpu, 2);
        if cond {
            sem_call(cpu1, m, nn)
        } else {
            out_ok(cpu1, m, 12)
        }
    }
}

/// Arithmetic/logic on an immediate operand.
pub open spec fn sem_alu_n(cpu: Cpu, m: MemState, sel: u8) -> StepOutcome {
    if !rd_ok(m, cpu.pc) {
        out_fault(cpu, m, Fault::UnmappedAddress { address: cpu.pc })
    } else {
        out_ok(alu_apply(pc_plus(cpu, 1), sel, mem_read(m, cpu.pc)), m, 8)
    }
}

/// Store the accumulator at an address.
pub open spec fn sem_st_a(cpu: Cpu, m: MemState, addr: u16, k: u32) -> StepOutcome {
    if wr_ok(m, addr) {
        out_ok(cpu, mem_write(m, addr, cpu.a), k)
    } else {
        out_fault(cpu, m, Fault::UnmappedAddress { address: addr })
    }
}

/// Load the accumulator from an address.
pub open spec fn sem_ld_a(cpu: Cpu, m: MemState, addr: u16, k: u32) -> StepOutcome {
    if rd_ok(m, addr) {
        out_ok(Cpu { a: mem_read(m, addr), ..cpu }, m, k)
    } else {
        out_fault(cpu, m, Fault::UnmappedAddress { address: addr })
    }
}

/// Add a 16-bit value into hl.
pub open spec fn sem_add_hl(cpu: Cpu, m: MemState, v: u16) -> StepOutcome {
    let hl = spec_rr(cpu.h, cpu.l);
    let res = add16_result(hl, v);
    out_ok(
        Cpu { h: (res / 0x100) as u8, l: (res % 0x100) as u8, f: add16_flags(hl, v, cpu.f), ..cpu },
        m,
        8,
    )
}

// ---------------------------------------------------------------------
// The 0x00-0x3F quarter, row by row as in the opcode matrix.
// ---------------------------------------------------------------------
/// Opcodes 0x00-0x0F: the bc row.
pub open spec fn spec_exec_misc_row0(cpu: Cpu, m: MemState, op: u8) -> StepOutcome {
    if op == 0x00 {
        out_ok(cpu, m, 4)
    } else if op == 0x01 {
        if !rd16_ok(m, cpu.pc) {
            out_fault(cpu, m, rd16_fault(m, cpu.pc))
        } else {
            let nn = mem_read16(m, cpu.pc);
            out_ok(
                Cpu { b: (nn / 0x100) as u8, c: (nn % 0x100) as u8, ..pc_plus(cpu, 2) },
                m,
                12,
            )
        }
    } else if op == 0x02 {
        sem_st_a(cpu, m, spec_rr(cpu.b, cpu.c), 8)
    } else if op == 0x03 {
        let nv = (spec_rr(cpu.b, cpu.c) + 1) % 0x10000;
        out_ok(Cpu { b: (nv / 0x100) as u8, c: (nv % 0x100) as u8, ..cpu }, m, 8)
    } else if op == 0x04 {
        sem_inc_r(cpu, m, 0)
    } else if op == 0x05 {
        sem_dec_r(cpu, m, 0)
    } else if op == 0x06 {
        sem_ld_r_n(cpu, m, 0)
    } else if op == 0x07 {
        out_ok(Cpu { a: rlc_result(cpu.a), f: rot_a_flags(cpu.a >= 0x80), ..cpu }, m, 4)
    } else if op == 0x08 {
        if !rd16_ok(m, cpu.pc) {
            out_fault(cpu, m, rd16_fault(m, cpu.pc))
        } else {
            let nn = mem_read16(m, cpu.pc);
            let cpu1 = pc_plus(cpu, 2);
            if wr16_ok(m, nn) {
                out_ok(cpu1, mem_write16(m, nn, cpu.sp), 20)
            } else {
                out_fault(cpu1, wr16_mem(m, nn, cpu.sp), wr16_fault(m, nn))
            }
        }
    } else if op == 0x09 {
        sem_add_hl(cpu, m, spec_rr(cpu.b, cpu.c))
    } else if op == 0x0a {
        sem_ld_a(cpu, m, spec_rr(cpu.b, cpu.c), 8)
    } else if op == 0x0b {
        let nv = (spec_rr(cpu.b, cpu.c) + 0xffff) % 0x10000;
        out_ok(Cpu { b: (nv / 0x100) as u8, c: (nv % 0x100) as u8, ..cpu }, m, 8)
    } else if op == 0x0c {
        sem_inc_r(cpu, m, 1)
    } else if op == 0x0d {
        sem_dec_r(cpu, m, 1)
    } else if op == 0x0e {
        sem_ld_r_n(cpu, m, 1)
    } else {
        out_ok(Cpu { a: rrc_result(cpu.a), f: rot_a_flags(cpu.a % 2 == 1), ..cpu }, m, 4)
    }
}

/// Opcodes 0x10-0x1F: the de row, with STOP and the plain relative jump.
pub open spec fn spec_exec_misc_row1(cpu: Cpu, m: MemState, op: u8) -> StepOutcome {
    if op == 0x10 {
        // stop consumes its padding byte, then idles like halt
        if !rd_ok(m, cpu.pc) {
            out_fault(cpu, m, Fault::UnmappedAddress { address: cpu.pc })
        } else {
            out_ok(Cpu { halted: true, ..pc_plus(cpu, 1) }, m, 4)
        }
    } else if op == 0x11 {
        if !rd16_ok(m, cpu.pc) {
            out_fault(cpu, m, rd16_fault(m, cpu.pc))
        } else {
            let nn = mem_read16(m, cpu.pc);
            out_ok(
                Cpu { d: (nn / 0x100) as u8, e: (nn % 0x100) as u8, ..pc_plus(cpu, 2) },
                m,
                12,
            )
        }
    } else if op == 0x12 {
        sem_st_a(cpu, m, spec_rr(cpu.d, cpu.e), 8)
    } else if op == 0x13 {
        let nv = (spec_rr(cpu.d, cpu.e) + 1) % 0x10000;
        out_ok(Cpu { d: (nv / 0x100) as u8, e: (nv % 0x100) as u8, ..cpu }, m, 8)
    } else if op == 0x14 {
        sem_inc_r(cpu, m, 2)
    } else if op == 0x15 {
        sem_dec_r(cpu, m, 2)
    } else if op == 0x16 {
        sem_ld_r_n(cpu, m, 2)
    } else if op == 0x17 {
        out_ok(Cpu { a: rl_result(cpu.a, cpu.f.c), f: rot_a_flags(cpu.a >= 0x80), ..cpu }, m, 4)
    } else if op == 0x18 {
        sem_jr(cpu, m, true)
    } else if op == 0x19 {
        sem_add_hl(cpu, m, spec_rr(cpu.d, cpu.e))
    } else if op == 0x1a {
        sem_ld_a(cpu, m, spec_rr(cpu.d, cpu.e), 8)
    } else if op == 0x1b {
        let nv = (spec_rr(cpu.d, cpu.e) + 0xffff) % 0x10000;
        out_ok(Cpu { d: (nv / 0x100) as u8, e: (nv % 0x100) as u8, ..cpu }, m, 8)
    } else if op == 0x1c {
        sem_inc_r(cpu, m, 3)
    } else if op == 0x1d {
        sem_dec_r(cpu, m, 3)
    } else if op == 0x1e {
        sem_ld_r_n(cpu, m, 3)
    } else {
        out_ok(Cpu { a: rr_result(cpu.a, cpu.f.c), f: rot_a_flags(cpu.a % 2 == 1), ..cpu }, m, 4)
    }
}

/// Opcodes 0x20-0x2F: the hl row, with the post-increment loads and the
/// decimal adjust.
pub open spec fn spec_exec_misc_row2(cpu: Cpu, m: MemState, op: u8) -> StepOutcome {
    let hl = spec_rr(cpu.h, cpu.l);
    if op == 0x20 {
        sem_jr(cpu, m, !cpu.f.z)
    } else if op == 0x21 {
        if !rd16_ok(m, cpu.pc) {
            out_fault(cpu, m, rd16_fault(m, cpu.pc))
        } else {
            let nn = mem_read16(m, cpu.pc);
            out_ok(
                Cpu { h: (nn / 0x100) as u8, l: (nn % 0x100) as u8, ..pc_plus(cpu, 2) },
                m,
                12,
            )
        }
    } else if op == 0x22 {
        if wr_ok(m, hl) {
            let nv = (hl + 1) % 0x10000;
            out_ok(
                Cpu { h: (nv / 0x100) as u8, l: (nv % 0x100) as u8, ..cpu },
                mem_write(m, hl, cpu.a),
                8,
            )
        } else {
            out_fault(cpu, m, Fault::UnmappedAddress { address: hl })
        }
    } else if op == 0x23 {
        let nv = (hl + 1) % 0x10000;
        out_ok(Cpu { h: (nv / 0x100) as u8, l: (nv % 0x100) as u8, ..cpu }, m, 8)
    } else if op == 0x24 {
        sem_inc_r(cpu, m, 4)
    } else if op == 0x25 {
        sem_dec_r(cpu, m, 4)
    } else if op == 0x26 {
        sem_ld_r_n(cpu, m, 4)
    } else if op == 0x27 {
        out_ok(Cpu { a: daa_result(cpu.a, cpu.f), f: daa_flags(cpu.a, cpu.f), ..cpu }, m, 4)
    } else if op == 0x28 {
        sem_jr(cpu, m, cpu.f.z)
    } else if op == 0x29 {
        sem_add_hl(cpu, m, hl)
    } else if op == 0x2a {
        if rd_ok(m, hl) {
            let nv = (hl + 1) % 0x10000;
            out_ok(
                Cpu { a: mem_read(m, hl), h: (nv / 0x100) as u8, l: (nv % 0x100) as u8, ..cpu },
                m,
                8,
            )
        } else {
            out_fault(cpu, m, Fault::UnmappedAddress { address: hl })
        }
    } else if op == 0x2b {
        let nv = (hl + 0xffff) % 0x10000;
        out_ok(Cpu { h: (nv / 0x100) as u8, l: (nv % 0x100) as u8, ..cpu }, m, 8)
    } else if op == 0x2c {
        sem_inc_r(cpu, m, 5)
    } else if op == 0x2d {
        sem_dec_r(cpu, m, 5)
    } else if op == 0x2e {
        sem_ld_r_n(cpu, m, 5)
    } else {
        // cpl
        out_ok(
            Cpu {
                a: (255 - cpu.a) as u8,
                f: Flags { z: cpu.f.z, n: true, h: true, c: cpu.f.c },
                ..cpu
            },
            m,
            4,
        )
    }
}

/// Opcodes 0x30-0x3F: the sp row, with the read-modify-write forms on the
/// byte at hl and the carry-flag instructions.
pub open spec fn spec_exec_misc_row3(cpu: Cpu, m: MemState, op: u8) -> StepOutcome {
    let hl = spec_rr(cpu.h, cpu.l);
    if op == 0x30 {
        sem_jr(cpu, m, !cpu.f.c)
    } else if op == 0x31 {
        if !rd16_ok(m, cpu.pc) {
            out_fault(cpu, m, rd16_fault(m, cpu.pc))
        } else {
            out_ok(Cpu { sp: mem_read16(m, cpu.pc), ..pc_plus(cpu, 2) }, m, 12)
        }
    } else if op == 0x32 {
        if wr_ok(m, hl) {
            let nv = (hl + 0xffff) % 0x10000;
            out_ok(
                Cpu { h: (nv / 0x100) as u8, l: (nv % 0x100) as u8, ..cpu },
                mem_write(m, hl, cpu.a),
                8,
            )
        } else {
            out_fault(cpu, m, Fault::UnmappedAddress { address: hl })
        }
    } else if op == 0x33 {
        out_ok(Cpu { sp: ((cpu.sp + 1) % 0x10000) as u16, ..cpu }, m, 8)
    } else if op == 0x34 || op == 0x35 {
        if m.open_bus || (mapped_read(hl) && mapped_write(hl)) {
            let v = mem_read(m, hl);
            if op == 0x34 {
                out_ok(Cpu { f: inc_flags(v, cpu.f), ..cpu }, mem_write(m, hl, inc_result(v)), 12)
            } else {
                out_ok(Cpu { f: dec_flags(v, cpu.f), ..cpu }, mem_write(m, hl, dec_result(v)), 12)
            }
        } else {
            out_fault(cpu, m, Fault::UnmappedAddress { address: hl })
        }
    } else if op == 0x36 {
        if !rd_ok(m, cpu.pc) {
            out_fault(cpu, m, Fault::UnmappedAddress { address: cpu.pc })
        } else {
            let n = mem_read(m, cpu.pc);
            let cpu1 = pc_plus(cpu, 1);
            if wr_ok(m, hl) {
                out_ok(cpu1, mem_write(m, hl, n), 12)
            } else {
                out_fault(cpu1, m, Fault::UnmappedAddress { address: hl })
            }
        }
    } else if op == 0x37 {
        out_ok(Cpu { f: Flags { z: cpu.f.z, n: false, h: false, c: true }, ..cpu }, m, 4)
    } else if op == 0x38 {
        sem_jr(cpu, m, cpu.f.c)
    } else if op == 0x39 {
        sem_add_hl(cpu, m, cpu.sp)
    } else if op == 0x3a {
        if rd_ok(m, hl) {
            let nv = (hl + 0xffff) % 0x10000;
            out_ok(
                Cpu { a: mem_read(m, hl), h: (nv / 0x100) as u8, l: (nv % 0x100) as u8, ..cpu },
                m,
                8,
            )
        } else {
            out_fault(cpu, m, Fault::UnmappedAddress { address: hl })
        }
    } else if op == 0x3b {
        out_ok(Cpu { sp: ((cpu.sp + 0xffff) % 0x10000) as u16, ..cpu }, m, 8)
    } else if op == 0x3c {
        sem_inc_r(cpu, m, 7)
    } else if op == 0x3d {
        sem_dec_r(cpu, m, 7)
    } else if op == 0x3e {
        sem_ld_r_n(cpu, m, 7)
    } else {
        // ccf
        out_ok(Cpu { f: Flags { z: cpu.f.z, n: false, h: false, c: !cpu.f.c }, ..cpu }, m, 4)
    }
}

/// The 0x00-0x3F quarter: loads, 16-bit arithmetic, rotates, misc.
pub open spec fn spec_exec_misc(cpu: Cpu, m: MemState, op: u8) -> StepOutcome {
    if op < 0x10 {
        spec_exec_misc_row0(cpu, m, op)
    } else if op < 0x20 {
        spec_exec_misc_row1(cpu, m, op)
    } else if op < 0x30 {
        spec_exec_misc_row2(cpu, m, op)
    } else {
        spec_exec_misc_row3(cpu, m, op)
    }
}

// ---------------------------------------------------------------------
// The 0xC0-0xFF quarter, row by row as in the opcode matrix.
// ---------------------------------------------------------------------
/// Opcodes 0xC0-0xCF (the extended-table prefix handled separately).
pub open spec fn spec_exec_control_row0(cpu: Cpu, m: MemState, op: u8) -> StepOutcome {
    if op == 0xc0 {
        if !cpu.f.z {
            sem_ret(cpu, m, 20)
        } else {
            out_ok(cpu, m, 8)
        }
    } else if op == 0xc1 {
        if rd16_ok(m, cpu.sp) {
            let v = mem_read16(m, cpu.sp);
            out_ok(
                Cpu { b: (v / 0x100) as u8, c: (v % 0x100) as u8, sp: sp_plus2(cpu.sp), ..cpu },
                m,
                12,
            )
        } else {
            out_fault(cpu, m, rd16_fault(m, cpu.sp))
        }
    } else if op == 0xc2 {
        sem_jp(cpu, m, !cpu.f.z)
    } else if op == 0xc3 {
        sem_jp(cpu, m, true)
    } else if op == 0xc4 {
        sem_call_cc(cpu, m, !cpu.f.z)
    } else if op == 0xc5 {
        sem_push(cpu, m, spec_rr(cpu.b, cpu.c), 16)
    } else if op == 0xc6 {
        sem_alu_n(cpu, m, 0)
    } else if op == 0xc7 {
        sem_rst(cpu, m, 0x00)
    } else if op == 0xc8 {
        if cpu.f.z {
            sem_ret(cpu, m, 20)
        } else {
            out_ok(cpu, m, 8)
        }
    } else if op == 0xc9 {
        sem_ret(cpu, m, 16)
    } else if op == 0xca {
        sem_jp(cpu, m, cpu.f.z)
    } else if op == 0xcc {
        sem_call_cc(cpu, m, cpu.f.z)
    } else if op == 0xcd {
        sem_call_cc(cpu, m, true)
    } else if op == 0xce {
        sem_alu_n(cpu, m, 1)
    } else if op == 0xcf {
        sem_rst(cpu, m, 0x08)
    } else {
        // 0xcb: the extended-table prefix, decoded elsewhere
        spec_exec_cb(cpu, m)
    }
}

/// Opcodes 0xD0-0xDF; 0xD3, 0xDB and 0xDD have no table entry.
pub open spec fn spec_exec_control_row1(cpu: Cpu, m: MemState, op: u8) -> StepOutcome {
    if op == 0xd0 {
        if !cpu.f.c {
            sem_ret(cpu, m, 20)
        } else {
            out_ok(cpu, m, 8)
        }
    } else if op == 0xd1 {
        if rd16_ok(m, cpu.sp) {
            let v = mem_read16(m, cpu.sp);
            out_ok(
                Cpu { d: (v / 0x100) as u8, e: (v % 0x100) as u8, sp: sp_plus2(cpu.sp), ..cpu },
                m,
                12,
            )
        } else {
            out_fault(cpu, m, rd16_fault(m, cpu.sp))
        }
    } else if op == 0xd2 {
        sem_jp(cpu, m, !cpu.f.c)
    } else if op == 0xd4 {
        sem_call_cc(cpu, m, !cpu.f.c)
    } else if op == 0xd5 {
        sem_push(cpu, m, spec_rr(cpu.d, cpu.e), 16)
    } else if op == 0xd6 {
        sem_alu_n(cpu, m, 2)
    } else if op == 0xd7 {
        sem_rst(cpu, m, 0x10)
    } else if op == 0xd8 {
        if cpu.f.c {
            sem_ret(cpu, m, 20)
        } else {
            out_ok(cpu, m, 8)
        }
    } else if op == 0xd9 {
        // reti: a return that also turns the master enable back on
        if rd16_ok(m, cpu.sp) {
            out_ok(
                Cpu { pc: mem_read16(m, cpu.sp), sp: sp_plus2(cpu.sp), ime: true, ..cpu },
                m,
                16,
            )
        } else {
            out_fault(cpu, m, rd16_fault(m, cpu.sp))
        }
    } else if op == 0xda {
        sem_jp(cpu, m, cpu.f.c)
    } else if op == 0xdc {
        sem_call_cc(cpu, m, cpu.f.c)
    } else if op == 0xde {
        sem_alu_n(cpu, m, 3)
    } else if op == 0xdf {
        sem_rst(cpu, m, 0x18)
    } else {
        out_fault(cpu, m, Fault::UnimplementedOpcode { opcode: op, pc: cpu.pc })
    }
}

/// Opcodes 0xE0-0xEF; 0xE3, 0xE4, 0xEB, 0xEC and 0xED have no table entry.
pub open spec fn spec_exec_control_row2(cpu: Cpu, m: MemState, op: u8) -> StepOutcome {
    if op == 0xe0 {
        if !rd_ok(m, cpu.pc) {
            out_fault(cpu, m, Fault::UnmappedAddress { address: cpu.pc })
        } else {
            sem_st_a(pc_plus(cpu, 1), m, (0xff00 + mem_read(m, cpu.pc)) as u16, 12)
        }
    } else if op == 0xe1 {
        if rd16_ok(m, cpu.sp) {
            let v = mem_read16(m, cpu.sp);
            out_ok(
                Cpu { h: (v / 0x100) as u8, l: (v % 0x100) as u8, sp: sp_plus2(cpu.sp), ..cpu },
                m,
                12,
            )
        } else {
            out_fault(cpu, m, rd16_fault(m, cpu.sp))
        }
    } else if op == 0xe2 {
        sem_st_a(cpu, m, (0xff00 + cpu.c) as u16, 8)
    } else if op == 0xe5 {
        sem_push(cpu, m, spec_rr(cpu.h, cpu.l), 16)
    } else if op == 0xe6 {
        sem_alu_n(cpu, m, 4)
    } else if op == 0xe7 {
        sem_rst(cpu, m, 0x20)
    } else if op == 0xe8 {
        // add sp, dd
        if !rd_ok(m, cpu.pc) {
            out_fault(cpu, m, Fault::UnmappedAddress { address: cpu.pc })
        } else {
            let n = mem_read(m, cpu.pc);
            out_ok(
                Cpu {
                    sp: sp_off_result(cpu.sp, n),
                    f: sp_off_flags(cpu.sp, n),
                    ..pc_plus(cpu, 1)
                },
                m,
                16,
            )
        }
    } else if op == 0xe9 {
        out_ok(Cpu { pc: spec_rr(cpu.h, cpu.l), ..cpu }, m, 4)
    } else if op == 0xea {
        if !rd16_ok(m, cpu.pc) {
            out_fault(cpu, m, rd16_fault(m, cpu.pc))
        } else {
            sem_st_a(pc_plus(cpu, 2), m, mem_read16(m, cpu.pc), 16)
        }
    } else if op == 0xee {
        sem_alu_n(cpu, m, 5)
    } else if op == 0xef {
        sem_rst(cpu, m, 0x28)
    } else {
        out_fault(cpu, m, Fault::UnimplementedOpcode { opcode: op, pc: cpu.pc })
    }
}

/// Opcodes 0xF0-0xFF; 0xF4, 0xFC and 0xFD have no table entry.
pub open spec fn spec_exec_control_row3(cpu: Cpu, m: MemState, op: u8) -> StepOutcome {
    if op == 0xf0 {
        if !rd_ok(m, cpu.pc) {
            out_fault(cpu, m, Fault::UnmappedAddress { address: cpu.pc })
        } else {
            sem_ld_a(pc_plus(cpu, 1), m, (0xff00 + mem_read(m, cpu.pc)) as u16, 12)
        }
    } else if op == 0xf1 {
        // pop af: the low nibble of the popped flag byte is masked off
        if rd16_ok(m, cpu.sp) {
            let v = mem_read16(m, cpu.sp);
            out_ok(
                Cpu {
                    a: (v / 0x100) as u8,
                    f: Flags::spec_from_byte((v % 0x100) as u8),
                    sp: sp_plus2(cpu.sp),
                    ..cpu
                },
                m,
                12,
            )
        } else {
            out_fault(cpu, m, rd16_fault(m, cpu.sp))
        }
    } else if op == 0xf2 {
        sem_ld_a(cpu, m, (0xff00 + cpu.c) as u16, 8)
    } else if op == 0xf3 {
        // di: shuts the master enable and cancels a pending delayed enable
        out_ok(Cpu { ime: false, ime_delay: false, ..cpu }, m, 4)
    } else if op == 0xf5 {
        sem_push(cpu, m, spec_rr(cpu.a, cpu.f.spec_to_byte()), 16)
    } else if op == 0xf6 {
        sem_alu_n(cpu, m, 6)
    } else if op == 0xf7 {
        sem_rst(cpu, m, 0x30)
    } else if op == 0xf8 {
        // ld hl, sp+dd
        if !rd_ok(m, cpu.pc) {
            out_fault(cpu, m, Fault::UnmappedAddress { address: cpu.pc })
        } else {
            let n = mem_read(m, cpu.pc);
            let res = sp_off_result(cpu.sp, n);
            out_ok(
                Cpu {
                    h: (res / 0x100) as u8,
                    l: (res % 0x100) as u8,
                    f: sp_off_flags(cpu.sp, n),
                    ..pc_plus(cpu, 1)
                },
                m,
                12,
            )
        }
    } else if op == 0xf9 {
        out_ok(Cpu { sp: spec_rr(cpu.h, cpu.l), ..cpu }, m, 8)
    } else if op == 0xfa {
        if !rd16_ok(m, cpu.pc) {
            out_fault(cpu, m, rd16_fault(m, cpu.pc))
        } else {
            sem_ld_a(pc_plus(cpu, 2), m, mem_read16(m, cpu.pc), 16)
        }
    } else if op == 0xfb {
        // ei: the enable lands after one more instruction
        out_ok(Cpu { ime_delay: true, ..cpu }, m, 4)
    } else if op == 0xfe {
        sem_alu_n(cpu, m, 7)
    } else if op == 0xff {
        sem_rst(cpu, m, 0x38)
    } else {
        out_fault(cpu, m, Fault::UnimplementedOpcode { opcode: op, pc: cpu.pc })
    }
}

/// The 0xC0-0xFF quarter: stack, jumps, calls, immediates, control.
pub open spec fn spec_exec_control(cpu: Cpu, m: MemState, op: u8) -> StepOutcome {
    if op < 0xd0 {
        spec_exec_control_row0(cpu, m, op)
    } else if op < 0xe0 {
        spec_exec_control_row1(cpu, m, op)
    } else if op < 0xf0 {
        spec_exec_control_row2(cpu, m, op)
    } else {
        spec_exec_control_row3(cpu, m, op)
    }
}

/// The whole base table: the exact state and result of executing `op`
/// from a state whose program counter points at the byte after the
/// opcode.  Opaque so that callers reason about it by congruence; the
/// dispatcher's proof reveals it.
#[verifier::opaque]
pub open spec fn spec_execute(cpu: Cpu, m: MemState, op: u8) -> StepOutcome {
    if op == 0x76 {
        out_ok(Cpu { halted: true, ..cpu }, m, 4)
    } else if 0x40 <= op <= 0x7f {
        spec_exec_ld(cpu, m, op)
    } else if 0x80 <= op <= 0xbf {
        spec_exec_alu(cpu, m, op)
    } else if op == 0xcb {
        spec_exec_cb(cpu, m)
    } else if op < 0x40 {
        spec_exec_misc(cpu, m, op)
    } else {
        spec_exec_control(cpu, m, op)
    }
}

} // verus!
