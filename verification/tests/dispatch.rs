use gb_core::cpu::Cpu;
use gb_core::cycles::Cycles;
use gb_core::fault::Fault;
use gb_core::flags::Flags;
use gb_core::interrupts::Interrupt;
use gb_core::mmu::{Mapper, Mmu};

/// A cartridge image with the given program placed at the boot entry
/// address 0x0100.
fn machine(program: &[u8]) -> (Cpu, Mapper) {
    let mut rom = vec![0u8; 0x8000];
    for (i, b) in program.iter().enumerate() {
        rom[0x100 + i] = *b;
    }
    (Cpu::new(rom[0x14d]), Mapper::new(Mmu::new(rom)))
}

#[test]
fn power_on_state_depends_on_checksum() {
    let cpu = Cpu::new(0);
    assert_eq!(cpu.a, 0x01);
    assert_eq!(cpu.f, Flags { z: true, n: false, h: false, c: false });
    assert_eq!((cpu.b, cpu.c), (0x00, 0x13));
    assert_eq!((cpu.d, cpu.e), (0x00, 0xd8));
    assert_eq!((cpu.h, cpu.l), (0x01, 0x4d));
    assert_eq!(cpu.sp, 0xfffe);
    assert_eq!(cpu.pc, 0x0100);
    assert!(!cpu.ime && !cpu.halted);

    let cpu2 = Cpu::new(0x66);
    assert_eq!(cpu2.f, Flags { z: true, n: false, h: true, c: true });
}

#[test]
fn pair_load_round_trip() {
    // ld bc, 0x1234 — low byte first in the instruction stream.
    let (mut cpu, mut mapper) = machine(&[0x01, 0x34, 0x12]);
    assert_eq!(cpu.step(&mut mapper), Ok(Cycles(12)));
    assert_eq!(cpu.b, 0x12); // high register
    assert_eq!(cpu.c, 0x34); // low register
    assert_eq!((cpu.b as u16) * 0x100 + cpu.c as u16, 0x1234);
    assert_eq!(cpu.pc, 0x0103);
}

#[test]
fn unimplemented_opcode_is_fatal_with_opcode_and_location() {
    // NOPs from 0x0100 to 0x014F, then the invalid opcode 0xD3 at 0x0150.
    let mut program = vec![0x00u8; 0x50];
    program.push(0xd3);
    let (mut cpu, mut mapper) = machine(&program);
    for _ in 0..0x50 {
        assert_eq!(cpu.step(&mut mapper), Ok(Cycles(4)));
    }
    assert_eq!(cpu.pc, 0x0150);
    assert_eq!(
        cpu.step(&mut mapper),
        Err(Fault::UnimplementedOpcode { opcode: 0xd3, pc: 0x0150 })
    );
    // the failure report does not move the machine
    assert_eq!(cpu.pc, 0x0150);
}

#[test]
fn interrupt_priority_vblank_before_timer() {
    let (mut cpu, mut mapper) = machine(&[0x00]);
    cpu.ime = true;
    mapper.mmu.request_interrupt(Interrupt::VBlank);
    mapper.mmu.request_interrupt(Interrupt::Timer);
    mapper.mmu.write(0xffff, 0b0000_0101).unwrap();

    let pc_before = cpu.pc;
    assert_eq!(cpu.step(&mut mapper), Ok(Cycles(20)));
    assert_eq!(cpu.pc, 0x0040); // the VBLANK vector
    assert!(!cpu.ime);
    assert_eq!(cpu.sp, 0xfffc);
    // the return address was pushed little-endian
    assert_eq!(mapper.read_word(0xfffc), Ok(pc_before));
    // only the VBLANK request bit was cleared; TIMER stays pending
    assert_eq!(mapper.mmu.interrupt_flags(), 0b0000_0100);
}

#[test]
fn one_interrupt_per_step_and_the_next_comes_later() {
    let (mut cpu, mut mapper) = machine(&[0x00]);
    cpu.ime = true;
    mapper.mmu.request_interrupt(Interrupt::VBlank);
    mapper.mmu.request_interrupt(Interrupt::Timer);
    mapper.mmu.write(0xffff, 0b0000_0101).unwrap();

    assert_eq!(cpu.step(&mut mapper), Ok(Cycles(20)));
    assert_eq!(cpu.pc, 0x0040);
    // the master enable is off now, so the pending TIMER waits
    assert_ne!(cpu.step(&mut mapper), Ok(Cycles(20)));
    cpu.ime = true;
    assert_eq!(cpu.step(&mut mapper), Ok(Cycles(20)));
    assert_eq!(cpu.pc, 0x0050); // the TIMER vector
    assert_eq!(mapper.mmu.interrupt_flags(), 0);
}

#[test]
fn halt_idles_until_an_interrupt_is_pending() {
    // HALT; NOP
    let (mut cpu, mut mapper) = machine(&[0x76, 0x00]);
    assert_eq!(cpu.step(&mut mapper), Ok(Cycles(4)));
    assert!(cpu.halted);
    assert_eq!(cpu.pc, 0x0101);

    // halted, nothing pending: idle steps, nothing moves
    assert_eq!(cpu.step(&mut mapper), Ok(Cycles(4)));
    assert_eq!(cpu.step(&mut mapper), Ok(Cycles(4)));
    assert_eq!(cpu.pc, 0x0101);
    assert!(cpu.halted);

    // a pending, enabled request resumes execution even with the master
    // enable off: the NOP after the HALT runs, and no service happens
    mapper.mmu.request_interrupt(Interrupt::Joypad);
    mapper.mmu.write(0xffff, 0b0001_0000).unwrap();
    assert_eq!(cpu.step(&mut mapper), Ok(Cycles(4)));
    assert!(!cpu.halted);
    assert_eq!(cpu.pc, 0x0102);
    assert_eq!(mapper.mmu.interrupt_flags(), 0b0001_0000); // still requested
}

#[test]
fn enable_interrupts_is_delayed_by_one_instruction() {
    // EI; NOP; NOP — with VBLANK already requested and enabled.
    let (mut cpu, mut mapper) = machine(&[0xfb, 0x00, 0x00]);
    mapper.mmu.request_interrupt(Interrupt::VBlank);
    mapper.mmu.write(0xffff, 0x01).unwrap();

    assert_eq!(cpu.step(&mut mapper), Ok(Cycles(4))); // EI
    assert!(!cpu.ime);
    assert_eq!(cpu.step(&mut mapper), Ok(Cycles(4))); // the NOP after EI still runs
    assert!(cpu.ime);
    assert_eq!(cpu.pc, 0x0102);
    assert_eq!(cpu.step(&mut mapper), Ok(Cycles(20))); // now the service happens
    assert_eq!(cpu.pc, 0x0040);
}

#[test]
fn enable_then_disable_never_lets_an_interrupt_through() {
    // EI; DI; NOP — with VBLANK requested and enabled.
    let (mut cpu, mut mapper) = machine(&[0xfb, 0xf3, 0x00]);
    mapper.mmu.request_interrupt(Interrupt::VBlank);
    mapper.mmu.write(0xffff, 0x01).unwrap();

    assert_eq!(cpu.step(&mut mapper), Ok(Cycles(4))); // EI
    assert_eq!(cpu.step(&mut mapper), Ok(Cycles(4))); // DI
    assert!(!cpu.ime);
    assert_eq!(cpu.step(&mut mapper), Ok(Cycles(4))); // NOP, no service
    assert_eq!(cpu.pc, 0x0103);
}

#[test]
fn call_and_return_round_trip() {
    // 0x0100: CALL 0x0140;  0x0140: RET
    let mut program = vec![0u8; 0x41];
    program[0] = 0xcd;
    program[1] = 0x40;
    program[2] = 0x01;
    program[0x40] = 0xc9;
    let (mut cpu, mut mapper) = machine(&program);

    assert_eq!(cpu.step(&mut mapper), Ok(Cycles(24)));
    assert_eq!(cpu.pc, 0x0140);
    assert_eq!(cpu.sp, 0xfffc);
    assert_eq!(mapper.read_word(0xfffc), Ok(0x0103)); // the return address

    assert_eq!(cpu.step(&mut mapper), Ok(Cycles(16)));
    assert_eq!(cpu.pc, 0x0103);
    assert_eq!(cpu.sp, 0xfffe);
}

#[test]
fn relative_jump_backwards() {
    // JR -2 jumps back onto itself.
    let (mut cpu, mut mapper) = machine(&[0x18, 0xfe]);
    assert_eq!(cpu.step(&mut mapper), Ok(Cycles(12)));
    assert_eq!(cpu.pc, 0x0100);
}

#[test]
fn conditional_jump_cycles_differ_by_outcome() {
    // JP NZ, 0x0110 with Z set: not taken, 12 cycles.
    let (mut cpu, mut mapper) = machine(&[0xc2, 0x10, 0x01]);
    cpu.f = Flags { z: true, n: false, h: false, c: false };
    assert_eq!(cpu.step(&mut mapper), Ok(Cycles(12)));
    assert_eq!(cpu.pc, 0x0103);

    // the same program with Z clear: taken, 16 cycles.
    let (mut cpu2, mut mapper2) = machine(&[0xc2, 0x10, 0x01]);
    cpu2.f = Flags { z: false, n: false, h: false, c: false };
    assert_eq!(cpu2.step(&mut mapper2), Ok(Cycles(16)));
    assert_eq!(cpu2.pc, 0x0110);
}

#[test]
fn memory_operand_instructions_use_hl() {
    // LD HL, 0xC000; LD (HL), 0x5A; INC (HL); LD A, (HL)
    let (mut cpu, mut mapper) = machine(&[0x21, 0x00, 0xc0, 0x36, 0x5a, 0x34, 0x7e]);
    assert_eq!(cpu.step(&mut mapper), Ok(Cycles(12)));
    assert_eq!(cpu.step(&mut mapper), Ok(Cycles(12)));
    assert_eq!(mapper.read(0xc000), Ok(0x5a));
    assert_eq!(cpu.step(&mut mapper), Ok(Cycles(12)));
    assert_eq!(mapper.read(0xc000), Ok(0x5b));
    assert_eq!(cpu.step(&mut mapper), Ok(Cycles(8)));
    assert_eq!(cpu.a, 0x5b);
}

#[test]
fn load_block_moves_registers() {
    // LD B, 0x77; LD C, B; LD A, C
    let (mut cpu, mut mapper) = machine(&[0x06, 0x77, 0x48, 0x79]);
    assert_eq!(cpu.step(&mut mapper), Ok(Cycles(8)));
    assert_eq!(cpu.step(&mut mapper), Ok(Cycles(4)));
    assert_eq!(cpu.step(&mut mapper), Ok(Cycles(4)));
    assert_eq!((cpu.a, cpu.b, cpu.c), (0x77, 0x77, 0x77));
}

#[test]
fn alu_block_dispatches_by_operand_code() {
    // LD B, 0x0F; ADD A, B   (A starts at 0x01 after power-on)
    let (mut cpu, mut mapper) = machine(&[0x06, 0x0f, 0x80]);
    cpu.a = 0x01;
    assert_eq!(cpu.step(&mut mapper), Ok(Cycles(8)));
    assert_eq!(cpu.step(&mut mapper), Ok(Cycles(4)));
    assert_eq!(cpu.a, 0x10);
    assert!(cpu.f.h);
    assert!(!cpu.f.c && !cpu.f.z && !cpu.f.n);
}

#[test]
fn extended_table_swap_set_and_res() {
    // SWAP A; SET 1, A; RES 0, A
    let (mut cpu, mut mapper) = machine(&[0xcb, 0x37, 0xcb, 0xcf, 0xcb, 0x87]);
    cpu.a = 0xab;
    assert_eq!(cpu.step(&mut mapper), Ok(Cycles(8)));
    assert_eq!(cpu.a, 0xba);
    assert!(!cpu.f.z);
    assert_eq!(cpu.step(&mut mapper), Ok(Cycles(8)));
    assert_eq!(cpu.a, 0xba | 0x02);
    assert_eq!(cpu.step(&mut mapper), Ok(Cycles(8)));
    assert_eq!(cpu.a, 0xba | 0x02); // bit 0 was already clear
}

#[test]
fn extended_table_rotate_and_bit_test() {
    // RLC B; BIT 7, B
    let (mut cpu, mut mapper) = machine(&[0xcb, 0x00, 0xcb, 0x78]);
    cpu.b = 0x85;
    assert_eq!(cpu.step(&mut mapper), Ok(Cycles(8)));
    assert_eq!(cpu.b, 0x0b);
    assert!(cpu.f.c);
    assert_eq!(cpu.step(&mut mapper), Ok(Cycles(8)));
    assert!(cpu.f.z); // bit 7 of 0x0B is clear
    assert!(cpu.f.h);
    assert!(cpu.f.c); // BIT leaves the carry alone
}

#[test]
fn extended_table_operates_on_memory_through_hl() {
    // LD HL, 0xC010; LD (HL), 0x01; SLA (HL)
    let (mut cpu, mut mapper) = machine(&[0x21, 0x10, 0xc0, 0x36, 0x01, 0xcb, 0x26]);
    cpu.step(&mut mapper).unwrap();
    cpu.step(&mut mapper).unwrap();
    assert_eq!(cpu.step(&mut mapper), Ok(Cycles(16)));
    assert_eq!(mapper.read(0xc010), Ok(0x02));
}

#[test]
fn push_af_masks_the_flag_byte_and_pop_af_restores() {
    // PUSH AF; POP BC — the flag byte travels with a clear low nibble.
    let (mut cpu, mut mapper) = machine(&[0xf5, 0xc1]);
    cpu.a = 0x9c;
    cpu.f = Flags { z: true, n: false, h: true, c: true };
    assert_eq!(cpu.step(&mut mapper), Ok(Cycles(16)));
    assert_eq!(cpu.step(&mut mapper), Ok(Cycles(12)));
    assert_eq!(cpu.b, 0x9c);
    assert_eq!(cpu.c, 0xb0); // Z|H|C == 0x80|0x20|0x10

    // POP AF masks whatever low nibble the stack holds.
    let (mut cpu2, mut mapper2) = machine(&[0x01, 0xff, 0x12, 0xc5, 0xf1]);
    cpu2.step(&mut mapper2).unwrap(); // LD BC, 0x12FF
    cpu2.step(&mut mapper2).unwrap(); // PUSH BC
    assert_eq!(cpu2.step(&mut mapper2), Ok(Cycles(12))); // POP AF
    assert_eq!(cpu2.a, 0x12);
    assert_eq!(cpu2.f, Flags { z: true, n: true, h: true, c: true });
}

#[test]
fn fetch_from_an_unmapped_counter_is_a_bus_fault() {
    let (mut cpu, mut mapper) = machine(&[0x00]);
    cpu.pc = 0x9000;
    assert_eq!(cpu.step(&mut mapper), Err(Fault::UnmappedAddress { address: 0x9000 }));
}

#[test]
fn stop_enters_the_low_power_state() {
    // STOP (with its padding byte)
    let (mut cpu, mut mapper) = machine(&[0x10, 0x00]);
    assert_eq!(cpu.step(&mut mapper), Ok(Cycles(4)));
    assert!(cpu.halted);
    assert_eq!(cpu.pc, 0x0102);
}

#[test]
fn accumulator_rotates_clear_zero() {
    // RLCA with A = 0x80: result 0x01, carry set, Z stays clear.
    let (mut cpu, mut mapper) = machine(&[0x07]);
    cpu.a = 0x80;
    cpu.f = Flags { z: true, n: true, h: true, c: false };
    assert_eq!(cpu.step(&mut mapper), Ok(Cycles(4)));
    assert_eq!(cpu.a, 0x01);
    assert_eq!(cpu.f, Flags { z: false, n: false, h: false, c: true });
}

#[test]
fn load_and_store_through_the_high_page() {
    // LDH (0x80), A; LDH A, (0x80)
    let (mut cpu, mut mapper) = machine(&[0xe0, 0x80, 0x3e, 0x00, 0xf0, 0x80]);
    cpu.a = 0x42;
    assert_eq!(cpu.step(&mut mapper), Ok(Cycles(12)));
    assert_eq!(mapper.read(0xff80), Ok(0x42));
    cpu.step(&mut mapper).unwrap(); // LD A, 0x00
    assert_eq!(cpu.a, 0x00);
    assert_eq!(cpu.step(&mut mapper), Ok(Cycles(12)));
    assert_eq!(cpu.a, 0x42);
}

#[test]
fn post_increment_and_post_decrement_loads() {
    // LD HL, 0xC000; LD (HL+), A; LD (HL-), A
    let (mut cpu, mut mapper) = machine(&[0x21, 0x00, 0xc0, 0x22, 0x32]);
    cpu.a = 0x11;
    cpu.step(&mut mapper).unwrap();
    assert_eq!(cpu.step(&mut mapper), Ok(Cycles(8)));
    assert_eq!((cpu.h, cpu.l), (0xc0, 0x01));
    assert_eq!(cpu.step(&mut mapper), Ok(Cycles(8)));
    assert_eq!((cpu.h, cpu.l), (0xc0, 0x00));
    assert_eq!(mapper.read(0xc000), Ok(0x11));
    assert_eq!(mapper.read(0xc001), Ok(0x11));
}
