//! One test per dispatcher arm family, checking that each opcode routes to
//! the operation with its exact cycle cost and effect.

use gb_core::cpu::Cpu;
use gb_core::cycles::Cycles;
use gb_core::flags::Flags;
use gb_core::mmu::{Mapper, Mmu};

fn machine(program: &[u8]) -> (Cpu, Mapper) {
    let mut rom = vec![0u8; 0x8000];
    for (i, b) in program.iter().enumerate() {
        rom[0x100 + i] = *b;
    }
    (Cpu::new(rom[0x14d]), Mapper::new(Mmu::new(rom)))
}

fn clear_flags(cpu: &mut Cpu) {
    cpu.f = Flags { z: false, n: false, h: false, c: false };
}

#[test]
fn adc_immediate_uses_the_carry() {
    let (mut cpu, mut mapper) = machine(&[0xce, 0x01]);
    cpu.a = 0x01;
    cpu.f = Flags { z: false, n: false, h: false, c: true };
    assert_eq!(cpu.step(&mut mapper), Ok(Cycles(8)));
    assert_eq!(cpu.a, 0x03); // 1 + 1 + carry
}

#[test]
fn sbc_immediate_uses_the_borrow() {
    let (mut cpu, mut mapper) = machine(&[0xde, 0x01]);
    cpu.a = 0x10;
    cpu.f = Flags { z: false, n: false, h: false, c: true };
    assert_eq!(cpu.step(&mut mapper), Ok(Cycles(8)));
    assert_eq!(cpu.a, 0x0e); // 0x10 - 1 - borrow
}

#[test]
fn logic_immediates() {
    let (mut cpu, mut mapper) = machine(&[0xe6, 0x0f, 0xf6, 0xf0, 0xee, 0xff]);
    cpu.a = 0xcc;
    assert_eq!(cpu.step(&mut mapper), Ok(Cycles(8))); // AND 0x0F
    assert_eq!(cpu.a, 0x0c);
    assert!(cpu.f.h && !cpu.f.c);
    assert_eq!(cpu.step(&mut mapper), Ok(Cycles(8))); // OR 0xF0
    assert_eq!(cpu.a, 0xfc);
    assert_eq!(cpu.step(&mut mapper), Ok(Cycles(8))); // XOR 0xFF
    assert_eq!(cpu.a, 0x03);
}

#[test]
fn compare_immediate_leaves_the_accumulator() {
    let (mut cpu, mut mapper) = machine(&[0xfe, 0x42]);
    cpu.a = 0x42;
    assert_eq!(cpu.step(&mut mapper), Ok(Cycles(8)));
    assert_eq!(cpu.a, 0x42);
    assert!(cpu.f.z && cpu.f.n);
}

#[test]
fn loads_through_bc_and_de_pointers() {
    // LD A,(BC); LD (DE),A
    let (mut cpu, mut mapper) = machine(&[0x0a, 0x12]);
    cpu.b = 0xc0;
    cpu.c = 0x05;
    cpu.d = 0xc0;
    cpu.e = 0x06;
    mapper.write(0xc005, 0x99).unwrap();
    assert_eq!(cpu.step(&mut mapper), Ok(Cycles(8)));
    assert_eq!(cpu.a, 0x99);
    assert_eq!(cpu.step(&mut mapper), Ok(Cycles(8)));
    assert_eq!(mapper.read(0xc006), Ok(0x99));
}

#[test]
fn loads_through_an_immediate_address() {
    // LD (0xC123),A; LD A,(0xC124)
    let (mut cpu, mut mapper) = machine(&[0xea, 0x23, 0xc1, 0xfa, 0x24, 0xc1]);
    cpu.a = 0x5c;
    mapper.write(0xc124, 0x7d).unwrap();
    assert_eq!(cpu.step(&mut mapper), Ok(Cycles(16)));
    assert_eq!(mapper.read(0xc123), Ok(0x5c));
    assert_eq!(cpu.step(&mut mapper), Ok(Cycles(16)));
    assert_eq!(cpu.a, 0x7d);
}

#[test]
fn loads_through_the_high_page_indexed_by_c() {
    // LD (C),A; LD A,(C)
    let (mut cpu, mut mapper) = machine(&[0xe2, 0xf2]);
    cpu.a = 0x31;
    cpu.c = 0x81;
    assert_eq!(cpu.step(&mut mapper), Ok(Cycles(8)));
    assert_eq!(mapper.read(0xff81), Ok(0x31));
    cpu.a = 0;
    assert_eq!(cpu.step(&mut mapper), Ok(Cycles(8)));
    assert_eq!(cpu.a, 0x31);
}

#[test]
fn store_stack_pointer_at_an_immediate_address() {
    // LD (0xC200),SP
    let (mut cpu, mut mapper) = machine(&[0x08, 0x00, 0xc2]);
    cpu.sp = 0xbeef;
    assert_eq!(cpu.step(&mut mapper), Ok(Cycles(20)));
    assert_eq!(mapper.read(0xc200), Ok(0xef)); // low byte at the lower address
    assert_eq!(mapper.read(0xc201), Ok(0xbe));
}

#[test]
fn copy_hl_into_the_stack_pointer() {
    let (mut cpu, mut mapper) = machine(&[0xf9]);
    cpu.h = 0x12;
    cpu.l = 0x34;
    assert_eq!(cpu.step(&mut mapper), Ok(Cycles(8)));
    assert_eq!(cpu.sp, 0x1234);
}

#[test]
fn sp_adjust_and_hl_from_sp_plus_offset() {
    // ADD SP, 8; LD HL, SP-8
    let (mut cpu, mut mapper) = machine(&[0xe8, 0x08, 0xf8, 0xf8]);
    cpu.sp = 0xfff0;
    assert_eq!(cpu.step(&mut mapper), Ok(Cycles(16)));
    assert_eq!(cpu.sp, 0xfff8);
    assert_eq!(cpu.step(&mut mapper), Ok(Cycles(12)));
    assert_eq!((cpu.h, cpu.l), (0xff, 0xf0));
    assert_eq!(cpu.sp, 0xfff8); // the load form leaves the stack pointer
}

#[test]
fn carry_flag_instructions() {
    // SCF; CCF
    let (mut cpu, mut mapper) = machine(&[0x37, 0x3f]);
    cpu.f = Flags { z: true, n: true, h: true, c: false };
    assert_eq!(cpu.step(&mut mapper), Ok(Cycles(4)));
    assert_eq!(cpu.f, Flags { z: true, n: false, h: false, c: true });
    assert_eq!(cpu.step(&mut mapper), Ok(Cycles(4)));
    assert_eq!(cpu.f, Flags { z: true, n: false, h: false, c: false });
}

#[test]
fn jump_to_hl_is_four_cycles() {
    let (mut cpu, mut mapper) = machine(&[0xe9]);
    cpu.h = 0x01;
    cpu.l = 0x50;
    assert_eq!(cpu.step(&mut mapper), Ok(Cycles(4)));
    assert_eq!(cpu.pc, 0x0150);
}

#[test]
fn restart_pushes_and_jumps_to_its_vector() {
    let (mut cpu, mut mapper) = machine(&[0xef]);
    assert_eq!(cpu.step(&mut mapper), Ok(Cycles(16)));
    assert_eq!(cpu.pc, 0x0028);
    assert_eq!(cpu.sp, 0xfffc);
    assert_eq!(mapper.read_word(0xfffc), Ok(0x0101));
}

#[test]
fn reti_returns_and_reenables_interrupts() {
    let (mut cpu, mut mapper) = machine(&[0xd9]);
    cpu.sp = 0xfffc;
    mapper.write_word(0xfffc, 0x0123).unwrap();
    assert!(!cpu.ime);
    assert_eq!(cpu.step(&mut mapper), Ok(Cycles(16)));
    assert_eq!(cpu.pc, 0x0123);
    assert_eq!(cpu.sp, 0xfffe);
    assert!(cpu.ime);
}

#[test]
fn conditional_call_and_return_on_the_carry_flag() {
    // CALL C, 0x0140 ... 0x0140: RET C
    let mut program = vec![0u8; 0x41];
    program[0] = 0xdc;
    program[1] = 0x40;
    program[2] = 0x01;
    program[0x40] = 0xd8;
    let (mut cpu, mut mapper) = machine(&program);
    clear_flags(&mut cpu);
    cpu.f.c = true;
    assert_eq!(cpu.step(&mut mapper), Ok(Cycles(24))); // taken call
    assert_eq!(cpu.pc, 0x0140);
    assert_eq!(cpu.step(&mut mapper), Ok(Cycles(20))); // taken return
    assert_eq!(cpu.pc, 0x0103);

    // with the carry clear neither moves the program counter away
    let (mut cpu2, mut mapper2) = machine(&[0xdc, 0x40, 0x01, 0xd8]);
    clear_flags(&mut cpu2);
    assert_eq!(cpu2.step(&mut mapper2), Ok(Cycles(12))); // call not taken
    assert_eq!(cpu2.pc, 0x0103);
    assert_eq!(cpu2.step(&mut mapper2), Ok(Cycles(8))); // return not taken
    assert_eq!(cpu2.pc, 0x0104);
}

#[test]
fn push_and_pop_each_register_pair() {
    // PUSH HL; POP DE
    let (mut cpu, mut mapper) = machine(&[0xe5, 0xd1]);
    cpu.h = 0xab;
    cpu.l = 0xcd;
    assert_eq!(cpu.step(&mut mapper), Ok(Cycles(16)));
    assert_eq!(cpu.step(&mut mapper), Ok(Cycles(12)));
    assert_eq!((cpu.d, cpu.e), (0xab, 0xcd));
    assert_eq!(cpu.sp, 0xfffe);
}

#[test]
fn decrement_memory_through_hl() {
    // LD HL,0xC000; DEC (HL) with the cell at zero wraps to 0xFF
    let (mut cpu, mut mapper) = machine(&[0x21, 0x00, 0xc0, 0x35]);
    cpu.step(&mut mapper).unwrap();
    let carry_before = cpu.f.c;
    assert_eq!(cpu.step(&mut mapper), Ok(Cycles(12)));
    assert_eq!(mapper.read(0xc000), Ok(0xff));
    assert!(cpu.f.n);
    assert_eq!(cpu.f.c, carry_before); // carry never modified
}

#[test]
fn sixteen_bit_add_of_the_stack_pointer_into_hl() {
    let (mut cpu, mut mapper) = machine(&[0x39]);
    cpu.h = 0x10;
    cpu.l = 0x00;
    cpu.sp = 0x0234;
    assert_eq!(cpu.step(&mut mapper), Ok(Cycles(8)));
    assert_eq!((cpu.h, cpu.l), (0x12, 0x34));
}

#[test]
fn sixteen_bit_increments_and_decrements_wrap() {
    // INC SP; DEC SP; INC BC
    let (mut cpu, mut mapper) = machine(&[0x33, 0x3b, 0x03]);
    cpu.sp = 0xffff;
    assert_eq!(cpu.step(&mut mapper), Ok(Cycles(8)));
    assert_eq!(cpu.sp, 0x0000);
    assert_eq!(cpu.step(&mut mapper), Ok(Cycles(8)));
    assert_eq!(cpu.sp, 0xffff);
    cpu.b = 0xff;
    cpu.c = 0xff;
    assert_eq!(cpu.step(&mut mapper), Ok(Cycles(8)));
    assert_eq!((cpu.b, cpu.c), (0x00, 0x00));
}

#[test]
fn extended_bit_test_and_set_on_memory() {
    // LD HL,0xC010; BIT 0,(HL); SET 0,(HL)
    let (mut cpu, mut mapper) = machine(&[0x21, 0x10, 0xc0, 0xcb, 0x46, 0xcb, 0xc6]);
    cpu.step(&mut mapper).unwrap();
    assert_eq!(cpu.step(&mut mapper), Ok(Cycles(12))); // BIT on memory
    assert!(cpu.f.z); // the fresh cell is zero
    assert_eq!(cpu.step(&mut mapper), Ok(Cycles(16))); // SET on memory
    assert_eq!(mapper.read(0xc010), Ok(0x01));
}

#[test]
fn store_each_register_through_hl() {
    // LD HL,0xC020; LD (HL),A
    let (mut cpu, mut mapper) = machine(&[0x21, 0x20, 0xc0, 0x77]);
    cpu.a = 0x66;
    cpu.step(&mut mapper).unwrap();
    assert_eq!(cpu.step(&mut mapper), Ok(Cycles(8)));
    assert_eq!(mapper.read(0xc020), Ok(0x66));
}

#[test]
fn accumulator_rotates_through_carry() {
    // RLA; RRA
    let (mut cpu, mut mapper) = machine(&[0x17, 0x1f]);
    cpu.a = 0x80;
    clear_flags(&mut cpu);
    assert_eq!(cpu.step(&mut mapper), Ok(Cycles(4)));
    assert_eq!(cpu.a, 0x00); // the old carry was clear
    assert!(cpu.f.c);
    assert_eq!(cpu.step(&mut mapper), Ok(Cycles(4)));
    assert_eq!(cpu.a, 0x80); // the carry re-enters at the top
    assert!(!cpu.f.c);
}
