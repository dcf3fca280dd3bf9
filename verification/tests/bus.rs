use gb_core::fault::Fault;
use gb_core::interrupts::Interrupt;
use gb_core::mmu::{Mapper, Mmu};

fn small_rom() -> Vec<u8> {
    let mut rom = vec![0u8; 0x200];
    rom[0] = 0xc3;
    rom[1] = 0x50;
    rom[2] = 0x01;
    rom
}

#[test]
fn rom_reads_come_from_the_image() {
    let mmu = Mmu::new(small_rom());
    assert_eq!(mmu.read(0x0000), Ok(0xc3));
    assert_eq!(mmu.read(0x0001), Ok(0x50));
    // past the end of the image the cartridge yields the open-bus byte
    assert_eq!(mmu.read(0x1000), Ok(0xff));
}

#[test]
fn rom_is_not_writable() {
    let mut mmu = Mmu::new(small_rom());
    assert_eq!(mmu.write(0x0000, 0x12), Err(Fault::UnmappedAddress { address: 0x0000 }));
    assert_eq!(mmu.read(0x0000), Ok(0xc3));
}

#[test]
fn work_ram_byte_round_trip() {
    let mut mmu = Mmu::new(small_rom());
    assert_eq!(mmu.write(0xc123, 0xab), Ok(()));
    assert_eq!(mmu.read(0xc123), Ok(0xab));
}

#[test]
fn word_round_trip_in_work_ram_high_ram_and_video() {
    let mut mmu = Mmu::new(small_rom());
    assert_eq!(mmu.write_word(0xc200, 0x1234), Ok(()));
    assert_eq!(mmu.read_word(0xc200), Ok(0x1234));
    // low byte at the lower address
    assert_eq!(mmu.read(0xc200), Ok(0x34));
    assert_eq!(mmu.read(0xc201), Ok(0x12));

    assert_eq!(mmu.write_word(0xff80, 0xbeef), Ok(()));
    assert_eq!(mmu.read_word(0xff80), Ok(0xbeef));

    assert_eq!(mmu.write_word(0xff40, 0x0102), Ok(()));
    assert_eq!(mmu.read_word(0xff40), Ok(0x0102));
}

#[test]
fn echo_ram_aliases_work_ram_both_ways() {
    let mut mmu = Mmu::new(small_rom());
    assert_eq!(mmu.write(0xe005, 0x77), Ok(()));
    assert_eq!(mmu.read(0xc005), Ok(0x77));

    assert_eq!(mmu.write(0xd234, 0x55), Ok(()));
    assert_eq!(mmu.read(0xf234), Ok(0x55));
}

#[test]
fn serial_stub_reads_zero_and_swallows_writes() {
    let mut mmu = Mmu::new(small_rom());
    assert_eq!(mmu.write(0xff01, 0x99), Ok(()));
    assert_eq!(mmu.read(0xff01), Ok(0x00));
    assert_eq!(mmu.read(0xff02), Ok(0x00));
}

#[test]
fn sound_stub_swallows_writes_but_is_not_readable() {
    let mut mmu = Mmu::new(small_rom());
    assert_eq!(mmu.write(0xff10, 0x80), Ok(()));
    assert_eq!(mmu.read(0xff10), Err(Fault::UnmappedAddress { address: 0xff10 }));
}

#[test]
fn unmapped_access_is_a_fault_under_the_strict_policy() {
    let mut mmu = Mmu::new(small_rom());
    assert_eq!(mmu.read(0x9000), Err(Fault::UnmappedAddress { address: 0x9000 }));
    assert_eq!(mmu.write(0x9000, 1), Err(Fault::UnmappedAddress { address: 0x9000 }));
    assert_eq!(mmu.read(0xfe00), Err(Fault::UnmappedAddress { address: 0xfe00 }));
}

#[test]
fn open_bus_policy_yields_sentinel_reads_and_dropped_writes() {
    let mut mmu = Mmu::new_open_bus(small_rom());
    assert_eq!(mmu.read(0x9000), Ok(0xff));
    assert_eq!(mmu.write(0x9000, 1), Ok(()));
    assert_eq!(mmu.read(0x9000), Ok(0xff));
    // mapped regions behave as under the strict policy
    assert_eq!(mmu.write(0xc000, 0x42), Ok(()));
    assert_eq!(mmu.read(0xc000), Ok(0x42));
}

#[test]
fn interrupt_registers_are_plain_storage() {
    let mut mmu = Mmu::new(small_rom());
    assert_eq!(mmu.write(0xff0f, 0xe5), Ok(()));
    assert_eq!(mmu.read(0xff0f), Ok(0xe5));
    assert_eq!(mmu.interrupt_flags(), 0xe5);

    assert_eq!(mmu.write(0xffff, 0x1f), Ok(()));
    assert_eq!(mmu.read(0xffff), Ok(0x1f));
    assert_eq!(mmu.enabled_interrupts(), 0x1f);

    // only the low five bits count as pending
    assert_eq!(mmu.pending_interrupts(), 0x05);
}

#[test]
fn reset_clears_only_the_one_request_bit() {
    let mut mmu = Mmu::new(small_rom());
    assert_eq!(mmu.write(0xff0f, 0b0001_0101), Ok(()));
    mmu.reset_interrupt_flag(Interrupt::Timer);
    assert_eq!(mmu.interrupt_flags(), 0b0001_0001);
}

#[test]
fn request_sets_only_the_one_bit() {
    let mut mmu = Mmu::new(small_rom());
    mmu.request_interrupt(Interrupt::Serial);
    mmu.request_interrupt(Interrupt::VBlank);
    assert_eq!(mmu.interrupt_flags(), 0b0000_1001);
}

#[test]
fn mapper_pc_fetches_advance_the_counter() {
    let mmu = Mmu::new(small_rom());
    let mapper = Mapper::new(mmu);
    let mut pc: u16 = 0x0000;
    assert_eq!(mapper.read_pc(&mut pc), Ok(0xc3));
    assert_eq!(pc, 0x0001);
    assert_eq!(mapper.read_word_pc(&mut pc), Ok(0x0150));
    assert_eq!(pc, 0x0003);
}
