use gb_core::cycles::Cycles;
use gb_core::flags::Flags;
use gb_core::gameboy::Gameboy;
use gb_core::rom_info::{MbcType, RomInfo};

fn rom_with_header(title: &[u8], mbc_code: u8, checksum: u8) -> Vec<u8> {
    let mut rom = vec![0u8; 0x8000];
    for (i, b) in title.iter().enumerate() {
        rom[0x134 + i] = *b;
    }
    rom[0x147] = mbc_code;
    rom[0x14d] = checksum;
    rom
}

#[test]
fn title_stops_at_the_first_zero_byte() {
    let rom = rom_with_header(b"TETRIS\0JUNK", 0x00, 0x00);
    let info = RomInfo::new(&rom);
    assert_eq!(info.title, b"TETRIS".to_vec());
}

#[test]
fn title_may_fill_all_sixteen_bytes() {
    let rom = rom_with_header(b"ABCDEFGHIJKLMNOP", 0x00, 0x00);
    let info = RomInfo::new(&rom);
    assert_eq!(info.title, b"ABCDEFGHIJKLMNOP".to_vec());
}

#[test]
fn empty_title() {
    let rom = rom_with_header(b"", 0x00, 0x00);
    let info = RomInfo::new(&rom);
    assert_eq!(info.title, Vec::<u8>::new());
}

#[test]
fn mbc_codes_classify() {
    let cases: Vec<(u8, MbcType)> = vec![
        (0x00, MbcType::NoMBC),
        (0x08, MbcType::NoMBC),
        (0x09, MbcType::NoMBC),
        (0x01, MbcType::MBC1),
        (0x03, MbcType::MBC1),
        (0x05, MbcType::MBC2),
        (0x06, MbcType::MBC2),
        (0x0b, MbcType::MMM01),
        (0x0d, MbcType::MMM01),
        (0x0f, MbcType::MBC3),
        (0x13, MbcType::MBC3),
        (0x15, MbcType::MBC4),
        (0x17, MbcType::MBC4),
        (0x19, MbcType::MBC5),
        (0x1e, MbcType::MBC5),
        (0x04, MbcType::Unknown),
        (0xff, MbcType::Unknown),
    ];
    for (code, expected) in cases {
        let rom = rom_with_header(b"X", code, 0);
        assert_eq!(RomInfo::new(&rom).mbc_type, expected);
    }
}

#[test]
fn shortest_accepted_image_reaches_the_checksum_byte() {
    // nothing past index 0x14D is read, so 0x14E bytes are enough
    let mut rom = vec![0u8; 0x14e];
    rom[0x134] = b'A';
    rom[0x147] = 0x01;
    rom[0x14d] = 0x33;
    let info = RomInfo::new(&rom);
    assert_eq!(info.title, b"A".to_vec());
    assert_eq!(info.mbc_type, MbcType::MBC1);
    assert_eq!(info.checksum, 0x33);
}

#[test]
fn checksum_byte_is_read_from_the_header() {
    let rom = rom_with_header(b"X", 0, 0x5a);
    assert_eq!(RomInfo::new(&rom).checksum, 0x5a);
}

#[test]
fn assembled_machine_seeds_flags_from_the_checksum() {
    let rom = rom_with_header(b"GAME", 0x01, 0x00);
    let gb = Gameboy::new(rom);
    assert_eq!(gb.info.title, b"GAME".to_vec());
    assert_eq!(gb.info.mbc_type, MbcType::MBC1);
    assert_eq!(gb.cpu.f, Flags { z: true, n: false, h: false, c: false });

    let rom2 = rom_with_header(b"GAME", 0x00, 0x7f);
    let gb2 = Gameboy::new(rom2);
    assert_eq!(gb2.cpu.f, Flags { z: true, n: false, h: true, c: true });
}

#[test]
fn assembled_machine_steps_from_the_entry_point() {
    // NOP at the entry point 0x0100.
    let rom = rom_with_header(b"GAME", 0x00, 0x00);
    let mut gb = Gameboy::new(rom);
    assert_eq!(gb.step(), Ok(Cycles(4)));
    assert_eq!(gb.cpu.pc, 0x0101);
}
