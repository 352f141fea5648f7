use dmg_core::memory::{
    mask_bank_number, rom_bank_count, CartridgeInfo, MBCType, Memory,
    MemoryInitializationErrorType, MBC,
};

/// A ROM image of `banks` banks whose every byte is the number of its
/// bank (modulo 256), with a header for the given cartridge.
fn rom(banks: usize, kind: u8, rom_size: u8, ram_size: u8) -> Vec<u8> {
    let mut image = vec![0u8; banks * 0x4000];
    for (offset, byte) in image.iter_mut().enumerate() {
        *byte = (offset / 0x4000) as u8;
    }
    image[0x147] = kind;
    image[0x148] = rom_size;
    image[0x149] = ram_size;
    for (index, byte) in b"TESTCART".iter().enumerate() {
        image[0x134 + index] = *byte;
    }
    for index in 8..15 {
        image[0x134 + index] = 0;
    }
    image
}

fn memory(banks: usize, kind: u8, rom_size: u8, ram_size: u8) -> Memory {
    match Memory::new(rom(banks, kind, rom_size, ram_size)) {
        Ok(memory) => memory,
        Err(error) => panic!("refused: {:?}", error),
    }
}

#[test]
fn header_is_read() {
    let image = rom(4, 0x13, 0x01, 0x03);
    let info = CartridgeInfo::from_header(&image[0x100..0x150]);
    assert_eq!(info.mbc, MBCType::MBC3);
    assert!(info.has_ram);
    assert!(info.has_battery);
    assert_eq!(info.rom_banks, 4);
    assert_eq!(info.ram_banks, 4);
    assert_eq!(info.title, "TESTCART\0\0\0\0\0\0\0");
}

#[test]
fn header_type_byte_names_the_controller() {
    let cases: [(u8, MBCType, bool, bool); 14] = [
        (0x00, MBCType::NoMBC, false, false),
        (0x01, MBCType::MBC1, false, false),
        (0x02, MBCType::MBC1, true, false),
        (0x03, MBCType::MBC1, true, true),
        (0x05, MBCType::MBC2, false, false),
        (0x06, MBCType::MBC2, false, true),
        (0x0B, MBCType::MMM01, false, false),
        (0x0F, MBCType::MBC3, false, true),
        (0x11, MBCType::MBC3, false, false),
        (0x19, MBCType::MBC5, false, false),
        (0x1B, MBCType::MBC5, true, true),
        (0x20, MBCType::MBC6, false, false),
        (0x22, MBCType::MBC7, true, true),
        (0xFF, MBCType::HuC1, false, false),
    ];
    for (code, kind, has_ram, has_battery) in cases {
        let image = rom(2, code, 0, 2);
        let info = CartridgeInfo::from_header(&image[0x100..0x150]);
        assert_eq!(info.mbc, kind);
        assert_eq!(info.has_ram, has_ram);
        assert_eq!(info.has_battery, has_battery);
        assert_eq!(info.ram_banks, if has_ram { 1 } else { 0 });
    }
    let image = rom(2, 0xFE, 0, 0);
    assert_eq!(CartridgeInfo::from_header(&image[0x100..0x150]).mbc, MBCType::HuC3);
}

#[test]
fn header_size_bytes_give_the_bank_counts() {
    assert_eq!(rom_bank_count(0), 2);
    assert_eq!(rom_bank_count(1), 4);
    assert_eq!(rom_bank_count(6), 128);
    assert_eq!(rom_bank_count(8), 512);
    assert_eq!(rom_bank_count(14), 32768);
    assert_eq!(rom_bank_count(15), 65535);
    assert_eq!(rom_bank_count(255), 65535);
    for (size, banks) in [(0u8, 0u16), (1, 0), (2, 1), (3, 4), (4, 16), (5, 8), (6, 0)] {
        let image = rom(2, 0x03, 0, size);
        assert_eq!(CartridgeInfo::from_header(&image[0x100..0x150]).ram_banks, banks);
    }
}

#[test]
fn a_title_that_is_not_utf8_is_empty() {
    let mut image = rom(2, 0, 0, 0);
    image[0x134] = 0xFF;
    let info = CartridgeInfo::from_header(&image[0x100..0x150]);
    assert_eq!(info.title, "");
}

#[test]
fn a_title_may_fill_all_fifteen_bytes() {
    let mut image = rom(2, 0, 0, 0);
    for (index, byte) in b"ABCDEFGHIJKLMNO".iter().enumerate() {
        image[0x134 + index] = *byte;
    }
    let info = CartridgeInfo::from_header(&image[0x100..0x150]);
    assert_eq!(info.title, "ABCDEFGHIJKLMNO");
}

#[test]
fn a_short_image_has_no_header() {
    for length in [0usize, 1, 0x100, 0x14F] {
        match Memory::new(vec![0u8; length]) {
            Ok(_) => panic!("accepted an image of {} bytes", length),
            Err(error) => assert_eq!(error.error_type, MemoryInitializationErrorType::NoHeader),
        }
    }
    assert!(Memory::new(vec![0u8; 0x150]).is_ok());
}

#[test]
fn an_unsupported_controller_is_refused() {
    for (code, kind) in [
        (0x05u8, MBCType::MBC2),
        (0x0B, MBCType::MMM01),
        (0x20, MBCType::MBC6),
        (0x22, MBCType::MBC7),
        (0xFE, MBCType::HuC3),
        (0xFF, MBCType::HuC1),
    ] {
        match Memory::new(rom(2, code, 0, 0)) {
            Ok(_) => panic!("accepted controller {:?}", kind),
            Err(error) => {
                assert_eq!(error.error_type, MemoryInitializationErrorType::UnimplementedMBC(kind))
            }
        }
    }
    for code in [0x00u8, 0x01, 0x0F, 0x13, 0x19, 0x1E] {
        assert!(Memory::new(rom(2, code, 0, 0)).is_ok());
    }
}

#[test]
fn bank_numbers_are_masked_to_the_bits_needed() {
    assert_eq!(mask_bank_number(0xFF, 0), 0);
    assert_eq!(mask_bank_number(0xFF, 1), 0);
    assert_eq!(mask_bank_number(0xFF, 2), 1);
    assert_eq!(mask_bank_number(0xFF, 3), 3);
    assert_eq!(mask_bank_number(0xFF, 4), 3);
    assert_eq!(mask_bank_number(0xFF, 5), 7);
    assert_eq!(mask_bank_number(0xFF, 32), 0x1F);
    assert_eq!(mask_bank_number(0xFF, 33), 0x3F);
    assert_eq!(mask_bank_number(0xFF, 128), 0x7F);
    assert_eq!(mask_bank_number(0xFF, 129), 0xFF);
    assert_eq!(mask_bank_number(0xFF, 512), 0xFF);
    for banks in [1u16, 2, 4, 8, 16, 32, 64, 128, 256] {
        for number in 0..=255u8 {
            assert_eq!(mask_bank_number(number, banks) as u16, number as u16 % banks);
        }
    }
}

#[test]
fn work_ram_and_high_ram_keep_what_is_written() {
    let mut memory = memory(2, 0, 0, 0);
    for (address, value) in [(0xC000u16, 0x11u8), (0xDFFF, 0x22), (0xFF80, 0x33), (0xFFFE, 0x44)] {
        memory.mem_write(address, value);
        assert_eq!(memory.mem_read(address), value);
    }
    assert_eq!(memory.mem_read(0xC001), 0);
}

#[test]
fn echo_ram_mirrors_work_ram() {
    let mut memory = memory(2, 0, 0, 0);
    memory.mem_write(0xC123, 0x5A);
    assert_eq!(memory.mem_read(0xE123), 0x5A);
    memory.mem_write(0xFDFF, 0xA5);
    assert_eq!(memory.mem_read(0xDDFF), 0xA5);
}

#[test]
fn rom_only_cartridge_is_fixed() {
    let mut memory = memory(2, 0x00, 0, 0);
    assert_eq!(memory.mem_read(0x0000), 0);
    assert_eq!(memory.mem_read(0x3FFF), 0);
    assert_eq!(memory.mem_read(0x4000), 1);
    assert_eq!(memory.mem_read(0x7FFF), 1);
    memory.mem_write(0x2000, 0x00);
    memory.mem_write(0x4000, 0x55);
    assert_eq!(memory.mem_read(0x4000), 1);
    assert_eq!(memory.mem_read(0xA000), 0);
    memory.mem_write(0xA000, 0x77);
    assert_eq!(memory.mem_read(0xA000), 0);
}

#[test]
fn mbc1_selects_rom_banks() {
    let mut memory = memory(32, 0x01, 0x04, 0);
    assert_eq!(memory.mem_read(0x4000), 1);
    for bank in 1..32u8 {
        memory.mem_write(0x2000, bank);
        assert_eq!(memory.mem_read(0x4000), bank);
        assert_eq!(memory.mem_read(0x7FFF), bank);
        assert_eq!(memory.mem_read(0x0000), 0);
    }
    memory.mem_write(0x3FFF, 0x25);
    assert_eq!(memory.mem_read(0x4000), 5);
}

#[test]
fn mbc1_bank_zero_reads_as_bank_one() {
    let mut memory = memory(128, 0x01, 0x06, 0);
    memory.mem_write(0x2000, 0x05);
    assert_eq!(memory.mem_read(0x4000), 5);
    memory.mem_write(0x2000, 0x00);
    assert_eq!(memory.mbc.rom_bank, 1);
    for address in [0x4000u16, 0x5555, 0x7FFF] {
        assert_eq!(memory.mem_read(address), 1);
    }
    for value in [0x20u8, 0x40, 0x60, 0xE0] {
        memory.mem_write(0x2000, value);
        assert_eq!(memory.mbc.rom_bank, 1);
        assert_eq!(memory.mem_read(0x4000), 1);
    }
}

#[test]
fn mbc1_upper_register_reaches_the_high_banks() {
    let mut memory = memory(128, 0x01, 0x06, 0);
    memory.mem_write(0x2000, 0x00);
    memory.mem_write(0x4000, 0x01);
    assert_eq!(memory.mem_read(0x4000), 0x21);
    memory.mem_write(0x4000, 0x03);
    assert_eq!(memory.mem_read(0x4000), 0x61);
    memory.mem_write(0x2000, 0x1F);
    assert_eq!(memory.mem_read(0x4000), 0x7F);
    assert_eq!(memory.mem_read(0x0000), 0);
    memory.mem_write(0x6000, 0x01);
    assert_eq!(memory.mem_read(0x0000), 0x60);
    memory.mem_write(0x4000, 0x02);
    assert_eq!(memory.mem_read(0x0000), 0x40);
    assert_eq!(memory.mem_read(0x4000), 0x5F);
}

#[test]
fn mbc1_with_64_banks_honours_one_upper_bit() {
    let mut memory = memory(64, 0x01, 0x05, 0);
    memory.mem_write(0x2000, 0x02);
    memory.mem_write(0x4000, 0x03);
    assert_eq!(memory.mem_read(0x4000), 0x22);
    memory.mem_write(0x4000, 0x02);
    assert_eq!(memory.mem_read(0x4000), 0x02);
}

#[test]
fn mbc1_with_32_banks_never_remaps_the_low_area() {
    let mut memory = memory(32, 0x03, 0x04, 0x03);
    for mode in [0u8, 1] {
        for upper in 0..4u8 {
            memory.mem_write(0x6000, mode);
            memory.mem_write(0x4000, upper);
            for address in [0x0000u16, 0x0150, 0x3FFF] {
                assert_eq!(memory.mem_read(address), 0);
            }
            memory.mem_write(0x2000, 0x07);
            assert_eq!(memory.mem_read(0x4000), 7);
        }
    }
}

#[test]
fn mbc1_narrow_register_can_select_bank_zero() {
    let mut memory = memory(8, 0x01, 0x02, 0);
    memory.mem_write(0x2000, 0x08);
    assert_eq!(memory.mbc.rom_bank, 0);
    assert_eq!(memory.mem_read(0x4000), 0);
    memory.mem_write(0x2000, 0x0B);
    assert_eq!(memory.mem_read(0x4000), 3);
}

#[test]
fn cartridge_ram_is_gated() {
    let mut memory = memory(4, 0x03, 0x01, 0x03);
    assert_eq!(memory.mem_read(0xA000), 0xFF);
    memory.mem_write(0xA000, 0x12);
    memory.mem_write(0x0000, 0x0A);
    assert_eq!(memory.mem_read(0xA000), 0x00);
    memory.mem_write(0xA000, 0x12);
    assert_eq!(memory.mem_read(0xA000), 0x12);
    memory.mem_write(0x1FFF, 0x00);
    assert_eq!(memory.mem_read(0xA000), 0xFF);
    memory.mem_write(0x0000, 0x3A);
    assert_eq!(memory.mem_read(0xA000), 0x12);
    memory.mem_write(0x0000, 0xA0);
    assert_eq!(memory.mem_read(0xA000), 0xFF);
}

#[test]
fn mbc1_ram_banks_need_the_advanced_mode() {
    let mut memory = memory(4, 0x03, 0x01, 0x03);
    memory.mem_write(0x0000, 0x0A);
    memory.mem_write(0x4000, 0x02);
    memory.mem_write(0xA010, 0x11);
    assert_eq!(memory.get_ram()[0x0010], 0x11);
    memory.mem_write(0x6000, 0x01);
    assert_eq!(memory.mem_read(0xA010), 0x00);
    memory.mem_write(0xA010, 0x22);
    assert_eq!(memory.get_ram()[0x4010], 0x22);
    memory.mem_write(0x6000, 0x00);
    assert_eq!(memory.mem_read(0xA010), 0x11);
}

#[test]
fn mbc3_selects_banks() {
    let mut memory = memory(64, 0x13, 0x05, 0x03);
    assert_eq!(memory.mem_read(0x4000), 1);
    memory.mem_write(0x2000, 0x00);
    assert_eq!(memory.mem_read(0x4000), 1);
    memory.mem_write(0x2000, 0x20);
    assert_eq!(memory.mem_read(0x4000), 0x20);
    memory.mem_write(0x2000, 0x3F);
    assert_eq!(memory.mem_read(0x7FFF), 0x3F);
    memory.mem_write(0x2000, 0x45);
    assert_eq!(memory.mem_read(0x4000), 0x05);
    memory.mem_write(0x2000, 0x40);
    assert_eq!(memory.mem_read(0x4000), 0x01);
    assert_eq!(memory.mem_read(0x0000), 0);
    memory.mem_write(0x0000, 0x0A);
    memory.mem_write(0x4000, 0x03);
    memory.mem_write(0xBFFF, 0x99);
    assert_eq!(memory.get_ram()[0x7FFF], 0x99);
    memory.mem_write(0x4000, 0x00);
    assert_eq!(memory.mem_read(0xBFFF), 0x00);
    memory.mem_write(0x4000, 0x07);
    assert_eq!(memory.mem_read(0xBFFF), 0x99);
}

#[test]
fn mbc5_selects_banks_with_nine_bits() {
    let mut memory = memory(512, 0x1B, 0x08, 0x04);
    assert_eq!(memory.mem_read(0x4000), 1);
    memory.mem_write(0x2000, 0x00);
    assert_eq!(memory.mem_read(0x4000), 0);
    memory.mem_write(0x2000, 0x7B);
    assert_eq!(memory.mem_read(0x4000), 0x7B);
    memory.mem_write(0x3000, 0x01);
    assert_eq!(memory.mbc.rom_bank, 0x17B);
    assert_eq!(memory.mem_read(0x4000), 0x7B);
    assert_eq!(memory.mem_read(0x4001), 0x7B);
    memory.mem_write(0x2FFF, 0x02);
    assert_eq!(memory.mbc.rom_bank, 0x102);
    memory.mem_write(0x3000, 0xFE);
    assert_eq!(memory.mbc.rom_bank, 0x002);
    assert_eq!(memory.mem_read(0x4000), 0x02);
    memory.mem_write(0x0000, 0x0A);
    memory.mem_write(0x4000, 0x0F);
    memory.mem_write(0xA000, 0x42);
    assert_eq!(memory.get_ram()[0xF * 0x2000], 0x42);
}

#[test]
fn bank_numbers_wrap_to_the_bank_count() {
    for banks in [2usize, 4, 8, 16, 32, 64, 128, 256] {
        let size = banks.trailing_zeros() as u8 - 1;
        let mut mbc5 = memory(banks, 0x19, size, 0);
        let mut mbc3 = memory(banks, 0x11, size, 0);
        for number in 0..=255u8 {
            let wrapped = (number as usize % banks) as u8;
            mbc5.mem_write(0x2000, number);
            assert_eq!(mbc5.mem_read(0x4000), wrapped);
            mbc3.mem_write(0x2000, number);
            assert_eq!(mbc3.mem_read(0x4000), if wrapped == 0 { 1 } else { wrapped });
        }
    }
}

#[test]
fn reads_past_the_image_give_zero() {
    let mut image = rom(2, 0x19, 0x08, 0x03);
    image.truncate(0x4000);
    let mut memory = match Memory::new(image) {
        Ok(memory) => memory,
        Err(_) => panic!("refused"),
    };
    assert_eq!(memory.mem_read(0x4000), 0);
    memory.mem_write(0x2000, 0x40);
    assert_eq!(memory.mem_read(0x7FFF), 0);
    assert_eq!(memory.mem_read(0x0000), 0);
    assert_eq!(memory.mem_read(0x0147), 0x19);
}

#[test]
fn ram_accesses_past_the_ram_are_dropped() {
    let mut memory = memory(4, 0x13, 0x01, 0x02);
    memory.mem_write(0x0000, 0x0A);
    memory.mbc.ram_bank = 3;
    memory.mem_write(0xA000, 0x55);
    assert_eq!(memory.mem_read(0xA000), 0x00);
    assert_eq!(memory.get_ram(), vec![0u8; 0x2000]);
}

#[test]
fn ram_snapshot_is_restored() {
    let mut memory = memory(4, 0x13, 0x01, 0x03);
    assert_eq!(memory.get_ram().len(), 4 * 0x2000);
    memory.mem_write(0x0000, 0x0A);
    memory.mem_write(0xA000, 0x12);
    memory.mem_write(0xA001, 0x34);
    let snapshot = memory.get_ram();
    memory.mem_write(0xA000, 0xFF);
    memory.set_ram(snapshot.clone());
    assert_eq!(memory.get_ram(), snapshot);
    assert_eq!(memory.mem_read(0xA000), 0x12);
    assert_eq!(memory.mem_read(0xA001), 0x34);
}

#[test]
fn ram_snapshot_is_cut_or_padded_to_size() {
    let mut memory = memory(4, 0x13, 0x01, 0x02);
    memory.set_ram(vec![7u8; 0x10]);
    let ram = memory.get_ram();
    assert_eq!(ram.len(), 0x2000);
    assert_eq!(&ram[..0x10], &[7u8; 0x10]);
    assert_eq!(&ram[0x10..], &vec![0u8; 0x2000 - 0x10][..]);
    memory.set_ram(vec![9u8; 0x3000]);
    assert_eq!(memory.get_ram(), vec![9u8; 0x2000]);
    memory.set_ram(Vec::new());
    assert_eq!(memory.get_ram(), vec![0u8; 0x2000]);
}

#[test]
fn large_ram_is_allocated_in_full() {
    let memory = memory(4, 0x1B, 0x01, 0x04);
    assert_eq!(memory.get_ram().len(), 16 * 0x2000);
}

#[test]
fn the_rom_can_be_replaced() {
    let mut memory = memory(2, 0x00, 0, 0);
    let mut other = rom(2, 0x00, 0, 0);
    other[0x4000] = 0xEE;
    memory.set_rom(other);
    assert_eq!(memory.mem_read(0x4000), 0xEE);
    assert_eq!(memory.info.title, "TESTCART\0\0\0\0\0\0\0");
}

#[test]
fn a_cartridge_starts_on_bank_one() {
    let image = rom(4, 0x01, 0x01, 0);
    let info = CartridgeInfo::from_header(&image[0x100..0x150]);
    let mbc = MBC::init(image, &info);
    assert_eq!(mbc.rom_bank, 1);
    assert_eq!(mbc.ram_bank, 0);
    assert!(!mbc.ram_enabled);
    assert!(!mbc.advanced_banking);
    assert_eq!(mbc.read(0x4000), 1);
    assert_eq!(mbc.read(0x9000), 0xFF);
}

#[test]
fn refusals_are_put_in_words() {
    match Memory::new(vec![0u8; 16]) {
        Ok(_) => panic!("accepted"),
        Err(error) => assert_eq!(error.message(), "ROM doesn't contain header"),
    }
    match Memory::new(rom(2, 0x22, 0, 0)) {
        Ok(_) => panic!("accepted"),
        Err(error) => {
            assert_eq!(error.message(), "MBC type MBC7 isn't yet implemented. Sorry!")
        }
    }
    assert_eq!(MBCType::NoMBC.name(), "NoMBC");
    assert_eq!(MBCType::MMM01.name(), "MMM01");
    assert_eq!(MBCType::HuC1.name(), "HuC1");
}

#[test]
fn mbc5_with_256_banks_or_fewer_has_no_ninth_bit() {
    for banks in [2usize, 64, 256] {
        let size = banks.trailing_zeros() as u8 - 1;
        let mut memory = memory(banks, 0x19, size, 0);
        memory.mem_write(0x2000, 0x05);
        memory.mem_write(0x3000, 0x01);
        assert_eq!(memory.mbc.rom_bank as usize, 5 % banks);
        assert_eq!(memory.mem_read(0x4000) as usize, 5 % banks);
        memory.mbc.rom_bank = 0x100;
        memory.mem_write(0x2000, 0x07);
        assert_eq!(memory.mbc.rom_bank as usize, 7 % banks);
        assert_eq!(memory.mem_read(0x7FFF) as usize, 7 % banks);
    }
}
