use wx_gb::cartridge::CartridgeHeader;
use wx_gb::cartridge::ParseError;

/// A 32 KiB image with the synthetic header used across the tests: title
/// "TEST", new-license text "01", cartridge type MBC1, ROM-size code 2,
/// RAM-size code 3, destination World, legacy license 0x33, declared header
/// checksum 0x0C and declared global checksum 0xABCD (little-endian).
fn synthetic_rom() -> Vec<u8> {
    let mut rom = vec![0u8; 0x8000];
    rom[0x134] = b'T';
    rom[0x135] = b'E';
    rom[0x136] = b'S';
    rom[0x137] = b'T';
    rom[0x144] = b'0';
    rom[0x145] = b'1';
    rom[0x146] = 0x00;
    rom[0x147] = 0x01;
    rom[0x148] = 0x02;
    rom[0x149] = 0x03;
    rom[0x14A] = 0x01;
    rom[0x14B] = 0x33;
    rom[0x14C] = 0x00;
    rom[0x14D] = 0x0C;
    rom[0x14E] = 0xCD;
    rom[0x14F] = 0xAB;
    rom
}

#[test]
fn parse_too_short() {
    let r = CartridgeHeader::new(vec![0u8; 100]);
    assert_eq!(r.err(), Some(ParseError::TooShort));
}

#[test]
fn parse_well_formed_succeeds() {
    assert!(CartridgeHeader::new(vec![0u8; 0x8000]).is_ok());
    assert!(CartridgeHeader::new(synthetic_rom()).is_ok());
}

#[test]
fn parse_boundary_lengths() {
    assert_eq!(
        CartridgeHeader::new(vec![0u8; 0x7FFF]).err(),
        Some(ParseError::TooShort)
    );
    assert!(CartridgeHeader::new(vec![0u8; 0x8001]).is_ok());
    assert_eq!(CartridgeHeader::new(Vec::new()).err(), Some(ParseError::TooShort));
}

#[test]
fn round_trip_header_fields() {
    let h = CartridgeHeader::new(synthetic_rom()).unwrap();
    assert_eq!(h.get_title().unwrap(), "TEST");
    assert_eq!(h.gbc_flags, 0x00);
    assert_eq!(h.sgb_flag, 0x00);
    assert_eq!(h.rom_type, 0x01);
    assert_eq!(h.cart_size, 0x02);
    assert_eq!(h.ram_type, 0x03);
    assert_eq!(h.destination, 0x01);
    assert_eq!(h.old_license, 0x33);
    assert_eq!(h.mask_rom_version_number, 0x00);
    assert_eq!(h.declared_checksum(), 0x0C);
    assert_eq!(h.global_checksum, 0xABCD);
    assert_eq!(h.get_cartridge_type(), "MBC1");
    assert_eq!(h.get_rom_size(), (128_000, 8));
    assert_eq!(h.get_ram_size(), 32_000);
    assert_eq!(h.get_destination(), "World");
}

#[test]
fn checksum_of_zero_window_is_e7() {
    let h = CartridgeHeader::new(vec![0u8; 0x8000]).unwrap();
    assert_eq!(h.get_checksum(), 0xE7);
}

#[test]
fn checksum_of_synthetic_header() {
    // window sum 475 over 25 bytes: -(475 + 25) mod 256 == 12
    let h = CartridgeHeader::new(synthetic_rom()).unwrap();
    assert_eq!(h.get_checksum(), 0x0C);
    assert_eq!(h.get_checksum(), h.declared_checksum());
}

#[test]
fn checksum_single_nonzero_byte() {
    let mut rom = vec![0u8; 0x8000];
    rom[0x14C] = 0x10;
    let h = CartridgeHeader::new(rom).unwrap();
    // -(0x10 + 25) mod 256 == 215
    assert_eq!(h.get_checksum(), 215);
}

#[test]
fn title_trims_nul_padding() {
    let mut rom = vec![0u8; 0x8000];
    for (i, b) in b"POCKET MONSTERS".iter().enumerate() {
        rom[0x134 + i] = *b;
    }
    let h = CartridgeHeader::new(rom).unwrap();
    assert_eq!(h.get_title().unwrap(), "POCKET MONSTERS");
}

#[test]
fn title_empty_when_first_byte_nul() {
    let h = CartridgeHeader::new(vec![0u8; 0x8000]).unwrap();
    assert_eq!(h.get_title().unwrap(), "");
}

#[test]
fn title_invalid_encoding() {
    let mut rom = vec![0u8; 0x8000];
    rom[0x134] = b'A';
    rom[0x135] = 0xFF;
    rom[0x136] = b'B';
    let h = CartridgeHeader::new(rom).unwrap();
    assert_eq!(h.get_title().err(), Some(ParseError::InvalidEncoding));
}

#[test]
fn title_non_ascii_after_nul_is_ignored() {
    let mut rom = vec![0u8; 0x8000];
    rom[0x134] = b'O';
    rom[0x135] = b'K';
    rom[0x137] = 0xFE;
    let h = CartridgeHeader::new(rom).unwrap();
    assert_eq!(h.get_title().unwrap(), "OK");
}

#[test]
fn unknown_cartridge_type_falls_back() {
    let mut rom = vec![0u8; 0x8000];
    rom[0x147] = 0x7E;
    let h = CartridgeHeader::new(rom).unwrap();
    assert_eq!(h.get_cartridge_type(), "Unknown");
}

#[test]
fn known_cartridge_types() {
    let mut rom = vec![0u8; 0x8000];
    rom[0x147] = 0x00;
    let h = CartridgeHeader::new(rom.clone()).unwrap();
    assert_eq!(h.get_cartridge_type(), "ROM ONLY");
    rom[0x147] = 0xFF;
    let h = CartridgeHeader::new(rom.clone()).unwrap();
    assert_eq!(h.get_cartridge_type(), "HuC1+RAM+BATTERY");
    rom[0x147] = 0x19;
    let h = CartridgeHeader::new(rom).unwrap();
    assert_eq!(h.get_cartridge_type(), "MBC5");
}

#[test]
fn license_new_table_for_sentinel() {
    let h = CartridgeHeader::new(synthetic_rom()).unwrap();
    assert_eq!(h.old_license, 0x33);
    assert_eq!(h.get_license(), "Nintendo Research & Development 1");
}

#[test]
fn license_legacy_table_bypasses_new_text() {
    let mut rom = synthetic_rom();
    rom[0x14B] = 0x01;
    let h = CartridgeHeader::new(rom).unwrap();
    // the new-license text still reads "01", but the legacy code decides
    assert_eq!(h.get_license(), "Nintendo");
}

#[test]
fn license_fallbacks() {
    let mut rom = vec![0u8; 0x8000];
    rom[0x14B] = 0x02; // absent from the legacy table
    let h = CartridgeHeader::new(rom.clone()).unwrap();
    assert_eq!(h.get_license(), "Unknown");
    rom[0x14B] = 0x33;
    rom[0x144] = b'Z';
    rom[0x145] = b'Z'; // absent from the new table
    let h = CartridgeHeader::new(rom).unwrap();
    assert_eq!(h.get_license(), "Unknown");
}

#[test]
fn destination_labels() {
    let mut rom = vec![0u8; 0x8000];
    let h = CartridgeHeader::new(rom.clone()).unwrap();
    assert_eq!(h.get_destination(), "Japan");
    rom[0x14A] = 0x01;
    let h = CartridgeHeader::new(rom.clone()).unwrap();
    assert_eq!(h.get_destination(), "World");
    rom[0x14A] = 0x63;
    let h = CartridgeHeader::new(rom).unwrap();
    assert_eq!(h.get_destination(), "Unknown");
}

#[test]
fn ram_size_table() {
    let mut rom = vec![0u8; 0x8000];
    let expected: [(u8, usize); 7] =
        [(0, 0), (1, 0), (2, 8_000), (3, 32_000), (4, 128_000), (5, 64_000), (6, 0)];
    for (code, bytes) in expected {
        rom[0x149] = code;
        let h = CartridgeHeader::new(rom.clone()).unwrap();
        assert_eq!(h.get_ram_size(), bytes);
    }
}

#[test]
fn rom_size_formula() {
    let mut rom = vec![0u8; 0x8000];
    let h = CartridgeHeader::new(rom.clone()).unwrap();
    assert_eq!(h.get_rom_size(), (32_000, 2));
    rom[0x148] = 0x01;
    let h = CartridgeHeader::new(rom.clone()).unwrap();
    assert_eq!(h.get_rom_size(), (64_000, 4));
    rom[0x148] = 0x08;
    let h = CartridgeHeader::new(rom.clone()).unwrap();
    assert_eq!(h.get_rom_size(), (8_192_000, 512));
    rom[0x148] = 0x09; // unassigned code
    let h = CartridgeHeader::new(rom).unwrap();
    assert_eq!(h.get_rom_size(), (0, 0));
}

#[test]
fn global_checksum_little_endian() {
    let mut rom = vec![0u8; 0x8000];
    rom[0x14E] = 0x34;
    rom[0x14F] = 0x12;
    let h = CartridgeHeader::new(rom).unwrap();
    assert_eq!(h.global_checksum, 0x1234);
}

#[test]
fn entry_and_logo_snapshots() {
    let mut rom = vec![0u8; 0x8000];
    rom[0x100] = 0x00;
    rom[0x101] = 0xC3;
    rom[0x102] = 0x50;
    rom[0x103] = 0x01;
    rom[0x104] = 0xCE;
    rom[0x133] = 0x3E;
    let h = CartridgeHeader::new(rom).unwrap();
    assert_eq!(h.entry, vec![0x00, 0xC3, 0x50, 0x01]);
    assert_eq!(h.logo.len(), 48);
    assert_eq!(h.logo[0], 0xCE);
    assert_eq!(h.logo[47], 0x3E);
    assert_eq!(h.rom_0.len(), 0x8000);
}
