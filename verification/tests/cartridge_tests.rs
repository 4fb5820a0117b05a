use nes_core::cartridge::{create_rom, Mirroring, Rom, TestRom, CHR_ROM_PAGE_SIZE, PRG_ROM_PAGE_SIZE};

#[test]
fn test() {
    let test_rom = create_rom(TestRom {
        header: vec![
            0x4E, 0x45, 0x53, 0x1A, 0x02, 0x01, 0x31, 00, 00, 00, 00, 00, 00, 00, 00, 00,
        ],
        trainer: None,
        pgp_rom: vec![1; 2 * PRG_ROM_PAGE_SIZE],
        chr_rom: vec![2; CHR_ROM_PAGE_SIZE],
    });

    let rom: Rom = Rom::new(&test_rom).unwrap();

    assert_eq!(rom.chr_rom, vec![2; CHR_ROM_PAGE_SIZE]);
    assert_eq!(rom.prg_rom, vec![1; 2 * PRG_ROM_PAGE_SIZE]);
    assert_eq!(rom.mapper, 3);
    assert_eq!(rom.mirroring, Mirroring::VERTICAL);
}

#[test]
fn test_with_trainer() {
    let test_rom = create_rom(TestRom {
        header: vec![
            0x4E,
            0x45,
            0x53,
            0x1A,
            0x02,
            0x01,
            0x31 | 0b100,
            00,
            00,
            00,
            00,
            00,
            00,
            00,
            00,
            00,
        ],
        trainer: Some(vec![0; 512]),
        pgp_rom: vec![1; 2 * PRG_ROM_PAGE_SIZE],
        chr_rom: vec![2; CHR_ROM_PAGE_SIZE],
    });

    let rom: Rom = Rom::new(&test_rom).unwrap();

    assert_eq!(rom.chr_rom, vec![2; CHR_ROM_PAGE_SIZE]);
    assert_eq!(rom.prg_rom, vec![1; 2 * PRG_ROM_PAGE_SIZE]);
    assert_eq!(rom.mapper, 3);
    assert_eq!(rom.mirroring, Mirroring::VERTICAL);
}

#[test]
fn test_nes2_is_not_supported() {
    let test_rom = create_rom(TestRom {
        header: vec![
            0x4E, 0x45, 0x53, 0x1A, 0x01, 0x01, 0x31, 0x8, 00, 00, 00, 00, 00, 00, 00, 00,
        ],
        trainer: None,
        pgp_rom: vec![1; PRG_ROM_PAGE_SIZE],
        chr_rom: vec![2; CHR_ROM_PAGE_SIZE],
    });
    let rom = Rom::new(&test_rom);
    match rom {
        Result::Ok(_) => panic!("should not load rom"),
        Result::Err(str) => assert_eq!(str, "Unsupported iNES version"),
    }
}

#[test]
fn test_invalid_tag_is_rejected() {
    let raw = vec![0u8; 16];
    match Rom::new(&raw) {
        Result::Ok(_) => panic!("should not load rom"),
        Result::Err(str) => assert_eq!(str, "Invalid NES file"),
    }
}

#[test]
fn test_horizontal_and_fourscreen_flags() {
    let mut header = vec![
        0x4E, 0x45, 0x53, 0x1A, 0x01, 0x01, 0x30, 00, 00, 00, 00, 00, 00, 00, 00, 00,
    ];
    let horizontal = create_rom(TestRom {
        header: header.clone(),
        trainer: None,
        pgp_rom: vec![1; PRG_ROM_PAGE_SIZE],
        chr_rom: vec![2; CHR_ROM_PAGE_SIZE],
    });
    assert_eq!(Rom::new(&horizontal).unwrap().mirroring, Mirroring::HORIZONTAL);

    header[6] = 0x38;
    let four_screen = create_rom(TestRom {
        header,
        trainer: None,
        pgp_rom: vec![1; PRG_ROM_PAGE_SIZE],
        chr_rom: vec![2; CHR_ROM_PAGE_SIZE],
    });
    assert_eq!(Rom::new(&four_screen).unwrap().mirroring, Mirroring::FOURSCREEN);
}
