use nes_core::cart::{create_rom, test_rom, Mirroring, Rom, TestRom};

#[test]
fn test() {
    let test_rom = create_rom(TestRom {
        header: vec![
            0x4E, 0x45, 0x53, 0x1A, 0x02, 0x01, 0x31, 00, 00, 00, 00, 00, 00, 00, 00, 00,
        ],
        trainer: None,
        pgp_rom: vec![1; 2 * 0x4000],
        chr_rom: vec![2; 1 * 0x2000],
    });

    let rom: Rom = Rom::new(&test_rom).unwrap();

    assert_eq!(rom.chr_rom, vec!(2; 1 * 0x2000));
    assert_eq!(rom.prg_rom, vec!(1; 2 * 0x4000));
    assert_eq!(rom.mapper, 3);
    assert_eq!(rom.screen_mirroring, Mirroring::VERTICAL);
}

#[test]
fn test_with_trainer() {
    let test_rom = create_rom(TestRom {
        header: vec![
            0x4E,
            0x45,
            0x53,
            0x1A,
            0x02,
            0x01,
            0x31 | 0b100,
            00,
            00,
            00,
            00,
            00,
            00,
            00,
            00,
            00,
        ],
        trainer: Some(vec![0; 512]),
        pgp_rom: vec![1; 2 * 0x4000],
        chr_rom: vec![2; 1 * 0x2000],
    });

    let rom: Rom = Rom::new(&test_rom).unwrap();

    assert_eq!(rom.chr_rom, vec!(2; 1 * 0x2000));
    assert_eq!(rom.prg_rom, vec!(1; 2 * 0x4000));
    assert_eq!(rom.mapper, 3);
    assert_eq!(rom.screen_mirroring, Mirroring::VERTICAL);
}

#[test]
fn test_nes2_is_not_supported() {
    let test_rom = create_rom(TestRom {
        header: vec![
            0x4E, 0x45, 0x53, 0x1A, 0x01, 0x01, 0x31, 0x8, 00, 00, 00, 00, 00, 00, 00, 00,
        ],
        trainer: None,
        pgp_rom: vec![1; 1 * 0x4000],
        chr_rom: vec![2; 1 * 0x2000],
    });
    let rom = Rom::new(&test_rom);
    match rom {
        Result::Ok(_) => assert!(false, "should not load rom"),
        Result::Err(str) => assert_eq!(str, "NES2.0 is not supported"),
    }
}

#[test]
fn test_bad_magic_is_unsupported_format() {
    let mut image = vec![0u8; 16 + 0x4000 + 0x2000];
    image[0] = 0x4E;
    image[1] = 0x45;
    image[2] = 0x53;
    image[3] = 0x00;
    image[4] = 0x01;
    image[5] = 0x01;
    match Rom::new(&image) {
        Result::Ok(_) => assert!(false, "should not load rom"),
        Result::Err(msg) => assert_eq!(msg, "Unsupported format"),
    }
}

#[test]
fn test_rom_helper_is_mapper_three_vertical() {
    let rom = test_rom();
    assert_eq!(rom.mapper, 3);
    assert_eq!(rom.screen_mirroring, Mirroring::VERTICAL);
    assert_eq!(rom.prg_rom.len(), 0x8000);
    assert_eq!(rom.chr_rom.len(), 0x2000);
    assert_eq!(rom.prg_rom[0x1234], 1);
    assert_eq!(rom.chr_rom[0x0123], 2);
}

#[test]
fn test_archaic_version_bits_still_load() {
    // version bits 1 and 3 are not NES 2.0: the image loads as iNES v1
    let mut image = vec![0u8; 16 + 0x4000 + 0x2000];
    image[0] = 0x4E;
    image[1] = 0x45;
    image[2] = 0x53;
    image[3] = 0x1A;
    image[4] = 0x01;
    image[5] = 0x01;
    image[7] = 0b0000_0100; // version bits = 1
    let rom = Rom::new(&image).unwrap();
    assert_eq!(rom.mapper, 0);
    image[7] = 0b0000_1100; // version bits = 3
    let rom = Rom::new(&image).unwrap();
    assert_eq!(rom.screen_mirroring, Mirroring::HORIZONTAL);
}

#[test]
fn test_four_screen_and_horizontal_mirroring() {
    let mut image = vec![0u8; 16 + 0x4000 + 0x2000];
    image[0] = 0x4E;
    image[1] = 0x45;
    image[2] = 0x53;
    image[3] = 0x1A;
    image[4] = 0x01;
    image[5] = 0x01;
    image[6] = 0b1000;
    let rom = Rom::new(&image).unwrap();
    assert_eq!(rom.screen_mirroring, Mirroring::FOUR_SCREEN);

    image[6] = 0;
    let rom = Rom::new(&image).unwrap();
    assert_eq!(rom.screen_mirroring, Mirroring::HORIZONTAL);
    assert_eq!(rom.mapper, 0);
}
