use nes_emulator::header::{parse_header, HeaderError, Mirroring};

#[test]
fn parses_sizes_and_flags() {
    let bytes = [0x4E, 0x45, 0x53, 0x1A, 2, 1, 0x13, 0x22, 4, 0, 0, 0, 0, 0, 0, 0];
    let h = parse_header(&bytes);
    assert_eq!(h.program_size, 0x8000);
    assert_eq!(h.character_size, 0x2000);
    assert_eq!(h.mapper_number, 0x21);
    assert_eq!(h.mirroring, Mirroring::Vertical);
    assert!(h.persistent_memory);
    assert!(!h.trainer);
    assert!(!h.ignore_mirroring);
    assert!(!h.vs_unisystem);
    assert!(h.playchoice);
    assert_eq!(h.program_ram_size, 4);
    assert_eq!(h.validate(), Err(HeaderError::UnsupportedMapper(0x21)));
}

#[test]
fn validates_playchoice_and_plain() {
    let mut bytes = [0u8; 16];
    bytes[4] = 1;
    bytes[7] = 0x02;
    let h = parse_header(&bytes);
    assert_eq!(h.mirroring, Mirroring::Horizontal);
    assert_eq!(h.validate(), Err(HeaderError::Playchoice));
    bytes[7] = 0;
    assert_eq!(parse_header(&bytes).validate(), Ok(()));
}
