use neks::ines::{parse_file, parse_header, CartridgeError, RomFileParser, TRAINER_PRESENT};
use neks::registers::{Register16, Register8};

fn header(prg: u8, chr: u8, flags_6: u8) -> Vec<u8> {
    vec![0x4e, 0x45, 0x53, 0x1a, prg, chr, flags_6, 7, 8, 9, 10, 0, 0, 0, 0, 0]
}

#[test]
fn parses_program_and_character_images() {
    let mut image = header(1, 1, 0xf1);
    image.extend((0..16384u32).map(|i| (i % 251) as u8));
    image.extend(std::iter::repeat(0xcc).take(8192));
    image.push(0xee);
    let c = parse_file(&image).unwrap();
    assert_eq!(c.header.prg_rom_size, 1);
    assert_eq!(c.header.chr_rom_size, 1);
    assert_eq!(c.header.flags_6, 0x01);
    assert_eq!(c.header.flags_10, 10);
    assert_eq!(c.prg_rom_data.len(), 16384);
    assert_eq!(c.prg_rom_data[300], (300 % 251) as u8);
    assert_eq!(c.chr_rom_data, vec![0xcc; 8192]);
    assert_eq!(c.trainer, vec![0; 512]);
}

#[test]
fn trainer_comes_before_program() {
    let mut image = header(1, 0, TRAINER_PRESENT);
    image.extend(std::iter::repeat(0x77).take(512));
    image.extend(std::iter::repeat(0x11).take(16384));
    let c = RomFileParser::new(image).parse().unwrap();
    assert_eq!(c.trainer, vec![0x77; 512]);
    assert_eq!(c.prg_rom_data, vec![0x11; 16384]);
    assert!(c.chr_rom_data.is_empty());
}

#[test]
fn rejects_wrong_tag() {
    let mut image = header(0, 0, 0);
    image[3] = 0x1b;
    assert_eq!(parse_file(&image).err(), Some(CartridgeError::BadMagic));
    assert_eq!(parse_file(&vec![0x4e, 0x45]).err(), Some(CartridgeError::BadMagic));
}

#[test]
fn rejects_short_images() {
    let image = vec![0x4e, 0x45, 0x53, 0x1a, 1, 0];
    assert_eq!(parse_file(&image).err(), Some(CartridgeError::Truncated));
    let mut image = header(1, 0, 0);
    image.extend(std::iter::repeat(0).take(16383));
    assert_eq!(parse_file(&image).err(), Some(CartridgeError::Truncated));
}

#[test]
fn counters_wrap() {
    let mut r = Register8::new(0xff);
    r.increment();
    assert_eq!(r.0, 0);
    let mut r = Register16::new(0xffff);
    r.increment();
    assert_eq!(u16::from(r), 0);
    let mut r = Register16::new(0x41);
    r.increment();
    assert_eq!(u16::from(r), 0x42);
}

#[test]
fn header_returns_fields_and_rest() {
    let mut image = header(2, 1, 0x13);
    image.extend_from_slice(&[1, 2, 3]);
    let (rest, h) = parse_header(&image).unwrap();
    assert_eq!(rest, &[1u8, 2, 3][..]);
    assert_eq!(h.prg_rom_size, 2);
    assert_eq!(h.chr_rom_size, 1);
    assert_eq!(h.flags_6, 0x03);
    assert_eq!(h.flags_7, 7);
    assert_eq!(h.flags_10, 10);
}

#[test]
fn header_errors() {
    assert_eq!(parse_header(&[0x4e, 0x45, 0x53, 0x1a, 1]).err(), Some(CartridgeError::Truncated));
    assert_eq!(parse_header(&[0x4e, 0x45, 0x53]).err(), Some(CartridgeError::BadMagic));
    let mut image = header(0, 0, 0);
    image[0] = 0;
    assert_eq!(parse_header(&image).err(), Some(CartridgeError::BadMagic));
}
