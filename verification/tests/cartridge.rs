use nes::{Cartridge, MirrorMode, NesError};

fn rom_image(flags6: u8, flags7: u8) -> Vec<u8> {
    let mut data = vec![0x4E, 0x45, 0x53, 0x1A, 1, 1, flags6, flags7, 0, 0, 0, 0, 0, 0, 0, 0];
    for i in 0..0x4000_usize {
        data.push((i % 7) as u8);
    }
    for i in 0..0x2000_usize {
        data.push((i % 5) as u8 + 100);
    }
    data
}

#[test]
fn cartridge_parses_supported_image() {
    let c = Cartridge::new(&rom_image(0, 0)).unwrap();
    assert_eq!(c.prg().len(), 16 * 1024);
    assert_eq!(c.chr().len(), 8 * 1024);
    assert_eq!(c.prg()[8], 1);
    assert_eq!(c.chr()[7], 102);
    assert_eq!(c.prg_chunks_count(), 1);
    assert_eq!(c.chr_chunks_count(), 1);
    assert_eq!(c.nmtable_mirroring(), MirrorMode::Horizontal);
}

#[test]
fn cartridge_vertical_mirroring() {
    let c = Cartridge::new(&rom_image(1, 0)).unwrap();
    assert_eq!(c.nmtable_mirroring(), MirrorMode::Vertical);
}

#[test]
fn cartridge_ignores_trailing_data() {
    let mut data = rom_image(0, 0);
    data.extend_from_slice(&[9, 9, 9]);
    let c = Cartridge::new(&data).unwrap();
    assert_eq!(c.chr().len(), 8 * 1024);
}

#[test]
fn cartridge_rejects_bad_magic() {
    let mut data = rom_image(0, 0);
    data[3] = 0x1B;
    assert_eq!(Cartridge::new(&data).err(), Some(NesError::RomParsing));
}

#[test]
fn cartridge_rejects_bank_counts() {
    let mut data = rom_image(0, 0);
    data[4] = 2;
    assert!(Cartridge::new(&data).is_err());
    let mut data = rom_image(0, 0);
    data[5] = 0;
    assert!(Cartridge::new(&data).is_err());
}

#[test]
fn cartridge_rejects_unsupported_features() {
    // PRG RAM, trainer, VS Unisystem, PlayChoice-10.
    assert!(Cartridge::new(&rom_image(0b10, 0)).is_err());
    assert!(Cartridge::new(&rom_image(0b100, 0)).is_err());
    assert!(Cartridge::new(&rom_image(0, 0b01)).is_err());
    assert!(Cartridge::new(&rom_image(0, 0b10)).is_err());
    // Other bits are fine.
    assert!(Cartridge::new(&rom_image(0b1000, 0b100)).is_ok());
}

#[test]
fn cartridge_rejects_short_image() {
    let data = rom_image(0, 0);
    assert!(Cartridge::new(&data[..data.len() - 1]).is_err());
    assert!(Cartridge::new(&[]).is_err());
}

#[test]
fn cartridge_debug_default_is_zeroed() {
    let c = Cartridge::debug_default();
    assert!(c.prg().iter().all(|&b| b == 0));
    assert!(c.chr().iter().all(|&b| b == 0));
    assert_eq!(c.nmtable_mirroring(), MirrorMode::Horizontal);
}

#[test]
fn error_message() {
    assert_eq!(NesError::RomParsing.message(), "rom loading error");
}

#[test]
fn util_bit() {
    assert!(nes::bit(0b1000_0001, 0));
    assert!(!nes::bit(0b1000_0001, 1));
    assert!(nes::bit(0b1000_0001, 7));
}
