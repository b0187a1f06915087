use nes::{Bus, Cartridge, NesBus, NesError, PpuBus};

#[test]
fn bus_reading1() {
    let bus = NesBus::default();
    assert_eq!(bus.read(0x0000), 0);
    assert_eq!(bus.read(0x1234), 0);
    assert_eq!(bus.read(0x1FFF), 0);
}

#[test]
fn reading() {
    let bus = NesBus::default();
    assert_eq!(bus.read(0x0000), 0);
    assert_eq!(bus.read(0x1234), 0);
    assert_eq!(bus.read(0x1FFF), 0);
}

#[test]
fn bus_writing() {
    let cases = [(0x0000_u16, 127_u8), (0x0001, 150), (0x0173, 9)];

    let mut bus = NesBus::default();
    for (addr, val) in cases {
        bus.write(addr, val);
    }
    for (addr, val) in cases {
        assert_eq!(bus.read(addr), val);
    }

    assert_eq!(bus.read(0x0800), cases[0].1);
    assert_eq!(bus.read(0x1000), cases[0].1);
    assert_eq!(bus.read(0x1800), cases[0].1);

    assert_eq!(bus.read(0x0801), cases[1].1);
    assert_eq!(bus.read(0x1001), cases[1].1);
    assert_eq!(bus.read(0x1801), cases[1].1);

    assert_eq!(bus.read(0x0973), cases[2].1);
    assert_eq!(bus.read(0x1173), cases[2].1);
    assert_eq!(bus.read(0x1973), cases[2].1);
}

/// A minimal NROM-128 image whose program ROM holds `prg_fill(i)` at offset `i` and whose
/// character ROM holds `chr_fill(i)`.
fn rom_image(flags6: u8) -> Vec<u8> {
    let mut data = vec![0x4E, 0x45, 0x53, 0x1A, 1, 1, flags6, 0, 0, 0, 0, 0, 0, 0, 0, 0];
    for i in 0..0x4000_usize {
        data.push((i % 251) as u8);
    }
    for i in 0..0x2000_usize {
        data.push((i % 241) as u8);
    }
    data
}

#[test]
fn bus_maps_prg_rom_twice() {
    let bus = NesBus::new(&rom_image(0)).unwrap();
    assert_eq!(bus.read(0x8000), 0);
    assert_eq!(bus.read(0x8001), 1);
    assert_eq!(bus.read(0x80FB), 0);
    assert_eq!(bus.read(0xC000), bus.read(0x8000));
    assert_eq!(bus.read(0xFFFF), (0x3FFF % 251) as u8);
}

#[test]
fn bus_rom_ignores_writes() {
    let mut bus = NesBus::new(&rom_image(0)).unwrap();
    bus.write(0x8001, 0xAA);
    assert_eq!(bus.read(0x8001), 1);
}

#[test]
fn bus_unmapped_reads_zero_and_ignores_writes() {
    let mut bus = NesBus::default();
    bus.write(0x4000, 255);
    assert_eq!(bus.read(0x4000), 0);
    bus.write(0x6000, 7);
    assert_eq!(bus.read(0x6000), 0);
    assert_eq!(bus.read(0x4015), 0);
    assert!(!bus.in_dma_transfer());
}

#[test]
fn bus_oam_dma_starts_on_write_to_4014() {
    let mut bus = NesBus::default();
    bus.write(0x0200, 0x11);
    bus.write(0x0201, 0x22);
    assert!(!bus.in_dma_transfer());
    bus.write(0x4014, 0x02);
    assert!(bus.in_dma_transfer());
    assert_eq!(bus.dma_read(), 0x11);
    assert_eq!(bus.read(0x0200), 0x11);
}

#[test]
fn bus_controller_strobe_leaves_memory() {
    let mut bus = NesBus::default();
    bus.set_controller(0, 0b1000_0001);
    bus.set_controller(1, 0b0100_0000);
    bus.write(0x0005, 9);
    bus.write(0x4016, 1);
    bus.write(0x4017, 0);
    assert_eq!(bus.read(0x0005), 9);
    assert!(!bus.in_dma_transfer());
}

#[test]
fn bus_write_to_mirror_reaches_all_mirrors() {
    let mut bus = NesBus::default();
    bus.write(0x1801, 42);
    assert_eq!(bus.read(0x0001), 42);
    assert_eq!(bus.read(0x0801), 42);
    assert_eq!(bus.read(0x1001), 42);
    assert_eq!(bus.read(0x0002), 0);
}

#[test]
fn bus_ppu_reads_chr_rom() {
    let bus = NesBus::new(&rom_image(0)).unwrap();
    assert_eq!(bus.ppu_read(0x0000), 0);
    assert_eq!(bus.ppu_read(0x00F2), 1);
    assert_eq!(bus.ppu_read(0x1FFF), (0x1FFF % 241) as u8);
}

#[test]
fn bus_new_rejects_bad_rom() {
    let mut data = rom_image(0);
    data[0] = b'X';
    assert_eq!(NesBus::new(&data).err(), Some(NesError::RomParsing));
    assert!(NesBus::new(&data[..16]).is_err());
}

#[test]
fn bus_new_keeps_cartridge() {
    let data = rom_image(1);
    let cart = Cartridge::new(&data).unwrap();
    let bus = NesBus::new(&data).unwrap();
    assert_eq!(bus.read(0x8005), cart.prg()[5]);
}
