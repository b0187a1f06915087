use nes::ppu::registers::{CtrlBits, Loopy, MaskBits, StatusBits};
use nes::ppu::{PaletteIdx, Ppu};
use nes::PpuBus;

/// Character memory of 16 KiB of RAM.
struct VramBus {
    mem: Vec<u8>,
}

impl PpuBus for VramBus {
    fn ppu_read(&self, addr: u16) -> u8 {
        self.mem[usize::from(addr)]
    }

    fn ppu_write(&mut self, addr: u16, value: u8) {
        self.mem[usize::from(addr)] = value;
    }
}

fn vram() -> VramBus {
    VramBus { mem: vec![0; 0x4000] }
}

#[test]
fn ppu_decodes_tiles() {
    let mut bus = vram();
    // Tile 1, row 2: low plane 0b1000_0001, high plane 0b1100_0000.
    bus.mem[16 + 2] = 0b1000_0001;
    bus.mem[16 + 2 + 8] = 0b1100_0000;
    let ppu = Ppu::new(&bus);
    assert_eq!(ppu.palette_index(1, 2, 0), 3);
    assert_eq!(ppu.palette_index(1, 2, 1), 2);
    assert_eq!(ppu.palette_index(1, 2, 2), 0);
    assert_eq!(ppu.palette_index(1, 2, 7), 1);
    assert_eq!(ppu.palette_index(0, 2, 0), 0);
    assert_eq!(ppu.palette_index(511, 7, 7), 0);
}

#[test]
fn ppu_address_and_data() {
    let mut bus = vram();
    bus.mem[0x2000] = 0xAB;
    bus.mem[0x2001] = 0xCD;
    let mut ppu = Ppu::new(&bus);
    // PPUADDR takes the high byte, then the low byte.
    ppu.write_register(&mut bus, 6, 0x20);
    ppu.write_register(&mut bus, 6, 0x00);
    // PPUDATA reads are delayed by one: the first returns the old buffer.
    assert_eq!(ppu.read_register(&bus, 7), 0);
    assert_eq!(ppu.read_register(&bus, 7), 0xAB);
    assert_eq!(ppu.read_register(&bus, 7), 0xCD);
    // Writes go to the address, which then moves by 32 when PPUCTRL bit 2 is set.
    ppu.write_register(&mut bus, 0, 0b100);
    ppu.write_register(&mut bus, 6, 0x21);
    ppu.write_register(&mut bus, 6, 0x00);
    ppu.write_register(&mut bus, 7, 0x11);
    ppu.write_register(&mut bus, 7, 0x22);
    assert_eq!(bus.mem[0x2100], 0x11);
    assert_eq!(bus.mem[0x2120], 0x22);
}

#[test]
fn ppu_palette_reads_are_not_delayed() {
    let mut bus = vram();
    bus.mem[0x3EFF] = 0x77;
    let mut ppu = Ppu::new(&bus);
    ppu.write_register(&mut bus, 6, 0x3E);
    ppu.write_register(&mut bus, 6, 0xFF);
    // The address is 0x3F00 after the read, so the byte just fetched is returned.
    assert_eq!(ppu.read_register(&bus, 7), 0x77);
}

#[test]
fn ppu_status_writes_are_ignored() {
    let mut bus = vram();
    let mut ppu = Ppu::new(&bus);
    ppu.write_register(&mut bus, 2, 0xFF);
    ppu.write_register(&mut bus, 6, 0x00);
    ppu.write_register(&mut bus, 6, 0x05);
    ppu.write_register(&mut bus, 7, 0x99);
    assert_eq!(bus.mem[5], 0x99);
}

#[test]
fn palette_idx_new() {
    assert_eq!(PaletteIdx::new(3).value(), 3);
}

#[test]
fn ppu_register_bits() {
    let c = CtrlBits::new_with_raw_value(0b1000_0111);
    assert!(c.nmtable_x() && c.nmtable_y() && c.vram_increment() && c.vblank_nmi());
    assert!(!c.sprite_addr() && !c.bg_addr() && !c.large_sprite());
    assert_eq!(c.base_nmtable_addr(), 3);
    let m = MaskBits::new_with_raw_value(0b0001_1001);
    assert!(m.grayscale() && m.bg_rendering() && m.sprite_rendering());
    assert!(!m.show_left_sprites() && !m.emph_blue());
    let s = StatusBits::new_with_raw_value(0b1010_0000);
    assert!(s.vblank() && s.sprite_overflow() && !s.sprite_zero_hit());
    assert_eq!(s.raw_value(), 0b1010_0000);
}

#[test]
fn loopy_fields() {
    // fine Y 5, nametable Y 1, nametable X 0, coarse Y 17, coarse X 9.
    let raw: u16 = (5 << 12) | (1 << 11) | (17 << 5) | 9;
    let l = Loopy::new_with_raw_value(raw | 0x8000);
    assert_eq!(l.coarse_x(), 9);
    assert_eq!(l.coarse_y(), 17);
    assert!(!l.nmtable_x());
    assert!(l.nmtable_y());
    assert_eq!(l.fine_y(), 5);
    assert_eq!(l.as_address(), raw & 0x3FFF);
}

struct Recorder {
    points: Vec<(u32, u32, (u8, u8, u8))>,
}

impl nes::Canvas for Recorder {
    fn draw_point(&mut self, x: u32, y: u32, rgb: (u8, u8, u8)) {
        self.points.push((x, y, rgb));
    }
}

#[test]
fn ppu_draw_tiles_layout() {
    let mut bus = vram();
    // Tile 33 (second row of tiles, second column), row 1: pixel 0 has index 1.
    bus.mem[33 * 16 + 1] = 0b1000_0000;
    let ppu = Ppu::new(&bus);
    // A system palette whose entry i is (i, i, i).
    let mut colors = [(0u8, 0u8, 0u8); 64];
    for (i, c) in colors.iter_mut().enumerate() {
        *c = (i as u8, i as u8, i as u8);
    }
    let mut canvas = Recorder { points: Vec::new() };
    ppu.draw_tiles(&mut canvas, &colors);
    assert_eq!(canvas.points.len(), 512 * 64);
    // Palette index 0 is shown with system color 0x01, index 1 with 0x20.
    assert_eq!(canvas.points[0], (0, 0, (1, 1, 1)));
    // Point 9 is tile 0, row 1, column 1.
    assert_eq!(canvas.points[9], (1, 1, (1, 1, 1)));
    let k = 33 * 64 + 8;
    assert_eq!(canvas.points[k], (8, 9, (0x20, 0x20, 0x20)));
    assert_eq!(canvas.points.iter().filter(|p| p.2 != (1, 1, 1)).count(), 1);
}

#[test]
fn ppu_draw_tiles_draws_each_pixel_once() {
    let ppu = Ppu::new(&vram());
    let colors = [(0u8, 0u8, 0u8); 64];
    let mut canvas = Recorder { points: Vec::new() };
    ppu.draw_tiles(&mut canvas, &colors);
    let mut seen = vec![false; 256 * 128];
    for &(x, y, _) in &canvas.points {
        assert!(x < 256 && y < 128);
        let i = (y * 256 + x) as usize;
        assert!(!seen[i]);
        seen[i] = true;
    }
    assert!(seen.iter().all(|s| *s));
    // Pixel (x, y) is point number ((y / 8) * 32 + x / 8) * 64 + (y % 8) * 8 + x % 8.
    let (x, y) = (77_u32, 101_u32);
    let k = (((y / 8) * 32 + x / 8) * 64 + (y % 8) * 8 + x % 8) as usize;
    assert_eq!((canvas.points[k].0, canvas.points[k].1), (x, y));
}
