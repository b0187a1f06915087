//! The picture processing unit.
pub mod registers;

use vstd::prelude::*;

use crate::bus::{Mem, PpuBus};
use crate::cartridge::CHR_ROM_SIZE;
use crate::ppu::registers::{CtrlBits, MaskBits, StatusBits};
use crate::util::bit_spec;

verus! {

/// Start of palette RAM in the PPU's address space.
pub const PALETTE_RAM_START: u16 = 0x3F00;
/// Number of 16-byte tiles in character ROM.
pub const TILES_SIZE: usize = 512;

/// An RGB color.
pub type Rgb = (u8, u8, u8);

/// Canvas abstraction for the PPU to draw on.
///
/// An implementation that records what it draws sets `obeys_canvas_spec` to true and defines
/// `points`. By default nothing is promised, so that unverified code can implement the trait with
/// `draw_point` alone.
pub trait Canvas {
    /// The implementation keeps the contract of `draw_point`.
    closed spec fn obeys_canvas_spec() -> bool {
        false
    }

    /// The points drawn so far, in order.
    closed spec fn points(&self) -> Seq<(u32, u32, Rgb)> {
        arbitrary()
    }

    /// Draw one point.
    fn draw_point(&mut self, x: u32, y: u32, rgb: Rgb)
        ensures
            Self::obeys_canvas_spec() ==> final(self).points() == old(self).points().push(
                (x, y, rgb),
            ),
    ;
}

/// The entries of the system palette that [`Ppu::draw_tiles`] shows the four palette indices
/// with.
pub open spec fn test_palette_spec(idx: u8) -> int {
    if idx == 0 {
        0x01
    } else if idx == 1 {
        0x20
    } else if idx == 2 {
        0x38
    } else {
        0x07
    }
}

/// The entry of the system palette that [`Ppu::draw_tiles`] shows palette index `idx` with.
fn test_palette(idx: u8) -> (i: usize)
    ensures
        i == test_palette_spec(idx),
{
    if idx == 0 {
        0x01
    } else if idx == 1 {
        0x20
    } else if idx == 2 {
        0x38
    } else {
        0x07
    }
}

/// A u2 index into a palette located in palette RAM.
#[derive(Debug, Clone, Copy, PartialEq, Eq, Structural)]
pub struct PaletteIdx(u8);

impl PaletteIdx {
    /// The index.
    pub closed spec fn value_spec(&self) -> u8 {
        self.0
    }

    /// A palette index; `value` must be below 4.
    pub fn new(value: u8) -> (p: Self)
        requires
            value < 4,
        ensures
            p.value_spec() == value,
    {
        PaletteIdx(value)
    }

    /// The index.
    pub fn value(&self) -> (v: u8)
        ensures
            v == self.value_spec(),
    {
        self.0
    }
}

/// An 8x8 tile of palette indices, row by row.
pub type Tile = [[PaletteIdx; 8]; 8];

/// The palette index of pixel (`row`, `col`) of tile `tile` in character memory `mem`: bit
/// `7 - col` of the tile's low plane byte for the row, plus twice that bit of its high plane
/// byte, which lies 8 bytes further.
pub open spec fn chr_pixel(mem: Mem, tile: int, row: int, col: int) -> u8 {
    let low = mem((16 * tile + row) as u16);
    let high = mem((16 * tile + row + 8) as u16);
    let lsb: u8 = if bit_spec(low, (7 - col) as u8) {
        1
    } else {
        0
    };
    let msb: u8 = if bit_spec(high, (7 - col) as u8) {
        1
    } else {
        0
    };
    (2 * msb + lsb) as u8
}

/// Tile `tile` of character memory is 16 bytes from byte `16 * tile`: eight low-plane bytes, one
/// per row, then eight high-plane bytes. Column `col` of a row is bit `7 - col` of its two plane
/// bytes (leftmost pixel in the top bit), and the palette index is the low-plane bit plus twice
/// the high-plane bit.
pub proof fn lemma_chr_pixel_planes(mem: Mem, tile: int, row: int, col: int)
    requires
        0 <= tile < TILES_SIZE,
        0 <= row < 8,
        0 <= col < 8,
    ensures
        ({
            let low = mem((16 * tile + row) as u16);
            let high = mem((16 * tile + 8 + row) as u16);
            let n = (7 - col) as u8;
            chr_pixel(mem, tile, row, col) == 2 * ((high >> n) & 1) + ((low >> n) & 1)
        }),
{
    let low = mem((16 * tile + row) as u16);
    let high = mem((16 * tile + 8 + row) as u16);
    let n = (7 - col) as u8;
    assert(((low >> n) & 1 == 1 || (low >> n) & 1 == 0) && ((high >> n) & 1 == 1 || (high >> n) & 1
        == 0)) by (bit_vector);
}

/// The number of the point that [`Ppu::draw_tiles`] draws at pixel (`x`, `y`): tiles lie 32 to
/// a row of 8x8 squares, and each tile is drawn row by row.
pub open spec fn point_index(x: int, y: int) -> int {
    ((y / 8) * 32 + x / 8) * 64 + (y % 8) * 8 + x % 8
}

/// PPUADDR after `value` is written to it: the high byte on the first write of a pair, the low
/// byte on the second.
pub open spec fn ppuaddr_write(address: u16, first_write: bool, value: u8) -> u16 {
    if first_write {
        (value * 256 + address % 256) as u16
    } else {
        ((address / 256) * 256 + value) as u16
    }
}

/// A PPUDATA read at `address`: the address moves on by `increment`, the byte at `address` is
/// buffered, and the read returns that byte at once in palette RAM, and otherwise the byte
/// buffered before. Gives the new address, the new buffer and the byte returned.
pub open spec fn ppudata_read(address: u16, increment: u16, buffer: u8, mem: Mem) -> (u16, u8, u8) {
    let next = (address + increment) as u16;
    let fetched = mem(address);
    (next, fetched, if next >= PALETTE_RAM_START {
        fetched
    } else {
        buffer
    })
}

/// A PPUDATA write of `value` at `address`: the byte goes to `address`, then the address moves on
/// by `increment`. Gives the new address and what the bus reads as afterwards.
pub open spec fn ppudata_write<P: PpuBus>(address: u16, increment: u16, mem: Mem, value: u8) -> (
    u16,
    Mem,
) {
    ((address + increment) as u16, P::after_ppu_write(mem, address, value))
}

/// Below palette RAM, PPUDATA reads lag by one: of two reads in a row, the first returns the
/// byte buffered before it, and the second the byte at the address the first one started from.
pub proof fn lemma_ppudata_reads_lag(address: u16, increment: u16, buffer: u8, mem: Mem)
    requires
        address + 2 * increment < PALETTE_RAM_START,
    ensures
        ({
            let (a1, b1, r1) = ppudata_read(address, increment, buffer, mem);
            let (a2, b2, r2) = ppudata_read(a1, increment, b1, mem);
            &&& r1 == buffer
            &&& r2 == mem(address)
            &&& a2 == address + 2 * increment
        }),
{
}

/// Setting PPUADDR to `high:low` with a pair of writes and then writing `v1` and `v2` to PPUDATA
/// stores `v1` at `high:low` and `v2` at the address one `increment` further, and leaves the
/// address a further `increment` on.
pub proof fn lemma_ppuaddr_then_ppudata<P: PpuBus>(
    address: u16,
    high: u8,
    low: u8,
    increment: u16,
    mem: Mem,
    v1: u8,
    v2: u8,
)
    requires
        high as int * 256 + low as int + 2 * increment <= 0xFFFF,
    ensures
        ({
            let start = ppuaddr_write(ppuaddr_write(address, true, high), false, low);
            let (a1, m1) = ppudata_write::<P>(start, increment, mem, v1);
            let (a2, m2) = ppudata_write::<P>(a1, increment, m1, v2);
            &&& start == high as int * 256 + low as int
            &&& m2 == P::after_ppu_write(
                P::after_ppu_write(mem, start, v1),
                (start + increment) as u16,
                v2,
            )
            &&& a2 == start + 2 * increment
        }),
{
    lemma_ppuaddr_pair(address, high, low);
}

/// Two writes to PPUADDR, the first of a pair then the second, set the whole address to
/// `high:low`, whatever it held before.
pub proof fn lemma_ppuaddr_pair(address: u16, high: u8, low: u8)
    ensures
        ppuaddr_write(ppuaddr_write(address, true, high), false, low) == high as int * 256
            + low as int,
{
}

/// The PPU's registers.
#[derive(Debug)]
struct Registers {
    status: StatusBits,
    mask: MaskBits,
    ctrl: CtrlBits,
    address: u16,
}

/// The PPU.
#[derive(Debug)]
pub struct Ppu {
    tiles: Vec<Tile>,
    regs: Registers,
    data_buffer: u8,
    first_write: bool,
}

/// One bit of a byte, as 0 or 1, and two such bits combined.
proof fn lemma_pixel_bits(b: u8, n: u8, msb: u8, lsb: u8)
    requires
        n < 8,
        msb <= 1,
        lsb <= 1,
    ensures
        (b >> n) & 1 == (if bit_spec(b, n) {
            1u8
        } else {
            0u8
        }),
        msb << 1 | lsb == 2 * msb + lsb,
{
    assert((b >> n) & 1 == 0 || (b >> n) & 1 == 1) by (bit_vector);
    assert(msb << 1 | lsb == 2 * msb + lsb) by (bit_vector)
        requires
            msb <= 1,
            lsb <= 1,
    ;
}

impl Ppu {
    /// The decoded tiles.
    pub closed spec fn tiles_view(&self) -> Seq<Tile> {
        self.tiles@
    }

    /// Palette index of pixel (`row`, `col`) of tile `tile`.
    pub open spec fn pixel_spec(&self, tile: int, row: int, col: int) -> u8 {
        self.tiles_view()[tile][row][col].value_spec()
    }

    /// The VRAM address register.
    pub closed spec fn address_spec(&self) -> u16 {
        self.regs.address
    }

    /// The byte that the next PPUDATA read below palette RAM returns.
    pub closed spec fn data_buffer_spec(&self) -> u8 {
        self.data_buffer
    }

    /// The next PPUADDR write sets the high byte.
    pub closed spec fn first_write_spec(&self) -> bool {
        self.first_write
    }

    /// PPUCTRL.
    pub closed spec fn ctrl_spec(&self) -> u8 {
        self.regs.ctrl.raw()
    }

    /// PPUMASK.
    pub closed spec fn mask_spec(&self) -> u8 {
        self.regs.mask.raw()
    }

    /// PPUSTATUS.
    pub closed spec fn status_spec(&self) -> u8 {
        self.regs.status.raw()
    }

    /// The tile table is complete and holds only palette indices below 4.
    pub closed spec fn inv(&self) -> bool {
        &&& self.tiles@.len() == TILES_SIZE
        &&& forall|t: int, row: int, col: int|
            0 <= t < TILES_SIZE && 0 <= row < 8 && 0 <= col < 8
                ==> #[trigger] self.tiles@[t][row][col].value_spec() < 4
    }

    /// Palette index of pixel (`row`, `col`) of tile `tile`.
    pub fn palette_index(&self, tile: usize, row: usize, col: usize) -> (p: u8)
        requires
            self.inv(),
            tile < TILES_SIZE,
            row < 8,
            col < 8,
        ensures
            p == self.pixel_spec(tile as int, row as int, col as int),
    {
        self.tiles[tile][row][col].value()
    }

    /// The `k`-th point that [`Ppu::draw_tiles`] draws: tiles are laid out 32 to a row of
    /// 8x8 squares, each drawn row by row.
    pub open spec fn tile_point(&self, k: int, colors: [Rgb; 64]) -> (u32, u32, Rgb) {
        let t = k / 64;
        let row = (k % 64) / 8;
        let col = k % 8;
        (
            ((t % 32) * 8 + col) as u32,
            ((t / 32) * 8 + row) as u32,
            colors[test_palette_spec(self.pixel_spec(t, row, col))],
        )
    }

    /// [`Ppu::draw_tiles`] draws every pixel of a 256x128 picture exactly once: its `k`-th point
    /// lies inside the picture at the pixel whose index is `k`, and pixel (`x`, `y`) is its point
    /// number `point_index(x, y)`.
    pub proof fn lemma_tile_points_cover_once(&self, colors: [Rgb; 64], k: int, x: int, y: int)
        requires
            0 <= k < TILES_SIZE * 64,
            0 <= x < 256,
            0 <= y < 128,
        ensures
            self.tile_point(k, colors).0 < 256,
            self.tile_point(k, colors).1 < 128,
            point_index(self.tile_point(k, colors).0 as int, self.tile_point(k, colors).1 as int)
                == k,
            0 <= point_index(x, y) < TILES_SIZE * 64,
            self.tile_point(point_index(x, y), colors).0 == x,
            self.tile_point(point_index(x, y), colors).1 == y,
    {
        let t = k / 64;
        let px = (t % 32) * 8 + k % 8;
        let py = (t / 32) * 8 + (k % 64) / 8;
        assert(0 <= px < 256 && 0 <= py < 128 && point_index(px, py) == k) by (nonlinear_arith)
            requires
                0 <= k < 32768,
                t == k / 64,
                px == (t % 32) * 8 + k % 8,
                py == (t / 32) * 8 + (k % 64) / 8,
        ;
        let j = point_index(x, y);
        let tj = j / 64;
        assert(0 <= j < 32768 && (tj % 32) * 8 + j % 8 == x && (tj / 32) * 8 + (j % 64) / 8 == y)
            by (nonlinear_arith)
            requires
                0 <= x < 256,
                0 <= y < 128,
                j == ((y / 8) * 32 + x / 8) * 64 + (y % 8) * 8 + x % 8,
                tj == j / 64,
        ;
    }

    /// [`Ppu::draw_tiles`] shows pixel (`x`, `y`), pixel (`y % 8`, `x % 8`) of tile
    /// `(y / 8) * 32 + x / 8`, in the colour of its palette index `i` through system palette entry
    /// `[0x01, 0x20, 0x38, 0x07][i]`.
    pub proof fn lemma_tile_point_colour(&self, colors: [Rgb; 64], x: int, y: int)
        requires
            self.inv(),
            0 <= x < 256,
            0 <= y < 128,
        ensures
            ({
                let i = self.pixel_spec((y / 8) * 32 + x / 8, y % 8, x % 8);
                &&& i < 4
                &&& self.tile_point(point_index(x, y), colors).2 == colors@[seq![
                    0x01int,
                    0x20int,
                    0x38int,
                    0x07int,
                ][i as int]]
            }),
    {
        let k = point_index(x, y);
        assert(k / 64 == (y / 8) * 32 + x / 8 && (k % 64) / 8 == y % 8 && k % 8 == x % 8)
            by (nonlinear_arith)
            requires
                0 <= x < 256,
                0 <= y < 128,
                k == ((y / 8) * 32 + x / 8) * 64 + (y % 8) * 8 + x % 8,
        ;
        let t = (y / 8) * 32 + x / 8;
        assert(0 <= t < TILES_SIZE);
        assert(self.pixel_spec(t, y % 8, x % 8) < 4);
    }

    /// Two different points that [`Ppu::draw_tiles`] draws lie at different pixels.
    pub proof fn lemma_tile_points_distinct(&self, colors: [Rgb; 64], k1: int, k2: int)
        requires
            0 <= k1 < TILES_SIZE * 64,
            0 <= k2 < TILES_SIZE * 64,
            k1 != k2,
        ensures
            (self.tile_point(k1, colors).0, self.tile_point(k1, colors).1) != (
                self.tile_point(k2, colors).0,
                self.tile_point(k2, colors).1,
            ),
    {
        self.lemma_tile_points_cover_once(colors, k1, 0, 0);
        self.lemma_tile_points_cover_once(colors, k2, 0, 0);
    }

    /// Draw every tile of the pattern tables, showing the four palette indices with entries 0x01,
    /// 0x20, 0x38 and 0x07 of the system palette `colors`.
    pub fn draw_tiles<C: Canvas>(&self, canvas: &mut C, colors: &[Rgb; 64])
        requires
            self.inv(),
        ensures
            C::obeys_canvas_spec() ==> final(canvas).points() == old(canvas).points() + Seq::new(
                (TILES_SIZE * 64) as nat,
                |k: int| self.tile_point(k, *colors),
            ),
    {
        let ghost start = canvas.points();
        assert(forall|t: int, row: int, col: int|
            0 <= t < TILES_SIZE && 0 <= row < 8 && 0 <= col < 8 ==> #[trigger] self.pixel_spec(
                t,
                row,
                col,
            ) < 4);
        let mut tile_idx: usize = 0;
        while tile_idx < TILES_SIZE
            invariant
                tile_idx <= TILES_SIZE,
                self.inv(),
                forall|t: int, row: int, col: int|
                    0 <= t < TILES_SIZE && 0 <= row < 8 && 0 <= col < 8 ==> #[trigger] self.pixel_spec(
                        t,
                        row,
                        col,
                    ) < 4,
                C::obeys_canvas_spec() ==> canvas.points() == start + Seq::new(
                    (tile_idx * 64) as nat,
                    |k: int| self.tile_point(k, *colors),
                ),
            decreases TILES_SIZE - tile_idx,
        {
            let x = (tile_idx % 32 * 8) as u32;
            let y = (tile_idx / 32 * 8) as u32;
            let mut i: usize = 0;
            while i < 8
                invariant
                    tile_idx < TILES_SIZE,
                    i <= 8,
                    x == (tile_idx % 32) * 8,
                    y == (tile_idx / 32) * 8,
                    self.inv(),
                    forall|t: int, row: int, col: int|
                        0 <= t < TILES_SIZE && 0 <= row < 8 && 0 <= col < 8
                            ==> #[trigger] self.pixel_spec(t, row, col) < 4,
                    C::obeys_canvas_spec() ==> canvas.points() == start + Seq::new(
                        (tile_idx * 64 + i * 8) as nat,
                        |k: int| self.tile_point(k, *colors),
                    ),
                decreases 8 - i,
            {
                let mut j: usize = 0;
                while j < 8
                    invariant
                        tile_idx < TILES_SIZE,
                        i < 8,
                        j <= 8,
                        x == (tile_idx % 32) * 8,
                        y == (tile_idx / 32) * 8,
                        self.inv(),
                        forall|t: int, row: int, col: int|
                            0 <= t < TILES_SIZE && 0 <= row < 8 && 0 <= col < 8
                                ==> #[trigger] self.pixel_spec(t, row, col) < 4,
                        C::obeys_canvas_spec() ==> canvas.points() == start + Seq::new(
                            (tile_idx * 64 + i * 8 + j) as nat,
                            |k: int| self.tile_point(k, *colors),
                        ),
                    decreases 8 - j,
                {
                    let palette_idx = self.palette_index(tile_idx, i, j);
                    let rgb = colors[test_palette(palette_idx)];
                    let ghost k = tile_idx * 64 + i * 8 + j;
                    proof {
                        assert(k / 64 == tile_idx);
                        assert((k % 64) / 8 == i);
                        assert(k % 8 == j);
                    }
                    canvas.draw_point(x + j as u32, y + i as u32, rgb);
                    j = j + 1;
                    proof {
                        if C::obeys_canvas_spec() {
                            assert(canvas.points() =~= start + Seq::new(
                                (tile_idx * 64 + i * 8 + j) as nat,
                                |k: int| self.tile_point(k, *colors),
                            ));
                        }
                    }
                }
                i = i + 1;
            }
            tile_idx = tile_idx + 1;
        }
    }

    /// Read PPU register `addr` (0 to 7). Only PPUDATA (7) can be read so far: it returns the
    /// byte buffered by the previous read, or, in palette RAM, the byte just read, and moves the
    /// address on.
    pub fn read_register<P: PpuBus>(&mut self, bus: &P, addr: u16) -> (r: u8)
        requires
            addr == 7,
            old(self).inv(),
            bus.ppu_inv(),
            P::obeys_ppu_bus_spec(),
            bus.ppu_readable(old(self).address_spec()),
            old(self).address_spec() + old(self).increment_spec() <= 0xFFFF,
        ensures
            final(self).inv(),
            (final(self).address_spec(), final(self).data_buffer_spec(), r) == ppudata_read(
                old(self).address_spec(),
                old(self).increment_spec(),
                old(self).data_buffer_spec(),
                bus.ppu_mem(),
            ),
            final(self).first_write_spec() == old(self).first_write_spec(),
            final(self).ctrl_spec() == old(self).ctrl_spec(),
            final(self).mask_spec() == old(self).mask_spec(),
            final(self).status_spec() == old(self).status_spec(),
            final(self).tiles_view() == old(self).tiles_view(),
    {
        let buffered_result = self.data_buffer;
        self.data_buffer = bus.ppu_read(self.regs.address);
        self.regs.address = self.regs.address + if self.regs.ctrl.vram_increment() {
            32
        } else {
            1
        };
        if self.regs.address >= PALETTE_RAM_START {
            self.data_buffer
        } else {
            buffered_result
        }
    }

    /// Write `value` to PPU register `addr` (0 to 7): PPUCTRL (0), PPUMASK (1), PPUSTATUS (2,
    /// ignored), PPUADDR (6, high byte first) or PPUDATA (7, which then moves the address on).
    /// OAMADDR, OAMDATA and PPUSCROLL (3 to 5) are not supported yet.
    pub fn write_register<P: PpuBus>(&mut self, bus: &mut P, addr: u16, value: u8)
        requires
            addr < 8,
            addr != 3 && addr != 4 && addr != 5,
            old(self).inv(),
            old(bus).ppu_inv(),
            P::obeys_ppu_bus_spec(),
            addr == 7 ==> old(bus).ppu_writable(old(self).address_spec()) && old(
                self,
            ).address_spec() + old(self).increment_spec() <= 0xFFFF,
        ensures
            final(self).inv(),
            final(bus).ppu_inv(),
            addr != 7 ==> *final(bus) == *old(bus),
            forall|a: u16| #[trigger] final(bus).ppu_readable(a) == old(bus).ppu_readable(a),
            forall|a: u16| #[trigger] final(bus).ppu_writable(a) == old(bus).ppu_writable(a),
            final(self).tiles_view() == old(self).tiles_view(),
            final(self).data_buffer_spec() == old(self).data_buffer_spec(),
            final(self).status_spec() == old(self).status_spec(),
            final(self).ctrl_spec() == if addr == 0 {
                value
            } else {
                old(self).ctrl_spec()
            },
            final(self).mask_spec() == if addr == 1 {
                value
            } else {
                old(self).mask_spec()
            },
            final(self).address_spec() == if addr == 6 {
                ppuaddr_write(old(self).address_spec(), old(self).first_write_spec(), value)
            } else if addr == 7 {
                ppudata_write::<P>(
                    old(self).address_spec(),
                    old(self).increment_spec(),
                    old(bus).ppu_mem(),
                    value,
                ).0
            } else {
                old(self).address_spec()
            },
            final(self).first_write_spec() == if addr == 6 {
                !old(self).first_write_spec()
            } else {
                old(self).first_write_spec()
            },
            final(bus).ppu_mem() == if addr == 7 {
                ppudata_write::<P>(
                    old(self).address_spec(),
                    old(self).increment_spec(),
                    old(bus).ppu_mem(),
                    value,
                ).1
            } else {
                old(bus).ppu_mem()
            },
    {
        if addr == 0 {
            self.regs.ctrl = CtrlBits::new_with_raw_value(value);
        } else if addr == 1 {
            self.regs.mask = MaskBits::new_with_raw_value(value);
        } else if addr == 2 {
            // can't write to the status register
        } else if addr == 6 {
            let a = self.regs.address;
            let v = value as u16;
            if self.first_write {
                assert((a & 0x00FF) | v << 8 == v * 256 + a % 256) by (bit_vector)
                    requires
                        v < 256,
                ;
                self.regs.address = (a & 0x00FF) | v << 8;
            } else {
                assert((a & 0xFF00) | v == (a / 256) * 256 + v) by (bit_vector)
                    requires
                        v < 256,
                ;
                self.regs.address = (a & 0xFF00) | v;
            }
            self.first_write = !self.first_write;
        } else {
            bus.ppu_write(self.regs.address, value);
            self.regs.address = self.regs.address + if self.regs.ctrl.vram_increment() {
                32
            } else {
                1
            };
        }
    }

    /// How far a PPUDATA access moves the address: 32 (down a row) or 1 (across).
    pub open spec fn increment_spec(&self) -> u16 {
        if bit_spec(self.ctrl_spec(), 2) {
            32
        } else {
            1
        }
    }

    /// A PPU whose tiles are decoded from the character memory of `bus`, with every register
    /// cleared and the address latch expecting the high byte.
    pub fn new<P: PpuBus>(bus: &P) -> (ppu: Self)
        requires
            bus.ppu_inv(),
            P::obeys_ppu_bus_spec(),
            forall|a: u16| a < CHR_ROM_SIZE ==> #[trigger] bus.ppu_readable(a),
        ensures
            ppu.inv(),
            forall|t: int, row: int, col: int|
                0 <= t < TILES_SIZE && 0 <= row < 8 && 0 <= col < 8 ==> #[trigger] ppu.pixel_spec(
                    t,
                    row,
                    col,
                ) == chr_pixel(bus.ppu_mem(), t, row, col),
            ppu.address_spec() == 0,
            ppu.data_buffer_spec() == 0,
            ppu.first_write_spec(),
            ppu.ctrl_spec() == 0,
            ppu.mask_spec() == 0,
            ppu.status_spec() == 0,
    {
        let mut result = Ppu {
            tiles: Vec::new(),
            regs: Registers {
                status: StatusBits::new_with_raw_value(0),
                mask: MaskBits::new_with_raw_value(0),
                ctrl: CtrlBits::new_with_raw_value(0),
                address: 0,
            },
            data_buffer: 0,
            first_write: true,
        };
        result.make_tiles(bus);
        result
    }

    /// Decode every tile of character memory.
    fn make_tiles<P: PpuBus>(&mut self, bus: &P)
        requires
            bus.ppu_inv(),
            P::obeys_ppu_bus_spec(),
            forall|a: u16| a < CHR_ROM_SIZE ==> #[trigger] bus.ppu_readable(a),
            old(self).tiles@.len() == 0,
        ensures
            final(self).inv(),
            forall|t: int, row: int, col: int|
                0 <= t < TILES_SIZE && 0 <= row < 8 && 0 <= col < 8 ==> #[trigger] final(self).pixel_spec(t, row, col) == chr_pixel(bus.ppu_mem(), t, row, col),
            final(self).regs == old(self).regs,
            final(self).data_buffer == old(self).data_buffer,
            final(self).first_write == old(self).first_write,
    {
        let mut tile_idx: usize = 0;
        while tile_idx < TILES_SIZE
            invariant
                tile_idx <= TILES_SIZE,
                bus.ppu_inv(),
                P::obeys_ppu_bus_spec(),
                forall|a: u16| a < CHR_ROM_SIZE ==> #[trigger] bus.ppu_readable(a),
                self.tiles@.len() == tile_idx,
                forall|t: int, row: int, col: int|
                    0 <= t < tile_idx && 0 <= row < 8 && 0 <= col < 8
                        ==> #[trigger] self.tiles@[t][row][col].value_spec() == chr_pixel(
                        bus.ppu_mem(),
                        t,
                        row,
                        col,
                    ),
                self.regs == old(self).regs,
                self.data_buffer == old(self).data_buffer,
                self.first_write == old(self).first_write,
            decreases TILES_SIZE - tile_idx,
        {
            let tile = decode_tile(bus, tile_idx);
            let ghost before = self.tiles@;
            self.tiles.push(tile);
            assert forall|t: int, row: int, col: int|
                0 <= t < tile_idx + 1 && 0 <= row < 8 && 0 <= col
                    < 8 implies #[trigger] self.tiles@[t][row][col].value_spec() == chr_pixel(
                bus.ppu_mem(),
                t,
                row,
                col,
            ) by {
                if t < tile_idx {
                    assert(self.tiles@[t] == before[t]);
                    assert(before[t][row][col].value_spec() == chr_pixel(bus.ppu_mem(), t, row, col));
                } else {
                    assert(self.tiles@[t] == tile);
                }
            }
            tile_idx = tile_idx + 1;
        }
    }
}

/// Decode tile `tile_idx` of character memory.
fn decode_tile<P: PpuBus>(bus: &P, tile_idx: usize) -> (tile: Tile)
    requires
        tile_idx < TILES_SIZE,
        bus.ppu_inv(),
        P::obeys_ppu_bus_spec(),
        forall|a: u16| a < CHR_ROM_SIZE ==> #[trigger] bus.ppu_readable(a),
    ensures
        forall|row: int, col: int|
            0 <= row < 8 && 0 <= col < 8 ==> #[trigger] tile[row][col].value_spec() == chr_pixel(
                bus.ppu_mem(),
                tile_idx as int,
                row,
                col,
            ),
{
    let mut tile: Tile = [[PaletteIdx(0);8];8];
    let byte_idx = (tile_idx * 16) as u16;
    let mut i: usize = 0;
    while i < 8
        invariant
            i <= 8,
            tile_idx < TILES_SIZE,
            byte_idx == tile_idx * 16,
            bus.ppu_inv(),
            P::obeys_ppu_bus_spec(),
            forall|a: u16| a < CHR_ROM_SIZE ==> #[trigger] bus.ppu_readable(a),
            forall|row: int, col: int|
                0 <= row < i && 0 <= col < 8 ==> #[trigger] tile[row][col].value_spec() == chr_pixel(
                    bus.ppu_mem(),
                    tile_idx as int,
                    row,
                    col,
                ),
        decreases 8 - i,
    {
        let row_low_byte = bus.ppu_read(byte_idx + i as u16);
        let row_high_byte = bus.ppu_read(byte_idx + i as u16 + 8);
        let mut row: [PaletteIdx; 8] = [PaletteIdx(0);8];
        let mut j: usize = 0;
        while j < 8
            invariant
                j <= 8,
                i < 8,
                tile_idx < TILES_SIZE,
                row_low_byte == bus.ppu_mem()((tile_idx * 16 + i) as u16),
                row_high_byte == bus.ppu_mem()((tile_idx * 16 + i + 8) as u16),
                forall|col: int|
                    0 <= col < j ==> #[trigger] row[col].value_spec() == chr_pixel(
                        bus.ppu_mem(),
                        tile_idx as int,
                        i as int,
                        col,
                    ),
            decreases 8 - j,
        {
            let shift = (7 - j) as u8;
            let lsb = row_low_byte >> shift & 1;
            let msb = row_high_byte >> shift & 1;
            proof {
                lemma_pixel_bits(row_low_byte, shift, 0, 0);
                lemma_pixel_bits(row_high_byte, shift, 0, 0);
                lemma_pixel_bits(row_high_byte, shift, msb, lsb);
            }
            row[j] = PaletteIdx::new(msb << 1 | lsb);
            j = j + 1;
        }
        tile[i] = row;
        i = i + 1;
    }
    tile
}

} // verus!
