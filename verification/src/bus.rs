//! The CPU and PPU buses, and the NES's memory map.
use vstd::prelude::*;

use crate::cartridge::{Cartridge, CHR_ROM_SIZE, PRG_ROM_SIZE};
use crate::util::NesError;

verus! {

/// Size of the CPU's internal RAM.
pub const CPU_RAM_SIZE: u16 = 2 * 1024;

/// What every address of a bus reads as.
pub type Mem = spec_fn(u16) -> u8;

/// The main bus.
///
/// A bus is described by which addresses can be read and written (`readable`, `writable`), by
/// what each address reads as (`mem`), by how a write changes that (`after_write`), and by state
/// behind the bus that writes leave alone (`hidden`). Writes do not change which addresses can be
/// read or written.
///
/// An implementation that promises this sets `obeys_bus_spec` to true and defines the other spec
/// functions; the contracts of `read` and `write` hold only for such implementations. By default
/// nothing is promised, so that unverified code can implement the trait with `read` and `write`
/// alone.
pub trait Bus: Sized {
    /// State behind the bus that writes leave alone.
    type Hidden;

    /// The implementation keeps the contracts of `read` and `write`.
    closed spec fn obeys_bus_spec() -> bool {
        false
    }

    /// The bus is well formed.
    closed spec fn inv(&self) -> bool {
        arbitrary()
    }

    /// What a read of each address returns.
    closed spec fn mem(&self) -> Mem {
        arbitrary()
    }

    /// The address can be read.
    closed spec fn readable(&self, addr: u16) -> bool {
        arbitrary()
    }

    /// The address can be written.
    closed spec fn writable(&self, addr: u16) -> bool {
        arbitrary()
    }

    /// State behind the bus that writes leave alone.
    closed spec fn hidden(&self) -> Self::Hidden {
        arbitrary()
    }

    /// What reads return after `value` is written to `addr` on a bus that read as `mem`.
    closed spec fn after_write(mem: Mem, addr: u16, value: u8) -> Mem {
        arbitrary()
    }

    /// Returns the byte corresponding to the address, whether that be in RAM or
    /// data from another device on the bus.
    fn read(&self, addr: u16) -> (r: u8)
        requires
            self.inv(),
            self.readable(addr),
        ensures
            Self::obeys_bus_spec() ==> r == self.mem()(addr),
    ;

    /// Write data on to the bus.
    fn write(&mut self, addr: u16, value: u8)
        requires
            old(self).inv(),
            old(self).writable(addr),
        ensures
            Self::obeys_bus_spec() ==> {
                &&& final(self).inv()
                &&& final(self).mem() == Self::after_write(old(self).mem(), addr, value)
                &&& final(self).hidden() == old(self).hidden()
                &&& forall|a: u16| #[trigger] final(self).readable(a) == old(self).readable(a)
                &&& forall|a: u16| #[trigger] final(self).writable(a) == old(self).writable(a)
            },
    ;
}

/// The PPU bus.
///
/// An implementation that promises the contracts of `ppu_read` and `ppu_write` sets
/// `obeys_ppu_bus_spec` to true and defines the other spec functions. By default nothing is
/// promised, so that unverified code can implement the trait with `ppu_read` and `ppu_write`
/// alone.
pub trait PpuBus: Sized {
    /// The implementation keeps the contracts of `ppu_read` and `ppu_write`.
    closed spec fn obeys_ppu_bus_spec() -> bool {
        false
    }

    /// The bus is well formed.
    closed spec fn ppu_inv(&self) -> bool {
        arbitrary()
    }

    /// What a read of each address returns.
    closed spec fn ppu_mem(&self) -> Mem {
        arbitrary()
    }

    /// The address can be read.
    closed spec fn ppu_readable(&self, addr: u16) -> bool {
        arbitrary()
    }

    /// The address can be written.
    closed spec fn ppu_writable(&self, addr: u16) -> bool {
        arbitrary()
    }

    /// What reads return after `value` is written to `addr` on a bus that read as `mem`.
    closed spec fn after_ppu_write(mem: Mem, addr: u16, value: u8) -> Mem {
        arbitrary()
    }

    /// Returns the byte corresponding to the address.
    fn ppu_read(&self, addr: u16) -> (r: u8)
        requires
            self.ppu_inv(),
            self.ppu_readable(addr),
        ensures
            Self::obeys_ppu_bus_spec() ==> r == self.ppu_mem()(addr),
    ;

    /// Write data on to the bus. Which addresses can be read and written does not change.
    fn ppu_write(&mut self, addr: u16, value: u8)
        requires
            old(self).ppu_inv(),
            old(self).ppu_writable(addr),
        ensures
            Self::obeys_ppu_bus_spec() ==> {
                &&& final(self).ppu_inv()
                &&& final(self).ppu_mem() == Self::after_ppu_write(old(self).ppu_mem(), addr, value)
                &&& forall|a: u16| #[trigger]
                    final(self).ppu_readable(a) == old(self).ppu_readable(a)
                &&& forall|a: u16| #[trigger]
                    final(self).ppu_writable(a) == old(self).ppu_writable(a)
            },
    ;
}

/// The index into the 2 KiB of CPU RAM that an address below 0x2000 selects: 0x0800-0x1FFF are
/// views of 0x0000-0x07FF.
pub open spec fn ram_index(addr: u16) -> int {
    addr as int % CPU_RAM_SIZE as int
}

/// The index into the 16 KiB of program ROM that an address from 0x8000 selects (NROM-128: the
/// bank appears twice).
pub open spec fn prg_index(addr: u16) -> int {
    (addr as int - 0x8000) % PRG_ROM_SIZE as int
}

/// The NES bus: 2 KiB of RAM, an NROM-128 cartridge, the OAM DMA registers and the two
/// controller ports.
#[derive(Debug)]
pub struct NesBus {
    cpu_ram: Vec<u8>,
    rom: Cartridge,
    dma_page: u8,
    dma_idx: u8,
    in_dma_transfer: bool,
    controller_latches: [u8; 2],
    controllers: [u8; 2],
}

impl NesBus {
    /// The CPU RAM.
    pub closed spec fn ram_spec(&self) -> Seq<u8> {
        self.cpu_ram@
    }

    /// The cartridge.
    pub closed spec fn cartridge_spec(&self) -> Cartridge {
        self.rom
    }

    /// The page of CPU RAM that OAM DMA copies from.
    pub closed spec fn dma_page_spec(&self) -> u8 {
        self.dma_page
    }

    /// The next byte of the page that OAM DMA copies.
    pub closed spec fn dma_idx_spec(&self) -> u8 {
        self.dma_idx
    }

    /// An OAM DMA transfer is in progress.
    pub closed spec fn in_dma_transfer_spec(&self) -> bool {
        self.in_dma_transfer
    }

    /// The buttons held on the controller of port `i` (0 or 1), one bit each.
    pub closed spec fn controller_spec(&self, i: int) -> u8 {
        self.controllers[i]
    }

    /// An OAM DMA transfer is in progress.
    pub fn in_dma_transfer(&self) -> (r: bool)
        ensures
            r == self.in_dma_transfer_spec(),
    {
        self.in_dma_transfer
    }

    /// Set the buttons held on the controller of port `port` (0 or 1), one bit each.
    pub fn set_controller(&mut self, port: usize, buttons: u8)
        requires
            port < 2,
        ensures
            final(self).controller_spec(port as int) == buttons,
            final(self).controller_spec(1 - port) == old(self).controller_spec(1 - port),
            final(self).ram_spec() == old(self).ram_spec(),
            final(self).cartridge_spec() == old(self).cartridge_spec(),
            final(self).dma_page_spec() == old(self).dma_page_spec(),
            final(self).dma_idx_spec() == old(self).dma_idx_spec(),
            final(self).in_dma_transfer_spec() == old(self).in_dma_transfer_spec(),
            final(self).latch_spec(0) == old(self).latch_spec(0),
            final(self).latch_spec(1) == old(self).latch_spec(1),
    {
        self.controllers[port] = buttons;
    }

    /// The shift register of controller port `i` (0 or 1).
    pub closed spec fn latch_spec(&self, i: int) -> u8 {
        self.controller_latches[i]
    }

    /// The byte that OAM DMA copies next: byte `dma_idx` of page `dma_page` of CPU RAM. The page
    /// must lie in the 2 KiB of RAM.
    pub fn dma_read(&self) -> (r: u8)
        requires
            self.inv(),
            self.dma_page_spec() as int * 256 + self.dma_idx_spec() < CPU_RAM_SIZE,
        ensures
            r == self.ram_spec()[self.dma_page_spec() as int * 256 + self.dma_idx_spec()],
    {
        let page = self.dma_page as usize;
        let idx = self.dma_idx as usize;
        assert(page << 8 | idx == page * 256 + idx) by (bit_vector)
            requires
                page < 256,
                idx < 256,
        ;
        self.cpu_ram[page << 8 | idx]
    }

    /// Create a new `NesBus` with zeroed RAM. `rom_data` must be an iNES image.
    ///
    /// # Errors
    /// When `rom_data` fails to be parsed.
    pub fn new(rom_data: &[u8]) -> (r: Result<Self, NesError>)
        ensures
            r is Ok <==> crate::cartridge::supported_header(rom_data@),
            r is Err ==> r->Err_0 == NesError::RomParsing,
            r matches Ok(b) ==> {
                &&& b.inv()
                &&& forall|i: int| 0 <= i < CPU_RAM_SIZE ==> b.ram_spec()[i] == 0
                &&& b.cartridge_spec().prg_spec() == rom_data@.subrange(16int, 16int + 0x4000)
                &&& b.cartridge_spec().chr_spec() == rom_data@.subrange(
                    16int + 0x4000,
                    16int + 0x4000 + 0x2000,
                )
                &&& b.cartridge_spec().mirroring_spec() == crate::cartridge::header_mirroring(
                    rom_data@[6],
                )
                &&& b.dma_page_spec() == 0 && b.dma_idx_spec() == 0 && !b.in_dma_transfer_spec()
                &&& b.latch_spec(0) == 0 && b.latch_spec(1) == 0
                &&& b.controller_spec(0) == 0 && b.controller_spec(1) == 0
            },
    {
        let rom = Cartridge::new(rom_data)?;
        Ok(NesBus {
            cpu_ram: crate::cartridge::zeros(CPU_RAM_SIZE as usize),
            rom,
            dma_page: 0,
            dma_idx: 0,
            in_dma_transfer: false,
            controller_latches: [0; 2],
            controllers: [0; 2],
        })
    }
}

impl Default for NesBus {
    /// A bus with zeroed RAM and a cartridge whose ROMs hold only zeros.
    fn default() -> (b: Self)
        ensures
            b.inv(),
            forall|a: u16| #[trigger] b.mem()(a) == 0,
    {
        let b = NesBus {
            cpu_ram: crate::cartridge::zeros(CPU_RAM_SIZE as usize),
            rom: Cartridge::debug_default(),
            dma_page: 0,
            dma_idx: 0,
            in_dma_transfer: false,
            controller_latches: [0; 2],
            controllers: [0; 2],
        };
        assert forall|a: u16| #[trigger] b.mem()(a) == 0 by {
            if a >= 0x8000 {
                assert(0 <= prg_index(a) < PRG_ROM_SIZE);
            }
        }
        b
    }
}

/// This implementation supports only NROM-128 mappers. A write to 0x4014 starts OAM DMA from
/// the page written, a write to 0x4016 or 0x4017 loads the port's shift register from its
/// controller. Addresses mapped to no device (APU and I/O registers, open bus) read as 0 and ignore
/// writes.
///
/// The PPU registers (0x2000-0x3FFF) belong to a PPU that this bus does not hold, so they can be
/// neither read nor written; the controller ports cannot be read, since a read shifts the port's
/// register and `read` leaves the bus unchanged.
impl Bus for NesBus {
    type Hidden = Cartridge;

    open spec fn obeys_bus_spec() -> bool {
        true
    }

    /// The cartridge.
    open spec fn hidden(&self) -> Cartridge {
        self.cartridge_spec()
    }

    open spec fn inv(&self) -> bool {
        &&& self.ram_spec().len() == CPU_RAM_SIZE
        &&& self.cartridge_spec().inv()
    }

    open spec fn readable(&self, addr: u16) -> bool {
        !(0x2000 <= addr < 0x4000) && addr != 0x4016 && addr != 0x4017
    }

    open spec fn writable(&self, addr: u16) -> bool {
        !(0x2000 <= addr < 0x4000)
    }

    open spec fn mem(&self) -> Mem {
        |a: u16|
            if a < 0x2000 {
                self.ram_spec()[ram_index(a)]
            } else if a >= 0x8000 {
                self.cartridge_spec().prg_spec()[prg_index(a)]
            } else {
                0u8
            }
    }

    open spec fn after_write(mem: Mem, addr: u16, value: u8) -> Mem {
        |a: u16|
            if addr < 0x2000 && a < 0x2000 && ram_index(a) == ram_index(addr) {
                value
            } else {
                mem(a)
            }
    }

    fn read(&self, addr: u16) -> (r: u8) {
        if addr < 0x2000 {
            // The CPU's internal memory. The first 8 KiB, meaning address ranges
            //
            // - 0x0800-0x0FFF
            // - 0x1000-0x17FF
            // - 0x1800-0x1FFF
            //
            // are views of 0x0000-0x07FF.
            self.cpu_ram[(addr % CPU_RAM_SIZE) as usize]
        } else if addr >= 0x8000 {
            self.rom.prg()[((addr - 0x8000) % PRG_ROM_SIZE) as usize]
        } else {
            0
        }
    }

    fn write(&mut self, addr: u16, value: u8)
        ensures
            addr == 0x4014 ==> final(self).dma_page_spec() == value && final(self).dma_idx_spec()
                == 0 && final(self).in_dma_transfer_spec(),
            addr != 0x4014 ==> final(self).dma_page_spec() == old(self).dma_page_spec()
                && final(self).dma_idx_spec() == old(self).dma_idx_spec()
                && final(self).in_dma_transfer_spec() == old(self).in_dma_transfer_spec(),
            forall|i: int|
                0 <= i < 2 ==> #[trigger] final(self).latch_spec(i) == if (addr == 0x4016 || addr
                    == 0x4017) && i == addr % 2 {
                    old(self).controller_spec(i)
                } else {
                    old(self).latch_spec(i)
                },
            forall|i: int| 0 <= i < 2 ==> #[trigger] final(self).controller_spec(i) == old(self).controller_spec(i),
    {
        if addr < 0x2000 {
            // The CPU's internal memory.
            self.cpu_ram.set((addr % CPU_RAM_SIZE) as usize, value);
        } else if addr == 0x4014 {
            // OAM direct memory access.
            self.dma_page = value;
            self.dma_idx = 0;
            self.in_dma_transfer = true;
        } else if addr == 0x4016 || addr == 0x4017 {
            let i = (addr % 2) as usize;
            self.controller_latches[i] = self.controllers[i];
        }
        assert(self.mem() =~= Self::after_write(old(self).mem(), addr, value));
    }
}

/// The PPU sees the cartridge's character ROM at 0x0000-0x1FFF.
impl PpuBus for NesBus {
    open spec fn obeys_ppu_bus_spec() -> bool {
        true
    }

    open spec fn ppu_inv(&self) -> bool {
        self.inv()
    }

    open spec fn ppu_mem(&self) -> Mem {
        |a: u16|
            if a < CHR_ROM_SIZE {
                self.cartridge_spec().chr_spec()[a as int]
            } else {
                0u8
            }
    }

    open spec fn ppu_readable(&self, addr: u16) -> bool {
        addr < CHR_ROM_SIZE
    }

    /// Character ROM cannot be written, and nothing else is mapped yet.
    open spec fn ppu_writable(&self, addr: u16) -> bool {
        false
    }

    open spec fn after_ppu_write(mem: Mem, addr: u16, value: u8) -> Mem {
        mem
    }

    fn ppu_read(&self, addr: u16) -> (r: u8) {
        self.rom.chr()[addr as usize]
    }

    fn ppu_write(&mut self, addr: u16, value: u8) {
    }
}

/// The 2 KiB of RAM appear four times in the first 8 KiB: an address and its mirrors 0x800,
/// 0x1000 and 0x1800 bytes further read the same.
pub proof fn lemma_ram_mirrors(bus: NesBus, addr: u16)
    requires
        bus.inv(),
        addr < 0x800,
    ensures
        bus.mem()(addr) == bus.mem()((addr + 0x800) as u16),
        bus.mem()(addr) == bus.mem()((addr + 0x1000) as u16),
        bus.mem()(addr) == bus.mem()((addr + 0x1800) as u16),
{
}

/// Reading back a RAM address returns the last value written to it or to any of its mirrors, and
/// a write changes nothing else.
pub proof fn lemma_ram_write_read(bus_mem: Mem, addr: u16, value: u8, other: u16)
    ensures
        addr < 0x2000 && other < 0x2000 && other as int % 0x800 == addr as int % 0x800
            ==> NesBus::after_write(bus_mem, addr, value)(other) == value,
        !(addr < 0x2000 && other < 0x2000 && other as int % 0x800 == addr as int % 0x800)
            ==> NesBus::after_write(bus_mem, addr, value)(other) == bus_mem(other),
{
}

} // verus!
