//! The 6502's addressing modes.
use vstd::prelude::*;

use crate::bus::{Bus, Mem};
use crate::cpu::isa::{resolve_ok, Mode};
use crate::cpu::{advance, Registers};

verus! {

/// According to <https://www.nesdev.org/wiki/CPU_addressing_modes>, there are 13 addressing modes
/// on the MOS 6502.
///
/// Here we have immediate, accumulator, and all the memory addressing modes
/// except for relative and the addressing modes for JMP and JSR. We consider
/// the relative addressing mode identical in implementation to the immediate
/// addressing mode. The addressing modes for JMP and JSR are special because
/// their version of the absolute addressing mode is more like a 2-byte immediate.
#[derive(Debug, Clone, Copy, PartialEq, Eq, Structural)]
pub enum AddrMode {
    Immediate(u8),
    Accumulator,
    /// An address, and whether computing it crossed a page and so costs a cycle more when the
    /// instruction only reads.
    Memory(u16, bool),
}

/// The little-endian 16-bit word made of `low` and `high`.
pub open spec fn word(low: u8, high: u8) -> u16 {
    (high as int * 256 + low as int) as u16
}

/// Which of the 256 pages of memory `addr` lies in.
pub open spec fn page(addr: u16) -> int {
    addr as int / 256
}

/// The address `pc + n`, wrapping at the top of memory.
pub open spec fn pc_at(r: Registers, n: int) -> u16 {
    ((r.pc + n) % 0x10000) as u16
}

/// The byte at `pc + n`, wrapping at the top of memory.
pub open spec fn fetch(r: Registers, mem: Mem, n: int) -> u8 {
    mem(pc_at(r, n))
}

/// The two operand bytes after the opcode, as a word.
pub open spec fn operand_word(r: Registers, mem: Mem) -> u16 {
    word(fetch(r, mem, 0), fetch(r, mem, 1))
}

/// `base + index`, wrapping at the top of memory, flagged when it lies in another page.
pub open spec fn indexed(base: u16, index: u8) -> AddrMode {
    let addr = ((base + index) % 0x10000) as u16;
    AddrMode::Memory(addr, page(base) != page(addr))
}

/// The word stored at zero-page address `ptr`, its high byte wrapping within the zero page.
pub open spec fn zero_page_word(mem: Mem, ptr: u8) -> u16 {
    word(mem(ptr as u16), mem(((ptr + 1) % 256) as u16))
}

pub open spec fn zero_page_spec(r: Registers, mem: Mem) -> AddrMode {
    AddrMode::Memory(fetch(r, mem, 0) as u16, false)
}

pub open spec fn zero_page_x_spec(r: Registers, mem: Mem) -> AddrMode {
    AddrMode::Memory(((fetch(r, mem, 0) + r.x) % 256) as u16, false)
}

pub open spec fn zero_page_y_spec(r: Registers, mem: Mem) -> AddrMode {
    AddrMode::Memory(((fetch(r, mem, 0) + r.y) % 256) as u16, false)
}

pub open spec fn absolute_x_spec(r: Registers, mem: Mem) -> AddrMode {
    indexed(operand_word(r, mem), r.x)
}

pub open spec fn absolute_y_spec(r: Registers, mem: Mem) -> AddrMode {
    indexed(operand_word(r, mem), r.y)
}

/// (zp),Y: the word at the zero-page operand, plus Y.
pub open spec fn indirect_indexed_spec(r: Registers, mem: Mem) -> AddrMode {
    indexed(zero_page_word(mem, fetch(r, mem, 0)), r.y)
}

/// (zp,X): the word at the zero-page operand plus X.
pub open spec fn indexed_indirect_spec(r: Registers, mem: Mem) -> AddrMode {
    AddrMode::Memory(zero_page_word(mem, ((fetch(r, mem, 0) + r.x) % 256) as u8), false)
}

/// JMP (ind): the word at the operand address, whose high byte is fetched from the same page as
/// the low byte (the 6502's page-wrap bug).
pub open spec fn jump_indirect_spec(r: Registers, mem: Mem) -> u16 {
    let lo = fetch(r, mem, 0);
    let hi = fetch(r, mem, 1);
    word(mem(word(lo, hi)), mem(word(((lo + 1) % 256) as u8, hi)))
}

/// The little-endian word made of `low` and `high`.
pub fn le_word(low: u8, high: u8) -> (w: u16)
    ensures
        w == word(low, high),
{
    high as u16 * 256 + low as u16
}

/// The first address of the page that `addr` lies in.
pub fn page_of(addr: u16) -> (p: u16)
    ensures
        p as int == page(addr) * 256,
{
    assert(addr & 0xFF00 == (addr / 256) * 256) by (bit_vector);
    addr & 0xFF00
}

/// `base + index`, and whether the sum lies in another page than `base`.
fn add_index(base: u16, index: u8) -> (m: AddrMode)
    ensures
        m == indexed(base, index),
{
    let addr = base.wrapping_add(index as u16);
    let page_crossed = page_of(base) != page_of(addr);
    AddrMode::Memory(addr, page_crossed)
}

impl AddrMode {
    /// What the operand reads as.
    pub open spec fn load_spec(self, regs: Registers, mem: Mem) -> u8 {
        match self {
            AddrMode::Immediate(value) => value,
            AddrMode::Accumulator => regs.a,
            AddrMode::Memory(addr, _) => mem(addr),
        }
    }

    /// The registers and memory after `value` is stored to the operand.
    pub open spec fn store_spec<B: Bus>(self, regs: Registers, mem: Mem, value: u8) -> (
        Registers,
        Mem,
    ) {
        match self {
            AddrMode::Accumulator => (Registers { a: value, ..regs }, mem),
            AddrMode::Memory(addr, _) => (regs, B::after_write(mem, addr, value)),
            AddrMode::Immediate(_) => (regs, mem),
        }
    }

    /// The operand can be read: it is not in memory, or its address is readable.
    pub open spec fn load_ok<B: Bus>(self, bus: B) -> bool {
        match self {
            AddrMode::Memory(addr, _) => bus.readable(addr),
            _ => true,
        }
    }

    /// The operand can be stored to: it is not in memory, or its address is writable.
    pub open spec fn store_ok<B: Bus>(self, bus: B) -> bool {
        match self {
            AddrMode::Memory(addr, _) => bus.writable(addr),
            _ => true,
        }
    }

    /// The extra cycle that a read through this operand costs.
    pub open spec fn extra_spec(self) -> u8 {
        match self {
            AddrMode::Memory(_, true) => 1,
            _ => 0,
        }
    }

    /// Read the operand.
    pub fn load<B: Bus>(self, regs: &Registers, bus: &B) -> (r: u8)
        requires
            bus.inv(),
            B::obeys_bus_spec(),
            self.load_ok(*bus),
        ensures
            r == self.load_spec(*regs, bus.mem()),
    {
        match self {
            AddrMode::Immediate(value) => value,
            AddrMode::Accumulator => regs.a,
            AddrMode::Memory(addr, _) => bus.read(addr),
        }
    }

    /// Store to the operand. An immediate operand cannot be stored to.
    pub fn store<B: Bus>(self, regs: &mut Registers, bus: &mut B, value: u8)
        requires
            !(self is Immediate),
            old(bus).inv(),
            B::obeys_bus_spec(),
            self.store_ok(*old(bus)),
        ensures
            final(bus).inv(),
            final(bus).hidden() == old(bus).hidden(),
            forall|a: u16| #[trigger] final(bus).readable(a) == old(bus).readable(a),
            forall|a: u16| #[trigger] final(bus).writable(a) == old(bus).writable(a),
            (*final(regs), final(bus).mem()) == self.store_spec::<B>(
                *old(regs),
                old(bus).mem(),
                value,
            ),
    {
        match self {
            AddrMode::Immediate(_) => {},
            AddrMode::Accumulator => regs.a = value,
            AddrMode::Memory(addr, _) => bus.write(addr, value),
        }
    }

    /// Return the number of extra cycles needed for getting data from memory.
    /// Always a 0 or 1.
    pub fn extra_cycles_needed(self) -> (n: u8)
        ensures
            n == self.extra_spec(),
            n <= 1,
    {
        match self {
            AddrMode::Memory(_, needs_extra_cycle) => if needs_extra_cycle {
                1
            } else {
                0
            },
            AddrMode::Accumulator | AddrMode::Immediate(_) => 0,
        }
    }

    // Constructors.
    /// The relative mode of branches reads its operand like the immediate mode.
    pub fn relative<B: Bus>(regs: &mut Registers, bus: &B) -> (m: Self)
        requires
            bus.inv(),
            B::obeys_bus_spec(),
            resolve_ok::<B>(Mode::Relative, *old(regs), *bus),
        ensures
            m == AddrMode::Immediate(fetch(*old(regs), bus.mem(), 0)),
            *final(regs) == advance(*old(regs), 1),
    {
        Self::immediate(regs, bus)
    }

    pub fn immediate<B: Bus>(regs: &mut Registers, bus: &B) -> (m: Self)
        requires
            bus.inv(),
            B::obeys_bus_spec(),
            resolve_ok::<B>(Mode::Immediate, *old(regs), *bus),
        ensures
            m == AddrMode::Immediate(fetch(*old(regs), bus.mem(), 0)),
            *final(regs) == advance(*old(regs), 1),
    {
        AddrMode::Immediate(regs.read_and_bump_pc(bus))
    }

    pub fn zero_page<B: Bus>(regs: &mut Registers, bus: &B) -> (m: Self)
        requires
            bus.inv(),
            B::obeys_bus_spec(),
            resolve_ok::<B>(Mode::ZeroPage, *old(regs), *bus),
        ensures
            m == zero_page_spec(*old(regs), bus.mem()),
            *final(regs) == advance(*old(regs), 1),
    {
        AddrMode::Memory(regs.read_and_bump_pc(bus) as u16, false)
    }

    pub fn zero_page_y<B: Bus>(regs: &mut Registers, bus: &B) -> (m: Self)
        requires
            bus.inv(),
            B::obeys_bus_spec(),
            resolve_ok::<B>(Mode::ZeroPageY, *old(regs), *bus),
        ensures
            m == zero_page_y_spec(*old(regs), bus.mem()),
            *final(regs) == advance(*old(regs), 1),
    {
        let base = regs.read_and_bump_pc(bus);
        let zero_page_addr = base.wrapping_add(regs.y);
        AddrMode::Memory(zero_page_addr as u16, false)
    }

    pub fn zero_page_x<B: Bus>(regs: &mut Registers, bus: &B) -> (m: Self)
        requires
            bus.inv(),
            B::obeys_bus_spec(),
            resolve_ok::<B>(Mode::ZeroPageX, *old(regs), *bus),
        ensures
            m == zero_page_x_spec(*old(regs), bus.mem()),
            *final(regs) == advance(*old(regs), 1),
    {
        let base = regs.read_and_bump_pc(bus);
        let zero_page_addr = base.wrapping_add(regs.x);
        AddrMode::Memory(zero_page_addr as u16, false)
    }

    pub fn absolute<B: Bus>(regs: &mut Registers, bus: &B) -> (m: Self)
        requires
            bus.inv(),
            B::obeys_bus_spec(),
            resolve_ok::<B>(Mode::Absolute, *old(regs), *bus),
        ensures
            m == AddrMode::Memory(operand_word(*old(regs), bus.mem()), false),
            *final(regs) == advance(*old(regs), 2),
    {
        let low = regs.read_and_bump_pc(bus);
        let high = regs.read_and_bump_pc(bus);
        let addr = le_word(low, high);
        AddrMode::Memory(addr, false)
    }

    pub fn absolute_x<B: Bus>(regs: &mut Registers, bus: &B) -> (m: Self)
        requires
            bus.inv(),
            B::obeys_bus_spec(),
            resolve_ok::<B>(Mode::AbsoluteX, *old(regs), *bus),
        ensures
            m == absolute_x_spec(*old(regs), bus.mem()),
            *final(regs) == advance(*old(regs), 2),
    {
        let low = regs.read_and_bump_pc(bus);
        let high = regs.read_and_bump_pc(bus);
        let base = le_word(low, high);
        add_index(base, regs.x)
    }

    pub fn absolute_y<B: Bus>(regs: &mut Registers, bus: &B) -> (m: Self)
        requires
            bus.inv(),
            B::obeys_bus_spec(),
            resolve_ok::<B>(Mode::AbsoluteY, *old(regs), *bus),
        ensures
            m == absolute_y_spec(*old(regs), bus.mem()),
            *final(regs) == advance(*old(regs), 2),
    {
        let low = regs.read_and_bump_pc(bus);
        let high = regs.read_and_bump_pc(bus);
        let base = le_word(low, high);
        add_index(base, regs.y)
    }

    pub fn indirect_indexed<B: Bus>(regs: &mut Registers, bus: &B) -> (m: Self)
        requires
            bus.inv(),
            B::obeys_bus_spec(),
            resolve_ok::<B>(Mode::IndirectIndexed, *old(regs), *bus),
        ensures
            m == indirect_indexed_spec(*old(regs), bus.mem()),
            *final(regs) == advance(*old(regs), 1),
    {
        let zero_page_ptr = regs.read_and_bump_pc(bus);
        let low = bus.read(zero_page_ptr as u16);
        let high = bus.read(zero_page_ptr.wrapping_add(1) as u16);
        let base = le_word(low, high);
        add_index(base, regs.y)
    }

    pub fn indexed_indirect<B: Bus>(regs: &mut Registers, bus: &B) -> (m: Self)
        requires
            bus.inv(),
            B::obeys_bus_spec(),
            resolve_ok::<B>(Mode::IndexedIndirect, *old(regs), *bus),
        ensures
            m == indexed_indirect_spec(*old(regs), bus.mem()),
            *final(regs) == advance(*old(regs), 1),
    {
        let ptr_base = regs.read_and_bump_pc(bus);
        let ptr = ptr_base.wrapping_add(regs.x);
        let low = bus.read(ptr as u16);
        let high = bus.read(ptr.wrapping_add(1) as u16);
        let addr = le_word(low, high);
        AddrMode::Memory(addr, false)
    }
}

/// The target of JMP (ind).
pub fn jump_indirect<B: Bus>(regs: &mut Registers, bus: &B) -> (target: u16)
    requires
        bus.inv(),
        B::obeys_bus_spec(),
        resolve_ok::<B>(Mode::JumpIndirect, *old(regs), *bus),
    ensures
        target == jump_indirect_spec(*old(regs), bus.mem()),
        *final(regs) == advance(*old(regs), 2),
{
    let ptr_low = regs.read_and_bump_pc(bus);
    let ptr_high = regs.read_and_bump_pc(bus);
    // replicate 6502 bug where the high byte of the address can be fetched from the
    // wrong page.
    let low = bus.read(le_word(ptr_low, ptr_high));
    let high = bus.read(le_word(ptr_low.wrapping_add(1), ptr_high));
    le_word(low, high)
}

/// The target of JMP abs and JSR.
pub fn jump_absolute<B: Bus>(regs: &mut Registers, bus: &B) -> (target: u16)
    requires
        bus.inv(),
        B::obeys_bus_spec(),
        resolve_ok::<B>(Mode::JumpAbsolute, *old(regs), *bus),
    ensures
        target == operand_word(*old(regs), bus.mem()),
        *final(regs) == advance(*old(regs), 2),
{
    let low = regs.read_and_bump_pc(bus);
    let high = regs.read_and_bump_pc(bus);
    le_word(low, high)
}

} // verus!
