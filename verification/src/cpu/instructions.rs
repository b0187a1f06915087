//! The implementation of every 6502 instruction.
//!
//! Every function returns the number of additional cycles it is supposed to take. This
//! is always 0, 1, or 2.
//!
//! The rules are:
//! - Add one cycle if load addressing crossed a page boundary (calculated by
//!   `AddrMode`).
//! - Add one cycle on branch instructions if the branch was taken.
//! - Add another cycle on branch instructions if we jumped across a page boundary.
use vstd::prelude::*;

use crate::bus::{Bus, Mem, NesBus};
use crate::cpu::addressing::{le_word, page, page_of, word, AddrMode};
use crate::cpu::status::{
    flag, is_flag, lemma_push_pop_restores_flags, lemma_put_flag, popped, pushable, put, put_zn,
    Status, BREAK, CARRY, DECIMAL, INTERRUPT, NEGATIVE, OVERFLOW, UNUSED, ZERO,
};
use crate::cpu::isa::{op_ok, Op, Operand};
use crate::cpu::Registers;

verus! {

/// Base of the stack page.
pub const STACK_BASE: u16 = 0x0100;
/// Address of the interrupt vector.
pub const IRQ_BASE: u16 = 0xFFFE;

// Specifications.
/// `v` read as a two's complement byte.
pub open spec fn signed(v: u8) -> int {
    if v < 0x80 {
        v as int
    } else {
        v as int - 256
    }
}

/// The low byte of `w`.
pub open spec fn lo(w: u16) -> u8 {
    (w % 256) as u8
}

/// The high byte of `w`.
pub open spec fn hi(w: u16) -> u8 {
    (w / 256) as u8
}

/// `x`, wrapping modulo 2^16.
pub open spec fn wrap16(x: int) -> u16 {
    (x % 0x10000) as u16
}

/// `x`, wrapping modulo 2^8.
pub open spec fn wrap8(x: int) -> u8 {
    (x % 0x100) as u8
}

/// The registers after `v` is loaded into A, with Z and N set from it.
pub open spec fn with_a(r: Registers, v: u8) -> Registers {
    Registers { a: v, ps: Status(put_zn(r.ps.0, v)), ..r }
}

/// The registers after `v` is loaded into X, with Z and N set from it.
pub open spec fn with_x(r: Registers, v: u8) -> Registers {
    Registers { x: v, ps: Status(put_zn(r.ps.0, v)), ..r }
}

/// The registers after `v` is loaded into Y, with Z and N set from it.
pub open spec fn with_y(r: Registers, v: u8) -> Registers {
    Registers { y: v, ps: Status(put_zn(r.ps.0, v)), ..r }
}

/// The registers with the flag `mask` set to `on`.
pub open spec fn with_flag(r: Registers, mask: u8, on: bool) -> Registers {
    Registers { ps: Status(put(r.ps.0, mask, on)), ..r }
}

/// 1 when the carry flag is set.
pub open spec fn carry_in(r: Registers) -> int {
    if flag(r.ps.0, CARRY) {
        1
    } else {
        0
    }
}

/// A signed result that does not fit in a byte.
pub open spec fn signed_overflow(s: int) -> bool {
    s < -128 || s > 127
}

/// ADC: A + operand + carry. The carry flag is the carry out of bit 7, the overflow flag says
/// that the signed sum does not fit in a byte.
pub open spec fn adc_spec(r: Registers, v: u8) -> Registers {
    let sum = r.a + v + carry_in(r);
    let result = wrap8(sum);
    Registers {
        a: result,
        ps: Status(
            put(
                put(put_zn(r.ps.0, result), CARRY, sum > 0xFF),
                OVERFLOW,
                signed_overflow(signed(r.a) + signed(v) + carry_in(r)),
            ),
        ),
        ..r
    }
}

/// SBC: A - operand - borrow, where the borrow is the clear carry flag. The carry flag is set
/// when no borrow was needed, the overflow flag says that the signed difference does not fit in a
/// byte.
pub open spec fn sbc_spec(r: Registers, v: u8) -> Registers {
    let diff = r.a - v - (1 - carry_in(r));
    let result = ((diff + 0x100) % 0x100) as u8;
    Registers {
        a: result,
        ps: Status(
            put(
                put(put_zn(r.ps.0, result), CARRY, diff >= 0),
                OVERFLOW,
                signed_overflow(signed(r.a) - signed(v) - (1 - carry_in(r))),
            ),
        ),
        ..r
    }
}

/// The status after comparing register value `reg` with `v`: Z when equal, C when `reg >= v`,
/// N from bit 7 of the difference.
pub open spec fn compare_spec(p: u8, reg: u8, v: u8) -> u8 {
    put(put_zn(p, ((reg - v + 0x100) % 0x100) as u8), CARRY, reg >= v)
}

/// BIT: Z from A AND operand, N and V copied from bits 7 and 6 of the operand.
pub open spec fn bit_test_spec(r: Registers, v: u8) -> Registers {
    Registers {
        ps: Status(
            put(put(put(r.ps.0, ZERO, r.a & v == 0), NEGATIVE, v >= 0x80), OVERFLOW, v & 0x40 != 0),
        ),
        ..r
    }
}

/// The result of a shift or rotate, with the bit shifted out.
pub open spec fn shift_spec(kind: Shift, v: u8, carry: bool) -> (u8, bool) {
    let c: int = if carry {
        1
    } else {
        0
    };
    match kind {
        Shift::Asl => (wrap8(v * 2), v >= 0x80),
        Shift::Lsr => ((v / 2) as u8, v % 2 == 1),
        Shift::Rol => (wrap8(v * 2 + c), v >= 0x80),
        Shift::Ror => ((v / 2 + 0x80 * c) as u8, v % 2 == 1),
    }
}

/// The four shift and rotate instructions.
#[derive(Debug, Clone, Copy, PartialEq, Eq, Structural)]
pub enum Shift {
    Asl,
    Lsr,
    Rol,
    Ror,
}

/// A shift or rotate of the operand: C gets the bit shifted out, Z and N come from the result,
/// and the result is stored back.
pub open spec fn shift_op_spec<B: Bus>(kind: Shift, m: AddrMode, r: Registers, mem: Mem) -> (
    Registers,
    Mem,
) {
    let (result, out) = shift_spec(kind, m.load_spec(r, mem), flag(r.ps.0, CARRY));
    let r1 = Registers { ps: Status(put_zn(put(r.ps.0, CARRY, out), result)), ..r };
    m.store_spec::<B>(r1, mem, result)
}

/// INC and DEC of the operand: the result is stored, then Z and N are set from it.
pub open spec fn step_memory_spec<B: Bus>(m: AddrMode, r: Registers, mem: Mem, up: bool) -> (
    Registers,
    Mem,
) {
    let v = m.load_spec(r, mem);
    let result = if up {
        wrap8(v + 1)
    } else {
        wrap8(v + 0xFF)
    };
    let (r1, m1) = m.store_spec::<B>(r, mem, result);
    (Registers { ps: Status(put_zn(r1.ps.0, result)), ..r1 }, m1)
}

/// The stack address that the stack pointer `sp` designates.
pub open spec fn stack_addr(sp: u8) -> u16 {
    (STACK_BASE + sp) as u16
}

/// Push `v`: store it at the stack pointer, then move the pointer down.
pub open spec fn push_spec<B: Bus>(r: Registers, mem: Mem, v: u8) -> (Registers, Mem) {
    (Registers { sp: wrap8(r.sp + 0xFF), ..r }, B::after_write(mem, stack_addr(r.sp), v))
}

/// Pop: move the stack pointer up, then read the byte it designates.
pub open spec fn pop_spec(r: Registers, mem: Mem) -> (Registers, u8) {
    let sp = wrap8(r.sp + 1);
    (Registers { sp, ..r }, mem(stack_addr(sp)))
}

/// JSR: push the address of the last byte of the JSR instruction, high byte first, and jump.
pub open spec fn jsr_spec<B: Bus>(r: Registers, mem: Mem, target: u16) -> (Registers, Mem) {
    let ret = wrap16(r.pc + 0xFFFF);
    let (r1, m1) = push_spec::<B>(r, mem, hi(ret));
    let (r2, m2) = push_spec::<B>(r1, m1, lo(ret));
    (Registers { pc: target, ..r2 }, m2)
}

/// RTS: pop the low then the high byte of the return address, and continue after it.
pub open spec fn rts_spec(r: Registers, mem: Mem) -> Registers {
    let (r1, low) = pop_spec(r, mem);
    let (r2, high) = pop_spec(r1, mem);
    Registers { pc: wrap16(word(low, high) + 1), ..r2 }
}

/// BRK: skip the padding byte, push the program counter and the status with bits 4 and 5 set,
/// disable interrupts and jump through the interrupt vector.
pub open spec fn brk_spec<B: Bus>(r: Registers, mem: Mem) -> (Registers, Mem) {
    let pc = wrap16(r.pc + 1);
    let (r1, m1) = push_spec::<B>(Registers { pc, ..r }, mem, hi(pc));
    let (r2, m2) = push_spec::<B>(r1, m1, lo(pc));
    let (r3, m3) = push_spec::<B>(r2, m2, pushable(r2.ps.0));
    let r4 = with_flag(r3, INTERRUPT, true);
    (Registers { pc: word(m3(IRQ_BASE), m3((IRQ_BASE + 1) as u16)), ..r4 }, m3)
}

/// PLP: pop the status register.
pub open spec fn plp_spec(r: Registers, mem: Mem) -> Registers {
    let (r1, v) = pop_spec(r, mem);
    Registers { ps: Status(popped(v)), ..r1 }
}

/// RTI: pop the status register, then the low and high bytes of the program counter.
pub open spec fn rti_spec(r: Registers, mem: Mem) -> Registers {
    let r1 = plp_spec(r, mem);
    let (r2, low) = pop_spec(r1, mem);
    let (r3, high) = pop_spec(r2, mem);
    Registers { pc: word(low, high), ..r3 }
}

/// PLA: pop into A, with Z and N set from it.
pub open spec fn pla_spec(r: Registers, mem: Mem) -> Registers {
    let (r1, v) = pop_spec(r, mem);
    with_a(r1, v)
}

/// The program counter after a taken branch with offset `v`, and the extra cycles: one, or two
/// when the target lies in another page.
pub open spec fn branch_spec(r: Registers, v: u8) -> (Registers, u8) {
    let new_pc = ((r.pc + signed(v) + 0x10000) % 0x10000) as u16;
    (Registers { pc: new_pc, ..r }, if page(r.pc) == page(new_pc) {
        1
    } else {
        2
    })
}

/// A conditional branch: taken when `cond` holds, otherwise nothing changes.
pub open spec fn cond_branch_spec(r: Registers, m: AddrMode, mem: Mem, cond: bool) -> (
    Registers,
    u8,
) {
    if cond {
        branch_spec(r, m.load_spec(r, mem))
    } else {
        (r, 0)
    }
}

// Access instructions.
pub fn lda<B: Bus>(regs: &mut Registers, bus: &B, m: AddrMode) -> (extra: u8)
    requires
        bus.inv(),
        B::obeys_bus_spec(),
        op_ok::<B>(Op::Lda, Operand::Data(m), *old(regs), *bus),
    ensures
        *final(regs) == with_a(*old(regs), m.load_spec(*old(regs), bus.mem())),
        extra == m.extra_spec(),
{
    regs.a = m.load(regs, bus);
    regs.ps.set_zero(regs.a == 0);
    regs.ps.set_if_negative(regs.a);
    m.extra_cycles_needed()
}

pub fn sta<B: Bus>(regs: &mut Registers, bus: &mut B, m: AddrMode) -> (extra: u8)
    requires
        old(bus).inv(),
        B::obeys_bus_spec(),
        op_ok::<B>(Op::Sta, Operand::Data(m), *old(regs), *old(bus)),
        !(m is Immediate),
    ensures
        final(bus).inv(),
        final(bus).hidden() == old(bus).hidden(),
        forall|a: u16| #[trigger] final(bus).readable(a) == old(bus).readable(a),
        forall|a: u16| #[trigger] final(bus).writable(a) == old(bus).writable(a),
        (*final(regs), final(bus).mem()) == m.store_spec::<B>(
            *old(regs),
            old(bus).mem(),
            old(regs).a,
        ),
        extra == 0,
{
    let a = regs.a;
    m.store(regs, bus, a);
    0
}

pub fn ldx<B: Bus>(regs: &mut Registers, bus: &B, m: AddrMode) -> (extra: u8)
    requires
        bus.inv(),
        B::obeys_bus_spec(),
        op_ok::<B>(Op::Ldx, Operand::Data(m), *old(regs), *bus),
    ensures
        *final(regs) == with_x(*old(regs), m.load_spec(*old(regs), bus.mem())),
        extra == m.extra_spec(),
{
    regs.x = m.load(regs, bus);
    regs.ps.set_zero(regs.x == 0);
    regs.ps.set_if_negative(regs.x);
    m.extra_cycles_needed()
}

pub fn stx<B: Bus>(regs: &mut Registers, bus: &mut B, m: AddrMode) -> (extra: u8)
    requires
        old(bus).inv(),
        B::obeys_bus_spec(),
        op_ok::<B>(Op::Stx, Operand::Data(m), *old(regs), *old(bus)),
        !(m is Immediate),
    ensures
        final(bus).inv(),
        final(bus).hidden() == old(bus).hidden(),
        forall|a: u16| #[trigger] final(bus).readable(a) == old(bus).readable(a),
        forall|a: u16| #[trigger] final(bus).writable(a) == old(bus).writable(a),
        (*final(regs), final(bus).mem()) == m.store_spec::<B>(
            *old(regs),
            old(bus).mem(),
            old(regs).x,
        ),
        extra == 0,
{
    let x = regs.x;
    m.store(regs, bus, x);
    0
}

pub fn ldy<B: Bus>(regs: &mut Registers, bus: &B, m: AddrMode) -> (extra: u8)
    requires
        bus.inv(),
        B::obeys_bus_spec(),
        op_ok::<B>(Op::Ldy, Operand::Data(m), *old(regs), *bus),
    ensures
        *final(regs) == with_y(*old(regs), m.load_spec(*old(regs), bus.mem())),
        extra == m.extra_spec(),
{
    regs.y = m.load(regs, bus);
    regs.ps.set_zero(regs.y == 0);
    regs.ps.set_if_negative(regs.y);
    m.extra_cycles_needed()
}

pub fn sty<B: Bus>(regs: &mut Registers, bus: &mut B, m: AddrMode) -> (extra: u8)
    requires
        old(bus).inv(),
        B::obeys_bus_spec(),
        op_ok::<B>(Op::Sty, Operand::Data(m), *old(regs), *old(bus)),
        !(m is Immediate),
    ensures
        final(bus).inv(),
        final(bus).hidden() == old(bus).hidden(),
        forall|a: u16| #[trigger] final(bus).readable(a) == old(bus).readable(a),
        forall|a: u16| #[trigger] final(bus).writable(a) == old(bus).writable(a),
        (*final(regs), final(bus).mem()) == m.store_spec::<B>(
            *old(regs),
            old(bus).mem(),
            old(regs).y,
        ),
        extra == 0,
{
    let y = regs.y;
    m.store(regs, bus, y);
    0
}

// Transfer instructions.
pub fn tax(regs: &mut Registers) -> (extra: u8)
    ensures
        *final(regs) == with_x(*old(regs), old(regs).a),
        extra == 0,
{
    regs.x = regs.a;
    regs.ps.set_zero(regs.x == 0);
    regs.ps.set_if_negative(regs.x);
    0
}

pub fn tsx(regs: &mut Registers) -> (extra: u8)
    ensures
        *final(regs) == with_x(*old(regs), old(regs).sp),
        extra == 0,
{
    regs.x = regs.sp;
    regs.ps.set_zero(regs.x == 0);
    regs.ps.set_if_negative(regs.x);
    0
}

pub fn txa(regs: &mut Registers) -> (extra: u8)
    ensures
        *final(regs) == with_a(*old(regs), old(regs).x),
        extra == 0,
{
    regs.a = regs.x;
    regs.ps.set_zero(regs.a == 0);
    regs.ps.set_if_negative(regs.a);
    0
}

pub fn tya(regs: &mut Registers) -> (extra: u8)
    ensures
        *final(regs) == with_a(*old(regs), old(regs).y),
        extra == 0,
{
    regs.a = regs.y;
    regs.ps.set_zero(regs.a == 0);
    regs.ps.set_if_negative(regs.a);
    0
}

pub fn tay(regs: &mut Registers) -> (extra: u8)
    ensures
        *final(regs) == with_y(*old(regs), old(regs).a),
        extra == 0,
{
    regs.y = regs.a;
    regs.ps.set_zero(regs.y == 0);
    regs.ps.set_if_negative(regs.y);
    0
}

/// TXS: the stack pointer doesn't affect status flags.
pub fn txs(regs: &mut Registers) -> (extra: u8)
    ensures
        *final(regs) == (Registers { sp: old(regs).x, ..*old(regs) }),
        extra == 0,
{
    regs.sp = regs.x;
    0
}

// Arithmetic instructions.
/// The overflow flag of ADC, computed as the carry into bit 7 XOR the carry out of it, is the
/// signed overflow of the sum.
proof fn lemma_adc_overflow(a: u8, v: u8, c: u8)
    requires
        c <= 1,
    ensures
        ((a & 0x7F) + (v & 0x7F) + c >= 0x80) != (a + v + c > 0xFF) <==> signed_overflow(
            signed(a) + signed(v) + c,
        ),
        (a & 0x7F) + (v & 0x7F) + c <= 0xFF,
{
    assert(a & 0x7F == a % 128) by (bit_vector);
    assert(v & 0x7F == v % 128) by (bit_vector);
}

/// The overflow flag of SBC, computed as the borrow into bit 7 XOR the borrow out of it, is the
/// signed overflow of the difference.
proof fn lemma_sbc_overflow(a: u8, v: u8, b: u8)
    requires
        b <= 1,
    ensures
        ((a & 0x7F) < (v & 0x7F) + b) != (a < v + b) <==> signed_overflow(
            signed(a) - signed(v) - b,
        ),
        (v & 0x7F) + b <= 0xFF,
{
    assert(a & 0x7F == a % 128) by (bit_vector);
    assert(v & 0x7F == v % 128) by (bit_vector);
}

pub fn adc<B: Bus>(regs: &mut Registers, bus: &B, m: AddrMode) -> (extra: u8)
    requires
        bus.inv(),
        B::obeys_bus_spec(),
        op_ok::<B>(Op::Adc, Operand::Data(m), *old(regs), *bus),
    ensures
        *final(regs) == adc_spec(*old(regs), m.load_spec(*old(regs), bus.mem())),
        extra == m.extra_spec(),
{
    let carry_in: u8 = if regs.ps.carry() {
        1
    } else {
        0
    };
    let operand = m.load(regs, bus);
    let a = regs.a;
    proof {
        lemma_adc_overflow(a, operand, carry_in);
    }
    let sum: u16 = a as u16 + operand as u16 + carry_in as u16;
    let carry = sum > 0xFF;
    let result = a.wrapping_add(operand).wrapping_add(carry_in);
    // The classic formula for the overflow flag is C6 ^ C7. C6 is calculated by doing the
    // addition again, this time with only the 7 LSBs of register A and the operand. If the
    // result is >= 0x80, there was a carry out of bit 6.
    let bit_6_carry = (a & 0x7F) + (operand & 0x7F) + carry_in >= 0x80;
    regs.a = result;
    regs.ps.set_zero(regs.a == 0);
    regs.ps.set_if_negative(regs.a);
    regs.ps.set_carry(carry);
    regs.ps.set_overflow(bit_6_carry ^ carry);
    m.extra_cycles_needed()
}

pub fn sbc<B: Bus>(regs: &mut Registers, bus: &B, m: AddrMode) -> (extra: u8)
    requires
        bus.inv(),
        B::obeys_bus_spec(),
        op_ok::<B>(Op::Sbc, Operand::Data(m), *old(regs), *bus),
    ensures
        *final(regs) == sbc_spec(*old(regs), m.load_spec(*old(regs), bus.mem())),
        extra == m.extra_spec(),
{
    let borrow_in: u8 = if regs.ps.carry() {
        0
    } else {
        1
    };
    let operand = m.load(regs, bus);
    let a = regs.a;
    proof {
        lemma_sbc_overflow(a, operand, borrow_in);
    }
    let borrowed = (a as u16) < operand as u16 + borrow_in as u16;
    let result = a.wrapping_sub(operand).wrapping_sub(borrow_in);
    // The classic formula for the overflow flag is still C6 ^ C7.
    let bit_6_borrowed = (a & 0x7F) < (operand & 0x7F) + borrow_in;
    regs.a = result;
    regs.ps.set_zero(regs.a == 0);
    regs.ps.set_if_negative(regs.a);
    regs.ps.set_carry(!borrowed);
    regs.ps.set_overflow(bit_6_borrowed ^ borrowed);
    m.extra_cycles_needed()
}

pub fn inc<B: Bus>(regs: &mut Registers, bus: &mut B, m: AddrMode) -> (extra: u8)
    requires
        old(bus).inv(),
        B::obeys_bus_spec(),
        op_ok::<B>(Op::Inc, Operand::Data(m), *old(regs), *old(bus)),
        !(m is Immediate),
    ensures
        final(bus).inv(),
        final(bus).hidden() == old(bus).hidden(),
        forall|a: u16| #[trigger] final(bus).readable(a) == old(bus).readable(a),
        forall|a: u16| #[trigger] final(bus).writable(a) == old(bus).writable(a),
        (*final(regs), final(bus).mem()) == step_memory_spec::<B>(
            m,
            *old(regs),
            old(bus).mem(),
            true,
        ),
        extra == 0,
{
    let temp = m.load(regs, bus).wrapping_add(1);
    m.store(regs, bus, temp);
    regs.ps.set_zero(temp == 0);
    regs.ps.set_if_negative(temp);
    0
}

pub fn dec<B: Bus>(regs: &mut Registers, bus: &mut B, m: AddrMode) -> (extra: u8)
    requires
        old(bus).inv(),
        B::obeys_bus_spec(),
        op_ok::<B>(Op::Dec, Operand::Data(m), *old(regs), *old(bus)),
        !(m is Immediate),
    ensures
        final(bus).inv(),
        final(bus).hidden() == old(bus).hidden(),
        forall|a: u16| #[trigger] final(bus).readable(a) == old(bus).readable(a),
        forall|a: u16| #[trigger] final(bus).writable(a) == old(bus).writable(a),
        (*final(regs), final(bus).mem()) == step_memory_spec::<B>(
            m,
            *old(regs),
            old(bus).mem(),
            false,
        ),
        extra == 0,
{
    let temp = m.load(regs, bus).wrapping_sub(1);
    m.store(regs, bus, temp);
    regs.ps.set_zero(temp == 0);
    regs.ps.set_if_negative(temp);
    0
}

pub fn inx(regs: &mut Registers) -> (extra: u8)
    ensures
        *final(regs) == with_x(*old(regs), wrap8(old(regs).x + 1)),
        extra == 0,
{
    regs.x = regs.x.wrapping_add(1);
    regs.ps.set_zero(regs.x == 0);
    regs.ps.set_if_negative(regs.x);
    0
}

pub fn dex(regs: &mut Registers) -> (extra: u8)
    ensures
        *final(regs) == with_x(*old(regs), wrap8(old(regs).x + 0xFF)),
        extra == 0,
{
    regs.x = regs.x.wrapping_sub(1);
    regs.ps.set_zero(regs.x == 0);
    regs.ps.set_if_negative(regs.x);
    0
}

pub fn iny(regs: &mut Registers) -> (extra: u8)
    ensures
        *final(regs) == with_y(*old(regs), wrap8(old(regs).y + 1)),
        extra == 0,
{
    regs.y = regs.y.wrapping_add(1);
    regs.ps.set_zero(regs.y == 0);
    regs.ps.set_if_negative(regs.y);
    0
}

pub fn dey(regs: &mut Registers) -> (extra: u8)
    ensures
        *final(regs) == with_y(*old(regs), wrap8(old(regs).y + 0xFF)),
        extra == 0,
{
    regs.y = regs.y.wrapping_sub(1);
    regs.ps.set_zero(regs.y == 0);
    regs.ps.set_if_negative(regs.y);
    0
}


// Shift instructions.
/// Shifts and masks on a byte, read as arithmetic.
proof fn lemma_shift_bits(t: u8, c: u8)
    requires
        c <= 1,
    ensures
        t << 1 == wrap8(t * 2),
        (t << 1) | c == wrap8(t * 2 + c),
        t >> 1 == t / 2,
        (c << 7) | (t >> 1) == t / 2 + 0x80 * c,
        (t & 0x80 != 0) == (t >= 0x80),
        (t & 0x01 != 0) == (t % 2 == 1),
{
    assert(t << 1 == ((t as u16 * 2) % 256) as u8) by (bit_vector);
    assert((t << 1) | c == ((t as u16 * 2 + c as u16) % 256) as u8) by (bit_vector)
        requires
            c <= 1,
    ;
    assert(t >> 1 == t / 2) by (bit_vector);
    assert((c << 7) | (t >> 1) == t / 2 + 0x80 * c) by (bit_vector)
        requires
            c <= 1,
    ;
    assert((t & 0x80 != 0) == (t >= 0x80)) by (bit_vector);
    assert((t & 0x01 != 0) == (t % 2 == 1)) by (bit_vector);
}

pub fn asl<B: Bus>(regs: &mut Registers, bus: &mut B, m: AddrMode) -> (extra: u8)
    requires
        old(bus).inv(),
        B::obeys_bus_spec(),
        op_ok::<B>(Op::Asl, Operand::Data(m), *old(regs), *old(bus)),
        !(m is Immediate),
    ensures
        final(bus).inv(),
        final(bus).hidden() == old(bus).hidden(),
        forall|a: u16| #[trigger] final(bus).readable(a) == old(bus).readable(a),
        forall|a: u16| #[trigger] final(bus).writable(a) == old(bus).writable(a),
        (*final(regs), final(bus).mem()) == shift_op_spec::<B>(
            Shift::Asl,
            m,
            *old(regs),
            old(bus).mem(),
        ),
        extra == 0,
{
    let temp = m.load(regs, bus);
    proof {
        lemma_shift_bits(temp, 0);
    }
    let result = temp << 1;
    regs.ps.set_carry(temp & 0x80 != 0);
    regs.ps.set_zero(result == 0);
    regs.ps.set_if_negative(result);
    m.store(regs, bus, result);
    0
}

pub fn lsr<B: Bus>(regs: &mut Registers, bus: &mut B, m: AddrMode) -> (extra: u8)
    requires
        old(bus).inv(),
        B::obeys_bus_spec(),
        op_ok::<B>(Op::Lsr, Operand::Data(m), *old(regs), *old(bus)),
        !(m is Immediate),
    ensures
        final(bus).inv(),
        final(bus).hidden() == old(bus).hidden(),
        forall|a: u16| #[trigger] final(bus).readable(a) == old(bus).readable(a),
        forall|a: u16| #[trigger] final(bus).writable(a) == old(bus).writable(a),
        (*final(regs), final(bus).mem()) == shift_op_spec::<B>(
            Shift::Lsr,
            m,
            *old(regs),
            old(bus).mem(),
        ),
        extra == 0,
{
    let temp = m.load(regs, bus);
    proof {
        lemma_shift_bits(temp, 0);
    }
    let result = temp >> 1;
    regs.ps.set_carry(temp & 0x01 != 0);
    regs.ps.set_zero(result == 0);
    regs.ps.set_if_negative(result);
    m.store(regs, bus, result);
    0
}

pub fn rol<B: Bus>(regs: &mut Registers, bus: &mut B, m: AddrMode) -> (extra: u8)
    requires
        old(bus).inv(),
        B::obeys_bus_spec(),
        op_ok::<B>(Op::Rol, Operand::Data(m), *old(regs), *old(bus)),
        !(m is Immediate),
    ensures
        final(bus).inv(),
        final(bus).hidden() == old(bus).hidden(),
        forall|a: u16| #[trigger] final(bus).readable(a) == old(bus).readable(a),
        forall|a: u16| #[trigger] final(bus).writable(a) == old(bus).writable(a),
        (*final(regs), final(bus).mem()) == shift_op_spec::<B>(
            Shift::Rol,
            m,
            *old(regs),
            old(bus).mem(),
        ),
        extra == 0,
{
    let temp = m.load(regs, bus);
    let carry: u8 = if regs.ps.carry() {
        1
    } else {
        0
    };
    proof {
        lemma_shift_bits(temp, carry);
    }
    let result = temp << 1 | carry;
    regs.ps.set_carry(temp & 0x80 != 0);
    regs.ps.set_zero(result == 0);
    regs.ps.set_if_negative(result);
    m.store(regs, bus, result);
    0
}

pub fn ror<B: Bus>(regs: &mut Registers, bus: &mut B, m: AddrMode) -> (extra: u8)
    requires
        old(bus).inv(),
        B::obeys_bus_spec(),
        op_ok::<B>(Op::Ror, Operand::Data(m), *old(regs), *old(bus)),
        !(m is Immediate),
    ensures
        final(bus).inv(),
        final(bus).hidden() == old(bus).hidden(),
        forall|a: u16| #[trigger] final(bus).readable(a) == old(bus).readable(a),
        forall|a: u16| #[trigger] final(bus).writable(a) == old(bus).writable(a),
        (*final(regs), final(bus).mem()) == shift_op_spec::<B>(
            Shift::Ror,
            m,
            *old(regs),
            old(bus).mem(),
        ),
        extra == 0,
{
    let temp = m.load(regs, bus);
    let carry: u8 = if regs.ps.carry() {
        1
    } else {
        0
    };
    proof {
        lemma_shift_bits(temp, carry);
    }
    let result = carry << 7 | temp >> 1;
    regs.ps.set_carry(temp & 0x01 != 0);
    regs.ps.set_zero(result == 0);
    regs.ps.set_if_negative(result);
    m.store(regs, bus, result);
    0
}

// Bitwise instructions.
pub fn and<B: Bus>(regs: &mut Registers, bus: &B, m: AddrMode) -> (extra: u8)
    requires
        bus.inv(),
        B::obeys_bus_spec(),
        op_ok::<B>(Op::And, Operand::Data(m), *old(regs), *bus),
    ensures
        *final(regs) == with_a(*old(regs), old(regs).a & m.load_spec(*old(regs), bus.mem())),
        extra == m.extra_spec(),
{
    regs.a = regs.a & m.load(regs, bus);
    regs.ps.set_zero(regs.a == 0);
    regs.ps.set_if_negative(regs.a);
    m.extra_cycles_needed()
}

pub fn ora<B: Bus>(regs: &mut Registers, bus: &B, m: AddrMode) -> (extra: u8)
    requires
        bus.inv(),
        B::obeys_bus_spec(),
        op_ok::<B>(Op::Ora, Operand::Data(m), *old(regs), *bus),
    ensures
        *final(regs) == with_a(*old(regs), old(regs).a | m.load_spec(*old(regs), bus.mem())),
        extra == m.extra_spec(),
{
    regs.a = regs.a | m.load(regs, bus);
    regs.ps.set_zero(regs.a == 0);
    regs.ps.set_if_negative(regs.a);
    m.extra_cycles_needed()
}

pub fn eor<B: Bus>(regs: &mut Registers, bus: &B, m: AddrMode) -> (extra: u8)
    requires
        bus.inv(),
        B::obeys_bus_spec(),
        op_ok::<B>(Op::Eor, Operand::Data(m), *old(regs), *bus),
    ensures
        *final(regs) == with_a(*old(regs), old(regs).a ^ m.load_spec(*old(regs), bus.mem())),
        extra == m.extra_spec(),
{
    regs.a = regs.a ^ m.load(regs, bus);
    regs.ps.set_zero(regs.a == 0);
    regs.ps.set_if_negative(regs.a);
    m.extra_cycles_needed()
}

pub fn bit<B: Bus>(regs: &mut Registers, bus: &B, m: AddrMode) -> (extra: u8)
    requires
        bus.inv(),
        B::obeys_bus_spec(),
        op_ok::<B>(Op::Bit, Operand::Data(m), *old(regs), *bus),
    ensures
        *final(regs) == bit_test_spec(*old(regs), m.load_spec(*old(regs), bus.mem())),
        extra == 0,
{
    let operand = m.load(regs, bus);
    let result = regs.a & operand;
    regs.ps.set_zero(result == 0);
    regs.ps.set_if_negative(operand);
    regs.ps.set_overflow(operand & 0x40 != 0);
    0
}

// Compare instructions.
/// Compare a register with `operand`, setting Z, N and C.
fn compare(ps: &mut Status, reg: u8, operand: u8)
    ensures
        final(ps).0 == compare_spec(old(ps).0, reg, operand),
{
    let result = reg.wrapping_sub(operand);
    ps.set_zero(result == 0);
    ps.set_if_negative(result);
    ps.set_carry(reg >= operand);
}

pub fn cmp<B: Bus>(regs: &mut Registers, bus: &B, m: AddrMode) -> (extra: u8)
    requires
        bus.inv(),
        B::obeys_bus_spec(),
        op_ok::<B>(Op::Cmp, Operand::Data(m), *old(regs), *bus),
    ensures
        *final(regs) == (Registers {
            ps: Status(compare_spec(old(regs).ps.0, old(regs).a, m.load_spec(*old(regs), bus.mem()))),
            ..*old(regs)
        }),
        extra == m.extra_spec(),
{
    let operand = m.load(regs, bus);
    let a = regs.a;
    compare(&mut regs.ps, a, operand);
    m.extra_cycles_needed()
}

pub fn cpx<B: Bus>(regs: &mut Registers, bus: &B, m: AddrMode) -> (extra: u8)
    requires
        bus.inv(),
        B::obeys_bus_spec(),
        op_ok::<B>(Op::Cpx, Operand::Data(m), *old(regs), *bus),
    ensures
        *final(regs) == (Registers {
            ps: Status(compare_spec(old(regs).ps.0, old(regs).x, m.load_spec(*old(regs), bus.mem()))),
            ..*old(regs)
        }),
        extra == 0,
{
    let operand = m.load(regs, bus);
    let x = regs.x;
    compare(&mut regs.ps, x, operand);
    0
}

pub fn cpy<B: Bus>(regs: &mut Registers, bus: &B, m: AddrMode) -> (extra: u8)
    requires
        bus.inv(),
        B::obeys_bus_spec(),
        op_ok::<B>(Op::Cpy, Operand::Data(m), *old(regs), *bus),
    ensures
        *final(regs) == (Registers {
            ps: Status(compare_spec(old(regs).ps.0, old(regs).y, m.load_spec(*old(regs), bus.mem()))),
            ..*old(regs)
        }),
        extra == 0,
{
    let operand = m.load(regs, bus);
    let y = regs.y;
    compare(&mut regs.ps, y, operand);
    0
}


// Jump instructions.
pub fn jmp(regs: &mut Registers, operand: u16) -> (extra: u8)
    ensures
        *final(regs) == (Registers { pc: operand, ..*old(regs) }),
        extra == 0,
{
    regs.pc = operand;
    0
}

pub fn jsr<B: Bus>(regs: &mut Registers, bus: &mut B, operand: u16) -> (extra: u8)
    requires
        old(bus).inv(),
        B::obeys_bus_spec(),
        op_ok::<B>(Op::Jsr, Operand::Target(operand), *old(regs), *old(bus)),
    ensures
        final(bus).inv(),
        final(bus).hidden() == old(bus).hidden(),
        forall|a: u16| #[trigger] final(bus).readable(a) == old(bus).readable(a),
        forall|a: u16| #[trigger] final(bus).writable(a) == old(bus).writable(a),
        (*final(regs), final(bus).mem()) == jsr_spec::<B>(*old(regs), old(bus).mem(), operand),
        extra == 0,
{
    // Return address is one below the address of the instruction after the JSR.
    let return_addr = regs.pc.wrapping_sub(1);
    let low = (return_addr % 256) as u8;
    let high = (return_addr / 256) as u8;
    stack_push(regs, bus, high);
    stack_push(regs, bus, low);
    regs.pc = operand;
    0
}

pub fn rts<B: Bus>(regs: &mut Registers, bus: &B) -> (extra: u8)
    requires
        bus.inv(),
        B::obeys_bus_spec(),
        op_ok::<B>(Op::Rts, Operand::Implied, *old(regs), *bus),
    ensures
        *final(regs) == rts_spec(*old(regs), bus.mem()),
        extra == 0,
{
    let low = stack_pop(regs, bus);
    let high = stack_pop(regs, bus);
    regs.pc = le_word(low, high).wrapping_add(1);
    0
}

pub fn brk<B: Bus>(regs: &mut Registers, bus: &mut B) -> (extra: u8)
    requires
        old(bus).inv(),
        B::obeys_bus_spec(),
        op_ok::<B>(Op::Brk, Operand::Implied, *old(regs), *old(bus)),
    ensures
        final(bus).inv(),
        final(bus).hidden() == old(bus).hidden(),
        forall|a: u16| #[trigger] final(bus).readable(a) == old(bus).readable(a),
        forall|a: u16| #[trigger] final(bus).writable(a) == old(bus).writable(a),
        (*final(regs), final(bus).mem()) == brk_spec::<B>(*old(regs), old(bus).mem()),
        extra == 0,
{
    // brk is a 1 byte instruction but skips the next byte.
    regs.pc = regs.pc.wrapping_add(1);
    let low = (regs.pc % 256) as u8;
    let high = (regs.pc / 256) as u8;
    stack_push(regs, bus, high);
    stack_push(regs, bus, low);
    let pushed = regs.ps.to_pushable();
    stack_push(regs, bus, pushed);
    regs.ps.set_interrupt(true);
    let irq_lo = bus.read(IRQ_BASE);
    let irq_hi = bus.read(IRQ_BASE + 1);
    regs.pc = le_word(irq_lo, irq_hi);
    0
}

pub fn rti<B: Bus>(regs: &mut Registers, bus: &B) -> (extra: u8)
    requires
        bus.inv(),
        B::obeys_bus_spec(),
        op_ok::<B>(Op::Rti, Operand::Implied, *old(regs), *bus),
    ensures
        *final(regs) == rti_spec(*old(regs), bus.mem()),
        extra == 0,
{
    plp(regs, bus);
    let low = stack_pop(regs, bus);
    let high = stack_pop(regs, bus);
    regs.pc = le_word(low, high);
    0
}

// Stack manipulation instructions.
pub fn pha<B: Bus>(regs: &mut Registers, bus: &mut B) -> (extra: u8)
    requires
        old(bus).inv(),
        B::obeys_bus_spec(),
        op_ok::<B>(Op::Pha, Operand::Implied, *old(regs), *old(bus)),
    ensures
        final(bus).inv(),
        final(bus).hidden() == old(bus).hidden(),
        forall|a: u16| #[trigger] final(bus).readable(a) == old(bus).readable(a),
        forall|a: u16| #[trigger] final(bus).writable(a) == old(bus).writable(a),
        (*final(regs), final(bus).mem()) == push_spec::<B>(
            *old(regs),
            old(bus).mem(),
            old(regs).a,
        ),
        extra == 0,
{
    let a = regs.a;
    stack_push(regs, bus, a);
    0
}

pub fn pla<B: Bus>(regs: &mut Registers, bus: &B) -> (extra: u8)
    requires
        bus.inv(),
        B::obeys_bus_spec(),
        op_ok::<B>(Op::Pla, Operand::Implied, *old(regs), *bus),
    ensures
        *final(regs) == pla_spec(*old(regs), bus.mem()),
        extra == 0,
{
    regs.a = stack_pop(regs, bus);
    regs.ps.set_zero(regs.a == 0);
    regs.ps.set_if_negative(regs.a);
    0
}

pub fn php<B: Bus>(regs: &mut Registers, bus: &mut B) -> (extra: u8)
    requires
        old(bus).inv(),
        B::obeys_bus_spec(),
        op_ok::<B>(Op::Php, Operand::Implied, *old(regs), *old(bus)),
    ensures
        final(bus).inv(),
        final(bus).hidden() == old(bus).hidden(),
        forall|a: u16| #[trigger] final(bus).readable(a) == old(bus).readable(a),
        forall|a: u16| #[trigger] final(bus).writable(a) == old(bus).writable(a),
        (*final(regs), final(bus).mem()) == push_spec::<B>(
            *old(regs),
            old(bus).mem(),
            pushable(old(regs).ps.0),
        ),
        extra == 0,
{
    let pushed = regs.ps.to_pushable();
    stack_push(regs, bus, pushed);
    0
}

pub fn plp<B: Bus>(regs: &mut Registers, bus: &B) -> (extra: u8)
    requires
        bus.inv(),
        B::obeys_bus_spec(),
        op_ok::<B>(Op::Plp, Operand::Implied, *old(regs), *bus),
    ensures
        *final(regs) == plp_spec(*old(regs), bus.mem()),
        extra == 0,
{
    let value = stack_pop(regs, bus);
    regs.ps = Status::from_popped(value);
    0
}

fn stack_push<B: Bus>(regs: &mut Registers, bus: &mut B, value: u8)
    requires
        old(bus).inv(),
        B::obeys_bus_spec(),
        old(bus).writable(stack_addr(old(regs).sp)),
    ensures
        final(bus).inv(),
        final(bus).hidden() == old(bus).hidden(),
        forall|a: u16| #[trigger] final(bus).readable(a) == old(bus).readable(a),
        forall|a: u16| #[trigger] final(bus).writable(a) == old(bus).writable(a),
        (*final(regs), final(bus).mem()) == push_spec::<B>(*old(regs), old(bus).mem(), value),
{
    bus.write(STACK_BASE + regs.sp as u16, value);
    regs.sp = regs.sp.wrapping_sub(1);
}

fn stack_pop<B: Bus>(regs: &mut Registers, bus: &B) -> (value: u8)
    requires
        bus.inv(),
        B::obeys_bus_spec(),
        bus.readable(stack_addr(wrap8(old(regs).sp + 1))),
    ensures
        (*final(regs), value) == pop_spec(*old(regs), bus.mem()),
{
    regs.sp = regs.sp.wrapping_add(1);
    bus.read(STACK_BASE + regs.sp as u16)
}

// Branch instructions. All have a relative address passed in as operand. This
// is exactly like immediate addressing.

pub fn bcc<B: Bus>(regs: &mut Registers, bus: &B, m: AddrMode) -> (extra: u8)
    requires
        bus.inv(),
        B::obeys_bus_spec(),
        op_ok::<B>(Op::Bcc, Operand::Data(m), *old(regs), *bus),
    ensures
        (*final(regs), extra) == cond_branch_spec(*old(regs), m, bus.mem(), !flag(old(regs).ps.0, CARRY)),
{
    if !regs.ps.carry() {
        let operand = m.load(regs, bus);
        branch(regs, operand)
    } else {
        0
    }
}

pub fn bcs<B: Bus>(regs: &mut Registers, bus: &B, m: AddrMode) -> (extra: u8)
    requires
        bus.inv(),
        B::obeys_bus_spec(),
        op_ok::<B>(Op::Bcs, Operand::Data(m), *old(regs), *bus),
    ensures
        (*final(regs), extra) == cond_branch_spec(*old(regs), m, bus.mem(), flag(old(regs).ps.0, CARRY)),
{
    if regs.ps.carry() {
        let operand = m.load(regs, bus);
        branch(regs, operand)
    } else {
        0
    }
}

pub fn beq<B: Bus>(regs: &mut Registers, bus: &B, m: AddrMode) -> (extra: u8)
    requires
        bus.inv(),
        B::obeys_bus_spec(),
        op_ok::<B>(Op::Beq, Operand::Data(m), *old(regs), *bus),
    ensures
        (*final(regs), extra) == cond_branch_spec(*old(regs), m, bus.mem(), flag(old(regs).ps.0, ZERO)),
{
    if regs.ps.zero() {
        let operand = m.load(regs, bus);
        branch(regs, operand)
    } else {
        0
    }
}

pub fn bne<B: Bus>(regs: &mut Registers, bus: &B, m: AddrMode) -> (extra: u8)
    requires
        bus.inv(),
        B::obeys_bus_spec(),
        op_ok::<B>(Op::Bne, Operand::Data(m), *old(regs), *bus),
    ensures
        (*final(regs), extra) == cond_branch_spec(*old(regs), m, bus.mem(), !flag(old(regs).ps.0, ZERO)),
{
    if !regs.ps.zero() {
        let operand = m.load(regs, bus);
        branch(regs, operand)
    } else {
        0
    }
}

pub fn bpl<B: Bus>(regs: &mut Registers, bus: &B, m: AddrMode) -> (extra: u8)
    requires
        bus.inv(),
        B::obeys_bus_spec(),
        op_ok::<B>(Op::Bpl, Operand::Data(m), *old(regs), *bus),
    ensures
        (*final(regs), extra) == cond_branch_spec(*old(regs), m, bus.mem(), !flag(old(regs).ps.0, NEGATIVE)),
{
    if !regs.ps.negative() {
        let operand = m.load(regs, bus);
        branch(regs, operand)
    } else {
        0
    }
}

pub fn bmi<B: Bus>(regs: &mut Registers, bus: &B, m: AddrMode) -> (extra: u8)
    requires
        bus.inv(),
        B::obeys_bus_spec(),
        op_ok::<B>(Op::Bmi, Operand::Data(m), *old(regs), *bus),
    ensures
        (*final(regs), extra) == cond_branch_spec(*old(regs), m, bus.mem(), flag(old(regs).ps.0, NEGATIVE)),
{
    if regs.ps.negative() {
        let operand = m.load(regs, bus);
        branch(regs, operand)
    } else {
        0
    }
}

pub fn bvc<B: Bus>(regs: &mut Registers, bus: &B, m: AddrMode) -> (extra: u8)
    requires
        bus.inv(),
        B::obeys_bus_spec(),
        op_ok::<B>(Op::Bvc, Operand::Data(m), *old(regs), *bus),
    ensures
        (*final(regs), extra) == cond_branch_spec(*old(regs), m, bus.mem(), !flag(old(regs).ps.0, OVERFLOW)),
{
    if !regs.ps.overflow() {
        let operand = m.load(regs, bus);
        branch(regs, operand)
    } else {
        0
    }
}

pub fn bvs<B: Bus>(regs: &mut Registers, bus: &B, m: AddrMode) -> (extra: u8)
    requires
        bus.inv(),
        B::obeys_bus_spec(),
        op_ok::<B>(Op::Bvs, Operand::Data(m), *old(regs), *bus),
    ensures
        (*final(regs), extra) == cond_branch_spec(*old(regs), m, bus.mem(), flag(old(regs).ps.0, OVERFLOW)),
{
    if regs.ps.overflow() {
        let operand = m.load(regs, bus);
        branch(regs, operand)
    } else {
        0
    }
}

fn branch(regs: &mut Registers, operand: u8) -> (extra: u8)
    ensures
        (*final(regs), extra) == branch_spec(*old(regs), operand),
{
    let new_pc = if operand < 0x80 {
        regs.pc.wrapping_add(operand as u16)
    } else {
        regs.pc.wrapping_sub(0x100 - operand as u16)
    };
    let extra_cycles_taken = if page_of(regs.pc) == page_of(new_pc) {
        1
    } else {
        2
    };
    regs.pc = new_pc;
    extra_cycles_taken
}

// Flag manipulation instructions.

pub fn clc(regs: &mut Registers) -> (extra: u8)
    ensures
        *final(regs) == with_flag(*old(regs), CARRY, false),
        extra == 0,
{
    regs.ps.set_carry(false);
    0
}

pub fn sec(regs: &mut Registers) -> (extra: u8)
    ensures
        *final(regs) == with_flag(*old(regs), CARRY, true),
        extra == 0,
{
    regs.ps.set_carry(true);
    0
}

pub fn cli(regs: &mut Registers) -> (extra: u8)
    ensures
        *final(regs) == with_flag(*old(regs), INTERRUPT, false),
        extra == 0,
{
    regs.ps.set_interrupt(false);
    0
}

pub fn sei(regs: &mut Registers) -> (extra: u8)
    ensures
        *final(regs) == with_flag(*old(regs), INTERRUPT, true),
        extra == 0,
{
    regs.ps.set_interrupt(true);
    0
}

pub fn cld(regs: &mut Registers) -> (extra: u8)
    ensures
        *final(regs) == with_flag(*old(regs), DECIMAL, false),
        extra == 0,
{
    regs.ps.set_decimal(false);
    0
}

pub fn sed(regs: &mut Registers) -> (extra: u8)
    ensures
        *final(regs) == with_flag(*old(regs), DECIMAL, true),
        extra == 0,
{
    regs.ps.set_decimal(true);
    0
}

pub fn clv(regs: &mut Registers) -> (extra: u8)
    ensures
        *final(regs) == with_flag(*old(regs), OVERFLOW, false),
        extra == 0,
{
    regs.ps.set_overflow(false);
    0
}

// No-op instructions.
pub fn nop() -> (extra: u8)
    ensures
        extra == 0,
{
    0
}

// Laws.
/// SBC is ADC of the operand's complement: the result and every flag agree.
pub proof fn lemma_sbc_is_adc_of_complement(r: Registers, v: u8)
    ensures
        sbc_spec(r, v) == adc_spec(r, (0xFF - v) as u8),
{
}

/// Decimal mode is not supported: ADC and SBC compute the same accumulator and carry whether the
/// decimal flag is set or not.
pub proof fn lemma_arithmetic_ignores_decimal(r: Registers, v: u8, d: bool)
    ensures
        adc_spec(with_flag(r, DECIMAL, d), v).a == adc_spec(r, v).a,
        sbc_spec(with_flag(r, DECIMAL, d), v).a == sbc_spec(r, v).a,
        flag(adc_spec(with_flag(r, DECIMAL, d), v).ps.0, CARRY) == flag(adc_spec(r, v).ps.0, CARRY),
        flag(sbc_spec(with_flag(r, DECIMAL, d), v).ps.0, CARRY) == flag(sbc_spec(r, v).ps.0, CARRY),
{
    lemma_put_flag(r.ps.0, DECIMAL, d, CARRY);
    let ra = adc_spec(r, v);
    let rs = sbc_spec(r, v);
    let pa = put_zn(r.ps.0, ra.a);
    let ps = put_zn(r.ps.0, rs.a);
    let da = put_zn(put(r.ps.0, DECIMAL, d), ra.a);
    let ds = put_zn(put(r.ps.0, DECIMAL, d), rs.a);
    lemma_put_flag(pa, CARRY, (r.a + v + carry_in(r)) > 0xFF, CARRY);
    lemma_put_flag(da, CARRY, (r.a + v + carry_in(r)) > 0xFF, CARRY);
    lemma_put_flag(put(pa, CARRY, (r.a + v + carry_in(r)) > 0xFF), OVERFLOW, signed_overflow(signed(r.a) + signed(v) + carry_in(r)), CARRY);
    lemma_put_flag(put(da, CARRY, (r.a + v + carry_in(r)) > 0xFF), OVERFLOW, signed_overflow(signed(r.a) + signed(v) + carry_in(r)), CARRY);
    let diff = r.a - v - (1 - carry_in(r));
    lemma_put_flag(ps, CARRY, diff >= 0, CARRY);
    lemma_put_flag(ds, CARRY, diff >= 0, CARRY);
    lemma_put_flag(put(ps, CARRY, diff >= 0), OVERFLOW, signed_overflow(signed(r.a) - signed(v) - (1 - carry_in(r))), CARRY);
    lemma_put_flag(put(ds, CARRY, diff >= 0), OVERFLOW, signed_overflow(signed(r.a) - signed(v) - (1 - carry_in(r))), CARRY);
}

/// CMP, CPX and CPY set the carry flag exactly when the register is at least the operand, and the
/// zero flag exactly when they are equal.
pub proof fn lemma_compare_flags(p: u8, reg: u8, v: u8)
    ensures
        flag(compare_spec(p, reg, v), CARRY) == (reg >= v),
        flag(compare_spec(p, reg, v), ZERO) == (reg == v),
        flag(compare_spec(p, reg, v), NEGATIVE) == (((reg - v + 0x100) % 0x100) >= 0x80),
{
    let d = ((reg - v + 0x100) % 0x100) as u8;
    lemma_put_flag(p, ZERO, d == 0, NEGATIVE);
    lemma_put_flag(put(p, ZERO, d == 0), NEGATIVE, d >= 0x80, ZERO);
    lemma_put_flag(put_zn(p, d), CARRY, reg >= v, ZERO);
    lemma_put_flag(put_zn(p, d), CARRY, reg >= v, NEGATIVE);
}

/// Rotating the accumulator left and then right gives back the accumulator and the carry flag.
pub proof fn lemma_rol_ror_round_trip<B: Bus>(r: Registers, mem: Mem)
    ensures
        ({
            let (r1, m1) = shift_op_spec::<B>(Shift::Rol, AddrMode::Accumulator, r, mem);
            let (r2, m2) = shift_op_spec::<B>(Shift::Ror, AddrMode::Accumulator, r1, m1);
            r2.a == r.a && flag(r2.ps.0, CARRY) == flag(r.ps.0, CARRY) && m2 == mem
        }),
{
    let c = flag(r.ps.0, CARRY);
    let (res, out) = shift_spec(Shift::Rol, r.a, c);
    let p1 = put_zn(put(r.ps.0, CARRY, out), res);
    lemma_put_flag(r.ps.0, CARRY, out, ZERO);
    lemma_put_flag(r.ps.0, CARRY, out, CARRY);
    lemma_put_flag(put(r.ps.0, CARRY, out), ZERO, res == 0, CARRY);
    lemma_put_flag(put(put(r.ps.0, CARRY, out), ZERO, res == 0), NEGATIVE, res >= 0x80, CARRY);
    assert(flag(p1, CARRY) == out);
    let (res2, out2) = shift_spec(Shift::Ror, res, out);
    let p2 = put_zn(put(p1, CARRY, out2), res2);
    lemma_put_flag(p1, CARRY, out2, CARRY);
    lemma_put_flag(put(p1, CARRY, out2), ZERO, res2 == 0, CARRY);
    lemma_put_flag(put(put(p1, CARRY, out2), ZERO, res2 == 0), NEGATIVE, res2 >= 0x80, CARRY);
    assert(flag(p2, CARRY) == out2);
}

/// The stack page lies in RAM, so on the NES bus a push followed by a pop gives back the pushed
/// byte and the stack pointer.
pub proof fn lemma_push_pop(r: Registers, mem: Mem, v: u8)
    ensures
        ({
            let (r1, m1) = push_spec::<NesBus>(r, mem, v);
            let (r2, w) = pop_spec(r1, m1);
            w == v && r2 == r
        }),
{
}

/// On the NES bus, RTS after JSR returns to the instruction that follows the JSR, with the stack
/// pointer back where it was.
pub proof fn lemma_jsr_rts_return(r: Registers, mem: Mem, target: u16)
    ensures
        ({
            let (r1, m1) = jsr_spec::<NesBus>(r, mem, target);
            let r2 = rts_spec(r1, m1);
            r2.pc == r.pc && r2.sp == r.sp && r1.pc == target
        }),
{
    let ret = wrap16(r.pc + 0xFFFF);
    assert(word(lo(ret), hi(ret)) == ret);
}

/// On the NES bus, JSR stores the address one below the next instruction on the stack, high byte
/// first, and jumps. Whatever code runs after it, as long as it leaves the stack pointer where JSR
/// left it and the two stored bytes intact, RTS then returns to the instruction that follows the
/// JSR, with the stack pointer back where it was before the JSR.
pub proof fn lemma_jsr_rts_return_after_code(
    r: Registers,
    mem: Mem,
    target: u16,
    later: Registers,
    later_mem: Mem,
)
    requires
        ({
            let (r1, m1) = jsr_spec::<NesBus>(r, mem, target);
            &&& later.sp == r1.sp
            &&& later_mem(stack_addr(r.sp)) == m1(stack_addr(r.sp))
            &&& later_mem(stack_addr(wrap8(r.sp + 0xFF))) == m1(stack_addr(wrap8(r.sp + 0xFF)))
        }),
    ensures
        ({
            let ret = wrap16(r.pc + 0xFFFF);
            let (r1, m1) = jsr_spec::<NesBus>(r, mem, target);
            &&& r1.pc == target
            &&& r1.sp == wrap8(r.sp + 0xFE)
            &&& m1(stack_addr(r.sp)) == hi(ret)
            &&& m1(stack_addr(wrap8(r.sp + 0xFF))) == lo(ret)
            &&& rts_spec(later, later_mem).pc == r.pc
            &&& rts_spec(later, later_mem).sp == r.sp
        }),
{
    let ret = wrap16(r.pc + 0xFFFF);
    assert(word(lo(ret), hi(ret)) == ret);
    assert(wrap8(wrap8(wrap8(r.sp + 0xFF) + 0xFF) + 1) == wrap8(r.sp + 0xFF));
    assert(wrap8(wrap8(r.sp + 0xFF) + 1) == r.sp);
}

/// On the NES bus, PLA after PHA gives back A and the stack pointer.
pub proof fn lemma_pha_pla(r: Registers, mem: Mem)
    ensures
        ({
            let (r1, m1) = push_spec::<NesBus>(r, mem, r.a);
            let r2 = pla_spec(r1, m1);
            r2.a == r.a && r2.sp == r.sp
        }),
{
}

/// On the NES bus, PLP after PHP gives back every flag but break, and leaves the unused bit set.
pub proof fn lemma_php_plp(r: Registers, mem: Mem, m: u8)
    requires
        is_flag(m),
    ensures
        ({
            let (r1, m1) = push_spec::<NesBus>(r, mem, pushable(r.ps.0));
            let r2 = plp_spec(r1, m1);
            &&& r2.sp == r.sp
            &&& m != BREAK && m != UNUSED ==> flag(r2.ps.0, m) == flag(r.ps.0, m)
            &&& flag(r2.ps.0, UNUSED)
            &&& !flag(r2.ps.0, BREAK)
        }),
{
    lemma_push_pop_restores_flags(r.ps.0, m);
}

/// On the NES bus, DEC after INC of a RAM address gives back what every address reads as.
pub proof fn lemma_inc_dec_ram(r: Registers, bus: NesBus, addr: u16)
    requires
        bus.inv(),
        addr < 0x2000,
    ensures
        ({
            let m = AddrMode::Memory(addr, false);
            let (r1, m1) = step_memory_spec::<NesBus>(m, r, bus.mem(), true);
            let (r2, m2) = step_memory_spec::<NesBus>(m, r1, m1, false);
            m2 == bus.mem()
        }),
{
    let mem = bus.mem();
    let m = AddrMode::Memory(addr, false);
    let (r1, m1) = step_memory_spec::<NesBus>(m, r, mem, true);
    let (r2, m2) = step_memory_spec::<NesBus>(m, r1, m1, false);
    assert forall|a: u16| #[trigger] m2(a) == mem(a) by {
        if a < 0x2000 && crate::bus::ram_index(a) == crate::bus::ram_index(addr) {
            assert(mem(a) == mem(addr));
        }
    }
    assert(m2 =~= mem);
}

} // verus!
