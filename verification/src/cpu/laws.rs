//! What single instructions do, stated from the 6502's documentation in plain arithmetic on the
//! registers and memory before them: each law names an opcode by its number and says what running
//! it gives, so that a wrong entry in the opcode table or a wrong instruction breaks it.
use vstd::prelude::*;

use crate::bus::{Bus, Mem, NesBus};
use crate::cpu::instructions::{adc_spec, sbc_spec, signed, signed_overflow, plp_spec, rti_spec, stack_addr, with_x, wrap16, wrap8};
use crate::cpu::addressing::{fetch, operand_word, pc_at, word, zero_page_y_spec, AddrMode};
use crate::cpu::isa::{decode_spec, op_spec, resolve_spec, step_spec, Mode, Op, Operand};
use crate::cpu::status::{put, put_zn, Status};
use crate::cpu::{advance, Registers};

verus! {

/// What [`crate::Cpu::one_instruction`] does with registers `r` and memory `mem`: the registers,
/// the memory and the cycle count after the instruction whose opcode is at `r.pc`.
#[verifier::opaque]
pub open spec fn run_one<B: Bus>(r: Registers, mem: Mem) -> (Registers, Mem, u8) {
    step_spec::<B>(advance(r, 1), mem, mem(r.pc))
}

/// The byte `n` bytes after the opcode at `r.pc`.
pub open spec fn operand_byte(r: Registers, mem: Mem, n: int) -> u8 {
    mem(((r.pc + n) % 0x10000) as u16)
}

/// The carry is bit 0 of the status: `p & 1` is 0 or 1, and 1 exactly when the carry is set.
#[verifier::spinoff_prover]
proof fn lemma_carry_bit(p: u8)
    ensures
        p & 0x01 == 0 || p & 0x01 == 1,
        (p & 0x01 != 0) == (p & 0x01 == 1),
{
    assert((p & 0x01 == 0 || p & 0x01 == 1) && (p & 0x01 != 0) == (p & 0x01 == 1)) by (bit_vector);
}

/// The status byte after an arithmetic result: Z and N from `result`, then C and V.
#[verifier::spinoff_prover]
proof fn lemma_arith_flags(p: u8, result: u8, c: bool, v: bool)
    ensures
        ({
            let q = put(put(put_zn(p, result), 0x01, c), 0x40, v);
            &&& (q & 0x01 != 0) == c
            &&& (q & 0x02 != 0) == (result == 0)
            &&& (q & 0x40 != 0) == v
            &&& (q & 0x80 != 0) == (result >= 0x80)
            &&& q & 0x3C == p & 0x3C
        }),
{
    let z = put(p, 0x02, result == 0);
    let zn = put(z, 0x80, result >= 0x80);
    assert(zn == put_zn(p, result));
    let zb = result == 0;
    let nb = result >= 0x80;
    assert({
        let q = put(put(put(put(p, 0x02, zb), 0x80, nb), 0x01, c), 0x40, v);
        &&& (q & 0x01 != 0) == c
        &&& (q & 0x02 != 0) == zb
        &&& (q & 0x40 != 0) == v
        &&& (q & 0x80 != 0) == nb
        &&& q & 0x3C == p & 0x3C
    }) by (bit_vector);
}

/// ADC #imm (opcode 0x69) adds its operand byte and the carry to A: A becomes the sum modulo 256,
/// C the carry out of bit 7, V set when both addends have the same sign and the result has the
/// other, Z and N from the result. The other flags, X, Y, the stack pointer and memory stay; the
/// program counter moves past the two bytes; it takes 2 cycles.
#[verifier::spinoff_prover]
pub proof fn lemma_adc_immediate<B: Bus>(r: Registers, mem: Mem)
    requires
        mem(r.pc) == 0x69,
    ensures
        ({
            let v = operand_byte(r, mem, 1);
            let sum = r.a + v + (r.ps.0 & 0x01);
            let (r2, m2, cycles) = run_one::<B>(r, mem);
            &&& r2.a == sum % 256
            &&& (r2.ps.0 & 0x01 != 0) == (sum >= 256)
            &&& (r2.ps.0 & 0x02 != 0) == (sum % 256 == 0)
            &&& (r2.ps.0 & 0x80 != 0) == (sum % 256 >= 128)
            &&& (r2.ps.0 & 0x40 != 0) == ((r.a < 128) == (v < 128) && (sum % 256 < 128) != (r.a
                < 128))
            &&& r2.ps.0 & 0x3C == r.ps.0 & 0x3C
            &&& r2.x == r.x && r2.y == r.y && r2.sp == r.sp
            &&& r2.pc == (r.pc + 2) % 0x10000
            &&& m2 == mem
            &&& cycles == 2
        }),
{
    reveal(run_one);
    let v = operand_byte(r, mem, 1);
    let p = r.ps.0;
    let c = p & 0x01;
    lemma_carry_bit(p);
    let r2 = advance(advance(r, 1), 1);
    assert(r2.pc == (r.pc + 2) % 0x10000);
    assert(run_one::<B>(r, mem) == (adc_spec(r2, v), mem, 2u8));
    let sum = r.a + v + c;
    lemma_add_overflow(r.a, v, c as int);
    lemma_arith_flags(p, (sum % 256) as u8, sum > 0xFF, signed_overflow(signed(r.a) + signed(v) + c));
}

/// The signed sum of two bytes and a carry overflows exactly when both bytes have the same sign
/// and the byte of the sum has the other.
#[verifier::spinoff_prover]
proof fn lemma_add_overflow(a: u8, v: u8, c: int)
    requires
        c == 0 || c == 1,
    ensures
        signed_overflow(signed(a) + signed(v) + c) == ((a < 128) == (v < 128) && ((a + v + c)
            % 256 < 128) != (a < 128)),
{
}

/// SBC #imm (opcode 0xE9) subtracts its operand byte and the borrow (the clear carry) from A: A
/// becomes the difference modulo 256, C is set when no borrow was needed, V when the operands have
/// different signs and the result has the sign of the operand, Z and N from the result. The other
/// flags, X, Y, the stack pointer and memory stay; it takes 2 cycles.
#[verifier::spinoff_prover]
#[verifier::rlimit(80)]
pub proof fn lemma_sbc_immediate<B: Bus>(r: Registers, mem: Mem)
    requires
        mem(r.pc) == 0xE9,
    ensures
        ({
            let v = operand_byte(r, mem, 1);
            let diff = r.a - v - (1 - (r.ps.0 & 0x01));
            let result = (diff + 256) % 256;
            let (r2, m2, cycles) = run_one::<B>(r, mem);
            &&& r2.a == result
            &&& (r2.ps.0 & 0x01 != 0) == (diff >= 0)
            &&& (r2.ps.0 & 0x02 != 0) == (result == 0)
            &&& (r2.ps.0 & 0x80 != 0) == (result >= 128)
            &&& (r2.ps.0 & 0x40 != 0) == ((r.a < 128) != (v < 128) && (result < 128) != (r.a
                < 128))
            &&& r2.ps.0 & 0x3C == r.ps.0 & 0x3C
            &&& r2.x == r.x && r2.y == r.y && r2.sp == r.sp
            &&& r2.pc == (r.pc + 2) % 0x10000
            &&& m2 == mem
            &&& cycles == 2
        }),
{
    reveal(run_one);
    let v = operand_byte(r, mem, 1);
    let p = r.ps.0;
    let c = p & 0x01;
    lemma_carry_bit(p);
    let r2 = advance(advance(r, 1), 1);
    assert(run_one::<B>(r, mem) == (sbc_spec(r2, v), mem, 2u8));
    let diff = r.a - v - (1 - c);
    lemma_sub_overflow(r.a, v, c as int);
    let res = ((diff + 256) % 256) as u8;
    assert(res == (diff + 256) % 256);
    lemma_arith_flags(p, res, diff >= 0, signed_overflow(signed(r.a) - signed(v) - (1 - c)));
    assert(sbc_spec(r2, v).a == res);
    assert(sbc_spec(r2, v).ps.0 == put(put(put_zn(p, res), 0x01, diff >= 0), 0x40, signed_overflow(signed(r.a) - signed(v) - (1 - c))));
}

/// The signed difference of two bytes less a borrow overflows exactly when the bytes have
/// different signs and the byte of the difference has the sign of the second.
#[verifier::spinoff_prover]
proof fn lemma_sub_overflow(a: u8, v: u8, c: int)
    requires
        c == 0 || c == 1,
    ensures
        signed_overflow(signed(a) - signed(v) - (1 - c)) == ((a < 128) != (v < 128) && ((a - v
            - (1 - c) + 256) % 256 < 128) != (a < 128)),
{
}

/// The flag that the branch of opcode `op` (one of 0x10, 0x30, ..., 0xF0) tests: N for 0x10 and
/// 0x30, V for 0x50 and 0x70, C for 0x90 and 0xB0, Z for 0xD0 and 0xF0.
pub open spec fn branch_flag(op: u8) -> u8 {
    if op < 0x40 {
        0x80
    } else if op < 0x80 {
        0x40
    } else if op < 0xC0 {
        0x01
    } else {
        0x02
    }
}

/// The conditional branches (opcodes 0x10, 0x30, ..., 0xF0: BPL, BMI, BVC, BVS, BCC, BCS, BNE,
/// BEQ) are taken exactly when the flag of their pair is set for the second of the pair and clear
/// for the first. A taken branch moves the program counter from the next instruction by the
/// signed operand byte and costs one more cycle, or two when it lands in another page; a branch
/// not taken moves to the next instruction. Nothing else changes.
#[verifier::spinoff_prover]
pub proof fn lemma_branches<B: Bus>(r: Registers, mem: Mem)
    requires
        mem(r.pc) % 32 == 0x10,
    ensures
        ({
            let op = mem(r.pc);
            let taken = (r.ps.0 & branch_flag(op) != 0) == (op % 64 >= 32);
            let v = operand_byte(r, mem, 1);
            let next = (r.pc + 2) % 0x10000;
            let target = (next + (if v < 128 {
                v as int
            } else {
                v - 256
            }) + 0x10000) % 0x10000;
            let (r2, m2, cycles) = run_one::<B>(r, mem);
            &&& r2.pc == if taken {
                target
            } else {
                next
            }
            &&& r2.a == r.a && r2.x == r.x && r2.y == r.y && r2.sp == r.sp && r2.ps == r.ps
            &&& m2 == mem
            &&& cycles == if !taken {
                2int
            } else if next / 256 == target / 256 {
                3int
            } else {
                4int
            }
        }),
{
    reveal(run_one);
    let op = mem(r.pc);
    let r2 = advance(advance(r, 1), 1);
    assert(r2.pc == (r.pc + 2) % 0x10000);
    assert(op == 0x10 || op == 0x30 || op == 0x50 || op == 0x70 || op == 0x90 || op == 0xB0 || op
        == 0xD0 || op == 0xF0);
}

/// The address an operand designates, or -1 when it is not in memory.
pub open spec fn address_of(m: AddrMode) -> int {
    match m {
        AddrMode::Memory(addr, _) => addr as int,
        _ => -1,
    }
}

/// Zero page,Y designates an address in the zero page that depends on the operand byte and Y
/// alone: with Y == 0 it is the operand byte, each increment of Y moves it by one, wrapping within
/// the zero page, and X plays no part. It never costs an extra cycle.
#[verifier::spinoff_prover]
pub proof fn lemma_zero_page_y(r: Registers, mem: Mem, x: u8)
    ensures
        zero_page_y_spec(r, mem) is Memory,
        !zero_page_y_spec(r, mem)->1,
        0 <= address_of(zero_page_y_spec(r, mem)) < 256,
        zero_page_y_spec(Registers { x, ..r }, mem) == zero_page_y_spec(r, mem),
        address_of(zero_page_y_spec(Registers { y: 0, ..r }, mem)) == mem(r.pc),
        address_of(zero_page_y_spec(Registers { y: ((r.y + 1) % 256) as u8, ..r }, mem)) == (
        address_of(zero_page_y_spec(r, mem)) + 1) % 256,
{
}

/// LDX zp,Y (opcode 0xB6) loads X from the zero-page address operand byte + Y (wrapping within
/// the zero page), setting Z and N from it; A, Y, the stack pointer, the other flags and memory
/// stay, and it takes 4 cycles.
#[verifier::spinoff_prover]
#[verifier::rlimit(40)]
pub proof fn lemma_ldx_zero_page_y<B: Bus>(r: Registers, mem: Mem)
    requires
        mem(r.pc) == 0xB6,
    ensures
        ({
            let value = mem(((operand_byte(r, mem, 1) + r.y) % 256) as u16);
            let (r2, m2, cycles) = run_one::<B>(r, mem);
            &&& r2.x == value
            &&& (r2.ps.0 & 0x02 != 0) == (value == 0)
            &&& (r2.ps.0 & 0x80 != 0) == (value >= 128)
            &&& r2.ps.0 & 0x7D == r.ps.0 & 0x7D
            &&& r2.a == r.a && r2.y == r.y && r2.sp == r.sp
            &&& r2.pc == (r.pc + 2) % 0x10000
            &&& m2 == mem
            &&& cycles == 4
        }),
{
    reveal(run_one);
    let value = mem(((operand_byte(r, mem, 1) + r.y) % 256) as u16);
    let p = r.ps.0;
    assert({
        let q = put(put(p, 0x02, value == 0), 0x80, value >= 0x80);
        &&& (q & 0x02 != 0) == (value == 0)
        &&& (q & 0x80 != 0) == (value >= 0x80)
        &&& q & 0x7D == p & 0x7D
    }) by (bit_vector);
    let r1 = advance(r, 1);
    let r2 = advance(r1, 1);
    assert(fetch(r1, mem, 0) == operand_byte(r, mem, 1));
    assert(zero_page_y_spec(r1, mem) == AddrMode::Memory(((operand_byte(r, mem, 1) + r.y) % 256) as u16, false));
    assert(resolve_spec(Mode::ZeroPageY, r1, mem) == (r2, Operand::Data(zero_page_y_spec(r1, mem))));
    assert(run_one::<B>(r, mem) == (with_x(r2, value), mem, 4u8));
}

/// PHP (opcode 0x08) stores the status with bits 4 and 5 set at 0x0100 + SP (on the NES bus, in
/// RAM and so at every mirror of that address) and then moves SP down by one, wrapping within the
/// stack page. The registers but SP, and every other address, stay; it takes 3 cycles.
#[verifier::spinoff_prover]
#[verifier::rlimit(40)]
pub proof fn lemma_php(r: Registers, mem: Mem)
    requires
        mem(r.pc) == 0x08,
    ensures
        ({
            let slot = 0x0100 + r.sp;
            let (r2, m2, cycles) = run_one::<NesBus>(r, mem);
            &&& forall|a: u16| #[trigger]
                m2(a) == if a < 0x2000 && a % 0x800 == slot {
                    r.ps.0 | 0x30
                } else {
                    mem(a)
                }
            &&& r2.sp == (r.sp + 255) % 256
            &&& r2.ps == r.ps && r2.a == r.a && r2.x == r.x && r2.y == r.y
            &&& r2.pc == (r.pc + 1) % 0x10000
            &&& cycles == 3
        }),
{
    reveal(run_one);
    let r1 = advance(r, 1);
    assert(run_one::<NesBus>(r, mem) == (
        Registers { sp: wrap8(r.sp + 0xFF), ..r1 },
        NesBus::after_write(mem, stack_addr(r.sp), r.ps.0 | 0x30),
        3u8,
    ));
}

/// PLP (opcode 0x28) right after PHP gives back every flag but break, with break clear and bit 5
/// set, and the stack pointer of before the PHP; A, X, Y and memory stay.
#[verifier::spinoff_prover]
pub proof fn lemma_php_then_plp(r: Registers, mem: Mem)
    requires
        mem(r.pc) == 0x08,
        run_one::<NesBus>(r, mem).1(run_one::<NesBus>(r, mem).0.pc) == 0x28,
    ensures
        ({
            let (r1, m1, _) = run_one::<NesBus>(r, mem);
            let (r2, m2, cycles) = run_one::<NesBus>(r1, m1);
            &&& r2.ps.0 & 0xCF == r.ps.0 & 0xCF
            &&& r2.ps.0 & 0x30 == 0x20
            &&& r2.sp == r.sp
            &&& r2.a == r.a && r2.x == r.x && r2.y == r.y
            &&& r2.pc == (r.pc + 2) % 0x10000
            &&& m2 == m1
            &&& cycles == 4
        }),
{
    lemma_php(r, mem);
    let (r1, m1, _) = run_one::<NesBus>(r, mem);
    lemma_plp::<NesBus>(r1, m1);
    let p = r.ps.0;
    assert(((p | 0x30) & 0xCF) | 0x20 == (p & 0xCF) | 0x20 && (((p | 0x30) & 0xCF) | 0x20) & 0xCF
        == p & 0xCF && (((p | 0x30) & 0xCF) | 0x20) & 0x30 == 0x20) by (bit_vector);
    let slot: u16 = (0x0100 + r.sp) as u16;
    assert(m1(slot) == p | 0x30);
    assert((r1.sp + 1) % 256 == r.sp);
}

/// PLP (opcode 0x28) moves SP up by one, wrapping within the stack page, and loads the status
/// from the byte at 0x0100 + SP with break cleared and bit 5 set. A, X, Y and memory stay; it
/// takes 4 cycles.
#[verifier::spinoff_prover]
pub proof fn lemma_plp<B: Bus>(r: Registers, mem: Mem)
    requires
        mem(r.pc) == 0x28,
    ensures
        ({
            let sp = (r.sp + 1) % 256;
            let (r2, m2, cycles) = run_one::<B>(r, mem);
            &&& r2.sp == sp
            &&& r2.ps.0 == (mem((0x0100 + sp) as u16) & 0xCF) | 0x20
            &&& r2.a == r.a && r2.x == r.x && r2.y == r.y
            &&& r2.pc == (r.pc + 1) % 0x10000
            &&& m2 == mem
            &&& cycles == 4
        }),
{
    reveal(run_one);
}

/// The operand bytes after the opcode: `r.pc` is at the first of them.
pub open spec fn b0(r: Registers, mem: Mem) -> u8 {
    mem(r.pc)
}

/// The second operand byte.
pub open spec fn b1(r: Registers, mem: Mem) -> u8 {
    mem(((r.pc + 1) % 0x10000) as u16)
}

/// Implied and accumulator operands take no bytes: the program counter stays.
#[verifier::spinoff_prover]
pub proof fn lemma_mode_implied_accumulator(r: Registers, mem: Mem)
    ensures
        resolve_spec(Mode::Implied, r, mem) == (r, Operand::Implied),
        resolve_spec(Mode::Accumulator, r, mem) == (r, Operand::Data(AddrMode::Accumulator)),
{
}

/// Immediate: the operand is the byte `b0` at `r.pc`, and the program counter moves one byte on.
#[verifier::spinoff_prover]
pub proof fn lemma_mode_immediate(r: Registers, mem: Mem)
    ensures
        ({
            &&& resolve_spec(Mode::Immediate, r, mem).0 == Registers { pc: ((r.pc + 1) % 0x10000) as u16, ..r }
            &&& resolve_spec(Mode::Immediate, r, mem).1 == Operand::Data(AddrMode::Immediate(b0(r, mem)))
        }),
{
}

/// Relative (branches): the operand is the offset byte `b0` at `r.pc`, and the program counter moves one byte on.
#[verifier::spinoff_prover]
pub proof fn lemma_mode_relative(r: Registers, mem: Mem)
    ensures
        ({
            &&& resolve_spec(Mode::Relative, r, mem).0 == Registers { pc: ((r.pc + 1) % 0x10000) as u16, ..r }
            &&& resolve_spec(Mode::Relative, r, mem).1 == Operand::Data(AddrMode::Immediate(b0(r, mem)))
        }),
{
}

/// Zero page: the operand is at address `b0`.
#[verifier::spinoff_prover]
pub proof fn lemma_mode_zero_page(r: Registers, mem: Mem)
    ensures
        ({
            &&& resolve_spec(Mode::ZeroPage, r, mem).0 == Registers { pc: ((r.pc + 1) % 0x10000) as u16, ..r }
            &&& resolve_spec(Mode::ZeroPage, r, mem).1 == Operand::Data(AddrMode::Memory(b0(r, mem) as u16, false))
        }),
{
}

/// Zero page,X: the operand is at `b0` + X, wrapping within the zero page.
#[verifier::spinoff_prover]
pub proof fn lemma_mode_zero_page_x(r: Registers, mem: Mem)
    ensures
        ({
            &&& resolve_spec(Mode::ZeroPageX, r, mem).0 == Registers { pc: ((r.pc + 1) % 0x10000) as u16, ..r }
            &&& resolve_spec(Mode::ZeroPageX, r, mem).1 == Operand::Data(AddrMode::Memory(((b0(r, mem) + r.x) % 256) as u16, false))
        }),
{
}

/// Zero page,Y: the operand is at `b0` + Y, wrapping within the zero page.
#[verifier::spinoff_prover]
pub proof fn lemma_mode_zero_page_y(r: Registers, mem: Mem)
    ensures
        ({
            &&& resolve_spec(Mode::ZeroPageY, r, mem).0 == Registers { pc: ((r.pc + 1) % 0x10000) as u16, ..r }
            &&& resolve_spec(Mode::ZeroPageY, r, mem).1 == Operand::Data(AddrMode::Memory(((b0(r, mem) + r.y) % 256) as u16, false))
        }),
{
}

/// Absolute: the operand is at `b0 + 256 * b1`, and the program counter moves two bytes on.
#[verifier::spinoff_prover]
pub proof fn lemma_mode_absolute(r: Registers, mem: Mem)
    ensures
        ({
            let abs = b0(r, mem) + 256 * b1(r, mem);
            &&& resolve_spec(Mode::Absolute, r, mem).0 == Registers { pc: ((r.pc + 2) % 0x10000) as u16, ..r }
            &&& resolve_spec(Mode::Absolute, r, mem).1 == Operand::Data(AddrMode::Memory(abs as u16, false))
        }),
{
    assert(((r.pc + 1) % 0x10000) as u16 == pc_at(r, 1));
}

/// Absolute,X: the operand is at `b0 + 256 * b1` + X, wrapping at the top of memory, flagged when that lies in another page than `b0 + 256 * b1`.
#[verifier::spinoff_prover]
pub proof fn lemma_mode_absolute_x(r: Registers, mem: Mem)
    ensures
        ({
            let abs = b0(r, mem) + 256 * b1(r, mem);
            &&& resolve_spec(Mode::AbsoluteX, r, mem).0 == Registers { pc: ((r.pc + 2) % 0x10000) as u16, ..r }
            &&& resolve_spec(Mode::AbsoluteX, r, mem).1 == Operand::Data(AddrMode::Memory(((abs + r.x) % 0x10000) as u16, abs / 256 != ((abs + r.x) % 0x10000) / 256))
        }),
{
    let abs = b0(r, mem) + 256 * b1(r, mem);
    assert(((r.pc + 1) % 0x10000) as u16 == pc_at(r, 1));
    assert(fetch(r, mem, 0) == b0(r, mem) && fetch(r, mem, 1) == b1(r, mem));
    assert(operand_word(r, mem) as int == abs);
}

/// Absolute,Y: the operand is at `b0 + 256 * b1` + Y, wrapping at the top of memory, flagged when that lies in another page than `b0 + 256 * b1`.
#[verifier::spinoff_prover]
pub proof fn lemma_mode_absolute_y(r: Registers, mem: Mem)
    ensures
        ({
            let abs = b0(r, mem) + 256 * b1(r, mem);
            &&& resolve_spec(Mode::AbsoluteY, r, mem).0 == Registers { pc: ((r.pc + 2) % 0x10000) as u16, ..r }
            &&& resolve_spec(Mode::AbsoluteY, r, mem).1 == Operand::Data(AddrMode::Memory(((abs + r.y) % 0x10000) as u16, abs / 256 != ((abs + r.y) % 0x10000) / 256))
        }),
{
    let abs = b0(r, mem) + 256 * b1(r, mem);
    assert(((r.pc + 1) % 0x10000) as u16 == pc_at(r, 1));
    assert(fetch(r, mem, 0) == b0(r, mem) && fetch(r, mem, 1) == b1(r, mem));
    assert(operand_word(r, mem) as int == abs);
}

/// JMP and JSR absolute: the target is `b0 + 256 * b1`.
#[verifier::spinoff_prover]
pub proof fn lemma_mode_jump_absolute(r: Registers, mem: Mem)
    ensures
        ({
            let abs = b0(r, mem) + 256 * b1(r, mem);
            &&& resolve_spec(Mode::JumpAbsolute, r, mem).0 == Registers { pc: ((r.pc + 2) % 0x10000) as u16, ..r }
            &&& resolve_spec(Mode::JumpAbsolute, r, mem).1 == Operand::Target(abs as u16)
        }),
{
    assert(((r.pc + 1) % 0x10000) as u16 == pc_at(r, 1));
}

/// (zp,X): the operand is at the word stored at zero-page `b0` + X and the byte after it, both wrapping within the zero page.
#[verifier::spinoff_prover]
pub proof fn lemma_mode_indexed_indirect(r: Registers, mem: Mem)
    ensures
        ({
            let zx = (b0(r, mem) + r.x) % 256;
            let ind_x = mem(zx as u16) + 256 * mem(((zx + 1) % 256) as u16);
            &&& resolve_spec(Mode::IndexedIndirect, r, mem).0 == Registers { pc: ((r.pc + 1) % 0x10000) as u16, ..r }
            &&& resolve_spec(Mode::IndexedIndirect, r, mem).1 == Operand::Data(AddrMode::Memory(ind_x as u16, false))
        }),
{
}

/// (zp),Y: the operand is at the word stored at zero-page `b0` and the byte after it (wrapping within the zero page) plus Y, wrapping at the top of memory, flagged when that lies in another page than the word.
#[verifier::spinoff_prover]
pub proof fn lemma_mode_indirect_indexed(r: Registers, mem: Mem)
    ensures
        ({
            let z = b0(r, mem);
            let ind = mem(z as u16) + 256 * mem(((z + 1) % 256) as u16);
            &&& resolve_spec(Mode::IndirectIndexed, r, mem).0 == Registers { pc: ((r.pc + 1) % 0x10000) as u16, ..r }
            &&& resolve_spec(Mode::IndirectIndexed, r, mem).1 == Operand::Data(AddrMode::Memory(((ind + r.y) % 0x10000) as u16, ind / 256 != ((ind + r.y) % 0x10000) / 256))
        }),
{
}

/// JMP (ind): the target is the word at `b0 + 256 * b1`, whose high byte is read from the next address in the same page.
#[verifier::spinoff_prover]
pub proof fn lemma_mode_jump_indirect(r: Registers, mem: Mem)
    ensures
        ({
            let lo = b0(r, mem);
            let hi = b1(r, mem);
            let target = mem((lo + 256 * hi) as u16) + 256 * mem((256 * hi + (lo + 1) % 256) as u16);
            &&& resolve_spec(Mode::JumpIndirect, r, mem).0 == Registers { pc: ((r.pc + 2) % 0x10000) as u16, ..r }
            &&& resolve_spec(Mode::JumpIndirect, r, mem).1 == Operand::Target(target as u16)
        }),
{
    let lo = b0(r, mem);
    let hi = b1(r, mem);
    assert(((r.pc + 1) % 0x10000) as u16 == pc_at(r, 1));
    assert(fetch(r, mem, 0) == lo && fetch(r, mem, 1) == hi);
    assert(word(lo, hi) == (lo + 256 * hi) as u16);
    assert(word(((lo + 1) % 256) as u8, hi) == (256 * hi + (lo + 1) % 256) as u16);
}

/// The opcodes whose low two bits are 01 form the 6502's ALU group: bits 7-5 pick the
/// operation (ORA, AND, EOR, ADC, STA, LDA, CMP, SBC) and bits 4-2 the addressing mode ((zp,X),
/// zp, #, abs, (zp),Y, zp,X, abs,Y, abs,X), which also fixes the base cycle count (6, 3, 2, 4, 5,
/// 4, 4, 4; STA takes 6, 5 and 5 with (zp),Y, abs,Y and abs,X). 0x89, which would be STA #,
/// does not exist.
#[verifier::spinoff_prover]
#[verifier::rlimit(60)]
pub proof fn lemma_alu_group_decode(opcode: u8)
    requires
        opcode % 4 == 1,
        opcode != 0x89,
    ensures
        ({
            let ops = seq![Op::Ora, Op::And, Op::Eor, Op::Adc, Op::Sta, Op::Lda, Op::Cmp, Op::Sbc];
            let modes = seq![
                Mode::IndexedIndirect,
                Mode::ZeroPage,
                Mode::Immediate,
                Mode::Absolute,
                Mode::IndirectIndexed,
                Mode::ZeroPageX,
                Mode::AbsoluteY,
                Mode::AbsoluteX,
            ];
            let cycles = seq![6u8, 3, 2, 4, 5, 4, 4, 4];
            let sta_cycles = seq![6u8, 3, 2, 4, 6, 4, 5, 5];
            let op = ops[(opcode / 32) as int];
            let m = (opcode / 4) % 8;
            decode_spec(opcode) == Some(
                (op, modes[m as int], if op == Op::Sta {
                    sta_cycles[m as int]
                } else {
                    cycles[m as int]
                }),
            )
        }),
{
    assert(opcode / 32 < 8 && (opcode / 4) % 8 < 8);
}

/// The byte an operand reads as: the immediate byte, A, or the byte at its address.
pub open spec fn operand_value(m: AddrMode, r: Registers, mem: Mem) -> u8 {
    match m {
        AddrMode::Immediate(b) => b,
        AddrMode::Accumulator => r.a,
        AddrMode::Memory(addr, _) => mem(addr),
    }
}

/// The extra cycle a read costs: one when its indexed address crossed a page.
pub open spec fn page_penalty(m: AddrMode) -> u8 {
    match m {
        AddrMode::Memory(_, true) => 1,
        _ => 0,
    }
}

/// Z and N set from `v`, the other flags kept.
#[verifier::spinoff_prover]
proof fn lemma_zn_flags(p: u8, v: u8)
    ensures
        (put_zn(p, v) & 0x02 != 0) == (v == 0),
        (put_zn(p, v) & 0x80 != 0) == (v >= 0x80),
        put_zn(p, v) & 0x7D == p & 0x7D,
{
    let zb = v == 0;
    let nb = v >= 0x80;
    assert({
        let q = put(put(p, 0x02, zb), 0x80, nb);
        &&& (q & 0x02 != 0) == zb
        &&& (q & 0x80 != 0) == nb
        &&& q & 0x7D == p & 0x7D
    }) by (bit_vector);
}

/// ORA ors the operand into A, setting Z and N from the result.
#[verifier::spinoff_prover]
pub proof fn lemma_ora<B: Bus>(m: AddrMode, r: Registers, mem: Mem)
    ensures
        ({
            let v = operand_value(m, r, mem);
            let (r2, m2, extra) = op_spec::<B>(Op::Ora, Operand::Data(m), r, mem);
            &&& r2.a == r.a | v
            &&& (r2.ps.0 & 0x02 != 0) == (r2.a == 0)
            &&& (r2.ps.0 & 0x80 != 0) == (r2.a >= 128)
            &&& r2.ps.0 & 0x7D == r.ps.0 & 0x7D
            &&& r2.x == r.x && r2.y == r.y && r2.sp == r.sp && r2.pc == r.pc
            &&& m2 == mem
            &&& extra == page_penalty(m)
        }),
{
    lemma_zn_flags(r.ps.0, r.a | operand_value(m, r, mem));
}

/// AND ands the operand into A, setting Z and N from the result.
#[verifier::spinoff_prover]
pub proof fn lemma_and<B: Bus>(m: AddrMode, r: Registers, mem: Mem)
    ensures
        ({
            let v = operand_value(m, r, mem);
            let (r2, m2, extra) = op_spec::<B>(Op::And, Operand::Data(m), r, mem);
            &&& r2.a == r.a & v
            &&& (r2.ps.0 & 0x02 != 0) == (r2.a == 0)
            &&& (r2.ps.0 & 0x80 != 0) == (r2.a >= 128)
            &&& r2.ps.0 & 0x7D == r.ps.0 & 0x7D
            &&& r2.x == r.x && r2.y == r.y && r2.sp == r.sp && r2.pc == r.pc
            &&& m2 == mem
            &&& extra == page_penalty(m)
        }),
{
    lemma_zn_flags(r.ps.0, r.a & operand_value(m, r, mem));
}

/// EOR xors the operand into A, setting Z and N from the result.
#[verifier::spinoff_prover]
pub proof fn lemma_eor<B: Bus>(m: AddrMode, r: Registers, mem: Mem)
    ensures
        ({
            let v = operand_value(m, r, mem);
            let (r2, m2, extra) = op_spec::<B>(Op::Eor, Operand::Data(m), r, mem);
            &&& r2.a == r.a ^ v
            &&& (r2.ps.0 & 0x02 != 0) == (r2.a == 0)
            &&& (r2.ps.0 & 0x80 != 0) == (r2.a >= 128)
            &&& r2.ps.0 & 0x7D == r.ps.0 & 0x7D
            &&& r2.x == r.x && r2.y == r.y && r2.sp == r.sp && r2.pc == r.pc
            &&& m2 == mem
            &&& extra == page_penalty(m)
        }),
{
    lemma_zn_flags(r.ps.0, r.a ^ operand_value(m, r, mem));
}

/// LDA loads the operand into A, setting Z and N from it.
#[verifier::spinoff_prover]
pub proof fn lemma_lda<B: Bus>(m: AddrMode, r: Registers, mem: Mem)
    ensures
        ({
            let v = operand_value(m, r, mem);
            let (r2, m2, extra) = op_spec::<B>(Op::Lda, Operand::Data(m), r, mem);
            &&& r2.a == v
            &&& (r2.ps.0 & 0x02 != 0) == (r2.a == 0)
            &&& (r2.ps.0 & 0x80 != 0) == (r2.a >= 128)
            &&& r2.ps.0 & 0x7D == r.ps.0 & 0x7D
            &&& r2.x == r.x && r2.y == r.y && r2.sp == r.sp && r2.pc == r.pc
            &&& m2 == mem
            &&& extra == page_penalty(m)
        }),
{
    lemma_zn_flags(r.ps.0, operand_value(m, r, mem));
}

/// CMP compares A with the operand: C when A >= operand, Z when they are equal, N from bit 7 of A - operand; A and the other flags stay.
#[verifier::spinoff_prover]
pub proof fn lemma_compare_a<B: Bus>(m: AddrMode, r: Registers, mem: Mem)
    ensures
        ({
            let v = operand_value(m, r, mem);
            let (r2, m2, extra) = op_spec::<B>(Op::Cmp, Operand::Data(m), r, mem);
            let d = ((r.a - v + 256) % 256) as u8;
            &&& (r2.ps.0 & 0x01 != 0) == (r.a >= v)
            &&& (r2.ps.0 & 0x02 != 0) == (r.a == v)
            &&& (r2.ps.0 & 0x80 != 0) == (d >= 128)
            &&& r2.ps.0 & 0x7C == r.ps.0 & 0x7C
            &&& r2.a == r.a && r2.x == r.x && r2.y == r.y && r2.sp == r.sp && r2.pc == r.pc
            &&& m2 == mem
            &&& extra == page_penalty(m)
        }),
{
    let v = operand_value(m, r, mem);
    let d = ((r.a - v + 256) % 256) as u8;
    let p = r.ps.0;
    let c = r.a >= v;
    let zb = d == 0;
    let nb = d >= 0x80;
    assert({
        let q = put(put(put(p, 0x02, zb), 0x80, nb), 0x01, c);
        &&& (q & 0x01 != 0) == c
        &&& (q & 0x02 != 0) == zb
        &&& (q & 0x80 != 0) == nb
        &&& q & 0x7C == p & 0x7C
    }) by (bit_vector);
}

/// STA stores A at the operand's address; the registers stay and a store never costs an extra
/// cycle.
#[verifier::spinoff_prover]
pub proof fn lemma_sta<B: Bus>(addr: u16, crossed: bool, r: Registers, mem: Mem)
    ensures
        op_spec::<B>(Op::Sta, Operand::Data(AddrMode::Memory(addr, crossed)), r, mem) == (
            r,
            B::after_write(mem, addr, r.a),
            0u8,
        ),
{
}

/// ADC adds the operand and the carry to A: A becomes the sum modulo 256, C the carry out of bit
/// 7, V set when both addends have the same sign and the result has the other, Z and N from the
/// result.
#[verifier::spinoff_prover]
#[verifier::rlimit(40)]
pub proof fn lemma_adc<B: Bus>(m: AddrMode, r: Registers, mem: Mem)
    ensures
        ({
            let v = operand_value(m, r, mem);
            let sum = r.a + v + (r.ps.0 & 0x01);
            let (r2, m2, extra) = op_spec::<B>(Op::Adc, Operand::Data(m), r, mem);
            &&& r2.a == sum % 256
            &&& (r2.ps.0 & 0x01 != 0) == (sum >= 256)
            &&& (r2.ps.0 & 0x02 != 0) == (sum % 256 == 0)
            &&& (r2.ps.0 & 0x80 != 0) == (sum % 256 >= 128)
            &&& (r2.ps.0 & 0x40 != 0) == ((r.a < 128) == (v < 128) && (sum % 256 < 128) != (r.a
                < 128))
            &&& r2.ps.0 & 0x3C == r.ps.0 & 0x3C
            &&& r2.x == r.x && r2.y == r.y && r2.sp == r.sp && r2.pc == r.pc
            &&& m2 == mem
            &&& extra == page_penalty(m)
        }),
{
    let v = operand_value(m, r, mem);
    let p = r.ps.0;
    let c = p & 0x01;
    lemma_carry_bit(p);
    let sum = r.a + v + c;
    lemma_add_overflow(r.a, v, c as int);
    let res = (sum % 256) as u8;
    lemma_arith_flags(p, res, sum > 0xFF, signed_overflow(signed(r.a) + signed(v) + c));
    assert(adc_spec(r, v).ps.0 == put(put(put_zn(p, res), 0x01, sum > 0xFF), 0x40, signed_overflow(signed(r.a) + signed(v) + c)));
}

/// SBC subtracts the operand and the borrow (the clear carry) from A: A becomes the difference
/// modulo 256, C is set when no borrow was needed, V when the operands have different signs and
/// the result has the sign of the operand, Z and N from the result.
#[verifier::spinoff_prover]
#[verifier::rlimit(40)]
pub proof fn lemma_sbc<B: Bus>(m: AddrMode, r: Registers, mem: Mem)
    ensures
        ({
            let v = operand_value(m, r, mem);
            let diff = r.a - v - (1 - (r.ps.0 & 0x01));
            let result = (diff + 256) % 256;
            let (r2, m2, extra) = op_spec::<B>(Op::Sbc, Operand::Data(m), r, mem);
            &&& r2.a == result
            &&& (r2.ps.0 & 0x01 != 0) == (diff >= 0)
            &&& (r2.ps.0 & 0x02 != 0) == (result == 0)
            &&& (r2.ps.0 & 0x80 != 0) == (result >= 128)
            &&& (r2.ps.0 & 0x40 != 0) == ((r.a < 128) != (v < 128) && (result < 128) != (r.a
                < 128))
            &&& r2.ps.0 & 0x3C == r.ps.0 & 0x3C
            &&& r2.x == r.x && r2.y == r.y && r2.sp == r.sp && r2.pc == r.pc
            &&& m2 == mem
            &&& extra == page_penalty(m)
        }),
{
    let v = operand_value(m, r, mem);
    let p = r.ps.0;
    let c = p & 0x01;
    lemma_carry_bit(p);
    let diff = r.a - v - (1 - c);
    lemma_sub_overflow(r.a, v, c as int);
    let res = ((diff + 256) % 256) as u8;
    lemma_arith_flags(p, res, diff >= 0, signed_overflow(signed(r.a) - signed(v) - (1 - c)));
    assert(sbc_spec(r, v).ps.0 == put(put(put_zn(p, res), 0x01, diff >= 0), 0x40, signed_overflow(signed(r.a) - signed(v) - (1 - c))));
}

/// C set to `out`, then Z and N from `res`; the other flags kept.
#[verifier::spinoff_prover]
proof fn lemma_shift_flags(p: u8, res: u8, out: bool)
    ensures
        (put_zn(put(p, 0x01, out), res) & 0x01 != 0) == out,
        (put_zn(put(p, 0x01, out), res) & 0x02 != 0) == (res == 0),
        (put_zn(put(p, 0x01, out), res) & 0x80 != 0) == (res >= 0x80),
        put_zn(put(p, 0x01, out), res) & 0x7C == p & 0x7C,
{
    let zb = res == 0;
    let nb = res >= 0x80;
    assert({
        let q = put(put(put(p, 0x01, out), 0x02, zb), 0x80, nb);
        &&& (q & 0x01 != 0) == out
        &&& (q & 0x02 != 0) == zb
        &&& (q & 0x80 != 0) == nb
        &&& q & 0x7C == p & 0x7C
    }) by (bit_vector);
}

/// ASL doubles the operand modulo 256. C gets the bit shifted out, Z and N come from the result, which goes back to A
/// or to the operand's address; the other registers and flags stay, and there is no extra cycle.
#[verifier::spinoff_prover]
#[verifier::rlimit(40)]
pub proof fn lemma_asl<B: Bus>(m: AddrMode, r: Registers, mem: Mem)
    requires
        !(m is Immediate),
    ensures
        ({
            let v = operand_value(m, r, mem);
            let c = r.ps.0 & 0x01;
            let res = (v * 2) % 256;
            let out = v >= 128;
            let (r2, m2, extra) = op_spec::<B>(Op::Asl, Operand::Data(m), r, mem);
            &&& m is Accumulator ==> r2.a == res && m2 == mem
            &&& m matches AddrMode::Memory(addr, _) ==> r2.a == r.a && m2 == B::after_write(
                mem,
                addr,
                res as u8,
            )
            &&& (r2.ps.0 & 0x01 != 0) == out
            &&& (r2.ps.0 & 0x02 != 0) == (res == 0)
            &&& (r2.ps.0 & 0x80 != 0) == (res >= 128)
            &&& r2.ps.0 & 0x7C == r.ps.0 & 0x7C
            &&& r2.x == r.x && r2.y == r.y && r2.sp == r.sp && r2.pc == r.pc
            &&& extra == 0
        }),
{
    let v = operand_value(m, r, mem);
    let p = r.ps.0;
    let c = p & 0x01;
    lemma_carry_bit(p);
    let res = (v * 2) % 256;
    let out = v >= 128;
    assert(0 <= res < 256);
    lemma_shift_flags(p, res as u8, out);
}

/// LSR halves the operand, rounding down. C gets the bit shifted out, Z and N come from the result, which goes back to A
/// or to the operand's address; the other registers and flags stay, and there is no extra cycle.
#[verifier::spinoff_prover]
#[verifier::rlimit(40)]
pub proof fn lemma_lsr<B: Bus>(m: AddrMode, r: Registers, mem: Mem)
    requires
        !(m is Immediate),
    ensures
        ({
            let v = operand_value(m, r, mem);
            let c = r.ps.0 & 0x01;
            let res = v / 2;
            let out = v % 2 == 1;
            let (r2, m2, extra) = op_spec::<B>(Op::Lsr, Operand::Data(m), r, mem);
            &&& m is Accumulator ==> r2.a == res && m2 == mem
            &&& m matches AddrMode::Memory(addr, _) ==> r2.a == r.a && m2 == B::after_write(
                mem,
                addr,
                res as u8,
            )
            &&& (r2.ps.0 & 0x01 != 0) == out
            &&& (r2.ps.0 & 0x02 != 0) == (res == 0)
            &&& (r2.ps.0 & 0x80 != 0) == (res >= 128)
            &&& r2.ps.0 & 0x7C == r.ps.0 & 0x7C
            &&& r2.x == r.x && r2.y == r.y && r2.sp == r.sp && r2.pc == r.pc
            &&& extra == 0
        }),
{
    let v = operand_value(m, r, mem);
    let p = r.ps.0;
    let c = p & 0x01;
    lemma_carry_bit(p);
    let res = v / 2;
    let out = v % 2 == 1;
    assert(0 <= res < 256);
    lemma_shift_flags(p, res as u8, out);
}

/// ROL doubles the operand and adds the old carry, modulo 256. C gets the bit shifted out, Z and N come from the result, which goes back to A
/// or to the operand's address; the other registers and flags stay, and there is no extra cycle.
#[verifier::spinoff_prover]
#[verifier::rlimit(40)]
pub proof fn lemma_rol<B: Bus>(m: AddrMode, r: Registers, mem: Mem)
    requires
        !(m is Immediate),
    ensures
        ({
            let v = operand_value(m, r, mem);
            let c = r.ps.0 & 0x01;
            let res = (v * 2 + c) % 256;
            let out = v >= 128;
            let (r2, m2, extra) = op_spec::<B>(Op::Rol, Operand::Data(m), r, mem);
            &&& m is Accumulator ==> r2.a == res && m2 == mem
            &&& m matches AddrMode::Memory(addr, _) ==> r2.a == r.a && m2 == B::after_write(
                mem,
                addr,
                res as u8,
            )
            &&& (r2.ps.0 & 0x01 != 0) == out
            &&& (r2.ps.0 & 0x02 != 0) == (res == 0)
            &&& (r2.ps.0 & 0x80 != 0) == (res >= 128)
            &&& r2.ps.0 & 0x7C == r.ps.0 & 0x7C
            &&& r2.x == r.x && r2.y == r.y && r2.sp == r.sp && r2.pc == r.pc
            &&& extra == 0
        }),
{
    let v = operand_value(m, r, mem);
    let p = r.ps.0;
    let c = p & 0x01;
    lemma_carry_bit(p);
    let res = (v * 2 + c) % 256;
    let out = v >= 128;
    assert(0 <= res < 256);
    lemma_shift_flags(p, res as u8, out);
}

/// ROR halves the operand, rounding down, and puts the old carry in bit 7. C gets the bit shifted out, Z and N come from the result, which goes back to A
/// or to the operand's address; the other registers and flags stay, and there is no extra cycle.
#[verifier::spinoff_prover]
#[verifier::rlimit(40)]
pub proof fn lemma_ror<B: Bus>(m: AddrMode, r: Registers, mem: Mem)
    requires
        !(m is Immediate),
    ensures
        ({
            let v = operand_value(m, r, mem);
            let c = r.ps.0 & 0x01;
            let res = v / 2 + 128 * c;
            let out = v % 2 == 1;
            let (r2, m2, extra) = op_spec::<B>(Op::Ror, Operand::Data(m), r, mem);
            &&& m is Accumulator ==> r2.a == res && m2 == mem
            &&& m matches AddrMode::Memory(addr, _) ==> r2.a == r.a && m2 == B::after_write(
                mem,
                addr,
                res as u8,
            )
            &&& (r2.ps.0 & 0x01 != 0) == out
            &&& (r2.ps.0 & 0x02 != 0) == (res == 0)
            &&& (r2.ps.0 & 0x80 != 0) == (res >= 128)
            &&& r2.ps.0 & 0x7C == r.ps.0 & 0x7C
            &&& r2.x == r.x && r2.y == r.y && r2.sp == r.sp && r2.pc == r.pc
            &&& extra == 0
        }),
{
    let v = operand_value(m, r, mem);
    let p = r.ps.0;
    let c = p & 0x01;
    lemma_carry_bit(p);
    let res = v / 2 + 128 * c;
    let out = v % 2 == 1;
    assert(0 <= res < 256);
    lemma_shift_flags(p, res as u8, out);
}

/// INC adds one to the byte at the operand's address, modulo 256. The result is stored at the operand's address, Z and N come from it, the registers
/// and the other flags stay, and there is no extra cycle.
#[verifier::spinoff_prover]
pub proof fn lemma_inc<B: Bus>(addr: u16, crossed: bool, r: Registers, mem: Mem)
    ensures
        ({
            let res = ((mem(addr) + 1) % 256) as u8;
            let (r2, m2, extra) = op_spec::<B>(Op::Inc, Operand::Data(AddrMode::Memory(addr, crossed)), r, mem);
            &&& m2 == B::after_write(mem, addr, res)
            &&& (r2.ps.0 & 0x02 != 0) == (res == 0)
            &&& (r2.ps.0 & 0x80 != 0) == (res >= 128)
            &&& r2.ps.0 & 0x7D == r.ps.0 & 0x7D
            &&& r2.a == r.a && r2.x == r.x && r2.y == r.y && r2.sp == r.sp && r2.pc == r.pc
            &&& extra == 0
        }),
{
    lemma_zn_flags(r.ps.0, ((mem(addr) + 1) % 256) as u8);
}

/// DEC subtracts one from the byte at the operand's address, modulo 256. The result is stored at the operand's address, Z and N come from it, the registers
/// and the other flags stay, and there is no extra cycle.
#[verifier::spinoff_prover]
pub proof fn lemma_dec<B: Bus>(addr: u16, crossed: bool, r: Registers, mem: Mem)
    ensures
        ({
            let res = ((mem(addr) + 255) % 256) as u8;
            let (r2, m2, extra) = op_spec::<B>(Op::Dec, Operand::Data(AddrMode::Memory(addr, crossed)), r, mem);
            &&& m2 == B::after_write(mem, addr, res)
            &&& (r2.ps.0 & 0x02 != 0) == (res == 0)
            &&& (r2.ps.0 & 0x80 != 0) == (res >= 128)
            &&& r2.ps.0 & 0x7D == r.ps.0 & 0x7D
            &&& r2.a == r.a && r2.x == r.x && r2.y == r.y && r2.sp == r.sp && r2.pc == r.pc
            &&& extra == 0
        }),
{
    lemma_zn_flags(r.ps.0, ((mem(addr) + 255) % 256) as u8);
}

/// LDX loads the operand into X, setting Z and N from it.
#[verifier::spinoff_prover]
pub proof fn lemma_ldx<B: Bus>(m: AddrMode, r: Registers, mem: Mem)
    ensures
        ({
            let v = operand_value(m, r, mem);
            let (r2, m2, extra) = op_spec::<B>(Op::Ldx, Operand::Data(m), r, mem);
            &&& r2.x == v
            &&& (r2.ps.0 & 0x02 != 0) == (v == 0)
            &&& (r2.ps.0 & 0x80 != 0) == (v >= 128)
            &&& r2.ps.0 & 0x7D == r.ps.0 & 0x7D
            &&& r2.a == r.a && r2.y == r.y && r2.sp == r.sp && r2.pc == r.pc
            &&& m2 == mem
            &&& extra == page_penalty(m)
        }),
{
    lemma_zn_flags(r.ps.0, operand_value(m, r, mem));
}

/// LDY loads the operand into Y, setting Z and N from it.
#[verifier::spinoff_prover]
pub proof fn lemma_ldy<B: Bus>(m: AddrMode, r: Registers, mem: Mem)
    ensures
        ({
            let v = operand_value(m, r, mem);
            let (r2, m2, extra) = op_spec::<B>(Op::Ldy, Operand::Data(m), r, mem);
            &&& r2.y == v
            &&& (r2.ps.0 & 0x02 != 0) == (v == 0)
            &&& (r2.ps.0 & 0x80 != 0) == (v >= 128)
            &&& r2.ps.0 & 0x7D == r.ps.0 & 0x7D
            &&& r2.a == r.a && r2.x == r.x && r2.sp == r.sp && r2.pc == r.pc
            &&& m2 == mem
            &&& extra == page_penalty(m)
        }),
{
    lemma_zn_flags(r.ps.0, operand_value(m, r, mem));
}

/// STX and STY store X or Y at the operand's address; the registers stay and there is no extra
/// cycle.
#[verifier::spinoff_prover]
pub proof fn lemma_stx_sty<B: Bus>(addr: u16, crossed: bool, r: Registers, mem: Mem)
    ensures
        op_spec::<B>(Op::Stx, Operand::Data(AddrMode::Memory(addr, crossed)), r, mem) == (
            r,
            B::after_write(mem, addr, r.x),
            0u8,
        ),
        op_spec::<B>(Op::Sty, Operand::Data(AddrMode::Memory(addr, crossed)), r, mem) == (
            r,
            B::after_write(mem, addr, r.y),
            0u8,
        ),
{
}

/// CPX and CPY compare X or Y with the operand: C when the register is >= the operand, Z when
/// they are equal, N from bit 7 of their difference; the registers and the other flags stay, and
/// there is no extra cycle.
#[verifier::spinoff_prover]
pub proof fn lemma_compare_xy<B: Bus>(m: AddrMode, r: Registers, mem: Mem)
    ensures
        ({
            let v = operand_value(m, r, mem);
            let (rx, mx, ex) = op_spec::<B>(Op::Cpx, Operand::Data(m), r, mem);
            let (ry, my, ey) = op_spec::<B>(Op::Cpy, Operand::Data(m), r, mem);
            &&& (rx.ps.0 & 0x01 != 0) == (r.x >= v)
            &&& (rx.ps.0 & 0x02 != 0) == (r.x == v)
            &&& (rx.ps.0 & 0x80 != 0) == ((r.x - v + 256) % 256 >= 128)
            &&& rx.ps.0 & 0x7C == r.ps.0 & 0x7C
            &&& (ry.ps.0 & 0x01 != 0) == (r.y >= v)
            &&& (ry.ps.0 & 0x02 != 0) == (r.y == v)
            &&& (ry.ps.0 & 0x80 != 0) == ((r.y - v + 256) % 256 >= 128)
            &&& ry.ps.0 & 0x7C == r.ps.0 & 0x7C
            &&& rx == Registers { ps: rx.ps, ..r } && ry == Registers { ps: ry.ps, ..r }
            &&& mx == mem && my == mem && ex == 0 && ey == 0
        }),
{
    let v = operand_value(m, r, mem);
    let p = r.ps.0;
    let dx = ((r.x - v + 256) % 256) as u8;
    let dy = ((r.y - v + 256) % 256) as u8;
    let cx = r.x >= v;
    let cy = r.y >= v;
    assert({
        let q = put(put(put(p, 0x02, dx == 0), 0x80, dx >= 0x80), 0x01, cx);
        &&& (q & 0x01 != 0) == cx
        &&& (q & 0x02 != 0) == (dx == 0)
        &&& (q & 0x80 != 0) == (dx >= 0x80)
        &&& q & 0x7C == p & 0x7C
    }) by (bit_vector);
    assert({
        let q = put(put(put(p, 0x02, dy == 0), 0x80, dy >= 0x80), 0x01, cy);
        &&& (q & 0x01 != 0) == cy
        &&& (q & 0x02 != 0) == (dy == 0)
        &&& (q & 0x80 != 0) == (dy >= 0x80)
        &&& q & 0x7C == p & 0x7C
    }) by (bit_vector);
}

/// BIT sets Z when A AND the operand is zero and copies bits 7 and 6 of the operand into N and V;
/// A and the other flags stay, and there is no extra cycle.
#[verifier::spinoff_prover]
pub proof fn lemma_bit<B: Bus>(m: AddrMode, r: Registers, mem: Mem)
    ensures
        ({
            let v = operand_value(m, r, mem);
            let (r2, m2, extra) = op_spec::<B>(Op::Bit, Operand::Data(m), r, mem);
            &&& (r2.ps.0 & 0x02 != 0) == (r.a & v == 0)
            &&& r2.ps.0 & 0x80 == v & 0x80
            &&& r2.ps.0 & 0x40 == v & 0x40
            &&& r2.ps.0 & 0x3D == r.ps.0 & 0x3D
            &&& r2 == Registers { ps: r2.ps, ..r }
            &&& m2 == mem && extra == 0
        }),
{
    let v = operand_value(m, r, mem);
    let p = r.ps.0;
    let z = r.a & v == 0;
    assert({
        let q = put(put(put(p, 0x02, z), 0x80, v >= 0x80), 0x40, v & 0x40 != 0);
        &&& (q & 0x02 != 0) == z
        &&& q & 0x80 == v & 0x80
        &&& q & 0x40 == v & 0x40
        &&& q & 0x3D == p & 0x3D
    }) by (bit_vector);
}

/// `q` holds Z and N for `v` and the other flags of `p`.
pub open spec fn zn_of(q: u8, p: u8, v: int) -> bool {
    &&& (q & 0x02 != 0) == (v == 0)
    &&& (q & 0x80 != 0) == (v >= 128)
    &&& q & 0x7D == p & 0x7D
}

/// The one-byte register instructions: INX (0xE8), INY (0xC8), DEX (0xCA) and DEY (0x88) add or
/// subtract one modulo 256, and set Z and N from the result; nothing else changes but the program
/// counter, which moves one byte on, and each takes 2 cycles.
#[verifier::spinoff_prover]
#[verifier::rlimit(40)]
pub proof fn lemma_increments<B: Bus>(r: Registers, mem: Mem)
    requires
        mem(r.pc) == 0xE8 || mem(r.pc) == 0xC8 || mem(r.pc) == 0xCA || mem(r.pc) == 0x88,
    ensures
        ({
            let op = mem(r.pc);
            let (r2, m2, cycles) = run_one::<B>(r, mem);
            let x = if op == 0xE8 {
                (r.x + 1) % 256
            } else if op == 0xCA {
                (r.x + 255) % 256
            } else {
                r.x as int
            };
            let y = if op == 0xC8 {
                (r.y + 1) % 256
            } else if op == 0x88 {
                (r.y + 255) % 256
            } else {
                r.y as int
            };
            &&& r2.x == x && r2.y == y
            &&& zn_of(r2.ps.0, r.ps.0, if op == 0xE8 || op == 0xCA { x } else { y })
            &&& r2.a == r.a && r2.sp == r.sp && r2.pc == (r.pc + 1) % 0x10000
            &&& m2 == mem && cycles == 2
        }),
{
    reveal(run_one);
    let op = mem(r.pc);
    let x = if op == 0xE8 { (r.x + 1) % 256 } else { (r.x + 255) % 256 };
    let y = if op == 0xC8 { (r.y + 1) % 256 } else { (r.y + 255) % 256 };
    lemma_zn_flags(r.ps.0, x as u8);
    lemma_zn_flags(r.ps.0, y as u8);
}

/// The transfers: TAX (0xAA), TAY (0xA8), TXA (0x8A), TYA (0x98) and TSX (0xBA) copy one register
/// into another and set Z and N from the copied byte; TXS (0x9A) copies X into the stack pointer
/// and leaves the flags. Nothing else changes but the program counter, which moves one byte on,
/// and each takes 2 cycles.
#[verifier::spinoff_prover]
#[verifier::rlimit(40)]
pub proof fn lemma_transfers<B: Bus>(r: Registers, mem: Mem)
    requires
        mem(r.pc) == 0xAA || mem(r.pc) == 0xA8 || mem(r.pc) == 0x8A || mem(r.pc) == 0x98 || mem(
            r.pc,
        ) == 0xBA || mem(r.pc) == 0x9A,
    ensures
        ({
            let op = mem(r.pc);
            let (r2, m2, cycles) = run_one::<B>(r, mem);
            let pc = ((r.pc + 1) % 0x10000) as u16;
            &&& op == 0xAA ==> r2 == Registers { x: r.a, ps: r2.ps, pc, ..r } && zn_of(r2.ps.0, r.ps.0, r.a as int)
            &&& op == 0xA8 ==> r2 == Registers { y: r.a, ps: r2.ps, pc, ..r } && zn_of(r2.ps.0, r.ps.0, r.a as int)
            &&& op == 0x8A ==> r2 == Registers { a: r.x, ps: r2.ps, pc, ..r } && zn_of(r2.ps.0, r.ps.0, r.x as int)
            &&& op == 0x98 ==> r2 == Registers { a: r.y, ps: r2.ps, pc, ..r } && zn_of(r2.ps.0, r.ps.0, r.y as int)
            &&& op == 0xBA ==> r2 == Registers { x: r.sp, ps: r2.ps, pc, ..r } && zn_of(r2.ps.0, r.ps.0, r.sp as int)
            &&& op == 0x9A ==> r2 == Registers { sp: r.x, pc, ..r }
            &&& m2 == mem && cycles == 2
        }),
{
    reveal(run_one);
    let op = mem(r.pc);
    let v = if op == 0xAA || op == 0xA8 { r.a } else if op == 0x8A { r.x } else if op == 0x98 { r.y } else { r.sp };
    lemma_zn_flags(r.ps.0, v);
}

/// The flag instructions: CLC (0x18) and SEC (0x38) clear and set C, CLI (0x58) and SEI (0x78) I,
/// CLD (0xD8) and SED (0xF8) D, and CLV (0xB8) clears V. Every other flag and register stays but
/// the program counter, which moves one byte on, and each takes 2 cycles.
#[verifier::spinoff_prover]
#[verifier::rlimit(40)]
pub proof fn lemma_flag_instructions<B: Bus>(r: Registers, mem: Mem)
    requires
        mem(r.pc) == 0x18 || mem(r.pc) == 0x38 || mem(r.pc) == 0x58 || mem(r.pc) == 0x78 || mem(
            r.pc,
        ) == 0xD8 || mem(r.pc) == 0xF8 || mem(r.pc) == 0xB8,
    ensures
        ({
            let op = mem(r.pc);
            let mask: u8 = if op == 0x18 || op == 0x38 {
                0x01
            } else if op == 0x58 || op == 0x78 {
                0x04
            } else if op == 0xB8 {
                0x40
            } else {
                0x08
            };
            let on = op == 0x38 || op == 0x78 || op == 0xF8;
            let (r2, m2, cycles) = run_one::<B>(r, mem);
            &&& (r2.ps.0 & mask != 0) == on
            &&& r2.ps.0 & !mask == r.ps.0 & !mask
            &&& r2 == Registers { ps: r2.ps, pc: ((r.pc + 1) % 0x10000) as u16, ..r }
            &&& m2 == mem && cycles == 2
        }),
{
    reveal(run_one);
    let p = r.ps.0;
    assert(forall|m: u8, on: bool|
        (m == 0x01 || m == 0x04 || m == 0x08 || m == 0x40) ==> (#[trigger] put(p, m, on) & m != 0)
            == on && put(p, m, on) & !m == p & !m) by {
        assert forall|m: u8, on: bool|
            (m == 0x01 || m == 0x04 || m == 0x08 || m == 0x40) implies (#[trigger] put(p, m, on)
            & m != 0) == on && put(p, m, on) & !m == p & !m by {
            if on {
                assert(((p | m) & m != 0) && (p | m) & !m == p & !m) by (bit_vector)
                    requires
                        m == 0x01 || m == 0x04 || m == 0x08 || m == 0x40,
                ;
            } else {
                assert(((p & !m) & m == 0) && (p & !m) & !m == p & !m) by (bit_vector)
                    requires
                        m == 0x01 || m == 0x04 || m == 0x08 || m == 0x40,
                ;
            }
        }
    }
}

/// NOP (0xEA) and the one-byte unofficial NOPs (0x1A, 0x3A, 0x5A, 0x7A, 0xDA, 0xFA) only move the
/// program counter one byte on, in 2 cycles.
#[verifier::spinoff_prover]
pub proof fn lemma_nop<B: Bus>(r: Registers, mem: Mem)
    requires
        mem(r.pc) == 0xEA || mem(r.pc) == 0x1A || mem(r.pc) == 0x3A || mem(r.pc) == 0x5A || mem(
            r.pc,
        ) == 0x7A || mem(r.pc) == 0xDA || mem(r.pc) == 0xFA,
    ensures
        run_one::<B>(r, mem) == (Registers { pc: ((r.pc + 1) % 0x10000) as u16, ..r }, mem, 2u8),
{
    reveal(run_one);
}

/// On the NES bus, a RAM address (or one of its mirrors) is that of the stack slot `slot`.
pub open spec fn in_slot(a: u16, slot: int) -> bool {
    a < 0x2000 && a % 0x800 == slot
}

/// PHA (opcode 0x48) stores A at 0x0100 + SP (on the NES bus, in RAM and so at every mirror of
/// that address) and moves SP down by one, wrapping within the stack page. The other registers
/// and every other address stay; it takes 3 cycles.
#[verifier::spinoff_prover]
#[verifier::rlimit(40)]
pub proof fn lemma_pha(r: Registers, mem: Mem)
    requires
        mem(r.pc) == 0x48,
    ensures
        ({
            let (r2, m2, cycles) = run_one::<NesBus>(r, mem);
            &&& forall|a: u16| #[trigger]
                m2(a) == if in_slot(a, 0x0100 + r.sp) {
                    r.a
                } else {
                    mem(a)
                }
            &&& r2 == Registers {
                sp: ((r.sp + 255) % 256) as u8,
                pc: ((r.pc + 1) % 0x10000) as u16,
                ..r
            }
            &&& cycles == 3
        }),
{
    reveal(run_one);
}

/// PLA (opcode 0x68) moves SP up by one, wrapping within the stack page, and loads A from
/// 0x0100 + SP, setting Z and N from it; X, Y, the other flags and memory stay; it takes 4
/// cycles.
#[verifier::spinoff_prover]
#[verifier::rlimit(40)]
pub proof fn lemma_pla<B: Bus>(r: Registers, mem: Mem)
    requires
        mem(r.pc) == 0x68,
    ensures
        ({
            let sp = (r.sp + 1) % 256;
            let v = mem((0x0100 + sp) as u16);
            let (r2, m2, cycles) = run_one::<B>(r, mem);
            &&& r2.a == v && zn_of(r2.ps.0, r.ps.0, v as int)
            &&& r2.sp == sp && r2.x == r.x && r2.y == r.y
            &&& r2.pc == (r.pc + 1) % 0x10000
            &&& m2 == mem && cycles == 4
        }),
{
    reveal(run_one);
    let sp = (r.sp + 1) % 256;
    lemma_zn_flags(r.ps.0, mem((0x0100 + sp) as u16));
}

/// JSR abs (opcode 0x20) stores the address of its own last byte (opcode address + 2), high byte
/// at 0x0100 + SP and low byte at the slot below, moves SP down by two and jumps to the operand
/// word; the other registers stay and it takes 6 cycles.
#[verifier::spinoff_prover]
#[verifier::rlimit(60)]
pub proof fn lemma_jsr(r: Registers, mem: Mem)
    requires
        mem(r.pc) == 0x20,
    ensures
        ({
            let target = operand_byte(r, mem, 1) + 256 * operand_byte(r, mem, 2);
            let ret = (r.pc + 2) % 0x10000;
            let (r2, m2, cycles) = run_one::<NesBus>(r, mem);
            &&& forall|a: u16| #[trigger]
                m2(a) == if in_slot(a, 0x0100 + r.sp) {
                    (ret / 256) as u8
                } else if in_slot(a, 0x0100 + (r.sp + 255) % 256) {
                    (ret % 256) as u8
                } else {
                    mem(a)
                }
            &&& r2 == Registers { sp: ((r.sp + 254) % 256) as u8, pc: target as u16, ..r }
            &&& cycles == 6
        }),
{
    reveal(run_one);
    let r1 = advance(r, 1);
    assert(pc_at(r1, 0) == ((r.pc + 1) % 0x10000) as u16);
    assert(pc_at(r1, 1) == ((r.pc + 2) % 0x10000) as u16);
    let r3 = advance(r1, 2);
    assert(wrap16(r3.pc + 0xFFFF) == (r.pc + 2) % 0x10000);
}

/// RTS (opcode 0x60) moves SP up by two, wrapping within the stack page, and continues one byte
/// after the address stored low byte first at the two slots above the old SP; A, X, Y, the flags
/// and memory stay; it takes 6 cycles.
#[verifier::spinoff_prover]
#[verifier::rlimit(40)]
pub proof fn lemma_rts<B: Bus>(r: Registers, mem: Mem)
    requires
        mem(r.pc) == 0x60,
    ensures
        ({
            let lo = mem((0x0100 + (r.sp + 1) % 256) as u16);
            let hi = mem((0x0100 + (r.sp + 2) % 256) as u16);
            let (r2, m2, cycles) = run_one::<B>(r, mem);
            &&& r2 == Registers {
                sp: ((r.sp + 2) % 256) as u8,
                pc: ((lo + 256 * hi + 1) % 0x10000) as u16,
                ..r
            }
            &&& m2 == mem && cycles == 6
        }),
{
    reveal(run_one);
}

/// RTI (opcode 0x40) pulls the status (break dropped, bit 5 set) from the slot above SP, then the
/// return address, low byte first, from the two slots after it, and continues at that address
/// itself; SP moves up by three, wrapping within the stack page; A, X, Y and memory stay; it
/// takes 6 cycles.
#[verifier::spinoff_prover]
#[verifier::rlimit(40)]
pub proof fn lemma_rti<B: Bus>(r: Registers, mem: Mem)
    requires
        mem(r.pc) == 0x40,
    ensures
        ({
            let p = mem((0x0100 + (r.sp + 1) % 256) as u16);
            let lo = mem((0x0100 + (r.sp + 2) % 256) as u16);
            let hi = mem((0x0100 + (r.sp + 3) % 256) as u16);
            let (r2, m2, cycles) = run_one::<B>(r, mem);
            &&& r2.ps.0 == (p & 0xCF) | 0x20
            &&& r2 == Registers {
                sp: ((r.sp + 3) % 256) as u8,
                pc: (lo + 256 * hi) as u16,
                ps: r2.ps,
                ..r
            }
            &&& m2 == mem && cycles == 6
        }),
{
    reveal(run_one);
    let r1 = advance(r, 1);
    let s1 = wrap8(r.sp + 1);
    let s2 = wrap8(s1 + 1);
    let s3 = wrap8(s2 + 1);
    assert(s1 == (r.sp + 1) % 256 && s2 == (r.sp + 2) % 256 && s3 == (r.sp + 3) % 256);
    assert(stack_addr(s1) == (0x0100 + (r.sp + 1) % 256) as u16);
    assert(stack_addr(s2) == (0x0100 + (r.sp + 2) % 256) as u16);
    assert(stack_addr(s3) == (0x0100 + (r.sp + 3) % 256) as u16);
    assert(run_one::<B>(r, mem) == (rti_spec(r1, mem), mem, 6u8));
}

/// BRK (opcode 0x00) stores the opcode address + 2, high byte at 0x0100 + SP and low byte below
/// it, then the status with bits 4 and 5 set in the next slot down; it moves SP down by three,
/// sets I and jumps through the vector at 0xFFFE/0xFFFF; A, X and Y stay; it takes 7 cycles.
#[verifier::spinoff_prover]
#[verifier::rlimit(80)]
pub proof fn lemma_brk(r: Registers, mem: Mem)
    requires
        mem(r.pc) == 0x00,
    ensures
        ({
            let ret = (r.pc + 2) % 0x10000;
            let (r2, m2, cycles) = run_one::<NesBus>(r, mem);
            &&& forall|a: u16| #[trigger]
                m2(a) == if in_slot(a, 0x0100 + r.sp) {
                    (ret / 256) as u8
                } else if in_slot(a, 0x0100 + (r.sp + 255) % 256) {
                    (ret % 256) as u8
                } else if in_slot(a, 0x0100 + (r.sp + 254) % 256) {
                    r.ps.0 | 0x30
                } else {
                    mem(a)
                }
            &&& r2.pc == mem(0xFFFE) + 256 * mem(0xFFFF)
            &&& r2.ps.0 == r.ps.0 | 0x04
            &&& r2.sp == (r.sp + 253) % 256
            &&& r2.a == r.a && r2.x == r.x && r2.y == r.y
            &&& cycles == 7
        }),
{
    reveal(run_one);
    let p = r.ps.0;
    assert(put(p, 0x04, true) == p | 0x04);
}

/// JMP abs (opcode 0x4C) continues at the operand word, in 3 cycles; JMP (ind) (opcode 0x6C)
/// continues at the word stored at the operand word, whose high byte is read from the next
/// address in the same page, in 5 cycles. Nothing else changes.
#[verifier::spinoff_prover]
#[verifier::rlimit(40)]
pub proof fn lemma_jmp<B: Bus>(r: Registers, mem: Mem)
    requires
        mem(r.pc) == 0x4C || mem(r.pc) == 0x6C,
    ensures
        ({
            let lo = operand_byte(r, mem, 1);
            let hi = operand_byte(r, mem, 2);
            let target = if mem(r.pc) == 0x4C {
                lo + 256 * hi
            } else {
                mem((lo + 256 * hi) as u16) + 256 * mem((256 * hi + (lo + 1) % 256) as u16)
            };
            let (r2, m2, cycles) = run_one::<B>(r, mem);
            &&& r2 == Registers { pc: target as u16, ..r }
            &&& m2 == mem
            &&& cycles == if mem(r.pc) == 0x4C {
                3u8
            } else {
                5u8
            }
        }),
{
    reveal(run_one);
    let r1 = advance(r, 1);
    assert(pc_at(r1, 0) == ((r.pc + 1) % 0x10000) as u16);
    assert(pc_at(r1, 1) == ((r.pc + 2) % 0x10000) as u16);
    lemma_mode_jump_indirect(r1, mem);
    lemma_mode_jump_absolute(r1, mem);
}

/// The opcodes whose low two bits are 10 and whose bits 4-2 are odd form the 6502's
/// read-modify-write group: bits 7-5 pick ASL, ROL, LSR, ROR, STX, LDX, DEC, INC, and bits 4-2 the
/// mode zp, abs, zp,X, abs,X, with Y in place of X for STX and LDX. Read-modify-write takes 5,
/// 6, 6, 7 cycles, STX and LDX 3, 4, 4, 4. 0x9E, which would be STX abs,Y, does not exist. With
/// bits 4-2 equal to 010, the four shifts and rotates act on A in 2 cycles.
#[verifier::spinoff_prover]
#[verifier::rlimit(60)]
pub proof fn lemma_rmw_group_decode(opcode: u8)
    requires
        opcode % 4 == 2,
        (opcode / 4) % 2 == 1 || ((opcode / 4) % 8 == 2 && opcode < 0x80),
        opcode != 0x9E,
    ensures
        ({
            let ops = seq![Op::Asl, Op::Rol, Op::Lsr, Op::Ror, Op::Stx, Op::Ldx, Op::Dec, Op::Inc];
            let op = ops[(opcode / 32) as int];
            let xy = op == Op::Stx || op == Op::Ldx;
            let m = (opcode / 4) % 8;
            let mode = if m == 1 {
                Mode::ZeroPage
            } else if m == 2 {
                Mode::Accumulator
            } else if m == 3 {
                Mode::Absolute
            } else if m == 5 {
                if xy {
                    Mode::ZeroPageY
                } else {
                    Mode::ZeroPageX
                }
            } else if xy {
                Mode::AbsoluteY
            } else {
                Mode::AbsoluteX
            };
            let cycles: u8 = if m == 2 {
                2
            } else if xy {
                seq![0u8, 3, 0, 4, 0, 4, 0, 4][m as int]
            } else {
                seq![0u8, 5, 0, 6, 0, 6, 0, 7][m as int]
            };
            decode_spec(opcode) == Some((op, mode, cycles))
        }),
{
    assert(opcode / 32 < 8 && (opcode / 4) % 8 < 8);
}

/// LDY, CPY and CPX (bits 7-5 equal to 101, 110, 111 with low bits 00) take an immediate operand
/// (bits 4-2 000) in 2 cycles, a zero-page one (001) in 3 and an absolute one (011) in 4; LDY
/// also takes zp,X (101) and abs,X (111) in 4, and STY (bits 7-5 equal to 100) zp, abs and zp,X in
/// 3, 4 and 4.
#[verifier::spinoff_prover]
#[verifier::rlimit(60)]
pub proof fn lemma_index_group_decode(opcode: u8)
    requires
        opcode % 4 == 0,
        opcode >= 0x80,
        ({
            let a = opcode / 32;
            let m = (opcode / 4) % 8;
            ||| m == 1 || m == 3
            ||| m == 0 && a >= 5
            ||| m == 5 && (a == 4 || a == 5)
            ||| m == 7 && a == 5
        }),
    ensures
        ({
            let op = seq![Op::Sty, Op::Ldy, Op::Cpy, Op::Cpx][(opcode / 32 - 4) as int];
            let m = (opcode / 4) % 8;
            let mode = seq![
                Mode::Immediate,
                Mode::ZeroPage,
                Mode::Immediate,
                Mode::Absolute,
                Mode::Immediate,
                Mode::ZeroPageX,
                Mode::Immediate,
                Mode::AbsoluteX,
            ][m as int];
            decode_spec(opcode) == Some((op, mode, seq![2u8, 3, 0, 4, 0, 4, 0, 4][m as int]))
        }),
{
    assert(opcode / 32 < 8 && (opcode / 4) % 8 < 8);
}

/// BIT takes a zero-page operand (0x24) in 3 cycles and an absolute one (0x2C) in 4.
#[verifier::spinoff_prover]
pub proof fn lemma_bit_decode()
    ensures
        decode_spec(0x24) == Some((Op::Bit, Mode::ZeroPage, 3u8)),
        decode_spec(0x2C) == Some((Op::Bit, Mode::Absolute, 4u8)),
{
}

} // verus!
