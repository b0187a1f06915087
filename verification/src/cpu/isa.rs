//! The instruction set as a whole: which opcode is which instruction, and what one instruction
//! does to the registers and the bus.
use vstd::prelude::*;

use crate::bus::{Bus, Mem};
use crate::cpu::addressing::{
    absolute_x_spec, absolute_y_spec, fetch, pc_at, word, indexed_indirect_spec, indirect_indexed_spec,
    jump_indirect_spec, operand_word, zero_page_spec, zero_page_x_spec, zero_page_y_spec, AddrMode,
};
use crate::cpu::instructions::{
    adc_spec, bit_test_spec, brk_spec, compare_spec, cond_branch_spec, jsr_spec, pla_spec,
    plp_spec, push_spec, rti_spec, rts_spec, sbc_spec, shift_op_spec, step_memory_spec, with_a,
    with_flag, with_x, with_y, wrap8, stack_addr, Shift, IRQ_BASE,
};
use crate::cpu::status::{flag, pushable, Status, CARRY, DECIMAL, INTERRUPT, NEGATIVE, OVERFLOW, ZERO};
use crate::cpu::{advance, Registers};

verus! {

/// The 6502's instructions.
#[derive(Debug, Clone, Copy, PartialEq, Eq, Structural)]
pub enum Op {
    /// Add with carry.
    Adc,
    /// Bitwise AND with A.
    And,
    /// Arithmetic shift left.
    Asl,
    /// Branch if carry clear.
    Bcc,
    /// Branch if carry set.
    Bcs,
    /// Branch if equal (zero set).
    Beq,
    /// Bit test.
    Bit,
    /// Branch if minus.
    Bmi,
    /// Branch if not equal (zero clear).
    Bne,
    /// Branch if plus.
    Bpl,
    /// Software interrupt.
    Brk,
    /// Branch if overflow clear.
    Bvc,
    /// Branch if overflow set.
    Bvs,
    /// Clear carry.
    Clc,
    /// Clear decimal.
    Cld,
    /// Clear interrupt disable.
    Cli,
    /// Clear overflow.
    Clv,
    /// Compare with A.
    Cmp,
    /// Compare with X.
    Cpx,
    /// Compare with Y.
    Cpy,
    /// Decrement memory.
    Dec,
    /// Decrement X.
    Dex,
    /// Decrement Y.
    Dey,
    /// Bitwise XOR with A.
    Eor,
    /// Increment memory.
    Inc,
    /// Increment X.
    Inx,
    /// Increment Y.
    Iny,
    /// Jump.
    Jmp,
    /// Jump to subroutine.
    Jsr,
    /// Load A.
    Lda,
    /// Load X.
    Ldx,
    /// Load Y.
    Ldy,
    /// Logical shift right.
    Lsr,
    /// No operation.
    Nop,
    /// Bitwise OR with A.
    Ora,
    /// Push A.
    Pha,
    /// Push status.
    Php,
    /// Pull A.
    Pla,
    /// Pull status.
    Plp,
    /// Rotate left.
    Rol,
    /// Rotate right.
    Ror,
    /// Return from interrupt.
    Rti,
    /// Return from subroutine.
    Rts,
    /// Subtract with carry.
    Sbc,
    /// Set carry.
    Sec,
    /// Set decimal.
    Sed,
    /// Set interrupt disable.
    Sei,
    /// Store A.
    Sta,
    /// Store X.
    Stx,
    /// Store Y.
    Sty,
    /// Transfer A to X.
    Tax,
    /// Transfer A to Y.
    Tay,
    /// Transfer S to X.
    Tsx,
    /// Transfer X to A.
    Txa,
    /// Transfer X to S.
    Txs,
    /// Transfer Y to A.
    Tya,
}

/// How an instruction finds its operand.
#[derive(Debug, Clone, Copy, PartialEq, Eq, Structural)]
pub enum Mode {
    /// No operand.
    Implied,
    /// The accumulator.
    Accumulator,
    /// The byte after the opcode.
    Immediate,
    /// The byte after the opcode, a signed branch offset.
    Relative,
    /// An address in the zero page.
    ZeroPage,
    /// A zero-page address plus X, wrapping within the zero page.
    ZeroPageX,
    /// A zero-page address plus Y, wrapping within the zero page.
    ZeroPageY,
    /// A full address.
    Absolute,
    /// A full address plus X.
    AbsoluteX,
    /// A full address plus Y.
    AbsoluteY,
    /// (zp,X).
    IndexedIndirect,
    /// (zp),Y.
    IndirectIndexed,
    /// The jump target of JMP abs and JSR.
    JumpAbsolute,
    /// The jump target of JMP (ind).
    JumpIndirect,
}

/// What an addressing mode yields.
#[derive(Debug, Clone, Copy, PartialEq, Eq, Structural)]
pub enum Operand {
    Implied,
    Data(AddrMode),
    Target(u16),
}

/// The data operand, or the accumulator when there is none.
pub open spec fn data_of(o: Operand) -> AddrMode {
    match o {
        Operand::Data(m) => m,
        _ => AddrMode::Accumulator,
    }
}

/// The jump target, or 0 when there is none.
pub open spec fn target_of(o: Operand) -> u16 {
    match o {
        Operand::Target(t) => t,
        _ => 0,
    }
}

/// The instruction, addressing mode and base cycle count of each opcode that is implemented:
/// all official opcodes and a few unofficial NOPs.
pub open spec fn decode_spec(opcode: u8) -> Option<(Op, Mode, u8)> {
    match opcode {
        0x00 => Some((Op::Brk, Mode::Implied, 7)),
        0x01 => Some((Op::Ora, Mode::IndexedIndirect, 6)),
        0x04 | 0x44 | 0x64 => Some((Op::Nop, Mode::ZeroPage, 3)),
        0x05 => Some((Op::Ora, Mode::ZeroPage, 3)),
        0x06 => Some((Op::Asl, Mode::ZeroPage, 5)),
        0x08 => Some((Op::Php, Mode::Implied, 3)),
        0x09 => Some((Op::Ora, Mode::Immediate, 2)),
        0x0A => Some((Op::Asl, Mode::Accumulator, 2)),
        0x0C => Some((Op::Nop, Mode::Absolute, 4)),
        0x0D => Some((Op::Ora, Mode::Absolute, 4)),
        0x0E => Some((Op::Asl, Mode::Absolute, 6)),
        0x10 => Some((Op::Bpl, Mode::Relative, 2)),
        0x11 => Some((Op::Ora, Mode::IndirectIndexed, 5)),
        0x14 | 0x34 | 0x54 | 0x74 | 0xD4 | 0xF4 => Some((Op::Nop, Mode::ZeroPageX, 4)),
        0x15 => Some((Op::Ora, Mode::ZeroPageX, 4)),
        0x16 => Some((Op::Asl, Mode::ZeroPageX, 6)),
        0x18 => Some((Op::Clc, Mode::Implied, 2)),
        0x19 => Some((Op::Ora, Mode::AbsoluteY, 4)),
        0x1A | 0x3A | 0x5A | 0x7A | 0xDA | 0xEA | 0xFA => Some((Op::Nop, Mode::Implied, 2)),
        0x1D => Some((Op::Ora, Mode::AbsoluteX, 4)),
        0x1E => Some((Op::Asl, Mode::AbsoluteX, 7)),
        0x20 => Some((Op::Jsr, Mode::JumpAbsolute, 6)),
        0x21 => Some((Op::And, Mode::IndexedIndirect, 6)),
        0x24 => Some((Op::Bit, Mode::ZeroPage, 3)),
        0x25 => Some((Op::And, Mode::ZeroPage, 3)),
        0x26 => Some((Op::Rol, Mode::ZeroPage, 5)),
        0x28 => Some((Op::Plp, Mode::Implied, 4)),
        0x29 => Some((Op::And, Mode::Immediate, 2)),
        0x2A => Some((Op::Rol, Mode::Accumulator, 2)),
        0x2C => Some((Op::Bit, Mode::Absolute, 4)),
        0x2D => Some((Op::And, Mode::Absolute, 4)),
        0x2E => Some((Op::Rol, Mode::Absolute, 6)),
        0x30 => Some((Op::Bmi, Mode::Relative, 2)),
        0x31 => Some((Op::And, Mode::IndirectIndexed, 5)),
        0x35 => Some((Op::And, Mode::ZeroPageX, 4)),
        0x36 => Some((Op::Rol, Mode::ZeroPageX, 6)),
        0x38 => Some((Op::Sec, Mode::Implied, 2)),
        0x39 => Some((Op::And, Mode::AbsoluteY, 4)),
        0x3D => Some((Op::And, Mode::AbsoluteX, 4)),
        0x3E => Some((Op::Rol, Mode::AbsoluteX, 7)),
        0x40 => Some((Op::Rti, Mode::Implied, 6)),
        0x41 => Some((Op::Eor, Mode::IndexedIndirect, 6)),
        0x45 => Some((Op::Eor, Mode::ZeroPage, 3)),
        0x46 => Some((Op::Lsr, Mode::ZeroPage, 5)),
        0x48 => Some((Op::Pha, Mode::Implied, 3)),
        0x49 => Some((Op::Eor, Mode::Immediate, 2)),
        0x4A => Some((Op::Lsr, Mode::Accumulator, 2)),
        0x4C => Some((Op::Jmp, Mode::JumpAbsolute, 3)),
        0x4D => Some((Op::Eor, Mode::Absolute, 4)),
        0x4E => Some((Op::Lsr, Mode::Absolute, 6)),
        0x50 => Some((Op::Bvc, Mode::Relative, 2)),
        0x51 => Some((Op::Eor, Mode::IndirectIndexed, 5)),
        0x55 => Some((Op::Eor, Mode::ZeroPageX, 4)),
        0x56 => Some((Op::Lsr, Mode::ZeroPageX, 6)),
        0x58 => Some((Op::Cli, Mode::Implied, 2)),
        0x59 => Some((Op::Eor, Mode::AbsoluteY, 4)),
        0x5D => Some((Op::Eor, Mode::AbsoluteX, 4)),
        0x5E => Some((Op::Lsr, Mode::AbsoluteX, 7)),
        0x60 => Some((Op::Rts, Mode::Implied, 6)),
        0x61 => Some((Op::Adc, Mode::IndexedIndirect, 6)),
        0x65 => Some((Op::Adc, Mode::ZeroPage, 3)),
        0x66 => Some((Op::Ror, Mode::ZeroPage, 5)),
        0x68 => Some((Op::Pla, Mode::Implied, 4)),
        0x69 => Some((Op::Adc, Mode::Immediate, 2)),
        0x6A => Some((Op::Ror, Mode::Accumulator, 2)),
        0x6C => Some((Op::Jmp, Mode::JumpIndirect, 5)),
        0x6D => Some((Op::Adc, Mode::Absolute, 4)),
        0x6E => Some((Op::Ror, Mode::Absolute, 6)),
        0x70 => Some((Op::Bvs, Mode::Relative, 2)),
        0x71 => Some((Op::Adc, Mode::IndirectIndexed, 5)),
        0x75 => Some((Op::Adc, Mode::ZeroPageX, 4)),
        0x76 => Some((Op::Ror, Mode::ZeroPageX, 6)),
        0x78 => Some((Op::Sei, Mode::Implied, 2)),
        0x79 => Some((Op::Adc, Mode::AbsoluteY, 4)),
        0x7D => Some((Op::Adc, Mode::AbsoluteX, 4)),
        0x7E => Some((Op::Ror, Mode::AbsoluteX, 7)),
        0x80 | 0x82 | 0x89 | 0xC2 | 0xE2 => Some((Op::Nop, Mode::Immediate, 2)),
        0x81 => Some((Op::Sta, Mode::IndexedIndirect, 6)),
        0x84 => Some((Op::Sty, Mode::ZeroPage, 3)),
        0x85 => Some((Op::Sta, Mode::ZeroPage, 3)),
        0x86 => Some((Op::Stx, Mode::ZeroPage, 3)),
        0x88 => Some((Op::Dey, Mode::Implied, 2)),
        0x8A => Some((Op::Txa, Mode::Implied, 2)),
        0x8C => Some((Op::Sty, Mode::Absolute, 4)),
        0x8D => Some((Op::Sta, Mode::Absolute, 4)),
        0x8E => Some((Op::Stx, Mode::Absolute, 4)),
        0x90 => Some((Op::Bcc, Mode::Relative, 2)),
        0x91 => Some((Op::Sta, Mode::IndirectIndexed, 6)),
        0x94 => Some((Op::Sty, Mode::ZeroPageX, 4)),
        0x95 => Some((Op::Sta, Mode::ZeroPageX, 4)),
        0x96 => Some((Op::Stx, Mode::ZeroPageY, 4)),
        0x98 => Some((Op::Tya, Mode::Implied, 2)),
        0x99 => Some((Op::Sta, Mode::AbsoluteY, 5)),
        0x9A => Some((Op::Txs, Mode::Implied, 2)),
        0x9D => Some((Op::Sta, Mode::AbsoluteX, 5)),
        0xA0 => Some((Op::Ldy, Mode::Immediate, 2)),
        0xA1 => Some((Op::Lda, Mode::IndexedIndirect, 6)),
        0xA2 => Some((Op::Ldx, Mode::Immediate, 2)),
        0xA4 => Some((Op::Ldy, Mode::ZeroPage, 3)),
        0xA5 => Some((Op::Lda, Mode::ZeroPage, 3)),
        0xA6 => Some((Op::Ldx, Mode::ZeroPage, 3)),
        0xA8 => Some((Op::Tay, Mode::Implied, 2)),
        0xA9 => Some((Op::Lda, Mode::Immediate, 2)),
        0xAA => Some((Op::Tax, Mode::Implied, 2)),
        0xAC => Some((Op::Ldy, Mode::Absolute, 4)),
        0xAD => Some((Op::Lda, Mode::Absolute, 4)),
        0xAE => Some((Op::Ldx, Mode::Absolute, 4)),
        0xB0 => Some((Op::Bcs, Mode::Relative, 2)),
        0xB1 => Some((Op::Lda, Mode::IndirectIndexed, 5)),
        0xB4 => Some((Op::Ldy, Mode::ZeroPageX, 4)),
        0xB5 => Some((Op::Lda, Mode::ZeroPageX, 4)),
        0xB6 => Some((Op::Ldx, Mode::ZeroPageY, 4)),
        0xB8 => Some((Op::Clv, Mode::Implied, 2)),
        0xB9 => Some((Op::Lda, Mode::AbsoluteY, 4)),
        0xBA => Some((Op::Tsx, Mode::Implied, 2)),
        0xBC => Some((Op::Ldy, Mode::AbsoluteX, 4)),
        0xBD => Some((Op::Lda, Mode::AbsoluteX, 4)),
        0xBE => Some((Op::Ldx, Mode::AbsoluteY, 4)),
        0xC0 => Some((Op::Cpy, Mode::Immediate, 2)),
        0xC1 => Some((Op::Cmp, Mode::IndexedIndirect, 6)),
        0xC4 => Some((Op::Cpy, Mode::ZeroPage, 3)),
        0xC5 => Some((Op::Cmp, Mode::ZeroPage, 3)),
        0xC6 => Some((Op::Dec, Mode::ZeroPage, 5)),
        0xC8 => Some((Op::Iny, Mode::Implied, 2)),
        0xC9 => Some((Op::Cmp, Mode::Immediate, 2)),
        0xCA => Some((Op::Dex, Mode::Implied, 2)),
        0xCC => Some((Op::Cpy, Mode::Absolute, 4)),
        0xCD => Some((Op::Cmp, Mode::Absolute, 4)),
        0xCE => Some((Op::Dec, Mode::Absolute, 6)),
        0xD0 => Some((Op::Bne, Mode::Relative, 2)),
        0xD1 => Some((Op::Cmp, Mode::IndirectIndexed, 5)),
        0xD5 => Some((Op::Cmp, Mode::ZeroPageX, 4)),
        0xD6 => Some((Op::Dec, Mode::ZeroPageX, 6)),
        0xD8 => Some((Op::Cld, Mode::Implied, 2)),
        0xD9 => Some((Op::Cmp, Mode::AbsoluteY, 4)),
        0xDD => Some((Op::Cmp, Mode::AbsoluteX, 4)),
        0xDE => Some((Op::Dec, Mode::AbsoluteX, 7)),
        0xE0 => Some((Op::Cpx, Mode::Immediate, 2)),
        0xE1 => Some((Op::Sbc, Mode::IndexedIndirect, 6)),
        0xE4 => Some((Op::Cpx, Mode::ZeroPage, 3)),
        0xE5 => Some((Op::Sbc, Mode::ZeroPage, 3)),
        0xE6 => Some((Op::Inc, Mode::ZeroPage, 5)),
        0xE8 => Some((Op::Inx, Mode::Implied, 2)),
        0xE9 => Some((Op::Sbc, Mode::Immediate, 2)),
        0xEC => Some((Op::Cpx, Mode::Absolute, 4)),
        0xED => Some((Op::Sbc, Mode::Absolute, 4)),
        0xEE => Some((Op::Inc, Mode::Absolute, 6)),
        0xF0 => Some((Op::Beq, Mode::Relative, 2)),
        0xF1 => Some((Op::Sbc, Mode::IndirectIndexed, 5)),
        0xF5 => Some((Op::Sbc, Mode::ZeroPageX, 4)),
        0xF6 => Some((Op::Inc, Mode::ZeroPageX, 6)),
        0xF8 => Some((Op::Sed, Mode::Implied, 2)),
        0xF9 => Some((Op::Sbc, Mode::AbsoluteY, 4)),
        0xFD => Some((Op::Sbc, Mode::AbsoluteX, 4)),
        0xFE => Some((Op::Inc, Mode::AbsoluteX, 7)),
        _ => None,
    }
}

/// The opcode is implemented.
pub open spec fn supported(opcode: u8) -> bool {
    decode_spec(opcode) is Some
}

/// The registers after the operand bytes are fetched, and the operand they designate.
pub open spec fn resolve_spec(mode: Mode, r: Registers, mem: Mem) -> (Registers, Operand) {
    match mode {
        Mode::Implied => (r, Operand::Implied),
        Mode::Accumulator => (r, Operand::Data(AddrMode::Accumulator)),
        Mode::Immediate | Mode::Relative => (
            advance(r, 1),
            Operand::Data(AddrMode::Immediate(fetch(r, mem, 0))),
        ),
        Mode::ZeroPage => (advance(r, 1), Operand::Data(zero_page_spec(r, mem))),
        Mode::ZeroPageX => (advance(r, 1), Operand::Data(zero_page_x_spec(r, mem))),
        Mode::ZeroPageY => (advance(r, 1), Operand::Data(zero_page_y_spec(r, mem))),
        Mode::Absolute => (
            advance(r, 2),
            Operand::Data(AddrMode::Memory(operand_word(r, mem), false)),
        ),
        Mode::AbsoluteX => (advance(r, 2), Operand::Data(absolute_x_spec(r, mem))),
        Mode::AbsoluteY => (advance(r, 2), Operand::Data(absolute_y_spec(r, mem))),
        Mode::IndexedIndirect => (advance(r, 1), Operand::Data(indexed_indirect_spec(r, mem))),
        Mode::IndirectIndexed => (advance(r, 1), Operand::Data(indirect_indexed_spec(r, mem))),
        Mode::JumpAbsolute => (advance(r, 2), Operand::Target(operand_word(r, mem))),
        Mode::JumpIndirect => (advance(r, 2), Operand::Target(jump_indirect_spec(r, mem))),
    }
}

/// The effect of an instruction that changes only the registers.
pub open spec fn regs_only(r: Registers, mem: Mem, extra: u8) -> (Registers, Mem, u8) {
    (r, mem, extra)
}

/// The effect of an instruction that may also write to the bus.
pub open spec fn with_mem(rm: (Registers, Mem), extra: u8) -> (Registers, Mem, u8) {
    (rm.0, rm.1, extra)
}

/// What one instruction does with its operand: the registers, the bus and the extra cycles.
pub open spec fn op_spec<B: Bus>(op: Op, o: Operand, r: Registers, mem: Mem) -> (
    Registers,
    Mem,
    u8,
) {
    let m = data_of(o);
    let v = m.load_spec(r, mem);
    match op {
        Op::Lda => regs_only(with_a(r, v), mem, m.extra_spec()),
        Op::Ldx => regs_only(with_x(r, v), mem, m.extra_spec()),
        Op::Ldy => regs_only(with_y(r, v), mem, m.extra_spec()),
        Op::Sta => with_mem(m.store_spec::<B>(r, mem, r.a), 0),
        Op::Stx => with_mem(m.store_spec::<B>(r, mem, r.x), 0),
        Op::Sty => with_mem(m.store_spec::<B>(r, mem, r.y), 0),
        Op::Tax => regs_only(with_x(r, r.a), mem, 0),
        Op::Tsx => regs_only(with_x(r, r.sp), mem, 0),
        Op::Txa => regs_only(with_a(r, r.x), mem, 0),
        Op::Tya => regs_only(with_a(r, r.y), mem, 0),
        Op::Tay => regs_only(with_y(r, r.a), mem, 0),
        Op::Txs => regs_only(Registers { sp: r.x, ..r }, mem, 0),
        Op::Adc => regs_only(adc_spec(r, v), mem, m.extra_spec()),
        Op::Sbc => regs_only(sbc_spec(r, v), mem, m.extra_spec()),
        Op::Inc => with_mem(step_memory_spec::<B>(m, r, mem, true), 0),
        Op::Dec => with_mem(step_memory_spec::<B>(m, r, mem, false), 0),
        Op::Inx => regs_only(with_x(r, wrap8(r.x + 1)), mem, 0),
        Op::Dex => regs_only(with_x(r, wrap8(r.x + 0xFF)), mem, 0),
        Op::Iny => regs_only(with_y(r, wrap8(r.y + 1)), mem, 0),
        Op::Dey => regs_only(with_y(r, wrap8(r.y + 0xFF)), mem, 0),
        Op::Asl => with_mem(shift_op_spec::<B>(Shift::Asl, m, r, mem), 0),
        Op::Lsr => with_mem(shift_op_spec::<B>(Shift::Lsr, m, r, mem), 0),
        Op::Rol => with_mem(shift_op_spec::<B>(Shift::Rol, m, r, mem), 0),
        Op::Ror => with_mem(shift_op_spec::<B>(Shift::Ror, m, r, mem), 0),
        Op::And => regs_only(with_a(r, r.a & v), mem, m.extra_spec()),
        Op::Ora => regs_only(with_a(r, r.a | v), mem, m.extra_spec()),
        Op::Eor => regs_only(with_a(r, r.a ^ v), mem, m.extra_spec()),
        Op::Bit => regs_only(bit_test_spec(r, v), mem, 0),
        Op::Cmp => regs_only(
            Registers { ps: Status(compare_spec(r.ps.0, r.a, v)), ..r },
            mem,
            m.extra_spec(),
        ),
        Op::Cpx => regs_only(Registers { ps: Status(compare_spec(r.ps.0, r.x, v)), ..r }, mem, 0),
        Op::Cpy => regs_only(Registers { ps: Status(compare_spec(r.ps.0, r.y, v)), ..r }, mem, 0),
        Op::Jmp => regs_only(Registers { pc: target_of(o), ..r }, mem, 0),
        Op::Jsr => with_mem(jsr_spec::<B>(r, mem, target_of(o)), 0),
        Op::Rts => regs_only(rts_spec(r, mem), mem, 0),
        Op::Brk => with_mem(brk_spec::<B>(r, mem), 0),
        Op::Rti => regs_only(rti_spec(r, mem), mem, 0),
        Op::Pha => with_mem(push_spec::<B>(r, mem, r.a), 0),
        Op::Pla => regs_only(pla_spec(r, mem), mem, 0),
        Op::Php => with_mem(push_spec::<B>(r, mem, pushable(r.ps.0)), 0),
        Op::Plp => regs_only(plp_spec(r, mem), mem, 0),
        Op::Bcc => branch_result(cond_branch_spec(r, m, mem, !flag(r.ps.0, CARRY)), mem),
        Op::Bcs => branch_result(cond_branch_spec(r, m, mem, flag(r.ps.0, CARRY)), mem),
        Op::Beq => branch_result(cond_branch_spec(r, m, mem, flag(r.ps.0, ZERO)), mem),
        Op::Bne => branch_result(cond_branch_spec(r, m, mem, !flag(r.ps.0, ZERO)), mem),
        Op::Bpl => branch_result(cond_branch_spec(r, m, mem, !flag(r.ps.0, NEGATIVE)), mem),
        Op::Bmi => branch_result(cond_branch_spec(r, m, mem, flag(r.ps.0, NEGATIVE)), mem),
        Op::Bvc => branch_result(cond_branch_spec(r, m, mem, !flag(r.ps.0, OVERFLOW)), mem),
        Op::Bvs => branch_result(cond_branch_spec(r, m, mem, flag(r.ps.0, OVERFLOW)), mem),
        Op::Clc => regs_only(with_flag(r, CARRY, false), mem, 0),
        Op::Sec => regs_only(with_flag(r, CARRY, true), mem, 0),
        Op::Cli => regs_only(with_flag(r, INTERRUPT, false), mem, 0),
        Op::Sei => regs_only(with_flag(r, INTERRUPT, true), mem, 0),
        Op::Cld => regs_only(with_flag(r, DECIMAL, false), mem, 0),
        Op::Sed => regs_only(with_flag(r, DECIMAL, true), mem, 0),
        Op::Clv => regs_only(with_flag(r, OVERFLOW, false), mem, 0),
        Op::Nop => regs_only(r, mem, 0),
    }
}

/// A branch changes only the registers.
pub open spec fn branch_result(re: (Registers, u8), mem: Mem) -> (Registers, Mem, u8) {
    (re.0, mem, re.1)
}

/// One instruction whose opcode has already been fetched: the registers and the bus afterwards,
/// and the number of cycles the instruction takes in hardware.
pub open spec fn step_spec<B: Bus>(r: Registers, mem: Mem, opcode: u8) -> (Registers, Mem, u8) {
    match decode_spec(opcode) {
        Some((op, mode, base)) => {
            let (r1, o) = resolve_spec(mode, r, mem);
            let (r2, m2, extra) = op_spec::<B>(op, o, r1, mem);
            (r2, m2, (base + extra) as u8)
        },
        None => (r, mem, 0),
    }
}

/// Every address that fetching the operand reads can be read.
pub open spec fn resolve_ok<B: Bus>(mode: Mode, r: Registers, bus: B) -> bool {
    let mem = bus.mem();
    match mode {
        Mode::Implied | Mode::Accumulator => true,
        Mode::Immediate | Mode::Relative | Mode::ZeroPage | Mode::ZeroPageX | Mode::ZeroPageY => {
            bus.readable(pc_at(r, 0))
        },
        Mode::Absolute | Mode::AbsoluteX | Mode::AbsoluteY | Mode::JumpAbsolute => {
            bus.readable(pc_at(r, 0)) && bus.readable(pc_at(r, 1))
        },
        Mode::IndexedIndirect => {
            let ptr = (fetch(r, mem, 0) + r.x) % 256;
            bus.readable(pc_at(r, 0)) && bus.readable(ptr as u16) && bus.readable(
                ((ptr + 1) % 256) as u16,
            )
        },
        Mode::IndirectIndexed => {
            let zp = fetch(r, mem, 0);
            bus.readable(pc_at(r, 0)) && bus.readable(zp as u16) && bus.readable(
                ((zp + 1) % 256) as u16,
            )
        },
        Mode::JumpIndirect => {
            let lo = fetch(r, mem, 0);
            let hi = fetch(r, mem, 1);
            &&& bus.readable(pc_at(r, 0))
            &&& bus.readable(pc_at(r, 1))
            &&& bus.readable(word(lo, hi))
            &&& bus.readable(word(((lo + 1) % 256) as u8, hi))
        },
    }
}

/// Every address that the instruction reads with its operand and registers can be read, and
/// every address it writes can be written.
pub open spec fn op_ok<B: Bus>(op: Op, o: Operand, r: Registers, bus: B) -> bool {
    let m = data_of(o);
    match op {
        Op::Lda | Op::Ldx | Op::Ldy | Op::Adc | Op::Sbc | Op::And | Op::Ora | Op::Eor | Op::Bit
        | Op::Cmp | Op::Cpx | Op::Cpy | Op::Bcc | Op::Bcs | Op::Beq | Op::Bne | Op::Bpl | Op::Bmi
        | Op::Bvc | Op::Bvs => m.load_ok(bus),
        Op::Sta | Op::Stx | Op::Sty => m.store_ok(bus),
        Op::Inc | Op::Dec | Op::Asl | Op::Lsr | Op::Rol | Op::Ror => m.load_ok(bus) && m.store_ok(
            bus,
        ),
        Op::Pha | Op::Php => bus.writable(stack_addr(r.sp)),
        Op::Pla | Op::Plp => bus.readable(stack_addr(wrap8(r.sp + 1))),
        Op::Jsr => bus.writable(stack_addr(r.sp)) && bus.writable(stack_addr(wrap8(r.sp + 0xFF))),
        Op::Rts => bus.readable(stack_addr(wrap8(r.sp + 1))) && bus.readable(
            stack_addr(wrap8(r.sp + 2)),
        ),
        Op::Rti => {
            &&& bus.readable(stack_addr(wrap8(r.sp + 1)))
            &&& bus.readable(stack_addr(wrap8(r.sp + 2)))
            &&& bus.readable(stack_addr(wrap8(r.sp + 3)))
        },
        Op::Brk => {
            &&& bus.writable(stack_addr(r.sp))
            &&& bus.writable(stack_addr(wrap8(r.sp + 0xFF)))
            &&& bus.writable(stack_addr(wrap8(r.sp + 0x1FE)))
            &&& bus.readable(IRQ_BASE)
            &&& bus.readable((IRQ_BASE + 1) as u16)
        },
        _ => true,
    }
}

/// The instruction of `opcode` is implemented, and every address it reads or writes, with the
/// registers `r` after the opcode is fetched, can be read or written.
pub open spec fn step_ok<B: Bus>(r: Registers, bus: B, opcode: u8) -> bool {
    match decode_spec(opcode) {
        Some((op, mode, _)) => {
            let (r1, o) = resolve_spec(mode, r, bus.mem());
            resolve_ok(mode, r, bus) && op_ok(op, o, r1, bus)
        },
        None => false,
    }
}

/// Whether an instruction can run depends only on what the bus holds and on which addresses
/// can be read or written.
pub proof fn lemma_step_ok_frame<B: Bus>(r: Registers, b1: B, b2: B, opcode: u8)
    requires
        step_ok::<B>(r, b1, opcode),
        b1.mem() == b2.mem(),
        forall|a: u16| #[trigger] b1.readable(a) == b2.readable(a),
        forall|a: u16| #[trigger] b1.writable(a) == b2.writable(a),
    ensures
        step_ok::<B>(r, b2, opcode),
{
}

/// How many of the opcodes below `n` are implemented.
pub open spec fn count_supported(n: nat) -> nat
    decreases n,
{
    if n == 0 {
        0
    } else {
        count_supported((n - 1) as nat) + if supported((n - 1) as u8) {
            1nat
        } else {
            0nat
        }
    }
}

/// All official opcodes and a few unofficial ones are implemented, for a total of 172.
pub proof fn lemma_opcode_count()
    ensures
        count_supported(256) == 172,
{
    reveal_with_fuel(count_supported, 17);
    assert(count_supported(16) == 11);
    assert(count_supported(32) == 21);
    assert(count_supported(48) == 32);
    assert(count_supported(64) == 42);
    assert(count_supported(80) == 53);
    assert(count_supported(96) == 63);
    assert(count_supported(112) == 74);
    assert(count_supported(128) == 84);
    assert(count_supported(144) == 96);
    assert(count_supported(160) == 105);
    assert(count_supported(176) == 117);
    assert(count_supported(192) == 128);
    assert(count_supported(208) == 140);
    assert(count_supported(224) == 150);
    assert(count_supported(240) == 162);
    assert(count_supported(256) == 172);
}

} // verus!
