use nes::cpu::addressing::{jump_indirect, AddrMode};
use nes::cpu::instructions::{
    adc, and, asl, bcc, beq, bit, bne, brk, clc, cmp, cpx, dec, eor, inc, jsr, lda, lsr, nop,
    ora, pha, php, pla, plp, rol, ror, rti, rts, sbc, sec, sta, tax, txs,
};
use nes::{Bus, NesBus, Registers, Status};

fn regs(a: u8, p: u8) -> Registers {
    Registers { pc: 0x0600, sp: 0xFD, a, x: 0, y: 0, ps: Status(p) }
}

const C: u8 = 0x01;
const Z: u8 = 0x02;
const V: u8 = 0x40;
const N: u8 = 0x80;

#[test]
fn instr_lda_sets_zero_and_negative() {
    let bus = NesBus::default();
    let mut r = regs(5, 0);
    assert_eq!(lda(&mut r, &bus, AddrMode::Immediate(0)), 0);
    assert_eq!(r.a, 0);
    assert_eq!(r.ps.0, Z);
    assert_eq!(lda(&mut r, &bus, AddrMode::Immediate(0x90)), 0);
    assert_eq!(r.ps.0, N);
    // A page-crossing read costs one more cycle.
    assert_eq!(lda(&mut r, &bus, AddrMode::Memory(0x0100, true)), 1);
}

#[test]
fn instr_adc_carry_and_overflow() {
    let bus = NesBus::default();
    // 0x50 + 0x50 = 0xA0: signed overflow, no carry.
    let mut r = regs(0x50, 0);
    adc(&mut r, &bus, AddrMode::Immediate(0x50));
    assert_eq!(r.a, 0xA0);
    assert_eq!(r.ps.0, V | N);
    // 0xFF + 0x01 = 0x00 with carry.
    let mut r = regs(0xFF, 0);
    adc(&mut r, &bus, AddrMode::Immediate(0x01));
    assert_eq!(r.a, 0);
    assert_eq!(r.ps.0, Z | C);
    // 0x80 + 0xFF + carry = 0x80 with carry, no overflow.
    let mut r = regs(0x80, C);
    adc(&mut r, &bus, AddrMode::Immediate(0xFF));
    assert_eq!(r.a, 0x80);
    assert_eq!(r.ps.0, N | C);
    // 0x80 + 0x80 = 0x00: carry and overflow.
    let mut r = regs(0x80, 0);
    adc(&mut r, &bus, AddrMode::Immediate(0x80));
    assert_eq!(r.a, 0);
    assert_eq!(r.ps.0, Z | C | V);
}

#[test]
fn instr_sbc_borrow_and_overflow() {
    let bus = NesBus::default();
    // 5 - 3 with carry set (no borrow) = 2, carry stays set.
    let mut r = regs(5, C);
    sbc(&mut r, &bus, AddrMode::Immediate(3));
    assert_eq!(r.a, 2);
    assert_eq!(r.ps.0, C);
    // 5 - 3 - 1 (carry clear) = 1.
    let mut r = regs(5, 0);
    sbc(&mut r, &bus, AddrMode::Immediate(3));
    assert_eq!(r.a, 1);
    assert_eq!(r.ps.0, C);
    // 0 - 1 = 0xFF with borrow.
    let mut r = regs(0, C);
    sbc(&mut r, &bus, AddrMode::Immediate(1));
    assert_eq!(r.a, 0xFF);
    assert_eq!(r.ps.0, N);
    // 0x80 - 1 = 0x7F: signed overflow.
    let mut r = regs(0x80, C);
    sbc(&mut r, &bus, AddrMode::Immediate(1));
    assert_eq!(r.a, 0x7F);
    assert_eq!(r.ps.0, C | V);
}

#[test]
fn instr_sbc_equals_adc_of_complement() {
    let bus = NesBus::default();
    for a in [0u8, 1, 0x7F, 0x80, 0xC3, 0xFF] {
        for v in [0u8, 1, 0x40, 0x7F, 0x80, 0xFE, 0xFF] {
            for p in [0u8, C, C | V | N | Z] {
                let mut r1 = regs(a, p);
                sbc(&mut r1, &bus, AddrMode::Immediate(v));
                let mut r2 = regs(a, p);
                adc(&mut r2, &bus, AddrMode::Immediate(!v));
                assert_eq!((r1.a, r1.ps.0), (r2.a, r2.ps.0));
            }
        }
    }
}

#[test]
fn instr_compare_flags() {
    let bus = NesBus::default();
    let mut r = regs(0x10, 0);
    cmp(&mut r, &bus, AddrMode::Immediate(0x10));
    assert_eq!(r.ps.0, Z | C);
    cmp(&mut r, &bus, AddrMode::Immediate(0x20));
    assert_eq!(r.ps.0, N);
    cmp(&mut r, &bus, AddrMode::Immediate(0x01));
    assert_eq!(r.ps.0, C);
    r.x = 3;
    cpx(&mut r, &bus, AddrMode::Immediate(4));
    assert_eq!(r.ps.0, N);
    assert_eq!(r.a, 0x10);
}

#[test]
fn instr_bitwise() {
    let bus = NesBus::default();
    let mut r = regs(0b1100, 0);
    and(&mut r, &bus, AddrMode::Immediate(0b1010));
    assert_eq!(r.a, 0b1000);
    ora(&mut r, &bus, AddrMode::Immediate(0b0001));
    assert_eq!(r.a, 0b1001);
    eor(&mut r, &bus, AddrMode::Immediate(0b1001));
    assert_eq!(r.a, 0);
    assert_eq!(r.ps.0, Z);
    // BIT copies bits 7 and 6 of the operand and tests A AND operand.
    let mut r = regs(0x01, 0);
    bit(&mut r, &bus, AddrMode::Immediate(0xC0));
    assert_eq!(r.ps.0, Z | N | V);
    assert_eq!(r.a, 1);
}

#[test]
fn instr_shifts() {
    let mut bus = NesBus::default();
    let mut r = regs(0x81, 0);
    asl(&mut r, &mut bus, AddrMode::Accumulator);
    assert_eq!(r.a, 0x02);
    assert_eq!(r.ps.0, C);
    lsr(&mut r, &mut bus, AddrMode::Accumulator);
    assert_eq!(r.a, 0x01);
    assert_eq!(r.ps.0, 0);
    lsr(&mut r, &mut bus, AddrMode::Accumulator);
    assert_eq!(r.a, 0);
    assert_eq!(r.ps.0, Z | C);
    // ROL takes the carry in at bit 0, ROR at bit 7.
    rol(&mut r, &mut bus, AddrMode::Accumulator);
    assert_eq!(r.a, 1);
    assert_eq!(r.ps.0, 0);
    let mut r = regs(0x01, C);
    ror(&mut r, &mut bus, AddrMode::Accumulator);
    assert_eq!(r.a, 0x80);
    assert_eq!(r.ps.0, C | N);
    // Shifting memory.
    bus.write(0x10, 0x40);
    let mut r = regs(0, 0);
    asl(&mut r, &mut bus, AddrMode::Memory(0x10, false));
    assert_eq!(bus.read(0x10), 0x80);
    assert_eq!(r.ps.0, N);
}

#[test]
fn instr_rol_ror_round_trip() {
    let mut bus = NesBus::default();
    for a in [0u8, 1, 0x80, 0xA5, 0xFF] {
        for p in [0u8, C] {
            let mut r = regs(a, p);
            rol(&mut r, &mut bus, AddrMode::Accumulator);
            ror(&mut r, &mut bus, AddrMode::Accumulator);
            assert_eq!(r.a, a);
            assert_eq!(r.ps.0 & C, p);
        }
    }
}

#[test]
fn instr_inc_dec_memory() {
    let mut bus = NesBus::default();
    bus.write(0x20, 0xFF);
    let mut r = regs(0, 0);
    inc(&mut r, &mut bus, AddrMode::Memory(0x20, false));
    assert_eq!(bus.read(0x20), 0);
    assert_eq!(r.ps.0, Z);
    dec(&mut r, &mut bus, AddrMode::Memory(0x20, false));
    assert_eq!(bus.read(0x20), 0xFF);
    assert_eq!(r.ps.0, N);
    assert_eq!(bus.read(0x820), 0xFF);
}

#[test]
fn instr_store_and_transfer() {
    let mut bus = NesBus::default();
    let mut r = regs(0x42, 0);
    sta(&mut r, &mut bus, AddrMode::Memory(0x0300, false));
    assert_eq!(bus.read(0x0300), 0x42);
    tax(&mut r);
    assert_eq!(r.x, 0x42);
    r.x = 0;
    txs(&mut r);
    assert_eq!(r.sp, 0);
    // TXS does not touch the flags.
    assert_eq!(r.ps.0, 0);
}

#[test]
fn instr_stack_push_pull() {
    let mut bus = NesBus::default();
    let mut r = regs(0x99, C | V);
    pha(&mut r, &mut bus);
    assert_eq!(bus.read(0x01FD), 0x99);
    assert_eq!(r.sp, 0xFC);
    php(&mut r, &mut bus);
    // The pushed status has bits 4 and 5 set.
    assert_eq!(bus.read(0x01FC), C | V | 0x30);
    r.a = 0;
    r.ps = Status(0);
    plp(&mut r, &bus);
    // The pulled status drops bit 4 and sets bit 5.
    assert_eq!(r.ps.0, C | V | 0x20);
    pla(&mut r, &bus);
    assert_eq!(r.a, 0x99);
    assert_eq!(r.sp, 0xFD);
    assert_eq!(r.ps.0, C | V | 0x20 | N);
}

#[test]
fn instr_stack_pointer_wraps() {
    let mut bus = NesBus::default();
    let mut r = regs(7, 0);
    r.sp = 0;
    pha(&mut r, &mut bus);
    assert_eq!(bus.read(0x0100), 7);
    assert_eq!(r.sp, 0xFF);
    r.a = 0;
    pla(&mut r, &bus);
    assert_eq!(r.a, 7);
    assert_eq!(r.sp, 0);
}

#[test]
fn instr_jsr_rts() {
    let mut bus = NesBus::default();
    let mut r = regs(0, 0);
    r.pc = 0x1234;
    jsr(&mut r, &mut bus, 0x4000);
    assert_eq!(r.pc, 0x4000);
    assert_eq!(bus.read(0x01FD), 0x12);
    assert_eq!(bus.read(0x01FC), 0x33);
    rts(&mut r, &bus);
    assert_eq!(r.pc, 0x1234);
    assert_eq!(r.sp, 0xFD);
}

/// A bus of 64 KiB of RAM, without mirrors.
struct FlatBus {
    ram: Vec<u8>,
}

impl Bus for FlatBus {
    type Hidden = ();

    fn read(&self, addr: u16) -> u8 {
        self.ram[usize::from(addr)]
    }

    fn write(&mut self, addr: u16, value: u8) {
        self.ram[usize::from(addr)] = value;
    }
}

#[test]
fn instr_brk_rti() {
    let mut bus = FlatBus { ram: vec![0; 0x10000] };
    bus.write(0xFFFE, 0x00);
    bus.write(0xFFFF, 0x90);
    let mut r = regs(0, C | N);
    r.pc = 0x0601;
    brk(&mut r, &mut bus);
    assert_eq!(r.pc, 0x9000);
    assert_eq!(r.ps.0, C | N | 0x04);
    assert_eq!(bus.read(0x01FD), 0x06);
    assert_eq!(bus.read(0x01FC), 0x02);
    assert_eq!(bus.read(0x01FB), C | N | 0x30);
    assert_eq!(r.sp, 0xFA);
    rti(&mut r, &bus);
    assert_eq!(r.pc, 0x0602);
    assert_eq!(r.ps.0, C | N | 0x20);
    assert_eq!(r.sp, 0xFD);
}

#[test]
fn instr_branches() {
    let bus = NesBus::default();
    let mut r = regs(0, 0);
    r.pc = 0x0610;
    // Not taken: nothing changes, no extra cycle.
    assert_eq!(beq(&mut r, &bus, AddrMode::Immediate(0x10)), 0);
    assert_eq!(r.pc, 0x0610);
    // Taken forward within the page: one extra cycle.
    assert_eq!(bne(&mut r, &bus, AddrMode::Immediate(0x10)), 1);
    assert_eq!(r.pc, 0x0620);
    // Taken backward across a page: two extra cycles.
    assert_eq!(bcc(&mut r, &bus, AddrMode::Immediate(0xD0)), 2);
    assert_eq!(r.pc, 0x05F0);
    // Wraps at the top of memory.
    r.pc = 0xFFF0;
    assert_eq!(bcc(&mut r, &bus, AddrMode::Immediate(0x20)), 2);
    assert_eq!(r.pc, 0x0010);
}

#[test]
fn instr_flags_and_nop() {
    let mut r = regs(0, 0);
    sec(&mut r);
    assert_eq!(r.ps.0, C);
    clc(&mut r);
    assert_eq!(r.ps.0, 0);
    assert_eq!(nop(), 0);
}

#[test]
fn addressing_modes() {
    let mut bus = FlatBus { ram: vec![0; 0x10000] };
    // Operand bytes at 0x0600.
    bus.write(0x0600, 0xF0);
    bus.write(0x0601, 0x12);
    let mut r = regs(0, 0);
    r.pc = 0x0600;
    r.x = 0x20;
    r.y = 0x10;
    assert_eq!(AddrMode::zero_page_x(&mut r, &bus), AddrMode::Memory(0x10, false));
    assert_eq!(r.pc, 0x0601);
    r.pc = 0x0600;
    assert_eq!(AddrMode::absolute_x(&mut r, &bus), AddrMode::Memory(0x1310, true));
    assert_eq!(r.pc, 0x0602);
    r.pc = 0x0600;
    assert_eq!(AddrMode::absolute_y(&mut r, &bus), AddrMode::Memory(0x1300, true));
    // (zp),Y and (zp,X): pointers in the zero page, wrapping at its end.
    bus.write(0x00F0, 0x34);
    bus.write(0x00F1, 0x12);
    bus.write(0x0010, 0xFF);
    bus.write(0x0011, 0x20);
    r.pc = 0x0600;
    assert_eq!(AddrMode::indirect_indexed(&mut r, &bus), AddrMode::Memory(0x1244, false));
    r.pc = 0x0600;
    assert_eq!(AddrMode::indexed_indirect(&mut r, &bus), AddrMode::Memory(0x20FF, false));
    // JMP (ind) fetches the high byte from the start of the same page.
    bus.write(0x0602, 0xFF);
    bus.write(0x0603, 0x02);
    bus.write(0x02FF, 0x00);
    bus.write(0x0200, 0x80);
    bus.write(0x0300, 0x90);
    r.pc = 0x0602;
    assert_eq!(jump_indirect(&mut r, &bus), 0x8000);
    assert_eq!(r.pc, 0x0604);
}

#[test]
fn addressing_load_store() {
    let mut bus = NesBus::default();
    let mut r = regs(9, 0);
    assert_eq!(AddrMode::Accumulator.load(&r, &bus), 9);
    AddrMode::Memory(0x44, false).store(&mut r, &mut bus, 3);
    assert_eq!(bus.read(0x44), 3);
    AddrMode::Accumulator.store(&mut r, &mut bus, 4);
    assert_eq!(r.a, 4);
    assert_eq!(AddrMode::Memory(0, true).extra_cycles_needed(), 1);
    assert_eq!(AddrMode::Immediate(0).extra_cycles_needed(), 0);
}

#[test]
fn instr_decimal_flag_is_ignored() {
    let bus = NesBus::default();
    let d = 0x08;
    for (a, v) in [(0x09u8, 0x01u8), (0x45, 0x55), (0x99, 0x01)] {
        let mut binary = regs(a, 0);
        adc(&mut binary, &bus, AddrMode::Immediate(v));
        let mut decimal = regs(a, d);
        adc(&mut decimal, &bus, AddrMode::Immediate(v));
        assert_eq!(binary.a, decimal.a);
        assert_eq!(binary.ps.0 | d, decimal.ps.0);
    }
    let mut r = regs(0x10, d | C);
    sbc(&mut r, &bus, AddrMode::Immediate(0x01));
    assert_eq!(r.a, 0x0F);
}
