use nes::{Bus as _, Cpu, NesBus};

#[test]
fn easy() {
    const COUNT: usize = 6;
    let easy: [&[u8]; COUNT] = [
        &[0xA9, 0x01],
        &[0x8D, 0x00, 0x02],
        &[0xA9, 0x05],
        &[0x8D, 0x01, 0x02],
        &[0xA9, 0x08],
        &[0x8D, 0x02, 0x02],
    ];
    let mut bus = NesBus::default();
    let mut cpu = Cpu::new(0x0600);

    setup(&mut bus, &easy);
    for _ in 0..COUNT {
        cpu.one_instruction(&mut bus);
    }

    assert_eq!(0x01, bus.read(0x0200));
    assert_eq!(0x05, bus.read(0x0201));
    assert_eq!(0x08, bus.read(0x0202));
}

fn setup(bus: &mut NesBus, program: &[&[u8]]) {
    let mut i = 0;
    for &inst in program {
        for &byte in inst {
            bus.write(0x0600 + i, byte);
            i += 1;
        }
    }
}

fn load(bus: &mut NesBus, at: u16, program: &[u8]) {
    for (i, &b) in program.iter().enumerate() {
        bus.write(at + i as u16, b);
    }
}

#[test]
fn program_loop_counts_down() {
    // LDX #$05; loop: DEX; BNE loop; STX $10
    let mut bus = NesBus::default();
    load(&mut bus, 0x0600, &[0xA2, 0x05, 0xCA, 0xD0, 0xFD, 0x86, 0x10]);
    bus.write(0x0010, 0xFF);
    let mut cpu = Cpu::new(0x0600);
    // LDX, then five DEX and BNE pairs, then STX.
    for _ in 0..12 {
        cpu.one_instruction(&mut bus);
    }
    assert_eq!(cpu.registers().x, 0);
    assert_eq!(bus.read(0x0010), 0);
    assert_eq!(cpu.registers().pc, 0x0607);
}

#[test]
fn program_subroutine_call_and_return() {
    // JSR $0610; LDA #$02 ; at $0610: LDX #$07; RTS
    let mut bus = NesBus::default();
    load(&mut bus, 0x0600, &[0x20, 0x10, 0x06, 0xA9, 0x02]);
    load(&mut bus, 0x0610, &[0xA2, 0x07, 0x60]);
    let mut cpu = Cpu::new(0x0600);
    cpu.one_instruction(&mut bus);
    assert_eq!(cpu.registers().pc, 0x0610);
    assert_eq!(cpu.registers().sp, 0xFB);
    // The return address minus one is on the stack, high byte first.
    assert_eq!(bus.read(0x01FD), 0x06);
    assert_eq!(bus.read(0x01FC), 0x02);
    cpu.one_instruction(&mut bus);
    cpu.one_instruction(&mut bus);
    assert_eq!(cpu.registers().pc, 0x0603);
    assert_eq!(cpu.registers().sp, 0xFD);
    cpu.one_instruction(&mut bus);
    assert_eq!(cpu.registers().a, 2);
    assert_eq!(cpu.registers().x, 7);
}

#[test]
fn program_subroutine_using_the_stack_returns() {
    // JSR $0620; LDY #$05 ; at $0620: LDA #$09; PHA; LDA #$00; PLA; RTS
    let mut bus = NesBus::default();
    load(&mut bus, 0x0600, &[0x20, 0x20, 0x06, 0xA0, 0x05]);
    load(&mut bus, 0x0620, &[0xA9, 0x09, 0x48, 0xA9, 0x00, 0x68, 0x60]);
    let mut cpu = Cpu::new(0x0600);
    for _ in 0..6 {
        cpu.one_instruction(&mut bus);
    }
    assert_eq!(cpu.registers().pc, 0x0603);
    assert_eq!(cpu.registers().sp, 0xFD);
    assert_eq!(cpu.registers().a, 0x09);
    cpu.one_instruction(&mut bus);
    assert_eq!(cpu.registers().y, 5);
}

#[test]
fn cycle_counts_instruction_length() {
    // LDA $0200,X with X = 0 takes 4 cycles; INC $10 takes 5.
    let mut bus = NesBus::default();
    load(&mut bus, 0x0600, &[0xBD, 0x00, 0x02, 0xE6, 0x10]);
    let mut cpu = Cpu::new(0x0600);
    cpu.cycle(&mut bus);
    assert_eq!(cpu.registers().pc, 0x0603);
    for _ in 0..3 {
        cpu.cycle(&mut bus);
        assert_eq!(cpu.registers().pc, 0x0603);
        assert_eq!(bus.read(0x0010), 0);
    }
    cpu.cycle(&mut bus);
    assert_eq!(cpu.registers().pc, 0x0605);
    assert_eq!(bus.read(0x0010), 1);
}

#[test]
fn one_instruction_runs_next_instruction_after_pending_cycles() {
    let mut bus = NesBus::default();
    load(&mut bus, 0x0600, &[0xE6, 0x10, 0xE8]);
    let mut cpu = Cpu::new(0x0600);
    // Start INC $10 (5 cycles) with a single cycle.
    cpu.cycle(&mut bus);
    assert_eq!(bus.read(0x0010), 1);
    assert_eq!(cpu.registers().pc, 0x0602);
    // The rest of INC's cycles go by, then INX runs.
    cpu.one_instruction(&mut bus);
    assert_eq!(bus.read(0x0010), 1);
    assert_eq!(cpu.registers().pc, 0x0603);
    assert_eq!(cpu.registers().x, 1);
}

#[test]
fn cpu_new_power_up_state() {
    let cpu = Cpu::new(0x8000);
    let r = cpu.registers();
    assert_eq!(r.pc, 0x8000);
    assert_eq!(r.sp, 0xFD);
    assert_eq!((r.a, r.x, r.y), (0, 0, 0));
    assert_eq!(r.ps.0, 0x34);
}
