use gbcore::clock::{Clock, IntType, WorkerCmd};
use gbcore::instr::Instr;
use gbcore::mem::{AddressSpace, RwMemory, WriteObserver};
use gbcore::reg::{RegData, RegFlag, Register};

#[test]
fn register_round_trips() {
    let mut reg = RegData::new();
    for r in [
        Register::A,
        Register::B,
        Register::C,
        Register::D,
        Register::E,
        Register::F,
        Register::H,
        Register::L,
    ] {
        for v in [0x00u8, 0x01, 0x7F, 0x80, 0xFF] {
            reg.write(r, v);
            assert_eq!(reg.read(r), v);
        }
    }
    for r in [Register::AF, Register::BC, Register::DE, Register::HL, Register::SP, Register::PC] {
        for v in [0x0000u16, 0x0001, 0x1234, 0x8000, 0xFFFF] {
            reg.write_u16(r, v);
            assert_eq!(reg.read_u16(r), v);
        }
    }
}

#[test]
fn pairs_compose_high_byte_first() {
    let mut reg = RegData::new();
    reg.write(Register::H, 0x12);
    reg.write(Register::L, 0x34);
    assert_eq!(reg.read_u16(Register::HL), 0x1234);
    reg.write_u16(Register::BC, 0xABCD);
    assert_eq!(reg.read(Register::B), 0xAB);
    assert_eq!(reg.read(Register::C), 0xCD);
}

#[test]
fn copy_is_safe_when_source_equals_destination() {
    let mut reg = RegData::new();
    reg.write(Register::D, 0x66);
    reg.copy(Register::D, Register::D);
    assert_eq!(reg.read(Register::D), 0x66);
    reg.write_u16(Register::HL, 0x4321);
    reg.copy_u16(Register::HL, Register::HL);
    assert_eq!(reg.read_u16(Register::HL), 0x4321);
}

#[test]
fn flags_occupy_the_high_nibble() {
    let mut reg = RegData::new();
    reg.set_flag(RegFlag::Zero, true);
    assert_eq!(reg.read(Register::Flag), 0x80);
    reg.set_flag(RegFlag::Subtract, true);
    reg.set_flag(RegFlag::HalfCarry, true);
    reg.set_flag(RegFlag::Carry, true);
    assert_eq!(reg.read(Register::Flag), 0xF0);
    reg.set_flag(RegFlag::Subtract, false);
    assert_eq!(reg.read(Register::Flag), 0xB0);
    assert!(reg.get_flag(RegFlag::Zero));
    assert!(!reg.get_flag(RegFlag::Subtract));
    assert!(reg.get_flag(RegFlag::HalfCarry));
    assert!(reg.get_flag(RegFlag::Carry));
}

#[test]
fn program_counter_stepping_and_wrapping() {
    let mut reg = RegData::new();
    assert_eq!(reg.get_pc(), 0x0000);
    assert_eq!(reg.advance_pc(), 0x0000);
    assert_eq!(reg.get_pc(), 0x0001);
    let old = reg.set_pc(0xFFFF);
    assert_eq!(old, 0x0001);
    assert_eq!(reg.advance_pc(), 0xFFFF);
    assert_eq!(reg.get_pc(), 0x0000);
    reg.set_pc(0x0100);
    assert_eq!(reg.add_pc(-4), 0x0100);
    assert_eq!(reg.get_pc(), 0x00FC);
    reg.set_pc(0x0000);
    reg.add_pc(-1);
    assert_eq!(reg.get_pc(), 0xFFFF);
}

#[test]
fn reset_state_of_the_register_file() {
    let reg = RegData::new();
    assert_eq!(reg.read_u16(Register::SP), 0xFFFE);
    assert_eq!(reg.read_u16(Register::PC), 0x0000);
    assert_eq!(reg.read(Register::A), 0);
    assert_eq!(reg.read(Register::Flag), 0);
}

#[test]
fn decode_reads_operands_and_costs_from_the_table() {
    let mut reg = RegData::new();
    let mut bus = AddressSpace::new();
    for (i, b) in [0x3Eu8, 0x42, 0xFA, 0xCD, 0xAB, 0x00].iter().enumerate() {
        bus.sys_write(0x200 + i as u16, *b);
    }
    reg.set_pc(0x200);
    let i1 = Instr::parse(&mut reg, &bus);
    assert_eq!(i1.opcode(), 0x3E);
    assert_eq!(i1.cycles(), 8);
    assert_eq!(i1.param(0), 0x42);
    assert!(i1.is_known());
    assert_eq!(reg.get_pc(), 0x202);
    let i2 = Instr::parse(&mut reg, &bus);
    assert_eq!(i2.opcode(), 0xFA);
    assert_eq!(i2.cycles(), 16);
    assert_eq!(i2.param(0), 0xCD);
    assert_eq!(i2.param(1), 0xAB);
    assert_eq!(i2.param_u16(0), 0xABCD);
    assert_eq!(reg.get_pc(), 0x205);
    let i3 = Instr::parse(&mut reg, &bus);
    assert_eq!(i3.opcode(), 0x00);
    assert_eq!(i3.cycles(), 4);
    assert!(i3.is_known());
}

#[test]
fn decode_of_extended_opcodes() {
    let mut reg = RegData::new();
    let mut bus = AddressSpace::new();
    // SWAP A, then RLC (HL), then an extended opcode with no table
    // entry.
    for (i, b) in [0xCBu8, 0x37, 0xCB, 0x06, 0xCB, 0x50].iter().enumerate() {
        bus.sys_write(0x300 + i as u16, *b);
    }
    reg.set_pc(0x300);
    let i1 = Instr::parse(&mut reg, &bus);
    assert_eq!(i1.opcode(), 0xCB);
    assert_eq!(i1.param(0), 0x37);
    assert_eq!(i1.cycles(), 8);
    assert!(i1.is_known());
    let i2 = Instr::parse(&mut reg, &bus);
    assert_eq!(i2.cycles(), 16);
    assert!(i2.is_known());
    let i3 = Instr::parse(&mut reg, &bus);
    assert_eq!(i3.cycles(), 4);
    assert!(!i3.is_known());
}

#[test]
fn decode_of_an_unknown_opcode_falls_back_to_defaults() {
    let mut reg = RegData::new();
    let mut bus = AddressSpace::new();
    bus.sys_write(0x400, 0xD3);
    bus.sys_write(0x401, 0x99);
    reg.set_pc(0x400);
    let i = Instr::parse(&mut reg, &bus);
    assert_eq!(i.opcode(), 0xD3);
    assert_eq!(i.cycles(), 4);
    assert!(!i.is_known());
    // No operands were consumed.
    assert_eq!(reg.get_pc(), 0x401);
}

#[test]
fn decode_costs_of_the_remaining_groups() {
    let mut reg = RegData::new();
    let mut bus = AddressSpace::new();
    let program = [
        0x08u8, 0x00, 0xC0, // LD (imm16), SP: 20 cycles
        0xC5,  // PUSH BC: 16
        0xC1,  // POP BC: 12
        0xC7,  // RST: 32
        0xC9,  // RET: 8
        0xC3, 0x00, 0x01, // JP: 12
        0x18, 0x05, // JR: 8
        0xE9,  // JP HL: 4
    ];
    for (i, b) in program.iter().enumerate() {
        bus.sys_write(0x500 + i as u16, *b);
    }
    reg.set_pc(0x500);
    let costs: Vec<u32> = (0..8).map(|_| Instr::parse(&mut reg, &bus).cycles()).collect();
    assert_eq!(costs, vec![20, 16, 12, 32, 8, 12, 8, 4]);
}

#[test]
fn clock_period_follows_the_frequency() {
    let clock = Clock::new(4_194_304);
    assert_eq!(clock.period(), 1_000_000_000 / 4_194_304);
    let slow = Clock::new(1);
    assert_eq!(slow.period(), 1_000_000_000);
}

#[test]
fn next_target_without_pending_interrupts_runs_to_the_wait() {
    let mut clock = Clock::new(100);
    assert_eq!(clock.next_target(5_000), (5_000, None));
}

#[test]
fn next_target_delivers_the_earliest_due_interrupt() {
    let mut clock = Clock::new(100);
    clock.schedule(IntType::Vblank, 900);
    clock.schedule(IntType::Hblank, 300);
    clock.schedule(IntType::IoTimer, 600);
    let (t1, i1) = clock.next_target(1_000);
    assert_eq!(t1, 300);
    assert!(matches!(i1, Some(IntType::Hblank)));
    let (t2, i2) = clock.next_target(1_000);
    assert_eq!(t2, 600);
    assert!(matches!(i2, Some(IntType::IoTimer)));
    let (t3, i3) = clock.next_target(1_000);
    assert_eq!(t3, 900);
    assert!(matches!(i3, Some(IntType::Vblank)));
    assert_eq!(clock.next_target(1_000), (1_000, None));
}

#[test]
fn next_target_keeps_interrupts_that_are_not_yet_due() {
    let mut clock = Clock::new(100);
    clock.schedule(IntType::Vblank, 5_000);
    assert_eq!(clock.next_target(1_000), (1_000, None));
    // Still pending: a later wait that passes the target delivers it.
    let (t, i) = clock.next_target(6_000);
    assert_eq!(t, 5_000);
    assert!(matches!(i, Some(IntType::Vblank)));
}

#[test]
fn next_target_breaks_ties_by_scheduling_order() {
    let mut clock = Clock::new(100);
    clock.schedule(IntType::Hblank, 400);
    clock.schedule(IntType::Vblank, 400);
    let (_, first) = clock.next_target(1_000);
    assert!(matches!(first, Some(IntType::Hblank)));
    let (_, second) = clock.next_target(1_000);
    assert!(matches!(second, Some(IntType::Vblank)));
}

#[test]
fn worker_commands_carry_snapshots() {
    let snap = Box::new(RwMemory::new());
    let obs = WriteObserver::new();
    let cmd = WorkerCmd::TakeSnapshot(snap, obs);
    assert!(matches!(cmd, WorkerCmd::TakeSnapshot(_, _)));
    assert!(matches!(WorkerCmd::Shutdown, WorkerCmd::Shutdown));
}
