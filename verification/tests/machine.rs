use gbcore::cpu::{Cpu, ExecError};
use gbcore::clock::IntType;
use gbcore::reg::{RegFlag, Register};

fn load_program(cpu: &mut Cpu, at: u16, bytes: &[u8]) {
    let ram = cpu.get_ram();
    let mut i: u16 = 0;
    for b in bytes {
        ram.sys_write(at + i, *b);
        i += 1;
    }
    cpu.get_regs().write_u16(Register::PC, at);
}

#[test]
fn load_immediate_then_add_immediate() {
    // LD A, 0x05 ; ADD A, 0x03 starting at 0x100.
    let mut cpu = Cpu::new();
    load_program(&mut cpu, 0x100, &[0x3E, 0x05, 0xC6, 0x03]);
    assert_eq!(cpu.do_instr(), Ok(8));
    assert_eq!(cpu.get_regs().read(Register::A), 0x05);
    assert_eq!(cpu.do_instr(), Ok(8));
    let regs = cpu.get_regs();
    assert_eq!(regs.read(Register::A), 8);
    assert!(!regs.get_flag(RegFlag::Zero));
    assert!(!regs.get_flag(RegFlag::Carry));
    assert!(!regs.get_flag(RegFlag::HalfCarry));
    assert!(!regs.get_flag(RegFlag::Subtract));
    assert_eq!(regs.get_pc(), 0x104);
}

#[test]
fn add_immediate_wraps_and_sets_all_flags() {
    // LD A, 0xFF ; ADD A, 0x01.
    let mut cpu = Cpu::new();
    load_program(&mut cpu, 0x100, &[0x3E, 0xFF, 0xC6, 0x01]);
    assert_eq!(cpu.do_instr(), Ok(8));
    assert_eq!(cpu.do_instr(), Ok(8));
    let regs = cpu.get_regs();
    assert_eq!(regs.read(Register::A), 0x00);
    assert!(regs.get_flag(RegFlag::Zero));
    assert!(regs.get_flag(RegFlag::Carry));
    assert!(regs.get_flag(RegFlag::HalfCarry));
    assert!(!regs.get_flag(RegFlag::Subtract));
}

#[test]
fn halt_then_vblank_interrupt_resumes() {
    // HALT ; LD A, 0x42. The interrupt must wake the machine so that
    // the next step runs a real instruction instead of returning zero.
    let mut cpu = Cpu::new();
    load_program(&mut cpu, 0x100, &[0x76, 0x3E, 0x42]);
    assert_eq!(cpu.do_instr(), Ok(4));
    assert_eq!(cpu.do_instr(), Ok(0));
    assert_eq!(cpu.do_instr(), Ok(0));
    cpu.interrupt(IntType::Vblank);
    assert_eq!(cpu.do_instr(), Ok(8));
    assert_eq!(cpu.get_regs().read(Register::A), 0x42);
}

#[test]
fn stop_enters_stopped_state() {
    let mut cpu = Cpu::new();
    load_program(&mut cpu, 0x100, &[0x10, 0x00]);
    assert_eq!(cpu.do_instr(), Ok(4));
    assert!(cpu.is_stopped());
}

#[test]
fn halted_with_interrupts_disabled_is_stuck() {
    // DI ; HALT: no interrupt can ever wake the machine.
    let mut cpu = Cpu::new();
    load_program(&mut cpu, 0x100, &[0xF3, 0x76]);
    assert_eq!(cpu.do_instr(), Ok(4));
    assert!(!cpu.is_stuck());
    assert_eq!(cpu.do_instr(), Ok(4));
    assert!(cpu.is_stuck());
    assert_eq!(cpu.do_instr(), Ok(0));
    cpu.interrupt(IntType::Vblank);
    assert_eq!(cpu.do_instr(), Ok(0));
}

#[test]
fn unknown_opcode_is_fatal() {
    let mut cpu = Cpu::new();
    load_program(&mut cpu, 0x200, &[0xD3]);
    assert_eq!(
        cpu.do_instr(),
        Err(ExecError { opcode: 0xD3, sub: None, pc: 0x200 })
    );
}

#[test]
fn jump_opcode_reaching_dispatch_is_fatal() {
    let mut cpu = Cpu::new();
    load_program(&mut cpu, 0x150, &[0xC3, 0x00, 0x01]);
    assert_eq!(
        cpu.do_instr(),
        Err(ExecError { opcode: 0xC3, sub: None, pc: 0x150 })
    );
    // Decode already consumed the opcode and both operands.
    assert_eq!(cpu.get_regs().get_pc(), 0x153);
}

#[test]
fn unknown_extended_opcode_is_fatal() {
    let mut cpu = Cpu::new();
    load_program(&mut cpu, 0x100, &[0xCB, 0x40]);
    assert_eq!(
        cpu.do_instr(),
        Err(ExecError { opcode: 0xCB, sub: Some(0x40), pc: 0x100 })
    );
}

#[test]
fn stop_with_nonzero_operand_is_fatal() {
    let mut cpu = Cpu::new();
    load_program(&mut cpu, 0x100, &[0x10, 0x07]);
    assert_eq!(
        cpu.do_instr(),
        Err(ExecError { opcode: 0x10, sub: Some(0x07), pc: 0x100 })
    );
}

#[test]
fn add_flag_law_exhaustive_over_samples() {
    // The addition flag law on a grid of operands and both carry-ins.
    for &x in &[0x00u8, 0x01, 0x0F, 0x10, 0x7F, 0x80, 0x99, 0xFF] {
        for &n in &[0x00u8, 0x01, 0x0F, 0x10, 0x80, 0xFF] {
            for &c in &[false, true] {
                let mut cpu = Cpu::new();
                let ci = if c { 1u16 } else { 0u16 };
                let r = cpu.add_no_writeback(x, n, c);
                let sum = x as u16 + n as u16 + ci;
                assert_eq!(r, (sum & 0xFF) as u8);
                let regs = cpu.get_regs();
                assert_eq!(regs.get_flag(RegFlag::Zero), r == 0);
                assert!(!regs.get_flag(RegFlag::Subtract));
                assert_eq!(
                    regs.get_flag(RegFlag::HalfCarry),
                    (x & 0x0F) as u16 + (n & 0x0F) as u16 + ci > 0x0F
                );
                assert_eq!(regs.get_flag(RegFlag::Carry), sum > 0xFF);
            }
        }
    }
}

#[test]
fn sub_flag_law_exhaustive_over_samples() {
    // The subtraction flag law: carry-in joins the minuend, Subtract is
    // always set, Carry reports the borrow out of bit 8.
    for &x in &[0x00u8, 0x01, 0x0F, 0x10, 0x7F, 0x80, 0xFF] {
        for &n in &[0x00u8, 0x01, 0x0F, 0x10, 0x80, 0xFF] {
            for &c in &[false, true] {
                let mut cpu = Cpu::new();
                let ci = if c { 1u16 } else { 0u16 };
                let r = cpu.sub_no_writeback(x, n, c);
                let xw = x as u16 + ci;
                let diff = xw.wrapping_sub(n as u16);
                assert_eq!(r, (diff & 0xFF) as u8);
                let regs = cpu.get_regs();
                assert_eq!(regs.get_flag(RegFlag::Zero), r == 0);
                assert!(regs.get_flag(RegFlag::Subtract));
                assert_eq!(regs.get_flag(RegFlag::HalfCarry), xw % 16 < (n as u16) % 16);
                assert_eq!(regs.get_flag(RegFlag::Carry), diff > 0xFF);
            }
        }
    }
}

#[test]
fn subtract_borrow_edge_cases() {
    let mut cpu = Cpu::new();
    let r = cpu.sub_no_writeback(0x10, 0x20, false);
    assert_eq!(r, 0xF0);
    assert!(cpu.get_regs().get_flag(RegFlag::Carry));
    // The carry-in can push the minuend to 0x100: the result byte is
    // zero and the wrapped difference still reports a carry.
    let mut cpu2 = Cpu::new();
    let r2 = cpu2.sub_no_writeback(0xFF, 0x00, true);
    assert_eq!(r2, 0x00);
    let regs = cpu2.get_regs();
    assert!(regs.get_flag(RegFlag::Zero));
    assert!(regs.get_flag(RegFlag::Carry));
}

#[test]
fn rotates_and_shifts_move_the_right_bits() {
    let mut cpu = Cpu::new();
    assert_eq!(cpu.lrot(0x81), 0x03);
    assert!(cpu.get_regs().get_flag(RegFlag::Carry));
    assert_eq!(cpu.lrot(0x40), 0x80);
    assert!(!cpu.get_regs().get_flag(RegFlag::Carry));

    assert_eq!(cpu.rrot(0x01), 0x80);
    assert!(cpu.get_regs().get_flag(RegFlag::Carry));

    // Through-carry rotates treat the carry as a ninth bit.
    cpu.get_regs().set_flag(RegFlag::Carry, true);
    assert_eq!(cpu.lrot_through(0x00), 0x01);
    assert!(!cpu.get_regs().get_flag(RegFlag::Carry));
    cpu.get_regs().set_flag(RegFlag::Carry, true);
    assert_eq!(cpu.rrot_through(0x00), 0x80);
    assert!(!cpu.get_regs().get_flag(RegFlag::Carry));

    assert_eq!(cpu.lshift(0x81), 0x02);
    assert!(cpu.get_regs().get_flag(RegFlag::Carry));
    assert_eq!(cpu.rshift_logical(0x81), 0x40);
    assert!(cpu.get_regs().get_flag(RegFlag::Carry));
    // The arithmetic shift keeps the sign bit; the logical one does not.
    assert_eq!(cpu.rshift_arithmetic(0x81), 0xC0);
    assert!(cpu.get_regs().get_flag(RegFlag::Carry));
    assert_eq!(cpu.rshift_arithmetic(0x7E), 0x3F);
    assert!(!cpu.get_regs().get_flag(RegFlag::Carry));

    assert_eq!(cpu.swap_bits_no_writeback(0xAB), 0xBA);
    let r = cpu.rshift_logical(0x01);
    assert_eq!(r, 0);
    assert!(cpu.get_regs().get_flag(RegFlag::Zero));
}

#[test]
fn accumulator_rotate_instructions() {
    // LD A, 0x85 ; RLCA.
    let mut cpu = Cpu::new();
    load_program(&mut cpu, 0x100, &[0x3E, 0x85, 0x07]);
    assert_eq!(cpu.do_instr(), Ok(8));
    assert_eq!(cpu.do_instr(), Ok(4));
    let regs = cpu.get_regs();
    assert_eq!(regs.read(Register::A), 0x0B);
    assert!(regs.get_flag(RegFlag::Carry));
}

#[test]
fn extended_swap_and_rotate_on_register_and_memory() {
    // LD A, 0xAB ; SWAP A ; LD HL, 0xC020 ; RLC (HL).
    let mut cpu = Cpu::new();
    cpu.get_ram().sys_write(0xC020, 0x81);
    load_program(&mut cpu, 0x100, &[0x3E, 0xAB, 0xCB, 0x37, 0x21, 0x20, 0xC0, 0xCB, 0x06]);
    assert_eq!(cpu.do_instr(), Ok(8));
    assert_eq!(cpu.do_instr(), Ok(8));
    assert_eq!(cpu.get_regs().read(Register::A), 0xBA);
    assert_eq!(cpu.do_instr(), Ok(12));
    assert_eq!(cpu.do_instr(), Ok(16));
    assert_eq!(cpu.get_ram().read(0xC020), 0x03);
    assert!(cpu.get_regs().get_flag(RegFlag::Carry));
}

#[test]
fn decimal_adjust_after_addition() {
    // LD A, 0x15 ; ADD A, 0x27 ; DAA: packed BCD 15 + 27 = 42.
    let mut cpu = Cpu::new();
    load_program(&mut cpu, 0x100, &[0x3E, 0x15, 0xC6, 0x27, 0x27]);
    assert_eq!(cpu.do_instr(), Ok(8));
    assert_eq!(cpu.do_instr(), Ok(8));
    assert_eq!(cpu.get_regs().read(Register::A), 0x3C);
    assert_eq!(cpu.do_instr(), Ok(4));
    let regs = cpu.get_regs();
    assert_eq!(regs.read(Register::A), 0x42);
    assert!(!regs.get_flag(RegFlag::Carry));
    assert!(!regs.get_flag(RegFlag::HalfCarry));
}

#[test]
fn decimal_adjust_after_subtraction() {
    // LD A, 0x42 ; SUB A, 0x15 ; DAA: packed BCD 42 - 15 = 27.
    let mut cpu = Cpu::new();
    load_program(&mut cpu, 0x100, &[0x3E, 0x42, 0xD6, 0x15, 0x27]);
    assert_eq!(cpu.do_instr(), Ok(8));
    assert_eq!(cpu.do_instr(), Ok(8));
    assert_eq!(cpu.get_regs().read(Register::A), 0x2D);
    assert_eq!(cpu.do_instr(), Ok(4));
    assert_eq!(cpu.get_regs().read(Register::A), 0x27);
}

#[test]
fn complement_and_carry_flag_instructions() {
    // LD A, 0x5A ; CPL ; SCF ; CCF.
    let mut cpu = Cpu::new();
    load_program(&mut cpu, 0x100, &[0x3E, 0x5A, 0x2F, 0x37, 0x3F]);
    assert_eq!(cpu.do_instr(), Ok(8));
    assert_eq!(cpu.do_instr(), Ok(4));
    let regs = cpu.get_regs();
    assert_eq!(regs.read(Register::A), 0xA5);
    assert!(regs.get_flag(RegFlag::Subtract));
    assert!(regs.get_flag(RegFlag::HalfCarry));
    assert_eq!(cpu.do_instr(), Ok(4));
    assert!(cpu.get_regs().get_flag(RegFlag::Carry));
    assert_eq!(cpu.do_instr(), Ok(4));
    let regs = cpu.get_regs();
    assert!(!regs.get_flag(RegFlag::Carry));
    assert!(!regs.get_flag(RegFlag::Subtract));
    assert!(!regs.get_flag(RegFlag::HalfCarry));
}

#[test]
fn sixteen_bit_add_uses_bit_eleven_half_carry() {
    let mut cpu = Cpu::new();
    cpu.get_regs().write_u16(Register::HL, 0x0FFF);
    cpu.get_regs().write_u16(Register::BC, 0x0001);
    // ADD HL, BC.
    load_program(&mut cpu, 0x100, &[0x09]);
    cpu.get_regs().write_u16(Register::PC, 0x100);
    assert_eq!(cpu.do_instr(), Ok(8));
    let regs = cpu.get_regs();
    assert_eq!(regs.read_u16(Register::HL), 0x1000);
    assert!(regs.get_flag(RegFlag::HalfCarry));
    assert!(!regs.get_flag(RegFlag::Carry));
}

#[test]
fn sixteen_bit_add_wraps_with_carry() {
    let mut cpu = Cpu::new();
    cpu.get_regs().write_u16(Register::HL, 0x8000);
    // ADD HL, HL.
    load_program(&mut cpu, 0x100, &[0x29]);
    assert_eq!(cpu.do_instr(), Ok(8));
    let regs = cpu.get_regs();
    assert_eq!(regs.read_u16(Register::HL), 0x0000);
    assert!(regs.get_flag(RegFlag::Carry));
    assert!(regs.get_flag(RegFlag::Zero));
}

#[test]
fn pair_increment_and_decrement_wrap_without_flags() {
    let mut cpu = Cpu::new();
    cpu.get_regs().write_u16(Register::BC, 0xFFFF);
    cpu.get_regs().set_flag(RegFlag::Zero, true);
    cpu.get_regs().set_flag(RegFlag::Carry, true);
    // INC BC ; DEC BC.
    load_program(&mut cpu, 0x100, &[0x03, 0x0B]);
    assert_eq!(cpu.do_instr(), Ok(8));
    assert_eq!(cpu.get_regs().read_u16(Register::BC), 0x0000);
    assert_eq!(cpu.do_instr(), Ok(8));
    let regs = cpu.get_regs();
    assert_eq!(regs.read_u16(Register::BC), 0xFFFF);
    // Flags are untouched by pair increments and decrements.
    assert!(regs.get_flag(RegFlag::Zero));
    assert!(regs.get_flag(RegFlag::Carry));
}

#[test]
fn increment_memory_at_hl() {
    // LD HL, 0xC040 ; INC (HL) with 0x0F stored there: half-carry set.
    let mut cpu = Cpu::new();
    cpu.get_ram().sys_write(0xC040, 0x0F);
    load_program(&mut cpu, 0x100, &[0x21, 0x40, 0xC0, 0x34]);
    assert_eq!(cpu.do_instr(), Ok(12));
    assert_eq!(cpu.do_instr(), Ok(12));
    assert_eq!(cpu.get_ram().read(0xC040), 0x10);
    assert!(cpu.get_regs().get_flag(RegFlag::HalfCarry));
}

#[test]
fn push_and_pop_round_trip_through_memory() {
    // LD SP, 0xC100 ; PUSH BC ; POP DE reads back what was pushed.
    let mut cpu = Cpu::new();
    cpu.get_regs().write_u16(Register::BC, 0x1234);
    load_program(&mut cpu, 0x100, &[0x31, 0x00, 0xC1, 0xC5]);
    assert_eq!(cpu.do_instr(), Ok(12));
    assert_eq!(cpu.do_instr(), Ok(16));
    let sp = cpu.get_regs().read_u16(Register::SP);
    assert_eq!(sp, 0xC0FE);
    assert_eq!(cpu.get_ram().read(0xC100), 0x34);
    assert_eq!(cpu.get_ram().read(0xC101), 0x12);
    // Point SP back at the stored pair and pop it into DE.
    cpu.get_regs().write_u16(Register::SP, 0xC100);
    load_program(&mut cpu, 0x110, &[0xD1]);
    assert_eq!(cpu.do_instr(), Ok(12));
    let regs = cpu.get_regs();
    assert_eq!(regs.read_u16(Register::DE), 0x1234);
    assert_eq!(regs.read_u16(Register::SP), 0xC102);
}

#[test]
fn loads_through_pairs_and_io_page() {
    // LD BC, 0xC030 ; LD A, (BC) ; LD (0xFF80+), A via E0.
    let mut cpu = Cpu::new();
    cpu.get_ram().sys_write(0xC030, 0x77);
    load_program(&mut cpu, 0x100, &[0x01, 0x30, 0xC0, 0x0A, 0xE0, 0x80]);
    assert_eq!(cpu.do_instr(), Ok(12));
    assert_eq!(cpu.do_instr(), Ok(8));
    assert_eq!(cpu.get_regs().read(Register::A), 0x77);
    assert_eq!(cpu.do_instr(), Ok(12));
    assert_eq!(cpu.get_ram().read(0xFF80), 0x77);
}

#[test]
fn load_and_store_with_hl_post_decrement_and_increment() {
    // LD HL, 0xC051 ; LD A, (HL-) ; LD (HL+), A.
    let mut cpu = Cpu::new();
    cpu.get_ram().sys_write(0xC051, 0x3C);
    load_program(&mut cpu, 0x100, &[0x21, 0x51, 0xC0, 0x3A, 0x22]);
    assert_eq!(cpu.do_instr(), Ok(12));
    assert_eq!(cpu.do_instr(), Ok(8));
    assert_eq!(cpu.get_regs().read(Register::A), 0x3C);
    assert_eq!(cpu.get_regs().read_u16(Register::HL), 0xC050);
    assert_eq!(cpu.do_instr(), Ok(8));
    assert_eq!(cpu.get_ram().read(0xC050), 0x3C);
    assert_eq!(cpu.get_regs().read_u16(Register::HL), 0xC051);
}

#[test]
fn register_to_register_loads_and_compare() {
    // LD B, 0x42 ; LD A, B ; CP B: equal operands leave Zero set.
    let mut cpu = Cpu::new();
    load_program(&mut cpu, 0x100, &[0x06, 0x42, 0x78, 0xB8]);
    assert_eq!(cpu.do_instr(), Ok(8));
    assert_eq!(cpu.do_instr(), Ok(4));
    assert_eq!(cpu.get_regs().read(Register::A), 0x42);
    assert_eq!(cpu.do_instr(), Ok(4));
    let regs = cpu.get_regs();
    // Comparison does not write back.
    assert_eq!(regs.read(Register::A), 0x42);
    assert!(regs.get_flag(RegFlag::Zero));
    assert!(regs.get_flag(RegFlag::Subtract));
}

#[test]
fn bitwise_and_or_xor_flag_profile() {
    // AND sets HalfCarry; OR and XOR clear everything but Zero.
    let mut cpu = Cpu::new();
    load_program(&mut cpu, 0x100, &[0x3E, 0xF0, 0xE6, 0x0F]);
    assert_eq!(cpu.do_instr(), Ok(8));
    assert_eq!(cpu.do_instr(), Ok(8));
    let regs = cpu.get_regs();
    assert_eq!(regs.read(Register::A), 0x00);
    assert!(regs.get_flag(RegFlag::Zero));
    assert!(regs.get_flag(RegFlag::HalfCarry));
    assert!(!regs.get_flag(RegFlag::Carry));

    let mut cpu2 = Cpu::new();
    load_program(&mut cpu2, 0x100, &[0x3E, 0xF0, 0xF6, 0x0F, 0xEE, 0xFF]);
    assert_eq!(cpu2.do_instr(), Ok(8));
    assert_eq!(cpu2.do_instr(), Ok(8));
    assert_eq!(cpu2.get_regs().read(Register::A), 0xFF);
    assert!(!cpu2.get_regs().get_flag(RegFlag::HalfCarry));
    assert_eq!(cpu2.do_instr(), Ok(8));
    assert!(cpu2.get_regs().get_flag(RegFlag::Zero));
}

#[test]
fn clock_counter_accumulates_cycle_costs() {
    let mut cpu = Cpu::new_with_freq(1_000_000);
    load_program(&mut cpu, 0x100, &[0x00, 0x3E, 0x01]);
    assert_eq!(cpu.do_instr(), Ok(4));
    assert_eq!(cpu.do_instr(), Ok(8));
}
