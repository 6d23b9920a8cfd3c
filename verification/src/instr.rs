//! The instruction decoder: fetches an opcode at the program counter,
//! reads its operands, and assigns its cycle cost from a fixed
//! per-opcode table (with a secondary table for the two-byte extended
//! opcode space behind the 0xCB prefix). The same table, as
//! specification functions, is shared with the execution engine.

use vstd::prelude::*;
use crate::reg::{RegData, RegView};
use crate::mem::{AddressSpace, BusView, bus_read, bus_wf};

verus! {

/// 8-bit immediate loads into a register.
pub open spec fn grp_ld_imm8(op: u8) -> bool {
    op == 0x06 || op == 0x0E || op == 0x16 || op == 0x1E || op == 0x26 || op == 0x2E || op == 0x3E
}

/// Register-to-register 8-bit loads.
pub open spec fn grp_ld_rr(op: u8) -> bool {
    (0x78 <= op && op <= 0x7D) || op == 0x7F || (0x40 <= op && op <= 0x45) || (0x47 <= op && op
        <= 0x4D) || op == 0x4F || (0x50 <= op && op <= 0x55) || (0x57 <= op && op <= 0x5D) || op
        == 0x5F || (0x60 <= op && op <= 0x65) || (0x67 <= op && op <= 0x6D) || op == 0x6F
}

/// Loads between a register and memory addressed through a pair.
pub open spec fn grp_ld_ind(op: u8) -> bool {
    op == 0x7E || op == 0x46 || op == 0x4E || op == 0x56 || op == 0x5E || op == 0x66 || op == 0x6E
        || (0x70 <= op && op <= 0x75) || op == 0x0A || op == 0x1A || op == 0x02 || op == 0x12 || op
        == 0x77 || op == 0xF2 || op == 0xE2 || op == 0x3A || op == 0x32 || op == 0x2A || op == 0x22
        || op == 0xF9
}

/// Memory loads with one immediate operand.
pub open spec fn grp_ld_imm_mem(op: u8) -> bool {
    op == 0x36 || op == 0xE0 || op == 0xF0 || op == 0xF8
}

/// Loads between the accumulator and an immediate 16-bit address.
pub open spec fn grp_ld_a16(op: u8) -> bool {
    op == 0xFA || op == 0xEA
}

/// 16-bit immediate loads.
pub open spec fn grp_ld_imm16(op: u8) -> bool {
    op == 0x01 || op == 0x11 || op == 0x21 || op == 0x31
}

/// Stack pushes.
pub open spec fn grp_push(op: u8) -> bool {
    op == 0xF5 || op == 0xC5 || op == 0xD5 || op == 0xE5
}

/// Stack pops.
pub open spec fn grp_pop(op: u8) -> bool {
    op == 0xF1 || op == 0xC1 || op == 0xD1 || op == 0xE1
}

/// Arithmetic and logic on the accumulator and a register.
pub open spec fn grp_alu_rr(op: u8) -> bool {
    (0x80 <= op && op <= 0x85) || (0x87 <= op && op <= 0x8D) || (0x8F <= op && op <= 0x95) || (0x97
        <= op && op <= 0x9D) || (0x9F <= op && op <= 0xA5) || (0xA7 <= op && op <= 0xAD) || (0xAF
        <= op && op <= 0xB5) || (0xB7 <= op && op <= 0xBD) || op == 0xBF
}

/// Arithmetic and logic on the accumulator and memory at HL.
pub open spec fn grp_alu_hl(op: u8) -> bool {
    op == 0x86 || op == 0x8E || op == 0x96 || op == 0x9E || op == 0xA6 || op == 0xAE || op == 0xB6
        || op == 0xBE
}

/// Arithmetic and logic on the accumulator and an immediate.
pub open spec fn grp_alu_imm(op: u8) -> bool {
    op == 0xC6 || op == 0xCE || op == 0xD6 || op == 0xDE || op == 0xE6 || op == 0xEE || op == 0xF6
        || op == 0xFE
}

/// 8-bit register increments and decrements.
pub open spec fn grp_incdec(op: u8) -> bool {
    op == 0x3C || op == 0x3D || op == 0x04 || op == 0x05 || op == 0x0C || op == 0x0D || op == 0x14
        || op == 0x15 || op == 0x1C || op == 0x1D || op == 0x24 || op == 0x25 || op == 0x2C || op
        == 0x2D
}

/// Increment or decrement of memory at HL.
pub open spec fn grp_incdec_hl(op: u8) -> bool {
    op == 0x34 || op == 0x35
}

/// 16-bit arithmetic: adds into HL, and pair increments and decrements.
pub open spec fn grp_alu16(op: u8) -> bool {
    op == 0x09 || op == 0x19 || op == 0x29 || op == 0x39 || op == 0x03 || op == 0x13 || op == 0x23
        || op == 0x33 || op == 0x0B || op == 0x1B || op == 0x2B || op == 0x3B
}

/// One-byte instructions with no operand: decimal adjust, complements,
/// carry-flag operations, no-op, halt, interrupt toggles, accumulator
/// rotates.
pub open spec fn grp_misc(op: u8) -> bool {
    op == 0x27 || op == 0x2F || op == 0x3F || op == 0x37 || op == 0x00 || op == 0x76 || op == 0xF3
        || op == 0xFB || op == 0x07 || op == 0x17 || op == 0x0F || op == 0x1F
}

/// Absolute jumps, conditional and not.
pub open spec fn grp_jp(op: u8) -> bool {
    op == 0xC3 || op == 0xC2 || op == 0xCA || op == 0xD2 || op == 0xDA
}

/// Relative jumps, conditional and not.
pub open spec fn grp_jr(op: u8) -> bool {
    op == 0x18 || op == 0x20 || op == 0x28 || op == 0x30 || op == 0x38
}

/// Calls, conditional and not.
pub open spec fn grp_call(op: u8) -> bool {
    op == 0xCD || op == 0xC4 || op == 0xCC || op == 0xD4 || op == 0xDC
}

/// Restarts.
pub open spec fn grp_rst(op: u8) -> bool {
    op == 0xC7 || op == 0xCF || op == 0xD7 || op == 0xDF || op == 0xE7 || op == 0xEF || op == 0xF7
        || op == 0xFF
}

/// Returns, conditional and not.
pub open spec fn grp_ret(op: u8) -> bool {
    op == 0xC9 || op == 0xC0 || op == 0xC8 || op == 0xD0 || op == 0xD8 || op == 0xD9
}

/// Whether the primary table has an entry for the opcode.
pub open spec fn op_known(op: u8) -> bool {
    grp_ld_imm8(op) || grp_ld_rr(op) || grp_ld_ind(op) || grp_ld_imm_mem(op) || grp_ld_a16(op)
        || grp_ld_imm16(op) || op == 0x08 || grp_push(op) || grp_pop(op) || grp_alu_rr(op)
        || grp_alu_hl(op) || grp_alu_imm(op) || grp_incdec(op) || grp_incdec_hl(op) || grp_alu16(op)
        || op == 0xE8 || op == 0xCB || grp_misc(op) || op == 0x10 || grp_jp(op) || op == 0xE9
        || grp_jr(op) || grp_call(op) || grp_rst(op) || grp_ret(op)
}

/// The number of operand bytes that follow the opcode; an opcode
/// missing from the table decodes with no operands.
pub open spec fn op_len(op: u8) -> nat {
    if grp_ld_imm8(op) || grp_ld_imm_mem(op) || grp_alu_imm(op) || op == 0xE8 || op == 0xCB || op
        == 0x10 || grp_jr(op) {
        1
    } else if grp_ld_a16(op) || grp_ld_imm16(op) || op == 0x08 || grp_jp(op) || grp_call(op) {
        2
    } else {
        0
    }
}

/// The cycle cost of a primary-table opcode; an opcode missing from the
/// table decodes with the minimum cost.
pub open spec fn op_cycles(op: u8) -> u32 {
    if grp_ld_imm8(op) || grp_ld_ind(op) || grp_alu_hl(op) || grp_alu_imm(op) || grp_alu16(op)
        || grp_jr(op) || grp_ret(op) {
        8
    } else if grp_ld_imm_mem(op) || grp_ld_imm16(op) || grp_pop(op) || grp_incdec_hl(op)
        || grp_jp(op) || grp_call(op) {
        12
    } else if grp_ld_a16(op) || grp_push(op) || op == 0xE8 {
        16
    } else if op == 0x08 {
        20
    } else if grp_rst(op) {
        32
    } else {
        4
    }
}

/// Extended opcodes that operate on memory at HL.
pub open spec fn grp_cb_hl(sub: u8) -> bool {
    sub == 0x36 || sub == 0x06 || sub == 0x0E || sub == 0x16 || sub == 0x1E || sub == 0x26 || sub
        == 0x2E || sub == 0x3E || sub == 0x46 || sub == 0xC6 || sub == 0x86
}

/// Extended opcodes that operate on a register.
pub open spec fn grp_cb_reg(sub: u8) -> bool {
    (0x30 <= sub && sub <= 0x35) || sub == 0x37 || (sub <= 0x05) || (0x07 <= sub && sub <= 0x0D)
        || (0x0F <= sub && sub <= 0x15) || (0x17 <= sub && sub <= 0x1D) || (0x1F <= sub && sub
        <= 0x25) || (0x27 <= sub && sub <= 0x2D) || sub == 0x2F || (0x38 <= sub && sub <= 0x3D)
        || (0x3F <= sub && sub <= 0x45) || sub == 0x47 || (0xC0 <= sub && sub <= 0xC5) || sub
        == 0xC7 || (0x80 <= sub && sub <= 0x85) || sub == 0x87
}

/// Whether the secondary table has an entry for the extended opcode.
pub open spec fn cb_known(sub: u8) -> bool {
    grp_cb_reg(sub) || grp_cb_hl(sub)
}

/// The cycle cost of an extended opcode; one missing from the table
/// decodes with the minimum cost.
pub open spec fn cb_cycles(sub: u8) -> u32 {
    if grp_cb_reg(sub) {
        8
    } else if grp_cb_hl(sub) {
        16
    } else {
        4
    }
}

/// The decoded form of one instruction.
pub struct Instr {
    opcode: u8,
    data: Vec<u8>,
    cycles: u32,
    known: bool,
}

/// The mathematical model of a decoded instruction.
#[verifier::ext_equal]
pub struct InstrView {
    pub opcode: u8,
    pub data: Seq<u8>,
    pub cycles: u32,
    pub known: bool,
}

impl View for Instr {
    type V = InstrView;

    closed spec fn view(&self) -> InstrView {
        InstrView { opcode: self.opcode, data: self.data@, cycles: self.cycles, known: self.known }
    }
}

/// The instruction decoded from the bus at address `pc0`: the opcode
/// byte, its operands at the following addresses (wrapping at the top
/// of the address space), its cycle cost, and whether its table entry
/// exists.
pub open spec fn decode_instr(m: BusView, pc0: u16) -> InstrView {
    let op = bus_read(m, pc0);
    let d0 = bus_read(m, ((pc0 + 1) % 0x10000) as u16);
    let d1 = bus_read(m, ((pc0 + 2) % 0x10000) as u16);
    InstrView {
        opcode: op,
        data: if op_len(op) == 0 {
            Seq::empty()
        } else if op_len(op) == 1 {
            seq![d0]
        } else {
            seq![d0, d1]
        },
        cycles: if op == 0xCB {
            cb_cycles(d0)
        } else {
            op_cycles(op)
        },
        known: if op == 0xCB {
            cb_known(d0)
        } else {
            op_known(op)
        },
    }
}

/// Tests whether an opcode lies in a closed range.
fn between(op: u8, lo: u8, hi: u8) -> (r: bool)
    ensures
        r == (lo <= op && op <= hi),
{
    lo <= op && op <= hi
}

/// The executable form of `op_len`.
fn operand_len_of(op: u8) -> (r: u8)
    ensures
        r == op_len(op),
{
    if op == 0x06 || op == 0x0E || op == 0x16 || op == 0x1E || op == 0x26 || op == 0x2E || op
        == 0x3E || op == 0x36 || op == 0xE0 || op == 0xF0 || op == 0xF8 || op == 0xC6 || op == 0xCE
        || op == 0xD6 || op == 0xDE || op == 0xE6 || op == 0xEE || op == 0xF6 || op == 0xFE || op
        == 0xE8 || op == 0xCB || op == 0x10 || op == 0x18 || op == 0x20 || op == 0x28 || op == 0x30
        || op == 0x38 {
        1
    } else if op == 0xFA || op == 0xEA || op == 0x01 || op == 0x11 || op == 0x21 || op == 0x31 || op
        == 0x08 || op == 0xC3 || op == 0xC2 || op == 0xCA || op == 0xD2 || op == 0xDA || op == 0xCD
        || op == 0xC4 || op == 0xCC || op == 0xD4 || op == 0xDC {
        2
    } else {
        0
    }
}

/// The executable form of `op_cycles`.
fn cycles_of(op: u8) -> (r: u32)
    ensures
        r == op_cycles(op),
{
    if op == 0x06 || op == 0x0E || op == 0x16 || op == 0x1E || op == 0x26 || op == 0x2E || op
        == 0x3E || op == 0x7E || op == 0x46 || op == 0x4E || op == 0x56 || op == 0x5E || op == 0x66
        || op == 0x6E || between(op, 0x70, 0x75) || op == 0x0A || op == 0x1A || op == 0x02 || op
        == 0x12 || op == 0x77 || op == 0xF2 || op == 0xE2 || op == 0x3A || op == 0x32 || op == 0x2A
        || op == 0x22 || op == 0xF9 || op == 0x86 || op == 0x8E || op == 0x96 || op == 0x9E || op
        == 0xA6 || op == 0xAE || op == 0xB6 || op == 0xBE || op == 0xC6 || op == 0xCE || op == 0xD6
        || op == 0xDE || op == 0xE6 || op == 0xEE || op == 0xF6 || op == 0xFE || op == 0x09 || op
        == 0x19 || op == 0x29 || op == 0x39 || op == 0x03 || op == 0x13 || op == 0x23 || op == 0x33
        || op == 0x0B || op == 0x1B || op == 0x2B || op == 0x3B || op == 0x18 || op == 0x20 || op
        == 0x28 || op == 0x30 || op == 0x38 || op == 0xC9 || op == 0xC0 || op == 0xC8 || op == 0xD0
        || op == 0xD8 || op == 0xD9 {
        8
    } else if op == 0x36 || op == 0xE0 || op == 0xF0 || op == 0xF8 || op == 0x01 || op == 0x11 || op
        == 0x21 || op == 0x31 || op == 0xF1 || op == 0xC1 || op == 0xD1 || op == 0xE1 || op == 0x34
        || op == 0x35 || op == 0xC3 || op == 0xC2 || op == 0xCA || op == 0xD2 || op == 0xDA || op
        == 0xCD || op == 0xC4 || op == 0xCC || op == 0xD4 || op == 0xDC {
        12
    } else if op == 0xFA || op == 0xEA || op == 0xF5 || op == 0xC5 || op == 0xD5 || op == 0xE5 || op
        == 0xE8 {
        16
    } else if op == 0x08 {
        20
    } else if op == 0xC7 || op == 0xCF || op == 0xD7 || op == 0xDF || op == 0xE7 || op == 0xEF || op
        == 0xF7 || op == 0xFF {
        32
    } else {
        4
    }
}

/// The executable form of `op_known`.
fn known_of(op: u8) -> (r: bool)
    ensures
        r == op_known(op),
{
    between(op, 0x78, 0x7D) || op == 0x7F || between(op, 0x40, 0x45) || between(op, 0x47, 0x4D)
        || op == 0x4F || between(op, 0x50, 0x55) || between(op, 0x57, 0x5D) || op == 0x5F
        || between(op, 0x60, 0x65) || between(op, 0x67, 0x6D) || op == 0x6F || between(op, 0x80, 0x85)
        || between(op, 0x87, 0x8D) || between(op, 0x8F, 0x95) || between(op, 0x97, 0x9D)
        || between(op, 0x9F, 0xA5) || between(op, 0xA7, 0xAD) || between(op, 0xAF, 0xB5)
        || between(op, 0xB7, 0xBD) || op == 0xBF || op == 0x86 || op == 0x8E || op == 0x96 || op
        == 0x9E || op == 0xA6 || op == 0xAE || op == 0xB6 || op == 0xBE || op == 0x7E || op == 0x46 || op == 0x4E || op
        == 0x56 || op == 0x5E || op == 0x66 || op == 0x6E || between(op, 0x70, 0x75) || op == 0x0A
        || op == 0x1A || op == 0x02 || op == 0x12 || op == 0x77 || op == 0xF2 || op == 0xE2 || op
        == 0x3A || op == 0x32 || op == 0x2A || op == 0x22 || op == 0xF9 || op == 0x06 || op == 0x0E
        || op == 0x16 || op == 0x1E || op == 0x26 || op == 0x2E || op == 0x3E || op == 0x36 || op
        == 0xE0 || op == 0xF0 || op == 0xF8 || op == 0xFA || op == 0xEA || op == 0x01 || op == 0x11
        || op == 0x21 || op == 0x31 || op == 0x08 || op == 0xF5 || op == 0xC5 || op == 0xD5 || op
        == 0xE5 || op == 0xF1 || op == 0xC1 || op == 0xD1 || op == 0xE1 || op == 0xC6 || op == 0xCE
        || op == 0xD6 || op == 0xDE || op == 0xE6 || op == 0xEE || op == 0xF6 || op == 0xFE
        || between(op, 0x3C, 0x3D) || between(op, 0x04, 0x05) || between(op, 0x0C, 0x0D)
        || between(op, 0x14, 0x15) || between(op, 0x1C, 0x1D) || between(op, 0x24, 0x25)
        || between(op, 0x2C, 0x2D) || op == 0x34 || op == 0x35 || op == 0x09 || op == 0x19 || op
        == 0x29 || op == 0x39 || op == 0x03 || op == 0x13 || op == 0x23 || op == 0x33 || op == 0x0B
        || op == 0x1B || op == 0x2B || op == 0x3B || op == 0xE8 || op == 0xCB || op == 0x27 || op
        == 0x2F || op == 0x3F || op == 0x37 || op == 0x00 || op == 0x76 || op == 0xF3 || op == 0xFB
        || op == 0x07 || op == 0x17 || op == 0x0F || op == 0x1F || op == 0x10 || op == 0xC3 || op
        == 0xC2 || op == 0xCA || op == 0xD2 || op == 0xDA || op == 0xE9 || op == 0x18 || op == 0x20
        || op == 0x28 || op == 0x30 || op == 0x38 || op == 0xCD || op == 0xC4 || op == 0xCC || op
        == 0xD4 || op == 0xDC || op == 0xC7 || op == 0xCF || op == 0xD7 || op == 0xDF || op == 0xE7
        || op == 0xEF || op == 0xF7 || op == 0xFF || op == 0xC9 || op == 0xC0 || op == 0xC8 || op
        == 0xD0 || op == 0xD8 || op == 0xD9
}

/// The executable form of `grp_cb_reg`.
fn cb_reg_of(sub: u8) -> (r: bool)
    ensures
        r == grp_cb_reg(sub),
{
    between(sub, 0x30, 0x35) || sub == 0x37 || sub <= 0x05 || between(sub, 0x07, 0x0D) || between(
        sub,
        0x0F,
        0x15,
    ) || between(sub, 0x17, 0x1D) || between(sub, 0x1F, 0x25) || between(sub, 0x27, 0x2D) || sub
        == 0x2F || between(sub, 0x38, 0x3D) || between(sub, 0x3F, 0x45) || sub == 0x47 || between(
        sub,
        0xC0,
        0xC5,
    ) || sub == 0xC7 || between(sub, 0x80, 0x85) || sub == 0x87
}

/// The executable form of `grp_cb_hl`.
fn cb_hl_of(sub: u8) -> (r: bool)
    ensures
        r == grp_cb_hl(sub),
{
    sub == 0x36 || sub == 0x06 || sub == 0x0E || sub == 0x16 || sub == 0x1E || sub == 0x26 || sub
        == 0x2E || sub == 0x3E || sub == 0x46 || sub == 0xC6 || sub == 0x86
}

/// The executable form of `cb_cycles`.
fn cb_cycles_of(sub: u8) -> (r: u32)
    ensures
        r == cb_cycles(sub),
{
    if cb_reg_of(sub) {
        8
    } else if cb_hl_of(sub) {
        16
    } else {
        4
    }
}

impl Instr {
    /// Decodes one instruction at the program counter: fetches the
    /// opcode, reads its operands, advances the program counter past
    /// them, and assigns the cycle cost from the table. An opcode or
    /// extended opcode without a table entry still decodes, with no
    /// operands beyond the extended byte and the minimum cycle cost,
    /// and the instruction reports its table entry missing so that the
    /// caller can surface the condition.
    pub fn parse(reg: &mut RegData, rom: &AddressSpace) -> (r: Instr)
        requires
            bus_wf(rom@),
        ensures
            r@ == decode_instr(rom@, old(reg)@.pc),
            final(reg)@ == (RegView {
                pc: ((old(reg)@.pc + 1 + op_len(bus_read(rom@, old(reg)@.pc))) % 0x10000) as u16,
                ..old(reg)@
            }),
    {
        let ghost pc0 = reg@.pc;
        let opcode = rom.read(reg.advance_pc());
        let len = operand_len_of(opcode);
        let mut data: Vec<u8> = Vec::new();
        if len >= 1 {
            proof {
                assert(((pc0 + 1) % 0x10000 + 1) % 0x10000 == (pc0 + 2) % 0x10000);
            }
            data.push(rom.read(reg.advance_pc()));
        }
        if len >= 2 {
            proof {
                assert(((pc0 + 2) % 0x10000 + 1) % 0x10000 == (pc0 + 3) % 0x10000);
            }
            data.push(rom.read(reg.advance_pc()));
        }
        let (cycles, known): (u32, bool) = if opcode == 0xCB {
            (cb_cycles_of(data[0]), cb_reg_of(data[0]) || cb_hl_of(data[0]))
        } else {
            (cycles_of(opcode), known_of(opcode))
        };
        proof {
            let d0 = bus_read(rom@, ((pc0 + 1) % 0x10000) as u16);
            let d1 = bus_read(rom@, ((pc0 + 2) % 0x10000) as u16);
            if op_len(opcode) == 1 {
                assert(data@ =~= seq![d0]);
            } else if op_len(opcode) == 2 {
                assert(data@ =~= seq![d0, d1]);
            }
        }
        Instr { opcode, data, cycles, known }
    }

    /// The opcode byte.
    pub fn opcode(&self) -> (r: u8)
        ensures
            r == self@.opcode,
    {
        self.opcode
    }

    /// The cycle cost assigned by the table.
    pub fn cycles(&self) -> (r: u32)
        ensures
            r == self@.cycles,
    {
        self.cycles
    }

    /// Whether the opcode (and, behind the 0xCB prefix, the extended
    /// opcode) has a table entry; a decode without one is reported to
    /// the caller rather than treated as normal.
    pub fn is_known(&self) -> (r: bool)
        ensures
            r == self@.known,
    {
        self.known
    }

    /// The operand byte at an index within this instruction's operand
    /// count.
    pub fn param(&self, i: usize) -> (r: u8)
        requires
            i < self@.data.len(),
        ensures
            r == self@.data[i as int],
    {
        self.data[i]
    }

    /// The little-endian composition of two adjacent operand bytes;
    /// valid only for a two-operand instruction.
    pub fn param_u16(&self, i: usize) -> (r: u16)
        requires
            i + 1 < self@.data.len(),
        ensures
            r == self@.data[i as int] + self@.data[i + 1] * 256,
    {
        // The executable length bounds the operand count by the machine
        // word, so the index arithmetic below cannot overflow.
        let count = self.data.len();
        proof {
            assert(i + 1 < count);
            crate::bits::lemma_compose16(self.data@[i as int + 1], self.data@[i as int]);
        }
        ((self.data[i + 1] as u16) << 8u16) | (self.data[i] as u16)
    }
}

} // verus!
