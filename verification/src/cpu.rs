//! The execution engine: interprets decoded instructions against the
//! register file and the address space, computes the condition flags
//! exactly as the hardware does, advances the cycle counter, and keeps
//! the running/halted/stopped state machine.

use vstd::prelude::*;
use crate::reg::{
    RegData, RegView, RegFlag, Register, readable8, writable8, pair16, reg8_read, reg8_write,
    reg16_read, reg16_write, flag_get, flag_set, set_flags, lemma_set_flags_get,
};
use crate::mem::{AddressSpace, BusView, ObsView, bus_wf, bus_read, bus_read16, bus_write, bus_write16};
use crate::instr::{
    Instr, InstrView, decode_instr, op_len, grp_ld_imm8, grp_ld_rr, grp_ld_ind, grp_ld_imm_mem,
    grp_ld_a16, grp_ld_imm16, grp_push, grp_pop, grp_alu_rr, grp_alu_hl, grp_alu_imm, grp_incdec,
    grp_incdec_hl, grp_alu16, grp_misc,
};
use crate::clock::IntType;
use crate::bits::{lemma_low_nibble8, lemma_low_nibble16, lemma_low_byte16, lemma_low12_16, lemma_low16_32};

verus! {

pub const GB_FREQUENCY: u32 = 4194304;

/// The engine's execution state: instructions run only while Running;
/// Halted and Stopped are left through an external interrupt.
#[derive(Copy, Clone)]
pub enum CpuState {
    Running,
    Halted,
    Stopped,
}

/// The fatal condition: dispatch reached an opcode (or an extended
/// opcode, or a stop operand) with no defined behavior. The engine
/// cannot guess semantics; the caller must halt the machine with this
/// diagnostic.
#[derive(Debug, PartialEq, Eq)]
pub struct ExecError {
    /// The opcode that reached dispatch.
    pub opcode: u8,
    /// The extended opcode or operand byte, where one was involved.
    pub sub: Option<u8>,
    /// The address the opcode was fetched from.
    pub pc: u16,
}

/// The whole machine: register file, address space, frequency, cycle
/// counter, execution state and the interrupt-enable level.
pub struct Cpu {
    reg: RegData,
    ram: AddressSpace,
    freq: u32,
    clock: u64,
    state: CpuState,
    intlevel: bool,
}

/// The mathematical model of the machine.
#[verifier::ext_equal]
pub struct CpuView {
    pub reg: RegView,
    pub ram: BusView,
    pub freq: u32,
    pub clock: u64,
    pub state: CpuState,
    pub intlevel: bool,
}

impl View for Cpu {
    type V = CpuView;

    closed spec fn view(&self) -> CpuView {
        CpuView {
            reg: self.reg@,
            ram: self.ram@,
            freq: self.freq,
            clock: self.clock,
            state: self.state,
            intlevel: self.intlevel,
        }
    }
}

/// A machine at reset: registers and memory cleared, boot overlay
/// readable, cycle counter at zero, running, interrupts enabled.
pub open spec fn fresh_cpu(v: CpuView, freq: u32) -> bool {
    &&& v.reg == (RegView {
        a: 0,
        b: 0,
        c: 0,
        d: 0,
        e: 0,
        f: 0,
        h: 0,
        l: 0,
        sp: 0xFFFE,
        pc: 0x000,
        flag: 0,
    })
    &&& bus_wf(v.ram)
    &&& v.ram.bios_on
    &&& v.ram.obs == (ObsView { td_signed: true, td_unsigned: true, tmap0: true, tmap1: true })
    &&& (forall|i: int| 0 <= i < 0x100 ==> v.ram.bios[i] == 0u8)
    &&& (forall|i: int| 0 <= i < 0x10000 ==> v.ram.mem[i] == 0u8)
    &&& (forall|i: int| 0 <= i < 0x10000 ==> v.ram.backup[i] == 0u8)
    &&& v.freq == freq
    &&& v.clock == 0
    &&& v.state is Running
    &&& v.intlevel
}

/// A carry-in bit as an integer.
pub open spec fn cin(b: bool) -> int {
    if b {
        1
    } else {
        0
    }
}

/// The byte an 8-bit addition with carry-in leaves in its target.
pub open spec fn add8_val(x: u8, n: u8, c: bool) -> u8 {
    ((x + n + cin(c)) % 256) as u8
}

/// The flags byte after an 8-bit addition: Zero iff the result byte is
/// zero, Subtract false, HalfCarry iff the low nibbles and the carry-in
/// sum past 0xF, Carry iff the full sum exceeds 0xFF.
pub open spec fn add8_flags(fb: u8, x: u8, n: u8, c: bool) -> u8 {
    set_flags(
        fb,
        add8_val(x, n, c) == 0,
        false,
        x % 16 + n % 16 + cin(c) > 0xF,
        x + n + cin(c) > 0xFF,
    )
}

/// The register file after an add-with-carry into a register.
pub open spec fn sp_adc(v: RegView, r: Register, n: u8, c: bool) -> RegView {
    let x = reg8_read(v, r);
    reg8_write(RegView { flag: add8_flags(v.flag, x, n, c), ..v }, r, add8_val(x, n, c))
}

/// The 16-bit wrapped intermediate of a subtraction: the carry-in is
/// added to the minuend first, and the whole computation wraps modulo
/// 2^16 so that a borrow is visible above 0xFF.
pub open spec fn sub8_wrapped(x: u8, n: u8, c: bool) -> int {
    (x + cin(c) - n) % 0x10000
}

/// The byte an 8-bit subtraction with carry-in leaves in its target.
pub open spec fn sub8_val(x: u8, n: u8, c: bool) -> u8 {
    (sub8_wrapped(x, n, c) % 256) as u8
}

/// The flags byte after an 8-bit subtraction: Zero iff the result byte
/// is zero, Subtract true, HalfCarry iff the low nibble subtraction
/// borrows, Carry iff the wrapped difference exceeds 0xFF.
pub open spec fn sub8_flags(fb: u8, x: u8, n: u8, c: bool) -> u8 {
    set_flags(
        fb,
        sub8_val(x, n, c) == 0,
        true,
        ((x + cin(c)) % 16 - n % 16) % 0x10000 > 0xF,
        sub8_wrapped(x, n, c) > 0xFF,
    )
}

/// The register file after a subtract-with-carry into a register.
pub open spec fn sp_sbc(v: RegView, r: Register, n: u8, c: bool) -> RegView {
    let x = reg8_read(v, r);
    reg8_write(RegView { flag: sub8_flags(v.flag, x, n, c), ..v }, r, sub8_val(x, n, c))
}

/// The value a 16-bit addition leaves in its target.
pub open spec fn add16_val(x: u16, n: u16) -> u16 {
    ((x + n) % 0x10000) as u16
}

/// The flags byte after a 16-bit addition; the half-carry boundary is
/// bit 11.
pub open spec fn add16_flags(fb: u8, x: u16, n: u16) -> u8 {
    set_flags(
        fb,
        add16_val(x, n) == 0,
        false,
        x % 0x1000 + n % 0x1000 > 0xFFF,
        x + n > 0xFFFF,
    )
}

/// The register file after a 16-bit addition into a pair.
pub open spec fn sp_add16(v: RegView, r: Register, n: u16) -> RegView {
    let x = reg16_read(v, r);
    reg16_write(RegView { flag: add16_flags(v.flag, x, n), ..v }, r, add16_val(x, n))
}

/// The flags byte after a rotate, shift or nibble swap: Zero iff the
/// result is zero, Subtract and HalfCarry false, Carry the bit shifted
/// out (false for the swap).
pub open spec fn rot_flags(fb: u8, r: u8, c: bool) -> u8 {
    set_flags(fb, r == 0, false, false, c)
}

/// Left rotation: bit 7 moves to bit 0 and to the carry.
pub open spec fn lrot_val(x: u8) -> u8 {
    (x << 1u8) | (x >> 7u8)
}

/// Left rotation through the carry: the incoming carry flag is appended
/// as a ninth bit before shifting, so it enters at bit 0 while bit 7
/// leaves into the carry.
pub open spec fn lrot_through_val(x: u8, c: bool) -> u8 {
    (x << 1u8) | (if c {
        1u8
    } else {
        0u8
    })
}

/// Right rotation: bit 0 moves to bit 7 and to the carry.
pub open spec fn rrot_val(x: u8) -> u8 {
    (x >> 1u8) | ((x & 0x01) << 7u8)
}

/// Right rotation through the carry: the incoming carry enters at bit 7
/// while bit 0 leaves into the carry.
pub open spec fn rrot_through_val(x: u8, c: bool) -> u8 {
    (x >> 1u8) | (if c {
        0x80u8
    } else {
        0u8
    })
}

/// Left shift; bit 7 leaves into the carry.
pub open spec fn lshift_val(x: u8) -> u8 {
    x << 1u8
}

/// Logical right shift; bit 0 leaves into the carry.
pub open spec fn rshift_l_val(x: u8) -> u8 {
    x >> 1u8
}

/// Arithmetic right shift: the original bit 7 is preserved in the
/// result's bit 7; bit 0 leaves into the carry.
pub open spec fn rshift_a_val(x: u8) -> u8 {
    (x >> 1u8) | (x & 0x80)
}

/// The upper and lower nibbles exchanged.
pub open spec fn swap_val(x: u8) -> u8 {
    ((x & 0x0F) << 4u8) | ((x & 0xF0) >> 4u8)
}

/// The register file after a decimal adjust of the accumulator: the
/// binary result of the preceding addition or subtraction is corrected
/// to packed binary-coded decimal. After an addition, 0x06 is added if
/// the half-carry is set or the low nibble exceeds 9, and 0x60 if the
/// carry is set or the byte exceeds 0x99, which also sets the carry;
/// after a subtraction the corrections follow the flags alone and the
/// carry is kept. Zero follows the corrected byte, HalfCarry is
/// cleared, Subtract is kept.
pub open spec fn daa_apply(v: RegView) -> RegView {
    let a = v.a;
    let nf = flag_get(v.flag, RegFlag::Subtract);
    let hf = flag_get(v.flag, RegFlag::HalfCarry);
    let cf = flag_get(v.flag, RegFlag::Carry);
    if !nf {
        let adj = (if hf || a % 16 > 9 {
            6int
        } else {
            0int
        }) + (if cf || a > 0x99 {
            0x60int
        } else {
            0int
        });
        let a2 = ((a + adj) % 256) as u8;
        let c2 = cf || a > 0x99;
        reg8_write(RegView { flag: set_flags(v.flag, a2 == 0, nf, false, c2), ..v }, Register::A, a2)
    } else {
        let adj = (if hf {
            6int
        } else {
            0int
        }) + (if cf {
            0x60int
        } else {
            0int
        });
        let a2 = ((a - adj) % 256) as u8;
        reg8_write(RegView { flag: set_flags(v.flag, a2 == 0, nf, false, cf), ..v }, Register::A, a2)
    }
}

impl Cpu {
    /// A machine at reset, at the console's native frequency.
    pub fn new() -> (r: Cpu)
        ensures
            fresh_cpu(r@, GB_FREQUENCY),
    {
        Cpu::new_with_freq(GB_FREQUENCY)
    }

    /// A machine at reset, at a chosen frequency.
    pub fn new_with_freq(freq: u32) -> (r: Cpu)
        ensures
            fresh_cpu(r@, freq),
    {
        Cpu {
            reg: RegData::new(),
            ram: AddressSpace::new(),
            freq,
            clock: 0,
            state: CpuState::Running,
            intlevel: true,
        }
    }

    /// Whether the machine has reached the Stopped state.
    pub fn is_stopped(self) -> (r: bool)
        ensures
            r == (self@.state is Stopped),
    {
        if let CpuState::Stopped = self.state {
            true
        } else {
            false
        }
    }

    /// Whether the machine can never resume: it is halted or stopped
    /// while interrupts are disabled, so no external signal will wake
    /// it. The caller surfaces this as a diagnostic.
    pub fn is_stuck(&self) -> (r: bool)
        ensures
            r == (!(self@.state is Running) && !self@.intlevel),
    {
        let idle = match self.state {
            CpuState::Running => false,
            CpuState::Halted => true,
            CpuState::Stopped => true,
        };
        idle && !self.intlevel
    }

    /// Delivers an external interrupt signal: while interrupts are
    /// enabled it forces the machine back to Running, waking it from
    /// Halted or Stopped; with interrupts disabled it changes nothing.
    pub fn interrupt(&mut self, _int: IntType)
        ensures
            final(self)@ == (if old(self)@.intlevel {
                CpuView { state: CpuState::Running, ..old(self)@ }
            } else {
                old(self)@
            }),
    {
        if self.intlevel {
            self.state = CpuState::Running;
        }
    }

    /// Borrows the address space, for loading images and for the
    /// surrounding system's reads and system-level writes.
    pub fn get_ram(&mut self) -> (r: &mut AddressSpace)
        ensures
            *r == old(self).ram_field(),
            r@ == old(self)@.ram,
            final(self)@ == (CpuView { ram: final(r)@, ..old(self)@ }),
    {
        &mut self.ram
    }

    /// The address-space component, named so that the borrow returned
    /// by `get_ram` can be related to it.
    pub closed spec fn ram_field(&self) -> AddressSpace {
        self.ram
    }

    /// Borrows the register file, for observers of machine state.
    pub fn get_regs(&mut self) -> (r: &mut RegData)
        ensures
            *r == old(self).reg_field(),
            r@ == old(self)@.reg,
            final(self)@ == (CpuView { reg: final(r)@, ..old(self)@ }),
    {
        &mut self.reg
    }

    /// The register-file component, named so that the borrow returned
    /// by `get_regs` can be related to it.
    pub closed spec fn reg_field(&self) -> RegData {
        self.reg
    }

    /// Adds `n` into a register, without carry-in.
    pub fn add(&mut self, reg: Register, n: u8)
        requires
            readable8(reg),
            writable8(reg),
        ensures
            final(self)@ == (CpuView { reg: sp_adc(old(self)@.reg, reg, n, false), ..old(self)@ }),
    {
        self.add_with_carry(reg, n, false);
    }

    /// The 8-bit addition core: computes `x + n + carry`, sets all four
    /// flags, and returns the result byte without writing it back.
    pub fn add_no_writeback(&mut self, x: u8, n: u8, carry_flag: bool) -> (r: u8)
        ensures
            r == add8_val(x, n, carry_flag),
            final(self)@ == (CpuView {
                reg: (RegView {
                    flag: add8_flags(old(self)@.reg.flag, x, n, carry_flag),
                    ..old(self)@.reg
                }),
                ..old(self)@
            }),
    {
        let carry: u16 = if carry_flag {
            1
        } else {
            0
        };
        proof {
            lemma_low_nibble16(x as u16);
            lemma_low_nibble16(n as u16);
        }
        let halfsum: u16 = ((x as u16) & 0x0F) + ((n as u16) & 0x0F) + carry;
        let sum: u16 = x as u16 + n as u16 + carry;
        proof {
            lemma_low_byte16(sum);
        }
        let sum_u8: u8 = (sum & 0xFF) as u8;
        self.reg.set_flag(RegFlag::Zero, sum_u8 == 0);
        self.reg.set_flag(RegFlag::Subtract, false);
        self.reg.set_flag(RegFlag::HalfCarry, halfsum > 0x0F);
        self.reg.set_flag(RegFlag::Carry, sum > 0xFF);
        sum_u8
    }

    /// Adds `n` and a carry-in into a register, setting all four flags.
    pub fn add_with_carry(&mut self, reg: Register, n: u8, carry_flag: bool)
        requires
            readable8(reg),
            writable8(reg),
        ensures
            final(self)@ == (CpuView {
                reg: sp_adc(old(self)@.reg, reg, n, carry_flag),
                ..old(self)@
            }),
    {
        let x = self.reg.read(reg);
        let sum = self.add_no_writeback(x, n, carry_flag);
        self.reg.write(reg, sum);
    }

    /// Adds `n` into a 16-bit register, setting all four flags with the
    /// half-carry boundary at bit 11.
    pub fn add_u16(&mut self, reg: Register, n: u16)
        requires
            pair16(reg),
        ensures
            final(self)@ == (CpuView { reg: sp_add16(old(self)@.reg, reg, n), ..old(self)@ }),
    {
        let x = self.reg.read_u16(reg);
        proof {
            lemma_low12_16(x);
            lemma_low12_16(n);
        }
        let halfsum: u32 = ((x & 0x0FFF) as u32) + ((n & 0x0FFF) as u32);
        let sum: u32 = (x as u32) + (n as u32);
        proof {
            lemma_low16_32(sum);
        }
        let sum_u16: u16 = (sum & 0xFFFF) as u16;
        self.reg.set_flag(RegFlag::Zero, sum_u16 == 0);
        self.reg.set_flag(RegFlag::Subtract, false);
        self.reg.set_flag(RegFlag::HalfCarry, halfsum > 0x0FFF);
        self.reg.set_flag(RegFlag::Carry, sum > 0xFFFF);
        self.reg.write_u16(reg, sum_u16);
    }

    /// Increments a 16-bit register, wrapping at zero; pair increments
    /// leave the flags alone on the hardware.
    pub fn inc_u16(&mut self, reg: Register)
        requires
            pair16(reg),
        ensures
            final(self)@ == (CpuView {
                reg: reg16_write(
                    old(self)@.reg,
                    reg,
                    ((reg16_read(old(self)@.reg, reg) + 1) % 0x10000) as u16,
                ),
                ..old(self)@
            }),
    {
        let x = self.reg.read_u16(reg);
        self.reg.write_u16(reg, x.wrapping_add(1));
    }

    /// Decrements a 16-bit register, wrapping at zero; pair decrements
    /// leave the flags alone on the hardware.
    #[verifier::rlimit(50)]
    pub fn dec_u16(&mut self, reg: Register)
        requires
            pair16(reg),
        ensures
            final(self)@ == (CpuView {
                reg: reg16_write(
                    old(self)@.reg,
                    reg,
                    ((reg16_read(old(self)@.reg, reg) - 1) % 0x10000) as u16,
                ),
                ..old(self)@
            }),
    {
        let x = self.reg.read_u16(reg);
        self.reg.write_u16(reg, x.wrapping_sub(1));
    }

    /// Subtracts `n` from a register, without carry-in.
    pub fn sub(&mut self, reg: Register, n: u8)
        requires
            readable8(reg),
            writable8(reg),
        ensures
            final(self)@ == (CpuView { reg: sp_sbc(old(self)@.reg, reg, n, false), ..old(self)@ }),
    {
        self.sub_with_carry(reg, n, false);
    }

    /// The 8-bit subtraction core: adds the carry-in to the minuend,
    /// subtracts with wrapping 16-bit intermediate arithmetic so that a
    /// borrow is detected, sets all four flags, and returns the result
    /// byte without writing it back.
    pub fn sub_no_writeback(&mut self, x: u8, n: u8, carry_flag: bool) -> (r: u8)
        ensures
            r == sub8_val(x, n, carry_flag),
            final(self)@ == (CpuView {
                reg: (RegView {
                    flag: sub8_flags(old(self)@.reg.flag, x, n, carry_flag),
                    ..old(self)@.reg
                }),
                ..old(self)@
            }),
    {
        let carry: u16 = if carry_flag {
            1
        } else {
            0
        };
        let xw: u16 = x as u16 + carry;
        proof {
            lemma_low_nibble16(xw);
            lemma_low_nibble16(n as u16);
        }
        let halfdiff: u16 = (xw & 0x0F).wrapping_sub((n as u16) & 0x0F);
        let diff: u16 = xw.wrapping_sub(n as u16);
        proof {
            lemma_low_byte16(diff);
        }
        let diff_u8: u8 = (diff & 0xFF) as u8;
        self.reg.set_flag(RegFlag::Zero, diff_u8 == 0);
        self.reg.set_flag(RegFlag::Subtract, true);
        self.reg.set_flag(RegFlag::HalfCarry, halfdiff > 0x0F);
        self.reg.set_flag(RegFlag::Carry, diff > 0xFF);
        diff_u8
    }

    /// Subtracts `n` and a carry-in from a register, setting all four
    /// flags.
    pub fn sub_with_carry(&mut self, reg: Register, n: u8, carry_flag: bool)
        requires
            readable8(reg),
            writable8(reg),
        ensures
            final(self)@ == (CpuView {
                reg: sp_sbc(old(self)@.reg, reg, n, carry_flag),
                ..old(self)@
            }),
    {
        let x = self.reg.read(reg);
        let diff = self.sub_no_writeback(x, n, carry_flag);
        self.reg.write(reg, diff);
    }

    /// Sets the flags of a bitwise AND result: Zero by the result,
    /// Subtract false, HalfCarry true, Carry false.
    pub fn set_bitand_flags(&mut self, x: u8)
        ensures
            final(self)@ == (CpuView {
                reg: (RegView {
                    flag: set_flags(old(self)@.reg.flag, x == 0, false, true, false),
                    ..old(self)@.reg
                }),
                ..old(self)@
            }),
    {
        self.reg.set_flag(RegFlag::Zero, x == 0);
        self.reg.set_flag(RegFlag::Subtract, false);
        self.reg.set_flag(RegFlag::HalfCarry, true);
        self.reg.set_flag(RegFlag::Carry, false);
    }

    /// Sets the flags of a bitwise OR or XOR result: Zero by the
    /// result, the other three false.
    pub fn set_bitor_flags(&mut self, x: u8)
        ensures
            final(self)@ == (CpuView {
                reg: (RegView {
                    flag: set_flags(old(self)@.reg.flag, x == 0, false, false, false),
                    ..old(self)@.reg
                }),
                ..old(self)@
            }),
    {
        self.reg.set_flag(RegFlag::Zero, x == 0);
        self.reg.set_flag(RegFlag::Subtract, false);
        self.reg.set_flag(RegFlag::HalfCarry, false);
        self.reg.set_flag(RegFlag::Carry, false);
    }

    /// Exchanges the nibbles of a byte and sets the flags, returning
    /// the result without writing it back.
    pub fn swap_bits_no_writeback(&mut self, n: u8) -> (r: u8)
        ensures
            r == swap_val(n),
            final(self)@ == (CpuView {
                reg: (RegView {
                    flag: rot_flags(old(self)@.reg.flag, swap_val(n), false),
                    ..old(self)@.reg
                }),
                ..old(self)@
            }),
    {
        let x = ((n & 0x0F) << 4u8) | ((n & 0xF0) >> 4u8);
        self.reg.set_flag(RegFlag::Zero, x == 0);
        self.reg.set_flag(RegFlag::Subtract, false);
        self.reg.set_flag(RegFlag::HalfCarry, false);
        self.reg.set_flag(RegFlag::Carry, false);
        x
    }

    /// Exchanges the nibbles of a register.
    pub fn swap_bits(&mut self, reg: Register)
        requires
            readable8(reg),
            writable8(reg),
        ensures
            final(self)@ == (CpuView {
                reg: reg8_write(
                    (RegView {
                        flag: rot_flags(
                            old(self)@.reg.flag,
                            swap_val(reg8_read(old(self)@.reg, reg)),
                            false,
                        ),
                        ..old(self)@.reg
                    }),
                    reg,
                    swap_val(reg8_read(old(self)@.reg, reg)),
                ),
                ..old(self)@
            }),
    {
        let n = self.reg.read(reg);
        let x = self.swap_bits_no_writeback(n);
        self.reg.write(reg, x);
    }

    /// Left rotate, leaving the old most significant bit in the carry.
    pub fn lrot(&mut self, x: u8) -> (r: u8)
        ensures
            r == lrot_val(x),
            final(self)@ == (CpuView {
                reg: (RegView {
                    flag: rot_flags(old(self)@.reg.flag, lrot_val(x), (x & 0x80) != 0),
                    ..old(self)@.reg
                }),
                ..old(self)@
            }),
    {
        let rot = (x << 1u8) | (x >> 7u8);
        self.reg.set_flag(RegFlag::Zero, rot == 0);
        self.reg.set_flag(RegFlag::Subtract, false);
        self.reg.set_flag(RegFlag::HalfCarry, false);
        self.reg.set_flag(RegFlag::Carry, (x & 0x80) != 0);
        rot
    }

    /// Left rotate, treating the carry as a ninth bit of the value.
    pub fn lrot_through(&mut self, x: u8) -> (r: u8)
        ensures
            r == lrot_through_val(x, flag_get(old(self)@.reg.flag, RegFlag::Carry)),
            final(self)@ == (CpuView {
                reg: (RegView {
                    flag: rot_flags(
                        old(self)@.reg.flag,
                        lrot_through_val(x, flag_get(old(self)@.reg.flag, RegFlag::Carry)),
                        (x & 0x80) != 0,
                    ),
                    ..old(self)@.reg
                }),
                ..old(self)@
            }),
    {
        let carry = self.reg.get_flag(RegFlag::Carry);
        let rot = (x << 1u8) | (if carry {
            1u8
        } else {
            0u8
        });
        self.reg.set_flag(RegFlag::Zero, rot == 0);
        self.reg.set_flag(RegFlag::Subtract, false);
        self.reg.set_flag(RegFlag::HalfCarry, false);
        self.reg.set_flag(RegFlag::Carry, (x & 0x80) != 0);
        rot
    }

    /// Right rotate, leaving the old least significant bit in the
    /// carry.
    pub fn rrot(&mut self, x: u8) -> (r: u8)
        ensures
            r == rrot_val(x),
            final(self)@ == (CpuView {
                reg: (RegView {
                    flag: rot_flags(old(self)@.reg.flag, rrot_val(x), (x & 0x01) != 0),
                    ..old(self)@.reg
                }),
                ..old(self)@
            }),
    {
        let rot = (x >> 1u8) | ((x & 0x01) << 7u8);
        self.reg.set_flag(RegFlag::Zero, rot == 0);
        self.reg.set_flag(RegFlag::Subtract, false);
        self.reg.set_flag(RegFlag::HalfCarry, false);
        self.reg.set_flag(RegFlag::Carry, (x & 0x01) != 0);
        rot
    }

    /// Right rotate, treating the carry as a ninth bit of the value.
    pub fn rrot_through(&mut self, x: u8) -> (r: u8)
        ensures
            r == rrot_through_val(x, flag_get(old(self)@.reg.flag, RegFlag::Carry)),
            final(self)@ == (CpuView {
                reg: (RegView {
                    flag: rot_flags(
                        old(self)@.reg.flag,
                        rrot_through_val(x, flag_get(old(self)@.reg.flag, RegFlag::Carry)),
                        (x & 0x01) != 0,
                    ),
                    ..old(self)@.reg
                }),
                ..old(self)@
            }),
    {
        let carry = self.reg.get_flag(RegFlag::Carry);
        let rot = (x >> 1u8) | (if carry {
            0x80u8
        } else {
            0u8
        });
        self.reg.set_flag(RegFlag::Zero, rot == 0);
        self.reg.set_flag(RegFlag::Subtract, false);
        self.reg.set_flag(RegFlag::HalfCarry, false);
        self.reg.set_flag(RegFlag::Carry, (x & 0x01) != 0);
        rot
    }

    /// Left shift, leaving the old most significant bit in the carry.
    pub fn lshift(&mut self, x: u8) -> (r: u8)
        ensures
            r == lshift_val(x),
            final(self)@ == (CpuView {
                reg: (RegView {
                    flag: rot_flags(old(self)@.reg.flag, lshift_val(x), (x & 0x80) != 0),
                    ..old(self)@.reg
                }),
                ..old(self)@
            }),
    {
        let shift = x << 1u8;
        self.reg.set_flag(RegFlag::Zero, shift == 0);
        self.reg.set_flag(RegFlag::Subtract, false);
        self.reg.set_flag(RegFlag::HalfCarry, false);
        self.reg.set_flag(RegFlag::Carry, (x & 0x80) != 0);
        shift
    }

    /// Logical right shift; the sign bit is not preserved.
    pub fn rshift_logical(&mut self, x: u8) -> (r: u8)
        ensures
            r == rshift_l_val(x),
            final(self)@ == (CpuView {
                reg: (RegView {
                    flag: rot_flags(old(self)@.reg.flag, rshift_l_val(x), (x & 0x01) != 0),
                    ..old(self)@.reg
                }),
                ..old(self)@
            }),
    {
        let shift = x >> 1u8;
        self.reg.set_flag(RegFlag::Zero, shift == 0);
        self.reg.set_flag(RegFlag::Subtract, false);
        self.reg.set_flag(RegFlag::HalfCarry, false);
        self.reg.set_flag(RegFlag::Carry, (x & 0x01) != 0);
        shift
    }

    /// Arithmetic right shift; the original sign bit is preserved in
    /// the result's bit 7.
    pub fn rshift_arithmetic(&mut self, x: u8) -> (r: u8)
        ensures
            r == rshift_a_val(x),
            final(self)@ == (CpuView {
                reg: (RegView {
                    flag: rot_flags(old(self)@.reg.flag, rshift_a_val(x), (x & 0x01) != 0),
                    ..old(self)@.reg
                }),
                ..old(self)@
            }),
    {
        let shift = (x >> 1u8) | (x & 0x80);
        self.reg.set_flag(RegFlag::Zero, shift == 0);
        self.reg.set_flag(RegFlag::Subtract, false);
        self.reg.set_flag(RegFlag::HalfCarry, false);
        self.reg.set_flag(RegFlag::Carry, (x & 0x01) != 0);
        shift
    }

    /// Decimal adjust of the accumulator, from the hardware's
    /// documented behavior.
    fn daa(&mut self)
        ensures
            final(self)@ == (CpuView { reg: daa_apply(old(self)@.reg), ..old(self)@ }),
    {
        let a = self.reg.read(Register::A);
        let nf = self.reg.get_flag(RegFlag::Subtract);
        let hf = self.reg.get_flag(RegFlag::HalfCarry);
        let cf = self.reg.get_flag(RegFlag::Carry);
        proof {
            lemma_low_nibble8(a);
        }
        if !nf {
            let mut adj: u8 = 0;
            if hf || (a & 0x0F) > 9 {
                adj = 6;
            }
            let c2 = cf || a > 0x99;
            if c2 {
                adj = adj + 0x60;
            }
            let a2 = a.wrapping_add(adj);
            self.reg.set_flag(RegFlag::Zero, a2 == 0);
            self.reg.set_flag(RegFlag::Subtract, nf);
            self.reg.set_flag(RegFlag::HalfCarry, false);
            self.reg.set_flag(RegFlag::Carry, c2);
            self.reg.write(Register::A, a2);
        } else {
            let mut adj: u8 = 0;
            if hf {
                adj = 6;
            }
            if cf {
                adj = adj + 0x60;
            }
            let a2 = a.wrapping_sub(adj);
            self.reg.set_flag(RegFlag::Zero, a2 == 0);
            self.reg.set_flag(RegFlag::Subtract, nf);
            self.reg.set_flag(RegFlag::HalfCarry, false);
            self.reg.set_flag(RegFlag::Carry, cf);
            self.reg.write(Register::A, a2);
        }
    }
}

/// Flag law for 8-bit addition: for every operand pair and carry-in,
/// the result byte is the sum modulo 256; Zero holds exactly when that
/// byte is zero, Carry exactly when the full sum exceeds 0xFF,
/// HalfCarry exactly when the low nibbles and the carry-in sum past
/// 0xF, and Subtract never holds.
pub proof fn lemma_add_flag_law(fb: u8, x: u8, n: u8, c: bool)
    ensures
        add8_val(x, n, c) == (x + n + cin(c)) % 256,
        flag_get(add8_flags(fb, x, n, c), RegFlag::Zero) == (add8_val(x, n, c) == 0),
        flag_get(add8_flags(fb, x, n, c), RegFlag::Subtract) == false,
        flag_get(add8_flags(fb, x, n, c), RegFlag::HalfCarry) == (x % 16 + n % 16 + cin(c) > 0xF),
        flag_get(add8_flags(fb, x, n, c), RegFlag::Carry) == (x + n + cin(c) > 0xFF),
{
    lemma_set_flags_get(
        fb,
        add8_val(x, n, c) == 0,
        false,
        x % 16 + n % 16 + cin(c) > 0xF,
        x + n + cin(c) > 0xFF,
    );
}

/// Flag law for 8-bit subtraction, the borrow-based mirror of the
/// addition law: with the carry-in added to the minuend first, the
/// result byte is the difference modulo 256; Zero holds exactly when
/// that byte is zero, HalfCarry exactly when the low nibble of the
/// subtrahend exceeds that of the adjusted minuend, Carry exactly when
/// the wrapped 16-bit difference exceeds 0xFF (a borrow out of bit 8,
/// or the one adjusted minuend 0x100 that the carry-in can produce),
/// and Subtract always holds.
pub proof fn lemma_sub_flag_law(fb: u8, x: u8, n: u8, c: bool)
    ensures
        sub8_val(x, n, c) == (x + cin(c) - n) % 256,
        flag_get(sub8_flags(fb, x, n, c), RegFlag::Zero) == (sub8_val(x, n, c) == 0),
        flag_get(sub8_flags(fb, x, n, c), RegFlag::Subtract) == true,
        flag_get(sub8_flags(fb, x, n, c), RegFlag::HalfCarry) == ((x + cin(c)) % 16 < n % 16),
        flag_get(sub8_flags(fb, x, n, c), RegFlag::Carry) == (x + cin(c) < n || x + cin(c) - n
            == 0x100),
{
    lemma_set_flags_get(
        fb,
        sub8_val(x, n, c) == 0,
        true,
        ((x + cin(c)) % 16 - n % 16) % 0x10000 > 0xF,
        sub8_wrapped(x, n, c) > 0xFF,
    );
    let t = x + cin(c) - n;
    if t >= 0 {
        assert(t % 0x10000 == t);
    } else {
        assert(t % 0x10000 == t + 0x10000);
    }
    assert(sub8_val(x, n, c) == t % 256) by {
        if t >= 0 {
            assert(t % 0x10000 == t);
        } else {
            assert(t % 0x10000 == t + 0x10000);
            assert((t + 0x10000) % 256 == t % 256) by {
                vstd::arithmetic::div_mod::lemma_mod_multiples_vanish(256, t, 256);
            };
        }
    };
    let hd = (x + cin(c)) % 16 - n % 16;
    if hd >= 0 {
        assert(hd % 0x10000 == hd);
    } else {
        assert(hd % 0x10000 == hd + 0x10000);
    }
}

/// The 8-bit register selected by a three-bit field of an opcode, in
/// the hardware's order B, C, D, E, H, L, (memory), A; the memory slot
/// 6 is handled separately by every user.
pub open spec fn r8(t: int) -> Register {
    if t == 0 {
        Register::B
    } else if t == 1 {
        Register::C
    } else if t == 2 {
        Register::D
    } else if t == 3 {
        Register::E
    } else if t == 4 {
        Register::H
    } else if t == 5 {
        Register::L
    } else {
        Register::A
    }
}

/// The 16-bit pair selected by a two-bit field of an opcode, in the
/// order BC, DE, HL, SP.
pub open spec fn rp(t: int) -> Register {
    if t == 0 {
        Register::BC
    } else if t == 1 {
        Register::DE
    } else if t == 2 {
        Register::HL
    } else {
        Register::SP
    }
}

/// The 16-bit pair selected by a two-bit field of a stack opcode, in
/// the order BC, DE, HL, AF.
pub open spec fn stack_rp(t: int) -> Register {
    if t == 0 {
        Register::BC
    } else if t == 1 {
        Register::DE
    } else if t == 2 {
        Register::HL
    } else {
        Register::AF
    }
}

/// The little-endian 16-bit immediate of a two-operand instruction.
pub open spec fn iv16(i: InstrView) -> u16 {
    (i.data[0] + i.data[1] * 256) as u16
}

/// The load and stack group of the dispatcher.
pub open spec fn d_load(op: u8) -> bool {
    grp_ld_imm8(op) || grp_ld_rr(op) || grp_ld_ind(op) || grp_ld_imm_mem(op) || grp_ld_a16(op)
        || grp_ld_imm16(op) || op == 0x08 || grp_push(op) || grp_pop(op)
}

/// The arithmetic and logic group of the dispatcher.
pub open spec fn d_alu(op: u8) -> bool {
    grp_alu_rr(op) || grp_alu_hl(op) || grp_alu_imm(op) || grp_incdec(op) || grp_incdec_hl(op)
        || grp_alu16(op) || op == 0xE8
}

/// Whether dispatch has defined behavior for a decoded instruction:
/// the load, arithmetic and miscellaneous groups, the extended opcodes
/// below 0x40, and a stop whose operand byte is zero. Everything else
/// is the fatal condition.
pub open spec fn dispatchable(i: InstrView) -> bool {
    d_load(i.opcode) || d_alu(i.opcode) || grp_misc(i.opcode) || (i.opcode == 0xCB && i.data[0]
        < 0x40) || (i.opcode == 0x10 && i.data[0] == 0)
}

/// The diagnostic for an instruction dispatch cannot handle: the
/// opcode, the extended or operand byte where one was fetched, and the
/// address the opcode came from.
pub open spec fn step_err(i: InstrView, pc0: u16) -> ExecError {
    ExecError {
        opcode: i.opcode,
        sub: if i.opcode == 0xCB || i.opcode == 0x10 {
            Some(i.data[0])
        } else {
            None
        },
        pc: pc0,
    }
}

/// The cycle counter after one instruction, wrapping modulo 2^64.
pub open spec fn clock_add(k: u64, cy: u32) -> u64 {
    if k + cy > u64::MAX {
        (k + cy - 0x1_0000_0000_0000_0000) as u64
    } else {
        (k + cy) as u64
    }
}

/// The machine after one register-block load (opcodes 0x40 to 0x7F):
/// source and destination are selected by three-bit fields, slot 6
/// standing for memory at HL.
pub open spec fn x_ld_block(c: CpuView, i: InstrView) -> CpuView {
    let op = i.opcode;
    let d = (op - 0x40) / 8;
    let s = op % 8;
    if d == 6 {
        CpuView {
            ram: bus_write(c.ram, reg16_read(c.reg, Register::HL), reg8_read(c.reg, r8(s as int))),
            ..c
        }
    } else if s == 6 {
        CpuView {
            reg: reg8_write(c.reg, r8(d as int), bus_read(c.ram, reg16_read(c.reg, Register::HL))),
            ..c
        }
    } else {
        CpuView { reg: reg8_write(c.reg, r8(d as int), reg8_read(c.reg, r8(s as int))), ..c }
    }
}

/// The machine after an 8-bit immediate load into a register or into
/// memory at HL.
pub open spec fn x_ld_imm(c: CpuView, i: InstrView) -> CpuView {
    let op = i.opcode;
    let d = (op - 0x06) / 8;
    if d == 6 {
        CpuView { ram: bus_write(c.ram, reg16_read(c.reg, Register::HL), i.data[0]), ..c }
    } else {
        CpuView { reg: reg8_write(c.reg, r8(d as int), i.data[0]), ..c }
    }
}

/// The machine after one of the single-byte accumulator loads and
/// stores: through BC, DE or an immediate address, through the I/O page
/// at 0xFF00, and through HL with post-increment or post-decrement.
pub open spec fn x_ld_bytes(c: CpuView, i: InstrView) -> CpuView {
    let op = i.opcode;
    if op == 0x0A {
        CpuView {
            reg: reg8_write(c.reg, Register::A, bus_read(c.ram, reg16_read(c.reg, Register::BC))),
            ..c
        }
    } else if op == 0x1A {
        CpuView {
            reg: reg8_write(c.reg, Register::A, bus_read(c.ram, reg16_read(c.reg, Register::DE))),
            ..c
        }
    } else if op == 0xFA {
        CpuView { reg: reg8_write(c.reg, Register::A, bus_read(c.ram, iv16(i))), ..c }
    } else if op == 0x02 {
        CpuView {
            ram: bus_write(c.ram, reg16_read(c.reg, Register::BC), reg8_read(c.reg, Register::A)),
            ..c
        }
    } else if op == 0x12 {
        CpuView {
            ram: bus_write(c.ram, reg16_read(c.reg, Register::DE), reg8_read(c.reg, Register::A)),
            ..c
        }
    } else if op == 0xEA {
        CpuView { ram: bus_write(c.ram, iv16(i), reg8_read(c.reg, Register::A)), ..c }
    } else if op == 0xF2 {
        CpuView {
            reg: reg8_write(
                c.reg,
                Register::A,
                bus_read(c.ram, (0xFF00 + reg8_read(c.reg, Register::C)) as u16),
            ),
            ..c
        }
    } else if op == 0xE2 {
        CpuView {
            ram: bus_write(
                c.ram,
                (0xFF00 + reg8_read(c.reg, Register::C)) as u16,
                reg8_read(c.reg, Register::A),
            ),
            ..c
        }
    } else if op == 0xF0 {
        CpuView {
            reg: reg8_write(c.reg, Register::A, bus_read(c.ram, (0xFF00 + i.data[0]) as u16)),
            ..c
        }
    } else if op == 0xE0 {
        CpuView {
            ram: bus_write(c.ram, (0xFF00 + i.data[0]) as u16, reg8_read(c.reg, Register::A)),
            ..c
        }
    } else if op == 0x3A {
        let addr = reg16_read(c.reg, Register::HL);
        CpuView {
            reg: reg16_write(
                reg8_write(c.reg, Register::A, bus_read(c.ram, addr)),
                Register::HL,
                ((addr - 1) % 0x10000) as u16,
            ),
            ..c
        }
    } else if op == 0x32 {
        let addr = reg16_read(c.reg, Register::HL);
        CpuView {
            ram: bus_write(c.ram, addr, reg8_read(c.reg, Register::A)),
            reg: reg16_write(c.reg, Register::HL, ((addr - 1) % 0x10000) as u16),
            ..c
        }
    } else if op == 0x2A {
        let addr = reg16_read(c.reg, Register::HL);
        CpuView {
            reg: reg16_write(
                reg8_write(c.reg, Register::A, bus_read(c.ram, addr)),
                Register::HL,
                ((addr + 1) % 0x10000) as u16,
            ),
            ..c
        }
    } else {
        let addr = reg16_read(c.reg, Register::HL);
        CpuView {
            ram: bus_write(c.ram, addr, reg8_read(c.reg, Register::A)),
            reg: reg16_write(c.reg, Register::HL, ((addr + 1) % 0x10000) as u16),
            ..c
        }
    }
}

/// The machine after one 16-bit load: an immediate into a pair, HL
/// into the stack pointer, an effective address into HL, or the stack
/// pointer into memory.
pub open spec fn x_ld16(c: CpuView, i: InstrView) -> CpuView {
    let op = i.opcode;
    if grp_ld_imm16(op) {
        CpuView { reg: reg16_write(c.reg, rp(((op - 0x01) / 16) as int), iv16(i)), ..c }
    } else if op == 0xF9 {
        CpuView { reg: reg16_write(c.reg, Register::SP, reg16_read(c.reg, Register::HL)), ..c }
    } else if op == 0xF8 {
        CpuView {
            reg: reg16_write(
                c.reg,
                Register::HL,
                ((reg16_read(c.reg, Register::SP) + i.data[0]) % 0x10000) as u16,
            ),
            ..c
        }
    } else {
        CpuView { ram: bus_write16(c.ram, iv16(i), reg16_read(c.reg, Register::SP)), ..c }
    }
}

/// The machine after a stack push or pop: two bytes move between the
/// pair and memory at the stack pointer, and the stack pointer moves by
/// two.
pub open spec fn x_stack(c: CpuView, i: InstrView) -> CpuView {
    let op = i.opcode;
    if grp_push(op) {
        let t = ((op - 0xC5) / 16) as int;
        let addr = reg16_read(c.reg, Register::SP);
        CpuView {
            ram: bus_write16(c.ram, addr, reg16_read(c.reg, stack_rp(t))),
            reg: reg16_write(c.reg, Register::SP, ((addr - 2) % 0x10000) as u16),
            ..c
        }
    } else {
        let t = ((op - 0xC1) / 16) as int;
        let addr = reg16_read(c.reg, Register::SP);
        CpuView {
            reg: reg16_write(
                reg16_write(c.reg, stack_rp(t), bus_read16(c.ram, addr)),
                Register::SP,
                ((addr + 2) % 0x10000) as u16,
            ),
            ..c
        }
    }
}

/// The machine after one instruction of the load and stack group.
pub open spec fn x_load(c: CpuView, i: InstrView) -> CpuView {
    let op = i.opcode;
    if 0x40 <= op && op <= 0x7F {
        x_ld_block(c, i)
    } else if grp_ld_imm8(op) || op == 0x36 {
        x_ld_imm(c, i)
    } else if grp_ld_imm16(op) || op == 0xF9 || op == 0xF8 || op == 0x08 {
        x_ld16(c, i)
    } else if grp_push(op) || grp_pop(op) {
        x_stack(c, i)
    } else {
        x_ld_bytes(c, i)
    }
}

/// The register file after one 8-bit arithmetic or logic operation on
/// the accumulator, selected by the operation field of the opcode in
/// the hardware's order: add, add-with-carry, subtract,
/// subtract-with-carry, and, xor, or, compare.
pub open spec fn alu8_apply(v: RegView, fam: int, n: u8) -> RegView {
    if fam == 0 {
        sp_adc(v, Register::A, n, false)
    } else if fam == 1 {
        sp_adc(v, Register::A, n, flag_get(v.flag, RegFlag::Carry))
    } else if fam == 2 {
        sp_sbc(v, Register::A, n, false)
    } else if fam == 3 {
        sp_sbc(v, Register::A, n, flag_get(v.flag, RegFlag::Carry))
    } else if fam == 4 {
        let x = v.a & n;
        reg8_write(RegView { flag: set_flags(v.flag, x == 0, false, true, false), ..v }, Register::A, x)
    } else if fam == 5 {
        let x = v.a ^ n;
        reg8_write(RegView { flag: set_flags(v.flag, x == 0, false, false, false), ..v }, Register::A, x)
    } else if fam == 6 {
        let x = v.a | n;
        reg8_write(RegView { flag: set_flags(v.flag, x == 0, false, false, false), ..v }, Register::A, x)
    } else {
        RegView { flag: sub8_flags(v.flag, v.a, n, false), ..v }
    }
}

/// The machine after one instruction of the arithmetic group.
pub open spec fn x_alu(c: CpuView, i: InstrView) -> CpuView {
    let op = i.opcode;
    if grp_alu_rr(op) || grp_alu_hl(op) || grp_alu_imm(op) {
        let fam = if grp_alu_imm(op) {
            ((op - 0xC6) / 8) as int
        } else {
            ((op - 0x80) / 8) as int
        };
        let n = if grp_alu_imm(op) {
            i.data[0]
        } else if op % 8 == 6 {
            bus_read(c.ram, reg16_read(c.reg, Register::HL))
        } else {
            reg8_read(c.reg, r8((op % 8) as int))
        };
        CpuView { reg: alu8_apply(c.reg, fam, n), ..c }
    } else if grp_incdec_hl(op) {
        let addr = reg16_read(c.reg, Register::HL);
        let x = bus_read(c.ram, addr);
        if op == 0x34 {
            CpuView {
                reg: (RegView { flag: add8_flags(c.reg.flag, x, 1, false), ..c.reg }),
                ram: bus_write(c.ram, addr, add8_val(x, 1, false)),
                ..c
            }
        } else {
            CpuView {
                reg: (RegView { flag: sub8_flags(c.reg.flag, x, 1, false), ..c.reg }),
                ram: bus_write(c.ram, addr, sub8_val(x, 1, false)),
                ..c
            }
        }
    } else if grp_incdec(op) {
        let t = ((op - 0x04) / 8) as int;
        if op % 8 == 4 {
            CpuView { reg: sp_adc(c.reg, r8(t), 1, false), ..c }
        } else {
            CpuView { reg: sp_sbc(c.reg, r8(t), 1, false), ..c }
        }
    } else if op == 0x09 || op == 0x19 || op == 0x29 || op == 0x39 {
        CpuView {
            reg: sp_add16(c.reg, Register::HL, reg16_read(c.reg, rp(((op - 0x09) / 16) as int))),
            ..c
        }
    } else if op == 0xE8 {
        CpuView { reg: sp_add16(c.reg, Register::SP, i.data[0] as u16), ..c }
    } else if op == 0x03 || op == 0x13 || op == 0x23 || op == 0x33 {
        let r = rp(((op - 0x03) / 16) as int);
        CpuView { reg: reg16_write(c.reg, r, ((reg16_read(c.reg, r) + 1) % 0x10000) as u16), ..c }
    } else {
        let r = rp(((op - 0x0B) / 16) as int);
        CpuView { reg: reg16_write(c.reg, r, ((reg16_read(c.reg, r) - 1) % 0x10000) as u16), ..c }
    }
}

/// The result byte of an extended rotate, shift or swap, selected by
/// the operation field in the hardware's order: rotate left, rotate
/// right, rotate left through carry, rotate right through carry, shift
/// left, arithmetic shift right, nibble swap, logical shift right.
pub open spec fn cb_val(fam: int, x: u8, cf: bool) -> u8 {
    if fam == 0 {
        lrot_val(x)
    } else if fam == 1 {
        rrot_val(x)
    } else if fam == 2 {
        lrot_through_val(x, cf)
    } else if fam == 3 {
        rrot_through_val(x, cf)
    } else if fam == 4 {
        lshift_val(x)
    } else if fam == 5 {
        rshift_a_val(x)
    } else if fam == 6 {
        swap_val(x)
    } else {
        rshift_l_val(x)
    }
}

/// The carry an extended rotate, shift or swap leaves: the bit shifted
/// out, and false for the swap.
pub open spec fn cb_carry(fam: int, x: u8) -> bool {
    if fam == 0 || fam == 2 || fam == 4 {
        (x & 0x80) != 0
    } else if fam == 6 {
        false
    } else {
        (x & 0x01) != 0
    }
}

/// The machine after one extended (0xCB-prefixed) instruction.
pub open spec fn x_cb(c: CpuView, i: InstrView) -> CpuView {
    let sub = i.data[0];
    let fam = (sub / 8) as int;
    let t = (sub % 8) as int;
    let cf = flag_get(c.reg.flag, RegFlag::Carry);
    if t == 6 {
        let addr = reg16_read(c.reg, Register::HL);
        let x = bus_read(c.ram, addr);
        CpuView {
            reg: (RegView {
                flag: rot_flags(c.reg.flag, cb_val(fam, x, cf), cb_carry(fam, x)),
                ..c.reg
            }),
            ram: bus_write(c.ram, addr, cb_val(fam, x, cf)),
            ..c
        }
    } else {
        let r = r8(t);
        let x = reg8_read(c.reg, r);
        CpuView {
            reg: reg8_write(
                (RegView {
                    flag: rot_flags(c.reg.flag, cb_val(fam, x, cf), cb_carry(fam, x)),
                    ..c.reg
                }),
                r,
                cb_val(fam, x, cf),
            ),
            ..c
        }
    }
}

/// The machine after one instruction of the miscellaneous group:
/// no-op, halt, stop, interrupt toggles, decimal adjust, complements,
/// carry-flag operations and accumulator rotates.
pub open spec fn x_misc(c: CpuView, i: InstrView) -> CpuView {
    let op = i.opcode;
    if op == 0x00 {
        c
    } else if op == 0x76 {
        CpuView { state: CpuState::Halted, ..c }
    } else if op == 0x10 {
        CpuView { state: CpuState::Stopped, ..c }
    } else if op == 0xF3 {
        CpuView { intlevel: false, ..c }
    } else if op == 0xFB {
        CpuView { intlevel: true, ..c }
    } else if op == 0x27 {
        CpuView { reg: daa_apply(c.reg), ..c }
    } else if op == 0x2F {
        CpuView {
            reg: reg8_write(
                (RegView {
                    flag: flag_set(
                        flag_set(c.reg.flag, RegFlag::Subtract, true),
                        RegFlag::HalfCarry,
                        true,
                    ),
                    ..c.reg
                }),
                Register::A,
                c.reg.a ^ 0xFF,
            ),
            ..c
        }
    } else if op == 0x3F {
        CpuView {
            reg: (RegView {
                flag: flag_set(
                    flag_set(flag_set(c.reg.flag, RegFlag::Subtract, false), RegFlag::HalfCarry, false),
                    RegFlag::Carry,
                    !flag_get(c.reg.flag, RegFlag::Carry),
                ),
                ..c.reg
            }),
            ..c
        }
    } else if op == 0x37 {
        CpuView {
            reg: (RegView {
                flag: flag_set(
                    flag_set(flag_set(c.reg.flag, RegFlag::Subtract, false), RegFlag::HalfCarry, false),
                    RegFlag::Carry,
                    true,
                ),
                ..c.reg
            }),
            ..c
        }
    } else if op == 0x07 {
        let a = c.reg.a;
        CpuView {
            reg: reg8_write(
                (RegView { flag: rot_flags(c.reg.flag, lrot_val(a), (a & 0x80) != 0), ..c.reg }),
                Register::A,
                lrot_val(a),
            ),
            ..c
        }
    } else if op == 0x17 {
        let a = c.reg.a;
        let cf = flag_get(c.reg.flag, RegFlag::Carry);
        CpuView {
            reg: reg8_write(
                (RegView {
                    flag: rot_flags(c.reg.flag, lrot_through_val(a, cf), (a & 0x80) != 0),
                    ..c.reg
                }),
                Register::A,
                lrot_through_val(a, cf),
            ),
            ..c
        }
    } else if op == 0x0F {
        let a = c.reg.a;
        CpuView {
            reg: reg8_write(
                (RegView { flag: rot_flags(c.reg.flag, rrot_val(a), (a & 0x01) != 0), ..c.reg }),
                Register::A,
                rrot_val(a),
            ),
            ..c
        }
    } else {
        let a = c.reg.a;
        let cf = flag_get(c.reg.flag, RegFlag::Carry);
        CpuView {
            reg: reg8_write(
                (RegView {
                    flag: rot_flags(c.reg.flag, rrot_through_val(a, cf), (a & 0x01) != 0),
                    ..c.reg
                }),
                Register::A,
                rrot_through_val(a, cf),
            ),
            ..c
        }
    }
}

/// The machine after dispatching one decoded instruction, the program
/// counter already advanced past it; the cycle counter is advanced by
/// the caller.
pub open spec fn cpu_exec(c: CpuView, i: InstrView) -> CpuView {
    if d_load(i.opcode) {
        x_load(c, i)
    } else if d_alu(i.opcode) {
        x_alu(c, i)
    } else if i.opcode == 0xCB {
        x_cb(c, i)
    } else {
        x_misc(c, i)
    }
}

/// The executable form of `r8`.
fn reg8_of(t: u8) -> (r: Register)
    requires
        t < 8,
        t != 6,
    ensures
        r == r8(t as int),
{
    if t == 0 {
        Register::B
    } else if t == 1 {
        Register::C
    } else if t == 2 {
        Register::D
    } else if t == 3 {
        Register::E
    } else if t == 4 {
        Register::H
    } else if t == 5 {
        Register::L
    } else {
        Register::A
    }
}

/// The executable form of `rp`.
fn rp16_of(t: u8) -> (r: Register)
    requires
        t < 4,
    ensures
        r == rp(t as int),
{
    if t == 0 {
        Register::BC
    } else if t == 1 {
        Register::DE
    } else if t == 2 {
        Register::HL
    } else {
        Register::SP
    }
}

/// The executable form of `stack_rp`.
fn stack_rp_of(t: u8) -> (r: Register)
    requires
        t < 4,
    ensures
        r == stack_rp(t as int),
{
    if t == 0 {
        Register::BC
    } else if t == 1 {
        Register::DE
    } else if t == 2 {
        Register::HL
    } else {
        Register::AF
    }
}

/// The executable form of `d_load`.
fn is_load_of(op: u8) -> (r: bool)
    ensures
        r == d_load(op),
{
    (0x40 <= op && op <= 0x75) || (0x77 <= op && op <= 0x7F) || op == 0x06 || op == 0x0E || op
        == 0x16 || op == 0x1E || op == 0x26 || op == 0x2E || op == 0x3E || op == 0x36 || op == 0x0A
        || op == 0x1A || op == 0x02 || op == 0x12 || op == 0xF2 || op == 0xE2 || op == 0x3A || op
        == 0x32 || op == 0x2A || op == 0x22 || op == 0xF9 || op == 0xE0 || op == 0xF0 || op == 0xF8
        || op == 0xFA || op == 0xEA || op == 0x01 || op == 0x11 || op == 0x21 || op == 0x31 || op
        == 0x08 || op == 0xF5 || op == 0xC5 || op == 0xD5 || op == 0xE5 || op == 0xF1 || op == 0xC1
        || op == 0xD1 || op == 0xE1
}

/// The executable form of `d_alu`.
fn is_alu_of(op: u8) -> (r: bool)
    ensures
        r == d_alu(op),
{
    (0x80 <= op && op <= 0x85) || (0x87 <= op && op <= 0x8D) || (0x8F <= op && op <= 0x95) || (0x97
        <= op && op <= 0x9D) || (0x9F <= op && op <= 0xA5) || (0xA7 <= op && op <= 0xAD) || (0xAF
        <= op && op <= 0xB5) || (0xB7 <= op && op <= 0xBD) || op == 0xBF || op == 0x86 || op == 0x8E
        || op == 0x96 || op == 0x9E || op == 0xA6 || op == 0xAE || op == 0xB6 || op == 0xBE || op
        == 0xC6 || op == 0xCE || op == 0xD6 || op == 0xDE || op == 0xE6 || op == 0xEE || op == 0xF6
        || op == 0xFE || op == 0x3C || op == 0x3D || op == 0x04 || op == 0x05 || op == 0x0C || op
        == 0x0D || op == 0x14 || op == 0x15 || op == 0x1C || op == 0x1D || op == 0x24 || op == 0x25
        || op == 0x2C || op == 0x2D || op == 0x34 || op == 0x35 || op == 0x09 || op == 0x19 || op
        == 0x29 || op == 0x39 || op == 0x03 || op == 0x13 || op == 0x23 || op == 0x33 || op == 0x0B
        || op == 0x1B || op == 0x2B || op == 0x3B || op == 0xE8
}

/// The executable form of `grp_misc`.
fn is_misc_of(op: u8) -> (r: bool)
    ensures
        r == grp_misc(op),
{
    op == 0x27 || op == 0x2F || op == 0x3F || op == 0x37 || op == 0x00 || op == 0x76 || op == 0xF3
        || op == 0xFB || op == 0x07 || op == 0x17 || op == 0x0F || op == 0x1F
}

impl Cpu {
    /// Executes one instruction of the load and stack group.
    fn exec_load(&mut self, instr: &Instr)
        requires
            bus_wf(old(self)@.ram),
            d_load(instr@.opcode),
            instr@.data.len() == op_len(instr@.opcode),
        ensures
            bus_wf(final(self)@.ram),
            final(self)@ == x_load(old(self)@, instr@),
    {
        let op = instr.opcode();
        if 0x40 <= op && op <= 0x7F {
            self.exec_ld_block(instr);
        } else if op == 0x06 || op == 0x0E || op == 0x16 || op == 0x1E || op == 0x26 || op == 0x2E
            || op == 0x3E || op == 0x36 {
            self.exec_ld_imm(instr);
        } else if op == 0x01 || op == 0x11 || op == 0x21 || op == 0x31 || op == 0xF9 || op == 0xF8
            || op == 0x08 {
            self.exec_ld16(instr);
        } else if op == 0xF5 || op == 0xC5 || op == 0xD5 || op == 0xE5 || op == 0xF1 || op == 0xC1
            || op == 0xD1 || op == 0xE1 {
            self.exec_stack(instr);
        } else {
            self.exec_ld_bytes(instr);
        }
    }

    /// Executes one register-block load.
    #[verifier::rlimit(100)]
    fn exec_ld_block(&mut self, instr: &Instr)
        requires
            bus_wf(old(self)@.ram),
            d_load(instr@.opcode),
            0x40 <= instr@.opcode <= 0x7F,
        ensures
            bus_wf(final(self)@.ram),
            final(self)@ == x_ld_block(old(self)@, instr@),
    {
        let op = instr.opcode();
        let d = (op - 0x40) / 8;
        let s = op % 8;
        if d == 6 {
            let addr = self.reg.read_u16(Register::HL);
            let v = self.reg.read(reg8_of(s));
            self.ram.write(addr, v);
        } else if s == 6 {
            let addr = self.reg.read_u16(Register::HL);
            let v = self.ram.read(addr);
            self.reg.write(reg8_of(d), v);
        } else {
            self.reg.copy(reg8_of(d), reg8_of(s));
        }
    }

    /// Executes one 8-bit immediate load.
    #[verifier::rlimit(100)]
    fn exec_ld_imm(&mut self, instr: &Instr)
        requires
            bus_wf(old(self)@.ram),
            grp_ld_imm8(instr@.opcode) || instr@.opcode == 0x36,
            instr@.data.len() == 1,
        ensures
            bus_wf(final(self)@.ram),
            final(self)@ == x_ld_imm(old(self)@, instr@),
    {
        let op = instr.opcode();
        let d = (op - 0x06) / 8;
        if d == 6 {
            let addr = self.reg.read_u16(Register::HL);
            let v = instr.param(0);
            self.ram.write(addr, v);
        } else {
            self.reg.write(reg8_of(d), instr.param(0));
        }
    }

    /// Executes one single-byte accumulator load or store.
    #[verifier::rlimit(100)]
    fn exec_ld_bytes(&mut self, instr: &Instr)
        requires
            bus_wf(old(self)@.ram),
            instr@.opcode == 0x0A || instr@.opcode == 0x1A || instr@.opcode == 0xFA
                || instr@.opcode == 0x02 || instr@.opcode == 0x12 || instr@.opcode == 0xEA
                || instr@.opcode == 0xF2 || instr@.opcode == 0xE2 || instr@.opcode == 0xF0
                || instr@.opcode == 0xE0 || instr@.opcode == 0x3A || instr@.opcode == 0x32
                || instr@.opcode == 0x2A || instr@.opcode == 0x22,
            instr@.data.len() == op_len(instr@.opcode),
        ensures
            bus_wf(final(self)@.ram),
            final(self)@ == x_ld_bytes(old(self)@, instr@),
    {
        let op = instr.opcode();
        if op == 0x0A {
            let addr = self.reg.read_u16(Register::BC);
            let v = self.ram.read(addr);
            self.reg.write(Register::A, v);
        } else if op == 0x1A {
            let addr = self.reg.read_u16(Register::DE);
            let v = self.ram.read(addr);
            self.reg.write(Register::A, v);
        } else if op == 0xFA {
            let v = self.ram.read(instr.param_u16(0));
            self.reg.write(Register::A, v);
        } else if op == 0x02 {
            let addr = self.reg.read_u16(Register::BC);
            let v = self.reg.read(Register::A);
            self.ram.write(addr, v);
        } else if op == 0x12 {
            let addr = self.reg.read_u16(Register::DE);
            let v = self.reg.read(Register::A);
            self.ram.write(addr, v);
        } else if op == 0xEA {
            let addr = instr.param_u16(0);
            let v = self.reg.read(Register::A);
            self.ram.write(addr, v);
        } else if op == 0xF2 {
            let addr = 0xFF00 + self.reg.read(Register::C) as u16;
            let v = self.ram.read(addr);
            self.reg.write(Register::A, v);
        } else if op == 0xE2 {
            let addr = 0xFF00 + self.reg.read(Register::C) as u16;
            let v = self.reg.read(Register::A);
            self.ram.write(addr, v);
        } else if op == 0xF0 {
            let addr = 0xFF00 + instr.param(0) as u16;
            let v = self.ram.read(addr);
            self.reg.write(Register::A, v);
        } else if op == 0xE0 {
            let addr = 0xFF00 + instr.param(0) as u16;
            let v = self.reg.read(Register::A);
            self.ram.write(addr, v);
        } else if op == 0x3A {
            let addr = self.reg.read_u16(Register::HL);
            let v = self.ram.read(addr);
            self.reg.write(Register::A, v);
            self.reg.write_u16(Register::HL, addr.wrapping_sub(1));
        } else if op == 0x32 {
            let addr = self.reg.read_u16(Register::HL);
            let v = self.reg.read(Register::A);
            self.ram.write(addr, v);
            self.reg.write_u16(Register::HL, addr.wrapping_sub(1));
        } else if op == 0x2A {
            let addr = self.reg.read_u16(Register::HL);
            let v = self.ram.read(addr);
            self.reg.write(Register::A, v);
            self.reg.write_u16(Register::HL, addr.wrapping_add(1));
        } else {
            let addr = self.reg.read_u16(Register::HL);
            let v = self.reg.read(Register::A);
            self.ram.write(addr, v);
            self.reg.write_u16(Register::HL, addr.wrapping_add(1));
        }
    }

    /// Executes one 16-bit load.
    #[verifier::rlimit(100)]
    fn exec_ld16(&mut self, instr: &Instr)
        requires
            bus_wf(old(self)@.ram),
            grp_ld_imm16(instr@.opcode) || instr@.opcode == 0xF9 || instr@.opcode == 0xF8
                || instr@.opcode == 0x08,
            instr@.data.len() == op_len(instr@.opcode),
        ensures
            bus_wf(final(self)@.ram),
            final(self)@ == x_ld16(old(self)@, instr@),
    {
        let op = instr.opcode();
        if op == 0x01 || op == 0x11 || op == 0x21 || op == 0x31 {
            let r = rp16_of((op - 0x01) / 16);
            self.reg.write_u16(r, instr.param_u16(0));
        } else if op == 0xF9 {
            self.reg.copy_u16(Register::SP, Register::HL);
        } else if op == 0xF8 {
            let addr = self.reg.read_u16(Register::SP).wrapping_add(instr.param(0) as u16);
            self.reg.write_u16(Register::HL, addr);
        } else {
            let addr = instr.param_u16(0);
            let v = self.reg.read_u16(Register::SP);
            self.ram.write_u16(addr, v);
        }
    }

    /// Executes one stack push or pop.
    #[verifier::rlimit(100)]
    fn exec_stack(&mut self, instr: &Instr)
        requires
            bus_wf(old(self)@.ram),
            grp_push(instr@.opcode) || grp_pop(instr@.opcode),
        ensures
            bus_wf(final(self)@.ram),
            final(self)@ == x_stack(old(self)@, instr@),
    {
        let op = instr.opcode();
        if op == 0xF5 || op == 0xC5 || op == 0xD5 || op == 0xE5 {
            let r = stack_rp_of((op - 0xC5) / 16);
            let addr = self.reg.read_u16(Register::SP);
            let v = self.reg.read_u16(r);
            self.ram.write_u16(addr, v);
            self.reg.write_u16(Register::SP, addr.wrapping_sub(2));
        } else {
            let r = stack_rp_of((op - 0xC1) / 16);
            let addr = self.reg.read_u16(Register::SP);
            let v = self.ram.read_u16(addr);
            self.reg.write_u16(r, v);
            self.reg.write_u16(Register::SP, addr.wrapping_add(2));
        }
    }

    /// Executes one instruction of the arithmetic and logic group.
    #[verifier::rlimit(100)]
    fn exec_alu(&mut self, instr: &Instr)
        requires
            bus_wf(old(self)@.ram),
            d_alu(instr@.opcode),
            instr@.data.len() == op_len(instr@.opcode),
        ensures
            bus_wf(final(self)@.ram),
            final(self)@ == x_alu(old(self)@, instr@),
    {
        let op = instr.opcode();
        let imm = op == 0xC6 || op == 0xCE || op == 0xD6 || op == 0xDE || op == 0xE6 || op == 0xEE
            || op == 0xF6 || op == 0xFE;
        if imm || (0x80 <= op && op <= 0xBF) {
            let fam = if imm {
                (op - 0xC6) / 8
            } else {
                (op - 0x80) / 8
            };
            let n = if imm {
                instr.param(0)
            } else if op % 8 == 6 {
                let addr = self.reg.read_u16(Register::HL);
                self.ram.read(addr)
            } else {
                self.reg.read(reg8_of(op % 8))
            };
            if fam == 0 {
                self.add(Register::A, n);
            } else if fam == 1 {
                let cf = self.reg.get_flag(RegFlag::Carry);
                self.add_with_carry(Register::A, n, cf);
            } else if fam == 2 {
                self.sub(Register::A, n);
            } else if fam == 3 {
                let cf = self.reg.get_flag(RegFlag::Carry);
                self.sub_with_carry(Register::A, n, cf);
            } else if fam == 4 {
                let a = self.reg.read(Register::A);
                let x = a & n;
                self.set_bitand_flags(x);
                self.reg.write(Register::A, x);
            } else if fam == 5 {
                let a = self.reg.read(Register::A);
                let x = a ^ n;
                self.set_bitor_flags(x);
                self.reg.write(Register::A, x);
            } else if fam == 6 {
                let a = self.reg.read(Register::A);
                let x = a | n;
                self.set_bitor_flags(x);
                self.reg.write(Register::A, x);
            } else {
                let a = self.reg.read(Register::A);
                self.sub_no_writeback(a, n, false);
            }
        } else if op == 0x34 || op == 0x35 {
            let addr = self.reg.read_u16(Register::HL);
            let x = self.ram.read(addr);
            let v = if op == 0x34 {
                self.add_no_writeback(x, 1, false)
            } else {
                self.sub_no_writeback(x, 1, false)
            };
            self.ram.write(addr, v);
        } else if op == 0x3C || op == 0x3D || op == 0x04 || op == 0x05 || op == 0x0C || op == 0x0D
            || op == 0x14 || op == 0x15 || op == 0x1C || op == 0x1D || op == 0x24 || op == 0x25
            || op == 0x2C || op == 0x2D {
            let t = (op - 0x04) / 8;
            if op % 8 == 4 {
                self.add(reg8_of(t), 1);
            } else {
                self.sub(reg8_of(t), 1);
            }
        } else if op == 0x09 || op == 0x19 || op == 0x29 || op == 0x39 {
            let n = self.reg.read_u16(rp16_of((op - 0x09) / 16));
            self.add_u16(Register::HL, n);
        } else if op == 0xE8 {
            let n = instr.param(0) as u16;
            self.add_u16(Register::SP, n);
        } else if op == 0x03 || op == 0x13 || op == 0x23 || op == 0x33 {
            self.inc_u16(rp16_of((op - 0x03) / 16));
        } else {
            self.dec_u16(rp16_of((op - 0x0B) / 16));
        }
    }

    /// Applies one extended rotate, shift or swap operation to a byte,
    /// setting the flags, and returns the result.
    fn cb_op(&mut self, fam: u8, x: u8) -> (r: u8)
        requires
            fam < 8,
        ensures
            r == cb_val(fam as int, x, flag_get(old(self)@.reg.flag, RegFlag::Carry)),
            final(self)@ == (CpuView {
                reg: (RegView {
                    flag: rot_flags(
                        old(self)@.reg.flag,
                        cb_val(fam as int, x, flag_get(old(self)@.reg.flag, RegFlag::Carry)),
                        cb_carry(fam as int, x),
                    ),
                    ..old(self)@.reg
                }),
                ..old(self)@
            }),
    {
        if fam == 0 {
            self.lrot(x)
        } else if fam == 1 {
            self.rrot(x)
        } else if fam == 2 {
            self.lrot_through(x)
        } else if fam == 3 {
            self.rrot_through(x)
        } else if fam == 4 {
            self.lshift(x)
        } else if fam == 5 {
            self.rshift_arithmetic(x)
        } else if fam == 6 {
            self.swap_bits_no_writeback(x)
        } else {
            self.rshift_logical(x)
        }
    }

    /// Executes one extended (0xCB-prefixed) instruction.
    fn exec_cb(&mut self, instr: &Instr)
        requires
            bus_wf(old(self)@.ram),
            instr@.opcode == 0xCB,
            instr@.data.len() == 1,
            instr@.data[0] < 0x40,
        ensures
            bus_wf(final(self)@.ram),
            final(self)@ == x_cb(old(self)@, instr@),
    {
        let sub = instr.param(0);
        let fam = sub / 8;
        let t = sub % 8;
        if t == 6 {
            let addr = self.reg.read_u16(Register::HL);
            let x = self.ram.read(addr);
            let v = self.cb_op(fam, x);
            self.ram.write(addr, v);
        } else {
            let r = reg8_of(t);
            let x = self.reg.read(r);
            let v = self.cb_op(fam, x);
            self.reg.write(r, v);
        }
    }

    /// Executes one instruction of the miscellaneous group.
    fn exec_misc(&mut self, instr: &Instr)
        requires
            bus_wf(old(self)@.ram),
            grp_misc(instr@.opcode) || (instr@.opcode == 0x10 && instr@.data.len() == 1
                && instr@.data[0] == 0),
        ensures
            bus_wf(final(self)@.ram),
            final(self)@ == x_misc(old(self)@, instr@),
    {
        let op = instr.opcode();
        if op == 0x00 {
            // NOP
        } else if op == 0x76 {
            self.state = CpuState::Halted;
        } else if op == 0x10 {
            self.state = CpuState::Stopped;
        } else if op == 0xF3 {
            self.intlevel = false;
        } else if op == 0xFB {
            self.intlevel = true;
        } else if op == 0x27 {
            self.daa();
        } else if op == 0x2F {
            let x = self.reg.read(Register::A) ^ 0xFF;
            self.reg.set_flag(RegFlag::Subtract, true);
            self.reg.set_flag(RegFlag::HalfCarry, true);
            self.reg.write(Register::A, x);
        } else if op == 0x3F {
            let c = self.reg.get_flag(RegFlag::Carry);
            self.reg.set_flag(RegFlag::Subtract, false);
            self.reg.set_flag(RegFlag::HalfCarry, false);
            self.reg.set_flag(RegFlag::Carry, !c);
        } else if op == 0x37 {
            self.reg.set_flag(RegFlag::Subtract, false);
            self.reg.set_flag(RegFlag::HalfCarry, false);
            self.reg.set_flag(RegFlag::Carry, true);
        } else if op == 0x07 {
            let a = self.reg.read(Register::A);
            let rot = self.lrot(a);
            self.reg.write(Register::A, rot);
        } else if op == 0x17 {
            let a = self.reg.read(Register::A);
            let rot = self.lrot_through(a);
            self.reg.write(Register::A, rot);
        } else if op == 0x0F {
            let a = self.reg.read(Register::A);
            let rot = self.rrot(a);
            self.reg.write(Register::A, rot);
        } else {
            let a = self.reg.read(Register::A);
            let rot = self.rrot_through(a);
            self.reg.write(Register::A, rot);
        }
    }

    /// Executes one instruction: while Running, decodes at the program
    /// counter, dispatches, advances the cycle counter by the decoded
    /// cost and returns that cost. While Halted or Stopped nothing runs
    /// and the cost is zero (`is_stuck` tells whether that condition
    /// deserves a diagnostic). Dispatch reaching an opcode with no
    /// defined behavior is the fatal condition: the machine is left
    /// decoded-but-unexecuted and the diagnostic names the opcode, the
    /// extended or operand byte where one was fetched, and the fetch
    /// address.
    #[verifier::rlimit(100)]
    pub fn do_instr(&mut self) -> (r: Result<u32, ExecError>)
        requires
            bus_wf(old(self)@.ram),
        ensures
            bus_wf(final(self)@.ram),
            ({
                let pc0 = old(self)@.reg.pc;
                let iv = decode_instr(old(self)@.ram, pc0);
                let c1 = CpuView {
                    reg: (RegView {
                        pc: ((pc0 + 1 + op_len(iv.opcode)) % 0x10000) as u16,
                        ..old(self)@.reg
                    }),
                    ..old(self)@
                };
                match old(self)@.state {
                    CpuState::Running => {
                        if dispatchable(iv) {
                            &&& r == Ok::<u32, ExecError>(iv.cycles)
                            &&& final(self)@ == (CpuView {
                                clock: clock_add(old(self)@.clock, iv.cycles),
                                ..cpu_exec(c1, iv)
                            })
                        } else {
                            &&& r == Err::<u32, ExecError>(step_err(iv, pc0))
                            &&& final(self)@ == c1
                        }
                    },
                    _ => r == Ok::<u32, ExecError>(0) && final(self)@ == old(self)@,
                }
            }),
    {
        match self.state {
            CpuState::Running => {},
            CpuState::Halted => {
                return Ok(0);
            },
            CpuState::Stopped => {
                return Ok(0);
            },
        }
        let pc0 = self.reg.get_pc();
        let instr = Instr::parse(&mut self.reg, &self.ram);
        let ghost iv = decode_instr(old(self)@.ram, pc0);
        let ghost c1 = self@;
        proof {
            assert(instr@ == iv);
        }
        let op = instr.opcode();
        let has_sub = op == 0xCB || op == 0x10;
        let sub: u8 = if has_sub {
            instr.param(0)
        } else {
            0
        };
        let dispatch_ok = if op == 0xCB {
            sub < 0x40
        } else if op == 0x10 {
            sub == 0
        } else {
            is_load_of(op) || is_alu_of(op) || is_misc_of(op)
        };
        if !dispatch_ok {
            return Err(ExecError {
                opcode: op,
                sub: if has_sub {
                    Some(sub)
                } else {
                    None
                },
                pc: pc0,
            });
        }
        if is_load_of(op) {
            self.exec_load(&instr);
        } else if is_alu_of(op) {
            self.exec_alu(&instr);
        } else if op == 0xCB {
            self.exec_cb(&instr);
        } else {
            self.exec_misc(&instr);
        }
        proof {
            assert(self@ == cpu_exec(c1, iv));
        }
        let cycles = instr.cycles();
        self.clock = self.clock.wrapping_add(cycles as u64);
        Ok(cycles)
    }
}

} // verus!
