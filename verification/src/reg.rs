//! The register file: eight 8-bit registers addressable individually or
//! as 16-bit pairs, a stack pointer, a program counter, and the four
//! condition flags kept as mask bits of a single byte.

use vstd::prelude::*;

verus! {

/// One of the four condition bits summarizing the last arithmetic or
/// logic result.
#[derive(Copy, Clone)]
pub enum RegFlag {
    Zero,
    Subtract,
    HalfCarry,
    Carry,
}

/// A register name: an 8-bit register, a 16-bit pair, the stack pointer,
/// the program counter, or the flags byte.
#[derive(Copy, Clone)]
pub enum Register {
    A,
    B,
    C,
    D,
    E,
    F,
    H,
    L,
    AF,
    BC,
    DE,
    HL,
    SP,
    PC,
    Flag,
}

/// The register file.
pub struct RegData {
    a: u8,
    b: u8,
    c: u8,
    d: u8,
    e: u8,
    f: u8,
    h: u8,
    l: u8,
    sp: u16,
    pc: u16,
    flag: u8,
}

/// The mathematical model of the register file: one field per register,
/// plus the packed flags byte.
#[verifier::ext_equal]
pub struct RegView {
    pub a: u8,
    pub b: u8,
    pub c: u8,
    pub d: u8,
    pub e: u8,
    pub f: u8,
    pub h: u8,
    pub l: u8,
    pub sp: u16,
    pub pc: u16,
    pub flag: u8,
}

impl View for RegData {
    type V = RegView;

    closed spec fn view(&self) -> RegView {
        RegView {
            a: self.a,
            b: self.b,
            c: self.c,
            d: self.d,
            e: self.e,
            f: self.f,
            h: self.h,
            l: self.l,
            sp: self.sp,
            pc: self.pc,
            flag: self.flag,
        }
    }
}

/// Registers a `read` accepts: the eight 8-bit registers and the flags
/// byte.
pub open spec fn readable8(r: Register) -> bool {
    match r {
        Register::A => true,
        Register::B => true,
        Register::C => true,
        Register::D => true,
        Register::E => true,
        Register::F => true,
        Register::H => true,
        Register::L => true,
        Register::Flag => true,
        _ => false,
    }
}

/// Registers a `write` accepts: the eight 8-bit registers. The flags
/// byte is written only through `set_flag`.
pub open spec fn writable8(r: Register) -> bool {
    match r {
        Register::A => true,
        Register::B => true,
        Register::C => true,
        Register::D => true,
        Register::E => true,
        Register::F => true,
        Register::H => true,
        Register::L => true,
        _ => false,
    }
}

/// Registers the 16-bit accessors accept: the four pairs, the stack
/// pointer and the program counter.
pub open spec fn pair16(r: Register) -> bool {
    match r {
        Register::AF => true,
        Register::BC => true,
        Register::DE => true,
        Register::HL => true,
        Register::SP => true,
        Register::PC => true,
        _ => false,
    }
}

/// The value an 8-bit read returns.
pub open spec fn reg8_read(v: RegView, r: Register) -> u8 {
    match r {
        Register::A => v.a,
        Register::B => v.b,
        Register::C => v.c,
        Register::D => v.d,
        Register::E => v.e,
        Register::F => v.f,
        Register::H => v.h,
        Register::L => v.l,
        Register::Flag => v.flag,
        _ => arbitrary(),
    }
}

/// The register file after an 8-bit write.
pub open spec fn reg8_write(v: RegView, r: Register, d: u8) -> RegView {
    match r {
        Register::A => RegView { a: d, ..v },
        Register::B => RegView { b: d, ..v },
        Register::C => RegView { c: d, ..v },
        Register::D => RegView { d: d, ..v },
        Register::E => RegView { e: d, ..v },
        Register::F => RegView { f: d, ..v },
        Register::H => RegView { h: d, ..v },
        Register::L => RegView { l: d, ..v },
        _ => v,
    }
}

/// The value a 16-bit read returns: the most significant register holds
/// the high byte.
pub open spec fn reg16_read(v: RegView, r: Register) -> u16 {
    match r {
        Register::AF => (v.a * 256 + v.f) as u16,
        Register::BC => (v.b * 256 + v.c) as u16,
        Register::DE => (v.d * 256 + v.e) as u16,
        Register::HL => (v.h * 256 + v.l) as u16,
        Register::SP => v.sp,
        Register::PC => v.pc,
        _ => arbitrary(),
    }
}

/// The register file after a 16-bit write: the value decomposes into a
/// high and a low byte.
pub open spec fn reg16_write(v: RegView, r: Register, d: u16) -> RegView {
    let hi = (d / 256) as u8;
    let lo = (d % 256) as u8;
    match r {
        Register::AF => RegView { a: hi, f: lo, ..v },
        Register::BC => RegView { b: hi, c: lo, ..v },
        Register::DE => RegView { d: hi, e: lo, ..v },
        Register::HL => RegView { h: hi, l: lo, ..v },
        Register::SP => RegView { sp: d, ..v },
        Register::PC => RegView { pc: d, ..v },
        _ => v,
    }
}

/// The mask bit a flag occupies in the flags byte.
pub open spec fn flag_mask(f: RegFlag) -> u8 {
    match f {
        RegFlag::Zero => 0x80,
        RegFlag::Subtract => 0x40,
        RegFlag::HalfCarry => 0x20,
        RegFlag::Carry => 0x10,
    }
}

/// The complement of a flag's mask bit, written out so that it needs no
/// bitwise negation to state.
pub open spec fn flag_keep(f: RegFlag) -> u8 {
    match f {
        RegFlag::Zero => 0x7F,
        RegFlag::Subtract => 0xBF,
        RegFlag::HalfCarry => 0xDF,
        RegFlag::Carry => 0xEF,
    }
}

/// Whether a flag is set in a flags byte.
pub open spec fn flag_get(fb: u8, f: RegFlag) -> bool {
    fb & flag_mask(f) != 0
}

/// A flags byte with one flag forced to the given value.
pub open spec fn flag_set(fb: u8, f: RegFlag, on: bool) -> u8 {
    if on {
        fb | flag_mask(f)
    } else {
        fb & flag_keep(f)
    }
}

/// A flags byte with all four flags forced, in the order the arithmetic
/// helpers write them: Zero, Subtract, HalfCarry, Carry.
pub open spec fn set_flags(fb: u8, z: bool, n: bool, h: bool, c: bool) -> u8 {
    flag_set(flag_set(flag_set(flag_set(fb, RegFlag::Zero, z), RegFlag::Subtract, n), RegFlag::HalfCarry, h), RegFlag::Carry, c)
}

/// Forcing all four flags makes each readable back as written, and
/// leaves the low nibble of the flags byte alone.
pub proof fn lemma_set_flags_get(fb: u8, z: bool, n: bool, h: bool, c: bool)
    ensures
        flag_get(set_flags(fb, z, n, h, c), RegFlag::Zero) == z,
        flag_get(set_flags(fb, z, n, h, c), RegFlag::Subtract) == n,
        flag_get(set_flags(fb, z, n, h, c), RegFlag::HalfCarry) == h,
        flag_get(set_flags(fb, z, n, h, c), RegFlag::Carry) == c,
        set_flags(fb, z, n, h, c) & 0x0F == fb & 0x0F,
{
    let s1 = if z { fb | 0x80 } else { fb & 0x7F };
    let s2 = if n { s1 | 0x40 } else { s1 & 0xBF };
    let s3 = if h { s2 | 0x20 } else { s2 & 0xDF };
    let s4 = if c { s3 | 0x10 } else { s3 & 0xEF };
    assert(set_flags(fb, z, n, h, c) == s4);
    assert(((s4 & 0x80 != 0) == z) && ((s4 & 0x40 != 0) == n) && ((s4 & 0x20 != 0) == h) && ((
    s4 & 0x10 != 0) == c) && (s4 & 0x0F == fb & 0x0F)) by (bit_vector)
        requires
            s1 == (if z { fb | 0x80 } else { fb & 0x7F }),
            s2 == (if n { s1 | 0x40 } else { s1 & 0xBF }),
            s3 == (if h { s2 | 0x20 } else { s2 & 0xDF }),
            s4 == (if c { s3 | 0x10 } else { s3 & 0xEF }),
    ;
}

/// Writing an 8-bit register and reading it back returns the written
/// value, for every 8-bit register.
pub proof fn lemma_reg8_round_trip(v: RegView, r: Register, d: u8)
    requires
        writable8(r),
    ensures
        reg8_read(reg8_write(v, r, d), r) == d,
{
}

/// Writing a 16-bit pair and reading it back returns the written value:
/// decomposition into a high and a low byte and recomposition by
/// byte-concatenation are mutually inverse.
pub proof fn lemma_reg16_round_trip(v: RegView, r: Register, x: u16)
    requires
        pair16(r),
    ensures
        reg16_read(reg16_write(v, r, x), r) == x,
{
    assert(x / 256 * 256 + x % 256 == x);
    assert(x / 256 <= 255);
}

impl RegData {
    /// A register file at machine reset: every register cleared, the
    /// stack pointer at the top of internal RAM, the program counter at
    /// the boot entry address.
    pub fn new() -> (r: RegData)
        ensures
            r@ == (RegView {
                a: 0,
                b: 0,
                c: 0,
                d: 0,
                e: 0,
                f: 0,
                h: 0,
                l: 0,
                sp: 0xFFFE,
                pc: 0x000,
                flag: 0,
            }),
    {
        RegData {
            a: 0,
            b: 0,
            c: 0,
            d: 0,
            e: 0,
            f: 0,
            h: 0,
            l: 0,
            sp: 0xFFFE,
            pc: 0x000,
            flag: 0,
        }
    }

    /// Reads an 8-bit register or the flags byte.
    pub fn read(&self, reg: Register) -> (r: u8)
        requires
            readable8(reg),
        ensures
            r == reg8_read(self@, reg),
    {
        match reg {
            Register::A => self.a,
            Register::B => self.b,
            Register::C => self.c,
            Register::D => self.d,
            Register::E => self.e,
            Register::F => self.f,
            Register::H => self.h,
            Register::L => self.l,
            Register::Flag => self.flag,
            _ => {
                assert(false);
                0
            },
        }
    }

    /// Reads a 16-bit pair, the stack pointer or the program counter;
    /// the most significant register supplies the high byte.
    pub fn read_u16(&self, reg: Register) -> (r: u16)
        requires
            pair16(reg),
        ensures
            r == reg16_read(self@, reg),
    {
        match reg {
            Register::AF => {
                proof {
                    crate::bits::lemma_compose16(self.a, self.f);
                }
                (self.a as u16) << 8u16 | self.f as u16
            },
            Register::BC => {
                proof {
                    crate::bits::lemma_compose16(self.b, self.c);
                }
                (self.b as u16) << 8u16 | self.c as u16
            },
            Register::DE => {
                proof {
                    crate::bits::lemma_compose16(self.d, self.e);
                }
                (self.d as u16) << 8u16 | self.e as u16
            },
            Register::HL => {
                proof {
                    crate::bits::lemma_compose16(self.h, self.l);
                }
                (self.h as u16) << 8u16 | self.l as u16
            },
            Register::SP => self.sp,
            Register::PC => self.pc,
            _ => {
                assert(false);
                0
            },
        }
    }

    /// Writes an 8-bit register.
    pub fn write(&mut self, reg: Register, data: u8)
        requires
            writable8(reg),
        ensures
            final(self)@ == reg8_write(old(self)@, reg, data),
    {
        match reg {
            Register::A => self.a = data,
            Register::B => self.b = data,
            Register::C => self.c = data,
            Register::D => self.d = data,
            Register::E => self.e = data,
            Register::F => self.f = data,
            Register::H => self.h = data,
            Register::L => self.l = data,
            _ => {
                assert(false);
            },
        }
    }

    /// Writes a 16-bit pair, the stack pointer or the program counter;
    /// the value decomposes into a high and a low byte.
    pub fn write_u16(&mut self, reg: Register, data: u16)
        requires
            pair16(reg),
        ensures
            final(self)@ == reg16_write(old(self)@, reg, data),
    {
        proof {
            crate::bits::lemma_split16(data);
        }
        let hi = (data >> 8u16) as u8;
        let lo = (data & 0xFF) as u8;
        match reg {
            Register::AF => {
                self.a = hi;
                self.f = lo;
            },
            Register::BC => {
                self.b = hi;
                self.c = lo;
            },
            Register::DE => {
                self.d = hi;
                self.e = lo;
            },
            Register::HL => {
                self.h = hi;
                self.l = lo;
            },
            Register::SP => self.sp = data,
            Register::PC => self.pc = data,
            _ => {
                assert(false);
            },
        }
    }

    /// Copies one 8-bit register into another; safe when source and
    /// destination are the same register.
    pub fn copy(&mut self, dst: Register, src: Register)
        requires
            readable8(src),
            writable8(dst),
        ensures
            final(self)@ == reg8_write(old(self)@, dst, reg8_read(old(self)@, src)),
    {
        let data = self.read(src);
        self.write(dst, data);
    }

    /// Copies one 16-bit register into another; safe when source and
    /// destination are the same register.
    pub fn copy_u16(&mut self, dst: Register, src: Register)
        requires
            pair16(src),
            pair16(dst),
        ensures
            final(self)@ == reg16_write(old(self)@, dst, reg16_read(old(self)@, src)),
    {
        let data = self.read_u16(src);
        self.write_u16(dst, data);
    }

    /// Forces one flag bit on or off in the flags byte.
    pub fn set_flag(&mut self, flag: RegFlag, on: bool)
        ensures
            final(self)@ == (RegView { flag: flag_set(old(self)@.flag, flag, on), ..old(self)@ }),
    {
        let bit: u8 = match flag {
            RegFlag::Zero => 0x80,
            RegFlag::Subtract => 0x40,
            RegFlag::HalfCarry => 0x20,
            RegFlag::Carry => 0x10,
        };
        let keep: u8 = match flag {
            RegFlag::Zero => 0x7F,
            RegFlag::Subtract => 0xBF,
            RegFlag::HalfCarry => 0xDF,
            RegFlag::Carry => 0xEF,
        };
        if on {
            self.flag = self.flag | bit;
        } else {
            self.flag = self.flag & keep;
        }
    }

    /// Tests one flag bit of the flags byte.
    pub fn get_flag(&self, flag: RegFlag) -> (r: bool)
        ensures
            r == flag_get(self@.flag, flag),
    {
        let bit: u8 = match flag {
            RegFlag::Zero => 0x80,
            RegFlag::Subtract => 0x40,
            RegFlag::HalfCarry => 0x20,
            RegFlag::Carry => 0x10,
        };
        self.flag & bit != 0
    }

    /// Returns the current program counter, then advances it by one,
    /// wrapping at the top of the address space; used once per fetched
    /// byte.
    pub fn advance_pc(&mut self) -> (r: u16)
        ensures
            r == old(self)@.pc,
            final(self)@ == (RegView { pc: ((old(self)@.pc + 1) % 0x10000) as u16, ..old(self)@ }),
    {
        let pc = self.pc;
        self.pc = pc.wrapping_add(1);
        pc
    }

    /// Replaces the program counter, returning its previous value.
    pub fn set_pc(&mut self, addr: u16) -> (r: u16)
        ensures
            r == old(self)@.pc,
            final(self)@ == (RegView { pc: addr, ..old(self)@ }),
    {
        let pc = self.pc;
        self.pc = addr;
        pc
    }

    /// Moves the program counter by a signed offset, wrapping at the
    /// bounds of the address space; returns the previous value.
    pub fn add_pc(&mut self, n: i8) -> (r: u16)
        ensures
            r == old(self)@.pc,
            final(self)@ == (RegView {
                pc: ((old(self)@.pc + n) % 0x10000) as u16,
                ..old(self)@
            }),
    {
        let pc = self.pc;
        self.pc = pc.wrapping_add_signed(n as i16);
        pc
    }

    /// Reads the current program counter.
    pub fn get_pc(&self) -> (r: u16)
        ensures
            r == self@.pc,
    {
        self.pc
    }
}

} // verus!
