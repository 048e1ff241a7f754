use vstd::prelude::*;

verus! {

/// The register file: eight 8-bit registers and the two 16-bit ones.
pub struct CpuRegisters {
    pub a: u8,
    pub b: u8,
    pub c: u8,
    pub d: u8,
    pub e: u8,
    pub f: u8,
    pub h: u8,
    pub l: u8,
    pub sp: u16,
    pub pc: u16,
}

/// A flag of `F` together with a value to write; `Unmapped` is a no-op.
#[derive(Clone, Copy, Debug, PartialEq, Eq, Structural)]
pub enum Flag {
    Carry(bool),
    Zero(bool),
    Subtraction(bool),
    HalfCarry(bool),
    Unmapped,
}

/// An 8-bit operand; `Unmapped` reads as 0 and ignores writes.
#[derive(Clone, Copy, Debug, PartialEq, Eq, Structural)]
pub enum Register8Bit {
    A,
    B,
    C,
    D,
    E,
    F,
    H,
    L,
    Unmapped,
}

/// A 16-bit operand; `Unmapped` reads as 0 and ignores writes.
#[derive(Clone, Copy, Debug, PartialEq, Eq, Structural)]
pub enum Register16Bit {
    AF,
    BC,
    DE,
    HL,
    SP,
    PC,
    Unmapped,
}

/// Bit masks of the four flags inside `F`.
pub const ZERO_MASK: u8 = 0x80;
pub const SUBTRACTION_MASK: u8 = 0x40;
pub const HALF_CARRY_MASK: u8 = 0x20;
pub const CARRY_MASK: u8 = 0x10;

/// The 16-bit value with `hi` as its high byte and `lo` as its low byte.
pub open spec fn pair(hi: u8, lo: u8) -> u16 {
    ((hi as u16) << 8u16) | (lo as u16)
}

pub open spec fn high_byte(v: u16) -> u8 {
    (v >> 8u16) as u8
}

pub open spec fn low_byte(v: u16) -> u8 {
    (v & 0xffu16) as u8
}

pub open spec fn zero_flag(f: u8) -> bool {
    f & ZERO_MASK != 0
}

pub open spec fn subtraction_flag(f: u8) -> bool {
    f & SUBTRACTION_MASK != 0
}

pub open spec fn half_carry_flag(f: u8) -> bool {
    f & HALF_CARRY_MASK != 0
}

pub open spec fn carry_flag(f: u8) -> bool {
    f & CARRY_MASK != 0
}

/// The `F` byte holding the four given flags and a zero low nibble.
pub open spec fn flags_byte(z: bool, n: bool, h: bool, c: bool) -> u8 {
    (if z { ZERO_MASK } else { 0u8 }) | (if n { SUBTRACTION_MASK } else { 0u8 }) | (if h {
        HALF_CARRY_MASK
    } else {
        0u8
    }) | (if c { CARRY_MASK } else { 0u8 })
}

/// `F` after writing one flag: the other flags kept, the low nibble cleared.
pub open spec fn flag_updated(f: u8, flag: Flag) -> u8 {
    match flag {
        Flag::Carry(v) => if v { (f & 0xF0) | CARRY_MASK } else { f & 0xE0 },
        Flag::HalfCarry(v) => if v { (f & 0xF0) | HALF_CARRY_MASK } else { f & 0xD0 },
        Flag::Subtraction(v) => if v { (f & 0xF0) | SUBTRACTION_MASK } else { f & 0xB0 },
        Flag::Zero(v) => if v { (f & 0xF0) | ZERO_MASK } else { f & 0x70 },
        Flag::Unmapped => f,
    }
}

/// `F` after writing the flags of `s` in order.
pub open spec fn flags_updated(f: u8, s: Seq<Flag>) -> u8
    decreases s.len(),
{
    if s.len() == 0 {
        f
    } else {
        flag_updated(flags_updated(f, s.drop_last()), s.last())
    }
}

/// Whether the flag that `flag` names is set in `f` (false for `Unmapped`).
pub open spec fn flag_of(f: u8, flag: Flag) -> bool {
    match flag {
        Flag::Carry(_) => carry_flag(f),
        Flag::HalfCarry(_) => half_carry_flag(f),
        Flag::Subtraction(_) => subtraction_flag(f),
        Flag::Zero(_) => zero_flag(f),
        Flag::Unmapped => false,
    }
}

pub proof fn lemma_flags_byte(z: bool, n: bool, h: bool, c: bool)
    ensures
        zero_flag(flags_byte(z, n, h, c)) == z,
        subtraction_flag(flags_byte(z, n, h, c)) == n,
        half_carry_flag(flags_byte(z, n, h, c)) == h,
        carry_flag(flags_byte(z, n, h, c)) == c,
        flags_byte(z, n, h, c) & 0x0F == 0,
{
    let zb: u8 = if z { ZERO_MASK } else { 0u8 };
    let nb: u8 = if n { SUBTRACTION_MASK } else { 0u8 };
    let hb: u8 = if h { HALF_CARRY_MASK } else { 0u8 };
    let cb: u8 = if c { CARRY_MASK } else { 0u8 };
    assert(flags_byte(z, n, h, c) == zb | nb | hb | cb);
    assert(((zb | nb | hb | cb) & 0x80 != 0) == (zb == 0x80) && ((zb | nb | hb | cb) & 0x40 != 0)
        == (nb == 0x40) && ((zb | nb | hb | cb) & 0x20 != 0) == (hb == 0x20) && ((zb | nb | hb
        | cb) & 0x10 != 0) == (cb == 0x10) && (zb | nb | hb | cb) & 0x0F == 0) by (bit_vector)
        requires
            zb == 0x80 || zb == 0,
            nb == 0x40 || nb == 0,
            hb == 0x20 || hb == 0,
            cb == 0x10 || cb == 0,
    ;
}

/// Every `F` byte built from four flags has a clear low nibble.
pub proof fn lemma_flags_byte_clean()
    ensures
        forall|z: bool, n: bool, h: bool, c: bool| #[trigger] flags_byte(z, n, h, c) & 0x0F == 0,
{
    assert forall|z: bool, n: bool, h: bool, c: bool| #[trigger] flags_byte(z, n, h, c) & 0x0F == 0 by {
        lemma_flags_byte(z, n, h, c);
    }
}

/// A flag write leaves the low nibble of `F` clear: writing any of the four
/// flags clears it, and the no-op write of `Unmapped` keeps a clear one.
pub proof fn lemma_flag_update_clean(f: u8, flag: Flag)
    requires
        flag != Flag::Unmapped || f & 0x0F == 0,
    ensures
        flag_updated(f, flag) & 0x0F == 0,
{
    assert(((f & 0xF0) | 0x10) & 0x0F == 0 && ((f & 0xF0) | 0x20) & 0x0F == 0 && ((f & 0xF0)
        | 0x40) & 0x0F == 0 && ((f & 0xF0) | 0x80) & 0x0F == 0 && (f & 0xE0) & 0x0F == 0 && (f
        & 0xD0) & 0x0F == 0 && (f & 0xB0) & 0x0F == 0 && (f & 0x70) & 0x0F == 0) by (bit_vector);
}

/// Splitting a 16-bit value into its bytes and joining them again gives it back.
pub proof fn lemma_pair_split(v: u16)
    ensures
        pair(high_byte(v), low_byte(v)) == v,
{
    assert((((((v >> 8u16) as u8) as u16) << 8u16) | (((v & 0xffu16) as u8) as u16)) == v)
        by (bit_vector);
}

/// Joining two bytes and splitting the result gives them back.
pub proof fn lemma_pair_join(hi: u8, lo: u8)
    ensures
        high_byte(pair(hi, lo)) == hi,
        low_byte(pair(hi, lo)) == lo,
{
    assert(((((((hi as u16) << 8u16) | (lo as u16)) >> 8u16) as u8) == hi) && (((((hi as u16)
        << 8u16) | (lo as u16)) & 0xffu16) as u8) == lo) by (bit_vector);
}

/// The register that `get_mut_8bit_reg_value` hands out for `reg`.
pub open spec fn mutable_target(reg: Register8Bit) -> Register8Bit {
    if reg == Register8Bit::Unmapped {
        Register8Bit::A
    } else {
        reg
    }
}

/// The operand encoded by a 3-bit register field: B, C, D, E, H, L, (HL), A.
pub open spec fn register_code(i: u8) -> Register8Bit {
    if i == 0 {
        Register8Bit::B
    } else if i == 1 {
        Register8Bit::C
    } else if i == 2 {
        Register8Bit::D
    } else if i == 3 {
        Register8Bit::E
    } else if i == 4 {
        Register8Bit::H
    } else if i == 5 {
        Register8Bit::L
    } else if i == 7 {
        Register8Bit::A
    } else {
        Register8Bit::Unmapped
    }
}

fn register_of_code(i: u8) -> (r: Register8Bit)
    ensures
        r == register_code(i),
{
    if i == 0 {
        Register8Bit::B
    } else if i == 1 {
        Register8Bit::C
    } else if i == 2 {
        Register8Bit::D
    } else if i == 3 {
        Register8Bit::E
    } else if i == 4 {
        Register8Bit::H
    } else if i == 5 {
        Register8Bit::L
    } else if i == 7 {
        Register8Bit::A
    } else {
        Register8Bit::Unmapped
    }
}

/// The destination operand of a primary opcode: the register field in bits 5..3
/// for the 8-bit INC/DEC/LD d8 column and the LD block, the source field in
/// bits 2..0 for the ALU block, and `Unmapped` elsewhere.
pub open spec fn left_operand(opcode: u8) -> Register8Bit {
    let row = opcode >> 4u8;
    let col = opcode & 0xFu8;
    if row <= 3 && 4 <= (col & 7u8) && (col & 7u8) <= 6 {
        register_code((opcode >> 3u8) & 7u8)
    } else if 4 <= row && row <= 7 {
        register_code((opcode >> 3u8) & 7u8)
    } else if 8 <= row && row <= 0xB {
        register_code(opcode & 7u8)
    } else {
        Register8Bit::Unmapped
    }
}

/// The source operand of an opcode of the LD block (rows 4..7), `Unmapped` elsewhere.
pub open spec fn right_operand(opcode: u8) -> Register8Bit {
    let row = opcode >> 4u8;
    if 4 <= row && row <= 7 {
        register_code(opcode & 7u8)
    } else {
        Register8Bit::Unmapped
    }
}

/// The register pair named by the row of a primary opcode: BC, DE, HL, SP.
pub open spec fn row_pair(row: u8) -> Register16Bit {
    if row == 0 {
        Register16Bit::BC
    } else if row == 1 {
        Register16Bit::DE
    } else if row == 2 {
        Register16Bit::HL
    } else {
        Register16Bit::SP
    }
}

/// The 16-bit operand of LD rr,d16 / LD (rr),A / INC rr / DEC rr and of POP / PUSH.
pub open spec fn left_pair_operand(opcode: u8) -> Register16Bit {
    let row = opcode >> 4u8;
    let col = opcode & 0xFu8;
    if row <= 3 && (col == 1 || col == 3 || col == 0xB) {
        row_pair(row)
    } else if row <= 1 && col == 2 {
        row_pair(row)
    } else if row >= 0xC && (col == 1 || col == 5) {
        if row == 0xF {
            Register16Bit::AF
        } else {
            row_pair((row - 0xC) as u8)
        }
    } else {
        Register16Bit::Unmapped
    }
}

/// The 16-bit source of ADD HL,rr and of LD A,(rr).
pub open spec fn right_pair_operand(opcode: u8) -> Register16Bit {
    let row = opcode >> 4u8;
    let col = opcode & 0xFu8;
    if row <= 3 && col == 9 {
        row_pair(row)
    } else if row <= 1 && col == 0xA {
        row_pair(row)
    } else {
        Register16Bit::Unmapped
    }
}

pub(crate) fn pair_of_row(row: u8) -> (r: Register16Bit)
    ensures
        r == row_pair(row),
{
    if row == 0 {
        Register16Bit::BC
    } else if row == 1 {
        Register16Bit::DE
    } else if row == 2 {
        Register16Bit::HL
    } else {
        Register16Bit::SP
    }
}

impl Register8Bit {
    pub fn get_left_instruction_argument(opcode: u8) -> (r: Self)
        ensures
            r == left_operand(opcode),
    {
        let row = opcode >> 4u8;
        let col = opcode & 0xFu8;
        if row <= 3 && 4 <= (col & 7u8) && (col & 7u8) <= 6 {
            register_of_code((opcode >> 3u8) & 7u8)
        } else if 4 <= row && row <= 7 {
            register_of_code((opcode >> 3u8) & 7u8)
        } else if 8 <= row && row <= 0xB {
            register_of_code(opcode & 7u8)
        } else {
            Register8Bit::Unmapped
        }
    }

    pub fn get_right_instruction_argument(opcode: u8) -> (r: Self)
        ensures
            r == right_operand(opcode),
    {
        let row = opcode >> 4u8;
        if 4 <= row && row <= 7 {
            register_of_code(opcode & 7u8)
        } else {
            Register8Bit::Unmapped
        }
    }

    /// The operand of a CB-prefixed opcode: the register field in bits 2..0.
    pub fn get_left_instruction_argument_cb(opcode: u8) -> (r: Self)
        ensures
            r == register_code(opcode & 7u8),
    {
        register_of_code(opcode & 7u8)
    }
}

impl Register16Bit {
    pub fn get_left_instruction_argument(opcode: u8) -> (r: Self)
        ensures
            r == left_pair_operand(opcode),
    {
        let row = opcode >> 4u8;
        let col = opcode & 0xFu8;
        if row <= 3 && (col == 1 || col == 3 || col == 0xB) {
            pair_of_row(row)
        } else if row <= 1 && col == 2 {
            pair_of_row(row)
        } else if row >= 0xC && (col == 1 || col == 5) {
            if row == 0xF {
                Register16Bit::AF
            } else {
                pair_of_row(row - 0xC)
            }
        } else {
            Register16Bit::Unmapped
        }
    }

    pub fn get_right_instruction_argument(opcode: u8) -> (r: Self)
        ensures
            r == right_pair_operand(opcode),
    {
        let row = opcode >> 4u8;
        let col = opcode & 0xFu8;
        if row <= 3 && col == 9 {
            pair_of_row(row)
        } else if row <= 1 && col == 0xA {
            pair_of_row(row)
        } else {
            Register16Bit::Unmapped
        }
    }
}

/// Relies on rand::random: an arbitrary byte, nothing more is known of it.
#[verifier::external_body]
pub(crate) fn random_byte() -> (r: u8) {
    rand::random::<u8>()
}

/// Relies on rand::random: an arbitrary 16-bit value, nothing more is known of it.
#[verifier::external_body]
fn random_word() -> (r: u16) {
    rand::random::<u16>()
}

impl CpuRegisters {
    pub open spec fn reg8(self, reg: Register8Bit) -> u8 {
        match reg {
            Register8Bit::A => self.a,
            Register8Bit::B => self.b,
            Register8Bit::C => self.c,
            Register8Bit::D => self.d,
            Register8Bit::E => self.e,
            Register8Bit::F => self.f,
            Register8Bit::H => self.h,
            Register8Bit::L => self.l,
            Register8Bit::Unmapped => 0,
        }
    }

    pub open spec fn with_reg8(self, reg: Register8Bit, v: u8) -> CpuRegisters {
        match reg {
            Register8Bit::A => CpuRegisters { a: v, ..self },
            Register8Bit::B => CpuRegisters { b: v, ..self },
            Register8Bit::C => CpuRegisters { c: v, ..self },
            Register8Bit::D => CpuRegisters { d: v, ..self },
            Register8Bit::E => CpuRegisters { e: v, ..self },
            Register8Bit::F => CpuRegisters { f: v, ..self },
            Register8Bit::H => CpuRegisters { h: v, ..self },
            Register8Bit::L => CpuRegisters { l: v, ..self },
            Register8Bit::Unmapped => self,
        }
    }

    pub open spec fn reg16(self, reg: Register16Bit) -> u16 {
        match reg {
            Register16Bit::AF => pair(self.a, self.f),
            Register16Bit::BC => pair(self.b, self.c),
            Register16Bit::DE => pair(self.d, self.e),
            Register16Bit::HL => pair(self.h, self.l),
            Register16Bit::SP => self.sp,
            Register16Bit::PC => self.pc,
            Register16Bit::Unmapped => 0,
        }
    }

    pub open spec fn with_reg16(self, reg: Register16Bit, v: u16) -> CpuRegisters {
        match reg {
            Register16Bit::AF => CpuRegisters { a: high_byte(v), f: low_byte(v), ..self },
            Register16Bit::BC => CpuRegisters { b: high_byte(v), c: low_byte(v), ..self },
            Register16Bit::DE => CpuRegisters { d: high_byte(v), e: low_byte(v), ..self },
            Register16Bit::HL => CpuRegisters { h: high_byte(v), l: low_byte(v), ..self },
            Register16Bit::SP => CpuRegisters { sp: v, ..self },
            Register16Bit::PC => CpuRegisters { pc: v, ..self },
            Register16Bit::Unmapped => self,
        }
    }

    pub open spec fn with_f(self, f: u8) -> CpuRegisters {
        CpuRegisters { f, ..self }
    }

    pub open spec fn with_af(self, a: u8, f: u8) -> CpuRegisters {
        CpuRegisters { a, f, ..self }
    }

    /// The flag nibble invariant: the low four bits of `F` are zero.
    pub open spec fn flags_clean(self) -> bool {
        self.f & 0x0F == 0
    }

    pub fn new() -> (r: Self)
        ensures
            r.a == 0 && r.b == 0 && r.c == 0 && r.d == 0 && r.e == 0,
            r.f == 0 && r.h == 0 && r.l == 0 && r.sp == 0 && r.pc == 0,
    {
        CpuRegisters { a: 0, b: 0, c: 0, d: 0, e: 0, f: 0, h: 0, l: 0, sp: 0, pc: 0 }
    }

    /// Writes an arbitrary byte into `reg`.
    pub fn set_random_number_reg(&mut self, reg: Register8Bit)
        ensures
            exists|v: u8| *final(self) == old(self).with_reg8(reg, v),
    {
        let v = random_byte();
        self.ld_8bit_reg(reg, v);
    }

    pub fn clear_reg(&mut self, reg: Register8Bit)
        ensures
            *final(self) == old(self).with_reg8(reg, 0),
    {
        self.ld_8bit_reg(reg, 0);
    }

    /// Writes an arbitrary value into the 16-bit register `reg`.
    pub fn set_random_number_reg_16bit(&mut self, reg: Register16Bit)
        ensures
            exists|v: u16| *final(self) == old(self).with_reg16(reg, v),
    {
        let v = random_word();
        self.ld_16bit_reg(reg, v);
    }

    pub fn ld_8bit_reg(&mut self, reg: Register8Bit, data: u8)
        ensures
            *final(self) == old(self).with_reg8(reg, data),
    {
        match reg {
            Register8Bit::A => self.a = data,
            Register8Bit::B => self.b = data,
            Register8Bit::C => self.c = data,
            Register8Bit::D => self.d = data,
            Register8Bit::E => self.e = data,
            Register8Bit::F => self.f = data,
            Register8Bit::H => self.h = data,
            Register8Bit::L => self.l = data,
            Register8Bit::Unmapped => {},
        }
    }

    pub fn set_flag(&mut self, flag: Flag)
        ensures
            *final(self) == old(self).with_f(flag_updated(old(self).f, flag)),
    {
        let f = self.f;
        let new_val = match flag {
            Flag::Carry(v) => if v { (f & 0xF0) | CARRY_MASK } else { f & 0xE0 },
            Flag::HalfCarry(v) => if v { (f & 0xF0) | HALF_CARRY_MASK } else { f & 0xD0 },
            Flag::Subtraction(v) => if v { (f & 0xF0) | SUBTRACTION_MASK } else { f & 0xB0 },
            Flag::Zero(v) => if v { (f & 0xF0) | ZERO_MASK } else { f & 0x70 },
            Flag::Unmapped => f,
        };
        self.f = new_val;
    }

    pub fn get_16bit_reg_value(&self, register: Register16Bit) -> (r: u16)
        ensures
            r == self.reg16(register),
    {
        match register {
            Register16Bit::AF => ((self.a as u16) << 8u16) | (self.f as u16),
            Register16Bit::BC => ((self.b as u16) << 8u16) | (self.c as u16),
            Register16Bit::DE => ((self.d as u16) << 8u16) | (self.e as u16),
            Register16Bit::HL => ((self.h as u16) << 8u16) | (self.l as u16),
            Register16Bit::SP => self.sp,
            Register16Bit::PC => self.pc,
            Register16Bit::Unmapped => 0,
        }
    }

    /// Writes a 16-bit register; a pair takes the high byte into its first register.
    pub fn ld_16bit_reg(&mut self, register: Register16Bit, data: u16)
        ensures
            *final(self) == old(self).with_reg16(register, data),
    {
        let hi = (data >> 8u16) as u8;
        let lo = (data & 0xffu16) as u8;
        match register {
            Register16Bit::AF => {
                self.a = hi;
                self.f = lo;
            },
            Register16Bit::BC => {
                self.b = hi;
                self.c = lo;
            },
            Register16Bit::DE => {
                self.d = hi;
                self.e = lo;
            },
            Register16Bit::HL => {
                self.h = hi;
                self.l = lo;
            },
            Register16Bit::SP => self.sp = data,
            Register16Bit::PC => self.pc = data,
            Register16Bit::Unmapped => {},
        }
    }

    pub fn get_8bit_reg_value(&self, register: Register8Bit) -> (r: u8)
        ensures
            r == self.reg8(register),
    {
        match register {
            Register8Bit::A => self.a,
            Register8Bit::B => self.b,
            Register8Bit::C => self.c,
            Register8Bit::D => self.d,
            Register8Bit::E => self.e,
            Register8Bit::F => self.f,
            Register8Bit::H => self.h,
            Register8Bit::L => self.l,
            Register8Bit::Unmapped => 0,
        }
    }

    /// A mutable reference to the register `register` selects; `Unmapped`
    /// selects A.
    pub fn get_mut_8bit_reg_value(&mut self, register: Register8Bit) -> (r: &mut u8)
        ensures
            *r == old(self).reg8(mutable_target(register)),
            *final(self) == old(self).with_reg8(mutable_target(register), *final(r)),
    {
        match register {
            Register8Bit::A => &mut self.a,
            Register8Bit::B => &mut self.b,
            Register8Bit::C => &mut self.c,
            Register8Bit::D => &mut self.d,
            Register8Bit::E => &mut self.e,
            Register8Bit::F => &mut self.f,
            Register8Bit::H => &mut self.h,
            Register8Bit::L => &mut self.l,
            Register8Bit::Unmapped => &mut self.a,
        }
    }

    pub fn get_flag(&self, flag: Flag) -> (r: bool)
        ensures
            r == flag_of(self.f, flag),
    {
        match flag {
            Flag::Carry(_) => self.f & CARRY_MASK != 0,
            Flag::HalfCarry(_) => self.f & HALF_CARRY_MASK != 0,
            Flag::Subtraction(_) => self.f & SUBTRACTION_MASK != 0,
            Flag::Zero(_) => self.f & ZERO_MASK != 0,
            Flag::Unmapped => false,
        }
    }

    pub fn set_flags(&mut self, flags: &[Flag])
        ensures
            *final(self) == old(self).with_f(flags_updated(old(self).f, flags@)),
    {
        let mut i: usize = 0;
        while i < flags.len()
            invariant
                0 <= i <= flags@.len(),
                *self == old(self).with_f(flags_updated(old(self).f, flags@.subrange(0, i as int))),
            decreases flags@.len() - i,
        {
            assert(flags@.subrange(0, i as int + 1).drop_last() =~= flags@.subrange(0, i as int));
            self.set_flag(flags[i]);
            i = i + 1;
        }
        assert(flags@.subrange(0, i as int) =~= flags@);
    }
}

/// Reading a 16-bit register and writing the value back changes nothing.
pub proof fn lemma_reg16_read_write(r: CpuRegisters, reg: Register16Bit)
    ensures
        r.with_reg16(reg, r.reg16(reg)) == r,
{
    lemma_pair_join(r.a, r.f);
    lemma_pair_join(r.b, r.c);
    lemma_pair_join(r.d, r.e);
    lemma_pair_join(r.h, r.l);
}

/// Writing a value to a 16-bit register and reading it back yields the value.
pub proof fn lemma_reg16_write_read(r: CpuRegisters, reg: Register16Bit, v: u16)
    requires
        reg != Register16Bit::Unmapped,
    ensures
        r.with_reg16(reg, v).reg16(reg) == v,
{
    lemma_pair_split(v);
}

/// Writing a value to an 8-bit register and reading it back yields the value.
pub proof fn lemma_reg8_write_read(r: CpuRegisters, reg: Register8Bit, v: u8)
    requires
        reg != Register8Bit::Unmapped,
    ensures
        r.with_reg8(reg, v).reg8(reg) == v,
{
}

} // verus!
