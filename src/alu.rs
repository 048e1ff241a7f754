use vstd::prelude::*;

use crate::instruction::{hl, pack_flags, BitwiseOperator, Instruction};
use crate::memory::{bus_read, bus_write, Memory};
use crate::register::{
    carry_flag, flags_byte, half_carry_flag, subtraction_flag, zero_flag, CpuRegisters,
    Register16Bit, Register8Bit, CARRY_MASK, HALF_CARRY_MASK, SUBTRACTION_MASK, ZERO_MASK,
};

verus! {

pub open spec fn carry_in(c: bool) -> int {
    if c {
        1
    } else {
        0
    }
}

/// `a + v + c` on 8 bits.
pub open spec fn add_value(a: u8, v: u8, c: bool) -> u8 {
    ((a + v + carry_in(c)) % 256) as u8
}

/// Flags of `a + v + c`: Z on a zero result, H on a carry out of bit 3, C on a
/// carry out of bit 7.
pub open spec fn add_flags(a: u8, v: u8, c: bool) -> u8 {
    flags_byte(
        add_value(a, v, c) == 0,
        false,
        a % 16 + v % 16 + carry_in(c) > 15,
        a + v + carry_in(c) > 255,
    )
}

/// `a - v - c` on 8 bits.
pub open spec fn sub_value(a: u8, v: u8, c: bool) -> u8 {
    ((a + 512 - v - carry_in(c)) % 256) as u8
}

/// Flags of `a - v - c`: Z on a zero result, N set, H on a borrow from bit 4,
/// C on a borrow.
pub open spec fn sub_flags(a: u8, v: u8, c: bool) -> u8 {
    flags_byte(
        sub_value(a, v, c) == 0,
        true,
        a % 16 < v % 16 + carry_in(c),
        a < v + carry_in(c),
    )
}

pub open spec fn logic_value(a: u8, v: u8, op: BitwiseOperator) -> u8 {
    match op {
        BitwiseOperator::And => a & v,
        BitwiseOperator::Or => a | v,
        BitwiseOperator::Xor => a ^ v,
        BitwiseOperator::Unmapped => a,
    }
}

/// Flags of a logical operation: Z on a zero result, H set for AND only.
pub open spec fn logic_flags(a: u8, v: u8, op: BitwiseOperator) -> u8 {
    flags_byte(logic_value(a, v, op) == 0, false, op == BitwiseOperator::And, false)
}

pub open spec fn inc_value(v: u8) -> u8 {
    ((v + 1) % 256) as u8
}

/// Flags of INC: as ADD of 1, with C kept from `f`.
pub open spec fn inc_flags(v: u8, f: u8) -> u8 {
    flags_byte(inc_value(v) == 0, false, v % 16 == 15, carry_flag(f))
}

pub open spec fn dec_value(v: u8) -> u8 {
    ((v + 255) % 256) as u8
}

/// Flags of DEC: as SUB of 1, with C kept from `f`.
pub open spec fn dec_flags(v: u8, f: u8) -> u8 {
    flags_byte(dec_value(v) == 0, true, v % 16 == 0, carry_flag(f))
}

pub open spec fn add16_value(x: u16, y: u16) -> u16 {
    ((x + y) % 65536) as u16
}

/// Flags of ADD HL,rr: Z kept, N cleared, H on a carry out of bit 11, C on a
/// carry out of bit 15.
pub open spec fn add16_flags(x: u16, y: u16, f: u8) -> u8 {
    flags_byte(zero_flag(f), false, x % 4096 + y % 4096 > 4095, x + y > 65535)
}

/// SP plus a signed offset, wrapping.
pub open spec fn sp_offset_value(sp: u16, d: i8) -> u16 {
    ((sp + d + 65536) % 65536) as u16
}

/// Flags of ADD SP,r8 and LD HL,SP+r8: Z and N cleared; H and C are the
/// carries out of bits 3 and 7 of the unsigned 8-bit addition of SP's low byte
/// and the offset's low byte.
pub open spec fn sp_offset_flags(sp: u16, d: i8) -> u8 {
    let e = (d + 256) % 256;
    flags_byte(false, false, sp % 16 + e % 16 > 15, sp % 256 + e > 255)
}

/// Rotate left, bit 7 into bit 0.
pub open spec fn rlc_value(v: u8) -> u8 {
    ((v % 128) * 2 + v / 128) as u8
}

/// Rotate right, bit 0 into bit 7.
pub open spec fn rrc_value(v: u8) -> u8 {
    (v / 2 + (v % 2) * 128) as u8
}

/// Rotate left through the carry `c`.
pub open spec fn rl_value(v: u8, c: bool) -> u8 {
    ((v % 128) * 2 + carry_in(c)) as u8
}

/// Rotate right through the carry `c`.
pub open spec fn rr_value(v: u8, c: bool) -> u8 {
    (v / 2 + carry_in(c) * 128) as u8
}

/// Shift left, bit 0 cleared.
pub open spec fn sla_value(v: u8) -> u8 {
    ((v % 128) * 2) as u8
}

/// Shift right, bit 7 kept.
pub open spec fn sra_value(v: u8) -> u8 {
    (v / 2 + (v / 128) * 128) as u8
}

/// Shift right, bit 7 cleared.
pub open spec fn srl_value(v: u8) -> u8 {
    (v / 2) as u8
}

/// Nibbles exchanged.
pub open spec fn swap_value(v: u8) -> u8 {
    ((v % 16) * 16 + v / 16) as u8
}

/// Flags of a CB rotate or shift: Z on a zero result, N and H cleared, C the
/// bit shifted out.
pub open spec fn shift_flags(r: u8, c: bool) -> u8 {
    flags_byte(r == 0, false, false, c)
}

/// Flags of an accumulator rotate: as `shift_flags` but Z always cleared.
pub open spec fn rotate_a_flags(c: bool) -> u8 {
    flags_byte(false, false, false, c)
}

/// Flags of BIT n: Z when bit n is clear, N cleared, H set, C kept.
pub open spec fn bit_flags(v: u8, bit: u8, f: u8) -> u8 {
    flags_byte(v & (1u8 << bit) == 0, false, true, carry_flag(f))
}

pub open spec fn daa_carry(a: u8, f: u8) -> bool {
    carry_flag(f) || (!subtraction_flag(f) && a > 0x99)
}

/// The decimal correction of A after an addition (N clear) or a subtraction (N set).
pub open spec fn daa_value(a: u8, f: u8) -> u8 {
    if !subtraction_flag(f) {
        let a1: int = if daa_carry(a, f) {
            (a + 0x60) % 256
        } else {
            a as int
        };
        (if half_carry_flag(f) || a1 % 16 > 9 {
            (a1 + 6) % 256
        } else {
            a1
        }) as u8
    } else {
        let a1: int = if carry_flag(f) {
            (a + 256 - 0x60) % 256
        } else {
            a as int
        };
        (if half_carry_flag(f) {
            (a1 + 256 - 6) % 256
        } else {
            a1
        }) as u8
    }
}

/// Flags of DAA: Z on a zero result, N kept, H cleared, C set when 0x60 was
/// added and otherwise kept.
pub open spec fn daa_flags(a: u8, f: u8) -> u8 {
    flags_byte(daa_value(a, f) == 0, subtraction_flag(f), false, daa_carry(a, f))
}

fn alu_add(a: u8, v: u8, c: bool) -> (r: (u8, u8))
    ensures
        r.0 == add_value(a, v, c),
        r.1 == add_flags(a, v, c),
{
    let cin: u16 = if c { 1 } else { 0 };
    let sum: u16 = a as u16 + v as u16 + cin;
    let res = (sum % 256) as u8;
    let half = (a % 16) as u16 + (v % 16) as u16 + cin > 15;
    (res, pack_flags(res == 0, false, half, sum > 255))
}

fn alu_sub(a: u8, v: u8, c: bool) -> (r: (u8, u8))
    ensures
        r.0 == sub_value(a, v, c),
        r.1 == sub_flags(a, v, c),
{
    let cin: u16 = if c { 1 } else { 0 };
    let diff: u16 = a as u16 + 512 - v as u16 - cin;
    let res = (diff % 256) as u8;
    let half = ((a % 16) as u16) < (v % 16) as u16 + cin;
    (res, pack_flags(res == 0, true, half, (a as u16) < v as u16 + cin))
}

fn sp_offset(sp: u16, d: i8) -> (r: (u16, u8))
    ensures
        r.0 == sp_offset_value(sp, d),
        r.1 == sp_offset_flags(sp, d),
{
    let sum: i32 = sp as i32 + d as i32 + 65536;
    let res = (sum % 65536) as u16;
    let e: u16 = ((d as i16 + 256) % 256) as u16;
    let flags = pack_flags(false, false, sp % 16 + e % 16 > 15, sp % 256 + e > 255);
    (res, flags)
}

impl Instruction {
    // ---------------------INC / DEC--------------------
    /// INC r
    pub fn inc_8bit(&mut self, registers: &mut CpuRegisters, reg: Register8Bit)
        ensures
            *final(registers) == old(registers).with_f(
                inc_flags(old(registers).reg8(reg), old(registers).f),
            ).with_reg8(reg, inc_value(old(registers).reg8(reg))),
            final(self).flag == old(self).flag,
            final(self).length == 1 && final(self).cycle == 4,
    {
        let v = registers.get_8bit_reg_value(reg);
        let f = registers.f;
        let res = ((v as u16 + 1) % 256) as u8;
        registers.f = pack_flags(res == 0, false, v % 16 == 15, f & CARRY_MASK != 0);
        registers.ld_8bit_reg(reg, res);
        self.length = 1;
        self.cycle = 4;
    }

    /// INC rr: wrapping, no flags.
    pub fn inc_16bit(&mut self, registers: &mut CpuRegisters, reg: Register16Bit)
        ensures
            *final(registers) == old(registers).with_reg16(
                reg,
                ((old(registers).reg16(reg) + 1) % 65536) as u16,
            ),
            final(self).flag == old(self).flag,
            final(self).length == 1 && final(self).cycle == 8,
    {
        let v = registers.get_16bit_reg_value(reg);
        registers.ld_16bit_reg(reg, v.wrapping_add(1));
        self.length = 1;
        self.cycle = 8;
    }

    /// INC (HL)
    pub fn inc_mem_reg(&mut self, registers: &mut CpuRegisters, memory: &mut Memory)
        requires
            old(memory).wf(),
        ensures
            final(memory).wf(),
            final(memory)@ == old(memory)@.written(
                hl(*old(registers)),
                inc_value(old(memory)@.read(hl(*old(registers)))),
            ),
            *final(registers) == old(registers).with_f(
                inc_flags(old(memory)@.read(hl(*old(registers))), old(registers).f),
            ),
            final(self).flag == old(self).flag,
            final(self).length == 1 && final(self).cycle == 12,
    {
        let addr = registers.get_16bit_reg_value(Register16Bit::HL);
        let v = bus_read(memory, addr).unwrap();
        let f = registers.f;
        let res = ((v as u16 + 1) % 256) as u8;
        registers.f = pack_flags(res == 0, false, v % 16 == 15, f & CARRY_MASK != 0);
        bus_write(memory, addr, res);
        self.length = 1;
        self.cycle = 12;
    }

    /// DEC r
    pub fn dec_8bit(&mut self, registers: &mut CpuRegisters, reg: Register8Bit)
        ensures
            *final(registers) == old(registers).with_f(
                dec_flags(old(registers).reg8(reg), old(registers).f),
            ).with_reg8(reg, dec_value(old(registers).reg8(reg))),
            final(self).flag == old(self).flag,
            final(self).length == 1 && final(self).cycle == 4,
    {
        let v = registers.get_8bit_reg_value(reg);
        let f = registers.f;
        let res = ((v as u16 + 255) % 256) as u8;
        registers.f = pack_flags(res == 0, true, v % 16 == 0, f & CARRY_MASK != 0);
        registers.ld_8bit_reg(reg, res);
        self.length = 1;
        self.cycle = 4;
    }

    /// DEC rr: wrapping, no flags.
    pub fn dec_16bit(&mut self, registers: &mut CpuRegisters, reg: Register16Bit)
        ensures
            *final(registers) == old(registers).with_reg16(
                reg,
                ((old(registers).reg16(reg) + 65535) % 65536) as u16,
            ),
            final(self).flag == old(self).flag,
            final(self).length == 1 && final(self).cycle == 8,
    {
        let v = registers.get_16bit_reg_value(reg);
        registers.ld_16bit_reg(reg, v.wrapping_sub(1));
        self.length = 1;
        self.cycle = 8;
    }

    /// DEC (HL)
    pub fn dec_mem_reg(&mut self, registers: &mut CpuRegisters, memory: &mut Memory)
        requires
            old(memory).wf(),
        ensures
            final(memory).wf(),
            final(memory)@ == old(memory)@.written(
                hl(*old(registers)),
                dec_value(old(memory)@.read(hl(*old(registers)))),
            ),
            *final(registers) == old(registers).with_f(
                dec_flags(old(memory)@.read(hl(*old(registers))), old(registers).f),
            ),
            final(self).flag == old(self).flag,
            final(self).length == 1 && final(self).cycle == 12,
    {
        let addr = registers.get_16bit_reg_value(Register16Bit::HL);
        let v = bus_read(memory, addr).unwrap();
        let f = registers.f;
        let res = ((v as u16 + 255) % 256) as u8;
        registers.f = pack_flags(res == 0, true, v % 16 == 0, f & CARRY_MASK != 0);
        bus_write(memory, addr, res);
        self.length = 1;
        self.cycle = 12;
    }

    // ---------------------ADD / ADC--------------------
    /// ADD A,r
    pub fn add_reg_to_reg_8bit(&mut self, registers: &mut CpuRegisters, from: Register8Bit)
        ensures
            *final(registers) == old(registers).with_af(
                add_value(old(registers).a, old(registers).reg8(from), false),
                add_flags(old(registers).a, old(registers).reg8(from), false),
            ),
            final(self).flag == old(self).flag,
            final(self).length == 1 && final(self).cycle == 4,
    {
        let value = registers.get_8bit_reg_value(from);
        self.add_8bit_to_reg_8bit(registers, value);
        self.length = 1;
        self.cycle = 4;
    }

    /// ADD HL,rr
    pub fn add_reg_16bit_to_reg_16_bit(&mut self, registers: &mut CpuRegisters, from: Register16Bit)
        ensures
            *final(registers) == old(registers).with_f(
                add16_flags(hl(*old(registers)), old(registers).reg16(from), old(registers).f),
            ).with_reg16(
                Register16Bit::HL,
                add16_value(hl(*old(registers)), old(registers).reg16(from)),
            ),
            final(self).flag == old(self).flag,
            final(self).length == 1 && final(self).cycle == 8,
    {
        let value = registers.get_16bit_reg_value(from);
        let x = registers.get_16bit_reg_value(Register16Bit::HL);
        let sum: u32 = x as u32 + value as u32;
        let f = registers.f;
        registers.f = pack_flags(f & ZERO_MASK != 0, false, x % 4096 + value % 4096 > 4095, sum > 65535);
        registers.ld_16bit_reg(Register16Bit::HL, (sum % 65536) as u16);
        self.length = 1;
        self.cycle = 8;
    }

    /// ADD A,d8
    pub fn add_8bit_to_reg_8bit(&mut self, registers: &mut CpuRegisters, value: u8)
        ensures
            *final(registers) == old(registers).with_af(
                add_value(old(registers).a, value, false),
                add_flags(old(registers).a, value, false),
            ),
            final(self).flag == old(self).flag,
            final(self).length == 2 && final(self).cycle == 8,
    {
        let (res, flags) = alu_add(registers.a, value, false);
        registers.a = res;
        registers.f = flags;
        self.length = 2;
        self.cycle = 8;
    }

    /// ADD A,(HL)
    pub fn add_mem_reg_to_reg_8bit(&mut self, registers: &mut CpuRegisters, memory: &mut Memory)
        requires
            old(memory).wf(),
        ensures
            final(memory)@ == old(memory)@,
            *final(registers) == old(registers).with_af(
                add_value(old(registers).a, old(memory)@.read(hl(*old(registers))), false),
                add_flags(old(registers).a, old(memory)@.read(hl(*old(registers))), false),
            ),
            final(self).flag == old(self).flag,
            final(self).length == 1 && final(self).cycle == 8,
    {
        let value = bus_read(memory, registers.get_16bit_reg_value(Register16Bit::HL)).unwrap();
        self.add_8bit_to_reg_8bit(registers, value);
        self.length = 1;
        self.cycle = 8;
    }

    /// ADD SP,r8
    pub fn add_sp_r8(&mut self, registers: &mut CpuRegisters, data: i8)
        ensures
            *final(registers) == old(registers).with_f(sp_offset_flags(old(registers).sp, data)).with_reg16(
                Register16Bit::SP,
                sp_offset_value(old(registers).sp, data),
            ),
            final(self).flag == old(self).flag,
            final(self).length == 2 && final(self).cycle == 16,
    {
        let (res, flags) = sp_offset(registers.sp, data);
        registers.f = flags;
        registers.sp = res;
        self.length = 2;
        self.cycle = 16;
    }

    /// LD HL,SP+r8: flags as ADD SP,r8; SP unchanged.
    pub fn ld_sp_to_hl_signed(&mut self, registers: &mut CpuRegisters, data: i8)
        ensures
            *final(registers) == old(registers).with_f(sp_offset_flags(old(registers).sp, data)).with_reg16(
                Register16Bit::HL,
                sp_offset_value(old(registers).sp, data),
            ),
            final(self).flag == old(self).flag,
            final(self).length == 2 && final(self).cycle == 12,
    {
        let (res, flags) = sp_offset(registers.sp, data);
        registers.f = flags;
        registers.ld_16bit_reg(Register16Bit::HL, res);
        self.length = 2;
        self.cycle = 12;
    }

    /// ADC A,r
    pub fn adc_reg_to_reg_8bit(&mut self, registers: &mut CpuRegisters, reg: Register8Bit)
        ensures
            *final(registers) == old(registers).with_af(
                add_value(old(registers).a, old(registers).reg8(reg), carry_flag(old(registers).f)),
                add_flags(old(registers).a, old(registers).reg8(reg), carry_flag(old(registers).f)),
            ),
            final(self).flag == old(self).flag,
            final(self).length == 1 && final(self).cycle == 4,
    {
        let value = registers.get_8bit_reg_value(reg);
        self.adc_8bit_to_reg_8bit(registers, value);
        self.length = 1;
        self.cycle = 4;
    }

    /// ADC A,d8
    pub fn adc_8bit_to_reg_8bit(&mut self, registers: &mut CpuRegisters, value: u8)
        ensures
            *final(registers) == old(registers).with_af(
                add_value(old(registers).a, value, carry_flag(old(registers).f)),
                add_flags(old(registers).a, value, carry_flag(old(registers).f)),
            ),
            final(self).flag == old(self).flag,
            final(self).length == 2 && final(self).cycle == 8,
    {
        let c = registers.f & CARRY_MASK != 0;
        let (res, flags) = alu_add(registers.a, value, c);
        registers.a = res;
        registers.f = flags;
        self.length = 2;
        self.cycle = 8;
    }

    /// ADC A,(HL)
    pub fn adc_mem_reg_to_reg_8bit(&mut self, registers: &mut CpuRegisters, memory: &mut Memory)
        requires
            old(memory).wf(),
        ensures
            final(memory)@ == old(memory)@,
            *final(registers) == old(registers).with_af(
                add_value(
                    old(registers).a,
                    old(memory)@.read(hl(*old(registers))),
                    carry_flag(old(registers).f),
                ),
                add_flags(
                    old(registers).a,
                    old(memory)@.read(hl(*old(registers))),
                    carry_flag(old(registers).f),
                ),
            ),
            final(self).flag == old(self).flag,
            final(self).length == 1 && final(self).cycle == 8,
    {
        let value = bus_read(memory, registers.get_16bit_reg_value(Register16Bit::HL)).unwrap();
        self.adc_8bit_to_reg_8bit(registers, value);
        self.length = 1;
        self.cycle = 8;
    }

    // ---------------------SUB / SBC / CP--------------------
    /// SUB r
    pub fn sub_reg_to_reg_8bit(&mut self, registers: &mut CpuRegisters, reg: Register8Bit)
        ensures
            *final(registers) == old(registers).with_af(
                sub_value(old(registers).a, old(registers).reg8(reg), false),
                sub_flags(old(registers).a, old(registers).reg8(reg), false),
            ),
            final(self).flag == old(self).flag,
            final(self).length == 1 && final(self).cycle == 4,
    {
        let value = registers.get_8bit_reg_value(reg);
        self.sub_8bit_to_reg_8bit(registers, value);
        self.length = 1;
        self.cycle = 4;
    }

    /// SUB d8
    pub fn sub_8bit_to_reg_8bit(&mut self, registers: &mut CpuRegisters, value: u8)
        ensures
            *final(registers) == old(registers).with_af(
                sub_value(old(registers).a, value, false),
                sub_flags(old(registers).a, value, false),
            ),
            final(self).flag == old(self).flag,
            final(self).length == 2 && final(self).cycle == 8,
    {
        let (res, flags) = alu_sub(registers.a, value, false);
        registers.a = res;
        registers.f = flags;
        self.length = 2;
        self.cycle = 8;
    }

    /// SUB (HL)
    pub fn sub_mem_reg_to_reg_8bit(&mut self, registers: &mut CpuRegisters, memory: &mut Memory)
        requires
            old(memory).wf(),
        ensures
            final(memory)@ == old(memory)@,
            *final(registers) == old(registers).with_af(
                sub_value(old(registers).a, old(memory)@.read(hl(*old(registers))), false),
                sub_flags(old(registers).a, old(memory)@.read(hl(*old(registers))), false),
            ),
            final(self).flag == old(self).flag,
            final(self).length == 1 && final(self).cycle == 8,
    {
        let value = bus_read(memory, registers.get_16bit_reg_value(Register16Bit::HL)).unwrap();
        self.sub_8bit_to_reg_8bit(registers, value);
        self.length = 1;
        self.cycle = 8;
    }

    /// SBC A,r
    pub fn sbc_reg_to_reg_8bit(&mut self, registers: &mut CpuRegisters, reg: Register8Bit)
        ensures
            *final(registers) == old(registers).with_af(
                sub_value(old(registers).a, old(registers).reg8(reg), carry_flag(old(registers).f)),
                sub_flags(old(registers).a, old(registers).reg8(reg), carry_flag(old(registers).f)),
            ),
            final(self).flag == old(self).flag,
            final(self).length == 1 && final(self).cycle == 4,
    {
        let value = registers.get_8bit_reg_value(reg);
        self.sbc_8bit_to_reg_8bit(registers, value);
        self.length = 1;
        self.cycle = 4;
    }

    /// SBC A,d8
    pub fn sbc_8bit_to_reg_8bit(&mut self, registers: &mut CpuRegisters, value: u8)
        ensures
            *final(registers) == old(registers).with_af(
                sub_value(old(registers).a, value, carry_flag(old(registers).f)),
                sub_flags(old(registers).a, value, carry_flag(old(registers).f)),
            ),
            final(self).flag == old(self).flag,
            final(self).length == 2 && final(self).cycle == 8,
    {
        let c = registers.f & CARRY_MASK != 0;
        let (res, flags) = alu_sub(registers.a, value, c);
        registers.a = res;
        registers.f = flags;
        self.length = 2;
        self.cycle = 8;
    }

    /// SBC A,(HL)
    pub fn sbc_mem_reg_to_reg_8bit(&mut self, registers: &mut CpuRegisters, memory: &mut Memory)
        requires
            old(memory).wf(),
        ensures
            final(memory)@ == old(memory)@,
            *final(registers) == old(registers).with_af(
                sub_value(
                    old(registers).a,
                    old(memory)@.read(hl(*old(registers))),
                    carry_flag(old(registers).f),
                ),
                sub_flags(
                    old(registers).a,
                    old(memory)@.read(hl(*old(registers))),
                    carry_flag(old(registers).f),
                ),
            ),
            final(self).flag == old(self).flag,
            final(self).length == 1 && final(self).cycle == 8,
    {
        let value = bus_read(memory, registers.get_16bit_reg_value(Register16Bit::HL)).unwrap();
        self.sbc_8bit_to_reg_8bit(registers, value);
        self.length = 1;
        self.cycle = 8;
    }

    /// CP r: flags of SUB, A unchanged.
    pub fn cp_reg_8bit(&mut self, registers: &mut CpuRegisters, from: Register8Bit)
        ensures
            *final(registers) == old(registers).with_f(
                sub_flags(old(registers).a, old(registers).reg8(from), false),
            ),
            final(self).flag == old(self).flag,
            final(self).length == 1 && final(self).cycle == 4,
    {
        let value = registers.get_8bit_reg_value(from);
        self.cp_8bit_reg_8bit(registers, value);
        self.length = 1;
        self.cycle = 4;
    }

    /// CP (HL)
    pub fn cp_mem_reg_to_reg_8bit(&mut self, registers: &mut CpuRegisters, memory: &mut Memory)
        requires
            old(memory).wf(),
        ensures
            final(memory)@ == old(memory)@,
            *final(registers) == old(registers).with_f(
                sub_flags(old(registers).a, old(memory)@.read(hl(*old(registers))), false),
            ),
            final(self).flag == old(self).flag,
            final(self).length == 1 && final(self).cycle == 8,
    {
        let value = bus_read(memory, registers.get_16bit_reg_value(Register16Bit::HL)).unwrap();
        self.cp_8bit_reg_8bit(registers, value);
        self.length = 1;
        self.cycle = 8;
    }

    /// CP d8
    pub fn cp_8bit_reg_8bit(&mut self, registers: &mut CpuRegisters, value: u8)
        ensures
            *final(registers) == old(registers).with_f(sub_flags(old(registers).a, value, false)),
            final(self).flag == old(self).flag,
            final(self).length == 2 && final(self).cycle == 8,
    {
        let (_, flags) = alu_sub(registers.a, value, false);
        registers.f = flags;
        self.length = 2;
        self.cycle = 8;
    }

    // ---------------------AND / OR / XOR--------------------
    /// AND / OR / XOR r
    pub fn bitwise_reg_8bit(&mut self, registers: &mut CpuRegisters, reg: Register8Bit, operator: BitwiseOperator)
        ensures
            *final(registers) == old(registers).with_af(
                logic_value(old(registers).a, old(registers).reg8(reg), operator),
                logic_flags(old(registers).a, old(registers).reg8(reg), operator),
            ),
            final(self).flag == old(self).flag,
            final(self).length == 1 && final(self).cycle == 4,
    {
        let value = registers.get_8bit_reg_value(reg);
        self.bitwise_8bit_reg_8bit(registers, value, operator);
        self.length = 1;
        self.cycle = 4;
    }

    /// AND / OR / XOR d8
    pub fn bitwise_8bit_reg_8bit(&mut self, registers: &mut CpuRegisters, value: u8, operator: BitwiseOperator)
        ensures
            *final(registers) == old(registers).with_af(
                logic_value(old(registers).a, value, operator),
                logic_flags(old(registers).a, value, operator),
            ),
            final(self).flag == old(self).flag,
            final(self).length == 2 && final(self).cycle == 8,
    {
        let a = registers.a;
        let res = match operator {
            BitwiseOperator::And => a & value,
            BitwiseOperator::Or => a | value,
            BitwiseOperator::Xor => a ^ value,
            BitwiseOperator::Unmapped => a,
        };
        let is_and = match operator {
            BitwiseOperator::And => true,
            _ => false,
        };
        registers.f = pack_flags(res == 0, false, is_and, false);
        registers.a = res;
        self.length = 2;
        self.cycle = 8;
    }

    /// AND / OR / XOR (HL)
    pub fn bitwise_mem_reg_to_reg_8bit(
        &mut self,
        registers: &mut CpuRegisters,
        memory: &mut Memory,
        operator: BitwiseOperator,
    )
        requires
            old(memory).wf(),
        ensures
            final(memory)@ == old(memory)@,
            *final(registers) == old(registers).with_af(
                logic_value(old(registers).a, old(memory)@.read(hl(*old(registers))), operator),
                logic_flags(old(registers).a, old(memory)@.read(hl(*old(registers))), operator),
            ),
            final(self).flag == old(self).flag,
            final(self).length == 1 && final(self).cycle == 8,
    {
        let value = bus_read(memory, registers.get_16bit_reg_value(Register16Bit::HL)).unwrap();
        self.bitwise_8bit_reg_8bit(registers, value, operator);
        self.length = 1;
        self.cycle = 8;
    }

    // ---------------------ACCUMULATOR ROTATES AND DAA--------------------
    /// RLCA
    pub fn rlca(&mut self, registers: &mut CpuRegisters)
        ensures
            *final(registers) == old(registers).with_af(
                rlc_value(old(registers).a),
                rotate_a_flags(old(registers).a >= 128),
            ),
            final(self).flag == old(self).flag,
            final(self).length == 1 && final(self).cycle == 4,
    {
        let v = registers.a;
        registers.a = (v % 128) * 2 + v / 128;
        registers.f = pack_flags(false, false, false, v >= 128);
        self.length = 1;
        self.cycle = 4;
    }

    /// RLA
    pub fn rla(&mut self, registers: &mut CpuRegisters)
        ensures
            *final(registers) == old(registers).with_af(
                rl_value(old(registers).a, carry_flag(old(registers).f)),
                rotate_a_flags(old(registers).a >= 128),
            ),
            final(self).flag == old(self).flag,
            final(self).length == 1 && final(self).cycle == 4,
    {
        let v = registers.a;
        let cin: u8 = if registers.f & CARRY_MASK != 0 { 1 } else { 0 };
        registers.a = (v % 128) * 2 + cin;
        registers.f = pack_flags(false, false, false, v >= 128);
        self.length = 1;
        self.cycle = 4;
    }

    /// RRCA
    pub fn rrca(&mut self, registers: &mut CpuRegisters)
        ensures
            *final(registers) == old(registers).with_af(
                rrc_value(old(registers).a),
                rotate_a_flags(old(registers).a % 2 == 1),
            ),
            final(self).flag == old(self).flag,
            final(self).length == 1 && final(self).cycle == 4,
    {
        let v = registers.a;
        registers.a = v / 2 + (v % 2) * 128;
        registers.f = pack_flags(false, false, false, v % 2 == 1);
        self.length = 1;
        self.cycle = 4;
    }

    /// RRA
    pub fn rra(&mut self, registers: &mut CpuRegisters)
        ensures
            *final(registers) == old(registers).with_af(
                rr_value(old(registers).a, carry_flag(old(registers).f)),
                rotate_a_flags(old(registers).a % 2 == 1),
            ),
            final(self).flag == old(self).flag,
            final(self).length == 1 && final(self).cycle == 4,
    {
        let v = registers.a;
        let cin: u8 = if registers.f & CARRY_MASK != 0 { 1 } else { 0 };
        registers.a = v / 2 + cin * 128;
        registers.f = pack_flags(false, false, false, v % 2 == 1);
        self.length = 1;
        self.cycle = 4;
    }

    /// DAA
    pub fn daa(&mut self, registers: &mut CpuRegisters)
        ensures
            *final(registers) == old(registers).with_af(
                daa_value(old(registers).a, old(registers).f),
                daa_flags(old(registers).a, old(registers).f),
            ),
            final(self).flag == old(self).flag,
            final(self).length == 1 && final(self).cycle == 4,
    {
        let a = registers.a;
        let f = registers.f;
        let carry = f & CARRY_MASK != 0;
        let half = f & HALF_CARRY_MASK != 0;
        let sub = f & SUBTRACTION_MASK != 0;
        let mut v: u16 = a as u16;
        let mut c = carry;
        if !sub {
            if carry || a > 0x99 {
                v = (v + 0x60) % 256;
                c = true;
            }
            if half || v % 16 > 9 {
                v = (v + 6) % 256;
            }
        } else {
            if carry {
                v = (v + 256 - 0x60) % 256;
            }
            if half {
                v = (v + 256 - 6) % 256;
            }
        }
        let res = v as u8;
        registers.a = res;
        registers.f = pack_flags(res == 0, sub, false, c);
        self.length = 1;
        self.cycle = 4;
    }
}

impl Instruction {
    // ---------------------CB ROTATES, SHIFTS AND BITS--------------------
    /// RLC r
    pub fn rlc_reg_8bit(&mut self, registers: &mut CpuRegisters, reg: Register8Bit)
        ensures
            *final(registers) == old(registers).with_f(
                shift_flags(rlc_value(old(registers).reg8(reg)), old(registers).reg8(reg) >= 128),
            ).with_reg8(reg, rlc_value(old(registers).reg8(reg))),
            final(self).flag == old(self).flag,
            final(self).length == 2 && final(self).cycle == 8,
    {
        let v = registers.get_8bit_reg_value(reg);
        let res: u8 = (v % 128) * 2 + v / 128;
        registers.f = pack_flags(res == 0, false, false, v >= 128);
        registers.ld_8bit_reg(reg, res);
        self.length = 2;
        self.cycle = 8;
    }

    /// RLC (HL)
    pub fn rlc_mem_reg(&mut self, registers: &mut CpuRegisters, memory: &mut Memory)
        requires
            old(memory).wf(),
        ensures
            final(memory).wf(),
            final(memory)@ == old(memory)@.written(
                hl(*old(registers)),
                rlc_value(old(memory)@.read(hl(*old(registers)))),
            ),
            *final(registers) == old(registers).with_f(
                shift_flags(rlc_value(old(memory)@.read(hl(*old(registers)))), old(memory)@.read(hl(*old(registers))) >= 128),
            ),
            final(self).flag == old(self).flag,
            final(self).length == 2 && final(self).cycle == 16,
    {
        let addr = registers.get_16bit_reg_value(Register16Bit::HL);
        let v = bus_read(memory, addr).unwrap();
        let res: u8 = (v % 128) * 2 + v / 128;
        registers.f = pack_flags(res == 0, false, false, v >= 128);
        bus_write(memory, addr, res);
        self.length = 2;
        self.cycle = 16;
    }

    /// RL r
    pub fn rl_reg_8bit(&mut self, registers: &mut CpuRegisters, reg: Register8Bit)
        ensures
            *final(registers) == old(registers).with_f(
                shift_flags(rl_value(old(registers).reg8(reg), carry_flag(old(registers).f)), old(registers).reg8(reg) >= 128),
            ).with_reg8(reg, rl_value(old(registers).reg8(reg), carry_flag(old(registers).f))),
            final(self).flag == old(self).flag,
            final(self).length == 2 && final(self).cycle == 8,
    {
        let v = registers.get_8bit_reg_value(reg);
        let cin: u8 = if registers.f & CARRY_MASK != 0 { 1 } else { 0 };
        let res: u8 = (v % 128) * 2 + cin;
        registers.f = pack_flags(res == 0, false, false, v >= 128);
        registers.ld_8bit_reg(reg, res);
        self.length = 2;
        self.cycle = 8;
    }

    /// RL (HL)
    pub fn rl_mem_reg(&mut self, registers: &mut CpuRegisters, memory: &mut Memory)
        requires
            old(memory).wf(),
        ensures
            final(memory).wf(),
            final(memory)@ == old(memory)@.written(
                hl(*old(registers)),
                rl_value(old(memory)@.read(hl(*old(registers))), carry_flag(old(registers).f)),
            ),
            *final(registers) == old(registers).with_f(
                shift_flags(rl_value(old(memory)@.read(hl(*old(registers))), carry_flag(old(registers).f)), old(memory)@.read(hl(*old(registers))) >= 128),
            ),
            final(self).flag == old(self).flag,
            final(self).length == 2 && final(self).cycle == 16,
    {
        let addr = registers.get_16bit_reg_value(Register16Bit::HL);
        let v = bus_read(memory, addr).unwrap();
        let cin: u8 = if registers.f & CARRY_MASK != 0 { 1 } else { 0 };
        let res: u8 = (v % 128) * 2 + cin;
        registers.f = pack_flags(res == 0, false, false, v >= 128);
        bus_write(memory, addr, res);
        self.length = 2;
        self.cycle = 16;
    }

    /// RRC r
    pub fn rrc_reg_8bit(&mut self, registers: &mut CpuRegisters, reg: Register8Bit)
        ensures
            *final(registers) == old(registers).with_f(
                shift_flags(rrc_value(old(registers).reg8(reg)), old(registers).reg8(reg) % 2 == 1),
            ).with_reg8(reg, rrc_value(old(registers).reg8(reg))),
            final(self).flag == old(self).flag,
            final(self).length == 2 && final(self).cycle == 8,
    {
        let v = registers.get_8bit_reg_value(reg);
        let res: u8 = v / 2 + (v % 2) * 128;
        registers.f = pack_flags(res == 0, false, false, v % 2 == 1);
        registers.ld_8bit_reg(reg, res);
        self.length = 2;
        self.cycle = 8;
    }

    /// RRC (HL)
    pub fn rrc_mem_reg(&mut self, registers: &mut CpuRegisters, memory: &mut Memory)
        requires
            old(memory).wf(),
        ensures
            final(memory).wf(),
            final(memory)@ == old(memory)@.written(
                hl(*old(registers)),
                rrc_value(old(memory)@.read(hl(*old(registers)))),
            ),
            *final(registers) == old(registers).with_f(
                shift_flags(rrc_value(old(memory)@.read(hl(*old(registers)))), old(memory)@.read(hl(*old(registers))) % 2 == 1),
            ),
            final(self).flag == old(self).flag,
            final(self).length == 2 && final(self).cycle == 16,
    {
        let addr = registers.get_16bit_reg_value(Register16Bit::HL);
        let v = bus_read(memory, addr).unwrap();
        let res: u8 = v / 2 + (v % 2) * 128;
        registers.f = pack_flags(res == 0, false, false, v % 2 == 1);
        bus_write(memory, addr, res);
        self.length = 2;
        self.cycle = 16;
    }

    /// RR r
    pub fn rr_reg_8bit(&mut self, registers: &mut CpuRegisters, reg: Register8Bit)
        ensures
            *final(registers) == old(registers).with_f(
                shift_flags(rr_value(old(registers).reg8(reg), carry_flag(old(registers).f)), old(registers).reg8(reg) % 2 == 1),
            ).with_reg8(reg, rr_value(old(registers).reg8(reg), carry_flag(old(registers).f))),
            final(self).flag == old(self).flag,
            final(self).length == 2 && final(self).cycle == 8,
    {
        let v = registers.get_8bit_reg_value(reg);
        let cin: u8 = if registers.f & CARRY_MASK != 0 { 1 } else { 0 };
        let res: u8 = v / 2 + cin * 128;
        registers.f = pack_flags(res == 0, false, false, v % 2 == 1);
        registers.ld_8bit_reg(reg, res);
        self.length = 2;
        self.cycle = 8;
    }

    /// RR (HL)
    pub fn rr_mem_reg(&mut self, registers: &mut CpuRegisters, memory: &mut Memory)
        requires
            old(memory).wf(),
        ensures
            final(memory).wf(),
            final(memory)@ == old(memory)@.written(
                hl(*old(registers)),
                rr_value(old(memory)@.read(hl(*old(registers))), carry_flag(old(registers).f)),
            ),
            *final(registers) == old(registers).with_f(
                shift_flags(rr_value(old(memory)@.read(hl(*old(registers))), carry_flag(old(registers).f)), old(memory)@.read(hl(*old(registers))) % 2 == 1),
            ),
            final(self).flag == old(self).flag,
            final(self).length == 2 && final(self).cycle == 16,
    {
        let addr = registers.get_16bit_reg_value(Register16Bit::HL);
        let v = bus_read(memory, addr).unwrap();
        let cin: u8 = if registers.f & CARRY_MASK != 0 { 1 } else { 0 };
        let res: u8 = v / 2 + cin * 128;
        registers.f = pack_flags(res == 0, false, false, v % 2 == 1);
        bus_write(memory, addr, res);
        self.length = 2;
        self.cycle = 16;
    }

    /// SLA r
    pub fn sla_reg_8bit(&mut self, registers: &mut CpuRegisters, reg: Register8Bit)
        ensures
            *final(registers) == old(registers).with_f(
                shift_flags(sla_value(old(registers).reg8(reg)), old(registers).reg8(reg) >= 128),
            ).with_reg8(reg, sla_value(old(registers).reg8(reg))),
            final(self).flag == old(self).flag,
            final(self).length == 2 && final(self).cycle == 8,
    {
        let v = registers.get_8bit_reg_value(reg);
        let res: u8 = (v % 128) * 2;
        registers.f = pack_flags(res == 0, false, false, v >= 128);
        registers.ld_8bit_reg(reg, res);
        self.length = 2;
        self.cycle = 8;
    }

    /// SLA (HL)
    pub fn sla_mem_reg(&mut self, registers: &mut CpuRegisters, memory: &mut Memory)
        requires
            old(memory).wf(),
        ensures
            final(memory).wf(),
            final(memory)@ == old(memory)@.written(
                hl(*old(registers)),
                sla_value(old(memory)@.read(hl(*old(registers)))),
            ),
            *final(registers) == old(registers).with_f(
                shift_flags(sla_value(old(memory)@.read(hl(*old(registers)))), old(memory)@.read(hl(*old(registers))) >= 128),
            ),
            final(self).flag == old(self).flag,
            final(self).length == 2 && final(self).cycle == 16,
    {
        let addr = registers.get_16bit_reg_value(Register16Bit::HL);
        let v = bus_read(memory, addr).unwrap();
        let res: u8 = (v % 128) * 2;
        registers.f = pack_flags(res == 0, false, false, v >= 128);
        bus_write(memory, addr, res);
        self.length = 2;
        self.cycle = 16;
    }

    /// SRA r
    pub fn sra_reg_8bit(&mut self, registers: &mut CpuRegisters, reg: Register8Bit)
        ensures
            *final(registers) == old(registers).with_f(
                shift_flags(sra_value(old(registers).reg8(reg)), old(registers).reg8(reg) % 2 == 1),
            ).with_reg8(reg, sra_value(old(registers).reg8(reg))),
            final(self).flag == old(self).flag,
            final(self).length == 2 && final(self).cycle == 8,
    {
        let v = registers.get_8bit_reg_value(reg);
        let res: u8 = v / 2 + (v / 128) * 128;
        registers.f = pack_flags(res == 0, false, false, v % 2 == 1);
        registers.ld_8bit_reg(reg, res);
        self.length = 2;
        self.cycle = 8;
    }

    /// SRA (HL)
    pub fn sra_mem_reg(&mut self, registers: &mut CpuRegisters, memory: &mut Memory)
        requires
            old(memory).wf(),
        ensures
            final(memory).wf(),
            final(memory)@ == old(memory)@.written(
                hl(*old(registers)),
                sra_value(old(memory)@.read(hl(*old(registers)))),
            ),
            *final(registers) == old(registers).with_f(
                shift_flags(sra_value(old(memory)@.read(hl(*old(registers)))), old(memory)@.read(hl(*old(registers))) % 2 == 1),
            ),
            final(self).flag == old(self).flag,
            final(self).length == 2 && final(self).cycle == 16,
    {
        let addr = registers.get_16bit_reg_value(Register16Bit::HL);
        let v = bus_read(memory, addr).unwrap();
        let res: u8 = v / 2 + (v / 128) * 128;
        registers.f = pack_flags(res == 0, false, false, v % 2 == 1);
        bus_write(memory, addr, res);
        self.length = 2;
        self.cycle = 16;
    }

    /// SRL r
    pub fn srl_reg_8bit(&mut self, registers: &mut CpuRegisters, reg: Register8Bit)
        ensures
            *final(registers) == old(registers).with_f(
                shift_flags(srl_value(old(registers).reg8(reg)), old(registers).reg8(reg) % 2 == 1),
            ).with_reg8(reg, srl_value(old(registers).reg8(reg))),
            final(self).flag == old(self).flag,
            final(self).length == 2 && final(self).cycle == 8,
    {
        let v = registers.get_8bit_reg_value(reg);
        let res: u8 = v / 2;
        registers.f = pack_flags(res == 0, false, false, v % 2 == 1);
        registers.ld_8bit_reg(reg, res);
        self.length = 2;
        self.cycle = 8;
    }

    /// SRL (HL)
    pub fn srl_mem_reg(&mut self, registers: &mut CpuRegisters, memory: &mut Memory)
        requires
            old(memory).wf(),
        ensures
            final(memory).wf(),
            final(memory)@ == old(memory)@.written(
                hl(*old(registers)),
                srl_value(old(memory)@.read(hl(*old(registers)))),
            ),
            *final(registers) == old(registers).with_f(
                shift_flags(srl_value(old(memory)@.read(hl(*old(registers)))), old(memory)@.read(hl(*old(registers))) % 2 == 1),
            ),
            final(self).flag == old(self).flag,
            final(self).length == 2 && final(self).cycle == 16,
    {
        let addr = registers.get_16bit_reg_value(Register16Bit::HL);
        let v = bus_read(memory, addr).unwrap();
        let res: u8 = v / 2;
        registers.f = pack_flags(res == 0, false, false, v % 2 == 1);
        bus_write(memory, addr, res);
        self.length = 2;
        self.cycle = 16;
    }

    /// SWAP r
    pub fn swap_reg_8bit(&mut self, registers: &mut CpuRegisters, reg: Register8Bit)
        ensures
            *final(registers) == old(registers).with_f(
                shift_flags(swap_value(old(registers).reg8(reg)), false),
            ).with_reg8(reg, swap_value(old(registers).reg8(reg))),
            final(self).flag == old(self).flag,
            final(self).length == 2 && final(self).cycle == 8,
    {
        let v = registers.get_8bit_reg_value(reg);
        let res: u8 = (v % 16) * 16 + v / 16;
        registers.f = pack_flags(res == 0, false, false, false);
        registers.ld_8bit_reg(reg, res);
        self.length = 2;
        self.cycle = 8;
    }

    /// SWAP (HL)
    pub fn swap_mem_reg(&mut self, registers: &mut CpuRegisters, memory: &mut Memory)
        requires
            old(memory).wf(),
        ensures
            final(memory).wf(),
            final(memory)@ == old(memory)@.written(
                hl(*old(registers)),
                swap_value(old(memory)@.read(hl(*old(registers)))),
            ),
            *final(registers) == old(registers).with_f(
                shift_flags(swap_value(old(memory)@.read(hl(*old(registers)))), false),
            ),
            final(self).flag == old(self).flag,
            final(self).length == 2 && final(self).cycle == 16,
    {
        let addr = registers.get_16bit_reg_value(Register16Bit::HL);
        let v = bus_read(memory, addr).unwrap();
        let res: u8 = (v % 16) * 16 + v / 16;
        registers.f = pack_flags(res == 0, false, false, false);
        bus_write(memory, addr, res);
        self.length = 2;
        self.cycle = 16;
    }

    /// BIT n,r
    pub fn bit_reg_8bit(&mut self, registers: &mut CpuRegisters, reg: Register8Bit, bit: u8)
        requires
            bit < 8,
        ensures
            *final(registers) == old(registers).with_f(
                bit_flags(old(registers).reg8(reg), bit, old(registers).f),
            ),
            final(self).flag == old(self).flag,
            final(self).length == 2 && final(self).cycle == 8,
    {
        let v = registers.get_8bit_reg_value(reg);
        let f = registers.f;
        registers.f = pack_flags(v & (1u8 << bit) == 0, false, true, f & CARRY_MASK != 0);
        self.length = 2;
        self.cycle = 8;
    }

    /// BIT n,(HL)
    pub fn bit_mem_reg(&mut self, registers: &mut CpuRegisters, memory: &mut Memory, bit: u8)
        requires
            old(memory).wf(),
            bit < 8,
        ensures
            final(memory)@ == old(memory)@,
            *final(registers) == old(registers).with_f(
                bit_flags(old(memory)@.read(hl(*old(registers))), bit, old(registers).f),
            ),
            final(self).flag == old(self).flag,
            final(self).length == 2 && final(self).cycle == 12,
    {
        let v = bus_read(memory, registers.get_16bit_reg_value(Register16Bit::HL)).unwrap();
        let f = registers.f;
        registers.f = pack_flags(v & (1u8 << bit) == 0, false, true, f & CARRY_MASK != 0);
        self.length = 2;
        self.cycle = 12;
    }

    /// SET n,r
    pub fn set_reg_8bit(&mut self, registers: &mut CpuRegisters, reg: Register8Bit, bit: u8)
        requires
            bit < 8,
        ensures
            *final(registers) == old(registers).with_reg8(reg, old(registers).reg8(reg) | (1u8 << bit)),
            final(self).flag == old(self).flag,
            final(self).length == 2 && final(self).cycle == 8,
    {
        let v = registers.get_8bit_reg_value(reg);
        registers.ld_8bit_reg(reg, v | (1u8 << bit));
        self.length = 2;
        self.cycle = 8;
    }

    /// SET n,(HL)
    pub fn set_mem_reg(&mut self, registers: &mut CpuRegisters, memory: &mut Memory, bit: u8)
        requires
            old(memory).wf(),
            bit < 8,
        ensures
            final(memory).wf(),
            final(memory)@ == old(memory)@.written(
                hl(*old(registers)),
                old(memory)@.read(hl(*old(registers))) | (1u8 << bit),
            ),
            *final(registers) == *old(registers),
            final(self).flag == old(self).flag,
            final(self).length == 2 && final(self).cycle == 16,
    {
        let addr = registers.get_16bit_reg_value(Register16Bit::HL);
        let v = bus_read(memory, addr).unwrap();
        bus_write(memory, addr, v | (1u8 << bit));
        self.length = 2;
        self.cycle = 16;
    }

    /// RES n,r
    pub fn res_reg_8bit(&mut self, registers: &mut CpuRegisters, reg: Register8Bit, bit: u8)
        requires
            bit < 8,
        ensures
            *final(registers) == old(registers).with_reg8(reg, old(registers).reg8(reg) & !(1u8 << bit)),
            final(self).flag == old(self).flag,
            final(self).length == 2 && final(self).cycle == 8,
    {
        let v = registers.get_8bit_reg_value(reg);
        registers.ld_8bit_reg(reg, v & !(1u8 << bit));
        self.length = 2;
        self.cycle = 8;
    }

    /// RES n,(HL)
    pub fn res_mem_reg(&mut self, registers: &mut CpuRegisters, memory: &mut Memory, bit: u8)
        requires
            old(memory).wf(),
            bit < 8,
        ensures
            final(memory).wf(),
            final(memory)@ == old(memory)@.written(
                hl(*old(registers)),
                old(memory)@.read(hl(*old(registers))) & !(1u8 << bit),
            ),
            *final(registers) == *old(registers),
            final(self).flag == old(self).flag,
            final(self).length == 2 && final(self).cycle == 16,
    {
        let addr = registers.get_16bit_reg_value(Register16Bit::HL);
        let v = bus_read(memory, addr).unwrap();
        bus_write(memory, addr, v & !(1u8 << bit));
        self.length = 2;
        self.cycle = 16;
    }
}

} // verus!
