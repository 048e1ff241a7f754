use vstd::prelude::*;

use crate::memory::{
    bus_read, bus_read_16bit_value, bus_write, lemma_rom_bank_never_zero, lemma_write_other,
    lemma_write_read, plain_address, Memory, MemoryView,
};
use crate::register::{
    carry_flag, flags_byte, high_byte, lemma_pair_split, lemma_reg16_read_write, low_byte, zero_flag, CpuRegisters, Flag, Register16Bit,
    Register8Bit,
    CARRY_MASK, HALF_CARRY_MASK, SUBTRACTION_MASK, ZERO_MASK,
};

verus! {

/// The logical operation of an AND / XOR / OR opcode.
#[derive(Clone, Copy, Debug, PartialEq, Eq, Structural)]
pub enum BitwiseOperator {
    And,
    Or,
    Xor,
    Unmapped,
}

/// The operator of an opcode of the logical block (0xA0..=0xB7) or of the
/// immediate forms 0xE6 (AND), 0xEE (XOR) and 0xF6 (OR).
pub open spec fn operator_of(opcode: u8) -> BitwiseOperator {
    if 0xA0 <= opcode <= 0xA7 || opcode == 0xE6 {
        BitwiseOperator::And
    } else if 0xA8 <= opcode <= 0xAF || opcode == 0xEE {
        BitwiseOperator::Xor
    } else if 0xB0 <= opcode <= 0xB7 || opcode == 0xF6 {
        BitwiseOperator::Or
    } else {
        BitwiseOperator::Unmapped
    }
}

impl BitwiseOperator {
    pub fn get_operator(opcode: u8) -> (r: Self)
        ensures
            r == operator_of(opcode),
    {
        if (0xA0 <= opcode && opcode <= 0xA7) || opcode == 0xE6 {
            BitwiseOperator::And
        } else if (0xA8 <= opcode && opcode <= 0xAF) || opcode == 0xEE {
            BitwiseOperator::Xor
        } else if (0xB0 <= opcode && opcode <= 0xB7) || opcode == 0xF6 {
            BitwiseOperator::Or
        } else {
            BitwiseOperator::Unmapped
        }
    }
}

/// What one executed instruction reports: the bytes to advance PC by (0 when
/// it wrote PC itself) and the T-cycles it took.
pub struct Instruction {
    pub flag: Vec<Flag>,
    pub length: u8,
    pub cycle: u8,
}

/// HL, the address register of the `(HL)` operand forms.
pub open spec fn hl(r: CpuRegisters) -> u16 {
    r.reg16(Register16Bit::HL)
}

/// `x + d` on 16 bits, wrapping.
pub open spec fn wrap16(x: int) -> u16 {
    ((x + 0x20000) % 0x10000) as u16
}

/// Whether a conditional instruction of the "taken when set" kind branches on
/// the flag value that `flag` carries.
pub open spec fn taken_if_set(flag: Flag) -> bool {
    match flag {
        Flag::Carry(v) => v,
        Flag::Zero(v) => v,
        _ => false,
    }
}

/// Whether a conditional instruction of the "taken when clear" kind branches.
pub open spec fn taken_if_clear(flag: Flag) -> bool {
    match flag {
        Flag::Carry(v) => !v,
        Flag::Zero(v) => !v,
        _ => false,
    }
}

/// The stack after pushing `v`: high byte at SP-1, low byte at SP-2.
pub open spec fn pushed(m: MemoryView, sp: u16, v: u16) -> MemoryView {
    m.written(wrap16(sp - 1), high_byte(v)).written(wrap16(sp - 2), low_byte(v))
}

impl Instruction {
    pub open spec fn timed(self, length: u8, cycle: u8) -> Instruction {
        Instruction { length, cycle, ..self }
    }

    pub fn new() -> (r: Self)
        ensures
            r.flag@.len() == 0,
            r.length == 0,
            r.cycle == 0,
    {
        Instruction { flag: Vec::new(), length: 0, cycle: 0 }
    }

    pub(crate) fn set_timing(&mut self, length: u8, cycle: u8)
        ensures
            *final(self) == old(self).timed(length, cycle),
    {
        self.length = length;
        self.cycle = cycle;
    }

    // ---------------------CPU CONTROL--------------------
    /// NOP
    pub fn no_op(&mut self)
        ensures
            *final(self) == old(self).timed(1, 4),
    {
        self.set_timing(1, 4);
    }

    /// CPL: A becomes its complement; N and H set.
    pub fn cpl(&mut self, registers: &mut CpuRegisters)
        ensures
            *final(registers) == old(registers).with_af(
                old(registers).a ^ 0xFF,
                flags_byte(zero_flag(old(registers).f), true, true, carry_flag(old(registers).f)),
            ),
            *final(self) == old(self).timed(1, 4),
    {
        let f = registers.f;
        registers.f = pack_flags(f & ZERO_MASK != 0, true, true, f & CARRY_MASK != 0);
        registers.a = registers.a ^ 0xFF;
        self.set_timing(1, 4);
    }

    /// SCF: C set, N and H cleared.
    pub fn scf(&mut self, registers: &mut CpuRegisters)
        ensures
            *final(registers) == old(registers).with_f(
                flags_byte(zero_flag(old(registers).f), false, false, true),
            ),
            *final(self) == old(self).timed(1, 4),
    {
        let f = registers.f;
        registers.f = pack_flags(f & ZERO_MASK != 0, false, false, true);
        self.set_timing(1, 4);
    }

    /// CCF: C complemented, N and H cleared.
    pub fn ccf(&mut self, registers: &mut CpuRegisters)
        ensures
            *final(registers) == old(registers).with_f(
                flags_byte(zero_flag(old(registers).f), false, false, !carry_flag(old(registers).f)),
            ),
            *final(self) == old(self).timed(1, 4),
    {
        let f = registers.f;
        registers.f = pack_flags(f & ZERO_MASK != 0, false, false, f & CARRY_MASK == 0);
        self.set_timing(1, 4);
    }

    // ---------------------JUMPS--------------------
    /// JP cc,a16 of the "taken when clear" kind (NZ, NC).
    pub fn jp_not_eq(&mut self, registers: &mut CpuRegisters, flag: Flag, addr: u16)
        ensures
            taken_if_clear(flag) ==> *final(registers) == old(registers).with_reg16(
                Register16Bit::PC,
                addr,
            ) && *final(self) == old(self).timed(0, 16),
            !taken_if_clear(flag) ==> *final(registers) == *old(registers) && *final(self)
                == old(self).timed(3, 12),
    {
        let taken = match flag {
            Flag::Carry(v) => !v,
            Flag::Zero(v) => !v,
            _ => false,
        };
        if taken {
            self.jp(registers, addr);
        } else {
            self.set_timing(3, 12);
        }
    }

    /// JP cc,a16 of the "taken when set" kind (Z, C).
    pub fn jp_eq(&mut self, registers: &mut CpuRegisters, flag: Flag, addr: u16)
        ensures
            taken_if_set(flag) ==> *final(registers) == old(registers).with_reg16(
                Register16Bit::PC,
                addr,
            ) && *final(self) == old(self).timed(0, 16),
            !taken_if_set(flag) ==> *final(registers) == *old(registers) && *final(self)
                == old(self).timed(3, 12),
    {
        let taken = match flag {
            Flag::Carry(v) => v,
            Flag::Zero(v) => v,
            _ => false,
        };
        if taken {
            self.jp(registers, addr);
        } else {
            self.set_timing(3, 12);
        }
    }

    /// JP (HL)
    pub fn jp_mem_reg(&mut self, registers: &mut CpuRegisters)
        ensures
            *final(registers) == old(registers).with_reg16(Register16Bit::PC, hl(*old(registers))),
            *final(self) == old(self).timed(0, 4),
    {
        registers.pc = registers.get_16bit_reg_value(Register16Bit::HL);
        self.set_timing(0, 4);
    }

    /// JP a16
    pub fn jp(&mut self, registers: &mut CpuRegisters, addr: u16)
        ensures
            *final(registers) == old(registers).with_reg16(Register16Bit::PC, addr),
            *final(self) == old(self).timed(0, 16),
    {
        registers.pc = addr;
        self.set_timing(0, 16);
    }

    /// JR cc,r8 of the "taken when clear" kind (NZ, NC).
    pub fn jr_not_eq(&mut self, registers: &mut CpuRegisters, flag: Flag, data: i8)
        ensures
            taken_if_clear(flag) ==> *final(registers) == old(registers).with_reg16(
                Register16Bit::PC,
                wrap16(old(registers).pc + 2 + data),
            ) && *final(self) == old(self).timed(0, 12),
            !taken_if_clear(flag) ==> *final(registers) == *old(registers) && *final(self)
                == old(self).timed(2, 8),
    {
        let taken = match flag {
            Flag::Carry(v) => !v,
            Flag::Zero(v) => !v,
            _ => false,
        };
        if taken {
            self.jr(registers, data);
        } else {
            self.set_timing(2, 8);
        }
    }

    /// JR cc,r8 of the "taken when set" kind (Z, C).
    pub fn jr_eq(&mut self, registers: &mut CpuRegisters, flag: Flag, data: i8)
        ensures
            taken_if_set(flag) ==> *final(registers) == old(registers).with_reg16(
                Register16Bit::PC,
                wrap16(old(registers).pc + 2 + data),
            ) && *final(self) == old(self).timed(0, 12),
            !taken_if_set(flag) ==> *final(registers) == *old(registers) && *final(self)
                == old(self).timed(2, 8),
    {
        let taken = match flag {
            Flag::Carry(v) => v,
            Flag::Zero(v) => v,
            _ => false,
        };
        if taken {
            self.jr(registers, data);
        } else {
            self.set_timing(2, 8);
        }
    }

    /// JR r8: PC becomes the address after the two-byte instruction plus the
    /// signed offset, wrapping.
    pub fn jr(&mut self, registers: &mut CpuRegisters, data: i8)
        ensures
            *final(registers) == old(registers).with_reg16(
                Register16Bit::PC,
                wrap16(old(registers).pc + 2 + data),
            ),
            *final(self) == old(self).timed(0, 12),
    {
        let target: i32 = registers.pc as i32 + 2 + data as i32 + 0x20000;
        registers.pc = (target % 0x10000) as u16;
        self.set_timing(0, 12);
    }

    // ---------------------CALLS AND RETURNS--------------------
    /// CALL cc,a16 of the "taken when clear" kind (NZ, NC).
    pub fn call_not_eq(
        &mut self,
        registers: &mut CpuRegisters,
        memory: &mut Memory,
        flag: Flag,
        addr: u16,
    )
        requires
            old(memory).wf(),
        ensures
            final(memory).wf(),
            taken_if_clear(flag) ==> *final(registers) == old(registers).with_reg16(
                Register16Bit::SP,
                wrap16(old(registers).sp - 2),
            ).with_reg16(Register16Bit::PC, addr) && final(memory)@ == pushed(
                old(memory)@,
                old(registers).sp,
                wrap16(old(registers).pc + 3),
            ) && *final(self) == old(self).timed(0, 24),
            !taken_if_clear(flag) ==> *final(registers) == *old(registers) && final(memory)@
                == old(memory)@ && *final(self) == old(self).timed(3, 12),
    {
        let taken = match flag {
            Flag::Carry(v) => !v,
            Flag::Zero(v) => !v,
            _ => false,
        };
        if taken {
            self.call(registers, memory, addr);
        } else {
            self.set_timing(3, 12);
        }
    }

    /// CALL cc,a16 of the "taken when set" kind (Z, C).
    pub fn call_eq(&mut self, registers: &mut CpuRegisters, memory: &mut Memory, flag: Flag, addr: u16)
        requires
            old(memory).wf(),
        ensures
            final(memory).wf(),
            taken_if_set(flag) ==> *final(registers) == old(registers).with_reg16(
                Register16Bit::SP,
                wrap16(old(registers).sp - 2),
            ).with_reg16(Register16Bit::PC, addr) && final(memory)@ == pushed(
                old(memory)@,
                old(registers).sp,
                wrap16(old(registers).pc + 3),
            ) && *final(self) == old(self).timed(0, 24),
            !taken_if_set(flag) ==> *final(registers) == *old(registers) && final(memory)@
                == old(memory)@ && *final(self) == old(self).timed(3, 12),
    {
        let taken = match flag {
            Flag::Carry(v) => v,
            Flag::Zero(v) => v,
            _ => false,
        };
        if taken {
            self.call(registers, memory, addr);
        } else {
            self.set_timing(3, 12);
        }
    }

    /// CALL a16: pushes the address after the three-byte instruction, then jumps.
    pub fn call(&mut self, registers: &mut CpuRegisters, memory: &mut Memory, addr: u16)
        requires
            old(memory).wf(),
        ensures
            final(memory).wf(),
            *final(registers) == old(registers).with_reg16(
                Register16Bit::SP,
                wrap16(old(registers).sp - 2),
            ).with_reg16(Register16Bit::PC, addr),
            final(memory)@ == pushed(old(memory)@, old(registers).sp, wrap16(old(registers).pc + 3)),
            *final(self) == old(self).timed(0, 24),
    {
        let ret = registers.pc.wrapping_add(3);
        push_value(registers, memory, ret);
        registers.pc = addr;
        self.set_timing(0, 24);
    }

    /// RET: pops PC.
    pub fn ret(&mut self, registers: &mut CpuRegisters, memory: &mut Memory)
        requires
            old(memory).wf(),
        ensures
            final(memory)@ == old(memory)@,
            *final(registers) == old(registers).with_reg16(
                Register16Bit::PC,
                old(memory)@.read16(old(registers).sp),
            ).with_reg16(Register16Bit::SP, wrap16(old(registers).sp + 2)),
            *final(self) == old(self).timed(0, 16),
    {
        let v = pop_value(registers, memory);
        registers.pc = v;
        self.set_timing(0, 16);
    }

    /// RET cc of the "taken when set" kind (Z, C).
    pub fn ret_eq(&mut self, registers: &mut CpuRegisters, memory: &mut Memory, flag: Flag)
        requires
            old(memory).wf(),
        ensures
            final(memory)@ == old(memory)@,
            taken_if_set(flag) ==> *final(registers) == old(registers).with_reg16(
                Register16Bit::PC,
                old(memory)@.read16(old(registers).sp),
            ).with_reg16(Register16Bit::SP, wrap16(old(registers).sp + 2)) && *final(self)
                == old(self).timed(0, 20),
            !taken_if_set(flag) ==> *final(registers) == *old(registers) && *final(self)
                == old(self).timed(1, 8),
    {
        let taken = match flag {
            Flag::Carry(v) => v,
            Flag::Zero(v) => v,
            _ => false,
        };
        if taken {
            self.ret(registers, memory);
            self.set_timing(0, 20);
        } else {
            self.set_timing(1, 8);
        }
    }

    /// RET cc of the "taken when clear" kind (NZ, NC).
    pub fn ret_not_eq(&mut self, registers: &mut CpuRegisters, memory: &mut Memory, flag: Flag)
        requires
            old(memory).wf(),
        ensures
            final(memory)@ == old(memory)@,
            taken_if_clear(flag) ==> *final(registers) == old(registers).with_reg16(
                Register16Bit::PC,
                old(memory)@.read16(old(registers).sp),
            ).with_reg16(Register16Bit::SP, wrap16(old(registers).sp + 2)) && *final(self)
                == old(self).timed(0, 20),
            !taken_if_clear(flag) ==> *final(registers) == *old(registers) && *final(self)
                == old(self).timed(1, 8),
    {
        let taken = match flag {
            Flag::Carry(v) => !v,
            Flag::Zero(v) => !v,
            _ => false,
        };
        if taken {
            self.ret(registers, memory);
            self.set_timing(0, 20);
        } else {
            self.set_timing(1, 8);
        }
    }

    /// RETI: returns as RET does (interrupt enabling is not modelled).
    pub fn reti(&mut self, registers: &mut CpuRegisters, memory: &mut Memory)
        requires
            old(memory).wf(),
        ensures
            final(memory)@ == old(memory)@,
            *final(registers) == old(registers).with_reg16(
                Register16Bit::PC,
                old(memory)@.read16(old(registers).sp),
            ).with_reg16(Register16Bit::SP, wrap16(old(registers).sp + 2)),
            *final(self) == old(self).timed(0, 16),
    {
        self.ret(registers, memory);
    }

    // ---------------------STACK--------------------
    /// POP rr: the low byte from (SP), the high byte from (SP+1); SP += 2.
    /// Popping into AF keeps the low nibble of F clear.
    pub fn pop_16bit_reg(&mut self, registers: &mut CpuRegisters, memory: &mut Memory, reg: Register16Bit)
        requires
            old(memory).wf(),
        ensures
            final(memory)@ == old(memory)@,
            *final(registers) == old(registers).with_reg16(
                Register16Bit::SP,
                wrap16(old(registers).sp + 2),
            ).with_reg16(
                reg,
                if reg == Register16Bit::AF {
                    old(memory)@.read16(old(registers).sp) & 0xFFF0
                } else {
                    old(memory)@.read16(old(registers).sp)
                },
            ),
            *final(self) == old(self).timed(1, 12),
    {
        let v = pop_value(registers, memory);
        let v = match reg {
            Register16Bit::AF => v & 0xFFF0,
            _ => v,
        };
        registers.ld_16bit_reg(reg, v);
        self.set_timing(1, 12);
    }

    /// PUSH rr: the high byte to (SP-1), the low byte to (SP-2); SP -= 2.
    pub fn push_16bit_reg(&mut self, registers: &mut CpuRegisters, memory: &mut Memory, reg: Register16Bit)
        requires
            old(memory).wf(),
        ensures
            final(memory).wf(),
            final(memory)@ == pushed(old(memory)@, old(registers).sp, old(registers).reg16(reg)),
            *final(registers) == old(registers).with_reg16(
                Register16Bit::SP,
                wrap16(old(registers).sp - 2),
            ),
            *final(self) == old(self).timed(1, 16),
    {
        let v = registers.get_16bit_reg_value(reg);
        push_value(registers, memory, v);
        self.set_timing(1, 16);
    }

    /// RST n: pushes the address after the one-byte instruction and jumps to
    /// `opcode & 0x38`.
    pub fn rst(&mut self, registers: &mut CpuRegisters, memory: &mut Memory, opcode: u8)
        requires
            old(memory).wf(),
        ensures
            final(memory).wf(),
            *final(registers) == old(registers).with_reg16(
                Register16Bit::SP,
                wrap16(old(registers).sp - 2),
            ).with_reg16(Register16Bit::PC, (opcode & 0x38) as u16),
            final(memory)@ == pushed(old(memory)@, old(registers).sp, wrap16(old(registers).pc + 1)),
            *final(self) == old(self).timed(0, 16),
    {
        let ret = registers.pc.wrapping_add(1);
        push_value(registers, memory, ret);
        registers.pc = (opcode & 0x38) as u16;
        self.set_timing(0, 16);
    }
}

impl Instruction {
    // ---------------------LOADS--------------------
    /// LD r,d8
    pub fn ld_reg_8bit(&mut self, registers: &mut CpuRegisters, to: Register8Bit, data: u8)
        ensures
            *final(registers) == old(registers).with_reg8(to, data),
            *final(self) == old(self).timed(2, 8),
    {
        registers.ld_8bit_reg(to, data);
        self.set_timing(2, 8);
    }

    /// LD A,(HL+)
    pub fn ld_hli(&mut self, registers: &mut CpuRegisters, memory: &mut Memory)
        requires
            old(memory).wf(),
        ensures
            final(memory)@ == old(memory)@,
            *final(registers) == old(registers).with_reg8(
                Register8Bit::A,
                old(memory)@.read(hl(*old(registers))),
            ).with_reg16(Register16Bit::HL, wrap16(hl(*old(registers)) + 1)),
            *final(self) == old(self).timed(1, 8),
    {
        self.ld_mem_reg_to_reg(registers, memory, Register8Bit::A, Register16Bit::HL);
        let v = registers.get_16bit_reg_value(Register16Bit::HL);
        registers.ld_16bit_reg(Register16Bit::HL, v.wrapping_add(1));
    }

    /// LD A,(HL-)
    pub fn ld_hld(&mut self, registers: &mut CpuRegisters, memory: &mut Memory)
        requires
            old(memory).wf(),
        ensures
            final(memory)@ == old(memory)@,
            *final(registers) == old(registers).with_reg8(
                Register8Bit::A,
                old(memory)@.read(hl(*old(registers))),
            ).with_reg16(Register16Bit::HL, wrap16(hl(*old(registers)) - 1)),
            *final(self) == old(self).timed(1, 8),
    {
        self.ld_mem_reg_to_reg(registers, memory, Register8Bit::A, Register16Bit::HL);
        let v = registers.get_16bit_reg_value(Register16Bit::HL);
        registers.ld_16bit_reg(Register16Bit::HL, v.wrapping_sub(1));
    }

    /// LD (HL+),A
    pub fn ld_mem_hli(&mut self, registers: &mut CpuRegisters, memory: &mut Memory)
        requires
            old(memory).wf(),
        ensures
            final(memory).wf(),
            final(memory)@ == old(memory)@.written(hl(*old(registers)), old(registers).a),
            *final(registers) == old(registers).with_reg16(
                Register16Bit::HL,
                wrap16(hl(*old(registers)) + 1),
            ),
            *final(self) == old(self).timed(1, 8),
    {
        self.ld_reg_to_mem_reg(registers, memory, Register8Bit::A, Register16Bit::HL);
        let v = registers.get_16bit_reg_value(Register16Bit::HL);
        registers.ld_16bit_reg(Register16Bit::HL, v.wrapping_add(1));
    }

    /// LD (HL-),A
    pub fn ld_mem_hld(&mut self, registers: &mut CpuRegisters, memory: &mut Memory)
        requires
            old(memory).wf(),
        ensures
            final(memory).wf(),
            final(memory)@ == old(memory)@.written(hl(*old(registers)), old(registers).a),
            *final(registers) == old(registers).with_reg16(
                Register16Bit::HL,
                wrap16(hl(*old(registers)) - 1),
            ),
            *final(self) == old(self).timed(1, 8),
    {
        self.ld_reg_to_mem_reg(registers, memory, Register8Bit::A, Register16Bit::HL);
        let v = registers.get_16bit_reg_value(Register16Bit::HL);
        registers.ld_16bit_reg(Register16Bit::HL, v.wrapping_sub(1));
    }

    /// LD (HL),d8
    pub fn ld_8bit_into_mem(&mut self, registers: &mut CpuRegisters, memory: &mut Memory, data: u8)
        requires
            old(memory).wf(),
        ensures
            final(memory).wf(),
            final(memory)@ == old(memory)@.written(hl(*old(registers)), data),
            *final(registers) == *old(registers),
            *final(self) == old(self).timed(2, 12),
    {
        let addr = registers.get_16bit_reg_value(Register16Bit::HL);
        bus_write(memory, addr, data);
        self.set_timing(2, 12);
    }

    /// LD (a16),SP: the low byte at `address`, the high byte at `address + 1`.
    pub fn ld_16bit_reg_to_mem(&mut self, registers: &mut CpuRegisters, memory: &mut Memory, address: u16)
        requires
            old(memory).wf(),
        ensures
            final(memory).wf(),
            final(memory)@ == old(memory)@.written(address, low_byte(old(registers).sp)).written(
                wrap16(address + 1),
                high_byte(old(registers).sp),
            ),
            *final(registers) == *old(registers),
            *final(self) == old(self).timed(3, 20),
    {
        self.ld_sp_to_mem(registers, memory, address);
    }

    /// LDH A,(a8): A from 0xFF00 + a8.
    pub fn ld_8bit_addr_to_reg_8bit(&mut self, registers: &mut CpuRegisters, memory: &mut Memory, addr: u8)
        requires
            old(memory).wf(),
        ensures
            final(memory)@ == old(memory)@,
            *final(registers) == old(registers).with_reg8(
                Register8Bit::A,
                old(memory)@.read((0xFF00 + addr) as u16),
            ),
            *final(self) == old(self).timed(2, 12),
    {
        let value = bus_read(memory, 0xFF00u16 + addr as u16).unwrap();
        registers.a = value;
        self.set_timing(2, 12);
    }

    /// LDH (a8),A: A to 0xFF00 + a8.
    pub fn ld_reg_8bit_to_addr_8bit(&mut self, registers: &mut CpuRegisters, memory: &mut Memory, addr: u8)
        requires
            old(memory).wf(),
        ensures
            final(memory).wf(),
            final(memory)@ == old(memory)@.written((0xFF00 + addr) as u16, old(registers).a),
            *final(registers) == *old(registers),
            *final(self) == old(self).timed(2, 12),
    {
        bus_write(memory, 0xFF00u16 + addr as u16, registers.a);
        self.set_timing(2, 12);
    }

    /// LD SP,HL
    pub fn ld_hl_to_sp(&mut self, registers: &mut CpuRegisters)
        ensures
            *final(registers) == old(registers).with_reg16(Register16Bit::SP, hl(*old(registers))),
            *final(self) == old(self).timed(1, 8),
    {
        let value = registers.get_16bit_reg_value(Register16Bit::HL);
        registers.sp = value;
        self.set_timing(1, 8);
    }

    /// LD (a16),SP: the low byte at `addr`, the high byte at `addr + 1`.
    pub fn ld_sp_to_mem(&mut self, registers: &mut CpuRegisters, memory: &mut Memory, addr: u16)
        requires
            old(memory).wf(),
        ensures
            final(memory).wf(),
            final(memory)@ == old(memory)@.written(addr, low_byte(old(registers).sp)).written(
                wrap16(addr + 1),
                high_byte(old(registers).sp),
            ),
            *final(registers) == *old(registers),
            *final(self) == old(self).timed(3, 20),
    {
        let sp = registers.sp;
        bus_write(memory, addr, (sp & 0xffu16) as u8);
        bus_write(memory, addr.wrapping_add(1), (sp >> 8u16) as u8);
        self.set_timing(3, 20);
    }

    /// LD rr,d16
    pub fn ld_reg_16bit(&mut self, registers: &mut CpuRegisters, to: Register16Bit, data: u16)
        ensures
            *final(registers) == old(registers).with_reg16(to, data),
            *final(self) == old(self).timed(3, 12),
    {
        registers.ld_16bit_reg(to, data);
        self.set_timing(3, 12);
    }

    /// LD r,r'
    pub fn ld_reg_reg(&mut self, registers: &mut CpuRegisters, to: Register8Bit, from: Register8Bit)
        ensures
            *final(registers) == old(registers).with_reg8(to, old(registers).reg8(from)),
            *final(self) == old(self).timed(1, 4),
    {
        let val = registers.get_8bit_reg_value(from);
        registers.ld_8bit_reg(to, val);
        self.set_timing(1, 4);
    }

    /// LD (rr),r: the 8-bit register `from` to the address held in `to`.
    pub fn ld_reg_to_mem_reg(
        &mut self,
        registers: &mut CpuRegisters,
        memory: &mut Memory,
        from: Register8Bit,
        to: Register16Bit,
    )
        requires
            old(memory).wf(),
        ensures
            final(memory).wf(),
            final(memory)@ == old(memory)@.written(old(registers).reg16(to), old(registers).reg8(from)),
            *final(registers) == *old(registers),
            *final(self) == old(self).timed(1, 8),
    {
        let address = registers.get_16bit_reg_value(to);
        let value = registers.get_8bit_reg_value(from);
        bus_write(memory, address, value);
        self.set_timing(1, 8);
    }

    /// LD r,(rr): the byte at the address held in `from` to the 8-bit register `to`.
    pub fn ld_mem_reg_to_reg(
        &mut self,
        registers: &mut CpuRegisters,
        memory: &mut Memory,
        to: Register8Bit,
        from: Register16Bit,
    )
        requires
            old(memory).wf(),
        ensures
            final(memory)@ == old(memory)@,
            *final(registers) == old(registers).with_reg8(to, old(memory)@.read(old(registers).reg16(from))),
            *final(self) == old(self).timed(1, 8),
    {
        let address = registers.get_16bit_reg_value(from);
        let result = bus_read(memory, address).unwrap();
        registers.ld_8bit_reg(to, result);
        self.set_timing(1, 8);
    }

    /// LD (C),A: A to 0xFF00 + C.
    pub fn ld_a_c(&mut self, registers: &mut CpuRegisters, memory: &mut Memory)
        requires
            old(memory).wf(),
        ensures
            final(memory).wf(),
            final(memory)@ == old(memory)@.written((0xFF00 + old(registers).c) as u16, old(registers).a),
            *final(registers) == *old(registers),
            *final(self) == old(self).timed(1, 8),
    {
        bus_write(memory, 0xFF00u16 + registers.c as u16, registers.a);
        self.set_timing(1, 8);
    }

    /// LD A,(C): A from 0xFF00 + C.
    pub fn ld_c_a(&mut self, registers: &mut CpuRegisters, memory: &mut Memory)
        requires
            old(memory).wf(),
        ensures
            final(memory)@ == old(memory)@,
            *final(registers) == old(registers).with_reg8(
                Register8Bit::A,
                old(memory)@.read((0xFF00 + old(registers).c) as u16),
            ),
            *final(self) == old(self).timed(1, 8),
    {
        let data = bus_read(memory, 0xFF00u16 + registers.c as u16).unwrap();
        registers.a = data;
        self.set_timing(1, 8);
    }

    /// LD (a16),r
    pub fn ld_reg_to_mem(&mut self, registers: &mut CpuRegisters, memory: &mut Memory, from: Register8Bit, to: u16)
        requires
            old(memory).wf(),
        ensures
            final(memory).wf(),
            final(memory)@ == old(memory)@.written(to, old(registers).reg8(from)),
            *final(registers) == *old(registers),
            *final(self) == old(self).timed(3, 16),
    {
        let data = registers.get_8bit_reg_value(from);
        bus_write(memory, to, data);
        self.set_timing(3, 16);
    }

    /// LD r,(a16)
    pub fn ld_mem_to_reg(&mut self, registers: &mut CpuRegisters, memory: &mut Memory, to: Register8Bit, from: u16)
        requires
            old(memory).wf(),
        ensures
            final(memory)@ == old(memory)@,
            *final(registers) == old(registers).with_reg8(to, old(memory)@.read(from)),
            *final(self) == old(self).timed(3, 16),
    {
        let data = bus_read(memory, from).unwrap();
        registers.ld_8bit_reg(to, data);
        self.set_timing(3, 16);
    }
}

/// A value pushed on a stack in plain memory is what a pop from the new top
/// reads back.
pub proof fn lemma_push_pop(m: MemoryView, sp: u16, v: u16)
    requires
        m.wf(),
        plain_address(wrap16(sp - 1)),
        plain_address(wrap16(sp - 2)),
    ensures
        pushed(m, sp, v).read16(wrap16(sp - 2)) == v,
        pushed(m, sp, v).wf(),
{
    let a1 = wrap16(sp - 1);
    let a2 = wrap16(sp - 2);
    let m1 = m.written(a1, high_byte(v));
    lemma_rom_bank_never_zero(m, a1, high_byte(v));
    lemma_rom_bank_never_zero(m1, a2, low_byte(v));
    lemma_write_read(m, a1, high_byte(v));
    lemma_write_read(m1, a2, low_byte(v));
    lemma_write_other(m1, a2, low_byte(v), a1);
    assert(((a2 as int + 1) % 0x10000) as u16 == a1);
    lemma_pair_split(v);
}

/// PUSH rr followed by POP rr, on a stack in plain memory, gives back the
/// registers as they were, SP included.
pub proof fn lemma_push_pop_registers(r: CpuRegisters, m: MemoryView, reg: Register16Bit)
    requires
        m.wf(),
        reg == Register16Bit::BC || reg == Register16Bit::DE || reg == Register16Bit::HL,
        plain_address(wrap16(r.sp - 1)),
        plain_address(wrap16(r.sp - 2)),
    ensures
        ({
            let pushed_regs = r.with_reg16(Register16Bit::SP, wrap16(r.sp - 2));
            let stack = pushed(m, r.sp, r.reg16(reg));
            pushed_regs.with_reg16(Register16Bit::SP, wrap16(pushed_regs.sp + 2)).with_reg16(
                reg,
                stack.read16(pushed_regs.sp),
            )
        }) == r,
{
    lemma_push_pop(m, r.sp, r.reg16(reg));
    lemma_reg16_read_write(r, reg);
    assert(wrap16(wrap16(r.sp - 2) + 2) == r.sp);
}

/// The `F` byte holding the given flags.
pub(crate) fn pack_flags(z: bool, n: bool, h: bool, c: bool) -> (r: u8)
    ensures
        r == flags_byte(z, n, h, c),
{
    (if z { ZERO_MASK } else { 0u8 }) | (if n { SUBTRACTION_MASK } else { 0u8 }) | (if h {
        HALF_CARRY_MASK
    } else {
        0u8
    }) | (if c { CARRY_MASK } else { 0u8 })
}

/// Pushes `v` on the stack.
fn push_value(registers: &mut CpuRegisters, memory: &mut Memory, v: u16)
    requires
        old(memory).wf(),
    ensures
        final(memory).wf(),
        final(memory)@ == pushed(old(memory)@, old(registers).sp, v),
        *final(registers) == old(registers).with_reg16(Register16Bit::SP, wrap16(old(registers).sp - 2)),
{
    let sp = registers.sp;
    bus_write(memory, sp.wrapping_sub(1), (v >> 8u16) as u8);
    bus_write(memory, sp.wrapping_sub(2), (v & 0xffu16) as u8);
    registers.sp = sp.wrapping_sub(2);
}

/// Pops a 16-bit value off the stack.
fn pop_value(registers: &mut CpuRegisters, memory: &Memory) -> (r: u16)
    requires
        memory.wf(),
    ensures
        r == memory@.read16(old(registers).sp),
        *final(registers) == old(registers).with_reg16(Register16Bit::SP, wrap16(old(registers).sp + 2)),
{
    let sp = registers.sp;
    let v = bus_read_16bit_value(memory, sp).unwrap();
    registers.sp = sp.wrapping_add(2);
    v
}

} // verus!
