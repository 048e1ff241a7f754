use vstd::prelude::*;

use crate::alu::{
    add16_flags, add16_value, add_flags, add_value, bit_flags, daa_flags, daa_value, dec_flags,
    dec_value, inc_flags, inc_value, logic_flags, logic_value, rl_value, rlc_value, rotate_a_flags,
    rr_value, rrc_value, shift_flags, sla_value, sp_offset_flags, sp_offset_value, sra_value,
    srl_value, sub_flags, sub_value, swap_value,
};
use crate::fetch::{cb_command, primary_command, Command};
use crate::instruction::{hl, operator_of, pushed, wrap16, BitwiseOperator, Instruction};
use crate::memory::{bus_read, bus_read_16bit_value, Memory, MemoryView};
use crate::register::{
    carry_flag, flags_byte, high_byte, left_operand, left_pair_operand, lemma_flags_byte_clean,
    low_byte, pair_of_row, register_code, right_operand, right_pair_operand, row_pair, zero_flag,
    CpuRegisters, Flag, Register16Bit, Register8Bit,
};

verus! {

/// The (length, T-cycles) that the instruction table gives a command; for a
/// conditional branch, the taken or the not-taken entry.
pub open spec fn timing(command: Command, taken: bool) -> (u8, u8) {
    match command {
        Command::NOP => (1, 4),
        Command::HALT => (1, 4),
        Command::LD_16Bit => (3, 12),
        Command::LD_Mem_Reg => (1, 8),
        Command::LD_Mem_Reg_A => (1, 8),
        Command::INC_16Bit => (1, 8),
        Command::INC_8Bit => (1, 4),
        Command::LD_A_Mem_Reg => (1, 8),
        Command::LD_Reg_Reg => (1, 4),
        Command::RLCA => (1, 4),
        Command::RLA => (1, 4),
        Command::LD_SP_Signed_HL => (2, 12),
        Command::LD_HL_SP => (1, 8),
        Command::ADD_16Bit => (1, 8),
        Command::LD_8Bit_Mem => (2, 12),
        Command::DEC_16Bit => (1, 8),
        Command::DEC_8bit => (1, 4),
        Command::Stop => (2, 4),
        Command::JR_8Bit => (0, 12),
        Command::JR_Eq_Carry => if taken {
            (0, 12)
        } else {
            (2, 8)
        },
        Command::JR_Eq_Zero => if taken {
            (0, 12)
        } else {
            (2, 8)
        },
        Command::JR_Not_Eq_Carry => if taken {
            (0, 12)
        } else {
            (2, 8)
        },
        Command::JR_Not_Eq_Zero => if taken {
            (0, 12)
        } else {
            (2, 8)
        },
        Command::LD_Hli => (1, 8),
        Command::LD_Hld => (1, 8),
        Command::LD_8Bit_Reg => (2, 8),
        Command::LD_Reg_Mem => (1, 8),
        Command::LD_Reg_Addr_16Bit => (3, 16),
        Command::LD_Addr_16bit_Reg => (3, 16),
        Command::LD_Reg_Addr_8bit => (2, 12),
        Command::LD_Addr_8bit_Reg => (2, 12),
        Command::ADD_Reg => (1, 4),
        Command::ADC_Reg => (1, 4),
        Command::SUB_Reg => (1, 4),
        Command::SBC_Reg => (1, 4),
        Command::CP_Reg => (1, 4),
        Command::CP_Mem => (1, 8),
        Command::CP_8Bit => (2, 8),
        Command::RET => (0, 16),
        Command::RET_Eq_Zero => if taken {
            (0, 20)
        } else {
            (1, 8)
        },
        Command::RET_Eq_Carry => if taken {
            (0, 20)
        } else {
            (1, 8)
        },
        Command::RET_Not_Eq_Zero => if taken {
            (0, 20)
        } else {
            (1, 8)
        },
        Command::RET_Not_Eq_Carry => if taken {
            (0, 20)
        } else {
            (1, 8)
        },
        Command::RETI => (0, 16),
        Command::POP => (1, 12),
        Command::PUSH => (1, 16),
        Command::INC_Mem_Reg => (1, 12),
        Command::LD_A_C => (1, 8),
        Command::LD_C_A => (1, 8),
        Command::JP => (0, 16),
        Command::JP_Mem => (0, 4),
        Command::JP_Eq_Zero => if taken {
            (0, 16)
        } else {
            (3, 12)
        },
        Command::JP_Eq_Carry => if taken {
            (0, 16)
        } else {
            (3, 12)
        },
        Command::JP_Not_Eq_Zero => if taken {
            (0, 16)
        } else {
            (3, 12)
        },
        Command::JP_Not_Eq_Carry => if taken {
            (0, 16)
        } else {
            (3, 12)
        },
        Command::CALL => (0, 24),
        Command::CALL_Eq_Zero => if taken {
            (0, 24)
        } else {
            (3, 12)
        },
        Command::CALL_Eq_Carry => if taken {
            (0, 24)
        } else {
            (3, 12)
        },
        Command::CALL_Not_Eq_Zero => if taken {
            (0, 24)
        } else {
            (3, 12)
        },
        Command::CALL_Not_Eq_Carry => if taken {
            (0, 24)
        } else {
            (3, 12)
        },
        Command::ADD_Mem => (1, 8),
        Command::ADD_8Bit => (2, 8),
        Command::ADD_SP_Signed => (2, 16),
        Command::SUB_Mem => (1, 8),
        Command::SUB_8Bit => (2, 8),
        Command::SBC_Mem => (1, 8),
        Command::SBC_8Bit => (2, 8),
        Command::ADC_Mem => (1, 8),
        Command::ADC_8Bit => (2, 8),
        Command::DAA => (1, 4),
        Command::SCF => (1, 4),
        Command::RRCA => (1, 4),
        Command::RRA => (1, 4),
        Command::CPL => (1, 4),
        Command::DEC_Mem_Reg => (1, 12),
        Command::CCF => (1, 4),
        Command::LD_Sp_To_Mem => (3, 20),
        Command::LD_Mem_Hld => (1, 8),
        Command::LD_Mem_Hli => (1, 8),
        Command::Bitwise_Reg => (1, 4),
        Command::Bitwise_Mem => (1, 8),
        Command::Bitwise_8Bit => (2, 8),
        Command::RST => (0, 16),
        Command::CB => (1, 4),
        Command::RLC_Reg => (2, 8),
        Command::RLC_Mem => (2, 16),
        Command::RRC_Reg => (2, 8),
        Command::RRC_Mem => (2, 16),
        Command::RL_Reg => (2, 8),
        Command::RL_Mem => (2, 16),
        Command::RR_Reg => (2, 8),
        Command::RR_Mem => (2, 16),
        Command::SLA_Reg => (2, 8),
        Command::SLA_Mem => (2, 16),
        Command::SRA_Reg => (2, 8),
        Command::SRA_Mem => (2, 16),
        Command::Swap_Reg => (2, 8),
        Command::Swap_Mem => (2, 16),
        Command::SRL_Reg => (2, 8),
        Command::SRL_Mem => (2, 16),
        Command::BIT_Reg => (2, 8),
        Command::BIT_Mem => (2, 12),
        Command::RES_Reg => (2, 8),
        Command::RES_Mem => (2, 16),
        Command::SET_Reg => (2, 8),
        Command::SET_Mem => (2, 16),
        Command::Unmapped => (1, 4),
    }
}

/// Whether the condition of a conditional branch holds on the flags `f`.
pub open spec fn branch_taken(command: Command, f: u8) -> bool {
    match command {
        Command::JR_Eq_Zero => zero_flag(f),
        Command::JR_Eq_Carry => carry_flag(f),
        Command::JR_Not_Eq_Zero => !zero_flag(f),
        Command::JR_Not_Eq_Carry => !carry_flag(f),
        Command::JP_Eq_Zero => zero_flag(f),
        Command::JP_Eq_Carry => carry_flag(f),
        Command::JP_Not_Eq_Zero => !zero_flag(f),
        Command::JP_Not_Eq_Carry => !carry_flag(f),
        Command::CALL_Eq_Zero => zero_flag(f),
        Command::CALL_Eq_Carry => carry_flag(f),
        Command::CALL_Not_Eq_Zero => !zero_flag(f),
        Command::CALL_Not_Eq_Carry => !carry_flag(f),
        Command::RET_Eq_Zero => zero_flag(f),
        Command::RET_Eq_Carry => carry_flag(f),
        Command::RET_Not_Eq_Zero => !zero_flag(f),
        Command::RET_Not_Eq_Carry => !carry_flag(f),
        _ => false,
    }
}

/// Whether a command writes PC itself.
pub open spec fn writes_pc(command: Command) -> bool {
    match command {
        Command::JR_8Bit => true,
        Command::JR_Eq_Carry => true,
        Command::JR_Eq_Zero => true,
        Command::JR_Not_Eq_Carry => true,
        Command::JR_Not_Eq_Zero => true,
        Command::RET => true,
        Command::RET_Eq_Zero => true,
        Command::RET_Eq_Carry => true,
        Command::RET_Not_Eq_Zero => true,
        Command::RET_Not_Eq_Carry => true,
        Command::RETI => true,
        Command::JP => true,
        Command::JP_Mem => true,
        Command::JP_Eq_Zero => true,
        Command::JP_Eq_Carry => true,
        Command::JP_Not_Eq_Zero => true,
        Command::JP_Not_Eq_Carry => true,
        Command::CALL => true,
        Command::CALL_Eq_Zero => true,
        Command::CALL_Eq_Carry => true,
        Command::CALL_Not_Eq_Zero => true,
        Command::CALL_Not_Eq_Carry => true,
        Command::RST => true,
        _ => false,
    }
}

/// The instruction table by primary opcode: (bytes, T-cycles, T-cycles when a
/// conditional branch is taken). Undefined opcodes, and DI / EI, whose effect on
/// interrupts is not modelled, are listed as one-byte, four-cycle no-ops.
pub open spec fn opcode_table(opcode: u8) -> (u8, u8, u8) {
    match opcode {
        0x00 => (1, 4, 4),
        0x01 => (3, 12, 12),
        0x02 => (1, 8, 8),
        0x03 => (1, 8, 8),
        0x04 => (1, 4, 4),
        0x05 => (1, 4, 4),
        0x06 => (2, 8, 8),
        0x07 => (1, 4, 4),
        0x08 => (3, 20, 20),
        0x09 => (1, 8, 8),
        0x0A => (1, 8, 8),
        0x0B => (1, 8, 8),
        0x0C => (1, 4, 4),
        0x0D => (1, 4, 4),
        0x0E => (2, 8, 8),
        0x0F => (1, 4, 4),
        0x10 => (2, 4, 4),
        0x11 => (3, 12, 12),
        0x12 => (1, 8, 8),
        0x13 => (1, 8, 8),
        0x14 => (1, 4, 4),
        0x15 => (1, 4, 4),
        0x16 => (2, 8, 8),
        0x17 => (1, 4, 4),
        0x18 => (2, 12, 12),
        0x19 => (1, 8, 8),
        0x1A => (1, 8, 8),
        0x1B => (1, 8, 8),
        0x1C => (1, 4, 4),
        0x1D => (1, 4, 4),
        0x1E => (2, 8, 8),
        0x1F => (1, 4, 4),
        0x20 => (2, 8, 12),
        0x21 => (3, 12, 12),
        0x22 => (1, 8, 8),
        0x23 => (1, 8, 8),
        0x24 => (1, 4, 4),
        0x25 => (1, 4, 4),
        0x26 => (2, 8, 8),
        0x27 => (1, 4, 4),
        0x28 => (2, 8, 12),
        0x29 => (1, 8, 8),
        0x2A => (1, 8, 8),
        0x2B => (1, 8, 8),
        0x2C => (1, 4, 4),
        0x2D => (1, 4, 4),
        0x2E => (2, 8, 8),
        0x2F => (1, 4, 4),
        0x30 => (2, 8, 12),
        0x31 => (3, 12, 12),
        0x32 => (1, 8, 8),
        0x33 => (1, 8, 8),
        0x34 => (1, 12, 12),
        0x35 => (1, 12, 12),
        0x36 => (2, 12, 12),
        0x37 => (1, 4, 4),
        0x38 => (2, 8, 12),
        0x39 => (1, 8, 8),
        0x3A => (1, 8, 8),
        0x3B => (1, 8, 8),
        0x3C => (1, 4, 4),
        0x3D => (1, 4, 4),
        0x3E => (2, 8, 8),
        0x3F => (1, 4, 4),
        0x40 => (1, 4, 4),
        0x41 => (1, 4, 4),
        0x42 => (1, 4, 4),
        0x43 => (1, 4, 4),
        0x44 => (1, 4, 4),
        0x45 => (1, 4, 4),
        0x46 => (1, 8, 8),
        0x47 => (1, 4, 4),
        0x48 => (1, 4, 4),
        0x49 => (1, 4, 4),
        0x4A => (1, 4, 4),
        0x4B => (1, 4, 4),
        0x4C => (1, 4, 4),
        0x4D => (1, 4, 4),
        0x4E => (1, 8, 8),
        0x4F => (1, 4, 4),
        0x50 => (1, 4, 4),
        0x51 => (1, 4, 4),
        0x52 => (1, 4, 4),
        0x53 => (1, 4, 4),
        0x54 => (1, 4, 4),
        0x55 => (1, 4, 4),
        0x56 => (1, 8, 8),
        0x57 => (1, 4, 4),
        0x58 => (1, 4, 4),
        0x59 => (1, 4, 4),
        0x5A => (1, 4, 4),
        0x5B => (1, 4, 4),
        0x5C => (1, 4, 4),
        0x5D => (1, 4, 4),
        0x5E => (1, 8, 8),
        0x5F => (1, 4, 4),
        0x60 => (1, 4, 4),
        0x61 => (1, 4, 4),
        0x62 => (1, 4, 4),
        0x63 => (1, 4, 4),
        0x64 => (1, 4, 4),
        0x65 => (1, 4, 4),
        0x66 => (1, 8, 8),
        0x67 => (1, 4, 4),
        0x68 => (1, 4, 4),
        0x69 => (1, 4, 4),
        0x6A => (1, 4, 4),
        0x6B => (1, 4, 4),
        0x6C => (1, 4, 4),
        0x6D => (1, 4, 4),
        0x6E => (1, 8, 8),
        0x6F => (1, 4, 4),
        0x70 => (1, 8, 8),
        0x71 => (1, 8, 8),
        0x72 => (1, 8, 8),
        0x73 => (1, 8, 8),
        0x74 => (1, 8, 8),
        0x75 => (1, 8, 8),
        0x76 => (1, 4, 4),
        0x77 => (1, 8, 8),
        0x78 => (1, 4, 4),
        0x79 => (1, 4, 4),
        0x7A => (1, 4, 4),
        0x7B => (1, 4, 4),
        0x7C => (1, 4, 4),
        0x7D => (1, 4, 4),
        0x7E => (1, 8, 8),
        0x7F => (1, 4, 4),
        0x80 => (1, 4, 4),
        0x81 => (1, 4, 4),
        0x82 => (1, 4, 4),
        0x83 => (1, 4, 4),
        0x84 => (1, 4, 4),
        0x85 => (1, 4, 4),
        0x86 => (1, 8, 8),
        0x87 => (1, 4, 4),
        0x88 => (1, 4, 4),
        0x89 => (1, 4, 4),
        0x8A => (1, 4, 4),
        0x8B => (1, 4, 4),
        0x8C => (1, 4, 4),
        0x8D => (1, 4, 4),
        0x8E => (1, 8, 8),
        0x8F => (1, 4, 4),
        0x90 => (1, 4, 4),
        0x91 => (1, 4, 4),
        0x92 => (1, 4, 4),
        0x93 => (1, 4, 4),
        0x94 => (1, 4, 4),
        0x95 => (1, 4, 4),
        0x96 => (1, 8, 8),
        0x97 => (1, 4, 4),
        0x98 => (1, 4, 4),
        0x99 => (1, 4, 4),
        0x9A => (1, 4, 4),
        0x9B => (1, 4, 4),
        0x9C => (1, 4, 4),
        0x9D => (1, 4, 4),
        0x9E => (1, 8, 8),
        0x9F => (1, 4, 4),
        0xA0 => (1, 4, 4),
        0xA1 => (1, 4, 4),
        0xA2 => (1, 4, 4),
        0xA3 => (1, 4, 4),
        0xA4 => (1, 4, 4),
        0xA5 => (1, 4, 4),
        0xA6 => (1, 8, 8),
        0xA7 => (1, 4, 4),
        0xA8 => (1, 4, 4),
        0xA9 => (1, 4, 4),
        0xAA => (1, 4, 4),
        0xAB => (1, 4, 4),
        0xAC => (1, 4, 4),
        0xAD => (1, 4, 4),
        0xAE => (1, 8, 8),
        0xAF => (1, 4, 4),
        0xB0 => (1, 4, 4),
        0xB1 => (1, 4, 4),
        0xB2 => (1, 4, 4),
        0xB3 => (1, 4, 4),
        0xB4 => (1, 4, 4),
        0xB5 => (1, 4, 4),
        0xB6 => (1, 8, 8),
        0xB7 => (1, 4, 4),
        0xB8 => (1, 4, 4),
        0xB9 => (1, 4, 4),
        0xBA => (1, 4, 4),
        0xBB => (1, 4, 4),
        0xBC => (1, 4, 4),
        0xBD => (1, 4, 4),
        0xBE => (1, 8, 8),
        0xBF => (1, 4, 4),
        0xC0 => (1, 8, 20),
        0xC1 => (1, 12, 12),
        0xC2 => (3, 12, 16),
        0xC3 => (3, 16, 16),
        0xC4 => (3, 12, 24),
        0xC5 => (1, 16, 16),
        0xC6 => (2, 8, 8),
        0xC7 => (1, 16, 16),
        0xC8 => (1, 8, 20),
        0xC9 => (1, 16, 16),
        0xCA => (3, 12, 16),
        0xCC => (3, 12, 24),
        0xCD => (3, 24, 24),
        0xCE => (2, 8, 8),
        0xCF => (1, 16, 16),
        0xD0 => (1, 8, 20),
        0xD1 => (1, 12, 12),
        0xD2 => (3, 12, 16),
        0xD3 => (1, 4, 4),
        0xD4 => (3, 12, 24),
        0xD5 => (1, 16, 16),
        0xD6 => (2, 8, 8),
        0xD7 => (1, 16, 16),
        0xD8 => (1, 8, 20),
        0xD9 => (1, 16, 16),
        0xDA => (3, 12, 16),
        0xDB => (1, 4, 4),
        0xDC => (3, 12, 24),
        0xDD => (1, 4, 4),
        0xDE => (2, 8, 8),
        0xDF => (1, 16, 16),
        0xE0 => (2, 12, 12),
        0xE1 => (1, 12, 12),
        0xE2 => (1, 8, 8),
        0xE3 => (1, 4, 4),
        0xE4 => (1, 4, 4),
        0xE5 => (1, 16, 16),
        0xE6 => (2, 8, 8),
        0xE7 => (1, 16, 16),
        0xE8 => (2, 16, 16),
        0xE9 => (1, 4, 4),
        0xEA => (3, 16, 16),
        0xEB => (1, 4, 4),
        0xEC => (1, 4, 4),
        0xED => (1, 4, 4),
        0xEE => (2, 8, 8),
        0xEF => (1, 16, 16),
        0xF0 => (2, 12, 12),
        0xF1 => (1, 12, 12),
        0xF2 => (1, 8, 8),
        0xF3 => (1, 4, 4),
        0xF4 => (1, 4, 4),
        0xF5 => (1, 16, 16),
        0xF6 => (2, 8, 8),
        0xF7 => (1, 16, 16),
        0xF8 => (2, 12, 12),
        0xF9 => (1, 8, 8),
        0xFA => (3, 16, 16),
        0xFB => (1, 4, 4),
        0xFC => (1, 4, 4),
        0xFD => (1, 4, 4),
        0xFE => (2, 8, 8),
        0xFF => (1, 16, 16),
        _ => (1, 4, 4),
    }
}

/// T-cycles of the opcodes that follow the 0xCB prefix; all are two bytes long.
pub open spec fn cb_opcode_cycles(opcode: u8) -> u8 {
    let row = opcode / 16;
    if opcode % 8 == 6 {
        if 4 <= row && row <= 7 {
            12
        } else {
            16
        }
    } else {
        8
    }
}

/// The (length, cycles) that `execute` reports for a primary opcode match the
/// instruction table. An instruction that writes PC itself reports length 0
/// when it jumps (always, for an unconditional one); a conditional branch that
/// is not taken reports the table's length and not-taken cycles.
pub proof fn lemma_timing_matches_table(opcode: u8, taken: bool)
    requires
        opcode != 0xCB,
    ensures
        ({
            let command = primary_command(opcode);
            let (length, cycles, taken_cycles) = opcode_table(opcode);
            timing(command, taken) == if writes_pc(command) && (taken || taken_cycles == cycles) {
                (0u8, if taken { taken_cycles } else { cycles })
            } else {
                (length, cycles)
            }
        }),
{
}

/// The (length, cycles) that `execute` reports for a CB-prefixed opcode match
/// the instruction table.
pub proof fn lemma_cb_timing_matches_table(opcode: u8, taken: bool)
    ensures
        timing(cb_command(opcode), taken) == (2u8, cb_opcode_cycles(opcode)),
{
}

/// The 8-bit immediate operand of the instruction at PC.
pub open spec fn imm8(r: CpuRegisters, m: MemoryView) -> u8 {
    m.read(wrap16(r.pc + 1))
}

/// The 16-bit immediate operand of the instruction at PC.
pub open spec fn imm16(r: CpuRegisters, m: MemoryView) -> u16 {
    m.read16(wrap16(r.pc + 1))
}

/// Registers and memory after a return: PC popped off the stack.
pub open spec fn returned(r: CpuRegisters, m: MemoryView) -> (CpuRegisters, MemoryView) {
    (
        r.with_reg16(Register16Bit::PC, m.read16(r.sp)).with_reg16(
            Register16Bit::SP,
            wrap16(r.sp + 2),
        ),
        m,
    )
}

/// Registers and memory after a call of `target` that returns to `ret`.
pub open spec fn called(r: CpuRegisters, m: MemoryView, target: u16, ret: u16) -> (
    CpuRegisters,
    MemoryView,
) {
    (
        r.with_reg16(Register16Bit::SP, wrap16(r.sp - 2)).with_reg16(Register16Bit::PC, target),
        pushed(m, r.sp, ret),
    )
}

/// Registers and memory after a CB rotate or shift whose result on `v` is
/// `res` and whose carry out is `c`, applied to the operand of `opcode`.
pub open spec fn shifted(
    opcode: u8,
    r: CpuRegisters,
    m: MemoryView,
    on_memory: bool,
    v: u8,
    res: u8,
    c: bool,
) -> (CpuRegisters, MemoryView) {
    if on_memory {
        (r.with_f(shift_flags(res, c)), m.written(hl(r), res))
    } else {
        (r.with_f(shift_flags(res, c)).with_reg8(register_code(opcode & 7u8), res), m)
    }
}

/// The registers and the memory after `command`, decoded from `opcode`, runs
/// on `r` and `m`; `(r, m)` for a command that changes neither, or for a
/// conditional branch that is not taken.
#[verifier::opaque]
pub open spec fn effect(command: Command, opcode: u8, r: CpuRegisters, m: MemoryView) -> (
    CpuRegisters,
    MemoryView,
) {
    let g = command_group(command);
    if g == 1 {
        effect_load(command, opcode, r, m)
    } else if g == 2 {
        effect_alu(command, opcode, r, m)
    } else if g == 3 {
        effect_cb(command, opcode, r, m)
    } else if g == 4 {
        effect_flow(command, opcode, r, m)
    } else {
        effect_misc(command, opcode, r, m)
    }
}

/// `effect` on the no-ops, accumulator rotates, flag operations and the stack.
pub open spec fn effect_misc(command: Command, opcode: u8, r: CpuRegisters, m: MemoryView) -> (
    CpuRegisters,
    MemoryView,
) {
    let c = carry_flag(r.f);
    match command {
        Command::RLCA => (r.with_af(rlc_value(r.a), rotate_a_flags(r.a >= 128)), m),
        Command::RLA => (r.with_af(rl_value(r.a, c), rotate_a_flags(r.a >= 128)), m),
        Command::RRCA => (r.with_af(rrc_value(r.a), rotate_a_flags(r.a % 2 == 1)), m),
        Command::RRA => (r.with_af(rr_value(r.a, c), rotate_a_flags(r.a % 2 == 1)), m),
        Command::DAA => (r.with_af(daa_value(r.a, r.f), daa_flags(r.a, r.f)), m),
        Command::CPL => (r.with_af(r.a ^ 0xFF, flags_byte(zero_flag(r.f), true, true, c)), m),
        Command::SCF => (r.with_f(flags_byte(zero_flag(r.f), false, false, true)), m),
        Command::CCF => (r.with_f(flags_byte(zero_flag(r.f), false, false, !c)), m),
        Command::POP => {
            let p = left_pair_operand(opcode);
            let v = m.read16(r.sp);
            (
                r.with_reg16(Register16Bit::SP, wrap16(r.sp + 2)).with_reg16(
                    p,
                    if p == Register16Bit::AF {
                        v & 0xFFF0
                    } else {
                        v
                    },
                ),
                m,
            )
        },
        Command::PUSH => (
            r.with_reg16(Register16Bit::SP, wrap16(r.sp - 2)),
            pushed(m, r.sp, r.reg16(left_pair_operand(opcode))),
        ),
        _ => (r, m),
    }
}

/// `effect` on the loads.
pub open spec fn effect_load(command: Command, opcode: u8, r: CpuRegisters, m: MemoryView) -> (
    CpuRegisters,
    MemoryView,
) {
    let d8 = imm8(r, m);
    let d16 = imm16(r, m);
    let at_hl = m.read(hl(r));
    let dst = left_operand(opcode);
    let src = right_operand(opcode);
    let row = row_pair((opcode >> 4u8) & 3u8);
    let c = carry_flag(r.f);
    match command {
        Command::LD_Sp_To_Mem => (
            r,
            m.written(d16, low_byte(r.sp)).written(wrap16(d16 + 1), high_byte(r.sp)),
        ),
        Command::LD_16Bit => (r.with_reg16(row, d16), m),
        Command::LD_Mem_Reg_A => (r, m.written(r.reg16(left_pair_operand(opcode)), r.a)),
        Command::LD_A_Mem_Reg => (
            r.with_reg8(Register8Bit::A, m.read(r.reg16(right_pair_operand(opcode)))),
            m,
        ),
        Command::LD_Mem_Hli => (
            r.with_reg16(Register16Bit::HL, wrap16(hl(r) + 1)),
            m.written(hl(r), r.a),
        ),
        Command::LD_Mem_Hld => (
            r.with_reg16(Register16Bit::HL, wrap16(hl(r) - 1)),
            m.written(hl(r), r.a),
        ),
        Command::LD_Hli => (
            r.with_reg8(Register8Bit::A, at_hl).with_reg16(Register16Bit::HL, wrap16(hl(r) + 1)),
            m,
        ),
        Command::LD_Hld => (
            r.with_reg8(Register8Bit::A, at_hl).with_reg16(Register16Bit::HL, wrap16(hl(r) - 1)),
            m,
        ),
        Command::LD_8Bit_Reg => (r.with_reg8(dst, d8), m),
        Command::LD_8Bit_Mem => (r, m.written(hl(r), d8)),
        Command::LD_Reg_Reg => (r.with_reg8(dst, r.reg8(src)), m),
        Command::LD_Reg_Mem => (r.with_reg8(dst, at_hl), m),
        Command::LD_Mem_Reg => (r, m.written(hl(r), r.reg8(src))),
        Command::LD_Reg_Addr_8bit => (r, m.written((0xFF00 + d8) as u16, r.a)),
        Command::LD_Addr_8bit_Reg => (r.with_reg8(Register8Bit::A, m.read((0xFF00 + d8) as u16)), m),
        Command::LD_Reg_Addr_16Bit => (r, m.written(d16, r.a)),
        Command::LD_Addr_16bit_Reg => (r.with_reg8(Register8Bit::A, m.read(d16)), m),
        Command::LD_SP_Signed_HL => (
            r.with_f(sp_offset_flags(r.sp, d8 as i8)).with_reg16(
                Register16Bit::HL,
                sp_offset_value(r.sp, d8 as i8),
            ),
            m,
        ),
        Command::LD_HL_SP => (r.with_reg16(Register16Bit::SP, hl(r)), m),
        Command::LD_A_C => (r, m.written((0xFF00 + r.c) as u16, r.a)),
        Command::LD_C_A => (r.with_reg8(Register8Bit::A, m.read((0xFF00 + r.c) as u16)), m),
        _ => (r, m),
    }
}

/// `effect` on the 8-bit and 16-bit arithmetic and logic.
pub open spec fn effect_alu(command: Command, opcode: u8, r: CpuRegisters, m: MemoryView) -> (
    CpuRegisters,
    MemoryView,
) {
    let d8 = imm8(r, m);
    let at_hl = m.read(hl(r));
    let dst = left_operand(opcode);
    let row = row_pair((opcode >> 4u8) & 3u8);
    let c = carry_flag(r.f);
    match command {
        Command::INC_16Bit => (r.with_reg16(row, ((r.reg16(row) + 1) % 65536) as u16), m),
        Command::DEC_16Bit => (r.with_reg16(row, ((r.reg16(row) + 65535) % 65536) as u16), m),
        Command::INC_8Bit => (
            r.with_f(inc_flags(r.reg8(dst), r.f)).with_reg8(dst, inc_value(r.reg8(dst))),
            m,
        ),
        Command::DEC_8bit => (
            r.with_f(dec_flags(r.reg8(dst), r.f)).with_reg8(dst, dec_value(r.reg8(dst))),
            m,
        ),
        Command::INC_Mem_Reg => (r.with_f(inc_flags(at_hl, r.f)), m.written(hl(r), inc_value(at_hl))),
        Command::DEC_Mem_Reg => (r.with_f(dec_flags(at_hl, r.f)), m.written(hl(r), dec_value(at_hl))),
        Command::ADD_16Bit => {
            let v = r.reg16(right_pair_operand(opcode));
            (r.with_f(add16_flags(hl(r), v, r.f)).with_reg16(Register16Bit::HL, add16_value(hl(r), v)), m)
        },
        Command::ADD_Reg => (r.with_af(add_value(r.a, r.reg8(dst), false), add_flags(r.a, r.reg8(dst), false)), m),
        Command::ADD_Mem => (r.with_af(add_value(r.a, at_hl, false), add_flags(r.a, at_hl, false)), m),
        Command::ADD_8Bit => (r.with_af(add_value(r.a, d8, false), add_flags(r.a, d8, false)), m),
        Command::ADC_Reg => (r.with_af(add_value(r.a, r.reg8(dst), c), add_flags(r.a, r.reg8(dst), c)), m),
        Command::ADC_Mem => (r.with_af(add_value(r.a, at_hl, c), add_flags(r.a, at_hl, c)), m),
        Command::ADC_8Bit => (r.with_af(add_value(r.a, d8, c), add_flags(r.a, d8, c)), m),
        Command::SUB_Reg => (r.with_af(sub_value(r.a, r.reg8(dst), false), sub_flags(r.a, r.reg8(dst), false)), m),
        Command::SUB_Mem => (r.with_af(sub_value(r.a, at_hl, false), sub_flags(r.a, at_hl, false)), m),
        Command::SUB_8Bit => (r.with_af(sub_value(r.a, d8, false), sub_flags(r.a, d8, false)), m),
        Command::SBC_Reg => (r.with_af(sub_value(r.a, r.reg8(dst), c), sub_flags(r.a, r.reg8(dst), c)), m),
        Command::SBC_Mem => (r.with_af(sub_value(r.a, at_hl, c), sub_flags(r.a, at_hl, c)), m),
        Command::SBC_8Bit => (r.with_af(sub_value(r.a, d8, c), sub_flags(r.a, d8, c)), m),
        Command::CP_Reg => (r.with_f(sub_flags(r.a, r.reg8(dst), false)), m),
        Command::CP_Mem => (r.with_f(sub_flags(r.a, at_hl, false)), m),
        Command::CP_8Bit => (r.with_f(sub_flags(r.a, d8, false)), m),
        Command::Bitwise_Reg => {
            let op = operator_of(opcode);
            (r.with_af(logic_value(r.a, r.reg8(dst), op), logic_flags(r.a, r.reg8(dst), op)), m)
        },
        Command::Bitwise_Mem => {
            let op = operator_of(opcode);
            (r.with_af(logic_value(r.a, at_hl, op), logic_flags(r.a, at_hl, op)), m)
        },
        Command::Bitwise_8Bit => {
            let op = operator_of(opcode);
            (r.with_af(logic_value(r.a, d8, op), logic_flags(r.a, d8, op)), m)
        },
        Command::ADD_SP_Signed => (
            r.with_f(sp_offset_flags(r.sp, d8 as i8)).with_reg16(
                Register16Bit::SP,
                sp_offset_value(r.sp, d8 as i8),
            ),
            m,
        ),
        _ => (r, m),
    }
}

/// `effect` on the CB-prefixed rotates, shifts and bit operations.
pub open spec fn effect_cb(command: Command, opcode: u8, r: CpuRegisters, m: MemoryView) -> (
    CpuRegisters,
    MemoryView,
) {
    let at_hl = m.read(hl(r));
    let cb = register_code(opcode & 7u8);
    let cbv = r.reg8(cb);
    let bit = (opcode >> 3u8) & 7u8;
    let c = carry_flag(r.f);
    match command {
        Command::RLC_Reg => shifted(opcode, r, m, false, cbv, rlc_value(cbv), cbv >= 128),
        Command::RLC_Mem => shifted(opcode, r, m, true, at_hl, rlc_value(at_hl), at_hl >= 128),
        Command::RRC_Reg => shifted(opcode, r, m, false, cbv, rrc_value(cbv), cbv % 2 == 1),
        Command::RRC_Mem => shifted(opcode, r, m, true, at_hl, rrc_value(at_hl), at_hl % 2 == 1),
        Command::RL_Reg => shifted(opcode, r, m, false, cbv, rl_value(cbv, c), cbv >= 128),
        Command::RL_Mem => shifted(opcode, r, m, true, at_hl, rl_value(at_hl, c), at_hl >= 128),
        Command::RR_Reg => shifted(opcode, r, m, false, cbv, rr_value(cbv, c), cbv % 2 == 1),
        Command::RR_Mem => shifted(opcode, r, m, true, at_hl, rr_value(at_hl, c), at_hl % 2 == 1),
        Command::SLA_Reg => shifted(opcode, r, m, false, cbv, sla_value(cbv), cbv >= 128),
        Command::SLA_Mem => shifted(opcode, r, m, true, at_hl, sla_value(at_hl), at_hl >= 128),
        Command::SRA_Reg => shifted(opcode, r, m, false, cbv, sra_value(cbv), cbv % 2 == 1),
        Command::SRA_Mem => shifted(opcode, r, m, true, at_hl, sra_value(at_hl), at_hl % 2 == 1),
        Command::SRL_Reg => shifted(opcode, r, m, false, cbv, srl_value(cbv), cbv % 2 == 1),
        Command::SRL_Mem => shifted(opcode, r, m, true, at_hl, srl_value(at_hl), at_hl % 2 == 1),
        Command::Swap_Reg => shifted(opcode, r, m, false, cbv, swap_value(cbv), false),
        Command::Swap_Mem => shifted(opcode, r, m, true, at_hl, swap_value(at_hl), false),
        Command::BIT_Reg => (r.with_f(bit_flags(cbv, bit, r.f)), m),
        Command::BIT_Mem => (r.with_f(bit_flags(at_hl, bit, r.f)), m),
        Command::SET_Reg => (r.with_reg8(cb, cbv | (1u8 << bit)), m),
        Command::SET_Mem => (r, m.written(hl(r), at_hl | (1u8 << bit))),
        Command::RES_Reg => (r.with_reg8(cb, cbv & !(1u8 << bit)), m),
        Command::RES_Mem => (r, m.written(hl(r), at_hl & !(1u8 << bit))),
        _ => (r, m),
    }
}

/// `effect` on the jumps, calls, returns and restarts.
pub open spec fn effect_flow(command: Command, opcode: u8, r: CpuRegisters, m: MemoryView) -> (
    CpuRegisters,
    MemoryView,
) {
    let d8 = imm8(r, m);
    let d16 = imm16(r, m);
    let taken = branch_taken(command, r.f);
    match command {
        Command::JR_8Bit => (r.with_reg16(Register16Bit::PC, wrap16(r.pc + 2 + (d8 as i8))), m),
        Command::JR_Eq_Zero | Command::JR_Eq_Carry | Command::JR_Not_Eq_Zero
        | Command::JR_Not_Eq_Carry => if taken {
            (r.with_reg16(Register16Bit::PC, wrap16(r.pc + 2 + (d8 as i8))), m)
        } else {
            (r, m)
        },
        Command::RET | Command::RETI => returned(r, m),
        Command::RET_Eq_Zero | Command::RET_Eq_Carry | Command::RET_Not_Eq_Zero
        | Command::RET_Not_Eq_Carry => if taken {
            returned(r, m)
        } else {
            (r, m)
        },
        Command::JP => (r.with_reg16(Register16Bit::PC, d16), m),
        Command::JP_Mem => (r.with_reg16(Register16Bit::PC, hl(r)), m),
        Command::JP_Eq_Zero | Command::JP_Eq_Carry | Command::JP_Not_Eq_Zero
        | Command::JP_Not_Eq_Carry => if taken {
            (r.with_reg16(Register16Bit::PC, d16), m)
        } else {
            (r, m)
        },
        Command::CALL => called(r, m, d16, wrap16(r.pc + 3)),
        Command::CALL_Eq_Zero | Command::CALL_Eq_Carry | Command::CALL_Not_Eq_Zero
        | Command::CALL_Not_Eq_Carry => if taken {
            called(r, m, d16, wrap16(r.pc + 3))
        } else {
            (r, m)
        },
        Command::RST => called(r, m, (opcode & 0x38u8) as u16, wrap16(r.pc + 1)),
        _ => (r, m),
    }
}

/// The group of `command`: 0 no-ops, flags and the stack, 1 loads, 2 arithmetic
/// and logic, 3 CB operations, 4 branches.
pub open spec fn command_group(command: Command) -> u8 {
    match command {
        Command::LD_Sp_To_Mem => 1,
        Command::LD_16Bit => 1,
        Command::LD_Mem_Reg_A => 1,
        Command::LD_A_Mem_Reg => 1,
        Command::LD_Mem_Hli => 1,
        Command::LD_Mem_Hld => 1,
        Command::LD_Hli => 1,
        Command::LD_Hld => 1,
        Command::LD_8Bit_Reg => 1,
        Command::LD_8Bit_Mem => 1,
        Command::LD_Reg_Reg => 1,
        Command::LD_Reg_Mem => 1,
        Command::LD_Mem_Reg => 1,
        Command::LD_Reg_Addr_8bit => 1,
        Command::LD_Addr_8bit_Reg => 1,
        Command::LD_Reg_Addr_16Bit => 1,
        Command::LD_Addr_16bit_Reg => 1,
        Command::LD_SP_Signed_HL => 1,
        Command::LD_HL_SP => 1,
        Command::LD_A_C => 1,
        Command::LD_C_A => 1,
        Command::INC_16Bit => 2,
        Command::DEC_16Bit => 2,
        Command::INC_8Bit => 2,
        Command::INC_Mem_Reg => 2,
        Command::DEC_8bit => 2,
        Command::DEC_Mem_Reg => 2,
        Command::ADD_16Bit => 2,
        Command::ADD_Reg => 2,
        Command::ADD_Mem => 2,
        Command::ADC_Reg => 2,
        Command::ADC_Mem => 2,
        Command::SUB_Reg => 2,
        Command::SUB_Mem => 2,
        Command::SBC_Reg => 2,
        Command::SBC_Mem => 2,
        Command::Bitwise_Reg => 2,
        Command::Bitwise_Mem => 2,
        Command::Bitwise_8Bit => 2,
        Command::CP_Reg => 2,
        Command::CP_Mem => 2,
        Command::CP_8Bit => 2,
        Command::ADD_8Bit => 2,
        Command::ADC_8Bit => 2,
        Command::SUB_8Bit => 2,
        Command::SBC_8Bit => 2,
        Command::ADD_SP_Signed => 2,
        Command::RLC_Reg => 3,
        Command::RLC_Mem => 3,
        Command::RRC_Reg => 3,
        Command::RRC_Mem => 3,
        Command::RL_Reg => 3,
        Command::RL_Mem => 3,
        Command::RR_Reg => 3,
        Command::RR_Mem => 3,
        Command::SLA_Reg => 3,
        Command::SLA_Mem => 3,
        Command::SRA_Reg => 3,
        Command::SRA_Mem => 3,
        Command::Swap_Reg => 3,
        Command::Swap_Mem => 3,
        Command::SRL_Reg => 3,
        Command::SRL_Mem => 3,
        Command::BIT_Reg => 3,
        Command::BIT_Mem => 3,
        Command::RES_Reg => 3,
        Command::RES_Mem => 3,
        Command::SET_Reg => 3,
        Command::SET_Mem => 3,
        Command::JR_8Bit => 4,
        Command::JR_Eq_Zero => 4,
        Command::JR_Eq_Carry => 4,
        Command::JR_Not_Eq_Zero => 4,
        Command::JR_Not_Eq_Carry => 4,
        Command::RET => 4,
        Command::RETI => 4,
        Command::RET_Eq_Zero => 4,
        Command::RET_Eq_Carry => 4,
        Command::RET_Not_Eq_Zero => 4,
        Command::RET_Not_Eq_Carry => 4,
        Command::JP => 4,
        Command::JP_Mem => 4,
        Command::JP_Eq_Zero => 4,
        Command::JP_Eq_Carry => 4,
        Command::JP_Not_Eq_Zero => 4,
        Command::JP_Not_Eq_Carry => 4,
        Command::CALL => 4,
        Command::CALL_Eq_Zero => 4,
        Command::CALL_Eq_Carry => 4,
        Command::CALL_Not_Eq_Zero => 4,
        Command::CALL_Not_Eq_Carry => 4,
        Command::RST => 4,
        _ => 0,
    }
}

fn group_of(command: Command) -> (r: u8)
    ensures
        r == command_group(command),
{
    match command {
        Command::LD_Sp_To_Mem => 1,
        Command::LD_16Bit => 1,
        Command::LD_Mem_Reg_A => 1,
        Command::LD_A_Mem_Reg => 1,
        Command::LD_Mem_Hli => 1,
        Command::LD_Mem_Hld => 1,
        Command::LD_Hli => 1,
        Command::LD_Hld => 1,
        Command::LD_8Bit_Reg => 1,
        Command::LD_8Bit_Mem => 1,
        Command::LD_Reg_Reg => 1,
        Command::LD_Reg_Mem => 1,
        Command::LD_Mem_Reg => 1,
        Command::LD_Reg_Addr_8bit => 1,
        Command::LD_Addr_8bit_Reg => 1,
        Command::LD_Reg_Addr_16Bit => 1,
        Command::LD_Addr_16bit_Reg => 1,
        Command::LD_SP_Signed_HL => 1,
        Command::LD_HL_SP => 1,
        Command::LD_A_C => 1,
        Command::LD_C_A => 1,
        Command::INC_16Bit => 2,
        Command::DEC_16Bit => 2,
        Command::INC_8Bit => 2,
        Command::INC_Mem_Reg => 2,
        Command::DEC_8bit => 2,
        Command::DEC_Mem_Reg => 2,
        Command::ADD_16Bit => 2,
        Command::ADD_Reg => 2,
        Command::ADD_Mem => 2,
        Command::ADC_Reg => 2,
        Command::ADC_Mem => 2,
        Command::SUB_Reg => 2,
        Command::SUB_Mem => 2,
        Command::SBC_Reg => 2,
        Command::SBC_Mem => 2,
        Command::Bitwise_Reg => 2,
        Command::Bitwise_Mem => 2,
        Command::Bitwise_8Bit => 2,
        Command::CP_Reg => 2,
        Command::CP_Mem => 2,
        Command::CP_8Bit => 2,
        Command::ADD_8Bit => 2,
        Command::ADC_8Bit => 2,
        Command::SUB_8Bit => 2,
        Command::SBC_8Bit => 2,
        Command::ADD_SP_Signed => 2,
        Command::RLC_Reg => 3,
        Command::RLC_Mem => 3,
        Command::RRC_Reg => 3,
        Command::RRC_Mem => 3,
        Command::RL_Reg => 3,
        Command::RL_Mem => 3,
        Command::RR_Reg => 3,
        Command::RR_Mem => 3,
        Command::SLA_Reg => 3,
        Command::SLA_Mem => 3,
        Command::SRA_Reg => 3,
        Command::SRA_Mem => 3,
        Command::Swap_Reg => 3,
        Command::Swap_Mem => 3,
        Command::SRL_Reg => 3,
        Command::SRL_Mem => 3,
        Command::BIT_Reg => 3,
        Command::BIT_Mem => 3,
        Command::RES_Reg => 3,
        Command::RES_Mem => 3,
        Command::SET_Reg => 3,
        Command::SET_Mem => 3,
        Command::JR_8Bit => 4,
        Command::JR_Eq_Zero => 4,
        Command::JR_Eq_Carry => 4,
        Command::JR_Not_Eq_Zero => 4,
        Command::JR_Not_Eq_Carry => 4,
        Command::RET => 4,
        Command::RETI => 4,
        Command::RET_Eq_Zero => 4,
        Command::RET_Eq_Carry => 4,
        Command::RET_Not_Eq_Zero => 4,
        Command::RET_Not_Eq_Carry => 4,
        Command::JP => 4,
        Command::JP_Mem => 4,
        Command::JP_Eq_Zero => 4,
        Command::JP_Eq_Carry => 4,
        Command::JP_Not_Eq_Zero => 4,
        Command::JP_Not_Eq_Carry => 4,
        Command::CALL => 4,
        Command::CALL_Eq_Zero => 4,
        Command::CALL_Eq_Carry => 4,
        Command::CALL_Not_Eq_Zero => 4,
        Command::CALL_Not_Eq_Carry => 4,
        Command::RST => 4,
        _ => 0,
    }
}

proof fn lemma_pop_af_clean(v: u16)
    ensures
        low_byte(v & 0xFFF0) & 0x0F == 0,
{
    assert((((v & 0xFFF0u16) & 0xffu16) as u8) & 0x0F == 0) by (bit_vector);
}

proof fn lemma_cb_bit(opcode: u8)
    ensures
        (opcode >> 3u8) & 7u8 < 8,
{
    assert((opcode >> 3u8) & 7u8 < 8) by (bit_vector);
}

impl Instruction {
    /// Executes `command`, decoded from `opcode` (for a CB command, the byte
    /// after the prefix), reading its immediate operands at PC+1 and PC+2.
    pub fn execute(
        &mut self,
        registers: &mut CpuRegisters,
        memory: &mut Memory,
        opcode: u8,
        command: Command,
    )
        requires
            old(memory).wf(),
        ensures
            final(memory).wf(),
            final(self).flag == old(self).flag,
            (final(self).length, final(self).cycle) == timing(
                command,
                branch_taken(command, old(registers).f),
            ),
            !writes_pc(command) ==> final(registers).pc == old(registers).pc,
            old(registers).flags_clean() ==> final(registers).flags_clean(),
            (*final(registers), final(memory)@) == effect(
                command,
                opcode,
                *old(registers),
                old(memory)@,
            ),
    {
        proof {
            reveal(effect);
        }
        let group = group_of(command);
        if group == 1 {
            self.execute_load(registers, memory, opcode, command);
        } else if group == 2 {
            self.execute_alu(registers, memory, opcode, command);
        } else if group == 3 {
            self.execute_cb(registers, memory, opcode, command);
        } else if group == 4 {
            self.execute_flow(registers, memory, opcode, command);
        } else {
            self.execute_misc(registers, memory, opcode, command);
        }
    }

    /// Executes one of the no-ops, accumulator rotates, flag operations and the stack.
    #[verifier::rlimit(100)]
    fn execute_misc(
        &mut self,
        registers: &mut CpuRegisters,
        memory: &mut Memory,
        opcode: u8,
        command: Command,
    )
        requires
            old(memory).wf(),
            command_group(command) == 0,
        ensures
            final(memory).wf(),
            final(self).flag == old(self).flag,
            (final(self).length, final(self).cycle) == timing(
                command,
                branch_taken(command, old(registers).f),
            ),
            !writes_pc(command) ==> final(registers).pc == old(registers).pc,
            old(registers).flags_clean() ==> final(registers).flags_clean(),
            (*final(registers), final(memory)@) == effect_misc(
                command,
                opcode,
                *old(registers),
                old(memory)@,
            ),
    {
        proof {
            lemma_flags_byte_clean();
        }
        match command {
            Command::NOP | Command::HALT | Command::CB | Command::Unmapped => self.no_op(),
            Command::Stop => self.set_timing(2, 4),
            Command::RLCA => self.rlca(registers),
            Command::RLA => self.rla(registers),
            Command::DAA => self.daa(registers),
            Command::SCF => self.scf(registers),
            Command::RRCA => self.rrca(registers),
            Command::RRA => self.rra(registers),
            Command::CPL => self.cpl(registers),
            Command::CCF => self.ccf(registers),
            Command::POP => {
                let reg = Register16Bit::get_left_instruction_argument(opcode);
                proof {
                    lemma_pop_af_clean(memory@.read16(registers.sp));
                }
                self.pop_16bit_reg(registers, memory, reg);
            },
            Command::PUSH => {
                let reg = Register16Bit::get_left_instruction_argument(opcode);
                self.push_16bit_reg(registers, memory, reg);
            },
            _ => {},
        }
    }

    /// Executes one of the loads.
    #[verifier::rlimit(100)]
    fn execute_load(
        &mut self,
        registers: &mut CpuRegisters,
        memory: &mut Memory,
        opcode: u8,
        command: Command,
    )
        requires
            old(memory).wf(),
            command_group(command) == 1,
        ensures
            final(memory).wf(),
            final(self).flag == old(self).flag,
            (final(self).length, final(self).cycle) == timing(
                command,
                branch_taken(command, old(registers).f),
            ),
            !writes_pc(command) ==> final(registers).pc == old(registers).pc,
            old(registers).flags_clean() ==> final(registers).flags_clean(),
            (*final(registers), final(memory)@) == effect_load(
                command,
                opcode,
                *old(registers),
                old(memory)@,
            ),
    {
        proof {
            lemma_flags_byte_clean();
        }
        let pc = registers.pc;
        match command {
            Command::LD_Sp_To_Mem => {
                let addr = bus_read_16bit_value(memory, pc.wrapping_add(1)).unwrap();
                self.ld_sp_to_mem(registers, memory, addr);
            },
            Command::LD_16Bit => {
                let data = bus_read_16bit_value(memory, pc.wrapping_add(1)).unwrap();
                let reg = pair_of_row((opcode >> 4u8) & 3u8);
                self.ld_reg_16bit(registers, reg, data);
            },
            Command::LD_Mem_Reg_A => {
                let reg = Register16Bit::get_left_instruction_argument(opcode);
                self.ld_reg_to_mem_reg(registers, memory, Register8Bit::A, reg);
            },
            Command::LD_A_Mem_Reg => {
                let reg = Register16Bit::get_right_instruction_argument(opcode);
                self.ld_mem_reg_to_reg(registers, memory, Register8Bit::A, reg);
            },
            Command::LD_Mem_Hli => self.ld_mem_hli(registers, memory),
            Command::LD_Mem_Hld => self.ld_mem_hld(registers, memory),
            Command::LD_Hli => self.ld_hli(registers, memory),
            Command::LD_Hld => self.ld_hld(registers, memory),
            Command::LD_8Bit_Reg => {
                let data = bus_read(memory, pc.wrapping_add(1)).unwrap();
                let reg = Register8Bit::get_left_instruction_argument(opcode);
                self.ld_reg_8bit(registers, reg, data);
            },
            Command::LD_8Bit_Mem => {
                let data = bus_read(memory, pc.wrapping_add(1)).unwrap();
                self.ld_8bit_into_mem(registers, memory, data);
            },
            Command::LD_Reg_Reg => {
                let to = Register8Bit::get_left_instruction_argument(opcode);
                let from = Register8Bit::get_right_instruction_argument(opcode);
                self.ld_reg_reg(registers, to, from);
            },
            Command::LD_Reg_Mem => {
                let to = Register8Bit::get_left_instruction_argument(opcode);
                self.ld_mem_reg_to_reg(registers, memory, to, Register16Bit::HL);
            },
            Command::LD_Mem_Reg => {
                let from = Register8Bit::get_right_instruction_argument(opcode);
                self.ld_reg_to_mem_reg(registers, memory, from, Register16Bit::HL);
            },
            Command::LD_Reg_Addr_8bit => {
                let data = bus_read(memory, pc.wrapping_add(1)).unwrap();
                self.ld_reg_8bit_to_addr_8bit(registers, memory, data);
            },
            Command::LD_Addr_8bit_Reg => {
                let data = bus_read(memory, pc.wrapping_add(1)).unwrap();
                self.ld_8bit_addr_to_reg_8bit(registers, memory, data);
            },
            Command::LD_Reg_Addr_16Bit => {
                let addr = bus_read_16bit_value(memory, pc.wrapping_add(1)).unwrap();
                self.ld_reg_to_mem(registers, memory, Register8Bit::A, addr);
            },
            Command::LD_Addr_16bit_Reg => {
                let addr = bus_read_16bit_value(memory, pc.wrapping_add(1)).unwrap();
                self.ld_mem_to_reg(registers, memory, Register8Bit::A, addr);
            },
            Command::LD_SP_Signed_HL => {
                let data = bus_read(memory, pc.wrapping_add(1)).unwrap();
                self.ld_sp_to_hl_signed(registers, data as i8);
            },
            Command::LD_HL_SP => self.ld_hl_to_sp(registers),
            Command::LD_A_C => self.ld_a_c(registers, memory),
            Command::LD_C_A => self.ld_c_a(registers, memory),
            _ => {},
        }
    }

    /// Executes one of the 8-bit and 16-bit arithmetic and logic.
    #[verifier::rlimit(100)]
    fn execute_alu(
        &mut self,
        registers: &mut CpuRegisters,
        memory: &mut Memory,
        opcode: u8,
        command: Command,
    )
        requires
            old(memory).wf(),
            command_group(command) == 2,
        ensures
            final(memory).wf(),
            final(self).flag == old(self).flag,
            (final(self).length, final(self).cycle) == timing(
                command,
                branch_taken(command, old(registers).f),
            ),
            !writes_pc(command) ==> final(registers).pc == old(registers).pc,
            old(registers).flags_clean() ==> final(registers).flags_clean(),
            (*final(registers), final(memory)@) == effect_alu(
                command,
                opcode,
                *old(registers),
                old(memory)@,
            ),
    {
        proof {
            lemma_flags_byte_clean();
        }
        let pc = registers.pc;
        match command {
            Command::INC_16Bit => {
                let reg = pair_of_row((opcode >> 4u8) & 3u8);
                self.inc_16bit(registers, reg);
            },
            Command::DEC_16Bit => {
                let reg = pair_of_row((opcode >> 4u8) & 3u8);
                self.dec_16bit(registers, reg);
            },
            Command::INC_8Bit => {
                let reg = Register8Bit::get_left_instruction_argument(opcode);
                self.inc_8bit(registers, reg);
            },
            Command::INC_Mem_Reg => self.inc_mem_reg(registers, memory),
            Command::DEC_8bit => {
                let reg = Register8Bit::get_left_instruction_argument(opcode);
                self.dec_8bit(registers, reg);
            },
            Command::DEC_Mem_Reg => self.dec_mem_reg(registers, memory),
            Command::ADD_16Bit => {
                let reg = Register16Bit::get_right_instruction_argument(opcode);
                self.add_reg_16bit_to_reg_16_bit(registers, reg);
            },
            Command::ADD_Reg => {
                let reg = Register8Bit::get_left_instruction_argument(opcode);
                self.add_reg_to_reg_8bit(registers, reg);
            },
            Command::ADD_Mem => self.add_mem_reg_to_reg_8bit(registers, memory),
            Command::ADC_Reg => {
                let reg = Register8Bit::get_left_instruction_argument(opcode);
                self.adc_reg_to_reg_8bit(registers, reg);
            },
            Command::ADC_Mem => self.adc_mem_reg_to_reg_8bit(registers, memory),
            Command::SUB_Reg => {
                let reg = Register8Bit::get_left_instruction_argument(opcode);
                self.sub_reg_to_reg_8bit(registers, reg);
            },
            Command::SUB_Mem => self.sub_mem_reg_to_reg_8bit(registers, memory),
            Command::SBC_Reg => {
                let reg = Register8Bit::get_left_instruction_argument(opcode);
                self.sbc_reg_to_reg_8bit(registers, reg);
            },
            Command::SBC_Mem => self.sbc_mem_reg_to_reg_8bit(registers, memory),
            Command::Bitwise_Reg => {
                let operator = BitwiseOperator::get_operator(opcode);
                let reg = Register8Bit::get_left_instruction_argument(opcode);
                self.bitwise_reg_8bit(registers, reg, operator);
            },
            Command::Bitwise_Mem => {
                let operator = BitwiseOperator::get_operator(opcode);
                self.bitwise_mem_reg_to_reg_8bit(registers, memory, operator);
            },
            Command::Bitwise_8Bit => {
                let data = bus_read(memory, pc.wrapping_add(1)).unwrap();
                let operator = BitwiseOperator::get_operator(opcode);
                self.bitwise_8bit_reg_8bit(registers, data, operator);
            },
            Command::CP_Reg => {
                let reg = Register8Bit::get_left_instruction_argument(opcode);
                self.cp_reg_8bit(registers, reg);
            },
            Command::CP_Mem => self.cp_mem_reg_to_reg_8bit(registers, memory),
            Command::CP_8Bit => {
                let data = bus_read(memory, pc.wrapping_add(1)).unwrap();
                self.cp_8bit_reg_8bit(registers, data);
            },
            Command::ADD_8Bit => {
                let data = bus_read(memory, pc.wrapping_add(1)).unwrap();
                self.add_8bit_to_reg_8bit(registers, data);
            },
            Command::ADC_8Bit => {
                let data = bus_read(memory, pc.wrapping_add(1)).unwrap();
                self.adc_8bit_to_reg_8bit(registers, data);
            },
            Command::SUB_8Bit => {
                let data = bus_read(memory, pc.wrapping_add(1)).unwrap();
                self.sub_8bit_to_reg_8bit(registers, data);
            },
            Command::SBC_8Bit => {
                let data = bus_read(memory, pc.wrapping_add(1)).unwrap();
                self.sbc_8bit_to_reg_8bit(registers, data);
            },
            Command::ADD_SP_Signed => {
                let data = bus_read(memory, pc.wrapping_add(1)).unwrap();
                self.add_sp_r8(registers, data as i8);
            },
            _ => {},
        }
    }

    /// Executes one of the CB-prefixed rotates, shifts and bit operations.
    #[verifier::rlimit(100)]
    fn execute_cb(
        &mut self,
        registers: &mut CpuRegisters,
        memory: &mut Memory,
        opcode: u8,
        command: Command,
    )
        requires
            old(memory).wf(),
            command_group(command) == 3,
        ensures
            final(memory).wf(),
            final(self).flag == old(self).flag,
            (final(self).length, final(self).cycle) == timing(
                command,
                branch_taken(command, old(registers).f),
            ),
            !writes_pc(command) ==> final(registers).pc == old(registers).pc,
            old(registers).flags_clean() ==> final(registers).flags_clean(),
            (*final(registers), final(memory)@) == effect_cb(
                command,
                opcode,
                *old(registers),
                old(memory)@,
            ),
    {
        proof {
            lemma_flags_byte_clean();
        }
        proof {
            lemma_cb_bit(opcode);
        }
        let bit = (opcode >> 3u8) & 7u8;
        match command {
            Command::RLC_Reg => {
                let reg = Register8Bit::get_left_instruction_argument_cb(opcode);
                self.rlc_reg_8bit(registers, reg);
            },
            Command::RLC_Mem => self.rlc_mem_reg(registers, memory),
            Command::RRC_Reg => {
                let reg = Register8Bit::get_left_instruction_argument_cb(opcode);
                self.rrc_reg_8bit(registers, reg);
            },
            Command::RRC_Mem => self.rrc_mem_reg(registers, memory),
            Command::RL_Reg => {
                let reg = Register8Bit::get_left_instruction_argument_cb(opcode);
                self.rl_reg_8bit(registers, reg);
            },
            Command::RL_Mem => self.rl_mem_reg(registers, memory),
            Command::RR_Reg => {
                let reg = Register8Bit::get_left_instruction_argument_cb(opcode);
                self.rr_reg_8bit(registers, reg);
            },
            Command::RR_Mem => self.rr_mem_reg(registers, memory),
            Command::SLA_Reg => {
                let reg = Register8Bit::get_left_instruction_argument_cb(opcode);
                self.sla_reg_8bit(registers, reg);
            },
            Command::SLA_Mem => self.sla_mem_reg(registers, memory),
            Command::SRA_Reg => {
                let reg = Register8Bit::get_left_instruction_argument_cb(opcode);
                self.sra_reg_8bit(registers, reg);
            },
            Command::SRA_Mem => self.sra_mem_reg(registers, memory),
            Command::Swap_Reg => {
                let reg = Register8Bit::get_left_instruction_argument_cb(opcode);
                self.swap_reg_8bit(registers, reg);
            },
            Command::Swap_Mem => self.swap_mem_reg(registers, memory),
            Command::SRL_Reg => {
                let reg = Register8Bit::get_left_instruction_argument_cb(opcode);
                self.srl_reg_8bit(registers, reg);
            },
            Command::SRL_Mem => self.srl_mem_reg(registers, memory),
            Command::BIT_Reg => {
                let reg = Register8Bit::get_left_instruction_argument_cb(opcode);
                self.bit_reg_8bit(registers, reg, bit);
            },
            Command::BIT_Mem => self.bit_mem_reg(registers, memory, bit),
            Command::RES_Reg => {
                let reg = Register8Bit::get_left_instruction_argument_cb(opcode);
                self.res_reg_8bit(registers, reg, bit);
            },
            Command::RES_Mem => self.res_mem_reg(registers, memory, bit),
            Command::SET_Reg => {
                let reg = Register8Bit::get_left_instruction_argument_cb(opcode);
                self.set_reg_8bit(registers, reg, bit);
            },
            Command::SET_Mem => self.set_mem_reg(registers, memory, bit),
            _ => {},
        }
    }

    /// Executes one of the jumps, calls, returns and restarts.
    #[verifier::rlimit(100)]
    fn execute_flow(
        &mut self,
        registers: &mut CpuRegisters,
        memory: &mut Memory,
        opcode: u8,
        command: Command,
    )
        requires
            old(memory).wf(),
            command_group(command) == 4,
        ensures
            final(memory).wf(),
            final(self).flag == old(self).flag,
            (final(self).length, final(self).cycle) == timing(
                command,
                branch_taken(command, old(registers).f),
            ),
            !writes_pc(command) ==> final(registers).pc == old(registers).pc,
            old(registers).flags_clean() ==> final(registers).flags_clean(),
            (*final(registers), final(memory)@) == effect_flow(
                command,
                opcode,
                *old(registers),
                old(memory)@,
            ),
    {
        proof {
            lemma_flags_byte_clean();
        }
        let pc = registers.pc;
        let zero = Flag::Zero(registers.get_flag(Flag::Zero(true)));
        let carry = Flag::Carry(registers.get_flag(Flag::Carry(true)));
        match command {
            Command::JR_8Bit => {
                let data = bus_read(memory, pc.wrapping_add(1)).unwrap();
                self.jr(registers, data as i8);
            },
            Command::JR_Eq_Zero => {
                let data = bus_read(memory, pc.wrapping_add(1)).unwrap();
                self.jr_eq(registers, zero, data as i8);
            },
            Command::JR_Eq_Carry => {
                let data = bus_read(memory, pc.wrapping_add(1)).unwrap();
                self.jr_eq(registers, carry, data as i8);
            },
            Command::JR_Not_Eq_Zero => {
                let data = bus_read(memory, pc.wrapping_add(1)).unwrap();
                self.jr_not_eq(registers, zero, data as i8);
            },
            Command::JR_Not_Eq_Carry => {
                let data = bus_read(memory, pc.wrapping_add(1)).unwrap();
                self.jr_not_eq(registers, carry, data as i8);
            },
            Command::RET => self.ret(registers, memory),
            Command::RETI => self.reti(registers, memory),
            Command::RET_Eq_Zero => self.ret_eq(registers, memory, zero),
            Command::RET_Eq_Carry => self.ret_eq(registers, memory, carry),
            Command::RET_Not_Eq_Zero => self.ret_not_eq(registers, memory, zero),
            Command::RET_Not_Eq_Carry => self.ret_not_eq(registers, memory, carry),
            Command::JP => {
                let addr = bus_read_16bit_value(memory, pc.wrapping_add(1)).unwrap();
                self.jp(registers, addr);
            },
            Command::JP_Mem => self.jp_mem_reg(registers),
            Command::JP_Eq_Zero => {
                let addr = bus_read_16bit_value(memory, pc.wrapping_add(1)).unwrap();
                self.jp_eq(registers, zero, addr);
            },
            Command::JP_Eq_Carry => {
                let addr = bus_read_16bit_value(memory, pc.wrapping_add(1)).unwrap();
                self.jp_eq(registers, carry, addr);
            },
            Command::JP_Not_Eq_Zero => {
                let addr = bus_read_16bit_value(memory, pc.wrapping_add(1)).unwrap();
                self.jp_not_eq(registers, zero, addr);
            },
            Command::JP_Not_Eq_Carry => {
                let addr = bus_read_16bit_value(memory, pc.wrapping_add(1)).unwrap();
                self.jp_not_eq(registers, carry, addr);
            },
            Command::CALL => {
                let addr = bus_read_16bit_value(memory, pc.wrapping_add(1)).unwrap();
                self.call(registers, memory, addr);
            },
            Command::CALL_Eq_Zero => {
                let addr = bus_read_16bit_value(memory, pc.wrapping_add(1)).unwrap();
                self.call_eq(registers, memory, zero, addr);
            },
            Command::CALL_Eq_Carry => {
                let addr = bus_read_16bit_value(memory, pc.wrapping_add(1)).unwrap();
                self.call_eq(registers, memory, carry, addr);
            },
            Command::CALL_Not_Eq_Zero => {
                let addr = bus_read_16bit_value(memory, pc.wrapping_add(1)).unwrap();
                self.call_not_eq(registers, memory, zero, addr);
            },
            Command::CALL_Not_Eq_Carry => {
                let addr = bus_read_16bit_value(memory, pc.wrapping_add(1)).unwrap();
                self.call_not_eq(registers, memory, carry, addr);
            },
            Command::RST => self.rst(registers, memory, opcode),
            _ => {},
        }
    }
}

} // verus!
