use vstd::prelude::*;

verus! {

/// The operation that an opcode selects, before its operands are read.
#[allow(non_camel_case_types)]
#[derive(Clone, Copy, Debug, PartialEq, Eq, Structural)]
pub enum Command {
    NOP,
    HALT,
    LD_16Bit,
    LD_Mem_Reg,
    LD_Mem_Reg_A,
    INC_16Bit,
    INC_8Bit,
    LD_A_Mem_Reg,
    LD_Reg_Reg,
    RLCA,
    RLA,
    LD_SP_Signed_HL,
    LD_HL_SP,
    ADD_16Bit,
    LD_8Bit_Mem,
    DEC_16Bit,
    DEC_8bit,
    Stop,
    JR_8Bit,
    JR_Eq_Carry,
    JR_Eq_Zero,
    JR_Not_Eq_Carry,
    JR_Not_Eq_Zero,
    LD_Hli,
    LD_Hld,
    LD_8Bit_Reg,
    LD_Reg_Mem,
    LD_Reg_Addr_16Bit,
    LD_Addr_16bit_Reg,
    LD_Reg_Addr_8bit,
    LD_Addr_8bit_Reg,
    ADD_Reg,
    ADC_Reg,
    SUB_Reg,
    SBC_Reg,
    CP_Reg,
    CP_Mem,
    CP_8Bit,
    RET,
    RET_Eq_Zero,
    RET_Eq_Carry,
    RET_Not_Eq_Zero,
    RET_Not_Eq_Carry,
    RETI,
    POP,
    PUSH,
    INC_Mem_Reg,
    LD_A_C,
    LD_C_A,
    JP,
    JP_Mem,
    JP_Eq_Zero,
    JP_Eq_Carry,
    JP_Not_Eq_Zero,
    JP_Not_Eq_Carry,
    CALL,
    CALL_Eq_Zero,
    CALL_Eq_Carry,
    CALL_Not_Eq_Zero,
    CALL_Not_Eq_Carry,
    ADD_Mem,
    ADD_8Bit,
    ADD_SP_Signed,
    SUB_Mem,
    SUB_8Bit,
    SBC_Mem,
    SBC_8Bit,
    ADC_Mem,
    ADC_8Bit,
    DAA,
    SCF,
    RRCA,
    RRA,
    CPL,
    DEC_Mem_Reg,
    CCF,
    LD_Sp_To_Mem,
    LD_Mem_Hld,
    LD_Mem_Hli,
    Bitwise_Reg,
    Bitwise_Mem,
    Bitwise_8Bit,
    RST,
    CB,
    RLC_Reg,
    RLC_Mem,
    RRC_Reg,
    RRC_Mem,
    RL_Reg,
    RL_Mem,
    RR_Reg,
    RR_Mem,
    SLA_Reg,
    SLA_Mem,
    SRA_Reg,
    SRA_Mem,
    Swap_Reg,
    Swap_Mem,
    SRL_Reg,
    SRL_Mem,
    BIT_Reg,
    BIT_Mem,
    RES_Reg,
    RES_Mem,
    SET_Reg,
    SET_Mem,
    Unmapped,
}

/// The primary opcode table.
pub open spec fn primary_command(opcode: u8) -> Command {
    match opcode {
        0x00 => Command::NOP,
        0x01 | 0x11 | 0x21 | 0x31 => Command::LD_16Bit,
        0x02 | 0x12 => Command::LD_Mem_Reg_A,
        0x03 | 0x13 | 0x23 | 0x33 => Command::INC_16Bit,
        0x04 | 0x0C | 0x14 | 0x1C | 0x24 | 0x2C | 0x3C => Command::INC_8Bit,
        0x05 | 0x0D | 0x15 | 0x1D | 0x25 | 0x2D | 0x3D => Command::DEC_8bit,
        0x06 | 0x0E | 0x16 | 0x1E | 0x26 | 0x2E | 0x3E => Command::LD_8Bit_Reg,
        0x07 => Command::RLCA,
        0x08 => Command::LD_Sp_To_Mem,
        0x09 | 0x19 | 0x29 | 0x39 => Command::ADD_16Bit,
        0x0A | 0x1A => Command::LD_A_Mem_Reg,
        0x0B | 0x1B | 0x2B | 0x3B => Command::DEC_16Bit,
        0x0F => Command::RRCA,
        0x10 => Command::Stop,
        0x17 => Command::RLA,
        0x18 => Command::JR_8Bit,
        0x1F => Command::RRA,
        0x20 => Command::JR_Not_Eq_Zero,
        0x22 => Command::LD_Mem_Hli,
        0x27 => Command::DAA,
        0x28 => Command::JR_Eq_Zero,
        0x2A => Command::LD_Hli,
        0x2F => Command::CPL,
        0x30 => Command::JR_Not_Eq_Carry,
        0x32 => Command::LD_Mem_Hld,
        0x34 => Command::INC_Mem_Reg,
        0x35 => Command::DEC_Mem_Reg,
        0x36 => Command::LD_8Bit_Mem,
        0x37 => Command::SCF,
        0x38 => Command::JR_Eq_Carry,
        0x3A => Command::LD_Hld,
        0x3F => Command::CCF,
        0x40 | 0x41 | 0x42 | 0x43 | 0x44 | 0x45 | 0x47 | 0x48 | 0x49 | 0x4A | 0x4B | 0x4C |
            0x4D | 0x4F | 0x50 | 0x51 | 0x52 | 0x53 | 0x54 | 0x55 | 0x57 | 0x58 | 0x59 | 0x5A
            | 0x5B | 0x5C | 0x5D | 0x5F | 0x60 | 0x61 | 0x62 | 0x63 | 0x64 | 0x65 | 0x67 |
            0x68 | 0x69 | 0x6A | 0x6B | 0x6C | 0x6D | 0x6F | 0x78 | 0x79 | 0x7A | 0x7B | 0x7C
            | 0x7D | 0x7F => Command::LD_Reg_Reg,
        0x46 | 0x4E | 0x56 | 0x5E | 0x66 | 0x6E | 0x7E => Command::LD_Reg_Mem,
        0x70 | 0x71 | 0x72 | 0x73 | 0x74 | 0x75 | 0x77 => Command::LD_Mem_Reg,
        0x76 => Command::HALT,
        0x80 | 0x81 | 0x82 | 0x83 | 0x84 | 0x85 | 0x87 => Command::ADD_Reg,
        0x86 => Command::ADD_Mem,
        0x88 | 0x89 | 0x8A | 0x8B | 0x8C | 0x8D | 0x8F => Command::ADC_Reg,
        0x8E => Command::ADC_Mem,
        0x90 | 0x91 | 0x92 | 0x93 | 0x94 | 0x95 | 0x97 => Command::SUB_Reg,
        0x96 => Command::SUB_Mem,
        0x98 | 0x99 | 0x9A | 0x9B | 0x9C | 0x9D | 0x9F => Command::SBC_Reg,
        0x9E => Command::SBC_Mem,
        0xA0 | 0xA1 | 0xA2 | 0xA3 | 0xA4 | 0xA5 | 0xA7 | 0xA8 | 0xA9 | 0xAA | 0xAB | 0xAC |
            0xAD | 0xAF | 0xB0 | 0xB1 | 0xB2 | 0xB3 | 0xB4 | 0xB5 | 0xB7 => Command::Bitwise_Reg,
        0xA6 | 0xAE | 0xB6 => Command::Bitwise_Mem,
        0xB8 | 0xB9 | 0xBA | 0xBB | 0xBC | 0xBD | 0xBF => Command::CP_Reg,
        0xBE => Command::CP_Mem,
        0xC0 => Command::RET_Not_Eq_Zero,
        0xC1 | 0xD1 | 0xE1 | 0xF1 => Command::POP,
        0xC2 => Command::JP_Not_Eq_Zero,
        0xC3 => Command::JP,
        0xC4 => Command::CALL_Not_Eq_Zero,
        0xC5 | 0xD5 | 0xE5 | 0xF5 => Command::PUSH,
        0xC6 => Command::ADD_8Bit,
        0xC7 | 0xCF | 0xD7 | 0xDF | 0xE7 | 0xEF | 0xF7 | 0xFF => Command::RST,
        0xC8 => Command::RET_Eq_Zero,
        0xC9 => Command::RET,
        0xCA => Command::JP_Eq_Zero,
        0xCB => Command::CB,
        0xCC => Command::CALL_Eq_Zero,
        0xCD => Command::CALL,
        0xCE => Command::ADC_8Bit,
        0xD0 => Command::RET_Not_Eq_Carry,
        0xD2 => Command::JP_Not_Eq_Carry,
        0xD4 => Command::CALL_Not_Eq_Carry,
        0xD6 => Command::SUB_8Bit,
        0xD8 => Command::RET_Eq_Carry,
        0xD9 => Command::RETI,
        0xDA => Command::JP_Eq_Carry,
        0xDC => Command::CALL_Eq_Carry,
        0xDE => Command::SBC_8Bit,
        0xE0 => Command::LD_Reg_Addr_8bit,
        0xE2 => Command::LD_A_C,
        0xE6 | 0xEE | 0xF6 => Command::Bitwise_8Bit,
        0xE8 => Command::ADD_SP_Signed,
        0xE9 => Command::JP_Mem,
        0xEA => Command::LD_Reg_Addr_16Bit,
        0xF0 => Command::LD_Addr_8bit_Reg,
        0xF2 => Command::LD_C_A,
        0xF8 => Command::LD_SP_Signed_HL,
        0xF9 => Command::LD_HL_SP,
        0xFA => Command::LD_Addr_16bit_Reg,
        0xFE => Command::CP_8Bit,
        _ => Command::Unmapped,
    }
}

/// The table of the opcodes that follow the 0xCB prefix.
pub open spec fn cb_command(opcode: u8) -> Command {
    match opcode {
        0x00 | 0x01 | 0x02 | 0x03 | 0x04 | 0x05 | 0x07 => Command::RLC_Reg,
        0x06 => Command::RLC_Mem,
        0x08 | 0x09 | 0x0A | 0x0B | 0x0C | 0x0D | 0x0F => Command::RRC_Reg,
        0x0E => Command::RRC_Mem,
        0x10 | 0x11 | 0x12 | 0x13 | 0x14 | 0x15 | 0x17 => Command::RL_Reg,
        0x16 => Command::RL_Mem,
        0x18 | 0x19 | 0x1A | 0x1B | 0x1C | 0x1D | 0x1F => Command::RR_Reg,
        0x1E => Command::RR_Mem,
        0x20 | 0x21 | 0x22 | 0x23 | 0x24 | 0x25 | 0x27 => Command::SLA_Reg,
        0x26 => Command::SLA_Mem,
        0x28 | 0x29 | 0x2A | 0x2B | 0x2C | 0x2D | 0x2F => Command::SRA_Reg,
        0x2E => Command::SRA_Mem,
        0x30 | 0x31 | 0x32 | 0x33 | 0x34 | 0x35 | 0x37 => Command::Swap_Reg,
        0x36 => Command::Swap_Mem,
        0x38 | 0x39 | 0x3A | 0x3B | 0x3C | 0x3D | 0x3F => Command::SRL_Reg,
        0x3E => Command::SRL_Mem,
        0x40 | 0x41 | 0x42 | 0x43 | 0x44 | 0x45 | 0x47 | 0x48 | 0x49 | 0x4A | 0x4B | 0x4C |
            0x4D | 0x4F | 0x50 | 0x51 | 0x52 | 0x53 | 0x54 | 0x55 | 0x57 | 0x58 | 0x59 | 0x5A
            | 0x5B | 0x5C | 0x5D | 0x5F | 0x60 | 0x61 | 0x62 | 0x63 | 0x64 | 0x65 | 0x67 |
            0x68 | 0x69 | 0x6A | 0x6B | 0x6C | 0x6D | 0x6F | 0x70 | 0x71 | 0x72 | 0x73 | 0x74
            | 0x75 | 0x77 | 0x78 | 0x79 | 0x7A | 0x7B | 0x7C | 0x7D | 0x7F => Command::BIT_Reg,
        0x46 | 0x4E | 0x56 | 0x5E | 0x66 | 0x6E | 0x76 | 0x7E => Command::BIT_Mem,
        0x80 | 0x81 | 0x82 | 0x83 | 0x84 | 0x85 | 0x87 | 0x88 | 0x89 | 0x8A | 0x8B | 0x8C |
            0x8D | 0x8F | 0x90 | 0x91 | 0x92 | 0x93 | 0x94 | 0x95 | 0x97 | 0x98 | 0x99 | 0x9A
            | 0x9B | 0x9C | 0x9D | 0x9F | 0xA0 | 0xA1 | 0xA2 | 0xA3 | 0xA4 | 0xA5 | 0xA7 |
            0xA8 | 0xA9 | 0xAA | 0xAB | 0xAC | 0xAD | 0xAF | 0xB0 | 0xB1 | 0xB2 | 0xB3 | 0xB4
            | 0xB5 | 0xB7 | 0xB8 | 0xB9 | 0xBA | 0xBB | 0xBC | 0xBD | 0xBF => Command::RES_Reg,
        0x86 | 0x8E | 0x96 | 0x9E | 0xA6 | 0xAE | 0xB6 | 0xBE => Command::RES_Mem,
        0xC0 | 0xC1 | 0xC2 | 0xC3 | 0xC4 | 0xC5 | 0xC7 | 0xC8 | 0xC9 | 0xCA | 0xCB | 0xCC |
            0xCD | 0xCF | 0xD0 | 0xD1 | 0xD2 | 0xD3 | 0xD4 | 0xD5 | 0xD7 | 0xD8 | 0xD9 | 0xDA
            | 0xDB | 0xDC | 0xDD | 0xDF | 0xE0 | 0xE1 | 0xE2 | 0xE3 | 0xE4 | 0xE5 | 0xE7 |
            0xE8 | 0xE9 | 0xEA | 0xEB | 0xEC | 0xED | 0xEF | 0xF0 | 0xF1 | 0xF2 | 0xF3 | 0xF4
            | 0xF5 | 0xF7 | 0xF8 | 0xF9 | 0xFA | 0xFB | 0xFC | 0xFD | 0xFF => Command::SET_Reg,
        0xC6 | 0xCE | 0xD6 | 0xDE | 0xE6 | 0xEE | 0xF6 | 0xFE => Command::SET_Mem,
    }
}

impl Command {
    pub fn get_instruction(opcode: u8) -> (r: Self)
        ensures
            r == primary_command(opcode),
    {
        match opcode {
            0x00 => Command::NOP,
            0x01 | 0x11 | 0x21 | 0x31 => Command::LD_16Bit,
            0x02 | 0x12 => Command::LD_Mem_Reg_A,
            0x03 | 0x13 | 0x23 | 0x33 => Command::INC_16Bit,
            0x04 | 0x0C | 0x14 | 0x1C | 0x24 | 0x2C | 0x3C => Command::INC_8Bit,
            0x05 | 0x0D | 0x15 | 0x1D | 0x25 | 0x2D | 0x3D => Command::DEC_8bit,
            0x06 | 0x0E | 0x16 | 0x1E | 0x26 | 0x2E | 0x3E => Command::LD_8Bit_Reg,
            0x07 => Command::RLCA,
            0x08 => Command::LD_Sp_To_Mem,
            0x09 | 0x19 | 0x29 | 0x39 => Command::ADD_16Bit,
            0x0A | 0x1A => Command::LD_A_Mem_Reg,
            0x0B | 0x1B | 0x2B | 0x3B => Command::DEC_16Bit,
            0x0F => Command::RRCA,
            0x10 => Command::Stop,
            0x17 => Command::RLA,
            0x18 => Command::JR_8Bit,
            0x1F => Command::RRA,
            0x20 => Command::JR_Not_Eq_Zero,
            0x22 => Command::LD_Mem_Hli,
            0x27 => Command::DAA,
            0x28 => Command::JR_Eq_Zero,
            0x2A => Command::LD_Hli,
            0x2F => Command::CPL,
            0x30 => Command::JR_Not_Eq_Carry,
            0x32 => Command::LD_Mem_Hld,
            0x34 => Command::INC_Mem_Reg,
            0x35 => Command::DEC_Mem_Reg,
            0x36 => Command::LD_8Bit_Mem,
            0x37 => Command::SCF,
            0x38 => Command::JR_Eq_Carry,
            0x3A => Command::LD_Hld,
            0x3F => Command::CCF,
            0x40 | 0x41 | 0x42 | 0x43 | 0x44 | 0x45 | 0x47 | 0x48 | 0x49 | 0x4A | 0x4B | 0x4C |
                0x4D | 0x4F | 0x50 | 0x51 | 0x52 | 0x53 | 0x54 | 0x55 | 0x57 | 0x58 | 0x59 | 0x5A
                | 0x5B | 0x5C | 0x5D | 0x5F | 0x60 | 0x61 | 0x62 | 0x63 | 0x64 | 0x65 | 0x67 |
                0x68 | 0x69 | 0x6A | 0x6B | 0x6C | 0x6D | 0x6F | 0x78 | 0x79 | 0x7A | 0x7B | 0x7C
                | 0x7D | 0x7F => Command::LD_Reg_Reg,
            0x46 | 0x4E | 0x56 | 0x5E | 0x66 | 0x6E | 0x7E => Command::LD_Reg_Mem,
            0x70 | 0x71 | 0x72 | 0x73 | 0x74 | 0x75 | 0x77 => Command::LD_Mem_Reg,
            0x76 => Command::HALT,
            0x80 | 0x81 | 0x82 | 0x83 | 0x84 | 0x85 | 0x87 => Command::ADD_Reg,
            0x86 => Command::ADD_Mem,
            0x88 | 0x89 | 0x8A | 0x8B | 0x8C | 0x8D | 0x8F => Command::ADC_Reg,
            0x8E => Command::ADC_Mem,
            0x90 | 0x91 | 0x92 | 0x93 | 0x94 | 0x95 | 0x97 => Command::SUB_Reg,
            0x96 => Command::SUB_Mem,
            0x98 | 0x99 | 0x9A | 0x9B | 0x9C | 0x9D | 0x9F => Command::SBC_Reg,
            0x9E => Command::SBC_Mem,
            0xA0 | 0xA1 | 0xA2 | 0xA3 | 0xA4 | 0xA5 | 0xA7 | 0xA8 | 0xA9 | 0xAA | 0xAB | 0xAC |
                0xAD | 0xAF | 0xB0 | 0xB1 | 0xB2 | 0xB3 | 0xB4 | 0xB5 | 0xB7 => Command::Bitwise_Reg,
            0xA6 | 0xAE | 0xB6 => Command::Bitwise_Mem,
            0xB8 | 0xB9 | 0xBA | 0xBB | 0xBC | 0xBD | 0xBF => Command::CP_Reg,
            0xBE => Command::CP_Mem,
            0xC0 => Command::RET_Not_Eq_Zero,
            0xC1 | 0xD1 | 0xE1 | 0xF1 => Command::POP,
            0xC2 => Command::JP_Not_Eq_Zero,
            0xC3 => Command::JP,
            0xC4 => Command::CALL_Not_Eq_Zero,
            0xC5 | 0xD5 | 0xE5 | 0xF5 => Command::PUSH,
            0xC6 => Command::ADD_8Bit,
            0xC7 | 0xCF | 0xD7 | 0xDF | 0xE7 | 0xEF | 0xF7 | 0xFF => Command::RST,
            0xC8 => Command::RET_Eq_Zero,
            0xC9 => Command::RET,
            0xCA => Command::JP_Eq_Zero,
            0xCB => Command::CB,
            0xCC => Command::CALL_Eq_Zero,
            0xCD => Command::CALL,
            0xCE => Command::ADC_8Bit,
            0xD0 => Command::RET_Not_Eq_Carry,
            0xD2 => Command::JP_Not_Eq_Carry,
            0xD4 => Command::CALL_Not_Eq_Carry,
            0xD6 => Command::SUB_8Bit,
            0xD8 => Command::RET_Eq_Carry,
            0xD9 => Command::RETI,
            0xDA => Command::JP_Eq_Carry,
            0xDC => Command::CALL_Eq_Carry,
            0xDE => Command::SBC_8Bit,
            0xE0 => Command::LD_Reg_Addr_8bit,
            0xE2 => Command::LD_A_C,
            0xE6 | 0xEE | 0xF6 => Command::Bitwise_8Bit,
            0xE8 => Command::ADD_SP_Signed,
            0xE9 => Command::JP_Mem,
            0xEA => Command::LD_Reg_Addr_16Bit,
            0xF0 => Command::LD_Addr_8bit_Reg,
            0xF2 => Command::LD_C_A,
            0xF8 => Command::LD_SP_Signed_HL,
            0xF9 => Command::LD_HL_SP,
            0xFA => Command::LD_Addr_16bit_Reg,
            0xFE => Command::CP_8Bit,
            _ => Command::Unmapped,
        }
    }

    pub fn get_instruction_cb(opcode: u8) -> (r: Self)
        ensures
            r == cb_command(opcode),
    {
        match opcode {
            0x00 | 0x01 | 0x02 | 0x03 | 0x04 | 0x05 | 0x07 => Command::RLC_Reg,
            0x06 => Command::RLC_Mem,
            0x08 | 0x09 | 0x0A | 0x0B | 0x0C | 0x0D | 0x0F => Command::RRC_Reg,
            0x0E => Command::RRC_Mem,
            0x10 | 0x11 | 0x12 | 0x13 | 0x14 | 0x15 | 0x17 => Command::RL_Reg,
            0x16 => Command::RL_Mem,
            0x18 | 0x19 | 0x1A | 0x1B | 0x1C | 0x1D | 0x1F => Command::RR_Reg,
            0x1E => Command::RR_Mem,
            0x20 | 0x21 | 0x22 | 0x23 | 0x24 | 0x25 | 0x27 => Command::SLA_Reg,
            0x26 => Command::SLA_Mem,
            0x28 | 0x29 | 0x2A | 0x2B | 0x2C | 0x2D | 0x2F => Command::SRA_Reg,
            0x2E => Command::SRA_Mem,
            0x30 | 0x31 | 0x32 | 0x33 | 0x34 | 0x35 | 0x37 => Command::Swap_Reg,
            0x36 => Command::Swap_Mem,
            0x38 | 0x39 | 0x3A | 0x3B | 0x3C | 0x3D | 0x3F => Command::SRL_Reg,
            0x3E => Command::SRL_Mem,
            0x40 | 0x41 | 0x42 | 0x43 | 0x44 | 0x45 | 0x47 | 0x48 | 0x49 | 0x4A | 0x4B | 0x4C |
                0x4D | 0x4F | 0x50 | 0x51 | 0x52 | 0x53 | 0x54 | 0x55 | 0x57 | 0x58 | 0x59 | 0x5A
                | 0x5B | 0x5C | 0x5D | 0x5F | 0x60 | 0x61 | 0x62 | 0x63 | 0x64 | 0x65 | 0x67 |
                0x68 | 0x69 | 0x6A | 0x6B | 0x6C | 0x6D | 0x6F | 0x70 | 0x71 | 0x72 | 0x73 | 0x74
                | 0x75 | 0x77 | 0x78 | 0x79 | 0x7A | 0x7B | 0x7C | 0x7D | 0x7F => Command::BIT_Reg,
            0x46 | 0x4E | 0x56 | 0x5E | 0x66 | 0x6E | 0x76 | 0x7E => Command::BIT_Mem,
            0x80 | 0x81 | 0x82 | 0x83 | 0x84 | 0x85 | 0x87 | 0x88 | 0x89 | 0x8A | 0x8B | 0x8C |
                0x8D | 0x8F | 0x90 | 0x91 | 0x92 | 0x93 | 0x94 | 0x95 | 0x97 | 0x98 | 0x99 | 0x9A
                | 0x9B | 0x9C | 0x9D | 0x9F | 0xA0 | 0xA1 | 0xA2 | 0xA3 | 0xA4 | 0xA5 | 0xA7 |
                0xA8 | 0xA9 | 0xAA | 0xAB | 0xAC | 0xAD | 0xAF | 0xB0 | 0xB1 | 0xB2 | 0xB3 | 0xB4
                | 0xB5 | 0xB7 | 0xB8 | 0xB9 | 0xBA | 0xBB | 0xBC | 0xBD | 0xBF => Command::RES_Reg,
            0x86 | 0x8E | 0x96 | 0x9E | 0xA6 | 0xAE | 0xB6 | 0xBE => Command::RES_Mem,
            0xC0 | 0xC1 | 0xC2 | 0xC3 | 0xC4 | 0xC5 | 0xC7 | 0xC8 | 0xC9 | 0xCA | 0xCB | 0xCC |
                0xCD | 0xCF | 0xD0 | 0xD1 | 0xD2 | 0xD3 | 0xD4 | 0xD5 | 0xD7 | 0xD8 | 0xD9 | 0xDA
                | 0xDB | 0xDC | 0xDD | 0xDF | 0xE0 | 0xE1 | 0xE2 | 0xE3 | 0xE4 | 0xE5 | 0xE7 |
                0xE8 | 0xE9 | 0xEA | 0xEB | 0xEC | 0xED | 0xEF | 0xF0 | 0xF1 | 0xF2 | 0xF3 | 0xF4
                | 0xF5 | 0xF7 | 0xF8 | 0xF9 | 0xFA | 0xFB | 0xFC | 0xFD | 0xFF => Command::SET_Reg,
            0xC6 | 0xCE | 0xD6 | 0xDE | 0xE6 | 0xEE | 0xF6 | 0xFE => Command::SET_Mem,
        }
    }
}

} // verus!
