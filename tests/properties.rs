use blazeboy::{
    bus_read, bus_read_16bit_value, bus_write, Catridge, CatridgeType, Command, Cpu, CpuRegisters,
    Flag, Instruction, Memory, Register16Bit, Register8Bit,
};

fn flags(registers: &CpuRegisters) -> (bool, bool, bool, bool) {
    (
        registers.get_flag(Flag::Zero(true)),
        registers.get_flag(Flag::Subtraction(true)),
        registers.get_flag(Flag::HalfCarry(true)),
        registers.get_flag(Flag::Carry(true)),
    )
}

#[test]
fn add_sets_zero_half_and_carry() {
    let mut registers = CpuRegisters::new();
    let mut instruction = Instruction::new();
    registers.a = 0x3A;
    registers.b = 0xC6;
    instruction.add_reg_to_reg_8bit(&mut registers, Register8Bit::B);
    assert_eq!(registers.a, 0x00);
    assert_eq!(flags(&registers), (true, false, true, true));
    assert_eq!((instruction.length, instruction.cycle), (1, 4));
}

#[test]
fn adc_adds_the_carry() {
    let mut registers = CpuRegisters::new();
    let mut instruction = Instruction::new();
    registers.a = 0xE1;
    registers.set_flag(Flag::Carry(true));
    instruction.adc_8bit_to_reg_8bit(&mut registers, 0x0F);
    assert_eq!(registers.a, 0xF1);
    assert_eq!(flags(&registers), (false, false, true, false));
}

#[test]
fn sub_borrows() {
    let mut registers = CpuRegisters::new();
    let mut instruction = Instruction::new();
    registers.a = 0x3E;
    registers.e = 0x40;
    instruction.sub_reg_to_reg_8bit(&mut registers, Register8Bit::E);
    assert_eq!(registers.a, 0xFE);
    assert_eq!(flags(&registers), (false, true, false, true));
}

#[test]
fn add_hl_bc_carries_from_bit_eleven() {
    let mut registers = CpuRegisters::new();
    let mut instruction = Instruction::new();
    registers.ld_16bit_reg(Register16Bit::HL, 0x8A23);
    registers.ld_16bit_reg(Register16Bit::BC, 0x0605);
    instruction.add_reg_16bit_to_reg_16_bit(&mut registers, Register16Bit::BC);
    assert_eq!(registers.get_16bit_reg_value(Register16Bit::HL), 0x9028);
    let (_, n, h, c) = flags(&registers);
    assert_eq!((n, h, c), (false, true, false));
    assert_eq!((instruction.length, instruction.cycle), (1, 8));
}

#[test]
fn rlca_rotates_bit_seven_into_carry() {
    let mut registers = CpuRegisters::new();
    let mut instruction = Instruction::new();
    registers.a = 0x85;
    instruction.rlca(&mut registers);
    assert_eq!(registers.a, 0x0B);
    let (z, _, _, c) = flags(&registers);
    assert_eq!((z, c), (false, true));
}

#[test]
fn daa_corrects_a_decimal_addition() {
    let mut registers = CpuRegisters::new();
    let mut instruction = Instruction::new();
    registers.a = 0x45;
    instruction.add_8bit_to_reg_8bit(&mut registers, 0x38);
    instruction.daa(&mut registers);
    assert_eq!(registers.a, 0x83);
    let (_, _, h, c) = flags(&registers);
    assert_eq!((h, c), (false, false));
}

#[test]
fn daa_after_a_carry_out() {
    let mut registers = CpuRegisters::new();
    let mut instruction = Instruction::new();
    registers.a = 0x99;
    instruction.add_8bit_to_reg_8bit(&mut registers, 0x01);
    instruction.daa(&mut registers);
    assert_eq!(registers.a, 0x00);
    assert_eq!(flags(&registers), (true, false, false, true));
}

#[test]
fn inc_wraps_to_zero() {
    let mut registers = CpuRegisters::new();
    let mut instruction = Instruction::new();
    registers.b = 0xFF;
    instruction.inc_8bit(&mut registers, Register8Bit::B);
    assert_eq!(registers.b, 0x00);
    assert_eq!(flags(&registers), (true, false, true, false));
}

#[test]
fn dec_wraps_and_keeps_carry() {
    let mut registers = CpuRegisters::new();
    let mut instruction = Instruction::new();
    registers.c = 0x00;
    registers.set_flag(Flag::Carry(true));
    instruction.dec_8bit(&mut registers, Register8Bit::C);
    assert_eq!(registers.c, 0xFF);
    assert_eq!(flags(&registers), (false, true, true, true));
}

#[test]
fn add_sp_negative_offset() {
    let mut registers = CpuRegisters::new();
    let mut instruction = Instruction::new();
    registers.sp = 0xFFF8;
    instruction.add_sp_r8(&mut registers, -2);
    assert_eq!(registers.sp, 0xFFF6);
    assert_eq!(flags(&registers), (false, false, true, true));
    registers.sp = 0x0000;
    instruction.add_sp_r8(&mut registers, -1);
    assert_eq!(registers.sp, 0xFFFF);
    assert_eq!(flags(&registers), (false, false, false, false));
}

#[test]
fn add_sp_positive_offset_carries_from_low_byte() {
    let mut registers = CpuRegisters::new();
    let mut instruction = Instruction::new();
    registers.sp = 0x00FF;
    instruction.add_sp_r8(&mut registers, 1);
    assert_eq!(registers.sp, 0x0100);
    assert_eq!(flags(&registers), (false, false, true, true));
}

#[test]
fn ld_hl_sp_offset_keeps_sp() {
    let mut registers = CpuRegisters::new();
    let mut instruction = Instruction::new();
    registers.sp = 0x1000;
    instruction.ld_sp_to_hl_signed(&mut registers, -16);
    assert_eq!(registers.sp, 0x1000);
    assert_eq!(registers.get_16bit_reg_value(Register16Bit::HL), 0x0FF0);
    assert_eq!((instruction.length, instruction.cycle), (2, 12));
}

#[test]
fn flag_writes_clear_the_low_nibble() {
    let mut registers = CpuRegisters::new();
    registers.f = 0x0F;
    registers.set_flags(&[Flag::Carry(true), Flag::Zero(true), Flag::Unmapped]);
    assert_eq!(registers.f, 0x90);
    registers.set_flag(Flag::Zero(false));
    assert_eq!(registers.f, 0x10);
}

#[test]
fn every_opcode_keeps_the_flag_nibble_clear() {
    for opcode in 0..=255u8 {
        let mut memory = Memory::new();
        let mut cpu = Cpu::new();
        cpu.registers.pc = 0xC000;
        cpu.registers.sp = 0xDFF0;
        cpu.registers.ld_16bit_reg(Register16Bit::HL, 0xC800);
        bus_write(&mut memory, 0xC000, opcode);
        bus_write(&mut memory, 0xC001, 0x5A);
        bus_write(&mut memory, 0xC002, 0xC3);
        bus_write(&mut memory, 0xDFF0, 0xFF);
        bus_write(&mut memory, 0xDFF1, 0xFF);
        cpu.step(&mut memory);
        assert_eq!(cpu.registers.f & 0x0F, 0, "opcode {:#04x}", opcode);
    }
}

#[test]
fn pc_and_sp_wrap() {
    let mut registers = CpuRegisters::new();
    let mut instruction = Instruction::new();
    registers.pc = 0xFFFE;
    instruction.jr(&mut registers, 5);
    assert_eq!(registers.pc, 0x0005);
    registers.sp = 0xFFFF;
    instruction.inc_16bit(&mut registers, Register16Bit::SP);
    assert_eq!(registers.sp, 0x0000);
    instruction.dec_16bit(&mut registers, Register16Bit::SP);
    assert_eq!(registers.sp, 0xFFFF);
}

#[test]
fn pair_read_then_write_is_identity() {
    let mut registers = CpuRegisters::new();
    registers.a = 0x12;
    registers.f = 0x30;
    registers.b = 0x34;
    registers.c = 0x56;
    registers.d = 0x78;
    registers.e = 0x9A;
    registers.h = 0xBC;
    registers.l = 0xDE;
    registers.sp = 0xF00D;
    registers.pc = 0xBEEF;
    for reg in [
        Register16Bit::AF,
        Register16Bit::BC,
        Register16Bit::DE,
        Register16Bit::HL,
        Register16Bit::SP,
        Register16Bit::PC,
    ] {
        let v = registers.get_16bit_reg_value(reg);
        registers.ld_16bit_reg(reg, v);
        assert_eq!(registers.get_16bit_reg_value(reg), v);
    }
    assert_eq!(registers.get_16bit_reg_value(Register16Bit::BC), 0x3456);
    assert_eq!((registers.a, registers.f, registers.h, registers.l), (0x12, 0x30, 0xBC, 0xDE));
    registers.ld_16bit_reg(Register16Bit::DE, 0xA1B2);
    assert_eq!((registers.d, registers.e), (0xA1, 0xB2));
}

#[test]
fn unmapped_operands_read_zero_and_ignore_writes() {
    let mut registers = CpuRegisters::new();
    registers.a = 7;
    registers.ld_8bit_reg(Register8Bit::Unmapped, 9);
    assert_eq!(registers.get_8bit_reg_value(Register8Bit::Unmapped), 0);
    registers.ld_16bit_reg(Register16Bit::Unmapped, 0x1234);
    assert_eq!(registers.get_16bit_reg_value(Register16Bit::Unmapped), 0);
    assert_eq!(registers.a, 7);
}

#[test]
fn instruction_timings_follow_the_table() {
    let cases: [(&[u8], u8, u8); 12] = [
        (&[0x00], 4, 1),
        (&[0x01, 0x34, 0x12], 12, 3),
        (&[0x36, 0x77], 12, 2),
        (&[0x08, 0x00, 0xC8], 20, 3),
        (&[0x20, 0x05], 8, 2),
        (&[0x28, 0x05], 12, 7),
        (&[0xE2], 8, 1),
        (&[0xE8, 0x02], 16, 2),
        (&[0xCB, 0x46], 12, 2),
        (&[0xCB, 0x16], 16, 2),
        (&[0xCB, 0x11], 8, 2),
        (&[0xFA, 0x00, 0xC8], 16, 3),
    ];
    for (bytes, cycles, advance) in cases {
        let mut memory = Memory::new();
        let mut cpu = Cpu::new();
        cpu.registers.pc = 0xC000;
        cpu.registers.sp = 0xDFF0;
        cpu.registers.set_flag(Flag::Zero(true));
        for (i, b) in bytes.iter().enumerate() {
            bus_write(&mut memory, 0xC000 + i as u16, *b);
        }
        assert_eq!(cpu.step(&mut memory), cycles, "opcode {:#04x}", bytes[0]);
        assert_eq!(cpu.registers.pc, 0xC000 + advance as u16, "opcode {:#04x}", bytes[0]);
    }
}

#[test]
fn decoder_tables() {
    assert_eq!(Command::get_instruction(0x00), Command::NOP);
    assert_eq!(Command::get_instruction(0x76), Command::HALT);
    assert_eq!(Command::get_instruction(0x0B), Command::DEC_16Bit);
    assert_eq!(Command::get_instruction(0x02), Command::LD_Mem_Reg_A);
    assert_eq!(Command::get_instruction(0x70), Command::LD_Mem_Reg);
    assert_eq!(Command::get_instruction(0x46), Command::LD_Reg_Mem);
    assert_eq!(Command::get_instruction(0xCB), Command::CB);
    assert_eq!(Command::get_instruction(0xD9), Command::RETI);
    assert_eq!(Command::get_instruction(0xD3), Command::Unmapped);
    assert_eq!(Command::get_instruction_cb(0x38), Command::SRL_Reg);
    assert_eq!(Command::get_instruction_cb(0x36), Command::Swap_Mem);
    assert_eq!(Command::get_instruction_cb(0x7E), Command::BIT_Mem);
    assert_eq!(Command::get_instruction_cb(0xC7), Command::SET_Reg);
    assert_eq!(Register8Bit::get_left_instruction_argument(0x3C), Register8Bit::A);
    assert_eq!(Register8Bit::get_left_instruction_argument(0x91), Register8Bit::C);
    assert_eq!(Register8Bit::get_right_instruction_argument(0x5D), Register8Bit::L);
    assert_eq!(Register8Bit::get_left_instruction_argument_cb(0x36), Register8Bit::Unmapped);
    assert_eq!(Register16Bit::get_left_instruction_argument(0xF5), Register16Bit::AF);
    assert_eq!(Register16Bit::get_left_instruction_argument(0x31), Register16Bit::SP);
    assert_eq!(Register16Bit::get_right_instruction_argument(0x19), Register16Bit::DE);
}

#[test]
fn cb_bit_set_res_through_step() {
    let mut memory = Memory::new();
    let mut cpu = Cpu::new();
    cpu.registers.pc = 0xC000;
    cpu.registers.b = 0x00;
    for (i, b) in [0xCB, 0xD8, 0xCB, 0x58, 0xCB, 0x98, 0xCB, 0x58].iter().enumerate() {
        bus_write(&mut memory, 0xC000 + i as u16, *b);
    }
    cpu.step(&mut memory);
    assert_eq!(cpu.registers.b, 0x08);
    cpu.step(&mut memory);
    assert!(!cpu.registers.get_flag(Flag::Zero(true)));
    cpu.step(&mut memory);
    assert_eq!(cpu.registers.b, 0x00);
    cpu.step(&mut memory);
    assert!(cpu.registers.get_flag(Flag::Zero(true)));
    assert_eq!(cpu.registers.pc, 0xC008);
}

#[test]
fn push_then_pop_restores_the_pair() {
    let mut registers = CpuRegisters::new();
    let mut memory = Memory::new();
    let mut instruction = Instruction::new();
    registers.sp = 0xFFFE;
    registers.ld_16bit_reg(Register16Bit::DE, 0xBEEF);
    instruction.push_16bit_reg(&mut registers, &mut memory, Register16Bit::DE);
    assert_eq!(registers.sp, 0xFFFC);
    assert_eq!(bus_read(&memory, 0xFFFD), Some(0xBE));
    assert_eq!(bus_read(&memory, 0xFFFC), Some(0xEF));
    registers.ld_16bit_reg(Register16Bit::DE, 0);
    instruction.pop_16bit_reg(&mut registers, &mut memory, Register16Bit::DE);
    assert_eq!(registers.get_16bit_reg_value(Register16Bit::DE), 0xBEEF);
    assert_eq!(registers.sp, 0xFFFE);
}

#[test]
fn pop_af_clears_the_low_nibble() {
    let mut registers = CpuRegisters::new();
    let mut memory = Memory::new();
    let mut instruction = Instruction::new();
    registers.sp = 0xD000;
    registers.ld_16bit_reg(Register16Bit::BC, 0x12FF);
    instruction.push_16bit_reg(&mut registers, &mut memory, Register16Bit::BC);
    instruction.pop_16bit_reg(&mut registers, &mut memory, Register16Bit::AF);
    assert_eq!((registers.a, registers.f), (0x12, 0xF0));
}

#[test]
fn call_then_ret_returns_after_the_call() {
    let mut memory = Memory::new();
    let mut cpu = Cpu::new();
    cpu.registers.pc = 0xC000;
    cpu.registers.sp = 0xE000;
    for (i, b) in [0xCD, 0x00, 0xD0].iter().enumerate() {
        bus_write(&mut memory, 0xC000 + i as u16, *b);
    }
    bus_write(&mut memory, 0xD000, 0xC9);
    assert_eq!(cpu.step(&mut memory), 24);
    assert_eq!(cpu.registers.pc, 0xD000);
    assert_eq!(bus_read_16bit_value(&memory, cpu.registers.sp), Some(0xC003));
    assert_eq!(cpu.step(&mut memory), 16);
    assert_eq!(cpu.registers.pc, 0xC003);
    assert_eq!(cpu.registers.sp, 0xE000);
}

#[test]
fn step_runs_a_small_program_until_halt() {
    let mut memory = Memory::new();
    let mut cpu = Cpu::new();
    cpu.registers.pc = 0xC100;
    for (i, b) in [0x3E, 0x12, 0x3C, 0x76].iter().enumerate() {
        bus_write(&mut memory, 0xC100 + i as u16, *b);
    }
    assert_eq!(cpu.step(&mut memory), 8);
    assert_eq!(cpu.step(&mut memory), 4);
    assert_eq!(cpu.registers.a, 0x13);
    assert_eq!(cpu.step(&mut memory), 4);
    assert!(cpu.halted);
    let pc = cpu.registers.pc;
    assert_eq!(cpu.step(&mut memory), 4);
    assert_eq!(cpu.registers.pc, pc);
}

#[test]
fn plain_memory_reads_back_writes() {
    let mut memory = Memory::new();
    bus_write(&mut memory, 0xC234, 0xAB);
    assert_eq!(bus_read(&memory, 0xC234), Some(0xAB));
    bus_write(&mut memory, 0xFFFF, 0x01);
    bus_write(&mut memory, 0x0000, 0x02);
    assert_eq!(bus_read_16bit_value(&memory, 0xFFFF), Some(0xFF01));
}

#[test]
fn controller_writes_without_a_cartridge() {
    let mut memory = Memory::new();
    bus_write(&mut memory, 0x2000, 5);
    assert_eq!(memory.data[0x2000], 0);
    assert_eq!(bus_read(&memory, 0x2000), Some(0xFF));
    assert_eq!(bus_read(&memory, 0x4000), Some(0xFF));
    bus_write(&mut memory, 0xA000, 0x33);
    assert_eq!(bus_read(&memory, 0xA000), Some(0x33));
}

fn banked_cartridge() -> Memory {
    let mut rom = vec![0u8; 0x4000 * 8];
    for bank in 0..8 {
        rom[bank * 0x4000] = bank as u8;
        rom[bank * 0x4000 + 1] = 0x80 | bank as u8;
    }
    Memory::with_catridge(Catridge::new(rom, 0x8000, vec![CatridgeType::Mbc1, CatridgeType::Ram]))
}

#[test]
fn rom_bank_selection() {
    let mut memory = banked_cartridge();
    assert_eq!(bus_read(&memory, 0x0000), Some(0));
    assert_eq!(bus_read(&memory, 0x4000), Some(1));
    bus_write(&mut memory, 0x2000, 5);
    assert_eq!(bus_read(&memory, 0x4000), Some(5));
    assert_eq!(bus_read(&memory, 0x4001), Some(0x85));
    bus_write(&mut memory, 0x2000, 0);
    assert_eq!(bus_read(&memory, 0x4000), Some(1));
    bus_write(&mut memory, 0x3FFF, 0x20);
    assert_eq!(bus_read(&memory, 0x4000), Some(1));
    assert_eq!(bus_read(&memory, 0x0000), Some(0));
}

#[test]
fn rom_writes_do_not_change_rom() {
    let mut memory = banked_cartridge();
    bus_write(&mut memory, 0x0001, 0x55);
    assert_eq!(bus_read(&memory, 0x0001), Some(0x80));
}

#[test]
fn external_ram_is_gated_and_banked() {
    let mut memory = banked_cartridge();
    bus_write(&mut memory, 0xA000, 0x42);
    assert_eq!(bus_read(&memory, 0xA000), Some(0xFF));
    bus_write(&mut memory, 0x0000, 0x0A);
    bus_write(&mut memory, 0xA000, 0x42);
    assert_eq!(bus_read(&memory, 0xA000), Some(0x42));
    bus_write(&mut memory, 0x4000, 0x01);
    assert_eq!(bus_read(&memory, 0xA000), Some(0x00));
    bus_write(&mut memory, 0xA000, 0x17);
    bus_write(&mut memory, 0x4000, 0x00);
    assert_eq!(bus_read(&memory, 0xA000), Some(0x42));
    bus_write(&mut memory, 0x1000, 0x00);
    assert_eq!(bus_read(&memory, 0xA000), Some(0xFF));
}

#[test]
fn advanced_mode_moves_the_upper_bank_bits() {
    let mut rom = vec![0u8; 0x4000 * 0x41];
    rom[0x4000 * 0x21] = 0x21;
    rom[0x4000 * 0x20] = 0x20;
    let mut memory =
        Memory::with_catridge(Catridge::new(rom, 0x8000, vec![CatridgeType::Mbc1]));
    bus_write(&mut memory, 0x6000, 0x01);
    bus_write(&mut memory, 0x4000, 0x01);
    assert_eq!(bus_read(&memory, 0x4000), Some(0x21));
    assert_eq!(bus_read(&memory, 0x0000), Some(0x20));
}

#[test]
fn external_ram_bank_is_the_ram_bank_register_in_either_mode() {
    let mut memory = banked_cartridge();
    bus_write(&mut memory, 0x0000, 0x0A);
    bus_write(&mut memory, 0x4000, 0x02);
    bus_write(&mut memory, 0xA010, 0x5C);
    bus_write(&mut memory, 0x6000, 0x01);
    assert_eq!(bus_read(&memory, 0xA010), Some(0x5C));
    bus_write(&mut memory, 0xA011, 0x6D);
    bus_write(&mut memory, 0x6000, 0x00);
    assert_eq!(bus_read(&memory, 0xA011), Some(0x6D));
    bus_write(&mut memory, 0x4000, 0x00);
    assert_eq!(bus_read(&memory, 0xA010), Some(0x00));
}

#[test]
fn working_ram_reads_back_with_a_cartridge() {
    let mut memory = banked_cartridge();
    bus_write(&mut memory, 0xC123, 0x99);
    assert_eq!(bus_read(&memory, 0xC123), Some(0x99));
    bus_write(&mut memory, 0x8000, 0x11);
    assert_eq!(bus_read(&memory, 0x8000), Some(0x11));
}

#[test]
fn load_section_copies_from_start() {
    let mut memory = Memory::new();
    memory.load_section(2, &[1, 2, 3, 4, 5]);
    assert_eq!(memory.data[1], 0);
    assert_eq!(memory.data[2], 3);
    assert_eq!(memory.data[4], 5);
    assert_eq!(memory.check(0, 0), Some(()));
}

#[test]
fn get_bit_extracts_one_bit() {
    assert_eq!(blazeboy::get_bit(0b1010_0000, 7), 1);
    assert_eq!(blazeboy::get_bit(0b1010_0000, 6), 0);
    assert_eq!(blazeboy::get_bit(0b1010_0000, 5), 1);
}

#[test]
fn logical_immediates_use_their_operator() {
    let mut memory = Memory::new();
    let mut cpu = Cpu::new();
    cpu.registers.pc = 0xC000;
    cpu.registers.a = 0xF0;
    for (i, b) in [0xE6, 0x3C, 0xF6, 0x01, 0xEE, 0xFF].iter().enumerate() {
        bus_write(&mut memory, 0xC000 + i as u16, *b);
    }
    cpu.step(&mut memory);
    assert_eq!(cpu.registers.a, 0x30);
    cpu.step(&mut memory);
    assert_eq!(cpu.registers.a, 0x31);
    cpu.step(&mut memory);
    assert_eq!(cpu.registers.a, 0xCE);
}

#[test]
fn mutable_register_reference() {
    let mut registers = CpuRegisters::new();
    *registers.get_mut_8bit_reg_value(Register8Bit::E) = 0x5E;
    assert_eq!(registers.e, 0x5E);
    *registers.get_mut_8bit_reg_value(Register8Bit::Unmapped) = 0x11;
    assert_eq!(registers.a, 0x11);
}
