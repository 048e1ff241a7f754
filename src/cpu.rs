use vstd::prelude::*;

use crate::execute::{branch_taken, effect, timing, writes_pc};
use crate::fetch::{cb_command, primary_command, Command};
use crate::instruction::{wrap16, Instruction};
use crate::memory::{bus_read, Memory, MemoryView};
use crate::register::{CpuRegisters, Register16Bit};

verus! {

/// The processor: its registers and whether it is halted.
pub struct Cpu {
    pub registers: CpuRegisters,
    pub halted: bool,
}

/// The opcode byte that selects the command at `pc` (the byte after the
/// prefix for a CB opcode) and that command.
pub open spec fn decoded_at(m: MemoryView, pc: u16) -> (u8, Command) {
    let op = m.read(pc);
    if primary_command(op) == Command::CB {
        let op2 = m.read(wrap16(pc + 1));
        (op2, cb_command(op2))
    } else {
        (op, primary_command(op))
    }
}

impl Cpu {
    pub fn new() -> (r: Self)
        ensures
            r.registers.a == 0 && r.registers.b == 0 && r.registers.c == 0,
            r.registers.d == 0 && r.registers.e == 0 && r.registers.f == 0,
            r.registers.h == 0 && r.registers.l == 0,
            r.registers.sp == 0 && r.registers.pc == 0,
            !r.halted,
    {
        Cpu { registers: CpuRegisters::new(), halted: false }
    }

    /// Runs one instruction and returns the T-cycles it took. A halted CPU
    /// stays as it is and takes 4.
    pub fn step(&mut self, memory: &mut Memory) -> (cycles: u8)
        requires
            old(memory).wf(),
        ensures
            final(memory).wf(),
            old(self).halted ==> *final(self) == *old(self) && final(memory)@ == old(memory)@
                && cycles == 4,
            !old(self).halted ==> ({
                let (opcode, command) = decoded_at(old(memory)@, old(self).registers.pc);
                let t = timing(command, branch_taken(command, old(self).registers.f));
                let e = effect(command, opcode, old(self).registers, old(memory)@);
                &&& cycles == t.1
                &&& final(memory)@ == e.1
                &&& final(self).registers == e.0.with_reg16(
                    Register16Bit::PC,
                    wrap16(e.0.pc + t.0),
                )
                &&& !writes_pc(command) ==> final(self).registers.pc == wrap16(
                    old(self).registers.pc + t.0,
                )
                &&& final(self).halted == (command == Command::HALT)
            }),
            old(self).registers.flags_clean() ==> final(self).registers.flags_clean(),
    {
        if self.halted {
            return 4;
        }
        let pc = self.registers.pc;
        let first = bus_read(memory, pc).unwrap();
        let command = Command::get_instruction(first);
        let (opcode, command) = match command {
            Command::CB => {
                let second = bus_read(memory, pc.wrapping_add(1)).unwrap();
                (second, Command::get_instruction_cb(second))
            },
            _ => (first, command),
        };
        let mut instruction = Instruction::new();
        instruction.execute(&mut self.registers, memory, opcode, command);
        self.registers.pc = self.registers.pc.wrapping_add(instruction.length as u16);
        self.halted = match command {
            Command::HALT => true,
            _ => false,
        };
        instruction.cycle
    }
}

} // verus!
