use vstd::prelude::*;

pub mod alu;
pub mod cpu;
pub mod execute;
pub mod fetch;
pub mod instruction;
pub mod memory;
pub mod register;
pub mod rom;

pub use cpu::Cpu;
pub use fetch::Command;
pub use instruction::{BitwiseOperator, Instruction};
pub use memory::{bus_read, bus_read_16bit_value, bus_write, Memory, RomMode};
pub use register::{CpuRegisters, Flag, Register16Bit, Register8Bit};
pub use rom::{load_rom, Catridge, CatridgeInfo, CatridgeType, RomError};

verus! {

/// Bit `pos` of `data`, as 0 or 1.
pub fn get_bit(data: u8, pos: u8) -> (r: u8)
    requires
        pos < 8,
    ensures
        r == (data >> pos) & 1,
        r <= 1,
{
    let r = (data >> pos) & 1;
    assert((data >> pos) & 1 <= 1) by (bit_vector);
    r
}

} // verus!
