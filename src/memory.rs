use vstd::prelude::*;

use crate::register::random_byte;
use crate::rom::{catridge_kinds, header_error, load_rom, ram_kib, Catridge, CatridgeType, RomError};

verus! {

/// Number of bytes in the CPU-visible address space.
pub const MEMORY_SIZE: usize = 65536;

/// The MBC1 banking mode.
#[derive(Clone, Copy, Debug, PartialEq, Eq, Structural)]
pub enum RomMode {
    Simple,
    Advanced,
}

/// The address space: 64 KiB of plain memory, a cartridge and the bank controller.
///
/// Without a ROM image (`Memory::new`) the ROM windows read 0xFF; writes to
/// 0x0000..=0x7FFF still drive the bank controller.
pub struct Memory {
    pub data: Vec<u8>,
    rom_bank_number: u16,
    ram_bank_number: u16,
    ram_access: bool,
    rom_mode: RomMode,
    catridge: Catridge,
}

/// What the bus sees of a `Memory`.
pub struct MemoryView {
    pub data: Seq<u8>,
    pub rom: Seq<u8>,
    pub ram: Seq<u8>,
    pub kinds: Seq<CatridgeType>,
    pub rom_bank: u16,
    pub ram_bank: u16,
    pub ram_access: bool,
    pub advanced: bool,
}

impl View for Memory {
    type V = MemoryView;

    closed spec fn view(&self) -> MemoryView {
        MemoryView {
            data: self.data@,
            rom: self.catridge.data@,
            ram: self.catridge.ram@,
            kinds: self.catridge.catridge_type@,
            rom_bank: self.rom_bank_number,
            ram_bank: self.ram_bank_number,
            ram_access: self.ram_access,
            advanced: self.rom_mode == RomMode::Advanced,
        }
    }
}

/// The byte at index `i` of `s`, or 0xFF (an undriven bus) past its end.
pub open spec fn byte_at(s: Seq<u8>, i: int) -> u8 {
    if 0 <= i < s.len() {
        s[i]
    } else {
        0xFF
    }
}

impl MemoryView {
    /// 64 KiB of plain memory; the ROM bank is never 0 in its low five bits
    /// and fits seven bits; the RAM bank fits two bits.
    pub open spec fn wf(self) -> bool {
        &&& self.data.len() == MEMORY_SIZE
        &&& self.rom_bank & 0x1F != 0
        &&& self.rom_bank <= 0x7F
        &&& self.ram_bank <= 3
    }

    pub open spec fn has_cartridge(self) -> bool {
        self.rom.len() > 0
    }

    pub open spec fn mbc1(self) -> bool {
        self.kinds.contains(CatridgeType::Mbc1)
    }

    pub open spec fn mbc2(self) -> bool {
        self.kinds.contains(CatridgeType::Mbc2)
    }

    /// Index into external RAM of an address in 0xA000..=0xBFFF: for MBC1,
    /// `(ram_bank << 13) | (addr & 0x1FFF)` in either mode, so that reads and
    /// writes use one bank register; for MBC2, one of 512 nibbles.
    pub open spec fn ram_index(self, addr: u16) -> int {
        if self.mbc1() {
            self.ram_bank * 0x2000 + (addr & 0x1FFFu16) as int
        } else {
            (addr & 0x1FFu16) as int
        }
    }

    /// The byte that a read of `addr` returns.
    pub open spec fn read(self, addr: u16) -> u8 {
        if addr <= 0x3FFF {
            if self.advanced {
                byte_at(self.rom, (self.rom_bank & 0x60u16) as int * 0x4000 + addr as int)
            } else {
                byte_at(self.rom, addr as int)
            }
        } else if addr <= 0x7FFF {
            byte_at(self.rom, self.rom_bank as int * 0x4000 + (addr - 0x4000))
        } else if 0xA000 <= addr <= 0xBFFF && (self.mbc1() || self.mbc2()) {
            if self.ram_access {
                byte_at(self.ram, self.ram_index(addr))
            } else {
                0xFF
            }
        } else {
            self.data[addr as int]
        }
    }

    /// The state after a write of `value` to `addr`.
    pub open spec fn written(self, addr: u16, value: u8) -> MemoryView {
        if addr <= 0x1FFF {
            MemoryView { ram_access: value & 0xFu8 == 0xAu8, ..self }
        } else if addr <= 0x3FFF {
            let low = if value & 0x1Fu8 == 0 { 1u8 } else { value & 0x1Fu8 };
            MemoryView { rom_bank: (self.rom_bank & 0x60u16) | (low as u16), ..self }
        } else if addr <= 0x5FFF {
            if self.advanced {
                MemoryView {
                    rom_bank: (((value & 3u8) as u16) << 5u16) | (self.rom_bank & 0x1Fu16),
                    ..self
                }
            } else {
                MemoryView { ram_bank: (value & 3u8) as u16, ..self }
            }
        } else if addr <= 0x7FFF {
            MemoryView { advanced: value & 1u8 == 1u8, ..self }
        } else if 0xA000 <= addr <= 0xBFFF && (self.mbc1() || self.mbc2()) {
            let i = self.ram_index(addr);
            if self.ram_access && 0 <= i < self.ram.len() {
                let v = if self.mbc1() { value } else { value & 0xFu8 };
                MemoryView { ram: self.ram.update(i, v), ..self }
            } else {
                self
            }
        } else {
            MemoryView { data: self.data.update(addr as int, value), ..self }
        }
    }

    /// The little-endian 16-bit value at `addr` and `addr + 1` (wrapping).
    pub open spec fn read16(self, addr: u16) -> u16 {
        crate::register::pair(self.read(((addr as int + 1) % 0x10000) as u16), self.read(addr))
    }
}

/// Whether `addr` is plain memory whatever the cartridge: 0x8000..=0x9FFF and
/// 0xC000..=0xFFFF.
pub open spec fn plain_address(addr: u16) -> bool {
    0x8000 <= addr <= 0x9FFF || 0xC000 <= addr
}

fn rom_byte(s: &Vec<u8>, i: usize) -> (r: u8)
    ensures
        r == byte_at(s@, i as int),
{
    if i < s.len() {
        s[i]
    } else {
        0xFF
    }
}

impl Memory {
    pub open spec fn wf(&self) -> bool {
        self@.wf()
    }

    /// Plain zeroed memory without a cartridge.
    pub fn new() -> (r: Memory)
        ensures
            r.wf(),
            r@.data == Seq::new(MEMORY_SIZE as nat, |i: int| 0u8),
            !r@.has_cartridge(),
            r@.rom_bank == 1,
            r@.ram_bank == 0,
            !r@.ram_access,
            !r@.advanced,
    {
        let data = vec![0u8; MEMORY_SIZE];
        assert(data@ =~= Seq::new(MEMORY_SIZE as nat, |i: int| 0u8));
        assert(1u16 & 0x1F != 0) by (bit_vector);
        Memory {
            data,
            catridge: Catridge::new_empty(),
            rom_mode: RomMode::Simple,
            ram_bank_number: 0,
            rom_bank_number: 1,
            ram_access: false,
        }
    }

    /// Zeroed memory in front of `catridge`, in Simple mode with ROM bank 1.
    pub fn with_catridge(catridge: Catridge) -> (r: Memory)
        ensures
            r.wf(),
            r@.data == Seq::new(MEMORY_SIZE as nat, |i: int| 0u8),
            r@.rom == catridge.data@,
            r@.ram == catridge.ram@,
            r@.kinds == catridge.catridge_type@,
            r@.rom_bank == 1,
            r@.ram_bank == 0,
            !r@.ram_access,
            !r@.advanced,
    {
        let data = vec![0u8; MEMORY_SIZE];
        assert(data@ =~= Seq::new(MEMORY_SIZE as nat, |i: int| 0u8));
        assert(1u16 & 0x1F != 0) by (bit_vector);
        Memory {
            data,
            catridge,
            rom_mode: RomMode::Simple,
            ram_bank_number: 0,
            rom_bank_number: 1,
            ram_access: false,
        }
    }

    /// Memory in front of the cartridge whose image is `data`, with zeroed
    /// external RAM of the size its header gives; refused with the first
    /// header check that fails.
    pub fn from_rom(data: Vec<u8>) -> (r: Result<Memory, RomError>)
        ensures
            header_error(data@).is_some() ==> r == Err::<Memory, RomError>(
                header_error(data@).unwrap(),
            ),
            header_error(data@).is_none() ==> r is Ok && ({
                let m = r->Ok_0;
                &&& m.wf()
                &&& m@.rom == data@
                &&& m@.kinds == catridge_kinds(data@[0x147])
                &&& m@.ram.len() == ram_kib(data@[0x149]).unwrap() as int * 1024
                &&& m@.rom_bank == 1
                &&& !m@.ram_access
                &&& !m@.advanced
            }),
    {
        match load_rom(&data) {
            Ok(info) => {
                let ram_size = info.ram_size as usize * 1024;
                let catridge = Catridge::new(data, ram_size, info.catridge_type);
                Ok(Memory::with_catridge(catridge))
            },
            Err(e) => Err(e),
        }
    }

    /// Memory without a cartridge, filled with arbitrary bytes.
    pub fn new_random_values() -> (r: Memory)
        ensures
            r.wf(),
            !r@.has_cartridge(),
            r@.rom_bank == 1,
            r@.ram_bank == 0,
            !r@.ram_access,
            !r@.advanced,
    {
        let mut data: Vec<u8> = Vec::new();
        let mut i: usize = 0;
        while i < MEMORY_SIZE
            invariant
                i <= MEMORY_SIZE,
                data@.len() == i,
            decreases MEMORY_SIZE - i,
        {
            data.push(random_byte());
            i = i + 1;
        }
        assert(1u16 & 0x1F != 0) by (bit_vector);
        Memory {
            data,
            catridge: Catridge::new_empty(),
            rom_mode: RomMode::Simple,
            rom_bank_number: 1,
            ram_bank_number: 0,
            ram_access: false,
        }
    }

    /// Copies `data[i]` into the memory array at `i` for each `i` in `start..data.len()`.
    pub fn load_section(&mut self, start: usize, data: &[u8])
        requires
            old(self).wf(),
            data@.len() <= MEMORY_SIZE,
        ensures
            final(self).wf(),
            final(self)@ == (MemoryView {
                data: Seq::new(
                    MEMORY_SIZE as nat,
                    |i: int|
                        if start <= i < data@.len() {
                            data@[i]
                        } else {
                            old(self)@.data[i]
                        },
                ),
                ..old(self)@
            }),
    {
        let mut i: usize = start;
        assert(self@.data =~= Seq::new(
            MEMORY_SIZE as nat,
            |j: int|
                if start <= j < i && j < data@.len() {
                    data@[j]
                } else {
                    old(self)@.data[j]
                },
        ));
        while i < data.len()
            invariant
                self.wf(),
                data@.len() <= MEMORY_SIZE,
                start <= i || data@.len() <= i,
                self@ == (MemoryView {
                    data: Seq::new(
                        MEMORY_SIZE as nat,
                        |j: int|
                            if start <= j < i && j < data@.len() {
                                data@[j]
                            } else {
                                old(self)@.data[j]
                            },
                    ),
                    ..old(self)@
                }),
            decreases data@.len() - i,
        {
            self.data.set(i, data[i]);
            i = i + 1;
            assert(self@.data =~= Seq::new(
                MEMORY_SIZE as nat,
                |j: int|
                    if start <= j < i && j < data@.len() {
                        data@[j]
                    } else {
                        old(self)@.data[j]
                    },
            ));
        }
        assert(self@.data =~= Seq::new(
            MEMORY_SIZE as nat,
            |j: int|
                if start <= j < data@.len() {
                    data@[j]
                } else {
                    old(self)@.data[j]
                },
        ));
    }

    /// Writes an arbitrary byte into the memory array at `addr`.
    pub fn set_random_number_at_addr(&mut self, data: u16)
        requires
            old(self).wf(),
        ensures
            final(self).wf(),
            final(self)@ == (MemoryView {
                data: old(self)@.data.update(data as int, final(self)@.data[data as int]),
                ..old(self)@
            }),
    {
        let v = random_byte();
        self.data.set(data as usize, v);
        assert(self@ == (MemoryView { data: old(self)@.data.update(data as int, v), ..old(self)@ }));
    }

    /// Accepts every write; nothing is checked.
    pub fn check(&mut self, addr: u16, data: u8) -> (r: Option<()>)
        ensures
            r == Some(()),
            *final(self) == *old(self),
    {
        Some(())
    }
}

/// The byte at `address` as the bus maps it.
pub fn bus_read(memory: &Memory, address: u16) -> (r: Option<u8>)
    requires
        memory.wf(),
    ensures
        r == Some(memory@.read(address)),
{
    let m = &memory.catridge;
    if address <= 0x3FFF {
        match memory.rom_mode {
            RomMode::Advanced => {
                let i = ((memory.rom_bank_number & 0x60) as usize) * 0x4000 + address as usize;
                Some(rom_byte(&m.data, i))
            },
            RomMode::Simple => Some(rom_byte(&m.data, address as usize)),
        }
    } else if address <= 0x7FFF {
        let i = (memory.rom_bank_number as usize) * 0x4000 + (address - 0x4000) as usize;
        Some(rom_byte(&m.data, i))
    } else if 0xA000 <= address && address <= 0xBFFF && (m.has_type(CatridgeType::Mbc1)
        || m.has_type(CatridgeType::Mbc2)) {
        if memory.ram_access {
            let i = ram_index(memory, address);
            Some(rom_byte(&m.ram, i))
        } else {
            Some(0xFF)
        }
    } else {
        Some(memory.data[address as usize])
    }
}

fn ram_index(memory: &Memory, address: u16) -> (r: usize)
    requires
        memory.wf(),
    ensures
        r as int == memory@.ram_index(address),
{
    if memory.catridge.has_type(CatridgeType::Mbc1) {
        (memory.ram_bank_number as usize) * 0x2000 + (address & 0x1FFF) as usize
    } else {
        (address & 0x1FF) as usize
    }
}

/// The little-endian 16-bit value at `addr` and `addr + 1`, the second address wrapping.
pub fn bus_read_16bit_value(memory: &Memory, addr: u16) -> (r: Option<u16>)
    requires
        memory.wf(),
    ensures
        r == Some(memory@.read16(addr)),
{
    let hi = bus_read(memory, addr.wrapping_add(1)).unwrap();
    let lo = bus_read(memory, addr).unwrap();
    Some(((hi as u16) << 8u16) | (lo as u16))
}

/// Writes `data` to `address`: plain memory, a bank controller command or
/// external RAM, as the address decides.
pub fn bus_write(memory: &mut Memory, address: u16, data: u8)
    requires
        old(memory).wf(),
    ensures
        final(memory).wf(),
        final(memory)@ == old(memory)@.written(address, data),
        final(memory)@.rom_bank != 0,
{
    proof {
        lemma_bank_bits(data, old(memory)@.rom_bank);
    }
    if address <= 0x1FFF {
        memory.ram_access = data & 0xF == 0xA;
    } else if address <= 0x3FFF {
        let low: u8 = if data & 0x1F == 0 { 1 } else { data & 0x1F };
        let old_bank = memory.rom_bank_number;
        memory.rom_bank_number = (old_bank & 0x60) | (low as u16);
    } else if address <= 0x5FFF {
        let two = data & 3;
        match memory.rom_mode {
            RomMode::Simple => memory.ram_bank_number = two as u16,
            RomMode::Advanced => {
                let old_bank = memory.rom_bank_number;
                memory.rom_bank_number = ((two as u16) << 5) | (old_bank & 0x1F);
            },
        }
    } else if address <= 0x7FFF {
        memory.rom_mode = if data & 1 == 1 {
            RomMode::Advanced
        } else {
            RomMode::Simple
        };
    } else if 0xA000 <= address && address <= 0xBFFF && (memory.catridge.has_type(
        CatridgeType::Mbc1,
    ) || memory.catridge.has_type(CatridgeType::Mbc2)) {
        let i = ram_index(memory, address);
        if memory.ram_access && i < memory.catridge.ram.len() {
            let v = if memory.catridge.has_type(CatridgeType::Mbc1) {
                data
            } else {
                data & 0xF
            };
            memory.catridge.ram.set(i, v);
        }
    } else {
        memory.data.set(address as usize, data);
    }
    proof {
        lemma_bank_nonzero(memory@.rom_bank);
    }
}

/// A byte written to plain memory reads back unchanged.
pub proof fn lemma_write_read(m: MemoryView, addr: u16, value: u8)
    requires
        m.wf(),
        plain_address(addr),
    ensures
        m.written(addr, value).read(addr) == value,
{
}

proof fn lemma_bank_nonzero(rb: u16)
    requires
        rb & 0x1F != 0,
    ensures
        rb != 0,
{
    assert(rb != 0) by (bit_vector)
        requires
            rb & 0x1F != 0,
    ;
}

/// A write to plain memory leaves every other address reading as before.
pub proof fn lemma_write_other(m: MemoryView, addr: u16, value: u8, other: u16)
    requires
        m.wf(),
        addr != other,
        plain_address(addr),
    ensures
        m.written(addr, value).read(other) == m.read(other),
{
}

/// Facts on the bank bits that a controller write computes.
proof fn lemma_bank_bits(value: u8, rb: u16)
    requires
        rb & 0x1F != 0,
    ensures
        value & 0x1Fu8 <= 0x1F,
        value & 3u8 <= 3,
        rb != 0,
        ((rb & 0x60u16) | (1u8 as u16)) & 0x1F != 0,
        ((rb & 0x60u16) | (1u8 as u16)) <= 0x7F,
        value & 0x1Fu8 != 0 ==> ((rb & 0x60u16) | ((value & 0x1Fu8) as u16)) & 0x1F != 0,
        value & 0x1Fu8 != 0 ==> ((rb & 0x60u16) | ((value & 0x1Fu8) as u16)) <= 0x7F,
        ((((value & 3u8) as u16) << 5u16) | (rb & 0x1Fu16)) & 0x1F != 0,
        ((((value & 3u8) as u16) << 5u16) | (rb & 0x1Fu16)) <= 0x7F,
{
    assert(value & 0x1Fu8 <= 0x1F) by (bit_vector);
    assert(value & 3u8 <= 3) by (bit_vector);
    assert(rb != 0) by (bit_vector)
        requires
            rb & 0x1F != 0,
    ;
    assert(((rb & 0x60u16) | (1u8 as u16)) & 0x1F != 0 && ((rb & 0x60u16) | (1u8 as u16)) <= 0x7F)
        by (bit_vector);
    assert(value & 0x1Fu8 != 0 ==> ((rb & 0x60u16) | ((value & 0x1Fu8) as u16)) & 0x1F != 0 && ((rb
        & 0x60u16) | ((value & 0x1Fu8) as u16)) <= 0x7F) by (bit_vector);
    assert(((((value & 3u8) as u16) << 5u16) | (rb & 0x1Fu16)) & 0x1F != 0 && ((((value & 3u8) as u16)
        << 5u16) | (rb & 0x1Fu16)) <= 0x7F) by (bit_vector)
        requires
            rb & 0x1F != 0,
    ;
}

/// Every write keeps the bus state well formed, so the ROM bank that the upper
/// window indexes is never 0.
pub proof fn lemma_rom_bank_never_zero(m: MemoryView, addr: u16, value: u8)
    requires
        m.wf(),
    ensures
        m.written(addr, value).wf(),
        m.written(addr, value).rom_bank != 0,
{
    lemma_bank_bits(value, m.rom_bank);
    lemma_bank_nonzero(m.written(addr, value).rom_bank);
}

} // verus!
