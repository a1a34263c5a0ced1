//! The two-chip address spaces: the CPU's bus, whose PPU window belongs
//! to the PPU, the PPU's own bus, and the router that serves one request
//! of each per tick.
use crate::header::Header;
use crate::utils::{copy_into, zeroed};
use vstd::prelude::*;

verus! {

/// Bytes of internal RAM on the CPU bus.
pub const CPU_RAM_SIZE: usize = 0x0800;

/// Bytes of APU and I/O registers.
pub const CPU_APU_IO_SIZE: usize = 0x0018;

/// Bytes of APU and I/O test registers.
pub const CPU_IO_TEST_SIZE: usize = 0x0008;

/// Bytes of cartridge space.
pub const CPU_CARTRIDGE_SIZE: usize = 0xBFE0;

/// Backing bytes of the CPU bus.
pub const CPU_CELLS: usize = 0xC800;

/// Bytes of pattern tables, where character data is loaded.
pub const PATTERN_TABLE_SIZE: usize = 0x2000;

/// Bytes of nametable memory.
pub const NAMETABLE_SIZE: usize = 0x1000;

/// Bytes of palette memory.
pub const PALETTE_SIZE: usize = 0x0020;

/// Backing bytes of the PPU bus.
pub const PPU_CELLS: usize = 0x3020;

/// The backing byte of the CPU bus that an address reaches, indexing the
/// concatenation RAM, APU/IO, APU/IO test, cartridge; `None` in the PPU
/// register window 0x2000-0x3FFF, which the CPU bus does not hold.
pub open spec fn cpu_cell(addr: u16) -> Option<int> {
    if addr < 0x2000 {
        Some((addr % 0x800) as int)
    } else if addr < 0x4000 {
        None
    } else if addr < 0x4018 {
        Some(0x800 + (addr - 0x4000))
    } else if addr < 0x4020 {
        Some(0x818 + (addr - 0x4018))
    } else {
        Some(0x820 + (addr - 0x4020))
    }
}

/// Whether a CPU access to `addr` belongs to the PPU: the CPU bus drops
/// such writes and reads such addresses as 0, which a front end may want
/// to report.
pub fn routes_to_ppu(addr: u16) -> (r: bool)
    ensures
        r == cpu_cell(addr) is None,
{
    0x2000 <= addr && addr < 0x4000
}

/// The backing byte of the PPU bus that an address reaches, indexing the
/// concatenation pattern tables, nametables, palette; `None` from 0x4000
/// on, which the PPU bus does not map.
pub open spec fn ppu_cell(addr: u16) -> Option<int> {
    if addr < 0x2000 {
        Some(addr as int)
    } else if addr < 0x3F00 {
        Some(0x2000 + (addr - 0x2000) % 0x1000)
    } else if addr < 0x4000 {
        Some(0x3000 + (addr - 0x3F00) % 0x20)
    } else {
        None
    }
}

/// What a read returns from a bus with backing bytes `mem`: the byte of
/// the cell, or 0 for an unmapped address.
pub open spec fn read_cell(mem: Seq<u8>, cell: Option<int>) -> u8 {
    match cell {
        Some(i) => mem[i],
        None => 0,
    }
}

/// The backing bytes after a write: the cell changes, and a write to an
/// unmapped address is dropped.
pub open spec fn write_cell(mem: Seq<u8>, cell: Option<int>, byte: u8) -> Seq<u8> {
    match cell {
        Some(i) => mem.update(i, byte),
        None => mem,
    }
}

/// The CPU's side of the address space when a PPU is attached.
pub struct CPU_Memory {
    internal_ram: Vec<u8>,
    audio_and_io: Vec<u8>,
    io_functionality: Vec<u8>,
    cartridge_space: Vec<u8>,
}

impl View for CPU_Memory {
    type V = Seq<u8>;

    closed spec fn view(&self) -> Seq<u8> {
        self.internal_ram@ + self.audio_and_io@ + self.io_functionality@ + self.cartridge_space@
    }
}

impl CPU_Memory {
    pub closed spec fn wf(&self) -> bool {
        &&& self.internal_ram@.len() == CPU_RAM_SIZE
        &&& self.audio_and_io@.len() == CPU_APU_IO_SIZE
        &&& self.io_functionality@.len() == CPU_IO_TEST_SIZE
        &&& self.cartridge_space@.len() == CPU_CARTRIDGE_SIZE
    }

    /// Zeroed memory with the program image at the top of cartridge space.
    pub fn new(program_rom: &[u8], program_size: usize) -> (r: CPU_Memory)
        requires
            program_rom@.len() == program_size,
            program_size <= CPU_CARTRIDGE_SIZE,
        ensures
            r.wf(),
            r@ == Seq::new((CPU_CELLS - program_size) as nat, |i: int| 0u8) + program_rom@,
    {
        let mut r = CPU_Memory {
            internal_ram: zeroed(CPU_RAM_SIZE),
            audio_and_io: zeroed(CPU_APU_IO_SIZE),
            io_functionality: zeroed(CPU_IO_TEST_SIZE),
            cartridge_space: zeroed(CPU_CARTRIDGE_SIZE),
        };
        copy_into(&mut r.cartridge_space, CPU_CARTRIDGE_SIZE - program_size, program_rom);
        assert(r@ =~= Seq::new((CPU_CELLS - program_size) as nat, |i: int| 0u8) + program_rom@);
        r
    }

    /// Writes a byte; a write into the PPU window is dropped.
    pub fn write(&mut self, addr: u16, byte: u8)
        requires
            old(self).wf(),
        ensures
            final(self).wf(),
            final(self)@ == write_cell(old(self)@, cpu_cell(addr), byte),
    {
        if addr < 0x2000 {
            self.internal_ram.set((addr % 0x800) as usize, byte);
        } else if addr < 0x4000 {
        } else if addr < 0x4018 {
            self.audio_and_io.set((addr - 0x4000) as usize, byte);
        } else if addr < 0x4020 {
            self.io_functionality.set((addr - 0x4018) as usize, byte);
        } else {
            self.cartridge_space.set((addr - 0x4020) as usize, byte);
        }
        assert(self@ =~= write_cell(old(self)@, cpu_cell(addr), byte));
    }

    /// Reads a byte; a read in the PPU window returns 0.
    pub fn read(&self, addr: u16) -> (r: u8)
        requires
            self.wf(),
        ensures
            r == read_cell(self@, cpu_cell(addr)),
    {
        if addr < 0x2000 {
            self.internal_ram[(addr % 0x800) as usize]
        } else if addr < 0x4000 {
            0
        } else if addr < 0x4018 {
            self.audio_and_io[(addr - 0x4000) as usize]
        } else if addr < 0x4020 {
            self.io_functionality[(addr - 0x4018) as usize]
        } else {
            self.cartridge_space[(addr - 0x4020) as usize]
        }
    }
}

/// The PPU's address space: pattern tables, nametables (mirrored over
/// 0x2000-0x3EFF) and palette (mirrored over 0x3F00-0x3FFF).
pub struct PPU_Memory {
    pattern_table: Vec<u8>,
    nametable: Vec<u8>,
    palette_ram: Vec<u8>,
}

impl View for PPU_Memory {
    type V = Seq<u8>;

    closed spec fn view(&self) -> Seq<u8> {
        self.pattern_table@ + self.nametable@ + self.palette_ram@
    }
}

impl PPU_Memory {
    pub closed spec fn wf(&self) -> bool {
        &&& self.pattern_table@.len() == PATTERN_TABLE_SIZE
        &&& self.nametable@.len() == NAMETABLE_SIZE
        &&& self.palette_ram@.len() == PALETTE_SIZE
    }

    /// Zeroed memory with the character data at the start of the pattern
    /// tables.
    pub fn new(character_rom: &[u8], character_size: usize) -> (r: PPU_Memory)
        requires
            character_rom@.len() == character_size,
            character_size <= PATTERN_TABLE_SIZE,
        ensures
            r.wf(),
            r@ == character_rom@ + Seq::new((PPU_CELLS - character_size) as nat, |i: int| 0u8),
    {
        let mut r = PPU_Memory {
            pattern_table: zeroed(PATTERN_TABLE_SIZE),
            nametable: zeroed(NAMETABLE_SIZE),
            palette_ram: zeroed(PALETTE_SIZE),
        };
        r.load_pattern_table(character_rom, character_size);
        assert(r@ =~= character_rom@ + Seq::new((PPU_CELLS - character_size) as nat, |i: int| 0u8));
        r
    }

    /// Copies character data to the start of the pattern tables.
    pub fn load_pattern_table(&mut self, character_rom: &[u8], character_size: usize)
        requires
            old(self).wf(),
            character_rom@.len() == character_size,
            character_size <= PATTERN_TABLE_SIZE,
        ensures
            final(self).wf(),
            final(self)@ == character_rom@ + old(self)@.subrange(
                character_size as int,
                PPU_CELLS as int,
            ),
    {
        copy_into(&mut self.pattern_table, 0, character_rom);
        assert(self@ =~= character_rom@ + old(self)@.subrange(
            character_size as int,
            PPU_CELLS as int,
        ));
    }

    /// Writes a byte; a write from 0x4000 on is dropped.
    pub fn write(&mut self, addr: u16, byte: u8)
        requires
            old(self).wf(),
        ensures
            final(self).wf(),
            final(self)@ == write_cell(old(self)@, ppu_cell(addr), byte),
    {
        if addr < 0x2000 {
            self.pattern_table.set(addr as usize, byte);
        } else if addr < 0x3F00 {
            self.nametable.set(((addr - 0x2000) % 0x1000) as usize, byte);
        } else if addr < 0x4000 {
            self.palette_ram.set(((addr - 0x3F00) % 0x20) as usize, byte);
        }
        assert(self@ =~= write_cell(old(self)@, ppu_cell(addr), byte));
    }

    /// Reads a byte; a read from 0x4000 on returns 0.
    pub fn read(&self, addr: u16) -> (r: u8)
        requires
            self.wf(),
        ensures
            r == read_cell(self@, ppu_cell(addr)),
    {
        if addr < 0x2000 {
            self.pattern_table[addr as usize]
        } else if addr < 0x3F00 {
            self.nametable[((addr - 0x2000) % 0x1000) as usize]
        } else if addr < 0x4000 {
            self.palette_ram[((addr - 0x3F00) % 0x20) as usize]
        } else {
            0
        }
    }
}

/// One bus request: the CPU and the PPU each issue one every tick.
#[derive(Clone, Copy, Debug, PartialEq, Eq, Structural)]
pub enum Memory_Request {
    Read(u16),
    Write(u16, u8),
}

/// The bytes that the two requests of a tick read, if they were reads.
#[derive(Clone, Copy, Debug, PartialEq, Eq, Structural)]
pub struct Memory_Response {
    pub cpu_response: Option<u8>,
    pub ppu_response: Option<u8>,
}

/// Both buses of the machine.
pub struct Memory {
    pub cpu: CPU_Memory,
    pub ppu: PPU_Memory,
}

/// A bus after a request: changed by a write, unchanged by a read.
pub open spec fn after_request(mem: Seq<u8>, cell_of: spec_fn(u16) -> Option<int>, req: Memory_Request) -> Seq<u8> {
    match req {
        Memory_Request::Read(_) => mem,
        Memory_Request::Write(addr, byte) => write_cell(mem, cell_of(addr), byte),
    }
}

/// What a request reads: the byte for a read, nothing for a write.
pub open spec fn response(mem: Seq<u8>, cell_of: spec_fn(u16) -> Option<int>, req: Memory_Request) -> Option<u8> {
    match req {
        Memory_Request::Read(addr) => Some(read_cell(mem, cell_of(addr))),
        Memory_Request::Write(_, _) => None,
    }
}

impl Memory {
    pub open spec fn wf(&self) -> bool {
        self.cpu.wf() && self.ppu.wf()
    }

    /// Builds both buses from an image without its header: program data
    /// first, then character data.
    pub fn new(head: Header, bytes: &[u8]) -> (r: Memory)
        requires
            head.program_size <= CPU_CARTRIDGE_SIZE,
            head.character_size <= PATTERN_TABLE_SIZE,
            head.program_size + head.character_size <= bytes@.len(),
        ensures
            r.wf(),
            r.cpu@ == Seq::new((CPU_CELLS - head.program_size) as nat, |i: int| 0u8)
                + bytes@.subrange(0, head.program_size as int),
            r.ppu@ == bytes@.subrange(head.program_size as int, head.program_size + head.character_size)
                + Seq::new((PPU_CELLS - head.character_size) as nat, |i: int| 0u8),
    {
        let program_size = head.program_size as usize;
        let character_size = head.character_size as usize;
        let program = vstd::slice::slice_subrange(bytes, 0, program_size);
        let character = vstd::slice::slice_subrange(bytes, program_size, program_size + character_size);
        Memory {
            cpu: CPU_Memory::new(program, program_size),
            ppu: PPU_Memory::new(character, character_size),
        }
    }

    /// Serves the CPU's request, then the PPU's.
    pub fn request(&mut self, cpu_req: Memory_Request, ppu_req: Memory_Request) -> (r: Memory_Response)
        requires
            old(self).wf(),
        ensures
            final(self).wf(),
            final(self).cpu@ == after_request(old(self).cpu@, |a: u16| cpu_cell(a), cpu_req),
            final(self).ppu@ == after_request(old(self).ppu@, |a: u16| ppu_cell(a), ppu_req),
            r.cpu_response == response(old(self).cpu@, |a: u16| cpu_cell(a), cpu_req),
            r.ppu_response == response(old(self).ppu@, |a: u16| ppu_cell(a), ppu_req),
    {
        let mut response = Memory_Response { cpu_response: None, ppu_response: None };
        match cpu_req {
            Memory_Request::Read(addr) => response.cpu_response = Some(self.cpu.read(addr)),
            Memory_Request::Write(addr, byte) => self.cpu.write(addr, byte),
        }
        match ppu_req {
            Memory_Request::Read(addr) => response.ppu_response = Some(self.ppu.read(addr)),
            Memory_Request::Write(addr, byte) => self.ppu.write(addr, byte),
        }
        response
    }
}

/// On the CPU bus, a read after a write to the same address outside the
/// PPU window returns the byte written.
pub proof fn lemma_cpu_write_then_read(m: CPU_Memory, addr: u16, byte: u8)
    requires
        m.wf(),
        !(0x2000 <= addr < 0x4000),
    ensures
        read_cell(write_cell(m@, cpu_cell(addr), byte), cpu_cell(addr)) == byte,
{
}

/// On the PPU bus, a read after a write to the same mapped address
/// returns the byte written.
pub proof fn lemma_ppu_write_then_read(m: PPU_Memory, addr: u16, byte: u8)
    requires
        m.wf(),
        addr < 0x4000,
    ensures
        read_cell(write_cell(m@, ppu_cell(addr), byte), ppu_cell(addr)) == byte,
{
}

} // verus!
