//! The CPU register file, its single-chip memory bus and the cycle driver.
use crate::flags::Flags;
use crate::instructions::{
    decode_spec, entry, execute_spec, lemma_execute_branch, opcode_table, operate, Addressing,
    Instruction, Operation,
};
use crate::utils::{convert_addr, copy_into, page, word, wrap16, wrap8, zeroed};
use vstd::prelude::*;

verus! {

/// Bytes of internal RAM (mirrored four times over 0x0000-0x1FFF).
pub const RAM_SIZE: usize = 0x0800;

/// Bytes behind the PPU register window (mirrored over 0x2000-0x3FFF).
pub const PPU_REGISTERS_SIZE: usize = 0x0008;

/// Bytes of APU and I/O registers (0x4000-0x4017).
pub const APU_IO_SIZE: usize = 0x0018;

/// Bytes of APU and I/O test registers (0x4018-0x401F).
pub const IO_TEST_SIZE: usize = 0x0008;

/// Bytes of cartridge space (0x4020-0xFFFF).
pub const CARTRIDGE_SIZE: usize = 0xBFE0;

/// Number of distinct backing bytes of the single-chip bus.
pub const MEMORY_CELLS: usize = 0xC808;

/// The backing byte that an address reaches, as an index into the
/// concatenation RAM, PPU registers, APU/IO, APU/IO test, cartridge.
pub open spec fn cell_of(addr: u16) -> int {
    if addr < 0x2000 {
        (addr % 0x800) as int
    } else if addr < 0x4000 {
        0x800 + (addr - 0x2000) % 8
    } else if addr < 0x4018 {
        0x808 + (addr - 0x4000)
    } else if addr < 0x4020 {
        0x820 + (addr - 0x4018)
    } else {
        0x828 + (addr - 0x4020)
    }
}

/// The backing bytes of a freshly built bus: all zero.
pub open spec fn blank_memory() -> Seq<u8> {
    Seq::new(MEMORY_CELLS as nat, |i: int| 0u8)
}

/// The address space of a CPU without a PPU attached: every address is
/// backed by a byte, the PPU window by an eight-byte stub.
pub struct Memory {
    internal_ram: Vec<u8>,
    ppu_ram: Vec<u8>,
    audio_and_io: Vec<u8>,
    io_functionality: Vec<u8>,
    cartridge_space: Vec<u8>,
}

impl View for Memory {
    type V = Seq<u8>;

    /// All backing bytes, indexed by `cell_of`.
    closed spec fn view(&self) -> Seq<u8> {
        self.internal_ram@ + self.ppu_ram@ + self.audio_and_io@ + self.io_functionality@
            + self.cartridge_space@
    }
}

impl Memory {
    /// Each region has its size.
    pub closed spec fn wf(&self) -> bool {
        &&& self.internal_ram@.len() == RAM_SIZE
        &&& self.ppu_ram@.len() == PPU_REGISTERS_SIZE
        &&& self.audio_and_io@.len() == APU_IO_SIZE
        &&& self.io_functionality@.len() == IO_TEST_SIZE
        &&& self.cartridge_space@.len() == CARTRIDGE_SIZE
    }

    /// A well-formed bus has one byte per cell.
    pub proof fn lemma_len(&self)
        requires
            self.wf(),
        ensures
            self@.len() == MEMORY_CELLS,
    {
    }

    /// The byte that a read of `addr` returns.
    pub open spec fn peek(&self, addr: u16) -> u8 {
        self@[cell_of(addr)]
    }

    /// Every backing byte is zero.
    pub fn new() -> (r: Memory)
        ensures
            r.wf(),
            r@ == blank_memory(),
    {
        let r = Memory {
            internal_ram: zeroed(RAM_SIZE),
            ppu_ram: zeroed(PPU_REGISTERS_SIZE),
            audio_and_io: zeroed(APU_IO_SIZE),
            io_functionality: zeroed(IO_TEST_SIZE),
            cartridge_space: zeroed(CARTRIDGE_SIZE),
        };
        assert(r@ =~= blank_memory());
        r
    }

    pub fn read(&self, addr: u16) -> (r: u8)
        requires
            self.wf(),
        ensures
            r == self.peek(addr),
    {
        if addr < 0x2000 {
            self.internal_ram[(addr % 0x800) as usize]
        } else if addr < 0x4000 {
            self.ppu_ram[((addr - 0x2000) % 8) as usize]
        } else if addr < 0x4018 {
            self.audio_and_io[(addr - 0x4000) as usize]
        } else if addr < 0x4020 {
            self.io_functionality[(addr - 0x4018) as usize]
        } else {
            self.cartridge_space[(addr - 0x4020) as usize]
        }
    }

    pub fn write(&mut self, addr: u16, byte: u8)
        requires
            old(self).wf(),
        ensures
            final(self).wf(),
            final(self)@ == old(self)@.update(cell_of(addr), byte),
            final(self)@.len() == MEMORY_CELLS,
    {
        if addr < 0x2000 {
            self.internal_ram.set((addr % 0x800) as usize, byte);
        } else if addr < 0x4000 {
            self.ppu_ram.set(((addr - 0x2000) % 8) as usize, byte);
        } else if addr < 0x4018 {
            self.audio_and_io.set((addr - 0x4000) as usize, byte);
        } else if addr < 0x4020 {
            self.io_functionality.set((addr - 0x4018) as usize, byte);
        } else {
            self.cartridge_space.set((addr - 0x4020) as usize, byte);
        }
        assert(self@ =~= old(self)@.update(cell_of(addr), byte));
    }

    /// Places a program image at the top of cartridge space, so that its
    /// last byte lands at 0xFFFF.
    pub fn load_rom(&mut self, program_rom: &[u8], program_size: usize)
        requires
            old(self).wf(),
            program_rom@.len() == program_size,
            program_size <= CARTRIDGE_SIZE,
        ensures
            final(self).wf(),
            final(self)@ == old(self)@.subrange(0, MEMORY_CELLS - program_size) + program_rom@,
    {
        copy_into(&mut self.cartridge_space, CARTRIDGE_SIZE - program_size, program_rom);
        assert(self.cartridge_space@ =~= old(self).cartridge_space@.subrange(
            0,
            CARTRIDGE_SIZE - program_size,
        ) + program_rom@);
        assert(self@ =~= old(self)@.subrange(0, MEMORY_CELLS - program_size) + program_rom@);
    }
}

/// Where the cycle driver stands: about to fetch an opcode; `Execute(n)`,
/// with `n` cycles left to count down before the fetched instruction runs
/// (it runs in the cycle that finds `Execute(0)`); or `Delay(m)`, with `m`
/// penalty cycles left after it.
#[derive(Clone, Copy, Debug, PartialEq, Eq, Structural)]
pub enum CpuStates {
    Fetch,
    Execute(u8),
    Delay(u8),
}

/// The abstract state of a CPU: registers, the backing bytes of its bus
/// and the driver's state.
pub struct CpuView {
    pub accumulator: u8,
    pub reg_x: u8,
    pub reg_y: u8,
    pub program_counter: u16,
    pub stack_pointer: u8,
    pub status_flags: Flags,
    pub memory: Seq<u8>,
    pub state: CpuStates,
    pub inst: Option<Instruction>,
    pub cycle: u64,
}

/// The address in page 1 that a stack pointer designates.
pub open spec fn stack_addr(sp: u8) -> u16 {
    (0x100 + sp) as u16
}

/// The flags with zero and sign set from `v`.
pub open spec fn nz(f: Flags, v: u8) -> Flags {
    Flags { zero: v == 0, signed: v >= 0x80, ..f }
}

/// The value of an 8-bit branch offset read as two's complement.
pub open spec fn signed_offset(b: u8) -> int {
    if b < 0x80 {
        b as int
    } else {
        b - 256
    }
}

impl CpuView {
    /// The byte a read of `addr` returns.
    pub open spec fn read(self, addr: u16) -> u8 {
        self.memory[cell_of(addr)]
    }

    /// The little-endian address stored at `addr` and the byte after it.
    pub open spec fn read_addr(self, addr: u16) -> u16 {
        word(self.read(addr), self.read(wrap16(addr + 1)))
    }

    /// The state after writing `v` to `addr`.
    pub open spec fn write(self, addr: u16, v: u8) -> CpuView {
        CpuView { memory: self.memory.update(cell_of(addr), v), ..self }
    }

    /// The state with zero and sign set from `v`.
    pub open spec fn with_nz(self, v: u8) -> CpuView {
        CpuView { status_flags: nz(self.status_flags, v), ..self }
    }

    /// The state after pushing `v`: stored at the stack pointer, which
    /// then moves down, wrapping within page 1.
    pub open spec fn push(self, v: u8) -> CpuView {
        CpuView {
            stack_pointer: wrap8(self.stack_pointer + 255),
            ..self.write(stack_addr(self.stack_pointer), v)
        }
    }

    /// The byte a pop returns: the one just above the stack pointer.
    pub open spec fn top(self) -> u8 {
        self.read(stack_addr(wrap8(self.stack_pointer + 1)))
    }

    /// The state after a pop.
    pub open spec fn popped(self) -> CpuView {
        CpuView { stack_pointer: wrap8(self.stack_pointer + 1), ..self }
    }

    /// The state after pushing an address, high byte first.
    pub open spec fn push_addr(self, addr: u16) -> CpuView {
        self.push((addr / 256) as u8).push((addr % 256) as u8)
    }

    /// The address two pops return, low byte first.
    pub open spec fn top_addr(self) -> u16 {
        word(self.top(), self.popped().top())
    }

    /// The state after the reset sequence: the program counter comes from
    /// the reset vector and interrupts are disabled.
    pub open spec fn reset(self) -> CpuView {
        CpuView {
            program_counter: self.read_addr(0xFFFC),
            status_flags: Flags { irq_disable: true, ..self.status_flags },
            ..self
        }
    }

    /// The state after the program counter moves to `pc`.
    pub open spec fn jump(self, pc: u16) -> CpuView {
        CpuView { program_counter: pc, ..self }
    }
}

/// The fetch cycle: decode the opcode at the program counter and start
/// counting its base cycles. The fetch is the first of them and the cycle
/// that runs the instruction the last, so `execute_cycles - 2` remain to
/// count down in between.
#[verifier::opaque]
pub open spec fn fetch_step(s: CpuView) -> CpuView {
    let inst = decode_spec(s.read(s.program_counter));
    CpuView { inst: Some(inst), state: CpuStates::Execute((inst.execute_cycles - 2) as u8), ..s }
}

/// The last base cycle: the instruction runs, then any penalty cycles are
/// counted down.
#[verifier::opaque]
pub open spec fn run_step(s: CpuView, inst: Instruction) -> CpuView {
    let ran = execute_spec(s, inst);
    CpuView {
        state: if ran.1 > 0 {
            CpuStates::Delay(ran.1)
        } else {
            CpuStates::Fetch
        },
        ..ran.0
    }
}

/// One clock cycle of the driver, and the operation that ran in it, if any.
///
/// Fetch decodes the opcode and enters `Execute`; while `Execute(n)` has
/// `n > 0` a cycle only counts down, and at `Execute(0)` the instruction
/// runs, so that it takes exactly its base cycles from fetch to fetch. Any
/// penalty cycles are then counted down in `Delay` before the next fetch.
pub open spec fn cycle_spec(s: CpuView) -> (CpuView, Option<Operation>) {
    let stepped: (CpuView, Option<Operation>) = match s.state {
        CpuStates::Fetch => (fetch_step(s), None),
        CpuStates::Execute(n) => if n > 0 {
            (CpuView { state: CpuStates::Execute((n - 1) as u8), ..s }, None)
        } else {
            match s.inst {
                Some(inst) => (run_step(s, inst), Some(inst.operation)),
                None => (s, None),
            }
        },
        CpuStates::Delay(n) => (
            CpuView {
                state: if n > 1 {
                    CpuStates::Delay((n - 1) as u8)
                } else {
                    CpuStates::Fetch
                },
                ..s
            },
            None,
        ),
    };
    (CpuView { cycle: ((s.cycle + 1) % 0x1_0000_0000_0000_0000int) as u64, ..stepped.0 }, stepped.1)
}

/// The state after `n` clock cycles.
pub open spec fn run_for(s: CpuView, n: nat) -> CpuView
    decreases n,
{
    if n == 0 {
        s
    } else {
        run_for(cycle_spec(s).0, (n - 1) as nat)
    }
}

/// The 6502 with its registers, a single-chip bus and the cycle driver.
pub struct CPU {
    pub accumulator: u8,
    pub reg_x: u8,
    pub reg_y: u8,
    pub program_counter: u16,
    pub stack_pointer: u8,
    pub status_flags: Flags,
    pub memory: Memory,
    pub state: CpuStates,
    pub inst: Option<Instruction>,
    pub cycle: u64,
}

impl View for CPU {
    type V = CpuView;

    open spec fn view(&self) -> CpuView {
        CpuView {
            accumulator: self.accumulator,
            reg_x: self.reg_x,
            reg_y: self.reg_y,
            program_counter: self.program_counter,
            stack_pointer: self.stack_pointer,
            status_flags: self.status_flags,
            memory: self.memory@,
            state: self.state,
            inst: self.inst,
            cycle: self.cycle,
        }
    }
}

impl CPU {
    /// The bus is well formed, and the driver's state is consistent: an
    /// instruction that fits its mode is held while its cycles run, and a
    /// penalty countdown is never zero.
    pub open spec fn wf(&self) -> bool {
        &&& self.memory.wf()
        &&& match self.state {
            CpuStates::Fetch => true,
            CpuStates::Execute(_) => match self.inst {
                Some(i) => i.fits(),
                None => false,
            },
            CpuStates::Delay(n) => n >= 1,
        }
    }

    /// The power-on state: registers zero, stack pointer 0xFD, all flags
    /// clear, memory zero, about to fetch.
    pub fn new() -> (r: CPU)
        ensures
            r.wf(),
            r@ == (CpuView {
                accumulator: 0,
                reg_x: 0,
                reg_y: 0,
                program_counter: 0xFFFC,
                stack_pointer: 0xFD,
                status_flags: Flags::from_bits(0x20),
                memory: blank_memory(),
                state: CpuStates::Fetch,
                inst: None,
                cycle: 0,
            }),
    {
        CPU {
            accumulator: 0,
            reg_x: 0,
            reg_y: 0,
            program_counter: 0xFFFC,
            stack_pointer: 0xFD,
            status_flags: Flags::new(),
            memory: Memory::new(),
            state: CpuStates::Fetch,
            inst: None,
            cycle: 0,
        }
    }

    /// Advances the machine by exactly one clock cycle. Returns the
    /// operation that ran in this cycle, if one did.
    pub fn do_cycle(&mut self) -> (executed: Option<Operation>)
        requires
            old(self).wf(),
        ensures
            final(self).wf(),
            (final(self)@, executed) == cycle_spec(old(self)@),
    {
        let executed = match self.state {
            CpuStates::Fetch => {
                self.fetch_cycle();
                None
            },
            CpuStates::Execute(n) => {
                if n > 0 {
                    self.state = CpuStates::Execute(n - 1);
                    None
                } else {
                    match self.inst {
                        Some(inst) => {
                            self.run_cycle(inst);
                            Some(inst.operation)
                        },
                        None => None,
                    }
                }
            },
            CpuStates::Delay(n) => {
                if n > 1 {
                    self.state = CpuStates::Delay(n - 1);
                } else {
                    self.state = CpuStates::Fetch;
                }
                None
            },
        };
        self.cycle = self.cycle.wrapping_add(1);
        executed
    }

    /// Decodes the opcode at the program counter.
    fn fetch_cycle(&mut self)
        requires
            old(self).wf(),
        ensures
            final(self).wf(),
            final(self)@ == fetch_step(old(self)@),
            final(self).cycle == old(self).cycle,
    {
        reveal(fetch_step);
        let inst = Instruction::decode_inst(self.fetch());
        self.inst = Some(inst);
        self.state = CpuStates::Execute(inst.execute_cycles - 2);
    }

    /// Runs `inst` and moves on to its penalty cycles, if any.
    fn run_cycle(&mut self, inst: Instruction)
        requires
            old(self).wf(),
        ensures
            final(self).wf(),
            final(self)@ == run_step(old(self)@, inst),
            final(self).cycle == old(self).cycle,
    {
        reveal(run_step);
        let delay = inst.execute(self);
        if delay > 0 {
            self.state = CpuStates::Delay(delay);
        } else {
            self.state = CpuStates::Fetch;
        }
    }

    /// Loads a program image right-aligned into cartridge space, then
    /// runs the reset sequence.
    pub fn init_memory(&mut self, program_rom: &[u8], program_size: usize)
        requires
            old(self).wf(),
            program_rom@.len() == program_size,
            program_size <= CARTRIDGE_SIZE,
        ensures
            final(self).wf(),
            final(self)@ == (CpuView {
                memory: old(self).memory@.subrange(0, MEMORY_CELLS - program_size) + program_rom@,
                ..old(self)@
            }).reset(),
    {
        self.memory.load_rom(program_rom, program_size);
        self.reset();
    }

    pub fn write_memory(&mut self, addr: u16, value: u8)
        requires
            old(self).wf(),
        ensures
            final(self).wf(),
            final(self)@ == old(self)@.write(addr, value),
    {
        self.memory.write(addr, value);
    }

    pub fn read_memory(&self, addr: u16) -> (r: u8)
        requires
            self.wf(),
        ensures
            r == self@.read(addr),
    {
        self.memory.read(addr)
    }

    /// Reads the little-endian address at `addr` (the high byte from the
    /// next address, wrapping at 0xFFFF).
    pub fn read_memory_addr(&self, addr: u16) -> (r: u16)
        requires
            self.wf(),
        ensures
            r == self@.read_addr(addr),
    {
        convert_addr(&[self.read_memory(addr), self.read_memory(addr.wrapping_add(1))])
    }

    /// Sets the program counter from the reset vector at 0xFFFC and
    /// disables interrupts.
    pub fn reset(&mut self)
        requires
            old(self).wf(),
        ensures
            final(self).wf(),
            final(self)@ == old(self)@.reset(),
    {
        self.program_counter = self.read_memory_addr(0xFFFC);
        self.status_flags.irq_disable = true;
    }

    /// The byte at the program counter.
    pub fn fetch(&self) -> (r: u8)
        requires
            self.wf(),
        ensures
            r == self@.read(self.program_counter),
    {
        self.read_memory(self.program_counter)
    }

    pub fn push(&mut self, byte: u8)
        requires
            old(self).wf(),
        ensures
            final(self).wf(),
            final(self)@ == old(self)@.push(byte),
    {
        self.write_memory(0x0100 + self.stack_pointer as u16, byte);
        self.stack_pointer = self.stack_pointer.wrapping_sub(1);
    }

    pub fn pop(&mut self) -> (r: u8)
        requires
            old(self).wf(),
        ensures
            final(self).wf(),
            r == old(self)@.top(),
            final(self)@ == old(self)@.popped(),
    {
        self.stack_pointer = self.stack_pointer.wrapping_add(1);
        self.read_memory(0x0100 + self.stack_pointer as u16)
    }

    /// Pops an address, low byte first.
    pub fn pop_addr(&mut self) -> (r: u16)
        requires
            old(self).wf(),
        ensures
            final(self).wf(),
            r == old(self)@.top_addr(),
            final(self)@ == old(self)@.popped().popped(),
    {
        let lo = self.pop();
        let hi = self.pop();
        convert_addr(&[lo, hi])
    }

    /// Pushes an address, high byte first.
    pub fn push_addr(&mut self, addr: u16)
        requires
            old(self).wf(),
        ensures
            final(self).wf(),
            final(self)@ == old(self)@.push_addr(addr),
    {
        self.push((addr / 256) as u8);
        self.push((addr % 256) as u8);
    }

    /// Sets the zero flag from `byte`.
    pub fn set_zero(&mut self, byte: u8)
        requires
            old(self).wf(),
        ensures
            final(self).wf(),
            final(self)@ == (CpuView {
                status_flags: Flags { zero: byte == 0, ..old(self).status_flags },
                ..old(self)@
            }),
    {
        self.status_flags.zero = byte == 0;
    }

    /// Sets the sign flag from bit 7 of `byte`.
    pub fn set_signed(&mut self, byte: u8)
        requires
            old(self).wf(),
        ensures
            final(self).wf(),
            final(self)@ == (CpuView {
                status_flags: Flags { signed: byte >= 0x80, ..old(self).status_flags },
                ..old(self)@
            }),
    {
        self.status_flags.signed = byte >= 0x80;
    }

    /// Moves the program counter by the signed `offset` when `cond` holds;
    /// returns `cond`.
    pub fn branch(&mut self, cond: bool, offset: u8) -> (r: bool)
        requires
            old(self).wf(),
        ensures
            final(self).wf(),
            r == cond,
            final(self)@ == if cond {
                old(self)@.jump(wrap16(old(self).program_counter + signed_offset(offset)))
            } else {
                old(self)@
            },
    {
        if cond {
            if offset < 0x80 {
                self.program_counter = self.program_counter.wrapping_add(offset as u16);
            } else {
                self.program_counter = self.program_counter.wrapping_sub(0x100 - offset as u16);
            }
        }
        cond
    }

    /// Compares `byte` with the byte at `addr`: sign and zero come from
    /// their difference, carry is set when `byte` is not below it.
    pub fn compare(&mut self, byte: u8, addr: u16)
        requires
            old(self).wf(),
        ensures
            final(self).wf(),
            final(self)@ == (CpuView {
                status_flags: Flags {
                    carry: byte >= old(self)@.read(addr),
                    ..nz(old(self).status_flags, wrap8(byte - old(self)@.read(addr)))
                },
                ..old(self)@
            }),
    {
        let mem_byte = self.read_memory(addr);
        let result: u8 = byte.wrapping_sub(mem_byte);
        self.set_signed(result);
        self.set_zero(result);
        self.status_flags.carry = byte >= mem_byte;
    }
}

/// Every address reaches exactly one backing byte, and addresses below
/// 0x0800 reach RAM byte for byte.
pub proof fn lemma_cell_in_range(addr: u16)
    ensures
        0 <= cell_of(addr) < MEMORY_CELLS,
        addr < 0x0800 ==> cell_of(addr) == addr,
{
}

/// A read after a write to the same address returns the byte written;
/// an address backed by another byte reads as before.
pub proof fn lemma_write_then_read(m: Memory, addr: u16, byte: u8, other: u16)
    requires
        m.wf(),
    ensures
        m@.update(cell_of(addr), byte)[cell_of(addr)] == byte,
        cell_of(other) != cell_of(addr) ==> m@.update(cell_of(addr), byte)[cell_of(other)] == m.peek(other),
{
    m.lemma_len();
    lemma_cell_in_range(addr);
    lemma_cell_in_range(other);
}

/// Pushing and then popping returns the byte pushed and restores the
/// stack pointer. The push writes one byte, in page 1, and the stack
/// pointer wraps modulo 256.
pub proof fn lemma_push_then_pop(s: CpuView, v: u8)
    requires
        s.memory.len() == MEMORY_CELLS,
    ensures
        s.push(v).top() == v,
        s.push(v).popped().stack_pointer == s.stack_pointer,
        0x100 <= stack_addr(s.stack_pointer) <= 0x1FF,
        s.push(v).stack_pointer == (s.stack_pointer + 255) % 256,
        forall|i: int|
            0 <= i < MEMORY_CELLS && i != cell_of(stack_addr(s.stack_pointer)) ==> #[trigger] s.push(v).memory[i] == s.memory[i],
        cell_of(stack_addr(s.stack_pointer)) == 0x100 + s.stack_pointer,
{
}

/// A byte with no opcode assigned decodes to a two-cycle no-operation:
/// the fetch cycle enters `Execute(0)` and changes nothing else, then the
/// next cycle only moves the program counter one byte on, after which the
/// driver fetches again.
pub proof fn lemma_undefined_opcode(s: CpuView)
    requires
        s.state == CpuStates::Fetch,
        opcode_table(s.read(s.program_counter)) is None,
    ensures
        decode_spec(s.read(s.program_counter)) == entry(Operation::NOP, Addressing::Implicit, 2),
        cycle_spec(s).1 == None::<Operation>,
        cycle_spec(s).0 == (CpuView {
            inst: Some(entry(Operation::NOP, Addressing::Implicit, 2)),
            state: CpuStates::Execute(0),
            cycle: cycle_spec(s).0.cycle,
            ..s
        }),
        cycle_spec(cycle_spec(s).0).1 == Some(Operation::NOP),
        cycle_spec(cycle_spec(s).0).0 == (CpuView {
            program_counter: wrap16(s.program_counter + 1),
            inst: Some(entry(Operation::NOP, Addressing::Implicit, 2)),
            cycle: cycle_spec(cycle_spec(s).0).0.cycle,
            ..s
        }),
{
    reveal(fetch_step);
    reveal(run_step);
    reveal(operate);
}

/// A fetch cycle decodes the opcode at the program counter and starts its
/// countdown; nothing else changes but the cycle count.
proof fn lemma_fetch_cycle(s: CpuView)
    requires
        s.state == CpuStates::Fetch,
    ensures
        cycle_spec(s).0 == (CpuView {
            inst: Some(decode_spec(s.read(s.program_counter))),
            state: CpuStates::Execute(
                (decode_spec(s.read(s.program_counter)).execute_cycles - 2) as u8,
            ),
            cycle: cycle_spec(s).0.cycle,
            ..s
        }),
{
    reveal(fetch_step);
}

/// BEQ costs two cycles when not taken, three when taken to the page of
/// the next instruction, and four when taken to another page; the driver
/// fetches again exactly then.
pub proof fn lemma_beq_timing(s: CpuView)
    requires
        s.state == CpuStates::Fetch,
        s.read(s.program_counter) == 0xF0,
    ensures
        run_for(s, 1).state == CpuStates::Execute(0),
        !s.status_flags.zero ==> run_for(s, 2).state == CpuStates::Fetch
            && run_for(s, 2).program_counter == wrap16(s.program_counter + 2),
        s.status_flags.zero && page(wrap16(s.program_counter + 2)) == page(
            wrap16(wrap16(s.program_counter + 2) + signed_offset(s.read(wrap16(s.program_counter + 1)))),
        ) ==> run_for(s, 2).state == CpuStates::Delay(1) && run_for(s, 3).state == CpuStates::Fetch,
        s.status_flags.zero && page(wrap16(s.program_counter + 2)) != page(
            wrap16(wrap16(s.program_counter + 2) + signed_offset(s.read(wrap16(s.program_counter + 1)))),
        ) ==> run_for(s, 2).state == CpuStates::Delay(2) && run_for(s, 3).state == CpuStates::Delay(1)
            && run_for(s, 4).state == CpuStates::Fetch,
{
    let pc = s.program_counter;
    let next = wrap16(pc + 2);
    let offset = s.read(wrap16(pc + 1));
    let target = wrap16(next + signed_offset(offset));
    let beq = entry(Operation::BEQ, Addressing::Relative, 2);
    assert(decode_spec(0xF0) == beq) by {
        reveal(opcode_table);
    }
    let s1 = cycle_spec(s).0;
    lemma_fetch_cycle(s);
    let ran = execute_spec(s1, beq);
    lemma_execute_branch(s1, beq);
    let s2 = cycle_spec(s1).0;
    assert(s2.state == (if ran.1 > 0 {
        CpuStates::Delay(ran.1)
    } else {
        CpuStates::Fetch
    }) && s2.program_counter == ran.0.program_counter) by {
        reveal(run_step);
    }
    let s3 = cycle_spec(s2).0;
    let s4 = cycle_spec(s3).0;
    assert(run_for(s, 1) == s1) by {
        reveal_with_fuel(run_for, 2);
    }
    assert(run_for(s, 2) == s2) by {
        reveal_with_fuel(run_for, 3);
    }
    assert(run_for(s, 3) == s3) by {
        reveal_with_fuel(run_for, 4);
    }
    assert(run_for(s, 4) == s4) by {
        reveal_with_fuel(run_for, 5);
    }
}

} // verus!
