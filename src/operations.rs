//! The 56 operations: for each, what it does to the machine state (a spec
//! function over `CpuView`) and the code that does it.
use crate::cpu::{lemma_push_then_pop, nz, signed_offset, CpuView, CPU, MEMORY_CELLS};
use crate::flags::Flags;
use crate::instructions::Operation;
use crate::utils::{wrap16, wrap8};
use vstd::prelude::*;

verus! {

// ---------------------------------------------------------------------
// Arithmetic and logic on the accumulator
// ---------------------------------------------------------------------

/// Signed overflow of `a + m` giving `r`: the operands share a sign and
/// the result has the other one.
pub open spec fn signed_overflow(a: u8, m: u8, r: u8) -> bool {
    (a >= 0x80) == (m >= 0x80) && (r >= 0x80) != (a >= 0x80)
}

/// The XOR test of operand signs against the result sign is the signed
/// overflow of the addition.
pub proof fn lemma_overflow_xor(a: u8, m: u8, r: u8)
    by (bit_vector)
    ensures
        (((a ^ r) & (m ^ r)) & 0x80 != 0) == ((a >= 0x80) == (m >= 0x80) && (r >= 0x80) != (a
            >= 0x80)),
{
}

/// Binary addition of `m` and the carry to the accumulator; the NES
/// variant has no decimal mode.
pub open spec fn add_with_carry(s: CpuView, m: u8) -> CpuView {
    let a = s.accumulator;
    let sum = a + m + if s.status_flags.carry { 1int } else { 0int };
    let r = wrap8(sum);
    CpuView {
        accumulator: r,
        status_flags: Flags {
            carry: sum > 0xFF,
            overflow: signed_overflow(a, m, r),
            ..nz(s.status_flags, r)
        },
        ..s
    }
}

pub open spec fn adc_spec(s: CpuView, addr: u16) -> CpuView {
    add_with_carry(s, s.read(addr))
}

/// Subtraction with borrow: the addition of the operand's complement, so
/// carry is set when no borrow occurs.
pub open spec fn sbc_spec(s: CpuView, addr: u16) -> CpuView {
    add_with_carry(s, (255 - s.read(addr)) as u8)
}

/// Loads `v` into the accumulator, setting zero and sign.
pub open spec fn load_a(s: CpuView, v: u8) -> CpuView {
    CpuView { accumulator: v, ..s }.with_nz(v)
}

/// Loads `v` into X, setting zero and sign.
pub open spec fn load_x(s: CpuView, v: u8) -> CpuView {
    CpuView { reg_x: v, ..s }.with_nz(v)
}

/// Loads `v` into Y, setting zero and sign.
pub open spec fn load_y(s: CpuView, v: u8) -> CpuView {
    CpuView { reg_y: v, ..s }.with_nz(v)
}

pub open spec fn and_spec(s: CpuView, addr: u16) -> CpuView {
    load_a(s, s.accumulator & s.read(addr))
}

pub open spec fn ora_spec(s: CpuView, addr: u16) -> CpuView {
    load_a(s, s.accumulator | s.read(addr))
}

pub open spec fn eor_spec(s: CpuView, addr: u16) -> CpuView {
    load_a(s, s.accumulator ^ s.read(addr))
}

/// BIT: zero from the AND with the accumulator, sign and overflow from
/// bits 7 and 6 of memory.
pub open spec fn bit_spec(s: CpuView, addr: u16) -> CpuView {
    let m = s.read(addr);
    CpuView {
        status_flags: Flags {
            zero: s.accumulator & m == 0,
            signed: m >= 0x80,
            overflow: m & 0x40 != 0,
            ..s.status_flags
        },
        ..s
    }
}

/// Compares a register with memory: the difference sets sign and zero,
/// and carry is set when the register is not below memory (unsigned).
pub open spec fn compare_spec(s: CpuView, reg: u8, addr: u16) -> CpuView {
    CpuView {
        status_flags: Flags {
            carry: reg >= s.read(addr),
            ..nz(s.status_flags, wrap8(reg - s.read(addr)))
        },
        ..s
    }
}

/// Writes `v` back to memory, setting zero and sign.
pub open spec fn modify_memory(s: CpuView, addr: u16, v: u8) -> CpuView {
    s.write(addr, v).with_nz(v)
}

pub open spec fn inc_spec(s: CpuView, addr: u16) -> CpuView {
    modify_memory(s, addr, wrap8(s.read(addr) + 1))
}

pub open spec fn dec_spec(s: CpuView, addr: u16) -> CpuView {
    modify_memory(s, addr, wrap8(s.read(addr) + 255))
}

// ---------------------------------------------------------------------
// Shifts and rotates: a byte in, a byte and the bit shifted out back
// ---------------------------------------------------------------------

/// ASL: shift left, bit 7 goes out.
pub open spec fn asl_spec(v: u8) -> (u8, bool) {
    (wrap8(2 * v), v >= 0x80)
}

/// LSR: shift right, bit 0 goes out.
pub open spec fn lsr_spec(v: u8) -> (u8, bool) {
    ((v / 2) as u8, v % 2 == 1)
}

/// ROL: shift left, the previous carry enters bit 0, bit 7 goes out.
pub open spec fn rol_spec(v: u8, carry: bool) -> (u8, bool) {
    (wrap8(2 * v + if carry { 1int } else { 0int }), v >= 0x80)
}

/// ROR: shift right, the previous carry enters bit 7, bit 0 goes out.
pub open spec fn ror_spec(v: u8, carry: bool) -> (u8, bool) {
    ((v / 2 + if carry { 0x80int } else { 0int }) as u8, v % 2 == 1)
}

/// Sets carry to the bit shifted out and zero and sign from the result.
pub open spec fn shift_flags(f: Flags, shifted: (u8, bool)) -> Flags {
    Flags { carry: shifted.1, ..nz(f, shifted.0) }
}

pub fn asl(byte: u8) -> (r: (u8, bool))
    ensures
        r == asl_spec(byte),
{
    ((byte % 0x80) * 2, byte >= 0x80)
}

pub fn lsr(byte: u8) -> (r: (u8, bool))
    ensures
        r == lsr_spec(byte),
{
    (byte / 2, byte % 2 == 1)
}

pub fn rol(byte: u8, carry: bool) -> (r: (u8, bool))
    ensures
        r == rol_spec(byte, carry),
{
    ((byte % 0x80) * 2 + if carry { 1 } else { 0 }, byte >= 0x80)
}

pub fn ror(byte: u8, carry: bool) -> (r: (u8, bool))
    ensures
        r == ror_spec(byte, carry),
{
    (byte / 2 + if carry { 0x80 } else { 0 }, byte % 2 == 1)
}

// ---------------------------------------------------------------------
// Stack, jumps and interrupts
// ---------------------------------------------------------------------

pub open spec fn jsr_spec(s: CpuView, addr: u16) -> CpuView {
    s.push_addr(s.program_counter).jump(addr)
}

pub open spec fn rts_spec(s: CpuView) -> CpuView {
    s.popped().popped().jump(s.top_addr())
}

/// BRK: push the program counter and the status byte, set the break flag
/// and continue at the interrupt vector.
pub open spec fn brk_spec(s: CpuView) -> CpuView {
    let pushed = s.push_addr(s.program_counter).push(s.status_flags.bits());
    CpuView {
        program_counter: pushed.read_addr(0xFFFE),
        status_flags: Flags { break_flag: true, ..pushed.status_flags },
        ..pushed
    }
}

/// RTI: pull the status byte, then the program counter.
pub open spec fn rti_spec(s: CpuView) -> CpuView {
    let p = CpuView { status_flags: Flags::from_bits(s.top()), ..s.popped() };
    p.popped().popped().jump(p.top_addr())
}

pub open spec fn pla_spec(s: CpuView) -> CpuView {
    load_a(s.popped(), s.top())
}

pub open spec fn plp_spec(s: CpuView) -> CpuView {
    CpuView { status_flags: Flags::from_bits(s.top()), ..s.popped() }
}

/// The state with the status flags replaced.
pub open spec fn with_flags(s: CpuView, f: Flags) -> CpuView {
    CpuView { status_flags: f, ..s }
}

// ---------------------------------------------------------------------
// Branches: each tests exactly one flag
// ---------------------------------------------------------------------

/// Whether a branch operation is taken under the flags `f`; false for
/// any other operation.
pub open spec fn branch_taken(op: Operation, f: Flags) -> bool {
    match op {
        Operation::BCC => !f.carry,
        Operation::BCS => f.carry,
        Operation::BEQ => f.zero,
        Operation::BMI => f.signed,
        Operation::BNE => !f.zero,
        Operation::BPL => !f.signed,
        Operation::BVC => !f.overflow,
        Operation::BVS => f.overflow,
        _ => false,
    }
}

/// Where a taken branch goes: the signed offset is added to the program
/// counter, which already points past the branch.
pub open spec fn branch_target(s: CpuView, offset: u8) -> u16 {
    wrap16(s.program_counter + signed_offset(offset))
}

/// The state after a branch that is taken or not.
pub open spec fn branch_spec(s: CpuView, taken: bool, offset: u8) -> CpuView {
    if taken {
        s.jump(branch_target(s, offset))
    } else {
        s
    }
}

// ---------------------------------------------------------------------
// Executable operations
// ---------------------------------------------------------------------

/// Adds `m` and the carry to the accumulator.
fn add_with_carry_exec(cpu: &mut CPU, m: u8)
    requires
        old(cpu).wf(),
    ensures
        final(cpu).wf(),
        final(cpu)@ == add_with_carry(old(cpu)@, m),
{
    let acc: u8 = cpu.accumulator;
    let sum: u16 = acc as u16 + m as u16 + if cpu.status_flags.carry { 1 } else { 0 };
    let result: u8 = (sum % 0x100) as u8;
    proof {
        lemma_overflow_xor(acc, m, result);
    }
    cpu.status_flags.carry = sum > 0xFF;
    cpu.status_flags.overflow = ((acc ^ result) & (m ^ result)) & 0x80 != 0;
    cpu.accumulator = result;
    cpu.set_signed(result);
    cpu.set_zero(result);
}

pub fn adc(cpu: &mut CPU, addr: u16)
    requires
        old(cpu).wf(),
    ensures
        final(cpu).wf(),
        final(cpu)@ == adc_spec(old(cpu)@, addr),
{
    let m = cpu.read_memory(addr);
    add_with_carry_exec(cpu, m);
}

pub fn sbc(cpu: &mut CPU, addr: u16)
    requires
        old(cpu).wf(),
    ensures
        final(cpu).wf(),
        final(cpu)@ == sbc_spec(old(cpu)@, addr),
{
    let m = cpu.read_memory(addr);
    add_with_carry_exec(cpu, 255 - m);
}

pub fn and(cpu: &mut CPU, addr: u16)
    requires
        old(cpu).wf(),
    ensures
        final(cpu).wf(),
        final(cpu)@ == and_spec(old(cpu)@, addr),
{
    let value: u8 = cpu.read_memory(addr);
    cpu.accumulator = cpu.accumulator & value;
    cpu.set_zero(cpu.accumulator);
    cpu.set_signed(cpu.accumulator);
}

pub fn ora(cpu: &mut CPU, addr: u16)
    requires
        old(cpu).wf(),
    ensures
        final(cpu).wf(),
        final(cpu)@ == ora_spec(old(cpu)@, addr),
{
    let value: u8 = cpu.read_memory(addr);
    cpu.accumulator = cpu.accumulator | value;
    cpu.set_zero(cpu.accumulator);
    cpu.set_signed(cpu.accumulator);
}

pub fn eor(cpu: &mut CPU, addr: u16)
    requires
        old(cpu).wf(),
    ensures
        final(cpu).wf(),
        final(cpu)@ == eor_spec(old(cpu)@, addr),
{
    let value: u8 = cpu.read_memory(addr);
    cpu.accumulator = cpu.accumulator ^ value;
    cpu.set_zero(cpu.accumulator);
    cpu.set_signed(cpu.accumulator);
}

pub fn bit(cpu: &mut CPU, addr: u16)
    requires
        old(cpu).wf(),
    ensures
        final(cpu).wf(),
        final(cpu)@ == bit_spec(old(cpu)@, addr),
{
    let mem_byte = cpu.read_memory(addr);
    cpu.set_signed(mem_byte);
    cpu.status_flags.overflow = mem_byte & 0x40 != 0;
    cpu.set_zero(cpu.accumulator & mem_byte);
}

pub fn cmp(cpu: &mut CPU, addr: u16)
    requires
        old(cpu).wf(),
    ensures
        final(cpu).wf(),
        final(cpu)@ == compare_spec(old(cpu)@, old(cpu).accumulator, addr),
{
    cpu.compare(cpu.accumulator, addr);
}

pub fn cpx(cpu: &mut CPU, addr: u16)
    requires
        old(cpu).wf(),
    ensures
        final(cpu).wf(),
        final(cpu)@ == compare_spec(old(cpu)@, old(cpu).reg_x, addr),
{
    cpu.compare(cpu.reg_x, addr);
}

pub fn cpy(cpu: &mut CPU, addr: u16)
    requires
        old(cpu).wf(),
    ensures
        final(cpu).wf(),
        final(cpu)@ == compare_spec(old(cpu)@, old(cpu).reg_y, addr),
{
    cpu.compare(cpu.reg_y, addr);
}

pub fn dec(cpu: &mut CPU, addr: u16)
    requires
        old(cpu).wf(),
    ensures
        final(cpu).wf(),
        final(cpu)@ == dec_spec(old(cpu)@, addr),
{
    let result: u8 = cpu.read_memory(addr).wrapping_sub(1);
    cpu.set_signed(result);
    cpu.set_zero(result);
    cpu.write_memory(addr, result);
}

pub fn inc(cpu: &mut CPU, addr: u16)
    requires
        old(cpu).wf(),
    ensures
        final(cpu).wf(),
        final(cpu)@ == inc_spec(old(cpu)@, addr),
{
    let result: u8 = cpu.read_memory(addr).wrapping_add(1);
    cpu.set_signed(result);
    cpu.set_zero(result);
    cpu.write_memory(addr, result);
}

pub fn dex(cpu: &mut CPU)
    requires
        old(cpu).wf(),
    ensures
        final(cpu).wf(),
        final(cpu)@ == load_x(old(cpu)@, wrap8(old(cpu).reg_x + 255)),
{
    cpu.reg_x = cpu.reg_x.wrapping_sub(1);
    cpu.set_zero(cpu.reg_x);
    cpu.set_signed(cpu.reg_x);
}

pub fn dey(cpu: &mut CPU)
    requires
        old(cpu).wf(),
    ensures
        final(cpu).wf(),
        final(cpu)@ == load_y(old(cpu)@, wrap8(old(cpu).reg_y + 255)),
{
    cpu.reg_y = cpu.reg_y.wrapping_sub(1);
    cpu.set_zero(cpu.reg_y);
    cpu.set_signed(cpu.reg_y);
}

pub fn inx(cpu: &mut CPU)
    requires
        old(cpu).wf(),
    ensures
        final(cpu).wf(),
        final(cpu)@ == load_x(old(cpu)@, wrap8(old(cpu).reg_x + 1)),
{
    cpu.reg_x = cpu.reg_x.wrapping_add(1);
    cpu.set_zero(cpu.reg_x);
    cpu.set_signed(cpu.reg_x);
}

pub fn iny(cpu: &mut CPU)
    requires
        old(cpu).wf(),
    ensures
        final(cpu).wf(),
        final(cpu)@ == load_y(old(cpu)@, wrap8(old(cpu).reg_y + 1)),
{
    cpu.reg_y = cpu.reg_y.wrapping_add(1);
    cpu.set_zero(cpu.reg_y);
    cpu.set_signed(cpu.reg_y);
}

pub fn lda(cpu: &mut CPU, addr: u16)
    requires
        old(cpu).wf(),
    ensures
        final(cpu).wf(),
        final(cpu)@ == load_a(old(cpu)@, old(cpu)@.read(addr)),
{
    cpu.accumulator = cpu.read_memory(addr);
    cpu.set_signed(cpu.accumulator);
    cpu.set_zero(cpu.accumulator);
}

pub fn ldx(cpu: &mut CPU, addr: u16)
    requires
        old(cpu).wf(),
    ensures
        final(cpu).wf(),
        final(cpu)@ == load_x(old(cpu)@, old(cpu)@.read(addr)),
{
    cpu.reg_x = cpu.read_memory(addr);
    cpu.set_signed(cpu.reg_x);
    cpu.set_zero(cpu.reg_x);
}

pub fn ldy(cpu: &mut CPU, addr: u16)
    requires
        old(cpu).wf(),
    ensures
        final(cpu).wf(),
        final(cpu)@ == load_y(old(cpu)@, old(cpu)@.read(addr)),
{
    cpu.reg_y = cpu.read_memory(addr);
    cpu.set_signed(cpu.reg_y);
    cpu.set_zero(cpu.reg_y);
}

/// Stores never touch the flags.
pub fn sta(cpu: &mut CPU, addr: u16)
    requires
        old(cpu).wf(),
    ensures
        final(cpu).wf(),
        final(cpu)@ == old(cpu)@.write(addr, old(cpu).accumulator),
{
    cpu.write_memory(addr, cpu.accumulator);
}

pub fn stx(cpu: &mut CPU, addr: u16)
    requires
        old(cpu).wf(),
    ensures
        final(cpu).wf(),
        final(cpu)@ == old(cpu)@.write(addr, old(cpu).reg_x),
{
    cpu.write_memory(addr, cpu.reg_x);
}

pub fn sty(cpu: &mut CPU, addr: u16)
    requires
        old(cpu).wf(),
    ensures
        final(cpu).wf(),
        final(cpu)@ == old(cpu)@.write(addr, old(cpu).reg_y),
{
    cpu.write_memory(addr, cpu.reg_y);
}

pub fn tax(cpu: &mut CPU)
    requires
        old(cpu).wf(),
    ensures
        final(cpu).wf(),
        final(cpu)@ == load_x(old(cpu)@, old(cpu).accumulator),
{
    cpu.reg_x = cpu.accumulator;
    cpu.set_signed(cpu.reg_x);
    cpu.set_zero(cpu.reg_x);
}

pub fn tay(cpu: &mut CPU)
    requires
        old(cpu).wf(),
    ensures
        final(cpu).wf(),
        final(cpu)@ == load_y(old(cpu)@, old(cpu).accumulator),
{
    cpu.reg_y = cpu.accumulator;
    cpu.set_signed(cpu.reg_y);
    cpu.set_zero(cpu.reg_y);
}

pub fn tsx(cpu: &mut CPU)
    requires
        old(cpu).wf(),
    ensures
        final(cpu).wf(),
        final(cpu)@ == load_x(old(cpu)@, old(cpu).stack_pointer),
{
    cpu.reg_x = cpu.stack_pointer;
    cpu.set_signed(cpu.reg_x);
    cpu.set_zero(cpu.reg_x);
}

pub fn txa(cpu: &mut CPU)
    requires
        old(cpu).wf(),
    ensures
        final(cpu).wf(),
        final(cpu)@ == load_a(old(cpu)@, old(cpu).reg_x),
{
    cpu.accumulator = cpu.reg_x;
    cpu.set_signed(cpu.accumulator);
    cpu.set_zero(cpu.accumulator);
}

/// Like the other transfers, sets zero and sign from the byte moved.
pub fn txs(cpu: &mut CPU)
    requires
        old(cpu).wf(),
    ensures
        final(cpu).wf(),
        final(cpu)@ == (CpuView { stack_pointer: old(cpu).reg_x, ..old(cpu)@ }).with_nz(
            old(cpu).reg_x,
        ),
{
    cpu.stack_pointer = cpu.reg_x;
    cpu.set_signed(cpu.stack_pointer);
    cpu.set_zero(cpu.stack_pointer);
}

pub fn tya(cpu: &mut CPU)
    requires
        old(cpu).wf(),
    ensures
        final(cpu).wf(),
        final(cpu)@ == load_a(old(cpu)@, old(cpu).reg_y),
{
    cpu.accumulator = cpu.reg_y;
    cpu.set_signed(cpu.accumulator);
    cpu.set_zero(cpu.accumulator);
}

pub fn jmp(cpu: &mut CPU, addr: u16)
    ensures
        final(cpu)@ == old(cpu)@.jump(addr),
        final(cpu).wf() == old(cpu).wf(),
{
    cpu.program_counter = addr;
}

/// Pushes the program counter (already past the operand) and jumps.
pub fn jsr(cpu: &mut CPU, addr: u16)
    requires
        old(cpu).wf(),
    ensures
        final(cpu).wf(),
        final(cpu)@ == jsr_spec(old(cpu)@, addr),
{
    cpu.push_addr(cpu.program_counter);
    cpu.program_counter = addr;
}

pub fn rts(cpu: &mut CPU)
    requires
        old(cpu).wf(),
    ensures
        final(cpu).wf(),
        final(cpu)@ == rts_spec(old(cpu)@),
{
    cpu.program_counter = cpu.pop_addr();
}

pub fn rti(cpu: &mut CPU)
    requires
        old(cpu).wf(),
    ensures
        final(cpu).wf(),
        final(cpu)@ == rti_spec(old(cpu)@),
{
    let byte = cpu.pop();
    cpu.status_flags = Flags::from_byte(byte);
    cpu.program_counter = cpu.pop_addr();
}

pub fn brk(cpu: &mut CPU)
    requires
        old(cpu).wf(),
    ensures
        final(cpu).wf(),
        final(cpu)@ == brk_spec(old(cpu)@),
{
    cpu.push_addr(cpu.program_counter);
    let status = cpu.status_flags.to_byte();
    cpu.push(status);
    cpu.program_counter = cpu.read_memory_addr(0xFFFE);
    cpu.status_flags.break_flag = true;
}

pub fn pha(cpu: &mut CPU)
    requires
        old(cpu).wf(),
    ensures
        final(cpu).wf(),
        final(cpu)@ == old(cpu)@.push(old(cpu).accumulator),
{
    cpu.push(cpu.accumulator);
}

/// Pushes the status byte, with bit 5 set.
pub fn php(cpu: &mut CPU)
    requires
        old(cpu).wf(),
    ensures
        final(cpu).wf(),
        final(cpu)@ == old(cpu)@.push(old(cpu).status_flags.bits()),
{
    let status = cpu.status_flags.to_byte();
    cpu.push(status);
}

pub fn pla(cpu: &mut CPU)
    requires
        old(cpu).wf(),
    ensures
        final(cpu).wf(),
        final(cpu)@ == pla_spec(old(cpu)@),
{
    let acc: u8 = cpu.pop();
    cpu.set_zero(acc);
    cpu.set_signed(acc);
    cpu.accumulator = acc;
}

pub fn plp(cpu: &mut CPU)
    requires
        old(cpu).wf(),
    ensures
        final(cpu).wf(),
        final(cpu)@ == plp_spec(old(cpu)@),
{
    let byte = cpu.pop();
    cpu.status_flags = Flags::from_byte(byte);
}

pub fn clc(cpu: &mut CPU)
    ensures
        final(cpu)@ == with_flags(old(cpu)@, Flags { carry: false, ..old(cpu).status_flags }),
        final(cpu).wf() == old(cpu).wf(),
{
    cpu.status_flags.carry = false;
}

pub fn cld(cpu: &mut CPU)
    ensures
        final(cpu)@ == with_flags(
            old(cpu)@,
            Flags { decimal_mode: false, ..old(cpu).status_flags },
        ),
        final(cpu).wf() == old(cpu).wf(),
{
    cpu.status_flags.decimal_mode = false;
}

pub fn cli(cpu: &mut CPU)
    ensures
        final(cpu)@ == with_flags(old(cpu)@, Flags { irq_disable: false, ..old(cpu).status_flags }),
        final(cpu).wf() == old(cpu).wf(),
{
    cpu.status_flags.irq_disable = false;
}

pub fn clv(cpu: &mut CPU)
    ensures
        final(cpu)@ == with_flags(old(cpu)@, Flags { overflow: false, ..old(cpu).status_flags }),
        final(cpu).wf() == old(cpu).wf(),
{
    cpu.status_flags.overflow = false;
}

pub fn sec(cpu: &mut CPU)
    ensures
        final(cpu)@ == with_flags(old(cpu)@, Flags { carry: true, ..old(cpu).status_flags }),
        final(cpu).wf() == old(cpu).wf(),
{
    cpu.status_flags.carry = true;
}

pub fn sed(cpu: &mut CPU)
    ensures
        final(cpu)@ == with_flags(
            old(cpu)@,
            Flags { decimal_mode: true, ..old(cpu).status_flags },
        ),
        final(cpu).wf() == old(cpu).wf(),
{
    cpu.status_flags.decimal_mode = true;
}

pub fn sei(cpu: &mut CPU)
    ensures
        final(cpu)@ == with_flags(old(cpu)@, Flags { irq_disable: true, ..old(cpu).status_flags }),
        final(cpu).wf() == old(cpu).wf(),
{
    cpu.status_flags.irq_disable = true;
}

/// Branches when carry is clear; returns whether it did.
pub fn bcc(cpu: &mut CPU, offset: u8) -> (taken: bool)
    requires
        old(cpu).wf(),
    ensures
        final(cpu).wf(),
        taken == branch_taken(Operation::BCC, old(cpu).status_flags),
        final(cpu)@ == branch_spec(old(cpu)@, taken, offset),
{
    cpu.branch(!cpu.status_flags.carry, offset)
}

/// Branches when carry is set; returns whether it did.
pub fn bcs(cpu: &mut CPU, offset: u8) -> (taken: bool)
    requires
        old(cpu).wf(),
    ensures
        final(cpu).wf(),
        taken == branch_taken(Operation::BCS, old(cpu).status_flags),
        final(cpu)@ == branch_spec(old(cpu)@, taken, offset),
{
    cpu.branch(cpu.status_flags.carry, offset)
}

/// Branches when zero is set; returns whether it did.
pub fn beq(cpu: &mut CPU, offset: u8) -> (taken: bool)
    requires
        old(cpu).wf(),
    ensures
        final(cpu).wf(),
        taken == branch_taken(Operation::BEQ, old(cpu).status_flags),
        final(cpu)@ == branch_spec(old(cpu)@, taken, offset),
{
    cpu.branch(cpu.status_flags.zero, offset)
}

/// Branches when sign is set; returns whether it did.
pub fn bmi(cpu: &mut CPU, offset: u8) -> (taken: bool)
    requires
        old(cpu).wf(),
    ensures
        final(cpu).wf(),
        taken == branch_taken(Operation::BMI, old(cpu).status_flags),
        final(cpu)@ == branch_spec(old(cpu)@, taken, offset),
{
    cpu.branch(cpu.status_flags.signed, offset)
}

/// Branches when zero is clear; returns whether it did.
pub fn bne(cpu: &mut CPU, offset: u8) -> (taken: bool)
    requires
        old(cpu).wf(),
    ensures
        final(cpu).wf(),
        taken == branch_taken(Operation::BNE, old(cpu).status_flags),
        final(cpu)@ == branch_spec(old(cpu)@, taken, offset),
{
    cpu.branch(!cpu.status_flags.zero, offset)
}

/// Branches when sign is clear; returns whether it did.
pub fn bpl(cpu: &mut CPU, offset: u8) -> (taken: bool)
    requires
        old(cpu).wf(),
    ensures
        final(cpu).wf(),
        taken == branch_taken(Operation::BPL, old(cpu).status_flags),
        final(cpu)@ == branch_spec(old(cpu)@, taken, offset),
{
    cpu.branch(!cpu.status_flags.signed, offset)
}

/// Branches when overflow is clear; returns whether it did.
pub fn bvc(cpu: &mut CPU, offset: u8) -> (taken: bool)
    requires
        old(cpu).wf(),
    ensures
        final(cpu).wf(),
        taken == branch_taken(Operation::BVC, old(cpu).status_flags),
        final(cpu)@ == branch_spec(old(cpu)@, taken, offset),
{
    cpu.branch(!cpu.status_flags.overflow, offset)
}

/// Branches when overflow is set; returns whether it did.
pub fn bvs(cpu: &mut CPU, offset: u8) -> (taken: bool)
    requires
        old(cpu).wf(),
    ensures
        final(cpu).wf(),
        taken == branch_taken(Operation::BVS, old(cpu).status_flags),
        final(cpu)@ == branch_spec(old(cpu)@, taken, offset),
{
    cpu.branch(cpu.status_flags.overflow, offset)
}

/// Does nothing.
pub fn nop() {
}

/// PHA followed by PLA gives the accumulator back and leaves the stack
/// pointer where it was.
pub proof fn lemma_pha_then_pla(s: CpuView)
    requires
        s.memory.len() == MEMORY_CELLS,
    ensures
        pla_spec(s.push(s.accumulator)).accumulator == s.accumulator,
        pla_spec(s.push(s.accumulator)).stack_pointer == s.stack_pointer,
{
    lemma_push_then_pop(s, s.accumulator);
}

} // verus!
