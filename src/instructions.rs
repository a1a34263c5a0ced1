//! Instructions: the opcode table, the addressing-mode resolver and the
//! operation executor.
use crate::cpu::{signed_offset, CpuView, CPU};
use crate::flags::Flags;
use crate::operations::{
    adc, adc_spec, and, and_spec, asl, asl_spec, bcc, bcs, beq, bit, bit_spec, bmi, bne, bpl,
    branch_spec, branch_taken, branch_target, brk, brk_spec, bvc, bvs, clc, cld, cli, clv, cmp,
    compare_spec, cpx, cpy, dec, dec_spec, dex, dey, eor, eor_spec, inc, inc_spec, inx, iny, jmp,
    jsr, jsr_spec, lda, ldx, ldy, load_a, load_x, load_y, lsr, lsr_spec, nop, ora, ora_spec, pha,
    php, pla, pla_spec, plp, plp_spec, rol, rol_spec, ror, ror_spec, rti, rti_spec, rts, rts_spec,
    sbc, sbc_spec, sec, sed, sei, shift_flags, sta, stx, sty, tax, tay, tsx, txa, txs, tya,
    with_flags,
};
use crate::utils::{convert_addr, cross_boundary, page, word, wrap16, wrap8};
use vstd::prelude::*;

verus! {

/// The rule by which an instruction locates its operand.
#[derive(Clone, Copy, Debug, PartialEq, Eq, Structural)]
pub enum Addressing {
    Implicit,
    Accumulator,
    Immediate,
    ZeroPage,
    ZeroPageX,
    ZeroPageY,
    Relative,
    Absolute,
    AbsoluteX,
    AbsoluteY,
    Indirect,
    IndexedIndirect,
    IndirectIndexed,
}

/// The 56 operations of the 6502.
#[derive(Clone, Copy, Debug, PartialEq, Eq, Structural)]
pub enum Operation {
    ADC,
    AND,
    ASL,
    BCC,
    BCS,
    BEQ,
    BIT,
    BMI,
    BNE,
    BPL,
    BRK,
    BVC,
    BVS,
    CLC,
    CLD,
    CLI,
    CLV,
    CMP,
    CPX,
    CPY,
    DEC,
    DEX,
    DEY,
    EOR,
    INC,
    INX,
    INY,
    JMP,
    JSR,
    LDA,
    LDX,
    LDY,
    LSR,
    NOP,
    ORA,
    PHA,
    PHP,
    PLA,
    PLP,
    ROL,
    ROR,
    RTI,
    RTS,
    SBC,
    SEC,
    SED,
    SEI,
    STA,
    STX,
    STY,
    TAX,
    TAY,
    TSX,
    TXA,
    TXS,
    TYA,
}

/// A decoded opcode: what to do, where the operand is, and how many
/// cycles the instruction takes before any penalty.
#[derive(Clone, Copy, Debug, PartialEq, Eq, Structural)]
pub struct Instruction {
    pub operation: Operation,
    pub mode: Addressing,
    pub execute_cycles: u8,
}

pub open spec fn entry(operation: Operation, mode: Addressing, execute_cycles: u8) -> Instruction {
    Instruction { operation, mode, execute_cycles }
}

/// The legal opcodes of the 6502; `None` for a byte with no assignment.
#[verifier::opaque]
pub open spec fn opcode_table(byte: u8) -> Option<Instruction> {
    match byte {
        0x00 => Some(entry(Operation::BRK, Addressing::Implicit, 7)),
        0x01 => Some(entry(Operation::ORA, Addressing::IndexedIndirect, 6)),
        0x05 => Some(entry(Operation::ORA, Addressing::ZeroPage, 3)),
        0x06 => Some(entry(Operation::ASL, Addressing::ZeroPage, 5)),
        0x08 => Some(entry(Operation::PHP, Addressing::Implicit, 3)),
        0x09 => Some(entry(Operation::ORA, Addressing::Immediate, 2)),
        0x0A => Some(entry(Operation::ASL, Addressing::Accumulator, 2)),
        0x0D => Some(entry(Operation::ORA, Addressing::Absolute, 4)),
        0x0E => Some(entry(Operation::ASL, Addressing::Absolute, 6)),
        0x10 => Some(entry(Operation::BPL, Addressing::Relative, 2)),
        0x11 => Some(entry(Operation::ORA, Addressing::IndirectIndexed, 5)),
        0x15 => Some(entry(Operation::ORA, Addressing::ZeroPageX, 4)),
        0x16 => Some(entry(Operation::ASL, Addressing::ZeroPageX, 6)),
        0x18 => Some(entry(Operation::CLC, Addressing::Implicit, 2)),
        0x19 => Some(entry(Operation::ORA, Addressing::AbsoluteY, 4)),
        0x1D => Some(entry(Operation::ORA, Addressing::AbsoluteX, 4)),
        0x1E => Some(entry(Operation::ASL, Addressing::AbsoluteX, 7)),
        0x20 => Some(entry(Operation::JSR, Addressing::Absolute, 6)),
        0x21 => Some(entry(Operation::AND, Addressing::IndexedIndirect, 6)),
        0x24 => Some(entry(Operation::BIT, Addressing::ZeroPage, 3)),
        0x25 => Some(entry(Operation::AND, Addressing::ZeroPage, 3)),
        0x26 => Some(entry(Operation::ROL, Addressing::ZeroPage, 5)),
        0x28 => Some(entry(Operation::PLP, Addressing::Implicit, 4)),
        0x29 => Some(entry(Operation::AND, Addressing::Immediate, 2)),
        0x2A => Some(entry(Operation::ROL, Addressing::Accumulator, 2)),
        0x2C => Some(entry(Operation::BIT, Addressing::Absolute, 4)),
        0x2D => Some(entry(Operation::AND, Addressing::Absolute, 4)),
        0x2E => Some(entry(Operation::ROL, Addressing::Absolute, 6)),
        0x30 => Some(entry(Operation::BMI, Addressing::Relative, 2)),
        0x31 => Some(entry(Operation::AND, Addressing::IndirectIndexed, 5)),
        0x35 => Some(entry(Operation::AND, Addressing::ZeroPageX, 4)),
        0x36 => Some(entry(Operation::ROL, Addressing::ZeroPageX, 6)),
        0x38 => Some(entry(Operation::SEC, Addressing::Implicit, 2)),
        0x39 => Some(entry(Operation::AND, Addressing::AbsoluteY, 4)),
        0x3D => Some(entry(Operation::AND, Addressing::AbsoluteX, 4)),
        0x3E => Some(entry(Operation::ROL, Addressing::AbsoluteX, 7)),
        0x40 => Some(entry(Operation::RTI, Addressing::Implicit, 6)),
        0x41 => Some(entry(Operation::EOR, Addressing::IndexedIndirect, 6)),
        0x45 => Some(entry(Operation::EOR, Addressing::ZeroPage, 3)),
        0x46 => Some(entry(Operation::LSR, Addressing::ZeroPage, 5)),
        0x48 => Some(entry(Operation::PHA, Addressing::Implicit, 3)),
        0x49 => Some(entry(Operation::EOR, Addressing::Immediate, 2)),
        0x4A => Some(entry(Operation::LSR, Addressing::Accumulator, 2)),
        0x4C => Some(entry(Operation::JMP, Addressing::Absolute, 3)),
        0x4D => Some(entry(Operation::EOR, Addressing::Absolute, 4)),
        0x4E => Some(entry(Operation::LSR, Addressing::Absolute, 6)),
        0x50 => Some(entry(Operation::BVC, Addressing::Relative, 2)),
        0x51 => Some(entry(Operation::EOR, Addressing::IndirectIndexed, 5)),
        0x55 => Some(entry(Operation::EOR, Addressing::ZeroPageX, 4)),
        0x56 => Some(entry(Operation::LSR, Addressing::ZeroPageX, 6)),
        0x58 => Some(entry(Operation::CLI, Addressing::Implicit, 2)),
        0x59 => Some(entry(Operation::EOR, Addressing::AbsoluteY, 4)),
        0x5D => Some(entry(Operation::EOR, Addressing::AbsoluteX, 4)),
        0x5E => Some(entry(Operation::LSR, Addressing::AbsoluteX, 7)),
        0x60 => Some(entry(Operation::RTS, Addressing::Implicit, 6)),
        0x61 => Some(entry(Operation::ADC, Addressing::IndexedIndirect, 6)),
        0x65 => Some(entry(Operation::ADC, Addressing::ZeroPage, 3)),
        0x66 => Some(entry(Operation::ROR, Addressing::ZeroPage, 5)),
        0x68 => Some(entry(Operation::PLA, Addressing::Implicit, 4)),
        0x69 => Some(entry(Operation::ADC, Addressing::Immediate, 2)),
        0x6A => Some(entry(Operation::ROR, Addressing::Accumulator, 2)),
        0x6C => Some(entry(Operation::JMP, Addressing::Indirect, 5)),
        0x6D => Some(entry(Operation::ADC, Addressing::Absolute, 4)),
        0x6E => Some(entry(Operation::ROR, Addressing::Absolute, 6)),
        0x70 => Some(entry(Operation::BVS, Addressing::Relative, 2)),
        0x71 => Some(entry(Operation::ADC, Addressing::IndirectIndexed, 5)),
        0x75 => Some(entry(Operation::ADC, Addressing::ZeroPageX, 4)),
        0x76 => Some(entry(Operation::ROR, Addressing::ZeroPageX, 6)),
        0x78 => Some(entry(Operation::SEI, Addressing::Implicit, 2)),
        0x79 => Some(entry(Operation::ADC, Addressing::AbsoluteY, 4)),
        0x7D => Some(entry(Operation::ADC, Addressing::AbsoluteX, 4)),
        0x7E => Some(entry(Operation::ROR, Addressing::AbsoluteX, 7)),
        0x81 => Some(entry(Operation::STA, Addressing::IndexedIndirect, 6)),
        0x84 => Some(entry(Operation::STY, Addressing::ZeroPage, 3)),
        0x85 => Some(entry(Operation::STA, Addressing::ZeroPage, 3)),
        0x86 => Some(entry(Operation::STX, Addressing::ZeroPage, 3)),
        0x88 => Some(entry(Operation::DEY, Addressing::Implicit, 2)),
        0x8A => Some(entry(Operation::TXA, Addressing::Implicit, 2)),
        0x8C => Some(entry(Operation::STY, Addressing::Absolute, 4)),
        0x8D => Some(entry(Operation::STA, Addressing::Absolute, 4)),
        0x8E => Some(entry(Operation::STX, Addressing::Absolute, 4)),
        0x90 => Some(entry(Operation::BCC, Addressing::Relative, 2)),
        0x91 => Some(entry(Operation::STA, Addressing::IndirectIndexed, 6)),
        0x94 => Some(entry(Operation::STY, Addressing::ZeroPageX, 4)),
        0x95 => Some(entry(Operation::STA, Addressing::ZeroPageX, 4)),
        0x96 => Some(entry(Operation::STX, Addressing::ZeroPageY, 4)),
        0x98 => Some(entry(Operation::TYA, Addressing::Implicit, 2)),
        0x99 => Some(entry(Operation::STA, Addressing::AbsoluteY, 5)),
        0x9A => Some(entry(Operation::TXS, Addressing::Implicit, 2)),
        0x9D => Some(entry(Operation::STA, Addressing::AbsoluteX, 5)),
        0xA0 => Some(entry(Operation::LDY, Addressing::Immediate, 2)),
        0xA1 => Some(entry(Operation::LDA, Addressing::IndexedIndirect, 6)),
        0xA2 => Some(entry(Operation::LDX, Addressing::Immediate, 2)),
        0xA4 => Some(entry(Operation::LDY, Addressing::ZeroPage, 3)),
        0xA5 => Some(entry(Operation::LDA, Addressing::ZeroPage, 3)),
        0xA6 => Some(entry(Operation::LDX, Addressing::ZeroPage, 3)),
        0xA8 => Some(entry(Operation::TAY, Addressing::Implicit, 2)),
        0xA9 => Some(entry(Operation::LDA, Addressing::Immediate, 2)),
        0xAA => Some(entry(Operation::TAX, Addressing::Implicit, 2)),
        0xAC => Some(entry(Operation::LDY, Addressing::Absolute, 4)),
        0xAD => Some(entry(Operation::LDA, Addressing::Absolute, 4)),
        0xAE => Some(entry(Operation::LDX, Addressing::Absolute, 4)),
        0xB0 => Some(entry(Operation::BCS, Addressing::Relative, 2)),
        0xB1 => Some(entry(Operation::LDA, Addressing::IndirectIndexed, 5)),
        0xB4 => Some(entry(Operation::LDY, Addressing::ZeroPageX, 4)),
        0xB5 => Some(entry(Operation::LDA, Addressing::ZeroPageX, 4)),
        0xB6 => Some(entry(Operation::LDX, Addressing::ZeroPageY, 4)),
        0xB8 => Some(entry(Operation::CLV, Addressing::Implicit, 2)),
        0xB9 => Some(entry(Operation::LDA, Addressing::AbsoluteY, 4)),
        0xBA => Some(entry(Operation::TSX, Addressing::Implicit, 2)),
        0xBC => Some(entry(Operation::LDY, Addressing::AbsoluteX, 4)),
        0xBD => Some(entry(Operation::LDA, Addressing::AbsoluteX, 4)),
        0xBE => Some(entry(Operation::LDX, Addressing::AbsoluteY, 4)),
        0xC0 => Some(entry(Operation::CPY, Addressing::Immediate, 2)),
        0xC1 => Some(entry(Operation::CMP, Addressing::IndexedIndirect, 6)),
        0xC4 => Some(entry(Operation::CPY, Addressing::ZeroPage, 3)),
        0xC5 => Some(entry(Operation::CMP, Addressing::ZeroPage, 3)),
        0xC6 => Some(entry(Operation::DEC, Addressing::ZeroPage, 5)),
        0xC8 => Some(entry(Operation::INY, Addressing::Implicit, 2)),
        0xC9 => Some(entry(Operation::CMP, Addressing::Immediate, 2)),
        0xCA => Some(entry(Operation::DEX, Addressing::Implicit, 2)),
        0xCC => Some(entry(Operation::CPY, Addressing::Absolute, 4)),
        0xCD => Some(entry(Operation::CMP, Addressing::Absolute, 4)),
        0xCE => Some(entry(Operation::DEC, Addressing::Absolute, 6)),
        0xD0 => Some(entry(Operation::BNE, Addressing::Relative, 2)),
        0xD1 => Some(entry(Operation::CMP, Addressing::IndirectIndexed, 5)),
        0xD5 => Some(entry(Operation::CMP, Addressing::ZeroPageX, 4)),
        0xD6 => Some(entry(Operation::DEC, Addressing::ZeroPageX, 6)),
        0xD8 => Some(entry(Operation::CLD, Addressing::Implicit, 2)),
        0xD9 => Some(entry(Operation::CMP, Addressing::AbsoluteY, 4)),
        0xDD => Some(entry(Operation::CMP, Addressing::AbsoluteX, 4)),
        0xDE => Some(entry(Operation::DEC, Addressing::AbsoluteX, 7)),
        0xE0 => Some(entry(Operation::CPX, Addressing::Immediate, 2)),
        0xE1 => Some(entry(Operation::SBC, Addressing::IndexedIndirect, 6)),
        0xE4 => Some(entry(Operation::CPX, Addressing::ZeroPage, 3)),
        0xE5 => Some(entry(Operation::SBC, Addressing::ZeroPage, 3)),
        0xE6 => Some(entry(Operation::INC, Addressing::ZeroPage, 5)),
        0xE8 => Some(entry(Operation::INX, Addressing::Implicit, 2)),
        0xE9 => Some(entry(Operation::SBC, Addressing::Immediate, 2)),
        0xEA => Some(entry(Operation::NOP, Addressing::Implicit, 2)),
        0xEC => Some(entry(Operation::CPX, Addressing::Absolute, 4)),
        0xED => Some(entry(Operation::SBC, Addressing::Absolute, 4)),
        0xEE => Some(entry(Operation::INC, Addressing::Absolute, 6)),
        0xF0 => Some(entry(Operation::BEQ, Addressing::Relative, 2)),
        0xF1 => Some(entry(Operation::SBC, Addressing::IndirectIndexed, 5)),
        0xF5 => Some(entry(Operation::SBC, Addressing::ZeroPageX, 4)),
        0xF6 => Some(entry(Operation::INC, Addressing::ZeroPageX, 6)),
        0xF8 => Some(entry(Operation::SED, Addressing::Implicit, 2)),
        0xF9 => Some(entry(Operation::SBC, Addressing::AbsoluteY, 4)),
        0xFD => Some(entry(Operation::SBC, Addressing::AbsoluteX, 4)),
        0xFE => Some(entry(Operation::INC, Addressing::AbsoluteX, 7)),
        _ => None,
    }
}

/// What an opcode byte decodes to: its table entry, or a two-cycle
/// no-operation for a byte with no assignment.
pub open spec fn decode_spec(byte: u8) -> Instruction {
    match opcode_table(byte) {
        Some(inst) => inst,
        None => entry(Operation::NOP, Addressing::Implicit, 2),
    }
}

/// Operations that act on a memory location.
pub open spec fn uses_address(op: Operation) -> bool {
    matches!(op, Operation::ADC | Operation::AND | Operation::BIT | Operation::CMP | Operation::CPX
        | Operation::CPY | Operation::DEC | Operation::EOR | Operation::INC | Operation::JMP
        | Operation::JSR | Operation::LDA | Operation::LDX | Operation::LDY | Operation::ORA
        | Operation::SBC | Operation::STA | Operation::STX | Operation::STY)
}

/// Shifts and rotates, which act on the accumulator or on memory.
pub open spec fn is_shift(op: Operation) -> bool {
    matches!(op, Operation::ASL | Operation::LSR | Operation::ROL | Operation::ROR)
}

/// Conditional branches.
pub open spec fn is_branch(op: Operation) -> bool {
    matches!(op, Operation::BCC | Operation::BCS | Operation::BEQ | Operation::BMI | Operation::BNE
        | Operation::BPL | Operation::BVC | Operation::BVS)
}

/// Modes that resolve to a memory address.
pub open spec fn addresses_memory(mode: Addressing) -> bool {
    !matches!(mode, Addressing::Implicit | Addressing::Accumulator | Addressing::Relative)
}

/// Whether an opcode byte has an entry in the opcode table; a byte without
/// one decodes to a no-operation, which a front end may want to report.
pub fn is_defined_opcode(byte: u8) -> (r: bool)
    ensures
        r == opcode_table(byte) is Some,
{
    proof {
        reveal(opcode_table);
    }
    let inst = Instruction::decode_inst(byte);
    byte == 0xEA || !(inst.operation == Operation::NOP && inst.mode == Addressing::Implicit)
}

impl Instruction {
    /// The addressing mode supplies the kind of operand the operation
    /// needs, and the instruction takes at least two cycles.
    pub open spec fn fits(self) -> bool {
        &&& self.execute_cycles >= 2
        &&& if uses_address(self.operation) {
            addresses_memory(self.mode)
        } else if is_shift(self.operation) {
            self.mode == Addressing::Accumulator || addresses_memory(self.mode)
        } else if is_branch(self.operation) {
            self.mode == Addressing::Relative
        } else {
            self.mode == Addressing::Implicit
        }
    }

    /// Decodes an opcode byte. Never fails: a byte with no assignment
    /// decodes to a two-cycle no-operation.
    pub fn decode_inst(byte: u8) -> (r: Instruction)
        ensures
            r == decode_spec(byte),
            r.fits(),
    {
        proof {
            reveal(opcode_table);
        }
        match byte {
            0x00 => Instruction { operation: Operation::BRK, mode: Addressing::Implicit, execute_cycles: 7 },
            0x01 => Instruction { operation: Operation::ORA, mode: Addressing::IndexedIndirect, execute_cycles: 6 },
            0x05 => Instruction { operation: Operation::ORA, mode: Addressing::ZeroPage, execute_cycles: 3 },
            0x06 => Instruction { operation: Operation::ASL, mode: Addressing::ZeroPage, execute_cycles: 5 },
            0x08 => Instruction { operation: Operation::PHP, mode: Addressing::Implicit, execute_cycles: 3 },
            0x09 => Instruction { operation: Operation::ORA, mode: Addressing::Immediate, execute_cycles: 2 },
            0x0A => Instruction { operation: Operation::ASL, mode: Addressing::Accumulator, execute_cycles: 2 },
            0x0D => Instruction { operation: Operation::ORA, mode: Addressing::Absolute, execute_cycles: 4 },
            0x0E => Instruction { operation: Operation::ASL, mode: Addressing::Absolute, execute_cycles: 6 },
            0x10 => Instruction { operation: Operation::BPL, mode: Addressing::Relative, execute_cycles: 2 },
            0x11 => Instruction { operation: Operation::ORA, mode: Addressing::IndirectIndexed, execute_cycles: 5 },
            0x15 => Instruction { operation: Operation::ORA, mode: Addressing::ZeroPageX, execute_cycles: 4 },
            0x16 => Instruction { operation: Operation::ASL, mode: Addressing::ZeroPageX, execute_cycles: 6 },
            0x18 => Instruction { operation: Operation::CLC, mode: Addressing::Implicit, execute_cycles: 2 },
            0x19 => Instruction { operation: Operation::ORA, mode: Addressing::AbsoluteY, execute_cycles: 4 },
            0x1D => Instruction { operation: Operation::ORA, mode: Addressing::AbsoluteX, execute_cycles: 4 },
            0x1E => Instruction { operation: Operation::ASL, mode: Addressing::AbsoluteX, execute_cycles: 7 },
            0x20 => Instruction { operation: Operation::JSR, mode: Addressing::Absolute, execute_cycles: 6 },
            0x21 => Instruction { operation: Operation::AND, mode: Addressing::IndexedIndirect, execute_cycles: 6 },
            0x24 => Instruction { operation: Operation::BIT, mode: Addressing::ZeroPage, execute_cycles: 3 },
            0x25 => Instruction { operation: Operation::AND, mode: Addressing::ZeroPage, execute_cycles: 3 },
            0x26 => Instruction { operation: Operation::ROL, mode: Addressing::ZeroPage, execute_cycles: 5 },
            0x28 => Instruction { operation: Operation::PLP, mode: Addressing::Implicit, execute_cycles: 4 },
            0x29 => Instruction { operation: Operation::AND, mode: Addressing::Immediate, execute_cycles: 2 },
            0x2A => Instruction { operation: Operation::ROL, mode: Addressing::Accumulator, execute_cycles: 2 },
            0x2C => Instruction { operation: Operation::BIT, mode: Addressing::Absolute, execute_cycles: 4 },
            0x2D => Instruction { operation: Operation::AND, mode: Addressing::Absolute, execute_cycles: 4 },
            0x2E => Instruction { operation: Operation::ROL, mode: Addressing::Absolute, execute_cycles: 6 },
            0x30 => Instruction { operation: Operation::BMI, mode: Addressing::Relative, execute_cycles: 2 },
            0x31 => Instruction { operation: Operation::AND, mode: Addressing::IndirectIndexed, execute_cycles: 5 },
            0x35 => Instruction { operation: Operation::AND, mode: Addressing::ZeroPageX, execute_cycles: 4 },
            0x36 => Instruction { operation: Operation::ROL, mode: Addressing::ZeroPageX, execute_cycles: 6 },
            0x38 => Instruction { operation: Operation::SEC, mode: Addressing::Implicit, execute_cycles: 2 },
            0x39 => Instruction { operation: Operation::AND, mode: Addressing::AbsoluteY, execute_cycles: 4 },
            0x3D => Instruction { operation: Operation::AND, mode: Addressing::AbsoluteX, execute_cycles: 4 },
            0x3E => Instruction { operation: Operation::ROL, mode: Addressing::AbsoluteX, execute_cycles: 7 },
            0x40 => Instruction { operation: Operation::RTI, mode: Addressing::Implicit, execute_cycles: 6 },
            0x41 => Instruction { operation: Operation::EOR, mode: Addressing::IndexedIndirect, execute_cycles: 6 },
            0x45 => Instruction { operation: Operation::EOR, mode: Addressing::ZeroPage, execute_cycles: 3 },
            0x46 => Instruction { operation: Operation::LSR, mode: Addressing::ZeroPage, execute_cycles: 5 },
            0x48 => Instruction { operation: Operation::PHA, mode: Addressing::Implicit, execute_cycles: 3 },
            0x49 => Instruction { operation: Operation::EOR, mode: Addressing::Immediate, execute_cycles: 2 },
            0x4A => Instruction { operation: Operation::LSR, mode: Addressing::Accumulator, execute_cycles: 2 },
            0x4C => Instruction { operation: Operation::JMP, mode: Addressing::Absolute, execute_cycles: 3 },
            0x4D => Instruction { operation: Operation::EOR, mode: Addressing::Absolute, execute_cycles: 4 },
            0x4E => Instruction { operation: Operation::LSR, mode: Addressing::Absolute, execute_cycles: 6 },
            0x50 => Instruction { operation: Operation::BVC, mode: Addressing::Relative, execute_cycles: 2 },
            0x51 => Instruction { operation: Operation::EOR, mode: Addressing::IndirectIndexed, execute_cycles: 5 },
            0x55 => Instruction { operation: Operation::EOR, mode: Addressing::ZeroPageX, execute_cycles: 4 },
            0x56 => Instruction { operation: Operation::LSR, mode: Addressing::ZeroPageX, execute_cycles: 6 },
            0x58 => Instruction { operation: Operation::CLI, mode: Addressing::Implicit, execute_cycles: 2 },
            0x59 => Instruction { operation: Operation::EOR, mode: Addressing::AbsoluteY, execute_cycles: 4 },
            0x5D => Instruction { operation: Operation::EOR, mode: Addressing::AbsoluteX, execute_cycles: 4 },
            0x5E => Instruction { operation: Operation::LSR, mode: Addressing::AbsoluteX, execute_cycles: 7 },
            0x60 => Instruction { operation: Operation::RTS, mode: Addressing::Implicit, execute_cycles: 6 },
            0x61 => Instruction { operation: Operation::ADC, mode: Addressing::IndexedIndirect, execute_cycles: 6 },
            0x65 => Instruction { operation: Operation::ADC, mode: Addressing::ZeroPage, execute_cycles: 3 },
            0x66 => Instruction { operation: Operation::ROR, mode: Addressing::ZeroPage, execute_cycles: 5 },
            0x68 => Instruction { operation: Operation::PLA, mode: Addressing::Implicit, execute_cycles: 4 },
            0x69 => Instruction { operation: Operation::ADC, mode: Addressing::Immediate, execute_cycles: 2 },
            0x6A => Instruction { operation: Operation::ROR, mode: Addressing::Accumulator, execute_cycles: 2 },
            0x6C => Instruction { operation: Operation::JMP, mode: Addressing::Indirect, execute_cycles: 5 },
            0x6D => Instruction { operation: Operation::ADC, mode: Addressing::Absolute, execute_cycles: 4 },
            0x6E => Instruction { operation: Operation::ROR, mode: Addressing::Absolute, execute_cycles: 6 },
            0x70 => Instruction { operation: Operation::BVS, mode: Addressing::Relative, execute_cycles: 2 },
            0x71 => Instruction { operation: Operation::ADC, mode: Addressing::IndirectIndexed, execute_cycles: 5 },
            0x75 => Instruction { operation: Operation::ADC, mode: Addressing::ZeroPageX, execute_cycles: 4 },
            0x76 => Instruction { operation: Operation::ROR, mode: Addressing::ZeroPageX, execute_cycles: 6 },
            0x78 => Instruction { operation: Operation::SEI, mode: Addressing::Implicit, execute_cycles: 2 },
            0x79 => Instruction { operation: Operation::ADC, mode: Addressing::AbsoluteY, execute_cycles: 4 },
            0x7D => Instruction { operation: Operation::ADC, mode: Addressing::AbsoluteX, execute_cycles: 4 },
            0x7E => Instruction { operation: Operation::ROR, mode: Addressing::AbsoluteX, execute_cycles: 7 },
            0x81 => Instruction { operation: Operation::STA, mode: Addressing::IndexedIndirect, execute_cycles: 6 },
            0x84 => Instruction { operation: Operation::STY, mode: Addressing::ZeroPage, execute_cycles: 3 },
            0x85 => Instruction { operation: Operation::STA, mode: Addressing::ZeroPage, execute_cycles: 3 },
            0x86 => Instruction { operation: Operation::STX, mode: Addressing::ZeroPage, execute_cycles: 3 },
            0x88 => Instruction { operation: Operation::DEY, mode: Addressing::Implicit, execute_cycles: 2 },
            0x8A => Instruction { operation: Operation::TXA, mode: Addressing::Implicit, execute_cycles: 2 },
            0x8C => Instruction { operation: Operation::STY, mode: Addressing::Absolute, execute_cycles: 4 },
            0x8D => Instruction { operation: Operation::STA, mode: Addressing::Absolute, execute_cycles: 4 },
            0x8E => Instruction { operation: Operation::STX, mode: Addressing::Absolute, execute_cycles: 4 },
            0x90 => Instruction { operation: Operation::BCC, mode: Addressing::Relative, execute_cycles: 2 },
            0x91 => Instruction { operation: Operation::STA, mode: Addressing::IndirectIndexed, execute_cycles: 6 },
            0x94 => Instruction { operation: Operation::STY, mode: Addressing::ZeroPageX, execute_cycles: 4 },
            0x95 => Instruction { operation: Operation::STA, mode: Addressing::ZeroPageX, execute_cycles: 4 },
            0x96 => Instruction { operation: Operation::STX, mode: Addressing::ZeroPageY, execute_cycles: 4 },
            0x98 => Instruction { operation: Operation::TYA, mode: Addressing::Implicit, execute_cycles: 2 },
            0x99 => Instruction { operation: Operation::STA, mode: Addressing::AbsoluteY, execute_cycles: 5 },
            0x9A => Instruction { operation: Operation::TXS, mode: Addressing::Implicit, execute_cycles: 2 },
            0x9D => Instruction { operation: Operation::STA, mode: Addressing::AbsoluteX, execute_cycles: 5 },
            0xA0 => Instruction { operation: Operation::LDY, mode: Addressing::Immediate, execute_cycles: 2 },
            0xA1 => Instruction { operation: Operation::LDA, mode: Addressing::IndexedIndirect, execute_cycles: 6 },
            0xA2 => Instruction { operation: Operation::LDX, mode: Addressing::Immediate, execute_cycles: 2 },
            0xA4 => Instruction { operation: Operation::LDY, mode: Addressing::ZeroPage, execute_cycles: 3 },
            0xA5 => Instruction { operation: Operation::LDA, mode: Addressing::ZeroPage, execute_cycles: 3 },
            0xA6 => Instruction { operation: Operation::LDX, mode: Addressing::ZeroPage, execute_cycles: 3 },
            0xA8 => Instruction { operation: Operation::TAY, mode: Addressing::Implicit, execute_cycles: 2 },
            0xA9 => Instruction { operation: Operation::LDA, mode: Addressing::Immediate, execute_cycles: 2 },
            0xAA => Instruction { operation: Operation::TAX, mode: Addressing::Implicit, execute_cycles: 2 },
            0xAC => Instruction { operation: Operation::LDY, mode: Addressing::Absolute, execute_cycles: 4 },
            0xAD => Instruction { operation: Operation::LDA, mode: Addressing::Absolute, execute_cycles: 4 },
            0xAE => Instruction { operation: Operation::LDX, mode: Addressing::Absolute, execute_cycles: 4 },
            0xB0 => Instruction { operation: Operation::BCS, mode: Addressing::Relative, execute_cycles: 2 },
            0xB1 => Instruction { operation: Operation::LDA, mode: Addressing::IndirectIndexed, execute_cycles: 5 },
            0xB4 => Instruction { operation: Operation::LDY, mode: Addressing::ZeroPageX, execute_cycles: 4 },
            0xB5 => Instruction { operation: Operation::LDA, mode: Addressing::ZeroPageX, execute_cycles: 4 },
            0xB6 => Instruction { operation: Operation::LDX, mode: Addressing::ZeroPageY, execute_cycles: 4 },
            0xB8 => Instruction { operation: Operation::CLV, mode: Addressing::Implicit, execute_cycles: 2 },
            0xB9 => Instruction { operation: Operation::LDA, mode: Addressing::AbsoluteY, execute_cycles: 4 },
            0xBA => Instruction { operation: Operation::TSX, mode: Addressing::Implicit, execute_cycles: 2 },
            0xBC => Instruction { operation: Operation::LDY, mode: Addressing::AbsoluteX, execute_cycles: 4 },
            0xBD => Instruction { operation: Operation::LDA, mode: Addressing::AbsoluteX, execute_cycles: 4 },
            0xBE => Instruction { operation: Operation::LDX, mode: Addressing::AbsoluteY, execute_cycles: 4 },
            0xC0 => Instruction { operation: Operation::CPY, mode: Addressing::Immediate, execute_cycles: 2 },
            0xC1 => Instruction { operation: Operation::CMP, mode: Addressing::IndexedIndirect, execute_cycles: 6 },
            0xC4 => Instruction { operation: Operation::CPY, mode: Addressing::ZeroPage, execute_cycles: 3 },
            0xC5 => Instruction { operation: Operation::CMP, mode: Addressing::ZeroPage, execute_cycles: 3 },
            0xC6 => Instruction { operation: Operation::DEC, mode: Addressing::ZeroPage, execute_cycles: 5 },
            0xC8 => Instruction { operation: Operation::INY, mode: Addressing::Implicit, execute_cycles: 2 },
            0xC9 => Instruction { operation: Operation::CMP, mode: Addressing::Immediate, execute_cycles: 2 },
            0xCA => Instruction { operation: Operation::DEX, mode: Addressing::Implicit, execute_cycles: 2 },
            0xCC => Instruction { operation: Operation::CPY, mode: Addressing::Absolute, execute_cycles: 4 },
            0xCD => Instruction { operation: Operation::CMP, mode: Addressing::Absolute, execute_cycles: 4 },
            0xCE => Instruction { operation: Operation::DEC, mode: Addressing::Absolute, execute_cycles: 6 },
            0xD0 => Instruction { operation: Operation::BNE, mode: Addressing::Relative, execute_cycles: 2 },
            0xD1 => Instruction { operation: Operation::CMP, mode: Addressing::IndirectIndexed, execute_cycles: 5 },
            0xD5 => Instruction { operation: Operation::CMP, mode: Addressing::ZeroPageX, execute_cycles: 4 },
            0xD6 => Instruction { operation: Operation::DEC, mode: Addressing::ZeroPageX, execute_cycles: 6 },
            0xD8 => Instruction { operation: Operation::CLD, mode: Addressing::Implicit, execute_cycles: 2 },
            0xD9 => Instruction { operation: Operation::CMP, mode: Addressing::AbsoluteY, execute_cycles: 4 },
            0xDD => Instruction { operation: Operation::CMP, mode: Addressing::AbsoluteX, execute_cycles: 4 },
            0xDE => Instruction { operation: Operation::DEC, mode: Addressing::AbsoluteX, execute_cycles: 7 },
            0xE0 => Instruction { operation: Operation::CPX, mode: Addressing::Immediate, execute_cycles: 2 },
            0xE1 => Instruction { operation: Operation::SBC, mode: Addressing::IndexedIndirect, execute_cycles: 6 },
            0xE4 => Instruction { operation: Operation::CPX, mode: Addressing::ZeroPage, execute_cycles: 3 },
            0xE5 => Instruction { operation: Operation::SBC, mode: Addressing::ZeroPage, execute_cycles: 3 },
            0xE6 => Instruction { operation: Operation::INC, mode: Addressing::ZeroPage, execute_cycles: 5 },
            0xE8 => Instruction { operation: Operation::INX, mode: Addressing::Implicit, execute_cycles: 2 },
            0xE9 => Instruction { operation: Operation::SBC, mode: Addressing::Immediate, execute_cycles: 2 },
            0xEA => Instruction { operation: Operation::NOP, mode: Addressing::Implicit, execute_cycles: 2 },
            0xEC => Instruction { operation: Operation::CPX, mode: Addressing::Absolute, execute_cycles: 4 },
            0xED => Instruction { operation: Operation::SBC, mode: Addressing::Absolute, execute_cycles: 4 },
            0xEE => Instruction { operation: Operation::INC, mode: Addressing::Absolute, execute_cycles: 6 },
            0xF0 => Instruction { operation: Operation::BEQ, mode: Addressing::Relative, execute_cycles: 2 },
            0xF1 => Instruction { operation: Operation::SBC, mode: Addressing::IndirectIndexed, execute_cycles: 5 },
            0xF5 => Instruction { operation: Operation::SBC, mode: Addressing::ZeroPageX, execute_cycles: 4 },
            0xF6 => Instruction { operation: Operation::INC, mode: Addressing::ZeroPageX, execute_cycles: 6 },
            0xF8 => Instruction { operation: Operation::SED, mode: Addressing::Implicit, execute_cycles: 2 },
            0xF9 => Instruction { operation: Operation::SBC, mode: Addressing::AbsoluteY, execute_cycles: 4 },
            0xFD => Instruction { operation: Operation::SBC, mode: Addressing::AbsoluteX, execute_cycles: 4 },
            0xFE => Instruction { operation: Operation::INC, mode: Addressing::AbsoluteX, execute_cycles: 7 },
            _ => Instruction { operation: Operation::NOP, mode: Addressing::Implicit, execute_cycles: 2 },
        }
    }
}

/// Where an operation finds its operand once the addressing mode has been
/// resolved.
#[derive(Clone, Copy, Debug, PartialEq, Eq, Structural)]
pub enum Operand {
    /// No operand.
    Implied,
    /// The accumulator register.
    Accumulator,
    /// A memory location (for an immediate operand, the byte at the
    /// program counter itself).
    Address(u16),
    /// A signed branch offset.
    Offset(u8),
}

/// The outcome of resolving an addressing mode: the operand, where the
/// program counter goes past the operand bytes, and whether indexing
/// crossed a page.
#[derive(Clone, Copy, Debug, PartialEq, Eq, Structural)]
pub struct Resolved {
    pub operand: Operand,
    pub next_pc: u16,
    pub page_crossed: bool,
}

/// `base` indexed by `index` (wrapping at 0xFFFF); a page cross is
/// reported when the high byte changes.
pub open spec fn indexed(base: u16, index: u8, next_pc: u16) -> Resolved {
    Resolved {
        operand: Operand::Address(wrap16(base + index)),
        next_pc,
        page_crossed: page(base) != page(wrap16(base + index)),
    }
}

/// The target of an indirect jump through `ptr`. As on the hardware, the
/// high byte is fetched from the same page as the low byte: a pointer at
/// 0xxxFF takes its high byte from 0xxx00.
pub open spec fn indirect_target(s: CpuView, ptr: u16) -> u16 {
    word(s.read(ptr), s.read((page(ptr) * 256 + (ptr + 1) % 256) as u16))
}

/// A resolution without a page cross.
pub open spec fn plain(operand: Operand, next_pc: u16) -> Resolved {
    Resolved { operand, next_pc, page_crossed: false }
}

/// The address stored at the program counter and the byte after it.
pub open spec fn operand_word(s: CpuView) -> u16 {
    s.read_addr(s.program_counter)
}

/// Immediate: the operand is the byte at the program counter itself.
pub open spec fn resolve_immediate(s: CpuView) -> Resolved {
    plain(Operand::Address(s.program_counter), wrap16(s.program_counter + 1))
}

/// Zero page, optionally indexed: one operand byte plus `index`, wrapping
/// within page 0.
pub open spec fn resolve_zero_page(s: CpuView, index: u8) -> Resolved {
    plain(
        Operand::Address(wrap8(s.read(s.program_counter) + index) as u16),
        wrap16(s.program_counter + 1),
    )
}

/// Relative: one operand byte, the branch offset.
pub open spec fn resolve_relative(s: CpuView) -> Resolved {
    plain(Operand::Offset(s.read(s.program_counter)), wrap16(s.program_counter + 1))
}

/// Absolute, optionally indexed: two operand bytes plus `index`.
pub open spec fn resolve_absolute(s: CpuView, index: u8) -> Resolved {
    indexed(operand_word(s), index, wrap16(s.program_counter + 2))
}

/// Indirect: two operand bytes point at the target.
pub open spec fn resolve_indirect(s: CpuView) -> Resolved {
    plain(
        Operand::Address(indirect_target(s, operand_word(s))),
        wrap16(s.program_counter + 2),
    )
}

/// Indexed indirect: the operand byte plus X, wrapping within page 0,
/// points at the address.
pub open spec fn resolve_indexed_indirect(s: CpuView) -> Resolved {
    plain(
        Operand::Address(s.read_addr(wrap8(s.read(s.program_counter) + s.reg_x) as u16)),
        wrap16(s.program_counter + 1),
    )
}

/// Indirect indexed: the operand byte points at a base address, to which
/// Y is added.
pub open spec fn resolve_indirect_indexed(s: CpuView) -> Resolved {
    indexed(s.read_addr(s.read(s.program_counter) as u16), s.reg_y, wrap16(s.program_counter + 1))
}

/// The resolution of `mode`, with the program counter at the first byte
/// after the opcode.
pub open spec fn resolve(s: CpuView, mode: Addressing) -> Resolved {
    match mode {
        Addressing::Implicit => plain(Operand::Implied, s.program_counter),
        Addressing::Accumulator => plain(Operand::Accumulator, s.program_counter),
        Addressing::Immediate => resolve_immediate(s),
        Addressing::ZeroPage => resolve_zero_page(s, 0),
        Addressing::ZeroPageX => resolve_zero_page(s, s.reg_x),
        Addressing::ZeroPageY => resolve_zero_page(s, s.reg_y),
        Addressing::Relative => resolve_relative(s),
        Addressing::Absolute => resolve_absolute(s, 0),
        Addressing::AbsoluteX => resolve_absolute(s, s.reg_x),
        Addressing::AbsoluteY => resolve_absolute(s, s.reg_y),
        Addressing::Indirect => resolve_indirect(s),
        Addressing::IndexedIndirect => resolve_indexed_indirect(s),
        Addressing::IndirectIndexed => resolve_indirect_indexed(s),
    }
}

/// A shift or rotate of `v` with carry-in `carry`.
pub open spec fn shift_spec(op: Operation, v: u8, carry: bool) -> (u8, bool) {
    match op {
        Operation::ASL => asl_spec(v),
        Operation::LSR => lsr_spec(v),
        Operation::ROL => rol_spec(v, carry),
        _ => ror_spec(v, carry),
    }
}

/// What an operation does with a resolved operand. Pairs that the opcode
/// table never produces (an operation with an operand of the wrong kind)
/// leave the state as it is.
#[verifier::opaque]
pub open spec fn operate(s: CpuView, op: Operation, operand: Operand) -> CpuView {
    match operand {
        Operand::Address(addr) => match op {
            Operation::ADC => adc_spec(s, addr),
            Operation::AND => and_spec(s, addr),
            Operation::BIT => bit_spec(s, addr),
            Operation::CMP => compare_spec(s, s.accumulator, addr),
            Operation::CPX => compare_spec(s, s.reg_x, addr),
            Operation::CPY => compare_spec(s, s.reg_y, addr),
            Operation::DEC => dec_spec(s, addr),
            Operation::EOR => eor_spec(s, addr),
            Operation::INC => inc_spec(s, addr),
            Operation::JMP => s.jump(addr),
            Operation::JSR => jsr_spec(s, addr),
            Operation::LDA => load_a(s, s.read(addr)),
            Operation::LDX => load_x(s, s.read(addr)),
            Operation::LDY => load_y(s, s.read(addr)),
            Operation::ORA => ora_spec(s, addr),
            Operation::SBC => sbc_spec(s, addr),
            Operation::STA => s.write(addr, s.accumulator),
            Operation::STX => s.write(addr, s.reg_x),
            Operation::STY => s.write(addr, s.reg_y),
            Operation::ASL | Operation::LSR | Operation::ROL | Operation::ROR => {
                let shifted = shift_spec(op, s.read(addr), s.status_flags.carry);
                with_flags(s.write(addr, shifted.0), shift_flags(s.status_flags, shifted))
            },
            _ => s,
        },
        Operand::Accumulator => match op {
            Operation::ASL | Operation::LSR | Operation::ROL | Operation::ROR => {
                let shifted = shift_spec(op, s.accumulator, s.status_flags.carry);
                CpuView {
                    accumulator: shifted.0,
                    status_flags: shift_flags(s.status_flags, shifted),
                    ..s
                }
            },
            _ => s,
        },
        Operand::Offset(offset) => branch_spec(s, branch_taken(op, s.status_flags), offset),
        Operand::Implied => match op {
            Operation::BRK => brk_spec(s),
            Operation::CLC => with_flags(s, Flags { carry: false, ..s.status_flags }),
            Operation::CLD => with_flags(s, Flags { decimal_mode: false, ..s.status_flags }),
            Operation::CLI => with_flags(s, Flags { irq_disable: false, ..s.status_flags }),
            Operation::CLV => with_flags(s, Flags { overflow: false, ..s.status_flags }),
            Operation::DEX => load_x(s, wrap8(s.reg_x + 255)),
            Operation::DEY => load_y(s, wrap8(s.reg_y + 255)),
            Operation::INX => load_x(s, wrap8(s.reg_x + 1)),
            Operation::INY => load_y(s, wrap8(s.reg_y + 1)),
            Operation::PHA => s.push(s.accumulator),
            Operation::PHP => s.push(s.status_flags.bits()),
            Operation::PLA => pla_spec(s),
            Operation::PLP => plp_spec(s),
            Operation::RTI => rti_spec(s),
            Operation::RTS => rts_spec(s),
            Operation::SEC => with_flags(s, Flags { carry: true, ..s.status_flags }),
            Operation::SED => with_flags(s, Flags { decimal_mode: true, ..s.status_flags }),
            Operation::SEI => with_flags(s, Flags { irq_disable: true, ..s.status_flags }),
            Operation::TAX => load_x(s, s.accumulator),
            Operation::TAY => load_y(s, s.accumulator),
            Operation::TSX => load_x(s, s.stack_pointer),
            Operation::TXA => load_a(s, s.reg_x),
            Operation::TXS => CpuView { stack_pointer: s.reg_x, ..s }.with_nz(s.reg_x),
            Operation::TYA => load_a(s, s.reg_y),
            _ => s,
        },
    }
}

/// Operations touch neither the driver's state nor its cycle count.
pub proof fn lemma_operate_keeps_driver(s: CpuView, op: Operation, operand: Operand)
    ensures
        operate(s, op, operand).state == s.state,
        operate(s, op, operand).inst == s.inst,
        operate(s, op, operand).cycle == s.cycle,
{
    reveal(operate);
}

/// Extra cycles of a branch: one when taken, one more when the target is
/// on another page than the instruction that follows the branch.
pub open spec fn branch_penalty(s: CpuView, op: Operation, operand: Operand) -> int {
    match operand {
        Operand::Offset(offset) => if branch_taken(op, s.status_flags) {
            1 + if page(s.program_counter) != page(branch_target(s, offset)) {
                1int
            } else {
                0int
            }
        } else {
            0
        },
        _ => 0,
    }
}

/// Running an instruction whose opcode is at the program counter: step
/// past the opcode, resolve the operand, apply the operation. Returns the
/// new state and the penalty cycles (page cross, branch taken, branch to
/// another page).
pub open spec fn execute_spec(s: CpuView, inst: Instruction) -> (CpuView, u8) {
    let after_opcode = s.jump(wrap16(s.program_counter + 1));
    let r = resolve(after_opcode, inst.mode);
    let ready = after_opcode.jump(r.next_pc);
    (
        operate(ready, inst.operation, r.operand),
        ((if r.page_crossed { 1int } else { 0int }) + branch_penalty(ready, inst.operation, r.operand)) as u8,
    )
}

impl Instruction {
    /// No operand bytes and no operand.
    fn implicit(cpu: &mut CPU) -> (r: Resolved)
        requires
            old(cpu).wf(),
        ensures
            final(cpu).wf(),
            r == plain(Operand::Implied, old(cpu).program_counter),
            final(cpu)@ == old(cpu)@.jump(r.next_pc),
    {
        Resolved { operand: Operand::Implied, next_pc: cpu.program_counter, page_crossed: false }
    }

    /// No operand bytes; the operand is the accumulator.
    fn accumulator(cpu: &mut CPU) -> (r: Resolved)
        requires
            old(cpu).wf(),
        ensures
            final(cpu).wf(),
            r == plain(Operand::Accumulator, old(cpu).program_counter),
            final(cpu)@ == old(cpu)@.jump(r.next_pc),
    {
        Resolved { operand: Operand::Accumulator, next_pc: cpu.program_counter, page_crossed: false }
    }

    /// The operand is the byte at the program counter itself.
    fn immediate(cpu: &mut CPU) -> (r: Resolved)
        requires
            old(cpu).wf(),
        ensures
            final(cpu).wf(),
            r == resolve_immediate(old(cpu)@),
            final(cpu)@ == old(cpu)@.jump(r.next_pc),
    {
        let addr = cpu.program_counter;
        cpu.program_counter = cpu.program_counter.wrapping_add(1);
        Resolved { operand: Operand::Address(addr), next_pc: cpu.program_counter, page_crossed: false }
    }

    /// One operand byte: an address in page 0.
    fn zero_page(cpu: &mut CPU) -> (r: Resolved)
        requires
            old(cpu).wf(),
        ensures
            final(cpu).wf(),
            r == resolve_zero_page(old(cpu)@, 0),
            final(cpu)@ == old(cpu)@.jump(r.next_pc),
    {
        let addr = cpu.fetch() as u16;
        cpu.program_counter = cpu.program_counter.wrapping_add(1);
        Resolved { operand: Operand::Address(addr), next_pc: cpu.program_counter, page_crossed: false }
    }

    /// One operand byte plus X, wrapping within page 0.
    fn zero_page_x(cpu: &mut CPU) -> (r: Resolved)
        requires
            old(cpu).wf(),
        ensures
            final(cpu).wf(),
            r == resolve_zero_page(old(cpu)@, old(cpu).reg_x),
            final(cpu)@ == old(cpu)@.jump(r.next_pc),
    {
        let addr = cpu.fetch().wrapping_add(cpu.reg_x) as u16;
        cpu.program_counter = cpu.program_counter.wrapping_add(1);
        Resolved { operand: Operand::Address(addr), next_pc: cpu.program_counter, page_crossed: false }
    }

    /// One operand byte plus Y, wrapping within page 0.
    fn zero_page_y(cpu: &mut CPU) -> (r: Resolved)
        requires
            old(cpu).wf(),
        ensures
            final(cpu).wf(),
            r == resolve_zero_page(old(cpu)@, old(cpu).reg_y),
            final(cpu)@ == old(cpu)@.jump(r.next_pc),
    {
        let addr = cpu.fetch().wrapping_add(cpu.reg_y) as u16;
        cpu.program_counter = cpu.program_counter.wrapping_add(1);
        Resolved { operand: Operand::Address(addr), next_pc: cpu.program_counter, page_crossed: false }
    }

    /// One operand byte: a signed branch offset.
    fn relative(cpu: &mut CPU) -> (r: Resolved)
        requires
            old(cpu).wf(),
        ensures
            final(cpu).wf(),
            r == resolve_relative(old(cpu)@),
            final(cpu)@ == old(cpu)@.jump(r.next_pc),
    {
        let offset = cpu.fetch();
        cpu.program_counter = cpu.program_counter.wrapping_add(1);
        Resolved { operand: Operand::Offset(offset), next_pc: cpu.program_counter, page_crossed: false }
    }

    /// Two operand bytes: a little-endian address.
    fn absolute(cpu: &mut CPU) -> (r: Resolved)
        requires
            old(cpu).wf(),
        ensures
            final(cpu).wf(),
            r == resolve_absolute(old(cpu)@, 0),
            final(cpu)@ == old(cpu)@.jump(r.next_pc),
    {
        let addr = cpu.read_memory_addr(cpu.program_counter);
        cpu.program_counter = cpu.program_counter.wrapping_add(2);
        Resolved { operand: Operand::Address(addr), next_pc: cpu.program_counter, page_crossed: false }
    }

    /// Two operand bytes plus X; reports a page cross.
    fn absolute_x(cpu: &mut CPU) -> (r: Resolved)
        requires
            old(cpu).wf(),
        ensures
            final(cpu).wf(),
            r == resolve_absolute(old(cpu)@, old(cpu).reg_x),
            final(cpu)@ == old(cpu)@.jump(r.next_pc),
    {
        let base = cpu.read_memory_addr(cpu.program_counter);
        let cross = cross_boundary(base, cpu.reg_x);
        let addr = base.wrapping_add(cpu.reg_x as u16);
        cpu.program_counter = cpu.program_counter.wrapping_add(2);
        Resolved { operand: Operand::Address(addr), next_pc: cpu.program_counter, page_crossed: cross }
    }

    /// Two operand bytes plus Y; reports a page cross.
    fn absolute_y(cpu: &mut CPU) -> (r: Resolved)
        requires
            old(cpu).wf(),
        ensures
            final(cpu).wf(),
            r == resolve_absolute(old(cpu)@, old(cpu).reg_y),
            final(cpu)@ == old(cpu)@.jump(r.next_pc),
    {
        let base = cpu.read_memory_addr(cpu.program_counter);
        let cross = cross_boundary(base, cpu.reg_y);
        let addr = base.wrapping_add(cpu.reg_y as u16);
        cpu.program_counter = cpu.program_counter.wrapping_add(2);
        Resolved { operand: Operand::Address(addr), next_pc: cpu.program_counter, page_crossed: cross }
    }

    /// Two operand bytes point at the target address (jumps only), with
    /// the hardware's wrap within the pointer's page.
    fn indirect(cpu: &mut CPU) -> (r: Resolved)
        requires
            old(cpu).wf(),
        ensures
            final(cpu).wf(),
            r == resolve_indirect(old(cpu)@),
            final(cpu)@ == old(cpu)@.jump(r.next_pc),
    {
        let ptr = cpu.read_memory_addr(cpu.program_counter);
        let lo = cpu.read_memory(ptr);
        let hi = cpu.read_memory((ptr / 256) * 256 + (ptr % 256 + 1) % 256);
        let addr = convert_addr(&[lo, hi]);
        cpu.program_counter = cpu.program_counter.wrapping_add(2);
        Resolved { operand: Operand::Address(addr), next_pc: cpu.program_counter, page_crossed: false }
    }

    /// One operand byte plus X (wrapping in page 0) points at the address.
    fn indexed_indirect(cpu: &mut CPU) -> (r: Resolved)
        requires
            old(cpu).wf(),
        ensures
            final(cpu).wf(),
            r == resolve_indexed_indirect(old(cpu)@),
            final(cpu)@ == old(cpu)@.jump(r.next_pc),
    {
        let zp = cpu.fetch().wrapping_add(cpu.reg_x);
        let addr = cpu.read_memory_addr(zp as u16);
        cpu.program_counter = cpu.program_counter.wrapping_add(1);
        Resolved { operand: Operand::Address(addr), next_pc: cpu.program_counter, page_crossed: false }
    }

    /// One operand byte points at a base address, to which Y is added;
    /// reports a page cross.
    fn indirect_indexed(cpu: &mut CPU) -> (r: Resolved)
        requires
            old(cpu).wf(),
        ensures
            final(cpu).wf(),
            r == resolve_indirect_indexed(old(cpu)@),
            final(cpu)@ == old(cpu)@.jump(r.next_pc),
    {
        let zp = cpu.fetch() as u16;
        let base = cpu.read_memory_addr(zp);
        let cross = cross_boundary(base, cpu.reg_y);
        let addr = base.wrapping_add(cpu.reg_y as u16);
        cpu.program_counter = cpu.program_counter.wrapping_add(1);
        Resolved { operand: Operand::Address(addr), next_pc: cpu.program_counter, page_crossed: cross }
    }

    /// Resolves the addressing mode, moving the program counter past the
    /// operand bytes.
    fn resolve_mode(&self, cpu: &mut CPU) -> (r: Resolved)
        requires
            old(cpu).wf(),
        ensures
            final(cpu).wf(),
            r == resolve(old(cpu)@, self.mode),
            final(cpu)@ == old(cpu)@.jump(r.next_pc),
    {
        match self.mode {
            Addressing::Implicit => Instruction::implicit(cpu),
            Addressing::Accumulator => Instruction::accumulator(cpu),
            Addressing::Immediate => Instruction::immediate(cpu),
            Addressing::ZeroPage => Instruction::zero_page(cpu),
            Addressing::ZeroPageX => Instruction::zero_page_x(cpu),
            Addressing::ZeroPageY => Instruction::zero_page_y(cpu),
            Addressing::Relative => Instruction::relative(cpu),
            Addressing::Absolute => Instruction::absolute(cpu),
            Addressing::AbsoluteX => Instruction::absolute_x(cpu),
            Addressing::AbsoluteY => Instruction::absolute_y(cpu),
            Addressing::Indirect => Instruction::indirect(cpu),
            Addressing::IndexedIndirect => Instruction::indexed_indirect(cpu),
            Addressing::IndirectIndexed => Instruction::indirect_indexed(cpu),
        }
    }

    /// Applies the operation to a resolved operand; returns whether a
    /// branch was taken.
    fn operate(&self, cpu: &mut CPU, operand: Operand) -> (taken: bool)
        requires
            old(cpu).wf(),
        ensures
            final(cpu).wf(),
            final(cpu)@ == operate(old(cpu)@, self.operation, operand),
            taken == (operand is Offset && branch_taken(self.operation, old(cpu).status_flags)),
    {
        proof {
            reveal(operate);
        }
        match operand {
            Operand::Address(addr) => {
                match self.operation {
                    Operation::ADC => adc(cpu, addr),
                    Operation::AND => and(cpu, addr),
                    Operation::BIT => bit(cpu, addr),
                    Operation::CMP => cmp(cpu, addr),
                    Operation::CPX => cpx(cpu, addr),
                    Operation::CPY => cpy(cpu, addr),
                    Operation::DEC => dec(cpu, addr),
                    Operation::EOR => eor(cpu, addr),
                    Operation::INC => inc(cpu, addr),
                    Operation::JMP => jmp(cpu, addr),
                    Operation::JSR => jsr(cpu, addr),
                    Operation::LDA => lda(cpu, addr),
                    Operation::LDX => ldx(cpu, addr),
                    Operation::LDY => ldy(cpu, addr),
                    Operation::ORA => ora(cpu, addr),
                    Operation::SBC => sbc(cpu, addr),
                    Operation::STA => sta(cpu, addr),
                    Operation::STX => stx(cpu, addr),
                    Operation::STY => sty(cpu, addr),
                    Operation::ASL | Operation::LSR | Operation::ROL | Operation::ROR => {
                        let byte = cpu.read_memory(addr);
                        let shifted = shift(self.operation, byte, cpu.status_flags.carry);
                        cpu.write_memory(addr, shifted.0);
                        set_shift_flags(cpu, shifted);
                    },
                    _ => {},
                }
                false
            },
            Operand::Accumulator => {
                match self.operation {
                    Operation::ASL | Operation::LSR | Operation::ROL | Operation::ROR => {
                        let shifted = shift(self.operation, cpu.accumulator, cpu.status_flags.carry);
                        cpu.accumulator = shifted.0;
                        set_shift_flags(cpu, shifted);
                    },
                    _ => {},
                }
                false
            },
            Operand::Offset(offset) => match self.operation {
                Operation::BCC => bcc(cpu, offset),
                Operation::BCS => bcs(cpu, offset),
                Operation::BEQ => beq(cpu, offset),
                Operation::BMI => bmi(cpu, offset),
                Operation::BNE => bne(cpu, offset),
                Operation::BPL => bpl(cpu, offset),
                Operation::BVC => bvc(cpu, offset),
                Operation::BVS => bvs(cpu, offset),
                _ => false,
            },
            Operand::Implied => {
                match self.operation {
                    Operation::BRK => brk(cpu),
                    Operation::CLC => clc(cpu),
                    Operation::CLD => cld(cpu),
                    Operation::CLI => cli(cpu),
                    Operation::CLV => clv(cpu),
                    Operation::DEX => dex(cpu),
                    Operation::DEY => dey(cpu),
                    Operation::INX => inx(cpu),
                    Operation::INY => iny(cpu),
                    Operation::PHA => pha(cpu),
                    Operation::PHP => php(cpu),
                    Operation::PLA => pla(cpu),
                    Operation::PLP => plp(cpu),
                    Operation::RTI => rti(cpu),
                    Operation::RTS => rts(cpu),
                    Operation::SEC => sec(cpu),
                    Operation::SED => sed(cpu),
                    Operation::SEI => sei(cpu),
                    Operation::TAX => tax(cpu),
                    Operation::TAY => tay(cpu),
                    Operation::TSX => tsx(cpu),
                    Operation::TXA => txa(cpu),
                    Operation::TXS => txs(cpu),
                    Operation::TYA => tya(cpu),
                    _ => nop(),
                }
                false
            },
        }
    }

    /// Runs the instruction whose opcode is at the program counter:
    /// steps past the opcode, resolves the operand, applies the operation.
    /// Returns the penalty cycles owed for a page cross or a taken branch.
    pub fn execute(&self, cpu: &mut CPU) -> (delay: u8)
        requires
            old(cpu).wf(),
        ensures
            final(cpu).wf(),
            (final(cpu)@, delay) == execute_spec(old(cpu)@, *self),
            final(cpu).state == old(cpu).state,
            final(cpu).inst == old(cpu).inst,
            final(cpu).cycle == old(cpu).cycle,
    {
        let ghost s0 = cpu@;
        cpu.program_counter = cpu.program_counter.wrapping_add(1);
        let ghost after_opcode = cpu@;
        assert(after_opcode == s0.jump(wrap16(s0.program_counter + 1)));
        let resolved = self.resolve_mode(cpu);
        let ghost ready = cpu@;
        let before: u16 = cpu.program_counter;
        let taken = self.operate(cpu, resolved.operand);
        proof {
            lemma_operate_keeps_driver(ready, self.operation, resolved.operand);
        }
        let mut delay: u8 = if resolved.page_crossed { 1 } else { 0 };
        if taken {
            delay = delay + 1;
            if before / 256 != cpu.program_counter / 256 {
                delay = delay + 1;
            }
        }
        proof {
            let penalty = branch_penalty(ready, self.operation, resolved.operand);
            if taken {
                let offset = resolved.operand->Offset_0;
                assert(cpu.program_counter == branch_target(ready, offset)) by {
                    reveal(operate);
                }
            }
            assert(delay == (if resolved.page_crossed { 1int } else { 0int }) + penalty);
        }
        delay
    }
}

/// Shifts or rotates `byte` as `op` says, with carry-in `carry`.
fn shift(op: Operation, byte: u8, carry: bool) -> (r: (u8, bool))
    ensures
        r == shift_spec(op, byte, carry),
{
    match op {
        Operation::ASL => asl(byte),
        Operation::LSR => lsr(byte),
        Operation::ROL => rol(byte, carry),
        _ => ror(byte, carry),
    }
}

/// Carry from the bit shifted out, zero and sign from the new byte.
fn set_shift_flags(cpu: &mut CPU, shifted: (u8, bool))
    requires
        old(cpu).wf(),
    ensures
        final(cpu).wf(),
        final(cpu)@ == with_flags(old(cpu)@, shift_flags(old(cpu).status_flags, shifted)),
{
    cpu.status_flags.carry = shifted.1;
    cpu.set_zero(shifted.0);
    cpu.set_signed(shifted.0);
}

/// Every branch instruction moves the program counter past its two bytes
/// and, when its single flag test holds, on by the signed offset; its
/// penalty is one cycle when taken and one more when the target is on
/// another page than the next instruction.
#[verifier::rlimit(40)]
pub proof fn lemma_execute_branch(s: CpuView, inst: Instruction)
    requires
        inst.mode == Addressing::Relative,
    ensures
        ({
            let next = wrap16(s.program_counter + 2);
            let target = wrap16(next + signed_offset(s.read(wrap16(s.program_counter + 1))));
            let taken = branch_taken(inst.operation, s.status_flags);
            &&& execute_spec(s, inst).0 == if taken {
                s.jump(target)
            } else {
                s.jump(next)
            }
            &&& execute_spec(s, inst).1 == if !taken {
                0u8
            } else if page(next) == page(target) {
                1u8
            } else {
                2u8
            }
        }),
{
    let after_opcode = s.jump(wrap16(s.program_counter + 1));
    let ready = after_opcode.jump(wrap16(s.program_counter + 2));
    let offset = s.read(wrap16(s.program_counter + 1));
    assert(wrap16(wrap16(s.program_counter + 1) + 1) == wrap16(s.program_counter + 2));
    assert(resolve(after_opcode, Addressing::Relative) == resolve_relative(after_opcode));
    let taken = branch_taken(inst.operation, s.status_flags);
    assert(operate(ready, inst.operation, Operand::Offset(offset)) == branch_spec(
        ready,
        taken,
        offset,
    )) by {
        reveal(operate);
    }
    assert(branch_target(ready, offset) == wrap16(
        wrap16(s.program_counter + 2) + signed_offset(offset),
    ));
    assert(branch_penalty(ready, inst.operation, Operand::Offset(offset)) == if !taken {
        0int
    } else if page(wrap16(s.program_counter + 2)) == page(branch_target(ready, offset)) {
        1int
    } else {
        2int
    });
}

} // verus!
