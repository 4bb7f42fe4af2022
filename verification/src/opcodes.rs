//! The instruction descriptors and the literal specification of the supported
//! opcode set. Every entry's opcode, mnemonic, length, base cycle count,
//! addressing mode and penalty flags are fixed data, stated once as a spec
//! sequence and produced by a builder proved to match it exactly.

use vstd::prelude::*;

use crate::mode::AddressingMode;
use crate::mode::PenaltyFlags;

verus! {

/// One instruction descriptor: everything the decode loop needs to know about
/// a single opcode byte.
#[derive(Clone, Copy, Debug)]
pub struct OpCode {
    /// The opcode byte, the unique key.
    pub code: u8,
    /// Symbolic instruction name; addressing-mode variants of one instruction
    /// share it.
    pub mnemonic: &'static str,
    /// Total encoding length in bytes, including the opcode byte.
    pub len: u8,
    /// Minimum execution cost in cycles, before any conditional penalty.
    pub cycles: u8,
    /// How the operand bytes are interpreted.
    pub mode: AddressingMode,
    /// Which conditional cycle costs may apply.
    pub penalty: PenaltyFlags,
}

/// Mathematical model of a descriptor: the mnemonic as a character sequence,
/// all other fields as they are.
pub ghost struct Entry {
    pub code: u8,
    pub mnemonic: Seq<char>,
    pub len: u8,
    pub cycles: u8,
    pub mode: AddressingMode,
    pub penalty: PenaltyFlags,
}

impl View for OpCode {
    type V = Entry;

    open spec fn view(&self) -> Entry {
        Entry {
            code: self.code,
            mnemonic: self.mnemonic@,
            len: self.len,
            cycles: self.cycles,
            mode: self.mode,
            penalty: self.penalty,
        }
    }
}

impl OpCode {
    /// Builds a descriptor from its fields.
    pub fn new(
        code: u8,
        mnemonic: &'static str,
        len: u8,
        cycles: u8,
        mode: AddressingMode,
        penalty: PenaltyFlags,
    ) -> (r: OpCode)
        ensures
            r.code == code,
            r.mnemonic == mnemonic,
            r.len == len,
            r.cycles == cycles,
            r.mode == mode,
            r.penalty == penalty,
    {
        OpCode { code, mnemonic, len, cycles, mode, penalty }
    }
}

/// The descriptors of a sequence, as their models.
pub open spec fn entries_of(s: Seq<OpCode>) -> Seq<Entry> {
    s.map_values(|o: OpCode| o@)
}

/// Shorthand for one row of the literal specification.
pub open spec fn entry(
    code: u8,
    mnemonic: Seq<char>,
    len: u8,
    cycles: u8,
    mode: AddressingMode,
    page_cross: bool,
    branch: bool,
) -> Entry {
    Entry { code, mnemonic, len, cycles, mode, penalty: PenaltyFlags { page_cross, branch } }
}

/// The literal specification of the supported instruction set, in authoring
/// order: opcode, mnemonic, length, base cycles, addressing mode, and whether
/// the page-crossing or branch-taken penalties may apply.
pub open spec fn table_spec() -> Seq<Entry> {
    seq![
        entry(0x00, "BRK"@, 1, 7, AddressingMode::NoneAddressing, false, false),
        entry(0xea, "NOP"@, 1, 2, AddressingMode::NoneAddressing, false, false),
        entry(0xaa, "TAX"@, 1, 2, AddressingMode::NoneAddressing, false, false),
        entry(0xa8, "TAY"@, 1, 2, AddressingMode::NoneAddressing, false, false),
        entry(0xba, "TSX"@, 1, 2, AddressingMode::NoneAddressing, false, false),
        entry(0x8a, "TXA"@, 1, 2, AddressingMode::NoneAddressing, false, false),
        entry(0x9a, "TXS"@, 1, 2, AddressingMode::NoneAddressing, false, false),
        entry(0x98, "TYA"@, 1, 2, AddressingMode::NoneAddressing, false, false),
        entry(0x48, "PHA"@, 1, 3, AddressingMode::NoneAddressing, false, false),
        entry(0x08, "PHP"@, 1, 3, AddressingMode::NoneAddressing, false, false),
        entry(0x68, "PLA"@, 1, 4, AddressingMode::NoneAddressing, false, false),
        entry(0x28, "PLP"@, 1, 4, AddressingMode::NoneAddressing, false, false),
        entry(0x40, "RTI"@, 1, 6, AddressingMode::NoneAddressing, false, false),
        entry(0x60, "RTS"@, 1, 6, AddressingMode::NoneAddressing, false, false),
        entry(0xe8, "INX"@, 1, 2, AddressingMode::NoneAddressing, false, false),
        entry(0xc8, "INY"@, 1, 2, AddressingMode::NoneAddressing, false, false),
        entry(0xc1, "DEX"@, 1, 2, AddressingMode::NoneAddressing, false, false),
        entry(0x88, "DEY"@, 1, 2, AddressingMode::NoneAddressing, false, false),
        entry(0x18, "CLC"@, 1, 2, AddressingMode::NoneAddressing, false, false),
        entry(0xd8, "CLD"@, 1, 2, AddressingMode::NoneAddressing, false, false),
        entry(0x58, "CLI"@, 1, 2, AddressingMode::NoneAddressing, false, false),
        entry(0xb8, "CLV"@, 1, 2, AddressingMode::NoneAddressing, false, false),
        entry(0x30, "SEC"@, 1, 2, AddressingMode::NoneAddressing, false, false),
        entry(0xf8, "SED"@, 1, 2, AddressingMode::NoneAddressing, false, false),
        entry(0x78, "SEI"@, 1, 2, AddressingMode::NoneAddressing, false, false),
        entry(0x29, "AND"@, 2, 2, AddressingMode::Immediate, false, false),
        entry(0x25, "AND"@, 2, 3, AddressingMode::ZeroPage, false, false),
        entry(0x35, "AND"@, 2, 4, AddressingMode::ZeroPageX, false, false),
        entry(0x2d, "AND"@, 3, 4, AddressingMode::Absolute, false, false),
        entry(0x3d, "AND"@, 3, 4, AddressingMode::AbsoluteX, true, false),
        entry(0x39, "AND"@, 3, 4, AddressingMode::AbsoluteY, true, false),
        entry(0x21, "AND"@, 2, 6, AddressingMode::IndirectX, false, false),
        entry(0x31, "AND"@, 2, 5, AddressingMode::IndirectY, true, false),
        entry(0x09, "ORA"@, 2, 2, AddressingMode::Immediate, false, false),
        entry(0x05, "ORA"@, 2, 3, AddressingMode::ZeroPage, false, false),
        entry(0x15, "ORA"@, 2, 4, AddressingMode::ZeroPageX, false, false),
        entry(0x0d, "ORA"@, 3, 4, AddressingMode::Absolute, false, false),
        entry(0x1d, "ORA"@, 3, 4, AddressingMode::AbsoluteX, true, false),
        entry(0x19, "ORA"@, 3, 4, AddressingMode::AbsoluteY, true, false),
        entry(0x01, "ORA"@, 2, 6, AddressingMode::IndirectX, false, false),
        entry(0x11, "ORA"@, 2, 5, AddressingMode::IndirectY, true, false),
        entry(0x4a, "LSR"@, 1, 2, AddressingMode::Accumulator, false, false),
        entry(0x46, "LSR"@, 2, 5, AddressingMode::ZeroPage, false, false),
        entry(0x56, "LSR"@, 2, 6, AddressingMode::ZeroPageX, false, false),
        entry(0x4e, "LSR"@, 3, 6, AddressingMode::Absolute, false, false),
        entry(0x5e, "LSR"@, 3, 7, AddressingMode::AbsoluteX, true, false),
        entry(0x0a, "ASL"@, 1, 2, AddressingMode::Accumulator, false, false),
        entry(0x06, "ASL"@, 2, 5, AddressingMode::ZeroPage, false, false),
        entry(0x16, "ASL"@, 2, 6, AddressingMode::ZeroPageX, false, false),
        entry(0x0e, "ASL"@, 3, 6, AddressingMode::Absolute, false, false),
        entry(0x1e, "ASL"@, 3, 7, AddressingMode::AbsoluteX, true, false),
        entry(0x90, "BCC"@, 2, 2, AddressingMode::Relative, false, true),
        entry(0xb0, "BCS"@, 2, 2, AddressingMode::Relative, false, true),
        entry(0xf0, "BEQ"@, 2, 2, AddressingMode::Relative, false, true),
        entry(0xa9, "LDA"@, 2, 2, AddressingMode::Immediate, false, false),
        entry(0xa5, "LDA"@, 2, 3, AddressingMode::ZeroPage, false, false),
        entry(0xb5, "LDA"@, 2, 4, AddressingMode::ZeroPageX, false, false),
        entry(0xad, "LDA"@, 3, 4, AddressingMode::Absolute, false, false),
        entry(0xbd, "LDA"@, 3, 4, AddressingMode::AbsoluteX, true, false),
        entry(0xb9, "LDA"@, 3, 4, AddressingMode::AbsoluteY, true, false),
        entry(0xa1, "LDA"@, 2, 6, AddressingMode::IndirectX, false, false),
        entry(0xb1, "LDA"@, 2, 5, AddressingMode::IndirectY, true, false),
        entry(0x85, "STA"@, 2, 3, AddressingMode::ZeroPage, false, false),
        entry(0x95, "STA"@, 2, 4, AddressingMode::ZeroPageX, false, false),
        entry(0x8d, "STA"@, 3, 4, AddressingMode::Absolute, false, false),
        entry(0x9d, "STA"@, 3, 5, AddressingMode::AbsoluteX, false, false),
        entry(0x99, "STA"@, 3, 5, AddressingMode::AbsoluteY, false, false),
        entry(0x81, "STA"@, 2, 6, AddressingMode::IndirectX, false, false),
        entry(0x91, "STA"@, 2, 6, AddressingMode::IndirectY, false, false),
    ]
}

/// Builds the descriptor sequence of the literal specification, in authoring
/// order.
#[verifier::rlimit(100)]
pub fn cpu_ops_codes() -> (t: Vec<OpCode>)
    ensures
        entries_of(t@) == table_spec(),
{
    let mut t: Vec<OpCode> = Vec::new();
    t.push(OpCode::new(0x00, "BRK", 1, 7, AddressingMode::NoneAddressing, PenaltyFlags::fixed()));
    t.push(OpCode::new(0xea, "NOP", 1, 2, AddressingMode::NoneAddressing, PenaltyFlags::fixed()));
    t.push(OpCode::new(0xaa, "TAX", 1, 2, AddressingMode::NoneAddressing, PenaltyFlags::fixed()));
    t.push(OpCode::new(0xa8, "TAY", 1, 2, AddressingMode::NoneAddressing, PenaltyFlags::fixed()));
    t.push(OpCode::new(0xba, "TSX", 1, 2, AddressingMode::NoneAddressing, PenaltyFlags::fixed()));
    t.push(OpCode::new(0x8a, "TXA", 1, 2, AddressingMode::NoneAddressing, PenaltyFlags::fixed()));
    t.push(OpCode::new(0x9a, "TXS", 1, 2, AddressingMode::NoneAddressing, PenaltyFlags::fixed()));
    t.push(OpCode::new(0x98, "TYA", 1, 2, AddressingMode::NoneAddressing, PenaltyFlags::fixed()));
    t.push(OpCode::new(0x48, "PHA", 1, 3, AddressingMode::NoneAddressing, PenaltyFlags::fixed()));
    t.push(OpCode::new(0x08, "PHP", 1, 3, AddressingMode::NoneAddressing, PenaltyFlags::fixed()));
    t.push(OpCode::new(0x68, "PLA", 1, 4, AddressingMode::NoneAddressing, PenaltyFlags::fixed()));
    t.push(OpCode::new(0x28, "PLP", 1, 4, AddressingMode::NoneAddressing, PenaltyFlags::fixed()));
    t.push(OpCode::new(0x40, "RTI", 1, 6, AddressingMode::NoneAddressing, PenaltyFlags::fixed()));
    t.push(OpCode::new(0x60, "RTS", 1, 6, AddressingMode::NoneAddressing, PenaltyFlags::fixed()));
    t.push(OpCode::new(0xe8, "INX", 1, 2, AddressingMode::NoneAddressing, PenaltyFlags::fixed()));
    t.push(OpCode::new(0xc8, "INY", 1, 2, AddressingMode::NoneAddressing, PenaltyFlags::fixed()));
    t.push(OpCode::new(0xc1, "DEX", 1, 2, AddressingMode::NoneAddressing, PenaltyFlags::fixed()));
    t.push(OpCode::new(0x88, "DEY", 1, 2, AddressingMode::NoneAddressing, PenaltyFlags::fixed()));
    t.push(OpCode::new(0x18, "CLC", 1, 2, AddressingMode::NoneAddressing, PenaltyFlags::fixed()));
    t.push(OpCode::new(0xd8, "CLD", 1, 2, AddressingMode::NoneAddressing, PenaltyFlags::fixed()));
    t.push(OpCode::new(0x58, "CLI", 1, 2, AddressingMode::NoneAddressing, PenaltyFlags::fixed()));
    t.push(OpCode::new(0xb8, "CLV", 1, 2, AddressingMode::NoneAddressing, PenaltyFlags::fixed()));
    t.push(OpCode::new(0x30, "SEC", 1, 2, AddressingMode::NoneAddressing, PenaltyFlags::fixed()));
    t.push(OpCode::new(0xf8, "SED", 1, 2, AddressingMode::NoneAddressing, PenaltyFlags::fixed()));
    t.push(OpCode::new(0x78, "SEI", 1, 2, AddressingMode::NoneAddressing, PenaltyFlags::fixed()));
    t.push(OpCode::new(0x29, "AND", 2, 2, AddressingMode::Immediate, PenaltyFlags::fixed()));
    t.push(OpCode::new(0x25, "AND", 2, 3, AddressingMode::ZeroPage, PenaltyFlags::fixed()));
    t.push(OpCode::new(0x35, "AND", 2, 4, AddressingMode::ZeroPageX, PenaltyFlags::fixed()));
    t.push(OpCode::new(0x2d, "AND", 3, 4, AddressingMode::Absolute, PenaltyFlags::fixed()));
    t.push(OpCode::new(0x3d, "AND", 3, 4, AddressingMode::AbsoluteX, PenaltyFlags::page_crossing()));
    t.push(OpCode::new(0x39, "AND", 3, 4, AddressingMode::AbsoluteY, PenaltyFlags::page_crossing()));
    t.push(OpCode::new(0x21, "AND", 2, 6, AddressingMode::IndirectX, PenaltyFlags::fixed()));
    t.push(OpCode::new(0x31, "AND", 2, 5, AddressingMode::IndirectY, PenaltyFlags::page_crossing()));
    t.push(OpCode::new(0x09, "ORA", 2, 2, AddressingMode::Immediate, PenaltyFlags::fixed()));
    t.push(OpCode::new(0x05, "ORA", 2, 3, AddressingMode::ZeroPage, PenaltyFlags::fixed()));
    t.push(OpCode::new(0x15, "ORA", 2, 4, AddressingMode::ZeroPageX, PenaltyFlags::fixed()));
    t.push(OpCode::new(0x0d, "ORA", 3, 4, AddressingMode::Absolute, PenaltyFlags::fixed()));
    t.push(OpCode::new(0x1d, "ORA", 3, 4, AddressingMode::AbsoluteX, PenaltyFlags::page_crossing()));
    t.push(OpCode::new(0x19, "ORA", 3, 4, AddressingMode::AbsoluteY, PenaltyFlags::page_crossing()));
    t.push(OpCode::new(0x01, "ORA", 2, 6, AddressingMode::IndirectX, PenaltyFlags::fixed()));
    t.push(OpCode::new(0x11, "ORA", 2, 5, AddressingMode::IndirectY, PenaltyFlags::page_crossing()));
    t.push(OpCode::new(0x4a, "LSR", 1, 2, AddressingMode::Accumulator, PenaltyFlags::fixed()));
    t.push(OpCode::new(0x46, "LSR", 2, 5, AddressingMode::ZeroPage, PenaltyFlags::fixed()));
    t.push(OpCode::new(0x56, "LSR", 2, 6, AddressingMode::ZeroPageX, PenaltyFlags::fixed()));
    t.push(OpCode::new(0x4e, "LSR", 3, 6, AddressingMode::Absolute, PenaltyFlags::fixed()));
    t.push(OpCode::new(0x5e, "LSR", 3, 7, AddressingMode::AbsoluteX, PenaltyFlags::page_crossing()));
    t.push(OpCode::new(0x0a, "ASL", 1, 2, AddressingMode::Accumulator, PenaltyFlags::fixed()));
    t.push(OpCode::new(0x06, "ASL", 2, 5, AddressingMode::ZeroPage, PenaltyFlags::fixed()));
    t.push(OpCode::new(0x16, "ASL", 2, 6, AddressingMode::ZeroPageX, PenaltyFlags::fixed()));
    t.push(OpCode::new(0x0e, "ASL", 3, 6, AddressingMode::Absolute, PenaltyFlags::fixed()));
    t.push(OpCode::new(0x1e, "ASL", 3, 7, AddressingMode::AbsoluteX, PenaltyFlags::page_crossing()));
    t.push(OpCode::new(0x90, "BCC", 2, 2, AddressingMode::Relative, PenaltyFlags::branching()));
    t.push(OpCode::new(0xb0, "BCS", 2, 2, AddressingMode::Relative, PenaltyFlags::branching()));
    t.push(OpCode::new(0xf0, "BEQ", 2, 2, AddressingMode::Relative, PenaltyFlags::branching()));
    t.push(OpCode::new(0xa9, "LDA", 2, 2, AddressingMode::Immediate, PenaltyFlags::fixed()));
    t.push(OpCode::new(0xa5, "LDA", 2, 3, AddressingMode::ZeroPage, PenaltyFlags::fixed()));
    t.push(OpCode::new(0xb5, "LDA", 2, 4, AddressingMode::ZeroPageX, PenaltyFlags::fixed()));
    t.push(OpCode::new(0xad, "LDA", 3, 4, AddressingMode::Absolute, PenaltyFlags::fixed()));
    t.push(OpCode::new(0xbd, "LDA", 3, 4, AddressingMode::AbsoluteX, PenaltyFlags::page_crossing()));
    t.push(OpCode::new(0xb9, "LDA", 3, 4, AddressingMode::AbsoluteY, PenaltyFlags::page_crossing()));
    t.push(OpCode::new(0xa1, "LDA", 2, 6, AddressingMode::IndirectX, PenaltyFlags::fixed()));
    t.push(OpCode::new(0xb1, "LDA", 2, 5, AddressingMode::IndirectY, PenaltyFlags::page_crossing()));
    t.push(OpCode::new(0x85, "STA", 2, 3, AddressingMode::ZeroPage, PenaltyFlags::fixed()));
    t.push(OpCode::new(0x95, "STA", 2, 4, AddressingMode::ZeroPageX, PenaltyFlags::fixed()));
    t.push(OpCode::new(0x8d, "STA", 3, 4, AddressingMode::Absolute, PenaltyFlags::fixed()));
    t.push(OpCode::new(0x9d, "STA", 3, 5, AddressingMode::AbsoluteX, PenaltyFlags::fixed()));
    t.push(OpCode::new(0x99, "STA", 3, 5, AddressingMode::AbsoluteY, PenaltyFlags::fixed()));
    t.push(OpCode::new(0x81, "STA", 2, 6, AddressingMode::IndirectX, PenaltyFlags::fixed()));
    t.push(OpCode::new(0x91, "STA", 2, 6, AddressingMode::IndirectY, PenaltyFlags::fixed()));
    proof {
        assert(entries_of(t@) =~= table_spec());
    }
    t
}

} // verus!
