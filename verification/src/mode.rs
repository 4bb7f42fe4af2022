//! Addressing modes and the conditional cycle penalties an instruction can
//! carry. The addressing mode fully determines an instruction's encoding
//! length; the penalty flags tell the execution engine which dynamic costs
//! (page crossing, branch taken) may apply at runtime.

use vstd::prelude::*;

verus! {

/// How an instruction's operand bytes are interpreted to produce a value or
/// an effective memory address.
#[derive(Clone, Copy, Debug, PartialEq, Eq, Structural)]
pub enum AddressingMode {
    /// A one-byte literal operand follows the opcode.
    Immediate,
    /// One-byte address into the first 256 bytes of memory.
    ZeroPage,
    /// Zero-page address indexed by the X register.
    ZeroPageX,
    /// Zero-page address indexed by the Y register.
    ZeroPageY,
    /// Full two-byte address.
    Absolute,
    /// Two-byte address indexed by the X register.
    AbsoluteX,
    /// Two-byte address indexed by the Y register.
    AbsoluteY,
    /// Pre-indexed indirect: zero-page pointer indexed by X, then dereferenced.
    IndirectX,
    /// Post-indexed indirect: zero-page pointer dereferenced, then indexed by Y.
    IndirectY,
    /// One-byte signed displacement for branches.
    Relative,
    /// The accumulator itself is the operand; no operand bytes.
    Accumulator,
    /// No operand at all (implicit instructions).
    NoneAddressing,
}

/// The encoding length, in bytes, that an addressing mode implies: the opcode
/// byte itself plus zero, one or two operand bytes.
pub open spec fn spec_mode_len(mode: AddressingMode) -> u8 {
    match mode {
        AddressingMode::NoneAddressing => 1,
        AddressingMode::Accumulator => 1,
        AddressingMode::Immediate => 2,
        AddressingMode::ZeroPage => 2,
        AddressingMode::ZeroPageX => 2,
        AddressingMode::ZeroPageY => 2,
        AddressingMode::IndirectX => 2,
        AddressingMode::IndirectY => 2,
        AddressingMode::Relative => 2,
        AddressingMode::Absolute => 3,
        AddressingMode::AbsoluteX => 3,
        AddressingMode::AbsoluteY => 3,
    }
}

/// Executable form of the mode-to-length mapping.
#[verifier::when_used_as_spec(spec_mode_len)]
pub fn mode_len(mode: AddressingMode) -> (r: u8)
    ensures
        r == spec_mode_len(mode),
{
    match mode {
        AddressingMode::NoneAddressing => 1,
        AddressingMode::Accumulator => 1,
        AddressingMode::Immediate => 2,
        AddressingMode::ZeroPage => 2,
        AddressingMode::ZeroPageX => 2,
        AddressingMode::ZeroPageY => 2,
        AddressingMode::IndirectX => 2,
        AddressingMode::IndirectY => 2,
        AddressingMode::Relative => 2,
        AddressingMode::Absolute => 3,
        AddressingMode::AbsoluteX => 3,
        AddressingMode::AbsoluteY => 3,
    }
}

/// Conditional cycle costs an instruction may incur at runtime, beyond its
/// base cycle count. The table only records them; the execution engine
/// decides when they apply.
#[derive(Clone, Copy, Debug, PartialEq, Eq, Structural)]
pub struct PenaltyFlags {
    /// One extra cycle when an indexed or indirect-indexed effective address
    /// crosses a 256-byte page boundary.
    pub page_cross: bool,
    /// One extra cycle when a branch is taken, and one more when the branch
    /// target lies on a different page.
    pub branch: bool,
}

impl PenaltyFlags {
    /// No conditional cost.
    pub fn fixed() -> (r: PenaltyFlags)
        ensures
            r == (PenaltyFlags { page_cross: false, branch: false }),
    {
        PenaltyFlags { page_cross: false, branch: false }
    }

    /// May pay one cycle for a page crossing.
    pub fn page_crossing() -> (r: PenaltyFlags)
        ensures
            r == (PenaltyFlags { page_cross: true, branch: false }),
    {
        PenaltyFlags { page_cross: true, branch: false }
    }

    /// May pay the branch-taken cycle, plus the new-page cycle.
    pub fn branching() -> (r: PenaltyFlags)
        ensures
            r == (PenaltyFlags { page_cross: false, branch: true }),
    {
        PenaltyFlags { page_cross: false, branch: true }
    }
}

} // verus!
