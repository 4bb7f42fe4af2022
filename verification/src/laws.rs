//! Properties of the literal specification, stated once and proved from the
//! spec-level table: coverage of the documented instruction set, determinism
//! of construction, and presence of the conditional cycle penalties.

use vstd::prelude::*;

use crate::mode::AddressingMode;
use crate::opcodes::table_spec;
use crate::opcodes::Entry;
use crate::table::codes_unique;
use crate::table::lemma_table_spec_valid;

verus! {

/// Some descriptor in the sequence carries this mnemonic.
pub open spec fn has_mnemonic(s: Seq<Entry>, m: Seq<char>) -> bool {
    exists|i: int| 0 <= i < s.len() && s[i].mnemonic == m
}

/// This read-type instruction mnemonic may pay the page-crossing penalty when
/// indexed.
pub open spec fn is_documented_read(m: Seq<char>) -> bool {
    m == "AND"@ || m == "ORA"@ || m == "LDA"@
}

/// This addressing mode computes an effective address by indexing across a
/// possible page boundary.
pub open spec fn is_page_crossing_mode(mode: AddressingMode) -> bool {
    mode == AddressingMode::AbsoluteX || mode == AddressingMode::AbsoluteY || mode
        == AddressingMode::IndirectY
}

/// Every documented mnemonic of the supported instruction set has at least
/// one descriptor in the table, and, the opcode bytes being unique, every
/// addressing-mode variant of a multi-mode mnemonic maps to a distinct
/// opcode byte.
pub proof fn lemma_documented_set_covered()
    ensures
        has_mnemonic(table_spec(), "BRK"@),
        has_mnemonic(table_spec(), "NOP"@),
        has_mnemonic(table_spec(), "TAX"@),
        has_mnemonic(table_spec(), "TAY"@),
        has_mnemonic(table_spec(), "TSX"@),
        has_mnemonic(table_spec(), "TXA"@),
        has_mnemonic(table_spec(), "TXS"@),
        has_mnemonic(table_spec(), "TYA"@),
        has_mnemonic(table_spec(), "PHA"@),
        has_mnemonic(table_spec(), "PHP"@),
        has_mnemonic(table_spec(), "PLA"@),
        has_mnemonic(table_spec(), "PLP"@),
        has_mnemonic(table_spec(), "RTI"@),
        has_mnemonic(table_spec(), "RTS"@),
        has_mnemonic(table_spec(), "INX"@),
        has_mnemonic(table_spec(), "INY"@),
        has_mnemonic(table_spec(), "DEX"@),
        has_mnemonic(table_spec(), "DEY"@),
        has_mnemonic(table_spec(), "CLC"@),
        has_mnemonic(table_spec(), "CLD"@),
        has_mnemonic(table_spec(), "CLI"@),
        has_mnemonic(table_spec(), "CLV"@),
        has_mnemonic(table_spec(), "SEC"@),
        has_mnemonic(table_spec(), "SED"@),
        has_mnemonic(table_spec(), "SEI"@),
        has_mnemonic(table_spec(), "AND"@),
        has_mnemonic(table_spec(), "ORA"@),
        has_mnemonic(table_spec(), "LSR"@),
        has_mnemonic(table_spec(), "ASL"@),
        has_mnemonic(table_spec(), "BCC"@),
        has_mnemonic(table_spec(), "BCS"@),
        has_mnemonic(table_spec(), "BEQ"@),
        has_mnemonic(table_spec(), "LDA"@),
        has_mnemonic(table_spec(), "STA"@),
        codes_unique(table_spec()),
{
    lemma_table_spec_valid();
    assert(table_spec()[0].mnemonic == "BRK"@);
    assert(table_spec()[1].mnemonic == "NOP"@);
    assert(table_spec()[2].mnemonic == "TAX"@);
    assert(table_spec()[3].mnemonic == "TAY"@);
    assert(table_spec()[4].mnemonic == "TSX"@);
    assert(table_spec()[5].mnemonic == "TXA"@);
    assert(table_spec()[6].mnemonic == "TXS"@);
    assert(table_spec()[7].mnemonic == "TYA"@);
    assert(table_spec()[8].mnemonic == "PHA"@);
    assert(table_spec()[9].mnemonic == "PHP"@);
    assert(table_spec()[10].mnemonic == "PLA"@);
    assert(table_spec()[11].mnemonic == "PLP"@);
    assert(table_spec()[12].mnemonic == "RTI"@);
    assert(table_spec()[13].mnemonic == "RTS"@);
    assert(table_spec()[14].mnemonic == "INX"@);
    assert(table_spec()[15].mnemonic == "INY"@);
    assert(table_spec()[16].mnemonic == "DEX"@);
    assert(table_spec()[17].mnemonic == "DEY"@);
    assert(table_spec()[18].mnemonic == "CLC"@);
    assert(table_spec()[19].mnemonic == "CLD"@);
    assert(table_spec()[20].mnemonic == "CLI"@);
    assert(table_spec()[21].mnemonic == "CLV"@);
    assert(table_spec()[22].mnemonic == "SEC"@);
    assert(table_spec()[23].mnemonic == "SED"@);
    assert(table_spec()[24].mnemonic == "SEI"@);
    assert(table_spec()[25].mnemonic == "AND"@);
    assert(table_spec()[33].mnemonic == "ORA"@);
    assert(table_spec()[41].mnemonic == "LSR"@);
    assert(table_spec()[46].mnemonic == "ASL"@);
    assert(table_spec()[51].mnemonic == "BCC"@);
    assert(table_spec()[52].mnemonic == "BCS"@);
    assert(table_spec()[53].mnemonic == "BEQ"@);
    assert(table_spec()[54].mnemonic == "LDA"@);
    assert(table_spec()[62].mnemonic == "STA"@);
}

/// Construction is deterministic: any two descriptor sequences built from the
/// literal specification are identical, order and content.
pub proof fn lemma_build_deterministic(a: Seq<Entry>, b: Seq<Entry>)
    requires
        a == table_spec(),
        b == table_spec(),
    ensures
        a == b,
{
}

/// The conditional cycle penalties stand where the reference architecture's
/// documented timing puts them: every indexed-absolute or indirect-indexed
/// descriptor of a read-type instruction carries the page-crossing flag;
/// a descriptor carries the branch-taken flag exactly when its mode is
/// relative; and store descriptors never pay for a page crossing.
pub proof fn lemma_penalty_flags()
    ensures
        forall|i: int|
            0 <= i < table_spec().len() && is_documented_read(
                (#[trigger] table_spec()[i]).mnemonic,
            ) && is_page_crossing_mode(table_spec()[i].mode)
                ==> table_spec()[i].penalty.page_cross,
        forall|i: int|
            0 <= i < table_spec().len() ==> ((#[trigger] table_spec()[i]).mode
                == AddressingMode::Relative <==> table_spec()[i].penalty.branch),
        forall|i: int|
            0 <= i < table_spec().len() && (#[trigger] table_spec()[i]).mnemonic == "STA"@
                ==> !table_spec()[i].penalty.page_cross,
{
    reveal_strlit("AND");
    reveal_strlit("ORA");
    reveal_strlit("LDA");
    reveal_strlit("LSR");
    reveal_strlit("ASL");
    reveal_strlit("STA");
    assert("STA"@.len() == 3);
    assert("STA"@[0] == 'S');
    assert("AND"@[0] == 'A');
    assert("STA"@ != "AND"@);
    assert("STA"@ != "ORA"@);
    assert("STA"@ != "LDA"@);
    assert("STA"@ != "LSR"@);
    assert("STA"@ != "ASL"@);
}

/// Each (mnemonic, addressing-mode) pair corresponds to exactly one opcode:
/// no two descriptors of the table share both the mnemonic and the mode.
#[verifier::rlimit(100)]
pub proof fn lemma_mnemonic_mode_pairs_unique()
    ensures
        forall|i: int, j: int|
            0 <= i < table_spec().len() && 0 <= j < table_spec().len() && i != j ==> ((
            #[trigger] table_spec()[i]).mnemonic != (#[trigger] table_spec()[j]).mnemonic
                || table_spec()[i].mode != table_spec()[j].mode),
{
    reveal_strlit("BRK");
    reveal_strlit("NOP");
    reveal_strlit("TAX");
    reveal_strlit("TAY");
    reveal_strlit("TSX");
    reveal_strlit("TXA");
    reveal_strlit("TXS");
    reveal_strlit("TYA");
    reveal_strlit("PHA");
    reveal_strlit("PHP");
    reveal_strlit("PLA");
    reveal_strlit("PLP");
    reveal_strlit("RTI");
    reveal_strlit("RTS");
    reveal_strlit("INX");
    reveal_strlit("INY");
    reveal_strlit("DEX");
    reveal_strlit("DEY");
    reveal_strlit("CLC");
    reveal_strlit("CLD");
    reveal_strlit("CLI");
    reveal_strlit("CLV");
    reveal_strlit("SEC");
    reveal_strlit("SED");
    reveal_strlit("SEI");
    reveal_strlit("AND");
    reveal_strlit("ORA");
    reveal_strlit("LSR");
    reveal_strlit("ASL");
    reveal_strlit("BCC");
    reveal_strlit("BCS");
    reveal_strlit("BEQ");
    reveal_strlit("LDA");
    reveal_strlit("STA");
    assert("BRK"@[0] == 'B' && "BRK"@[1] == 'R' && "BRK"@[2] == 'K');
    assert("NOP"@[0] == 'N' && "NOP"@[1] == 'O' && "NOP"@[2] == 'P');
    assert("TAX"@[0] == 'T' && "TAX"@[1] == 'A' && "TAX"@[2] == 'X');
    assert("TAY"@[0] == 'T' && "TAY"@[1] == 'A' && "TAY"@[2] == 'Y');
    assert("TSX"@[0] == 'T' && "TSX"@[1] == 'S' && "TSX"@[2] == 'X');
    assert("TXA"@[0] == 'T' && "TXA"@[1] == 'X' && "TXA"@[2] == 'A');
    assert("TXS"@[0] == 'T' && "TXS"@[1] == 'X' && "TXS"@[2] == 'S');
    assert("TYA"@[0] == 'T' && "TYA"@[1] == 'Y' && "TYA"@[2] == 'A');
    assert("PHA"@[0] == 'P' && "PHA"@[1] == 'H' && "PHA"@[2] == 'A');
    assert("PHP"@[0] == 'P' && "PHP"@[1] == 'H' && "PHP"@[2] == 'P');
    assert("PLA"@[0] == 'P' && "PLA"@[1] == 'L' && "PLA"@[2] == 'A');
    assert("PLP"@[0] == 'P' && "PLP"@[1] == 'L' && "PLP"@[2] == 'P');
    assert("RTI"@[0] == 'R' && "RTI"@[1] == 'T' && "RTI"@[2] == 'I');
    assert("RTS"@[0] == 'R' && "RTS"@[1] == 'T' && "RTS"@[2] == 'S');
    assert("INX"@[0] == 'I' && "INX"@[1] == 'N' && "INX"@[2] == 'X');
    assert("INY"@[0] == 'I' && "INY"@[1] == 'N' && "INY"@[2] == 'Y');
    assert("DEX"@[0] == 'D' && "DEX"@[1] == 'E' && "DEX"@[2] == 'X');
    assert("DEY"@[0] == 'D' && "DEY"@[1] == 'E' && "DEY"@[2] == 'Y');
    assert("CLC"@[0] == 'C' && "CLC"@[1] == 'L' && "CLC"@[2] == 'C');
    assert("CLD"@[0] == 'C' && "CLD"@[1] == 'L' && "CLD"@[2] == 'D');
    assert("CLI"@[0] == 'C' && "CLI"@[1] == 'L' && "CLI"@[2] == 'I');
    assert("CLV"@[0] == 'C' && "CLV"@[1] == 'L' && "CLV"@[2] == 'V');
    assert("SEC"@[0] == 'S' && "SEC"@[1] == 'E' && "SEC"@[2] == 'C');
    assert("SED"@[0] == 'S' && "SED"@[1] == 'E' && "SED"@[2] == 'D');
    assert("SEI"@[0] == 'S' && "SEI"@[1] == 'E' && "SEI"@[2] == 'I');
    assert("AND"@[0] == 'A' && "AND"@[1] == 'N' && "AND"@[2] == 'D');
    assert("ORA"@[0] == 'O' && "ORA"@[1] == 'R' && "ORA"@[2] == 'A');
    assert("LSR"@[0] == 'L' && "LSR"@[1] == 'S' && "LSR"@[2] == 'R');
    assert("ASL"@[0] == 'A' && "ASL"@[1] == 'S' && "ASL"@[2] == 'L');
    assert("BCC"@[0] == 'B' && "BCC"@[1] == 'C' && "BCC"@[2] == 'C');
    assert("BCS"@[0] == 'B' && "BCS"@[1] == 'C' && "BCS"@[2] == 'S');
    assert("BEQ"@[0] == 'B' && "BEQ"@[1] == 'E' && "BEQ"@[2] == 'Q');
    assert("LDA"@[0] == 'L' && "LDA"@[1] == 'D' && "LDA"@[2] == 'A');
    assert("STA"@[0] == 'S' && "STA"@[1] == 'T' && "STA"@[2] == 'A');
}

} // verus!
