//! The validated opcode table: construction with its consistency checks,
//! constant-time lookup by opcode byte, and enumeration in authoring order.

use vstd::prelude::*;

use crate::mode::mode_len;
use crate::mode::spec_mode_len;
use crate::opcodes::cpu_ops_codes;
use crate::opcodes::entries_of;
use crate::opcodes::table_spec;
use crate::opcodes::Entry;
use crate::opcodes::OpCode;

verus! {

/// No two descriptors share an opcode byte.
pub open spec fn codes_unique(s: Seq<Entry>) -> bool {
    forall|i: int, j: int|
        0 <= i < s.len() && 0 <= j < s.len() && i != j ==> s[i].code != s[j].code
}

/// Every descriptor's length is the one its addressing mode implies.
pub open spec fn lengths_consistent(s: Seq<Entry>) -> bool {
    forall|i: int| 0 <= i < s.len() ==> s[i].len == spec_mode_len(s[i].mode)
}

/// A descriptor sequence is fit to decode from: unique keys, consistent
/// lengths.
pub open spec fn valid_table(s: Seq<Entry>) -> bool {
    codes_unique(s) && lengths_consistent(s)
}

/// Some descriptor in the sequence carries this opcode byte.
pub open spec fn defines(s: Seq<Entry>, code: u8) -> bool {
    exists|i: int| 0 <= i < s.len() && s[i].code == code
}

/// An inconsistency in a descriptor sequence, found while building a table.
/// Each variant carries the opcode byte of the offending descriptor.
#[derive(Clone, Copy, Debug, PartialEq, Eq, Structural)]
pub enum TableError {
    /// A descriptor's opcode byte already appeared earlier in the sequence.
    DuplicateOpcode(u8),
    /// A descriptor's length is not the one its addressing mode implies.
    LengthMismatch(u8),
}

/// The descriptor at position `i` passes the construction-time checks, given
/// all earlier descriptors: its length matches its mode, and its opcode byte
/// is new.
pub open spec fn row_ok(s: Seq<Entry>, i: int) -> bool {
    &&& s[i].len == spec_mode_len(s[i].mode)
    &&& forall|j: int| 0 <= j < i ==> s[j].code != s[i].code
}

/// Every descriptor passes the construction-time checks.
pub open spec fn rows_ok(s: Seq<Entry>) -> bool {
    forall|i: int| 0 <= i < s.len() ==> row_ok(s, i)
}

/// The error reported for the first offending descriptor: a length mismatch
/// is found before a duplicate key.
pub open spec fn error_at(s: Seq<Entry>, i: int) -> TableError {
    if s[i].len != spec_mode_len(s[i].mode) {
        TableError::LengthMismatch(s[i].code)
    } else {
        TableError::DuplicateOpcode(s[i].code)
    }
}

/// The construction-time checks pass exactly on the valid descriptor
/// sequences.
pub proof fn lemma_rows_ok_is_valid(s: Seq<Entry>)
    ensures
        rows_ok(s) <==> valid_table(s),
{
    if rows_ok(s) {
        assert forall|i: int, j: int|
            0 <= i < s.len() && 0 <= j < s.len() && i != j implies s[i].code != s[j].code by {
            if i < j {
                assert(row_ok(s, j));
            } else {
                assert(row_ok(s, i));
            }
        }
        assert forall|i: int| 0 <= i < s.len() implies s[i].len == spec_mode_len(s[i].mode) by {
            assert(row_ok(s, i));
        }
        assert(valid_table(s));
    }
    if valid_table(s) {
        assert forall|i: int| 0 <= i < s.len() implies #[trigger] row_ok(s, i) by {
            assert(s[i].len == spec_mode_len(s[i].mode));
            assert forall|j: int| 0 <= j < i implies s[j].code != s[i].code by {
                assert(codes_unique(s));
            }
        }
        assert(rows_ok(s));
    }
}

/// The authoritative mapping from opcode byte to instruction descriptor:
/// a validated descriptor sequence in authoring order, with a fixed 256-slot
/// index for constant-time lookup. Immutable once built.
pub struct OpCodeTable {
    codes: Vec<OpCode>,
    index: Vec<Option<usize>>,
}

impl OpCodeTable {
    /// The descriptors held by the table, as models, in authoring order.
    pub closed spec fn entries(self) -> Seq<Entry> {
        entries_of(self.codes@)
    }

    #[verifier::type_invariant]
    spec fn inv(self) -> bool {
        &&& valid_table(self.entries())
        &&& self.index@.len() == 256
        &&& forall|i: int|
            0 <= i < self.codes@.len() ==> #[trigger] self.index@[self.codes@[i].code as int]
                == Some(i as usize)
        &&& forall|b: int|
            0 <= b < 256 && (#[trigger] self.index@[b]) is Some ==> self.index@[b]->0
                < self.codes@.len() && self.codes@[self.index@[b]->0 as int].code == b
    }

    /// Builds a table from a descriptor sequence, running the two
    /// construction-time checks on every descriptor in order: the length must
    /// match the addressing mode, and no opcode byte may repeat. Succeeds
    /// exactly on the valid sequences; on failure, reports the first
    /// offending descriptor, never a partially built table.
    pub fn build(codes: Vec<OpCode>) -> (r: Result<OpCodeTable, TableError>)
        ensures
            r is Ok <==> valid_table(entries_of(codes@)),
            r matches Ok(t) ==> t.entries() == entries_of(codes@),
            r matches Err(e) ==> exists|i: int|
                {
                    &&& 0 <= i < codes@.len()
                    &&& !(#[trigger] row_ok(entries_of(codes@), i))
                    &&& forall|j: int| 0 <= j < i ==> row_ok(entries_of(codes@), j)
                    &&& e == error_at(entries_of(codes@), i)
                },
    {
        let ghost s = entries_of(codes@);
        proof {
            lemma_rows_ok_is_valid(s);
        }
        let mut index: Vec<Option<usize>> = Vec::new();
        let mut b: usize = 0;
        while b < 256
            invariant
                b <= 256,
                index@.len() == b,
                forall|k: int| 0 <= k < b ==> (#[trigger] index@[k]) is None,
            decreases 256 - b,
        {
            index.push(None);
            b = b + 1;
        }
        let mut i: usize = 0;
        while i < codes.len()
            invariant
                s == entries_of(codes@),
                i <= codes@.len(),
                index@.len() == 256,
                forall|j: int| 0 <= j < i ==> #[trigger] row_ok(s, j),
                forall|j: int|
                    0 <= j < i ==> #[trigger] index@[s[j].code as int] == Some(j as usize),
                forall|k: int|
                    0 <= k < 256 && (#[trigger] index@[k]) is Some ==> index@[k]->0 < i
                        && s[index@[k]->0 as int].code == k,
            decreases codes@.len() - i,
        {
            let op = &codes[i];
            assert(s[i as int] == op@);
            if op.len != mode_len(op.mode) {
                assert(!row_ok(s, i as int));
                return Err(TableError::LengthMismatch(op.code));
            }
            if index[op.code as usize].is_some() {
                assert(!row_ok(s, i as int));
                return Err(TableError::DuplicateOpcode(op.code));
            }
            index.set(op.code as usize, Some(i));
            i = i + 1;
        }
        proof {
            assert(rows_ok(s));
            assert forall|k: int|
                0 <= k < codes@.len() implies #[trigger] index@[codes@[k].code as int] == Some(
                k as usize,
            ) by {
                assert(s[k] == codes@[k]@);
                assert(index@[s[k].code as int] == Some(k as usize));
            }
            assert forall|k: int|
                0 <= k < 256 && (#[trigger] index@[k]) is Some implies index@[k]->0
                    < codes@.len() && codes@[index@[k]->0 as int].code == k by {
                assert(s[index@[k]->0 as int] == codes@[index@[k]->0 as int]@);
            }
        }
        Ok(OpCodeTable { codes, index })
    }

    /// Looks the opcode byte up: the unique matching descriptor where one is
    /// defined, absent otherwise. Total, pure, constant-time; an undefined
    /// opcode is an ordinary absent result, never an error.
    pub fn lookup(&self, opcode: u8) -> (r: Option<&OpCode>)
        ensures
            r is Some <==> defines(self.entries(), opcode),
            r matches Some(op) ==> {
                &&& op@.code == opcode
                &&& exists|i: int| 0 <= i < self.entries().len() && self.entries()[i] == op@
                &&& forall|i: int|
                    0 <= i < self.entries().len() && (#[trigger] self.entries()[i]).code
                        == opcode ==> self.entries()[i] == op@
            },
    {
        proof {
            use_type_invariant(self);
        }
        let ghost ent = self.entries();
        match self.index[opcode as usize] {
            Some(k) => {
                let op = &self.codes[k];
                proof {
                    assert(ent[k as int] == self.codes@[k as int]@);
                    assert(ent[k as int].code == opcode && op@ == ent[k as int]);
                    assert(defines(ent, opcode));
                    assert forall|i: int|
                        0 <= i < ent.len() && (#[trigger] ent[i]).code == opcode implies ent[i]
                        == op@ by {
                        if i != k as int {
                            assert(ent[i].code != ent[k as int].code);
                        }
                    }
                }
                Some(op)
            },
            None => {
                proof {
                    assert forall|i: int|
                        0 <= i < ent.len() implies (#[trigger] ent[i]).code != opcode by {
                        assert(ent[i] == self.codes@[i]@);
                        assert(self.index@[self.codes@[i].code as int] == Some(i as usize));
                    }
                    assert(!defines(ent, opcode));
                }
                None
            },
        }
    }

    /// Every descriptor, in authoring order: stable across calls, meant for
    /// exhaustive validation and table generation, not for hot-path decode.
    pub fn all(&self) -> (r: &Vec<OpCode>)
        ensures
            entries_of(r@) == self.entries(),
            valid_table(self.entries()),
    {
        proof {
            use_type_invariant(self);
        }
        &self.codes
    }

    /// How many opcodes the table defines.
    pub fn len(&self) -> (r: usize)
        ensures
            r == self.entries().len(),
    {
        self.codes.len()
    }
}

/// The literal specification itself is consistent: unique opcodes, lengths
/// matching modes.
#[verifier::rlimit(100)]
pub proof fn lemma_table_spec_valid()
    ensures
        valid_table(table_spec()),
{
    assert(codes_unique(table_spec()));
    assert(lengths_consistent(table_spec()));
}

/// Builds the canonical table of the literal specification. Its consistency
/// is proved, so construction cannot fail.
pub fn table() -> (t: OpCodeTable)
    ensures
        t.entries() == table_spec(),
{
    let codes = cpu_ops_codes();
    proof {
        lemma_table_spec_valid();
    }
    match OpCodeTable::build(codes) {
        Ok(t) => t,
        Err(_) => vstd::pervasive::unreached(),
    }
}

} // verus!
