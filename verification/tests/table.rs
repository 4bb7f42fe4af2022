use opcode_table::mode::mode_len;
use opcode_table::mode::AddressingMode;
use opcode_table::mode::PenaltyFlags;
use opcode_table::opcodes::cpu_ops_codes;
use opcode_table::opcodes::OpCode;
use opcode_table::table::table;
use opcode_table::table::OpCodeTable;
use opcode_table::table::TableError;

#[test]
fn lookup_lda_immediate() {
    let t = table();
    let op = t.lookup(0xa9).expect("LDA immediate must be defined");
    assert_eq!(op.code, 0xa9);
    assert_eq!(op.mnemonic, "LDA");
    assert_eq!(op.len, 2);
    assert_eq!(op.cycles, 2);
    assert_eq!(op.mode, AddressingMode::Immediate);
}

#[test]
fn lookup_sta_zero_page() {
    let t = table();
    let op = t.lookup(0x85).expect("STA zero-page must be defined");
    assert_eq!(op.mnemonic, "STA");
    assert_eq!(op.len, 2);
    assert_eq!(op.cycles, 3);
    assert_eq!(op.mode, AddressingMode::ZeroPage);
}

#[test]
fn lookup_inx_implicit() {
    let t = table();
    let op = t.lookup(0xe8).expect("INX must be defined");
    assert_eq!(op.mnemonic, "INX");
    assert_eq!(op.len, 1);
    assert_eq!(op.cycles, 2);
    assert_eq!(op.mode, AddressingMode::NoneAddressing);
}

#[test]
fn lookup_undefined_opcode_is_absent() {
    let t = table();
    assert!(t.lookup(0xff).is_none());
}

#[test]
fn every_defined_opcode_looks_itself_up() {
    let t = table();
    for op in t.all() {
        let found = t.lookup(op.code).expect("a listed opcode must be defined");
        assert_eq!(found.code, op.code);
        assert_eq!(found.mnemonic, op.mnemonic);
        assert_eq!(found.len, op.len);
        assert_eq!(found.cycles, op.cycles);
        assert_eq!(found.mode, op.mode);
        assert_eq!(found.penalty, op.penalty);
    }
}

#[test]
fn opcodes_are_unique() {
    let t = table();
    let mut seen = [false; 256];
    for op in t.all() {
        assert!(!seen[op.code as usize], "opcode appears twice");
        seen[op.code as usize] = true;
    }
}

#[test]
fn lengths_match_modes() {
    let t = table();
    for op in t.all() {
        assert_eq!(op.len, mode_len(op.mode));
    }
}

#[test]
fn documented_mnemonics_all_present() {
    let t = table();
    let documented = [
        "BRK", "NOP", "TAX", "TAY", "TSX", "TXA", "TXS", "TYA", "PHA", "PHP", "PLA", "PLP",
        "RTI", "RTS", "INX", "INY", "DEX", "DEY", "CLC", "CLD", "CLI", "CLV", "SEC", "SED",
        "SEI", "AND", "ORA", "LSR", "ASL", "BCC", "BCS", "BEQ", "LDA", "STA",
    ];
    for name in documented {
        assert!(
            t.all().iter().any(|op| op.mnemonic == name),
            "missing mnemonic {}",
            name
        );
    }
}

#[test]
fn multi_mode_mnemonic_variants_have_distinct_opcodes() {
    let t = table();
    let and_modes = [
        AddressingMode::Immediate,
        AddressingMode::ZeroPage,
        AddressingMode::ZeroPageX,
        AddressingMode::Absolute,
        AddressingMode::AbsoluteX,
        AddressingMode::AbsoluteY,
        AddressingMode::IndirectX,
        AddressingMode::IndirectY,
    ];
    let mut codes: Vec<u8> = Vec::new();
    for mode in and_modes {
        let found: Vec<&OpCode> = t
            .all()
            .iter()
            .filter(|op| op.mnemonic == "AND" && op.mode == mode)
            .collect();
        assert_eq!(found.len(), 1, "AND must have exactly one descriptor per mode");
        codes.push(found[0].code);
    }
    for i in 0..codes.len() {
        for j in 0..codes.len() {
            if i != j {
                assert_ne!(codes[i], codes[j]);
            }
        }
    }
}

#[test]
fn mnemonic_mode_pairs_are_unique() {
    let t = table();
    let ops = t.all();
    for i in 0..ops.len() {
        for j in 0..ops.len() {
            if i != j {
                assert!(
                    ops[i].mnemonic != ops[j].mnemonic || ops[i].mode != ops[j].mode,
                    "two descriptors share mnemonic and mode"
                );
            }
        }
    }
}

#[test]
fn building_twice_yields_identical_tables() {
    let a = table();
    let b = table();
    let xs = a.all();
    let ys = b.all();
    assert_eq!(xs.len(), ys.len());
    for (x, y) in xs.iter().zip(ys.iter()) {
        assert_eq!(x.code, y.code);
        assert_eq!(x.mnemonic, y.mnemonic);
        assert_eq!(x.len, y.len);
        assert_eq!(x.cycles, y.cycles);
        assert_eq!(x.mode, y.mode);
        assert_eq!(x.penalty, y.penalty);
    }
}

#[test]
fn authoring_order_is_kept() {
    let t = table();
    let ops = t.all();
    assert_eq!(t.len(), 69);
    assert_eq!(ops.len(), 69);
    assert_eq!(ops[0].code, 0x00);
    assert_eq!(ops[0].mnemonic, "BRK");
    assert_eq!(ops[1].code, 0xea);
    assert_eq!(ops[68].code, 0x91);
    assert_eq!(ops[68].mnemonic, "STA");
}

#[test]
fn read_type_indexed_descriptors_carry_page_cross_flag() {
    let t = table();
    for op in t.all() {
        let read_type = op.mnemonic == "AND" || op.mnemonic == "ORA" || op.mnemonic == "LDA";
        let crossing_mode = op.mode == AddressingMode::AbsoluteX
            || op.mode == AddressingMode::AbsoluteY
            || op.mode == AddressingMode::IndirectY;
        if read_type && crossing_mode {
            assert!(op.penalty.page_cross, "{} 0x{:02x} must pay for page crossing", op.mnemonic, op.code);
        }
    }
}

#[test]
fn branch_descriptors_carry_branch_flag() {
    let t = table();
    for op in t.all() {
        assert_eq!(
            op.penalty.branch,
            op.mode == AddressingMode::Relative,
            "branch penalty belongs to relative mode alone"
        );
    }
    for code in [0x90u8, 0xb0, 0xf0] {
        let op = t.lookup(code).expect("branch opcode must be defined");
        assert!(op.penalty.branch);
        assert_eq!(op.mode, AddressingMode::Relative);
    }
}

#[test]
fn store_descriptors_never_pay_page_crossing() {
    let t = table();
    for op in t.all() {
        if op.mnemonic == "STA" {
            assert!(!op.penalty.page_cross);
            assert!(!op.penalty.branch);
        }
    }
}

#[test]
fn duplicate_opcode_is_rejected() {
    let ops = vec![
        OpCode::new(0xa9, "LDA", 2, 2, AddressingMode::Immediate, PenaltyFlags::fixed()),
        OpCode::new(0xa9, "ORA", 2, 2, AddressingMode::Immediate, PenaltyFlags::fixed()),
    ];
    assert_eq!(
        OpCodeTable::build(ops).err(),
        Some(TableError::DuplicateOpcode(0xa9))
    );
}

#[test]
fn length_mismatch_is_rejected() {
    let ops = vec![
        OpCode::new(0xa9, "LDA", 3, 2, AddressingMode::Immediate, PenaltyFlags::fixed()),
    ];
    assert_eq!(
        OpCodeTable::build(ops).err(),
        Some(TableError::LengthMismatch(0xa9))
    );
}

#[test]
fn length_is_checked_before_duplicate() {
    let ops = vec![
        OpCode::new(0x00, "BRK", 1, 7, AddressingMode::NoneAddressing, PenaltyFlags::fixed()),
        OpCode::new(0x00, "BRK", 2, 7, AddressingMode::NoneAddressing, PenaltyFlags::fixed()),
    ];
    assert_eq!(
        OpCodeTable::build(ops).err(),
        Some(TableError::LengthMismatch(0x00))
    );
}

#[test]
fn first_offending_descriptor_decides_the_error() {
    let ops = vec![
        OpCode::new(0x10, "BPL", 2, 2, AddressingMode::Relative, PenaltyFlags::branching()),
        OpCode::new(0x10, "BPL", 2, 2, AddressingMode::Relative, PenaltyFlags::branching()),
        OpCode::new(0x20, "JSR", 1, 6, AddressingMode::Absolute, PenaltyFlags::fixed()),
    ];
    assert_eq!(
        OpCodeTable::build(ops).err(),
        Some(TableError::DuplicateOpcode(0x10))
    );
}

#[test]
fn valid_custom_sequence_builds() {
    let ops = vec![
        OpCode::new(0xa9, "LDA", 2, 2, AddressingMode::Immediate, PenaltyFlags::fixed()),
        OpCode::new(0x85, "STA", 2, 3, AddressingMode::ZeroPage, PenaltyFlags::fixed()),
    ];
    let t = OpCodeTable::build(ops).expect("a consistent sequence must build");
    assert_eq!(t.len(), 2);
    assert_eq!(t.lookup(0xa9).unwrap().mnemonic, "LDA");
    assert_eq!(t.lookup(0x85).unwrap().mnemonic, "STA");
    assert!(t.lookup(0x00).is_none());
}

#[test]
fn empty_sequence_builds_an_empty_table() {
    let t = OpCodeTable::build(Vec::new()).expect("the empty sequence is consistent");
    assert_eq!(t.len(), 0);
    for code in 0..=255u8 {
        assert!(t.lookup(code).is_none());
    }
}

#[test]
fn mode_len_covers_every_mode() {
    assert_eq!(mode_len(AddressingMode::NoneAddressing), 1);
    assert_eq!(mode_len(AddressingMode::Accumulator), 1);
    assert_eq!(mode_len(AddressingMode::Immediate), 2);
    assert_eq!(mode_len(AddressingMode::ZeroPage), 2);
    assert_eq!(mode_len(AddressingMode::ZeroPageX), 2);
    assert_eq!(mode_len(AddressingMode::ZeroPageY), 2);
    assert_eq!(mode_len(AddressingMode::IndirectX), 2);
    assert_eq!(mode_len(AddressingMode::IndirectY), 2);
    assert_eq!(mode_len(AddressingMode::Relative), 2);
    assert_eq!(mode_len(AddressingMode::Absolute), 3);
    assert_eq!(mode_len(AddressingMode::AbsoluteX), 3);
    assert_eq!(mode_len(AddressingMode::AbsoluteY), 3);
}

#[test]
fn opcode_new_keeps_its_fields() {
    let op = OpCode::new(0x29, "AND", 2, 2, AddressingMode::Immediate, PenaltyFlags::fixed());
    assert_eq!(op.code, 0x29);
    assert_eq!(op.mnemonic, "AND");
    assert_eq!(op.len, 2);
    assert_eq!(op.cycles, 2);
    assert_eq!(op.mode, AddressingMode::Immediate);
    assert_eq!(op.penalty, PenaltyFlags::fixed());
}

#[test]
fn penalty_constructors() {
    assert!(!PenaltyFlags::fixed().page_cross);
    assert!(!PenaltyFlags::fixed().branch);
    assert!(PenaltyFlags::page_crossing().page_cross);
    assert!(!PenaltyFlags::page_crossing().branch);
    assert!(!PenaltyFlags::branching().page_cross);
    assert!(PenaltyFlags::branching().branch);
}

#[test]
fn builder_matches_reference_rows() {
    let ops = cpu_ops_codes();
    assert_eq!(ops.len(), 69);
    let expected: [(u8, &str, u8, u8); 8] = [
        (0x29, "AND", 2, 2),
        (0x25, "AND", 2, 3),
        (0x35, "AND", 2, 4),
        (0x2d, "AND", 3, 4),
        (0x3d, "AND", 3, 4),
        (0x39, "AND", 3, 4),
        (0x21, "AND", 2, 6),
        (0x31, "AND", 2, 5),
    ];
    for (k, (code, mnemonic, len, cycles)) in expected.iter().enumerate() {
        let op = &ops[25 + k];
        assert_eq!(op.code, *code);
        assert_eq!(op.mnemonic, *mnemonic);
        assert_eq!(op.len, *len);
        assert_eq!(op.cycles, *cycles);
    }
}
