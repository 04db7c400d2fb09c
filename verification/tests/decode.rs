use n64rom::instruction::{DispatchTable, Instruction, OpCode, UnknownOpcode};

fn unknown(table: DispatchTable, field_value: u32, word: u32) -> UnknownOpcode {
    UnknownOpcode { table, field_value, word }
}

#[test]
fn primary_table_fixed_entries() {
    let cases: [(u32, OpCode); 30] = [
        (0b001001, OpCode::ADDIU),
        (0b000101, OpCode::BNE),
        (0b001111, OpCode::LUI),
        (0b100011, OpCode::LW),
        (0b101011, OpCode::SW),
        (0b001101, OpCode::ORI),
        (0b000100, OpCode::BEQ),
        (0b000011, OpCode::JAL),
        (0b001000, OpCode::ADDI),
        (0b001100, OpCode::ANDI),
        (0b001011, OpCode::SLTIU),
        (0b101111, OpCode::CACHE),
        (0b010101, OpCode::BNEL),
        (0b001010, OpCode::SLTI),
        (0b010100, OpCode::BEQL),
        (0b010110, OpCode::BLEZL),
        (0b101000, OpCode::SB),
        (0b100100, OpCode::LBU),
        (0b001110, OpCode::XORI),
        (0b000010, OpCode::J),
        (0b100000, OpCode::LB),
        (0b110001, OpCode::LWC1),
        (0b100001, OpCode::LH),
        (0b111000, OpCode::SC),
        (0b111100, OpCode::SCD),
        (0b100010, OpCode::LWL),
        (0b011000, OpCode::DADDI),
        (0b110000, OpCode::LL),
        (0b000110, OpCode::BLEZ),
        (0b111111, OpCode::SD),
    ];
    for (primary, expected) in cases {
        let word = primary << 26;
        assert_eq!(OpCode::from_word(word), Ok(expected));
    }
}

#[test]
fn addiu_regardless_of_remaining_bits() {
    assert_eq!(OpCode::from_word(0x2400_0000), Ok(OpCode::ADDIU));
    assert_eq!(OpCode::from_word(0x24A5_FFFF), Ok(OpCode::ADDIU));
    assert_eq!(OpCode::from_word(0x27FF_FFFF), Ok(OpCode::ADDIU));
}

#[test]
fn all_zero_word_is_sll() {
    assert_eq!(OpCode::from_word(0x0000_0000), Ok(OpCode::SLL));
}

#[test]
fn special_table_fixed_entries() {
    let cases: [(u32, OpCode); 23] = [
        (0b000000, OpCode::SLL),
        (0b100101, OpCode::OR),
        (0b100100, OpCode::AND),
        (0b100000, OpCode::ADD),
        (0b101010, OpCode::SLT),
        (0b101011, OpCode::SLTU),
        (0b001000, OpCode::JR),
        (0b010010, OpCode::MFLO),
        (0b100001, OpCode::ADDU),
        (0b100011, OpCode::SUBU),
        (0b000110, OpCode::SRLV),
        (0b000100, OpCode::SLLV),
        (0b100110, OpCode::XOR),
        (0b000010, OpCode::SRL),
        (0b011001, OpCode::MULTU),
        (0b000001, OpCode::MOVCI),
        (0b111111, OpCode::DSRA32),
        (0b010000, OpCode::MFHI),
        (0b000011, OpCode::SRA),
        (0b001100, OpCode::SYSCALL),
        (0b001111, OpCode::SYNC),
        (0b111000, OpCode::DSLL),
        (0b111110, OpCode::DSRL32),
    ];
    for (funct, expected) in cases {
        // primary zero, arbitrary middle bits, the funct under test
        let word = 0x0123_4000 | funct;
        assert_eq!(OpCode::from_word(word), Ok(expected));
    }
}

#[test]
fn special_unmapped_funct_is_error() {
    let word = 0x0000_003D; // primary 0, funct 0b111101: no SPECIAL entry
    assert_eq!(
        OpCode::from_word(word),
        Err(unknown(DispatchTable::Special, 0b111101, word))
    );
}

#[test]
fn regimm_table_entries() {
    let cases: [(u32, OpCode); 5] = [
        (0b00011, OpCode::BGEZL),
        (0b10001, OpCode::BGEZAL),
        (0b00000, OpCode::BLTZ),
        (0b10000, OpCode::BLTZAL),
        (0b01000, OpCode::TGEI),
    ];
    for (rt, expected) in cases {
        let word = (0b000001 << 26) | (rt << 16);
        assert_eq!(OpCode::from_word(word), Ok(expected));
    }
}

#[test]
fn regimm_delegation_bgezal() {
    assert_eq!(OpCode::from_word(0x0411_0000), Ok(OpCode::BGEZAL));
}

#[test]
fn regimm_unmapped_rt_is_error() {
    let word = 0x041F_0000; // primary 0b000001, rt 0b11111
    assert_eq!(
        OpCode::from_word(word),
        Err(unknown(DispatchTable::Regimm, 0b11111, word))
    );
}

#[test]
fn cop0_known_formats() {
    assert_eq!(OpCode::from_word(0x4000_0000), Ok(OpCode::MFC0)); // fmt 0b00000
    assert_eq!(OpCode::from_word(0x4080_0000), Ok(OpCode::MTC0)); // fmt 0b00100
}

#[test]
fn cop0_lenient_fallback_is_mfc0() {
    // format fields that match neither the MFC0 nor the MTC0 encoding
    // still decode to MFC0: the documented fallback, not an error
    for fmt in [0b00001u32, 0b00010, 0b00011, 0b00101, 0b10001, 0b11111] {
        let word = (0b010000 << 26) | (fmt << 21);
        assert_eq!(OpCode::from_word(word), Ok(OpCode::MFC0));
    }
}

#[test]
fn cop1_formats() {
    assert_eq!(OpCode::from_word(0x4400_0000), Ok(OpCode::MFC1)); // fmt 0b00000
    let word = 0x4460_0000; // fmt 0b00011
    assert_eq!(
        OpCode::from_word(word),
        Err(unknown(DispatchTable::Cop1, 0b00011, word))
    );
}

#[test]
fn cop2_formats() {
    assert_eq!(OpCode::from_word(0x4800_0000), Ok(OpCode::MFC2)); // fmt 0b00000
    let word = 0x48A0_0000; // fmt 0b00101
    assert_eq!(
        OpCode::from_word(word),
        Err(unknown(DispatchTable::Cop2, 0b00101, word))
    );
}

#[test]
fn cop2_vector_sub_table() {
    let vne = 0x4A20_0022; // fmt 0b10001, vector op 0b100010
    assert_eq!(OpCode::from_word(vne), Ok(OpCode::VNE));
    let word = 0x4A20_0000; // fmt 0b10001, vector op 0b000000
    assert_eq!(
        OpCode::from_word(word),
        Err(unknown(DispatchTable::Cop2Vec, 0b000000, word))
    );
}

#[test]
fn unimplemented_primaries_classify_to_unknown_tag() {
    for primary in [0b011111u32, 0b110010, 0b011100] {
        let word = primary << 26;
        assert_eq!(OpCode::from_word(word), Ok(OpCode::UNKNOWN));
    }
}

#[test]
fn unmapped_primary_is_error() {
    let word = 0x1C00_0000; // primary 0b000111: no table entry
    assert_eq!(
        OpCode::from_word(word),
        Err(unknown(DispatchTable::Primary, 0b000111, word))
    );
}

#[test]
fn totality_over_primary_boundary_values() {
    // every 6-bit primary value resolves to an opcode or a well-formed error
    for primary in 0u32..64 {
        let word = primary << 26;
        match OpCode::from_word(word) {
            Ok(_) => {}
            Err(e) => {
                assert_eq!(e.word, word);
                assert_eq!(e.table, DispatchTable::Primary);
                assert_eq!(e.field_value, primary);
            }
        }
    }
}

#[test]
fn totality_over_funct_boundary_values() {
    for funct in 0u32..64 {
        let word = funct; // primary 0: SPECIAL table
        match OpCode::from_word(word) {
            Ok(_) => {}
            Err(e) => {
                assert_eq!(e.word, word);
                assert_eq!(e.table, DispatchTable::Special);
                assert_eq!(e.field_value, funct);
            }
        }
    }
}

#[test]
fn totality_over_regimm_rt_boundary_values() {
    for rt in 0u32..32 {
        let word = (0b000001 << 26) | (rt << 16);
        match OpCode::from_word(word) {
            Ok(_) => {}
            Err(e) => {
                assert_eq!(e.word, word);
                assert_eq!(e.table, DispatchTable::Regimm);
                assert_eq!(e.field_value, rt);
            }
        }
    }
}

#[test]
fn classification_depends_only_on_dispatch_fields() {
    // same primary, different remaining bits
    assert_eq!(
        OpCode::from_word(0x2400_0000),
        OpCode::from_word(0x2412_3456)
    );
    // same primary and funct, different middle bits
    assert_eq!(
        OpCode::from_word(0x0000_0020),
        OpCode::from_word(0x03FF_FFE0)
    );
}

#[test]
fn instruction_pairs_opcode_with_word() {
    let i = Instruction::from_word(0x2400_0000).unwrap();
    assert_eq!(i.code, OpCode::ADDIU);
    assert_eq!(i.word, 0x2400_0000);
}

#[test]
fn instruction_propagates_decode_failure() {
    let word = 0x1C00_0000;
    assert_eq!(
        Instruction::from_word(word),
        Err(unknown(DispatchTable::Primary, 0b000111, word))
    );
}
