//! The instruction decode engine: bitfield extraction from a 32-bit word and
//! the multi-level dispatch tree that classifies the word as one opcode
//! mnemonic or a typed failure.

use vstd::prelude::*;

verus! {

/// The dispatch table in which a lookup can fail. `Cop0` never appears in an
/// error: its table falls back to a defined result for every format value.
#[derive(Debug, Clone, Copy, PartialEq, Eq, Structural)]
pub enum DispatchTable {
    Primary,
    Special,
    Regimm,
    Cop1,
    Cop2,
    Cop2Vec,
}

/// A bitfield value with no entry in the named dispatch table, together with
/// the offending field value and the whole word it was taken from.
#[derive(Debug, Clone, Copy, PartialEq, Eq, Structural)]
pub struct UnknownOpcode {
    pub table: DispatchTable,
    pub field_value: u32,
    pub word: u32,
}

/// The primary opcode: bits 31..26 of the word.
pub open spec fn spec_primary(w: u32) -> u32 {
    w >> 26
}

/// The SPECIAL-table function field: bits 5..0, used when the primary
/// opcode is zero.
pub open spec fn spec_funct(w: u32) -> u32 {
    w & 0x3f
}

/// The REGIMM rt field: bits 20..16, used when the primary opcode is one.
pub open spec fn spec_regimm_rt(w: u32) -> u32 {
    (w >> 16) & 0x1f
}

/// The coprocessor format field: bits 25..21, used when the primary opcode
/// selects a coprocessor instruction.
pub open spec fn spec_cop_fmt(w: u32) -> u32 {
    (w >> 21) & 0x1f
}

/// The vector-unit operation field: bits 5..0, used inside the COP2
/// sub-table.
pub open spec fn spec_cop2_vec_op(w: u32) -> u32 {
    w & 0x3f
}

/// The closed set of mnemonic tags a word can classify to.
///
/// The pseudo/alias group is kept only as classification results; the
/// decoder never produces them on its own. `UNKNOWN` is the explicit
/// recognized-but-unimplemented tag for encodings from later ISA revisions,
/// a defined result rather than an error.
#[allow(non_camel_case_types)]
#[derive(Debug, Clone, Copy, PartialEq, Eq, Structural)]
pub enum OpCode {
    // Recognized but intentionally unclassified
    UNKNOWN,
    // Pseudo / alias mnemonics
    NOP,
    LI,
    BNEZ,
    MOVE,
    B,
    BEQZ,
    BNEZL,
    BAL,
    NEG,
    NEGU,
    BEQZL,
    SS,
    LS,
    // Core integer / load / store / branch
    ADDIU,
    BNE,
    LUI,
    LW,
    SW,
    ORI,
    BEQ,
    JAL,
    ADDI,
    ANDI,
    SLTIU,
    CACHE,
    BNEL,
    SLTI,
    BEQL,
    BLEZL,
    SB,
    LBU,
    XORI,
    J,
    LB,
    LWC1,
    LH,
    SC,
    SCD,
    LWL,
    DADDI,
    LL,
    BLEZ,
    SD,
    // SPECIAL table
    SLL,
    OR,
    AND,
    ADD,
    SLT,
    SLTU,
    JR,
    MFLO,
    ADDU,
    SUBU,
    SRLV,
    SLLV,
    XOR,
    SRL,
    MULTU,
    MOVCI,
    DSRA32,
    MFHI,
    SRA,
    SYSCALL,
    SYNC,
    DSLL,
    DSRL32,
    // COP0
    MTC0,
    MFC0,
    // COP1
    MFC1,
    // COP2
    MFC2,
    // COP2 vector unit
    VNE,
    // REGIMM table
    BGEZL,
    BGEZAL,
    BLTZ,
    BLTZAL,
    TGEI,
}

/// Isolates the primary opcode, bits 31..26.
pub fn primary(word: u32) -> (r: u32)
    ensures
        r == spec_primary(word),
{
    word >> 26u32
}

/// Isolates the SPECIAL function field, bits 5..0.
pub fn funct(word: u32) -> (r: u32)
    ensures
        r == spec_funct(word),
{
    word & 0x3f
}

/// Isolates the REGIMM rt field, bits 20..16.
pub fn regimm_rt(word: u32) -> (r: u32)
    ensures
        r == spec_regimm_rt(word),
{
    (word >> 16u32) & 0x1f
}

/// Isolates the coprocessor format field, bits 25..21.
pub fn cop_fmt(word: u32) -> (r: u32)
    ensures
        r == spec_cop_fmt(word),
{
    (word >> 21u32) & 0x1f
}

/// Isolates the vector-unit operation field, bits 5..0.
pub fn cop2_vec_op(word: u32) -> (r: u32)
    ensures
        r == spec_cop2_vec_op(word),
{
    word & 0x3f
}

/// What the SPECIAL sub-table maps the function field of `w` to.
pub open spec fn spec_classify_special(w: u32) -> Result<OpCode, UnknownOpcode> {
    let f = spec_funct(w);
    if f == 0b000000 {
        Ok(OpCode::SLL)
    } else if f == 0b100101 {
        Ok(OpCode::OR)
    } else if f == 0b100100 {
        Ok(OpCode::AND)
    } else if f == 0b100000 {
        Ok(OpCode::ADD)
    } else if f == 0b101010 {
        Ok(OpCode::SLT)
    } else if f == 0b101011 {
        Ok(OpCode::SLTU)
    } else if f == 0b001000 {
        Ok(OpCode::JR)
    } else if f == 0b010010 {
        Ok(OpCode::MFLO)
    } else if f == 0b100001 {
        Ok(OpCode::ADDU)
    } else if f == 0b100011 {
        Ok(OpCode::SUBU)
    } else if f == 0b000110 {
        Ok(OpCode::SRLV)
    } else if f == 0b000100 {
        Ok(OpCode::SLLV)
    } else if f == 0b100110 {
        Ok(OpCode::XOR)
    } else if f == 0b000010 {
        Ok(OpCode::SRL)
    } else if f == 0b011001 {
        Ok(OpCode::MULTU)
    } else if f == 0b000001 {
        Ok(OpCode::MOVCI)
    } else if f == 0b111111 {
        Ok(OpCode::DSRA32)
    } else if f == 0b010000 {
        Ok(OpCode::MFHI)
    } else if f == 0b000011 {
        Ok(OpCode::SRA)
    } else if f == 0b001100 {
        Ok(OpCode::SYSCALL)
    } else if f == 0b001111 {
        Ok(OpCode::SYNC)
    } else if f == 0b111000 {
        Ok(OpCode::DSLL)
    } else if f == 0b111110 {
        Ok(OpCode::DSRL32)
    } else {
        Err(UnknownOpcode { table: DispatchTable::Special, field_value: f, word: w })
    }
}

/// What the REGIMM sub-table maps the rt field of `w` to.
pub open spec fn spec_classify_regimm(w: u32) -> Result<OpCode, UnknownOpcode> {
    let rt = spec_regimm_rt(w);
    if rt == 0b00011 {
        Ok(OpCode::BGEZL)
    } else if rt == 0b10001 {
        Ok(OpCode::BGEZAL)
    } else if rt == 0b00000 {
        Ok(OpCode::BLTZ)
    } else if rt == 0b10000 {
        Ok(OpCode::BLTZAL)
    } else if rt == 0b01000 {
        Ok(OpCode::TGEI)
    } else {
        Err(UnknownOpcode { table: DispatchTable::Regimm, field_value: rt, word: w })
    }
}

/// What the COP0 sub-table maps the format field of `w` to. Every format
/// value other than the MTC0 encoding resolves to MFC0: the remaining
/// MMU-control encodings are not yet distinguished, and this lenient
/// fallback is the deliberate placeholder for them, not an error.
pub open spec fn spec_classify_cop0(w: u32) -> Result<OpCode, UnknownOpcode> {
    let fmt = spec_cop_fmt(w);
    if fmt == 0b00100 {
        Ok(OpCode::MTC0)
    } else {
        Ok(OpCode::MFC0)
    }
}

/// What the COP1 sub-table maps the format field of `w` to.
pub open spec fn spec_classify_cop1(w: u32) -> Result<OpCode, UnknownOpcode> {
    let fmt = spec_cop_fmt(w);
    if fmt == 0b00000 {
        Ok(OpCode::MFC1)
    } else {
        Err(UnknownOpcode { table: DispatchTable::Cop1, field_value: fmt, word: w })
    }
}

/// What the COP2 vector sub-table maps the vector operation field of `w` to.
pub open spec fn spec_classify_cop2_vec(w: u32) -> Result<OpCode, UnknownOpcode> {
    let op = spec_cop2_vec_op(w);
    if op == 0b100010 {
        Ok(OpCode::VNE)
    } else {
        Err(UnknownOpcode { table: DispatchTable::Cop2Vec, field_value: op, word: w })
    }
}

/// What the COP2 sub-table maps the format field of `w` to, delegating to
/// the vector sub-table for the vector format value.
pub open spec fn spec_classify_cop2(w: u32) -> Result<OpCode, UnknownOpcode> {
    let fmt = spec_cop_fmt(w);
    if fmt == 0b00000 {
        Ok(OpCode::MFC2)
    } else if fmt == 0b10001 {
        spec_classify_cop2_vec(w)
    } else {
        Err(UnknownOpcode { table: DispatchTable::Cop2, field_value: fmt, word: w })
    }
}

/// The whole dispatch tree: what classifying the word `w` yields, for every
/// one of the 2^32 possible words.
pub open spec fn spec_classify(w: u32) -> Result<OpCode, UnknownOpcode> {
    let p = spec_primary(w);
    if p == 0b001001 {
        Ok(OpCode::ADDIU)
    } else if p == 0b000101 {
        Ok(OpCode::BNE)
    } else if p == 0b001111 {
        Ok(OpCode::LUI)
    } else if p == 0b100011 {
        Ok(OpCode::LW)
    } else if p == 0b101011 {
        Ok(OpCode::SW)
    } else if p == 0b001101 {
        Ok(OpCode::ORI)
    } else if p == 0b000100 {
        Ok(OpCode::BEQ)
    } else if p == 0b000011 {
        Ok(OpCode::JAL)
    } else if p == 0b001000 {
        Ok(OpCode::ADDI)
    } else if p == 0b001100 {
        Ok(OpCode::ANDI)
    } else if p == 0b001011 {
        Ok(OpCode::SLTIU)
    } else if p == 0b101111 {
        Ok(OpCode::CACHE)
    } else if p == 0b010101 {
        Ok(OpCode::BNEL)
    } else if p == 0b001010 {
        Ok(OpCode::SLTI)
    } else if p == 0b010100 {
        Ok(OpCode::BEQL)
    } else if p == 0b010110 {
        Ok(OpCode::BLEZL)
    } else if p == 0b101000 {
        Ok(OpCode::SB)
    } else if p == 0b100100 {
        Ok(OpCode::LBU)
    } else if p == 0b001110 {
        Ok(OpCode::XORI)
    } else if p == 0b000010 {
        Ok(OpCode::J)
    } else if p == 0b100000 {
        Ok(OpCode::LB)
    } else if p == 0b110001 {
        Ok(OpCode::LWC1)
    } else if p == 0b100001 {
        Ok(OpCode::LH)
    } else if p == 0b111000 {
        Ok(OpCode::SC)
    } else if p == 0b111100 {
        Ok(OpCode::SCD)
    } else if p == 0b100010 {
        Ok(OpCode::LWL)
    } else if p == 0b011000 {
        Ok(OpCode::DADDI)
    } else if p == 0b110000 {
        Ok(OpCode::LL)
    } else if p == 0b000110 {
        Ok(OpCode::BLEZ)
    } else if p == 0b111111 {
        Ok(OpCode::SD)
    } else if p == 0b000001 {
        spec_classify_regimm(w)
    } else if p == 0b000000 {
        spec_classify_special(w)
    } else if p == 0b010000 {
        spec_classify_cop0(w)
    } else if p == 0b010001 {
        spec_classify_cop1(w)
    } else if p == 0b010010 {
        spec_classify_cop2(w)
    } else if p == 0b011111 || p == 0b110010 || p == 0b011100 {
        Ok(OpCode::UNKNOWN)
    } else {
        Err(UnknownOpcode { table: DispatchTable::Primary, field_value: p, word: w })
    }
}

impl OpCode {
    /// Classifies a word, dispatching on the primary opcode and delegating
    /// to the sub-tables for the SPECIAL, REGIMM and coprocessor groups.
    pub fn from_word(word: u32) -> (r: Result<OpCode, UnknownOpcode>)
        ensures
            r == spec_classify(word),
    {
        let code = primary(word);
        match code {
            0b001001 => Ok(OpCode::ADDIU),
            0b000101 => Ok(OpCode::BNE),
            0b001111 => Ok(OpCode::LUI),
            0b100011 => Ok(OpCode::LW),
            0b101011 => Ok(OpCode::SW),
            0b001101 => Ok(OpCode::ORI),
            0b000100 => Ok(OpCode::BEQ),
            0b000011 => Ok(OpCode::JAL),
            0b001000 => Ok(OpCode::ADDI),
            0b001100 => Ok(OpCode::ANDI),
            0b001011 => Ok(OpCode::SLTIU),
            0b101111 => Ok(OpCode::CACHE),
            0b010101 => Ok(OpCode::BNEL),
            0b001010 => Ok(OpCode::SLTI),
            0b010100 => Ok(OpCode::BEQL),
            0b010110 => Ok(OpCode::BLEZL),
            0b101000 => Ok(OpCode::SB),
            0b100100 => Ok(OpCode::LBU),
            0b001110 => Ok(OpCode::XORI),
            0b000010 => Ok(OpCode::J),
            0b100000 => Ok(OpCode::LB),
            0b110001 => Ok(OpCode::LWC1),
            0b100001 => Ok(OpCode::LH),
            0b111000 => Ok(OpCode::SC),
            0b111100 => Ok(OpCode::SCD),
            0b100010 => Ok(OpCode::LWL),
            0b011000 => Ok(OpCode::DADDI),
            0b110000 => Ok(OpCode::LL),
            0b000110 => Ok(OpCode::BLEZ),
            0b111111 => Ok(OpCode::SD),
            0b000001 => OpCode::from_regimm_rt(word),
            0b000000 => OpCode::from_special_inst(word),
            0b010000 => OpCode::from_cop0_fmt(word),
            0b010001 => OpCode::from_cop1_fmt(word),
            0b010010 => OpCode::from_cop2_fmt(word),
            0b011111 | 0b110010 | 0b011100 => Ok(OpCode::UNKNOWN),
            _ => Err(UnknownOpcode {
                table: DispatchTable::Primary,
                field_value: code,
                word,
            }),
        }
    }

    /// The COP0 sub-table: MTC0 for its one distinguished format value,
    /// MFC0 for every other, the documented lenient fallback.
    pub fn from_cop0_fmt(word: u32) -> (r: Result<OpCode, UnknownOpcode>)
        ensures
            r == spec_classify_cop0(word),
    {
        let code = cop_fmt(word);
        match code {
            0b00000 => Ok(OpCode::MFC0),
            0b00100 => Ok(OpCode::MTC0),
            _ => Ok(OpCode::MFC0),
        }
    }

    /// The COP1 sub-table.
    pub fn from_cop1_fmt(word: u32) -> (r: Result<OpCode, UnknownOpcode>)
        ensures
            r == spec_classify_cop1(word),
    {
        let code = cop_fmt(word);
        match code {
            0b00000 => Ok(OpCode::MFC1),
            _ => Err(UnknownOpcode {
                table: DispatchTable::Cop1,
                field_value: code,
                word,
            }),
        }
    }

    /// The COP2 sub-table, delegating to the vector sub-table.
    pub fn from_cop2_fmt(word: u32) -> (r: Result<OpCode, UnknownOpcode>)
        ensures
            r == spec_classify_cop2(word),
    {
        let code = cop_fmt(word);
        match code {
            0b00000 => Ok(OpCode::MFC2),
            0b10001 => OpCode::from_cop2_vec(word),
            _ => Err(UnknownOpcode {
                table: DispatchTable::Cop2,
                field_value: code,
                word,
            }),
        }
    }

    /// The COP2 vector sub-table.
    pub fn from_cop2_vec(word: u32) -> (r: Result<OpCode, UnknownOpcode>)
        ensures
            r == spec_classify_cop2_vec(word),
    {
        let code = cop2_vec_op(word);
        match code {
            0b100010 => Ok(OpCode::VNE),
            _ => Err(UnknownOpcode {
                table: DispatchTable::Cop2Vec,
                field_value: code,
                word,
            }),
        }
    }

    /// The REGIMM sub-table.
    pub fn from_regimm_rt(word: u32) -> (r: Result<OpCode, UnknownOpcode>)
        ensures
            r == spec_classify_regimm(word),
    {
        let code = regimm_rt(word);
        match code {
            0b00011 => Ok(OpCode::BGEZL),
            0b10001 => Ok(OpCode::BGEZAL),
            0b00000 => Ok(OpCode::BLTZ),
            0b10000 => Ok(OpCode::BLTZAL),
            0b01000 => Ok(OpCode::TGEI),
            _ => Err(UnknownOpcode {
                table: DispatchTable::Regimm,
                field_value: code,
                word,
            }),
        }
    }

    /// The SPECIAL sub-table.
    pub fn from_special_inst(word: u32) -> (r: Result<OpCode, UnknownOpcode>)
        ensures
            r == spec_classify_special(word),
    {
        let code = funct(word);
        match code {
            0b000000 => Ok(OpCode::SLL),
            0b100101 => Ok(OpCode::OR),
            0b100100 => Ok(OpCode::AND),
            0b100000 => Ok(OpCode::ADD),
            0b101010 => Ok(OpCode::SLT),
            0b101011 => Ok(OpCode::SLTU),
            0b001000 => Ok(OpCode::JR),
            0b010010 => Ok(OpCode::MFLO),
            0b100001 => Ok(OpCode::ADDU),
            0b100011 => Ok(OpCode::SUBU),
            0b000110 => Ok(OpCode::SRLV),
            0b000100 => Ok(OpCode::SLLV),
            0b100110 => Ok(OpCode::XOR),
            0b000010 => Ok(OpCode::SRL),
            0b011001 => Ok(OpCode::MULTU),
            0b000001 => Ok(OpCode::MOVCI),
            0b111111 => Ok(OpCode::DSRA32),
            0b010000 => Ok(OpCode::MFHI),
            0b000011 => Ok(OpCode::SRA),
            0b001100 => Ok(OpCode::SYSCALL),
            0b001111 => Ok(OpCode::SYNC),
            0b111000 => Ok(OpCode::DSLL),
            0b111110 => Ok(OpCode::DSRL32),
            _ => Err(UnknownOpcode {
                table: DispatchTable::Special,
                field_value: code,
                word,
            }),
        }
    }
}

/// An opcode classification paired with the raw word it was decoded from.
#[derive(Debug, Clone, Copy, PartialEq, Eq, Structural)]
pub struct Instruction {
    pub code: OpCode,
    pub word: u32,
}

/// What decoding the word `w` into an [`Instruction`] yields: the
/// classification paired with the word itself, or the classifier's failure.
pub open spec fn spec_decode(w: u32) -> Result<Instruction, UnknownOpcode> {
    match spec_classify(w) {
        Ok(code) => Ok(Instruction { code, word: w }),
        Err(e) => Err(e),
    }
}

impl Instruction {
    /// Decodes a word, pairing the resulting opcode with the original word.
    pub fn from_word(word: u32) -> (r: Result<Instruction, UnknownOpcode>)
        ensures
            r == spec_decode(word),
    {
        match OpCode::from_word(word) {
            Ok(code) => Ok(Instruction { code, word }),
            Err(e) => Err(e),
        }
    }
}

/// The bitfield a given dispatch table keys its lookup on.
pub open spec fn spec_table_field(t: DispatchTable, w: u32) -> u32 {
    match t {
        DispatchTable::Primary => spec_primary(w),
        DispatchTable::Special => spec_funct(w),
        DispatchTable::Regimm => spec_regimm_rt(w),
        DispatchTable::Cop1 => spec_cop_fmt(w),
        DispatchTable::Cop2 => spec_cop_fmt(w),
        DispatchTable::Cop2Vec => spec_cop2_vec_op(w),
    }
}

/// Totality of the classifier: every word resolves to a defined opcode or
/// to a well-formed failure, and a failure always carries the offending
/// word together with the exact field value that the named table keyed on.
pub proof fn lemma_classify_total(w: u32)
    ensures
        spec_classify(w) is Ok || spec_classify(w) is Err,
        spec_classify(w) matches Err(e) ==> e.word == w,
        spec_classify(w) matches Err(e) ==> e.field_value == spec_table_field(e.table, w),
{
}

/// Determinism of the dispatch tables: classification depends only on the
/// dispatch bitfields. Two words that agree on every dispatch field
/// classify to the same opcode, or fail in the same table on the same
/// field value.
pub proof fn lemma_classify_depends_on_fields(w1: u32, w2: u32)
    requires
        spec_primary(w1) == spec_primary(w2),
        spec_funct(w1) == spec_funct(w2),
        spec_regimm_rt(w1) == spec_regimm_rt(w2),
        spec_cop_fmt(w1) == spec_cop_fmt(w2),
        spec_cop2_vec_op(w1) == spec_cop2_vec_op(w2),
    ensures
        (match (spec_classify(w1), spec_classify(w2)) {
            (Ok(c1), Ok(c2)) => c1 == c2,
            (Err(e1), Err(e2)) => e1.table == e2.table && e1.field_value == e2.field_value,
            _ => false,
        }),
{
}

/// A word whose primary opcode is the ADDIU pattern classifies to ADDIU
/// whatever its remaining bits hold.
pub proof fn lemma_primary_addiu(w: u32)
    requires
        spec_primary(w) == 0b001001,
    ensures
        spec_classify(w) == Ok::<OpCode, UnknownOpcode>(OpCode::ADDIU),
{
}

/// A word whose primary opcode and function field are both zero classifies
/// to SLL whatever its remaining bits hold.
pub proof fn lemma_special_zero_is_sll(w: u32)
    requires
        spec_primary(w) == 0b000000,
        spec_funct(w) == 0b000000,
    ensures
        spec_classify(w) == Ok::<OpCode, UnknownOpcode>(OpCode::SLL),
{
}

/// Delegation to the REGIMM sub-table: under the REGIMM primary opcode,
/// the rt field alone selects the result, BGEZAL for its known pattern and
/// a failure naming the REGIMM table for an unmapped one.
pub proof fn lemma_regimm_delegation(w: u32)
    requires
        spec_primary(w) == 0b000001,
    ensures
        spec_regimm_rt(w) == 0b10001 ==> spec_classify(w) == Ok::<OpCode, UnknownOpcode>(
            OpCode::BGEZAL,
        ),
        spec_regimm_rt(w) == 0b11111 ==> spec_classify(w) == Err::<OpCode, UnknownOpcode>(
            (UnknownOpcode { table: DispatchTable::Regimm, field_value: 0b11111, word: w }),
        ),
{
}

/// The COP0 lenient fallback: under the COP0 primary opcode, a format
/// field matching neither the MFC0 nor the MTC0 encoding still classifies
/// to MFC0 — a defined result, not an error.
pub proof fn lemma_cop0_lenient_fallback(w: u32)
    requires
        spec_primary(w) == 0b010000,
        spec_cop_fmt(w) != 0b00000,
        spec_cop_fmt(w) != 0b00100,
    ensures
        spec_classify(w) == Ok::<OpCode, UnknownOpcode>(OpCode::MFC0),
{
}

} // verus!
