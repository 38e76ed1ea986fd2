use vstd::prelude::*;

use crate::bits::{sign_extend, sign_shrink, spec_sign_extend, spec_sign_shrink};
use crate::register::{register_index, register_of_index, lemma_register_index_roundtrip, Register};

verus! {

// ---------------------------------------------------------------------------
// Fields of a 32-bit instruction word
// ---------------------------------------------------------------------------

/// The two low bits that select between compressed quadrants and 32-bit words.
pub open spec fn word_quadrant(w: u32) -> u32 {
    w & 3
}

/// The 5-bit major opcode, bits 6:2.
pub open spec fn word_opcode(w: u32) -> u32 {
    (w >> 2) & 0x1f
}

/// The funct3 field, bits 14:12.
pub open spec fn word_funct3(w: u32) -> u32 {
    (w >> 12) & 7
}

/// The funct7 field, bits 31:25.
pub open spec fn word_funct7(w: u32) -> u32 {
    w >> 25
}

/// The 6-bit shift funct field, bits 31:26.
pub open spec fn word_funct6(w: u32) -> u32 {
    w >> 26
}

/// The 5-bit atomic funct field, bits 31:27, which leaves out aq and rl.
pub open spec fn word_funct5(w: u32) -> u32 {
    w >> 27
}

/// The destination register index, bits 11:7.
pub open spec fn word_rd(w: u32) -> u32 {
    (w >> 7) & 0x1f
}

/// The first source register index, bits 19:15.
pub open spec fn word_rs1(w: u32) -> u32 {
    (w >> 15) & 0x1f
}

/// The second source register index, bits 24:20.
pub open spec fn word_rs2(w: u32) -> u32 {
    (w >> 20) & 0x1f
}

/// The I-format immediate field, bits 31:20.
pub open spec fn word_itype_imm(w: u32) -> u32 {
    w >> 20
}

// ---------------------------------------------------------------------------
// Word layouts of the six formats
// ---------------------------------------------------------------------------

/// The R-format word with the given fields.
pub open spec fn rtype_word(funct7: u32, funct3: u32, opcode: u32, rd: u32, rs1: u32, rs2: u32) -> u32 {
    (funct7 << 25) | (rs2 << 20) | (rs1 << 15) | (funct3 << 12) | (rd << 7) | opcode
}

/// The I-format word whose immediate field holds the 12-bit pattern `imm12`.
pub open spec fn itype_word(imm12: u32, funct3: u32, opcode: u32, rd: u32, rs1: u32) -> u32 {
    (imm12 << 20) | (rs1 << 15) | (funct3 << 12) | (rd << 7) | opcode
}

/// The S-format word whose scattered immediate holds the 12-bit pattern `imm12`.
pub open spec fn stype_word(imm12: u32, funct3: u32, opcode: u32, rs1: u32, rs2: u32) -> u32 {
    ((imm12 >> 5) << 25) | (rs2 << 20) | (rs1 << 15) | (funct3 << 12) | ((imm12 & 0x1f) << 7)
        | opcode
}

/// The B-format word whose scattered immediate holds the 13-bit pattern
/// `imm13`; bit 0 of the pattern has no place in the word and is dropped.
pub open spec fn btype_word(imm13: u32, funct3: u32, opcode: u32, rs1: u32, rs2: u32) -> u32 {
    (((imm13 >> 12) & 1) << 31) | (((imm13 >> 5) & 0x3f) << 25) | (rs2 << 20) | (rs1 << 15)
        | (funct3 << 12) | (((imm13 >> 1) & 0xf) << 8) | (((imm13 >> 11) & 1) << 7) | opcode
}

/// The U-format word whose immediate field holds the 20-bit pattern `imm20`.
pub open spec fn utype_word(imm20: u32, opcode: u32, rd: u32) -> u32 {
    (imm20 << 12) | (rd << 7) | opcode
}

/// The J-format word whose scattered immediate holds the 21-bit pattern
/// `imm21`; bit 0 of the pattern has no place in the word and is dropped.
pub open spec fn jtype_word(imm21: u32, opcode: u32, rd: u32) -> u32 {
    (((imm21 >> 20) & 1) << 31) | (((imm21 >> 1) & 0x3ff) << 21) | (((imm21 >> 11) & 1) << 20)
        | (((imm21 >> 12) & 0xff) << 12) | (rd << 7) | opcode
}


// ---------------------------------------------------------------------------
// Field extraction from assembled words
// ---------------------------------------------------------------------------

/// Extracting the fields of an assembled R-format word gives back what was
/// put in.
pub proof fn lemma_rtype_word_fields()
    by (bit_vector)
    ensures
        forall|funct7: u32, funct3: u32, opcode: u32, rd: u32, rs1: u32, rs2: u32|
            funct7 < 128 && funct3 < 8 && opcode < 128 && rd < 32 && rs1 < 32 && rs2 < 32 ==> {
                let w = #[trigger] rtype_word(funct7, funct3, opcode, rd, rs1, rs2);
                word_quadrant(w) == opcode % 4 && word_opcode(w) == opcode / 4 && word_funct3(w)
                    == funct3 && word_funct7(w) == funct7 && word_funct5(w) == funct7 / 4
                    && word_rd(w) == rd && word_rs1(w) == rs1 && word_rs2(w) == rs2
            },
{
}

/// Extracting the fields of an assembled I-format word gives back what was
/// put in; the immediate field holds the pattern reduced to 12 bits.
pub proof fn lemma_itype_word_fields()
    by (bit_vector)
    ensures
        forall|imm12: u32, funct3: u32, opcode: u32, rd: u32, rs1: u32|
            funct3 < 8 && opcode < 128 && rd < 32 && rs1 < 32 ==> {
                let w = #[trigger] itype_word(imm12, funct3, opcode, rd, rs1);
                word_quadrant(w) == opcode % 4 && word_opcode(w) == opcode / 4 && word_funct3(w)
                    == funct3 && word_rd(w) == rd && word_rs1(w) == rs1 && word_itype_imm(w)
                    == imm12 % 4096 && word_funct6(w) == (imm12 % 4096) / 64 && word_funct7(w)
                    == (imm12 % 4096) / 32
            },
{
}

/// Extracting the fields of an assembled S-format word gives back what was
/// put in.
pub proof fn lemma_stype_word_fields()
    by (bit_vector)
    ensures
        forall|imm12: u32, funct3: u32, opcode: u32, rs1: u32, rs2: u32|
            imm12 < 4096 && funct3 < 8 && opcode < 128 && rs1 < 32 && rs2 < 32 ==> {
                let w = #[trigger] stype_word(imm12, funct3, opcode, rs1, rs2);
                word_quadrant(w) == opcode % 4 && word_opcode(w) == opcode / 4 && word_funct3(w)
                    == funct3 && word_rs1(w) == rs1 && word_rs2(w) == rs2
            },
{
}

/// Extracting the fields of an assembled B-format word gives back what was
/// put in.
pub proof fn lemma_btype_word_fields()
    by (bit_vector)
    ensures
        forall|imm13: u32, funct3: u32, opcode: u32, rs1: u32, rs2: u32|
            imm13 < 8192 && funct3 < 8 && opcode < 128 && rs1 < 32 && rs2 < 32 ==> {
                let w = #[trigger] btype_word(imm13, funct3, opcode, rs1, rs2);
                word_quadrant(w) == opcode % 4 && word_opcode(w) == opcode / 4 && word_funct3(w)
                    == funct3 && word_rs1(w) == rs1 && word_rs2(w) == rs2
            },
{
}

/// Extracting the fields of an assembled U-format word gives back what was
/// put in.
pub proof fn lemma_utype_word_fields()
    by (bit_vector)
    ensures
        forall|imm20: u32, opcode: u32, rd: u32|
            imm20 < 0x100000 && opcode < 128 && rd < 32 ==> {
                let w = #[trigger] utype_word(imm20, opcode, rd);
                word_quadrant(w) == opcode % 4 && word_opcode(w) == opcode / 4 && word_rd(w) == rd
                    && (w & 0xfffff000) >> 12 == imm20
            },
{
}

/// Extracting the fields of an assembled J-format word gives back what was
/// put in.
pub proof fn lemma_jtype_word_fields()
    by (bit_vector)
    ensures
        forall|imm21: u32, opcode: u32, rd: u32|
            imm21 < 0x200000 && opcode < 128 && rd < 32 ==> {
                let w = #[trigger] jtype_word(imm21, opcode, rd);
                word_quadrant(w) == opcode % 4 && word_opcode(w) == opcode / 4 && word_rd(w) == rd
            },
{
}

// ---------------------------------------------------------------------------
// R format
// ---------------------------------------------------------------------------

/// An R-format instruction word: two sources, one destination.
#[derive(Clone, Copy, Debug, Eq, Hash, PartialEq, Structural)]
pub struct RType(pub u32);

impl RType {
    /// The destination register held in the word.
    pub open spec fn spec_rd(self) -> Register {
        register_of_index(word_rd(self.0))
    }

    /// The first source register held in the word.
    pub open spec fn spec_rs1(self) -> Register {
        register_of_index(word_rs1(self.0))
    }

    /// The second source register held in the word.
    pub open spec fn spec_rs2(self) -> Register {
        register_of_index(word_rs2(self.0))
    }

    /// Assemble an R-format word from its fields.
    pub fn new(funct7: u32, funct3: u32, opcode: u32, rd: Register, rs1: Register, rs2: Register) -> (r: RType)
        requires
            funct7 < 128,
            funct3 < 8,
            opcode < 128,
        ensures
            r.0 == rtype_word(funct7, funct3, opcode, register_index(rd), register_index(rs1),
                register_index(rs2)),
            word_quadrant(r.0) == opcode % 4,
            word_opcode(r.0) == opcode / 4,
            word_funct3(r.0) == funct3,
            word_funct7(r.0) == funct7,
            word_funct5(r.0) == funct7 / 4,
            r.spec_rd() == rd,
            r.spec_rs1() == rs1,
            r.spec_rs2() == rs2,
    {
        let rdn: u32 = u32::from(rd);
        let rs1n: u32 = u32::from(rs1);
        let rs2n: u32 = u32::from(rs2);
        let w: u32 = (funct7 << 25) | (rs2n << 20) | (rs1n << 15) | (funct3 << 12) | (rdn << 7)
            | opcode;
        proof {
            lemma_register_index_roundtrip(rd);
            lemma_register_index_roundtrip(rs1);
            lemma_register_index_roundtrip(rs2);
            assert(word_quadrant(w) == opcode % 4 && word_opcode(w) == opcode / 4
                && word_funct3(w) == funct3 && word_funct7(w) == funct7
                && word_funct5(w) == funct7 / 4 && word_rd(w) == rdn && word_rs1(w) == rs1n
                && word_rs2(w) == rs2n) by (bit_vector)
                requires
                    w == (funct7 << 25) | (rs2n << 20) | (rs1n << 15) | (funct3 << 12) | (
                    rdn << 7) | opcode,
                    funct7 < 128,
                    funct3 < 8,
                    opcode < 128,
                    rdn < 32,
                    rs1n < 32,
                    rs2n < 32,
            ;
        }
        RType(w)
    }

    /// The second source register.
    pub fn rs2(&self) -> (r: Register)
        ensures
            r == self.spec_rs2(),
    {
        Register::from((self.0 >> 20) & 0x1f)
    }

    /// The first source register.
    pub fn rs1(&self) -> (r: Register)
        ensures
            r == self.spec_rs1(),
    {
        Register::from((self.0 >> 15) & 0x1f)
    }

    /// The destination register.
    pub fn rd(&self) -> (r: Register)
        ensures
            r == self.spec_rd(),
    {
        Register::from((self.0 >> 7) & 0x1f)
    }
}

// ---------------------------------------------------------------------------
// I format
// ---------------------------------------------------------------------------

/// An I-format instruction word: one source, one destination, a signed
/// 12-bit immediate.
#[derive(Clone, Copy, Debug, Eq, Hash, PartialEq, Structural)]
pub struct IType(pub u32);

impl IType {
    /// The destination register held in the word.
    pub open spec fn spec_rd(self) -> Register {
        register_of_index(word_rd(self.0))
    }

    /// The source register held in the word.
    pub open spec fn spec_rs1(self) -> Register {
        register_of_index(word_rs1(self.0))
    }

    /// The sign-extended immediate held in the word.
    pub open spec fn spec_imm(self) -> i32 {
        spec_sign_extend(word_itype_imm(self.0), 12)
    }

    /// Assemble an I-format word from its fields.
    pub fn new(immediate: i32, funct3: u32, opcode: u32, rd: Register, rs1: Register) -> (r: IType)
        requires
            -2048 <= immediate < 2048,
            funct3 < 8,
            opcode < 128,
        ensures
            r.0 == itype_word(spec_sign_shrink(immediate, 12), funct3, opcode, register_index(rd),
                register_index(rs1)),
            word_quadrant(r.0) == opcode % 4,
            word_opcode(r.0) == opcode / 4,
            word_funct3(r.0) == funct3,
            word_rd(r.0) == register_index(rd),
            word_rs1(r.0) == register_index(rs1),
            r.spec_rd() == rd,
            r.spec_rs1() == rs1,
            r.spec_imm() == immediate,
            word_itype_imm(r.0) == spec_sign_shrink(immediate, 12),
            word_funct6(r.0) == spec_sign_shrink(immediate, 12) / 64,
            word_funct7(r.0) == spec_sign_shrink(immediate, 12) / 32,
            immediate >= 0 ==> word_itype_imm(r.0) == immediate && word_funct6(r.0) == immediate
                / 64 && word_funct7(r.0) == immediate / 32,
    {
        let rdn: u32 = u32::from(rd);
        let rs1n: u32 = u32::from(rs1);
        let imm12: u32 = sign_shrink(immediate, 12);
        let w: u32 = (imm12 << 20) | (rs1n << 15) | (funct3 << 12) | (rdn << 7) | opcode;
        proof {
            lemma_register_index_roundtrip(rd);
            lemma_register_index_roundtrip(rs1);
            assert(word_quadrant(w) == opcode % 4 && word_opcode(w) == opcode / 4
                && word_funct3(w) == funct3 && word_rd(w) == rdn && word_rs1(w) == rs1n
                && word_itype_imm(w) == imm12 && word_funct6(w) == imm12 / 64
                && word_funct7(w) == imm12 / 32
                && (immediate >= 0 ==> word_itype_imm(w) == immediate && word_funct6(w)
                == immediate / 64 && word_funct7(w) == immediate / 32)
                && spec_sign_extend(word_itype_imm(w), 12) == immediate) by (bit_vector)
                requires
                    w == (imm12 << 20) | (rs1n << 15) | (funct3 << 12) | (rdn << 7) | opcode,
                    imm12 == ((immediate as u32) >> 0) & (((1u32 << 12) - 1) as u32),
                    -2048 <= immediate < 2048,
                    funct3 < 8,
                    opcode < 128,
                    rdn < 32,
                    rs1n < 32,
            ;
        }
        IType(w)
    }

    /// The sign-extended immediate.
    pub fn imm(&self) -> (r: i32)
        ensures
            r == self.spec_imm(),
    {
        let w: u32 = self.0;
        proof {
            assert(w >> 20 <= 1u32 << 12) by (bit_vector);
        }
        sign_extend(w >> 20, 12)
    }

    /// The source register.
    pub fn rs1(&self) -> (r: Register)
        ensures
            r == self.spec_rs1(),
    {
        Register::from((self.0 >> 15) & 0x1f)
    }

    /// The destination register.
    pub fn rd(&self) -> (r: Register)
        ensures
            r == self.spec_rd(),
    {
        Register::from((self.0 >> 7) & 0x1f)
    }
}

// ---------------------------------------------------------------------------
// S format
// ---------------------------------------------------------------------------

/// An S-format instruction word: two sources and a signed 12-bit immediate
/// scattered over two fields.
#[derive(Clone, Copy, Debug, Eq, Hash, PartialEq, Structural)]
pub struct SType(pub u32);

impl SType {
    /// The first source register held in the word.
    pub open spec fn spec_rs1(self) -> Register {
        register_of_index(word_rs1(self.0))
    }

    /// The second source register held in the word.
    pub open spec fn spec_rs2(self) -> Register {
        register_of_index(word_rs2(self.0))
    }

    /// The sign-extended immediate reassembled from its two fields.
    pub open spec fn spec_imm(self) -> i32 {
        spec_sign_extend(((self.0 >> 20) & 0xfe0) | ((self.0 >> 7) & 0x1f), 12)
    }

    /// Assemble an S-format word from its fields.
    pub fn new(immediate: i32, funct3: u32, opcode: u32, rs1: Register, rs2: Register) -> (r: SType)
        requires
            -2048 <= immediate < 2048,
            funct3 < 8,
            opcode < 128,
        ensures
            r.0 == stype_word(spec_sign_shrink(immediate, 12), funct3, opcode, register_index(rs1),
                register_index(rs2)),
            word_quadrant(r.0) == opcode % 4,
            word_opcode(r.0) == opcode / 4,
            word_funct3(r.0) == funct3,
            r.spec_rs1() == rs1,
            r.spec_rs2() == rs2,
            r.spec_imm() == immediate,
    {
        let rs1n: u32 = u32::from(rs1);
        let rs2n: u32 = u32::from(rs2);
        let imm12: u32 = sign_shrink(immediate, 12);
        let imm1: u32 = imm12 >> 5;
        let imm2: u32 = imm12 & 0x1f;
        let w: u32 = (imm1 << 25) | (rs2n << 20) | (rs1n << 15) | (funct3 << 12) | (imm2 << 7)
            | opcode;
        proof {
            lemma_register_index_roundtrip(rs1);
            lemma_register_index_roundtrip(rs2);
            assert(word_quadrant(w) == opcode % 4 && word_opcode(w) == opcode / 4
                && word_funct3(w) == funct3 && word_rs1(w) == rs1n && word_rs2(w) == rs2n
                && w == stype_word(imm12, funct3, opcode, rs1n, rs2n)
                && spec_sign_extend(((w >> 20) & 0xfe0) | ((w >> 7) & 0x1f), 12) == immediate)
                by (bit_vector)
                requires
                    w == ((imm12 >> 5) << 25) | (rs2n << 20) | (rs1n << 15) | (funct3 << 12) | ((
                    imm12 & 0x1f) << 7) | opcode,
                    imm12 == ((immediate as u32) >> 0) & (((1u32 << 12) - 1) as u32),
                    -2048 <= immediate < 2048,
                    funct3 < 8,
                    opcode < 128,
                    rs1n < 32,
                    rs2n < 32,
            ;
        }
        SType(w)
    }

    /// The sign-extended immediate.
    pub fn imm(&self) -> (r: i32)
        ensures
            r == self.spec_imm(),
    {
        let w: u32 = self.0;
        proof {
            assert(((w >> 20) & 0xfe0) | ((w >> 7) & 0x1f) <= 1u32 << 12) by (bit_vector);
        }
        sign_extend(((w >> 20) & 0xfe0) | ((w >> 7) & 0x1f), 12)
    }

    /// The first source register.
    pub fn rs1(&self) -> (r: Register)
        ensures
            r == self.spec_rs1(),
    {
        Register::from((self.0 >> 15) & 0x1f)
    }

    /// The second source register.
    pub fn rs2(&self) -> (r: Register)
        ensures
            r == self.spec_rs2(),
    {
        Register::from((self.0 >> 20) & 0x1f)
    }
}

// ---------------------------------------------------------------------------
// B format
// ---------------------------------------------------------------------------

/// A B-format instruction word: two sources and a signed 13-bit branch
/// offset whose bit 0 is implicitly zero.
#[derive(Clone, Copy, Debug, Eq, Hash, PartialEq, Structural)]
pub struct BType(pub u32);

impl BType {
    /// The first source register held in the word.
    pub open spec fn spec_rs1(self) -> Register {
        register_of_index(word_rs1(self.0))
    }

    /// The second source register held in the word.
    pub open spec fn spec_rs2(self) -> Register {
        register_of_index(word_rs2(self.0))
    }

    /// The sign-extended branch offset reassembled from its four fields.
    pub open spec fn spec_imm(self) -> i32 {
        spec_sign_extend(
            ((self.0 & 0x8000_0000) >> 19) | ((self.0 & 0x7e00_0000) >> 20) | ((self.0
                & 0x0000_0f00) >> 7) | ((self.0 & 0x0000_0080) << 4),
            13,
        )
    }

    /// Assemble a B-format word from its fields; bit 0 of the offset is dropped.
    pub fn new(immediate: i32, funct3: u32, opcode: u32, rs1: Register, rs2: Register) -> (r: BType)
        requires
            -4096 <= immediate < 4096,
            funct3 < 8,
            opcode < 128,
        ensures
            r.0 == btype_word(spec_sign_shrink(immediate, 13), funct3, opcode, register_index(rs1),
                register_index(rs2)),
            word_quadrant(r.0) == opcode % 4,
            word_opcode(r.0) == opcode / 4,
            word_funct3(r.0) == funct3,
            r.spec_rs1() == rs1,
            r.spec_rs2() == rs2,
            r.spec_imm() == immediate - (immediate % 2),
    {
        let rs1n: u32 = u32::from(rs1);
        let rs2n: u32 = u32::from(rs2);
        let imm13: u32 = sign_shrink(immediate, 13);
        let imm1: u32 = (imm13 >> 12) & 1;
        let imm2: u32 = (imm13 >> 5) & 0x3f;
        let imm3: u32 = (imm13 >> 1) & 0xf;
        let imm4: u32 = (imm13 >> 11) & 1;
        let w: u32 = (imm1 << 31) | (imm2 << 25) | (rs2n << 20) | (rs1n << 15) | (funct3 << 12) | (
        imm3 << 8) | (imm4 << 7) | opcode;
        proof {
            lemma_register_index_roundtrip(rs1);
            lemma_register_index_roundtrip(rs2);
            assert(word_quadrant(w) == opcode % 4 && word_opcode(w) == opcode / 4
                && word_funct3(w) == funct3 && word_rs1(w) == rs1n && word_rs2(w) == rs2n
                && w == btype_word(imm13, funct3, opcode, rs1n, rs2n)
                && spec_sign_extend(
                ((w & 0x8000_0000) >> 19) | ((w & 0x7e00_0000) >> 20) | ((w & 0x0000_0f00) >> 7) | (
                (w & 0x0000_0080) << 4),
                13,
            ) == immediate - (immediate % 2)) by (bit_vector)
                requires
                    w == ((((imm13 >> 12) & 1) << 31) | (((imm13 >> 5) & 0x3f) << 25) | (rs2n << 20)
                        | (rs1n << 15) | (funct3 << 12) | (((imm13 >> 1) & 0xf) << 8) | (((imm13
                        >> 11) & 1) << 7) | opcode),
                    imm13 == ((immediate as u32) >> 0) & (((1u32 << 13) - 1) as u32),
                    -4096 <= immediate < 4096,
                    funct3 < 8,
                    opcode < 128,
                    rs1n < 32,
                    rs2n < 32,
            ;
        }
        BType(w)
    }

    /// The sign-extended branch offset.
    pub fn imm(&self) -> (r: i32)
        ensures
            r == self.spec_imm(),
    {
        let w: u32 = self.0;
        proof {
            assert(((w & 0x8000_0000) >> 19) | ((w & 0x7e00_0000) >> 20) | ((w & 0x0000_0f00) >> 7)
                | ((w & 0x0000_0080) << 4) <= 1u32 << 13) by (bit_vector);
        }
        sign_extend(
            ((w & 0x8000_0000) >> 19) | ((w & 0x7e00_0000) >> 20) | ((w & 0x0000_0f00) >> 7) | ((w
                & 0x0000_0080) << 4),
            13,
        )
    }

    /// The first source register.
    pub fn rs1(&self) -> (r: Register)
        ensures
            r == self.spec_rs1(),
    {
        Register::from((self.0 >> 15) & 0x1f)
    }

    /// The second source register.
    pub fn rs2(&self) -> (r: Register)
        ensures
            r == self.spec_rs2(),
    {
        Register::from((self.0 >> 20) & 0x1f)
    }
}

// ---------------------------------------------------------------------------
// U format
// ---------------------------------------------------------------------------

/// A U-format instruction word: a destination and a 20-bit upper immediate.
#[derive(Clone, Copy, Debug, Eq, Hash, PartialEq, Structural)]
pub struct UType(pub u32);

impl UType {
    /// The destination register held in the word.
    pub open spec fn spec_rd(self) -> Register {
        register_of_index(word_rd(self.0))
    }

    /// The 20-bit immediate field, not shifted and not sign-extended.
    pub open spec fn spec_imm(self) -> u32 {
        (self.0 & 0xfffff000) >> 12
    }

    /// Assemble a U-format word from its fields.
    pub fn new(immediate: i32, opcode: u32, rd: Register) -> (r: UType)
        requires
            0 < immediate < 0x200000,
            opcode < 128,
        ensures
            r.0 == utype_word(spec_sign_shrink(immediate, 20), opcode, register_index(rd)),
            word_quadrant(r.0) == opcode % 4,
            word_opcode(r.0) == opcode / 4,
            r.spec_rd() == rd,
            r.spec_imm() == spec_sign_shrink(immediate, 20),
            r.spec_imm() == immediate % 0x100000,
    {
        let rdn: u32 = u32::from(rd);
        let imm20: u32 = sign_shrink(immediate, 20);
        let w: u32 = (imm20 << 12) | (rdn << 7) | opcode;
        proof {
            lemma_register_index_roundtrip(rd);
            assert(word_quadrant(w) == opcode % 4 && word_opcode(w) == opcode / 4 && word_rd(w)
                == rdn && (w & 0xfffff000) >> 12 == imm20 && imm20 == immediate % 0x100000)
                by (bit_vector)
                requires
                    w == (imm20 << 12) | (rdn << 7) | opcode,
                    imm20 == ((immediate as u32) >> 0) & (((1u32 << 20) - 1) as u32),
                    0 < immediate < 0x200000,
                    opcode < 128,
                    rdn < 32,
            ;
        }
        UType(w)
    }

    /// The 20-bit immediate field.
    pub fn imm(&self) -> (r: u32)
        ensures
            r == self.spec_imm(),
    {
        (self.0 & 0xfffff000) >> 12
    }

    /// The destination register.
    pub fn rd(&self) -> (r: Register)
        ensures
            r == self.spec_rd(),
    {
        Register::from((self.0 >> 7) & 0x1f)
    }
}

// ---------------------------------------------------------------------------
// J format
// ---------------------------------------------------------------------------

/// A J-format instruction word: a destination and a signed 21-bit jump
/// offset whose bit 0 is implicitly zero.
#[derive(Clone, Copy, Debug, Eq, Hash, PartialEq, Structural)]
pub struct JType(pub u32);

impl JType {
    /// The destination register held in the word.
    pub open spec fn spec_rd(self) -> Register {
        register_of_index(word_rd(self.0))
    }

    /// The sign-extended jump offset reassembled from its four fields.
    pub open spec fn spec_imm(self) -> i32 {
        spec_sign_extend(
            ((self.0 & 0x8000_0000) >> 11) | ((self.0 & 0x7fe0_0000) >> 20) | ((self.0
                & 0x0010_0000) >> 9) | (self.0 & 0x000f_f000),
            21,
        )
    }

    /// Assemble a J-format word from its fields; bit 0 of the offset is dropped.
    pub fn new(immediate: i32, opcode: u32, rd: Register) -> (r: JType)
        requires
            -0x100000 <= immediate < 0x100000,
            opcode < 128,
        ensures
            r.0 == jtype_word(spec_sign_shrink(immediate, 21), opcode, register_index(rd)),
            word_quadrant(r.0) == opcode % 4,
            word_opcode(r.0) == opcode / 4,
            r.spec_rd() == rd,
            r.spec_imm() == immediate - (immediate % 2),
    {
        let rdn: u32 = u32::from(rd);
        let imm21: u32 = sign_shrink(immediate, 21);
        let imm1: u32 = (imm21 >> 20) & 1;
        let imm2: u32 = (imm21 >> 1) & 0x3ff;
        let imm3: u32 = (imm21 >> 11) & 1;
        let imm4: u32 = (imm21 >> 12) & 0xff;
        let w: u32 = (imm1 << 31) | (imm2 << 21) | (imm3 << 20) | (imm4 << 12) | (rdn << 7)
            | opcode;
        proof {
            lemma_register_index_roundtrip(rd);
            assert(word_quadrant(w) == opcode % 4 && word_opcode(w) == opcode / 4 && word_rd(w)
                == rdn && w == jtype_word(imm21, opcode, rdn)
                && spec_sign_extend(
                ((w & 0x8000_0000) >> 11) | ((w & 0x7fe0_0000) >> 20) | ((w & 0x0010_0000) >> 9) | (
                w & 0x000f_f000),
                21,
            ) == immediate - (immediate % 2)) by (bit_vector)
                requires
                    w == ((((imm21 >> 20) & 1) << 31) | (((imm21 >> 1) & 0x3ff) << 21) | (((imm21
                        >> 11) & 1) << 20) | (((imm21 >> 12) & 0xff) << 12) | (rdn << 7) | opcode),
                    imm21 == ((immediate as u32) >> 0) & (((1u32 << 21) - 1) as u32),
                    -0x100000 <= immediate < 0x100000,
                    opcode < 128,
                    rdn < 32,
            ;
        }
        JType(w)
    }

    /// The sign-extended jump offset.
    pub fn imm(&self) -> (r: i32)
        ensures
            r == self.spec_imm(),
    {
        let w: u32 = self.0;
        proof {
            assert(((w & 0x8000_0000) >> 11) | ((w & 0x7fe0_0000) >> 20) | ((w & 0x0010_0000) >> 9)
                | (w & 0x000f_f000) <= 1u32 << 21) by (bit_vector);
        }
        sign_extend(
            ((w & 0x8000_0000) >> 11) | ((w & 0x7fe0_0000) >> 20) | ((w & 0x0010_0000) >> 9) | (w
                & 0x000f_f000),
            21,
        )
    }

    /// The destination register.
    pub fn rd(&self) -> (r: Register)
        ensures
            r == self.spec_rd(),
    {
        Register::from((self.0 >> 7) & 0x1f)
    }
}

} // verus!
