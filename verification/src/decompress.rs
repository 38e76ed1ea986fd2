use vstd::prelude::*;

use crate::decode::{lemma_decode_well_formed, spec_decode32, DecodingError};
use crate::instruction::{instruction_wf, instruction_word};
use crate::types::{itype_word, jtype_word, rtype_word, stype_word, utype_word, btype_word};

verus! {

broadcast use crate::bits::lemma_and_bound_u32;

// ---------------------------------------------------------------------------
// The 32-bit shapes that compressed instructions expand to
// ---------------------------------------------------------------------------

/// Register-register targets of the MISC-ALU and MV/ADD expansions.
#[derive(Clone, Copy, Debug, Eq, PartialEq, Structural)]
pub enum CrInstr {
    Sub,
    Add,
    Or,
    And,
}

/// Register-immediate targets of the CI-shaped expansions.
#[derive(Clone, Copy, Debug, Eq, PartialEq, Structural)]
pub enum CiInstr {
    Addi,
    Addiw,
    Lw,
    Ld,
    Jalr,
    Slli,
    Srai,
}

/// Branch targets of the CB-shaped expansions.
#[derive(Clone, Copy, Debug, Eq, PartialEq, Structural)]
pub enum CbInstr {
    Beq,
    Bne,
}

/// Store targets of the CS- and CSS-shaped expansions.
#[derive(Clone, Copy, Debug, Eq, PartialEq, Structural)]
pub enum CsInstr {
    Sw,
    Sd,
}

/// Upper-immediate target of the CU-shaped expansion.
#[derive(Clone, Copy, Debug, Eq, PartialEq, Structural)]
pub enum CuInstr {
    Lui,
}

// ---------------------------------------------------------------------------
// Raw immediate fields of the compressed formats
// ---------------------------------------------------------------------------

/// The seven immediate shapes of the compressed formats.
#[derive(Clone, Copy, Debug, Eq, PartialEq, Structural)]
pub enum InstrFormat {
    Ci,
    Css,
    Ciw,
    Cl,
    Cs,
    Cb,
    Cj,
}

/// The contiguous immediate bits of a compressed word, still in encoding
/// order: the format's bit scramble has not been undone yet.
pub open spec fn spec_get_imm(i: u16, fmt: InstrFormat) -> u16 {
    match fmt {
        InstrFormat::Ci => ((i >> 7) & 0x20) | ((i >> 2) & 0x1f),
        InstrFormat::Css => (i >> 7) & 0x3f,
        InstrFormat::Ciw => (i >> 5) & 0xff,
        InstrFormat::Cl => ((i >> 8) & 0x1c) | ((i >> 5) & 3),
        InstrFormat::Cs => ((i >> 8) & 0x1c) | ((i >> 5) & 3),
        InstrFormat::Cb => ((i >> 5) & 0xe0) | ((i >> 2) & 0x1f),
        InstrFormat::Cj => (i >> 2) & 0x7ff,
    }
}

/// Extract the immediate bits of `i` under the given format, in encoding order.
pub fn get_imm(i: u16, fmt: InstrFormat) -> (r: u16)
    ensures
        r == spec_get_imm(i, fmt),
{
    match fmt {
        InstrFormat::Ci => ((i >> 7) & 0x20) | ((i >> 2) & 0x1f),
        InstrFormat::Css => (i >> 7) & 0x3f,
        InstrFormat::Ciw => (i >> 5) & 0xff,
        InstrFormat::Cl => ((i >> 8) & 0x1c) | ((i >> 5) & 3),
        InstrFormat::Cs => ((i >> 8) & 0x1c) | ((i >> 5) & 3),
        InstrFormat::Cb => ((i >> 5) & 0xe0) | ((i >> 2) & 0x1f),
        InstrFormat::Cj => (i >> 2) & 0x7ff,
    }
}

// ---------------------------------------------------------------------------
// Logical immediates, unscrambled from their compressed placements
// ---------------------------------------------------------------------------

/// The ADDI4SPN stack offset: a zero-extended multiple of four.
pub open spec fn ciw_addi4spn_imm(i: u16) -> u32 {
    let x = i as u32;
    (((x >> 11) & 3) << 4) | (((x >> 7) & 0xf) << 6) | (((x >> 6) & 1) << 2) | (((x >> 5) & 1)
        << 3)
}

/// The load/store offset of C.LW, C.SW: a multiple of four.
pub open spec fn cl_lw_imm(i: u16) -> u32 {
    let x = i as u32;
    (((x >> 10) & 7) << 3) | (((x >> 6) & 1) << 2) | (((x >> 5) & 1) << 6)
}

/// The load/store offset of C.LD, C.SD: a multiple of eight.
pub open spec fn cl_ld_imm(i: u16) -> u32 {
    let x = i as u32;
    (((x >> 10) & 7) << 3) | (((x >> 5) & 3) << 6)
}

/// The raw 6-bit CI immediate.
pub open spec fn ci_imm(i: u16) -> u32 {
    let x = i as u32;
    (((x >> 12) & 1) << 5) | ((x >> 2) & 0x1f)
}

/// The CI immediate sign-extended to the 12 bits of an I-format field.
pub open spec fn ci_simm(i: u16) -> u32 {
    if (i as u32 >> 12) & 1 == 1 {
        ci_imm(i) | 0xfe0
    } else {
        ci_imm(i)
    }
}

/// The raw 10-bit ADDI16SP stack adjustment: a multiple of sixteen.
pub open spec fn addi16sp_imm(i: u16) -> u32 {
    let x = i as u32;
    (((x >> 12) & 1) << 9) | (((x >> 3) & 3) << 7) | (((x >> 5) & 1) << 6) | (((x >> 2) & 1) << 5)
        | (((x >> 6) & 1) << 4)
}

/// The ADDI16SP adjustment sign-extended to the 12 bits of an I-format field.
pub open spec fn addi16sp_simm(i: u16) -> u32 {
    if (i as u32 >> 12) & 1 == 1 {
        addi16sp_imm(i) | 0xc00
    } else {
        addi16sp_imm(i)
    }
}

/// The C.LUI immediate sign-extended to the 20 bits of a U-format field.
pub open spec fn lui_imm20(i: u16) -> u32 {
    if (i as u32 >> 12) & 1 == 1 {
        ci_imm(i) | 0xfffc0
    } else {
        ci_imm(i)
    }
}

/// The raw 9-bit CB branch offset: a multiple of two.
pub open spec fn cb_offset(i: u16) -> u32 {
    let x = i as u32;
    (((x >> 3) & 3) << 1) | (((x >> 10) & 3) << 3) | (((x >> 2) & 1) << 5) | (((x >> 5) & 3) << 6)
        | (((x >> 12) & 1) << 8)
}

/// The CB branch offset sign-extended to the 13 bits of a B-format pattern.
pub open spec fn cb_soffset(i: u16) -> u32 {
    if (i as u32 >> 12) & 1 == 1 {
        cb_offset(i) | 0x1e00
    } else {
        cb_offset(i)
    }
}

/// The raw 12-bit CJ jump offset: a multiple of two.
pub open spec fn cj_offset(i: u16) -> u32 {
    let x = i as u32;
    (((x >> 12) & 1) << 11) | (((x >> 11) & 1) << 4) | (((x >> 9) & 3) << 8) | (((x >> 8) & 1)
        << 10) | (((x >> 7) & 1) << 6) | (((x >> 6) & 1) << 7) | (((x >> 3) & 7) << 1) | (((x >> 2)
        & 1) << 5)
}

/// The CJ jump offset sign-extended to the 21 bits of a J-format pattern.
pub open spec fn cj_soffset(i: u16) -> u32 {
    if (i as u32 >> 12) & 1 == 1 {
        cj_offset(i) | 0x1ff000
    } else {
        cj_offset(i)
    }
}

/// The C.LWSP offset: a multiple of four.
pub open spec fn lwsp_imm(i: u16) -> u32 {
    let x = i as u32;
    (((x >> 12) & 1) << 5) | (((x >> 4) & 7) << 2) | (((x >> 2) & 3) << 6)
}

/// The C.LDSP offset: a multiple of eight.
pub open spec fn ldsp_imm(i: u16) -> u32 {
    let x = i as u32;
    (((x >> 12) & 1) << 5) | (((x >> 5) & 3) << 3) | (((x >> 2) & 7) << 6)
}

/// The C.SDSP offset: a multiple of eight.
pub open spec fn sdsp_imm(i: u16) -> u32 {
    let x = i as u32;
    (((x >> 10) & 7) << 3) | (((x >> 7) & 7) << 6)
}

/// The three-bit register field at bits 4:2, denoting x8 through x15.
pub open spec fn reg_prime_low(i: u16) -> u32 {
    (8 + ((i as u32 >> 2) & 7)) as u32
}

/// The three-bit register field at bits 9:7, denoting x8 through x15.
pub open spec fn reg_prime_high(i: u16) -> u32 {
    (8 + ((i as u32 >> 7) & 7)) as u32
}

/// The full five-bit register field at bits 11:7.
pub open spec fn reg_full(i: u16) -> u32 {
    (i as u32 >> 7) & 0x1f
}

/// The full five-bit register field at bits 6:2.
pub open spec fn reg_rs2_full(i: u16) -> u32 {
    (i as u32 >> 2) & 0x1f
}

// ---------------------------------------------------------------------------
// Builders for the expanded 32-bit words
// ---------------------------------------------------------------------------

/// Assemble the R-format expansion of a compressed ALU instruction.
pub fn build_rtype(instruction_type: CrInstr, rd: u32, rs1: u32, rs2: u32) -> (r: u32)
    requires
        rd < 32,
        rs1 < 32,
        rs2 < 32,
    ensures
        instruction_type == CrInstr::Sub ==> r == rtype_word(32, 0, 51, rd, rs1, rs2),
        instruction_type == CrInstr::Add ==> r == rtype_word(0, 0, 51, rd, rs1, rs2),
        instruction_type == CrInstr::Or ==> r == rtype_word(0, 6, 51, rd, rs1, rs2),
        instruction_type == CrInstr::And ==> r == rtype_word(0, 7, 51, rd, rs1, rs2),
{
    let fields: (u32, u32) = match instruction_type {
        CrInstr::Sub => (32, 0),
        CrInstr::Add => (0, 0),
        CrInstr::Or => (0, 6),
        CrInstr::And => (0, 7),
    };
    (fields.0 << 25) | (rs2 << 20) | (rs1 << 15) | (fields.1 << 12) | (rd << 7) | 51
}

/// Assemble the I-format expansion of a compressed instruction; for the
/// arithmetic shift the immediate also carries the srai funct mark.
pub fn build_itype(instruction_type: CiInstr, rd: u32, rs1: u32, imm: u32) -> (r: u32)
    requires
        rd < 32,
        rs1 < 32,
    ensures
        instruction_type == CiInstr::Addi ==> r == itype_word(imm, 0, 19, rd, rs1),
        instruction_type == CiInstr::Addiw ==> r == itype_word(imm, 0, 27, rd, rs1),
        instruction_type == CiInstr::Lw ==> r == itype_word(imm, 2, 3, rd, rs1),
        instruction_type == CiInstr::Ld ==> r == itype_word(imm, 3, 3, rd, rs1),
        instruction_type == CiInstr::Jalr ==> r == itype_word(imm, 0, 103, rd, rs1),
        instruction_type == CiInstr::Slli ==> r == itype_word(imm, 1, 19, rd, rs1),
        instruction_type == CiInstr::Srai ==> r == itype_word(0x400 | imm, 5, 19, rd, rs1),
{
    let fields: (u32, u32, u32) = match instruction_type {
        CiInstr::Addi => (imm, 0, 19),
        CiInstr::Addiw => (imm, 0, 27),
        CiInstr::Lw => (imm, 2, 3),
        CiInstr::Ld => (imm, 3, 3),
        CiInstr::Jalr => (imm, 0, 103),
        CiInstr::Slli => (imm, 1, 19),
        CiInstr::Srai => (0x400 | imm, 5, 19),
    };
    (fields.0 << 20) | (rs1 << 15) | (fields.1 << 12) | (rd << 7) | fields.2
}

/// Assemble the B-format expansion of a compressed branch, which always
/// compares against the zero register.
pub fn build_btype(instruction_type: CbInstr, rs1: u32, imm: u32) -> (r: u32)
    requires
        rs1 < 32,
    ensures
        instruction_type == CbInstr::Beq ==> r == btype_word(imm, 0, 99, rs1, 0),
        instruction_type == CbInstr::Bne ==> r == btype_word(imm, 1, 99, rs1, 0),
{
    let f3: u32 = match instruction_type {
        CbInstr::Beq => 0,
        CbInstr::Bne => 1,
    };
    (((imm >> 12) & 1) << 31) | (((imm >> 5) & 0x3f) << 25) | (0u32 << 20) | (rs1 << 15) | (
    f3 << 12) | (((imm >> 1) & 0xf) << 8) | (((imm >> 11) & 1) << 7) | 99
}

/// Assemble the S-format expansion of a compressed store.
pub fn build_stype(instruction_type: CsInstr, rs1: u32, rs2: u32, imm: u32) -> (r: u32)
    requires
        rs1 < 32,
        rs2 < 32,
    ensures
        instruction_type == CsInstr::Sw ==> r == stype_word(imm, 2, 35, rs1, rs2),
        instruction_type == CsInstr::Sd ==> r == stype_word(imm, 3, 35, rs1, rs2),
{
    let f3: u32 = match instruction_type {
        CsInstr::Sw => 2,
        CsInstr::Sd => 3,
    };
    ((imm >> 5) << 25) | (rs2 << 20) | (rs1 << 15) | (f3 << 12) | ((imm & 0x1f) << 7) | 35
}

/// Assemble the U-format expansion of C.LUI from the 20-bit immediate field.
pub fn build_utype(instruction_type: CuInstr, rd: u32, imm: u32) -> (r: u32)
    requires
        rd < 32,
    ensures
        instruction_type == CuInstr::Lui ==> r == utype_word(imm, 55, rd),
{
    match instruction_type {
        CuInstr::Lui => (imm << 12) | (rd << 7) | 55,
    }
}

/// Assemble the J-format expansion of C.J, which never links.
pub fn build_jtype(imm: u32) -> (r: u32)
    ensures
        r == jtype_word(imm, 111, 0),
{
    (((imm >> 20) & 1) << 31) | (((imm >> 1) & 0x3ff) << 21) | (((imm >> 11) & 1) << 20) | (((imm
        >> 12) & 0xff) << 12) | (0u32 << 7) | 111
}

// ---------------------------------------------------------------------------
// Quadrant 0
// ---------------------------------------------------------------------------

/// What decompressing C.ADDI4SPN yields: `addi rd', sp, nzuimm`, with the
/// zero immediate reserved.
pub open spec fn spec_decompress_addi4spn(i: u16) -> Result<u32, DecodingError> {
    if ciw_addi4spn_imm(i) == 0 {
        Err(DecodingError::Reserved)
    } else {
        Ok(itype_word(ciw_addi4spn_imm(i), 0, 19, reg_prime_low(i), 2))
    }
}

/// Expand C.ADDI4SPN to `addi rd', sp, nzuimm`.
pub fn decompress_addi4spn(i: u16) -> (r: Result<u32, DecodingError>)
    ensures
        r == spec_decompress_addi4spn(i),
{
    let x: u32 = i as u32;
    let imm: u32 = (((x >> 11) & 3) << 4) | (((x >> 7) & 0xf) << 6) | (((x >> 6) & 1) << 2) | (((x
        >> 5) & 1) << 3);
    let rd: u32 = 8 + ((x >> 2) & 7);
    if imm == 0 {
        Err(DecodingError::Reserved)
    } else {
        Ok(build_itype(CiInstr::Addi, rd, 2, imm))
    }
}

/// What decompressing C.LW or C.LD yields: a load of rd' from rs1'.
pub open spec fn spec_decompress_load(i: u16, instruction_type: CiInstr) -> Result<
    u32,
    DecodingError,
> {
    match instruction_type {
        CiInstr::Lw => Ok(itype_word(cl_lw_imm(i), 2, 3, reg_prime_low(i), reg_prime_high(i))),
        CiInstr::Ld => Ok(itype_word(cl_ld_imm(i), 3, 3, reg_prime_low(i), reg_prime_high(i))),
        _ => Err(DecodingError::Unknown),
    }
}

/// Expand C.LW or C.LD to the corresponding load.
pub fn decompress_load(i: u16, instruction_type: CiInstr) -> (r: Result<u32, DecodingError>)
    ensures
        r == spec_decompress_load(i, instruction_type),
{
    let x: u32 = i as u32;
    let rd: u32 = 8 + ((x >> 2) & 7);
    let rs1: u32 = 8 + ((x >> 7) & 7);
    match instruction_type {
        CiInstr::Lw => {
            let imm: u32 = (((x >> 10) & 7) << 3) | (((x >> 6) & 1) << 2) | (((x >> 5) & 1) << 6);
            Ok(build_itype(CiInstr::Lw, rd, rs1, imm))
        },
        CiInstr::Ld => {
            let imm: u32 = (((x >> 10) & 7) << 3) | (((x >> 5) & 3) << 6);
            Ok(build_itype(CiInstr::Ld, rd, rs1, imm))
        },
        _ => Err(DecodingError::Unknown),
    }
}

/// What decompressing C.SW or C.SD yields: a store of rs2' through rs1'.
pub open spec fn spec_decompress_store(i: u16, instruction_type: CsInstr) -> Result<
    u32,
    DecodingError,
> {
    match instruction_type {
        CsInstr::Sw => Ok(stype_word(cl_lw_imm(i), 2, 35, reg_prime_high(i), reg_prime_low(i))),
        CsInstr::Sd => Ok(stype_word(cl_ld_imm(i), 3, 35, reg_prime_high(i), reg_prime_low(i))),
    }
}

/// Expand C.SW or C.SD to the corresponding store.
pub fn decompress_store(i: u16, instruction_type: CsInstr) -> (r: Result<u32, DecodingError>)
    ensures
        r == spec_decompress_store(i, instruction_type),
{
    let x: u32 = i as u32;
    let rs2: u32 = 8 + ((x >> 2) & 7);
    let rs1: u32 = 8 + ((x >> 7) & 7);
    match instruction_type {
        CsInstr::Sw => {
            let imm: u32 = (((x >> 10) & 7) << 3) | (((x >> 6) & 1) << 2) | (((x >> 5) & 1) << 6);
            Ok(build_stype(CsInstr::Sw, rs1, rs2, imm))
        },
        CsInstr::Sd => {
            let imm: u32 = (((x >> 10) & 7) << 3) | (((x >> 5) & 3) << 6);
            Ok(build_stype(CsInstr::Sd, rs1, rs2, imm))
        },
    }
}

/// What decompressing a quadrant-zero word yields. The all-zero halfword is
/// the canonical illegal instruction; the floating-point forms are outside
/// the supported subset.
pub open spec fn spec_decompress_q0(i: u16) -> Result<u32, DecodingError> {
    if i == 0 {
        Err(DecodingError::Illegal)
    } else {
        let f3 = (i as u32 >> 13) & 7;
        if f3 == 0 {
            spec_decompress_addi4spn(i)
        } else if f3 == 1 {
            Err(DecodingError::Unimplemented)
        } else if f3 == 2 {
            spec_decompress_load(i, CiInstr::Lw)
        } else if f3 == 3 {
            spec_decompress_load(i, CiInstr::Ld)
        } else if f3 == 4 {
            Err(DecodingError::Reserved)
        } else if f3 == 5 {
            Err(DecodingError::Unimplemented)
        } else if f3 == 6 {
            spec_decompress_store(i, CsInstr::Sw)
        } else {
            spec_decompress_store(i, CsInstr::Sd)
        }
    }
}

/// Decompress a compressed instruction from quadrant zero to the
/// corresponding 32-bit instruction word.
pub fn decompress_q0(i: u16) -> (r: Result<u32, DecodingError>)
    ensures
        r == spec_decompress_q0(i),
{
    if i == 0 {
        return Err(DecodingError::Illegal);
    }
    let f3: u32 = (i as u32 >> 13) & 7;
    if f3 == 0 {
        decompress_addi4spn(i)
    } else if f3 == 1 {
        Err(DecodingError::Unimplemented)
    } else if f3 == 2 {
        decompress_load(i, CiInstr::Lw)
    } else if f3 == 3 {
        decompress_load(i, CiInstr::Ld)
    } else if f3 == 4 {
        Err(DecodingError::Reserved)
    } else if f3 == 5 {
        Err(DecodingError::Unimplemented)
    } else if f3 == 6 {
        decompress_store(i, CsInstr::Sw)
    } else {
        decompress_store(i, CsInstr::Sd)
    }
}

// ---------------------------------------------------------------------------
// Quadrant 1
// ---------------------------------------------------------------------------

/// What decompressing C.ADDI or C.ADDIW yields: `addi(w) rd, rd, imm`. A
/// zero destination is reserved, as is C.ADDI with a zero immediate.
pub open spec fn spec_decompress_addi(i: u16, instruction_type: CiInstr) -> Result<
    u32,
    DecodingError,
> {
    let rd = reg_full(i);
    if rd == 0 {
        Err(DecodingError::Reserved)
    } else {
        match instruction_type {
            CiInstr::Addi => if ci_imm(i) == 0 {
                Err(DecodingError::Reserved)
            } else {
                Ok(itype_word(ci_simm(i), 0, 19, rd, rd))
            },
            CiInstr::Addiw => Ok(itype_word(ci_simm(i), 0, 27, rd, rd)),
            _ => Err(DecodingError::Unknown),
        }
    }
}

/// Expand C.ADDI or C.ADDIW to the corresponding add-immediate.
pub fn decompress_addi(i: u16, instruction_type: CiInstr) -> (r: Result<u32, DecodingError>)
    ensures
        r == spec_decompress_addi(i, instruction_type),
{
    let x: u32 = i as u32;
    let rd: u32 = (x >> 7) & 0x1f;
    if rd == 0 {
        return Err(DecodingError::Reserved);
    }
    let raw: u32 = (((x >> 12) & 1) << 5) | ((x >> 2) & 0x1f);
    let imm: u32 = if (x >> 12) & 1 == 1 {
        raw | 0xfe0
    } else {
        raw
    };
    match instruction_type {
        CiInstr::Addi => if raw == 0 {
            Err(DecodingError::Reserved)
        } else {
            Ok(build_itype(CiInstr::Addi, rd, rd, imm))
        },
        CiInstr::Addiw => Ok(build_itype(CiInstr::Addiw, rd, rd, imm)),
        _ => Err(DecodingError::Unknown),
    }
}

/// What decompressing C.LI yields: `addi rd, zero, imm`, with a zero
/// destination reserved.
pub open spec fn spec_decompress_li(i: u16) -> Result<u32, DecodingError> {
    let rd = reg_full(i);
    if rd == 0 {
        Err(DecodingError::Reserved)
    } else {
        Ok(itype_word(ci_simm(i), 0, 19, rd, 0))
    }
}

/// Expand C.LI to `addi rd, zero, imm`.
pub fn decompress_li(i: u16) -> (r: Result<u32, DecodingError>)
    ensures
        r == spec_decompress_li(i),
{
    let x: u32 = i as u32;
    let rd: u32 = (x >> 7) & 0x1f;
    if rd == 0 {
        return Err(DecodingError::Reserved);
    }
    let raw: u32 = (((x >> 12) & 1) << 5) | ((x >> 2) & 0x1f);
    let imm: u32 = if (x >> 12) & 1 == 1 {
        raw | 0xfe0
    } else {
        raw
    };
    Ok(build_itype(CiInstr::Addi, rd, 0, imm))
}

/// What decompressing the LUI/ADDI16SP row yields: `addi sp, sp, nzimm`
/// when the destination is the stack pointer, otherwise `lui rd, imm`. A
/// zero destination and a zero stack adjustment are reserved.
pub open spec fn spec_decompress_lui_addi16sp(i: u16) -> Result<u32, DecodingError> {
    let rd = reg_full(i);
    if rd == 0 {
        Err(DecodingError::Reserved)
    } else if rd == 2 {
        if addi16sp_imm(i) == 0 {
            Err(DecodingError::Reserved)
        } else {
            Ok(itype_word(addi16sp_simm(i), 0, 19, 2, 2))
        }
    } else {
        Ok(utype_word(lui_imm20(i), 55, rd))
    }
}

/// Expand C.ADDI16SP or C.LUI to its 32-bit form.
pub fn decompress_lui_addi16sp(i: u16) -> (r: Result<u32, DecodingError>)
    ensures
        r == spec_decompress_lui_addi16sp(i),
{
    let x: u32 = i as u32;
    let rd: u32 = (x >> 7) & 0x1f;
    if rd == 0 {
        Err(DecodingError::Reserved)
    } else if rd == 2 {
        let imm10: u32 = (((x >> 12) & 1) << 9) | (((x >> 3) & 3) << 7) | (((x >> 5) & 1) << 6) | (
        ((x >> 2) & 1) << 5) | (((x >> 6) & 1) << 4);
        if imm10 == 0 {
            Err(DecodingError::Reserved)
        } else {
            let imm: u32 = if (x >> 12) & 1 == 1 {
                imm10 | 0xc00
            } else {
                imm10
            };
            Ok(build_itype(CiInstr::Addi, 2, 2, imm))
        }
    } else {
        let raw: u32 = (((x >> 12) & 1) << 5) | ((x >> 2) & 0x1f);
        let imm20: u32 = if (x >> 12) & 1 == 1 {
            raw | 0xfffc0
        } else {
            raw
        };
        Ok(build_utype(CuInstr::Lui, rd, imm20))
    }
}

/// What decompressing C.J yields: `jal zero, offset`.
pub open spec fn spec_decompress_jump(i: u16) -> Result<u32, DecodingError> {
    Ok(jtype_word(cj_soffset(i), 111, 0))
}

/// Expand C.J to `jal zero, offset`.
pub fn decompress_jump(i: u16) -> (r: Result<u32, DecodingError>)
    ensures
        r == spec_decompress_jump(i),
{
    let x: u32 = i as u32;
    let raw: u32 = (((x >> 12) & 1) << 11) | (((x >> 11) & 1) << 4) | (((x >> 9) & 3) << 8) | (((x
        >> 8) & 1) << 10) | (((x >> 7) & 1) << 6) | (((x >> 6) & 1) << 7) | (((x >> 3) & 7) << 1)
        | (((x >> 2) & 1) << 5);
    let imm: u32 = if (x >> 12) & 1 == 1 {
        raw | 0x1ff000
    } else {
        raw
    };
    Ok(build_jtype(imm))
}

/// What decompressing the MISC-ALU row yields: `srai`, `sub`, `or` or `and`
/// on rd'; the shift by zero is reserved, and the forms outside the
/// supported subset are unimplemented.
pub open spec fn spec_decompress_misc_alu(i: u16) -> Result<u32, DecodingError> {
    let sel = (i as u32 >> 10) & 3;
    if sel == 0 {
        Err(DecodingError::Unimplemented)
    } else if sel == 1 {
        if ci_imm(i) == 0 {
            Err(DecodingError::Reserved)
        } else {
            Ok(itype_word(0x400 | ci_imm(i), 5, 19, reg_prime_high(i), reg_prime_high(i)))
        }
    } else if sel == 2 {
        Err(DecodingError::Unimplemented)
    } else {
        let bit12 = (i as u32 >> 12) & 1;
        let op2 = (i as u32 >> 5) & 3;
        if bit12 == 0 {
            if op2 == 0 {
                Ok(rtype_word(32, 0, 51, reg_prime_high(i), reg_prime_high(i), reg_prime_low(i)))
            } else if op2 == 2 {
                Ok(rtype_word(0, 6, 51, reg_prime_high(i), reg_prime_high(i), reg_prime_low(i)))
            } else if op2 == 3 {
                Ok(rtype_word(0, 7, 51, reg_prime_high(i), reg_prime_high(i), reg_prime_low(i)))
            } else {
                Err(DecodingError::Unimplemented)
            }
        } else {
            if op2 == 2 || op2 == 3 {
                Err(DecodingError::Reserved)
            } else {
                Err(DecodingError::Unimplemented)
            }
        }
    }
}

/// Expand the MISC-ALU row to its 32-bit form.
pub fn decompress_misc_alu(i: u16) -> (r: Result<u32, DecodingError>)
    ensures
        r == spec_decompress_misc_alu(i),
{
    let x: u32 = i as u32;
    let sel: u32 = (x >> 10) & 3;
    if sel == 0 {
        Err(DecodingError::Unimplemented)
    } else if sel == 1 {
        let shamt: u32 = (((x >> 12) & 1) << 5) | ((x >> 2) & 0x1f);
        let rd: u32 = 8 + ((x >> 7) & 7);
        if shamt == 0 {
            Err(DecodingError::Reserved)
        } else {
            Ok(build_itype(CiInstr::Srai, rd, rd, shamt))
        }
    } else if sel == 2 {
        Err(DecodingError::Unimplemented)
    } else {
        let rd: u32 = 8 + ((x >> 7) & 7);
        let rs2: u32 = 8 + ((x >> 2) & 7);
        let bit12: u32 = (x >> 12) & 1;
        let op2: u32 = (x >> 5) & 3;
        if bit12 == 0 {
            if op2 == 0 {
                Ok(build_rtype(CrInstr::Sub, rd, rd, rs2))
            } else if op2 == 2 {
                Ok(build_rtype(CrInstr::Or, rd, rd, rs2))
            } else if op2 == 3 {
                Ok(build_rtype(CrInstr::And, rd, rd, rs2))
            } else {
                Err(DecodingError::Unimplemented)
            }
        } else {
            if op2 == 2 || op2 == 3 {
                Err(DecodingError::Reserved)
            } else {
                Err(DecodingError::Unimplemented)
            }
        }
    }
}

/// What decompressing C.BEQZ or C.BNEZ yields: a branch of rs1' against the
/// zero register.
pub open spec fn spec_decompress_branch(i: u16, instruction_type: CbInstr) -> Result<
    u32,
    DecodingError,
> {
    match instruction_type {
        CbInstr::Beq => Ok(btype_word(cb_soffset(i), 0, 99, reg_prime_high(i), 0)),
        CbInstr::Bne => Ok(btype_word(cb_soffset(i), 1, 99, reg_prime_high(i), 0)),
    }
}

/// Expand C.BEQZ or C.BNEZ to the corresponding branch.
pub fn decompress_branch(i: u16, instruction_type: CbInstr) -> (r: Result<u32, DecodingError>)
    ensures
        r == spec_decompress_branch(i, instruction_type),
{
    let x: u32 = i as u32;
    let rs1: u32 = 8 + ((x >> 7) & 7);
    let raw: u32 = (((x >> 3) & 3) << 1) | (((x >> 10) & 3) << 3) | (((x >> 2) & 1) << 5) | (((x
        >> 5) & 3) << 6) | (((x >> 12) & 1) << 8);
    let imm: u32 = if (x >> 12) & 1 == 1 {
        raw | 0x1e00
    } else {
        raw
    };
    match instruction_type {
        CbInstr::Beq => Ok(build_btype(CbInstr::Beq, rs1, imm)),
        CbInstr::Bne => Ok(build_btype(CbInstr::Bne, rs1, imm)),
    }
}

/// What decompressing a quadrant-one word yields.
pub open spec fn spec_decompress_q1(i: u16) -> Result<u32, DecodingError> {
    let f3 = (i as u32 >> 13) & 7;
    if f3 == 0 {
        spec_decompress_addi(i, CiInstr::Addi)
    } else if f3 == 1 {
        spec_decompress_addi(i, CiInstr::Addiw)
    } else if f3 == 2 {
        spec_decompress_li(i)
    } else if f3 == 3 {
        spec_decompress_lui_addi16sp(i)
    } else if f3 == 4 {
        spec_decompress_misc_alu(i)
    } else if f3 == 5 {
        spec_decompress_jump(i)
    } else if f3 == 6 {
        spec_decompress_branch(i, CbInstr::Beq)
    } else {
        spec_decompress_branch(i, CbInstr::Bne)
    }
}

/// Decompress a compressed instruction from quadrant one to the
/// corresponding 32-bit instruction word.
pub fn decompress_q1(i: u16) -> (r: Result<u32, DecodingError>)
    ensures
        r == spec_decompress_q1(i),
{
    let f3: u32 = (i as u32 >> 13) & 7;
    if f3 == 0 {
        decompress_addi(i, CiInstr::Addi)
    } else if f3 == 1 {
        decompress_addi(i, CiInstr::Addiw)
    } else if f3 == 2 {
        decompress_li(i)
    } else if f3 == 3 {
        decompress_lui_addi16sp(i)
    } else if f3 == 4 {
        decompress_misc_alu(i)
    } else if f3 == 5 {
        decompress_jump(i)
    } else if f3 == 6 {
        decompress_branch(i, CbInstr::Beq)
    } else {
        decompress_branch(i, CbInstr::Bne)
    }
}

// ---------------------------------------------------------------------------
// Quadrant 2
// ---------------------------------------------------------------------------

/// What decompressing C.SLLI yields: `slli rd, rd, shamt`, with a zero
/// destination and a zero shift amount reserved.
pub open spec fn spec_decompress_slli(i: u16) -> Result<u32, DecodingError> {
    let rd = reg_full(i);
    if rd == 0 {
        Err(DecodingError::Reserved)
    } else if ci_imm(i) == 0 {
        Err(DecodingError::Reserved)
    } else {
        Ok(itype_word(ci_imm(i), 1, 19, rd, rd))
    }
}

/// Expand C.SLLI to `slli rd, rd, shamt`.
pub fn decompress_slli(i: u16) -> (r: Result<u32, DecodingError>)
    ensures
        r == spec_decompress_slli(i),
{
    let x: u32 = i as u32;
    let rd: u32 = (x >> 7) & 0x1f;
    let shamt: u32 = (((x >> 12) & 1) << 5) | ((x >> 2) & 0x1f);
    if rd == 0 {
        Err(DecodingError::Reserved)
    } else if shamt == 0 {
        Err(DecodingError::Reserved)
    } else {
        Ok(build_itype(CiInstr::Slli, rd, rd, shamt))
    }
}

/// What decompressing C.LWSP or C.LDSP yields: a load of rd from the stack
/// pointer, with a zero destination reserved.
pub open spec fn spec_decompress_load_sp(i: u16, instruction_type: CiInstr) -> Result<
    u32,
    DecodingError,
> {
    let rd = reg_full(i);
    if rd == 0 {
        Err(DecodingError::Reserved)
    } else {
        match instruction_type {
            CiInstr::Lw => Ok(itype_word(lwsp_imm(i), 2, 3, rd, 2)),
            CiInstr::Ld => Ok(itype_word(ldsp_imm(i), 3, 3, rd, 2)),
            _ => Err(DecodingError::Unknown),
        }
    }
}

/// Expand C.LWSP or C.LDSP to the corresponding stack load.
pub fn decompress_load_sp(i: u16, instruction_type: CiInstr) -> (r: Result<u32, DecodingError>)
    ensures
        r == spec_decompress_load_sp(i, instruction_type),
{
    let x: u32 = i as u32;
    let rd: u32 = (x >> 7) & 0x1f;
    if rd == 0 {
        return Err(DecodingError::Reserved);
    }
    match instruction_type {
        CiInstr::Lw => {
            let imm: u32 = (((x >> 12) & 1) << 5) | (((x >> 4) & 7) << 2) | (((x >> 2) & 3) << 6);
            Ok(build_itype(CiInstr::Lw, rd, 2, imm))
        },
        CiInstr::Ld => {
            let imm: u32 = (((x >> 12) & 1) << 5) | (((x >> 5) & 3) << 3) | (((x >> 2) & 7) << 6);
            Ok(build_itype(CiInstr::Ld, rd, 2, imm))
        },
        _ => Err(DecodingError::Unknown),
    }
}

/// What decompressing the JR/MV/JALR/ADD row yields: a jump through rs1, a
/// register move, a linking jump, a register add, or the breakpoint, which
/// is outside the supported subset. A jump through the zero register and
/// moves to it are reserved.
pub open spec fn spec_decompress_jr_mv_add(i: u16) -> Result<u32, DecodingError> {
    let bit12 = (i as u32 >> 12) & 1;
    let rs1 = reg_full(i);
    let rs2 = reg_rs2_full(i);
    if bit12 == 0 && rs2 == 0 {
        if rs1 == 0 {
            Err(DecodingError::Reserved)
        } else {
            Ok(itype_word(0, 0, 103, 0, rs1))
        }
    } else if bit12 == 0 {
        if rs1 == 0 {
            Err(DecodingError::Reserved)
        } else {
            Ok(rtype_word(0, 0, 51, rs1, 0, rs2))
        }
    } else if rs1 == 0 && rs2 == 0 {
        Err(DecodingError::Unimplemented)
    } else if rs2 == 0 {
        Ok(itype_word(0, 0, 103, 1, rs1))
    } else {
        if rs1 == 0 {
            Err(DecodingError::Reserved)
        } else {
            Ok(rtype_word(0, 0, 51, rs1, rs1, rs2))
        }
    }
}

/// Expand C.JR, C.MV, C.JALR or C.ADD to its 32-bit form.
pub fn decompress_jr_mv_add(i: u16) -> (r: Result<u32, DecodingError>)
    ensures
        r == spec_decompress_jr_mv_add(i),
{
    let x: u32 = i as u32;
    let bit12: u32 = (x >> 12) & 1;
    let rs1: u32 = (x >> 7) & 0x1f;
    let rs2: u32 = (x >> 2) & 0x1f;
    if bit12 == 0 && rs2 == 0 {
        if rs1 == 0 {
            Err(DecodingError::Reserved)
        } else {
            Ok(build_itype(CiInstr::Jalr, 0, rs1, 0))
        }
    } else if bit12 == 0 {
        if rs1 == 0 {
            Err(DecodingError::Reserved)
        } else {
            Ok(build_rtype(CrInstr::Add, rs1, 0, rs2))
        }
    } else if rs1 == 0 && rs2 == 0 {
        Err(DecodingError::Unimplemented)
    } else if rs2 == 0 {
        Ok(build_itype(CiInstr::Jalr, 1, rs1, 0))
    } else {
        if rs1 == 0 {
            Err(DecodingError::Reserved)
        } else {
            Ok(build_rtype(CrInstr::Add, rs1, rs1, rs2))
        }
    }
}

/// What decompressing C.SDSP yields: `sd rs2, offset(sp)`; the word-sized
/// store to the stack is outside the supported subset.
pub open spec fn spec_decompress_store_sp(i: u16, instruction_type: CsInstr) -> Result<
    u32,
    DecodingError,
> {
    match instruction_type {
        CsInstr::Sw => Err(DecodingError::Unimplemented),
        CsInstr::Sd => Ok(stype_word(sdsp_imm(i), 3, 35, 2, reg_rs2_full(i))),
    }
}

/// Expand C.SDSP to `sd rs2, offset(sp)`.
pub fn decompress_store_sp(i: u16, instruction_type: CsInstr) -> (r: Result<u32, DecodingError>)
    ensures
        r == spec_decompress_store_sp(i, instruction_type),
{
    let x: u32 = i as u32;
    let rs2: u32 = (x >> 2) & 0x1f;
    match instruction_type {
        CsInstr::Sw => Err(DecodingError::Unimplemented),
        CsInstr::Sd => {
            let imm: u32 = (((x >> 10) & 7) << 3) | (((x >> 7) & 7) << 6);
            Ok(build_stype(CsInstr::Sd, 2, rs2, imm))
        },
    }
}

/// What decompressing a quadrant-two word yields.
pub open spec fn spec_decompress_q2(i: u16) -> Result<u32, DecodingError> {
    let f3 = (i as u32 >> 13) & 7;
    if f3 == 0 {
        spec_decompress_slli(i)
    } else if f3 == 1 {
        Err(DecodingError::Unimplemented)
    } else if f3 == 2 {
        spec_decompress_load_sp(i, CiInstr::Lw)
    } else if f3 == 3 {
        spec_decompress_load_sp(i, CiInstr::Ld)
    } else if f3 == 4 {
        spec_decompress_jr_mv_add(i)
    } else if f3 == 5 {
        Err(DecodingError::Unimplemented)
    } else if f3 == 6 {
        Err(DecodingError::Unimplemented)
    } else {
        spec_decompress_store_sp(i, CsInstr::Sd)
    }
}

/// Decompress a compressed instruction from quadrant two to the
/// corresponding 32-bit instruction word.
pub fn decompress_q2(i: u16) -> (r: Result<u32, DecodingError>)
    ensures
        r == spec_decompress_q2(i),
{
    let f3: u32 = (i as u32 >> 13) & 7;
    if f3 == 0 {
        decompress_slli(i)
    } else if f3 == 1 {
        Err(DecodingError::Unimplemented)
    } else if f3 == 2 {
        decompress_load_sp(i, CiInstr::Lw)
    } else if f3 == 3 {
        decompress_load_sp(i, CiInstr::Ld)
    } else if f3 == 4 {
        decompress_jr_mv_add(i)
    } else if f3 == 5 {
        Err(DecodingError::Unimplemented)
    } else if f3 == 6 {
        Err(DecodingError::Unimplemented)
    } else {
        decompress_store_sp(i, CsInstr::Sd)
    }
}

/// What decompressing a 16-bit word yields, by quadrant; the low two bits
/// both set does not name a compressed instruction.
pub open spec fn spec_decompress(c: u16) -> Result<u32, DecodingError> {
    let q = (c as u32) & 3;
    if q == 0 {
        spec_decompress_q0(c)
    } else if q == 1 {
        spec_decompress_q1(c)
    } else if q == 2 {
        spec_decompress_q2(c)
    } else {
        Err(DecodingError::Unknown)
    }
}

/// Bounds of the unscrambled immediates and register fields: each fits the
/// field of the 32-bit format it is destined for.
pub proof fn lemma_compressed_imm_bounds(i: u16)
    by (bit_vector)
    ensures
        ciw_addi4spn_imm(i) < 1024,
        cl_lw_imm(i) < 128,
        cl_ld_imm(i) < 256,
        ci_imm(i) < 64,
        ci_simm(i) < 4096,
        0x400 | ci_imm(i) == 1024 + ci_imm(i),
        addi16sp_simm(i) < 4096,
        lui_imm20(i) < 0x100000,
        cb_soffset(i) < 8192,
        cj_soffset(i) < 0x200000,
        lwsp_imm(i) < 256,
        ldsp_imm(i) < 512,
        sdsp_imm(i) < 512,
        8 <= reg_prime_low(i) < 16,
        8 <= reg_prime_high(i) < 16,
        reg_full(i) < 32,
        reg_rs2_full(i) < 32,
{
}

/// Every accepted compressed pattern expands to an equivalent 32-bit
/// instruction: the 32-bit decoder accepts the expanded word and returns a
/// well-formed instruction wrapping exactly that word. Which word each
/// pattern expands to — its opcode, registers and unscrambled immediate —
/// is pinned by the per-row expansion functions above, so the instruction
/// the decoder returns is the one the compressed form abbreviates.
pub proof fn lemma_decompress_decodes(c: u16)
    ensures
        spec_decompress(c) matches Ok(w) ==> (spec_decode32(w) matches Ok(instr)
            && instruction_word(instr) == w && instruction_wf(instr)),
{
    lemma_compressed_imm_bounds(c);
    crate::types::lemma_rtype_word_fields();
    crate::types::lemma_itype_word_fields();
    crate::types::lemma_stype_word_fields();
    crate::types::lemma_btype_word_fields();
    crate::types::lemma_utype_word_fields();
    crate::types::lemma_jtype_word_fields();
    if spec_decompress(c) is Ok {
        lemma_decode_well_formed(spec_decompress(c).unwrap());
    }
}

} // verus!
