use vstd::prelude::*;

use crate::decompress::{
    decompress_q0, decompress_q1, decompress_q2, spec_decompress,
};
use crate::instruction::{instruction_wf, instruction_word, Instruction};
use crate::types::{
    word_funct3, word_funct5, word_funct6, word_funct7, word_itype_imm, word_opcode,
    word_quadrant, word_rd, word_rs1, BType, IType, JType, RType, SType, UType,
};

verus! {

broadcast use crate::bits::lemma_and_bound_u16, crate::bits::lemma_and_bound_u32;

/// The size in bytes of an uncompressed instruction.
pub const INSTRUCTION_SIZE: usize = 4;

/// The size in bytes of a machine word of the modelled machine.
pub const WORD_SIZE: usize = 8;

/// Why a bit pattern does not denote an instruction of the supported subset.
#[derive(Clone, Copy, Debug, Eq, Hash, PartialEq, Structural)]
pub enum DecodingError {
    /// The opcode is reserved for custom extensions.
    Custom,
    /// The opcode is reserved for future standard extensions.
    Reserved,
    /// The bit pattern is not defined in the current specification.
    Unknown,
    /// More bits than were supplied are required to decode the instruction.
    Truncated,
    /// The instruction is defined in the ISA but not part of this subset.
    Unimplemented,
    /// The all-zero compressed word, or an architectural reservation of the
    /// compressed encodings.
    Illegal,
}

// ---------------------------------------------------------------------------
// Length classification
// ---------------------------------------------------------------------------

/// The byte length of an instruction, classified from its low 16 bits.
pub open spec fn spec_instruction_length(i: u16) -> usize {
    if i & 3 != 3 {
        2
    } else if i & 0b11100 != 0b11100 {
        4
    } else if i & 0b111111 == 0b011111 {
        6
    } else if i & 0b1111111 == 0b0111111 {
        8
    } else {
        (10 + 2 * ((i >> 12) & 7)) as usize
    }
}

/// Return the length in bytes of an instruction given its low 16 bits.
///
/// The current ISA reserves a bit pattern for instructions of 192 bits or
/// more; for simplicity this function returns 24 in that case.
pub fn instruction_length(i: u16) -> (r: usize)
    ensures
        r == spec_instruction_length(i),
{
    if i & 0b11 != 0b11 {
        2
    } else if i & 0b11100 != 0b11100 {
        4
    } else if i & 0b111111 == 0b011111 {
        6
    } else if i & 0b1111111 == 0b0111111 {
        8
    } else {
        (10 + 2 * ((i >> 12) & 7)) as usize
    }
}

/// The classifier is total: every 16-bit word is assigned an even length
/// between 2 and 24, and every word whose low bits mark it as a standard
/// 32-bit instruction is assigned length 4.
pub proof fn lemma_instruction_length_total(i: u16)
    ensures
        2 <= spec_instruction_length(i) <= 24,
        spec_instruction_length(i) % 2 == 0,
        i & 3 == 3 && i & 0b11100 != 0b11100 ==> spec_instruction_length(i) == 4,
{
}

// ---------------------------------------------------------------------------
// The 32-bit decoder
// ---------------------------------------------------------------------------

/// Decoding and encoding invert each other: an instruction whose wrapped
/// word carries the opcode and funct fields of its own variant decodes from
/// that word back to itself. The constructors establish that premise for
/// every value they accept, so every constructed instruction survives the
/// round trip through its 32-bit encoding.
pub proof fn lemma_decode_round_trip(i: Instruction)
    requires
        instruction_wf(i),
    ensures
        spec_decode(instruction_word(i)) == Ok::<Instruction, DecodingError>(i),
{
}

/// Whatever the 32-bit decoder accepts is well formed: the instruction it
/// returns wraps exactly the decoded word and, for a word whose low bits
/// mark it as a full instruction, that word carries the opcode and funct
/// fields of the returned variant. Together with the round trip above,
/// decoding and encoding are mutually inverse between well-formed
/// instructions and the words the decoder accepts.
pub proof fn lemma_decode_well_formed(w: u32)
    ensures
        spec_decode32(w) matches Ok(i) ==> instruction_word(i) == w && (word_quadrant(w) == 3
            ==> instruction_wf(i)),
{
}

/// Decoding of the LOAD opcode row.
pub open spec fn spec_decode_load(i: u32) -> Result<Instruction, DecodingError> {
    let f3 = word_funct3(i);
    if f3 == 0 {
        Ok(Instruction::Lb(IType(i)))
    } else if f3 == 1 {
        Ok(Instruction::Lh(IType(i)))
    } else if f3 == 2 {
        Ok(Instruction::Lw(IType(i)))
    } else if f3 == 3 {
        Ok(Instruction::Ld(IType(i)))
    } else if f3 == 4 {
        Ok(Instruction::Lbu(IType(i)))
    } else if f3 == 5 {
        Ok(Instruction::Lhu(IType(i)))
    } else if f3 == 6 {
        Ok(Instruction::Lwu(IType(i)))
    } else {
        Err(DecodingError::Reserved)
    }
}

/// Decoding of the OP-IMM opcode row.
pub open spec fn spec_decode_op_imm(i: u32) -> Result<Instruction, DecodingError> {
    let f3 = word_funct3(i);
    let f6 = word_funct6(i);
    if f3 == 0 {
        Ok(Instruction::Addi(IType(i)))
    } else if f3 == 2 {
        Ok(Instruction::Slti(IType(i)))
    } else if f3 == 3 {
        Ok(Instruction::Sltiu(IType(i)))
    } else if f3 == 4 {
        Ok(Instruction::Xori(IType(i)))
    } else if f3 == 6 {
        Ok(Instruction::Ori(IType(i)))
    } else if f3 == 7 {
        Ok(Instruction::Andi(IType(i)))
    } else if f3 == 1 && f6 == 0 {
        Ok(Instruction::Slli(IType(i)))
    } else if f3 == 5 && f6 == 0 {
        Ok(Instruction::Srli(IType(i)))
    } else if f3 == 5 && f6 == 16 {
        Ok(Instruction::Srai(IType(i)))
    } else {
        Err(DecodingError::Unknown)
    }
}

/// Decoding of the OP-IMM-32 opcode row.
pub open spec fn spec_decode_op_imm32(i: u32) -> Result<Instruction, DecodingError> {
    let f3 = word_funct3(i);
    let f7 = word_funct7(i);
    if f3 == 0 {
        Ok(Instruction::Addiw(IType(i)))
    } else if f3 == 1 && f7 == 0 {
        Ok(Instruction::Slliw(IType(i)))
    } else if f3 == 5 && f7 == 0 {
        Ok(Instruction::Srliw(IType(i)))
    } else if f3 == 5 && f7 == 32 {
        Ok(Instruction::Sraiw(IType(i)))
    } else {
        Err(DecodingError::Unknown)
    }
}

/// Decoding of the STORE opcode row.
pub open spec fn spec_decode_store(i: u32) -> Result<Instruction, DecodingError> {
    let f3 = word_funct3(i);
    if f3 == 0 {
        Ok(Instruction::Sb(SType(i)))
    } else if f3 == 1 {
        Ok(Instruction::Sh(SType(i)))
    } else if f3 == 2 {
        Ok(Instruction::Sw(SType(i)))
    } else if f3 == 3 {
        Ok(Instruction::Sd(SType(i)))
    } else {
        Err(DecodingError::Unknown)
    }
}

/// Decoding of the OP opcode row.
pub open spec fn spec_decode_op(i: u32) -> Result<Instruction, DecodingError> {
    let f3 = word_funct3(i);
    let f7 = word_funct7(i);
    if f7 == 0 {
        if f3 == 0 {
            Ok(Instruction::Add(RType(i)))
        } else if f3 == 1 {
            Ok(Instruction::Sll(RType(i)))
        } else if f3 == 2 {
            Ok(Instruction::Slt(RType(i)))
        } else if f3 == 3 {
            Ok(Instruction::Sltu(RType(i)))
        } else if f3 == 4 {
            Ok(Instruction::Xor(RType(i)))
        } else if f3 == 5 {
            Ok(Instruction::Srl(RType(i)))
        } else if f3 == 6 {
            Ok(Instruction::Or(RType(i)))
        } else {
            Ok(Instruction::And(RType(i)))
        }
    } else if f7 == 32 {
        if f3 == 0 {
            Ok(Instruction::Sub(RType(i)))
        } else if f3 == 5 {
            Ok(Instruction::Sra(RType(i)))
        } else {
            Err(DecodingError::Unknown)
        }
    } else if f7 == 1 {
        if f3 == 0 {
            Ok(Instruction::Mul(RType(i)))
        } else if f3 == 1 {
            Ok(Instruction::Mulh(RType(i)))
        } else if f3 == 2 {
            Ok(Instruction::Mulhsu(RType(i)))
        } else if f3 == 3 {
            Ok(Instruction::Mulhu(RType(i)))
        } else if f3 == 4 {
            Ok(Instruction::Div(RType(i)))
        } else if f3 == 5 {
            Ok(Instruction::Divu(RType(i)))
        } else if f3 == 6 {
            Ok(Instruction::Rem(RType(i)))
        } else {
            Ok(Instruction::Remu(RType(i)))
        }
    } else {
        Err(DecodingError::Unknown)
    }
}

/// Decoding of the OP-32 opcode row.
pub open spec fn spec_decode_op32(i: u32) -> Result<Instruction, DecodingError> {
    let f3 = word_funct3(i);
    let f7 = word_funct7(i);
    if f7 == 0 && f3 == 0 {
        Ok(Instruction::Addw(RType(i)))
    } else if f7 == 32 && f3 == 0 {
        Ok(Instruction::Subw(RType(i)))
    } else if f7 == 0 && f3 == 1 {
        Ok(Instruction::Sllw(RType(i)))
    } else if f7 == 0 && f3 == 5 {
        Ok(Instruction::Srlw(RType(i)))
    } else if f7 == 32 && f3 == 5 {
        Ok(Instruction::Sraw(RType(i)))
    } else if f7 == 1 && f3 == 0 {
        Ok(Instruction::Mulw(RType(i)))
    } else if f7 == 1 && f3 == 4 {
        Ok(Instruction::Divw(RType(i)))
    } else if f7 == 1 && f3 == 5 {
        Ok(Instruction::Divuw(RType(i)))
    } else if f7 == 1 && f3 == 6 {
        Ok(Instruction::Remw(RType(i)))
    } else if f7 == 1 && f3 == 7 {
        Ok(Instruction::Remuw(RType(i)))
    } else {
        Err(DecodingError::Unknown)
    }
}

/// Decoding of the BRANCH opcode row.
pub open spec fn spec_decode_branch(i: u32) -> Result<Instruction, DecodingError> {
    let f3 = word_funct3(i);
    if f3 == 0 {
        Ok(Instruction::Beq(BType(i)))
    } else if f3 == 1 {
        Ok(Instruction::Bne(BType(i)))
    } else if f3 == 4 {
        Ok(Instruction::Blt(BType(i)))
    } else if f3 == 5 {
        Ok(Instruction::Bge(BType(i)))
    } else if f3 == 6 {
        Ok(Instruction::Bltu(BType(i)))
    } else if f3 == 7 {
        Ok(Instruction::Bgeu(BType(i)))
    } else {
        Err(DecodingError::Unknown)
    }
}

/// Decoding of the SYSTEM opcode row: only the environment call and the
/// breakpoint are recognised.
pub open spec fn spec_decode_system(i: u32) -> Result<Instruction, DecodingError> {
    if word_funct3(i) == 0 && word_rd(i) == 0 && word_rs1(i) == 0 {
        if word_itype_imm(i) == 0 {
            Ok(Instruction::Ecall(IType(i)))
        } else if word_itype_imm(i) == 1 {
            Ok(Instruction::Ebreak(IType(i)))
        } else {
            Err(DecodingError::Unknown)
        }
    } else {
        Err(DecodingError::Unknown)
    }
}

/// Decoding of the AMO opcode row: dispatch on the width in funct3 and the
/// operation in the top five funct bits, leaving aq and rl free.
pub open spec fn spec_decode_amo(i: u32) -> Result<Instruction, DecodingError> {
    let f3 = word_funct3(i);
    let f5 = word_funct5(i);
    if f3 == 2 {
        if f5 == 2 {
            Ok(Instruction::Lrw(RType(i)))
        } else if f5 == 3 {
            Ok(Instruction::Scw(RType(i)))
        } else if f5 == 1 {
            Ok(Instruction::Amoswapw(RType(i)))
        } else if f5 == 0 {
            Ok(Instruction::Amoaddw(RType(i)))
        } else if f5 == 4 {
            Ok(Instruction::Amoxorw(RType(i)))
        } else if f5 == 12 {
            Ok(Instruction::Amoandw(RType(i)))
        } else if f5 == 8 {
            Ok(Instruction::Amoorw(RType(i)))
        } else if f5 == 16 {
            Ok(Instruction::Amominw(RType(i)))
        } else if f5 == 20 {
            Ok(Instruction::Amomaxw(RType(i)))
        } else if f5 == 24 {
            Ok(Instruction::Amominuw(RType(i)))
        } else if f5 == 28 {
            Ok(Instruction::Amomaxuw(RType(i)))
        } else {
            Err(DecodingError::Unknown)
        }
    } else if f3 == 3 {
        if f5 == 2 {
            Ok(Instruction::Lrd(RType(i)))
        } else if f5 == 3 {
            Ok(Instruction::Scd(RType(i)))
        } else if f5 == 1 {
            Ok(Instruction::Amoswapd(RType(i)))
        } else if f5 == 0 {
            Ok(Instruction::Amoaddd(RType(i)))
        } else if f5 == 4 {
            Ok(Instruction::Amoxord(RType(i)))
        } else if f5 == 12 {
            Ok(Instruction::Amoandd(RType(i)))
        } else if f5 == 8 {
            Ok(Instruction::Amoord(RType(i)))
        } else if f5 == 16 {
            Ok(Instruction::Amomind(RType(i)))
        } else if f5 == 20 {
            Ok(Instruction::Amomaxd(RType(i)))
        } else if f5 == 24 {
            Ok(Instruction::Amominud(RType(i)))
        } else if f5 == 28 {
            Ok(Instruction::Amomaxud(RType(i)))
        } else {
            Err(DecodingError::Unknown)
        }
    } else {
        Err(DecodingError::Unknown)
    }
}

/// Decoding of the MISC-MEM opcode row.
pub open spec fn spec_decode_fence(i: u32) -> Result<Instruction, DecodingError> {
    if word_funct3(i) == 0 {
        Ok(Instruction::Fence(IType(i)))
    } else {
        Err(DecodingError::Unknown)
    }
}

/// What decoding a full 32-bit instruction word yields: dispatch on the
/// five-bit major opcode, then on the funct fields.
pub open spec fn spec_decode32(i: u32) -> Result<Instruction, DecodingError> {
    let op = word_opcode(i);
    if op == 0 {
        spec_decode_load(i)
    } else if op == 1 {
        Err(DecodingError::Unimplemented)  // LOAD-FP
    } else if op == 2 {
        Err(DecodingError::Custom)
    } else if op == 3 {
        spec_decode_fence(i)
    } else if op == 4 {
        spec_decode_op_imm(i)
    } else if op == 5 {
        Ok(Instruction::Auipc(UType(i)))
    } else if op == 6 {
        spec_decode_op_imm32(i)
    } else if op == 7 {
        Err(DecodingError::Reserved)  // 48-bit encodings
    } else if op == 8 {
        spec_decode_store(i)
    } else if op == 9 {
        Err(DecodingError::Unimplemented)  // STORE-FP
    } else if op == 10 {
        Err(DecodingError::Custom)
    } else if op == 11 {
        spec_decode_amo(i)
    } else if op == 12 {
        spec_decode_op(i)
    } else if op == 13 {
        Ok(Instruction::Lui(UType(i)))
    } else if op == 14 {
        spec_decode_op32(i)
    } else if op == 15 {
        Err(DecodingError::Reserved)  // 64-bit encodings
    } else if op == 16 || op == 17 || op == 18 || op == 19 || op == 20 {
        Err(DecodingError::Unimplemented)  // MADD, MSUB, NMSUB, NMADD, OP-FP
    } else if op == 21 {
        Err(DecodingError::Reserved)
    } else if op == 22 {
        Err(DecodingError::Custom)
    } else if op == 23 {
        Err(DecodingError::Reserved)  // 48-bit encodings
    } else if op == 24 {
        spec_decode_branch(i)
    } else if op == 25 {
        if word_funct3(i) == 0 {
            Ok(Instruction::Jalr(IType(i)))
        } else {
            Err(DecodingError::Unknown)
        }
    } else if op == 26 {
        Err(DecodingError::Reserved)
    } else if op == 27 {
        Ok(Instruction::Jal(JType(i)))
    } else if op == 28 {
        spec_decode_system(i)
    } else if op == 29 {
        Err(DecodingError::Reserved)
    } else if op == 30 {
        Err(DecodingError::Custom)
    } else {
        Err(DecodingError::Reserved)  // encodings of 80 bits or more
    }
}

/// What decoding an instruction word yields: a 32-bit word is decoded
/// directly; a compressed word is decompressed by quadrant first and the
/// expansion is then decoded.
pub open spec fn spec_decode(i: u32) -> Result<Instruction, DecodingError> {
    if word_quadrant(i) == 3 {
        spec_decode32(i)
    } else {
        match spec_decompress((i & 0xffff) as u16) {
            Ok(w) => spec_decode32(w),
            Err(e) => Err(e),
        }
    }
}

/// Decode the given instruction word, decompressing it first when its low
/// two bits mark it as compressed.
pub fn decode(i: u32) -> (r: Result<Instruction, DecodingError>)
    ensures
        r == spec_decode(i),
{
    let q: u32 = i & 3;
    if q == 3 {
        decode32(i)
    } else {
        let c: u16 = (i & 0xffff) as u16;
        proof {
            assert((c as u32) & 3 == i & 3) by (bit_vector)
                requires
                    c == (i & 0xffff) as u16,
            ;
        }
        let expanded = if q == 0 {
            decompress_q0(c)
        } else if q == 1 {
            decompress_q1(c)
        } else {
            decompress_q2(c)
        };
        match expanded {
            Ok(w) => decode32(w),
            Err(e) => Err(e),
        }
    }
}

/// Decode a full 32-bit instruction word.
fn decode32(i: u32) -> (r: Result<Instruction, DecodingError>)
    ensures
        r == spec_decode32(i),
{
    let op: u32 = (i >> 2) & 0x1f;
    if op == 0 {
        decode_load(i)
    } else if op == 1 {
        Err(DecodingError::Unimplemented)
    } else if op == 2 {
        Err(DecodingError::Custom)
    } else if op == 3 {
        decode_fence(i)
    } else if op == 4 {
        decode_op_imm(i)
    } else if op == 5 {
        Ok(Instruction::Auipc(UType(i)))
    } else if op == 6 {
        decode_op_imm32(i)
    } else if op == 7 {
        Err(DecodingError::Reserved)
    } else if op == 8 {
        decode_store(i)
    } else if op == 9 {
        Err(DecodingError::Unimplemented)
    } else if op == 10 {
        Err(DecodingError::Custom)
    } else if op == 11 {
        decode_amo(i)
    } else if op == 12 {
        decode_op(i)
    } else if op == 13 {
        Ok(Instruction::Lui(UType(i)))
    } else if op == 14 {
        decode_op32(i)
    } else if op == 15 {
        Err(DecodingError::Reserved)
    } else if op == 16 || op == 17 || op == 18 || op == 19 || op == 20 {
        Err(DecodingError::Unimplemented)
    } else if op == 21 {
        Err(DecodingError::Reserved)
    } else if op == 22 {
        Err(DecodingError::Custom)
    } else if op == 23 {
        Err(DecodingError::Reserved)
    } else if op == 24 {
        decode_branch(i)
    } else if op == 25 {
        if (i >> 12) & 7 == 0 {
            Ok(Instruction::Jalr(IType(i)))
        } else {
            Err(DecodingError::Unknown)
        }
    } else if op == 26 {
        Err(DecodingError::Reserved)
    } else if op == 27 {
        Ok(Instruction::Jal(JType(i)))
    } else if op == 28 {
        decode_system(i)
    } else if op == 29 {
        Err(DecodingError::Reserved)
    } else if op == 30 {
        Err(DecodingError::Custom)
    } else {
        Err(DecodingError::Reserved)
    }
}

fn decode_load(i: u32) -> (r: Result<Instruction, DecodingError>)
    ensures
        r == spec_decode_load(i),
{
    let f3: u32 = (i >> 12) & 7;
    if f3 == 0 {
        Ok(Instruction::Lb(IType(i)))
    } else if f3 == 1 {
        Ok(Instruction::Lh(IType(i)))
    } else if f3 == 2 {
        Ok(Instruction::Lw(IType(i)))
    } else if f3 == 3 {
        Ok(Instruction::Ld(IType(i)))
    } else if f3 == 4 {
        Ok(Instruction::Lbu(IType(i)))
    } else if f3 == 5 {
        Ok(Instruction::Lhu(IType(i)))
    } else if f3 == 6 {
        Ok(Instruction::Lwu(IType(i)))
    } else {
        Err(DecodingError::Reserved)
    }
}

fn decode_op_imm(i: u32) -> (r: Result<Instruction, DecodingError>)
    ensures
        r == spec_decode_op_imm(i),
{
    let f3: u32 = (i >> 12) & 7;
    let f6: u32 = i >> 26;
    if f3 == 0 {
        Ok(Instruction::Addi(IType(i)))
    } else if f3 == 2 {
        Ok(Instruction::Slti(IType(i)))
    } else if f3 == 3 {
        Ok(Instruction::Sltiu(IType(i)))
    } else if f3 == 4 {
        Ok(Instruction::Xori(IType(i)))
    } else if f3 == 6 {
        Ok(Instruction::Ori(IType(i)))
    } else if f3 == 7 {
        Ok(Instruction::Andi(IType(i)))
    } else if f3 == 1 && f6 == 0 {
        Ok(Instruction::Slli(IType(i)))
    } else if f3 == 5 && f6 == 0 {
        Ok(Instruction::Srli(IType(i)))
    } else if f3 == 5 && f6 == 16 {
        Ok(Instruction::Srai(IType(i)))
    } else {
        Err(DecodingError::Unknown)
    }
}

fn decode_op_imm32(i: u32) -> (r: Result<Instruction, DecodingError>)
    ensures
        r == spec_decode_op_imm32(i),
{
    let f3: u32 = (i >> 12) & 7;
    let f7: u32 = i >> 25;
    if f3 == 0 {
        Ok(Instruction::Addiw(IType(i)))
    } else if f3 == 1 && f7 == 0 {
        Ok(Instruction::Slliw(IType(i)))
    } else if f3 == 5 && f7 == 0 {
        Ok(Instruction::Srliw(IType(i)))
    } else if f3 == 5 && f7 == 32 {
        Ok(Instruction::Sraiw(IType(i)))
    } else {
        Err(DecodingError::Unknown)
    }
}

fn decode_store(i: u32) -> (r: Result<Instruction, DecodingError>)
    ensures
        r == spec_decode_store(i),
{
    let f3: u32 = (i >> 12) & 7;
    if f3 == 0 {
        Ok(Instruction::Sb(SType(i)))
    } else if f3 == 1 {
        Ok(Instruction::Sh(SType(i)))
    } else if f3 == 2 {
        Ok(Instruction::Sw(SType(i)))
    } else if f3 == 3 {
        Ok(Instruction::Sd(SType(i)))
    } else {
        Err(DecodingError::Unknown)
    }
}

fn decode_op(i: u32) -> (r: Result<Instruction, DecodingError>)
    ensures
        r == spec_decode_op(i),
{
    let f3: u32 = (i >> 12) & 7;
    let f7: u32 = i >> 25;
    if f7 == 0 {
        if f3 == 0 {
            Ok(Instruction::Add(RType(i)))
        } else if f3 == 1 {
            Ok(Instruction::Sll(RType(i)))
        } else if f3 == 2 {
            Ok(Instruction::Slt(RType(i)))
        } else if f3 == 3 {
            Ok(Instruction::Sltu(RType(i)))
        } else if f3 == 4 {
            Ok(Instruction::Xor(RType(i)))
        } else if f3 == 5 {
            Ok(Instruction::Srl(RType(i)))
        } else if f3 == 6 {
            Ok(Instruction::Or(RType(i)))
        } else {
            Ok(Instruction::And(RType(i)))
        }
    } else if f7 == 32 {
        if f3 == 0 {
            Ok(Instruction::Sub(RType(i)))
        } else if f3 == 5 {
            Ok(Instruction::Sra(RType(i)))
        } else {
            Err(DecodingError::Unknown)
        }
    } else if f7 == 1 {
        if f3 == 0 {
            Ok(Instruction::Mul(RType(i)))
        } else if f3 == 1 {
            Ok(Instruction::Mulh(RType(i)))
        } else if f3 == 2 {
            Ok(Instruction::Mulhsu(RType(i)))
        } else if f3 == 3 {
            Ok(Instruction::Mulhu(RType(i)))
        } else if f3 == 4 {
            Ok(Instruction::Div(RType(i)))
        } else if f3 == 5 {
            Ok(Instruction::Divu(RType(i)))
        } else if f3 == 6 {
            Ok(Instruction::Rem(RType(i)))
        } else {
            Ok(Instruction::Remu(RType(i)))
        }
    } else {
        Err(DecodingError::Unknown)
    }
}

fn decode_op32(i: u32) -> (r: Result<Instruction, DecodingError>)
    ensures
        r == spec_decode_op32(i),
{
    let f3: u32 = (i >> 12) & 7;
    let f7: u32 = i >> 25;
    if f7 == 0 && f3 == 0 {
        Ok(Instruction::Addw(RType(i)))
    } else if f7 == 32 && f3 == 0 {
        Ok(Instruction::Subw(RType(i)))
    } else if f7 == 0 && f3 == 1 {
        Ok(Instruction::Sllw(RType(i)))
    } else if f7 == 0 && f3 == 5 {
        Ok(Instruction::Srlw(RType(i)))
    } else if f7 == 32 && f3 == 5 {
        Ok(Instruction::Sraw(RType(i)))
    } else if f7 == 1 && f3 == 0 {
        Ok(Instruction::Mulw(RType(i)))
    } else if f7 == 1 && f3 == 4 {
        Ok(Instruction::Divw(RType(i)))
    } else if f7 == 1 && f3 == 5 {
        Ok(Instruction::Divuw(RType(i)))
    } else if f7 == 1 && f3 == 6 {
        Ok(Instruction::Remw(RType(i)))
    } else if f7 == 1 && f3 == 7 {
        Ok(Instruction::Remuw(RType(i)))
    } else {
        Err(DecodingError::Unknown)
    }
}

fn decode_branch(i: u32) -> (r: Result<Instruction, DecodingError>)
    ensures
        r == spec_decode_branch(i),
{
    let f3: u32 = (i >> 12) & 7;
    if f3 == 0 {
        Ok(Instruction::Beq(BType(i)))
    } else if f3 == 1 {
        Ok(Instruction::Bne(BType(i)))
    } else if f3 == 4 {
        Ok(Instruction::Blt(BType(i)))
    } else if f3 == 5 {
        Ok(Instruction::Bge(BType(i)))
    } else if f3 == 6 {
        Ok(Instruction::Bltu(BType(i)))
    } else if f3 == 7 {
        Ok(Instruction::Bgeu(BType(i)))
    } else {
        Err(DecodingError::Unknown)
    }
}

fn decode_system(i: u32) -> (r: Result<Instruction, DecodingError>)
    ensures
        r == spec_decode_system(i),
{
    if (i >> 12) & 7 == 0 && (i >> 7) & 0x1f == 0 && (i >> 15) & 0x1f == 0 {
        if i >> 20 == 0 {
            Ok(Instruction::Ecall(IType(i)))
        } else if i >> 20 == 1 {
            Ok(Instruction::Ebreak(IType(i)))
        } else {
            Err(DecodingError::Unknown)
        }
    } else {
        Err(DecodingError::Unknown)
    }
}

fn decode_amo(i: u32) -> (r: Result<Instruction, DecodingError>)
    ensures
        r == spec_decode_amo(i),
{
    let f3: u32 = (i >> 12) & 7;
    let f5: u32 = i >> 27;
    if f3 == 2 {
        if f5 == 2 {
            Ok(Instruction::Lrw(RType(i)))
        } else if f5 == 3 {
            Ok(Instruction::Scw(RType(i)))
        } else if f5 == 1 {
            Ok(Instruction::Amoswapw(RType(i)))
        } else if f5 == 0 {
            Ok(Instruction::Amoaddw(RType(i)))
        } else if f5 == 4 {
            Ok(Instruction::Amoxorw(RType(i)))
        } else if f5 == 12 {
            Ok(Instruction::Amoandw(RType(i)))
        } else if f5 == 8 {
            Ok(Instruction::Amoorw(RType(i)))
        } else if f5 == 16 {
            Ok(Instruction::Amominw(RType(i)))
        } else if f5 == 20 {
            Ok(Instruction::Amomaxw(RType(i)))
        } else if f5 == 24 {
            Ok(Instruction::Amominuw(RType(i)))
        } else if f5 == 28 {
            Ok(Instruction::Amomaxuw(RType(i)))
        } else {
            Err(DecodingError::Unknown)
        }
    } else if f3 == 3 {
        if f5 == 2 {
            Ok(Instruction::Lrd(RType(i)))
        } else if f5 == 3 {
            Ok(Instruction::Scd(RType(i)))
        } else if f5 == 1 {
            Ok(Instruction::Amoswapd(RType(i)))
        } else if f5 == 0 {
            Ok(Instruction::Amoaddd(RType(i)))
        } else if f5 == 4 {
            Ok(Instruction::Amoxord(RType(i)))
        } else if f5 == 12 {
            Ok(Instruction::Amoandd(RType(i)))
        } else if f5 == 8 {
            Ok(Instruction::Amoord(RType(i)))
        } else if f5 == 16 {
            Ok(Instruction::Amomind(RType(i)))
        } else if f5 == 20 {
            Ok(Instruction::Amomaxd(RType(i)))
        } else if f5 == 24 {
            Ok(Instruction::Amominud(RType(i)))
        } else if f5 == 28 {
            Ok(Instruction::Amomaxud(RType(i)))
        } else {
            Err(DecodingError::Unknown)
        }
    } else {
        Err(DecodingError::Unknown)
    }
}

fn decode_fence(i: u32) -> (r: Result<Instruction, DecodingError>)
    ensures
        r == spec_decode_fence(i),
{
    if (i >> 12) & 7 == 0 {
        Ok(Instruction::Fence(IType(i)))
    } else {
        Err(DecodingError::Unknown)
    }
}

} // verus!
