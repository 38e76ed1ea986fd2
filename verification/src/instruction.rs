use vstd::prelude::*;

use crate::bits::spec_sign_shrink;
use crate::register::{register_index, Register};
use crate::types::{
    btype_word, itype_word, jtype_word, rtype_word, stype_word, utype_word, word_funct3,
    word_funct5, word_funct6, word_funct7, word_itype_imm, word_opcode, word_quadrant, word_rd,
    word_rs1, BType, IType, JType, RType, SType, UType,
};

verus! {

/// A decoded instruction: one variant for each supported mnemonic, each
/// wrapping the format value that holds its 32-bit encoding. Two
/// instructions are equal exactly when their encodings are equal.
#[derive(Clone, Copy, Debug, Eq, Hash, PartialEq, Structural)]
pub enum Instruction {
    Lui(UType),
    Auipc(UType),
    Jal(JType),
    Jalr(IType),
    Beq(BType),
    Bne(BType),
    Blt(BType),
    Bge(BType),
    Bltu(BType),
    Bgeu(BType),
    Lb(IType),
    Lh(IType),
    Lw(IType),
    Ld(IType),
    Lbu(IType),
    Lhu(IType),
    Lwu(IType),
    Sb(SType),
    Sh(SType),
    Sw(SType),
    Sd(SType),
    Fence(IType),
    Addi(IType),
    Slti(IType),
    Sltiu(IType),
    Xori(IType),
    Ori(IType),
    Andi(IType),
    Slli(IType),
    Srli(IType),
    Srai(IType),
    Addiw(IType),
    Slliw(IType),
    Srliw(IType),
    Sraiw(IType),
    Add(RType),
    Sub(RType),
    Sll(RType),
    Slt(RType),
    Sltu(RType),
    Xor(RType),
    Srl(RType),
    Sra(RType),
    Or(RType),
    And(RType),
    Mul(RType),
    Mulh(RType),
    Mulhsu(RType),
    Mulhu(RType),
    Div(RType),
    Divu(RType),
    Rem(RType),
    Remu(RType),
    Addw(RType),
    Subw(RType),
    Sllw(RType),
    Srlw(RType),
    Sraw(RType),
    Mulw(RType),
    Divw(RType),
    Divuw(RType),
    Remw(RType),
    Remuw(RType),
    Ecall(IType),
    Ebreak(IType),
    Lrw(RType),
    Scw(RType),
    Amoswapw(RType),
    Amoaddw(RType),
    Amoxorw(RType),
    Amoandw(RType),
    Amoorw(RType),
    Amominw(RType),
    Amomaxw(RType),
    Amominuw(RType),
    Amomaxuw(RType),
    Lrd(RType),
    Scd(RType),
    Amoswapd(RType),
    Amoaddd(RType),
    Amoxord(RType),
    Amoandd(RType),
    Amoord(RType),
    Amomind(RType),
    Amomaxd(RType),
    Amominud(RType),
    Amomaxud(RType),
}

/// The 32-bit encoding that an instruction wraps.
pub open spec fn instruction_word(i: Instruction) -> u32 {
    match i {
        Instruction::Lui(t) => t.0,
        Instruction::Auipc(t) => t.0,
        Instruction::Jal(t) => t.0,
        Instruction::Jalr(t) => t.0,
        Instruction::Beq(t) => t.0,
        Instruction::Bne(t) => t.0,
        Instruction::Blt(t) => t.0,
        Instruction::Bge(t) => t.0,
        Instruction::Bltu(t) => t.0,
        Instruction::Bgeu(t) => t.0,
        Instruction::Lb(t) => t.0,
        Instruction::Lh(t) => t.0,
        Instruction::Lw(t) => t.0,
        Instruction::Ld(t) => t.0,
        Instruction::Lbu(t) => t.0,
        Instruction::Lhu(t) => t.0,
        Instruction::Lwu(t) => t.0,
        Instruction::Sb(t) => t.0,
        Instruction::Sh(t) => t.0,
        Instruction::Sw(t) => t.0,
        Instruction::Sd(t) => t.0,
        Instruction::Fence(t) => t.0,
        Instruction::Addi(t) => t.0,
        Instruction::Slti(t) => t.0,
        Instruction::Sltiu(t) => t.0,
        Instruction::Xori(t) => t.0,
        Instruction::Ori(t) => t.0,
        Instruction::Andi(t) => t.0,
        Instruction::Slli(t) => t.0,
        Instruction::Srli(t) => t.0,
        Instruction::Srai(t) => t.0,
        Instruction::Addiw(t) => t.0,
        Instruction::Slliw(t) => t.0,
        Instruction::Srliw(t) => t.0,
        Instruction::Sraiw(t) => t.0,
        Instruction::Add(t) => t.0,
        Instruction::Sub(t) => t.0,
        Instruction::Sll(t) => t.0,
        Instruction::Slt(t) => t.0,
        Instruction::Sltu(t) => t.0,
        Instruction::Xor(t) => t.0,
        Instruction::Srl(t) => t.0,
        Instruction::Sra(t) => t.0,
        Instruction::Or(t) => t.0,
        Instruction::And(t) => t.0,
        Instruction::Mul(t) => t.0,
        Instruction::Mulh(t) => t.0,
        Instruction::Mulhsu(t) => t.0,
        Instruction::Mulhu(t) => t.0,
        Instruction::Div(t) => t.0,
        Instruction::Divu(t) => t.0,
        Instruction::Rem(t) => t.0,
        Instruction::Remu(t) => t.0,
        Instruction::Addw(t) => t.0,
        Instruction::Subw(t) => t.0,
        Instruction::Sllw(t) => t.0,
        Instruction::Srlw(t) => t.0,
        Instruction::Sraw(t) => t.0,
        Instruction::Mulw(t) => t.0,
        Instruction::Divw(t) => t.0,
        Instruction::Divuw(t) => t.0,
        Instruction::Remw(t) => t.0,
        Instruction::Remuw(t) => t.0,
        Instruction::Ecall(t) => t.0,
        Instruction::Ebreak(t) => t.0,
        Instruction::Lrw(t) => t.0,
        Instruction::Scw(t) => t.0,
        Instruction::Amoswapw(t) => t.0,
        Instruction::Amoaddw(t) => t.0,
        Instruction::Amoxorw(t) => t.0,
        Instruction::Amoandw(t) => t.0,
        Instruction::Amoorw(t) => t.0,
        Instruction::Amominw(t) => t.0,
        Instruction::Amomaxw(t) => t.0,
        Instruction::Amominuw(t) => t.0,
        Instruction::Amomaxuw(t) => t.0,
        Instruction::Lrd(t) => t.0,
        Instruction::Scd(t) => t.0,
        Instruction::Amoswapd(t) => t.0,
        Instruction::Amoaddd(t) => t.0,
        Instruction::Amoxord(t) => t.0,
        Instruction::Amoandd(t) => t.0,
        Instruction::Amoord(t) => t.0,
        Instruction::Amomind(t) => t.0,
        Instruction::Amomaxd(t) => t.0,
        Instruction::Amominud(t) => t.0,
        Instruction::Amomaxud(t) => t.0,
    }
}

/// The wrapped word carries the opcode and funct fields that the variant
/// stands for: exactly the condition under which decoding the word gives
/// the instruction back.
pub open spec fn instruction_wf(i: Instruction) -> bool {
    match i {
        Instruction::Lui(t) => word_quadrant(t.0) == 3 && word_opcode(t.0) == 13,
        Instruction::Auipc(t) => word_quadrant(t.0) == 3 && word_opcode(t.0) == 5,
        Instruction::Jal(t) => word_quadrant(t.0) == 3 && word_opcode(t.0) == 27,
        Instruction::Jalr(t) => word_quadrant(t.0) == 3 && word_opcode(t.0) == 25 && word_funct3(t.0) == 0,
        Instruction::Beq(t) => word_quadrant(t.0) == 3 && word_opcode(t.0) == 24 && word_funct3(t.0) == 0,
        Instruction::Bne(t) => word_quadrant(t.0) == 3 && word_opcode(t.0) == 24 && word_funct3(t.0) == 1,
        Instruction::Blt(t) => word_quadrant(t.0) == 3 && word_opcode(t.0) == 24 && word_funct3(t.0) == 4,
        Instruction::Bge(t) => word_quadrant(t.0) == 3 && word_opcode(t.0) == 24 && word_funct3(t.0) == 5,
        Instruction::Bltu(t) => word_quadrant(t.0) == 3 && word_opcode(t.0) == 24 && word_funct3(t.0) == 6,
        Instruction::Bgeu(t) => word_quadrant(t.0) == 3 && word_opcode(t.0) == 24 && word_funct3(t.0) == 7,
        Instruction::Lb(t) => word_quadrant(t.0) == 3 && word_opcode(t.0) == 0 && word_funct3(t.0) == 0,
        Instruction::Lh(t) => word_quadrant(t.0) == 3 && word_opcode(t.0) == 0 && word_funct3(t.0) == 1,
        Instruction::Lw(t) => word_quadrant(t.0) == 3 && word_opcode(t.0) == 0 && word_funct3(t.0) == 2,
        Instruction::Ld(t) => word_quadrant(t.0) == 3 && word_opcode(t.0) == 0 && word_funct3(t.0) == 3,
        Instruction::Lbu(t) => word_quadrant(t.0) == 3 && word_opcode(t.0) == 0 && word_funct3(t.0) == 4,
        Instruction::Lhu(t) => word_quadrant(t.0) == 3 && word_opcode(t.0) == 0 && word_funct3(t.0) == 5,
        Instruction::Lwu(t) => word_quadrant(t.0) == 3 && word_opcode(t.0) == 0 && word_funct3(t.0) == 6,
        Instruction::Sb(t) => word_quadrant(t.0) == 3 && word_opcode(t.0) == 8 && word_funct3(t.0) == 0,
        Instruction::Sh(t) => word_quadrant(t.0) == 3 && word_opcode(t.0) == 8 && word_funct3(t.0) == 1,
        Instruction::Sw(t) => word_quadrant(t.0) == 3 && word_opcode(t.0) == 8 && word_funct3(t.0) == 2,
        Instruction::Sd(t) => word_quadrant(t.0) == 3 && word_opcode(t.0) == 8 && word_funct3(t.0) == 3,
        Instruction::Fence(t) => word_quadrant(t.0) == 3 && word_opcode(t.0) == 3 && word_funct3(t.0) == 0,
        Instruction::Addi(t) => word_quadrant(t.0) == 3 && word_opcode(t.0) == 4 && word_funct3(t.0) == 0,
        Instruction::Slti(t) => word_quadrant(t.0) == 3 && word_opcode(t.0) == 4 && word_funct3(t.0) == 2,
        Instruction::Sltiu(t) => word_quadrant(t.0) == 3 && word_opcode(t.0) == 4 && word_funct3(t.0) == 3,
        Instruction::Xori(t) => word_quadrant(t.0) == 3 && word_opcode(t.0) == 4 && word_funct3(t.0) == 4,
        Instruction::Ori(t) => word_quadrant(t.0) == 3 && word_opcode(t.0) == 4 && word_funct3(t.0) == 6,
        Instruction::Andi(t) => word_quadrant(t.0) == 3 && word_opcode(t.0) == 4 && word_funct3(t.0) == 7,
        Instruction::Slli(t) => word_quadrant(t.0) == 3 && word_opcode(t.0) == 4 && word_funct3(t.0) == 1 && word_funct6(t.0) == 0,
        Instruction::Srli(t) => word_quadrant(t.0) == 3 && word_opcode(t.0) == 4 && word_funct3(t.0) == 5 && word_funct6(t.0) == 0,
        Instruction::Srai(t) => word_quadrant(t.0) == 3 && word_opcode(t.0) == 4 && word_funct3(t.0) == 5 && word_funct6(t.0) == 16,
        Instruction::Addiw(t) => word_quadrant(t.0) == 3 && word_opcode(t.0) == 6 && word_funct3(t.0) == 0,
        Instruction::Slliw(t) => word_quadrant(t.0) == 3 && word_opcode(t.0) == 6 && word_funct3(t.0) == 1 && word_funct7(t.0) == 0,
        Instruction::Srliw(t) => word_quadrant(t.0) == 3 && word_opcode(t.0) == 6 && word_funct3(t.0) == 5 && word_funct7(t.0) == 0,
        Instruction::Sraiw(t) => word_quadrant(t.0) == 3 && word_opcode(t.0) == 6 && word_funct3(t.0) == 5 && word_funct7(t.0) == 32,
        Instruction::Add(t) => word_quadrant(t.0) == 3 && word_opcode(t.0) == 12 && word_funct3(t.0) == 0 && word_funct7(t.0) == 0,
        Instruction::Sub(t) => word_quadrant(t.0) == 3 && word_opcode(t.0) == 12 && word_funct3(t.0) == 0 && word_funct7(t.0) == 32,
        Instruction::Sll(t) => word_quadrant(t.0) == 3 && word_opcode(t.0) == 12 && word_funct3(t.0) == 1 && word_funct7(t.0) == 0,
        Instruction::Slt(t) => word_quadrant(t.0) == 3 && word_opcode(t.0) == 12 && word_funct3(t.0) == 2 && word_funct7(t.0) == 0,
        Instruction::Sltu(t) => word_quadrant(t.0) == 3 && word_opcode(t.0) == 12 && word_funct3(t.0) == 3 && word_funct7(t.0) == 0,
        Instruction::Xor(t) => word_quadrant(t.0) == 3 && word_opcode(t.0) == 12 && word_funct3(t.0) == 4 && word_funct7(t.0) == 0,
        Instruction::Srl(t) => word_quadrant(t.0) == 3 && word_opcode(t.0) == 12 && word_funct3(t.0) == 5 && word_funct7(t.0) == 0,
        Instruction::Sra(t) => word_quadrant(t.0) == 3 && word_opcode(t.0) == 12 && word_funct3(t.0) == 5 && word_funct7(t.0) == 32,
        Instruction::Or(t) => word_quadrant(t.0) == 3 && word_opcode(t.0) == 12 && word_funct3(t.0) == 6 && word_funct7(t.0) == 0,
        Instruction::And(t) => word_quadrant(t.0) == 3 && word_opcode(t.0) == 12 && word_funct3(t.0) == 7 && word_funct7(t.0) == 0,
        Instruction::Mul(t) => word_quadrant(t.0) == 3 && word_opcode(t.0) == 12 && word_funct3(t.0) == 0 && word_funct7(t.0) == 1,
        Instruction::Mulh(t) => word_quadrant(t.0) == 3 && word_opcode(t.0) == 12 && word_funct3(t.0) == 1 && word_funct7(t.0) == 1,
        Instruction::Mulhsu(t) => word_quadrant(t.0) == 3 && word_opcode(t.0) == 12 && word_funct3(t.0) == 2 && word_funct7(t.0) == 1,
        Instruction::Mulhu(t) => word_quadrant(t.0) == 3 && word_opcode(t.0) == 12 && word_funct3(t.0) == 3 && word_funct7(t.0) == 1,
        Instruction::Div(t) => word_quadrant(t.0) == 3 && word_opcode(t.0) == 12 && word_funct3(t.0) == 4 && word_funct7(t.0) == 1,
        Instruction::Divu(t) => word_quadrant(t.0) == 3 && word_opcode(t.0) == 12 && word_funct3(t.0) == 5 && word_funct7(t.0) == 1,
        Instruction::Rem(t) => word_quadrant(t.0) == 3 && word_opcode(t.0) == 12 && word_funct3(t.0) == 6 && word_funct7(t.0) == 1,
        Instruction::Remu(t) => word_quadrant(t.0) == 3 && word_opcode(t.0) == 12 && word_funct3(t.0) == 7 && word_funct7(t.0) == 1,
        Instruction::Addw(t) => word_quadrant(t.0) == 3 && word_opcode(t.0) == 14 && word_funct3(t.0) == 0 && word_funct7(t.0) == 0,
        Instruction::Subw(t) => word_quadrant(t.0) == 3 && word_opcode(t.0) == 14 && word_funct3(t.0) == 0 && word_funct7(t.0) == 32,
        Instruction::Sllw(t) => word_quadrant(t.0) == 3 && word_opcode(t.0) == 14 && word_funct3(t.0) == 1 && word_funct7(t.0) == 0,
        Instruction::Srlw(t) => word_quadrant(t.0) == 3 && word_opcode(t.0) == 14 && word_funct3(t.0) == 5 && word_funct7(t.0) == 0,
        Instruction::Sraw(t) => word_quadrant(t.0) == 3 && word_opcode(t.0) == 14 && word_funct3(t.0) == 5 && word_funct7(t.0) == 32,
        Instruction::Mulw(t) => word_quadrant(t.0) == 3 && word_opcode(t.0) == 14 && word_funct3(t.0) == 0 && word_funct7(t.0) == 1,
        Instruction::Divw(t) => word_quadrant(t.0) == 3 && word_opcode(t.0) == 14 && word_funct3(t.0) == 4 && word_funct7(t.0) == 1,
        Instruction::Divuw(t) => word_quadrant(t.0) == 3 && word_opcode(t.0) == 14 && word_funct3(t.0) == 5 && word_funct7(t.0) == 1,
        Instruction::Remw(t) => word_quadrant(t.0) == 3 && word_opcode(t.0) == 14 && word_funct3(t.0) == 6 && word_funct7(t.0) == 1,
        Instruction::Remuw(t) => word_quadrant(t.0) == 3 && word_opcode(t.0) == 14 && word_funct3(t.0) == 7 && word_funct7(t.0) == 1,
        Instruction::Ecall(t) => word_quadrant(t.0) == 3 && word_opcode(t.0) == 28 && word_funct3(t.0) == 0 && word_rd(t.0) == 0 && word_rs1(t.0) == 0 && word_itype_imm(t.0) == 0,
        Instruction::Ebreak(t) => word_quadrant(t.0) == 3 && word_opcode(t.0) == 28 && word_funct3(t.0) == 0 && word_rd(t.0) == 0 && word_rs1(t.0) == 0 && word_itype_imm(t.0) == 1,
        Instruction::Lrw(t) => word_quadrant(t.0) == 3 && word_opcode(t.0) == 11 && word_funct3(t.0) == 2 && word_funct5(t.0) == 2,
        Instruction::Scw(t) => word_quadrant(t.0) == 3 && word_opcode(t.0) == 11 && word_funct3(t.0) == 2 && word_funct5(t.0) == 3,
        Instruction::Amoswapw(t) => word_quadrant(t.0) == 3 && word_opcode(t.0) == 11 && word_funct3(t.0) == 2 && word_funct5(t.0) == 1,
        Instruction::Amoaddw(t) => word_quadrant(t.0) == 3 && word_opcode(t.0) == 11 && word_funct3(t.0) == 2 && word_funct5(t.0) == 0,
        Instruction::Amoxorw(t) => word_quadrant(t.0) == 3 && word_opcode(t.0) == 11 && word_funct3(t.0) == 2 && word_funct5(t.0) == 4,
        Instruction::Amoandw(t) => word_quadrant(t.0) == 3 && word_opcode(t.0) == 11 && word_funct3(t.0) == 2 && word_funct5(t.0) == 12,
        Instruction::Amoorw(t) => word_quadrant(t.0) == 3 && word_opcode(t.0) == 11 && word_funct3(t.0) == 2 && word_funct5(t.0) == 8,
        Instruction::Amominw(t) => word_quadrant(t.0) == 3 && word_opcode(t.0) == 11 && word_funct3(t.0) == 2 && word_funct5(t.0) == 16,
        Instruction::Amomaxw(t) => word_quadrant(t.0) == 3 && word_opcode(t.0) == 11 && word_funct3(t.0) == 2 && word_funct5(t.0) == 20,
        Instruction::Amominuw(t) => word_quadrant(t.0) == 3 && word_opcode(t.0) == 11 && word_funct3(t.0) == 2 && word_funct5(t.0) == 24,
        Instruction::Amomaxuw(t) => word_quadrant(t.0) == 3 && word_opcode(t.0) == 11 && word_funct3(t.0) == 2 && word_funct5(t.0) == 28,
        Instruction::Lrd(t) => word_quadrant(t.0) == 3 && word_opcode(t.0) == 11 && word_funct3(t.0) == 3 && word_funct5(t.0) == 2,
        Instruction::Scd(t) => word_quadrant(t.0) == 3 && word_opcode(t.0) == 11 && word_funct3(t.0) == 3 && word_funct5(t.0) == 3,
        Instruction::Amoswapd(t) => word_quadrant(t.0) == 3 && word_opcode(t.0) == 11 && word_funct3(t.0) == 3 && word_funct5(t.0) == 1,
        Instruction::Amoaddd(t) => word_quadrant(t.0) == 3 && word_opcode(t.0) == 11 && word_funct3(t.0) == 3 && word_funct5(t.0) == 0,
        Instruction::Amoxord(t) => word_quadrant(t.0) == 3 && word_opcode(t.0) == 11 && word_funct3(t.0) == 3 && word_funct5(t.0) == 4,
        Instruction::Amoandd(t) => word_quadrant(t.0) == 3 && word_opcode(t.0) == 11 && word_funct3(t.0) == 3 && word_funct5(t.0) == 12,
        Instruction::Amoord(t) => word_quadrant(t.0) == 3 && word_opcode(t.0) == 11 && word_funct3(t.0) == 3 && word_funct5(t.0) == 8,
        Instruction::Amomind(t) => word_quadrant(t.0) == 3 && word_opcode(t.0) == 11 && word_funct3(t.0) == 3 && word_funct5(t.0) == 16,
        Instruction::Amomaxd(t) => word_quadrant(t.0) == 3 && word_opcode(t.0) == 11 && word_funct3(t.0) == 3 && word_funct5(t.0) == 20,
        Instruction::Amominud(t) => word_quadrant(t.0) == 3 && word_opcode(t.0) == 11 && word_funct3(t.0) == 3 && word_funct5(t.0) == 24,
        Instruction::Amomaxud(t) => word_quadrant(t.0) == 3 && word_opcode(t.0) == 11 && word_funct3(t.0) == 3 && word_funct5(t.0) == 28,
    }
}
// Opcodes, funct3 and funct7 values of the supported mnemonics.
const OP_LD: u32 = 3;
const OP_IMM: u32 = 19;
const OP_IMM32: u32 = 27;
const OP_SD: u32 = 35;
const OP_OP: u32 = 51;
const OP_OP32: u32 = 59;
const OP_LUI: u32 = 55;
const OP_AUIPC: u32 = 23;
const OP_BRANCH: u32 = 99;
const OP_JALR: u32 = 103;
const OP_JAL: u32 = 111;
const OP_SYSTEM: u32 = 115;
const OP_AMO: u32 = 47;
const OP_FENCE: u32 = 15;
const F3_ADDI: u32 = 0;
const F3_SLTI: u32 = 2;
const F3_SLTIU: u32 = 3;
const F3_XORI: u32 = 4;
const F3_ORI: u32 = 6;
const F3_ANDI: u32 = 7;
const F3_SLLI: u32 = 1;
const F3_SRLI_SRAI: u32 = 5;
const F3_ADDIW: u32 = 0;
const F3_SLLIW: u32 = 1;
const F3_SRLIW_SRAIW: u32 = 5;
const F3_ADD_ADDW: u32 = 0;
const F3_SUB_SUBW: u32 = 0;
const F3_SLL_SLLW: u32 = 1;
const F3_SLT: u32 = 2;
const F3_SLTU: u32 = 3;
const F3_XOR: u32 = 4;
const F3_SRL_SRLW: u32 = 5;
const F3_SRA_SRAW: u32 = 5;
const F3_OR: u32 = 6;
const F3_AND: u32 = 7;
const F3_MUL_MULW: u32 = 0;
const F3_MULH: u32 = 1;
const F3_MULHSU: u32 = 2;
const F3_MULHU: u32 = 3;
const F3_DIV_DIVW: u32 = 4;
const F3_DIVU_DIVUW: u32 = 5;
const F3_REM_REMW: u32 = 6;
const F3_REMU_REMUW: u32 = 7;
const F3_LB: u32 = 0;
const F3_LH: u32 = 1;
const F3_LW: u32 = 2;
const F3_LD: u32 = 3;
const F3_LBU: u32 = 4;
const F3_LHU: u32 = 5;
const F3_LWU: u32 = 6;
const F3_SB: u32 = 0;
const F3_SH: u32 = 1;
const F3_SW: u32 = 2;
const F3_SD: u32 = 3;
const F3_BEQ: u32 = 0;
const F3_BNE: u32 = 1;
const F3_BLT: u32 = 4;
const F3_BGE: u32 = 5;
const F3_BLTU: u32 = 6;
const F3_BGEU: u32 = 7;
const F3_JALR: u32 = 0;
const F3_SYSTEM: u32 = 0;
const F3_AMO32: u32 = 2;
const F3_AMO64: u32 = 3;
const F3_FENCE: u32 = 0;
const F7_ADD_ADDW: u32 = 0;
const F7_SUB_SUBW: u32 = 32;
const F7_SLL_SLLW: u32 = 0;
const F7_SLT: u32 = 0;
const F7_SLTU: u32 = 0;
const F7_XOR: u32 = 0;
const F7_SRL_SRLW: u32 = 0;
const F7_SRA_SRAW: u32 = 32;
const F7_OR: u32 = 0;
const F7_AND: u32 = 0;
const F7_MUL_MULW: u32 = 1;
const F7_MULH: u32 = 1;
const F7_MULHSU: u32 = 1;
const F7_MULHU: u32 = 1;
const F7_DIV_DIVW: u32 = 1;
const F7_DIVU_DIVUW: u32 = 1;
const F7_REM_REMW: u32 = 1;
const F7_REMU_REMUW: u32 = 1;
const F7_SLLIW: u32 = 0;
const F7_SRLIW: u32 = 0;
const F7_SRAIW: u32 = 32;
const F7_LRW_LRD: u32 = 8;
const F7_SCW_SCD: u32 = 12;
const F7_AMOSWAPW_AMOSWAPD: u32 = 4;
const F7_AMOADDW_AMOADDD: u32 = 0;
const F7_AMOXORW_AMOXORD: u32 = 16;
const F7_AMOANDW_AMOANDD: u32 = 48;
const F7_AMOORW_AMOORD: u32 = 32;
const F7_AMOMINW_AMOMIND: u32 = 64;
const F7_AMOMAXW_AMOMAXD: u32 = 80;
const F7_AMOMINUW_AMOMINUD: u32 = 96;
const F7_AMOMAXUW_AMOMAXUD: u32 = 112;

impl Instruction {
    /// Build `add rd, rs1, rs2`.
    pub fn new_add(rd: Register, rs1: Register, rs2: Register) -> (r: Instruction)
        ensures
            (r matches Instruction::Add(t) && t.spec_rd() == rd && t.spec_rs1() == rs1
                && t.spec_rs2() == rs2 && t.0 == rtype_word(0, 0, 51,
                register_index(rd), register_index(rs1), register_index(rs2))),
            instruction_wf(r),
    {
        Instruction::Add(RType::new(F7_ADD_ADDW, F3_ADD_ADDW, OP_OP, rd, rs1, rs2))
    }

    /// Build `sub rd, rs1, rs2`.
    pub fn new_sub(rd: Register, rs1: Register, rs2: Register) -> (r: Instruction)
        ensures
            (r matches Instruction::Sub(t) && t.spec_rd() == rd && t.spec_rs1() == rs1
                && t.spec_rs2() == rs2 && t.0 == rtype_word(32, 0, 51,
                register_index(rd), register_index(rs1), register_index(rs2))),
            instruction_wf(r),
    {
        Instruction::Sub(RType::new(F7_SUB_SUBW, F3_SUB_SUBW, OP_OP, rd, rs1, rs2))
    }

    /// Build `sll rd, rs1, rs2`.
    pub fn new_sll(rd: Register, rs1: Register, rs2: Register) -> (r: Instruction)
        ensures
            (r matches Instruction::Sll(t) && t.spec_rd() == rd && t.spec_rs1() == rs1
                && t.spec_rs2() == rs2 && t.0 == rtype_word(0, 1, 51,
                register_index(rd), register_index(rs1), register_index(rs2))),
            instruction_wf(r),
    {
        Instruction::Sll(RType::new(F7_SLL_SLLW, F3_SLL_SLLW, OP_OP, rd, rs1, rs2))
    }

    /// Build `slt rd, rs1, rs2`.
    pub fn new_slt(rd: Register, rs1: Register, rs2: Register) -> (r: Instruction)
        ensures
            (r matches Instruction::Slt(t) && t.spec_rd() == rd && t.spec_rs1() == rs1
                && t.spec_rs2() == rs2 && t.0 == rtype_word(0, 2, 51,
                register_index(rd), register_index(rs1), register_index(rs2))),
            instruction_wf(r),
    {
        Instruction::Slt(RType::new(F7_SLT, F3_SLT, OP_OP, rd, rs1, rs2))
    }

    /// Build `sltu rd, rs1, rs2`.
    pub fn new_sltu(rd: Register, rs1: Register, rs2: Register) -> (r: Instruction)
        ensures
            (r matches Instruction::Sltu(t) && t.spec_rd() == rd && t.spec_rs1() == rs1
                && t.spec_rs2() == rs2 && t.0 == rtype_word(0, 3, 51,
                register_index(rd), register_index(rs1), register_index(rs2))),
            instruction_wf(r),
    {
        Instruction::Sltu(RType::new(F7_SLTU, F3_SLTU, OP_OP, rd, rs1, rs2))
    }

    /// Build `xor rd, rs1, rs2`.
    pub fn new_xor(rd: Register, rs1: Register, rs2: Register) -> (r: Instruction)
        ensures
            (r matches Instruction::Xor(t) && t.spec_rd() == rd && t.spec_rs1() == rs1
                && t.spec_rs2() == rs2 && t.0 == rtype_word(0, 4, 51,
                register_index(rd), register_index(rs1), register_index(rs2))),
            instruction_wf(r),
    {
        Instruction::Xor(RType::new(F7_XOR, F3_XOR, OP_OP, rd, rs1, rs2))
    }

    /// Build `srl rd, rs1, rs2`.
    pub fn new_srl(rd: Register, rs1: Register, rs2: Register) -> (r: Instruction)
        ensures
            (r matches Instruction::Srl(t) && t.spec_rd() == rd && t.spec_rs1() == rs1
                && t.spec_rs2() == rs2 && t.0 == rtype_word(0, 5, 51,
                register_index(rd), register_index(rs1), register_index(rs2))),
            instruction_wf(r),
    {
        Instruction::Srl(RType::new(F7_SRL_SRLW, F3_SRL_SRLW, OP_OP, rd, rs1, rs2))
    }

    /// Build `sra rd, rs1, rs2`.
    pub fn new_sra(rd: Register, rs1: Register, rs2: Register) -> (r: Instruction)
        ensures
            (r matches Instruction::Sra(t) && t.spec_rd() == rd && t.spec_rs1() == rs1
                && t.spec_rs2() == rs2 && t.0 == rtype_word(32, 5, 51,
                register_index(rd), register_index(rs1), register_index(rs2))),
            instruction_wf(r),
    {
        Instruction::Sra(RType::new(F7_SRA_SRAW, F3_SRA_SRAW, OP_OP, rd, rs1, rs2))
    }

    /// Build `or rd, rs1, rs2`.
    pub fn new_or(rd: Register, rs1: Register, rs2: Register) -> (r: Instruction)
        ensures
            (r matches Instruction::Or(t) && t.spec_rd() == rd && t.spec_rs1() == rs1
                && t.spec_rs2() == rs2 && t.0 == rtype_word(0, 6, 51,
                register_index(rd), register_index(rs1), register_index(rs2))),
            instruction_wf(r),
    {
        Instruction::Or(RType::new(F7_OR, F3_OR, OP_OP, rd, rs1, rs2))
    }

    /// Build `and rd, rs1, rs2`.
    pub fn new_and(rd: Register, rs1: Register, rs2: Register) -> (r: Instruction)
        ensures
            (r matches Instruction::And(t) && t.spec_rd() == rd && t.spec_rs1() == rs1
                && t.spec_rs2() == rs2 && t.0 == rtype_word(0, 7, 51,
                register_index(rd), register_index(rs1), register_index(rs2))),
            instruction_wf(r),
    {
        Instruction::And(RType::new(F7_AND, F3_AND, OP_OP, rd, rs1, rs2))
    }

    /// Build `mul rd, rs1, rs2`.
    pub fn new_mul(rd: Register, rs1: Register, rs2: Register) -> (r: Instruction)
        ensures
            (r matches Instruction::Mul(t) && t.spec_rd() == rd && t.spec_rs1() == rs1
                && t.spec_rs2() == rs2 && t.0 == rtype_word(1, 0, 51,
                register_index(rd), register_index(rs1), register_index(rs2))),
            instruction_wf(r),
    {
        Instruction::Mul(RType::new(F7_MUL_MULW, F3_MUL_MULW, OP_OP, rd, rs1, rs2))
    }

    /// Build `mulh rd, rs1, rs2`.
    pub fn new_mulh(rd: Register, rs1: Register, rs2: Register) -> (r: Instruction)
        ensures
            (r matches Instruction::Mulh(t) && t.spec_rd() == rd && t.spec_rs1() == rs1
                && t.spec_rs2() == rs2 && t.0 == rtype_word(1, 1, 51,
                register_index(rd), register_index(rs1), register_index(rs2))),
            instruction_wf(r),
    {
        Instruction::Mulh(RType::new(F7_MULH, F3_MULH, OP_OP, rd, rs1, rs2))
    }

    /// Build `mulhsu rd, rs1, rs2`.
    pub fn new_mulhsu(rd: Register, rs1: Register, rs2: Register) -> (r: Instruction)
        ensures
            (r matches Instruction::Mulhsu(t) && t.spec_rd() == rd && t.spec_rs1() == rs1
                && t.spec_rs2() == rs2 && t.0 == rtype_word(1, 2, 51,
                register_index(rd), register_index(rs1), register_index(rs2))),
            instruction_wf(r),
    {
        Instruction::Mulhsu(RType::new(F7_MULHSU, F3_MULHSU, OP_OP, rd, rs1, rs2))
    }

    /// Build `mulhu rd, rs1, rs2`.
    pub fn new_mulhu(rd: Register, rs1: Register, rs2: Register) -> (r: Instruction)
        ensures
            (r matches Instruction::Mulhu(t) && t.spec_rd() == rd && t.spec_rs1() == rs1
                && t.spec_rs2() == rs2 && t.0 == rtype_word(1, 3, 51,
                register_index(rd), register_index(rs1), register_index(rs2))),
            instruction_wf(r),
    {
        Instruction::Mulhu(RType::new(F7_MULHU, F3_MULHU, OP_OP, rd, rs1, rs2))
    }

    /// Build `div rd, rs1, rs2`.
    pub fn new_div(rd: Register, rs1: Register, rs2: Register) -> (r: Instruction)
        ensures
            (r matches Instruction::Div(t) && t.spec_rd() == rd && t.spec_rs1() == rs1
                && t.spec_rs2() == rs2 && t.0 == rtype_word(1, 4, 51,
                register_index(rd), register_index(rs1), register_index(rs2))),
            instruction_wf(r),
    {
        Instruction::Div(RType::new(F7_DIV_DIVW, F3_DIV_DIVW, OP_OP, rd, rs1, rs2))
    }

    /// Build `divu rd, rs1, rs2`.
    pub fn new_divu(rd: Register, rs1: Register, rs2: Register) -> (r: Instruction)
        ensures
            (r matches Instruction::Divu(t) && t.spec_rd() == rd && t.spec_rs1() == rs1
                && t.spec_rs2() == rs2 && t.0 == rtype_word(1, 5, 51,
                register_index(rd), register_index(rs1), register_index(rs2))),
            instruction_wf(r),
    {
        Instruction::Divu(RType::new(F7_DIVU_DIVUW, F3_DIVU_DIVUW, OP_OP, rd, rs1, rs2))
    }

    /// Build `rem rd, rs1, rs2`.
    pub fn new_rem(rd: Register, rs1: Register, rs2: Register) -> (r: Instruction)
        ensures
            (r matches Instruction::Rem(t) && t.spec_rd() == rd && t.spec_rs1() == rs1
                && t.spec_rs2() == rs2 && t.0 == rtype_word(1, 6, 51,
                register_index(rd), register_index(rs1), register_index(rs2))),
            instruction_wf(r),
    {
        Instruction::Rem(RType::new(F7_REM_REMW, F3_REM_REMW, OP_OP, rd, rs1, rs2))
    }

    /// Build `remu rd, rs1, rs2`.
    pub fn new_remu(rd: Register, rs1: Register, rs2: Register) -> (r: Instruction)
        ensures
            (r matches Instruction::Remu(t) && t.spec_rd() == rd && t.spec_rs1() == rs1
                && t.spec_rs2() == rs2 && t.0 == rtype_word(1, 7, 51,
                register_index(rd), register_index(rs1), register_index(rs2))),
            instruction_wf(r),
    {
        Instruction::Remu(RType::new(F7_REMU_REMUW, F3_REMU_REMUW, OP_OP, rd, rs1, rs2))
    }

    /// Build `addw rd, rs1, rs2`.
    pub fn new_addw(rd: Register, rs1: Register, rs2: Register) -> (r: Instruction)
        ensures
            (r matches Instruction::Addw(t) && t.spec_rd() == rd && t.spec_rs1() == rs1
                && t.spec_rs2() == rs2 && t.0 == rtype_word(0, 0, 59,
                register_index(rd), register_index(rs1), register_index(rs2))),
            instruction_wf(r),
    {
        Instruction::Addw(RType::new(F7_ADD_ADDW, F3_ADD_ADDW, OP_OP32, rd, rs1, rs2))
    }

    /// Build `subw rd, rs1, rs2`.
    pub fn new_subw(rd: Register, rs1: Register, rs2: Register) -> (r: Instruction)
        ensures
            (r matches Instruction::Subw(t) && t.spec_rd() == rd && t.spec_rs1() == rs1
                && t.spec_rs2() == rs2 && t.0 == rtype_word(32, 0, 59,
                register_index(rd), register_index(rs1), register_index(rs2))),
            instruction_wf(r),
    {
        Instruction::Subw(RType::new(F7_SUB_SUBW, F3_SUB_SUBW, OP_OP32, rd, rs1, rs2))
    }

    /// Build `sllw rd, rs1, rs2`.
    pub fn new_sllw(rd: Register, rs1: Register, rs2: Register) -> (r: Instruction)
        ensures
            (r matches Instruction::Sllw(t) && t.spec_rd() == rd && t.spec_rs1() == rs1
                && t.spec_rs2() == rs2 && t.0 == rtype_word(0, 1, 59,
                register_index(rd), register_index(rs1), register_index(rs2))),
            instruction_wf(r),
    {
        Instruction::Sllw(RType::new(F7_SLL_SLLW, F3_SLL_SLLW, OP_OP32, rd, rs1, rs2))
    }

    /// Build `srlw rd, rs1, rs2`.
    pub fn new_srlw(rd: Register, rs1: Register, rs2: Register) -> (r: Instruction)
        ensures
            (r matches Instruction::Srlw(t) && t.spec_rd() == rd && t.spec_rs1() == rs1
                && t.spec_rs2() == rs2 && t.0 == rtype_word(0, 5, 59,
                register_index(rd), register_index(rs1), register_index(rs2))),
            instruction_wf(r),
    {
        Instruction::Srlw(RType::new(F7_SRL_SRLW, F3_SRL_SRLW, OP_OP32, rd, rs1, rs2))
    }

    /// Build `sraw rd, rs1, rs2`.
    pub fn new_sraw(rd: Register, rs1: Register, rs2: Register) -> (r: Instruction)
        ensures
            (r matches Instruction::Sraw(t) && t.spec_rd() == rd && t.spec_rs1() == rs1
                && t.spec_rs2() == rs2 && t.0 == rtype_word(32, 5, 59,
                register_index(rd), register_index(rs1), register_index(rs2))),
            instruction_wf(r),
    {
        Instruction::Sraw(RType::new(F7_SRA_SRAW, F3_SRA_SRAW, OP_OP32, rd, rs1, rs2))
    }

    /// Build `mulw rd, rs1, rs2`.
    pub fn new_mulw(rd: Register, rs1: Register, rs2: Register) -> (r: Instruction)
        ensures
            (r matches Instruction::Mulw(t) && t.spec_rd() == rd && t.spec_rs1() == rs1
                && t.spec_rs2() == rs2 && t.0 == rtype_word(1, 0, 59,
                register_index(rd), register_index(rs1), register_index(rs2))),
            instruction_wf(r),
    {
        Instruction::Mulw(RType::new(F7_MUL_MULW, F3_MUL_MULW, OP_OP32, rd, rs1, rs2))
    }

    /// Build `divw rd, rs1, rs2`.
    pub fn new_divw(rd: Register, rs1: Register, rs2: Register) -> (r: Instruction)
        ensures
            (r matches Instruction::Divw(t) && t.spec_rd() == rd && t.spec_rs1() == rs1
                && t.spec_rs2() == rs2 && t.0 == rtype_word(1, 4, 59,
                register_index(rd), register_index(rs1), register_index(rs2))),
            instruction_wf(r),
    {
        Instruction::Divw(RType::new(F7_DIV_DIVW, F3_DIV_DIVW, OP_OP32, rd, rs1, rs2))
    }

    /// Build `divuw rd, rs1, rs2`.
    pub fn new_divuw(rd: Register, rs1: Register, rs2: Register) -> (r: Instruction)
        ensures
            (r matches Instruction::Divuw(t) && t.spec_rd() == rd && t.spec_rs1() == rs1
                && t.spec_rs2() == rs2 && t.0 == rtype_word(1, 5, 59,
                register_index(rd), register_index(rs1), register_index(rs2))),
            instruction_wf(r),
    {
        Instruction::Divuw(RType::new(F7_DIVU_DIVUW, F3_DIVU_DIVUW, OP_OP32, rd, rs1, rs2))
    }

    /// Build `remw rd, rs1, rs2`.
    pub fn new_remw(rd: Register, rs1: Register, rs2: Register) -> (r: Instruction)
        ensures
            (r matches Instruction::Remw(t) && t.spec_rd() == rd && t.spec_rs1() == rs1
                && t.spec_rs2() == rs2 && t.0 == rtype_word(1, 6, 59,
                register_index(rd), register_index(rs1), register_index(rs2))),
            instruction_wf(r),
    {
        Instruction::Remw(RType::new(F7_REM_REMW, F3_REM_REMW, OP_OP32, rd, rs1, rs2))
    }

    /// Build `remuw rd, rs1, rs2`.
    pub fn new_remuw(rd: Register, rs1: Register, rs2: Register) -> (r: Instruction)
        ensures
            (r matches Instruction::Remuw(t) && t.spec_rd() == rd && t.spec_rs1() == rs1
                && t.spec_rs2() == rs2 && t.0 == rtype_word(1, 7, 59,
                register_index(rd), register_index(rs1), register_index(rs2))),
            instruction_wf(r),
    {
        Instruction::Remuw(RType::new(F7_REMU_REMUW, F3_REMU_REMUW, OP_OP32, rd, rs1, rs2))
    }

    /// Build `lr.w rd, rs2, (rs1)` with aq and rl clear.
    pub fn new_lrw(rd: Register, rs1: Register, rs2: Register) -> (r: Instruction)
        ensures
            (r matches Instruction::Lrw(t) && t.spec_rd() == rd && t.spec_rs1() == rs1
                && t.spec_rs2() == rs2 && t.0 == rtype_word(8, 2, 47,
                register_index(rd), register_index(rs1), register_index(rs2))),
            instruction_wf(r),
    {
        Instruction::Lrw(RType::new(F7_LRW_LRD, F3_AMO32, OP_AMO, rd, rs1, rs2))
    }

    /// Build `sc.w rd, rs2, (rs1)` with aq and rl clear.
    pub fn new_scw(rd: Register, rs1: Register, rs2: Register) -> (r: Instruction)
        ensures
            (r matches Instruction::Scw(t) && t.spec_rd() == rd && t.spec_rs1() == rs1
                && t.spec_rs2() == rs2 && t.0 == rtype_word(12, 2, 47,
                register_index(rd), register_index(rs1), register_index(rs2))),
            instruction_wf(r),
    {
        Instruction::Scw(RType::new(F7_SCW_SCD, F3_AMO32, OP_AMO, rd, rs1, rs2))
    }

    /// Build `amoswap.w rd, rs2, (rs1)` with aq and rl clear.
    pub fn new_amoswapw(rd: Register, rs1: Register, rs2: Register) -> (r: Instruction)
        ensures
            (r matches Instruction::Amoswapw(t) && t.spec_rd() == rd && t.spec_rs1() == rs1
                && t.spec_rs2() == rs2 && t.0 == rtype_word(4, 2, 47,
                register_index(rd), register_index(rs1), register_index(rs2))),
            instruction_wf(r),
    {
        Instruction::Amoswapw(RType::new(F7_AMOSWAPW_AMOSWAPD, F3_AMO32, OP_AMO, rd, rs1, rs2))
    }

    /// Build `amoadd.w rd, rs2, (rs1)` with aq and rl clear.
    pub fn new_amoaddw(rd: Register, rs1: Register, rs2: Register) -> (r: Instruction)
        ensures
            (r matches Instruction::Amoaddw(t) && t.spec_rd() == rd && t.spec_rs1() == rs1
                && t.spec_rs2() == rs2 && t.0 == rtype_word(0, 2, 47,
                register_index(rd), register_index(rs1), register_index(rs2))),
            instruction_wf(r),
    {
        Instruction::Amoaddw(RType::new(F7_AMOADDW_AMOADDD, F3_AMO32, OP_AMO, rd, rs1, rs2))
    }

    /// Build `amoxor.w rd, rs2, (rs1)` with aq and rl clear.
    pub fn new_amoxorw(rd: Register, rs1: Register, rs2: Register) -> (r: Instruction)
        ensures
            (r matches Instruction::Amoxorw(t) && t.spec_rd() == rd && t.spec_rs1() == rs1
                && t.spec_rs2() == rs2 && t.0 == rtype_word(16, 2, 47,
                register_index(rd), register_index(rs1), register_index(rs2))),
            instruction_wf(r),
    {
        Instruction::Amoxorw(RType::new(F7_AMOXORW_AMOXORD, F3_AMO32, OP_AMO, rd, rs1, rs2))
    }

    /// Build `amoand.w rd, rs2, (rs1)` with aq and rl clear.
    pub fn new_amoandw(rd: Register, rs1: Register, rs2: Register) -> (r: Instruction)
        ensures
            (r matches Instruction::Amoandw(t) && t.spec_rd() == rd && t.spec_rs1() == rs1
                && t.spec_rs2() == rs2 && t.0 == rtype_word(48, 2, 47,
                register_index(rd), register_index(rs1), register_index(rs2))),
            instruction_wf(r),
    {
        Instruction::Amoandw(RType::new(F7_AMOANDW_AMOANDD, F3_AMO32, OP_AMO, rd, rs1, rs2))
    }

    /// Build `amoor.w rd, rs2, (rs1)` with aq and rl clear.
    pub fn new_amoorw(rd: Register, rs1: Register, rs2: Register) -> (r: Instruction)
        ensures
            (r matches Instruction::Amoorw(t) && t.spec_rd() == rd && t.spec_rs1() == rs1
                && t.spec_rs2() == rs2 && t.0 == rtype_word(32, 2, 47,
                register_index(rd), register_index(rs1), register_index(rs2))),
            instruction_wf(r),
    {
        Instruction::Amoorw(RType::new(F7_AMOORW_AMOORD, F3_AMO32, OP_AMO, rd, rs1, rs2))
    }

    /// Build `amomin.w rd, rs2, (rs1)` with aq and rl clear.
    pub fn new_amominw(rd: Register, rs1: Register, rs2: Register) -> (r: Instruction)
        ensures
            (r matches Instruction::Amominw(t) && t.spec_rd() == rd && t.spec_rs1() == rs1
                && t.spec_rs2() == rs2 && t.0 == rtype_word(64, 2, 47,
                register_index(rd), register_index(rs1), register_index(rs2))),
            instruction_wf(r),
    {
        Instruction::Amominw(RType::new(F7_AMOMINW_AMOMIND, F3_AMO32, OP_AMO, rd, rs1, rs2))
    }

    /// Build `amomax.w rd, rs2, (rs1)` with aq and rl clear.
    pub fn new_amomaxw(rd: Register, rs1: Register, rs2: Register) -> (r: Instruction)
        ensures
            (r matches Instruction::Amomaxw(t) && t.spec_rd() == rd && t.spec_rs1() == rs1
                && t.spec_rs2() == rs2 && t.0 == rtype_word(80, 2, 47,
                register_index(rd), register_index(rs1), register_index(rs2))),
            instruction_wf(r),
    {
        Instruction::Amomaxw(RType::new(F7_AMOMAXW_AMOMAXD, F3_AMO32, OP_AMO, rd, rs1, rs2))
    }

    /// Build `amominu.w rd, rs2, (rs1)` with aq and rl clear.
    pub fn new_amominuw(rd: Register, rs1: Register, rs2: Register) -> (r: Instruction)
        ensures
            (r matches Instruction::Amominuw(t) && t.spec_rd() == rd && t.spec_rs1() == rs1
                && t.spec_rs2() == rs2 && t.0 == rtype_word(96, 2, 47,
                register_index(rd), register_index(rs1), register_index(rs2))),
            instruction_wf(r),
    {
        Instruction::Amominuw(RType::new(F7_AMOMINUW_AMOMINUD, F3_AMO32, OP_AMO, rd, rs1, rs2))
    }

    /// Build `amomaxu.w rd, rs2, (rs1)` with aq and rl clear.
    pub fn new_amomaxuw(rd: Register, rs1: Register, rs2: Register) -> (r: Instruction)
        ensures
            (r matches Instruction::Amomaxuw(t) && t.spec_rd() == rd && t.spec_rs1() == rs1
                && t.spec_rs2() == rs2 && t.0 == rtype_word(112, 2, 47,
                register_index(rd), register_index(rs1), register_index(rs2))),
            instruction_wf(r),
    {
        Instruction::Amomaxuw(RType::new(F7_AMOMAXUW_AMOMAXUD, F3_AMO32, OP_AMO, rd, rs1, rs2))
    }

    /// Build `lr.d rd, rs2, (rs1)` with aq and rl clear.
    pub fn new_lrd(rd: Register, rs1: Register, rs2: Register) -> (r: Instruction)
        ensures
            (r matches Instruction::Lrd(t) && t.spec_rd() == rd && t.spec_rs1() == rs1
                && t.spec_rs2() == rs2 && t.0 == rtype_word(8, 3, 47,
                register_index(rd), register_index(rs1), register_index(rs2))),
            instruction_wf(r),
    {
        Instruction::Lrd(RType::new(F7_LRW_LRD, F3_AMO64, OP_AMO, rd, rs1, rs2))
    }

    /// Build `sc.d rd, rs2, (rs1)` with aq and rl clear.
    pub fn new_scd(rd: Register, rs1: Register, rs2: Register) -> (r: Instruction)
        ensures
            (r matches Instruction::Scd(t) && t.spec_rd() == rd && t.spec_rs1() == rs1
                && t.spec_rs2() == rs2 && t.0 == rtype_word(12, 3, 47,
                register_index(rd), register_index(rs1), register_index(rs2))),
            instruction_wf(r),
    {
        Instruction::Scd(RType::new(F7_SCW_SCD, F3_AMO64, OP_AMO, rd, rs1, rs2))
    }

    /// Build `amoswap.d rd, rs2, (rs1)` with aq and rl clear.
    pub fn new_amoswapd(rd: Register, rs1: Register, rs2: Register) -> (r: Instruction)
        ensures
            (r matches Instruction::Amoswapd(t) && t.spec_rd() == rd && t.spec_rs1() == rs1
                && t.spec_rs2() == rs2 && t.0 == rtype_word(4, 3, 47,
                register_index(rd), register_index(rs1), register_index(rs2))),
            instruction_wf(r),
    {
        Instruction::Amoswapd(RType::new(F7_AMOSWAPW_AMOSWAPD, F3_AMO64, OP_AMO, rd, rs1, rs2))
    }

    /// Build `amoadd.d rd, rs2, (rs1)` with aq and rl clear.
    pub fn new_amoaddd(rd: Register, rs1: Register, rs2: Register) -> (r: Instruction)
        ensures
            (r matches Instruction::Amoaddd(t) && t.spec_rd() == rd && t.spec_rs1() == rs1
                && t.spec_rs2() == rs2 && t.0 == rtype_word(0, 3, 47,
                register_index(rd), register_index(rs1), register_index(rs2))),
            instruction_wf(r),
    {
        Instruction::Amoaddd(RType::new(F7_AMOADDW_AMOADDD, F3_AMO64, OP_AMO, rd, rs1, rs2))
    }

    /// Build `amoxor.d rd, rs2, (rs1)` with aq and rl clear.
    pub fn new_amoxord(rd: Register, rs1: Register, rs2: Register) -> (r: Instruction)
        ensures
            (r matches Instruction::Amoxord(t) && t.spec_rd() == rd && t.spec_rs1() == rs1
                && t.spec_rs2() == rs2 && t.0 == rtype_word(16, 3, 47,
                register_index(rd), register_index(rs1), register_index(rs2))),
            instruction_wf(r),
    {
        Instruction::Amoxord(RType::new(F7_AMOXORW_AMOXORD, F3_AMO64, OP_AMO, rd, rs1, rs2))
    }

    /// Build `amoand.d rd, rs2, (rs1)` with aq and rl clear.
    pub fn new_amoandd(rd: Register, rs1: Register, rs2: Register) -> (r: Instruction)
        ensures
            (r matches Instruction::Amoandd(t) && t.spec_rd() == rd && t.spec_rs1() == rs1
                && t.spec_rs2() == rs2 && t.0 == rtype_word(48, 3, 47,
                register_index(rd), register_index(rs1), register_index(rs2))),
            instruction_wf(r),
    {
        Instruction::Amoandd(RType::new(F7_AMOANDW_AMOANDD, F3_AMO64, OP_AMO, rd, rs1, rs2))
    }

    /// Build `amoor.d rd, rs2, (rs1)` with aq and rl clear.
    pub fn new_amoord(rd: Register, rs1: Register, rs2: Register) -> (r: Instruction)
        ensures
            (r matches Instruction::Amoord(t) && t.spec_rd() == rd && t.spec_rs1() == rs1
                && t.spec_rs2() == rs2 && t.0 == rtype_word(32, 3, 47,
                register_index(rd), register_index(rs1), register_index(rs2))),
            instruction_wf(r),
    {
        Instruction::Amoord(RType::new(F7_AMOORW_AMOORD, F3_AMO64, OP_AMO, rd, rs1, rs2))
    }

    /// Build `amomin.d rd, rs2, (rs1)` with aq and rl clear.
    pub fn new_amomind(rd: Register, rs1: Register, rs2: Register) -> (r: Instruction)
        ensures
            (r matches Instruction::Amomind(t) && t.spec_rd() == rd && t.spec_rs1() == rs1
                && t.spec_rs2() == rs2 && t.0 == rtype_word(64, 3, 47,
                register_index(rd), register_index(rs1), register_index(rs2))),
            instruction_wf(r),
    {
        Instruction::Amomind(RType::new(F7_AMOMINW_AMOMIND, F3_AMO64, OP_AMO, rd, rs1, rs2))
    }

    /// Build `amomax.d rd, rs2, (rs1)` with aq and rl clear.
    pub fn new_amomaxd(rd: Register, rs1: Register, rs2: Register) -> (r: Instruction)
        ensures
            (r matches Instruction::Amomaxd(t) && t.spec_rd() == rd && t.spec_rs1() == rs1
                && t.spec_rs2() == rs2 && t.0 == rtype_word(80, 3, 47,
                register_index(rd), register_index(rs1), register_index(rs2))),
            instruction_wf(r),
    {
        Instruction::Amomaxd(RType::new(F7_AMOMAXW_AMOMAXD, F3_AMO64, OP_AMO, rd, rs1, rs2))
    }

    /// Build `amominu.d rd, rs2, (rs1)` with aq and rl clear.
    pub fn new_amominud(rd: Register, rs1: Register, rs2: Register) -> (r: Instruction)
        ensures
            (r matches Instruction::Amominud(t) && t.spec_rd() == rd && t.spec_rs1() == rs1
                && t.spec_rs2() == rs2 && t.0 == rtype_word(96, 3, 47,
                register_index(rd), register_index(rs1), register_index(rs2))),
            instruction_wf(r),
    {
        Instruction::Amominud(RType::new(F7_AMOMINUW_AMOMINUD, F3_AMO64, OP_AMO, rd, rs1, rs2))
    }

    /// Build `amomaxu.d rd, rs2, (rs1)` with aq and rl clear.
    pub fn new_amomaxud(rd: Register, rs1: Register, rs2: Register) -> (r: Instruction)
        ensures
            (r matches Instruction::Amomaxud(t) && t.spec_rd() == rd && t.spec_rs1() == rs1
                && t.spec_rs2() == rs2 && t.0 == rtype_word(112, 3, 47,
                register_index(rd), register_index(rs1), register_index(rs2))),
            instruction_wf(r),
    {
        Instruction::Amomaxud(RType::new(F7_AMOMAXUW_AMOMAXUD, F3_AMO64, OP_AMO, rd, rs1, rs2))
    }

    /// Build `addi rd, rs1, immediate`.
    pub fn new_addi(rd: Register, rs1: Register, immediate: i32) -> (r: Instruction)
        requires
            -2048 <= immediate < 2048,
        ensures
            (r matches Instruction::Addi(t) && t.spec_rd() == rd && t.spec_rs1() == rs1
                && t.spec_imm() == immediate && t.0 == itype_word(spec_sign_shrink(
                immediate, 12), 0, 19, register_index(rd), register_index(rs1))),
            instruction_wf(r),
    {
        Instruction::Addi(IType::new(immediate, F3_ADDI, OP_IMM, rd, rs1))
    }

    /// Build `slti rd, rs1, immediate`.
    pub fn new_slti(rd: Register, rs1: Register, immediate: i32) -> (r: Instruction)
        requires
            -2048 <= immediate < 2048,
        ensures
            (r matches Instruction::Slti(t) && t.spec_rd() == rd && t.spec_rs1() == rs1
                && t.spec_imm() == immediate && t.0 == itype_word(spec_sign_shrink(
                immediate, 12), 2, 19, register_index(rd), register_index(rs1))),
            instruction_wf(r),
    {
        Instruction::Slti(IType::new(immediate, F3_SLTI, OP_IMM, rd, rs1))
    }

    /// Build `sltiu rd, rs1, immediate`.
    pub fn new_sltiu(rd: Register, rs1: Register, immediate: i32) -> (r: Instruction)
        requires
            -2048 <= immediate < 2048,
        ensures
            (r matches Instruction::Sltiu(t) && t.spec_rd() == rd && t.spec_rs1() == rs1
                && t.spec_imm() == immediate && t.0 == itype_word(spec_sign_shrink(
                immediate, 12), 3, 19, register_index(rd), register_index(rs1))),
            instruction_wf(r),
    {
        Instruction::Sltiu(IType::new(immediate, F3_SLTIU, OP_IMM, rd, rs1))
    }

    /// Build `xori rd, rs1, immediate`.
    pub fn new_xori(rd: Register, rs1: Register, immediate: i32) -> (r: Instruction)
        requires
            -2048 <= immediate < 2048,
        ensures
            (r matches Instruction::Xori(t) && t.spec_rd() == rd && t.spec_rs1() == rs1
                && t.spec_imm() == immediate && t.0 == itype_word(spec_sign_shrink(
                immediate, 12), 4, 19, register_index(rd), register_index(rs1))),
            instruction_wf(r),
    {
        Instruction::Xori(IType::new(immediate, F3_XORI, OP_IMM, rd, rs1))
    }

    /// Build `ori rd, rs1, immediate`.
    pub fn new_ori(rd: Register, rs1: Register, immediate: i32) -> (r: Instruction)
        requires
            -2048 <= immediate < 2048,
        ensures
            (r matches Instruction::Ori(t) && t.spec_rd() == rd && t.spec_rs1() == rs1
                && t.spec_imm() == immediate && t.0 == itype_word(spec_sign_shrink(
                immediate, 12), 6, 19, register_index(rd), register_index(rs1))),
            instruction_wf(r),
    {
        Instruction::Ori(IType::new(immediate, F3_ORI, OP_IMM, rd, rs1))
    }

    /// Build `andi rd, rs1, immediate`.
    pub fn new_andi(rd: Register, rs1: Register, immediate: i32) -> (r: Instruction)
        requires
            -2048 <= immediate < 2048,
        ensures
            (r matches Instruction::Andi(t) && t.spec_rd() == rd && t.spec_rs1() == rs1
                && t.spec_imm() == immediate && t.0 == itype_word(spec_sign_shrink(
                immediate, 12), 7, 19, register_index(rd), register_index(rs1))),
            instruction_wf(r),
    {
        Instruction::Andi(IType::new(immediate, F3_ANDI, OP_IMM, rd, rs1))
    }

    /// Build `addiw rd, rs1, immediate`.
    pub fn new_addiw(rd: Register, rs1: Register, immediate: i32) -> (r: Instruction)
        requires
            -2048 <= immediate < 2048,
        ensures
            (r matches Instruction::Addiw(t) && t.spec_rd() == rd && t.spec_rs1() == rs1
                && t.spec_imm() == immediate && t.0 == itype_word(spec_sign_shrink(
                immediate, 12), 0, 27, register_index(rd), register_index(rs1))),
            instruction_wf(r),
    {
        Instruction::Addiw(IType::new(immediate, F3_ADDIW, OP_IMM32, rd, rs1))
    }

    /// Build `lb rd, rs1, immediate`.
    pub fn new_lb(rd: Register, rs1: Register, immediate: i32) -> (r: Instruction)
        requires
            -2048 <= immediate < 2048,
        ensures
            (r matches Instruction::Lb(t) && t.spec_rd() == rd && t.spec_rs1() == rs1
                && t.spec_imm() == immediate && t.0 == itype_word(spec_sign_shrink(
                immediate, 12), 0, 3, register_index(rd), register_index(rs1))),
            instruction_wf(r),
    {
        Instruction::Lb(IType::new(immediate, F3_LB, OP_LD, rd, rs1))
    }

    /// Build `lh rd, rs1, immediate`.
    pub fn new_lh(rd: Register, rs1: Register, immediate: i32) -> (r: Instruction)
        requires
            -2048 <= immediate < 2048,
        ensures
            (r matches Instruction::Lh(t) && t.spec_rd() == rd && t.spec_rs1() == rs1
                && t.spec_imm() == immediate && t.0 == itype_word(spec_sign_shrink(
                immediate, 12), 1, 3, register_index(rd), register_index(rs1))),
            instruction_wf(r),
    {
        Instruction::Lh(IType::new(immediate, F3_LH, OP_LD, rd, rs1))
    }

    /// Build `lw rd, rs1, immediate`.
    pub fn new_lw(rd: Register, rs1: Register, immediate: i32) -> (r: Instruction)
        requires
            -2048 <= immediate < 2048,
        ensures
            (r matches Instruction::Lw(t) && t.spec_rd() == rd && t.spec_rs1() == rs1
                && t.spec_imm() == immediate && t.0 == itype_word(spec_sign_shrink(
                immediate, 12), 2, 3, register_index(rd), register_index(rs1))),
            instruction_wf(r),
    {
        Instruction::Lw(IType::new(immediate, F3_LW, OP_LD, rd, rs1))
    }

    /// Build `ld rd, rs1, immediate`.
    pub fn new_ld(rd: Register, rs1: Register, immediate: i32) -> (r: Instruction)
        requires
            -2048 <= immediate < 2048,
        ensures
            (r matches Instruction::Ld(t) && t.spec_rd() == rd && t.spec_rs1() == rs1
                && t.spec_imm() == immediate && t.0 == itype_word(spec_sign_shrink(
                immediate, 12), 3, 3, register_index(rd), register_index(rs1))),
            instruction_wf(r),
    {
        Instruction::Ld(IType::new(immediate, F3_LD, OP_LD, rd, rs1))
    }

    /// Build `lbu rd, rs1, immediate`.
    pub fn new_lbu(rd: Register, rs1: Register, immediate: i32) -> (r: Instruction)
        requires
            -2048 <= immediate < 2048,
        ensures
            (r matches Instruction::Lbu(t) && t.spec_rd() == rd && t.spec_rs1() == rs1
                && t.spec_imm() == immediate && t.0 == itype_word(spec_sign_shrink(
                immediate, 12), 4, 3, register_index(rd), register_index(rs1))),
            instruction_wf(r),
    {
        Instruction::Lbu(IType::new(immediate, F3_LBU, OP_LD, rd, rs1))
    }

    /// Build `lhu rd, rs1, immediate`.
    pub fn new_lhu(rd: Register, rs1: Register, immediate: i32) -> (r: Instruction)
        requires
            -2048 <= immediate < 2048,
        ensures
            (r matches Instruction::Lhu(t) && t.spec_rd() == rd && t.spec_rs1() == rs1
                && t.spec_imm() == immediate && t.0 == itype_word(spec_sign_shrink(
                immediate, 12), 5, 3, register_index(rd), register_index(rs1))),
            instruction_wf(r),
    {
        Instruction::Lhu(IType::new(immediate, F3_LHU, OP_LD, rd, rs1))
    }

    /// Build `lwu rd, rs1, immediate`.
    pub fn new_lwu(rd: Register, rs1: Register, immediate: i32) -> (r: Instruction)
        requires
            -2048 <= immediate < 2048,
        ensures
            (r matches Instruction::Lwu(t) && t.spec_rd() == rd && t.spec_rs1() == rs1
                && t.spec_imm() == immediate && t.0 == itype_word(spec_sign_shrink(
                immediate, 12), 6, 3, register_index(rd), register_index(rs1))),
            instruction_wf(r),
    {
        Instruction::Lwu(IType::new(immediate, F3_LWU, OP_LD, rd, rs1))
    }

    /// Build `jalr rd, rs1, immediate`.
    pub fn new_jalr(rd: Register, rs1: Register, immediate: i32) -> (r: Instruction)
        requires
            -2048 <= immediate < 2048,
        ensures
            (r matches Instruction::Jalr(t) && t.spec_rd() == rd && t.spec_rs1() == rs1
                && t.spec_imm() == immediate && t.0 == itype_word(spec_sign_shrink(
                immediate, 12), 0, 103, register_index(rd), register_index(rs1))),
            instruction_wf(r),
    {
        Instruction::Jalr(IType::new(immediate, F3_JALR, OP_JALR, rd, rs1))
    }

    /// Build `fence rd, rs1, immediate`.
    pub fn new_fence(rd: Register, rs1: Register, immediate: i32) -> (r: Instruction)
        requires
            -2048 <= immediate < 2048,
        ensures
            (r matches Instruction::Fence(t) && t.spec_rd() == rd && t.spec_rs1() == rs1
                && t.spec_imm() == immediate && t.0 == itype_word(spec_sign_shrink(
                immediate, 12), 0, 15, register_index(rd), register_index(rs1))),
            instruction_wf(r),
    {
        Instruction::Fence(IType::new(immediate, F3_FENCE, OP_FENCE, rd, rs1))
    }

    /// Build `sb rs2, immediate(rs1)`.
    pub fn new_sb(rs1: Register, rs2: Register, immediate: i32) -> (r: Instruction)
        requires
            -2048 <= immediate < 2048,
        ensures
            (r matches Instruction::Sb(t) && t.spec_rs1() == rs1 && t.spec_rs2() == rs2
                && t.spec_imm() == immediate && t.0 == stype_word(spec_sign_shrink(
                immediate, 12), 0, 35, register_index(rs1), register_index(rs2))),
            instruction_wf(r),
    {
        Instruction::Sb(SType::new(immediate, F3_SB, OP_SD, rs1, rs2))
    }

    /// Build `sh rs2, immediate(rs1)`.
    pub fn new_sh(rs1: Register, rs2: Register, immediate: i32) -> (r: Instruction)
        requires
            -2048 <= immediate < 2048,
        ensures
            (r matches Instruction::Sh(t) && t.spec_rs1() == rs1 && t.spec_rs2() == rs2
                && t.spec_imm() == immediate && t.0 == stype_word(spec_sign_shrink(
                immediate, 12), 1, 35, register_index(rs1), register_index(rs2))),
            instruction_wf(r),
    {
        Instruction::Sh(SType::new(immediate, F3_SH, OP_SD, rs1, rs2))
    }

    /// Build `sw rs2, immediate(rs1)`.
    pub fn new_sw(rs1: Register, rs2: Register, immediate: i32) -> (r: Instruction)
        requires
            -2048 <= immediate < 2048,
        ensures
            (r matches Instruction::Sw(t) && t.spec_rs1() == rs1 && t.spec_rs2() == rs2
                && t.spec_imm() == immediate && t.0 == stype_word(spec_sign_shrink(
                immediate, 12), 2, 35, register_index(rs1), register_index(rs2))),
            instruction_wf(r),
    {
        Instruction::Sw(SType::new(immediate, F3_SW, OP_SD, rs1, rs2))
    }

    /// Build `sd rs2, immediate(rs1)`.
    pub fn new_sd(rs1: Register, rs2: Register, immediate: i32) -> (r: Instruction)
        requires
            -2048 <= immediate < 2048,
        ensures
            (r matches Instruction::Sd(t) && t.spec_rs1() == rs1 && t.spec_rs2() == rs2
                && t.spec_imm() == immediate && t.0 == stype_word(spec_sign_shrink(
                immediate, 12), 3, 35, register_index(rs1), register_index(rs2))),
            instruction_wf(r),
    {
        Instruction::Sd(SType::new(immediate, F3_SD, OP_SD, rs1, rs2))
    }

    /// Build `beq rs1, rs2, immediate`; bit 0 of the offset is dropped.
    pub fn new_beq(rs1: Register, rs2: Register, immediate: i32) -> (r: Instruction)
        requires
            -4096 <= immediate < 4096,
        ensures
            (r matches Instruction::Beq(t) && t.spec_rs1() == rs1 && t.spec_rs2() == rs2
                && t.spec_imm() == immediate - (immediate % 2) && t.0 == btype_word(
                spec_sign_shrink(immediate, 13), 0, 99, register_index(rs1),
                register_index(rs2))),
            instruction_wf(r),
    {
        Instruction::Beq(BType::new(immediate, F3_BEQ, OP_BRANCH, rs1, rs2))
    }

    /// Build `bne rs1, rs2, immediate`; bit 0 of the offset is dropped.
    pub fn new_bne(rs1: Register, rs2: Register, immediate: i32) -> (r: Instruction)
        requires
            -4096 <= immediate < 4096,
        ensures
            (r matches Instruction::Bne(t) && t.spec_rs1() == rs1 && t.spec_rs2() == rs2
                && t.spec_imm() == immediate - (immediate % 2) && t.0 == btype_word(
                spec_sign_shrink(immediate, 13), 1, 99, register_index(rs1),
                register_index(rs2))),
            instruction_wf(r),
    {
        Instruction::Bne(BType::new(immediate, F3_BNE, OP_BRANCH, rs1, rs2))
    }

    /// Build `blt rs1, rs2, immediate`; bit 0 of the offset is dropped.
    pub fn new_blt(rs1: Register, rs2: Register, immediate: i32) -> (r: Instruction)
        requires
            -4096 <= immediate < 4096,
        ensures
            (r matches Instruction::Blt(t) && t.spec_rs1() == rs1 && t.spec_rs2() == rs2
                && t.spec_imm() == immediate - (immediate % 2) && t.0 == btype_word(
                spec_sign_shrink(immediate, 13), 4, 99, register_index(rs1),
                register_index(rs2))),
            instruction_wf(r),
    {
        Instruction::Blt(BType::new(immediate, F3_BLT, OP_BRANCH, rs1, rs2))
    }

    /// Build `bge rs1, rs2, immediate`; bit 0 of the offset is dropped.
    pub fn new_bge(rs1: Register, rs2: Register, immediate: i32) -> (r: Instruction)
        requires
            -4096 <= immediate < 4096,
        ensures
            (r matches Instruction::Bge(t) && t.spec_rs1() == rs1 && t.spec_rs2() == rs2
                && t.spec_imm() == immediate - (immediate % 2) && t.0 == btype_word(
                spec_sign_shrink(immediate, 13), 5, 99, register_index(rs1),
                register_index(rs2))),
            instruction_wf(r),
    {
        Instruction::Bge(BType::new(immediate, F3_BGE, OP_BRANCH, rs1, rs2))
    }

    /// Build `bltu rs1, rs2, immediate`; bit 0 of the offset is dropped.
    pub fn new_bltu(rs1: Register, rs2: Register, immediate: i32) -> (r: Instruction)
        requires
            -4096 <= immediate < 4096,
        ensures
            (r matches Instruction::Bltu(t) && t.spec_rs1() == rs1 && t.spec_rs2() == rs2
                && t.spec_imm() == immediate - (immediate % 2) && t.0 == btype_word(
                spec_sign_shrink(immediate, 13), 6, 99, register_index(rs1),
                register_index(rs2))),
            instruction_wf(r),
    {
        Instruction::Bltu(BType::new(immediate, F3_BLTU, OP_BRANCH, rs1, rs2))
    }

    /// Build `bgeu rs1, rs2, immediate`; bit 0 of the offset is dropped.
    pub fn new_bgeu(rs1: Register, rs2: Register, immediate: i32) -> (r: Instruction)
        requires
            -4096 <= immediate < 4096,
        ensures
            (r matches Instruction::Bgeu(t) && t.spec_rs1() == rs1 && t.spec_rs2() == rs2
                && t.spec_imm() == immediate - (immediate % 2) && t.0 == btype_word(
                spec_sign_shrink(immediate, 13), 7, 99, register_index(rs1),
                register_index(rs2))),
            instruction_wf(r),
    {
        Instruction::Bgeu(BType::new(immediate, F3_BGEU, OP_BRANCH, rs1, rs2))
    }
    /// Build `slli rd, rs1, immediate`; a shift amount of 64 or more does
    /// not encode a shift.
    pub fn new_slli(rd: Register, rs1: Register, immediate: i32) -> (r: Instruction)
        requires
            -2048 <= immediate < 2048,
        ensures
            (r matches Instruction::Slli(t) && t.spec_rd() == rd && t.spec_rs1() == rs1
                && t.spec_imm() == immediate && t.0 == itype_word(spec_sign_shrink(
                immediate, 12), 1, 19, register_index(rd), register_index(rs1))),
            0 <= immediate < 64 ==> instruction_wf(r),
    {
        Instruction::Slli(IType::new(immediate, F3_SLLI, OP_IMM, rd, rs1))
    }

    /// Build the shared srli/srai encoding: the immediate carries the shift
    /// amount in its low six bits and selects srai through bit 10.
    pub fn new_srli_srai(rd: Register, rs1: Register, immediate: i32) -> (r: Instruction)
        requires
            -2048 <= immediate < 2048,
        ensures
            spec_sign_shrink(immediate, 12) / 64 == 16 ==> (r matches Instruction::Srai(t)
                && t.spec_rd() == rd && t.spec_rs1() == rs1 && t.0 == itype_word(
                spec_sign_shrink(immediate, 12), 5, 19, register_index(rd),
                register_index(rs1))),
            spec_sign_shrink(immediate, 12) / 64 != 16 ==> (r matches Instruction::Srli(t)
                && t.spec_rd() == rd && t.spec_rs1() == rs1 && t.0 == itype_word(
                spec_sign_shrink(immediate, 12), 5, 19, register_index(rd),
                register_index(rs1))),
            0 <= immediate < 64 ==> instruction_wf(r),
            1024 <= immediate < 1088 ==> instruction_wf(r),
    {
        let t = IType::new(immediate, F3_SRLI_SRAI, OP_IMM, rd, rs1);
        if t.0 >> 26 == 16 {
            Instruction::Srai(t)
        } else {
            Instruction::Srli(t)
        }
    }

    /// Build `slliw rd, rs1, immediate`; a shift amount of 32 or more does
    /// not encode a shift.
    pub fn new_slliw(rd: Register, rs1: Register, immediate: i32) -> (r: Instruction)
        requires
            -2048 <= immediate < 2048,
        ensures
            (r matches Instruction::Slliw(t) && t.spec_rd() == rd && t.spec_rs1() == rs1
                && t.spec_imm() == immediate && t.0 == itype_word(spec_sign_shrink(
                immediate, 12), 1, 27, register_index(rd), register_index(rs1))),
            0 <= immediate < 32 ==> instruction_wf(r),
    {
        Instruction::Slliw(IType::new(immediate, F3_SLLIW, OP_IMM32, rd, rs1))
    }

    /// Build `srliw rd, rs1, immediate`; a shift amount of 32 or more does
    /// not encode a shift.
    pub fn new_srliw(rd: Register, rs1: Register, immediate: i32) -> (r: Instruction)
        requires
            -2048 <= immediate < 2048,
        ensures
            (r matches Instruction::Srliw(t) && t.spec_rd() == rd && t.spec_rs1() == rs1
                && t.spec_imm() == immediate && t.0 == itype_word(spec_sign_shrink(
                immediate, 12), 5, 27, register_index(rd), register_index(rs1))),
            0 <= immediate < 32 ==> instruction_wf(r),
    {
        Instruction::Srliw(IType::new(immediate, F3_SRLIW_SRAIW, OP_IMM32, rd, rs1))
    }

    /// Build `sraiw rd, rs1, immediate`: the immediate carries the shift
    /// amount in its low five bits and must carry the sraiw mark in bit 10.
    pub fn new_sraiw(rd: Register, rs1: Register, immediate: i32) -> (r: Instruction)
        requires
            -2048 <= immediate < 2048,
        ensures
            (r matches Instruction::Sraiw(t) && t.spec_rd() == rd && t.spec_rs1() == rs1
                && t.spec_imm() == immediate && t.0 == itype_word(spec_sign_shrink(
                immediate, 12), 5, 27, register_index(rd), register_index(rs1))),
            1024 <= immediate < 1056 ==> instruction_wf(r),
    {
        Instruction::Sraiw(IType::new(immediate, F3_SRLIW_SRAIW, OP_IMM32, rd, rs1))
    }

    /// Build `ecall`.
    pub fn new_ecall() -> (r: Instruction)
        ensures
            (r matches Instruction::Ecall(t) && t.0 == itype_word(0, 0, 115, 0, 0)),
            instruction_wf(r),
    {
        Instruction::Ecall(IType::new(0, F3_SYSTEM, OP_SYSTEM, Register::Zero, Register::Zero))
    }

    /// Build `ebreak`.
    pub fn new_ebreak() -> (r: Instruction)
        ensures
            (r matches Instruction::Ebreak(t) && t.0 == itype_word(spec_sign_shrink(1, 12), 0,
                115, 0, 0)),
            instruction_wf(r),
    {
        Instruction::Ebreak(IType::new(1, F3_SYSTEM, OP_SYSTEM, Register::Zero, Register::Zero))
    }

    /// Build `jal rd, immediate`; bit 0 of the offset is dropped.
    pub fn new_jal(rd: Register, immediate: i32) -> (r: Instruction)
        requires
            -0x100000 <= immediate < 0x100000,
        ensures
            (r matches Instruction::Jal(t) && t.spec_rd() == rd && t.spec_imm() == immediate
                - (immediate % 2) && t.0 == jtype_word(spec_sign_shrink(immediate, 21), 111,
                register_index(rd))),
            instruction_wf(r),
    {
        Instruction::Jal(JType::new(immediate, OP_JAL, rd))
    }

    /// Build `lui rd, immediate`: the immediate is the value destined for
    /// bits 31:12 of the target register, given in its low 20 bits.
    pub fn new_lui(rd: Register, immediate: i32) -> (r: Instruction)
        requires
            0 < immediate < 0x200000,
        ensures
            (r matches Instruction::Lui(t) && t.spec_rd() == rd && t.spec_imm() == immediate
                % 0x100000 && t.0 == utype_word(spec_sign_shrink(immediate, 20), 55,
                register_index(rd))),
            instruction_wf(r),
    {
        Instruction::Lui(UType::new(immediate, OP_LUI, rd))
    }

    /// Build `auipc rd, immediate`: the immediate is the page offset destined
    /// for bits 31:12, given in its low 20 bits.
    pub fn new_auipc(rd: Register, immediate: i32) -> (r: Instruction)
        requires
            0 < immediate < 0x200000,
        ensures
            (r matches Instruction::Auipc(t) && t.spec_rd() == rd && t.spec_imm() == immediate
                % 0x100000 && t.0 == utype_word(spec_sign_shrink(immediate, 20), 23,
                register_index(rd))),
            instruction_wf(r),
    {
        Instruction::Auipc(UType::new(immediate, OP_AUIPC, rd))
    }

    /// Build `addi zero, zero, 0`, the canonical no-operation.
    pub fn new_nop() -> (r: Instruction)
        ensures
            (r matches Instruction::Addi(t) && t.spec_rd() == Register::Zero && t.spec_rs1()
                == Register::Zero && t.spec_imm() == 0),
            instruction_wf(r),
    {
        Instruction::new_addi(Register::Zero, Register::Zero, 0)
    }
}

} // verus!
