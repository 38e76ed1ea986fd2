use riscu::decode;
use riscu::types::{BType, IType, JType, RType, SType, UType};
use riscu::Instruction;
use riscu::Instruction::{
    Add, Addi, Addiw, And, Beq, Bne, Divu, Jal, Jalr, Ld, Lui, Lw, Mul, Or, Remu, Sd, Slli, Sltu,
    Srai, Sub, Sw,
};

// Nearly all expected words below come from assembled RISC-V test programs;
// the compressed cases were produced by a C-enabled compiler.

#[test]
fn decoding() {
    assert_eq!(decode(0x00001a37).unwrap(), Lui(UType(0x00001a37))); // lui x20,0x1
    assert_eq!(decode(0x800002b7).unwrap(), Lui(UType(0x800002b7))); // lui x5,0x80000
    assert_eq!(decode(0x212120b7).unwrap(), Lui(UType(0x212120b7))); // lui x1,0x21212
    assert_eq!(decode(0xfe1ff06f).unwrap(), Jal(JType(0xfe1ff06f))); // jal x0,800029ec
    assert_eq!(decode(0x0000006f).unwrap(), Jal(JType(0x0000006f))); // jal x0,80002258
    assert_eq!(decode(0xf89ff06f).unwrap(), Jal(JType(0xf89ff06f))); // jal x0,800027ac
    assert_eq!(decode(0x00008067).unwrap(), Jalr(IType(0x00008067))); // jalr x0,0(x1)
    assert_eq!(decode(0x00008067).unwrap(), Jalr(IType(0x00008067))); // jalr x0,0(x1)
    assert_eq!(decode(0x000f0067).unwrap(), Jalr(IType(0x000f0067))); // jalr x0,0(x30)
}

#[test]
fn load() {
    assert_eq!(decode(0x01853683).unwrap(), Ld(IType(0x01853683))); // Ld x13,24(x10)
    assert_eq!(decode(0x02013c03).unwrap(), Ld(IType(0x02013c03))); // Ld x24,32(x2)
    assert_eq!(decode(0x0007b703).unwrap(), Ld(IType(0x0007b703))); // Ld x14,0(x15)
}

#[test]
fn op_imm() {
    assert_eq!(decode(0x00200793).unwrap(), Addi(IType(0x00200793))); // addi x15,x0,2
    assert_eq!(decode(0x00000013).unwrap(), Addi(IType(0x00000013))); // addi x0,x0,0
    assert_eq!(decode(0x00000013).unwrap(), Addi(IType(0x00000013))); // addi x0,x0,0
}

#[test]
fn store() {
    assert_eq!(decode(0x0b613823).unwrap(), Sd(SType(0x0b613823))); // sd x22,176(x2)
    assert_eq!(decode(0x09213823).unwrap(), Sd(SType(0x09213823))); // sd x18,144(x2)
    assert_eq!(decode(0x00f6b423).unwrap(), Sd(SType(0x00f6b423))); // sd x15,8(x13)
}

#[test]
fn op() {
    assert_eq!(decode(0x00c58633).unwrap(), Add(RType(0x00c58633))); // add x12,x11,x12
    assert_eq!(decode(0x00d506b3).unwrap(), Add(RType(0x00d506b3))); // add x13,x10,x13
    assert_eq!(decode(0x00a70533).unwrap(), Add(RType(0x00a70533))); // add x10,x14,x10
    assert_eq!(decode(0x40b50533).unwrap(), Sub(RType(0x40b50533))); // sub x10,x10,x11
    assert_eq!(decode(0x40e78533).unwrap(), Sub(RType(0x40e78533))); // sub x10,x15,x14
    assert_eq!(decode(0x41060633).unwrap(), Sub(RType(0x41060633))); // sub x12,x12,x16
    assert_eq!(decode(0x0020bf33).unwrap(), Sltu(RType(0x0020bf33))); // sltu x30,x1,x2
    assert_eq!(decode(0x0020bf33).unwrap(), Sltu(RType(0x0020bf33))); // sltu x30,x1,x2
    assert_eq!(decode(0x000030b3).unwrap(), Sltu(RType(0x000030b3))); // sltu x1,x0,x0
    assert_eq!(decode(0x021080b3).unwrap(), Mul(RType(0x021080b3))); // mul x1,x1,x1
    assert_eq!(decode(0x02208f33).unwrap(), Mul(RType(0x02208f33))); // mul x30,x1,x2
    assert_eq!(decode(0x02208133).unwrap(), Mul(RType(0x02208133))); // mul x2,x1,x2
    assert_eq!(decode(0x0220df33).unwrap(), Divu(RType(0x0220df33))); // divu x30,x1,x2
    assert_eq!(decode(0x0220df33).unwrap(), Divu(RType(0x0220df33))); // divu x30,x1,x2
    assert_eq!(decode(0x0220df33).unwrap(), Divu(RType(0x0220df33))); // divu x30,x1,x2
    assert_eq!(decode(0x0220ff33).unwrap(), Remu(RType(0x0220ff33))); // remu x30,x1,x2
    assert_eq!(decode(0x0220ff33).unwrap(), Remu(RType(0x0220ff33))); // remu x30,x1,x2
    assert_eq!(decode(0x0220ff33).unwrap(), Remu(RType(0x0220ff33))); // remu x30,x1,x2
}

#[test]
fn branch() {
    assert_eq!(decode(0x10e78463).unwrap(), Beq(BType(0x10e78463))); // beq x15,x14,800024b8
    assert_eq!(decode(0x00050a63).unwrap(), Beq(BType(0x00050a63))); // beq x10,x0,80002538
    assert_eq!(decode(0x1b5a0463).unwrap(), Beq(BType(0x1b5a0463))); // beq x20,x21,80002a10
}

#[test]
fn system() {
    assert_eq!(decode(0x00000073).unwrap(), Instruction::new_ecall()); // ecall
}

#[test]
fn test_quadrant0() {
    // C.ADDI4SPN
    assert_eq!(decode(0x002c).unwrap(), Addi(IType(0x00810593))); // addi a1, sp, 8

    // C.LFD unimplemented

    // C.LW
    assert_eq!(decode(0x4298).unwrap(), Lw(IType(0x0006a703))); // lw a4, 0(a3)
    assert_eq!(decode(0x483c).unwrap(), Lw(IType(0x05042783))); // lw a5, 80(s0)

    // C.LW: check that no sign extension happens (smoke test)
    assert_eq!(decode(0x5ffc).unwrap(), Lw(IType(0x07c7a783))); // lw a5, 124(a5)

    // C.LD
    assert_eq!(decode(0x6398).unwrap(), Ld(IType(0x0007b703))); // ld a4, 0(a5)
    assert_eq!(decode(0x6b9c).unwrap(), Ld(IType(0x0107b783))); // ld a5, 16(a5)

    // C.LD: check that no sign extension happens (smoke test)
    assert_eq!(decode(0x7ffc).unwrap(), Ld(IType(0x0f87b783))); // ld a5, 248(a5)

    // C.FSD unimplemented

    // C.SW
    assert_eq!(decode(0xc298).unwrap(), Sw(SType(0x00e6a023))); // sw a4, 0(a3)
    assert_eq!(decode(0xd01c).unwrap(), Sw(SType(0x02f42023))); // sw a5, 32(s0)

    // C.SW: check that no sign extension happens (smoke test)
    assert_eq!(decode(0xdffc).unwrap(), Sw(SType(0x06f7ae23))); // sw a5, 124(a5)

    // C.SD
    assert_eq!(decode(0xe398).unwrap(), Sd(SType(0x00e7b023))); // sd a4, 0(a5)
    assert_eq!(decode(0xee98).unwrap(), Sd(SType(0x00e6bc23))); // sd a4, 24(a3)

    // C.SD: check that no sign extension happens (smoke test)
    assert_eq!(decode(0xfffc).unwrap(), Sd(SType(0x0ef7bc23))); // sd a5, 248(a5)
}

#[test]
fn test_quadrant1() {
    // C.NOP

    // C.ADDI
    assert_eq!(decode(0x17e1).unwrap(), Addi(IType(0xff878793))); // addi a5, a5, -8
    assert_eq!(decode(0x0785).unwrap(), Addi(IType(0x00178793))); // addi a5, a5, 1

    // C.ADDIW
    assert_eq!(decode(0x37fd).unwrap(), Addiw(IType(0xfff7879b))); // addiw a5, a5, -1
    assert_eq!(decode(0x2705).unwrap(), Addiw(IType(0x0017071b))); // addiw a4, a4, 1

    // C.LI
    assert_eq!(decode(0x4581).unwrap(), Addi(IType(0x00000593))); // li a1, 0
    assert_eq!(decode(0x577d).unwrap(), Addi(IType(0xfff00713))); // li a4, -1

    // C.ADDI16SP
    assert_eq!(decode(0x002c).unwrap(), Addi(IType(0x00810593))); // addi a1, sp, 8
    assert_eq!(decode(0x1141).unwrap(), Addi(IType(0xff010113))); // addi sp, sp, -16

    // C.LUI
    assert_eq!(decode(0x6785).unwrap(), Lui(UType(0x000017b7))); // lui a5, 0x1
    assert_eq!(decode(0x77fd).unwrap(), Lui(UType(0xfffff7b7))); // lui a5, 0xfffff

    // ALU has a separate test-suite

    // C.J
    assert_eq!(decode(0xb761).unwrap(), Jal(JType(0xf89ff06f))); // j 0x1fff88 (or just j -120)
    assert_eq!(decode(0xa035).unwrap(), Jal(JType(0x02c0006f))); // j 0x2c
    assert_eq!(decode(0xa809).unwrap(), Jal(JType(0x0120006f))); // j 0x12

    // C.BEQZ
    assert_eq!(decode(0xc781).unwrap(), Beq(BType(0x00078463))); // beqz a5, 0x8
    assert_eq!(decode(0xdff5).unwrap(), Beq(BType(0xfe078ee3))); // beqz a5, 0xfd (or just beqz a5, -4)

    // C.BNEZ
    assert_eq!(decode(0xe38d).unwrap(), Bne(BType(0x02079163))); // bnez a5, 0x22
    assert_eq!(decode(0xfff5).unwrap(), Bne(BType(0xfe079ee3))); // bnez a5, 0xfd (or just bnez a5, -4)
}

#[test]
fn test_quadrant1_alu() {
    // C.SRLI unimplemented

    // C.SRAI
    assert_eq!(decode(0x840d).unwrap(), Srai(IType(0x40345413))); // srai s0, s0, 0x3
    assert_eq!(decode(0x947d).unwrap(), Srai(IType(0x43f45413))); // srai s0, s0, 0x3f

    // C.ANDI unimplemented

    // C.SUB
    assert_eq!(decode(0x8e09).unwrap(), Sub(RType(0x40a60633))); // sub a2, a2, a0

    // C.XOR unimplemented

    // C.OR
    assert_eq!(decode(0x8f5d).unwrap(), Or(RType(0x00f76733))); // or a4, a4, a5

    // C.AND
    assert_eq!(decode(0x8ff9).unwrap(), And(RType(0x00e7f7b3))); // and a5, a5, a4

    // C.SUBW unimplemented

    // C.ADDW unimplemented
}

#[test]
fn test_quadrant2() {
    // C.SLLI
    assert_eq!(decode(0x078e).unwrap(), Slli(IType(0x00379793))); // slli a5, a5, 0x3

    // C.FLDSP unimplemented

    // C.LWSP
    assert_eq!(decode(0x4502).unwrap(), Lw(IType(0x00012503))); // lw a0, 0(sp)
    assert_eq!(decode(0x483c).unwrap(), Lw(IType(0x05042783))); // lw a5, 80(s0)

    // C.LDSP
    assert_eq!(decode(0x60e2).unwrap(), Ld(IType(0x01813083))); // ld ra, 24(sp)
    assert_eq!(decode(0x6442).unwrap(), Ld(IType(0x01013403))); // ld s0, 16(sp)

    // C.JR, C.MV, C.ADD
    assert_eq!(decode(0x8782).unwrap(), Jalr(IType(0x00078067))); // jr a5
    assert_eq!(decode(0x853e).unwrap(), Add(RType(0x00f00533))); // mv a0, a5
    assert_eq!(decode(0x9782).unwrap(), Jalr(IType(0x000780e7))); // jalr a5
    assert_eq!(decode(0x97ba).unwrap(), Add(RType(0x00e787b3))); // add a5, a5, a4

    // C.FSDSP unimplemented

    // C.SWSP unimplemented

    // C.SDSP
    assert_eq!(decode(0xe022).unwrap(), Sd(SType(0x00813023))); // sd s0, 0(sp)
    assert_eq!(decode(0xec06).unwrap(), Sd(SType(0x00113c23))); // sd ra, 24(sp)
}
