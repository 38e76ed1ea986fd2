use riscu::types::{BType, IType, JType, RType, UType};
use riscu::Register;

#[test]
fn rtype() {
    assert_eq!(RType(0x00c58633).rs1(), Register::A1); // add x12,x11,x12
    assert_eq!(RType(0x40b50533).rs1(), Register::A0); // sub x10,x10,x11

    assert_eq!(RType(0x00c58633).rs2(), Register::A2); // add x12,x11,x12
    assert_eq!(RType(0x40b50533).rs2(), Register::A1); // sub x10,x10,x11

    assert_eq!(RType(0x00c58633).rd(), Register::A2); // add x12,x11,x12
    assert_eq!(RType(0x40b50533).rd(), Register::A0); // sub x10,x10,x11
}

#[test]
fn itype() {
    assert_eq!(IType(0x01853683).rd(), Register::A3); // Ld x13,24(x10)
    assert_eq!(IType(0x02013c03).rd(), Register::S8); // Ld x24,32(x2)
    assert_eq!(IType(0x0007b703).rd(), Register::A4); // Ld x14,0(x15)

    assert_eq!(IType(0x01853683).rs1(), Register::A0); // Ld x13,24(x10)
    assert_eq!(IType(0x02013c03).rs1(), Register::Sp); // Ld x24,32(x2)
    assert_eq!(IType(0x0007b703).rs1(), Register::A5); // Ld x14,0(x15)

    assert_eq!(IType(0x01853683).imm(), 24); // Ld x13,24(x10)
    assert_eq!(IType(0x02013c03).imm(), 32); // Ld x24,32(x2)
    assert_eq!(IType(0x0007b703).imm(), 0); // Ld x14,0(x15)
}

#[test]
#[allow(overflowing_literals)]
fn btype() {
    assert_eq!(BType(0x06f58063).imm(), 0x80002724 - 0x800026c4); // beq x11,x15,80002724
    assert_eq!(BType(0x06f58063).imm(), 0x80002648 - 0x800025e8); // beq x11,x15,80002648
    assert_eq!(BType(0x00050a63).imm(), 0x800024e8 - 0x800024d4); // beq x10,x0,800024e8
    assert_eq!(BType(0x03ff0663).imm(), 0x80000040 - 0x80000014); // beq x30,x31,80000040
}

#[test]
fn utype() {
    assert_eq!(UType(0x00001a37).rd(), Register::S4); // lui x20,0x1
    assert_eq!(UType(0x800002b7).rd(), Register::T0); // lui x5,0x80000
    assert_eq!(UType(0x212120b7).rd(), Register::Ra); // lui x1,0x21212

    assert_eq!(UType(0x00001a37).rd(), Register::S4); // lui x20,0x1
    assert_eq!(UType(0x800002b7).rd(), Register::T0); // lui x5,0x80000
    assert_eq!(UType(0x212120b7).rd(), Register::Ra); // lui x1,0x21212
}

#[test]
#[allow(overflowing_literals)]
fn jtype() {
    assert_eq!(JType(0xfe1ff06f).imm(), 0x800029eci32 - 0x80002a0ci32); // jal x0,800029ec
    assert_eq!(JType(0xf89ff06f).imm(), 0x800027aci32 - 0x80002824i32); // jal x0,800027ac
    assert_eq!(JType(0x0240006f).imm(), 0x8000215c - 0x80002138); // jal x0,8000215c
    assert_eq!(JType(0xd89ff0ef).imm(), 0x80002230i32 - 0x800024a8i32); // jal x1,80002230
    assert_eq!(JType(0x008007ef).imm(), 0x8000265c - 0x80002654); // jal x15,8000265c
    assert_eq!(JType(0x0240006f).imm(), 0x80002154 - 0x80002130); // jal x0,80002154
    assert_eq!(JType(0xf71ff06f).imm(), 0x80002750i32 - 0x800027e0i32); // jal x0,80002750
    assert_eq!(JType(0x00c0006f).imm(), 0x8000000c - 0x80000000); // jal x0,8000000c

    assert_eq!(JType(0xfe1ff06f).rd(), Register::Zero); // jal x0,800029ec
    assert_eq!(JType(0x0000006f).rd(), Register::Zero); // jal x0,80002258
    assert_eq!(JType(0xf89ff06f).rd(), Register::Zero); // jal x0,800027ac
    assert_eq!(JType(0x0240006f).rd(), Register::Zero); // jal x0,8000215c
    assert_eq!(JType(0xd89ff0ef).rd(), Register::Ra); // jal x1,80002230
    assert_eq!(JType(0x008007ef).rd(), Register::A5); // jal x15,8000265c
    assert_eq!(JType(0x0240006f).rd(), Register::Zero); // jal x0,80002154
    assert_eq!(JType(0xf71ff06f).rd(), Register::Zero); // jal x0,80002750
    assert_eq!(JType(0x00c0006f).rd(), Register::Zero); // jal x0,8000000c
}
