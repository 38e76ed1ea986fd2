use riscu::iterators::{InstructionIter, LocationIter};
use riscu::types::IType;
use riscu::Instruction::Addi;
use riscu::{DecodingError, Instruction, Register};

#[test]
fn locations_of_a_mixed_stream() {
    // addi x0, x0, 0 (4 bytes), c.li a1, 0 (2 bytes), addi x0, x0, 0 (4 bytes)
    let memory: Vec<u8> = vec![0x13, 0x00, 0x00, 0x00, 0x81, 0x45, 0x13, 0x00, 0x00, 0x00];
    let mut locations = LocationIter::new(&memory, 0x1000);
    assert_eq!(locations.next(), Some(Ok(0x1000)));
    assert_eq!(locations.next(), Some(Ok(0x1004)));
    assert_eq!(locations.next(), Some(Ok(0x1006)));
    assert_eq!(locations.next(), None);
    assert_eq!(locations.next(), None);
}

#[test]
fn instructions_of_a_mixed_stream() {
    let memory: Vec<u8> = vec![0x13, 0x00, 0x00, 0x00, 0x81, 0x45];
    let mut instructions = InstructionIter::new(&memory);
    assert_eq!(instructions.next(), Some(Ok(Addi(IType(0x00000013)))));
    // the compressed half expands to li a1, 0
    assert_eq!(instructions.next(), Some(Ok(Addi(IType(0x00000593)))));
    assert_eq!(instructions.next(), None);
}

#[test]
fn truncated_tail_stops_the_walk() {
    // the low halfword announces a 4-byte instruction, but only 3 bytes remain
    let memory: Vec<u8> = vec![0x13, 0x00, 0x00];
    let mut locations = LocationIter::new(&memory, 0);
    assert_eq!(locations.next(), Some(Err(DecodingError::Truncated)));
    assert_eq!(locations.next(), None);

    let mut instructions = InstructionIter::new(&memory);
    assert_eq!(instructions.next(), Some(Err(DecodingError::Truncated)));
    assert_eq!(instructions.next(), None);
}

#[test]
fn undecodable_word_stops_the_walk() {
    // four zero bytes: the zero halfword is the canonical illegal instruction
    let memory: Vec<u8> = vec![0x00, 0x00, 0x00, 0x00];
    let mut instructions = InstructionIter::new(&memory);
    assert_eq!(instructions.next(), Some(Err(DecodingError::Illegal)));
    assert_eq!(instructions.next(), None);
}

#[test]
fn decoded_instruction_carries_its_fields() {
    // ld a3, 24(a0)
    let memory: Vec<u8> = vec![0x83, 0x36, 0x85, 0x01];
    let mut instructions = InstructionIter::new(&memory);
    match instructions.next() {
        Some(Ok(Instruction::Ld(t))) => {
            assert_eq!(t.rd(), Register::A3);
            assert_eq!(t.rs1(), Register::A0);
            assert_eq!(t.imm(), 24);
        },
        other => panic!("unexpected step: {:?}", other),
    }
}
