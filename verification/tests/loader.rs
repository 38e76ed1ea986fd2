use riscu::elf::{extract_program, ElfFile, ElfProgramHeader, ElfSectionHeader};
use riscu::Instruction::{Addi, Ecall};
use riscu::types::IType;
use riscu::{load_program, DecodingError, Program, ProgramSegment, RiscuError};

fn le16(v: u16) -> [u8; 2] {
    [v as u8, (v >> 8) as u8]
}

fn le32(v: u32) -> [u8; 4] {
    [v as u8, (v >> 8) as u8, (v >> 16) as u8, (v >> 24) as u8]
}

fn le64(v: u64) -> [u8; 8] {
    [
        v as u8,
        (v >> 8) as u8,
        (v >> 16) as u8,
        (v >> 24) as u8,
        (v >> 32) as u8,
        (v >> 40) as u8,
        (v >> 48) as u8,
        (v >> 56) as u8,
    ]
}

/// A minimal ELF64 little-endian executable: a header, a code segment of
/// two instructions and a data segment of one word, with no section table.
fn sample_image() -> Vec<u8> {
    let mut image: Vec<u8> = Vec::new();
    // ELF header
    image.extend_from_slice(&[0x7f, b'E', b'L', b'F', 2, 1, 1, 0, 0, 0, 0, 0, 0, 0, 0, 0]);
    image.extend_from_slice(&le16(2)); // e_type: executable
    image.extend_from_slice(&le16(0xf3)); // e_machine
    image.extend_from_slice(&le32(1)); // e_version
    image.extend_from_slice(&le64(0x10000)); // e_entry
    image.extend_from_slice(&le64(64)); // e_phoff
    image.extend_from_slice(&le64(0)); // e_shoff
    image.extend_from_slice(&le32(0)); // e_flags
    image.extend_from_slice(&le16(64)); // e_ehsize
    image.extend_from_slice(&le16(56)); // e_phentsize
    image.extend_from_slice(&le16(2)); // e_phnum
    image.extend_from_slice(&le16(64)); // e_shentsize
    image.extend_from_slice(&le16(0)); // e_shnum
    image.extend_from_slice(&le16(0)); // e_shstrndx
    // code program header: loadable, readable and executable
    image.extend_from_slice(&le32(1));
    image.extend_from_slice(&le32(5));
    image.extend_from_slice(&le64(176)); // p_offset
    image.extend_from_slice(&le64(0x10000)); // p_vaddr
    image.extend_from_slice(&le64(0x10000)); // p_paddr
    image.extend_from_slice(&le64(8)); // p_filesz
    image.extend_from_slice(&le64(8)); // p_memsz
    image.extend_from_slice(&le64(0x1000)); // p_align
    // data program header: loadable, readable and writable
    image.extend_from_slice(&le32(1));
    image.extend_from_slice(&le32(6));
    image.extend_from_slice(&le64(184)); // p_offset
    image.extend_from_slice(&le64(0x20000)); // p_vaddr
    image.extend_from_slice(&le64(0x20000)); // p_paddr
    image.extend_from_slice(&le64(8)); // p_filesz
    image.extend_from_slice(&le64(16)); // p_memsz
    image.extend_from_slice(&le64(0x1000)); // p_align
    // code bytes: addi x0, x0, 0 and ecall
    image.extend_from_slice(&le32(0x00000013));
    image.extend_from_slice(&le32(0x00000073));
    // data bytes: one little-endian word
    image.extend_from_slice(&le64(0x1122334455667788));
    image
}

#[test]
fn load_well_formed_image() {
    let image = sample_image();
    let program = load_program(&image).unwrap();
    assert_eq!(program.code.address, 0x10000);
    assert_eq!(program.code.content, vec![0x13, 0, 0, 0, 0x73, 0, 0, 0]);
    assert_eq!(program.data.address, 0x20000);
    // the data segment is zero-padded from its file size to its memory size
    assert_eq!(program.data.content.len(), 16);
    assert_eq!(&program.data.content[8..], &[0u8; 8]);
    // without a section table the whole code segment holds instructions
    assert_eq!(program.instruction_range.start, 0x10000);
    assert_eq!(program.instruction_range.end, 0x10008);

    let decoded = program.decode().unwrap();
    assert_eq!(decoded.code.address, 0x10000);
    assert_eq!(
        decoded.code.content,
        vec![Addi(IType(0x00000013)), Ecall(IType(0x00000073))],
    );
    assert_eq!(decoded.data.address, 0x20000);
    assert_eq!(decoded.data.content, vec![0x1122334455667788, 0]);
}

#[test]
fn reject_bytes_that_are_not_elf() {
    let result = load_program(&vec![0u8; 16]);
    assert!(matches!(result, Err(RiscuError::InvalidElf(_))));
}

fn header_row(p_flags: u32, p_offset: u64, p_vaddr: u64, p_filesz: u64, p_memsz: u64) -> ElfProgramHeader {
    ElfProgramHeader::new(1, p_flags, p_offset, p_vaddr, p_filesz, p_memsz)
}

#[test]
fn extraction_uses_the_program_header_addresses() {
    let raw: Vec<u8> = vec![
        0xaa, 0xaa, 0xaa, 0xaa, // file prefix outside both segments
        0x13, 0x00, 0x00, 0x00, // addi x0, x0, 0
        0x88, 0x77, 0x66, 0x55, // data bytes
    ];
    let elf = ElfFile::new(
        true,
        false,
        true,
        2,
        vec![header_row(5, 4, 0x10000, 4, 12), header_row(6, 8, 0x20000, 4, 4)],
        vec![ElfSectionHeader::new(1, 6, 0x10000, 4, 4)],
    );
    let program = extract_program(&raw, &elf).unwrap();
    assert_eq!(program.code.address, 0x10000);
    assert_eq!(program.data.address, 0x20000);
    // the code segment is padded to its memory size
    assert_eq!(program.code.content.len(), 12);
    assert_eq!(&program.code.content[..4], &[0x13, 0, 0, 0]);
    assert_eq!(&program.code.content[4..], &[0u8; 8]);
    assert_eq!(program.data.content, vec![0x88, 0x77, 0x66, 0x55]);
    // the executable section names the instruction range
    assert_eq!(program.instruction_range.start, 0x10000);
    assert_eq!(program.instruction_range.end, 0x10004);
}

#[test]
fn legacy_zero_offset_code_comes_from_the_section() {
    // legacy images name file offset zero in the code header and leave the
    // real instruction bytes to the executable section
    let raw: Vec<u8> = vec![0x13, 0x00, 0x00, 0x00, 0x99];
    let elf = ElfFile::new(
        true,
        false,
        true,
        2,
        vec![header_row(5, 0, 0, 5, 5), header_row(6, 4, 0x20000, 1, 1)],
        vec![ElfSectionHeader::new(1, 6, 0x10000, 0, 4)],
    );
    let program = extract_program(&raw, &elf).unwrap();
    assert_eq!(program.code.address, 0x10000);
    assert_eq!(program.code.content, vec![0x13, 0, 0, 0]);
    assert_eq!(program.instruction_range.start, 0x10000);
    assert_eq!(program.instruction_range.end, 0x10004);
}

#[test]
fn extraction_rejects_libraries_and_missing_segments() {
    let lib = ElfFile::new(
        true,
        true,
        true,
        2,
        vec![header_row(5, 0, 0, 4, 4), header_row(6, 4, 0, 4, 4)],
        vec![],
    );
    assert!(matches!(extract_program(&vec![0u8; 8], &lib), Err(RiscuError::InvalidRiscu(_))));

    let one_segment = ElfFile::new(true, false, true, 1, vec![header_row(5, 0, 0, 4, 4)], vec![]);
    assert!(matches!(
        extract_program(&vec![0u8; 8], &one_segment),
        Err(RiscuError::InvalidRiscu(_)),
    ));

    let no_data = ElfFile::new(
        true,
        false,
        true,
        2,
        vec![header_row(5, 0, 0, 4, 4), header_row(5, 4, 0, 4, 4)],
        vec![],
    );
    assert!(matches!(
        extract_program(&vec![0u8; 8], &no_data),
        Err(RiscuError::InvalidRiscu(_)),
    ));
}

#[test]
fn decoding_failure_is_reported() {
    let program = Program {
        code: ProgramSegment { address: 0x10000, content: vec![0, 0, 0, 0] },
        data: ProgramSegment { address: 0x20000, content: vec![] },
        instruction_range: 0x10000..0x10004,
    };
    match program.decode() {
        Err(RiscuError::DecodingError(e)) => assert_eq!(e, DecodingError::Illegal),
        other => panic!("unexpected outcome: {:?}", other),
    }
}

#[test]
fn inconsistent_instruction_range_is_rejected() {
    let program = Program {
        code: ProgramSegment { address: 0x10000, content: vec![0x13, 0, 0, 0] },
        data: ProgramSegment { address: 0x20000, content: vec![] },
        instruction_range: 0x10000..0x20000,
    };
    assert!(matches!(program.decode(), Err(RiscuError::InvalidRiscu(_))));
}
