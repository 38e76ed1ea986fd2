use riscu::bits::{inv_permute16, inv_permute32, permute16, permute32};
use riscu::decompress::{decompress_q0, decompress_q1, decompress_q2};
use riscu::{decode, instruction_length, DecodingError, Instruction, Register};

#[test]
fn round_trip_through_encoding() {
    let samples = vec![
        Instruction::new_add(Register::A2, Register::A1, Register::A2),
        Instruction::new_sub(Register::A0, Register::A0, Register::A1),
        Instruction::new_mulhsu(Register::T3, Register::S9, Register::T6),
        Instruction::new_remuw(Register::S11, Register::A7, Register::T1),
        Instruction::new_addi(Register::A1, Register::Sp, 8),
        Instruction::new_addi(Register::T0, Register::T1, -2048),
        Instruction::new_xori(Register::S2, Register::S3, 2047),
        Instruction::new_slli(Register::A4, Register::A5, 63),
        Instruction::new_sraiw(Register::A4, Register::A5, 1024 + 17),
        Instruction::new_lwu(Register::A3, Register::A0, 24),
        Instruction::new_sd(Register::Sp, Register::S8, -16),
        Instruction::new_beq(Register::A5, Register::Zero, 8),
        Instruction::new_bgeu(Register::T4, Register::T5, -4096),
        Instruction::new_jal(Register::Ra, -32),
        Instruction::new_jalr(Register::Zero, Register::Ra, 0),
        Instruction::new_lui(Register::T0, 0x80000),
        Instruction::new_auipc(Register::Gp, 0x12345),
        Instruction::new_fence(Register::Zero, Register::Zero, 0x33),
        Instruction::new_ecall(),
        Instruction::new_ebreak(),
        Instruction::new_lrw(Register::A0, Register::A1, Register::Zero),
        Instruction::new_scd(Register::A0, Register::A1, Register::A2),
        Instruction::new_amomaxud(Register::T2, Register::S4, Register::S5),
    ];
    for instruction in samples {
        let word = encoding_of(&instruction);
        assert_eq!(decode(word).unwrap(), instruction);
    }
}

fn encoding_of(instruction: &Instruction) -> u32 {
    match *instruction {
        Instruction::Add(t) | Instruction::Sub(t) | Instruction::Mulhsu(t)
        | Instruction::Remuw(t) | Instruction::Lrw(t) | Instruction::Scd(t)
        | Instruction::Amomaxud(t) => t.0,
        Instruction::Addi(t) | Instruction::Xori(t) | Instruction::Slli(t)
        | Instruction::Sraiw(t) | Instruction::Lwu(t) | Instruction::Jalr(t)
        | Instruction::Fence(t) | Instruction::Ecall(t) | Instruction::Ebreak(t) => t.0,
        Instruction::Sd(t) => t.0,
        Instruction::Beq(t) | Instruction::Bgeu(t) => t.0,
        Instruction::Jal(t) => t.0,
        Instruction::Lui(t) | Instruction::Auipc(t) => t.0,
        _ => panic!("sample not covered"),
    }
}

#[test]
fn constructors_report_their_fields() {
    if let Instruction::Add(t) = Instruction::new_add(Register::A2, Register::A1, Register::A2) {
        assert_eq!(t.rd(), Register::A2);
        assert_eq!(t.rs1(), Register::A1);
        assert_eq!(t.rs2(), Register::A2);
    } else {
        panic!("wrong variant");
    }
    if let Instruction::Addi(t) = Instruction::new_addi(Register::A1, Register::Sp, -7) {
        assert_eq!(t.rd(), Register::A1);
        assert_eq!(t.rs1(), Register::Sp);
        assert_eq!(t.imm(), -7);
    } else {
        panic!("wrong variant");
    }
    if let Instruction::Sb(t) = Instruction::new_sb(Register::A3, Register::A4, 2047) {
        assert_eq!(t.rs1(), Register::A3);
        assert_eq!(t.rs2(), Register::A4);
        assert_eq!(t.imm(), 2047);
    } else {
        panic!("wrong variant");
    }
    if let Instruction::Bne(t) = Instruction::new_bne(Register::T0, Register::T1, -256) {
        assert_eq!(t.rs1(), Register::T0);
        assert_eq!(t.rs2(), Register::T1);
        assert_eq!(t.imm(), -256);
    } else {
        panic!("wrong variant");
    }
    if let Instruction::Lui(t) = Instruction::new_lui(Register::T0, 0x41) {
        assert_eq!(t.rd(), Register::T0);
        assert_eq!(t.imm(), 0x41);
    } else {
        panic!("wrong variant");
    }
    if let Instruction::Jal(t) = Instruction::new_jal(Register::Zero, -32) {
        assert_eq!(t.rd(), Register::Zero);
        assert_eq!(t.imm(), -32);
    } else {
        panic!("wrong variant");
    }
}

#[test]
fn zero_upper_immediate_is_accepted() {
    // lui t0, 0: the whole upper immediate field may be zero in the word
    if let Instruction::Lui(t) = decode(0x000002b7).unwrap() {
        assert_eq!(t.rd(), Register::T0);
        assert_eq!(t.imm(), 0x00000);
    } else {
        panic!("wrong variant");
    }
}

#[test]
fn ecall_has_its_canonical_encoding() {
    if let Instruction::Ecall(t) = Instruction::new_ecall() {
        assert_eq!(t.0, 0x00000073);
    } else {
        panic!("wrong variant");
    }
    if let Instruction::Ebreak(t) = Instruction::new_ebreak() {
        assert_eq!(t.0, 0x00100073);
    } else {
        panic!("wrong variant");
    }
}

#[test]
fn backward_jump_offset() {
    // jal x0, -32
    if let Instruction::Jal(t) = decode(0xfe1ff06f).unwrap() {
        assert_eq!(t.imm(), -32);
    } else {
        panic!("wrong variant");
    }
}

#[test]
fn decompression_scenarios() {
    // c.addi4spn a1, 8: re-decodes as addi a1, sp, 8
    let expanded = decompress_q0(0x002c).unwrap();
    if let Instruction::Addi(t) = decode(expanded).unwrap() {
        assert_eq!(t.rd(), Register::A1);
        assert_eq!(t.rs1(), Register::Sp);
        assert_eq!(t.imm(), 8);
    } else {
        panic!("wrong variant");
    }

    // c.li a1, 0: addi a1, zero, 0
    assert_eq!(decompress_q1(0x4581).unwrap(), 0x00000593);

    // c.beqz a5, +8: beq a5, zero, +8
    assert_eq!(decompress_q1(0xc781).unwrap(), 0x00078463);

    // the all-zero halfword is illegal
    assert_eq!(decompress_q0(0x0000), Err(DecodingError::Illegal));
}

#[test]
fn reserved_compressed_patterns_are_rejected() {
    // c.addi4spn with a zero immediate
    assert_eq!(decompress_q0(0x0004), Err(DecodingError::Reserved));
    // c.addi with a zero destination
    assert_eq!(decompress_q1(0x0005), Err(DecodingError::Reserved));
    // c.jr through the zero register
    assert_eq!(decompress_q2(0x8002), Err(DecodingError::Reserved));
}

#[test]
fn length_classification() {
    assert_eq!(instruction_length(0x0013), 4);
    assert_eq!(instruction_length(0x4581), 2);
    assert_eq!(instruction_length(0x001f), 6);
    assert_eq!(instruction_length(0x003f), 8);
    assert_eq!(instruction_length(0x707f), 24);
    let mut i: u32 = 0;
    while i <= 0xffff {
        let l = instruction_length(i as u16);
        assert!(l >= 2 && l <= 24 && l % 2 == 0);
        if i & 3 == 3 && i & 0b11100 != 0b11100 {
            assert_eq!(l, 4);
        }
        i += 1;
    }
}

#[test]
fn decoding_error_variants() {
    assert_eq!(decode(0x0000000b), Err(DecodingError::Custom)); // custom-0 space
    assert_eq!(decode(0x0000001f), Err(DecodingError::Reserved)); // 48-bit space
    assert_eq!(decode(0x00002063), Err(DecodingError::Unknown)); // branch funct3 010
    assert_eq!(decode(0x00000007), Err(DecodingError::Unimplemented)); // load-fp
    assert_eq!(decode(0x00000000), Err(DecodingError::Illegal)); // zero compressed word
}

#[test]
fn permutation_round_trips() {
    let table: [usize; 5] = [5, 4, 3, 2, 6];
    let packed = permute16(0b101_0110, &table);
    // scattering and regathering returns the packed value
    assert_eq!(permute16(inv_permute16(packed & 0x1f, &table), &table), packed & 0x1f);
    // a value whose bits all lie at listed positions survives the other order
    let scattered: u16 = 0b0111_1100; // bits 2..6, all named by the table
    assert_eq!(inv_permute16(permute16(scattered, &table), &table), scattered);

    let wide: [usize; 6] = [17, 16, 15, 14, 13, 12];
    assert_eq!(permute32(inv_permute32(0b10_1101, &wide), &wide), 0b10_1101);
    assert_eq!(inv_permute32(permute32(0b10_1101 << 12, &wide), &wide), 0b10_1101 << 12);
}

#[test]
fn nop_is_addi_zero() {
    assert_eq!(
        Instruction::new_nop(),
        Instruction::new_addi(Register::Zero, Register::Zero, 0),
    );
}

#[test]
fn shared_shift_encoder_picks_the_variant() {
    // srai s0, s0, 3 carries the arithmetic mark in immediate bit 10
    if let Instruction::Srai(t) = Instruction::new_srli_srai(Register::Fp, Register::Fp, 0x400 | 3)
    {
        assert_eq!(t.0, 0x40345413);
    } else {
        panic!("wrong variant");
    }
    if let Instruction::Srli(t) = Instruction::new_srli_srai(Register::Fp, Register::Fp, 3) {
        assert_eq!(t.0, 0x00345413);
    } else {
        panic!("wrong variant");
    }
}
