use fvm::decoder::{decode_all, operand, DecodedInstruction, Decoder};
use fvm::opcodes::{Opcode, Version};

#[test]
fn operand_bytes_are_skipped() {
    let code = [0x60u8, 0x05, 0x01, 0x00];
    let out = decode_all(&code, Version::Extended);
    assert_eq!(
        out,
        vec![
            DecodedInstruction { offset: 0, opcode: Opcode::PUSH(1), size: 2 },
            DecodedInstruction { offset: 2, opcode: Opcode::ADD, size: 1 },
            DecodedInstruction { offset: 3, opcode: Opcode::STOP, size: 1 },
        ]
    );
}

#[test]
fn a_truncated_push_ends_the_stream() {
    let code = [0x7fu8];
    let out = decode_all(&code, Version::Extended);
    assert_eq!(out, vec![DecodedInstruction { offset: 0, opcode: Opcode::PUSH(32), size: 33 }]);

    let mut decoder = Decoder::new(&code, Version::Minimal);
    assert!(!decoder.is_done());
    assert_eq!(
        decoder.next(),
        Some(DecodedInstruction { offset: 0, opcode: Opcode::PUSH(32), size: 33 })
    );
    assert_eq!(decoder.offset(), 33);
    assert!(decoder.is_done());
    assert_eq!(decoder.next(), None);
    assert_eq!(decoder.offset(), 33);
}

#[test]
fn missing_operand_bytes_are_zero() {
    let code = [0x62u8, 0xaa, 0xbb];
    let out = decode_all(&code, Version::Extended);
    assert_eq!(out.len(), 1);
    assert_eq!(out[0], DecodedInstruction { offset: 0, opcode: Opcode::PUSH(3), size: 4 });
    assert_eq!(operand(&code, &out[0]), vec![0xaa, 0xbb, 0x00]);

    let alone = [0x7fu8];
    let out = decode_all(&alone, Version::Extended);
    assert_eq!(operand(&alone, &out[0]), vec![0u8; 32]);
}

#[test]
fn operand_of_a_whole_push() {
    let code = [0x61u8, 0x12, 0x34, 0x01];
    let out = decode_all(&code, Version::Minimal);
    assert_eq!(out.len(), 2);
    assert_eq!(operand(&code, &out[0]), vec![0x12, 0x34]);
    assert_eq!(operand(&code, &out[1]), Vec::<u8>::new());
}

#[test]
fn decoding_twice_gives_the_same() {
    let code = [0x60u8, 0x80, 0x60, 0x40, 0x52, 0x34, 0x80, 0x15, 0x61, 0x00, 0x10, 0x57, 0xfe];
    for version in [Version::Minimal, Version::Extended] {
        let first = decode_all(&code, version);
        let second = decode_all(&code, version);
        assert_eq!(first, second);

        let mut one = Decoder::new(&code, version);
        let mut other = Decoder::new(&code, version);
        loop {
            let a = one.next();
            let b = other.next();
            assert_eq!(a, b);
            if a.is_none() {
                break;
            }
        }
    }
}

#[test]
fn the_empty_program_has_no_instruction() {
    let code: [u8; 0] = [];
    assert_eq!(decode_all(&code, Version::Extended), vec![]);
    let mut decoder = Decoder::new(&code, Version::Extended);
    assert!(decoder.is_done());
    assert_eq!(decoder.next(), None);
    assert_eq!(decoder.offset(), 0);
}

#[test]
fn the_decoder_steps_like_decode_all() {
    let code = [0x60u8, 0x01, 0x60, 0x02, 0x01, 0x56, 0x5b, 0x00];
    let all = decode_all(&code, Version::Extended);
    let mut decoder = Decoder::new(&code, Version::Extended);
    let mut stepped = Vec::new();
    while let Some(instruction) = decoder.next() {
        assert_eq!(decoder.offset(), instruction.offset + instruction.size);
        stepped.push(instruction);
    }
    assert_eq!(stepped, all);
    assert_eq!(
        all.iter().map(|i| i.opcode).collect::<Vec<Opcode>>(),
        vec![
            Opcode::PUSH(1),
            Opcode::PUSH(1),
            Opcode::ADD,
            Opcode::JUMP,
            Opcode::JUMPDEST,
            Opcode::STOP
        ]
    );
}

#[test]
fn the_version_decides_what_a_program_is() {
    let code = [0x60u8, 0x00, 0x56, 0x20];
    let minimal = decode_all(&code, Version::Minimal);
    let extended = decode_all(&code, Version::Extended);
    assert_eq!(
        minimal,
        vec![
            DecodedInstruction { offset: 0, opcode: Opcode::PUSH(1), size: 2 },
            DecodedInstruction { offset: 2, opcode: Opcode::INVALID, size: 1 },
            DecodedInstruction { offset: 3, opcode: Opcode::INVALID, size: 1 },
        ]
    );
    assert_eq!(
        extended,
        vec![
            DecodedInstruction { offset: 0, opcode: Opcode::PUSH(1), size: 2 },
            DecodedInstruction { offset: 2, opcode: Opcode::JUMP, size: 1 },
            DecodedInstruction { offset: 3, opcode: Opcode::SHA3, size: 1 },
        ]
    );
}

#[test]
fn instructions_stand_one_behind_the_other() {
    let code: Vec<u8> = (0..=255u8).collect();
    for version in [Version::Minimal, Version::Extended] {
        let out = decode_all(&code, version);
        assert!(out.len() <= code.len());
        assert_eq!(out[0].offset, 0);
        for pair in out.windows(2) {
            assert_eq!(pair[1].offset, pair[0].offset + pair[0].size);
        }
        for instruction in &out {
            assert_eq!(instruction.opcode, Opcode::decode(code[instruction.offset], version));
        }
    }
}
