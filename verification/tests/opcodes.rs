use fvm::instruction::{Instruction, InstructionError};
use fvm::opcodes::{Opcode, Version};

const VERSIONS: [Version; 2] = [Version::Minimal, Version::Extended];

#[test]
fn every_byte_has_an_opcode_under_every_version() {
    for version in VERSIONS {
        for byte in 0..=255u8 {
            let op = Opcode::decode(byte, version);
            assert_eq!(op, Opcode::decode(byte, version));
            assert_eq!(op.get_cycles(), Ok(1));
            assert!(op.size().is_ok());
        }
    }
}

#[test]
fn push_family() {
    for version in VERSIONS {
        for n in 1..=32u64 {
            let byte = 0x60 + (n as u8 - 1);
            let op = Opcode::decode(byte, version);
            assert_eq!(op, Opcode::PUSH(n));
            assert_eq!(op.size(), Ok(n as usize + 1));
        }
    }
    assert_eq!(Opcode::decode(0x60, Version::Extended), Opcode::PUSH(1));
    assert_eq!(Opcode::decode(0x7f, Version::Minimal), Opcode::PUSH(32));
    assert_eq!(Opcode::PUSH(32).size(), Ok(33));
}

#[test]
fn dup_and_swap_families() {
    for version in VERSIONS {
        for n in 1..=16u64 {
            assert_eq!(Opcode::decode(0x80 + (n as u8 - 1), version), Opcode::DUP(n));
            assert_eq!(Opcode::decode(0x90 + (n as u8 - 1), version), Opcode::SWAP(n));
            assert_eq!(Opcode::DUP(n).size(), Ok(1));
            assert_eq!(Opcode::SWAP(n).size(), Ok(1));
        }
    }
    assert_eq!(Opcode::decode(0x8f, Version::Minimal), Opcode::DUP(16));
    assert_eq!(Opcode::decode(0x9f, Version::Extended), Opcode::SWAP(16));
}

#[test]
fn log_family() {
    for version in VERSIONS {
        for n in 0..=4u64 {
            assert_eq!(Opcode::decode(0xa0 + n as u8, version), Opcode::LOG(n));
            assert_eq!(Opcode::LOG(n).size(), Ok(1));
        }
        assert_eq!(Opcode::decode(0xa5, version), Opcode::INVALID);
    }
}

#[test]
fn versions_are_isolated() {
    assert_eq!(Opcode::decode(0x20, Version::Minimal), Opcode::INVALID);
    assert_eq!(Opcode::decode(0x20, Version::Extended), Opcode::SHA3);
    for byte in 0..=255u8 {
        let minimal = Opcode::decode(byte, Version::Minimal);
        let extended = Opcode::decode(byte, Version::Extended);
        assert!(minimal == Opcode::INVALID || minimal == extended);
        if extended.in_minimal() {
            assert_eq!(minimal, extended);
        } else {
            assert_eq!(minimal, Opcode::INVALID);
        }
    }
}

#[test]
fn minimal_table_holds_no_control_flow() {
    let absent: [u8; 6] = [0x50, 0x56, 0x57, 0x58, 0x5a, 0x5b];
    for byte in absent {
        assert_eq!(Opcode::decode(byte, Version::Minimal), Opcode::INVALID);
    }
    assert_eq!(Opcode::decode(0x50, Version::Extended), Opcode::POP);
    assert_eq!(Opcode::decode(0x56, Version::Extended), Opcode::JUMP);
    assert_eq!(Opcode::decode(0x57, Version::Extended), Opcode::JUMPI);
    assert_eq!(Opcode::decode(0x58, Version::Extended), Opcode::PC);
    assert_eq!(Opcode::decode(0x5a, Version::Extended), Opcode::GAS);
    assert_eq!(Opcode::decode(0x5b, Version::Extended), Opcode::JUMPDEST);
}

#[test]
fn minimal_table_holds_memory_and_storage() {
    for version in VERSIONS {
        assert_eq!(Opcode::decode(0x51, version), Opcode::MLOAD);
        assert_eq!(Opcode::decode(0x52, version), Opcode::MSTORE);
        assert_eq!(Opcode::decode(0x53, version), Opcode::MSTORE8);
        assert_eq!(Opcode::decode(0x54, version), Opcode::SLOAD);
        assert_eq!(Opcode::decode(0x55, version), Opcode::SSTORE);
        assert_eq!(Opcode::decode(0x59, version), Opcode::MSIZE);
    }
}

#[test]
fn arithmetic_bytes_are_the_same_in_both_tables() {
    let expected = [
        (0x00u8, Opcode::STOP),
        (0x01, Opcode::ADD),
        (0x02, Opcode::MUL),
        (0x03, Opcode::SUB),
        (0x04, Opcode::DIV),
        (0x05, Opcode::SDIV),
        (0x06, Opcode::MOD),
        (0x07, Opcode::SMOD),
        (0x08, Opcode::ADDMOD),
        (0x09, Opcode::MULMOD),
        (0x0a, Opcode::EXP),
        (0x0b, Opcode::SIGNEXTEND),
        (0x10, Opcode::LT),
        (0x11, Opcode::GT),
        (0x12, Opcode::SLT),
        (0x13, Opcode::SGT),
        (0x14, Opcode::EQ),
        (0x15, Opcode::ISZERO),
        (0x16, Opcode::AND),
        (0x17, Opcode::OR),
        (0x18, Opcode::XOR),
        (0x19, Opcode::NOT),
        (0x1a, Opcode::BYTE),
    ];
    for version in VERSIONS {
        for (byte, op) in expected {
            assert_eq!(Opcode::decode(byte, version), op);
        }
        for byte in [0x0cu8, 0x0d, 0x0e, 0x0f, 0x1b, 0x1c, 0x1f] {
            assert_eq!(Opcode::decode(byte, version), Opcode::INVALID);
        }
    }
}

#[test]
fn environment_and_block_bytes_are_extended_only() {
    let expected = [
        (0x30u8, Opcode::ADDRESS),
        (0x31, Opcode::BALANCE),
        (0x32, Opcode::ORIGIN),
        (0x33, Opcode::CALLER),
        (0x34, Opcode::CALLVALUE),
        (0x35, Opcode::CALLDATALOAD),
        (0x36, Opcode::CALLDATASIZE),
        (0x37, Opcode::CALLDATACOPY),
        (0x38, Opcode::CODESIZE),
        (0x39, Opcode::CODECOPY),
        (0x3a, Opcode::GASPRICE),
        (0x3b, Opcode::EXTCODESIZE),
        (0x3c, Opcode::EXTCODECOPY),
        (0x3d, Opcode::RETURNDATASIZE),
        (0x3e, Opcode::RETURNDATACOPY),
        (0x40, Opcode::BLOCKHASH),
        (0x41, Opcode::COINBASE),
        (0x42, Opcode::TIMESTAMP),
        (0x43, Opcode::NUMBER),
        (0x44, Opcode::DIFFICULTY),
        (0x45, Opcode::GASLIMIT),
    ];
    for (byte, op) in expected {
        assert_eq!(Opcode::decode(byte, Version::Extended), op);
        assert_eq!(Opcode::decode(byte, Version::Minimal), Opcode::INVALID);
    }
}

#[test]
fn system_bytes_are_extended_only() {
    let expected = [
        (0xf0u8, Opcode::CREATE),
        (0xf1, Opcode::CALL),
        (0xf2, Opcode::CALLCODE),
        (0xf3, Opcode::RETURN),
        (0xf4, Opcode::DELEGATECALL),
    ];
    for (byte, op) in expected {
        assert_eq!(Opcode::decode(byte, Version::Extended), op);
        assert_eq!(Opcode::decode(byte, Version::Minimal), Opcode::INVALID);
    }
}

#[test]
fn unknown_byte() {
    for version in VERSIONS {
        let op = Opcode::decode(0xf5, version);
        assert_eq!(op, Opcode::INVALID);
        assert_eq!(op.size(), Ok(1));
    }
}

#[test]
fn invalid_and_suicide_bytes() {
    for version in VERSIONS {
        assert_eq!(Opcode::decode(0xfe, version), Opcode::INVALID);
        assert_eq!(Opcode::decode(0xff, version), Opcode::SUICIDE);
    }
}

#[test]
fn from_a_byte_reads_the_extended_table() {
    for byte in 0..=255u8 {
        assert_eq!(Opcode::from(&byte), Opcode::decode(byte, Version::Extended));
    }
    assert_eq!(Opcode::from(&0x01), Opcode::ADD);
    assert_eq!(Opcode::from(&0x5b), Opcode::JUMPDEST);
}

#[test]
fn unit_opcodes_take_one_byte() {
    assert_eq!(Opcode::STOP.size(), Ok(1));
    assert_eq!(Opcode::SLOAD.size(), Ok(1));
    assert_eq!(Opcode::INVALID.size(), Ok(1));
    assert_eq!(Opcode::DELEGATECALL.size(), Ok(1));
}

#[test]
fn every_opcode_costs_one_cycle() {
    assert_eq!(Opcode::ADD.get_cycles(), Ok(1));
    assert_eq!(Opcode::PUSH(32).get_cycles(), Ok(1));
    assert_eq!(Opcode::INVALID.get_cycles(), Ok(1));
}

#[test]
fn a_size_past_the_machine_word_is_an_error() {
    if usize::BITS <= 64 {
        assert_eq!(Opcode::PUSH(u64::MAX).size(), Err(InstructionError::SizeOverflow));
    }
    assert_eq!(Opcode::PUSH(100).size(), Ok(101));
    assert_eq!(
        InstructionError::SizeOverflow.message(),
        "instruction size does not fit the machine word"
    );
}
