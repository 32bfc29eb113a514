//! The opcode catalog and the versioned table from a byte to its opcode.

use vstd::prelude::*;

verus! {

/// The instructions of the machine. `PUSH`, `DUP`, `SWAP` and `LOG` carry the
/// small number that their opcode byte encodes; `INVALID` stands for every
/// byte that has no instruction of its own.
#[derive(PartialEq, Eq, Structural, Hash, Debug, Clone, Copy)]
pub enum Opcode {
    STOP,
    ADD,
    MUL,
    SUB,
    DIV,
    SDIV,
    MOD,
    SMOD,
    ADDMOD,
    MULMOD,
    EXP,
    SIGNEXTEND,
    LT,
    GT,
    SLT,
    SGT,
    EQ,
    ISZERO,
    AND,
    OR,
    XOR,
    NOT,
    BYTE,
    SHA3,
    ADDRESS,
    BALANCE,
    ORIGIN,
    CALLER,
    CALLVALUE,
    CALLDATALOAD,
    CALLDATASIZE,
    CALLDATACOPY,
    CODESIZE,
    CODECOPY,
    GASPRICE,
    EXTCODESIZE,
    EXTCODECOPY,
    RETURNDATASIZE,
    RETURNDATACOPY,
    BLOCKHASH,
    COINBASE,
    TIMESTAMP,
    NUMBER,
    DIFFICULTY,
    GASLIMIT,
    SLOAD,
    SSTORE,
    JUMP,
    JUMPI,
    PC,
    POP,
    MLOAD,
    MSTORE,
    MSTORE8,
    MSIZE,
    GAS,
    JUMPDEST,
    PUSH(u64),
    DUP(u64),
    SWAP(u64),
    LOG(u64),
    INVALID,
    SUICIDE,
    CREATE,
    CALL,
    CALLCODE,
    RETURN,
    DELEGATECALL,
}

/// The two points of the protocol's history at which the table is fixed.
#[derive(PartialEq, Eq, Structural, Hash, Debug, Clone, Copy)]
pub enum Version {
    /// Arithmetic, comparison and bitwise instructions, plain memory and
    /// storage access, and the four parameterised families.
    Minimal,
    /// The minimal table together with hashing, environment and block
    /// information, control flow and the system instructions.
    Extended,
}

/// The instruction of a byte in `0x00..=0x1a`: arithmetic, comparison and
/// bitwise logic. Every other byte gives `INVALID`.
pub open spec fn arithmetic_opcode(byte: u8) -> Opcode {
    match byte {
        0x00 => Opcode::STOP,
        0x01 => Opcode::ADD,
        0x02 => Opcode::MUL,
        0x03 => Opcode::SUB,
        0x04 => Opcode::DIV,
        0x05 => Opcode::SDIV,
        0x06 => Opcode::MOD,
        0x07 => Opcode::SMOD,
        0x08 => Opcode::ADDMOD,
        0x09 => Opcode::MULMOD,
        0x0a => Opcode::EXP,
        0x0b => Opcode::SIGNEXTEND,
        0x10 => Opcode::LT,
        0x11 => Opcode::GT,
        0x12 => Opcode::SLT,
        0x13 => Opcode::SGT,
        0x14 => Opcode::EQ,
        0x15 => Opcode::ISZERO,
        0x16 => Opcode::AND,
        0x17 => Opcode::OR,
        0x18 => Opcode::XOR,
        0x19 => Opcode::NOT,
        0x1a => Opcode::BYTE,
        _ => Opcode::INVALID,
    }
}

/// The memory and storage instructions that both tables hold.
pub open spec fn memory_opcode(byte: u8) -> Opcode {
    match byte {
        0x51 => Opcode::MLOAD,
        0x52 => Opcode::MSTORE,
        0x53 => Opcode::MSTORE8,
        0x54 => Opcode::SLOAD,
        0x55 => Opcode::SSTORE,
        0x59 => Opcode::MSIZE,
        _ => Opcode::INVALID,
    }
}

/// The instruction of a byte whose number is part of the byte itself:
/// `PUSH(n)` at `0x60 + (n - 1)`, `DUP(n)` at `0x80 + (n - 1)`, `SWAP(n)` at
/// `0x90 + (n - 1)` and `LOG(n)` at `0xa0 + n`.
pub open spec fn family_opcode(byte: u8) -> Opcode {
    if 0x60 <= byte <= 0x7f {
        Opcode::PUSH((byte - 0x60 + 1) as u64)
    } else if 0x80 <= byte <= 0x8f {
        Opcode::DUP((byte - 0x80 + 1) as u64)
    } else if 0x90 <= byte <= 0x9f {
        Opcode::SWAP((byte - 0x90 + 1) as u64)
    } else if 0xa0 <= byte <= 0xa4 {
        Opcode::LOG((byte - 0xa0) as u64)
    } else {
        Opcode::INVALID
    }
}

/// What every version of the table holds.
pub open spec fn common_opcode(byte: u8) -> Opcode {
    if byte <= 0x1a {
        arithmetic_opcode(byte)
    } else if 0x50 <= byte <= 0x5f {
        memory_opcode(byte)
    } else if 0x60 <= byte <= 0xa4 {
        family_opcode(byte)
    } else if byte == 0xff {
        Opcode::SUICIDE
    } else {
        Opcode::INVALID
    }
}

/// What the extended table adds to the common one: hashing, environment and
/// block information, the stack and control-flow instructions, and the system
/// instructions.
pub open spec fn extension_opcode(byte: u8) -> Opcode {
    match byte {
        0x20 => Opcode::SHA3,
        0x30 => Opcode::ADDRESS,
        0x31 => Opcode::BALANCE,
        0x32 => Opcode::ORIGIN,
        0x33 => Opcode::CALLER,
        0x34 => Opcode::CALLVALUE,
        0x35 => Opcode::CALLDATALOAD,
        0x36 => Opcode::CALLDATASIZE,
        0x37 => Opcode::CALLDATACOPY,
        0x38 => Opcode::CODESIZE,
        0x39 => Opcode::CODECOPY,
        0x3a => Opcode::GASPRICE,
        0x3b => Opcode::EXTCODESIZE,
        0x3c => Opcode::EXTCODECOPY,
        0x3d => Opcode::RETURNDATASIZE,
        0x3e => Opcode::RETURNDATACOPY,
        0x40 => Opcode::BLOCKHASH,
        0x41 => Opcode::COINBASE,
        0x42 => Opcode::TIMESTAMP,
        0x43 => Opcode::NUMBER,
        0x44 => Opcode::DIFFICULTY,
        0x45 => Opcode::GASLIMIT,
        0x50 => Opcode::POP,
        0x56 => Opcode::JUMP,
        0x57 => Opcode::JUMPI,
        0x58 => Opcode::PC,
        0x5a => Opcode::GAS,
        0x5b => Opcode::JUMPDEST,
        0xf0 => Opcode::CREATE,
        0xf1 => Opcode::CALL,
        0xf2 => Opcode::CALLCODE,
        0xf3 => Opcode::RETURN,
        0xf4 => Opcode::DELEGATECALL,
        _ => Opcode::INVALID,
    }
}

/// The table: the opcode of `byte` under `version`. It is total: a byte
/// without an instruction of its own gives `INVALID`.
pub open spec fn opcode_of(byte: u8, version: Version) -> Opcode {
    if common_opcode(byte) != Opcode::INVALID {
        common_opcode(byte)
    } else if version == Version::Extended {
        extension_opcode(byte)
    } else {
        Opcode::INVALID
    }
}

impl Opcode {
    /// The number that a `PUSH`, `DUP`, `SWAP` or `LOG` carries lies in the
    /// range that an opcode byte can encode: 1 to 32 for `PUSH`, 1 to 16 for
    /// `DUP` and `SWAP`, 0 to 4 for `LOG`.
    pub open spec fn wf(self) -> bool {
        match self {
            Opcode::PUSH(n) => 1 <= n <= 32,
            Opcode::DUP(n) => 1 <= n <= 16,
            Opcode::SWAP(n) => 1 <= n <= 16,
            Opcode::LOG(n) => n <= 4,
            _ => true,
        }
    }

    /// Whether the minimal table holds this opcode.
    pub open spec fn spec_in_minimal(self) -> bool {
        match self {
            Opcode::SHA3
            | Opcode::ADDRESS
            | Opcode::BALANCE
            | Opcode::ORIGIN
            | Opcode::CALLER
            | Opcode::CALLVALUE
            | Opcode::CALLDATALOAD
            | Opcode::CALLDATASIZE
            | Opcode::CALLDATACOPY
            | Opcode::CODESIZE
            | Opcode::CODECOPY
            | Opcode::GASPRICE
            | Opcode::EXTCODESIZE
            | Opcode::EXTCODECOPY
            | Opcode::RETURNDATASIZE
            | Opcode::RETURNDATACOPY
            | Opcode::BLOCKHASH
            | Opcode::COINBASE
            | Opcode::TIMESTAMP
            | Opcode::NUMBER
            | Opcode::DIFFICULTY
            | Opcode::GASLIMIT
            | Opcode::POP
            | Opcode::JUMP
            | Opcode::JUMPI
            | Opcode::PC
            | Opcode::GAS
            | Opcode::JUMPDEST
            | Opcode::CREATE
            | Opcode::CALL
            | Opcode::CALLCODE
            | Opcode::RETURN
            | Opcode::DELEGATECALL => false,
            _ => true,
        }
    }

    /// Whether the minimal table holds this opcode.
    #[verifier::when_used_as_spec(spec_in_minimal)]
    pub fn in_minimal(self) -> (held: bool)
        ensures
            held == self.spec_in_minimal(),
    {
        match self {
            Opcode::SHA3
            | Opcode::ADDRESS
            | Opcode::BALANCE
            | Opcode::ORIGIN
            | Opcode::CALLER
            | Opcode::CALLVALUE
            | Opcode::CALLDATALOAD
            | Opcode::CALLDATASIZE
            | Opcode::CALLDATACOPY
            | Opcode::CODESIZE
            | Opcode::CODECOPY
            | Opcode::GASPRICE
            | Opcode::EXTCODESIZE
            | Opcode::EXTCODECOPY
            | Opcode::RETURNDATASIZE
            | Opcode::RETURNDATACOPY
            | Opcode::BLOCKHASH
            | Opcode::COINBASE
            | Opcode::TIMESTAMP
            | Opcode::NUMBER
            | Opcode::DIFFICULTY
            | Opcode::GASLIMIT
            | Opcode::POP
            | Opcode::JUMP
            | Opcode::JUMPI
            | Opcode::PC
            | Opcode::GAS
            | Opcode::JUMPDEST
            | Opcode::CREATE
            | Opcode::CALL
            | Opcode::CALLCODE
            | Opcode::RETURN
            | Opcode::DELEGATECALL => false,
            _ => true,
        }
    }
}

impl<'a> vstd::std_specs::convert::FromSpecImpl<&'a u8> for Opcode {
    open spec fn obeys_from_spec() -> bool {
        true
    }

    open spec fn from_spec(byte: &'a u8) -> Opcode {
        opcode_of(*byte, Version::Extended)
    }
}

/// A byte read under the extended table.
impl<'a> From<&'a u8> for Opcode {
    fn from(byte: &'a u8) -> (op: Opcode)
        ensures
            op == opcode_of(*byte, Version::Extended),
            op.wf(),
    {
        match *byte {
            // Arithmetic, comparison and bitwise logic
            0x00 => Opcode::STOP,
            0x01 => Opcode::ADD,
            0x02 => Opcode::MUL,
            0x03 => Opcode::SUB,
            0x04 => Opcode::DIV,
            0x05 => Opcode::SDIV,
            0x06 => Opcode::MOD,
            0x07 => Opcode::SMOD,
            0x08 => Opcode::ADDMOD,
            0x09 => Opcode::MULMOD,
            0x0a => Opcode::EXP,
            0x0b => Opcode::SIGNEXTEND,
            0x10 => Opcode::LT,
            0x11 => Opcode::GT,
            0x12 => Opcode::SLT,
            0x13 => Opcode::SGT,
            0x14 => Opcode::EQ,
            0x15 => Opcode::ISZERO,
            0x16 => Opcode::AND,
            0x17 => Opcode::OR,
            0x18 => Opcode::XOR,
            0x19 => Opcode::NOT,
            0x1a => Opcode::BYTE,
            // Hashing
            0x20 => Opcode::SHA3,
            // Environment
            0x30 => Opcode::ADDRESS,
            0x31 => Opcode::BALANCE,
            0x32 => Opcode::ORIGIN,
            0x33 => Opcode::CALLER,
            0x34 => Opcode::CALLVALUE,
            0x35 => Opcode::CALLDATALOAD,
            0x36 => Opcode::CALLDATASIZE,
            0x37 => Opcode::CALLDATACOPY,
            0x38 => Opcode::CODESIZE,
            0x39 => Opcode::CODECOPY,
            0x3a => Opcode::GASPRICE,
            0x3b => Opcode::EXTCODESIZE,
            0x3c => Opcode::EXTCODECOPY,
            0x3d => Opcode::RETURNDATASIZE,
            0x3e => Opcode::RETURNDATACOPY,
            // Block information
            0x40 => Opcode::BLOCKHASH,
            0x41 => Opcode::COINBASE,
            0x42 => Opcode::TIMESTAMP,
            0x43 => Opcode::NUMBER,
            0x44 => Opcode::DIFFICULTY,
            0x45 => Opcode::GASLIMIT,
            // Stack, memory, storage and control flow
            0x50 => Opcode::POP,
            0x51 => Opcode::MLOAD,
            0x52 => Opcode::MSTORE,
            0x53 => Opcode::MSTORE8,
            0x54 => Opcode::SLOAD,
            0x55 => Opcode::SSTORE,
            0x56 => Opcode::JUMP,
            0x57 => Opcode::JUMPI,
            0x58 => Opcode::PC,
            0x59 => Opcode::MSIZE,
            0x5a => Opcode::GAS,
            0x5b => Opcode::JUMPDEST,
            // Push
            0x60 => Opcode::PUSH(1),
            0x61 => Opcode::PUSH(2),
            0x62 => Opcode::PUSH(3),
            0x63 => Opcode::PUSH(4),
            0x64 => Opcode::PUSH(5),
            0x65 => Opcode::PUSH(6),
            0x66 => Opcode::PUSH(7),
            0x67 => Opcode::PUSH(8),
            0x68 => Opcode::PUSH(9),
            0x69 => Opcode::PUSH(10),
            0x6a => Opcode::PUSH(11),
            0x6b => Opcode::PUSH(12),
            0x6c => Opcode::PUSH(13),
            0x6d => Opcode::PUSH(14),
            0x6e => Opcode::PUSH(15),
            0x6f => Opcode::PUSH(16),
            0x70 => Opcode::PUSH(17),
            0x71 => Opcode::PUSH(18),
            0x72 => Opcode::PUSH(19),
            0x73 => Opcode::PUSH(20),
            0x74 => Opcode::PUSH(21),
            0x75 => Opcode::PUSH(22),
            0x76 => Opcode::PUSH(23),
            0x77 => Opcode::PUSH(24),
            0x78 => Opcode::PUSH(25),
            0x79 => Opcode::PUSH(26),
            0x7a => Opcode::PUSH(27),
            0x7b => Opcode::PUSH(28),
            0x7c => Opcode::PUSH(29),
            0x7d => Opcode::PUSH(30),
            0x7e => Opcode::PUSH(31),
            0x7f => Opcode::PUSH(32),
            // Duplication
            0x80 => Opcode::DUP(1),
            0x81 => Opcode::DUP(2),
            0x82 => Opcode::DUP(3),
            0x83 => Opcode::DUP(4),
            0x84 => Opcode::DUP(5),
            0x85 => Opcode::DUP(6),
            0x86 => Opcode::DUP(7),
            0x87 => Opcode::DUP(8),
            0x88 => Opcode::DUP(9),
            0x89 => Opcode::DUP(10),
            0x8a => Opcode::DUP(11),
            0x8b => Opcode::DUP(12),
            0x8c => Opcode::DUP(13),
            0x8d => Opcode::DUP(14),
            0x8e => Opcode::DUP(15),
            0x8f => Opcode::DUP(16),
            // Swap
            0x90 => Opcode::SWAP(1),
            0x91 => Opcode::SWAP(2),
            0x92 => Opcode::SWAP(3),
            0x93 => Opcode::SWAP(4),
            0x94 => Opcode::SWAP(5),
            0x95 => Opcode::SWAP(6),
            0x96 => Opcode::SWAP(7),
            0x97 => Opcode::SWAP(8),
            0x98 => Opcode::SWAP(9),
            0x99 => Opcode::SWAP(10),
            0x9a => Opcode::SWAP(11),
            0x9b => Opcode::SWAP(12),
            0x9c => Opcode::SWAP(13),
            0x9d => Opcode::SWAP(14),
            0x9e => Opcode::SWAP(15),
            0x9f => Opcode::SWAP(16),
            // Logging
            0xa0 => Opcode::LOG(0),
            0xa1 => Opcode::LOG(1),
            0xa2 => Opcode::LOG(2),
            0xa3 => Opcode::LOG(3),
            0xa4 => Opcode::LOG(4),
            // System
            0xf0 => Opcode::CREATE,
            0xf1 => Opcode::CALL,
            0xf2 => Opcode::CALLCODE,
            0xf3 => Opcode::RETURN,
            0xf4 => Opcode::DELEGATECALL,
            0xfe => Opcode::INVALID,
            0xff => Opcode::SUICIDE,
            _ => Opcode::INVALID,
        }
    }
}

impl Opcode {
    /// Reads one byte under the table of `version`. Every byte has an opcode:
    /// one that the table does not hold reads as `INVALID`.
    pub fn decode(byte: u8, version: Version) -> (op: Opcode)
        ensures
            op == opcode_of(byte, version),
            op.wf(),
    {
        let op = Opcode::from(&byte);
        match version {
            Version::Extended => op,
            Version::Minimal => if op.in_minimal() {
                op
            } else {
                Opcode::INVALID
            },
        }
    }
}

/// Under every version the byte `0x80 + (n - 1)` is `DUP(n)` and the byte
/// `0x90 + (n - 1)` is `SWAP(n)`, for `n` from 1 to 16.
pub proof fn lemma_dup_and_swap_bytes(n: u64, version: Version)
    requires
        1 <= n <= 16,
    ensures
        opcode_of((0x80 + (n - 1)) as u8, version) == Opcode::DUP(n),
        opcode_of((0x90 + (n - 1)) as u8, version) == Opcode::SWAP(n),
{
}

/// Under every version the byte `0xa0 + n` is `LOG(n)`, for `n` from 0 to 4.
pub proof fn lemma_log_bytes(n: u64, version: Version)
    requires
        n <= 4,
    ensures
        opcode_of((0xa0 + n) as u8, version) == Opcode::LOG(n),
{
}

/// The table is total and every opcode in it is well formed; a `PUSH`,
/// `DUP`, `SWAP` or `LOG` in it stands at the byte that encodes its number.
pub proof fn lemma_table_is_well_formed(byte: u8, version: Version)
    ensures
        opcode_of(byte, version).wf(),
        opcode_of(byte, version) matches Opcode::PUSH(n) ==> byte == 0x60 + (n - 1),
        opcode_of(byte, version) matches Opcode::DUP(n) ==> byte == 0x80 + (n - 1),
        opcode_of(byte, version) matches Opcode::SWAP(n) ==> byte == 0x90 + (n - 1),
        opcode_of(byte, version) matches Opcode::LOG(n) ==> byte == 0xa0 + n,
{
}

/// The versions are kept apart. A byte that only the extended table holds is
/// `INVALID` under the minimal one, and the minimal table is the extended one
/// without the opcodes that it does not hold: the two never give a byte two
/// different instructions.
pub proof fn lemma_versions_are_isolated(byte: u8)
    ensures
        extension_opcode(byte) != Opcode::INVALID ==> {
            &&& opcode_of(byte, Version::Minimal) == Opcode::INVALID
            &&& opcode_of(byte, Version::Extended) == extension_opcode(byte)
        },
        opcode_of(byte, Version::Minimal) == if opcode_of(
            byte,
            Version::Extended,
        ).spec_in_minimal() {
            opcode_of(byte, Version::Extended)
        } else {
            Opcode::INVALID
        },
        opcode_of(byte, Version::Minimal) != Opcode::INVALID ==> opcode_of(byte, Version::Minimal)
            == opcode_of(byte, Version::Extended),
{
}

} // verus!
