//! The bytecode instruction layer of a stack machine that speaks the Ethereum
//! instruction set: a versioned table from bytes to opcodes, the size and cost
//! of each opcode, and a decoder that turns a byte program into its stream of
//! instructions. Beside it stands what the chain needs to check proof of work:
//! the light cache of an epoch.

pub mod decoder;
pub mod instruction;
pub mod opcodes;
pub mod uint;
pub mod consensus;
pub mod db;
