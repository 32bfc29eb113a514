//! What every instruction can be asked: how many bytes of the program it
//! takes, and what it costs to run.

use vstd::prelude::*;
use crate::opcodes::{opcode_of, Opcode, Version};

verus! {

/// Why an instruction could not answer.
#[derive(PartialEq, Eq, Structural, Debug, Clone, Copy)]
pub enum InstructionError {
    /// The size does not fit the machine's word.
    SizeOverflow,
}

impl InstructionError {
    /// The error in words.
    pub fn message(&self) -> (text: &'static str)
        ensures
            text@ == "instruction size does not fit the machine word"@,
    {
        match self {
            InstructionError::SizeOverflow => "instruction size does not fit the machine word",
        }
    }
}

/// What can stand in a program: it has a size in bytes and a cost in cycles.
/// Both answers may fail, so that an instruction whose cost depends on more
/// than itself can say so.
pub trait Instruction {
    /// The bytes that the instruction takes in the program, its own byte
    /// included.
    fn size(&self) -> Result<usize, InstructionError>;

    /// The cycles charged for running the instruction.
    fn get_cycles(&self) -> Result<usize, InstructionError>;
}

/// The bytes that follow the opcode byte and belong to it: the `n` of a
/// `PUSH(n)`, none for every other opcode.
pub open spec fn immediate_bytes(op: Opcode) -> nat {
    match op {
        Opcode::PUSH(n) => n as nat,
        _ => 0,
    }
}

/// The size of an opcode in the program: its own byte and its immediate
/// bytes.
pub open spec fn size_of(op: Opcode) -> nat {
    1 + immediate_bytes(op)
}

/// The cycles charged for an opcode: one, whatever the opcode.
pub open spec fn cycles_of(op: Opcode) -> nat {
    1
}

impl Instruction for Opcode {
    /// One byte, and for `PUSH(n)` the `n` bytes that it pushes. It fails
    /// only where that number is more than a `usize` holds.
    fn size(&self) -> (r: Result<usize, InstructionError>)
        ensures
            size_of(*self) <= usize::MAX ==> r == Ok::<usize, InstructionError>(
                size_of(*self) as usize,
            ),
            size_of(*self) > usize::MAX ==> r == Err::<usize, InstructionError>(
                InstructionError::SizeOverflow,
            ),
            self.wf() ==> r is Ok,
    {
        match self {
            Opcode::PUSH(n) => {
                if *n < usize::MAX as u64 {
                    Ok(1 + *n as usize)
                } else {
                    Err(InstructionError::SizeOverflow)
                }
            },
            _ => Ok(1),
        }
    }

    /// Always one cycle.
    fn get_cycles(&self) -> (r: Result<usize, InstructionError>)
        ensures
            r == Ok::<usize, InstructionError>(cycles_of(*self) as usize),
    {
        Ok(1)
    }
}

/// Under every version the byte `0x60 + (n - 1)` is `PUSH(n)`, for `n` from 1
/// to 32, and `PUSH(n)` takes `n + 1` bytes: its own and the `n` that it
/// pushes.
pub proof fn lemma_push_bytes(n: u64, version: Version)
    requires
        1 <= n <= 32,
    ensures
        opcode_of((0x60 + (n - 1)) as u8, version) == Opcode::PUSH(n),
        size_of(Opcode::PUSH(n)) == n + 1,
{
}

/// Only a `PUSH` takes more than its own byte, and no opcode of the table
/// takes more than 33.
pub proof fn lemma_sizes_in_table(byte: u8, version: Version)
    ensures
        1 <= size_of(opcode_of(byte, version)) <= 33,
        !(opcode_of(byte, version) is PUSH) ==> size_of(opcode_of(byte, version)) == 1,
{
}

} // verus!
