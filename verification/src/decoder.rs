//! The decoder: a cursor that walks a byte program and hands out its
//! instructions one by one, stepping over the bytes that an instruction
//! carries as its operand.

use vstd::prelude::*;
use crate::instruction::{size_of, Instruction};
use crate::opcodes::{opcode_of, Opcode, Version};

verus! {

/// One instruction of a program: where it stands, what it is, and how many
/// bytes it takes.
#[derive(PartialEq, Eq, Structural, Debug, Clone, Copy)]
pub struct DecodedInstruction {
    pub offset: usize,
    pub opcode: Opcode,
    pub size: usize,
}

/// A decoded instruction over the mathematical integers.
pub struct InstructionView {
    pub offset: nat,
    pub opcode: Opcode,
    pub size: nat,
}

impl View for DecodedInstruction {
    type V = InstructionView;

    open spec fn view(&self) -> InstructionView {
        InstructionView {
            offset: self.offset as nat,
            opcode: self.opcode,
            size: self.size as nat,
        }
    }
}

/// The views of a sequence of decoded instructions, in order.
pub open spec fn views(instructions: Seq<DecodedInstruction>) -> Seq<InstructionView> {
    instructions.map_values(|d: DecodedInstruction| d@)
}

/// The instruction that stands at `offset` in `code`.
pub open spec fn instruction_at(code: Seq<u8>, version: Version, offset: nat) -> InstructionView
    recommends
        offset < code.len(),
{
    let opcode = opcode_of(code[offset as int], version);
    InstructionView { offset, opcode, size: size_of(opcode) }
}

/// The bytes of a program of `length` bytes that stand at `offset` or behind
/// it.
pub open spec fn bytes_left(length: nat, offset: nat) -> nat {
    if offset >= length {
        0
    } else {
        (length - offset) as nat
    }
}

/// The instructions of `code` from `offset` on: the one at `offset`, then
/// those that follow its last byte. The bytes that an instruction carries are
/// never read as opcodes, and an instruction that runs over the end of the
/// program is the last one.
pub open spec fn instructions_from(code: Seq<u8>, version: Version, offset: nat) -> Seq<
    InstructionView,
>
    decreases bytes_left(code.len(), offset),
{
    if offset >= code.len() {
        Seq::empty()
    } else {
        let first = instruction_at(code, version, offset);
        seq![first] + instructions_from(code, version, offset + first.size)
    }
}

/// The whole program as instructions.
pub open spec fn instructions_of(code: Seq<u8>, version: Version) -> Seq<InstructionView> {
    instructions_from(code, version, 0)
}

/// The byte at `index`, where a byte past the end of the program counts as
/// zero.
pub open spec fn padded_byte(code: Seq<u8>, index: nat) -> u8 {
    if index < code.len() {
        code[index as int]
    } else {
        0
    }
}

/// The operand of the instruction `opcode` at `offset`: the bytes behind the
/// opcode byte that belong to it, with zero for each that the program lacks.
pub open spec fn operand_of(code: Seq<u8>, offset: nat, opcode: Opcode) -> Seq<u8> {
    Seq::new(crate::instruction::immediate_bytes(opcode), |i: int| padded_byte(code, (offset + 1 + i) as nat))
}

/// Where the cursor stands after an instruction of `size` bytes at
/// `position`: behind the instruction, or at the largest offset there is.
pub open spec fn advanced(position: nat, size: nat) -> nat {
    if position + size > usize::MAX {
        usize::MAX as nat
    } else {
        position + size
    }
}

/// A cursor into a program under one version of the table.
pub struct Decoder<'a> {
    code: &'a [u8],
    version: Version,
    cursor: usize,
}

impl<'a> Decoder<'a> {
    /// The program that is decoded.
    pub closed spec fn code(&self) -> Seq<u8> {
        self.code@
    }

    /// The version of the table that is asked.
    pub closed spec fn version(&self) -> Version {
        self.version
    }

    /// The offset of the next instruction.
    pub closed spec fn position(&self) -> nat {
        self.cursor as nat
    }

    /// The instructions that are still to come.
    pub open spec fn remaining(&self) -> Seq<InstructionView> {
        instructions_from(self.code(), self.version(), self.position())
    }

    /// A decoder at the start of `code`.
    pub fn new(code: &'a [u8], version: Version) -> (decoder: Decoder<'a>)
        ensures
            decoder.code() == code@,
            decoder.version() == version,
            decoder.position() == 0,
            decoder.remaining() == instructions_of(code@, version),
    {
        Decoder { code, version, cursor: 0 }
    }

    /// The offset of the next instruction.
    pub fn offset(&self) -> (offset: usize)
        ensures
            offset == self.position(),
    {
        self.cursor
    }

    /// Whether the stream has ended.
    pub fn is_done(&self) -> (done: bool)
        ensures
            done == (self.position() >= self.code().len()),
            done == (self.remaining().len() == 0),
    {
        self.cursor >= self.code.len()
    }

    /// The next instruction, if the cursor stands inside the program; the
    /// cursor then moves behind it. At or past the end there is none, and
    /// nothing changes.
    pub fn next(&mut self) -> (next: Option<DecodedInstruction>)
        ensures
            final(self).code() == old(self).code(),
            final(self).version() == old(self).version(),
            old(self).position() >= old(self).code().len() ==> {
                &&& next is None
                &&& final(self).position() == old(self).position()
            },
            old(self).position() < old(self).code().len() ==> {
                &&& next is Some
                &&& next.unwrap()@ == instruction_at(
                    old(self).code(),
                    old(self).version(),
                    old(self).position(),
                )
                &&& final(self).position() == advanced(old(self).position(), next.unwrap()@.size)
            },
            next is Some ==> {
                &&& old(self).remaining().len() > 0
                &&& next.unwrap()@ == old(self).remaining()[0]
                &&& final(self).remaining() == old(self).remaining().skip(1)
            },
            next is None ==> old(self).remaining().len() == 0,
    {
        let length = self.code.len();
        if self.cursor >= length {
            return None;
        }
        let offset = self.cursor;
        let opcode = Opcode::decode(self.code[offset], self.version);
        let size = match opcode.size() {
            Ok(size) => size,
            Err(_) => vstd::pervasive::unreached(),
        };
        self.cursor = offset.saturating_add(size);
        proof {
            let first = instruction_at(old(self).code(), old(self).version(), offset as nat);
            assert(first.size == size);
            let rest = instructions_from(self.code(), self.version(), offset as nat + first.size);
            assert(old(self).remaining() == seq![first] + rest);
            assert(self.remaining() == rest) by {
                if offset + size > usize::MAX {
                    assert(self.remaining() == Seq::<InstructionView>::empty());
                    assert(rest == Seq::<InstructionView>::empty());
                }
            }
            assert((seq![first] + rest).skip(1) =~= rest);
        }
        Some(DecodedInstruction { offset, opcode, size })
    }
}

/// Decodes the whole of `code` under the table of `version`.
pub fn decode_all(code: &[u8], version: Version) -> (instructions: Vec<DecodedInstruction>)
    ensures
        views(instructions@) == instructions_of(code@, version),
{
    let mut decoder = Decoder::new(code, version);
    let mut instructions: Vec<DecodedInstruction> = Vec::new();
    assert(views(instructions@) + decoder.remaining() =~= instructions_of(code@, version));
    loop
        invariant
            views(instructions@) + decoder.remaining() == instructions_of(code@, version),
        ensures
            views(instructions@) == instructions_of(code@, version),
        decreases decoder.remaining().len(),
    {
        let ghost before = decoder.remaining();
        let ghost done = views(instructions@);
        match decoder.next() {
            Some(instruction) => {
                instructions.push(instruction);
                assert(views(instructions@) =~= done.push(instruction@));
                assert(done.push(instruction@) + before.skip(1) =~= done + before);
            },
            None => {
                assert(done + before =~= done);
                break;
            },
        }
    }
    instructions
}

/// The operand of `instruction` in `code`: the bytes that a `PUSH` pushes,
/// and no byte for any other instruction. A byte that the program lacks is
/// zero.
pub fn operand(code: &[u8], instruction: &DecodedInstruction) -> (bytes: Vec<u8>)
    ensures
        bytes@ == operand_of(code@, instruction.offset as nat, instruction.opcode),
{
    let count: u64 = match instruction.opcode {
        Opcode::PUSH(n) => n,
        _ => 0,
    };
    let mut bytes: Vec<u8> = Vec::new();
    let mut i: u64 = 0;
    while i < count
        invariant
            i <= count,
            count == crate::instruction::immediate_bytes(instruction.opcode),
            bytes@.len() == i,
            forall|k: int|
                0 <= k < i ==> bytes@[k] == padded_byte(
                    code@,
                    (instruction.offset + 1 + k) as nat,
                ),
        decreases count - i,
    {
        let index: u128 = instruction.offset as u128 + 1 + i as u128;
        let byte = if index < code.len() as u128 {
            code[index as usize]
        } else {
            0
        };
        bytes.push(byte);
        i = i + 1;
    }
    assert(bytes@ =~= operand_of(code@, instruction.offset as nat, instruction.opcode));
    bytes
}

/// The instructions of a program stand one behind the other. The first
/// stands at `offset`; each is the instruction at its own offset and stands
/// inside the program; the next one begins where its bytes end, so that no
/// operand byte is read as an opcode; and there are no more instructions than
/// bytes.
pub proof fn lemma_instructions_are_contiguous(code: Seq<u8>, version: Version, offset: nat)
    ensures
        instructions_from(code, version, offset).len() <= bytes_left(code.len(), offset),
        offset < code.len() ==> instructions_from(code, version, offset).len() > 0
            && instructions_from(code, version, offset)[0].offset == offset,
        forall|i: int|
            0 <= i < instructions_from(code, version, offset).len() ==> {
                let at = #[trigger] instructions_from(code, version, offset)[i];
                &&& offset <= at.offset < code.len()
                &&& at == instruction_at(code, version, at.offset)
            },
        forall|i: int|
            0 <= i && i + 1 < instructions_from(code, version, offset).len() ==> {
                let at = #[trigger] instructions_from(code, version, offset)[i];
                instructions_from(code, version, offset)[i + 1].offset == at.offset + at.size
            },
    decreases bytes_left(code.len(), offset),
{
    if offset < code.len() {
        let first = instruction_at(code, version, offset);
        let rest = instructions_from(code, version, offset + first.size);
        let all = instructions_from(code, version, offset);
        lemma_instructions_are_contiguous(code, version, offset + first.size);
        assert(all == seq![first] + rest);
        assert(all[0] == first);
        assert forall|i: int| 0 <= i < all.len() implies {
            let at = #[trigger] all[i];
            &&& offset <= at.offset < code.len()
            &&& at == instruction_at(code, version, at.offset)
        } by {
            if i > 0 {
                assert(all[i] == rest[i - 1]);
            }
        }
        assert forall|i: int| 0 <= i && i + 1 < all.len() implies {
            let at = #[trigger] all[i];
            all[i + 1].offset == at.offset + at.size
        } by {
            assert(all[i + 1] == rest[i]);
            if i > 0 {
                assert(all[i] == rest[i - 1]);
            }
        }
    }
}

/// Decoding is repeatable: two decodings of one program under one version
/// are the same sequence, whoever made them.
pub proof fn lemma_decoding_is_repeatable(
    code: Seq<u8>,
    version: Version,
    first: Seq<DecodedInstruction>,
    second: Seq<DecodedInstruction>,
)
    requires
        views(first) == instructions_of(code, version),
        views(second) == instructions_of(code, version),
    ensures
        first == second,
{
    assert(first.len() == views(first).len());
    assert(second.len() == views(second).len());
    assert forall|i: int| 0 <= i < first.len() implies first[i] == second[i] by {
        assert(views(first)[i] == first[i]@);
        assert(views(second)[i] == second[i]@);
    }
    assert(first =~= second);
}

/// Two decoders at the start of one program under one version have the same
/// instructions before them: a decoder keeps nothing of an earlier pass.
pub proof fn lemma_fresh_decoders_agree(first: Decoder, second: Decoder)
    requires
        first.code() == second.code(),
        first.version() == second.version(),
        first.position() == 0,
        second.position() == 0,
    ensures
        first.remaining() == second.remaining(),
        first.remaining() == instructions_of(first.code(), first.version()),
{
}

} // verus!
