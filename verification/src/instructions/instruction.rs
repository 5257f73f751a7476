//! Wire format of the operations: a tag byte and little-endian fields.

use vstd::prelude::*;
use crate::error::ProgramError;
use crate::wire::{le64, le64_at, lemma_le64_of_bytes, lemma_le64_roundtrip, read_u64, write_u64};

verus! {

/// Represents the various instructions that can be sent to the escrow program.
#[derive(Clone, Copy, Debug, PartialEq, Eq, Structural)]
pub enum EscrowInstruction {
    /// Initializes a new escrow: the maker deposits `deposit_amount` of token A
    /// and asks `receive_amount` of token B for it.
    InitializeEscrow { escrow_id: u64, deposit_amount: u64, receive_amount: u64 },
    /// Completes the escrow `escrow_id`: the taker pays and receives the deposit.
    ReleaseFunds { escrow_id: u64 },
    /// Cancels the escrow `escrow_id`: the deposit returns to the maker.
    CancelEscrow { escrow_id: u64 },
}

impl EscrowInstruction {
    /// `[0][escrow_id][deposit_amount][receive_amount]`, `[1][escrow_id]` or
    /// `[2][escrow_id]`.
    pub open spec fn encode(self) -> Seq<u8> {
        match self {
            EscrowInstruction::InitializeEscrow { escrow_id, deposit_amount, receive_amount } => {
                seq![0u8] + le64(escrow_id) + le64(deposit_amount) + le64(receive_amount)
            },
            EscrowInstruction::ReleaseFunds { escrow_id } => seq![1u8] + le64(escrow_id),
            EscrowInstruction::CancelEscrow { escrow_id } => seq![2u8] + le64(escrow_id),
        }
    }

    /// The instruction that `data` encodes: the tag must be known and the
    /// length exactly that of the tag's payload.
    pub open spec fn decode(data: Seq<u8>) -> Option<EscrowInstruction> {
        if data.len() == 25 && data[0] == 0 {
            Some(
                EscrowInstruction::InitializeEscrow {
                    escrow_id: le64_at(data, 1),
                    deposit_amount: le64_at(data, 9),
                    receive_amount: le64_at(data, 17),
                },
            )
        } else if data.len() == 9 && data[0] == 1 {
            Some(EscrowInstruction::ReleaseFunds { escrow_id: le64_at(data, 1) })
        } else if data.len() == 9 && data[0] == 2 {
            Some(EscrowInstruction::CancelEscrow { escrow_id: le64_at(data, 1) })
        } else {
            None
        }
    }

    /// Decodes an instruction; an unknown tag, a short or a long payload is
    /// refused.
    pub fn unpack(data: &[u8]) -> (r: Result<EscrowInstruction, ProgramError>)
        ensures
            match EscrowInstruction::decode(data@) {
                Some(i) => r == Ok::<EscrowInstruction, ProgramError>(i),
                None => r == Err::<EscrowInstruction, ProgramError>(
                    ProgramError::InvalidAccountData,
                ),
            },
    {
        if data.len() == 0 {
            return Err(ProgramError::InvalidAccountData);
        }
        let tag = data[0];
        if tag == 0 && data.len() == 25 {
            Ok(
                EscrowInstruction::InitializeEscrow {
                    escrow_id: read_u64(data, 1),
                    deposit_amount: read_u64(data, 9),
                    receive_amount: read_u64(data, 17),
                },
            )
        } else if tag == 1 && data.len() == 9 {
            Ok(EscrowInstruction::ReleaseFunds { escrow_id: read_u64(data, 1) })
        } else if tag == 2 && data.len() == 9 {
            Ok(EscrowInstruction::CancelEscrow { escrow_id: read_u64(data, 1) })
        } else {
            Err(ProgramError::InvalidAccountData)
        }
    }

    /// The bytes that a client sends for the instruction.
    pub fn pack(&self) -> (r: Vec<u8>)
        ensures
            r@ == self.encode(),
    {
        let mut out: Vec<u8> = Vec::new();
        match self {
            EscrowInstruction::InitializeEscrow { escrow_id, deposit_amount, receive_amount } => {
                out.push(0u8);
                write_u64(&mut out, *escrow_id);
                write_u64(&mut out, *deposit_amount);
                write_u64(&mut out, *receive_amount);
            },
            EscrowInstruction::ReleaseFunds { escrow_id } => {
                out.push(1u8);
                write_u64(&mut out, *escrow_id);
            },
            EscrowInstruction::CancelEscrow { escrow_id } => {
                out.push(2u8);
                write_u64(&mut out, *escrow_id);
            },
        }
        assert(out@ =~= self.encode());
        out
    }

    /// The escrow id that the instruction names.
    pub fn escrow_id(&self) -> (r: u64)
        ensures
            r == self.spec_escrow_id(),
    {
        match self {
            EscrowInstruction::InitializeEscrow { escrow_id, .. } => *escrow_id,
            EscrowInstruction::ReleaseFunds { escrow_id } => *escrow_id,
            EscrowInstruction::CancelEscrow { escrow_id } => *escrow_id,
        }
    }

    pub open spec fn spec_escrow_id(self) -> u64 {
        match self {
            EscrowInstruction::InitializeEscrow { escrow_id, .. } => escrow_id,
            EscrowInstruction::ReleaseFunds { escrow_id } => escrow_id,
            EscrowInstruction::CancelEscrow { escrow_id } => escrow_id,
        }
    }
}

/// Decoding what was encoded gives the instruction back.
pub proof fn lemma_instruction_decode_encode(i: EscrowInstruction)
    ensures
        EscrowInstruction::decode(i.encode()) == Some(i),
{
    let d = i.encode();
    match i {
        EscrowInstruction::InitializeEscrow { escrow_id, deposit_amount, receive_amount } => {
            lemma_le64_roundtrip(escrow_id);
            lemma_le64_roundtrip(deposit_amount);
            lemma_le64_roundtrip(receive_amount);
            assert(d.subrange(1, 9) =~= le64(escrow_id));
            assert(d.subrange(9, 17) =~= le64(deposit_amount));
            assert(d.subrange(17, 25) =~= le64(receive_amount));
        },
        EscrowInstruction::ReleaseFunds { escrow_id } => {
            lemma_le64_roundtrip(escrow_id);
            assert(d.subrange(1, 9) =~= le64(escrow_id));
        },
        EscrowInstruction::CancelEscrow { escrow_id } => {
            lemma_le64_roundtrip(escrow_id);
            assert(d.subrange(1, 9) =~= le64(escrow_id));
        },
    }
}

/// Encoding what was decoded gives the bytes back.
pub proof fn lemma_instruction_encode_decode(data: Seq<u8>)
    requires
        EscrowInstruction::decode(data) is Some,
    ensures
        EscrowInstruction::decode(data)->0.encode() == data,
{
    let i = EscrowInstruction::decode(data)->0;
    lemma_le64_of_bytes(data.subrange(1, 9));
    if data.len() == 25 {
        lemma_le64_of_bytes(data.subrange(9, 17));
        lemma_le64_of_bytes(data.subrange(17, 25));
    }
    assert(i.encode() =~= data);
}

} // verus!
