//! The persisted escrow record and its fixed binary layout.

use vstd::prelude::*;
use crate::address::{address_of, lemma_address_eq_view, lemma_address_of_self, lemma_address_of_view, Address};
use crate::error::ProgramError;
use crate::wire::{le64, le64_at, lemma_le64_of_bytes, lemma_le64_roundtrip, read_u64, write_u64};

verus! {

/// The terms of one escrow, stored once per maker and escrow id.
#[derive(Clone, Copy, Debug)]
pub struct Escrow {
    /// Unique identifier for this escrow account.
    pub escrow_id: u64,
    /// The account that created this escrow (the maker).
    pub maker: Address,
    /// The mint of token A, which the maker deposits.
    pub token_mint_a: Address,
    /// The mint of token B, which the maker wants to receive.
    pub token_mint_b: Address,
    /// The amount of token B the maker expects to receive.
    pub receive: u64,
    /// The bump seed of the address at which the record is stored.
    pub bump: u8,
}

impl PartialEq for Escrow {
    fn eq(&self, other: &Escrow) -> (r: bool) {
        self.escrow_id == other.escrow_id && self.maker == other.maker && self.token_mint_a
            == other.token_mint_a && self.token_mint_b == other.token_mint_b && self.receive
            == other.receive && self.bump == other.bump
    }
}

impl Eq for Escrow {

}

impl vstd::std_specs::cmp::PartialEqSpecImpl for Escrow {
    open spec fn obeys_eq_spec() -> bool {
        true
    }

    open spec fn eq_spec(&self, other: &Escrow) -> bool {
        *self == *other
    }
}

impl Escrow {
    /// Encoded size of a record: `8 + 32 + 32 + 32 + 8 + 1`.
    pub const ACCOUNT_LEN: usize = 113;

    /// The record's layout: `escrow_id | maker | mint_a | mint_b | receive | bump`,
    /// integers little-endian.
    pub open spec fn encode(self) -> Seq<u8> {
        le64(self.escrow_id) + self.maker@ + self.token_mint_a@ + self.token_mint_b@ + le64(
            self.receive,
        ) + seq![self.bump]
    }

    /// The record that `data` encodes: defined exactly on sequences of 113 bytes.
    pub open spec fn decode(data: Seq<u8>) -> Option<Escrow> {
        if data.len() == 113 {
            Some(
                Escrow {
                    escrow_id: le64_at(data, 0),
                    maker: address_of(data.subrange(8, 40)),
                    token_mint_a: address_of(data.subrange(40, 72)),
                    token_mint_b: address_of(data.subrange(72, 104)),
                    receive: le64_at(data, 104),
                    bump: data[112],
                },
            )
        } else {
            None
        }
    }

    /// What a buffer holds after the record was written to its start: the
    /// encoding, cut to the buffer's length, and the buffer's old bytes behind it.
    pub open spec fn packed(self, before: Seq<u8>) -> Seq<u8> {
        if before.len() >= 113 {
            self.encode() + before.subrange(113, before.len() as int)
        } else {
            self.encode().subrange(0, before.len() as int)
        }
    }

    /// The 113 bytes of the record.
    pub fn to_bytes(&self) -> (r: Vec<u8>)
        ensures
            r@ == self.encode(),
            r@.len() == 113,
    {
        let mut out: Vec<u8> = Vec::new();
        write_u64(&mut out, self.escrow_id);
        self.maker.write(&mut out);
        self.token_mint_a.write(&mut out);
        self.token_mint_b.write(&mut out);
        write_u64(&mut out, self.receive);
        out.push(self.bump);
        proof {
            lemma_encode_len(*self);
            assert(out@ =~= self.encode());
        }
        out
    }

    /// Writes the record to the start of `data`. A buffer shorter than the
    /// record takes the bytes that fit and the call fails.
    pub fn pack_the_slice_data(&self, data: &mut Vec<u8>) -> (r: Result<(), ProgramError>)
        ensures
            final(data)@ == self.packed(old(data)@),
            old(data)@.len() >= 113 ==> r is Ok,
            old(data)@.len() < 113 ==> r == Err::<(), ProgramError>(ProgramError::BorshIoError),
    {
        let bytes = self.to_bytes();
        let n: usize = if data.len() < 113 {
            data.len()
        } else {
            113
        };
        let ghost before = data@;
        let mut i: usize = 0;
        while i < n
            invariant
                i <= n,
                n <= 113,
                n <= before.len(),
                bytes@.len() == 113,
                data@.len() == before.len(),
                forall|j: int| 0 <= j < i ==> data@[j] == bytes@[j],
                forall|j: int| i <= j < before.len() ==> data@[j] == before[j],
            decreases n - i,
        {
            data[i] = bytes[i];
            i += 1;
        }
        assert(data@ =~= self.packed(before));
        if n < 113 {
            Err(ProgramError::BorshIoError)
        } else {
            Ok(())
        }
    }

    /// Reads a record: succeeds exactly on 113 bytes.
    pub fn unpack_the_slice_data(data: &[u8]) -> (r: Result<Escrow, ProgramError>)
        ensures
            match Escrow::decode(data@) {
                Some(e) => r == Ok::<Escrow, ProgramError>(e),
                None => r == Err::<Escrow, ProgramError>(ProgramError::InvalidAccountData),
            },
    {
        if data.len() != 113 {
            return Err(ProgramError::InvalidAccountData);
        }
        Ok(
            Escrow {
                escrow_id: read_u64(data, 0),
                maker: Address::read(data, 8),
                token_mint_a: Address::read(data, 40),
                token_mint_b: Address::read(data, 72),
                receive: read_u64(data, 104),
                bump: data[112],
            },
        )
    }
}

/// Every record encodes to exactly 113 bytes.
pub proof fn lemma_encode_len(e: Escrow)
    ensures
        e.encode().len() == 113,
{
    lemma_le64_roundtrip(e.escrow_id);
    lemma_le64_roundtrip(e.receive);
    lemma_address_eq_view(e.maker, e.maker);
    lemma_address_eq_view(e.token_mint_a, e.token_mint_a);
    lemma_address_eq_view(e.token_mint_b, e.token_mint_b);
}

/// Decoding what was encoded gives the record back.
pub proof fn lemma_decode_encode(e: Escrow)
    ensures
        Escrow::decode(e.encode()) == Some(e),
{
    lemma_encode_len(e);
    lemma_le64_roundtrip(e.escrow_id);
    lemma_le64_roundtrip(e.receive);
    let d = e.encode();
    assert(d.subrange(0, 8) =~= le64(e.escrow_id));
    assert(d.subrange(8, 40) =~= e.maker@);
    assert(d.subrange(40, 72) =~= e.token_mint_a@);
    assert(d.subrange(72, 104) =~= e.token_mint_b@);
    assert(d.subrange(104, 112) =~= le64(e.receive));
    lemma_address_of_self(e.maker);
    lemma_address_of_self(e.token_mint_a);
    lemma_address_of_self(e.token_mint_b);
}

/// Encoding what was decoded gives the bytes back: no two byte strings
/// stand for one record.
pub proof fn lemma_encode_decode(data: Seq<u8>)
    requires
        data.len() == 113,
    ensures
        Escrow::decode(data) is Some,
        Escrow::decode(data)->0.encode() == data,
{
    let e = Escrow::decode(data)->0;
    lemma_le64_of_bytes(data.subrange(0, 8));
    lemma_le64_of_bytes(data.subrange(104, 112));
    lemma_address_of_view(data.subrange(8, 40));
    lemma_address_of_view(data.subrange(40, 72));
    lemma_address_of_view(data.subrange(72, 104));
    assert(e.encode() =~= data);
}

/// A record written over a buffer of at least 113 bytes is read back from
/// the buffer's first 113 bytes.
pub proof fn lemma_packed_decodes(e: Escrow, before: Seq<u8>)
    requires
        before.len() >= 113,
    ensures
        e.packed(before).len() == before.len(),
        Escrow::decode(e.packed(before).subrange(0, 113)) == Some(e),
{
    lemma_encode_len(e);
    lemma_decode_encode(e);
    assert(e.packed(before).subrange(0, 113) =~= e.encode());
}

} // verus!
