//! Little-endian framing shared by the record and the instruction formats.

use vstd::prelude::*;
use vstd::bytes::{spec_u64_from_le_bytes, spec_u64_to_le_bytes, u64_from_le_bytes, u64_to_le_bytes};
use vstd::slice::slice_subrange;

verus! {

/// The eight bytes of `x`, least significant first.
pub open spec fn le64(x: u64) -> Seq<u8> {
    spec_u64_to_le_bytes(x)
}

/// The number whose little-endian bytes are `data[offset .. offset + 8]`.
pub open spec fn le64_at(data: Seq<u8>, offset: int) -> u64 {
    spec_u64_from_le_bytes(data.subrange(offset, offset + 8))
}

/// A sequence of `n` zero bytes.
pub open spec fn zeros(n: nat) -> Seq<u8> {
    Seq::new(n, |i: int| 0u8)
}

/// Decoding inverts encoding, and encoding yields eight bytes.
pub proof fn lemma_le64_roundtrip(x: u64)
    ensures
        le64(x).len() == 8,
        spec_u64_from_le_bytes(le64(x)) == x,
{
    vstd::bytes::lemma_auto_spec_u64_to_from_le_bytes();
}

/// Encoding inverts decoding on sequences of eight bytes.
pub proof fn lemma_le64_of_bytes(s: Seq<u8>)
    requires
        s.len() == 8,
    ensures
        le64(spec_u64_from_le_bytes(s)) == s,
{
    vstd::bytes::lemma_auto_spec_u64_to_from_le_bytes();
}

/// Eight zero bytes encode zero.
pub proof fn lemma_le64_zero()
    ensures
        le64(0) == zeros(8),
        spec_u64_from_le_bytes(zeros(8)) == 0,
{
    vstd::bytes::spec_u64_to_le_bytes_to_open(0);
    assert(0u64 & 0xff == 0 && (0u64 >> 8) & 0xff == 0 && (0u64 >> 16) & 0xff == 0 && (0u64 >> 24)
        & 0xff == 0 && (0u64 >> 32) & 0xff == 0 && (0u64 >> 40) & 0xff == 0 && (0u64 >> 48) & 0xff
        == 0 && (0u64 >> 56) & 0xff == 0) by (bit_vector);
    assert(le64(0) =~= zeros(8));
    lemma_le64_roundtrip(0);
}

/// Reads the little-endian number stored in `data` at `offset`.
pub fn read_u64(data: &[u8], offset: usize) -> (r: u64)
    requires
        offset + 8 <= data.len(),
    ensures
        r == le64_at(data@, offset as int),
{
    u64_from_le_bytes(slice_subrange(data, offset, offset + 8))
}

/// Appends `src` to `out`.
pub fn append(out: &mut Vec<u8>, src: &[u8])
    ensures
        final(out)@ == old(out)@ + src@,
{
    let ghost before = out@;
    let mut i: usize = 0;
    while i < src.len()
        invariant
            i <= src.len(),
            out@ == before + src@.subrange(0, i as int),
        decreases src.len() - i,
    {
        out.push(src[i]);
        i += 1;
        assert(out@ =~= before + src@.subrange(0, i as int));
    }
    assert(src@.subrange(0, src.len() as int) =~= src@);
}

/// Appends the eight little-endian bytes of `x` to `out`.
pub fn write_u64(out: &mut Vec<u8>, x: u64)
    ensures
        final(out)@ == old(out)@ + le64(x),
{
    let bytes = u64_to_le_bytes(x);
    append(out, bytes.as_slice());
}

/// Whether every byte of `data` is zero.
pub fn all_zero(data: &[u8]) -> (r: bool)
    ensures
        r == (data@ == zeros(data@.len())),
{
    let mut i: usize = 0;
    while i < data.len()
        invariant
            i <= data.len(),
            forall|j: int| 0 <= j < i ==> data@[j] == 0,
        decreases data.len() - i,
    {
        if data[i] != 0 {
            assert(data@[i as int] != zeros(data@.len())[i as int]);
            return false;
        }
        i += 1;
    }
    assert(data@ =~= zeros(data@.len()));
    true
}

/// A vector of `n` zero bytes.
pub fn zero_bytes(n: usize) -> (r: Vec<u8>)
    ensures
        r@ == zeros(n as nat),
{
    let mut out: Vec<u8> = Vec::new();
    let mut i: usize = 0;
    while i < n
        invariant
            i <= n,
            out@ == zeros(i as nat),
        decreases n - i,
    {
        out.push(0u8);
        i += 1;
        assert(out@ =~= zeros(i as nat));
    }
    out
}

} // verus!
