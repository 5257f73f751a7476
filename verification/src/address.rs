//! Thirty-two byte ledger addresses.

use vstd::prelude::*;

verus! {

/// The identity of an account or a program: thirty-two raw bytes.
///
/// Its view is the sequence of those bytes, and two addresses are equal
/// exactly when their views are.
#[derive(Clone, Copy, Debug)]
pub struct Address {
    pub bytes: [u8; 32],
}

impl View for Address {
    type V = Seq<u8>;

    open spec fn view(&self) -> Seq<u8> {
        self.bytes@
    }
}

impl PartialEq for Address {
    fn eq(&self, other: &Address) -> (r: bool) {
        let mut i: usize = 0;
        while i < 32
            invariant
                i <= 32,
                forall|j: int| 0 <= j < i ==> self.bytes[j] == other.bytes[j],
            decreases 32 - i,
        {
            if self.bytes[i] != other.bytes[i] {
                return false;
            }
            i += 1;
        }
        assert(self.bytes =~= other.bytes);
        true
    }
}

impl Eq for Address {

}

impl vstd::std_specs::cmp::PartialEqSpecImpl for Address {
    open spec fn obeys_eq_spec() -> bool {
        true
    }

    open spec fn eq_spec(&self, other: &Address) -> bool {
        *self == *other
    }
}

/// The array whose first `n` bytes are those of `s` and whose other bytes are zero.
pub open spec fn array_of(s: Seq<u8>, n: nat) -> [u8; 32]
    decreases n,
{
    if n == 0 {
        vstd::array::spec_array_fill_for_copy_type::<u8, 32>(0u8)
    } else {
        vstd::array::spec_array_update(array_of(s, (n - 1) as nat), n - 1, s[n - 1])
    }
}

/// The address made of the first thirty-two bytes of `s`.
pub open spec fn address_of(s: Seq<u8>) -> Address {
    Address { bytes: array_of(s, 32) }
}

proof fn lemma_array_of(s: Seq<u8>, n: nat)
    requires
        n <= 32,
        n <= s.len(),
    ensures
        array_of(s, n)@.len() == 32,
        forall|i: int| 0 <= i < n ==> array_of(s, n)@[i] == s[i],
    decreases n,
{
    if n > 0 {
        lemma_array_of(s, (n - 1) as nat);
    }
}

/// `address_of` inverts the view on sequences of thirty-two bytes.
pub proof fn lemma_address_of_view(s: Seq<u8>)
    requires
        s.len() == 32,
    ensures
        address_of(s)@ == s,
{
    lemma_array_of(s, 32);
    assert(address_of(s)@ =~= s);
}

/// Two addresses are equal exactly when their byte views are.
pub proof fn lemma_address_eq_view(a: Address, b: Address)
    ensures
        (a == b) <==> (a@ == b@),
        a@.len() == 32,
{
    if a@ == b@ {
        assert(a.bytes =~= b.bytes);
    }
}

/// The view inverts `address_of`.
pub proof fn lemma_address_of_self(a: Address)
    ensures
        address_of(a@) == a,
{
    lemma_address_of_view(a@);
    lemma_address_eq_view(address_of(a@), a);
}

impl Address {
    /// Reads the address stored in `data` at `offset`.
    pub fn read(data: &[u8], offset: usize) -> (r: Address)
        requires
            offset + 32 <= data.len(),
        ensures
            r == address_of(data@.subrange(offset as int, offset + 32)),
    {
        let mut bytes: [u8; 32] = [0u8; 32];
        let mut i: usize = 0;
        while i < 32
            invariant
                i <= 32,
                offset + 32 <= data.len(),
                forall|j: int| 0 <= j < i ==> bytes@[j] == data@[offset + j],
            decreases 32 - i,
        {
            bytes[i] = data[offset + i];
            i += 1;
        }
        let r = Address { bytes };
        proof {
            let s = data@.subrange(offset as int, offset + 32);
            lemma_address_of_view(s);
            assert(r@ =~= s);
            lemma_address_eq_view(r, address_of(s));
        }
        r
    }

    /// Appends the thirty-two bytes of the address to `out`.
    pub fn write(&self, out: &mut Vec<u8>)
        ensures
            final(out)@ == old(out)@ + self@,
    {
        let ghost before = out@;
        let mut i: usize = 0;
        while i < 32
            invariant
                i <= 32,
                out@ == before + self@.subrange(0, i as int),
            decreases 32 - i,
        {
            out.push(self.bytes[i]);
            i += 1;
            assert(out@ =~= before + self@.subrange(0, i as int));
        }
        assert(self@.subrange(0, 32) =~= self@);
    }

    /// The bytes of the address as a vector.
    pub fn to_vec(&self) -> (r: Vec<u8>)
        ensures
            r@ == self@,
    {
        let mut out: Vec<u8> = Vec::new();
        self.write(&mut out);
        assert(out@ =~= self@);
        out
    }
}

/// Identity of the system program, which owns every account that holds no data.
pub open spec fn spec_system_program_id() -> Address {
    Address { bytes: SYSTEM_PROGRAM_ID }
}

/// Identity of the token program, which owns every token holding account.
pub open spec fn spec_token_program_id() -> Address {
    Address { bytes: TOKEN_PROGRAM_ID }
}

/// Identity of the rent sysvar account.
pub open spec fn spec_rent_sysvar_id() -> Address {
    Address { bytes: RENT_SYSVAR_ID }
}

/// Bytes of `11111111111111111111111111111111`.
pub const SYSTEM_PROGRAM_ID: [u8; 32] = [
    0, 0, 0, 0, 0, 0, 0, 0, 0, 0, 0, 0, 0, 0, 0, 0,
    0, 0, 0, 0, 0, 0, 0, 0, 0, 0, 0, 0, 0, 0, 0, 0,
];

/// Bytes of `TokenkegQfeZyiNwAJbNbGKPFXCWuBvf9Ss623VQ5DA`.
pub const TOKEN_PROGRAM_ID: [u8; 32] = [
    6, 221, 246, 225, 215, 101, 161, 147, 217, 203, 225, 70, 206, 235, 121, 172,
    28, 180, 133, 237, 95, 91, 55, 145, 58, 140, 245, 133, 126, 255, 0, 169,
];

/// Bytes of `SysvarRent111111111111111111111111111111111`.
pub const RENT_SYSVAR_ID: [u8; 32] = [
    6, 167, 213, 23, 25, 44, 92, 81, 33, 140, 201, 76, 61, 74, 241, 127,
    88, 218, 238, 8, 155, 161, 253, 68, 227, 219, 217, 138, 0, 0, 0, 0,
];

#[verifier::when_used_as_spec(spec_system_program_id)]
pub fn system_program_id() -> (r: Address)
    ensures
        r == spec_system_program_id(),
{
    Address { bytes: SYSTEM_PROGRAM_ID }
}

#[verifier::when_used_as_spec(spec_token_program_id)]
pub fn token_program_id() -> (r: Address)
    ensures
        r == spec_token_program_id(),
{
    Address { bytes: TOKEN_PROGRAM_ID }
}

#[verifier::when_used_as_spec(spec_rent_sysvar_id)]
pub fn rent_sysvar_id() -> (r: Address)
    ensures
        r == spec_rent_sysvar_id(),
{
    Address { bytes: RENT_SYSVAR_ID }
}

} // verus!
