//! Token holding accounts as the escrow program reads them.

use vstd::prelude::*;
use solana_program::program_pack::Pack;
use crate::address::{address_of, Address};
use crate::error::ProgramError;
use crate::wire::le64_at;

verus! {

/// What the escrow program reads of a token holding account.
#[derive(Clone, Copy, Debug)]
pub struct TokenAccount {
    /// The mint whose tokens the account holds.
    pub mint: Address,
    /// The party that may move the tokens.
    pub owner: Address,
    /// The balance.
    pub amount: u64,
}

/// An optional field's four-byte tag at `at` is zero or one, little-endian.
pub open spec fn option_tag_ok(data: Seq<u8>, at: int) -> bool {
    (data[at] == 0 || data[at] == 1) && data[at + 1] == 0 && data[at + 2] == 0 && data[at + 3] == 0
}

/// `data` has the layout of a token account:
/// `mint:32 | owner:32 | amount:8 | delegate:4+32 | state:1 | is_native:4+8 |
/// delegated_amount:8 | close_authority:4+32`, with well-formed option tags
/// and a state of 0 (uninitialised), 1 (initialised) or 2 (frozen).
pub open spec fn token_layout_ok(data: Seq<u8>) -> bool {
    &&& data.len() == 165
    &&& option_tag_ok(data, 72)
    &&& data[108] <= 2
    &&& option_tag_ok(data, 109)
    &&& option_tag_ok(data, 129)
}

/// The token account that `data` holds.
pub open spec fn spec_unpack(data: Seq<u8>) -> Result<TokenAccount, ProgramError> {
    if !token_layout_ok(data) {
        Err(ProgramError::InvalidAccountData)
    } else if data[108] == 0 {
        Err(ProgramError::UninitializedAccount)
    } else {
        Ok(
            TokenAccount {
                mint: address_of(data.subrange(0, 32)),
                owner: address_of(data.subrange(32, 64)),
                amount: le64_at(data, 64),
            },
        )
    }
}

/// Calls `spl_token::state::Account::unpack`, which refuses data of another
/// length than 165, an option tag or a state byte out of range, and an
/// account whose state is uninitialised, and otherwise reads the fields at
/// their fixed offsets. The mint, the owner and the amount are handed on.
#[verifier::external_body]
pub(crate) fn unpack(data: &[u8]) -> (r: Result<TokenAccount, ProgramError>)
    ensures
        r == spec_unpack(data@),
{
    match spl_token::state::Account::unpack(data) {
        Ok(a) => Ok(
            TokenAccount {
                mint: Address { bytes: a.mint.to_bytes() },
                owner: Address { bytes: a.owner.to_bytes() },
                amount: a.amount,
            },
        ),
        Err(solana_program::program_error::ProgramError::UninitializedAccount) => Err(
            ProgramError::UninitializedAccount,
        ),
        Err(_) => Err(ProgramError::InvalidAccountData),
    }
}

impl TokenAccount {
    /// Reads a token holding account from its data.
    pub fn from_data(data: &[u8]) -> (r: Result<TokenAccount, ProgramError>)
        ensures
            r == spec_unpack(data@),
    {
        unpack(data)
    }
}

} // verus!

verus! {

/// The data of a token account after its balance became `amount`.
pub open spec fn with_amount(data: Seq<u8>, amount: u64) -> Seq<u8> {
    data.subrange(0, 64) + crate::wire::le64(amount) + data.subrange(72, data.len() as int)
}

/// The data of a token account that was just initialised for `mint` under
/// `owner`: no tokens, no delegate, no close authority, not native.
pub open spec fn fresh_token_data(mint: Address, owner: Address) -> Seq<u8> {
    mint@ + owner@ + crate::wire::zeros(44) + seq![1u8] + crate::wire::zeros(56)
}

/// Whether the token account in `data` is a plain one: initialised and not
/// frozen, not native, without delegate and without close authority.
pub open spec fn spec_is_plain(data: Seq<u8>) -> bool {
    spec_unpack(data) is Ok && data[72] == 0 && data[108] == 1 && data[109] == 0 && data[129] == 0
}

/// The balance that `data` holds, zero where it is no token account.
pub open spec fn balance_of(data: Seq<u8>) -> u64 {
    match spec_unpack(data) {
        Ok(account) => account.amount,
        Err(_) => 0,
    }
}

/// Changing the balance changes nothing else of a token account.
pub proof fn lemma_with_amount(data: Seq<u8>, amount: u64)
    requires
        spec_unpack(data) is Ok,
    ensures
        with_amount(data, amount).len() == 165,
        spec_unpack(with_amount(data, amount)) == Ok::<TokenAccount, ProgramError>(
            TokenAccount { amount, ..spec_unpack(data)->Ok_0 },
        ),
        spec_is_plain(with_amount(data, amount)) == spec_is_plain(data),
{
    let after = with_amount(data, amount);
    crate::wire::lemma_le64_roundtrip(amount);
    assert(after.len() == 165);
    assert(after.subrange(0, 32) =~= data.subrange(0, 32));
    assert(after.subrange(32, 64) =~= data.subrange(32, 64));
    assert(after.subrange(64, 72) =~= crate::wire::le64(amount));
    assert forall|i: int| 72 <= i < 165 implies after[i] == data[i] by {}
}

/// Writing the balance that an account holds changes nothing, and of two
/// balances written one after the other the second stays.
pub proof fn lemma_with_amount_again(data: Seq<u8>, first: u64, second: u64)
    requires
        data.len() == 165,
    ensures
        with_amount(with_amount(data, first), second) == with_amount(data, second),
        with_amount(data, le64_at(data, 64)) == data,
{
    crate::wire::lemma_le64_roundtrip(first);
    crate::wire::lemma_le64_roundtrip(second);
    crate::wire::lemma_le64_of_bytes(data.subrange(64, 72));
    assert(with_amount(with_amount(data, first), second) =~= with_amount(data, second));
    assert(with_amount(data, le64_at(data, 64)) =~= data);
}

/// A freshly initialised token account is empty and belongs to its owner.
pub proof fn lemma_fresh_token_data(mint: Address, owner: Address)
    ensures
        fresh_token_data(mint, owner).len() == 165,
        spec_unpack(fresh_token_data(mint, owner)) == Ok::<TokenAccount, ProgramError>(
            TokenAccount { mint, owner, amount: 0 },
        ),
        spec_is_plain(fresh_token_data(mint, owner)),
{
    let data = fresh_token_data(mint, owner);
    crate::address::lemma_address_eq_view(mint, owner);
    crate::address::lemma_address_eq_view(owner, mint);
    crate::address::lemma_address_of_self(mint);
    crate::address::lemma_address_of_self(owner);
    crate::wire::lemma_le64_zero();
    assert(data.len() == 165);
    assert(data.subrange(0, 32) =~= mint@);
    assert(data.subrange(32, 64) =~= owner@);
    assert(data.subrange(64, 72) =~= crate::wire::zeros(8));
    assert(data[108] == 1);
    assert forall|i: int| 64 <= i < 165 && i != 108 implies data[i] == 0 by {}
}

/// Reads a plain token account from its data: `None` where the data holds
/// no token account or one that is frozen, native, delegated or closable by
/// another authority.
pub fn plain_account(data: &[u8]) -> (r: Option<TokenAccount>)
    ensures
        match r {
            Some(account) => spec_is_plain(data@) && spec_unpack(data@) == Ok::<
                TokenAccount,
                ProgramError,
            >(account),
            None => !spec_is_plain(data@),
        },
{
    match unpack(data) {
        Ok(account) => {
            if data[72] == 0 && data[108] == 1 && data[109] == 0 && data[129] == 0 {
                Some(account)
            } else {
                None
            }
        },
        Err(_) => None,
    }
}

/// Writes `amount` as the balance of the token account in `data`.
pub fn set_amount(data: &mut Vec<u8>, amount: u64)
    requires
        old(data).len() == 165,
    ensures
        final(data)@ == with_amount(old(data)@, amount),
{
    let bytes = vstd::bytes::u64_to_le_bytes(amount);
    let ghost before = data@;
    let mut i: usize = 0;
    while i < 8
        invariant
            i <= 8,
            bytes@.len() == 8,
            data@.len() == 165,
            before.len() == 165,
            forall|j: int| 0 <= j < 64 ==> data@[j] == before[j],
            forall|j: int| 64 <= j < 64 + i ==> data@[j] == bytes@[j - 64],
            forall|j: int| 64 + i <= j < 165 ==> data@[j] == before[j],
        decreases 8 - i,
    {
        data[64 + i] = bytes[i];
        i += 1;
    }
    assert(data@ =~= with_amount(before, amount));
}

/// The data of a token account just initialised for `mint` under `owner`.
pub fn fresh_token_bytes(mint: &Address, owner: &Address) -> (r: Vec<u8>)
    ensures
        r@ == fresh_token_data(*mint, *owner),
{
    let mut out: Vec<u8> = Vec::new();
    mint.write(&mut out);
    owner.write(&mut out);
    let gap = crate::wire::zero_bytes(44);
    crate::wire::append(&mut out, gap.as_slice());
    out.push(1u8);
    let rest = crate::wire::zero_bytes(56);
    crate::wire::append(&mut out, rest.as_slice());
    assert(out@ =~= fresh_token_data(*mint, *owner));
    out
}

} // verus!
