//! Addresses derived from the program, the maker and the escrow id.
//!
//! The custody account and the escrow record of one escrow live at two
//! addresses that anybody can recompute and that no private key controls.

use vstd::prelude::*;
use vstd::slice::slice_to_vec;
use solana_program::pubkey::Pubkey;
use crate::address::{token_program_id, Address};
use crate::wire::{le64, write_u64};

verus! {

/// Seed tag of the custody account: the bytes of `vault`.
pub const VAULT_TAG: [u8; 5] = [118, 97, 117, 108, 116];

/// Seed tag of the escrow record: the bytes of `escrow_vault`.
pub const ESCROW_TAG: [u8; 12] = [101, 115, 99, 114, 111, 119, 95, 118, 97, 117, 108, 116];

/// The address and bump seed that `Pubkey::try_find_program_address` finds
/// for `seeds` under `program_id`, or `None` where it finds none.
pub uninterp spec fn program_address(seeds: Seq<Seq<u8>>, program_id: Seq<u8>) -> Option<
    (Address, u8),
>;

/// Calls `Pubkey::try_find_program_address`. The search hashes the seeds, a
/// bump seed and the program id and keeps the first result, counting the
/// bump down from 255, that is no point of the signature curve; the contract
/// only names what it returns.
#[verifier::external_body]
pub(crate) fn find_program_address(seeds: &Vec<Vec<u8>>, program_id: &Address) -> (r: Option<(Address, u8)>)
    ensures
        r == program_address(seeds.deep_view(), program_id@),
{
    let slices: Vec<&[u8]> = seeds.iter().map(|s| s.as_slice()).collect();
    let found = Pubkey::try_find_program_address(&slices, &Pubkey::new_from_array(program_id.bytes));
    found.map(|(key, bump)| (Address { bytes: key.to_bytes() }, bump))
}

/// The address of a derivation that found one.
pub open spec fn key_of(found: Option<(Address, u8)>) -> Address {
    match found {
        Some(pair) => pair.0,
        None => arbitrary(),
    }
}

/// The bump seed of a derivation that found an address.
pub open spec fn bump_of(found: Option<(Address, u8)>) -> u8 {
    match found {
        Some(pair) => pair.1,
        None => arbitrary(),
    }
}

/// Seeds of the custody account: the tag, the maker, the id's eight bytes.
pub open spec fn vault_seeds(maker: Address, escrow_id: u64) -> Seq<Seq<u8>> {
    seq![VAULT_TAG@, maker@, le64(escrow_id)]
}

/// Seeds of the escrow record: the tag, the maker, the id's eight bytes.
pub open spec fn escrow_seeds(maker: Address, escrow_id: u64) -> Seq<Seq<u8>> {
    seq![ESCROW_TAG@, maker@, le64(escrow_id)]
}

/// Address and bump seed of the custody account of `(maker, escrow_id)`.
pub open spec fn spec_vault_address(program_id: Address, maker: Address, escrow_id: u64) -> Option<
    (Address, u8),
> {
    program_address(vault_seeds(maker, escrow_id), program_id@)
}

/// Address and bump seed of the escrow record of `(maker, escrow_id)`.
pub open spec fn spec_escrow_address(
    program_id: Address,
    maker: Address,
    escrow_id: u64,
) -> Option<(Address, u8)> {
    program_address(escrow_seeds(maker, escrow_id), program_id@)
}

/// The addresses of two derivations, where both found one.
pub open spec fn spec_both(vault: Option<(Address, u8)>, escrow: Option<(Address, u8)>) -> Option<
    (Address, Address),
> {
    match (vault, escrow) {
        (Some(vault), Some(escrow)) => Some((vault.0, escrow.0)),
        _ => None,
    }
}

/// Both derived addresses, custody first, where both derivations succeed.
pub open spec fn spec_derive_pdas(program_id: Address, maker: Address, escrow_id: u64) -> Option<
    (Address, Address),
> {
    spec_both(
        spec_vault_address(program_id, maker, escrow_id),
        spec_escrow_address(program_id, maker, escrow_id),
    )
}

fn seeds_of(tag: &[u8], maker: &Address, escrow_id: u64) -> (r: Vec<Vec<u8>>)
    ensures
        r.deep_view() == seq![tag@, maker@, le64(escrow_id)],
        r@.len() == 3,
{
    let mut id: Vec<u8> = Vec::new();
    write_u64(&mut id, escrow_id);
    assert(id@ =~= le64(escrow_id));
    let mut seeds: Vec<Vec<u8>> = Vec::new();
    seeds.push(slice_to_vec(tag));
    seeds.push(maker.to_vec());
    seeds.push(id);
    proof {
        let want = seq![tag@, maker@, le64(escrow_id)];
        assert(seeds@[0].deep_view() =~= tag@);
        assert(seeds@[1].deep_view() =~= maker@);
        assert(seeds@[2].deep_view() =~= le64(escrow_id));
        assert(seeds.deep_view() =~= want);
    }
    seeds
}

/// Derives the custody account's address, which is also its authority.
pub fn vault_address(program_id: &Address, maker: &Address, escrow_id: u64) -> (r: Option<
    (Address, u8),
>)
    ensures
        r == spec_vault_address(*program_id, *maker, escrow_id),
{
    let seeds = seeds_of(VAULT_TAG.as_slice(), maker, escrow_id);
    find_program_address(&seeds, program_id)
}

/// Derives the escrow record's address.
pub fn escrow_address(program_id: &Address, maker: &Address, escrow_id: u64) -> (r: Option<
    (Address, u8),
>)
    ensures
        r == spec_escrow_address(*program_id, *maker, escrow_id),
{
    let seeds = seeds_of(ESCROW_TAG.as_slice(), maker, escrow_id);
    find_program_address(&seeds, program_id)
}

/// Derive escrow PDAs: the custody address, then the record address.
pub fn derive_pdas(program_id: &Address, maker: &Address, escrow_id: u64) -> (r: Option<
    (Address, Address),
>)
    ensures
        r == spec_derive_pdas(*program_id, *maker, escrow_id),
{
    let vault = vault_address(program_id, maker, escrow_id);
    let escrow = escrow_address(program_id, maker, escrow_id);
    both(vault, escrow)
}

/// The addresses that two derivations found, without their bump seeds.
pub fn both(vault: Option<(Address, u8)>, escrow: Option<(Address, u8)>) -> (r: Option<
    (Address, Address),
>)
    ensures
        r == spec_both(vault, escrow),
{
    match (vault, escrow) {
        (Some(v), Some(e)) => Some((v.0, e.0)),
        _ => None,
    }
}

/// Which of an escrow's two derived accounts a seed list is for.
#[derive(Clone, Copy, Debug, PartialEq, Eq, Structural)]
pub enum SeedTag {
    /// The custody account, under the tag `vault`.
    Vault,
    /// The escrow record, under the tag `escrow_vault`.
    Escrow,
}

/// The derivation proof that stands in for a signature of a derived
/// address: its seeds and the bump seed that completes them.
#[derive(Clone, Copy, Debug)]
pub struct SignerSeeds {
    /// Which of the two accounts the seeds derive.
    pub tag: SeedTag,
    /// The maker of the escrow.
    pub maker: Address,
    /// The id of the escrow.
    pub escrow_id: u64,
    /// The bump seed that the derivation found.
    pub bump: u8,
}

impl SignerSeeds {
    /// The four seeds: tag, maker, escrow id and bump.
    pub open spec fn spec_seeds(self) -> Seq<Seq<u8>> {
        match self.tag {
            SeedTag::Vault => vault_seeds(self.maker, self.escrow_id).push(seq![self.bump]),
            SeedTag::Escrow => escrow_seeds(self.maker, self.escrow_id).push(seq![self.bump]),
        }
    }

    /// The seeds in the form that the ledger runtime takes them.
    pub fn seeds(&self) -> (r: Vec<Vec<u8>>)
        ensures
            r.deep_view() == self.spec_seeds(),
    {
        let mut seeds = match self.tag {
            SeedTag::Vault => seeds_of(VAULT_TAG.as_slice(), &self.maker, self.escrow_id),
            SeedTag::Escrow => seeds_of(ESCROW_TAG.as_slice(), &self.maker, self.escrow_id),
        };
        let ghost first = seeds.deep_view();
        let mut bump: Vec<u8> = Vec::new();
        bump.push(self.bump);
        assert(bump@ =~= seq![self.bump]);
        seeds.push(bump);
        proof {
            assert(seeds@[3].deep_view() =~= seq![self.bump]);
            assert(seeds.deep_view() =~= first.push(seq![self.bump]));
        }
        seeds
    }
}

/// Bytes of `ATokenGPvbdGVxr1b2hvZbsiqW5xWH25efTNsLJA8knL`, the program
/// that keeps one token account per wallet and mint.
pub const ASSOCIATED_TOKEN_PROGRAM_ID: [u8; 32] = [
    140, 151, 37, 143, 78, 36, 137, 241, 187, 61, 16, 41, 20, 142, 13, 131,
    11, 90, 19, 153, 218, 255, 16, 132, 4, 142, 123, 216, 219, 233, 248, 89,
];

/// Identity of the associated token account program.
pub open spec fn spec_associated_token_program_id() -> Address {
    Address { bytes: ASSOCIATED_TOKEN_PROGRAM_ID }
}

#[verifier::when_used_as_spec(spec_associated_token_program_id)]
pub fn associated_token_program_id() -> (r: Address)
    ensures
        r == spec_associated_token_program_id(),
{
    Address { bytes: ASSOCIATED_TOKEN_PROGRAM_ID }
}

/// The token account that belongs to `wallet` for `mint`: derived from
/// the wallet, the token program and the mint under the associated token
/// account program.
pub open spec fn spec_associated_token_address(wallet: Address, mint: Address) -> Option<
    (Address, u8),
> {
    program_address(
        seq![wallet@, token_program_id()@, mint@],
        spec_associated_token_program_id()@,
    )
}

/// Derives the address of the wallet's token account for the mint.
pub fn associated_token_address(wallet: &Address, mint: &Address) -> (r: Option<Address>)
    ensures
        match spec_associated_token_address(*wallet, *mint) {
            Some(found) => r == Some(found.0),
            None => r is None,
        },
{
    let mut seeds: Vec<Vec<u8>> = Vec::new();
    seeds.push(wallet.to_vec());
    seeds.push(token_program_id().to_vec());
    seeds.push(mint.to_vec());
    proof {
        assert(seeds@[0].deep_view() =~= wallet@);
        assert(seeds@[1].deep_view() =~= token_program_id()@);
        assert(seeds@[2].deep_view() =~= mint@);
        assert(seeds.deep_view() =~= seq![wallet@, token_program_id()@, mint@]);
    }
    match find_program_address(&seeds, &associated_token_program_id()) {
        Some(found) => Some(found.0),
        None => None,
    }
}

} // verus!
