//! Exchange: a taker pays token B to the maker and receives the deposit.

use vstd::prelude::*;
use crate::account::{views, AccountSpec, AccountView};
use crate::actions::{CloseRecord, CloseTokenAccount, Transfer};
use crate::address::{token_program_id, Address};
use crate::error::{escrow, EscrowError, ProgramError};
use crate::instructions::checks::{holding, spec_holding, OwnerRule};
use crate::pda::{escrow_address, spec_escrow_address, spec_vault_address, vault_address, SeedTag, SignerSeeds};
use crate::state::Escrow;
use crate::token::TokenAccount;

verus! {

/// What an admitted Exchange asks of the ledger, in this order, all or
/// nothing: pay the maker, release the whole deposit to the taker, close
/// the custody account, close the record.
#[derive(Clone, Copy, Debug)]
pub struct ReleasePlan {
    /// `receive` units of token B from the taker to the maker, authorised
    /// by the taker.
    pub payment: Transfer,
    /// The whole custody balance to the taker, authorised by the derived
    /// authority.
    pub release: Transfer,
    /// The custody account's storage deposit goes to the maker.
    pub close_vault: CloseTokenAccount,
    /// The record's storage deposit goes to the maker.
    pub close_record: CloseRecord,
    /// Derivation proof of the custody authority.
    pub vault_signer: SignerSeeds,
}

/// Flags and programs of an Exchange. Accounts by position: 0 taker
/// (signer), 1 maker (writable), 2 mint A, 3 mint B, 4 maker's token B
/// account, 5 taker's token A account, 6 taker's token B account, 7 custody
/// account, 8 escrow record (4 to 8 writable), 9 token program.
pub open spec fn spec_release_flags(program_id: Address, accounts: Seq<AccountSpec>) -> Result<
    (),
    ProgramError,
> {
    if accounts.len() < 10 {
        Err(ProgramError::NotEnoughAccountKeys)
    } else if !accounts[0].is_signer {
        Err(escrow(EscrowError::MissingRequiredSignature))
    } else if !accounts[1].is_writable || !accounts[4].is_writable || !accounts[5].is_writable
        || !accounts[6].is_writable || !accounts[7].is_writable || !accounts[8].is_writable {
        Err(escrow(EscrowError::InvalidAccountData))
    } else if accounts[9].key != token_program_id() {
        Err(escrow(EscrowError::IncorrectProgramId))
    } else if accounts[8].owner != program_id {
        Err(escrow(EscrowError::InvalidAccountOwner))
    } else {
        Ok(())
    }
}

/// The stored terms, provided that they are those of the request: the
/// record decodes (`InvalidAccountData` of the ledger otherwise), and its
/// id (`InvalidEscrowId`), its mint A (`InvalidMint`) and its maker
/// (`InvalidAccountData` of the escrow program) are the supplied ones.
pub open spec fn spec_release_terms(accounts: Seq<AccountSpec>, escrow_id: u64) -> Result<
    Escrow,
    ProgramError,
> {
    if accounts.len() < 10 {
        Err(ProgramError::NotEnoughAccountKeys)
    } else {
        match Escrow::decode(accounts[8].data) {
            None => Err(ProgramError::InvalidAccountData),
            Some(terms) => {
                if terms.escrow_id != escrow_id {
                    Err(escrow(EscrowError::InvalidEscrowId))
                } else if terms.token_mint_a != accounts[2].key {
                    Err(escrow(EscrowError::InvalidMint))
                } else if terms.maker != accounts[1].key {
                    Err(escrow(EscrowError::InvalidAccountData))
                } else {
                    Ok(terms)
                }
            },
        }
    }
}

/// The custody account's content, provided that the parties' holdings and
/// the custody account fit the exchange: the taker's token B account is the
/// taker's, for mint B, and covers `receive`; the maker's token B account
/// is the maker's (`InvalidAccountData`), for mint B; the taker's token A
/// account is the taker's, for mint A; the custody account is owned by the
/// token program (`InvalidAccountOwner`) and holds mint A.
pub open spec fn spec_release_holdings(accounts: Seq<AccountSpec>, receive: u64) -> Result<
    TokenAccount,
    ProgramError,
> {
    if accounts.len() < 10 {
        Err(ProgramError::NotEnoughAccountKeys)
    } else {
        let taker = Some(
            OwnerRule { owner: accounts[0].key, error: EscrowError::InvalidAccountOwner },
        );
        let maker = Some(OwnerRule { owner: accounts[1].key, error: EscrowError::InvalidAccountData });
        match spec_holding(accounts[6].data, taker, accounts[3].key, receive) {
            Err(e) => Err(e),
            Ok(_) => match spec_holding(accounts[4].data, maker, accounts[3].key, 0) {
                Err(e) => Err(e),
                Ok(_) => match spec_holding(accounts[5].data, taker, accounts[2].key, 0) {
                    Err(e) => Err(e),
                    Ok(_) => {
                        if accounts[7].owner != token_program_id() {
                            Err(escrow(EscrowError::InvalidAccountOwner))
                        } else {
                            spec_holding(accounts[7].data, None, accounts[2].key, 0)
                        }
                    },
                },
            },
        }
    }
}

/// The bump seed of the custody authority, provided that both
/// derivations found an address, that the custody account is under the
/// derived authority (`InvalidAccountOwner`) and that the record is stored
/// at the derived record address (`PDADerivationMismatch`, which also
/// reports a derivation that found nothing).
pub open spec fn spec_release_derived_with(
    vault_found: Option<(Address, u8)>,
    record_found: Option<(Address, u8)>,
    vault: TokenAccount,
    record: Address,
) -> Result<u8, ProgramError> {
    match vault_found {
        None => Err(escrow(EscrowError::PDADerivationMismatch)),
        Some(v) => {
            if vault.owner != v.0 {
                Err(escrow(EscrowError::InvalidAccountOwner))
            } else {
                match record_found {
                    None => Err(escrow(EscrowError::PDADerivationMismatch)),
                    Some(e) => {
                        if e.0 != record {
                            Err(escrow(EscrowError::PDADerivationMismatch))
                        } else {
                            Ok(v.1)
                        }
                    },
                }
            }
        },
    }
}

/// The bump seed of the custody authority, provided that the custody
/// account is under the authority derived for the maker and the id and
/// the record is stored at the address derived for them.
pub open spec fn spec_release_derived(
    program_id: Address,
    accounts: Seq<AccountSpec>,
    escrow_id: u64,
    vault: TokenAccount,
) -> Result<u8, ProgramError> {
    if accounts.len() < 10 {
        Err(ProgramError::NotEnoughAccountKeys)
    } else {
        spec_release_derived_with(
            spec_vault_address(program_id, accounts[1].key, escrow_id),
            spec_escrow_address(program_id, accounts[1].key, escrow_id),
            vault,
            accounts[8].key,
        )
    }
}

/// The requests of an admitted Exchange.
pub open spec fn spec_release_plan(
    accounts: Seq<AccountSpec>,
    escrow_id: u64,
    terms: Escrow,
    vault: TokenAccount,
    bump: u8,
) -> ReleasePlan
    recommends
        accounts.len() >= 10,
{
    ReleasePlan {
        payment: Transfer {
            source: accounts[6].key,
            destination: accounts[4].key,
            authority: accounts[0].key,
            amount: terms.receive,
        },
        release: Transfer {
            source: accounts[7].key,
            destination: accounts[5].key,
            authority: vault.owner,
            amount: vault.amount,
        },
        close_vault: CloseTokenAccount {
            account: accounts[7].key,
            destination: accounts[1].key,
            authority: vault.owner,
        },
        close_record: CloseRecord { record: accounts[8].key, beneficiary: accounts[1].key },
        vault_signer: SignerSeeds {
            tag: SeedTag::Vault,
            maker: accounts[1].key,
            escrow_id,
            bump,
        },
    }
}

/// The decision on an Exchange: the first failing check's error, or the
/// requests to the ledger. The checks run in this order: the flags, the
/// stored terms, the holdings, the derived addresses.
pub open spec fn spec_release_funds(program_id: Address, accounts: Seq<AccountSpec>, escrow_id: u64) -> Result<
    ReleasePlan,
    ProgramError,
> {
    match spec_release_flags(program_id, accounts) {
        Err(e) => Err(e),
        Ok(_) => match spec_release_terms(accounts, escrow_id) {
            Err(e) => Err(e),
            Ok(terms) => match spec_release_holdings(accounts, terms.receive) {
                Err(e) => Err(e),
                Ok(vault) => match spec_release_derived(program_id, accounts, escrow_id, vault) {
                    Err(e) => Err(e),
                    Ok(bump) => Ok(spec_release_plan(accounts, escrow_id, terms, vault, bump)),
                },
            },
        },
    }
}

/// Checks the flags and the programs of an Exchange.
pub fn release_flags(program_id: &Address, accounts: &[AccountView]) -> (r: Result<(), ProgramError>)
    ensures
        r == spec_release_flags(*program_id, views(accounts@)),
{
    if accounts.len() < 10 {
        return Err(ProgramError::NotEnoughAccountKeys);
    }
    if !accounts[0].is_signer {
        return Err(ProgramError::from(EscrowError::MissingRequiredSignature));
    }
    if !accounts[1].is_writable || !accounts[4].is_writable || !accounts[5].is_writable
        || !accounts[6].is_writable || !accounts[7].is_writable || !accounts[8].is_writable {
        return Err(ProgramError::from(EscrowError::InvalidAccountData));
    }
    if accounts[9].key != token_program_id() {
        return Err(ProgramError::from(EscrowError::IncorrectProgramId));
    }
    if accounts[8].owner != *program_id {
        return Err(ProgramError::from(EscrowError::InvalidAccountOwner));
    }
    Ok(())
}

/// Reads the stored terms and compares them with the request.
pub fn release_terms(accounts: &[AccountView], escrow_id: u64) -> (r: Result<Escrow, ProgramError>)
    ensures
        r == spec_release_terms(views(accounts@), escrow_id),
{
    if accounts.len() < 10 {
        return Err(ProgramError::NotEnoughAccountKeys);
    }
    let terms = match Escrow::unpack_the_slice_data(accounts[8].data.as_slice()) {
        Ok(terms) => terms,
        Err(e) => {
            return Err(e);
        },
    };
    if terms.escrow_id != escrow_id {
        return Err(ProgramError::from(EscrowError::InvalidEscrowId));
    }
    if terms.token_mint_a != accounts[2].key {
        return Err(ProgramError::from(EscrowError::InvalidMint));
    }
    if terms.maker != accounts[1].key {
        return Err(ProgramError::from(EscrowError::InvalidAccountData));
    }
    Ok(terms)
}

/// Checks the three holding accounts and the custody account.
pub fn release_holdings(accounts: &[AccountView], receive: u64) -> (r: Result<
    TokenAccount,
    ProgramError,
>)
    ensures
        r == spec_release_holdings(views(accounts@), receive),
{
    if accounts.len() < 10 {
        return Err(ProgramError::NotEnoughAccountKeys);
    }
    let taker = OwnerRule { owner: accounts[0].key, error: EscrowError::InvalidAccountOwner };
    match holding(&accounts[6], Some(taker), &accounts[3].key, receive) {
        Err(e) => {
            return Err(e);
        },
        Ok(_) => {},
    }
    let maker = OwnerRule { owner: accounts[1].key, error: EscrowError::InvalidAccountData };
    match holding(&accounts[4], Some(maker), &accounts[3].key, 0) {
        Err(e) => {
            return Err(e);
        },
        Ok(_) => {},
    }
    let taker = OwnerRule { owner: accounts[0].key, error: EscrowError::InvalidAccountOwner };
    match holding(&accounts[5], Some(taker), &accounts[2].key, 0) {
        Err(e) => {
            return Err(e);
        },
        Ok(_) => {},
    }
    if accounts[7].owner != token_program_id() {
        return Err(ProgramError::from(EscrowError::InvalidAccountOwner));
    }
    holding(&accounts[7], None, &accounts[2].key, 0)
}

/// Compares what the two derivations found with the custody account's
/// authority and with the record's address.
pub fn release_derived_with(
    vault_found: Option<(Address, u8)>,
    record_found: Option<(Address, u8)>,
    vault: &TokenAccount,
    record: &Address,
) -> (r: Result<u8, ProgramError>)
    ensures
        r == spec_release_derived_with(vault_found, record_found, *vault, *record),
{
    let v = match vault_found {
        Some(v) => v,
        None => {
            return Err(ProgramError::from(EscrowError::PDADerivationMismatch));
        },
    };
    if vault.owner != v.0 {
        return Err(ProgramError::from(EscrowError::InvalidAccountOwner));
    }
    let e = match record_found {
        Some(e) => e,
        None => {
            return Err(ProgramError::from(EscrowError::PDADerivationMismatch));
        },
    };
    if e.0 != *record {
        return Err(ProgramError::from(EscrowError::PDADerivationMismatch));
    }
    Ok(v.1)
}

/// Recomputes the two derived addresses of the maker's escrow and checks
/// the custody account's authority and the record's address against them.
pub fn release_derived(
    program_id: &Address,
    accounts: &[AccountView],
    escrow_id: u64,
    vault: &TokenAccount,
) -> (r: Result<u8, ProgramError>)
    ensures
        r == spec_release_derived(*program_id, views(accounts@), escrow_id, *vault),
{
    if accounts.len() < 10 {
        return Err(ProgramError::NotEnoughAccountKeys);
    }
    let vault_found = vault_address(program_id, &accounts[1].key, escrow_id);
    let record_found = escrow_address(program_id, &accounts[1].key, escrow_id);
    release_derived_with(vault_found, record_found, vault, &accounts[8].key)
}

/// Completes an escrow exchange by releasing funds to the respective parties.
///
/// Validates the taker, the stored terms and every holding account, and on
/// success returns what the ledger must do, all or nothing: pay the maker
/// `receive` of token B, release the whole deposit to the taker, close the
/// custody account and the record. Nothing is changed here; a failed check
/// returns its error.
pub fn release_funds(program_id: &Address, accounts: &[AccountView], escrow_id: u64) -> (r: Result<
    ReleasePlan,
    ProgramError,
>)
    ensures
        r == spec_release_funds(*program_id, views(accounts@), escrow_id),
{
    match release_flags(program_id, accounts) {
        Err(e) => {
            return Err(e);
        },
        Ok(_) => {},
    }
    let terms = match release_terms(accounts, escrow_id) {
        Ok(terms) => terms,
        Err(e) => {
            return Err(e);
        },
    };
    let vault = match release_holdings(accounts, terms.receive) {
        Ok(vault) => vault,
        Err(e) => {
            return Err(e);
        },
    };
    let bump = match release_derived(program_id, accounts, escrow_id, &vault) {
        Ok(bump) => bump,
        Err(e) => {
            return Err(e);
        },
    };
    Ok(
        ReleasePlan {
            payment: Transfer {
                source: accounts[6].key,
                destination: accounts[4].key,
                authority: accounts[0].key,
                amount: terms.receive,
            },
            release: Transfer {
                source: accounts[7].key,
                destination: accounts[5].key,
                authority: vault.owner,
                amount: vault.amount,
            },
            close_vault: CloseTokenAccount {
                account: accounts[7].key,
                destination: accounts[1].key,
                authority: vault.owner,
            },
            close_record: CloseRecord { record: accounts[8].key, beneficiary: accounts[1].key },
            vault_signer: SignerSeeds {
                tag: SeedTag::Vault,
                maker: accounts[1].key,
                escrow_id,
                bump,
            },
        },
    )
}

} // verus!
