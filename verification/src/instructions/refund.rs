//! Cancel: the maker takes the deposit back before a taker appears.

use vstd::prelude::*;
use crate::account::{views, AccountSpec, AccountView};
use crate::actions::{CloseRecord, CloseTokenAccount, Transfer};
use crate::address::{system_program_id, token_program_id, Address};
use crate::error::{escrow, EscrowError, ProgramError};
use crate::instructions::checks::{derived_pair, holding, spec_derived_pair, spec_holding};
use crate::pda::{SeedTag, SignerSeeds};
use crate::state::Escrow;
use crate::token::TokenAccount;

verus! {

/// What an admitted Cancel asks of the ledger, in this order, all or
/// nothing: return the whole deposit to the maker, close the custody
/// account, close the record.
#[derive(Clone, Copy, Debug)]
pub struct CancelPlan {
    /// The whole custody balance to the maker's token A account, authorised
    /// by the derived authority.
    pub refund: Transfer,
    /// The custody account's storage deposit goes to the maker.
    pub close_vault: CloseTokenAccount,
    /// The record's storage deposit goes to the maker.
    pub close_record: CloseRecord,
    /// Derivation proof of the custody authority.
    pub vault_signer: SignerSeeds,
}

/// Flags and programs of a Cancel. Accounts by position: 0 maker (signer),
/// 1 mint A, 2 maker's token A account, 3 escrow record, 4 custody account
/// (2 to 4 writable), 5 system program, 6 token program. A maker that did
/// not sign is refused with `MissingRequiredSignature`.
pub open spec fn spec_cancel_flags(program_id: Address, accounts: Seq<AccountSpec>) -> Result<
    (),
    ProgramError,
> {
    if accounts.len() < 7 {
        Err(ProgramError::NotEnoughAccountKeys)
    } else if !accounts[0].is_signer {
        Err(escrow(EscrowError::MissingRequiredSignature))
    } else if !accounts[2].is_writable || !accounts[3].is_writable || !accounts[4].is_writable {
        Err(escrow(EscrowError::InvalidAccountData))
    } else if accounts[6].key != token_program_id() {
        Err(escrow(EscrowError::IncorrectProgramId))
    } else if accounts[3].owner != program_id {
        Err(escrow(EscrowError::InvalidAccountOwner))
    } else if accounts[5].key != system_program_id() {
        Err(escrow(EscrowError::IncorrectProgramId))
    } else {
        Ok(())
    }
}

/// The stored terms, provided that they are those of the request: the
/// record decodes (`InvalidAccountData` of the ledger otherwise), and its
/// id (`InvalidEscrowId`), its maker (`InvalidAccountOwner`) and its mint A
/// (`InvalidMint`) are the supplied ones.
pub open spec fn spec_cancel_terms(accounts: Seq<AccountSpec>, escrow_id: u64) -> Result<
    Escrow,
    ProgramError,
> {
    if accounts.len() < 7 {
        Err(ProgramError::NotEnoughAccountKeys)
    } else {
        match Escrow::decode(accounts[3].data) {
            None => Err(ProgramError::InvalidAccountData),
            Some(terms) => {
                if terms.escrow_id != escrow_id {
                    Err(escrow(EscrowError::InvalidEscrowId))
                } else if terms.maker != accounts[0].key {
                    Err(escrow(EscrowError::InvalidAccountOwner))
                } else if terms.token_mint_a != accounts[1].key {
                    Err(escrow(EscrowError::InvalidMint))
                } else {
                    Ok(terms)
                }
            },
        }
    }
}

/// The custody account's content, provided that the maker's token A
/// account holds mint A, and the custody account is owned by the token
/// program (`IncorrectProgramId`) and holds mint A.
pub open spec fn spec_cancel_holdings(accounts: Seq<AccountSpec>) -> Result<
    TokenAccount,
    ProgramError,
> {
    if accounts.len() < 7 {
        Err(ProgramError::NotEnoughAccountKeys)
    } else {
        match spec_holding(accounts[2].data, None, accounts[1].key, 0) {
            Err(e) => Err(e),
            Ok(_) => {
                if accounts[4].owner != token_program_id() {
                    Err(escrow(EscrowError::IncorrectProgramId))
                } else {
                    spec_holding(accounts[4].data, None, accounts[1].key, 0)
                }
            },
        }
    }
}

/// The requests of an admitted Cancel.
pub open spec fn spec_cancel_plan(
    accounts: Seq<AccountSpec>,
    escrow_id: u64,
    vault: TokenAccount,
    bump: u8,
) -> CancelPlan
    recommends
        accounts.len() >= 7,
{
    CancelPlan {
        refund: Transfer {
            source: accounts[4].key,
            destination: accounts[2].key,
            authority: accounts[4].key,
            amount: vault.amount,
        },
        close_vault: CloseTokenAccount {
            account: accounts[4].key,
            destination: accounts[0].key,
            authority: accounts[4].key,
        },
        close_record: CloseRecord { record: accounts[3].key, beneficiary: accounts[0].key },
        vault_signer: SignerSeeds {
            tag: SeedTag::Vault,
            maker: accounts[0].key,
            escrow_id,
            bump,
        },
    }
}

/// The decision on a Cancel: the first failing check's error, or the
/// requests to the ledger. The checks run in this order: the flags, the
/// stored terms, the holdings, the two derived addresses, and that custody
/// is not empty (`InsufficientFunds`).
pub open spec fn spec_cancel_escrow(program_id: Address, accounts: Seq<AccountSpec>, escrow_id: u64) -> Result<
    CancelPlan,
    ProgramError,
> {
    match spec_cancel_flags(program_id, accounts) {
        Err(e) => Err(e),
        Ok(_) => match spec_cancel_terms(accounts, escrow_id) {
            Err(e) => Err(e),
            Ok(_) => match spec_cancel_holdings(accounts) {
                Err(e) => Err(e),
                Ok(vault) => match spec_derived_pair(
                    program_id,
                    accounts[0].key,
                    escrow_id,
                    accounts[4].key,
                    accounts[3].key,
                ) {
                    Err(e) => Err(e),
                    Ok(bumps) => {
                        if vault.amount == 0 {
                            Err(escrow(EscrowError::InsufficientFunds))
                        } else {
                            Ok(spec_cancel_plan(accounts, escrow_id, vault, bumps.0))
                        }
                    },
                },
            },
        },
    }
}

/// Checks the flags and the programs of a Cancel.
pub fn cancel_flags(program_id: &Address, accounts: &[AccountView]) -> (r: Result<(), ProgramError>)
    ensures
        r == spec_cancel_flags(*program_id, views(accounts@)),
{
    if accounts.len() < 7 {
        return Err(ProgramError::NotEnoughAccountKeys);
    }
    if !accounts[0].is_signer {
        return Err(ProgramError::from(EscrowError::MissingRequiredSignature));
    }
    if !accounts[2].is_writable || !accounts[3].is_writable || !accounts[4].is_writable {
        return Err(ProgramError::from(EscrowError::InvalidAccountData));
    }
    if accounts[6].key != token_program_id() {
        return Err(ProgramError::from(EscrowError::IncorrectProgramId));
    }
    if accounts[3].owner != *program_id {
        return Err(ProgramError::from(EscrowError::InvalidAccountOwner));
    }
    if accounts[5].key != system_program_id() {
        return Err(ProgramError::from(EscrowError::IncorrectProgramId));
    }
    Ok(())
}

/// Reads the stored terms and compares them with the request.
pub fn cancel_terms(accounts: &[AccountView], escrow_id: u64) -> (r: Result<Escrow, ProgramError>)
    ensures
        r == spec_cancel_terms(views(accounts@), escrow_id),
{
    if accounts.len() < 7 {
        return Err(ProgramError::NotEnoughAccountKeys);
    }
    let terms = match Escrow::unpack_the_slice_data(accounts[3].data.as_slice()) {
        Ok(terms) => terms,
        Err(e) => {
            return Err(e);
        },
    };
    if terms.escrow_id != escrow_id {
        return Err(ProgramError::from(EscrowError::InvalidEscrowId));
    }
    if terms.maker != accounts[0].key {
        return Err(ProgramError::from(EscrowError::InvalidAccountOwner));
    }
    if terms.token_mint_a != accounts[1].key {
        return Err(ProgramError::from(EscrowError::InvalidMint));
    }
    Ok(terms)
}

/// Checks the maker's token A account and the custody account.
pub fn cancel_holdings(accounts: &[AccountView]) -> (r: Result<TokenAccount, ProgramError>)
    ensures
        r == spec_cancel_holdings(views(accounts@)),
{
    if accounts.len() < 7 {
        return Err(ProgramError::NotEnoughAccountKeys);
    }
    match holding(&accounts[2], None, &accounts[1].key, 0) {
        Err(e) => {
            return Err(e);
        },
        Ok(_) => {},
    }
    if accounts[4].owner != token_program_id() {
        return Err(ProgramError::from(EscrowError::IncorrectProgramId));
    }
    holding(&accounts[4], None, &accounts[1].key, 0)
}

/// Cancels an existing escrow, refunding the tokens to the maker and closing the accounts.
///
/// Callable only by the maker who opened the escrow. Validates the maker, the stored
/// terms, the two token accounts and the two derived addresses, and on
/// success returns what the ledger must do, all or nothing: return the
/// whole deposit, close the custody account and the record. Nothing is
/// changed here; a failed check returns its error.
pub fn cancel_escrow(program_id: &Address, accounts: &[AccountView], escrow_id: u64) -> (r: Result<
    CancelPlan,
    ProgramError,
>)
    ensures
        r == spec_cancel_escrow(*program_id, views(accounts@), escrow_id),
{
    match cancel_flags(program_id, accounts) {
        Err(e) => {
            return Err(e);
        },
        Ok(_) => {},
    }
    match cancel_terms(accounts, escrow_id) {
        Err(e) => {
            return Err(e);
        },
        Ok(_) => {},
    }
    let vault = match cancel_holdings(accounts) {
        Ok(vault) => vault,
        Err(e) => {
            return Err(e);
        },
    };
    let bumps = match derived_pair(
        program_id,
        &accounts[0].key,
        escrow_id,
        &accounts[4].key,
        &accounts[3].key,
    ) {
        Ok(bumps) => bumps,
        Err(e) => {
            return Err(e);
        },
    };
    if vault.amount == 0 {
        return Err(ProgramError::from(EscrowError::InsufficientFunds));
    }
    Ok(
        CancelPlan {
            refund: Transfer {
                source: accounts[4].key,
                destination: accounts[2].key,
                authority: accounts[4].key,
                amount: vault.amount,
            },
            close_vault: CloseTokenAccount {
                account: accounts[4].key,
                destination: accounts[0].key,
                authority: accounts[4].key,
            },
            close_record: CloseRecord { record: accounts[3].key, beneficiary: accounts[0].key },
            vault_signer: SignerSeeds {
                tag: SeedTag::Vault,
                maker: accounts[0].key,
                escrow_id,
                bump: bumps.0,
            },
        },
    )
}

} // verus!
