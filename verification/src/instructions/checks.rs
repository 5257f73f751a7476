//! Checks that the three operations share.

use vstd::prelude::*;
use crate::account::AccountView;
use crate::address::Address;
use crate::error::{escrow, EscrowError, ProgramError};
use crate::pda::{escrow_address, spec_escrow_address, spec_vault_address, vault_address};
use crate::token::{spec_unpack, unpack, TokenAccount};

verus! {

/// The owner that a holding account must have, and the error that reports
/// another owner.
pub struct OwnerRule {
    /// The owner to expect.
    pub owner: Address,
    /// The error for another owner.
    pub error: EscrowError,
}

/// The token account in `data`, provided that it meets the owner rule, if
/// one is given, holds `mint` and has at least `min_amount` tokens. The
/// first check that fails decides the error: the layout, the owner, the
/// mint (`InvalidMint`), the balance (`InsufficientFunds`).
pub open spec fn spec_holding(
    data: Seq<u8>,
    rule: Option<OwnerRule>,
    mint: Address,
    min_amount: u64,
) -> Result<TokenAccount, ProgramError> {
    match spec_unpack(data) {
        Err(e) => Err(e),
        Ok(account) => {
            if rule is Some && account.owner != rule->0.owner {
                Err(escrow(rule->0.error))
            } else if account.mint != mint {
                Err(escrow(EscrowError::InvalidMint))
            } else if account.amount < min_amount {
                Err(escrow(EscrowError::InsufficientFunds))
            } else {
                Ok(account)
            }
        },
    }
}

/// Reads a holding account and checks its owner, mint and balance.
pub fn holding(account: &AccountView, rule: Option<OwnerRule>, mint: &Address, min_amount: u64) -> (r:
    Result<TokenAccount, ProgramError>)
    ensures
        r == spec_holding(account@.data, rule, *mint, min_amount),
{
    let token = match unpack(account.data.as_slice()) {
        Ok(token) => token,
        Err(e) => {
            return Err(e);
        },
    };
    match rule {
        Some(rule) => {
            if token.owner != rule.owner {
                return Err(ProgramError::from(rule.error));
            }
        },
        None => {},
    }
    if token.mint != *mint {
        return Err(ProgramError::from(EscrowError::InvalidMint));
    }
    if token.amount < min_amount {
        return Err(ProgramError::from(EscrowError::InsufficientFunds));
    }
    Ok(token)
}

/// The bump seeds of two derivations, provided that both found an
/// address and that `vault` and `record` are those addresses;
/// `PDADerivationMismatch` otherwise.
pub open spec fn spec_matching_pair(
    vault_found: Option<(Address, u8)>,
    record_found: Option<(Address, u8)>,
    vault: Address,
    record: Address,
) -> Result<(u8, u8), ProgramError> {
    match (vault_found, record_found) {
        (Some(v), Some(e)) => {
            if v.0 == vault && e.0 == record {
                Ok((v.1, e.1))
            } else {
                Err(escrow(EscrowError::PDADerivationMismatch))
            }
        },
        _ => Err(escrow(EscrowError::PDADerivationMismatch)),
    }
}

/// The bump seeds of the custody account and of the record of
/// `(maker, escrow_id)`, provided that `vault` and `record` are the two
/// derived addresses; `PDADerivationMismatch` otherwise, also where a
/// derivation finds no address.
pub open spec fn spec_derived_pair(
    program_id: Address,
    maker: Address,
    escrow_id: u64,
    vault: Address,
    record: Address,
) -> Result<(u8, u8), ProgramError> {
    spec_matching_pair(
        spec_vault_address(program_id, maker, escrow_id),
        spec_escrow_address(program_id, maker, escrow_id),
        vault,
        record,
    )
}

/// Compares what two derivations found with the supplied addresses.
pub fn matching_pair(
    vault_found: Option<(Address, u8)>,
    record_found: Option<(Address, u8)>,
    vault: &Address,
    record: &Address,
) -> (r: Result<(u8, u8), ProgramError>)
    ensures
        r == spec_matching_pair(vault_found, record_found, *vault, *record),
{
    let v = match vault_found {
        Some(v) => v,
        None => {
            return Err(ProgramError::from(EscrowError::PDADerivationMismatch));
        },
    };
    let e = match record_found {
        Some(e) => e,
        None => {
            return Err(ProgramError::from(EscrowError::PDADerivationMismatch));
        },
    };
    if v.0 != *vault || e.0 != *record {
        return Err(ProgramError::from(EscrowError::PDADerivationMismatch));
    }
    Ok((v.1, e.1))
}

/// Recomputes both derived addresses and compares them with the supplied
/// ones.
pub fn derived_pair(
    program_id: &Address,
    maker: &Address,
    escrow_id: u64,
    vault: &Address,
    record: &Address,
) -> (r: Result<(u8, u8), ProgramError>)
    ensures
        r == spec_derived_pair(*program_id, *maker, escrow_id, *vault, *record),
{
    let vault_found = vault_address(program_id, maker, escrow_id);
    let record_found = escrow_address(program_id, maker, escrow_id);
    matching_pair(vault_found, record_found, vault, record)
}

} // verus!
