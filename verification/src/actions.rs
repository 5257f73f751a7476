//! What an admitted operation asks of the ledger runtime.
//!
//! The escrow program decides; the runtime moves tokens and creates and
//! closes accounts. Each value here is one such request, with the addresses
//! and amounts that the decision fixed.

use vstd::prelude::*;
use crate::address::Address;
use crate::error::{escrow, EscrowError, ProgramError};

verus! {

/// Create an account of `space` zero bytes owned by `owner`, funded with
/// `lamports` from `payer`.
#[derive(Clone, Copy, Debug)]
pub struct CreateAccount {
    /// The account that funds the new one.
    pub payer: Address,
    /// The address at which the account is created.
    pub new_account: Address,
    /// The storage deposit.
    pub lamports: u64,
    /// The size of the account's data.
    pub space: u64,
    /// The program that owns the new account.
    pub owner: Address,
}

/// Make a fresh token account hold `mint` under the authority `owner`.
#[derive(Clone, Copy, Debug)]
pub struct InitializeTokenAccount {
    /// The account to initialise.
    pub account: Address,
    /// The mint whose tokens it will hold.
    pub mint: Address,
    /// The party that may move the tokens.
    pub owner: Address,
}

/// Move `amount` tokens from `source` to `destination`, authorised by
/// `authority`.
#[derive(Clone, Copy, Debug)]
pub struct Transfer {
    /// The token account that pays.
    pub source: Address,
    /// The token account that receives.
    pub destination: Address,
    /// The owner of the source, who authorises the transfer.
    pub authority: Address,
    /// The number of tokens to move.
    pub amount: u64,
}

/// Close the empty token account `account`, authorised by `authority`, and
/// hand its lamports to `destination`.
#[derive(Clone, Copy, Debug)]
pub struct CloseTokenAccount {
    /// The token account to close.
    pub account: Address,
    /// The account that gets the lamports.
    pub destination: Address,
    /// The owner of the account, who authorises its closing.
    pub authority: Address,
}

/// Close the escrow record `record` and hand its lamports to `beneficiary`.
#[derive(Clone, Copy, Debug)]
pub struct CloseRecord {
    /// The record account to close.
    pub record: Address,
    /// The account that gets the lamports.
    pub beneficiary: Address,
}

impl CloseRecord {
    /// What the beneficiary holds once the record's lamports were added,
    /// or `ArithmeticOverflow` where the sum exceeds 64 bits.
    pub open spec fn spec_credited(beneficiary_lamports: u64, record_lamports: u64) -> Result<
        u64,
        ProgramError,
    > {
        if beneficiary_lamports + record_lamports > u64::MAX {
            Err(escrow(EscrowError::ArithmeticOverflow))
        } else {
            Ok((beneficiary_lamports + record_lamports) as u64)
        }
    }

    /// The lamports of the beneficiary after the record was closed.
    pub fn credited(beneficiary_lamports: u64, record_lamports: u64) -> (r: Result<
        u64,
        ProgramError,
    >)
        ensures
            r == Self::spec_credited(beneficiary_lamports, record_lamports),
    {
        match beneficiary_lamports.checked_add(record_lamports) {
            Some(lamports) => Ok(lamports),
            None => Err(ProgramError::from(EscrowError::ArithmeticOverflow)),
        }
    }
}

} // verus!
