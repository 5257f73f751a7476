//! The storage deposit that keeps a new account alive.

use vstd::prelude::*;
use solana_program::account_info::AccountInfo;
use solana_program::pubkey::Pubkey;
use solana_program::rent::Rent;
use solana_program::sysvar::Sysvar;
use crate::account::{AccountSpec, AccountView};
use crate::address::rent_sysvar_id;
use crate::error::{escrow, EscrowError, ProgramError};
use crate::wire::{le64_at, read_u64};

verus! {

/// Bytes that the ledger charges for every account besides its data.
pub const ACCOUNT_STORAGE_OVERHEAD: u64 = 128;

/// Size of the rent record: a rate, a threshold and a percentage.
pub const RENT_RECORD_LEN: usize = 17;

/// What `Rent::minimum_balance` returns for `space` bytes on the rent record
/// that `Rent::from_account_info` reads from `rent_data`, or `None` where it
/// reads none.
pub uninterp spec fn rent_exempt_minimum(rent_data: Seq<u8>, space: usize) -> Option<u64>;

/// Reads the rent record with `Rent::from_account_info`, from an account
/// that has the rent sysvar's address, and calls `Rent::minimum_balance`.
/// That function multiplies the charged bytes by the record's rate, its
/// first eight bytes, in 64 bits: the product must fit.
#[verifier::external_body]
fn minimum_balance(rent_data: &[u8], space: usize) -> (r: Option<u64>)
    requires
        rent_data.len() >= 8,
        (ACCOUNT_STORAGE_OVERHEAD + space) * le64_at(rent_data@, 0) <= u64::MAX,
        ACCOUNT_STORAGE_OVERHEAD + space <= u64::MAX,
    ensures
        r == rent_exempt_minimum(rent_data@, space),
{
    let (key, owner) = (solana_program::sysvar::rent::id(), Pubkey::default());
    let (mut lamports, mut data) = (0u64, rent_data.to_vec());
    let info = AccountInfo::new(&key, false, false, &mut lamports, &mut data, &owner, false, 0);
    Rent::from_account_info(&info).ok().map(|rent| rent.minimum_balance(space))
}

/// Whether the account `rent` can be asked for the deposit for `space`
/// bytes: `InvalidArgument` unless it is the rent sysvar and holds a rent
/// record, `ArithmeticOverflow` where the charged bytes, or the charge for
/// them at the record's rate, exceed 64 bits.
pub open spec fn spec_rent_readable(rent: AccountSpec, space: usize) -> Result<(), ProgramError> {
    if rent.key != rent_sysvar_id() || rent.data.len() < RENT_RECORD_LEN {
        Err(ProgramError::InvalidArgument)
    } else if ACCOUNT_STORAGE_OVERHEAD + space > u64::MAX || (ACCOUNT_STORAGE_OVERHEAD + space)
        * le64_at(rent.data, 0) > u64::MAX {
        Err(escrow(EscrowError::ArithmeticOverflow))
    } else {
        Ok(())
    }
}

/// The deposit that was found, or `InvalidArgument` where none was.
pub open spec fn spec_deposit_found(found: Option<u64>) -> Result<u64, ProgramError> {
    match found {
        Some(lamports) => Ok(lamports),
        None => Err(ProgramError::InvalidArgument),
    }
}

/// The deposit for `space` bytes according to the account `rent`.
pub open spec fn spec_rent_exempt_balance(rent: AccountSpec, space: usize) -> Result<
    u64,
    ProgramError,
> {
    match spec_rent_readable(rent, space) {
        Err(e) => Err(e),
        Ok(_) => spec_deposit_found(rent_exempt_minimum(rent.data, space)),
    }
}

/// Checks that `rent` is the rent sysvar, holds a rent record, and that
/// the charge for `space` bytes fits in 64 bits.
pub fn rent_readable(rent: &AccountView, space: usize) -> (r: Result<(), ProgramError>)
    ensures
        r == spec_rent_readable(rent@, space),
{
    if rent.key != rent_sysvar_id() || rent.data.len() < RENT_RECORD_LEN {
        return Err(ProgramError::InvalidArgument);
    }
    let rate = read_u64(rent.data.as_slice(), 0);
    if space as u64 > u64::MAX - ACCOUNT_STORAGE_OVERHEAD {
        return Err(ProgramError::from(EscrowError::ArithmeticOverflow));
    }
    let bytes: u64 = ACCOUNT_STORAGE_OVERHEAD + space as u64;
    if rate != 0 && bytes > u64::MAX / rate {
        assert(bytes * rate > u64::MAX) by (nonlinear_arith)
            requires
                rate > 0,
                bytes > u64::MAX / rate,
        ;
        return Err(ProgramError::from(EscrowError::ArithmeticOverflow));
    }
    assert(bytes * rate <= u64::MAX) by (nonlinear_arith)
        requires
            rate == 0 || bytes <= u64::MAX / rate,
    ;
    Ok(())
}

/// Turns what the rent record yielded into the deposit or the error.
pub fn deposit_found(found: Option<u64>) -> (r: Result<u64, ProgramError>)
    ensures
        r == spec_deposit_found(found),
{
    match found {
        Some(lamports) => Ok(lamports),
        None => Err(ProgramError::InvalidArgument),
    }
}

/// The deposit that makes an account of `space` bytes exempt from rent.
pub fn rent_exempt_balance(rent: &AccountView, space: usize) -> (r: Result<u64, ProgramError>)
    ensures
        r == spec_rent_exempt_balance(rent@, space),
{
    match rent_readable(rent, space) {
        Err(e) => {
            return Err(e);
        },
        Ok(_) => {},
    }
    deposit_found(minimum_balance(rent.data.as_slice(), space))
}

} // verus!
