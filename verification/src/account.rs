//! Accounts as an operation sees them.

use vstd::prelude::*;
use crate::address::Address;

verus! {

/// One account handed to an operation: its address, what the ledger stores
/// under it, and the flags that the caller claimed for it.
#[derive(Debug)]
pub struct AccountView {
    /// Address of the account.
    pub key: Address,
    /// Program that owns the account.
    pub owner: Address,
    /// Lamports held by the account.
    pub lamports: u64,
    /// Data stored in the account.
    pub data: Vec<u8>,
    /// Whether the account's key holder authorised the operation.
    pub is_signer: bool,
    /// Whether the operation may change the account.
    pub is_writable: bool,
}

/// The mathematical content of an `AccountView`.
pub struct AccountSpec {
    pub key: Address,
    pub owner: Address,
    pub lamports: u64,
    pub data: Seq<u8>,
    pub is_signer: bool,
    pub is_writable: bool,
}

impl View for AccountView {
    type V = AccountSpec;

    open spec fn view(&self) -> AccountSpec {
        AccountSpec {
            key: self.key,
            owner: self.owner,
            lamports: self.lamports,
            data: self.data@,
            is_signer: self.is_signer,
            is_writable: self.is_writable,
        }
    }
}

/// The contents of a list of accounts, position by position.
pub open spec fn views(accounts: Seq<AccountView>) -> Seq<AccountSpec> {
    Seq::new(accounts.len(), |i: int| accounts[i]@)
}

impl AccountView {
    /// Whether the account stores no data.
    pub fn data_is_empty(&self) -> (r: bool)
        ensures
            r == (self@.data.len() == 0),
    {
        self.data.len() == 0
    }
}

} // verus!
