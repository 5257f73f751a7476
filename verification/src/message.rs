//! Instructions as a client hands them to the ledger.

use vstd::prelude::*;
use crate::address::Address;

verus! {

/// One account named by an instruction, with the rights asked for it.
#[derive(Clone, Copy, Debug)]
pub struct AccountMeta {
    /// Address of the account.
    pub pubkey: Address,
    /// Whether the account's key holder signs the transaction.
    pub is_signer: bool,
    /// Whether the instruction may change the account.
    pub is_writable: bool,
}

impl AccountMeta {
    /// An account that the instruction may change.
    pub fn new(pubkey: Address, is_signer: bool) -> (r: AccountMeta)
        ensures
            r == (AccountMeta { pubkey, is_signer, is_writable: true }),
    {
        AccountMeta { pubkey, is_signer, is_writable: true }
    }

    /// An account that the instruction only reads.
    pub fn new_readonly(pubkey: Address, is_signer: bool) -> (r: AccountMeta)
        ensures
            r == (AccountMeta { pubkey, is_signer, is_writable: false }),
    {
        AccountMeta { pubkey, is_signer, is_writable: false }
    }
}

/// A call of a program: the program, the accounts in the order in which the
/// program expects them, and the payload.
#[derive(Debug)]
pub struct Instruction {
    /// The program to call.
    pub program_id: Address,
    /// The accounts that the program may touch, in its order.
    pub accounts: Vec<AccountMeta>,
    /// The payload.
    pub data: Vec<u8>,
}

/// The mathematical content of an `Instruction`.
pub struct InstructionSpec {
    pub program_id: Address,
    pub accounts: Seq<AccountMeta>,
    pub data: Seq<u8>,
}

impl View for Instruction {
    type V = InstructionSpec;

    open spec fn view(&self) -> InstructionSpec {
        InstructionSpec { program_id: self.program_id, accounts: self.accounts@, data: self.data@ }
    }
}

} // verus!
