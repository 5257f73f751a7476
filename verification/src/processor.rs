//! Routes an instruction to the operation that its tag names.

use vstd::prelude::*;
use crate::account::{views, AccountSpec, AccountView};
use crate::address::Address;
use crate::error::ProgramError;
use crate::instructions::instruction::EscrowInstruction;
use crate::instructions::make::{initialize_escrow, spec_initialize_escrow, InitializePlan};
use crate::instructions::refund::{cancel_escrow, spec_cancel_escrow, CancelPlan};
use crate::instructions::take::{release_funds, spec_release_funds, ReleasePlan};

verus! {

/// What an admitted instruction asks of the ledger.
#[derive(Clone, Copy, Debug)]
pub enum Plan {
    /// The requests of an Initialize.
    Initialize(InitializePlan),
    /// The requests of an Exchange.
    Release(ReleasePlan),
    /// The requests of a Cancel.
    Cancel(CancelPlan),
}

/// The decision on the decoded instruction.
pub open spec fn spec_dispatch(
    program_id: Address,
    accounts: Seq<AccountSpec>,
    instruction: EscrowInstruction,
) -> Result<Plan, ProgramError> {
    match instruction {
        EscrowInstruction::InitializeEscrow { escrow_id, deposit_amount, receive_amount } => {
            match spec_initialize_escrow(
                program_id,
                accounts,
                escrow_id,
                deposit_amount,
                receive_amount,
            ) {
                Ok(plan) => Ok(Plan::Initialize(plan)),
                Err(e) => Err(e),
            }
        },
        EscrowInstruction::ReleaseFunds { escrow_id } => {
            match spec_release_funds(program_id, accounts, escrow_id) {
                Ok(plan) => Ok(Plan::Release(plan)),
                Err(e) => Err(e),
            }
        },
        EscrowInstruction::CancelEscrow { escrow_id } => {
            match spec_cancel_escrow(program_id, accounts, escrow_id) {
                Ok(plan) => Ok(Plan::Cancel(plan)),
                Err(e) => Err(e),
            }
        },
    }
}

/// The decision on instruction bytes: bytes that are no instruction are
/// refused with `InvalidAccountData` before any account is looked at.
pub open spec fn spec_process(program_id: Address, accounts: Seq<AccountSpec>, data: Seq<u8>) -> Result<
    Plan,
    ProgramError,
> {
    match EscrowInstruction::decode(data) {
        None => Err(ProgramError::InvalidAccountData),
        Some(instruction) => spec_dispatch(program_id, accounts, instruction),
    }
}

/// The dispatcher of the escrow program.
pub struct Process;

impl Process {
    /// Decodes `data` and runs the operation that it names on `accounts`.
    pub fn process(program_id: &Address, accounts: &[AccountView], data: &[u8]) -> (r: Result<
        Plan,
        ProgramError,
    >)
        ensures
            r == spec_process(*program_id, views(accounts@), data@),
    {
        let instruction = match EscrowInstruction::unpack(data) {
            Ok(instruction) => instruction,
            Err(_) => {
                return Err(ProgramError::InvalidAccountData);
            },
        };
        match instruction {
            EscrowInstruction::InitializeEscrow { escrow_id, deposit_amount, receive_amount } => {
                match initialize_escrow(
                    program_id,
                    accounts,
                    escrow_id,
                    deposit_amount,
                    receive_amount,
                ) {
                    Ok(plan) => Ok(Plan::Initialize(plan)),
                    Err(e) => Err(e),
                }
            },
            EscrowInstruction::ReleaseFunds { escrow_id } => {
                match release_funds(program_id, accounts, escrow_id) {
                    Ok(plan) => Ok(Plan::Release(plan)),
                    Err(e) => Err(e),
                }
            },
            EscrowInstruction::CancelEscrow { escrow_id } => {
                match cancel_escrow(program_id, accounts, escrow_id) {
                    Ok(plan) => Ok(Plan::Cancel(plan)),
                    Err(e) => Err(e),
                }
            },
        }
    }
}

} // verus!
