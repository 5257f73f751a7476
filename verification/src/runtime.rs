//! A model of the ledger that executes what the escrow program decides.
//!
//! The ledger is a store from addresses to accounts. An instruction either
//! changes it as a whole or leaves it as it was. The model covers what the
//! escrow protocol needs of the ledger: creating system accounts and token
//! accounts, moving tokens, closing accounts. It moves tokens only between
//! plain token accounts and refuses frozen, native and delegated ones; it
//! takes the signer flags of an instruction as given.

use vstd::prelude::*;
use crate::account::AccountSpec;
use crate::actions::{CloseRecord, CloseTokenAccount, CreateAccount, InitializeTokenAccount, Transfer};
use crate::address::{system_program_id, token_program_id, Address};
use crate::error::ProgramError;
use crate::instructions::make::InitializePlan;
use crate::instructions::refund::CancelPlan;
use crate::instructions::take::ReleasePlan;
use crate::message::AccountMeta;
use crate::processor::{spec_process, Plan};
use crate::state::Escrow;
use crate::token::{balance_of, fresh_token_data, spec_is_plain, spec_unpack, with_amount};
use crate::wire::zeros;

verus! {

/// Largest size of an account's data.
pub const MAX_ACCOUNT_SPACE: u64 = 10_485_760;

/// What the ledger stores under one address.
pub struct Stored {
    /// Program that owns the account.
    pub owner: Address,
    /// Lamports held by the account.
    pub lamports: u64,
    /// Data stored in the account.
    pub data: Seq<u8>,
}

/// The ledger: what is stored under each address.
pub type State = Map<Address, Stored>;

/// An address under which nothing was created, or whose account was closed:
/// no lamports, no data, owned by the system program.
pub open spec fn vacant() -> Stored {
    Stored { owner: system_program_id(), lamports: 0, data: Seq::empty() }
}

/// The step at which the ledger stopped an admitted instruction.
#[derive(Clone, Copy, Debug, PartialEq, Eq, Structural)]
pub enum Step {
    /// The new account is in use, or the payer cannot fund it.
    CreateAccount,
    /// The account is not a fresh account of the token program.
    InitializeTokenAccount,
    /// Source or destination is no plain token account, the mints differ,
    /// the authority is not the source's owner, or a balance does not
    /// suffice or would overflow.
    Transfer,
    /// The account is no plain token account of the authority, is not
    /// empty, or its lamports do not fit in the destination.
    CloseTokenAccount,
    /// The record and the beneficiary are one account.
    CloseRecord,
}

/// Why an instruction left the ledger unchanged.
#[derive(Clone, Copy, Debug, PartialEq, Eq, Structural)]
pub enum TransactionError {
    /// The escrow program refused it.
    Program(ProgramError),
    /// The escrow program admitted it and the ledger stopped it at a step.
    Ledger(Step),
}

/// The token balance stored under `key`, zero where no token account is.
pub open spec fn balance(s: State, key: Address) -> u64 {
    balance_of(s[key].data)
}

/// Whether nothing is stored under `key`.
pub open spec fn is_vacant(s: State, key: Address) -> bool {
    s[key] == vacant()
}

/// The account with `lamports` lamports and nothing else changed.
pub open spec fn with_lamports(stored: Stored, lamports: int) -> Stored {
    Stored { lamports: lamports as u64, ..stored }
}

/// Creating an account: the address must be vacant and differ from the
/// payer, who must hold the lamports; the space must be admissible.
pub open spec fn spec_create_account(s: State, c: CreateAccount) -> Result<
    State,
    TransactionError,
> {
    if c.payer != c.new_account && is_vacant(s, c.new_account) && s[c.payer].lamports >= c.lamports
        && c.space <= MAX_ACCOUNT_SPACE {
        Ok(
            s.insert(c.payer, with_lamports(s[c.payer], s[c.payer].lamports - c.lamports)).insert(
                c.new_account,
                Stored { owner: c.owner, lamports: c.lamports, data: zeros(c.space as nat) },
            ),
        )
    } else {
        Err(TransactionError::Ledger(Step::CreateAccount))
    }
}

/// Initialising a token account: it must be 165 zero bytes owned by the
/// token program.
pub open spec fn spec_initialize_token_account(s: State, i: InitializeTokenAccount) -> Result<
    State,
    TransactionError,
> {
    if s[i.account].owner == token_program_id() && s[i.account].data == zeros(165) {
        Ok(s.insert(i.account, Stored { data: fresh_token_data(i.mint, i.owner), ..s[i.account] }))
    } else {
        Err(TransactionError::Ledger(Step::InitializeTokenAccount))
    }
}

/// Whether the ledger lets `t` pass: both ends are plain token accounts
/// of one mint owned by the token program, the authority owns the source,
/// the source covers the amount, and the destination, if it is another
/// account, can take it.
pub open spec fn transfer_allowed(s: State, t: Transfer) -> bool {
    &&& s[t.source].owner == token_program_id()
    &&& s[t.destination].owner == token_program_id()
    &&& spec_is_plain(s[t.source].data)
    &&& spec_is_plain(s[t.destination].data)
    &&& spec_unpack(s[t.source].data) matches Ok(from)
    &&& spec_unpack(s[t.destination].data) matches Ok(to)
    &&& from.mint == to.mint
    &&& from.owner == t.authority
    &&& from.amount >= t.amount
    &&& (t.source != t.destination ==> to.amount + t.amount <= u64::MAX)
}

/// Moving tokens: the source loses and the destination gains the amount; a
/// transfer from an account to itself changes nothing.
pub open spec fn spec_transfer(s: State, t: Transfer) -> Result<State, TransactionError> {
    if !transfer_allowed(s, t) {
        Err(TransactionError::Ledger(Step::Transfer))
    } else if t.source == t.destination {
        Ok(s)
    } else {
        let from = s[t.source];
        let to = s[t.destination];
        Ok(
            s.insert(
                t.source,
                Stored {
                    data: with_amount(from.data, (balance_of(from.data) - t.amount) as u64),
                    ..from
                },
            ).insert(
                t.destination,
                Stored {
                    data: with_amount(to.data, (balance_of(to.data) + t.amount) as u64),
                    ..to
                },
            ),
        )
    }
}

/// Closing a token account: it must be an empty plain token account of
/// the authority and differ from the destination, which gets its lamports.
pub open spec fn spec_close_token_account(s: State, c: CloseTokenAccount) -> Result<
    State,
    TransactionError,
> {
    if s[c.account].owner == token_program_id() && spec_is_plain(s[c.account].data)
        && spec_unpack(s[c.account].data)->Ok_0.owner == c.authority && balance_of(
        s[c.account].data,
    ) == 0 && c.account != c.destination && s[c.destination].lamports + s[c.account].lamports
        <= u64::MAX {
        Ok(
            s.insert(
                c.destination,
                with_lamports(
                    s[c.destination],
                    s[c.destination].lamports + s[c.account].lamports,
                ),
            ).insert(c.account, vacant()),
        )
    } else {
        Err(TransactionError::Ledger(Step::CloseTokenAccount))
    }
}

/// Storing the terms in the record account, which must have room for them.
pub open spec fn spec_write_record(s: State, record: Address, terms: Escrow) -> Result<
    State,
    TransactionError,
> {
    if s[record].data.len() >= 113 {
        Ok(s.insert(record, Stored { data: terms.packed(s[record].data), ..s[record] }))
    } else {
        Err(TransactionError::Program(ProgramError::BorshIoError))
    }
}

/// Closing the record: its lamports go to the beneficiary, if they fit
/// (`ArithmeticOverflow` otherwise), and the address becomes vacant.
pub open spec fn spec_close_record(s: State, c: CloseRecord) -> Result<State, TransactionError> {
    if c.record == c.beneficiary {
        Err(TransactionError::Ledger(Step::CloseRecord))
    } else {
        match CloseRecord::spec_credited(s[c.beneficiary].lamports, s[c.record].lamports) {
            Err(e) => Err(TransactionError::Program(e)),
            Ok(lamports) => Ok(
                s.insert(c.beneficiary, with_lamports(s[c.beneficiary], lamports as int)).insert(
                    c.record,
                    vacant(),
                ),
            ),
        }
    }
}

/// The ledger after the custody account was opened, where the plan asks
/// for that.
pub open spec fn spec_open_vault(s: State, plan: InitializePlan) -> Result<State, TransactionError> {
    match plan.open_vault {
        None => Ok(s),
        Some(open) => match spec_create_account(s, open.create) {
            Err(e) => Err(e),
            Ok(s1) => spec_initialize_token_account(s1, open.initialize),
        },
    }
}

/// The ledger after an admitted Initialize: custody opened, the deposit
/// moved, the record created and written.
pub open spec fn spec_apply_initialize(s: State, plan: InitializePlan) -> Result<
    State,
    TransactionError,
> {
    match spec_open_vault(s, plan) {
        Err(e) => Err(e),
        Ok(s1) => match spec_transfer(s1, plan.deposit) {
            Err(e) => Err(e),
            Ok(s2) => match spec_create_account(s2, plan.create_record) {
                Err(e) => Err(e),
                Ok(s3) => spec_write_record(s3, plan.create_record.new_account, plan.record),
            },
        },
    }
}

/// The ledger after an admitted Exchange: the maker paid, the deposit
/// released, custody and record closed.
pub open spec fn spec_apply_release(s: State, plan: ReleasePlan) -> Result<State, TransactionError> {
    match spec_transfer(s, plan.payment) {
        Err(e) => Err(e),
        Ok(s1) => match spec_transfer(s1, plan.release) {
            Err(e) => Err(e),
            Ok(s2) => match spec_close_token_account(s2, plan.close_vault) {
                Err(e) => Err(e),
                Ok(s3) => spec_close_record(s3, plan.close_record),
            },
        },
    }
}

/// The ledger after an admitted Cancel: the deposit returned, custody and
/// record closed.
pub open spec fn spec_apply_cancel(s: State, plan: CancelPlan) -> Result<State, TransactionError> {
    match spec_transfer(s, plan.refund) {
        Err(e) => Err(e),
        Ok(s1) => match spec_close_token_account(s1, plan.close_vault) {
            Err(e) => Err(e),
            Ok(s2) => spec_close_record(s2, plan.close_record),
        },
    }
}

/// The ledger after the requests of an admitted instruction.
pub open spec fn spec_apply(s: State, plan: Plan) -> Result<State, TransactionError> {
    match plan {
        Plan::Initialize(plan) => spec_apply_initialize(s, plan),
        Plan::Release(plan) => spec_apply_release(s, plan),
        Plan::Cancel(plan) => spec_apply_cancel(s, plan),
    }
}

/// The account that an operation sees for `meta`.
pub open spec fn spec_load_one(s: State, meta: AccountMeta) -> AccountSpec {
    AccountSpec {
        key: meta.pubkey,
        owner: s[meta.pubkey].owner,
        lamports: s[meta.pubkey].lamports,
        data: s[meta.pubkey].data,
        is_signer: meta.is_signer,
        is_writable: meta.is_writable,
    }
}

/// The accounts that an operation sees for the accounts that its
/// instruction names.
pub open spec fn spec_load(s: State, metas: Seq<AccountMeta>) -> Seq<AccountSpec> {
    Seq::new(metas.len(), |i: int| spec_load_one(s, metas[i]))
}

/// The ledger after an instruction to the escrow program `program_id`, or
/// why the instruction left it unchanged.
pub open spec fn spec_transact(
    s: State,
    program_id: Address,
    metas: Seq<AccountMeta>,
    data: Seq<u8>,
) -> Result<State, TransactionError> {
    match spec_process(program_id, spec_load(s, metas), data) {
        Err(e) => Err(TransactionError::Program(e)),
        Ok(plan) => spec_apply(s, plan),
    }
}

/// The ledger after one instruction, whether the ledger carried it out or
/// left itself unchanged.
pub open spec fn spec_outcome(
    s: State,
    program_id: Address,
    metas: Seq<AccountMeta>,
    data: Seq<u8>,
) -> State {
    match spec_transact(s, program_id, metas, data) {
        Ok(after) => after,
        Err(_) => s,
    }
}

/// The ledger after a sequence of instructions to the escrow program, each
/// given by its accounts and its bytes, run one after the other.
pub open spec fn spec_run(
    s: State,
    program_id: Address,
    steps: Seq<(Seq<AccountMeta>, Seq<u8>)>,
) -> State
    decreases steps.len(),
{
    if steps.len() == 0 {
        s
    } else {
        spec_outcome(
            spec_run(s, program_id, steps.drop_last()),
            program_id,
            steps.last().0,
            steps.last().1,
        )
    }
}

} // verus!
