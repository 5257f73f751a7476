//! An in-memory ledger that runs instructions of the escrow program.

use vstd::prelude::*;
use vstd::slice::slice_to_vec;
use crate::account::{views, AccountView};
use crate::actions::{CloseRecord, CloseTokenAccount, CreateAccount, InitializeTokenAccount, Transfer};
use crate::address::{system_program_id, token_program_id, Address};
use crate::error::ProgramError;
use crate::instructions::make::InitializePlan;
use crate::instructions::refund::CancelPlan;
use crate::instructions::take::ReleasePlan;
use crate::message::AccountMeta;
use crate::processor::{Plan, Process};
use crate::runtime::{
    is_vacant, spec_apply, spec_apply_cancel, spec_apply_initialize, spec_apply_release,
    spec_close_record, spec_close_token_account, spec_create_account,
    spec_initialize_token_account, spec_load, spec_load_one, spec_open_vault, spec_transact,
    spec_transfer, spec_write_record, vacant, State, Step, Stored,
    TransactionError, MAX_ACCOUNT_SPACE,
};
use crate::state::Escrow;
use crate::token::{
    fresh_token_bytes, plain_account, set_amount, spec_unpack, unpack, TokenAccount,
};
use crate::wire::{all_zero, zero_bytes};

verus! {

/// What the ledger stores under one address.
#[derive(Debug)]
pub struct Account {
    /// Program that owns the account.
    pub owner: Address,
    /// Lamports held by the account.
    pub lamports: u64,
    /// Data stored in the account.
    pub data: Vec<u8>,
}

impl View for Account {
    type V = Stored;

    open spec fn view(&self) -> Stored {
        Stored { owner: self.owner, lamports: self.lamports, data: self.data@ }
    }
}

impl Account {
    /// An account that was never created.
    pub fn vacant() -> (r: Account)
        ensures
            r@ == vacant(),
    {
        let r = Account { owner: system_program_id(), lamports: 0, data: Vec::new() };
        assert(r@.data =~= Seq::empty());
        r
    }

    /// A copy of the account.
    pub fn copy(&self) -> (r: Account)
        ensures
            r@ == self@,
    {
        Account {
            owner: self.owner,
            lamports: self.lamports,
            data: slice_to_vec(self.data.as_slice()),
        }
    }

    /// Whether the account holds nothing and belongs to the system program.
    pub fn is_vacant(&self) -> (r: bool)
        ensures
            r == (self@ == vacant()),
    {
        let r = self.lamports == 0 && self.data.len() == 0 && self.owner == system_program_id();
        proof {
            if r {
                assert(self@.data =~= Seq::empty());
            }
        }
        r
    }
}

struct Entry {
    key: Address,
    account: Account,
}

/// What the first entry for `key` stores; vacant where there is none.
spec fn lookup(entries: Seq<Entry>, key: Address) -> Stored
    decreases entries.len(),
{
    if entries.len() == 0 {
        vacant()
    } else if entries[0].key == key {
        entries[0].account@
    } else {
        lookup(entries.skip(1), key)
    }
}

proof fn lemma_lookup_first(entries: Seq<Entry>, i: int, key: Address)
    requires
        0 <= i < entries.len(),
        entries[i].key == key,
        forall|j: int| 0 <= j < i ==> entries[j].key != key,
    ensures
        lookup(entries, key) == entries[i].account@,
    decreases i,
{
    if i > 0 {
        lemma_lookup_first(entries.skip(1), i - 1, key);
    }
}

proof fn lemma_lookup_none(entries: Seq<Entry>, key: Address)
    requires
        forall|j: int| 0 <= j < entries.len() ==> entries[j].key != key,
    ensures
        lookup(entries, key) == vacant(),
    decreases entries.len(),
{
    if entries.len() > 0 {
        lemma_lookup_none(entries.skip(1), key);
    }
}

proof fn lemma_lookup_replace(entries: Seq<Entry>, i: int, entry: Entry, key: Address)
    requires
        0 <= i < entries.len(),
        entries[i].key == entry.key,
        forall|j: int| 0 <= j < i ==> entries[j].key != entry.key,
    ensures
        lookup(entries.update(i, entry), key) == if key == entry.key {
            entry.account@
        } else {
            lookup(entries, key)
        },
    decreases i,
{
    let after = entries.update(i, entry);
    if i == 0 {
        assert(after.skip(1) =~= entries.skip(1));
    } else {
        lemma_lookup_replace(entries.skip(1), i - 1, entry, key);
        assert(after.skip(1) =~= entries.skip(1).update(i - 1, entry));
    }
}

proof fn lemma_lookup_push(entries: Seq<Entry>, entry: Entry, key: Address)
    requires
        forall|j: int| 0 <= j < entries.len() ==> entries[j].key != entry.key,
    ensures
        lookup(entries.push(entry), key) == if key == entry.key {
            entry.account@
        } else {
            lookup(entries, key)
        },
    decreases entries.len(),
{
    let after = entries.push(entry);
    if entries.len() == 0 {
        lemma_lookup_none(after.skip(1), key);
    } else {
        lemma_lookup_push(entries.skip(1), entry, key);
        assert(after.skip(1) =~= entries.skip(1).push(entry));
    }
}

proof fn lemma_lookup_same(a: Seq<Entry>, b: Seq<Entry>, key: Address)
    requires
        a.len() == b.len(),
        forall|j: int| 0 <= j < a.len() ==> a[j].key == b[j].key && a[j].account@ == b[j].account@,
    ensures
        lookup(a, key) == lookup(b, key),
    decreases a.len(),
{
    if a.len() > 0 {
        lemma_lookup_same(a.skip(1), b.skip(1), key);
    }
}

/// The ledger: accounts by address. An address that was never written is
/// vacant.
pub struct Ledger {
    entries: Vec<Entry>,
}

impl View for Ledger {
    type V = State;

    closed spec fn view(&self) -> State {
        Map::total(|key: Address| lookup(self.entries@, key))
    }
}

/// What a call left behind: the wanted ledger on success, the ledger as it
/// was on failure.
pub open spec fn left(
    before: State,
    after: State,
    r: Result<(), TransactionError>,
    want: Result<State, TransactionError>,
) -> bool {
    match want {
        Ok(s) => r is Ok && after == s,
        Err(e) => r == Err::<(), TransactionError>(e) && after == before,
    }
}

/// What a sequence of requests left behind: the wanted ledger on success;
/// on failure the error, and a ledger to be thrown away.
pub open spec fn reached(
    after: State,
    r: Result<(), TransactionError>,
    want: Result<State, TransactionError>,
) -> bool {
    match want {
        Ok(s) => r is Ok && after == s,
        Err(e) => r == Err::<(), TransactionError>(e),
    }
}

impl Ledger {
    /// A ledger on which every address is vacant.
    pub fn new() -> (r: Ledger)
        ensures
            forall|key: Address| r@[key] == vacant(),
    {
        Ledger { entries: Vec::new() }
    }

    fn find(&self, key: &Address) -> (r: Option<usize>)
        ensures
            match r {
                Some(i) => i < self.entries@.len() && self.entries@[i as int].key == *key
                    && forall|j: int| 0 <= j < i ==> self.entries@[j].key != *key,
                None => forall|j: int| 0 <= j < self.entries@.len() ==> self.entries@[j].key != *key,
            },
    {
        let mut i: usize = 0;
        while i < self.entries.len()
            invariant
                i <= self.entries@.len(),
                forall|j: int| 0 <= j < i ==> self.entries@[j].key != *key,
            decreases self.entries@.len() - i,
        {
            if self.entries[i].key == *key {
                return Some(i);
            }
            i += 1;
        }
        None
    }

    /// What is stored under `key`.
    pub fn account(&self, key: &Address) -> (r: Account)
        ensures
            r@ == self@[*key],
    {
        match self.find(key) {
            Some(i) => {
                proof {
                    lemma_lookup_first(self.entries@, i as int, *key);
                }
                self.entries[i].account.copy()
            },
            None => {
                proof {
                    lemma_lookup_none(self.entries@, *key);
                }
                Account::vacant()
            },
        }
    }

    /// Stores `account` under `key`.
    pub fn set_account(&mut self, key: Address, account: Account)
        ensures
            final(self)@ == old(self)@.insert(key, account@),
    {
        let ghost before = self.entries@;
        let ghost stored = account@;
        let entry = Entry { key, account };
        match self.find(&key) {
            Some(i) => {
                self.entries[i] = entry;
                proof {
                    assert forall|k: Address|
                        lookup(self.entries@, k) == #[trigger] old(self)@.insert(key, stored)[k] by {
                        lemma_lookup_replace(before, i as int, entry, k);
                    }
                }
            },
            None => {
                self.entries.push(entry);
                proof {
                    assert forall|k: Address|
                        lookup(self.entries@, k) == #[trigger] old(self)@.insert(key, stored)[k] by {
                        lemma_lookup_push(before, entry, k);
                    }
                }
            },
        }
        assert(self@ =~= old(self)@.insert(key, stored));
    }

    /// The token account stored under `key`.
    pub fn token_account(&self, key: &Address) -> (r: Result<TokenAccount, ProgramError>)
        ensures
            r == spec_unpack(self@[*key].data),
    {
        let account = self.account(key);
        unpack(account.data.as_slice())
    }

    /// The escrow record stored under `key`.
    pub fn escrow(&self, key: &Address) -> (r: Result<Escrow, ProgramError>)
        ensures
            match Escrow::decode(self@[*key].data) {
                Some(e) => r == Ok::<Escrow, ProgramError>(e),
                None => r == Err::<Escrow, ProgramError>(ProgramError::InvalidAccountData),
            },
    {
        let account = self.account(key);
        Escrow::unpack_the_slice_data(account.data.as_slice())
    }

    fn snapshot(&self) -> (r: Ledger)
        ensures
            r@ == self@,
    {
        let mut entries: Vec<Entry> = Vec::new();
        let mut i: usize = 0;
        while i < self.entries.len()
            invariant
                i <= self.entries@.len(),
                entries@.len() == i,
                forall|j: int|
                    0 <= j < i ==> entries@[j].key == self.entries@[j].key && entries@[j].account@
                        == self.entries@[j].account@,
            decreases self.entries@.len() - i,
        {
            entries.push(Entry { key: self.entries[i].key, account: self.entries[i].account.copy() });
            i += 1;
        }
        let r = Ledger { entries };
        proof {
            assert forall|k: Address| lookup(r.entries@, k) == lookup(self.entries@, k) by {
                lemma_lookup_same(r.entries@, self.entries@, k);
            }
            assert(r@ =~= self@);
        }
        r
    }

    fn create_account(&mut self, c: &CreateAccount) -> (r: Result<(), TransactionError>)
        ensures
            left(old(self)@, final(self)@, r, spec_create_account(old(self)@, *c)),
    {
        let target = self.account(&c.new_account);
        let payer = self.account(&c.payer);
        if c.payer == c.new_account || !target.is_vacant() || payer.lamports < c.lamports || c.space
            > MAX_ACCOUNT_SPACE {
            return Err(TransactionError::Ledger(Step::CreateAccount));
        }
        let funded = Account {
            owner: payer.owner,
            lamports: payer.lamports - c.lamports,
            data: payer.data,
        };
        self.set_account(c.payer, funded);
        let created = Account {
            owner: c.owner,
            lamports: c.lamports,
            data: zero_bytes(c.space as usize),
        };
        self.set_account(c.new_account, created);
        Ok(())
    }

    fn initialize_token_account(&mut self, i: &InitializeTokenAccount) -> (r: Result<
        (),
        TransactionError,
    >)
        ensures
            left(old(self)@, final(self)@, r, spec_initialize_token_account(old(self)@, *i)),
    {
        let account = self.account(&i.account);
        if account.owner != token_program_id() || account.data.len() != 165 {
            return Err(TransactionError::Ledger(Step::InitializeTokenAccount));
        }
        if !all_zero(account.data.as_slice()) {
            return Err(TransactionError::Ledger(Step::InitializeTokenAccount));
        }
        let initialized = Account {
            owner: account.owner,
            lamports: account.lamports,
            data: fresh_token_bytes(&i.mint, &i.owner),
        };
        self.set_account(i.account, initialized);
        Ok(())
    }

    fn transfer(&mut self, t: &Transfer) -> (r: Result<(), TransactionError>)
        ensures
            left(old(self)@, final(self)@, r, spec_transfer(old(self)@, *t)),
    {
        let mut from = self.account(&t.source);
        let mut to = self.account(&t.destination);
        if from.owner != token_program_id() || to.owner != token_program_id() {
            return Err(TransactionError::Ledger(Step::Transfer));
        }
        let a = match plain_account(from.data.as_slice()) {
            Some(a) => a,
            None => {
                return Err(TransactionError::Ledger(Step::Transfer));
            },
        };
        let b = match plain_account(to.data.as_slice()) {
            Some(b) => b,
            None => {
                return Err(TransactionError::Ledger(Step::Transfer));
            },
        };
        if a.mint != b.mint || a.owner != t.authority || a.amount < t.amount {
            return Err(TransactionError::Ledger(Step::Transfer));
        }
        if t.source == t.destination {
            return Ok(());
        }
        if b.amount > u64::MAX - t.amount {
            return Err(TransactionError::Ledger(Step::Transfer));
        }
        set_amount(&mut from.data, a.amount - t.amount);
        set_amount(&mut to.data, b.amount + t.amount);
        self.set_account(t.source, from);
        self.set_account(t.destination, to);
        Ok(())
    }

    fn close_token_account(&mut self, c: &CloseTokenAccount) -> (r: Result<(), TransactionError>)
        ensures
            left(old(self)@, final(self)@, r, spec_close_token_account(old(self)@, *c)),
    {
        let account = self.account(&c.account);
        let destination = self.account(&c.destination);
        if account.owner != token_program_id() {
            return Err(TransactionError::Ledger(Step::CloseTokenAccount));
        }
        let token = match plain_account(account.data.as_slice()) {
            Some(token) => token,
            None => {
                return Err(TransactionError::Ledger(Step::CloseTokenAccount));
            },
        };
        if token.owner != c.authority || token.amount != 0 || c.account == c.destination
            || destination.lamports > u64::MAX - account.lamports {
            return Err(TransactionError::Ledger(Step::CloseTokenAccount));
        }
        let credited = Account {
            owner: destination.owner,
            lamports: destination.lamports + account.lamports,
            data: destination.data,
        };
        self.set_account(c.destination, credited);
        self.set_account(c.account, Account::vacant());
        Ok(())
    }

    fn write_record(&mut self, record: &Address, terms: &Escrow) -> (r: Result<
        (),
        TransactionError,
    >)
        ensures
            left(old(self)@, final(self)@, r, spec_write_record(old(self)@, *record, *terms)),
    {
        let mut account = self.account(record);
        if account.data.len() < 113 {
            return Err(TransactionError::Program(ProgramError::BorshIoError));
        }
        let _ = terms.pack_the_slice_data(&mut account.data);
        self.set_account(*record, account);
        Ok(())
    }

    fn close_record(&mut self, c: &CloseRecord) -> (r: Result<(), TransactionError>)
        ensures
            left(old(self)@, final(self)@, r, spec_close_record(old(self)@, *c)),
    {
        if c.record == c.beneficiary {
            return Err(TransactionError::Ledger(Step::CloseRecord));
        }
        let record = self.account(&c.record);
        let beneficiary = self.account(&c.beneficiary);
        let lamports = match CloseRecord::credited(beneficiary.lamports, record.lamports) {
            Ok(lamports) => lamports,
            Err(e) => {
                return Err(TransactionError::Program(e));
            },
        };
        let credited = Account { owner: beneficiary.owner, lamports, data: beneficiary.data };
        self.set_account(c.beneficiary, credited);
        self.set_account(c.record, Account::vacant());
        Ok(())
    }

    fn apply_initialize(&mut self, plan: &InitializePlan) -> (r: Result<(), TransactionError>)
        ensures
            reached(final(self)@, r, spec_apply_initialize(old(self)@, *plan)),
    {
        match plan.open_vault {
            Some(open) => {
                match self.create_account(&open.create) {
                    Err(e) => {
                        return Err(e);
                    },
                    Ok(_) => {},
                }
                match self.initialize_token_account(&open.initialize) {
                    Err(e) => {
                        return Err(e);
                    },
                    Ok(_) => {},
                }
            },
            None => {},
        }
        assert(spec_open_vault(old(self)@, *plan) == Ok::<State, TransactionError>(self@));
        match self.transfer(&plan.deposit) {
            Err(e) => {
                return Err(e);
            },
            Ok(_) => {},
        }
        match self.create_account(&plan.create_record) {
            Err(e) => {
                return Err(e);
            },
            Ok(_) => {},
        }
        self.write_record(&plan.create_record.new_account, &plan.record)
    }

    fn apply_release(&mut self, plan: &ReleasePlan) -> (r: Result<(), TransactionError>)
        ensures
            reached(final(self)@, r, spec_apply_release(old(self)@, *plan)),
    {
        match self.transfer(&plan.payment) {
            Err(e) => {
                return Err(e);
            },
            Ok(_) => {},
        }
        match self.transfer(&plan.release) {
            Err(e) => {
                return Err(e);
            },
            Ok(_) => {},
        }
        match self.close_token_account(&plan.close_vault) {
            Err(e) => {
                return Err(e);
            },
            Ok(_) => {},
        }
        self.close_record(&plan.close_record)
    }

    fn apply_cancel(&mut self, plan: &CancelPlan) -> (r: Result<(), TransactionError>)
        ensures
            reached(final(self)@, r, spec_apply_cancel(old(self)@, *plan)),
    {
        match self.transfer(&plan.refund) {
            Err(e) => {
                return Err(e);
            },
            Ok(_) => {},
        }
        match self.close_token_account(&plan.close_vault) {
            Err(e) => {
                return Err(e);
            },
            Ok(_) => {},
        }
        self.close_record(&plan.close_record)
    }

    /// The accounts that an operation sees for the accounts that an
    /// instruction names.
    pub fn load(&self, metas: &[AccountMeta]) -> (r: Vec<AccountView>)
        ensures
            views(r@) == spec_load(self@, metas@),
    {
        let mut accounts: Vec<AccountView> = Vec::new();
        let mut i: usize = 0;
        while i < metas.len()
            invariant
                i <= metas.len(),
                accounts@.len() == i,
                forall|j: int| 0 <= j < i ==> accounts@[j]@ == spec_load_one(self@, metas@[j]),
            decreases metas.len() - i,
        {
            let meta = metas[i];
            let account = self.account(&meta.pubkey);
            accounts.push(
                AccountView {
                    key: meta.pubkey,
                    owner: account.owner,
                    lamports: account.lamports,
                    data: account.data,
                    is_signer: meta.is_signer,
                    is_writable: meta.is_writable,
                },
            );
            i += 1;
        }
        assert(views(accounts@) =~= spec_load(self@, metas@));
        accounts
    }

    /// Carries out the requests of an admitted instruction, as a whole or
    /// not at all.
    pub fn apply(&mut self, plan: &Plan) -> (r: Result<(), TransactionError>)
        ensures
            left(old(self)@, final(self)@, r, spec_apply(old(self)@, *plan)),
    {
        let mut next = self.snapshot();
        let r = match plan {
            Plan::Initialize(plan) => next.apply_initialize(plan),
            Plan::Release(plan) => next.apply_release(plan),
            Plan::Cancel(plan) => next.apply_cancel(plan),
        };
        match r {
            Ok(_) => {
                *self = next;
                Ok(())
            },
            Err(e) => Err(e),
        }
    }

    /// Runs one instruction to the escrow program `program_id`: the named
    /// accounts are handed to the program, and what it asks for is carried
    /// out as a whole or not at all.
    pub fn process_instruction(
        &mut self,
        program_id: &Address,
        metas: &[AccountMeta],
        data: &[u8],
    ) -> (r: Result<(), TransactionError>)
        ensures
            left(
                old(self)@,
                final(self)@,
                r,
                spec_transact(old(self)@, *program_id, metas@, data@),
            ),
    {
        let accounts = self.load(metas);
        match Process::process(program_id, accounts.as_slice(), data) {
            Ok(plan) => self.apply(&plan),
            Err(e) => Err(TransactionError::Program(e)),
        }
    }
}

} // verus!
