//! What holds of every instruction that the ledger carries out.

use vstd::prelude::*;
use crate::actions::Transfer;
use crate::address::Address;
use crate::error::ProgramError;
use crate::instructions::instruction::{
    lemma_instruction_decode_encode, lemma_instruction_encode_decode, EscrowInstruction,
};
use crate::instructions::make::{spec_initialize_escrow, InitializePlan};
use crate::instructions::refund::{spec_cancel_escrow, CancelPlan};
use crate::instructions::take::{
    spec_release_derived, spec_release_funds, spec_release_holdings, spec_release_terms, ReleasePlan,
};
use crate::message::AccountMeta;
use crate::pda::{bump_of, key_of, spec_escrow_address, spec_vault_address};
use crate::processor::spec_process;
use crate::runtime::{
    balance, is_vacant, spec_outcome, spec_run, spec_apply_cancel, spec_apply_initialize, spec_apply_release,
    spec_close_record, spec_close_token_account, spec_create_account,
    spec_initialize_token_account, spec_load, spec_open_vault, spec_transact, spec_transfer,
    spec_write_record, vacant, with_lamports, State,
};
use crate::state::{lemma_packed_decodes, Escrow};
use crate::helper::{spec_cancel_instruction, spec_exchange_instruction};
use crate::token::{
    balance_of, lemma_fresh_token_data, lemma_with_amount, lemma_with_amount_again, spec_is_plain,
    spec_unpack, with_amount,
};

verus! {

/// What a transfer that the ledger lets pass changes: the two balances,
/// and nothing but the data of the two accounts.
proof fn lemma_transfer_moves(s: State, t: Transfer)
    requires
        spec_transfer(s, t) is Ok,
    ensures
        ({
            let s1 = spec_transfer(s, t)->Ok_0;
            &&& forall|k: Address| #[trigger]
                balance(s1, k) == balance(s, k) + (if k == t.destination {
                    t.amount as int
                } else {
                    0
                }) - (if k == t.source {
                    t.amount as int
                } else {
                    0
                })
            &&& forall|k: Address| k != t.source && k != t.destination ==> #[trigger] s1[k] == s[k]
            &&& forall|k: Address|
                (#[trigger] s1[k]).owner == s[k].owner && s1[k].lamports == s[k].lamports
                    && s1[k].data.len() == s[k].data.len()
            &&& forall|k: Address|
                spec_unpack(s[k].data) is Ok ==> {
                    &&& #[trigger] spec_unpack(s1[k].data) is Ok
                    &&& spec_unpack(s1[k].data)->Ok_0.mint == spec_unpack(s[k].data)->Ok_0.mint
                    &&& spec_unpack(s1[k].data)->Ok_0.owner == spec_unpack(s[k].data)->Ok_0.owner
                    &&& spec_is_plain(s1[k].data) == spec_is_plain(s[k].data)
                }
        }),
{
    let s1 = spec_transfer(s, t)->Ok_0;
    if t.source != t.destination {
        lemma_with_amount(s[t.source].data, (balance_of(s[t.source].data) - t.amount) as u64);
        lemma_with_amount(
            s[t.destination].data,
            (balance_of(s[t.destination].data) + t.amount) as u64,
        );
    }
}

/// Closing an empty token account or a record changes no token balance,
/// provided that the closed account held none.
proof fn lemma_vacated(s: State, s1: State, closed: Address, credited: Address, lamports: int)
    requires
        balance(s, closed) == 0,
        closed != credited,
        s1 == s.insert(credited, with_lamports(s[credited], lamports)).insert(closed, vacant()),
    ensures
        forall|k: Address| #[trigger] balance(s1, k) == balance(s, k),
        forall|k: Address| k != closed && k != credited ==> #[trigger] s1[k] == s[k],
        s1[closed] == vacant(),
{
}

/// The bytes of a Cancel of `escrow_id`.
pub open spec fn cancel_data(escrow_id: u64) -> Seq<u8> {
    EscrowInstruction::CancelEscrow { escrow_id }.encode()
}

/// What a Cancel that the ledger carried out went through: the program
/// admitted it with a plan, and every request of the plan passed.
proof fn lemma_cancel_carried_out(
    s: State,
    program_id: Address,
    metas: Seq<AccountMeta>,
    escrow_id: u64,
) -> (plan: CancelPlan)
    requires
        spec_transact(s, program_id, metas, cancel_data(escrow_id)) is Ok,
    ensures
        metas.len() >= 7,
        spec_cancel_escrow(program_id, spec_load(s, metas), escrow_id) == Ok::<
            CancelPlan,
            crate::error::ProgramError,
        >(plan),
        spec_apply_cancel(s, plan) == spec_transact(s, program_id, metas, cancel_data(escrow_id)),
        plan.refund.source == metas[4].pubkey,
        plan.refund.destination == metas[2].pubkey,
        plan.refund.amount == balance(s, metas[4].pubkey),
        plan.refund.amount > 0,
        plan.close_vault.account == metas[4].pubkey,
        plan.close_vault.destination == metas[0].pubkey,
        plan.close_record.record == metas[3].pubkey,
        plan.close_record.beneficiary == metas[0].pubkey,
        spec_unpack(s[metas[4].pubkey].data) is Ok,
        spec_unpack(s[metas[2].pubkey].data) is Ok,
        Escrow::decode(s[metas[3].pubkey].data) is Some,
        Escrow::decode(s[metas[3].pubkey].data)->0.maker == metas[0].pubkey,
        spec_vault_address(program_id, metas[0].pubkey, escrow_id) is Some,
        key_of(spec_vault_address(program_id, metas[0].pubkey, escrow_id)) == metas[4].pubkey,
        spec_escrow_address(program_id, metas[0].pubkey, escrow_id) is Some,
        key_of(spec_escrow_address(program_id, metas[0].pubkey, escrow_id)) == metas[3].pubkey,
{
    lemma_instruction_decode_encode(EscrowInstruction::CancelEscrow { escrow_id });
    let accounts = spec_load(s, metas);
    let decision = spec_cancel_escrow(program_id, accounts, escrow_id);
    assert(spec_process(program_id, accounts, cancel_data(escrow_id)) is Ok);
    assert(decision is Ok);
    decision->Ok_0
}

/// Cancel returns exactly what was deposited: after a Cancel that the
/// ledger carried out, the maker's token A account holds what it held plus
/// what custody held, nothing is stored any more under the custody address
/// and the record address, the maker holds the lamports of both more, and
/// no other token balance changed.
pub proof fn law_cancel_returns_deposit(
    s: State,
    program_id: Address,
    metas: Seq<AccountMeta>,
    escrow_id: u64,
)
    requires
        spec_transact(s, program_id, metas, cancel_data(escrow_id)) is Ok,
    ensures
        ({
            let after = spec_transact(s, program_id, metas, cancel_data(escrow_id))->Ok_0;
            let holding = metas[2].pubkey;
            let vault = metas[4].pubkey;
            &&& metas.len() >= 7
            &&& holding != vault
            &&& balance(after, holding) == balance(s, holding) + balance(s, vault)
            &&& is_vacant(after, vault)
            &&& is_vacant(after, metas[3].pubkey)
            &&& after[metas[0].pubkey].lamports == s[metas[0].pubkey].lamports + s[vault].lamports
                + s[metas[3].pubkey].lamports
            &&& forall|key: Address|
                key != holding && key != vault ==> #[trigger] balance(after, key) == balance(
                    s,
                    key,
                )
        }),
{
    let plan = lemma_cancel_carried_out(s, program_id, metas, escrow_id);
    let maker = metas[0].pubkey;
    let holding = metas[2].pubkey;
    let record = metas[3].pubkey;
    let vault = metas[4].pubkey;
    let s1 = spec_transfer(s, plan.refund)->Ok_0;
    let s2 = spec_close_token_account(s1, plan.close_vault)->Ok_0;
    let s3 = spec_close_record(s2, plan.close_record)->Ok_0;
    assert(spec_transfer(s, plan.refund) is Ok);
    assert(spec_close_token_account(s1, plan.close_vault) is Ok);
    assert(spec_close_record(s2, plan.close_record) is Ok);
    lemma_transfer_moves(s, plan.refund);
    if vault == holding {
        assert(balance(s1, vault) == balance(s, vault));
        assert(false);
    }
    lemma_vacated(s1, s2, vault, maker, s1[maker].lamports + s1[vault].lamports);
    assert(s1[record].data.len() == s[record].data.len());
    assert(record != vault);
    assert(s2[record] == s1[record]);
    assert(balance(s2, record) == 0);
    lemma_vacated(s2, s3, record, maker, s2[maker].lamports + s2[record].lamports);
    assert(s3[vault] == vacant());
    assert(s1[maker].lamports == s[maker].lamports && s1[vault].lamports == s[vault].lamports);
    assert(s2[maker].lamports == s[maker].lamports + s[vault].lamports);
    assert(s2[record].lamports == s[record].lamports);
    assert forall|key: Address| key != holding && key != vault implies #[trigger] balance(
        s3,
        key,
    ) == balance(s, key) by {
        assert(balance(s3, key) == balance(s1, key));
    }
    assert(balance(s3, holding) == balance(s1, holding));
}

/// The bytes of an Initialize.
pub open spec fn initialize_data(escrow_id: u64, deposit_amount: u64, receive_amount: u64) -> Seq<
    u8,
> {
    EscrowInstruction::InitializeEscrow { escrow_id, deposit_amount, receive_amount }.encode()
}

/// The bytes of an Exchange of `escrow_id`.
pub open spec fn release_data(escrow_id: u64) -> Seq<u8> {
    EscrowInstruction::ReleaseFunds { escrow_id }.encode()
}

proof fn lemma_initialize_carried_out(
    s: State,
    program_id: Address,
    metas: Seq<AccountMeta>,
    escrow_id: u64,
    deposit_amount: u64,
    receive_amount: u64,
) -> (plan: InitializePlan)
    requires
        spec_transact(
            s,
            program_id,
            metas,
            initialize_data(escrow_id, deposit_amount, receive_amount),
        ) is Ok,
    ensures
        metas.len() >= 10,
        spec_initialize_escrow(
            program_id,
            spec_load(s, metas),
            escrow_id,
            deposit_amount,
            receive_amount,
        ) == Ok::<InitializePlan, ProgramError>(plan),
        spec_apply_initialize(s, plan) == spec_transact(
            s,
            program_id,
            metas,
            initialize_data(escrow_id, deposit_amount, receive_amount),
        ),
        plan.open_vault is Some <==> s[metas[4].pubkey].data.len() == 0,
        plan.open_vault is Some ==> {
            &&& plan.open_vault->0.create.payer == metas[0].pubkey
            &&& plan.open_vault->0.create.new_account == metas[4].pubkey
            &&& plan.open_vault->0.create.space == 165
            &&& plan.open_vault->0.create.owner == crate::address::token_program_id()
            &&& plan.open_vault->0.initialize.account == metas[4].pubkey
            &&& plan.open_vault->0.initialize.mint == metas[1].pubkey
            &&& plan.open_vault->0.initialize.owner == metas[4].pubkey
        },
        plan.deposit.source == metas[3].pubkey,
        plan.deposit.destination == metas[4].pubkey,
        plan.deposit.amount == deposit_amount,
        plan.create_record.payer == metas[0].pubkey,
        plan.create_record.new_account == metas[5].pubkey,
        plan.create_record.space == 113,
        plan.create_record.owner == program_id,
        plan.record.escrow_id == escrow_id,
        plan.record.maker == metas[0].pubkey,
        plan.record.token_mint_a == metas[1].pubkey,
        plan.record.token_mint_b == metas[2].pubkey,
        plan.record.receive == receive_amount,
        plan.record.bump == bump_of(spec_escrow_address(program_id, metas[0].pubkey, escrow_id)),
        spec_unpack(s[metas[3].pubkey].data) is Ok,
        deposit_amount > 0,
        receive_amount > 0,
        spec_vault_address(program_id, metas[0].pubkey, escrow_id) is Some,
        key_of(spec_vault_address(program_id, metas[0].pubkey, escrow_id)) == metas[4].pubkey,
        spec_escrow_address(program_id, metas[0].pubkey, escrow_id) is Some,
        key_of(spec_escrow_address(program_id, metas[0].pubkey, escrow_id)) == metas[5].pubkey,
        spec_unpack(s[metas[3].pubkey].data)->Ok_0.owner == metas[0].pubkey,
{
    lemma_instruction_decode_encode(
        EscrowInstruction::InitializeEscrow { escrow_id, deposit_amount, receive_amount },
    );
    let accounts = spec_load(s, metas);
    let decision = spec_initialize_escrow(
        program_id,
        accounts,
        escrow_id,
        deposit_amount,
        receive_amount,
    );
    assert(spec_process(
        program_id,
        accounts,
        initialize_data(escrow_id, deposit_amount, receive_amount),
    ) is Ok);
    assert(decision is Ok);
    decision->Ok_0
}

/// What an Initialize adds to the token balance under `key`: the deposit
/// for the custody account, less the deposit for the maker's token A
/// account.
pub open spec fn initialize_flow(metas: Seq<AccountMeta>, deposit_amount: u64, key: Address) -> int {
    (if key == metas[4].pubkey {
        deposit_amount as int
    } else {
        0
    }) - (if key == metas[3].pubkey {
        deposit_amount as int
    } else {
        0
    })
}

/// Conservation: after an Initialize that the ledger carried out, every
/// token account holds what it held plus what the deposit brought it, and
/// the record address stores the terms of the request under the escrow
/// program. On a ledger whose custody address held no tokens, this says:
/// custody holds exactly the deposit, and the maker's token A account
/// exactly the deposit less. Record and custody stand at the two addresses
/// derived for the maker and the id; custody is a plain token account for
/// mint A under the token program, and where the Initialize created it,
/// its authority is its own address.
pub proof fn law_initialize_conserves(
    s: State,
    program_id: Address,
    metas: Seq<AccountMeta>,
    escrow_id: u64,
    deposit_amount: u64,
    receive_amount: u64,
)
    requires
        spec_transact(
            s,
            program_id,
            metas,
            initialize_data(escrow_id, deposit_amount, receive_amount),
        ) is Ok,
    ensures
        ({
            let after = spec_transact(
                s,
                program_id,
                metas,
                initialize_data(escrow_id, deposit_amount, receive_amount),
            )->Ok_0;
            &&& metas.len() >= 10
            &&& forall|key: Address| #[trigger]
                balance(after, key) == balance(s, key) + initialize_flow(
                    metas,
                    deposit_amount,
                    key,
                )
            &&& balance(s, metas[4].pubkey) == 0 ==> {
                &&& balance(after, metas[4].pubkey) == deposit_amount
                &&& balance(after, metas[3].pubkey) == balance(s, metas[3].pubkey) - deposit_amount
            }
            &&& Escrow::decode(after[metas[5].pubkey].data) == Some(
                Escrow {
                    escrow_id,
                    maker: metas[0].pubkey,
                    token_mint_a: metas[1].pubkey,
                    token_mint_b: metas[2].pubkey,
                    receive: receive_amount,
                    bump: bump_of(spec_escrow_address(program_id, metas[0].pubkey, escrow_id)),
                },
            )
            &&& after[metas[5].pubkey].owner == program_id
            &&& metas[5].pubkey == key_of(
                spec_escrow_address(program_id, metas[0].pubkey, escrow_id),
            )
            &&& metas[4].pubkey == key_of(spec_vault_address(program_id, metas[0].pubkey, escrow_id))
            &&& after[metas[4].pubkey].owner == crate::address::token_program_id()
            &&& spec_is_plain(after[metas[4].pubkey].data)
            &&& spec_unpack(after[metas[4].pubkey].data)->Ok_0.mint == metas[1].pubkey
            &&& s[metas[4].pubkey].data.len() == 0 ==> spec_unpack(
                after[metas[4].pubkey].data,
            )->Ok_0.owner == metas[4].pubkey
        }),
{
    let plan = lemma_initialize_carried_out(
        s,
        program_id,
        metas,
        escrow_id,
        deposit_amount,
        receive_amount,
    );
    let maker = metas[0].pubkey;
    let holding = metas[3].pubkey;
    let vault = metas[4].pubkey;
    let record = metas[5].pubkey;
    assert(spec_open_vault(s, plan) is Ok);
    let s1 = spec_open_vault(s, plan)->Ok_0;
    assert forall|key: Address| #[trigger] balance(s1, key) == balance(s, key) by {
        if plan.open_vault is Some {
            let open = plan.open_vault->0;
            assert(spec_create_account(s, open.create) is Ok);
            let s0 = spec_create_account(s, open.create)->Ok_0;
            assert(spec_initialize_token_account(s0, open.initialize) is Ok);
            lemma_fresh_token_data(metas[1].pubkey, vault);
            assert(s0[vault].data.len() == 165);
            assert(crate::wire::zeros(165)[108] == 0);
            assert(balance(s0, vault) == 0);
            assert(balance(s, vault) == 0);
        }
    }
    let s2 = spec_transfer(s1, plan.deposit)->Ok_0;
    assert(spec_transfer(s1, plan.deposit) is Ok);
    lemma_transfer_moves(s1, plan.deposit);
    let s3 = spec_create_account(s2, plan.create_record)->Ok_0;
    assert(spec_create_account(s2, plan.create_record) is Ok);
    let s4 = spec_write_record(s3, record, plan.record)->Ok_0;
    assert(spec_write_record(s3, record, plan.record) is Ok);
    assert(s2[record] == vacant());
    assert(s3[record].data == crate::wire::zeros(113));
    lemma_packed_decodes(plan.record, s3[record].data);
    assert(plan.record.packed(s3[record].data) =~= plan.record.packed(s3[record].data).subrange(
        0,
        113,
    ));
    assert forall|key: Address| #[trigger] balance(s4, key) == balance(s2, key) by {
        if key == record {
            assert(s4[record].data.len() == 113);
        } else {
            assert(s4[key].data == s2[key].data);
        }
    }
    if balance(s, vault) == 0 {
        assert(vault != holding);
    }
    // custody after the call
    assert(spec_is_plain(s1[vault].data) && s1[vault].owner == crate::address::token_program_id());
    assert(spec_unpack(s1[vault].data)->Ok_0.mint == metas[1].pubkey);
    if s[vault].data.len() == 0 {
        let open = plan.open_vault->0;
        assert(spec_create_account(s, open.create) is Ok);
        let s0 = spec_create_account(s, open.create)->Ok_0;
        assert(spec_initialize_token_account(s0, open.initialize) is Ok);
        lemma_fresh_token_data(metas[1].pubkey, vault);
        assert(s1[vault].data == crate::token::fresh_token_data(metas[1].pubkey, vault));
        assert(spec_unpack(s1[vault].data)->Ok_0.owner == vault);
    }
    assert(spec_unpack(s2[vault].data) is Ok);
    assert(record != vault);
    assert(s3[vault].data == s2[vault].data && s3[vault].owner == s2[vault].owner);
    assert(s4[vault] == s3[vault]);
}

proof fn lemma_release_carried_out(
    s: State,
    program_id: Address,
    metas: Seq<AccountMeta>,
    escrow_id: u64,
) -> (plan: ReleasePlan)
    requires
        spec_transact(s, program_id, metas, release_data(escrow_id)) is Ok,
    ensures
        metas.len() >= 10,
        spec_release_funds(program_id, spec_load(s, metas), escrow_id) == Ok::<
            ReleasePlan,
            ProgramError,
        >(plan),
        spec_apply_release(s, plan) == spec_transact(s, program_id, metas, release_data(escrow_id)),
        Escrow::decode(s[metas[8].pubkey].data) is Some,
        plan.payment.source == metas[6].pubkey,
        plan.payment.destination == metas[4].pubkey,
        plan.payment.amount == Escrow::decode(s[metas[8].pubkey].data)->0.receive,
        plan.release.source == metas[7].pubkey,
        plan.release.destination == metas[5].pubkey,
        plan.release.amount == balance(s, metas[7].pubkey),
        plan.close_vault.account == metas[7].pubkey,
        plan.close_vault.destination == metas[1].pubkey,
        plan.close_record.record == metas[8].pubkey,
        plan.close_record.beneficiary == metas[1].pubkey,
        spec_unpack(s[metas[4].pubkey].data) is Ok,
        spec_unpack(s[metas[5].pubkey].data) is Ok,
        spec_unpack(s[metas[6].pubkey].data) is Ok,
        spec_unpack(s[metas[7].pubkey].data) is Ok,
        spec_unpack(s[metas[4].pubkey].data)->Ok_0.owner == metas[1].pubkey,
        spec_unpack(s[metas[5].pubkey].data)->Ok_0.owner == metas[0].pubkey,
        spec_unpack(s[metas[6].pubkey].data)->Ok_0.owner == metas[0].pubkey,
        Escrow::decode(s[metas[8].pubkey].data)->0.maker == metas[1].pubkey,
        spec_vault_address(program_id, metas[1].pubkey, escrow_id) is Some,
        key_of(spec_vault_address(program_id, metas[1].pubkey, escrow_id)) == spec_unpack(
            s[metas[7].pubkey].data,
        )->Ok_0.owner,
        spec_escrow_address(program_id, metas[1].pubkey, escrow_id) is Some,
        key_of(spec_escrow_address(program_id, metas[1].pubkey, escrow_id)) == metas[8].pubkey,
{
    lemma_instruction_decode_encode(EscrowInstruction::ReleaseFunds { escrow_id });
    let accounts = spec_load(s, metas);
    let decision = spec_release_funds(program_id, accounts, escrow_id);
    assert(spec_process(program_id, accounts, release_data(escrow_id)) is Ok);
    assert(decision is Ok);
    assert(spec_release_terms(accounts, escrow_id) is Ok);
    let terms = spec_release_terms(accounts, escrow_id)->Ok_0;
    assert(spec_release_holdings(accounts, terms.receive) is Ok);
    let vault = spec_release_holdings(accounts, terms.receive)->Ok_0;
    assert(spec_release_derived(program_id, accounts, escrow_id, vault) is Ok);
    decision->Ok_0
}

/// What an Exchange adds to the token balance under `key`: the custody
/// balance for the taker's token A account, `receive` for the maker's
/// token B account, less `receive` for the taker's token B account. An
/// account in two of these roles gets the sum.
pub open spec fn exchange_flow(metas: Seq<AccountMeta>, custody: u64, receive: u64, key: Address) -> int {
    (if key == metas[5].pubkey {
        custody as int
    } else {
        0
    }) + (if key == metas[4].pubkey {
        receive as int
    } else {
        0
    }) - (if key == metas[6].pubkey {
        receive as int
    } else {
        0
    })
}

/// Exchange atomicity: after an Exchange that the ledger carried out,
/// nothing is stored any more under the custody address and the record
/// address, the maker holds the lamports of both more, and every other
/// token account holds what it held plus what the exchange brought it. Where the four token accounts are four
/// different accounts, this says: the taker's token A account holds what
/// custody held more, the maker's token B account `receive` more and the
/// taker's token B account `receive` less. An Exchange that the ledger did
/// not carry out changed nothing: that is the contract of
/// `Ledger::process_instruction`.
pub proof fn law_exchange_atomic(
    s: State,
    program_id: Address,
    metas: Seq<AccountMeta>,
    escrow_id: u64,
)
    requires
        spec_transact(s, program_id, metas, release_data(escrow_id)) is Ok,
    ensures
        ({
            let after = spec_transact(s, program_id, metas, release_data(escrow_id))->Ok_0;
            let receive = Escrow::decode(s[metas[8].pubkey].data)->0.receive;
            let custody = balance(s, metas[7].pubkey);
            let maker_b = metas[4].pubkey;
            let taker_a = metas[5].pubkey;
            let taker_b = metas[6].pubkey;
            let vault = metas[7].pubkey;
            &&& metas.len() >= 10
            &&& is_vacant(after, vault)
            &&& is_vacant(after, metas[8].pubkey)
            &&& after[metas[1].pubkey].lamports == s[metas[1].pubkey].lamports + s[vault].lamports
                + s[metas[8].pubkey].lamports
            &&& forall|key: Address|
                key != vault ==> #[trigger] balance(after, key) == balance(s, key) + exchange_flow(
                    metas,
                    custody,
                    receive,
                    key,
                )
            &&& (maker_b != taker_a && maker_b != taker_b && maker_b != vault && taker_a != taker_b
                && taker_a != vault && taker_b != vault) ==> {
                &&& balance(after, taker_a) == balance(s, taker_a) + custody
                &&& balance(after, maker_b) == balance(s, maker_b) + receive
                &&& balance(after, taker_b) == balance(s, taker_b) - receive
            }
        }),
{
    let plan = lemma_release_carried_out(s, program_id, metas, escrow_id);
    let maker = metas[1].pubkey;
    let vault = metas[7].pubkey;
    let record = metas[8].pubkey;
    let receive = plan.payment.amount;
    let custody = plan.release.amount;
    let s1 = spec_transfer(s, plan.payment)->Ok_0;
    assert(spec_transfer(s, plan.payment) is Ok);
    let s2 = spec_transfer(s1, plan.release)->Ok_0;
    assert(spec_transfer(s1, plan.release) is Ok);
    let s3 = spec_close_token_account(s2, plan.close_vault)->Ok_0;
    assert(spec_close_token_account(s2, plan.close_vault) is Ok);
    let s4 = spec_close_record(s3, plan.close_record)->Ok_0;
    assert(spec_close_record(s3, plan.close_record) is Ok);
    lemma_transfer_moves(s, plan.payment);
    lemma_transfer_moves(s1, plan.release);
    lemma_vacated(s2, s3, vault, maker, s2[maker].lamports + s2[vault].lamports);
    assert(s2[record].data.len() == s[record].data.len());
    assert(record != vault);
    assert(s3[record] == s2[record]);
    assert(balance(s3, record) == 0);
    lemma_vacated(s3, s4, record, maker, s3[maker].lamports + s3[record].lamports);
    assert(s4[vault] == vacant());
    assert(s2[maker].lamports == s[maker].lamports && s2[vault].lamports == s[vault].lamports);
    assert(s3[maker].lamports == s[maker].lamports + s[vault].lamports);
    assert(s3[record].lamports == s[record].lamports);
    assert forall|key: Address| key != vault implies #[trigger] balance(s4, key) == balance(s, key)
        + exchange_flow(metas, custody, receive, key) by {
        assert(balance(s4, key) == balance(s2, key));
        assert(balance(s2, key) == balance(s1, key) + (if key == plan.release.destination {
            custody as int
        } else {
            0
        }) - (if key == plan.release.source {
            custody as int
        } else {
            0
        }));
    }
}

/// Whether `data` is an Exchange or a Cancel of `escrow_id`.
pub open spec fn ends_escrow(data: Seq<u8>, escrow_id: u64) -> bool {
    data == release_data(escrow_id) || data == cancel_data(escrow_id)
}

/// The maker that an Exchange or a Cancel names: the second account of an
/// Exchange, the first of a Cancel.
pub open spec fn named_maker(metas: Seq<AccountMeta>, data: Seq<u8>, escrow_id: u64) -> Address {
    if data == release_data(escrow_id) {
        metas[1].pubkey
    } else {
        metas[0].pubkey
    }
}

proof fn lemma_tags_differ(escrow_id: u64)
    ensures
        release_data(escrow_id) != cancel_data(escrow_id),
{
    assert(release_data(escrow_id)[0] == 1);
    assert(cancel_data(escrow_id)[0] == 2);
}

/// The record address of an escrow that was completed or cancelled is
/// vacant.
proof fn lemma_ended(
    s: State,
    program_id: Address,
    metas: Seq<AccountMeta>,
    data: Seq<u8>,
    escrow_id: u64,
)
    requires
        ends_escrow(data, escrow_id),
        spec_transact(s, program_id, metas, data) is Ok,
    ensures
        spec_escrow_address(program_id, named_maker(metas, data, escrow_id), escrow_id) is Some,
        is_vacant(
            spec_transact(s, program_id, metas, data)->Ok_0,
            key_of(spec_escrow_address(program_id, named_maker(metas, data, escrow_id), escrow_id)),
        ),
{
    lemma_tags_differ(escrow_id);
    if data == release_data(escrow_id) {
        let plan = lemma_release_carried_out(s, program_id, metas, escrow_id);
        law_exchange_atomic(s, program_id, metas, escrow_id);
    } else {
        let plan = lemma_cancel_carried_out(s, program_id, metas, escrow_id);
        law_cancel_returns_deposit(s, program_id, metas, escrow_id);
    }
}

/// An Exchange or a Cancel that the ledger carries out reads its terms
/// from the record address of the maker that it names.
proof fn lemma_reads_record(
    s: State,
    program_id: Address,
    metas: Seq<AccountMeta>,
    data: Seq<u8>,
    escrow_id: u64,
)
    requires
        ends_escrow(data, escrow_id),
        spec_transact(s, program_id, metas, data) is Ok,
    ensures
        spec_escrow_address(program_id, named_maker(metas, data, escrow_id), escrow_id) is Some,
        Escrow::decode(
            s[key_of(spec_escrow_address(
                program_id,
                named_maker(metas, data, escrow_id),
                escrow_id,
            ))].data,
        ) is Some,
{
    lemma_tags_differ(escrow_id);
    if data == release_data(escrow_id) {
        let plan = lemma_release_carried_out(s, program_id, metas, escrow_id);
    } else {
        let plan = lemma_cancel_carried_out(s, program_id, metas, escrow_id);
    }
}

/// No double completion: once the ledger carried out an Exchange or a
/// Cancel for a maker and an escrow id, it carries out no further Exchange
/// or Cancel for them, whatever accounts the second instruction names.
pub proof fn law_no_double_completion(
    s: State,
    program_id: Address,
    first_metas: Seq<AccountMeta>,
    first_data: Seq<u8>,
    second_metas: Seq<AccountMeta>,
    second_data: Seq<u8>,
    escrow_id: u64,
)
    requires
        ends_escrow(first_data, escrow_id),
        ends_escrow(second_data, escrow_id),
        named_maker(first_metas, first_data, escrow_id) == named_maker(
            second_metas,
            second_data,
            escrow_id,
        ),
        spec_transact(s, program_id, first_metas, first_data) is Ok,
    ensures
        spec_transact(
            spec_transact(s, program_id, first_metas, first_data)->Ok_0,
            program_id,
            second_metas,
            second_data,
        ) is Err,
{
    let after = spec_transact(s, program_id, first_metas, first_data)->Ok_0;
    lemma_ended(s, program_id, first_metas, first_data, escrow_id);
    if spec_transact(after, program_id, second_metas, second_data) is Ok {
        lemma_reads_record(after, program_id, second_metas, second_data, escrow_id);
        assert(false);
    }
}

/// The maker that an instruction names: the second account of an
/// Exchange, the first of an Initialize or a Cancel.
pub open spec fn maker_named(metas: Seq<AccountMeta>, data: Seq<u8>) -> Address {
    match EscrowInstruction::decode(data) {
        Some(EscrowInstruction::ReleaseFunds { .. }) => metas[1].pubkey,
        _ => metas[0].pubkey,
    }
}

/// Whether `key` is the maker or the taker of the instruction.
pub open spec fn is_party(metas: Seq<AccountMeta>, data: Seq<u8>, key: Address) -> bool {
    key == metas[0].pubkey || key == maker_named(metas, data)
}

/// Whether what is stored under the custody address `vault` and the record
/// address `record` of an escrow is that escrow or nothing: a token
/// account under the custody address's own authority, a record.
pub open spec fn holds_escrow_or_nothing(s: State, vault: Address, record: Address) -> bool {
    &&& is_vacant(s, record) || Escrow::decode(s[record].data) is Some
    &&& is_vacant(s, vault) || (spec_unpack(s[vault].data) is Ok && spec_unpack(
        s[vault].data,
    )->Ok_0.owner == vault)
}

/// What an instruction may do to the escrow at `vault` and `record`
/// without being an operation on it: nothing to the record, and to custody
/// nothing, or a refund into it that a Cancel of another escrow names it
/// for.
pub open spec fn left_alone(
    s: State,
    after: State,
    metas: Seq<AccountMeta>,
    data: Seq<u8>,
    vault: Address,
    record: Address,
) -> bool {
    &&& after[record] == s[record]
    &&& balance(after, vault) >= balance(s, vault)
    &&& after[vault] == s[vault] || (EscrowInstruction::decode(data) is Some
        && EscrowInstruction::decode(data)->0 is CancelEscrow && metas[2].pubkey == vault)
}

proof fn lemma_initialize_isolated(
    s: State,
    program_id: Address,
    metas: Seq<AccountMeta>,
    escrow_id: u64,
    deposit_amount: u64,
    receive_amount: u64,
    vault: Address,
    record: Address,
)
    requires
        spec_transact(
            s,
            program_id,
            metas,
            initialize_data(escrow_id, deposit_amount, receive_amount),
        ) is Ok,
        vault != metas[4].pubkey && vault != metas[5].pubkey,
        record != metas[4].pubkey && record != metas[5].pubkey,
        vault != metas[0].pubkey && record != metas[0].pubkey,
        holds_escrow_or_nothing(s, vault, record),
    ensures
        ({
            let after = spec_transact(
                s,
                program_id,
                metas,
                initialize_data(escrow_id, deposit_amount, receive_amount),
            )->Ok_0;
            after[record] == s[record] && after[vault] == s[vault]
        }),
{
    let plan = lemma_initialize_carried_out(
        s,
        program_id,
        metas,
        escrow_id,
        deposit_amount,
        receive_amount,
    );
    let holding = metas[3].pubkey;
    assert(spec_open_vault(s, plan) is Ok);
    let s1 = spec_open_vault(s, plan)->Ok_0;
    if plan.open_vault is Some {
        let open = plan.open_vault->0;
        assert(spec_create_account(s, open.create) is Ok);
        let s0 = spec_create_account(s, open.create)->Ok_0;
        assert(spec_initialize_token_account(s0, open.initialize) is Ok);
    }
    assert(s1[vault] == s[vault] && s1[record] == s[record]);
    assert(s1[holding].data == s[holding].data);
    let s2 = spec_transfer(s1, plan.deposit)->Ok_0;
    assert(spec_transfer(s1, plan.deposit) is Ok);
    assert(holding != vault && holding != record);
    assert(s2[vault] == s[vault] && s2[record] == s[record]);
    let s3 = spec_create_account(s2, plan.create_record)->Ok_0;
    assert(spec_create_account(s2, plan.create_record) is Ok);
    assert(spec_write_record(s3, metas[5].pubkey, plan.record) is Ok);
}

proof fn lemma_release_isolated(
    s: State,
    program_id: Address,
    metas: Seq<AccountMeta>,
    escrow_id: u64,
    vault: Address,
    record: Address,
)
    requires
        spec_transact(s, program_id, metas, release_data(escrow_id)) is Ok,
        vault != key_of(spec_vault_address(program_id, metas[1].pubkey, escrow_id)),
        vault != metas[8].pubkey && record != metas[8].pubkey,
        record != key_of(spec_vault_address(program_id, metas[1].pubkey, escrow_id)),
        vault != metas[0].pubkey && record != metas[0].pubkey,
        vault != metas[1].pubkey && record != metas[1].pubkey,
        holds_escrow_or_nothing(s, vault, record),
    ensures
        ({
            let after = spec_transact(s, program_id, metas, release_data(escrow_id))->Ok_0;
            after[record] == s[record] && after[vault] == s[vault]
        }),
{
    let plan = lemma_release_carried_out(s, program_id, metas, escrow_id);
    let s1 = spec_transfer(s, plan.payment)->Ok_0;
    assert(spec_transfer(s, plan.payment) is Ok);
    assert(metas[4].pubkey != vault && metas[4].pubkey != record);
    assert(metas[6].pubkey != vault && metas[6].pubkey != record);
    assert(metas[5].pubkey != vault && metas[5].pubkey != record);
    assert(metas[7].pubkey != vault && metas[7].pubkey != record);
    assert(s1[vault] == s[vault] && s1[record] == s[record]);
    let s2 = spec_transfer(s1, plan.release)->Ok_0;
    assert(spec_transfer(s1, plan.release) is Ok);
    assert(s2[vault] == s[vault] && s2[record] == s[record]);
    let s3 = spec_close_token_account(s2, plan.close_vault)->Ok_0;
    assert(spec_close_token_account(s2, plan.close_vault) is Ok);
    assert(s3[vault] == s[vault] && s3[record] == s[record]);
    assert(spec_close_record(s3, plan.close_record) is Ok);
}

proof fn lemma_cancel_isolated(
    s: State,
    program_id: Address,
    metas: Seq<AccountMeta>,
    escrow_id: u64,
    vault: Address,
    record: Address,
)
    requires
        spec_transact(s, program_id, metas, cancel_data(escrow_id)) is Ok,
        vault != metas[4].pubkey && vault != metas[3].pubkey,
        record != metas[4].pubkey && record != metas[3].pubkey,
        vault != metas[0].pubkey && record != metas[0].pubkey,
        holds_escrow_or_nothing(s, vault, record),
    ensures
        ({
            let after = spec_transact(s, program_id, metas, cancel_data(escrow_id))->Ok_0;
            &&& after[record] == s[record]
            &&& balance(after, vault) >= balance(s, vault)
            &&& after[vault] == s[vault] || metas[2].pubkey == vault
        }),
{
    let plan = lemma_cancel_carried_out(s, program_id, metas, escrow_id);
    law_cancel_returns_deposit(s, program_id, metas, escrow_id);
    let holding = metas[2].pubkey;
    let s1 = spec_transfer(s, plan.refund)->Ok_0;
    assert(spec_transfer(s, plan.refund) is Ok);
    assert(holding != record);
    assert(s1[record] == s[record]);
    let s2 = spec_close_token_account(s1, plan.close_vault)->Ok_0;
    assert(spec_close_token_account(s1, plan.close_vault) is Ok);
    assert(s2[record] == s[record]);
    assert(spec_close_record(s2, plan.close_record) is Ok);
    let s3 = spec_close_record(s2, plan.close_record)->Ok_0;
    if holding != vault {
        assert(s1[vault] == s[vault]);
        assert(s2[vault] == s[vault]);
        assert(s3[vault] == s[vault]);
    }
}

/// Id isolation: an operation that the ledger carries out for one maker
/// leaves the escrow of another maker under the same id alone. The stored
/// record of the other maker is unchanged, and the other custody account
/// is unchanged too, unless a Cancel names it as the account to refund
/// into, which adds to it. This is stated for two makers whose derived
/// addresses differ, for parties that are not themselves one of the other
/// maker's derived addresses, and for a ledger that stores under those
/// addresses the other maker's escrow or nothing.
pub proof fn law_id_isolation(
    s: State,
    program_id: Address,
    metas: Seq<AccountMeta>,
    data: Seq<u8>,
    other_maker: Address,
)
    requires
        spec_transact(s, program_id, metas, data) is Ok,
        ({
            let escrow_id = EscrowInstruction::decode(data)->0.spec_escrow_id();
            let maker = maker_named(metas, data);
            let vault = key_of(spec_vault_address(program_id, other_maker, escrow_id));
            let record = key_of(spec_escrow_address(program_id, other_maker, escrow_id));
            let own_vault = key_of(spec_vault_address(program_id, maker, escrow_id));
            let own_record = key_of(spec_escrow_address(program_id, maker, escrow_id));
            &&& vault != own_vault && vault != own_record
            &&& record != own_vault && record != own_record
            &&& !is_party(metas, data, vault) && !is_party(metas, data, record)
            &&& holds_escrow_or_nothing(s, vault, record)
        }),
    ensures
        ({
            let escrow_id = EscrowInstruction::decode(data)->0.spec_escrow_id();
            left_alone(
                s,
                spec_transact(s, program_id, metas, data)->Ok_0,
                metas,
                data,
                key_of(spec_vault_address(program_id, other_maker, escrow_id)),
                key_of(spec_escrow_address(program_id, other_maker, escrow_id)),
            )
        }),
{
    assert(EscrowInstruction::decode(data) is Some);
    lemma_instruction_encode_decode(data);
    let instruction = EscrowInstruction::decode(data)->0;
    let escrow_id = instruction.spec_escrow_id();
    let vault = key_of(spec_vault_address(program_id, other_maker, escrow_id));
    let record = key_of(spec_escrow_address(program_id, other_maker, escrow_id));
    match instruction {
        EscrowInstruction::InitializeEscrow { escrow_id, deposit_amount, receive_amount } => {
            let plan = lemma_initialize_carried_out(
                s,
                program_id,
                metas,
                escrow_id,
                deposit_amount,
                receive_amount,
            );
            lemma_initialize_isolated(
                s,
                program_id,
                metas,
                escrow_id,
                deposit_amount,
                receive_amount,
                vault,
                record,
            );
        },
        EscrowInstruction::ReleaseFunds { escrow_id } => {
            let plan = lemma_release_carried_out(s, program_id, metas, escrow_id);
            lemma_release_isolated(s, program_id, metas, escrow_id, vault, record);
        },
        EscrowInstruction::CancelEscrow { escrow_id } => {
            let plan = lemma_cancel_carried_out(s, program_id, metas, escrow_id);
            lemma_cancel_isolated(s, program_id, metas, escrow_id, vault, record);
        },
    }
}

/// The terms of an escrow never change: whatever instruction the ledger
/// carries out, an account that stored a record before stores the same
/// bytes after, or nothing.
pub proof fn law_terms_immutable(
    s: State,
    program_id: Address,
    metas: Seq<AccountMeta>,
    data: Seq<u8>,
    record: Address,
)
    requires
        spec_transact(s, program_id, metas, data) is Ok,
        Escrow::decode(s[record].data) is Some,
    ensures
        ({
            let after = spec_transact(s, program_id, metas, data)->Ok_0;
            after[record].data == s[record].data || is_vacant(after, record)
        }),
{
    assert(EscrowInstruction::decode(data) is Some);
    lemma_instruction_encode_decode(data);
    match EscrowInstruction::decode(data)->0 {
        EscrowInstruction::InitializeEscrow { escrow_id, deposit_amount, receive_amount } => {
            let plan = lemma_initialize_carried_out(
                s,
                program_id,
                metas,
                escrow_id,
                deposit_amount,
                receive_amount,
            );
            assert(spec_open_vault(s, plan) is Ok);
            let s1 = spec_open_vault(s, plan)->Ok_0;
            if plan.open_vault is Some {
                let open = plan.open_vault->0;
                assert(spec_create_account(s, open.create) is Ok);
                let s0 = spec_create_account(s, open.create)->Ok_0;
                assert(spec_initialize_token_account(s0, open.initialize) is Ok);
            }
            assert(s1[record].data == s[record].data);
            assert(spec_transfer(s1, plan.deposit) is Ok);
            let s2 = spec_transfer(s1, plan.deposit)->Ok_0;
            lemma_transfer_moves(s1, plan.deposit);
            assert(s2[record].data == s[record].data);
            assert(spec_create_account(s2, plan.create_record) is Ok);
            let s3 = spec_create_account(s2, plan.create_record)->Ok_0;
            assert(spec_write_record(s3, metas[5].pubkey, plan.record) is Ok);
        },
        EscrowInstruction::ReleaseFunds { escrow_id } => {
            let plan = lemma_release_carried_out(s, program_id, metas, escrow_id);
            assert(spec_transfer(s, plan.payment) is Ok);
            let s1 = spec_transfer(s, plan.payment)->Ok_0;
            lemma_transfer_moves(s, plan.payment);
            assert(s1[record].data == s[record].data);
            assert(spec_transfer(s1, plan.release) is Ok);
            let s2 = spec_transfer(s1, plan.release)->Ok_0;
            lemma_transfer_moves(s1, plan.release);
            assert(s2[record].data == s[record].data);
            assert(spec_close_token_account(s2, plan.close_vault) is Ok);
            let s3 = spec_close_token_account(s2, plan.close_vault)->Ok_0;
            assert(s3[record].data == s[record].data);
            assert(spec_close_record(s3, plan.close_record) is Ok);
        },
        EscrowInstruction::CancelEscrow { escrow_id } => {
            let plan = lemma_cancel_carried_out(s, program_id, metas, escrow_id);
            assert(spec_transfer(s, plan.refund) is Ok);
            let s1 = spec_transfer(s, plan.refund)->Ok_0;
            lemma_transfer_moves(s, plan.refund);
            assert(s1[record].data == s[record].data);
            assert(spec_close_token_account(s1, plan.close_vault) is Ok);
            let s2 = spec_close_token_account(s1, plan.close_vault)->Ok_0;
            assert(s2[record].data == s[record].data);
            assert(spec_close_record(s2, plan.close_record) is Ok);
        },
    }
}

/// Idempotency is not provided: on the ledger that an Initialize for a
/// maker and an escrow id left behind, the ledger carries out no further
/// Initialize for them, whatever accounts and amounts the second
/// instruction names.
pub proof fn law_no_second_initialize(
    s: State,
    program_id: Address,
    first_metas: Seq<AccountMeta>,
    first_amounts: (u64, u64),
    second_metas: Seq<AccountMeta>,
    second_amounts: (u64, u64),
    escrow_id: u64,
)
    requires
        spec_transact(
            s,
            program_id,
            first_metas,
            initialize_data(escrow_id, first_amounts.0, first_amounts.1),
        ) is Ok,
        first_metas[0].pubkey == second_metas[0].pubkey,
    ensures
        spec_transact(
            spec_transact(
                s,
                program_id,
                first_metas,
                initialize_data(escrow_id, first_amounts.0, first_amounts.1),
            )->Ok_0,
            program_id,
            second_metas,
            initialize_data(escrow_id, second_amounts.0, second_amounts.1),
        ) is Err,
{
    let first = initialize_data(escrow_id, first_amounts.0, first_amounts.1);
    let second = initialize_data(escrow_id, second_amounts.0, second_amounts.1);
    let after = spec_transact(s, program_id, first_metas, first)->Ok_0;
    let plan = lemma_initialize_carried_out(
        s,
        program_id,
        first_metas,
        escrow_id,
        first_amounts.0,
        first_amounts.1,
    );
    law_initialize_conserves(s, program_id, first_metas, escrow_id, first_amounts.0, first_amounts.1);
    if spec_transact(after, program_id, second_metas, second) is Ok {
        let again = lemma_initialize_carried_out(
            after,
            program_id,
            second_metas,
            escrow_id,
            second_amounts.0,
            second_amounts.1,
        );
        assert(second_metas[5].pubkey == first_metas[5].pubkey);
        assert(false);
    }
}

/// Authorisation is the only lock: the ledger carries out an Initialize or
/// a Cancel only with the signature of the maker that it names, an
/// Exchange only with the signature of the taker that it names; and a
/// Cancel or an Exchange only for the maker that the stored terms name.
pub proof fn law_authorised(s: State, program_id: Address, metas: Seq<AccountMeta>, data: Seq<u8>)
    requires
        spec_transact(s, program_id, metas, data) is Ok,
    ensures
        metas.len() >= 7,
        metas[0].is_signer,
        EscrowInstruction::decode(data) is Some,
        EscrowInstruction::decode(data)->0 is CancelEscrow ==> Escrow::decode(
            s[metas[3].pubkey].data,
        ) == Some(Escrow { maker: metas[0].pubkey, ..Escrow::decode(s[metas[3].pubkey].data)->0 }),
        EscrowInstruction::decode(data)->0 is ReleaseFunds ==> Escrow::decode(
            s[metas[8].pubkey].data,
        ) == Some(Escrow { maker: metas[1].pubkey, ..Escrow::decode(s[metas[8].pubkey].data)->0 }),
{
    assert(EscrowInstruction::decode(data) is Some);
    lemma_instruction_encode_decode(data);
    match EscrowInstruction::decode(data)->0 {
        EscrowInstruction::InitializeEscrow { escrow_id, deposit_amount, receive_amount } => {
            let plan = lemma_initialize_carried_out(
                s,
                program_id,
                metas,
                escrow_id,
                deposit_amount,
                receive_amount,
            );
        },
        EscrowInstruction::ReleaseFunds { escrow_id } => {
            let plan = lemma_release_carried_out(s, program_id, metas, escrow_id);
        },
        EscrowInstruction::CancelEscrow { escrow_id } => {
            let plan = lemma_cancel_carried_out(s, program_id, metas, escrow_id);
        },
    }
}

/// Funds reach the right parties: in an Exchange that the ledger carries
/// out, the account that receives the deposit is a token A account of the
/// taker who signed, the account that is paid is a token B account of the
/// maker whom the stored terms name, the payment is the stored `receive`,
/// and the custody account that is emptied is under the authority derived
/// for that maker and the escrow id.
pub proof fn law_exchange_parties(
    s: State,
    program_id: Address,
    metas: Seq<AccountMeta>,
    escrow_id: u64,
)
    requires
        spec_transact(s, program_id, metas, release_data(escrow_id)) is Ok,
    ensures
        ({
            let terms = Escrow::decode(s[metas[8].pubkey].data)->0;
            let taker_a = spec_unpack(s[metas[5].pubkey].data)->Ok_0;
            let taker_b = spec_unpack(s[metas[6].pubkey].data)->Ok_0;
            let maker_b = spec_unpack(s[metas[4].pubkey].data)->Ok_0;
            let vault = spec_unpack(s[metas[7].pubkey].data)->Ok_0;
            &&& metas.len() >= 10
            &&& metas[0].is_signer
            &&& terms.escrow_id == escrow_id
            &&& terms.maker == metas[1].pubkey
            &&& taker_a.owner == metas[0].pubkey && taker_a.mint == terms.token_mint_a
            &&& taker_b.owner == metas[0].pubkey && taker_b.amount >= terms.receive
            &&& maker_b.owner == terms.maker && maker_b.mint == taker_b.mint
            &&& vault.mint == terms.token_mint_a
            &&& vault.owner == key_of(spec_vault_address(program_id, terms.maker, escrow_id))
            &&& metas[8].pubkey == key_of(spec_escrow_address(program_id, terms.maker, escrow_id))
        }),
{
    let plan = lemma_release_carried_out(s, program_id, metas, escrow_id);
    let accounts = spec_load(s, metas);
    let terms = spec_release_terms(accounts, escrow_id)->Ok_0;
    assert(spec_release_holdings(accounts, terms.receive) is Ok);
}

/// Whether `key` stores a plain token account of `owner` for `mint`
/// under the token program.
pub open spec fn is_holding(s: State, key: Address, owner: Address, mint: Address) -> bool {
    &&& s[key].owner == crate::address::token_program_id()
    &&& spec_is_plain(s[key].data)
    &&& spec_unpack(s[key].data)->Ok_0.owner == owner
    &&& spec_unpack(s[key].data)->Ok_0.mint == mint
}

/// What an Initialize that the ledger carried out left behind, where
/// nothing was stored under the custody address before.
proof fn lemma_opened(
    s: State,
    program_id: Address,
    metas: Seq<AccountMeta>,
    escrow_id: u64,
    deposit_amount: u64,
    receive_amount: u64,
) -> (rents: (u64, u64))
    requires
        spec_transact(
            s,
            program_id,
            metas,
            initialize_data(escrow_id, deposit_amount, receive_amount),
        ) is Ok,
        is_vacant(s, metas[4].pubkey),
    ensures
        ({
            let opened = spec_transact(
                s,
                program_id,
                metas,
                initialize_data(escrow_id, deposit_amount, receive_amount),
            )->Ok_0;
            let maker = metas[0].pubkey;
            let holding = metas[3].pubkey;
            let vault = metas[4].pubkey;
            let record = metas[5].pubkey;
            &&& metas.len() >= 10
            &&& deposit_amount > 0
            &&& maker != vault && maker != record && vault != record && holding != vault && holding
                != record
            &&& s[record] == vacant()
            &&& is_holding(s, holding, maker, metas[1].pubkey)
            &&& is_holding(opened, holding, maker, metas[1].pubkey)
            &&& is_holding(opened, vault, vault, metas[1].pubkey)
            &&& balance(opened, vault) == deposit_amount
            &&& balance(s, holding) >= deposit_amount
            &&& s[maker].lamports >= rents.0 + rents.1
            &&& opened[vault] == (crate::runtime::Stored {
                owner: crate::address::token_program_id(),
                lamports: rents.0,
                data: with_amount(
                    crate::token::fresh_token_data(metas[1].pubkey, vault),
                    deposit_amount,
                ),
            })
            &&& opened[record].owner == program_id
            &&& opened[record].lamports == rents.1
            &&& Escrow::decode(opened[record].data) == Some(
                Escrow {
                    escrow_id,
                    maker,
                    token_mint_a: metas[1].pubkey,
                    token_mint_b: metas[2].pubkey,
                    receive: receive_amount,
                    bump: bump_of(spec_escrow_address(program_id, maker, escrow_id)),
                },
            )
            &&& opened[holding].data == with_amount(
                s[holding].data,
                (balance(s, holding) - deposit_amount) as u64,
            )
            &&& opened[holding].owner == s[holding].owner
            &&& opened[maker].lamports == s[maker].lamports - rents.0 - rents.1
            &&& opened[maker].owner == s[maker].owner
            &&& maker != holding ==> opened[maker].data == s[maker].data && opened[holding].lamports
                == s[holding].lamports
            &&& forall|key: Address|
                key != maker && key != holding && key != vault && key != record ==> #[trigger] opened[key]
                    == s[key]
            &&& key_of(spec_vault_address(program_id, maker, escrow_id)) == vault
            &&& spec_vault_address(program_id, maker, escrow_id) is Some
            &&& key_of(spec_escrow_address(program_id, maker, escrow_id)) == record
            &&& spec_escrow_address(program_id, maker, escrow_id) is Some
        }),
{
    let maker = metas[0].pubkey;
    let mint_a = metas[1].pubkey;
    let holding = metas[3].pubkey;
    let vault = metas[4].pubkey;
    let record = metas[5].pubkey;
    let plan = lemma_initialize_carried_out(
        s,
        program_id,
        metas,
        escrow_id,
        deposit_amount,
        receive_amount,
    );
    law_initialize_conserves(s, program_id, metas, escrow_id, deposit_amount, receive_amount);
    let open = plan.open_vault->0;
    let s0 = spec_create_account(s, open.create)->Ok_0;
    assert(spec_open_vault(s, plan) is Ok);
    assert(spec_create_account(s, open.create) is Ok);
    let s1 = spec_initialize_token_account(s0, open.initialize)->Ok_0;
    assert(spec_open_vault(s, plan) == Ok::<State, crate::runtime::TransactionError>(s1));
    let s2 = spec_transfer(s1, plan.deposit)->Ok_0;
    assert(spec_transfer(s1, plan.deposit) is Ok);
    let s3 = spec_create_account(s2, plan.create_record)->Ok_0;
    assert(spec_create_account(s2, plan.create_record) is Ok);
    let opened = spec_write_record(s3, record, plan.record)->Ok_0;
    assert(spec_write_record(s3, record, plan.record) is Ok);
    lemma_fresh_token_data(mint_a, vault);
    lemma_transfer_moves(s1, plan.deposit);
    assert(holding != vault);
    assert(s2[record] == vacant());
    assert(s[record] == vacant());
    assert(record != vault && record != holding && record != maker && vault != maker);
    assert(balance_of(s1[vault].data) == 0);
    assert(s1[holding].data == s[holding].data);
    lemma_with_amount(s[holding].data, (balance(s, holding) - deposit_amount) as u64);
    lemma_with_amount(crate::token::fresh_token_data(mint_a, vault), deposit_amount);
    (open.create.lamports, plan.create_record.lamports)
}

/// An escrow can always be abandoned: on a ledger that stored nothing
/// under the custody address, an Initialize that the ledger carried out
/// can be undone by the Cancel that the client builds for the same maker,
/// id and accounts. The ledger carries that Cancel out, and afterwards
/// stores under every address what it stored before the Initialize.
pub proof fn law_cancel_undoes_initialize(
    s: State,
    program_id: Address,
    metas: Seq<AccountMeta>,
    escrow_id: u64,
    deposit_amount: u64,
    receive_amount: u64,
)
    requires
        spec_transact(
            s,
            program_id,
            metas,
            initialize_data(escrow_id, deposit_amount, receive_amount),
        ) is Ok,
        is_vacant(s, metas[4].pubkey),
    ensures
        ({
            let opened = spec_transact(
                s,
                program_id,
                metas,
                initialize_data(escrow_id, deposit_amount, receive_amount),
            )->Ok_0;
            let cancel = spec_cancel_instruction(
                program_id,
                metas[0].pubkey,
                metas[1].pubkey,
                metas[4].pubkey,
                metas[5].pubkey,
                metas[3].pubkey,
                escrow_id,
            );
            let closed = spec_transact(opened, program_id, cancel.accounts, cancel.data);
            &&& closed is Ok
            &&& forall|key: Address| #[trigger] closed->Ok_0[key] == s[key]
        }),
{
    let maker = metas[0].pubkey;
    let mint_a = metas[1].pubkey;
    let holding = metas[3].pubkey;
    let vault = metas[4].pubkey;
    let record = metas[5].pubkey;
    let rents = lemma_opened(s, program_id, metas, escrow_id, deposit_amount, receive_amount);
    let opened = spec_transact(
        s,
        program_id,
        metas,
        initialize_data(escrow_id, deposit_amount, receive_amount),
    )->Ok_0;
    let undo = lemma_cancel_admitted(
        opened,
        program_id,
        maker,
        mint_a,
        holding,
        vault,
        record,
        escrow_id,
    );
    lemma_undone(s, opened, undo, maker, mint_a, holding, vault, record, deposit_amount, rents);
}

/// The escrow program admits the Cancel that the client builds for an
/// escrow whose record and custody account are as an Initialize leaves
/// them.
proof fn lemma_cancel_admitted(
    opened: State,
    program_id: Address,
    maker: Address,
    mint_a: Address,
    holding: Address,
    vault: Address,
    record: Address,
    escrow_id: u64,
) -> (undo: CancelPlan)
    requires
        opened[record].owner == program_id,
        Escrow::decode(opened[record].data) is Some,
        Escrow::decode(opened[record].data)->0.escrow_id == escrow_id,
        Escrow::decode(opened[record].data)->0.maker == maker,
        Escrow::decode(opened[record].data)->0.token_mint_a == mint_a,
        spec_unpack(opened[holding].data) is Ok,
        spec_unpack(opened[holding].data)->Ok_0.mint == mint_a,
        opened[vault].owner == crate::address::token_program_id(),
        spec_unpack(opened[vault].data) is Ok,
        spec_unpack(opened[vault].data)->Ok_0.mint == mint_a,
        balance(opened, vault) > 0,
        spec_vault_address(program_id, maker, escrow_id) is Some,
        key_of(spec_vault_address(program_id, maker, escrow_id)) == vault,
        spec_escrow_address(program_id, maker, escrow_id) is Some,
        key_of(spec_escrow_address(program_id, maker, escrow_id)) == record,
    ensures
        ({
            let cancel = spec_cancel_instruction(
                program_id,
                maker,
                mint_a,
                vault,
                record,
                holding,
                escrow_id,
            );
            &&& spec_transact(opened, program_id, cancel.accounts, cancel.data)
                == spec_apply_cancel(opened, undo)
            &&& undo.refund == (Transfer {
                source: vault,
                destination: holding,
                authority: vault,
                amount: balance(opened, vault),
            })
            &&& undo.close_vault == (crate::actions::CloseTokenAccount {
                account: vault,
                destination: maker,
                authority: vault,
            })
            &&& undo.close_record == (crate::actions::CloseRecord { record, beneficiary: maker })
        }),
{
    let cancel = spec_cancel_instruction(
        program_id,
        maker,
        mint_a,
        vault,
        record,
        holding,
        escrow_id,
    );
    lemma_instruction_decode_encode(EscrowInstruction::CancelEscrow { escrow_id });
    let accounts = spec_load(opened, cancel.accounts);
    assert(cancel.accounts.len() == 7);
    assert(accounts.len() == 7);
    assert(accounts[0].key == maker && accounts[0].is_signer);
    assert(accounts[1].key == mint_a);
    assert(accounts[2].key == holding && accounts[3].key == record && accounts[4].key == vault);
    assert(accounts[2].is_writable && accounts[3].is_writable && accounts[4].is_writable);
    assert(accounts[5].key == crate::address::system_program_id());
    assert(accounts[6].key == crate::address::token_program_id());
    assert(accounts[3].data == opened[record].data && accounts[3].owner == program_id);
    assert(accounts[4].data == opened[vault].data && accounts[4].owner == opened[vault].owner);
    assert(accounts[2].data == opened[holding].data);
    assert(crate::instructions::refund::spec_cancel_flags(program_id, accounts) is Ok);
    assert(crate::instructions::refund::spec_cancel_terms(accounts, escrow_id) is Ok);
    assert(crate::instructions::refund::spec_cancel_holdings(accounts) is Ok);
    let decision = spec_cancel_escrow(program_id, accounts, escrow_id);
    assert(decision is Ok);
    decision->Ok_0
}

/// The requests of the Cancel put back what the Initialize took.
proof fn lemma_undone(
    s: State,
    opened: State,
    undo: CancelPlan,
    maker: Address,
    mint_a: Address,
    holding: Address,
    vault: Address,
    record: Address,
    deposit_amount: u64,
    rents: (u64, u64),
)
    requires
        maker != vault && maker != record && vault != record && holding != vault && holding
            != record,
        s[vault] == vacant(),
        s[record] == vacant(),
        is_holding(s, holding, maker, mint_a),
        is_holding(opened, holding, maker, mint_a),
        is_holding(opened, vault, vault, mint_a),
        balance(s, holding) >= deposit_amount,
        s[maker].lamports >= rents.0 + rents.1,
        opened[vault].lamports == rents.0,
        balance(opened, vault) == deposit_amount,
        opened[record].lamports == rents.1,
        opened[holding].data == with_amount(
            s[holding].data,
            (balance(s, holding) - deposit_amount) as u64,
        ),
        opened[maker].lamports == s[maker].lamports - rents.0 - rents.1,
        opened[maker].owner == s[maker].owner,
        maker != holding ==> opened[maker].data == s[maker].data && opened[holding].lamports
            == s[holding].lamports,
        forall|key: Address|
            key != maker && key != holding && key != vault && key != record ==> #[trigger] opened[key]
                == s[key],
        undo.refund == (Transfer {
            source: vault,
            destination: holding,
            authority: vault,
            amount: deposit_amount,
        }),
        undo.close_vault == (crate::actions::CloseTokenAccount {
            account: vault,
            destination: maker,
            authority: vault,
        }),
        undo.close_record == (crate::actions::CloseRecord { record, beneficiary: maker }),
    ensures
        spec_apply_cancel(opened, undo) is Ok,
        forall|key: Address| #[trigger] spec_apply_cancel(opened, undo)->Ok_0[key] == s[key],
{
    let before = s[holding].data;
    let held = balance_of(before);
    lemma_with_amount(before, (held - deposit_amount) as u64);
    let c1 = spec_transfer(opened, undo.refund)->Ok_0;
    assert(spec_transfer(opened, undo.refund) is Ok);
    lemma_with_amount(opened[vault].data, 0);
    lemma_with_amount(opened[holding].data, held);
    lemma_with_amount_again(before, (held - deposit_amount) as u64, held);
    assert(c1[holding].data == before);
    assert(balance(c1, vault) == 0);
    let c2 = spec_close_token_account(c1, undo.close_vault)->Ok_0;
    assert(spec_close_token_account(c1, undo.close_vault) is Ok);
    let c3 = spec_close_record(c2, undo.close_record)->Ok_0;
    assert(spec_close_record(c2, undo.close_record) is Ok);
    assert forall|key: Address| #[trigger] c3[key] == s[key] by {
        if key == maker {
            assert(c3[maker].lamports == s[maker].lamports);
            assert(c3[maker].data == s[maker].data);
        } else if key == holding {
            assert(c3[holding].data == before);
        } else if key == vault {
        } else if key == record {
        } else {
            assert(opened[key] == s[key]);
        }
    }
}

/// An escrow can always be completed by a taker who can pay: on a ledger
/// that stored nothing under the custody address, after an Initialize
/// that the ledger carried out, the ledger carries out the Exchange that
/// the client builds for a taker, provided that the taker's two accounts
/// and the maker's token B account are plain holdings of the right owner
/// and mint, four different accounts together with custody, that the
/// taker holds `receive` of token B, and that the two receiving balances
/// have room.
pub proof fn law_exchange_after_initialize(
    s: State,
    program_id: Address,
    metas: Seq<AccountMeta>,
    escrow_id: u64,
    deposit_amount: u64,
    receive_amount: u64,
    taker: Address,
    taker_a: Address,
    taker_b: Address,
)
    requires
        spec_transact(
            s,
            program_id,
            metas,
            initialize_data(escrow_id, deposit_amount, receive_amount),
        ) is Ok,
        is_vacant(s, metas[4].pubkey),
        ({
            let opened = spec_transact(
                s,
                program_id,
                metas,
                initialize_data(escrow_id, deposit_amount, receive_amount),
            )->Ok_0;
            let maker_b = metas[6].pubkey;
            let vault = metas[4].pubkey;
            &&& is_holding(opened, taker_a, taker, metas[1].pubkey)
            &&& is_holding(opened, taker_b, taker, metas[2].pubkey)
            &&& is_holding(opened, maker_b, metas[0].pubkey, metas[2].pubkey)
            &&& balance(opened, taker_b) >= receive_amount
            &&& balance(opened, maker_b) + receive_amount <= u64::MAX
            &&& balance(opened, taker_a) + deposit_amount <= u64::MAX
            &&& taker_a != taker_b && taker_a != maker_b && taker_b != maker_b
            &&& taker_a != vault && taker_b != vault && maker_b != vault
        }),
    ensures
        ({
            let opened = spec_transact(
                s,
                program_id,
                metas,
                initialize_data(escrow_id, deposit_amount, receive_amount),
            )->Ok_0;
            let exchange = spec_exchange_instruction(
                program_id,
                metas[0].pubkey,
                taker,
                metas[4].pubkey,
                metas[5].pubkey,
                taker_a,
                taker_b,
                metas[6].pubkey,
                metas[1].pubkey,
                metas[2].pubkey,
                escrow_id,
            );
            spec_transact(opened, program_id, exchange.accounts, exchange.data) is Ok
        }),
{
    let maker = metas[0].pubkey;
    let mint_a = metas[1].pubkey;
    let mint_b = metas[2].pubkey;
    let vault = metas[4].pubkey;
    let record = metas[5].pubkey;
    let maker_b = metas[6].pubkey;
    let rents = lemma_opened(s, program_id, metas, escrow_id, deposit_amount, receive_amount);
    let opened = spec_transact(
        s,
        program_id,
        metas,
        initialize_data(escrow_id, deposit_amount, receive_amount),
    )->Ok_0;
    assert(record != taker_a && record != taker_b && record != maker_b);
    let run = lemma_release_admitted(
        opened,
        program_id,
        maker,
        taker,
        mint_a,
        mint_b,
        maker_b,
        taker_a,
        taker_b,
        vault,
        record,
        escrow_id,
    );
    lemma_released(
        opened,
        run,
        maker,
        taker,
        mint_a,
        mint_b,
        maker_b,
        taker_a,
        taker_b,
        vault,
        record,
    );
}

/// The escrow program admits the Exchange that the client builds for a
/// taker whose holdings fit a stored escrow.
proof fn lemma_release_admitted(
    opened: State,
    program_id: Address,
    maker: Address,
    taker: Address,
    mint_a: Address,
    mint_b: Address,
    maker_b: Address,
    taker_a: Address,
    taker_b: Address,
    vault: Address,
    record: Address,
    escrow_id: u64,
) -> (run: ReleasePlan)
    requires
        opened[record].owner == program_id,
        Escrow::decode(opened[record].data) is Some,
        Escrow::decode(opened[record].data)->0.escrow_id == escrow_id,
        Escrow::decode(opened[record].data)->0.maker == maker,
        Escrow::decode(opened[record].data)->0.token_mint_a == mint_a,
        is_holding(opened, taker_a, taker, mint_a),
        is_holding(opened, taker_b, taker, mint_b),
        is_holding(opened, maker_b, maker, mint_b),
        is_holding(opened, vault, vault, mint_a),
        balance(opened, taker_b) >= Escrow::decode(opened[record].data)->0.receive,
        spec_vault_address(program_id, maker, escrow_id) is Some,
        key_of(spec_vault_address(program_id, maker, escrow_id)) == vault,
        spec_escrow_address(program_id, maker, escrow_id) is Some,
        key_of(spec_escrow_address(program_id, maker, escrow_id)) == record,
    ensures
        ({
            let exchange = spec_exchange_instruction(
                program_id,
                maker,
                taker,
                vault,
                record,
                taker_a,
                taker_b,
                maker_b,
                mint_a,
                mint_b,
                escrow_id,
            );
            &&& spec_transact(opened, program_id, exchange.accounts, exchange.data)
                == spec_apply_release(opened, run)
            &&& run.payment == (Transfer {
                source: taker_b,
                destination: maker_b,
                authority: taker,
                amount: Escrow::decode(opened[record].data)->0.receive,
            })
            &&& run.release == (Transfer {
                source: vault,
                destination: taker_a,
                authority: vault,
                amount: balance(opened, vault),
            })
            &&& run.close_vault == (crate::actions::CloseTokenAccount {
                account: vault,
                destination: maker,
                authority: vault,
            })
            &&& run.close_record == (crate::actions::CloseRecord { record, beneficiary: maker })
        }),
{
    let exchange = spec_exchange_instruction(
        program_id,
        maker,
        taker,
        vault,
        record,
        taker_a,
        taker_b,
        maker_b,
        mint_a,
        mint_b,
        escrow_id,
    );
    lemma_instruction_decode_encode(EscrowInstruction::ReleaseFunds { escrow_id });
    let accounts = spec_load(opened, exchange.accounts);
    assert(exchange.accounts.len() == 10);
    assert(accounts.len() == 10);
    assert(accounts[0].key == taker && accounts[0].is_signer);
    assert(accounts[1].key == maker && accounts[2].key == mint_a && accounts[3].key == mint_b);
    assert(accounts[4].key == maker_b && accounts[5].key == taker_a && accounts[6].key == taker_b);
    assert(accounts[7].key == vault && accounts[8].key == record);
    assert(accounts[9].key == crate::address::token_program_id());
    assert(accounts[1].is_writable && accounts[4].is_writable && accounts[5].is_writable);
    assert(accounts[6].is_writable && accounts[7].is_writable && accounts[8].is_writable);
    assert(accounts[4].data == opened[maker_b].data);
    assert(accounts[5].data == opened[taker_a].data);
    assert(accounts[6].data == opened[taker_b].data);
    assert(accounts[7].data == opened[vault].data && accounts[7].owner == opened[vault].owner);
    assert(accounts[8].data == opened[record].data && accounts[8].owner == program_id);
    assert(crate::instructions::take::spec_release_flags(program_id, accounts) is Ok);
    assert(spec_release_terms(accounts, escrow_id) is Ok);
    let terms = spec_release_terms(accounts, escrow_id)->Ok_0;
    assert(spec_release_holdings(accounts, terms.receive) is Ok);
    let custody = spec_release_holdings(accounts, terms.receive)->Ok_0;
    assert(spec_release_derived(program_id, accounts, escrow_id, custody) is Ok);
    let decision = spec_release_funds(program_id, accounts, escrow_id);
    assert(decision is Ok);
    decision->Ok_0
}

/// The ledger carries out the requests of an Exchange between four
/// different plain holdings whose receiving balances have room.
proof fn lemma_released(
    opened: State,
    run: ReleasePlan,
    maker: Address,
    taker: Address,
    mint_a: Address,
    mint_b: Address,
    maker_b: Address,
    taker_a: Address,
    taker_b: Address,
    vault: Address,
    record: Address,
)
    requires
        taker_a != taker_b && taker_a != maker_b && taker_b != maker_b,
        taker_a != vault && taker_b != vault && maker_b != vault,
        record != taker_a && record != taker_b && record != maker_b && record != vault,
        maker != vault && maker != record,
        run.payment.source == taker_b && run.payment.destination == maker_b,
        run.release.source == vault && run.release.destination == taker_a,
        run.release.authority == vault,
        run.release.amount == balance(opened, vault),
        run.close_vault == (crate::actions::CloseTokenAccount {
            account: vault,
            destination: maker,
            authority: vault,
        }),
        run.close_record == (crate::actions::CloseRecord { record, beneficiary: maker }),
        run.payment.authority == taker,
        is_holding(opened, taker_a, taker, mint_a),
        is_holding(opened, taker_b, taker, mint_b),
        is_holding(opened, maker_b, maker, mint_b),
        is_holding(opened, vault, vault, mint_a),
        balance(opened, taker_b) >= run.payment.amount,
        balance(opened, maker_b) + run.payment.amount <= u64::MAX,
        balance(opened, taker_a) + balance(opened, vault) <= u64::MAX,
        opened[maker].lamports + opened[vault].lamports + opened[record].lamports <= u64::MAX,
    ensures
        spec_apply_release(opened, run) is Ok,
{
    let r1 = spec_transfer(opened, run.payment)->Ok_0;
    assert(spec_transfer(opened, run.payment) is Ok);
    lemma_transfer_moves(opened, run.payment);
    assert(r1[vault] == opened[vault]);
    assert(r1[taker_a] == opened[taker_a]);
    let r2 = spec_transfer(r1, run.release)->Ok_0;
    assert(spec_transfer(r1, run.release) is Ok);
    lemma_transfer_moves(r1, run.release);
    lemma_with_amount(r1[vault].data, 0);
    assert(balance(r2, vault) == 0);
    assert(r2[maker].lamports == opened[maker].lamports);
    let r3 = spec_close_token_account(r2, run.close_vault)->Ok_0;
    assert(spec_close_token_account(r2, run.close_vault) is Ok);
    assert(r3[record] == opened[record]);
    assert(spec_close_record(r3, run.close_record) is Ok);
}

/// Whether the instruction is an Initialize of escrow `escrow_id` by
/// `maker`.
pub open spec fn opens(
    metas: Seq<AccountMeta>,
    data: Seq<u8>,
    maker: Address,
    escrow_id: u64,
) -> bool {
    &&& EscrowInstruction::decode(data) is Some
    &&& EscrowInstruction::decode(data)->0 is InitializeEscrow
    &&& EscrowInstruction::decode(data)->0.spec_escrow_id() == escrow_id
    &&& metas[0].pubkey == maker
}

/// Whether the record address derived for `(maker, escrow_id)` is derived
/// for no other maker and id. The derivation hashes its seeds; that two
/// seed lists never meet in one address is a property of the hash that
/// nothing here proves, so the laws that need it take it as a premise.
pub open spec fn record_address_is_its_own(
    program_id: Address,
    maker: Address,
    escrow_id: u64,
) -> bool {
    forall|other: Address, other_id: u64|
        (other != maker || other_id != escrow_id) && (#[trigger] spec_escrow_address(
            program_id,
            other,
            other_id,
        )) is Some ==> key_of(spec_escrow_address(program_id, other, other_id)) != key_of(
            spec_escrow_address(program_id, maker, escrow_id),
        )
}

/// An address that stores no record stores none after an instruction,
/// unless the instruction is the Initialize of the escrow whose record
/// address it is.
proof fn lemma_stays_closed(
    s: State,
    program_id: Address,
    metas: Seq<AccountMeta>,
    data: Seq<u8>,
    maker: Address,
    escrow_id: u64,
)
    requires
        Escrow::decode(
            s[key_of(spec_escrow_address(program_id, maker, escrow_id))].data,
        ) is None,
        record_address_is_its_own(program_id, maker, escrow_id),
        !opens(metas, data, maker, escrow_id),
    ensures
        Escrow::decode(
            spec_outcome(s, program_id, metas, data)[key_of(
                spec_escrow_address(program_id, maker, escrow_id),
            )].data,
        ) is None,
{
    let closed = key_of(spec_escrow_address(program_id, maker, escrow_id));
    if spec_transact(s, program_id, metas, data) is Ok {
        assert(EscrowInstruction::decode(data) is Some);
        lemma_instruction_encode_decode(data);
        match EscrowInstruction::decode(data)->0 {
            EscrowInstruction::InitializeEscrow { escrow_id: id, deposit_amount, receive_amount } => {
                let plan = lemma_initialize_carried_out(
                    s,
                    program_id,
                    metas,
                    id,
                    deposit_amount,
                    receive_amount,
                );
                assert(spec_escrow_address(program_id, metas[0].pubkey, id) is Some);
                assert(metas[5].pubkey != closed);
                assert(spec_open_vault(s, plan) is Ok);
                let s1 = spec_open_vault(s, plan)->Ok_0;
                if plan.open_vault is Some {
                    let open = plan.open_vault->0;
                    assert(spec_create_account(s, open.create) is Ok);
                    let s0 = spec_create_account(s, open.create)->Ok_0;
                    assert(spec_initialize_token_account(s0, open.initialize) is Ok);
                    lemma_fresh_token_data(metas[1].pubkey, metas[4].pubkey);
                }
                assert(s1[closed].data.len() != 113);
                assert(spec_transfer(s1, plan.deposit) is Ok);
                let s2 = spec_transfer(s1, plan.deposit)->Ok_0;
                lemma_transfer_moves(s1, plan.deposit);
                assert(s2[closed].data.len() != 113);
                assert(spec_create_account(s2, plan.create_record) is Ok);
                let s3 = spec_create_account(s2, plan.create_record)->Ok_0;
                assert(s3[closed].data == s2[closed].data);
                assert(spec_write_record(s3, metas[5].pubkey, plan.record) is Ok);
            },
            EscrowInstruction::ReleaseFunds { escrow_id: id } => {
                let plan = lemma_release_carried_out(s, program_id, metas, id);
                assert(spec_transfer(s, plan.payment) is Ok);
                let s1 = spec_transfer(s, plan.payment)->Ok_0;
                lemma_transfer_moves(s, plan.payment);
                assert(spec_transfer(s1, plan.release) is Ok);
                let s2 = spec_transfer(s1, plan.release)->Ok_0;
                lemma_transfer_moves(s1, plan.release);
                assert(s2[closed].data.len() != 113);
                assert(spec_close_token_account(s2, plan.close_vault) is Ok);
                let s3 = spec_close_token_account(s2, plan.close_vault)->Ok_0;
                assert(s3[closed].data.len() != 113);
                assert(spec_close_record(s3, plan.close_record) is Ok);
            },
            EscrowInstruction::CancelEscrow { escrow_id: id } => {
                let plan = lemma_cancel_carried_out(s, program_id, metas, id);
                assert(spec_transfer(s, plan.refund) is Ok);
                let s1 = spec_transfer(s, plan.refund)->Ok_0;
                lemma_transfer_moves(s, plan.refund);
                assert(s1[closed].data.len() != 113);
                assert(spec_close_token_account(s1, plan.close_vault) is Ok);
                let s2 = spec_close_token_account(s1, plan.close_vault)->Ok_0;
                assert(s2[closed].data.len() != 113);
                assert(spec_close_record(s2, plan.close_record) is Ok);
            },
        }
    }
}

/// What `lemma_stays_closed` says of one instruction holds of a sequence.
proof fn lemma_run_stays_closed(
    s: State,
    program_id: Address,
    steps: Seq<(Seq<AccountMeta>, Seq<u8>)>,
    maker: Address,
    escrow_id: u64,
)
    requires
        Escrow::decode(
            s[key_of(spec_escrow_address(program_id, maker, escrow_id))].data,
        ) is None,
        record_address_is_its_own(program_id, maker, escrow_id),
        forall|i: int|
            0 <= i < steps.len() ==> !opens(
                (#[trigger] steps[i]).0,
                steps[i].1,
                maker,
                escrow_id,
            ),
    ensures
        Escrow::decode(
            spec_run(s, program_id, steps)[key_of(
                spec_escrow_address(program_id, maker, escrow_id),
            )].data,
        ) is None,
    decreases steps.len(),
{
    if steps.len() > 0 {
        let earlier = steps.drop_last();
        assert forall|i: int| 0 <= i < earlier.len() implies !opens(
            (#[trigger] earlier[i]).0,
            earlier[i].1,
            maker,
            escrow_id,
        ) by {
            assert(earlier[i] == steps[i]);
        }
        lemma_run_stays_closed(s, program_id, earlier, maker, escrow_id);
        let last = steps[steps.len() - 1];
        assert(!opens(last.0, last.1, maker, escrow_id));
        lemma_stays_closed(
            spec_run(s, program_id, earlier),
            program_id,
            last.0,
            last.1,
            maker,
            escrow_id,
        );
    }
}

/// No completion without an escrow: on a ledger that stores no record
/// under the record address of a maker and an escrow id, and after any
/// sequence of further instructions none of which is an Initialize of
/// that escrow, the ledger carries out no Exchange and no Cancel for
/// them. Instructions in the sequence that the ledger refuses change
/// nothing; those for other escrows are carried out. The law takes as
/// its premise that the record address is derived for this maker and id
/// alone.
pub proof fn law_no_completion_without_escrow(
    s: State,
    program_id: Address,
    between: Seq<(Seq<AccountMeta>, Seq<u8>)>,
    metas: Seq<AccountMeta>,
    data: Seq<u8>,
    escrow_id: u64,
)
    requires
        ends_escrow(data, escrow_id),
        Escrow::decode(
            s[key_of(
                spec_escrow_address(program_id, named_maker(metas, data, escrow_id), escrow_id),
            )].data,
        ) is None,
        record_address_is_its_own(program_id, named_maker(metas, data, escrow_id), escrow_id),
        forall|i: int|
            0 <= i < between.len() ==> !opens(
                (#[trigger] between[i]).0,
                between[i].1,
                named_maker(metas, data, escrow_id),
                escrow_id,
            ),
    ensures
        spec_transact(spec_run(s, program_id, between), program_id, metas, data) is Err,
        spec_outcome(spec_run(s, program_id, between), program_id, metas, data) == spec_run(
            s,
            program_id,
            between,
        ),
{
    let maker = named_maker(metas, data, escrow_id);
    let later = spec_run(s, program_id, between);
    lemma_run_stays_closed(s, program_id, between, maker, escrow_id);
    if spec_transact(later, program_id, metas, data) is Ok {
        lemma_reads_record(later, program_id, metas, data, escrow_id);
        assert(false);
    }
}

/// No double completion, whatever happens in between: once the ledger
/// carried out an Exchange or a Cancel for a maker and an escrow id, it
/// carries out no further Exchange or Cancel for them, also after any
/// sequence of other instructions, until an Initialize opens the escrow
/// again. In particular custody is paid out at most once and the deposit
/// refunded at most once. The law takes as its premise that the record
/// address is derived for this maker and id alone.
pub proof fn law_no_double_completion_later(
    s: State,
    program_id: Address,
    first_metas: Seq<AccountMeta>,
    first_data: Seq<u8>,
    between: Seq<(Seq<AccountMeta>, Seq<u8>)>,
    second_metas: Seq<AccountMeta>,
    second_data: Seq<u8>,
    escrow_id: u64,
)
    requires
        ends_escrow(first_data, escrow_id),
        ends_escrow(second_data, escrow_id),
        named_maker(first_metas, first_data, escrow_id) == named_maker(
            second_metas,
            second_data,
            escrow_id,
        ),
        spec_transact(s, program_id, first_metas, first_data) is Ok,
        record_address_is_its_own(
            program_id,
            named_maker(first_metas, first_data, escrow_id),
            escrow_id,
        ),
        forall|i: int|
            0 <= i < between.len() ==> !opens(
                (#[trigger] between[i]).0,
                between[i].1,
                named_maker(first_metas, first_data, escrow_id),
                escrow_id,
            ),
    ensures
        ({
            let completed = spec_transact(s, program_id, first_metas, first_data)->Ok_0;
            let later = spec_run(completed, program_id, between);
            &&& spec_transact(later, program_id, second_metas, second_data) is Err
            &&& spec_outcome(later, program_id, second_metas, second_data) == later
        }),
{
    let completed = spec_transact(s, program_id, first_metas, first_data)->Ok_0;
    lemma_ended(s, program_id, first_metas, first_data, escrow_id);
    law_no_completion_without_escrow(
        completed,
        program_id,
        between,
        second_metas,
        second_data,
        escrow_id,
    );
}

/// Whether the custody address and the record address derived for
/// `other` and the id differ from those derived for `maker`: the premise
/// of the laws that keep two makers apart.
pub open spec fn derived_apart(
    program_id: Address,
    maker: Address,
    other: Address,
    escrow_id: u64,
) -> bool {
    &&& key_of(spec_vault_address(program_id, other, escrow_id)) != key_of(
        spec_vault_address(program_id, maker, escrow_id),
    )
    &&& key_of(spec_escrow_address(program_id, other, escrow_id)) != key_of(
        spec_escrow_address(program_id, maker, escrow_id),
    )
}

/// An Initialize cannot be pointed at another maker's escrow: where the
/// custody address or the record address that it names is the one derived
/// for another maker under the same id, the ledger does not carry it out,
/// and the escrow program, once the flags, the amounts and the maker's
/// holdings passed, refuses it with `PDADerivationMismatch`. The law
/// takes as its premise that the two makers' derived addresses differ.
pub proof fn law_initialize_refuses_other_addresses(
    s: State,
    program_id: Address,
    metas: Seq<AccountMeta>,
    escrow_id: u64,
    deposit_amount: u64,
    receive_amount: u64,
    other_maker: Address,
)
    requires
        metas.len() >= 10,
        derived_apart(program_id, metas[0].pubkey, other_maker, escrow_id),
        metas[4].pubkey == key_of(spec_vault_address(program_id, other_maker, escrow_id))
            || metas[5].pubkey == key_of(spec_escrow_address(program_id, other_maker, escrow_id)),
    ensures
        ({
            let data = initialize_data(escrow_id, deposit_amount, receive_amount);
            let accounts = spec_load(s, metas);
            &&& spec_transact(s, program_id, metas, data) is Err
            &&& spec_outcome(s, program_id, metas, data) == s
            &&& crate::instructions::make::spec_initialize_flags(
                accounts,
                deposit_amount,
                receive_amount,
            ) is Ok && crate::instructions::make::spec_maker_holdings(accounts, deposit_amount) is Ok
                ==> spec_transact(s, program_id, metas, data) == Err::<
                State,
                crate::runtime::TransactionError,
            >(
                crate::runtime::TransactionError::Program(
                    crate::error::escrow(crate::error::EscrowError::PDADerivationMismatch),
                ),
            )
        }),
{
    let data = initialize_data(escrow_id, deposit_amount, receive_amount);
    lemma_instruction_decode_encode(
        EscrowInstruction::InitializeEscrow { escrow_id, deposit_amount, receive_amount },
    );
    let accounts = spec_load(s, metas);
    assert(accounts[0].key == metas[0].pubkey);
    assert(accounts[4].key == metas[4].pubkey);
    assert(accounts[5].key == metas[5].pubkey);
    assert(spec_initialize_escrow(
        program_id,
        accounts,
        escrow_id,
        deposit_amount,
        receive_amount,
    ) is Err);
    assert(spec_process(program_id, accounts, data) is Err);
}

/// Id isolation, whether or not the instruction is carried out: under the
/// premises of `law_id_isolation`, what the ledger stores afterwards for
/// the escrow of the other maker is what it stored before, but for a
/// refund that a Cancel pays into the other custody account.
pub proof fn law_other_escrow_left_alone(
    s: State,
    program_id: Address,
    metas: Seq<AccountMeta>,
    data: Seq<u8>,
    other_maker: Address,
)
    requires
        ({
            let escrow_id = EscrowInstruction::decode(data)->0.spec_escrow_id();
            let maker = maker_named(metas, data);
            let vault = key_of(spec_vault_address(program_id, other_maker, escrow_id));
            let record = key_of(spec_escrow_address(program_id, other_maker, escrow_id));
            let own_vault = key_of(spec_vault_address(program_id, maker, escrow_id));
            let own_record = key_of(spec_escrow_address(program_id, maker, escrow_id));
            &&& vault != own_vault && vault != own_record
            &&& record != own_vault && record != own_record
            &&& !is_party(metas, data, vault) && !is_party(metas, data, record)
            &&& holds_escrow_or_nothing(s, vault, record)
        }),
    ensures
        ({
            let escrow_id = EscrowInstruction::decode(data)->0.spec_escrow_id();
            left_alone(
                s,
                spec_outcome(s, program_id, metas, data),
                metas,
                data,
                key_of(spec_vault_address(program_id, other_maker, escrow_id)),
                key_of(spec_escrow_address(program_id, other_maker, escrow_id)),
            )
        }),
{
    if spec_transact(s, program_id, metas, data) is Ok {
        law_id_isolation(s, program_id, metas, data, other_maker);
    }
}

} // verus!
