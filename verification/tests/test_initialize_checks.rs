#![allow(dead_code)]
#![allow(unused_imports)]

use escrow_native::account::AccountView;
use escrow_native::actions::{CloseRecord, CreateAccount};
use escrow_native::address::Address;
use escrow_native::error::{EscrowError, ProgramError};
use escrow_native::helper::{
    create_cancel_instruction, create_exchange_instruction, create_initialize_escrow_instruction,
};
use escrow_native::instructions::make::initialize_escrow;
use escrow_native::instructions::refund::cancel_escrow;
use escrow_native::instructions::take::release_funds;
use escrow_native::ledger::{Account, Ledger};
use escrow_native::message::{AccountMeta, Instruction};
use escrow_native::pda::{escrow_address, vault_address, SeedTag};
use escrow_native::processor::{Plan, Process};
use escrow_native::state::Escrow;
use escrow_native::runtime::{Step, TransactionError};
use solana_program::account_info::AccountInfo;
use solana_program::program_option::COption;
use solana_program::program_pack::Pack;
use solana_program::pubkey::Pubkey;
use spl_associated_token_account::get_associated_token_address;
use spl_token::amount_to_ui_amount;
use spl_token::processor::Processor;
use spl_token::state::{Account as TokenState, AccountState, Mint};

// Holds all setup data needed for an escrow test
pub struct EscrowTestSetup {
    pub ledger: Ledger,
    pub program_id: Address,
    pub maker: Address,
    pub taker: Address,
    pub maker_token_acc_a: Address,
    pub maker_token_acc_b: Address,
    pub taker_token_acc_a: Address,
    pub taker_token_acc_b: Address,
    pub mint_a_pubkey: Address,
    pub mint_b_pubkey: Address,
    pub vault_pda: Address,
    pub escrow_pda: Address,
    pub vault_bump: u8,
    pub escrow_bump: u8,
    pub token_a_decimals: u8,
    pub token_b_decimals: u8,
}

/// Holds escrow transaction parameters
pub struct EscrowParams {
    pub escrow_id: u64,
    pub deposit_amount: u64,
    pub receive_amount: u64,
}

fn addr(key: &Pubkey) -> Address {
    Address { bytes: key.to_bytes() }
}

fn wallet(lamports: u64) -> Account {
    Account { owner: addr(&solana_program::system_program::id()), lamports, data: Vec::new() }
}

fn mint_account(authority: &Pubkey, decimals: u8) -> Account {
    let mut data = vec![0u8; Mint::LEN];
    let mint = Mint {
        mint_authority: COption::Some(*authority),
        supply: 0,
        decimals,
        is_initialized: true,
        freeze_authority: COption::Some(*authority),
    };
    Mint::pack(mint, &mut data).expect("mint packs");
    Account { owner: addr(&spl_token::id()), lamports: 1_461_600, data }
}

fn token_account(mint: &Pubkey, owner: &Pubkey, amount: u64) -> Account {
    let mut data = vec![0u8; TokenState::LEN];
    let state = TokenState {
        mint: *mint,
        owner: *owner,
        amount,
        delegate: COption::None,
        state: AccountState::Initialized,
        is_native: COption::None,
        delegated_amount: 0,
        close_authority: COption::None,
    };
    TokenState::pack(state, &mut data).expect("token account packs");
    Account { owner: addr(&spl_token::id()), lamports: 2_039_280, data }
}

fn rent_account() -> Account {
    let mut data = Vec::new();
    data.extend_from_slice(&3480u64.to_le_bytes());
    data.extend_from_slice(&2.0f64.to_le_bytes());
    data.push(50);
    Account { owner: addr(&Pubkey::new_from_array([7u8; 32])), lamports: 1_009_200, data }
}

/// Perform complete test setup
pub fn setup_escrow_test(escrow_id: u64) -> Result<EscrowTestSetup, String> {
    let program = Pubkey::new_from_array([42u8; 32]);
    let maker = Pubkey::new_from_array([1u8; 32]);
    let taker = Pubkey::new_from_array([2u8; 32]);
    let mint_a = Pubkey::new_from_array([3u8; 32]);
    let mint_b = Pubkey::new_from_array([4u8; 32]);
    let mut ledger = Ledger::new();
    ledger.set_account(addr(&maker), wallet(5_000_000_000));
    ledger.set_account(addr(&taker), wallet(5_000_000_000));
    ledger.set_account(addr(&solana_program::sysvar::rent::id()), rent_account());
    let initial_amount = 1_000_000_000;
    ledger.set_account(addr(&mint_a), mint_account(&maker, 9));
    ledger.set_account(addr(&mint_b), mint_account(&maker, 9));
    let maker_token_acc_a = get_associated_token_address(&maker, &mint_a);
    let maker_token_acc_b = get_associated_token_address(&maker, &mint_b);
    let taker_token_acc_a = get_associated_token_address(&taker, &mint_a);
    let taker_token_acc_b = get_associated_token_address(&taker, &mint_b);
    ledger.set_account(addr(&maker_token_acc_a), token_account(&mint_a, &maker, initial_amount));
    ledger.set_account(addr(&maker_token_acc_b), token_account(&mint_b, &maker, 0));
    ledger.set_account(addr(&taker_token_acc_b), token_account(&mint_b, &taker, initial_amount));
    ledger.set_account(addr(&taker_token_acc_a), token_account(&mint_a, &taker, 0));
    let program_id = addr(&program);
    let (vault_pda, vault_bump) =
        vault_address(&program_id, &addr(&maker), escrow_id).ok_or("no vault address")?;
    let (escrow_pda, escrow_bump) =
        escrow_address(&program_id, &addr(&maker), escrow_id).ok_or("no escrow address")?;
    Ok(EscrowTestSetup {
        ledger,
        program_id,
        maker: addr(&maker),
        taker: addr(&taker),
        maker_token_acc_a: addr(&maker_token_acc_a),
        maker_token_acc_b: addr(&maker_token_acc_b),
        taker_token_acc_a: addr(&taker_token_acc_a),
        taker_token_acc_b: addr(&taker_token_acc_b),
        mint_a_pubkey: addr(&mint_a),
        mint_b_pubkey: addr(&mint_b),
        vault_pda,
        escrow_pda,
        vault_bump,
        escrow_bump,
        token_a_decimals: 9,
        token_b_decimals: 9,
    })
}

/// Send and verify transaction
pub fn send_transaction(ledger: &mut Ledger, instruction: Instruction) -> Result<(), String> {
    ledger
        .process_instruction(&instruction.program_id, &instruction.accounts, &instruction.data)
        .map_err(|e: TransactionError| format!("Transaction failed: {:?}", e))
}

pub fn initialize_instruction(set_up: &EscrowTestSetup, params: &EscrowParams) -> Instruction {
    create_initialize_escrow_instruction(
        &set_up.maker,
        params.escrow_id,
        params.deposit_amount,
        params.receive_amount,
        &set_up.program_id,
        &set_up.mint_a_pubkey,
        &set_up.mint_b_pubkey,
        &set_up.vault_pda,
        &set_up.escrow_pda,
        &set_up.maker_token_acc_a,
        &set_up.maker_token_acc_b,
    )
}

pub fn refund_instruction(set_up: &EscrowTestSetup, params: &EscrowParams) -> Instruction {
    create_cancel_instruction(
        &set_up.program_id,
        &set_up.maker,
        &set_up.mint_a_pubkey,
        &set_up.vault_pda,
        &set_up.escrow_pda,
        &set_up.maker_token_acc_a,
        params.escrow_id,
    )
}

pub fn release_instruction(set_up: &EscrowTestSetup, params: &EscrowParams) -> Instruction {
    create_exchange_instruction(
        &set_up.program_id,
        &set_up.maker,
        &set_up.taker,
        &set_up.vault_pda,
        &set_up.escrow_pda,
        &set_up.taker_token_acc_a,
        &set_up.taker_token_acc_b,
        &set_up.maker_token_acc_b,
        &set_up.mint_a_pubkey,
        &set_up.mint_b_pubkey,
        params.escrow_id,
    )
}

fn amount_of(ledger: &Ledger, key: &Address) -> u64 {
    ledger.token_account(key).expect("a token account").amount
}

/// Verify vault account
pub fn verify_vault(
    ledger: &Ledger,
    vault_pda: &Address,
    expected_amount: u64,
    expected_mint: &Address,
) -> Result<(), String> {
    let vault_data = ledger.token_account(vault_pda).map_err(|e| format!("{:?}", e))?;
    assert_eq!(vault_data.amount, expected_amount, "Vault amount mismatch");
    assert_eq!(vault_data.mint, *expected_mint, "Vault mint mismatch");
    // the real token program reads the custody account the same way
    let raw = ledger.account(vault_pda);
    let real = TokenState::unpack(&raw.data).map_err(|e| format!("{:?}", e))?;
    assert_eq!(real.amount, expected_amount);
    assert_eq!(real.owner.to_bytes(), vault_pda.bytes);
    assert_eq!(real.state, AccountState::Initialized);
    Ok(())
}

/// Verify escrow state
pub fn verify_escrow(
    ledger: &Ledger,
    escrow_pda: &Address,
    expected_maker: &Address,
    expected_mint_a: &Address,
    expected_mint_b: &Address,
    expected_escrow_id: u64,
) -> Result<(), String> {
    let escrow_data = ledger.escrow(escrow_pda).map_err(|e| format!("{:?}", e))?;
    assert_eq!(escrow_data.escrow_id, expected_escrow_id, "Escrow ID mismatch");
    assert_eq!(escrow_data.maker, *expected_maker, "Maker mismatch");
    assert_eq!(escrow_data.token_mint_a, *expected_mint_a, "Mint A mismatch");
    assert_eq!(escrow_data.token_mint_b, *expected_mint_b, "Mint B mismatch");
    Ok(())
}

/// Everything that the ledger stores for the accounts of the setup.
fn snapshot(set_up: &EscrowTestSetup) -> Vec<(Address, u64, Vec<u8>)> {
    let keys = [
        set_up.maker,
        set_up.taker,
        set_up.maker_token_acc_a,
        set_up.maker_token_acc_b,
        set_up.taker_token_acc_a,
        set_up.taker_token_acc_b,
        set_up.mint_a_pubkey,
        set_up.mint_b_pubkey,
        set_up.vault_pda,
        set_up.escrow_pda,
    ];
    keys.iter()
        .map(|key| {
            let account = set_up.ledger.account(key);
            (account.owner, account.lamports, account.data)
        })
        .collect()
}

fn custom(error: EscrowError) -> Result<(), TransactionError> {
    Err(TransactionError::Program(ProgramError::Custom(error.code())))
}

fn fresh(escrow_id: u64) -> (EscrowTestSetup, EscrowParams) {
    let params = EscrowParams { escrow_id, deposit_amount: 100_000_000, receive_amount: 200_000_000 };
    (setup_escrow_test(escrow_id).expect("Setup failed"), params)
}

fn run(set_up: &mut EscrowTestSetup, instruction: &Instruction) -> Result<(), TransactionError> {
    set_up.ledger.process_instruction(
        &instruction.program_id,
        &instruction.accounts,
        &instruction.data,
    )
}

#[test]
fn test_initialize_account_not_writable() {
    for position in [3usize, 4, 5] {
        let (mut set_up, params) = fresh(20);
        let mut instruction = initialize_instruction(&set_up, &params);
        instruction.accounts[position].is_writable = false;
        assert_eq!(run(&mut set_up, &instruction), custom(EscrowError::InvalidAccountData));
    }
}

#[test]
fn test_initialize_wrong_token_program() {
    let (mut set_up, params) = fresh(20);
    let mut instruction = initialize_instruction(&set_up, &params);
    instruction.accounts[8].pubkey = set_up.program_id;
    assert_eq!(run(&mut set_up, &instruction), custom(EscrowError::IncorrectProgramId));
}

#[test]
fn test_initialize_token_b_account_outside_token_program() {
    let (mut set_up, params) = fresh(20);
    let mut account = set_up.ledger.account(&set_up.maker_token_acc_b);
    account.owner = set_up.program_id;
    set_up.ledger.set_account(set_up.maker_token_acc_b, account);
    let instruction = initialize_instruction(&set_up, &params);
    assert_eq!(run(&mut set_up, &instruction), custom(EscrowError::IncorrectProgramId));
}

#[test]
fn test_initialize_token_a_account_of_another_owner() {
    let (mut set_up, params) = fresh(20);
    let mut instruction = initialize_instruction(&set_up, &params);
    instruction.accounts[3].pubkey = set_up.taker_token_acc_a;
    assert_eq!(run(&mut set_up, &instruction), custom(EscrowError::InvalidAccountOwner));
}

#[test]
fn test_initialize_token_b_account_wrong() {
    let (mut set_up, params) = fresh(20);
    let mut instruction = initialize_instruction(&set_up, &params);
    instruction.accounts[6].pubkey = set_up.taker_token_acc_b;
    assert_eq!(run(&mut set_up, &instruction), custom(EscrowError::InvalidAccountOwner));
    let mut instruction = initialize_instruction(&set_up, &params);
    instruction.accounts[6].pubkey = set_up.maker_token_acc_a;
    assert_eq!(run(&mut set_up, &instruction), custom(EscrowError::InvalidMint));
    let mut instruction = initialize_instruction(&set_up, &params);
    instruction.accounts[6].pubkey = set_up.mint_b_pubkey;
    assert_eq!(
        run(&mut set_up, &instruction),
        Err(TransactionError::Program(ProgramError::InvalidAccountData))
    );
}

#[test]
fn test_initialize_address_mismatch() {
    let (mut set_up, params) = fresh(20);
    let elsewhere = Address { bytes: [77u8; 32] };
    let mut instruction = initialize_instruction(&set_up, &params);
    instruction.accounts[4].pubkey = elsewhere;
    assert_eq!(run(&mut set_up, &instruction), custom(EscrowError::PDADerivationMismatch));
    let mut instruction = initialize_instruction(&set_up, &params);
    instruction.accounts[5].pubkey = elsewhere;
    assert_eq!(run(&mut set_up, &instruction), custom(EscrowError::PDADerivationMismatch));
    // the addresses of another id are not those of this one
    let other = setup_escrow_test(21).expect("Setup failed");
    let mut instruction = initialize_instruction(&set_up, &params);
    instruction.accounts[4].pubkey = other.vault_pda;
    instruction.accounts[5].pubkey = other.escrow_pda;
    assert_eq!(run(&mut set_up, &instruction), custom(EscrowError::PDADerivationMismatch));
    // the two addresses of one escrow cannot stand for each other
    let mut instruction = initialize_instruction(&set_up, &params);
    instruction.accounts[4].pubkey = set_up.escrow_pda;
    instruction.accounts[5].pubkey = set_up.vault_pda;
    assert_eq!(run(&mut set_up, &instruction), custom(EscrowError::PDADerivationMismatch));
}

#[test]
fn test_initialize_rent_account() {
    let invalid = Err(TransactionError::Program(ProgramError::InvalidArgument));
    let (mut set_up, params) = fresh(20);
    let mut instruction = initialize_instruction(&set_up, &params);
    instruction.accounts[9].pubkey = set_up.maker;
    assert_eq!(run(&mut set_up, &instruction), invalid);

    let rent_key = addr(&solana_program::sysvar::rent::id());
    let instruction = initialize_instruction(&set_up, &params);
    let mut rent = set_up.ledger.account(&rent_key);
    rent.data.truncate(16);
    set_up.ledger.set_account(rent_key, rent);
    assert_eq!(run(&mut set_up, &instruction), invalid);

    let mut rent = rent_account();
    rent.data[0..8].copy_from_slice(&(u64::MAX / 241 + 1).to_le_bytes());
    set_up.ledger.set_account(rent_key, rent);
    assert_eq!(run(&mut set_up, &instruction), custom(EscrowError::ArithmeticOverflow));

    // the charge for the record fits, the one for the custody account does not
    let mut rent = rent_account();
    rent.data[0..8].copy_from_slice(&(u64::MAX / 241).to_le_bytes());
    set_up.ledger.set_account(rent_key, rent);
    assert_eq!(run(&mut set_up, &instruction), custom(EscrowError::ArithmeticOverflow));
}

#[test]
fn test_initialize_too_few_accounts() {
    let (mut set_up, params) = fresh(20);
    let mut instruction = initialize_instruction(&set_up, &params);
    instruction.accounts.pop();
    assert_eq!(
        run(&mut set_up, &instruction),
        Err(TransactionError::Program(ProgramError::NotEnoughAccountKeys))
    );
    instruction.accounts.clear();
    assert_eq!(
        run(&mut set_up, &instruction),
        Err(TransactionError::Program(ProgramError::NotEnoughAccountKeys))
    );
}

#[test]
fn test_undecodable_instruction_is_refused_first() {
    let (mut set_up, params) = fresh(20);
    let mut instruction = initialize_instruction(&set_up, &params);
    instruction.accounts.clear();
    let refused = Err(TransactionError::Program(ProgramError::InvalidAccountData));
    for data in [vec![], vec![3u8, 0, 0, 0, 0, 0, 0, 0, 0], vec![0u8; 24], vec![0u8; 26], vec![1u8; 8]] {
        instruction.data = data;
        assert_eq!(run(&mut set_up, &instruction), refused);
    }
}

#[test]
fn test_initialize_payer_cannot_fund() {
    let (mut set_up, params) = fresh(20);
    set_up.ledger.set_account(set_up.maker, wallet(2_039_279));
    let before = snapshot(&set_up);
    let instruction = initialize_instruction(&set_up, &params);
    assert_eq!(run(&mut set_up, &instruction), Err(TransactionError::Ledger(Step::CreateAccount)));
    assert_eq!(snapshot(&set_up), before);
    // enough for the custody account, not for the record: nothing stays behind
    set_up.ledger.set_account(set_up.maker, wallet(2_039_280 + 1_677_359));
    let before = snapshot(&set_up);
    assert_eq!(run(&mut set_up, &instruction), Err(TransactionError::Ledger(Step::CreateAccount)));
    assert_eq!(snapshot(&set_up), before);
    set_up.ledger.set_account(set_up.maker, wallet(2_039_280 + 1_677_360));
    assert_eq!(run(&mut set_up, &instruction), Ok(()));
    assert_eq!(set_up.ledger.account(&set_up.maker).lamports, 0);
}

#[test]
fn test_initialize_record_address_in_use() {
    let (mut set_up, params) = fresh(20);
    set_up.ledger.set_account(set_up.escrow_pda, wallet(1));
    let before = snapshot(&set_up);
    let instruction = initialize_instruction(&set_up, &params);
    assert_eq!(run(&mut set_up, &instruction), Err(TransactionError::Ledger(Step::CreateAccount)));
    assert_eq!(snapshot(&set_up), before);
}

#[test]
fn test_initialize_into_existing_custody_adds_to_it() {
    let (mut set_up, params) = fresh(20);
    let mint_a = Pubkey::new_from_array(set_up.mint_a_pubkey.bytes);
    let vault = Pubkey::new_from_array(set_up.vault_pda.bytes);
    set_up.ledger.set_account(set_up.vault_pda, token_account(&mint_a, &vault, 5));
    let instruction = initialize_instruction(&set_up, &params);
    assert_eq!(run(&mut set_up, &instruction), Ok(()));
    assert_eq!(amount_of(&set_up.ledger, &set_up.vault_pda), 100_000_005);
    assert_eq!(amount_of(&set_up.ledger, &set_up.maker_token_acc_a), 900_000_000);
    // only the record was paid for
    assert_eq!(set_up.ledger.account(&set_up.maker).lamports, 5_000_000_000 - 1_677_360);
}

#[test]
fn test_initialize_whole_balance() {
    let (mut set_up, _) = fresh(20);
    let params = EscrowParams { escrow_id: 20, deposit_amount: 1_000_000_000, receive_amount: 1 };
    let instruction = initialize_instruction(&set_up, &params);
    assert_eq!(run(&mut set_up, &instruction), Ok(()));
    assert_eq!(amount_of(&set_up.ledger, &set_up.vault_pda), 1_000_000_000);
    assert_eq!(amount_of(&set_up.ledger, &set_up.maker_token_acc_a), 0);
    let over = EscrowParams { escrow_id: 21, deposit_amount: 1, receive_amount: 1 };
    let mut next = setup_escrow_test(21).expect("Setup failed");
    next.ledger.set_account(next.maker_token_acc_a, set_up.ledger.account(&set_up.maker_token_acc_a));
    let instruction = initialize_instruction(&next, &over);
    assert_eq!(run(&mut next, &instruction), custom(EscrowError::InsufficientFunds));
}

fn view(ledger: &Ledger, meta: &AccountMeta) -> AccountView {
    let account = ledger.account(&meta.pubkey);
    AccountView {
        key: meta.pubkey,
        owner: account.owner,
        lamports: account.lamports,
        data: account.data,
        is_signer: meta.is_signer,
        is_writable: meta.is_writable,
    }
}

#[test]
fn test_initialize_plan() {
    let (set_up, params) = fresh(20);
    let instruction = initialize_instruction(&set_up, &params);
    let accounts: Vec<AccountView> =
        instruction.accounts.iter().map(|meta| view(&set_up.ledger, meta)).collect();
    let plan = initialize_escrow(&set_up.program_id, &accounts, 20, 100_000_000, 200_000_000)
        .expect("admitted");
    let open = plan.open_vault.expect("custody is to be created");
    assert_eq!(open.create.payer, set_up.maker);
    assert_eq!(open.create.new_account, set_up.vault_pda);
    assert_eq!(open.create.lamports, 2_039_280);
    assert_eq!(open.create.space, 165);
    assert_eq!(open.create.owner.bytes, spl_token::id().to_bytes());
    assert_eq!(open.initialize.account, set_up.vault_pda);
    assert_eq!(open.initialize.mint, set_up.mint_a_pubkey);
    assert_eq!(open.initialize.owner, set_up.vault_pda);
    assert_eq!(plan.deposit.source, set_up.maker_token_acc_a);
    assert_eq!(plan.deposit.destination, set_up.vault_pda);
    assert_eq!(plan.deposit.authority, set_up.maker);
    assert_eq!(plan.deposit.amount, 100_000_000);
    assert_eq!(plan.create_record.payer, set_up.maker);
    assert_eq!(plan.create_record.new_account, set_up.escrow_pda);
    assert_eq!(plan.create_record.lamports, 1_677_360);
    assert_eq!(plan.create_record.space, 113);
    assert_eq!(plan.create_record.owner, set_up.program_id);
    assert_eq!(
        plan.record,
        Escrow {
            escrow_id: 20,
            maker: set_up.maker,
            token_mint_a: set_up.mint_a_pubkey,
            token_mint_b: set_up.mint_b_pubkey,
            receive: 200_000_000,
            bump: set_up.escrow_bump,
        }
    );
    assert_eq!(plan.vault_signer.tag, SeedTag::Vault);
    assert_eq!(plan.vault_signer.bump, set_up.vault_bump);
    assert_eq!(plan.record_signer.tag, SeedTag::Escrow);
    assert_eq!(plan.record_signer.bump, set_up.escrow_bump);
    // the seeds with their bump derive the two addresses
    let seeds = plan.vault_signer.seeds();
    let slices: Vec<&[u8]> = seeds.iter().map(|seed| seed.as_slice()).collect();
    let program = Pubkey::new_from_array(set_up.program_id.bytes);
    let derived = Pubkey::create_program_address(&slices, &program).expect("an address");
    assert_eq!(derived.to_bytes(), set_up.vault_pda.bytes);
    let seeds = plan.record_signer.seeds();
    let slices: Vec<&[u8]> = seeds.iter().map(|seed| seed.as_slice()).collect();
    let derived = Pubkey::create_program_address(&slices, &program).expect("an address");
    assert_eq!(derived.to_bytes(), set_up.escrow_pda.bytes);
    // the decision changed nothing
    assert!(set_up.ledger.account(&set_up.vault_pda).data.is_empty());
}

#[test]
fn test_release_and_cancel_plans() {
    let (mut set_up, params) = fresh(20);
    let instruction = initialize_instruction(&set_up, &params);
    assert_eq!(run(&mut set_up, &instruction), Ok(()));

    let instruction = release_instruction(&set_up, &params);
    let accounts: Vec<AccountView> =
        instruction.accounts.iter().map(|meta| view(&set_up.ledger, meta)).collect();
    let plan = release_funds(&set_up.program_id, &accounts, 20).expect("admitted");
    assert_eq!(plan.payment.source, set_up.taker_token_acc_b);
    assert_eq!(plan.payment.destination, set_up.maker_token_acc_b);
    assert_eq!(plan.payment.authority, set_up.taker);
    assert_eq!(plan.payment.amount, 200_000_000);
    assert_eq!(plan.release.source, set_up.vault_pda);
    assert_eq!(plan.release.destination, set_up.taker_token_acc_a);
    assert_eq!(plan.release.authority, set_up.vault_pda);
    assert_eq!(plan.release.amount, 100_000_000);
    assert_eq!(plan.close_vault.account, set_up.vault_pda);
    assert_eq!(plan.close_vault.destination, set_up.maker);
    assert_eq!(plan.close_vault.authority, set_up.vault_pda);
    assert_eq!(plan.close_record.record, set_up.escrow_pda);
    assert_eq!(plan.close_record.beneficiary, set_up.maker);
    assert_eq!(plan.vault_signer.bump, set_up.vault_bump);
    match Process::process(&set_up.program_id, &accounts, &instruction.data) {
        Ok(Plan::Release(same)) => assert_eq!(same.release.amount, 100_000_000),
        other => panic!("not a release plan: {:?}", other),
    }

    let instruction = refund_instruction(&set_up, &params);
    let accounts: Vec<AccountView> =
        instruction.accounts.iter().map(|meta| view(&set_up.ledger, meta)).collect();
    let plan = cancel_escrow(&set_up.program_id, &accounts, 20).expect("admitted");
    assert_eq!(plan.refund.source, set_up.vault_pda);
    assert_eq!(plan.refund.destination, set_up.maker_token_acc_a);
    assert_eq!(plan.refund.authority, set_up.vault_pda);
    assert_eq!(plan.refund.amount, 100_000_000);
    assert_eq!(plan.close_vault.account, set_up.vault_pda);
    assert_eq!(plan.close_vault.destination, set_up.maker);
    assert_eq!(plan.close_record.record, set_up.escrow_pda);
    assert_eq!(plan.close_record.beneficiary, set_up.maker);
    assert_eq!(plan.vault_signer.bump, set_up.vault_bump);
}

// An Initialize cannot be pointed at the escrow of another maker.
#[test]
fn test_initialize_with_addresses_of_another_maker() {
    let (mut set_up, params) = fresh(5);
    let (other_vault, _) =
        vault_address(&set_up.program_id, &set_up.taker, 5).expect("vault address");
    let (other_record, _) =
        escrow_address(&set_up.program_id, &set_up.taker, 5).expect("record address");
    assert_ne!(other_vault, set_up.vault_pda);
    assert_ne!(other_record, set_up.escrow_pda);
    let other = create_initialize_escrow_instruction(
        &set_up.taker,
        5,
        400_000_000,
        7,
        &set_up.program_id,
        &set_up.mint_b_pubkey,
        &set_up.mint_a_pubkey,
        &other_vault,
        &other_record,
        &set_up.taker_token_acc_b,
        &set_up.taker_token_acc_a,
    );
    assert_eq!(run(&mut set_up, &other), Ok(()));
    let record_before = set_up.ledger.account(&other_record).data;
    let vault_before = set_up.ledger.account(&other_vault).data;
    let before = snapshot(&set_up);
    for (vault, record) in [
        (other_vault, other_record),
        (other_vault, set_up.escrow_pda),
        (set_up.vault_pda, other_record),
    ] {
        let mut instruction = initialize_instruction(&set_up, &params);
        instruction.accounts[4].pubkey = vault;
        instruction.accounts[5].pubkey = record;
        assert_eq!(run(&mut set_up, &instruction), custom(EscrowError::PDADerivationMismatch));
        assert_eq!(EscrowError::PDADerivationMismatch.code(), 1);
    }
    assert_eq!(snapshot(&set_up), before);
    // the maker's own Initialize leaves the other escrow as it was
    let instruction = initialize_instruction(&set_up, &params);
    assert_eq!(run(&mut set_up, &instruction), Ok(()));
    assert_eq!(set_up.ledger.account(&other_record).data, record_before);
    assert_eq!(set_up.ledger.account(&other_vault).data, vault_before);
    assert_eq!(amount_of(&set_up.ledger, &other_vault), 400_000_000);
}
