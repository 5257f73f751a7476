use escrow_native::account::AccountView;
use escrow_native::actions::{CloseRecord, CloseTokenAccount, Transfer};
use escrow_native::address::{rent_sysvar_id, system_program_id, token_program_id, Address};
use escrow_native::error::{EscrowError, ProgramError};
use escrow_native::helper::create_token_account_instruction_at;
use escrow_native::instructions::checks::{holding, matching_pair, OwnerRule};
use escrow_native::instructions::make::{
    initialize_flags, initialize_plan_with, maker_holdings,
};
use escrow_native::instructions::refund::{
    cancel_escrow, cancel_flags, cancel_holdings, cancel_terms, CancelPlan,
};
use escrow_native::instructions::take::{
    release_derived_with, release_flags, release_holdings, release_terms,
};
use escrow_native::ledger::{Account, Ledger};
use escrow_native::message::AccountMeta;
use escrow_native::pda::{associated_token_program_id, both, SeedTag, SignerSeeds};
use escrow_native::processor::Plan;
use escrow_native::rent::{deposit_found, rent_readable};
use escrow_native::runtime::{Step, TransactionError};
use escrow_native::state::Escrow;
use escrow_native::token::{fresh_token_bytes, set_amount, TokenAccount};

fn a(seed: u8) -> Address {
    Address { bytes: [seed; 32] }
}

fn custom<T>(error: EscrowError) -> Result<T, ProgramError> {
    Err(ProgramError::Custom(error.code()))
}

fn plain(key: Address, owner: Address, data: Vec<u8>) -> AccountView {
    AccountView { key, owner, lamports: 1, data, is_signer: false, is_writable: true }
}

fn token(key: Address, mint: Address, owner: Address, amount: u64) -> AccountView {
    let mut data = fresh_token_bytes(&mint, &owner);
    set_amount(&mut data, amount);
    plain(key, token_program_id(), data)
}

#[test]
fn test_matching_pair() {
    let found = Some((a(5), 254u8));
    let record = Some((a(6), 253u8));
    assert_eq!(matching_pair(found, record, &a(5), &a(6)), Ok((254, 253)));
    assert_eq!(matching_pair(found, record, &a(6), &a(5)), custom(EscrowError::PDADerivationMismatch));
    assert_eq!(matching_pair(found, record, &a(5), &a(7)), custom(EscrowError::PDADerivationMismatch));
    assert_eq!(matching_pair(found, record, &a(7), &a(6)), custom(EscrowError::PDADerivationMismatch));
    assert_eq!(matching_pair(None, record, &a(5), &a(6)), custom(EscrowError::PDADerivationMismatch));
    assert_eq!(matching_pair(found, None, &a(5), &a(6)), custom(EscrowError::PDADerivationMismatch));
    assert_eq!(both(found, record), Some((a(5), a(6))));
    assert_eq!(both(found, None), None);
    assert_eq!(both(None, record), None);
}

#[test]
fn test_release_derived_with() {
    let vault = TokenAccount { mint: a(3), owner: a(5), amount: 9 };
    let found = Some((a(5), 254u8));
    let record = Some((a(6), 253u8));
    assert_eq!(release_derived_with(found, record, &vault, &a(6)), Ok(254));
    assert_eq!(
        release_derived_with(found, record, &vault, &a(7)),
        custom(EscrowError::PDADerivationMismatch)
    );
    let stranger = TokenAccount { mint: a(3), owner: a(1), amount: 9 };
    assert_eq!(
        release_derived_with(found, record, &stranger, &a(6)),
        custom(EscrowError::InvalidAccountOwner)
    );
    // the authority is looked at before the record's address
    assert_eq!(
        release_derived_with(found, None, &stranger, &a(6)),
        custom(EscrowError::InvalidAccountOwner)
    );
    assert_eq!(
        release_derived_with(None, record, &vault, &a(6)),
        custom(EscrowError::PDADerivationMismatch)
    );
    assert_eq!(
        release_derived_with(found, None, &vault, &a(6)),
        custom(EscrowError::PDADerivationMismatch)
    );
}

#[test]
fn test_rent_pieces() {
    assert_eq!(deposit_found(Some(2_039_280)), Ok(2_039_280));
    assert_eq!(deposit_found(None), Err(ProgramError::InvalidArgument));
    let mut data = 3480u64.to_le_bytes().to_vec();
    data.extend_from_slice(&[0u8; 9]);
    let rent = plain(rent_sysvar_id(), a(7), data);
    assert_eq!(rent_readable(&rent, 165), Ok(()));
    assert_eq!(rent_readable(&rent, usize::MAX), custom(EscrowError::ArithmeticOverflow));
    assert_eq!(rent_readable(&plain(a(1), a(7), vec![0u8; 17]), 165), Err(ProgramError::InvalidArgument));
    assert_eq!(
        rent_readable(&plain(rent_sysvar_id(), a(7), vec![0u8; 16]), 165),
        Err(ProgramError::InvalidArgument)
    );
    assert_eq!(
        rent_readable(&plain(rent_sysvar_id(), a(7), vec![255u8; 17]), 0),
        custom(EscrowError::ArithmeticOverflow)
    );
    assert_eq!(rent_readable(&plain(rent_sysvar_id(), a(7), vec![0u8; 17]), usize::MAX - 128), Ok(()));
}

#[test]
fn test_holding() {
    let account = token(a(9), a(3), a(1), 50);
    let rule = || Some(OwnerRule { owner: a(1), error: EscrowError::InvalidAccountOwner });
    let read = holding(&account, rule(), &a(3), 50).expect("a holding");
    assert_eq!((read.mint, read.owner, read.amount), (a(3), a(1), 50));
    assert!(holding(&account, None, &a(3), 0).is_ok());
    assert_eq!(holding(&account, rule(), &a(3), 51).err(), custom::<()>(EscrowError::InsufficientFunds).err());
    assert_eq!(holding(&account, rule(), &a(4), 0).err(), custom::<()>(EscrowError::InvalidMint).err());
    let other = Some(OwnerRule { owner: a(2), error: EscrowError::InvalidAccountData });
    // the owner is looked at before the mint and the balance
    assert_eq!(holding(&account, other, &a(4), 51).err(), custom::<()>(EscrowError::InvalidAccountData).err());
    let blank = plain(a(9), token_program_id(), vec![0u8; 165]);
    assert_eq!(holding(&blank, None, &a(3), 0).err(), Some(ProgramError::UninitializedAccount));
    let short = plain(a(9), token_program_id(), vec![0u8; 10]);
    assert_eq!(holding(&short, None, &a(3), 0).err(), Some(ProgramError::InvalidAccountData));
}

fn initialize_accounts() -> Vec<AccountView> {
    let mut maker = plain(a(1), system_program_id(), Vec::new());
    maker.is_signer = true;
    vec![
        maker,
        plain(a(3), token_program_id(), Vec::new()),
        plain(a(4), token_program_id(), Vec::new()),
        token(a(7), a(3), a(1), 1_000),
        plain(a(5), system_program_id(), Vec::new()),
        plain(a(6), system_program_id(), Vec::new()),
        token(a(8), a(4), a(1), 0),
        plain(system_program_id(), a(50), Vec::new()),
        plain(token_program_id(), a(50), Vec::new()),
        plain(rent_sysvar_id(), a(51), Vec::new()),
    ]
}

#[test]
fn test_initialize_pieces() {
    let accounts = initialize_accounts();
    assert_eq!(initialize_flags(&accounts, 100, 200), Ok(()));
    assert_eq!(initialize_flags(&accounts, 0, 200), custom(EscrowError::InvalidAmount));
    assert_eq!(initialize_flags(&accounts[..9], 100, 200), Err(ProgramError::NotEnoughAccountKeys));
    assert_eq!(maker_holdings(&accounts, 1_000), Ok(()));
    assert_eq!(maker_holdings(&accounts, 1_001), custom(EscrowError::InsufficientFunds));
    assert_eq!(maker_holdings(&accounts[..9], 1), Err(ProgramError::NotEnoughAccountKeys));

    let plan = initialize_plan_with(&a(42), &accounts, 10, 100, 200, (254, 253), Ok(11), Ok(22))
        .expect("requests");
    let open = plan.open_vault.expect("custody is to be created");
    assert_eq!((open.create.payer, open.create.new_account), (a(1), a(5)));
    assert_eq!((open.create.lamports, open.create.space), (22, 165));
    assert_eq!(open.create.owner, token_program_id());
    assert_eq!((open.initialize.account, open.initialize.mint, open.initialize.owner), (a(5), a(3), a(5)));
    assert_eq!(
        (plan.deposit.source, plan.deposit.destination, plan.deposit.authority, plan.deposit.amount),
        (a(7), a(5), a(1), 100)
    );
    assert_eq!((plan.create_record.payer, plan.create_record.new_account), (a(1), a(6)));
    assert_eq!((plan.create_record.lamports, plan.create_record.space), (11, 113));
    assert_eq!(plan.create_record.owner, a(42));
    assert_eq!(
        plan.record,
        Escrow {
            escrow_id: 10,
            maker: a(1),
            token_mint_a: a(3),
            token_mint_b: a(4),
            receive: 200,
            bump: 253
        }
    );
    assert_eq!((plan.vault_signer.tag, plan.vault_signer.bump), (SeedTag::Vault, 254));
    assert_eq!((plan.record_signer.tag, plan.record_signer.bump), (SeedTag::Escrow, 253));
    assert_eq!((plan.record_signer.maker, plan.record_signer.escrow_id), (a(1), 10));

    let no_rent = Err(ProgramError::InvalidArgument);
    let with = |record_rent, vault_rent| {
        initialize_plan_with(&a(42), &accounts, 10, 100, 200, (254, 253), record_rent, vault_rent)
            .map(|plan| plan.open_vault.is_some())
    };
    assert_eq!(with(no_rent, Ok(22)), Err(ProgramError::InvalidArgument));
    assert_eq!(with(Ok(11), custom(EscrowError::ArithmeticOverflow)), custom(EscrowError::ArithmeticOverflow));
    assert_eq!(with(Ok(11), Ok(22)), Ok(true));

    // custody exists: its deposit is not asked for
    let mut existing = initialize_accounts();
    existing[4] = token(a(5), a(3), a(5), 0);
    let plan = initialize_plan_with(&a(42), &existing, 10, 100, 200, (254, 253), Ok(11), no_rent)
        .expect("requests");
    assert!(plan.open_vault.is_none());
    // the record exists
    let mut live = initialize_accounts();
    live[5].owner = a(42);
    assert_eq!(
        initialize_plan_with(&a(42), &live, 10, 100, 200, (254, 253), Ok(11), Ok(22)).err(),
        Some(ProgramError::AccountAlreadyInitialized)
    );
    assert_eq!(
        initialize_plan_with(&a(42), &live, 10, 100, 200, (254, 253), no_rent, Ok(22)).err(),
        Some(ProgramError::InvalidArgument)
    );
    assert_eq!(
        initialize_plan_with(&a(42), &live[..9], 10, 100, 200, (254, 253), Ok(11), Ok(22)).err(),
        Some(ProgramError::NotEnoughAccountKeys)
    );
}

fn record_bytes() -> Vec<u8> {
    Escrow { escrow_id: 10, maker: a(1), token_mint_a: a(3), token_mint_b: a(4), receive: 200, bump: 253 }
        .to_bytes()
}

fn release_accounts() -> Vec<AccountView> {
    let mut taker = plain(a(2), system_program_id(), Vec::new());
    taker.is_signer = true;
    vec![
        taker,
        plain(a(1), system_program_id(), Vec::new()),
        plain(a(3), token_program_id(), Vec::new()),
        plain(a(4), token_program_id(), Vec::new()),
        token(a(8), a(4), a(1), 0),
        token(a(9), a(3), a(2), 0),
        token(a(10), a(4), a(2), 500),
        token(a(5), a(3), a(5), 100),
        plain(a(6), a(42), record_bytes()),
        plain(token_program_id(), a(50), Vec::new()),
    ]
}

#[test]
fn test_release_pieces() {
    let accounts = release_accounts();
    assert_eq!(release_flags(&a(42), &accounts), Ok(()));
    assert_eq!(release_flags(&a(43), &accounts), custom(EscrowError::InvalidAccountOwner));
    assert_eq!(release_flags(&a(42), &accounts[..9]), Err(ProgramError::NotEnoughAccountKeys));
    let terms = release_terms(&accounts, 10).expect("terms");
    assert_eq!(terms.receive, 200);
    assert_eq!(release_terms(&accounts, 11).err(), custom::<()>(EscrowError::InvalidEscrowId).err());
    assert_eq!(release_terms(&accounts[..9], 10).err(), Some(ProgramError::NotEnoughAccountKeys));
    let vault = release_holdings(&accounts, 200).expect("custody");
    assert_eq!((vault.mint, vault.owner, vault.amount), (a(3), a(5), 100));
    assert_eq!(release_holdings(&accounts, 500).map(|v| v.amount), Ok(100));
    assert_eq!(release_holdings(&accounts, 501).err(), custom::<()>(EscrowError::InsufficientFunds).err());
    assert_eq!(release_holdings(&accounts[..9], 1).err(), Some(ProgramError::NotEnoughAccountKeys));
}

fn cancel_accounts() -> Vec<AccountView> {
    let mut maker = plain(a(1), system_program_id(), Vec::new());
    maker.is_signer = true;
    vec![
        maker,
        plain(a(3), token_program_id(), Vec::new()),
        token(a(7), a(3), a(1), 900),
        plain(a(6), a(42), record_bytes()),
        token(a(5), a(3), a(5), 100),
        plain(system_program_id(), a(50), Vec::new()),
        plain(token_program_id(), a(50), Vec::new()),
    ]
}

#[test]
fn test_cancel_pieces() {
    let accounts = cancel_accounts();
    assert_eq!(cancel_flags(&a(42), &accounts), Ok(()));
    assert_eq!(cancel_flags(&a(42), &accounts[..6]), Err(ProgramError::NotEnoughAccountKeys));
    let mut unsigned = cancel_accounts();
    unsigned[0].is_signer = false;
    assert_eq!(cancel_flags(&a(42), &unsigned), Err(ProgramError::Custom(2)));
    assert_eq!(cancel_flags(&a(42), &unsigned), custom(EscrowError::MissingRequiredSignature));
    assert_eq!(
        cancel_escrow(&a(42), &unsigned, 10).err(),
        Some(ProgramError::Custom(EscrowError::MissingRequiredSignature.code()))
    );
    assert_eq!(cancel_terms(&accounts, 10).map(|terms| terms.bump), Ok(253));
    assert_eq!(cancel_terms(&accounts, 9).err(), custom::<()>(EscrowError::InvalidEscrowId).err());
    assert_eq!(cancel_terms(&accounts[..6], 10).err(), Some(ProgramError::NotEnoughAccountKeys));
    assert_eq!(cancel_holdings(&accounts).map(|vault| vault.amount), Ok(100));
    assert_eq!(cancel_holdings(&accounts[..6]).err(), Some(ProgramError::NotEnoughAccountKeys));
}

fn stored(view: &AccountView) -> Account {
    Account { owner: view.owner, lamports: view.lamports, data: view.data.clone() }
}

#[test]
fn test_ledger_carries_out_a_plan() {
    let mut ledger = Ledger::new();
    assert!(ledger.account(&a(1)).is_vacant());
    for view in cancel_accounts() {
        ledger.set_account(view.key, stored(&view));
    }
    assert!(!ledger.account(&a(1)).is_vacant());
    let metas = [AccountMeta::new(a(7), false), AccountMeta::new_readonly(a(99), true)];
    let loaded = ledger.load(&metas);
    assert_eq!(loaded.len(), 2);
    assert_eq!((loaded[0].key, loaded[0].is_signer, loaded[0].is_writable), (a(7), false, true));
    assert_eq!(loaded[0].data, cancel_accounts()[2].data);
    assert_eq!((loaded[1].owner, loaded[1].lamports, loaded[1].data.len()), (system_program_id(), 0, 0));
    assert!(loaded[1].is_signer && !loaded[1].is_writable);

    let plan = CancelPlan {
        refund: Transfer { source: a(5), destination: a(7), authority: a(5), amount: 100 },
        close_vault: CloseTokenAccount { account: a(5), destination: a(1), authority: a(5) },
        close_record: CloseRecord { record: a(6), beneficiary: a(1) },
        vault_signer: SignerSeeds { tag: SeedTag::Vault, maker: a(1), escrow_id: 10, bump: 254 },
    };
    // a refund of less than the whole balance leaves an account that cannot be closed
    let mut partial = plan;
    partial.refund.amount = 99;
    assert_eq!(
        ledger.apply(&Plan::Cancel(partial)),
        Err(TransactionError::Ledger(Step::CloseTokenAccount))
    );
    assert_eq!(ledger.token_account(&a(5)).expect("custody").amount, 100);
    assert_eq!(ledger.token_account(&a(7)).expect("holding").amount, 900);
    let mut same = plan;
    same.close_record.beneficiary = a(6);
    assert_eq!(ledger.apply(&Plan::Cancel(same)), Err(TransactionError::Ledger(Step::CloseRecord)));
    assert_eq!(ledger.token_account(&a(5)).expect("custody").amount, 100);

    assert_eq!(ledger.apply(&Plan::Cancel(plan)), Ok(()));
    assert_eq!(ledger.token_account(&a(7)).expect("holding").amount, 1_000);
    assert!(ledger.account(&a(5)).is_vacant());
    assert!(ledger.account(&a(6)).is_vacant());
    assert_eq!(ledger.account(&a(1)).lamports, 3);
    assert_eq!(ledger.escrow(&a(6)), Err(ProgramError::InvalidAccountData));
}

#[test]
fn test_create_token_account_instruction_at() {
    let instruction = create_token_account_instruction_at(&a(1), &a(2), &a(3), &a(9));
    assert_eq!(instruction.program_id, associated_token_program_id());
    assert_eq!(instruction.data, vec![1u8]);
    let metas: Vec<(Address, bool, bool)> =
        instruction.accounts.iter().map(|m| (m.pubkey, m.is_signer, m.is_writable)).collect();
    assert_eq!(
        metas,
        vec![
            (a(1), true, true),
            (a(9), false, true),
            (a(2), false, false),
            (a(3), false, false),
            (system_program_id(), false, false),
            (token_program_id(), false, false),
        ]
    );
}
