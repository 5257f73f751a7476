//! Initialize: the maker locks token A and states what it wants of token B.

use vstd::prelude::*;
use crate::account::{views, AccountSpec, AccountView};
use crate::actions::{CreateAccount, InitializeTokenAccount, Transfer};
use crate::address::{token_program_id, Address};
use crate::error::{escrow, EscrowError, ProgramError};
use crate::instructions::checks::{derived_pair, holding, spec_derived_pair, spec_holding, OwnerRule};
use crate::pda::{SeedTag, SignerSeeds};
use crate::rent::{rent_exempt_balance, spec_rent_exempt_balance};
use crate::state::Escrow;

verus! {

/// Creation of the custody account: a system account of 165 bytes owned by
/// the token program, then a token account for mint A under the derived
/// authority.
#[derive(Clone, Copy, Debug)]
pub struct OpenVault {
    /// The system account to create.
    pub create: CreateAccount,
    /// Its initialisation as a token account.
    pub initialize: InitializeTokenAccount,
}

/// What an admitted Initialize asks of the ledger, in this order: open the
/// custody account unless it exists, move the deposit into it, create the
/// record account, write the record.
#[derive(Clone, Copy, Debug)]
pub struct InitializePlan {
    /// `None` where the custody account already holds data.
    pub open_vault: Option<OpenVault>,
    /// The deposit, from the maker's token A account into custody.
    pub deposit: Transfer,
    /// The record account: 113 bytes owned by the escrow program.
    pub create_record: CreateAccount,
    /// The terms, to be written to the record account.
    pub record: Escrow,
    /// Derivation proof of the custody address, which signs its creation.
    pub vault_signer: SignerSeeds,
    /// Derivation proof of the record address, which signs its creation.
    pub record_signer: SignerSeeds,
}

/// Flags, programs and amounts of an Initialize. Accounts by position:
/// 0 maker (signer), 1 mint A, 2 mint B, 3 maker's token A account
/// (writable), 4 custody account (writable), 5 escrow record (writable),
/// 6 maker's token B account, 7 system program, 8 token program, 9 rent
/// sysvar.
pub open spec fn spec_initialize_flags(
    accounts: Seq<AccountSpec>,
    deposit_amount: u64,
    receive_amount: u64,
) -> Result<(), ProgramError> {
    if accounts.len() < 10 {
        Err(ProgramError::NotEnoughAccountKeys)
    } else if !accounts[0].is_signer {
        Err(escrow(EscrowError::MissingRequiredSignature))
    } else if !accounts[3].is_writable || !accounts[4].is_writable || !accounts[5].is_writable {
        Err(escrow(EscrowError::InvalidAccountData))
    } else if accounts[8].key != token_program_id() {
        Err(escrow(EscrowError::IncorrectProgramId))
    } else if accounts[6].owner != token_program_id() {
        Err(escrow(EscrowError::IncorrectProgramId))
    } else if deposit_amount == 0 || receive_amount == 0 {
        Err(escrow(EscrowError::InvalidAmount))
    } else {
        Ok(())
    }
}

/// The maker's two holding accounts: both owned by the maker
/// (`InvalidAccountOwner`), the first for mint A with at least the deposit,
/// the second for mint B with any balance.
pub open spec fn spec_maker_holdings(accounts: Seq<AccountSpec>, deposit_amount: u64) -> Result<
    (),
    ProgramError,
> {
    if accounts.len() < 10 {
        Err(ProgramError::NotEnoughAccountKeys)
    } else {
        let rule = Some(
            OwnerRule { owner: accounts[0].key, error: EscrowError::InvalidAccountOwner },
        );
        match spec_holding(accounts[3].data, rule, accounts[1].key, deposit_amount) {
            Err(e) => Err(e),
            Ok(_) => match spec_holding(accounts[6].data, rule, accounts[2].key, 0) {
                Err(e) => Err(e),
                Ok(_) => Ok(()),
            },
        }
    }
}

/// The requests of an Initialize whose accounts passed every check, given
/// the two bump seeds and what the rent account yields for 113 and for 165
/// bytes: the deposit for the record must be known, the record must not
/// exist yet (`AccountAlreadyInitialized`), and where the custody account
/// holds no data, the deposit for it must be known.
pub open spec fn spec_initialize_plan_with(
    program_id: Address,
    accounts: Seq<AccountSpec>,
    escrow_id: u64,
    deposit_amount: u64,
    receive_amount: u64,
    bumps: (u8, u8),
    record_rent: Result<u64, ProgramError>,
    vault_rent: Result<u64, ProgramError>,
) -> Result<InitializePlan, ProgramError> {
    if accounts.len() < 10 {
        Err(ProgramError::NotEnoughAccountKeys)
    } else {
        let maker = accounts[0].key;
        let vault = accounts[4].key;
        let record = accounts[5].key;
        match record_rent {
            Err(e) => Err(e),
            Ok(record_rent) => {
                if accounts[5].owner == program_id {
                    Err(ProgramError::AccountAlreadyInitialized)
                } else {
                    let deposit = Transfer {
                        source: accounts[3].key,
                        destination: vault,
                        authority: maker,
                        amount: deposit_amount,
                    };
                    let create_record = CreateAccount {
                        payer: maker,
                        new_account: record,
                        lamports: record_rent,
                        space: 113,
                        owner: program_id,
                    };
                    let terms = Escrow {
                        escrow_id,
                        maker,
                        token_mint_a: accounts[1].key,
                        token_mint_b: accounts[2].key,
                        receive: receive_amount,
                        bump: bumps.1,
                    };
                    let vault_signer = SignerSeeds {
                        tag: SeedTag::Vault,
                        maker,
                        escrow_id,
                        bump: bumps.0,
                    };
                    let record_signer = SignerSeeds {
                        tag: SeedTag::Escrow,
                        maker,
                        escrow_id,
                        bump: bumps.1,
                    };
                    if accounts[4].data.len() == 0 {
                        match vault_rent {
                            Err(e) => Err(e),
                            Ok(vault_rent) => Ok(
                                InitializePlan {
                                    open_vault: Some(
                                        OpenVault {
                                            create: CreateAccount {
                                                payer: maker,
                                                new_account: vault,
                                                lamports: vault_rent,
                                                space: 165,
                                                owner: token_program_id(),
                                            },
                                            initialize: InitializeTokenAccount {
                                                account: vault,
                                                mint: accounts[1].key,
                                                owner: vault,
                                            },
                                        },
                                    ),
                                    deposit,
                                    create_record,
                                    record: terms,
                                    vault_signer,
                                    record_signer,
                                },
                            ),
                        }
                    } else {
                        Ok(
                            InitializePlan {
                                open_vault: None,
                                deposit,
                                create_record,
                                record: terms,
                                vault_signer,
                                record_signer,
                            },
                        )
                    }
                }
            },
        }
    }
}

/// The requests of an Initialize whose accounts passed every check, with
/// the deposits that the rent account at position 9 yields.
pub open spec fn spec_initialize_plan(
    program_id: Address,
    accounts: Seq<AccountSpec>,
    escrow_id: u64,
    deposit_amount: u64,
    receive_amount: u64,
    bumps: (u8, u8),
) -> Result<InitializePlan, ProgramError> {
    if accounts.len() < 10 {
        Err(ProgramError::NotEnoughAccountKeys)
    } else {
        spec_initialize_plan_with(
            program_id,
            accounts,
            escrow_id,
            deposit_amount,
            receive_amount,
            bumps,
            spec_rent_exempt_balance(accounts[9], 113),
            spec_rent_exempt_balance(accounts[9], 165),
        )
    }
}

/// The decision on an Initialize: the first failing check's error, or the
/// requests to the ledger. The checks run in this order: the flags and
/// amounts, the maker's holdings, the two derived addresses, the rent
/// account and the record's absence.
pub open spec fn spec_initialize_escrow(
    program_id: Address,
    accounts: Seq<AccountSpec>,
    escrow_id: u64,
    deposit_amount: u64,
    receive_amount: u64,
) -> Result<InitializePlan, ProgramError> {
    match spec_initialize_flags(accounts, deposit_amount, receive_amount) {
        Err(e) => Err(e),
        Ok(_) => match spec_maker_holdings(accounts, deposit_amount) {
            Err(e) => Err(e),
            Ok(_) => match spec_derived_pair(
                program_id,
                accounts[0].key,
                escrow_id,
                accounts[4].key,
                accounts[5].key,
            ) {
                Err(e) => Err(e),
                Ok(bumps) => spec_initialize_plan(
                    program_id,
                    accounts,
                    escrow_id,
                    deposit_amount,
                    receive_amount,
                    bumps,
                ),
            },
        },
    }
}

/// Checks the flags, the programs and the amounts of an Initialize.
pub fn initialize_flags(accounts: &[AccountView], deposit_amount: u64, receive_amount: u64) -> (r:
    Result<(), ProgramError>)
    ensures
        r == spec_initialize_flags(views(accounts@), deposit_amount, receive_amount),
{
    if accounts.len() < 10 {
        return Err(ProgramError::NotEnoughAccountKeys);
    }
    if !accounts[0].is_signer {
        return Err(ProgramError::from(EscrowError::MissingRequiredSignature));
    }
    if !accounts[3].is_writable || !accounts[4].is_writable || !accounts[5].is_writable {
        return Err(ProgramError::from(EscrowError::InvalidAccountData));
    }
    if accounts[8].key != token_program_id() {
        return Err(ProgramError::from(EscrowError::IncorrectProgramId));
    }
    if accounts[6].owner != token_program_id() {
        return Err(ProgramError::from(EscrowError::IncorrectProgramId));
    }
    if deposit_amount == 0 || receive_amount == 0 {
        return Err(ProgramError::from(EscrowError::InvalidAmount));
    }
    Ok(())
}

/// Checks the maker's two holding accounts.
pub fn maker_holdings(accounts: &[AccountView], deposit_amount: u64) -> (r: Result<(), ProgramError>)
    ensures
        r == spec_maker_holdings(views(accounts@), deposit_amount),
{
    if accounts.len() < 10 {
        return Err(ProgramError::NotEnoughAccountKeys);
    }
    let rule = OwnerRule { owner: accounts[0].key, error: EscrowError::InvalidAccountOwner };
    match holding(&accounts[3], Some(rule), &accounts[1].key, deposit_amount) {
        Err(e) => {
            return Err(e);
        },
        Ok(_) => {},
    }
    let rule = OwnerRule { owner: accounts[0].key, error: EscrowError::InvalidAccountOwner };
    match holding(&accounts[6], Some(rule), &accounts[2].key, 0) {
        Err(e) => Err(e),
        Ok(_) => Ok(()),
    }
}

/// Assembles the requests of an Initialize from the bump seeds and from
/// what the rent account yielded.
pub fn initialize_plan_with(
    program_id: &Address,
    accounts: &[AccountView],
    escrow_id: u64,
    deposit_amount: u64,
    receive_amount: u64,
    bumps: (u8, u8),
    record_rent: Result<u64, ProgramError>,
    vault_rent: Result<u64, ProgramError>,
) -> (r: Result<InitializePlan, ProgramError>)
    ensures
        r == spec_initialize_plan_with(
            *program_id,
            views(accounts@),
            escrow_id,
            deposit_amount,
            receive_amount,
            bumps,
            record_rent,
            vault_rent,
        ),
{
    if accounts.len() < 10 {
        return Err(ProgramError::NotEnoughAccountKeys);
    }
    let maker = accounts[0].key;
    let vault = accounts[4].key;
    let record = accounts[5].key;
    let record_rent = match record_rent {
        Ok(lamports) => lamports,
        Err(e) => {
            return Err(e);
        },
    };
    if accounts[5].owner == *program_id {
        return Err(ProgramError::AccountAlreadyInitialized);
    }
    let open_vault = if accounts[4].data_is_empty() {
        let vault_rent = match vault_rent {
            Ok(lamports) => lamports,
            Err(e) => {
                return Err(e);
            },
        };
        Some(
            OpenVault {
                create: CreateAccount {
                    payer: maker,
                    new_account: vault,
                    lamports: vault_rent,
                    space: 165,
                    owner: token_program_id(),
                },
                initialize: InitializeTokenAccount {
                    account: vault,
                    mint: accounts[1].key,
                    owner: vault,
                },
            },
        )
    } else {
        None
    };
    Ok(
        InitializePlan {
            open_vault,
            deposit: Transfer {
                source: accounts[3].key,
                destination: vault,
                authority: maker,
                amount: deposit_amount,
            },
            create_record: CreateAccount {
                payer: maker,
                new_account: record,
                lamports: record_rent,
                space: 113,
                owner: *program_id,
            },
            record: Escrow {
                escrow_id,
                maker,
                token_mint_a: accounts[1].key,
                token_mint_b: accounts[2].key,
                receive: receive_amount,
                bump: bumps.1,
            },
            vault_signer: SignerSeeds { tag: SeedTag::Vault, maker, escrow_id, bump: bumps.0 },
            record_signer: SignerSeeds { tag: SeedTag::Escrow, maker, escrow_id, bump: bumps.1 },
        },
    )
}

/// Asks the rent account for the two deposits and assembles the requests.
pub fn initialize_plan(
    program_id: &Address,
    accounts: &[AccountView],
    escrow_id: u64,
    deposit_amount: u64,
    receive_amount: u64,
    bumps: (u8, u8),
) -> (r: Result<InitializePlan, ProgramError>)
    ensures
        r == spec_initialize_plan(
            *program_id,
            views(accounts@),
            escrow_id,
            deposit_amount,
            receive_amount,
            bumps,
        ),
{
    if accounts.len() < 10 {
        return Err(ProgramError::NotEnoughAccountKeys);
    }
    let record_rent = rent_exempt_balance(&accounts[9], 113);
    let vault_rent = rent_exempt_balance(&accounts[9], 165);
    initialize_plan_with(
        program_id,
        accounts,
        escrow_id,
        deposit_amount,
        receive_amount,
        bumps,
        record_rent,
        vault_rent,
    )
}

/// Initializes a new escrow transaction.
///
/// Validates the accounts and the amounts, recomputes the two derived
/// addresses, and on success returns what the ledger must do: create the
/// custody account under the derived authority, move the maker's deposit
/// into it, create the record account and store the terms. Nothing is
/// changed here; a failed check returns its error.
pub fn initialize_escrow(
    program_id: &Address,
    accounts: &[AccountView],
    escrow_id: u64,
    deposit_amount: u64,
    receive_amount: u64,
) -> (r: Result<InitializePlan, ProgramError>)
    ensures
        r == spec_initialize_escrow(
            *program_id,
            views(accounts@),
            escrow_id,
            deposit_amount,
            receive_amount,
        ),
{
    match initialize_flags(accounts, deposit_amount, receive_amount) {
        Err(e) => {
            return Err(e);
        },
        Ok(_) => {},
    }
    match maker_holdings(accounts, deposit_amount) {
        Err(e) => {
            return Err(e);
        },
        Ok(_) => {},
    }
    let bumps = match derived_pair(
        program_id,
        &accounts[0].key,
        escrow_id,
        &accounts[4].key,
        &accounts[5].key,
    ) {
        Ok(bumps) => bumps,
        Err(e) => {
            return Err(e);
        },
    };
    initialize_plan(program_id, accounts, escrow_id, deposit_amount, receive_amount, bumps)
}

} // verus!
