//! What a client computes before it talks to the ledger: the instructions
//! of the three operations and the checks on what it fetched.

use vstd::prelude::*;
use vstd::string::StringExecFns;
use crate::address::{rent_sysvar_id, system_program_id, token_program_id, Address};
use crate::cpi::meta;
use crate::error::{EscrowCliError, ProgramError};
use crate::instructions::instruction::EscrowInstruction;
use crate::message::{AccountMeta, Instruction, InstructionSpec};
use crate::pda::{associated_token_address, associated_token_program_id, spec_associated_token_address};
use crate::token::{spec_unpack, unpack, TokenAccount};

verus! {

/// Lamports that a wallet needs for transaction fees.
pub const MIN_FEE_BALANCE: u64 = 5_000_000;

/// The Initialize instruction: data `[0][escrow_id][deposit][receive]`
/// and the ten accounts in the program's order.
pub open spec fn spec_initialize_instruction(
    maker: Address,
    escrow_id: u64,
    deposit_amount: u64,
    receive_amount: u64,
    program_id: Address,
    token_mint_a: Address,
    token_mint_b: Address,
    vault_pda: Address,
    escrow_pda: Address,
    maker_token_acc_a: Address,
    maker_token_acc_b: Address,
) -> InstructionSpec {
    InstructionSpec {
        program_id,
        accounts: seq![
            meta(maker, true, true),
            meta(token_mint_a, false, false),
            meta(token_mint_b, false, false),
            meta(maker_token_acc_a, false, true),
            meta(vault_pda, false, true),
            meta(escrow_pda, false, true),
            meta(maker_token_acc_b, false, true),
            meta(system_program_id(), false, false),
            meta(token_program_id(), false, false),
            meta(rent_sysvar_id(), false, false),
        ],
        data: EscrowInstruction::InitializeEscrow {
            escrow_id,
            deposit_amount,
            receive_amount,
        }.encode(),
    }
}

/// The Cancel instruction: data `[2][escrow_id]` and the seven accounts
/// in the program's order.
pub open spec fn spec_cancel_instruction(
    program_id: Address,
    maker: Address,
    mint_a: Address,
    vault_pda: Address,
    escrow_pda: Address,
    maker_token_account: Address,
    escrow_id: u64,
) -> InstructionSpec {
    InstructionSpec {
        program_id,
        accounts: seq![
            meta(maker, true, true),
            meta(mint_a, false, false),
            meta(maker_token_account, false, true),
            meta(escrow_pda, false, true),
            meta(vault_pda, false, true),
            meta(system_program_id(), false, false),
            meta(token_program_id(), false, false),
        ],
        data: EscrowInstruction::CancelEscrow { escrow_id }.encode(),
    }
}

/// The Exchange instruction: data `[1][escrow_id]` and the ten accounts
/// in the program's order.
pub open spec fn spec_exchange_instruction(
    program_id: Address,
    maker: Address,
    taker: Address,
    vault_pda: Address,
    escrow_pda: Address,
    taker_token_a_acc: Address,
    taker_token_b_acc: Address,
    maker_token_b_acc: Address,
    mint_a: Address,
    mint_b: Address,
    escrow_id: u64,
) -> InstructionSpec {
    InstructionSpec {
        program_id,
        accounts: seq![
            meta(taker, true, true),
            meta(maker, false, true),
            meta(mint_a, false, false),
            meta(mint_b, false, false),
            meta(maker_token_b_acc, false, true),
            meta(taker_token_a_acc, false, true),
            meta(taker_token_b_acc, false, true),
            meta(vault_pda, false, true),
            meta(escrow_pda, false, true),
            meta(token_program_id(), false, true),
        ],
        data: EscrowInstruction::ReleaseFunds { escrow_id }.encode(),
    }
}

/// Builds the instruction by which `maker` opens an escrow.
pub fn create_initialize_escrow_instruction(
    maker: &Address,
    escrow_id: u64,
    deposit_amount: u64,
    receive_amount: u64,
    program_id: &Address,
    token_mint_a: &Address,
    token_mint_b: &Address,
    vault_pda: &Address,
    escrow_pda: &Address,
    maker_token_acc_a: &Address,
    maker_token_acc_b: &Address,
) -> (r: Instruction)
    ensures
        r@ == spec_initialize_instruction(
            *maker,
            escrow_id,
            deposit_amount,
            receive_amount,
            *program_id,
            *token_mint_a,
            *token_mint_b,
            *vault_pda,
            *escrow_pda,
            *maker_token_acc_a,
            *maker_token_acc_b,
        ),
{
    let data = EscrowInstruction::InitializeEscrow {
        escrow_id,
        deposit_amount,
        receive_amount,
    }.pack();
    let mut accounts: Vec<AccountMeta> = Vec::new();
    accounts.push(AccountMeta::new(*maker, true));
    accounts.push(AccountMeta::new_readonly(*token_mint_a, false));
    accounts.push(AccountMeta::new_readonly(*token_mint_b, false));
    accounts.push(AccountMeta::new(*maker_token_acc_a, false));
    accounts.push(AccountMeta::new(*vault_pda, false));
    accounts.push(AccountMeta::new(*escrow_pda, false));
    accounts.push(AccountMeta::new(*maker_token_acc_b, false));
    accounts.push(AccountMeta::new_readonly(system_program_id(), false));
    accounts.push(AccountMeta::new_readonly(token_program_id(), false));
    accounts.push(AccountMeta::new_readonly(rent_sysvar_id(), false));
    let r = Instruction { program_id: *program_id, accounts, data };
    assert(r@.accounts =~= spec_initialize_instruction(
        *maker,
        escrow_id,
        deposit_amount,
        receive_amount,
        *program_id,
        *token_mint_a,
        *token_mint_b,
        *vault_pda,
        *escrow_pda,
        *maker_token_acc_a,
        *maker_token_acc_b,
    ).accounts);
    r
}

/// Builds the instruction by which `maker` cancels an escrow.
pub fn create_cancel_instruction(
    program_id: &Address,
    maker: &Address,
    mint_a: &Address,
    vault_pda: &Address,
    escrow_pda: &Address,
    maker_token_account: &Address,
    escrow_id: u64,
) -> (r: Instruction)
    ensures
        r@ == spec_cancel_instruction(
            *program_id,
            *maker,
            *mint_a,
            *vault_pda,
            *escrow_pda,
            *maker_token_account,
            escrow_id,
        ),
{
    let data = EscrowInstruction::CancelEscrow { escrow_id }.pack();
    let mut accounts: Vec<AccountMeta> = Vec::new();
    accounts.push(AccountMeta::new(*maker, true));
    accounts.push(AccountMeta::new_readonly(*mint_a, false));
    accounts.push(AccountMeta::new(*maker_token_account, false));
    accounts.push(AccountMeta::new(*escrow_pda, false));
    accounts.push(AccountMeta::new(*vault_pda, false));
    accounts.push(AccountMeta::new_readonly(system_program_id(), false));
    accounts.push(AccountMeta::new_readonly(token_program_id(), false));
    let r = Instruction { program_id: *program_id, accounts, data };
    assert(r@.accounts =~= spec_cancel_instruction(
        *program_id,
        *maker,
        *mint_a,
        *vault_pda,
        *escrow_pda,
        *maker_token_account,
        escrow_id,
    ).accounts);
    r
}

/// Builds the instruction by which `taker` completes an escrow of `maker`.
pub fn create_exchange_instruction(
    program_id: &Address,
    maker: &Address,
    taker: &Address,
    vault_pda: &Address,
    escrow_pda: &Address,
    taker_token_a_acc: &Address,
    taker_token_b_acc: &Address,
    maker_token_b_acc: &Address,
    mint_a: &Address,
    mint_b: &Address,
    escrow_id: u64,
) -> (r: Instruction)
    ensures
        r@ == spec_exchange_instruction(
            *program_id,
            *maker,
            *taker,
            *vault_pda,
            *escrow_pda,
            *taker_token_a_acc,
            *taker_token_b_acc,
            *maker_token_b_acc,
            *mint_a,
            *mint_b,
            escrow_id,
        ),
{
    let data = EscrowInstruction::ReleaseFunds { escrow_id }.pack();
    let mut accounts: Vec<AccountMeta> = Vec::new();
    accounts.push(AccountMeta::new(*taker, true));
    accounts.push(AccountMeta::new(*maker, false));
    accounts.push(AccountMeta::new_readonly(*mint_a, false));
    accounts.push(AccountMeta::new_readonly(*mint_b, false));
    accounts.push(AccountMeta::new(*maker_token_b_acc, false));
    accounts.push(AccountMeta::new(*taker_token_a_acc, false));
    accounts.push(AccountMeta::new(*taker_token_b_acc, false));
    accounts.push(AccountMeta::new(*vault_pda, false));
    accounts.push(AccountMeta::new(*escrow_pda, false));
    accounts.push(AccountMeta::new(token_program_id(), false));
    let r = Instruction { program_id: *program_id, accounts, data };
    assert(r@.accounts =~= spec_exchange_instruction(
        *program_id,
        *maker,
        *taker,
        *vault_pda,
        *escrow_pda,
        *taker_token_a_acc,
        *taker_token_b_acc,
        *maker_token_b_acc,
        *mint_a,
        *mint_b,
        escrow_id,
    ).accounts);
    r
}

/// The instruction that creates the token account of `wallet` for `mint`
/// unless it exists: tag 1; the payer signs, the new account is writable.
pub open spec fn spec_create_token_account_instruction(
    payer: Address,
    wallet: Address,
    mint: Address,
    account: Address,
) -> InstructionSpec {
    InstructionSpec {
        program_id: associated_token_program_id(),
        accounts: seq![
            meta(payer, true, true),
            meta(account, false, true),
            meta(wallet, false, false),
            meta(mint, false, false),
            meta(system_program_id(), false, false),
            meta(token_program_id(), false, false),
        ],
        data: seq![1u8],
    }
}

/// Builds the instruction that creates the token account `account` of
/// `wallet` for `mint` unless it exists, paid by `payer`.
pub fn create_token_account_instruction_at(
    payer: &Address,
    wallet: &Address,
    mint: &Address,
    account: &Address,
) -> (r: Instruction)
    ensures
        r@ == spec_create_token_account_instruction(*payer, *wallet, *mint, *account),
{
    let mut accounts: Vec<AccountMeta> = Vec::new();
    accounts.push(AccountMeta::new(*payer, true));
    accounts.push(AccountMeta::new(*account, false));
    accounts.push(AccountMeta::new_readonly(*wallet, false));
    accounts.push(AccountMeta::new_readonly(*mint, false));
    accounts.push(AccountMeta::new_readonly(system_program_id(), false));
    accounts.push(AccountMeta::new_readonly(token_program_id(), false));
    let mut data: Vec<u8> = Vec::new();
    data.push(1u8);
    let r = Instruction { program_id: associated_token_program_id(), accounts, data };
    assert(r@.accounts =~= spec_create_token_account_instruction(
        *payer,
        *wallet,
        *mint,
        *account,
    ).accounts);
    assert(r@.data =~= seq![1u8]);
    r
}

/// Builds the instruction that creates the token account of `wallet` for
/// `mint` unless it exists, paid by `payer`; `None` where the account's
/// address cannot be derived.
pub fn create_token_account_instruction(payer: &Address, wallet: &Address, mint: &Address) -> (r:
    Option<Instruction>)
    ensures
        match spec_associated_token_address(*wallet, *mint) {
            Some(found) => r is Some && r->0@ == spec_create_token_account_instruction(
                *payer,
                *wallet,
                *mint,
                found.0,
            ),
            None => r is None,
        },
{
    match associated_token_address(wallet, mint) {
        Some(account) => Some(create_token_account_instruction_at(payer, wallet, mint, &account)),
        None => None,
    }
}

/// The endpoint of a named network; another name is taken as the endpoint
/// itself.
pub open spec fn spec_network_url(network: Seq<char>) -> Seq<char> {
    if network == "devnet"@ {
        "https://api.devnet.solana.com"@
    } else if network == "testnet"@ {
        "https://api.testnet.solana.com"@
    } else if network == "mainnet"@ {
        "https://api.mainnet-beta.solana.com"@
    } else if network == "localhost"@ {
        "http://localhost:8899"@
    } else {
        network
    }
}

/// The endpoint to connect to for `network`.
pub fn network_url(network: &str) -> (r: String)
    ensures
        r@ == spec_network_url(network@),
{
    let name = network.to_owned();
    if name == "devnet".to_owned() {
        "https://api.devnet.solana.com".to_owned()
    } else if name == "testnet".to_owned() {
        "https://api.testnet.solana.com".to_owned()
    } else if name == "mainnet".to_owned() {
        "https://api.mainnet-beta.solana.com".to_owned()
    } else if name == "localhost".to_owned() {
        "http://localhost:8899".to_owned()
    } else {
        name
    }
}

/// Checks that a wallet can pay transaction fees: `InsufficientSol` below
/// `MIN_FEE_BALANCE` lamports.
pub fn check_sol_balance(balance: u64) -> (r: Result<u64, EscrowCliError>)
    ensures
        balance >= MIN_FEE_BALANCE ==> (r matches Ok(b) && b == balance),
        balance < MIN_FEE_BALANCE ==> (r matches Err(
            EscrowCliError::InsufficientSol { needed, actual },
        ) && needed == MIN_FEE_BALANCE && actual == balance),
{
    if balance < MIN_FEE_BALANCE {
        Err(EscrowCliError::InsufficientSol { needed: MIN_FEE_BALANCE, actual: balance })
    } else {
        Ok(balance)
    }
}

/// The text of the error that reports data that is no token account: the
/// words in which the ledger's crates describe the two ways in which
/// reading a token account fails.
pub open spec fn unpack_failure_text(error: ProgramError) -> Seq<char> {
    if error == ProgramError::UninitializedAccount {
        "Failed to unpack token account: "@ + "An attempt to operate on an account that hasn't been initialized"@
    } else {
        "Failed to unpack token account: "@ + "An account's data contents was invalid"@
    }
}

/// Check if token account exists and has sufficient balance: the balance,
/// `CustomError` where `data` is no token account, `InsufficientTokens`
/// where it holds less than `required_amount`.
pub fn check_token_account(data: &[u8], required_amount: u64) -> (r: Result<u64, EscrowCliError>)
    ensures
        match spec_unpack(data@) {
            Err(e) => r matches Err(EscrowCliError::CustomError(text)) && text@
                == unpack_failure_text(e),
            Ok(account) => if account.amount < required_amount {
                r matches Err(EscrowCliError::InsufficientTokens { needed, actual }) && needed
                    == required_amount && actual == account.amount
            } else {
                r matches Ok(amount) && amount == account.amount
            },
        },
{
    let account = match unpack(data) {
        Ok(account) => account,
        Err(e) => {
            let text = String::from_str("Failed to unpack token account: ");
            let text = match e {
                ProgramError::UninitializedAccount => text.concat("An attempt to operate on an account that hasn't been initialized"),
                _ => text.concat("An account's data contents was invalid"),
            };
            return Err(EscrowCliError::CustomError(text));
        },
    };
    if account.amount < required_amount {
        return Err(
            EscrowCliError::InsufficientTokens { needed: required_amount, actual: account.amount },
        );
    }
    Ok(account.amount)
}

/// Checks before a Cancel is sent that the custody account holds the mint
/// that the maker names: `CustomError` otherwise.
pub fn check_vault_mint(vault: &TokenAccount, mint_a: &Address) -> (r: Result<(), EscrowCliError>)
    ensures
        vault.mint == *mint_a ==> r is Ok,
        vault.mint != *mint_a ==> (r matches Err(EscrowCliError::CustomError(text)) && text@
            == "Vault mint mismatch!"@),
{
    if vault.mint != *mint_a {
        Err(EscrowCliError::CustomError(String::from_str("Vault mint mismatch!")))
    } else {
        Ok(())
    }
}

/// Checks before an Exchange is sent that custody is not empty:
/// `CustomError` otherwise.
pub fn check_vault_funded(vault: &TokenAccount) -> (r: Result<u64, EscrowCliError>)
    ensures
        vault.amount > 0 ==> (r matches Ok(amount) && amount == vault.amount),
        vault.amount == 0 ==> (r matches Err(EscrowCliError::CustomError(text)) && text@
            == "Vault is empty - escrow has already been taken or cancelled"@),
{
    if vault.amount == 0 {
        Err(
            EscrowCliError::CustomError(
                String::from_str("Vault is empty - escrow has already been taken or cancelled"),
            ),
        )
    } else {
        Ok(vault.amount)
    }
}

} // verus!
