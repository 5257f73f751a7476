//! The instructions by which the escrow program's requests reach the
//! system program and the token program.

use vstd::prelude::*;
use solana_program::pubkey::Pubkey;
use crate::actions::{CloseTokenAccount, CreateAccount, InitializeTokenAccount, Transfer};
use crate::address::{rent_sysvar_id, system_program_id, token_program_id, Address};
use crate::message::{AccountMeta, Instruction, InstructionSpec};
use crate::wire::le64;

verus! {

/// An account of an instruction.
pub open spec fn meta(pubkey: Address, is_signer: bool, is_writable: bool) -> AccountMeta {
    AccountMeta { pubkey, is_signer, is_writable }
}

/// The token program's Transfer: tag 3 and the amount; source and
/// destination writable, then the authority, then the authority again as
/// the one signer.
pub open spec fn spec_transfer_instruction(t: Transfer) -> InstructionSpec {
    InstructionSpec {
        program_id: token_program_id(),
        accounts: seq![
            meta(t.source, false, true),
            meta(t.destination, false, true),
            meta(t.authority, false, false),
            meta(t.authority, true, false),
        ],
        data: seq![3u8] + le64(t.amount),
    }
}

/// The token program's CloseAccount: tag 9; the account and the
/// destination writable, then the authority, then the authority again as
/// the one signer.
pub open spec fn spec_close_account_instruction(c: CloseTokenAccount) -> InstructionSpec {
    InstructionSpec {
        program_id: token_program_id(),
        accounts: seq![
            meta(c.account, false, true),
            meta(c.destination, false, true),
            meta(c.authority, false, false),
            meta(c.authority, true, false),
        ],
        data: seq![9u8],
    }
}

/// The token program's InitializeAccount2: tag 16 and the owner; the
/// account writable, then the mint and the rent sysvar.
pub open spec fn spec_initialize_account_instruction(i: InitializeTokenAccount) -> InstructionSpec {
    InstructionSpec {
        program_id: token_program_id(),
        accounts: seq![
            meta(i.account, false, true),
            meta(i.mint, false, false),
            meta(rent_sysvar_id(), false, false),
        ],
        data: seq![16u8] + i.owner@,
    }
}

/// The system program's CreateAccount: a four-byte tag 0, the lamports,
/// the space and the owner; payer and new account both writable signers.
pub open spec fn spec_create_account_instruction(c: CreateAccount) -> InstructionSpec {
    InstructionSpec {
        program_id: system_program_id(),
        accounts: seq![meta(c.payer, true, true), meta(c.new_account, true, true)],
        data: seq![0u8, 0u8, 0u8, 0u8] + le64(c.lamports) + le64(c.space) + c.owner@,
    }
}

/// Calls `spl_token::instruction::transfer` for the token program's own id,
/// with the authority as the one signer. The function fails only for
/// another program id.
#[verifier::external_body]
fn token_transfer(t: &Transfer) -> (r: Option<Instruction>)
    ensures
        r is Some,
        r->0@ == spec_transfer_instruction(*t),
{
    let (s, d) = (Pubkey::new_from_array(t.source.bytes), Pubkey::new_from_array(t.destination.bytes));
    let a = Pubkey::new_from_array(t.authority.bytes);
    let ix = spl_token::instruction::transfer(&spl_token::id(), &s, &d, &a, &[&a], t.amount).ok()?;
    let accounts = ix.accounts.iter().map(|m| meta_of(m.pubkey.to_bytes(), m.is_signer, m.is_writable));
    Some(Instruction { program_id: Address { bytes: ix.program_id.to_bytes() }, accounts: accounts.collect(), data: ix.data })
}

/// Calls `spl_token::instruction::close_account` for the token program's
/// own id, with the authority as the one signer. The function fails only
/// for another program id.
#[verifier::external_body]
fn token_close_account(c: &CloseTokenAccount) -> (r: Option<Instruction>)
    ensures
        r is Some,
        r->0@ == spec_close_account_instruction(*c),
{
    let (k, d) = (Pubkey::new_from_array(c.account.bytes), Pubkey::new_from_array(c.destination.bytes));
    let a = Pubkey::new_from_array(c.authority.bytes);
    let ix = spl_token::instruction::close_account(&spl_token::id(), &k, &d, &a, &[&a]).ok()?;
    let accounts = ix.accounts.iter().map(|m| meta_of(m.pubkey.to_bytes(), m.is_signer, m.is_writable));
    Some(Instruction { program_id: Address { bytes: ix.program_id.to_bytes() }, accounts: accounts.collect(), data: ix.data })
}

/// Calls `spl_token::instruction::initialize_account2` for the token
/// program's own id. The function fails only for another program id.
#[verifier::external_body]
fn token_initialize_account(i: &InitializeTokenAccount) -> (r: Option<Instruction>)
    ensures
        r is Some,
        r->0@ == spec_initialize_account_instruction(*i),
{
    let (k, m) = (Pubkey::new_from_array(i.account.bytes), Pubkey::new_from_array(i.mint.bytes));
    let o = Pubkey::new_from_array(i.owner.bytes);
    let ix = spl_token::instruction::initialize_account2(&spl_token::id(), &k, &m, &o).ok()?;
    let accounts = ix.accounts.iter().map(|m| meta_of(m.pubkey.to_bytes(), m.is_signer, m.is_writable));
    Some(Instruction { program_id: Address { bytes: ix.program_id.to_bytes() }, accounts: accounts.collect(), data: ix.data })
}

/// Calls `solana_program::system_instruction::create_account`, which
/// serialises the request with the variant's index in four bytes and the
/// fields behind it.
#[verifier::external_body]
fn system_create_account(c: &CreateAccount) -> (r: Instruction)
    ensures
        r@ == spec_create_account_instruction(*c),
{
    let (p, n) = (Pubkey::new_from_array(c.payer.bytes), Pubkey::new_from_array(c.new_account.bytes));
    let o = Pubkey::new_from_array(c.owner.bytes);
    let ix = solana_program::system_instruction::create_account(&p, &n, c.lamports, c.space, &o);
    let accounts = ix.accounts.iter().map(|m| meta_of(m.pubkey.to_bytes(), m.is_signer, m.is_writable));
    Instruction { program_id: Address { bytes: ix.program_id.to_bytes() }, accounts: accounts.collect(), data: ix.data }
}

/// The account of an instruction with the given address and rights.
pub fn meta_of(bytes: [u8; 32], is_signer: bool, is_writable: bool) -> (r: AccountMeta)
    ensures
        r == meta(Address { bytes }, is_signer, is_writable),
{
    AccountMeta { pubkey: Address { bytes }, is_signer, is_writable }
}

impl Transfer {
    /// The instruction that asks the token program for the transfer.
    pub fn instruction(&self) -> (r: Instruction)
        ensures
            r@ == spec_transfer_instruction(*self),
    {
        token_transfer(self).unwrap()
    }
}

impl CloseTokenAccount {
    /// The instruction that asks the token program to close the account.
    pub fn instruction(&self) -> (r: Instruction)
        ensures
            r@ == spec_close_account_instruction(*self),
    {
        token_close_account(self).unwrap()
    }
}

impl InitializeTokenAccount {
    /// The instruction that asks the token program to initialise the
    /// account.
    pub fn instruction(&self) -> (r: Instruction)
        ensures
            r@ == spec_initialize_account_instruction(*self),
    {
        token_initialize_account(self).unwrap()
    }
}

impl CreateAccount {
    /// The instruction that asks the system program to create the account.
    pub fn instruction(&self) -> (r: Instruction)
        ensures
            r@ == spec_create_account_instruction(*self),
    {
        system_create_account(self)
    }
}

} // verus!
