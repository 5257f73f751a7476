//! Error taxonomy of the escrow program and of its command-line client.

use vstd::prelude::*;

verus! {

/// Why the escrow program refused an operation.
#[derive(Clone, Copy, Debug, PartialEq, Eq, Structural)]
pub enum EscrowError {
    /// An account is not owned by the party or program that must own it.
    InvalidAccountOwner,
    /// A supplied address is not the one derived from the maker and the escrow id.
    PDADerivationMismatch,
    /// The party that must authorise the operation did not sign.
    MissingRequiredSignature,
    /// The caller may not ask for the operation.
    Unauthorized,
    /// A balance is below the amount that must move.
    InsufficientFunds,
    /// A program account is not the program it must be.
    IncorrectProgramId,
    /// An amount that must be positive is zero.
    InvalidAmount,
    /// An account lacks a required flag or holds the wrong party.
    InvalidAccountData,
    /// An account is under another authority than it must be.
    InvalidAuthority,
    /// A holding account is for another mint.
    InvalidMint,
    /// The escrow id of the request is not the stored one.
    InvalidEscrowId,
    /// A lamport sum does not fit in 64 bits.
    ArithmeticOverflow,
}

impl EscrowError {
    /// Position of the variant in the declaration, from zero.
    pub open spec fn spec_code(self) -> u32 {
        match self {
            EscrowError::InvalidAccountOwner => 0,
            EscrowError::PDADerivationMismatch => 1,
            EscrowError::MissingRequiredSignature => 2,
            EscrowError::Unauthorized => 3,
            EscrowError::InsufficientFunds => 4,
            EscrowError::IncorrectProgramId => 5,
            EscrowError::InvalidAmount => 6,
            EscrowError::InvalidAccountData => 7,
            EscrowError::InvalidAuthority => 8,
            EscrowError::InvalidMint => 9,
            EscrowError::InvalidEscrowId => 10,
            EscrowError::ArithmeticOverflow => 11,
        }
    }

    /// The number under which the ledger reports the error.
    #[verifier::when_used_as_spec(spec_code)]
    pub fn code(self) -> (r: u32)
        ensures
            r == self.spec_code(),
            r < 12,
    {
        match self {
            EscrowError::InvalidAccountOwner => 0,
            EscrowError::PDADerivationMismatch => 1,
            EscrowError::MissingRequiredSignature => 2,
            EscrowError::Unauthorized => 3,
            EscrowError::InsufficientFunds => 4,
            EscrowError::IncorrectProgramId => 5,
            EscrowError::InvalidAmount => 6,
            EscrowError::InvalidAccountData => 7,
            EscrowError::InvalidAuthority => 8,
            EscrowError::InvalidMint => 9,
            EscrowError::InvalidEscrowId => 10,
            EscrowError::ArithmeticOverflow => 11,
        }
    }

    /// The error reported under `code`, if there is one.
    pub fn from_code(code: u32) -> (r: Option<EscrowError>)
        ensures
            match r {
                Some(e) => e.spec_code() == code,
                None => code >= 12,
            },
    {
        match code {
            0 => Some(EscrowError::InvalidAccountOwner),
            1 => Some(EscrowError::PDADerivationMismatch),
            2 => Some(EscrowError::MissingRequiredSignature),
            3 => Some(EscrowError::Unauthorized),
            4 => Some(EscrowError::InsufficientFunds),
            5 => Some(EscrowError::IncorrectProgramId),
            6 => Some(EscrowError::InvalidAmount),
            7 => Some(EscrowError::InvalidAccountData),
            8 => Some(EscrowError::InvalidAuthority),
            9 => Some(EscrowError::InvalidMint),
            10 => Some(EscrowError::InvalidEscrowId),
            11 => Some(EscrowError::ArithmeticOverflow),
            _ => None,
        }
    }

    /// The text shown to a user for the error.
    pub fn to_string(&self) -> (r: String)
        ensures
            r@ == self.spec_message(),
    {
        match self {
            EscrowError::InvalidAccountOwner => "Account not owned by program".to_string(),
            EscrowError::PDADerivationMismatch => "PDA Derivation Mismatched".to_string(),
            EscrowError::MissingRequiredSignature => "creator must be a signer".to_string(),
            EscrowError::Unauthorized => "Unauthorized".to_string(),
            EscrowError::InsufficientFunds => "Insufficient funds".to_string(),
            EscrowError::IncorrectProgramId => "IncorrectProgramId".to_string(),
            EscrowError::InvalidAmount => "Invalid amount: must be greater than zero".to_string(),
            EscrowError::InvalidAccountData => "InvalidAccountData".to_string(),
            EscrowError::InvalidAuthority => "InvalidAuthority".to_string(),
            EscrowError::InvalidMint => "InvalidMint".to_string(),
            EscrowError::InvalidEscrowId => "Invaild Escrow Id".to_string(),
            EscrowError::ArithmeticOverflow => "Arithmetic Overflow".to_string(),
        }
    }

    /// The text of each error.
    pub open spec fn spec_message(self) -> Seq<char> {
        match self {
            EscrowError::InvalidAccountOwner => "Account not owned by program"@,
            EscrowError::PDADerivationMismatch => "PDA Derivation Mismatched"@,
            EscrowError::MissingRequiredSignature => "creator must be a signer"@,
            EscrowError::Unauthorized => "Unauthorized"@,
            EscrowError::InsufficientFunds => "Insufficient funds"@,
            EscrowError::IncorrectProgramId => "IncorrectProgramId"@,
            EscrowError::InvalidAmount => "Invalid amount: must be greater than zero"@,
            EscrowError::InvalidAccountData => "InvalidAccountData"@,
            EscrowError::InvalidAuthority => "InvalidAuthority"@,
            EscrowError::InvalidMint => "InvalidMint"@,
            EscrowError::InvalidEscrowId => "Invaild Escrow Id"@,
            EscrowError::ArithmeticOverflow => "Arithmetic Overflow"@,
        }
    }
}

/// Why the ledger runtime is told that an instruction failed.
#[derive(Clone, Copy, Debug, PartialEq, Eq, Structural)]
pub enum ProgramError {
    /// An error of the escrow program itself, by its code.
    Custom(u32),
    /// The rent account is not the rent sysvar or holds no rent record.
    InvalidArgument,
    /// Instruction bytes, a stored record or a token account is malformed.
    InvalidAccountData,
    /// A record cannot be written because its account is too short.
    BorshIoError,
    /// Fewer accounts were supplied than the operation names.
    NotEnoughAccountKeys,
    /// A token account was never initialised.
    UninitializedAccount,
    /// The escrow record for this maker and id already exists.
    AccountAlreadyInitialized,
}

impl From<EscrowError> for ProgramError {
    fn from(error: EscrowError) -> (r: ProgramError) {
        ProgramError::Custom(error.code())
    }
}

impl vstd::std_specs::convert::FromSpecImpl<EscrowError> for ProgramError {
    open spec fn obeys_from_spec() -> bool {
        true
    }

    open spec fn from_spec(error: EscrowError) -> ProgramError {
        ProgramError::Custom(error.spec_code())
    }
}

/// The ledger-level error that stands for an escrow error.
pub open spec fn escrow(error: EscrowError) -> ProgramError {
    ProgramError::Custom(error.spec_code())
}

/// Distinct escrow errors are reported under distinct codes.
pub proof fn lemma_code_injective(a: EscrowError, b: EscrowError)
    ensures
        a.spec_code() == b.spec_code() <==> a == b,
{
}

/// Why a command of the client failed.
#[derive(Debug)]
pub enum EscrowCliError {
    /// Network connection failed
    NetworkConnection(String),
    /// Invalid wallet keypair
    WalletLoad(String),
    /// Insufficient SOL balance
    InsufficientSol { needed: u64, actual: u64 },
    /// Insufficient token balance
    InsufficientTokens { needed: u64, actual: u64 },
    /// Invalid public key
    InvalidPubkey(String),
    /// Token account doesn't exist
    TokenAccountNotFound(String),
    /// Failed to create token account
    TokenAccountCreation(String),
    /// Transaction failed
    TransactionFailed(String),
    /// RPC error
    RpcError(String),
    /// Invalid program ID
    InvalidProgramId(String),
    /// Escrow not found
    EscrowNotFound { maker: String, id: u64 },
    /// Custom Escrow Error
    CustomError(String),
}

} // verus!
