use escrow_native::actions::CloseRecord;
use escrow_native::error::{EscrowError, ProgramError};

const ALL: [EscrowError; 12] = [
    EscrowError::InvalidAccountOwner,
    EscrowError::PDADerivationMismatch,
    EscrowError::MissingRequiredSignature,
    EscrowError::Unauthorized,
    EscrowError::InsufficientFunds,
    EscrowError::IncorrectProgramId,
    EscrowError::InvalidAmount,
    EscrowError::InvalidAccountData,
    EscrowError::InvalidAuthority,
    EscrowError::InvalidMint,
    EscrowError::InvalidEscrowId,
    EscrowError::ArithmeticOverflow,
];

#[test]
fn test_error_codes_follow_the_declaration() {
    for (position, error) in ALL.iter().enumerate() {
        assert_eq!(error.code(), position as u32);
        assert_eq!(EscrowError::from_code(position as u32), Some(*error));
        assert_eq!(ProgramError::from(*error), ProgramError::Custom(position as u32));
    }
    assert_eq!(EscrowError::from_code(12), None);
    assert_eq!(EscrowError::from_code(u32::MAX), None);
    // the ledger's own kind of error is another error than the program's
    assert_ne!(ProgramError::from(EscrowError::InvalidAccountData), ProgramError::InvalidAccountData);
}

#[test]
fn test_error_texts() {
    let texts = [
        "Account not owned by program",
        "PDA Derivation Mismatched",
        "creator must be a signer",
        "Unauthorized",
        "Insufficient funds",
        "IncorrectProgramId",
        "Invalid amount: must be greater than zero",
        "InvalidAccountData",
        "InvalidAuthority",
        "InvalidMint",
        "Invaild Escrow Id",
        "Arithmetic Overflow",
    ];
    for (error, text) in ALL.iter().zip(texts) {
        assert_eq!(error.to_string(), text);
    }
}

#[test]
fn test_closing_a_record_adds_its_lamports() {
    assert_eq!(CloseRecord::credited(5_000_000_000, 1_677_360), Ok(5_001_677_360));
    assert_eq!(CloseRecord::credited(0, 0), Ok(0));
    assert_eq!(CloseRecord::credited(u64::MAX - 1, 1), Ok(u64::MAX));
    assert_eq!(
        CloseRecord::credited(u64::MAX, 1),
        Err(ProgramError::Custom(EscrowError::ArithmeticOverflow.code()))
    );
    assert_eq!(CloseRecord::credited(u64::MAX, u64::MAX), Err(ProgramError::Custom(11)));
}
