use borsh::BorshSerialize;
use escrow_native::address::Address;
use escrow_native::error::ProgramError;
use escrow_native::instructions::instruction::EscrowInstruction;
use escrow_native::state::Escrow;

type RecordFields = (u64, [u8; 32], [u8; 32], [u8; 32], u64, u8);

fn sample() -> Escrow {
    Escrow {
        escrow_id: 10,
        maker: Address { bytes: [1u8; 32] },
        token_mint_a: Address { bytes: [3u8; 32] },
        token_mint_b: Address { bytes: [4u8; 32] },
        receive: 200_000_000,
        bump: 254,
    }
}

fn fields(record: &Escrow) -> RecordFields {
    (
        record.escrow_id,
        record.maker.bytes,
        record.token_mint_a.bytes,
        record.token_mint_b.bytes,
        record.receive,
        record.bump,
    )
}

#[test]
fn test_record_layout() {
    let bytes = sample().to_bytes();
    assert_eq!(bytes.len(), 113);
    assert_eq!(Escrow::ACCOUNT_LEN, 8 + 32 + 32 + 32 + 8 + 1);
    let mut expected = vec![10u8, 0, 0, 0, 0, 0, 0, 0];
    expected.extend_from_slice(&[1u8; 32]);
    expected.extend_from_slice(&[3u8; 32]);
    expected.extend_from_slice(&[4u8; 32]);
    expected.extend_from_slice(&[0x00, 0xC2, 0xEB, 0x0B, 0, 0, 0, 0]);
    expected.push(254);
    assert_eq!(bytes, expected);
    // the layout is the one that borsh gives the fields in this order
    assert_eq!(bytes, borsh::to_vec(&fields(&sample())).expect("serialises"));
}

#[test]
fn test_record_roundtrip() {
    let records = [
        sample(),
        Escrow {
            escrow_id: u64::MAX,
            maker: Address { bytes: [255u8; 32] },
            token_mint_a: Address { bytes: [0u8; 32] },
            token_mint_b: Address { bytes: [128u8; 32] },
            receive: 0x0102030405060708,
            bump: 0,
        },
    ];
    for record in records {
        let bytes = record.to_bytes();
        assert_eq!(Escrow::unpack_the_slice_data(&bytes), Ok(record));
        let read = borsh::from_slice::<RecordFields>(&bytes).expect("deserialises");
        assert_eq!(read, fields(&record));
    }
    let mut varied: Vec<u8> = (0..113u32).map(|i| (i * 7 + 3) as u8).collect();
    let record = Escrow::unpack_the_slice_data(&varied).expect("113 bytes decode");
    assert_eq!(record.escrow_id, u64::from_le_bytes([3, 10, 17, 24, 31, 38, 45, 52]));
    assert_eq!(record.maker.bytes[0], 59);
    assert_eq!(record.token_mint_a.bytes[0], (40u32 * 7 + 3) as u8);
    assert_eq!(record.token_mint_b.bytes[31], (103u32 * 7 + 3) as u8);
    assert_eq!(record.bump, (112u32 * 7 + 3) as u8);
    assert_eq!(record.to_bytes(), varied);
    assert_eq!(fields(&record), borsh::from_slice::<RecordFields>(&varied).expect("deserialises"));
    varied.push(0);
    assert!(borsh::from_slice::<RecordFields>(&varied).is_err());
}

#[test]
fn test_record_of_wrong_length_is_refused() {
    let bytes = sample().to_bytes();
    for len in [0usize, 1, 112] {
        assert_eq!(
            Escrow::unpack_the_slice_data(&bytes[..len]),
            Err(ProgramError::InvalidAccountData)
        );
    }
    let mut long = bytes.clone();
    long.push(0);
    assert_eq!(Escrow::unpack_the_slice_data(&long), Err(ProgramError::InvalidAccountData));
    assert_eq!(Escrow::unpack_the_slice_data(&[0u8; 165]), Err(ProgramError::InvalidAccountData));
}

#[test]
fn test_record_is_written_to_the_start_of_a_buffer() {
    let record = sample();
    let bytes = record.to_bytes();

    let mut exact = vec![9u8; 113];
    assert_eq!(record.pack_the_slice_data(&mut exact), Ok(()));
    assert_eq!(exact, bytes);

    let mut long = vec![9u8; 120];
    assert_eq!(record.pack_the_slice_data(&mut long), Ok(()));
    assert_eq!(&long[..113], &bytes[..]);
    assert_eq!(&long[113..], &[9u8; 7]);

    for len in [0usize, 7, 8, 50, 112] {
        let mut short = vec![9u8; len];
        assert_eq!(record.pack_the_slice_data(&mut short), Err(ProgramError::BorshIoError));
        assert_eq!(&short[..], &bytes[..len]);
        // a writer over a short slice is left in the same state by borsh
        let mut theirs = vec![9u8; len];
        assert!(fields(&record).serialize(&mut &mut theirs[..]).is_err());
        assert_eq!(theirs, short);
    }
    let mut theirs = vec![9u8; 120];
    fields(&record).serialize(&mut &mut theirs[..]).expect("fits");
    assert_eq!(theirs, long);
}

#[test]
fn test_instruction_layout() {
    let initialize = EscrowInstruction::InitializeEscrow {
        escrow_id: 10,
        deposit_amount: 100_000_000,
        receive_amount: 200_000_000,
    };
    let mut expected = vec![0u8];
    expected.extend_from_slice(&10u64.to_le_bytes());
    expected.extend_from_slice(&100_000_000u64.to_le_bytes());
    expected.extend_from_slice(&200_000_000u64.to_le_bytes());
    assert_eq!(initialize.pack(), expected);
    assert_eq!(expected.len(), 25);
    assert_eq!(
        initialize.pack(),
        borsh::to_vec(&(0u8, 10u64, 100_000_000u64, 200_000_000u64)).expect("serialises")
    );
    assert_eq!(
        EscrowInstruction::ReleaseFunds { escrow_id: 0x0102030405060708 }.pack(),
        vec![1u8, 8, 7, 6, 5, 4, 3, 2, 1]
    );
    assert_eq!(
        EscrowInstruction::CancelEscrow { escrow_id: 258 }.pack(),
        vec![2u8, 2, 1, 0, 0, 0, 0, 0, 0]
    );
    assert_eq!(initialize.escrow_id(), 10);
    assert_eq!(EscrowInstruction::CancelEscrow { escrow_id: 258 }.escrow_id(), 258);
}

#[test]
fn test_instruction_roundtrip() {
    let instructions = [
        EscrowInstruction::InitializeEscrow {
            escrow_id: 10,
            deposit_amount: 100_000_000,
            receive_amount: 200_000_000,
        },
        EscrowInstruction::InitializeEscrow {
            escrow_id: u64::MAX,
            deposit_amount: 0,
            receive_amount: u64::MAX,
        },
        EscrowInstruction::ReleaseFunds { escrow_id: 0 },
        EscrowInstruction::ReleaseFunds { escrow_id: u64::MAX },
        EscrowInstruction::CancelEscrow { escrow_id: 7 },
    ];
    for instruction in instructions {
        assert_eq!(EscrowInstruction::unpack(&instruction.pack()), Ok(instruction));
    }
    assert_eq!(
        EscrowInstruction::unpack(&[1, 10, 0, 0, 0, 0, 0, 0, 0]),
        Ok(EscrowInstruction::ReleaseFunds { escrow_id: 10 })
    );
    assert_eq!(
        EscrowInstruction::unpack(&[2, 0, 1, 0, 0, 0, 0, 0, 0]),
        Ok(EscrowInstruction::CancelEscrow { escrow_id: 256 })
    );
}

#[test]
fn test_malformed_instruction_is_refused() {
    let refused = Err(ProgramError::InvalidAccountData);
    // no tag
    assert_eq!(EscrowInstruction::unpack(&[]), refused);
    // unknown tags
    assert_eq!(EscrowInstruction::unpack(&[3, 0, 0, 0, 0, 0, 0, 0, 0]), refused);
    assert_eq!(EscrowInstruction::unpack(&[255, 0, 0, 0, 0, 0, 0, 0, 0]), refused);
    // undersized payloads
    assert_eq!(EscrowInstruction::unpack(&[0]), refused);
    assert_eq!(EscrowInstruction::unpack(&[0u8; 24]), refused);
    assert_eq!(EscrowInstruction::unpack(&[1, 0, 0, 0, 0, 0, 0, 0]), refused);
    assert_eq!(EscrowInstruction::unpack(&[2]), refused);
    // oversized payloads
    assert_eq!(EscrowInstruction::unpack(&[0u8; 26]), refused);
    assert_eq!(EscrowInstruction::unpack(&[1, 0, 0, 0, 0, 0, 0, 0, 0, 0]), refused);
    // the payload of another tag
    assert_eq!(EscrowInstruction::unpack(&[0, 0, 0, 0, 0, 0, 0, 0, 0]), refused);
    let mut long = vec![1u8];
    long.extend_from_slice(&[0u8; 24]);
    assert_eq!(EscrowInstruction::unpack(&long), refused);
}
