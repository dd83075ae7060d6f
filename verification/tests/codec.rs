use solana_escrow::error::{EscrowError, ProcessError};
use solana_escrow::instruction::EscrowInstruction;
use solana_escrow::state::{Escrow, EscrowStatus, ESCROW_LEN};

fn sample_escrow(status: EscrowStatus) -> Escrow {
    Escrow {
        depositor: [1u8; 32],
        recipient: [2u8; 32],
        amount: 50_000_000,
        status,
        description: *b"order-12345\0\0\0\0\0\0\0\0\0\0\0\0\0\0\0\0\0\0\0\0\0",
        escrow_bump: 254,
        vault_bump: 253,
    }
}

#[test]
fn initialize_instruction_layout_matches_borsh() {
    let description = [7u8; 32];
    let ix = EscrowInstruction::Initialize { amount: 500_000_000, description };
    let bytes = ix.to_bytes();
    assert_eq!(bytes.len(), 41);
    assert_eq!(bytes[0], 0);
    assert_eq!(&bytes[1..9], &500_000_000u64.to_le_bytes());
    let expected = borsh::to_vec(&(0u8, 500_000_000u64, description)).unwrap();
    assert_eq!(bytes, expected);
    assert_eq!(EscrowInstruction::try_from_slice(&bytes), Some(ix));
}

#[test]
fn unit_instructions_are_one_tag_byte() {
    assert_eq!(EscrowInstruction::Fund.to_bytes(), vec![1u8]);
    assert_eq!(EscrowInstruction::Release.to_bytes(), vec![2u8]);
    assert_eq!(EscrowInstruction::Dispute.to_bytes(), vec![3u8]);
    assert_eq!(EscrowInstruction::Cancel.to_bytes(), vec![5u8]);
    for ix in [
        EscrowInstruction::Fund,
        EscrowInstruction::Release,
        EscrowInstruction::Dispute,
        EscrowInstruction::Cancel,
    ] {
        assert_eq!(EscrowInstruction::try_from_slice(&ix.to_bytes()), Some(ix));
    }
}

#[test]
fn resolve_instruction_carries_a_borsh_bool() {
    let yes = EscrowInstruction::Resolve { release_to_recipient: true };
    let no = EscrowInstruction::Resolve { release_to_recipient: false };
    assert_eq!(yes.to_bytes(), borsh::to_vec(&(4u8, true)).unwrap());
    assert_eq!(no.to_bytes(), borsh::to_vec(&(4u8, false)).unwrap());
    assert_eq!(EscrowInstruction::try_from_slice(&[4, 1]), Some(yes));
    assert_eq!(EscrowInstruction::try_from_slice(&[4, 0]), Some(no));
}

#[test]
fn malformed_instruction_data_is_refused() {
    assert_eq!(EscrowInstruction::try_from_slice(&[]), None);
    // unknown tag
    assert_eq!(EscrowInstruction::try_from_slice(&[6]), None);
    assert_eq!(EscrowInstruction::try_from_slice(&[255]), None);
    // bytes left over
    assert_eq!(EscrowInstruction::try_from_slice(&[1, 0]), None);
    assert_eq!(EscrowInstruction::try_from_slice(&[4, 1, 0]), None);
    // truncated fields
    assert_eq!(EscrowInstruction::try_from_slice(&[4]), None);
    let mut init = EscrowInstruction::Initialize { amount: 1, description: [0; 32] }.to_bytes();
    init.pop();
    assert_eq!(EscrowInstruction::try_from_slice(&init), None);
    init.push(0);
    init.push(0);
    assert_eq!(EscrowInstruction::try_from_slice(&init), None);
    // a bool byte other than 0 or 1
    assert_eq!(EscrowInstruction::try_from_slice(&[4, 2]), None);
}

#[test]
fn escrow_record_layout_matches_borsh() {
    let e = sample_escrow(EscrowStatus::Funded);
    let bytes = e.to_bytes();
    assert_eq!(bytes.len(), ESCROW_LEN);
    assert_eq!(ESCROW_LEN, 107);
    let expected = borsh::to_vec(&(
        e.depositor,
        e.recipient,
        e.amount,
        1u8,
        e.description,
        e.escrow_bump,
        e.vault_bump,
    ))
    .unwrap();
    assert_eq!(bytes, expected);
    assert_eq!(Escrow::try_from_slice(&bytes), Some(e));
}

#[test]
fn every_status_round_trips_with_its_tag() {
    let statuses = [
        EscrowStatus::Initialized,
        EscrowStatus::Funded,
        EscrowStatus::Released,
        EscrowStatus::Cancelled,
        EscrowStatus::Disputed,
    ];
    for (tag, status) in statuses.iter().enumerate() {
        assert_eq!(status.to_tag(), tag as u8);
        assert_eq!(EscrowStatus::try_from_tag(tag as u8), Some(*status));
        let e = sample_escrow(*status);
        let bytes = e.to_bytes();
        assert_eq!(bytes[72], tag as u8);
        assert_eq!(Escrow::try_from_slice(&bytes), Some(e));
    }
    assert_eq!(EscrowStatus::try_from_tag(5), None);
}

#[test]
fn malformed_escrow_data_is_refused() {
    let bytes = sample_escrow(EscrowStatus::Initialized).to_bytes();
    assert_eq!(Escrow::try_from_slice(&bytes[..106]), None);
    let mut longer = bytes.clone();
    longer.push(0);
    assert_eq!(Escrow::try_from_slice(&longer), None);
    let mut bad_tag = bytes.clone();
    bad_tag[72] = 5;
    assert_eq!(Escrow::try_from_slice(&bad_tag), None);
    assert_eq!(Escrow::try_from_slice(&[]), None);
}

#[test]
fn escrow_errors_map_to_custom_codes() {
    assert_eq!(ProcessError::from(EscrowError::InvalidState), ProcessError::Custom(0));
    assert_eq!(ProcessError::from(EscrowError::Unauthorized), ProcessError::Custom(1));
    assert_eq!(ProcessError::from(EscrowError::AmountMismatch), ProcessError::Custom(2));
    assert_eq!(EscrowError::AmountMismatch.code(), 2);
}
