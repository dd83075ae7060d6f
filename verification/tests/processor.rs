use solana_escrow::error::ProcessError;
use solana_escrow::instruction::EscrowInstruction;
use solana_escrow::processor::{
    cancel_with_vault_address, fund_with_vault_address, initialize_with_addresses, process_cancel, process_dispute,
    process_fund, process_initialize, process_instruction, process_release, process_resolve, AccountSnapshot, Effect, Funding,
};
use solana_escrow::state::{Escrow, EscrowStatus};
use solana_program::pubkey::Pubkey;

const PROGRAM: [u8; 32] = [9u8; 32];
const DEPOSITOR: [u8; 32] = [1u8; 32];
const RECIPIENT: [u8; 32] = [2u8; 32];
const STRANGER: [u8; 32] = [3u8; 32];
const SYSTEM: [u8; 32] = [0u8; 32];
const DESCRIPTION: [u8; 32] = [42u8; 32];

fn escrow_pda() -> ([u8; 32], u8) {
    let (k, b) = Pubkey::find_program_address(
        &[b"escrow", &DEPOSITOR, &RECIPIENT],
        &Pubkey::new_from_array(PROGRAM),
    );
    (k.to_bytes(), b)
}

fn vault_pda() -> ([u8; 32], u8) {
    let (escrow, _) = escrow_pda();
    let (k, b) = Pubkey::find_program_address(&[b"vault", &escrow], &Pubkey::new_from_array(PROGRAM));
    (k.to_bytes(), b)
}

fn account(key: [u8; 32], is_signer: bool, lamports: u64, data: Vec<u8>) -> AccountSnapshot {
    AccountSnapshot { key, is_signer, lamports, data }
}

fn record(status: EscrowStatus) -> Escrow {
    Escrow {
        depositor: DEPOSITOR,
        recipient: RECIPIENT,
        amount: 1_000,
        status,
        description: DESCRIPTION,
        escrow_bump: escrow_pda().1,
        vault_bump: vault_pda().1,
    }
}

fn escrow_account(status: EscrowStatus) -> AccountSnapshot {
    account(escrow_pda().0, false, 1_500, record(status).to_bytes())
}

fn vault_account() -> AccountSnapshot {
    account(vault_pda().0, false, 0, vec![])
}

fn written(effects: &[Effect]) -> Escrow {
    match effects.last() {
        Some(Effect::WriteData { data, .. }) => Escrow::try_from_slice(data).unwrap(),
        other => panic!("last effect is not a write: {:?}", other),
    }
}

fn vault_seeds() -> Vec<Vec<u8>> {
    vec![b"vault".to_vec(), escrow_pda().0.to_vec(), vec![vault_pda().1]]
}

fn init_accounts() -> Vec<AccountSnapshot> {
    vec![
        account(DEPOSITOR, true, 10_000, vec![]),
        account(RECIPIENT, false, 0, vec![]),
        account(escrow_pda().0, false, 0, vec![]),
        vault_account(),
        account(SYSTEM, false, 1, vec![]),
    ]
}

#[test]
fn initialize_creates_both_accounts_at_their_program_addresses() {
    let effects = process_initialize(&PROGRAM, &init_accounts(), 1_000, DESCRIPTION).unwrap();
    let (escrow_key, escrow_bump) = escrow_pda();
    assert_eq!(effects.len(), 3);
    assert_eq!(
        effects[0],
        Effect::CreateAccount {
            payer: 0,
            account: 2,
            system_program: 4,
            funding: Funding::RentExempt,
            space: 107,
            signer_seeds: vec![b"escrow".to_vec(), DEPOSITOR.to_vec(), RECIPIENT.to_vec(), vec![escrow_bump]],
        }
    );
    assert_eq!(effects[1], Effect::WriteData { account: 2, data: record(EscrowStatus::Initialized).to_bytes() });
    assert_eq!(
        effects[2],
        Effect::CreateAccount {
            payer: 0,
            account: 3,
            system_program: 4,
            funding: Funding::Lamports(0),
            space: 0,
            signer_seeds: vault_seeds(),
        }
    );
    assert_eq!(written(&effects[..2]).status, EscrowStatus::Initialized);
    assert_eq!(escrow_key, init_accounts()[2].key);
}

#[test]
fn initialize_refusals_in_order() {
    let accounts = init_accounts();
    assert_eq!(
        process_initialize(&PROGRAM, &accounts[..4], 1_000, DESCRIPTION),
        Err(ProcessError::NotEnoughAccountKeys)
    );
    let mut unsigned = init_accounts();
    unsigned[0].is_signer = false;
    assert_eq!(
        process_initialize(&PROGRAM, &unsigned, 0, DESCRIPTION),
        Err(ProcessError::MissingRequiredSignature)
    );
    assert_eq!(process_initialize(&PROGRAM, &accounts, 0, DESCRIPTION), Err(ProcessError::InvalidArgument));
    let mut wrong_escrow = init_accounts();
    wrong_escrow[2].key = STRANGER;
    assert_eq!(process_initialize(&PROGRAM, &wrong_escrow, 1, DESCRIPTION), Err(ProcessError::InvalidSeeds));
    let mut wrong_vault = init_accounts();
    wrong_vault[3].key = escrow_pda().0;
    assert_eq!(process_initialize(&PROGRAM, &wrong_vault, 1, DESCRIPTION), Err(ProcessError::InvalidSeeds));
    // another program derives other addresses
    assert_eq!(process_initialize(&[8u8; 32], &accounts, 1, DESCRIPTION), Err(ProcessError::InvalidSeeds));
}

#[test]
fn fund_moves_the_agreed_amount_into_the_vault() {
    let accounts = vec![
        account(DEPOSITOR, true, 10_000, vec![]),
        escrow_account(EscrowStatus::Initialized),
        vault_account(),
        account(SYSTEM, false, 1, vec![]),
    ];
    let effects = process_fund(&PROGRAM, &accounts).unwrap();
    assert_eq!(
        effects[0],
        Effect::Transfer { from: 0, to: 2, system_program: Some(3), lamports: 1_000, signer_seeds: vec![] }
    );
    assert_eq!(written(&effects), record(EscrowStatus::Funded));
    assert_eq!(effects.len(), 2);
}

#[test]
fn fund_refusals() {
    let base = vec![
        account(DEPOSITOR, true, 10_000, vec![]),
        escrow_account(EscrowStatus::Initialized),
        vault_account(),
        account(SYSTEM, false, 1, vec![]),
    ];
    assert_eq!(process_fund(&PROGRAM, &base[..3]), Err(ProcessError::NotEnoughAccountKeys));
    let mut a = base.clone();
    a[1].data = vec![0; 10];
    assert_eq!(process_fund(&PROGRAM, &a), Err(ProcessError::InvalidAccountData));
    let mut a = base.clone();
    a[0].key = STRANGER;
    assert_eq!(process_fund(&PROGRAM, &a), Err(ProcessError::IllegalOwner));
    let mut a = base.clone();
    a[1] = escrow_account(EscrowStatus::Funded);
    assert_eq!(process_fund(&PROGRAM, &a), Err(ProcessError::InvalidAccountData));
    let mut a = base.clone();
    a[2].key = STRANGER;
    assert_eq!(process_fund(&PROGRAM, &a), Err(ProcessError::InvalidSeeds));
    let mut a = base.clone();
    a[0].is_signer = false;
    assert_eq!(process_fund(&PROGRAM, &a), Err(ProcessError::MissingRequiredSignature));
}

fn release_accounts(status: EscrowStatus) -> Vec<AccountSnapshot> {
    vec![
        account(DEPOSITOR, true, 10_000, vec![]),
        account(RECIPIENT, false, 0, vec![]),
        escrow_account(status),
        account(vault_pda().0, false, 1_000, vec![]),
        account(SYSTEM, false, 1, vec![]),
    ]
}

#[test]
fn release_pays_the_recorded_recipient() {
    let effects = process_release(&release_accounts(EscrowStatus::Funded)).unwrap();
    assert_eq!(
        effects[0],
        Effect::Transfer { from: 3, to: 1, system_program: Some(4), lamports: 1_000, signer_seeds: vault_seeds() }
    );
    assert_eq!(written(&effects), record(EscrowStatus::Released));
}

#[test]
fn release_refusals() {
    let mut a = release_accounts(EscrowStatus::Funded);
    a[1].key = STRANGER;
    assert_eq!(process_release(&a), Err(ProcessError::InvalidArgument));
    let mut a = release_accounts(EscrowStatus::Funded);
    a[0].key = RECIPIENT;
    assert_eq!(process_release(&a), Err(ProcessError::IllegalOwner));
    assert_eq!(
        process_release(&release_accounts(EscrowStatus::Initialized)),
        Err(ProcessError::InvalidAccountData)
    );
    assert_eq!(
        process_release(&release_accounts(EscrowStatus::Funded)[..3]),
        Err(ProcessError::NotEnoughAccountKeys)
    );
}

#[test]
fn either_party_can_dispute_a_funded_escrow() {
    for who in [DEPOSITOR, RECIPIENT] {
        let accounts = vec![account(who, true, 0, vec![]), escrow_account(EscrowStatus::Funded)];
        let effects = process_dispute(&accounts).unwrap();
        assert_eq!(effects.len(), 1);
        assert_eq!(written(&effects), record(EscrowStatus::Disputed));
    }
    let stranger = vec![account(STRANGER, true, 0, vec![]), escrow_account(EscrowStatus::Funded)];
    assert_eq!(process_dispute(&stranger), Err(ProcessError::IllegalOwner));
    let unfunded = vec![account(RECIPIENT, true, 0, vec![]), escrow_account(EscrowStatus::Initialized)];
    assert_eq!(process_dispute(&unfunded), Err(ProcessError::InvalidAccountData));
    let unsigned = vec![account(RECIPIENT, false, 0, vec![]), escrow_account(EscrowStatus::Funded)];
    assert_eq!(process_dispute(&unsigned), Err(ProcessError::MissingRequiredSignature));
}

fn resolve_accounts(status: EscrowStatus) -> Vec<AccountSnapshot> {
    vec![
        account(DEPOSITOR, true, 10_000, vec![]),
        account(DEPOSITOR, true, 10_000, vec![]),
        account(RECIPIENT, false, 0, vec![]),
        escrow_account(status),
        account(vault_pda().0, false, 1_000, vec![]),
        account(SYSTEM, false, 1, vec![]),
    ]
}

#[test]
fn resolve_pays_recipient_or_refunds_depositor() {
    let to_recipient = process_resolve(&resolve_accounts(EscrowStatus::Disputed), true).unwrap();
    assert_eq!(
        to_recipient[0],
        Effect::Transfer { from: 4, to: 2, system_program: Some(5), lamports: 1_000, signer_seeds: vault_seeds() }
    );
    assert_eq!(written(&to_recipient), record(EscrowStatus::Released));
    let to_depositor = process_resolve(&resolve_accounts(EscrowStatus::Disputed), false).unwrap();
    assert_eq!(
        to_depositor[0],
        Effect::Transfer { from: 4, to: 1, system_program: Some(5), lamports: 1_000, signer_seeds: vault_seeds() }
    );
    assert_eq!(written(&to_depositor), record(EscrowStatus::Cancelled));
}

#[test]
fn resolve_refusals() {
    assert_eq!(
        process_resolve(&resolve_accounts(EscrowStatus::Funded), true),
        Err(ProcessError::InvalidAccountData)
    );
    let mut a = resolve_accounts(EscrowStatus::Disputed);
    a[0].key = RECIPIENT;
    assert_eq!(process_resolve(&a, true), Err(ProcessError::IllegalOwner));
    assert_eq!(
        process_resolve(&resolve_accounts(EscrowStatus::Disputed)[..4], true),
        Err(ProcessError::NotEnoughAccountKeys)
    );
}

#[test]
fn resolve_pays_only_the_recorded_parties() {
    let mut a = resolve_accounts(EscrowStatus::Disputed);
    a[2].key = STRANGER;
    assert_eq!(process_resolve(&a, true), Err(ProcessError::InvalidArgument));
    // the depositor side is not paid, so a stranger there does not matter
    let mut b = resolve_accounts(EscrowStatus::Disputed);
    b[1].key = STRANGER;
    assert!(process_resolve(&b, true).is_ok());
    assert_eq!(process_resolve(&b, false), Err(ProcessError::InvalidArgument));
    assert!(process_resolve(&a, false).is_ok());
}

fn cancel_accounts(depositor: u64, escrow: u64, vault: u64) -> Vec<AccountSnapshot> {
    let mut e = escrow_account(EscrowStatus::Initialized);
    e.lamports = escrow;
    vec![account(DEPOSITOR, true, depositor, vec![]), e, account(vault_pda().0, false, vault, vec![])]
}

#[test]
fn cancel_returns_rent_to_the_depositor() {
    let effects = process_cancel(&PROGRAM, &cancel_accounts(1_000, 2_000, 0)).unwrap();
    assert_eq!(effects.len(), 3);
    assert_eq!(effects[0], Effect::SetLamports { account: 1, lamports: 0 });
    assert_eq!(effects[1], Effect::SetLamports { account: 0, lamports: 3_000 });
    assert_eq!(written(&effects), record(EscrowStatus::Cancelled));
}

#[test]
fn cancel_also_empties_a_funded_vault() {
    let effects = process_cancel(&PROGRAM, &cancel_accounts(1_000, 2_000, 50)).unwrap();
    assert_eq!(
        &effects[..4],
        &[
            Effect::SetLamports { account: 1, lamports: 0 },
            Effect::SetLamports { account: 0, lamports: 3_000 },
            Effect::SetLamports { account: 2, lamports: 0 },
            Effect::SetLamports { account: 0, lamports: 3_050 },
        ]
    );
}

#[test]
fn cancel_refuses_on_overflow() {
    assert_eq!(process_cancel(&PROGRAM, &cancel_accounts(u64::MAX, 1, 0)), Err(ProcessError::ArithmeticOverflow));
    assert_eq!(
        process_cancel(&PROGRAM, &cancel_accounts(u64::MAX - 10, 10, 1)),
        Err(ProcessError::ArithmeticOverflow)
    );
    assert!(process_cancel(&PROGRAM, &cancel_accounts(u64::MAX - 10, 10, 0)).is_ok());
}

#[test]
fn cancel_with_an_account_passed_twice_reads_it_once() {
    // The escrow account stands in for the depositor too: one account, one balance.
    let mut e = escrow_account(EscrowStatus::Initialized);
    e.lamports = 700;
    let mut rec = record(EscrowStatus::Initialized);
    rec.depositor = e.key;
    e.data = rec.to_bytes();
    let mut depositor = e.clone();
    depositor.is_signer = true;
    let accounts = vec![depositor, e, account(vault_pda().0, false, 0, vec![])];
    let effects = process_cancel(&PROGRAM, &accounts).unwrap();
    assert_eq!(effects[0], Effect::SetLamports { account: 1, lamports: 0 });
    assert_eq!(effects[1], Effect::SetLamports { account: 0, lamports: 700 });
}

#[test]
fn cancel_empties_only_the_escrows_own_vault() {
    let mut a = cancel_accounts(1, 1, 5_000);
    a[2].key = STRANGER;
    assert_eq!(process_cancel(&PROGRAM, &a), Err(ProcessError::InvalidSeeds));
    assert_eq!(
        cancel_with_vault_address(&cancel_accounts(1, 1, 0), None),
        Err(ProcessError::NoViableProgramAddress)
    );
    assert_eq!(
        cancel_with_vault_address(&a, Some((STRANGER, 3))),
        Ok(vec![
            Effect::SetLamports { account: 1, lamports: 0 },
            Effect::SetLamports { account: 0, lamports: 2 },
            Effect::SetLamports { account: 2, lamports: 0 },
            Effect::SetLamports { account: 0, lamports: 5_002 },
            Effect::WriteData { account: 1, data: record(EscrowStatus::Cancelled).to_bytes() },
        ])
    );
    // another program derives another vault address
    assert_eq!(process_cancel(&[8u8; 32], &cancel_accounts(1, 1, 0)), Err(ProcessError::InvalidSeeds));
}

#[test]
fn cancel_refusals() {
    let mut a = cancel_accounts(1, 1, 0);
    a[1] = escrow_account(EscrowStatus::Funded);
    assert_eq!(process_cancel(&PROGRAM, &a), Err(ProcessError::InvalidAccountData));
    let mut a = cancel_accounts(1, 1, 0);
    a[0].key = RECIPIENT;
    assert_eq!(process_cancel(&PROGRAM, &a), Err(ProcessError::IllegalOwner));
    assert_eq!(process_cancel(&PROGRAM, &cancel_accounts(1, 1, 0)[..2]), Err(ProcessError::NotEnoughAccountKeys));
}

#[test]
fn malformed_instruction_data_is_invalid_instruction_data() {
    assert_eq!(process_instruction(&PROGRAM, &[], &[]), Err(ProcessError::InvalidInstructionData));
    assert_eq!(process_instruction(&PROGRAM, &[], &[9]), Err(ProcessError::InvalidInstructionData));
    assert_eq!(process_instruction(&PROGRAM, &[], &[2, 0]), Err(ProcessError::InvalidInstructionData));
    // well-formed data with too few accounts is refused by the instruction itself
    assert_eq!(process_instruction(&PROGRAM, &[], &[2]), Err(ProcessError::NotEnoughAccountKeys));
}

/// Applies the data writes of accepted effects to a record, as the runtime would.
fn apply_write(effects: &[Effect], accounts: &mut [AccountSnapshot]) {
    for e in effects {
        if let Effect::WriteData { account, data } = e {
            accounts[*account].data = data.clone();
        }
    }
}

#[test]
fn lifecycle_through_dispute_and_settled_escrow_is_final() {
    let mut accounts = init_accounts();
    let init = EscrowInstruction::Initialize { amount: 1_000, description: DESCRIPTION }.to_bytes();
    let effects = process_instruction(&PROGRAM, &accounts, &init).unwrap();
    apply_write(&effects, &mut accounts);
    let escrow_data = accounts[2].data.clone();

    let mut fund_accounts = vec![
        account(DEPOSITOR, true, 10_000, vec![]),
        account(escrow_pda().0, false, 1_500, escrow_data),
        vault_account(),
        account(SYSTEM, false, 1, vec![]),
    ];
    let effects = process_instruction(&PROGRAM, &fund_accounts, &EscrowInstruction::Fund.to_bytes()).unwrap();
    apply_write(&effects, &mut fund_accounts);
    // funding twice is refused
    assert_eq!(
        process_instruction(&PROGRAM, &fund_accounts, &EscrowInstruction::Fund.to_bytes()),
        Err(ProcessError::InvalidAccountData)
    );

    let mut dispute_accounts = vec![account(RECIPIENT, true, 0, vec![]), fund_accounts[1].clone()];
    let effects =
        process_instruction(&PROGRAM, &dispute_accounts, &EscrowInstruction::Dispute.to_bytes()).unwrap();
    apply_write(&effects, &mut dispute_accounts);

    let mut resolve = resolve_accounts(EscrowStatus::Disputed);
    resolve[3] = dispute_accounts[1].clone();
    let data = EscrowInstruction::Resolve { release_to_recipient: false }.to_bytes();
    let effects = process_instruction(&PROGRAM, &resolve, &data).unwrap();
    apply_write(&effects, &mut resolve);
    assert_eq!(Escrow::try_from_slice(&resolve[3].data).unwrap().status, EscrowStatus::Cancelled);

    // a settled escrow accepts nothing further
    let mut release = release_accounts(EscrowStatus::Funded);
    release[2] = resolve[3].clone();
    assert_eq!(
        process_instruction(&PROGRAM, &release, &EscrowInstruction::Release.to_bytes()),
        Err(ProcessError::InvalidAccountData)
    );
    assert_eq!(
        process_instruction(&PROGRAM, &resolve, &data),
        Err(ProcessError::InvalidAccountData)
    );
    let cancel = vec![resolve[0].clone(), resolve[3].clone(), vault_account()];
    assert_eq!(
        process_instruction(&PROGRAM, &cancel, &EscrowInstruction::Cancel.to_bytes()),
        Err(ProcessError::InvalidAccountData)
    );
}

#[test]
fn initialize_with_given_addresses() {
    let accounts = init_accounts();
    let escrow = Some(escrow_pda());
    let vault = Some(vault_pda());
    let effects = initialize_with_addresses(&accounts, 1_000, DESCRIPTION, escrow, vault).unwrap();
    assert_eq!(effects[1], Effect::WriteData { account: 2, data: record(EscrowStatus::Initialized).to_bytes() });
    assert_eq!(
        initialize_with_addresses(&accounts, 1_000, DESCRIPTION, None, vault),
        Err(ProcessError::NoViableProgramAddress)
    );
    assert_eq!(
        initialize_with_addresses(&accounts, 1_000, DESCRIPTION, escrow, None),
        Err(ProcessError::NoViableProgramAddress)
    );
    // the bump seeds found are the ones recorded and signed with
    let other = Some((escrow_pda().0, 7u8));
    let effects = initialize_with_addresses(&accounts, 1_000, DESCRIPTION, other, vault).unwrap();
    let rec = Escrow::try_from_slice(match &effects[1] {
        Effect::WriteData { data, .. } => data,
        _ => panic!("second effect is not a write"),
    })
    .unwrap();
    assert_eq!(rec.escrow_bump, 7);
    assert_eq!(
        initialize_with_addresses(&accounts, 1_000, DESCRIPTION, Some(([5u8; 32], 1)), vault),
        Err(ProcessError::InvalidSeeds)
    );
}

#[test]
fn fund_with_given_vault_address() {
    let accounts = vec![
        account(DEPOSITOR, true, 10_000, vec![]),
        escrow_account(EscrowStatus::Initialized),
        account([6u8; 32], false, 0, vec![]),
        account(SYSTEM, false, 1, vec![]),
    ];
    assert!(fund_with_vault_address(&accounts, Some(([6u8; 32], 200))).is_ok());
    assert_eq!(fund_with_vault_address(&accounts, None), Err(ProcessError::NoViableProgramAddress));
    assert_eq!(
        fund_with_vault_address(&accounts, Some((vault_pda().0, vault_pda().1))),
        Err(ProcessError::InvalidSeeds)
    );
    // the lookup in process_fund finds the real vault, not the one given here
    assert_eq!(process_fund(&PROGRAM, &accounts), Err(ProcessError::InvalidSeeds));
}

#[test]
fn release_and_resolve_work_with_their_documented_account_lists() {
    let four = &release_accounts(EscrowStatus::Funded)[..4];
    let effects = process_release(four).unwrap();
    assert_eq!(
        effects[0],
        Effect::Transfer { from: 3, to: 1, system_program: None, lamports: 1_000, signer_seeds: vault_seeds() }
    );
    assert_eq!(written(&effects), record(EscrowStatus::Released));
    let five = &resolve_accounts(EscrowStatus::Disputed)[..5];
    let effects = process_resolve(five, true).unwrap();
    assert_eq!(
        effects[0],
        Effect::Transfer { from: 4, to: 2, system_program: None, lamports: 1_000, signer_seeds: vault_seeds() }
    );
    assert_eq!(written(&effects), record(EscrowStatus::Released));
    let effects = process_resolve(five, false).unwrap();
    assert_eq!(
        effects[0],
        Effect::Transfer { from: 4, to: 1, system_program: None, lamports: 1_000, signer_seeds: vault_seeds() }
    );
}

#[test]
fn refund_after_funding_restores_the_balances() {
    // Follow the balances of depositor and vault through Fund, Dispute and a refund.
    let mut depositor: i128 = 10_000;
    let mut vault: i128 = 0;
    let fund_accounts = vec![
        account(DEPOSITOR, true, 10_000, vec![]),
        escrow_account(EscrowStatus::Initialized),
        vault_account(),
        account(SYSTEM, false, 1, vec![]),
    ];
    let apply = |effects: &[Effect], from_key: &dyn Fn(usize) -> [u8; 32], d: &mut i128, v: &mut i128| {
        for e in effects {
            if let Effect::Transfer { from, to, lamports, .. } = e {
                for (idx, sign) in [(*from, -1i128), (*to, 1i128)] {
                    let k = from_key(idx);
                    if k == DEPOSITOR {
                        *d += sign * (*lamports as i128);
                    } else if k == vault_pda().0 {
                        *v += sign * (*lamports as i128);
                    }
                }
            }
        }
    };
    let fund = process_fund(&PROGRAM, &fund_accounts).unwrap();
    apply(&fund, &|i| fund_accounts[i].key, &mut depositor, &mut vault);
    assert_eq!((depositor, vault), (9_000, 1_000));
    let dispute_accounts = vec![account(RECIPIENT, true, 0, vec![]), escrow_account(EscrowStatus::Funded)];
    let dispute = process_dispute(&dispute_accounts).unwrap();
    apply(&dispute, &|i| dispute_accounts[i].key, &mut depositor, &mut vault);
    let resolve_accounts = resolve_accounts(EscrowStatus::Disputed);
    let refund = process_resolve(&resolve_accounts, false).unwrap();
    apply(&refund, &|i| resolve_accounts[i].key, &mut depositor, &mut vault);
    assert_eq!((depositor, vault), (10_000, 0));
    assert_eq!(written(&refund), record(EscrowStatus::Cancelled));
}
