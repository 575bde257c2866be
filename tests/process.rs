use satomic_swap::accounts::{validate_common_payment_params, AccountView};
use satomic_swap::error::SwapError;
use satomic_swap::hash::{calculate_hash, calculate_hash_from_secret};
use satomic_swap::instruction::AtomicSwapInstruction;
use satomic_swap::payment::{Payment, PaymentState};
use satomic_swap::processor::{settle_payment, EscrowSeeds, LedgerEffect, SeedKind};
use satomic_swap::process_instruction;

const PROGRAM: [u8; 32] = [77; 32];
const SENDER: [u8; 32] = [11; 32];
const RECEIVER: [u8; 32] = [22; 32];
const VAULT_DATA: [u8; 32] = [33; 32];
const VAULT: [u8; 32] = [44; 32];
const SECRET: [u8; 32] = [5; 32];

fn account(key: [u8; 32], owner: [u8; 32], is_signer: bool) -> AccountView {
    AccountView { key, owner, is_signer, is_writable: true }
}

fn accounts_for(settler: [u8; 32], vault_data_owner: [u8; 32]) -> Vec<AccountView> {
    vec![
        account(settler, [0; 32], true),
        account(VAULT_DATA, vault_data_owner, false),
        account(VAULT, [0; 32], false),
        AccountView { key: [0; 32], owner: [0; 32], is_signer: false, is_writable: false },
    ]
}

fn fund_native(secret_hash: [u8; 32]) -> AtomicSwapInstruction {
    AtomicSwapInstruction::LamportsPayment {
        secret_hash,
        lock_time: 1000,
        amount: 500,
        receiver: RECEIVER,
        rent_exemption_lamports: 100,
        vault_bump_seed: 250,
        vault_bump_seed_data: 251,
    }
}

fn spend(secret: [u8; 32]) -> AtomicSwapInstruction {
    AtomicSwapInstruction::ReceiverSpend {
        secret,
        lock_time: 1000,
        amount: 500,
        sender: SENDER,
        token_program: [0; 32],
        vault_bump_seed: 250,
        vault_bump_seed_data: 251,
    }
}

fn refund(secret_hash: [u8; 32]) -> AtomicSwapInstruction {
    AtomicSwapInstruction::SenderRefund {
        secret_hash,
        lock_time: 1000,
        amount: 500,
        receiver: RECEIVER,
        token_program: [0; 32],
        vault_bump_seed: 250,
        vault_bump_seed_data: 251,
    }
}

fn funded_record(secret_hash: [u8; 32]) -> Vec<u8> {
    let effects = process_instruction(
        &PROGRAM,
        &accounts_for(SENDER, [0; 32]),
        &[],
        &fund_native(secret_hash).pack(),
    )
    .unwrap();
    match effects[1] {
        LedgerEffect::WriteRecord { record, .. } => record.pack(),
        _ => panic!("second effect is not the record write"),
    }
}

#[test]
fn native_funding_creates_record_and_moves_funds() {
    let h = calculate_hash_from_secret(&SECRET);
    let effects = process_instruction(
        &PROGRAM,
        &accounts_for(SENDER, [0; 32]),
        &[],
        &fund_native(h).pack(),
    )
    .unwrap();
    let record = Payment {
        payment_hash: calculate_hash(&RECEIVER, &SENDER, &h, None, 500),
        lock_time: 1000,
        state: PaymentState::PaymentSent,
    };
    assert_eq!(
        effects,
        vec![
            LedgerEffect::CreateAccount {
                payer: SENDER,
                account: VAULT_DATA,
                lamports: 100,
                space: 41,
                owner: PROGRAM,
                seeds: EscrowSeeds { kind: SeedKind::VaultData, lock_time: 1000, secret_hash: h, bump: 251 },
            },
            LedgerEffect::WriteRecord { account: VAULT_DATA, record },
            LedgerEffect::Transfer {
                from: SENDER,
                to: VAULT,
                lamports: 600,
                seeds: EscrowSeeds { kind: SeedKind::Vault, lock_time: 1000, secret_hash: h, bump: 250 },
            },
        ]
    );
}

#[test]
fn spend_with_right_secret_pays_receiver() {
    let h = calculate_hash_from_secret(&SECRET);
    let data = funded_record(h);
    let effects = process_instruction(
        &PROGRAM,
        &accounts_for(RECEIVER, PROGRAM),
        &data,
        &spend(SECRET).pack(),
    )
    .unwrap();
    let spent = Payment {
        payment_hash: calculate_hash(&RECEIVER, &SENDER, &h, None, 500),
        lock_time: 1000,
        state: PaymentState::ReceiverSpent,
    };
    assert_eq!(effects[0], LedgerEffect::WriteRecord { account: VAULT_DATA, record: spent });
    assert_eq!(
        effects[1],
        LedgerEffect::Transfer {
            from: VAULT,
            to: RECEIVER,
            lamports: 500,
            seeds: EscrowSeeds { kind: SeedKind::Vault, lock_time: 1000, secret_hash: h, bump: 250 },
        }
    );
}

#[test]
fn spend_with_wrong_secret_is_a_mismatch() {
    let h = calculate_hash_from_secret(&SECRET);
    let data = funded_record(h);
    for k in 0..32 {
        let mut wrong = SECRET;
        wrong[k] ^= 1;
        assert_eq!(
            process_instruction(&PROGRAM, &accounts_for(RECEIVER, PROGRAM), &data, &spend(wrong).pack()),
            Err(SwapError::InvalidPaymentHash)
        );
    }
    assert_eq!(Payment::unpack(&data).unwrap().state, PaymentState::PaymentSent);
}

#[test]
fn default_receiver_is_refused_before_accounts() {
    let mut bytes = fund_native([1; 32]).pack();
    assert_eq!(bytes.len(), 92);
    for b in &mut bytes[50..82] {
        *b = 0;
    }
    assert_eq!(process_instruction(&PROGRAM, &[], &[], &bytes), Err(SwapError::ReceiverSetToDefault));
}

#[test]
fn second_refund_fails_with_invalid_state() {
    let h = [8; 32];
    let data = funded_record(h);
    let first = process_instruction(&PROGRAM, &accounts_for(SENDER, PROGRAM), &data, &refund(h).pack()).unwrap();
    let written = match first[0] {
        LedgerEffect::WriteRecord { record, .. } => record,
        _ => panic!("first effect is not the record write"),
    };
    assert_eq!(written.state, PaymentState::SenderRefunded);
    assert_eq!(
        first[1],
        LedgerEffect::Transfer {
            from: VAULT,
            to: SENDER,
            lamports: 500,
            seeds: EscrowSeeds { kind: SeedKind::Vault, lock_time: 1000, secret_hash: h, bump: 250 },
        }
    );
    let after = written.pack();
    assert_eq!(
        process_instruction(&PROGRAM, &accounts_for(SENDER, PROGRAM), &after, &refund(h).pack()),
        Err(SwapError::InvalidPaymentState)
    );
}

#[test]
fn spent_record_cannot_be_spent_again() {
    let h = calculate_hash_from_secret(&SECRET);
    let data = funded_record(h);
    let first = process_instruction(&PROGRAM, &accounts_for(RECEIVER, PROGRAM), &data, &spend(SECRET).pack()).unwrap();
    let after = match first[0] {
        LedgerEffect::WriteRecord { record, .. } => record.pack(),
        _ => panic!("first effect is not the record write"),
    };
    assert_eq!(
        process_instruction(&PROGRAM, &accounts_for(RECEIVER, PROGRAM), &after, &spend(SECRET).pack()),
        Err(SwapError::InvalidPaymentState)
    );
    assert_eq!(
        process_instruction(&PROGRAM, &accounts_for(SENDER, PROGRAM), &after, &refund(h).pack()),
        Err(SwapError::InvalidPaymentState)
    );
    let mut wrong = SECRET;
    wrong[0] ^= 1;
    assert_eq!(
        process_instruction(&PROGRAM, &accounts_for(RECEIVER, PROGRAM), &after, &spend(wrong).pack()),
        Err(SwapError::InvalidPaymentState)
    );
    assert_eq!(
        process_instruction(&PROGRAM, &accounts_for(SENDER, PROGRAM), &after, &refund([1; 32]).pack()),
        Err(SwapError::InvalidPaymentState)
    );
}

#[test]
fn token_funding_moves_no_funds() {
    let i = AtomicSwapInstruction::SPLTokenPayment {
        secret_hash: [1; 32],
        lock_time: 9,
        amount: 10,
        receiver: RECEIVER,
        token_program: [6; 32],
        rent_exemption_lamports: 3,
        vault_bump_seed: 1,
        vault_bump_seed_data: 2,
    };
    let effects = process_instruction(&PROGRAM, &accounts_for(SENDER, [0; 32]), &[], &i.pack()).unwrap();
    assert_eq!(effects.len(), 2);
    match effects[1] {
        LedgerEffect::WriteRecord { record, .. } => {
            assert_eq!(record.payment_hash, calculate_hash(&RECEIVER, &SENDER, &[1; 32], Some([6; 32]), 10))
        }
        _ => panic!("second effect is not the record write"),
    }
}

#[test]
fn token_settlement_is_not_supported() {
    let h = [8; 32];
    let mut data = funded_record(h);
    let token = [6; 32];
    let stored = Payment {
        payment_hash: calculate_hash(&RECEIVER, &SENDER, &h, Some(token), 500),
        lock_time: 1000,
        state: PaymentState::PaymentSent,
    };
    data.copy_from_slice(&stored.pack());
    assert_eq!(
        settle_payment(
            &PROGRAM,
            &accounts_for(SENDER, PROGRAM),
            &data,
            RECEIVER,
            h,
            token,
            500,
            1000,
            250,
            PaymentState::SenderRefunded
        ),
        Err(SwapError::NotSupported)
    );
}

#[test]
fn account_checks() {
    let bytes = fund_native([1; 32]).pack();
    assert_eq!(
        process_instruction(&PROGRAM, &accounts_for(SENDER, [0; 32])[..3], &[], &bytes),
        Err(SwapError::NotEnoughAccountKeys)
    );
    let mut a = accounts_for(SENDER, [0; 32]);
    a[0].is_signer = false;
    assert_eq!(process_instruction(&PROGRAM, &a, &[], &bytes), Err(SwapError::MissingRequiredSignature));
    let mut a = accounts_for(SENDER, [0; 32]);
    a[2].is_writable = false;
    assert_eq!(process_instruction(&PROGRAM, &a, &[], &bytes), Err(SwapError::InvalidAccountData));
    let mut a = accounts_for(SENDER, [0; 32]);
    a[2].owner = PROGRAM;
    assert_eq!(process_instruction(&PROGRAM, &a, &[], &bytes), Err(SwapError::IncorrectProgramId));
    let mut a = accounts_for(SENDER, [0; 32]);
    a[3].key = [1; 32];
    assert_eq!(process_instruction(&PROGRAM, &a, &[], &bytes), Err(SwapError::IncorrectProgramId));
    let data = funded_record([8; 32]);
    assert_eq!(
        process_instruction(&PROGRAM, &accounts_for(SENDER, [1; 32]), &data, &refund([8; 32]).pack()),
        Err(SwapError::InvalidOwner)
    );
}

#[test]
fn funding_total_overflow_is_refused() {
    let i = AtomicSwapInstruction::LamportsPayment {
        secret_hash: [1; 32],
        lock_time: 1,
        amount: u64::MAX,
        receiver: RECEIVER,
        rent_exemption_lamports: 1,
        vault_bump_seed: 0,
        vault_bump_seed_data: 0,
    };
    assert_eq!(
        process_instruction(&PROGRAM, &accounts_for(SENDER, [0; 32]), &[], &i.pack()),
        Err(SwapError::ArithmeticOverflow)
    );
}

#[test]
fn seed_bytes_of_escrow_accounts() {
    let s = EscrowSeeds { kind: SeedKind::VaultData, lock_time: 1000, secret_hash: [3; 32], bump: 7 };
    let b = s.seed_bytes();
    assert_eq!(b[0], b"swap_data".to_vec());
    assert_eq!(b[1], 1000u64.to_le_bytes().to_vec());
    assert_eq!(b[2], vec![3u8; 32]);
    assert_eq!(b[3], vec![7u8]);
    let v = EscrowSeeds { kind: SeedKind::Vault, ..s }.seed_bytes();
    assert_eq!(v[0], b"swap".to_vec());
}

#[test]
fn funding_parameter_checks() {
    assert_eq!(validate_common_payment_params(&[0; 32], 5), Err(SwapError::ReceiverSetToDefault));
    assert_eq!(validate_common_payment_params(&RECEIVER, 0), Err(SwapError::AmountZero));
    assert_eq!(validate_common_payment_params(&RECEIVER, 5), Ok(()));
}

#[test]
fn settlement_of_a_missing_record_is_refused() {
    let h = [8; 32];
    let data = funded_record(h);
    assert_eq!(
        process_instruction(&PROGRAM, &accounts_for(SENDER, PROGRAM), &data[..40], &refund(h).pack()),
        Err(SwapError::InvalidPaymentData)
    );
}

#[test]
fn empty_buffer_is_refused() {
    assert_eq!(
        process_instruction(&PROGRAM, &accounts_for(SENDER, [0; 32]), &[], &[]),
        Err(SwapError::InvalidInstruction)
    );
}
