use satomic_swap::error::SwapError;
use satomic_swap::instruction::AtomicSwapInstruction;

fn all_variants() -> Vec<AtomicSwapInstruction> {
    vec![
        AtomicSwapInstruction::LamportsPayment {
            secret_hash: [1; 32],
            lock_time: 1000,
            amount: 500,
            receiver: [2; 32],
            rent_exemption_lamports: 890_880,
            vault_bump_seed: 254,
            vault_bump_seed_data: 253,
        },
        AtomicSwapInstruction::SPLTokenPayment {
            secret_hash: [3; 32],
            lock_time: u64::MAX,
            amount: 1,
            receiver: [4; 32],
            token_program: [5; 32],
            rent_exemption_lamports: 7,
            vault_bump_seed: 1,
            vault_bump_seed_data: 2,
        },
        AtomicSwapInstruction::ReceiverSpend {
            secret: [6; 32],
            lock_time: 42,
            amount: 0x0102_0304_0506_0708,
            sender: [7; 32],
            token_program: [0; 32],
            vault_bump_seed: 9,
            vault_bump_seed_data: 10,
        },
        AtomicSwapInstruction::SenderRefund {
            secret_hash: [8; 32],
            lock_time: 1,
            amount: u64::MAX,
            receiver: [9; 32],
            token_program: [0; 32],
            vault_bump_seed: 255,
            vault_bump_seed_data: 0,
        },
    ]
}

#[test]
fn pack_unpack_round_trip_each_variant() {
    for i in all_variants() {
        let bytes = i.pack();
        assert_eq!(AtomicSwapInstruction::unpack(bytes[0], &bytes), Ok(i));
    }
}

#[test]
fn packed_lengths_match_tags() {
    let lens: Vec<usize> = all_variants().iter().map(|i| i.pack().len()).collect();
    assert_eq!(lens, vec![92, 124, 116, 116]);
    let tags: Vec<u8> = all_variants().iter().map(|i| i.pack()[0]).collect();
    assert_eq!(tags, vec![0, 1, 2, 3]);
}

#[test]
fn packed_layout_agrees_with_borsh_fields() {
    let i = all_variants()[0];
    let bytes = i.pack();
    let mut expected = vec![0u8, 0u8];
    expected.extend(borsh::to_vec(&[1u8; 32]).unwrap());
    expected.extend(borsh::to_vec(&1000u64).unwrap());
    expected.extend(borsh::to_vec(&500u64).unwrap());
    expected.extend(borsh::to_vec(&[2u8; 32]).unwrap());
    expected.extend(borsh::to_vec(&890_880u64).unwrap());
    expected.extend(borsh::to_vec(&254u8).unwrap());
    expected.extend(borsh::to_vec(&253u8).unwrap());
    assert_eq!(bytes, expected);
}

#[test]
fn unknown_tag_is_refused() {
    let bytes = all_variants()[0].pack();
    assert_eq!(AtomicSwapInstruction::unpack(4, &bytes), Err(SwapError::InvalidInstruction));
}

#[test]
fn wrong_length_is_refused() {
    let mut bytes = all_variants()[0].pack();
    bytes.push(0);
    assert_eq!(AtomicSwapInstruction::unpack(0, &bytes), Err(SwapError::InvalidInputLength));
    let short = &all_variants()[1].pack()[..100];
    assert_eq!(AtomicSwapInstruction::unpack(1, short), Err(SwapError::InvalidInputLength));
}

#[test]
fn variant_byte_must_fill_the_record() {
    let mut bytes = all_variants()[0].pack();
    bytes[1] = 2;
    assert_eq!(AtomicSwapInstruction::unpack(0, &bytes), Err(SwapError::InvalidInstruction));
    bytes[1] = 9;
    assert_eq!(AtomicSwapInstruction::unpack(0, &bytes), Err(SwapError::InvalidInstruction));
}

#[test]
fn tag_must_match_variant_byte() {
    let refund = all_variants()[3];
    let mut bytes = refund.pack();
    bytes[0] = 2;
    assert_eq!(AtomicSwapInstruction::unpack(2, &bytes), Err(SwapError::InvalidInstruction));
    let spend = all_variants()[2];
    let mut bytes = spend.pack();
    bytes[1] = 3;
    assert_eq!(AtomicSwapInstruction::unpack(2, &bytes), Err(SwapError::InvalidInstruction));
}

#[test]
fn zero_lock_time_is_refused() {
    let i = AtomicSwapInstruction::LamportsPayment {
        secret_hash: [1; 32],
        lock_time: 0,
        amount: 500,
        receiver: [2; 32],
        rent_exemption_lamports: 0,
        vault_bump_seed: 0,
        vault_bump_seed_data: 0,
    };
    let bytes = i.pack();
    assert_eq!(AtomicSwapInstruction::unpack(0, &bytes), Err(SwapError::InvalidLockTime));
}

#[test]
fn zero_amount_is_refused() {
    let i = AtomicSwapInstruction::ReceiverSpend {
        secret: [1; 32],
        lock_time: 5,
        amount: 0,
        sender: [2; 32],
        token_program: [0; 32],
        vault_bump_seed: 0,
        vault_bump_seed_data: 0,
    };
    let bytes = i.pack();
    assert_eq!(AtomicSwapInstruction::unpack(2, &bytes), Err(SwapError::InvalidAmount));
}

#[test]
fn little_endian_integers() {
    let mut out = vec![0xaa];
    satomic_swap::bytes::push_u64_le(&mut out, 0x0102_0304_0506_0708);
    assert_eq!(out, vec![0xaa, 8, 7, 6, 5, 4, 3, 2, 1]);
    assert_eq!(satomic_swap::bytes::read_u64_le(&out, 1), 0x0102_0304_0506_0708);
}

#[test]
fn field_length_errors() {
    let ok = [0u8; 32];
    let short = [0u8; 31];
    assert_eq!(
        AtomicSwapInstruction::validate_common_fields(&short, 1, 1, &ok, None),
        Err(SwapError::InvalidSecretHash)
    );
    assert_eq!(
        AtomicSwapInstruction::validate_common_fields(&ok, 1, 1, &short, None),
        Err(SwapError::InvalidReceiverPubkey)
    );
    assert_eq!(
        AtomicSwapInstruction::validate_common_fields(&ok, 1, 1, &ok, Some(&short)),
        Err(SwapError::InvalidTokenProgram)
    );
    assert_eq!(AtomicSwapInstruction::validate_common_fields(&ok, 1, 1, &ok, Some(&ok)), Ok(()));
    assert_eq!(AtomicSwapInstruction::validate_secret(&short), Err(SwapError::InvalidSecret));
    assert_eq!(AtomicSwapInstruction::validate_secret(&ok), Ok(()));
}
