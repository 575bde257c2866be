//! The four swap instructions, their wire layout, and their field validation.
//!
//! A buffer is `[tag][variant][fields]`: the tag selects the operation and
//! its length, the variant byte repeats the tag, and the fields follow in
//! declaration order with ids and hashes as 32 raw bytes, integers as eight
//! little-endian bytes and bumps as one byte, with no padding.
use vstd::prelude::*;
use crate::bytes::{le_bytes_of, push_bytes, push_u64_le, read_array32, read_u64_le, u64_of_le};
use crate::error::SwapError;

verus! {

/// One swap operation.
#[derive(Debug, Clone, Copy, PartialEq, Eq)]
pub enum AtomicSwapInstruction {
    /// Fund a swap in the native unit.
    LamportsPayment {
        secret_hash: [u8; 32],
        lock_time: u64,
        amount: u64,
        receiver: [u8; 32],
        rent_exemption_lamports: u64,
        vault_bump_seed: u8,
        vault_bump_seed_data: u8,
    },
    /// Fund a swap in a token unit.
    SPLTokenPayment {
        secret_hash: [u8; 32],
        lock_time: u64,
        amount: u64,
        receiver: [u8; 32],
        token_program: [u8; 32],
        rent_exemption_lamports: u64,
        vault_bump_seed: u8,
        vault_bump_seed_data: u8,
    },
    /// The receiver claims the funds by revealing the secret.
    ReceiverSpend {
        secret: [u8; 32],
        lock_time: u64,
        amount: u64,
        sender: [u8; 32],
        token_program: [u8; 32],
        vault_bump_seed: u8,
        vault_bump_seed_data: u8,
    },
    /// The sender takes the funds back.
    SenderRefund {
        secret_hash: [u8; 32],
        lock_time: u64,
        amount: u64,
        receiver: [u8; 32],
        token_program: [u8; 32],
        vault_bump_seed: u8,
        vault_bump_seed_data: u8,
    },
}

/// The whole length of a buffer with tag `tag`, or `None` for an unknown tag.
pub open spec fn frame_len(tag: u8) -> Option<int> {
    if tag == 0 {
        Some(92)
    } else if tag == 1 {
        Some(124)
    } else if tag == 2 || tag == 3 {
        Some(116)
    } else {
        None
    }
}

/// The length of the field record of variant `v` (0 to 3).
pub open spec fn fields_len(v: u8) -> int {
    if v == 0 {
        90
    } else if v == 1 {
        122
    } else {
        114
    }
}

/// The array whose bytes are `s`.
pub open spec fn arr32(s: Seq<u8>) -> [u8; 32] {
    choose|a: [u8; 32]| a@ == s
}

/// The variant byte of an instruction, which is also its tag.
pub open spec fn variant_of(i: AtomicSwapInstruction) -> u8 {
    match i {
        AtomicSwapInstruction::LamportsPayment { .. } => 0,
        AtomicSwapInstruction::SPLTokenPayment { .. } => 1,
        AtomicSwapInstruction::ReceiverSpend { .. } => 2,
        AtomicSwapInstruction::SenderRefund { .. } => 3,
    }
}

/// The field record of an instruction.
pub open spec fn fields_bytes(i: AtomicSwapInstruction) -> Seq<u8> {
    match i {
        AtomicSwapInstruction::LamportsPayment {
            secret_hash,
            lock_time,
            amount,
            receiver,
            rent_exemption_lamports,
            vault_bump_seed,
            vault_bump_seed_data,
        } => secret_hash@ + le_bytes_of(lock_time) + le_bytes_of(amount) + receiver@
            + le_bytes_of(rent_exemption_lamports) + seq![vault_bump_seed, vault_bump_seed_data],
        AtomicSwapInstruction::SPLTokenPayment {
            secret_hash,
            lock_time,
            amount,
            receiver,
            token_program,
            rent_exemption_lamports,
            vault_bump_seed,
            vault_bump_seed_data,
        } => secret_hash@ + le_bytes_of(lock_time) + le_bytes_of(amount) + receiver@
            + token_program@ + le_bytes_of(rent_exemption_lamports) + seq![
            vault_bump_seed,
            vault_bump_seed_data,
        ],
        AtomicSwapInstruction::ReceiverSpend {
            secret,
            lock_time,
            amount,
            sender,
            token_program,
            vault_bump_seed,
            vault_bump_seed_data,
        } => secret@ + le_bytes_of(lock_time) + le_bytes_of(amount) + sender@ + token_program@
            + seq![vault_bump_seed, vault_bump_seed_data],
        AtomicSwapInstruction::SenderRefund {
            secret_hash,
            lock_time,
            amount,
            receiver,
            token_program,
            vault_bump_seed,
            vault_bump_seed_data,
        } => secret_hash@ + le_bytes_of(lock_time) + le_bytes_of(amount) + receiver@
            + token_program@ + seq![vault_bump_seed, vault_bump_seed_data],
    }
}

/// The whole buffer of an instruction: tag, variant byte, field record.
pub open spec fn instruction_bytes(i: AtomicSwapInstruction) -> Seq<u8> {
    seq![variant_of(i), variant_of(i)] + fields_bytes(i)
}

/// The instruction of variant `v` (0 to 3) whose field record is `f`.
pub open spec fn fields_from_bytes(v: u8, f: Seq<u8>) -> AtomicSwapInstruction {
    if v == 0 {
        AtomicSwapInstruction::LamportsPayment {
            secret_hash: arr32(f.subrange(0, 32)),
            lock_time: u64_of_le(f.subrange(32, 40)),
            amount: u64_of_le(f.subrange(40, 48)),
            receiver: arr32(f.subrange(48, 80)),
            rent_exemption_lamports: u64_of_le(f.subrange(80, 88)),
            vault_bump_seed: f[88],
            vault_bump_seed_data: f[89],
        }
    } else if v == 1 {
        AtomicSwapInstruction::SPLTokenPayment {
            secret_hash: arr32(f.subrange(0, 32)),
            lock_time: u64_of_le(f.subrange(32, 40)),
            amount: u64_of_le(f.subrange(40, 48)),
            receiver: arr32(f.subrange(48, 80)),
            token_program: arr32(f.subrange(80, 112)),
            rent_exemption_lamports: u64_of_le(f.subrange(112, 120)),
            vault_bump_seed: f[120],
            vault_bump_seed_data: f[121],
        }
    } else if v == 2 {
        AtomicSwapInstruction::ReceiverSpend {
            secret: arr32(f.subrange(0, 32)),
            lock_time: u64_of_le(f.subrange(32, 40)),
            amount: u64_of_le(f.subrange(40, 48)),
            sender: arr32(f.subrange(48, 80)),
            token_program: arr32(f.subrange(80, 112)),
            vault_bump_seed: f[112],
            vault_bump_seed_data: f[113],
        }
    } else {
        AtomicSwapInstruction::SenderRefund {
            secret_hash: arr32(f.subrange(0, 32)),
            lock_time: u64_of_le(f.subrange(32, 40)),
            amount: u64_of_le(f.subrange(40, 48)),
            receiver: arr32(f.subrange(48, 80)),
            token_program: arr32(f.subrange(80, 112)),
            vault_bump_seed: f[112],
            vault_bump_seed_data: f[113],
        }
    }
}

/// The view of an optional id.
pub open spec fn opt_bytes(o: Option<&[u8]>) -> Option<Seq<u8>> {
    match o {
        Some(p) => Some(p@),
        None => None,
    }
}

/// The checks shared by all instructions, in order: secret hash length, lock
/// time, amount, party id length, token-type id length.
pub open spec fn common_fields_result(
    secret_hash: Seq<u8>,
    lock_time: u64,
    amount: u64,
    receiver: Seq<u8>,
    additional: Option<Seq<u8>>,
) -> Result<(), SwapError> {
    if secret_hash.len() != 32 {
        Err(SwapError::InvalidSecretHash)
    } else if lock_time == 0 {
        Err(SwapError::InvalidLockTime)
    } else if amount == 0 {
        Err(SwapError::InvalidAmount)
    } else if receiver.len() != 32 {
        Err(SwapError::InvalidReceiverPubkey)
    } else if additional is Some && additional->0.len() != 32 {
        Err(SwapError::InvalidTokenProgram)
    } else {
        Ok(())
    }
}

/// The field validation of a decoded instruction.
pub open spec fn validation_result(i: AtomicSwapInstruction) -> Result<(), SwapError> {
    match i {
        AtomicSwapInstruction::LamportsPayment { secret_hash, lock_time, amount, receiver, .. } =>
            common_fields_result(secret_hash@, lock_time, amount, receiver@, None),
        AtomicSwapInstruction::SPLTokenPayment {
            secret_hash,
            lock_time,
            amount,
            receiver,
            token_program,
            ..
        } => common_fields_result(
            secret_hash@,
            lock_time,
            amount,
            receiver@,
            Some(token_program@),
        ),
        AtomicSwapInstruction::ReceiverSpend {
            secret,
            lock_time,
            amount,
            sender,
            token_program,
            ..
        } => if secret@.len() != 32 {
            Err(SwapError::InvalidSecret)
        } else if sender@.len() != 32 {
            Err(SwapError::InvalidSenderPubkey)
        } else {
            common_fields_result(secret@, lock_time, amount, sender@, Some(token_program@))
        },
        AtomicSwapInstruction::SenderRefund {
            secret_hash,
            lock_time,
            amount,
            receiver,
            token_program,
            ..
        } => common_fields_result(
            secret_hash@,
            lock_time,
            amount,
            receiver@,
            Some(token_program@),
        ),
    }
}

/// The lock time of an instruction.
pub open spec fn lock_time_of(i: AtomicSwapInstruction) -> u64 {
    match i {
        AtomicSwapInstruction::LamportsPayment { lock_time, .. } => lock_time,
        AtomicSwapInstruction::SPLTokenPayment { lock_time, .. } => lock_time,
        AtomicSwapInstruction::ReceiverSpend { lock_time, .. } => lock_time,
        AtomicSwapInstruction::SenderRefund { lock_time, .. } => lock_time,
    }
}

/// The amount of an instruction.
pub open spec fn amount_of(i: AtomicSwapInstruction) -> u64 {
    match i {
        AtomicSwapInstruction::LamportsPayment { amount, .. } => amount,
        AtomicSwapInstruction::SPLTokenPayment { amount, .. } => amount,
        AtomicSwapInstruction::ReceiverSpend { amount, .. } => amount,
        AtomicSwapInstruction::SenderRefund { amount, .. } => amount,
    }
}

/// The outcome of decoding `input` under tag `tag`: the tag selects the
/// operation and its length, the variant byte must repeat the tag, and the
/// fields must pass validation.
pub open spec fn unpack_result(tag: u8, input: Seq<u8>) -> Result<AtomicSwapInstruction, SwapError> {
    match frame_len(tag) {
        None => Err(SwapError::InvalidInstruction),
        Some(n) => if input.len() != n {
            Err(SwapError::InvalidInputLength)
        } else if input[1] != tag {
            Err(SwapError::InvalidInstruction)
        } else {
            let i = fields_from_bytes(input[1], input.subrange(2, input.len() as int));
            match validation_result(i) {
                Ok(_) => Ok(i),
                Err(e) => Err(e),
            }
        },
    }
}

impl AtomicSwapInstruction {
    /// Checks the fields every instruction carries.
    pub fn validate_common_fields(
        secret_hash: &[u8],
        lock_time: u64,
        amount: u64,
        receiver: &[u8],
        additional_pubkey: Option<&[u8]>,
    ) -> (r: Result<(), SwapError>)
        ensures
            r == common_fields_result(
                secret_hash@,
                lock_time,
                amount,
                receiver@,
                opt_bytes(additional_pubkey),
            ),
    {
        if secret_hash.len() != 32 {
            return Err(SwapError::InvalidSecretHash);
        }
        if lock_time == 0 {
            return Err(SwapError::InvalidLockTime);
        }
        if amount == 0 {
            return Err(SwapError::InvalidAmount);
        }
        if receiver.len() != 32 {
            return Err(SwapError::InvalidReceiverPubkey);
        }
        if let Some(pubkey) = additional_pubkey {
            if pubkey.len() != 32 {
                return Err(SwapError::InvalidTokenProgram);
            }
        }
        Ok(())
    }

    /// Checks that a revealed secret is 32 bytes long.
    pub fn validate_secret(secret: &[u8]) -> (r: Result<(), SwapError>)
        ensures
            r is Ok <==> secret@.len() == 32,
            r is Err ==> r == Err::<(), SwapError>(SwapError::InvalidSecret),
    {
        if secret.len() != 32 {
            return Err(SwapError::InvalidSecret);
        }
        Ok(())
    }

    /// Decodes and validates the buffer `input` whose tag is `instruction_byte`.
    pub fn unpack(instruction_byte: u8, input: &[u8]) -> (r: Result<
        AtomicSwapInstruction,
        SwapError,
    >)
        ensures
            r == unpack_result(instruction_byte, input@),
    {
        let expected: usize = match instruction_byte {
            0 => 92,
            1 => 124,
            2 => 116,
            3 => 116,
            _ => {
                return Err(SwapError::InvalidInstruction);
            },
        };
        if input.len() != expected {
            return Err(SwapError::InvalidInputLength);
        }
        let variant = input[1];
        if variant != instruction_byte {
            return Err(SwapError::InvalidInstruction);
        }
        let instruction = Self::parse_fields(variant, input);
        match &instruction {
            AtomicSwapInstruction::LamportsPayment { secret_hash, lock_time, amount, receiver, .. } => {
                Self::validate_common_fields(
                    secret_hash.as_slice(),
                    *lock_time,
                    *amount,
                    receiver.as_slice(),
                    None,
                )?;
            },
            AtomicSwapInstruction::SPLTokenPayment {
                secret_hash,
                lock_time,
                amount,
                receiver,
                token_program,
                ..
            } => {
                Self::validate_common_fields(
                    secret_hash.as_slice(),
                    *lock_time,
                    *amount,
                    receiver.as_slice(),
                    Some(token_program.as_slice()),
                )?;
            },
            AtomicSwapInstruction::ReceiverSpend {
                secret,
                lock_time,
                amount,
                sender,
                token_program,
                ..
            } => {
                Self::validate_secret(secret.as_slice())?;
                if sender.len() != 32 {
                    return Err(SwapError::InvalidSenderPubkey);
                }
                Self::validate_common_fields(
                    secret.as_slice(),
                    *lock_time,
                    *amount,
                    sender.as_slice(),
                    Some(token_program.as_slice()),
                )?;
            },
            AtomicSwapInstruction::SenderRefund {
                secret_hash,
                lock_time,
                amount,
                receiver,
                token_program,
                ..
            } => {
                Self::validate_common_fields(
                    secret_hash.as_slice(),
                    *lock_time,
                    *amount,
                    receiver.as_slice(),
                    Some(token_program.as_slice()),
                )?;
            },
        }
        Ok(instruction)
    }

    /// Reads the field record of variant `variant` from `input[2..]`.
    fn parse_fields(variant: u8, input: &[u8]) -> (r: AtomicSwapInstruction)
        requires
            variant <= 3,
            input@.len() == 2 + fields_len(variant),
        ensures
            r == fields_from_bytes(variant, input@.subrange(2, input@.len() as int)),
    {
        let ghost f = input@.subrange(2, input@.len() as int);
        let first = read_array32(input, 2);
        let lock_time = read_u64_le(input, 34);
        let amount = read_u64_le(input, 42);
        let party = read_array32(input, 50);
        proof {
            assert(f.subrange(0, 32) =~= input@.subrange(2, 34));
            assert(f.subrange(32, 40) =~= input@.subrange(34, 42));
            assert(f.subrange(40, 48) =~= input@.subrange(42, 50));
            assert(f.subrange(48, 80) =~= input@.subrange(50, 82));
            lemma_arr32(first);
            lemma_arr32(party);
        }
        if variant == 0 {
            let rent = read_u64_le(input, 82);
            assert(f.subrange(80, 88) =~= input@.subrange(82, 90));
            AtomicSwapInstruction::LamportsPayment {
                secret_hash: first,
                lock_time,
                amount,
                receiver: party,
                rent_exemption_lamports: rent,
                vault_bump_seed: input[90],
                vault_bump_seed_data: input[91],
            }
        } else {
            let token = read_array32(input, 82);
            proof {
                assert(f.subrange(80, 112) =~= input@.subrange(82, 114));
                lemma_arr32(token);
            }
            if variant == 1 {
                let rent = read_u64_le(input, 114);
                assert(f.subrange(112, 120) =~= input@.subrange(114, 122));
                AtomicSwapInstruction::SPLTokenPayment {
                    secret_hash: first,
                    lock_time,
                    amount,
                    receiver: party,
                    token_program: token,
                    rent_exemption_lamports: rent,
                    vault_bump_seed: input[122],
                    vault_bump_seed_data: input[123],
                }
            } else if variant == 2 {
                AtomicSwapInstruction::ReceiverSpend {
                    secret: first,
                    lock_time,
                    amount,
                    sender: party,
                    token_program: token,
                    vault_bump_seed: input[114],
                    vault_bump_seed_data: input[115],
                }
            } else {
                AtomicSwapInstruction::SenderRefund {
                    secret_hash: first,
                    lock_time,
                    amount,
                    receiver: party,
                    token_program: token,
                    vault_bump_seed: input[114],
                    vault_bump_seed_data: input[115],
                }
            }
        }
    }

    /// Encodes the instruction: tag, variant byte, field record.
    pub fn pack(&self) -> (r: Vec<u8>)
        ensures
            r@ == instruction_bytes(*self),
    {
        let tag: u8 = match *self {
            AtomicSwapInstruction::LamportsPayment { .. } => 0,
            AtomicSwapInstruction::SPLTokenPayment { .. } => 1,
            AtomicSwapInstruction::ReceiverSpend { .. } => 2,
            AtomicSwapInstruction::SenderRefund { .. } => 3,
        };
        let mut buf: Vec<u8> = Vec::new();
        buf.push(tag);
        buf.push(tag);
        match *self {
            AtomicSwapInstruction::LamportsPayment {
                secret_hash,
                lock_time,
                amount,
                receiver,
                rent_exemption_lamports,
                vault_bump_seed,
                vault_bump_seed_data,
            } => {
                push_bytes(&mut buf, secret_hash.as_slice());
                push_u64_le(&mut buf, lock_time);
                push_u64_le(&mut buf, amount);
                push_bytes(&mut buf, receiver.as_slice());
                push_u64_le(&mut buf, rent_exemption_lamports);
                buf.push(vault_bump_seed);
                buf.push(vault_bump_seed_data);
            },
            AtomicSwapInstruction::SPLTokenPayment {
                secret_hash,
                lock_time,
                amount,
                receiver,
                token_program,
                rent_exemption_lamports,
                vault_bump_seed,
                vault_bump_seed_data,
            } => {
                push_bytes(&mut buf, secret_hash.as_slice());
                push_u64_le(&mut buf, lock_time);
                push_u64_le(&mut buf, amount);
                push_bytes(&mut buf, receiver.as_slice());
                push_bytes(&mut buf, token_program.as_slice());
                push_u64_le(&mut buf, rent_exemption_lamports);
                buf.push(vault_bump_seed);
                buf.push(vault_bump_seed_data);
            },
            AtomicSwapInstruction::ReceiverSpend {
                secret,
                lock_time,
                amount,
                sender,
                token_program,
                vault_bump_seed,
                vault_bump_seed_data,
            } => {
                push_bytes(&mut buf, secret.as_slice());
                push_u64_le(&mut buf, lock_time);
                push_u64_le(&mut buf, amount);
                push_bytes(&mut buf, sender.as_slice());
                push_bytes(&mut buf, token_program.as_slice());
                buf.push(vault_bump_seed);
                buf.push(vault_bump_seed_data);
            },
            AtomicSwapInstruction::SenderRefund {
                secret_hash,
                lock_time,
                amount,
                receiver,
                token_program,
                vault_bump_seed,
                vault_bump_seed_data,
            } => {
                push_bytes(&mut buf, secret_hash.as_slice());
                push_u64_le(&mut buf, lock_time);
                push_u64_le(&mut buf, amount);
                push_bytes(&mut buf, receiver.as_slice());
                push_bytes(&mut buf, token_program.as_slice());
                buf.push(vault_bump_seed);
                buf.push(vault_bump_seed_data);
            },
        }
        assert(buf@ =~= instruction_bytes(*self));
        buf
    }
}

/// An array is the array of its own bytes.
pub proof fn lemma_arr32(a: [u8; 32])
    ensures
        arr32(a@) == a,
{
    let c = arr32(a@);
    assert(c@ == a@);
}

/// Reading the field record of an instruction gives the instruction back.
pub proof fn lemma_fields_round_trip(i: AtomicSwapInstruction)
    ensures
        fields_bytes(i).len() == fields_len(variant_of(i)),
        fields_from_bytes(variant_of(i), fields_bytes(i)) == i,
{
    let f = fields_bytes(i);
    match i {
        AtomicSwapInstruction::LamportsPayment {
            secret_hash, lock_time, amount, receiver, rent_exemption_lamports, ..
        } => {
            assert(f.subrange(0, 32) =~= secret_hash@);
            assert(f.subrange(32, 40) =~= le_bytes_of(lock_time));
            assert(f.subrange(40, 48) =~= le_bytes_of(amount));
            assert(f.subrange(48, 80) =~= receiver@);
            assert(f.subrange(80, 88) =~= le_bytes_of(rent_exemption_lamports));
            crate::bytes::lemma_u64_le_round_trip(lock_time);
            crate::bytes::lemma_u64_le_round_trip(amount);
            crate::bytes::lemma_u64_le_round_trip(rent_exemption_lamports);
            lemma_arr32(secret_hash);
            lemma_arr32(receiver);
        },
        AtomicSwapInstruction::SPLTokenPayment {
            secret_hash, lock_time, amount, receiver, token_program, rent_exemption_lamports, ..
        } => {
            assert(f.subrange(0, 32) =~= secret_hash@);
            assert(f.subrange(32, 40) =~= le_bytes_of(lock_time));
            assert(f.subrange(40, 48) =~= le_bytes_of(amount));
            assert(f.subrange(48, 80) =~= receiver@);
            assert(f.subrange(80, 112) =~= token_program@);
            assert(f.subrange(112, 120) =~= le_bytes_of(rent_exemption_lamports));
            crate::bytes::lemma_u64_le_round_trip(lock_time);
            crate::bytes::lemma_u64_le_round_trip(amount);
            crate::bytes::lemma_u64_le_round_trip(rent_exemption_lamports);
            lemma_arr32(secret_hash);
            lemma_arr32(receiver);
            lemma_arr32(token_program);
        },
        AtomicSwapInstruction::ReceiverSpend { secret, lock_time, amount, sender, token_program, .. } => {
            assert(f.subrange(0, 32) =~= secret@);
            assert(f.subrange(32, 40) =~= le_bytes_of(lock_time));
            assert(f.subrange(40, 48) =~= le_bytes_of(amount));
            assert(f.subrange(48, 80) =~= sender@);
            assert(f.subrange(80, 112) =~= token_program@);
            crate::bytes::lemma_u64_le_round_trip(lock_time);
            crate::bytes::lemma_u64_le_round_trip(amount);
            lemma_arr32(secret);
            lemma_arr32(sender);
            lemma_arr32(token_program);
        },
        AtomicSwapInstruction::SenderRefund {
            secret_hash, lock_time, amount, receiver, token_program, ..
        } => {
            assert(f.subrange(0, 32) =~= secret_hash@);
            assert(f.subrange(32, 40) =~= le_bytes_of(lock_time));
            assert(f.subrange(40, 48) =~= le_bytes_of(amount));
            assert(f.subrange(48, 80) =~= receiver@);
            assert(f.subrange(80, 112) =~= token_program@);
            crate::bytes::lemma_u64_le_round_trip(lock_time);
            crate::bytes::lemma_u64_le_round_trip(amount);
            lemma_arr32(secret_hash);
            lemma_arr32(receiver);
            lemma_arr32(token_program);
        },
    }
}

/// Decoding the encoding of an instruction gives the instruction back, for
/// every instruction whose lock time and amount are non-zero (the others are
/// refused by validation).
pub proof fn lemma_pack_unpack_round_trip(i: AtomicSwapInstruction)
    requires
        lock_time_of(i) != 0,
        amount_of(i) != 0,
    ensures
        instruction_bytes(i).len() > 0,
        unpack_result(instruction_bytes(i)[0], instruction_bytes(i)) == Ok::<
            AtomicSwapInstruction,
            SwapError,
        >(i),
{
    let b = instruction_bytes(i);
    lemma_fields_round_trip(i);
    assert(b.subrange(2, b.len() as int) =~= fields_bytes(i));
    assert(b[0] == variant_of(i) && b[1] == variant_of(i));
}

} // verus!
