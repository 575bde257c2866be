//! The escrow lifecycle: for each instruction, the checks it must pass and the
//! ledger effects that carry it out.
//!
//! Nothing here touches the ledger. The result is the ordered list of effects
//! (account creation, record write, transfer) that the caller performs; an
//! error means that none of them may happen.
use vstd::prelude::*;
use crate::accounts::{
    accounts_result, common_accounts_result, get_common_accounts, is_zero_key,
    payment_params_result, validate_accounts, validate_common_payment_params, AccountView,
};
use crate::bytes::{le_bytes_of, push_bytes, push_u64_le};
use crate::error::SwapError;
use crate::hash::{calculate_hash, calculate_hash_from_secret, commitment_of, sha256_of, zero_key};
use crate::instruction::{arr32, lemma_arr32, unpack_result, AtomicSwapInstruction};
use crate::payment::{
    create_payment_object, settle_result, update_common_payment_state, Payment, PaymentState,
};

verus! {

/// Size allocated for the vault-data account.
pub const STORAGE_SPACE_ALLOCATED: u64 = 41;

/// Which escrow account a derivation is for.
#[derive(Debug, Clone, Copy, PartialEq, Eq, Structural)]
pub enum SeedKind {
    /// The vault, which holds the escrowed funds: namespace `swap`.
    Vault,
    /// The vault-data account, which holds the record: namespace `swap_data`.
    VaultData,
}

/// The seeds from which an escrow account is derived, and with which the
/// escrow signs for it.
#[derive(Debug, Clone, Copy, PartialEq, Eq)]
pub struct EscrowSeeds {
    pub kind: SeedKind,
    pub lock_time: u64,
    pub secret_hash: [u8; 32],
    pub bump: u8,
}

/// One effect on the ledger, performed by the caller in list order.
#[derive(Debug, Clone, Copy, PartialEq, Eq)]
pub enum LedgerEffect {
    /// Create `account`, owned by `owner`, with `space` bytes and `lamports`
    /// paid by `payer`, signed with `seeds`.
    CreateAccount {
        payer: [u8; 32],
        account: [u8; 32],
        lamports: u64,
        space: u64,
        owner: [u8; 32],
        seeds: EscrowSeeds,
    },
    /// Write the serialized `record` at the start of `account`'s data.
    WriteRecord { account: [u8; 32], record: Payment },
    /// Move `lamports` from `from` to `to`, signed with `seeds`.
    Transfer { from: [u8; 32], to: [u8; 32], lamports: u64, seeds: EscrowSeeds },
}

/// The namespace bytes of a seed kind: `swap` or `swap_data`.
pub open spec fn namespace_bytes(kind: SeedKind) -> Seq<u8> {
    match kind {
        SeedKind::Vault => seq![115u8, 119, 97, 112],
        SeedKind::VaultData => seq![115u8, 119, 97, 112, 95, 100, 97, 116, 97],
    }
}

/// The seed list: namespace, lock time (little-endian), secret hash, bump.
pub open spec fn seed_list(s: EscrowSeeds) -> Seq<Seq<u8>> {
    seq![namespace_bytes(s.kind), le_bytes_of(s.lock_time), s.secret_hash@, seq![s.bump]]
}

impl EscrowSeeds {
    /// The seed list, as the ledger's address derivation takes it.
    pub fn seed_bytes(&self) -> (r: Vec<Vec<u8>>)
        ensures
            r.deep_view() == seed_list(*self),
    {
        let namespace: Vec<u8> = match self.kind {
            SeedKind::Vault => vec![115u8, 119, 97, 112],
            SeedKind::VaultData => vec![115u8, 119, 97, 112, 95, 100, 97, 116, 97],
        };
        assert(namespace@ =~= namespace_bytes(self.kind));
        let mut lock: Vec<u8> = Vec::new();
        push_u64_le(&mut lock, self.lock_time);
        assert(lock@ =~= le_bytes_of(self.lock_time));
        let mut hash: Vec<u8> = Vec::new();
        push_bytes(&mut hash, self.secret_hash.as_slice());
        assert(hash@ =~= self.secret_hash@);
        let mut bump: Vec<u8> = Vec::new();
        bump.push(self.bump);
        assert(bump@ =~= seq![self.bump]);
        let ghost parts = seq![namespace@, lock@, hash@, bump@];
        let mut r: Vec<Vec<u8>> = Vec::new();
        r.push(namespace);
        r.push(lock);
        r.push(hash);
        r.push(bump);
        assert forall|k: int| 0 <= k < 4 implies #[trigger] r@[k].deep_view() == parts[k] by {
            assert(r@[k].deep_view() =~= r@[k]@);
        }
        assert(parts =~= seed_list(*self));
        assert(r.deep_view() =~= seed_list(*self));
        r
    }
}

/// The seeds of an escrow account.
pub open spec fn seeds(kind: SeedKind, lock_time: u64, secret_hash: [u8; 32], bump: u8) -> EscrowSeeds {
    EscrowSeeds { kind, lock_time, secret_hash, bump }
}

/// The effects of a funding whose accounts passed their checks: create the
/// vault-data account and write a fresh record into it; for the native unit
/// (`token` is `None`) then move the amount and the creation funding into
/// the vault.
pub open spec fn funding_plan(
    program_id: [u8; 32],
    sender: AccountView,
    vault_data: AccountView,
    vault: AccountView,
    secret_hash: [u8; 32],
    lock_time: u64,
    amount: u64,
    receiver: [u8; 32],
    token: Option<[u8; 32]>,
    rent: u64,
    vault_bump: u8,
    vault_data_bump: u8,
) -> Result<Seq<LedgerEffect>, SwapError> {
    let created = seq![
        LedgerEffect::CreateAccount {
            payer: sender.key,
            account: vault_data.key,
            lamports: rent,
            space: 41,
            owner: program_id,
            seeds: seeds(SeedKind::VaultData, lock_time, secret_hash, vault_data_bump),
        },
        LedgerEffect::WriteRecord {
            account: vault_data.key,
            record: Payment {
                payment_hash: arr32(
                    commitment_of(receiver@, sender.key@, secret_hash@, token, amount),
                ),
                lock_time,
                state: PaymentState::PaymentSent,
            },
        },
    ];
    if token is Some {
        Ok(created)
    } else if amount + rent > u64::MAX {
        Err(SwapError::ArithmeticOverflow)
    } else {
        Ok(created.push(
            LedgerEffect::Transfer {
                from: sender.key,
                to: vault.key,
                lamports: (amount + rent) as u64,
                seeds: seeds(SeedKind::Vault, lock_time, secret_hash, vault_bump),
            },
        ))
    }
}

/// The outcome of a funding: parameter checks, then account checks, then
/// the funding's effects.
pub open spec fn funding_result(
    program_id: [u8; 32],
    accounts: Seq<AccountView>,
    secret_hash: [u8; 32],
    lock_time: u64,
    amount: u64,
    receiver: [u8; 32],
    token: Option<[u8; 32]>,
    rent: u64,
    vault_bump: u8,
    vault_data_bump: u8,
) -> Result<Seq<LedgerEffect>, SwapError> {
    match payment_params_result(receiver, amount) {
        Err(e) => Err(e),
        Ok(_) => match common_accounts_result(accounts) {
            Err(e) => Err(e),
            Ok((s, d, v, sys)) => match accounts_result(s, d, v, sys, None) {
                Err(e) => Err(e),
                Ok(_) => funding_plan(
                    program_id,
                    s,
                    d,
                    v,
                    secret_hash,
                    lock_time,
                    amount,
                    receiver,
                    token,
                    rent,
                    vault_bump,
                    vault_data_bump,
                ),
            },
        },
    }
}

/// The outcome of a settlement by the first account: the receiver's spend
/// (`new_state` is `ReceiverSpent`, `counterparty` is the sender) or the
/// sender's refund (`SenderRefunded`, `counterparty` is the receiver).
/// The stored record must hold the commitment recomputed from the settler,
/// the counterparty, `secret_hash`, `token` and `amount`, and be funded;
/// the unit must be native. The record is then rewritten and `amount`
/// moves from the vault to the settler.
pub open spec fn settlement_result(
    program_id: [u8; 32],
    accounts: Seq<AccountView>,
    vault_data: Seq<u8>,
    counterparty: [u8; 32],
    secret_hash: [u8; 32],
    token: [u8; 32],
    amount: u64,
    lock_time: u64,
    vault_bump: u8,
    new_state: PaymentState,
) -> Result<Seq<LedgerEffect>, SwapError> {
    match common_accounts_result(accounts) {
        Err(e) => Err(e),
        Ok((s, d, v, sys)) => match accounts_result(s, d, v, sys, Some(program_id)) {
            Err(e) => Err(e),
            Ok(_) => {
                let commitment = if new_state == PaymentState::ReceiverSpent {
                    commitment_of(s.key@, counterparty@, secret_hash@, Some(token), amount)
                } else {
                    commitment_of(counterparty@, s.key@, secret_hash@, Some(token), amount)
                };
                match settle_result(vault_data, commitment, PaymentState::PaymentSent, new_state) {
                    Err(e) => Err(e),
                    Ok(p) => if token@ != zero_key() {
                        Err(SwapError::NotSupported)
                    } else {
                        Ok(
                            seq![
                                LedgerEffect::WriteRecord { account: d.key, record: p },
                                LedgerEffect::Transfer {
                                    from: v.key,
                                    to: s.key,
                                    lamports: amount,
                                    seeds: seeds(SeedKind::Vault, lock_time, secret_hash, vault_bump),
                                },
                            ],
                        )
                    },
                }
            },
        },
    }
}

/// The outcome of processing `data` with the given accounts and the current
/// content of the vault-data account.
pub open spec fn process_result(
    program_id: [u8; 32],
    accounts: Seq<AccountView>,
    vault_data: Seq<u8>,
    data: Seq<u8>,
) -> Result<Seq<LedgerEffect>, SwapError> {
    if data.len() == 0 {
        Err(SwapError::InvalidInstruction)
    } else {
        process_decoded(program_id, accounts, vault_data, unpack_result(data[0], data))
    }
}

/// The outcome of processing a decoded instruction, or the decoding error.
pub open spec fn process_decoded(
    program_id: [u8; 32],
    accounts: Seq<AccountView>,
    vault_data: Seq<u8>,
    decoded: Result<AtomicSwapInstruction, SwapError>,
) -> Result<Seq<LedgerEffect>, SwapError> {
    match decoded {
        Err(e) => Err(e),
        Ok(i) => match i {
            AtomicSwapInstruction::LamportsPayment {
                secret_hash,
                lock_time,
                amount,
                receiver,
                rent_exemption_lamports,
                vault_bump_seed,
                vault_bump_seed_data,
            } => funding_result(
                program_id,
                accounts,
                secret_hash,
                lock_time,
                amount,
                receiver,
                None,
                rent_exemption_lamports,
                vault_bump_seed,
                vault_bump_seed_data,
            ),
            AtomicSwapInstruction::SPLTokenPayment {
                secret_hash,
                lock_time,
                amount,
                receiver,
                token_program,
                rent_exemption_lamports,
                vault_bump_seed,
                vault_bump_seed_data,
            } => funding_result(
                program_id,
                accounts,
                secret_hash,
                lock_time,
                amount,
                receiver,
                Some(token_program),
                rent_exemption_lamports,
                vault_bump_seed,
                vault_bump_seed_data,
            ),
            AtomicSwapInstruction::ReceiverSpend {
                secret,
                lock_time,
                amount,
                sender,
                token_program,
                vault_bump_seed,
                ..
            } => settlement_result(
                program_id,
                accounts,
                vault_data,
                sender,
                arr32(sha256_of(secret@)),
                token_program,
                amount,
                lock_time,
                vault_bump_seed,
                PaymentState::ReceiverSpent,
            ),
            AtomicSwapInstruction::SenderRefund {
                secret_hash,
                lock_time,
                amount,
                receiver,
                token_program,
                vault_bump_seed,
                ..
            } => settlement_result(
                program_id,
                accounts,
                vault_data,
                receiver,
                secret_hash,
                token_program,
                amount,
                lock_time,
                vault_bump_seed,
                PaymentState::SenderRefunded,
            ),
        },
    }
}

/// The view of a list of effects, or the error.
pub open spec fn effects_view(r: Result<Vec<LedgerEffect>, SwapError>) -> Result<
    Seq<LedgerEffect>,
    SwapError,
> {
    match r {
        Ok(v) => Ok(v@),
        Err(e) => Err(e),
    }
}

/// Checks a funding and lists its effects. `token` is `None` for the native
/// unit and the token-type id otherwise.
pub fn process_funding(
    program_id: &[u8; 32],
    accounts: &[AccountView],
    secret_hash: [u8; 32],
    lock_time: u64,
    amount: u64,
    receiver: [u8; 32],
    token: Option<[u8; 32]>,
    rent_exemption_lamports: u64,
    vault_bump_seed: u8,
    vault_bump_seed_data: u8,
) -> (r: Result<Vec<LedgerEffect>, SwapError>)
    ensures
        effects_view(r) == funding_result(
            *program_id,
            accounts@,
            secret_hash,
            lock_time,
            amount,
            receiver,
            token,
            rent_exemption_lamports,
            vault_bump_seed,
            vault_bump_seed_data,
        ),
{
    validate_common_payment_params(&receiver, amount)?;
    let (sender_account, vault_pda_data, vault_pda, system_program_account) = get_common_accounts(
        accounts,
    )?;
    validate_accounts(&sender_account, &vault_pda_data, &vault_pda, &system_program_account, None)?;
    let payment_hash = calculate_hash(
        &receiver,
        &sender_account.key,
        secret_hash.as_slice(),
        token,
        amount,
    );
    proof {
        lemma_arr32(payment_hash);
    }
    let record = create_payment_object(payment_hash, lock_time);
    let mut effects: Vec<LedgerEffect> = Vec::new();
    effects.push(
        LedgerEffect::CreateAccount {
            payer: sender_account.key,
            account: vault_pda_data.key,
            lamports: rent_exemption_lamports,
            space: STORAGE_SPACE_ALLOCATED,
            owner: *program_id,
            seeds: EscrowSeeds {
                kind: SeedKind::VaultData,
                lock_time,
                secret_hash,
                bump: vault_bump_seed_data,
            },
        },
    );
    effects.push(LedgerEffect::WriteRecord { account: vault_pda_data.key, record });
    if token.is_none() {
        if amount > u64::MAX - rent_exemption_lamports {
            return Err(SwapError::ArithmeticOverflow);
        }
        effects.push(
            LedgerEffect::Transfer {
                from: sender_account.key,
                to: vault_pda.key,
                lamports: amount + rent_exemption_lamports,
                seeds: EscrowSeeds {
                    kind: SeedKind::Vault,
                    lock_time,
                    secret_hash,
                    bump: vault_bump_seed,
                },
            },
        );
    }
    proof {
        let expected = funding_plan(
            *program_id,
            sender_account,
            vault_pda_data,
            vault_pda,
            secret_hash,
            lock_time,
            amount,
            receiver,
            token,
            rent_exemption_lamports,
            vault_bump_seed,
            vault_bump_seed_data,
        );
        assert(expected is Ok);
        assert(effects@ =~= expected->Ok_0);
    }
    Ok(effects)
}

/// Checks a settlement by the first account against the stored record and
/// lists its effects: the receiver's spend when `new_state` is
/// `ReceiverSpent` (`counterparty` is then the sender), the sender's refund
/// otherwise (`counterparty` is then the receiver). `secret_hash` is the hash
/// the payment was funded with.
pub fn settle_payment(
    program_id: &[u8; 32],
    accounts: &[AccountView],
    vault_data: &[u8],
    counterparty: [u8; 32],
    secret_hash: [u8; 32],
    token_program: [u8; 32],
    amount: u64,
    lock_time: u64,
    vault_bump_seed: u8,
    new_state: PaymentState,
) -> (r: Result<Vec<LedgerEffect>, SwapError>)
    ensures
        effects_view(r) == settlement_result(
            *program_id,
            accounts@,
            vault_data@,
            counterparty,
            secret_hash,
            token_program,
            amount,
            lock_time,
            vault_bump_seed,
            new_state,
        ),
{
    let (settler_account, vault_pda_data, vault_pda, system_program_account) = get_common_accounts(
        accounts,
    )?;
    validate_accounts(
        &settler_account,
        &vault_pda_data,
        &vault_pda,
        &system_program_account,
        Some(program_id),
    )?;
    let payment_hash = match new_state {
        PaymentState::ReceiverSpent => calculate_hash(
            &settler_account.key,
            &counterparty,
            secret_hash.as_slice(),
            Some(token_program),
            amount,
        ),
        _ => calculate_hash(
            &counterparty,
            &settler_account.key,
            secret_hash.as_slice(),
            Some(token_program),
            amount,
        ),
    };
    let record = update_common_payment_state(
        vault_data,
        &payment_hash,
        PaymentState::PaymentSent,
        new_state,
    )?;
    if !is_zero_key(&token_program) {
        return Err(SwapError::NotSupported);
    }
    let mut effects: Vec<LedgerEffect> = Vec::new();
    effects.push(LedgerEffect::WriteRecord { account: vault_pda_data.key, record });
    effects.push(
        LedgerEffect::Transfer {
            from: vault_pda.key,
            to: settler_account.key,
            lamports: amount,
            seeds: EscrowSeeds { kind: SeedKind::Vault, lock_time, secret_hash, bump: vault_bump_seed },
        },
    );
    assert(effects@ =~= seq![
        LedgerEffect::WriteRecord { account: vault_pda_data.key, record },
        LedgerEffect::Transfer {
            from: vault_pda.key,
            to: settler_account.key,
            lamports: amount,
            seeds: seeds(SeedKind::Vault, lock_time, secret_hash, vault_bump_seed),
        },
    ]);
    Ok(effects)
}

/// Processes one instruction buffer: decodes and validates it, checks the
/// accounts `[settler, vault-data, vault, system authority, ..]`, and lists
/// the ledger effects; `vault_data` is the current content of the
/// vault-data account. An empty buffer has no tag and is refused. A
/// receiver's spend hashes the revealed secret to find the secret hash.
pub fn process_instruction(
    program_id: &[u8; 32],
    accounts: &[AccountView],
    vault_data: &[u8],
    instruction_data: &[u8],
) -> (r: Result<Vec<LedgerEffect>, SwapError>)
    ensures
        effects_view(r) == process_result(*program_id, accounts@, vault_data@, instruction_data@),
{
    if instruction_data.len() == 0 {
        return Err(SwapError::InvalidInstruction);
    }
    let instruction = AtomicSwapInstruction::unpack(instruction_data[0], instruction_data)?;
    match instruction {
        AtomicSwapInstruction::LamportsPayment {
            secret_hash,
            lock_time,
            amount,
            receiver,
            rent_exemption_lamports,
            vault_bump_seed,
            vault_bump_seed_data,
        } => process_funding(
            program_id,
            accounts,
            secret_hash,
            lock_time,
            amount,
            receiver,
            None,
            rent_exemption_lamports,
            vault_bump_seed,
            vault_bump_seed_data,
        ),
        AtomicSwapInstruction::SPLTokenPayment {
            secret_hash,
            lock_time,
            amount,
            receiver,
            token_program,
            rent_exemption_lamports,
            vault_bump_seed,
            vault_bump_seed_data,
        } => process_funding(
            program_id,
            accounts,
            secret_hash,
            lock_time,
            amount,
            receiver,
            Some(token_program),
            rent_exemption_lamports,
            vault_bump_seed,
            vault_bump_seed_data,
        ),
        AtomicSwapInstruction::ReceiverSpend {
            secret,
            lock_time,
            amount,
            sender,
            token_program,
            vault_bump_seed,
            ..
        } => {
            let secret_hash = calculate_hash_from_secret(secret.as_slice());
            proof {
                lemma_arr32(secret_hash);
            }
            settle_payment(
                program_id,
                accounts,
                vault_data,
                sender,
                secret_hash,
                token_program,
                amount,
                lock_time,
                vault_bump_seed,
                PaymentState::ReceiverSpent,
            )
        },
        AtomicSwapInstruction::SenderRefund {
            secret_hash,
            lock_time,
            amount,
            receiver,
            token_program,
            vault_bump_seed,
            ..
        } => settle_payment(
            program_id,
            accounts,
            vault_data,
            receiver,
            secret_hash,
            token_program,
            amount,
            lock_time,
            vault_bump_seed,
            PaymentState::SenderRefunded,
        ),
    }
}

/// Every successful funding writes a fresh record in the `PaymentSent` state
/// into the vault-data account, holding the funding's commitment and lock
/// time.
pub proof fn lemma_funding_creates_funded_record(
    program_id: [u8; 32],
    accounts: Seq<AccountView>,
    secret_hash: [u8; 32],
    lock_time: u64,
    amount: u64,
    receiver: [u8; 32],
    token: Option<[u8; 32]>,
    rent: u64,
    vault_bump: u8,
    vault_data_bump: u8,
)
    requires
        funding_result(
            program_id,
            accounts,
            secret_hash,
            lock_time,
            amount,
            receiver,
            token,
            rent,
            vault_bump,
            vault_data_bump,
        ) is Ok,
    ensures
        ({
            let effects = funding_result(
                program_id,
                accounts,
                secret_hash,
                lock_time,
                amount,
                receiver,
                token,
                rent,
                vault_bump,
                vault_data_bump,
            )->Ok_0;
            &&& effects.len() >= 2
            &&& effects[1] == LedgerEffect::WriteRecord {
                account: accounts[1].key,
                record: Payment {
                    payment_hash: arr32(
                        commitment_of(receiver@, accounts[0].key@, secret_hash@, token, amount),
                    ),
                    lock_time,
                    state: PaymentState::PaymentSent,
                },
            }
        }),
{
}

/// With accounts that pass their checks, a funded record, and the native
/// unit, a settlement succeeds exactly when the commitment recomputed from the
/// settler, the counterparty, the secret hash, the unit and the amount equals
/// the stored one; otherwise it fails with a commitment mismatch.
pub proof fn lemma_settlement_iff_commitment_matches(
    program_id: [u8; 32],
    accounts: Seq<AccountView>,
    stored: Payment,
    counterparty: [u8; 32],
    secret_hash: [u8; 32],
    amount: u64,
    lock_time: u64,
    vault_bump: u8,
    new_state: PaymentState,
)
    requires
        accounts.len() >= 4,
        accounts_result(accounts[0], accounts[1], accounts[2], accounts[3], Some(program_id))
            is Ok,
        stored.state == PaymentState::PaymentSent,
    ensures
        ({
            let commitment = if new_state == PaymentState::ReceiverSpent {
                commitment_of(accounts[0].key@, counterparty@, secret_hash@, Some(arr32(zero_key())), amount)
            } else {
                commitment_of(counterparty@, accounts[0].key@, secret_hash@, Some(arr32(zero_key())), amount)
            };
            let r = settlement_result(
                program_id,
                accounts,
                crate::payment::payment_bytes(stored),
                counterparty,
                secret_hash,
                arr32(zero_key()),
                amount,
                lock_time,
                vault_bump,
                new_state,
            );
            &&& (r is Ok <==> stored.payment_hash@ == commitment)
            &&& (stored.payment_hash@ != commitment ==> r == Err::<Seq<LedgerEffect>, SwapError>(
                SwapError::InvalidPaymentHash,
            ))
        }),
{
    crate::payment::lemma_payment_round_trip(stored);
    let z = arr32(zero_key());
    assert(z@ == zero_key());
}

/// A record that is spent or refunded stays so: every later spend or refund
/// against it fails, and once the accounts pass their checks it fails with an
/// invalid-state error, whatever secret hash and parties are offered.
pub proof fn lemma_settled_record_refuses_settlement(
    program_id: [u8; 32],
    accounts: Seq<AccountView>,
    stored: Payment,
    counterparty: [u8; 32],
    secret_hash: [u8; 32],
    token: [u8; 32],
    amount: u64,
    lock_time: u64,
    vault_bump: u8,
    new_state: PaymentState,
)
    requires
        stored.state == PaymentState::ReceiverSpent || stored.state == PaymentState::SenderRefunded,
    ensures
        settlement_result(
            program_id,
            accounts,
            crate::payment::payment_bytes(stored),
            counterparty,
            secret_hash,
            token,
            amount,
            lock_time,
            vault_bump,
            new_state,
        ) is Err,
        accounts.len() >= 4 && accounts_result(
            accounts[0],
            accounts[1],
            accounts[2],
            accounts[3],
            Some(program_id),
        ) is Ok ==> settlement_result(
            program_id,
            accounts,
            crate::payment::payment_bytes(stored),
            counterparty,
            secret_hash,
            token,
            amount,
            lock_time,
            vault_bump,
            new_state,
        ) == Err::<Seq<LedgerEffect>, SwapError>(SwapError::InvalidPaymentState),
{
    crate::payment::lemma_payment_round_trip(stored);
}

/// A settlement that succeeded cannot be repeated: once its record is written
/// back, every spend or refund against the new content of the vault-data
/// account fails with an invalid-state error. Of two settlements of one
/// record, at most one takes effect.
pub proof fn lemma_settlement_happens_once(
    program_id: [u8; 32],
    accounts: Seq<AccountView>,
    vault_data: Seq<u8>,
    counterparty: [u8; 32],
    secret_hash: [u8; 32],
    token: [u8; 32],
    amount: u64,
    lock_time: u64,
    vault_bump: u8,
    new_state: PaymentState,
    next_state: PaymentState,
)
    requires
        new_state == PaymentState::ReceiverSpent || new_state == PaymentState::SenderRefunded,
        settlement_result(
            program_id,
            accounts,
            vault_data,
            counterparty,
            secret_hash,
            token,
            amount,
            lock_time,
            vault_bump,
            new_state,
        ) is Ok,
    ensures
        ({
            let effects = settlement_result(
                program_id,
                accounts,
                vault_data,
                counterparty,
                secret_hash,
                token,
                amount,
                lock_time,
                vault_bump,
                new_state,
            )->Ok_0;
            &&& effects[0] is WriteRecord
            &&& effects[0]->WriteRecord_record.state == new_state
            &&& settlement_result(
                program_id,
                accounts,
                crate::payment::payment_bytes(effects[0]->WriteRecord_record),
                counterparty,
                secret_hash,
                token,
                amount,
                lock_time,
                vault_bump,
                next_state,
            ) == Err::<Seq<LedgerEffect>, SwapError>(SwapError::InvalidPaymentState)
        }),
{
    let effects = settlement_result(
        program_id,
        accounts,
        vault_data,
        counterparty,
        secret_hash,
        token,
        amount,
        lock_time,
        vault_bump,
        new_state,
    )->Ok_0;
    let p = effects[0]->WriteRecord_record;
    let s = accounts[0];
    let c = if new_state == PaymentState::ReceiverSpent {
        commitment_of(s.key@, counterparty@, secret_hash@, Some(token), amount)
    } else {
        commitment_of(counterparty@, s.key@, secret_hash@, Some(token), amount)
    };
    let settled = settle_result(vault_data, c, PaymentState::PaymentSent, new_state);
    assert(settled == Ok::<Payment, SwapError>(p));
    let q = crate::payment::payment_from_bytes(vault_data)->Ok_0;
    assert(q.payment_hash@ == c);
    assert(p.payment_hash == q.payment_hash);
    crate::payment::lemma_payment_round_trip(p);
    crate::payment::lemma_terminal_record_is_final(p, c, next_state);
}

} // verus!
