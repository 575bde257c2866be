//! The commitment that binds a payment's parties, secret hash, unit and amount.
use vstd::prelude::*;
use crate::bytes::{le_bytes_of, push_bytes, push_u64_le};

verus! {

/// The SHA-256 digest of `data`.
pub uninterp spec fn sha256_of(data: Seq<u8>) -> Seq<u8>;

/// Relies on solana_program::hash::hash: the SHA-256 digest of `data`, which
/// depends on `data` alone.
#[verifier::external_body]
fn sha256(data: &[u8]) -> (r: [u8; 32])
    ensures
        r@ == sha256_of(data@),
{
    solana_program::hash::hash(data).to_bytes()
}

/// 32 zero bytes: the default id, and the unit id of the native currency.
pub open spec fn zero_key() -> Seq<u8> {
    Seq::new(32, |i: int| 0u8)
}

/// The unit id that enters the commitment: the token-type id, or the zero id
/// for the native unit.
pub open spec fn unit_bytes(token: Option<[u8; 32]>) -> Seq<u8> {
    match token {
        Some(t) => t@,
        None => zero_key(),
    }
}

/// What is hashed into a commitment, in this order: receiver, sender, secret
/// hash, unit id, and the amount as eight little-endian bytes.
pub open spec fn commitment_preimage(
    receiver: Seq<u8>,
    sender: Seq<u8>,
    secret_hash: Seq<u8>,
    token: Option<[u8; 32]>,
    amount: u64,
) -> Seq<u8> {
    receiver + sender + secret_hash + unit_bytes(token) + le_bytes_of(amount)
}

/// The commitment of a payment.
pub open spec fn commitment_of(
    receiver: Seq<u8>,
    sender: Seq<u8>,
    secret_hash: Seq<u8>,
    token: Option<[u8; 32]>,
    amount: u64,
) -> Seq<u8> {
    sha256_of(commitment_preimage(receiver, sender, secret_hash, token, amount))
}

/// Computes the commitment of a payment.
pub fn calculate_hash(
    receiver: &[u8; 32],
    sender_key: &[u8; 32],
    secret_hash: &[u8],
    token_program: Option<[u8; 32]>,
    amount: u64,
) -> (r: [u8; 32])
    ensures
        r@ == commitment_of(receiver@, sender_key@, secret_hash@, token_program, amount),
{
    let mut data: Vec<u8> = Vec::new();
    push_bytes(&mut data, receiver.as_slice());
    push_bytes(&mut data, sender_key.as_slice());
    push_bytes(&mut data, secret_hash);
    match token_program {
        Some(t) => push_bytes(&mut data, t.as_slice()),
        None => {
            let zero = [0u8; 32];
            assert(zero@ =~= zero_key());
            push_bytes(&mut data, zero.as_slice());
        },
    }
    push_u64_le(&mut data, amount);
    assert(data@ =~= commitment_preimage(receiver@, sender_key@, secret_hash@, token_program, amount));
    sha256(data.as_slice())
}

/// Computes the secret hash that a revealed secret stands for.
pub fn calculate_hash_from_secret(secret: &[u8]) -> (r: [u8; 32])
    ensures
        r@ == sha256_of(secret@),
{
    sha256(secret)
}

/// Two commitments are computed from the same bytes only when every field
/// agrees: receiver, sender, secret hash, unit id and amount. Any change of a
/// single field thus changes what is hashed.
pub proof fn lemma_commitment_preimage_injective(
    r1: Seq<u8>, s1: Seq<u8>, h1: Seq<u8>, t1: Option<[u8; 32]>, a1: u64,
    r2: Seq<u8>, s2: Seq<u8>, h2: Seq<u8>, t2: Option<[u8; 32]>, a2: u64,
)
    requires
        r1.len() == 32 && s1.len() == 32 && h1.len() == 32,
        r2.len() == 32 && s2.len() == 32 && h2.len() == 32,
        commitment_preimage(r1, s1, h1, t1, a1) == commitment_preimage(r2, s2, h2, t2, a2),
    ensures
        r1 == r2 && s1 == s2 && h1 == h2 && unit_bytes(t1) == unit_bytes(t2) && a1 == a2,
{
    let pre_a = commitment_preimage(r1, s1, h1, t1, a1);
    let pre_b = commitment_preimage(r2, s2, h2, t2, a2);
    assert(unit_bytes(t1).len() == 32 && unit_bytes(t2).len() == 32);
    assert(r1 =~= pre_a.subrange(0, 32));
    assert(r2 =~= pre_b.subrange(0, 32));
    assert(s1 =~= pre_a.subrange(32, 64));
    assert(s2 =~= pre_b.subrange(32, 64));
    assert(h1 =~= pre_a.subrange(64, 96));
    assert(h2 =~= pre_b.subrange(64, 96));
    assert(unit_bytes(t1) =~= pre_a.subrange(96, 128));
    assert(unit_bytes(t2) =~= pre_b.subrange(96, 128));
    assert(le_bytes_of(a1) =~= pre_a.subrange(128, 136));
    assert(le_bytes_of(a2) =~= pre_b.subrange(128, 136));
    crate::bytes::lemma_u64_le_round_trip(a1);
    crate::bytes::lemma_u64_le_round_trip(a2);
}

} // verus!
