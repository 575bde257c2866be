//! The payment record kept in the vault-data account, and its state machine.
use vstd::prelude::*;
use crate::bytes::{bytes_eq32, le_bytes_of, push_bytes, push_u64_le, read_array32, read_u64_le, u64_of_le};
use crate::error::SwapError;

verus! {

/// Size of a serialized payment record.
pub const PAYMENT_LEN: usize = 41;

/// Lifecycle of a payment: funded, then spent by the receiver or refunded to
/// the sender. Both later states are terminal.
#[derive(Debug, Clone, Copy, PartialEq, Eq, Structural)]
pub enum PaymentState {
    PaymentSent,
    ReceiverSpent,
    SenderRefunded,
}

/// The persisted record of one swap.
#[derive(Debug, Clone, Copy, PartialEq, Eq)]
pub struct Payment {
    pub payment_hash: [u8; 32],
    pub lock_time: u64,
    pub state: PaymentState,
}

/// The byte that encodes a state.
pub open spec fn state_byte(s: PaymentState) -> u8 {
    match s {
        PaymentState::PaymentSent => 0,
        PaymentState::ReceiverSpent => 1,
        PaymentState::SenderRefunded => 2,
    }
}

/// The state that a byte encodes, if any.
pub open spec fn state_of_byte(b: u8) -> Option<PaymentState> {
    if b == 0 {
        Some(PaymentState::PaymentSent)
    } else if b == 1 {
        Some(PaymentState::ReceiverSpent)
    } else if b == 2 {
        Some(PaymentState::SenderRefunded)
    } else {
        None
    }
}

/// The serialized record: commitment, lock time (little-endian), state byte.
pub open spec fn payment_bytes(p: Payment) -> Seq<u8> {
    p.payment_hash@ + le_bytes_of(p.lock_time) + seq![state_byte(p.state)]
}

/// The record that the first 41 bytes of `data` hold, or why they hold none.
pub open spec fn payment_from_bytes(data: Seq<u8>) -> Result<Payment, SwapError> {
    if data.len() < 41 {
        Err(SwapError::InvalidPaymentData)
    } else {
        match state_of_byte(data[40]) {
            Some(s) => Ok(Payment {
                payment_hash: choose|h: [u8; 32]| h@ == data.subrange(0, 32),
                lock_time: u64_of_le(data.subrange(32, 40)),
                state: s,
            }),
            None => Err(SwapError::InvalidPaymentData),
        }
    }
}

/// The outcome of moving `p` from `expected` to `new_state`.
pub open spec fn transition_result(
    p: Payment,
    expected: PaymentState,
    new_state: PaymentState,
) -> Result<Payment, SwapError> {
    if p.state == expected {
        Ok(Payment { state: new_state, ..p })
    } else {
        Err(SwapError::InvalidPaymentState)
    }
}

/// The record after settling `data` against `payment_hash`: the record must
/// be in the `expected` state, then its commitment must match.
pub open spec fn settle_result(
    data: Seq<u8>,
    payment_hash: Seq<u8>,
    expected: PaymentState,
    new_state: PaymentState,
) -> Result<Payment, SwapError> {
    match payment_from_bytes(data) {
        Err(e) => Err(e),
        Ok(p) => if p.state != expected {
            Err(SwapError::InvalidPaymentState)
        } else if p.payment_hash@ != payment_hash {
            Err(SwapError::InvalidPaymentHash)
        } else {
            transition_result(p, expected, new_state)
        },
    }
}

/// Builds a fresh record for a funding: it always starts `PaymentSent`.
pub fn create_payment_object(payment_hash: [u8; 32], lock_time: u64) -> (r: Payment)
    ensures
        r == (Payment { payment_hash, lock_time, state: PaymentState::PaymentSent }),
{
    Payment { payment_hash, lock_time, state: PaymentState::PaymentSent }
}

impl Payment {
    /// Serializes the record into its 41 bytes.
    pub fn pack(&self) -> (r: Vec<u8>)
        ensures
            r@ == payment_bytes(*self),
            r@.len() == PAYMENT_LEN,
    {
        let mut out: Vec<u8> = Vec::new();
        push_bytes(&mut out, self.payment_hash.as_slice());
        push_u64_le(&mut out, self.lock_time);
        let b: u8 = match self.state {
            PaymentState::PaymentSent => 0,
            PaymentState::ReceiverSpent => 1,
            PaymentState::SenderRefunded => 2,
        };
        out.push(b);
        assert(out@ =~= payment_bytes(*self));
        out
    }

    /// Reads a record from the start of `data`; trailing bytes are ignored.
    pub fn unpack(data: &[u8]) -> (r: Result<Payment, SwapError>)
        ensures
            r == payment_from_bytes(data@),
    {
        if data.len() < PAYMENT_LEN {
            return Err(SwapError::InvalidPaymentData);
        }
        let state = match data[40] {
            0 => PaymentState::PaymentSent,
            1 => PaymentState::ReceiverSpent,
            2 => PaymentState::SenderRefunded,
            _ => {
                return Err(SwapError::InvalidPaymentData);
            },
        };
        let payment_hash = read_array32(data, 0);
        let lock_time = read_u64_le(data, 32);
        let p = Payment { payment_hash, lock_time, state };
        proof {
            let h = choose|h: [u8; 32]| h@ == data@.subrange(0, 32);
            assert(h@ == payment_hash@);
            assert(h == payment_hash);
        }
        Ok(p)
    }

    /// Moves the record from `expected` to `new_state`; fails, leaving it as
    /// it was, when it is not in `expected`.
    pub fn transition(&self, expected: PaymentState, new_state: PaymentState) -> (r: Result<
        Payment,
        SwapError,
    >)
        ensures
            r == transition_result(*self, expected, new_state),
    {
        if self.state != expected {
            return Err(SwapError::InvalidPaymentState);
        }
        Ok(Payment { state: new_state, ..*self })
    }
}

/// Settles the record held in `data`: checks that it is in `expected_state`,
/// then that its commitment is `payment_hash`, and moves it to `new_state`.
/// Returns the updated record, to be written back in place of the old one.
pub fn update_common_payment_state(
    data: &[u8],
    payment_hash: &[u8; 32],
    expected_state: PaymentState,
    new_state: PaymentState,
) -> (r: Result<Payment, SwapError>)
    ensures
        r == settle_result(data@, payment_hash@, expected_state, new_state),
{
    let swap_payment = Payment::unpack(data)?;
    if swap_payment.state != expected_state {
        return Err(SwapError::InvalidPaymentState);
    }
    if !bytes_eq32(&swap_payment.payment_hash, payment_hash) {
        return Err(SwapError::InvalidPaymentHash);
    }
    swap_payment.transition(expected_state, new_state)
}

/// Reading back a serialized record gives the record.
pub proof fn lemma_payment_round_trip(p: Payment)
    ensures
        payment_from_bytes(payment_bytes(p)) == Ok::<Payment, SwapError>(p),
{
    let b = payment_bytes(p);
    crate::bytes::lemma_u64_le_round_trip(p.lock_time);
    assert(b.subrange(0, 32) =~= p.payment_hash@);
    assert(b.subrange(32, 40) =~= le_bytes_of(p.lock_time));
    let h = choose|h: [u8; 32]| h@ == b.subrange(0, 32);
    assert(h@ == p.payment_hash@);
    assert(h == p.payment_hash);
}

/// A record created by a funding is `PaymentSent`, so it cannot be treated as
/// already spent: moving it from `ReceiverSpent` fails with an invalid-state
/// error, whatever the target state, and so does settling its bytes from
/// `ReceiverSpent`, whatever commitment is offered.
pub proof fn lemma_fresh_record_not_spent(
    payment_hash: [u8; 32],
    lock_time: u64,
    new_state: PaymentState,
    offered: Seq<u8>,
)
    ensures
        (Payment { payment_hash, lock_time, state: PaymentState::PaymentSent }).state
            == PaymentState::PaymentSent,
        transition_result(
            Payment { payment_hash, lock_time, state: PaymentState::PaymentSent },
            PaymentState::ReceiverSpent,
            new_state,
        ) == Err::<Payment, SwapError>(SwapError::InvalidPaymentState),
        settle_result(
            payment_bytes(Payment { payment_hash, lock_time, state: PaymentState::PaymentSent }),
            offered,
            PaymentState::ReceiverSpent,
            new_state,
        ) == Err::<Payment, SwapError>(SwapError::InvalidPaymentState),
{
    lemma_payment_round_trip(Payment { payment_hash, lock_time, state: PaymentState::PaymentSent });
}

/// Once a record is spent or refunded, every later settlement of its bytes
/// fails with an invalid-state error, whatever commitment is offered.
pub proof fn lemma_terminal_record_is_final(
    p: Payment,
    payment_hash: Seq<u8>,
    new_state: PaymentState,
)
    requires
        p.state == PaymentState::ReceiverSpent || p.state == PaymentState::SenderRefunded,
    ensures
        settle_result(payment_bytes(p), payment_hash, PaymentState::PaymentSent, new_state)
            == Err::<Payment, SwapError>(SwapError::InvalidPaymentState),
{
    lemma_payment_round_trip(p);
}

} // verus!
