//! Errors of the swap protocol; each is fatal to the instruction.
use vstd::prelude::*;

verus! {

/// Why an instruction was refused.
#[derive(Debug, Clone, Copy, PartialEq, Eq, Structural)]
pub enum SwapError {
    /// The tag is not one of the four operations, or the record does not decode.
    InvalidInstruction,
    /// The buffer length does not match the tag's fixed length.
    InvalidInputLength,
    /// A secret hash is not 32 bytes long.
    InvalidSecretHash,
    /// A secret is not 32 bytes long.
    InvalidSecret,
    /// The lock time is zero.
    InvalidLockTime,
    /// The amount is zero.
    InvalidAmount,
    /// A receiver id is not 32 bytes long.
    InvalidReceiverPubkey,
    /// A sender id is not 32 bytes long.
    InvalidSenderPubkey,
    /// A token-type id is not 32 bytes long.
    InvalidTokenProgram,
    /// A funding names the all-zero receiver.
    ReceiverSetToDefault,
    /// A funding moves no value.
    AmountZero,
    /// Fewer than four accounts were supplied.
    NotEnoughAccountKeys,
    /// The first account did not sign.
    MissingRequiredSignature,
    /// The vault or the vault-data account is not writable.
    InvalidAccountData,
    /// The vault is not owned by the system authority, or the fourth account is not it.
    IncorrectProgramId,
    /// The vault-data account is not owned by this program.
    InvalidOwner,
    /// The stored record does not decode.
    InvalidPaymentData,
    /// The recomputed commitment differs from the stored one.
    InvalidPaymentHash,
    /// The stored record is not in the state the operation requires.
    InvalidPaymentState,
    /// Settlement in a token unit is not supported.
    NotSupported,
    /// The lamports to move into the vault do not fit in 64 bits.
    ArithmeticOverflow,
}

} // verus!
