//! The accounts an instruction is given, and the checks they must pass.
use vstd::prelude::*;
use crate::error::SwapError;
use crate::hash::zero_key;
use crate::bytes::bytes_eq32;

verus! {

/// What the protocol reads of a ledger account.
#[derive(Debug, Clone, Copy, PartialEq, Eq)]
pub struct AccountView {
    pub key: [u8; 32],
    pub owner: [u8; 32],
    pub is_signer: bool,
    pub is_writable: bool,
}

/// Relies on solana_program::system_program::id: the system program's id,
/// declared as the base58 text of 32 zero bytes.
#[verifier::external_body]
fn system_program_key() -> (r: [u8; 32])
    ensures
        r@ == zero_key(),
{
    solana_program::system_program::id().to_bytes()
}

/// Whether `key` is the all-zero id, which is both the default id and the
/// system authority's id.
pub fn is_zero_key(key: &[u8; 32]) -> (r: bool)
    ensures
        r == (key@ == zero_key()),
{
    let zero = system_program_key();
    bytes_eq32(key, &zero)
}

/// The first four accounts: settler, vault-data, vault, system authority.
pub open spec fn common_accounts_result(accounts: Seq<AccountView>) -> Result<
    (AccountView, AccountView, AccountView, AccountView),
    SwapError,
> {
    if accounts.len() < 4 {
        Err(SwapError::NotEnoughAccountKeys)
    } else {
        Ok((accounts[0], accounts[1], accounts[2], accounts[3]))
    }
}

/// The account checks, in order. `program_id` is given for settlements, whose
/// vault-data account must already belong to the program.
pub open spec fn accounts_result(
    sender: AccountView,
    vault_data: AccountView,
    vault: AccountView,
    system: AccountView,
    program_id: Option<[u8; 32]>,
) -> Result<(), SwapError> {
    if !sender.is_signer {
        Err(SwapError::MissingRequiredSignature)
    } else if !vault_data.is_writable || !vault.is_writable {
        Err(SwapError::InvalidAccountData)
    } else if vault.owner@ != zero_key() || system.key@ != zero_key() {
        Err(SwapError::IncorrectProgramId)
    } else if program_id is Some && vault_data.owner@ != program_id->0@ {
        Err(SwapError::InvalidOwner)
    } else {
        Ok(())
    }
}

/// The checks on a funding's parameters made before any account is read.
pub open spec fn payment_params_result(receiver: [u8; 32], amount: u64) -> Result<(), SwapError> {
    if receiver@ == zero_key() {
        Err(SwapError::ReceiverSetToDefault)
    } else if amount == 0 {
        Err(SwapError::AmountZero)
    } else {
        Ok(())
    }
}

/// Takes the four accounts every instruction needs; extra ones are ignored.
pub fn get_common_accounts(accounts: &[AccountView]) -> (r: Result<
    (AccountView, AccountView, AccountView, AccountView),
    SwapError,
>)
    ensures
        r == common_accounts_result(accounts@),
{
    if accounts.len() < 4 {
        return Err(SwapError::NotEnoughAccountKeys);
    }
    Ok((accounts[0], accounts[1], accounts[2], accounts[3]))
}

/// Checks signer, writability and ownership of the supplied accounts.
pub fn validate_accounts(
    sender_account: &AccountView,
    vault_pda_data: &AccountView,
    vault_pda: &AccountView,
    system_program_account: &AccountView,
    program_id: Option<&[u8; 32]>,
) -> (r: Result<(), SwapError>)
    ensures
        r == accounts_result(
            *sender_account,
            *vault_pda_data,
            *vault_pda,
            *system_program_account,
            match program_id {
                Some(p) => Some(*p),
                None => None,
            },
        ),
{
    if !sender_account.is_signer {
        return Err(SwapError::MissingRequiredSignature);
    }
    if !vault_pda_data.is_writable || !vault_pda.is_writable {
        return Err(SwapError::InvalidAccountData);
    }
    if !is_zero_key(&vault_pda.owner) || !is_zero_key(&system_program_account.key) {
        return Err(SwapError::IncorrectProgramId);
    }
    if let Some(pid) = program_id {
        if !bytes_eq32(&vault_pda_data.owner, pid) {
            return Err(SwapError::InvalidOwner);
        }
    }
    Ok(())
}

/// Refuses a funding to the default receiver or of a zero amount.
pub fn validate_common_payment_params(receiver: &[u8; 32], amount: u64) -> (r: Result<
    (),
    SwapError,
>)
    ensures
        r == payment_params_result(*receiver, amount),
{
    if is_zero_key(receiver) {
        return Err(SwapError::ReceiverSetToDefault);
    }
    if amount == 0 {
        return Err(SwapError::AmountZero);
    }
    Ok(())
}

} // verus!
