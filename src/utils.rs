//! Checks on the metadata of a single account.
use crate::account::{AccountKey, AccountView};
use crate::constants::MAX_CONTRACT_SIZE;
use solana_program::program_error::ProgramError;
use vstd::prelude::*;

verus! {

/// Fails with `IllegalOwner` unless `account` belongs to `owner`.
pub fn check_account_owner(account: &AccountView, owner: &AccountKey) -> (r: Result<(), ProgramError>)
    ensures
        account.owner.bytes@ == owner.bytes@ ==> r is Ok,
        account.owner.bytes@ != owner.bytes@ ==> r == Err::<(), ProgramError>(ProgramError::IllegalOwner),
{
    if !account.owner.same_as(owner) {
        return Err(ProgramError::IllegalOwner);
    }
    Ok(())
}

/// Fails with `AccountDataTooSmall` when the account holds fewer than `min_size` bytes.
pub fn check_account_size(account: &AccountView, min_size: usize) -> (r: Result<(), ProgramError>)
    ensures
        account.data_len >= min_size ==> r is Ok,
        account.data_len < min_size ==> r == Err::<(), ProgramError>(ProgramError::AccountDataTooSmall),
{
    if account.data_len < min_size {
        return Err(ProgramError::AccountDataTooSmall);
    }
    Ok(())
}

/// Fails with `MissingRequiredSignature` unless the account signed.
pub fn check_signer(account: &AccountView) -> (r: Result<(), ProgramError>)
    ensures
        account.is_signer ==> r is Ok,
        !account.is_signer ==> r == Err::<(), ProgramError>(ProgramError::MissingRequiredSignature),
{
    if !account.is_signer {
        return Err(ProgramError::MissingRequiredSignature);
    }
    Ok(())
}

/// A program binary must belong to `program_id` (else `IllegalOwner`) and be at
/// most `MAX_CONTRACT_SIZE` bytes (else `InvalidAccountData`).
pub fn validate_program_account(account: &AccountView, program_id: &AccountKey) -> (r: Result<(), ProgramError>)
    ensures
        account.owner.bytes@ != program_id.bytes@ ==> r == Err::<(), ProgramError>(ProgramError::IllegalOwner),
        account.owner.bytes@ == program_id.bytes@ && account.data_len > MAX_CONTRACT_SIZE ==> r == Err::<
            (),
            ProgramError,
        >(ProgramError::InvalidAccountData),
        account.owner.bytes@ == program_id.bytes@ && account.data_len <= MAX_CONTRACT_SIZE ==> r is Ok,
{
    check_account_owner(account, program_id)?;
    if account.data_len > MAX_CONTRACT_SIZE {
        return Err(ProgramError::InvalidAccountData);
    }
    Ok(())
}

} // verus!
