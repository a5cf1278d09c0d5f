//! The checks that gate every write. None of them changes anything.

use vstd::prelude::*;
use crate::account::{AccountRecord, AccountView};
use crate::error::AccessError;
use crate::pubkey::{keys_equal, Pubkey};
use crate::state::StakeAccount;
use crate::vault::{read_vault_authority, vault_authority};

verus! {

/// Refuses with `error` unless the account's address is `key`.
pub fn check_account_key(account: &AccountRecord, key: &Pubkey, error: AccessError) -> (r: Result<(), AccessError>)
    ensures
        r == (if account@.key == key@ { Ok::<(), AccessError>(()) } else { Err(error) }),
{
    if keys_equal(&account.key, key) {
        Ok(())
    } else {
        Err(error)
    }
}

/// Refuses with `error` unless the account is controlled by the program
/// `owner`. An account that the caller made up outside the program's control
/// does not pass.
pub fn check_account_owner(account: &AccountRecord, owner: &Pubkey, error: AccessError) -> (r: Result<(), AccessError>)
    ensures
        r == (if account@.owner == owner@ { Ok::<(), AccessError>(()) } else { Err(error) }),
{
    if keys_equal(&account.owner, owner) {
        Ok(())
    } else {
        Err(error)
    }
}

/// Refuses with `error` unless the account signed the invocation.
pub fn check_signer(account: &AccountRecord, error: AccessError) -> (r: Result<(), AccessError>)
    ensures
        r == (if account@.is_signer { Ok::<(), AccessError>(()) } else { Err(error) }),
{
    if account.is_signer {
        Ok(())
    } else {
        Err(error)
    }
}

/// Refuses with `AccountNotEmpty` unless no stake is left in the position.
pub fn assert_empty_stake_account(stake_account: &StakeAccount) -> (r: Result<(), AccessError>)
    ensures
        r == (if stake_account@.stake_amount == 0 {
            Ok::<(), AccessError>(())
        } else {
            Err(AccessError::AccountNotEmpty)
        }),
{
    if stake_account.is_empty() {
        Ok(())
    } else {
        Err(AccessError::AccountNotEmpty)
    }
}

/// Whether `vault` is a custody account whose authority is `pool`. A custody
/// account has one authority, so a vault is held for one pool at most.
pub open spec fn valid_vault(vault: AccountView, pool: Seq<u8>) -> bool {
    vault_authority(vault) == Some(pool)
}

/// Refuses with `InvalidVault` unless `account` is a custody account whose
/// authority is `vault_signer`. A vault held for anyone else does not pass.
pub fn assert_valid_vault(account: &AccountRecord, vault_signer: &Pubkey) -> (r: Result<(), AccessError>)
    ensures
        r == (if valid_vault(account@, vault_signer@) {
            Ok::<(), AccessError>(())
        } else {
            Err(AccessError::InvalidVault)
        }),
{
    match read_vault_authority(account) {
        Some(authority) => {
            if keys_equal(&authority, vault_signer) {
                Ok(())
            } else {
                Err(AccessError::InvalidVault)
            }
        },
        None => Err(AccessError::InvalidVault),
    }
}

} // verus!
