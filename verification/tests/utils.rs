use access_protocol::account::AccountRecord;
use access_protocol::error::{AccessError, ErrorKind};
use access_protocol::pubkey::{keys_equal, MAX_SEED_LEN};
use access_protocol::state::StakeAccount;
use access_protocol::utils::{
    assert_empty_stake_account, assert_valid_vault, check_account_key, check_account_owner, check_signer,
};
use access_protocol::vault::{
    read_vault_authority, token_program_id, VAULT_AUTHORITY_OFFSET, VAULT_LEN, VAULT_STATE_FROZEN,
    VAULT_STATE_INITIALIZED, VAULT_STATE_OFFSET,
};

fn key(b: u8) -> [u8; 32] {
    [b; 32]
}

fn record(address: [u8; 32], program: [u8; 32], is_signer: bool) -> AccountRecord {
    AccountRecord::new(address, program, is_signer, 0, Vec::new())
}

fn vault_data(authority: [u8; 32], state: u8) -> Vec<u8> {
    let mut data = vec![0u8; 165];
    data[..32].copy_from_slice(&[0x77; 32]);
    data[32..64].copy_from_slice(&authority);
    data[108] = state;
    data
}

fn vault(authority: [u8; 32]) -> AccountRecord {
    AccountRecord::new(key(50), token_program_id(), false, 1, vault_data(authority, 1))
}

#[test]
fn keys_equal_compares_all_bytes() {
    assert!(keys_equal(&key(1), &key(1)));
    assert!(!keys_equal(&key(1), &key(2)));
    for i in 0..32 {
        let mut other = key(1);
        other[i] = 0;
        assert!(!keys_equal(&key(1), &other));
        assert!(!keys_equal(&other, &key(1)));
    }
}

#[test]
fn seed_limit_is_that_of_the_host() {
    assert_eq!(MAX_SEED_LEN, solana_program::pubkey::MAX_SEED_LEN);
}

#[test]
fn account_record_new_keeps_every_field() {
    let r = AccountRecord::new(key(1), key(2), true, 99, vec![1, 2, 3]);
    assert_eq!(r.key, key(1));
    assert_eq!(r.owner, key(2));
    assert!(r.is_signer);
    assert_eq!(r.lamports, 99);
    assert_eq!(r.data, vec![1, 2, 3]);
}

#[test]
fn check_account_key_passes_only_the_expected_address() {
    let a = record(key(1), key(2), false);
    assert_eq!(check_account_key(&a, &key(1), AccessError::WrongRent), Ok(()));
    assert_eq!(check_account_key(&a, &key(2), AccessError::WrongRent), Err(AccessError::WrongRent));
    assert_eq!(
        check_account_key(&a, &key(3), AccessError::AccountNotDeterministic),
        Err(AccessError::AccountNotDeterministic)
    );
}

#[test]
fn check_account_owner_passes_only_the_expected_program() {
    let a = record(key(1), key(2), false);
    assert_eq!(check_account_owner(&a, &key(2), AccessError::WrongOwner), Ok(()));
    assert_eq!(check_account_owner(&a, &key(1), AccessError::WrongOwner), Err(AccessError::WrongOwner));
}

#[test]
fn check_signer_passes_only_signers() {
    assert_eq!(check_signer(&record(key(1), key(2), true), AccessError::StakePoolOwnerMustSign), Ok(()));
    assert_eq!(
        check_signer(&record(key(1), key(2), false), AccessError::StakePoolOwnerMustSign),
        Err(AccessError::StakePoolOwnerMustSign)
    );
}

#[test]
fn assert_empty_stake_account_passes_only_zero() {
    assert_eq!(assert_empty_stake_account(&StakeAccount::new(key(1), 0)), Ok(()));
    assert_eq!(assert_empty_stake_account(&StakeAccount::new(key(1), 1)), Err(AccessError::AccountNotEmpty));
    assert_eq!(assert_empty_stake_account(&StakeAccount::new(key(1), 5)), Err(AccessError::AccountNotEmpty));
    assert_eq!(
        assert_empty_stake_account(&StakeAccount::new(key(1), u64::MAX)),
        Err(AccessError::AccountNotEmpty)
    );
}

#[test]
fn vault_layout_constants() {
    assert_eq!(VAULT_LEN, 165);
    assert_eq!(VAULT_AUTHORITY_OFFSET, 32);
    assert_eq!(VAULT_STATE_OFFSET, 108);
    assert_eq!(VAULT_STATE_INITIALIZED, 1);
    assert_eq!(VAULT_STATE_FROZEN, 2);
}

#[test]
fn token_program_id_is_the_known_address() {
    let want: solana_program::pubkey::Pubkey = "TokenkegQfeZyiNwAJbNbGKPFXCWuBvf9Ss623VQ5DA".parse().unwrap();
    assert_eq!(token_program_id(), want.to_bytes());
}

#[test]
fn read_vault_authority_reads_the_authority_field() {
    assert_eq!(read_vault_authority(&vault(key(9))), Some(key(9)));
    let frozen = AccountRecord::new(key(50), token_program_id(), false, 1, vault_data(key(9), 2));
    assert_eq!(read_vault_authority(&frozen), Some(key(9)));
}

#[test]
fn read_vault_authority_refuses_what_is_no_vault() {
    let other_program = AccountRecord::new(key(50), key(51), false, 1, vault_data(key(9), 1));
    assert_eq!(read_vault_authority(&other_program), None);
    for state in [0u8, 3, 255] {
        let v = AccountRecord::new(key(50), token_program_id(), false, 1, vault_data(key(9), state));
        assert_eq!(read_vault_authority(&v), None);
    }
    let mut short = vault_data(key(9), 1);
    short.pop();
    assert_eq!(read_vault_authority(&AccountRecord::new(key(50), token_program_id(), false, 1, short)), None);
    let mut long = vault_data(key(9), 1);
    long.push(0);
    assert_eq!(read_vault_authority(&AccountRecord::new(key(50), token_program_id(), false, 1, long)), None);
    assert_eq!(read_vault_authority(&AccountRecord::new(key(50), token_program_id(), false, 1, Vec::new())), None);
}

#[test]
fn assert_valid_vault_passes_only_the_pool_of_the_vault() {
    assert_eq!(assert_valid_vault(&vault(key(9)), &key(9)), Ok(()));
    assert_eq!(assert_valid_vault(&vault(key(9)), &key(8)), Err(AccessError::InvalidVault));
    assert_eq!(assert_valid_vault(&vault(key(9)), &key(50)), Err(AccessError::InvalidVault));
    let other_program = AccountRecord::new(key(50), key(51), false, 1, vault_data(key(9), 1));
    assert_eq!(assert_valid_vault(&other_program, &key(9)), Err(AccessError::InvalidVault));
    let not_set_up = AccountRecord::new(key(50), token_program_id(), false, 1, vault_data(key(9), 0));
    assert_eq!(assert_valid_vault(&not_set_up, &key(9)), Err(AccessError::InvalidVault));
}

#[test]
fn every_error_has_its_kind() {
    assert_eq!(AccessError::NotEnoughAccountKeys.kind(), ErrorKind::BadInput);
    assert_eq!(AccessError::WrongOwner.kind(), ErrorKind::BadInput);
    assert_eq!(AccessError::WrongSystemProgram.kind(), ErrorKind::BadInput);
    assert_eq!(AccessError::WrongRent.kind(), ErrorKind::BadInput);
    assert_eq!(AccessError::AccountNotDeterministic.kind(), ErrorKind::BadInput);
    assert_eq!(AccessError::InvalidVault.kind(), ErrorKind::BadInput);
    assert_eq!(AccessError::StakePoolOwnerMustSign.kind(), ErrorKind::Unauthorized);
    assert_eq!(AccessError::FeePayerMustSign.kind(), ErrorKind::Unauthorized);
    assert_eq!(AccessError::WrongStakePoolOwner.kind(), ErrorKind::Unauthorized);
    assert_eq!(AccessError::AccountNotEmpty.kind(), ErrorKind::InvalidState);
    assert_eq!(AccessError::DeserializationError.kind(), ErrorKind::InvalidState);
}
