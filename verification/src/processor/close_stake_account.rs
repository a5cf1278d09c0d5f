//! Close a stake account.
//!
//! An empty stake account is marked as closed, and its whole balance goes to
//! its owner.

use vstd::prelude::*;
use crate::account::{overwrite_prefix, AccountRecord, AccountView};
use crate::error::AccessError;
use crate::pubkey::Pubkey;
use crate::state::{decode_stake_account, encode_stake_account, StakeAccount};
use crate::utils::{assert_empty_stake_account, check_account_key, check_account_owner, check_signer};

verus! {

/// The parameters of the operation: it has none.
#[derive(Clone, Copy, Debug, PartialEq, Eq)]
pub struct Params {}

/// The accounts of the operation, in the order in which they are supplied.
pub struct Accounts<'a, T> {
    /// The stake account. It is written.
    pub stake_account: &'a T,
    /// The owner of the stake account. It is written and has to have signed.
    pub owner: &'a T,
}

/// The error with which a list of accounts is refused before the stake
/// account is read: the list is too short, the stake account is not
/// controlled by the program, or the owner did not sign.
pub open spec fn parse_error(program_id: Seq<u8>, accounts: Seq<AccountView>) -> Option<AccessError> {
    if accounts.len() < 2 {
        Some(AccessError::NotEnoughAccountKeys)
    } else if accounts[0].owner != program_id {
        Some(AccessError::WrongOwner)
    } else if !accounts[1].is_signer {
        Some(AccessError::StakePoolOwnerMustSign)
    } else {
        None
    }
}

/// The first check that fails when the stake account at the head of
/// `accounts` is closed for the owner behind it, or `None` where all pass.
/// After the checks on the list, the stake account has to decode, the owner
/// has to be the one it records, and it has to hold no stake.
pub open spec fn close_stake_account_error(program_id: Seq<u8>, accounts: Seq<AccountView>) -> Option<AccessError> {
    match parse_error(program_id, accounts) {
        Some(e) => Some(e),
        None => match decode_stake_account(accounts[0].data) {
            None => Some(AccessError::DeserializationError),
            Some(record) => if record.owner != accounts[1].key {
                Some(AccessError::WrongStakePoolOwner)
            } else if record.stake_amount != 0 {
                Some(AccessError::AccountNotEmpty)
            } else {
                None
            },
        },
    }
}

/// The accounts after the stake account was closed: it holds its record with
/// the tag of a closed one and has no balance, the owner has both balances.
pub open spec fn closed_accounts(accounts: Seq<AccountView>) -> Seq<AccountView> {
    let record = decode_stake_account(accounts[0].data)->Some_0;
    accounts.update(
        0,
        AccountView {
            lamports: 0,
            data: overwrite_prefix(accounts[0].data, encode_stake_account(record.closed())),
            ..accounts[0]
        },
    ).update(1, AccountView { lamports: accounts[1].lamports + accounts[0].lamports, ..accounts[1] })
}

/// What closing does: `Err` with the first check that fails, else the
/// accounts as they stand afterwards.
pub open spec fn close_stake_account_spec(program_id: Seq<u8>, accounts: Seq<AccountView>) -> Result<
    Seq<AccountView>,
    AccessError,
> {
    match close_stake_account_error(program_id, accounts) {
        Some(e) => Err(e),
        None => Ok(closed_accounts(accounts)),
    }
}

impl<'a> Accounts<'a, AccountRecord> {
    /// Takes the operation's accounts from the head of `accounts` and checks
    /// that the stake account is controlled by `program_id` and that the
    /// owner signed.
    pub fn parse(accounts: &'a [AccountRecord], program_id: &Pubkey) -> (r: Result<Self, AccessError>)
        ensures
            match r {
                Ok(parsed) => {
                    &&& parse_error(program_id@, accounts.deep_view()) is None
                    &&& *parsed.stake_account == accounts@[0]
                    &&& *parsed.owner == accounts@[1]
                },
                Err(e) => parse_error(program_id@, accounts.deep_view()) == Some(e),
            },
    {
        if accounts.len() < 2 {
            return Err(AccessError::NotEnoughAccountKeys);
        }
        let parsed = Accounts { stake_account: &accounts[0], owner: &accounts[1] };

        check_account_owner(parsed.stake_account, program_id, AccessError::WrongOwner)?;
        check_signer(parsed.owner, AccessError::StakePoolOwnerMustSign)?;

        Ok(parsed)
    }
}

/// Runs the checks of closing and writes nothing. Gives the stake account's
/// record where all of them pass.
pub fn check_close_stake_account(program_id: &Pubkey, accounts: &[AccountRecord]) -> (r: Result<
    StakeAccount,
    AccessError,
>)
    ensures
        match r {
            Ok(record) => {
                &&& close_stake_account_error(program_id@, accounts.deep_view()) is None
                &&& decode_stake_account(accounts@[0]@.data) == Some(record@)
            },
            Err(e) => close_stake_account_error(program_id@, accounts.deep_view()) == Some(e),
        },
{
    let parsed = Accounts::parse(accounts, program_id)?;

    let stake_account = StakeAccount::from_account_info(parsed.stake_account)?;

    check_account_key(parsed.owner, &stake_account.owner, AccessError::WrongStakePoolOwner)?;

    assert_empty_stake_account(&stake_account)?;

    Ok(stake_account)
}

/// Closes the stake account at the head of `accounts` for the owner behind
/// it.
///
/// Refused, with nothing written, where a check fails; the checks run in the
/// order of `close_stake_account_error`. Where they pass, the two balances
/// have to fit into one balance together.
pub fn process_close_stake_account(program_id: &Pubkey, accounts: &mut Vec<AccountRecord>) -> (r: Result<
    (),
    AccessError,
>)
    requires
        close_stake_account_error(program_id@, old(accounts).deep_view()) is None ==> old(accounts)@[0].lamports
            + old(accounts)@[1].lamports <= u64::MAX,
    ensures
        final(accounts)@.len() == old(accounts)@.len(),
        match r {
            Ok(()) => close_stake_account_spec(program_id@, old(accounts).deep_view()) == Ok::<
                Seq<AccountView>,
                AccessError,
            >(final(accounts).deep_view()),
            Err(e) => {
                &&& close_stake_account_spec(program_id@, old(accounts).deep_view()) == Err::<
                    Seq<AccountView>,
                    AccessError,
                >(e)
                &&& final(accounts)@ == old(accounts)@
            },
        },
{
    let mut stake_account = check_close_stake_account(program_id, accounts.as_slice())?;

    stake_account.close();
    let stake_lamports = accounts[0].lamports;
    let owner_lamports = accounts[1].lamports;

    stake_account.save(&mut accounts[0].data);
    accounts[1].lamports = owner_lamports + stake_lamports;
    accounts[0].lamports = 0;

    proof {
        assert(accounts.deep_view() =~= closed_accounts(old(accounts).deep_view()));
    }
    Ok(())
}

/// Only the owner that the stake account records can close it: with any
/// other account in the owner's place, closing is refused.
pub proof fn lemma_close_refuses_other_signers(program_id: Seq<u8>, accounts: Seq<AccountView>)
    requires
        accounts.len() >= 2,
        decode_stake_account(accounts[0].data) matches Some(record) && record.owner != accounts[1].key,
    ensures
        close_stake_account_spec(program_id, accounts) is Err,
{
}

/// Whoever closes a stake account signed, and is the owner that it records.
pub proof fn lemma_close_is_authorized(program_id: Seq<u8>, accounts: Seq<AccountView>)
    requires
        close_stake_account_spec(program_id, accounts) is Ok,
    ensures
        accounts.len() >= 2,
        accounts[0].owner == program_id,
        accounts[1].is_signer,
        decode_stake_account(accounts[0].data) matches Some(record) && record.owner == accounts[1].key,
{
}

/// A stake account that still holds stake cannot be closed.
pub proof fn lemma_close_refuses_stake(program_id: Seq<u8>, accounts: Seq<AccountView>)
    requires
        decode_stake_account(accounts[0].data) matches Some(record) && record.stake_amount != 0,
    ensures
        close_stake_account_spec(program_id, accounts) is Err,
        parse_error(program_id, accounts) is None && decode_stake_account(accounts[0].data)->Some_0.owner
            == accounts[1].key ==> close_stake_account_spec(program_id, accounts) == Err::<
            Seq<AccountView>,
            AccessError,
        >(AccessError::AccountNotEmpty),
{
}

/// A stake account that holds no stake is closed for its owner, if the owner
/// signed and the account is the program's.
pub proof fn lemma_close_accepts_empty(program_id: Seq<u8>, accounts: Seq<AccountView>)
    requires
        accounts.len() >= 2,
        accounts[0].owner == program_id,
        accounts[1].is_signer,
        decode_stake_account(accounts[0].data) matches Some(record) && record.owner == accounts[1].key
            && record.stake_amount == 0,
    ensures
        close_stake_account_spec(program_id, accounts) is Ok,
{
}

/// Closing moves the stake account's whole balance to the owner and nothing
/// else: the two balances together are what they were, and every other
/// account is as it was.
pub proof fn lemma_close_conserves_balance(program_id: Seq<u8>, accounts: Seq<AccountView>)
    requires
        close_stake_account_spec(program_id, accounts) is Ok,
    ensures
        ({
            let after = close_stake_account_spec(program_id, accounts)->Ok_0;
            &&& after.len() == accounts.len()
            &&& after[0].lamports == 0
            &&& after[1].lamports == accounts[1].lamports + accounts[0].lamports
            &&& after[0].lamports + after[1].lamports == accounts[0].lamports + accounts[1].lamports
            &&& forall|i: int| 2 <= i < accounts.len() ==> after[i] == accounts[i]
        }),
{
}

/// Closing leaves a closed record behind: the stake account keeps its
/// address, its program and its length, and its bytes no longer decode as a
/// stake account.
pub proof fn lemma_close_leaves_closed_record(program_id: Seq<u8>, accounts: Seq<AccountView>)
    requires
        close_stake_account_spec(program_id, accounts) is Ok,
    ensures
        ({
            let after = close_stake_account_spec(program_id, accounts)->Ok_0;
            &&& after[0].key == accounts[0].key
            &&& after[0].owner == accounts[0].owner
            &&& after[0].data.len() == accounts[0].data.len()
            &&& decode_stake_account(after[0].data) is None
            &&& after[1].data == accounts[1].data
            &&& close_stake_account_spec(program_id, after) is Err
        }),
{
    let record = decode_stake_account(accounts[0].data)->Some_0;
    let after = close_stake_account_spec(program_id, accounts)->Ok_0;
    vstd::bytes::lemma_auto_spec_u64_to_from_le_bytes();
    assert(encode_stake_account(record.closed()).len() == 41);
    assert(after[0].data[0] == encode_stake_account(record.closed())[0]);
}

} // verus!
