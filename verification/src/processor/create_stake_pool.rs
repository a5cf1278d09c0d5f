//! Create a stake pool.
//!
//! A pool lives at the address that derives from its parameters. The program
//! checks that the account it was handed is that one and that the vault is
//! held for it, and works out the record and the account that the host has
//! to create. Once the host created the account, the record is written to it.

use vstd::prelude::*;
use vstd::utf8::encode_utf8;
use crate::account::{overwrite_prefix, AccountRecord, AccountView};
use crate::cpi::{CreateAccount, CreateAccountView};
use crate::error::AccessError;
use crate::pubkey::{
    key_view, program_address, rent_sysvar_id, rent_sysvar_key, system_program_id, system_program_key, Pubkey,
};
use crate::state::{
    decode_stake_pool, derive_pool_address, encode_stake_pool, lemma_stake_pool_round_trip, pool_seeds,
    spec_pool_seeds, StakePool, StakePoolView, Tag, MAX_NAME_LEN, STAKE_POOL_FIXED_LEN,
};
use crate::utils::{assert_valid_vault, check_account_key, check_account_owner, check_signer, valid_vault};

verus! {

/// The parameters of the operation.
#[derive(Debug, PartialEq, Eq)]
pub struct Params {
    /// The salt of the pool's address.
    pub nonce: u8,
    /// Name of the stake pool.
    pub name: String,
    /// Owner of the stake pool.
    pub owner: [u8; 32],
    /// Destination of the rewards.
    pub destination: [u8; 32],
}

/// The mathematical value of the parameters.
pub struct ParamsView {
    pub nonce: u8,
    pub name: Seq<char>,
    pub owner: Seq<u8>,
    pub destination: Seq<u8>,
}

impl View for Params {
    type V = ParamsView;

    open spec fn view(&self) -> ParamsView {
        ParamsView { nonce: self.nonce, name: self.name@, owner: self.owner@, destination: self.destination@ }
    }
}

/// The accounts of the operation, in the order in which they are supplied.
pub struct Accounts<'a, T> {
    /// The account of the pool. It is written.
    pub stake_pool_account: &'a T,
    /// The system program, which creates accounts.
    pub system_program: &'a T,
    /// The account that pays for the pool account. It is written and has to
    /// have signed.
    pub fee_payer: &'a T,
    /// The rent sysvar.
    pub rent_sysvar_account: &'a T,
    /// The custody account of the pool.
    pub vault: &'a T,
}

/// What the operation decided: the record of the new pool, and the account
/// that the host has to create for it.
#[derive(Debug, PartialEq, Eq)]
pub struct PoolCreation {
    /// The record to write once the account exists.
    pub stake_pool: StakePool,
    /// The account to create.
    pub request: CreateAccount,
}

/// The mathematical value of a `PoolCreation`.
pub struct PoolCreationView {
    pub stake_pool: StakePoolView,
    pub request: CreateAccountView,
}

impl View for PoolCreation {
    type V = PoolCreationView;

    open spec fn view(&self) -> PoolCreationView {
        PoolCreationView { stake_pool: self.stake_pool@, request: self.request@ }
    }
}

/// The error with which a list of accounts is refused whatever the
/// parameters are: the list is too short, the system program or the rent
/// sysvar is not where it belongs, the pool account is under a program
/// already, so it has been created before, or the fee payer did not sign.
pub open spec fn parse_error(accounts: Seq<AccountView>) -> Option<AccessError> {
    if accounts.len() < 5 {
        Some(AccessError::NotEnoughAccountKeys)
    } else if accounts[1].key != system_program_key() {
        Some(AccessError::WrongSystemProgram)
    } else if accounts[3].key != rent_sysvar_key() {
        Some(AccessError::WrongRent)
    } else if accounts[0].owner != system_program_key() {
        Some(AccessError::WrongOwner)
    } else if !accounts[2].is_signer {
        Some(AccessError::FeePayerMustSign)
    } else {
        None
    }
}

/// The pool that the parameters describe, with `vault` as its custody
/// account.
pub open spec fn new_stake_pool(params: ParamsView, vault: Seq<u8>) -> StakePoolView {
    StakePoolView {
        tag: Tag::StakePool,
        owner: params.owner,
        destination: params.destination,
        nonce: params.nonce,
        name: params.name,
        vault,
    }
}

/// What is decided for a pool account, a fee payer and a vault once the
/// address of the pool is known: `derived`, or `None` where the parameters
/// give no address. `Err` with the first check that fails: the parameters
/// give an address, the pool account is at that address, the vault is held
/// for it. Else the record of the pool and the request for its account: paid
/// by the fee payer, at the pool account's address, under the program, with
/// room for exactly the record, and signed for by the seeds of the address.
pub open spec fn stake_pool_creation_at(
    program_id: Seq<u8>,
    stake_pool_account: AccountView,
    fee_payer: AccountView,
    vault: AccountView,
    params: ParamsView,
    derived: Option<Seq<u8>>,
) -> Result<PoolCreationView, AccessError> {
    if derived is None || encode_utf8(params.name).len() > MAX_NAME_LEN {
        Err(AccessError::AccountNotDeterministic)
    } else if stake_pool_account.key != derived->Some_0 {
        Err(AccessError::AccountNotDeterministic)
    } else if !valid_vault(vault, derived->Some_0) {
        Err(AccessError::InvalidVault)
    } else {
        Ok(
            PoolCreationView {
                stake_pool: new_stake_pool(params, vault.key),
                request: CreateAccountView {
                    payer: fee_payer.key,
                    new_account: stake_pool_account.key,
                    owner: program_id,
                    space: (STAKE_POOL_FIXED_LEN + encode_utf8(params.name).len()) as nat,
                    seeds: spec_pool_seeds(params.nonce, encode_utf8(params.name), params.owner, params.destination),
                },
            },
        )
    }
}

/// What creating a pool decides: `Err` with the first check that fails on
/// the list of accounts, else what is decided at the address that derives
/// from the parameters under the program.
pub open spec fn create_stake_pool_spec(
    program_id: Seq<u8>,
    accounts: Seq<AccountView>,
    params: ParamsView,
) -> Result<PoolCreationView, AccessError> {
    match parse_error(accounts) {
        Some(e) => Err(e),
        None => stake_pool_creation_at(
            program_id,
            accounts[0],
            accounts[2],
            accounts[4],
            params,
            derive_pool_address(params.nonce, params.name, params.owner, params.destination, program_id),
        ),
    }
}

/// The pool account once the host created it for `program_id` and `pool` was
/// written to it.
pub open spec fn created_pool_account(before: AccountView, program_id: Seq<u8>, pool: StakePoolView, lamports: nat) -> AccountView {
    AccountView { owner: program_id, lamports, data: encode_stake_pool(pool), ..before }
}

impl<'a> Accounts<'a, AccountRecord> {
    /// Takes the operation's accounts from the head of `accounts` and checks
    /// that the system program and the rent sysvar are the known ones, that
    /// the pool account is still under the system program, and that the fee
    /// payer signed.
    pub fn parse(accounts: &'a [AccountRecord]) -> (r: Result<Self, AccessError>)
        ensures
            match r {
                Ok(parsed) => {
                    &&& parse_error(accounts.deep_view()) is None
                    &&& *parsed.stake_pool_account == accounts@[0]
                    &&& *parsed.system_program == accounts@[1]
                    &&& *parsed.fee_payer == accounts@[2]
                    &&& *parsed.rent_sysvar_account == accounts@[3]
                    &&& *parsed.vault == accounts@[4]
                },
                Err(e) => parse_error(accounts.deep_view()) == Some(e),
            },
    {
        if accounts.len() < 5 {
            return Err(AccessError::NotEnoughAccountKeys);
        }
        let parsed = Accounts {
            stake_pool_account: &accounts[0],
            system_program: &accounts[1],
            fee_payer: &accounts[2],
            rent_sysvar_account: &accounts[3],
            vault: &accounts[4],
        };
        let system_program = system_program_id();
        let rent_sysvar = rent_sysvar_id();

        check_account_key(parsed.system_program, &system_program, AccessError::WrongSystemProgram)?;
        check_account_key(parsed.rent_sysvar_account, &rent_sysvar, AccessError::WrongRent)?;
        check_account_owner(parsed.stake_pool_account, &system_program, AccessError::WrongOwner)?;
        check_signer(parsed.fee_payer, AccessError::FeePayerMustSign)?;

        Ok(parsed)
    }
}

/// Decides on a pool for accounts that were parsed, at the address `derived`
/// that its parameters gave, or gave not.
///
/// Nothing is written. A pool account at any address but `derived` is
/// refused, and so is a vault that is held for anyone else. The checks on the
/// list of accounts are those of `Accounts::parse`; none is repeated here.
pub fn create_stake_pool_at(
    program_id: &Pubkey,
    accounts: &Accounts<'_, AccountRecord>,
    params: Params,
    derived: Option<Pubkey>,
) -> (r: Result<PoolCreation, AccessError>)
    ensures
        match r {
            Ok(creation) => {
                &&& stake_pool_creation_at(
                    program_id@,
                    accounts.stake_pool_account@,
                    accounts.fee_payer@,
                    accounts.vault@,
                    params@,
                    key_view(derived),
                ) == Ok::<PoolCreationView, AccessError>(creation@)
                &&& creation@.stake_pool.wf()
                &&& creation@.stake_pool.tag == Tag::StakePool
            },
            Err(e) => stake_pool_creation_at(
                program_id@,
                accounts.stake_pool_account@,
                accounts.fee_payer@,
                accounts.vault@,
                params@,
                key_view(derived),
            ) == Err::<PoolCreationView, AccessError>(e),
        },
{
    let derived_stake_key = match derived {
        Some(key) => key,
        None => {
            return Err(AccessError::AccountNotDeterministic);
        },
    };
    if params.name.as_str().as_bytes().len() > MAX_NAME_LEN {
        return Err(AccessError::AccountNotDeterministic);
    }

    check_account_key(accounts.stake_pool_account, &derived_stake_key, AccessError::AccountNotDeterministic)?;

    assert_valid_vault(accounts.vault, &derived_stake_key)?;

    let stake_pool = StakePool::new(
        params.owner,
        params.destination,
        params.nonce,
        params.name.as_str(),
        accounts.vault.key,
    );

    let request = CreateAccount {
        payer: accounts.fee_payer.key,
        new_account: accounts.stake_pool_account.key,
        owner: *program_id,
        space: stake_pool.len(),
        seeds: pool_seeds(params.nonce, params.name.as_str(), &params.owner, &params.destination),
    };

    Ok(PoolCreation { stake_pool, request })
}

/// Checks a request to create a pool and works out what has to be created.
///
/// Nothing is written. Refused where a check fails; the checks run in the
/// order of `create_stake_pool_spec`. In particular a pool account at any
/// address but the one that derives from the parameters is refused.
pub fn process_create_stake_pool(program_id: &Pubkey, accounts: &[AccountRecord], params: Params) -> (r: Result<
    PoolCreation,
    AccessError,
>)
    ensures
        match r {
            Ok(creation) => {
                &&& create_stake_pool_spec(program_id@, accounts.deep_view(), params@) == Ok::<
                    PoolCreationView,
                    AccessError,
                >(creation@)
                &&& creation@.stake_pool.wf()
                &&& creation@.stake_pool.tag == Tag::StakePool
            },
            Err(e) => create_stake_pool_spec(program_id@, accounts.deep_view(), params@) == Err::<
                PoolCreationView,
                AccessError,
            >(e),
        },
{
    let parsed = Accounts::parse(accounts)?;

    let derived_stake_key = StakePool::create_key(
        &params.nonce,
        params.name.as_str(),
        &params.owner,
        &params.destination,
        program_id,
    );

    create_stake_pool_at(program_id, &parsed, params, derived_stake_key)
}

/// Writes the record of a new pool to the account that the host created for
/// it. The account then holds a record that decodes to exactly that pool.
///
/// The account has to have the room that was asked for.
pub fn complete_create_stake_pool(creation: &PoolCreation, stake_pool_account: &mut AccountRecord)
    requires
        creation@.stake_pool.wf(),
        creation@.stake_pool.tag == Tag::StakePool,
        old(stake_pool_account)@.data.len() >= encode_stake_pool(creation@.stake_pool).len(),
    ensures
        final(stake_pool_account)@ == (AccountView {
            data: overwrite_prefix(old(stake_pool_account)@.data, encode_stake_pool(creation@.stake_pool)),
            ..old(stake_pool_account)@
        }),
        decode_stake_pool(final(stake_pool_account)@.data) == Some(creation@.stake_pool),
{
    proof {
        let record = encode_stake_pool(creation@.stake_pool);
        let data = stake_pool_account@.data;
        lemma_stake_pool_round_trip(creation@.stake_pool, data.subrange(record.len() as int, data.len() as int));
    }
    creation.stake_pool.save(&mut stake_pool_account.data);
}

/// The accounts of a new pool are accepted exactly when there are five of
/// them, the system program and the rent sysvar are where they belong, the
/// pool account is still under the system program, and the fee payer signed.
pub proof fn lemma_parse_accepts_exactly(accounts: Seq<AccountView>)
    ensures
        parse_error(accounts) is None <==> {
            &&& accounts.len() >= 5
            &&& accounts[1].key == system_program_key()
            &&& accounts[3].key == rent_sysvar_key()
            &&& accounts[0].owner == system_program_key()
            &&& accounts[2].is_signer
        },
{
}

/// No pool is created on the account of a fee payer that did not sign.
pub proof fn lemma_create_refuses_unsigned_fee_payer(
    program_id: Seq<u8>,
    accounts: Seq<AccountView>,
    params: ParamsView,
)
    requires
        accounts.len() >= 5,
        !accounts[2].is_signer,
    ensures
        parse_error(accounts) is Some,
        create_stake_pool_spec(program_id, accounts, params) is Err,
        accounts[1].key == system_program_key() && accounts[3].key == rent_sysvar_key() && accounts[0].owner
            == system_program_key() ==> create_stake_pool_spec(program_id, accounts, params) == Err::<
            PoolCreationView,
            AccessError,
        >(AccessError::FeePayerMustSign),
{
}

/// A pool account that stands at the address of one set of parameters is
/// refused for any other set that derives another address.
pub proof fn lemma_create_refuses_changed_parameters(
    program_id: Seq<u8>,
    accounts: Seq<AccountView>,
    params: ParamsView,
    changed: ParamsView,
)
    requires
        parse_error(accounts) is None,
        derive_pool_address(params.nonce, params.name, params.owner, params.destination, program_id) == Some(
            accounts[0].key,
        ),
        derive_pool_address(changed.nonce, changed.name, changed.owner, changed.destination, program_id)
            != derive_pool_address(params.nonce, params.name, params.owner, params.destination, program_id),
    ensures
        create_stake_pool_spec(program_id, accounts, changed) == Err::<PoolCreationView, AccessError>(
            AccessError::AccountNotDeterministic,
        ),
{
}

/// A pool account at any address but the one that derives from the
/// parameters is refused, however well-formed everything else is.
pub proof fn lemma_create_refuses_other_addresses(
    program_id: Seq<u8>,
    accounts: Seq<AccountView>,
    params: ParamsView,
)
    requires
        accounts.len() >= 1,
        derive_pool_address(params.nonce, params.name, params.owner, params.destination, program_id) != Some(
            accounts[0].key,
        ),
    ensures
        create_stake_pool_spec(program_id, accounts, params) is Err,
        parse_error(accounts) is None ==> create_stake_pool_spec(program_id, accounts, params) == Err::<
            PoolCreationView,
            AccessError,
        >(AccessError::AccountNotDeterministic),
{
}

/// Where a pool is created, the payer is the fee payer, who signed; the
/// account asked for is the pool account, it has room for exactly the record,
/// and its seeds give its address under the program, so that the program can
/// sign for it.
pub proof fn lemma_create_request_matches_pool(program_id: Seq<u8>, accounts: Seq<AccountView>, params: ParamsView)
    requires
        create_stake_pool_spec(program_id, accounts, params) is Ok,
        params.owner.len() == 32,
        params.destination.len() == 32,
        accounts[4].key.len() == 32,
    ensures
        ({
            let creation = create_stake_pool_spec(program_id, accounts, params)->Ok_0;
            &&& creation.stake_pool.wf()
            &&& accounts[2].is_signer
            &&& creation.request.payer == accounts[2].key
            &&& creation.request.new_account == accounts[0].key
            &&& creation.request.owner == program_id
            &&& creation.request.space == encode_stake_pool(creation.stake_pool).len()
            &&& program_address(creation.request.seeds, creation.request.owner) == Some(creation.request.new_account)
            &&& valid_vault(accounts[4], creation.request.new_account)
            &&& creation.stake_pool.vault == accounts[4].key
        }),
{
    vstd::bytes::lemma_auto_spec_u32_to_from_le_bytes();
}

/// A pool is created once. After the host created the pool account for the
/// program and the record was written, the same request is refused, whatever
/// became of the other accounts: the pool account is no longer under the
/// system program. Where the list is otherwise as it has to be, the error is
/// `WrongOwner`. The record that was written stays as it is.
pub proof fn lemma_create_refuses_created_pool(
    program_id: Seq<u8>,
    before: Seq<AccountView>,
    after: Seq<AccountView>,
    params: ParamsView,
    lamports: nat,
)
    requires
        program_id != system_program_key(),
        create_stake_pool_spec(program_id, before, params) is Ok,
        after.len() == before.len(),
        after[0] == created_pool_account(
            before[0],
            program_id,
            create_stake_pool_spec(program_id, before, params)->Ok_0.stake_pool,
            lamports,
        ),
        params.owner.len() == 32,
        params.destination.len() == 32,
        before[4].key.len() == 32,
    ensures
        create_stake_pool_spec(program_id, after, params) is Err,
        after.len() >= 5 && after[1].key == system_program_key() && after[3].key == rent_sysvar_key()
            ==> create_stake_pool_spec(program_id, after, params) == Err::<PoolCreationView, AccessError>(
            AccessError::WrongOwner,
        ),
        decode_stake_pool(after[0].data) == Some(
            create_stake_pool_spec(program_id, before, params)->Ok_0.stake_pool,
        ),
{
    let pool = create_stake_pool_spec(program_id, before, params)->Ok_0.stake_pool;
    lemma_stake_pool_round_trip(pool, Seq::empty());
    assert(encode_stake_pool(pool) + Seq::<u8>::empty() =~= encode_stake_pool(pool));
}

} // verus!
