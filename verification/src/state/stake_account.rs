//! The record of one staker's position.

use vstd::prelude::*;
use vstd::bytes::*;
use vstd::slice::slice_subrange;
use crate::account::{overwrite_prefix, AccountRecord};
use crate::error::AccessError;
use crate::pubkey::Pubkey;
use crate::state::{append_bytes, read_key, write_prefix, Tag};

verus! {

/// One staker's position: who may manage it and how much is staked.
#[derive(Clone, Copy, Debug, PartialEq, Eq)]
pub struct StakeAccount {
    /// The kind of record; `Tag::StakeAccount` while the position is open.
    pub tag: Tag,
    /// The one identity that may change or close the position.
    pub owner: Pubkey,
    /// The stake that the position still holds.
    pub stake_amount: u64,
}

/// The mathematical value of a `StakeAccount`.
pub struct StakeAccountView {
    pub tag: Tag,
    pub owner: Seq<u8>,
    pub stake_amount: u64,
}

impl View for StakeAccount {
    type V = StakeAccountView;

    open spec fn view(&self) -> StakeAccountView {
        StakeAccountView { tag: self.tag, owner: self.owner@, stake_amount: self.stake_amount }
    }
}

/// The number of bytes that a stake account takes.
pub const STAKE_ACCOUNT_LEN: usize = 41;

impl StakeAccountView {
    /// Whether the owner is an address.
    pub open spec fn wf(self) -> bool {
        self.owner.len() == 32
    }

    /// The record after it was closed.
    pub open spec fn closed(self) -> StakeAccountView {
        StakeAccountView { tag: Tag::Deleted, ..self }
    }
}

/// The bytes of a stake account: tag, owner, stake.
pub open spec fn encode_stake_account(a: StakeAccountView) -> Seq<u8> {
    seq![a.tag.spec_byte()] + a.owner + spec_u64_to_le_bytes(a.stake_amount)
}

/// The stake account that `bytes` start with, if they start with one. Bytes
/// behind the record are not looked at.
pub open spec fn decode_stake_account(bytes: Seq<u8>) -> Option<StakeAccountView> {
    if bytes.len() >= STAKE_ACCOUNT_LEN && bytes[0] == Tag::StakeAccount.spec_byte() {
        Some(
            StakeAccountView {
                tag: Tag::StakeAccount,
                owner: bytes.subrange(1, 33),
                stake_amount: spec_u64_from_le_bytes(bytes.subrange(33, 41)),
            },
        )
    } else {
        None
    }
}

impl StakeAccount {
    /// An open position of `owner` that holds `stake_amount`.
    pub fn new(owner: Pubkey, stake_amount: u64) -> (r: StakeAccount)
        ensures
            r@ == (StakeAccountView { tag: Tag::StakeAccount, owner: owner@, stake_amount }),
    {
        StakeAccount { tag: Tag::StakeAccount, owner, stake_amount }
    }

    /// Whether no stake is left in the position.
    pub fn is_empty(&self) -> (r: bool)
        ensures
            r == (self@.stake_amount == 0),
    {
        self.stake_amount == 0
    }

    /// Marks the record as closed. Its other fields stay.
    pub fn close(&mut self)
        ensures
            final(self)@ == old(self)@.closed(),
    {
        self.tag = Tag::Deleted;
    }

    /// The number of bytes that the record takes.
    pub fn len(&self) -> (n: usize)
        ensures
            n == STAKE_ACCOUNT_LEN,
            n == encode_stake_account(self@).len(),
    {
        proof {
            lemma_auto_spec_u64_to_from_le_bytes();
        }
        STAKE_ACCOUNT_LEN
    }

    /// The record's bytes.
    pub fn encode(&self) -> (bytes: Vec<u8>)
        ensures
            bytes@ == encode_stake_account(self@),
    {
        let mut bytes: Vec<u8> = Vec::new();
        bytes.push(self.tag.byte());
        append_bytes(&mut bytes, self.owner.as_slice());
        let amount = u64_to_le_bytes(self.stake_amount);
        append_bytes(&mut bytes, amount.as_slice());
        assert(bytes@ =~= encode_stake_account(self@));
        bytes
    }

    /// The record that `data` starts with.
    ///
    /// Refused with `DeserializationError` where `data` is too short or
    /// starts with the tag of another kind of record.
    pub fn decode(data: &[u8]) -> (r: Result<StakeAccount, AccessError>)
        ensures
            match r {
                Ok(a) => decode_stake_account(data@) == Some(a@),
                Err(e) => e == AccessError::DeserializationError && decode_stake_account(data@) is None,
            },
    {
        if data.len() < STAKE_ACCOUNT_LEN {
            return Err(AccessError::DeserializationError);
        }
        if data[0] != Tag::StakeAccount.byte() {
            return Err(AccessError::DeserializationError);
        }
        let owner = read_key(data, 1);
        let stake_amount = u64_from_le_bytes(slice_subrange(data, 33, 41));
        Ok(StakeAccount { tag: Tag::StakeAccount, owner, stake_amount })
    }

    /// The record that the account holds.
    pub fn from_account_info(account: &AccountRecord) -> (r: Result<StakeAccount, AccessError>)
        ensures
            match r {
                Ok(a) => decode_stake_account(account@.data) == Some(a@),
                Err(e) => e == AccessError::DeserializationError && decode_stake_account(account@.data) is None,
            },
    {
        StakeAccount::decode(account.data.as_slice())
    }

    /// Writes the record over the first bytes of `dst`.
    pub fn save(&self, dst: &mut Vec<u8>)
        requires
            old(dst)@.len() >= STAKE_ACCOUNT_LEN,
        ensures
            final(dst)@ == overwrite_prefix(old(dst)@, encode_stake_account(self@)),
    {
        let bytes = self.encode();
        proof {
            lemma_auto_spec_u64_to_from_le_bytes();
        }
        write_prefix(dst, &bytes);
    }
}

/// What was encoded is what is decoded, whatever bytes follow it.
pub proof fn lemma_stake_account_round_trip(a: StakeAccountView, rest: Seq<u8>)
    requires
        a.wf(),
        a.tag == Tag::StakeAccount,
    ensures
        decode_stake_account(encode_stake_account(a) + rest) == Some(a),
{
    lemma_auto_spec_u64_to_from_le_bytes();
    let bytes = encode_stake_account(a) + rest;
    assert(bytes.subrange(1, 33) =~= a.owner);
    assert(bytes.subrange(33, 41) =~= spec_u64_to_le_bytes(a.stake_amount));
}

/// Bytes that start with a record of another kind, a closed one among them,
/// never decode as a stake account.
pub proof fn lemma_stake_account_tag_checked(a: StakeAccountView, rest: Seq<u8>)
    requires
        a.tag != Tag::StakeAccount,
    ensures
        decode_stake_account(encode_stake_account(a) + rest) is None,
{
}

/// A stake account that was closed cannot be read as an open one again.
pub proof fn lemma_closed_stake_account_stays_closed(a: StakeAccountView, rest: Seq<u8>)
    ensures
        decode_stake_account(encode_stake_account(a.closed()) + rest) is None,
{
    lemma_stake_account_tag_checked(a.closed(), rest);
}

} // verus!
