//! The persisted records and their byte layout.
//!
//! Every record starts with a one-byte tag that says what kind of record it
//! is, followed by its fields in a fixed order. Integers are little-endian;
//! a string is its length in bytes as a 32-bit integer, then its UTF-8 bytes.

use vstd::prelude::*;
use crate::account::overwrite_prefix;
use crate::pubkey::Pubkey;

pub mod stake_account;
pub mod stake_pool;

pub use self::stake_account::{
    decode_stake_account, encode_stake_account, lemma_closed_stake_account_stays_closed,
    lemma_stake_account_round_trip, lemma_stake_account_tag_checked, StakeAccount, StakeAccountView,
    STAKE_ACCOUNT_LEN,
};
pub use self::stake_pool::{
    decode_stake_pool, derive_pool_address, encode_stake_pool, lemma_derivation_deterministic,
    lemma_pool_seeds_injective, lemma_record_kinds_disjoint, lemma_stake_pool_round_trip,
    lemma_stake_pool_tag_checked, pool_seeds, spec_pool_seeds, StakePool, StakePoolView, MAX_NAME_LEN,
    STAKE_POOL_FIXED_LEN,
};

verus! {

/// What kind of record an account's bytes hold.
#[derive(Clone, Copy, Debug, PartialEq, Eq, Structural)]
pub enum Tag {
    /// Nothing has been written yet.
    Uninitialized,
    /// A stake pool.
    StakePool,
    /// One staker's position in a pool.
    StakeAccount,
    /// A record that was closed. It stays closed whatever is done with the
    /// bytes behind it.
    Deleted,
}

impl Tag {
    /// The byte that stands for a tag.
    pub open spec fn spec_byte(self) -> u8 {
        match self {
            Tag::Uninitialized => 0,
            Tag::StakePool => 1,
            Tag::StakeAccount => 2,
            Tag::Deleted => 3,
        }
    }

    /// The tag that a byte stands for, if any.
    pub open spec fn spec_from_byte(b: u8) -> Option<Tag> {
        if b == 0 {
            Some(Tag::Uninitialized)
        } else if b == 1 {
            Some(Tag::StakePool)
        } else if b == 2 {
            Some(Tag::StakeAccount)
        } else if b == 3 {
            Some(Tag::Deleted)
        } else {
            None
        }
    }

    /// The byte that stands for this tag.
    pub fn byte(&self) -> (b: u8)
        ensures
            b == self.spec_byte(),
    {
        match self {
            Tag::Uninitialized => 0,
            Tag::StakePool => 1,
            Tag::StakeAccount => 2,
            Tag::Deleted => 3,
        }
    }

    /// The tag that `b` stands for, if any.
    pub fn from_byte(b: u8) -> (r: Option<Tag>)
        ensures
            r == Tag::spec_from_byte(b),
    {
        if b == 0 {
            Some(Tag::Uninitialized)
        } else if b == 1 {
            Some(Tag::StakePool)
        } else if b == 2 {
            Some(Tag::StakeAccount)
        } else if b == 3 {
            Some(Tag::Deleted)
        } else {
            None
        }
    }
}

/// Appends `src` to `dst`.
pub(crate) fn append_bytes(dst: &mut Vec<u8>, src: &[u8])
    ensures
        final(dst)@ == old(dst)@ + src@,
{
    let mut i: usize = 0;
    while i < src.len()
        invariant
            i <= src@.len(),
            dst@ == old(dst)@ + src@.subrange(0, i as int),
        decreases src@.len() - i,
    {
        dst.push(src[i]);
        i = i + 1;
        assert(dst@ =~= old(dst)@ + src@.subrange(0, i as int));
    }
    assert(src@.subrange(0, i as int) =~= src@);
}

/// The 32 bytes of `data` from `at` on, as an address.
pub(crate) fn read_key(data: &[u8], at: usize) -> (r: Pubkey)
    requires
        at + 32 <= data@.len(),
    ensures
        r@ == data@.subrange(at as int, at + 32),
{
    let mut key: Pubkey = [0u8; 32];
    let mut i: usize = 0;
    let n = data.len();
    while i < 32
        invariant
            i <= 32,
            at + 32 <= data@.len() == n,
            forall|j: int| 0 <= j < i ==> key@[j] == data@[at + j],
        decreases 32 - i,
    {
        key[i] = data[at + i];
        i = i + 1;
    }
    assert(key@ =~= data@.subrange(at as int, at + 32));
    key
}

/// Replaces the first bytes of `dst` by `bytes` and leaves the rest, and the
/// length, as they were.
pub(crate) fn write_prefix(dst: &mut Vec<u8>, bytes: &Vec<u8>)
    requires
        bytes@.len() <= old(dst)@.len(),
    ensures
        final(dst)@ == overwrite_prefix(old(dst)@, bytes@),
{
    let mut i: usize = 0;
    while i < bytes.len()
        invariant
            i <= bytes@.len(),
            bytes@.len() <= dst@.len(),
            dst@.len() == old(dst)@.len(),
            forall|j: int| 0 <= j < i ==> dst@[j] == bytes@[j],
            forall|j: int| i <= j < dst@.len() ==> dst@[j] == old(dst)@[j],
        decreases bytes@.len() - i,
    {
        dst[i] = bytes[i];
        i = i + 1;
    }
    assert(dst@ =~= overwrite_prefix(old(dst)@, bytes@));
}

} // verus!
