//! The record of a stake pool, and the address at which it lives.

use vstd::prelude::*;
use vstd::bytes::*;
use vstd::slice::{slice_subrange, slice_to_vec};
use vstd::utf8::{decode_utf8, encode_utf8, encode_utf8_decode_utf8, encode_utf8_valid_utf8, valid_utf8};
use crate::account::{overwrite_prefix, AccountRecord};
use crate::error::AccessError;
use crate::pubkey::{create_program_address, program_address, Pubkey, MAX_SEED_LEN};
use crate::state::stake_account::decode_stake_account;
use crate::state::{append_bytes, read_key, write_prefix, Tag};

verus! {

/// Calls `String::from_utf8` of std.
///
/// Trusted: the bytes give a string exactly where they are valid UTF-8, and
/// the string's bytes are then the ones handed in.
#[verifier::external_body]
pub(crate) fn string_from_utf8(bytes: Vec<u8>) -> (r: Option<String>)
    ensures
        r is Some <==> valid_utf8(bytes@),
        r matches Some(s) ==> encode_utf8(s@) == bytes@,
{
    String::from_utf8(bytes).ok()
}

/// A stake pool: who owns it, where its rewards go, and the vault that holds
/// what was staked in it.
#[derive(Debug, PartialEq, Eq)]
pub struct StakePool {
    /// The kind of record: `Tag::StakePool`.
    pub tag: Tag,
    /// The pool's owner.
    pub owner: Pubkey,
    /// Where the pool's rewards go.
    pub destination: Pubkey,
    /// The salt of the pool's address.
    pub nonce: u8,
    /// The pool's name, which is part of its address.
    pub name: String,
    /// The custody account of the pool.
    pub vault: Pubkey,
}

/// The mathematical value of a `StakePool`.
pub struct StakePoolView {
    pub tag: Tag,
    pub owner: Seq<u8>,
    pub destination: Seq<u8>,
    pub nonce: u8,
    pub name: Seq<char>,
    pub vault: Seq<u8>,
}

impl View for StakePool {
    type V = StakePoolView;

    open spec fn view(&self) -> StakePoolView {
        StakePoolView {
            tag: self.tag,
            owner: self.owner@,
            destination: self.destination@,
            nonce: self.nonce,
            name: self.name@,
            vault: self.vault@,
        }
    }
}

/// The longest name of a pool, in bytes. The name is one of the seeds of the
/// pool's address, so it is as long as a seed at most.
pub const MAX_NAME_LEN: usize = 32;

/// The number of bytes that a stake pool takes besides its name.
pub const STAKE_POOL_FIXED_LEN: usize = 102;

impl StakePoolView {
    /// Whether the three addresses are addresses and the name is one that an
    /// address can be derived from.
    pub open spec fn wf(self) -> bool {
        &&& self.owner.len() == 32
        &&& self.destination.len() == 32
        &&& self.vault.len() == 32
        &&& encode_utf8(self.name).len() <= MAX_NAME_LEN
    }
}

/// The bytes of a stake pool: tag, owner, destination, nonce, name, vault.
pub open spec fn encode_stake_pool(p: StakePoolView) -> Seq<u8> {
    seq![p.tag.spec_byte()] + p.owner + p.destination + seq![p.nonce] + spec_u32_to_le_bytes(
        encode_utf8(p.name).len() as u32,
    ) + encode_utf8(p.name) + p.vault
}

/// The stake pool that `bytes` start with, if they start with one. Bytes
/// behind the record are not looked at.
pub open spec fn decode_stake_pool(bytes: Seq<u8>) -> Option<StakePoolView> {
    if bytes.len() >= 70 && bytes[0] == Tag::StakePool.spec_byte() {
        let n = spec_u32_from_le_bytes(bytes.subrange(66, 70)) as int;
        let name = bytes.subrange(70, 70 + n);
        if n <= MAX_NAME_LEN && bytes.len() >= STAKE_POOL_FIXED_LEN + n && valid_utf8(name) {
            Some(
                StakePoolView {
                    tag: Tag::StakePool,
                    owner: bytes.subrange(1, 33),
                    destination: bytes.subrange(33, 65),
                    nonce: bytes[65],
                    name: decode_utf8(name),
                    vault: bytes.subrange(70 + n, 102 + n),
                },
            )
        } else {
            None
        }
    } else {
        None
    }
}

/// The seeds of a pool's address: its name, owner, destination and nonce.
pub open spec fn spec_pool_seeds(nonce: u8, name: Seq<u8>, owner: Seq<u8>, destination: Seq<u8>) -> Seq<Seq<u8>> {
    seq![name, owner, destination, seq![nonce]]
}

/// The address of the pool with these parameters under `program_id`, or
/// `None` where the parameters give none: the name is longer than a seed, or
/// the derivation itself fails.
pub open spec fn derive_pool_address(
    nonce: u8,
    name: Seq<char>,
    owner: Seq<u8>,
    destination: Seq<u8>,
    program_id: Seq<u8>,
) -> Option<Seq<u8>> {
    if encode_utf8(name).len() > MAX_SEED_LEN {
        None
    } else {
        program_address(spec_pool_seeds(nonce, encode_utf8(name), owner, destination), program_id)
    }
}

/// The seeds of a pool's address, in the order in which they are hashed.
pub fn pool_seeds(nonce: u8, name: &str, owner: &Pubkey, destination: &Pubkey) -> (seeds: Vec<Vec<u8>>)
    ensures
        seeds.deep_view() == spec_pool_seeds(nonce, encode_utf8(name@), owner@, destination@),
{
    let mut seeds: Vec<Vec<u8>> = Vec::new();
    let name_seed = slice_to_vec(name.as_bytes());
    let owner_seed = slice_to_vec(owner.as_slice());
    let destination_seed = slice_to_vec(destination.as_slice());
    let mut nonce_seed: Vec<u8> = Vec::new();
    nonce_seed.push(nonce);
    seeds.push(name_seed);
    seeds.push(owner_seed);
    seeds.push(destination_seed);
    seeds.push(nonce_seed);
    proof {
        let want = spec_pool_seeds(nonce, encode_utf8(name@), owner@, destination@);
        assert(seeds.deep_view().len() == want.len());
        assert forall|i: int| 0 <= i < 4 implies seeds.deep_view()[i] =~= want[i] by {
            assert(seeds@[i].deep_view() =~= seeds@[i]@);
        }
        assert(seeds.deep_view() =~= want);
    }
    seeds
}

impl StakePool {
    /// A pool with the given fields.
    pub fn new(owner: [u8; 32], destination: [u8; 32], nonce: u8, name: &str, vault: [u8; 32]) -> (r: StakePool)
        ensures
            r@ == (StakePoolView {
                tag: Tag::StakePool,
                owner: owner@,
                destination: destination@,
                nonce,
                name: name@,
                vault: vault@,
            }),
    {
        StakePool { tag: Tag::StakePool, owner, destination, nonce, name: name.to_owned(), vault }
    }

    /// The address of the pool with these parameters under `program_id`.
    ///
    /// The same parameters give the same address on every call. `None` where
    /// they give no address.
    pub fn create_key(
        nonce: &u8,
        name: &str,
        owner: &[u8; 32],
        destination: &[u8; 32],
        program_id: &Pubkey,
    ) -> (r: Option<Pubkey>)
        ensures
            match r {
                Some(k) => derive_pool_address(*nonce, name@, owner@, destination@, program_id@) == Some(k@),
                None => derive_pool_address(*nonce, name@, owner@, destination@, program_id@) is None,
            },
    {
        if name.as_bytes().len() > MAX_SEED_LEN {
            return None;
        }
        let seeds = pool_seeds(*nonce, name, owner, destination);
        create_program_address(&seeds, program_id)
    }

    /// The number of bytes that the record takes.
    pub fn len(&self) -> (n: usize)
        requires
            self@.wf(),
        ensures
            n == encode_stake_pool(self@).len(),
            n == STAKE_POOL_FIXED_LEN + encode_utf8(self@.name).len(),
    {
        proof {
            lemma_auto_spec_u32_to_from_le_bytes();
        }
        STAKE_POOL_FIXED_LEN + self.name.as_str().len()
    }

    /// The record's bytes.
    pub fn encode(&self) -> (bytes: Vec<u8>)
        requires
            self@.wf(),
        ensures
            bytes@ == encode_stake_pool(self@),
    {
        let name = self.name.as_str().as_bytes();
        let mut bytes: Vec<u8> = Vec::new();
        bytes.push(self.tag.byte());
        append_bytes(&mut bytes, self.owner.as_slice());
        append_bytes(&mut bytes, self.destination.as_slice());
        bytes.push(self.nonce);
        let name_len = u32_to_le_bytes(name.len() as u32);
        append_bytes(&mut bytes, name_len.as_slice());
        append_bytes(&mut bytes, name);
        append_bytes(&mut bytes, self.vault.as_slice());
        assert(bytes@ =~= encode_stake_pool(self@));
        bytes
    }

    /// The record that `data` starts with.
    ///
    /// Refused with `DeserializationError` where `data` is too short, starts
    /// with the tag of another kind of record, or holds a name that is too
    /// long or no UTF-8.
    pub fn decode(data: &[u8]) -> (r: Result<StakePool, AccessError>)
        ensures
            match r {
                Ok(p) => decode_stake_pool(data@) == Some(p@) && p@.wf(),
                Err(e) => e == AccessError::DeserializationError && decode_stake_pool(data@) is None,
            },
    {
        if data.len() < 70 {
            return Err(AccessError::DeserializationError);
        }
        if data[0] != Tag::StakePool.byte() {
            return Err(AccessError::DeserializationError);
        }
        let n = u32_from_le_bytes(slice_subrange(data, 66, 70)) as usize;
        if n > MAX_NAME_LEN {
            return Err(AccessError::DeserializationError);
        }
        if data.len() < STAKE_POOL_FIXED_LEN + n {
            return Err(AccessError::DeserializationError);
        }
        let name_bytes = slice_to_vec(slice_subrange(data, 70, 70 + n));
        match string_from_utf8(name_bytes) {
            None => Err(AccessError::DeserializationError),
            Some(name) => {
                proof {
                    encode_utf8_decode_utf8(name@);
                }
                let owner = read_key(data, 1);
                let destination = read_key(data, 33);
                let nonce = data[65];
                let vault = read_key(data, 70 + n);
                Ok(StakePool { tag: Tag::StakePool, owner, destination, nonce, name, vault })
            },
        }
    }

    /// The record that the account holds.
    pub fn from_account_info(account: &AccountRecord) -> (r: Result<StakePool, AccessError>)
        ensures
            match r {
                Ok(p) => decode_stake_pool(account@.data) == Some(p@) && p@.wf(),
                Err(e) => e == AccessError::DeserializationError && decode_stake_pool(account@.data) is None,
            },
    {
        StakePool::decode(account.data.as_slice())
    }

    /// Writes the record over the first bytes of `dst`.
    pub fn save(&self, dst: &mut Vec<u8>)
        requires
            self@.wf(),
            old(dst)@.len() >= encode_stake_pool(self@).len(),
        ensures
            final(dst)@ == overwrite_prefix(old(dst)@, encode_stake_pool(self@)),
    {
        let bytes = self.encode();
        write_prefix(dst, &bytes);
    }
}

/// What was encoded is what is decoded, whatever bytes follow it.
pub proof fn lemma_stake_pool_round_trip(p: StakePoolView, rest: Seq<u8>)
    requires
        p.wf(),
        p.tag == Tag::StakePool,
    ensures
        decode_stake_pool(encode_stake_pool(p) + rest) == Some(p),
{
    lemma_auto_spec_u32_to_from_le_bytes();
    let name = encode_utf8(p.name);
    let n = name.len() as int;
    let bytes = encode_stake_pool(p) + rest;
    assert(bytes.subrange(1, 33) =~= p.owner);
    assert(bytes.subrange(33, 65) =~= p.destination);
    assert(bytes.subrange(66, 70) =~= spec_u32_to_le_bytes(n as u32));
    assert(bytes.subrange(70, 70 + n) =~= name);
    assert(bytes.subrange(70 + n, 102 + n) =~= p.vault);
    encode_utf8_valid_utf8(p.name);
    encode_utf8_decode_utf8(p.name);
}

/// Bytes that start with a record of another kind never decode as a stake
/// pool.
pub proof fn lemma_stake_pool_tag_checked(p: StakePoolView, rest: Seq<u8>)
    requires
        p.tag != Tag::StakePool,
    ensures
        decode_stake_pool(encode_stake_pool(p) + rest) is None,
{
}

/// No bytes are both a stake pool and a stake account.
pub proof fn lemma_record_kinds_disjoint(bytes: Seq<u8>)
    ensures
        !(decode_stake_pool(bytes) is Some && decode_stake_account(bytes) is Some),
{
}

/// The same parameters give the same address.
pub proof fn lemma_derivation_deterministic(
    nonce_a: u8,
    name_a: Seq<char>,
    owner_a: Seq<u8>,
    destination_a: Seq<u8>,
    nonce_b: u8,
    name_b: Seq<char>,
    owner_b: Seq<u8>,
    destination_b: Seq<u8>,
    program_id: Seq<u8>,
)
    requires
        nonce_a == nonce_b,
        name_a == name_b,
        owner_a == owner_b,
        destination_a == destination_b,
    ensures
        derive_pool_address(nonce_a, name_a, owner_a, destination_a, program_id) == derive_pool_address(
            nonce_b,
            name_b,
            owner_b,
            destination_b,
            program_id,
        ),
{
}

/// Parameters that differ in any one place are hashed from different seeds.
pub proof fn lemma_pool_seeds_injective(
    nonce_a: u8,
    name_a: Seq<char>,
    owner_a: Seq<u8>,
    destination_a: Seq<u8>,
    nonce_b: u8,
    name_b: Seq<char>,
    owner_b: Seq<u8>,
    destination_b: Seq<u8>,
)
    requires
        spec_pool_seeds(nonce_a, encode_utf8(name_a), owner_a, destination_a) == spec_pool_seeds(
            nonce_b,
            encode_utf8(name_b),
            owner_b,
            destination_b,
        ),
    ensures
        nonce_a == nonce_b,
        name_a == name_b,
        owner_a == owner_b,
        destination_a == destination_b,
{
    let a = spec_pool_seeds(nonce_a, encode_utf8(name_a), owner_a, destination_a);
    let b = spec_pool_seeds(nonce_b, encode_utf8(name_b), owner_b, destination_b);
    assert(a[0] == encode_utf8(name_a) && b[0] == encode_utf8(name_b));
    assert(a[1] == owner_a && b[1] == owner_b);
    assert(a[2] == destination_a && b[2] == destination_b);
    assert(a[3] =~= seq![nonce_a]);
    assert(b[3] =~= seq![nonce_b]);
    assert(seq![nonce_a][0] == nonce_a && seq![nonce_b][0] == nonce_b);
    assert(nonce_a == nonce_b) by {
        assert(a[3][0] == b[3][0]);
    }
    assert(name_a == name_b) by {
        assert(encode_utf8(name_a) == encode_utf8(name_b));
        encode_utf8_decode_utf8(name_a);
        encode_utf8_decode_utf8(name_b);
    }
}

} // verus!
