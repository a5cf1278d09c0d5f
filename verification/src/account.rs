//! The account records that an operation is handed.

use vstd::prelude::*;
use crate::pubkey::Pubkey;

verus! {

/// One account as the host presents it: an addressed byte buffer with a
/// balance, the program that controls it, and whether its owner authorized
/// this invocation.
#[derive(Debug, PartialEq, Eq)]
pub struct AccountRecord {
    /// The account's address.
    pub key: Pubkey,
    /// The program that alone may write the account's bytes.
    pub owner: Pubkey,
    /// Whether the account signed the invocation.
    pub is_signer: bool,
    /// The account's balance.
    pub lamports: u64,
    /// The account's bytes.
    pub data: Vec<u8>,
}

/// The mathematical value of an `AccountRecord`.
pub struct AccountView {
    pub key: Seq<u8>,
    pub owner: Seq<u8>,
    pub is_signer: bool,
    pub lamports: nat,
    pub data: Seq<u8>,
}

impl View for AccountRecord {
    type V = AccountView;

    open spec fn view(&self) -> AccountView {
        AccountView {
            key: self.key@,
            owner: self.owner@,
            is_signer: self.is_signer,
            lamports: self.lamports as nat,
            data: self.data@,
        }
    }
}

impl DeepView for AccountRecord {
    type V = AccountView;

    open spec fn deep_view(&self) -> AccountView {
        self@
    }
}

impl AccountRecord {
    /// A record with the given contents.
    pub fn new(key: Pubkey, owner: Pubkey, is_signer: bool, lamports: u64, data: Vec<u8>) -> (r: AccountRecord)
        ensures
            r@ == (AccountView {
                key: key@,
                owner: owner@,
                is_signer,
                lamports: lamports as nat,
                data: data@,
            }),
    {
        AccountRecord { key, owner, is_signer, lamports, data }
    }
}

/// `buffer` with its first bytes replaced by `bytes`.
pub open spec fn overwrite_prefix(buffer: Seq<u8>, bytes: Seq<u8>) -> Seq<u8>
    recommends
        bytes.len() <= buffer.len(),
{
    bytes + buffer.subrange(bytes.len() as int, buffer.len() as int)
}

} // verus!
