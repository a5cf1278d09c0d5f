//! What the program asks of the host's account-creation facility.
//!
//! The program cannot create an account itself. It works out what has to be
//! created and hands that to the host, which creates the account or refuses:
//! the payer cannot fund it, or the address is taken already.

use vstd::prelude::*;
use crate::pubkey::Pubkey;

verus! {

/// A request to create an account at an address that the program derived.
#[derive(Debug, PartialEq, Eq)]
pub struct CreateAccount {
    /// The account that funds the new one. It has to have signed.
    pub payer: Pubkey,
    /// The address at which the account is created.
    pub new_account: Pubkey,
    /// The program that controls the account from then on.
    pub owner: Pubkey,
    /// The exact number of bytes of the new account.
    pub space: usize,
    /// The seeds from which `new_account` derives under `owner`. They stand
    /// in for a signature of the new account.
    pub seeds: Vec<Vec<u8>>,
}

/// The mathematical value of a `CreateAccount`.
pub struct CreateAccountView {
    pub payer: Seq<u8>,
    pub new_account: Seq<u8>,
    pub owner: Seq<u8>,
    pub space: nat,
    pub seeds: Seq<Seq<u8>>,
}

impl View for CreateAccount {
    type V = CreateAccountView;

    open spec fn view(&self) -> CreateAccountView {
        CreateAccountView {
            payer: self.payer@,
            new_account: self.new_account@,
            owner: self.owner@,
            space: self.space as nat,
            seeds: self.seeds.deep_view(),
        }
    }
}

} // verus!
