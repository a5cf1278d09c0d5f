//! The custody account of a pool, as far as this program reads it.
//!
//! A vault is an account under the token program. Its bytes have a fixed
//! length; they hold, among other things, the authority that may move what
//! the vault holds, and a marker that says whether the vault was set up.

use vstd::prelude::*;
use crate::account::{AccountRecord, AccountView};
use crate::pubkey::{keys_equal, Pubkey};
use crate::state::read_key;

verus! {

/// The number of bytes of a custody account.
pub const VAULT_LEN: usize = 165;

/// Where the authority stands in a custody account's bytes.
pub const VAULT_AUTHORITY_OFFSET: usize = 32;

/// Where the set-up marker stands in a custody account's bytes.
pub const VAULT_STATE_OFFSET: usize = 108;

/// The marker of a custody account that is set up and usable.
pub const VAULT_STATE_INITIALIZED: u8 = 1;

/// The marker of a custody account that is set up and frozen.
pub const VAULT_STATE_FROZEN: u8 = 2;

/// The address of the token program, which controls every custody account.
pub open spec fn token_program_key() -> Seq<u8> {
    seq![
        6u8, 221u8, 246u8, 225u8, 215u8, 101u8, 161u8, 147u8,
        217u8, 203u8, 225u8, 70u8, 206u8, 235u8, 121u8, 172u8,
        28u8, 180u8, 133u8, 237u8, 95u8, 91u8, 55u8, 145u8,
        58u8, 140u8, 245u8, 133u8, 126u8, 255u8, 0u8, 169u8,
    ]
}

/// The address of the token program.
pub fn token_program_id() -> (r: Pubkey)
    ensures
        r@ == token_program_key(),
{
    let r: Pubkey = [
        6, 221, 246, 225, 215, 101, 161, 147,
        217, 203, 225, 70, 206, 235, 121, 172,
        28, 180, 133, 237, 95, 91, 55, 145,
        58, 140, 245, 133, 126, 255, 0, 169,
    ];
    assert(r@ =~= token_program_key());
    r
}

/// The authority of the custody account that `vault` is, or `None` where it
/// is none: it is not under the token program, its bytes have another length,
/// or it was never set up.
pub open spec fn vault_authority(vault: AccountView) -> Option<Seq<u8>> {
    if vault.owner == token_program_key() && vault.data.len() == VAULT_LEN && (vault.data[VAULT_STATE_OFFSET as int]
        == VAULT_STATE_INITIALIZED || vault.data[VAULT_STATE_OFFSET as int] == VAULT_STATE_FROZEN) {
        Some(vault.data.subrange(VAULT_AUTHORITY_OFFSET as int, VAULT_AUTHORITY_OFFSET + 32))
    } else {
        None
    }
}

/// The authority of the custody account that `vault` is, if it is one.
pub fn read_vault_authority(vault: &AccountRecord) -> (r: Option<Pubkey>)
    ensures
        match r {
            Some(k) => vault_authority(vault@) == Some(k@),
            None => vault_authority(vault@) is None,
        },
{
    let token_program = token_program_id();
    if !keys_equal(&vault.owner, &token_program) {
        return None;
    }
    if vault.data.len() != VAULT_LEN {
        return None;
    }
    let state = vault.data[VAULT_STATE_OFFSET];
    if state != VAULT_STATE_INITIALIZED && state != VAULT_STATE_FROZEN {
        return None;
    }
    Some(read_key(vault.data.as_slice(), VAULT_AUTHORITY_OFFSET))
}

} // verus!
