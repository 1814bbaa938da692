pub mod approve_milestone;
pub mod cancel;
pub mod confirm_ready;
pub mod create_deal;
pub mod deposit;
pub mod raise_deadlock;
pub mod recovery;
pub mod release_milestone;
pub mod resolve;
pub mod sign_terms;

use vstd::prelude::*;

use crate::error::{AccountError, EscrowError};
use crate::pubkey::Pubkey;
use crate::state::Deal;

verus! {

/// `after` and `r` are what an instruction whose rule yields `outcome` makes of
/// `before`: on success the new deal and the event, on failure the error, with
/// the deal left as it was (a failed instruction changes nothing).
pub open spec fn applied<E>(
    outcome: Result<(Deal, E), EscrowError>,
    before: Deal,
    after: Deal,
    r: Result<E, EscrowError>,
) -> bool {
    match outcome {
        Ok((d, e)) => after == d && r == Ok::<E, EscrowError>(e),
        Err(err) => after == before && r == Err::<E, EscrowError>(err),
    }
}

/// The deal with its event counter advanced by one.
pub open spec fn bump_seq(d: Deal) -> Deal {
    Deal { event_seq: d.event_seq.saturating_add(1), ..d }
}

/// The fields of a token account that the instructions check.
#[derive(Clone, Copy, Debug)]
pub struct TokenAccountInfo {
    pub key: Pubkey,
    pub mint: Pubkey,
    pub owner: Pubkey,
}

/// The mint, vault and token program supplied are the ones the deal records
/// (checked in this order).
pub open spec fn deal_binding_spec(d: Deal, mint: Pubkey, vault: Pubkey, token_program: Pubkey) -> Result<(), AccountError> {
    if d.mint != mint {
        Err(AccountError::ConstraintHasOne)
    } else if d.vault != vault {
        Err(AccountError::ConstraintHasOne)
    } else if d.token_program != token_program {
        Err(AccountError::Escrow(EscrowError::TokenProgramMismatch))
    } else {
        Ok(())
    }
}

pub fn check_deal_binding(d: &Deal, mint: &Pubkey, vault: &Pubkey, token_program: &Pubkey) -> (r: Result<(), AccountError>)
    ensures
        r == deal_binding_spec(*d, *mint, *vault, *token_program),
{
    if !d.mint.key_eq(mint) {
        return Err(AccountError::ConstraintHasOne);
    }
    if !d.vault.key_eq(vault) {
        return Err(AccountError::ConstraintHasOne);
    }
    if !d.token_program.key_eq(token_program) {
        return Err(AccountError::Escrow(EscrowError::TokenProgramMismatch));
    }
    Ok(())
}

/// A token account may receive from the vault only if it holds the deal's mint
/// and belongs to the party at `party_idx`.
pub open spec fn party_token_account_spec(d: Deal, account: TokenAccountInfo, party_idx: u8) -> Result<(), AccountError> {
    if account.mint != d.mint || account.owner != d.parties[party_idx as int] {
        Err(AccountError::Escrow(EscrowError::TokenAccountMismatch))
    } else {
        Ok(())
    }
}

pub fn check_party_token_account(d: &Deal, account: &TokenAccountInfo, party_idx: u8) -> (r: Result<(), AccountError>)
    requires
        (party_idx as usize) < crate::constants::MAX_PARTIES,
    ensures
        r == party_token_account_spec(*d, *account, party_idx),
{
    if !account.mint.key_eq(&d.mint) || !account.owner.key_eq(&d.parties[party_idx as usize]) {
        Err(AccountError::Escrow(EscrowError::TokenAccountMismatch))
    } else {
        Ok(())
    }
}

} // verus!
