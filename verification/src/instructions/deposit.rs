use vstd::prelude::*;

use crate::error::{AccountError, EscrowError};
use crate::events::DepositReceived;
use crate::instructions::{applied, check_deal_binding, deal_binding_spec, TokenAccountInfo};
use crate::pubkey::Pubkey;
use crate::state::{Deal, DealState};

verus! {

/// Accounts of `deposit`: the paying party, the deal, its mint and vault, the
/// payer's source token account and the token program.
#[derive(Clone, Copy, Debug)]
pub struct Deposit {
    pub payer: Pubkey,
    pub deal: Pubkey,
    pub mint: Pubkey,
    pub vault: Pubkey,
    pub payer_token_account: TokenAccountInfo,
    pub token_program: Pubkey,
}

impl Deposit {
    pub open spec fn validate_spec(self, d: Deal) -> Result<(), AccountError> {
        match deal_binding_spec(d, self.mint, self.vault, self.token_program) {
            Err(e) => Err(e),
            Ok(()) => if self.payer_token_account.mint != d.mint {
                Err(AccountError::Escrow(EscrowError::TokenAccountMismatch))
            } else {
                Ok(())
            },
        }
    }

    /// The account constraints checked before the instruction runs.
    pub fn validate(&self, d: &Deal) -> (r: Result<(), AccountError>)
        ensures
            r == self.validate_spec(*d),
    {
        check_deal_binding(d, &self.mint, &self.vault, &self.token_program)?;
        if !self.payer_token_account.mint.key_eq(&d.mint) {
            return Err(AccountError::Escrow(EscrowError::TokenAccountMismatch));
        }
        Ok(())
    }
}

/// The checks made before any tokens move: the deal is Signed, the amount is
/// positive, and the signer is the deal's payer.
pub open spec fn deposit_check_spec(d: Deal, ctx: Deposit, amount: u64) -> Result<(), EscrowError> {
    if d.state != DealState::Signed {
        Err(EscrowError::InvalidState)
    } else if amount == 0 {
        Err(EscrowError::ZeroDeposit)
    } else {
        match d.party_index_spec(ctx.payer) {
            None => Err(EscrowError::NotAParty),
            Some(idx) => if idx != d.payer_idx {
                Err(EscrowError::OnlyPayerMayDeposit)
            } else {
                Ok(())
            },
        }
    }
}

/// The payer deposits: the deal is credited with what the vault actually
/// received (its balance after minus before, so a transfer fee cannot corrupt
/// the accounting), never beyond the total; reaching the total funds the deal.
pub open spec fn deposit_step(d: Deal, ctx: Deposit, amount: u64, vault_before: u64, vault_after: u64, now: i64)
    -> Result<(Deal, DepositReceived), EscrowError>
{
    match deposit_check_spec(d, ctx, amount) {
        Err(e) => Err(e),
        Ok(()) => if vault_after < vault_before {
            Err(EscrowError::Overflow)
        } else {
            let credited = (vault_after - vault_before) as u64;
            if d.deposited + credited > u64::MAX {
                Err(EscrowError::Overflow)
            } else if d.deposited + credited > d.total_amount {
                Err(EscrowError::OverFunded)
            } else {
                let deposited = (d.deposited + credited) as u64;
                let fully_funded = deposited == d.total_amount;
                let d2 = Deal {
                    deposited,
                    state: if fully_funded { DealState::Funded } else { d.state },
                    funded_at: if fully_funded { now } else { d.funded_at },
                    event_seq: d.event_seq.saturating_add(1),
                    ..d
                };
                Ok((d2, DepositReceived {
                    deal: ctx.deal,
                    seq: d.event_seq,
                    from: ctx.payer,
                    amount_credited: credited,
                    deposited_total: deposited,
                    fully_funded,
                    timestamp: now,
                }))
            }
        },
    }
}

/// The checks `deposit` makes before the transfer into the vault.
pub fn deposit_precheck(ctx: &Deposit, deal: &Deal, amount: u64) -> (r: Result<(), EscrowError>)
    requires
        deal.layout_ok(),
    ensures
        r == deposit_check_spec(*deal, *ctx, amount),
{
    deal.require_state(DealState::Signed)?;
    if amount == 0 {
        return Err(EscrowError::ZeroDeposit);
    }
    let payer_idx = deal.require_party(&ctx.payer)?;
    if payer_idx != deal.payer_idx {
        return Err(EscrowError::OnlyPayerMayDeposit);
    }
    Ok(())
}

/// `deposit`, given the vault balance before and after the payer's transfer of
/// `amount` into it.
pub fn handle_deposit(
    ctx: &Deposit,
    deal: &mut Deal,
    amount: u64,
    vault_before: u64,
    vault_after: u64,
    now: i64,
) -> (r: Result<DepositReceived, EscrowError>)
    requires
        old(deal).layout_ok(),
    ensures
        applied(deposit_step(*old(deal), *ctx, amount, vault_before, vault_after, now), *old(deal), *final(deal), r),
{
    deposit_precheck(ctx, deal, amount)?;
    // Credit what the vault actually received, not what was sent.
    let credited = match vault_after.checked_sub(vault_before) {
        Some(c) => c,
        None => {
            return Err(EscrowError::Overflow);
        },
    };
    let deposited = match deal.deposited.checked_add(credited) {
        Some(v) => v,
        None => {
            return Err(EscrowError::Overflow);
        },
    };
    if deposited > deal.total_amount {
        return Err(EscrowError::OverFunded);
    }
    deal.deposited = deposited;
    let fully_funded = deal.deposited == deal.total_amount;
    if fully_funded {
        deal.state = DealState::Funded;
        deal.funded_at = now;
    }
    let seq = deal.next_seq();
    Ok(DepositReceived {
        deal: ctx.deal,
        seq,
        from: ctx.payer,
        amount_credited: credited,
        deposited_total: deal.deposited,
        fully_funded,
        timestamp: now,
    })
}

} // verus!
