use vstd::prelude::*;

use crate::bits::{count_ones, popcount};
use crate::error::{AccountError, EscrowError};
use crate::events::{DealResolved, RecoverySigned};
use crate::instructions::{
    applied, check_deal_binding, check_party_token_account, deal_binding_spec, party_token_account_spec,
    TokenAccountInfo,
};
use crate::pubkey::Pubkey;
use crate::state::{Deal, DealState, ResolutionPath};

verus! {

/// The deal has been funded and not yet completed or cancelled.
pub open spec fn post_funding(d: Deal) -> bool {
    d.state == DealState::Funded || d.state == DealState::Active || d.state == DealState::Deadlocked
}

pub fn require_post_funding(deal: &Deal) -> (r: Result<(), EscrowError>)
    ensures
        r == (if post_funding(*deal) { Ok::<(), EscrowError>(()) } else { Err(EscrowError::InvalidState) }),
{
    if deal.state == DealState::Funded || deal.state == DealState::Active || deal.state == DealState::Deadlocked {
        Ok(())
    } else {
        Err(EscrowError::InvalidState)
    }
}

/// Accounts of `recovery_sign`: the recovery signer and the deal.
#[derive(Clone, Copy, Debug)]
pub struct RecoverySign {
    pub signer: Pubkey,
    pub deal: Pubkey,
}

/// A party-chosen recovery signer signs a proposed payout to the payee. A
/// different amount replaces the proposal, resetting earlier signatures and the
/// notice clock; the notice clock starts the first time the current proposal
/// meets the threshold.
pub open spec fn recovery_sign_step(d: Deal, ctx: RecoverySign, amount_to_payee: u64, now: i64)
    -> Result<(Deal, RecoverySigned), EscrowError>
{
    if !post_funding(d) {
        Err(EscrowError::InvalidState)
    } else {
        match d.recovery_index_spec(ctx.signer) {
            None => Err(EscrowError::NotARecoverySigner),
            Some(idx) => {
                let bit = 1u8 << idx;
                let fresh = !d.recovery_proposal_active || d.recovery_proposed_to_payee != amount_to_payee;
                let approvals = if fresh { bit } else { d.recovery_approvals | bit };
                let ready_before = if fresh { 0 } else { d.recovery_ready_at };
                let signatures = popcount(approvals);
                let ready_at = if signatures >= d.recovery_threshold && ready_before == 0 {
                    now
                } else {
                    ready_before
                };
                if ready_at > 0 && ready_at.checked_add(d.recovery_delay_secs) is None {
                    Err(EscrowError::Overflow)
                } else {
                    let d2 = Deal {
                        recovery_proposal_active: true,
                        recovery_proposed_to_payee: amount_to_payee,
                        recovery_approvals: approvals,
                        recovery_ready_at: ready_at,
                        event_seq: d.event_seq.saturating_add(1),
                        ..d
                    };
                    Ok((d2, RecoverySigned {
                        deal: ctx.deal,
                        seq: d.event_seq,
                        signer: ctx.signer,
                        proposed_to_payee: amount_to_payee,
                        signatures: signatures as u8,
                        threshold: d.recovery_threshold,
                        executable_at: if ready_at > 0 { (ready_at + d.recovery_delay_secs) as i64 } else { 0 },
                        timestamp: now,
                    }))
                }
            },
        }
    }
}

pub fn handle_recovery_sign(ctx: &RecoverySign, deal: &mut Deal, amount_to_payee: u64, now: i64)
    -> (r: Result<RecoverySigned, EscrowError>)
    requires
        old(deal).layout_ok(),
    ensures
        applied(recovery_sign_step(*old(deal), *ctx, amount_to_payee, now), *old(deal), *final(deal), r),
{
    require_post_funding(deal)?;
    let idx = match deal.recovery_index(&ctx.signer) {
        Some(i) => i,
        None => {
            return Err(EscrowError::NotARecoverySigner);
        },
    };
    let bit = 1u8 << idx;
    let mut approvals = bit;
    let mut ready_at: i64 = 0;
    if deal.recovery_proposal_active && deal.recovery_proposed_to_payee == amount_to_payee {
        approvals = deal.recovery_approvals | bit;
        ready_at = deal.recovery_ready_at;
    }
    let signatures = count_ones(approvals) as u8;
    // The notice clock starts the first time this proposal meets the threshold.
    if signatures >= deal.recovery_threshold && ready_at == 0 {
        ready_at = now;
    }
    let executable_at = if ready_at > 0 {
        match ready_at.checked_add(deal.recovery_delay_secs) {
            Some(t) => t,
            None => {
                return Err(EscrowError::Overflow);
            },
        }
    } else {
        0
    };
    deal.recovery_proposal_active = true;
    deal.recovery_proposed_to_payee = amount_to_payee;
    deal.recovery_approvals = approvals;
    deal.recovery_ready_at = ready_at;
    let seq = deal.next_seq();
    Ok(RecoverySigned {
        deal: ctx.deal,
        seq,
        signer: ctx.signer,
        proposed_to_payee: amount_to_payee,
        signatures,
        threshold: deal.recovery_threshold,
        executable_at,
        timestamp: now,
    })
}

/// Accounts of `recovery_execute` (a permissionless crank): the deal, its
/// mint, vault and token program, and the payer's and payee's token accounts.
#[derive(Clone, Copy, Debug)]
pub struct RecoveryExecute {
    pub deal: Pubkey,
    pub mint: Pubkey,
    pub vault: Pubkey,
    pub payer_token_account: TokenAccountInfo,
    pub payee_token_account: TokenAccountInfo,
    pub token_program: Pubkey,
}

impl RecoveryExecute {
    pub open spec fn validate_spec(self, d: Deal) -> Result<(), AccountError> {
        match deal_binding_spec(d, self.mint, self.vault, self.token_program) {
            Err(e) => Err(e),
            Ok(()) => match party_token_account_spec(d, self.payer_token_account, d.payer_idx) {
                Err(e) => Err(e),
                Ok(()) => party_token_account_spec(d, self.payee_token_account, d.payee_idx),
            },
        }
    }

    /// The account constraints checked before the instruction runs.
    pub fn validate(&self, d: &Deal) -> (r: Result<(), AccountError>)
        requires
            d.layout_ok(),
        ensures
            r == self.validate_spec(*d),
    {
        check_deal_binding(d, &self.mint, &self.vault, &self.token_program)?;
        check_party_token_account(d, &self.payer_token_account, d.payer_idx)?;
        check_party_token_account(d, &self.payee_token_account, d.payee_idx)
    }
}

/// Anyone may execute a recovery proposal once it has its threshold of
/// signatures and its notice delay has run: the vault balance `remaining` is
/// split between payee (as proposed) and payer, and the deal completes.
pub open spec fn recovery_execute_step(d: Deal, ctx: RecoveryExecute, now: i64, remaining: u64)
    -> Result<(Deal, DealResolved), EscrowError>
{
    if !post_funding(d) {
        Err(EscrowError::InvalidState)
    } else if !d.recovery_proposal_active {
        Err(EscrowError::NoActiveProposal)
    } else if popcount(d.recovery_approvals) < d.recovery_threshold {
        Err(EscrowError::InsufficientRecoverySignatures)
    } else if d.recovery_ready_at.checked_add(d.recovery_delay_secs) is None {
        Err(EscrowError::Overflow)
    } else if !(d.recovery_ready_at > 0 && now >= d.recovery_ready_at + d.recovery_delay_secs) {
        Err(EscrowError::RecoveryDelayNotElapsed)
    } else if d.recovery_proposed_to_payee > remaining {
        Err(EscrowError::PayoutExceedsVault)
    } else {
        Ok((Deal { state: DealState::Completed, event_seq: d.event_seq.saturating_add(1), ..d }, DealResolved {
            deal: ctx.deal,
            seq: d.event_seq,
            path: ResolutionPath::Recovery,
            paid_to_payee: d.recovery_proposed_to_payee,
            refunded_to_payer: (remaining - d.recovery_proposed_to_payee) as u64,
            timestamp: now,
        }))
    }
}

/// `recovery_execute`, given the vault balance `remaining`; on success the
/// event says what the vault pays the payee and refunds the payer.
pub fn handle_recovery_execute(ctx: &RecoveryExecute, deal: &mut Deal, now: i64, remaining: u64)
    -> (r: Result<DealResolved, EscrowError>)
    ensures
        applied(recovery_execute_step(*old(deal), *ctx, now, remaining), *old(deal), *final(deal), r),
{
    require_post_funding(deal)?;
    if !deal.recovery_proposal_active {
        return Err(EscrowError::NoActiveProposal);
    }
    if count_ones(deal.recovery_approvals) < deal.recovery_threshold as u32 {
        return Err(EscrowError::InsufficientRecoverySignatures);
    }
    // Notice period: the proposal is public from recovery_ready_at.
    let executable_at = match deal.recovery_ready_at.checked_add(deal.recovery_delay_secs) {
        Some(t) => t,
        None => {
            return Err(EscrowError::Overflow);
        },
    };
    if !(deal.recovery_ready_at > 0 && now >= executable_at) {
        return Err(EscrowError::RecoveryDelayNotElapsed);
    }
    let to_payee = deal.recovery_proposed_to_payee;
    if to_payee > remaining {
        return Err(EscrowError::PayoutExceedsVault);
    }
    let to_payer = remaining - to_payee;
    deal.state = DealState::Completed;
    let seq = deal.next_seq();
    Ok(DealResolved {
        deal: ctx.deal,
        seq,
        path: ResolutionPath::Recovery,
        paid_to_payee: to_payee,
        refunded_to_payer: to_payer,
        timestamp: now,
    })
}

} // verus!
