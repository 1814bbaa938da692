use vstd::prelude::*;

use crate::bits::{sat_sub_i64, sat_sub_i64_spec};
use crate::constants::BPS_DENOMINATOR;
use crate::error::{AccountError, EscrowError};
use crate::events::{DealResolved, ResolutionSigned};
use crate::instructions::{
    applied, check_deal_binding, check_party_token_account, deal_binding_spec, party_token_account_spec,
    TokenAccountInfo,
};
use crate::pubkey::Pubkey;
use crate::state::{Deal, DealState, DeadlockRule, ResolutionPath, TimerMode};

verus! {

/// Accounts of `resolution_sign`: the signer (a party, or the tie-breaker) and the deal.
#[derive(Clone, Copy, Debug)]
pub struct ResolutionSign {
    pub signer: Pubkey,
    pub deal: Pubkey,
}

/// A party (or, under the TieBreaker rule, the tie-breaker) signs a proposed
/// payout to the payee. The tie-breaker's signature decides. A party's
/// signature on a different amount replaces the proposal and resets every
/// earlier approval and any tie-breaker decision; on the same amount it adds
/// the party's approval.
pub open spec fn resolution_sign_step(d: Deal, ctx: ResolutionSign, amount_to_payee: u64, now: i64)
    -> Result<(Deal, ResolutionSigned), EscrowError>
{
    if d.state != DealState::Deadlocked {
        Err(EscrowError::InvalidState)
    } else {
        let is_tie_breaker = d.deadlock_rule == DeadlockRule::TieBreaker && ctx.signer == d.tie_breaker;
        let event = ResolutionSigned {
            deal: ctx.deal,
            seq: d.event_seq,
            signer: ctx.signer,
            proposed_to_payee: amount_to_payee,
            is_tie_breaker,
            timestamp: now,
        };
        if is_tie_breaker {
            Ok((Deal {
                proposal_active: true,
                proposed_to_payee: amount_to_payee,
                resolution_approvals: 0,
                tie_breaker_decided: true,
                event_seq: d.event_seq.saturating_add(1),
                ..d
            }, event))
        } else {
            match d.party_index_spec(ctx.signer) {
                None => Err(EscrowError::NotAParty),
                Some(idx) => {
                    let bit = 1u8 << idx;
                    if !d.proposal_active || d.proposed_to_payee != amount_to_payee {
                        Ok((Deal {
                            proposal_active: true,
                            proposed_to_payee: amount_to_payee,
                            resolution_approvals: bit,
                            tie_breaker_decided: false,
                            event_seq: d.event_seq.saturating_add(1),
                            ..d
                        }, event))
                    } else {
                        Ok((Deal {
                            resolution_approvals: d.resolution_approvals | bit,
                            event_seq: d.event_seq.saturating_add(1),
                            ..d
                        }, event))
                    }
                },
            }
        }
    }
}

pub fn handle_resolution_sign(ctx: &ResolutionSign, deal: &mut Deal, amount_to_payee: u64, now: i64)
    -> (r: Result<ResolutionSigned, EscrowError>)
    requires
        old(deal).layout_ok(),
    ensures
        applied(resolution_sign_step(*old(deal), *ctx, amount_to_payee, now), *old(deal), *final(deal), r),
{
    deal.require_state(DealState::Deadlocked)?;
    let is_tie_breaker = deal.deadlock_rule == DeadlockRule::TieBreaker && ctx.signer.key_eq(&deal.tie_breaker);
    if is_tie_breaker {
        deal.proposal_active = true;
        deal.proposed_to_payee = amount_to_payee;
        deal.resolution_approvals = 0;
        deal.tie_breaker_decided = true;
    } else {
        let idx = deal.require_party(&ctx.signer)?;
        let bit = 1u8 << idx;
        if !deal.proposal_active || deal.proposed_to_payee != amount_to_payee {
            deal.proposal_active = true;
            deal.proposed_to_payee = amount_to_payee;
            deal.resolution_approvals = bit;
            deal.tie_breaker_decided = false;
        } else {
            deal.resolution_approvals = deal.resolution_approvals | bit;
        }
    }
    let seq = deal.next_seq();
    Ok(ResolutionSigned {
        deal: ctx.deal,
        seq,
        signer: ctx.signer,
        proposed_to_payee: amount_to_payee,
        is_tie_breaker,
        timestamp: now,
    })
}

/// Accounts of `resolve` (a permissionless crank): the deal, its mint, vault
/// and token program, and the payer's and payee's token accounts.
#[derive(Clone, Copy, Debug)]
pub struct Resolve {
    pub deal: Pubkey,
    pub mint: Pubkey,
    pub vault: Pubkey,
    pub payer_token_account: TokenAccountInfo,
    pub payee_token_account: TokenAccountInfo,
    pub token_program: Pubkey,
}

impl Resolve {
    pub open spec fn validate_spec(self, d: Deal) -> Result<(), AccountError> {
        match deal_binding_spec(d, self.mint, self.vault, self.token_program) {
            Err(e) => Err(e),
            Ok(()) => match party_token_account_spec(d, self.payer_token_account, d.payer_idx) {
                Err(e) => Err(e),
                Ok(()) => party_token_account_spec(d, self.payee_token_account, d.payee_idx),
            },
        }
    }

    /// The account constraints checked before the instruction runs.
    pub fn validate(&self, d: &Deal) -> (r: Result<(), AccountError>)
        requires
            d.layout_ok(),
        ensures
            r == self.validate_spec(*d),
    {
        check_deal_binding(d, &self.mint, &self.vault, &self.token_program)?;
        check_party_token_account(d, &self.payer_token_account, d.payer_idx)?;
        check_party_token_account(d, &self.payee_token_account, d.payee_idx)
    }
}

/// The payee's share of `remaining` under the deal's time-based rule:
/// everything (TimeoutRelease), nothing (TimeoutRefund, LongSunset), or
/// `split_bps` basis points rounded down (AutoSplit). TieBreaker and
/// TrueDeadlock have no timeout path.
pub open spec fn timeout_payout_spec(d: Deal, remaining: u64) -> Result<u64, EscrowError> {
    match d.deadlock_rule {
        DeadlockRule::TimeoutRelease => Ok(remaining),
        DeadlockRule::TimeoutRefund | DeadlockRule::LongSunset => Ok(0),
        DeadlockRule::AutoSplit => {
            let share = remaining * d.split_bps / (BPS_DENOMINATOR as int);
            if share > u64::MAX {
                Err(EscrowError::Overflow)
            } else {
                Ok(share as u64)
            }
        },
        DeadlockRule::TieBreaker | DeadlockRule::TrueDeadlock => Err(EscrowError::ResolutionConditionsNotMet),
    }
}

/// Payout for the deal's time-based rule, or an error for rules with no
/// timeout path. TrueDeadlock never resolves by time, in any timer mode.
pub fn timeout_payout(deal: &Deal, remaining: u64) -> (r: Result<u64, EscrowError>)
    ensures
        r == timeout_payout_spec(*deal, remaining),
{
    match deal.deadlock_rule {
        DeadlockRule::TimeoutRelease => Ok(remaining),
        DeadlockRule::TimeoutRefund | DeadlockRule::LongSunset => Ok(0),
        DeadlockRule::AutoSplit => {
            assert((remaining as u128) * (deal.split_bps as u128) <= u64::MAX as u128 * u16::MAX as u128)
                by (nonlinear_arith);
            let share: u128 = (remaining as u128) * (deal.split_bps as u128) / (BPS_DENOMINATOR as u128);
            if share > u64::MAX as u128 {
                Err(EscrowError::Overflow)
            } else {
                Ok(share as u64)
            }
        },
        DeadlockRule::TieBreaker | DeadlockRule::TrueDeadlock => Err(EscrowError::ResolutionConditionsNotMet),
    }
}

/// Which way the deal resolves now, and the payee's share of `remaining`.
///
/// - Active (FromActivation mode only): the clock's running total must have
///   reached `timeout_secs`; the time-based rule decides the split.
/// - Deadlocked: a proposal every party approved pays as proposed; otherwise
///   under TieBreaker a tie-breaker decision pays as decided (either must fit in
///   the vault); otherwise the time-based rule applies, only in FromDeadlock
///   mode (a dispute pauses the FromActivation clock), once `timeout_secs` have
///   passed since the deadlock was raised.
pub open spec fn resolution_spec(d: Deal, now: i64, remaining: u64) -> Result<(ResolutionPath, u64), EscrowError> {
    match d.state {
        DealState::Active => {
            if d.timer_mode != TimerMode::FromActivation {
                Err(EscrowError::InvalidState)
            } else {
                match timeout_payout_spec(d, remaining) {
                    Err(e) => Err(e),
                    Ok(payee) => match d.elapsed_at_pause.checked_add(sat_sub_i64_spec(now, d.last_resumed_at)) {
                        None => Err(EscrowError::Overflow),
                        Some(elapsed) => if elapsed < d.timeout_secs {
                            Err(EscrowError::TimeoutNotElapsed)
                        } else {
                            Ok((ResolutionPath::Timeout, payee))
                        },
                    },
                }
            }
        },
        DealState::Deadlocked => {
            let mutual = d.proposal_active && d.resolution_approvals == d.all_parties_mask_spec();
            let tie_broken = d.deadlock_rule == DeadlockRule::TieBreaker && d.tie_breaker_decided;
            if mutual || tie_broken {
                if d.proposed_to_payee > remaining {
                    Err(EscrowError::PayoutExceedsVault)
                } else if mutual {
                    Ok((ResolutionPath::Mutual, d.proposed_to_payee))
                } else {
                    Ok((ResolutionPath::TieBreaker, d.proposed_to_payee))
                }
            } else {
                match timeout_payout_spec(d, remaining) {
                    Err(e) => Err(e),
                    Ok(payee) => if d.timer_mode != TimerMode::FromDeadlock {
                        Err(EscrowError::TimeoutPausedByDispute)
                    } else {
                        match d.deadlock_raised_at.checked_add(d.timeout_secs) {
                            None => Err(EscrowError::Overflow),
                            Some(deadline) => if now < deadline {
                                Err(EscrowError::TimeoutNotElapsed)
                            } else {
                                Ok((ResolutionPath::Timeout, payee))
                            },
                        }
                    },
                }
            }
        },
        _ => Err(EscrowError::InvalidState),
    }
}

/// Anyone may resolve once the conditions hold: `remaining` (the vault
/// balance) is split between payee and payer, nothing is kept, and the deal
/// completes.
pub open spec fn resolve_step(d: Deal, ctx: Resolve, now: i64, remaining: u64) -> Result<(Deal, DealResolved), EscrowError> {
    match resolution_spec(d, now, remaining) {
        Err(e) => Err(e),
        Ok((path, to_payee)) => if to_payee > remaining {
            Err(EscrowError::Overflow)
        } else {
            Ok((Deal { state: DealState::Completed, event_seq: d.event_seq.saturating_add(1), ..d }, DealResolved {
                deal: ctx.deal,
                seq: d.event_seq,
                path,
                paid_to_payee: to_payee,
                refunded_to_payer: (remaining - to_payee) as u64,
                timestamp: now,
            }))
        },
    }
}

/// `resolve`, given the vault balance `remaining`; on success the event says
/// what the vault pays the payee and refunds the payer.
pub fn handle_resolve(ctx: &Resolve, deal: &mut Deal, now: i64, remaining: u64) -> (r: Result<DealResolved, EscrowError>)
    requires
        old(deal).layout_ok(),
    ensures
        applied(resolve_step(*old(deal), *ctx, now, remaining), *old(deal), *final(deal), r),
{
    let path: ResolutionPath;
    let to_payee: u64;
    match deal.state {
        DealState::Active => {
            // FromActivation mode: the clock runs while the deal is Active and
            // the deal auto-resolves on expiry with no deadlock ever raised.
            if deal.timer_mode != TimerMode::FromActivation {
                return Err(EscrowError::InvalidState);
            }
            let payee_amount = timeout_payout(deal, remaining)?;
            let elapsed = match deal.elapsed_at_pause.checked_add(sat_sub_i64(now, deal.last_resumed_at)) {
                Some(e) => e,
                None => {
                    return Err(EscrowError::Overflow);
                },
            };
            if elapsed < deal.timeout_secs {
                return Err(EscrowError::TimeoutNotElapsed);
            }
            path = ResolutionPath::Timeout;
            to_payee = payee_amount;
        },
        DealState::Deadlocked => {
            let mutual = deal.proposal_active && deal.resolution_approvals == deal.all_parties_mask();
            let tie_broken = deal.deadlock_rule == DeadlockRule::TieBreaker && deal.tie_breaker_decided;
            if mutual {
                if deal.proposed_to_payee > remaining {
                    return Err(EscrowError::PayoutExceedsVault);
                }
                path = ResolutionPath::Mutual;
                to_payee = deal.proposed_to_payee;
            } else if tie_broken {
                if deal.proposed_to_payee > remaining {
                    return Err(EscrowError::PayoutExceedsVault);
                }
                path = ResolutionPath::TieBreaker;
                to_payee = deal.proposed_to_payee;
            } else {
                let payee_amount = timeout_payout(deal, remaining)?;
                // FromActivation: a raised dispute pauses the clock.
                if deal.timer_mode != TimerMode::FromDeadlock {
                    return Err(EscrowError::TimeoutPausedByDispute);
                }
                let deadline = match deal.deadlock_raised_at.checked_add(deal.timeout_secs) {
                    Some(t) => t,
                    None => {
                        return Err(EscrowError::Overflow);
                    },
                };
                if now < deadline {
                    return Err(EscrowError::TimeoutNotElapsed);
                }
                path = ResolutionPath::Timeout;
                to_payee = payee_amount;
            }
        },
        _ => {
            return Err(EscrowError::InvalidState);
        },
    }
    let to_payer = match remaining.checked_sub(to_payee) {
        Some(v) => v,
        None => {
            return Err(EscrowError::Overflow);
        },
    };
    deal.state = DealState::Completed;
    let seq = deal.next_seq();
    Ok(DealResolved { deal: ctx.deal, seq, path, paid_to_payee: to_payee, refunded_to_payer: to_payer, timestamp: now })
}

} // verus!
