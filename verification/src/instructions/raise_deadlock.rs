use vstd::prelude::*;

use crate::bits::{sat_sub_i64, sat_sub_i64_spec};
use crate::error::EscrowError;
use crate::events::{DeadlockRaised, DeadlockWithdrawn};
use crate::instructions::applied;
use crate::pubkey::Pubkey;
use crate::state::{Deal, DealState, TimerMode};

verus! {

/// Accounts of `raise_deadlock`: the disputing party and the deal.
#[derive(Clone, Copy, Debug)]
pub struct RaiseDeadlock {
    pub party: Pubkey,
    pub deal: Pubkey,
}

/// The activation clock's running total at `now`: the banked seconds plus the
/// seconds since it last resumed (`None` if that overflows).
pub open spec fn activation_elapsed(d: Deal, now: i64) -> Option<i64> {
    d.elapsed_at_pause.checked_add(sat_sub_i64_spec(now, d.last_resumed_at))
}

/// A party disputes an active deal. In FromActivation mode the clock pauses,
/// banking the seconds elapsed so far.
pub open spec fn raise_deadlock_step(d: Deal, ctx: RaiseDeadlock, now: i64) -> Result<(Deal, DeadlockRaised), EscrowError> {
    if d.state != DealState::Active {
        Err(EscrowError::InvalidState)
    } else if d.party_index_spec(ctx.party) is None {
        Err(EscrowError::NotAParty)
    } else if d.timer_mode == TimerMode::FromActivation && activation_elapsed(d, now) is None {
        Err(EscrowError::Overflow)
    } else {
        let d2 = Deal {
            state: DealState::Deadlocked,
            deadlock_raised_at: now,
            deadlock_raised_by: ctx.party,
            elapsed_at_pause: if d.timer_mode == TimerMode::FromActivation {
                activation_elapsed(d, now)->Some_0
            } else {
                d.elapsed_at_pause
            },
            event_seq: d.event_seq.saturating_add(1),
            ..d
        };
        Ok((d2, DeadlockRaised { deal: ctx.deal, seq: d.event_seq, raised_by: ctx.party, timestamp: now }))
    }
}

pub fn handle_raise_deadlock(ctx: &RaiseDeadlock, deal: &mut Deal, now: i64) -> (r: Result<DeadlockRaised, EscrowError>)
    requires
        old(deal).layout_ok(),
    ensures
        applied(raise_deadlock_step(*old(deal), *ctx, now), *old(deal), *final(deal), r),
{
    deal.require_state(DealState::Active)?;
    deal.require_party(&ctx.party)?;
    let mut elapsed = deal.elapsed_at_pause;
    if deal.timer_mode == TimerMode::FromActivation {
        // Pause the activation clock, banking the time elapsed so far.
        match deal.elapsed_at_pause.checked_add(sat_sub_i64(now, deal.last_resumed_at)) {
            Some(e) => {
                elapsed = e;
            },
            None => {
                return Err(EscrowError::Overflow);
            },
        }
    }
    deal.state = DealState::Deadlocked;
    deal.deadlock_raised_at = now;
    deal.deadlock_raised_by = ctx.party;
    deal.elapsed_at_pause = elapsed;
    let seq = deal.next_seq();
    Ok(DeadlockRaised { deal: ctx.deal, seq, raised_by: ctx.party, timestamp: now })
}

/// Accounts of `withdraw_deadlock`: the withdrawing party and the deal.
#[derive(Clone, Copy, Debug)]
pub struct WithdrawDeadlock {
    pub party: Pubkey,
    pub deal: Pubkey,
}

/// The party who raised the deadlock withdraws it: the deal returns to
/// Active, the activation clock resumes with its banked seconds, and any
/// pending resolution proposal is discarded.
pub open spec fn withdraw_deadlock_step(d: Deal, ctx: WithdrawDeadlock, now: i64)
    -> Result<(Deal, DeadlockWithdrawn), EscrowError>
{
    if d.state != DealState::Deadlocked {
        Err(EscrowError::InvalidState)
    } else if ctx.party != d.deadlock_raised_by {
        Err(EscrowError::OnlyRaiserMayWithdraw)
    } else {
        let d2 = Deal {
            state: DealState::Active,
            deadlock_raised_at: 0,
            deadlock_raised_by: Pubkey::zero_spec(),
            last_resumed_at: now,
            proposal_active: false,
            proposed_to_payee: 0,
            resolution_approvals: 0,
            tie_breaker_decided: false,
            event_seq: d.event_seq.saturating_add(1),
            ..d
        };
        Ok((d2, DeadlockWithdrawn {
            deal: ctx.deal,
            seq: d.event_seq,
            withdrawn_by: ctx.party,
            elapsed_secs: d.elapsed_at_pause,
            timestamp: now,
        }))
    }
}

pub fn handle_withdraw_deadlock(ctx: &WithdrawDeadlock, deal: &mut Deal, now: i64)
    -> (r: Result<DeadlockWithdrawn, EscrowError>)
    ensures
        applied(withdraw_deadlock_step(*old(deal), *ctx, now), *old(deal), *final(deal), r),
{
    deal.require_state(DealState::Deadlocked)?;
    if !ctx.party.key_eq(&deal.deadlock_raised_by) {
        return Err(EscrowError::OnlyRaiserMayWithdraw);
    }
    deal.state = DealState::Active;
    deal.deadlock_raised_at = 0;
    deal.deadlock_raised_by = Pubkey::zero();
    deal.last_resumed_at = now;
    // A withdrawn dispute discards any in-flight settlement proposal.
    deal.proposal_active = false;
    deal.proposed_to_payee = 0;
    deal.resolution_approvals = 0;
    deal.tie_breaker_decided = false;
    let seq = deal.next_seq();
    Ok(DeadlockWithdrawn { deal: ctx.deal, seq, withdrawn_by: ctx.party, elapsed_secs: deal.elapsed_at_pause, timestamp: now })
}

} // verus!
