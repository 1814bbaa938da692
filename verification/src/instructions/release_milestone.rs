use vstd::prelude::*;

use crate::bits::{count_ones, popcount};
use crate::error::{AccountError, EscrowError};
use crate::events::MilestoneReleased;
use crate::instructions::{
    applied, check_deal_binding, check_party_token_account, deal_binding_spec, party_token_account_spec,
    TokenAccountInfo,
};
use crate::pubkey::Pubkey;
use crate::state::{Deal, DealState, Milestone};

verus! {

/// Accounts of `release_milestone` (a permissionless crank): the deal, its
/// mint, vault and token program, and the payee's token account.
#[derive(Clone, Copy, Debug)]
pub struct ReleaseMilestone {
    pub deal: Pubkey,
    pub mint: Pubkey,
    pub vault: Pubkey,
    pub payee_token_account: TokenAccountInfo,
    pub token_program: Pubkey,
}

impl ReleaseMilestone {
    pub open spec fn validate_spec(self, d: Deal) -> Result<(), AccountError> {
        match deal_binding_spec(d, self.mint, self.vault, self.token_program) {
            Err(e) => Err(e),
            Ok(()) => party_token_account_spec(d, self.payee_token_account, d.payee_idx),
        }
    }

    /// The account constraints checked before the instruction runs.
    pub fn validate(&self, d: &Deal) -> (r: Result<(), AccountError>)
        requires
            d.layout_ok(),
        ensures
            r == self.validate_spec(*d),
    {
        check_deal_binding(d, &self.mint, &self.vault, &self.token_program)?;
        check_party_token_account(d, &self.payee_token_account, d.payee_idx)
    }
}

/// Every milestone before `index` has been released.
pub open spec fn priors_released(d: Deal, index: int) -> bool {
    forall|j: int| 0 <= j < index ==> #[trigger] d.milestones[j].released
}

/// Every milestone of the deal has been released.
pub open spec fn all_released(d: Deal) -> bool {
    priors_released(d, d.num_milestones as int)
}

/// Once a milestone has its threshold of approvals and every earlier milestone
/// is released, anyone can release its amount to the payee; releasing the last
/// one completes the deal.
pub open spec fn release_milestone_step(d: Deal, ctx: ReleaseMilestone, index: u8, now: i64)
    -> Result<(Deal, MilestoneReleased), EscrowError>
{
    if d.state != DealState::Active {
        Err(EscrowError::InvalidState)
    } else if index >= d.num_milestones {
        Err(EscrowError::MilestoneOutOfRange)
    } else {
        let m = d.milestones[index as int];
        if m.released {
            Err(EscrowError::MilestoneAlreadyReleased)
        } else if popcount(m.approvals) < d.approval_threshold {
            Err(EscrowError::InsufficientApprovals)
        } else if !priors_released(d, index as int) {
            Err(EscrowError::MilestonesOutOfOrder)
        } else if d.released_total + m.amount > u64::MAX {
            Err(EscrowError::Overflow)
        } else {
            let released_total = (d.released_total + m.amount) as u64;
            let d1 = Deal {
                milestones: vstd::array::spec_array_update(d.milestones, index as int, Milestone { released: true, ..m }),
                released_total,
                ..d
            };
            let completed = all_released(d1);
            let d2 = Deal {
                state: if completed { DealState::Completed } else { d.state },
                event_seq: d.event_seq.saturating_add(1),
                ..d1
            };
            Ok((d2, MilestoneReleased {
                deal: ctx.deal,
                seq: d.event_seq,
                milestone_index: index,
                amount: m.amount,
                released_total,
                completed,
                timestamp: now,
            }))
        }
    }
}

/// `release_milestone`; on success the event's `amount` is what the vault pays
/// the payee.
pub fn handle_release_milestone(ctx: &ReleaseMilestone, deal: &mut Deal, index: u8, now: i64)
    -> (r: Result<MilestoneReleased, EscrowError>)
    requires
        old(deal).layout_ok(),
    ensures
        applied(release_milestone_step(*old(deal), *ctx, index, now), *old(deal), *final(deal), r),
{
    deal.require_state(DealState::Active)?;
    if index >= deal.num_milestones {
        return Err(EscrowError::MilestoneOutOfRange);
    }
    let mut milestone = deal.milestones[index as usize];
    if milestone.released {
        return Err(EscrowError::MilestoneAlreadyReleased);
    }
    if count_ones(milestone.approvals) < deal.approval_threshold as u32 {
        return Err(EscrowError::InsufficientApprovals);
    }
    // Milestones release in order: partial performance pays out progressively.
    let mut j: usize = 0;
    while j < index as usize
        invariant
            j <= index,
            *deal == *old(deal),
            deal.state == DealState::Active,
            !deal.milestones[index as int].released,
            popcount(deal.milestones[index as int].approvals) >= deal.approval_threshold,
            index < deal.num_milestones,
            deal.layout_ok(),
            forall|k: int| 0 <= k < j ==> #[trigger] deal.milestones[k].released,
        decreases index - j,
    {
        if !deal.milestones[j].released {
            assert(!deal.milestones[j as int].released);
            assert(!priors_released(*old(deal), index as int));
            return Err(EscrowError::MilestonesOutOfOrder);
        }
        j = j + 1;
    }
    let amount = milestone.amount;
    let released_total = match deal.released_total.checked_add(amount) {
        Some(t) => t,
        None => {
            return Err(EscrowError::Overflow);
        },
    };
    milestone.released = true;
    deal.milestones[index as usize] = milestone;
    deal.released_total = released_total;
    let ghost d1 = *deal;
    let n = deal.num_milestones as usize;
    let mut completed = true;
    let mut k: usize = 0;
    while k < n
        invariant
            k <= n,
            n == deal.num_milestones,
            *deal == d1,
            deal.layout_ok(),
            completed == priors_released(*deal, k as int),
        decreases n - k,
    {
        if !deal.milestones[k].released {
            completed = false;
        }
        k = k + 1;
    }
    if completed {
        deal.state = DealState::Completed;
    }
    let seq = deal.next_seq();
    Ok(MilestoneReleased {
        deal: ctx.deal,
        seq,
        milestone_index: index,
        amount,
        released_total: deal.released_total,
        completed,
        timestamp: now,
    })
}

} // verus!
