use vstd::prelude::*;

use crate::error::EscrowError;
use crate::events::MilestoneApproved;
use crate::instructions::applied;
use crate::pubkey::Pubkey;
use crate::state::{Deal, DealState, Milestone};

verus! {

/// Accounts of `approve_milestone`: the approving party and the deal.
#[derive(Clone, Copy, Debug)]
pub struct ApproveMilestone {
    pub party: Pubkey,
    pub deal: Pubkey,
}

/// A party approves an unreleased milestone of an active deal (idempotent per party).
pub open spec fn approve_milestone_step(d: Deal, ctx: ApproveMilestone, index: u8, now: i64)
    -> Result<(Deal, MilestoneApproved), EscrowError>
{
    if d.state != DealState::Active {
        Err(EscrowError::InvalidState)
    } else if index >= d.num_milestones {
        Err(EscrowError::MilestoneOutOfRange)
    } else {
        match d.party_index_spec(ctx.party) {
            None => Err(EscrowError::NotAParty),
            Some(idx) => {
                let m = d.milestones[index as int];
                if m.released {
                    Err(EscrowError::MilestoneAlreadyReleased)
                } else {
                    let approvals = m.approvals | (1u8 << idx);
                    let d2 = Deal {
                        milestones: vstd::array::spec_array_update(
                            d.milestones,
                            index as int,
                            Milestone { approvals, ..m },
                        ),
                        event_seq: d.event_seq.saturating_add(1),
                        ..d
                    };
                    Ok((d2, MilestoneApproved {
                        deal: ctx.deal,
                        seq: d.event_seq,
                        milestone_index: index,
                        party: ctx.party,
                        approvals,
                        timestamp: now,
                    }))
                }
            },
        }
    }
}

pub fn handle_approve_milestone(ctx: &ApproveMilestone, deal: &mut Deal, index: u8, now: i64)
    -> (r: Result<MilestoneApproved, EscrowError>)
    requires
        old(deal).layout_ok(),
    ensures
        applied(approve_milestone_step(*old(deal), *ctx, index, now), *old(deal), *final(deal), r),
{
    deal.require_state(DealState::Active)?;
    if index >= deal.num_milestones {
        return Err(EscrowError::MilestoneOutOfRange);
    }
    let idx = deal.require_party(&ctx.party)?;
    let mut milestone = deal.milestones[index as usize];
    if milestone.released {
        return Err(EscrowError::MilestoneAlreadyReleased);
    }
    milestone.approvals = milestone.approvals | (1u8 << idx);
    deal.milestones[index as usize] = milestone;
    let approvals = milestone.approvals;
    let seq = deal.next_seq();
    Ok(MilestoneApproved { deal: ctx.deal, seq, milestone_index: index, party: ctx.party, approvals, timestamp: now })
}

} // verus!
