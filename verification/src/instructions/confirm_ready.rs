use vstd::prelude::*;

use crate::error::EscrowError;
use crate::events::PartyReady;
use crate::instructions::applied;
use crate::pubkey::Pubkey;
use crate::state::{Deal, DealState};

verus! {

/// Accounts of `confirm_ready`: the confirming party and the deal.
#[derive(Clone, Copy, Debug)]
pub struct ConfirmReady {
    pub party: Pubkey,
    pub deal: Pubkey,
}

/// A party confirms readiness of a funded deal; the last confirmation
/// activates it and starts the activation clock.
pub open spec fn confirm_ready_step(d: Deal, ctx: ConfirmReady, now: i64) -> Result<(Deal, PartyReady), EscrowError> {
    if d.state != DealState::Funded {
        Err(EscrowError::InvalidState)
    } else {
        match d.party_index_spec(ctx.party) {
            None => Err(EscrowError::NotAParty),
            Some(idx) => {
                let bit = 1u8 << idx;
                if d.ready & bit != 0 {
                    Err(EscrowError::AlreadySigned)
                } else {
                    let ready = d.ready | bit;
                    let all_ready = ready == d.all_parties_mask_spec();
                    let d2 = Deal {
                        ready,
                        state: if all_ready { DealState::Active } else { d.state },
                        activated_at: if all_ready { now } else { d.activated_at },
                        last_resumed_at: if all_ready { now } else { d.last_resumed_at },
                        event_seq: d.event_seq.saturating_add(1),
                        ..d
                    };
                    Ok((d2, PartyReady { deal: ctx.deal, seq: d.event_seq, party: ctx.party, all_ready, timestamp: now }))
                }
            },
        }
    }
}

pub fn handle_confirm_ready(ctx: &ConfirmReady, deal: &mut Deal, now: i64) -> (r: Result<PartyReady, EscrowError>)
    requires
        old(deal).layout_ok(),
    ensures
        applied(confirm_ready_step(*old(deal), *ctx, now), *old(deal), *final(deal), r),
{
    deal.require_state(DealState::Funded)?;
    let idx = deal.require_party(&ctx.party)?;
    let bit = 1u8 << idx;
    if deal.ready & bit != 0 {
        return Err(EscrowError::AlreadySigned);
    }
    deal.ready = deal.ready | bit;
    let all_ready = deal.ready == deal.all_parties_mask();
    if all_ready {
        deal.state = DealState::Active;
        deal.activated_at = now;
        // FromActivation timer mode: the clock starts running now.
        deal.last_resumed_at = now;
    }
    let seq = deal.next_seq();
    Ok(PartyReady { deal: ctx.deal, seq, party: ctx.party, all_ready, timestamp: now })
}

} // verus!
