use vstd::prelude::*;

use crate::error::EscrowError;
use crate::events::TermsSigned;
use crate::instructions::applied;
use crate::pubkey::Pubkey;
use crate::state::{Deal, DealState, DeadlockRule};

verus! {

/// Accounts of `sign_terms`: the signing party and the deal.
#[derive(Clone, Copy, Debug)]
pub struct SignTerms {
    pub party: Pubkey,
    pub deal: Pubkey,
}

/// A party signs the terms hash. Under the TrueDeadlock rule the party must
/// also consent to it. The last signature moves the deal to Signed, after which
/// no instruction changes a fund-flow parameter.
pub open spec fn sign_terms_step(d: Deal, ctx: SignTerms, consent_true_deadlock: bool, now: i64)
    -> Result<(Deal, TermsSigned), EscrowError>
{
    if d.state != DealState::Draft {
        Err(EscrowError::InvalidState)
    } else {
        match d.party_index_spec(ctx.party) {
            None => Err(EscrowError::NotAParty),
            Some(idx) => {
                let bit = 1u8 << idx;
                if d.signed & bit != 0 {
                    Err(EscrowError::AlreadySigned)
                } else if d.deadlock_rule == DeadlockRule::TrueDeadlock && !consent_true_deadlock {
                    Err(EscrowError::TrueDeadlockConsentRequired)
                } else {
                    let signed = d.signed | bit;
                    let all_signed = signed == d.all_parties_mask_spec();
                    let d2 = Deal {
                        deadlock_consent: if d.deadlock_rule == DeadlockRule::TrueDeadlock {
                            d.deadlock_consent | bit
                        } else {
                            d.deadlock_consent
                        },
                        signed,
                        parties_signed_at: vstd::array::spec_array_update(
                            d.parties_signed_at,
                            idx as int,
                            now,
                        ),
                        state: if all_signed { DealState::Signed } else { d.state },
                        signed_at: if all_signed { now } else { d.signed_at },
                        event_seq: d.event_seq.saturating_add(1),
                        ..d
                    };
                    Ok((d2, TermsSigned {
                        deal: ctx.deal,
                        seq: d.event_seq,
                        party: ctx.party,
                        party_index: idx,
                        terms_hash: d.terms_hash,
                        all_signed,
                        timestamp: now,
                    }))
                }
            },
        }
    }
}

pub fn handle_sign_terms(
    ctx: &SignTerms,
    deal: &mut Deal,
    consent_true_deadlock: bool,
    now: i64,
) -> (r: Result<TermsSigned, EscrowError>)
    requires
        old(deal).layout_ok(),
    ensures
        applied(sign_terms_step(*old(deal), *ctx, consent_true_deadlock, now), *old(deal), *final(deal), r),
{
    deal.require_state(DealState::Draft)?;
    let idx = deal.require_party(&ctx.party)?;
    let bit = 1u8 << idx;
    if deal.signed & bit != 0 {
        return Err(EscrowError::AlreadySigned);
    }
    if deal.deadlock_rule == DeadlockRule::TrueDeadlock {
        if !consent_true_deadlock {
            return Err(EscrowError::TrueDeadlockConsentRequired);
        }
        deal.deadlock_consent = deal.deadlock_consent | bit;
    }
    deal.signed = deal.signed | bit;
    deal.parties_signed_at[idx as usize] = now;
    let all_signed = deal.signed == deal.all_parties_mask();
    if all_signed {
        // From here every fund-flow parameter is frozen.
        deal.state = DealState::Signed;
        deal.signed_at = now;
    }
    let seq = deal.next_seq();
    Ok(TermsSigned {
        deal: ctx.deal,
        seq,
        party: ctx.party,
        party_index: idx,
        terms_hash: deal.terms_hash,
        all_signed,
        timestamp: now,
    })
}

} // verus!
