use vstd::prelude::*;

use crate::error::{AccountError, EscrowError};
use crate::events::{CancelSigned, DealCancelled};
use crate::instructions::{
    applied, check_deal_binding, check_party_token_account, deal_binding_spec, party_token_account_spec,
    TokenAccountInfo,
};
use crate::pubkey::Pubkey;
use crate::state::{Deal, DealState};

verus! {

/// Accounts of `cancel_draft`: the cancelling party and the deal.
#[derive(Clone, Copy, Debug)]
pub struct CancelDraft {
    pub party: Pubkey,
    pub deal: Pubkey,
}

/// In Draft, before every party has signed, any single party can walk away.
pub open spec fn cancel_draft_step(d: Deal, ctx: CancelDraft, now: i64) -> Result<(Deal, DealCancelled), EscrowError> {
    if d.state != DealState::Draft {
        Err(EscrowError::InvalidState)
    } else if d.party_index_spec(ctx.party) is None {
        Err(EscrowError::NotAParty)
    } else {
        let d2 = Deal { state: DealState::Cancelled, event_seq: d.event_seq.saturating_add(1), ..d };
        Ok((d2, DealCancelled { deal: ctx.deal, seq: d.event_seq, refunded_to_payer: 0, timestamp: now }))
    }
}

pub fn handle_cancel_draft(ctx: &CancelDraft, deal: &mut Deal, now: i64) -> (r: Result<DealCancelled, EscrowError>)
    requires
        old(deal).layout_ok(),
    ensures
        applied(cancel_draft_step(*old(deal), *ctx, now), *old(deal), *final(deal), r),
{
    deal.require_state(DealState::Draft)?;
    deal.require_party(&ctx.party)?;
    deal.state = DealState::Cancelled;
    let seq = deal.next_seq();
    Ok(DealCancelled { deal: ctx.deal, seq, refunded_to_payer: 0, timestamp: now })
}

/// Accounts of `cancel_sign`: the signing party, the deal, its mint, vault and
/// token program, and the payer's token account that receives any refund.
#[derive(Clone, Copy, Debug)]
pub struct CancelSign {
    pub party: Pubkey,
    pub deal: Pubkey,
    pub mint: Pubkey,
    pub vault: Pubkey,
    pub payer_token_account: TokenAccountInfo,
    pub token_program: Pubkey,
}

impl CancelSign {
    pub open spec fn validate_spec(self, d: Deal) -> Result<(), AccountError> {
        match deal_binding_spec(d, self.mint, self.vault, self.token_program) {
            Err(e) => Err(e),
            Ok(()) => party_token_account_spec(d, self.payer_token_account, d.payer_idx),
        }
    }

    /// The account constraints checked before the instruction runs.
    pub fn validate(&self, d: &Deal) -> (r: Result<(), AccountError>)
        requires
            d.layout_ok(),
        ensures
            r == self.validate_spec(*d),
    {
        check_deal_binding(d, &self.mint, &self.vault, &self.token_program)?;
        check_party_token_account(d, &self.payer_token_account, d.payer_idx)
    }
}

/// What `cancel_sign` emits: the signature, and the cancellation once every
/// party has signed.
#[derive(Clone, Copy, Debug, PartialEq, Eq)]
pub struct CancelSignOutcome {
    pub signed: CancelSigned,
    /// `Some` when this signature completed the mutual cancel; the whole vault
    /// balance (`refunded_to_payer`) then goes back to the payer.
    pub cancelled: Option<DealCancelled>,
}

/// After signing, cancellation is mutual: once every party has signed (in
/// Signed or Funded), the whole vault balance refunds to the payer.
pub open spec fn cancel_sign_step(d: Deal, ctx: CancelSign, vault_amount: u64, now: i64)
    -> Result<(Deal, CancelSignOutcome), EscrowError>
{
    if d.state != DealState::Signed && d.state != DealState::Funded {
        Err(EscrowError::InvalidState)
    } else {
        match d.party_index_spec(ctx.party) {
            None => Err(EscrowError::NotAParty),
            Some(idx) => {
                let approvals = d.cancel_approvals | (1u8 << idx);
                let all_signed = approvals == d.all_parties_mask_spec();
                let signed = CancelSigned { deal: ctx.deal, seq: d.event_seq, party: ctx.party, all_signed, timestamp: now };
                let seq1 = d.event_seq.saturating_add(1);
                if all_signed {
                    let d2 = Deal {
                        cancel_approvals: approvals,
                        state: DealState::Cancelled,
                        event_seq: seq1.saturating_add(1),
                        ..d
                    };
                    Ok((d2, CancelSignOutcome {
                        signed,
                        cancelled: Some(DealCancelled { deal: ctx.deal, seq: seq1, refunded_to_payer: vault_amount, timestamp: now }),
                    }))
                } else {
                    let d2 = Deal { cancel_approvals: approvals, event_seq: seq1, ..d };
                    Ok((d2, CancelSignOutcome { signed, cancelled: None }))
                }
            },
        }
    }
}

pub fn handle_cancel_sign(ctx: &CancelSign, deal: &mut Deal, vault_amount: u64, now: i64)
    -> (r: Result<CancelSignOutcome, EscrowError>)
    requires
        old(deal).layout_ok(),
    ensures
        applied(cancel_sign_step(*old(deal), *ctx, vault_amount, now), *old(deal), *final(deal), r),
{
    if deal.state != DealState::Signed && deal.state != DealState::Funded {
        return Err(EscrowError::InvalidState);
    }
    let idx = deal.require_party(&ctx.party)?;
    deal.cancel_approvals = deal.cancel_approvals | (1u8 << idx);
    let all_signed = deal.cancel_approvals == deal.all_parties_mask();
    let seq = deal.next_seq();
    let signed = CancelSigned { deal: ctx.deal, seq, party: ctx.party, all_signed, timestamp: now };
    if all_signed {
        let refund = vault_amount;
        deal.state = DealState::Cancelled;
        let seq = deal.next_seq();
        Ok(CancelSignOutcome {
            signed,
            cancelled: Some(DealCancelled { deal: ctx.deal, seq, refunded_to_payer: refund, timestamp: now }),
        })
    } else {
        Ok(CancelSignOutcome { signed, cancelled: None })
    }
}

} // verus!
