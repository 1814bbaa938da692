//! Properties of the escrow that hold across instructions.

use vstd::prelude::*;

use crate::error::EscrowError;
use crate::instructions::approve_milestone::{approve_milestone_step, ApproveMilestone};
use crate::instructions::cancel::{cancel_draft_step, cancel_sign_step, CancelDraft, CancelSign};
use crate::instructions::confirm_ready::{confirm_ready_step, ConfirmReady};
use crate::instructions::deposit::{deposit_step, Deposit};
use crate::instructions::raise_deadlock::{raise_deadlock_step, withdraw_deadlock_step, RaiseDeadlock, WithdrawDeadlock};
use crate::instructions::recovery::{recovery_execute_step, recovery_sign_step, RecoveryExecute, RecoverySign};
use crate::instructions::release_milestone::{release_milestone_step, ReleaseMilestone};
use crate::instructions::resolve::{resolution_sign_step, resolve_step, ResolutionSign, Resolve};
use crate::instructions::sign_terms::{sign_terms_step, SignTerms};
use crate::instructions::create_deal::{create_check_spec, create_deal_spec, is_created_deal, milestone_sum, CreateDeal, CreateDealParams};
use crate::pubkey::Pubkey;
use crate::bits::popcount;
use crate::constants::BPS_DENOMINATOR;
use crate::instructions::raise_deadlock::activation_elapsed;
use crate::instructions::release_milestone::priors_released;
use crate::instructions::resolve::{resolution_spec, timeout_payout_spec};
use crate::state::{amounts_sum, is_time_rule, released_sum, Deal, DealState, DeadlockRule, Milestone, ResolutionPath, TimerMode};

verus! {

/// An instruction on an existing deal, with the inputs it reads.
#[allow(inconsistent_fields)]
pub enum Instruction {
    SignTerms { ctx: SignTerms, consent_true_deadlock: bool, now: i64 },
    Deposit { ctx: Deposit, amount: u64, vault_before: u64, vault_after: u64, now: i64 },
    ConfirmReady { ctx: ConfirmReady, now: i64 },
    ApproveMilestone { ctx: ApproveMilestone, index: u8, now: i64 },
    ReleaseMilestone { ctx: ReleaseMilestone, index: u8, now: i64 },
    RaiseDeadlock { ctx: RaiseDeadlock, now: i64 },
    WithdrawDeadlock { ctx: WithdrawDeadlock, now: i64 },
    ResolutionSign { ctx: ResolutionSign, amount_to_payee: u64, now: i64 },
    Resolve { ctx: Resolve, now: i64, remaining: u64 },
    RecoverySign { ctx: RecoverySign, amount_to_payee: u64, now: i64 },
    RecoveryExecute { ctx: RecoveryExecute, now: i64, remaining: u64 },
    CancelDraft { ctx: CancelDraft, now: i64 },
    CancelSign { ctx: CancelSign, vault_amount: u64, now: i64 },
}

/// The deal after the instruction, or why it was refused.
pub open spec fn step(d: Deal, ins: Instruction) -> Result<Deal, EscrowError> {
    match ins {
        Instruction::SignTerms { ctx, consent_true_deadlock, now } => match sign_terms_step(d, ctx, consent_true_deadlock, now) {
            Ok((d2, _)) => Ok(d2),
            Err(e) => Err(e),
        },
        Instruction::Deposit { ctx, amount, vault_before, vault_after, now } => match deposit_step(d, ctx, amount, vault_before, vault_after, now) {
            Ok((d2, _)) => Ok(d2),
            Err(e) => Err(e),
        },
        Instruction::ConfirmReady { ctx, now } => match confirm_ready_step(d, ctx, now) {
            Ok((d2, _)) => Ok(d2),
            Err(e) => Err(e),
        },
        Instruction::ApproveMilestone { ctx, index, now } => match approve_milestone_step(d, ctx, index, now) {
            Ok((d2, _)) => Ok(d2),
            Err(e) => Err(e),
        },
        Instruction::ReleaseMilestone { ctx, index, now } => match release_milestone_step(d, ctx, index, now) {
            Ok((d2, _)) => Ok(d2),
            Err(e) => Err(e),
        },
        Instruction::RaiseDeadlock { ctx, now } => match raise_deadlock_step(d, ctx, now) {
            Ok((d2, _)) => Ok(d2),
            Err(e) => Err(e),
        },
        Instruction::WithdrawDeadlock { ctx, now } => match withdraw_deadlock_step(d, ctx, now) {
            Ok((d2, _)) => Ok(d2),
            Err(e) => Err(e),
        },
        Instruction::ResolutionSign { ctx, amount_to_payee, now } => match resolution_sign_step(d, ctx, amount_to_payee, now) {
            Ok((d2, _)) => Ok(d2),
            Err(e) => Err(e),
        },
        Instruction::Resolve { ctx, now, remaining } => match resolve_step(d, ctx, now, remaining) {
            Ok((d2, _)) => Ok(d2),
            Err(e) => Err(e),
        },
        Instruction::RecoverySign { ctx, amount_to_payee, now } => match recovery_sign_step(d, ctx, amount_to_payee, now) {
            Ok((d2, _)) => Ok(d2),
            Err(e) => Err(e),
        },
        Instruction::RecoveryExecute { ctx, now, remaining } => match recovery_execute_step(d, ctx, now, remaining) {
            Ok((d2, _)) => Ok(d2),
            Err(e) => Err(e),
        },
        Instruction::CancelDraft { ctx, now } => match cancel_draft_step(d, ctx, now) {
            Ok((d2, _)) => Ok(d2),
            Err(e) => Err(e),
        },
        Instruction::CancelSign { ctx, vault_amount, now } => match cancel_sign_step(d, ctx, vault_amount, now) {
            Ok((d2, _)) => Ok(d2),
            Err(e) => Err(e),
        },
    }
}

/// The fund-flow parameters fixed at formation: parties and roles,
/// thresholds, asset, milestone amounts, deadlock rule, recovery set.
pub open spec fn same_terms(a: Deal, b: Deal) -> bool {
    &&& a.deal_id == b.deal_id
    &&& a.creator == b.creator
    &&& a.num_parties == b.num_parties
    &&& a.parties == b.parties
    &&& a.payer_idx == b.payer_idx
    &&& a.payee_idx == b.payee_idx
    &&& a.approval_threshold == b.approval_threshold
    &&& a.terms_hash == b.terms_hash
    &&& a.mint == b.mint
    &&& a.token_program == b.token_program
    &&& a.vault == b.vault
    &&& a.total_amount == b.total_amount
    &&& a.risk_flags == b.risk_flags
    &&& a.accepted_risk_flags == b.accepted_risk_flags
    &&& a.num_milestones == b.num_milestones
    &&& forall|i: int| 0 <= i < 16 ==> #[trigger] a.milestones[i].amount == b.milestones[i].amount
    &&& a.deadlock_rule == b.deadlock_rule
    &&& a.timer_mode == b.timer_mode
    &&& a.timeout_secs == b.timeout_secs
    &&& a.split_bps == b.split_bps
    &&& a.tie_breaker == b.tie_breaker
    &&& a.num_recovery == b.num_recovery
    &&& a.recovery_threshold == b.recovery_threshold
    &&& a.recovery_signers == b.recovery_signers
    &&& a.recovery_delay_secs == b.recovery_delay_secs
}

/// No instruction changes a fund-flow parameter: parties, thresholds,
/// milestone amounts, the deadlock rule and the recovery set are fixed at
/// formation (in particular, frozen once every party has signed).
pub proof fn law_terms_never_change(d: Deal, ins: Instruction)
    requires
        d.layout_ok(),
        step(d, ins) is Ok,
    ensures
        same_terms(d, step(d, ins)->Ok_0),
{
    broadcast use vstd::array::group_array_axioms;
    let d2 = step(d, ins)->Ok_0;
    match ins {
        Instruction::ApproveMilestone { ctx, index, now } => {
            assert forall|i: int| 0 <= i < 16 implies #[trigger] d.milestones[i].amount == d2.milestones[i].amount by {
                assert(d2.milestones@ == d.milestones@.update(index as int, d2.milestones@[index as int]));
            }
        },
        Instruction::ReleaseMilestone { ctx, index, now } => {
            assert forall|i: int| 0 <= i < 16 implies #[trigger] d.milestones[i].amount == d2.milestones[i].amount by {
                assert(d2.milestones@ == d.milestones@.update(index as int, d2.milestones@[index as int]));
            }
        },
        _ => {},
    }
}

/// Replacing one milestone changes the sums by that milestone's contribution.
pub proof fn lemma_sums_update(ms: Seq<Milestone>, n: int, idx: int, nm: Milestone)
    requires
        0 <= idx < n <= ms.len(),
    ensures
        amounts_sum(ms.update(idx, nm), n) == amounts_sum(ms, n) - ms[idx].amount + nm.amount,
        released_sum(ms.update(idx, nm), n) == released_sum(ms, n) - (if ms[idx].released {
            ms[idx].amount as int
        } else {
            0
        }) + (if nm.released { nm.amount as int } else { 0 }),
    decreases n,
{
    if n - 1 > idx {
        lemma_sums_update(ms, n - 1, idx, nm);
    } else {
        lemma_sums_prefix_unchanged(ms, ms.update(idx, nm), n - 1);
    }
}

/// Sums over a prefix depend only on that prefix.
pub proof fn lemma_sums_prefix_unchanged(a: Seq<Milestone>, b: Seq<Milestone>, n: int)
    requires
        0 <= n <= a.len(),
        n <= b.len(),
        forall|i: int| 0 <= i < n ==> a[i] == b[i],
    ensures
        amounts_sum(a, n) == amounts_sum(b, n),
        released_sum(a, n) == released_sum(b, n),
    decreases n,
{
    if n > 0 {
        lemma_sums_prefix_unchanged(a, b, n - 1);
    }
}

/// What has been released never exceeds the total of the milestones.
pub proof fn lemma_released_within_total(ms: Seq<Milestone>, n: int)
    requires
        0 <= n <= ms.len(),
    ensures
        0 <= released_sum(ms, n) <= amounts_sum(ms, n),
    decreases n,
{
    if n > 0 {
        lemma_released_within_total(ms, n - 1);
    }
}

/// Every instruction keeps a well-formed deal well-formed: the payee is paid
/// exactly the released milestones, never beyond the total; the vault is never
/// credited beyond the total; a deal past funding is fully funded; the
/// formation rules keep holding.
pub proof fn law_instructions_keep_wf(d: Deal, ins: Instruction)
    requires
        d.wf(),
        step(d, ins) is Ok,
    ensures
        step(d, ins)->Ok_0.wf(),
{
    broadcast use vstd::array::group_array_axioms;
    let d2 = step(d, ins)->Ok_0;
    law_terms_never_change(d, ins);
    let m = d.num_milestones as int;
    match ins {
        Instruction::ApproveMilestone { ctx, index, now } => {
            let i = index as int;
            assert(d2.milestones@ == d.milestones@.update(i, d2.milestones@[i]));
            lemma_sums_update(d.milestones@, m, i, d2.milestones@[i]);
        },
        Instruction::ReleaseMilestone { ctx, index, now } => {
            let i = index as int;
            assert(d2.milestones@ == d.milestones@.update(i, d2.milestones@[i]));
            lemma_sums_update(d.milestones@, m, i, d2.milestones@[i]);
        },
        _ => {
            assert(d2.milestones == d.milestones);
        },
    }
}

/// The checked milestone sum is the plain sum, and every amount is positive.
pub proof fn lemma_milestone_sum(s: Seq<u64>, ms: Seq<Milestone>)
    requires
        s.len() <= ms.len(),
        forall|i: int| 0 <= i < s.len() ==> #[trigger] ms[i].amount == s[i],
        milestone_sum(s) is Ok,
    ensures
        amounts_sum(ms, s.len() as int) == milestone_sum(s)->Ok_0,
        forall|i: int| 0 <= i < s.len() ==> #[trigger] s[i] > 0,
    decreases s.len(),
{
    if s.len() > 0 {
        let t = s.drop_last();
        assert forall|i: int| 0 <= i < t.len() implies #[trigger] ms[i].amount == t[i] by {
            assert(t[i] == s[i]);
        }
        lemma_milestone_sum(t, ms);
        assert forall|i: int| 0 <= i < s.len() implies #[trigger] s[i] > 0 by {
            if i < t.len() {
                assert(t[i] == s[i]);
            }
        }
    }
}

/// A deal as `create_deal` writes it is well-formed.
pub proof fn law_created_deal_wf(d: Deal, ctx: CreateDeal, p: CreateDealParams, flags: u16, now: i64)
    requires
        create_deal_spec(p, ctx.creator, flags) is Ok,
        is_created_deal(d, ctx, p, flags, now),
    ensures
        d.wf(),
{
    let s = p.milestone_amounts@;
    assert forall|i: int| 0 <= i < s.len() implies #[trigger] d.milestones@[i].amount == s[i] by {
        assert(d.milestones[i].amount == s[i]);
    }
    lemma_milestone_sum(s, d.milestones@);
    assert forall|i: int| 0 <= i < d.num_milestones implies #[trigger] d.milestones[i].amount > 0 by {
        assert(d.milestones@[i].amount == s[i]);
    }
    lemma_nothing_released(d.milestones@, d.num_milestones as int);
    if p.deadlock_rule == crate::state::DeadlockRule::TieBreaker {
        assert(!p.tie_breaker.is_default_spec());
    }
}

/// With no milestone released, nothing has been released.
pub proof fn lemma_nothing_released(ms: Seq<Milestone>, n: int)
    requires
        0 <= n <= ms.len(),
        forall|i: int| 0 <= i < n ==> !(#[trigger] ms[i]).released,
    ensures
        released_sum(ms, n) == 0,
    decreases n,
{
    if n > 0 {
        lemma_nothing_released(ms, n - 1);
    }
}

/// The deals reachable by a run of instructions from `d`: the last deal, or
/// the first refusal.
pub open spec fn run(d: Deal, ins: Seq<Instruction>) -> Result<Deal, EscrowError>
    decreases ins.len(),
{
    if ins.len() == 0 {
        Ok(d)
    } else {
        match run(d, ins.drop_last()) {
            Err(e) => Err(e),
            Ok(d1) => step(d1, ins.last()),
        }
    }
}

/// Every deal reachable from a newly created deal is well-formed and keeps
/// the terms it was created with.
pub proof fn law_runs_from_creation_keep_wf(
    d: Deal,
    ctx: CreateDeal,
    p: CreateDealParams,
    flags: u16,
    now: i64,
    ins: Seq<Instruction>,
)
    requires
        create_deal_spec(p, ctx.creator, flags) is Ok,
        is_created_deal(d, ctx, p, flags, now),
        run(d, ins) is Ok,
    ensures
        run(d, ins)->Ok_0.wf(),
        same_terms(d, run(d, ins)->Ok_0),
    decreases ins.len(),
{
    law_created_deal_wf(d, ctx, p, flags, now);
    if ins.len() > 0 {
        law_runs_from_creation_keep_wf(d, ctx, p, flags, now, ins.drop_last());
        let d1 = run(d, ins.drop_last())->Ok_0;
        law_instructions_keep_wf(d1, ins.last());
        law_terms_never_change(d1, ins.last());
    }
}

/// A true-deadlock deal never resolves by time, in any timer mode: the only
/// way `resolve` pays out is the parties' mutual sign-off.
pub proof fn law_true_deadlock_only_mutual(d: Deal, ctx: Resolve, now: i64, remaining: u64)
    requires
        d.deadlock_rule == DeadlockRule::TrueDeadlock,
        resolve_step(d, ctx, now, remaining) is Ok,
    ensures
        resolve_step(d, ctx, now, remaining)->Ok_0.1.path == ResolutionPath::Mutual,
{
}

/// A tie-breaker deal has no timeout path: it resolves by mutual sign-off or
/// by the tie-breaker's decision.
pub proof fn law_tie_breaker_never_times_out(d: Deal, ctx: Resolve, now: i64, remaining: u64)
    requires
        d.deadlock_rule == DeadlockRule::TieBreaker,
        resolve_step(d, ctx, now, remaining) is Ok,
    ensures
        resolve_step(d, ctx, now, remaining)->Ok_0.1.path == ResolutionPath::Mutual
            || resolve_step(d, ctx, now, remaining)->Ok_0.1.path == ResolutionPath::TieBreaker,
{
}

/// Mutual resolution is always available from Deadlocked, under every rule
/// and timer mode: a proposal every party approved that fits in the vault
/// pays out as proposed, the rest going back to the payer.
pub proof fn law_mutual_resolution_always_available(d: Deal, ctx: Resolve, now: i64, remaining: u64)
    requires
        d.state == DealState::Deadlocked,
        d.proposal_active,
        d.resolution_approvals == d.all_parties_mask_spec(),
        d.proposed_to_payee <= remaining,
    ensures
        resolve_step(d, ctx, now, remaining) is Ok,
        resolve_step(d, ctx, now, remaining)->Ok_0.1.path == ResolutionPath::Mutual,
        resolve_step(d, ctx, now, remaining)->Ok_0.1.paid_to_payee == d.proposed_to_payee,
        resolve_step(d, ctx, now, remaining)->Ok_0.1.refunded_to_payer == remaining - d.proposed_to_payee,
        resolve_step(d, ctx, now, remaining)->Ok_0.0.state == DealState::Completed,
{
}

/// A resolution pays out exactly the vault balance: the payee's share plus
/// the payer's refund is what the vault holds, and the deal completes.
pub proof fn law_resolution_splits_the_vault(d: Deal, ctx: Resolve, now: i64, remaining: u64)
    requires
        resolve_step(d, ctx, now, remaining) is Ok,
    ensures
        resolve_step(d, ctx, now, remaining)->Ok_0.1.paid_to_payee
            + resolve_step(d, ctx, now, remaining)->Ok_0.1.refunded_to_payer == remaining,
        resolve_step(d, ctx, now, remaining)->Ok_0.0.state == DealState::Completed,
{
}

/// The AutoSplit rule pays the payee `split_bps` basis points of the vault,
/// rounded down, and the payer the remainder; the payee's share never exceeds
/// the vault.
pub proof fn law_auto_split_share(d: Deal, remaining: u64)
    requires
        d.deadlock_rule == DeadlockRule::AutoSplit,
        d.split_bps <= BPS_DENOMINATOR,
    ensures
        timeout_payout_spec(d, remaining) == Ok::<u64, EscrowError>(
            (remaining as int * d.split_bps as int / 10_000) as u64,
        ),
        remaining as int * d.split_bps as int / 10_000 <= remaining,
{
    assert(remaining as int * d.split_bps as int <= remaining as int * 10_000) by (nonlinear_arith)
        requires
            d.split_bps <= 10_000,
    ;
    assert(remaining as int * d.split_bps as int / 10_000 <= remaining) by (nonlinear_arith)
        requires
            remaining as int * d.split_bps as int <= remaining as int * 10_000,
    ;
}

/// In FromActivation mode a raised dispute pauses the clock: while the deal
/// is Deadlocked, no time-based resolution fires, however much time passes;
/// only mutual sign-off (or recovery) moves the funds.
pub proof fn law_dispute_pauses_activation_clock(d: Deal, ctx: Resolve, now: i64, remaining: u64)
    requires
        d.wf(),
        d.state == DealState::Deadlocked,
        d.timer_mode == TimerMode::FromActivation,
        !(d.proposal_active && d.resolution_approvals == d.all_parties_mask_spec()),
    ensures
        resolve_step(d, ctx, now, remaining) == Err::<(Deal, crate::events::DealResolved), EscrowError>(
            EscrowError::TimeoutPausedByDispute,
        ),
{
    if d.deadlock_rule == DeadlockRule::AutoSplit {
        law_auto_split_share(d, remaining);
    }
}

/// A timeout cannot be blocked by a party going dark: once the timeout has
/// run since the deadlock was raised (FromDeadlock mode, a time-based rule,
/// no all-party proposal pending), anyone can resolve by the rule.
pub proof fn law_deadlock_timeout_cannot_be_blocked(d: Deal, ctx: Resolve, now: i64, remaining: u64)
    requires
        d.wf(),
        d.state == DealState::Deadlocked,
        d.timer_mode == TimerMode::FromDeadlock,
        is_time_rule(d.deadlock_rule),
        !(d.proposal_active && d.resolution_approvals == d.all_parties_mask_spec()),
        d.deadlock_raised_at + d.timeout_secs <= i64::MAX,
        now >= d.deadlock_raised_at + d.timeout_secs,
    ensures
        resolve_step(d, ctx, now, remaining) is Ok,
        resolve_step(d, ctx, now, remaining)->Ok_0.1.path == ResolutionPath::Timeout,
        resolve_step(d, ctx, now, remaining)->Ok_0.1.paid_to_payee == timeout_payout_spec(d, remaining)->Ok_0,
{
    if d.deadlock_rule == DeadlockRule::AutoSplit {
        law_auto_split_share(d, remaining);
    }
    assert(d.deadlock_raised_at + d.timeout_secs >= i64::MIN);
}

/// In FromActivation mode an active deal auto-resolves by its rule once the
/// activation clock has run for `timeout_secs`, with no deadlock ever raised.
pub proof fn law_activation_timeout_cannot_be_blocked(d: Deal, ctx: Resolve, now: i64, remaining: u64)
    requires
        d.wf(),
        d.state == DealState::Active,
        d.timer_mode == TimerMode::FromActivation,
        activation_elapsed(d, now) matches Some(e) && e >= d.timeout_secs,
    ensures
        resolve_step(d, ctx, now, remaining) is Ok,
        resolve_step(d, ctx, now, remaining)->Ok_0.1.path == ResolutionPath::Timeout,
{
    if d.deadlock_rule == DeadlockRule::AutoSplit {
        law_auto_split_share(d, remaining);
    }
}

/// A recovery payout executes only after its notice delay, with its
/// threshold of signatures, and pays out exactly the vault balance to the two
/// parties: the proposed amount to the payee, the rest to the payer.
pub proof fn law_recovery_respects_notice(d: Deal, ctx: RecoveryExecute, now: i64, remaining: u64)
    requires
        recovery_execute_step(d, ctx, now, remaining) is Ok,
    ensures
        d.recovery_ready_at > 0,
        now >= d.recovery_ready_at + d.recovery_delay_secs,
        popcount(d.recovery_approvals) >= d.recovery_threshold,
        recovery_execute_step(d, ctx, now, remaining)->Ok_0.1.paid_to_payee == d.recovery_proposed_to_payee,
        recovery_execute_step(d, ctx, now, remaining)->Ok_0.1.paid_to_payee
            + recovery_execute_step(d, ctx, now, remaining)->Ok_0.1.refunded_to_payer == remaining,
{
}

/// A party proposing a different payout replaces the proposal: only the
/// proposer's approval stands, and any tie-breaker decision is cleared.
pub proof fn law_changed_proposal_resets_approvals(d: Deal, ctx: ResolutionSign, amount_to_payee: u64, now: i64)
    requires
        d.layout_ok(),
        !(d.deadlock_rule == DeadlockRule::TieBreaker && ctx.signer == d.tie_breaker),
        amount_to_payee != d.proposed_to_payee,
        resolution_sign_step(d, ctx, amount_to_payee, now) is Ok,
    ensures
        ({
            let d2 = resolution_sign_step(d, ctx, amount_to_payee, now)->Ok_0.0;
            &&& d2.proposal_active
            &&& d2.proposed_to_payee == amount_to_payee
            &&& d2.resolution_approvals == 1u8 << d.party_index_spec(ctx.signer)->Some_0
            &&& !d2.tie_breaker_decided
        }),
{
}

/// A recovery signer signing a different amount replaces the proposal: only
/// that signature stands, and the notice clock restarts.
pub proof fn law_changed_recovery_proposal_restarts(d: Deal, ctx: RecoverySign, amount_to_payee: u64, now: i64)
    requires
        d.recovery_proposal_active,
        amount_to_payee != d.recovery_proposed_to_payee,
        recovery_sign_step(d, ctx, amount_to_payee, now) is Ok,
    ensures
        ({
            let d2 = recovery_sign_step(d, ctx, amount_to_payee, now)->Ok_0.0;
            &&& d2.recovery_proposed_to_payee == amount_to_payee
            &&& d2.recovery_approvals == 1u8 << d.recovery_index_spec(ctx.signer)->Some_0
            &&& (d2.recovery_ready_at == 0 || d2.recovery_ready_at == now)
        }),
{
}

/// Only the party who raised a deadlock can withdraw it.
pub proof fn law_only_raiser_withdraws(d: Deal, ctx: WithdrawDeadlock, now: i64)
    requires
        withdraw_deadlock_step(d, ctx, now) is Ok,
    ensures
        ctx.party == d.deadlock_raised_by,
{
}

/// Raising and withdrawing a dispute in FromActivation mode pauses and
/// resumes the clock: the seconds run before the dispute stay banked, the
/// paused time does not count, the deal is Active again with any proposal
/// discarded.
pub proof fn law_withdraw_resumes_activation_clock(
    d: Deal,
    raise: RaiseDeadlock,
    t1: i64,
    withdraw: WithdrawDeadlock,
    t2: i64,
    t3: i64,
)
    requires
        d.timer_mode == TimerMode::FromActivation,
        raise_deadlock_step(d, raise, t1) is Ok,
        withdraw_deadlock_step(raise_deadlock_step(d, raise, t1)->Ok_0.0, withdraw, t2) is Ok,
    ensures
        ({
            let d2 = withdraw_deadlock_step(raise_deadlock_step(d, raise, t1)->Ok_0.0, withdraw, t2)->Ok_0.0;
            &&& withdraw.party == raise.party
            &&& d2.state == DealState::Active
            &&& d2.elapsed_at_pause == activation_elapsed(d, t1)->Some_0
            &&& d2.last_resumed_at == t2
            &&& activation_elapsed(d2, t3) == activation_elapsed(d, t1)->Some_0.checked_add(
                crate::bits::sat_sub_i64_spec(t3, t2),
            )
            &&& !d2.proposal_active && d2.resolution_approvals == 0 && !d2.tie_breaker_decided
        }),
{
}

/// Milestones release strictly in order, each only with its threshold of
/// approvals, and each pays exactly its amount.
pub proof fn law_milestones_release_in_order(d: Deal, ctx: ReleaseMilestone, index: u8, now: i64)
    requires
        release_milestone_step(d, ctx, index, now) is Ok,
    ensures
        priors_released(d, index as int),
        !d.milestones[index as int].released,
        popcount(d.milestones[index as int].approvals) >= d.approval_threshold,
        release_milestone_step(d, ctx, index, now)->Ok_0.1.amount == d.milestones[index as int].amount,
{
}

/// On a well-formed deal a release is refused only for the stated reasons,
/// never for arithmetic: the payee's running total stays within the deal's
/// total.
pub proof fn law_release_never_overflows(d: Deal, ctx: ReleaseMilestone, index: u8, now: i64)
    requires
        d.wf(),
        d.state == DealState::Active,
        index < d.num_milestones,
        !d.milestones[index as int].released,
        popcount(d.milestones[index as int].approvals) >= d.approval_threshold,
        priors_released(d, index as int),
    ensures
        release_milestone_step(d, ctx, index, now) is Ok,
        release_milestone_step(d, ctx, index, now)->Ok_0.0.released_total <= d.total_amount,
{
    broadcast use vstd::array::group_array_axioms;
    let m = d.num_milestones as int;
    let i = index as int;
    let nm = Milestone { released: true, ..d.milestones[i] };
    lemma_sums_update(d.milestones@, m, i, nm);
    lemma_released_within_total(d.milestones@.update(i, nm), m);
}

/// The mutual cancel completes only when every party has signed, and then
/// refunds the whole vault balance to the payer.
pub proof fn law_mutual_cancel_refunds_payer(d: Deal, ctx: CancelSign, vault_amount: u64, now: i64)
    requires
        cancel_sign_step(d, ctx, vault_amount, now) matches Ok((_, o)) && o.cancelled is Some,
    ensures
        ({
            let (d2, o) = cancel_sign_step(d, ctx, vault_amount, now)->Ok_0;
            &&& d2.cancel_approvals == d.all_parties_mask_spec()
            &&& d2.state == DealState::Cancelled
            &&& o.cancelled->Some_0.refunded_to_payer == vault_amount
        }),
{
}

/// Every accepted instruction advances the event sequence: one number per
/// event emitted (two when a mutual cancel completes), saturating at the top.
pub proof fn law_event_seq_advances(d: Deal, ins: Instruction)
    requires
        step(d, ins) is Ok,
    ensures
        step(d, ins)->Ok_0.event_seq >= d.event_seq,
        step(d, ins)->Ok_0.event_seq == d.event_seq.saturating_add(1)
            || step(d, ins)->Ok_0.event_seq == d.event_seq.saturating_add(1).saturating_add(1),
{
}


/// What the deal's time-based rule gives the payee out of `remaining`:
/// everything under TimeoutRelease, nothing under TimeoutRefund and
/// LongSunset, `split_bps` basis points rounded down under AutoSplit.
pub open spec fn rule_share(rule: DeadlockRule, split_bps: u16, remaining: u64) -> int {
    if rule == DeadlockRule::TimeoutRelease {
        remaining as int
    } else if rule == DeadlockRule::AutoSplit {
        remaining as int * split_bps as int / 10_000
    } else {
        0
    }
}

/// A recovery signature on the amount already proposed never moves a notice
/// clock that has started: the proposal keeps its start time, and the
/// signature is added to the ones already given.
pub proof fn law_same_recovery_amount_keeps_notice_clock(d: Deal, ctx: RecoverySign, amount_to_payee: u64, now: i64)
    requires
        d.recovery_proposal_active,
        amount_to_payee == d.recovery_proposed_to_payee,
        d.recovery_ready_at > 0,
        recovery_sign_step(d, ctx, amount_to_payee, now) is Ok,
    ensures
        ({
            let (d2, ev) = recovery_sign_step(d, ctx, amount_to_payee, now)->Ok_0;
            &&& d2.recovery_ready_at == d.recovery_ready_at
            &&& d2.recovery_proposed_to_payee == d.recovery_proposed_to_payee
            &&& d2.recovery_approvals == d.recovery_approvals | (1u8 << d.recovery_index_spec(ctx.signer)->Some_0)
            &&& ev.executable_at == d.recovery_ready_at + d.recovery_delay_secs
        }),
{
}

/// The notice clock starts at the signature that brings the current proposal
/// to its threshold, and not before: a signature that leaves a proposal not
/// yet at its threshold leaves the clock unset, one that reaches it starts the
/// clock now.
pub proof fn law_recovery_clock_starts_at_threshold(d: Deal, ctx: RecoverySign, amount_to_payee: u64, now: i64)
    requires
        d.layout_ok(),
        d.recovery_ready_at == 0 || !d.recovery_proposal_active || amount_to_payee != d.recovery_proposed_to_payee,
        recovery_sign_step(d, ctx, amount_to_payee, now) is Ok,
    ensures
        ({
            let (d2, ev) = recovery_sign_step(d, ctx, amount_to_payee, now)->Ok_0;
            &&& popcount(d2.recovery_approvals) >= d.recovery_threshold ==> d2.recovery_ready_at == now
            &&& popcount(d2.recovery_approvals) < d.recovery_threshold ==> d2.recovery_ready_at == 0
            &&& ev.signatures == popcount(d2.recovery_approvals)
            &&& d2.recovery_approvals & (1u8 << d.recovery_index_spec(ctx.signer)->Some_0) != 0
        }),
{
    let idx = d.recovery_index_spec(ctx.signer)->Some_0;
    let d2 = recovery_sign_step(d, ctx, amount_to_payee, now)->Ok_0.0;
    let a = d.recovery_approvals;
    let signers = d.recovery_signers@.take(d.num_recovery as int);
    signers.index_of_first_ensures(ctx.signer);
    assert(idx < 8);
    assert(idx < 8 ==> (1u8 << idx) & (1u8 << idx) != 0) by (bit_vector);
    assert(idx < 8 ==> (a | (1u8 << idx)) & (1u8 << idx) != 0) by (bit_vector);
    crate::bits::lemma_popcount_at_most_8(d2.recovery_approvals);
}

/// A resolution by time pays the payee what the deal's rule gives, whichever
/// way the clock ran (from activation while Active, or from the dispute), and
/// refunds the payer the rest. An Active deal resolves only this way.
pub proof fn law_timeout_resolution_pays_by_rule(d: Deal, ctx: Resolve, now: i64, remaining: u64)
    requires
        resolve_step(d, ctx, now, remaining) is Ok,
        d.state == DealState::Active || resolve_step(d, ctx, now, remaining)->Ok_0.1.path == ResolutionPath::Timeout,
    ensures
        ({
            let ev = resolve_step(d, ctx, now, remaining)->Ok_0.1;
            &&& ev.path == ResolutionPath::Timeout
            &&& is_time_rule(d.deadlock_rule)
            &&& ev.paid_to_payee == rule_share(d.deadlock_rule, d.split_bps, remaining)
            &&& ev.refunded_to_payer == remaining - rule_share(d.deadlock_rule, d.split_bps, remaining)
        }),
{
}

/// A deadlock raised at `now` records `now` as its start and the raiser, and
/// the dispute clock runs from there: in FromDeadlock mode no resolution by
/// time of the disputed deal succeeds before `now + timeout_secs`.
pub proof fn law_dispute_clock_starts_when_raised(
    d: Deal,
    raise: RaiseDeadlock,
    now: i64,
    res: Resolve,
    later: i64,
    remaining: u64,
)
    requires
        raise_deadlock_step(d, raise, now) is Ok,
        d.timer_mode == TimerMode::FromDeadlock,
    ensures
        ({
            let d2 = raise_deadlock_step(d, raise, now)->Ok_0.0;
            &&& d2.state == DealState::Deadlocked
            &&& d2.deadlock_raised_at == now
            &&& d2.deadlock_raised_by == raise.party
            &&& (resolve_step(d2, res, later, remaining) matches Ok((_, ev)) && ev.path == ResolutionPath::Timeout
                ==> later >= now + d.timeout_secs)
        }),
{
}

/// Nothing is released from a deal that is not Active: while it is
/// disputed, cancelled, completed or not yet active, `release_milestone`
/// refuses.
pub proof fn law_release_only_when_active(d: Deal, ctx: ReleaseMilestone, index: u8, now: i64)
    requires
        release_milestone_step(d, ctx, index, now) is Ok,
    ensures
        d.state == DealState::Active,
{
}

/// The formation rules ask of the creator only that it be one of the
/// parties: any two parties creating the same deal get the same answer, and a
/// deal is formed only by one of its parties.
pub proof fn law_creator_only_needs_membership(p: CreateDealParams, c1: Pubkey, c2: Pubkey, flags: u16)
    requires
        p.parties@.contains(c1),
        p.parties@.contains(c2),
    ensures
        create_check_spec(p, c1) == create_check_spec(p, c2),
        create_deal_spec(p, c1, flags) == create_deal_spec(p, c2, flags),
{
}

/// Only a party can form a deal.
pub proof fn law_creator_is_a_party(p: CreateDealParams, creator: Pubkey)
    requires
        create_check_spec(p, creator) is Ok,
    ensures
        p.parties@.contains(creator),
{
}

/// Recovery signatures are taken only after funding, while funds are in the
/// vault (Funded, Active or Deadlocked), and only from the deal's own recovery
/// signers; the event reports the proposal as it now stands.
pub proof fn law_recovery_sign_who_and_when(d: Deal, ctx: RecoverySign, amount_to_payee: u64, now: i64)
    requires
        recovery_sign_step(d, ctx, amount_to_payee, now) is Ok,
    ensures
        d.state == DealState::Funded || d.state == DealState::Active || d.state == DealState::Deadlocked,
        d.recovery_index_spec(ctx.signer) is Some,
        ({
            let (d2, ev) = recovery_sign_step(d, ctx, amount_to_payee, now)->Ok_0;
            &&& d2.recovery_proposal_active
            &&& d2.recovery_proposed_to_payee == amount_to_payee
            &&& ev.proposed_to_payee == amount_to_payee
            &&& ev.threshold == d.recovery_threshold
            &&& ev.executable_at == (if d2.recovery_ready_at > 0 {
                d2.recovery_ready_at + d.recovery_delay_secs
            } else {
                0
            })
            &&& d2.state == d.state
            &&& d2.deposited == d.deposited
            &&& d2.released_total == d.released_total
            &&& d2.milestones == d.milestones
        }),
{
}

/// A recovery payout happens only after funding and goes exactly as the
/// signed proposal says; the deal then completes.
pub proof fn law_recovery_execute_pays_the_proposal(d: Deal, ctx: RecoveryExecute, now: i64, remaining: u64)
    requires
        recovery_execute_step(d, ctx, now, remaining) is Ok,
    ensures
        d.state == DealState::Funded || d.state == DealState::Active || d.state == DealState::Deadlocked,
        d.recovery_proposal_active,
        d.recovery_proposed_to_payee <= remaining,
        ({
            let (d2, ev) = recovery_execute_step(d, ctx, now, remaining)->Ok_0;
            &&& ev.path == ResolutionPath::Recovery
            &&& ev.refunded_to_payer == remaining - d.recovery_proposed_to_payee
            &&& d2.state == DealState::Completed
        }),
{
}

/// How each resolution path comes about: only an Active or Deadlocked deal
/// resolves; by mutual sign-off only when every party approved the proposal;
/// by the tie-breaker only under the TieBreaker rule once it decided; both pay
/// the proposed amount. A time-based resolution of an Active deal needs the
/// FromActivation clock to have run its course, of a Deadlocked deal the
/// FromDeadlock clock since the dispute was raised.
pub proof fn law_resolution_paths(d: Deal, ctx: Resolve, now: i64, remaining: u64)
    requires
        resolve_step(d, ctx, now, remaining) is Ok,
    ensures
        d.state == DealState::Active || d.state == DealState::Deadlocked,
        ({
            let ev = resolve_step(d, ctx, now, remaining)->Ok_0.1;
            &&& ev.path == ResolutionPath::Mutual ==> d.state == DealState::Deadlocked && d.proposal_active
                && d.resolution_approvals == d.all_parties_mask_spec() && ev.paid_to_payee == d.proposed_to_payee
            &&& ev.path == ResolutionPath::TieBreaker ==> d.state == DealState::Deadlocked
                && d.deadlock_rule == DeadlockRule::TieBreaker && d.tie_breaker_decided
                && ev.paid_to_payee == d.proposed_to_payee
            &&& ev.path != ResolutionPath::Recovery
            &&& (ev.path == ResolutionPath::Timeout && d.state == DealState::Active) ==> (d.timer_mode
                == TimerMode::FromActivation && activation_elapsed(d, now) is Some
                && activation_elapsed(d, now)->Some_0 >= d.timeout_secs)
            &&& (ev.path == ResolutionPath::Timeout && d.state == DealState::Deadlocked) ==> d.timer_mode
                == TimerMode::FromDeadlock && now >= d.deadlock_raised_at + d.timeout_secs
        }),
{
}

/// Only a party can raise a deadlock, and only on an Active deal. In
/// FromActivation mode the activation clock pauses with the seconds run so
/// far banked; in FromDeadlock mode nothing is banked. Any pending proposal
/// is left as it was.
pub proof fn law_raise_deadlock_pauses(d: Deal, ctx: RaiseDeadlock, now: i64)
    requires
        raise_deadlock_step(d, ctx, now) is Ok,
    ensures
        d.state == DealState::Active,
        d.party_index_spec(ctx.party) is Some,
        ({
            let (d2, ev) = raise_deadlock_step(d, ctx, now)->Ok_0;
            &&& d.timer_mode == TimerMode::FromActivation ==> d2.elapsed_at_pause == d.elapsed_at_pause
                + crate::bits::sat_sub_i64_spec(now, d.last_resumed_at)
            &&& d.timer_mode == TimerMode::FromDeadlock ==> d2.elapsed_at_pause == d.elapsed_at_pause
            &&& ev.raised_by == ctx.party
            &&& ev.timestamp == now
            &&& d2.proposal_active == d.proposal_active
            &&& d2.deposited == d.deposited
            &&& d2.milestones == d.milestones
        }),
{
}

/// A release marks exactly the released milestone, adds its amount to the
/// payee's running total, and completes the deal exactly when it was the last
/// milestone still held.
pub proof fn law_release_marks_and_completes(d: Deal, ctx: ReleaseMilestone, index: u8, now: i64)
    requires
        d.layout_ok(),
        release_milestone_step(d, ctx, index, now) is Ok,
    ensures
        ({
            let (d2, ev) = release_milestone_step(d, ctx, index, now)->Ok_0;
            &&& d2.milestones[index as int].released
            &&& d2.milestones[index as int].amount == d.milestones[index as int].amount
            &&& forall|j: int| 0 <= j < 16 && j != index ==> d2.milestones[j] == d.milestones[j]
            &&& d2.released_total == d.released_total + d.milestones[index as int].amount
            &&& ev.completed == (forall|j: int| 0 <= j < d.num_milestones && j != index ==> #[trigger] d.milestones[j].released)
            &&& d2.state == (if ev.completed { DealState::Completed } else { DealState::Active })
        }),
{
    broadcast use vstd::array::group_array_axioms;
    let (d2, ev) = release_milestone_step(d, ctx, index, now)->Ok_0;
    if ev.completed {
        assert forall|j: int| 0 <= j < d.num_milestones && j != index implies #[trigger] d.milestones[j].released by {
            assert(d2.milestones[j].released);
        }
    }
    if forall|j: int| 0 <= j < d.num_milestones && j != index ==> #[trigger] d.milestones[j].released {
        assert forall|j: int| 0 <= j < d2.num_milestones implies #[trigger] d2.milestones[j].released by {
            if j != index {
                assert(d.milestones[j].released);
            }
        }
    }
}

/// The plain sum of a sequence of amounts.
pub open spec fn plain_sum(s: Seq<u64>) -> int
    decreases s.len(),
{
    if s.len() == 0 {
        0
    } else {
        plain_sum(s.drop_last()) + s.last()
    }
}

/// The checked milestone sum succeeds exactly when every amount is positive
/// and the sum fits in a `u64`, and then it is the plain sum.
pub proof fn lemma_milestone_sum_exact(s: Seq<u64>)
    ensures
        (milestone_sum(s) is Ok) == ((forall|i: int| 0 <= i < s.len() ==> #[trigger] s[i] > 0) && plain_sum(s)
            <= u64::MAX),
        milestone_sum(s) is Ok ==> milestone_sum(s)->Ok_0 == plain_sum(s),
    decreases s.len(),
{
    if s.len() > 0 {
        let t = s.drop_last();
        lemma_milestone_sum_exact(t);
        assert forall|i: int| 0 <= i < t.len() implies t[i] == s[i] by {}
        if forall|i: int| 0 <= i < s.len() ==> #[trigger] s[i] > 0 {
            assert forall|i: int| 0 <= i < t.len() implies #[trigger] t[i] > 0 by {
                assert(s[i] > 0);
            }
        }
        if milestone_sum(s) is Ok {
            assert forall|i: int| 0 <= i < s.len() implies #[trigger] s[i] > 0 by {
                if i < t.len() {
                    assert(t[i] > 0);
                } else {
                    assert(s[i] == s.last());
                }
            }
        }
    }
}

/// The formation rules, stated as what a well-formed deal needs: two to eight
/// distinct parties including the creator; distinct payer and payee among
/// them; an approval threshold between one and the number of parties; one to
/// sixteen milestones, each positive, summing to a positive total; a positive
/// timeout for the time-based rules; a tie-breaker that is set and not a
/// party; no activation clock for the rules with no timeout path; a
/// non-negative recovery delay; a split of at most the whole; one to three
/// distinct recovery signers with a threshold between one and their number.
pub proof fn law_formation_rules(p: CreateDealParams, creator: Pubkey)
    ensures
        (create_check_spec(p, creator) is Ok) == ({
            let parties = p.parties@;
            let n = parties.len();
            let amounts = p.milestone_amounts@;
            let m = amounts.len();
            let rs = p.recovery_signers@;
            let r = rs.len();
            &&& 2 <= n <= 8
            &&& parties.no_duplicates()
            &&& parties.contains(creator)
            &&& p.payer_idx < n && p.payee_idx < n && p.payer_idx != p.payee_idx
            &&& 1 <= p.approval_threshold <= n
            &&& 1 <= m <= 16
            &&& p.total_amount > 0
            &&& forall|i: int| 0 <= i < m ==> #[trigger] amounts[i] > 0
            &&& plain_sum(amounts) == p.total_amount
            &&& (p.deadlock_rule == DeadlockRule::TimeoutRelease || p.deadlock_rule == DeadlockRule::TimeoutRefund
                || p.deadlock_rule == DeadlockRule::AutoSplit || p.deadlock_rule == DeadlockRule::LongSunset)
                ==> p.timeout_secs > 0
            &&& p.deadlock_rule == DeadlockRule::TieBreaker ==> !p.tie_breaker.is_default_spec()
                && !parties.contains(p.tie_breaker)
            &&& (p.deadlock_rule == DeadlockRule::TieBreaker || p.deadlock_rule == DeadlockRule::TrueDeadlock)
                ==> p.timer_mode == TimerMode::FromDeadlock
            &&& p.recovery_delay_secs >= 0
            &&& p.deadlock_rule == DeadlockRule::AutoSplit ==> p.split_bps <= 10_000
            &&& 1 <= r <= 3
            &&& 1 <= p.recovery_threshold <= r
            &&& rs.no_duplicates()
        }),
{
    lemma_milestone_sum_exact(p.milestone_amounts@);
}

/// A deposit is taken only from the deal's payer, on a Signed deal, for a
/// positive amount. The deal is credited with what the vault received (its
/// balance after minus before), never beyond the total; the deal is Funded
/// exactly when the credits reach the total.
pub proof fn law_deposit_credits_what_arrived(
    d: Deal,
    ctx: Deposit,
    amount: u64,
    vault_before: u64,
    vault_after: u64,
    now: i64,
)
    requires
        deposit_step(d, ctx, amount, vault_before, vault_after, now) is Ok,
    ensures
        d.state == DealState::Signed,
        amount > 0,
        d.party_index_spec(ctx.payer) == Some(d.payer_idx),
        vault_before <= vault_after,
        ({
            let (d2, ev) = deposit_step(d, ctx, amount, vault_before, vault_after, now)->Ok_0;
            &&& ev.amount_credited == vault_after - vault_before
            &&& d2.deposited == d.deposited + (vault_after - vault_before)
            &&& d2.deposited <= d.total_amount
            &&& d2.state == (if d2.deposited == d.total_amount { DealState::Funded } else { DealState::Signed })
            &&& ev.fully_funded == (d2.deposited == d.total_amount)
        }),
{
}

/// A deposit whose arrival would take the credits past the total is refused.
pub proof fn law_deposit_refuses_overfunding(
    d: Deal,
    ctx: Deposit,
    amount: u64,
    vault_before: u64,
    vault_after: u64,
    now: i64,
)
    requires
        d.state == DealState::Signed,
        amount > 0,
        d.party_index_spec(ctx.payer) == Some(d.payer_idx),
        vault_before <= vault_after,
        d.deposited + (vault_after - vault_before) <= u64::MAX,
        d.deposited + (vault_after - vault_before) > d.total_amount,
    ensures
        deposit_step(d, ctx, amount, vault_before, vault_after, now) == Err::<(Deal, crate::events::DepositReceived), EscrowError>(
            EscrowError::OverFunded,
        ),
{
}

/// A party's approval of a milestone adds that party's bit to the milestone's
/// approvals and changes nothing else of the milestones; approving again is
/// harmless.
pub proof fn law_approval_adds_the_party(d: Deal, ctx: ApproveMilestone, index: u8, now: i64, later: i64)
    requires
        d.layout_ok(),
        approve_milestone_step(d, ctx, index, now) is Ok,
    ensures
        d.state == DealState::Active,
        index < d.num_milestones,
        !d.milestones[index as int].released,
        d.party_index_spec(ctx.party) is Some,
        ({
            let (d2, ev) = approve_milestone_step(d, ctx, index, now)->Ok_0;
            let bit = 1u8 << d.party_index_spec(ctx.party)->Some_0;
            &&& d2.milestones[index as int].approvals == d.milestones[index as int].approvals | bit
            &&& d2.milestones[index as int].amount == d.milestones[index as int].amount
            &&& !d2.milestones[index as int].released
            &&& forall|j: int| 0 <= j < 16 && j != index ==> d2.milestones[j] == d.milestones[j]
            &&& ev.approvals == d2.milestones[index as int].approvals
            &&& approve_milestone_step(d2, ctx, index, later) is Ok
            &&& approve_milestone_step(d2, ctx, index, later)->Ok_0.0.milestones == d2.milestones
        }),
{
    broadcast use vstd::array::group_array_axioms;
    let idx = d.party_index_spec(ctx.party)->Some_0;
    let a = d.milestones[index as int].approvals;
    assert((a | (1u8 << idx)) | (1u8 << idx) == a | (1u8 << idx)) by (bit_vector);
    let (d2, _) = approve_milestone_step(d, ctx, index, now)->Ok_0;
    let d3 = approve_milestone_step(d2, ctx, index, later)->Ok_0.0;
    assert(d3.milestones =~= d2.milestones);
}

/// A party signs the terms of a Draft deal once; under TrueDeadlock only with
/// consent, recorded. The signature's time is recorded, and the deal becomes
/// Signed exactly when every party has signed.
pub proof fn law_sign_terms_records_the_signature(d: Deal, ctx: SignTerms, consent: bool, now: i64)
    requires
        d.layout_ok(),
        sign_terms_step(d, ctx, consent, now) is Ok,
    ensures
        d.state == DealState::Draft,
        d.party_index_spec(ctx.party) is Some,
        d.signed & (1u8 << d.party_index_spec(ctx.party)->Some_0) == 0,
        d.deadlock_rule == DeadlockRule::TrueDeadlock ==> consent,
        ({
            let (d2, ev) = sign_terms_step(d, ctx, consent, now)->Ok_0;
            let idx = d.party_index_spec(ctx.party)->Some_0;
            &&& d2.signed == d.signed | (1u8 << idx)
            &&& d2.parties_signed_at[idx as int] == now
            &&& d2.state == (if d2.signed == d.all_parties_mask_spec() { DealState::Signed } else { DealState::Draft })
            &&& ev.all_signed == (d2.signed == d.all_parties_mask_spec())
            &&& ev.terms_hash == d.terms_hash
            &&& d.deadlock_rule == DeadlockRule::TrueDeadlock ==> d2.deadlock_consent == d.deadlock_consent | (1u8 << idx)
        }),
{
    broadcast use vstd::array::group_array_axioms;
    d.parties@.take(d.num_parties as int).index_of_first_ensures(ctx.party);
}

/// A party confirms readiness of a Funded deal once; the deal becomes Active,
/// with its activation clock started now, exactly when every party is ready.
pub proof fn law_confirm_ready_activates(d: Deal, ctx: ConfirmReady, now: i64)
    requires
        confirm_ready_step(d, ctx, now) is Ok,
    ensures
        d.state == DealState::Funded,
        d.party_index_spec(ctx.party) is Some,
        ({
            let (d2, ev) = confirm_ready_step(d, ctx, now)->Ok_0;
            let idx = d.party_index_spec(ctx.party)->Some_0;
            &&& d2.ready == d.ready | (1u8 << idx)
            &&& ev.all_ready == (d2.ready == d.all_parties_mask_spec())
            &&& ev.all_ready ==> d2.state == DealState::Active && d2.activated_at == now && d2.last_resumed_at == now
            &&& !ev.all_ready ==> d2.state == DealState::Funded
        }),
{
}

/// The raiser withdraws a dispute: the deal is Active again with its clock
/// resumed now and its banked seconds kept, and any proposal or tie-breaker
/// decision is discarded.
pub proof fn law_withdraw_discards_proposal(d: Deal, ctx: WithdrawDeadlock, now: i64)
    requires
        withdraw_deadlock_step(d, ctx, now) is Ok,
    ensures
        d.state == DealState::Deadlocked,
        ({
            let (d2, ev) = withdraw_deadlock_step(d, ctx, now)->Ok_0;
            &&& d2.state == DealState::Active
            &&& d2.last_resumed_at == now
            &&& d2.elapsed_at_pause == d.elapsed_at_pause
            &&& ev.elapsed_secs == d.elapsed_at_pause
            &&& !d2.proposal_active && d2.resolution_approvals == 0 && !d2.tie_breaker_decided
        }),
{
}

/// In Draft any single party can cancel, and nothing is refunded (nothing was
/// deposited); from then on a cancel needs every party and refunds the payer.
pub proof fn law_cancel_draft_by_any_party(d: Deal, ctx: CancelDraft, now: i64)
    requires
        cancel_draft_step(d, ctx, now) is Ok,
    ensures
        d.state == DealState::Draft,
        d.party_index_spec(ctx.party) is Some,
        cancel_draft_step(d, ctx, now)->Ok_0.0.state == DealState::Cancelled,
        cancel_draft_step(d, ctx, now)->Ok_0.1.refunded_to_payer == 0,
{
}

/// A cancel signature after signing is taken from a party of a Signed or
/// Funded deal and recorded; the deal stays as it was until every party has
/// signed.
pub proof fn law_cancel_sign_records_the_party(d: Deal, ctx: CancelSign, vault_amount: u64, now: i64)
    requires
        cancel_sign_step(d, ctx, vault_amount, now) is Ok,
    ensures
        d.state == DealState::Signed || d.state == DealState::Funded,
        d.party_index_spec(ctx.party) is Some,
        ({
            let (d2, o) = cancel_sign_step(d, ctx, vault_amount, now)->Ok_0;
            &&& d2.cancel_approvals == d.cancel_approvals | (1u8 << d.party_index_spec(ctx.party)->Some_0)
            &&& (o.cancelled is Some) == (d2.cancel_approvals == d.all_parties_mask_spec())
            &&& o.signed.all_signed == (o.cancelled is Some)
            &&& o.cancelled is None ==> d2.state == d.state
        }),
{
}

/// Under the TieBreaker rule the tie-breaker's signature on a disputed deal
/// decides the payout, whatever was proposed before; a party's signature on
/// the amount already proposed adds its approval.
pub proof fn law_resolution_signatures(d: Deal, ctx: ResolutionSign, amount_to_payee: u64, now: i64)
    requires
        d.state == DealState::Deadlocked,
    ensures
        (d.deadlock_rule == DeadlockRule::TieBreaker && ctx.signer == d.tie_breaker) ==> ({
            let r = resolution_sign_step(d, ctx, amount_to_payee, now);
            &&& r is Ok
            &&& r->Ok_0.0.tie_breaker_decided
            &&& r->Ok_0.0.proposal_active
            &&& r->Ok_0.0.proposed_to_payee == amount_to_payee
            &&& r->Ok_0.1.is_tie_breaker
        }),
        (!(d.deadlock_rule == DeadlockRule::TieBreaker && ctx.signer == d.tie_breaker) && d.proposal_active
            && amount_to_payee == d.proposed_to_payee && d.party_index_spec(ctx.signer) is Some) ==> ({
            let r = resolution_sign_step(d, ctx, amount_to_payee, now);
            &&& r is Ok
            &&& r->Ok_0.0.resolution_approvals == d.resolution_approvals | (1u8 << d.party_index_spec(ctx.signer)->Some_0)
            &&& r->Ok_0.0.proposed_to_payee == d.proposed_to_payee
            &&& r->Ok_0.0.tie_breaker_decided == d.tie_breaker_decided
        }),
{
}

} // verus!
