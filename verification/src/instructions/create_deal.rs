use vstd::prelude::*;

use crate::constants::{BPS_DENOMINATOR, MAX_MILESTONES, MAX_PARTIES, MAX_RECOVERY_SIGNERS, STATE_VERSION};
use crate::error::EscrowError;
use crate::events::DealCreated;
use crate::pubkey::Pubkey;
use crate::state::{is_time_rule, Deal, DealState, DeadlockRule, Milestone, TimerMode};

verus! {

/// Everything the creator fixes at formation.
#[derive(Clone, Debug)]
pub struct CreateDealParams {
    pub deal_id: u64,
    pub parties: Vec<Pubkey>,
    pub payer_idx: u8,
    pub payee_idx: u8,
    pub approval_threshold: u8,
    pub terms_hash: [u8; 32],
    pub price_risk_term: u8,
    pub total_amount: u64,
    pub milestone_amounts: Vec<u64>,
    pub deadlock_rule: DeadlockRule,
    pub timer_mode: TimerMode,
    pub timeout_secs: i64,
    pub split_bps: u16,
    pub tie_breaker: Pubkey,
    pub recovery_signers: Vec<Pubkey>,
    pub recovery_threshold: u8,
    pub recovery_delay_secs: i64,
    pub accepted_risk_flags: u16,
}

/// Accounts of `create_deal`: the creator (a party), the new deal account and
/// its address bump, the mint, the vault (the deal's associated token account)
/// and the token program.
#[derive(Clone, Copy, Debug)]
pub struct CreateDeal {
    pub creator: Pubkey,
    pub deal: Pubkey,
    pub bump: u8,
    pub mint: Pubkey,
    pub vault: Pubkey,
    pub token_program: Pubkey,
}

/// Sum of the milestone amounts, scanned left to right: `InvalidMilestones` at
/// the first zero amount, `Overflow` if a prefix sum exceeds `u64::MAX`.
pub open spec fn milestone_sum(amounts: Seq<u64>) -> Result<u64, EscrowError>
    decreases amounts.len(),
{
    if amounts.len() == 0 {
        Ok(0)
    } else {
        match milestone_sum(amounts.drop_last()) {
            Err(e) => Err(e),
            Ok(prefix) => if amounts.last() == 0 {
                Err(EscrowError::InvalidMilestones)
            } else if prefix + amounts.last() > u64::MAX {
                Err(EscrowError::Overflow)
            } else {
                Ok((prefix + amounts.last()) as u64)
            },
        }
    }
}

/// The formation rules, in the order they are checked.
pub open spec fn create_check_spec(p: CreateDealParams, creator: Pubkey) -> Result<(), EscrowError> {
    let parties = p.parties@;
    let n = parties.len();
    let amounts = p.milestone_amounts@;
    let m = amounts.len();
    let rs = p.recovery_signers@;
    let r = rs.len();
    if !(2 <= n <= MAX_PARTIES) {
        Err(EscrowError::InvalidParties)
    } else if !parties.no_duplicates() {
        Err(EscrowError::DuplicateParty)
    } else if !parties.contains(creator) {
        Err(EscrowError::CreatorNotParty)
    } else if !(p.payer_idx < n && p.payee_idx < n && p.payer_idx != p.payee_idx) {
        Err(EscrowError::InvalidParties)
    } else if !(1 <= p.approval_threshold <= n) {
        Err(EscrowError::InvalidThreshold)
    } else if !(1 <= m <= MAX_MILESTONES) {
        Err(EscrowError::InvalidMilestones)
    } else if p.total_amount == 0 {
        Err(EscrowError::InvalidMilestones)
    } else if milestone_sum(amounts) is Err {
        Err(milestone_sum(amounts)->Err_0)
    } else if milestone_sum(amounts)->Ok_0 != p.total_amount {
        Err(EscrowError::MilestoneSumMismatch)
    } else if is_time_rule(p.deadlock_rule) && p.timeout_secs <= 0 {
        Err(EscrowError::InvalidDeadlockParams)
    } else if p.deadlock_rule == DeadlockRule::TieBreaker && (p.tie_breaker.is_default_spec()
        || parties.contains(p.tie_breaker)) {
        Err(EscrowError::InvalidDeadlockParams)
    } else if (p.deadlock_rule == DeadlockRule::TieBreaker || p.deadlock_rule == DeadlockRule::TrueDeadlock)
        && p.timer_mode != TimerMode::FromDeadlock {
        Err(EscrowError::InvalidTimerMode)
    } else if p.recovery_delay_secs < 0 {
        Err(EscrowError::InvalidRecoveryConfig)
    } else if p.deadlock_rule == DeadlockRule::AutoSplit && p.split_bps > BPS_DENOMINATOR {
        Err(EscrowError::InvalidDeadlockParams)
    } else if !(1 <= r <= MAX_RECOVERY_SIGNERS) {
        Err(EscrowError::InvalidRecoveryConfig)
    } else if !(1 <= p.recovery_threshold <= r) {
        Err(EscrowError::InvalidRecoveryConfig)
    } else if !rs.no_duplicates() {
        Err(EscrowError::InvalidRecoveryConfig)
    } else {
        Ok(())
    }
}

/// The first `n` entries of `a` are `s`, the rest are `zero`.
pub open spec fn padded<T>(a: Seq<T>, s: Seq<T>, zero: T) -> bool {
    &&& s.len() <= a.len()
    &&& forall|i: int| 0 <= i < s.len() ==> a[i] == s[i]
    &&& forall|i: int| s.len() <= i < a.len() ==> a[i] == zero
}

/// `d` is the deal `create_deal` writes: the parameters copied in, state
/// Draft, the vetted mint's risk flags recorded, creation time `now`, one event
/// issued, every other field zero.
pub open spec fn is_created_deal(d: Deal, ctx: CreateDeal, p: CreateDealParams, flags: u16, now: i64) -> bool {
    &&& d.version == STATE_VERSION
    &&& d.bump == ctx.bump
    &&& d.deal_id == p.deal_id
    &&& d.creator == ctx.creator
    &&& d.state == DealState::Draft
    &&& d.num_parties == p.parties@.len()
    &&& padded(d.parties@, p.parties@, Pubkey::zero_spec())
    &&& d.payer_idx == p.payer_idx
    &&& d.payee_idx == p.payee_idx
    &&& d.approval_threshold == p.approval_threshold
    &&& d.signed == 0 && d.ready == 0 && d.deadlock_consent == 0 && d.cancel_approvals == 0
    &&& forall|i: int| 0 <= i < MAX_PARTIES ==> #[trigger] d.parties_signed_at[i] == 0
    &&& d.terms_hash == p.terms_hash
    &&& d.price_risk_term == p.price_risk_term
    &&& d.mint == ctx.mint
    &&& d.token_program == ctx.token_program
    &&& d.vault == ctx.vault
    &&& d.total_amount == p.total_amount
    &&& d.deposited == 0 && d.released_total == 0
    &&& d.risk_flags == flags
    &&& d.accepted_risk_flags == p.accepted_risk_flags
    &&& d.num_milestones == p.milestone_amounts@.len()
    &&& forall|i: int| 0 <= i < MAX_MILESTONES ==> #[trigger] d.milestones[i] == (Milestone {
        amount: if i < p.milestone_amounts@.len() { p.milestone_amounts@[i] } else { 0 },
        approvals: 0,
        released: false,
    })
    &&& d.deadlock_rule == p.deadlock_rule
    &&& d.timer_mode == p.timer_mode
    &&& d.timeout_secs == p.timeout_secs
    &&& d.split_bps == p.split_bps
    &&& d.tie_breaker == p.tie_breaker
    &&& d.deadlock_raised_at == 0 && d.deadlock_raised_by == Pubkey::zero_spec()
    &&& d.elapsed_at_pause == 0 && d.last_resumed_at == 0
    &&& !d.proposal_active && d.proposed_to_payee == 0 && d.resolution_approvals == 0 && !d.tie_breaker_decided
    &&& d.num_recovery == p.recovery_signers@.len()
    &&& d.recovery_threshold == p.recovery_threshold
    &&& padded(d.recovery_signers@, p.recovery_signers@, Pubkey::zero_spec())
    &&& !d.recovery_proposal_active && d.recovery_proposed_to_payee == 0 && d.recovery_approvals == 0
    &&& d.recovery_delay_secs == p.recovery_delay_secs
    &&& d.recovery_ready_at == 0
    &&& d.created_at == now && d.signed_at == 0 && d.funded_at == 0 && d.activated_at == 0
    &&& d.event_seq == 1
    &&& forall|i: int| 0 <= i < 64 ==> #[trigger] d._reserved[i] == 0
}

/// Whether `keys` has two equal entries.
fn has_duplicate(keys: &Vec<Pubkey>) -> (r: bool)
    ensures
        r == !keys@.no_duplicates(),
{
    let n = keys.len();
    let mut i: usize = 0;
    while i < n
        invariant
            n == keys@.len(),
            i <= n,
            forall|a: int, b: int| 0 <= a < i && a < b < n ==> keys@[a] != keys@[b],
        decreases n - i,
    {
        let mut j: usize = i + 1;
        while j < n
            invariant
                n == keys@.len(),
                i < n,
                i + 1 <= j <= n,
                forall|a: int, b: int| 0 <= a < i && a < b < n ==> keys@[a] != keys@[b],
                forall|b: int| i < b < j ==> keys@[i as int] != keys@[b],
            decreases n - j,
        {
            if keys[i].key_eq(&keys[j]) {
                return true;
            }
            j = j + 1;
        }
        i = i + 1;
    }
    false
}

/// Whether `key` is among `keys`.
fn contains_key(keys: &Vec<Pubkey>, key: &Pubkey) -> (r: bool)
    ensures
        r == keys@.contains(*key),
{
    let mut i: usize = 0;
    while i < keys.len()
        invariant
            i <= keys@.len(),
            forall|a: int| 0 <= a < i ==> keys@[a] != *key,
        decreases keys.len() - i,
    {
        if keys[i].key_eq(key) {
            return true;
        }
        i = i + 1;
    }
    false
}

/// Sum of the milestone amounts, checked as in `milestone_sum`.
fn sum_milestones(amounts: &Vec<u64>) -> (r: Result<u64, EscrowError>)
    ensures
        r == milestone_sum(amounts@),
{
    let mut sum: u64 = 0;
    let mut i: usize = 0;
    while i < amounts.len()
        invariant
            i <= amounts@.len(),
            milestone_sum(amounts@.take(i as int)) == Ok::<u64, EscrowError>(sum),
        decreases amounts.len() - i,
    {
        assert(amounts@.take(i + 1).drop_last() =~= amounts@.take(i as int));
        let amount = amounts[i];
        if amount == 0 {
            proof {
                lemma_milestone_sum_err_extends(amounts@, i as int + 1);
            }
            return Err(EscrowError::InvalidMilestones);
        }
        sum = match sum.checked_add(amount) {
            Some(s) => s,
            None => {
                proof {
                    lemma_milestone_sum_err_extends(amounts@, i as int + 1);
                }
                return Err(EscrowError::Overflow);
            },
        };
        i = i + 1;
    }
    assert(amounts@.take(amounts@.len() as int) =~= amounts@);
    Ok(sum)
}

/// A failed prefix fails the whole scan with the same error.
proof fn lemma_milestone_sum_err_extends(amounts: Seq<u64>, k: int)
    requires
        0 <= k <= amounts.len(),
        milestone_sum(amounts.take(k)) is Err,
    ensures
        milestone_sum(amounts) == milestone_sum(amounts.take(k)),
    decreases amounts.len() - k,
{
    if k < amounts.len() {
        assert(amounts.take(k + 1).drop_last() =~= amounts.take(k));
        lemma_milestone_sum_err_extends(amounts, k + 1);
    } else {
        assert(amounts.take(k) =~= amounts);
    }
}

/// The checks `create_deal` makes before vetting the mint.
pub fn create_deal_precheck(params: &CreateDealParams, creator: &Pubkey) -> (r: Result<(), EscrowError>)
    ensures
        r == create_check_spec(*params, *creator),
{
    let n = params.parties.len();
    if !(n >= 2 && n <= MAX_PARTIES) {
        return Err(EscrowError::InvalidParties);
    }
    if has_duplicate(&params.parties) {
        return Err(EscrowError::DuplicateParty);
    }
    if !contains_key(&params.parties, creator) {
        return Err(EscrowError::CreatorNotParty);
    }
    if !((params.payer_idx as usize) < n && (params.payee_idx as usize) < n && params.payer_idx != params.payee_idx) {
        return Err(EscrowError::InvalidParties);
    }
    if !(params.approval_threshold >= 1 && (params.approval_threshold as usize) <= n) {
        return Err(EscrowError::InvalidThreshold);
    }
    let m = params.milestone_amounts.len();
    if !(m >= 1 && m <= MAX_MILESTONES) {
        return Err(EscrowError::InvalidMilestones);
    }
    if params.total_amount == 0 {
        return Err(EscrowError::InvalidMilestones);
    }
    let sum = sum_milestones(&params.milestone_amounts)?;
    if sum != params.total_amount {
        return Err(EscrowError::MilestoneSumMismatch);
    }
    match params.deadlock_rule {
        DeadlockRule::TimeoutRelease | DeadlockRule::TimeoutRefund | DeadlockRule::AutoSplit
        | DeadlockRule::LongSunset => {
            if params.timeout_secs <= 0 {
                return Err(EscrowError::InvalidDeadlockParams);
            }
        },
        DeadlockRule::TieBreaker => {
            if params.tie_breaker.is_default() || contains_key(&params.parties, &params.tie_breaker) {
                return Err(EscrowError::InvalidDeadlockParams);
            }
        },
        DeadlockRule::TrueDeadlock => {},
    }
    // Rules with no timeout path have no clock: no configuration may create a
    // timeout backdoor into a true deadlock.
    if params.deadlock_rule == DeadlockRule::TieBreaker || params.deadlock_rule == DeadlockRule::TrueDeadlock {
        if params.timer_mode != TimerMode::FromDeadlock {
            return Err(EscrowError::InvalidTimerMode);
        }
    }
    if params.recovery_delay_secs < 0 {
        return Err(EscrowError::InvalidRecoveryConfig);
    }
    if params.deadlock_rule == DeadlockRule::AutoSplit {
        if params.split_bps as u64 > BPS_DENOMINATOR {
            return Err(EscrowError::InvalidDeadlockParams);
        }
    }
    let r = params.recovery_signers.len();
    if !(r >= 1 && r <= MAX_RECOVERY_SIGNERS) {
        return Err(EscrowError::InvalidRecoveryConfig);
    }
    if !(params.recovery_threshold >= 1 && (params.recovery_threshold as usize) <= r) {
        return Err(EscrowError::InvalidRecoveryConfig);
    }
    if has_duplicate(&params.recovery_signers) {
        return Err(EscrowError::InvalidRecoveryConfig);
    }
    Ok(())
}

/// The formation rules, then the mint's risk flags must all be accepted.
pub open spec fn create_deal_spec(p: CreateDealParams, creator: Pubkey, flags: u16) -> Result<(), EscrowError> {
    match create_check_spec(p, creator) {
        Err(e) => Err(e),
        Ok(()) => if flags & !p.accepted_risk_flags != 0 {
            Err(EscrowError::RiskFlagsNotAccepted)
        } else {
            Ok(())
        },
    }
}

/// `create_deal`, given the risk flags `vet_mint` found on the mint: checks
/// the formation rules and the flags' acceptance, then writes the new deal.
pub fn handle_create_deal(ctx: &CreateDeal, params: &CreateDealParams, mint_flags: u16, now: i64)
    -> (r: Result<(Deal, DealCreated), EscrowError>)
    ensures
        match create_deal_spec(*params, ctx.creator, mint_flags) {
            Err(e) => r == Err::<(Deal, DealCreated), EscrowError>(e),
            Ok(()) => r matches Ok((d, ev)) && is_created_deal(d, *ctx, *params, mint_flags, now) && ev == (DealCreated {
                deal: ctx.deal,
                seq: 0,
                deal_id: params.deal_id,
                creator: ctx.creator,
                mint: ctx.mint,
                total_amount: params.total_amount,
                num_parties: params.parties@.len() as u8,
                num_milestones: params.milestone_amounts@.len() as u8,
                terms_hash: params.terms_hash,
                risk_flags: mint_flags,
                timestamp: now,
            }),
        },
{
    create_deal_precheck(params, &ctx.creator)?;
    if mint_flags & !params.accepted_risk_flags != 0 {
        return Err(EscrowError::RiskFlagsNotAccepted);
    }
    let n = params.parties.len();
    let m = params.milestone_amounts.len();
    let r = params.recovery_signers.len();
    let z = Pubkey::zero();
    let mut parties: [Pubkey; MAX_PARTIES] = [z; 8];
    let mut i: usize = 0;
    while i < n
        invariant
            n == params.parties@.len(),
            n <= MAX_PARTIES,
            i <= n,
            z == Pubkey::zero_spec(),
            forall|j: int| 0 <= j < i ==> parties[j] == params.parties@[j],
            forall|j: int| i <= j < MAX_PARTIES ==> #[trigger] parties[j] == Pubkey::zero_spec(),
        decreases n - i,
    {
        parties[i] = params.parties[i];
        i = i + 1;
    }
    let zero_milestone = Milestone { amount: 0, approvals: 0, released: false };
    let mut milestones: [Milestone; MAX_MILESTONES] = [zero_milestone; 16];
    let mut k: usize = 0;
    while k < m
        invariant
            m == params.milestone_amounts@.len(),
            m <= MAX_MILESTONES,
            k <= m,
            forall|j: int| 0 <= j < k ==> milestones[j] == (Milestone {
                amount: params.milestone_amounts@[j],
                approvals: 0,
                released: false,
            }),
            forall|j: int| k <= j < MAX_MILESTONES ==> #[trigger] milestones[j] == (Milestone {
                amount: 0,
                approvals: 0,
                released: false,
            }),
        decreases m - k,
    {
        milestones[k] = Milestone { amount: params.milestone_amounts[k], approvals: 0, released: false };
        k = k + 1;
    }
    let mut recovery_signers: [Pubkey; MAX_RECOVERY_SIGNERS] = [z; 3];
    let mut q: usize = 0;
    while q < r
        invariant
            r == params.recovery_signers@.len(),
            r <= MAX_RECOVERY_SIGNERS,
            q <= r,
            z == Pubkey::zero_spec(),
            forall|j: int| 0 <= j < q ==> recovery_signers[j] == params.recovery_signers@[j],
            forall|j: int| q <= j < MAX_RECOVERY_SIGNERS ==> #[trigger] recovery_signers[j] == Pubkey::zero_spec(),
        decreases r - q,
    {
        recovery_signers[q] = params.recovery_signers[q];
        q = q + 1;
    }
    let mut deal = zeroed_deal();
    deal.version = STATE_VERSION;
    deal.bump = ctx.bump;
    deal.deal_id = params.deal_id;
    deal.creator = ctx.creator;
    deal.state = DealState::Draft;
    deal.num_parties = n as u8;
    deal.parties = parties;
    deal.payer_idx = params.payer_idx;
    deal.payee_idx = params.payee_idx;
    deal.approval_threshold = params.approval_threshold;
    deal.terms_hash = params.terms_hash;
    deal.price_risk_term = params.price_risk_term;
    deal.mint = ctx.mint;
    deal.token_program = ctx.token_program;
    deal.vault = ctx.vault;
    deal.total_amount = params.total_amount;
    deal.risk_flags = mint_flags;
    deal.accepted_risk_flags = params.accepted_risk_flags;
    deal.num_milestones = m as u8;
    deal.milestones = milestones;
    deal.deadlock_rule = params.deadlock_rule;
    deal.timer_mode = params.timer_mode;
    deal.timeout_secs = params.timeout_secs;
    deal.split_bps = params.split_bps;
    deal.tie_breaker = params.tie_breaker;
    deal.num_recovery = r as u8;
    deal.recovery_threshold = params.recovery_threshold;
    deal.recovery_signers = recovery_signers;
    deal.recovery_delay_secs = params.recovery_delay_secs;
    deal.created_at = now;
    let seq = deal.next_seq();
    let event = DealCreated {
        deal: ctx.deal,
        seq,
        deal_id: params.deal_id,
        creator: deal.creator,
        mint: deal.mint,
        total_amount: deal.total_amount,
        num_parties: deal.num_parties,
        num_milestones: deal.num_milestones,
        terms_hash: deal.terms_hash,
        risk_flags: mint_flags,
        timestamp: now,
    };
    Ok((deal, event))
}

/// A deal account with every field zero (how a new account starts).
pub fn zeroed_deal() -> (d: Deal)
    ensures
        d.version == 0 && d.bump == 0 && d.deal_id == 0 && d.creator == Pubkey::zero_spec(),
        d.state == DealState::Draft && d.num_parties == 0,
        forall|i: int| 0 <= i < MAX_PARTIES ==> #[trigger] d.parties[i] == Pubkey::zero_spec(),
        d.payer_idx == 0 && d.payee_idx == 0 && d.approval_threshold == 0,
        d.signed == 0 && d.ready == 0 && d.deadlock_consent == 0 && d.cancel_approvals == 0,
        forall|i: int| 0 <= i < MAX_PARTIES ==> #[trigger] d.parties_signed_at[i] == 0,
        forall|i: int| 0 <= i < 32 ==> #[trigger] d.terms_hash[i] == 0,
        d.price_risk_term == 0,
        d.mint == Pubkey::zero_spec() && d.token_program == Pubkey::zero_spec() && d.vault == Pubkey::zero_spec(),
        d.total_amount == 0 && d.deposited == 0 && d.released_total == 0,
        d.risk_flags == 0 && d.accepted_risk_flags == 0 && d.num_milestones == 0,
        forall|i: int| 0 <= i < MAX_MILESTONES ==> #[trigger] d.milestones[i] == (Milestone {
            amount: 0,
            approvals: 0,
            released: false,
        }),
        d.deadlock_rule == DeadlockRule::TimeoutRelease && d.timer_mode == TimerMode::FromDeadlock,
        d.timeout_secs == 0 && d.split_bps == 0 && d.tie_breaker == Pubkey::zero_spec(),
        d.deadlock_raised_at == 0 && d.deadlock_raised_by == Pubkey::zero_spec(),
        d.elapsed_at_pause == 0 && d.last_resumed_at == 0,
        !d.proposal_active && d.proposed_to_payee == 0 && d.resolution_approvals == 0 && !d.tie_breaker_decided,
        d.num_recovery == 0 && d.recovery_threshold == 0,
        forall|i: int| 0 <= i < MAX_RECOVERY_SIGNERS ==> #[trigger] d.recovery_signers[i] == Pubkey::zero_spec(),
        !d.recovery_proposal_active && d.recovery_proposed_to_payee == 0 && d.recovery_approvals == 0,
        d.recovery_delay_secs == 0 && d.recovery_ready_at == 0,
        d.created_at == 0 && d.signed_at == 0 && d.funded_at == 0 && d.activated_at == 0,
        d.event_seq == 0,
        forall|i: int| 0 <= i < 64 ==> #[trigger] d._reserved[i] == 0,
{
    let z = Pubkey::zero();
    let m = Milestone { amount: 0, approvals: 0, released: false };
    let d = Deal {
        version: 0,
        bump: 0,
        deal_id: 0,
        creator: z,
        state: DealState::Draft,
        num_parties: 0,
        parties: [z; 8],
        payer_idx: 0,
        payee_idx: 0,
        approval_threshold: 0,
        signed: 0,
        ready: 0,
        deadlock_consent: 0,
        cancel_approvals: 0,
        parties_signed_at: [0i64; 8],
        terms_hash: [0u8; 32],
        price_risk_term: 0,
        mint: z,
        token_program: z,
        vault: z,
        total_amount: 0,
        deposited: 0,
        released_total: 0,
        risk_flags: 0,
        accepted_risk_flags: 0,
        num_milestones: 0,
        milestones: [m; 16],
        deadlock_rule: DeadlockRule::TimeoutRelease,
        timer_mode: TimerMode::FromDeadlock,
        timeout_secs: 0,
        split_bps: 0,
        tie_breaker: z,
        deadlock_raised_at: 0,
        deadlock_raised_by: z,
        elapsed_at_pause: 0,
        last_resumed_at: 0,
        proposal_active: false,
        proposed_to_payee: 0,
        resolution_approvals: 0,
        tie_breaker_decided: false,
        num_recovery: 0,
        recovery_threshold: 0,
        recovery_signers: [z; 3],
        recovery_proposal_active: false,
        recovery_proposed_to_payee: 0,
        recovery_approvals: 0,
        recovery_delay_secs: 0,
        recovery_ready_at: 0,
        created_at: 0,
        signed_at: 0,
        funded_at: 0,
        activated_at: 0,
        event_seq: 0,
        _reserved: [0u8; 64],
    };
    d
}

} // verus!
