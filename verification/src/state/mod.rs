pub mod risk_flags;

use vstd::prelude::*;

use crate::constants::{MAX_MILESTONES, MAX_PARTIES, MAX_RECOVERY_SIGNERS};
use crate::error::EscrowError;
use crate::pubkey::Pubkey;

verus! {

/// Where a deal stands.
#[derive(Clone, Copy, PartialEq, Eq, Debug, Structural)]
pub enum DealState {
    Draft,
    Signed,
    Funded,
    Active,
    Deadlocked,
    Completed,
    Cancelled,
}

/// How a deadlock is resolved when the parties do not agree.
#[derive(Clone, Copy, PartialEq, Eq, Debug, Structural)]
pub enum DeadlockRule {
    /// After `timeout_secs`, remaining funds release to the payee.
    TimeoutRelease,
    /// After `timeout_secs`, remaining funds return to the payer.
    TimeoutRefund,
    /// After `timeout_secs`, remaining funds split by `split_bps` (payee share).
    AutoSplit,
    /// A key the parties chose at formation decides the payout.
    TieBreaker,
    /// Locked until mutual agreement; refunded to the payer after a long `timeout_secs`.
    LongSunset,
    /// Locked until mutual sign-off or recovery.
    TrueDeadlock,
}

/// When the timeout clock for time-based rules runs.
#[derive(Clone, Copy, PartialEq, Eq, Debug, Structural)]
pub enum TimerMode {
    /// The clock starts when a party raises a deadlock.
    FromDeadlock,
    /// The clock starts at activation; the deal auto-resolves on expiry while
    /// Active, and a raised dispute pauses the clock.
    FromActivation,
}

/// How a deadlock ended.
#[derive(Clone, Copy, PartialEq, Eq, Debug, Structural)]
pub enum ResolutionPath {
    Mutual,
    TieBreaker,
    Timeout,
    Recovery,
}

/// One tranche of the deal's total amount.
#[derive(Clone, Copy, PartialEq, Eq, Debug, Default, Structural)]
pub struct Milestone {
    pub amount: u64,
    /// Bitmap: bit i set = party i approved this milestone.
    pub approvals: u8,
    pub released: bool,
}

/// The deal account.
#[derive(Clone, Copy, Debug, PartialEq, Eq)]
pub struct Deal {
    pub version: u8,
    pub bump: u8,
    pub deal_id: u64,
    pub creator: Pubkey,
    pub state: DealState,
    // Parties: only the first `num_parties` entries are meaningful.
    pub num_parties: u8,
    pub parties: [Pubkey; MAX_PARTIES],
    pub payer_idx: u8,
    pub payee_idx: u8,
    /// M-of-N approvals required to release a milestone.
    pub approval_threshold: u8,
    // Per-party bitmaps (bit i = party i).
    pub signed: u8,
    pub ready: u8,
    pub deadlock_consent: u8,
    pub cancel_approvals: u8,
    pub parties_signed_at: [i64; MAX_PARTIES],
    // Terms.
    pub terms_hash: [u8; 32],
    pub price_risk_term: u8,
    // Asset.
    pub mint: Pubkey,
    pub token_program: Pubkey,
    pub vault: Pubkey,
    pub total_amount: u64,
    /// Credited by vault balance delta.
    pub deposited: u64,
    pub released_total: u64,
    pub risk_flags: u16,
    pub accepted_risk_flags: u16,
    // Milestones.
    pub num_milestones: u8,
    pub milestones: [Milestone; MAX_MILESTONES],
    // Deadlock rule.
    pub deadlock_rule: DeadlockRule,
    pub timer_mode: TimerMode,
    pub timeout_secs: i64,
    pub split_bps: u16,
    pub tie_breaker: Pubkey,
    pub deadlock_raised_at: i64,
    pub deadlock_raised_by: Pubkey,
    /// Seconds of Active-state clock banked before the current pause.
    pub elapsed_at_pause: i64,
    /// When the activation clock last (re)started.
    pub last_resumed_at: i64,
    // Mutual / tie-breaker resolution proposal.
    pub proposal_active: bool,
    pub proposed_to_payee: u64,
    pub resolution_approvals: u8,
    pub tie_breaker_decided: bool,
    // Recovery (party-chosen, M-of-N).
    pub num_recovery: u8,
    pub recovery_threshold: u8,
    pub recovery_signers: [Pubkey; MAX_RECOVERY_SIGNERS],
    pub recovery_proposal_active: bool,
    pub recovery_proposed_to_payee: u64,
    pub recovery_approvals: u8,
    /// Notice delay between the threshold being met and the payout being executable.
    pub recovery_delay_secs: i64,
    /// When the current proposal first met the threshold (0 = not yet).
    pub recovery_ready_at: i64,
    // Timestamps (unix seconds).
    pub created_at: i64,
    pub signed_at: i64,
    pub funded_at: i64,
    pub activated_at: i64,
    /// Monotonic event sequence, one per emitted event.
    pub event_seq: u64,
    /// Reserved for future use.
    pub _reserved: [u8; 64],
}

/// Index of the first occurrence of `key` among the first `n` entries of `keys`.
pub open spec fn first_index_of(keys: Seq<Pubkey>, n: int, key: Pubkey) -> Option<u8> {
    match keys.take(n).index_of_first(key) {
        Some(i) => Some(i as u8),
        None => None,
    }
}

/// What a linear scan for `key` over `keys[..n]` finds.
pub fn find_key(keys: &[Pubkey], n: usize, key: &Pubkey) -> (r: Option<u8>)
    requires
        n <= keys@.len(),
        n <= 255,
    ensures
        r == first_index_of(keys@, n as int, *key),
        r matches Some(i) ==> i < n && keys@[i as int] == *key,
{
    let ghost s = keys@.take(n as int);
    let mut i: usize = 0;
    while i < n
        invariant
            i <= n,
            n <= keys@.len(),
            n <= 255,
            s == keys@.take(n as int),
            forall|j: int| 0 <= j < i ==> keys@[j] != *key,
        decreases n - i,
    {
        if keys[i].key_eq(key) {
            proof {
                s.index_of_first_ensures(*key);
                assert(s[i as int] == *key);
                assert(s.contains(*key));
                let f = s.index_of_first(*key).unwrap();
                assert(f == i) by {
                    if f < i {
                        assert(keys@[f] != *key);
                    } else if f > i {
                        assert(s[i as int] != *key);
                    }
                }
            }
            return Some(i as u8);
        }
        i = i + 1;
    }
    proof {
        s.index_of_first_ensures(*key);
        assert(!s.contains(*key)) by {
            if s.contains(*key) {
                let j = choose|j: int| 0 <= j < s.len() && s[j] == *key;
                assert(keys@[j] != *key);
            }
        }
    }
    None
}

/// Sum of the amounts of the first `n` milestones.
pub open spec fn amounts_sum(ms: Seq<Milestone>, n: int) -> int
    decreases n,
{
    if n <= 0 {
        0
    } else {
        amounts_sum(ms, n - 1) + ms[n - 1].amount
    }
}

/// Sum of the amounts of the released milestones among the first `n`.
pub open spec fn released_sum(ms: Seq<Milestone>, n: int) -> int
    decreases n,
{
    if n <= 0 {
        0
    } else {
        released_sum(ms, n - 1) + if ms[n - 1].released { ms[n - 1].amount as int } else { 0 }
    }
}

/// The deadlock rule counts time (it has a timeout path).
pub open spec fn is_time_rule(rule: DeadlockRule) -> bool {
    rule == DeadlockRule::TimeoutRelease || rule == DeadlockRule::TimeoutRefund || rule == DeadlockRule::AutoSplit
        || rule == DeadlockRule::LongSunset
}

impl Deal {
    /// What every deal satisfies from creation on: the formation rules hold,
    /// the milestone amounts add up to the total, the payee has been paid
    /// exactly the released milestones, the vault was never credited beyond
    /// the total, and a deal past funding is fully funded.
    pub open spec fn wf(self) -> bool {
        let n = self.num_parties as int;
        let m = self.num_milestones as int;
        &&& self.layout_ok()
        &&& 2 <= n
        &&& self.payer_idx < n && self.payee_idx < n && self.payer_idx != self.payee_idx
        &&& 1 <= self.approval_threshold <= n
        &&& 1 <= m
        &&& self.total_amount > 0
        &&& forall|i: int| 0 <= i < m ==> #[trigger] self.milestones[i].amount > 0
        &&& amounts_sum(self.milestones@, m) == self.total_amount
        &&& self.released_total == released_sum(self.milestones@, m)
        &&& self.deposited <= self.total_amount
        &&& (self.state == DealState::Funded || self.state == DealState::Active || self.state
            == DealState::Deadlocked) ==> self.deposited == self.total_amount
        &&& is_time_rule(self.deadlock_rule) ==> self.timeout_secs > 0
        &&& self.deadlock_rule == DeadlockRule::AutoSplit ==> self.split_bps <= 10_000
        &&& self.deadlock_rule == DeadlockRule::TieBreaker ==> !self.tie_breaker.is_default_spec()
        &&& (self.deadlock_rule == DeadlockRule::TieBreaker || self.deadlock_rule == DeadlockRule::TrueDeadlock)
            ==> self.timer_mode == TimerMode::FromDeadlock
        &&& 1 <= self.num_recovery
        &&& 1 <= self.recovery_threshold <= self.num_recovery
        &&& self.recovery_delay_secs >= 0
        &&& self.risk_flags & !self.accepted_risk_flags == 0
    }

    /// The array bounds every instruction relies on.
    pub open spec fn layout_ok(self) -> bool {
        &&& self.num_parties as usize <= MAX_PARTIES
        &&& self.num_milestones as usize <= MAX_MILESTONES
        &&& self.num_recovery as usize <= MAX_RECOVERY_SIGNERS
        &&& (self.payer_idx as usize) < MAX_PARTIES
        &&& (self.payee_idx as usize) < MAX_PARTIES
    }

    pub open spec fn party_index_spec(self, key: Pubkey) -> Option<u8> {
        first_index_of(self.parties@, self.num_parties as int, key)
    }

    pub open spec fn recovery_index_spec(self, key: Pubkey) -> Option<u8> {
        first_index_of(self.recovery_signers@, self.num_recovery as int, key)
    }

    /// Bitmap with one bit set per party.
    pub open spec fn all_parties_mask_spec(self) -> u8 {
        (((1u16 << self.num_parties) as int) - 1) as u8
    }

    /// The party's index among the deal's parties, if it is one.
    pub fn party_index(&self, key: &Pubkey) -> (r: Option<u8>)
        requires
            self.layout_ok(),
        ensures
            r == self.party_index_spec(*key),
            r matches Some(i) ==> i < self.num_parties && self.parties[i as int] == *key,
    {
        find_key(self.parties.as_slice(), self.num_parties as usize, key)
    }

    /// The party's index, or `NotAParty`.
    pub fn require_party(&self, key: &Pubkey) -> (r: Result<u8, EscrowError>)
        requires
            self.layout_ok(),
        ensures
            r == match self.party_index_spec(*key) {
                Some(i) => Ok::<u8, EscrowError>(i),
                None => Err(EscrowError::NotAParty),
            },
            r matches Ok(i) ==> i < self.num_parties && self.parties[i as int] == *key,
    {
        match self.party_index(key) {
            Some(i) => Ok(i),
            None => Err(EscrowError::NotAParty),
        }
    }

    /// Bitmap with one bit set per party.
    pub fn all_parties_mask(&self) -> (r: u8)
        requires
            self.layout_ok(),
        ensures
            r == self.all_parties_mask_spec(),
    {
        let n = self.num_parties;
        assert(n <= 8 ==> 1 <= (1u16 << n) <= 256) by (bit_vector);
        (((1u16) << n) - 1) as u8
    }

    /// The recovery signer's index, if the key is one.
    pub fn recovery_index(&self, key: &Pubkey) -> (r: Option<u8>)
        requires
            self.layout_ok(),
        ensures
            r == self.recovery_index_spec(*key),
            r matches Some(i) ==> i < self.num_recovery && self.recovery_signers[i as int] == *key,
    {
        find_key(self.recovery_signers.as_slice(), self.num_recovery as usize, key)
    }

    /// Hands out the next event sequence number.
    pub fn next_seq(&mut self) -> (seq: u64)
        ensures
            seq == old(self).event_seq,
            *final(self) == (Deal { event_seq: old(self).event_seq.saturating_add(1), ..*old(self) }),
    {
        let seq = self.event_seq;
        self.event_seq = self.event_seq.saturating_add(1);
        seq
    }

    /// `InvalidState` unless the deal is in `expected`.
    pub fn require_state(&self, expected: DealState) -> (r: Result<(), EscrowError>)
        ensures
            r == (if self.state == expected { Ok::<(), EscrowError>(()) } else { Err(EscrowError::InvalidState) }),
    {
        if self.state == expected {
            Ok(())
        } else {
            Err(EscrowError::InvalidState)
        }
    }
}

} // verus!
