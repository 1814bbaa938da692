//! The decisions of the reference demo (a marketplace sale walked through the
//! escrow step by step): which action the next step performs, how the step
//! list is shown, how the demo deal is formed, and how digests and times are
//! printed on the signature certificate.

use vstd::prelude::*;
use vstd::string::StringExecFns;

use chrono::DateTime;
use sha2::{Digest, Sha256};

use crate::instructions::create_deal::CreateDealParams;
use crate::pubkey::Pubkey;
use crate::state::{DeadlockRule, TimerMode};

verus! {

/// Price of the demo item: 1,200.000000 demo dollars (6 decimals).
pub const PRICE: u64 = 1_200_000_000;

/// Payee's share in the demo's 50/50 dispute settlement.
pub const SETTLE_TO_SELLER: u64 = 600_000_000;

/// Dispute timeout of the demo deal, in seconds.
pub const DISPUTE_TIMEOUT_SECS: i64 = 120;

/// Recovery notice delay of the demo deal, in seconds.
pub const RECOVERY_DELAY_SECS: i64 = 86_400;

/// Balance the buyer is topped up to before a new demo deal.
pub const BUYER_FLOAT: u64 = 2_000_000_000;

/// Lamports the demo funder needs to pay for setting up.
pub const FUNDER_MINIMUM: u64 = 300_000_000;

/// Which way the demo sale ends.
#[derive(Clone, Copy, Debug, PartialEq, Eq, Structural)]
pub enum DemoPath {
    /// Delivery confirmed, payment released.
    Complete,
    /// Dispute raised, settled 50/50.
    Dispute,
}

/// What the next demo step does.
#[derive(Clone, Copy, Debug, PartialEq, Eq, Structural)]
pub enum DemoAction {
    SetupEnvironment,
    NewSession,
    BuyerSigns,
    SellerSigns,
    BuyerDeposits,
    BothConfirmReady,
    BuyerApproves,
    SellerApproves,
    ReleasePayment,
    BuyerRaisesDispute,
    BothSignSettlement,
    ResolveSettlement,
}

/// Why no step can run.
#[derive(Clone, Copy, Debug, PartialEq, Eq, Structural)]
pub enum DemoStepError {
    /// Steps 6 to 8 need a chosen path.
    NeedPath,
    /// Every step has run.
    Finished,
}

/// The action of the next step: set up the environment first, then open a
/// session (step 1), then steps 2 to 5 of the shared flow, then steps 6 to 8
/// of the chosen path.
pub open spec fn demo_action_spec(env_ready: bool, session_ready: bool, next_step: usize, path: Option<DemoPath>)
    -> Result<DemoAction, DemoStepError>
{
    if !env_ready {
        Ok(DemoAction::SetupEnvironment)
    } else if !session_ready {
        Ok(DemoAction::NewSession)
    } else if next_step == 2 {
        Ok(DemoAction::BuyerSigns)
    } else if next_step == 3 {
        Ok(DemoAction::SellerSigns)
    } else if next_step == 4 {
        Ok(DemoAction::BuyerDeposits)
    } else if next_step == 5 {
        Ok(DemoAction::BothConfirmReady)
    } else if 6 <= next_step <= 8 {
        match path {
            None => Err(DemoStepError::NeedPath),
            Some(DemoPath::Complete) => Ok(
                if next_step == 6 {
                    DemoAction::BuyerApproves
                } else if next_step == 7 {
                    DemoAction::SellerApproves
                } else {
                    DemoAction::ReleasePayment
                },
            ),
            Some(DemoPath::Dispute) => Ok(
                if next_step == 6 {
                    DemoAction::BuyerRaisesDispute
                } else if next_step == 7 {
                    DemoAction::BothSignSettlement
                } else {
                    DemoAction::ResolveSettlement
                },
            ),
        }
    } else {
        Err(DemoStepError::Finished)
    }
}

pub fn demo_action(env_ready: bool, session_ready: bool, next_step: usize, path: Option<DemoPath>)
    -> (r: Result<DemoAction, DemoStepError>)
    ensures
        r == demo_action_spec(env_ready, session_ready, next_step, path),
{
    if !env_ready {
        return Ok(DemoAction::SetupEnvironment);
    }
    if !session_ready {
        return Ok(DemoAction::NewSession);
    }
    match next_step {
        2 => Ok(DemoAction::BuyerSigns),
        3 => Ok(DemoAction::SellerSigns),
        4 => Ok(DemoAction::BuyerDeposits),
        5 => Ok(DemoAction::BothConfirmReady),
        6..=8 => match path {
            None => Err(DemoStepError::NeedPath),
            Some(DemoPath::Complete) => Ok(
                if next_step == 6 {
                    DemoAction::BuyerApproves
                } else if next_step == 7 {
                    DemoAction::SellerApproves
                } else {
                    DemoAction::ReleasePayment
                },
            ),
            Some(DemoPath::Dispute) => Ok(
                if next_step == 6 {
                    DemoAction::BuyerRaisesDispute
                } else if next_step == 7 {
                    DemoAction::BothSignSettlement
                } else {
                    DemoAction::ResolveSettlement
                },
            ),
        },
        _ => Err(DemoStepError::Finished),
    }
}

/// The log line recorded once a step's action has gone through.
pub open spec fn action_label_spec(a: DemoAction) -> Seq<char> {
    match a {
        DemoAction::SetupEnvironment => "Demo environment prepared"@,
        DemoAction::NewSession => "Agreement drafted; escrow deal created on-chain with its SHA-256 digest"@,
        DemoAction::BuyerSigns => "Buyer executed the agreement: wallet signature over the document digest, recorded on-chain"@,
        DemoAction::SellerSigns => "Seller executed the agreement — all parties signed; terms are now frozen"@,
        DemoAction::BuyerDeposits => "Buyer funded the escrow vault — neither party can move these funds alone"@,
        DemoAction::BothConfirmReady => "Both parties confirmed ready — deal is Active; Seller ships the item"@,
        DemoAction::BuyerApproves => "Item arrived — Buyer confirmed delivery on-chain"@,
        DemoAction::SellerApproves => "Seller co-confirmed — 2-of-2 release approvals recorded"@,
        DemoAction::ReleasePayment => "Payment released to Seller — final settlement, no chargebacks. Deal complete"@,
        DemoAction::BuyerRaisesDispute => "Buyer raised a dispute — funds stay locked; the pre-agreed rules now govern"@,
        DemoAction::BothSignSettlement => "Parties negotiated and both signed a 50/50 settlement"@,
        DemoAction::ResolveSettlement => "Settlement executed: 600 dUSD to Seller, 600 dUSD back to Buyer. Deal complete"@,
    }
}

/// The log line recorded once a step's action has gone through.
pub fn action_label(a: DemoAction) -> (r: &'static str)
    ensures
        r@ == action_label_spec(a),
{
    match a {
        DemoAction::SetupEnvironment => "Demo environment prepared",
        DemoAction::NewSession => "Agreement drafted; escrow deal created on-chain with its SHA-256 digest",
        DemoAction::BuyerSigns => "Buyer executed the agreement: wallet signature over the document digest, recorded on-chain",
        DemoAction::SellerSigns => "Seller executed the agreement — all parties signed; terms are now frozen",
        DemoAction::BuyerDeposits => "Buyer funded the escrow vault — neither party can move these funds alone",
        DemoAction::BothConfirmReady => "Both parties confirmed ready — deal is Active; Seller ships the item",
        DemoAction::BuyerApproves => "Item arrived — Buyer confirmed delivery on-chain",
        DemoAction::SellerApproves => "Seller co-confirmed — 2-of-2 release approvals recorded",
        DemoAction::ReleasePayment => "Payment released to Seller — final settlement, no chargebacks. Deal complete",
        DemoAction::BuyerRaisesDispute => "Buyer raised a dispute — funds stay locked; the pre-agreed rules now govern",
        DemoAction::BothSignSettlement => "Parties negotiated and both signed a 50/50 settlement",
        DemoAction::ResolveSettlement => "Settlement executed: 600 dUSD to Seller, 600 dUSD back to Buyer. Deal complete",
    }
}

/// The step the demo shows as next: 0 before setup, 1 before a session, then
/// the session's own counter.
pub fn demo_next_step(env_ready: bool, session_next: Option<usize>) -> (r: usize)
    ensures
        r == (if !env_ready {
            0
        } else {
            match session_next {
                None => 1,
                Some(n) => n,
            }
        }),
{
    if !env_ready {
        0
    } else {
        match session_next {
            None => 1,
            Some(n) => n,
        }
    }
}

/// How a step is shown relative to the next step.
#[derive(Clone, Copy, Debug, PartialEq, Eq, Structural)]
pub enum StepStatus {
    Done,
    Next,
    Todo,
}

impl StepStatus {
    pub open spec fn as_str_spec(self) -> Seq<char> {
        match self {
            StepStatus::Done => "done"@,
            StepStatus::Next => "next"@,
            StepStatus::Todo => "todo"@,
        }
    }

    pub fn as_str(&self) -> (r: &'static str)
        ensures
            r@ == self.as_str_spec(),
    {
        match self {
            StepStatus::Done => "done",
            StepStatus::Next => "next",
            StepStatus::Todo => "todo",
        }
    }
}

pub fn step_status(idx: usize, next: usize) -> (r: StepStatus)
    ensures
        r == (if idx < next {
            StepStatus::Done
        } else if idx == next {
            StepStatus::Next
        } else {
            StepStatus::Todo
        }),
{
    if idx < next {
        StepStatus::Done
    } else if idx == next {
        StepStatus::Next
    } else {
        StepStatus::Todo
    }
}

/// The demo waits for a path choice exactly at step 6 with none chosen.
pub fn demo_needs_path(next: usize, path: Option<DemoPath>) -> (r: bool)
    ensures
        r == (next == 6 && path is None),
{
    next == 6 && path.is_none()
}

/// The demo is over once step 8 has run.
pub fn demo_done(next: usize) -> (r: bool)
    ensures
        r == (next > 8),
{
    next > 8
}

/// How much to mint to the buyer before a new deal: back up to the float
/// when the balance no longer covers the price.
pub fn top_up_amount(balance: u64) -> (r: Option<u64>)
    ensures
        r == (if balance < PRICE { Some((BUYER_FLOAT - balance) as u64) } else { None::<u64> }),
{
    if balance < PRICE {
        Some(BUYER_FLOAT - balance)
    } else {
        None
    }
}

/// The demo funder must hold at least `FUNDER_MINIMUM` lamports.
pub fn funder_balance_ok(balance: u64) -> (r: bool)
    ensures
        r == (balance >= FUNDER_MINIMUM),
{
    balance >= FUNDER_MINIMUM
}

/// The demo deal: buyer pays, seller is paid, both must approve the single
/// milestone of the full price; an unresolved dispute refunds the buyer after
/// the timeout; the recovery agent alone can act after a day's notice.
pub fn demo_deal_params(buyer: Pubkey, seller: Pubkey, recovery_agent: Pubkey, deal_id: u64, terms_hash: [u8; 32])
    -> (p: CreateDealParams)
    ensures
        p.deal_id == deal_id,
        p.parties@ == seq![buyer, seller],
        p.payer_idx == 0 && p.payee_idx == 1 && p.approval_threshold == 2,
        p.terms_hash == terms_hash,
        p.price_risk_term == 0,
        p.total_amount == PRICE,
        p.milestone_amounts@ == seq![PRICE],
        p.deadlock_rule == DeadlockRule::TimeoutRefund,
        p.timer_mode == TimerMode::FromDeadlock,
        p.timeout_secs == DISPUTE_TIMEOUT_SECS,
        p.split_bps == 0,
        p.tie_breaker == Pubkey::zero_spec(),
        p.recovery_signers@ == seq![recovery_agent],
        p.recovery_threshold == 1,
        p.recovery_delay_secs == RECOVERY_DELAY_SECS,
        p.accepted_risk_flags == u16::MAX,
{
    let mut parties: Vec<Pubkey> = Vec::new();
    parties.push(buyer);
    parties.push(seller);
    let mut milestone_amounts: Vec<u64> = Vec::new();
    milestone_amounts.push(PRICE);
    let mut recovery_signers: Vec<Pubkey> = Vec::new();
    recovery_signers.push(recovery_agent);
    CreateDealParams {
        deal_id,
        parties,
        payer_idx: 0,
        payee_idx: 1,
        approval_threshold: 2,
        terms_hash,
        price_risk_term: 0,
        total_amount: PRICE,
        milestone_amounts,
        deadlock_rule: DeadlockRule::TimeoutRefund,
        timer_mode: TimerMode::FromDeadlock,
        timeout_secs: DISPUTE_TIMEOUT_SECS,
        split_bps: 0,
        tie_breaker: Pubkey::zero(),
        recovery_signers,
        recovery_threshold: 1,
        recovery_delay_secs: RECOVERY_DELAY_SECS,
        accepted_risk_flags: u16::MAX,
    }
}

/// The SHA-256 digest of `data`.
pub uninterp spec fn sha256_digest(data: Seq<u8>) -> Seq<u8>;

/// Calls `sha2::Sha256::digest`. Claimed: the 32-byte digest is a function of
/// the input bytes alone, named `sha256_digest`.
#[verifier::external_body]
fn sha256(data: &[u8]) -> (r: [u8; 32])
    ensures
        r@ == sha256_digest(data@),
{
    Sha256::digest(data).into()
}

/// The terms hash recorded on chain for an agreement: the SHA-256 digest of
/// its bytes.
pub fn terms_hash(agreement: &[u8]) -> (h: [u8; 32])
    ensures
        h@ == sha256_digest(agreement@),
{
    sha256(agreement)
}

/// Lower-case hex digit of a nibble.
pub open spec fn hex_char(n: u8) -> char {
    if n == 0 { '0' } else if n == 1 { '1' } else if n == 2 { '2' } else if n == 3 { '3' }
    else if n == 4 { '4' } else if n == 5 { '5' } else if n == 6 { '6' } else if n == 7 { '7' }
    else if n == 8 { '8' } else if n == 9 { '9' } else if n == 10 { 'a' } else if n == 11 { 'b' }
    else if n == 12 { 'c' } else if n == 13 { 'd' } else if n == 14 { 'e' } else { 'f' }
}

/// Two lower-case hex digits per byte, high nibble first.
pub open spec fn hex_spec(bytes: Seq<u8>) -> Seq<char>
    decreases bytes.len(),
{
    if bytes.len() == 0 {
        Seq::empty()
    } else {
        hex_spec(bytes.drop_last()) + seq![hex_char(bytes.last() / 16), hex_char(bytes.last() % 16)]
    }
}

fn hex_digit(n: u8) -> (s: &'static str)
    requires
        n < 16,
    ensures
        s@ == seq![hex_char(n)],
{
    proof {
        reveal_strlit("0");
        reveal_strlit("1");
        reveal_strlit("2");
        reveal_strlit("3");
        reveal_strlit("4");
        reveal_strlit("5");
        reveal_strlit("6");
        reveal_strlit("7");
        reveal_strlit("8");
        reveal_strlit("9");
        reveal_strlit("a");
        reveal_strlit("b");
        reveal_strlit("c");
        reveal_strlit("d");
        reveal_strlit("e");
        reveal_strlit("f");
    }
    if n == 0 { "0" } else if n == 1 { "1" } else if n == 2 { "2" } else if n == 3 { "3" }
    else if n == 4 { "4" } else if n == 5 { "5" } else if n == 6 { "6" } else if n == 7 { "7" }
    else if n == 8 { "8" } else if n == 9 { "9" } else if n == 10 { "a" } else if n == 11 { "b" }
    else if n == 12 { "c" } else if n == 13 { "d" } else if n == 14 { "e" } else { "f" }
}

/// Lower-case hex of `bytes` (as the certificate prints digests).
pub fn hex(bytes: &[u8]) -> (s: String)
    ensures
        s@ == hex_spec(bytes@),
{
    let mut s = String::new();
    let mut i: usize = 0;
    while i < bytes.len()
        invariant
            i <= bytes@.len(),
            s@ == hex_spec(bytes@.take(i as int)),
        decreases bytes.len() - i,
    {
        assert(bytes@.take(i + 1).drop_last() =~= bytes@.take(i as int));
        let b = bytes[i];
        s.append(hex_digit(b / 16));
        s.append(hex_digit(b % 16));
        i = i + 1;
    }
    assert(bytes@.take(bytes@.len() as int) =~= bytes@);
    s
}

/// `t` (unix seconds) as chrono formats it in UTC with
/// `%B %-d, %Y %H:%M:%S UTC`, or `None` outside chrono's range.
pub uninterp spec fn utc_timestamp_text(t: i64) -> Option<Seq<char>>;

/// Calls `chrono::DateTime::from_timestamp(t, 0)` and formats the time with
/// `%B %-d, %Y %H:%M:%S UTC`. Claimed: the text is a function of `t` alone
/// (UTC, no locale), named `utc_timestamp_text`.
#[verifier::external_body]
fn format_utc(t: i64) -> (r: Option<String>)
    ensures
        r is Some == utc_timestamp_text(t) is Some,
        r is Some ==> r->Some_0@ == utc_timestamp_text(t)->Some_0,
{
    let time = DateTime::from_timestamp(t, 0)?;
    Some(time.format("%B %-d, %Y %H:%M:%S UTC").to_string())
}

/// A timestamp as the certificate prints it; an em dash when out of range.
pub fn ts(t: i64) -> (s: String)
    ensures
        s@ == (match utc_timestamp_text(t) {
            Some(text) => text,
            None => "—"@,
        }),
{
    match format_utc(t) {
        Some(text) => text,
        None => String::from_str("—"),
    }
}

/// When a party signed, as the certificate prints it.
pub fn signed_when(t: i64) -> (s: String)
    ensures
        t > 0 ==> s@ == (match utc_timestamp_text(t) {
            Some(text) => text,
            None => "—"@,
        }),
        t <= 0 ==> s@ == "not signed"@,
{
    if t > 0 {
        ts(t)
    } else {
        String::from_str("not signed")
    }
}

} // verus!
