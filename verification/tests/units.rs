//! Concrete checks of the library's functions and of its laws on examples.

use anchor_lang::solana_program::program_error::ProgramError;
use anchor_lang::solana_program::program_option::COption;
use anchor_lang::solana_program::program_pack::Pack;
use anchor_spl::token_2022::spl_token_2022 as spl;
use spl::extension::transfer_hook::TransferHook;
use spl::extension::{BaseStateWithExtensionsMut, ExtensionType, StateWithExtensionsMut};
use spl::state::Mint as SplMint;

use latch::bits::{count_ones, sat_sub_i64};
use latch::demo::{
    action_label, demo_action, demo_deal_params, demo_done, demo_needs_path, demo_next_step, funder_balance_ok,
    hex, signed_when, step_status, terms_hash, top_up_amount, ts, DemoAction, DemoPath, DemoStepError,
    StepStatus, PRICE, RECOVERY_DELAY_SECS, SETTLE_TO_SELLER,
};
use latch::error::{AccountError, EscrowError};
use latch::instructions::cancel::{handle_cancel_sign, CancelSign};
use latch::instructions::create_deal::{create_deal_precheck, handle_create_deal, zeroed_deal, CreateDeal, CreateDealParams};
use latch::instructions::deposit::{handle_deposit, Deposit};
use latch::instructions::raise_deadlock::{handle_raise_deadlock, handle_withdraw_deadlock, RaiseDeadlock, WithdrawDeadlock};
use latch::instructions::resolve::{handle_resolve, timeout_payout, Resolve};
use latch::instructions::sign_terms::{handle_sign_terms, SignTerms};
use latch::instructions::TokenAccountInfo;
use latch::mint_guard::{classic_token_program, extension_risk_flags, vet_mint, MintError};
use latch::state::risk_flags;
use latch::state::{Deal, DealState, DeadlockRule, ResolutionPath, TimerMode};
use latch::Pubkey;

fn k(n: u8) -> Pubkey {
    Pubkey::new_from_array([n; 32])
}

fn params(rule: DeadlockRule, mode: TimerMode) -> CreateDealParams {
    CreateDealParams {
        deal_id: 42,
        parties: vec![k(1), k(2), k(3)],
        payer_idx: 0,
        payee_idx: 1,
        approval_threshold: 2,
        terms_hash: [3u8; 32],
        price_risk_term: 0,
        total_amount: 1000,
        milestone_amounts: vec![700, 300],
        deadlock_rule: rule,
        timer_mode: mode,
        timeout_secs: 100,
        split_bps: 2500,
        tie_breaker: k(9),
        recovery_signers: vec![k(20), k(21)],
        recovery_threshold: 2,
        recovery_delay_secs: 10,
        accepted_risk_flags: 0,
    }
}

fn ctx() -> CreateDeal {
    CreateDeal { creator: k(1), deal: k(100), bump: 7, mint: k(101), vault: k(102), token_program: k(103) }
}

/// A three-party deal, signed, funded and active.
fn active_deal(rule: DeadlockRule, mode: TimerMode) -> Deal {
    let (mut d, _) = handle_create_deal(&ctx(), &params(rule, mode), 0, 1_000).unwrap();
    for p in [1u8, 2, 3] {
        handle_sign_terms(&SignTerms { party: k(p), deal: k(100) }, &mut d, true, 1_001).unwrap();
    }
    d.deposited = 1000;
    d.state = DealState::Active;
    d.last_resumed_at = 2_000;
    d
}

fn resolve_ctx(d: &Deal) -> Resolve {
    Resolve {
        deal: k(100),
        mint: d.mint,
        vault: d.vault,
        payer_token_account: TokenAccountInfo { key: k(50), mint: d.mint, owner: k(1) },
        payee_token_account: TokenAccountInfo { key: k(51), mint: d.mint, owner: k(2) },
        token_program: d.token_program,
    }
}

#[test]
fn hex_prints_two_lower_case_digits_per_byte() {
    assert_eq!(hex(&[0x00, 0xab, 0xff, 0x10]), "00abff10");
    assert_eq!(hex(&[]), "");
}

#[test]
fn terms_hash_is_sha256_of_the_agreement() {
    assert_eq!(hex(&terms_hash(b"abc")), "ba7816bf8f01cfea414140de5dae2223b00361a396177a9cb410ff61f20015ad");
}

#[test]
fn timestamps_print_in_utc() {
    assert_eq!(ts(0), "January 1, 1970 00:00:00 UTC");
    assert_eq!(ts(1_758_500_000), "September 22, 2025 00:13:20 UTC");
    assert_eq!(ts(i64::MAX), "—");
    assert_eq!(signed_when(0), "not signed");
    assert_eq!(signed_when(1_758_500_000), "September 22, 2025 00:13:20 UTC");
}

#[test]
fn demo_steps_follow_the_chosen_path() {
    assert_eq!(demo_action(false, false, 0, None), Ok(DemoAction::SetupEnvironment));
    assert_eq!(demo_action(true, false, 0, None), Ok(DemoAction::NewSession));
    assert_eq!(demo_action(true, true, 2, None), Ok(DemoAction::BuyerSigns));
    assert_eq!(demo_action(true, true, 3, None), Ok(DemoAction::SellerSigns));
    assert_eq!(demo_action(true, true, 4, None), Ok(DemoAction::BuyerDeposits));
    assert_eq!(demo_action(true, true, 5, None), Ok(DemoAction::BothConfirmReady));
    assert_eq!(demo_action(true, true, 6, None), Err(DemoStepError::NeedPath));
    assert_eq!(demo_action(true, true, 6, Some(DemoPath::Complete)), Ok(DemoAction::BuyerApproves));
    assert_eq!(demo_action(true, true, 7, Some(DemoPath::Complete)), Ok(DemoAction::SellerApproves));
    assert_eq!(demo_action(true, true, 8, Some(DemoPath::Complete)), Ok(DemoAction::ReleasePayment));
    assert_eq!(demo_action(true, true, 6, Some(DemoPath::Dispute)), Ok(DemoAction::BuyerRaisesDispute));
    assert_eq!(demo_action(true, true, 7, Some(DemoPath::Dispute)), Ok(DemoAction::BothSignSettlement));
    assert_eq!(demo_action(true, true, 8, Some(DemoPath::Dispute)), Ok(DemoAction::ResolveSettlement));
    assert_eq!(demo_action(true, true, 9, Some(DemoPath::Dispute)), Err(DemoStepError::Finished));
    assert_eq!(action_label(DemoAction::SellerApproves), "Seller co-confirmed — 2-of-2 release approvals recorded");
}

#[test]
fn demo_step_list_statuses() {
    assert_eq!(demo_next_step(false, Some(4)), 0);
    assert_eq!(demo_next_step(true, None), 1);
    assert_eq!(demo_next_step(true, Some(4)), 4);
    assert_eq!(step_status(3, 4), StepStatus::Done);
    assert_eq!(step_status(4, 4), StepStatus::Next);
    assert_eq!(step_status(5, 4).as_str(), "todo");
    assert!(demo_needs_path(6, None));
    assert!(!demo_needs_path(6, Some(DemoPath::Dispute)));
    assert!(!demo_done(8));
    assert!(demo_done(9));
}

#[test]
fn demo_buyer_top_up_and_funder_minimum() {
    assert_eq!(top_up_amount(PRICE), None);
    assert_eq!(top_up_amount(PRICE - 1), Some(2_000_000_000 - (PRICE - 1)));
    assert_eq!(top_up_amount(0), Some(2_000_000_000));
    assert!(funder_balance_ok(300_000_000));
    assert!(!funder_balance_ok(299_999_999));
}

#[test]
fn demo_deal_is_valid_and_settles_half() {
    let p = demo_deal_params(k(1), k(2), k(3), 77, [5u8; 32]);
    assert_eq!(p.parties, vec![k(1), k(2)]);
    assert_eq!(p.milestone_amounts, vec![PRICE]);
    assert_eq!(p.recovery_delay_secs, RECOVERY_DELAY_SECS);
    assert_eq!(create_deal_precheck(&p, &k(1)), Ok(()));
    assert_eq!(SETTLE_TO_SELLER * 2, PRICE);
}

#[test]
fn bit_and_clock_helpers() {
    assert_eq!(count_ones(0), 0);
    assert_eq!(count_ones(0b1011_0001), 4);
    assert_eq!(count_ones(0xff), 8);
    assert_eq!(sat_sub_i64(10, 3), 7);
    assert_eq!(sat_sub_i64(i64::MIN, 1), i64::MIN);
    assert_eq!(sat_sub_i64(i64::MAX, -1), i64::MAX);
}

#[test]
fn pubkey_comparisons() {
    assert!(k(4).key_eq(&k(4)));
    assert!(!k(4).key_eq(&k(5)));
    assert!(Pubkey::zero().is_default());
    assert!(!k(4).is_default());
    assert_eq!(k(4).to_bytes(), [4u8; 32]);
}

#[test]
fn classic_token_program_is_the_token_crate_id() {
    assert_eq!(classic_token_program().to_bytes(), anchor_spl::token::ID.to_bytes());
}

#[test]
fn error_names_and_messages() {
    assert_eq!(EscrowError::TimeoutPausedByDispute.name(), "TimeoutPausedByDispute");
    assert_eq!(EscrowError::OverFunded.message(), "Deposit exceeds the deal's total amount");
}

#[test]
fn vet_mint_reports_unreadable_data() {
    let token_2022 = Pubkey::new_from_array(anchor_spl::token_2022::ID.to_bytes());
    assert_eq!(vet_mint(&token_2022, &[1, 2, 3]), Err(MintError::Unpack(u64::from(ProgramError::InvalidAccountData))));
    assert_eq!(
        vet_mint(&classic_token_program(), &[0u8; 82]),
        Err(MintError::Unpack(u64::from(ProgramError::UninitializedAccount)))
    );
}

#[test]
fn vet_mint_flags_a_dormant_transfer_hook() {
    let len = ExtensionType::try_calculate_account_len::<SplMint>(&[ExtensionType::TransferHook]).unwrap();
    let mut data = vec![0u8; len];
    {
        let mut state = StateWithExtensionsMut::<SplMint>::unpack_uninitialized(&mut data).unwrap();
        state.init_extension::<TransferHook>(true).unwrap();
        state.base = SplMint {
            mint_authority: COption::None,
            supply: 0,
            decimals: 6,
            is_initialized: true,
            freeze_authority: COption::Some(anchor_lang::prelude::Pubkey::new_from_array([8u8; 32])),
        };
        state.pack_base();
        state.init_account_type().unwrap();
    }
    let token_2022 = Pubkey::new_from_array(anchor_spl::token_2022::ID.to_bytes());
    assert_eq!(
        vet_mint(&token_2022, &data),
        Ok(risk_flags::FREEZE_AUTHORITY | risk_flags::DORMANT_TRANSFER_HOOK)
    );
    // The same bytes under the classic program: only the freeze authority counts.
    let mut classic = vec![0u8; SplMint::LEN];
    classic.copy_from_slice(&data[..SplMint::LEN]);
    assert_eq!(vet_mint(&classic_token_program(), &classic), Ok(risk_flags::FREEZE_AUTHORITY));
}

#[test]
fn extension_flags_in_order() {
    assert_eq!(extension_risk_flags(&vec![12, 14], 0, Ok(None), Ok(1)), Ok(risk_flags::PERMANENT_DELEGATE | risk_flags::DORMANT_TRANSFER_HOOK));
    assert_eq!(
        extension_risk_flags(&vec![14], 0, Ok(Some(k(1))), Ok(1)),
        Err(MintError::Escrow(EscrowError::ActiveTransferHook))
    );
    assert_eq!(extension_risk_flags(&vec![16], 1, Ok(None), Ok(1)), Ok(1 | risk_flags::TRANSFER_FEE | risk_flags::CONFIDENTIAL_CAPABLE));
    assert_eq!(extension_risk_flags(&vec![18, 19, 20, 21, 22, 23], 0, Ok(None), Ok(1)), Ok(0));
    assert_eq!(extension_risk_flags(&vec![26], 0, Ok(None), Ok(1)), Err(MintError::Escrow(EscrowError::UnknownMintExtension)));
    // The first refusal wins, and a reading is only consulted when needed.
    assert_eq!(extension_risk_flags(&vec![9, 14], 0, Err(7), Ok(1)), Err(MintError::Escrow(EscrowError::NonTransferableMint)));
    assert_eq!(extension_risk_flags(&vec![6], 0, Ok(None), Err(7)), Err(MintError::Unpack(7)));
    assert_eq!(extension_risk_flags(&vec![6, 10, 3, 4, 1], 0, Ok(None), Ok(1)), Ok(risk_flags::INTEREST_BEARING | risk_flags::MINT_CLOSE_AUTHORITY | risk_flags::CONFIDENTIAL_CAPABLE | risk_flags::TRANSFER_FEE));
}

#[test]
fn created_deal_records_the_terms() {
    let (d, ev) = handle_create_deal(&ctx(), &params(DeadlockRule::AutoSplit, TimerMode::FromActivation), 0, 1_000).unwrap();
    assert_eq!(d.state, DealState::Draft);
    assert_eq!(d.num_parties, 3);
    assert_eq!(d.parties[2], k(3));
    assert_eq!(d.parties[3], Pubkey::zero());
    assert_eq!(d.milestones[1].amount, 300);
    assert_eq!(d.milestones[2].amount, 0);
    assert_eq!(d.recovery_signers[1], k(21));
    assert_eq!(d.event_seq, 1);
    assert_eq!((ev.seq, ev.deal_id, ev.num_parties, ev.num_milestones, ev.total_amount), (0, 42, 3, 2, 1000));
    assert_eq!(zeroed_deal().event_seq, 0);
}

#[test]
fn creation_refuses_unaccepted_risk_and_overflowing_milestones() {
    let p = params(DeadlockRule::TimeoutRelease, TimerMode::FromDeadlock);
    assert_eq!(handle_create_deal(&ctx(), &p, risk_flags::FREEZE_AUTHORITY, 0).unwrap_err(), EscrowError::RiskFlagsNotAccepted);
    let mut p2 = p.clone();
    p2.milestone_amounts = vec![u64::MAX, 1];
    assert_eq!(create_deal_precheck(&p2, &k(1)), Err(EscrowError::Overflow));
    let mut p3 = p.clone();
    p3.milestone_amounts = vec![1000, 0];
    assert_eq!(create_deal_precheck(&p3, &k(1)), Err(EscrowError::InvalidMilestones));
    let mut p4 = p.clone();
    p4.recovery_signers = vec![k(20), k(20)];
    assert_eq!(create_deal_precheck(&p4, &k(1)), Err(EscrowError::InvalidRecoveryConfig));
    let mut p5 = p.clone();
    p5.deadlock_rule = DeadlockRule::TieBreaker;
    p5.tie_breaker = k(2);
    assert_eq!(create_deal_precheck(&p5, &k(1)), Err(EscrowError::InvalidDeadlockParams));
    let mut p6 = p.clone();
    p6.recovery_delay_secs = -1;
    assert_eq!(create_deal_precheck(&p6, &k(1)), Err(EscrowError::InvalidRecoveryConfig));
}

#[test]
fn three_party_signing_freezes_terms() {
    let (mut d, _) = handle_create_deal(&ctx(), &params(DeadlockRule::TrueDeadlock, TimerMode::FromDeadlock), 0, 1_000).unwrap();
    let before = d;
    for (i, p) in [3u8, 1, 2].into_iter().enumerate() {
        let ev = handle_sign_terms(&SignTerms { party: k(p), deal: k(100) }, &mut d, true, 1_100 + i as i64).unwrap();
        assert_eq!(ev.seq, 1 + i as u64);
        assert_eq!(ev.all_signed, i == 2);
    }
    assert_eq!(d.state, DealState::Signed);
    assert_eq!(d.signed, 0b111);
    assert_eq!(d.deadlock_consent, 0b111);
    assert_eq!(d.signed_at, 1_102);
    assert_eq!(d.parties_signed_at[0], 1_101);
    // The fund-flow terms did not move.
    assert_eq!((d.parties, d.milestones, d.deadlock_rule, d.recovery_signers), (before.parties, before.milestones, before.deadlock_rule, before.recovery_signers));
}

#[test]
fn refused_instruction_leaves_the_deal_unchanged() {
    let mut d = active_deal(DeadlockRule::TimeoutRelease, TimerMode::FromDeadlock);
    let before = d;
    let r = handle_sign_terms(&SignTerms { party: k(1), deal: k(100) }, &mut d, true, 5);
    assert_eq!(r.unwrap_err(), EscrowError::InvalidState);
    assert_eq!(d, before);
    let r = handle_withdraw_deadlock(&WithdrawDeadlock { party: k(1), deal: k(100) }, &mut d, 5);
    assert_eq!(r.unwrap_err(), EscrowError::InvalidState);
    assert_eq!(d, before);
}

#[test]
fn deposit_credits_the_vault_delta_and_reports_inconsistent_balances() {
    let (mut d, _) = handle_create_deal(&ctx(), &params(DeadlockRule::TimeoutRelease, TimerMode::FromDeadlock), 0, 1_000).unwrap();
    for p in [1u8, 2, 3] {
        handle_sign_terms(&SignTerms { party: k(p), deal: k(100) }, &mut d, true, 1_001).unwrap();
    }
    let dep = Deposit {
        payer: k(1),
        deal: k(100),
        mint: d.mint,
        vault: d.vault,
        payer_token_account: TokenAccountInfo { key: k(50), mint: d.mint, owner: k(1) },
        token_program: d.token_program,
    };
    assert_eq!(dep.validate(&d), Ok(()));
    let wrong_mint = Deposit { mint: k(77), ..dep };
    assert_eq!(wrong_mint.validate(&d), Err(AccountError::ConstraintHasOne));
    let wrong_program = Deposit { token_program: k(77), ..dep };
    assert_eq!(wrong_program.validate(&d), Err(AccountError::Escrow(EscrowError::TokenProgramMismatch)));
    // The vault shrank: the balance delta is negative.
    assert_eq!(handle_deposit(&dep, &mut d, 10, 50, 40, 2_000).unwrap_err(), EscrowError::Overflow);
    let ev = handle_deposit(&dep, &mut d, 600, 0, 594, 2_000).unwrap();
    assert_eq!((ev.amount_credited, ev.deposited_total, ev.fully_funded), (594, 594, false));
    let ev = handle_deposit(&dep, &mut d, 406, 594, 1000, 2_001).unwrap();
    assert!(ev.fully_funded);
    assert_eq!((d.state, d.funded_at), (DealState::Funded, 2_001));
}

#[test]
fn auto_split_rounds_down_to_the_payee() {
    let d = active_deal(DeadlockRule::AutoSplit, TimerMode::FromDeadlock);
    // 25% of 1001 is 250.25: the payee gets 250.
    assert_eq!(timeout_payout(&d, 1001), Ok(250));
    assert_eq!(timeout_payout(&d, 0), Ok(0));
}

#[test]
fn mutual_sign_off_resolves_even_a_true_deadlock() {
    let mut d = active_deal(DeadlockRule::TrueDeadlock, TimerMode::FromDeadlock);
    handle_raise_deadlock(&RaiseDeadlock { party: k(3), deal: k(100) }, &mut d, 3_000).unwrap();
    d.proposal_active = true;
    d.proposed_to_payee = 400;
    d.resolution_approvals = 0b111;
    let ev = handle_resolve(&resolve_ctx(&d), &mut d, i64::MAX, 1000).unwrap();
    assert_eq!((ev.path, ev.paid_to_payee, ev.refunded_to_payer), (ResolutionPath::Mutual, 400, 600));
    assert_eq!(d.state, DealState::Completed);
}

#[test]
fn activation_clock_banks_and_resumes() {
    let mut d = active_deal(DeadlockRule::TimeoutRelease, TimerMode::FromActivation);
    handle_raise_deadlock(&RaiseDeadlock { party: k(2), deal: k(100) }, &mut d, 2_040).unwrap();
    assert_eq!(d.elapsed_at_pause, 40);
    // Paused while disputed.
    assert_eq!(handle_resolve(&resolve_ctx(&d), &mut d, 9_000_000, 1000).unwrap_err(), EscrowError::TimeoutPausedByDispute);
    handle_withdraw_deadlock(&WithdrawDeadlock { party: k(2), deal: k(100) }, &mut d, 5_000).unwrap();
    assert_eq!((d.state, d.last_resumed_at, d.deadlock_raised_by), (DealState::Active, 5_000, Pubkey::zero()));
    assert_eq!(handle_resolve(&resolve_ctx(&d), &mut d, 5_059, 1000).unwrap_err(), EscrowError::TimeoutNotElapsed);
    let ev = handle_resolve(&resolve_ctx(&d), &mut d, 5_060, 1000).unwrap();
    assert_eq!((ev.path, ev.paid_to_payee, ev.refunded_to_payer), (ResolutionPath::Timeout, 1000, 0));
}

#[test]
fn resolve_accounts_must_belong_to_the_parties() {
    let d = active_deal(DeadlockRule::TimeoutRelease, TimerMode::FromDeadlock);
    let mut c = resolve_ctx(&d);
    assert_eq!(c.validate(&d), Ok(()));
    c.payee_token_account.owner = k(3);
    assert_eq!(c.validate(&d), Err(AccountError::Escrow(EscrowError::TokenAccountMismatch)));
    let mut c = resolve_ctx(&d);
    c.vault = k(77);
    assert_eq!(c.validate(&d), Err(AccountError::ConstraintHasOne));
}

#[test]
fn mutual_cancel_emits_two_events() {
    let (mut d, _) = handle_create_deal(&ctx(), &params(DeadlockRule::TimeoutRelease, TimerMode::FromDeadlock), 0, 1_000).unwrap();
    for p in [1u8, 2, 3] {
        handle_sign_terms(&SignTerms { party: k(p), deal: k(100) }, &mut d, true, 1_001).unwrap();
    }
    let cs = |p: u8| CancelSign {
        party: k(p),
        deal: k(100),
        mint: k(101),
        vault: k(102),
        payer_token_account: TokenAccountInfo { key: k(50), mint: k(101), owner: k(1) },
        token_program: k(103),
    };
    assert!(handle_cancel_sign(&cs(1), &mut d, 0, 2).unwrap().cancelled.is_none());
    assert!(handle_cancel_sign(&cs(1), &mut d, 0, 2).unwrap().cancelled.is_none());
    assert!(handle_cancel_sign(&cs(3), &mut d, 0, 2).unwrap().cancelled.is_none());
    let seq = d.event_seq;
    let out = handle_cancel_sign(&cs(2), &mut d, 0, 3).unwrap();
    assert_eq!(out.signed.seq, seq);
    assert!(out.signed.all_signed);
    let c = out.cancelled.unwrap();
    assert_eq!((c.seq, c.refunded_to_payer), (seq + 1, 0));
    assert_eq!((d.state, d.event_seq), (DealState::Cancelled, seq + 2));
}
