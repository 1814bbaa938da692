//! The deal lifecycle driven through the library's instruction handlers, with
//! a small in-memory ledger standing in for the token program and the clock.

use std::collections::HashMap;
use std::sync::atomic::{AtomicU32, Ordering as AtomicOrdering};

use anchor_lang::solana_program::program_option::COption;
use anchor_lang::solana_program::program_pack::Pack;
use anchor_spl::token_2022::spl_token_2022 as spl;
use spl::extension::default_account_state::DefaultAccountState;
use spl::extension::non_transferable::NonTransferable;
use spl::extension::permanent_delegate::PermanentDelegate;
use spl::extension::transfer_fee::TransferFeeConfig;
use spl::extension::{BaseStateWithExtensionsMut, ExtensionType, StateWithExtensionsMut};
use spl::state::{AccountState, Mint as SplMint};

use latch::error::{AccountError, EscrowError};
use latch::instructions::approve_milestone::{handle_approve_milestone, ApproveMilestone};
use latch::instructions::cancel::{handle_cancel_draft, handle_cancel_sign, CancelDraft, CancelSign};
use latch::instructions::confirm_ready::{handle_confirm_ready, ConfirmReady};
use latch::instructions::create_deal::{create_deal_precheck, handle_create_deal, CreateDeal, CreateDealParams};
use latch::instructions::deposit::{deposit_precheck, handle_deposit, Deposit};
use latch::instructions::raise_deadlock::{
    handle_raise_deadlock, handle_withdraw_deadlock, RaiseDeadlock, WithdrawDeadlock,
};
use latch::instructions::recovery::{handle_recovery_execute, handle_recovery_sign, RecoveryExecute, RecoverySign};
use latch::instructions::release_milestone::{handle_release_milestone, ReleaseMilestone};
use latch::instructions::resolve::{handle_resolution_sign, handle_resolve, Resolve, ResolutionSign};
use latch::instructions::sign_terms::{handle_sign_terms, SignTerms};
use latch::instructions::TokenAccountInfo;
use latch::mint_guard::{classic_token_program, vet_mint, MintError};
use latch::state::risk_flags;
use latch::state::{Deal, DealState, DeadlockRule, TimerMode};
use latch::Pubkey;

const START_TIME: i64 = 1_758_500_000;

static NEXT_KEY: AtomicU32 = AtomicU32::new(1);

fn new_key() -> Pubkey {
    let n = NEXT_KEY.fetch_add(1, AtomicOrdering::SeqCst);
    let mut bytes = [0xa5u8; 32];
    bytes[..4].copy_from_slice(&n.to_le_bytes());
    Pubkey::new_from_array(bytes)
}

fn token_2022_program() -> Pubkey {
    Pubkey::new_from_array(anchor_spl::token_2022::ID.to_bytes())
}

fn escrow_name(e: EscrowError) -> String {
    e.name().to_string()
}

fn account_name(e: AccountError) -> String {
    match e {
        AccountError::ConstraintHasOne => "ConstraintHasOne".to_string(),
        AccountError::Escrow(e) => escrow_name(e),
    }
}

fn mint_name(e: MintError) -> String {
    match e {
        MintError::Unpack(c) => format!("Unpack({c})"),
        MintError::Escrow(e) => escrow_name(e),
    }
}

fn assert_err<T: std::fmt::Debug>(res: Result<T, String>, name: &str) {
    match res {
        Ok(v) => panic!("expected error {name}, succeeded: {v:?}"),
        Err(e) => assert_eq!(e, name),
    }
}

// ---------- mints ----------

fn classic_mint_data(freeze: Option<Pubkey>) -> Vec<u8> {
    let mint = SplMint {
        mint_authority: COption::Some(anchor_lang::prelude::Pubkey::new_from_array([9u8; 32])),
        supply: 0,
        decimals: 6,
        is_initialized: true,
        freeze_authority: match freeze {
            Some(k) => COption::Some(anchor_lang::prelude::Pubkey::new_from_array(k.to_bytes())),
            None => COption::None,
        },
    };
    let mut data = vec![0u8; SplMint::LEN];
    SplMint::pack(mint, &mut data).unwrap();
    data
}

enum TestExt {
    PermanentDelegate(Pubkey),
    TransferFee,
    NonTransferable,
    DefaultFrozen,
}

fn mint_2022_data(exts: &[TestExt]) -> Vec<u8> {
    let types: Vec<ExtensionType> = exts
        .iter()
        .map(|e| match e {
            TestExt::PermanentDelegate(_) => ExtensionType::PermanentDelegate,
            TestExt::TransferFee => ExtensionType::TransferFeeConfig,
            TestExt::NonTransferable => ExtensionType::NonTransferable,
            TestExt::DefaultFrozen => ExtensionType::DefaultAccountState,
        })
        .collect();
    let len = ExtensionType::try_calculate_account_len::<SplMint>(&types).unwrap();
    let mut data = vec![0u8; len];
    {
        let mut state = StateWithExtensionsMut::<SplMint>::unpack_uninitialized(&mut data).unwrap();
        let mut freeze = COption::None;
        for e in exts {
            match e {
                TestExt::PermanentDelegate(k) => {
                    let ext = state.init_extension::<PermanentDelegate>(true).unwrap();
                    ext.delegate = Some(anchor_lang::prelude::Pubkey::new_from_array(k.to_bytes()))
                        .try_into()
                        .unwrap();
                }
                TestExt::TransferFee => {
                    state.init_extension::<TransferFeeConfig>(true).unwrap();
                }
                TestExt::NonTransferable => {
                    state.init_extension::<NonTransferable>(true).unwrap();
                }
                TestExt::DefaultFrozen => {
                    let ext = state.init_extension::<DefaultAccountState>(true).unwrap();
                    ext.state = AccountState::Frozen as u8;
                    freeze = COption::Some(anchor_lang::prelude::Pubkey::new_from_array([9u8; 32]));
                }
            }
        }
        state.base = SplMint {
            mint_authority: COption::Some(anchor_lang::prelude::Pubkey::new_from_array([9u8; 32])),
            supply: 0,
            decimals: 6,
            is_initialized: true,
            freeze_authority: freeze,
        };
        state.pack_base();
        state.init_account_type().unwrap();
    }
    data
}

// ---------- deals ----------

fn default_params(payer: Pubkey, payee: Pubkey, milestones: Vec<u64>) -> CreateDealParams {
    let total = milestones.iter().sum();
    CreateDealParams {
        deal_id: 1,
        parties: vec![payer, payee],
        payer_idx: 0,
        payee_idx: 1,
        approval_threshold: 2,
        terms_hash: [7u8; 32],
        price_risk_term: 0,
        total_amount: total,
        milestone_amounts: milestones,
        deadlock_rule: DeadlockRule::TimeoutRefund,
        timer_mode: TimerMode::FromDeadlock,
        timeout_secs: 3600,
        split_bps: 0,
        tie_breaker: Pubkey::zero(),
        recovery_signers: vec![new_key()],
        recovery_threshold: 1,
        recovery_delay_secs: 0,
        accepted_risk_flags: u16::MAX,
    }
}

/// `create_deal` as the program runs it: the formation rules, the mint's
/// vetting, then the new deal.
fn create(creator: Pubkey, params: &CreateDealParams, mint_owner: Pubkey, mint_data: &[u8], now: i64) -> Result<Deal, String> {
    create_deal_precheck(params, &creator).map_err(escrow_name)?;
    let flags = vet_mint(&mint_owner, mint_data).map_err(mint_name)?;
    let ctx = CreateDeal {
        creator,
        deal: new_key(),
        bump: 255,
        mint: new_key(),
        vault: new_key(),
        token_program: mint_owner,
    };
    handle_create_deal(&ctx, params, flags, now).map(|(d, _)| d).map_err(escrow_name)
}

#[derive(Clone)]
struct TokenAccount {
    mint: Pubkey,
    owner: Pubkey,
    balance: u64,
}

struct Fixture {
    now: i64,
    deal: Deal,
    deal_key: Pubkey,
    /// Transfer fee the token program charges, in basis points.
    fee_bps: u64,
    accounts: HashMap<Pubkey, TokenAccount>,
    alice: Pubkey,
    bob: Pubkey,
    alice_ata: Pubkey,
    bob_ata: Pubkey,
}

impl Fixture {
    fn from_params(params: CreateDealParams, alice: Pubkey, bob: Pubkey, mint_owner: Pubkey, mint_data: &[u8], fee_bps: u64) -> Result<Self, String> {
        let deal_key = new_key();
        let mint = new_key();
        let vault = new_key();
        create_deal_precheck(&params, &alice).map_err(escrow_name)?;
        let flags = vet_mint(&mint_owner, mint_data).map_err(mint_name)?;
        let ctx = CreateDeal { creator: alice, deal: deal_key, bump: 254, mint, vault, token_program: mint_owner };
        let (deal, created) = handle_create_deal(&ctx, &params, flags, START_TIME).map_err(escrow_name)?;
        assert_eq!(created.seq, 0);
        let alice_ata = new_key();
        let bob_ata = new_key();
        let mut accounts = HashMap::new();
        accounts.insert(alice_ata, TokenAccount { mint, owner: alice, balance: 1_000_000_000 });
        accounts.insert(bob_ata, TokenAccount { mint, owner: bob, balance: 0 });
        accounts.insert(vault, TokenAccount { mint, owner: deal_key, balance: 0 });
        Ok(Fixture { now: START_TIME, deal, deal_key, fee_bps, accounts, alice, bob, alice_ata, bob_ata })
    }

    /// A deal in Draft with the given params-modifier applied.
    fn new(milestones: Vec<u64>, tweak: impl FnOnce(&mut CreateDealParams)) -> Self {
        let alice = new_key();
        let bob = new_key();
        let mut params = default_params(alice, bob, milestones);
        tweak(&mut params);
        Fixture::from_params(params, alice, bob, classic_token_program(), &classic_mint_data(None), 0).unwrap()
    }

    fn warp(&mut self, secs: i64) {
        self.now += secs;
    }

    fn balance(&self, account: Pubkey) -> u64 {
        self.accounts[&account].balance
    }

    fn vault_balance(&self) -> u64 {
        self.balance(self.deal.vault)
    }

    fn info(&self, account: Pubkey) -> TokenAccountInfo {
        let a = &self.accounts[&account];
        TokenAccountInfo { key: account, mint: a.mint, owner: a.owner }
    }

    fn new_token_account(&mut self, owner: Pubkey) -> Pubkey {
        let key = new_key();
        self.accounts.insert(key, TokenAccount { mint: self.deal.mint, owner, balance: 0 });
        key
    }

    /// Moves tokens; returns what the destination received (net of fee).
    fn transfer(&mut self, from: Pubkey, to: Pubkey, amount: u64, fee_bps: u64) -> Result<u64, String> {
        if amount == 0 {
            return Ok(0);
        }
        if self.accounts[&from].balance < amount {
            return Err("InsufficientFunds".to_string());
        }
        let fee = amount * fee_bps / 10_000;
        self.accounts.get_mut(&from).unwrap().balance -= amount;
        self.accounts.get_mut(&to).unwrap().balance += amount - fee;
        Ok(amount - fee)
    }

    /// Runs an instruction as one transaction: on failure nothing changes.
    fn tx<T>(&mut self, f: impl FnOnce(&mut Fixture) -> Result<T, String>) -> Result<T, String> {
        let deal = self.deal;
        let accounts = self.accounts.clone();
        let r = f(self);
        if r.is_err() {
            self.deal = deal;
            self.accounts = accounts;
        }
        r
    }

    fn sign(&mut self, party: Pubkey, consent: bool) -> Result<(), String> {
        let ctx = SignTerms { party, deal: self.deal_key };
        let now = self.now;
        self.tx(|f| handle_sign_terms(&ctx, &mut f.deal, consent, now).map(|_| ()).map_err(escrow_name))
    }

    fn sign_all(&mut self) {
        let (a, b) = (self.alice, self.bob);
        self.sign(a, true).unwrap();
        self.sign(b, true).unwrap();
    }

    fn deposit(&mut self, payer: Pubkey, from: Pubkey, amount: u64) -> Result<(), String> {
        let ctx = Deposit {
            payer,
            deal: self.deal_key,
            mint: self.deal.mint,
            vault: self.deal.vault,
            payer_token_account: self.info(from),
            token_program: self.deal.token_program,
        };
        let now = self.now;
        self.tx(|f| {
            ctx.validate(&f.deal).map_err(account_name)?;
            deposit_precheck(&ctx, &f.deal, amount).map_err(escrow_name)?;
            let before = f.vault_balance();
            let vault = f.deal.vault;
            let fee = f.fee_bps;
            f.transfer(from, vault, amount, fee)?;
            let after = f.vault_balance();
            handle_deposit(&ctx, &mut f.deal, amount, before, after, now).map(|_| ()).map_err(escrow_name)
        })
    }

    fn fund(&mut self) {
        let (a, ata, total) = (self.alice, self.alice_ata, self.deal.total_amount);
        self.deposit(a, ata, total).unwrap();
    }

    fn confirm_ready(&mut self, party: Pubkey) -> Result<(), String> {
        let ctx = ConfirmReady { party, deal: self.deal_key };
        let now = self.now;
        self.tx(|f| handle_confirm_ready(&ctx, &mut f.deal, now).map(|_| ()).map_err(escrow_name))
    }

    fn activate(&mut self) {
        let (a, b) = (self.alice, self.bob);
        self.confirm_ready(a).unwrap();
        self.confirm_ready(b).unwrap();
    }

    fn to_active(&mut self) {
        self.sign_all();
        self.fund();
        self.activate();
    }

    fn approve(&mut self, party: Pubkey, index: u8) -> Result<(), String> {
        let ctx = ApproveMilestone { party, deal: self.deal_key };
        let now = self.now;
        self.tx(|f| handle_approve_milestone(&ctx, &mut f.deal, index, now).map(|_| ()).map_err(escrow_name))
    }

    fn release(&mut self, payee_account: Pubkey, index: u8) -> Result<(), String> {
        let ctx = ReleaseMilestone {
            deal: self.deal_key,
            mint: self.deal.mint,
            vault: self.deal.vault,
            payee_token_account: self.info(payee_account),
            token_program: self.deal.token_program,
        };
        let now = self.now;
        self.tx(|f| {
            ctx.validate(&f.deal).map_err(account_name)?;
            let ev = handle_release_milestone(&ctx, &mut f.deal, index, now).map_err(escrow_name)?;
            let vault = f.deal.vault;
            f.transfer(vault, payee_account, ev.amount, 0)?;
            Ok(())
        })
    }

    fn raise(&mut self, party: Pubkey) -> Result<(), String> {
        let ctx = RaiseDeadlock { party, deal: self.deal_key };
        let now = self.now;
        self.tx(|f| handle_raise_deadlock(&ctx, &mut f.deal, now).map(|_| ()).map_err(escrow_name))
    }

    fn withdraw(&mut self, party: Pubkey) -> Result<(), String> {
        let ctx = WithdrawDeadlock { party, deal: self.deal_key };
        let now = self.now;
        self.tx(|f| handle_withdraw_deadlock(&ctx, &mut f.deal, now).map(|_| ()).map_err(escrow_name))
    }

    fn resolution_sign(&mut self, signer: Pubkey, amount: u64) -> Result<(), String> {
        let ctx = ResolutionSign { signer, deal: self.deal_key };
        let now = self.now;
        self.tx(|f| handle_resolution_sign(&ctx, &mut f.deal, amount, now).map(|_| ()).map_err(escrow_name))
    }

    fn resolve(&mut self) -> Result<(), String> {
        let ctx = Resolve {
            deal: self.deal_key,
            mint: self.deal.mint,
            vault: self.deal.vault,
            payer_token_account: self.info(self.alice_ata),
            payee_token_account: self.info(self.bob_ata),
            token_program: self.deal.token_program,
        };
        let now = self.now;
        self.tx(|f| {
            ctx.validate(&f.deal).map_err(account_name)?;
            let remaining = f.vault_balance();
            let ev = handle_resolve(&ctx, &mut f.deal, now, remaining).map_err(escrow_name)?;
            let (vault, alice_ata, bob_ata) = (f.deal.vault, f.alice_ata, f.bob_ata);
            f.transfer(vault, bob_ata, ev.paid_to_payee, 0)?;
            f.transfer(vault, alice_ata, ev.refunded_to_payer, 0)?;
            Ok(())
        })
    }

    fn recovery_sign(&mut self, signer: Pubkey, amount: u64) -> Result<(), String> {
        let ctx = RecoverySign { signer, deal: self.deal_key };
        let now = self.now;
        self.tx(|f| handle_recovery_sign(&ctx, &mut f.deal, amount, now).map(|_| ()).map_err(escrow_name))
    }

    fn recovery_execute(&mut self) -> Result<(), String> {
        let ctx = RecoveryExecute {
            deal: self.deal_key,
            mint: self.deal.mint,
            vault: self.deal.vault,
            payer_token_account: self.info(self.alice_ata),
            payee_token_account: self.info(self.bob_ata),
            token_program: self.deal.token_program,
        };
        let now = self.now;
        self.tx(|f| {
            ctx.validate(&f.deal).map_err(account_name)?;
            let remaining = f.vault_balance();
            let ev = handle_recovery_execute(&ctx, &mut f.deal, now, remaining).map_err(escrow_name)?;
            let (vault, alice_ata, bob_ata) = (f.deal.vault, f.alice_ata, f.bob_ata);
            f.transfer(vault, bob_ata, ev.paid_to_payee, 0)?;
            f.transfer(vault, alice_ata, ev.refunded_to_payer, 0)?;
            Ok(())
        })
    }

    fn cancel_draft(&mut self, party: Pubkey) -> Result<(), String> {
        let ctx = CancelDraft { party, deal: self.deal_key };
        let now = self.now;
        self.tx(|f| handle_cancel_draft(&ctx, &mut f.deal, now).map(|_| ()).map_err(escrow_name))
    }

    fn cancel_sign(&mut self, party: Pubkey) -> Result<(), String> {
        let ctx = CancelSign {
            party,
            deal: self.deal_key,
            mint: self.deal.mint,
            vault: self.deal.vault,
            payer_token_account: self.info(self.alice_ata),
            token_program: self.deal.token_program,
        };
        let now = self.now;
        self.tx(|f| {
            ctx.validate(&f.deal).map_err(account_name)?;
            let vault_amount = f.vault_balance();
            let out = handle_cancel_sign(&ctx, &mut f.deal, vault_amount, now).map_err(escrow_name)?;
            if let Some(c) = out.cancelled {
                let (vault, alice_ata) = (f.deal.vault, f.alice_ata);
                f.transfer(vault, alice_ata, c.refunded_to_payer, 0)?;
            }
            Ok(())
        })
    }
}

fn deadlocked_fixture(tweak: impl FnOnce(&mut CreateDealParams)) -> Fixture {
    let mut f = Fixture::new(vec![1000], tweak);
    f.to_active();
    let bob = f.bob;
    f.raise(bob).unwrap();
    assert_eq!(f.deal.state, DealState::Deadlocked);
    f
}

fn activation_fixture(rule: DeadlockRule, timeout: i64) -> Fixture {
    let mut f = Fixture::new(vec![1000], move |p| {
        p.deadlock_rule = rule;
        p.timer_mode = TimerMode::FromActivation;
        p.timeout_secs = timeout;
    });
    f.to_active();
    f
}

// ---------- lifecycle ----------

#[test]
fn happy_path_two_party_two_milestones() {
    let mut f = Fixture::new(vec![600, 400], |_| {});
    assert_eq!(f.deal.state, DealState::Draft);

    // Both parties sign the terms hash.
    f.sign_all();
    assert_eq!(f.deal.state, DealState::Signed);
    assert_eq!(f.deal.signed, 0b11);
    assert!(f.deal.parties_signed_at[0] > 0 && f.deal.parties_signed_at[1] > 0);

    // Payer funds the vault in two partial deposits.
    let (alice, bob, alice_ata, bob_ata) = (f.alice, f.bob, f.alice_ata, f.bob_ata);
    f.deposit(alice, alice_ata, 250).unwrap();
    assert_eq!(f.deal.state, DealState::Signed);
    assert_eq!(f.deal.deposited, 250);
    f.deposit(alice, alice_ata, 750).unwrap();
    assert_eq!(f.deal.state, DealState::Funded);
    assert_eq!(f.deal.deposited, 1000);
    assert_eq!(f.vault_balance(), 1000);

    // Everyone confirms readiness.
    f.activate();
    assert_eq!(f.deal.state, DealState::Active);

    // Milestone 0: both approve (threshold 2), anyone cranks the release.
    f.approve(alice, 0).unwrap();
    f.approve(bob, 0).unwrap();
    f.release(bob_ata, 0).unwrap();
    assert_eq!(f.deal.state, DealState::Active);
    assert!(f.deal.milestones[0].released);
    assert_eq!(f.deal.released_total, 600);
    assert_eq!(f.balance(bob_ata), 600);

    // Milestone 1 completes the deal.
    f.approve(alice, 1).unwrap();
    f.approve(bob, 1).unwrap();
    f.release(bob_ata, 1).unwrap();
    assert_eq!(f.deal.state, DealState::Completed);
    assert_eq!(f.deal.released_total, 1000);
    assert_eq!(f.balance(bob_ata), 1000);
    assert_eq!(f.vault_balance(), 0);

    // Event sequence advanced monotonically the whole way.
    assert!(f.deal.event_seq >= 12);
}

#[test]
fn threshold_release_without_full_approval() {
    // Threshold 1 of 2: payee's own approval is enough to crank the release.
    let mut f = Fixture::new(vec![1000], |p| p.approval_threshold = 1);
    f.to_active();
    let (bob, bob_ata) = (f.bob, f.bob_ata);
    f.approve(bob, 0).unwrap();
    f.release(bob_ata, 0).unwrap();
    assert_eq!(f.deal.state, DealState::Completed);
    assert_eq!(f.balance(bob_ata), 1000);
}

#[test]
fn token_2022_lifecycle() {
    // Same happy path on Token-2022 with a plain (extension-free) mint.
    let alice = new_key();
    let bob = new_key();
    let params = default_params(alice, bob, vec![5000]);
    let mut f = Fixture::from_params(params, alice, bob, token_2022_program(), &mint_2022_data(&[]), 0).unwrap();
    f.sign_all();
    let ata = f.alice_ata;
    f.deposit(alice, ata, 5000).unwrap();
    f.activate();
    f.approve(alice, 0).unwrap();
    f.approve(bob, 0).unwrap();
    let bob_ata = f.bob_ata;
    f.release(bob_ata, 0).unwrap();
    assert_eq!(f.deal.state, DealState::Completed);
    assert_eq!(f.balance(bob_ata), 5000);
}

// ---------- cancel ----------

#[test]
fn any_party_cancels_draft() {
    let mut f = Fixture::new(vec![1000], |_| {});
    let bob = f.bob;
    f.cancel_draft(bob).unwrap();
    assert_eq!(f.deal.state, DealState::Cancelled);
}

#[test]
fn stranger_cannot_cancel_draft() {
    let mut f = Fixture::new(vec![1000], |_| {});
    let mallory = new_key();
    assert_err(f.cancel_draft(mallory), "NotAParty");
}

#[test]
fn draft_cancel_invalid_after_signing() {
    let mut f = Fixture::new(vec![1000], |_| {});
    f.sign_all();
    let alice = f.alice;
    assert_err(f.cancel_draft(alice), "InvalidState");
}

#[test]
fn mutual_cancel_refunds_payer() {
    let mut f = Fixture::new(vec![1000], |_| {});
    f.sign_all();
    f.fund();
    let alice_before = f.balance(f.alice_ata);

    // One party alone does not cancel.
    let (alice, bob) = (f.alice, f.bob);
    f.cancel_sign(alice).unwrap();
    assert_eq!(f.deal.state, DealState::Funded);

    // Second signature completes the mutual cancel and refunds the deposit.
    f.cancel_sign(bob).unwrap();
    assert_eq!(f.deal.state, DealState::Cancelled);
    assert_eq!(f.balance(f.alice_ata), alice_before + 1000);
    assert_eq!(f.vault_balance(), 0);
}

#[test]
fn mutual_cancel_not_available_once_active() {
    let mut f = Fixture::new(vec![1000], |_| {});
    f.to_active();
    let alice = f.alice;
    assert_err(f.cancel_sign(alice), "InvalidState");
}

// ---------- deadlock rules ----------

#[test]
fn timeout_release_pays_payee_after_timeout() {
    let mut f = deadlocked_fixture(|p| {
        p.deadlock_rule = DeadlockRule::TimeoutRelease;
        p.timeout_secs = 3600;
    });
    // Too early.
    assert_err(f.resolve(), "TimeoutNotElapsed");
    f.warp(3601);
    f.resolve().unwrap();
    assert_eq!(f.deal.state, DealState::Completed);
    assert_eq!(f.balance(f.bob_ata), 1000);
}

#[test]
fn timeout_refund_pays_payer_after_timeout() {
    let mut f = deadlocked_fixture(|p| {
        p.deadlock_rule = DeadlockRule::TimeoutRefund;
        p.timeout_secs = 3600;
    });
    let alice_before = f.balance(f.alice_ata);
    f.warp(3601);
    f.resolve().unwrap();
    assert_eq!(f.balance(f.alice_ata), alice_before + 1000);
    assert_eq!(f.balance(f.bob_ata), 0);
}

#[test]
fn auto_split_divides_by_bps() {
    let mut f = deadlocked_fixture(|p| {
        p.deadlock_rule = DeadlockRule::AutoSplit;
        p.timeout_secs = 100;
        p.split_bps = 3000; // 30% to payee
    });
    let alice_before = f.balance(f.alice_ata);
    f.warp(101);
    f.resolve().unwrap();
    assert_eq!(f.balance(f.bob_ata), 300);
    assert_eq!(f.balance(f.alice_ata), alice_before + 700);
}

#[test]
fn tie_breaker_decides() {
    let arbiter = new_key();
    let mut f = deadlocked_fixture(move |p| {
        p.deadlock_rule = DeadlockRule::TieBreaker;
        p.tie_breaker = arbiter;
    });

    // No timeout path exists for this rule.
    f.warp(1_000_000);
    assert_err(f.resolve(), "ResolutionConditionsNotMet");
    // A party cannot decide alone.
    let bob = f.bob;
    f.resolution_sign(bob, 1000).unwrap();
    assert_err(f.resolve(), "ResolutionConditionsNotMet");
    // The tie-breaker's decision resolves: 40% to payee.
    f.resolution_sign(arbiter, 400).unwrap();
    let alice_before = f.balance(f.alice_ata);
    f.resolve().unwrap();
    assert_eq!(f.balance(f.bob_ata), 400);
    assert_eq!(f.balance(f.alice_ata), alice_before + 600);
}

#[test]
fn long_sunset_refunds_after_long_wait_but_mutual_resolves_earlier() {
    let year: i64 = 365 * 24 * 3600;
    let mut f = deadlocked_fixture(move |p| {
        p.deadlock_rule = DeadlockRule::LongSunset;
        p.timeout_secs = year;
    });
    // Mutual agreement works before the sunset: both sign the same payout.
    let (alice, bob) = (f.alice, f.bob);
    f.resolution_sign(alice, 500).unwrap();
    f.resolution_sign(bob, 500).unwrap();
    let alice_before = f.balance(f.alice_ata);
    f.resolve().unwrap();
    assert_eq!(f.balance(f.bob_ata), 500);
    assert_eq!(f.balance(f.alice_ata), alice_before + 500);

    // And the sunset path alone refunds the payer.
    let mut f = deadlocked_fixture(move |p| {
        p.deadlock_rule = DeadlockRule::LongSunset;
        p.timeout_secs = year;
    });
    assert_err(f.resolve(), "TimeoutNotElapsed");
    f.warp(year + 1);
    let alice_before = f.balance(f.alice_ata);
    f.resolve().unwrap();
    assert_eq!(f.balance(f.alice_ata), alice_before + 1000);
}

#[test]
fn true_deadlock_only_mutual() {
    let mut f = deadlocked_fixture(|p| p.deadlock_rule = DeadlockRule::TrueDeadlock);
    f.warp(10 * 365 * 24 * 3600);
    assert_err(f.resolve(), "ResolutionConditionsNotMet");
    let (alice, bob) = (f.alice, f.bob);
    f.resolution_sign(alice, 0).unwrap();
    f.resolution_sign(bob, 0).unwrap();
    let alice_before = f.balance(f.alice_ata);
    f.resolve().unwrap();
    assert_eq!(f.balance(f.alice_ata), alice_before + 1000);
}

#[test]
fn changing_proposal_resets_approvals() {
    let mut f = deadlocked_fixture(|_| {});
    // Alice proposes 900-to-payee; Bob counter-proposes 100 — Alice's approval must not carry over.
    let (alice, bob) = (f.alice, f.bob);
    f.resolution_sign(alice, 900).unwrap();
    f.resolution_sign(bob, 100).unwrap();
    assert_eq!(f.deal.proposed_to_payee, 100);
    assert_eq!(f.deal.resolution_approvals, 0b10);
    assert_err(f.resolve(), "TimeoutNotElapsed");
    // Alice joins Bob's proposal → resolves.
    f.resolution_sign(alice, 100).unwrap();
    f.resolve().unwrap();
    assert_eq!(f.balance(f.bob_ata), 100);
}

// ---------- recovery ----------

#[test]
fn two_of_three_recovery() {
    let (r1, r2, r3) = (new_key(), new_key(), new_key());
    let mut f = Fixture::new(vec![1000], move |p| {
        p.recovery_signers = vec![r1, r2, r3];
        p.recovery_threshold = 2;
    });
    f.sign_all();
    f.fund();

    // No proposal yet.
    assert_err(f.recovery_execute(), "NoActiveProposal");

    // One signature is below the threshold.
    f.recovery_sign(r1, 1000).unwrap();
    assert_err(f.recovery_execute(), "InsufficientRecoverySignatures");

    // A second signer on a DIFFERENT amount resets the proposal.
    f.recovery_sign(r2, 600).unwrap();
    assert_err(f.recovery_execute(), "InsufficientRecoverySignatures");

    // r3 matches r2's amount → threshold met; anyone executes; funds go only to parties.
    f.recovery_sign(r3, 600).unwrap();
    let alice_before = f.balance(f.alice_ata);
    f.recovery_execute().unwrap();
    assert_eq!(f.deal.state, DealState::Completed);
    assert_eq!(f.balance(f.bob_ata), 600);
    assert_eq!(f.balance(f.alice_ata), alice_before + 400);
}

#[test]
fn recovery_gating() {
    let r1 = new_key();
    let mut f = Fixture::new(vec![1000], move |p| {
        p.recovery_signers = vec![r1];
        p.recovery_threshold = 1;
    });

    // Not valid before funding.
    assert_err(f.recovery_sign(r1, 0), "InvalidState");
    f.sign_all();
    assert_err(f.recovery_sign(r1, 0), "InvalidState");

    f.fund();
    // A party is not a recovery signer.
    let alice = f.alice;
    assert_err(f.recovery_sign(alice, 0), "NotARecoverySigner");

    // Payout above the vault balance cannot execute.
    f.recovery_sign(r1, 2000).unwrap();
    assert_err(f.recovery_execute(), "PayoutExceedsVault");
}

#[test]
fn recovery_notice_delay() {
    let (r1, r2) = (new_key(), new_key());
    let mut f = Fixture::new(vec![1000], move |p| {
        p.recovery_signers = vec![r1, r2];
        p.recovery_threshold = 2;
        p.recovery_delay_secs = 72 * 3600; // 72h notice window
    });
    f.sign_all();
    f.fund();
    f.recovery_sign(r1, 1000).unwrap();
    f.recovery_sign(r2, 1000).unwrap();

    // Threshold met, but the notice window hasn't elapsed.
    assert_err(f.recovery_execute(), "RecoveryDelayNotElapsed");
    f.warp(72 * 3600 - 60);
    assert_err(f.recovery_execute(), "RecoveryDelayNotElapsed");
    f.warp(61);
    f.recovery_execute().unwrap();
    assert_eq!(f.deal.state, DealState::Completed);
    assert_eq!(f.balance(f.bob_ata), 1000);
}

#[test]
fn changing_recovery_proposal_restarts_notice_clock() {
    let (r1, r2) = (new_key(), new_key());
    let mut f = Fixture::new(vec![1000], move |p| {
        p.recovery_signers = vec![r1, r2];
        p.recovery_threshold = 2;
        p.recovery_delay_secs = 3600;
    });
    f.sign_all();
    f.fund();
    f.recovery_sign(r1, 1000).unwrap();
    f.recovery_sign(r2, 1000).unwrap();
    // Wait out the first proposal's notice window, then change the proposal:
    // the clock must restart from zero for the new amount.
    f.warp(3601);
    f.recovery_sign(r1, 500).unwrap();
    f.recovery_sign(r2, 500).unwrap();
    assert_err(f.recovery_execute(), "RecoveryDelayNotElapsed");
    f.warp(3601);
    f.recovery_execute().unwrap();
    assert_eq!(f.balance(f.bob_ata), 500);
}

#[test]
fn recovery_works_from_deadlock() {
    let r1 = new_key();
    let mut f = Fixture::new(vec![1000], move |p| {
        p.recovery_signers = vec![r1];
        p.recovery_threshold = 1;
        p.deadlock_rule = DeadlockRule::TrueDeadlock;
    });
    f.to_active();
    let alice = f.alice;
    f.raise(alice).unwrap();

    // Even a true-deadlock contract has the recovery path (court order / key loss).
    f.recovery_sign(r1, 1000).unwrap();
    f.recovery_execute().unwrap();
    assert_eq!(f.balance(f.bob_ata), 1000);
    assert_eq!(f.deal.state, DealState::Completed);
}

// ---------- timer modes ----------

#[test]
fn from_activation_auto_release_without_any_deadlock() {
    // Marketplace-style: funds auto-release to the payee N seconds after
    // activation unless someone disputes — no deadlock ever raised.
    let mut f = activation_fixture(DeadlockRule::TimeoutRelease, 3600);
    assert_err(f.resolve(), "TimeoutNotElapsed");
    f.warp(3601);
    f.resolve().unwrap();
    assert_eq!(f.deal.state, DealState::Completed);
    assert_eq!(f.balance(f.bob_ata), 1000);
}

#[test]
fn from_activation_dispute_pauses_and_withdraw_resumes() {
    let mut f = activation_fixture(DeadlockRule::TimeoutRelease, 3600);
    let (alice, bob) = (f.alice, f.bob);

    // Half the clock runs, then the payer disputes.
    f.warp(1800);
    f.raise(alice).unwrap();
    assert_eq!(f.deal.elapsed_at_pause, 1800);

    // Paused: even far past the nominal deadline, timeout cannot fire.
    f.warp(1_000_000);
    assert_err(f.resolve(), "TimeoutPausedByDispute");

    // Only the raiser can withdraw.
    assert_err(f.withdraw(bob), "OnlyRaiserMayWithdraw");
    f.withdraw(alice).unwrap();
    assert_eq!(f.deal.state, DealState::Active);

    // Clock resumes with 1800s banked: 1799 more isn't enough, 1801 is.
    f.warp(1799);
    assert_err(f.resolve(), "TimeoutNotElapsed");
    f.warp(2);
    f.resolve().unwrap();
    assert_eq!(f.balance(f.bob_ata), 1000);
}

#[test]
fn from_activation_mutual_settlement_still_works_while_disputed() {
    let mut f = activation_fixture(DeadlockRule::TimeoutRefund, 3600);
    let (alice, bob) = (f.alice, f.bob);
    f.raise(bob).unwrap();
    f.resolution_sign(alice, 250).unwrap();
    f.resolution_sign(bob, 250).unwrap();
    let alice_before = f.balance(f.alice_ata);
    f.resolve().unwrap();
    assert_eq!(f.balance(f.bob_ata), 250);
    assert_eq!(f.balance(f.alice_ata), alice_before + 750);
}

#[test]
fn withdraw_discards_pending_proposal() {
    let mut f = activation_fixture(DeadlockRule::TimeoutRefund, 3600);
    let (alice, bob) = (f.alice, f.bob);
    f.raise(alice).unwrap();
    f.resolution_sign(bob, 900).unwrap();
    f.withdraw(alice).unwrap();
    assert!(!f.deal.proposal_active);
    assert_eq!(f.deal.resolution_approvals, 0);
}

#[test]
fn from_deadlock_mode_cannot_resolve_while_active() {
    // In FromDeadlock mode the timeout only ever runs after a deadlock is raised.
    let mut f = Fixture::new(vec![1000], |p| {
        p.deadlock_rule = DeadlockRule::TimeoutRelease;
        p.timer_mode = TimerMode::FromDeadlock;
        p.timeout_secs = 60;
    });
    f.to_active();
    f.warp(1_000_000);
    assert_err(f.resolve(), "InvalidState");
}

#[test]
fn from_activation_invalid_for_tiebreaker_and_true_deadlock() {
    // No configuration may create a timeout backdoor into a true deadlock.
    for rule in [DeadlockRule::TrueDeadlock, DeadlockRule::TieBreaker] {
        let (alice, bob) = (new_key(), new_key());
        let mut params = default_params(alice, bob, vec![1000]);
        params.deadlock_rule = rule;
        params.timer_mode = TimerMode::FromActivation;
        params.tie_breaker = new_key();
        assert_err(create(alice, &params, classic_token_program(), &classic_mint_data(None), START_TIME), "InvalidTimerMode");
    }
}

#[test]
fn true_deadlock_still_never_times_out() {
    // A true-deadlock contract stays locked until mutual sign-off, no matter
    // how much time passes, in every mode.
    let mut f = Fixture::new(vec![1000], |p| p.deadlock_rule = DeadlockRule::TrueDeadlock);
    f.to_active();
    // Not resolvable while Active (FromDeadlock mode).
    f.warp(100 * 365 * 24 * 3600);
    assert_err(f.resolve(), "InvalidState");
    // Nor by time once deadlocked.
    let alice = f.alice;
    f.raise(alice).unwrap();
    f.warp(100 * 365 * 24 * 3600);
    assert_err(f.resolve(), "ResolutionConditionsNotMet");
}

// ---------- validation ----------

fn try_create(tweak: impl FnOnce(&mut CreateDealParams)) -> Result<Deal, String> {
    let (alice, bob) = (new_key(), new_key());
    let mut params = default_params(alice, bob, vec![1000]);
    tweak(&mut params);
    create(alice, &params, classic_token_program(), &classic_mint_data(None), START_TIME)
}

#[test]
fn create_rejects_bad_params() {
    assert_err(try_create(|p| p.parties = vec![p.parties[0]]), "InvalidParties");
    assert_err(try_create(|p| p.parties = vec![p.parties[0], p.parties[0]]), "DuplicateParty");
    assert_err(try_create(|p| p.parties = vec![new_key(), new_key()]), "CreatorNotParty");
    assert_err(try_create(|p| p.payee_idx = 0), "InvalidParties");
    assert_err(try_create(|p| p.approval_threshold = 0), "InvalidThreshold");
    assert_err(try_create(|p| p.approval_threshold = 3), "InvalidThreshold");
    assert_err(try_create(|p| p.milestone_amounts = vec![]), "InvalidMilestones");
    assert_err(try_create(|p| p.milestone_amounts = vec![999]), "MilestoneSumMismatch");
    assert_err(try_create(|p| p.timeout_secs = 0), "InvalidDeadlockParams");
    assert_err(
        try_create(|p| {
            p.deadlock_rule = DeadlockRule::TieBreaker;
            p.tie_breaker = Pubkey::zero();
        }),
        "InvalidDeadlockParams",
    );
    assert_err(
        try_create(|p| {
            p.deadlock_rule = DeadlockRule::AutoSplit;
            p.split_bps = 10_001;
        }),
        "InvalidDeadlockParams",
    );
    assert_err(try_create(|p| p.recovery_signers = vec![]), "InvalidRecoveryConfig");
    assert_err(try_create(|p| p.recovery_threshold = 2), "InvalidRecoveryConfig");
}

#[test]
fn sign_terms_gating() {
    let mut f = Fixture::new(vec![1000], |_| {});
    // A stranger cannot sign.
    let mallory = new_key();
    assert_err(f.sign(mallory, true), "NotAParty");
    // Double-sign fails.
    let alice = f.alice;
    f.sign(alice, true).unwrap();
    assert_err(f.sign(alice, true), "AlreadySigned");
}

#[test]
fn true_deadlock_requires_consent() {
    let mut f = Fixture::new(vec![1000], |p| p.deadlock_rule = DeadlockRule::TrueDeadlock);
    let alice = f.alice;
    assert_err(f.sign(alice, false), "TrueDeadlockConsentRequired");
    f.sign(alice, true).unwrap();
    assert_eq!(f.deal.deadlock_consent, 0b01);
}

#[test]
fn deposit_gating() {
    let mut f = Fixture::new(vec![1000], |_| {});
    let (alice, bob, alice_ata, bob_ata) = (f.alice, f.bob, f.alice_ata, f.bob_ata);
    // Deposit before Signed fails.
    assert_err(f.deposit(alice, alice_ata, 100), "InvalidState");

    f.sign_all();
    // Only the payer party may deposit.
    assert_err(f.deposit(bob, bob_ata, 100), "OnlyPayerMayDeposit");
    // Zero deposit fails.
    assert_err(f.deposit(alice, alice_ata, 0), "ZeroDeposit");
    // Over-funding fails and rolls back.
    assert_err(f.deposit(alice, alice_ata, 1001), "OverFunded");
    assert_eq!(f.deal.deposited, 0);
}

#[test]
fn release_gating() {
    let mut f = Fixture::new(vec![600, 400], |_| {});
    f.to_active();
    let (alice, bob, bob_ata) = (f.alice, f.bob, f.bob_ata);

    // No approvals yet.
    assert_err(f.release(bob_ata, 0), "InsufficientApprovals");

    // Approve milestone 1 fully, but it cannot release before milestone 0.
    f.approve(alice, 1).unwrap();
    f.approve(bob, 1).unwrap();
    assert_err(f.release(bob_ata, 1), "MilestonesOutOfOrder");

    // Out-of-range index.
    assert_err(f.release(bob_ata, 5), "MilestoneOutOfRange");

    // A stranger's token account cannot be the payee account.
    let mallory = new_key();
    let mallory_ata = f.new_token_account(mallory);
    f.approve(alice, 0).unwrap();
    f.approve(bob, 0).unwrap();
    assert_err(f.release(mallory_ata, 0), "TokenAccountMismatch");
}

#[test]
fn wrong_state_transitions_rejected() {
    let mut f = Fixture::new(vec![1000], |_| {});
    let alice = f.alice;
    // Cannot confirm_ready, approve, raise deadlock, or resolve from Draft.
    assert_err(f.confirm_ready(alice), "InvalidState");
    assert_err(f.approve(alice, 0), "InvalidState");
    assert_err(f.raise(alice), "InvalidState");
    // After completion, nothing moves.
    let mut f = Fixture::new(vec![1000], |p| p.approval_threshold = 1);
    f.to_active();
    let (alice, bob, bob_ata) = (f.alice, f.bob, f.bob_ata);
    f.approve(bob, 0).unwrap();
    f.release(bob_ata, 0).unwrap();
    assert_eq!(f.deal.state, DealState::Completed);
    assert_err(f.raise(alice), "InvalidState");
}

// ---------- mint vetting ----------

fn try_create_2022(exts: &[TestExt], accepted: u16) -> Result<Deal, String> {
    let (alice, bob) = (new_key(), new_key());
    let mut params = default_params(alice, bob, vec![1000]);
    params.accepted_risk_flags = accepted;
    create(alice, &params, token_2022_program(), &mint_2022_data(exts), START_TIME)
}

#[test]
fn non_transferable_mint_rejected() {
    assert_err(try_create_2022(&[TestExt::NonTransferable], u16::MAX), "NonTransferableMint");
}

#[test]
fn default_frozen_mint_rejected() {
    assert_err(try_create_2022(&[TestExt::DefaultFrozen], u16::MAX), "DefaultFrozenMint");
}

#[test]
fn permanent_delegate_flagged_and_requires_acceptance() {
    let delegate = new_key();
    // Not accepted → rejected.
    assert_err(try_create_2022(&[TestExt::PermanentDelegate(delegate)], 0), "RiskFlagsNotAccepted");
    // Accepted → recorded in the deal.
    let d = try_create_2022(&[TestExt::PermanentDelegate(delegate)], risk_flags::PERMANENT_DELEGATE).unwrap();
    assert_eq!(d.risk_flags & risk_flags::PERMANENT_DELEGATE, risk_flags::PERMANENT_DELEGATE);
}

#[test]
fn freeze_authority_flagged_on_classic_mint() {
    let (alice, bob) = (new_key(), new_key());
    let freeze = new_key();
    let data = classic_mint_data(Some(freeze));

    // Not accepted → rejected.
    let mut params = default_params(alice, bob, vec![1000]);
    params.accepted_risk_flags = 0;
    assert_err(create(alice, &params, classic_token_program(), &data, START_TIME), "RiskFlagsNotAccepted");

    // Accepted → flag recorded (this is the USDC/USDT disclosure path).
    let mut params = default_params(alice, bob, vec![1000]);
    params.deal_id = 2;
    params.accepted_risk_flags = risk_flags::FREEZE_AUTHORITY;
    let d = create(alice, &params, classic_token_program(), &data, START_TIME).unwrap();
    assert_eq!(d.risk_flags, risk_flags::FREEZE_AUTHORITY);
}

#[test]
fn transfer_fee_mint_credits_by_balance_delta() {
    // 1% fee. Deal total 990: a 1000-token deposit nets exactly 990 after fee.
    let (alice, bob) = (new_key(), new_key());
    let mut params = default_params(alice, bob, vec![990]);
    params.accepted_risk_flags = risk_flags::TRANSFER_FEE;
    let data = mint_2022_data(&[TestExt::TransferFee]);
    let mut f = Fixture::from_params(params, alice, bob, token_2022_program(), &data, 100).unwrap();
    f.sign_all();

    // Sending 1000 credits 990 — the deal counts what the vault received.
    let ata = f.alice_ata;
    f.deposit(alice, ata, 1000).unwrap();
    assert_eq!(f.deal.deposited, 990);
    assert_eq!(f.deal.state, DealState::Funded);
}
