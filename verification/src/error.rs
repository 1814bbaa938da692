use vstd::prelude::*;

verus! {

/// Why an instruction was refused.
#[derive(Clone, Copy, Debug, PartialEq, Eq, Structural)]
pub enum EscrowError {
    InvalidParties,
    DuplicateParty,
    CreatorNotParty,
    InvalidMilestones,
    MilestoneSumMismatch,
    InvalidThreshold,
    InvalidDeadlockParams,
    InvalidRecoveryConfig,
    NotAParty,
    NotARecoverySigner,
    InvalidState,
    AlreadySigned,
    TrueDeadlockConsentRequired,
    OnlyPayerMayDeposit,
    ZeroDeposit,
    OverFunded,
    MilestoneOutOfRange,
    MilestoneAlreadyReleased,
    MilestonesOutOfOrder,
    InsufficientApprovals,
    ResolutionConditionsNotMet,
    TimeoutNotElapsed,
    NoTimeoutPath,
    PayoutExceedsVault,
    InsufficientRecoverySignatures,
    NoActiveProposal,
    TokenAccountMismatch,
    MintMismatch,
    TokenProgramMismatch,
    NonTransferableMint,
    DefaultFrozenMint,
    ActiveTransferHook,
    UnknownMintExtension,
    RiskFlagsNotAccepted,
    TimeoutPausedByDispute,
    OnlyRaiserMayWithdraw,
    InvalidTimerMode,
    RecoveryDelayNotElapsed,
    Overflow,
}

impl EscrowError {
    /// The error's name, as the program logs it.
    pub open spec fn name_spec(self) -> Seq<char> {
        match self {
            EscrowError::InvalidParties => "InvalidParties"@,
            EscrowError::DuplicateParty => "DuplicateParty"@,
            EscrowError::CreatorNotParty => "CreatorNotParty"@,
            EscrowError::InvalidMilestones => "InvalidMilestones"@,
            EscrowError::MilestoneSumMismatch => "MilestoneSumMismatch"@,
            EscrowError::InvalidThreshold => "InvalidThreshold"@,
            EscrowError::InvalidDeadlockParams => "InvalidDeadlockParams"@,
            EscrowError::InvalidRecoveryConfig => "InvalidRecoveryConfig"@,
            EscrowError::NotAParty => "NotAParty"@,
            EscrowError::NotARecoverySigner => "NotARecoverySigner"@,
            EscrowError::InvalidState => "InvalidState"@,
            EscrowError::AlreadySigned => "AlreadySigned"@,
            EscrowError::TrueDeadlockConsentRequired => "TrueDeadlockConsentRequired"@,
            EscrowError::OnlyPayerMayDeposit => "OnlyPayerMayDeposit"@,
            EscrowError::ZeroDeposit => "ZeroDeposit"@,
            EscrowError::OverFunded => "OverFunded"@,
            EscrowError::MilestoneOutOfRange => "MilestoneOutOfRange"@,
            EscrowError::MilestoneAlreadyReleased => "MilestoneAlreadyReleased"@,
            EscrowError::MilestonesOutOfOrder => "MilestonesOutOfOrder"@,
            EscrowError::InsufficientApprovals => "InsufficientApprovals"@,
            EscrowError::ResolutionConditionsNotMet => "ResolutionConditionsNotMet"@,
            EscrowError::TimeoutNotElapsed => "TimeoutNotElapsed"@,
            EscrowError::NoTimeoutPath => "NoTimeoutPath"@,
            EscrowError::PayoutExceedsVault => "PayoutExceedsVault"@,
            EscrowError::InsufficientRecoverySignatures => "InsufficientRecoverySignatures"@,
            EscrowError::NoActiveProposal => "NoActiveProposal"@,
            EscrowError::TokenAccountMismatch => "TokenAccountMismatch"@,
            EscrowError::MintMismatch => "MintMismatch"@,
            EscrowError::TokenProgramMismatch => "TokenProgramMismatch"@,
            EscrowError::NonTransferableMint => "NonTransferableMint"@,
            EscrowError::DefaultFrozenMint => "DefaultFrozenMint"@,
            EscrowError::ActiveTransferHook => "ActiveTransferHook"@,
            EscrowError::UnknownMintExtension => "UnknownMintExtension"@,
            EscrowError::RiskFlagsNotAccepted => "RiskFlagsNotAccepted"@,
            EscrowError::TimeoutPausedByDispute => "TimeoutPausedByDispute"@,
            EscrowError::OnlyRaiserMayWithdraw => "OnlyRaiserMayWithdraw"@,
            EscrowError::InvalidTimerMode => "InvalidTimerMode"@,
            EscrowError::RecoveryDelayNotElapsed => "RecoveryDelayNotElapsed"@,
            EscrowError::Overflow => "Overflow"@,
        }
    }

    pub fn name(&self) -> (r: &'static str)
        ensures
            r@ == self.name_spec(),
    {
        match self {
            EscrowError::InvalidParties => "InvalidParties",
            EscrowError::DuplicateParty => "DuplicateParty",
            EscrowError::CreatorNotParty => "CreatorNotParty",
            EscrowError::InvalidMilestones => "InvalidMilestones",
            EscrowError::MilestoneSumMismatch => "MilestoneSumMismatch",
            EscrowError::InvalidThreshold => "InvalidThreshold",
            EscrowError::InvalidDeadlockParams => "InvalidDeadlockParams",
            EscrowError::InvalidRecoveryConfig => "InvalidRecoveryConfig",
            EscrowError::NotAParty => "NotAParty",
            EscrowError::NotARecoverySigner => "NotARecoverySigner",
            EscrowError::InvalidState => "InvalidState",
            EscrowError::AlreadySigned => "AlreadySigned",
            EscrowError::TrueDeadlockConsentRequired => "TrueDeadlockConsentRequired",
            EscrowError::OnlyPayerMayDeposit => "OnlyPayerMayDeposit",
            EscrowError::ZeroDeposit => "ZeroDeposit",
            EscrowError::OverFunded => "OverFunded",
            EscrowError::MilestoneOutOfRange => "MilestoneOutOfRange",
            EscrowError::MilestoneAlreadyReleased => "MilestoneAlreadyReleased",
            EscrowError::MilestonesOutOfOrder => "MilestonesOutOfOrder",
            EscrowError::InsufficientApprovals => "InsufficientApprovals",
            EscrowError::ResolutionConditionsNotMet => "ResolutionConditionsNotMet",
            EscrowError::TimeoutNotElapsed => "TimeoutNotElapsed",
            EscrowError::NoTimeoutPath => "NoTimeoutPath",
            EscrowError::PayoutExceedsVault => "PayoutExceedsVault",
            EscrowError::InsufficientRecoverySignatures => "InsufficientRecoverySignatures",
            EscrowError::NoActiveProposal => "NoActiveProposal",
            EscrowError::TokenAccountMismatch => "TokenAccountMismatch",
            EscrowError::MintMismatch => "MintMismatch",
            EscrowError::TokenProgramMismatch => "TokenProgramMismatch",
            EscrowError::NonTransferableMint => "NonTransferableMint",
            EscrowError::DefaultFrozenMint => "DefaultFrozenMint",
            EscrowError::ActiveTransferHook => "ActiveTransferHook",
            EscrowError::UnknownMintExtension => "UnknownMintExtension",
            EscrowError::RiskFlagsNotAccepted => "RiskFlagsNotAccepted",
            EscrowError::TimeoutPausedByDispute => "TimeoutPausedByDispute",
            EscrowError::OnlyRaiserMayWithdraw => "OnlyRaiserMayWithdraw",
            EscrowError::InvalidTimerMode => "InvalidTimerMode",
            EscrowError::RecoveryDelayNotElapsed => "RecoveryDelayNotElapsed",
            EscrowError::Overflow => "Overflow",
        }
    }

    /// The human-readable message attached to the error.
    pub open spec fn message_spec(self) -> Seq<char> {
        match self {
            EscrowError::InvalidParties => "Invalid party configuration"@,
            EscrowError::DuplicateParty => "Duplicate party pubkey"@,
            EscrowError::CreatorNotParty => "Creator must be one of the parties"@,
            EscrowError::InvalidMilestones => "Invalid milestone configuration"@,
            EscrowError::MilestoneSumMismatch => "Milestone amounts must sum to the total amount"@,
            EscrowError::InvalidThreshold => "Invalid approval threshold"@,
            EscrowError::InvalidDeadlockParams => "Invalid deadlock rule parameters"@,
            EscrowError::InvalidRecoveryConfig => "Invalid recovery configuration"@,
            EscrowError::NotAParty => "Signer is not a party to this deal"@,
            EscrowError::NotARecoverySigner => "Signer is not a recovery signer for this deal"@,
            EscrowError::InvalidState => "Instruction not valid in the deal's current state"@,
            EscrowError::AlreadySigned => "Party has already signed"@,
            EscrowError::TrueDeadlockConsentRequired => "True-deadlock rule requires explicit consent from every party"@,
            EscrowError::OnlyPayerMayDeposit => "Only the payer may deposit"@,
            EscrowError::ZeroDeposit => "Deposit amount must be greater than zero"@,
            EscrowError::OverFunded => "Deposit exceeds the deal's total amount"@,
            EscrowError::MilestoneOutOfRange => "Milestone index out of range"@,
            EscrowError::MilestoneAlreadyReleased => "Milestone already released"@,
            EscrowError::MilestonesOutOfOrder => "Previous milestones must be released first"@,
            EscrowError::InsufficientApprovals => "Not enough approvals to release this milestone"@,
            EscrowError::ResolutionConditionsNotMet => "Resolution conditions are not met"@,
            EscrowError::TimeoutNotElapsed => "Timeout has not elapsed"@,
            EscrowError::NoTimeoutPath => "This deadlock rule never resolves by timeout"@,
            EscrowError::PayoutExceedsVault => "Proposed payout exceeds the vault balance"@,
            EscrowError::InsufficientRecoverySignatures => "Not enough recovery signatures"@,
            EscrowError::NoActiveProposal => "No active proposal"@,
            EscrowError::TokenAccountMismatch => "Token account does not match the deal"@,
            EscrowError::MintMismatch => "Mint does not match the deal"@,
            EscrowError::TokenProgramMismatch => "Token program does not match the deal"@,
            EscrowError::NonTransferableMint => "Mint is non-transferable; escrow is impossible"@,
            EscrowError::DefaultFrozenMint => "Mint's default account state is frozen; escrow vault would be unusable"@,
            EscrowError::ActiveTransferHook => "Mint has an active transfer hook program; not supported"@,
            EscrowError::UnknownMintExtension => "Mint carries an unknown Token-2022 extension; rejected by default"@,
            EscrowError::RiskFlagsNotAccepted => "Parties have not accepted this mint's risk flags"@,
            EscrowError::TimeoutPausedByDispute => "Timeout clock is paused while a dispute is open"@,
            EscrowError::OnlyRaiserMayWithdraw => "Only the party who raised the deadlock may withdraw it"@,
            EscrowError::InvalidTimerMode => "This timer mode is not valid for the chosen deadlock rule"@,
            EscrowError::RecoveryDelayNotElapsed => "Recovery notice delay has not elapsed"@,
            EscrowError::Overflow => "Arithmetic overflow"@,
        }
    }

    pub fn message(&self) -> (r: &'static str)
        ensures
            r@ == self.message_spec(),
    {
        match self {
            EscrowError::InvalidParties => "Invalid party configuration",
            EscrowError::DuplicateParty => "Duplicate party pubkey",
            EscrowError::CreatorNotParty => "Creator must be one of the parties",
            EscrowError::InvalidMilestones => "Invalid milestone configuration",
            EscrowError::MilestoneSumMismatch => "Milestone amounts must sum to the total amount",
            EscrowError::InvalidThreshold => "Invalid approval threshold",
            EscrowError::InvalidDeadlockParams => "Invalid deadlock rule parameters",
            EscrowError::InvalidRecoveryConfig => "Invalid recovery configuration",
            EscrowError::NotAParty => "Signer is not a party to this deal",
            EscrowError::NotARecoverySigner => "Signer is not a recovery signer for this deal",
            EscrowError::InvalidState => "Instruction not valid in the deal's current state",
            EscrowError::AlreadySigned => "Party has already signed",
            EscrowError::TrueDeadlockConsentRequired => "True-deadlock rule requires explicit consent from every party",
            EscrowError::OnlyPayerMayDeposit => "Only the payer may deposit",
            EscrowError::ZeroDeposit => "Deposit amount must be greater than zero",
            EscrowError::OverFunded => "Deposit exceeds the deal's total amount",
            EscrowError::MilestoneOutOfRange => "Milestone index out of range",
            EscrowError::MilestoneAlreadyReleased => "Milestone already released",
            EscrowError::MilestonesOutOfOrder => "Previous milestones must be released first",
            EscrowError::InsufficientApprovals => "Not enough approvals to release this milestone",
            EscrowError::ResolutionConditionsNotMet => "Resolution conditions are not met",
            EscrowError::TimeoutNotElapsed => "Timeout has not elapsed",
            EscrowError::NoTimeoutPath => "This deadlock rule never resolves by timeout",
            EscrowError::PayoutExceedsVault => "Proposed payout exceeds the vault balance",
            EscrowError::InsufficientRecoverySignatures => "Not enough recovery signatures",
            EscrowError::NoActiveProposal => "No active proposal",
            EscrowError::TokenAccountMismatch => "Token account does not match the deal",
            EscrowError::MintMismatch => "Mint does not match the deal",
            EscrowError::TokenProgramMismatch => "Token program does not match the deal",
            EscrowError::NonTransferableMint => "Mint is non-transferable; escrow is impossible",
            EscrowError::DefaultFrozenMint => "Mint's default account state is frozen; escrow vault would be unusable",
            EscrowError::ActiveTransferHook => "Mint has an active transfer hook program; not supported",
            EscrowError::UnknownMintExtension => "Mint carries an unknown Token-2022 extension; rejected by default",
            EscrowError::RiskFlagsNotAccepted => "Parties have not accepted this mint's risk flags",
            EscrowError::TimeoutPausedByDispute => "Timeout clock is paused while a dispute is open",
            EscrowError::OnlyRaiserMayWithdraw => "Only the party who raised the deadlock may withdraw it",
            EscrowError::InvalidTimerMode => "This timer mode is not valid for the chosen deadlock rule",
            EscrowError::RecoveryDelayNotElapsed => "Recovery notice delay has not elapsed",
            EscrowError::Overflow => "Arithmetic overflow",
        }
    }
}

/// Why the accounts handed to an instruction were refused before it ran.
#[derive(Clone, Copy, Debug, PartialEq, Eq, Structural)]
pub enum AccountError {
    /// An account the deal records (mint, vault) is not the one supplied.
    ConstraintHasOne,
    /// A constraint with a named escrow error failed.
    Escrow(EscrowError),
}

} // verus!
