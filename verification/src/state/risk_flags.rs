use vstd::prelude::*;

verus! {

// Mint risk flags (bitfield). Persisted at creation, disclosed in the creation
// event, and required to be covered by `accepted_risk_flags`.

/// The issuer can freeze the vault.
pub const FREEZE_AUTHORITY: u16 = 1;

/// The issuer can seize from the vault.
pub const PERMANENT_DELEGATE: u16 = 2;

/// A transfer-hook extension is present but no hook program is set.
pub const DORMANT_TRANSFER_HOOK: u16 = 4;

/// Transfers may charge a fee; deposits are credited by balance delta.
pub const TRANSFER_FEE: u16 = 8;

/// The mint supports confidential transfers.
pub const CONFIDENTIAL_CAPABLE: u16 = 16;

/// Displayed amounts diverge from raw amounts.
pub const INTEREST_BEARING: u16 = 32;

/// The mint can be closed (informational).
pub const MINT_CLOSE_AUTHORITY: u16 = 64;

} // verus!
