use vstd::prelude::*;

verus! {

/// Seed prefix of the deal account address: the bytes of "deal".
pub const DEAL_SEED: [u8; 4] = [0x64, 0x65, 0x61, 0x6c];

/// Most parties a deal can have.
pub const MAX_PARTIES: usize = 8;

/// Most milestones a deal can have.
pub const MAX_MILESTONES: usize = 16;

/// Most recovery signers a deal can name.
pub const MAX_RECOVERY_SIGNERS: usize = 3;

/// Basis points in one whole.
pub const BPS_DENOMINATOR: u64 = 10_000;

/// Layout version written into every new deal.
pub const STATE_VERSION: u8 = 1;

} // verus!
