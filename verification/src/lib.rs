//! Latch: split-control escrow, as a verified state machine.
//!
//! A deal moves through `Draft → Signed → Funded → Active → (Deadlocked) →
//! Completed`, or to `Cancelled`. Every instruction of the on-chain program is
//! a function here from the deal's state and the instruction's inputs (signer,
//! clock, vault balance) to the next state, the event to emit and the payouts to
//! make; the runtime shell performs the token transfers and emits the events.

pub mod constants;
pub mod pubkey;
pub mod error;
pub mod bits;
pub mod state;
pub mod events;
pub mod instructions;
pub mod mint_guard;
pub mod laws;
pub mod demo;

pub use pubkey::Pubkey;
