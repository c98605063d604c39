//! Pre-authorized debit engine.
//!
//! A token-account owner can grant a third party (a debit authority) a
//! revocable, rule-bounded right to pull funds from the owner's account.
//! This crate holds the authorization and accounting core: the record types
//! (a blanket smart delegate per token account, and fine-grained
//! pre-authorizations per (token account, debit authority) pair), the cycle
//! clock, and the debit validation engine that decides, for every debit
//! attempt, whether it is permitted and how the accounting state advances.
//!
//! The surrounding ledger (which actually moves funds), the clock source and
//! signature verification are external collaborators: callers hand in the
//! current time and the identities that signed, and receive back a transfer
//! instruction to execute. The engine itself never moves funds; it only
//! authorizes the movement and updates its own counters.

pub mod cycle;
pub mod debit;
pub mod errors;
pub mod registry;
pub mod state;

pub use cycle::compute_current_cycle;
pub use debit::compute_available_amount_for_recurring_debit;
pub use errors::CustomProgramError;
pub use registry::Registry;
pub use state::DebitParams;
pub use state::InitPreAuthorizationParams;
pub use state::InitPreAuthorizationVariant;
pub use state::PreAuthorization;
pub use state::PreAuthorizationVariant;
pub use state::SmartDelegate;
pub use state::TransferInstruction;
pub use state::UpdatePausePreAuthorizationParams;
