//! Reliable transaction submission for a fee-market blockchain.
//!
//! The crate decides everything a submission needs before and after the
//! network round trips: priority-fee estimation from recent fee samples,
//! compute-unit budgeting from simulation outcomes, instruction assembly
//! for direct broadcast or relay-bundle delivery, and confirmation-polling
//! decisions.  The network calls themselves (RPC, HTTP, sleeping) are left
//! to the embedding runtime, which feeds their results back into these
//! verified decision functions.

pub mod compute_budget;
pub mod config;
pub mod confirmation;
pub mod delivery;
pub mod errors;
pub mod instructions;
pub mod pipeline;
pub mod priority_fee;

pub use config::{
    Blockhash, SmartTxConfig, SmartTxElapsedTime, SmartTxJitoConfig, SmartTxPriorityFeeConfig,
    SmartTxResult, TxSignature, DEFAULT_COMPUTE_UNIT_MARGIN_PERCENT, DEFAULT_POLLING_INTERVAL_MS,
    DEFAULT_TRANSACTION_TIMEOUT_MS, MAX_COMPUTE_UNIT_LIMIT,
};
pub use errors::{SmartTransactionError, TransactionFault};
pub use pipeline::PreparedSubmission;
pub use priority_fee::{FeeObservation, PriorityFeeEstimates, PriorityFeeLevel};
