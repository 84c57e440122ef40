//! Submission configuration and result types.
//!
//! All times are plain milliseconds and the compute-unit margin is a whole
//! percentage (115 means a factor of 1.15), so every field is an exact
//! integer the contracts can speak about.

use vstd::prelude::*;
use crate::priority_fee::PriorityFeeLevel;

verus! {

/// Hard ceiling the network puts on a transaction's compute-unit limit.
pub const MAX_COMPUTE_UNIT_LIMIT: u32 = 1_400_000;

/// Overall confirmation timeout used when the caller sets none.
pub const DEFAULT_TRANSACTION_TIMEOUT_MS: u64 = 60_000;

/// Confirmation polling interval used when the caller sets none.
pub const DEFAULT_POLLING_INTERVAL_MS: u64 = 2_000;

/// Safety margin applied to simulated compute-unit consumption, in percent.
pub const DEFAULT_COMPUTE_UNIT_MARGIN_PERCENT: u64 = 115;

/// A recent network checkpoint ("blockhash") a transaction binds to.
#[derive(Clone, Copy, Debug, PartialEq, Eq)]
pub struct Blockhash {
    pub bytes: [u8; 32],
}

/// A transaction signature, carried through without interpretation.
#[derive(Clone, Copy, Debug, PartialEq, Eq)]
pub struct TxSignature {
    pub bytes: [u8; 64],
}

/// Priority-fee policy for one submission.
#[derive(Clone, Copy, Debug)]
pub struct SmartTxPriorityFeeConfig {
    /// The requested fee level.
    pub fee_level: PriorityFeeLevel,
    /// Lower clamp on the applied fee, if set.
    pub fee_min: Option<u64>,
    /// Upper clamp on the applied fee, if set.
    pub fee_max: Option<u64>,
}

/// Relay-bundle policy for one submission.
#[derive(Clone, Debug)]
pub struct SmartTxJitoConfig {
    /// Caller identifier appended to the bundle endpoint when non-empty.
    pub uuid: String,
    /// Requested tip in lamports; raised to the relay's minimum when lower.
    pub tips: u64,
    /// Relay region name; the default region is used when unset.
    pub region: Option<String>,
}

/// Immutable input to a single submission.
#[derive(Clone, Debug)]
pub struct SmartTxConfig {
    /// Priority-fee policy. `None` means no fee instruction.
    pub priority_fee: Option<SmartTxPriorityFeeConfig>,
    /// Relay policy. `None` means direct broadcast.
    pub jito: Option<SmartTxJitoConfig>,
    /// Compute-unit limit used when estimation is skipped or fails;
    /// 0 means the limit instruction is omitted entirely.
    pub default_compute_unit_limit: u32,
    /// Margin multiplier for simulation-derived limits, in percent;
    /// clamped to 100..=1000 when applied.
    pub compute_unit_margin_percent: u64,
    /// Skip the simulation entirely and use the fallback limit.
    pub disable_simulation: bool,
    /// Send the transaction even when the simulation reports a fatal error.
    pub ignore_simulation_error: bool,
    /// Verify signatures during the simulation; when off, the simulation
    /// binds to the zero checkpoint instead of a fetched one.
    pub sig_verify_on_simulation: bool,
    /// Wait for the transaction confirmation.
    pub wait_for_confirmation: bool,
    /// Confirmation polling interval in milliseconds.
    pub polling_interval_ms: Option<u64>,
    /// Overall confirmation timeout in milliseconds.
    pub transaction_timeout_ms: Option<u64>,
    /// Checkpoint to bind to; the latest one is fetched when unset.
    pub blockhash: Option<Blockhash>,
}

impl Default for SmartTxConfig {
    /// The default submission: no fee policy, no relay, simulate with
    /// signature verification, and wait for confirmation.
    fn default() -> (r: SmartTxConfig)
        ensures
            r.priority_fee is None,
            r.jito is None,
            r.default_compute_unit_limit == MAX_COMPUTE_UNIT_LIMIT,
            r.compute_unit_margin_percent == DEFAULT_COMPUTE_UNIT_MARGIN_PERCENT,
            !r.disable_simulation,
            !r.ignore_simulation_error,
            r.sig_verify_on_simulation,
            r.wait_for_confirmation,
            r.polling_interval_ms is None,
            r.transaction_timeout_ms is None,
            r.blockhash is None,
    {
        SmartTxConfig {
            priority_fee: None,
            jito: None,
            default_compute_unit_limit: MAX_COMPUTE_UNIT_LIMIT,
            compute_unit_margin_percent: DEFAULT_COMPUTE_UNIT_MARGIN_PERCENT,
            disable_simulation: false,
            ignore_simulation_error: false,
            sig_verify_on_simulation: true,
            wait_for_confirmation: true,
            polling_interval_ms: None,
            transaction_timeout_ms: None,
            blockhash: None,
        }
    }
}

impl SmartTxConfig {
    /// The polling interval actually used: the caller's or the default.
    pub fn effective_polling_interval_ms(&self) -> (r: u64)
        ensures
            r == self.spec_polling_interval_ms(),
    {
        match self.polling_interval_ms {
            Some(ms) => ms,
            None => DEFAULT_POLLING_INTERVAL_MS,
        }
    }

    /// The confirmation timeout actually used: the caller's or the default.
    pub fn effective_transaction_timeout_ms(&self) -> (r: u64)
        ensures
            r == self.spec_transaction_timeout_ms(),
    {
        match self.transaction_timeout_ms {
            Some(ms) => ms,
            None => DEFAULT_TRANSACTION_TIMEOUT_MS,
        }
    }

    pub open spec fn spec_polling_interval_ms(&self) -> u64 {
        match self.polling_interval_ms {
            Some(ms) => ms,
            None => DEFAULT_POLLING_INTERVAL_MS,
        }
    }

    pub open spec fn spec_transaction_timeout_ms(&self) -> u64 {
        match self.transaction_timeout_ms {
            Some(ms) => ms,
            None => DEFAULT_TRANSACTION_TIMEOUT_MS,
        }
    }
}

/// Elapsed-time breakdown of one submission, all measured from its start.
#[derive(Clone, Copy, Debug)]
pub struct SmartTxElapsedTime {
    /// Milliseconds until the simulation finished.
    pub prepare_and_simulate_ms: u64,
    /// Milliseconds until the send request returned.
    pub send_ms: u64,
    /// Milliseconds until the transaction was confirmed.
    pub confirm_ms: u64,
}

impl Default for SmartTxElapsedTime {
    fn default() -> (r: SmartTxElapsedTime)
        ensures
            r.prepare_and_simulate_ms == 0,
            r.send_ms == 0,
            r.confirm_ms == 0,
    {
        SmartTxElapsedTime { prepare_and_simulate_ms: 0, send_ms: 0, confirm_ms: 0 }
    }
}

/// Outcome of one submission.
#[derive(Clone, Debug)]
pub struct SmartTxResult {
    /// The transaction signature; absent when relay confirmation was skipped.
    pub signature: Option<TxSignature>,
    /// The priority fee actually applied, in micro-lamports per compute unit.
    pub priority_fee: u64,
    /// The relay bundle id when the transaction went through the relay.
    pub jito_bundle_id: Option<String>,
    /// Elapsed times for statistical purposes.
    pub elapsed_time: SmartTxElapsedTime,
}

} // verus!
