//! Error taxonomy of the submission pipeline.

use vstd::prelude::*;

verus! {

/// What a simulation or a confirmation status reported about a transaction.
///
/// Only one failure is transient for this pipeline: a stale checkpoint
/// (`BlockhashNotFound`), which a later attempt may no longer see.  Every
/// other fault is carried as opaque text and treated as fatal unless the
/// caller opted to ignore simulation errors.
#[derive(Clone, Debug, PartialEq, Eq)]
pub enum TransactionFault {
    /// The transaction referenced a checkpoint the network no longer accepts.
    BlockhashNotFound,
    /// Any other on-chain error, kept as text.
    Other(String),
}

impl TransactionFault {
    /// A fault is transient exactly when a retry could clear it.
    pub open spec fn is_transient(&self) -> bool {
        self is BlockhashNotFound
    }
}

/// Everything that can end a submission early, by stage.
#[derive(Clone, Debug, PartialEq, Eq)]
pub enum SmartTransactionError {
    /// Message compilation failed while assembling the transaction.
    CompileError(String),
    /// Signing the assembled transaction failed.
    SigningError(String),
    /// The simulation reported that the transaction would fail on chain.
    SimulationError(TransactionFault),
    /// A transport or RPC-layer failure on the direct path.
    RpcClientError(String),
    /// An opaque failure from the relay path.
    JitoClientError(String),
}

} // verus!
