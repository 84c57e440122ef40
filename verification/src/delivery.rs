//! Delivery routing: direct broadcast or relay bundle.
//!
//! The two delivery protocols are mutually exclusive and selected once,
//! by the presence of a relay policy.  The relay path ships the signed
//! transaction base-58 encoded to a bundle endpoint; building that payload
//! and the endpoint, and shaping the final result, are decisions of the
//! library, while the HTTP calls themselves belong to the embedding
//! runtime.

use vstd::prelude::*;
use vstd::string::StringExecFns;
use crate::config::{SmartTxElapsedTime, SmartTxJitoConfig, SmartTxResult, TxSignature};

verus! {

/// Which protocol carries the transaction.
#[derive(Clone, Copy, Debug, PartialEq, Eq, Structural)]
pub enum DeliveryMode {
    /// Broadcast to the network's RPC layer, exactly once, without
    /// preflight checks.
    Direct,
    /// Ship as a single-transaction bundle through the relay.
    RelayBundle,
}

/// The relay protocol is used exactly when a relay policy is configured.
pub fn select_delivery(jito: &Option<SmartTxJitoConfig>) -> (r: DeliveryMode)
    ensures
        r is RelayBundle <==> jito is Some,
{
    match jito {
        Some(_) => DeliveryMode::RelayBundle,
        None => DeliveryMode::Direct,
    }
}

/// How the direct path hands a transaction to the network's broadcast
/// endpoint.
#[derive(Clone, Copy, Debug, PartialEq, Eq, Structural)]
pub struct DirectSendPolicy {
    /// Preflight checks are skipped: the pipeline simulated already.
    pub skip_preflight: bool,
    /// Built-in retries at the RPC layer; retries are the caller's business.
    pub max_retries: u8,
}

/// The direct path sends exactly once and without preflight checks.
pub fn direct_send_policy() -> (r: DirectSendPolicy)
    ensures
        r.skip_preflight,
        r.max_retries == 0,
{
    DirectSendPolicy { skip_preflight: true, max_retries: 0 }
}

/// The base-58 rendering of a byte string, in the Bitcoin alphabet.
pub uninterp spec fn base58_of(bytes: Seq<u8>) -> Seq<char>;

/// Relies on `bs58::encode(..).into_string()`: the base-58 rendering of
/// the bytes in the default (Bitcoin) alphabet, a function of the bytes
/// alone; an empty input encodes to the empty string.
#[verifier::external_body]
fn base58_encode(bytes: &Vec<u8>) -> (r: String)
    ensures
        r@ == base58_of(bytes@),
        bytes@.len() == 0 ==> r@.len() == 0,
{
    bs58::encode(bytes.as_slice()).into_string()
}

/// The payload a relay bundle carries for one signed transaction: its
/// serialized bytes, base-58 encoded.
pub fn encode_bundle_payload(tx_bytes: &Vec<u8>) -> (r: String)
    ensures
        r@ == base58_of(tx_bytes@),
{
    base58_encode(tx_bytes)
}

/// The bundle endpoint under a relay's base URL: the bundle path, with the
/// caller's uuid appended as a query parameter exactly when it is
/// non-empty.
pub open spec fn spec_bundle_endpoint(base_url: Seq<char>, uuid: Seq<char>) -> Seq<char> {
    if uuid.len() == 0 {
        base_url + "/api/v1/bundles"@
    } else {
        base_url + "/api/v1/bundles?uuid="@ + uuid
    }
}

/// Build the relay's bundle endpoint from its base URL and the caller's
/// uuid.
pub fn bundle_endpoint(base_url: &str, uuid: &str) -> (r: String)
    ensures
        r@ == spec_bundle_endpoint(base_url@, uuid@),
{
    let mut r = base_url.to_owned();
    if uuid.is_empty() {
        r.append("/api/v1/bundles");
    } else {
        r.append("/api/v1/bundles?uuid=");
        r.append(uuid);
    }
    r
}

/// Shape the result of a relay submission.  The network signature is known
/// only by polling the relay for the bundle's status, so it is present
/// exactly when confirmation was awaited; the bundle id is always carried.
pub fn relay_submission_result(
    wait_for_confirmation: bool,
    signature: Option<TxSignature>,
    bundle_id: String,
    priority_fee: u64,
    elapsed_time: SmartTxElapsedTime,
) -> (r: SmartTxResult)
    requires
        wait_for_confirmation <==> signature is Some,
    ensures
        r.signature == signature,
        r.signature is Some <==> wait_for_confirmation,
        r.priority_fee == priority_fee,
        r.jito_bundle_id == Some(bundle_id),
        r.elapsed_time == elapsed_time,
{
    SmartTxResult { signature, priority_fee, jito_bundle_id: Some(bundle_id), elapsed_time }
}

/// Shape the result of a direct broadcast: the signature is always known,
/// and no bundle id exists.
pub fn direct_submission_result(
    signature: TxSignature,
    priority_fee: u64,
    elapsed_time: SmartTxElapsedTime,
) -> (r: SmartTxResult)
    ensures
        r.signature == Some(signature),
        r.priority_fee == priority_fee,
        r.jito_bundle_id is None,
        r.elapsed_time == elapsed_time,
{
    SmartTxResult { signature: Some(signature), priority_fee, jito_bundle_id: None, elapsed_time }
}

} // verus!
