//! Compute-unit budgeting from speculative simulation.
//!
//! The pipeline simulates the candidate transaction with the network's
//! maximum compute-unit limit declared, and derives the declared limit from
//! the units the simulation consumed, scaled by a safety margin.  Transport
//! failures and stale-checkpoint simulation errors are transient and
//! retried up to [`MAX_SIMULATION_ATTEMPTS`] times; any other simulation
//! error is fatal unless the caller opted to ignore it.  When no attempt
//! produced a usable limit, the caller's fallback limit applies.

use vstd::prelude::*;
use crate::config::{Blockhash, SmartTxConfig, MAX_COMPUTE_UNIT_LIMIT};
use crate::errors::TransactionFault;
use crate::instructions::PlannedInstruction;

verus! {

/// How often the simulation is attempted before falling back.
pub const MAX_SIMULATION_ATTEMPTS: usize = 5;

/// What one simulation attempt came back with.
#[derive(Clone, Debug, PartialEq, Eq)]
pub enum SimOutcome {
    /// The RPC call itself failed; the attempt is retried.
    TransportError,
    /// The network simulated the transaction.
    Simulated {
        /// The error the simulation reported, if any.
        err: Option<TransactionFault>,
        /// The compute units the simulation consumed, when reported.
        units_consumed: Option<u64>,
    },
}

/// What the retry loop does with one simulation outcome.
#[derive(Clone, Debug, PartialEq, Eq)]
pub enum SimStep {
    /// Transient failure: try again.
    Retry,
    /// A clean simulation: declare this limit (before the fallback rule).
    Accept(u32),
    /// A fatal simulation error the caller did not opt to ignore.
    FailFatal(TransactionFault),
    /// A fatal error the caller opted to ignore: use the fallback limit.
    AbandonToFallback,
}

/// The margin multiplier in percent, clamped to `100..=1000`
/// (a factor of 1.0 to 10.0).
pub open spec fn spec_margin_clamped(percent: u64) -> int {
    if percent < 100 {
        100
    } else if percent > 1000 {
        1000
    } else {
        percent as int
    }
}

/// The limit derived from consumed units: consumed times the clamped
/// margin, floored, and capped at the network maximum.
pub open spec fn spec_limit_with_margin(consumed: u64, percent: u64) -> u32 {
    let scaled = consumed * spec_margin_clamped(percent) / 100;
    if scaled > MAX_COMPUTE_UNIT_LIMIT as int {
        MAX_COMPUTE_UNIT_LIMIT
    } else {
        scaled as u32
    }
}

/// Scale consumed units by the margin; the result never exceeds the
/// network maximum.
pub fn compute_unit_limit(consumed: u64, margin_percent: u64) -> (r: u32)
    ensures
        r == spec_limit_with_margin(consumed, margin_percent),
        r <= MAX_COMPUTE_UNIT_LIMIT,
{
    let clamped: u64 = if margin_percent < 100 {
        100
    } else if margin_percent > 1000 {
        1000
    } else {
        margin_percent
    };
    proof {
        assert((consumed as u128) * (clamped as u128) <= (u64::MAX as u128) * 1000)
            by (nonlinear_arith)
            requires
                consumed <= u64::MAX,
                clamped <= 1000,
        ;
    }
    let scaled: u128 = (consumed as u128) * (clamped as u128) / 100;
    if scaled > MAX_COMPUTE_UNIT_LIMIT as u128 {
        MAX_COMPUTE_UNIT_LIMIT
    } else {
        scaled as u32
    }
}

/// What the retry loop does with one outcome, spelled out.
pub open spec fn spec_sim_step(outcome: SimOutcome, margin_percent: u64, ignore_error: bool)
    -> SimStep {
    match outcome {
        SimOutcome::TransportError => SimStep::Retry,
        SimOutcome::Simulated { err, units_consumed } => match err {
            Some(f) => if f is BlockhashNotFound {
                SimStep::Retry
            } else if ignore_error {
                SimStep::AbandonToFallback
            } else {
                SimStep::FailFatal(f)
            },
            None => SimStep::Accept(
                spec_limit_with_margin(
                    match units_consumed {
                        Some(u) => u,
                        None => 0,
                    },
                    margin_percent,
                ),
            ),
        },
    }
}

/// Classify one simulation outcome: retry on a transport failure or a
/// stale checkpoint, accept a clean simulation's scaled consumption, fail
/// on a fatal error — or abandon to the fallback limit when the caller
/// ignores fatal errors.
pub fn decide_simulation_step(outcome: SimOutcome, margin_percent: u64, ignore_error: bool) -> (r:
    SimStep)
    ensures
        r == spec_sim_step(outcome, margin_percent, ignore_error),
{
    match outcome {
        SimOutcome::TransportError => SimStep::Retry,
        SimOutcome::Simulated { err, units_consumed } => match err {
            Some(f) => match f {
                TransactionFault::BlockhashNotFound => SimStep::Retry,
                other_fault => {
                    if ignore_error {
                        SimStep::AbandonToFallback
                    } else {
                        SimStep::FailFatal(other_fault)
                    }
                },
            },
            None => {
                let consumed = match units_consumed {
                    Some(u) => u,
                    None => 0,
                };
                SimStep::Accept(compute_unit_limit(consumed, margin_percent))
            },
        },
    }
}

/// The limit the bounded retry loop settles on, before the fallback rule:
/// `Ok(0)` stands for "no usable result" and later becomes the fallback.
pub open spec fn spec_sim_loop(
    outcomes: Seq<SimOutcome>,
    attempts: nat,
    margin_percent: u64,
    ignore_error: bool,
) -> Result<u32, TransactionFault>
    decreases attempts,
{
    if attempts == 0 || outcomes.len() == 0 {
        Ok(0u32)
    } else {
        match spec_sim_step(outcomes[0], margin_percent, ignore_error) {
            SimStep::Retry => spec_sim_loop(
                outcomes.drop_first(),
                (attempts - 1) as nat,
                margin_percent,
                ignore_error,
            ),
            SimStep::Accept(l) => Ok(l),
            SimStep::FailFatal(f) => Err(f),
            SimStep::AbandonToFallback => Ok(0u32),
        }
    }
}

/// The compute-unit limit of one submission, given what simulation would
/// return on each attempt: the fallback when simulation is disabled, the
/// first decisive attempt's limit otherwise, and the fallback again when
/// every attempt was transient, was ignored, or yielded zero.
pub open spec fn spec_resolved_cu_limit(outcomes: Seq<SimOutcome>, cfg: SmartTxConfig) -> Result<
    u32,
    TransactionFault,
> {
    if cfg.disable_simulation {
        Ok(cfg.default_compute_unit_limit)
    } else {
        match spec_sim_loop(
            outcomes,
            MAX_SIMULATION_ATTEMPTS as nat,
            cfg.compute_unit_margin_percent,
            cfg.ignore_simulation_error,
        ) {
            Ok(l) => Ok(
                if l == 0 {
                    cfg.default_compute_unit_limit
                } else {
                    l
                },
            ),
            Err(f) => Err(f),
        }
    }
}

/// Run the bounded retry policy over recorded simulation outcomes.
///
/// `outcomes[i]` is what the `i`-th attempt came back with; attempts past
/// the end of the recording count as transport failures.  When simulation
/// is disabled the fallback limit is returned untouched and no outcome is
/// consulted.  The error is exactly the first fatal, un-ignored
/// simulation error within the attempt budget.
pub fn resolve_cu_limit(outcomes: Vec<SimOutcome>, cfg: &SmartTxConfig) -> (r: Result<
    u32,
    TransactionFault,
>)
    ensures
        r == spec_resolved_cu_limit(outcomes@, *cfg),
        cfg.disable_simulation ==> r == Ok::<u32, TransactionFault>(
            cfg.default_compute_unit_limit,
        ),
{
    if cfg.disable_simulation {
        return Ok(cfg.default_compute_unit_limit);
    }
    let margin = cfg.compute_unit_margin_percent;
    let ignore = cfg.ignore_simulation_error;
    let ghost outcomes0 = outcomes@;
    let mut rest = outcomes;
    let mut attempts_left: usize = MAX_SIMULATION_ATTEMPTS;
    #[verifier::loop_isolation(false)]
    while attempts_left > 0 && rest.len() > 0
        invariant
            attempts_left <= MAX_SIMULATION_ATTEMPTS,
            spec_sim_loop(
                outcomes0,
                MAX_SIMULATION_ATTEMPTS as nat,
                margin,
                ignore,
            ) == spec_sim_loop(rest@, attempts_left as nat, margin, ignore),
        decreases attempts_left,
    {
        let ghost pre = rest@;
        let outcome = rest.remove(0);
        proof {
            assert(outcome == pre[0]);
            assert(rest@ == pre.drop_first());
        }
        match decide_simulation_step(outcome, margin, ignore) {
            SimStep::Retry => {
                proof {
                    assert(spec_sim_loop(pre, attempts_left as nat, margin, ignore)
                        == spec_sim_loop(
                        pre.drop_first(),
                        (attempts_left - 1) as nat,
                        margin,
                        ignore,
                    ));
                }
                attempts_left = attempts_left - 1;
            },
            SimStep::Accept(l) => {
                proof {
                    assert(spec_sim_loop(pre, attempts_left as nat, margin, ignore)
                        == Ok::<u32, TransactionFault>(l));
                }
                let limit = if l == 0 {
                    cfg.default_compute_unit_limit
                } else {
                    l
                };
                return Ok(limit);
            },
            SimStep::FailFatal(f) => {
                proof {
                    assert(spec_sim_step(pre[0], margin, ignore) == SimStep::FailFatal(f));
                    assert(spec_sim_loop(pre, attempts_left as nat, margin, ignore) == Err::<
                        u32,
                        TransactionFault,
                    >(f));
                }
                return Err(f);
            },
            SimStep::AbandonToFallback => {
                proof {
                    assert(spec_sim_loop(pre, attempts_left as nat, margin, ignore)
                        == Ok::<u32, TransactionFault>(0u32));
                }
                return Ok(cfg.default_compute_unit_limit);
            },
        }
    }
    proof {
        assert(spec_sim_loop(rest@, attempts_left as nat, margin, ignore)
            == Ok::<u32, TransactionFault>(0u32));
    }
    Ok(cfg.default_compute_unit_limit)
}

/// Wherever the declared limit came from a successful simulation it is at
/// most the network maximum; with a fallback limit within the maximum,
/// every resolved limit is.
pub proof fn lemma_cu_limit_within_network_max(outcomes: Seq<SimOutcome>, cfg: SmartTxConfig)
    requires
        cfg.default_compute_unit_limit <= MAX_COMPUTE_UNIT_LIMIT,
    ensures
        spec_resolved_cu_limit(outcomes, cfg) matches Ok(l) ==> l <= MAX_COMPUTE_UNIT_LIMIT,
{
    if !cfg.disable_simulation {
        lemma_sim_loop_within_network_max(
            outcomes,
            MAX_SIMULATION_ATTEMPTS as nat,
            cfg.compute_unit_margin_percent,
            cfg.ignore_simulation_error,
        );
    }
}

proof fn lemma_sim_loop_within_network_max(
    outcomes: Seq<SimOutcome>,
    attempts: nat,
    margin_percent: u64,
    ignore_error: bool,
)
    ensures
        spec_sim_loop(outcomes, attempts, margin_percent, ignore_error) matches Ok(l) ==> l
            <= MAX_COMPUTE_UNIT_LIMIT,
    decreases attempts,
{
    if attempts > 0 && outcomes.len() > 0 {
        lemma_sim_loop_within_network_max(
            outcomes.drop_first(),
            (attempts - 1) as nat,
            margin_percent,
            ignore_error,
        );
    }
}

// ---------------------------------------------------------------------------
// The simulation probe.
// ---------------------------------------------------------------------------

/// The instruction list the simulation probes with: the network's maximum
/// compute-unit limit declared up front, then the candidate instructions.
pub fn simulation_instructions(candidate: Vec<PlannedInstruction>) -> (r: Vec<PlannedInstruction>)
    ensures
        r@ == seq![PlannedInstruction::SetComputeUnitLimit(MAX_COMPUTE_UNIT_LIMIT)] + candidate@,
{
    let mut r: Vec<PlannedInstruction> = Vec::new();
    r.push(PlannedInstruction::SetComputeUnitLimit(MAX_COMPUTE_UNIT_LIMIT));
    let mut tail = candidate;
    r.append(&mut tail);
    r
}

/// Which checkpoint the simulation binds to.
#[derive(Clone, Copy, Debug, PartialEq, Eq)]
pub enum SimulationBlockhash {
    /// Signature verification is off: the zero/default checkpoint, saving
    /// a network round trip.
    ZeroDefault,
    /// The caller pinned a checkpoint.
    Pinned(Blockhash),
    /// A recent checkpoint must be fetched first.
    FetchLatest,
}

/// Decide the simulation's checkpoint from the verification flag and the
/// caller's pinned checkpoint.
pub fn simulation_blockhash(sig_verify: bool, pinned: &Option<Blockhash>) -> (r:
    SimulationBlockhash)
    ensures
        !sig_verify ==> r is ZeroDefault,
        sig_verify && pinned is Some ==> r == SimulationBlockhash::Pinned(pinned.unwrap()),
        sig_verify && pinned is None ==> r is FetchLatest,
{
    if !sig_verify {
        SimulationBlockhash::ZeroDefault
    } else {
        match pinned {
            Some(h) => SimulationBlockhash::Pinned(*h),
            None => SimulationBlockhash::FetchLatest,
        }
    }
}

} // verus!
