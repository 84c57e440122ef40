//! Confirmation polling decisions.
//!
//! The poller sleeps one full interval, then queries the transaction's
//! status, and repeats until the status is terminal or the overall timeout
//! has elapsed.  The decision taken after each query is a pure function of
//! the observed status and the elapsed time; the driver below replays it
//! over a recorded status sequence, one entry per poll.

use vstd::prelude::*;
use crate::errors::TransactionFault;

verus! {

/// How far the network has taken a transaction.
#[derive(Clone, Copy, Debug, PartialEq, Eq, Structural)]
pub enum ConfirmationLevel {
    Processed,
    Confirmed,
    Finalized,
}

/// One status observation for a signature, as the network reports it.
#[derive(Clone, Debug, PartialEq, Eq)]
pub struct TxStatus {
    /// The error the transaction failed with, if any.
    pub err: Option<TransactionFault>,
    /// The confirmation level reached, when known.
    pub confirmation_status: Option<ConfirmationLevel>,
}

/// What the poller does after one status query.
#[derive(Clone, Debug, PartialEq, Eq)]
pub enum PollDecision {
    /// The transaction reached a confirmed-or-finalized level with no error.
    Confirmed,
    /// The status carries an error: fail immediately with it.
    Failed(TransactionFault),
    /// Nothing terminal yet and time remains: sleep another interval.
    KeepWaiting,
    /// Nothing terminal and the timeout has elapsed.
    TimedOut,
}

/// Whether a status is the success the poller waits for.
pub open spec fn spec_status_confirmed(st: TxStatus) -> bool {
    st.err is None && (st.confirmation_status == Some(ConfirmationLevel::Confirmed)
        || st.confirmation_status == Some(ConfirmationLevel::Finalized))
}

/// The decision after one query: success and failure are checked first, and
/// only a non-terminal status lets the timeout end the wait.
pub open spec fn spec_poll_decision(status: Option<TxStatus>, elapsed_ms: int, timeout_ms: u64)
    -> PollDecision {
    match status {
        Some(st) => if spec_status_confirmed(st) {
            PollDecision::Confirmed
        } else if st.err is Some {
            PollDecision::Failed(st.err.unwrap())
        } else if elapsed_ms > timeout_ms as int {
            PollDecision::TimedOut
        } else {
            PollDecision::KeepWaiting
        },
        None => if elapsed_ms > timeout_ms as int {
            PollDecision::TimedOut
        } else {
            PollDecision::KeepWaiting
        },
    }
}

/// Decide what to do after one status query.
pub fn poll_decision(status: Option<TxStatus>, elapsed_ms: u64, timeout_ms: u64) -> (r:
    PollDecision)
    ensures
        r == spec_poll_decision(status, elapsed_ms as int, timeout_ms),
{
    match status {
        Some(st) => {
            let confirmed_level = match st.confirmation_status {
                Some(ConfirmationLevel::Confirmed) => true,
                Some(ConfirmationLevel::Finalized) => true,
                _ => false,
            };
            match st.err {
                None => {
                    if confirmed_level {
                        PollDecision::Confirmed
                    } else if elapsed_ms > timeout_ms {
                        PollDecision::TimedOut
                    } else {
                        PollDecision::KeepWaiting
                    }
                },
                Some(f) => PollDecision::Failed(f),
            }
        },
        None => {
            if elapsed_ms > timeout_ms {
                PollDecision::TimedOut
            } else {
                PollDecision::KeepWaiting
            }
        },
    }
}

/// The status the `idx`-th poll observes in a recorded sequence; polls past
/// the end observe nothing.
pub open spec fn spec_status_at(statuses: Seq<Option<TxStatus>>, idx: int) -> Option<TxStatus> {
    if 0 <= idx < statuses.len() {
        statuses[idx]
    } else {
        None
    }
}

/// The decision after the `k`-th poll (1-based): by then `k` full intervals
/// have elapsed, and the `k`-th status has been observed.
pub open spec fn spec_decision_at(
    statuses: Seq<Option<TxStatus>>,
    interval_ms: u64,
    timeout_ms: u64,
    k: int,
) -> PollDecision {
    spec_poll_decision(spec_status_at(statuses, k - 1), k * interval_ms as int, timeout_ms)
}

/// How one polling run ended.
#[derive(Clone, Debug, PartialEq, Eq)]
pub enum PollVerdict {
    /// The transaction was confirmed.
    Confirmed,
    /// The transaction failed with this error.
    Failed(TransactionFault),
    /// The timeout elapsed with nothing terminal observed; the transaction
    /// may still land later.
    TimedOut,
}

/// The end of one polling run: how it ended, after how many polls, and how
/// long the poller waited in total.
#[derive(Clone, Debug, PartialEq, Eq)]
pub struct PollResult {
    /// How many status queries were made.
    pub polls: u64,
    /// The total waited time: one full interval before every query.
    pub waited_ms: u64,
    /// How the run ended.
    pub verdict: PollVerdict,
}

/// Replay the polling loop over a recorded status sequence: `statuses[i]`
/// is what the `i`-th query would observe, and queries past the end
/// observe nothing.  The run ends at the first decisive poll: the first
/// query is made only after one full interval, and the timeout is checked
/// only after a non-terminal observation.
pub fn confirmation_outcome(statuses: Vec<Option<TxStatus>>, interval_ms: u64, timeout_ms: u64)
    -> (r: PollResult)
    requires
        interval_ms >= 1,
        timeout_ms <= u64::MAX - interval_ms - 1,
    ensures
        r.polls >= 1,
        r.waited_ms as int == r.polls as int * interval_ms as int,
        forall|k: int| 1 <= k < r.polls as int ==> spec_decision_at(
            statuses@,
            interval_ms,
            timeout_ms,
            k,
        ) is KeepWaiting,
        r.verdict is Confirmed ==> spec_decision_at(
            statuses@,
            interval_ms,
            timeout_ms,
            r.polls as int,
        ) is Confirmed,
        r.verdict matches PollVerdict::Failed(f) ==> spec_decision_at(
            statuses@,
            interval_ms,
            timeout_ms,
            r.polls as int,
        ) == PollDecision::Failed(f),
        r.verdict is TimedOut ==> spec_decision_at(
            statuses@,
            interval_ms,
            timeout_ms,
            r.polls as int,
        ) is TimedOut,
{
    let ghost statuses0 = statuses@;
    let mut rest = statuses;
    let mut polls: u64 = 0;
    let mut waited: u64 = 0;
    #[verifier::loop_isolation(false)]
    loop
        invariant
            waited as int == polls as int * interval_ms as int,
            waited <= timeout_ms,
            (polls as int <= statuses0.len() && rest@ == statuses0.skip(polls as int)) || (polls
                as int >= statuses0.len() && rest@ == Seq::<Option<TxStatus>>::empty()),
            forall|k: int| 1 <= k <= polls as int ==> spec_decision_at(
                statuses0,
                interval_ms,
                timeout_ms,
                k,
            ) is KeepWaiting,
        decreases timeout_ms + interval_ms - waited,
    {
        proof {
            assert((polls + 1) as int * interval_ms as int == polls as int * interval_ms as int
                + interval_ms as int) by (nonlinear_arith);
        }
        let ghost rest_pre = rest@;
        polls = polls + 1;
        waited = waited + interval_ms;
        let status: Option<TxStatus> = if rest.len() > 0 {
            rest.remove(0)
        } else {
            None
        };
        proof {
            if rest_pre.len() > 0 {
                assert(rest_pre == statuses0.skip(polls - 1 as int));
                assert(status == statuses0[polls - 1 as int]);
                assert(rest@ =~= statuses0.skip(polls as int));
            } else {
                assert(polls as int >= statuses0.len());
            }
            assert(status == spec_status_at(statuses0, polls as int - 1));
        }
        match poll_decision(status, waited, timeout_ms) {
            PollDecision::Confirmed => {
                return PollResult { polls, waited_ms: waited, verdict: PollVerdict::Confirmed };
            },
            PollDecision::Failed(f) => {
                return PollResult { polls, waited_ms: waited, verdict: PollVerdict::Failed(f) };
            },
            PollDecision::TimedOut => {
                return PollResult { polls, waited_ms: waited, verdict: PollVerdict::TimedOut };
            },
            PollDecision::KeepWaiting => {
            },
        }
    }
}

/// When no observed status is ever terminal, the poller times out, and the
/// total waited time lies in `(timeout, timeout + interval]`: never earlier
/// than the timeout, never more than one interval past it.
pub proof fn lemma_timeout_window(
    statuses: Seq<Option<TxStatus>>,
    interval_ms: u64,
    timeout_ms: u64,
    polls: u64,
)
    requires
        interval_ms >= 1,
        polls >= 1,
        forall|k: int| 1 <= k < polls as int ==> spec_decision_at(
            statuses,
            interval_ms,
            timeout_ms,
            k,
        ) is KeepWaiting,
        spec_decision_at(statuses, interval_ms, timeout_ms, polls as int) is TimedOut,
    ensures
        polls as int * interval_ms as int > timeout_ms as int,
        polls as int * interval_ms as int <= timeout_ms as int + interval_ms as int,
{
    assert(polls as int * interval_ms as int > timeout_ms as int);
    if polls == 1 {
        assert(1 * interval_ms as int == interval_ms as int) by (nonlinear_arith);
    } else {
        assert(spec_decision_at(statuses, interval_ms, timeout_ms, polls as int - 1)
            is KeepWaiting);
        assert((polls as int - 1) * interval_ms as int <= timeout_ms as int);
        assert(polls as int * interval_ms as int == (polls as int - 1) * interval_ms as int
            + interval_ms as int) by (nonlinear_arith);
    }
}

} // verus!
