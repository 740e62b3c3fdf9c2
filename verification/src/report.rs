//! Derived figures for the final report: throughput, missing responses and
//! the loss percentage, plus the run-level verdict. All of it is integer
//! arithmetic guarded against a zero duration and against overflow.

use vstd::prelude::*;

verus! {

/// Messages per second over the run, rounded down. A zero-length run reports
/// zero throughput instead of dividing by zero.
pub fn throughput_per_sec(count: u64, duration_secs: u64) -> (r: u64)
    ensures
        duration_secs == 0 ==> r == 0,
        duration_secs > 0 ==> r == count / duration_secs,
{
    if duration_secs == 0 {
        0
    } else {
        count / duration_secs
    }
}

/// Responses missing relative to requests; zero when nothing is missing.
pub fn missing_responses(sent: u64, received: u64) -> (r: u64)
    ensures
        r == if sent > received {
            sent - received
        } else {
            0
        },
{
    if sent > received {
        sent - received
    } else {
        0
    }
}

/// Share of requests that went unanswered, in whole percent, rounded down;
/// zero when nothing was sent or nothing is missing. Never above one hundred.
pub fn loss_percent(sent: u64, received: u64) -> (r: u64)
    ensures
        sent == 0 ==> r == 0,
        sent > 0 && sent <= received ==> r == 0,
        sent > received ==> r == ((sent - received) * 100) / (sent as int),
        r <= 100,
{
    if sent == 0 || sent <= received {
        0
    } else {
        let missing: u64 = sent - received;
        let pct_wide: u128 = ((missing as u128) * 100) / (sent as u128);
        proof {
            assert(missing <= sent);
            assert((missing as int) * 100 <= (sent as int) * 100) by (nonlinear_arith)
                requires
                    missing <= sent,
            ;
            vstd::arithmetic::div_mod::lemma_div_is_ordered(
                (missing as int) * 100,
                (sent as int) * 100,
                sent as int,
            );
            assert(((sent as int) * 100) / (sent as int) == 100) by (nonlinear_arith)
                requires
                    sent > 0,
            ;
        }
        pct_wide as u64
    }
}

/// How the run as a whole ended.
#[derive(Clone, Copy, PartialEq, Eq, Structural, Debug)]
pub enum RunVerdict {
    /// The run completed; partial loss or missing reports are data points,
    /// not a failure.
    Completed,
    /// Not one worker could connect, so the run could not proceed at all.
    NoWorkerConnected,
}

/// Run-level verdict from the number of workers whose connection attempt
/// succeeded: the run fails only when that number is zero.
pub fn run_verdict(workers_connected: u64) -> (r: RunVerdict)
    ensures
        r is NoWorkerConnected <==> workers_connected == 0,
{
    if workers_connected == 0 {
        RunVerdict::NoWorkerConnected
    } else {
        RunVerdict::Completed
    }
}

} // verus!
