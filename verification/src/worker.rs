//! Per-worker accounting and loop decisions. A worker owns one connection and
//! one `WorkerState`; the send/receive/measure loop feeds every I/O outcome
//! through the step functions here, so that the counters and the latency
//! record can never drift apart.

use vstd::prelude::*;

verus! {

/// Per-worker message counters, owned by the worker until handed off to the
/// collector exactly once at termination.
#[derive(Clone, Copy, PartialEq, Eq, Structural, Debug)]
pub struct Tally {
    /// Requests whose send call completed.
    pub sent: u64,
    /// Responses received complete and on time.
    pub received: u64,
    /// Messages given up on after the retry budget was spent (UDP).
    pub lost: u64,
}

impl Tally {
    /// The tally a worker reports when it could not connect at all.
    pub fn zero() -> (r: Tally)
        ensures
            r.sent == 0,
            r.received == 0,
            r.lost == 0,
    {
        Tally { sent: 0, received: 0, lost: 0 }
    }
}

/// The whole mutable state of one worker: its tally, its append-only latency
/// record (nanoseconds, in the order measured), and a count of echoes that
/// came back complete but not byte-identical.
pub struct WorkerState {
    pub tally: Tally,
    pub samples: Vec<u64>,
    pub mismatches: u64,
}

impl WorkerState {
    /// Accounting invariant, held from construction to hand-off: exactly one
    /// latency sample per received response, and never more responses than
    /// requests.
    pub open spec fn wf(self) -> bool {
        &&& self.samples@.len() == self.tally.received
        &&& self.tally.received <= self.tally.sent
    }

    /// A fresh worker: nothing sent, nothing received, no samples.
    pub fn new() -> (r: WorkerState)
        ensures
            r.wf(),
            r.tally == (Tally { sent: 0, received: 0, lost: 0 }),
            r.samples@ =~= Seq::<u64>::empty(),
            r.mismatches == 0,
    {
        WorkerState { tally: Tally { sent: 0, received: 0, lost: 0 }, samples: Vec::new(), mismatches: 0 }
    }

    /// Record one completed send call.
    pub fn on_send_ok(&mut self)
        requires
            old(self).wf(),
            old(self).tally.sent < u64::MAX,
        ensures
            final(self).wf(),
            final(self).tally.sent == old(self).tally.sent + 1,
            final(self).tally.received == old(self).tally.received,
            final(self).tally.lost == old(self).tally.lost,
            final(self).samples@ == old(self).samples@,
            final(self).mismatches == old(self).mismatches,
    {
        self.tally.sent = self.tally.sent + 1;
    }

    /// Record one completed round trip and its measured latency. A response
    /// answers an earlier request, so there must be a send outstanding.
    pub fn on_receive_ok(&mut self, latency_nanos: u64)
        requires
            old(self).wf(),
            old(self).tally.received < old(self).tally.sent,
        ensures
            final(self).wf(),
            final(self).tally.sent == old(self).tally.sent,
            final(self).tally.received == old(self).tally.received + 1,
            final(self).tally.lost == old(self).tally.lost,
            final(self).samples@ == old(self).samples@.push(latency_nanos),
            final(self).mismatches == old(self).mismatches,
    {
        self.tally.received = self.tally.received + 1;
        self.samples.push(latency_nanos);
    }

    /// Record one message given up on after its retry budget ran out.
    pub fn on_message_lost(&mut self)
        requires
            old(self).wf(),
            old(self).tally.lost < u64::MAX,
        ensures
            final(self).wf(),
            final(self).tally.sent == old(self).tally.sent,
            final(self).tally.received == old(self).tally.received,
            final(self).tally.lost == old(self).tally.lost + 1,
            final(self).samples@ == old(self).samples@,
            final(self).mismatches == old(self).mismatches,
    {
        self.tally.lost = self.tally.lost + 1;
    }

    /// Record one echo that came back complete but differed from the request.
    /// Kept apart from the tally: a mismatch is an anomaly, not a loss.
    pub fn on_mismatch(&mut self)
        requires
            old(self).wf(),
            old(self).mismatches < u64::MAX,
        ensures
            final(self).wf(),
            final(self).tally == old(self).tally,
            final(self).samples@ == old(self).samples@,
            final(self).mismatches == old(self).mismatches + 1,
    {
        self.mismatches = self.mismatches + 1;
    }
}

/// What one blocking read on a TCP stream reported, as seen by the
/// reassembly loop.
#[derive(Clone, Copy, PartialEq, Eq, Structural, Debug)]
pub enum ReadEvent {
    /// The peer closed the stream (a zero-byte read).
    Closed,
    /// `n` more bytes arrived.
    Got(usize),
    /// The call was interrupted before reading anything.
    Interrupted,
    /// The call timed out or would have blocked mid-message.
    TimedOut,
    /// Any other I/O failure.
    Failed,
}

/// What the TCP reassembly loop does next.
#[derive(Clone, Copy, PartialEq, Eq, Structural, Debug)]
pub enum ReadStep {
    /// Keep reading; the argument is the new byte count.
    More(usize),
    /// Re-issue the read without counting progress.
    Retry,
    /// The response cannot be completed; the worker's loop must end, since a
    /// partially read stream cannot be resynchronized.
    Abort,
    /// The response is complete.
    Done,
}

/// One step of the TCP response reassembly: given `total` bytes accumulated
/// of an expected `length` and the outcome of one read, decide how to go on.
/// An interrupted call is retried; a closed stream, a timeout mid-message or
/// any other failure abandons the worker; progress accumulates until the
/// response is complete.
pub fn tcp_read_step(total: usize, length: usize, event: ReadEvent) -> (r: ReadStep)
    requires
        total < length,
        event matches ReadEvent::Got(n) ==> 1 <= n <= length - total,
    ensures
        event is Closed ==> r is Abort,
        event is Interrupted ==> r is Retry,
        event is TimedOut ==> r is Abort,
        event is Failed ==> r is Abort,
        event matches ReadEvent::Got(n) ==> r == (if total + n == length {
            ReadStep::Done
        } else {
            ReadStep::More((total + n) as usize)
        }),
{
    match event {
        ReadEvent::Closed => ReadStep::Abort,
        ReadEvent::Got(n) => {
            let new_total: usize = total + n;
            if new_total == length {
                ReadStep::Done
            } else {
                ReadStep::More(new_total)
            }
        },
        ReadEvent::Interrupted => ReadStep::Retry,
        ReadEvent::TimedOut => ReadStep::Abort,
        ReadEvent::Failed => ReadStep::Abort,
    }
}

/// What one UDP receive reported for the attempt in flight.
#[derive(Clone, Copy, PartialEq, Eq, Structural, Debug)]
pub enum RecvEvent {
    /// A datagram of `n` bytes arrived.
    Got(usize),
    /// The receive timed out.
    TimedOut,
    /// Any other I/O failure.
    Failed,
}

/// Whether one UDP attempt completed its exchange: only a datagram of exactly
/// the expected length counts; a short or long datagram, a timeout or an
/// error is a failed attempt, never fatal.
pub fn udp_attempt_succeeded(event: RecvEvent, length: usize) -> (r: bool)
    ensures
        r <==> (event matches RecvEvent::Got(n) && n == length),
{
    match event {
        RecvEvent::Got(n) => n == length,
        RecvEvent::TimedOut => false,
        RecvEvent::Failed => false,
    }
}

/// Whether the current message may be attempted once more: strictly fewer
/// attempts made than the retry budget allows. After the budget is spent the
/// message is counted lost and the loop moves on, so no single datagram can
/// block a worker indefinitely.
pub fn udp_may_retry(attempts_made: u32, retry_limit: u32) -> (r: bool)
    ensures
        r <==> attempts_made < retry_limit,
{
    attempts_made < retry_limit
}

/// Whether a worker may start another message: the stop signal is unraised
/// and the hard deadline — the nominal duration plus the grace period — has
/// not passed. Raising the stop signal therefore ends every worker's loop at
/// its next iteration boundary.
pub fn loop_should_continue(
    stop_observed: bool,
    elapsed_secs: u64,
    duration_secs: u64,
    grace_secs: u64,
) -> (r: bool)
    requires
        duration_secs <= u64::MAX - grace_secs,
    ensures
        r <==> (!stop_observed && elapsed_secs < duration_secs + grace_secs),
{
    !stop_observed && elapsed_secs < duration_secs + grace_secs
}

} // verus!
