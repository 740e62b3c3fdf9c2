//! Result aggregation. The collector receives at most one tally per spawned
//! worker; the aggregate is the plain sum of the tallies that arrived in
//! time, with the number of reporting workers surfaced rather than hidden.

use vstd::prelude::*;

use crate::worker::Tally;

verus! {

/// Sum of the `sent` counters of a tally sequence.
pub open spec fn sum_sent(ts: Seq<Tally>) -> int
    decreases ts.len(),
{
    if ts.len() == 0 {
        0
    } else {
        sum_sent(ts.drop_last()) + ts.last().sent
    }
}

/// Sum of the `received` counters of a tally sequence.
pub open spec fn sum_received(ts: Seq<Tally>) -> int
    decreases ts.len(),
{
    if ts.len() == 0 {
        0
    } else {
        sum_received(ts.drop_last()) + ts.last().received
    }
}

/// Sum of the `lost` counters of a tally sequence.
pub open spec fn sum_lost(ts: Seq<Tally>) -> int
    decreases ts.len(),
{
    if ts.len() == 0 {
        0
    } else {
        sum_lost(ts.drop_last()) + ts.last().lost
    }
}

/// The final figures of a run, built once from the tallies that reached the
/// collector before the grace deadline.
#[derive(Clone, Copy, PartialEq, Eq, Structural, Debug)]
pub struct AggregateResult {
    pub total_sent: u64,
    pub total_received: u64,
    pub total_lost: u64,
    /// How many workers reported; less than the worker count when some never
    /// did.
    pub workers_reporting: u64,
}

/// What it means for an aggregate to be the aggregate of a tally sequence:
/// each total is the plain sum of the matching counters, and every tally in
/// the sequence is counted as one reporting worker.
pub open spec fn is_aggregate_of(r: AggregateResult, ts: Seq<Tally>) -> bool {
    &&& r.total_sent == sum_sent(ts)
    &&& r.total_received == sum_received(ts)
    &&& r.total_lost == sum_lost(ts)
    &&& r.workers_reporting == ts.len()
}

proof fn lemma_sum_take_succ(ts: Seq<Tally>, i: int)
    requires
        0 <= i < ts.len(),
    ensures
        sum_sent(ts.take(i + 1)) == sum_sent(ts.take(i)) + ts[i].sent,
        sum_received(ts.take(i + 1)) == sum_received(ts.take(i)) + ts[i].received,
        sum_lost(ts.take(i + 1)) == sum_lost(ts.take(i)) + ts[i].lost,
{
    assert(ts.take(i + 1).drop_last() =~= ts.take(i));
    assert(ts.take(i + 1).last() == ts[i]);
}

proof fn lemma_sum_take_le(ts: Seq<Tally>, i: int)
    requires
        0 <= i <= ts.len(),
    ensures
        sum_sent(ts.take(i)) <= sum_sent(ts),
        sum_received(ts.take(i)) <= sum_received(ts),
        sum_lost(ts.take(i)) <= sum_lost(ts),
    decreases ts.len() - i,
{
    if i == ts.len() {
        assert(ts.take(i) =~= ts);
    } else {
        lemma_sum_take_succ(ts, i);
        lemma_sum_take_le(ts, i + 1);
    }
}

/// Fold the reported tallies into one aggregate. Exactly one tally per
/// reporting worker is expected, so the sequence is never longer than the
/// worker count. Returns `None` exactly when some total would not fit in a
/// counter; otherwise the result is the aggregate of the input, with
/// `workers_reporting` never above the worker count.
pub fn aggregate(tallies: &Vec<Tally>, worker_count: u32) -> (r: Option<AggregateResult>)
    requires
        tallies@.len() <= worker_count,
    ensures
        r is Some <==> (sum_sent(tallies@) <= u64::MAX && sum_received(tallies@) <= u64::MAX
            && sum_lost(tallies@) <= u64::MAX),
        r matches Some(a) ==> is_aggregate_of(a, tallies@) && a.workers_reporting <= worker_count,
{
    let mut total_sent: u64 = 0;
    let mut total_received: u64 = 0;
    let mut total_lost: u64 = 0;
    let mut i: usize = 0;
    while i < tallies.len()
        invariant
            i <= tallies@.len(),
            tallies@.len() <= worker_count,
            total_sent == sum_sent(tallies@.take(i as int)),
            total_received == sum_received(tallies@.take(i as int)),
            total_lost == sum_lost(tallies@.take(i as int)),
        decreases tallies@.len() - i,
    {
        let t: Tally = tallies[i];
        proof {
            lemma_sum_take_succ(tallies@, i as int);
            lemma_sum_take_le(tallies@, i as int + 1);
        }
        let next_sent: Option<u64> = total_sent.checked_add(t.sent);
        let next_received: Option<u64> = total_received.checked_add(t.received);
        let next_lost: Option<u64> = total_lost.checked_add(t.lost);
        match (next_sent, next_received, next_lost) {
            (Some(s), Some(rcv), Some(l)) => {
                total_sent = s;
                total_received = rcv;
                total_lost = l;
            },
            _ => {
                return None;
            },
        }
        i = i + 1;
    }
    proof {
        assert(tallies@.take(tallies@.len() as int) =~= tallies@);
        lemma_sum_take_le(tallies@, tallies@.len() as int);
    }
    Some(AggregateResult {
        total_sent,
        total_received,
        total_lost,
        workers_reporting: tallies.len() as u64,
    })
}

/// In any run against a correctly functioning echo server no worker counts
/// more responses than requests, and then neither does the aggregate: the
/// total received never exceeds the total sent.
pub proof fn lemma_sent_dominates_received(ts: Seq<Tally>)
    requires
        forall|i: int| 0 <= i < ts.len() ==> (#[trigger] ts[i]).received <= ts[i].sent,
    ensures
        sum_received(ts) <= sum_sent(ts),
    decreases ts.len(),
{
    if ts.len() > 0 {
        assert(forall|i: int|
            0 <= i < ts.drop_last().len() ==> (#[trigger] ts.drop_last()[i]).received
                <= ts.drop_last()[i].sent);
        lemma_sent_dominates_received(ts.drop_last());
        assert(ts.last() == ts[ts.len() - 1]);
    }
}

/// Aggregation is a pure fold with no hidden state: any two aggregates of
/// the same tally sequence are equal, so computing the aggregate twice over
/// the same reports yields the same result.
pub proof fn lemma_aggregate_deterministic(
    ts: Seq<Tally>,
    r1: AggregateResult,
    r2: AggregateResult,
)
    requires
        is_aggregate_of(r1, ts),
        is_aggregate_of(r2, ts),
    ensures
        r1 == r2,
{
}

proof fn lemma_sum_remove(ts: Seq<Tally>, i: int)
    requires
        0 <= i < ts.len(),
    ensures
        sum_sent(ts.remove(i)) == sum_sent(ts) - ts[i].sent,
        sum_received(ts.remove(i)) == sum_received(ts) - ts[i].received,
        sum_lost(ts.remove(i)) == sum_lost(ts) - ts[i].lost,
    decreases ts.len(),
{
    if i == ts.len() - 1 {
        assert(ts.remove(i) =~= ts.drop_last());
    } else {
        assert(ts.remove(i).drop_last() =~= ts.drop_last().remove(i));
        assert(ts.remove(i).last() == ts.last());
        lemma_sum_remove(ts.drop_last(), i);
    }
}

/// The tallies reach the collector asynchronously and in no particular
/// order, and the order does not matter: two sequences holding the same
/// tallies, however arranged, sum to the same totals.
pub proof fn lemma_sum_order_irrelevant(s1: Seq<Tally>, s2: Seq<Tally>)
    requires
        s1.to_multiset() == s2.to_multiset(),
    ensures
        sum_sent(s1) == sum_sent(s2),
        sum_received(s1) == sum_received(s2),
        sum_lost(s1) == sum_lost(s2),
    decreases s1.len(),
{
    s1.to_multiset_ensures();
    s2.to_multiset_ensures();
    if s1.len() == 0 {
        assert(s2.len() == 0);
    } else {
        let last = s1.len() - 1;
        let x = s1[last];
        assert(s1.to_multiset().count(x) > 0);
        assert(s2.contains(x));
        let j = choose|j: int| 0 <= j < s2.len() && s2[j] == x;
        assert(s1.remove(last).to_multiset() =~= s1.to_multiset().remove(x));
        assert(s2.remove(j).to_multiset() =~= s2.to_multiset().remove(x));
        lemma_sum_order_irrelevant(s1.remove(last), s2.remove(j));
        lemma_sum_remove(s1, last);
        lemma_sum_remove(s2, j);
    }
}

/// Aggregates built from the same set of reports, in whatever order they
/// arrived, are equal.
pub proof fn lemma_aggregate_order_irrelevant(
    s1: Seq<Tally>,
    s2: Seq<Tally>,
    r1: AggregateResult,
    r2: AggregateResult,
)
    requires
        s1.to_multiset() == s2.to_multiset(),
        is_aggregate_of(r1, s1),
        is_aggregate_of(r2, s2),
    ensures
        r1 == r2,
{
    s1.to_multiset_ensures();
    s2.to_multiset_ensures();
    lemma_sum_order_irrelevant(s1, s2);
}

/// Collector wait policy: keep waiting exactly while some worker has not
/// reported and the grace period since the stop signal has not run out. A
/// worker late past the grace period is excluded, never waited for without
/// bound.
pub fn collector_should_wait(
    reports_received: u64,
    worker_count: u32,
    waited_millis: u64,
    grace_millis: u64,
) -> (r: bool)
    ensures
        r <==> (reports_received < worker_count && waited_millis < grace_millis),
{
    reports_received < worker_count as u64 && waited_millis < grace_millis
}

} // verus!
