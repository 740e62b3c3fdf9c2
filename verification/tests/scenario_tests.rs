//! End-to-end scenarios driven against the verified core: the worker loops
//! are replayed step by step with scripted I/O outcomes in place of sockets.

use echobench::collector::aggregate;
use echobench::config::PayloadKind;
use echobench::message::{build_message, echo_matches};
use echobench::report::{loss_percent, run_verdict, throughput_per_sec, RunVerdict};
use echobench::stop::StopController;
use echobench::worker::{
    loop_should_continue, tcp_read_step, udp_attempt_succeeded, udp_may_retry, ReadEvent,
    ReadStep, RecvEvent, Tally, WorkerState,
};

/// One TCP round trip against a perfect echo server: the whole message is
/// written, the echo arrives in two partial reads, and it matches.
fn tcp_round_trip(w: &mut WorkerState, length: usize) {
    let request = build_message(length, PayloadKind::Zeroed);
    w.on_send_ok();
    let mut total = 0usize;
    let first = length / 2;
    for event in [ReadEvent::Got(first), ReadEvent::Got(length - first)] {
        match tcp_read_step(total, length, event) {
            ReadStep::More(t) => total = t,
            ReadStep::Done => total = length,
            other => panic!("unexpected step {:?}", other),
        }
    }
    assert_eq!(total, length);
    w.on_receive_ok(1_000);
    let echoed = request.clone();
    if !echo_matches(&request, &echoed) {
        w.on_mismatch();
    }
}

#[test]
fn tcp_all_workers_succeed() {
    // Five workers, 64-byte messages, a perfect echo server: every request is
    // answered, nothing is lost, every worker has latency samples to flush.
    let mut tallies: Vec<Tally> = Vec::new();
    let mut all_samples: Vec<Vec<u64>> = Vec::new();
    for _ in 0..5 {
        let mut w = WorkerState::new();
        for _ in 0..8 {
            tcp_round_trip(&mut w, 64);
        }
        assert_eq!(w.mismatches, 0);
        tallies.push(w.tally);
        all_samples.push(w.samples);
    }
    let agg = aggregate(&tallies, 5).unwrap();
    assert_eq!(agg.total_sent, agg.total_received);
    assert_eq!(agg.total_lost, 0);
    assert_eq!(agg.workers_reporting, 5);
    for samples in &all_samples {
        assert!(!samples.is_empty());
    }
    assert_eq!(loss_percent(agg.total_sent, agg.total_received), 0);
    assert_eq!(throughput_per_sec(agg.total_sent, 2), 20);
}

#[test]
fn udp_with_datagram_loss() {
    // Five workers over UDP with roughly a third of the messages dropped by
    // the network: every attempt's send succeeds and a dropped message times
    // out through all three attempts before it is counted lost.
    let retry_limit = 3u32;
    let length = 64usize;
    let mut tallies: Vec<Tally> = Vec::new();
    for worker in 0..5u64 {
        let mut w = WorkerState::new();
        for msg in 0..9u64 {
            let dropped = (worker + msg) % 3 == 0;
            let mut attempts = 0u32;
            let mut success = false;
            while !success && udp_may_retry(attempts, retry_limit) {
                w.on_send_ok();
                attempts += 1;
                let event = if dropped { RecvEvent::TimedOut } else { RecvEvent::Got(length) };
                if udp_attempt_succeeded(event, length) {
                    w.on_receive_ok(2_000);
                    success = true;
                }
            }
            if !success {
                w.on_message_lost();
            }
        }
        tallies.push(w.tally);
    }
    let agg = aggregate(&tallies, 5).unwrap();
    assert!(agg.total_lost > 0);
    // Every loss burned the full retry budget of sends, so the totals add up
    // within retry-ceiling rounding.
    assert!(agg.total_received + agg.total_lost <= agg.total_sent);
    assert!(agg.total_sent <= agg.total_received + agg.total_lost * retry_limit as u64);
    assert_eq!(agg.total_sent, agg.total_received + agg.total_lost * retry_limit as u64);
}

#[test]
fn all_workers_fail_to_connect() {
    // The target is unreachable: every worker reports a zero tally promptly,
    // the aggregate is all zero, and the run-level verdict is the failure.
    let tallies = vec![Tally::zero(); 5];
    let agg = aggregate(&tallies, 5).unwrap();
    assert_eq!(agg.workers_reporting, 5);
    assert_eq!(agg.total_sent, 0);
    assert_eq!(agg.total_received, 0);
    assert_eq!(agg.total_lost, 0);
    assert_eq!(run_verdict(0), RunVerdict::NoWorkerConnected);
}

#[test]
fn stop_signal_cuts_off_an_in_flight_message() {
    // A one-second run with round trips slower than a second: the stop signal
    // is raised while a response is outstanding, the read loop stops at its
    // next poll, and the worker still reports what it had.
    let stop = StopController::new();
    assert!(!stop.is_raised());
    let mut w = WorkerState::new();
    assert!(loop_should_continue(stop.is_raised(), 0, 1, 5));
    w.on_send_ok();
    stop.raise();
    assert!(stop.is_raised());
    // Mid-read poll sees the raised flag: the response is abandoned and no
    // further iteration starts.
    assert!(!loop_should_continue(stop.is_raised(), 1, 1, 5));
    tally_is_still_reported(w);
}

fn tally_is_still_reported(w: WorkerState) {
    let tallies = vec![w.tally];
    let agg = aggregate(&tallies, 1).unwrap();
    assert_eq!(agg.workers_reporting, 1);
    assert_eq!(agg.total_sent, 1);
    assert_eq!(agg.total_received, 0);
    assert!(w.samples.is_empty());
}
