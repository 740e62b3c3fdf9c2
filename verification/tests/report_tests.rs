use echobench::report::{
    loss_percent, missing_responses, run_verdict, throughput_per_sec, RunVerdict,
};

#[test]
fn zero_duration_reports_zero_throughput() {
    assert_eq!(throughput_per_sec(1000, 0), 0);
}

#[test]
fn throughput_is_messages_per_second() {
    assert_eq!(throughput_per_sec(1000, 4), 250);
    assert_eq!(throughput_per_sec(7, 2), 3);
}

#[test]
fn missing_responses_is_the_shortfall() {
    assert_eq!(missing_responses(10, 7), 3);
    assert_eq!(missing_responses(7, 7), 0);
    assert_eq!(missing_responses(7, 10), 0);
}

#[test]
fn loss_percent_exact_values() {
    assert_eq!(loss_percent(10, 7), 30);
    assert_eq!(loss_percent(3, 2), 33);
    assert_eq!(loss_percent(8, 8), 0);
    assert_eq!(loss_percent(0, 0), 0);
}

#[test]
fn loss_percent_never_overflows_nor_exceeds_hundred() {
    assert_eq!(loss_percent(u64::MAX, 0), 100);
    assert_eq!(loss_percent(u64::MAX, u64::MAX - 1), 0);
}

#[test]
fn run_fails_only_with_no_connected_worker() {
    assert_eq!(run_verdict(0), RunVerdict::NoWorkerConnected);
    assert_eq!(run_verdict(1), RunVerdict::Completed);
    assert_eq!(run_verdict(50), RunVerdict::Completed);
}
