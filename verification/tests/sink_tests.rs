use echobench::sink::render_latency_lines;

#[test]
fn one_line_per_sample_in_order() {
    let samples = vec![120, 95, 3];
    let bytes = render_latency_lines(&samples);
    assert_eq!(bytes, b"120\n95\n3\n".to_vec());
}

#[test]
fn empty_record_renders_nothing() {
    let bytes = render_latency_lines(&Vec::new());
    assert!(bytes.is_empty());
}

#[test]
fn zero_and_extreme_samples_render_exactly() {
    let samples = vec![0, u64::MAX];
    let bytes = render_latency_lines(&samples);
    assert_eq!(bytes, b"0\n18446744073709551615\n".to_vec());
}

#[test]
fn ten_renders_with_two_digits() {
    let bytes = render_latency_lines(&vec![10]);
    assert_eq!(bytes, b"10\n".to_vec());
}
