use telemetry_node::aggregator::reduce;
use telemetry_node::encode::encode_decimal;

#[test]
fn reduce_is_truncating_mean_times_scale() {
    // (10 + 20 + 31) * 1 / 3 = 61 / 3, truncating: 20
    assert_eq!(reduce(&vec![10, 20, 31], 1), 20);
    // (3 + 4) * 2 / 2 = 7
    assert_eq!(reduce(&vec![3, 4], 2), 7);
}

#[test]
fn reduce_truncates_toward_zero_for_negative_dividends() {
    // sum -15, divided by 2: truncation gives -7, not the floor -8
    assert_eq!(reduce(&vec![-7, -8], 1), -7);
    // sum -1 over 4 samples: -1 / 4 truncates to 0
    assert_eq!(reduce(&vec![-1, 0, 0, 0], 1), 0);
}

#[test]
fn reduce_single_sample_is_scaled_passthrough() {
    assert_eq!(reduce(&vec![1500], 2), 3000);
    assert_eq!(reduce(&vec![-403300], 1), -403300);
    assert_eq!(reduce(&vec![0], 2), 0);
}

#[test]
fn reduce_is_deterministic() {
    let samples = vec![123, -456, 789, 1];
    let a = reduce(&samples, 3);
    let b = reduce(&samples, 3);
    assert_eq!(a, b);
}

#[test]
fn reduce_handles_extreme_samples_and_scales() {
    let samples = vec![i32::MIN, i32::MIN];
    let expected = ((i32::MIN as i128 * 2) * (i32::MAX as i128) / 2) as i64;
    assert_eq!(reduce(&samples, i32::MAX), expected);

    let samples = vec![i32::MAX, i32::MIN, 17];
    let expected = ((i32::MAX as i128 + i32::MIN as i128 + 17) * (i32::MIN as i128)) / 3;
    assert_eq!(reduce(&samples, i32::MIN), expected as i64);
}

#[test]
fn encode_decimal_exact_text() {
    assert_eq!(encode_decimal(0), b"0".to_vec());
    assert_eq!(encode_decimal(7), b"7".to_vec());
    assert_eq!(encode_decimal(12345), b"12345".to_vec());
    assert_eq!(encode_decimal(-1), b"-1".to_vec());
    assert_eq!(encode_decimal(3000), b"3000".to_vec());
    assert_eq!(encode_decimal(-403300), b"-403300".to_vec());
    assert_eq!(encode_decimal(1000000), b"1000000".to_vec());
}

#[test]
fn encode_decimal_extremes() {
    assert_eq!(
        encode_decimal(i64::MAX),
        format!("{}", i64::MAX).into_bytes()
    );
    assert_eq!(
        encode_decimal(i64::MIN),
        format!("{}", i64::MIN).into_bytes()
    );
}
