use wsprobe::summarize;

#[test]
fn summarize_empty_is_none() {
    let latencies: Vec<u64> = Vec::new();
    assert!(summarize(&latencies).is_none());
}

#[test]
fn summarize_single() {
    let latencies: Vec<u64> = vec![1234];
    let s = summarize(&latencies).unwrap();
    assert_eq!(s.count, 1);
    assert_eq!(s.min_micros, 1234);
    assert_eq!(s.avg_micros, 1234);
    assert_eq!(s.max_micros, 1234);
}

#[test]
fn summarize_three() {
    let latencies: Vec<u64> = vec![1000, 3000, 2000];
    let s = summarize(&latencies).unwrap();
    assert_eq!(s.count, 3);
    assert_eq!(s.min_micros, 1000);
    assert_eq!(s.avg_micros, 2000);
    assert_eq!(s.max_micros, 3000);
}

#[test]
fn summarize_equal_extremes() {
    let latencies: Vec<u64> = vec![500, 500, 500];
    let s = summarize(&latencies).unwrap();
    assert_eq!(s.min_micros, 500);
    assert_eq!(s.avg_micros, 500);
    assert_eq!(s.max_micros, 500);
}

#[test]
fn summarize_truncates_mean() {
    let latencies: Vec<u64> = vec![1, 2];
    let s = summarize(&latencies).unwrap();
    assert_eq!(s.avg_micros, 1);
}

#[test]
fn summarize_handles_largest_values() {
    let latencies: Vec<u64> = vec![u64::MAX, u64::MAX];
    let s = summarize(&latencies).unwrap();
    assert_eq!(s.min_micros, u64::MAX);
    assert_eq!(s.avg_micros, u64::MAX);
    assert_eq!(s.max_micros, u64::MAX);
}

#[test]
fn summarize_min_avg_max_ordered() {
    let latencies: Vec<u64> = vec![17, 4021, 998, 31_000_000, 77];
    let s = summarize(&latencies).unwrap();
    assert_eq!(s.count, 5);
    assert!(s.min_micros <= s.avg_micros);
    assert!(s.avg_micros <= s.max_micros);
}
