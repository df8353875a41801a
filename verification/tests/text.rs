use wsprobe::{
    closed_line, connected_line, millis_string, probe_line, stats_header, stats_line, summarize,
    uint_string,
};

#[test]
fn uint_text() {
    assert_eq!(uint_string(0), "0");
    assert_eq!(uint_string(7), "7");
    assert_eq!(uint_string(10), "10");
    assert_eq!(uint_string(257), "257");
    assert_eq!(uint_string(u64::MAX), "18446744073709551615");
}

#[test]
fn millis_text_has_two_decimals() {
    assert_eq!(millis_string(0), "0.00");
    assert_eq!(millis_string(5), "0.00");
    assert_eq!(millis_string(999), "0.99");
    assert_eq!(millis_string(1000), "1.00");
    assert_eq!(millis_string(1005), "1.00");
    assert_eq!(millis_string(1234), "1.23");
    assert_eq!(millis_string(123_456), "123.45");
}

#[test]
fn connection_lines() {
    assert_eq!(connected_line("ws://localhost:9001"), "Connected to ws://localhost:9001");
    assert_eq!(closed_line(), "Connection closed");
}

#[test]
fn probe_line_text() {
    assert_eq!(probe_line(1, 5, 1500), "Ping 1/5 - Latency: 1.50 ms");
    assert_eq!(probe_line(257, 300, 250), "Ping 257/300 - Latency: 0.25 ms");
}

#[test]
fn stats_block_text() {
    assert_eq!(
        stats_header("ws://localhost:9001"),
        "--- ws://localhost:9001 ping statistics ---"
    );
    let latencies: Vec<u64> = vec![1500, 2500, 2000];
    let summary = summarize(&latencies).unwrap();
    assert_eq!(stats_line(&summary), "3 pings sent, Min/Avg/Max = 1.50/2.00/2.50 ms");
}
