//! Rendering of the line-oriented output: decimal numbers, latencies as
//! fractional milliseconds with two decimal places, and the exact lines the
//! two probes print.

use vstd::prelude::*;
use vstd::string::StringExecFns;
use crate::stats::Summary;

verus! {

/// The decimal digit character for a value in `0..=9`.
pub open spec fn spec_digit(d: int) -> char
    recommends
        0 <= d < 10,
{
    if d == 0 {
        '0'
    } else if d == 1 {
        '1'
    } else if d == 2 {
        '2'
    } else if d == 3 {
        '3'
    } else if d == 4 {
        '4'
    } else if d == 5 {
        '5'
    } else if d == 6 {
        '6'
    } else if d == 7 {
        '7'
    } else if d == 8 {
        '8'
    } else {
        '9'
    }
}

/// The decimal representation of a non-negative integer, most significant
/// digit first, without leading zeros (a lone zero for 0).
pub open spec fn spec_uint(n: int) -> Seq<char>
    recommends
        n >= 0,
    decreases n,
{
    if n < 10 {
        seq![spec_digit(n)]
    } else {
        spec_uint(n / 10).push(spec_digit(n % 10))
    }
}

/// A latency of `micros` microseconds rendered as milliseconds with exactly
/// two decimal places (truncated, not rounded).
pub open spec fn spec_millis(micros: int) -> Seq<char>
    recommends
        micros >= 0,
{
    spec_uint(micros / 1000) + seq![
        '.',
        spec_digit((micros % 1000) / 100),
        spec_digit(((micros % 1000) / 10) % 10),
    ]
}

fn digit_str(d: u64) -> (s: &'static str)
    requires
        d < 10,
    ensures
        s@ == seq![spec_digit(d as int)],
{
    proof {
        reveal_strlit("0");
        reveal_strlit("1");
        reveal_strlit("2");
        reveal_strlit("3");
        reveal_strlit("4");
        reveal_strlit("5");
        reveal_strlit("6");
        reveal_strlit("7");
        reveal_strlit("8");
        reveal_strlit("9");
    }
    let s = match d {
        0 => "0",
        1 => "1",
        2 => "2",
        3 => "3",
        4 => "4",
        5 => "5",
        6 => "6",
        7 => "7",
        8 => "8",
        _ => "9",
    };
    proof {
        assert(s@ =~= seq![spec_digit(d as int)]);
    }
    s
}

/// The decimal text of an unsigned number.
pub fn uint_string(n: u64) -> (s: String)
    ensures
        s@ == spec_uint(n as int),
    decreases n,
{
    if n < 10 {
        digit_str(n).to_owned()
    } else {
        let mut s = uint_string(n / 10);
        s.append(digit_str(n % 10));
        proof {
            assert(s@ =~= spec_uint(n as int / 10).push(spec_digit(n as int % 10)));
        }
        s
    }
}

/// A latency in microseconds as millisecond text with two decimal places.
pub fn millis_string(micros: u64) -> (s: String)
    ensures
        s@ == spec_millis(micros as int),
{
    let mut s = uint_string(micros / 1000);
    let frac = micros % 1000;
    s.append(".");
    s.append(digit_str(frac / 100));
    s.append(digit_str((frac / 10) % 10));
    proof {
        reveal_strlit(".");
        assert(s@ =~= spec_millis(micros as int));
    }
    s
}

/// The line printed once the connection to `url` is established.
pub fn connected_line(url: &str) -> (line: String)
    ensures
        line@ == "Connected to "@ + url@,
{
    let mut s = "Connected to ".to_owned();
    s.append(url);
    s
}

/// The line printed once the close frame has been sent.
pub fn closed_line() -> (line: String)
    ensures
        line@ == "Connection closed"@,
{
    "Connection closed".to_owned()
}

/// The line printed for one successful probe: its 1-based index, the total
/// count, and the round trip in milliseconds.
pub fn probe_line(index: u32, count: u32, micros: u64) -> (line: String)
    ensures
        line@ == "Ping "@ + spec_uint(index as int) + "/"@ + spec_uint(count as int)
            + " - Latency: "@ + spec_millis(micros as int) + " ms"@,
{
    let mut s = "Ping ".to_owned();
    s.append(uint_string(index as u64).as_str());
    s.append("/");
    s.append(uint_string(count as u64).as_str());
    s.append(" - Latency: ");
    s.append(millis_string(micros).as_str());
    s.append(" ms");
    proof {
        assert(s@ =~= "Ping "@ + spec_uint(index as int) + "/"@ + spec_uint(count as int)
            + " - Latency: "@ + spec_millis(micros as int) + " ms"@);
    }
    s
}

/// The first line of the statistics block for `url`.
pub fn stats_header(url: &str) -> (line: String)
    ensures
        line@ == "--- "@ + url@ + " ping statistics ---"@,
{
    let mut s = "--- ".to_owned();
    s.append(url);
    s.append(" ping statistics ---");
    proof {
        assert(s@ =~= "--- "@ + url@ + " ping statistics ---"@);
    }
    s
}

/// The second line of the statistics block: the count of pings sent and the
/// minimum, mean and maximum latency in milliseconds.
pub fn stats_line(s: &Summary) -> (line: String)
    ensures
        line@ == spec_uint(s.count as int) + " pings sent, Min/Avg/Max = "@ + spec_millis(
            s.min_micros as int,
        ) + "/"@ + spec_millis(s.avg_micros as int) + "/"@ + spec_millis(s.max_micros as int)
            + " ms"@,
{
    let mut out = uint_string(s.count as u64);
    out.append(" pings sent, Min/Avg/Max = ");
    out.append(millis_string(s.min_micros).as_str());
    out.append("/");
    out.append(millis_string(s.avg_micros).as_str());
    out.append("/");
    out.append(millis_string(s.max_micros).as_str());
    out.append(" ms");
    proof {
        assert(out@ =~= spec_uint(s.count as int) + " pings sent, Min/Avg/Max = "@ + spec_millis(
            s.min_micros as int,
        ) + "/"@ + spec_millis(s.avg_micros as int) + "/"@ + spec_millis(s.max_micros as int)
            + " ms"@);
    }
    out
}

} // verus!
