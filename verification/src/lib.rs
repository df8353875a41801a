//! Diagnostic client library for WebSocket endpoints.
//!
//! Two probes share one connection-setup primitive: a latency probe that
//! drives a fixed-count ping/pong loop and aggregates round-trip times, and
//! a compression probe that requests the `permessage-deflate` extension
//! during the handshake and reports whether the server accepted it.
//!
//! Latencies are carried as whole microseconds; rendering shows fractional
//! milliseconds with two decimal places.


mod negotiate;
mod prober;
mod stats;
mod target;
mod text;

pub use negotiate::{
    compression_headers, compression_request_headers, extension_line,
    lemma_absent_extension_reports_agree, spec_extension_line, REQUESTED_EXTENSION,
};
pub use prober::{ping_payload, spec_ping_payload, FrameEvent, Phase, ProbeRecord, Prober};
pub use stats::{seq_avg, seq_max, seq_min, seq_sum, summarize, Summary};
pub use target::Target;
pub use text::{
    closed_line, connected_line, millis_string, probe_line, spec_digit, spec_millis, spec_uint,
    stats_header, stats_line, uint_string,
};
