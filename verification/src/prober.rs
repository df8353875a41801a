//! Latency prober: the decision core of the ping flow.
//!
//! One `Prober` drives a fixed-count loop of ping/pong exchanges. The caller
//! performs the waiting, sending and receiving; the prober decides what each
//! tick and each incoming frame means, records one round trip per pong, and
//! keeps the record sequence ordered by sequence index. The very first ping
//! is due immediately; each later one is due a full interval after the
//! previous tick.
//!
//! A transport failure, or a connection that closes while a pong is still
//! awaited, aborts the whole probe and discards every record accumulated so
//! far, so a summary is only ever produced for a complete, uninterrupted
//! run, and the next ping goes out only after the previous pong arrived.

use vstd::prelude::*;
use crate::stats::{seq_avg, seq_max, seq_min, summarize, Summary};

verus! {

/// One measured round trip: the 1-based sequence index of the ping and the
/// elapsed time until its pong, in whole microseconds. Never mutated after
/// creation.
#[derive(Clone, Copy, Debug, PartialEq, Eq, Structural)]
pub struct ProbeRecord {
    pub index: u32,
    pub micros: u64,
}

/// What arrived, or went wrong, while a pong was awaited.
pub enum FrameEvent {
    /// The pong answering the outstanding ping, with the elapsed time since
    /// that ping was sent, in microseconds.
    Pong { elapsed_micros: u64 },
    /// Any other frame (text, binary, or another control frame): discarded.
    Other,
    /// The transport failed mid-exchange: the probe aborts.
    TransportError,
    /// The stream ended (the connection closed) without a pong: the probe
    /// aborts, like a transport failure.
    StreamEnded,
}

/// Where the probe stands.
pub enum Phase {
    /// The next ping is due once the interval has elapsed.
    Sending,
    /// A ping is outstanding; incoming frames are read until its pong.
    Awaiting,
    /// All iterations are done; a close frame is due.
    Closing,
    /// The close frame was sent; the session completed normally.
    Done,
    /// A transport or send failure ended the probe; no summary is owed.
    Failed,
}

/// The payload byte a ping carries: its sequence index reduced mod 256.
pub open spec fn spec_ping_payload(index: u32) -> u8 {
    (index % 256) as u8
}

/// The payload byte for the ping with the given 1-based sequence index.
pub fn ping_payload(index: u32) -> (b: u8)
    ensures
        b == spec_ping_payload(index),
        b as int == index as int % 256,
{
    (index % 256) as u8
}

/// State of one probe session: the configured iteration count, the 1-based
/// index of the current iteration, the records collected so far, and the
/// phase of the exchange.
pub struct Prober {
    pub count: u32,
    pub next_index: u32,
    pub records: Vec<ProbeRecord>,
    pub phase: Phase,
}

impl Prober {
    /// Well-formedness: while pings are still being exchanged the current
    /// index lies in `1..=count`; record indices lie in `1..=count`, are
    /// strictly increasing (send order, never reused or skipped backwards),
    /// and never reach an iteration that has not completed; a failed probe
    /// holds no records.
    pub open spec fn wf(&self) -> bool {
        &&& (self.phase is Sending || self.phase is Awaiting) ==> 1 <= self.next_index
            <= self.count
        &&& forall|k: int|
            0 <= k < self.records@.len() ==> 1 <= (#[trigger] self.records@[k]).index
                <= self.count
        &&& forall|j: int, k: int|
            0 <= j < k < self.records@.len() ==> (#[trigger] self.records@[j]).index < (
            #[trigger] self.records@[k]).index
        &&& (self.phase is Sending || self.phase is Awaiting) ==> forall|k: int|
            0 <= k < self.records@.len() ==> (#[trigger] self.records@[k]).index
                < self.next_index
        &&& self.phase is Failed ==> self.records@.len() == 0
    }

    /// The latencies recorded so far, in send order.
    pub open spec fn latencies_view(&self) -> Seq<u64> {
        self.records@.map_values(|r: ProbeRecord| r.micros)
    }

    /// Start a session of `count` iterations: no records, first index 1;
    /// with nothing to send the session goes straight to its close.
    pub fn new(count: u32) -> (p: Prober)
        ensures
            p.wf(),
            p.count == count,
            p.next_index == 1,
            p.records@.len() == 0,
            count == 0 ==> p.phase is Closing,
            count > 0 ==> p.phase is Sending,
    {
        let phase = if count == 0 {
            Phase::Closing
        } else {
            Phase::Sending
        };
        Prober { count, next_index: 1, records: Vec::new(), phase }
    }

    /// The interval elapsed and the current ping goes out: yields its payload
    /// byte (sequence index mod 256) and awaits the pong.
    pub fn send_ping(&mut self) -> (payload: u8)
        requires
            old(self).wf(),
            old(self).phase is Sending,
        ensures
            final(self).wf(),
            final(self).phase is Awaiting,
            final(self).count == old(self).count,
            final(self).next_index == old(self).next_index,
            final(self).records@ == old(self).records@,
            payload as int == old(self).next_index as int % 256,
    {
        self.phase = Phase::Awaiting;
        ping_payload(self.next_index)
    }

    /// An incoming frame (or transport outcome) while a pong is awaited.
    /// A pong appends one record carrying the current index and moves to the
    /// next iteration, or to the close after the last one; any other frame
    /// changes nothing; a transport error or an ended stream fails the probe
    /// and discards every record, so no ping ever goes out, and no summary is
    /// ever produced, past a round trip that did not complete.
    pub fn on_frame(&mut self, event: FrameEvent)
        requires
            old(self).wf(),
            old(self).phase is Awaiting,
        ensures
            final(self).wf(),
            final(self).count == old(self).count,
            match event {
                FrameEvent::Pong { elapsed_micros } => {
                    &&& final(self).records@ == old(self).records@.push(
                        ProbeRecord { index: old(self).next_index, micros: elapsed_micros },
                    )
                    &&& (old(self).next_index < old(self).count ==> final(self).phase is Sending
                        && final(self).next_index == old(self).next_index + 1)
                    &&& (old(self).next_index == old(self).count ==> final(self).phase is Closing)
                },
                FrameEvent::Other => *final(self) == *old(self),
                FrameEvent::TransportError => final(self).phase is Failed
                    && final(self).records@.len() == 0,
                FrameEvent::StreamEnded => final(self).phase is Failed
                    && final(self).records@.len() == 0,
            },
    {
        match event {
            FrameEvent::Pong { elapsed_micros } => {
                self.records.push(ProbeRecord { index: self.next_index, micros: elapsed_micros });
                if self.next_index < self.count {
                    self.next_index = self.next_index + 1;
                    self.phase = Phase::Sending;
                } else {
                    self.phase = Phase::Closing;
                }
            },
            FrameEvent::Other => {},
            FrameEvent::TransportError => {
                self.records = Vec::new();
                self.phase = Phase::Failed;
            },
            FrameEvent::StreamEnded => {
                self.records = Vec::new();
                self.phase = Phase::Failed;
            },
        }
    }

    /// A send failed (a ping or the close frame): the probe fails and
    /// discards every record.
    pub fn send_failed(&mut self)
        requires
            old(self).wf(),
            old(self).phase is Sending || old(self).phase is Closing,
        ensures
            final(self).wf(),
            final(self).count == old(self).count,
            final(self).phase is Failed,
            final(self).records@.len() == 0,
    {
        self.records = Vec::new();
        self.phase = Phase::Failed;
    }

    /// The close frame went out: the session is complete and its records
    /// stand.
    pub fn close_sent(&mut self)
        requires
            old(self).wf(),
            old(self).phase is Closing,
        ensures
            final(self).wf(),
            final(self).phase is Done,
            final(self).count == old(self).count,
            final(self).records@ == old(self).records@,
    {
        self.phase = Phase::Done;
    }

    /// The recorded latencies in send order, as plain microsecond values.
    pub fn latencies(&self) -> (v: Vec<u64>)
        ensures
            v@ == self.latencies_view(),
    {
        let mut v: Vec<u64> = Vec::new();
        let mut i: usize = 0;
        while i < self.records.len()
            invariant
                0 <= i <= self.records@.len(),
                v@ == self.records@.subrange(0, i as int).map_values(|r: ProbeRecord| r.micros),
            decreases self.records@.len() - i,
        {
            let ghost pre = self.records@.subrange(0, i as int);
            v.push(self.records[i].micros);
            proof {
                let cur = self.records@.subrange(0, i as int + 1);
                assert(cur.drop_last() =~= pre);
                assert(cur.map_values(|r: ProbeRecord| r.micros) =~= pre.map_values(
                    |r: ProbeRecord| r.micros,
                ).push(self.records@[i as int].micros));
            }
            i = i + 1;
        }
        proof {
            assert(self.records@.subrange(0, self.records@.len() as int) =~= self.records@);
        }
        v
    }

    /// The session summary: absent exactly when no round trip was recorded
    /// (an empty run, or a failed probe, whose records were discarded);
    /// otherwise the count, minimum, mean and maximum of the recorded
    /// latencies.
    pub fn summary(&self) -> (r: Option<Summary>)
        ensures
            r is Some <==> self.records@.len() > 0,
            match r {
                Some(s) => s.count == self.records@.len() && s.min_micros == seq_min(
                    self.latencies_view(),
                ) && s.avg_micros == seq_avg(self.latencies_view()) && s.max_micros == seq_max(
                    self.latencies_view(),
                ),
                None => self.records@.len() == 0,
            },
    {
        let v = self.latencies();
        summarize(&v)
    }
}

} // verus!
