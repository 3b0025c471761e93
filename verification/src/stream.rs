//! The connection state machine shared by every venue adapter, and the
//! sequencing rules that decide whether a depth diff may be applied.
//! The embedding program owns the transport and the clock; it feeds
//! events and timestamps in and performs the returned effects.

use vstd::prelude::*;

use crate::depth::{DepthPayload, DepthUpdate, LocalDepthCache, apply_levels};
use crate::numeric::MinTicksize;

verus! {

/// How a venue chains diff identifiers to the previous diff.
#[derive(Debug, Clone, Copy, PartialEq, Eq, Structural)]
pub enum SequenceRule {
    /// The next diff's first identifier is the previous final plus one.
    FirstAdjacent,
    /// The next diff names the previous diff's final identifier.
    PrevFinalMatch,
}

/// The identifier range a diff declares.
#[derive(Debug, Clone, Copy, PartialEq, Eq, Structural)]
pub struct DiffMeta {
    pub first_id: u64,
    pub final_id: u64,
    /// The previous diff's final identifier, on venues that send one;
    /// zero elsewhere.
    pub prev_final_id: u64,
}

/// What to do with an incoming depth diff.
#[derive(Debug, Clone, Copy, PartialEq, Eq, Structural)]
pub enum DepthAction {
    /// The diff is older than the book, or no snapshot is loaded yet.
    Skip,
    /// The diff does not adjoin the local identifier: fetch a fresh
    /// snapshot before applying any further diff.
    Resync,
    /// The diff continues the stream and is applied.
    Apply,
    /// The chain to the previous diff is broken beyond recovery of
    /// this transport: disconnect.
    Desync,
}

/// Whether a diff continues the chain from the previously applied one.
pub open spec fn chain_matches(rule: SequenceRule, prev_id: u64, meta: DiffMeta) -> bool {
    match rule {
        SequenceRule::FirstAdjacent => prev_id == meta.first_id - 1,
        SequenceRule::PrevFinalMatch => prev_id == meta.prev_final_id,
    }
}

/// The decision for one diff, given the identifier of the last applied
/// update and of the previously applied diff (zero right after a
/// snapshot).
pub open spec fn depth_decision_spec(
    rule: SequenceRule,
    last_update_id: u64,
    prev_id: u64,
    meta: DiffMeta,
) -> DepthAction {
    if meta.final_id <= last_update_id || last_update_id == 0 {
        DepthAction::Skip
    } else if prev_id == 0 && (meta.first_id > last_update_id + 1 || last_update_id + 1
        > meta.final_id) {
        DepthAction::Resync
    } else if prev_id == 0 || chain_matches(rule, prev_id, meta) {
        DepthAction::Apply
    } else {
        DepthAction::Desync
    }
}

/// Classify one diff against the local book. A diff is applied only
/// when the local identifier lies inside the diff's covered range (no
/// update dropped) or the venue's chaining rule ties it to the
/// previous diff exactly.
pub fn depth_diff_decision(
    rule: SequenceRule,
    last_update_id: u64,
    prev_id: u64,
    meta: DiffMeta,
) -> (r: DepthAction)
    ensures
        r == depth_decision_spec(rule, last_update_id, prev_id, meta),
{
    if meta.final_id <= last_update_id || last_update_id == 0 {
        DepthAction::Skip
    } else if prev_id == 0 && (meta.first_id > last_update_id + 1 || last_update_id
        >= meta.final_id) {
        DepthAction::Resync
    } else {
        let matches_chain: bool = match rule {
            SequenceRule::FirstAdjacent => meta.first_id > 0 && prev_id == meta.first_id - 1,
            SequenceRule::PrevFinalMatch => prev_id == meta.prev_final_id,
        };
        if prev_id == 0 || matches_chain {
            DepthAction::Apply
        } else {
            DepthAction::Desync
        }
    }
}

/// Apply one diff to the local book when, and only when, the sequence
/// decision allows it: on any other decision the book, its identifier
/// and its timestamp are left exactly as they were, so a detected gap
/// never blanks or corrupts the previously materialized depth.
pub fn apply_depth_diff(
    cache: &mut LocalDepthCache,
    rule: SequenceRule,
    prev_id: u64,
    meta: DiffMeta,
    diff: DepthPayload,
    t: MinTicksize,
) -> (r: DepthAction)
    requires
        old(cache).depth.wf(),
        t.wf(),
        diff.wf(),
        diff.last_update_id == meta.final_id,
    ensures
        final(cache).depth.wf(),
        r == depth_decision_spec(rule, old(cache).last_update_id, prev_id, meta),
        r != DepthAction::Apply ==> ({
            &&& final(cache).depth.bid_map() == old(cache).depth.bid_map()
            &&& final(cache).depth.ask_map() == old(cache).depth.ask_map()
            &&& final(cache).last_update_id == old(cache).last_update_id
            &&& final(cache).time == old(cache).time
        }),
        r == DepthAction::Apply ==> ({
            &&& final(cache).last_update_id == meta.final_id
            &&& final(cache).time == diff.time
            &&& final(cache).depth.bid_map() == apply_levels(
                old(cache).depth.bid_map(),
                diff.bids@,
                t,
            )
            &&& final(cache).depth.ask_map() == apply_levels(
                old(cache).depth.ask_map(),
                diff.asks@,
                t,
            )
        }),
{
    let action: DepthAction = depth_diff_decision(rule, cache.last_update_id, prev_id, meta);
    if matches!(action, DepthAction::Apply) {
        cache.update(DepthUpdate::Diff(diff), t);
    }
    action
}

/// A diff whose identifier range does not adjoin the locally applied
/// identifier asks for a resync, never an application: the previously
/// materialized book stays untouched until the fresh snapshot arrives.
pub proof fn lemma_gap_triggers_resync(rule: SequenceRule, last_update_id: u64, meta: DiffMeta)
    requires
        last_update_id > 0,
        meta.final_id > last_update_id,
        meta.first_id > last_update_id + 1 || last_update_id + 1 > meta.final_id,
    ensures
        depth_decision_spec(rule, last_update_id, 0, meta) == DepthAction::Resync,
{
}

/// The per-connection trade buffer behind coalesced emission: decoded
/// trades accumulate here and are drained, in arrival order, into the
/// next depth event, so a consumer never has to correlate two separate
/// emission timelines for one instrument.
pub struct TradeBuffer {
    pub trades: Vec<crate::Trade>,
}

impl TradeBuffer {
    pub fn new() -> (r: TradeBuffer)
        ensures
            r.trades@.len() == 0,
    {
        TradeBuffer { trades: Vec::new() }
    }

    /// Append one decoded trade, keeping arrival order.
    pub fn push(&mut self, trade: crate::Trade)
        ensures
            final(self).trades@ == old(self).trades@.push(trade),
    {
        self.trades.push(trade);
    }

    /// Hand out everything buffered, in order, leaving the buffer
    /// empty for the next cycle.
    pub fn drain(&mut self) -> (r: Vec<crate::Trade>)
        ensures
            r@ == old(self).trades@,
            final(self).trades@.len() == 0,
    {
        let mut out: Vec<crate::Trade> = Vec::new();
        core::mem::swap(&mut out, &mut self.trades);
        out
    }
}

/// The two states of one logical stream's connection.
#[derive(Debug, Clone, Copy, PartialEq, Eq, Structural)]
pub enum ConnStatus {
    Disconnected,
    Connected,
}

/// What the transport reported to the state machine.
#[derive(Debug, Clone, Copy, PartialEq, Eq, Structural)]
pub enum ConnEvent {
    /// The handshake succeeded and, for depth streams, the initial
    /// snapshot was fetched.
    HandshakeSucceeded,
    /// The handshake or the initial snapshot fetch failed.
    HandshakeFailed,
    /// The transport failed while connected.
    TransportError,
    /// The venue closed the stream.
    CloseFrame,
    /// The diff chain broke beyond recovery on this transport.
    ProtocolDesync,
}

/// What the embedding program must do after one step: emit the
/// corresponding event, and sleep `wait_ms` before the next attempt.
#[derive(Debug, Clone, Copy, PartialEq, Eq, Structural)]
pub struct StepOutcome {
    pub emit_connected: bool,
    pub emit_disconnected: bool,
    pub wait_ms: u64,
}

/// The reconnection state machine for one stream: `Disconnected` and
/// `Connected`, with a fixed (not exponential) backoff between failed
/// handshakes and no terminal state — reconnection is attempted
/// forever.
#[derive(Debug, Clone, Copy, PartialEq, Eq, Structural)]
pub struct Connection {
    pub status: ConnStatus,
    /// The fixed delay between consecutive handshake attempts.
    pub backoff_ms: u64,
    /// No handshake may be attempted before this instant.
    pub earliest_retry_ms: u64,
}

impl Connection {
    pub fn new(backoff_ms: u64) -> (r: Connection)
        ensures
            r.status == ConnStatus::Disconnected,
            r.backoff_ms == backoff_ms,
            r.earliest_retry_ms == 0,
    {
        Connection { status: ConnStatus::Disconnected, backoff_ms, earliest_retry_ms: 0 }
    }

    /// The state and effects after one event at `now_ms`.
    pub open spec fn step_spec(self, event: ConnEvent, now_ms: u64) -> (Connection, StepOutcome) {
        match (self.status, event) {
            (ConnStatus::Disconnected, ConnEvent::HandshakeSucceeded) => (
                Connection { status: ConnStatus::Connected, ..self },
                StepOutcome { emit_connected: true, emit_disconnected: false, wait_ms: 0 },
            ),
            (ConnStatus::Disconnected, _) => (
                Connection {
                    earliest_retry_ms: (now_ms + self.backoff_ms) as u64,
                    ..self
                },
                StepOutcome {
                    emit_connected: false,
                    emit_disconnected: true,
                    wait_ms: self.backoff_ms,
                },
            ),
            (ConnStatus::Connected, ConnEvent::HandshakeSucceeded) => (
                self,
                StepOutcome { emit_connected: false, emit_disconnected: false, wait_ms: 0 },
            ),
            (ConnStatus::Connected, _) => (
                Connection {
                    status: ConnStatus::Disconnected,
                    earliest_retry_ms: now_ms,
                    ..self
                },
                StepOutcome { emit_connected: false, emit_disconnected: true, wait_ms: 0 },
            ),
        }
    }

    /// Drive the machine by one event. A handshake outcome may only
    /// arrive once the backoff has elapsed; a failed handshake starts
    /// a new full backoff.
    pub fn step(&mut self, event: ConnEvent, now_ms: u64) -> (r: StepOutcome)
        requires
            old(self).status == ConnStatus::Disconnected ==> now_ms >= old(
                self,
            ).earliest_retry_ms,
            now_ms + old(self).backoff_ms <= u64::MAX,
        ensures
            (*final(self), r) == old(self).step_spec(event, now_ms),
    {
        match self.status {
            ConnStatus::Disconnected => {
                match event {
                    ConnEvent::HandshakeSucceeded => {
                        self.status = ConnStatus::Connected;
                        StepOutcome {
                            emit_connected: true,
                            emit_disconnected: false,
                            wait_ms: 0,
                        }
                    },
                    _ => {
                        self.earliest_retry_ms = now_ms + self.backoff_ms;
                        StepOutcome {
                            emit_connected: false,
                            emit_disconnected: true,
                            wait_ms: self.backoff_ms,
                        }
                    },
                }
            },
            ConnStatus::Connected => {
                match event {
                    ConnEvent::HandshakeSucceeded => StepOutcome {
                        emit_connected: false,
                        emit_disconnected: false,
                        wait_ms: 0,
                    },
                    _ => {
                        self.status = ConnStatus::Disconnected;
                        self.earliest_retry_ms = now_ms;
                        StepOutcome {
                            emit_connected: false,
                            emit_disconnected: true,
                            wait_ms: 0,
                        }
                    },
                }
            },
        }
    }
}

/// Two consecutive failed handshakes never spin: when a failed
/// handshake at `t1` is followed by another handshake attempt at `t2`
/// (which the machine only admits once the backoff has elapsed), at least
/// one full backoff lies between the two `Disconnected` emissions.
pub proof fn lemma_backoff_spacing(c: Connection, t1: u64, t2: u64)
    requires
        c.status == ConnStatus::Disconnected,
        t1 >= c.earliest_retry_ms,
        t1 + c.backoff_ms <= u64::MAX,
        t2 >= c.step_spec(ConnEvent::HandshakeFailed, t1).0.earliest_retry_ms,
    ensures
        t2 - t1 >= c.backoff_ms,
        c.step_spec(ConnEvent::HandshakeFailed, t1).1.emit_disconnected,
        c.step_spec(ConnEvent::HandshakeFailed, t1).0.status == ConnStatus::Disconnected,
{
}

} // verus!
