//! Heartbeat bookkeeping shared by the heartbeat task and the gateway loop.

use rand::Rng;
use vstd::prelude::*;
use crate::payload::{Payload, PayloadView, seq_or_null, wire_seq};

verus! {

/// Heartbeat state shared between the heartbeat task and the gateway loop.
pub struct HeartbeatState {
    /// The last sequence number received (or -1 for none).
    pub last_seq: i64,
    /// Whether the last heartbeat was acknowledged by the server.
    pub acked: bool,
}

/// What the heartbeat task does when its timer fires.
pub enum HeartbeatTick {
    /// The previous heartbeat was never acknowledged: reconnect.
    Missed,
    /// Send this heartbeat.
    Beat(Payload),
}

/// The state after one tick of the heartbeat timer, and whether a heartbeat
/// went out (otherwise the tick found no acknowledgement and asks to reconnect).
pub open spec fn spec_tick(s: HeartbeatState) -> (HeartbeatState, bool) {
    (HeartbeatState { last_seq: s.last_seq, acked: false }, s.acked)
}

/// The state after the server acknowledged a heartbeat.
pub open spec fn spec_ack(s: HeartbeatState) -> HeartbeatState {
    HeartbeatState { last_seq: s.last_seq, acked: true }
}

/// The heartbeat payload for a state: OP 1 carrying the last sequence number.
pub open spec fn spec_heartbeat(s: HeartbeatState) -> PayloadView {
    PayloadView::Heartbeat { seq: seq_or_null(s.last_seq) }
}

impl HeartbeatState {
    /// A fresh state: no sequence number yet, and nothing outstanding.
    pub fn new() -> (s: Self)
        ensures
            s.last_seq == -1,
            s.acked,
    {
        HeartbeatState { last_seq: -1, acked: true }
    }

    /// Builds the OP 1 heartbeat payload from the current sequence number.
    pub fn heartbeat_payload(&self) -> (p: Payload)
        ensures
            p@ == spec_heartbeat(*self),
    {
        Payload::Heartbeat { seq: wire_seq(self.last_seq) }
    }

    /// Records the sequence number of a received event.
    pub fn record_sequence(&mut self, seq: i64)
        ensures
            final(self).last_seq == seq,
            final(self).acked == old(self).acked,
    {
        self.last_seq = seq;
    }

    /// Records that the server acknowledged a heartbeat.
    pub fn record_ack(&mut self)
        ensures
            *final(self) == spec_ack(*old(self)),
    {
        self.acked = true;
    }

    /// Reads and clears the acknowledgement flag.
    pub fn take_ack(&mut self) -> (was_acked: bool)
        ensures
            was_acked == old(self).acked,
            !final(self).acked,
            final(self).last_seq == old(self).last_seq,
    {
        let was = self.acked;
        self.acked = false;
        was
    }

    /// One tick of the heartbeat timer: without an acknowledgement of the
    /// previous heartbeat it asks for a reconnect, otherwise it sends a new one.
    pub fn tick(&mut self) -> (t: HeartbeatTick)
        ensures
            *final(self) == spec_tick(*old(self)).0,
            final(self).last_seq == old(self).last_seq,
            !final(self).acked,
            t is Missed <==> !old(self).acked,
            t matches HeartbeatTick::Beat(p) ==> p@ == (PayloadView::Heartbeat {
                seq: if old(self).last_seq < 0 {
                    None
                } else {
                    Some(old(self).last_seq)
                },
            }),
            match t {
                HeartbeatTick::Missed => !spec_tick(*old(self)).1,
                HeartbeatTick::Beat(p) => spec_tick(*old(self)).1 && p@ == spec_heartbeat(*old(self)),
            },
    {
        if !self.take_ack() {
            return HeartbeatTick::Missed;
        }
        HeartbeatTick::Beat(self.heartbeat_payload())
    }
}

impl Default for HeartbeatState {
    fn default() -> (s: Self)
        ensures
            s.last_seq == -1,
            s.acked,
    {
        Self::new()
    }
}

/// Lower bound of every heartbeat sleep, in milliseconds.
pub const MIN_HEARTBEAT_SLEEP_MS: u64 = 1000;

/// Largest jitter added to or taken from a heartbeat interval, in milliseconds.
pub const HEARTBEAT_JITTER_MS: i64 = 500;

/// The interval as a signed 64-bit integer, as the two's-complement cast gives it.
pub open spec fn signed_interval(interval_ms: u64) -> int {
    if interval_ms <= i64::MAX {
        interval_ms as int
    } else {
        interval_ms - 0x1_0000_0000_0000_0000
    }
}

/// Whether adding the jitter to the signed interval stays within `i64`.
pub open spec fn jitter_fits(interval_ms: u64, jitter_ms: i64) -> bool {
    i64::MIN <= signed_interval(interval_ms) + jitter_ms <= i64::MAX
}

/// The sleep before the next heartbeat: the interval plus the jitter, but at
/// least one second.
pub open spec fn spec_heartbeat_delay(interval_ms: u64, jitter_ms: i64) -> int {
    let t = signed_interval(interval_ms) + jitter_ms;
    if t < MIN_HEARTBEAT_SLEEP_MS {
        MIN_HEARTBEAT_SLEEP_MS as int
    } else {
        t
    }
}

/// The sleep before the next heartbeat for a given interval and jitter.
pub fn heartbeat_delay_ms(interval_ms: u64, jitter_ms: i64) -> (d: u64)
    requires
        jitter_fits(interval_ms, jitter_ms),
    ensures
        d == spec_heartbeat_delay(interval_ms, jitter_ms),
{
    if interval_ms <= 0x7fff_ffff_ffff_ffff {
        let signed = interval_ms as i64;
        let t = signed + jitter_ms;
        if t < 1000 {
            1000
        } else {
            t as u64
        }
    } else {
        let magnitude = (0xffff_ffff_ffff_ffffu64 - interval_ms) as i64;
        let t = jitter_ms - magnitude - 1;
        if t < 1000 {
            1000
        } else {
            t as u64
        }
    }
}

/// Calls `rand::Rng::gen_range(-500..=500)` on the thread-local generator.
/// The contract claims only that the value lies in the range.
#[verifier::external_body]
fn heartbeat_jitter_ms() -> (j: i64)
    ensures
        -HEARTBEAT_JITTER_MS <= j <= HEARTBEAT_JITTER_MS,
{
    rand::thread_rng().gen_range(-500..=500)
}

/// Whether every jitter in range can be added to the interval within `i64`.
pub open spec fn interval_supported(interval_ms: u64) -> bool {
    &&& jitter_fits(interval_ms, -HEARTBEAT_JITTER_MS as i64)
    &&& jitter_fits(interval_ms, HEARTBEAT_JITTER_MS)
}

/// The sleep before the next heartbeat, with a random jitter of up to half a
/// second either way.
pub fn next_heartbeat_delay_ms(interval_ms: u64) -> (d: u64)
    requires
        interval_supported(interval_ms),
    ensures
        exists|j: i64|
            -HEARTBEAT_JITTER_MS <= j <= HEARTBEAT_JITTER_MS && d == spec_heartbeat_delay(
                interval_ms,
                j,
            ),
{
    let jitter = heartbeat_jitter_ms();
    let d = heartbeat_delay_ms(interval_ms, jitter);
    assert(-HEARTBEAT_JITTER_MS <= jitter <= HEARTBEAT_JITTER_MS && d == spec_heartbeat_delay(
        interval_ms,
        jitter,
    ));
    d
}

/// A heartbeat that is never acknowledged is not repeated: the tick after an
/// unacknowledged one asks for a reconnect, whatever the state was.
pub proof fn lemma_unacknowledged_heartbeat_reconnects(s: HeartbeatState)
    ensures
        !spec_tick(spec_tick(s).0).1,
{
}

/// A tick never touches the sequence number: after the acknowledgement the
/// next heartbeat carries the last sequence number received (null before
/// any), whatever ticks came in between.
pub proof fn lemma_tick_keeps_sequence(s: HeartbeatState)
    ensures
        spec_tick(s).0.last_seq == s.last_seq,
        !spec_tick(s).0.acked,
        spec_tick(spec_ack(spec_tick(s).0)).1,
        spec_heartbeat(spec_ack(spec_tick(s).0)) == (PayloadView::Heartbeat {
            seq: if s.last_seq < 0 {
                None
            } else {
                Some(s.last_seq)
            },
        }),
{
}

/// After the server acknowledges, the next tick sends a heartbeat carrying the
/// last sequence number.
pub proof fn lemma_acknowledged_heartbeat_continues(s: HeartbeatState)
    ensures
        spec_tick(spec_ack(s)).1,
        spec_heartbeat(spec_ack(s)) == spec_heartbeat(s),
{
}

/// Every heartbeat sleep lasts at least a second, and never strays more than
/// the jitter from the interval when the interval is itself over a second and
/// a half.
pub proof fn lemma_heartbeat_delay_bounds(interval_ms: u64, jitter_ms: i64)
    requires
        -HEARTBEAT_JITTER_MS <= jitter_ms <= HEARTBEAT_JITTER_MS,
        interval_ms <= i64::MAX,
    ensures
        spec_heartbeat_delay(interval_ms, jitter_ms) >= MIN_HEARTBEAT_SLEEP_MS,
        interval_ms >= MIN_HEARTBEAT_SLEEP_MS + HEARTBEAT_JITTER_MS ==> interval_ms
            - HEARTBEAT_JITTER_MS <= spec_heartbeat_delay(interval_ms, jitter_ms) <= interval_ms
            + HEARTBEAT_JITTER_MS,
{
}

} // verus!
