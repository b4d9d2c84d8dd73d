//! Heartbeat bookkeeping: when the last heartbeat was sent, whether it was
//! acknowledged, and when the connection must be declared dead.

use vstd::prelude::*;

verus! {

/// The state of the heartbeat exchange on one connection.
///
/// At most one heartbeat is in flight (sent but unacknowledged) at any time.
/// If no acknowledgement arrives within two intervals of the last send, the
/// connection is considered dead.
#[derive(Clone, Copy, Debug)]
pub struct HeartbeatState {
    /// The server-dictated interval between heartbeats, in milliseconds.
    pub interval_ms: u32,
    /// When the last heartbeat was sent, in milliseconds of monotonic time.
    pub last_sent_at: u64,
    /// Whether the last heartbeat sent has been acknowledged.
    pub ack_received: bool,
    /// The delay between the last send and its acknowledgement, if one came.
    pub latency_ms: Option<u64>,
}

impl HeartbeatState {
    /// Fresh heartbeat state for a connection whose handshake announced
    /// `interval_ms`, as of time `now_ms`. No heartbeat is in flight yet, so
    /// the first send falls due one interval later.
    pub fn start(interval_ms: u32, now_ms: u64) -> (h: HeartbeatState)
        ensures
            h == (HeartbeatState {
                interval_ms,
                last_sent_at: now_ms,
                ack_received: true,
                latency_ms: None,
            }),
    {
        HeartbeatState { interval_ms, last_sent_at: now_ms, ack_received: true, latency_ms: None }
    }

    /// The connection is dead at `now_ms`: the last heartbeat is still
    /// unacknowledged and two full intervals have passed since it was sent.
    pub open spec fn dead_spec(self, now_ms: u64) -> bool {
        !self.ack_received && now_ms >= self.last_sent_at + 2 * self.interval_ms
    }

    /// Whether the connection must be considered dead at `now_ms`.
    pub fn is_dead(&self, now_ms: u64) -> (r: bool)
        ensures
            r == self.dead_spec(now_ms),
    {
        !self.ack_received
            && now_ms >= self.last_sent_at
            && now_ms - self.last_sent_at >= 2 * (self.interval_ms as u64)
    }

    /// A heartbeat send is due at `now_ms`: the last one was acknowledged and
    /// a full interval has passed since it was sent. While one is in flight,
    /// none is due — at most one heartbeat is outstanding at a time.
    pub open spec fn due_spec(self, now_ms: u64) -> bool {
        self.ack_received && now_ms >= self.last_sent_at + self.interval_ms
    }

    /// Whether the next heartbeat send is due at `now_ms`.
    pub fn is_due(&self, now_ms: u64) -> (r: bool)
        ensures
            r == self.due_spec(now_ms),
    {
        self.ack_received
            && now_ms >= self.last_sent_at
            && now_ms - self.last_sent_at >= self.interval_ms as u64
    }

    /// The state after a heartbeat is sent at `now_ms`.
    pub open spec fn record_send_spec(self, now_ms: u64) -> HeartbeatState {
        HeartbeatState { last_sent_at: now_ms, ack_received: false, ..self }
    }

    /// Record that a heartbeat was sent at `now_ms`: it is now the one
    /// heartbeat in flight.
    pub fn record_send(&mut self, now_ms: u64)
        ensures
            *final(self) == old(self).record_send_spec(now_ms),
    {
        self.last_sent_at = now_ms;
        self.ack_received = false;
    }

    /// The state after the in-flight heartbeat is acknowledged at `now_ms`.
    /// The recorded latency is the time since the send, or zero if the clock
    /// reads earlier than the send.
    pub open spec fn record_ack_spec(self, now_ms: u64) -> HeartbeatState {
        HeartbeatState {
            ack_received: true,
            latency_ms: Some(
                if now_ms >= self.last_sent_at {
                    (now_ms - self.last_sent_at) as u64
                } else {
                    0u64
                },
            ),
            ..self
        }
    }

    /// Record that the in-flight heartbeat was acknowledged at `now_ms`.
    pub fn record_ack(&mut self, now_ms: u64)
        ensures
            *final(self) == old(self).record_ack_spec(now_ms),
    {
        let latency: u64 = if now_ms >= self.last_sent_at {
            now_ms - self.last_sent_at
        } else {
            0
        };
        self.ack_received = true;
        self.latency_ms = Some(latency);
    }
}

} // verus!
