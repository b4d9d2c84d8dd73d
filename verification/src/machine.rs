//! The per-shard protocol state machine.
//!
//! The engine is pure: it owns the session, heartbeat and backoff state of
//! one shard and maps each event — an inbound frame, a timer tick, a closed
//! transport — to a new state and one action for the surrounding task to
//! carry out. Every transition is specified by `Engine::step_spec`, and the
//! executable `Engine::step` is proved to realize it exactly.

use vstd::prelude::*;

use crate::error::GatewayError;
use crate::heartbeat::HeartbeatState;
use crate::reconnect::ReconnectPolicy;
use crate::session::SessionState;
use crate::stage::ConnectionStage;

verus! {

/// How long to wait before retrying a Resume after the server declared the
/// session invalid but resumable, in milliseconds.
pub const RESUME_RETRY_DELAY_MS: u64 = 500;

/// The default endpoint to connect to when no resume URL and no fetched
/// gateway URL are available.
pub open spec fn default_gateway_url() -> Seq<char> {
    "wss://gateway.discord.gg"@
}

/// An inbound frame, decoded as far as the engine needs it: the opcode, and
/// for the control opcodes the fields of their bodies that drive the state
/// machine. Event payloads themselves stay opaque.
#[derive(Debug)]
pub enum GatewayEvent {
    /// The server's opening frame, announcing the heartbeat interval.
    Hello {
        /// The heartbeat interval, in milliseconds.
        interval_ms: u32,
    },
    /// The session-start acknowledgement of an Identify.
    Ready {
        /// The id of the newly established session.
        session_id: String,
        /// The URL to reconnect to when resuming this session.
        resume_url: String,
    },
    /// The acknowledgement of a Resume.
    Resumed,
    /// An event is being dispatched.
    Dispatch {
        /// The event counter stamped on the frame.
        sequence: u64,
        /// The discriminator for payload decoding.
        event_name: String,
        /// The opcode-specific body, opaque to the engine.
        payload: Vec<u8>,
    },
    /// The server acknowledges the in-flight heartbeat.
    HeartbeatAck,
    /// The server requests an immediate heartbeat.
    HeartbeatRequest,
    /// The server declares the session invalid, possibly resumable.
    InvalidSession {
        /// Whether the session may still be resumed.
        resumable: bool,
    },
    /// The server asks the client to close and reconnect.
    Reconnect,
}

/// One event fed to the engine by the shard's task.
#[derive(Debug)]
pub enum Input {
    /// The transport was opened.
    Opened,
    /// Opening the transport failed.
    ConnectFailed,
    /// An inbound frame arrived.
    Frame(GatewayEvent),
    /// The heartbeat timer ticked.
    Tick,
    /// The transport closed, with the close code if one was received.
    Closed {
        /// The close code carried by the close frame, if any.
        code: Option<u16>,
    },
    /// No opening frame arrived within the handshake deadline.
    HandshakeTimeout,
    /// The global shutdown signal was observed.
    Shutdown,
}

/// The one action the surrounding task must carry out after a step.
#[derive(Debug)]
pub enum Action {
    /// Nothing to do; keep reading.
    Continue,
    /// Open the transport to the URL `connect_url` chooses, then report
    /// `Opened` or `ConnectFailed`.
    OpenTransport,
    /// Send an Identify payload built from the current session.
    SendIdentify,
    /// Send a Resume payload built from the current session, after the
    /// given delay.
    SendResume {
        /// How long to wait before sending, in milliseconds.
        delay_ms: u64,
    },
    /// Send a heartbeat frame echoing the given sequence number.
    SendHeartbeat {
        /// The last-seen sequence number to echo.
        sequence: Option<u64>,
    },
    /// Hand the event to the dispatcher, without waiting for handlers.
    Dispatch {
        /// The event counter stamped on the frame.
        sequence: u64,
        /// The discriminator for payload decoding.
        event_name: String,
        /// The opcode-specific body.
        payload: Vec<u8>,
    },
    /// Close the open transport and reconnect; the session was left marked
    /// as indicated.
    CloseAndReconnect {
        /// Whether the session survived as resumable.
        resumable: bool,
    },
    /// Sleep for the given delay, then open the transport again.
    Backoff {
        /// How long to sleep, in milliseconds.
        delay_ms: u64,
    },
    /// Send a clean close frame and stop; the shard is shutting down.
    CloseClean,
    /// Stop for good and surface the error to the owner.
    Fatal {
        /// The terminal error.
        error: GatewayError,
    },
}

/// Whether a close code leaves the session resumable. Codes that indicate a
/// non-resumable termination — a clean close, revoked or rejected
/// authentication, rate limiting, invalidated sharding, a bad protocol
/// version or bad intents — do not; every other code, and a close without a
/// code, does.
pub open spec fn close_code_resumable_spec(code: Option<u16>) -> bool {
    match code {
        None => true,
        Some(c) => c != 1000 && c != 1001 && c != 4004 && c != 4008 && c != 4010 && c != 4011
            && c != 4012 && c != 4013 && c != 4014,
    }
}

/// Whether a close code leaves the session resumable.
pub fn close_code_resumable(code: Option<u16>) -> (r: bool)
    ensures
        r == close_code_resumable_spec(code),
{
    match code {
        None => true,
        Some(c) => c != 1000 && c != 1001 && c != 4004 && c != 4008 && c != 4010 && c != 4011
            && c != 4012 && c != 4013 && c != 4014,
    }
}

/// Choose the URL for the next connection attempt: the stored resume URL
/// when the session is resumable and has one, else a freshly fetched
/// gateway URL when the caller obtained one, else the well-known default
/// endpoint.
pub fn connect_url(session: &SessionState, fetched: Option<String>) -> (r: String)
    ensures
        session.resumable && session.resume_url is Some ==> r == session.resume_url->0,
        !(session.resumable && session.resume_url is Some) && fetched is Some ==> r
            == fetched->0,
        !(session.resumable && session.resume_url is Some) && fetched is None ==> r@
            == default_gateway_url(),
{
    if session.resumable {
        if let Some(u) = &session.resume_url {
            return u.clone();
        }
    }
    match fetched {
        Some(u) => u,
        None => "wss://gateway.discord.gg".to_string(),
    }
}

/// The protocol state machine of one shard.
pub struct Engine {
    /// The stage the connection is in.
    pub stage: ConnectionStage,
    /// The session owned by this shard.
    pub session: SessionState,
    /// The heartbeat bookkeeping, while a heartbeat schedule is running.
    pub heartbeat: Option<HeartbeatState>,
    /// How many consecutive connection attempts have failed.
    pub attempt: u32,
    /// The reconnection backoff policy.
    pub policy: ReconnectPolicy,
}

impl Engine {
    /// Well-formedness: the policy and session are well-formed, and a
    /// heartbeat schedule is running whenever the handshake has completed.
    pub open spec fn wf(self) -> bool {
        &&& self.policy.wf()
        &&& self.session.wf()
        &&& (self.stage == ConnectionStage::Identifying || self.stage == ConnectionStage::Resuming
            || self.stage == ConnectionStage::Connected) ==> self.heartbeat is Some
    }

    /// A fresh engine for one shard, ready for its first connection
    /// attempt.
    pub fn new(shard_id: u16, shard_count: u16, policy: ReconnectPolicy) -> (e: Engine)
        requires
            shard_id < shard_count,
            policy.wf(),
        ensures
            e.wf(),
            e.stage == ConnectionStage::Connecting,
            e.session == (SessionState {
                session_id: None,
                sequence: None,
                resume_url: None,
                resumable: false,
                shard_id,
                shard_count,
            }),
            e.heartbeat is None,
            e.attempt == 0,
            e.policy == policy,
    {
        Engine {
            stage: ConnectionStage::Connecting,
            session: SessionState::new(shard_id, shard_count),
            heartbeat: None,
            attempt: 0,
            policy,
        }
    }

    /// The attempt counter after one more failure, saturating.
    pub open spec fn bumped_attempt_spec(self) -> u32 {
        if self.attempt < 0xFFFF_FFFFu32 {
            (self.attempt + 1) as u32
        } else {
            self.attempt
        }
    }

    /// The step taken when a connection attempt fails, or when the
    /// handshake goes wrong: count the failure, then either give up with a
    /// terminal error — the retry ceiling was passed — or back off and try
    /// again. The first failure sleeps the base delay, and each further
    /// consecutive failure doubles it, up to the ceiling.
    pub open spec fn connect_failure_spec(self, roll: u32) -> (Engine, Action) {
        let attempt = self.bumped_attempt_spec();
        if self.policy.should_give_up_spec(attempt) {
            (
                Engine { stage: ConnectionStage::Disconnected, heartbeat: None, attempt, ..self },
                Action::Fatal { error: GatewayError::ReconnectFailure },
            )
        } else {
            (
                Engine { stage: ConnectionStage::Connecting, heartbeat: None, attempt, ..self },
                Action::Backoff {
                    delay_ms: self.policy.next_delay_spec(self.attempt, roll) as u64,
                },
            )
        }
    }

    /// The step taken when an open transport must be abandoned and the
    /// connection rebuilt: mark the session's resumability, drop the
    /// heartbeat schedule and reconnect.
    pub open spec fn abandon_spec(self, resumable: bool) -> (Engine, Action) {
        let session = if resumable {
            SessionState { resumable: true, ..self.session }
        } else {
            self.session.invalidate_spec()
        };
        (
            Engine { stage: ConnectionStage::Connecting, session, heartbeat: None, ..self },
            Action::CloseAndReconnect { resumable },
        )
    }

    /// The moment the heartbeat schedule is anchored at when it starts: up
    /// to one interval before `now_ms`, drawn from `roll`, so that many
    /// shards started together do not heartbeat in lockstep. Only the first
    /// send is pulled forward; the cadence afterwards is the interval.
    pub open spec fn heartbeat_anchor_spec(interval_ms: u32, now_ms: u64, roll: u32) -> u64 {
        let jitter = if interval_ms == 0 {
            0int
        } else {
            (roll % interval_ms) as int
        };
        if now_ms >= jitter {
            (now_ms - jitter) as u64
        } else {
            0u64
        }
    }

    /// The step taken on a frame while in the handshake stage: the one
    /// acceptable frame is a Hello carrying the heartbeat interval, which
    /// starts the heartbeat schedule — its first send jittered under one
    /// interval — and moves on to Resuming, when the session is resumable
    /// and has an id, or to Identifying. Anything else means the expected
    /// Hello did not come, a connection failure.
    pub open spec fn on_frame_handshake_spec(self, f: GatewayEvent, now_ms: u64, roll: u32) -> (
        Engine,
        Action,
    ) {
        match f {
            GatewayEvent::Hello { interval_ms } => {
                let hb = HeartbeatState {
                    interval_ms,
                    last_sent_at: Engine::heartbeat_anchor_spec(interval_ms, now_ms, roll),
                    ack_received: true,
                    latency_ms: None,
                };
                if self.session.can_resume_spec() {
                    (
                        Engine { stage: ConnectionStage::Resuming, heartbeat: Some(hb), ..self },
                        Action::SendResume { delay_ms: 0 },
                    )
                } else {
                    (
                        Engine { stage: ConnectionStage::Identifying, heartbeat: Some(hb), ..self },
                        Action::SendIdentify,
                    )
                }
            },
            _ => self.connect_failure_spec(roll),
        }
    }

    /// The step taken on a Dispatch frame once the handshake is past: the
    /// sequence number is recorded — it never decreases — and the event is
    /// handed to the dispatcher. While connected, processing a dispatched
    /// event also resets the failure counter.
    pub open spec fn on_dispatch_spec(
        self,
        sequence: u64,
        event_name: String,
        payload: Vec<u8>,
    ) -> (Engine, Action) {
        let session = if self.session.advances(sequence) {
            SessionState { sequence: Some(sequence), ..self.session }
        } else {
            self.session
        };
        let attempt = if self.stage == ConnectionStage::Connected {
            0u32
        } else {
            self.attempt
        };
        (
            Engine { session, attempt, ..self },
            Action::Dispatch { sequence, event_name, payload },
        )
    }

    /// The step taken on an InvalidSession frame: when the server says the
    /// session is resumable and one is on hand, retry the Resume after a
    /// short delay; otherwise forget the session entirely and identify
    /// afresh on the same connection.
    pub open spec fn on_invalid_session_spec(self, resumable: bool) -> (Engine, Action) {
        if resumable && self.session.can_resume_spec() {
            (
                Engine { stage: ConnectionStage::Resuming, ..self },
                Action::SendResume { delay_ms: RESUME_RETRY_DELAY_MS },
            )
        } else {
            (
                Engine {
                    stage: ConnectionStage::Identifying,
                    session: self.session.invalidate_spec(),
                    ..self
                },
                Action::SendIdentify,
            )
        }
    }

    /// The step taken on a frame while awaiting the acknowledgement of an
    /// Identify. A Ready records the announced session and connects; an
    /// InvalidSession restarts authentication; heartbeat traffic is served;
    /// any event frame or a stray Resumed is a broken handshake, a
    /// connection failure.
    pub open spec fn on_frame_identifying_spec(self, f: GatewayEvent, now_ms: u64, roll: u32) -> (
        Engine,
        Action,
    ) {
        match f {
            GatewayEvent::Ready { session_id, resume_url } => (
                Engine {
                    stage: ConnectionStage::Connected,
                    session: self.session.record_ready_spec(session_id, resume_url),
                    ..self
                },
                Action::Continue,
            ),
            GatewayEvent::InvalidSession { resumable } => self.on_invalid_session_spec(resumable),
            GatewayEvent::HeartbeatAck => self.on_heartbeat_ack_spec(now_ms),
            GatewayEvent::HeartbeatRequest => self.on_heartbeat_request_spec(now_ms),
            GatewayEvent::Reconnect => self.abandon_spec(true),
            GatewayEvent::Hello { .. } => (self, Action::Continue),
            _ => self.connect_failure_spec(roll),
        }
    }

    /// The step taken on a frame while awaiting the acknowledgement of a
    /// Resume. A Resumed connects; an InvalidSession either retries the
    /// Resume or falls back to a fresh Identify; replayed Dispatch frames
    /// are processed as they come; a stray Ready is a broken handshake.
    pub open spec fn on_frame_resuming_spec(self, f: GatewayEvent, now_ms: u64, roll: u32) -> (
        Engine,
        Action,
    ) {
        match f {
            GatewayEvent::Resumed => (
                Engine { stage: ConnectionStage::Connected, ..self },
                Action::Continue,
            ),
            GatewayEvent::Dispatch { sequence, event_name, payload } => self.on_dispatch_spec(
                sequence,
                event_name,
                payload,
            ),
            GatewayEvent::InvalidSession { resumable } => self.on_invalid_session_spec(resumable),
            GatewayEvent::HeartbeatAck => self.on_heartbeat_ack_spec(now_ms),
            GatewayEvent::HeartbeatRequest => self.on_heartbeat_request_spec(now_ms),
            GatewayEvent::Reconnect => self.abandon_spec(true),
            GatewayEvent::Hello { .. } => (self, Action::Continue),
            _ => self.connect_failure_spec(roll),
        }
    }

    /// The step taken when the server acknowledges a heartbeat: the
    /// in-flight heartbeat is marked acknowledged and its latency recorded.
    pub open spec fn on_heartbeat_ack_spec(self, now_ms: u64) -> (Engine, Action) {
        match self.heartbeat {
            Some(hb) => (
                Engine { heartbeat: Some(hb.record_ack_spec(now_ms)), ..self },
                Action::Continue,
            ),
            None => (self, Action::Continue),
        }
    }

    /// The step taken when the server requests an immediate heartbeat: one
    /// is sent at once and becomes the in-flight heartbeat.
    pub open spec fn on_heartbeat_request_spec(self, now_ms: u64) -> (Engine, Action) {
        match self.heartbeat {
            Some(hb) => (
                Engine { heartbeat: Some(hb.record_send_spec(now_ms)), ..self },
                Action::SendHeartbeat { sequence: self.session.sequence },
            ),
            None => (self, Action::Continue),
        }
    }

    /// The step taken on a frame while connected. Dispatch frames feed the
    /// dispatcher; heartbeat traffic is served; a Reconnect keeps the
    /// session resumable and rebuilds the connection; an InvalidSession
    /// rebuilds it with the resumability the server granted; a fresh Hello
    /// restarts the heartbeat schedule; stray acknowledgements are ignored.
    pub open spec fn on_frame_connected_spec(self, f: GatewayEvent, now_ms: u64) -> (
        Engine,
        Action,
    ) {
        match f {
            GatewayEvent::Dispatch { sequence, event_name, payload } => self.on_dispatch_spec(
                sequence,
                event_name,
                payload,
            ),
            GatewayEvent::HeartbeatAck => self.on_heartbeat_ack_spec(now_ms),
            GatewayEvent::HeartbeatRequest => self.on_heartbeat_request_spec(now_ms),
            GatewayEvent::Reconnect => self.abandon_spec(true),
            GatewayEvent::InvalidSession { resumable } => self.abandon_spec(resumable),
            GatewayEvent::Hello { interval_ms } => (
                Engine {
                    heartbeat: Some(
                        HeartbeatState {
                            interval_ms,
                            last_sent_at: now_ms,
                            ack_received: true,
                            latency_ms: None,
                        },
                    ),
                    ..self
                },
                Action::Continue,
            ),
            _ => (self, Action::Continue),
        }
    }

    /// The step taken on a timer tick while a heartbeat schedule runs. A
    /// dead connection — no acknowledgement within two intervals of the
    /// last send — is abandoned at once with the session kept resumable;
    /// the engine does not wait for the remote side to notice. Otherwise a
    /// due heartbeat is sent, and an idle tick does nothing.
    pub open spec fn on_tick_spec(self, now_ms: u64) -> (Engine, Action) {
        if self.stage == ConnectionStage::Identifying || self.stage == ConnectionStage::Resuming
            || self.stage == ConnectionStage::Connected {
            match self.heartbeat {
                Some(hb) => if hb.dead_spec(now_ms) {
                    self.abandon_spec(true)
                } else if hb.due_spec(now_ms) {
                    (
                        Engine { heartbeat: Some(hb.record_send_spec(now_ms)), ..self },
                        Action::SendHeartbeat { sequence: self.session.sequence },
                    )
                } else {
                    (self, Action::Continue)
                },
                None => (self, Action::Continue),
            }
        } else {
            (self, Action::Continue)
        }
    }

    /// The step taken when the transport closes. A close code carrying
    /// rejected authentication is fatal and not retried. Any other closure
    /// marks the session resumable or not according to the close code and
    /// reconnects at once.
    pub open spec fn on_closed_spec(self, code: Option<u16>) -> (Engine, Action) {
        if self.stage == ConnectionStage::Disconnected {
            (self, Action::Continue)
        } else if code == Some(4004u16) {
            (
                Engine {
                    stage: ConnectionStage::Disconnected,
                    session: self.session.invalidate_spec(),
                    heartbeat: None,
                    ..self
                },
                Action::Fatal { error: GatewayError::InvalidAuthentication },
            )
        } else {
            let resumable = close_code_resumable_spec(code);
            let session = if resumable {
                SessionState { resumable: true, ..self.session }
            } else {
                self.session.invalidate_spec()
            };
            (
                Engine { stage: ConnectionStage::Connecting, session, heartbeat: None, ..self },
                Action::OpenTransport,
            )
        }
    }

    /// The step taken on the global shutdown signal: the shard stops for
    /// good, sending a clean close frame first when a transport is open,
    /// and never reconnects.
    pub open spec fn on_shutdown_spec(self) -> (Engine, Action) {
        let open_transport = self.stage == ConnectionStage::Handshake || self.stage
            == ConnectionStage::Identifying || self.stage == ConnectionStage::Resuming
            || self.stage == ConnectionStage::Connected;
        (
            Engine { stage: ConnectionStage::Disconnected, heartbeat: None, ..self },
            if open_transport {
                Action::CloseClean
            } else {
                Action::Continue
            },
        )
    }

    /// The transition relation of the engine: the state after one event and
    /// the action the shard's task must carry out.
    pub open spec fn step_spec(self, input: Input, now_ms: u64, roll: u32) -> (Engine, Action) {
        match input {
            Input::Opened => if self.stage == ConnectionStage::Connecting {
                (Engine { stage: ConnectionStage::Handshake, ..self }, Action::Continue)
            } else {
                (self, Action::Continue)
            },
            Input::ConnectFailed => if self.stage == ConnectionStage::Connecting {
                self.connect_failure_spec(roll)
            } else {
                (self, Action::Continue)
            },
            Input::Frame(f) => match self.stage {
                ConnectionStage::Handshake => self.on_frame_handshake_spec(f, now_ms, roll),
                ConnectionStage::Identifying => self.on_frame_identifying_spec(f, now_ms, roll),
                ConnectionStage::Resuming => self.on_frame_resuming_spec(f, now_ms, roll),
                ConnectionStage::Connected => self.on_frame_connected_spec(f, now_ms),
                _ => (self, Action::Continue),
            },
            Input::Tick => self.on_tick_spec(now_ms),
            Input::Closed { code } => self.on_closed_spec(code),
            Input::HandshakeTimeout => if self.stage == ConnectionStage::Handshake {
                self.connect_failure_spec(roll)
            } else {
                (self, Action::Continue)
            },
            Input::Shutdown => self.on_shutdown_spec(),
        }
    }

    /// Feed one event to the engine.
    ///
    /// `now_ms` is the current monotonic time; `roll` is a random draw for
    /// the backoff jitter, clamped to the jitter band, so any value may be
    /// passed. The new state and the returned action are exactly those of
    /// the transition relation `step_spec`.
    pub fn step(&mut self, input: Input, now_ms: u64, roll: u32) -> (act: Action)
        requires
            old(self).wf(),
        ensures
            final(self).wf(),
            (*final(self), act) == old(self).step_spec(input, now_ms, roll),
    {
        match input {
            Input::Opened => {
                if matches!(self.stage, ConnectionStage::Connecting) {
                    self.stage = ConnectionStage::Handshake;
                }
                Action::Continue
            },
            Input::ConnectFailed => {
                if matches!(self.stage, ConnectionStage::Connecting) {
                    self.connect_failure(roll)
                } else {
                    Action::Continue
                }
            },
            Input::Frame(f) => match self.stage {
                ConnectionStage::Handshake => self.on_frame_handshake(f, now_ms, roll),
                ConnectionStage::Identifying => self.on_frame_identifying(f, now_ms, roll),
                ConnectionStage::Resuming => self.on_frame_resuming(f, now_ms, roll),
                ConnectionStage::Connected => self.on_frame_connected(f, now_ms),
                _ => Action::Continue,
            },
            Input::Tick => self.on_tick(now_ms),
            Input::Closed { code } => self.on_closed(code),
            Input::HandshakeTimeout => {
                if matches!(self.stage, ConnectionStage::Handshake) {
                    self.connect_failure(roll)
                } else {
                    Action::Continue
                }
            },
            Input::Shutdown => {
                let open_transport = matches!(
                    self.stage,
                    ConnectionStage::Handshake
                        | ConnectionStage::Identifying
                        | ConnectionStage::Resuming
                        | ConnectionStage::Connected
                );
                self.stage = ConnectionStage::Disconnected;
                self.heartbeat = None;
                if open_transport {
                    Action::CloseClean
                } else {
                    Action::Continue
                }
            },
        }
    }

    /// Count a failed connection attempt and either give up or back off.
    fn connect_failure(&mut self, roll: u32) -> (act: Action)
        requires
            old(self).wf(),
        ensures
            final(self).wf(),
            (*final(self), act) == old(self).connect_failure_spec(roll),
    {
        let before = self.attempt;
        if self.attempt < 0xFFFF_FFFF {
            self.attempt = self.attempt + 1;
        }
        self.heartbeat = None;
        if self.policy.should_give_up(self.attempt) {
            self.stage = ConnectionStage::Disconnected;
            Action::Fatal { error: GatewayError::ReconnectFailure }
        } else {
            self.stage = ConnectionStage::Connecting;
            let delay_ms = self.policy.next_delay(before, roll);
            Action::Backoff { delay_ms }
        }
    }

    /// Abandon the open transport: mark the session, drop the heartbeat
    /// schedule, and have the task close and reconnect.
    fn abandon(&mut self, resumable: bool) -> (act: Action)
        requires
            old(self).wf(),
        ensures
            final(self).wf(),
            (*final(self), act) == old(self).abandon_spec(resumable),
    {
        if resumable {
            self.session.mark_resumable();
        } else {
            self.session.invalidate();
        }
        self.stage = ConnectionStage::Connecting;
        self.heartbeat = None;
        Action::CloseAndReconnect { resumable }
    }

    /// Handle a frame during the handshake.
    fn on_frame_handshake(&mut self, f: GatewayEvent, now_ms: u64, roll: u32) -> (act: Action)
        requires
            old(self).wf(),
            old(self).stage == ConnectionStage::Handshake,
        ensures
            final(self).wf(),
            (*final(self), act) == old(self).on_frame_handshake_spec(f, now_ms, roll),
    {
        match f {
            GatewayEvent::Hello { interval_ms } => {
                let jitter: u64 = if interval_ms == 0 {
                    0
                } else {
                    (roll % interval_ms) as u64
                };
                let anchor: u64 = if now_ms >= jitter {
                    now_ms - jitter
                } else {
                    0
                };
                self.heartbeat = Some(HeartbeatState::start(interval_ms, anchor));
                if self.session.can_resume() {
                    self.stage = ConnectionStage::Resuming;
                    Action::SendResume { delay_ms: 0 }
                } else {
                    self.stage = ConnectionStage::Identifying;
                    Action::SendIdentify
                }
            },
            _ => self.connect_failure(roll),
        }
    }

    /// Record a Dispatch frame and hand it to the dispatcher.
    fn on_dispatch(&mut self, sequence: u64, event_name: String, payload: Vec<u8>) -> (act: Action)
        requires
            old(self).wf(),
        ensures
            final(self).wf(),
            (*final(self), act) == old(self).on_dispatch_spec(sequence, event_name, payload),
    {
        self.session.observe_dispatch(sequence);
        if matches!(self.stage, ConnectionStage::Connected) {
            self.attempt = 0;
        }
        Action::Dispatch { sequence, event_name, payload }
    }

    /// Handle an InvalidSession frame while authenticating.
    fn on_invalid_session(&mut self, resumable: bool) -> (act: Action)
        requires
            old(self).wf(),
            old(self).heartbeat is Some,
        ensures
            final(self).wf(),
            (*final(self), act) == old(self).on_invalid_session_spec(resumable),
    {
        if resumable && self.session.can_resume() {
            self.stage = ConnectionStage::Resuming;
            Action::SendResume { delay_ms: RESUME_RETRY_DELAY_MS }
        } else {
            self.session.invalidate();
            self.stage = ConnectionStage::Identifying;
            Action::SendIdentify
        }
    }

    /// Record a heartbeat acknowledgement.
    fn on_heartbeat_ack(&mut self, now_ms: u64) -> (act: Action)
        requires
            old(self).wf(),
        ensures
            final(self).wf(),
            (*final(self), act) == old(self).on_heartbeat_ack_spec(now_ms),
    {
        if let Some(hb) = &mut self.heartbeat {
            hb.record_ack(now_ms);
        }
        Action::Continue
    }

    /// Serve a server-requested immediate heartbeat.
    fn on_heartbeat_request(&mut self, now_ms: u64) -> (act: Action)
        requires
            old(self).wf(),
        ensures
            final(self).wf(),
            (*final(self), act) == old(self).on_heartbeat_request_spec(now_ms),
    {
        match &mut self.heartbeat {
            Some(hb) => {
                hb.record_send(now_ms);
                Action::SendHeartbeat { sequence: self.session.sequence }
            },
            None => Action::Continue,
        }
    }

    /// Handle a frame while awaiting the acknowledgement of an Identify.
    fn on_frame_identifying(&mut self, f: GatewayEvent, now_ms: u64, roll: u32) -> (act: Action)
        requires
            old(self).wf(),
            old(self).stage == ConnectionStage::Identifying,
        ensures
            final(self).wf(),
            (*final(self), act) == old(self).on_frame_identifying_spec(f, now_ms, roll),
    {
        match f {
            GatewayEvent::Ready { session_id, resume_url } => {
                self.session.record_ready(session_id, resume_url);
                self.stage = ConnectionStage::Connected;
                Action::Continue
            },
            GatewayEvent::InvalidSession { resumable } => self.on_invalid_session(resumable),
            GatewayEvent::HeartbeatAck => self.on_heartbeat_ack(now_ms),
            GatewayEvent::HeartbeatRequest => self.on_heartbeat_request(now_ms),
            GatewayEvent::Reconnect => self.abandon(true),
            GatewayEvent::Hello { .. } => Action::Continue,
            _ => self.connect_failure(roll),
        }
    }

    /// Handle a frame while awaiting the acknowledgement of a Resume.
    fn on_frame_resuming(&mut self, f: GatewayEvent, now_ms: u64, roll: u32) -> (act: Action)
        requires
            old(self).wf(),
            old(self).stage == ConnectionStage::Resuming,
        ensures
            final(self).wf(),
            (*final(self), act) == old(self).on_frame_resuming_spec(f, now_ms, roll),
    {
        match f {
            GatewayEvent::Resumed => {
                self.stage = ConnectionStage::Connected;
                Action::Continue
            },
            GatewayEvent::Dispatch { sequence, event_name, payload } => self.on_dispatch(
                sequence,
                event_name,
                payload,
            ),
            GatewayEvent::InvalidSession { resumable } => self.on_invalid_session(resumable),
            GatewayEvent::HeartbeatAck => self.on_heartbeat_ack(now_ms),
            GatewayEvent::HeartbeatRequest => self.on_heartbeat_request(now_ms),
            GatewayEvent::Reconnect => self.abandon(true),
            GatewayEvent::Hello { .. } => Action::Continue,
            _ => self.connect_failure(roll),
        }
    }

    /// Handle a frame while connected.
    fn on_frame_connected(&mut self, f: GatewayEvent, now_ms: u64) -> (act: Action)
        requires
            old(self).wf(),
            old(self).stage == ConnectionStage::Connected,
        ensures
            final(self).wf(),
            (*final(self), act) == old(self).on_frame_connected_spec(f, now_ms),
    {
        match f {
            GatewayEvent::Dispatch { sequence, event_name, payload } => self.on_dispatch(
                sequence,
                event_name,
                payload,
            ),
            GatewayEvent::HeartbeatAck => self.on_heartbeat_ack(now_ms),
            GatewayEvent::HeartbeatRequest => self.on_heartbeat_request(now_ms),
            GatewayEvent::Reconnect => self.abandon(true),
            GatewayEvent::InvalidSession { resumable } => self.abandon(resumable),
            GatewayEvent::Hello { interval_ms } => {
                self.heartbeat = Some(HeartbeatState::start(interval_ms, now_ms));
                Action::Continue
            },
            _ => Action::Continue,
        }
    }

    /// Handle a timer tick.
    fn on_tick(&mut self, now_ms: u64) -> (act: Action)
        requires
            old(self).wf(),
        ensures
            final(self).wf(),
            (*final(self), act) == old(self).on_tick_spec(now_ms),
    {
        let running = matches!(
            self.stage,
            ConnectionStage::Identifying | ConnectionStage::Resuming | ConnectionStage::Connected
        );
        if !running {
            return Action::Continue;
        }
        match &mut self.heartbeat {
            Some(hb) => {
                if hb.is_dead(now_ms) {
                    self.abandon(true)
                } else if hb.is_due(now_ms) {
                    hb.record_send(now_ms);
                    Action::SendHeartbeat { sequence: self.session.sequence }
                } else {
                    Action::Continue
                }
            },
            None => Action::Continue,
        }
    }

    /// Handle a closed transport.
    fn on_closed(&mut self, code: Option<u16>) -> (act: Action)
        requires
            old(self).wf(),
        ensures
            final(self).wf(),
            (*final(self), act) == old(self).on_closed_spec(code),
    {
        if matches!(self.stage, ConnectionStage::Disconnected) {
            return Action::Continue;
        }
        if code == Some(4004) {
            self.session.invalidate();
            self.stage = ConnectionStage::Disconnected;
            self.heartbeat = None;
            return Action::Fatal { error: GatewayError::InvalidAuthentication };
        }
        let resumable = close_code_resumable(code);
        if resumable {
            self.session.mark_resumable();
        } else {
            self.session.invalidate();
        }
        self.stage = ConnectionStage::Connecting;
        self.heartbeat = None;
        Action::OpenTransport
    }
}

} // verus!
