//! The wire envelope wrapping every message on the gateway socket, and the
//! opcodes that drive the protocol.

use vstd::prelude::*;

verus! {

/// An opcode of the gateway wire protocol.
#[derive(Clone, Copy, Debug, PartialEq, Eq, Hash, Structural)]
pub enum Opcode {
    /// An event is being dispatched; carries a sequence number and an event
    /// name.
    Dispatch,
    /// A keep-alive frame, in either direction.
    Heartbeat,
    /// Client authentication establishing a new session.
    Identify,
    /// The client updates its presence.
    PresenceUpdate,
    /// The client updates its voice state.
    VoiceStateUpdate,
    /// The client re-attaches to a previous session.
    Resume,
    /// The server asks the client to reconnect.
    Reconnect,
    /// The client requests guild member chunks.
    RequestGuildMembers,
    /// The server declares the session invalid; carries a resumability flag.
    InvalidSession,
    /// The server's opening frame; carries the heartbeat interval.
    Hello,
    /// The server acknowledges a heartbeat.
    HeartbeatAck,
}

impl Opcode {
    /// The wire value of the opcode.
    pub open spec fn to_u8_spec(self) -> u8 {
        match self {
            Opcode::Dispatch => 0,
            Opcode::Heartbeat => 1,
            Opcode::Identify => 2,
            Opcode::PresenceUpdate => 3,
            Opcode::VoiceStateUpdate => 4,
            Opcode::Resume => 6,
            Opcode::Reconnect => 7,
            Opcode::RequestGuildMembers => 8,
            Opcode::InvalidSession => 9,
            Opcode::Hello => 10,
            Opcode::HeartbeatAck => 11,
        }
    }

    /// The wire value of the opcode.
    #[must_use]
    pub fn to_u8(self) -> (n: u8)
        ensures
            n == self.to_u8_spec(),
    {
        match self {
            Opcode::Dispatch => 0,
            Opcode::Heartbeat => 1,
            Opcode::Identify => 2,
            Opcode::PresenceUpdate => 3,
            Opcode::VoiceStateUpdate => 4,
            Opcode::Resume => 6,
            Opcode::Reconnect => 7,
            Opcode::RequestGuildMembers => 8,
            Opcode::InvalidSession => 9,
            Opcode::Hello => 10,
            Opcode::HeartbeatAck => 11,
        }
    }

    /// The opcode a wire value denotes, if any. The value `5` is unassigned,
    /// as is everything above `11`.
    pub open spec fn from_u8_spec(n: u8) -> Option<Opcode> {
        if n == 0 {
            Some(Opcode::Dispatch)
        } else if n == 1 {
            Some(Opcode::Heartbeat)
        } else if n == 2 {
            Some(Opcode::Identify)
        } else if n == 3 {
            Some(Opcode::PresenceUpdate)
        } else if n == 4 {
            Some(Opcode::VoiceStateUpdate)
        } else if n == 6 {
            Some(Opcode::Resume)
        } else if n == 7 {
            Some(Opcode::Reconnect)
        } else if n == 8 {
            Some(Opcode::RequestGuildMembers)
        } else if n == 9 {
            Some(Opcode::InvalidSession)
        } else if n == 10 {
            Some(Opcode::Hello)
        } else if n == 11 {
            Some(Opcode::HeartbeatAck)
        } else {
            None
        }
    }

    /// Decode a wire value into an opcode.
    #[must_use]
    pub fn from_u8(n: u8) -> (r: Option<Opcode>)
        ensures
            r == Opcode::from_u8_spec(n),
    {
        match n {
            0 => Some(Opcode::Dispatch),
            1 => Some(Opcode::Heartbeat),
            2 => Some(Opcode::Identify),
            3 => Some(Opcode::PresenceUpdate),
            4 => Some(Opcode::VoiceStateUpdate),
            6 => Some(Opcode::Resume),
            7 => Some(Opcode::Reconnect),
            8 => Some(Opcode::RequestGuildMembers),
            9 => Some(Opcode::InvalidSession),
            10 => Some(Opcode::Hello),
            11 => Some(Opcode::HeartbeatAck),
            _ => None,
        }
    }
}

/// Decoding an opcode's wire value gives the opcode back.
pub proof fn lemma_opcode_roundtrip(op: Opcode)
    ensures
        Opcode::from_u8_spec(op.to_u8_spec()) == Some(op),
{
}

/// Encoding whatever a wire value decodes to gives the wire value back.
pub proof fn lemma_opcode_roundtrip_rev(n: u8)
    requires
        Opcode::from_u8_spec(n) is Some,
    ensures
        Opcode::from_u8_spec(n)->Some_0.to_u8_spec() == n,
{
}

/// One frame of the gateway wire protocol: the envelope around every logical
/// message. It is immutable once received; ownership passes from the
/// transport to the protocol engine to the dispatcher.
#[derive(Clone, Debug)]
pub struct GatewayEnvelope {
    /// The opcode's wire value.
    pub opcode: u8,
    /// The last-seen event counter; present only on Dispatch.
    pub sequence: Option<u64>,
    /// The discriminator for payload decoding; present only on Dispatch.
    pub event_name: Option<String>,
    /// The opcode-specific body, opaque to the engine.
    pub payload: Vec<u8>,
}

impl GatewayEnvelope {
    /// Well-formedness: the opcode is an assigned one, and the sequence
    /// number and event name are present exactly on Dispatch frames.
    pub open spec fn wf(self) -> bool {
        &&& Opcode::from_u8_spec(self.opcode) is Some
        &&& self.sequence is Some <==> self.opcode == 0
        &&& self.event_name is Some <==> self.opcode == 0
    }

    /// The opcode of the envelope, when its wire value is an assigned one.
    pub fn decode_opcode(&self) -> (r: Option<Opcode>)
        ensures
            r == Opcode::from_u8_spec(self.opcode),
            self.wf() ==> r is Some,
    {
        Opcode::from_u8(self.opcode)
    }
}

} // verus!
