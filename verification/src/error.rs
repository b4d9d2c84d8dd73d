//! Error kinds of the gateway engine and of the owning client.

use vstd::prelude::*;

verus! {

/// The payload of a close frame received from or sent to the remote side.
#[derive(Clone, Debug)]
pub struct CloseFrameData {
    /// The close code carried by the frame.
    pub code: u16,
    /// The textual reason carried by the frame, possibly empty.
    pub reason: String,
}

/// An error that occurred while attempting to deal with the gateway.
#[derive(Clone, Debug)]
pub enum GatewayError {
    /// There was an error building a URL.
    BuildingUrl,
    /// The connection closed, potentially uncleanly.
    Closed(Option<CloseFrameData>),
    /// Expected a Hello during a handshake.
    ExpectedHello,
    /// There was an error sending a heartbeat.
    HeartbeatFailed,
    /// Invalid authentication (a bad token) was sent in the Identify.
    InvalidAuthentication,
    /// Expected a Ready or an InvalidSession.
    InvalidHandshake,
    /// No authentication was sent in the Identify.
    NoAuthentication,
    /// A session id was expected for resuming, but was not present.
    NoSessionId,
    /// Failed to reconnect after a number of attempts.
    ReconnectFailure,
}

impl GatewayError {
    /// The human-readable description of the error.
    pub open spec fn message_spec(self) -> Seq<char> {
        match self {
            GatewayError::BuildingUrl => "Error building url"@,
            GatewayError::Closed(_) => "Connection closed"@,
            GatewayError::ExpectedHello => "Expected a Hello"@,
            GatewayError::HeartbeatFailed => "Failed sending a heartbeat"@,
            GatewayError::InvalidAuthentication => "Sent invalid authentication"@,
            GatewayError::InvalidHandshake => "Expected a valid Handshake"@,
            GatewayError::NoAuthentication => "Sent no authentication"@,
            GatewayError::NoSessionId => "No Session Id present when required"@,
            GatewayError::ReconnectFailure => "Failed to Reconnect"@,
        }
    }

    /// The human-readable description of the error.
    #[must_use]
    pub fn message(&self) -> (r: String)
        ensures
            r@ == self.message_spec(),
    {
        match self {
            GatewayError::BuildingUrl => "Error building url".to_string(),
            GatewayError::Closed(_) => "Connection closed".to_string(),
            GatewayError::ExpectedHello => "Expected a Hello".to_string(),
            GatewayError::HeartbeatFailed => "Failed sending a heartbeat".to_string(),
            GatewayError::InvalidAuthentication => "Sent invalid authentication".to_string(),
            GatewayError::InvalidHandshake => "Expected a valid Handshake".to_string(),
            GatewayError::NoAuthentication => "Sent no authentication".to_string(),
            GatewayError::NoSessionId => "No Session Id present when required".to_string(),
            GatewayError::ReconnectFailure => "Failed to Reconnect".to_string(),
        }
    }

    /// Whether the error is of the same kind as `other`, disregarding any
    /// close-frame payload.
    pub open spec fn same_kind_spec(self, other: GatewayError) -> bool {
        match (self, other) {
            (GatewayError::BuildingUrl, GatewayError::BuildingUrl) => true,
            (GatewayError::Closed(_), GatewayError::Closed(_)) => true,
            (GatewayError::ExpectedHello, GatewayError::ExpectedHello) => true,
            (GatewayError::HeartbeatFailed, GatewayError::HeartbeatFailed) => true,
            (GatewayError::InvalidAuthentication, GatewayError::InvalidAuthentication) => true,
            (GatewayError::InvalidHandshake, GatewayError::InvalidHandshake) => true,
            (GatewayError::NoAuthentication, GatewayError::NoAuthentication) => true,
            (GatewayError::NoSessionId, GatewayError::NoSessionId) => true,
            (GatewayError::ReconnectFailure, GatewayError::ReconnectFailure) => true,
            _ => false,
        }
    }

    /// Whether the error is of the same kind as `other`.
    pub fn same_kind(&self, other: &GatewayError) -> (r: bool)
        ensures
            r == self.same_kind_spec(*other),
    {
        match (self, other) {
            (GatewayError::BuildingUrl, GatewayError::BuildingUrl) => true,
            (GatewayError::Closed(_), GatewayError::Closed(_)) => true,
            (GatewayError::ExpectedHello, GatewayError::ExpectedHello) => true,
            (GatewayError::HeartbeatFailed, GatewayError::HeartbeatFailed) => true,
            (GatewayError::InvalidAuthentication, GatewayError::InvalidAuthentication) => true,
            (GatewayError::InvalidHandshake, GatewayError::InvalidHandshake) => true,
            (GatewayError::NoAuthentication, GatewayError::NoAuthentication) => true,
            (GatewayError::NoSessionId, GatewayError::NoSessionId) => true,
            (GatewayError::ReconnectFailure, GatewayError::ReconnectFailure) => true,
            _ => false,
        }
    }
}

/// An error returned from the client owning the shards.
#[derive(Clone, Copy, Debug, PartialEq, Eq, Hash, Structural)]
pub enum ClientError {
    /// The client shut down.
    Shutdown,
}

impl ClientError {
    /// The human-readable description of the error.
    pub open spec fn message_spec(self) -> Seq<char> {
        "The client shutdown"@
    }

    /// The human-readable description of the error.
    #[must_use]
    pub fn message(&self) -> (r: String)
        ensures
            r@ == self.message_spec(),
    {
        "The client shutdown".to_string()
    }
}

} // verus!
