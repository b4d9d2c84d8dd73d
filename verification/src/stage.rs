//! The connection stage of a shard, and the kind of reconnection to perform.

use vstd::prelude::*;

verus! {

/// The stage a shard's gateway connection is currently in.
///
/// Exactly one stage holds at a time. `Connecting`, `Handshake`, `Identifying`
/// and `Resuming` are the in-progress stages; `Connected` is the steady state;
/// `Disconnected` is the rest state after exhausting retries or on deliberate
/// shutdown.
#[derive(Clone, Copy, Debug, PartialEq, Eq, Hash, Structural)]
pub enum ConnectionStage {
    /// Normally connected, not in a handshake or resume phase.
    Connected,
    /// Opening the transport.
    Connecting,
    /// Fully disconnected, with no reconnection pending.
    Disconnected,
    /// Transport open; awaiting the server's opening frame.
    Handshake,
    /// An Identify was sent; awaiting the session-start acknowledgement.
    Identifying,
    /// A Resume was sent; awaiting the resume acknowledgement.
    Resuming,
}

impl ConnectionStage {
    /// Whether the stage is a form of connecting: `Connecting`, `Handshake`,
    /// `Identifying` or `Resuming`.
    pub open spec fn is_connecting_spec(self) -> bool {
        match self {
            ConnectionStage::Connecting => true,
            ConnectionStage::Handshake => true,
            ConnectionStage::Identifying => true,
            ConnectionStage::Resuming => true,
            _ => false,
        }
    }

    /// Whether the stage is a form of connecting.
    ///
    /// Returns `true` on `Connecting`, `Handshake`, `Identifying` and
    /// `Resuming`, and `false` on `Connected` and `Disconnected`.
    #[must_use]
    pub fn is_connecting(self) -> (r: bool)
        ensures
            r == self.is_connecting_spec(),
    {
        matches!(
            self,
            ConnectionStage::Connecting
                | ConnectionStage::Handshake
                | ConnectionStage::Identifying
                | ConnectionStage::Resuming
        )
    }

    /// The human-readable name of the stage.
    pub open spec fn name_spec(self) -> Seq<char> {
        match self {
            ConnectionStage::Connected => "connected"@,
            ConnectionStage::Connecting => "connecting"@,
            ConnectionStage::Disconnected => "disconnected"@,
            ConnectionStage::Handshake => "handshaking"@,
            ConnectionStage::Identifying => "identifying"@,
            ConnectionStage::Resuming => "resuming"@,
        }
    }

    /// The human-readable name of the stage, for logs and diagnostics.
    #[must_use]
    pub fn name(&self) -> (r: String)
        ensures
            r@ == self.name_spec(),
    {
        match *self {
            ConnectionStage::Connected => "connected".to_string(),
            ConnectionStage::Connecting => "connecting".to_string(),
            ConnectionStage::Disconnected => "disconnected".to_string(),
            ConnectionStage::Handshake => "handshaking".to_string(),
            ConnectionStage::Identifying => "identifying".to_string(),
            ConnectionStage::Resuming => "resuming".to_string(),
        }
    }
}

/// The type of reconnection that should be performed after a drop.
#[derive(Clone, Copy, Debug, PartialEq, Eq, Structural)]
pub enum ReconnectType {
    /// A new connection should be made by sending an Identify.
    Reidentify,
    /// A new connection should be made by sending a Resume.
    Resume,
}

} // verus!
