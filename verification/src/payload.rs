//! Builders for the Identify and Resume payloads. Pure assembly from the
//! session state and the supplied configuration: no side effects, no I/O.

use vstd::prelude::*;
use vstd::string::StrSliceExecFns;

use crate::error::GatewayError;
use crate::presence::PresenceData;
use crate::session::SessionState;

verus! {

/// The authentication payload establishing a new session.
#[derive(Clone, Debug)]
pub struct IdentifyPayload {
    /// The authentication token.
    pub token: String,
    /// The intent bits declaring which events the session wants.
    pub intents: u64,
    /// The index of this shard.
    pub shard_id: u16,
    /// The total number of shards.
    pub shard_count: u16,
    /// The presence to announce.
    pub presence: PresenceData,
}

/// The payload re-attaching to a previous session.
#[derive(Clone, Debug)]
pub struct ResumePayload {
    /// The authentication token.
    pub token: String,
    /// The id of the session being resumed.
    pub session_id: String,
    /// The last event sequence number seen, so missed events are replayed.
    pub sequence: u64,
}

/// Assemble an Identify payload.
///
/// Fails with `NoAuthentication` exactly when the token is empty; otherwise
/// the payload carries the given fields unchanged.
pub fn build_identify(
    token: String,
    intents: u64,
    shard_id: u16,
    shard_count: u16,
    presence: PresenceData,
) -> (r: Result<IdentifyPayload, GatewayError>)
    ensures
        r is Err <==> token@.len() == 0,
        r is Err ==> r->Err_0 == GatewayError::NoAuthentication,
        r is Ok ==> r->Ok_0 == (IdentifyPayload { token, intents, shard_id, shard_count, presence }),
{
    if token.as_str().unicode_len() == 0 {
        Err(GatewayError::NoAuthentication)
    } else {
        Ok(IdentifyPayload { token, intents, shard_id, shard_count, presence })
    }
}

/// Assemble a Resume payload from the current session state.
///
/// A Resume may only be issued when the session is resumable and a session
/// id is on hand; otherwise the attempt is rejected with `NoSessionId`
/// before any frame is sent. An empty token is rejected with
/// `NoAuthentication`. On success the payload echoes the stored session id
/// and the last-seen sequence number, or zero if none was seen.
pub fn build_resume(token: String, session: &SessionState) -> (r: Result<
    ResumePayload,
    GatewayError,
>)
    ensures
        r is Ok <==> session.can_resume_spec() && token@.len() > 0,
        !session.can_resume_spec() ==> r == Err::<ResumePayload, _>(GatewayError::NoSessionId),
        session.can_resume_spec() && token@.len() == 0 ==> r == Err::<ResumePayload, _>(
            GatewayError::NoAuthentication,
        ),
        r is Ok ==> r->Ok_0.token == token && r->Ok_0.session_id == session.session_id->0
            && r->Ok_0.sequence == (match session.sequence {
            Some(n) => n,
            None => 0u64,
        }),
{
    if !session.can_resume() {
        return Err(GatewayError::NoSessionId);
    }
    if token.as_str().unicode_len() == 0 {
        return Err(GatewayError::NoAuthentication);
    }
    let session_id = match &session.session_id {
        Some(id) => id.clone(),
        None => {
            return Err(GatewayError::NoSessionId);
        },
    };
    let sequence = match session.sequence {
        Some(n) => n,
        None => 0,
    };
    Ok(ResumePayload { token, session_id, sequence })
}

} // verus!
