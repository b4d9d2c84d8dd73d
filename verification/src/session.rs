//! Per-shard session state: the session identifier, last-seen sequence
//! number, resume URL, and the resumability flag.

use vstd::prelude::*;

verus! {

/// The session state owned by one shard's connection task.
///
/// The sequence number is monotonically non-decreasing while connected; it
/// resets to `None` only on a fresh, non-resumed identify. The session id and
/// resume URL are cleared whenever the session stops being resumable.
#[derive(Clone, Debug)]
pub struct SessionState {
    /// The identifier of the current session, once one was established.
    pub session_id: Option<String>,
    /// The last-seen event sequence number, echoed back on a Resume.
    pub sequence: Option<u64>,
    /// The URL to reconnect to when resuming the session.
    pub resume_url: Option<String>,
    /// Whether the current session may be resumed after a drop.
    pub resumable: bool,
    /// The index of this shard.
    pub shard_id: u16,
    /// The total number of shards.
    pub shard_count: u16,
}

impl SessionState {
    /// Well-formedness: the shard index lies under the shard count, and a
    /// session that is not resumable retains neither an id nor a resume URL.
    pub open spec fn wf(self) -> bool {
        &&& self.shard_id < self.shard_count
        &&& !self.resumable ==> self.session_id is None && self.resume_url is None
    }

    /// A fresh, never-connected session for the given shard.
    pub fn new(shard_id: u16, shard_count: u16) -> (s: SessionState)
        requires
            shard_id < shard_count,
        ensures
            s.wf(),
            s.session_id is None,
            s.sequence is None,
            s.resume_url is None,
            !s.resumable,
            s.shard_id == shard_id,
            s.shard_count == shard_count,
    {
        SessionState {
            session_id: None,
            sequence: None,
            resume_url: None,
            resumable: false,
            shard_id,
            shard_count,
        }
    }

    /// The session state after recording a session-start acknowledgement.
    pub open spec fn record_ready_spec(self, session_id: String, resume_url: String) -> SessionState {
        SessionState {
            session_id: Some(session_id),
            resume_url: Some(resume_url),
            resumable: true,
            ..self
        }
    }

    /// Record a successful session start: store the session id and resume
    /// URL the server announced and mark the session resumable. The sequence
    /// number is left as it is.
    pub fn record_ready(&mut self, session_id: String, resume_url: String)
        ensures
            *final(self) == old(self).record_ready_spec(session_id, resume_url),
            old(self).wf() ==> final(self).wf(),
    {
        self.session_id = Some(session_id);
        self.resume_url = Some(resume_url);
        self.resumable = true;
    }

    /// Whether a dispatched frame carrying `seq` advances the stored sequence
    /// number: it does when none is stored yet or when `seq` is strictly
    /// greater than the stored one.
    pub open spec fn advances(self, seq: u64) -> bool {
        match self.sequence {
            Some(cur) => seq > cur,
            None => true,
        }
    }

    /// Record the sequence number of a dispatched frame. The stored number
    /// never decreases: a stale or repeated number leaves it untouched.
    /// Returns whether the stored number advanced.
    pub fn observe_dispatch(&mut self, seq: u64) -> (advanced: bool)
        ensures
            advanced == old(self).advances(seq),
            advanced ==> *final(self) == (SessionState { sequence: Some(seq), ..*old(self) }),
            !advanced ==> *final(self) == *old(self),
    {
        let advance = match self.sequence {
            Some(cur) => seq > cur,
            None => true,
        };
        if advance {
            self.sequence = Some(seq);
        }
        advance
    }

    /// The session state after the session was invalidated for good.
    pub open spec fn invalidate_spec(self) -> SessionState {
        SessionState {
            session_id: None,
            sequence: None,
            resume_url: None,
            resumable: false,
            ..self
        }
    }

    /// Forget the session entirely: clear the session id, resume URL and
    /// sequence number, and mark the session non-resumable. The next
    /// connection must identify afresh.
    pub fn invalidate(&mut self)
        ensures
            *final(self) == old(self).invalidate_spec(),
            old(self).wf() ==> final(self).wf(),
    {
        self.session_id = None;
        self.sequence = None;
        self.resume_url = None;
        self.resumable = false;
    }

    /// Mark the session resumable, leaving everything else untouched.
    pub fn mark_resumable(&mut self)
        ensures
            *final(self) == (SessionState { resumable: true, ..*old(self) }),
    {
        self.resumable = true;
    }

    /// Whether a Resume may be issued for this session: it is resumable and
    /// a session id is present.
    pub open spec fn can_resume_spec(self) -> bool {
        self.resumable && self.session_id is Some
    }

    /// Whether a Resume may be issued for this session.
    pub fn can_resume(&self) -> (r: bool)
        ensures
            r == self.can_resume_spec(),
    {
        self.resumable && self.session_id.is_some()
    }
}

/// Order on stored sequence numbers: `a` is at most `b`, where absent counts
/// as the least value.
pub open spec fn sequence_le(a: Option<u64>, b: Option<u64>) -> bool {
    match a {
        None => true,
        Some(x) => match b {
            Some(y) => x <= y,
            None => false,
        },
    }
}

} // verus!
