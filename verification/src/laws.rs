//! Protocol laws: properties of the engine's transition relation, proved
//! once and for all states and events.

use vstd::prelude::*;

use crate::machine::{Action, Engine, GatewayEvent, Input};
use crate::session::sequence_le;
use crate::stage::ConnectionStage;

verus! {

/// Every step from a well-formed engine leads to a well-formed engine.
pub proof fn lemma_step_preserves_wf(pre: Engine, input: Input, now_ms: u64, roll: u32)
    requires
        pre.wf(),
    ensures
        pre.step_spec(input, now_ms, roll).0.wf(),
{
}

/// While the engine is and stays connected, no step decreases the recorded
/// sequence number.
pub proof fn lemma_step_sequence_monotone(pre: Engine, input: Input, now_ms: u64, roll: u32)
    requires
        pre.wf(),
        pre.stage == ConnectionStage::Connected,
        pre.step_spec(input, now_ms, roll).0.stage == ConnectionStage::Connected,
    ensures
        sequence_le(
            pre.session.sequence,
            pre.step_spec(input, now_ms, roll).0.session.sequence,
        ),
{
}

/// A Dispatch frame processed while connected advances the recorded
/// sequence number to exactly the frame's number whenever that number is
/// news — in particular it then grows by at least one — and hands the
/// event on to the dispatcher.
pub proof fn lemma_dispatch_advances(
    pre: Engine,
    sequence: u64,
    event_name: String,
    payload: Vec<u8>,
    now_ms: u64,
    roll: u32,
)
    requires
        pre.wf(),
        pre.stage == ConnectionStage::Connected,
        pre.session.advances(sequence),
    ensures
        pre.step_spec(
            Input::Frame(GatewayEvent::Dispatch { sequence, event_name, payload }),
            now_ms,
            roll,
        ).0.session.sequence == Some(sequence),
        pre.session.sequence is Some ==> sequence >= pre.session.sequence->0 + 1,
        pre.step_spec(
            Input::Frame(GatewayEvent::Dispatch { sequence, event_name, payload }),
            now_ms,
            roll,
        ).1 == (Action::Dispatch { sequence, event_name, payload }),
{
}

/// A Resume is only ever issued for a session that is resumable and has a
/// session id on hand: whatever the state and the event, a `SendResume`
/// action implies both held before the step and still hold after it.
pub proof fn lemma_resume_only_when_resumable(pre: Engine, input: Input, now_ms: u64, roll: u32)
    requires
        pre.wf(),
        pre.step_spec(input, now_ms, roll).1 is SendResume,
    ensures
        pre.session.resumable,
        pre.session.session_id is Some,
        pre.step_spec(input, now_ms, roll).0.session.resumable,
        pre.step_spec(input, now_ms, roll).0.session.session_id is Some,
{
}

/// If no heartbeat acknowledgement arrived within two intervals of the last
/// heartbeat send, the next tick closes the transport and moves to
/// `Connecting` with the session kept resumable — the engine does not wait
/// for the remote side to notice.
pub proof fn lemma_heartbeat_timeout_reconnects(pre: Engine, now_ms: u64, roll: u32)
    requires
        pre.wf(),
        pre.stage == ConnectionStage::Connected,
        pre.heartbeat is Some,
        pre.heartbeat->0.dead_spec(now_ms),
    ensures
        pre.step_spec(Input::Tick, now_ms, roll).0.stage == ConnectionStage::Connecting,
        pre.step_spec(Input::Tick, now_ms, roll).0.session.resumable,
        pre.step_spec(Input::Tick, now_ms, roll).1 == (Action::CloseAndReconnect {
            resumable: true,
        }),
{
}

/// Receiving InvalidSession with the resumable flag off clears the session
/// id, the resume URL and the sequence number. While authenticating, the
/// next outbound payload is an Identify, never a Resume; while connected,
/// the connection is rebuilt with nothing left to resume.
pub proof fn lemma_invalid_session_unresumable_clears(pre: Engine, now_ms: u64, roll: u32)
    requires
        pre.wf(),
        pre.stage == ConnectionStage::Identifying || pre.stage == ConnectionStage::Resuming
            || pre.stage == ConnectionStage::Connected,
    ensures
        pre.step_spec(
            Input::Frame(GatewayEvent::InvalidSession { resumable: false }),
            now_ms,
            roll,
        ).0.session.session_id is None,
        pre.step_spec(
            Input::Frame(GatewayEvent::InvalidSession { resumable: false }),
            now_ms,
            roll,
        ).0.session.resume_url is None,
        pre.step_spec(
            Input::Frame(GatewayEvent::InvalidSession { resumable: false }),
            now_ms,
            roll,
        ).0.session.sequence is None,
        !pre.step_spec(
            Input::Frame(GatewayEvent::InvalidSession { resumable: false }),
            now_ms,
            roll,
        ).0.session.resumable,
        pre.stage == ConnectionStage::Identifying || pre.stage == ConnectionStage::Resuming
            ==> pre.step_spec(
            Input::Frame(GatewayEvent::InvalidSession { resumable: false }),
            now_ms,
            roll,
        ).1 == Action::SendIdentify,
        pre.stage == ConnectionStage::Connected ==> pre.step_spec(
            Input::Frame(GatewayEvent::InvalidSession { resumable: false }),
            now_ms,
            roll,
        ).1 == (Action::CloseAndReconnect { resumable: false }),
{
}

/// The shutdown signal stops the shard for good: whatever the stage, the
/// engine is disconnected afterwards, and it sends a clean close frame
/// exactly when a transport was open.
pub proof fn lemma_shutdown_disconnects(pre: Engine, now_ms: u64, roll: u32)
    requires
        pre.wf(),
    ensures
        pre.step_spec(Input::Shutdown, now_ms, roll).0.stage == ConnectionStage::Disconnected,
        pre.step_spec(Input::Shutdown, now_ms, roll).1 == Action::CloseClean <==> (pre.stage
            == ConnectionStage::Handshake || pre.stage == ConnectionStage::Identifying
            || pre.stage == ConnectionStage::Resuming || pre.stage == ConnectionStage::Connected),
{
}

/// A disconnected shard is at rest: no further event changes its state or
/// makes it act — in particular it never attempts to reconnect.
pub proof fn lemma_disconnected_is_terminal(pre: Engine, input: Input, now_ms: u64, roll: u32)
    requires
        pre.wf(),
        pre.stage == ConnectionStage::Disconnected,
        pre.heartbeat is None,
    ensures
        pre.step_spec(input, now_ms, roll).0 == pre,
        pre.step_spec(input, now_ms, roll).1 is Continue,
{
}

/// The engine an event trace leads to: the events applied in order, each
/// with its timestamp and jitter draw.
pub open spec fn run_spec(pre: Engine, events: Seq<(Input, u64, u32)>) -> Engine
    decreases events.len(),
{
    if events.len() == 0 {
        pre
    } else {
        run_spec(
            pre.step_spec(events[0].0, events[0].1, events[0].2).0,
            events.drop_first(),
        )
    }
}

/// Over any successful connected run — a trace after which, prefix by
/// prefix, the engine is and stays connected — the recorded sequence number
/// is non-decreasing.
pub proof fn lemma_run_sequence_monotone(pre: Engine, events: Seq<(Input, u64, u32)>)
    requires
        pre.wf(),
        forall|i: int|
            0 <= i <= events.len() ==> #[trigger] run_spec(pre, events.take(i)).stage
                == ConnectionStage::Connected,
    ensures
        sequence_le(pre.session.sequence, run_spec(pre, events).session.sequence),
    decreases events.len(),
{
    assert(events.take(0) =~= Seq::<(Input, u64, u32)>::empty());
    assert(run_spec(pre, events.take(0)) == pre);
    if events.len() > 0 {
        let first = events[0];
        let mid = pre.step_spec(first.0, first.1, first.2).0;
        let tail = events.drop_first();
        assert(events.take(1)[0] == first);
        assert(events.take(1).drop_first() =~= Seq::<(Input, u64, u32)>::empty());
        assert(run_spec(mid, events.take(1).drop_first()) == mid);
        assert(run_spec(pre, events.take(1)) == mid);
        lemma_step_preserves_wf(pre, first.0, first.1, first.2);
        lemma_step_sequence_monotone(pre, first.0, first.1, first.2);
        assert forall|i: int| 0 <= i <= tail.len() implies #[trigger] run_spec(
            mid,
            tail.take(i),
        ).stage == ConnectionStage::Connected by {
            assert(events.take(i + 1)[0] == first);
            assert(events.take(i + 1).drop_first() =~= tail.take(i));
            assert(run_spec(pre, events.take(i + 1)) == run_spec(mid, tail.take(i)));
        }
        lemma_run_sequence_monotone(mid, tail);
        assert(run_spec(pre, events) == run_spec(mid, tail));
    }
}

} // verus!
