//! The listener actor: bind the endpoint, accept one client, hand the write
//! half of the connection to a detached sender, drop the read half, finish.
use vstd::prelude::*;
use crate::error::{bind_error_of, classify_bind_failure, IoFailure, ScenarioError};

verus! {

/// Where the listener stands.
#[derive(Clone, Copy, Debug, PartialEq, Eq, Structural)]
pub enum ListenerPhase {
    /// A bind of the endpoint is under way.
    Binding,
    /// The endpoint is bound; waiting for one client.
    Accepting,
    /// The connection was handed off; the listener's task is complete.
    Done,
    /// The listener gave up with an error.
    Failed(ScenarioError),
}

/// What the driver reports back after performing an action.
#[derive(Clone, Copy, Debug, PartialEq, Eq, Structural)]
pub enum ListenerEvent {
    /// The endpoint was bound.
    Bound,
    /// Binding failed.
    BindError(IoFailure),
    /// A client connected.
    Accepted,
    /// Accepting failed.
    AcceptError(IoFailure),
}

/// What the driver is to do next.
#[derive(Clone, Copy, Debug, PartialEq, Eq, Structural)]
pub enum ListenerAction {
    /// Bind the endpoint name.
    Bind,
    /// Wait for one client.
    Accept,
    /// Split the accepted connection, drop its read half, spawn a detached
    /// sender that owns the write half, and end the task successfully.
    HandOff,
    /// End the task with this error; nothing is retried.
    Abort(ScenarioError),
    /// Nothing to do: the event does not answer the last action.
    Stay,
}

/// The listener's first phase and action.
pub open spec fn listener_init() -> (ListenerPhase, ListenerAction) {
    (ListenerPhase::Binding, ListenerAction::Bind)
}

/// One transition of the listener.
pub open spec fn listener_next(p: ListenerPhase, e: ListenerEvent) -> (ListenerPhase, ListenerAction) {
    match (p, e) {
        (ListenerPhase::Binding, ListenerEvent::Bound) => (ListenerPhase::Accepting, ListenerAction::Accept),
        (ListenerPhase::Binding, ListenerEvent::BindError(f)) => (
            ListenerPhase::Failed(bind_error_of(f)),
            ListenerAction::Abort(bind_error_of(f)),
        ),
        (ListenerPhase::Accepting, ListenerEvent::Accepted) => (ListenerPhase::Done, ListenerAction::HandOff),
        (ListenerPhase::Accepting, ListenerEvent::AcceptError(_)) => (
            ListenerPhase::Failed(ScenarioError::AcceptFailed),
            ListenerAction::Abort(ScenarioError::AcceptFailed),
        ),
        _ => (p, ListenerAction::Stay),
    }
}

/// Whether the listener's task has ended.
pub open spec fn listener_finished(p: ListenerPhase) -> bool {
    p is Done || p is Failed
}

/// The final phase and the actions of a listener in phase `p` that is told
/// `evs`, one event after another.
pub open spec fn listener_run(p: ListenerPhase, evs: Seq<ListenerEvent>) -> (ListenerPhase, Seq<ListenerAction>)
    decreases evs.len(),
{
    if evs.len() == 0 {
        (p, Seq::empty())
    } else {
        let (q, a) = listener_next(p, evs[0]);
        let rest = listener_run(q, evs.drop_first());
        (rest.0, seq![a] + rest.1)
    }
}

/// A listener that has ended stays where it is and does nothing more,
/// whatever it is told.
pub proof fn lemma_listener_end_is_final(p: ListenerPhase, evs: Seq<ListenerEvent>)
    requires
        listener_finished(p),
    ensures
        listener_run(p, evs).0 == p,
        forall|i: int| 0 <= i < evs.len() ==> #[trigger] listener_run(p, evs).1[i] == ListenerAction::Stay,
        listener_run(p, evs).1.len() == evs.len(),
    decreases evs.len(),
{
    if evs.len() > 0 {
        lemma_listener_end_is_final(p, evs.drop_first());
        let rest = listener_run(p, evs.drop_first());
        assert forall|i: int| 0 <= i < evs.len() implies #[trigger] listener_run(p, evs).1[i] == ListenerAction::Stay by {
            if i > 0 {
                assert(listener_run(p, evs).1[i] == rest.1[i - 1]);
            }
        }
    }
}

/// A bind that finds the endpoint name held by a live listener ends the
/// listener with a conflict error, at once and for good: whatever is reported
/// afterwards, it neither accepts a client nor hands a connection off.
pub proof fn lemma_bind_conflict_is_fatal(evs: Seq<ListenerEvent>)
    requires
        evs.len() > 0,
        evs[0] == ListenerEvent::BindError(IoFailure::AddrInUse),
    ensures
        listener_run(listener_init().0, evs).0 == ListenerPhase::Failed(ScenarioError::BindConflict),
        listener_run(listener_init().0, evs).1[0] == ListenerAction::Abort(ScenarioError::BindConflict),
        forall|i: int|
            0 <= i < evs.len() ==> {
                let a = #[trigger] listener_run(listener_init().0, evs).1[i];
                !(a is Accept) && !(a is HandOff)
            },
{
    let failed = ListenerPhase::Failed(ScenarioError::BindConflict);
    let rest = evs.drop_first();
    lemma_listener_end_is_final(failed, rest);
    let run = listener_run(listener_init().0, evs);
    assert(run.1 == seq![ListenerAction::Abort(ScenarioError::BindConflict)] + listener_run(failed, rest).1);
    assert forall|i: int| 0 <= i < evs.len() implies {
        let a = #[trigger] listener_run(listener_init().0, evs).1[i];
        !(a is Accept) && !(a is HandOff)
    } by {
        if i > 0 {
            assert(run.1[i] == listener_run(failed, rest).1[i - 1]);
        }
    }
}

/// Starts the listener: its first action is to bind.
pub fn listener_start() -> (r: (ListenerPhase, ListenerAction))
    ensures
        r == listener_init(),
{
    (ListenerPhase::Binding, ListenerAction::Bind)
}

/// Decides the listener's next phase and action from what just happened.
pub fn listener_step(p: ListenerPhase, e: ListenerEvent) -> (r: (ListenerPhase, ListenerAction))
    ensures
        r == listener_next(p, e),
{
    match (p, e) {
        (ListenerPhase::Binding, ListenerEvent::Bound) => (ListenerPhase::Accepting, ListenerAction::Accept),
        (ListenerPhase::Binding, ListenerEvent::BindError(f)) => {
            let err = classify_bind_failure(f);
            (ListenerPhase::Failed(err), ListenerAction::Abort(err))
        },
        (ListenerPhase::Accepting, ListenerEvent::Accepted) => (ListenerPhase::Done, ListenerAction::HandOff),
        (ListenerPhase::Accepting, ListenerEvent::AcceptError(_)) => (
            ListenerPhase::Failed(ScenarioError::AcceptFailed),
            ListenerAction::Abort(ScenarioError::AcceptFailed),
        ),
        _ => (p, ListenerAction::Stay),
    }
}

/// Whether the listener's task has ended.
pub fn listener_is_finished(p: ListenerPhase) -> (r: bool)
    ensures
        r == listener_finished(p),
{
    match p {
        ListenerPhase::Done | ListenerPhase::Failed(_) => true,
        _ => false,
    }
}

} // verus!
