//! The sender task: one write of a fixed greeting, then a long idle wait
//! that the runtime's shutdown is expected to cut short.
use vstd::prelude::*;
use crate::error::{IoFailure, ScenarioError};

verus! {

/// How long the sender idles after its write, in seconds.
pub const IDLE_SECS: u64 = 1000;

/// The bytes of "Hello, world!".
pub open spec fn greeting_bytes() -> Seq<u8> {
    seq![72u8, 101u8, 108u8, 108u8, 111u8, 44u8, 32u8, 119u8, 111u8, 114u8, 108u8, 100u8, 33u8]
}

/// The payload that the sender writes, once.
pub fn greeting() -> (r: Vec<u8>)
    ensures
        r@ == greeting_bytes(),
{
    let r: Vec<u8> = vec![72u8, 101u8, 108u8, 108u8, 111u8, 44u8, 32u8, 119u8, 111u8, 114u8, 108u8, 100u8, 33u8];
    assert(r@ =~= greeting_bytes());
    r
}

/// Where the sender stands.
#[derive(Clone, Copy, Debug, PartialEq, Eq, Structural)]
pub enum SenderPhase {
    /// The greeting is being written.
    Writing,
    /// The write went through; the task is suspended in its idle wait.
    Idling,
    /// The idle wait ran out and the task ended successfully.
    Done,
    /// The write was rejected and the task ended with an error.
    Failed(ScenarioError),
}

/// What the driver reports back after performing an action.
#[derive(Clone, Copy, Debug, PartialEq, Eq, Structural)]
pub enum SenderEvent {
    /// The whole greeting was written.
    Written,
    /// The transport rejected the write.
    WriteError(IoFailure),
    /// The idle wait ran out.
    IdleElapsed,
}

/// What the driver is to do next.
#[derive(Clone, Copy, Debug, PartialEq, Eq, Structural)]
pub enum SenderAction {
    /// Write the greeting.
    Write,
    /// Idle for this many seconds.
    Sleep(u64),
    /// End the task successfully.
    Finish,
    /// End the task with this error.
    Abort(ScenarioError),
    /// Nothing to do: the event does not answer the last action.
    Stay,
}

/// The sender's first phase and action.
pub open spec fn sender_init() -> (SenderPhase, SenderAction) {
    (SenderPhase::Writing, SenderAction::Write)
}

/// One transition of the sender.
pub open spec fn sender_next(p: SenderPhase, e: SenderEvent) -> (SenderPhase, SenderAction) {
    match (p, e) {
        (SenderPhase::Writing, SenderEvent::Written) => (SenderPhase::Idling, SenderAction::Sleep(IDLE_SECS)),
        (SenderPhase::Writing, SenderEvent::WriteError(_)) => (
            SenderPhase::Failed(ScenarioError::WriteFailed),
            SenderAction::Abort(ScenarioError::WriteFailed),
        ),
        (SenderPhase::Idling, SenderEvent::IdleElapsed) => (SenderPhase::Done, SenderAction::Finish),
        _ => (p, SenderAction::Stay),
    }
}

/// The final phase and the actions of a sender in phase `p` that is told
/// `evs`, one event after another.
pub open spec fn sender_run(p: SenderPhase, evs: Seq<SenderEvent>) -> (SenderPhase, Seq<SenderAction>)
    decreases evs.len(),
{
    if evs.len() == 0 {
        (p, Seq::empty())
    } else {
        let (q, a) = sender_next(p, evs[0]);
        let rest = sender_run(q, evs.drop_first());
        (rest.0, seq![a] + rest.1)
    }
}

/// Everything the sender does from its start on, told `evs`: its first
/// action, then one action per event.
pub open spec fn sender_actions(evs: Seq<SenderEvent>) -> Seq<SenderAction> {
    seq![sender_init().1] + sender_run(sender_init().0, evs).1
}

/// No transition asks for a write: one action per event, none a write.
pub proof fn lemma_no_write_after_start(p: SenderPhase, evs: Seq<SenderEvent>)
    ensures
        sender_run(p, evs).1.len() == evs.len(),
        forall|i: int| 0 <= i < evs.len() ==> !(#[trigger] sender_run(p, evs).1[i] is Write),
    decreases evs.len(),
{
    if evs.len() > 0 {
        let q = sender_next(p, evs[0]).0;
        lemma_no_write_after_start(q, evs.drop_first());
        let run = sender_run(p, evs);
        assert forall|i: int| 0 <= i < evs.len() implies !(#[trigger] sender_run(p, evs).1[i] is Write) by {
            if i > 0 {
                assert(run.1[i] == sender_run(q, evs.drop_first()).1[i - 1]);
            }
        }
    }
}

/// Whatever is reported to it, the sender writes the greeting exactly once,
/// as the first thing it does.
pub proof fn lemma_single_write(evs: Seq<SenderEvent>)
    ensures
        sender_actions(evs).len() == evs.len() + 1,
        forall|i: int| 0 <= i < sender_actions(evs).len() ==> (#[trigger] sender_actions(evs)[i] is Write <==> i == 0),
{
    lemma_no_write_after_start(sender_init().0, evs);
    let acts = sender_actions(evs);
    assert forall|i: int| 0 <= i < acts.len() implies (#[trigger] sender_actions(evs)[i] is Write <==> i == 0) by {
        if i > 0 {
            assert(acts[i] == sender_run(sender_init().0, evs).1[i - 1]);
        }
    }
}

/// Starts the sender: its first action is the write.
pub fn sender_start() -> (r: (SenderPhase, SenderAction))
    ensures
        r == sender_init(),
{
    (SenderPhase::Writing, SenderAction::Write)
}

/// Decides the sender's next phase and action from what just happened.
pub fn sender_step(p: SenderPhase, e: SenderEvent) -> (r: (SenderPhase, SenderAction))
    ensures
        r == sender_next(p, e),
{
    match (p, e) {
        (SenderPhase::Writing, SenderEvent::Written) => (SenderPhase::Idling, SenderAction::Sleep(IDLE_SECS)),
        (SenderPhase::Writing, SenderEvent::WriteError(_)) => (
            SenderPhase::Failed(ScenarioError::WriteFailed),
            SenderAction::Abort(ScenarioError::WriteFailed),
        ),
        (SenderPhase::Idling, SenderEvent::IdleElapsed) => (SenderPhase::Done, SenderAction::Finish),
        _ => (p, SenderAction::Stay),
    }
}

} // verus!
