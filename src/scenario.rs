//! The main task: spawn the listener, yield, connect a client, yield again,
//! and return, which shuts the runtime down with the sender still idling.
use vstd::prelude::*;
use crate::error::{classify_connect_failure, connect_error_of, IoFailure, ScenarioError};

verus! {

/// How many cooperative yields the main task makes at each of its two
/// waiting points.
#[derive(Clone, Copy, Debug, PartialEq, Eq, Structural)]
pub struct Schedule {
    /// Yields after spawning the listener, before the client connects.
    pub yields_before_connect: u32,
    /// Yields after the client connected, before the main task returns.
    pub yields_before_return: u32,
}

/// The schedule that lets the listener bind, then accept and hand off, then
/// the sender write, on a scheduler that runs every ready task once per yield.
pub fn standard_schedule() -> (s: Schedule)
    ensures
        s.yields_before_connect == 1,
        s.yields_before_return == 2,
{
    Schedule { yields_before_connect: 1, yields_before_return: 2 }
}

/// Where the main task stands.
#[derive(Clone, Copy, Debug, PartialEq, Eq, Structural)]
pub enum MainPhase {
    /// Giving the listener time to bind; `left` yields remain, and `after`
    /// are to follow the connect.
    PreConnect { left: u32, after: u32 },
    /// The client is connecting; `after` yields are to follow.
    Connecting { after: u32 },
    /// Giving the listener and the sender time to run; `left` yields remain.
    PostConnect { left: u32 },
    /// The main task returned successfully; the runtime shuts down.
    Returned,
    /// The main task returned this error.
    Failed(ScenarioError),
}

/// What the driver reports back after performing an action.
#[derive(Clone, Copy, Debug, PartialEq, Eq, Structural)]
pub enum MainEvent {
    /// A spawn or a yield completed.
    Proceed,
    /// The client connected.
    Connected,
    /// The client could not connect.
    ConnectError(IoFailure),
}

/// What the driver is to do next.
#[derive(Clone, Copy, Debug, PartialEq, Eq, Structural)]
pub enum MainAction {
    /// Spawn the listener as a background task.
    SpawnListener,
    /// Yield once to the scheduler.
    Yield,
    /// Connect the client, and keep it until the main task returns.
    Connect,
    /// Return successfully, shutting the runtime down.
    Return,
    /// Return this error.
    Abort(ScenarioError),
    /// Nothing to do: the event does not answer the last action.
    Stay,
}

/// The main task's first phase and action under schedule `s`.
pub open spec fn main_init(s: Schedule) -> (MainPhase, MainAction) {
    (
        MainPhase::PreConnect { left: s.yields_before_connect, after: s.yields_before_return },
        MainAction::SpawnListener,
    )
}

/// Either one more yield, or the action that follows the last one.
pub open spec fn after_connect(left: u32) -> (MainPhase, MainAction) {
    if left > 0 {
        (MainPhase::PostConnect { left: (left - 1) as u32 }, MainAction::Yield)
    } else {
        (MainPhase::Returned, MainAction::Return)
    }
}

/// One transition of the main task.
pub open spec fn main_next(p: MainPhase, e: MainEvent) -> (MainPhase, MainAction) {
    match (p, e) {
        (MainPhase::PreConnect { left, after }, MainEvent::Proceed) => {
            if left > 0 {
                (MainPhase::PreConnect { left: (left - 1) as u32, after }, MainAction::Yield)
            } else {
                (MainPhase::Connecting { after }, MainAction::Connect)
            }
        },
        (MainPhase::Connecting { after }, MainEvent::Connected) => after_connect(after),
        (MainPhase::Connecting { .. }, MainEvent::ConnectError(f)) => (
            MainPhase::Failed(connect_error_of(f)),
            MainAction::Abort(connect_error_of(f)),
        ),
        (MainPhase::PostConnect { left }, MainEvent::Proceed) => after_connect(left),
        _ => (p, MainAction::Stay),
    }
}

/// Whether the main task has returned.
pub open spec fn main_finished(p: MainPhase) -> bool {
    p is Returned || p is Failed
}

/// Whether `e` is a report that the driver can give after performing `a`:
/// a connect reports its result, a spawn or a yield that it completed.
pub open spec fn answers(a: MainAction, e: MainEvent) -> bool {
    match a {
        MainAction::Connect => e is Connected || e is ConnectError,
        MainAction::SpawnListener | MainAction::Yield => e is Proceed,
        _ => true,
    }
}

/// The final phase and last action of a main task in phase `p`, whose last
/// action was `a`, that is told `evs`, one event after another.
pub open spec fn main_run(p: MainPhase, a: MainAction, evs: Seq<MainEvent>) -> (MainPhase, MainAction)
    decreases evs.len(),
{
    if evs.len() == 0 {
        (p, a)
    } else {
        let (q, b) = main_next(p, evs[0]);
        main_run(q, b, evs.drop_first())
    }
}

/// Whether each of `evs` answers the action that stands when it comes.
pub open spec fn answered(p: MainPhase, a: MainAction, evs: Seq<MainEvent>) -> bool
    decreases evs.len(),
{
    evs.len() == 0 || {
        let (q, b) = main_next(p, evs[0]);
        answers(a, evs[0]) && answered(q, b, evs.drop_first())
    }
}

/// How many answered events a main task in phase `p` still needs to return.
pub open spec fn remaining(p: MainPhase) -> nat {
    match p {
        MainPhase::PreConnect { left, after } => (left + after + 2) as nat,
        MainPhase::Connecting { after } => (after + 1) as nat,
        MainPhase::PostConnect { left } => (left + 1) as nat,
        _ => 0,
    }
}

/// Whether a main task error is of the connect class.
pub open spec fn is_connect_error(e: ScenarioError) -> bool {
    e == ScenarioError::ConnectRefused || e == ScenarioError::ConnectFailed
}

/// The phases and actions that a main task passes through together.
pub open spec fn main_consistent(p: MainPhase, a: MainAction) -> bool {
    match p {
        MainPhase::PreConnect { .. } => a is SpawnListener || a is Yield,
        MainPhase::Connecting { .. } => a is Connect,
        MainPhase::PostConnect { .. } => a is Yield,
        MainPhase::Returned => true,
        MainPhase::Failed(e) => is_connect_error(e),
    }
}

proof fn lemma_run_returns(p: MainPhase, a: MainAction, evs: Seq<MainEvent>)
    requires
        main_consistent(p, a),
        answered(p, a, evs),
        evs.len() >= remaining(p),
    ensures
        main_finished(main_run(p, a, evs).0),
        main_consistent(main_run(p, a, evs).0, main_run(p, a, evs).1),
    decreases evs.len(),
{
    if evs.len() > 0 {
        let (q, b) = main_next(p, evs[0]);
        assert(main_consistent(q, b));
        assert(remaining(q) + 1 <= remaining(p) || main_finished(p));
        lemma_run_returns(q, b, evs.drop_first());
    }
}

/// Under every schedule, a main task whose every action is answered has
/// returned after as many events as the schedule has steps: successfully, or
/// with a connect-class error. Fewer yields can make the connect fail, but
/// never leave the main task waiting forever.
pub proof fn lemma_main_always_returns(s: Schedule, evs: Seq<MainEvent>)
    requires
        answered(main_init(s).0, main_init(s).1, evs),
        evs.len() >= s.yields_before_connect + s.yields_before_return + 2,
    ensures
        main_finished(main_run(main_init(s).0, main_init(s).1, evs).0),
        main_run(main_init(s).0, main_init(s).1, evs).0 matches MainPhase::Failed(e) ==> is_connect_error(e),
{
    lemma_run_returns(main_init(s).0, main_init(s).1, evs);
}

/// Starts the main task under schedule `s`: its first action spawns the
/// listener.
pub fn main_start(s: Schedule) -> (r: (MainPhase, MainAction))
    ensures
        r == main_init(s),
{
    (
        MainPhase::PreConnect { left: s.yields_before_connect, after: s.yields_before_return },
        MainAction::SpawnListener,
    )
}

fn yield_or_return(left: u32) -> (r: (MainPhase, MainAction))
    ensures
        r == after_connect(left),
{
    if left > 0 {
        (MainPhase::PostConnect { left: left - 1 }, MainAction::Yield)
    } else {
        (MainPhase::Returned, MainAction::Return)
    }
}

/// Decides the main task's next phase and action from what just happened.
pub fn main_step(p: MainPhase, e: MainEvent) -> (r: (MainPhase, MainAction))
    ensures
        r == main_next(p, e),
{
    match (p, e) {
        (MainPhase::PreConnect { left, after }, MainEvent::Proceed) => {
            if left > 0 {
                (MainPhase::PreConnect { left: left - 1, after }, MainAction::Yield)
            } else {
                (MainPhase::Connecting { after }, MainAction::Connect)
            }
        },
        (MainPhase::Connecting { after }, MainEvent::Connected) => yield_or_return(after),
        (MainPhase::Connecting { .. }, MainEvent::ConnectError(f)) => {
            let err = classify_connect_failure(f);
            (MainPhase::Failed(err), MainAction::Abort(err))
        },
        (MainPhase::PostConnect { left }, MainEvent::Proceed) => yield_or_return(left),
        _ => (p, MainAction::Stay),
    }
}

/// Whether the main task has returned.
pub fn main_is_finished(p: MainPhase) -> (r: bool)
    ensures
        r == main_finished(p),
{
    match p {
        MainPhase::Returned | MainPhase::Failed(_) => true,
        _ => false,
    }
}

} // verus!
