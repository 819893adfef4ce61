//! The accept loop, as a state machine over plain events.
//!
//! The loop owns the listening endpoint. Each iteration waits for one of:
//! a new connection, the shutdown signal, or a failure of the acceptance
//! call itself. The machine here decides what each outcome means; the
//! surrounding binary performs the wait and carries the decision out
//! (dispatching a connection to its own task, or leaving the loop).
//!
//! A connection is named by an identifier the caller assigns at acceptance
//! (the caller keeps the stream itself; the loop retains no reference to a
//! connection once it is dispatched). Dispatch never waits on any other
//! connection's completion.

use vstd::prelude::*;

verus! {

/// The phase of the accept loop. `Listening` is the only phase in which
/// anything is accepted; both stopped phases are final.
#[derive(Clone, Copy, Debug, PartialEq, Eq, Structural)]
pub enum ServerPhase {
    /// Bound and accepting connections.
    Listening,
    /// Stopped because the shutdown signal fired: the clean exit.
    StoppedClean,
    /// Stopped because the acceptance call itself failed: fatal, no retry.
    StoppedFatal,
}

/// One outcome of the accept loop's combined wait.
#[derive(Clone, Copy, Debug, PartialEq, Eq, Structural)]
pub enum AcceptEvent {
    /// A connection arrived; the caller names it by this identifier.
    Incoming(u64),
    /// The shutdown signal was observed set.
    ShutdownObserved,
    /// The acceptance call failed (e.g. resource exhaustion): fatal.
    AcceptFailed,
}

/// What the accept loop does in response to one event.
#[derive(Clone, Copy, Debug, PartialEq, Eq, Structural)]
pub enum AcceptAction {
    /// Hand this connection to its own independently scheduled task and
    /// keep listening.
    Dispatch(u64),
    /// Leave the loop, releasing the endpoint; the process exits cleanly.
    StopClean,
    /// Leave the loop on a fatal acceptance error.
    StopFatal,
    /// Nothing: the loop has already stopped and accepts no more work.
    Ignore,
}

impl ServerPhase {
    /// A stopped loop never runs again, in either stopped phase.
    pub open spec fn is_stopped(&self) -> bool {
        !(*self is Listening)
    }
}

/// The transition function of the accept loop: next phase and action for
/// one event. While listening, a connection is dispatched and the loop
/// goes on; the shutdown signal or an acceptance failure stops it. A
/// stopped loop ignores everything: no event re-enters a running phase.
pub open spec fn accept_step_spec(phase: ServerPhase, event: AcceptEvent) -> (ServerPhase, AcceptAction) {
    match phase {
        ServerPhase::Listening => match event {
            AcceptEvent::Incoming(conn) => (ServerPhase::Listening, AcceptAction::Dispatch(conn)),
            AcceptEvent::ShutdownObserved => (ServerPhase::StoppedClean, AcceptAction::StopClean),
            AcceptEvent::AcceptFailed => (ServerPhase::StoppedFatal, AcceptAction::StopFatal),
        },
        _ => (phase, AcceptAction::Ignore),
    }
}

/// Take one step of the accept loop.
pub fn accept_step(phase: ServerPhase, event: AcceptEvent) -> (r: (ServerPhase, AcceptAction))
    ensures
        r == accept_step_spec(phase, event),
{
    match phase {
        ServerPhase::Listening => match event {
            AcceptEvent::Incoming(conn) => (ServerPhase::Listening, AcceptAction::Dispatch(conn)),
            AcceptEvent::ShutdownObserved => (ServerPhase::StoppedClean, AcceptAction::StopClean),
            AcceptEvent::AcceptFailed => (ServerPhase::StoppedFatal, AcceptAction::StopFatal),
        },
        _ => (phase, AcceptAction::Ignore),
    }
}

/// The phase after the loop has seen a whole sequence of events.
pub open spec fn phase_after(phase: ServerPhase, events: Seq<AcceptEvent>) -> ServerPhase
    decreases events.len(),
{
    if events.len() == 0 {
        phase
    } else {
        phase_after(accept_step_spec(phase, events[0]).0, events.drop_first())
    }
}

/// The actions the loop takes on a whole sequence of events, in order.
pub open spec fn actions_of(phase: ServerPhase, events: Seq<AcceptEvent>) -> Seq<AcceptAction>
    decreases events.len(),
{
    if events.len() == 0 {
        Seq::empty()
    } else {
        seq![accept_step_spec(phase, events[0]).1] + actions_of(
            accept_step_spec(phase, events[0]).0,
            events.drop_first(),
        )
    }
}

/// The loop answers every event with exactly one action.
pub proof fn lemma_actions_len(phase: ServerPhase, events: Seq<AcceptEvent>)
    ensures
        actions_of(phase, events).len() == events.len(),
    decreases events.len(),
{
    if events.len() > 0 {
        lemma_actions_len(accept_step_spec(phase, events[0]).0, events.drop_first());
    }
}

/// A stopped loop stays stopped and never dispatches anything.
pub proof fn lemma_stopped_stays_stopped(phase: ServerPhase, events: Seq<AcceptEvent>, i: int)
    requires
        phase.is_stopped(),
        0 <= i < events.len(),
    ensures
        phase_after(phase, events).is_stopped(),
        actions_of(phase, events)[i] == AcceptAction::Ignore,
    decreases events.len(),
{
    lemma_actions_len(accept_step_spec(phase, events[0]).0, events.drop_first());
    if i > 0 {
        lemma_stopped_stays_stopped(accept_step_spec(phase, events[0]).0, events.drop_first(), i - 1);
    } else {
        lemma_stopped_absorbs(accept_step_spec(phase, events[0]).0, events.drop_first());
    }
}

/// A stopped loop stays stopped through any further events.
pub proof fn lemma_stopped_absorbs(phase: ServerPhase, events: Seq<AcceptEvent>)
    requires
        phase.is_stopped(),
    ensures
        phase_after(phase, events).is_stopped(),
    decreases events.len(),
{
    if events.len() > 0 {
        lemma_stopped_absorbs(accept_step_spec(phase, events[0]).0, events.drop_first());
    }
}

/// Once the shutdown signal has been observed, no later connection is
/// accepted: whatever phase the loop was in when event `i` reported the
/// signal, every action from that point on — event `i`'s own included —
/// dispatches nothing. Connections dispatched before `i` are unaffected;
/// the loop holds no reference to them.
pub proof fn lemma_no_dispatch_after_shutdown(
    phase: ServerPhase,
    events: Seq<AcceptEvent>,
    i: int,
    j: int,
)
    requires
        0 <= i <= j < events.len(),
        events[i] is ShutdownObserved,
    ensures
        !(actions_of(phase, events)[j] is Dispatch),
    decreases events.len(),
{
    let next = accept_step_spec(phase, events[0]).0;
    let rest = events.drop_first();
    lemma_actions_len(next, rest);
    if i == 0 {
        if j == 0 {
        } else {
            assert(next.is_stopped());
            lemma_stopped_stays_stopped(next, rest, j - 1);
        }
    } else {
        lemma_no_dispatch_after_shutdown(next, rest, i - 1, j - 1);
    }
}

/// Connections are dispatched in arrival order: as long as the loop has
/// seen nothing but arrivals, the j-th action hands out exactly the j-th
/// event's connection, and no other.
pub proof fn lemma_dispatch_in_arrival_order(events: Seq<AcceptEvent>, j: int)
    requires
        0 <= j < events.len(),
        forall|i: int| 0 <= i <= j ==> events[i] is Incoming,
    ensures
        actions_of(ServerPhase::Listening, events)[j] == AcceptAction::Dispatch(events[j]->0),
    decreases j,
{
    let rest = events.drop_first();
    lemma_actions_len(accept_step_spec(ServerPhase::Listening, events[0]).0, rest);
    if j > 0 {
        assert forall|i: int| 0 <= i <= j - 1 implies rest[i] is Incoming by {
            assert(rest[i] == events[i + 1]);
        }
        lemma_dispatch_in_arrival_order(rest, j - 1);
        assert(rest[j - 1] == events[j]);
    }
}

/// Extending a trace by one event appends exactly the step taken from the
/// phase the trace had reached.
pub proof fn lemma_run_snoc(phase: ServerPhase, events: Seq<AcceptEvent>, e: AcceptEvent)
    ensures
        phase_after(phase, events.push(e)) == accept_step_spec(phase_after(phase, events), e).0,
        actions_of(phase, events.push(e)) == actions_of(phase, events).push(
            accept_step_spec(phase_after(phase, events), e).1,
        ),
    decreases events.len(),
{
    let snoc = events.push(e);
    if events.len() == 0 {
        let next = accept_step_spec(phase, e).0;
        assert(snoc[0] == e);
        assert(snoc.drop_first() =~= Seq::<AcceptEvent>::empty());
        assert(phase_after(next, snoc.drop_first()) == next);
        assert(actions_of(next, snoc.drop_first()) =~= Seq::<AcceptAction>::empty());
        assert(phase_after(phase, events) == phase);
        assert(actions_of(phase, events) =~= Seq::<AcceptAction>::empty());
        assert(actions_of(phase, snoc) =~= actions_of(phase, events).push(
            accept_step_spec(phase, e).1,
        ));
    } else {
        let next = accept_step_spec(phase, events[0]).0;
        assert(snoc[0] == events[0]);
        assert(snoc.drop_first() =~= events.drop_first().push(e));
        lemma_run_snoc(next, events.drop_first(), e);
        assert(phase_after(phase, snoc) == phase_after(next, events.drop_first().push(e)));
        assert(actions_of(phase, snoc) =~= actions_of(phase, events).push(
            accept_step_spec(phase_after(phase, events), e).1,
        ));
    }
}

/// Run the accept loop over a whole sequence of events, in arrival order:
/// the resulting phase and actions are exactly those of the transition
/// function folded over the trace, one action per event.
pub fn accept_run(events: &Vec<AcceptEvent>) -> (r: (ServerPhase, Vec<AcceptAction>))
    ensures
        r.0 == phase_after(ServerPhase::Listening, events@),
        r.1@ == actions_of(ServerPhase::Listening, events@),
{
    let mut phase = ServerPhase::Listening;
    let mut acts: Vec<AcceptAction> = Vec::new();
    let n = events.len();
    let mut i: usize = 0;
    while i < n
        invariant
            i <= n,
            n == events@.len(),
            phase == phase_after(ServerPhase::Listening, events@.take(i as int)),
            acts@ == actions_of(ServerPhase::Listening, events@.take(i as int)),
        decreases n - i,
    {
        proof {
            assert(events@.take(i + 1) =~= events@.take(i as int).push(events@[i as int]));
            lemma_run_snoc(ServerPhase::Listening, events@.take(i as int), events@[i as int]);
        }
        let (next, act) = accept_step(phase, events[i]);
        phase = next;
        acts.push(act);
        i += 1;
    }
    proof {
        assert(events@.take(n as int) =~= events@);
    }
    (phase, acts)
}

/// The process's exit status once the loop has stopped: 0 for the clean,
/// signal-triggered exit, 1 for the fatal acceptance failure.
pub fn process_exit_code(phase: ServerPhase) -> (code: i32)
    requires
        phase.is_stopped(),
    ensures
        code == 0 <==> phase is StoppedClean,
        code == 1 <==> phase is StoppedFatal,
{
    match phase {
        ServerPhase::StoppedClean => 0,
        _ => 1,
    }
}

} // verus!
