//! The supervisor's state machine: states, events, actions, and the
//! transition function.

use vstd::prelude::*;

verus! {

/// Seconds slept before the resource directory is resolved, giving the host
/// shell time to finish its own startup.
pub const PRE_SPAWN_DELAY_SECS: u64 = 1;

/// Seconds slept after the backend has been spawned, as a blind warm-up
/// interval in place of a readiness check.
pub const POST_SPAWN_DELAY_SECS: u64 = 2;

/// The phases of the supervisor's life, in the order they are entered.
/// No transition leads back to an earlier phase: the launch happens once.
#[derive(Clone, Copy, Debug, PartialEq, Eq, Structural)]
pub enum SupervisorState {
    /// Nothing has happened yet.
    NotStarted,
    /// Sleeping before the resource directory is resolved.
    WarmupDelay,
    /// Waiting for the resource directory resolution to come back.
    ResolvingPath,
    /// Waiting for the outcome of the spawn attempt.
    Spawning,
    /// The child is running; sleeping while it warms up.
    SpawnedWaitingReady,
    /// The launch has been announced; waiting for the child to exit.
    Running,
    /// The child has exited; the supervisor is done.
    Exited,
    /// Resolution or spawning failed; the whole application is aborting.
    Aborted,
}

/// What the driver reports back to the state machine.
#[derive(Clone, Copy, Debug, PartialEq, Eq, Structural)]
pub enum Event {
    /// The host shell finished its own initialization and started the
    /// supervisor.
    StartRequested,
    /// The pre-spawn sleep elapsed.
    WarmupElapsed,
    /// The bundled resource directory was found.
    ResourceDirResolved,
    /// The bundled resource directory could not be located.
    ResourceDirUnavailable,
    /// The operating system accepted the spawn.
    SpawnSucceeded,
    /// The operating system rejected the spawn.
    SpawnFailed,
    /// The post-spawn warm-up sleep elapsed.
    ReadyDelayElapsed,
    /// The child process terminated.
    ChildExited,
}

/// What the state machine asks the driver to do next.
#[derive(Clone, Copy, Debug, PartialEq, Eq, Structural)]
pub enum Action {
    /// Sleep for the given number of seconds, then report
    /// [`Event::WarmupElapsed`].
    SleepPreSpawn(u64),
    /// Locate the bundled resource directory and report whether it was found.
    ResolveResourceDir,
    /// Launch the backend with the command that
    /// [`crate::command::backend_command`] builds from the resolved
    /// directory, and report the outcome.
    SpawnBackend,
    /// Sleep for the given number of seconds, then report
    /// [`Event::ReadyDelayElapsed`].
    SleepPostSpawn(u64),
    /// Emit the single informational launch message.
    AnnounceStarted,
    /// Block until the child exits, discard its status, and report
    /// [`Event::ChildExited`].
    WaitForExit,
    /// Terminate the whole application abnormally.
    AbortApplication,
}

/// The transition relation of the supervisor. Each step maps the current
/// state and an incoming event to the next state and the actions the driver
/// must perform, in order. An event that does not belong to the current
/// state is ignored: the state is kept and nothing is asked of the driver.
pub open spec fn spec_step(state: SupervisorState, event: Event) -> (SupervisorState, Seq<
    Action,
>) {
    match (state, event) {
        (SupervisorState::NotStarted, Event::StartRequested) => (
            SupervisorState::WarmupDelay,
            seq![Action::SleepPreSpawn(PRE_SPAWN_DELAY_SECS)],
        ),
        (SupervisorState::WarmupDelay, Event::WarmupElapsed) => (
            SupervisorState::ResolvingPath,
            seq![Action::ResolveResourceDir],
        ),
        (SupervisorState::ResolvingPath, Event::ResourceDirResolved) => (
            SupervisorState::Spawning,
            seq![Action::SpawnBackend],
        ),
        (SupervisorState::ResolvingPath, Event::ResourceDirUnavailable) => (
            SupervisorState::Aborted,
            seq![Action::AbortApplication],
        ),
        (SupervisorState::Spawning, Event::SpawnSucceeded) => (
            SupervisorState::SpawnedWaitingReady,
            seq![Action::SleepPostSpawn(POST_SPAWN_DELAY_SECS)],
        ),
        (SupervisorState::Spawning, Event::SpawnFailed) => (
            SupervisorState::Aborted,
            seq![Action::AbortApplication],
        ),
        (SupervisorState::SpawnedWaitingReady, Event::ReadyDelayElapsed) => (
            SupervisorState::Running,
            seq![Action::AnnounceStarted, Action::WaitForExit],
        ),
        (SupervisorState::Running, Event::ChildExited) => (
            SupervisorState::Exited,
            Seq::<Action>::empty(),
        ),
        _ => (state, Seq::<Action>::empty()),
    }
}

/// The state the supervisor is in before any event has been handled.
pub open spec fn spec_initial_state() -> SupervisorState {
    SupervisorState::NotStarted
}

/// The state and the accumulated actions after handling `events` in order,
/// starting from the initial state.
pub open spec fn spec_run(events: Seq<Event>) -> (SupervisorState, Seq<Action>)
    decreases events.len(),
{
    if events.len() == 0 {
        (spec_initial_state(), Seq::<Action>::empty())
    } else {
        let before = spec_run(events.drop_last());
        let stepped = spec_step(before.0, events.last());
        (stepped.0, before.1 + stepped.1)
    }
}

/// The state in which a freshly built supervisor starts.
pub fn initial_state() -> (state: SupervisorState)
    ensures
        state == spec_initial_state(),
{
    SupervisorState::NotStarted
}

/// Handles one event: returns the next state and the actions the driver must
/// perform, in order, exactly as [`spec_step`] prescribes.
pub fn step(state: SupervisorState, event: Event) -> (r: (SupervisorState, Vec<Action>))
    ensures
        r.0 == spec_step(state, event).0,
        r.1@ == spec_step(state, event).1,
{
    let mut actions: Vec<Action> = Vec::new();
    let next: SupervisorState = match (state, event) {
        (SupervisorState::NotStarted, Event::StartRequested) => {
            actions.push(Action::SleepPreSpawn(PRE_SPAWN_DELAY_SECS));
            SupervisorState::WarmupDelay
        },
        (SupervisorState::WarmupDelay, Event::WarmupElapsed) => {
            actions.push(Action::ResolveResourceDir);
            SupervisorState::ResolvingPath
        },
        (SupervisorState::ResolvingPath, Event::ResourceDirResolved) => {
            actions.push(Action::SpawnBackend);
            SupervisorState::Spawning
        },
        (SupervisorState::ResolvingPath, Event::ResourceDirUnavailable) => {
            actions.push(Action::AbortApplication);
            SupervisorState::Aborted
        },
        (SupervisorState::Spawning, Event::SpawnSucceeded) => {
            actions.push(Action::SleepPostSpawn(POST_SPAWN_DELAY_SECS));
            SupervisorState::SpawnedWaitingReady
        },
        (SupervisorState::Spawning, Event::SpawnFailed) => {
            actions.push(Action::AbortApplication);
            SupervisorState::Aborted
        },
        (SupervisorState::SpawnedWaitingReady, Event::ReadyDelayElapsed) => {
            actions.push(Action::AnnounceStarted);
            actions.push(Action::WaitForExit);
            SupervisorState::Running
        },
        (SupervisorState::Running, Event::ChildExited) => SupervisorState::Exited,
        _ => state,
    };
    proof {
        assert(actions@ =~= spec_step(state, event).1);
    }
    (next, actions)
}

/// Handles a whole sequence of events, starting from the initial state, and
/// returns the final state together with every action that was asked of the
/// driver, in order: exactly what [`spec_run`] prescribes.
pub fn run_supervisor(events: &Vec<Event>) -> (r: (SupervisorState, Vec<Action>))
    ensures
        r.0 == spec_run(events@).0,
        r.1@ == spec_run(events@).1,
{
    let mut state: SupervisorState = initial_state();
    let mut actions: Vec<Action> = Vec::new();
    let mut i: usize = 0;
    proof {
        assert(events@.take(0) =~= Seq::<Event>::empty());
    }
    while i < events.len()
        invariant
            i <= events@.len(),
            state == spec_run(events@.take(i as int)).0,
            actions@ == spec_run(events@.take(i as int)).1,
        decreases events@.len() - i,
    {
        let (next, mut stepped) = step(state, events[i]);
        proof {
            let taken = events@.take(i + 1);
            assert(taken.drop_last() =~= events@.take(i as int));
            assert(taken.last() == events@[i as int]);
        }
        state = next;
        actions.append(&mut stepped);
        i = i + 1;
    }
    proof {
        assert(events@.take(events@.len() as int) =~= events@);
    }
    (state, actions)
}

} // verus!
