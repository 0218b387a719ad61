//! The guarantees the supervisor gives, proved over [`crate::supervisor::spec_run`].

use vstd::prelude::*;

use crate::supervisor::Action;
use crate::supervisor::Event;
use crate::supervisor::POST_SPAWN_DELAY_SECS;
use crate::supervisor::PRE_SPAWN_DELAY_SECS;
use crate::supervisor::SupervisorState;
use crate::supervisor::spec_run;
use crate::supervisor::spec_step;

verus! {

/// Every action of a complete, successful launch, in the order the driver is
/// asked to perform them.
pub open spec fn full_launch_actions() -> Seq<Action> {
    seq![
        Action::SleepPreSpawn(PRE_SPAWN_DELAY_SECS),
        Action::ResolveResourceDir,
        Action::SpawnBackend,
        Action::SleepPostSpawn(POST_SPAWN_DELAY_SECS),
        Action::AnnounceStarted,
        Action::WaitForExit,
    ]
}

/// The actions handed to the driver are a function of the state alone: each
/// phase has been reached over exactly one prefix of the launch sequence,
/// and an abort follows either the resolution request or the spawn request,
/// depending on which of the two failed.
pub open spec fn actions_match_state(state: SupervisorState, actions: Seq<Action>) -> bool {
    match state {
        SupervisorState::NotStarted => actions == Seq::<Action>::empty(),
        SupervisorState::WarmupDelay => actions == full_launch_actions().take(1),
        SupervisorState::ResolvingPath => actions == full_launch_actions().take(2),
        SupervisorState::Spawning => actions == full_launch_actions().take(3),
        SupervisorState::SpawnedWaitingReady => actions == full_launch_actions().take(4),
        SupervisorState::Running => actions == full_launch_actions(),
        SupervisorState::Exited => actions == full_launch_actions(),
        SupervisorState::Aborted => actions == full_launch_actions().take(2).push(
            Action::AbortApplication,
        ) || actions == full_launch_actions().take(3).push(Action::AbortApplication),
    }
}

/// Whatever events arrive, the actions the supervisor has asked of the
/// driver are exactly determined by the phase it has reached.
pub proof fn lemma_actions_match_state(events: Seq<Event>)
    ensures
        actions_match_state(spec_run(events).0, spec_run(events).1),
    decreases events.len(),
{
    if events.len() == 0 {
        assert(spec_run(events).1 =~= Seq::<Action>::empty());
    } else {
        let prefix = events.drop_last();
        lemma_actions_match_state(prefix);
        let before = spec_run(prefix);
        let stepped = spec_step(before.0, events.last());
        match (before.0, events.last()) {
            (SupervisorState::NotStarted, Event::StartRequested) => {
                assert(spec_run(events).1 =~= full_launch_actions().take(1));
            },
            (SupervisorState::WarmupDelay, Event::WarmupElapsed) => {
                assert(spec_run(events).1 =~= full_launch_actions().take(2));
            },
            (SupervisorState::ResolvingPath, Event::ResourceDirResolved) => {
                assert(spec_run(events).1 =~= full_launch_actions().take(3));
            },
            (SupervisorState::ResolvingPath, Event::ResourceDirUnavailable) => {
                assert(spec_run(events).1 =~= full_launch_actions().take(2).push(
                    Action::AbortApplication,
                ));
            },
            (SupervisorState::Spawning, Event::SpawnSucceeded) => {
                assert(spec_run(events).1 =~= full_launch_actions().take(4));
            },
            (SupervisorState::Spawning, Event::SpawnFailed) => {
                assert(spec_run(events).1 =~= full_launch_actions().take(3).push(
                    Action::AbortApplication,
                ));
            },
            (SupervisorState::SpawnedWaitingReady, Event::ReadyDelayElapsed) => {
                assert(spec_run(events).1 =~= full_launch_actions());
            },
            _ => {
                assert(stepped.1 == Seq::<Action>::empty());
                assert(spec_run(events).1 =~= before.1);
            },
        }
    }
}

/// The supervisor never asks for a second spawn: whatever events arrive, at
/// most one of the accumulated actions is a spawn request.
pub proof fn lemma_at_most_one_spawn(events: Seq<Event>)
    ensures
        forall|i: int, j: int|
            0 <= i < spec_run(events).1.len() && 0 <= j < spec_run(events).1.len() && spec_run(
                events,
            ).1[i] is SpawnBackend && spec_run(events).1[j] is SpawnBackend ==> i == j,
{
    lemma_actions_match_state(events);
    let actions = spec_run(events).1;
    assert forall|i: int| 0 <= i < actions.len() && actions[i] is SpawnBackend implies i == 2 by {
        assert(actions_match_state(spec_run(events).0, actions));
    }
}

/// The events of a launch in which the resource directory is found, the
/// spawn is accepted, and every delay elapses.
pub open spec fn successful_launch_events() -> Seq<Event> {
    seq![
        Event::StartRequested,
        Event::WarmupElapsed,
        Event::ResourceDirResolved,
        Event::SpawnSucceeded,
        Event::ReadyDelayElapsed,
    ]
}

/// With a resolvable resource directory and an accepted spawn, the
/// supervisor reaches its running phase having asked for exactly one spawn,
/// and for nothing beyond the launch sequence itself.
pub proof fn lemma_successful_launch()
    ensures
        spec_run(successful_launch_events()).0 == SupervisorState::Running,
        spec_run(successful_launch_events()).1 == full_launch_actions(),
        spec_run(successful_launch_events()).1[2] is SpawnBackend,
        forall|i: int|
            0 <= i < spec_run(successful_launch_events()).1.len() && spec_run(
                successful_launch_events(),
            ).1[i] is SpawnBackend ==> i == 2,
{
    let e5 = successful_launch_events();
    let e4 = seq![
        Event::StartRequested,
        Event::WarmupElapsed,
        Event::ResourceDirResolved,
        Event::SpawnSucceeded,
    ];
    let e3 = seq![Event::StartRequested, Event::WarmupElapsed, Event::ResourceDirResolved];
    let e2 = seq![Event::StartRequested, Event::WarmupElapsed];
    let e1 = seq![Event::StartRequested];
    let e0 = Seq::<Event>::empty();
    assert(e1.drop_last() =~= e0);
    assert(e2.drop_last() =~= e1);
    assert(e3.drop_last() =~= e2);
    assert(e4.drop_last() =~= e3);
    assert(e5.drop_last() =~= e4);
    assert(spec_run(e0).0 == SupervisorState::NotStarted);
    assert(spec_run(e1).0 == SupervisorState::WarmupDelay);
    assert(spec_run(e2).0 == SupervisorState::ResolvingPath);
    assert(spec_run(e3).0 == SupervisorState::Spawning);
    assert(spec_run(e4).0 == SupervisorState::SpawnedWaitingReady);
    assert(spec_run(e5).0 == SupervisorState::Running);
    lemma_actions_match_state(e5);
    lemma_at_most_one_spawn(e5);
}

/// A resource directory that cannot be resolved aborts the application
/// before any spawn is attempted: the abort is asked for at once, and no
/// accumulated action is a spawn request.
pub proof fn lemma_resolution_failure_aborts_before_spawn(events: Seq<Event>)
    requires
        forall|k: int| 0 <= k < events.len() ==> events[k] != Event::ResourceDirResolved,
    ensures
        spec_step(SupervisorState::ResolvingPath, Event::ResourceDirUnavailable).0
            == SupervisorState::Aborted,
        spec_step(SupervisorState::ResolvingPath, Event::ResourceDirUnavailable).1 == seq![
            Action::AbortApplication,
        ],
        forall|i: int|
            0 <= i < spec_run(events).1.len() ==> !(spec_run(events).1[i] is SpawnBackend),
    decreases events.len(),
{
    assert(spec_step(SupervisorState::ResolvingPath, Event::ResourceDirUnavailable).1 =~= seq![
        Action::AbortApplication,
    ]);
    if events.len() > 0 {
        let prefix = events.drop_last();
        assert(forall|k: int| 0 <= k < prefix.len() ==> prefix[k] == events[k]);
        lemma_resolution_failure_aborts_before_spawn(prefix);
        let before = spec_run(prefix);
        let stepped = spec_step(before.0, events.last());
        assert(events.last() != Event::ResourceDirResolved);
        assert(forall|i: int| 0 <= i < stepped.1.len() ==> !(stepped.1[i] is SpawnBackend));
        assert(spec_run(events).1 == before.1 + stepped.1);
    }
}

/// A spawn that never succeeds leaves nothing behind: the supervisor never
/// reaches a phase that holds a child handle, never announces a launch, and
/// never asks the driver to wait on a child. A rejected spawn aborts the
/// application at once.
pub proof fn lemma_spawn_failure_retains_no_child(events: Seq<Event>)
    requires
        forall|k: int| 0 <= k < events.len() ==> events[k] != Event::SpawnSucceeded,
    ensures
        spec_step(SupervisorState::Spawning, Event::SpawnFailed).0 == SupervisorState::Aborted,
        spec_step(SupervisorState::Spawning, Event::SpawnFailed).1 == seq![
            Action::AbortApplication,
        ],
        spec_run(events).0 != SupervisorState::SpawnedWaitingReady,
        spec_run(events).0 != SupervisorState::Running,
        spec_run(events).0 != SupervisorState::Exited,
        forall|i: int|
            0 <= i < spec_run(events).1.len() ==> !(spec_run(events).1[i] is WaitForExit) && !(
            spec_run(events).1[i] is AnnounceStarted),
    decreases events.len(),
{
    assert(spec_step(SupervisorState::Spawning, Event::SpawnFailed).1 =~= seq![
        Action::AbortApplication,
    ]);
    if events.len() > 0 {
        let prefix = events.drop_last();
        assert(forall|k: int| 0 <= k < prefix.len() ==> prefix[k] == events[k]);
        lemma_spawn_failure_retains_no_child(prefix);
        let before = spec_run(prefix);
        let stepped = spec_step(before.0, events.last());
        assert(events.last() != Event::SpawnSucceeded);
        assert(forall|i: int|
            0 <= i < stepped.1.len() ==> !(stepped.1[i] is WaitForExit) && !(
            stepped.1[i] is AnnounceStarted));
        assert(spec_run(events).1 == before.1 + stepped.1);
    }
}

/// The number of seconds the driver has been asked to sleep over `actions`.
pub open spec fn total_sleep_secs(actions: Seq<Action>) -> int
    decreases actions.len(),
{
    if actions.len() == 0 {
        0
    } else {
        total_sleep_secs(actions.drop_last()) + (match actions.last() {
            Action::SleepPreSpawn(secs) => secs as int,
            Action::SleepPostSpawn(secs) => secs as int,
            _ => 0,
        })
    }
}

/// Wherever the launch announcement stands among the accumulated actions,
/// the pre-spawn sleep came first, then the spawn request, then the
/// post-spawn sleep, and the seconds the driver was asked to sleep before
/// the announcement total exactly the two fixed delays.
pub proof fn lemma_delays_precede_announcement(events: Seq<Event>)
    ensures
        forall|k: int|
            0 <= k < spec_run(events).1.len() && spec_run(events).1[k] is AnnounceStarted ==> k == 4
                && spec_run(events).1[0] == Action::SleepPreSpawn(PRE_SPAWN_DELAY_SECS) && spec_run(
                events,
            ).1[2] is SpawnBackend && spec_run(events).1[3] == Action::SleepPostSpawn(
                POST_SPAWN_DELAY_SECS,
            ) && total_sleep_secs(spec_run(events).1.take(k)) == PRE_SPAWN_DELAY_SECS
                + POST_SPAWN_DELAY_SECS,
{
    lemma_actions_match_state(events);
    let actions = spec_run(events).1;
    assert forall|k: int|
        0 <= k < actions.len() && actions[k] is AnnounceStarted implies k == 4 && actions[0]
        == Action::SleepPreSpawn(PRE_SPAWN_DELAY_SECS) && actions[2] is SpawnBackend && actions[3]
        == Action::SleepPostSpawn(POST_SPAWN_DELAY_SECS) && total_sleep_secs(actions.take(k))
        == PRE_SPAWN_DELAY_SECS + POST_SPAWN_DELAY_SECS by {
        assert(actions_match_state(spec_run(events).0, actions));
        assert(actions == full_launch_actions());
        let t4 = actions.take(4);
        let t3 = actions.take(3);
        let t2 = actions.take(2);
        let t1 = actions.take(1);
        let t0 = Seq::<Action>::empty();
        assert(t1.drop_last() =~= t0);
        assert(t2.drop_last() =~= t1);
        assert(t3.drop_last() =~= t2);
        assert(t4.drop_last() =~= t3);
        assert(total_sleep_secs(t0) == 0);
        assert(total_sleep_secs(t1) == PRE_SPAWN_DELAY_SECS);
        assert(total_sleep_secs(t2) == PRE_SPAWN_DELAY_SECS);
        assert(total_sleep_secs(t3) == PRE_SPAWN_DELAY_SECS);
        assert(total_sleep_secs(t4) == PRE_SPAWN_DELAY_SECS + POST_SPAWN_DELAY_SECS);
    }
}

/// How far along its life the supervisor is; the two terminal phases rank
/// highest.
pub open spec fn phase_rank(state: SupervisorState) -> int {
    match state {
        SupervisorState::NotStarted => 0,
        SupervisorState::WarmupDelay => 1,
        SupervisorState::ResolvingPath => 2,
        SupervisorState::Spawning => 3,
        SupervisorState::SpawnedWaitingReady => 4,
        SupervisorState::Running => 5,
        SupervisorState::Exited => 6,
        SupervisorState::Aborted => 6,
    }
}

/// No transition returns to an earlier phase: there is no restart path, and
/// the two terminal phases are never left, nor is anything further asked of
/// the driver there.
pub proof fn lemma_no_transition_backward()
    ensures
        forall|state: SupervisorState, event: Event|
            phase_rank(#[trigger] spec_step(state, event).0) >= phase_rank(state),
        forall|event: Event|
            spec_step(SupervisorState::Exited, event) == (
                SupervisorState::Exited,
                Seq::<Action>::empty(),
            ),
        forall|event: Event|
            spec_step(SupervisorState::Aborted, event) == (
                SupervisorState::Aborted,
                Seq::<Action>::empty(),
            ),
{
}

} // verus!
