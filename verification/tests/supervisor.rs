use backend_supervisor::supervisor::Action;
use backend_supervisor::supervisor::Event;
use backend_supervisor::supervisor::SupervisorState;
use backend_supervisor::supervisor::POST_SPAWN_DELAY_SECS;
use backend_supervisor::supervisor::PRE_SPAWN_DELAY_SECS;
use backend_supervisor::supervisor::initial_state;
use backend_supervisor::supervisor::run_supervisor;
use backend_supervisor::supervisor::step;

fn successful_launch_events() -> Vec<Event> {
    vec![
        Event::StartRequested,
        Event::WarmupElapsed,
        Event::ResourceDirResolved,
        Event::SpawnSucceeded,
        Event::ReadyDelayElapsed,
    ]
}

#[test]
fn initial_state_is_not_started() {
    assert_eq!(initial_state(), SupervisorState::NotStarted);
}

#[test]
fn start_schedules_the_pre_spawn_sleep() {
    let (state, actions) = step(SupervisorState::NotStarted, Event::StartRequested);
    assert_eq!(state, SupervisorState::WarmupDelay);
    assert_eq!(actions, vec![Action::SleepPreSpawn(PRE_SPAWN_DELAY_SECS)]);
}

#[test]
fn successful_launch_spawns_exactly_once() {
    let events = successful_launch_events();
    let (state, actions) = run_supervisor(&events);
    assert_eq!(state, SupervisorState::Running);
    let spawns = actions
        .iter()
        .filter(|action| matches!(action, Action::SpawnBackend))
        .count();
    assert_eq!(spawns, 1);
    assert_eq!(
        actions,
        vec![
            Action::SleepPreSpawn(PRE_SPAWN_DELAY_SECS),
            Action::ResolveResourceDir,
            Action::SpawnBackend,
            Action::SleepPostSpawn(POST_SPAWN_DELAY_SECS),
            Action::AnnounceStarted,
            Action::WaitForExit,
        ]
    );
}

#[test]
fn resolution_failure_aborts_before_any_spawn() {
    let events = vec![
        Event::StartRequested,
        Event::WarmupElapsed,
        Event::ResourceDirUnavailable,
    ];
    let (state, actions) = run_supervisor(&events);
    assert_eq!(state, SupervisorState::Aborted);
    assert_eq!(actions.last(), Some(&Action::AbortApplication));
    assert!(actions
        .iter()
        .all(|action| !matches!(action, Action::SpawnBackend)));
}

#[test]
fn spawn_failure_aborts_and_retains_no_child() {
    let events = vec![
        Event::StartRequested,
        Event::WarmupElapsed,
        Event::ResourceDirResolved,
        Event::SpawnFailed,
    ];
    let (state, actions) = run_supervisor(&events);
    assert_eq!(state, SupervisorState::Aborted);
    assert_eq!(actions.last(), Some(&Action::AbortApplication));
    assert!(actions
        .iter()
        .all(|action| !matches!(action, Action::WaitForExit)));
    assert!(actions
        .iter()
        .all(|action| !matches!(action, Action::AnnounceStarted)));
}

#[test]
fn delays_come_in_order_and_total_the_two_constants() {
    let events = successful_launch_events();
    let (_, actions) = run_supervisor(&events);
    let pre = actions
        .iter()
        .position(|action| matches!(action, Action::SleepPreSpawn(_)))
        .unwrap();
    let spawn = actions
        .iter()
        .position(|action| matches!(action, Action::SpawnBackend))
        .unwrap();
    let post = actions
        .iter()
        .position(|action| matches!(action, Action::SleepPostSpawn(_)))
        .unwrap();
    let announce = actions
        .iter()
        .position(|action| matches!(action, Action::AnnounceStarted))
        .unwrap();
    assert!(pre < spawn);
    assert!(spawn < post);
    assert!(post < announce);
    let slept: u64 = actions[..announce]
        .iter()
        .map(|action| match action {
            Action::SleepPreSpawn(secs) => *secs,
            Action::SleepPostSpawn(secs) => *secs,
            _ => 0,
        })
        .sum();
    assert!(slept >= PRE_SPAWN_DELAY_SECS + POST_SPAWN_DELAY_SECS);
    assert_eq!(slept, 3);
}

#[test]
fn child_exit_completes_the_supervisor() {
    let mut events = successful_launch_events();
    events.push(Event::ChildExited);
    let (state, actions) = run_supervisor(&events);
    assert_eq!(state, SupervisorState::Exited);
    assert_eq!(actions.len(), 6);
    let (after, further) = step(state, Event::StartRequested);
    assert_eq!(after, SupervisorState::Exited);
    assert!(further.is_empty());
}

#[test]
fn aborted_is_terminal() {
    let (state, actions) = step(SupervisorState::Aborted, Event::SpawnSucceeded);
    assert_eq!(state, SupervisorState::Aborted);
    assert!(actions.is_empty());
}

#[test]
fn unexpected_events_are_ignored() {
    let (state, actions) = step(SupervisorState::NotStarted, Event::ChildExited);
    assert_eq!(state, SupervisorState::NotStarted);
    assert!(actions.is_empty());
    let (state, actions) = step(SupervisorState::WarmupDelay, Event::ReadyDelayElapsed);
    assert_eq!(state, SupervisorState::WarmupDelay);
    assert!(actions.is_empty());
}

#[test]
fn no_events_leave_the_supervisor_untouched() {
    let events: Vec<Event> = vec![];
    let (state, actions) = run_supervisor(&events);
    assert_eq!(state, SupervisorState::NotStarted);
    assert!(actions.is_empty());
}

#[test]
fn fixed_delays_have_the_documented_lengths() {
    assert_eq!(PRE_SPAWN_DELAY_SECS, 1);
    assert_eq!(POST_SPAWN_DELAY_SECS, 2);
}
