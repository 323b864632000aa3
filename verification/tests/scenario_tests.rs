//! End-to-end runs of the supervisor core, with the test standing in for
//! the asynchronous shell: it applies every effect by hand and feeds the
//! outcomes back as events.

use taskwarden::guard::GuardEffect;
use taskwarden::guard::GuardEvent;
use taskwarden::guard::GuardState;
use taskwarden::guard::TaskStatus;
use taskwarden::sched::SchedEffect;
use taskwarden::sched::Scheduler;
use taskwarden::store::TaskStore;
use taskwarden::task::Task;
use taskwarden::task::Trigger;

fn new_task(program: &str, trigger: Trigger) -> Task {
    Task {
        id: None,
        name: "scenario".to_string(),
        program: program.to_string(),
        args: vec![],
        stdin: None,
        stdout: None,
        stderr: None,
        working_dir: None,
        env_vars: vec![],
        no_console: false,
        trigger,
        enabled: true,
        last_exit_code: None,
        last_run_at: None,
    }
}

/// Apply guard effects the way the shell would, with every spawn
/// succeeding: record the launch instant, "spawn", and report the outcome.
fn apply_guard_effects(
    guard: &mut GuardState,
    store: &mut TaskStore,
    id: i64,
    effects: Vec<GuardEffect>,
    now: i64,
) {
    for effect in effects {
        match effect {
            GuardEffect::Launch => {
                let _ = store.update_task_run_at(id, now);
                guard.note_launch_result(true);
            },
            GuardEffect::RecordExit(code) => {
                let _ = store.update_task_exit_code(id, code);
            },
            GuardEffect::Kill | GuardEffect::KillAndRecord | GuardEffect::Reply(_) => {},
        }
    }
}

#[test]
fn keepalive_crash_loop_suspends_and_manual_run_revives() {
    // Create the task through the scheduler, as the user interface would.
    let (mut sched, _) = Scheduler::bind(TaskStore::new());
    let (result, effects) = sched.save_task(&new_task("/bin/false", Trigger::KeepAlive));
    let id = result.unwrap();
    let task = match effects.into_iter().last() {
        Some(SchedEffect::SpawnGuard(t)) => t,
        other => panic!("expected a spawn effect, got {:?}", other),
    };

    // Spawn the guard; a KeepAlive task launches at once.
    let mut now = 10_000;
    let (mut guard, effects) = GuardState::new(task, now);
    assert_eq!(effects, vec![GuardEffect::Launch]);
    apply_guard_effects(&mut guard, &mut sched.store, id, effects, now);
    assert_eq!(guard.status(), TaskStatus::Running);

    // The program exits with code 1 over and over, all within the window.
    // Each of the first five failures is recorded and relaunched, the
    // status swinging Running -> Idle -> Running.
    for _ in 0..5 {
        now += 100;
        let effects = guard.handle(GuardEvent::ProcessExit(1), now);
        assert_eq!(effects[0], GuardEffect::RecordExit(1));
        assert_eq!(guard.status(), TaskStatus::Idle);
        apply_guard_effects(&mut guard, &mut sched.store, id, effects, now);
        assert_eq!(guard.status(), TaskStatus::Running);
        assert_eq!(sched.store.get_task(id).unwrap().last_exit_code, Some(1));
        assert_eq!(sched.store.get_task(id).unwrap().last_run_at, Some(now));
    }

    // The sixth rapid failure latches suspension: no relaunch any more.
    now += 100;
    let effects = guard.handle(GuardEvent::ProcessExit(1), now);
    assert_eq!(effects, vec![GuardEffect::RecordExit(1)]);
    apply_guard_effects(&mut guard, &mut sched.store, id, effects, now);
    assert_eq!(guard.status(), TaskStatus::Suspended);
    assert_eq!(sched.store.get_task(id).unwrap().last_exit_code, Some(1));

    // The status stays Suspended until an explicit run request resets the
    // detector and launches again.
    let forwards = sched.manually_run_task(id);
    assert_eq!(forwards.len(), 1);
    now += 1_000;
    let effects = guard.handle(GuardEvent::RunTaskManually, now);
    assert_eq!(effects, vec![GuardEffect::Launch]);
    apply_guard_effects(&mut guard, &mut sched.store, id, effects, now);
    assert_eq!(guard.status(), TaskStatus::Running);
}

#[test]
fn instant_task_fires_once_at_its_moment() {
    let (mut sched, _) = Scheduler::bind(TaskStore::new());
    let now = 1_000_000;
    let at = now + 2_000;
    let (result, effects) = sched.save_task(&new_task("/bin/true", Trigger::Instant(at)));
    let id = result.unwrap();
    let task = match effects.into_iter().last() {
        Some(SchedEffect::SpawnGuard(t)) => t,
        other => panic!("expected a spawn effect, got {:?}", other),
    };

    // Immediately after creation the task is idle, with the one-shot timer
    // armed at the requested instant.
    let (mut guard, effects) = GuardState::new(task, now);
    assert!(effects.is_empty());
    assert_eq!(guard.status(), TaskStatus::Idle);
    assert_eq!(guard.instant_at, Some(at));

    // At (approximately) the instant, the timer fires and the task runs.
    let effects = guard.handle(GuardEvent::InstantFire, at);
    assert_eq!(effects, vec![GuardEffect::Launch]);
    apply_guard_effects(&mut guard, &mut sched.store, id, effects, at);
    assert_eq!(guard.status(), TaskStatus::Running);
    assert_eq!(sched.store.get_task(id).unwrap().last_run_at, Some(at));

    // A near-instant program exits at once; the task goes back to Idle and
    // is never relaunched.
    let effects = guard.handle(GuardEvent::ProcessExit(0), at + 10);
    assert_eq!(effects, vec![GuardEffect::RecordExit(0)]);
    apply_guard_effects(&mut guard, &mut sched.store, id, effects, at + 10);
    assert_eq!(guard.status(), TaskStatus::Idle);
    assert_eq!(guard.instant_at, None);
    assert_eq!(sched.store.get_task(id).unwrap().last_exit_code, Some(0));

    // Were the guard respawned later (say at the next application start),
    // the recorded run keeps the spent instant from re-arming.
    let stored = sched.store.get_task(id).unwrap();
    let (guard, effects) = GuardState::new(stored, at + 60_000);
    assert!(effects.is_empty());
    assert_eq!(guard.instant_at, None);
}

#[test]
fn shutdown_closes_every_guard() {
    let (mut sched, _) = Scheduler::bind(TaskStore::new());
    let (result, effects) = sched.save_task(&new_task("/bin/sleep", Trigger::Startup));
    let id = result.unwrap();
    let task = match effects.into_iter().last() {
        Some(SchedEffect::SpawnGuard(t)) => t,
        other => panic!("expected a spawn effect, got {:?}", other),
    };
    let (mut guard, effects) = GuardState::new(task, 0);
    apply_guard_effects(&mut guard, &mut sched.store, id, effects, 0);
    assert_eq!(guard.status(), TaskStatus::Running);

    let effects = sched.close();
    assert!(matches!(
        effects[0],
        SchedEffect::AllGuards(taskwarden::sched::GuardCtl::Close)
    ));
    let effects = guard.handle(GuardEvent::Close, 50);
    assert_eq!(effects, vec![GuardEffect::KillAndRecord]);
    assert!(guard.done);
}
