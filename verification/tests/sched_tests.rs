use taskwarden::error::ErrorKind;
use taskwarden::sched::GuardCtl;
use taskwarden::sched::SchedEffect;
use taskwarden::sched::Scheduler;
use taskwarden::store::TaskStore;
use taskwarden::task::Task;
use taskwarden::task::Trigger;

fn plain_task(name: &str) -> Task {
    Task {
        id: None,
        name: name.to_string(),
        program: "/bin/true".to_string(),
        args: vec![],
        stdin: None,
        stdout: None,
        stderr: None,
        working_dir: None,
        env_vars: vec![],
        no_console: false,
        trigger: Trigger::Manual,
        enabled: true,
        last_exit_code: None,
        last_run_at: None,
    }
}

#[test]
fn bind_spawns_one_guard_per_stored_task() {
    let mut store = TaskStore::new();
    let a = store.save_task(&plain_task("a")).unwrap();
    let b = store.save_task(&plain_task("b")).unwrap();
    let (sched, effects) = Scheduler::bind(store);
    assert_eq!(effects.len(), 2);
    let mut spawned: Vec<i64> = effects
        .iter()
        .map(|e| match e {
            SchedEffect::SpawnGuard(t) => t.id.unwrap(),
            other => panic!("unexpected effect {:?}", other),
        })
        .collect();
    spawned.sort();
    assert_eq!(spawned, vec![a, b]);
    assert!(sched.task_status(a).is_ok());
    assert!(sched.task_status(b).is_ok());
}

#[test]
fn save_assigns_id_and_spawns_guard() {
    let (mut sched, effects) = Scheduler::bind(TaskStore::new());
    assert!(effects.is_empty());
    let (result, effects) = sched.save_task(&plain_task("new"));
    let id = result.unwrap();
    assert_eq!(effects.len(), 1);
    match &effects[0] {
        SchedEffect::SpawnGuard(t) => {
            assert_eq!(t.id, Some(id));
            assert!(t.enabled);
            assert_eq!(t.name, "new");
        },
        other => panic!("unexpected effect {:?}", other),
    }
}

#[test]
fn resave_tears_down_the_old_guard_first() {
    let (mut sched, _) = Scheduler::bind(TaskStore::new());
    let (result, _) = sched.save_task(&plain_task("job"));
    let id = result.unwrap();
    let mut edit = plain_task("job renamed");
    edit.id = Some(id);
    let (result, effects) = sched.save_task(&edit);
    assert_eq!(result.unwrap(), id);
    assert_eq!(effects.len(), 2);
    assert!(matches!(effects[0], SchedEffect::Guard(i, GuardCtl::RemoveTask) if i == id));
    match &effects[1] {
        SchedEffect::SpawnGuard(t) => assert_eq!(t.name, "job renamed"),
        other => panic!("unexpected effect {:?}", other),
    }
}

#[test]
fn save_of_unknown_id_changes_nothing() {
    let (mut sched, _) = Scheduler::bind(TaskStore::new());
    let mut t = plain_task("ghost");
    t.id = Some(42);
    let (result, effects) = sched.save_task(&t);
    let e = result.unwrap_err();
    assert!(matches!(e.kind(), ErrorKind::Db));
    assert!(effects.is_empty());
    assert!(sched.store.get_task(42).is_none());
}

#[test]
fn remove_task_reaches_guard_store_and_status() {
    let (mut sched, _) = Scheduler::bind(TaskStore::new());
    let (result, _) = sched.save_task(&plain_task("gone"));
    let id = result.unwrap();
    let effects = sched.remove_task(id);
    assert_eq!(effects.len(), 1);
    assert!(matches!(effects[0], SchedEffect::Guard(i, GuardCtl::RemoveTask) if i == id));
    // The repository no longer holds the task, and a status query is an
    // error: no guard is live for the identifier.
    assert!(sched.store.get_task(id).is_none());
    let e = sched.task_status(id).unwrap_err();
    assert!(matches!(e.kind(), ErrorKind::Io));
}

#[test]
fn removing_unknown_task_is_quiet() {
    let (mut sched, _) = Scheduler::bind(TaskStore::new());
    let effects = sched.remove_task(5);
    assert!(effects.is_empty());
}

#[test]
fn manual_run_is_forwarded_only_to_live_guards() {
    let (mut sched, _) = Scheduler::bind(TaskStore::new());
    let (result, _) = sched.save_task(&plain_task("m"));
    let id = result.unwrap();
    let effects = sched.manually_run_task(id);
    assert_eq!(effects.len(), 1);
    assert!(matches!(effects[0], SchedEffect::Guard(i, GuardCtl::RunTaskManually) if i == id));
    assert!(sched.manually_run_task(id + 1).is_empty());
}

#[test]
fn switch_task_updates_guard_and_store_independently() {
    let (mut sched, _) = Scheduler::bind(TaskStore::new());
    let (result, _) = sched.save_task(&plain_task("s"));
    let id = result.unwrap();
    let effects = sched.switch_task(id, false);
    assert_eq!(effects.len(), 1);
    assert!(matches!(effects[0], SchedEffect::Guard(i, GuardCtl::SwitchTask(false)) if i == id));
    assert!(!sched.store.get_task(id).unwrap().enabled);
    // With no guard and no row, switching is a best-effort no-op.
    assert!(sched.switch_task(id + 1, true).is_empty());
}

#[test]
fn stop_task_is_forwarded() {
    let (mut sched, _) = Scheduler::bind(TaskStore::new());
    let (result, _) = sched.save_task(&plain_task("s"));
    let id = result.unwrap();
    let effects = sched.stop_task(id);
    assert_eq!(effects.len(), 1);
    assert!(matches!(effects[0], SchedEffect::Guard(i, GuardCtl::StopTask) if i == id));
}

#[test]
fn status_query_without_guard_is_an_error() {
    let (sched, _) = Scheduler::bind(TaskStore::new());
    let e = sched.task_status(1).unwrap_err();
    assert!(matches!(e.kind(), ErrorKind::Io));
    assert_eq!(e.render(), "io error: failed to receive from guard");
}

#[test]
fn close_broadcasts_and_stops_accepting() {
    let (mut sched, _) = Scheduler::bind(TaskStore::new());
    sched.save_task(&plain_task("x")).0.unwrap();
    let effects = sched.close();
    assert_eq!(effects.len(), 1);
    assert!(matches!(effects[0], SchedEffect::AllGuards(GuardCtl::Close)));
    assert!(sched.closed);
}

#[test]
fn refresh_connection_swaps_store_and_broadcasts() {
    let (mut sched, _) = Scheduler::bind(TaskStore::new());
    sched.save_task(&plain_task("old")).0.unwrap();
    let mut other = TaskStore::new();
    let nid = other.save_task(&plain_task("fresh")).unwrap();
    let effects = sched.refresh_connection(other);
    assert_eq!(effects.len(), 1);
    assert!(matches!(effects[0], SchedEffect::AllGuards(GuardCtl::Reconnect)));
    assert_eq!(sched.store.get_task(nid).unwrap().name, "fresh");
}
