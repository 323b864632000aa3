use taskwarden::record::TaskRecord;
use taskwarden::task::Task;
use taskwarden::task::Trigger;

fn record_with(tag: &str, content: Option<&str>, args: &str) -> TaskRecord {
    TaskRecord {
        id: 3,
        name: "n".to_string(),
        program: "/bin/cat".to_string(),
        args: args.to_string(),
        stdin: None,
        stdout: None,
        stderr: None,
        working_dir: None,
        env_vars: vec![],
        no_console: false,
        enabled: true,
        trigger_tag: tag.to_string(),
        trigger_content: content.map(|c| c.to_string()),
        last_exit_code: Some(0),
        last_run_at: Some(77),
    }
}

#[test]
fn args_json_is_parsed_not_passed_through() {
    // The stored text is JSON; decoding must parse it, not hand the raw
    // text back.
    let t = Task::from_record(&record_with("Manual", None, "[\"a\",\"b c\"]"));
    assert_eq!(t.args, vec!["a".to_string(), "b c".to_string()]);
}

#[test]
fn unparsable_args_decode_to_none_at_all() {
    let t = Task::from_record(&record_with("Manual", None, "not json"));
    assert!(t.args.is_empty());
}

#[test]
fn trigger_tags_decode() {
    let t = Task::from_record(&record_with("Routine", Some("2500"), "[]"));
    assert_eq!(t.trigger, Trigger::Routine(2_500));
    let t = Task::from_record(&record_with("Instant", Some("-5"), "[]"));
    assert_eq!(t.trigger, Trigger::Instant(-5));
    let t = Task::from_record(&record_with("Startup", None, "[]"));
    assert_eq!(t.trigger, Trigger::Startup);
    let t = Task::from_record(&record_with("KeepAlive", None, "[]"));
    assert_eq!(t.trigger, Trigger::KeepAlive);
    let t = Task::from_record(&record_with("UntilSucceed", None, "[]"));
    assert_eq!(t.trigger, Trigger::UntilSucceed);
}

#[test]
fn unknown_or_broken_triggers_fall_back_to_manual() {
    assert_eq!(
        Task::from_record(&record_with("Weekly", None, "[]")).trigger,
        Trigger::Manual
    );
    assert_eq!(
        Task::from_record(&record_with("Routine", None, "[]")).trigger,
        Trigger::Manual
    );
    assert_eq!(
        Task::from_record(&record_with("Routine", Some("soon"), "[]")).trigger,
        Trigger::Manual
    );
    assert_eq!(
        Task::from_record(&record_with("Instant", Some("-"), "[]")).trigger,
        Trigger::Manual
    );
}

#[test]
fn encode_then_decode_gives_the_task_back() {
    let task = Task {
        id: None,
        name: "round".to_string(),
        program: "/bin/sh".to_string(),
        args: vec!["-c".to_string(), "echo \"quoted\"".to_string()],
        stdin: None,
        stdout: Some("/tmp/log".to_string()),
        stderr: None,
        working_dir: Some("/".to_string()),
        env_vars: vec![("A".to_string(), "1".to_string())],
        no_console: false,
        trigger: Trigger::Instant(1_800_000_000_000),
        enabled: false,
        last_exit_code: Some(1),
        last_run_at: None,
    };
    let rec = TaskRecord::from_task(&task, 9, true, None, Some(4));
    assert_eq!(rec.id, 9);
    assert_eq!(rec.trigger_tag, "Instant");
    assert!(rec.enabled);
    assert_eq!(rec.last_exit_code, None);
    assert_eq!(rec.last_run_at, Some(4));

    let back = Task::from_record(&rec);
    assert_eq!(back.id, Some(9));
    assert_eq!(back.name, task.name);
    assert_eq!(back.program, task.program);
    assert_eq!(back.args, task.args);
    assert_eq!(back.stdout, task.stdout);
    assert_eq!(back.working_dir, task.working_dir);
    assert_eq!(back.env_vars, task.env_vars);
    assert_eq!(back.trigger, task.trigger);
    // The repository-owned fields are the ones given at encoding time.
    assert!(back.enabled);
    assert_eq!(back.last_exit_code, None);
    assert_eq!(back.last_run_at, Some(4));
}
