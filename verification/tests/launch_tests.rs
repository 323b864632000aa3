use taskwarden::launch::HostInfo;
use taskwarden::launch::LaunchPlan;
use taskwarden::launch::parent_dir;
use taskwarden::task::Task;
use taskwarden::task::Trigger;

fn task_for(program: &str) -> Task {
    Task {
        id: Some(1),
        name: "t".to_string(),
        program: program.to_string(),
        args: vec!["--fast".to_string()],
        stdin: Some("/tmp/in".to_string()),
        stdout: None,
        stderr: Some("/tmp/err".to_string()),
        working_dir: None,
        env_vars: vec![("HOME_BASE".to_string(), "/tmp".to_string())],
        no_console: true,
        trigger: Trigger::Manual,
        enabled: true,
        last_exit_code: None,
        last_run_at: None,
    }
}

const PLAIN_HOST: HostInfo = HostInfo { macos: false, program_is_app_bundle: false };

#[test]
fn execute_bits_decide_runnability() {
    assert!(taskwarden::launch::mode_allows_execution(0o755));
    assert!(taskwarden::launch::mode_allows_execution(0o100));
    assert!(taskwarden::launch::mode_allows_execution(0o001));
    assert!(!taskwarden::launch::mode_allows_execution(0o644));
    assert!(!taskwarden::launch::mode_allows_execution(0));
}

#[test]
fn parent_dir_of_paths() {
    assert_eq!(parent_dir("/bin/false").as_deref(), Some("/bin"));
    assert_eq!(parent_dir("/usr/local/bin/tool").as_deref(), Some("/usr/local/bin"));
    assert_eq!(parent_dir("/init").as_deref(), Some("/"));
    assert_eq!(parent_dir("relative/prog").as_deref(), Some("relative"));
    assert_eq!(parent_dir("bare"), None);
    assert_eq!(parent_dir(""), None);
}

#[test]
fn plain_program_is_launched_directly() {
    let plan = LaunchPlan::build(&task_for("/bin/false"), PLAIN_HOST);
    assert_eq!(plan.program, "/bin/false");
    assert_eq!(plan.args, vec!["--fast".to_string()]);
    assert!(plan.kill_with_parent);
    assert!(plan.no_console);
    assert_eq!(plan.stdin.as_deref(), Some("/tmp/in"));
    assert_eq!(plan.stdout, None);
    assert_eq!(plan.stderr.as_deref(), Some("/tmp/err"));
    assert_eq!(plan.env_vars, vec![("HOME_BASE".to_string(), "/tmp".to_string())]);
}

#[test]
fn working_dir_defaults_to_program_parent() {
    let plan = LaunchPlan::build(&task_for("/opt/tools/runner"), PLAIN_HOST);
    assert_eq!(plan.working_dir.as_deref(), Some("/opt/tools"));
    let mut t = task_for("/opt/tools/runner");
    t.working_dir = Some("/var/data".to_string());
    let plan = LaunchPlan::build(&t, PLAIN_HOST);
    assert_eq!(plan.working_dir.as_deref(), Some("/var/data"));
}

#[test]
fn bare_program_inherits_working_dir() {
    let plan = LaunchPlan::build(&task_for("prog"), PLAIN_HOST);
    assert_eq!(plan.working_dir, None);
}

#[test]
fn macos_bundle_goes_through_the_opener() {
    let host = HostInfo { macos: true, program_is_app_bundle: true };
    let plan = LaunchPlan::build(&task_for("/Applications/Editor.app"), host);
    assert_eq!(plan.program, "/usr/bin/open");
    assert_eq!(
        plan.args,
        vec![
            "-a".to_string(),
            "/Applications/Editor.app".to_string(),
            "--fast".to_string(),
        ]
    );
}

#[test]
fn macos_plain_executable_is_not_wrapped() {
    let host = HostInfo { macos: true, program_is_app_bundle: false };
    let plan = LaunchPlan::build(&task_for("/usr/bin/say"), host);
    assert_eq!(plan.program, "/usr/bin/say");
    assert_eq!(plan.args, vec!["--fast".to_string()]);
}

#[test]
fn bundle_outside_macos_is_not_wrapped() {
    let host = HostInfo { macos: false, program_is_app_bundle: true };
    let plan = LaunchPlan::build(&task_for("/stuff/Editor.app"), host);
    assert_eq!(plan.program, "/stuff/Editor.app");
}
