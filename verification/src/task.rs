//! Task definitions: what to launch and when.

use vstd::prelude::*;

verus! {

/// The trigger policy of a task: when the guard launches it without an
/// explicit request. Periods and timestamps are in milliseconds; timestamps
/// count from the Unix epoch.
#[derive(Clone, Copy, Debug, PartialEq, Eq, Structural)]
pub enum Trigger {
    /// Re-fires on a fixed period; a still-running instance is left alone.
    Routine(u64),
    /// Fires once when the guard is created.
    Startup,
    /// Fires at guard creation and again whenever the process exits,
    /// subject to suspension.
    KeepAlive,
    /// Never auto-fires; only an explicit run request launches the task.
    Manual,
    /// Fires once at the given instant, unless the task already ran at or
    /// after it.
    Instant(i64),
    /// Fires at guard creation and re-fires on any non-zero exit, with no
    /// suspension limiting.
    UntilSucceed,
}

/// A task definition plus its runtime-observed fields. Paths are carried as
/// plain strings; the shell around the library turns them into OS paths.
#[derive(Debug)]
pub struct Task {
    /// Assigned by the repository; absent until first saved.
    pub id: Option<i64>,
    pub name: String,
    pub program: String,
    pub args: Vec<String>,
    pub stdin: Option<String>,
    pub stdout: Option<String>,
    pub stderr: Option<String>,
    /// Working directory; absent means the program's parent directory.
    pub working_dir: Option<String>,
    pub env_vars: Vec<(String, String)>,
    /// Platform hint to suppress a visible console window.
    pub no_console: bool,
    pub trigger: Trigger,
    /// A disabled task never auto-triggers; disabling kills a running instance.
    pub enabled: bool,
    /// Most recent terminal exit code observed.
    pub last_exit_code: Option<i64>,
    /// Timestamp of the most recent launch attempt, in milliseconds.
    pub last_run_at: Option<i64>,
}

/// The mathematical value of a [`Task`]: every string replaced by its
/// character sequence.
#[verifier::ext_equal]
pub ghost struct TaskView {
    pub id: Option<i64>,
    pub name: Seq<char>,
    pub program: Seq<char>,
    pub args: Seq<Seq<char>>,
    pub stdin: Option<Seq<char>>,
    pub stdout: Option<Seq<char>>,
    pub stderr: Option<Seq<char>>,
    pub working_dir: Option<Seq<char>>,
    pub env_vars: Seq<(Seq<char>, Seq<char>)>,
    pub no_console: bool,
    pub trigger: Trigger,
    pub enabled: bool,
    pub last_exit_code: Option<i64>,
    pub last_run_at: Option<i64>,
}

impl View for Task {
    type V = TaskView;

    open spec fn view(&self) -> TaskView {
        TaskView {
            id: self.id,
            name: self.name@,
            program: self.program@,
            args: self.args.deep_view(),
            stdin: self.stdin.deep_view(),
            stdout: self.stdout.deep_view(),
            stderr: self.stderr.deep_view(),
            working_dir: self.working_dir.deep_view(),
            env_vars: self.env_vars.deep_view(),
            no_console: self.no_console,
            trigger: self.trigger,
            enabled: self.enabled,
            last_exit_code: self.last_exit_code,
            last_run_at: self.last_run_at,
        }
    }
}

impl DeepView for Task {
    type V = TaskView;

    open spec fn deep_view(&self) -> TaskView {
        self@
    }
}

/// Two task values agree on everything the user defines: the program, its
/// arguments and streams, and the trigger. The repository-owned fields
/// (`id`, `enabled`, `last_exit_code`, `last_run_at`) are not compared.
pub open spec fn same_definition(a: TaskView, b: TaskView) -> bool {
    &&& a.name == b.name
    &&& a.program == b.program
    &&& a.args == b.args
    &&& a.stdin == b.stdin
    &&& a.stdout == b.stdout
    &&& a.stderr == b.stderr
    &&& a.working_dir == b.working_dir
    &&& a.env_vars == b.env_vars
    &&& a.no_console == b.no_console
    &&& a.trigger == b.trigger
}

/// What the repository stores when a task is first inserted under `id`: the
/// caller's definition, with the repository-owned fields at their defaults.
pub open spec fn saved_new(t: TaskView, id: i64) -> TaskView {
    TaskView { id: Some(id), enabled: true, last_exit_code: None, last_run_at: None, ..t }
}

/// What the repository stores when the task at `prev` is updated from `t`:
/// the caller's definition, with the repository-owned fields kept from the
/// stored row.
pub open spec fn saved_update(t: TaskView, prev: TaskView) -> TaskView {
    TaskView {
        id: prev.id,
        enabled: prev.enabled,
        last_exit_code: prev.last_exit_code,
        last_run_at: prev.last_run_at,
        ..t
    }
}

pub(crate) fn clone_string_vec(v: &Vec<String>) -> (r: Vec<String>)
    ensures
        r.deep_view() == v.deep_view(),
{
    let mut out: Vec<String> = Vec::new();
    let mut i: usize = 0;
    while i < v.len()
        invariant
            i <= v.len(),
            out.len() == i,
            forall|j: int| 0 <= j < i ==> out.deep_view()[j] == v.deep_view()[j],
        decreases v.len() - i,
    {
        out.push(v[i].clone());
        i += 1;
    }
    proof {
        assert(out.deep_view() =~= v.deep_view());
    }
    out
}

pub(crate) fn clone_string_pairs(v: &Vec<(String, String)>) -> (r: Vec<(String, String)>)
    ensures
        r.deep_view() == v.deep_view(),
{
    let mut out: Vec<(String, String)> = Vec::new();
    let mut i: usize = 0;
    while i < v.len()
        invariant
            i <= v.len(),
            out.len() == i,
            forall|j: int| 0 <= j < i ==> out.deep_view()[j] == v.deep_view()[j],
        decreases v.len() - i,
    {
        let p = &v[i];
        out.push((p.0.clone(), p.1.clone()));
        i += 1;
    }
    proof {
        assert(out.deep_view() =~= v.deep_view());
    }
    out
}

pub(crate) fn clone_opt_string(v: &Option<String>) -> (r: Option<String>)
    ensures
        r.deep_view() == v.deep_view(),
{
    match v {
        Some(s) => Some(s.clone()),
        None => None,
    }
}

impl Clone for Task {
    /// A clone has the same value as the original.
    fn clone(&self) -> (r: Task)
        ensures
            r@ == self@,
    {
        let r = Task {
            id: self.id,
            name: self.name.clone(),
            program: self.program.clone(),
            args: clone_string_vec(&self.args),
            stdin: clone_opt_string(&self.stdin),
            stdout: clone_opt_string(&self.stdout),
            stderr: clone_opt_string(&self.stderr),
            working_dir: clone_opt_string(&self.working_dir),
            env_vars: clone_string_pairs(&self.env_vars),
            no_console: self.no_console,
            trigger: self.trigger,
            enabled: self.enabled,
            last_exit_code: self.last_exit_code,
            last_run_at: self.last_run_at,
        };
        proof {
            assert(r@ =~= self@);
        }
        r
    }
}

} // verus!
