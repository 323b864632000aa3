//! Building the launch specification for one task: which executable to
//! start, with which arguments, working directory, stream redirections and
//! flags. The shell around the library turns the plan into an OS process;
//! opening the redirection files is best-effort there, and a path that
//! fails to open leaves the stream inherited.
//!
//! Paths are modelled as '/'-separated strings, as on the platforms the
//! supervisor targets.

use vstd::prelude::*;

use crate::task::Task;
use crate::task::TaskView;
use crate::task::clone_opt_string;
use crate::task::clone_string_pairs;
use crate::task::clone_string_vec;

verus! {

/// What the shell reports about the host before a launch is planned: the
/// platform, and whether the task's program path is a directory bundle (a
/// macOS application) rather than a plain executable.
#[derive(Clone, Copy, Debug, PartialEq, Eq, Structural)]
pub struct HostInfo {
    pub macos: bool,
    pub program_is_app_bundle: bool,
}

/// A launch plan: everything the shell needs to spawn the process.
#[derive(Debug)]
pub struct LaunchPlan {
    /// The executable actually started: the task's program, or the bundle
    /// opener on macOS when the program is an application bundle.
    pub program: String,
    pub args: Vec<String>,
    /// The child's working directory; inherited when absent.
    pub working_dir: Option<String>,
    pub stdin: Option<String>,
    pub stdout: Option<String>,
    pub stderr: Option<String>,
    pub env_vars: Vec<(String, String)>,
    pub no_console: bool,
    /// The child must be terminated when the supervisor exits.
    pub kill_with_parent: bool,
}

/// The mathematical value of a [`LaunchPlan`].
#[verifier::ext_equal]
pub ghost struct PlanView {
    pub program: Seq<char>,
    pub args: Seq<Seq<char>>,
    pub working_dir: Option<Seq<char>>,
    pub stdin: Option<Seq<char>>,
    pub stdout: Option<Seq<char>>,
    pub stderr: Option<Seq<char>>,
    pub env_vars: Seq<(Seq<char>, Seq<char>)>,
    pub no_console: bool,
    pub kill_with_parent: bool,
}

impl View for LaunchPlan {
    type V = PlanView;

    open spec fn view(&self) -> PlanView {
        PlanView {
            program: self.program@,
            args: self.args.deep_view(),
            working_dir: self.working_dir.deep_view(),
            stdin: self.stdin.deep_view(),
            stdout: self.stdout.deep_view(),
            stderr: self.stderr.deep_view(),
            env_vars: self.env_vars.deep_view(),
            no_console: self.no_console,
            kill_with_parent: self.kill_with_parent,
        }
    }
}

/// A Unix file mode marks an executable program: some execute bit is set.
/// The shell asks this of a program path's metadata before offering to run
/// it.
pub fn mode_allows_execution(mode: u32) -> (r: bool)
    ensures
        r == (mode & 0o111 != 0),
{
    mode & 0o111 != 0
}

/// Index of the last '/' in the path, or -1 when there is none.
pub open spec fn last_slash_index(p: Seq<char>) -> int
    decreases p.len(),
{
    if p.len() == 0 {
        -1
    } else if p[p.len() - 1] == '/' {
        p.len() - 1
    } else {
        last_slash_index(p.drop_last())
    }
}

/// The parent directory of a '/'-separated path: the prefix before the
/// last '/', the root "/" for a path directly under it, and nothing for a
/// path without '/'.
pub open spec fn parent_of(p: Seq<char>) -> Option<Seq<char>> {
    let i = last_slash_index(p);
    if i < 0 {
        None
    } else if i == 0 {
        Some(p.take(1))
    } else {
        Some(p.take(i))
    }
}

/// The parent directory of a path, as [`parent_of`] gives it.
pub fn parent_dir(p: &str) -> (r: Option<String>)
    ensures
        r.deep_view() == parent_of(p@),
{
    let n = p.unicode_len();
    let mut i: usize = n;
    proof {
        assert(p@.take(n as int) =~= p@);
    }
    while i > 0
        invariant
            i <= n,
            n == p@.len(),
            last_slash_index(p@) == last_slash_index(p@.take(i as int)),
            forall|j: int| i <= j < n ==> p@[j] != '/',
        decreases i,
    {
        if p.get_char(i - 1) == '/' {
            proof {
                assert(p@.take(i as int).last() == '/');
                assert(last_slash_index(p@.take(i as int)) == i - 1);
            }
            if i == 1 {
                let root = p.substring_char(0, 1);
                proof {
                    assert(root@ == p@.take(1));
                }
                return Some(root.to_owned());
            }
            let prefix = p.substring_char(0, i - 1);
            proof {
                assert(prefix@ == p@.take(i - 1));
            }
            return Some(prefix.to_owned());
        }
        proof {
            let q = p@.take(i as int);
            assert(q.last() != '/');
            assert(q.drop_last() =~= p@.take(i - 1));
        }
        i -= 1;
    }
    proof {
        assert(p@.take(0) =~= Seq::<char>::empty());
    }
    None
}

/// The plan for launching `t` on the given host. On macOS an application
/// bundle is started through the bundle opener, with the bundle path and
/// the task's arguments behind it; anywhere else the program itself is
/// started with the task's arguments. The working directory is the task's,
/// else the program's parent directory; the child is always terminated
/// with the supervisor.
pub open spec fn plan_of(t: TaskView, host: HostInfo) -> PlanView {
    let via_opener = host.macos && host.program_is_app_bundle;
    PlanView {
        program: if via_opener {
            "/usr/bin/open"@
        } else {
            t.program
        },
        args: if via_opener {
            seq!["-a"@, t.program] + t.args
        } else {
            t.args
        },
        working_dir: match t.working_dir {
            Some(w) => Some(w),
            None => parent_of(t.program),
        },
        stdin: t.stdin,
        stdout: t.stdout,
        stderr: t.stderr,
        env_vars: t.env_vars,
        no_console: t.no_console,
        kill_with_parent: true,
    }
}

impl LaunchPlan {
    /// Build the launch plan for `task`.
    pub fn build(task: &Task, host: HostInfo) -> (r: LaunchPlan)
        ensures
            r@ == plan_of(task@, host),
    {
        let via_opener = host.macos && host.program_is_app_bundle;
        let (program, args): (String, Vec<String>) = if via_opener {
            let mut args: Vec<String> = Vec::new();
            args.push(String::from_str("-a"));
            args.push(task.program.clone());
            let mut i: usize = 0;
            while i < task.args.len()
                invariant
                    i <= task.args.len(),
                    args.deep_view().len() == 2 + i,
                    args.deep_view()[0] == "-a"@,
                    args.deep_view()[1] == task.program@,
                    forall|j: int| 0 <= j < i ==> args.deep_view()[2 + j]
                        == task.args.deep_view()[j],
                decreases task.args.len() - i,
            {
                args.push(task.args[i].clone());
                i += 1;
            }
            proof {
                assert(args.deep_view() =~= seq!["-a"@, task.program@]
                    + task.args.deep_view());
            }
            (String::from_str("/usr/bin/open"), args)
        } else {
            (task.program.clone(), clone_string_vec(&task.args))
        };
        let working_dir: Option<String> = match &task.working_dir {
            Some(w) => Some(w.clone()),
            None => parent_dir(task.program.as_str()),
        };
        let r = LaunchPlan {
            program,
            args,
            working_dir,
            stdin: clone_opt_string(&task.stdin),
            stdout: clone_opt_string(&task.stdout),
            stderr: clone_opt_string(&task.stderr),
            env_vars: clone_string_pairs(&task.env_vars),
            no_console: task.no_console,
            kill_with_parent: true,
        };
        proof {
            assert(r@ =~= plan_of(task@, host));
        }
        r
    }
}

} // verus!
