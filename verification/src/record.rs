//! The stored form of a task: one repository row, with the argument vector
//! and the trigger payload as JSON text, and the trigger kind as a tag
//! string. Decoding is total: an unknown tag or unparsable payload falls
//! back to the `Manual` trigger, and unparsable arguments to none.

use vstd::prelude::*;

use crate::jsonio::i64_from_json;
use crate::jsonio::i64_to_json;
use crate::jsonio::json_i64_of;
use crate::jsonio::json_parsed_i64_of;
use crate::jsonio::json_parsed_strings_of;
use crate::jsonio::json_parsed_u64_of;
use crate::jsonio::json_strings_of;
use crate::jsonio::json_u64_of;
use crate::jsonio::strings_from_json;
use crate::jsonio::strings_to_json;
use crate::jsonio::u64_from_json;
use crate::jsonio::u64_to_json;
use crate::task::Task;
use crate::task::TaskView;
use crate::task::Trigger;
use crate::task::clone_opt_string;
use crate::task::clone_string_pairs;

verus! {

/// One stored row of the task repository.
#[derive(Debug)]
pub struct TaskRecord {
    pub id: i64,
    pub name: String,
    pub program: String,
    /// The argument vector, as JSON text.
    pub args: String,
    pub stdin: Option<String>,
    pub stdout: Option<String>,
    pub stderr: Option<String>,
    pub working_dir: Option<String>,
    pub env_vars: Vec<(String, String)>,
    pub no_console: bool,
    pub enabled: bool,
    /// The trigger kind, as a tag string.
    pub trigger_tag: String,
    /// The trigger payload (period or instant), as JSON text.
    pub trigger_content: Option<String>,
    pub last_exit_code: Option<i64>,
    pub last_run_at: Option<i64>,
}

/// The mathematical value of a [`TaskRecord`].
#[verifier::ext_equal]
pub ghost struct RecordView {
    pub id: i64,
    pub name: Seq<char>,
    pub program: Seq<char>,
    pub args: Seq<char>,
    pub stdin: Option<Seq<char>>,
    pub stdout: Option<Seq<char>>,
    pub stderr: Option<Seq<char>>,
    pub working_dir: Option<Seq<char>>,
    pub env_vars: Seq<(Seq<char>, Seq<char>)>,
    pub no_console: bool,
    pub enabled: bool,
    pub trigger_tag: Seq<char>,
    pub trigger_content: Option<Seq<char>>,
    pub last_exit_code: Option<i64>,
    pub last_run_at: Option<i64>,
}

impl View for TaskRecord {
    type V = RecordView;

    open spec fn view(&self) -> RecordView {
        RecordView {
            id: self.id,
            name: self.name@,
            program: self.program@,
            args: self.args@,
            stdin: self.stdin.deep_view(),
            stdout: self.stdout.deep_view(),
            stderr: self.stderr.deep_view(),
            working_dir: self.working_dir.deep_view(),
            env_vars: self.env_vars.deep_view(),
            no_console: self.no_console,
            enabled: self.enabled,
            trigger_tag: self.trigger_tag@,
            trigger_content: self.trigger_content.deep_view(),
            last_exit_code: self.last_exit_code,
            last_run_at: self.last_run_at,
        }
    }
}

/// The tag string stored for each trigger kind.
pub open spec fn tag_of_trigger(t: Trigger) -> Seq<char> {
    match t {
        Trigger::Routine(_) => "Routine"@,
        Trigger::Startup => "Startup"@,
        Trigger::KeepAlive => "KeepAlive"@,
        Trigger::Manual => "Manual"@,
        Trigger::Instant(_) => "Instant"@,
        Trigger::UntilSucceed => "UntilSucceed"@,
    }
}

/// The payload stored beside the tag: the period of a `Routine` trigger or
/// the instant of an `Instant` trigger, as JSON text; nothing otherwise.
pub open spec fn content_of_trigger(t: Trigger) -> Option<Seq<char>> {
    match t {
        Trigger::Routine(d) => Some(json_u64_of(d)),
        Trigger::Instant(i) => Some(json_i64_of(i)),
        _ => None,
    }
}

/// The trigger read back from a stored tag and payload. Unknown tags and
/// unparsable payloads decode to `Manual`.
pub open spec fn trigger_of(tag: Seq<char>, content: Option<Seq<char>>) -> Trigger {
    if tag == "Routine"@ {
        match content {
            Some(c) => match json_parsed_u64_of(c) {
                Some(d) => Trigger::Routine(d),
                None => Trigger::Manual,
            },
            None => Trigger::Manual,
        }
    } else if tag == "Instant"@ {
        match content {
            Some(c) => match json_parsed_i64_of(c) {
                Some(i) => Trigger::Instant(i),
                None => Trigger::Manual,
            },
            None => Trigger::Manual,
        }
    } else if tag == "Startup"@ {
        Trigger::Startup
    } else if tag == "KeepAlive"@ {
        Trigger::KeepAlive
    } else if tag == "UntilSucceed"@ {
        Trigger::UntilSucceed
    } else {
        Trigger::Manual
    }
}

/// The task a stored row decodes to.
pub open spec fn task_of_record(r: RecordView) -> TaskView {
    TaskView {
        id: Some(r.id),
        name: r.name,
        program: r.program,
        args: match json_parsed_strings_of(r.args) {
            Some(a) => a,
            None => Seq::empty(),
        },
        stdin: r.stdin,
        stdout: r.stdout,
        stderr: r.stderr,
        working_dir: r.working_dir,
        env_vars: r.env_vars,
        no_console: r.no_console,
        trigger: trigger_of(r.trigger_tag, r.trigger_content),
        enabled: r.enabled,
        last_exit_code: r.last_exit_code,
        last_run_at: r.last_run_at,
    }
}

/// The row stored for a task definition, with the repository-owned fields
/// given explicitly.
pub open spec fn record_of_task(
    t: TaskView,
    id: i64,
    enabled: bool,
    last_exit_code: Option<i64>,
    last_run_at: Option<i64>,
) -> RecordView {
    RecordView {
        id,
        name: t.name,
        program: t.program,
        args: json_strings_of(t.args),
        stdin: t.stdin,
        stdout: t.stdout,
        stderr: t.stderr,
        working_dir: t.working_dir,
        env_vars: t.env_vars,
        no_console: t.no_console,
        enabled,
        trigger_tag: tag_of_trigger(t.trigger),
        trigger_content: content_of_trigger(t.trigger),
        last_exit_code,
        last_run_at,
    }
}

/// The six tag strings are pairwise distinct: their first characters
/// already differ.
proof fn lemma_trigger_tags_distinct()
    ensures
        "Routine"@ != "Instant"@,
        "Routine"@ != "Startup"@,
        "Routine"@ != "KeepAlive"@,
        "Routine"@ != "Manual"@,
        "Routine"@ != "UntilSucceed"@,
        "Instant"@ != "Startup"@,
        "Instant"@ != "KeepAlive"@,
        "Instant"@ != "Manual"@,
        "Instant"@ != "UntilSucceed"@,
        "Startup"@ != "KeepAlive"@,
        "Startup"@ != "Manual"@,
        "Startup"@ != "UntilSucceed"@,
        "KeepAlive"@ != "Manual"@,
        "KeepAlive"@ != "UntilSucceed"@,
        "Manual"@ != "UntilSucceed"@,
{
    reveal_strlit("Routine");
    reveal_strlit("Instant");
    reveal_strlit("Startup");
    reveal_strlit("KeepAlive");
    reveal_strlit("Manual");
    reveal_strlit("UntilSucceed");
    assert("Routine"@[0] == 'R');
    assert("Instant"@[0] == 'I');
    assert("Startup"@[0] == 'S');
    assert("KeepAlive"@[0] == 'K');
    assert("Manual"@[0] == 'M');
    assert("UntilSucceed"@[0] == 'U');
}

fn tag_is(tag: &String, lit: &str) -> (r: bool)
    ensures
        r == (tag@ == lit@),
{
    let s = String::from_str(lit);
    *tag == s
}

impl Task {
    /// Decode one stored row back into a task.
    pub fn from_record(r: &TaskRecord) -> (t: Task)
        ensures
            t@ == task_of_record(r@),
    {
        let trigger: Trigger = if tag_is(&r.trigger_tag, "Routine") {
            match &r.trigger_content {
                Some(c) => match u64_from_json(c.as_str()) {
                    Some(d) => Trigger::Routine(d),
                    None => Trigger::Manual,
                },
                None => Trigger::Manual,
            }
        } else if tag_is(&r.trigger_tag, "Instant") {
            match &r.trigger_content {
                Some(c) => match i64_from_json(c.as_str()) {
                    Some(i) => Trigger::Instant(i),
                    None => Trigger::Manual,
                },
                None => Trigger::Manual,
            }
        } else if tag_is(&r.trigger_tag, "Startup") {
            Trigger::Startup
        } else if tag_is(&r.trigger_tag, "KeepAlive") {
            Trigger::KeepAlive
        } else if tag_is(&r.trigger_tag, "UntilSucceed") {
            Trigger::UntilSucceed
        } else {
            Trigger::Manual
        };
        let args: Vec<String> = match strings_from_json(r.args.as_str()) {
            Some(v) => v,
            None => Vec::new(),
        };
        let t = Task {
            id: Some(r.id),
            name: r.name.clone(),
            program: r.program.clone(),
            args,
            stdin: clone_opt_string(&r.stdin),
            stdout: clone_opt_string(&r.stdout),
            stderr: clone_opt_string(&r.stderr),
            working_dir: clone_opt_string(&r.working_dir),
            env_vars: clone_string_pairs(&r.env_vars),
            no_console: r.no_console,
            trigger,
            enabled: r.enabled,
            last_exit_code: r.last_exit_code,
            last_run_at: r.last_run_at,
        };
        proof {
            assert(t@ =~= task_of_record(r@));
        }
        t
    }
}

impl TaskRecord {
    /// Encode a task definition as the row stored under `id`, with the
    /// repository-owned fields given explicitly. Decoding the produced row
    /// yields the definition back, under those fields.
    pub fn from_task(
        t: &Task,
        id: i64,
        enabled: bool,
        last_exit_code: Option<i64>,
        last_run_at: Option<i64>,
    ) -> (r: TaskRecord)
        ensures
            r@ == record_of_task(t@, id, enabled, last_exit_code, last_run_at),
            task_of_record(r@) == (TaskView {
                id: Some(id),
                enabled,
                last_exit_code,
                last_run_at,
                ..t@
            }),
    {
        let (tag, content): (String, Option<String>) = match t.trigger {
            Trigger::Routine(d) => (String::from_str("Routine"), Some(u64_to_json(d))),
            Trigger::Instant(i) => (String::from_str("Instant"), Some(i64_to_json(i))),
            Trigger::Startup => (String::from_str("Startup"), None),
            Trigger::KeepAlive => (String::from_str("KeepAlive"), None),
            Trigger::Manual => (String::from_str("Manual"), None),
            Trigger::UntilSucceed => (String::from_str("UntilSucceed"), None),
        };
        let r = TaskRecord {
            id,
            name: t.name.clone(),
            program: t.program.clone(),
            args: strings_to_json(&t.args),
            stdin: clone_opt_string(&t.stdin),
            stdout: clone_opt_string(&t.stdout),
            stderr: clone_opt_string(&t.stderr),
            working_dir: clone_opt_string(&t.working_dir),
            env_vars: clone_string_pairs(&t.env_vars),
            no_console: t.no_console,
            enabled,
            trigger_tag: tag,
            trigger_content: content,
            last_exit_code,
            last_run_at,
        };
        proof {
            lemma_trigger_tags_distinct();
            assert(r@ =~= record_of_task(t@, id, enabled, last_exit_code, last_run_at));
            assert(trigger_of(tag_of_trigger(t@.trigger), content_of_trigger(t@.trigger))
                == t@.trigger);
            assert(task_of_record(r@) =~= TaskView {
                id: Some(id),
                enabled,
                last_exit_code,
                last_run_at,
                ..t@
            });
        }
        r
    }
}

} // verus!
