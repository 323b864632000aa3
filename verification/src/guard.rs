//! The per-task guard: a long-lived state machine that owns one task's
//! process handle, trigger timers and suspension detector.
//!
//! The guard is written as an explicit transition system. [`guard_init`] and
//! [`guard_step`] are the specification; [`GuardState::new`] and
//! [`GuardState::handle`] are the executable transitions, proved equal to the
//! specification. A step returns the list of [`GuardEffect`]s the
//! asynchronous shell must perform; the only effect whose outcome feeds back
//! into the state is [`GuardEffect::Launch`], reported through
//! [`GuardState::note_launch_result`]. The shell processes one event fully —
//! effects included — before the next, which is what the lemmas below assume.

use vstd::prelude::*;

use crate::clock::now_millis;
use crate::suspend::SuspensionDetector;
use crate::suspend::fresh_detector;
use crate::task::Task;
use crate::task::Trigger;

verus! {

/// Live status of one task, as answered to a status query.
#[derive(Clone, Copy, Debug, PartialEq, Eq, Structural)]
pub enum TaskStatus {
    Suspended,
    Running,
    Idle,
}

/// One occurrence a guard reacts to: a control message from the scheduler,
/// one of its timers firing, or its process exiting.
#[derive(Clone, Copy, Debug, PartialEq, Eq, Structural)]
pub enum GuardEvent {
    /// The repository handle was swapped; the guard's state is unaffected.
    Reconnect,
    /// The task is being removed: kill any process, terminate the guard.
    RemoveTask,
    /// Explicit run request: reset suspension, then attempt a launch.
    RunTaskManually,
    /// Enable or disable the task.
    SwitchTask(bool),
    /// Ask for the task's live status.
    QueryStatus,
    /// Supervisor shutdown: kill and record, then terminate the guard.
    Close,
    /// Stop a running instance; the task stays defined and the guard lives on.
    StopTask,
    /// The repeating timer of a `Routine` trigger ticked.
    RoutineTick,
    /// The one-shot timer of an `Instant` trigger fired.
    InstantFire,
    /// The owned process exited with this code.
    ProcessExit(i64),
}

/// What the shell around the library must do after a step.
#[derive(Clone, Copy, Debug, PartialEq, Eq, Structural)]
pub enum GuardEffect {
    /// Kill the running process and forget it; its exit is not recorded.
    Kill,
    /// Kill the running process, await its exit, and record the exit code to
    /// the repository (best effort).
    KillAndRecord,
    /// Record this exit code to the repository (best effort).
    RecordExit(i64),
    /// Record the launch instant to the repository (best effort), then spawn
    /// the task's program; hand the outcome back through
    /// [`GuardState::note_launch_result`] before the next event.
    Launch,
    /// Answer the pending status query with this status.
    Reply(TaskStatus),
}

/// The state of one guard.
pub struct GuardState {
    /// The task being supervised; `task.id` is always present, and
    /// `task.enabled` is the live enabled flag.
    pub task: Task,
    /// A live process handle exists.
    pub running: bool,
    /// A launch was demanded and its outcome not yet reported.
    pub awaiting_launch: bool,
    pub detector: SuspensionDetector,
    /// Period of the armed repeating timer, if the trigger is `Routine`.
    pub routine_period: Option<u64>,
    /// Deadline of the armed one-shot timer, if an `Instant` trigger is
    /// still due.
    pub instant_at: Option<i64>,
    /// The guard has terminated; no further events are handled.
    pub done: bool,
}

impl GuardState {
    pub open spec fn wf(self) -> bool {
        &&& self.task.id is Some
        &&& self.detector.wf()
        &&& self.awaiting_launch ==> !self.running
    }
}

/// The status answered to a query: running wins, then a latched detector,
/// else idle.
pub open spec fn status_of(s: GuardState) -> TaskStatus {
    if s.running {
        TaskStatus::Running
    } else if s.detector.has_suspended {
        TaskStatus::Suspended
    } else {
        TaskStatus::Idle
    }
}

/// A launch may be attempted only when no process is live (or being
/// launched) and the task is enabled.
pub open spec fn launch_allowed(s: GuardState) -> bool {
    &&& !s.running
    &&& !s.awaiting_launch
    &&& s.task.enabled
}

/// Attempt a launch: a no-op unless [`launch_allowed`]; otherwise demand a
/// [`GuardEffect::Launch`] and wait for its outcome.
pub open spec fn attempt_launch(s: GuardState) -> (GuardState, Seq<GuardEffect>) {
    if launch_allowed(s) {
        (GuardState { awaiting_launch: true, ..s }, seq![GuardEffect::Launch])
    } else {
        (s, Seq::empty())
    }
}

/// The guard's initial state and effects, by trigger kind: `Routine` arms
/// the repeating timer without launching; `Startup`, `KeepAlive` and
/// `UntilSucceed` attempt an immediate launch; `Manual` does nothing;
/// `Instant(t)` arms a one-shot timer at `t` if the task has not already run
/// at or after `t` and `t` is not already past.
pub open spec fn guard_init(task: Task, now: i64) -> (GuardState, Seq<GuardEffect>) {
    let base = GuardState {
        task,
        running: false,
        awaiting_launch: false,
        detector: fresh_detector(),
        routine_period: None,
        instant_at: None,
        done: false,
    };
    match task.trigger {
        Trigger::Routine(d) => (GuardState { routine_period: Some(d), ..base }, Seq::empty()),
        Trigger::Startup => attempt_launch(base),
        Trigger::KeepAlive => attempt_launch(base),
        Trigger::Manual => (base, Seq::empty()),
        Trigger::Instant(t) => {
            if (task.last_run_at matches Some(l) ==> task.last_run_at->0 < t) && now <= t {
                (GuardState { instant_at: Some(t), ..base }, Seq::empty())
            } else {
                (base, Seq::empty())
            }
        },
        Trigger::UntilSucceed => attempt_launch(base),
    }
}

/// One step of the guard: the state after handling `e` at instant `now`,
/// and the effects the shell must perform.
pub open spec fn guard_step(s: GuardState, e: GuardEvent, now: i64) -> (GuardState, Seq<
    GuardEffect,
>) {
    match e {
        GuardEvent::Reconnect => (s, Seq::empty()),
        GuardEvent::RemoveTask => (
            GuardState { done: true, ..s },
            if s.running {
                seq![GuardEffect::Kill]
            } else {
                Seq::empty()
            },
        ),
        GuardEvent::RunTaskManually => attempt_launch(
            GuardState { detector: fresh_detector(), ..s },
        ),
        GuardEvent::SwitchTask(en) => (
            GuardState {
                detector: fresh_detector(),
                task: Task { enabled: en, ..s.task },
                ..s
            },
            if !en && s.running {
                seq![GuardEffect::Kill]
            } else {
                Seq::empty()
            },
        ),
        GuardEvent::QueryStatus => (s, seq![GuardEffect::Reply(status_of(s))]),
        GuardEvent::Close => (
            GuardState { running: false, done: true, ..s },
            if s.running {
                seq![GuardEffect::KillAndRecord]
            } else {
                Seq::empty()
            },
        ),
        GuardEvent::StopTask => (
            GuardState { running: false, ..s },
            if s.running {
                seq![GuardEffect::KillAndRecord]
            } else {
                Seq::empty()
            },
        ),
        GuardEvent::RoutineTick => attempt_launch(s),
        GuardEvent::InstantFire => attempt_launch(GuardState { instant_at: None, ..s }),
        GuardEvent::ProcessExit(code) => {
            if !s.running {
                (s, Seq::empty())
            } else {
                let cleared = GuardState { running: false, ..s };
                match s.task.trigger {
                    Trigger::KeepAlive => {
                        let d = if code != 0 {
                            s.detector.after_fail(now)
                        } else {
                            s.detector
                        };
                        let settled = GuardState { detector: d, ..cleared };
                        if !d.has_suspended {
                            let (next, ef) = attempt_launch(settled);
                            (next, seq![GuardEffect::RecordExit(code)] + ef)
                        } else {
                            (settled, seq![GuardEffect::RecordExit(code)])
                        }
                    },
                    Trigger::UntilSucceed => {
                        if code != 0 {
                            let (next, ef) = attempt_launch(cleared);
                            (next, seq![GuardEffect::RecordExit(code)] + ef)
                        } else {
                            (cleared, seq![GuardEffect::RecordExit(code)])
                        }
                    },
                    _ => (cleared, seq![GuardEffect::RecordExit(code)]),
                }
            }
        },
    }
}

/// The state after the shell reports whether the demanded launch produced a
/// process.
pub open spec fn launch_resolved(s: GuardState, ok: bool) -> GuardState {
    GuardState { awaiting_launch: false, running: ok, ..s }
}

impl GuardState {
    fn try_launch(&mut self) -> (r: Vec<GuardEffect>)
        ensures
            *final(self) == attempt_launch(*old(self)).0,
            r@ == attempt_launch(*old(self)).1,
    {
        if !self.running && !self.awaiting_launch && self.task.enabled {
            self.awaiting_launch = true;
            let mut ef: Vec<GuardEffect> = Vec::new();
            ef.push(GuardEffect::Launch);
            proof {
                assert(ef@ =~= seq![GuardEffect::Launch]);
            }
            ef
        } else {
            Vec::new()
        }
    }

    /// Create the guard for `task` at instant `now`.
    pub fn new(task: Task, now: i64) -> (r: (GuardState, Vec<GuardEffect>))
        requires
            task.id is Some,
        ensures
            r.0 == guard_init(task, now).0,
            r.1@ == guard_init(task, now).1,
            r.0.wf(),
    {
        let trigger = task.trigger;
        let last_run_at = task.last_run_at;
        let mut s = GuardState {
            task,
            running: false,
            awaiting_launch: false,
            detector: SuspensionDetector::new(),
            routine_period: None,
            instant_at: None,
            done: false,
        };
        match trigger {
            Trigger::Routine(d) => {
                s.routine_period = Some(d);
                (s, Vec::new())
            },
            Trigger::Startup | Trigger::KeepAlive | Trigger::UntilSucceed => {
                let ef = s.try_launch();
                (s, ef)
            },
            Trigger::Manual => (s, Vec::new()),
            Trigger::Instant(t) => {
                let not_yet_run = match last_run_at {
                    Some(l) => l < t,
                    None => true,
                };
                if not_yet_run && now <= t {
                    s.instant_at = Some(t);
                }
                (s, Vec::new())
            },
        }
    }

    /// Create the guard for `task`, reading the clock for the `Instant`
    /// trigger's remaining delay.
    pub fn start(task: Task) -> (r: (GuardState, Vec<GuardEffect>))
        requires
            task.id is Some,
        ensures
            exists|now: i64|
                r.0 == guard_init(task, now).0 && r.1@ == guard_init(task, now).1,
            r.0.wf(),
    {
        let now = now_millis();
        GuardState::new(task, now)
    }

    /// Handle one event at instant `now`, returning the effects to perform.
    pub fn handle(&mut self, e: GuardEvent, now: i64) -> (r: Vec<GuardEffect>)
        requires
            old(self).wf(),
            !old(self).done,
            !old(self).awaiting_launch,
        ensures
            *final(self) == guard_step(*old(self), e, now).0,
            r@ == guard_step(*old(self), e, now).1,
            final(self).wf(),
    {
        match e {
            GuardEvent::Reconnect => Vec::new(),
            GuardEvent::RemoveTask => {
                self.done = true;
                if self.running {
                    let mut ef: Vec<GuardEffect> = Vec::new();
                    ef.push(GuardEffect::Kill);
                    proof {
                        assert(ef@ =~= seq![GuardEffect::Kill]);
                    }
                    ef
                } else {
                    Vec::new()
                }
            },
            GuardEvent::RunTaskManually => {
                self.detector.reset();
                self.try_launch()
            },
            GuardEvent::SwitchTask(en) => {
                let was_running = self.running;
                self.detector.reset();
                self.task.enabled = en;
                if !en && was_running {
                    let mut ef: Vec<GuardEffect> = Vec::new();
                    ef.push(GuardEffect::Kill);
                    proof {
                        assert(ef@ =~= seq![GuardEffect::Kill]);
                    }
                    ef
                } else {
                    Vec::new()
                }
            },
            GuardEvent::QueryStatus => {
                let st = self.status();
                let mut ef: Vec<GuardEffect> = Vec::new();
                ef.push(GuardEffect::Reply(st));
                proof {
                    assert(ef@ =~= seq![GuardEffect::Reply(status_of(*old(self)))]);
                }
                ef
            },
            GuardEvent::Close => {
                let was_running = self.running;
                self.running = false;
                self.done = true;
                if was_running {
                    let mut ef: Vec<GuardEffect> = Vec::new();
                    ef.push(GuardEffect::KillAndRecord);
                    proof {
                        assert(ef@ =~= seq![GuardEffect::KillAndRecord]);
                    }
                    ef
                } else {
                    Vec::new()
                }
            },
            GuardEvent::StopTask => {
                let was_running = self.running;
                self.running = false;
                if was_running {
                    let mut ef: Vec<GuardEffect> = Vec::new();
                    ef.push(GuardEffect::KillAndRecord);
                    proof {
                        assert(ef@ =~= seq![GuardEffect::KillAndRecord]);
                    }
                    ef
                } else {
                    Vec::new()
                }
            },
            GuardEvent::RoutineTick => self.try_launch(),
            GuardEvent::InstantFire => {
                self.instant_at = None;
                self.try_launch()
            },
            GuardEvent::ProcessExit(code) => {
                if !self.running {
                    Vec::new()
                } else {
                    self.running = false;
                    let mut ef: Vec<GuardEffect> = Vec::new();
                    ef.push(GuardEffect::RecordExit(code));
                    match self.task.trigger {
                        Trigger::KeepAlive => {
                            if code != 0 {
                                self.detector.fail_at(now);
                            }
                            if !self.detector.suspended() {
                                let mut more = self.try_launch();
                                ef.append(&mut more);
                            }
                            proof {
                                assert(ef@ =~= guard_step(*old(self), e, now).1);
                            }
                            ef
                        },
                        Trigger::UntilSucceed => {
                            if code != 0 {
                                let mut more = self.try_launch();
                                ef.append(&mut more);
                            }
                            proof {
                                assert(ef@ =~= guard_step(*old(self), e, now).1);
                            }
                            ef
                        },
                        _ => {
                            proof {
                                assert(ef@ =~= seq![GuardEffect::RecordExit(code)]);
                            }
                            ef
                        },
                    }
                }
            },
        }
    }

    /// Report whether the demanded launch produced a live process.
    pub fn note_launch_result(&mut self, ok: bool)
        requires
            old(self).wf(),
            old(self).awaiting_launch,
        ensures
            *final(self) == launch_resolved(*old(self), ok),
            final(self).wf(),
    {
        self.awaiting_launch = false;
        self.running = ok;
    }

    /// The task's live status.
    pub fn status(&self) -> (r: TaskStatus)
        ensures
            r == status_of(*self),
    {
        if self.running {
            TaskStatus::Running
        } else if self.detector.suspended() {
            TaskStatus::Suspended
        } else {
            TaskStatus::Idle
        }
    }
}

/// A step demands a launch only from a state with no live process, and
/// leaves the guard awaiting the launch's outcome with still no live
/// process; well-formedness is preserved. Together with
/// [`GuardState::note_launch_result`], which turns the awaited outcome into
/// at most one live process, this is the single-active-instance rule.
pub proof fn lemma_step_launch_discipline(s: GuardState, e: GuardEvent, now: i64)
    requires
        s.wf(),
        !s.awaiting_launch,
    ensures
        guard_step(s, e, now).0.wf(),
        guard_step(s, e, now).1.contains(GuardEffect::Launch) ==> {
            &&& guard_step(s, e, now).0.awaiting_launch
            &&& !guard_step(s, e, now).0.running
        },
{
    let (s1, ef) = guard_step(s, e, now);
    if ef.contains(GuardEffect::Launch) {
        assert(exists|i: int| 0 <= i < ef.len() && ef[i] == GuardEffect::Launch);
    }
}

/// While a process is live, no control message or timer tick launches a
/// second one: in particular a `Routine` tick with a live process changes
/// nothing. Only the process's own exit can be followed by a relaunch.
pub proof fn lemma_no_launch_while_running(s: GuardState, e: GuardEvent, now: i64)
    requires
        s.running,
        !(e is ProcessExit),
    ensures
        !guard_step(s, e, now).1.contains(GuardEffect::Launch),
        guard_step(s, e, now).0.running || e is Close || e is StopTask,
        e is RoutineTick ==> guard_step(s, e, now) == (s, Seq::<GuardEffect>::empty()),
{
    let ef = guard_step(s, e, now).1;
    if ef.contains(GuardEffect::Launch) {
        let i = choose|i: int| 0 <= i < ef.len() && ef[i] == GuardEffect::Launch;
    }
}

/// Disabling a task with a live process demands a kill and leaves the task
/// disabled.
pub proof fn lemma_disable_kills(s: GuardState, now: i64)
    requires
        s.running,
    ensures
        guard_step(s, GuardEvent::SwitchTask(false), now).1.contains(GuardEffect::Kill),
        !guard_step(s, GuardEvent::SwitchTask(false), now).0.task.enabled,
        guard_step(s, GuardEvent::SwitchTask(false), now).0.running == s.running,
{
    let ef = guard_step(s, GuardEvent::SwitchTask(false), now).1;
    assert(ef[0] == GuardEffect::Kill);
}

/// A disabled task never launches: any event other than re-enabling leaves
/// it disabled and demands no launch.
pub proof fn lemma_disabled_never_launches(s: GuardState, e: GuardEvent, now: i64)
    requires
        !s.task.enabled,
        !(e matches GuardEvent::SwitchTask(en) && en),
    ensures
        !guard_step(s, e, now).1.contains(GuardEffect::Launch),
        !guard_step(s, e, now).0.task.enabled,
{
    let ef = guard_step(s, e, now).1;
    if ef.contains(GuardEffect::Launch) {
        let i = choose|i: int| 0 <= i < ef.len() && ef[i] == GuardEffect::Launch;
    }
}

/// Disabling while a process runs, then handling that process's exit: the
/// kill is demanded, no relaunch is demanded, and the status afterwards is
/// not `Running`.
pub proof fn lemma_disable_then_exit_not_running(
    s: GuardState,
    code: i64,
    now1: i64,
    now2: i64,
)
    requires
        s.running,
    ensures
        ({
            let (s1, ef1) = guard_step(s, GuardEvent::SwitchTask(false), now1);
            let (s2, ef2) = guard_step(s1, GuardEvent::ProcessExit(code), now2);
            &&& ef1.contains(GuardEffect::Kill)
            &&& !ef2.contains(GuardEffect::Launch)
            &&& status_of(s2) != TaskStatus::Running
        }),
{
    lemma_disable_kills(s, now1);
    let s1 = guard_step(s, GuardEvent::SwitchTask(false), now1).0;
    lemma_disabled_never_launches(s1, GuardEvent::ProcessExit(code), now2);
}

/// Once suspension has latched, a `KeepAlive` exit is recorded but demands
/// no relaunch, and the detector stays latched.
pub proof fn lemma_suspended_blocks_keepalive(s: GuardState, code: i64, now: i64)
    requires
        s.wf(),
        s.task.trigger is KeepAlive,
        s.detector.has_suspended,
    ensures
        !guard_step(s, GuardEvent::ProcessExit(code), now).1.contains(GuardEffect::Launch),
        guard_step(s, GuardEvent::ProcessExit(code), now).0.detector.has_suspended,
{
    let ef = guard_step(s, GuardEvent::ProcessExit(code), now).1;
    if ef.contains(GuardEffect::Launch) {
        let i = choose|i: int| 0 <= i < ef.len() && ef[i] == GuardEffect::Launch;
    }
}

/// An explicit run request resets the suspension detector — the only
/// events that unlatch it are a manual run and an enable/disable switch.
pub proof fn lemma_manual_run_resets(s: GuardState, now: i64)
    ensures
        !guard_step(s, GuardEvent::RunTaskManually, now).0.detector.has_suspended,
        !guard_step(s, GuardEvent::SwitchTask(true), now).0.detector.has_suspended,
        !guard_step(s, GuardEvent::SwitchTask(false), now).0.detector.has_suspended,
{
}

/// One full round of the shell's protocol: handle the event, and if a
/// launch was demanded, feed its outcome straight back. `ok` is ignored
/// when no launch is demanded.
pub open spec fn guard_round(s: GuardState, e: GuardEvent, now: i64, ok: bool) -> (
    GuardState,
    Seq<GuardEffect>,
) {
    let (s1, ef) = guard_step(s, e, now);
    if ef.contains(GuardEffect::Launch) {
        (launch_resolved(s1, ok), ef)
    } else {
        (s1, ef)
    }
}

/// Every round of the protocol keeps the guard well-formed and leaves no
/// launch pending, so any sequence of rounds stays inside the states the
/// other lemmas speak of; with [`lemma_step_launch_discipline`] this gives
/// at most one live process per task along any run.
pub proof fn lemma_round_invariant(s: GuardState, e: GuardEvent, now: i64, ok: bool)
    requires
        s.wf(),
        !s.awaiting_launch,
    ensures
        guard_round(s, e, now, ok).0.wf(),
        !guard_round(s, e, now, ok).0.awaiting_launch,
{
    lemma_step_launch_discipline(s, e, now);
    let (s1, ef) = guard_step(s, e, now);
    if s1.awaiting_launch {
        match e {
            GuardEvent::RunTaskManually => {
                assert(ef[0] == GuardEffect::Launch);
            },
            GuardEvent::RoutineTick => {
                assert(ef[0] == GuardEffect::Launch);
            },
            GuardEvent::InstantFire => {
                assert(ef[0] == GuardEffect::Launch);
            },
            GuardEvent::ProcessExit(_) => {
                assert(ef[1] == GuardEffect::Launch);
            },
            _ => {},
        }
    }
}

/// Suspension persists: any event other than a manual run or an
/// enable/disable switch leaves a latched detector latched. With
/// [`lemma_suspended_blocks_keepalive`], once a `KeepAlive` task is
/// suspended no auto-relaunch happens until one of the two resetting
/// requests arrives.
pub proof fn lemma_suspension_persists(s: GuardState, e: GuardEvent, now: i64)
    requires
        s.detector.has_suspended,
        !(e is RunTaskManually),
        !(e is SwitchTask),
    ensures
        guard_step(s, e, now).0.detector.has_suspended,
{
}

/// `UntilSucceed` relaunches on any non-zero exit of an enabled task, no
/// matter how many times it has failed, and stops on a zero exit.
pub proof fn lemma_until_succeed_relaunch(s: GuardState, code: i64, now: i64)
    requires
        s.wf(),
        s.task.trigger is UntilSucceed,
        s.running,
        !s.awaiting_launch,
    ensures
        code != 0 && s.task.enabled ==> guard_step(s, GuardEvent::ProcessExit(code), now)
            .1.contains(GuardEffect::Launch),
        code == 0 ==> !guard_step(s, GuardEvent::ProcessExit(code), now).1.contains(
            GuardEffect::Launch,
        ),
{
    let (s1, ef) = guard_step(s, GuardEvent::ProcessExit(code), now);
    if code != 0 && s.task.enabled {
        assert(ef[1] == GuardEffect::Launch);
    } else if code == 0 {
        if ef.contains(GuardEffect::Launch) {
            let i = choose|i: int| 0 <= i < ef.len() && ef[i] == GuardEffect::Launch;
        }
    }
}

} // verus!
