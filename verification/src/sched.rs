//! The scheduler: the process-wide coordinator. It owns the task repository
//! and the directory of live guards, accepts external requests one at a
//! time, and answers each with the list of effects the asynchronous shell
//! must perform: forward a control to one guard, broadcast one to all, or
//! spawn a fresh guard.

use vstd::prelude::*;

use crate::error::Error;
use crate::error::ErrorKind;
use crate::store::TaskStore;
use crate::task::Task;
use crate::task::TaskView;
use crate::task::saved_new;
use crate::task::saved_update;

verus! {

/// A control forwarded to a guard; the shell turns it into the matching
/// guard event.
#[derive(Clone, Copy, Debug, PartialEq, Eq, Structural)]
pub enum GuardCtl {
    Reconnect,
    RemoveTask,
    RunTaskManually,
    SwitchTask(bool),
    QueryStatus,
    Close,
    StopTask,
}

/// What the shell must do after a scheduler operation.
#[derive(Debug)]
pub enum SchedEffect {
    /// Send the control to the guard of the named task; a no-op if the
    /// guard has already terminated.
    Guard(i64, GuardCtl),
    /// Send the control to every live guard.
    AllGuards(GuardCtl),
    /// Spawn a fresh guard for the carried task, whose identifier is
    /// present.
    SpawnGuard(Task),
}

/// The identifiers hold no duplicates.
pub open spec fn distinct_ids(s: Seq<i64>) -> bool {
    forall|i: int, j: int| 0 <= i < j < s.len() ==> s[i] != s[j]
}

/// The effect spawns a guard for the task stored under some identifier of
/// `m`, with exactly the stored definition.
pub open spec fn spawns_stored_task(e: SchedEffect, m: Map<i64, TaskView>) -> bool {
    e matches SchedEffect::SpawnGuard(t) && t@.id is Some && m.contains_key(t@.id->0) && t@
        == m[t@.id->0]
}

/// The effect spawns a guard for the task with identifier `id`.
pub open spec fn spawns_task_id(e: SchedEffect, id: i64) -> bool {
    e matches SchedEffect::SpawnGuard(t) && t@.id == Some(id)
}

proof fn lemma_push_contains(s: Seq<i64>, v: i64, x: i64)
    ensures
        s.push(v).contains(x) <==> (s.contains(x) || x == v),
{
    if s.contains(x) {
        let i = choose|i: int| 0 <= i < s.len() && s[i] == x;
        assert(s.push(v)[i] == x);
    }
    if x == v {
        assert(s.push(v)[s.len() as int] == x);
    }
    if s.push(v).contains(x) {
        let i = choose|i: int| 0 <= i < s.push(v).len() && s.push(v)[i] == x;
        if i < s.len() {
            assert(s[i] == x);
        }
    }
}

proof fn lemma_remove_contains(s: Seq<i64>, i: int, x: i64)
    requires
        distinct_ids(s),
        0 <= i < s.len(),
    ensures
        s.remove(i).contains(x) <==> (s.contains(x) && x != s[i]),
        distinct_ids(s.remove(i)),
{
    let s2 = s.remove(i);
    if s2.contains(x) {
        let j = choose|j: int| 0 <= j < s2.len() && s2[j] == x;
        if j < i {
            assert(s[j] == x);
        } else {
            assert(s[j + 1] == x);
        }
    }
    if s.contains(x) && x != s[i] {
        let j = choose|j: int| 0 <= j < s.len() && s[j] == x;
        if j < i {
            assert(s2[j] == x);
        } else {
            assert(s2[j - 1] == x);
        }
    }
}

/// The coordinator: the repository, the directory of live guards, and
/// whether it has shut down.
pub struct Scheduler {
    /// The task repository.
    pub store: TaskStore,
    /// Identifiers of the live guards.
    pub guards: Vec<i64>,
    /// Set by [`Scheduler::close`]; a closed scheduler accepts no request.
    pub closed: bool,
}

impl Scheduler {
    /// The directory: identifiers of the live guards.
    pub open spec fn guard_ids(self) -> Seq<i64> {
        self.guards@
    }

    /// A guard is live for `id`.
    pub open spec fn has_guard(self, id: i64) -> bool {
        self.guard_ids().contains(id)
    }

    pub open spec fn wf(self) -> bool {
        &&& self.store.wf()
        &&& distinct_ids(self.guard_ids())
    }

    fn guard_index(&self, id: i64) -> (r: Option<usize>)
        ensures
            match r {
                Some(i) => i < self.guard_ids().len() && self.guard_ids()[i as int] == id,
                None => !self.has_guard(id),
            },
    {
        let mut i: usize = 0;
        while i < self.guards.len()
            invariant
                i <= self.guards.len(),
                forall|j: int| 0 <= j < i ==> self.guards@[j] != id,
            decreases self.guards.len() - i,
        {
            if self.guards[i] == id {
                return Some(i);
            }
            i += 1;
        }
        proof {
            if self.has_guard(id) {
                let j = choose|j: int| 0 <= j < self.guards@.len() && self.guards@[j] == id;
            }
        }
        None
    }

    /// Build the scheduler over a repository: one guard is spawned per
    /// stored task, and the directory holds exactly the stored identifiers.
    pub fn bind(store: TaskStore) -> (r: (Scheduler, Vec<SchedEffect>))
        requires
            store.wf(),
        ensures
            r.0.wf(),
            !r.0.closed,
            r.0.store@ == store@,
            forall|id: i64| r.0.has_guard(id) <==> store@.contains_key(id),
            forall|i: int| 0 <= i < r.1@.len() ==> spawns_stored_task(#[trigger] r.1@[i], store@),
            forall|id: i64| store@.contains_key(id) ==> exists|i: int|
                0 <= i < r.1@.len() && spawns_task_id(#[trigger] r.1@[i], id),
            forall|i: int, j: int, id: i64|
                0 <= i < j < r.1@.len() && #[trigger] spawns_task_id(r.1@[i], id)
                    && #[trigger] spawns_task_id(r.1@[j], id) ==> false,
    {
        let tasks = store.list_tasks();
        let mut guards: Vec<i64> = Vec::new();
        let mut effects: Vec<SchedEffect> = Vec::new();
        let mut i: usize = 0;
        while i < tasks.len()
            invariant
                store.wf(),
                forall|j: int| 0 <= j < tasks.deep_view().len() ==> {
                    &&& (#[trigger] tasks.deep_view()[j]).id is Some
                    &&& store@.contains_key(tasks.deep_view()[j].id->0)
                    &&& store@[tasks.deep_view()[j].id->0] == tasks.deep_view()[j]
                },
                forall|j: int, k: int| 0 <= j < k < tasks.deep_view().len() ==> tasks.deep_view()[
                    j
                ].id != tasks.deep_view()[k].id,
                forall|x: i64| store@.contains_key(x) ==> exists|j: int|
                    0 <= j < tasks.deep_view().len() && (#[trigger] tasks.deep_view()[j]).id
                        == Some(x),
                i <= tasks.len(),
                guards@.len() == i,
                forall|j: int| 0 <= j < i ==> Some(#[trigger] guards@[j]) == tasks.deep_view()[
                    j
                ].id,
                distinct_ids(guards@),
                effects@.len() == i,
                forall|j: int| 0 <= j < i ==> ({
                    &&& (#[trigger] effects@[j]) matches SchedEffect::SpawnGuard(t)
                    &&& t@ == tasks.deep_view()[j]
                }),
            decreases tasks.len() - i,
        {
            let t = &tasks[i];
            match t.id {
                Some(id) => {
                    let ghost g0 = guards@;
                    guards.push(id);
                    effects.push(SchedEffect::SpawnGuard(t.clone()));
                    proof {
                        assert forall|j: int, k: int| 0 <= j < k < guards@.len() implies guards@[
                            j
                        ] != guards@[k] by {
                            assert(Some(guards@[j]) == tasks.deep_view()[j].id);
                            assert(Some(guards@[k]) == tasks.deep_view()[k].id);
                        }
                    }
                },
                None => {
                    proof {
                        assert(tasks.deep_view()[i as int].id is Some);
                        assert(false);
                    }
                },
            }
            i += 1;
        }
        let ghost store_v = store@;
        let result = (Scheduler { store, guards, closed: false }, effects);
        proof {
            assert forall|id: i64| result.0.has_guard(id) <==> store_v.contains_key(id) by {
                if result.0.has_guard(id) {
                    let j = choose|j: int|
                        0 <= j < result.0.guard_ids().len() && result.0.guard_ids()[j] == id;
                    assert(tasks.deep_view()[j].id == Some(id));
                }
                if store_v.contains_key(id) {
                    let j = choose|j: int| 0 <= j < tasks.deep_view().len() && (
                    #[trigger] tasks.deep_view()[j]).id == Some(id);
                    assert(result.0.guard_ids()[j] == id);
                }
            }
            assert forall|id: i64| store_v.contains_key(id) implies exists|i2: int|
                0 <= i2 < result.1@.len() && spawns_task_id(#[trigger] result.1@[i2], id) by {
                let j = choose|j: int| 0 <= j < tasks.deep_view().len() && (
                #[trigger] tasks.deep_view()[j]).id == Some(id);
                assert(spawns_task_id(result.1@[j], id));
            }
        }
        result
    }

    /// Swap the repository handle and tell every guard to do the same.
    pub fn refresh_connection(&mut self, store: TaskStore) -> (r: Vec<SchedEffect>)
        requires
            old(self).wf(),
            !old(self).closed,
            store.wf(),
        ensures
            final(self).wf(),
            final(self).store@ == store@,
            final(self).guard_ids() == old(self).guard_ids(),
            !final(self).closed,
            r@ =~= seq![SchedEffect::AllGuards(GuardCtl::Reconnect)],
    {
        self.store = store;
        let mut ef: Vec<SchedEffect> = Vec::new();
        ef.push(SchedEffect::AllGuards(GuardCtl::Reconnect));
        ef
    }

    /// Remove a task: its guard (if any) is told to terminate and dropped
    /// from the directory, then the repository row is deleted.
    pub fn remove_task(&mut self, id: i64) -> (r: Vec<SchedEffect>)
        requires
            old(self).wf(),
            !old(self).closed,
        ensures
            final(self).wf(),
            !final(self).closed,
            final(self).store@ == old(self).store@.remove(id),
            !final(self).has_guard(id),
            forall|x: i64| x != id ==> final(self).has_guard(x) == old(self).has_guard(x),
            r@ =~= if old(self).has_guard(id) {
                seq![SchedEffect::Guard(id, GuardCtl::RemoveTask)]
            } else {
                Seq::<SchedEffect>::empty()
            },
    {
        let mut ef: Vec<SchedEffect> = Vec::new();
        match self.guard_index(id) {
            Some(i) => {
                ef.push(SchedEffect::Guard(id, GuardCtl::RemoveTask));
                let ghost g0 = self.guards@;
                self.guards.remove(i);
                proof {
                    assert(g0[i as int] == id);
                    assert forall|x: i64| #[trigger] self.guards@.contains(x) == (g0.contains(
                        x,
                    ) && x != id) by {
                        lemma_remove_contains(g0, i as int, x);
                    }
                    lemma_remove_contains(g0, i as int, id);
                }
            },
            None => {},
        }
        self.store.remove_task(id);
        ef
    }

    /// Ask the guard of `id` to run its task now; silently ignored when no
    /// guard is live for `id`.
    pub fn manually_run_task(&self, id: i64) -> (r: Vec<SchedEffect>)
        requires
            !self.closed,
        ensures
            r@ =~= if self.has_guard(id) {
                seq![SchedEffect::Guard(id, GuardCtl::RunTaskManually)]
            } else {
                Seq::<SchedEffect>::empty()
            },
    {
        let mut ef: Vec<SchedEffect> = Vec::new();
        if self.guard_index(id).is_some() {
            ef.push(SchedEffect::Guard(id, GuardCtl::RunTaskManually));
        }
        ef
    }

    /// Save a task: persist it, then tear down any existing guard for its
    /// identifier and spawn a fresh one from the saved definition, so the
    /// trigger state is always reinitialized from what the repository holds.
    /// A persistence failure aborts the operation with no guard change.
    pub fn save_task(&mut self, task: &Task) -> (r: (Result<i64, Error>, Vec<SchedEffect>))
        requires
            old(self).wf(),
            !old(self).closed,
        ensures
            final(self).wf(),
            !final(self).closed,
            match r.0 {
                Ok(id) => {
                    &&& match task@.id {
                        None => !old(self).store@.contains_key(id) && final(self).store@
                            == old(self).store@.insert(id, saved_new(task@, id)),
                        Some(i) => i == id && old(self).store@.contains_key(id) && final(self).store@ == old(self).store@.insert(
                            id,
                            saved_update(task@, old(self).store@[id]),
                        ),
                    }
                    &&& final(self).has_guard(id)
                    &&& forall|x: i64| x != id ==> final(self).has_guard(x) == old(self).has_guard(x)
                    &&& r.1@.len() == (if old(self).has_guard(id) {
                        2int
                    } else {
                        1int
                    })
                    &&& (old(self).has_guard(id) ==> r.1@[0] == SchedEffect::Guard(
                        id,
                        GuardCtl::RemoveTask,
                    ))
                    &&& (r.1@.last() matches SchedEffect::SpawnGuard(t) && t@ == final(self).store@[id] && t@.id == Some(id))
                },
                Err(e) => {
                    &&& *final(self) == *old(self)
                    &&& e.kind == ErrorKind::Db
                    &&& r.1@ == Seq::<SchedEffect>::empty()
                },
            },
            r.0 is Err <==> (task@.id matches Some(i) && !old(self).store@.contains_key(i)) || (
            task@.id is None && old(self).store.exhausted()),
    {
        let saved_id = match self.store.save_task(task) {
            Ok(id) => id,
            Err(e) => {
                return (Err(e), Vec::new());
            },
        };
        let mut ef: Vec<SchedEffect> = Vec::new();
        match self.guard_index(saved_id) {
            Some(i) => {
                ef.push(SchedEffect::Guard(saved_id, GuardCtl::RemoveTask));
                let ghost g0 = self.guards@;
                self.guards.remove(i);
                proof {
                    assert(g0[i as int] == saved_id);
                    assert forall|x: i64| #[trigger] self.guards@.contains(x) == (g0.contains(
                        x,
                    ) && x != saved_id) by {
                        lemma_remove_contains(g0, i as int, x);
                    }
                    lemma_remove_contains(g0, i as int, saved_id);
                }
            },
            None => {},
        }
        let ghost g1 = self.guards@;
        self.guards.push(saved_id);
        proof {
            assert forall|x: i64| #[trigger] self.guards@.contains(x) == (g1.contains(x) || x
                == saved_id) by {
                lemma_push_contains(g1, saved_id, x);
            }
            assert forall|j: int, k: int| 0 <= j < k < self.guards@.len() implies self.guards@[
                j
            ] != self.guards@[k] by {
                if k == self.guards@.len() - 1 {
                    assert(g1[j] != saved_id) by {
                        if g1[j] == saved_id {
                            assert(g1.contains(saved_id));
                        }
                    }
                }
            }
        }
        let saved = match self.store.get_task(saved_id) {
            Some(t) => t,
            None => {
                proof {
                    assert(false);
                }
                return (Err(Error::new(ErrorKind::Db, String::new())), Vec::new());
            },
        };
        proof {
            crate::store::lemma_store_ids(self.store, saved_id);
        }
        ef.push(SchedEffect::SpawnGuard(saved));
        (Ok(saved_id), ef)
    }

    /// Enable or disable a task: the guard update and the repository update
    /// are independent best-effort operations.
    pub fn switch_task(&mut self, id: i64, enable: bool) -> (r: Vec<SchedEffect>)
        requires
            old(self).wf(),
            !old(self).closed,
        ensures
            final(self).wf(),
            !final(self).closed,
            final(self).guard_ids() == old(self).guard_ids(),
            final(self).store@ == if old(self).store@.contains_key(id) {
                old(self).store@.insert(
                    id,
                    TaskView { enabled: enable, ..old(self).store@[id] },
                )
            } else {
                old(self).store@
            },
            r@ =~= if old(self).has_guard(id) {
                seq![SchedEffect::Guard(id, GuardCtl::SwitchTask(enable))]
            } else {
                Seq::<SchedEffect>::empty()
            },
    {
        let mut ef: Vec<SchedEffect> = Vec::new();
        if self.guard_index(id).is_some() {
            ef.push(SchedEffect::Guard(id, GuardCtl::SwitchTask(enable)));
        }
        let _ = self.store.switch_task(id, enable);
        ef
    }

    /// Ask the guard of `id` for its status. Querying an identifier with no
    /// live guard is an error to the caller.
    pub fn task_status(&self, id: i64) -> (r: Result<Vec<SchedEffect>, Error>)
        requires
            !self.closed,
        ensures
            match r {
                Ok(ef) => self.has_guard(id) && ef@ == seq![
                    SchedEffect::Guard(id, GuardCtl::QueryStatus),
                ],
                Err(e) => !self.has_guard(id) && e.kind == ErrorKind::Io,
            },
    {
        if self.guard_index(id).is_some() {
            let mut ef: Vec<SchedEffect> = Vec::new();
            ef.push(SchedEffect::Guard(id, GuardCtl::QueryStatus));
            proof {
                assert(ef@ =~= seq![SchedEffect::Guard(id, GuardCtl::QueryStatus)]);
            }
            Ok(ef)
        } else {
            Err(
                Error::new(
                    ErrorKind::Io,
                    String::from_str("failed to receive from guard"),
                ),
            )
        }
    }

    /// Stop a running instance of `id`, keeping the task defined.
    pub fn stop_task(&self, id: i64) -> (r: Vec<SchedEffect>)
        requires
            !self.closed,
        ensures
            r@ =~= if self.has_guard(id) {
                seq![SchedEffect::Guard(id, GuardCtl::StopTask)]
            } else {
                Seq::<SchedEffect>::empty()
            },
    {
        let mut ef: Vec<SchedEffect> = Vec::new();
        if self.guard_index(id).is_some() {
            ef.push(SchedEffect::Guard(id, GuardCtl::StopTask));
        }
        ef
    }

    /// Shut down: every guard is told to close, and no further request is
    /// accepted.
    pub fn close(&mut self) -> (r: Vec<SchedEffect>)
        requires
            old(self).wf(),
        ensures
            final(self).wf(),
            final(self).closed,
            final(self).store@ == old(self).store@,
            final(self).guard_ids() == old(self).guard_ids(),
            r@ =~= seq![SchedEffect::AllGuards(GuardCtl::Close)],
    {
        self.closed = true;
        let mut ef: Vec<SchedEffect> = Vec::new();
        ef.push(SchedEffect::AllGuards(GuardCtl::Close));
        ef
    }
}

/// Removing a task removes it everywhere: the repository no longer holds
/// the identifier — a lookup returns nothing — and no guard is live for it
/// — a status query is an error.
pub proof fn lemma_removal_is_complete(pre: Scheduler, post: Scheduler, id: i64)
    requires
        post.store@ == pre.store@.remove(id),
        !post.has_guard(id),
    ensures
        !post.store@.contains_key(id),
        !post.has_guard(id),
{
}

} // verus!
