//! The in-memory task repository: rows keyed by task identifier, with the
//! interface of the persistent store the supervisor is written against.
//!
//! Identifiers are assigned by an increasing counter, as a database's
//! auto-increment would. A save ignores the caller's repository-owned
//! fields: on insert they start at their defaults (`enabled` true, no run
//! history), on update they are kept from the stored row. The store's value
//! is the map from identifier to the decoded task.

use vstd::prelude::*;
use vstd::pervasive::VecAdditionalExecFns;

use crate::error::Error;
use crate::error::ErrorKind;
use crate::record::RecordView;
use crate::record::TaskRecord;
use crate::record::task_of_record;
use crate::task::Task;
use crate::task::TaskView;
use crate::task::saved_new;
use crate::task::saved_update;
use crate::task::same_definition;

verus! {

/// Rows have pairwise distinct identifiers.
pub open spec fn unique_ids(rs: Seq<RecordView>) -> bool {
    forall|i: int, j: int| 0 <= i < j < rs.len() ==> rs[i].id != rs[j].id
}

/// The map from identifier to decoded task that a row sequence denotes.
pub open spec fn map_of(rs: Seq<RecordView>) -> Map<i64, TaskView>
    decreases rs.len(),
{
    if rs.len() == 0 {
        Map::empty()
    } else {
        map_of(rs.drop_last()).insert(rs.last().id, task_of_record(rs.last()))
    }
}

proof fn lemma_map_contains(rs: Seq<RecordView>, id: i64)
    ensures
        map_of(rs).contains_key(id) <==> exists|i: int| 0 <= i < rs.len() && rs[i].id == id,
    decreases rs.len(),
{
    if rs.len() > 0 {
        lemma_map_contains(rs.drop_last(), id);
        if rs.last().id == id {
            assert(rs[rs.len() - 1].id == id);
        } else {
            if map_of(rs).contains_key(id) {
                let i = choose|i: int| 0 <= i < rs.drop_last().len() && rs.drop_last()[i].id
                    == id;
                assert(rs[i].id == id);
            }
            if exists|i: int| 0 <= i < rs.len() && rs[i].id == id {
                let i = choose|i: int| 0 <= i < rs.len() && rs[i].id == id;
                assert(i < rs.len() - 1);
                assert(rs.drop_last()[i].id == id);
            }
        }
    }
}

proof fn lemma_map_index(rs: Seq<RecordView>, i: int)
    requires
        unique_ids(rs),
        0 <= i < rs.len(),
    ensures
        map_of(rs).contains_key(rs[i].id),
        map_of(rs)[rs[i].id] == task_of_record(rs[i]),
    decreases rs.len(),
{
    if i < rs.len() - 1 {
        lemma_map_index(rs.drop_last(), i);
        assert(rs.drop_last()[i] == rs[i]);
        assert(rs.last().id != rs[i].id);
    }
}

proof fn lemma_map_push(rs: Seq<RecordView>, r: RecordView)
    ensures
        map_of(rs.push(r)) == map_of(rs).insert(r.id, task_of_record(r)),
{
    assert(rs.push(r).drop_last() =~= rs);
    assert(rs.push(r).last() == r);
}

proof fn lemma_map_update(rs: Seq<RecordView>, i: int, r: RecordView)
    requires
        unique_ids(rs),
        0 <= i < rs.len(),
        r.id == rs[i].id,
    ensures
        map_of(rs.update(i, r)) == map_of(rs).insert(r.id, task_of_record(r)),
        unique_ids(rs.update(i, r)),
    decreases rs.len(),
{
    let rs2 = rs.update(i, r);
    if i == rs.len() - 1 {
        assert(rs2.drop_last() =~= rs.drop_last());
        assert(rs2.last() == r);
        assert(map_of(rs2) =~= map_of(rs).insert(r.id, task_of_record(r)));
    } else {
        assert(rs2.drop_last() =~= rs.drop_last().update(i, r));
        lemma_map_update(rs.drop_last(), i, r);
        assert(rs2.last() == rs.last());
        assert(rs.last().id != r.id);
        assert(map_of(rs2) =~= map_of(rs).insert(r.id, task_of_record(r)));
    }
}

proof fn lemma_map_remove(rs: Seq<RecordView>, i: int)
    requires
        unique_ids(rs),
        0 <= i < rs.len(),
    ensures
        map_of(rs.remove(i)) == map_of(rs).remove(rs[i].id),
        unique_ids(rs.remove(i)),
    decreases rs.len(),
{
    let rs2 = rs.remove(i);
    if i == rs.len() - 1 {
        assert(rs2 =~= rs.drop_last());
        lemma_map_contains(rs.drop_last(), rs[i].id);
        assert(map_of(rs2) =~= map_of(rs).remove(rs[i].id));
    } else {
        assert(rs2.drop_last() =~= rs.drop_last().remove(i));
        lemma_map_remove(rs.drop_last(), i);
        assert(rs2.last() == rs.last());
        assert(rs.last().id != rs[i].id);
        assert(map_of(rs2) =~= map_of(rs).remove(rs[i].id));
    }
}

/// The in-memory task repository.
pub struct TaskStore {
    rows: Vec<TaskRecord>,
    next_id: i64,
}

impl TaskStore {
    /// The stored rows, as mathematical values.
    pub closed spec fn rows_view(self) -> Seq<RecordView> {
        Seq::new(self.rows@.len() as nat, |i: int| self.rows@[i]@)
    }

    /// Identifiers are unique and below the assignment counter.
    pub closed spec fn wf(self) -> bool {
        &&& unique_ids(self.rows_view())
        &&& forall|i: int| 0 <= i < self.rows_view().len() ==> (#[trigger] self.rows_view()[
            i
        ].id) < self.next_id
        &&& 1 <= self.next_id
    }

    /// The assignment counter has reached its ceiling; no identifier is
    /// left for a further insert.
    pub closed spec fn exhausted(self) -> bool {
        self.next_id == i64::MAX
    }
}

impl View for TaskStore {
    type V = Map<i64, TaskView>;

    closed spec fn view(&self) -> Map<i64, TaskView> {
        map_of(self.rows_view())
    }
}

impl TaskStore {
    /// An empty repository.
    pub fn new() -> (r: TaskStore)
        ensures
            r@ == Map::<i64, TaskView>::empty(),
            r.wf(),
            !r.exhausted(),
    {
        let r = TaskStore { rows: Vec::new(), next_id: 1 };
        proof {
            assert(r.rows_view() =~= Seq::<RecordView>::empty());
        }
        r
    }

    fn find_index(&self, id: i64) -> (r: Option<usize>)
        ensures
            match r {
                Some(i) => i < self.rows_view().len() && self.rows_view()[i as int].id == id,
                None => forall|j: int|
                    0 <= j < self.rows_view().len() ==> self.rows_view()[j].id != id,
            },
    {
        let mut i: usize = 0;
        while i < self.rows.len()
            invariant
                i <= self.rows.len(),
                forall|j: int| 0 <= j < i ==> self.rows_view()[j].id != id,
            decreases self.rows.len() - i,
        {
            if self.rows[i].id == id {
                return Some(i);
            }
            i += 1;
        }
        None
    }

    /// Every stored task, decoded. The result lists each stored identifier
    /// exactly once, with the task the store maps it to.
    pub fn list_tasks(&self) -> (r: Vec<Task>)
        requires
            self.wf(),
        ensures
            forall|i: int| 0 <= i < r.deep_view().len() ==> {
                &&& (#[trigger] r.deep_view()[i]).id is Some
                &&& self@.contains_key(r.deep_view()[i].id->0)
                &&& self@[r.deep_view()[i].id->0] == r.deep_view()[i]
            },
            forall|i: int, j: int| 0 <= i < j < r.deep_view().len() ==> r.deep_view()[i].id
                != r.deep_view()[j].id,
            forall|x: i64| self@.contains_key(x) ==> exists|i: int|
                0 <= i < r.deep_view().len() && (#[trigger] r.deep_view()[i]).id == Some(x),
    {
        let mut out: Vec<Task> = Vec::new();
        let mut i: usize = 0;
        while i < self.rows.len()
            invariant
                self.wf(),
                i <= self.rows.len(),
                out.deep_view().len() == i,
                forall|j: int| 0 <= j < i ==> out.deep_view()[j] == task_of_record(
                    self.rows_view()[j],
                ),
            decreases self.rows.len() - i,
        {
            let ghost out0 = out;
            let t = Task::from_record(&self.rows[i]);
            proof {
                assert(self.rows@[i as int]@ == self.rows_view()[i as int]);
                assert(t@ == task_of_record(self.rows_view()[i as int]));
            }
            out.push(t);
            proof {
                assert forall|j: int| 0 <= j <= i implies out.deep_view()[j]
                    == task_of_record(self.rows_view()[j]) by {
                    assert(out@ == out0@.push(t));
                    if j < i {
                        assert(out@[j] == out0@[j]);
                        assert(out0.deep_view()[j] == out0@[j].deep_view());
                    } else {
                        assert(out@[j] == t);
                    }
                    assert(out.deep_view()[j] == out@[j].deep_view());
                }
            }
            i += 1;
        }
        proof {
            let rs = self.rows_view();
            assert forall|j: int| 0 <= j < out.deep_view().len() implies {
                &&& (#[trigger] out.deep_view()[j]).id is Some
                &&& self@.contains_key(out.deep_view()[j].id->0)
                &&& self@[out.deep_view()[j].id->0] == out.deep_view()[j]
            } by {
                lemma_map_index(rs, j);
            }
            assert forall|x: i64| self@.contains_key(x) implies exists|i2: int|
                0 <= i2 < out.deep_view().len() && (#[trigger] out.deep_view()[i2]).id
                    == Some(x) by {
                lemma_map_contains(rs, x);
                let j = choose|j: int| 0 <= j < rs.len() && rs[j].id == x;
                lemma_map_index(rs, j);
                assert(out.deep_view()[j].id == Some(x));
            }
        }
        out
    }

    /// The task stored under `id`, if any.
    pub fn get_task(&self, id: i64) -> (r: Option<Task>)
        requires
            self.wf(),
        ensures
            match r {
                Some(t) => self@.contains_key(id) && t@ == self@[id],
                None => !self@.contains_key(id),
            },
    {
        proof {
            lemma_map_contains(self.rows_view(), id);
        }
        match self.find_index(id) {
            Some(i) => {
                proof {
                    lemma_map_index(self.rows_view(), i as int);
                }
                Some(Task::from_record(&self.rows[i]))
            },
            None => None,
        }
    }

    /// Insert (`task.id` absent) or update (`task.id` present) a task.
    ///
    /// On insert a fresh identifier is assigned and the repository-owned
    /// fields start at their defaults; the insert fails only when no
    /// identifier is left. On update the repository-owned fields are kept
    /// from the stored row; updating an unknown identifier fails.
    pub fn save_task(&mut self, task: &Task) -> (r: Result<i64, Error>)
        requires
            old(self).wf(),
        ensures
            final(self).wf(),
            match r {
                Ok(id) => {
                    &&& match task@.id {
                        None => !old(self)@.contains_key(id) && final(self)@ == old(
                            self,
                        )@.insert(id, saved_new(task@, id)),
                        Some(i) => i == id && old(self)@.contains_key(id) && final(self)@
                            == old(self)@.insert(id, saved_update(task@, old(self)@[id])),
                    }
                },
                Err(e) => {
                    &&& *final(self) == *old(self)
                    &&& e.kind == ErrorKind::Db
                },
            },
            r is Err <==> (task@.id matches Some(i) && !old(self)@.contains_key(i)) || (
            task@.id is None && old(self).exhausted()),
    {
        match task.id {
            None => {
                if self.next_id == i64::MAX {
                    return Err(
                        Error::new(ErrorKind::Db, String::from_str("no identifiers left")),
                    );
                }
                let id = self.next_id;
                self.next_id = self.next_id + 1;
                proof {
                    lemma_map_contains(self.rows_view(), id);
                }
                let rec = TaskRecord::from_task(task, id, true, None, None);
                let ghost rs0 = self.rows_view();
                self.rows.push(rec);
                proof {
                    assert(self.rows_view() =~= rs0.push(rec@));
                    lemma_map_push(rs0, rec@);
                    assert(task_of_record(rec@) =~= saved_new(task@, id));
                }
                Ok(id)
            },
            Some(id) => {
                proof {
                    lemma_map_contains(self.rows_view(), id);
                }
                match self.find_index(id) {
                    None => Err(
                        Error::new(ErrorKind::Db, String::from_str("no task under this id")),
                    ),
                    Some(i) => {
                        proof {
                            lemma_map_index(self.rows_view(), i as int);
                        }
                        let prev = &self.rows[i];
                        let rec = TaskRecord::from_task(
                            task,
                            id,
                            prev.enabled,
                            prev.last_exit_code,
                            prev.last_run_at,
                        );
                        let ghost rs0 = self.rows_view();
                        let ghost prev_task = task_of_record(rs0[i as int]);
                        self.rows.set(i, rec);
                        proof {
                            assert(self.rows_view() =~= rs0.update(i as int, rec@));
                            lemma_map_update(rs0, i as int, rec@);
                            assert(task_of_record(rec@) =~= saved_update(task@, prev_task));
                        }
                        Ok(id)
                    },
                }
            },
        }
    }

    /// Delete the task under `id`; the result says whether it existed.
    pub fn remove_task(&mut self, id: i64) -> (r: bool)
        requires
            old(self).wf(),
        ensures
            final(self).wf(),
            final(self)@ == old(self)@.remove(id),
            r == old(self)@.contains_key(id),
    {
        proof {
            lemma_map_contains(self.rows_view(), id);
        }
        match self.find_index(id) {
            None => {
                proof {
                    assert(final(self)@ =~= old(self)@.remove(id));
                }
                false
            },
            Some(i) => {
                let ghost rs0 = self.rows_view();
                self.rows.remove(i);
                proof {
                    assert(self.rows_view() =~= rs0.remove(i as int));
                    lemma_map_remove(rs0, i as int);
                }
                true
            },
        }
    }

    /// Set the `enabled` flag of the task under `id`; fails when there is
    /// no such task.
    pub fn switch_task(&mut self, id: i64, enabled: bool) -> (r: Result<(), Error>)
        requires
            old(self).wf(),
        ensures
            final(self).wf(),
            r is Ok <==> old(self)@.contains_key(id),
            r is Ok ==> final(self)@ == old(self)@.insert(
                id,
                TaskView { enabled, ..old(self)@[id] },
            ),
            r is Err ==> *final(self) == *old(self),
    {
        proof {
            lemma_map_contains(self.rows_view(), id);
        }
        match self.find_index(id) {
            None => Err(Error::new(ErrorKind::Db, String::from_str("no task under this id"))),
            Some(i) => {
                let ghost rs0 = self.rows_view();
                proof {
                    lemma_map_index(rs0, i as int);
                }
                let mut row = self.rows.remove(i);
                row.enabled = enabled;
                self.rows.insert(i, row);
                proof {
                    assert(self.rows_view() =~= rs0.update(i as int, self.rows@[i as int]@));
                    lemma_map_update(rs0, i as int, self.rows@[i as int]@);
                    assert(task_of_record(self.rows@[i as int]@) =~= TaskView {
                        enabled,
                        ..old(self)@[id]
                    });
                }
                Ok(())
            },
        }
    }

    /// Record the exit code of the task under `id`; fails when there is no
    /// such task.
    pub fn update_task_exit_code(&mut self, id: i64, exit_code: i64) -> (r: Result<(), Error>)
        requires
            old(self).wf(),
        ensures
            final(self).wf(),
            r is Ok <==> old(self)@.contains_key(id),
            r is Ok ==> final(self)@ == old(self)@.insert(
                id,
                TaskView { last_exit_code: Some(exit_code), ..old(self)@[id] },
            ),
            r is Err ==> *final(self) == *old(self),
    {
        proof {
            lemma_map_contains(self.rows_view(), id);
        }
        match self.find_index(id) {
            None => Err(Error::new(ErrorKind::Db, String::from_str("no task under this id"))),
            Some(i) => {
                let ghost rs0 = self.rows_view();
                proof {
                    lemma_map_index(rs0, i as int);
                }
                let mut row = self.rows.remove(i);
                row.last_exit_code = Some(exit_code);
                self.rows.insert(i, row);
                proof {
                    assert(self.rows_view() =~= rs0.update(i as int, self.rows@[i as int]@));
                    lemma_map_update(rs0, i as int, self.rows@[i as int]@);
                    assert(task_of_record(self.rows@[i as int]@) =~= TaskView {
                        last_exit_code: Some(exit_code),
                        ..old(self)@[id]
                    });
                }
                Ok(())
            },
        }
    }

    /// Record the launch instant of the task under `id`; fails when there
    /// is no such task.
    pub fn update_task_run_at(&mut self, id: i64, run_at: i64) -> (r: Result<(), Error>)
        requires
            old(self).wf(),
        ensures
            final(self).wf(),
            r is Ok <==> old(self)@.contains_key(id),
            r is Ok ==> final(self)@ == old(self)@.insert(
                id,
                TaskView { last_run_at: Some(run_at), ..old(self)@[id] },
            ),
            r is Err ==> *final(self) == *old(self),
    {
        proof {
            lemma_map_contains(self.rows_view(), id);
        }
        match self.find_index(id) {
            None => Err(Error::new(ErrorKind::Db, String::from_str("no task under this id"))),
            Some(i) => {
                let ghost rs0 = self.rows_view();
                proof {
                    lemma_map_index(rs0, i as int);
                }
                let mut row = self.rows.remove(i);
                row.last_run_at = Some(run_at);
                self.rows.insert(i, row);
                proof {
                    assert(self.rows_view() =~= rs0.update(i as int, self.rows@[i as int]@));
                    lemma_map_update(rs0, i as int, self.rows@[i as int]@);
                    assert(task_of_record(self.rows@[i as int]@) =~= TaskView {
                        last_run_at: Some(run_at),
                        ..old(self)@[id]
                    });
                }
                Ok(())
            },
        }
    }
}

/// Every stored task carries the identifier it is stored under.
pub proof fn lemma_store_ids(s: TaskStore, id: i64)
    requires
        s.wf(),
        s@.contains_key(id),
    ensures
        s@[id].id == Some(id),
{
    lemma_map_contains(s.rows_view(), id);
    let i = choose|i: int| 0 <= i < s.rows_view().len() && s.rows_view()[i].id == id;
    lemma_map_index(s.rows_view(), i);
}

/// Saving a task without an identifier and reading it back under the
/// assigned identifier: the stored task has the saved definition, with
/// `enabled` at its default `true` and no run history yet.
pub proof fn lemma_save_then_get_new(
    m0: Map<i64, TaskView>,
    m1: Map<i64, TaskView>,
    t: TaskView,
    id: i64,
)
    requires
        m1 == m0.insert(id, saved_new(t, id)),
    ensures
        m1.contains_key(id),
        same_definition(m1[id], t),
        m1[id].id == Some(id),
        m1[id].enabled,
        m1[id].last_exit_code is None,
        m1[id].last_run_at is None,
{
}

/// Saving a task under an existing identifier and reading it back: the
/// stored task has the saved definition, with the repository-owned fields
/// kept from the previously stored row.
pub proof fn lemma_save_then_get_update(
    m0: Map<i64, TaskView>,
    m1: Map<i64, TaskView>,
    t: TaskView,
    id: i64,
)
    requires
        m0.contains_key(id),
        m1 == m0.insert(id, saved_update(t, m0[id])),
    ensures
        m1.contains_key(id),
        same_definition(m1[id], t),
        m1[id].id == m0[id].id,
        m1[id].enabled == m0[id].enabled,
        m1[id].last_exit_code == m0[id].last_exit_code,
        m1[id].last_run_at == m0[id].last_run_at,
{
}

} // verus!
