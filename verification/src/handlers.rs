//! The resource manager for task records, together with the HTTP-shaped
//! entry points of the task service: each entry point performs the manager
//! operation and reports the status code of the corresponding response.

use vstd::prelude::*;
use crate::manager::{DeleteOutcome, UpdateOutcome};
use crate::models::{completed_task, created_task, task_views, CreateTask, Task, TaskView};
use crate::filtering;

verus! {

/// The predicate a task's view satisfies when it survives a delete of
/// `id`.
pub open spec fn task_id_differs(id: i32) -> spec_fn(TaskView) -> bool {
    |tv: TaskView| tv.id != id
}

/// Owns the collection of task records. Identifiers are assigned from a
/// counter that starts at 1 and only grows, so an identifier is never
/// reused, not even after the record carrying it is deleted.
pub struct TaskManager {
    pub tasks: Vec<Task>,
    pub next_id: i32,
}

impl View for TaskManager {
    type V = Seq<TaskView>;

    open spec fn view(&self) -> Seq<TaskView> {
        task_views(self.tasks@)
    }
}

impl TaskManager {
    /// Well-formedness: identifiers are pairwise distinct and every
    /// identifier in the collection was drawn from the counter.
    pub open spec fn wf(&self) -> bool {
        &&& self.next_id >= 1
        &&& forall|i: int, j: int|
            0 <= i < self@.len() && 0 <= j < self@.len() && i != j ==> #[trigger] self@[i].id
                != #[trigger] self@[j].id
        &&& forall|i: int| 0 <= i < self@.len() ==> #[trigger] self@[i].id < self.next_id
    }

    /// An empty manager.
    pub fn new() -> (m: TaskManager)
        ensures
            m.wf(),
            m@.len() == 0,
            m.next_id == 1,
    {
        TaskManager { tasks: Vec::new(), next_id: 1 }
    }

    /// The index of the task carrying `id`, if any.
    fn find_index(v: &Vec<Task>, id: i32) -> (r: Option<usize>)
        ensures
            match r {
                Some(j) => j < v@.len() && task_views(v@)[j as int].id == id,
                None => forall|k: int| 0 <= k < v@.len() ==> task_views(v@)[k].id != id,
            },
    {
        let mut j: usize = 0;
        while j < v.len()
            invariant
                j <= v@.len(),
                forall|k: int| 0 <= k < j ==> task_views(v@)[k].id != id,
            decreases v@.len() - j,
        {
            if v[j].id == id {
                return Some(j);
            }
            j += 1;
        }
        None
    }

    /// Creates a task from the request, appends it to the collection and
    /// returns a copy of it. The new identifier differs from that of every
    /// existing task.
    pub fn create(&mut self, body: CreateTask) -> (t: Task)
        requires
            old(self).wf(),
            old(self).next_id < i32::MAX,
        ensures
            final(self).wf(),
            final(self).next_id == old(self).next_id + 1,
            t@ =~= created_task(old(self).next_id, body.title@, body.description.deep_view()),
            final(self)@ =~= old(self)@.push(t@),
            forall|i: int| 0 <= i < old(self)@.len() ==> old(self)@[i].id != t@.id,
    {
        let description = match body.description {
            Some(d) => d,
            None => String::new(),
        };
        let t = Task { id: self.next_id, title: body.title, description, completed: false };
        let out = t.duplicate();
        self.tasks.push(t);
        self.next_id = self.next_id + 1;
        proof {
            assert(self@ =~= old(self)@.push(out@));
        }
        out
    }

    /// The whole collection, in insertion order.
    pub fn read_all(&self) -> (r: &Vec<Task>)
        ensures
            task_views(r@) == self@,
    {
        &self.tasks
    }

    /// Marks the task carrying `id` complete, leaving its other fields
    /// unchanged, and reports which outcome occurred. When no task carries
    /// `id`, the collection is left unchanged.
    pub fn complete(&mut self, id: i32) -> (r: UpdateOutcome)
        requires
            old(self).wf(),
        ensures
            final(self).wf(),
            final(self).next_id == old(self).next_id,
            final(self)@.len() == old(self)@.len(),
            (r == UpdateOutcome::Updated <==> (exists|i: int|
                0 <= i < old(self)@.len() && old(self)@[i].id == id)),
            r == UpdateOutcome::NotFound ==> final(self)@ =~= old(self)@,
            forall|i: int|
                0 <= i < old(self)@.len() && old(self)@[i].id != id ==> final(self)@[i] == old(
                    self,
                )@[i],
            forall|i: int|
                0 <= i < old(self)@.len() && old(self)@[i].id == id ==> final(self)@[i]
                    =~= completed_task(old(self)@[i]),
    {
        match Self::find_index(&self.tasks, id) {
            None => UpdateOutcome::NotFound,
            Some(j) => {
                let mut t = self.tasks.remove(j);
                t.completed = true;
                self.tasks.insert(j, t);
                proof {
                    assert forall|i: int| 0 <= i < old(self)@.len() implies self@[i] == (if i
                        == j as int {
                        self.tasks@[j as int]@
                    } else {
                        old(self)@[i]
                    }) by {
                        assert(self.tasks@[i] == if i == j as int {
                            self.tasks@[j as int]
                        } else {
                            old(self).tasks@[i]
                        });
                    }
                    assert(self@[j as int] =~= completed_task(old(self)@[j as int]));
                }
                UpdateOutcome::Updated
            },
        }
    }

    /// Removes the task carrying `id`, if any, and reports which outcome
    /// occurred. On `Deleted` the collection shrinks by exactly one task;
    /// on `NotFound` it is unchanged.
    pub fn delete(&mut self, id: i32) -> (r: DeleteOutcome)
        requires
            old(self).wf(),
        ensures
            final(self).wf(),
            final(self).next_id == old(self).next_id,
            (r == DeleteOutcome::Deleted <==> (exists|i: int|
                0 <= i < old(self)@.len() && old(self)@[i].id == id)),
            final(self)@ =~= old(self)@.filter(task_id_differs(id)),
            r == DeleteOutcome::Deleted ==> final(self)@.len() == old(self)@.len() - 1,
            r == DeleteOutcome::NotFound ==> final(self)@ =~= old(self)@,
    {
        match Self::find_index(&self.tasks, id) {
            None => {
                proof {
                    filtering::lemma_filter_all_pass(self@, task_id_differs(id));
                }
                DeleteOutcome::NotFound
            },
            Some(j) => {
                self.tasks.remove(j);
                proof {
                    assert(self@ =~= old(self)@.remove(j as int));
                    filtering::lemma_filter_removes_unique(old(self)@, task_id_differs(id), j as int);
                }
                DeleteOutcome::Deleted
            },
        }
    }
}

/// Serves a list request: status 200 and a copy of every task, in
/// insertion order.
pub fn get_tasks(m: &TaskManager) -> (r: (u16, Vec<Task>))
    ensures
        r.0 == 200,
        task_views(r.1@) =~= m@,
{
    let mut out: Vec<Task> = Vec::new();
    let n = m.tasks.len();
    let mut i: usize = 0;
    while i < n
        invariant
            i <= n,
            n == m.tasks@.len(),
            out@.len() == i,
            forall|j: int| 0 <= j < i ==> #[trigger] out@[j]@ == m@[j],
        decreases n - i,
    {
        out.push(m.tasks[i].duplicate());
        i += 1;
    }
    (200, out)
}

/// Serves a creation request: the task is created from the body and status
/// 201 is reported.
pub fn add_task(m: &mut TaskManager, body: CreateTask) -> (r: u16)
    requires
        old(m).wf(),
        old(m).next_id < i32::MAX,
    ensures
        r == 201,
        final(m).wf(),
        final(m).next_id == old(m).next_id + 1,
        final(m)@ =~= old(m)@.push(
            created_task(old(m).next_id, body.title@, body.description.deep_view()),
        ),
{
    m.create(body);
    201
}

/// Serves a completion request: the task carrying `id`, if any, is marked
/// complete, and status 200 is reported whether or not such a task exists,
/// as the route treats an absent task the same as an unchanged one.
pub fn complete_task(m: &mut TaskManager, id: i32) -> (r: u16)
    requires
        old(m).wf(),
    ensures
        r == 200,
        final(m).wf(),
        final(m).next_id == old(m).next_id,
        final(m)@.len() == old(m)@.len(),
        forall|i: int|
            0 <= i < old(m)@.len() && old(m)@[i].id != id ==> final(m)@[i] == old(m)@[i],
        forall|i: int|
            0 <= i < old(m)@.len() && old(m)@[i].id == id ==> final(m)@[i] =~= completed_task(
                old(m)@[i],
            ),
{
    m.complete(id);
    200
}

/// Serves a deletion request: the task carrying `id`, if any, is removed,
/// and status 200 is reported whether or not such a task existed.
pub fn delete_task(m: &mut TaskManager, id: i32) -> (r: u16)
    requires
        old(m).wf(),
    ensures
        r == 200,
        final(m).wf(),
        final(m).next_id == old(m).next_id,
        final(m)@ =~= old(m)@.filter(task_id_differs(id)),
        (exists|i: int| 0 <= i < old(m)@.len() && old(m)@[i].id == id) ==> final(m)@.len() == old(
            m,
        )@.len() - 1,
        !(exists|i: int| 0 <= i < old(m)@.len() && old(m)@[i].id == id) ==> final(m)@ =~= old(m)@,
{
    m.delete(id);
    200
}

} // verus!
