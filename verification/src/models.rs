//! The task record managed by [`crate::handlers::TaskManager`], and the
//! creation request it is built from.

use vstd::prelude::*;

verus! {

/// A managed task record. The identifier is assigned by the manager at
/// creation and never changes.
pub struct Task {
    pub id: i32,
    pub title: String,
    pub description: String,
    pub completed: bool,
}

/// The mathematical value of a [`Task`].
#[verifier::ext_equal]
pub struct TaskView {
    pub id: i32,
    pub title: Seq<char>,
    pub description: Seq<char>,
    pub completed: bool,
}

impl View for Task {
    type V = TaskView;

    open spec fn view(&self) -> TaskView {
        TaskView {
            id: self.id,
            title: self.title@,
            description: self.description@,
            completed: self.completed,
        }
    }
}

impl DeepView for Task {
    type V = TaskView;

    open spec fn deep_view(&self) -> TaskView {
        self.view()
    }
}

/// A creation request: a title, and optionally a description. A request
/// without a description yields a task whose description is empty.
pub struct CreateTask {
    pub title: String,
    pub description: Option<String>,
}

/// The views of a sequence of tasks, in the same order.
pub open spec fn task_views(s: Seq<Task>) -> Seq<TaskView> {
    Seq::new(s.len(), |i: int| s[i]@)
}

/// The value of a task freshly created from a request: the given
/// identifier and title, the supplied description or the empty one, and
/// not yet completed.
pub open spec fn created_task(id: i32, title: Seq<char>, description: Option<Seq<char>>) -> TaskView {
    TaskView {
        id,
        title,
        description: match description {
            Some(d) => d,
            None => Seq::empty(),
        },
        completed: false,
    }
}

/// The value of a task after it is marked complete: only the completion
/// flag changes.
pub open spec fn completed_task(tv: TaskView) -> TaskView {
    TaskView { id: tv.id, title: tv.title, description: tv.description, completed: true }
}

impl Task {
    /// An owned copy of the task with the same mathematical value.
    pub fn duplicate(&self) -> (t: Task)
        ensures
            t@ == self@,
    {
        Task {
            id: self.id,
            title: self.title.clone(),
            description: self.description.clone(),
            completed: self.completed,
        }
    }
}

} // verus!
