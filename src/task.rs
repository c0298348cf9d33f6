//! The task entity and the data that creates or edits one.

use crate::calendar::now;
use crate::calendar::Timestamp;
use crate::ids::fresh_id;
use vstd::prelude::*;

verus! {

/// A unit of work. `completed_at_utc` is `None` while the task is open.
///
/// A task without a project lives in the inbox; a task with a parent is a
/// subtask of that parent.
#[derive(Clone, Debug)]
pub struct Task {
    pub id: u128,
    pub title: String,
    pub description: Option<String>,
    pub project_id: Option<u128>,
    pub parent_task_id: Option<u128>,
    pub due_at_utc: Option<Timestamp>,
    pub created_at_utc: Timestamp,
    pub completed_at_utc: Option<Timestamp>,
    pub updated_at_utc: Timestamp,
}

/// The mathematical value of a [`Task`].
pub struct TaskView {
    pub id: u128,
    pub title: Seq<char>,
    pub description: Option<Seq<char>>,
    pub project_id: Option<u128>,
    pub parent_task_id: Option<u128>,
    pub due_at_utc: Option<Timestamp>,
    pub created_at_utc: Timestamp,
    pub completed_at_utc: Option<Timestamp>,
    pub updated_at_utc: Timestamp,
}

/// The data a caller supplies to create a task: identifiers in their text
/// form and the due date as an RFC 3339 string.
#[derive(Clone, Debug)]
pub struct CreateTaskData {
    pub title: String,
    pub description: Option<String>,
    pub project_id: Option<String>,
    pub due_at_utc: Option<String>,
}

/// The data a caller supplies to edit a task; every field replaces the
/// task's own.
#[derive(Clone, Debug)]
pub struct UpdatedTaskData {
    pub title: String,
    pub description: Option<String>,
    pub project_id: Option<String>,
    pub due_date: Option<String>,
}

pub open spec fn opt_str_view(o: Option<String>) -> Option<Seq<char>> {
    match o {
        Some(s) => Some(s@),
        None => None,
    }
}

pub open spec fn opt_wf(o: Option<Timestamp>) -> bool {
    o matches Some(t) ==> t.wf()
}

impl TaskView {
    /// Every instant the task carries is a real one.
    pub open spec fn wf(self) -> bool {
        &&& self.created_at_utc.wf()
        &&& self.updated_at_utc.wf()
        &&& opt_wf(self.due_at_utc)
        &&& opt_wf(self.completed_at_utc)
    }

    pub open spec fn is_open(self) -> bool {
        self.completed_at_utc is None
    }
}

impl View for Task {
    type V = TaskView;

    open spec fn view(&self) -> TaskView {
        TaskView {
            id: self.id,
            title: self.title@,
            description: opt_str_view(self.description),
            project_id: self.project_id,
            parent_task_id: self.parent_task_id,
            due_at_utc: self.due_at_utc,
            created_at_utc: self.created_at_utc,
            completed_at_utc: self.completed_at_utc,
            updated_at_utc: self.updated_at_utc,
        }
    }
}

/// An equal optional string, owned separately.
pub fn clone_opt_string(o: &Option<String>) -> (r: Option<String>)
    ensures
        r == *o,
{
    match o {
        Some(s) => Some(s.clone()),
        None => None,
    }
}

impl Task {
    /// A new open task with a fresh identifier, created and updated now.
    pub fn new(
        title: String,
        description: Option<String>,
        project_id: Option<u128>,
        parent_task_id: Option<u128>,
        due_at_utc: Option<Timestamp>,
    ) -> (r: Task)
        ensures
            r@.title == title@,
            r@.description == opt_str_view(description),
            r.project_id == project_id,
            r.parent_task_id == parent_task_id,
            r.due_at_utc == due_at_utc,
            r.completed_at_utc is None,
            r.created_at_utc.wf(),
            r.updated_at_utc == r.created_at_utc,
    {
        let at = now();
        Task::new_with_id(fresh_id(), at, title, description, project_id, parent_task_id, due_at_utc)
    }

    /// A new open task with identifier `id`, created and updated at `at`.
    pub fn new_with_id(
        id: u128,
        at: Timestamp,
        title: String,
        description: Option<String>,
        project_id: Option<u128>,
        parent_task_id: Option<u128>,
        due_at_utc: Option<Timestamp>,
    ) -> (r: Task)
        ensures
            r == (Task {
                id,
                title,
                description,
                project_id,
                parent_task_id,
                due_at_utc,
                created_at_utc: at,
                completed_at_utc: None,
                updated_at_utc: at,
            }),
    {
        Task {
            id,
            title,
            description,
            project_id,
            parent_task_id,
            due_at_utc,
            created_at_utc: at,
            completed_at_utc: None,
            updated_at_utc: at,
        }
    }

    /// An equal task, owned separately.
    pub fn duplicate(&self) -> (r: Task)
        ensures
            r == *self,
    {
        Task {
            id: self.id,
            title: self.title.clone(),
            description: clone_opt_string(&self.description),
            project_id: self.project_id,
            parent_task_id: self.parent_task_id,
            due_at_utc: self.due_at_utc,
            created_at_utc: self.created_at_utc,
            completed_at_utc: self.completed_at_utc,
            updated_at_utc: self.updated_at_utc,
        }
    }
}

} // verus!
