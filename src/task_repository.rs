//! The store of tasks and the queries a task list needs.

use crate::calendar::Timestamp;
use crate::store::lists_exactly;
use crate::store::Change;
use crate::store::sort_by_rank;
use crate::store::sorted_by;
use crate::store::Ranker;
use crate::store::Record;
use crate::store::Selector;
use crate::store::Store;
use crate::task::Task;
use vstd::prelude::*;

verus! {

/// Every stored task carries real instants.
pub open spec fn task_map_wf(m: Map<u128, Task>) -> bool {
    forall|k: u128| #[trigger] m.contains_key(k) ==> m[k].id == k && m[k]@.wf()
}

impl Record for Task {
    open spec fn key(&self) -> u128 {
        self.id
    }

    fn id(&self) -> (r: u128) {
        self.id
    }

    fn duplicate(&self) -> (r: Task) {
        Task::duplicate(self)
    }
}

/// Which tasks a query selects.
#[derive(Clone, Copy, Debug, PartialEq, Eq, Structural)]
pub enum TaskFilter {
    /// Every task.
    All,
    /// Tasks not yet completed.
    Open,
    /// Completed tasks.
    Completed,
    /// The tasks of a project, the completed ones only if asked for.
    Project { project_id: u128, include_completed: bool },
    /// The open subtasks of a task.
    OpenSubtasks { parent_task_id: u128 },
    /// The completed subtasks of a task.
    CompletedSubtasks { parent_task_id: u128 },
    /// Open tasks due strictly before an instant.
    DueBefore { date: Timestamp },
    /// Open tasks due on a calendar day.
    DueOn { year: i32, month: u32, day: u32 },
    /// Open tasks with neither project nor parent.
    Inbox,
}

impl TaskFilter {
    pub open spec fn matches(self, t: Task) -> bool {
        let open = t.completed_at_utc is None;
        match self {
            TaskFilter::All => true,
            TaskFilter::Open => open,
            TaskFilter::Completed => !open,
            TaskFilter::Project { project_id, include_completed } => t.project_id == Some(
                project_id,
            ) && (include_completed || open),
            TaskFilter::OpenSubtasks { parent_task_id } => t.parent_task_id == Some(parent_task_id)
                && open,
            TaskFilter::CompletedSubtasks { parent_task_id } => t.parent_task_id == Some(
                parent_task_id,
            ) && !open,
            TaskFilter::DueBefore { date } => open && (t.due_at_utc matches Some(d) && d.before(
                date,
            )),
            TaskFilter::DueOn { year, month, day } => open && (t.due_at_utc matches Some(d) && d.year
                == year && d.month == month && d.day == day),
            TaskFilter::Inbox => open && t.project_id is None && t.parent_task_id is None,
        }
    }
}

impl Selector<Task> for TaskFilter {
    open spec fn selects(&self, t: Task) -> bool {
        self.matches(t)
    }

    fn test(&self, t: &Task) -> (r: bool) {
        let open = t.completed_at_utc.is_none();
        match self {
            TaskFilter::All => true,
            TaskFilter::Open => open,
            TaskFilter::Completed => !open,
            TaskFilter::Project { project_id, include_completed } => t.project_id == Some(
                *project_id,
            ) && (*include_completed || open),
            TaskFilter::OpenSubtasks { parent_task_id } => t.parent_task_id == Some(
                *parent_task_id,
            ) && open,
            TaskFilter::CompletedSubtasks { parent_task_id } => t.parent_task_id == Some(
                *parent_task_id,
            ) && !open,
            TaskFilter::DueBefore { date } => open && match &t.due_at_utc {
                Some(d) => d.is_before(date),
                None => false,
            },
            TaskFilter::DueOn { year, month, day } => open && match &t.due_at_utc {
                Some(d) => d.year == *year && d.month == *month && d.day == *day,
                None => false,
            },
            TaskFilter::Inbox => open && t.project_id.is_none() && t.parent_task_id.is_none(),
        }
    }
}

/// The orders in which task lists come.
#[derive(Clone, Copy, Debug, PartialEq, Eq, Structural)]
pub enum TaskOrder {
    RecentlyUpdatedFirst,
    RecentlyCreatedFirst,
    /// Tasks not completed rank as if completed at rank zero.
    RecentlyCompletedFirst,
    /// Tasks without a due date rank as if due at rank zero.
    EarliestDueFirst,
}

impl Ranker<Task> for TaskOrder {
    open spec fn rank(&self, t: Task) -> int {
        match *self {
            TaskOrder::RecentlyUpdatedFirst => -t.updated_at_utc.rank(),
            TaskOrder::RecentlyCreatedFirst => -t.created_at_utc.rank(),
            TaskOrder::RecentlyCompletedFirst => match t.completed_at_utc {
                Some(c) => -c.rank(),
                None => 0,
            },
            TaskOrder::EarliestDueFirst => match t.due_at_utc {
                Some(d) => d.rank(),
                None => 0,
            },
        }
    }

    fn rank_of(&self, t: &Task) -> (x: i128) {
        match self {
            TaskOrder::RecentlyUpdatedFirst => -t.updated_at_utc.rank_value(),
            TaskOrder::RecentlyCreatedFirst => -t.created_at_utc.rank_value(),
            TaskOrder::RecentlyCompletedFirst => match &t.completed_at_utc {
                Some(c) => -c.rank_value(),
                None => 0,
            },
            TaskOrder::EarliestDueFirst => match &t.due_at_utc {
                Some(d) => d.rank_value(),
                None => 0,
            },
        }
    }
}

/// A change applied at once to every task it concerns.
#[derive(Clone, Copy, Debug, PartialEq, Eq, Structural)]
pub enum BulkChange {
    /// The subtasks of `parent_task_id` join `project_id` and leave their
    /// parent.
    MoveSubtasksToProject { parent_task_id: u128, project_id: u128 },
    /// The open subtasks of `parent_task_id` are completed at `at`.
    CompleteOpenSubtasks { parent_task_id: u128, at: Timestamp },
}

impl BulkChange {
    pub open spec fn concerns(self, t: Task) -> bool {
        match self {
            BulkChange::MoveSubtasksToProject { parent_task_id, .. } => t.parent_task_id == Some(
                parent_task_id,
            ),
            BulkChange::CompleteOpenSubtasks { parent_task_id, .. } => t.parent_task_id == Some(
                parent_task_id,
            ) && t.completed_at_utc is None,
        }
    }

    /// What the change makes of any task.
    pub open spec fn result(self, t: Task) -> Task {
        if !self.concerns(t) {
            t
        } else {
            match self {
                BulkChange::MoveSubtasksToProject { project_id, .. } => Task {
                    project_id: Some(project_id),
                    parent_task_id: None,
                    ..t
                },
                BulkChange::CompleteOpenSubtasks { at, .. } => Task {
                    completed_at_utc: Some(at),
                    updated_at_utc: at,
                    ..t
                },
            }
        }
    }

    pub open spec fn wf(self) -> bool {
        self matches BulkChange::CompleteOpenSubtasks { at, .. } ==> at.wf()
    }
}

impl Change<Task> for BulkChange {
    open spec fn apply(&self, t: Task) -> Task {
        self.result(t)
    }

    fn apply_to(&self, t: &mut Task) {
        match self {
            BulkChange::MoveSubtasksToProject { parent_task_id, project_id } => {
                if t.parent_task_id == Some(*parent_task_id) {
                    t.project_id = Some(*project_id);
                    t.parent_task_id = None;
                }
            },
            BulkChange::CompleteOpenSubtasks { parent_task_id, at } => {
                if t.parent_task_id == Some(*parent_task_id) && t.completed_at_utc.is_none() {
                    t.completed_at_utc = Some(*at);
                    t.updated_at_utc = *at;
                }
            },
        }
    }

    proof fn lemma_keeps_key(&self, t: Task) {
    }
}

/// The tasks of a store, keyed by identifier.
pub struct TaskRepository {
    store: Store<Task>,
}

impl View for TaskRepository {
    type V = Map<u128, Task>;

    closed spec fn view(&self) -> Map<u128, Task> {
        self.store@
    }
}

impl TaskRepository {
    pub closed spec fn store_ok(&self) -> bool {
        self.store.wf()
    }

    pub open spec fn wf(&self) -> bool {
        self.store_ok() && task_map_wf(self@)
    }

    /// An empty store.
    pub fn new() -> (r: Self)
        ensures
            r.wf(),
            r@ == Map::<u128, Task>::empty(),
    {
        TaskRepository { store: Store::new() }
    }

    /// Whether a task with identifier `id` is stored.
    pub fn contains(&self, id: u128) -> (r: bool)
        requires
            self.wf(),
        ensures
            r == self@.contains_key(id),
    {
        self.store.contains(id)
    }

    /// The task with identifier `id`, if it is stored.
    pub fn find_by_id(&self, id: u128) -> (r: Option<Task>)
        requires
            self.wf(),
        ensures
            r is Some <==> self@.contains_key(id),
            r matches Some(t) ==> t == self@[id],
    {
        self.store.get(id)
    }

    /// Stores `task`: inserted where its identifier is new, otherwise
    /// replacing the stored task but for its creation time, which stays.
    /// Its `updated_at_utc` becomes `now`.
    pub fn save(&mut self, task: &mut Task, now: Timestamp)
        requires
            old(self).wf(),
            old(task)@.wf(),
            now.wf(),
        ensures
            *final(task) == (Task {
                updated_at_utc: now,
                created_at_utc: if old(self)@.contains_key(old(task).id) {
                    old(self)@[old(task).id].created_at_utc
                } else {
                    old(task).created_at_utc
                },
                ..*old(task)
            }),
            final(self).wf(),
            final(self)@ == old(self)@.insert(old(task).id, *final(task)),
            old(self)@.contains_key(old(task).id) ==> final(self)@[old(task).id].created_at_utc
                == old(self)@[old(task).id].created_at_utc,
    {
        if let Some(stored) = self.store.get(task.id) {
            task.created_at_utc = stored.created_at_utc;
        }
        task.updated_at_utc = now;
        self.store.put(task.duplicate());
    }

    /// Stores `task` as it is, replacing the task with its identifier.
    pub fn put(&mut self, task: Task)
        requires
            old(self).wf(),
            task@.wf(),
        ensures
            final(self).wf(),
            final(self)@ == old(self)@.insert(task.id, task),
    {
        self.store.put(task);
    }

    /// Removes the task with the identifier of `task`, if it is stored.
    pub fn delete(&mut self, task: &Task)
        requires
            old(self).wf(),
        ensures
            final(self).wf(),
            final(self)@ == old(self)@.remove(task.id),
    {
        self.store.remove(task.id);
    }

    /// Every stored task that `filter` selects, each once, in `order`.
    pub fn find_matching(&self, filter: TaskFilter, order: TaskOrder) -> (r: Vec<Task>)
        requires
            self.wf(),
        ensures
            lists_exactly(r@, self@, |t: Task| filter.matches(t)),
            sorted_by(r@, order),
    {
        let found = self.store.find_matching(&filter);
        let r = sort_by_rank(&found, &order, Ghost(self@), Ghost(|t: Task| filter.selects(t)));
        assert((|t: Task| filter.selects(t)) =~= (|t: Task| filter.matches(t)));
        r
    }

    /// All tasks, or the open ones only.
    pub fn find_all_filtered_by_completed(&self, include_completed: bool) -> (r: Vec<Task>)
        requires
            self.wf(),
        ensures
            lists_exactly(r@, self@, |t: Task| include_completed || t.completed_at_utc is None),
            sorted_by(r@, TaskOrder::RecentlyUpdatedFirst),
    {
        let filter = if include_completed {
            TaskFilter::All
        } else {
            TaskFilter::Open
        };
        let r = self.find_matching(filter, TaskOrder::RecentlyUpdatedFirst);
        assert((|t: Task| filter.matches(t)) =~= (|t: Task|
            include_completed || t.completed_at_utc is None));
        r
    }

    /// The completed tasks.
    pub fn find_completed(&self) -> (r: Vec<Task>)
        requires
            self.wf(),
        ensures
            lists_exactly(r@, self@, |t: Task| t.completed_at_utc is Some),
            sorted_by(r@, TaskOrder::RecentlyCompletedFirst),
    {
        self.find_matching(TaskFilter::Completed, TaskOrder::RecentlyCompletedFirst)
    }

    /// The tasks of a project, the completed ones only if asked for.
    pub fn find_by_project(&self, project_id: u128, include_completed_tasks: bool) -> (r: Vec<
        Task,
    >)
        requires
            self.wf(),
        ensures
            lists_exactly(
                r@,
                self@,
                |t: Task|
                    t.project_id == Some(project_id) && (include_completed_tasks
                        || t.completed_at_utc is None),
            ),
            sorted_by(r@, TaskOrder::RecentlyUpdatedFirst),
    {
        self.find_matching(
            TaskFilter::Project { project_id, include_completed: include_completed_tasks },
            TaskOrder::RecentlyUpdatedFirst,
        )
    }

    /// The open subtasks of a task.
    pub fn find_by_parent(&self, parent_task_id: u128) -> (r: Vec<Task>)
        requires
            self.wf(),
        ensures
            lists_exactly(
                r@,
                self@,
                |t: Task| t.parent_task_id == Some(parent_task_id) && t.completed_at_utc is None,
            ),
            sorted_by(r@, TaskOrder::RecentlyUpdatedFirst),
    {
        self.find_matching(TaskFilter::OpenSubtasks { parent_task_id }, TaskOrder::RecentlyUpdatedFirst)
    }

    /// The completed subtasks of a task.
    pub fn find_completed_by_parent(&self, parent_task_id: u128) -> (r: Vec<Task>)
        requires
            self.wf(),
        ensures
            lists_exactly(
                r@,
                self@,
                |t: Task| t.parent_task_id == Some(parent_task_id) && t.completed_at_utc is Some,
            ),
            sorted_by(r@, TaskOrder::RecentlyCompletedFirst),
    {
        self.find_matching(
            TaskFilter::CompletedSubtasks { parent_task_id },
            TaskOrder::RecentlyCompletedFirst,
        )
    }

    /// The open tasks due strictly before `date`.
    pub fn find_due_before(&self, date: Timestamp) -> (r: Vec<Task>)
        requires
            self.wf(),
        ensures
            lists_exactly(
                r@,
                self@,
                |t: Task|
                    t.completed_at_utc is None && (t.due_at_utc matches Some(d) && d.before(date)),
            ),
            sorted_by(r@, TaskOrder::EarliestDueFirst),
    {
        self.find_matching(TaskFilter::DueBefore { date }, TaskOrder::EarliestDueFirst)
    }

    /// The open tasks due on the day `(year, month, day)`, earliest first.
    pub fn find_due_on(&self, year: i32, month: u32, day: u32) -> (r: Vec<Task>)
        requires
            self.wf(),
        ensures
            lists_exactly(
                r@,
                self@,
                |t: Task|
                    t.completed_at_utc is None && (t.due_at_utc matches Some(d) && d.year == year
                        && d.month == month && d.day == day),
            ),
            sorted_by(r@, TaskOrder::EarliestDueFirst),
    {
        self.find_matching(TaskFilter::DueOn { year, month, day }, TaskOrder::EarliestDueFirst)
    }

    /// The inbox: open tasks with neither project nor parent.
    pub fn find_inbox(&self) -> (r: Vec<Task>)
        requires
            self.wf(),
        ensures
            lists_exactly(
                r@,
                self@,
                |t: Task|
                    t.completed_at_utc is None && t.project_id is None && t.parent_task_id is None,
            ),
            sorted_by(r@, TaskOrder::RecentlyCreatedFirst),
    {
        self.find_matching(TaskFilter::Inbox, TaskOrder::RecentlyCreatedFirst)
    }

    /// Applies `change` to every task it concerns.
    pub fn apply_bulk(&mut self, change: BulkChange)
        requires
            old(self).wf(),
            change.wf(),
        ensures
            final(self).wf(),
            final(self)@ == old(self)@.map_values(|t: Task| change.result(t)),
    {
        self.store.apply_all(&change);
        assert(forall|t: Task| change.apply(t) == change.result(t));
        assert(self@ =~= old(self)@.map_values(|t: Task| change.result(t)));
    }

    /// Every subtask of `parent_task_id` joins `project_id` and leaves its
    /// parent.
    pub fn move_subtasks_to_project(&mut self, parent_task_id: u128, project_id: u128)
        requires
            old(self).wf(),
        ensures
            final(self).wf(),
            final(self)@ == old(self)@.map_values(
                |t: Task|
                    if t.parent_task_id == Some(parent_task_id) {
                        Task { project_id: Some(project_id), parent_task_id: None, ..t }
                    } else {
                        t
                    },
            ),
    {
        let change = BulkChange::MoveSubtasksToProject { parent_task_id, project_id };
        self.apply_bulk(change);
        assert(self@ =~= old(self)@.map_values(
            |t: Task|
                if t.parent_task_id == Some(parent_task_id) {
                    Task { project_id: Some(project_id), parent_task_id: None, ..t }
                } else {
                    t
                },
        ));
    }
}

} // verus!
