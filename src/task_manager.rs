//! The task lifecycle: creation, editing, deletion, the completion toggle
//! with its cascade to subtasks and its recurrence, and promotion of a task
//! into a project.

use crate::calendar::next_due;
use crate::calendar::now;
use crate::calendar::optional_instant;
use crate::calendar::parse_optional_timestamp;
use crate::calendar::Timestamp;
use crate::error::TaskError;
use crate::ids::fresh_id;
use crate::ids::optional_uuid;
use crate::ids::parse_optional_id;
use crate::project::Project;
use crate::project::ProjectRepository;
use crate::project::ProjectsManager;
use crate::recurring_task::has_series;
use crate::recurring_task::series_of;
use crate::recurring_task::RecurringTask;
use crate::recurring_task::RecurringTaskRepository;
use crate::recurring_task_manager::completion_handled;
use crate::recurring_task_manager::RecurringTaskManager;
use crate::statistics::statistics_of;
use crate::statistics::PeriodTaskStatistic;
use crate::store::lists_exactly;
use crate::store::sorted_by;
use crate::task::CreateTaskData;
use crate::task::Task;
use crate::task::UpdatedTaskData;
use crate::task_repository::BulkChange;
use crate::task_repository::TaskOrder;
use crate::task_repository::TaskRepository;
use vstd::prelude::*;

verus! {

/// The contents of the three stores.
pub struct Stores {
    pub tasks: Map<u128, Task>,
    pub projects: Map<u128, Project>,
    pub series: Map<u128, RecurringTask>,
}

/// The stores a manager works on.
pub struct RepositoryProvider {
    pub task_repository: TaskRepository,
    pub project_repository: ProjectRepository,
    pub recurring_task_repository: RecurringTaskRepository,
}

impl RepositoryProvider {
    pub open spec fn wf(&self) -> bool {
        &&& self.task_repository.wf()
        &&& self.project_repository.wf()
        &&& self.recurring_task_repository.wf()
    }

    /// Three empty stores.
    pub fn new() -> (r: Self)
        ensures
            r.wf(),
            r.task_repository@ == Map::<u128, Task>::empty(),
            r.project_repository@ == Map::<u128, Project>::empty(),
            r.recurring_task_repository@ == Map::<u128, RecurringTask>::empty(),
    {
        RepositoryProvider {
            task_repository: TaskRepository::new(),
            project_repository: ProjectRepository::new(),
            recurring_task_repository: RecurringTaskRepository::new(),
        }
    }
}

/// What completing `t` at `at` does to the task itself: an open task is
/// completed, a completed one is opened again.
pub open spec fn toggled(t: Task, at: Timestamp) -> Task {
    if t.completed_at_utc is Some {
        Task { completed_at_utc: None, updated_at_utc: at, ..t }
    } else {
        Task { completed_at_utc: Some(at), updated_at_utc: at, ..t }
    }
}

/// Storing `task` as a new task: `DuplicateId` where its identifier is
/// taken, otherwise the task is added and returned.
pub open spec fn task_inserted(old: Stores, task: Task, new: Stores, r: Result<Task, TaskError>) -> bool {
    if old.tasks.contains_key(task.id) {
        r == Err::<Task, TaskError>(TaskError::DuplicateId) && new == old
    } else {
        r == Ok::<Task, TaskError>(task) && new == Stores { tasks: old.tasks.insert(task.id, task), ..old }
    }
}

/// Why the data to create a task is refused, if it is: an empty title or
/// malformed text, then a project that is not stored.
pub open spec fn create_refusal(data: CreateTaskData, projects: Map<u128, Project>) -> Option<TaskError> {
    if data.title@.len() == 0 || optional_uuid(data.project_id) is Err || optional_instant(
        data.due_at_utc,
    ) is Err {
        Some(TaskError::InvalidInput)
    } else if optional_uuid(data.project_id) matches Ok(Some(p)) && !projects.contains_key(p) {
        Some(TaskError::InvalidReference)
    } else {
        None
    }
}

/// The outcome of creating a task from `data` at `at` with identifier
/// `new_id`.
pub open spec fn task_creation(
    old: Stores,
    data: CreateTaskData,
    at: Timestamp,
    new_id: u128,
    new: Stores,
    r: Result<Task, TaskError>,
) -> bool {
    match create_refusal(data, old.projects) {
        Some(e) => r == Err::<Task, TaskError>(e) && new == old,
        None => task_inserted(
            old,
            Task {
                id: new_id,
                title: data.title,
                description: data.description,
                project_id: optional_uuid(data.project_id)->Ok_0,
                parent_task_id: None,
                due_at_utc: optional_instant(data.due_at_utc)->Ok_0,
                created_at_utc: at,
                completed_at_utc: None,
                updated_at_utc: at,
            },
            new,
            r,
        ),
    }
}

/// The outcome of creating a subtask of `parent` from `data` at `at` with
/// identifier `new_id`: it takes the parent's project, whatever `data`
/// names, and its own due date only.
pub open spec fn subtask_creation(
    old: Stores,
    parent: Task,
    data: CreateTaskData,
    at: Timestamp,
    new_id: u128,
    new: Stores,
    r: Result<Task, TaskError>,
) -> bool {
    if data.title@.len() == 0 || optional_instant(data.due_at_utc) is Err {
        r == Err::<Task, TaskError>(TaskError::InvalidInput) && new == old
    } else if !old.tasks.contains_key(parent.id) {
        r == Err::<Task, TaskError>(TaskError::InvalidReference) && new == old
    } else {
        task_inserted(
            old,
            Task {
                id: new_id,
                title: data.title,
                description: data.description,
                project_id: parent.project_id,
                parent_task_id: Some(parent.id),
                due_at_utc: optional_instant(data.due_at_utc)->Ok_0,
                created_at_utc: at,
                completed_at_utc: None,
                updated_at_utc: at,
            },
            new,
            r,
        )
    }
}

/// The outcome of editing task `task_id` with `data` at `at`.
///
/// Where the due date changes to a new one and a series is bound to the
/// task, the series' due date becomes `next_due` of the new date.
pub open spec fn task_update(
    old: Stores,
    task_id: u128,
    data: UpdatedTaskData,
    at: Timestamp,
    new: Stores,
    r: Result<Task, TaskError>,
) -> bool {
    if !old.tasks.contains_key(task_id) {
        r == Err::<Task, TaskError>(TaskError::TaskNotFound) && new == old
    } else if data.title@.len() == 0 || optional_uuid(data.project_id) is Err || optional_instant(
        data.due_date,
    ) is Err {
        r == Err::<Task, TaskError>(TaskError::InvalidInput) && new == old
    } else if optional_uuid(data.project_id) matches Ok(Some(p)) && !old.projects.contains_key(p) {
        r == Err::<Task, TaskError>(TaskError::InvalidReference) && new == old
    } else {
        let t = old.tasks[task_id];
        let u = Task {
            title: data.title,
            description: data.description,
            project_id: optional_uuid(data.project_id)->Ok_0,
            due_at_utc: optional_instant(data.due_date)->Ok_0,
            updated_at_utc: at,
            ..t
        };
        let tasks = old.tasks.insert(task_id, u);
        match (u.due_at_utc, series_of(old.series, task_id)) {
            (Some(d), Some(s)) => if u.due_at_utc == t.due_at_utc {
                r == Ok::<Task, TaskError>(u) && new == Stores { tasks, ..old }
            } else {
                match next_due(d, s.frequency, s.interval as nat) {
                    None => r == Err::<Task, TaskError>(TaskError::DateOutOfRange) && new == old,
                    Some(n) => r == Ok::<Task, TaskError>(u) && new == Stores {
                        tasks,
                        series: old.series.insert(
                            s.id,
                            RecurringTask { next_due_at_utc: n, updated_at_utc: at, ..s },
                        ),
                        ..old
                    },
                }
            },
            _ => r == Ok::<Task, TaskError>(u) && new == Stores { tasks, ..old },
        }
    }
}

/// The outcome of deleting task `task_id`: the task goes, and with it the
/// series bound to it, which would otherwise point at nothing.
pub open spec fn task_deletion(old: Stores, task_id: u128, new: Stores) -> bool {
    &&& new.tasks == old.tasks.remove(task_id)
    &&& new.projects == old.projects
    &&& new.series == match series_of(old.series, task_id) {
        Some(s) => old.series.remove(s.id),
        None => old.series,
    }
}

/// The tasks after completing the open task `task_id` at `at`, before its
/// series (if any) spawns the next occurrence: its open subtasks and the
/// task itself are completed.
pub open spec fn closed_tasks(tasks: Map<u128, Task>, task_id: u128, at: Timestamp) -> Map<u128, Task> {
    let cascade = BulkChange::CompleteOpenSubtasks { parent_task_id: task_id, at };
    tasks.map_values(|t: Task| cascade.result(t)).insert(task_id, toggled(tasks[task_id], at))
}

/// The outcome of completing task `task_id` at `at`, with `new_id` drawn
/// for a next occurrence.
///
/// A task that is not stored: nothing happens. A completed task: it is
/// opened again. An open task: its open subtasks and itself are completed,
/// then its series, if any, spawns the next occurrence, which is returned.
/// Where that spawn fails, the completion stays.
pub open spec fn task_completion(
    old: Stores,
    task_id: u128,
    at: Timestamp,
    new_id: u128,
    new: Stores,
    r: Result<Option<Task>, TaskError>,
) -> bool {
    if !old.tasks.contains_key(task_id) {
        r == Ok::<Option<Task>, TaskError>(None) && new == old
    } else if old.tasks[task_id].completed_at_utc is Some {
        r == Ok::<Option<Task>, TaskError>(None) && new == Stores {
            tasks: old.tasks.insert(task_id, toggled(old.tasks[task_id], at)),
            ..old
        }
    } else {
        &&& new.projects == old.projects
        &&& completion_handled(
            old.series,
            closed_tasks(old.tasks, task_id, at),
            old.tasks[task_id],
            at,
            new_id,
            new.series,
            new.tasks,
            r,
        )
    }
}

/// The outcome of promoting task `task_id` into a project with identifier
/// `new_id` at `at`: the project takes the task's title and description,
/// the task's subtasks move to it, and the task is completed.
pub open spec fn task_promotion(
    old: Stores,
    task_id: u128,
    at: Timestamp,
    new_id: u128,
    new: Stores,
    r: Result<Project, TaskError>,
) -> bool {
    if !old.tasks.contains_key(task_id) {
        r == Err::<Project, TaskError>(TaskError::TaskNotFound) && new == old
    } else if old.projects.contains_key(new_id) {
        r == Err::<Project, TaskError>(TaskError::DuplicateId) && new == old
    } else {
        let t = old.tasks[task_id];
        let p = Project {
            id: new_id,
            title: t.title,
            emoji: None,
            color: None,
            description: t.description,
            created_at_utc: at,
            updated_at_utc: at,
            archived_at_utc: None,
            is_favorite: false,
        };
        let move_change = BulkChange::MoveSubtasksToProject { parent_task_id: task_id, project_id: new_id };
        let moved = old.tasks.map_values(|v: Task| move_change.result(v));
        &&& r == Ok::<Project, TaskError>(p)
        &&& new.projects == old.projects.insert(new_id, p)
        &&& new.series == old.series
        &&& new.tasks == moved.insert(
            task_id,
            Task { completed_at_utc: Some(at), updated_at_utc: at, ..moved[task_id] },
        )
    }
}

/// Task `t` completed at `at`, whatever its state.
pub open spec fn archived(t: Task, at: Timestamp) -> Task {
    Task { completed_at_utc: Some(at), updated_at_utc: at, ..t }
}

/// `r` holds exactly the open tasks of `m` due on the day of `today`.
pub open spec fn lists_due_on(r: Seq<Task>, m: Map<u128, Task>, today: Timestamp) -> bool {
    lists_exactly(
        r,
        m,
        |t: Task|
            t.completed_at_utc is None && (t.due_at_utc matches Some(d) && d.year == today.year
                && d.month == today.month && d.day == today.day),
    )
}

/// Completion toggles: one completion flips a task between open and
/// completed, two restore its state, three act as one. An open task is
/// completed, opened again, and completed again.
pub proof fn lemma_completion_toggles(t: Task, a1: Timestamp, a2: Timestamp, a3: Timestamp)
    ensures
        (toggled(t, a1).completed_at_utc is Some) == (t.completed_at_utc is None),
        (toggled(toggled(t, a1), a2).completed_at_utc is Some) == (t.completed_at_utc is Some),
        (toggled(toggled(toggled(t, a1), a2), a3).completed_at_utc is Some) == (toggled(
            t,
            a1,
        ).completed_at_utc is Some),
        t.completed_at_utc is None ==> {
            &&& toggled(t, a1).completed_at_utc == Some(a1)
            &&& toggled(toggled(t, a1), a2).completed_at_utc is None
            &&& toggled(toggled(toggled(t, a1), a2), a3).completed_at_utc == Some(a3)
        },
{
}

/// Task `t` after completing it at each instant of `ats` in turn.
pub open spec fn toggled_at_each(t: Task, ats: Seq<Timestamp>) -> Task
    decreases ats.len(),
{
    if ats.len() == 0 {
        t
    } else {
        toggled(toggled_at_each(t, ats.drop_last()), ats.last())
    }
}

/// Completion toggles, however often it is repeated: after `n` completions
/// a task is completed exactly when it started open and `n` is odd, or
/// started completed and `n` is even. It does not accumulate.
pub proof fn lemma_completions_alternate(t: Task, ats: Seq<Timestamp>)
    ensures
        (toggled_at_each(t, ats).completed_at_utc is Some) == ((t.completed_at_utc is Some) == (ats.len()
            % 2 == 0)),
    decreases ats.len(),
{
    if ats.len() > 0 {
        lemma_completions_alternate(t, ats.drop_last());
    }
}

/// Completing an open task completes it and its open direct subtasks and
/// leaves every other stored task as it was, whether or not a next
/// occurrence follows; without a series bound to it, nothing else happens
/// and `Ok(None)` comes back.
pub proof fn lemma_cascade(old: Stores, task_id: u128, at: Timestamp, new_id: u128, new: Stores, r: Result<
    Option<Task>,
    TaskError,
>)
    requires
        task_completion(old, task_id, at, new_id, new, r),
        old.tasks.contains_key(task_id),
        old.tasks[task_id].id == task_id,
        old.tasks[task_id].completed_at_utc is None,
    ensures
        new.tasks.contains_key(task_id),
        new.tasks[task_id].completed_at_utc == Some(at),
        forall|k: u128|
            #[trigger] old.tasks.contains_key(k) && k != task_id ==> new.tasks.contains_key(k)
                && new.tasks[k] == (BulkChange::CompleteOpenSubtasks { parent_task_id: task_id, at }).result(
                old.tasks[k],
            ),
        forall|k: u128|
            #[trigger] old.tasks.contains_key(k) && k != task_id && old.tasks[k].parent_task_id == Some(
                task_id,
            ) && old.tasks[k].completed_at_utc is None ==> new.tasks[k].completed_at_utc == Some(at),
        !has_series(old.series, task_id) ==> r == Ok::<Option<Task>, TaskError>(None) && new.tasks
            == closed_tasks(old.tasks, task_id, at) && new.series == old.series,
{
    let closed = closed_tasks(old.tasks, task_id, at);
    assert(closed.dom() =~= old.tasks.dom());
    if !has_series(old.series, task_id) {
        assert(series_of(old.series, task_id) is None);
        assert(series_of(old.series, old.tasks[task_id].id) is None);
    }
}

/// Orchestrates the task lifecycle over the stores it owns.
pub struct TaskManager {
    pub repository_provider: RepositoryProvider,
}

impl TaskManager {
    pub open spec fn wf(&self) -> bool {
        self.repository_provider.wf()
    }

    pub open spec fn stores(&self) -> Stores {
        Stores {
            tasks: self.repository_provider.task_repository@,
            projects: self.repository_provider.project_repository@,
            series: self.repository_provider.recurring_task_repository@,
        }
    }

    pub open spec fn tasks(&self) -> Map<u128, Task> {
        self.repository_provider.task_repository@
    }

    /// A manager over `repository_provider`.
    pub fn new(repository_provider: RepositoryProvider) -> (r: Self)
        requires
            repository_provider.wf(),
        ensures
            r.wf(),
            r.repository_provider == repository_provider,
    {
        TaskManager { repository_provider }
    }

    /// Stores `task` as a new task; see [`task_inserted`].
    fn insert_new(&mut self, task: Task) -> (r: Result<Task, TaskError>)
        requires
            old(self).wf(),
            task@.wf(),
        ensures
            final(self).wf(),
            task_inserted(old(self).stores(), task, final(self).stores(), r),
    {
        if self.repository_provider.task_repository.contains(task.id) {
            return Err(TaskError::DuplicateId);
        }
        self.repository_provider.task_repository.put(task.duplicate());
        Ok(task)
    }

    /// Creates a task from `data` at `at` with identifier `new_id`; see
    /// [`task_creation`].
    pub fn create_task_at(&mut self, data: CreateTaskData, at: Timestamp, new_id: u128) -> (r:
        Result<Task, TaskError>)
        requires
            old(self).wf(),
            at.wf(),
        ensures
            final(self).wf(),
            task_creation(old(self).stores(), data, at, new_id, final(self).stores(), r),
    {
        let ghost old_data = data;
        let project_id = parse_optional_id(&data.project_id);
        let due = parse_optional_timestamp(&data.due_at_utc);
        if data.title.as_str().is_empty() {
            return Err(TaskError::InvalidInput);
        }
        let project_id = match project_id {
            Ok(p) => p,
            Err(_) => return Err(TaskError::InvalidInput),
        };
        let due = match due {
            Ok(d) => d,
            Err(_) => return Err(TaskError::InvalidInput),
        };
        if let Some(p) = project_id {
            if !self.repository_provider.project_repository.contains(p) {
                return Err(TaskError::InvalidReference);
            }
        }
        let task = Task::new_with_id(new_id, at, data.title, data.description, project_id, None, due);
        self.insert_new(task)
    }

    /// Creates a task from `data` now, with a freshly drawn identifier; the
    /// outcome is that of [`TaskManager::create_task_at`] for some instant
    /// and identifier.
    pub fn create_task(&mut self, data: CreateTaskData) -> (r: Result<Task, TaskError>)
        requires
            old(self).wf(),
        ensures
            final(self).wf(),
            exists|at: Timestamp, new_id: u128|
                at.wf() && #[trigger] task_creation(
                    old(self).stores(),
                    data,
                    at,
                    new_id,
                    final(self).stores(),
                    r,
                ),
    {
        let at = now();
        self.create_task_at(data, at, fresh_id())
    }

    /// Creates a subtask of `parent_task` from `data` at `at` with
    /// identifier `new_id`; see [`subtask_creation`].
    ///
    /// Nesting is not limited here: the parent may itself be a subtask, and
    /// completing a task reaches its direct subtasks only.
    pub fn create_subtask_for_task_at(
        &mut self,
        parent_task: Task,
        data: CreateTaskData,
        at: Timestamp,
        new_id: u128,
    ) -> (r: Result<Task, TaskError>)
        requires
            old(self).wf(),
            at.wf(),
        ensures
            final(self).wf(),
            subtask_creation(old(self).stores(), parent_task, data, at, new_id, final(self).stores(), r),
    {
        let due = parse_optional_timestamp(&data.due_at_utc);
        if data.title.as_str().is_empty() {
            return Err(TaskError::InvalidInput);
        }
        let due = match due {
            Ok(d) => d,
            Err(_) => return Err(TaskError::InvalidInput),
        };
        if !self.repository_provider.task_repository.contains(parent_task.id) {
            return Err(TaskError::InvalidReference);
        }
        let task = Task::new_with_id(
            new_id,
            at,
            data.title,
            data.description,
            parent_task.project_id,
            Some(parent_task.id),
            due,
        );
        self.insert_new(task)
    }

    /// Creates a subtask of `parent_task` now, with a freshly drawn
    /// identifier; the outcome is that of
    /// [`TaskManager::create_subtask_for_task_at`] for some instant and
    /// identifier.
    pub fn create_subtask_for_task(&mut self, parent_task: Task, data: CreateTaskData) -> (r: Result<
        Task,
        TaskError,
    >)
        requires
            old(self).wf(),
        ensures
            final(self).wf(),
            exists|at: Timestamp, new_id: u128|
                at.wf() && #[trigger] subtask_creation(
                    old(self).stores(),
                    parent_task,
                    data,
                    at,
                    new_id,
                    final(self).stores(),
                    r,
                ),
    {
        let at = now();
        self.create_subtask_for_task_at(parent_task, data, at, fresh_id())
    }

    /// Edits task `task_id` with `data` at `at`; see [`task_update`].
    pub fn update_task_at(&mut self, task_id: u128, data: UpdatedTaskData, at: Timestamp) -> (r:
        Result<Task, TaskError>)
        requires
            old(self).wf(),
            at.wf(),
        ensures
            final(self).wf(),
            task_update(old(self).stores(), task_id, data, at, final(self).stores(), r),
    {
        let task = match self.repository_provider.task_repository.find_by_id(task_id) {
            Some(t) => t,
            None => return Err(TaskError::TaskNotFound),
        };
        let project_id = parse_optional_id(&data.project_id);
        let due = parse_optional_timestamp(&data.due_date);
        if data.title.as_str().is_empty() {
            return Err(TaskError::InvalidInput);
        }
        let project_id = match project_id {
            Ok(p) => p,
            Err(_) => return Err(TaskError::InvalidInput),
        };
        let due = match due {
            Ok(d) => d,
            Err(_) => return Err(TaskError::InvalidInput),
        };
        if let Some(p) = project_id {
            if !self.repository_provider.project_repository.contains(p) {
                return Err(TaskError::InvalidReference);
            }
        }
        if let Some(d) = due {
            if due != task.due_at_utc {
                match RecurringTaskManager::handle_task_update_at(
                    &mut self.repository_provider.recurring_task_repository,
                    task_id,
                    d,
                    at,
                ) {
                    Ok(()) => {},
                    Err(e) => return Err(e),
                }
            }
        }
        let mut updated = Task {
            title: data.title,
            description: data.description,
            project_id,
            due_at_utc: due,
            ..task
        };
        self.repository_provider.task_repository.save(&mut updated, at);
        Ok(updated)
    }

    /// Edits task `task_id` with `data` now; the outcome is that of
    /// [`TaskManager::update_task_at`] for some instant.
    pub fn update_task(&mut self, task_id: u128, data: UpdatedTaskData) -> (r: Result<
        Task,
        TaskError,
    >)
        requires
            old(self).wf(),
        ensures
            final(self).wf(),
            exists|at: Timestamp|
                at.wf() && #[trigger] task_update(old(self).stores(), task_id, data, at, final(self).stores(), r),
    {
        let at = now();
        self.update_task_at(task_id, data, at)
    }

    /// Deletes task `task_id`, if it is stored, with the series bound to
    /// it; see [`task_deletion`].
    pub fn delete_task(&mut self, task_id: u128)
        requires
            old(self).wf(),
        ensures
            final(self).wf(),
            task_deletion(old(self).stores(), task_id, final(self).stores()),
    {
        if let Some(task) = self.repository_provider.task_repository.find_by_id(task_id) {
            self.repository_provider.task_repository.delete(&task);
        } else {
            assert(self.tasks() =~= self.tasks().remove(task_id));
        }
        RecurringTaskManager::delete_recurring_task(
            &mut self.repository_provider.recurring_task_repository,
            task_id,
        );
    }

    /// Completes task `task_id` at `at`, or opens it again where it is
    /// completed; see [`task_completion`]. Returns the next occurrence where
    /// the task recurs.
    pub fn complete_task_at(&mut self, task_id: u128, at: Timestamp, new_id: u128) -> (r: Result<
        Option<Task>,
        TaskError,
    >)
        requires
            old(self).wf(),
            at.wf(),
        ensures
            final(self).wf(),
            task_completion(old(self).stores(), task_id, at, new_id, final(self).stores(), r),
            old(self).tasks().contains_key(task_id) ==> final(self).tasks().contains_key(task_id)
                && final(self).tasks()[task_id] == toggled(old(self).tasks()[task_id], at),
            old(self).tasks().contains_key(task_id) && old(self).tasks()[task_id].completed_at_utc is None
                ==> forall|k: u128|
                #![trigger old(self).tasks()[k]]
                old(self).tasks().contains_key(k) && k != task_id ==> final(self).tasks().contains_key(k) && final(self).tasks()[k] == (BulkChange::CompleteOpenSubtasks {
                    parent_task_id: task_id,
                    at,
                }).result(old(self).tasks()[k]),
    {
        let mut task = match self.repository_provider.task_repository.find_by_id(task_id) {
            Some(t) => t,
            None => return Ok(None),
        };
        if task.completed_at_utc.is_some() {
            task.completed_at_utc = None;
            self.repository_provider.task_repository.save(&mut task, at);
            return Ok(None);
        }
        let ghost before = self.tasks();
        self.repository_provider.task_repository.apply_bulk(
            BulkChange::CompleteOpenSubtasks { parent_task_id: task_id, at },
        );
        let open_task = task.duplicate();
        task.completed_at_utc = Some(at);
        self.repository_provider.task_repository.save(&mut task, at);
        assert(self.tasks() =~= closed_tasks(before, task_id, at));
        let r = RecurringTaskManager::handle_task_completion_at(
            &mut self.repository_provider.recurring_task_repository,
            &mut self.repository_provider.task_repository,
            &open_task,
            at,
            new_id,
        );
        r
    }

    /// Completes (or reopens) task `task_id` now, drawing the identifier of
    /// a next occurrence; the outcome is that of
    /// [`TaskManager::complete_task_at`] for some instant and identifier.
    pub fn complete_task(&mut self, task_id: u128) -> (r: Result<Option<Task>, TaskError>)
        requires
            old(self).wf(),
        ensures
            final(self).wf(),
            exists|at: Timestamp, new_id: u128|
                at.wf() && #[trigger] task_completion(
                    old(self).stores(),
                    task_id,
                    at,
                    new_id,
                    final(self).stores(),
                    r,
                ),
            old(self).tasks().contains_key(task_id) && old(self).tasks()[task_id].completed_at_utc is None ==> {
                &&& final(self).tasks()[task_id].completed_at_utc is Some
                &&& forall|k: u128|
                    #[trigger] old(self).tasks().contains_key(k) && k != task_id && old(self).tasks()[k].parent_task_id == Some(task_id) && old(self).tasks()[k].completed_at_utc
                        is None ==> final(self).tasks()[k].completed_at_utc is Some
                &&& forall|k: u128|
                    #[trigger] old(self).tasks().contains_key(k) && k != task_id && !(old(self).tasks()[k].parent_task_id == Some(task_id) && old(self).tasks()[k].completed_at_utc
                        is None) ==> final(self).tasks()[k] == old(self).tasks()[k]
                &&& !has_series(old(self).stores().series, task_id) ==> r == Ok::<Option<Task>, TaskError>(None)
            },
            old(self).tasks().contains_key(task_id) && old(self).tasks()[task_id].completed_at_utc is Some
                ==> r == Ok::<Option<Task>, TaskError>(None) && final(self).tasks()[task_id].completed_at_utc
                is None,
    {
        let at = now();
        let new_id = fresh_id();
        let ghost before = self.stores();
        let r = self.complete_task_at(task_id, at, new_id);
        proof {
            if before.tasks.contains_key(task_id) && before.tasks[task_id].completed_at_utc is None {
                lemma_cascade(before, task_id, at, new_id, self.stores(), r);
            }
        }
        r
    }

    /// Promotes task `task_id` into a new project with identifier `new_id`
    /// at `at`; see [`task_promotion`].
    pub fn promote_task_to_project_at(&mut self, task_id: u128, at: Timestamp, new_id: u128) -> (r:
        Result<Project, TaskError>)
        requires
            old(self).wf(),
            at.wf(),
        ensures
            final(self).wf(),
            task_promotion(old(self).stores(), task_id, at, new_id, final(self).stores(), r),
            r matches Ok(p) ==> {
                &&& final(self).tasks()[task_id].completed_at_utc == Some(at)
                &&& forall|k: u128|
                    #![trigger old(self).tasks()[k]]
                    old(self).tasks().contains_key(k) && k != task_id && old(self).tasks()[k].parent_task_id == Some(task_id) ==> final(self).tasks()[k].project_id == Some(p.id) && final(self).tasks()[k].parent_task_id
                        is None
            },
    {
        let task = match self.repository_provider.task_repository.find_by_id(task_id) {
            Some(t) => t,
            None => return Err(TaskError::TaskNotFound),
        };
        let project = match ProjectsManager::create_project_at(
            &mut self.repository_provider.project_repository,
            task.title,
            None,
            None,
            task.description,
            at,
            new_id,
        ) {
            Ok(p) => p,
            Err(e) => return Err(e),
        };
        self.repository_provider.task_repository.move_subtasks_to_project(task_id, new_id);
        let ghost moved = self.tasks();
        if self.archive_task_at(task_id, at).is_err() {
            return Err(TaskError::TaskNotFound);
        }
        let ghost move_change = BulkChange::MoveSubtasksToProject { parent_task_id: task_id, project_id: new_id };
        assert(moved =~= old(self).tasks().map_values(|v: Task| move_change.result(v)));
        Ok(project)
    }

    /// Promotes task `task_id` into a new project now, with a freshly drawn
    /// identifier; the outcome is that of
    /// [`TaskManager::promote_task_to_project_at`] for some instant and
    /// identifier.
    pub fn promote_task_to_project(&mut self, task_id: u128) -> (r: Result<Project, TaskError>)
        requires
            old(self).wf(),
        ensures
            final(self).wf(),
            exists|at: Timestamp, new_id: u128|
                at.wf() && #[trigger] task_promotion(
                    old(self).stores(),
                    task_id,
                    at,
                    new_id,
                    final(self).stores(),
                    r,
                ),
            !old(self).tasks().contains_key(task_id) ==> r == Err::<Project, TaskError>(
                TaskError::TaskNotFound,
            ) && final(self).stores() == old(self).stores(),
            r is Err ==> final(self).stores() == old(self).stores(),
            r matches Ok(p) ==> {
                &&& old(self).tasks().contains_key(task_id)
                &&& !old(self).stores().projects.contains_key(p.id)
                &&& p.title == old(self).tasks()[task_id].title
                &&& p.description == old(self).tasks()[task_id].description
                &&& p.archived_at_utc is None
                &&& final(self).stores().projects == old(self).stores().projects.insert(p.id, p)
                &&& final(self).tasks()[task_id].completed_at_utc is Some
                &&& forall|k: u128|
                    #![trigger old(self).tasks()[k]]
                    old(self).tasks().contains_key(k) && k != task_id && old(self).tasks()[k].parent_task_id
                        == Some(task_id) ==> final(self).tasks()[k].project_id == Some(p.id) && final(self).tasks()[k].parent_task_id is None
            },
    {
        let at = now();
        self.promote_task_to_project_at(task_id, at, fresh_id())
    }

    /// Marks task `task_id` completed at `at`, whatever its state;
    /// `TaskNotFound` where it is not stored.
    pub fn archive_task_at(&mut self, task_id: u128, at: Timestamp) -> (r: Result<(), TaskError>)
        requires
            old(self).wf(),
            at.wf(),
        ensures
            final(self).wf(),
            !old(self).tasks().contains_key(task_id) ==> r == Err::<(), TaskError>(TaskError::TaskNotFound)
                && final(self).stores() == old(self).stores(),
            old(self).tasks().contains_key(task_id) ==> r is Ok && final(self).stores() == (Stores {
                tasks: old(self).tasks().insert(
                    task_id,
                    archived(old(self).tasks()[task_id], at),
                ),
                ..old(self).stores()
            }),
    {
        let mut task = match self.repository_provider.task_repository.find_by_id(task_id) {
            Some(t) => t,
            None => return Err(TaskError::TaskNotFound),
        };
        task.completed_at_utc = Some(at);
        self.repository_provider.task_repository.save(&mut task, at);
        Ok(())
    }

    /// Marks task `task_id` completed now; the outcome is that of
    /// [`TaskManager::archive_task_at`] for some instant.
    pub fn archive_task(&mut self, task_id: u128) -> (r: Result<(), TaskError>)
        requires
            old(self).wf(),
        ensures
            final(self).wf(),
            !old(self).tasks().contains_key(task_id) ==> r == Err::<(), TaskError>(TaskError::TaskNotFound)
                && final(self).stores() == old(self).stores(),
            old(self).tasks().contains_key(task_id) ==> r is Ok && exists|at: Timestamp|
                at.wf() && final(self).stores() == (Stores {
                    tasks: old(self).tasks().insert(
                        task_id,
                        #[trigger] archived(old(self).tasks()[task_id], at),
                    ),
                    ..old(self).stores()
                }),
    {
        let at = now();
        self.archive_task_at(task_id, at)
    }

    /// Every subtask of `parent_task_id` joins `project_id` and leaves its
    /// parent.
    pub fn move_subtasks_to_project(&mut self, parent_task_id: u128, project_id: u128)
        requires
            old(self).wf(),
        ensures
            final(self).wf(),
            final(self).stores() == (Stores {
                tasks: old(self).tasks().map_values(
                    |t: Task|
                        if t.parent_task_id == Some(parent_task_id) {
                            Task { project_id: Some(project_id), parent_task_id: None, ..t }
                        } else {
                            t
                        },
                ),
                ..old(self).stores()
            }),
    {
        self.repository_provider.task_repository.move_subtasks_to_project(parent_task_id, project_id);
    }

    /// The open tasks due on the day of `today`, earliest first.
    pub fn load_tasks_due_on(&self, today: Timestamp) -> (r: Vec<Task>)
        requires
            self.wf(),
        ensures
            lists_due_on(r@, self.tasks(), today),
            sorted_by(r@, TaskOrder::EarliestDueFirst),
    {
        self.repository_provider.task_repository.find_due_on(today.year, today.month, today.day)
    }

    /// The open tasks due today (UTC), earliest first.
    pub fn load_tasks_due_today(&self) -> (r: Vec<Task>)
        requires
            self.wf(),
        ensures
            exists|today: Timestamp| today.wf() && #[trigger] lists_due_on(r@, self.tasks(), today),
            sorted_by(r@, TaskOrder::EarliestDueFirst),
    {
        let today = now();
        self.load_tasks_due_on(today)
    }

    /// The task `task_id`, if it is stored.
    pub fn load_by_id(&self, task_id: u128) -> (r: Option<Task>)
        requires
            self.wf(),
        ensures
            r is Some <==> self.tasks().contains_key(task_id),
            r matches Some(t) ==> t == self.tasks()[task_id],
    {
        self.repository_provider.task_repository.find_by_id(task_id)
    }

    /// The task `task_id`; `TaskNotFound` where it is not stored.
    pub fn load_task(&self, task_id: u128) -> (r: Result<Task, TaskError>)
        requires
            self.wf(),
        ensures
            !self.tasks().contains_key(task_id) ==> r == Err::<Task, TaskError>(TaskError::TaskNotFound),
            self.tasks().contains_key(task_id) ==> r == Ok::<Task, TaskError>(self.tasks()[task_id]),
    {
        match self.repository_provider.task_repository.find_by_id(task_id) {
            Some(t) => Ok(t),
            None => Err(TaskError::TaskNotFound),
        }
    }

    /// All tasks, or the open ones only.
    pub fn load_tasks(&self, include_completed: bool) -> (r: Vec<Task>)
        requires
            self.wf(),
        ensures
            lists_exactly(r@, self.tasks(), |t: Task| include_completed || t.completed_at_utc is None),
            sorted_by(r@, TaskOrder::RecentlyUpdatedFirst),
    {
        self.repository_provider.task_repository.find_all_filtered_by_completed(include_completed)
    }

    /// The inbox: open tasks with neither project nor parent.
    pub fn load_inbox(&self) -> (r: Vec<Task>)
        requires
            self.wf(),
        ensures
            lists_exactly(
                r@,
                self.tasks(),
                |t: Task|
                    t.completed_at_utc is None && t.project_id is None && t.parent_task_id is None,
            ),
            sorted_by(r@, TaskOrder::RecentlyCreatedFirst),
    {
        self.repository_provider.task_repository.find_inbox()
    }

    /// The open tasks due strictly before `date`.
    pub fn load_due_before(&self, date: Timestamp) -> (r: Vec<Task>)
        requires
            self.wf(),
        ensures
            lists_exactly(
                r@,
                self.tasks(),
                |t: Task|
                    t.completed_at_utc is None && (t.due_at_utc matches Some(d) && d.before(date)),
            ),
            sorted_by(r@, TaskOrder::EarliestDueFirst),
    {
        self.repository_provider.task_repository.find_due_before(date)
    }

    /// The completed tasks.
    pub fn load_completed_tasks(&self) -> (r: Vec<Task>)
        requires
            self.wf(),
        ensures
            lists_exactly(r@, self.tasks(), |t: Task| t.completed_at_utc is Some),
            sorted_by(r@, TaskOrder::RecentlyCompletedFirst),
    {
        self.repository_provider.task_repository.find_completed()
    }

    /// The open subtasks of `parent_task_id`.
    pub fn load_subtasks_for_task(&self, parent_task_id: u128) -> (r: Vec<Task>)
        requires
            self.wf(),
        ensures
            lists_exactly(
                r@,
                self.tasks(),
                |t: Task| t.parent_task_id == Some(parent_task_id) && t.completed_at_utc is None,
            ),
            sorted_by(r@, TaskOrder::RecentlyUpdatedFirst),
    {
        self.repository_provider.task_repository.find_by_parent(parent_task_id)
    }

    /// The completed subtasks of `parent_task_id`.
    pub fn load_completed_subtasks_for_task(&self, parent_task_id: u128) -> (r: Vec<Task>)
        requires
            self.wf(),
        ensures
            lists_exactly(
                r@,
                self.tasks(),
                |t: Task| t.parent_task_id == Some(parent_task_id) && t.completed_at_utc is Some,
            ),
            sorted_by(r@, TaskOrder::RecentlyCompletedFirst),
    {
        self.repository_provider.task_repository.find_completed_by_parent(parent_task_id)
    }

    /// The completion activity per day over every stored task.
    pub fn load_statistics(&self) -> (r: Vec<PeriodTaskStatistic>)
        requires
            self.wf(),
        ensures
            exists|all: Seq<Task>|
                lists_exactly(all, self.tasks(), |t: Task| true) && #[trigger] statistics_of(all, r@),
    {
        let all = self.repository_provider.task_repository.find_all_filtered_by_completed(true);
        let r = PeriodTaskStatistic::from_tasks(&all);
        assert((|t: Task| true || t.completed_at_utc is None) =~= (|t: Task| true));
        assert(statistics_of(all@, r@));
        r
    }
}

} // verus!
