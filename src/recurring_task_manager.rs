//! Scheduling of recurring tasks: setting a series up, spawning the next
//! occurrence when the current one is completed, and re-anchoring a series
//! when its task's due date is edited.

use crate::calendar::compute_next_due;
use crate::calendar::next_due;
use crate::calendar::now;
use crate::calendar::Frequency;
use crate::calendar::Timestamp;
use crate::error::TaskError;
use crate::ids::fresh_id;
use crate::recurring_task::has_series;
use crate::recurring_task::recurring_map_wf;
use crate::recurring_task::series_of;
use crate::recurring_task::RecurringTask;
use crate::recurring_task::RecurringTaskRepository;
use crate::task::clone_opt_string;
use crate::task::Task;
use crate::task_repository::TaskRepository;
use vstd::prelude::*;

verus! {

/// The occurrence that follows `task`: a new open task with identifier
/// `new_id`, the same title, description, project and parent, due at
/// `due`, created and updated at `at`.
pub open spec fn next_occurrence(task: Task, new_id: u128, due: Timestamp, at: Timestamp) -> Task {
    Task {
        id: new_id,
        title: task.title,
        description: task.description,
        project_id: task.project_id,
        parent_task_id: task.parent_task_id,
        due_at_utc: Some(due),
        created_at_utc: at,
        completed_at_utc: None,
        updated_at_utc: at,
    }
}

/// What handling the completion of `task` at `at`, with `new_id` drawn for
/// a next occurrence, does to the stores and returns.
///
/// Without a series bound to the task nothing changes and `Ok(None)` comes
/// back. With one, the next occurrence is due `next_due` of the series'
/// current due date; it is stored and returned, and the series is bound to
/// it with that due date.
pub open spec fn completion_handled(
    old_series: Map<u128, RecurringTask>,
    old_tasks: Map<u128, Task>,
    task: Task,
    at: Timestamp,
    new_id: u128,
    new_series: Map<u128, RecurringTask>,
    new_tasks: Map<u128, Task>,
    r: Result<Option<Task>, TaskError>,
) -> bool {
    match series_of(old_series, task.id) {
        None => r == Ok::<Option<Task>, TaskError>(None) && new_series == old_series && new_tasks
            == old_tasks,
        Some(s) => match next_due(s.next_due_at_utc, s.frequency, s.interval as nat) {
            None => r == Err::<Option<Task>, TaskError>(TaskError::DateOutOfRange) && new_series
                == old_series && new_tasks == old_tasks,
            Some(due) => if old_tasks.contains_key(new_id) || has_series(old_series, new_id) {
                r == Err::<Option<Task>, TaskError>(TaskError::DuplicateId) && new_series
                    == old_series && new_tasks == old_tasks
            } else {
                let spawned = next_occurrence(task, new_id, due, at);
                &&& r == Ok::<Option<Task>, TaskError>(Some(spawned))
                &&& new_tasks == old_tasks.insert(new_id, spawned)
                &&& new_series == old_series.insert(
                    s.id,
                    RecurringTask { task_id: new_id, next_due_at_utc: due, updated_at_utc: at, ..s },
                )
            },
        },
    }
}

/// Completing the task of a series spawns exactly one new task: it is open,
/// due at the next occurrence after the series' due date, and it is the
/// only task added; the series is then bound to it, with that due date.
pub proof fn lemma_regeneration(
    old_series: Map<u128, RecurringTask>,
    old_tasks: Map<u128, Task>,
    task: Task,
    at: Timestamp,
    new_id: u128,
    new_series: Map<u128, RecurringTask>,
    new_tasks: Map<u128, Task>,
    r: Result<Option<Task>, TaskError>,
)
    requires
        recurring_map_wf(old_series),
        completion_handled(old_series, old_tasks, task, at, new_id, new_series, new_tasks, r),
        series_of(old_series, task.id) is Some,
        r is Ok,
    ensures
        ({
            let s = series_of(old_series, task.id)->0;
            let due = next_due(s.next_due_at_utc, s.frequency, s.interval as nat);
            &&& due is Some
            &&& !old_tasks.contains_key(new_id)
            &&& new_tasks.dom() == old_tasks.dom().insert(new_id)
            &&& forall|k: u128| #[trigger] old_tasks.contains_key(k) ==> new_tasks[k] == old_tasks[k]
            &&& new_tasks[new_id].completed_at_utc is None
            &&& new_tasks[new_id].due_at_utc == due
            &&& r == Ok::<Option<Task>, TaskError>(Some(new_tasks[new_id]))
            &&& series_of(new_series, new_id) == Some(
                RecurringTask { task_id: new_id, next_due_at_utc: due->0, updated_at_utc: at, ..s },
            )
            &&& new_series.dom() == old_series.dom()
        }),
{
    let s = series_of(old_series, task.id)->0;
    let due = next_due(s.next_due_at_utc, s.frequency, s.interval as nat)->0;
    let s2 = RecurringTask { task_id: new_id, next_due_at_utc: due, updated_at_utc: at, ..s };
    let k0 = choose|k: u128| #[trigger] old_series.contains_key(k) && old_series[k].task_id == task.id;
    assert(old_series.contains_key(k0) && old_series[k0] == s);
    assert(new_series.contains_key(s.id) && new_series[s.id].task_id == new_id);
    assert(has_series(new_series, new_id));
    let k = choose|k: u128| #[trigger] new_series.contains_key(k) && new_series[k].task_id == new_id;
    if k != s.id {
        assert(old_series.contains_key(k) && old_series[k].task_id == new_id);
        assert(has_series(old_series, new_id));
    }
    assert(new_tasks.dom() =~= old_tasks.dom().insert(new_id));
    assert(new_series.dom() =~= old_series.dom());
}

/// Completing a task to which no series is bound spawns nothing: the result
/// is `Ok(None)` and both stores stay as they were.
pub proof fn lemma_no_series_no_regeneration(
    old_series: Map<u128, RecurringTask>,
    old_tasks: Map<u128, Task>,
    task: Task,
    at: Timestamp,
    new_id: u128,
    new_series: Map<u128, RecurringTask>,
    new_tasks: Map<u128, Task>,
    r: Result<Option<Task>, TaskError>,
)
    requires
        completion_handled(old_series, old_tasks, task, at, new_id, new_series, new_tasks, r),
        !has_series(old_series, task.id),
    ensures
        r == Ok::<Option<Task>, TaskError>(None),
        new_tasks == old_tasks,
        new_series == old_series,
{
}

/// The series that setting up `task_id` to recur every `interval` steps of
/// `frequency` leaves in the store: the existing one is rescheduled,
/// otherwise a new one with identifier `new_id` is made.
pub open spec fn series_set_up(
    old_series: Map<u128, RecurringTask>,
    task_id: u128,
    frequency: Frequency,
    interval: u32,
    first_due: Timestamp,
    at: Timestamp,
    new_id: u128,
) -> RecurringTask {
    match series_of(old_series, task_id) {
        Some(s) => RecurringTask {
            frequency,
            interval,
            next_due_at_utc: first_due,
            updated_at_utc: at,
            ..s
        },
        None => RecurringTask {
            id: new_id,
            task_id,
            frequency,
            interval,
            next_due_at_utc: first_due,
            created_at_utc: at,
            updated_at_utc: at,
        },
    }
}

/// The due date a set-up series starts from: `first_due_date` where one is
/// given, else the task's own due date, else `at`.
pub open spec fn first_due_of(first_due_date: Option<Timestamp>, task: Task, at: Timestamp) -> Timestamp {
    match first_due_date {
        Some(d) => d,
        None => match task.due_at_utc {
            Some(d) => d,
            None => at,
        },
    }
}

/// The outcome of setting up `task_id` to recur every `interval` steps of
/// `frequency` at `at`, with `new_id` drawn for a new series.
///
/// A task that is not stored gives `TaskNotFound`, a zero interval
/// `InvalidInput`; where no series is bound to the task and `new_id` is
/// taken, `DuplicateId`. Otherwise the series of [`series_set_up`] is
/// stored and returned.
pub open spec fn series_setup(
    old_series: Map<u128, RecurringTask>,
    tasks: Map<u128, Task>,
    task_id: u128,
    frequency: Frequency,
    interval: u32,
    first_due_date: Option<Timestamp>,
    at: Timestamp,
    new_id: u128,
    new_series: Map<u128, RecurringTask>,
    r: Result<RecurringTask, TaskError>,
) -> bool {
    if !tasks.contains_key(task_id) {
        r == Err::<RecurringTask, TaskError>(TaskError::TaskNotFound) && new_series == old_series
    } else if interval == 0 {
        r == Err::<RecurringTask, TaskError>(TaskError::InvalidInput) && new_series == old_series
    } else if !has_series(old_series, task_id) && old_series.contains_key(new_id) {
        r == Err::<RecurringTask, TaskError>(TaskError::DuplicateId) && new_series == old_series
    } else {
        let s = series_set_up(
            old_series,
            task_id,
            frequency,
            interval,
            first_due_of(first_due_date, tasks[task_id], at),
            at,
            new_id,
        );
        r == Ok::<RecurringTask, TaskError>(s) && new_series == old_series.insert(s.id, s)
    }
}

/// Orchestrates the recurring-task definitions and the tasks they spawn.
pub struct RecurringTaskManager;

impl RecurringTaskManager {
    /// Makes `task_id` recur every `interval` steps of `frequency`, its
    /// current occurrence due at `first_due_date`, or where none is given at
    /// the task's own due date, or at `at` where the task has none.
    ///
    /// A series already bound to the task is rescheduled in place; otherwise
    /// a new one with identifier `new_id` is stored.
    pub fn setup_recurring_task_at(
        recurring_task_repository: &mut RecurringTaskRepository,
        task_repository: &TaskRepository,
        task_id: u128,
        frequency: Frequency,
        interval: u32,
        first_due_date: Option<Timestamp>,
        at: Timestamp,
        new_id: u128,
    ) -> (r: Result<RecurringTask, TaskError>)
        requires
            old(recurring_task_repository).wf(),
            task_repository.wf(),
            at.wf(),
            first_due_date matches Some(d) ==> d.wf(),
        ensures
            final(recurring_task_repository).wf(),
            series_setup(
                old(recurring_task_repository)@,
                task_repository@,
                task_id,
                frequency,
                interval,
                first_due_date,
                at,
                new_id,
                final(recurring_task_repository)@,
                r,
            ),
    {
        let task = match task_repository.find_by_id(task_id) {
            Some(t) => t,
            None => return Err(TaskError::TaskNotFound),
        };
        if interval == 0 {
            return Err(TaskError::InvalidInput);
        }
        let first_due = match first_due_date {
            Some(d) => d,
            None => match task.due_at_utc {
                Some(d) => d,
                None => at,
            },
        };
        let mut series = match recurring_task_repository.find_by_task_id(task_id) {
            Some(s) => RecurringTask { frequency, interval, next_due_at_utc: first_due, ..s },
            None => {
                if recurring_task_repository.contains(new_id) {
                    return Err(TaskError::DuplicateId);
                }
                RecurringTask::new(new_id, task_id, frequency, interval, first_due, at)
            },
        };
        let ghost before = recurring_task_repository@;
        proof {
            assert(series.task_id == task_id);
            assert forall|k: u128| #[trigger] before.contains_key(k) && k != series.id implies before[k].task_id
                != series.task_id by {
                if before[k].task_id == task_id {
                    assert(has_series(before, task_id));
                }
            }
        }
        recurring_task_repository.save(&mut series, at);
        Ok(series)
    }

    /// [`RecurringTaskManager::setup_recurring_task_at`] now, with a freshly
    /// drawn identifier.
    pub fn setup_recurring_task(
        recurring_task_repository: &mut RecurringTaskRepository,
        task_repository: &TaskRepository,
        task_id: u128,
        frequency: Frequency,
        interval: u32,
        first_due_date: Option<Timestamp>,
    ) -> (r: Result<RecurringTask, TaskError>)
        requires
            old(recurring_task_repository).wf(),
            task_repository.wf(),
            first_due_date matches Some(d) ==> d.wf(),
        ensures
            final(recurring_task_repository).wf(),
            exists|at: Timestamp, new_id: u128|
                at.wf() && #[trigger] series_setup(
                    old(recurring_task_repository)@,
                    task_repository@,
                    task_id,
                    frequency,
                    interval,
                    first_due_date,
                    at,
                    new_id,
                    final(recurring_task_repository)@,
                    r,
                ),
            !task_repository@.contains_key(task_id) <==> r == Err::<RecurringTask, TaskError>(
                TaskError::TaskNotFound,
            ),
            task_repository@.contains_key(task_id) && interval == 0 <==> r == Err::<RecurringTask, TaskError>(
                TaskError::InvalidInput,
            ),
            task_repository@.contains_key(task_id) && interval > 0 && has_series(
                old(recurring_task_repository)@,
                task_id,
            ) ==> r is Ok && r->Ok_0.id == series_of(old(recurring_task_repository)@, task_id)->0.id,
            r matches Ok(s) ==> {
                &&& s.task_id == task_id
                &&& s.frequency == frequency
                &&& s.interval == interval
                &&& first_due_date matches Some(d) ==> s.next_due_at_utc == d
                &&& first_due_date is None ==> (task_repository@[task_id].due_at_utc matches Some(
                    d,
                ) ==> s.next_due_at_utc == d)
                &&& s.next_due_at_utc.wf()
                &&& final(recurring_task_repository)@ == old(recurring_task_repository)@.insert(
                    s.id,
                    s,
                )
            },
    {
        let at = now();
        RecurringTaskManager::setup_recurring_task_at(
            recurring_task_repository,
            task_repository,
            task_id,
            frequency,
            interval,
            first_due_date,
            at,
            fresh_id(),
        )
    }

    /// Handles the completion of `task` at `at`, with `new_id` for the next
    /// occurrence: see [`completion_handled`].
    pub fn handle_task_completion_at(
        recurring_task_repository: &mut RecurringTaskRepository,
        task_repository: &mut TaskRepository,
        task: &Task,
        at: Timestamp,
        new_id: u128,
    ) -> (r: Result<Option<Task>, TaskError>)
        requires
            old(recurring_task_repository).wf(),
            old(task_repository).wf(),
            at.wf(),
        ensures
            final(recurring_task_repository).wf(),
            final(task_repository).wf(),
            completion_handled(
                old(recurring_task_repository)@,
                old(task_repository)@,
                *task,
                at,
                new_id,
                final(recurring_task_repository)@,
                final(task_repository)@,
                r,
            ),
            series_of(old(recurring_task_repository)@, task.id) is Some && r is Ok ==> ({
                let s = series_of(old(recurring_task_repository)@, task.id)->0;
                let due = next_due(s.next_due_at_utc, s.frequency, s.interval as nat)->0;
                &&& !old(task_repository)@.contains_key(new_id)
                &&& final(task_repository)@.dom() == old(task_repository)@.dom().insert(new_id)
                &&& forall|k: u128|
                    #[trigger] old(task_repository)@.contains_key(k) ==> final(task_repository)@[k]
                        == old(task_repository)@[k]
                &&& r == Ok::<Option<Task>, TaskError>(Some(final(task_repository)@[new_id]))
                &&& final(task_repository)@[new_id].completed_at_utc is None
                &&& final(task_repository)@[new_id].due_at_utc == Some(due)
                &&& series_of(final(recurring_task_repository)@, new_id) == Some(
                    RecurringTask { task_id: new_id, next_due_at_utc: due, updated_at_utc: at, ..s },
                )
            }),
    {
        let mut series = match recurring_task_repository.find_by_task_id(task.id) {
            Some(s) => s,
            None => return Ok(None),
        };
        let due = match compute_next_due(series.next_due_at_utc, series.frequency, series.interval) {
            Some(d) => d,
            None => return Err(TaskError::DateOutOfRange),
        };
        if task_repository.contains(new_id) {
            return Err(TaskError::DuplicateId);
        }
        if recurring_task_repository.find_by_task_id(new_id).is_some() {
            return Err(TaskError::DuplicateId);
        }
        let spawned = Task {
            id: new_id,
            title: task.title.clone(),
            description: clone_opt_string(&task.description),
            project_id: task.project_id,
            parent_task_id: task.parent_task_id,
            due_at_utc: Some(due),
            created_at_utc: at,
            completed_at_utc: None,
            updated_at_utc: at,
        };
        task_repository.put(spawned.duplicate());
        let ghost before = recurring_task_repository@;
        series.task_id = new_id;
        series.next_due_at_utc = due;
        proof {
            assert forall|k: u128| #[trigger] before.contains_key(k) && k != series.id implies before[k].task_id
                != new_id by {
                if before[k].task_id == new_id {
                    assert(has_series(before, new_id));
                }
            }
        }
        recurring_task_repository.save(&mut series, at);
        proof {
            assert(completion_handled(
                old(recurring_task_repository)@,
                old(task_repository)@,
                *task,
                at,
                new_id,
                recurring_task_repository@,
                task_repository@,
                Ok(Some(spawned)),
            ));
            lemma_regeneration(
                old(recurring_task_repository)@,
                old(task_repository)@,
                *task,
                at,
                new_id,
                recurring_task_repository@,
                task_repository@,
                Ok(Some(spawned)),
            );
        }
        Ok(Some(spawned))
    }

    /// Handles the completion of `task` now, drawing the identifier of a
    /// next occurrence: the outcome is that of
    /// [`RecurringTaskManager::handle_task_completion_at`] for some instant
    /// and identifier.
    pub fn handle_task_completion(
        recurring_task_repository: &mut RecurringTaskRepository,
        task_repository: &mut TaskRepository,
        task: &Task,
    ) -> (r: Result<Option<Task>, TaskError>)
        requires
            old(recurring_task_repository).wf(),
            old(task_repository).wf(),
        ensures
            final(recurring_task_repository).wf(),
            final(task_repository).wf(),
            exists|at: Timestamp, new_id: u128|
                at.wf() && #[trigger] completion_handled(
                    old(recurring_task_repository)@,
                    old(task_repository)@,
                    *task,
                    at,
                    new_id,
                    final(recurring_task_repository)@,
                    final(task_repository)@,
                    r,
                ),
    {
        let at = now();
        let new_id = fresh_id();
        RecurringTaskManager::handle_task_completion_at(
            recurring_task_repository,
            task_repository,
            task,
            at,
            new_id,
        )
    }

    /// Re-anchors the series bound to `task_id`, if any, after its task's
    /// due date became `new_due_date`: the series' due date becomes
    /// `next_due` of the new date.
    pub fn handle_task_update_at(
        recurring_task_repository: &mut RecurringTaskRepository,
        task_id: u128,
        new_due_date: Timestamp,
        at: Timestamp,
    ) -> (r: Result<(), TaskError>)
        requires
            old(recurring_task_repository).wf(),
            new_due_date.wf(),
            at.wf(),
        ensures
            final(recurring_task_repository).wf(),
            match series_of(old(recurring_task_repository)@, task_id) {
                None => r is Ok && final(recurring_task_repository)@ == old(recurring_task_repository)@,
                Some(s) => match next_due(new_due_date, s.frequency, s.interval as nat) {
                    None => r == Err::<(), TaskError>(TaskError::DateOutOfRange) && final(recurring_task_repository)@ == old(recurring_task_repository)@,
                    Some(d) => r is Ok && final(recurring_task_repository)@ == old(recurring_task_repository)@.insert(
                        s.id,
                        RecurringTask { next_due_at_utc: d, updated_at_utc: at, ..s },
                    ),
                },
            },
    {
        let mut series = match recurring_task_repository.find_by_task_id(task_id) {
            Some(s) => s,
            None => return Ok(()),
        };
        let due = match compute_next_due(new_due_date, series.frequency, series.interval) {
            Some(d) => d,
            None => return Err(TaskError::DateOutOfRange),
        };
        series.next_due_at_utc = due;
        recurring_task_repository.save(&mut series, at);
        Ok(())
    }

    /// Removes the series bound to `task_id`, if any; the task stays.
    pub fn delete_recurring_task(
        recurring_task_repository: &mut RecurringTaskRepository,
        task_id: u128,
    )
        requires
            old(recurring_task_repository).wf(),
        ensures
            final(recurring_task_repository).wf(),
            match series_of(old(recurring_task_repository)@, task_id) {
                None => final(recurring_task_repository)@ == old(recurring_task_repository)@,
                Some(s) => final(recurring_task_repository)@ == old(recurring_task_repository)@.remove(s.id),
            },
    {
        match recurring_task_repository.find_by_task_id(task_id) {
            Some(s) => recurring_task_repository.delete(&s),
            None => {},
        }
    }
}

} // verus!
