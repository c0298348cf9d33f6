//! Recurring-task definitions: the anchor of a series, bound to the task
//! that stands for its current occurrence.

use crate::calendar::frequency_named;
use crate::calendar::lowercase_of;
use crate::calendar::Frequency;
use crate::error::TaskError;
use crate::ids::parse_id;
use crate::ids::uuid_of;
use crate::calendar::Timestamp;
use crate::store::lists_exactly;
use crate::store::sort_by_rank;
use crate::store::sorted_by;
use crate::store::Ranker;
use crate::store::Record;
use crate::store::Selector;
use crate::store::Store;
use vstd::prelude::*;

verus! {

/// A schedule anchor: `task_id` is the open occurrence, due at
/// `next_due_at_utc`; completing it brings the next one.
#[derive(Clone, Copy, Debug, PartialEq, Eq, Structural)]
pub struct RecurringTask {
    pub id: u128,
    pub task_id: u128,
    pub frequency: Frequency,
    pub interval: u32,
    pub next_due_at_utc: Timestamp,
    pub created_at_utc: Timestamp,
    pub updated_at_utc: Timestamp,
}

impl RecurringTask {
    /// A positive interval and real instants.
    pub open spec fn wf(self) -> bool {
        &&& self.interval >= 1
        &&& self.next_due_at_utc.wf()
        &&& self.created_at_utc.wf()
        &&& self.updated_at_utc.wf()
    }

    /// A new definition with identifier `id` for `task_id`, created and
    /// updated at `at`.
    pub fn new(
        id: u128,
        task_id: u128,
        frequency: Frequency,
        interval: u32,
        next_due_at_utc: Timestamp,
        at: Timestamp,
    ) -> (r: RecurringTask)
        ensures
            r == (RecurringTask {
                id,
                task_id,
                frequency,
                interval,
                next_due_at_utc,
                created_at_utc: at,
                updated_at_utc: at,
            }),
    {
        RecurringTask {
            id,
            task_id,
            frequency,
            interval,
            next_due_at_utc,
            created_at_utc: at,
            updated_at_utc: at,
        }
    }
}

impl Record for RecurringTask {
    open spec fn key(&self) -> u128 {
        self.id
    }

    fn id(&self) -> (r: u128) {
        self.id
    }

    fn duplicate(&self) -> (r: RecurringTask) {
        *self
    }
}

/// Which definitions a query selects.
#[derive(Clone, Copy, Debug, PartialEq, Eq, Structural)]
pub enum RecurringTaskFilter {
    /// The definition bound to a task.
    ForTask { task_id: u128 },
    /// Definitions whose occurrence is due strictly before an instant.
    DueBefore { date: Timestamp },
}

impl Selector<RecurringTask> for RecurringTaskFilter {
    open spec fn selects(&self, r: RecurringTask) -> bool {
        match *self {
            RecurringTaskFilter::ForTask { task_id } => r.task_id == task_id,
            RecurringTaskFilter::DueBefore { date } => r.next_due_at_utc.before(date),
        }
    }

    fn test(&self, r: &RecurringTask) -> (b: bool) {
        match self {
            RecurringTaskFilter::ForTask { task_id } => r.task_id == *task_id,
            RecurringTaskFilter::DueBefore { date } => r.next_due_at_utc.is_before(date),
        }
    }
}

/// Definitions by the due date of their occurrence, earliest first.
#[derive(Clone, Copy, Debug, PartialEq, Eq, Structural)]
pub struct EarliestDueFirst;

impl Ranker<RecurringTask> for EarliestDueFirst {
    open spec fn rank(&self, r: RecurringTask) -> int {
        r.next_due_at_utc.rank()
    }

    fn rank_of(&self, r: &RecurringTask) -> (x: i128) {
        r.next_due_at_utc.rank_value()
    }
}

/// Each definition is well formed, and no two are bound to one task.
pub open spec fn recurring_map_wf(m: Map<u128, RecurringTask>) -> bool {
    &&& forall|k: u128| #[trigger] m.contains_key(k) ==> m[k].id == k && m[k].wf()
    &&& forall|a: u128, b: u128|
        #[trigger] m.contains_key(a) && #[trigger] m.contains_key(b) && m[a].task_id
            == m[b].task_id ==> a == b
}

/// Some definition of `m` is bound to `task_id`.
pub open spec fn has_series(m: Map<u128, RecurringTask>, task_id: u128) -> bool {
    exists|k: u128| #[trigger] m.contains_key(k) && m[k].task_id == task_id
}

/// The definition of `m` bound to `task_id`, if there is one.
pub open spec fn series_of(m: Map<u128, RecurringTask>, task_id: u128) -> Option<RecurringTask> {
    if has_series(m, task_id) {
        Some(m[choose|k: u128| #[trigger] m.contains_key(k) && m[k].task_id == task_id])
    } else {
        None
    }
}

/// The recurring-task definitions of a store, keyed by identifier.
pub struct RecurringTaskRepository {
    store: Store<RecurringTask>,
}

impl View for RecurringTaskRepository {
    type V = Map<u128, RecurringTask>;

    closed spec fn view(&self) -> Map<u128, RecurringTask> {
        self.store@
    }
}

impl RecurringTaskRepository {
    pub closed spec fn store_ok(&self) -> bool {
        self.store.wf()
    }

    pub open spec fn wf(&self) -> bool {
        self.store_ok() && recurring_map_wf(self@)
    }

    /// An empty store.
    pub fn new() -> (r: Self)
        ensures
            r.wf(),
            r@ == Map::<u128, RecurringTask>::empty(),
    {
        RecurringTaskRepository { store: Store::new() }
    }

    /// Whether a definition with identifier `id` is stored.
    pub fn contains(&self, id: u128) -> (r: bool)
        requires
            self.wf(),
        ensures
            r == self@.contains_key(id),
    {
        self.store.contains(id)
    }

    /// The definition bound to `task_id`, if there is one.
    pub fn find_by_task_id(&self, task_id: u128) -> (r: Option<RecurringTask>)
        requires
            self.wf(),
        ensures
            r == series_of(self@, task_id),
            r matches Some(s) ==> self@.contains_key(s.id) && self@[s.id] == s && s.task_id
                == task_id,
    {
        let filter = RecurringTaskFilter::ForTask { task_id };
        let found = self.store.find_matching(&filter);
        if found.len() == 0 {
            proof {
                if has_series(self@, task_id) {
                    let k = choose|k: u128| #[trigger] self@.contains_key(k) && self@[k].task_id == task_id;
                    assert(filter.selects(self@[k]));
                }
            }
            None
        } else {
            let s = found[0];
            proof {
                assert(self@.contains_key(found@[0].key()));
                assert(filter.selects(found@[0]));
                assert(self@.contains_key(s.id) && self@[s.id].task_id == task_id);
            }
            Some(s)
        }
    }

    /// Stores `recurring_task`: inserted where its identifier is new,
    /// otherwise replacing the stored definition but for its creation time,
    /// which stays. Its `updated_at_utc` becomes `now`.
    pub fn save(&mut self, recurring_task: &mut RecurringTask, now: Timestamp)
        requires
            old(self).wf(),
            old(recurring_task).wf(),
            now.wf(),
            forall|k: u128|
                #[trigger] old(self)@.contains_key(k) && k != old(recurring_task).id ==> old(self)@[k].task_id != old(recurring_task).task_id,
        ensures
            *final(recurring_task) == (RecurringTask {
                updated_at_utc: now,
                created_at_utc: if old(self)@.contains_key(old(recurring_task).id) {
                    old(self)@[old(recurring_task).id].created_at_utc
                } else {
                    old(recurring_task).created_at_utc
                },
                ..*old(recurring_task)
            }),
            final(self).wf(),
            final(self)@ == old(self)@.insert(old(recurring_task).id, *final(recurring_task)),
    {
        if let Some(stored) = self.store.get(recurring_task.id) {
            recurring_task.created_at_utc = stored.created_at_utc;
        }
        recurring_task.updated_at_utc = now;
        self.store.put(*recurring_task);
    }

    /// Removes the definition with the identifier of `recurring_task`.
    pub fn delete(&mut self, recurring_task: &RecurringTask)
        requires
            old(self).wf(),
        ensures
            final(self).wf(),
            final(self)@ == old(self)@.remove(recurring_task.id),
    {
        self.store.remove(recurring_task.id);
    }

    /// The definitions whose occurrence is due strictly before `date`.
    pub fn find_due_before(&self, date: Timestamp) -> (r: Vec<RecurringTask>)
        requires
            self.wf(),
        ensures
            lists_exactly(r@, self@, |s: RecurringTask| s.next_due_at_utc.before(date)),
            sorted_by(r@, EarliestDueFirst),
    {
        let filter = RecurringTaskFilter::DueBefore { date };
        let found = self.store.find_matching(&filter);
        let r = sort_by_rank(&found, &EarliestDueFirst, Ghost(self@), Ghost(|s: RecurringTask| filter.selects(s)));
        assert((|s: RecurringTask| filter.selects(s)) =~= (|s: RecurringTask|
            s.next_due_at_utc.before(date)));
        r
    }
}

/// A request, in text, to make a task recur.
#[derive(Clone, Debug)]
pub struct CreateRecurringTaskData {
    pub task_id: String,
    pub frequency: String,
    pub interval: i32,
}

/// A request, in text, to change how a task recurs.
#[derive(Clone, Debug)]
pub struct UpdateRecurringTaskData {
    pub task_id: String,
    pub frequency: String,
    pub interval: i32,
}

/// The task, frequency and interval that a request in text names:
/// `InvalidInput` where the identifier is no UUID, the frequency no name
/// of one (in any case), or the interval not positive.
pub open spec fn recurrence_request(task_id: String, frequency: String, interval: i32) -> Result<
    (u128, Frequency, u32),
    TaskError,
> {
    match (uuid_of(task_id@), frequency_named(lowercase_of(frequency@))) {
        (Some(id), Some(f)) => if interval > 0 {
            Ok((id, f, interval as u32))
        } else {
            Err(TaskError::InvalidInput)
        },
        _ => Err(TaskError::InvalidInput),
    }
}

/// Reads the task, frequency and interval of a request in text.
pub fn parse_recurrence(task_id: &String, frequency: &String, interval: i32) -> (r: Result<
    (u128, Frequency, u32),
    TaskError,
>)
    ensures
        r == recurrence_request(*task_id, *frequency, interval),
{
    let id = parse_id(task_id);
    let f = Frequency::try_from(frequency.clone());
    match (id, f) {
        (Some(id), Ok(f)) => if interval > 0 {
            Ok((id, f, interval as u32))
        } else {
            Err(TaskError::InvalidInput)
        },
        _ => Err(TaskError::InvalidInput),
    }
}

impl CreateRecurringTaskData {
    /// The task, frequency and interval this request names.
    pub fn parse(&self) -> (r: Result<(u128, Frequency, u32), TaskError>)
        ensures
            r == recurrence_request(self.task_id, self.frequency, self.interval),
    {
        parse_recurrence(&self.task_id, &self.frequency, self.interval)
    }
}

impl UpdateRecurringTaskData {
    /// The task, frequency and interval this request names.
    pub fn parse(&self) -> (r: Result<(u128, Frequency, u32), TaskError>)
        ensures
            r == recurrence_request(self.task_id, self.frequency, self.interval),
    {
        parse_recurrence(&self.task_id, &self.frequency, self.interval)
    }
}

} // verus!
