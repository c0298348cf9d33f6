//! Completion activity per calendar day, with a level for a heat map.

use crate::calendar::Timestamp;
use crate::task::Task;
use vstd::prelude::*;

verus! {

/// The counts of one day.
#[derive(Clone, Copy, Debug, PartialEq, Eq, Structural)]
pub struct DateTaskStatisticData {
    pub completed_tasks: usize,
}

/// The counts of one day and the activity level they give.
#[derive(Clone, Copy, Debug, PartialEq, Eq, Structural)]
pub struct DateTaskStatistic {
    pub level: u32,
    pub data: DateTaskStatisticData,
}

/// The activity of one calendar day (UTC).
#[derive(Clone, Copy, Debug, PartialEq, Eq, Structural)]
pub struct PeriodTaskStatistic {
    pub year: i32,
    pub month: u32,
    pub day: u32,
    pub statistic: DateTaskStatistic,
}

/// Task `t` was completed on the day `(year, month, day)`.
pub open spec fn completed_on(t: Task, year: i32, month: u32, day: u32) -> bool {
    t.completed_at_utc matches Some(c) && c.year == year && c.month == month && c.day == day
}

/// How many tasks of `s` were completed on the day.
pub open spec fn completions_on(s: Seq<Task>, year: i32, month: u32, day: u32) -> nat
    decreases s.len(),
{
    if s.len() == 0 {
        0
    } else {
        completions_on(s.drop_last(), year, month, day) + if completed_on(s.last(), year, month, day) {
            1nat
        } else {
            0nat
        }
    }
}

/// The heat-map level of a number of completions: none, a few (up to
/// three), some (up to six), many (up to nine), or more.
pub open spec fn activity_level(n: nat) -> u32 {
    if n == 0 {
        0
    } else if n <= 3 {
        1
    } else if n <= 6 {
        2
    } else if n <= 9 {
        3
    } else {
        4
    }
}

/// `e` gives the true count of its day over `s`, and its level.
pub open spec fn describes(e: PeriodTaskStatistic, s: Seq<Task>) -> bool {
    &&& e.statistic.data.completed_tasks == completions_on(s, e.year, e.month, e.day)
    &&& e.statistic.level == activity_level(e.statistic.data.completed_tasks as nat)
}

pub open spec fn same_day(a: PeriodTaskStatistic, b: PeriodTaskStatistic) -> bool {
    a.year == b.year && a.month == b.month && a.day == b.day
}

/// Some entry of `r` is for the day on which `t` was completed.
pub open spec fn has_entry_for(r: Seq<PeriodTaskStatistic>, t: Task) -> bool {
    exists|i: int| 0 <= i < r.len() && completed_on(t, r[i].year, r[i].month, r[i].day)
}

/// `r` holds one entry for each day on which a task of `s` was completed,
/// and no other, each with its true count and level.
pub open spec fn statistics_of(s: Seq<Task>, r: Seq<PeriodTaskStatistic>) -> bool {
    &&& forall|i: int| 0 <= i < r.len() ==> describes(#[trigger] r[i], s)
    &&& forall|i: int, j: int| 0 <= i < j < r.len() ==> !same_day(r[i], r[j])
    &&& forall|i: int| 0 <= i < r.len() ==> (#[trigger] r[i]).statistic.data.completed_tasks > 0
    &&& forall|j: int|
        0 <= j < s.len() && (#[trigger] s[j]).completed_at_utc is Some ==> has_entry_for(r, s[j])
}

proof fn lemma_completions_push(s: Seq<Task>, t: Task, year: i32, month: u32, day: u32)
    ensures
        completions_on(s.push(t), year, month, day) == completions_on(s, year, month, day) + if completed_on(
            t,
            year,
            month,
            day,
        ) {
            1nat
        } else {
            0nat
        },
{
    assert(s.push(t).drop_last() =~= s);
}

proof fn lemma_completions_bounded(s: Seq<Task>, year: i32, month: u32, day: u32)
    ensures
        completions_on(s, year, month, day) <= s.len(),
    decreases s.len(),
{
    if s.len() > 0 {
        lemma_completions_bounded(s.drop_last(), year, month, day);
    }
}

/// A day with completions has a task completed on it.
proof fn lemma_completions_witness(s: Seq<Task>, year: i32, month: u32, day: u32)
    requires
        completions_on(s, year, month, day) > 0,
    ensures
        exists|j: int| 0 <= j < s.len() && completed_on(#[trigger] s[j], year, month, day),
    decreases s.len(),
{
    let p = s.drop_last();
    if completed_on(s.last(), year, month, day) {
        assert(completed_on(s[s.len() - 1], year, month, day));
    } else {
        lemma_completions_witness(p, year, month, day);
        let j = choose|j: int| 0 <= j < p.len() && completed_on(#[trigger] p[j], year, month, day);
        assert(s[j] == p[j]);
    }
}

/// The heat-map level of `n` completions.
pub fn activity_level_of(n: usize) -> (r: u32)
    ensures
        r == activity_level(n as nat),
{
    if n == 0 {
        0
    } else if n <= 3 {
        1
    } else if n <= 6 {
        2
    } else if n <= 9 {
        3
    } else {
        4
    }
}

/// Where the entry for the day of `c` stands in `entries`, if there is one.
fn position_of_day(entries: &Vec<PeriodTaskStatistic>, c: Timestamp) -> (r: Option<usize>)
    ensures
        r matches Some(k) ==> k < entries@.len() && entries@[k as int].year == c.year
            && entries@[k as int].month == c.month && entries@[k as int].day == c.day,
        r is None ==> forall|a: int|
            0 <= a < entries@.len() ==> !((#[trigger] entries@[a]).year == c.year
                && entries@[a].month == c.month && entries@[a].day == c.day),
{
    let mut k: usize = 0;
    while k < entries.len()
        invariant
            k <= entries@.len(),
            forall|a: int|
                0 <= a < k ==> !((#[trigger] entries@[a]).year == c.year && entries@[a].month
                    == c.month && entries@[a].day == c.day),
        decreases entries@.len() - k,
    {
        if entries[k].year == c.year && entries[k].month == c.month && entries[k].day == c.day {
            return Some(k);
        }
        k = k + 1;
    }
    None
}

impl PeriodTaskStatistic {
    /// One entry for each day on which a task of `tasks` was completed,
    /// with the number of tasks completed that day and its level.
    pub fn from_tasks(tasks: &Vec<Task>) -> (r: Vec<PeriodTaskStatistic>)
        ensures
            statistics_of(tasks@, r@),
    {
        let mut entries: Vec<PeriodTaskStatistic> = Vec::new();
        let mut i: usize = 0;
        while i < tasks.len()
            invariant
                i <= tasks@.len(),
                forall|a: int| 0 <= a < entries@.len() ==> describes(#[trigger] entries@[a], tasks@.subrange(0, i as int)),
                forall|a: int, b: int| 0 <= a < b < entries@.len() ==> !same_day(entries@[a], entries@[b]),
                forall|a: int| 0 <= a < entries@.len() ==> (#[trigger] entries@[a]).statistic.data.completed_tasks > 0,
                forall|j: int|
                    0 <= j < i && (#[trigger] tasks@[j]).completed_at_utc is Some ==> has_entry_for(entries@, tasks@[j]),
            decreases tasks@.len() - i,
        {
            let ghost prefix = tasks@.subrange(0, i as int);
            let ghost before = entries@;
            let t = &tasks[i];
            assert(tasks@.subrange(0, i + 1) =~= prefix.push(*t));
            proof {
                assert forall|y: i32, m: u32, d: u32| true implies completions_on(prefix.push(*t), y, m, d)
                    == completions_on(prefix, y, m, d) + if completed_on(*t, y, m, d) { 1nat } else { 0nat } by {
                    lemma_completions_push(prefix, *t, y, m, d);
                }
                lemma_completions_bounded(prefix, t.completed_at_utc->0.year, t.completed_at_utc->0.month, t.completed_at_utc->0.day);
            }
            if let Some(c) = t.completed_at_utc {
                let position = position_of_day(&entries, c);
                if let Some(k) = position {
                    let old_entry = entries[k];
                    assert(completed_on(*t, old_entry.year, old_entry.month, old_entry.day));
                    assert(old_entry.statistic.data.completed_tasks <= prefix.len());
                    let n = old_entry.statistic.data.completed_tasks + 1;
                    let updated = PeriodTaskStatistic {
                        statistic: DateTaskStatistic {
                            level: activity_level_of(n),
                            data: DateTaskStatisticData { completed_tasks: n },
                        },
                        ..old_entry
                    };
                    entries.set(k, updated);
                    proof {
                        assert forall|a: int| 0 <= a < entries@.len() implies describes(
                            #[trigger] entries@[a],
                            tasks@.subrange(0, i + 1),
                        ) by {
                            if a != k {
                                assert(!same_day(before[a], before[k as int]) || a == k);
                                assert(!completed_on(*t, before[a].year, before[a].month, before[a].day));
                            }
                        }
                        assert forall|j: int|
                            0 <= j < i + 1 && (#[trigger] tasks@[j]).completed_at_utc is Some implies has_entry_for(
                            entries@,
                            tasks@[j],
                        ) by {
                            if j < i {
                                let a = choose|a: int| 0 <= a < before.len() && completed_on(tasks@[j], before[a].year, before[a].month, before[a].day);
                                assert(same_day(entries@[a], before[a]));
                                assert(completed_on(tasks@[j], entries@[a].year, entries@[a].month, entries@[a].day));
                            } else {
                                assert(completed_on(tasks@[j], entries@[k as int].year, entries@[k as int].month, entries@[k as int].day));
                            }
                        }
                    }
                } else {
                    proof {
                        if completions_on(prefix, c.year, c.month, c.day) > 0 {
                            lemma_completions_witness(prefix, c.year, c.month, c.day);
                            let j = choose|j: int| 0 <= j < prefix.len() && completed_on(#[trigger] prefix[j], c.year, c.month, c.day);
                            assert(prefix[j] == tasks@[j]);
                            assert(has_entry_for(before, tasks@[j]));
                            let a = choose|a: int| 0 <= a < before.len() && completed_on(tasks@[j], before[a].year, before[a].month, before[a].day);
                            assert(completed_on(*t, before[a].year, before[a].month, before[a].day));
                        }
                    }
                    let fresh = PeriodTaskStatistic {
                        year: c.year,
                        month: c.month,
                        day: c.day,
                        statistic: DateTaskStatistic {
                            level: activity_level_of(1),
                            data: DateTaskStatisticData { completed_tasks: 1 },
                        },
                    };
                    entries.push(fresh);
                    proof {
                        let n = before.len() as int;
                        assert forall|a: int| 0 <= a < entries@.len() implies describes(
                            #[trigger] entries@[a],
                            tasks@.subrange(0, i + 1),
                        ) by {
                            if a < n {
                                assert(entries@[a] == before[a]);
                                assert(!completed_on(*t, before[a].year, before[a].month, before[a].day));
                            }
                        }
                        assert forall|a: int, b: int| 0 <= a < b < entries@.len() implies !same_day(entries@[a], entries@[b]) by {
                            if b == n {
                                assert(entries@[a] == before[a]);
                                assert(!completed_on(*t, before[a].year, before[a].month, before[a].day));
                            }
                        }
                        assert forall|j: int|
                            0 <= j < i + 1 && (#[trigger] tasks@[j]).completed_at_utc is Some implies has_entry_for(
                            entries@,
                            tasks@[j],
                        ) by {
                            if j < i {
                                let a = choose|a: int| 0 <= a < before.len() && completed_on(tasks@[j], before[a].year, before[a].month, before[a].day);
                                assert(entries@[a] == before[a]);
                            } else {
                                assert(completed_on(tasks@[j], entries@[n].year, entries@[n].month, entries@[n].day));
                            }
                        }
                    }
                }
            } else {
                proof {
                    assert forall|a: int| 0 <= a < entries@.len() implies describes(
                        #[trigger] entries@[a],
                        tasks@.subrange(0, i + 1),
                    ) by {
                        assert(!completed_on(*t, entries@[a].year, entries@[a].month, entries@[a].day));
                    }
                }
            }
            i = i + 1;
        }
        assert(tasks@.subrange(0, tasks@.len() as int) =~= tasks@);
        entries
    }
}

} // verus!
