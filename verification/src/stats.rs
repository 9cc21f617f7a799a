//! Plain counts over tasks, and the per-subject study-time row.
//!
//! Ratios (completion percentages) are left to the display layer: the counts
//! here are exact integers.

use vstd::prelude::*;
use crate::tasks::{Task, TaskStatus};

verus! {

/// The total focused minutes booked on one subject.
#[derive(Debug, Clone, PartialEq, Eq)]
pub struct SubjectStudyTime {
    pub subject_id: i64,
    pub subject_name: String,
    pub subject_color: String,
    pub total_minutes: i64,
}

/// How many of the tasks are completed.
pub open spec fn spec_completed_count(tasks: Seq<Task>) -> nat
    decreases tasks.len(),
{
    if tasks.len() == 0 {
        0
    } else {
        spec_completed_count(tasks.drop_last()) + (
        if tasks.last().status == TaskStatus::Completed {
            1nat
        } else {
            0nat
        })
    }
}

/// Counts a day's tasks: how many there are, and how many are completed.
pub fn task_counts(tasks: &Vec<Task>) -> (r: (usize, usize))
    ensures
        r.0 == tasks@.len(),
        r.1 == spec_completed_count(tasks@),
        r.1 <= r.0,
{
    let mut completed: usize = 0;
    let mut i: usize = 0;
    while i < tasks.len()
        invariant
            i <= tasks@.len(),
            completed <= i,
            completed == spec_completed_count(tasks@.take(i as int)),
        decreases tasks@.len() - i,
    {
        proof {
            assert(tasks@.take(i + 1).drop_last() =~= tasks@.take(i as int));
        }
        if matches!(tasks[i].status, TaskStatus::Completed) {
            completed = completed + 1;
        }
        i = i + 1;
    }
    proof {
        assert(tasks@.take(tasks@.len() as int) =~= tasks@);
    }
    (tasks.len(), completed)
}

} // verus!
