//! Tasks and the auto-completion matcher.
//!
//! The matcher consumes the day's tasks, already scoped to one owner and one
//! date and ordered by start time, and decides which pending ones the free
//! text completes. Matching is independent per task: one input may complete
//! zero, one or several tasks, with no early exit. Persisting each
//! transition is the caller's duty; partial success is acceptable there and
//! the first store failure must be propagated, not swallowed.

use vstd::prelude::*;
use crate::similarity::{fuzzy_match_spec, fuzzy_match_default, DEFAULT_THRESHOLD_THOUSANDTHS};
use crate::timedate::Date;

verus! {

/// The lifecycle of one task.
#[derive(Debug, Clone, Copy, PartialEq, Eq, Structural)]
pub enum TaskStatus {
    Pending,
    Completed,
    Failed,
}

/// The storage label of each status.
pub open spec fn status_label_spec(s: TaskStatus) -> Seq<char> {
    match s {
        TaskStatus::Pending => "pending"@,
        TaskStatus::Completed => "completed"@,
        TaskStatus::Failed => "failed"@,
    }
}

/// The status denoted by a storage label; anything unknown is pending.
pub open spec fn status_of_label_spec(s: Seq<char>) -> TaskStatus {
    if s == "completed"@ {
        TaskStatus::Completed
    } else if s == "failed"@ {
        TaskStatus::Failed
    } else {
        TaskStatus::Pending
    }
}

impl TaskStatus {
    /// The status a manual toggle moves to: pending, completed and failed in
    /// a cycle.
    pub fn next(&self) -> (r: TaskStatus)
        ensures
            r == match *self {
                TaskStatus::Pending => TaskStatus::Completed,
                TaskStatus::Completed => TaskStatus::Failed,
                TaskStatus::Failed => TaskStatus::Pending,
            },
    {
        match self {
            TaskStatus::Pending => TaskStatus::Completed,
            TaskStatus::Completed => TaskStatus::Failed,
            TaskStatus::Failed => TaskStatus::Pending,
        }
    }

    /// The storage label of this status.
    pub fn label(&self) -> (r: String)
        ensures
            r@ == status_label_spec(*self),
    {
        match self {
            TaskStatus::Pending => "pending".to_owned(),
            TaskStatus::Completed => "completed".to_owned(),
            TaskStatus::Failed => "failed".to_owned(),
        }
    }

    /// Reads a status from its storage label.
    pub fn from_label(s: &str) -> (r: TaskStatus)
        ensures
            r == status_of_label_spec(s@),
    {
        if crate::text::str_eq(s, "completed") {
            TaskStatus::Completed
        } else if crate::text::str_eq(s, "failed") {
            TaskStatus::Failed
        } else {
            TaskStatus::Pending
        }
    }
}

/// One study task, scoped to its owner and day.
#[derive(Debug, Clone, PartialEq, Eq)]
pub struct Task {
    pub id: i64,
    pub owner_id: i64,
    pub subject_id: Option<i64>,
    pub date: Date,
    pub start_minutes: u16,
    pub end_minutes: u16,
    pub content: String,
    pub status: TaskStatus,
    pub alarm_enabled: bool,
    pub alarm_minutes: Option<u16>,
}

/// What a caller supplies to create a task; the alarm defaults to off.
#[derive(Debug, Clone, PartialEq, Eq)]
pub struct CreateTaskInput {
    pub subject_id: Option<i64>,
    pub date: Date,
    pub start_minutes: u16,
    pub end_minutes: u16,
    pub content: String,
    pub alarm_enabled: Option<bool>,
    pub alarm_minutes: Option<u16>,
}

/// A sparse update: only the supplied fields are touched.
#[derive(Debug, Clone, PartialEq, Eq)]
pub struct UpdateTaskInput {
    pub subject_id: Option<i64>,
    pub start_minutes: Option<u16>,
    pub end_minutes: Option<u16>,
    pub content: Option<String>,
    pub alarm_enabled: Option<bool>,
    pub alarm_minutes: Option<u16>,
}

impl Task {
    /// A field-for-field copy.
    pub fn clone_task(&self) -> (r: Task)
        ensures
            r == *self,
    {
        Task {
            id: self.id,
            owner_id: self.owner_id,
            subject_id: self.subject_id,
            date: self.date,
            start_minutes: self.start_minutes,
            end_minutes: self.end_minutes,
            content: self.content.clone(),
            status: self.status,
            alarm_enabled: self.alarm_enabled,
            alarm_minutes: self.alarm_minutes,
        }
    }
}

/// Builds a fresh pending task from creation input, under the given row id
/// and owner.
pub fn new_task(id: i64, owner_id: i64, input: CreateTaskInput) -> (r: Task)
    ensures
        r.id == id && r.owner_id == owner_id && r.subject_id == input.subject_id && r.date
            == input.date && r.start_minutes == input.start_minutes && r.end_minutes
            == input.end_minutes && r.content == input.content && r.status == TaskStatus::Pending
            && r.alarm_minutes == input.alarm_minutes,
        r.alarm_enabled == if input.alarm_enabled is Some {
            input.alarm_enabled->0
        } else {
            false
        },
{
    let alarm_enabled = match input.alarm_enabled {
        Some(b) => b,
        None => false,
    };
    Task {
        id,
        owner_id,
        subject_id: input.subject_id,
        date: input.date,
        start_minutes: input.start_minutes,
        end_minutes: input.end_minutes,
        content: input.content,
        status: TaskStatus::Pending,
        alarm_enabled,
        alarm_minutes: input.alarm_minutes,
    }
}

/// Applies a sparse update: each supplied field replaces the old value, every
/// other field, and the identity, day and status, stay as they were.
pub fn apply_task_update(task: &Task, input: &UpdateTaskInput) -> (r: Task)
    ensures
        r.id == task.id && r.owner_id == task.owner_id && r.date == task.date && r.status
            == task.status,
        r.subject_id == if input.subject_id is Some {
            input.subject_id
        } else {
            task.subject_id
        },
        r.start_minutes == if input.start_minutes is Some {
            input.start_minutes->0
        } else {
            task.start_minutes
        },
        r.end_minutes == if input.end_minutes is Some {
            input.end_minutes->0
        } else {
            task.end_minutes
        },
        r.content@ == if input.content is Some {
            input.content->0@
        } else {
            task.content@
        },
        r.alarm_enabled == if input.alarm_enabled is Some {
            input.alarm_enabled->0
        } else {
            task.alarm_enabled
        },
        r.alarm_minutes == if input.alarm_minutes is Some {
            input.alarm_minutes
        } else {
            task.alarm_minutes
        },
{
    let mut r = task.clone_task();
    if let Some(v) = input.subject_id {
        r.subject_id = Some(v);
    }
    if let Some(v) = input.start_minutes {
        r.start_minutes = v;
    }
    if let Some(v) = &input.content {
        r.content = v.clone();
    }
    if let Some(v) = input.end_minutes {
        r.end_minutes = v;
    }
    if let Some(v) = input.alarm_enabled {
        r.alarm_enabled = v;
    }
    if let Some(v) = input.alarm_minutes {
        r.alarm_minutes = Some(v);
    }
    r
}

// ------------------------------------------------------------------
// The auto-completion matcher.
// ------------------------------------------------------------------
/// A task counts as done when it is still open and the two texts score at
/// least the default threshold.
pub open spec fn task_matches(t: Task, input: Seq<char>) -> bool {
    t.status == TaskStatus::Pending && fuzzy_match_spec(
        input,
        t.content@,
        DEFAULT_THRESHOLD_THOUSANDTHS,
    )
}

/// The task once completed.
pub open spec fn completed_task(t: Task) -> Task {
    Task { status: TaskStatus::Completed, ..t }
}

/// The tasks the input completes, in their original order, each already
/// carrying its new status.
pub open spec fn spec_matched(tasks: Seq<Task>, input: Seq<char>) -> Seq<Task>
    decreases tasks.len(),
{
    if tasks.len() == 0 {
        Seq::empty()
    } else {
        spec_matched(tasks.drop_last(), input) + (
        if task_matches(tasks.last(), input) {
            seq![completed_task(tasks.last())]
        } else {
            Seq::<Task>::empty()
        })
    }
}

/// The whole day after the run: matched tasks completed, the rest untouched.
pub open spec fn spec_after_run(tasks: Seq<Task>, input: Seq<char>) -> Seq<Task> {
    tasks.map(
        |i: int, t: Task|
            if task_matches(t, input) {
                completed_task(t)
            } else {
                t
            },
    )
}

/// Decides which of the day's tasks the free text completes. Evaluation
/// follows the given order (the day's start-time order); every returned task
/// is the stored one with its status moved to completed. The caller persists
/// each transition and must propagate the first store failure while leaving
/// earlier committed updates committed.
pub fn check_content(tasks: &Vec<Task>, input: &str) -> (matched: Vec<Task>)
    ensures
        matched@ == spec_matched(tasks@, input@),
{
    let mut matched: Vec<Task> = Vec::new();
    let mut i: usize = 0;
    while i < tasks.len()
        invariant
            i <= tasks@.len(),
            matched@ == spec_matched(tasks@.take(i as int), input@),
        decreases tasks@.len() - i,
    {
        proof {
            assert(tasks@.take(i + 1).drop_last() =~= tasks@.take(i as int));
        }
        let t = &tasks[i];
        let is_pending = matches!(t.status, TaskStatus::Pending);
        if is_pending && fuzzy_match_default(input, t.content.as_str()) {
            let mut done = t.clone_task();
            done.status = TaskStatus::Completed;
            matched.push(done);
        }
        i = i + 1;
    }
    proof {
        assert(tasks@.take(tasks@.len() as int) =~= tasks@);
    }
    matched
}

/// The day's tasks once the run's completions are applied.
pub fn apply_check_content(tasks: &Vec<Task>, input: &str) -> (r: Vec<Task>)
    ensures
        r@ == spec_after_run(tasks@, input@),
{
    let mut r: Vec<Task> = Vec::new();
    let mut i: usize = 0;
    while i < tasks.len()
        invariant
            i <= tasks@.len(),
            r@ == spec_after_run(tasks@, input@).take(i as int),
        decreases tasks@.len() - i,
    {
        let t = &tasks[i];
        let is_pending = matches!(t.status, TaskStatus::Pending);
        if is_pending && fuzzy_match_default(input, t.content.as_str()) {
            let mut done = t.clone_task();
            done.status = TaskStatus::Completed;
            r.push(done);
        } else {
            r.push(t.clone_task());
        }
        proof {
            assert(r@ =~= spec_after_run(tasks@, input@).take(i + 1));
        }
        i = i + 1;
    }
    proof {
        assert(r@ =~= spec_after_run(tasks@, input@));
    }
    r
}

/// Running the matcher twice with the same input is idempotent: once the
/// first run's completions took effect, the second run matches nothing,
/// because completed tasks are excluded.
pub proof fn law_check_content_idempotent(tasks: Seq<Task>, input: Seq<char>)
    ensures
        spec_matched(spec_after_run(tasks, input), input) =~= Seq::<Task>::empty(),
    decreases tasks.len(),
{
    if tasks.len() > 0 {
        let prefix = tasks.drop_last();
        law_check_content_idempotent(prefix, input);
        assert(spec_after_run(tasks, input).drop_last() =~= spec_after_run(prefix, input));
    }
}

} // verus!
