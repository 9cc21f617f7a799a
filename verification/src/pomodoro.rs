//! Timed-focus sessions and their lifecycle.

use vstd::prelude::*;

verus! {

/// The lifecycle of one timed-focus session.
#[derive(Debug, Clone, Copy, PartialEq, Eq, Structural)]
pub enum PomodoroStatus {
    Running,
    Completed,
    Cancelled,
}

/// The storage label of each status.
pub open spec fn pomodoro_label_spec(s: PomodoroStatus) -> Seq<char> {
    match s {
        PomodoroStatus::Running => "running"@,
        PomodoroStatus::Completed => "completed"@,
        PomodoroStatus::Cancelled => "cancelled"@,
    }
}

/// The status denoted by a storage label; anything unknown is running.
pub open spec fn pomodoro_of_label_spec(s: Seq<char>) -> PomodoroStatus {
    if s == "completed"@ {
        PomodoroStatus::Completed
    } else if s == "cancelled"@ {
        PomodoroStatus::Cancelled
    } else {
        PomodoroStatus::Running
    }
}

impl PomodoroStatus {
    /// The storage label of this status.
    pub fn label(&self) -> (r: String)
        ensures
            r@ == pomodoro_label_spec(*self),
    {
        match self {
            PomodoroStatus::Running => "running".to_owned(),
            PomodoroStatus::Completed => "completed".to_owned(),
            PomodoroStatus::Cancelled => "cancelled".to_owned(),
        }
    }

    /// Reads a status from its storage label.
    pub fn from_label(s: &str) -> (r: PomodoroStatus)
        ensures
            r == pomodoro_of_label_spec(s@),
    {
        if crate::text::str_eq(s, "completed") {
            PomodoroStatus::Completed
        } else if crate::text::str_eq(s, "cancelled") {
            PomodoroStatus::Cancelled
        } else {
            PomodoroStatus::Running
        }
    }
}

/// What a caller supplies to start a timed-focus session.
#[derive(Debug, Clone, Copy, PartialEq, Eq, Structural)]
pub struct StartPomodoroInput {
    pub subject_id: Option<i64>,
    pub task_id: Option<i64>,
}

/// One timed-focus session.
#[derive(Debug, Clone, Copy, PartialEq, Eq, Structural)]
pub struct PomodoroSession {
    pub id: i64,
    pub owner_id: i64,
    pub subject_id: Option<i64>,
    pub task_id: Option<i64>,
    pub start_seconds: i64,
    pub end_seconds: Option<i64>,
    pub duration_minutes: i32,
    pub status: PomodoroStatus,
}

/// Starts a fresh running session now, under the given row id and owner.
pub fn start_pomodoro(id: i64, owner_id: i64, input: StartPomodoroInput, now_seconds: i64) -> (r:
    PomodoroSession)
    ensures
        r == (PomodoroSession {
            id,
            owner_id,
            subject_id: input.subject_id,
            task_id: input.task_id,
            start_seconds: now_seconds,
            end_seconds: None,
            duration_minutes: 0,
            status: PomodoroStatus::Running,
        }),
{
    PomodoroSession {
        id,
        owner_id,
        subject_id: input.subject_id,
        task_id: input.task_id,
        start_seconds: now_seconds,
        end_seconds: None,
        duration_minutes: 0,
        status: PomodoroStatus::Running,
    }
}

impl PomodoroSession {
    /// Ends the session as completed now, recording the focused minutes.
    pub fn complete(&mut self, now_seconds: i64, duration_minutes: i32)
        ensures
            *final(self) == (PomodoroSession {
                end_seconds: Some(now_seconds),
                duration_minutes,
                status: PomodoroStatus::Completed,
                ..*old(self)
            }),
    {
        self.end_seconds = Some(now_seconds);
        self.duration_minutes = duration_minutes;
        self.status = PomodoroStatus::Completed;
    }

    /// Ends the session as cancelled now, recording the minutes it ran.
    pub fn cancel(&mut self, now_seconds: i64, duration_minutes: i32)
        ensures
            *final(self) == (PomodoroSession {
                end_seconds: Some(now_seconds),
                duration_minutes,
                status: PomodoroStatus::Cancelled,
                ..*old(self)
            }),
    {
        self.end_seconds = Some(now_seconds);
        self.duration_minutes = duration_minutes;
        self.status = PomodoroStatus::Cancelled;
    }
}

} // verus!
