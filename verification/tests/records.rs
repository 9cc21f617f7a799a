//! Times, dates, rendering helpers, and the plain record types.

use study_planner::countdown::{new_countdown, Countdown, CreateCountdownInput};
use study_planner::errors::AppError;
use study_planner::pomodoro::{start_pomodoro, PomodoroStatus, StartPomodoroInput};
use study_planner::reviews::{format_review_line, format_task_line};
use study_planner::stats::task_counts;
use study_planner::subjects::{new_subject, CreateSubjectInput};
use study_planner::tasks::{
    apply_task_update, new_task, CreateTaskInput, Task, TaskStatus, UpdateTaskInput,
};
use study_planner::text::{i64_to_string, u64_to_string};
use study_planner::timedate::{days_between, format_date, format_hhmm, parse_date, parse_hhmm, Date};

#[test]
fn hhmm_parsing_accepts_exactly_the_well_formed_times() {
    assert_eq!(parse_hhmm("07:00"), Some(420));
    assert_eq!(parse_hhmm("00:00"), Some(0));
    assert_eq!(parse_hhmm("23:59"), Some(1439));
    assert_eq!(parse_hhmm("24:00"), None);
    assert_eq!(parse_hhmm("12:60"), None);
    assert_eq!(parse_hhmm("7:00"), None);
    assert_eq!(parse_hhmm("07-00"), None);
    assert_eq!(parse_hhmm(""), None);
}

#[test]
fn hhmm_formatting_zero_pads() {
    assert_eq!(format_hhmm(420), "07:00");
    assert_eq!(format_hhmm(0), "00:00");
    assert_eq!(format_hhmm(1439), "23:59");
}

#[test]
fn date_parsing_accepts_exactly_the_real_days() {
    assert_eq!(
        parse_date("2025-06-01"),
        Some(Date { year: 2025, month: 6, day: 1 })
    );
    assert_eq!(parse_date("2024-02-29"), Some(Date { year: 2024, month: 2, day: 29 }));
    assert_eq!(parse_date("2025-02-29"), None);
    assert_eq!(parse_date("2025-13-01"), None);
    assert_eq!(parse_date("2025-00-10"), None);
    assert_eq!(parse_date("2025-6-1"), None);
}

#[test]
fn date_formatting_round_trips() {
    let d = Date { year: 2025, month: 6, day: 1 };
    assert_eq!(format_date(&d), "2025-06-01");
    assert_eq!(parse_date(&format_date(&d)), Some(d));
}

#[test]
fn day_differences_cross_leap_days() {
    let a = Date { year: 2024, month: 1, day: 1 };
    let b = Date { year: 2024, month: 3, day: 1 };
    assert_eq!(days_between(&a, &b), 60);
    let c = Date { year: 2023, month: 1, day: 1 };
    let d = Date { year: 2023, month: 3, day: 1 };
    assert_eq!(days_between(&c, &d), 59);
    assert_eq!(days_between(&b, &a), -60);
    let y1 = Date { year: 2024, month: 6, day: 15 };
    let y2 = Date { year: 2025, month: 6, day: 15 };
    assert_eq!(days_between(&y1, &y2), 365);
}

#[test]
fn integers_render_in_decimal() {
    assert_eq!(u64_to_string(0), "0");
    assert_eq!(u64_to_string(907), "907");
    assert_eq!(i64_to_string(-5), "-5");
    assert_eq!(i64_to_string(i64::MIN), "-9223372036854775808");
}

#[test]
fn error_messages_are_single_descriptive_strings() {
    assert_eq!(AppError::Unauthenticated.message(), "session invalid or expired");
    assert_eq!(
        AppError::ExternalServiceError("x".to_string()).message(),
        "external service error: x"
    );
    assert_eq!(AppError::NotConfigured.message(), "external service is not configured");
}

#[test]
fn task_status_toggles_in_a_cycle() {
    assert_eq!(TaskStatus::Pending.next(), TaskStatus::Completed);
    assert_eq!(TaskStatus::Completed.next(), TaskStatus::Failed);
    assert_eq!(TaskStatus::Failed.next(), TaskStatus::Pending);
    assert_eq!(TaskStatus::Pending.next().next().next(), TaskStatus::Pending);
}

#[test]
fn status_labels_round_trip() {
    for s in [TaskStatus::Pending, TaskStatus::Completed, TaskStatus::Failed] {
        assert_eq!(TaskStatus::from_label(&s.label()), s);
    }
    assert_eq!(TaskStatus::from_label("nonsense"), TaskStatus::Pending);
    for s in [PomodoroStatus::Running, PomodoroStatus::Completed, PomodoroStatus::Cancelled] {
        assert_eq!(PomodoroStatus::from_label(&s.label()), s);
    }
}

#[test]
fn sparse_updates_touch_only_the_supplied_fields() {
    let date = Date { year: 2025, month: 6, day: 1 };
    let task = new_task(
        1,
        2,
        CreateTaskInput {
            subject_id: Some(9),
            date,
            start_minutes: 480,
            end_minutes: 540,
            content: "旧内容".to_string(),
            alarm_enabled: None,
            alarm_minutes: None,
        },
    );
    assert_eq!(task.status, TaskStatus::Pending);
    assert!(!task.alarm_enabled);
    let updated = apply_task_update(
        &task,
        &UpdateTaskInput {
            subject_id: None,
            start_minutes: Some(500),
            end_minutes: None,
            content: Some("新内容".to_string()),
            alarm_enabled: None,
            alarm_minutes: None,
        },
    );
    assert_eq!(updated.start_minutes, 500);
    assert_eq!(updated.end_minutes, 540);
    assert_eq!(updated.content, "新内容");
    assert_eq!(updated.subject_id, Some(9));
    assert_eq!(updated.id, 1);
    let untouched = apply_task_update(
        &task,
        &UpdateTaskInput {
            subject_id: None,
            start_minutes: None,
            end_minutes: None,
            content: None,
            alarm_enabled: None,
            alarm_minutes: None,
        },
    );
    assert_eq!(untouched, task);
}

#[test]
fn countdown_decomposes_the_remaining_time() {
    let c = Countdown {
        id: 1,
        owner_id: 1,
        name: "考试".to_string(),
        target_seconds: 2 * 86400 + 3 * 3600 + 15 * 60,
        notify_enabled: true,
    };
    let r = c.to_response(0);
    assert!(!r.is_expired);
    assert_eq!(r.remaining_days, 2);
    assert_eq!(r.remaining_hours, 3);
    assert_eq!(r.remaining_minutes, 15);
    let past = c.to_response(c.target_seconds + 90 * 60);
    assert!(past.is_expired);
    assert_eq!(past.remaining_days, 0);
    assert_eq!(past.remaining_hours, 1);
    assert_eq!(past.remaining_minutes, 30);
}

#[test]
fn countdown_creation_defaults_notification_on() {
    let c = new_countdown(
        1,
        1,
        CreateCountdownInput { name: "n".to_string(), target_seconds: 10, notify_enabled: None },
    );
    assert!(c.notify_enabled);
}

#[test]
fn pomodoro_lifecycle_records_the_outcome() {
    let mut p = start_pomodoro(1, 2, StartPomodoroInput { subject_id: None, task_id: Some(3) }, 100);
    assert_eq!(p.status, PomodoroStatus::Running);
    p.complete(1600, 25);
    assert_eq!(p.status, PomodoroStatus::Completed);
    assert_eq!(p.end_seconds, Some(1600));
    assert_eq!(p.duration_minutes, 25);
    let mut q = start_pomodoro(2, 2, StartPomodoroInput { subject_id: None, task_id: None }, 100);
    q.cancel(400, 5);
    assert_eq!(q.status, PomodoroStatus::Cancelled);
}

#[test]
fn subjects_get_the_default_color() {
    let s = new_subject(1, 2, CreateSubjectInput { name: "数学".to_string(), color: None });
    assert_eq!(s.color, "#3B82F6");
    assert!(!s.is_default);
}

#[test]
fn prompt_history_lines_render_like_the_stored_rows() {
    let d = Date { year: 2025, month: 6, day: 1 };
    let line = format_review_line(&d, &Some("不错".to_string()), &Some("数学难".to_string()));
    assert_eq!(line, "2025-06-01: 感受-不错 困难-数学难");
    let bare = format_review_line(&d, &None, &None);
    assert_eq!(bare, "2025-06-01:");
    let task_line = format_task_line(&d, &Some("数学".to_string()), "做题50道");
    assert_eq!(task_line, "2025-06-01: [数学] 做题50道");
    let no_subject = format_task_line(&d, &None, "休息");
    assert_eq!(no_subject, "2025-06-01: [] 休息");
}

#[test]
fn task_counts_count_exactly_the_completed() {
    let date = Date { year: 2025, month: 6, day: 1 };
    let mk = |id: i64, status: TaskStatus| Task {
        id,
        owner_id: 1,
        subject_id: None,
        date,
        start_minutes: 0,
        end_minutes: 1,
        content: String::new(),
        status,
        alarm_enabled: false,
        alarm_minutes: None,
    };
    let tasks = vec![
        mk(1, TaskStatus::Completed),
        mk(2, TaskStatus::Pending),
        mk(3, TaskStatus::Completed),
        mk(4, TaskStatus::Failed),
    ];
    assert_eq!(task_counts(&tasks), (4, 2));
}

#[test]
fn extremes_of_the_plain_codecs() {
    assert_eq!(u64_to_string(u64::MAX), "18446744073709551615");
    assert_eq!(
        parse_date("9999-12-31"),
        Some(Date { year: 9999, month: 12, day: 31 })
    );
    assert_eq!(parse_date("0000-01-01"), None);
    assert_eq!(format_date(&Date { year: 1, month: 1, day: 1 }), "0001-01-01");
}
