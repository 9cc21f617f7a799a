//! The similarity engine and the auto-completion matcher, against concrete
//! inputs and against the reference metric.

use study_planner::similarity::{fuzzy_match, fuzzy_match_default, get_similarity};
use study_planner::tasks::{check_content, apply_check_content, Task, TaskStatus};
use study_planner::timedate::Date;

#[test]
fn test_exact_match() {
    assert!(fuzzy_match_default("学习数学", "学习数学"));
}

#[test]
fn test_similar_match() {
    assert!(fuzzy_match("学习数学", "学数学", 600));
}

#[test]
fn test_no_match() {
    assert!(!fuzzy_match_default("学习数学", "看电影"));
}

#[test]
fn similarity_of_a_string_with_itself_is_one() {
    for s in ["", "a", "学习数学", "hello world", "日本語テキスト"] {
        let sim = get_similarity(s, s);
        assert_eq!(sim.num, sim.den);
        assert!(sim.den > 0);
    }
}

#[test]
fn similarity_of_disjoint_strings_is_zero() {
    let sim = get_similarity("abc", "xyz");
    assert_eq!(sim.num, 0);
}

#[test]
fn empty_against_nonempty_scores_zero() {
    let sim = get_similarity("", "abc");
    assert_eq!(sim.num, 0);
    assert!(!fuzzy_match_default("", "abc"));
    assert!(fuzzy_match_default("", ""));
}

#[test]
fn decision_agrees_with_reference_metric() {
    let pairs = [
        ("学习数学", "学数学"),
        ("学习数学", "看电影"),
        ("cheeseburger", "cheese fries"),
        ("martha", "marhta"),
        ("dixon", "dicksonx"),
        ("hello", "hello"),
        ("", ""),
        ("", "x"),
        ("complete maths homework", "complete math homework"),
    ];
    for (a, b) in pairs {
        let ours = fuzzy_match_default(a, b);
        let reference = strsim::jaro_winkler(a, b) >= 0.7;
        assert_eq!(ours, reference, "disagreement on ({a}, {b})");
    }
}

#[test]
fn score_matches_reference_value() {
    // jaro_winkler("martha", "marhta") is exactly 0.961111... = 173/180.
    let sim = get_similarity("martha", "marhta");
    assert_eq!(sim.num * 180, sim.den * 173);
}

fn task(id: i64, content: &str, status: TaskStatus) -> Task {
    Task {
        id,
        owner_id: 1,
        subject_id: None,
        date: Date { year: 2025, month: 6, day: 1 },
        start_minutes: 480,
        end_minutes: 540,
        content: content.to_string(),
        status,
        alarm_enabled: false,
        alarm_minutes: None,
    }
}

#[test]
fn check_content_completes_every_pending_match() {
    let tasks = vec![
        task(1, "学习数学", TaskStatus::Pending),
        task(2, "看电影", TaskStatus::Pending),
        task(3, "学习数学", TaskStatus::Completed),
        task(4, "学习数学第一章", TaskStatus::Pending),
    ];
    let matched = check_content(&tasks, "学习数学");
    let ids: Vec<i64> = matched.iter().map(|t| t.id).collect();
    assert_eq!(ids, vec![1, 4]);
    assert!(matched.iter().all(|t| t.status == TaskStatus::Completed));
}

#[test]
fn check_content_is_idempotent_after_completions_apply() {
    let tasks = vec![
        task(1, "学习数学", TaskStatus::Pending),
        task(2, "背英语单词", TaskStatus::Pending),
    ];
    let first = check_content(&tasks, "学习数学");
    assert_eq!(first.len(), 1);
    let updated = apply_check_content(&tasks, "学习数学");
    let second = check_content(&updated, "学习数学");
    assert!(second.is_empty());
}

#[test]
fn check_content_with_no_match_returns_empty() {
    let tasks = vec![task(1, "看电影", TaskStatus::Pending)];
    assert!(check_content(&tasks, "学习数学").is_empty());
}
