//! Daily reflective notes, and the one-line renderings of recent history
//! that feed the plan prompt.

use vstd::prelude::*;
use crate::timedate::{Date, spec_format_date, format_date};
use crate::prompt::cat2;

verus! {

/// One day's reflective note.
#[derive(Debug, Clone, PartialEq, Eq)]
pub struct DailyReview {
    pub id: i64,
    pub owner_id: i64,
    pub date: Date,
    pub feelings: Option<String>,
    pub difficulties: Option<String>,
    pub ai_suggestions: Option<String>,
}

/// What a caller supplies to save a day's note.
#[derive(Debug, Clone, PartialEq, Eq)]
pub struct SaveReviewInput {
    pub date: Date,
    pub feelings: Option<String>,
    pub difficulties: Option<String>,
}

/// The one-line rendering of a reflective note for the plan prompt.
pub open spec fn review_line_spec(d: Date, feelings: Option<String>, difficulties: Option<
    String,
>) -> Seq<char> {
    spec_format_date(d) + ":"@ + (
    if feelings is Some {
        " 感受-"@ + feelings->0@
    } else {
        Seq::<char>::empty()
    }) + (
    if difficulties is Some {
        " 困难-"@ + difficulties->0@
    } else {
        Seq::<char>::empty()
    })
}

/// Renders a reflective note as one prompt line: the day, then the feelings
/// and difficulties that were recorded.
pub fn format_review_line(d: &Date, feelings: &Option<String>, difficulties: &Option<String>) -> (r:
    String)
    requires
        d.valid(),
    ensures
        r@ == review_line_spec(*d, *feelings, *difficulties),
{
    let mut r = format_date(d);
    r.append(":");
    if let Some(f) = feelings {
        let part = cat2(" 感受-", f.as_str());
        r.append(part.as_str());
    }
    if let Some(di) = difficulties {
        let part = cat2(" 困难-", di.as_str());
        r.append(part.as_str());
    }
    r
}

/// The one-line rendering of a completed task for the plan prompt.
pub open spec fn task_line_spec(d: Date, subject: Option<String>, content: Seq<char>) -> Seq<
    char,
> {
    spec_format_date(d) + ": ["@ + (
    if subject is Some {
        subject->0@
    } else {
        Seq::<char>::empty()
    }) + "] "@ + content
}

/// Renders a completed task as one prompt line: the day, the subject it
/// belongs to (blank when it has none), and what was done.
pub fn format_task_line(d: &Date, subject: &Option<String>, content: &str) -> (r: String)
    requires
        d.valid(),
    ensures
        r@ == task_line_spec(*d, *subject, content@),
{
    let mut r = format_date(d);
    r.append(": [");
    if let Some(s) = subject {
        r.append(s.as_str());
    }
    r.append("] ");
    r.append(content);
    r
}

} // verus!
