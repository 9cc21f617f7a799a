//! Study-time preferences: the caller's time windows, phase and subject
//! lists, validated from plain input and rendered back for display.

use vstd::prelude::*;
use crate::errors::AppError;
use crate::timedate::{
    Date, parse_hhmm, format_hhmm, spec_format_hhmm, valid_hhmm, hhmm_value, parse_date,
    valid_date_str, date_of, spec_format_date, format_date, days_between, spec_day_number,
    MINUTES_PER_DAY,
};

verus! {

/// The three phases of an exam-preparation year.
#[derive(Debug, Clone, Copy, PartialEq, Eq, Structural)]
pub enum StudyPhase {
    Foundation,
    Strengthen,
    Sprint,
}

impl Default for StudyPhase {
    /// The foundation phase, until the caller says otherwise.
    fn default() -> (r: StudyPhase)
        ensures
            r == StudyPhase::Foundation,
    {
        StudyPhase::Foundation
    }
}

/// The storage label of each phase.
pub open spec fn phase_label_spec(p: StudyPhase) -> Seq<char> {
    match p {
        StudyPhase::Foundation => "foundation"@,
        StudyPhase::Strengthen => "strengthen"@,
        StudyPhase::Sprint => "sprint"@,
    }
}

/// The phase denoted by a storage label; anything unknown is the foundation
/// phase.
pub open spec fn phase_of_label_spec(s: Seq<char>) -> StudyPhase {
    if s == "strengthen"@ {
        StudyPhase::Strengthen
    } else if s == "sprint"@ {
        StudyPhase::Sprint
    } else {
        StudyPhase::Foundation
    }
}

/// The display name of each phase.
pub open spec fn phase_display_spec(p: StudyPhase) -> Seq<char> {
    match p {
        StudyPhase::Foundation => "基础阶段"@,
        StudyPhase::Strengthen => "强化阶段"@,
        StudyPhase::Sprint => "冲刺阶段"@,
    }
}

/// The one-line description of each phase used when rendering a plan prompt.
pub open spec fn phase_desc_spec(p: StudyPhase) -> Seq<char> {
    match p {
        StudyPhase::Foundation => "基础阶段 - 重点打牢基础知识"@,
        StudyPhase::Strengthen => "强化阶段 - 重点做题和总结方法"@,
        StudyPhase::Sprint => "冲刺阶段 - 查漏补缺和模拟考试"@,
    }
}

impl StudyPhase {
    /// The storage label of this phase.
    pub fn label(&self) -> (r: String)
        ensures
            r@ == phase_label_spec(*self),
    {
        match self {
            StudyPhase::Foundation => "foundation".to_owned(),
            StudyPhase::Strengthen => "strengthen".to_owned(),
            StudyPhase::Sprint => "sprint".to_owned(),
        }
    }

    /// Reads a phase from its storage label.
    pub fn from_label(s: &str) -> (r: StudyPhase)
        ensures
            r == phase_of_label_spec(s@),
    {
        if crate::text::str_eq(s, "strengthen") {
            StudyPhase::Strengthen
        } else if crate::text::str_eq(s, "sprint") {
            StudyPhase::Sprint
        } else {
            StudyPhase::Foundation
        }
    }

    /// The display name of this phase.
    pub fn display(&self) -> (r: String)
        ensures
            r@ == phase_display_spec(*self),
    {
        match self {
            StudyPhase::Foundation => "基础阶段".to_owned(),
            StudyPhase::Strengthen => "强化阶段".to_owned(),
            StudyPhase::Sprint => "冲刺阶段".to_owned(),
        }
    }

    /// The prompt description of this phase.
    pub fn description(&self) -> (r: String)
        ensures
            r@ == phase_desc_spec(*self),
    {
        match self {
            StudyPhase::Foundation => "基础阶段 - 重点打牢基础知识".to_owned(),
            StudyPhase::Strengthen => "强化阶段 - 重点做题和总结方法".to_owned(),
            StudyPhase::Sprint => "冲刺阶段 - 查漏补缺和模拟考试".to_owned(),
        }
    }
}

/// A caller's saved study-time preferences, held as plain values: clock
/// times as minutes of the day, the exam day as a calendar date.
#[derive(Debug, Clone, PartialEq, Eq)]
pub struct StudyPreference {
    pub id: i64,
    pub owner_id: i64,
    pub daily_hours: i32,
    pub start_minutes: u16,
    pub end_minutes: u16,
    pub lunch_start_minutes: u16,
    pub lunch_end_minutes: u16,
    pub phase: StudyPhase,
    pub focus_subjects: Vec<String>,
    pub weak_subjects: Vec<String>,
    pub exam_date: Option<Date>,
    pub notes: Option<String>,
}

impl StudyPreference {
    /// Well-formed preferences: every clock time is a minute of the day and
    /// the exam date, when set, is a real day.
    pub open spec fn wf(self) -> bool {
        &&& self.start_minutes < MINUTES_PER_DAY
        &&& self.end_minutes < MINUTES_PER_DAY
        &&& self.lunch_start_minutes < MINUTES_PER_DAY
        &&& self.lunch_end_minutes < MINUTES_PER_DAY
        &&& (self.exam_date is Some ==> self.exam_date->0.valid())
    }
}

/// What a caller supplies to save preferences: times as "HH:MM" text, the
/// exam day as "YYYY-MM-DD" text.
#[derive(Debug, Clone, PartialEq, Eq)]
pub struct SaveStudyPreferenceInput {
    pub daily_hours: i32,
    pub start_time: String,
    pub end_time: String,
    pub lunch_break_start: String,
    pub lunch_break_end: String,
    pub study_phase: String,
    pub focus_subjects: Vec<String>,
    pub weak_subjects: Vec<String>,
    pub exam_date: Option<String>,
    pub notes: Option<String>,
}

impl SaveStudyPreferenceInput {
    /// Whether all four time strings are well-formed "HH:MM" values.
    pub open spec fn times_valid(self) -> bool {
        valid_hhmm(self.start_time@) && valid_hhmm(self.end_time@) && valid_hhmm(
            self.lunch_break_start@,
        ) && valid_hhmm(self.lunch_break_end@)
    }
}

/// Validates preference input into a well-formed preference record.
/// Succeeds exactly when all four time strings parse; an unparsable exam
/// date is dropped rather than rejected, and an unknown phase label falls
/// back to the foundation phase.
pub fn validate_preference_input(id: i64, owner_id: i64, input: SaveStudyPreferenceInput) -> (r:
    Result<StudyPreference, AppError>)
    ensures
        r is Ok <==> input.times_valid(),
        r is Ok ==> {
            let p = r->Ok_0;
            &&& p.wf()
            &&& p.id == id
            &&& p.owner_id == owner_id
            &&& p.daily_hours == input.daily_hours
            &&& p.start_minutes == hhmm_value(input.start_time@)
            &&& p.end_minutes == hhmm_value(input.end_time@)
            &&& p.lunch_start_minutes == hhmm_value(input.lunch_break_start@)
            &&& p.lunch_end_minutes == hhmm_value(input.lunch_break_end@)
            &&& p.phase == phase_of_label_spec(input.study_phase@)
            &&& p.focus_subjects == input.focus_subjects
            &&& p.weak_subjects == input.weak_subjects
            &&& p.exam_date == (if input.exam_date is Some && valid_date_str(input.exam_date->0@) {
                Some(date_of(input.exam_date->0@))
            } else {
                Option::<Date>::None
            })
            &&& p.notes == input.notes
        },
        r is Err ==> r->Err_0 is ValidationError,
{
    let start_minutes = match parse_hhmm(input.start_time.as_str()) {
        Some(m) => m,
        None => {
            return Err(AppError::ValidationError("start time must be HH:MM".to_owned()));
        },
    };
    let end_minutes = match parse_hhmm(input.end_time.as_str()) {
        Some(m) => m,
        None => {
            return Err(AppError::ValidationError("end time must be HH:MM".to_owned()));
        },
    };
    let lunch_start_minutes = match parse_hhmm(input.lunch_break_start.as_str()) {
        Some(m) => m,
        None => {
            return Err(AppError::ValidationError("lunch break start must be HH:MM".to_owned()));
        },
    };
    let lunch_end_minutes = match parse_hhmm(input.lunch_break_end.as_str()) {
        Some(m) => m,
        None => {
            return Err(AppError::ValidationError("lunch break end must be HH:MM".to_owned()));
        },
    };
    let phase = StudyPhase::from_label(input.study_phase.as_str());
    let exam_date = match &input.exam_date {
        Some(d) => parse_date(d.as_str()),
        None => None,
    };
    Ok(
        StudyPreference {
            id,
            owner_id,
            daily_hours: input.daily_hours,
            start_minutes,
            end_minutes,
            lunch_start_minutes,
            lunch_end_minutes,
            phase,
            focus_subjects: input.focus_subjects,
            weak_subjects: input.weak_subjects,
            exam_date,
            notes: input.notes,
        },
    )
}

/// Preferences rendered for display: times back in "HH:MM" form, the exam
/// day in "YYYY-MM-DD" form with the days still to go.
#[derive(Debug, Clone, PartialEq, Eq)]
pub struct StudyPreferenceResponse {
    pub id: i64,
    pub daily_hours: i32,
    pub start_time: String,
    pub end_time: String,
    pub lunch_break_start: String,
    pub lunch_break_end: String,
    pub study_phase: String,
    pub study_phase_label: String,
    pub focus_subjects: Vec<String>,
    pub weak_subjects: Vec<String>,
    pub exam_date: Option<String>,
    pub days_until_exam: Option<i64>,
    pub notes: Option<String>,
}

impl Default for StudyPreferenceResponse {
    /// The defaults shown before any preference is saved: eight hours
    /// between 07:00 and 22:00 with a 12:00-14:00 lunch break, in the
    /// foundation phase.
    fn default() -> (r: StudyPreferenceResponse)
        ensures
            r.id == 0 && r.daily_hours == 8,
            r.start_time@ == "07:00"@ && r.end_time@ == "22:00"@,
            r.lunch_break_start@ == "12:00"@ && r.lunch_break_end@ == "14:00"@,
            r.study_phase@ == "foundation"@,
            r.study_phase_label@ == "基础阶段"@,
            r.focus_subjects@ =~= Seq::<String>::empty(),
            r.weak_subjects@ =~= Seq::<String>::empty(),
            r.exam_date is None && r.days_until_exam is None && r.notes is None,
    {
        StudyPreferenceResponse {
            id: 0,
            daily_hours: 8,
            start_time: "07:00".to_owned(),
            end_time: "22:00".to_owned(),
            lunch_break_start: "12:00".to_owned(),
            lunch_break_end: "14:00".to_owned(),
            study_phase: "foundation".to_owned(),
            study_phase_label: "基础阶段".to_owned(),
            focus_subjects: Vec::new(),
            weak_subjects: Vec::new(),
            exam_date: None,
            days_until_exam: None,
            notes: None,
        }
    }
}

/// Renders saved preferences for display; `today` anchors the days-to-exam
/// count.
pub fn preference_response(p: &StudyPreference, today: &Date) -> (r: StudyPreferenceResponse)
    requires
        p.wf(),
        today.valid(),
    ensures
        r.id == p.id && r.daily_hours == p.daily_hours,
        r.start_time@ == spec_format_hhmm(p.start_minutes as nat),
        r.end_time@ == spec_format_hhmm(p.end_minutes as nat),
        r.lunch_break_start@ == spec_format_hhmm(p.lunch_start_minutes as nat),
        r.lunch_break_end@ == spec_format_hhmm(p.lunch_end_minutes as nat),
        r.study_phase@ == phase_label_spec(p.phase),
        r.study_phase_label@ == phase_display_spec(p.phase),
        r.focus_subjects@ == p.focus_subjects@ && r.weak_subjects@ == p.weak_subjects@,
        p.exam_date is Some ==> r.exam_date is Some && r.exam_date->0@ == spec_format_date(
            p.exam_date->0,
        ) && r.days_until_exam == Some(
            (spec_day_number(p.exam_date->0) - spec_day_number(*today)) as i64,
        ),
        p.exam_date is None ==> r.exam_date is None && r.days_until_exam is None,
        r.notes == p.notes,
{
    let (exam_date, days_until_exam) = match &p.exam_date {
        Some(d) => (Some(format_date(d)), Some(days_between(today, d))),
        None => (None, None),
    };
    StudyPreferenceResponse {
        id: p.id,
        daily_hours: p.daily_hours,
        start_time: format_hhmm(p.start_minutes),
        end_time: format_hhmm(p.end_minutes),
        lunch_break_start: format_hhmm(p.lunch_start_minutes),
        lunch_break_end: format_hhmm(p.lunch_end_minutes),
        study_phase: p.phase.label(),
        study_phase_label: p.phase.display(),
        focus_subjects: clone_strings(&p.focus_subjects),
        weak_subjects: clone_strings(&p.weak_subjects),
        exam_date,
        days_until_exam,
        notes: clone_opt_string(&p.notes),
    }
}

/// A field-for-field copy of a list of strings.
pub fn clone_strings(v: &Vec<String>) -> (r: Vec<String>)
    ensures
        r@ == v@,
{
    let mut r: Vec<String> = Vec::new();
    let mut i: usize = 0;
    while i < v.len()
        invariant
            i <= v@.len(),
            r@ == v@.take(i as int),
        decreases v@.len() - i,
    {
        r.push(v[i].clone());
        proof {
            assert(r@ =~= v@.take(i + 1));
        }
        i = i + 1;
    }
    proof {
        assert(v@.take(v@.len() as int) =~= v@);
        assert(r@ =~= v@);
    }
    r
}

/// A copy of an optional string.
pub fn clone_opt_string(v: &Option<String>) -> (r: Option<String>)
    ensures
        r == *v,
{
    match v {
        Some(s) => Some(s.clone()),
        None => None,
    }
}

} // verus!
