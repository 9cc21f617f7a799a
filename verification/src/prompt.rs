//! Deterministic rendering of the plan-generation instruction document.
//!
//! The document is built purely from the aggregated context: a fixed domain
//! framing with the phase definitions and planning principles, the caller's
//! preferences, the caller-supplied subject list and unfinished items, the
//! recent reflections and completed tasks, and a strict output-format
//! instruction. No network is touched here; the rendering is a function of
//! its arguments alone.

use vstd::prelude::*;
use crate::preferences::{StudyPreference, phase_desc_spec};
use crate::text::{spec_signed_digits, i64_to_string};
use crate::timedate::{Date, spec_format_hhmm, spec_format_date, format_hhmm, format_date,
    spec_day_number, days_between};

verus! {

/// The caller-supplied context of one plan request.
#[derive(Debug, Clone, PartialEq, Eq)]
pub struct AIContext {
    pub exam_date: Option<String>,
    pub subjects: Vec<String>,
    pub incomplete_tasks: Vec<String>,
    pub review_content: Option<String>,
}

/// The strings of a list, as sequences.
pub open spec fn strings_view(v: Seq<String>) -> Seq<Seq<char>> {
    v.map(|i: int, s: String| s@)
}

/// The items joined by the separator, in order.
pub open spec fn spec_join(items: Seq<Seq<char>>, sep: Seq<char>) -> Seq<char>
    decreases items.len(),
{
    if items.len() == 0 {
        Seq::empty()
    } else if items.len() == 1 {
        items[0]
    } else {
        spec_join(items.drop_last(), sep) + sep + items.last()
    }
}

/// Joins strings with a separator.
pub fn join_list(items: &Vec<String>, sep: &str) -> (r: String)
    ensures
        r@ == spec_join(strings_view(items@), sep@),
{
    let ghost iv = strings_view(items@);
    let mut r = String::new();
    let mut i: usize = 0;
    while i < items.len()
        invariant
            iv == strings_view(items@),
            i <= items@.len(),
            r@ == spec_join(iv.take(i as int), sep@),
        decreases items@.len() - i,
    {
        proof {
            assert(iv.take(i + 1).drop_last() =~= iv.take(i as int));
        }
        if i > 0 {
            r.append(sep);
        }
        r.append(items[i].as_str());
        proof {
            if i == 0 {
                assert(r@ =~= iv.take(1)[0]);
            }
        }
        i = i + 1;
    }
    proof {
        assert(iv.take(items@.len() as int) =~= iv);
    }
    r
}

/// Concatenation of two pieces.
pub fn cat2(a: &str, b: &str) -> (r: String)
    ensures
        r@ == a@ + b@,
{
    let mut r = a.to_owned();
    r.append(b);
    r
}

/// Concatenation of three pieces.
pub fn cat3(a: &str, b: &str, c: &str) -> (r: String)
    ensures
        r@ == a@ + b@ + c@,
{
    let mut r = a.to_owned();
    r.append(b);
    r.append(c);
    r
}

/// The fixed framing the document opens with: the assistant's task, the
/// phase definitions, and the planning principles.
pub open spec fn prompt_header_spec() -> Seq<char> {
    "你是一个专业的考研学习规划助手。请根据用户的学习偏好、历史学习情况和复盘反馈，生成一份科学合理、个性化的全天学习计划。\n\n"@
        + "## 考研复习阶段说明：\n"@
        + "- 基础阶段(3-6月)：重点打牢基础，系统学习各科目知识点，数学重视概念理解和基础题型\n"@
        + "- 强化阶段(7-10月)：强化训练，大量做题，总结题型和方法，英语重点阅读和写作\n"@
        + "- 冲刺阶段(11-12月)：查漏补缺，模拟考试，政治背诵，真题演练\n\n"@
        + "## 规划原则：\n"@
        + "1. 根据用户设定的学习时间安排任务\n"@
        + "2. 不同科目交替学习，避免长时间学习同一科目导致疲劳\n"@
        + "3. 上午安排需要高度集中注意力的科目（如数学、专业课）\n"@
        + "4. 下午可安排英语阅读、政治等\n"@
        + "5. 晚上适合复习巩固和做题\n"@
        + "6. 每个学习时段1-2小时，中间安排10-15分钟休息\n"@
        + "7. 重点科目和薄弱科目要多安排时间\n"@
        + "8. 参考用户最近的学习进度和复盘反馈调整计划\n"@
        + "9. 任务内容要具体，如\"复习高数第X章极限与连续\"、\"背诵英语单词200个\"、\"做政治选择题50道\"\n\n"@
        + "## 用户学习偏好：\n"@
}

fn prompt_header() -> (r: String)
    ensures
        r@ == prompt_header_spec(),
{
    let mut r =
        "你是一个专业的考研学习规划助手。请根据用户的学习偏好、历史学习情况和复盘反馈，生成一份科学合理、个性化的全天学习计划。\n\n".to_owned();
    r.append("## 考研复习阶段说明：\n");
    r.append("- 基础阶段(3-6月)：重点打牢基础，系统学习各科目知识点，数学重视概念理解和基础题型\n");
    r.append("- 强化阶段(7-10月)：强化训练，大量做题，总结题型和方法，英语重点阅读和写作\n");
    r.append("- 冲刺阶段(11-12月)：查漏补缺，模拟考试，政治背诵，真题演练\n\n");
    r.append("## 规划原则：\n");
    r.append("1. 根据用户设定的学习时间安排任务\n");
    r.append("2. 不同科目交替学习，避免长时间学习同一科目导致疲劳\n");
    r.append("3. 上午安排需要高度集中注意力的科目（如数学、专业课）\n");
    r.append("4. 下午可安排英语阅读、政治等\n");
    r.append("5. 晚上适合复习巩固和做题\n");
    r.append("6. 每个学习时段1-2小时，中间安排10-15分钟休息\n");
    r.append("7. 重点科目和薄弱科目要多安排时间\n");
    r.append("8. 参考用户最近的学习进度和复盘反馈调整计划\n");
    r.append("9. 任务内容要具体，如\"复习高数第X章极限与连续\"、\"背诵英语单词200个\"、\"做政治选择题50道\"\n\n");
    r.append("## 用户学习偏好：\n");
    r
}

/// The strict output-format instruction the document closes with.
pub open spec fn prompt_footer_spec() -> Seq<char> {
    "\n## 输出要求：\n"@
        + "根据用户的学习时间和偏好，生成8-15个学习任务，覆盖全天有效学习时间，科目交替安排。\n"@
        + "严格按照以下JSON数组格式返回，不要包含任何其他文字：\n"@
        + "[{\"start_time\": \"07:00\", \"end_time\": \"08:30\", \"content\": \"具体任务内容\", \"subject\": \"科目名\"}]\n\n"@
        + "注意：\n"@
        + "1. subject字段必须是用户提供的科目之一\n"@
        + "2. 时间安排要符合用户设定的学习时间和午休时间\n"@
        + "3. 重点科目和薄弱科目要多安排时间\n"@
        + "4. 任务内容要具体、可执行\n"@
}

fn prompt_footer() -> (r: String)
    ensures
        r@ == prompt_footer_spec(),
{
    let mut r = "\n## 输出要求：\n".to_owned();
    r.append("根据用户的学习时间和偏好，生成8-15个学习任务，覆盖全天有效学习时间，科目交替安排。\n");
    r.append("严格按照以下JSON数组格式返回，不要包含任何其他文字：\n");
    r.append("[{\"start_time\": \"07:00\", \"end_time\": \"08:30\", \"content\": \"具体任务内容\", \"subject\": \"科目名\"}]\n\n");
    r.append("注意：\n");
    r.append("1. subject字段必须是用户提供的科目之一\n");
    r.append("2. 时间安排要符合用户设定的学习时间和午休时间\n");
    r.append("3. 重点科目和薄弱科目要多安排时间\n");
    r.append("4. 任务内容要具体、可执行\n");
    r
}

/// The preference block when the caller saved preferences: hours, windows,
/// phase, subject emphases, days to the exam and free-text notes, in this
/// order.
pub open spec fn pref_section_spec(p: StudyPreference, today: Date) -> Seq<char> {
    "每日学习时长: "@ + spec_signed_digits(p.daily_hours as int) + "小时\n"@ + "学习时间: "@
        + spec_format_hhmm(p.start_minutes as nat) + " - "@ + spec_format_hhmm(
        p.end_minutes as nat,
    ) + "\n"@ + "午休时间: "@ + spec_format_hhmm(p.lunch_start_minutes as nat) + " - "@
        + spec_format_hhmm(p.lunch_end_minutes as nat) + "\n"@ + "当前阶段: "@ + phase_desc_spec(
        p.phase,
    ) + "\n"@ + (
    if p.focus_subjects@.len() > 0 {
        "重点科目(多安排时间): "@ + spec_join(strings_view(p.focus_subjects@), ", "@) + "\n"@
    } else {
        Seq::<char>::empty()
    }) + (
    if p.weak_subjects@.len() > 0 {
        "薄弱科目(需要加强): "@ + spec_join(strings_view(p.weak_subjects@), ", "@) + "\n"@
    } else {
        Seq::<char>::empty()
    }) + (
    if p.exam_date is Some {
        "距离考试: "@ + spec_signed_digits(
            spec_day_number(p.exam_date->0) - spec_day_number(today),
        ) + "天 ("@ + spec_format_date(p.exam_date->0) + ")\n"@
    } else {
        Seq::<char>::empty()
    }) + (
    if p.notes is Some {
        "用户备注: "@ + p.notes->0@ + "\n"@
    } else {
        Seq::<char>::empty()
    })
}

/// The preference block shown when no preferences are saved: the default
/// study and lunch windows.
pub open spec fn default_pref_section_spec() -> Seq<char> {
    "学习时间: 07:00 - 22:00\n"@ + "午休时间: 12:00 - 14:00\n"@
}

fn pref_section(p: &StudyPreference, today: &Date) -> (r: String)
    requires
        p.wf(),
        today.valid(),
    ensures
        r@ == pref_section_spec(*p, *today),
{
    let mut r = "每日学习时长: ".to_owned();
    let hours = i64_to_string(p.daily_hours as i64);
    r.append(hours.as_str());
    r.append("小时\n");
    r.append("学习时间: ");
    let st = format_hhmm(p.start_minutes);
    r.append(st.as_str());
    r.append(" - ");
    let en = format_hhmm(p.end_minutes);
    r.append(en.as_str());
    r.append("\n");
    r.append("午休时间: ");
    let ls = format_hhmm(p.lunch_start_minutes);
    r.append(ls.as_str());
    r.append(" - ");
    let le = format_hhmm(p.lunch_end_minutes);
    r.append(le.as_str());
    r.append("\n");
    r.append("当前阶段: ");
    let desc = p.phase.description();
    r.append(desc.as_str());
    r.append("\n");
    if p.focus_subjects.len() > 0 {
        let joined = join_list(&p.focus_subjects, ", ");
        let line = cat3("重点科目(多安排时间): ", joined.as_str(), "\n");
        r.append(line.as_str());
    }
    if p.weak_subjects.len() > 0 {
        let joined = join_list(&p.weak_subjects, ", ");
        let line = cat3("薄弱科目(需要加强): ", joined.as_str(), "\n");
        r.append(line.as_str());
    }
    if let Some(d) = &p.exam_date {
        let days = days_between(today, d);
        let mut line = "距离考试: ".to_owned();
        let ds = i64_to_string(days);
        line.append(ds.as_str());
        line.append("天 (");
        let fd = format_date(d);
        line.append(fd.as_str());
        line.append(")\n");
        r.append(line.as_str());
    }
    if let Some(n) = &p.notes {
        let line = cat3("用户备注: ", n.as_str(), "\n");
        r.append(line.as_str());
    }
    r
}

/// The caller-context block: exam date, subject list and carried-over
/// unfinished items.
pub open spec fn context_section_spec(ctx: AIContext) -> Seq<char> {
    (if ctx.exam_date is Some {
        "考试日期: "@ + ctx.exam_date->0@ + "\n"@
    } else {
        Seq::<char>::empty()
    }) + (
    if ctx.subjects@.len() > 0 {
        "\n学习科目: "@ + spec_join(strings_view(ctx.subjects@), ", "@) + "\n"@
            + "（请确保每个科目都有安排，科目之间交替进行）\n"@
    } else {
        Seq::<char>::empty()
    }) + (
    if ctx.incomplete_tasks@.len() > 0 {
        "\n昨日未完成任务（优先安排）:\n"@ + spec_join(strings_view(ctx.incomplete_tasks@), "\n"@)
            + "\n"@
    } else {
        Seq::<char>::empty()
    })
}

fn context_section(ctx: &AIContext) -> (r: String)
    ensures
        r@ == context_section_spec(*ctx),
{
    let mut r = String::new();
    proof {
        assert(r@ =~= Seq::<char>::empty());
    }
    if let Some(d) = &ctx.exam_date {
        let line = cat3("考试日期: ", d.as_str(), "\n");
        r.append(line.as_str());
        proof {
            assert(r@ =~= "考试日期: "@ + ctx.exam_date->0@ + "\n"@);
        }
    }
    if ctx.subjects.len() > 0 {
        let joined = join_list(&ctx.subjects, ", ");
        let mut block = cat3("\n学习科目: ", joined.as_str(), "\n");
        block.append("（请确保每个科目都有安排，科目之间交替进行）\n");
        r.append(block.as_str());
    }
    if ctx.incomplete_tasks.len() > 0 {
        let joined = join_list(&ctx.incomplete_tasks, "\n");
        let block = cat3("\n昨日未完成任务（优先安排）:\n", joined.as_str(), "\n");
        r.append(block.as_str());
    }
    r
}

/// The recent-reflections block.
pub open spec fn reviews_section_spec(reviews: Seq<Seq<char>>) -> Seq<char> {
    if reviews.len() > 0 {
        "\n最近复盘反馈（参考调整计划）:\n"@ + spec_join(reviews, "\n"@) + "\n"@
    } else {
        Seq::<char>::empty()
    }
}

/// The recently-completed-tasks block.
pub open spec fn recent_tasks_section_spec(tasks: Seq<Seq<char>>) -> Seq<char> {
    if tasks.len() > 0 {
        "\n最近完成的任务（参考学习进度）:\n"@ + spec_join(tasks, "\n"@) + "\n"@
    } else {
        Seq::<char>::empty()
    }
}

/// The caller's free-text addendum.
pub open spec fn extra_note_section_spec(ctx: AIContext) -> Seq<char> {
    if ctx.review_content is Some {
        "\n用户额外说明: "@ + ctx.review_content->0@ + "\n"@
    } else {
        Seq::<char>::empty()
    }
}

/// The whole instruction document, rendered deterministically from the
/// aggregated context: framing, preferences (or the defaults), the caller's
/// context, recent reflections, recently completed tasks, the caller's
/// addendum, and the output-format instruction.
pub open spec fn plan_prompt_spec(
    pref: Option<StudyPreference>,
    ctx: AIContext,
    reviews: Seq<Seq<char>>,
    tasks: Seq<Seq<char>>,
    today: Date,
) -> Seq<char> {
    prompt_header_spec() + (
    match pref {
        Some(p) => pref_section_spec(p, today),
        None => default_pref_section_spec(),
    }) + context_section_spec(ctx) + reviews_section_spec(reviews) + recent_tasks_section_spec(
        tasks,
    ) + extra_note_section_spec(ctx) + prompt_footer_spec()
}

/// Renders the instruction document. Pure: reads nothing but its arguments.
pub fn render_plan_prompt(
    pref: Option<&StudyPreference>,
    ctx: &AIContext,
    reviews: &Vec<String>,
    tasks: &Vec<String>,
    today: &Date,
) -> (r: String)
    requires
        pref is Some ==> pref->0.wf(),
        today.valid(),
    ensures
        r@ == plan_prompt_spec(
            match pref {
                Some(p) => Some(*p),
                None => None,
            },
            *ctx,
            strings_view(reviews@),
            strings_view(tasks@),
            *today,
        ),
{
    let mut r = prompt_header();
    match pref {
        Some(p) => {
            let sec = pref_section(p, today);
            r.append(sec.as_str());
        },
        None => {
            let mut sec = "学习时间: 07:00 - 22:00\n".to_owned();
            sec.append("午休时间: 12:00 - 14:00\n");
            r.append(sec.as_str());
        },
    }
    let cs = context_section(ctx);
    r.append(cs.as_str());
    if reviews.len() > 0 {
        let joined = join_list(reviews, "\n");
        let block = cat3("\n最近复盘反馈（参考调整计划）:\n", joined.as_str(), "\n");
        r.append(block.as_str());
    }
    if tasks.len() > 0 {
        let joined = join_list(tasks, "\n");
        let block = cat3("\n最近完成的任务（参考学习进度）:\n", joined.as_str(), "\n");
        r.append(block.as_str());
    }
    if let Some(extra) = &ctx.review_content {
        let block = cat3("\n用户额外说明: ", extra.as_str(), "\n");
        r.append(block.as_str());
    }
    let footer = prompt_footer();
    r.append(footer.as_str());
    r
}

} // verus!
