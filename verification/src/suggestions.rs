//! Strict structural validation of the text-generation service's reply.
//!
//! The reply is untrusted text. It is accepted only when it is exactly a
//! JSON array of flat objects whose members are string-valued, and each
//! object carries exactly the four suggestion fields and nothing else, with
//! parsable times in order and non-empty content and subject. Anything else
//! is one aggregate `MalformedSuggestions` error carrying the raw text; a
//! malformed batch is never partially accepted.
//!
//! String literals support the JSON escapes with a fixed meaning
//! (quote, backslash, slash, backspace, form feed, newline, carriage return,
//! tab); `\u` escapes and raw control characters are rejected.

use vstd::prelude::*;
use crate::errors::AppError;
use crate::timedate::{valid_hhmm, hhmm_value};

verus! {

/// JSON insignificant whitespace.
pub open spec fn is_json_ws(c: char) -> bool {
    c == ' ' || c == '\t' || c == '\n' || c == '\r'
}

/// The first index at or after `i` holding no whitespace.
pub open spec fn sp_ws(s: Seq<char>, i: int) -> int
    decreases s.len() - i,
{
    if 0 <= i < s.len() && is_json_ws(s[i]) {
        sp_ws(s, i + 1)
    } else {
        i
    }
}

/// What a backslash escape denotes, if anything.
pub open spec fn esc_char(c: char) -> Option<char> {
    if c == '"' {
        Some('"')
    } else if c == '\\' {
        Some('\\')
    } else if c == '/' {
        Some('/')
    } else if c == 'b' {
        Some('\u{8}')
    } else if c == 'f' {
        Some('\u{c}')
    } else if c == 'n' {
        Some('\n')
    } else if c == 'r' {
        Some('\r')
    } else if c == 't' {
        Some('\t')
    } else {
        None
    }
}

/// Parses the inside of a string literal from `i` up to its closing quote:
/// the denoted characters and the index after the quote.
pub open spec fn sp_string_body(s: Seq<char>, i: int) -> Option<(Seq<char>, int)>
    decreases s.len() - i,
{
    if i < 0 || i >= s.len() {
        None
    } else if s[i] == '"' {
        Some((Seq::empty(), i + 1))
    } else if s[i] == '\\' {
        if i + 1 < s.len() && esc_char(s[i + 1]) is Some {
            match sp_string_body(s, i + 2) {
                None => None,
                Some((rest, j)) => Some((seq![esc_char(s[i + 1])->0] + rest, j)),
            }
        } else {
            None
        }
    } else if (s[i] as u32) < 32 {
        None
    } else {
        match sp_string_body(s, i + 1) {
            None => None,
            Some((rest, j)) => Some((seq![s[i]] + rest, j)),
        }
    }
}

/// Parses a quoted string literal starting at `i`.
pub open spec fn sp_string(s: Seq<char>, i: int) -> Option<(Seq<char>, int)> {
    if 0 <= i < s.len() && s[i] == '"' {
        sp_string_body(s, i + 1)
    } else {
        None
    }
}

/// Parses one `"key": "value"` member starting at `i`.
pub open spec fn sp_member(s: Seq<char>, i: int) -> Option<((Seq<char>, Seq<char>), int)> {
    match sp_string(s, i) {
        None => None,
        Some((k, j)) => {
            let j2 = sp_ws(s, j);
            if j2 < s.len() && s[j2] == ':' {
                let j3 = sp_ws(s, j2 + 1);
                match sp_string(s, j3) {
                    None => None,
                    Some((v, j4)) => Some(((k, v), j4)),
                }
            } else {
                None
            }
        },
    }
}

pub proof fn lemma_sp_ws_bounds(s: Seq<char>, i: int)
    requires
        0 <= i <= s.len(),
    ensures
        i <= sp_ws(s, i) <= s.len(),
    decreases s.len() - i,
{
    if i < s.len() && is_json_ws(s[i]) {
        lemma_sp_ws_bounds(s, i + 1);
    }
}

pub proof fn lemma_sp_string_body_progress(s: Seq<char>, i: int)
    requires
        0 <= i,
    ensures
        sp_string_body(s, i) is Some ==> i < (sp_string_body(s, i)->0).1 <= s.len(),
    decreases s.len() - i,
{
    if 0 <= i < s.len() {
        if s[i] == '\\' {
            if i + 1 < s.len() && esc_char(s[i + 1]) is Some {
                lemma_sp_string_body_progress(s, i + 2);
            }
        } else if s[i] != '"' {
            lemma_sp_string_body_progress(s, i + 1);
        }
    }
}

pub proof fn lemma_sp_string_progress(s: Seq<char>, i: int)
    requires
        0 <= i,
    ensures
        sp_string(s, i) is Some ==> i + 1 < (sp_string(s, i)->0).1 <= s.len(),
{
    if sp_string(s, i) is Some {
        lemma_sp_string_body_progress(s, i + 1);
    }
}

pub proof fn lemma_sp_member_progress(s: Seq<char>, i: int)
    requires
        0 <= i,
    ensures
        sp_member(s, i) is Some ==> i < (sp_member(s, i)->0).1 <= s.len(),
{
    if sp_member(s, i) is Some {
        lemma_sp_string_progress(s, i);
        let j = (sp_string(s, i)->0).1;
        lemma_sp_ws_bounds(s, j);
        let j2 = sp_ws(s, j);
        lemma_sp_ws_bounds(s, j2 + 1);
        let j3 = sp_ws(s, j2 + 1);
        lemma_sp_string_progress(s, j3);
    }
}

/// Parses the members of an object from the first member on, up to and
/// including the closing brace.
pub open spec fn sp_members(s: Seq<char>, i: int) -> Option<(Seq<(Seq<char>, Seq<char>)>, int)>
    decreases s.len() - i,
    when i >= 0
    via sp_members_decreases
{
    match sp_member(s, i) {
        None => None,
        Some((kv, j)) => {
            let j2 = sp_ws(s, j);
            if j2 < s.len() && s[j2] == ',' {
                let j3 = sp_ws(s, j2 + 1);
                match sp_members(s, j3) {
                    None => None,
                    Some((rest, j4)) => Some((seq![kv] + rest, j4)),
                }
            } else if j2 < s.len() && s[j2] == '}' {
                Some((seq![kv], j2 + 1))
            } else {
                None
            }
        },
    }
}

#[via_fn]
proof fn sp_members_decreases(s: Seq<char>, i: int) {
    if i >= 0 && sp_member(s, i) is Some {
        lemma_sp_member_progress(s, i);
        let j = (sp_member(s, i)->0).1;
        lemma_sp_ws_bounds(s, j);
        let j2 = sp_ws(s, j);
        if j2 < s.len() && s[j2] == ',' {
            lemma_sp_ws_bounds(s, j2 + 1);
        }
    }
}

pub proof fn lemma_sp_members_progress(s: Seq<char>, i: int)
    requires
        0 <= i,
    ensures
        sp_members(s, i) is Some ==> i < (sp_members(s, i)->0).1 <= s.len(),
    decreases s.len() - i,
{
    if sp_member(s, i) is Some {
        lemma_sp_member_progress(s, i);
        let j = (sp_member(s, i)->0).1;
        lemma_sp_ws_bounds(s, j);
        let j2 = sp_ws(s, j);
        if j2 < s.len() && s[j2] == ',' {
            lemma_sp_ws_bounds(s, j2 + 1);
            lemma_sp_members_progress(s, sp_ws(s, j2 + 1));
        }
    }
}

/// Parses one object starting at its opening brace; an empty object is
/// grammatical (and rejected later by the schema).
pub open spec fn sp_object(s: Seq<char>, i: int) -> Option<(Seq<(Seq<char>, Seq<char>)>, int)> {
    if 0 <= i < s.len() && s[i] == '{' {
        let j = sp_ws(s, i + 1);
        if j < s.len() && s[j] == '}' {
            Some((Seq::empty(), j + 1))
        } else {
            sp_members(s, j)
        }
    } else {
        None
    }
}

pub proof fn lemma_sp_object_progress(s: Seq<char>, i: int)
    requires
        0 <= i,
    ensures
        sp_object(s, i) is Some ==> i < (sp_object(s, i)->0).1 <= s.len(),
{
    if sp_object(s, i) is Some {
        lemma_sp_ws_bounds(s, i + 1);
        let j = sp_ws(s, i + 1);
        if !(j < s.len() && s[j] == '}') {
            lemma_sp_members_progress(s, j);
        }
    }
}

/// Parses the array elements from the first object on, up to and including
/// the closing bracket.
pub open spec fn sp_objects(s: Seq<char>, i: int) -> Option<
    (Seq<Seq<(Seq<char>, Seq<char>)>>, int),
>
    decreases s.len() - i,
    when i >= 0
    via sp_objects_decreases
{
    match sp_object(s, i) {
        None => None,
        Some((o, j)) => {
            let j2 = sp_ws(s, j);
            if j2 < s.len() && s[j2] == ',' {
                let j3 = sp_ws(s, j2 + 1);
                match sp_objects(s, j3) {
                    None => None,
                    Some((rest, j4)) => Some((seq![o] + rest, j4)),
                }
            } else if j2 < s.len() && s[j2] == ']' {
                Some((seq![o], j2 + 1))
            } else {
                None
            }
        },
    }
}

#[via_fn]
proof fn sp_objects_decreases(s: Seq<char>, i: int) {
    if i >= 0 && sp_object(s, i) is Some {
        lemma_sp_object_progress(s, i);
        let j = (sp_object(s, i)->0).1;
        lemma_sp_ws_bounds(s, j);
        let j2 = sp_ws(s, j);
        if j2 < s.len() && s[j2] == ',' {
            lemma_sp_ws_bounds(s, j2 + 1);
        }
    }
}

/// Parses a whole reply: one array of objects and nothing else around it.
pub open spec fn sp_top(s: Seq<char>) -> Option<Seq<Seq<(Seq<char>, Seq<char>)>>> {
    let i = sp_ws(s, 0);
    if i < s.len() && s[i] == '[' {
        let j = sp_ws(s, i + 1);
        if j < s.len() && s[j] == ']' {
            if sp_ws(s, j + 1) == s.len() {
                Some(Seq::empty())
            } else {
                None
            }
        } else {
            match sp_objects(s, j) {
                None => None,
                Some((objs, k)) => {
                    if sp_ws(s, k) == s.len() {
                        Some(objs)
                    } else {
                        None
                    }
                },
            }
        }
    } else {
        None
    }
}

// ------------------------------------------------------------------
// The suggestion schema.
// ------------------------------------------------------------------
/// How often `key` occurs among an object's members.
pub open spec fn count_key(o: Seq<(Seq<char>, Seq<char>)>, key: Seq<char>) -> nat
    decreases o.len(),
{
    if o.len() == 0 {
        0
    } else {
        count_key(o.drop_last(), key) + (
        if o.last().0 == key {
            1nat
        } else {
            0nat
        })
    }
}

/// The value of the first member carrying `key`, from index `i` on.
pub open spec fn spec_lookup_from(o: Seq<(Seq<char>, Seq<char>)>, key: Seq<char>, i: int) -> Seq<
    char,
>
    decreases o.len() - i,
{
    if i < 0 || i >= o.len() {
        Seq::empty()
    } else if o[i].0 == key {
        o[i].1
    } else {
        spec_lookup_from(o, key, i + 1)
    }
}

/// The value of the first member carrying `key`.
pub open spec fn spec_lookup(o: Seq<(Seq<char>, Seq<char>)>, key: Seq<char>) -> Seq<char> {
    spec_lookup_from(o, key, 0)
}

/// The mathematical shape of one validated suggestion.
pub struct SuggestionView {
    pub start_time: Seq<char>,
    pub end_time: Seq<char>,
    pub content: Seq<char>,
    pub subject: Seq<char>,
}

/// The suggestion an object denotes, if it carries exactly the four fields
/// and nothing else, with parsable times in order and non-empty content and
/// subject.
pub open spec fn obj_to_suggestion(o: Seq<(Seq<char>, Seq<char>)>) -> Option<SuggestionView> {
    if o.len() == 4 && count_key(o, "start_time"@) == 1 && count_key(o, "end_time"@) == 1
        && count_key(o, "content"@) == 1 && count_key(o, "subject"@) == 1 {
        let st = spec_lookup(o, "start_time"@);
        let en = spec_lookup(o, "end_time"@);
        let co = spec_lookup(o, "content"@);
        let su = spec_lookup(o, "subject"@);
        if valid_hhmm(st) && valid_hhmm(en) && hhmm_value(st) < hhmm_value(en) && co.len() > 0
            && su.len() > 0 {
            Some(SuggestionView { start_time: st, end_time: en, content: co, subject: su })
        } else {
            None
        }
    } else {
        None
    }
}

/// The suggestions a parsed array denotes; one bad object rejects the batch.
pub open spec fn suggestions_of(objs: Seq<Seq<(Seq<char>, Seq<char>)>>) -> Option<
    Seq<SuggestionView>,
>
    decreases objs.len(),
{
    if objs.len() == 0 {
        Some(Seq::empty())
    } else {
        match suggestions_of(objs.drop_last()) {
            None => None,
            Some(pre) => match obj_to_suggestion(objs.last()) {
                None => None,
                Some(v) => Some(pre.push(v)),
            },
        }
    }
}

/// What the reply parser accepts, and what it accepts it as.
pub open spec fn parse_suggestions_spec(s: Seq<char>) -> Option<Seq<SuggestionView>> {
    match sp_top(s) {
        None => None,
        Some(objs) => suggestions_of(objs),
    }
}

/// One validated schedule-item proposal from the service's reply. Times keep
/// their "HH:MM" shape; the invariant below is what validation guarantees.
#[derive(Debug, Clone, PartialEq, Eq)]
pub struct TaskSuggestion {
    pub start_time: String,
    pub end_time: String,
    pub content: String,
    pub subject: String,
}

impl View for TaskSuggestion {
    type V = SuggestionView;

    open spec fn view(&self) -> SuggestionView {
        SuggestionView {
            start_time: self.start_time@,
            end_time: self.end_time@,
            content: self.content@,
            subject: self.subject@,
        }
    }
}

/// What every emitted suggestion satisfies.
pub open spec fn valid_suggestion(v: SuggestionView) -> bool {
    &&& valid_hhmm(v.start_time)
    &&& valid_hhmm(v.end_time)
    &&& hhmm_value(v.start_time) < hhmm_value(v.end_time)
    &&& v.content.len() > 0
    &&& v.subject.len() > 0
}

/// An accepted object is a valid suggestion.
pub proof fn lemma_obj_suggestion_valid(o: Seq<(Seq<char>, Seq<char>)>)
    ensures
        obj_to_suggestion(o) is Some ==> valid_suggestion(obj_to_suggestion(o)->0),
{
}

// ------------------------------------------------------------------
// The executable parser.
// ------------------------------------------------------------------
/// Prepends already-consumed output to a parser outcome.
pub open spec fn opt_prepend<T>(pre: Seq<T>, o: Option<(Seq<T>, int)>) -> Option<(Seq<T>, int)> {
    match o {
        None => None,
        Some((r, j)) => Some((pre + r, j)),
    }
}

proof fn lemma_opt_prepend_assoc<T>(a: Seq<T>, b: Seq<T>, o: Option<(Seq<T>, int)>)
    ensures
        opt_prepend(a, opt_prepend(b, o)) == opt_prepend(a + b, o),
{
    match o {
        None => {},
        Some((r, j)) => {
            assert(a + (b + r) =~= (a + b) + r);
        },
    }
}

fn esc_of(c: char) -> (r: Option<char>)
    ensures
        r == esc_char(c),
{
    match c {
        '"' => Some('"'),
        '\\' => Some('\\'),
        '/' => Some('/'),
        'b' => Some('\u{8}'),
        'f' => Some('\u{c}'),
        'n' => Some('\n'),
        'r' => Some('\r'),
        't' => Some('\t'),
        _ => None,
    }
}

fn ws_from(v: &Vec<char>, i: usize) -> (r: usize)
    requires
        i as int <= v@.len(),
    ensures
        r as int == sp_ws(v@, i as int),
        i <= r,
        r as int <= v@.len(),
{
    let mut p = i;
    while p < v.len() && (v[p] == ' ' || v[p] == '\t' || v[p] == '\n' || v[p] == '\r')
        invariant
            i <= p,
            p as int <= v@.len(),
            sp_ws(v@, i as int) == sp_ws(v@, p as int),
        decreases v@.len() - p,
    {
        p = p + 1;
    }
    p
}

fn parse_string_body(v: &Vec<char>, start: usize) -> (r: Option<(Vec<char>, usize)>)
    requires
        start as int <= v@.len(),
    ensures
        r is Some ==> sp_string_body(v@, start as int) == Some(((r->0).0@, (r->0).1 as int))
            && start < (r->0).1 && (r->0).1 as int <= v@.len(),
        r is None ==> sp_string_body(v@, start as int) is None,
{
    let mut acc: Vec<char> = Vec::new();
    let mut p = start;
    proof {
        assert(acc@ =~= Seq::<char>::empty());
    }
    while p < v.len()
        invariant
            start <= p,
            p as int <= v@.len(),
            sp_string_body(v@, start as int) == opt_prepend(acc@, sp_string_body(v@, p as int)),
        decreases v@.len() - p,
    {
        let c = v[p];
        if c == '"' {
            proof {
                assert(acc@ + Seq::<char>::empty() =~= acc@);
            }
            return Some((acc, p + 1));
        } else if c == '\\' {
            if p + 1 < v.len() {
                match esc_of(v[p + 1]) {
                    Some(e) => {
                        proof {
                            lemma_opt_prepend_assoc(
                                acc@,
                                seq![e],
                                sp_string_body(v@, p + 2),
                            );
                            assert(acc@.push(e) =~= acc@ + seq![e]);
                        }
                        acc.push(e);
                        p = p + 2;
                    },
                    None => {
                        return None;
                    },
                }
            } else {
                return None;
            }
        } else if (c as u32) < 32 {
            return None;
        } else {
            proof {
                lemma_opt_prepend_assoc(acc@, seq![c], sp_string_body(v@, p + 1));
                assert(acc@.push(c) =~= acc@ + seq![c]);
            }
            acc.push(c);
            p = p + 1;
        }
    }
    None
}

fn parse_string(v: &Vec<char>, i: usize) -> (r: Option<(Vec<char>, usize)>)
    requires
        i as int <= v@.len(),
    ensures
        r is Some ==> sp_string(v@, i as int) == Some(((r->0).0@, (r->0).1 as int)) && i < (
        r->0).1 && (r->0).1 as int <= v@.len(),
        r is None ==> sp_string(v@, i as int) is None,
{
    if i < v.len() && v[i] == '"' {
        parse_string_body(v, i + 1)
    } else {
        None
    }
}

/// One parsed `"key": "value"` member.
#[derive(Debug)]
pub struct RawMember {
    pub key: Vec<char>,
    pub value: Vec<char>,
}

/// The member as the grammar sees it.
pub open spec fn member_view(m: RawMember) -> (Seq<char>, Seq<char>) {
    (m.key@, m.value@)
}

/// The members as the grammar sees them.
pub open spec fn members_view(ms: Seq<RawMember>) -> Seq<(Seq<char>, Seq<char>)> {
    ms.map(|i: int, m: RawMember| member_view(m))
}

fn parse_member(v: &Vec<char>, i: usize) -> (r: Option<(RawMember, usize)>)
    requires
        i as int <= v@.len(),
    ensures
        r is Some ==> sp_member(v@, i as int) == Some((member_view((r->0).0), (r->0).1 as int))
            && i < (r->0).1 && (r->0).1 as int <= v@.len(),
        r is None ==> sp_member(v@, i as int) is None,
{
    match parse_string(v, i) {
        None => None,
        Some((k, j)) => {
            let j2 = ws_from(v, j);
            if j2 < v.len() && v[j2] == ':' {
                let j3 = ws_from(v, j2 + 1);
                match parse_string(v, j3) {
                    None => None,
                    Some((val, j4)) => Some((RawMember { key: k, value: val }, j4)),
                }
            } else {
                None
            }
        },
    }
}

fn parse_members(v: &Vec<char>, start: usize) -> (r: Option<(Vec<RawMember>, usize)>)
    requires
        start as int <= v@.len(),
    ensures
        r is Some ==> sp_members(v@, start as int) == Some(
            (members_view((r->0).0@), (r->0).1 as int),
        ) && start < (r->0).1 && (r->0).1 as int <= v@.len(),
        r is None ==> sp_members(v@, start as int) is None,
{
    let mut acc: Vec<RawMember> = Vec::new();
    let mut p = start;
    proof {
        assert(members_view(acc@) =~= Seq::<(Seq<char>, Seq<char>)>::empty());
    }
    loop
        invariant
            start <= p,
            p as int <= v@.len(),
            opt_prepend(members_view(acc@), sp_members(v@, p as int)) == sp_members(
                v@,
                start as int,
            ),
        decreases v@.len() - p,
    {
        match parse_member(v, p) {
            None => {
                return None;
            },
            Some((m, j)) => {
                let j2 = ws_from(v, j);
                let ghost kv = member_view(m);
                proof {
                    assert(members_view(acc@.push(m)) =~= members_view(acc@) + seq![kv]);
                }
                if j2 < v.len() && v[j2] == ',' {
                    let j3 = ws_from(v, j2 + 1);
                    proof {
                        assert(sp_members(v@, p as int) == opt_prepend(
                            seq![kv],
                            sp_members(v@, j3 as int),
                        ));
                        lemma_opt_prepend_assoc(
                            members_view(acc@),
                            seq![kv],
                            sp_members(v@, j3 as int),
                        );
                    }
                    acc.push(m);
                    p = j3;
                } else if j2 < v.len() && v[j2] == '}' {
                    proof {
                        assert(members_view(acc@) + seq![kv] =~= members_view(acc@.push(m)));
                    }
                    acc.push(m);
                    return Some((acc, j2 + 1));
                } else {
                    return None;
                }
            },
        }
    }
}

/// One parsed object: its members, in source order.
#[derive(Debug)]
pub struct RawObject {
    pub members: Vec<RawMember>,
}

/// The object as the schema sees it.
pub open spec fn object_view(o: RawObject) -> Seq<(Seq<char>, Seq<char>)> {
    members_view(o.members@)
}

/// The array as the schema sees it.
pub open spec fn objects_view(os: Seq<RawObject>) -> Seq<Seq<(Seq<char>, Seq<char>)>> {
    os.map(|i: int, o: RawObject| object_view(o))
}

fn parse_object(v: &Vec<char>, i: usize) -> (r: Option<(RawObject, usize)>)
    requires
        i as int <= v@.len(),
    ensures
        r is Some ==> sp_object(v@, i as int) == Some((object_view((r->0).0), (r->0).1 as int))
            && i < (r->0).1 && (r->0).1 as int <= v@.len(),
        r is None ==> sp_object(v@, i as int) is None,
{
    if i < v.len() && v[i] == '{' {
        let j = ws_from(v, i + 1);
        if j < v.len() && v[j] == '}' {
            let o = RawObject { members: Vec::new() };
            proof {
                assert(object_view(o) =~= Seq::<(Seq<char>, Seq<char>)>::empty());
            }
            Some((o, j + 1))
        } else {
            match parse_members(v, j) {
                None => None,
                Some((ms, k)) => Some((RawObject { members: ms }, k)),
            }
        }
    } else {
        None
    }
}

fn parse_objects(v: &Vec<char>, start: usize) -> (r: Option<(Vec<RawObject>, usize)>)
    requires
        start as int <= v@.len(),
    ensures
        r is Some ==> sp_objects(v@, start as int) == Some(
            (objects_view((r->0).0@), (r->0).1 as int),
        ) && start < (r->0).1 && (r->0).1 as int <= v@.len(),
        r is None ==> sp_objects(v@, start as int) is None,
{
    let mut acc: Vec<RawObject> = Vec::new();
    let mut p = start;
    proof {
        assert(objects_view(acc@) =~= Seq::<Seq<(Seq<char>, Seq<char>)>>::empty());
    }
    loop
        invariant
            start <= p,
            p as int <= v@.len(),
            opt_prepend(objects_view(acc@), sp_objects(v@, p as int)) == sp_objects(
                v@,
                start as int,
            ),
        decreases v@.len() - p,
    {
        match parse_object(v, p) {
            None => {
                return None;
            },
            Some((o, j)) => {
                let j2 = ws_from(v, j);
                let ghost ov = object_view(o);
                proof {
                    assert(objects_view(acc@.push(o)) =~= objects_view(acc@) + seq![ov]);
                }
                if j2 < v.len() && v[j2] == ',' {
                    let j3 = ws_from(v, j2 + 1);
                    proof {
                        assert(sp_objects(v@, p as int) == opt_prepend(
                            seq![ov],
                            sp_objects(v@, j3 as int),
                        ));
                        lemma_opt_prepend_assoc(
                            objects_view(acc@),
                            seq![ov],
                            sp_objects(v@, j3 as int),
                        );
                    }
                    acc.push(o);
                    p = j3;
                } else if j2 < v.len() && v[j2] == ']' {
                    proof {
                        assert(objects_view(acc@) + seq![ov] =~= objects_view(acc@.push(o)));
                    }
                    acc.push(o);
                    return Some((acc, j2 + 1));
                } else {
                    return None;
                }
            },
        }
    }
}

fn parse_top(v: &Vec<char>) -> (r: Option<Vec<RawObject>>)
    ensures
        r is Some ==> sp_top(v@) == Some(objects_view(r->0@)),
        r is None ==> sp_top(v@) is None,
{
    let i = ws_from(v, 0);
    if i < v.len() && v[i] == '[' {
        let j = ws_from(v, i + 1);
        if j < v.len() && v[j] == ']' {
            let e = ws_from(v, j + 1);
            if e == v.len() {
                let out: Vec<RawObject> = Vec::new();
                proof {
                    assert(objects_view(out@) =~= Seq::<Seq<(Seq<char>, Seq<char>)>>::empty());
                }
                Some(out)
            } else {
                None
            }
        } else {
            match parse_objects(v, j) {
                None => None,
                Some((objs, k)) => {
                    let e = ws_from(v, k);
                    if e == v.len() {
                        Some(objs)
                    } else {
                        None
                    }
                },
            }
        }
    } else {
        None
    }
}

// ------------------------------------------------------------------
// The executable schema check.
// ------------------------------------------------------------------
fn chars_eq_str(a: &Vec<char>, key: &str) -> (r: bool)
    ensures
        r == (a@ == key@),
{
    let n = key.unicode_len();
    if a.len() != n {
        proof {
            assert(a@ != key@);
        }
        return false;
    }
    let mut i: usize = 0;
    while i < n
        invariant
            n == key@.len(),
            a@.len() == n,
            i <= n,
            forall|k: int| 0 <= k < i ==> a@[k] == key@[k],
        decreases n - i,
    {
        if a[i] != key.get_char(i) {
            return false;
        }
        i = i + 1;
    }
    proof {
        assert(a@ =~= key@);
    }
    true
}

fn count_key_exec(ms: &Vec<RawMember>, key: &str) -> (r: usize)
    ensures
        r == count_key(members_view(ms@), key@),
        r <= ms@.len(),
{
    let ghost mv = members_view(ms@);
    let mut r: usize = 0;
    let mut i: usize = 0;
    while i < ms.len()
        invariant
            mv == members_view(ms@),
            i <= ms@.len(),
            r <= i,
            r == count_key(mv.take(i as int), key@),
        decreases ms@.len() - i,
    {
        proof {
            assert(mv.take(i + 1).drop_last() =~= mv.take(i as int));
        }
        if chars_eq_str(&ms[i].key, key) {
            r = r + 1;
        }
        i = i + 1;
    }
    proof {
        assert(mv.take(ms@.len() as int) =~= mv);
    }
    r
}

proof fn lemma_count_key_zero(o: Seq<(Seq<char>, Seq<char>)>, key: Seq<char>)
    requires
        forall|k: int| 0 <= k < o.len() ==> o[k].0 != key,
    ensures
        count_key(o, key) == 0,
    decreases o.len(),
{
    if o.len() > 0 {
        lemma_count_key_zero(o.drop_last(), key);
    }
}

fn find_key(ms: &Vec<RawMember>, key: &str) -> (r: Option<usize>)
    ensures
        r is Some ==> r->0 < ms@.len() && members_view(ms@)[r->0 as int].0 == key@ && spec_lookup(
            members_view(ms@),
            key@,
        ) == members_view(ms@)[r->0 as int].1,
        r is None ==> count_key(members_view(ms@), key@) == 0,
{
    let ghost mv = members_view(ms@);
    let mut i: usize = 0;
    while i < ms.len()
        invariant
            mv == members_view(ms@),
            i <= ms@.len(),
            spec_lookup_from(mv, key@, 0) == spec_lookup_from(mv, key@, i as int),
            forall|k: int| 0 <= k < i ==> mv[k].0 != key@,
        decreases ms@.len() - i,
    {
        if chars_eq_str(&ms[i].key, key) {
            return Some(i);
        }
        i = i + 1;
    }
    proof {
        lemma_count_key_zero(mv, key@);
    }
    None
}

fn obj_to_suggestion_exec(o: &RawObject) -> (r: Option<TaskSuggestion>)
    ensures
        r is Some ==> obj_to_suggestion(object_view(*o)) == Some(r->0@),
        r is None ==> obj_to_suggestion(object_view(*o)) is None,
{
    let ghost ov = object_view(*o);
    let len_ok = o.members.len() == 4;
    let c_start = count_key_exec(&o.members, "start_time");
    let c_end = count_key_exec(&o.members, "end_time");
    let c_content = count_key_exec(&o.members, "content");
    let c_subject = count_key_exec(&o.members, "subject");
    if !(len_ok && c_start == 1 && c_end == 1 && c_content == 1 && c_subject == 1) {
        return None;
    }
    let f_start = find_key(&o.members, "start_time");
    let f_end = find_key(&o.members, "end_time");
    let f_content = find_key(&o.members, "content");
    let f_subject = find_key(&o.members, "subject");
    match (f_start, f_end, f_content, f_subject) {
        (Some(i_start), Some(i_end), Some(i_content), Some(i_subject)) => {
            let start_time = crate::text::chars_to_string(&o.members[i_start].value);
            let end_time = crate::text::chars_to_string(&o.members[i_end].value);
            let content = crate::text::chars_to_string(&o.members[i_content].value);
            let subject = crate::text::chars_to_string(&o.members[i_subject].value);
            let sm = crate::timedate::parse_hhmm(start_time.as_str());
            let em = crate::timedate::parse_hhmm(end_time.as_str());
            match (sm, em) {
                (Some(smv), Some(emv)) => {
                    if smv < emv && content.unicode_len() > 0 && subject.unicode_len() > 0 {
                        Some(TaskSuggestion { start_time, end_time, content, subject })
                    } else {
                        None
                    }
                },
                _ => None,
            }
        },
        _ => None,
    }
}

/// The views of a batch of suggestions.
pub open spec fn suggestion_views(v: Seq<TaskSuggestion>) -> Seq<SuggestionView> {
    v.map(|i: int, t: TaskSuggestion| t@)
}

proof fn lemma_suggestions_none_extends(objs: Seq<Seq<(Seq<char>, Seq<char>)>>, k: int)
    requires
        0 <= k <= objs.len(),
        suggestions_of(objs.take(k)) is None,
    ensures
        suggestions_of(objs) is None,
    decreases objs.len() - k,
{
    if k < objs.len() {
        assert(objs.take(k + 1).drop_last() =~= objs.take(k));
        lemma_suggestions_none_extends(objs, k + 1);
    } else {
        assert(objs.take(k) =~= objs);
    }
}

/// Validates the service's raw reply into a batch of suggestions. Succeeds
/// exactly on a strict array of well-formed suggestion objects; any other
/// text is rejected whole with `MalformedSuggestions` carrying the raw
/// reply, never partially accepted.
pub fn parse_suggestions(reply: &str) -> (r: Result<Vec<TaskSuggestion>, AppError>)
    ensures
        r is Ok <==> parse_suggestions_spec(reply@) is Some,
        r is Ok ==> suggestion_views(r->Ok_0@) == parse_suggestions_spec(reply@)->0,
        r is Err ==> (r->Err_0 matches AppError::MalformedSuggestions(raw) && raw@ == reply@),
{
    let chars = crate::text::to_chars(reply);
    match parse_top(&chars) {
        None => Err(AppError::MalformedSuggestions(reply.to_owned())),
        Some(objs) => {
            let ghost ov = objects_view(objs@);
            let mut out: Vec<TaskSuggestion> = Vec::new();
            let mut i: usize = 0;
            proof {
                assert(ov.take(0) =~= Seq::<Seq<(Seq<char>, Seq<char>)>>::empty());
                assert(suggestion_views(out@) =~= Seq::<SuggestionView>::empty());
            }
            while i < objs.len()
                invariant
                    ov == objects_view(objs@),
                    i <= objs@.len(),
                    suggestions_of(ov.take(i as int)) == Some(suggestion_views(out@)),
                    parse_suggestions_spec(reply@) == suggestions_of(ov),
                decreases objs@.len() - i,
            {
                proof {
                    assert(ov.take(i + 1).drop_last() =~= ov.take(i as int));
                }
                match obj_to_suggestion_exec(&objs[i]) {
                    Some(t) => {
                        proof {
                            assert(suggestion_views(out@.push(t)) =~= suggestion_views(
                                out@,
                            ).push(t@));
                        }
                        out.push(t);
                    },
                    None => {
                        proof {
                            lemma_suggestions_none_extends(ov, i + 1);
                        }
                        return Err(AppError::MalformedSuggestions(reply.to_owned()));
                    },
                }
                i = i + 1;
            }
            proof {
                assert(ov.take(objs@.len() as int) =~= ov);
            }
            Ok(out)
        },
    }
}

} // verus!
