//! The similarity engine: a normalized string-similarity score as an exact
//! rational number, and the fuzzy-match decision built on it.
//!
//! The metric is the Jaro score with the Winkler common-prefix boost
//! (applied when the base score exceeds 7/10, prefix capped at four
//! characters). It is order-sensitive only in which operand drives the
//! matching pass; the score is computed in exact integer arithmetic, so the
//! threshold comparison has no rounding. Scores live in [0, 1] with
//! `similarity(s, s) == 1` for every string, the empty one included.

use vstd::prelude::*;

verus! {

/// The default match threshold, in thousandths: a score of at least 0.7
/// counts as a match.
pub const DEFAULT_THRESHOLD_THOUSANDTHS: u32 = 700;

/// Strings longer than this never match: it keeps the exact arithmetic
/// inside 128 bits. (A hundred billion characters.)
pub const MAX_SIMILARITY_LEN: u64 = 100_000_000_000;

/// The half-window within which characters may match, by string lengths.
pub open spec fn match_range(al: nat, bl: nat) -> int {
    let mx: nat = if al >= bl {
        al
    } else {
        bl
    };
    if mx / 2 >= 1 {
        mx / 2 - 1
    } else {
        0
    }
}

/// The first index in [lo, hi) holding an unflagged occurrence of `c`, or -1.
pub open spec fn spec_find_match(b: Seq<char>, flags: Seq<bool>, c: char, lo: int, hi: int) -> int
    decreases hi - lo,
{
    if lo < 0 || lo >= hi || hi > b.len() {
        -1
    } else if b[lo] == c && !flags[lo] {
        lo
    } else {
        spec_find_match(b, flags, c, lo + 1, hi)
    }
}

/// The matching pass's running state: which characters of each side are
/// matched, and how many pairs there are.
pub struct MatchState {
    pub a_flags: Seq<bool>,
    pub b_flags: Seq<bool>,
    pub matches: nat,
}

/// One step of the matching pass: the i-th character of `a` claims the first
/// unflagged equal character of `b` within the window, if any.
pub open spec fn spec_match_step(a: Seq<char>, b: Seq<char>, st: MatchState, i: int) -> MatchState {
    let range = match_range(a.len(), b.len());
    let lo = if i > range {
        i - range
    } else {
        0
    };
    let hi = if b.len() <= i + range + 1 {
        b.len() as int
    } else {
        i + range + 1
    };
    let j = spec_find_match(b, st.b_flags, a[i], lo, hi);
    if j >= 0 {
        MatchState {
            a_flags: st.a_flags.update(i, true),
            b_flags: st.b_flags.update(j, true),
            matches: st.matches + 1,
        }
    } else {
        st
    }
}

/// The matching pass after the first `i` characters of `a` were processed.
pub open spec fn spec_match_state(a: Seq<char>, b: Seq<char>, i: int) -> MatchState
    decreases i,
{
    if i <= 0 {
        MatchState {
            a_flags: Seq::new(a.len(), |k: int| false),
            b_flags: Seq::new(b.len(), |k: int| false),
            matches: 0,
        }
    } else {
        spec_match_step(a, b, spec_match_state(a, b, i - 1), i - 1)
    }
}

/// The flagged characters of `s`, in order.
pub open spec fn matched_chars(s: Seq<char>, flags: Seq<bool>) -> Seq<char>
    recommends
        s.len() == flags.len(),
    decreases s.len(),
{
    if s.len() == 0 || flags.len() == 0 {
        Seq::empty()
    } else {
        matched_chars(s.drop_last(), flags.drop_last()) + (
        if flags.last() {
            seq![s.last()]
        } else {
            Seq::<char>::empty()
        })
    }
}

/// How many flags are set.
pub open spec fn count_true(flags: Seq<bool>) -> nat
    decreases flags.len(),
{
    if flags.len() == 0 {
        0
    } else {
        count_true(flags.drop_last()) + (
        if flags.last() {
            1nat
        } else {
            0nat
        })
    }
}

/// How many aligned positions differ.
pub open spec fn mismatches(x: Seq<char>, y: Seq<char>) -> nat
    recommends
        x.len() == y.len(),
    decreases x.len(),
{
    if x.len() == 0 || y.len() == 0 {
        0
    } else {
        mismatches(x.drop_last(), y.drop_last()) + (
        if x.last() != y.last() {
            1nat
        } else {
            0nat
        })
    }
}

/// The Jaro score of `a` against `b` as an exact fraction (numerator,
/// denominator). Two empty strings score 1; one empty string scores 0.
pub open spec fn jaro_parts(a: Seq<char>, b: Seq<char>) -> (int, int) {
    if a.len() == 0 && b.len() == 0 {
        (1int, 1int)
    } else if a.len() == 0 || b.len() == 0 {
        (0int, 1int)
    } else {
        let st = spec_match_state(a, b, a.len() as int);
        let m = st.matches as int;
        if m == 0 {
            (0int, 1int)
        } else {
            let t = mismatches(matched_chars(a, st.a_flags), matched_chars(b, st.b_flags)) as int
                / 2;
            (
                m * m * b.len() + m * m * a.len() + (m - t) * a.len() * b.len(),
                3 * a.len() * b.len() * m,
            )
        }
    }
}

/// The length of the common prefix of `a` and `b` from position `i` on,
/// capped at four characters in all.
pub open spec fn spec_prefix_len(a: Seq<char>, b: Seq<char>, i: int) -> int
    decreases 4 - i,
{
    if i < 0 || i >= 4 || i >= a.len() || i >= b.len() || a[i] != b[i] {
        i
    } else {
        spec_prefix_len(a, b, i + 1)
    }
}

/// The Jaro-Winkler score as an exact fraction: the Jaro score, boosted by
/// the common prefix when it exceeds 7/10.
pub open spec fn jaro_winkler_parts(a: Seq<char>, b: Seq<char>) -> (int, int) {
    let (n, d) = jaro_parts(a, b);
    if n * 10 > d * 7 {
        let p = spec_prefix_len(a, b, 0);
        (10 * n + p * (d - n), 10 * d)
    } else {
        (n, d)
    }
}

/// The fuzzy-match decision: both strings within the computable bound, and
/// the Jaro-Winkler score at least `thousandths`/1000.
pub open spec fn fuzzy_match_spec(a: Seq<char>, b: Seq<char>, thousandths: u32) -> bool {
    &&& a.len() <= MAX_SIMILARITY_LEN as nat
    &&& b.len() <= MAX_SIMILARITY_LEN as nat
    &&& {
        let (n, d) = jaro_winkler_parts(a, b);
        n * 1000 >= d * thousandths
    }
}

// ------------------------------------------------------------------
// Facts about the matching pass.
// ------------------------------------------------------------------
pub proof fn lemma_count_true_le_len(f: Seq<bool>)
    ensures
        count_true(f) <= f.len(),
    decreases f.len(),
{
    if f.len() > 0 {
        lemma_count_true_le_len(f.drop_last());
    }
}

proof fn lemma_count_true_update(f: Seq<bool>, k: int)
    requires
        0 <= k < f.len(),
        !f[k],
    ensures
        count_true(f.update(k, true)) == count_true(f) + 1,
    decreases f.len(),
{
    let g = f.update(k, true);
    if k == f.len() - 1 {
        assert(g.drop_last() =~= f.drop_last());
    } else {
        assert(g.drop_last() =~= f.drop_last().update(k, true));
        lemma_count_true_update(f.drop_last(), k);
    }
}

proof fn lemma_find_match_props(b: Seq<char>, flags: Seq<bool>, c: char, lo: int, hi: int)
    requires
        flags.len() == b.len(),
    ensures
        spec_find_match(b, flags, c, lo, hi) >= 0 ==> {
            let j = spec_find_match(b, flags, c, lo, hi);
            lo <= j < hi <= b.len() && b[j] == c && !flags[j]
        },
    decreases hi - lo,
{
    if !(lo < 0 || lo >= hi || hi > b.len()) && !(b[lo] == c && !flags[lo]) {
        lemma_find_match_props(b, flags, c, lo + 1, hi);
    }
}

/// The shape of the matching state: flag vectors as long as their strings,
/// as many flags set on each side as there are matches, and no flag of `a`
/// set at or beyond the position the pass has reached.
pub proof fn lemma_match_state_props(a: Seq<char>, b: Seq<char>, i: int)
    requires
        0 <= i <= a.len(),
    ensures
        ({
            let st = spec_match_state(a, b, i);
            &&& st.a_flags.len() == a.len()
            &&& st.b_flags.len() == b.len()
            &&& count_true(st.a_flags) == st.matches
            &&& count_true(st.b_flags) == st.matches
            &&& forall|k: int| i <= k < a.len() ==> !st.a_flags[k]
            &&& st.matches <= i
            &&& st.matches <= b.len()
        }),
    decreases i,
{
    let st = spec_match_state(a, b, i);
    if i == 0 {
        assert(count_true(st.a_flags) == 0) by {
            lemma_count_true_all_false(st.a_flags);
        }
        assert(count_true(st.b_flags) == 0) by {
            lemma_count_true_all_false(st.b_flags);
        }
    } else {
        lemma_match_state_props(a, b, i - 1);
        let prev = spec_match_state(a, b, i - 1);
        let range = match_range(a.len(), b.len());
        let lo = if i - 1 > range {
            i - 1 - range
        } else {
            0
        };
        let hi = if b.len() <= i - 1 + range + 1 {
            b.len() as int
        } else {
            i - 1 + range + 1
        };
        let j = spec_find_match(b, prev.b_flags, a[i - 1], lo, hi);
        lemma_find_match_props(b, prev.b_flags, a[i - 1], lo, hi);
        if j >= 0 {
            lemma_count_true_update(prev.a_flags, i - 1);
            lemma_count_true_update(prev.b_flags, j);
            lemma_count_true_le_len(prev.b_flags.update(j, true));
        }
    }
}

proof fn lemma_count_true_all_false(f: Seq<bool>)
    requires
        forall|k: int| 0 <= k < f.len() ==> !f[k],
    ensures
        count_true(f) == 0,
    decreases f.len(),
{
    if f.len() > 0 {
        lemma_count_true_all_false(f.drop_last());
    }
}

/// The matched sides pair up: each side contributes exactly as many
/// characters as there are matches.
pub proof fn lemma_matched_chars_len(s: Seq<char>, flags: Seq<bool>)
    requires
        s.len() == flags.len(),
    ensures
        matched_chars(s, flags).len() == count_true(flags),
    decreases s.len(),
{
    if s.len() > 0 {
        lemma_matched_chars_len(s.drop_last(), flags.drop_last());
    }
}

pub proof fn lemma_mismatches_le(x: Seq<char>, y: Seq<char>)
    ensures
        mismatches(x, y) <= x.len(),
    decreases x.len(),
{
    if x.len() > 0 && y.len() > 0 {
        lemma_mismatches_le(x.drop_last(), y.drop_last());
    }
}

/// The Jaro score is a fraction within [0, 1] with a positive denominator.
pub proof fn lemma_jaro_bounds(a: Seq<char>, b: Seq<char>)
    ensures
        ({
            let (n, d) = jaro_parts(a, b);
            0 <= n <= d && 0 < d
        }),
{
    if a.len() > 0 && b.len() > 0 {
        let st = spec_match_state(a, b, a.len() as int);
        lemma_match_state_props(a, b, a.len() as int);
        let m = st.matches as int;
        if m != 0 {
            let al = a.len() as int;
            let bl = b.len() as int;
            lemma_matched_chars_len(a, st.a_flags);
            lemma_matched_chars_len(b, st.b_flags);
            lemma_mismatches_le(matched_chars(a, st.a_flags), matched_chars(b, st.b_flags));
            let t = mismatches(matched_chars(a, st.a_flags), matched_chars(b, st.b_flags)) as int
                / 2;
            assert(0 <= t <= m);
            assert(1 <= m <= al && m <= bl);
            assert(0 <= m * m * bl + m * m * al + (m - t) * al * bl <= 3 * al * bl * m && 0 < 3
                * al * bl * m) by (nonlinear_arith)
                requires
                    1 <= m <= al,
                    m <= bl,
                    0 <= t <= m,
            ;
        }
    }
}

/// The Jaro-Winkler score is a fraction within [0, 1] with a positive
/// denominator.
pub proof fn lemma_jaro_winkler_bounds(a: Seq<char>, b: Seq<char>)
    ensures
        ({
            let (n, d) = jaro_winkler_parts(a, b);
            0 <= n <= d && 0 < d
        }),
{
    lemma_jaro_bounds(a, b);
    let (n, d) = jaro_parts(a, b);
    if n * 10 > d * 7 {
        let p = spec_prefix_len(a, b, 0);
        lemma_prefix_len_bounds(a, b, 0);
        assert(10 * n + p * (d - n) <= 10 * d && 10 * n + p * (d - n) >= 0) by (nonlinear_arith)
            requires
                0 <= n <= d,
                0 <= p <= 4,
        ;
    }
}

pub proof fn lemma_prefix_len_bounds(a: Seq<char>, b: Seq<char>, i: int)
    requires
        0 <= i <= 4,
    ensures
        i <= spec_prefix_len(a, b, i) <= 4,
    decreases 4 - i,
{
    if !(i < 0 || i >= 4 || i >= a.len() || i >= b.len() || a[i] != b[i]) {
        lemma_prefix_len_bounds(a, b, i + 1);
    }
}

// ------------------------------------------------------------------
// The executable engine.
// ------------------------------------------------------------------
/// A similarity score as an exact fraction; `num == den` means 1, the score
/// of a string against itself.
#[derive(Debug, Clone, Copy, PartialEq, Eq, Structural)]
pub struct Similarity {
    pub num: u128,
    pub den: u128,
}

fn find_in_window(b: &Vec<char>, flags: &Vec<bool>, c: char, lo: usize, hi: usize) -> (r: Option<
    usize,
>)
    requires
        flags@.len() == b@.len(),
        hi <= b@.len(),
    ensures
        r is Some ==> spec_find_match(b@, flags@, c, lo as int, hi as int) == r->Some_0 as int
            && lo <= r->Some_0 < hi,
        r is None ==> spec_find_match(b@, flags@, c, lo as int, hi as int) == -1,
{
    let mut j = lo;
    while j < hi
        invariant
            lo <= j,
            hi <= b@.len(),
            flags@.len() == b@.len(),
            spec_find_match(b@, flags@, c, lo as int, hi as int) == spec_find_match(
                b@,
                flags@,
                c,
                j as int,
                hi as int,
            ),
        decreases hi - j,
    {
        if b[j] == c && !flags[j] {
            return Some(j);
        }
        j = j + 1;
    }
    None
}

/// Runs the matching pass and returns both flag vectors and the match count.
fn match_pass(a: &Vec<char>, b: &Vec<char>) -> (r: (Vec<bool>, Vec<bool>, usize))
    requires
        a@.len() >= 1,
        b@.len() >= 1,
    ensures
        ({
            let st = spec_match_state(a@, b@, a@.len() as int);
            r.0@ == st.a_flags && r.1@ == st.b_flags && r.2 == st.matches
        }),
{
    let al = a.len();
    let bl = b.len();
    let mx = if al >= bl {
        al
    } else {
        bl
    };
    let range: usize = if mx / 2 >= 1 {
        mx / 2 - 1
    } else {
        0
    };
    let mut af: Vec<bool> = vec![false; al];
    let mut bf: Vec<bool> = vec![false; bl];
    let mut m: usize = 0;
    proof {
        assert(af@ =~= spec_match_state(a@, b@, 0).a_flags);
        assert(bf@ =~= spec_match_state(a@, b@, 0).b_flags);
    }
    let mut i: usize = 0;
    while i < al
        invariant
            al == a@.len(),
            bl == b@.len(),
            range as int == match_range(a@.len(), b@.len()),
            i <= al,
            af@ == spec_match_state(a@, b@, i as int).a_flags,
            bf@ == spec_match_state(a@, b@, i as int).b_flags,
            m == spec_match_state(a@, b@, i as int).matches,
        decreases al - i,
    {
        proof {
            lemma_match_state_props(a@, b@, i as int);
        }
        let lo: usize = if i > range {
            i - range
        } else {
            0
        };
        let hi: usize = if bl <= i || bl - i <= range + 1 {
            bl
        } else {
            i + range + 1
        };
        proof {
            assert(hi as int == if b@.len() <= i + range + 1 {
                b@.len() as int
            } else {
                i as int + range as int + 1
            });
        }
        let c = a[i];
        let ghost st = spec_match_state(a@, b@, i as int);
        match find_in_window(b, &bf, c, lo, hi) {
            Some(j) => {
                af.set(i, true);
                bf.set(j, true);
                m = m + 1;
            },
            None => {},
        }
        proof {
            assert(spec_match_state(a@, b@, i + 1) == spec_match_step(a@, b@, st, i as int));
        }
        i = i + 1;
    }
    (af, bf, m)
}

/// Collects the flagged characters, in order.
fn matched_of(s: &Vec<char>, flags: &Vec<bool>) -> (r: Vec<char>)
    requires
        flags@.len() == s@.len(),
    ensures
        r@ == matched_chars(s@, flags@),
{
    let mut r: Vec<char> = Vec::new();
    let mut i: usize = 0;
    while i < s.len()
        invariant
            flags@.len() == s@.len(),
            i <= s@.len(),
            r@ == matched_chars(s@.take(i as int), flags@.take(i as int)),
        decreases s@.len() - i,
    {
        proof {
            assert(s@.take(i + 1).drop_last() =~= s@.take(i as int));
            assert(flags@.take(i + 1).drop_last() =~= flags@.take(i as int));
        }
        if flags[i] {
            r.push(s[i]);
        }
        i = i + 1;
    }
    proof {
        assert(s@.take(s@.len() as int) =~= s@);
        assert(flags@.take(s@.len() as int) =~= flags@);
    }
    r
}

/// Counts the aligned positions that differ.
fn count_mismatches(x: &Vec<char>, y: &Vec<char>) -> (r: usize)
    requires
        x@.len() == y@.len(),
    ensures
        r == mismatches(x@, y@),
{
    let mut r: usize = 0;
    let mut i: usize = 0;
    while i < x.len()
        invariant
            x@.len() == y@.len(),
            i <= x@.len(),
            r == mismatches(x@.take(i as int), y@.take(i as int)),
            r <= i,
        decreases x@.len() - i,
    {
        proof {
            assert(x@.take(i + 1).drop_last() =~= x@.take(i as int));
            assert(y@.take(i + 1).drop_last() =~= y@.take(i as int));
        }
        if x[i] != y[i] {
            r = r + 1;
        }
        i = i + 1;
    }
    proof {
        assert(x@.take(x@.len() as int) =~= x@);
        assert(y@.take(y@.len() as int) =~= y@);
    }
    r
}

/// The capped common-prefix length.
fn prefix_len(a: &Vec<char>, b: &Vec<char>) -> (r: usize)
    ensures
        r as int == spec_prefix_len(a@, b@, 0),
        r <= 4,
{
    let mut i: usize = 0;
    while i < 4 && i < a.len() && i < b.len()
        invariant
            i <= 4,
            spec_prefix_len(a@, b@, 0) == spec_prefix_len(a@, b@, i as int),
        decreases 4 - i,
    {
        if a[i] != b[i] {
            return i;
        }
        i = i + 1;
    }
    i
}

/// The Jaro-Winkler score of `a` against `b`, exactly.
fn similarity_chars(a: &Vec<char>, b: &Vec<char>) -> (r: Similarity)
    requires
        a@.len() <= MAX_SIMILARITY_LEN,
        b@.len() <= MAX_SIMILARITY_LEN,
    ensures
        r.num as int == jaro_winkler_parts(a@, b@).0,
        r.den as int == jaro_winkler_parts(a@, b@).1,
        0 < r.den <= 30000000000000000000000000000000000u128,
        r.num <= r.den,
{
    let al = a.len();
    let bl = b.len();
    proof {
        lemma_jaro_bounds(a@, b@);
        lemma_jaro_winkler_bounds(a@, b@);
    }
    if al == 0 && bl == 0 {
        return Similarity { num: 10, den: 10 };
    }
    if al == 0 || bl == 0 {
        return Similarity { num: 0, den: 1 };
    }
    let (af, bf, m) = match_pass(a, b);
    proof {
        lemma_match_state_props(a@, b@, a@.len() as int);
    }
    if m == 0 {
        return Similarity { num: 0, den: 1 };
    }
    let ma = matched_of(a, &af);
    let mb = matched_of(b, &bf);
    proof {
        lemma_matched_chars_len(a@, af@);
        lemma_matched_chars_len(b@, bf@);
    }
    let t_raw = count_mismatches(&ma, &mb);
    proof {
        lemma_mismatches_le(ma@, mb@);
    }
    let t = (t_raw / 2) as u128;
    let mu = m as u128;
    let alu = al as u128;
    let blu = bl as u128;
    proof {
        assert(mu * mu <= 10000000000000000000000u128 && mu * mu * blu
            <= 1000000000000000000000000000000000u128 && mu * mu * alu
            <= 1000000000000000000000000000000000u128 && (mu - t) * alu
            <= 10000000000000000000000u128 && (mu - t) * alu * blu
            <= 1000000000000000000000000000000000u128 && 3 * alu * blu
            <= 30000000000000000000000u128 && 3 * alu * blu * mu
            <= 3000000000000000000000000000000000u128 && mu * mu * blu + mu * mu * alu + (mu - t)
            * alu * blu <= 3 * alu * blu * mu) by (nonlinear_arith)
            requires
                1 <= mu <= alu,
                mu <= blu,
                0 <= t <= mu,
                alu <= 100_000_000_000u128,
                blu <= 100_000_000_000u128,
        ;
    }
    let num = mu * mu * blu + mu * mu * alu + (mu - t) * alu * blu;
    let den = 3 * alu * blu * mu;
    if num * 10 > den * 7 {
        let p = prefix_len(a, b) as u128;
        proof {
            assert(p * (den - num) <= 4 * den) by (nonlinear_arith)
                requires
                    p <= 4,
                    0 <= num <= den,
            ;
        }
        Similarity { num: 10 * num + p * (den - num), den: 10 * den }
    } else {
        Similarity { num, den }
    }
}

/// The similarity score of `input` against `target`, as an exact fraction in
/// [0, 1]. Equal strings score exactly 1 (`num == den`).
pub fn get_similarity(input: &str, target: &str) -> (r: Similarity)
    requires
        input@.len() <= MAX_SIMILARITY_LEN,
        target@.len() <= MAX_SIMILARITY_LEN,
    ensures
        r.num as int == jaro_winkler_parts(input@, target@).0,
        r.den as int == jaro_winkler_parts(input@, target@).1,
        0 < r.den,
        r.num <= r.den,
{
    let a = crate::text::to_chars(input);
    let b = crate::text::to_chars(target);
    similarity_chars(&a, &b)
}

/// Whether `input` and `target` are similar to at least
/// `threshold_thousandths`/1000 under the Jaro-Winkler score. Strings longer
/// than `MAX_SIMILARITY_LEN` never match.
pub fn fuzzy_match(input: &str, target: &str, threshold_thousandths: u32) -> (r: bool)
    requires
        threshold_thousandths <= 1000,
    ensures
        r == fuzzy_match_spec(input@, target@, threshold_thousandths),
{
    let la = input.unicode_len();
    let lb = target.unicode_len();
    if la as u64 > MAX_SIMILARITY_LEN || lb as u64 > MAX_SIMILARITY_LEN {
        return false;
    }
    let a = crate::text::to_chars(input);
    let b = crate::text::to_chars(target);
    let s = similarity_chars(&a, &b);
    let th = threshold_thousandths as u128;
    proof {
        assert(s.den * th <= s.den * 1000) by (nonlinear_arith)
            requires
                th <= 1000,
                s.den >= 0,
        ;
    }
    s.num * 1000 >= s.den * th
}

/// Whether `input` completes `target` under the default 0.7 threshold.
pub fn fuzzy_match_default(input: &str, target: &str) -> (r: bool)
    ensures
        r == fuzzy_match_spec(input@, target@, DEFAULT_THRESHOLD_THOUSANDTHS),
{
    fuzzy_match(input, target, DEFAULT_THRESHOLD_THOUSANDTHS)
}

// ------------------------------------------------------------------
// Similarity of a string with itself is exactly 1.
// ------------------------------------------------------------------
proof fn lemma_find_match_skip(b: Seq<char>, flags: Seq<bool>, c: char, lo: int, j0: int, hi: int)
    requires
        0 <= lo <= j0 < hi <= b.len(),
        flags.len() == b.len(),
        forall|k: int| lo <= k < j0 ==> flags[k],
        b[j0] == c,
        !flags[j0],
    ensures
        spec_find_match(b, flags, c, lo, hi) == j0,
    decreases j0 - lo,
{
    if lo < j0 {
        lemma_find_match_skip(b, flags, c, lo + 1, j0, hi);
    }
}

proof fn lemma_match_state_self(s: Seq<char>, i: int)
    requires
        0 <= i <= s.len(),
    ensures
        spec_match_state(s, s, i).a_flags =~= Seq::new(s.len(), |k: int| k < i),
        spec_match_state(s, s, i).b_flags =~= Seq::new(s.len(), |k: int| k < i),
        spec_match_state(s, s, i).matches == i,
    decreases i,
{
    if i > 0 {
        lemma_match_state_self(s, i - 1);
        let prev = spec_match_state(s, s, i - 1);
        let range = match_range(s.len(), s.len());
        let lo = if i - 1 > range {
            i - 1 - range
        } else {
            0
        };
        let hi = if s.len() <= i - 1 + range + 1 {
            s.len() as int
        } else {
            i - 1 + range + 1
        };
        assert(lo <= i - 1 < hi <= s.len());
        lemma_find_match_skip(s, prev.b_flags, s[i - 1], lo, i - 1, hi);
        assert(spec_find_match(s, prev.b_flags, s[i - 1], lo, hi) == i - 1);
        assert(spec_match_state(s, s, i) == spec_match_step(s, s, prev, i - 1));
        assert(prev.a_flags.update(i - 1, true) =~= Seq::new(s.len(), |k: int| k < i));
    }
}

proof fn lemma_matched_chars_all(s: Seq<char>, flags: Seq<bool>)
    requires
        flags.len() == s.len(),
        forall|k: int| 0 <= k < flags.len() ==> flags[k],
    ensures
        matched_chars(s, flags) =~= s,
    decreases s.len(),
{
    if s.len() > 0 {
        lemma_matched_chars_all(s.drop_last(), flags.drop_last());
    }
}

proof fn lemma_mismatches_self(s: Seq<char>)
    ensures
        mismatches(s, s) == 0,
    decreases s.len(),
{
    if s.len() > 0 {
        lemma_mismatches_self(s.drop_last());
    }
}

/// Every string scores exactly 1 against itself, the empty string included.
pub proof fn law_similarity_self(s: Seq<char>)
    ensures
        jaro_winkler_parts(s, s).0 == jaro_winkler_parts(s, s).1,
        jaro_winkler_parts(s, s).1 > 0,
{
    lemma_jaro_bounds(s, s);
    if s.len() == 0 {
    } else {
        let l = s.len() as int;
        lemma_match_state_self(s, l);
        let st = spec_match_state(s, s, l);
        assert(forall|k: int| 0 <= k < st.a_flags.len() ==> st.a_flags[k]);
        lemma_matched_chars_all(s, st.a_flags);
        lemma_matched_chars_all(s, st.b_flags);
        lemma_mismatches_self(s);
        let m = st.matches as int;
        assert(m == l);
        let (n, d) = jaro_parts(s, s);
        assert(n == m * m * l + m * m * l + m * l * l && d == 3 * l * l * m && n == d && d > 0)
            by (nonlinear_arith)
            requires
                m == l,
                l >= 1,
                n == m * m * l + m * m * l + (m - 0) * l * l,
                d == 3 * l * l * m,
        ;
    }
    let (n, d) = jaro_parts(s, s);
    assert(n == d && d > 0);
    assert(n * 10 > d * 7) by (nonlinear_arith)
        requires
            n == d,
            d > 0,
    ;
}

} // verus!
