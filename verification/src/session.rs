//! The session store: the mapping from opaque bearer token to subject and
//! expiry.
//!
//! Time is a caller-supplied count of seconds; the store never reads a
//! clock. A session is live exactly while `now < expires_at`; an expired
//! session never authenticates a request even when still present. No two
//! stored sessions share a token, while one subject may hold any number of
//! concurrent sessions.

use vstd::prelude::*;
use crate::errors::AppError;

verus! {

/// Sessions are issued for seven days.
pub const SESSION_TTL_SECONDS: i64 = 604800;

/// One live or expired login session.
#[derive(Debug, Clone, PartialEq, Eq)]
pub struct Session {
    pub token: String,
    pub subject_id: i64,
    pub issued_at: i64,
    pub expires_at: i64,
}

/// The index of the session carrying `token`, or -1.
pub open spec fn spec_find_token(ss: Seq<Session>, token: Seq<char>, i: int) -> int
    decreases ss.len() - i,
{
    if i < 0 || i >= ss.len() {
        -1
    } else if ss[i].token@ == token {
        i
    } else {
        spec_find_token(ss, token, i + 1)
    }
}

/// Whether some session carries `token`.
pub open spec fn has_token(ss: Seq<Session>, token: Seq<char>) -> bool {
    exists|i: int| 0 <= i < ss.len() && ss[i].token@ == token
}

/// Whether a live session carries `token`: present and not yet expired.
pub open spec fn has_live_session(ss: Seq<Session>, token: Seq<char>, now: i64) -> bool {
    exists|i: int| 0 <= i < ss.len() && ss[i].token@ == token && ss[i].expires_at > now
}

/// The sessions that remain once every session carrying `token` is dropped.
pub open spec fn spec_remove_token(ss: Seq<Session>, token: Seq<char>) -> Seq<Session>
    decreases ss.len(),
{
    if ss.len() == 0 {
        Seq::empty()
    } else {
        spec_remove_token(ss.drop_last(), token) + (
        if ss.last().token@ == token {
            Seq::<Session>::empty()
        } else {
            seq![ss.last()]
        })
    }
}

pub proof fn lemma_find_token(ss: Seq<Session>, token: Seq<char>, i: int)
    requires
        0 <= i <= ss.len(),
    ensures
        spec_find_token(ss, token, i) >= 0 ==> {
            let j = spec_find_token(ss, token, i);
            i <= j < ss.len() && ss[j].token@ == token
        },
        spec_find_token(ss, token, i) < 0 ==> forall|k: int|
            i <= k < ss.len() ==> ss[k].token@ != token,
    decreases ss.len() - i,
{
    if i < ss.len() && ss[i].token@ != token {
        lemma_find_token(ss, token, i + 1);
    }
}

/// Everything `spec_remove_token` promises: every session with the token is
/// gone, and exactly the other sessions survive, in order.
pub proof fn lemma_remove_token(ss: Seq<Session>, token: Seq<char>)
    ensures
        !has_token(spec_remove_token(ss, token), token),
        forall|x: Session| #[trigger] spec_remove_token(ss, token).contains(x) <==> (ss.contains(x)
            && x.token@ != token),
    decreases ss.len(),
{
    let out = spec_remove_token(ss, token);
    if ss.len() == 0 {
        assert(out =~= Seq::<Session>::empty());
    } else {
        let prefix = ss.drop_last();
        lemma_remove_token(prefix, token);
        let pout = spec_remove_token(prefix, token);
        assert forall|x: Session| #[trigger] out.contains(x) implies (ss.contains(x) && x.token@
            != token) by {
            let i = choose|i: int| 0 <= i < out.len() && out[i] == x;
            if i < pout.len() {
                assert(pout.contains(x));
                let k = choose|k: int| 0 <= k < prefix.len() && prefix[k] == x;
                assert(ss[k] == x);
            } else {
                assert(x == ss.last());
                assert(ss[ss.len() - 1] == x);
            }
        }
        assert forall|x: Session| ss.contains(x) && x.token@ != token implies #[trigger] out.contains(
            x,
        ) by {
            let i = choose|i: int| 0 <= i < ss.len() && ss[i] == x;
            if i < prefix.len() {
                assert(prefix[i] == x);
                assert(pout.contains(x));
                let k = choose|k: int| 0 <= k < pout.len() && pout[k] == x;
                assert(out[k] == x);
            } else {
                assert(x == ss.last());
                assert(out[out.len() - 1] == x);
            }
        }
        if has_token(out, token) {
            let i = choose|i: int| 0 <= i < out.len() && out[i].token@ == token;
            assert(out.contains(out[i]));
        }
    }
}

/// The store that owns every issued session.
#[derive(Debug)]
pub struct SessionStore {
    sessions: Vec<Session>,
}

impl SessionStore {
    /// The sessions the store holds, in issue order.
    pub closed spec fn sessions(self) -> Seq<Session> {
        self.sessions@
    }

    /// No two stored sessions share a token.
    pub open spec fn wf(self) -> bool {
        forall|i: int, j: int|
            0 <= i < j < self.sessions().len() ==> self.sessions()[i].token@
                != self.sessions()[j].token@
    }

    /// An empty store.
    pub fn new() -> (r: SessionStore)
        ensures
            r.sessions() == Seq::<Session>::empty(),
            r.wf(),
    {
        SessionStore { sessions: Vec::new() }
    }

    /// What `validate` decides, given the stored sessions.
    pub open spec fn validate_spec(self, token: Seq<char>, now: i64) -> Result<i64, AppError> {
        let j = spec_find_token(self.sessions(), token, 0);
        if j >= 0 && self.sessions()[j].expires_at > now {
            Ok(self.sessions()[j].subject_id)
        } else {
            Err(AppError::Unauthenticated)
        }
    }

    /// Resolves a bearer token to the subject it authenticates. Succeeds
    /// exactly when a live session carries the token; an absent and an
    /// expired token are indistinguishable to the caller.
    pub fn validate(&self, token: &str, now: i64) -> (r: Result<i64, AppError>)
        requires
            self.wf(),
        ensures
            r == self.validate_spec(token@, now),
            r is Ok <==> has_live_session(self.sessions(), token@, now),
            r is Err ==> r->Err_0 == AppError::Unauthenticated,
    {
        let ghost ss = self.sessions();
        let n = self.sessions.len();
        let mut i: usize = 0;
        while i < n
            invariant
                n == ss.len(),
                i <= n,
                ss == self.sessions(),
                self.wf(),
                spec_find_token(ss, token@, 0) == spec_find_token(ss, token@, i as int),
            decreases n - i,
        {
            if crate::text::str_eq(self.sessions[i].token.as_str(), token) {
                proof {
                    assert(spec_find_token(ss, token@, i as int) == i as int);
                }
                if self.sessions[i].expires_at > now {
                    return Ok(self.sessions[i].subject_id);
                } else {
                    proof {
                        if has_live_session(ss, token@, now) {
                            let l = choose|l: int|
                                0 <= l < ss.len() && ss[l].token@ == token@ && ss[l].expires_at
                                    > now;
                            assert(l == i as int);
                        }
                    }
                    return Err(AppError::Unauthenticated);
                }
            }
            i = i + 1;
        }
        proof {
            lemma_find_token(ss, token@, 0);
            if has_live_session(ss, token@, now) {
                let l = choose|l: int|
                    0 <= l < ss.len() && ss[l].token@ == token@ && ss[l].expires_at > now;
            }
        }
        Err(AppError::Unauthenticated)
    }

    /// Records a session under a caller-supplied token. Succeeds exactly when
    /// the token is still free; the session then expires `SESSION_TTL_SECONDS`
    /// after `now`.
    pub fn insert_session(&mut self, token: String, subject_id: i64, now: i64) -> (r: Result<
        (),
        AppError,
    >)
        requires
            old(self).wf(),
            now <= i64::MAX - SESSION_TTL_SECONDS,
        ensures
            final(self).wf(),
            r is Ok <==> !has_token(old(self).sessions(), token@),
            r is Ok ==> final(self).sessions() == old(self).sessions().push(
                Session {
                    token,
                    subject_id,
                    issued_at: now,
                    expires_at: (now + SESSION_TTL_SECONDS) as i64,
                },
            ),
            r is Err ==> final(self).sessions() == old(self).sessions() && r->Err_0
                == AppError::Conflict,
    {
        let ghost ss = self.sessions();
        let n = self.sessions.len();
        let mut i: usize = 0;
        while i < n
            invariant
                n == ss.len(),
                i <= n,
                ss == self.sessions(),
                self.wf(),
                forall|k: int| 0 <= k < i ==> ss[k].token@ != token@,
            decreases n - i,
        {
            if crate::text::str_eq(self.sessions[i].token.as_str(), token.as_str()) {
                return Err(AppError::Conflict);
            }
            i = i + 1;
        }
        let expires_at = now + SESSION_TTL_SECONDS;
        let s = Session { token, subject_id, issued_at: now, expires_at };
        self.sessions.push(s);
        proof {
            if has_token(ss, token@) {
                let l = choose|l: int| 0 <= l < ss.len() && ss[l].token@ == token@;
            }
        }
        Ok(())
    }

    /// Removes every session carrying `token`; revoking an unknown token is
    /// not an error and leaves the store as it was.
    pub fn revoke(&mut self, token: &str)
        requires
            old(self).wf(),
        ensures
            final(self).wf(),
            final(self).sessions() == spec_remove_token(old(self).sessions(), token@),
            !has_token(final(self).sessions(), token@),
            forall|x: Session| #[trigger] final(self).sessions().contains(x) <==> (old(
                self,
            ).sessions().contains(x) && x.token@ != token@),
    {
        let ghost ss = self.sessions();
        let n = self.sessions.len();
        let mut out: Vec<Session> = Vec::new();
        let mut i: usize = 0;
        while i < n
            invariant
                n == ss.len(),
                i <= n,
                ss == self.sessions(),
                out@ == spec_remove_token(ss.take(i as int), token@),
            decreases n - i,
        {
            let keep = !crate::text::str_eq(self.sessions[i].token.as_str(), token);
            proof {
                assert(ss.take(i + 1).drop_last() =~= ss.take(i as int));
                assert(ss.take(i + 1).last() == ss[i as int]);
            }
            if keep {
                out.push(self.sessions[i].clone_session());
            }
            i = i + 1;
        }
        proof {
            assert(ss.take(n as int) =~= ss);
            lemma_remove_token(ss, token@);
        }
        self.sessions = out;
        proof {
            lemma_remove_wf(ss, token@);
        }
    }
}

impl Session {
    /// A field-for-field copy.
    fn clone_session(&self) -> (r: Session)
        ensures
            r == *self,
    {
        Session {
            token: self.token.clone(),
            subject_id: self.subject_id,
            issued_at: self.issued_at,
            expires_at: self.expires_at,
        }
    }
}

/// Removing a token keeps the remaining tokens pairwise distinct.
proof fn lemma_remove_wf(ss: Seq<Session>, token: Seq<char>)
    requires
        forall|i: int, j: int| 0 <= i < j < ss.len() ==> ss[i].token@ != ss[j].token@,
    ensures
        forall|i: int, j: int|
            0 <= i < j < spec_remove_token(ss, token).len() ==> spec_remove_token(ss, token)[i].token@
                != spec_remove_token(ss, token)[j].token@,
    decreases ss.len(),
{
    if ss.len() > 0 {
        let prefix = ss.drop_last();
        lemma_remove_wf(prefix, token);
        let pout = spec_remove_token(prefix, token);
        lemma_remove_token(prefix, token);
        let out = spec_remove_token(ss, token);
        if ss.last().token@ != token {
            assert forall|i: int, j: int| 0 <= i < j < out.len() implies out[i].token@
                != out[j].token@ by {
                if j < pout.len() {
                } else {
                    assert(out[j] == ss.last());
                    assert(pout.contains(out[i]));
                    assert(prefix.contains(out[i]));
                    let k = choose|k: int| 0 <= k < prefix.len() && prefix[k] == out[i];
                    assert(ss[k] == out[i]);
                    assert(ss[k].token@ != ss[ss.len() - 1].token@);
                }
            }
        } else {
            assert(out =~= pout);
        }
    }
}

/// Relies on `uuid::Uuid::new_v4` and its hyphenated `to_string` form: a
/// random version-4 UUID rendered as 36 characters. The value is random, so
/// nothing but its length is assumed.
#[verifier::external_body]
fn fresh_token() -> (r: String)
    ensures
        r@.len() == 36,
{
    uuid::Uuid::new_v4().to_string()
}

impl SessionStore {
    /// Issues a new session for `subject_id` under a randomly drawn token and
    /// returns the token. Whatever token the generator hands back, the store
    /// stays well formed: in the negligible-probability event that the drawn
    /// token already exists, the call reports a conflict instead of ever
    /// letting two sessions share a token.
    pub fn create(&mut self, subject_id: i64, now: i64) -> (r: Result<String, AppError>)
        requires
            old(self).wf(),
            now <= i64::MAX - SESSION_TTL_SECONDS,
        ensures
            final(self).wf(),
            r is Ok ==> !has_token(old(self).sessions(), r->Ok_0@) && final(self).sessions()
                == old(self).sessions().push(
                Session {
                    token: r->Ok_0,
                    subject_id,
                    issued_at: now,
                    expires_at: (now + SESSION_TTL_SECONDS) as i64,
                },
            ) && has_live_session(final(self).sessions(), r->Ok_0@, now),
            r is Err ==> final(self).sessions() == old(self).sessions() && r->Err_0
                == AppError::Conflict,
    {
        let token = fresh_token();
        let handed = token.clone();
        match self.insert_session(token, subject_id, now) {
            Ok(()) => {
                proof {
                    let ss = self.sessions();
                    assert(ss[ss.len() - 1].token@ == handed@);
                    assert(has_live_session(ss, handed@, now));
                }
                Ok(handed)
            },
            Err(e) => Err(e),
        }
    }
}

/// A token is resolved exactly when the store holds a live session for it:
/// present, and expiring strictly after `now`.
pub proof fn law_validate_iff_live(store: SessionStore, token: Seq<char>, now: i64)
    requires
        store.wf(),
    ensures
        store.validate_spec(token, now) is Ok <==> has_live_session(store.sessions(), token, now),
{
    let ss = store.sessions();
    lemma_find_token(ss, token, 0);
    let j = spec_find_token(ss, token, 0);
    if has_live_session(ss, token, now) {
        let l = choose|l: int| 0 <= l < ss.len() && ss[l].token@ == token && ss[l].expires_at > now;
        assert(j >= 0);
        assert(l == j);
    }
}

/// Immediately after a session is recorded under a fresh token, validating
/// that token resolves the session's subject, for any instant before expiry.
pub proof fn law_validate_after_create(
    pre: SessionStore,
    post: SessionStore,
    s: Session,
    at: i64,
)
    requires
        pre.wf(),
        !has_token(pre.sessions(), s.token@),
        post.sessions() == pre.sessions().push(s),
        s.expires_at > at,
    ensures
        post.wf(),
        post.validate_spec(s.token@, at) == Ok::<i64, AppError>(s.subject_id),
{
    let ss = post.sessions();
    let n = pre.sessions().len() as int;
    assert forall|i: int, j: int| 0 <= i < j < ss.len() implies ss[i].token@ != ss[j].token@ by {
        if j == n && ss[i].token@ == s.token@ {
            assert(0 <= i < pre.sessions().len() && pre.sessions()[i].token@ == s.token@);
        }
    }
    lemma_find_token(ss, s.token@, 0);
    let j = spec_find_token(ss, s.token@, 0);
    assert(ss[n].token@ == s.token@);
    assert(j >= 0);
    if j < n {
        assert(0 <= j < pre.sessions().len() && pre.sessions()[j].token@ == s.token@);
    }
    assert(j == n);
}

/// Immediately after a token is revoked, validating it fails, whatever the
/// instant.
pub proof fn law_validate_after_revoke(
    pre: SessionStore,
    post: SessionStore,
    token: Seq<char>,
    at: i64,
)
    requires
        post.sessions() == spec_remove_token(pre.sessions(), token),
    ensures
        post.validate_spec(token, at) == Err::<i64, AppError>(AppError::Unauthenticated),
{
    lemma_remove_token(pre.sessions(), token);
    let ss = post.sessions();
    lemma_find_token(ss, token, 0);
    let j = spec_find_token(ss, token, 0);
    if j >= 0 {
        assert(ss.contains(ss[j]));
    }
}

/// At the exact expiry boundary -- `now` equal to `expires_at` -- a session
/// no longer authenticates.
pub proof fn law_validate_at_expiry(store: SessionStore, s: Session, k: int)
    requires
        store.wf(),
        0 <= k < store.sessions().len(),
        store.sessions()[k] == s,
    ensures
        store.validate_spec(s.token@, s.expires_at) is Err,
{
    law_validate_iff_live(store, s.token@, s.expires_at);
    if has_live_session(store.sessions(), s.token@, s.expires_at) {
        let ss = store.sessions();
        let l = choose|l: int|
            0 <= l < ss.len() && ss[l].token@ == s.token@ && ss[l].expires_at > s.expires_at;
        assert(l == k);
    }
}

/// No two sessions the store ever holds share a token; in particular two
/// concurrent logins are handed distinct tokens.
pub proof fn law_tokens_distinct(store: SessionStore, i: int, j: int)
    requires
        store.wf(),
        0 <= i < store.sessions().len(),
        0 <= j < store.sessions().len(),
        i != j,
    ensures
        store.sessions()[i].token@ != store.sessions()[j].token@,
{
}

/// The caller-side holder of the current session token, absent until a login
/// succeeds.
#[derive(Debug)]
pub struct SessionState {
    pub session_token: Option<String>,
}

impl Default for SessionState {
    /// Starts without a token.
    fn default() -> (r: SessionState)
        ensures
            r.session_token is None,
    {
        SessionState { session_token: None }
    }
}

} // verus!
