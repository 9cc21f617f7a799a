//! The authorization gate every operation passes through.
//!
//! A bearer token names a session; the guard turns it into a user identity,
//! checks the admin requirement where one is declared, and for
//! self-protecting operations refuses a caller acting on its own account.
//! No feature work happens here, and a refusal is final.

use vstd::prelude::*;
use crate::errors::AppError;
use crate::session::{SessionStore, SESSION_TTL_SECONDS, Session, has_token};
use crate::users::{User, UserRole, UserResponse, user_response, login_check, login_check_spec,
    role_label_spec, role_display_spec};

verus! {

/// The authenticated identity a valid token resolves to, immutable for the
/// lifetime of one request.
#[derive(Debug, Clone, Copy, PartialEq, Eq, Structural)]
pub struct Subject {
    pub id: i64,
    pub role: UserRole,
}

/// The index of the user carrying `id`, or -1.
pub open spec fn spec_find_user_id(users: Seq<User>, id: i64, i: int) -> int
    decreases users.len() - i,
{
    if i < 0 || i >= users.len() {
        -1
    } else if users[i].id == id {
        i
    } else {
        spec_find_user_id(users, id, i + 1)
    }
}

pub proof fn lemma_find_user_id(users: Seq<User>, id: i64, i: int)
    requires
        0 <= i <= users.len(),
    ensures
        spec_find_user_id(users, id, i) >= 0 ==> {
            let j = spec_find_user_id(users, id, i);
            i <= j < users.len() && users[j].id == id
        },
        spec_find_user_id(users, id, i) < 0 ==> forall|k: int|
            i <= k < users.len() ==> users[k].id != id,
    decreases users.len() - i,
{
    if i < users.len() && users[i].id != id {
        lemma_find_user_id(users, id, i + 1);
    }
}

/// The guard's whole decision: session lookup, then user lookup, then the
/// role check.
pub open spec fn authorize_spec(
    users: Seq<User>,
    store: SessionStore,
    token: Seq<char>,
    now: i64,
    require_admin: bool,
) -> Result<Subject, AppError> {
    match store.validate_spec(token, now) {
        Err(e) => Err(e),
        Ok(sid) => {
            let j = spec_find_user_id(users, sid, 0);
            if j < 0 {
                Err(AppError::NotFound)
            } else if require_admin && users[j].role != UserRole::Admin {
                Err(AppError::InsufficientRole)
            } else {
                Ok(Subject { id: users[j].id, role: users[j].role })
            }
        },
    }
}

/// Finds the index of the user carrying `id`.
pub fn find_user_by_id(users: &Vec<User>, id: i64) -> (r: Option<usize>)
    ensures
        r is Some ==> r->Some_0 == spec_find_user_id(users@, id, 0) && r->Some_0 < users@.len()
            && users@[r->Some_0 as int].id == id,
        r is None ==> spec_find_user_id(users@, id, 0) < 0,
{
    let mut i: usize = 0;
    while i < users.len()
        invariant
            i <= users@.len(),
            spec_find_user_id(users@, id, 0) == spec_find_user_id(users@, id, i as int),
        decreases users@.len() - i,
    {
        if users[i].id == id {
            return Some(i);
        }
        i = i + 1;
    }
    None
}

/// Resolves a token to an authenticated subject and, when asked, enforces
/// the admin role. Role changes take effect for tokens validated after the
/// change, because the subject record is re-read on every call.
pub fn authorize(
    users: &Vec<User>,
    store: &SessionStore,
    token: &str,
    now: i64,
    require_admin: bool,
) -> (r: Result<Subject, AppError>)
    requires
        store.wf(),
    ensures
        r == authorize_spec(users@, *store, token@, now, require_admin),
{
    match store.validate(token, now) {
        Err(e) => Err(e),
        Ok(sid) => {
            match find_user_by_id(users, sid) {
                None => Err(AppError::NotFound),
                Some(j) => {
                    proof {
                        lemma_find_user_id(users@, sid, 0);
                    }
                    let u = &users[j];
                    if require_admin && !matches!(u.role, UserRole::Admin) {
                        Err(AppError::InsufficientRole)
                    } else {
                        Ok(Subject { id: u.id, role: u.role })
                    }
                },
            }
        },
    }
}

/// Refuses an operation a subject may not apply to itself. Succeeds exactly
/// when the resolved subject and the target differ.
pub fn ensure_not_self(subject: &Subject, target_id: i64) -> (r: Result<(), AppError>)
    ensures
        r is Ok <==> subject.id != target_id,
        r is Err ==> r->Err_0 == AppError::SelfActionForbidden,
{
    if subject.id == target_id {
        Err(AppError::SelfActionForbidden)
    } else {
        Ok(())
    }
}

/// However valid the rest of a request is, an admin-gated operation rejects
/// any subject the token resolves whose role is not Admin, with exactly
/// `InsufficientRole`.
pub proof fn law_admin_gate(
    users: Seq<User>,
    store: SessionStore,
    token: Seq<char>,
    now: i64,
    j: int,
)
    requires
        store.validate_spec(token, now) is Ok,
        j == spec_find_user_id(users, store.validate_spec(token, now)->Ok_0, 0),
        0 <= j < users.len(),
        users[j].role != UserRole::Admin,
    ensures
        authorize_spec(users, store, token, now, true) == Err::<Subject, AppError>(
            AppError::InsufficientRole,
        ),
{
}

/// A request whose token fails the session lookup is turned away with that
/// same error, whatever role the operation wanted.
pub proof fn law_gate_requires_authentication(
    users: Seq<User>,
    store: SessionStore,
    token: Seq<char>,
    now: i64,
    require_admin: bool,
)
    requires
        store.validate_spec(token, now) is Err,
    ensures
        authorize_spec(users, store, token, now, require_admin) == Err::<Subject, AppError>(
            store.validate_spec(token, now)->Err_0,
        ),
{
}

/// What a successful login hands back: the authenticated user and the fresh
/// bearer token.
#[derive(Debug, Clone, PartialEq, Eq)]
pub struct LoginResponse {
    pub user: UserResponse,
    pub session_token: String,
}

/// Checks the supplied credentials and, when they match a user, issues a
/// session under a fresh random token. One undifferentiated error covers an
/// unknown name and a wrong secret alike; in the negligible event that the
/// drawn token collides with a live one, the login reports a conflict rather
/// than ever sharing a token.
pub fn login(
    users: &Vec<User>,
    store: &mut SessionStore,
    username: &str,
    password: &str,
    now: i64,
) -> (r: Result<LoginResponse, AppError>)
    requires
        old(store).wf(),
        now <= i64::MAX - SESSION_TTL_SECONDS,
    ensures
        final(store).wf(),
        login_check_spec(users@, username@, password@) is Err ==> r is Err && r->Err_0
            == AppError::Unauthenticated && final(store).sessions() == old(store).sessions(),
        r is Ok ==> {
            let j = login_check_spec(users@, username@, password@)->Ok_0;
            let resp = r->Ok_0;
            &&& login_check_spec(users@, username@, password@) is Ok
            &&& resp.user.id == users@[j].id
            &&& resp.user.username@ == users@[j].username@
            &&& resp.user.display_name@ == users@[j].display_name@
            &&& resp.user.role@ == role_label_spec(users@[j].role)
            &&& resp.user.role_label@ == role_display_spec(users@[j].role)
            &&& !has_token(old(store).sessions(), resp.session_token@)
            &&& final(store).sessions() == old(store).sessions().push(
                Session {
                    token: resp.session_token,
                    subject_id: users@[j].id,
                    issued_at: now,
                    expires_at: (now + SESSION_TTL_SECONDS) as i64,
                },
            )
        },
        r is Err ==> final(store).sessions() == old(store).sessions() && (r->Err_0
            == AppError::Unauthenticated || r->Err_0 == AppError::Conflict),
{
    let j = match login_check(users, username, password) {
        Ok(j) => j,
        Err(e) => {
            return Err(e);
        },
    };
    let token = match store.create(users[j].id, now) {
        Ok(t) => t,
        Err(e) => {
            return Err(e);
        },
    };
    Ok(LoginResponse { user: user_response(&users[j]), session_token: token })
}

} // verus!
