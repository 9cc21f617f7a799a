//! User identities, roles, and credential checking.

use vstd::prelude::*;
use crate::errors::AppError;

verus! {

/// The closed set of roles a subject can hold.
#[derive(Debug, Clone, Copy, PartialEq, Eq, Structural)]
pub enum UserRole {
    Admin,
    User,
}

/// The storage label of each role.
pub open spec fn role_label_spec(r: UserRole) -> Seq<char> {
    match r {
        UserRole::Admin => "admin"@,
        UserRole::User => "user"@,
    }
}

/// The role denoted by a storage label; anything but "admin" is a plain user.
pub open spec fn role_of_label_spec(s: Seq<char>) -> UserRole {
    if s == "admin"@ {
        UserRole::Admin
    } else {
        UserRole::User
    }
}

impl UserRole {
    /// The storage label of this role.
    pub fn label(&self) -> (r: String)
        ensures
            r@ == role_label_spec(*self),
    {
        match self {
            UserRole::Admin => "admin".to_owned(),
            UserRole::User => "user".to_owned(),
        }
    }

    /// Reads a role from its storage label; anything but "admin" is a plain
    /// user.
    pub fn from_label(s: &str) -> (r: UserRole)
        ensures
            r == role_of_label_spec(s@),
    {
        if crate::text::str_eq(s, "admin") {
            UserRole::Admin
        } else {
            UserRole::User
        }
    }
}

/// An authenticated identity as the store holds it.
#[derive(Debug, Clone, PartialEq, Eq)]
pub struct User {
    pub id: i64,
    pub username: String,
    pub password: String,
    pub display_name: String,
    pub role: UserRole,
}

/// What a caller asks for when creating a user.
#[derive(Debug, Clone, PartialEq, Eq)]
pub struct CreateUserInput {
    pub username: String,
    pub password: String,
    pub display_name: String,
    pub role: String,
}

/// Compares a supplied secret against the stored one. The comparison walks
/// every position of both strings so that an early mismatch does not return
/// faster than a late one.
pub fn verify_password(input: &str, stored: &str) -> (r: bool)
    ensures
        r == (input@ == stored@),
{
    let na = input.unicode_len();
    let nb = stored.unicode_len();
    let n = if na < nb {
        na
    } else {
        nb
    };
    let mut diff: u8 = if na != nb {
        1
    } else {
        0
    };
    let mut i: usize = 0;
    while i < n
        invariant
            na == input@.len(),
            nb == stored@.len(),
            n == if na < nb {
                na as int
            } else {
                nb as int
            },
            i <= n,
            (diff != 0) == (na != nb || exists|k: int| 0 <= k < i && input@[k] != stored@[k]),
        decreases n - i,
    {
        let ca = input.get_char(i);
        let cb = stored.get_char(i);
        let step: u8 = if ca != cb {
            1
        } else {
            0
        };
        let ghost old_diff = diff;
        diff = diff | step;
        proof {
            assert((diff != 0) == (old_diff != 0 || step != 0)) by (bit_vector)
                requires
                    diff == old_diff | step,
                    step == 0 || step == 1,
            ;
            if step != 0 {
                assert(input@[i as int] != stored@[i as int]);
            }
        }
        i = i + 1;
    }
    proof {
        if diff == 0 {
            assert(forall|k: int| 0 <= k < n ==> input@[k] == stored@[k]);
            assert(input@ =~= stored@);
        }
    }
    diff == 0
}

/// The index of the user with `username`, or -1.
pub open spec fn spec_find_user(users: Seq<User>, username: Seq<char>, i: int) -> int
    decreases users.len() - i,
{
    if i < 0 || i >= users.len() {
        -1
    } else if users[i].username@ == username {
        i
    } else {
        spec_find_user(users, username, i + 1)
    }
}

/// Whether some user carries `username`.
pub open spec fn username_taken_spec(users: Seq<User>, username: Seq<char>) -> bool {
    exists|i: int| 0 <= i < users.len() && users[i].username@ == username
}

pub proof fn lemma_find_user(users: Seq<User>, username: Seq<char>, i: int)
    requires
        0 <= i <= users.len(),
    ensures
        spec_find_user(users, username, i) >= 0 ==> {
            let j = spec_find_user(users, username, i);
            i <= j < users.len() && users[j].username@ == username
        },
        spec_find_user(users, username, i) < 0 ==> forall|k: int|
            i <= k < users.len() ==> users[k].username@ != username,
    decreases users.len() - i,
{
    if i < users.len() && users[i].username@ != username {
        lemma_find_user(users, username, i + 1);
    }
}

/// Finds the index of the user with `username`.
pub fn find_user(users: &Vec<User>, username: &str) -> (r: Option<usize>)
    ensures
        r is Some ==> r->Some_0 == spec_find_user(users@, username@, 0),
        r is Some <==> username_taken_spec(users@, username@),
    {
    let mut i: usize = 0;
    while i < users.len()
        invariant
            i <= users@.len(),
            spec_find_user(users@, username@, 0) == spec_find_user(users@, username@, i as int),
        decreases users@.len() - i,
    {
        if crate::text::str_eq(users[i].username.as_str(), username) {
            proof {
                lemma_find_user(users@, username@, 0);
            }
            return Some(i);
        }
        i = i + 1;
    }
    proof {
        lemma_find_user(users@, username@, 0);
    }
    None
}

/// Whether some user already carries `username`; duplicate identities are
/// rejected on create.
pub fn username_taken(users: &Vec<User>, username: &str) -> (r: bool)
    ensures
        r == username_taken_spec(users@, username@),
{
    find_user(users, username).is_some()
}

/// What `login_check` decides: the index of the user whose name and secret
/// both match, under one undifferentiated error otherwise so that a caller
/// cannot learn whether the name or the secret was wrong.
pub open spec fn login_check_spec(users: Seq<User>, username: Seq<char>, password: Seq<char>) -> Result<
    int,
    AppError,
> {
    let j = spec_find_user(users, username, 0);
    if j >= 0 && users[j].password@ == password {
        Ok(j)
    } else {
        Err(AppError::Unauthenticated)
    }
}

/// Checks a login attempt against the user directory. Succeeds exactly when
/// a user carries `username` and the supplied secret equals the stored one.
pub fn login_check(users: &Vec<User>, username: &str, password: &str) -> (r: Result<
    usize,
    AppError,
>)
    ensures
        r is Ok ==> login_check_spec(users@, username@, password@) == Ok::<int, AppError>(
            r->Ok_0 as int,
        )
            && r->Ok_0 < users@.len(),
        r is Err ==> login_check_spec(users@, username@, password@) == Err::<int, AppError>(
            r->Err_0,
        ),
{
    match find_user(users, username) {
        Some(j) => {
            proof {
                lemma_find_user(users@, username@, 0);
            }
            if verify_password(password, users[j].password.as_str()) {
                Ok(j)
            } else {
                Err(AppError::Unauthenticated)
            }
        },
        None => {
            proof {
                lemma_find_user(users@, username@, 0);
            }
            Err(AppError::Unauthenticated)
        },
    }
}

/// A user as shown to callers: everything but the secret.
#[derive(Debug, Clone, PartialEq, Eq)]
pub struct UserResponse {
    pub id: i64,
    pub username: String,
    pub display_name: String,
    pub role: String,
    pub role_label: String,
}

/// The display name of each role.
pub open spec fn role_display_spec(r: UserRole) -> Seq<char> {
    match r {
        UserRole::Admin => "管理员"@,
        UserRole::User => "普通用户"@,
    }
}

/// Renders a user for callers, leaving the secret behind.
pub fn user_response(u: &User) -> (r: UserResponse)
    ensures
        r.id == u.id,
        r.username@ == u.username@,
        r.display_name@ == u.display_name@,
        r.role@ == role_label_spec(u.role),
        r.role_label@ == role_display_spec(u.role),
{
    let role_label = match u.role {
        UserRole::Admin => "管理员".to_owned(),
        UserRole::User => "普通用户".to_owned(),
    };
    UserResponse {
        id: u.id,
        username: u.username.clone(),
        display_name: u.display_name.clone(),
        role: u.role.label(),
        role_label,
    }
}

/// Adds a user under the given row id. Succeeds exactly when the username is
/// still free; a duplicate identity is a conflict and leaves the directory
/// as it was.
pub fn create_user(users: &mut Vec<User>, id: i64, input: CreateUserInput) -> (r: Result<
    (),
    AppError,
>)
    ensures
        r is Ok <==> !username_taken_spec(old(users)@, input.username@),
        r is Ok ==> final(users)@ == old(users)@.push(
            User {
                id,
                username: input.username,
                password: input.password,
                display_name: input.display_name,
                role: role_of_label_spec(input.role@),
            },
        ),
        r is Err ==> final(users)@ == old(users)@ && r->Err_0 == AppError::Conflict,
{
    if username_taken(users, input.username.as_str()) {
        return Err(AppError::Conflict);
    }
    let role = UserRole::from_label(input.role.as_str());
    users.push(
        User {
            id,
            username: input.username,
            password: input.password,
            display_name: input.display_name,
            role,
        },
    );
    Ok(())
}

/// Whitespace as display-name trimming sees it.
pub open spec fn is_name_ws(c: char) -> bool {
    c == ' ' || c == '\t' || c == '\n' || c == '\r'
}

/// The first index at or after `i` holding no whitespace.
pub open spec fn first_non_ws(s: Seq<char>, i: int) -> int
    decreases s.len() - i,
{
    if 0 <= i < s.len() && is_name_ws(s[i]) {
        first_non_ws(s, i + 1)
    } else {
        i
    }
}

/// The index just past the last non-whitespace character before `j`.
pub open spec fn last_non_ws_end(s: Seq<char>, j: int) -> int
    decreases j,
{
    if 0 < j <= s.len() && is_name_ws(s[j - 1]) {
        last_non_ws_end(s, j - 1)
    } else {
        j
    }
}

/// The string with its surrounding whitespace removed.
pub open spec fn spec_trimmed(s: Seq<char>) -> Seq<char> {
    let a = first_non_ws(s, 0);
    if a == s.len() {
        Seq::empty()
    } else {
        s.subrange(a, last_non_ws_end(s, s.len() as int))
    }
}

proof fn lemma_first_non_ws_bounds(s: Seq<char>, i: int)
    requires
        0 <= i <= s.len(),
    ensures
        i <= first_non_ws(s, i) <= s.len(),
    decreases s.len() - i,
{
    if i < s.len() && is_name_ws(s[i]) {
        lemma_first_non_ws_bounds(s, i + 1);
    }
}

proof fn lemma_last_non_ws_bounds(s: Seq<char>, j: int)
    requires
        0 <= j <= s.len(),
    ensures
        0 <= last_non_ws_end(s, j) <= j,
    decreases j,
{
    if 0 < j && is_name_ws(s[j - 1]) {
        lemma_last_non_ws_bounds(s, j - 1);
    }
}

fn exec_is_ws(c: char) -> (r: bool)
    ensures
        r == is_name_ws(c),
{
    c == ' ' || c == '\t' || c == '\n' || c == '\r'
}

/// Removes surrounding whitespace (space, tab, newline, carriage return).
pub fn trim_name(s: &str) -> (r: String)
    ensures
        r@ == spec_trimmed(s@),
{
    let n = s.unicode_len();
    let mut a: usize = 0;
    while a < n && exec_is_ws(s.get_char(a))
        invariant
            a <= n,
            n == s@.len(),
            first_non_ws(s@, 0) == first_non_ws(s@, a as int),
        decreases n - a,
    {
        a = a + 1;
    }
    if a == n {
        proof {
            lemma_first_non_ws_bounds(s@, a as int);
        }
        return String::new();
    }
    let mut b: usize = n;
    while b > a && exec_is_ws(s.get_char(b - 1))
        invariant
            a < b <= n,
            n == s@.len(),
            a < n,
            first_non_ws(s@, 0) == a as int,
            !is_name_ws(s@[a as int]),
            last_non_ws_end(s@, n as int) == last_non_ws_end(s@, b as int),
        decreases b,
    {
        b = b - 1;
    }
    s.substring_char(a, b).to_owned()
}

/// Display names are capped at this many characters.
pub const MAX_DISPLAY_NAME_CHARS: usize = 50;

/// Changes a user's display name. The name is trimmed first; an empty or
/// over-long result is refused, an unknown user is not found, and on success
/// only that user's display name changes.
pub fn change_display_name(users: &mut Vec<User>, user_id: i64, new_display_name: &str) -> (r:
    Result<UserResponse, AppError>)
    ensures
        ({
            let t = spec_trimmed(new_display_name@);
            let j = crate::auth::spec_find_user_id(old(users)@, user_id, 0);
            &&& (r is Ok <==> t.len() > 0 && t.len() <= MAX_DISPLAY_NAME_CHARS && j >= 0)
            &&& (r is Ok ==> final(users)@ == old(users)@.update(
                j,
                User { display_name: final(users)@[j].display_name, ..old(users)@[j] },
            ) && final(users)@[j].display_name@ == t && r->Ok_0.id == old(users)@[j].id
                && r->Ok_0.display_name@ == t)
            &&& (r is Err ==> final(users)@ == old(users)@)
            &&& ((t.len() == 0 || t.len() > MAX_DISPLAY_NAME_CHARS) ==> r is Err && r->Err_0
                is ValidationError)
            &&& (t.len() > 0 && t.len() <= MAX_DISPLAY_NAME_CHARS && j < 0 ==> r == Err::<
                UserResponse,
                AppError,
            >(AppError::NotFound))
        }),
{
    let trimmed = trim_name(new_display_name);
    if trimmed.unicode_len() == 0 {
        return Err(AppError::ValidationError("display name must not be empty".to_owned()));
    }
    if trimmed.unicode_len() > MAX_DISPLAY_NAME_CHARS {
        return Err(AppError::ValidationError("display name is too long".to_owned()));
    }
    let j = match crate::auth::find_user_by_id(users, user_id) {
        Some(j) => j,
        None => {
            return Err(AppError::NotFound);
        },
    };
    let updated = User { display_name: trimmed, ..users[j].clone_user() };
    let resp = user_response(&updated);
    users.set(j, updated);
    Ok(resp)
}

impl User {
    /// A field-for-field copy.
    pub fn clone_user(&self) -> (r: User)
        ensures
            r == *self,
    {
        User {
            id: self.id,
            username: self.username.clone(),
            password: self.password.clone(),
            display_name: self.display_name.clone(),
            role: self.role,
        }
    }
}

/// Changes a user's secret. Succeeds exactly when the user exists and the
/// supplied current secret matches the stored one; only that user's secret
/// changes.
pub fn change_password(
    users: &mut Vec<User>,
    user_id: i64,
    current_password: &str,
    new_password: &str,
) -> (r: Result<(), AppError>)
    ensures
        ({
            let j = crate::auth::spec_find_user_id(old(users)@, user_id, 0);
            &&& (r is Ok <==> j >= 0 && old(users)@[j].password@ == current_password@)
            &&& (r is Ok ==> final(users)@ == old(users)@.update(
                j,
                User { password: final(users)@[j].password, ..old(users)@[j] },
            ) && final(users)@[j].password@ == new_password@)
            &&& (r is Err ==> final(users)@ == old(users)@ && r->Err_0
                == AppError::Unauthenticated || r->Err_0 == AppError::NotFound)
            &&& (j < 0 ==> r == Err::<(), AppError>(AppError::NotFound))
        }),
{
    let j = match crate::auth::find_user_by_id(users, user_id) {
        Some(j) => j,
        None => {
            return Err(AppError::NotFound);
        },
    };
    if !verify_password(current_password, users[j].password.as_str()) {
        return Err(AppError::Unauthenticated);
    }
    let updated = User { password: new_password.to_owned(), ..users[j].clone_user() };
    users.set(j, updated);
    Ok(())
}

/// Sets a user's secret without asking for the old one (an administrator's
/// reset). Succeeds exactly when the user exists; only that user's secret
/// changes.
pub fn reset_password(users: &mut Vec<User>, user_id: i64, new_password: &str) -> (r: Result<
    (),
    AppError,
>)
    ensures
        ({
            let j = crate::auth::spec_find_user_id(old(users)@, user_id, 0);
            &&& (r is Ok <==> j >= 0)
            &&& (r is Ok ==> final(users)@ == old(users)@.update(
                j,
                User { password: final(users)@[j].password, ..old(users)@[j] },
            ) && final(users)@[j].password@ == new_password@)
            &&& (r is Err ==> final(users)@ == old(users)@ && r->Err_0 == AppError::NotFound)
        }),
{
    let j = match crate::auth::find_user_by_id(users, user_id) {
        Some(j) => j,
        None => {
            return Err(AppError::NotFound);
        },
    };
    let updated = User { password: new_password.to_owned(), ..users[j].clone_user() };
    users.set(j, updated);
    Ok(())
}

/// Renders the whole directory for an administrator, each user without the
/// secret, in store order.
pub fn all_user_responses(users: &Vec<User>) -> (r: Vec<UserResponse>)
    ensures
        r@.len() == users@.len(),
        forall|k: int|
            #![trigger r@[k]]
            0 <= k < users@.len() ==> r@[k].id == users@[k].id && r@[k].username@
                == users@[k].username@ && r@[k].display_name@ == users@[k].display_name@
                && r@[k].role@ == role_label_spec(users@[k].role) && r@[k].role_label@
                == role_display_spec(users@[k].role),
{
    let mut r: Vec<UserResponse> = Vec::new();
    let mut i: usize = 0;
    while i < users.len()
        invariant
            i <= users@.len(),
            r@.len() == i,
            forall|k: int|
                #![trigger r@[k]]
                0 <= k < i ==> r@[k].id == users@[k].id && r@[k].username@ == users@[k].username@
                    && r@[k].display_name@ == users@[k].display_name@ && r@[k].role@
                    == role_label_spec(users@[k].role) && r@[k].role_label@ == role_display_spec(
                    users@[k].role,
                ),
        decreases users@.len() - i,
    {
        r.push(user_response(&users[i]));
        i = i + 1;
    }
    r
}

} // verus!
