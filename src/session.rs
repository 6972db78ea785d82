use vstd::prelude::*;
use crate::error::ApiError;

verus! {

/// Lifetime of a session, in seconds: thirty days.
pub const SESSION_TTL_SECS: i64 = 2592000;

/// A session record: a token bound to an account, with its creation and
/// expiration times in seconds since the Unix epoch.
pub struct Session {
    pub user_id: u128,
    pub session_id: String,
    pub created_at: i64,
    pub expires_at: i64,
}

/// An account: identifier, username, password hash and creation time.
pub struct User {
    pub id: u128,
    pub username: String,
    pub password: String,
    pub created_at: i64,
}

/// The identity that the guard hands to an authenticated request.
pub struct UserSession(pub Session);

/// A session is active strictly before its expiration time.
pub open spec fn is_active(s: Session, now: i64) -> bool {
    now < s.expires_at
}

/// Builds the record of a session created at `now`; `None` where the
/// expiration time would not fit in an `i64`.
pub fn new_session(user_id: u128, session_id: String, now: i64) -> (r: Option<Session>)
    ensures
        (now <= i64::MAX - SESSION_TTL_SECS) == r.is_some(),
        r matches Some(s) ==> s.user_id == user_id && s.session_id@ == session_id@
            && s.created_at == now && s.expires_at == now + SESSION_TTL_SECS,
{
    if now > i64::MAX - SESSION_TTL_SECS {
        return None;
    }
    Some(Session { user_id, session_id, created_at: now, expires_at: now + SESSION_TTL_SECS })
}

/// What the store answered to a lookup of a session by its token.
pub enum SessionLookup {
    Found(Session),
    Missing,
    Failed,
}

/// The guard's answer, given the token (if any), the store's answer to its
/// lookup, and the time.
pub open spec fn guard_result(token: Option<Seq<char>>, lookup: SessionLookup, now: i64) -> Result<u128, ApiError> {
    match token {
        None => Err(ApiError::Unauthorized),
        Some(t) => match lookup {
            SessionLookup::Failed => Err(ApiError::Internal),
            SessionLookup::Missing => Err(ApiError::Unauthorized),
            SessionLookup::Found(s) => if s.session_id@ == t && is_active(s, now) {
                Ok(s.user_id)
            } else {
                Err(ApiError::Unauthorized)
            },
        },
    }
}

/// The token to look up, or `Unauthorized` when the request carries none.
pub fn require_token(token: Option<String>) -> (r: Result<String, ApiError>)
    ensures
        match token {
            None => r == Err::<String, ApiError>(ApiError::Unauthorized),
            Some(t) => r matches Ok(s) && s@ == t@,
        },
{
    match token {
        None => Err(ApiError::Unauthorized),
        Some(t) => Ok(t),
    }
}

/// Equality of two strings, character by character.
pub fn str_eq(a: &str, b: &str) -> (r: bool)
    ensures
        r == (a@ == b@),
{
    let n = a.unicode_len();
    if n != b.unicode_len() {
        return false;
    }
    let mut i: usize = 0;
    while i < n
        invariant
            n == a@.len(),
            n == b@.len(),
            i <= n,
            forall|j: int| 0 <= j < i ==> a@[j] == b@[j],
        decreases n - i,
    {
        if a.get_char(i) != b.get_char(i) {
            return false;
        }
        i += 1;
    }
    assert(a@ =~= b@);
    true
}

/// Decides a request from the store's answer for `token`: the session's
/// identity when it is found, matches the token and has not expired;
/// `Unauthorized` for an unknown or expired token; `Internal` when the store
/// failed. Nothing is written.
pub fn resolve_session(token: &str, lookup: SessionLookup, now: i64) -> (r: Result<UserSession, ApiError>)
    ensures
        match r {
            Ok(u) => guard_result(Some(token@), lookup, now) == Ok::<u128, ApiError>(u.0.user_id)
                && u.0 == lookup->Found_0,
            Err(e) => guard_result(Some(token@), lookup, now) == Err::<u128, ApiError>(e),
        },
{
    match lookup {
        SessionLookup::Failed => Err(ApiError::Internal),
        SessionLookup::Missing => Err(ApiError::Unauthorized),
        SessionLookup::Found(s) => {
            if str_eq(s.session_id.as_str(), token) && now < s.expires_at {
                Ok(UserSession(s))
            } else {
                Err(ApiError::Unauthorized)
            }
        },
    }
}

/// What the store answered to the insertion of a session.
pub enum SessionInsert {
    Inserted(Session),
    DuplicateToken,
    Failed,
}

/// The issuer's next move after an insertion attempt.
pub enum IssueStep {
    Done(Session),
    Retry,
    Fail(ApiError),
}

/// Decides after the `attempt`-th insertion (counting from zero): done on
/// success; one retry with a fresh token after a duplicate token; otherwise
/// an internal error.
pub fn issue_step(attempt: u32, outcome: SessionInsert) -> (r: IssueStep)
    ensures
        match outcome {
            SessionInsert::Inserted(s) => r == IssueStep::Done(s),
            SessionInsert::DuplicateToken => if attempt == 0 {
                r is Retry
            } else {
                r == IssueStep::Fail(ApiError::Internal)
            },
            SessionInsert::Failed => r == IssueStep::Fail(ApiError::Internal),
        },
{
    match outcome {
        SessionInsert::Inserted(s) => IssueStep::Done(s),
        SessionInsert::DuplicateToken => if attempt == 0 {
            IssueStep::Retry
        } else {
            IssueStep::Fail(ApiError::Internal)
        },
        SessionInsert::Failed => IssueStep::Fail(ApiError::Internal),
    }
}

/// No token, an unknown token and an expired token all give the same
/// `Unauthorized` answer.
pub proof fn unauthenticated_requests_look_alike(t: Seq<char>, s: Session, now: i64)
    requires
        s.session_id@ == t,
        !is_active(s, now),
    ensures
        guard_result(None, SessionLookup::Missing, now) == Err::<u128, ApiError>(ApiError::Unauthorized),
        guard_result(Some(t), SessionLookup::Missing, now) == guard_result(None, SessionLookup::Missing, now),
        guard_result(Some(t), SessionLookup::Found(s), now) == guard_result(None, SessionLookup::Missing, now),
{
}

} // verus!
