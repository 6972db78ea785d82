use vstd::prelude::*;
use crate::bootstrap::{ConfigError, UserInsert, validate_config, needs_default_user, bootstrap_insert_result, config_check, insert_settles};
use crate::credential::{check_credentials, hash_password, is_hash_of, verify_result, HashError, UserLookup};
use crate::error::ApiError;
use crate::session::{require_token, Session, User, UserSession, SessionLookup, SessionInsert, IssueStep, is_active, new_session, resolve_session, issue_step, str_eq, SESSION_TTL_SECS};
use crate::token::{create_session_id, is_token};

verus! {

/// Two session records with the same fields.
pub open spec fn same_session(a: Session, b: Session) -> bool {
    a.user_id == b.user_id && a.session_id@ == b.session_id@ && a.created_at == b.created_at
        && a.expires_at == b.expires_at
}

/// An account store held in memory. Usernames are unique, and so are
/// session tokens.
pub struct MemoryStore {
    users: Vec<User>,
    sessions: Vec<Session>,
}

/// Why bootstrap did not complete.
#[derive(Debug, Clone, Copy, PartialEq, Eq, Structural)]
pub enum BootstrapError {
    /// The configured credentials are refused: the process must not start.
    Config(ConfigError),
    /// The store or the hash function failed.
    Api(ApiError),
}

/// What an insertion of `name` into a store holding `before` may leave.
pub open spec fn insert_user_post(before: Seq<Seq<char>>, name: Seq<char>, after: Seq<Seq<char>>, o: UserInsert) -> bool {
    if before.contains(name) {
        o == UserInsert::Conflict && after == before
    } else {
        (o == UserInsert::Inserted && after == before.push(name))
            || (o == UserInsert::Failed && after == before)
    }
}

/// What bootstrap with the configured credentials may leave, from the
/// usernames `before` to `after`.
pub open spec fn bootstrap_post(
    before: Seq<Seq<char>>,
    username: Seq<char>,
    password: Seq<char>,
    after: Seq<Seq<char>>,
    r: Result<(), BootstrapError>,
) -> bool {
    match config_check(username, password) {
        Err(e) => r == Err::<(), BootstrapError>(BootstrapError::Config(e)) && after == before,
        Ok(_) => if before.len() > 0 {
            r is Ok && after == before
        } else {
            (r is Ok && after == seq![username])
                || (r == Err::<(), BootstrapError>(BootstrapError::Api(ApiError::Internal)) && after == before)
        },
    }
}

impl MemoryStore {
    /// The usernames, in order of creation.
    pub open spec fn usernames(&self) -> Seq<Seq<char>> {
        self.users().map_values(|u: User| u.username@)
    }

    /// The accounts, in order of creation.
    pub closed spec fn users(&self) -> Seq<User> {
        self.users@
    }

    /// The session records, in order of creation.
    pub closed spec fn sessions(&self) -> Seq<Session> {
        self.sessions@
    }

    /// Usernames are unique, each account's id is its position, and session
    /// tokens are unique.
    pub open spec fn wf(&self) -> bool {
        &&& self.usernames().no_duplicates()
        &&& forall|i: int| 0 <= i < self.users().len() ==> (#[trigger] self.users()[i]).id == i as u128
        &&& forall|i: int, j: int| 0 <= i < j < self.sessions().len()
            ==> self.sessions()[i].session_id@ != self.sessions()[j].session_id@
    }

    /// The session whose token is `t`, if there is one.
    pub open spec fn session_for(&self, t: Seq<char>) -> Option<Session> {
        if exists|i: int| 0 <= i < self.sessions().len() && (#[trigger] self.sessions()[i]).session_id@ == t {
            Some(self.sessions()[choose|i: int| 0 <= i < self.sessions().len() && (#[trigger] self.sessions()[i]).session_id@ == t])
        } else {
            None
        }
    }

    /// What the guard answers for a request carrying `token` at `now`.
    pub open spec fn guard(&self, token: Option<Seq<char>>, now: i64) -> Result<u128, ApiError> {
        match token {
            None => Err(ApiError::Unauthorized),
            Some(t) => match self.session_for(t) {
                None => Err(ApiError::Unauthorized),
                Some(s) => if is_active(s, now) {
                    Ok(s.user_id)
                } else {
                    Err(ApiError::Unauthorized)
                },
            },
        }
    }

    pub fn new() -> (r: MemoryStore)
        ensures
            r.wf(),
            r.usernames().len() == 0,
            r.sessions().len() == 0,
    {
        let r = MemoryStore { users: Vec::new(), sessions: Vec::new() };
        assert(r.usernames() =~= Seq::<Seq<char>>::empty());
        r
    }

    /// The number of accounts.
    pub fn account_count(&self) -> (r: u64)
        ensures
            r == self.usernames().len(),
    {
        self.users.len() as u64
    }

    /// The position of the account named `username`, if any.
    pub fn find_user(&self, username: &str) -> (r: Option<usize>)
        ensures
            match r {
                Some(i) => i < self.users().len() && self.usernames()[i as int] == username@,
                None => !self.usernames().contains(username@),
            },
    {
        let mut i: usize = 0;
        while i < self.users.len()
            invariant
                i <= self.users@.len(),
                forall|j: int| 0 <= j < i ==> self.usernames()[j] != username@,
            decreases self.users@.len() - i,
        {
            if str_eq(self.users[i].username.as_str(), username) {
                return Some(i);
            }
            i += 1;
        }
        None
    }

    /// Inserts an account, refusing a username that is taken already.
    pub fn insert_user(&mut self, username: String, password: String, now: i64) -> (r: UserInsert)
        requires
            old(self).wf(),
        ensures
            final(self).wf(),
            final(self).sessions() == old(self).sessions(),
            insert_user_post(old(self).usernames(), username@, final(self).usernames(), r),
            r == UserInsert::Inserted ==> {
                let u = final(self).users().last();
                &&& final(self).users().len() == old(self).users().len() + 1
                &&& final(self).users().drop_last() == old(self).users()
                &&& u.username@ == username@
                &&& u.password@ == password@
                &&& u.created_at == now
                &&& u.id == old(self).users().len()
            },
            r != UserInsert::Inserted ==> final(self).users() == old(self).users(),
    {
        if self.find_user(username.as_str()).is_some() {
            return UserInsert::Conflict;
        }
        if self.users.len() as u64 >= u64::MAX {
            return UserInsert::Failed;
        }
        let id = self.users.len() as u128;
        let ghost before = self.usernames();
        let ghost before_users = self.users();
        self.users.push(User { id, username, password, created_at: now });
        assert(self.users().drop_last() =~= before_users);
        assert forall|k: int| 0 <= k < self.users().len() implies (#[trigger] self.users()[k]).id == k as u128 by {
            if k < before_users.len() {
                assert(self.users()[k] == before_users[k]);
            }
        }
        assert(self.usernames() =~= before.push(username@));
        assert(self.sessions() == old(self).sessions());
        UserInsert::Inserted
    }

    /// A copy of the session at position `i`.
    fn session_copy(&self, i: usize) -> (r: Session)
        requires
            i < self.sessions@.len(),
        ensures
            same_session(r, self.sessions()[i as int]),
    {
        let s = &self.sessions[i];
        Session { user_id: s.user_id, session_id: s.session_id.clone(), created_at: s.created_at, expires_at: s.expires_at }
    }

    /// Looks a session up by its token.
    pub fn fetch_session_id(&self, session_id: &str) -> (r: SessionLookup)
        requires
            self.wf(),
        ensures
            match self.session_for(session_id@) {
                Some(s) => r matches SessionLookup::Found(f) && same_session(f, s),
                None => r is Missing,
            },
    {
        let mut i: usize = 0;
        while i < self.sessions.len()
            invariant
                self.wf(),
                i <= self.sessions@.len(),
                forall|j: int| 0 <= j < i ==> (#[trigger] self.sessions()[j]).session_id@ != session_id@,
            decreases self.sessions@.len() - i,
        {
            if str_eq(self.sessions[i].session_id.as_str(), session_id) {
                proof {
                    assert(0 <= i < self.sessions().len() && (#[trigger] self.sessions()[i as int]).session_id@ == session_id@);
                    let k = choose|k: int| 0 <= k < self.sessions().len() && (#[trigger] self.sessions()[k]).session_id@ == session_id@;
                    assert(self.sessions()[i as int].session_id@ == session_id@);
                    if k != i as int {
                        if k < i as int {
                            assert(self.sessions@[k].session_id@ != self.sessions@[i as int].session_id@);
                        } else {
                            assert(self.sessions@[i as int].session_id@ != self.sessions@[k].session_id@);
                        }
                    }
                }
                return SessionLookup::Found(self.session_copy(i));
            }
            i += 1;
        }
        SessionLookup::Missing
    }

    /// Inserts a session, refusing a token that is taken already.
    pub fn insert_session(&mut self, session: Session) -> (r: SessionInsert)
        requires
            old(self).wf(),
        ensures
            final(self).wf(),
            final(self).users() == old(self).users(),
            final(self).usernames() == old(self).usernames(),
            match old(self).session_for(session.session_id@) {
                Some(_) => r is DuplicateToken && final(self).sessions() == old(self).sessions(),
                None => r matches SessionInsert::Inserted(s) && same_session(s, session)
                    && final(self).sessions() == old(self).sessions().push(session),
            },
    {
        match self.fetch_session_id(session.session_id.as_str()) {
            SessionLookup::Found(_) => SessionInsert::DuplicateToken,
            _ => {
                let copy = Session {
                    user_id: session.user_id,
                    session_id: session.session_id.clone(),
                    created_at: session.created_at,
                    expires_at: session.expires_at,
                };
                let ghost before = self.sessions();
                proof {
                    assert forall|j: int| 0 <= j < before.len() implies before[j].session_id@ != session.session_id@ by {
                        if before[j].session_id@ == session.session_id@ {
                            assert(exists|i: int| 0 <= i < before.len() && (#[trigger] before[i]).session_id@ == session.session_id@);
                        }
                    }
                }
                self.sessions.push(session);
                assert(self.usernames() =~= old(self).usernames());
                assert(self.sessions() =~= before.push(session));
                SessionInsert::Inserted(copy)
            },
        }
    }
}

/// The token of a request, as a sequence of characters.
pub open spec fn token_view(token: Option<String>) -> Option<Seq<char>> {
    match token {
        Some(t) => Some(t@),
        None => None,
    }
}

/// Creates the first account from the configured credentials, unless the
/// store already holds an account. Refuses weak credentials with a
/// `Config` error, which must stop the process. A username taken meanwhile
/// by a concurrent bootstrap counts as success.
pub fn create_default_user(store: &mut MemoryStore, username: String, password: String, now: i64) -> (r: Result<(), BootstrapError>)
    requires
        old(store).wf(),
    ensures
        final(store).wf(),
        final(store).sessions() == old(store).sessions(),
        bootstrap_post(old(store).usernames(), username@, password@, final(store).usernames(), r),
        (r is Ok && old(store).users().len() == 0) ==> {
            &&& final(store).users().len() == 1
            &&& final(store).users()[0].username@ == username@
            &&& is_hash_of(final(store).users()[0].password@, password@)
            &&& final(store).users()[0].id == 0
            &&& final(store).users()[0].created_at == now
        },
        !(r is Ok && old(store).users().len() == 0) ==> final(store).users() == old(store).users(),
{
    match validate_config(username.as_str(), password.as_str()) {
        Err(e) => {
            return Err(BootstrapError::Config(e));
        },
        Ok(()) => {},
    }
    if !needs_default_user(store.account_count()) {
        return Ok(());
    }
    let hash = match hash_password(password.as_str()) {
        Ok(h) => h,
        Err(e) => {
            return Err(BootstrapError::Api(e));
        },
    };
    let ghost before = store.usernames();
    let ghost name = username@;
    let outcome = store.insert_user(username, hash, now);
    assert(before.push(name) =~= seq![name]);
    match bootstrap_insert_result(outcome) {
        Ok(()) => Ok(()),
        Err(e) => Err(BootstrapError::Api(e)),
    }
}

/// Issues a session for an account: a fresh token, expiring
/// `SESSION_TTL_SECS` after `now`, stored and returned. A duplicate token is
/// retried once with a new one.
pub fn create_session(store: &mut MemoryStore, user_id: u128, now: i64) -> (r: Result<Session, ApiError>)
    requires
        old(store).wf(),
    ensures
        final(store).wf(),
        final(store).users() == old(store).users(),
        final(store).usernames() == old(store).usernames(),
        match r {
            Ok(s) => s.user_id == user_id && s.created_at == now && s.expires_at == now + SESSION_TTL_SECS
                && is_token(s.session_id@)
                && final(store).sessions().len() == old(store).sessions().len() + 1
                && final(store).sessions().drop_last() == old(store).sessions()
                && same_session(final(store).sessions().last(), s),
            Err(e) => e == ApiError::Internal && final(store).sessions() == old(store).sessions(),
        },
{
    let mut attempt: u32 = 0;
    loop
        invariant
            store.wf(),
            attempt <= 1,
            store.users() == old(store).users(),
            store.usernames() == old(store).usernames(),
            store.sessions() == old(store).sessions(),
        decreases 2 - attempt,
    {
        let token = match create_session_id() {
            Ok(t) => t,
            Err(e) => {
                return Err(e);
            },
        };
        let ghost t = token@;
        let session = match new_session(user_id, token, now) {
            Some(s) => s,
            None => {
                return Err(ApiError::Internal);
            },
        };
        let ghost before = store.sessions();
        let outcome = store.insert_session(session);
        match issue_step(attempt, outcome) {
            IssueStep::Done(s) => {
                assert(store.sessions().drop_last() =~= before);
                return Ok(s);
            },
            IssueStep::Retry => {
                attempt = 1;
            },
            IssueStep::Fail(e) => {
                return Err(e);
            },
        }
    }
}

/// The guard: the identity of the session that `token` names, when it
/// exists and has not expired; `Unauthorized` otherwise. Reads only.
pub fn authenticate(store: &MemoryStore, token: Option<String>, now: i64) -> (r: Result<UserSession, ApiError>)
    requires
        store.wf(),
    ensures
        match r {
            Ok(u) => store.guard(token_view(token), now) == Ok::<u128, ApiError>(u.0.user_id)
                && (token_view(token) matches Some(t) && (store.session_for(t) matches Some(s)
                && same_session(u.0, s))),
            Err(e) => store.guard(token_view(token), now) == Err::<u128, ApiError>(e),
        },
{
    let t = match require_token(token) {
        Err(e) => {
            return Err(e);
        },
        Ok(t) => t,
    };
    let lookup = store.fetch_session_id(t.as_str());
    resolve_session(t.as_str(), lookup, now)
}

/// The credentials of a sign-in request.
pub struct SignInBody {
    pub username: String,
    pub password: String,
}

/// Sign-in is refused: no account has the username, or its password does
/// not check against the stored hash.
pub open spec fn signin_refused(store: MemoryStore, username: Seq<char>, password: Seq<char>) -> bool {
    forall|i: int| 0 <= i < store.users().len() && (#[trigger] store.users()[i]).username@ == username
        ==> verify_result(store.users()[i].password@, password) == Ok::<bool, HashError>(false)
}

/// Signs in: checks the password against the account's stored hash and
/// issues a session. Every refusal is the same `Unauthorized`; a stored hash
/// that does not parse, or a failed issue, is `Internal`.
pub fn signin(store: &mut MemoryStore, body: &SignInBody, now: i64) -> (r: Result<Session, ApiError>)
    requires
        old(store).wf(),
    ensures
        final(store).wf(),
        final(store).usernames() == old(store).usernames(),
        final(store).users() == old(store).users(),
        (r == Err::<Session, ApiError>(ApiError::Unauthorized)) == signin_refused(*old(store), body.username@, body.password@),
        match r {
            Ok(s) => (exists|i: int| 0 <= i < old(store).users().len()
                    && (#[trigger] old(store).users()[i]).username@ == body.username@
                    && verify_result(old(store).users()[i].password@, body.password@) == Ok::<bool, HashError>(true)
                    && s.user_id == old(store).users()[i].id)
                && s.created_at == now && s.expires_at == now + SESSION_TTL_SECS
                && is_token(s.session_id@)
                && final(store).sessions().len() == old(store).sessions().len() + 1
                && final(store).sessions().drop_last() == old(store).sessions()
                && same_session(final(store).sessions().last(), s),
            Err(e) => (e == ApiError::Unauthorized || e == ApiError::Internal)
                && final(store).sessions() == old(store).sessions(),
        },
{
    let lookup = match store.find_user(body.username.as_str()) {
        Some(i) => {
            proof {
                assert(store.usernames()[i as int] == store.users()[i as int].username@);
                assert forall|j: int| 0 <= j < store.users().len() && (#[trigger] store.users()[j]).username@ == body.username@
                    implies j == i by {
                    assert(store.usernames()[j] == body.username@);
                }
            }
            UserLookup::Found(store.users[i].id, store.users[i].password.clone())
        },
        None => {
            proof {
                assert forall|j: int| 0 <= j < store.users().len() && (#[trigger] store.users()[j]).username@ == body.username@
                    implies false by {
                    assert(store.usernames()[j] == body.username@);
                }
            }
            UserLookup::Missing
        },
    };
    match check_credentials(lookup, body.password.as_str()) {
        Ok(id) => create_session(store, id, now),
        Err(e) => Err(e),
    }
}

/// Bootstrap run twice in sequence on an empty store leaves exactly one
/// account once the first run succeeded; on a store that holds an account it
/// changes nothing.
pub proof fn bootstrap_twice_leaves_one_account(
    s0: Seq<Seq<char>>,
    s1: Seq<Seq<char>>,
    s2: Seq<Seq<char>>,
    u1: Seq<char>,
    p1: Seq<char>,
    u2: Seq<char>,
    p2: Seq<char>,
    r1: Result<(), BootstrapError>,
    r2: Result<(), BootstrapError>,
)
    requires
        s0.len() == 0,
        config_check(u1, p1) is Ok,
        bootstrap_post(s0, u1, p1, s1, r1),
        r1 is Ok,
        bootstrap_post(s1, u2, p2, s2, r2),
    ensures
        s2.len() == 1,
        s2 == s1,
{
}

/// Bootstrap on a store that holds an account is a no-op.
pub proof fn bootstrap_on_nonempty_store_is_noop(
    before: Seq<Seq<char>>,
    after: Seq<Seq<char>>,
    u: Seq<char>,
    p: Seq<char>,
    r: Result<(), BootstrapError>,
)
    requires
        before.len() > 0,
        bootstrap_post(before, u, p, after, r),
    ensures
        after == before,
{
}

/// Two bootstraps that both saw an empty store and both insert the same
/// username converge on exactly one account, and both succeed: the second
/// insertion meets the uniqueness of usernames.
pub proof fn concurrent_bootstraps_converge(
    s0: Seq<Seq<char>>,
    s1: Seq<Seq<char>>,
    s2: Seq<Seq<char>>,
    u: Seq<char>,
    o1: UserInsert,
    o2: UserInsert,
)
    requires
        s0.len() == 0,
        insert_user_post(s0, u, s1, o1),
        insert_user_post(s1, u, s2, o2),
        o1 != UserInsert::Failed,
        o2 != UserInsert::Failed,
    ensures
        s2.len() == 1,
        insert_settles(o1) is Ok,
        insert_settles(o2) is Ok,
{
    assert(s1 =~= s0.push(u));
    assert(s1[0] == u);
    assert(s1.contains(u));
}

/// A session just issued for an account, used before it expires, makes the
/// guard answer with that account.
pub proof fn issued_session_is_recognised(store: MemoryStore, s: Session, now: i64)
    requires
        store.wf(),
        store.sessions().len() > 0,
        same_session(store.sessions().last(), s),
        now < s.expires_at,
    ensures
        store.guard(Some(s.session_id@), now) == Ok::<u128, ApiError>(s.user_id),
{
    let n = store.sessions().len() - 1;
    let t = s.session_id@;
    assert(0 <= n < store.sessions().len() && (#[trigger] store.sessions()[n]).session_id@ == t);
    let k = choose|i: int| 0 <= i < store.sessions().len() && (#[trigger] store.sessions()[i]).session_id@ == t;
    if k != n {
        assert(store.sessions@[k].session_id@ != store.sessions@[n].session_id@);
    }
}

/// A token that names no stored session, such as an issued token changed in
/// one character, is refused with `Unauthorized`.
pub proof fn unknown_token_is_refused(store: MemoryStore, t: Seq<char>, now: i64)
    requires
        forall|i: int| 0 <= i < store.sessions().len() ==> (#[trigger] store.sessions()[i]).session_id@ != t,
    ensures
        store.guard(Some(t), now) == Err::<u128, ApiError>(ApiError::Unauthorized),
{
}

} // verus!
