use session_auth::bootstrap::{bootstrap_insert_result, needs_default_user, validate_config, ConfigError, UserInsert};
use session_auth::credential::{check_credentials, hash_password, verify_password, HashError, UserLookup};
use session_auth::error::ApiError;
use session_auth::session::{issue_step, new_session, require_token, resolve_session, str_eq, IssueStep, Session, SessionInsert, SessionLookup, SESSION_TTL_SECS};
use session_auth::store::{authenticate, create_default_user, create_session, signin, BootstrapError, MemoryStore, SignInBody};
use session_auth::token::{create_session_id, session_token_from};
use std::collections::HashSet;

const NOW: i64 = 1_700_000_000;

fn body(u: &str, p: &str) -> SignInBody {
    SignInBody { username: u.to_string(), password: p.to_string() }
}

fn session(token: &str, expires_at: i64) -> Session {
    Session { user_id: 7, session_id: token.to_string(), created_at: 0, expires_at }
}

#[test]
fn test_session_id() {
    let session_id = create_session_id().unwrap();
    assert_eq!(session_id.len(), 256);
}

#[test]
fn tokens_are_lowercase_hex_and_unique() {
    let mut seen = HashSet::new();
    for _ in 0..2000 {
        let t = create_session_id().unwrap();
        assert_eq!(t.len(), 256);
        assert!(t.chars().all(|c| c.is_ascii_digit() || ('a'..='f').contains(&c)));
        assert!(seen.insert(t));
    }
}

#[test]
fn token_encoding_is_hex_of_the_bytes() {
    let bytes: Vec<u8> = (0..128u32).map(|i| (i * 2) as u8).collect();
    let t = session_token_from(&bytes);
    assert_eq!(t.len(), 256);
    assert!(t.starts_with("00020406080a0c0e10"));
    assert!(t.ends_with("fafcfe"));
}

#[test]
fn hashing_twice_differs_and_both_verify() {
    let a = hash_password("correct horse").unwrap();
    let b = hash_password("correct horse").unwrap();
    assert_ne!(a, b);
    assert!(a.starts_with("$argon2"));
    assert_eq!(verify_password(&a, "correct horse"), Ok(true));
    assert_eq!(verify_password(&b, "correct horse"), Ok(true));
}

#[test]
fn other_password_does_not_verify() {
    let a = hash_password("password-one").unwrap();
    assert_eq!(verify_password(&a, "password-two"), Ok(false));
    assert_eq!(verify_password(&a, ""), Ok(false));
}

#[test]
fn malformed_hash_is_a_recoverable_error() {
    assert_eq!(verify_password("not a hash", "whatever"), Err(HashError::Malformed));
    assert_eq!(verify_password("", "whatever"), Err(HashError::Malformed));
}

#[test]
fn config_rules() {
    assert_eq!(validate_config("", "longenough"), Err(ConfigError::EmptyUsername));
    assert_eq!(validate_config("admin", "short7!"), Err(ConfigError::ShortPassword));
    assert_eq!(validate_config("admin", "exactly8"), Ok(()));
    assert!(needs_default_user(0));
    assert!(!needs_default_user(3));
}

#[test]
fn bootstrap_twice_leaves_one_account() {
    let mut store = MemoryStore::new();
    assert_eq!(create_default_user(&mut store, "admin".to_string(), "hunter22".to_string(), NOW), Ok(()));
    assert_eq!(store.account_count(), 1);
    assert_eq!(create_default_user(&mut store, "other".to_string(), "hunter33".to_string(), NOW), Ok(()));
    assert_eq!(store.account_count(), 1);
}

#[test]
fn bootstrap_refuses_weak_credentials() {
    let mut store = MemoryStore::new();
    assert_eq!(
        create_default_user(&mut store, "admin".to_string(), "short".to_string(), NOW),
        Err(BootstrapError::Config(ConfigError::ShortPassword))
    );
    assert_eq!(
        create_default_user(&mut store, String::new(), "longenough".to_string(), NOW),
        Err(BootstrapError::Config(ConfigError::EmptyUsername))
    );
    assert_eq!(store.account_count(), 0);
}

#[test]
fn concurrent_bootstraps_converge() {
    let mut store = MemoryStore::new();
    assert!(needs_default_user(store.account_count()));
    assert!(needs_default_user(store.account_count()));
    let first = store.insert_user("admin".to_string(), "h1".to_string(), NOW);
    let second = store.insert_user("admin".to_string(), "h2".to_string(), NOW);
    assert_eq!(first, UserInsert::Inserted);
    assert_eq!(second, UserInsert::Conflict);
    assert_eq!(bootstrap_insert_result(first), Ok(()));
    assert_eq!(bootstrap_insert_result(second), Ok(()));
    assert_eq!(bootstrap_insert_result(UserInsert::Failed), Err(ApiError::Internal));
    assert_eq!(store.account_count(), 1);
}

#[test]
fn guard_rejects_missing_unknown_and_expired_alike() {
    let mut store = MemoryStore::new();
    let issued = create_session(&mut store, 42, NOW).unwrap();
    let none = authenticate(&store, None, NOW).err();
    let unknown = authenticate(&store, Some("f".repeat(256)), NOW).err();
    let expired = authenticate(&store, Some(issued.session_id.clone()), issued.expires_at).err();
    assert_eq!(none, Some(ApiError::Unauthorized));
    assert_eq!(unknown, none);
    assert_eq!(expired, none);
    let who = authenticate(&store, Some(issued.session_id.clone()), NOW).unwrap();
    assert_eq!(who.0.user_id, 42);
}

#[test]
fn issued_session_fields() {
    let mut store = MemoryStore::new();
    let s = create_session(&mut store, 9, NOW).unwrap();
    assert_eq!(s.user_id, 9);
    assert_eq!(s.created_at, NOW);
    assert_eq!(s.expires_at, NOW + 30 * 24 * 3600);
    assert_eq!(s.session_id.len(), 256);
    assert!(matches!(store.insert_session(session(&s.session_id, 5)), SessionInsert::DuplicateToken));
}

#[test]
fn resolve_session_cases() {
    let t = "abc";
    assert_eq!(resolve_session(t, SessionLookup::Missing, NOW).err(), Some(ApiError::Unauthorized));
    assert_eq!(resolve_session(t, SessionLookup::Failed, NOW).err(), Some(ApiError::Internal));
    assert_eq!(resolve_session(t, SessionLookup::Found(session(t, NOW)), NOW).err(), Some(ApiError::Unauthorized));
    assert_eq!(resolve_session(t, SessionLookup::Found(session("abd", NOW + 1)), NOW).err(), Some(ApiError::Unauthorized));
    assert_eq!(resolve_session(t, SessionLookup::Found(session(t, NOW + 1)), NOW).unwrap().0.user_id, 7);
    assert_eq!(require_token(None), Err(ApiError::Unauthorized));
    assert_eq!(require_token(Some("x".to_string())), Ok("x".to_string()));
}

#[test]
fn issue_step_retries_once() {
    assert!(matches!(issue_step(0, SessionInsert::DuplicateToken), IssueStep::Retry));
    assert!(matches!(issue_step(1, SessionInsert::DuplicateToken), IssueStep::Fail(ApiError::Internal)));
    assert!(matches!(issue_step(0, SessionInsert::Failed), IssueStep::Fail(ApiError::Internal)));
    assert!(matches!(issue_step(1, SessionInsert::Inserted(session("t", 1))), IssueStep::Done(_)));
}

#[test]
fn new_session_expiry_and_overflow() {
    let s = new_session(1, "t".to_string(), 100).unwrap();
    assert_eq!(s.expires_at, 100 + SESSION_TTL_SECS);
    assert_eq!(SESSION_TTL_SECS, 2_592_000);
    assert!(new_session(1, "t".to_string(), i64::MAX - SESSION_TTL_SECS + 1).is_none());
    assert!(new_session(1, "t".to_string(), i64::MAX - SESSION_TTL_SECS).is_some());
}

#[test]
fn signin_end_to_end() {
    let mut store = MemoryStore::new();
    create_default_user(&mut store, "admin".to_string(), "hunter22".to_string(), NOW).unwrap();
    let s = signin(&mut store, &body("admin", "hunter22"), NOW).unwrap();
    assert_eq!(s.session_id.len(), 256);
    assert_eq!(authenticate(&store, Some(s.session_id.clone()), NOW + 1).unwrap().0.user_id, 0);
    let mut mutated: Vec<char> = s.session_id.chars().collect();
    mutated[10] = if mutated[10] == 'a' { 'b' } else { 'a' };
    let mutated: String = mutated.into_iter().collect();
    assert_eq!(authenticate(&store, Some(mutated), NOW + 1).err(), Some(ApiError::Unauthorized));
    assert_eq!(signin(&mut store, &body("admin", "wrong-pass"), NOW).err(), Some(ApiError::Unauthorized));
    assert_eq!(signin(&mut store, &body("nobody", "hunter22"), NOW).err(), Some(ApiError::Unauthorized));
}

#[test]
fn signin_with_malformed_stored_hash_is_internal() {
    let mut store = MemoryStore::new();
    store.insert_user("admin".to_string(), "garbage".to_string(), NOW);
    assert_eq!(signin(&mut store, &body("admin", "hunter22"), NOW).err(), Some(ApiError::Internal));
}

#[test]
fn error_status_and_string_equality() {
    assert_eq!(ApiError::Unauthorized.status_code(), 401);
    assert_eq!(ApiError::Conflict.status_code(), 409);
    assert_eq!(ApiError::Internal.status_code(), 500);
    assert_eq!(ApiError::Unauthorized.message(), "Unauthorized");
    assert!(str_eq("héllo", "héllo"));
    assert!(!str_eq("hello", "hellp"));
    assert!(!str_eq("hell", "hello"));
}

#[test]
fn password_length_counts_utf8_bytes() {
    assert_eq!(validate_config("admin", "\u{e9}\u{e9}\u{e9}\u{e9}"), Ok(()));
    assert_eq!(validate_config("admin", "\u{e9}\u{e9}\u{e9}"), Err(ConfigError::ShortPassword));
    assert_eq!(validate_config("admin", "1234567"), Err(ConfigError::ShortPassword));
    let mut store = MemoryStore::new();
    assert_eq!(
        create_default_user(&mut store, "admin".to_string(), "1234567".to_string(), NOW),
        Err(BootstrapError::Config(ConfigError::ShortPassword))
    );
    assert_eq!(store.account_count(), 0);
}

#[test]
fn credential_check_outcomes() {
    let h = hash_password("hunter22").unwrap();
    assert_eq!(check_credentials(UserLookup::Found(5, h.clone()), "hunter22"), Ok(5));
    assert_eq!(check_credentials(UserLookup::Found(5, h), "hunter23"), Err(ApiError::Unauthorized));
    assert_eq!(check_credentials(UserLookup::Missing, "hunter22"), Err(ApiError::Unauthorized));
    assert_eq!(check_credentials(UserLookup::Failed, "hunter22"), Err(ApiError::Internal));
    assert_eq!(check_credentials(UserLookup::Found(5, "garbage".to_string()), "hunter22"), Err(ApiError::Internal));
}

#[test]
fn bootstrap_stores_a_hash_not_the_password() {
    let mut store = MemoryStore::new();
    create_default_user(&mut store, "admin".to_string(), "hunter22".to_string(), NOW).unwrap();
    assert_eq!(store.find_user("admin"), Some(0));
    assert_eq!(store.find_user("Admin"), None);
    assert_eq!(store.insert_user("admin".to_string(), "x".to_string(), NOW), UserInsert::Conflict);
    assert_eq!(store.account_count(), 1);
    let s = signin(&mut store, &body("admin", "hunter22"), NOW).unwrap();
    assert_eq!(s.user_id, 0);
}
