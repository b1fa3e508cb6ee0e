use taco_chat::bearer::{bearer_header, bearer_token};
use chrono::Utc;
use taco_chat::clock::MAX_TIMESTAMP;
use taco_chat::requests::Session;
use taco_chat::session::{
    check_session, get_session_expiry, session_expiry, AuthError, AuthorizationHeader,
    SessionAuthority, SessionCheck, SessionRecord, MILLIS_PER_DAY, SESSION_DURATION_DAYS,
};

const TEN_DAYS: i64 = 864_000_000;

fn record(expires_at: i64) -> SessionRecord {
    SessionRecord {
        session_id: "tok".to_string(),
        user_id: "alice".to_string(),
        expires_at,
    }
}

#[test]
fn session_lives_ten_days() {
    assert_eq!(SESSION_DURATION_DAYS, 10);
    assert_eq!(MILLIS_PER_DAY, 86_400_000);
    assert_eq!(session_expiry(0), TEN_DAYS);
    assert_eq!(session_expiry(1_700_000_000_000), 1_700_864_000_000);
    assert_eq!(session_expiry(MAX_TIMESTAMP), MAX_TIMESTAMP + TEN_DAYS);
}

#[test]
fn get_session_expiry_is_ten_days_from_now() {
    let before = Utc::now().timestamp_millis();
    let expiry = get_session_expiry();
    let after = Utc::now().timestamp_millis();
    assert!(before + TEN_DAYS <= expiry);
    assert!(expiry <= after + TEN_DAYS);
}

#[test]
fn session_expiry_is_an_instant_of_the_calendar() {
    let expiry = get_session_expiry();
    assert!(expiry > 1_600_000_000_000);
    assert!(expiry <= MAX_TIMESTAMP + TEN_DAYS);
}

#[test]
fn check_session_unknown() {
    assert_eq!(check_session(None, 5), SessionCheck::Unknown);
}

#[test]
fn check_session_expired() {
    assert_eq!(check_session(Some(&record(99)), 100), SessionCheck::Expired);
}

#[test]
fn check_session_renews_up_to_and_including_the_expiry_instant() {
    let renewed = SessionCheck::Renewed { user_id: "alice".to_string(), expires_at: 100 + TEN_DAYS };
    assert_eq!(check_session(Some(&record(100)), 100), renewed);
    assert_eq!(check_session(Some(&record(5_000)), 100), renewed);
}

#[test]
fn open_session_binds_an_id_once() {
    let mut authority = SessionAuthority::new();
    assert_eq!(authority.len(), 0);
    assert!(authority.open_session("tok".to_string(), "alice".to_string(), 1_000));
    assert_eq!(authority.expires_at(&"tok".to_string()), Some(1_000 + TEN_DAYS));
    assert!(!authority.open_session("tok".to_string(), "mallory".to_string(), 2_000));
    assert_eq!(authority.len(), 1);
    assert_eq!(authority.expires_at(&"tok".to_string()), Some(1_000 + TEN_DAYS));
    assert_eq!(authority.validate_and_renew_at(&"tok".to_string(), 2_000), Some("alice".to_string()));
}

#[test]
fn create_session_issues_distinct_ids_that_live_ten_days() {
    let mut authority = SessionAuthority::new();
    let before = Utc::now().timestamp_millis();
    let first = authority.create_session("alice".to_string()).unwrap();
    let second = authority.create_session("alice".to_string()).unwrap();
    let after = Utc::now().timestamp_millis();
    assert_ne!(first, second);
    assert!(!first.is_empty());
    assert_eq!(authority.len(), 2);
    let expiry = authority.expires_at(&first).unwrap();
    assert!(before + TEN_DAYS <= expiry && expiry <= after + TEN_DAYS);
    assert_eq!(authority.validate_and_renew_at(&second, after), Some("alice".to_string()));
}

#[test]
fn sessions_are_checked_against_the_clock() {
    let mut authority = SessionAuthority::new();
    let now = Utc::now().timestamp_millis();
    authority.open_session("fresh".to_string(), "alice".to_string(), now - 1_000);
    authority.open_session("stale".to_string(), "bob".to_string(), now - TEN_DAYS - 1_000);
    assert_eq!(authority.validate_and_renew(&"stale".to_string()), None);
    assert_eq!(authority.expires_at(&"stale".to_string()), None);
    assert_eq!(authority.validate_and_renew(&"fresh".to_string()), Some("alice".to_string()));
    let renewed = authority.expires_at(&"fresh".to_string()).unwrap();
    assert!(renewed >= now + TEN_DAYS);
    assert_eq!(
        authority.authenticate(AuthorizationHeader::Value("Bearer fresh".to_string())),
        Ok(Session { session_id: "fresh".to_string(), user_id: "alice".to_string() })
    );
    assert_eq!(
        authority.authenticate(AuthorizationHeader::Value("Bearer stale".to_string())),
        Err(AuthError::InvalidSession)
    );
    assert_eq!(authority.authenticate(AuthorizationHeader::Missing), Err(AuthError::MissingHeader));
}

#[test]
fn validate_renews_on_every_use() {
    let mut authority = SessionAuthority::new();
    let id = "tok".to_string();
    authority.open_session(id.clone(), "alice".to_string(), 0);
    assert_eq!(authority.validate_and_renew_at(&id, 1_000), Some("alice".to_string()));
    assert_eq!(authority.expires_at(&id), Some(1_000 + TEN_DAYS));
    assert_eq!(authority.validate_and_renew_at(&id, 1_000 + TEN_DAYS), Some("alice".to_string()));
    assert_eq!(authority.expires_at(&id), Some(1_000 + 2 * TEN_DAYS));
}

#[test]
fn expired_session_is_deleted_and_never_valid_again() {
    let mut authority = SessionAuthority::new();
    let id = "tok".to_string();
    authority.open_session(id.clone(), "alice".to_string(), 0);
    assert_eq!(authority.validate_and_renew_at(&id, TEN_DAYS + 1), None);
    assert_eq!(authority.expires_at(&id), None);
    assert_eq!(authority.len(), 0);
    assert_eq!(authority.validate_and_renew_at(&id, TEN_DAYS + 2), None);
    assert_eq!(authority.validate_and_renew_at(&id, 0), None);
    assert_eq!(authority.validate_and_renew_at(&id, 5), None);
}

#[test]
fn expiry_of_one_session_leaves_the_others() {
    let mut authority = SessionAuthority::new();
    authority.open_session("old".to_string(), "alice".to_string(), 0);
    authority.open_session("new".to_string(), "bob".to_string(), TEN_DAYS);
    assert_eq!(authority.validate_and_renew_at(&"old".to_string(), TEN_DAYS + 1), None);
    assert_eq!(authority.len(), 1);
    assert_eq!(authority.validate_and_renew_at(&"new".to_string(), TEN_DAYS + 1), Some("bob".to_string()));
}

#[test]
fn unknown_session_is_invalid() {
    let mut authority = SessionAuthority::new();
    authority.open_session("tok".to_string(), "alice".to_string(), 0);
    assert_eq!(authority.validate_and_renew_at(&"other".to_string(), 1), None);
    assert_eq!(authority.validate_and_renew_at(&"".to_string(), 1), None);
    assert_eq!(authority.len(), 1);
    assert_eq!(authority.expires_at(&"tok".to_string()), Some(TEN_DAYS));
}

#[test]
fn destroy_session_is_idempotent() {
    let mut authority = SessionAuthority::new();
    authority.open_session("a".to_string(), "alice".to_string(), 0);
    authority.open_session("b".to_string(), "bob".to_string(), 0);
    authority.destroy_session(&"a".to_string());
    assert_eq!(authority.len(), 1);
    authority.destroy_session(&"a".to_string());
    authority.destroy_session(&"never".to_string());
    assert_eq!(authority.len(), 1);
    assert_eq!(authority.validate_and_renew_at(&"a".to_string(), 1), None);
    assert_eq!(authority.validate_and_renew_at(&"b".to_string(), 1), Some("bob".to_string()));
}

#[test]
fn authenticate_rejects_a_missing_header() {
    let mut authority = SessionAuthority::new();
    assert_eq!(authority.authenticate_at(AuthorizationHeader::Missing, 0), Err(AuthError::MissingHeader));
}

#[test]
fn authenticate_rejects_an_unreadable_header() {
    let mut authority = SessionAuthority::new();
    assert_eq!(
        authority.authenticate_at(AuthorizationHeader::Unreadable, 0),
        Err(AuthError::InvalidCharacters)
    );
}

#[test]
fn authenticate_rejects_other_schemes() {
    let mut authority = SessionAuthority::new();
    authority.open_session("tok".to_string(), "alice".to_string(), 0);
    for value in ["tok", "Basic tok", "bearer tok", "Bearer", "Bearertok", " Bearer tok", ""] {
        assert_eq!(
            authority.authenticate_at(AuthorizationHeader::Value(value.to_string()), 1),
            Err(AuthError::NotBearer),
            "{value:?}"
        );
    }
    assert_eq!(authority.expires_at(&"tok".to_string()), Some(TEN_DAYS));
}

#[test]
fn authenticate_rejects_unknown_and_expired_sessions() {
    let mut authority = SessionAuthority::new();
    authority.open_session("tok".to_string(), "alice".to_string(), 0);
    assert_eq!(
        authority.authenticate_at(AuthorizationHeader::Value("Bearer nope".to_string()), 1),
        Err(AuthError::InvalidSession)
    );
    assert_eq!(
        authority.authenticate_at(AuthorizationHeader::Value("Bearer ".to_string()), 1),
        Err(AuthError::InvalidSession)
    );
    assert_eq!(
        authority.authenticate_at(AuthorizationHeader::Value("Bearer tok".to_string()), TEN_DAYS + 1),
        Err(AuthError::InvalidSession)
    );
    assert_eq!(authority.len(), 0);
}

#[test]
fn authenticate_lets_a_good_session_in_and_renews_it() {
    let mut authority = SessionAuthority::new();
    authority.open_session("tok".to_string(), "alice".to_string(), 0);
    assert_eq!(
        authority.authenticate_at(AuthorizationHeader::Value("Bearer tok".to_string()), 500),
        Ok(Session { session_id: "tok".to_string(), user_id: "alice".to_string() })
    );
    assert_eq!(authority.expires_at(&"tok".to_string()), Some(500 + TEN_DAYS));
}

#[test]
fn bearer_header_and_token_round_trip() {
    assert_eq!(bearer_header(&"tok".to_string()), "Bearer tok");
    assert_eq!(bearer_header(&"".to_string()), "Bearer ");
    for id in ["tok", "", "with space", "Bearer x", "ключ"] {
        assert_eq!(bearer_token(&bearer_header(&id.to_string())), Some(id.to_string()));
    }
}

#[test]
fn bearer_token_takes_everything_after_the_first_space() {
    assert_eq!(bearer_token(&"Bearer a b".to_string()), Some("a b".to_string()));
    assert_eq!(bearer_token(&"Bearer  a".to_string()), Some(" a".to_string()));
    assert_eq!(bearer_token(&"Bearer".to_string()), None);
    assert_eq!(bearer_token(&"Token a".to_string()), None);
    assert_eq!(bearer_token(&"BEARER a".to_string()), None);
}
