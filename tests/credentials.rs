use bookmarks::apikeys::{ApiKeyRecord, Timestamp};
use bookmarks::credentials::{
    require_api_key, require_session, user_from_session, valid_api_key, StoreFault,
};
use bookmarks::principal::{User, UserInfo};
use bookmarks::sessions::{Session, SessionTable};

const KEY_ID: &str = "21850M2GA1850M2GA1850M2GA1";

fn when() -> Timestamp {
    Timestamp { seconds: 1_650_000_000, nanos: 0, offset_seconds: 3600 }
}

fn record(key: &str) -> ApiKeyRecord {
    ApiKeyRecord {
        id: KEY_ID.to_string(),
        created_by: "u1".to_string(),
        key: key.to_string(),
        date_created: when(),
        deleted_at: None,
    }
}

fn table_with_alice() -> SessionTable {
    let userinfo = UserInfo {
        sub: Some("u1".to_string()),
        name: None,
        given_name: None,
        family_name: None,
        preferred_username: Some("alice".to_string()),
        email: None,
        email_verified: false,
        picture: None,
    };
    let mut table = SessionTable::new();
    let session = Session {
        user: User::from_userinfo(&userinfo),
        access_token: "a".to_string(),
        id_token: "t".to_string(),
        userinfo,
    };
    assert!(table.put("live-session".to_string(), session));
    table
}

#[test]
fn session_path_resolves_a_live_session() {
    let table = table_with_alice();
    let user = user_from_session(&table, "live-session".to_string()).expect("principal");
    assert_eq!(user.id, "u1");
    assert_eq!(user.login.as_deref(), Some("alice"));
}

#[test]
fn session_path_rejects_an_unknown_token() {
    let table = table_with_alice();
    assert!(user_from_session(&table, "wrong-key".to_string()).is_none());
    assert!(user_from_session(&table, String::new()).is_none());
}

#[test]
fn api_key_path_accepts_a_stored_key() {
    let key = valid_api_key("secret".to_string(), Ok(Some(record("secret")))).expect("valid");
    assert_eq!(key.id, 0x41414141414141414141414141414141);
    assert_eq!(key.created_by, "u1");
    assert_eq!(key.key, "secret");
    assert_eq!(key.date_created, when());
    assert_eq!(key.deleted_at, None);
}

#[test]
fn api_key_path_rejects_a_missing_key() {
    assert!(valid_api_key("wrong-key".to_string(), Ok(None)).is_none());
}

#[test]
fn api_key_path_fails_closed_on_a_store_fault() {
    assert!(valid_api_key("secret".to_string(), Err(StoreFault)).is_none());
}

#[test]
fn api_key_path_rejects_a_record_with_another_secret() {
    assert!(valid_api_key("wrong-key".to_string(), Ok(Some(record("secret")))).is_none());
}

#[test]
fn api_key_path_rejects_a_revoked_key() {
    let mut revoked = record("secret");
    revoked.deleted_at = Some(when());
    assert!(valid_api_key("secret".to_string(), Ok(Some(revoked))).is_none());
}

#[test]
fn api_key_path_rejects_a_malformed_record() {
    let mut broken = record("secret");
    broken.id = "not a key id".to_string();
    assert!(valid_api_key("secret".to_string(), Ok(Some(broken))).is_none());
}

#[test]
fn unknown_token_authenticates_on_neither_path() {
    let table = table_with_alice();
    assert!(user_from_session(&table, "wrong-key".to_string()).is_none());
    assert!(valid_api_key("wrong-key".to_string(), Ok(None)).is_none());
    assert!(valid_api_key("wrong-key".to_string(), Err(StoreFault)).is_none());
}

#[test]
fn api_request_with_wrong_key_is_refused_with_401() {
    let (status, body) = require_api_key("wrong-key".to_string(), Ok(None)).unwrap_err();
    assert_eq!(status, 401);
    assert_eq!(body.err, "api key is not valid");
}

#[test]
fn api_request_with_valid_key_yields_the_owner() {
    let owner = require_api_key("secret".to_string(), Ok(Some(record("secret")))).expect("owner");
    assert_eq!(owner, "u1");
}

#[test]
fn session_gate_refuses_unknown_sessions_with_401() {
    let table = table_with_alice();
    let (status, body) = require_session(&table, "nope".to_string()).unwrap_err();
    assert_eq!(status, 401);
    assert_eq!(body.err, "user is not signed in");
    let user = require_session(&table, "live-session".to_string()).expect("signed in");
    assert_eq!(user.id, "u1");
}
