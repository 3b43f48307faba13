use bookmarks::apikeys::{create, APIKey, ApiKeyRecord, MalformedKeyId, Timestamp};
use bookmarks::principal::{User, UserInfo};
use bookmarks::sessions::{Session, SessionTable};
use rand::rngs::StdRng;
use rand::SeedableRng;

fn when() -> Timestamp {
    Timestamp { seconds: 1_700_000_000, nanos: 250, offset_seconds: -7200 }
}

fn table_with(id: &str, sub: &str) -> SessionTable {
    let userinfo = UserInfo {
        sub: Some(sub.to_string()),
        name: None,
        given_name: None,
        family_name: None,
        preferred_username: None,
        email: None,
        email_verified: false,
        picture: None,
    };
    let mut table = SessionTable::new();
    let session = Session {
        user: User::from_userinfo(&userinfo),
        access_token: "a".to_string(),
        id_token: "t".to_string(),
        userinfo,
    };
    assert!(table.put(id.to_string(), session));
    table
}

#[test]
fn record_carries_the_canonical_key_id() {
    let key = APIKey {
        id: 0x41414141414141414141414141414141,
        created_by: "u1".to_string(),
        key: "secret".to_string(),
        date_created: when(),
        deleted_at: None,
    };
    let record = key.into_der();
    assert_eq!(record.id, "21850M2GA1850M2GA1850M2GA1");
    assert_eq!(record.created_by, "u1");
    assert_eq!(record.key, "secret");
    assert_eq!(record.date_created, when());
    assert_eq!(record.deleted_at, None);
}

#[test]
fn record_of_a_key_reads_back_as_the_same_key() {
    let key = APIKey {
        id: 0x4d4e385051444a59454234335a413756,
        created_by: "u9".to_string(),
        key: "k".to_string(),
        date_created: when(),
        deleted_at: Some(when()),
    };
    let back = APIKey::from_inactive_der(key.clone().into_der()).expect("well-formed");
    assert_eq!(back.id, key.id);
    assert_eq!(back.created_by, key.created_by);
    assert_eq!(back.key, key.key);
    assert_eq!(back.date_created, key.date_created);
    assert_eq!(back.deleted_at, key.deleted_at);
}

#[test]
fn lower_case_key_id_is_accepted() {
    let record = ApiKeyRecord {
        id: "2d9rw50ma499cmaghm6dd42dtp".to_string(),
        created_by: "u1".to_string(),
        key: "k".to_string(),
        date_created: when(),
        deleted_at: None,
    };
    let key = APIKey::from_inactive_der(record).expect("well-formed");
    assert_eq!(key.id, 0x4d4e385051444a59454234335a413756);
}

#[test]
fn malformed_key_ids_are_refused() {
    for id in ["", "21850M2GA1850M2GA1850M2GA", "21850M2GA1850M2GA1850M2GAI", "21850M2GA1850M2GA1850M2GA1X"] {
        let record = ApiKeyRecord {
            id: id.to_string(),
            created_by: "u1".to_string(),
            key: "k".to_string(),
            date_created: when(),
            deleted_at: None,
        };
        assert!(matches!(APIKey::from_inactive_der(record), Err(MalformedKeyId)));
    }
}

#[test]
fn new_key_is_live_and_owned() {
    let key = APIKey::new("u1".to_string(), "secret".to_string(), when());
    assert_eq!(key.created_by, "u1");
    assert_eq!(key.key, "secret");
    assert_eq!(key.date_created, when());
    assert_eq!(key.deleted_at, None);
    let other = APIKey::new("u1".to_string(), "secret".to_string(), when());
    assert_ne!(key.id, other.id);
}

#[test]
fn listing_hides_the_owner() {
    let key = APIKey::new("u1".to_string(), "secret".to_string(), when());
    let id = key.id;
    let shown = key.without_owner();
    assert_eq!(shown.created_by, "");
    assert_eq!(shown.id, id);
    assert_eq!(shown.key, "secret");
}

#[test]
fn signed_in_caller_mints_a_key() {
    let table = table_with("sess-1", "u1");
    let mut rng = StdRng::seed_from_u64(11);
    let key = create(&table, &mut rng, Some("sess-1".to_string()), Some(when())).expect("minted");
    assert_eq!(key.created_by, "u1");
    assert_eq!(key.key.len(), 32);
    assert!(key.key.chars().all(|c| c.is_ascii_alphanumeric()));
    assert_eq!(key.date_created, when());
    assert_eq!(key.deleted_at, None);
    let again = create(&table, &mut rng, Some("sess-1".to_string()), Some(when())).expect("minted");
    assert_ne!(key.key, again.key);
}

#[test]
fn no_key_without_session_or_date() {
    let table = table_with("sess-1", "u1");
    let mut rng = StdRng::seed_from_u64(11);
    assert!(create(&table, &mut rng, None, Some(when())).is_none());
    assert!(create(&table, &mut rng, Some("other".to_string()), Some(when())).is_none());
    assert!(create(&table, &mut rng, Some("sess-1".to_string()), None).is_none());
}
