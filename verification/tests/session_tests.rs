use meli_backend::auth::AuthSession;
use meli_backend::config::{AxumSessionConfig, CookieSameSite, SessionTimeouts};
use meli_backend::cookie::{
    choose_session_token, create_cookie, request_cookie_value, session_cookie_header, MAX_COOKIE_AGE_MILLIS,
};
use meli_backend::session::{AxumSession, CommitOutcome, LoadStart, IDENTITY_KEY, SESSION_ID_HEADER};
use meli_backend::session_data::{AxumSessionData, SessionValues};
use meli_backend::session_id::{SessionId, SessionIdType};
use meli_backend::session_store::{AxumSessionStore, MemoryStore};

const G: u128 = 0x550e8400_e29b_41d4_a716_446655440000;
const G_TEXT: &str = "550e8400-e29b-41d4-a716-446655440000";

fn timeouts() -> SessionTimeouts {
    SessionTimeouts::default_timeouts()
}

#[test]
fn uuid_text_round_trip() {
    let id = SessionId::empty_with_guid(G);
    assert_eq!(id.as_str(), format!("e+{}", G_TEXT));
    assert_eq!(id.get_session_guid(), G);
    let upper = SessionId::parse_or("c+550E8400-E29B-41D4-A716-446655440000", 7);
    assert_eq!(upper.get_session_guid(), G);
    let bad = SessionId::parse_or("c+not-a-uuid", 7);
    assert_eq!(bad.get_session_id_type(), SessionIdType::Empty);
    assert_eq!(bad.get_session_guid(), 7);
}

#[test]
fn session_id_keeps_valid_text() {
    let id = SessionId::parse_or("c+550e8400-e29b-41d4-a716-446655440000", 7);
    assert_eq!(id.as_str(), "c+550e8400-e29b-41d4-a716-446655440000");
    assert_eq!(id.get_session_id_type(), SessionIdType::Cached);
    assert_eq!(id.get_session_guid(), G);
}

#[test]
fn session_id_replaces_malformed_text() {
    let id = SessionId::parse_or("x+550e8400-e29b-41d4-a716-446655440000", G);
    assert_eq!(id.as_str(), "e+550e8400-e29b-41d4-a716-446655440000");
    assert_eq!(id.get_session_id_type(), SessionIdType::Empty);
    let id = SessionId::parse_or("c+garbage", G);
    assert_eq!(id.as_str(), "e+550e8400-e29b-41d4-a716-446655440000");
    let id = SessionId::parse_or("", G);
    assert_eq!(id.get_session_guid(), G);
    let random = SessionId::from("nonsense");
    assert_eq!(random.get_session_id_type(), SessionIdType::Empty);
    assert!(random.as_str().starts_with("e+"));
}

#[test]
fn change_to_cached_keeps_guid() {
    let mut id = SessionId::empty_with_guid(G);
    assert_eq!(id.get_session_id_type(), SessionIdType::Empty);
    id.change_session_id_cached_type();
    assert_eq!(id.as_str(), "c+550e8400-e29b-41d4-a716-446655440000");
    assert_eq!(id.get_session_id_type(), SessionIdType::Cached);
    assert_eq!(id.get_session_guid(), G);
    id.change_session_id_cached_type();
    assert_eq!(id.as_str(), "c+550e8400-e29b-41d4-a716-446655440000");
}

#[test]
fn init_session_id_is_empty_type() {
    let id = SessionId::init_session_id();
    assert_eq!(id.get_session_id_type(), SessionIdType::Empty);
    assert_eq!(id.as_str().len(), 38);
}

#[test]
fn session_values_read_after_write() {
    let mut v = SessionValues::new();
    assert_eq!(v.len(), 0);
    v.insert("a".to_string(), "1".to_string());
    v.insert("b".to_string(), "2".to_string());
    v.insert("a".to_string(), "3".to_string());
    assert_eq!(v.len(), 2);
    assert_eq!(v.get("a").map(|s| s.as_str()), Some("3"));
    assert_eq!(v.get("b").map(|s| s.as_str()), Some("2"));
    assert_eq!(v.get("c"), None);
    let c = v.clone();
    assert_eq!(c.get("a").map(|s| s.as_str()), Some("3"));
    assert_eq!(c.key_at(1).as_str(), "b");
    assert_eq!(c.value_at(0).as_str(), "3");
}

#[test]
fn session_data_init_values() {
    let d = AxumSessionData::init(G, 1_000, 600_000);
    assert_eq!(d.session_id, G);
    assert_eq!(d.user_id, None);
    assert_eq!(d.init_time, 1_000);
    assert_eq!(d.expiry_time, 601_000);
    assert_eq!(d.data.len(), 0);
}

#[test]
fn default_config_values() {
    let c = AxumSessionConfig::default();
    assert_eq!(c.timeouts.idle_timeout(), 300 * 86_400_000);
    assert_eq!(c.timeouts.memory_clear_timeout(), 600_000);
    assert_eq!(c.cookie_path, "/");
    assert!(c.cookie_http_only);
    assert!(!c.cookie_secure);
    assert!(c.cookie_domain.is_none());
    assert_eq!(c.cookie_same_site, CookieSameSite::Lax);
    assert!(c.key.is_none());
    assert!(SessionTimeouts::new(1, 2).is_some());
    assert!(SessionTimeouts::new(i64::MAX, 2).is_none());
}

#[test]
fn load_start_without_identifier_is_fresh() {
    match AxumSession::load_start(None, G, 5_000, timeouts()) {
        LoadStart::Ready(s) => {
            assert_eq!(s.session_id.as_str(), "e+550e8400-e29b-41d4-a716-446655440000");
            assert_eq!(s.session_data.expiry_time, 605_000);
            assert!(!s.is_modified);
        }
        LoadStart::Lookup(_) => panic!("expected a fresh session"),
    }
}

#[test]
fn load_start_empty_identifier_is_fresh() {
    match AxumSession::load_start(Some("e+00000000-0000-0000-0000-000000000001"), G, 5_000, timeouts()) {
        LoadStart::Ready(s) => assert_eq!(s.session_data.session_id, G),
        LoadStart::Lookup(_) => panic!("expected a fresh session"),
    }
}

#[test]
fn load_start_cached_identifier_is_looked_up() {
    match AxumSession::load_start(Some("c+550e8400-e29b-41d4-a716-446655440000"), 1, 5_000, timeouts()) {
        LoadStart::Lookup(id) => assert_eq!(id.get_session_guid(), G),
        LoadStart::Ready(_) => panic!("expected a lookup"),
    }
}

#[test]
fn anonymous_session_round_trip_through_memory() {
    let mut memory = MemoryStore::new();
    let mut s = AxumSession::new_anonymous(G, 10_000, timeouts());
    s.set_data("k".to_string(), "v".to_string());
    assert!(s.is_modified);
    assert_eq!(s.session_id.as_str(), "c+550e8400-e29b-41d4-a716-446655440000");
    match s.commit_at(&mut memory, 20_000) {
        CommitOutcome::StoredInMemory => {}
        _ => panic!("expected memory"),
    }
    assert!(!s.is_modified);
    assert_eq!(s.session_data.expiry_time, 620_000);
    let kept = memory.get(G).expect("kept");
    assert_eq!(kept.expiry_time, 620_000);
    let id = match AxumSession::load_start(Some(s.session_id.as_str()), 99, 30_000, timeouts()) {
        LoadStart::Lookup(id) => id,
        LoadStart::Ready(_) => panic!("expected a lookup"),
    };
    let back = AxumSession::load_lookup(&mut memory, id, None, 99, 30_000, timeouts());
    assert_eq!(back.session_id.as_str(), "c+550e8400-e29b-41d4-a716-446655440000");
    assert_eq!(back.get_data("k"), "v");
    assert!(!back.is_modified);
}

#[test]
fn expired_memory_session_is_replaced() {
    let mut memory = MemoryStore::new();
    let mut s = AxumSession::new_anonymous(G, 10_000, timeouts());
    s.set_data("k".to_string(), "v".to_string());
    s.commit_at(&mut memory, 20_000);
    let id = SessionId::parse_or("c+550e8400-e29b-41d4-a716-446655440000", 0);
    let back = AxumSession::load_lookup(&mut memory, id, None, 5, 700_000, timeouts());
    assert_eq!(back.session_data.session_id, 5);
    assert_eq!(back.try_get_data("k"), None);
}

#[test]
fn unknown_lookup_begins_kept_session() {
    let mut memory = MemoryStore::new();
    let id = SessionId::parse_or("c+550e8400-e29b-41d4-a716-446655440000", 0);
    let s = AxumSession::load_lookup(&mut memory, id, None, 5, 1_000, timeouts());
    assert_eq!(s.session_data.session_id, G);
    assert_eq!(s.session_data.expiry_time, 601_000);
    assert!(memory.get(G).is_some());
}

#[test]
fn clear_expired_drops_only_expired() {
    let mut memory = MemoryStore::new();
    let a = AxumSessionData::init(1, 0, 100);
    let b = AxumSessionData::init(2, 0, 1_000);
    memory.store(&a);
    memory.store(&b);
    memory.clear_expired_at(500);
    assert!(memory.get(1).is_none());
    assert!(memory.get(2).is_some());
}

#[test]
fn signed_in_session_goes_to_database() {
    let mut store = AxumSessionStore::new();
    let mut s = AxumSession::new_anonymous(G, 0, timeouts());
    AuthSession::sign_in_at(&mut s, 42, 3, 0);
    assert_eq!(s.get_logined_user_id(), Some(42));
    assert_eq!(s.session_id.as_str(), "c+550e8400-e29b-41d4-a716-446655440000");
    AuthSession::refresh_identity(&mut s, "{\"userId\":1}".to_string());
    assert_eq!(s.get_identity_str(), "{\"userId\":1}");
    assert_eq!(AuthSession::stored_identity(&s), Some("{\"userId\":1}"));
    match s.commit_at(&mut store.memory_store, 1_000) {
        CommitOutcome::NeedsDatabase(rec) => {
            assert_eq!(rec.user_id, 42);
            assert_eq!(rec.session_id, G);
            assert_eq!(rec.expiry_time, 1_000 + 300 * 86_400_000);
            assert_eq!(rec.data.get(IDENTITY_KEY).map(|x| x.as_str()), Some("{\"userId\":1}"));
        }
        _ => panic!("expected the database"),
    }
    assert!(s.is_modified);
    s.confirm_stored();
    assert!(!s.is_modified);
    assert!(store.memory_store.get(G).is_none());
}

#[test]
fn sign_in_over_existing_user_starts_new_session() {
    let mut s = AxumSession::new_anonymous(G, 0, timeouts());
    s.set_user_id(1);
    s.set_data("x".to_string(), "y".to_string());
    AuthSession::sign_in_at(&mut s, 2, 9, 50);
    assert_eq!(s.get_logined_user_id(), Some(2));
    assert_eq!(s.session_data.session_id, 9);
    assert_eq!(s.try_get_data("x"), None);
    assert_eq!(s.session_id.get_session_guid(), 9);
    assert_eq!(s.session_id.get_session_id_type(), SessionIdType::Cached);
}

#[test]
fn sign_out_clears_session() {
    let mut s = AxumSession::new_anonymous(G, 0, timeouts());
    s.set_user_id(1);
    AuthSession::sign_out_at(&mut s, 8, 100);
    assert_eq!(s.get_logined_user_id(), None);
    assert_eq!(s.session_id.get_session_id_type(), SessionIdType::Empty);
    assert_eq!(s.session_data.session_id, 8);
    assert!(!s.is_modified);
    AuthSession::sign_out(&mut s);
    assert_eq!(s.get_logined_user_id(), None);
    assert_eq!(AuthSession::stored_identity(&s), None);
}

#[test]
fn unchanged_session_commit_does_nothing() {
    let mut memory = MemoryStore::new();
    let mut s = AxumSession::new_anonymous(G, 0, timeouts());
    match s.commit_at(&mut memory, 10) {
        CommitOutcome::Unchanged => {}
        _ => panic!("expected no store"),
    }
    assert!(memory.get(G).is_none());
}

#[test]
fn expired_session_commit_keeps_expiry() {
    let mut memory = MemoryStore::new();
    let mut s = AxumSession::new_anonymous(G, 0, timeouts());
    s.set_data("a".to_string(), "b".to_string());
    s.commit_at(&mut memory, 700_000);
    assert_eq!(s.session_data.expiry_time, 600_000);
}

#[test]
fn database_data_wins_over_memory() {
    let mut memory = MemoryStore::new();
    let mut values = SessionValues::new();
    values.insert("k".to_string(), "db".to_string());
    let rec = meli_backend::session_data::SessionData {
        session_id: G,
        user_id: 7,
        init_time: 0,
        expiry_time: 10_000,
        data: values,
    };
    let d = memory.load_or_init(G, Some(rec), 5, timeouts());
    assert_eq!(d.user_id, Some(7));
    assert_eq!(d.data.get("k").map(|s| s.as_str()), Some("db"));
    assert!(memory.get(G).is_none());
}

#[test]
fn session_token_prefers_header() {
    assert_eq!(choose_session_token(Some("h".to_string()), Some("c".to_string())), Some("h".to_string()));
    assert_eq!(choose_session_token(None, Some("c".to_string())), Some("c".to_string()));
    assert_eq!(choose_session_token(None, None), None);
}

#[test]
fn session_cookie_attributes() {
    let mut c = AxumSessionConfig::default();
    c.cookie_domain = Some("127.0.0.1".to_string());
    let k = create_cookie(&c, SESSION_ID_HEADER, "e+x");
    assert_eq!(k.name, "X-SID");
    assert_eq!(k.value, "e+x");
    assert_eq!(k.path, "/");
    assert!(k.http_only);
    assert!(!k.secure);
    assert_eq!(k.same_site, CookieSameSite::Lax);
    assert_eq!(k.domain.as_deref(), Some("127.0.0.1"));
    assert_eq!(k.max_age_millis, MAX_COOKIE_AGE_MILLIS);
}

#[test]
fn store_with_config_keeps_sessions() {
    let mut store = AxumSessionStore::new();
    let a = AxumSessionData::init(1, 0, 100);
    store.memory_store.store(&a);
    let mut c = AxumSessionConfig::default();
    c.cookie_secure = true;
    store.with_config(c);
    assert!(store.config.cookie_secure);
    assert!(store.memory_store.get(1).is_some());
}

#[test]
fn load_begin_and_complete_now() {
    match AxumSession::load_begin(None, timeouts()) {
        LoadStart::Ready(s) => {
            assert_eq!(s.get_logined_user_id(), None);
            assert_eq!(s.session_id.get_session_id_type(), SessionIdType::Empty);
            assert!(!s.is_modified);
        }
        LoadStart::Lookup(_) => panic!("no identifier is never looked up"),
    }
    let id = match AxumSession::load_begin(Some("c+550e8400-e29b-41d4-a716-446655440000"), timeouts()) {
        LoadStart::Lookup(id) => id,
        LoadStart::Ready(_) => panic!("a cached identifier is looked up"),
    };
    let mut memory = MemoryStore::new();
    let s = AxumSession::load_complete(&mut memory, id, None, timeouts());
    assert_eq!(s.session_id.as_str(), "c+550e8400-e29b-41d4-a716-446655440000");
    assert_eq!(s.session_data.session_id, G);
    assert_eq!(memory.get(G).map(|d| d.session_id), Some(G));
}

#[test]
fn database_record_reads_back_as_committed_data() {
    let mut memory = MemoryStore::new();
    let mut s = AxumSession::new_anonymous(G, 0, timeouts());
    AuthSession::sign_in_at(&mut s, 42, 3, 0);
    s.set_data("k".to_string(), "v".to_string());
    let record = match s.commit_at(&mut memory, 1_000) {
        CommitOutcome::NeedsDatabase(rec) => rec,
        _ => panic!("expected the database"),
    };
    let id = match AxumSession::load_start(Some(s.session_id.as_str()), 5, 2_000, timeouts()) {
        LoadStart::Lookup(id) => id,
        LoadStart::Ready(_) => panic!("a signed-in identifier is looked up"),
    };
    let back = AxumSession::load_lookup(&mut memory, id, Some(record), 5, 2_000, timeouts());
    assert_eq!(back.get_logined_user_id(), Some(42));
    assert_eq!(back.session_data.session_id, G);
    assert_eq!(back.session_data.expiry_time, s.session_data.expiry_time);
    assert_eq!(back.try_get_data("k").map(|v| v.as_str()), Some("v"));
    assert!(memory.get(G).is_none());
}

#[test]
fn signed_out_session_has_no_user_or_entries() {
    let mut s = AxumSession::new_anonymous(G, 0, timeouts());
    s.set_user_id(7);
    s.set_data("k".to_string(), "v".to_string());
    AuthSession::sign_out_at(&mut s, 11, 20);
    assert_eq!(s.get_logined_user_id(), None);
    assert_eq!(s.try_get_data("k"), None);
    assert_eq!(s.session_data.data.len(), 0);
    assert!(s.session_id.as_str().starts_with("e+"));
}

#[test]
fn request_cookie_takes_last_of_name() {
    let headers = vec!["a=1; X-SID=c+abc; b=2".to_string()];
    assert_eq!(request_cookie_value(&headers, "X-SID", &None), Some("c+abc".to_string()));
    let twice = vec!["X-SID=one".to_string(), "x=0;X-SID=two".to_string()];
    assert_eq!(request_cookie_value(&twice, "X-SID", &None), Some("two".to_string()));
    assert_eq!(request_cookie_value(&vec!["a=1".to_string()], "X-SID", &None), None);
    assert_eq!(request_cookie_value(&vec![], "X-SID", &None), None);
    let encoded = vec!["X-SID=c%2Babc".to_string()];
    assert_eq!(request_cookie_value(&encoded, "X-SID", &None), Some("c+abc".to_string()));
}

fn first_piece(text: &str) -> String {
    text.split(';').next().unwrap().to_string()
}

#[test]
fn plain_session_cookie_reads_back() {
    let config = AxumSessionConfig::default();
    let text = session_cookie_header(&config, SESSION_ID_HEADER, "c+550e8400-e29b-41d4-a716-446655440000").unwrap();
    assert!(text.starts_with("X-SID="));
    assert!(text.contains("HttpOnly"));
    assert!(text.contains("Path=/"));
    assert!(text.contains("SameSite=Lax"));
    let back = request_cookie_value(&vec![first_piece(&text)], SESSION_ID_HEADER, &None);
    assert_eq!(back, Some("c+550e8400-e29b-41d4-a716-446655440000".to_string()));
}

#[test]
fn private_session_cookie_reads_back() {
    let mut config = AxumSessionConfig::default();
    let key: Vec<u8> = (0..64).collect();
    config.key = Some(key.clone());
    let text = session_cookie_header(&config, SESSION_ID_HEADER, "c+abc").unwrap();
    assert!(!text.contains("c+abc"));
    let piece = first_piece(&text);
    assert_eq!(request_cookie_value(&vec![piece.clone()], SESSION_ID_HEADER, &Some(key)), Some("c+abc".to_string()));
    let other: Vec<u8> = (1..65).collect();
    assert_eq!(request_cookie_value(&vec![piece], SESSION_ID_HEADER, &Some(other)), None);
    config.key = Some(vec![1, 2, 3]);
    assert_eq!(session_cookie_header(&config, SESSION_ID_HEADER, "c+abc"), None);
}

#[test]
fn commit_and_sign_in_now() {
    let mut store = AxumSessionStore::new();
    let mut s = match AxumSession::load_begin(None, timeouts()) {
        LoadStart::Ready(s) => s,
        LoadStart::Lookup(_) => panic!("no identifier is never looked up"),
    };
    let guid = s.session_data.session_id;
    s.set_data("k".to_string(), "v".to_string());
    match s.commit(&mut store.memory_store) {
        CommitOutcome::StoredInMemory => {}
        _ => panic!("an anonymous session is kept in memory"),
    }
    assert!(!s.is_modified);
    assert_eq!(store.memory_store.get(guid).map(|d| d.expiry_time), Some(s.session_data.expiry_time));
    store.memory_store.clear_expired();
    assert!(store.memory_store.get(guid).is_some());
    AuthSession::sign_in(&mut s, 5);
    assert_eq!(s.get_logined_user_id(), Some(5));
    assert!(s.session_id.as_str().starts_with("c+"));
    assert_eq!(s.try_get_data("k").map(|v| v.as_str()), Some("v"));
    match s.commit(&mut store.memory_store) {
        CommitOutcome::NeedsDatabase(rec) => assert_eq!(rec.user_id, 5),
        _ => panic!("a signed-in session goes to the database"),
    }
}

#[test]
fn config_description_hides_key() {
    let mut config = AxumSessionConfig::default();
    assert_eq!(
        config.describe(),
        "AxumSessionConfig { idle_timeout: TimeDelta { secs: 25920000, nanos: 0 }, memory_clear_timeout: TimeDelta { secs: 600, nanos: 0 }, cookie_domain: None, cookie_http_only: true, cookie_path: \"/\", cookie_same_site: Lax, cookie_secure: false, key: \"key hidden\" }"
    );
    config.key = Some(vec![7; 64]);
    config.cookie_domain = Some("a\"b".to_string());
    config.timeouts = SessionTimeouts::new(-1_500, 1_234).unwrap();
    let text = config.describe();
    assert!(text.contains("cookie_domain: Some(\"a\\\"b\")"));
    assert!(text.contains("idle_timeout: TimeDelta { secs: -2, nanos: 500000000 }"));
    assert!(text.contains("memory_clear_timeout: TimeDelta { secs: 1, nanos: 234000000 }"));
    assert!(text.ends_with("key: \"key hidden\" }"));
    assert!(!text.contains("7, 7"));
}

#[test]
fn decimal_texts() {
    assert_eq!(meli_backend::text::decimal_text(0), "0");
    assert_eq!(meli_backend::text::decimal_text(-120), "-120");
    assert_eq!(meli_backend::text::decimal_text(i64::MIN), "-9223372036854775808");
    assert_eq!(meli_backend::text::decimal_text(i64::MAX), "9223372036854775807");
}
