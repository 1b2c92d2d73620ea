use rjss::auth::config::{AuthConfig, AuthEnv, SameSite};
use rjss::auth::cookies::{
    create_removal_cookie, create_session_cookie, max_age_secs_of, parse_session_id_from_cookie,
};
use rjss::auth::error::{auth_error_to_code, map_error_code, AuthError};
use rjss::auth::manager::AuthManager;
use rjss::auth::manager::login_after_create;
use rjss::auth::session::{
    create_session, create_session_at, deadlines_fit_at, destroy_session, expired_session_deleted,
    generate_session_id, is_expired, session_loaded, session_saved, validate_session,
    validate_session_at,
    LoadStep, MAX_INSTANT,
};
use rjss::auth::store::{ExternalSessionStore, HardcodedUserProvider, MemorySessionStore};
use rjss::auth::types::{
    Credentials, HttpResponse, SessionId, SessionInfo, SessionStore, UserInfo, UserProvider,
};
use std::cell::RefCell;
use std::collections::HashSet;
use std::rc::Rc;

fn json(text: &str) -> serde_json::Value {
    serde_json::from_str(text).unwrap()
}

fn test_config() -> AuthConfig {
    AuthConfig::builder()
        .cookie_name("sid".into())
        .session_lifetime(3600 * SEC)
        .build()
        .unwrap()
}

fn test_user_info() -> UserInfo {
    UserInfo {
        user_id: "user123".into(),
        extra: json("{}"),
    }
}

struct MockUserProvider {
    result: Result<UserInfo, AuthError>,
}

impl UserProvider for MockUserProvider {
    fn authenticate(&self, _: &Credentials) -> Result<UserInfo, AuthError> {
        match &self.result {
            Ok(u) => Ok(u.duplicate()),
            Err(e) => Err(e.duplicate()),
        }
    }
    fn get_user_by_id(&self, _: &str) -> Result<Option<UserInfo>, AuthError> {
        Ok(None)
    }
}

/// A store whose operations each answer as configured and that records what it was asked.
#[derive(Default)]
struct MockStore {
    save_error: Option<String>,
    load_result: Option<SessionInfo>,
    load_error: Option<String>,
    delete_error: Option<String>,
    saved: Rc<RefCell<Vec<(String, SessionInfo)>>>,
    deleted: Rc<RefCell<Vec<String>>>,
}

impl SessionStore for MockStore {
    fn save(&mut self, id: &SessionId, info: &SessionInfo) -> Result<(), AuthError> {
        if let Some(m) = &self.save_error {
            return Err(AuthError::Internal(m.clone()));
        }
        self.saved.borrow_mut().push((id.to_string(), info.duplicate()));
        Ok(())
    }
    fn load(&self, _: &SessionId) -> Result<Option<SessionInfo>, AuthError> {
        if let Some(m) = &self.load_error {
            return Err(AuthError::Internal(m.clone()));
        }
        Ok(self.load_result.as_ref().map(|i| i.duplicate()))
    }
    fn delete(&mut self, id: &SessionId) -> Result<(), AuthError> {
        self.deleted.borrow_mut().push(id.to_string());
        if let Some(m) = &self.delete_error {
            return Err(AuthError::Internal(m.clone()));
        }
        Ok(())
    }
    fn cleanup(&mut self) -> Result<(), AuthError> {
        Ok(())
    }
}

fn manager(store: MockStore) -> AuthManager<MockUserProvider, MockStore> {
    AuthManager::new(
        test_config(),
        MockUserProvider {
            result: Ok(test_user_info()),
        },
        store,
    )
}

const SEC: i128 = 1_000_000_000;
const NOW: i128 = 1_700_000_000 * SEC;

#[test]
fn test_generate_session_id_length_and_uniqueness() {
    let mut set = HashSet::new();
    for _ in 0..100 {
        let id = generate_session_id();
        assert_eq!(id.as_str().len(), 32);
        assert!(id.as_str().chars().all(|c| c.is_ascii_alphanumeric()));
        set.insert(id.to_string());
    }
    assert_eq!(set.len(), 100);
}

#[test]
fn test_create_session_success() {
    let saved = Rc::new(RefCell::new(Vec::new()));
    let mut store = MockStore {
        saved: saved.clone(),
        ..Default::default()
    };
    let user = UserInfo {
        user_id: "user1".into(),
        extra: json(r#"{"role":"admin"}"#),
    };
    let id = SessionId::new("abc".into());
    let info = create_session_at(&mut store, &test_config(), &user, &id, NOW).unwrap();
    assert_eq!(saved.borrow()[0].0, "abc");
    assert_eq!(info.user_id, "user1");
    assert_eq!(info.data, json(r#"{"role":"admin"}"#));
    assert_eq!(info.issued_at, NOW);
    assert!(info.expires_at > info.issued_at);
    assert!(info.idle_deadline.is_none());
    assert_eq!(info.expires_at, NOW + 3600 * SEC);
}

#[test]
fn test_create_session_with_idle_timeout() {
    let mut cfg = test_config();
    cfg.session_idle_timeout_nanos = Some(15 * 60 * SEC);
    let saved = Rc::new(RefCell::new(Vec::new()));
    let mut store = MockStore {
        saved: saved.clone(),
        ..Default::default()
    };
    let id = SessionId::new("idle".into());
    create_session_at(&mut store, &cfg, &test_user_info(), &id, NOW).unwrap();
    let info = &saved.borrow()[0].1;
    assert_eq!(info.idle_deadline, Some(NOW + (15 * 60) * SEC));
}

#[test]
fn test_create_session_store_error() {
    let mut store = MockStore {
        save_error: Some("db error".into()),
        ..Default::default()
    };
    let id = SessionId::new("x".into());
    let err = create_session_at(&mut store, &test_config(), &test_user_info(), &id, NOW).unwrap_err();
    assert!(matches!(err, AuthError::Internal(m) if m.contains("db error")));
}

fn stored(issued: i128, expires: i128, idle: Option<i128>) -> SessionInfo {
    SessionInfo {
        user_id: "user123".into(),
        data: json("{}"),
        issued_at: issued,
        expires_at: expires,
        idle_deadline: idle,
    }
}

#[test]
fn test_validate_session_valid() {
    let mut store = MockStore {
        load_result: Some(stored(NOW - 300 * SEC, NOW + 3600 * SEC, None)),
        ..Default::default()
    };
    let result = validate_session_at(&mut store, &SessionId::new("valid".into()), NOW).unwrap();
    assert_eq!(result.user_id, "user123");
}

#[test]
fn test_validate_session_expired_by_lifetime() {
    let deleted = Rc::new(RefCell::new(Vec::new()));
    let mut store = MockStore {
        load_result: Some(stored(NOW - 7200 * SEC, NOW - 3600 * SEC, None)),
        deleted: deleted.clone(),
        ..Default::default()
    };
    let err = validate_session_at(&mut store, &SessionId::new("exp".into()), NOW).unwrap_err();
    assert!(matches!(err, AuthError::SessionExpired));
    assert_eq!(deleted.borrow().as_slice(), ["exp".to_string()]);
}

#[test]
fn test_validate_session_expired_by_idle() {
    let deleted = Rc::new(RefCell::new(Vec::new()));
    let mut store = MockStore {
        load_result: Some(stored(NOW - 3600 * SEC, NOW + 3600 * SEC, Some(NOW - 60 * SEC))),
        deleted: deleted.clone(),
        ..Default::default()
    };
    let err = validate_session_at(&mut store, &SessionId::new("idle".into()), NOW).unwrap_err();
    assert!(matches!(err, AuthError::SessionExpired));
    assert_eq!(deleted.borrow().len(), 1);
}

#[test]
fn test_validate_session_not_found() {
    let mut store = MockStore::default();
    let err = validate_session_at(&mut store, &SessionId::new("ghost".into()), NOW).unwrap_err();
    assert!(matches!(err, AuthError::SessionNotFound));
}

#[test]
fn test_validate_session_load_error() {
    let mut store = MockStore {
        load_error: Some("load fail".into()),
        ..Default::default()
    };
    let err = validate_session_at(&mut store, &SessionId::new("err".into()), NOW).unwrap_err();
    assert!(matches!(err, AuthError::Internal(msg) if msg == "load fail"));
}

#[test]
fn test_destroy_session_success() {
    let deleted = Rc::new(RefCell::new(Vec::new()));
    let mut store = MockStore {
        deleted: deleted.clone(),
        ..Default::default()
    };
    let sid = SessionId::new("kill".into());
    destroy_session(&mut store, &sid).unwrap();
    assert_eq!(deleted.borrow().as_slice(), ["kill".to_string()]);
}

#[test]
fn test_destroy_session_error() {
    let mut store = MockStore {
        delete_error: Some("del fail".into()),
        ..Default::default()
    };
    let err = destroy_session(&mut store, &SessionId::new("bad".into())).unwrap_err();
    assert!(matches!(err, AuthError::Internal(_)));
}

#[test]
fn test_login_empty_username() {
    let mut mgr = manager(MockStore::default());
    let err = mgr
        .login(Credentials {
            username: "  ".into(),
            password: "p".into(),
        })
        .unwrap_err();
    assert!(matches!(err, AuthError::InvalidCredentials));
}

#[test]
fn test_login_empty_password() {
    let mut mgr = manager(MockStore::default());
    let err = mgr
        .login(Credentials {
            username: "u".into(),
            password: "".into(),
        })
        .unwrap_err();
    assert!(matches!(err, AuthError::InvalidCredentials));
}

#[test]
fn test_login_user_provider_error() {
    let mut mgr = AuthManager::new(
        test_config(),
        MockUserProvider {
            result: Err(AuthError::InvalidCredentials),
        },
        MockStore::default(),
    );
    let err = mgr
        .login(Credentials {
            username: "u".into(),
            password: "p".into(),
        })
        .unwrap_err();
    assert!(matches!(err, AuthError::InvalidCredentials));
}

#[test]
fn test_login_session_creation_error() {
    let mut mgr = manager(MockStore {
        save_error: Some("db save fail".into()),
        ..Default::default()
    });
    let err = mgr
        .login(Credentials {
            username: "u".into(),
            password: "p".into(),
        })
        .unwrap_err();
    assert!(matches!(err, AuthError::Internal(m) if m.contains("session creation failed")));
}

#[test]
fn test_login_success_response() {
    let mut mgr = manager(MockStore::default());
    let resp = mgr
        .login(Credentials {
            username: "u".into(),
            password: "p".into(),
        })
        .unwrap();
    assert_eq!(resp.status, 200);
    let body: serde_json::Value = serde_json::from_str(&resp.body).unwrap();
    assert_eq!(body["status"], "success");
    assert_eq!(body["user_id"], "user123");
    assert!(resp
        .headers
        .iter()
        .any(|(k, v)| k == "Set-Cookie" && v.starts_with("sid=")));
}

#[test]
fn test_logout_with_session_id() {
    let deleted = Rc::new(RefCell::new(Vec::new()));
    let mut mgr = manager(MockStore {
        deleted: deleted.clone(),
        ..Default::default()
    });
    let sid = SessionId::new("session1".into());
    let resp = mgr.logout(Some(&sid)).unwrap();
    assert_eq!(resp.status, 200);
    assert!(resp.body.contains("logged_out"));
    assert!(resp.headers.iter().any(|(_, v)| v.contains("sid=;")));
    assert_eq!(deleted.borrow().first().unwrap(), sid.as_str());
}

#[test]
fn test_logout_without_session_id_no_delete() {
    let deleted = Rc::new(RefCell::new(Vec::new()));
    let mut mgr = manager(MockStore {
        deleted: deleted.clone(),
        ..Default::default()
    });
    let resp = mgr.logout(None).unwrap();
    assert!(deleted.borrow().is_empty());
    assert!(resp.headers.iter().any(|(_, v)| v.contains("sid=;")));
}

#[test]
fn test_logout_with_redirect() {
    let mut cfg = test_config();
    cfg.logout_redirect_url = Some("/bye".into());
    let mut mgr = AuthManager::new(
        cfg,
        MockUserProvider {
            result: Ok(test_user_info()),
        },
        MockStore::default(),
    );
    let resp = mgr.logout(Some(&SessionId::new("x".into()))).unwrap();
    assert_eq!(resp.status, 302);
    assert!(resp.headers.iter().any(|(k, v)| k == "Location" && v == "/bye"));
}

#[test]
fn test_logout_destroy_error_still_succeeds() {
    let mut mgr = manager(MockStore {
        delete_error: Some("no".into()),
        ..Default::default()
    });
    let resp = mgr.logout(Some(&SessionId::new("fail".into()))).unwrap();
    assert_eq!(resp.status, 200);
}

#[test]
fn test_parse_session_id_found() {
    let cfg = test_config();
    let id = parse_session_id_from_cookie("sid=abc123; other=val", &cfg).unwrap();
    assert_eq!(id.as_str(), "abc123");
}

#[test]
fn test_parse_session_id_with_whitespace() {
    let cfg = test_config();
    let id = parse_session_id_from_cookie(" sid = xyz ", &cfg).unwrap();
    assert_eq!(id.as_str(), "xyz");
}

#[test]
fn test_parse_session_id_not_found() {
    let cfg = test_config();
    assert!(parse_session_id_from_cookie("other=val", &cfg).is_none());
}

#[test]
fn test_parse_session_id_no_equals() {
    let cfg = test_config();
    assert!(parse_session_id_from_cookie("sid", &cfg).is_none());
}

#[test]
fn test_create_removal_cookie() {
    let cfg = test_config();
    let cookie = create_removal_cookie(&cfg);
    assert_eq!(cookie.name, "sid");
    assert_eq!(cookie.value, "");
    assert_eq!(cookie.max_age_secs, 0);
    assert_eq!(cookie.path, "/");
}

#[test]
fn test_create_session_cookie_domain_and_attributes() {
    let mut cfg = test_config();
    cfg.cookie_domain = Some("example.org".into());
    let cookie = create_session_cookie(&SessionId::new("id".into()), &cfg);
    assert_eq!(cookie.domain.as_deref().unwrap(), "example.org");
    assert!(cookie.http_only);
    assert!(cookie.secure);
}

#[test]
fn test_default_config() {
    let cfg = AuthConfig::default();
    assert_eq!(cfg.cookie_name, "sid");
    assert_eq!(cfg.cookie_path, "/");
    assert!(cfg.cookie_domain.is_none());
    assert!(cfg.cookie_secure);
    assert!(cfg.cookie_http_only);
    assert_eq!(cfg.cookie_same_site, SameSite::Lax);
    assert_eq!(cfg.session_lifetime_nanos, 24 * 3600 * SEC);
    assert!(cfg.session_idle_timeout_nanos.is_none());
    assert!(cfg.login_url.is_none());
    assert!(cfg.logout_redirect_url.is_none());
}

#[test]
fn test_builder_all_fields() {
    let cfg = AuthConfig::builder()
        .cookie_name("my_sid".into())
        .cookie_path("/app".into())
        .cookie_domain("example.com".into())
        .cookie_secure(false)
        .cookie_http_only(false)
        .cookie_same_site(SameSite::Strict)
        .session_lifetime(30 * 60 * SEC)
        .session_idle_timeout(5 * 60 * SEC)
        .login_url("/login".into())
        .logout_redirect_url("/bye".into())
        .build()
        .expect("valid config");

    assert_eq!(cfg.cookie_name, "my_sid");
    assert_eq!(cfg.cookie_path, "/app");
    assert_eq!(cfg.cookie_domain.as_deref(), Some("example.com"));
    assert!(!cfg.cookie_secure);
    assert!(!cfg.cookie_http_only);
    assert_eq!(cfg.cookie_same_site, SameSite::Strict);
    assert_eq!(cfg.session_lifetime_nanos, 30 * 60 * SEC);
    assert_eq!(cfg.session_idle_timeout_nanos, Some(5 * 60 * SEC));
    assert_eq!(cfg.login_url.as_deref(), Some("/login"));
    assert_eq!(cfg.logout_redirect_url.as_deref(), Some("/bye"));
}

#[test]
fn test_builder_validation_lifetime_zero() {
    let err = AuthConfig::builder().session_lifetime(0).build().unwrap_err();
    assert!(matches!(err, AuthError::Config(ref msg) if msg.contains("positive")));
}

#[test]
fn test_builder_validation_cookie_name_empty() {
    let err = AuthConfig::builder().cookie_name("".into()).build().unwrap_err();
    assert!(matches!(err, AuthError::Config(ref msg) if msg.contains("cookie_name")));
}

#[test]
fn test_builder_partial_overrides() {
    let cfg = AuthConfig::builder()
        .cookie_name("custom".into())
        .session_lifetime(10 * 60 * SEC)
        .build()
        .unwrap();
    assert_eq!(cfg.cookie_name, "custom");
    assert_eq!(cfg.cookie_path, "/");
    assert_eq!(cfg.session_lifetime_nanos, 10 * 60 * SEC);
}

#[test]
fn test_builder_edge_case_lifetime_one_second() {
    let cfg = AuthConfig::builder().session_lifetime(1 * SEC).build().unwrap();
    assert_eq!(cfg.session_lifetime_nanos, 1 * SEC);
}

#[test]
fn test_all_re_exports_accessible() {
    let _ = AuthConfig::default();
    let _ = SameSite::Lax;
    let _ = AuthError::InvalidCredentials;
    let _ = SessionId::new("test".into());
    let _ = Credentials {
        username: "u".into(),
        password: "p".into(),
    };
    let _ = UserInfo {
        user_id: "1".into(),
        extra: json("{}"),
    };
    let _ = SessionInfo {
        user_id: "1".into(),
        data: json("{}"),
        issued_at: NOW,
        expires_at: NOW,
        idle_deadline: None,
    };
    let _ = HttpResponse::new(200, "".into());
    let _ = MemorySessionStore::new();
}

#[test]
fn test_memory_session_store_implements_trait() {
    fn _assert_store<S: SessionStore>() {}
    _assert_store::<MemorySessionStore>();
}

#[test]
fn test_auth_error_is_send_sync() {
    fn _assert_send_sync<T: Send + Sync>() {}
    _assert_send_sync::<AuthError>();
}

// ---------------------------------------------------------------- further cases

#[test]
fn error_codes_round_trip() {
    for code in 1..=7 {
        assert_eq!(auth_error_to_code(&map_error_code(code)), code);
    }
    assert!(matches!(map_error_code(0), AuthError::Internal(m) if m == "unknown callback error"));
    assert!(matches!(map_error_code(42), AuthError::Internal(_)));
    assert!(matches!(map_error_code(3), AuthError::AccountLocked { until } if until == "unknown"));
}

#[test]
fn error_texts_statuses_and_bodies() {
    let e = AuthError::Config("bad".into());
    assert_eq!(e.to_string(), "configuration error: bad");
    assert_eq!(e.status_code(), 500);
    assert_eq!(AuthError::InvalidCredentials.status_code(), 401);
    assert_eq!(
        AuthError::AccountLocked {
            until: "noon".into()
        }
        .status_code(),
        403
    );
    assert_eq!(
        AuthError::AccountLocked {
            until: "noon".into()
        }
        .to_string(),
        "account locked until noon"
    );
    assert_eq!(AuthError::SessionExpired.to_json_body(), "{\"error\":\"session expired\"}");
    assert_eq!(
        AuthError::Internal("secret detail".into()).to_json_body(),
        "{\"error\":\"internal server error\"}"
    );
    assert_eq!(
        AuthError::Serialization("a\"b".into()).to_json_body(),
        "{\"error\":\"serialization error: a\\\"b\"}"
    );
}

#[test]
fn session_cookie_text_matches_cookie_crate_layout() {
    let cfg = test_config();
    let cookie = create_session_cookie(&SessionId::new("abc".into()), &cfg);
    assert_eq!(
        cookie.to_string(),
        "sid=abc; HttpOnly; SameSite=Lax; Secure; Path=/; Max-Age=3600"
    );
    let removal = create_removal_cookie(&cfg);
    assert_eq!(
        removal.to_string(),
        "sid=; HttpOnly; SameSite=Lax; Secure; Path=/; Max-Age=0"
    );
}

#[test]
fn cookie_written_at_login_is_read_back() {
    let mut mgr = manager(MockStore::default());
    let resp = mgr
        .login(Credentials {
            username: "u".into(),
            password: "p".into(),
        })
        .unwrap();
    let set_cookie = &resp.headers[0].1;
    let pair = set_cookie.split(';').next().unwrap();
    let id = parse_session_id_from_cookie(pair, &mgr.config).unwrap();
    assert_eq!(format!("sid={}", id.as_str()), pair);
    assert_eq!(id.as_str().len(), 32);
}

#[test]
fn memory_store_round_trip_and_expiry() {
    let mut store = MemorySessionStore::new();
    let cfg = test_config();
    let id = SessionId::new("s1".into());
    let info = create_session_at(&mut store, &cfg, &test_user_info(), &id, NOW).unwrap();
    let loaded = validate_session_at(&mut store, &id, NOW + 10 * SEC).unwrap();
    assert_eq!(loaded.user_id, info.user_id);
    assert!(!is_expired(&loaded, NOW + 3600 * SEC));
    assert!(is_expired(&loaded, NOW + 3601 * SEC));
    let err = validate_session_at(&mut store, &id, NOW + 3601 * SEC).unwrap_err();
    assert!(matches!(err, AuthError::SessionExpired));
    let err = validate_session_at(&mut store, &id, NOW + 10 * SEC).unwrap_err();
    assert!(matches!(err, AuthError::SessionNotFound));
}

#[test]
fn destroyed_session_is_not_found_and_others_stay() {
    let mut store = MemorySessionStore::new();
    let cfg = test_config();
    let a = SessionId::new("a".into());
    let b = SessionId::new("b".into());
    create_session_at(&mut store, &cfg, &test_user_info(), &a, NOW).unwrap();
    create_session_at(&mut store, &cfg, &test_user_info(), &b, NOW).unwrap();
    destroy_session(&mut store, &a).unwrap();
    assert!(matches!(
        validate_session_at(&mut store, &a, NOW).unwrap_err(),
        AuthError::SessionNotFound
    ));
    assert!(validate_session_at(&mut store, &b, NOW).is_ok());
}

#[test]
fn memory_store_cleanup_drops_only_expired() {
    let mut store = MemorySessionStore::new();
    let cfg = test_config();
    let old = SessionId::new("old".into());
    let fresh = SessionId::new("fresh".into());
    create_session_at(&mut store, &cfg, &test_user_info(), &old, NOW - 7200 * SEC).unwrap();
    create_session_at(&mut store, &cfg, &test_user_info(), &fresh, NOW).unwrap();
    store.cleanup_at(NOW);
    assert!(store.load(&old).unwrap().is_none());
    assert!(store.load(&fresh).unwrap().is_some());
}

#[test]
fn hardcoded_provider_accepts_only_admin() {
    let p = HardcodedUserProvider;
    let ok = p
        .authenticate(&Credentials {
            username: "admin".into(),
            password: "secret".into(),
        })
        .unwrap();
    assert_eq!(ok.user_id, "admin");
    assert_eq!(ok.extra, json(r#"{"role":"superuser"}"#));
    assert!(matches!(
        p.authenticate(&Credentials {
            username: "admin".into(),
            password: "wrong".into(),
        }),
        Err(AuthError::InvalidCredentials)
    ));
    assert!(p.get_user_by_id("admin").unwrap().is_some());
    assert!(p.get_user_by_id("bob").unwrap().is_none());
}

#[test]
fn external_store_set_get_remove() {
    let mut s = ExternalSessionStore::new();
    assert_eq!(s.get("u"), None);
    s.set("u".into(), "c1".into());
    s.set("v".into(), "c2".into());
    s.set("u".into(), "c3".into());
    assert_eq!(s.get("u").as_deref(), Some("c3"));
    assert_eq!(s.get("v").as_deref(), Some("c2"));
    s.remove("u");
    assert_eq!(s.get("u"), None);
    assert_eq!(s.get("v").as_deref(), Some("c2"));
    s.remove("nobody");
    assert_eq!(s.get("v").as_deref(), Some("c2"));
}

fn env() -> AuthEnv {
    AuthEnv {
        cookie_name: None,
        cookie_path: None,
        cookie_domain: None,
        cookie_secure: None,
        cookie_http_only: None,
        cookie_same_site: None,
        session_lifetime: None,
        session_idle_timeout: None,
        login_url: None,
        logout_redirect_url: None,
    }
}

#[test]
fn config_from_environment_values() {
    let cfg = AuthConfig::from_env_values(&env()).unwrap();
    assert_eq!(cfg.cookie_name, "sid");
    assert_eq!(cfg.session_lifetime_nanos, 86400 * SEC);

    let mut e = env();
    e.cookie_name = Some("auth".into());
    e.cookie_secure = Some("false".into());
    e.cookie_same_site = Some("strict".into());
    e.session_lifetime = Some("120".into());
    e.session_idle_timeout = Some("60".into());
    let cfg = AuthConfig::from_env_values(&e).unwrap();
    assert_eq!(cfg.cookie_name, "auth");
    assert!(!cfg.cookie_secure);
    assert_eq!(cfg.cookie_same_site, SameSite::Strict);
    assert_eq!(cfg.session_lifetime_nanos, 120 * SEC);
    assert_eq!(cfg.session_idle_timeout_nanos, Some(60 * SEC));
}

#[test]
fn store_answers_are_passed_on() {
    let info = stored(100, 200, None);
    match session_saved(Ok(()), info.duplicate()) {
        Ok(i) => assert_eq!(i.expires_at, 200),
        Err(_) => panic!("save succeeded"),
    }
    assert!(matches!(
        session_saved(Err(AuthError::Internal("db error".into())), info.duplicate()),
        Err(AuthError::Internal(m)) if m == "db error"
    ));
    assert!(matches!(
        session_loaded(Err(AuthError::Internal("load fail".into())), 150),
        LoadStep::Fail(AuthError::Internal(m)) if m == "load fail"
    ));
    assert!(matches!(session_loaded(Ok(None), 150), LoadStep::Fail(AuthError::SessionNotFound)));
    assert!(matches!(session_loaded(Ok(Some(info.duplicate())), 150), LoadStep::Valid(i) if i.issued_at == 100));
    assert!(matches!(session_loaded(Ok(Some(info.duplicate())), 200), LoadStep::Valid(_)));
    assert!(matches!(session_loaded(Ok(Some(info.duplicate())), 201), LoadStep::Delete));
    assert!(matches!(session_loaded(Ok(Some(stored(100, 200, Some(120)))), 121), LoadStep::Delete));
    assert!(matches!(expired_session_deleted(Ok(())), AuthError::SessionExpired));
    assert!(matches!(
        expired_session_deleted(Err(AuthError::Internal("del fail".into()))),
        AuthError::Internal(m) if m == "del fail"
    ));
}

#[test]
fn login_answer_after_session_creation() {
    let config = test_config();
    let id = SessionId::new("abc".into());
    let ok = login_after_create(Ok(stored(1, 2, None)), &config, &id, "u").unwrap();
    assert_eq!(ok.status, 200);
    assert_eq!(ok.body, "{\"status\":\"success\",\"user_id\":\"u\"}");
    assert!(matches!(
        login_after_create(Err(AuthError::Internal("db save fail".into())), &config, &id, "u"),
        Err(AuthError::Internal(m)) if m == "session creation failed"
    ));
}

#[test]
fn deadlines_must_fit_the_time_range() {
    let config = test_config();
    assert!(deadlines_fit_at(&config, 1_700_000_000));
    assert!(!deadlines_fit_at(&config, MAX_INSTANT));
    let long = AuthConfig::builder().session_lifetime(9_000_000_000_000 * SEC).build().unwrap();
    assert!(!deadlines_fit_at(&long, 1_700_000_000));
    let mut store = MemorySessionStore::new();
    assert!(matches!(
        create_session(&mut store, &long, &test_user_info()),
        Err(AuthError::Internal(m)) if m == "session deadline out of range"
    ));
    let (id, info) = create_session(&mut store, &config, &test_user_info()).unwrap();
    assert_eq!(id.as_str().len(), 32);
    assert_eq!(info.expires_at, info.issued_at + 3600 * SEC);
}

#[test]
fn create_session_saves_what_it_returns() {
    let saved = Rc::new(RefCell::new(Vec::new()));
    let mut store = MockStore { saved: saved.clone(), ..Default::default() };
    let (id, info) = create_session(&mut store, &test_config(), &test_user_info()).unwrap();
    {
        let record = saved.borrow();
        assert_eq!(record.len(), 1);
        assert_eq!(record[0].0, id.to_string());
        assert_eq!(record[0].1.user_id, info.user_id);
        assert_eq!(record[0].1.issued_at, info.issued_at);
        assert_eq!(record[0].1.expires_at, info.expires_at);
    }
    assert_eq!(info.user_id, "user123");
    assert_eq!(info.expires_at, info.issued_at + 3600 * SEC);
    assert_eq!(info.idle_deadline, None);

    let cfg = AuthConfig::builder().session_idle_timeout(15 * 60 * SEC).build().unwrap();
    let mut store = MockStore::default();
    let (_, info) = create_session(&mut store, &cfg, &test_user_info()).unwrap();
    assert_eq!(info.idle_deadline, Some(info.issued_at + 15 * 60 * SEC));

    let mut failing = MockStore { save_error: Some("db error".into()), ..Default::default() };
    assert!(matches!(
        create_session(&mut failing, &test_config(), &test_user_info()),
        Err(AuthError::Internal(m)) if m == "db error"
    ));
}

#[test]
fn validate_session_against_the_clock() {
    let far = 253402300799 * SEC;
    let deleted = Rc::new(RefCell::new(Vec::new()));
    let mut live = MockStore {
        load_result: Some(stored(0, far, None)),
        deleted: deleted.clone(),
        ..Default::default()
    };
    let info = validate_session(&mut live, &SessionId::new("live".into())).unwrap();
    assert_eq!(info.user_id, "user123");
    assert!(deleted.borrow().is_empty());

    let deleted = Rc::new(RefCell::new(Vec::new()));
    let mut expired = MockStore {
        load_result: Some(stored(0, 1, None)),
        deleted: deleted.clone(),
        ..Default::default()
    };
    assert!(matches!(
        validate_session(&mut expired, &SessionId::new("old".into())),
        Err(AuthError::SessionExpired)
    ));
    assert_eq!(*deleted.borrow(), vec!["old".to_string()]);

    let mut idle = MockStore { load_result: Some(stored(0, far, Some(1))), ..Default::default() };
    assert!(matches!(
        validate_session(&mut idle, &SessionId::new("idle".into())),
        Err(AuthError::SessionExpired)
    ));

    let mut failing_delete = MockStore {
        load_result: Some(stored(0, 1, None)),
        delete_error: Some("del fail".into()),
        ..Default::default()
    };
    assert!(matches!(
        validate_session(&mut failing_delete, &SessionId::new("old".into())),
        Err(AuthError::Internal(m)) if m == "del fail"
    ));
    let mut failing_load = MockStore { load_error: Some("load fail".into()), ..Default::default() };
    assert!(matches!(
        validate_session(&mut failing_load, &SessionId::new("x".into())),
        Err(AuthError::Internal(m)) if m == "load fail"
    ));
    let mut empty = MockStore::default();
    assert!(matches!(
        validate_session(&mut empty, &SessionId::new("ghost".into())),
        Err(AuthError::SessionNotFound)
    ));
}

#[test]
fn expiry_is_decided_to_the_nanosecond() {
    let info = stored(NOW, NOW + 3600 * SEC, None);
    assert!(!is_expired(&info, NOW + 3600 * SEC));
    assert!(is_expired(&info, NOW + 3600 * SEC + 1));
    let idle = stored(NOW, NOW + 3600 * SEC, Some(NOW + 500_000_000));
    assert!(!is_expired(&idle, NOW + 500_000_000));
    assert!(is_expired(&idle, NOW + 500_000_001));
}

#[test]
fn external_store_last_set_wins() {
    let mut s = ExternalSessionStore::new();
    s.set("a".into(), "1".into());
    s.set("b".into(), "2".into());
    s.set("a".into(), "3".into());
    s.remove("b");
    assert_eq!(s.get("a").as_deref(), Some("3"));
    assert_eq!(s.get("a").as_deref(), Some("3"));
    assert_eq!(s.get("b"), None);
    assert_eq!(s.get("c"), None);
    s.set("b".into(), "4".into());
    assert_eq!(s.get("b").as_deref(), Some("4"));
    s.remove("a");
    s.remove("a");
    assert_eq!(s.get("a"), None);
}

#[test]
fn sub_second_lifetimes() {
    let cfg = AuthConfig::builder().session_lifetime(1_500_000_000).build().unwrap();
    assert_eq!(cfg.session_lifetime_nanos, 1_500_000_000);
    let cookie = create_session_cookie(&SessionId::new("abc".into()), &cfg).to_string();
    assert!(cookie.ends_with("; Max-Age=1"));
    let mut store = MemorySessionStore::new();
    let id = SessionId::new("s".into());
    let info = create_session_at(&mut store, &cfg, &test_user_info(), &id, NOW).unwrap();
    assert_eq!(info.expires_at, NOW + 1_500_000_000);
    assert!(validate_session_at(&mut store, &id, NOW + 1_500_000_000).is_ok());
    assert!(matches!(
        validate_session_at(&mut store, &id, NOW + 1_500_000_001),
        Err(AuthError::SessionExpired)
    ));
    assert_eq!(max_age_secs_of(-1_500_000_000), -1);
    assert_eq!(max_age_secs_of(999_999_999), 0);
    assert_eq!(max_age_secs_of(i128::MAX), i64::MAX);
    assert_eq!(max_age_secs_of(i128::MIN), i64::MIN);
}

#[test]
fn deadline_out_of_range_stores_nothing() {
    let saved = Rc::new(RefCell::new(Vec::new()));
    let mut store = MockStore { saved: saved.clone(), ..Default::default() };
    let r = create_session_at(&mut store, &test_config(), &test_user_info(), &SessionId::new("x".into()), MAX_INSTANT);
    assert!(matches!(r, Err(AuthError::Internal(m)) if m == "session deadline out of range"));
    assert!(saved.borrow().is_empty());
}
