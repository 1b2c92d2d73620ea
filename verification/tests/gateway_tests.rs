use rjss::auth::callbacks::{
    cleanup_result, delete_result, save_deadlines, save_result, session_from_callback,
    set_session_lifetime, user_from_callback, user_lookup_from_callback,
};
use rjss::auth::config::{AuthConfig, AuthEnv, SameSite};
use rjss::auth::error::AuthError;
use rjss::auth::manager::AuthManager;
use rjss::auth::session::create_session_at;
use rjss::auth::store::{ExternalSessionStore, HardcodedUserProvider, MemorySessionStore};
use rjss::auth::types::{SessionId, SessionInfo, UserInfo};
use rjss::gateway::{
    auth_error_to_response, check_reply, check_request_at, external_login, external_user_by_id,
    proxy_after_validation, upstream_user_id,
    login_request, logout_request_at, parse_mode, parse_u16, proxy_plan_at, proxy_reply, LoginRequest,
    split_origins, AppConfig, AppConfigError, CheckOutcome, ProxyPlan, RunMode,
};

const SEC: i128 = 1_000_000_000;
const NOW_SECS: i64 = 1_700_000_000;
const NOW: i128 = NOW_SECS as i128 * SEC;

fn json(text: &str) -> serde_json::Value {
    serde_json::from_str(text).unwrap()
}

fn gateway() -> AuthManager<HardcodedUserProvider, MemorySessionStore> {
    AuthManager::new(AppConfig::dev().auth, HardcodedUserProvider, MemorySessionStore::new())
}

fn with_session(
    mgr: &mut AuthManager<HardcodedUserProvider, MemorySessionStore>,
    id: &str,
    user: &str,
) {
    let cfg = mgr.config.duplicate();
    let u = UserInfo {
        user_id: user.into(),
        extra: json("{}"),
    };
    create_session_at(&mut mgr.session_store, &cfg, &u, &SessionId::new(id.into()), NOW).unwrap();
}

#[test]
fn check_answers() {
    let mut mgr = gateway();
    match check_request_at(&mut mgr, "", NOW) {
        CheckOutcome::Reply(r) => {
            assert_eq!(r.status, 401);
            assert_eq!(r.body, "{\"error\":\"no session cookie\"}");
        }
        CheckOutcome::Valid(_) => panic!("no cookie was sent"),
    }
    match check_request_at(&mut mgr, "session_id=nope", NOW) {
        CheckOutcome::Reply(r) => {
            assert_eq!(r.status, 401);
            assert_eq!(r.body, "{\"error\":\"session not found\"}");
        }
        CheckOutcome::Valid(_) => panic!("unknown session"),
    }
    with_session(&mut mgr, "s1", "admin");
    match check_request_at(&mut mgr, "a=b; session_id=s1", NOW + 5 * SEC) {
        CheckOutcome::Valid(info) => assert_eq!(info.user_id, "admin"),
        CheckOutcome::Reply(_) => panic!("live session"),
    }
    match check_request_at(&mut mgr, "session_id=s1", NOW + 86401 * SEC) {
        CheckOutcome::Reply(r) => assert_eq!(r.body, "{\"error\":\"session expired\"}"),
        CheckOutcome::Valid(_) => panic!("expired session"),
    }
}

#[test]
fn login_and_logout_requests() {
    let mut mgr = gateway();
    let r = login_request(&mut mgr, LoginRequest { username: "admin".into(), password: "wrong".into() });
    assert_eq!(r.status, 401);
    assert_eq!(r.body, "{\"error\":\"invalid credentials\"}");
    let r = login_request(&mut mgr, LoginRequest { username: " ".into(), password: "secret".into() });
    assert_eq!(r.status, 401);
    let r = login_request(&mut mgr, LoginRequest { username: "admin".into(), password: "secret".into() });
    assert_eq!(r.status, 200);
    assert_eq!(r.body, "{\"status\":\"success\",\"user_id\":\"admin\"}");
    let cookie = r.headers[0].1.split(';').next().unwrap().to_string();
    assert!(cookie.starts_with("session_id="));

    let mut external = Some(ExternalSessionStore::new());
    if let Some(ext) = external.as_mut() {
        ext.set("admin".into(), "upstream=1".into());
    }
    let r = logout_request_at(&mut mgr, &cookie, &mut external, NOW);
    assert_eq!(r.status, 200);
    assert_eq!(r.body, "{\"status\":\"logged_out\"}");
    assert!(r.headers[0].1.starts_with("session_id=;"));
    assert!(external.as_ref().unwrap().get("admin").is_none());
    match check_request_at(&mut mgr, &cookie, NOW) {
        CheckOutcome::Reply(r) => assert_eq!(r.status, 401),
        CheckOutcome::Valid(_) => panic!("logged out"),
    }
}

#[test]
fn proxy_plans_and_replies() {
    let mut mgr = gateway();
    let mut ext = ExternalSessionStore::new();
    assert!(matches!(
        proxy_plan_at(&mut mgr, "", Some(&ext), Some("/x"), NOW),
        ProxyPlan::Reply(r) if r.body == "{\"error\":\"no session cookie\"}"
    ));
    assert!(matches!(
        proxy_plan_at(&mut mgr, "session_id=zz", Some(&ext), Some("/x"), NOW),
        ProxyPlan::Reply(r) if r.status == 401 && r.body == "{\"error\":\"session not found\"}"
    ));
    with_session(&mut mgr, "s1", "u1");
    assert!(matches!(
        proxy_plan_at(&mut mgr, "session_id=s1", None, Some("/x"), NOW),
        ProxyPlan::Reply(r) if r.body == "{\"error\":\"proxy only available in prod mode\"}"
    ));
    assert!(matches!(
        proxy_plan_at(&mut mgr, "session_id=s1", Some(&ext), Some("/x"), NOW),
        ProxyPlan::Reply(r) if r.body == "{\"error\":\"no external session\"}"
    ));
    ext.set("u1".into(), "c=1".into());
    match proxy_plan_at(&mut mgr, "session_id=s1", Some(&ext), Some("/api/resource/ToDo"), NOW) {
        ProxyPlan::Forward { url, cookie } => {
            assert_eq!(url, "https://app.juragansejati.biz.id/api/resource/ToDo");
            assert_eq!(cookie, "c=1");
        }
        ProxyPlan::Reply(_) => panic!("should forward"),
    }
    match proxy_plan_at(&mut mgr, "session_id=s1", Some(&ext), None, NOW) {
        ProxyPlan::Forward { url, .. } => assert_eq!(url, "https://app.juragansejati.biz.id/"),
        ProxyPlan::Reply(_) => panic!("should forward"),
    }
    let r = proxy_reply(Ok((201, "made".into())));
    assert_eq!((r.status, r.body.as_str()), (201, "made"));
    assert_eq!(proxy_reply(Ok((42, "odd".into()))).status, 502);
    let r = proxy_reply(Err("timeout".into()));
    assert_eq!(r.status, 502);
    assert_eq!(r.body, "{\"error\":\"Proxy error: timeout\"}");
}

#[test]
fn error_responses() {
    let r = auth_error_to_response(&AuthError::AccountLocked {
        until: "tomorrow".into(),
    });
    assert_eq!(r.status, 403);
    assert_eq!(r.body, "{\"error\":\"account locked until tomorrow\"}");
}

#[test]
fn upstream_login() {
    let mut store = ExternalSessionStore::new();
    let cookies = vec!["a=1".to_string(), "b=2".to_string()];
    let u = external_login(200, &cookies, Some("u-7".into()), "bob", &mut store).unwrap();
    assert_eq!(u.user_id, "u-7");
    assert_eq!(u.extra, json("{\"external_authenticated\":true}"));
    assert_eq!(store.get("u-7").as_deref(), Some("a=1; b=2"));
    let u = external_login(200, &vec![], None, "bob", &mut store).unwrap();
    assert_eq!(u.user_id, "bob");
    assert_eq!(store.get("bob").as_deref(), Some(""));
    assert!(matches!(
        external_login(401, &cookies, None, "eve", &mut store),
        Err(AuthError::InvalidCredentials)
    ));
    assert!(store.get("eve").is_none());
    let found = external_user_by_id(&store, "bob").unwrap();
    assert_eq!(found.user_id, "bob");
    assert_eq!(found.extra, json("{}"));
    assert!(external_user_by_id(&store, "eve").is_none());
}

#[test]
fn settings() {
    assert_eq!(split_origins(" https://a.example , ,https://b.example,"), vec!["https://a.example".to_string(), "https://b.example".to_string()]);
    assert!(split_origins("").is_empty());
    assert_eq!(parse_u16("8080"), Some(8080));
    assert_eq!(parse_u16("70000"), None);
    assert_eq!(parse_mode(&vec!["server".into(), "--dev".into()]), RunMode::Dev);
    assert_eq!(parse_mode(&vec!["server".into()]), RunMode::Prod);

    let dev = AppConfig::dev();
    assert_eq!(dev.host, "127.0.0.1");
    assert_eq!(dev.port, 8080);
    assert_eq!(dev.auth.cookie_name, "session_id");
    assert!(!dev.auth.cookie_secure);
    assert_eq!(dev.auth.cookie_same_site, SameSite::Lax);
    assert_eq!(dev.auth.session_lifetime_nanos, 86400 * SEC);

    let env = AuthEnv {
        cookie_name: None,
        cookie_path: None,
        cookie_domain: None,
        cookie_secure: None,
        cookie_http_only: None,
        cookie_same_site: Some("bogus".into()),
        session_lifetime: None,
        session_idle_timeout: None,
        login_url: None,
        logout_redirect_url: None,
    };
    assert!(matches!(
        AppConfig::from_env_values(None, Some("80x"), None, &env),
        Err(AppConfigError::Port)
    ));
    assert!(matches!(
        AppConfig::from_env_values(None, None, None, &env),
        Err(AppConfigError::Auth(AuthError::Config(m))) if m == "AUTH_COOKIE_SAME_SITE must be strict, lax, or none"
    ));
    let ok_env = AuthEnv {
        cookie_same_site: None,
        ..env
    };
    let c = AppConfig::from_env_values(Some("0.0.0.0".into()), Some("9000"), Some("https://x.example"), &ok_env).unwrap();
    assert_eq!(c.host, "0.0.0.0");
    assert_eq!(c.port, 9000);
    assert_eq!(c.allowed_origins, vec!["https://x.example".to_string()]);
    let c = AppConfig::from_env_values(None, None, None, &ok_env).unwrap();
    assert_eq!((c.host.as_str(), c.port), ("127.0.0.1", 8080));
    assert!(c.allowed_origins.is_empty());
    let _ = AuthConfig::default();
}

#[test]
fn callback_outcomes() {
    let data = json("{\"k\":1}");
    let s = session_from_callback(0, 0, Some("u".into()), data.clone(), NOW_SECS, NOW_SECS + 10, -1)
        .unwrap()
        .unwrap();
    assert_eq!(s.user_id, "u");
    assert_eq!(s.idle_deadline, None);
    assert_eq!(save_deadlines(&s), (NOW_SECS, NOW_SECS + 10, -1));
    let s = session_from_callback(0, 0, Some("u".into()), data.clone(), NOW_SECS, NOW_SECS + 10, NOW_SECS + 5)
        .unwrap()
        .unwrap();
    assert_eq!(s.idle_deadline, Some(NOW + 5 * SEC));
    assert!(session_from_callback(0, 0, None, data.clone(), 0, 0, 0).unwrap().is_none());
    assert!(matches!(
        session_from_callback(1, 5, Some("u".into()), data.clone(), 0, 0, 0),
        Err(AuthError::SessionNotFound)
    ));
    assert!(matches!(
        session_from_callback(0, 0, Some("u".into()), data.clone(), i64::MAX, 0, -1),
        Err(AuthError::Internal(m)) if m == "timestamp was not in range"
    ));
    assert!(save_result(0).is_ok());
    assert!(matches!(save_result(1), Err(AuthError::Internal(m)) if m == "session save failed"));
    assert!(matches!(delete_result(-1), Err(AuthError::Internal(m)) if m == "session delete failed"));
    assert!(cleanup_result(None).is_ok());
    assert!(matches!(cleanup_result(Some(2)), Err(AuthError::Internal(m)) if m == "session cleanup failed"));
    assert_eq!(user_from_callback(0, 0, "x".into(), json("null")).unwrap().user_id, "x");
    assert!(matches!(user_from_callback(1, 2, "x".into(), json("null")), Err(AuthError::InvalidCredentials)));
    assert!(user_lookup_from_callback(0, 0, None, json("null")).unwrap().is_none());
    assert!(matches!(user_lookup_from_callback(1, 4, None, json("null")), Err(AuthError::SessionExpired)));
    let mut cfg = AuthConfig::default();
    set_session_lifetime(&mut cfg, 0);
    assert_eq!(cfg.session_lifetime_nanos, 86400 * SEC);
    set_session_lifetime(&mut cfg, 60);
    assert_eq!(cfg.session_lifetime_nanos, 60 * SEC);
}

#[test]
fn session_info_round_trip_through_callbacks() {
    let info = SessionInfo {
        user_id: "u".into(),
        data: json("{}"),
        issued_at: NOW,
        expires_at: NOW + 100 * SEC,
        idle_deadline: Some(NOW + 50 * SEC),
    };
    let (i, e, d) = save_deadlines(&info);
    let back = session_from_callback(0, 0, Some("u".into()), json("{}"), i, e, d).unwrap().unwrap();
    assert_eq!(
        (back.issued_at, back.expires_at, back.idle_deadline),
        (NOW, NOW + 100 * SEC, Some(NOW + 50 * SEC))
    );
    // The C interface carries whole seconds: the fraction of a second is dropped, down
    // to the second at or before the instant.
    let precise = SessionInfo {
        user_id: "u".into(),
        data: json("{}"),
        issued_at: NOW + 999_999_999,
        expires_at: -1,
        idle_deadline: None,
    };
    assert_eq!(save_deadlines(&precise), (NOW_SECS, -1, -1));
}

#[test]
fn validation_outcomes_are_answered() {
    let info = SessionInfo {
        user_id: "admin".into(),
        data: json("{}"),
        issued_at: NOW,
        expires_at: NOW + 10 * SEC,
        idle_deadline: None,
    };
    assert!(matches!(check_reply(Ok(info.duplicate())), CheckOutcome::Valid(i) if i.user_id == "admin"));
    match check_reply(Err(AuthError::Internal("load fail".into()))) {
        CheckOutcome::Reply(r) => {
            assert_eq!(r.status, 500);
            assert_eq!(r.body, AuthError::Internal("load fail".into()).to_json_body());
        }
        CheckOutcome::Valid(_) => panic!("an error is answered"),
    }
    match proxy_after_validation(Err(AuthError::SessionExpired), None, None) {
        ProxyPlan::Reply(r) => {
            assert_eq!(r.status, 401);
            assert_eq!(r.body, AuthError::SessionExpired.to_json_body());
        }
        ProxyPlan::Forward { .. } => panic!("no forward without a session"),
    }
    let mut ext = ExternalSessionStore::new();
    ext.set("admin".into(), "c=1".into());
    match proxy_after_validation(Ok(info.duplicate()), Some(&ext), Some("/api/x")) {
        ProxyPlan::Forward { url, cookie } => {
            assert_eq!(url, "https://app.juragansejati.biz.id/api/x");
            assert_eq!(cookie, "c=1");
        }
        ProxyPlan::Reply(_) => panic!("a live session is forwarded"),
    }
}

#[test]
fn upstream_login_user_id() {
    assert_eq!(upstream_user_id(r#"{"user_id": "u7"}"#).as_deref(), Some("u7"));
    assert_eq!(upstream_user_id(r#"{"user_id": 7}"#), None);
    assert_eq!(upstream_user_id("<html>"), None);
}
