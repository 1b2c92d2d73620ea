use rjss::client::builders::{next_page_start, ReportQuery, ResourceQuery};
use rjss::client::error::JssError;
use rjss::client::http::{
    classify_response, csrf_header, judge_get_attempt, judge_write_attempt, max_elapsed_secs,
    plan_request, retry_after_secs, status_text, token_authorization, Backoff, RequestKind,
};
use rjss::client::login::{
    check_app_page_status, check_login_status, complete_login, csrf_in_script, csrf_token_in,
    csrf_token_reply, extract_app_data, login_reply, login_reply_members, session_login,
    setup_token_session, sitename_in_page, user_info_reply,
};
use rjss::client::query::{
    doc_path, doctype_meta_path, events_path, file_list_path, get_count_form, get_list_path,
    get_transitions_form, global_search_form, join_texts, lazy_child_rows_form,
    list_settings_form, method_args_body, method_path, notifications_path, pdf_download_path,
    resource_path, save_user_settings_form, search_link_form, desktop_page_path,
};
use rjss::client::session::{
    after_probe, ensure_next, ClientState, EnsureAction, EnsureState, MAX_REAUTH_ATTEMPTS,
};
use rjss::client::settings::{choose_auth_mode, client_settings, AuthChoice};
use rjss::client::types::{
    BootUser, FrappeBoot, LoginApiMessage, LoginApiResponse, NavbarSettings, SessionInfo,
    SidebarPages, SysDefaults, UserInfo, UserInfoMessage,
};
use rjss::client::url::{build_join_url, validate_client_config};
use rjss::json::string_member;

fn texts(v: &[&str]) -> Vec<String> {
    v.iter().map(|s| s.to_string()).collect()
}

fn user(full_name: &str, roles: &[&str]) -> BootUser {
    BootUser {
        name: "admin".into(),
        email: "admin@example.com".into(),
        full_name: full_name.into(),
        roles: texts(roles),
        allow_modules: vec![],
        user_type: "System User".into(),
        permissions: vec![],
        can_select: vec![],
        can_create: vec![],
        can_write: vec![],
        can_read: vec![],
        can_submit: vec![],
        can_cancel: vec![],
        can_delete: vec![],
        can_get_report: vec![],
        all_reports: vec![],
    }
}

fn boot(sitename: &str, u: BootUser) -> FrappeBoot {
    FrappeBoot {
        user: u,
        sitename: sitename.into(),
        csrf_token: String::new(),
        sysdefaults: SysDefaults {
            default_app: None,
            time_zone: None,
        },
        app_logo_url: None,
        home_page: None,
        allow_modules: vec![],
        can_select: vec![],
        can_create: vec![],
        can_write: vec![],
        can_read: vec![],
        can_submit: vec![],
        can_cancel: vec![],
        can_delete: vec![],
        can_get_report: vec![],
        all_reports: vec![],
        module_wise_workspaces: vec![],
        dashboards: vec![],
        single_types: vec![],
        calendars: vec![],
        treeviews: vec![],
        module_app: vec![],
        app_data: vec![],
        user_info: vec![],
        sidebar_pages: SidebarPages {
            workspace_setup_completed: None,
            pages: vec![],
            has_access: true,
            has_create_access: false,
        },
        navbar_settings: Some(NavbarSettings {
            settings_dropdown: vec![],
            help_dropdown: vec![],
        }),
        versions: vec![("frappe".into(), "15.0.0".into())],
        lang_dict: vec![],
        lang: Some("en".into()),
        timezone_info: None,
        page_info: vec![],
        frequently_visited_links: vec![],
        developer_mode: true,
        read_only: false,
        socketio_port: None,
        desk_settings: vec![],
        desk_theme: None,
    }
}

fn message(sid: &str, full_name: Option<&str>) -> LoginApiMessage {
    LoginApiMessage {
        sid: sid.into(),
        full_name: full_name.map(|s| s.to_string()),
    }
}

#[test]
fn test_build_join_url_traversal() {
    assert!(build_join_url("https://example.com", "/valid/path").is_ok());
    assert!(build_join_url("https://example.com", "/../etc").is_err());
}

#[test]
fn join_url_results() {
    assert_eq!(
        build_join_url("https://example.com/base/", "/api/resource/test").unwrap(),
        "https://example.com/api/resource/test"
    );
    assert!(matches!(
        build_join_url("https://example.com", "https://evil.example/x"),
        Err(JssError::Validation(m)) if m == "Absolute URL not allowed"
    ));
    assert!(matches!(
        build_join_url("https://example.com", "/%2e%2e/etc"),
        Err(JssError::Validation(m)) if m == "Path traversal not allowed"
    ));
    assert!(matches!(
        build_join_url("https://example.com", "/%ff"),
        Err(JssError::Validation(m)) if m == "Invalid URL path encoding"
    ));
    assert!(matches!(
        build_join_url("https://example.com", "//other.example/x"),
        Err(JssError::Validation(m)) if m == "Path must be relative to base URL"
    ));
    assert!(matches!(
        build_join_url("not a url", "/x"),
        Err(JssError::Parse(m)) if m.starts_with("URL join error: ")
    ));
}

#[test]
fn url_encoding_round_trip() {
    assert_eq!(
        doctype_meta_path("a b/é"),
        "/api/method/frappe.desk.form.load.getdoctype?doctype=a%20b%2F%C3%A9&with_parent=1"
    );
    assert_eq!(
        build_join_url("https://example.com", "/a%20b%2F%C3%A9").unwrap(),
        "https://example.com/a%20b/%C3%A9"
    );
    assert_eq!(
        build_join_url("https://example.com", "/100%").unwrap(),
        "https://example.com/100%"
    );
}

#[test]
fn client_config_checks() {
    assert!(validate_client_config("https", false, None).is_ok());
    assert!(matches!(
        validate_client_config("http", false, None),
        Err(JssError::Config(m)) if m == "HTTPS required unless insecure_ssl=true"
    ));
    assert!(validate_client_config("http", true, Some(("a@b", "pw"))).is_ok());
    assert!(matches!(
        validate_client_config("https", false, Some(("", "pw"))),
        Err(JssError::Validation(m)) if m == "Email and password must not be empty"
    ));
    assert!(matches!(
        validate_client_config("javascript", true, None),
        Err(JssError::Config(m)) if m == "Unsupported URL scheme: javascript"
    ));
}

#[test]
fn login_status_decisions() {
    assert!(check_login_status(200, None).is_ok());
    assert!(matches!(
        check_login_status(429, Some("120")),
        Err(JssError::RateLimited { retry_after: Some(120) })
    ));
    assert!(matches!(
        check_login_status(429, Some("soon")),
        Err(JssError::RateLimited { retry_after: None })
    ));
    assert!(matches!(
        check_login_status(403, None),
        Err(JssError::Auth(m)) if m == "Login failed: HTTP 403 Forbidden"
    ));
    assert!(matches!(
        check_login_status(299, None),
        Err(JssError::Auth(m)) if m == "Login failed: HTTP 299 <unknown status code>"
    ));
    assert_eq!(retry_after_secs(Some("+7")), Some(7));
    assert_eq!(retry_after_secs(Some("-7")), None);
    assert_eq!(retry_after_secs(None), None);
}

#[test]
fn login_reply_shapes() {
    let parsed = Ok(LoginApiResponse {
        message: message("sid123", Some("Test User")),
    });
    let m = login_reply(None, None, parsed).unwrap();
    assert_eq!(m.sid, "sid123");
    assert_eq!(m.full_name.as_deref(), Some("Test User"));

    let m = login_reply(Some("Logged In"), Some("Jane"), Err("missing field `sid`".into())).unwrap();
    assert_eq!(m.sid, "");
    assert_eq!(m.full_name.as_deref(), Some("Jane"));

    assert!(matches!(
        login_reply(Some("Nope"), None, Err("bad".into())),
        Err(JssError::Parse(m)) if m == "Failed to parse login response: bad"
    ));
}

const PAGE: &str = "<html><head><script>var x = 1;</script>\n<script>\nfrappe.csrf_token = \"tok123\";\nfrappe.boot = {\"sitename\": \"site1\", \"user\": {}};\n</script></head></html>";

#[test]
fn desk_page_is_read() {
    let (csrf, boot_json) = extract_app_data(PAGE).unwrap();
    assert_eq!(csrf, "tok123");
    assert_eq!(boot_json, "{\"sitename\": \"site1\", \"user\": {}}");
    assert!(matches!(
        extract_app_data("<html>no boot</html>"),
        Err(JssError::Parse(m)) if m == "Could not find frappe.boot object in /app"
    ));
    let (csrf, _) = extract_app_data("frappe.boot = {};\n").unwrap();
    assert_eq!(csrf, "");
    assert!(check_app_page_status(204).is_ok());
    assert!(matches!(
        check_app_page_status(302),
        Err(JssError::Auth(m)) if m == "Failed to load /app"
    ));
}

#[test]
fn csrf_tokens_in_scripts() {
    assert_eq!(
        csrf_in_script("frappe.csrf_token = \"abc\";").as_deref(),
        Some("abc")
    );
    assert_eq!(csrf_in_script("frappe.csrf_token = abc;"), None);
    assert_eq!(csrf_in_script("nothing here"), None);
    let scripts = texts(&[
        "a = 1",
        "frappe.csrf_token = none",
        "frappe.csrf_token = \"second\"",
        "frappe.csrf_token = \"third\"",
    ]);
    assert_eq!(csrf_token_in(&scripts), "second");
    assert_eq!(csrf_token_in(&texts(&["x"])), "");
}

fn logged_user(roles: &[&str]) -> Result<UserInfo, String> {
    Ok(UserInfo {
        message: UserInfoMessage { name: "admin".into(), email: None, roles: texts(roles) },
    })
}

#[test]
fn test_login_success() {
    let mut c = ClientState::new();
    c.set_credentials("user".into(), "pass".into());
    let r = c.apply_session_login(
        &None,
        &vec![],
        message("sid123", Some("Test User")),
        200,
        Some("csrf_token_value"),
        200,
        Ok(UserInfo {
            message: UserInfoMessage {
                name: "admin".into(),
                email: Some("admin@example.com".into()),
                roles: texts(&["System Manager"]),
            },
        }),
        None,
    );
    assert!(r.is_ok());
    let s = c.session_info().unwrap();
    assert_eq!(s.sid, "sid123");
    assert_eq!(s.csrf_token, "csrf_token_value");
    assert_eq!(s.full_name, Some("Test User".to_string()));
    assert_eq!(s.roles, vec!["System Manager"]);
}

#[test]
fn test_login_csrf_failure() {
    let mut c = ClientState::new();
    let r = c.apply_session_login(
        &None,
        &vec![],
        message("sid", None),
        500,
        None,
        404,
        Err("not JSON".into()),
        None,
    );
    assert!(matches!(r, Err(JssError::Csrf(_))));
    assert!(c.session_info().is_none());
}

#[test]
fn test_login_user_info_failure() {
    let mut c = ClientState::new();
    let r = c.apply_session_login(
        &None,
        &vec![],
        message("sid", None),
        200,
        Some("csrf"),
        403,
        Err("EOF while parsing a value at line 1 column 0".into()),
        None,
    );
    assert!(matches!(r, Err(JssError::Auth(_))));
    assert!(c.session_info().is_none());
}

#[test]
fn test_login_sitename_mismatch() {
    let mut c = ClientState::new();
    let r = c.apply_session_login(
        &Some("expectedsite".into()),
        &vec![],
        message("sid", None),
        200,
        Some("csrf"),
        200,
        logged_user(&[]),
        Some(r#"some html "sitename": "wrongsite" more"#),
    );
    assert!(matches!(r, Err(JssError::SitenameMismatch { .. })));
    assert!(c.session_info().is_none());
}

#[test]
fn test_login_missing_required_roles() {
    let mut c = ClientState::new();
    let r = c.apply_session_login(
        &None,
        &texts(&["System Manager"]),
        message("sid", None),
        200,
        Some("csrf"),
        200,
        logged_user(&["Guest"]),
        None,
    );
    assert!(matches!(r, Err(JssError::Permission(_))));
    assert!(c.session_info().is_none());
}

#[test]
fn session_login_checks_in_order() {
    let page = r#"<script>"sitename": "site1"</script>"#;
    let ok = session_login(
        &Some("site1".into()),
        &texts(&["Accounts", "System Manager"]),
        message("sid", None),
        200,
        Some("tok"),
        200,
        logged_user(&["Guest", "System Manager"]),
        Some(page),
    )
    .unwrap();
    assert_eq!(ok.sitename, "site1");
    assert_eq!(ok.csrf_token, "tok");
    assert_eq!(ok.full_name, None);
    assert_eq!(ok.roles, texts(&["Guest", "System Manager"]));
    let no_site = session_login(&None, &vec![], message("s", None), 204, Some("t"), 200, logged_user(&[]), Some(page)).unwrap();
    assert_eq!(no_site.sitename, "");
    assert!(matches!(
        session_login(&None, &vec![], message("s", None), 200, None, 200, logged_user(&[]), None),
        Err(JssError::Csrf(m)) if m == "Unable to obtain CSRF token"
    ));
    assert!(matches!(
        session_login(&None, &vec![], message("s", None), 200, Some("t"), 401, logged_user(&[]), None),
        Err(JssError::Auth(m)) if m == "Failed to verify session"
    ));
    assert!(matches!(
        session_login(&None, &vec![], message("s", None), 200, Some("t"), 200, Err("bad".into()), None),
        Err(JssError::Parse(m)) if m == "Failed to parse user info: bad"
    ));
    assert!(matches!(
        session_login(&Some("x".into()), &vec![], message("s", None), 200, Some("t"), 200, logged_user(&[]), None),
        Err(JssError::Parse(m)) if m == "Sitename not found in /app"
    ));
    assert!(matches!(
        session_login(&Some("x".into()), &vec![], message("s", None), 200, Some("t"), 200, logged_user(&[]), Some("<html></html>")),
        Err(JssError::Parse(m)) if m == "Sitename not found in /app"
    ));
    assert!(matches!(
        session_login(&None, &texts(&["System Manager"]), message("s", None), 200, Some("t"), 200, logged_user(&["Guest"]), None),
        Err(JssError::Permission(m)) if m == "Missing one of required roles: [\"System Manager\"]"
    ));
}

#[test]
fn test_ensure_session_valid() {
    let s = EnsureState { has_session: true, attempts: 0 };
    assert!(matches!(ensure_next(&s, true), EnsureAction::Probe));
    let (_, action) = after_probe(s, 200);
    assert!(matches!(action, EnsureAction::Ready));
}

#[test]
fn test_ensure_session_expired_triggers_relogin() {
    let mut c = ClientState::new();
    c.set_credentials("user".into(), "pass".into());
    c.apply_session_login(&None, &vec![], message("old_sid", None), 200, Some("old_csrf"), 200, logged_user(&[]), None)
        .unwrap();
    let s = EnsureState { has_session: true, attempts: 0 };
    let (next, action) = after_probe(s, 401);
    assert!(!matches!(action, EnsureAction::Ready));
    c.expire_session();
    assert!(matches!(ensure_next(&next, c.credentials().is_some()), EnsureAction::Login));
    c.apply_session_login(&None, &vec![], message("new_sid", None), 200, Some("new_csrf"), 200, logged_user(&[]), None)
        .unwrap();
    assert_eq!(c.session_info().unwrap().sid, "new_sid");
}

#[test]
fn login_body_members() {
    let (m, f) = login_reply_members(r#"{"message": "Logged In", "full_name": "Ann"}"#).unwrap();
    assert_eq!(m.as_deref(), Some("Logged In"));
    assert_eq!(f.as_deref(), Some("Ann"));
    let (m, f) = login_reply_members(r#"{"message": {"sid": "s"}}"#).unwrap();
    assert_eq!(m, None);
    assert_eq!(f, None);
    assert_eq!(string_member(r#"{"message": "tok"}"#, "message").as_deref(), Some("tok"));
    assert_eq!(string_member(r#"{"message": 1}"#, "message"), None);
    assert_eq!(string_member("", "message"), None);
    assert!(matches!(
        login_reply_members("not json"),
        Err(JssError::Parse(m)) if m.starts_with("Login response not valid JSON: ")
    ));
}

#[test]
fn login_session_takes_boot_values() {
    let u = user("", &["Guest", "System Manager"]);
    let s = complete_login(
        &Some("site".into()),
        &texts(&["Accounts", "System Manager"]),
        message("sid123", Some("From Login")),
        "csrf_token_value".into(),
        &u,
        &"site".to_string(),
    )
    .unwrap();
    assert_eq!(s.sid, "sid123");
    assert_eq!(s.csrf_token, "csrf_token_value");
    assert_eq!(s.full_name.as_deref(), Some("From Login"));
    assert_eq!(s.sitename, "site");
    assert_eq!(s.roles, texts(&["Guest", "System Manager"]));

    let u = user("Boot Name", &[]);
    let s = complete_login(&None, &vec![], message("x", Some("Login Name")), "".into(), &u, &"s".to_string()).unwrap();
    assert_eq!(s.full_name.as_deref(), Some("Boot Name"));
}

#[test]
fn test_authenticate_token_mode() {
    let mut c = ClientState::new();
    c.apply_token_session(Some("expected_site".to_string()));
    assert!(c.session_info().is_some());
    let session = c.session_info().unwrap();
    assert_eq!(session.sid, "token-mode");
    assert_eq!(session.sitename, "expected_site");
    let s = setup_token_session(None);
    assert_eq!(s.csrf_token, "");
    assert_eq!(s.sitename, "");
    assert!(s.roles.is_empty());
}

#[test]
fn client_state_login_and_logout() {
    let mut c = ClientState::new();
    assert!(c.session_info().is_none());
    assert!(matches!(c.logout_request(), Err(JssError::NotAuthenticated)));
    c.set_credentials("user".into(), "pass".into());
    let b = boot("site", user("Admin", &["System Manager"]));
    c.apply_login(&None, &vec![], message("sid", None), "csrf".into(), b)
        .unwrap();
    assert_eq!(c.session_info().unwrap().sid, "sid");
    assert!(c.is_developer_mode());
    assert!(!c.is_read_only());
    assert_eq!(c.versions().unwrap().len(), 1);
    assert!(c.navbar_settings().is_some());
    assert_eq!(c.logout_request().unwrap().as_deref(), Some("csrf"));
    assert_eq!(c.write_csrf_token(true).as_deref(), Some("csrf"));
    assert_eq!(c.write_csrf_token(false), None);

    let err = c.apply_logout(500, "error".into()).unwrap_err();
    assert!(matches!(err, JssError::Http { status: 500, ref body } if body == "error"));
    assert!(c.session_info().is_some());

    c.apply_logout(200, String::new()).unwrap();
    assert!(c.session_info().is_none());
    assert!(c.credentials().is_none());
    assert!(c.boot().is_some());
}

#[test]
fn failed_login_checks_keep_the_boot_object() {
    let mut c = ClientState::new();
    let b = boot("other", user("Admin", &[]));
    let r = c.apply_login(&Some("site".into()), &vec![], message("sid", None), "csrf".into(), b);
    assert!(matches!(r, Err(JssError::SitenameMismatch { .. })));
    assert!(c.session_info().is_none());
    assert!(c.boot().is_some());
}

#[test]
fn token_session_in_client_state() {
    let mut c = ClientState::new();
    c.apply_token_session(Some("test".into()));
    assert_eq!(c.session_info().unwrap().sid, "token-mode");
    assert_eq!(c.logout_request().unwrap(), None);
}

#[test]
fn ensure_session_steps() {
    // A live session is probed, and a non-401 answer ends the call.
    let s = EnsureState {
        has_session: true,
        attempts: 0,
    };
    assert!(matches!(ensure_next(&s, true), EnsureAction::Probe));
    let (s2, a) = after_probe(s, 200);
    assert!(matches!(a, EnsureAction::Ready));
    assert!(s2.has_session);

    // An expired session is dropped and replaced by a new login.
    let s = EnsureState {
        has_session: true,
        attempts: 0,
    };
    let (s2, a) = after_probe(s, 401);
    assert!(matches!(a, EnsureAction::Probe));
    assert!(!s2.has_session);
    assert_eq!(s2.attempts, 1);
    assert!(matches!(ensure_next(&s2, true), EnsureAction::Login));
    assert!(matches!(ensure_next(&s2, false), EnsureAction::Fail(JssError::NotAuthenticated)));

    let worn = EnsureState {
        has_session: false,
        attempts: MAX_REAUTH_ATTEMPTS,
    };
    assert!(matches!(
        ensure_next(&worn, true),
        EnsureAction::Fail(JssError::Auth(m)) if m == "Re-authentication failed after maximum attempts"
    ));
}

#[test]
fn retry_classification() {
    assert!(matches!(classify_response(503, "busy"), Backoff::Transient(JssError::Http { status: 503, .. })));
    assert!(matches!(classify_response(429, ""), Backoff::Transient(_)));
    assert!(matches!(classify_response(401, ""), Backoff::Permanent(_)));
    assert!(matches!(classify_response(404, "nf"), Backoff::Permanent(JssError::Http { status: 404, ref body }) if body == "nf"));
    assert!(matches!(classify_response(418, ""), Backoff::Transient(_)));
    assert!(judge_get_attempt(200, "ok").is_none());
    assert!(matches!(judge_get_attempt(500, "x"), Some(Backoff::Transient(JssError::Http { status: 500, ref body })) if body == "x"));
    assert!(matches!(judge_get_attempt(401, ""), Some(Backoff::Permanent(JssError::Auth(m))) if m == "Unauthorized"));
    assert!(matches!(judge_write_attempt(502), Some(Backoff::Transient(JssError::Http { status: 502, ref body })) if body.is_empty()));
    assert!(judge_write_attempt(201).is_none());
    assert_eq!(max_elapsed_secs(30, 3), 120);
}

#[test]
fn request_headers() {
    assert_eq!(token_authorization("key", "secret"), "token key:secret");
    assert_eq!(csrf_header(true, Some("t")).as_deref(), Some("t"));
    assert_eq!(csrf_header(true, Some("")), None);
    assert_eq!(csrf_header(false, Some("t")), None);
    assert_eq!(status_text(404), "404 Not Found");

    let p = plan_request("https://example.com", "/api/resource/test", RequestKind::Post, true, Some("csrf"), None).unwrap();
    assert_eq!(p.url, "https://example.com/api/resource/test");
    assert_eq!(
        p.headers,
        vec![
            ("Content-Type".to_string(), "application/json".to_string()),
            ("X-Frappe-CSRF-Token".to_string(), "csrf".to_string()),
        ]
    );
    let p = plan_request("https://example.com", "/api/resource/test", RequestKind::Get, false, None, Some(("key", "secret"))).unwrap();
    assert_eq!(
        p.headers,
        vec![("Authorization".to_string(), "token key:secret".to_string())]
    );
    let p = plan_request("https://example.com", "/api/resource/test", RequestKind::Delete, true, Some("csrf"), None).unwrap();
    assert_eq!(
        p.headers,
        vec![("X-Frappe-CSRF-Token".to_string(), "csrf".to_string())]
    );
    assert!(plan_request("https://example.com", "/../etc/passwd", RequestKind::Get, true, None, None).is_err());
}

#[test]
fn request_paths() {
    assert_eq!(
        get_list_path("ToDo", "[\"name\"]", "[]", "[]", "modified desc", 0, 20, "List", "", true),
        "/api/method/frappe.desk.reportview.get_list?doctype=ToDo&fields=%5B%22name%22%5D&filters=%5B%5D&or_filters=%5B%5D&order_by=modified%20desc&start=0&page_length=20&view=List&group_by=&with_comment_count=1"
    );
    assert_eq!(
        doctype_meta_path("Sales Invoice"),
        "/api/method/frappe.desk.form.load.getdoctype?doctype=Sales%20Invoice&with_parent=1"
    );
    assert_eq!(
        file_list_path("Home", 5, None),
        "/api/resource/File?filters=%5B%5B%22File%22%2C%22folder%22%2C%22%3D%22%2C%22Home%22%5D%5D&fields=%5B%22file_name%22%2C%22file_url%22%2C%22file_size%22%2C%22file_type%22%2C%22is_private%22%2C%22attached_to_doctype%22%2C%22attached_to_name%22%2C%22attached_to_field%22%2C%22creation%22%2C%22modified%22%5D&limit_page_length=5&order_by=creation%20desc"
    );
    assert!(file_list_path("Home", 5, Some(vec![("File", "is_private", "=", "1")]))
        .starts_with("/api/resource/File?filters=%5B%5B%22File%22%2C%22folder%22%2C%22%3D%22%2C%22Home%22%5D%2C%5B%22File%22%2C%22is_private%22%2C%22%3D%22%2C%221%22%5D%5D&fields="));
    assert_eq!(
        notifications_path(10),
        "/api/method/frappe.desk.doctype.notification_log.notification_log.get_notification_logs?limit=10"
    );
    assert_eq!(
        events_path("2024-01-01", "2024-01-31"),
        "/api/method/frappe.desk.doctype.event.event.get_events?start=2024-01-01&end=2024-01-31"
    );
    assert_eq!(
        desktop_page_path("Home", "Home", true),
        "/api/method/frappe.desk.desktop.get_desktop_page?page=%7B%22name%22%3A%22Home%22%2C%22public%22%3Atrue%2C%22title%22%3A%22Home%22%7D"
    );
    assert_eq!(
        pdf_download_path("Kartu Piutang", "KP-001", "Standard", true),
        "/api/method/frappe.utils.print_format.download_pdf?doctype=Kartu%20Piutang&name=KP-001&format=Standard&no_letterhead=1"
    );
    assert_eq!(doc_path("ToDo", "abc"), "/api/resource/ToDo/abc");
    assert_eq!(resource_path("ToDo"), "/api/resource/ToDo");
    assert_eq!(method_path("ping"), "/api/method/ping");
    assert_eq!(join_texts(&texts(&["a", "b", "c"]), "&"), "a&b&c");
    assert_eq!(join_texts(&vec![], "&"), "");
}

#[test]
fn method_bodies_and_forms() {
    assert_eq!(method_args_body(None), "{}");
    let args = vec![("a".to_string(), "1".to_string()), ("b\"".to_string(), "x".to_string())];
    assert_eq!(method_args_body(Some(&args)), "{\"a\":\"1\",\"b\\\"\":\"x\"}");

    let f = global_search_form("milk", 20, None);
    assert_eq!(f.path, "/api/method/frappe.utils.global_search.search");
    assert_eq!(
        f.form,
        vec![
            ("text".to_string(), "milk".to_string()),
            ("start".to_string(), "0".to_string()),
            ("limit".to_string(), "20".to_string()),
            ("doctype".to_string(), "".to_string()),
        ]
    );
    let f = search_link_form("a", "Item", "Sales Order", 10);
    assert_eq!(f.form[3], ("page_length".to_string(), "10".to_string()));
    let f = get_count_form("ToDo", "[]", "[]", false);
    assert_eq!(f.form[3], ("distinct".to_string(), "false".to_string()));
    assert_eq!(get_transitions_form("{}").form, vec![("doc".to_string(), "{}".to_string())]);
    assert_eq!(save_user_settings_form("ToDo", "{}").form.len(), 2);
    assert_eq!(list_settings_form("ToDo").path, "/api/method/frappe.desk.listview.get_list_settings");
    assert_eq!(lazy_child_rows_form("D1", "tab").form[1], ("tab".to_string(), "tab".to_string()));
}

#[test]
fn resource_queries() {
    let q = ResourceQuery::new("ToDo");
    assert_eq!(q.path(), "/api/resource/ToDo");
    let q = ResourceQuery::new("ToDo")
        .filter("status", "=", "Open")
        .fields(vec!["name", "status"])
        .order_by("modified desc")
        .limit(0)
        .limit_start(40);
    assert_eq!(
        q.path(),
        "/api/resource/ToDo?filters=%5B%5B%22status%22%2C%22%3D%22%2C%22Open%22%5D%5D&fields=%5B%22name%22%2C%22status%22%5D&order_by=modified%20desc&limit_page_length=200&limit_start=40"
    );
    assert_eq!(
        q.page(400).path(),
        "/api/resource/ToDo?filters=%5B%5B%22status%22%2C%22%3D%22%2C%22Open%22%5D%5D&fields=%5B%22name%22%2C%22status%22%5D&order_by=modified%20desc&limit_page_length=200&limit_start=400"
    );
    assert_eq!(ResourceQuery::new("X").limit(7).path(), "/api/resource/X?limit_page_length=7");
    assert_eq!(next_page_start(0, 200), Some(200));
    assert_eq!(next_page_start(200, 0), None);
}

#[test]
fn report_bodies() {
    let q = ReportQuery::new("General Ledger")
        .add_filter("to_date", "2024-12-31")
        .add_filter("company", "ACME")
        .add_filter("to_date", "2024-06-30");
    assert_eq!(
        q.body(),
        "{\"filters\":{\"company\":\"ACME\",\"to_date\":\"2024-06-30\"},\"report_name\":\"General Ledger\"}"
    );
    assert_eq!(
        ReportQuery::new("R").body(),
        "{\"filters\":{},\"report_name\":\"R\"}"
    );
}

#[test]
fn single_page_readers() {
    assert_eq!(csrf_token_reply(200, Some("tok")).unwrap(), "tok");
    assert!(matches!(csrf_token_reply(200, None), Err(JssError::Csrf(m)) if m == "Unable to obtain CSRF token"));
    assert!(matches!(csrf_token_reply(500, Some("tok")), Err(JssError::Csrf(_))));
    let info = UserInfo {
        message: UserInfoMessage {
            name: "admin".into(),
            email: None,
            roles: texts(&["System Manager"]),
        },
    };
    assert_eq!(user_info_reply(200, Ok(info)).unwrap().message.name, "admin");
    assert!(matches!(user_info_reply(403, Err("x".into())), Err(JssError::Auth(m)) if m == "Failed to verify session"));
    assert!(matches!(user_info_reply(200, Err("eof".into())), Err(JssError::Parse(m)) if m == "Failed to parse user info: eof"));
    assert_eq!(
        sitename_in_page("some html \"sitename\": \"wrongsite\" more").unwrap(),
        "wrongsite"
    );
    assert!(matches!(sitename_in_page("none"), Err(JssError::Parse(m)) if m == "Sitename not found in /app"));
}

#[test]
fn cli_settings() {
    let s = client_settings(
        None,
        Some("System Manager, Accounts User,"),
        Some("12"),
        Some("x"),
        None,
        Some("TRUE"),
    );
    assert_eq!(s.required_roles, texts(&["System Manager", "Accounts User", ""]));
    assert_eq!(s.timeout_secs, 12);
    assert_eq!(s.max_retries, 3);
    assert_eq!(s.user_agent, "cli-auth-test/1.0");
    assert!(s.insecure_ssl);
    let s = client_settings(Some("site".into()), None, None, Some("5"), Some("ua".into()), Some("yes"));
    assert!(s.required_roles.is_empty());
    assert_eq!(s.timeout_secs, 30);
    assert_eq!(s.max_retries, 5);
    assert!(!s.insecure_ssl);

    assert!(matches!(
        choose_auth_mode(Some("e".into()), Some("p".into()), Some("k".into()), Some("s".into())),
        Some(AuthChoice::Token { .. })
    ));
    assert!(matches!(
        choose_auth_mode(Some("e".into()), Some("p".into()), Some("k".into()), None),
        Some(AuthChoice::Session { .. })
    ));
    assert!(choose_auth_mode(Some("e".into()), None, None, Some("s".into())).is_none());
}

#[test]
fn session_info_fields() {
    let s = SessionInfo {
        sid: "a".into(),
        csrf_token: "b".into(),
        full_name: None,
        sitename: "c".into(),
        roles: vec![],
    };
    assert_eq!(s.sid, "a");
}
