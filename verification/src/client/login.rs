//! The decisions of a session login against a Frappe site: the login reply's status,
//! the reading of the desk page (`/app`), and the checks of site name and roles that
//! the client configuration asks for.
use crate::client::error::{JssError, JssErrorView};
use crate::client::http::{status_display, status_text};
use crate::client::types::{
    BootUser, LoginApiMessage, LoginApiMessageView, LoginApiResponse, SessionInfo,
    SessionInfoView,
};
use crate::json::{json_member_string, json_member_text};
use crate::text::{
    opt_str_view,
    chars_of, copy_texts, find_chars, find_from, lemma_find_from_bounds, opt_view,
    owned, parse_u64, parse_u64_spec, push_str, slice_chars, string_of, texts_contain,
    texts_view,
};
use vstd::prelude::*;

verus! {

// ---------------------------------------------------------------- the login reply

/// What the login reply's status decides: 429 is a rate limit (with the `Retry-After`
/// header's number of seconds, when it reads as one), anything but 200 a failed login.
pub open spec fn login_status_check(status: u16, retry_after: Option<Seq<char>>) -> Result<
    (),
    JssErrorView,
> {
    if status == 429 {
        Err(
            JssErrorView::RateLimited {
                retry_after: match retry_after {
                    Some(t) => parse_u64_spec(t),
                    None => None,
                },
            },
        )
    } else if status != 200 {
        Err(JssErrorView::Auth("Login failed: HTTP "@ + status_display(status)))
    } else {
        Ok(())
    }
}

/// Checks the status of the login reply; `retry_after` is the `Retry-After` header,
/// when it is present and readable as text.
pub fn check_login_status(status: u16, retry_after: Option<&str>) -> (r: Result<(), JssError>)
    requires
        100 <= status <= 999,
    ensures
        r is Ok == login_status_check(
            status,
            match retry_after {
                Some(t) => Some(t@),
                None => None,
            },
        ) is Ok,
        r matches Err(e) ==> login_status_check(
            status,
            match retry_after {
                Some(t) => Some(t@),
                None => None,
            },
        ) == Err::<(), JssErrorView>(e@),
{
    if status == 429 {
        let retry_after = match retry_after {
            Some(t) => parse_u64(t),
            None => None,
        };
        return Err(JssError::RateLimited { retry_after });
    }
    if status != 200 {
        let mut m = owned("Login failed: HTTP ");
        let s = status_text(status);
        push_str(&mut m, s.as_str());
        return Err(JssError::Auth(m));
    }
    Ok(())
}

/// What the login reply's JSON gives: a `message` that is the text `Logged In` stands
/// for a session without id (the member `full_name` next to it gives the name);
/// otherwise the reply must have the shape `{"message": {"sid": .., "full_name": ..}}`.
pub open spec fn login_reply_outcome(
    message_text: Option<Seq<char>>,
    full_name: Option<Seq<char>>,
    parsed: Result<LoginApiMessageView, Seq<char>>,
) -> Result<LoginApiMessageView, JssErrorView> {
    if message_text == Some("Logged In"@) {
        Ok(LoginApiMessageView { sid: Seq::empty(), full_name })
    } else {
        match parsed {
            Ok(m) => Ok(m),
            Err(e) => Err(JssErrorView::Parse("Failed to parse login response: "@ + e)),
        }
    }
}

/// Reads the login reply. `message_text` is its member `message` when that is a
/// string, `full_name` its member `full_name` when that is a string, and `parsed` the
/// reply read as a [`LoginApiResponse`] (or why it could not be).
pub fn login_reply(
    message_text: Option<&str>,
    full_name: Option<&str>,
    parsed: Result<LoginApiResponse, String>,
) -> (r: Result<LoginApiMessage, JssError>)
    ensures
        ({
            let outcome = login_reply_outcome(
                match message_text {
                    Some(t) => Some(t@),
                    None => None,
                },
                match full_name {
                    Some(t) => Some(t@),
                    None => None,
                },
                match parsed {
                    Ok(p) => Ok(p.message@),
                    Err(e) => Err(e@),
                },
            );
            &&& r matches Ok(m) ==> outcome == Ok::<LoginApiMessageView, JssErrorView>(m@)
            &&& r matches Err(e) ==> outcome == Err::<LoginApiMessageView, JssErrorView>(e@)
        }),
{
    let logged_in = match message_text {
        Some(t) => owned(t) == owned("Logged In"),
        None => false,
    };
    if logged_in {
        let full_name = match full_name {
            Some(t) => Some(owned(t)),
            None => None,
        };
        return Ok(LoginApiMessage { sid: String::new(), full_name });
    }
    match parsed {
        Ok(p) => Ok(p.message),
        Err(e) => {
            let mut m = owned("Failed to parse login response: ");
            push_str(&mut m, e.as_str());
            Err(JssError::Parse(m))
        },
    }
}

// ---------------------------------------------------------------- the desk page

/// Whether the desk page was served: any 2xx status.
pub open spec fn app_page_check(status: u16) -> Result<(), JssErrorView> {
    if 200 <= status <= 299 {
        Ok(())
    } else {
        Err(JssErrorView::Auth("Failed to load /app"@))
    }
}

/// Checks the status with which the desk page was served.
pub fn check_app_page_status(status: u16) -> (r: Result<(), JssError>)
    ensures
        r is Ok == app_page_check(status) is Ok,
        r matches Err(e) ==> app_page_check(status) == Err::<(), JssErrorView>(e@),
{
    if 200 <= status && status <= 299 {
        Ok(())
    } else {
        Err(JssError::Auth(owned("Failed to load /app")))
    }
}

/// The CSRF token that a script's text assigns: after `frappe.csrf_token`, the text
/// between the next two double quotes.
pub open spec fn csrf_in_text(t: Seq<char>) -> Option<Seq<char>> {
    match find_from(t, "frappe.csrf_token"@, 0) {
        None => None,
        Some(p) => match find_from(t, seq!['"'], p) {
            None => None,
            Some(s) => match find_from(t, seq!['"'], s + 1) {
                None => None,
                Some(e) => Some(t.subrange(s + 1, e)),
            },
        },
    }
}

/// The CSRF token of the first script that assigns one, or the empty text.
pub open spec fn csrf_in_scripts(scripts: Seq<Seq<char>>) -> Seq<char>
    decreases scripts.len(),
{
    if scripts.len() == 0 {
        Seq::empty()
    } else {
        match csrf_in_text(scripts[0]) {
            Some(t) => t,
            None => csrf_in_scripts(scripts.drop_first()),
        }
    }
}

/// The CSRF token that one script's text assigns, if it assigns one.
pub fn csrf_in_script(text: &str) -> (r: Option<String>)
    ensures
        opt_view(r) == csrf_in_text(text@),
{
    let v = chars_of(text);
    let pat = chars_of("frappe.csrf_token");
    let q: Vec<char> = vec!['"'];
    assert(q@ == seq!['"']);
    match find_chars(&v, &pat, 0) {
        None => None,
        Some(p) => match find_chars(&v, &q, p) {
            None => None,
            Some(s) => {
                proof {
                    lemma_find_from_bounds(v@, q@, p as int);
                }
                assert(s + 1 <= v.len());
                match find_chars(&v, &q, s + 1) {
                    None => None,
                    Some(e) => {
                        proof {
                            lemma_find_from_bounds(v@, q@, s + 1);
                        }
                        Some(string_of(&slice_chars(&v, s + 1, e)))
                    },
                }
            },
        },
    }
}

/// The CSRF token of the desk page: that of the first script which assigns one, else
/// the empty text.
pub fn csrf_token_in(scripts: &Vec<String>) -> (r: String)
    ensures
        r@ == csrf_in_scripts(texts_view(scripts@)),
{
    let ghost all = texts_view(scripts@);
    let mut i: usize = 0;
    assert(all.skip(0) =~= all);
    while i < scripts.len()
        invariant
            i <= scripts.len(),
            all == texts_view(scripts@),
            csrf_in_scripts(all) == csrf_in_scripts(all.skip(i as int)),
        decreases scripts.len() - i,
    {
        let found = csrf_in_script(scripts[i].as_str());
        assert(all.skip(i as int)[0] == scripts@[i as int]@);
        assert(all.skip(i as int).drop_first() =~= all.skip(i + 1));
        match found {
            Some(t) => {
                return t;
            },
            None => {},
        }
        i = i + 1;
    }
    assert(all.skip(i as int).len() == 0);
    String::new()
}

/// The `inner_html` of each element that `selector` picks out of the HTML document
/// `html`, in document order; `None` when the selector does not parse.
pub uninterp spec fn selected_inner_html(html: Seq<char>, selector: Seq<char>) -> Option<
    Seq<Seq<char>>,
>;

/// `scraper::Html::parse_document`, `Selector::parse`, `select` and
/// `ElementRef::inner_html`: the selected elements' inner HTML, named by
/// [`selected_inner_html`].
#[verifier::external_body]
fn select_inner_html(html: &str, selector: &str) -> (r: Option<Vec<String>>)
    ensures
        selected_inner_html(html@, selector@) == match r {
            Some(v) => Some(texts_view(v@)),
            None => None::<Seq<Seq<char>>>,
        },
{
    let document = scraper::Html::parse_document(html);
    let parsed = scraper::Selector::parse(selector);
    match parsed {
        Ok(sel) => {
            let mut out = Vec::new();
            for e in document.select(&sel) {
                out.push(e.inner_html());
            }
            Some(out)
        },
        Err(_) => None,
    }
}

/// What a regular expression finds in a text: the text of capture group `group` of
/// the first match. `Err` when the pattern does not compile, `Ok(None)` when nothing
/// matches, `Ok(Some(None))` when the group took no part in the match.
pub uninterp spec fn regex_capture(pattern: Seq<char>, text: Seq<char>, group: nat) -> Result<
    Option<Option<Seq<char>>>,
    (),
>;

pub open spec fn capture_view(r: Result<Option<Option<String>>, ()>) -> Result<
    Option<Option<Seq<char>>>,
    (),
> {
    match r {
        Err(()) => Err(()),
        Ok(None) => Ok(None),
        Ok(Some(None)) => Ok(Some(None)),
        Ok(Some(Some(s))) => Ok(Some(Some(s@))),
    }
}

/// `regex::Regex::new`, `captures` and `Captures::get`: the capture named by
/// [`regex_capture`].
#[verifier::external_body]
fn first_capture(pattern: &str, text: &str, group: usize) -> (r: Result<
    Option<Option<String>>,
    (),
>)
    ensures
        regex_capture(pattern@, text@, group as nat) == capture_view(r),
{
    match regex::Regex::new(pattern) {
        Ok(re) => match re.captures(text) {
            None => Ok(None),
            Some(c) => match c.get(group) {
                None => Ok(Some(None)),
                Some(m) => Ok(Some(Some(m.as_str().to_string()))),
            },
        },
        Err(_) => Err(()),
    }
}

/// What the desk page yields: the CSRF token of its scripts, and the JSON text of the
/// object assigned to `frappe.boot` (up to the first `});` that ends a line).
pub open spec fn app_data_of(html: Seq<char>) -> Result<(Seq<char>, Seq<char>), JssErrorView> {
    match selected_inner_html(html, "script"@) {
        None => Err(JssErrorView::Parse("Failed to parse CSS selector"@)),
        Some(scripts) => match regex_capture(
            "(?s)frappe\\.boot\\s*=\\s*(\\{.*?\\});\\s*\\n"@,
            html,
            1,
        ) {
            Err(()) => Err(JssErrorView::Parse("Regex compilation error"@)),
            Ok(None) => Err(JssErrorView::Parse("Could not find frappe.boot object in /app"@)),
            Ok(Some(None)) => Err(JssErrorView::Parse("Regex capture group missing"@)),
            Ok(Some(Some(boot))) => Ok((csrf_in_scripts(scripts), boot)),
        },
    }
}

/// Reads the desk page: its CSRF token and the JSON text of its `frappe.boot` object.
pub fn extract_app_data(html: &str) -> (r: Result<(String, String), JssError>)
    ensures
        r matches Ok((csrf, boot)) ==> app_data_of(html@) == Ok::<
            (Seq<char>, Seq<char>),
            JssErrorView,
        >((csrf@, boot@)),
        r matches Err(e) ==> app_data_of(html@) == Err::<(Seq<char>, Seq<char>), JssErrorView>(
            e@,
        ),
{
    let scripts = match select_inner_html(html, "script") {
        Some(s) => s,
        None => {
            return Err(JssError::Parse(owned("Failed to parse CSS selector")));
        },
    };
    let csrf = csrf_token_in(&scripts);
    match first_capture("(?s)frappe\\.boot\\s*=\\s*(\\{.*?\\});\\s*\\n", html, 1) {
        Err(()) => Err(JssError::Parse(owned("Regex compilation error"))),
        Ok(None) => Err(JssError::Parse(owned("Could not find frappe.boot object in /app"))),
        Ok(Some(None)) => Err(JssError::Parse(owned("Regex capture group missing"))),
        Ok(Some(Some(boot))) => Ok((csrf, boot)),
    }
}

// ---------------------------------------------------------------- the checks

/// How `{:?}` writes a list of texts (`["a", "b"]`, each text escaped as `Debug` does).
pub uninterp spec fn debug_text_list(items: Seq<Seq<char>>) -> Seq<char>;

/// `<Vec<String> as Debug>::fmt`, through `format!`: the text named by
/// [`debug_text_list`].
#[verifier::external_body]
fn debug_list(items: &Vec<String>) -> (r: String)
    ensures
        r@ == debug_text_list(texts_view(items@)),
{
    format!("{:?}", items)
}

/// Whether one of the required roles is among the user's roles.
pub open spec fn has_any_role(required: Seq<Seq<char>>, roles: Seq<Seq<char>>) -> bool {
    exists|i: int| 0 <= i < required.len() && roles.contains(#[trigger] required[i])
}

/// What a login ends in once the desk page is read: the site must be the expected one,
/// and the user must hold one of the required roles (when any are required). The
/// session then takes the login's session id, the page's CSRF token, the user's full
/// name from the boot object (or, when that is empty, from the login reply), the site
/// name and the user's roles.
pub open spec fn login_outcome(
    expected_sitename: Option<Seq<char>>,
    required_roles: Seq<Seq<char>>,
    message: LoginApiMessageView,
    csrf_token: Seq<char>,
    user_full_name: Seq<char>,
    user_roles: Seq<Seq<char>>,
    sitename: Seq<char>,
) -> Result<SessionInfoView, JssErrorView> {
    if expected_sitename matches Some(e) && e != sitename {
        Err(JssErrorView::SitenameMismatch { expected: expected_sitename->0, actual: sitename })
    } else if required_roles.len() > 0 && !has_any_role(required_roles, user_roles) {
        Err(
            JssErrorView::Permission(
                "Missing one of required roles: "@ + debug_text_list(required_roles),
            ),
        )
    } else {
        Ok(
            SessionInfoView {
                sid: message.sid,
                csrf_token,
                full_name: if user_full_name.len() == 0 {
                    message.full_name
                } else {
                    Some(user_full_name)
                },
                sitename,
                roles: user_roles,
            },
        )
    }
}

/// Whether one of `required` is in `roles`.
fn any_role_held(required: &Vec<String>, roles: &Vec<String>) -> (b: bool)
    ensures
        b == has_any_role(texts_view(required@), texts_view(roles@)),
{
    let ghost req = texts_view(required@);
    let ghost held = texts_view(roles@);
    for i in 0..required.len()
        invariant
            req == texts_view(required@),
            held == texts_view(roles@),
            forall|j: int| 0 <= j < i ==> !held.contains(#[trigger] req[j]),
    {
        if texts_contain(roles, &required[i]) {
            assert(req[i as int] == required@[i as int]@);
            return true;
        }
        assert(req[i as int] == required@[i as int]@);
    }
    false
}

/// Finishes a login from the login reply's message, the desk page's CSRF token and the
/// boot object's user and site name, checking them against the expected site name and
/// the required roles.
pub fn complete_login(
    expected_sitename: &Option<String>,
    required_roles: &Vec<String>,
    message: LoginApiMessage,
    csrf_token: String,
    user: &BootUser,
    sitename: &String,
) -> (r: Result<SessionInfo, JssError>)
    ensures
        r matches Ok(s) ==> login_outcome(
            opt_view(*expected_sitename),
            texts_view(required_roles@),
            message@,
            csrf_token@,
            user.full_name@,
            texts_view(user.roles@),
            sitename@,
        ) == Ok::<SessionInfoView, JssErrorView>(s@),
        r matches Err(e) ==> login_outcome(
            opt_view(*expected_sitename),
            texts_view(required_roles@),
            message@,
            csrf_token@,
            user.full_name@,
            texts_view(user.roles@),
            sitename@,
        ) == Err::<SessionInfoView, JssErrorView>(e@),
{
    if let Some(expected) = expected_sitename {
        if *expected != *sitename {
            return Err(
                JssError::SitenameMismatch { expected: expected.clone(), actual: sitename.clone() },
            );
        }
    }
    if required_roles.len() > 0 && !any_role_held(required_roles, &user.roles) {
        let mut m = owned("Missing one of required roles: ");
        let listed = debug_list(required_roles);
        push_str(&mut m, listed.as_str());
        return Err(JssError::Permission(m));
    }
    let full_name = if user.full_name.as_str().is_empty() {
        message.full_name
    } else {
        Some(user.full_name.clone())
    };
    Ok(
        SessionInfo {
            sid: message.sid,
            csrf_token,
            full_name,
            sitename: sitename.clone(),
            roles: copy_texts(&user.roles),
        },
    )
}

/// The session of token mode: no session id but the marker `token-mode`, no CSRF
/// token, no name, no roles, and the expected site name (or the empty text).
pub open spec fn token_session_view(expected_sitename: Option<Seq<char>>) -> SessionInfoView {
    SessionInfoView {
        sid: "token-mode"@,
        csrf_token: Seq::empty(),
        full_name: None,
        sitename: match expected_sitename {
            Some(s) => s,
            None => Seq::empty(),
        },
        roles: Seq::empty(),
    }
}

/// Sets up the session of token mode.
pub fn setup_token_session(expected_sitename: Option<String>) -> (s: SessionInfo)
    ensures
        s@ == token_session_view(opt_view(expected_sitename)),
{
    let roles: Vec<String> = Vec::new();
    assert(texts_view(roles@) =~= Seq::<Seq<char>>::empty());
    SessionInfo {
        sid: owned("token-mode"),
        csrf_token: String::new(),
        full_name: None,
        sitename: match expected_sitename {
            Some(s) => s,
            None => String::new(),
        },
        roles,
    }
}

// ---------------------------------------------------------------- single-page readers

/// What the CSRF endpoint's answer gives: on a 2xx status, its `message` when that is a
/// string; otherwise no token.
pub open spec fn csrf_reply_outcome(status: u16, message: Option<Seq<char>>) -> Result<
    Seq<char>,
    JssErrorView,
> {
    if 200 <= status <= 299 && message is Some {
        Ok(message->0)
    } else {
        Err(JssErrorView::Csrf("Unable to obtain CSRF token"@))
    }
}

/// Reads the CSRF endpoint's answer; `message` is its JSON member `message` when the
/// body is JSON and that member is a string.
pub fn csrf_token_reply(status: u16, message: Option<&str>) -> (r: Result<String, JssError>)
    ensures
        ({
            let outcome = csrf_reply_outcome(
                status,
                match message {
                    Some(m) => Some(m@),
                    None => None,
                },
            );
            &&& r matches Ok(t) ==> outcome == Ok::<Seq<char>, JssErrorView>(t@)
            &&& r matches Err(e) ==> outcome == Err::<Seq<char>, JssErrorView>(e@)
        }),
{
    if 200 <= status && status <= 299 {
        if let Some(m) = message {
            return Ok(owned(m));
        }
    }
    Err(JssError::Csrf(owned("Unable to obtain CSRF token")))
}

/// Reads the `get_logged_user` answer: a 2xx status is needed, then the body read as a
/// [`UserInfo`](crate::client::types::UserInfo) (or why it could not be).
pub fn user_info_reply(status: u16, parsed: Result<crate::client::types::UserInfo, String>) -> (r:
    Result<crate::client::types::UserInfo, JssError>)
    ensures
        !(200 <= status <= 299) ==> (r matches Err(e) && e@ == JssErrorView::Auth(
            "Failed to verify session"@,
        )),
        200 <= status <= 299 ==> match parsed {
            Ok(u) => r == Ok::<crate::client::types::UserInfo, JssError>(u),
            Err(m) => r matches Err(e) && e@ == JssErrorView::Parse(
                "Failed to parse user info: "@ + m@,
            ),
        },
{
    if !(200 <= status && status <= 299) {
        return Err(JssError::Auth(owned("Failed to verify session")));
    }
    match parsed {
        Ok(u) => Ok(u),
        Err(m) => {
            let mut t = owned("Failed to parse user info: ");
            push_str(&mut t, m.as_str());
            Err(JssError::Parse(t))
        },
    }
}

/// The site name that a desk page states (`"sitename": "<name>"`): the first capture of
/// that pattern. A match without the group is taken as no site name.
pub open spec fn sitename_outcome(html: Seq<char>) -> Result<Seq<char>, JssErrorView> {
    match regex_capture("\"sitename\"\\s*:\\s*\"([^\"]+)\""@, html, 1) {
        Err(()) => Err(JssErrorView::Parse("Regex compilation failed"@)),
        Ok(Some(Some(name))) => Ok(name),
        _ => Err(JssErrorView::Parse("Sitename not found in /app"@)),
    }
}

/// Reads the site name from the desk page.
pub fn sitename_in_page(html: &str) -> (r: Result<String, JssError>)
    ensures
        r matches Ok(n) ==> sitename_outcome(html@) == Ok::<Seq<char>, JssErrorView>(n@),
        r matches Err(e) ==> sitename_outcome(html@) == Err::<Seq<char>, JssErrorView>(e@),
{
    match first_capture("\"sitename\"\\s*:\\s*\"([^\"]+)\"", html, 1) {
        Err(()) => Err(JssError::Parse(owned("Regex compilation failed"))),
        Ok(Some(Some(name))) => Ok(name),
        _ => Err(JssError::Parse(owned("Sitename not found in /app"))),
    }
}

// ---------------------------------------------------------------- the session login

/// What the `get_logged_user` answer gives of the user: on a 2xx status, the roles of
/// the body read as a [`UserInfo`](crate::client::types::UserInfo).
pub open spec fn user_roles_outcome(status: u16, parsed: Result<Seq<Seq<char>>, Seq<char>>) -> Result<
    Seq<Seq<char>>,
    JssErrorView,
> {
    if !(200 <= status <= 299) {
        Err(JssErrorView::Auth("Failed to verify session"@))
    } else {
        match parsed {
            Ok(roles) => Ok(roles),
            Err(m) => Err(JssErrorView::Parse("Failed to parse user info: "@ + m)),
        }
    }
}

/// The site name of a session login. Only an expected site name is checked: it is read
/// from the desk page (no page gives no site name) and must be the expected one.
/// Without an expected site name the session's site name is empty.
pub open spec fn login_sitename_outcome(expected: Option<Seq<char>>, page: Option<Seq<char>>) -> Result<
    Seq<char>,
    JssErrorView,
> {
    match expected {
        None => Ok(Seq::empty()),
        Some(e) => match page {
            None => Err(JssErrorView::Parse("Sitename not found in /app"@)),
            Some(html) => match sitename_outcome(html) {
                Err(err) => Err(err),
                Ok(name) => if name == e {
                    Ok(name)
                } else {
                    Err(JssErrorView::SitenameMismatch { expected: e, actual: name })
                },
            },
        },
    }
}

/// What a session login ends in, from the login reply's message, the CSRF token, the
/// user's roles and the site name, checked in that order: the first error is the
/// answer; then one of the required roles must be held (when any are required). The
/// session takes the login's session id and full name, the CSRF token, the site name
/// and the user's roles.
pub open spec fn session_login_outcome(
    required_roles: Seq<Seq<char>>,
    message: LoginApiMessageView,
    csrf: Result<Seq<char>, JssErrorView>,
    roles: Result<Seq<Seq<char>>, JssErrorView>,
    sitename: Result<Seq<char>, JssErrorView>,
) -> Result<SessionInfoView, JssErrorView> {
    match csrf {
        Err(e) => Err(e),
        Ok(token) => match roles {
            Err(e) => Err(e),
            Ok(roles) => match sitename {
                Err(e) => Err(e),
                Ok(site) => if required_roles.len() > 0 && !has_any_role(required_roles, roles) {
                    Err(
                        JssErrorView::Permission(
                            "Missing one of required roles: "@ + debug_text_list(required_roles),
                        ),
                    )
                } else {
                    Ok(
                        SessionInfoView {
                            sid: message.sid,
                            csrf_token: token,
                            full_name: message.full_name,
                            sitename: site,
                            roles,
                        },
                    )
                },
            },
        },
    }
}

/// The session login's outcome over the answers as they came: the CSRF endpoint's status
/// and `message`, the `get_logged_user` status and body (read, or why not), and the
/// desk page when it was fetched.
pub open spec fn session_login_spec(
    expected_sitename: Option<Seq<char>>,
    required_roles: Seq<Seq<char>>,
    message: LoginApiMessageView,
    csrf_status: u16,
    csrf_message: Option<Seq<char>>,
    user_status: u16,
    user_roles: Result<Seq<Seq<char>>, Seq<char>>,
    app_page: Option<Seq<char>>,
) -> Result<SessionInfoView, JssErrorView> {
    session_login_outcome(
        required_roles,
        message,
        csrf_reply_outcome(csrf_status, csrf_message),
        user_roles_outcome(user_status, user_roles),
        login_sitename_outcome(expected_sitename, app_page),
    )
}

/// The roles of a `get_logged_user` body, or why it could not be read.
pub open spec fn parsed_roles(parsed: Result<crate::client::types::UserInfo, String>) -> Result<
    Seq<Seq<char>>,
    Seq<char>,
> {
    match parsed {
        Ok(u) => Ok(texts_view(u.message.roles@)),
        Err(m) => Err(m@),
    }
}

/// Finishes a session login once the site has answered: `message` is the login reply's
/// message; `csrf_status` and `csrf_message` the CSRF endpoint's status and its JSON
/// member `message` (when the body is JSON and that member is a string); `user_status`
/// and `user` the `get_logged_user` status and body read as a
/// [`UserInfo`](crate::client::types::UserInfo) (or why it could not be); `app_page`
/// the desk page, which is only read when a site name is expected.
pub fn session_login(
    expected_sitename: &Option<String>,
    required_roles: &Vec<String>,
    message: LoginApiMessage,
    csrf_status: u16,
    csrf_message: Option<&str>,
    user_status: u16,
    user: Result<crate::client::types::UserInfo, String>,
    app_page: Option<&str>,
) -> (r: Result<SessionInfo, JssError>)
    ensures
        ({
            let outcome = session_login_spec(
                opt_view(*expected_sitename),
                texts_view(required_roles@),
                message@,
                csrf_status,
                opt_str_view(csrf_message),
                user_status,
                parsed_roles(user),
                opt_str_view(app_page),
            );
            &&& r matches Ok(s) ==> outcome == Ok::<SessionInfoView, JssErrorView>(s@)
            &&& r matches Err(e) ==> outcome == Err::<SessionInfoView, JssErrorView>(e@)
        }),
{
    let token = match csrf_token_reply(csrf_status, csrf_message) {
        Ok(t) => t,
        Err(e) => {
            return Err(e);
        },
    };
    let info = match user_info_reply(user_status, user) {
        Ok(u) => u,
        Err(e) => {
            return Err(e);
        },
    };
    let sitename = match expected_sitename {
        None => String::new(),
        Some(expected) => match app_page {
            None => {
                return Err(JssError::Parse(owned("Sitename not found in /app")));
            },
            Some(html) => match sitename_in_page(html) {
                Err(e) => {
                    return Err(e);
                },
                Ok(name) => {
                    if *expected != name {
                        return Err(
                            JssError::SitenameMismatch { expected: expected.clone(), actual: name },
                        );
                    }
                    name
                },
            },
        },
    };
    let roles = info.message.roles;
    if required_roles.len() > 0 && !any_role_held(required_roles, &roles) {
        let mut m = owned("Missing one of required roles: ");
        let listed = debug_list(required_roles);
        push_str(&mut m, listed.as_str());
        return Err(JssError::Permission(m));
    }
    Ok(
        SessionInfo {
            sid: message.sid,
            csrf_token: token,
            full_name: message.full_name,
            sitename,
            roles,
        },
    )
}

/// The members `message` and `full_name` of the login reply, when they are strings;
/// a reply that is not JSON is a parse error.
pub open spec fn login_members_outcome(body: Seq<char>) -> Result<
    (Option<Seq<char>>, Option<Seq<char>>),
    JssErrorView,
> {
    match json_member_string(body, "message"@) {
        Err(e) => Err(JssErrorView::Parse("Login response not valid JSON: "@ + e)),
        Ok(message) => match json_member_string(body, "full_name"@) {
            Err(e) => Err(JssErrorView::Parse("Login response not valid JSON: "@ + e)),
            Ok(full_name) => Ok((message, full_name)),
        },
    }
}

/// Reads the members `message` and `full_name` of the login reply's body (see
/// [`login_reply`], which takes them).
pub fn login_reply_members(body: &str) -> (r: Result<(Option<String>, Option<String>), JssError>)
    ensures
        match r {
            Ok((m, f)) => login_members_outcome(body@) == Ok::<
                (Option<Seq<char>>, Option<Seq<char>>),
                JssErrorView,
            >((opt_view(m), opt_view(f))),
            Err(e) => login_members_outcome(body@) == Err::<
                (Option<Seq<char>>, Option<Seq<char>>),
                JssErrorView,
            >(e@),
        },
{
    let message = match json_member_text(body, "message") {
        Ok(m) => m,
        Err(e) => {
            let mut t = owned("Login response not valid JSON: ");
            push_str(&mut t, e.as_str());
            return Err(JssError::Parse(t));
        },
    };
    let full_name = match json_member_text(body, "full_name") {
        Ok(f) => f,
        Err(e) => {
            let mut t = owned("Login response not valid JSON: ");
            push_str(&mut t, e.as_str());
            return Err(JssError::Parse(t));
        },
    };
    Ok((message, full_name))
}


/// Holding any one of the required roles, at whatever position it is listed, passes the
/// role check: with no expected site name the desk-page login succeeds, and so does the
/// session login once its answers were read.
pub proof fn law_one_required_role_suffices(
    required: Seq<Seq<char>>,
    roles: Seq<Seq<char>>,
    i: int,
    message: LoginApiMessageView,
    csrf_token: Seq<char>,
    user_full_name: Seq<char>,
    sitename: Seq<char>,
)
    requires
        0 <= i < required.len(),
        roles.contains(required[i]),
    ensures
        login_outcome(None, required, message, csrf_token, user_full_name, roles, sitename) is Ok,
        session_login_outcome(required, message, Ok(csrf_token), Ok(roles), Ok(sitename)) is Ok,
{
}

/// When required roles are listed and the user holds none of them, the login is refused
/// with a permission error naming them.
pub proof fn law_no_required_role_is_refused(
    required: Seq<Seq<char>>,
    roles: Seq<Seq<char>>,
    message: LoginApiMessageView,
    csrf_token: Seq<char>,
    user_full_name: Seq<char>,
    sitename: Seq<char>,
)
    requires
        required.len() > 0,
        forall|i: int| 0 <= i < required.len() ==> !roles.contains(#[trigger] required[i]),
    ensures
        login_outcome(None, required, message, csrf_token, user_full_name, roles, sitename)
            == Err::<SessionInfoView, JssErrorView>(
            JssErrorView::Permission("Missing one of required roles: "@ + debug_text_list(required)),
        ),
        session_login_outcome(required, message, Ok(csrf_token), Ok(roles), Ok(sitename))
            == Err::<SessionInfoView, JssErrorView>(
            JssErrorView::Permission("Missing one of required roles: "@ + debug_text_list(required)),
        ),
{
}

} // verus!
