//! The authentication gateway: what its HTTP endpoints answer (`/login`, `/check`,
//! `/logout` and the `/proxy/..` forwarder), how it reads its settings, and how it
//! logs users in against the upstream site.
use crate::auth::config::{config_from_env, default_config, AuthConfig, AuthConfigView, AuthEnv, SameSite};
use crate::auth::cookies::{
    is_cookie_name, law_session_cookie_read_back, parse_session_id_from_cookie,
    session_id_in_header,
};
use crate::auth::error::{auth_error_body, auth_error_status, AuthError, AuthErrorView};
use crate::auth::manager::{blank_credentials, login_response, logout_response, AuthManager};
use crate::auth::session::{
    deadlines_fit, in_time_range, is_session_token, new_session, now_timestamp, session_expired,
    session_verdict, SessionVerdict,
};
use crate::auth::store::ExternalSessionStore;
use crate::auth::types::{
    Credentials, HttpResponse, HttpResponseView, SessionInfo, SessionInfoView, SessionStore,
    UserInfo, UserInfoView, UserProvider,
};
use crate::client::query::{join_texts, joined};
use crate::json::{json_member_string, json_member_text, json_quote, json_quoted};
use crate::text::{
    chars_of, find_chars, find_from, lemma_find_from_bounds, opt_str_view, opt_view, owned, parse_u64, parse_u64_spec,
    push_str, slice_chars, split_commas, string_of, texts_view, trim, trim_chars,
};
use vstd::prelude::*;

verus! {

/// Where `/proxy/<path>` requests are forwarded.
pub open spec fn upstream_origin() -> Seq<char> {
    "https://app.juragansejati.biz.id"@
}

// ---------------------------------------------------------------- answers

/// An answer `{"error":"<message>"}` with the given status.
pub open spec fn error_reply(status: u16, message: Seq<char>) -> HttpResponseView {
    HttpResponseView {
        status,
        body: "{\"error\":"@ + json_quoted(message) + "}"@,
        headers: Seq::empty(),
    }
}

/// The answer for an authentication error: its status and its JSON body.
pub open spec fn error_response(e: AuthErrorView) -> HttpResponseView {
    HttpResponseView { status: auth_error_status(e), body: auth_error_body(e), headers: Seq::empty() }
}

fn error_reply_for(status: u16, message: &str) -> (r: HttpResponse)
    ensures
        r@ == error_reply(status, message@),
{
    let mut body = owned("{\"error\":");
    push_str(&mut body, json_quote(message).as_str());
    push_str(&mut body, "}");
    HttpResponse::json(status, body)
}

/// The answer for an authentication error.
pub fn auth_error_to_response(e: &AuthError) -> (r: HttpResponse)
    ensures
        r@ == error_response(e@),
{
    HttpResponse::json(e.status_code(), e.to_json_body())
}

// ---------------------------------------------------------------- /check

/// What `/check` finds.
pub enum CheckOutcome {
    /// The request's session is live; it is answered as JSON.
    Valid(SessionInfo),
    /// The answer, when there is no live session.
    Reply(HttpResponse),
}

pub enum CheckOutcomeView {
    Valid(SessionInfoView),
    Reply(HttpResponseView),
}

impl View for CheckOutcome {
    type V = CheckOutcomeView;

    open spec fn view(&self) -> CheckOutcomeView {
        match self {
            CheckOutcome::Valid(i) => CheckOutcomeView::Valid(i@),
            CheckOutcome::Reply(r) => CheckOutcomeView::Reply(r@),
        }
    }
}

/// What `/check` answers at time `now`: without a session cookie, 401 `no session
/// cookie`; otherwise the session if it is live, or the error that validating it gives.
pub open spec fn check_outcome(
    sessions: Map<Seq<char>, SessionInfoView>,
    config: AuthConfigView,
    cookie_header: Seq<char>,
    now: i128,
) -> CheckOutcomeView {
    match session_id_in_header(cookie_header, config.cookie_name) {
        None => CheckOutcomeView::Reply(error_reply(401, "no session cookie"@)),
        Some(id) => match session_verdict(sessions, id, now) {
            SessionVerdict::Valid(info) => CheckOutcomeView::Valid(info),
            SessionVerdict::NotFound => CheckOutcomeView::Reply(
                error_response(AuthErrorView::SessionNotFound),
            ),
            SessionVerdict::Expired => CheckOutcomeView::Reply(
                error_response(AuthErrorView::SessionExpired),
            ),
        },
    }
}

/// What `/check` answers once the session was validated: the live session, or the
/// answer for the error that validating it gave.
pub fn check_reply(validated: Result<SessionInfo, AuthError>) -> (r: CheckOutcome)
    ensures
        r@ == match validated {
            Ok(info) => CheckOutcomeView::Valid(info@),
            Err(e) => CheckOutcomeView::Reply(error_response(e@)),
        },
{
    match validated {
        Ok(info) => CheckOutcome::Valid(info),
        Err(e) => CheckOutcome::Reply(auth_error_to_response(&e)),
    }
}

/// `/check` at time `now`, for a request with the given `Cookie` header (empty when
/// there is none). The outcome of validating the session is answered by
/// [`check_reply`].
pub fn check_request_at<U: UserProvider, S: SessionStore>(
    manager: &mut AuthManager<U, S>,
    cookie_header: &str,
    now: i128,
) -> (r: CheckOutcome)
    ensures
        final(manager).config@ == old(manager).config@,
        final(manager).session_store.infallible() == old(manager).session_store.infallible(),
        old(manager).session_store.infallible() ==> r@ == check_outcome(
            old(manager).session_store.sessions(),
            old(manager).config@,
            cookie_header@,
            now,
        ),
        session_id_in_header(cookie_header@, old(manager).config@.cookie_name) is None ==> r@
            == CheckOutcomeView::Reply(error_reply(401, "no session cookie"@))
            && final(manager).session_store == old(manager).session_store,
        r matches CheckOutcome::Valid(info) ==> !session_expired(info@, now),
        r matches CheckOutcome::Reply(resp) ==> resp@ == error_reply(401, "no session cookie"@)
            || exists|e: AuthErrorView| resp@ == #[trigger] error_response(e),
{
    match parse_session_id_from_cookie(cookie_header, &manager.config) {
        None => CheckOutcome::Reply(error_reply_for(401, "no session cookie")),
        Some(sid) => {
            let validated = manager.validate_session_at(&sid, now);
            check_reply(validated)
        },
    }
}

/// `/check` now.
pub fn check_request<U: UserProvider, S: SessionStore>(
    manager: &mut AuthManager<U, S>,
    cookie_header: &str,
) -> (r: CheckOutcome)
    ensures
        final(manager).config@ == old(manager).config@,
        final(manager).session_store.infallible() == old(manager).session_store.infallible(),
        old(manager).session_store.infallible() ==> exists|now: i128|
            #![trigger check_outcome(old(manager).session_store.sessions(), old(manager).config@, cookie_header@, now)]
            in_time_range(now) && r@ == check_outcome(
                old(manager).session_store.sessions(),
                old(manager).config@,
                cookie_header@,
                now,
            ),
{
    let now = now_timestamp();
    let r = check_request_at(manager, cookie_header, now);
    assert(in_time_range(now));
    r
}

// ---------------------------------------------------------------- /proxy

/// What `/proxy/<path>` does.
pub enum ProxyPlan {
    /// Answer at once.
    Reply(HttpResponse),
    /// Send a GET to `url` with the user's upstream cookie.
    Forward { url: String, cookie: String },
}

pub enum ProxyPlanView {
    Reply(HttpResponseView),
    Forward { url: Seq<char>, cookie: Seq<char> },
}

impl View for ProxyPlan {
    type V = ProxyPlanView;

    open spec fn view(&self) -> ProxyPlanView {
        match self {
            ProxyPlan::Reply(r) => ProxyPlanView::Reply(r@),
            ProxyPlan::Forward { url, cookie } => ProxyPlanView::Forward {
                url: url@,
                cookie: cookie@,
            },
        }
    }
}

/// What `/proxy/<path>` does at time `now`: it needs a session cookie, a live session,
/// the upstream store (only kept in production) and the user's upstream cookie, each
/// refused with 401; then the request goes to the upstream site at `path` (or `/`).
pub open spec fn proxy_plan_spec(
    sessions: Map<Seq<char>, SessionInfoView>,
    config: AuthConfigView,
    cookie_header: Seq<char>,
    external: Option<Map<Seq<char>, Seq<char>>>,
    tail: Option<Seq<char>>,
    now: i128,
) -> ProxyPlanView {
    match session_id_in_header(cookie_header, config.cookie_name) {
        None => ProxyPlanView::Reply(error_reply(401, "no session cookie"@)),
        Some(id) => proxy_after_validation_spec(
            match session_verdict(sessions, id, now) {
                SessionVerdict::Valid(info) => Ok(info),
                SessionVerdict::NotFound => Err(AuthErrorView::SessionNotFound),
                SessionVerdict::Expired => Err(AuthErrorView::SessionExpired),
            },
            external,
            tail,
        ),
    }
}

/// The cookies of an upstream store, if there is one.
pub open spec fn store_view(external: Option<&ExternalSessionStore>) -> Option<Map<Seq<char>, Seq<char>>> {
    match external {
        Some(x) => Some(x@),
        None => None,
    }
}

/// What `/proxy/<path>` does once the session was validated: a validation error is
/// answered 401 with that error's JSON body; a live session is forwarded as
/// [`proxy_plan_spec`] says for a valid session.
pub open spec fn proxy_after_validation_spec(
    validated: Result<SessionInfoView, AuthErrorView>,
    external: Option<Map<Seq<char>, Seq<char>>>,
    tail: Option<Seq<char>>,
) -> ProxyPlanView {
    match validated {
        Err(e) => ProxyPlanView::Reply(
            HttpResponseView { status: 401, body: auth_error_body(e), headers: Seq::empty() },
        ),
        Ok(info) => match external {
            None => ProxyPlanView::Reply(error_reply(401, "proxy only available in prod mode"@)),
            Some(m) => if m.contains_key(info.user_id) {
                ProxyPlanView::Forward {
                    url: upstream_origin() + match tail {
                        Some(t) => t,
                        None => "/"@,
                    },
                    cookie: m[info.user_id],
                }
            } else {
                ProxyPlanView::Reply(error_reply(401, "no external session"@))
            },
        },
    }
}

/// Plans `/proxy/<path>` once the session was validated.
pub fn proxy_after_validation(
    validated: Result<SessionInfo, AuthError>,
    external: Option<&ExternalSessionStore>,
    tail: Option<&str>,
) -> (r: ProxyPlan)
    ensures
        r@ == proxy_after_validation_spec(
            match validated {
                Ok(i) => Ok(i@),
                Err(e) => Err(e@),
            },
            store_view(external),
            opt_str_view(tail),
        ),
{
    let info = match validated {
        Ok(i) => i,
        Err(e) => {
            return ProxyPlan::Reply(HttpResponse::json(401, e.to_json_body()));
        },
    };
    let cookie = match external {
        None => {
            return ProxyPlan::Reply(error_reply_for(401, "proxy only available in prod mode"));
        },
        Some(ext) => match ext.get(info.user_id.as_str()) {
            Some(c) => c,
            None => {
                return ProxyPlan::Reply(error_reply_for(401, "no external session"));
            },
        },
    };
    let mut url = owned("https://app.juragansejati.biz.id");
    match tail {
        Some(t) => push_str(&mut url, t),
        None => push_str(&mut url, "/"),
    }
    ProxyPlan::Forward { url, cookie }
}

/// `/proxy/<path>` at time `now`; `tail` is the path after `/proxy`. The outcome of
/// validating the session is planned by [`proxy_after_validation`].
pub fn proxy_plan_at<U: UserProvider, S: SessionStore>(
    manager: &mut AuthManager<U, S>,
    cookie_header: &str,
    external: Option<&ExternalSessionStore>,
    tail: Option<&str>,
    now: i128,
) -> (r: ProxyPlan)
    ensures
        final(manager).config@ == old(manager).config@,
        final(manager).session_store.infallible() == old(manager).session_store.infallible(),
        old(manager).session_store.infallible() ==> r@ == proxy_plan_spec(
            old(manager).session_store.sessions(),
            old(manager).config@,
            cookie_header@,
            store_view(external),
            opt_str_view(tail),
            now,
        ),
        session_id_in_header(cookie_header@, old(manager).config@.cookie_name) is None ==> r@
            == ProxyPlanView::Reply(error_reply(401, "no session cookie"@))
            && final(manager).session_store == old(manager).session_store,
        r matches ProxyPlan::Reply(resp) ==> resp@.status == 401,
        r matches ProxyPlan::Forward { url, cookie } ==> upstream_origin().is_prefix_of(url@),
{
    let sid = match parse_session_id_from_cookie(cookie_header, &manager.config) {
        Some(s) => s,
        None => {
            return ProxyPlan::Reply(error_reply_for(401, "no session cookie"));
        },
    };
    let validated = manager.validate_session_at(&sid, now);
    proxy_after_validation(validated, external, tail)
}

/// `/proxy/<path>` now.
pub fn proxy_plan<U: UserProvider, S: SessionStore>(
    manager: &mut AuthManager<U, S>,
    cookie_header: &str,
    external: Option<&ExternalSessionStore>,
    tail: Option<&str>,
) -> (r: ProxyPlan)
    ensures
        final(manager).config@ == old(manager).config@,
        final(manager).session_store.infallible() == old(manager).session_store.infallible(),
        old(manager).session_store.infallible() ==> exists|now: i128|
            #![trigger proxy_plan_spec(old(manager).session_store.sessions(), old(manager).config@, cookie_header@, store_view(external), opt_str_view(tail), now)]
            in_time_range(now) && (r@ == proxy_plan_spec(
                old(manager).session_store.sessions(),
                old(manager).config@,
                cookie_header@,
                store_view(external),
                opt_str_view(tail),
                now,
            )),
{
    let now = now_timestamp();
    proxy_plan_at(manager, cookie_header, external, tail, now)
}

/// What the forwarded request gives back: the upstream status (502 when it is not a
/// valid status code) and body, or 502 `Proxy error: <reason>` when the request failed.
pub open spec fn proxy_reply_spec(upstream: Result<(u16, Seq<char>), Seq<char>>) -> HttpResponseView {
    match upstream {
        Ok((status, body)) => HttpResponseView {
            status: if 100 <= status <= 999 {
                status
            } else {
                502
            },
            body,
            headers: Seq::empty(),
        },
        Err(reason) => error_reply(502, "Proxy error: "@ + reason),
    }
}

/// The answer to `/proxy/<path>` once the upstream site was asked.
pub fn proxy_reply(upstream: Result<(u16, String), String>) -> (r: HttpResponse)
    ensures
        r@ == proxy_reply_spec(
            match upstream {
                Ok((s, b)) => Ok((s, b@)),
                Err(e) => Err(e@),
            },
        ),
{
    match upstream {
        Ok((status, body)) => {
            let s = if 100 <= status && status <= 999 {
                status
            } else {
                502
            };
            HttpResponse::new(s, body)
        },
        Err(reason) => {
            let mut m = owned("Proxy error: ");
            push_str(&mut m, reason.as_str());
            error_reply_for(502, m.as_str())
        },
    }
}

// ---------------------------------------------------------------- /login and /logout

/// The body of a `/login` request.
pub struct LoginRequest {
    pub username: String,
    pub password: String,
}

/// `/login`: the manager's answer, or the answer for its error.
pub fn login_request<U: UserProvider, S: SessionStore>(
    manager: &mut AuthManager<U, S>,
    request: LoginRequest,
) -> (r: HttpResponse)
    ensures
        final(manager).config@ == old(manager).config@,
        blank_credentials(request.username@, request.password@) ==> r@ == error_response(
            AuthErrorView::InvalidCredentials,
        ) && final(manager).session_store.sessions() == old(manager).session_store.sessions(),
        r@.status == 200 ==> exists|id: Seq<char>, user: UserInfoView, now: i128|
            #![trigger login_response(old(manager).config@, id, user.user_id), new_session(old(manager).config@, user, now)]
            is_session_token(id) && in_time_range(now) && deadlines_fit(old(manager).config@, now)
                && login_response(
                old(manager).config@,
                id,
                user.user_id,
            ) == r@ && (old(manager).session_store.infallible() ==> final(manager).session_store.sessions()
                == old(manager).session_store.sessions().insert(
                id,
                new_session(old(manager).config@, user, now),
            )),
        r@.status != 200 ==> exists|e: AuthErrorView| r@ == #[trigger] error_response(e),
{
    match manager.login(Credentials { username: request.username, password: request.password }) {
        Ok(resp) => {
            proof {
                let resp_v = resp@;
                assert(resp_v.status == 200);
            }
            resp
        },
        Err(e) => {
            let r = auth_error_to_response(&e);
            proof {
                assert(auth_error_status(e@) != 200);
            }
            r
        },
    }
}

/// `/logout` at time `now`: a live session's user loses the upstream cookie, the
/// session is destroyed, and the answer clears the session cookie.
pub fn logout_request_at<U: UserProvider, S: SessionStore>(
    manager: &mut AuthManager<U, S>,
    cookie_header: &str,
    external: &mut Option<ExternalSessionStore>,
    now: i128,
) -> (r: HttpResponse)
    ensures
        final(manager).config@ == old(manager).config@,
        final(manager).session_store.infallible() == old(manager).session_store.infallible(),
        r@ == logout_response(old(manager).config@),
        (*final(external)) is Some == (*old(external)) is Some,
        session_id_in_header(cookie_header@, old(manager).config@.cookie_name) is None ==> (final(manager).session_store
            == old(manager).session_store && (*final(external)) == (*old(external))),
        old(manager).session_store.infallible() ==> match session_id_in_header(
            cookie_header@,
            old(manager).config@.cookie_name,
        ) {
            None => final(manager).session_store.sessions() == old(manager).session_store.sessions()
                && (*final(external)) == (*old(external)),
            Some(id) => final(manager).session_store.sessions()
                == old(manager).session_store.sessions().remove(id) && match session_verdict(
                old(manager).session_store.sessions(),
                id,
                now,
            ) {
                SessionVerdict::Valid(info) => (*old(external)) is Some ==> (*final(external))->0@
                    == (*old(external))->0@.remove(info.user_id),
                _ => (*final(external)) == (*old(external)),
            },
        },
{
    let sid = parse_session_id_from_cookie(cookie_header, &manager.config);
    if let Some(id) = &sid {
        if let Ok(info) = manager.validate_session_at(id, now) {
            if let Some(ext) = external {
                ext.remove(info.user_id.as_str());
            }
        }
    }
    let ghost mid = manager.session_store.sessions();
    let r = manager.logout(sid.as_ref());
    proof {
        if old(manager).session_store.infallible() && sid is Some {
            let id = sid->0@;
            assert(mid.remove(id) =~= old(manager).session_store.sessions().remove(id));
        }
    }
    match r {
        Ok(resp) => resp,
        Err(e) => auth_error_to_response(&e),
    }
}

/// `/logout` now.
pub fn logout_request<U: UserProvider, S: SessionStore>(
    manager: &mut AuthManager<U, S>,
    cookie_header: &str,
    external: &mut Option<ExternalSessionStore>,
) -> (r: HttpResponse)
    ensures
        final(manager).config@ == old(manager).config@,
        r@ == logout_response(old(manager).config@),
        old(manager).session_store.infallible() ==> match session_id_in_header(
            cookie_header@,
            old(manager).config@.cookie_name,
        ) {
            None => final(manager).session_store.sessions() == old(manager).session_store.sessions(),
            Some(id) => final(manager).session_store.sessions()
                == old(manager).session_store.sessions().remove(id),
        },
{
    let now = now_timestamp();
    logout_request_at(manager, cookie_header, external, now)
}

// ---------------------------------------------------------------- upstream users

/// `serde_json::Value::Object` with one boolean member. Nothing is stated of the value,
/// which the library only carries.
#[verifier::external_body]
fn json_flag_object(key: &str, value: bool) -> serde_json::Value {
    let mut map = serde_json::Map::new();
    map.insert(key.to_string(), serde_json::Value::Bool(value));
    serde_json::Value::Object(map)
}

/// `serde_json::Value::Object` without members. Nothing is stated of the value, which
/// the library only carries.
#[verifier::external_body]
fn json_empty_object() -> serde_json::Value {
    serde_json::Value::Object(serde_json::Map::new())
}

/// What a login against the upstream site gives: a 2xx answer is needed; the user is
/// the one the reply names (or the user name given), and the upstream cookies are kept
/// for that user, joined with `; `.
pub fn external_login(
    status: u16,
    set_cookies: &Vec<String>,
    reply_user_id: Option<String>,
    username: &str,
    store: &mut ExternalSessionStore,
) -> (r: Result<UserInfo, AuthError>)
    ensures
        !(200 <= status <= 299) ==> (r matches Err(e) && e@ == AuthErrorView::InvalidCredentials)
            && final(store)@ == old(store)@,
        200 <= status <= 299 ==> ({
            let user = match reply_user_id {
                Some(u) => u@,
                None => username@,
            };
            &&& r matches Ok(info) && info@.user_id == user
            &&& final(store)@ == old(store)@.insert(user, joined(texts_view(set_cookies@), "; "@))
        }),
{
    if !(200 <= status && status <= 299) {
        return Err(AuthError::InvalidCredentials);
    }
    let cookie = join_texts(set_cookies, "; ");
    let user_id = match reply_user_id {
        Some(u) => u,
        None => owned(username),
    };
    store.set(user_id.clone(), cookie);
    Ok(UserInfo { user_id, extra: json_flag_object("external_authenticated", true) })
}

/// A user known to the upstream store: one that holds an upstream cookie.
pub fn external_user_by_id(store: &ExternalSessionStore, user_id: &str) -> (r: Option<UserInfo>)
    ensures
        r is Some <==> store@.contains_key(user_id@),
        r matches Some(u) ==> u@.user_id == user_id@,
{
    match store.get(user_id) {
        Some(_) => Some(UserInfo { user_id: owned(user_id), extra: json_empty_object() }),
        None => None,
    }
}

// ---------------------------------------------------------------- settings

/// How the gateway runs.
#[derive(Debug, Clone, Copy, PartialEq, Eq, Structural)]
pub enum RunMode {
    /// `--dev`: the built-in account, no upstream site, permissive CORS.
    Dev,
    Prod,
}

/// The run mode that the command-line arguments ask for.
pub fn parse_mode(args: &Vec<String>) -> (m: RunMode)
    ensures
        m == (if texts_view(args@).contains("--dev"@) {
            RunMode::Dev
        } else {
            RunMode::Prod
        }),
{
    let dev = owned("--dev");
    if crate::text::texts_contain(args, &dev) {
        RunMode::Dev
    } else {
        RunMode::Prod
    }
}

/// The allowed CORS origins of a comma-separated list: each piece trimmed, the empty
/// ones left out.
pub open spec fn origins_of(s: Seq<char>) -> Seq<Seq<char>> {
    split_commas(s).map_values(|p: Seq<char>| trim(p)).filter(|p: Seq<char>| p.len() > 0)
}

/// The allowed CORS origins listed in `CORS_ALLOWED_ORIGINS`.
pub fn split_origins(value: &str) -> (r: Vec<String>)
    ensures
        texts_view(r@) == origins_of(value@),
{
    let v = chars_of(value);
    let comma: Vec<char> = vec![','];
    assert(comma@ == seq![',']);
    let mut out: Vec<String> = Vec::new();
    let mut start: usize = 0;
    let ghost whole = v@;
    assert(whole.subrange(0, whole.len() as int) =~= whole);
    loop
        invariant
            start <= v.len(),
            v@ == whole,
            whole == value@,
            comma@ == seq![','],
            origins_of(whole) == texts_view(out@) + origins_of(whole.subrange(start as int, whole.len() as int)),
        decreases v.len() - start,
    {
        let rest = slice_chars(&v, start, v.len());
        let ghost rv = rest@;
        match find_chars(&rest, &comma, 0) {
            None => {
                let piece = trim_chars(&rest);
                let ghost before = texts_view(out@);
                proof {
                    assert(split_commas(rv) == seq![rv]);
                    assert(seq![rv].map_values(|p: Seq<char>| trim(p)) =~= seq![trim(rv)]);
                    lemma_filter_single(trim(rv));
                }
                if piece.len() > 0 {
                    out.push(string_of(&piece));
                    proof {
                        assert(texts_view(out@) =~= before.push(trim(rv)));
                        assert(origins_of(rv) =~= seq![trim(rv)]);
                    }
                } else {
                    proof {
                        assert(origins_of(rv) =~= Seq::<Seq<char>>::empty());
                    }
                }
                assert(texts_view(out@) =~= origins_of(whole));
                return out;
            },
            Some(i) => {
                proof {
                    lemma_find_from_bounds(rv, comma@, 0);
                    lemma_split_step(rv, i as int);
                }
                let head = slice_chars(&rest, 0, i);
                let piece = trim_chars(&head);
                let ghost before = texts_view(out@);
                if piece.len() > 0 {
                    out.push(string_of(&piece));
                    proof {
                        assert(texts_view(out@) =~= before.push(trim(rv.subrange(0, i as int))));
                    }
                }
                proof {
                    assert(rv.subrange(i + 1, rv.len() as int) =~= whole.subrange(
                        start + i + 1,
                        whole.len() as int,
                    ));
                }
                start = start + i + 1;
            },
        }
    }
}

/// One step of [`origins_of`]: the first piece, then the rest after the first comma.
proof fn lemma_split_step(s: Seq<char>, i: int)
    requires
        find_from(s, seq![','], 0) == Some(i),
        0 <= i < s.len(),
    ensures
        origins_of(s) == (if trim(s.subrange(0, i)).len() > 0 {
            seq![trim(s.subrange(0, i))]
        } else {
            Seq::empty()
        }) + origins_of(s.subrange(i + 1, s.len() as int)),
{
    let head = s.subrange(0, i);
    let rest = s.subrange(i + 1, s.len() as int);
    assert(split_commas(s) == seq![head] + split_commas(rest));
    let f = |p: Seq<char>| trim(p);
    let keep = |p: Seq<char>| p.len() > 0;
    assert((seq![head] + split_commas(rest)).map_values(f) =~= seq![trim(head)] + split_commas(
        rest,
    ).map_values(f));
    Seq::filter_distributes_over_add(seq![trim(head)], split_commas(rest).map_values(f), keep);
    lemma_filter_single(trim(head));
}

/// Filtering a one-element list of texts for the non-empty ones.
proof fn lemma_filter_single(x: Seq<char>)
    ensures
        seq![x].filter(|p: Seq<char>| p.len() > 0) == (if x.len() > 0 {
            seq![x]
        } else {
            Seq::<Seq<char>>::empty()
        }),
{
    reveal_with_fuel(Seq::<_>::filter, 2);
    assert(seq![x].drop_last() =~= Seq::<Seq<char>>::empty());
    if x.len() > 0 {
        assert(seq![x].filter(|p: Seq<char>| p.len() > 0) =~= seq![x]);
    } else {
        assert(seq![x].filter(|p: Seq<char>| p.len() > 0) =~= Seq::<Seq<char>>::empty());
    }
}

/// The gateway's settings.
#[derive(Debug)]
pub struct AppConfig {
    pub host: String,
    pub port: u16,
    pub allowed_origins: Vec<String>,
    pub auth: AuthConfig,
}

/// Why the settings could not be read.
#[derive(Debug)]
pub enum AppConfigError {
    /// `SERVER_PORT` is not a valid port number.
    Port,
    /// The authentication settings are refused.
    Auth(AuthError),
}

/// What `str::parse::<u16>` reads from `s`.
pub open spec fn parse_u16_spec(s: Seq<char>) -> Option<u16> {
    match parse_u64_spec(s) {
        Some(v) => if v <= 65535 {
            Some(v as u16)
        } else {
            None
        },
        None => None,
    }
}

/// `str::parse::<u16>`.
pub fn parse_u16(s: &str) -> (r: Option<u16>)
    ensures
        r == parse_u16_spec(s@),
{
    match parse_u64(s) {
        Some(v) => if v <= 65535 {
            Some(v as u16)
        } else {
            None
        },
        None => None,
    }
}

impl AppConfig {
    /// The settings from the environment's values: `SERVER_HOST` (default
    /// `127.0.0.1`), `SERVER_PORT` (default 8080), `CORS_ALLOWED_ORIGINS` (a comma-separated
    /// list, default none) and the authentication settings.
    pub fn from_env_values(
        host: Option<String>,
        port: Option<&str>,
        allowed_origins: Option<&str>,
        auth_env: &AuthEnv,
    ) -> (r: Result<AppConfig, AppConfigError>)
        ensures
            r matches Ok(c) ==> {
                &&& c.host@ == match host {
                    Some(h) => h@,
                    None => "127.0.0.1"@,
                }
                &&& Some(c.port) == match port {
                    Some(p) => parse_u16_spec(p@),
                    None => Some(8080u16),
                }
                &&& texts_view(c.allowed_origins@) == match allowed_origins {
                    Some(o) => origins_of(o@),
                    None => Seq::empty(),
                }
                &&& config_from_env(auth_env@) == Ok::<AuthConfigView, AuthErrorView>(c.auth@)
            },
            r matches Err(AppConfigError::Port) ==> port matches Some(p) && parse_u16_spec(p@) is None,
            r matches Err(AppConfigError::Auth(e)) ==> (port matches Some(p) ==> parse_u16_spec(p@) is Some)
                && config_from_env(auth_env@) == Err::<AuthConfigView, AuthErrorView>(e@),
            r is Err ==> (port matches Some(p) && parse_u16_spec(p@) is None) || config_from_env(
                auth_env@,
            ) is Err,
    {
        let host = match host {
            Some(h) => h,
            None => owned("127.0.0.1"),
        };
        let port = match port {
            Some(p) => match parse_u16(p) {
                Some(n) => n,
                None => {
                    return Err(AppConfigError::Port);
                },
            },
            None => 8080,
        };
        let allowed_origins = match allowed_origins {
            Some(o) => split_origins(o),
            None => {
                let none: Vec<String> = Vec::new();
                assert(texts_view(none@) =~= Seq::<Seq<char>>::empty());
                none
            },
        };
        let auth = match AuthConfig::from_env_values(auth_env) {
            Ok(a) => a,
            Err(e) => {
                return Err(AppConfigError::Auth(e));
            },
        };
        Ok(AppConfig { host, port, allowed_origins, auth })
    }

    /// The settings of development mode: `127.0.0.1:8080`, no CORS origins, and the
    /// default authentication settings with cookie `session_id` that is not `Secure`.
    pub fn dev() -> (c: AppConfig)
        ensures
            c.host@ == "127.0.0.1"@,
            c.port == 8080,
            c.allowed_origins@.len() == 0,
            c.auth@ == (AuthConfigView {
                cookie_name: "session_id"@,
                cookie_secure: false,
                cookie_same_site: SameSite::Lax,
                session_lifetime_nanos: 86_400_000_000_000,
                ..default_config()
            }),
    {
        let built = AuthConfig::builder().cookie_name(owned("session_id")).cookie_secure(
            false,
        ).cookie_same_site(SameSite::Lax).session_lifetime(86_400_000_000_000).build();
        proof {
            reveal_strlit("session_id");
        }
        let auth = match built {
            Ok(a) => a,
            Err(_) => {
                assert(false);
                AuthConfig::default()
            },
        };
        AppConfig { host: owned("127.0.0.1"), port: 8080, allowed_origins: Vec::new(), auth }
    }
}

/// The user id that the upstream login answer names: its member `user_id`, when the
/// answer is JSON and that member is a string.
pub open spec fn upstream_user_id_spec(body: Seq<char>) -> Option<Seq<char>> {
    match json_member_string(body, "user_id"@) {
        Ok(Some(id)) => Some(id),
        _ => None,
    }
}

/// Reads the user id from the upstream login answer's body.
pub fn upstream_user_id(body: &str) -> (r: Option<String>)
    ensures
        opt_view(r) == upstream_user_id_spec(body@),
{
    match json_member_text(body, "user_id") {
        Ok(Some(id)) => Some(id),
        _ => None,
    }
}

// ---------------------------------------------------------------- laws

/// What a user logs in with is what `/check` then finds: the session cookie that the
/// login answer sets begins with the pair `name=id`, and a request that sends that pair
/// back is answered with the new session until its deadlines pass.
pub proof fn law_login_then_check(
    config: AuthConfigView,
    sessions: Map<Seq<char>, SessionInfoView>,
    id: Seq<char>,
    user: UserInfoView,
    created: i128,
    now: i128,
)
    requires
        is_cookie_name(config.cookie_name),
        is_session_token(id),
        in_time_range(created),
        deadlines_fit(config, created),
        created <= now,
        now <= created + config.session_lifetime_nanos,
        config.session_idle_timeout_nanos matches Some(t) ==> now <= created + t,
    ensures
        (config.cookie_name + "="@ + id).is_prefix_of(
            login_response(config, id, user.user_id).headers[0].1,
        ),
        check_outcome(
            sessions.insert(id, new_session(config, user, created)),
            config,
            config.cookie_name + "="@ + id,
            now,
        ) == CheckOutcomeView::Valid(new_session(config, user, created)),
{
    law_session_cookie_read_back(config.cookie_name, id);
    let pair = config.cookie_name + "="@ + id;
    let text = login_response(config, id, user.user_id).headers[0].1;
    assert(text.subrange(0, pair.len() as int) =~= pair);
}

/// After a logout, `/check` no longer finds the session that the request names.
pub proof fn law_logout_then_check(
    config: AuthConfigView,
    sessions: Map<Seq<char>, SessionInfoView>,
    id: Seq<char>,
    now: i128,
)
    requires
        is_cookie_name(config.cookie_name),
        is_session_token(id),
    ensures
        check_outcome(sessions.remove(id), config, config.cookie_name + "="@ + id, now)
            == CheckOutcomeView::Reply(error_response(AuthErrorView::SessionNotFound)),
{
    law_session_cookie_read_back(config.cookie_name, id);
}


/// The proxy passes the upstream answer on: whenever the upstream status is a valid
/// status code (100 to 999), the reply has exactly that status and body; it is 502 only
/// for an invalid status or a failed request.
pub proof fn law_proxy_passes_upstream_answer(status: u16, body: Seq<char>, reason: Seq<char>)
    ensures
        100 <= status <= 999 ==> proxy_reply_spec(Ok((status, body))) == (HttpResponseView {
            status,
            body,
            headers: Seq::empty(),
        }),
        !(100 <= status <= 999) ==> proxy_reply_spec(Ok((status, body))).status == 502
            && proxy_reply_spec(Ok((status, body))).body == body,
        proxy_reply_spec(Err(reason)).status == 502,
{
}

} // verus!
