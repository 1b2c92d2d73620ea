//! The login, logout and session operations of the authentication service.
use crate::auth::config::{AuthConfig, AuthConfigView};
use crate::auth::cookies::{
    create_removal_cookie, create_session_cookie, removal_cookie, session_cookie, set_cookie_text,
};
use crate::auth::error::{AuthError, AuthErrorView};
use crate::auth::session::{
    create_session_at, deadline_out_of_range, deadlines_fit, deadlines_fit_at, generate_session_id,
    in_time_range, is_session_token, new_session, now_timestamp, session_expired, session_verdict, validated_view, validation_outcome,
    validate_session_at, SessionVerdict,
};
use crate::auth::types::{
    Credentials, HttpResponse, HttpResponseView, SessionId, SessionInfo, SessionStore, UserInfo,
    UserInfoView, UserProvider,
};
use crate::json::{json_quote, json_quoted};
use crate::text::{chars_of, owned, push_str, trim, trim_chars};
use vstd::prelude::*;

verus! {

/// Credentials that are refused before anyone is asked: a user name of only
/// whitespace, or an empty password.
pub open spec fn blank_credentials(username: Seq<char>, password: Seq<char>) -> bool {
    trim(username).len() == 0 || password.len() == 0
}

/// The body of a successful login: `{"status":"success","user_id":"<id>"}`.
pub open spec fn login_body(user_id: Seq<char>) -> Seq<char> {
    "{\"status\":\"success\",\"user_id\":"@ + json_quoted(user_id) + "}"@
}

/// The answer to a successful login: 200 with the session cookie.
pub open spec fn login_response(
    config: AuthConfigView,
    session_id: Seq<char>,
    user_id: Seq<char>,
) -> HttpResponseView {
    HttpResponseView {
        status: 200,
        body: login_body(user_id),
        headers: seq![("Set-Cookie"@, set_cookie_text(session_cookie(session_id, config)))],
    }
}

/// The answer to a logout: a redirect when one is configured, otherwise
/// `{"status":"logged_out"}`; either way the session cookie is cleared.
pub open spec fn logout_response(config: AuthConfigView) -> HttpResponseView {
    let clear = ("Set-Cookie"@, set_cookie_text(removal_cookie(config)));
    match config.logout_redirect_url {
        Some(url) => HttpResponseView {
            status: 302,
            body: "Redirecting to "@ + url,
            headers: seq![("Location"@, url), clear],
        },
        None => HttpResponseView {
            status: 200,
            body: "{\"status\":\"logged_out\"}"@,
            headers: seq![clear],
        },
    }
}

/// The answer to a logout under the given settings.
pub fn logout_response_for(config: &AuthConfig) -> (r: HttpResponse)
    ensures
        r@ == logout_response(config@),
{
    let removal = create_removal_cookie(config);
    let response = match &config.logout_redirect_url {
        Some(url) => {
            let mut body = owned("Redirecting to ");
            push_str(&mut body, url.as_str());
            HttpResponse::new(302, body).with_header(owned("Location"), url.clone())
        },
        None => HttpResponse::json(200, owned("{\"status\":\"logged_out\"}")),
    };
    let r = response.with_header(owned("Set-Cookie"), removal.to_string());
    assert(r@.headers =~= logout_response(config@).headers);
    r
}

/// The answer to a successful login of `user_id` under session `session_id`.
pub fn login_response_for(config: &AuthConfig, session_id: &SessionId, user_id: &str) -> (r:
    HttpResponse)
    ensures
        r@ == login_response(config@, session_id@, user_id@),
{
    let cookie = create_session_cookie(session_id, config);
    let mut body = owned("{\"status\":\"success\",\"user_id\":");
    let quoted = json_quote(user_id);
    push_str(&mut body, quoted.as_str());
    push_str(&mut body, "}");
    let r = HttpResponse::json(200, body).with_header(owned("Set-Cookie"), cookie.to_string());
    assert(r@.headers =~= login_response(config@, session_id@, user_id@).headers);
    r
}

/// The error that a login answers when its session could not be created or stored.
pub open spec fn login_failure() -> AuthErrorView {
    AuthErrorView::Internal("session creation failed"@)
}

/// What a login answers once its session was created (or not): the login response
/// with the session cookie, or, whatever went wrong, [`login_failure`].
pub fn login_after_create(
    created: Result<SessionInfo, AuthError>,
    config: &AuthConfig,
    session_id: &SessionId,
    user_id: &str,
) -> (r: Result<HttpResponse, AuthError>)
    ensures
        created is Ok ==> (r matches Ok(resp) && resp@ == login_response(
            config@,
            session_id@,
            user_id@,
        )),
        created is Err ==> (r matches Err(e) && e@ == login_failure()),
{
    match created {
        Ok(_) => Ok(login_response_for(config, session_id, user_id)),
        Err(_) => Err(AuthError::Internal(owned("session creation failed"))),
    }
}

/// The authentication service: settings, where users are checked and where sessions live.
pub struct AuthManager<U: UserProvider, S: SessionStore> {
    pub config: AuthConfig,
    pub user_provider: U,
    pub session_store: S,
}

impl<U: UserProvider, S: SessionStore> AuthManager<U, S> {
    pub fn new(config: AuthConfig, user_provider: U, session_store: S) -> (m: Self)
        ensures
            m.config@ == config@,
            m.session_store == session_store,
            m.user_provider == user_provider,
    {
        AuthManager { config, user_provider, session_store }
    }

    /// Logs a user in: refuses blank credentials, asks the user provider, then stores a new
    /// session and answers with its cookie.
    pub fn login(&mut self, credentials: Credentials) -> (r: Result<HttpResponse, AuthError>)
        ensures
            final(self).config@ == old(self).config@,
            final(self).session_store.infallible() == old(self).session_store.infallible(),
            blank_credentials(credentials.username@, credentials.password@) ==> (r matches Err(e)
                && e@ == AuthErrorView::InvalidCredentials && final(self).session_store.sessions()
                == old(self).session_store.sessions()),
            r matches Ok(resp) ==> exists|id: Seq<char>, user: UserInfoView, now: i128|
                #![trigger login_response(old(self).config@, id, user.user_id), new_session(old(self).config@, user, now)]
                is_session_token(id) && in_time_range(now) && deadlines_fit(old(self).config@, now)
                    && login_response(
                    old(self).config@,
                    id,
                    user.user_id,
                ) == resp@ && (old(self).session_store.infallible() ==> final(self).session_store.sessions()
                    == old(self).session_store.sessions().insert(id, new_session(old(self).config@, user, now))),
    {
        let name = chars_of(credentials.username.as_str());
        let trimmed = trim_chars(&name);
        if trimmed.len() == 0 || credentials.password.as_str().is_empty() {
            return Err(AuthError::InvalidCredentials);
        }
        let authenticated = self.user_provider.authenticate(&credentials);
        let session_id = generate_session_id();
        let now = now_timestamp();
        let r = self.finish_login(authenticated, session_id, now);
        proof {
            if r is Ok {
                let resp = r->Ok_0;
                let user = authenticated->Ok_0;
                assert(login_response(old(self).config@, session_id@, user@.user_id) == resp@);
            }
        }
        r
    }

    /// Completes a login once the user provider has answered: its error is passed on;
    /// an accepted user gets a session under `session_id` created at `now`. A failure to
    /// create or store the session is answered as an internal error (see
    /// [`login_after_create`]).
    pub fn finish_login(
        &mut self,
        authenticated: Result<UserInfo, AuthError>,
        session_id: SessionId,
        now: i128,
    ) -> (r: Result<HttpResponse, AuthError>)
        requires
            in_time_range(now),
        ensures
            final(self).config@ == old(self).config@,
            final(self).session_store.infallible() == old(self).session_store.infallible(),
            authenticated matches Err(e) ==> (r == Err::<HttpResponse, AuthError>(e)
                && final(self).session_store.sessions() == old(self).session_store.sessions()),
            authenticated matches Ok(user) ==> {
                &&& !deadlines_fit(old(self).config@, now) ==> (r matches Err(e) && e@
                    == login_failure() && final(self).session_store.sessions()
                    == old(self).session_store.sessions())
                &&& deadlines_fit(old(self).config@, now) && old(self).session_store.infallible()
                    ==> r is Ok && final(self).session_store.sessions()
                    == old(self).session_store.sessions().insert(session_id@, new_session(old(self).config@, user@, now))
                &&& r matches Ok(resp) ==> deadlines_fit(old(self).config@, now) && resp@
                    == login_response(old(self).config@, session_id@, user@.user_id)
                &&& r matches Err(e) ==> e@ == login_failure()
            },
    {
        let user = match authenticated {
            Ok(u) => u,
            Err(e) => {
                return Err(e);
            },
        };
        if !deadlines_fit_at(&self.config, now) {
            return Err(AuthError::Internal(owned("session creation failed")));
        }
        let created = create_session_at(
            &mut self.session_store,
            &self.config,
            &user,
            &session_id,
            now,
        );
        login_after_create(created, &self.config, &session_id, user.user_id.as_str())
    }

    /// Logs out: the given session is destroyed (a failure to do so is not reported) and
    /// the answer clears the session cookie.
    pub fn logout(&mut self, session_id: Option<&SessionId>) -> (r: Result<HttpResponse, AuthError>)
        ensures
            final(self).config@ == old(self).config@,
            final(self).session_store.infallible() == old(self).session_store.infallible(),
            r matches Ok(resp) && resp@ == logout_response(old(self).config@),
            session_id is None ==> final(self).session_store == old(self).session_store,
            session_id matches Some(id) ==> (old(self).session_store.infallible() ==> final(self).session_store.sessions() == old(self).session_store.sessions().remove(id@)),
    {
        if let Some(sid) = session_id {
            let _ = self.session_store.delete(sid);
        }
        Ok(logout_response_for(&self.config))
    }

    /// Checks session `id` at time `now` (see [`validate_session_at`]).
    pub fn validate_session_at(&mut self, session_id: &SessionId, now: i128) -> (r: Result<
        SessionInfo,
        AuthError,
    >)
        ensures
            final(self).config@ == old(self).config@,
            final(self).session_store.infallible() == old(self).session_store.infallible(),
            r matches Ok(info) ==> !session_expired(info@, now),
            old(self).session_store.infallible() ==> match session_verdict(
                old(self).session_store.sessions(),
                session_id@,
                now,
            ) {
                SessionVerdict::Valid(info) => r matches Ok(i) && i@ == info && final(self).session_store.sessions()
                    == old(self).session_store.sessions(),
                SessionVerdict::NotFound => r matches Err(e) && e@ == AuthErrorView::SessionNotFound
                    && final(self).session_store.sessions() == old(self).session_store.sessions(),
                SessionVerdict::Expired => r matches Err(e) && e@ == AuthErrorView::SessionExpired
                    && final(self).session_store.sessions() == old(self).session_store.sessions().remove(session_id@),
            },
    {
        validate_session_at(&mut self.session_store, session_id, now)
    }

    /// Checks session `id` against the current time.
    pub fn validate_session(&mut self, session_id: &SessionId) -> (r: Result<SessionInfo, AuthError>)
        ensures
            final(self).config@ == old(self).config@,
            final(self).session_store.infallible() == old(self).session_store.infallible(),
            old(self).session_store.infallible() ==> exists|now: i128|
                in_time_range(now) && #[trigger] validation_outcome(
                    old(self).session_store.sessions(),
                    final(self).session_store.sessions(),
                    session_id@,
                    now,
                    validated_view(r),
                ),
    {
        let now = now_timestamp();
        let r = self.validate_session_at(session_id, now);
        proof {
            if old(self).session_store.infallible() {
                assert(validation_outcome(
                    old(self).session_store.sessions(),
                    self.session_store.sessions(),
                    session_id@,
                    now,
                    validated_view(r),
                ));
            }
        }
        r
    }

    /// Stores a new session for `user_info` under a fresh identifier.
    pub fn create_session(&mut self, user_info: &UserInfo) -> (r: Result<
        (SessionId, SessionInfo),
        AuthError,
    >)
        ensures
            final(self).config@ == old(self).config@,
            final(self).session_store.infallible() == old(self).session_store.infallible(),
            r matches Ok((id, info)) ==> is_session_token(id@) && in_time_range(info@.issued_at)
                && deadlines_fit(old(self).config@, info@.issued_at)
                && info@ == new_session(old(self).config@, user_info@, info@.issued_at),
            old(self).session_store.infallible() ==> match r {
                Ok((id, info)) => final(self).session_store.sessions()
                    == old(self).session_store.sessions().insert(id@, info@),
                Err(e) => e@ == deadline_out_of_range() && final(self).session_store.sessions()
                    == old(self).session_store.sessions(),
            },
    {
        crate::auth::session::create_session(&mut self.session_store, &self.config, user_info)
    }

    /// Ends session `id`.
    pub fn destroy_session(&mut self, session_id: &SessionId) -> (r: Result<(), AuthError>)
        ensures
            final(self).config@ == old(self).config@,
            final(self).session_store.infallible() == old(self).session_store.infallible(),
            old(self).session_store.infallible() ==> r is Ok && final(self).session_store.sessions()
                == old(self).session_store.sessions().remove(session_id@),
    {
        self.session_store.delete(session_id)
    }
}

/// A response handed across the C interface.
pub struct FfiHttpResponse(pub HttpResponse);

/// A session identifier handed across the C interface.
pub struct FfiSessionId(pub SessionId);

/// A user handed across the C interface.
pub struct FfiUserInfo(pub UserInfo);

} // verus!
