//! What the client keeps between requests (its session, the credentials it logged in
//! with, and the desk page's boot object), and the decisions that change it: logging
//! in, token mode, logging out, and keeping a session alive.
use crate::client::error::{JssError, JssErrorView};
use crate::client::login::{
    complete_login, login_outcome, parsed_roles, session_login, session_login_spec,
    setup_token_session, token_session_view,
};
use crate::client::types::{
    BootUserInfo, FrappeBoot, FrequentLink, LoginApiMessage, NavbarSettings, SessionInfo,
    SessionInfoView, SidebarPages, UserInfo,
};
use crate::text::{opt_str_view, opt_view, owned, texts_view};
use vstd::prelude::*;

verus! {

/// How many times a session that the site no longer knows is replaced by a new login.
pub const MAX_REAUTH_ATTEMPTS: u32 = 3;

/// The client's state between requests.
pub struct ClientState {
    session: Option<SessionInfo>,
    credentials: Option<(String, String)>,
    boot: Option<FrappeBoot>,
}

pub open spec fn session_view(s: Option<SessionInfo>) -> Option<SessionInfoView> {
    match s {
        Some(x) => Some(x@),
        None => None,
    }
}

impl ClientState {
    /// The live session, if any.
    pub closed spec fn session_spec(&self) -> Option<SessionInfoView> {
        session_view(self.session)
    }

    /// The e-mail and password that the client logs in with, if any.
    pub closed spec fn credentials_spec(&self) -> Option<(Seq<char>, Seq<char>)> {
        match self.credentials {
            Some((e, p)) => Some((e@, p@)),
            None => None,
        }
    }

    /// The boot object of the last desk page read, if any.
    pub closed spec fn boot_spec(&self) -> Option<&FrappeBoot> {
        match &self.boot {
            Some(b) => Some(b),
            None => None,
        }
    }

    /// A client that has not logged in.
    pub fn new() -> (c: ClientState)
        ensures
            c.session_spec() is None,
            c.credentials_spec() is None,
            c.boot_spec() is None,
    {
        ClientState { session: None, credentials: None, boot: None }
    }

    pub fn session_info(&self) -> (r: Option<&SessionInfo>)
        ensures
            match r {
                Some(s) => self.session_spec() == Some(s@),
                None => self.session_spec() is None,
            },
    {
        match &self.session {
            Some(s) => Some(s),
            None => None,
        }
    }

    pub fn boot(&self) -> (r: Option<&FrappeBoot>)
        ensures
            r == self.boot_spec(),
    {
        match &self.boot {
            Some(b) => Some(b),
            None => None,
        }
    }

    pub fn credentials(&self) -> (r: Option<(&str, &str)>)
        ensures
            match r {
                Some((e, p)) => self.credentials_spec() == Some((e@, p@)),
                None => self.credentials_spec() is None,
            },
    {
        match &self.credentials {
            Some((e, p)) => Some((e.as_str(), p.as_str())),
            None => None,
        }
    }

    /// The boot object's `user_info` map.
    pub fn user_info_map(&self) -> (r: Option<&Vec<(String, BootUserInfo)>>)
        ensures
            r == (match self.boot_spec() {
                Some(b) => Some(&b.user_info),
                None => None,
            }),
    {
        match &self.boot {
            Some(b) => Some(&b.user_info),
            None => None,
        }
    }

    pub fn sidebar_pages(&self) -> (r: Option<&SidebarPages>)
        ensures
            r == (match self.boot_spec() {
                Some(b) => Some(&b.sidebar_pages),
                None => None,
            }),
    {
        match &self.boot {
            Some(b) => Some(&b.sidebar_pages),
            None => None,
        }
    }

    pub fn navbar_settings(&self) -> (r: Option<&NavbarSettings>)
        ensures
            r == (match self.boot_spec() {
                Some(b) => match &b.navbar_settings {
                    Some(n) => Some(n),
                    None => None,
                },
                None => None,
            }),
    {
        match &self.boot {
            Some(b) => match &b.navbar_settings {
                Some(n) => Some(n),
                None => None,
            },
            None => None,
        }
    }

    pub fn versions(&self) -> (r: Option<&Vec<(String, String)>>)
        ensures
            r == (match self.boot_spec() {
                Some(b) => Some(&b.versions),
                None => None,
            }),
    {
        match &self.boot {
            Some(b) => Some(&b.versions),
            None => None,
        }
    }

    pub fn lang_dict(&self) -> (r: Option<&Vec<(String, String)>>)
        ensures
            r == (match self.boot_spec() {
                Some(b) => Some(&b.lang_dict),
                None => None,
            }),
    {
        match &self.boot {
            Some(b) => Some(&b.lang_dict),
            None => None,
        }
    }

    pub fn frequent_links(&self) -> (r: Option<&[FrequentLink]>)
        ensures
            match r {
                Some(l) => self.boot_spec() is Some && l@ == self.boot_spec()->0.frequently_visited_links@,
                None => self.boot_spec() is None,
            },
    {
        match &self.boot {
            Some(b) => Some(b.frequently_visited_links.as_slice()),
            None => None,
        }
    }

    /// Whether the site runs in developer mode; `false` before any login.
    pub fn is_developer_mode(&self) -> (b: bool)
        ensures
            b == (self.boot_spec() matches Some(x) && x.developer_mode),
    {
        match &self.boot {
            Some(b) => b.developer_mode,
            None => false,
        }
    }

    /// Whether the site is read-only; `false` before any login.
    pub fn is_read_only(&self) -> (b: bool)
        ensures
            b == (self.boot_spec() matches Some(x) && x.read_only),
    {
        match &self.boot {
            Some(b) => b.read_only,
            None => false,
        }
    }

    /// Keeps the credentials of session mode, before the first login.
    pub fn set_credentials(&mut self, email: String, password: String)
        ensures
            final(self).credentials_spec() == Some((email@, password@)),
            final(self).session_spec() == old(self).session_spec(),
            final(self).boot_spec() == old(self).boot_spec(),
    {
        self.credentials = Some((email, password));
    }

    /// Takes in the outcome of a login once the desk page is read: the boot object is
    /// kept whatever the outcome, and the session is the one [`login_outcome`] gives
    /// when the checks pass (else the session is left as it was).
    pub fn apply_login(
        &mut self,
        expected_sitename: &Option<String>,
        required_roles: &Vec<String>,
        message: LoginApiMessage,
        csrf_token: String,
        boot: FrappeBoot,
    ) -> (r: Result<(), JssError>)
        ensures
            final(self).boot_spec() == Some(&boot),
            final(self).credentials_spec() == old(self).credentials_spec(),
            ({
                let outcome = login_outcome(
                    opt_view(*expected_sitename),
                    texts_view(required_roles@),
                    message@,
                    csrf_token@,
                    boot.user.full_name@,
                    texts_view(boot.user.roles@),
                    boot.sitename@,
                );
                &&& r is Ok ==> final(self).session_spec() == Some(outcome->Ok_0)
                &&& r is Ok <==> outcome is Ok
                &&& r matches Err(e) ==> outcome == Err::<SessionInfoView, JssErrorView>(e@)
                &&& r is Err ==> final(self).session_spec() == old(self).session_spec()
            }),
    {
        let outcome = complete_login(
            expected_sitename,
            required_roles,
            message,
            csrf_token,
            &boot.user,
            &boot.sitename,
        );
        self.boot = Some(boot);
        match outcome {
            Ok(s) => {
                self.session = Some(s);
                Ok(())
            },
            Err(e) => Err(e),
        }
    }

    /// Takes in a session login once the site has answered (see [`session_login`]): the
    /// session is the one that the answers give when the checks pass; otherwise the
    /// answer is the error and the session is left as it was.
    pub fn apply_session_login(
        &mut self,
        expected_sitename: &Option<String>,
        required_roles: &Vec<String>,
        message: LoginApiMessage,
        csrf_status: u16,
        csrf_message: Option<&str>,
        user_status: u16,
        user: Result<UserInfo, String>,
        app_page: Option<&str>,
    ) -> (r: Result<(), JssError>)
        ensures
            final(self).boot_spec() == old(self).boot_spec(),
            final(self).credentials_spec() == old(self).credentials_spec(),
            ({
                let outcome = session_login_spec(
                    opt_view(*expected_sitename),
                    texts_view(required_roles@),
                    message@,
                    csrf_status,
                    opt_str_view(csrf_message),
                    user_status,
                    parsed_roles(user),
                    opt_str_view(app_page),
                );
                &&& r is Ok <==> outcome is Ok
                &&& r is Ok ==> final(self).session_spec() == Some(outcome->Ok_0)
                &&& r matches Err(e) ==> outcome == Err::<SessionInfoView, JssErrorView>(e@)
                &&& r is Err ==> final(self).session_spec() == old(self).session_spec()
            }),
    {
        match session_login(
            expected_sitename,
            required_roles,
            message,
            csrf_status,
            csrf_message,
            user_status,
            user,
            app_page,
        ) {
            Ok(s) => {
                self.session = Some(s);
                Ok(())
            },
            Err(e) => Err(e),
        }
    }

    /// Token mode: the session is the token session, at once.
    pub fn apply_token_session(&mut self, expected_sitename: Option<String>)
        ensures
            final(self).session_spec() == Some(token_session_view(opt_view(expected_sitename))),
            final(self).credentials_spec() == old(self).credentials_spec(),
            final(self).boot_spec() == old(self).boot_spec(),
    {
        self.session = Some(setup_token_session(expected_sitename));
    }

    /// What a logout sends: refused without a session; otherwise the CSRF token to put
    /// in `X-Frappe-CSRF-Token`, when it is not empty.
    pub fn logout_request(&self) -> (r: Result<Option<String>, JssError>)
        ensures
            match r {
                Err(e) => self.session_spec() is None && e@ == JssErrorView::NotAuthenticated,
                Ok(h) => self.session_spec() is Some && match h {
                    Some(t) => t@ == self.session_spec()->0.csrf_token && t@.len() > 0,
                    None => self.session_spec()->0.csrf_token.len() == 0,
                },
            },
    {
        match &self.session {
            None => Err(JssError::NotAuthenticated),
            Some(s) => {
                if s.csrf_token.as_str().is_empty() {
                    Ok(None)
                } else {
                    Ok(Some(s.csrf_token.clone()))
                }
            },
        }
    }

    /// Takes in the answer to a logout: on a 2xx status the session and the credentials
    /// are forgotten; otherwise the answer is the error and nothing changes.
    pub fn apply_logout(&mut self, status: u16, body: String) -> (r: Result<(), JssError>)
        ensures
            200 <= status <= 299 ==> r is Ok && final(self).session_spec() is None
                && final(self).credentials_spec() is None,
            !(200 <= status <= 299) ==> (r matches Err(e) && e@ == (JssErrorView::Http {
                status,
                body: body@,
            })),
            !(200 <= status <= 299) ==> final(self).session_spec() == old(self).session_spec()
                && final(self).credentials_spec() == old(self).credentials_spec(),
            final(self).boot_spec() == old(self).boot_spec(),
    {
        if 200 <= status && status <= 299 {
            self.session = None;
            self.credentials = None;
            Ok(())
        } else {
            Err(JssError::Http { status, body })
        }
    }

    /// Forgets a session that the site no longer knows.
    pub fn expire_session(&mut self)
        ensures
            final(self).session_spec() is None,
            final(self).credentials_spec() == old(self).credentials_spec(),
            final(self).boot_spec() == old(self).boot_spec(),
    {
        self.session = None;
    }

    /// The CSRF token that a write request carries: only in session mode, only with a
    /// session, and only when the token is not empty.
    pub fn write_csrf_token(&self, session_mode: bool) -> (r: Option<String>)
        ensures
            match r {
                Some(t) => session_mode && self.session_spec() is Some && t@
                    == self.session_spec()->0.csrf_token && t@.len() > 0,
                None => !session_mode || self.session_spec() is None
                    || self.session_spec()->0.csrf_token.len() == 0,
            },
    {
        if !session_mode {
            return None;
        }
        match &self.session {
            Some(s) => if s.csrf_token.as_str().is_empty() {
                None
            } else {
                Some(s.csrf_token.clone())
            },
            None => None,
        }
    }
}

// ---------------------------------------------------------------- keeping a session alive

/// Where `ensure_session` stands: whether the client holds a session, and how many
/// sessions were found expired so far.
pub struct EnsureState {
    pub has_session: bool,
    pub attempts: u32,
}

/// What `ensure_session` does next.
pub enum EnsureAction {
    /// Ask the site who is logged in, to learn whether the session is still live.
    Probe,
    /// Log in again with the stored credentials; the outcome of that login ends the call.
    Login,
    /// The session is live: the call ends well.
    Ready,
    /// The call ends with this error.
    Fail(JssError),
}

pub enum EnsureActionView {
    Probe,
    Login,
    Ready,
    Fail(JssErrorView),
}

impl View for EnsureAction {
    type V = EnsureActionView;

    open spec fn view(&self) -> EnsureActionView {
        match self {
            EnsureAction::Probe => EnsureActionView::Probe,
            EnsureAction::Login => EnsureActionView::Login,
            EnsureAction::Ready => EnsureActionView::Ready,
            EnsureAction::Fail(e) => EnsureActionView::Fail(e@),
        }
    }
}

/// The next step: a held session is probed; without one, the client logs in again
/// with its credentials unless it already did so too often, and fails without them.
pub open spec fn ensure_next_spec(state: EnsureState, has_credentials: bool) -> EnsureActionView {
    if state.has_session {
        EnsureActionView::Probe
    } else if has_credentials {
        if state.attempts >= MAX_REAUTH_ATTEMPTS {
            EnsureActionView::Fail(
                JssErrorView::Auth("Re-authentication failed after maximum attempts"@),
            )
        } else {
            EnsureActionView::Login
        }
    } else {
        EnsureActionView::Fail(JssErrorView::NotAuthenticated)
    }
}

/// The next step of `ensure_session`.
pub fn ensure_next(state: &EnsureState, has_credentials: bool) -> (a: EnsureAction)
    ensures
        a@ == ensure_next_spec(*state, has_credentials),
{
    if state.has_session {
        EnsureAction::Probe
    } else if has_credentials {
        if state.attempts >= MAX_REAUTH_ATTEMPTS {
            EnsureAction::Fail(JssError::Auth(owned("Re-authentication failed after maximum attempts")))
        } else {
            EnsureAction::Login
        }
    } else {
        EnsureAction::Fail(JssError::NotAuthenticated)
    }
}

/// What a probe's status does: 401 means the session expired (it is dropped and the
/// expiry counted); any other status means it is live.
pub open spec fn after_probe_spec(state: EnsureState, status: u16) -> (EnsureState, EnsureActionView) {
    if status == 401 {
        (EnsureState { has_session: false, attempts: (state.attempts + 1) as u32 }, EnsureActionView::Probe)
    } else {
        (state, EnsureActionView::Ready)
    }
}

/// Takes in the status of a probe. The action returned is `Ready` when the session is
/// live; `Probe` means: ask [`ensure_next`] again.
pub fn after_probe(state: EnsureState, status: u16) -> (r: (EnsureState, EnsureAction))
    requires
        state.attempts < u32::MAX,
    ensures
        (r.0, r.1@) == after_probe_spec(state, status),
{
    if status == 401 {
        (EnsureState { has_session: false, attempts: state.attempts + 1 }, EnsureAction::Probe)
    } else {
        (state, EnsureAction::Ready)
    }
}

/// A call of `ensure_session` probes at most once: after the first probe, the session
/// is either live, or dropped, and without a session the next step is a login or the
/// end of the call.
pub proof fn law_ensure_session_probes_once(state: EnsureState, has_credentials: bool, status: u16)
    requires
        state.has_session,
    ensures
        ({
            let (next, action) = after_probe_spec(state, status);
            action == EnsureActionView::Ready || ensure_next_spec(next, has_credentials)
                !is Probe
        }),
{
}

/// A session found expired on a call's first probe is replaced by a new login whenever
/// the client holds credentials.
pub proof fn law_expired_session_logs_in_again(has_credentials: bool)
    ensures
        ({
            let (next, action) = after_probe_spec(EnsureState { has_session: true, attempts: 0 }, 401);
            &&& action == EnsureActionView::Probe
            &&& ensure_next_spec(next, has_credentials) == if has_credentials {
                EnsureActionView::Login
            } else {
                EnsureActionView::Fail(JssErrorView::NotAuthenticated)
            }
        }),
{
}

} // verus!
