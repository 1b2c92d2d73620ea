//! Settings of the authentication service: the session cookie's attributes
//! and how long sessions last. Durations are whole seconds.
use crate::auth::error::{AuthError, AuthErrorView};
use crate::text::{
    ascii_lower, ascii_lower_eq, chars_of, copy_opt, opt_view, owned, parse_bool, parse_bool_spec, parse_i64,
    parse_i64_spec,
};
use crate::auth::session::NANOS_PER_SECOND;
use vstd::prelude::*;

verus! {

/// The cookie's `SameSite` attribute.
#[derive(Debug, Clone, Copy, PartialEq, Eq, Structural)]
pub enum SameSite {
    Strict,
    Lax,
    /// `SameSite=None`: sent on cross-site requests too.
    NoRestriction,
}

impl Default for SameSite {
    fn default() -> (s: SameSite)
        ensures
            s == SameSite::Lax,
    {
        SameSite::Lax
    }
}

#[derive(Debug, Clone)]
pub struct AuthConfig {
    pub cookie_name: String,
    pub cookie_path: String,
    pub cookie_domain: Option<String>,
    pub cookie_secure: bool,
    pub cookie_http_only: bool,
    pub cookie_same_site: SameSite,
    pub session_lifetime_nanos: i128,
    pub session_idle_timeout_nanos: Option<i128>,
    pub login_url: Option<String>,
    pub logout_redirect_url: Option<String>,
}

pub struct AuthConfigView {
    pub cookie_name: Seq<char>,
    pub cookie_path: Seq<char>,
    pub cookie_domain: Option<Seq<char>>,
    pub cookie_secure: bool,
    pub cookie_http_only: bool,
    pub cookie_same_site: SameSite,
    pub session_lifetime_nanos: i128,
    pub session_idle_timeout_nanos: Option<i128>,
    pub login_url: Option<Seq<char>>,
    pub logout_redirect_url: Option<Seq<char>>,
}

impl View for AuthConfig {
    type V = AuthConfigView;

    open spec fn view(&self) -> AuthConfigView {
        AuthConfigView {
            cookie_name: self.cookie_name@,
            cookie_path: self.cookie_path@,
            cookie_domain: opt_view(self.cookie_domain),
            cookie_secure: self.cookie_secure,
            cookie_http_only: self.cookie_http_only,
            cookie_same_site: self.cookie_same_site,
            session_lifetime_nanos: self.session_lifetime_nanos,
            session_idle_timeout_nanos: self.session_idle_timeout_nanos,
            login_url: opt_view(self.login_url),
            logout_redirect_url: opt_view(self.logout_redirect_url),
        }
    }
}

/// The settings used when nothing is configured: cookie `sid` on path `/`,
/// secure and HTTP-only, `SameSite=Lax`, sessions of 24 hours without idle timeout.
pub open spec fn default_config() -> AuthConfigView {
    AuthConfigView {
        cookie_name: "sid"@,
        cookie_path: "/"@,
        cookie_domain: None,
        cookie_secure: true,
        cookie_http_only: true,
        cookie_same_site: SameSite::Lax,
        session_lifetime_nanos: 86_400_000_000_000,
        session_idle_timeout_nanos: None,
        login_url: None,
        logout_redirect_url: None,
    }
}

/// What `AuthConfigBuilder::build` answers for the settings `c`.
pub open spec fn checked_config(c: AuthConfigView) -> Result<AuthConfigView, AuthErrorView> {
    if c.session_lifetime_nanos <= 0 {
        Err(AuthErrorView::Config("session_lifetime must be positive"@))
    } else if c.cookie_name.len() == 0 {
        Err(AuthErrorView::Config("cookie_name cannot be empty"@))
    } else {
        Ok(c)
    }
}

impl Default for AuthConfig {
    fn default() -> (c: AuthConfig)
        ensures
            c@ == default_config(),
    {
        AuthConfig {
            cookie_name: owned("sid"),
            cookie_path: owned("/"),
            cookie_domain: None,
            cookie_secure: true,
            cookie_http_only: true,
            cookie_same_site: SameSite::Lax,
            session_lifetime_nanos: 86_400_000_000_000,
            session_idle_timeout_nanos: None,
            login_url: None,
            logout_redirect_url: None,
        }
    }
}

impl AuthConfig {
    /// A builder that starts from the default settings.
    pub fn builder() -> (b: AuthConfigBuilder)
        ensures
            b@ == default_config(),
    {
        AuthConfigBuilder { config: AuthConfig::default() }
    }

    pub fn duplicate(&self) -> (r: AuthConfig)
        ensures
            r@ == self@,
    {
        AuthConfig {
            cookie_name: self.cookie_name.clone(),
            cookie_path: self.cookie_path.clone(),
            cookie_domain: copy_opt(&self.cookie_domain),
            cookie_secure: self.cookie_secure,
            cookie_http_only: self.cookie_http_only,
            cookie_same_site: self.cookie_same_site,
            session_lifetime_nanos: self.session_lifetime_nanos,
            session_idle_timeout_nanos: self.session_idle_timeout_nanos,
            login_url: copy_opt(&self.login_url),
            logout_redirect_url: copy_opt(&self.logout_redirect_url),
        }
    }
}

/// Builds an [`AuthConfig`] one setting at a time.
pub struct AuthConfigBuilder {
    config: AuthConfig,
}

impl View for AuthConfigBuilder {
    type V = AuthConfigView;

    closed spec fn view(&self) -> AuthConfigView {
        self.config@
    }
}

impl Default for AuthConfigBuilder {
    fn default() -> (b: AuthConfigBuilder)
        ensures
            b@ == default_config(),
    {
        AuthConfigBuilder { config: AuthConfig::default() }
    }
}

impl AuthConfigBuilder {
    pub fn cookie_name(self, name: String) -> (b: AuthConfigBuilder)
        ensures
            b@ == (AuthConfigView { cookie_name: name@, ..self@ }),
    {
        let mut config = self.config;
        config.cookie_name = name;
        AuthConfigBuilder { config }
    }

    pub fn cookie_path(self, path: String) -> (b: AuthConfigBuilder)
        ensures
            b@ == (AuthConfigView { cookie_path: path@, ..self@ }),
    {
        let mut config = self.config;
        config.cookie_path = path;
        AuthConfigBuilder { config }
    }

    pub fn cookie_domain(self, domain: String) -> (b: AuthConfigBuilder)
        ensures
            b@ == (AuthConfigView { cookie_domain: Some(domain@), ..self@ }),
    {
        let mut config = self.config;
        config.cookie_domain = Some(domain);
        AuthConfigBuilder { config }
    }

    pub fn cookie_secure(self, secure: bool) -> (b: AuthConfigBuilder)
        ensures
            b@ == (AuthConfigView { cookie_secure: secure, ..self@ }),
    {
        let mut config = self.config;
        config.cookie_secure = secure;
        AuthConfigBuilder { config }
    }

    pub fn cookie_http_only(self, http_only: bool) -> (b: AuthConfigBuilder)
        ensures
            b@ == (AuthConfigView { cookie_http_only: http_only, ..self@ }),
    {
        let mut config = self.config;
        config.cookie_http_only = http_only;
        AuthConfigBuilder { config }
    }

    pub fn cookie_same_site(self, same_site: SameSite) -> (b: AuthConfigBuilder)
        ensures
            b@ == (AuthConfigView { cookie_same_site: same_site, ..self@ }),
    {
        let mut config = self.config;
        config.cookie_same_site = same_site;
        AuthConfigBuilder { config }
    }

    /// How long a session lasts, in nanoseconds (a `time::Duration` taken whole, as
    /// `Duration::whole_nanoseconds` gives it).
    pub fn session_lifetime(self, lifetime_nanos: i128) -> (b: AuthConfigBuilder)
        ensures
            b@ == (AuthConfigView { session_lifetime_nanos: lifetime_nanos, ..self@ }),
    {
        let mut config = self.config;
        config.session_lifetime_nanos = lifetime_nanos;
        AuthConfigBuilder { config }
    }

    /// How long a session may stay unused, in nanoseconds.
    pub fn session_idle_timeout(self, timeout_nanos: i128) -> (b: AuthConfigBuilder)
        ensures
            b@ == (AuthConfigView { session_idle_timeout_nanos: Some(timeout_nanos), ..self@ }),
    {
        let mut config = self.config;
        config.session_idle_timeout_nanos = Some(timeout_nanos);
        AuthConfigBuilder { config }
    }

    pub fn login_url(self, url: String) -> (b: AuthConfigBuilder)
        ensures
            b@ == (AuthConfigView { login_url: Some(url@), ..self@ }),
    {
        let mut config = self.config;
        config.login_url = Some(url);
        AuthConfigBuilder { config }
    }

    pub fn logout_redirect_url(self, url: String) -> (b: AuthConfigBuilder)
        ensures
            b@ == (AuthConfigView { logout_redirect_url: Some(url@), ..self@ }),
    {
        let mut config = self.config;
        config.logout_redirect_url = Some(url);
        AuthConfigBuilder { config }
    }

    /// The settings, once checked: the session lifetime must be positive and the
    /// cookie must have a name.
    pub fn build(self) -> (r: Result<AuthConfig, AuthError>)
        ensures
            r matches Ok(c) ==> checked_config(self@) == Ok::<AuthConfigView, AuthErrorView>(
                c@,
            ),
            r matches Err(e) ==> checked_config(self@) == Err::<AuthConfigView, AuthErrorView>(
                e@,
            ),
    {
        if self.config.session_lifetime_nanos <= 0 {
            return Err(AuthError::Config(owned("session_lifetime must be positive")));
        }
        if self.config.cookie_name.as_str().is_empty() {
            return Err(AuthError::Config(owned("cookie_name cannot be empty")));
        }
        Ok(self.config)
    }
}

/// The raw values of the `AUTH_*` environment variables; `None` where a variable is unset.
pub struct AuthEnv {
    pub cookie_name: Option<String>,
    pub cookie_path: Option<String>,
    pub cookie_domain: Option<String>,
    pub cookie_secure: Option<String>,
    pub cookie_http_only: Option<String>,
    pub cookie_same_site: Option<String>,
    pub session_lifetime: Option<String>,
    pub session_idle_timeout: Option<String>,
    pub login_url: Option<String>,
    pub logout_redirect_url: Option<String>,
}

pub struct AuthEnvView {
    pub cookie_name: Option<Seq<char>>,
    pub cookie_path: Option<Seq<char>>,
    pub cookie_domain: Option<Seq<char>>,
    pub cookie_secure: Option<Seq<char>>,
    pub cookie_http_only: Option<Seq<char>>,
    pub cookie_same_site: Option<Seq<char>>,
    pub session_lifetime: Option<Seq<char>>,
    pub session_idle_timeout: Option<Seq<char>>,
    pub login_url: Option<Seq<char>>,
    pub logout_redirect_url: Option<Seq<char>>,
}

impl View for AuthEnv {
    type V = AuthEnvView;

    open spec fn view(&self) -> AuthEnvView {
        AuthEnvView {
            cookie_name: opt_view(self.cookie_name),
            cookie_path: opt_view(self.cookie_path),
            cookie_domain: opt_view(self.cookie_domain),
            cookie_secure: opt_view(self.cookie_secure),
            cookie_http_only: opt_view(self.cookie_http_only),
            cookie_same_site: opt_view(self.cookie_same_site),
            session_lifetime: opt_view(self.session_lifetime),
            session_idle_timeout: opt_view(self.session_idle_timeout),
            login_url: opt_view(self.login_url),
            logout_redirect_url: opt_view(self.logout_redirect_url),
        }
    }
}

/// The `SameSite` value named by `s`, compared without regard to case. (Only ASCII
/// letters lower-case to the letters of `strict`, `lax` and `none`, so this agrees with
/// comparing `str::to_lowercase`.)
pub open spec fn same_site_named(s: Seq<char>) -> Option<SameSite> {
    let l = ascii_lower(s);
    if l == "strict"@ {
        Some(SameSite::Strict)
    } else if l == "lax"@ {
        Some(SameSite::Lax)
    } else if l == "none"@ {
        Some(SameSite::NoRestriction)
    } else {
        None
    }
}

/// Replaces a text setting when its variable is set.
pub open spec fn set_text(current: Seq<char>, v: Option<Seq<char>>) -> Seq<char> {
    match v {
        Some(x) => x,
        None => current,
    }
}

pub open spec fn set_opt_text(current: Option<Seq<char>>, v: Option<Seq<char>>) -> Option<
    Seq<char>,
> {
    match v {
        Some(x) => Some(x),
        None => current,
    }
}

/// The first error that the variables hold, checked in the order the variables are read.
pub open spec fn env_error(e: AuthEnvView) -> Option<AuthErrorView> {
    if e.cookie_secure matches Some(v) && parse_bool_spec(v) is None {
        Some(AuthErrorView::Config("AUTH_COOKIE_SECURE must be true or false"@))
    } else if e.cookie_http_only matches Some(v) && parse_bool_spec(v) is None {
        Some(AuthErrorView::Config("AUTH_COOKIE_HTTP_ONLY must be true or false"@))
    } else if e.cookie_same_site matches Some(v) && same_site_named(v) is None {
        Some(AuthErrorView::Config("AUTH_COOKIE_SAME_SITE must be strict, lax, or none"@))
    } else if e.session_lifetime matches Some(v) && parse_i64_spec(v) is None {
        Some(AuthErrorView::Config("AUTH_SESSION_LIFETIME must be an integer (seconds)"@))
    } else if e.session_lifetime matches Some(v) && parse_i64_spec(v)->0 <= 0 {
        Some(AuthErrorView::Config("AUTH_SESSION_LIFETIME must be positive"@))
    } else if e.session_idle_timeout matches Some(v) && parse_i64_spec(v) is None {
        Some(AuthErrorView::Config("AUTH_SESSION_IDLE_TIMEOUT must be an integer (seconds)"@))
    } else if e.session_idle_timeout matches Some(v) && parse_i64_spec(v)->0 <= 0 {
        Some(AuthErrorView::Config("AUTH_SESSION_IDLE_TIMEOUT must be positive"@))
    } else {
        None
    }
}

/// The settings that the variables ask for, on top of the defaults, once every
/// variable that is set has been read correctly.
pub open spec fn env_settings(e: AuthEnvView) -> AuthConfigView {
    let d = default_config();
    AuthConfigView {
        cookie_name: set_text(d.cookie_name, e.cookie_name),
        cookie_path: set_text(d.cookie_path, e.cookie_path),
        cookie_domain: set_opt_text(d.cookie_domain, e.cookie_domain),
        cookie_secure: match e.cookie_secure {
            Some(v) => parse_bool_spec(v)->0,
            None => d.cookie_secure,
        },
        cookie_http_only: match e.cookie_http_only {
            Some(v) => parse_bool_spec(v)->0,
            None => d.cookie_http_only,
        },
        cookie_same_site: match e.cookie_same_site {
            Some(v) => same_site_named(v)->0,
            None => d.cookie_same_site,
        },
        session_lifetime_nanos: match e.session_lifetime {
            Some(v) => (parse_i64_spec(v)->0 * NANOS_PER_SECOND) as i128,
            None => d.session_lifetime_nanos,
        },
        session_idle_timeout_nanos: match e.session_idle_timeout {
            Some(v) => Some((parse_i64_spec(v)->0 * NANOS_PER_SECOND) as i128),
            None => d.session_idle_timeout_nanos,
        },
        login_url: set_opt_text(d.login_url, e.login_url),
        logout_redirect_url: set_opt_text(d.logout_redirect_url, e.logout_redirect_url),
    }
}

/// What `AuthConfig::from_env` answers for the given variables.
pub open spec fn config_from_env(e: AuthEnvView) -> Result<AuthConfigView, AuthErrorView> {
    match env_error(e) {
        Some(err) => Err(err),
        None => checked_config(env_settings(e)),
    }
}

fn parse_same_site(s: &str) -> (r: Option<SameSite>)
    ensures
        r == same_site_named(s@),
{
    let v = chars_of(s);
    if ascii_lower_eq(&v, "strict") {
        Some(SameSite::Strict)
    } else if ascii_lower_eq(&v, "lax") {
        Some(SameSite::Lax)
    } else if ascii_lower_eq(&v, "none") {
        Some(SameSite::NoRestriction)
    } else {
        None
    }
}

impl AuthConfig {
    /// The settings that the `AUTH_*` environment variables ask for. A variable that is
    /// set replaces the default; booleans must read `true` or `false`, the same-site
    /// policy `strict`, `lax` or `none` in any case, and both durations positive whole
    /// seconds.
    pub fn from_env_values(env: &AuthEnv) -> (r: Result<AuthConfig, AuthError>)
        ensures
            r matches Ok(c) ==> config_from_env(env@) == Ok::<AuthConfigView, AuthErrorView>(c@),
            r matches Err(e) ==> config_from_env(env@) == Err::<AuthConfigView, AuthErrorView>(
                e@,
            ),
    {
        let mut builder = AuthConfig::builder();
        if let Some(v) = &env.cookie_name {
            builder = builder.cookie_name(v.clone());
        }
        if let Some(v) = &env.cookie_path {
            builder = builder.cookie_path(v.clone());
        }
        if let Some(v) = &env.cookie_domain {
            builder = builder.cookie_domain(v.clone());
        }
        if let Some(v) = &env.cookie_secure {
            match parse_bool(v.as_str()) {
                Some(secure) => {
                    builder = builder.cookie_secure(secure);
                },
                None => {
                    return Err(
                        AuthError::Config(owned("AUTH_COOKIE_SECURE must be true or false")),
                    );
                },
            }
        }
        if let Some(v) = &env.cookie_http_only {
            match parse_bool(v.as_str()) {
                Some(http_only) => {
                    builder = builder.cookie_http_only(http_only);
                },
                None => {
                    return Err(
                        AuthError::Config(owned("AUTH_COOKIE_HTTP_ONLY must be true or false")),
                    );
                },
            }
        }
        if let Some(v) = &env.cookie_same_site {
            match parse_same_site(v.as_str()) {
                Some(same_site) => {
                    builder = builder.cookie_same_site(same_site);
                },
                None => {
                    return Err(
                        AuthError::Config(
                            owned("AUTH_COOKIE_SAME_SITE must be strict, lax, or none"),
                        ),
                    );
                },
            }
        }
        if let Some(v) = &env.session_lifetime {
            match parse_i64(v.as_str()) {
                Some(secs) => {
                    if secs <= 0 {
                        return Err(
                            AuthError::Config(owned("AUTH_SESSION_LIFETIME must be positive")),
                        );
                    }
                    builder = builder.session_lifetime(secs as i128 * NANOS_PER_SECOND);
                },
                None => {
                    return Err(
                        AuthError::Config(
                            owned("AUTH_SESSION_LIFETIME must be an integer (seconds)"),
                        ),
                    );
                },
            }
        }
        if let Some(v) = &env.session_idle_timeout {
            match parse_i64(v.as_str()) {
                Some(secs) => {
                    if secs <= 0 {
                        return Err(
                            AuthError::Config(owned("AUTH_SESSION_IDLE_TIMEOUT must be positive")),
                        );
                    }
                    builder = builder.session_idle_timeout(secs as i128 * NANOS_PER_SECOND);
                },
                None => {
                    return Err(
                        AuthError::Config(
                            owned("AUTH_SESSION_IDLE_TIMEOUT must be an integer (seconds)"),
                        ),
                    );
                },
            }
        }
        if let Some(v) = &env.login_url {
            builder = builder.login_url(v.clone());
        }
        if let Some(v) = &env.logout_redirect_url {
            builder = builder.logout_redirect_url(v.clone());
        }
        proof {
            assert(builder@ == env_settings(env@));
        }
        builder.build()
    }
}


/// A set `AUTH_COOKIE_PATH` is the cookie path: setting it never decides whether the
/// variables are accepted, and an accepted configuration has exactly that path (and
/// `/` when it is unset).
pub proof fn law_env_cookie_path(e: AuthEnvView, p: Seq<char>)
    ensures
        config_from_env(AuthEnvView { cookie_path: Some(p), ..e }) is Ok == config_from_env(
            AuthEnvView { cookie_path: None, ..e },
        ) is Ok,
        config_from_env(AuthEnvView { cookie_path: Some(p), ..e }) matches Ok(c) ==> c.cookie_path
            == p,
        config_from_env(AuthEnvView { cookie_path: None, ..e }) matches Ok(c) ==> c.cookie_path
            == "/"@,
{
}

/// Each set text variable replaces its default in an accepted configuration: the cookie
/// name, path and domain, the login URL and the logout redirect URL.
pub proof fn law_env_texts_replace_defaults(e: AuthEnvView)
    ensures
        config_from_env(e) matches Ok(c) ==> {
            &&& e.cookie_name matches Some(n) ==> c.cookie_name == n
            &&& e.cookie_path matches Some(p) ==> c.cookie_path == p
            &&& e.cookie_domain matches Some(d) ==> c.cookie_domain == Some(d)
            &&& e.login_url matches Some(u) ==> c.login_url == Some(u)
            &&& e.logout_redirect_url matches Some(u) ==> c.logout_redirect_url == Some(u)
        },
{
}

/// With only `AUTH_COOKIE_PATH` set, the variables are accepted and give the default
/// settings with that cookie path.
pub proof fn law_env_only_cookie_path(p: Seq<char>)
    ensures
        config_from_env(
            AuthEnvView {
                cookie_name: None,
                cookie_path: Some(p),
                cookie_domain: None,
                cookie_secure: None,
                cookie_http_only: None,
                cookie_same_site: None,
                session_lifetime: None,
                session_idle_timeout: None,
                login_url: None,
                logout_redirect_url: None,
            },
        ) == Ok::<AuthConfigView, AuthErrorView>(AuthConfigView { cookie_path: p, ..default_config() }),
{
    reveal_strlit("sid");
}

} // verus!
