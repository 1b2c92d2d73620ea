//! How the command-line client reads its settings from `JSS_*` environment values.
use crate::text::{
    ascii_lower, ascii_lower_eq, chars_of, owned, parse_u64, parse_u64_spec, split_commas,
    split_trimmed, texts_view, trim,
};
use vstd::prelude::*;

verus! {

/// How the client authenticates.
pub enum AuthChoice {
    /// An API key and secret, sent with every request.
    Token { api_key: String, api_secret: String },
    /// An e-mail and password, exchanged for a session.
    Session { email: String, password: String },
}

pub enum AuthChoiceView {
    Token { api_key: Seq<char>, api_secret: Seq<char> },
    Session { email: Seq<char>, password: Seq<char> },
}

impl View for AuthChoice {
    type V = AuthChoiceView;

    open spec fn view(&self) -> AuthChoiceView {
        match self {
            AuthChoice::Token { api_key, api_secret } => AuthChoiceView::Token {
                api_key: api_key@,
                api_secret: api_secret@,
            },
            AuthChoice::Session { email, password } => AuthChoiceView::Session {
                email: email@,
                password: password@,
            },
        }
    }
}

/// The mode that the variables ask for: token mode when both the key and the secret are
/// set, else session mode when both the e-mail and the password are set, else none.
pub open spec fn auth_choice_spec(
    email: Option<Seq<char>>,
    password: Option<Seq<char>>,
    api_key: Option<Seq<char>>,
    api_secret: Option<Seq<char>>,
) -> Option<AuthChoiceView> {
    if api_key is Some && api_secret is Some {
        Some(AuthChoiceView::Token { api_key: api_key->0, api_secret: api_secret->0 })
    } else if email is Some && password is Some {
        Some(AuthChoiceView::Session { email: email->0, password: password->0 })
    } else {
        None
    }
}

pub open spec fn opt_text(o: Option<String>) -> Option<Seq<char>> {
    match o {
        Some(s) => Some(s@),
        None => None,
    }
}

/// Chooses the authentication mode from `JSS_EMAIL`, `JSS_PASSWORD`,
/// `JSS_TOKEN_API_KEY` and `JSS_TOKEN_API_SECRET`.
pub fn choose_auth_mode(
    email: Option<String>,
    password: Option<String>,
    api_key: Option<String>,
    api_secret: Option<String>,
) -> (r: Option<AuthChoice>)
    ensures
        match r {
            Some(c) => auth_choice_spec(
                opt_text(email),
                opt_text(password),
                opt_text(api_key),
                opt_text(api_secret),
            ) == Some(c@),
            None => auth_choice_spec(
                opt_text(email),
                opt_text(password),
                opt_text(api_key),
                opt_text(api_secret),
            ) is None,
        },
{
    match (api_key, api_secret) {
        (Some(k), Some(s)) => Some(AuthChoice::Token { api_key: k, api_secret: s }),
        _ => match (email, password) {
            (Some(e), Some(p)) => Some(AuthChoice::Session { email: e, password: p }),
            _ => None,
        },
    }
}

/// The client's other settings.
pub struct ClientSettings {
    pub expected_sitename: Option<String>,
    pub required_roles: Vec<String>,
    pub timeout_secs: u64,
    pub max_retries: u32,
    pub user_agent: String,
    pub insecure_ssl: bool,
}

/// `str::parse::<u32>`.
pub open spec fn parse_u32_spec(s: Seq<char>) -> Option<u32> {
    match parse_u64_spec(s) {
        Some(v) => if v <= u32::MAX {
            Some(v as u32)
        } else {
            None
        },
        None => None,
    }
}

/// Reads the client's settings: `JSS_EXPECTED_SITENAME` as it is, `JSS_REQUIRED_ROLES`
/// split at commas (each role trimmed), `JSS_TIMEOUT_SECS` (default 30) and
/// `JSS_MAX_RETRIES` (default 3) where they read as numbers, `JSS_USER_AGENT` (default
/// `cli-auth-test/1.0`) and `JSS_INSECURE_SSL` (`true` in any case, else off).
pub fn client_settings(
    expected_sitename: Option<String>,
    required_roles: Option<&str>,
    timeout_secs: Option<&str>,
    max_retries: Option<&str>,
    user_agent: Option<String>,
    insecure_ssl: Option<&str>,
) -> (s: ClientSettings)
    ensures
        opt_text(s.expected_sitename) == opt_text(expected_sitename),
        texts_view(s.required_roles@) == match required_roles {
            Some(r) => split_commas(r@).map_values(|p: Seq<char>| trim(p)),
            None => Seq::empty(),
        },
        s.timeout_secs == match timeout_secs {
            Some(t) => match parse_u64_spec(t@) {
                Some(v) => v,
                None => 30,
            },
            None => 30,
        },
        s.max_retries == match max_retries {
            Some(t) => match parse_u32_spec(t@) {
                Some(v) => v,
                None => 3,
            },
            None => 3,
        },
        s.user_agent@ == match user_agent {
            Some(u) => u@,
            None => "cli-auth-test/1.0"@,
        },
        s.insecure_ssl == match insecure_ssl {
            Some(v) => ascii_lower(v@) == "true"@,
            None => false,
        },
{
    let required_roles = match required_roles {
        Some(r) => split_trimmed(r),
        None => {
            let none: Vec<String> = Vec::new();
            assert(texts_view(none@) =~= Seq::<Seq<char>>::empty());
            none
        },
    };
    let timeout_secs = match timeout_secs {
        Some(t) => match parse_u64(t) {
            Some(v) => v,
            None => 30,
        },
        None => 30,
    };
    let max_retries = match max_retries {
        Some(t) => match parse_u64(t) {
            Some(v) => if v <= 4294967295 {
                v as u32
            } else {
                3
            },
            None => 3,
        },
        None => 3,
    };
    let user_agent = match user_agent {
        Some(u) => u,
        None => owned("cli-auth-test/1.0"),
    };
    let insecure_ssl = match insecure_ssl {
        Some(v) => ascii_lower_eq(&chars_of(v), "true"),
        None => false,
    };
    ClientSettings {
        expected_sitename,
        required_roles,
        timeout_secs,
        max_retries,
        user_agent,
        insecure_ssl,
    }
}

} // verus!
