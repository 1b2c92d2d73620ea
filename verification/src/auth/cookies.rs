//! The session cookie: what is set at login, what clears it at logout,
//! and how the session identifier is read back from a `Cookie` header.
use crate::auth::config::{AuthConfig, AuthConfigView, SameSite};
use crate::auth::session::{is_ascii_alphanumeric, is_session_token, NANOS_PER_SECOND};
use crate::auth::types::SessionId;
use crate::text::{
    chars_eq, chars_of, copy_opt, find_chars, find_from, int_decimal, is_whitespace,
    lemma_find_from_bounds, lemma_find_shift, opt_view, slice_chars, string_of, trim,
    trim_chars, trim_start,
};
use vstd::prelude::*;

verus! {

/// A `Set-Cookie` value before it is written out.
pub struct SessionCookie {
    pub name: String,
    pub value: String,
    pub path: String,
    pub domain: Option<String>,
    pub http_only: bool,
    pub secure: bool,
    pub same_site: SameSite,
    pub max_age_secs: i64,
}

pub struct SessionCookieView {
    pub name: Seq<char>,
    pub value: Seq<char>,
    pub path: Seq<char>,
    pub domain: Option<Seq<char>>,
    pub http_only: bool,
    pub secure: bool,
    pub same_site: SameSite,
    pub max_age_secs: i64,
}

impl View for SessionCookie {
    type V = SessionCookieView;

    open spec fn view(&self) -> SessionCookieView {
        SessionCookieView {
            name: self.name@,
            value: self.value@,
            path: self.path@,
            domain: opt_view(self.domain),
            http_only: self.http_only,
            secure: self.secure,
            same_site: self.same_site,
            max_age_secs: self.max_age_secs,
        }
    }
}

pub open spec fn same_site_text(s: SameSite) -> Seq<char> {
    match s {
        SameSite::Strict => "Strict"@,
        SameSite::Lax => "Lax"@,
        SameSite::NoRestriction => "None"@,
    }
}

/// A domain as the `cookie` crate writes it: without one leading dot.
pub open spec fn domain_text(d: Seq<char>) -> Seq<char> {
    if d.len() > 0 && d[0] == '.' {
        d.drop_first()
    } else {
        d
    }
}

/// The `Set-Cookie` header value that the `cookie` crate writes for a cookie with a
/// path, a `SameSite` policy and a `Max-Age`, as its `Display` implementation lays it out.
pub open spec fn set_cookie_text(c: SessionCookieView) -> Seq<char> {
    c.name + "="@ + c.value + (if c.http_only {
        "; HttpOnly"@
    } else {
        Seq::empty()
    }) + "; SameSite="@ + same_site_text(c.same_site) + (if c.secure {
        "; Secure"@
    } else {
        Seq::empty()
    }) + "; Path="@ + c.path + (match c.domain {
        Some(d) => "; Domain="@ + domain_text(d),
        None => Seq::empty(),
    }) + "; Max-Age="@ + int_decimal(c.max_age_secs as int)
}

/// Writes the cookie out with the `cookie` crate (`Cookie::to_string`).
#[verifier::external_body]
fn render_set_cookie(c: &SessionCookie) -> (r: String)
    ensures
        r@ == set_cookie_text(c@),
{
    let same_site = match c.same_site {
        SameSite::Strict => cookie::SameSite::Strict,
        SameSite::Lax => cookie::SameSite::Lax,
        SameSite::NoRestriction => cookie::SameSite::None,
    };
    let mut built = cookie::Cookie::build((c.name.clone(), c.value.clone())).path(
        c.path.clone(),
    ).http_only(c.http_only).secure(c.secure).same_site(same_site).max_age(
        time::Duration::seconds(c.max_age_secs),
    ).build();
    if let Some(d) = &c.domain {
        built.set_domain(d.clone());
    }
    built.to_string()
}

impl SessionCookie {
    /// The `Set-Cookie` header value for this cookie.
    pub fn to_string(&self) -> (s: String)
        ensures
            s@ == set_cookie_text(self@),
    {
        render_set_cookie(self)
    }
}

/// The whole seconds of a span of `n` nanoseconds, the fraction dropped towards zero
/// (`Duration::whole_seconds`).
pub open spec fn whole_seconds(n: i128) -> int {
    if n >= 0 {
        n as int / NANOS_PER_SECOND as int
    } else {
        -((-(n as int)) / NANOS_PER_SECOND as int)
    }
}

/// The `Max-Age` of a session cookie for a lifetime of `n` nanoseconds: its whole
/// seconds. Every lifetime that a `time::Duration` holds has whole seconds within `i64`;
/// a larger span is held at the bound of `i64`.
pub open spec fn max_age_of(n: i128) -> i64 {
    let w = whole_seconds(n);
    if w > i64::MAX {
        i64::MAX
    } else if w < i64::MIN {
        i64::MIN
    } else {
        w as i64
    }
}

/// The `Max-Age` of a session cookie for a lifetime of `n` nanoseconds.
pub fn max_age_secs_of(n: i128) -> (s: i64)
    ensures
        s == max_age_of(n),
{
    let w: i128 = if n >= 0 {
        let q: u128 = n as u128 / 1_000_000_000u128;
        assert(q <= n) by (nonlinear_arith)
            requires
                q == n as u128 / 1_000_000_000u128,
                n >= 0,
        ;
        q as i128
    } else {
        let m: u128 = (-(n + 1)) as u128 + 1;
        let q: u128 = m / 1_000_000_000u128;
        assert(q <= m) by (nonlinear_arith)
            requires
                q == m / 1_000_000_000u128,
        ;
        assert(m == -n);
        -(q as i128)
    };
    if w > 9223372036854775807i128 {
        9223372036854775807i64
    } else if w < -9223372036854775808i128 {
        -9223372036854775807i64 - 1
    } else {
        w as i64
    }
}

/// The cookie that carries a new session's identifier.
pub open spec fn session_cookie(id: Seq<char>, config: AuthConfigView) -> SessionCookieView {
    SessionCookieView {
        name: config.cookie_name,
        value: id,
        path: config.cookie_path,
        domain: config.cookie_domain,
        http_only: config.cookie_http_only,
        secure: config.cookie_secure,
        same_site: config.cookie_same_site,
        max_age_secs: max_age_of(config.session_lifetime_nanos),
    }
}

/// The cookie that clears the session cookie: empty value, `Max-Age=0`, no domain.
pub open spec fn removal_cookie(config: AuthConfigView) -> SessionCookieView {
    SessionCookieView {
        name: config.cookie_name,
        value: Seq::empty(),
        path: config.cookie_path,
        domain: None,
        http_only: config.cookie_http_only,
        secure: config.cookie_secure,
        same_site: config.cookie_same_site,
        max_age_secs: 0,
    }
}

/// The session cookie for `session_id` under the configured attributes; it lasts as long
/// as a session does.
pub fn create_session_cookie(session_id: &SessionId, config: &AuthConfig) -> (c: SessionCookie)
    ensures
        c@ == session_cookie(session_id@, config@),
{
    SessionCookie {
        name: config.cookie_name.clone(),
        value: session_id.to_string(),
        path: config.cookie_path.clone(),
        domain: copy_opt(&config.cookie_domain),
        http_only: config.cookie_http_only,
        secure: config.cookie_secure,
        same_site: config.cookie_same_site,
        max_age_secs: max_age_secs_of(config.session_lifetime_nanos),
    }
}

/// The cookie that makes the browser drop the session cookie.
pub fn create_removal_cookie(config: &AuthConfig) -> (c: SessionCookie)
    ensures
        c@ == removal_cookie(config@),
{
    let c = SessionCookie {
        name: config.cookie_name.clone(),
        value: String::new(),
        path: config.cookie_path.clone(),
        domain: None,
        http_only: config.cookie_http_only,
        secure: config.cookie_secure,
        same_site: config.cookie_same_site,
        max_age_secs: 0,
    };
    c
}

/// The value of one `name=value` piece of a `Cookie` header when its trimmed name is `name`.
pub open spec fn piece_session_id(piece: Seq<char>, name: Seq<char>) -> Option<Seq<char>> {
    match find_from(piece, seq!['='], 0) {
        Some(j) => if trim(piece.subrange(0, j)) == name {
            Some(trim(piece.subrange(j + 1, piece.len() as int)))
        } else {
            None
        },
        None => None,
    }
}

/// The session identifier in a `Cookie` header: the header is split at each `"; "`,
/// each piece at its first `=`, and the first piece whose trimmed name is the cookie's
/// name gives its trimmed value.
pub open spec fn session_id_in_header(h: Seq<char>, name: Seq<char>) -> Option<Seq<char>>
    decreases h.len(),
{
    match find_from(h, seq![';', ' '], 0) {
        Some(i) => {
            proof {
                lemma_find_from_bounds(h, seq![';', ' '], 0);
            }
            match piece_session_id(h.subrange(0, i), name) {
                Some(v) => Some(v),
                None => session_id_in_header(h.subrange(i + 2, h.len() as int), name),
            }
        },
        None => piece_session_id(h, name),
    }
}

fn piece_value(piece: &Vec<char>, name: &Vec<char>) -> (r: Option<Vec<char>>)
    ensures
        r matches Some(v) ==> piece_session_id(piece@, name@) == Some(v@),
        r is None ==> piece_session_id(piece@, name@) is None,
{
    let eq = vec!['='];
    assert(eq@ == seq!['=']);
    match find_chars(piece, &eq, 0) {
        Some(j) => {
            proof {
                lemma_find_from_bounds(piece@, eq@, 0);
                assert(eq@.len() == 1);
                assert(j + 1 <= piece.len());
            }
            let key = slice_chars(piece, 0, j);
            let key_trimmed = trim_chars(&key);
            if chars_eq(&key_trimmed, name) {
                let value = slice_chars(piece, j + 1, piece.len());
                Some(trim_chars(&value))
            } else {
                None
            }
        },
        None => None,
    }
}

/// The session identifier that a `Cookie` request header carries under the configured
/// cookie name.
pub fn parse_session_id_from_cookie(cookie_header: &str, config: &AuthConfig) -> (r: Option<
    SessionId,
>)
    ensures
        r matches Some(id) ==> session_id_in_header(cookie_header@, config@.cookie_name) == Some(
            id@,
        ),
        r is None ==> session_id_in_header(cookie_header@, config@.cookie_name) is None,
{
    let h = chars_of(cookie_header);
    let name = chars_of(config.cookie_name.as_str());
    let sep = vec![';', ' '];
    assert(sep@ == seq![';', ' ']);
    let n = h.len();
    let mut start: usize = 0;
    assert(h@.subrange(0, n as int) == h@);
    loop
        invariant
            start <= n == h.len(),
            h@ == cookie_header@,
            name@ == config@.cookie_name,
            sep@ == seq![';', ' '],
            session_id_in_header(h@, name@) == session_id_in_header(
                h@.subrange(start as int, n as int),
                name@,
            ),
        decreases n - start,
    {
        let ghost rest = h@.subrange(start as int, n as int);
        proof {
            lemma_find_shift(h@, sep@, start as int, start as int);
        }
        match find_chars(&h, &sep, start) {
            Some(i) => {
                proof {
                    lemma_find_from_bounds(h@, sep@, start as int);
                    assert(rest.subrange(0, i - start) == h@.subrange(start as int, i as int));
                    assert(rest.subrange(i - start + 2, rest.len() as int) == h@.subrange(
                        i + 2,
                        n as int,
                    ));
                }
                let piece = slice_chars(&h, start, i);
                match piece_value(&piece, &name) {
                    Some(v) => {
                        return Some(SessionId::new(string_of(&v)));
                    },
                    None => {
                        start = i + 2;
                    },
                }
            },
            None => {
                let piece = slice_chars(&h, start, n);
                return match piece_value(&piece, &name) {
                    Some(v) => Some(SessionId::new(string_of(&v))),
                    None => None,
                };
            },
        }
    }
}

/// A cookie name made only of ASCII letters, digits, `_` and `-`.
pub open spec fn is_cookie_name(n: Seq<char>) -> bool {
    n.len() > 0 && forall|i: int|
        0 <= i < n.len() ==> (is_ascii_alphanumeric(#[trigger] n[i]) || n[i] == '_' || n[i]
            == '-')
}

/// No character from `i` on is `c`: then `c` is not found from `i` on.
proof fn lemma_find_absent(s: Seq<char>, c: char, i: int)
    requires
        0 <= i,
        forall|k: int| i <= k < s.len() ==> s[k] != c,
    ensures
        find_from(s, seq![c], i) is None,
    decreases s.len() - i,
{
    if i + 1 > s.len() {
    } else {
        assert(s.subrange(i, i + 1)[0] == s[i]);
        lemma_find_absent(s, c, i + 1);
    }
}

/// The first `c` from `i` on is at `n` when none comes before it.
proof fn lemma_find_first(s: Seq<char>, c: char, i: int, n: int)
    requires
        0 <= i <= n < s.len(),
        s[n] == c,
        forall|k: int| i <= k < n ==> s[k] != c,
    ensures
        find_from(s, seq![c], i) == Some(n),
    decreases n - i,
{
    if i == n {
        assert(s.subrange(i, i + 1) =~= seq![c]);
    } else {
        assert(s.subrange(i, i + 1)[0] == s[i]);
        lemma_find_first(s, c, i + 1, n);
    }
}

/// No `"; "` occurs in a text without `;`.
proof fn lemma_no_separator(s: Seq<char>, i: int)
    requires
        0 <= i,
        forall|k: int| 0 <= k < s.len() ==> s[k] != ';',
    ensures
        find_from(s, seq![';', ' '], i) is None,
    decreases s.len() - i,
{
    if i + 2 > s.len() {
    } else {
        assert(s.subrange(i, i + 2)[0] == s[i]);
        lemma_no_separator(s, i + 1);
    }
}

/// Trimming leaves alone a text that neither starts nor ends with whitespace.
proof fn lemma_trim_plain(s: Seq<char>)
    requires
        s.len() > 0,
        !is_whitespace(s[0]),
        !is_whitespace(s.last()),
    ensures
        trim(s) == s,
{
    assert(trim_start(s) == s);
}

/// The pair `name=id` that a browser sends back for the session cookie is read as the
/// session identifier `id`.
pub proof fn law_session_cookie_read_back(name: Seq<char>, id: Seq<char>)
    requires
        is_cookie_name(name),
        is_session_token(id),
    ensures
        session_id_in_header(name + "="@ + id, name) == Some(id),
{
    let h = name + "="@ + id;
    let n = name.len() as int;
    assert("="@ == seq!['=']) by {
        reveal_strlit("=");
    }
    assert(h[n] == '=');
    assert forall|k: int| 0 <= k < h.len() implies h[k] != ';' by {
        if k < n {
            assert(h[k] == name[k]);
        } else if k > n {
            assert(h[k] == id[k - n - 1]);
        }
    }
    lemma_no_separator(h, 0);
    assert forall|k: int| 0 <= k < n implies h[k] != '=' by {
        assert(h[k] == name[k]);
    }
    lemma_find_first(h, '=', 0, n);
    assert(h.subrange(0, n) =~= name);
    assert(h.subrange(n + 1, h.len() as int) =~= id);
    lemma_trim_plain(name);
    lemma_trim_plain(id);
}

} // verus!
