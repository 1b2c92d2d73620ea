//! URLs of the JSS instance: percent-encoding, joining request paths onto the
//! base URL, and the checks that keep requests on that base.
use crate::client::error::{JssError, JssErrorView};
use crate::text::{chars_of, contains, contains_chars, owned, push_str};
use vstd::prelude::*;
use vstd::utf8::{decode_utf8, encode_scalar, encode_utf8, valid_utf8};

verus! {

/// The bytes that `urlencoding` leaves as they are: ASCII letters, digits and `-._~`.
pub open spec fn is_unreserved(b: u8) -> bool {
    (48 <= b <= 57) || (65 <= b <= 90) || (97 <= b <= 122) || b == 45 || b == 46 || b == 95
        || b == 126
}

/// An uppercase hexadecimal digit for `d` in `0..16`.
pub open spec fn hex_upper(d: int) -> char {
    if d < 10 {
        ((48 + d) as u32) as char
    } else {
        ((55 + d) as u32) as char
    }
}

pub open spec fn encode_bytes(b: Seq<u8>) -> Seq<char>
    decreases b.len(),
{
    if b.len() == 0 {
        Seq::empty()
    } else {
        (if is_unreserved(b[0]) {
            seq![b[0] as char]
        } else {
            seq!['%', hex_upper((b[0] / 16) as int), hex_upper((b[0] % 16) as int)]
        }) + encode_bytes(b.drop_first())
    }
}

/// What `urlencoding::encode` gives: every UTF-8 byte of `s` that is not unreserved
/// is written `%XX`.
pub open spec fn url_encoded(s: Seq<char>) -> Seq<char> {
    encode_bytes(encode_utf8(s))
}

pub open spec fn hex_value(b: u8) -> Option<u8> {
    if 48 <= b <= 57 {
        Some((b - 48) as u8)
    } else if 65 <= b <= 70 {
        Some((b - 55) as u8)
    } else if 97 <= b <= 102 {
        Some((b - 87) as u8)
    } else {
        None
    }
}

/// Percent-decoding as `urlencoding` does it: `%` and two hexadecimal digits give a
/// byte; any other byte, a lone `%` among them, stays as it is.
pub open spec fn percent_decode(b: Seq<u8>) -> Seq<u8>
    decreases b.len(),
{
    if b.len() == 0 {
        Seq::empty()
    } else if b[0] == 37 && b.len() >= 3 && hex_value(b[1]) is Some && hex_value(b[2]) is Some {
        seq![(hex_value(b[1])->0 * 16 + hex_value(b[2])->0) as u8] + percent_decode(b.skip(3))
    } else {
        seq![b[0]] + percent_decode(b.drop_first())
    }
}

/// What `urlencoding::decode` gives: the decoded bytes read as UTF-8, or nothing when
/// they are not UTF-8.
pub open spec fn url_decoded(s: Seq<char>) -> Option<Seq<char>> {
    let d = percent_decode(encode_utf8(s));
    if valid_utf8(d) {
        Some(decode_utf8(d))
    } else {
        None
    }
}

/// `urlencoding::encode`; the contract restates the crate's rule (unreserved bytes kept,
/// others written `%` with two uppercase hexadecimal digits).
#[verifier::external_body]
pub(crate) fn url_encode(s: &str) -> (r: String)
    ensures
        r@ == url_encoded(s@),
{
    urlencoding::encode(s).into_owned()
}

/// `urlencoding::decode`; the contract restates the crate's decoding loop and its UTF-8 check.
#[verifier::external_body]
pub(crate) fn url_decode(s: &str) -> (r: Option<String>)
    ensures
        r matches Some(d) ==> url_decoded(s@) == Some(d@),
        r is None ==> url_decoded(s@) is None,
{
    match urlencoding::decode(s) {
        Ok(d) => Some(d.into_owned()),
        Err(_) => None,
    }
}

/// What the client reads of a parsed URL.
pub struct UrlParts {
    pub text: String,
    pub scheme: String,
    pub host: Option<String>,
    pub port: Option<u16>,
}

pub struct UrlPartsView {
    pub text: Seq<char>,
    pub scheme: Seq<char>,
    pub host: Option<Seq<char>>,
    pub port: Option<u16>,
}

impl View for UrlParts {
    type V = UrlPartsView;

    open spec fn view(&self) -> UrlPartsView {
        UrlPartsView {
            text: self.text@,
            scheme: self.scheme@,
            host: match self.host {
                Some(h) => Some(h@),
                None => None,
            },
            port: self.port,
        }
    }
}

/// A parse result with its parts and error text taken by their views.
pub open spec fn parts_result_view(r: Result<UrlParts, String>) -> Result<UrlPartsView, Seq<char>> {
    match r {
        Ok(p) => Ok(p@),
        Err(e) => Err(e@),
    }
}

/// What `url::Url::parse(base)` followed by `join(input)` gives: the joined URL's text,
/// scheme, host and explicit port, or the text of the parse error.
pub uninterp spec fn url_join_result(base: Seq<char>, input: Seq<char>) -> Result<
    UrlPartsView,
    Seq<char>,
>;

/// What `url::Url::parse(s)` gives, read the same way.
pub uninterp spec fn url_parse_result(s: Seq<char>) -> Result<UrlPartsView, Seq<char>>;

/// `url::Url::parse(base)` then `Url::join(input)`, read into plain parts.
#[verifier::external_body]
pub(crate) fn join_url(base: &str, input: &str) -> (r: Result<UrlParts, String>)
    ensures
        parts_result_view(r) == url_join_result(base@, input@),
{
    let joined = match url::Url::parse(base) {
        Ok(b) => b.join(input),
        Err(e) => Err(e),
    };
    match joined {
        Ok(u) => Ok(UrlParts { text: u.as_str().to_string(), scheme: u.scheme().to_string(),
            host: u.host_str().map(str::to_string), port: u.port() }),
        Err(e) => Err(e.to_string()),
    }
}

/// `url::Url::parse(s)`, read into plain parts.
#[verifier::external_body]
pub(crate) fn parse_url(s: &str) -> (r: Result<UrlParts, String>)
    ensures
        parts_result_view(r) == url_parse_result(s@),
{
    match url::Url::parse(s) {
        Ok(u) => Ok(UrlParts { text: u.as_str().to_string(), scheme: u.scheme().to_string(),
            host: u.host_str().map(str::to_string), port: u.port() }),
        Err(e) => Err(e.to_string()),
    }
}

/// A joined URL stays on the base when scheme, host and port agree.
pub open spec fn same_origin(a: UrlPartsView, b: UrlPartsView) -> bool {
    a.scheme == b.scheme && a.host == b.host && a.port == b.port
}

/// What `validate_joined_url` answers.
pub open spec fn joined_url_check(base: UrlPartsView, joined: UrlPartsView) -> Result<(), JssErrorView> {
    if same_origin(joined, base) {
        Ok(())
    } else {
        Err(JssErrorView::Validation("Path must be relative to base URL"@))
    }
}

fn opt_text_eq(a: &Option<String>, b: &Option<String>) -> (r: bool)
    ensures
        r == ((match *a {
            Some(x) => Some(x@),
            None => None::<Seq<char>>,
        }) == (match *b {
            Some(x) => Some(x@),
            None => None::<Seq<char>>,
        })),
{
    match (a, b) {
        (Some(x), Some(y)) => *x == *y,
        (None, None) => true,
        _ => false,
    }
}

/// Refuses a joined URL that left the base URL's scheme, host or port.
pub fn validate_joined_url(base: &UrlParts, joined: &UrlParts) -> (r: Result<(), JssError>)
    ensures
        r is Ok == joined_url_check(base@, joined@) is Ok,
        r matches Err(e) ==> joined_url_check(base@, joined@) == Err::<(), JssErrorView>(e@),
{
    if joined.scheme != base.scheme || !opt_text_eq(&joined.host, &base.host) || joined.port
        != base.port {
        return Err(JssError::Validation(owned("Path must be relative to base URL")));
    }
    Ok(())
}

/// What `build_join_url` answers for a request path: the path is percent-decoded, must
/// not name another site (`://`) nor climb directories (`..`), and once joined onto the
/// base URL must stay on it.
pub open spec fn join_url_check(base: Seq<char>, path: Seq<char>) -> Result<Seq<char>, JssErrorView> {
    match url_decoded(path) {
        None => Err(JssErrorView::Validation("Invalid URL path encoding"@)),
        Some(decoded) => if contains(decoded, "://"@) {
            Err(JssErrorView::Validation("Absolute URL not allowed"@))
        } else if contains(decoded, ".."@) {
            Err(JssErrorView::Validation("Path traversal not allowed"@))
        } else {
            match url_join_result(base, decoded) {
                Err(e) => Err(JssErrorView::Parse("URL join error: "@ + e)),
                Ok(joined) => match url_parse_result(base) {
                    Err(e) => Err(JssErrorView::Parse("URL join error: "@ + e)),
                    Ok(b) => match joined_url_check(b, joined) {
                        Ok(()) => Ok(joined.text),
                        Err(e) => Err(e),
                    },
                },
            }
        },
    }
}

/// The absolute URL for a request path under `base_url`, refusing paths that would
/// leave the base.
pub fn build_join_url(base_url: &str, path: &str) -> (r: Result<String, JssError>)
    ensures
        r matches Ok(u) ==> join_url_check(base_url@, path@) == Ok::<Seq<char>, JssErrorView>(
            u@,
        ),
        r matches Err(e) ==> join_url_check(base_url@, path@) == Err::<Seq<char>, JssErrorView>(
            e@,
        ),
{
    let decoded = match url_decode(path) {
        Some(d) => d,
        None => {
            return Err(JssError::Validation(owned("Invalid URL path encoding")));
        },
    };
    let dv = chars_of(decoded.as_str());
    let scheme_sep = chars_of("://");
    if contains_chars(&dv, &scheme_sep) {
        return Err(JssError::Validation(owned("Absolute URL not allowed")));
    }
    let dots = chars_of("..");
    if contains_chars(&dv, &dots) {
        return Err(JssError::Validation(owned("Path traversal not allowed")));
    }
    let joined = match join_url(base_url, decoded.as_str()) {
        Ok(j) => j,
        Err(e) => {
            let mut m = owned("URL join error: ");
            push_str(&mut m, e.as_str());
            return Err(JssError::Parse(m));
        },
    };
    let base = match parse_url(base_url) {
        Ok(b) => b,
        Err(e) => {
            let mut m = owned("URL join error: ");
            push_str(&mut m, e.as_str());
            return Err(JssError::Parse(m));
        },
    };
    match validate_joined_url(&base, &joined) {
        Ok(()) => Ok(joined.text),
        Err(e) => Err(e),
    }
}

/// What `ClientConfig::validate` answers: HTTPS unless insecure connections are allowed,
/// non-empty credentials in session mode, and none of the `data`, `javascript` or
/// `vbscript` schemes.
pub open spec fn client_config_check(
    scheme: Seq<char>,
    insecure_ssl: bool,
    session_credentials: Option<(Seq<char>, Seq<char>)>,
) -> Result<(), JssErrorView> {
    if scheme != "https"@ && !insecure_ssl {
        Err(JssErrorView::Config("HTTPS required unless insecure_ssl=true"@))
    } else if session_credentials matches Some((email, password)) && (email.len() == 0
        || password.len() == 0) {
        Err(JssErrorView::Validation("Email and password must not be empty"@))
    } else if scheme == "data"@ || scheme == "javascript"@ || scheme == "vbscript"@ {
        Err(JssErrorView::Config("Unsupported URL scheme: "@ + scheme))
    } else {
        Ok(())
    }
}

/// Checks a client configuration: the base URL's scheme, whether insecure connections are
/// allowed, and, in session mode, the e-mail and password.
pub fn validate_client_config(
    scheme: &str,
    insecure_ssl: bool,
    session_credentials: Option<(&str, &str)>,
) -> (r: Result<(), JssError>)
    ensures
        r is Ok == client_config_check(
            scheme@,
            insecure_ssl,
            match session_credentials {
                Some((e, p)) => Some((e@, p@)),
                None => None,
            },
        ) is Ok,
        r matches Err(err) ==> client_config_check(
            scheme@,
            insecure_ssl,
            match session_credentials {
                Some((e, p)) => Some((e@, p@)),
                None => None,
            },
        ) == Err::<(), JssErrorView>(err@),
{
    let s = owned(scheme);
    if s != owned("https") && !insecure_ssl {
        return Err(JssError::Config(owned("HTTPS required unless insecure_ssl=true")));
    }
    if let Some((email, password)) = session_credentials {
        if email.is_empty() || password.is_empty() {
            return Err(JssError::Validation(owned("Email and password must not be empty")));
        }
    }
    if s == owned("data") || s == owned("javascript") || s == owned("vbscript") {
        let mut m = owned("Unsupported URL scheme: ");
        push_str(&mut m, scheme);
        return Err(JssError::Config(m));
    }
    Ok(())
}

/// Every URL the client requests lies on the configured base: the path decodes, names
/// no other site and does not climb directories, and once joined it keeps the base's
/// scheme, host and port.
pub proof fn law_requests_stay_on_base(base: Seq<char>, path: Seq<char>)
    ensures
        join_url_check(base, path) is Ok ==> {
            let decoded = url_decoded(path)->0;
            let joined = url_join_result(base, decoded)->Ok_0;
            &&& url_decoded(path) is Some
            &&& !contains(decoded, "://"@)
            &&& !contains(decoded, ".."@)
            &&& url_join_result(base, decoded) is Ok
            &&& url_parse_result(base) is Ok
            &&& same_origin(joined, url_parse_result(base)->Ok_0)
            &&& join_url_check(base, path)->Ok_0 == joined.text
        },
{
}

/// What one byte is written as by `urlencoding::encode`.
pub open spec fn encoded_byte(b: u8) -> Seq<char> {
    if is_unreserved(b) {
        seq![b as char]
    } else {
        seq!['%', hex_upper((b / 16) as int), hex_upper((b % 16) as int)]
    }
}

/// The bytes of [`encoded_byte`]'s characters, all of them ASCII.
spec fn encoded_byte_bytes(b: u8) -> Seq<u8> {
    if is_unreserved(b) {
        seq![b]
    } else {
        seq![37u8, (hex_upper((b / 16) as int) as u32) as u8, (hex_upper((b % 16) as int) as u32) as u8]
    }
}

proof fn lemma_encode_utf8_concat(x: Seq<char>, y: Seq<char>)
    ensures
        encode_utf8(x + y) == encode_utf8(x) + encode_utf8(y),
    decreases x.len(),
{
    if x.len() == 0 {
        assert(x + y =~= y);
    } else {
        assert((x + y).drop_first() =~= x.drop_first() + y);
        lemma_encode_utf8_concat(x.drop_first(), y);
        assert(encode_utf8(x + y) =~= encode_utf8(x) + encode_utf8(y));
    }
}

/// An ASCII character is one byte of UTF-8, its own code.
proof fn lemma_ascii_utf8(c: char)
    requires
        (c as u32) <= 0x7f,
    ensures
        encode_utf8(seq![c]) == seq![(c as u32) as u8],
{
    let v = c as u32;
    assert(v & 0x7f == v) by (bit_vector)
        requires
            v <= 0x7f,
    ;
    assert(seq![c].drop_first() =~= Seq::<char>::empty());
    assert(encode_utf8(Seq::<char>::empty()) =~= Seq::<u8>::empty());
    assert(seq![c][0] == c);
    assert(encode_scalar(v) =~= seq![(v & 0x7f) as u8]);
    assert(encode_utf8(seq![c]) =~= encode_scalar(v) + encode_utf8(Seq::<char>::empty()));
    assert(encode_utf8(seq![c]) =~= seq![(v & 0x7f) as u8]);
}

proof fn lemma_hex_digit(d: int)
    requires
        0 <= d < 16,
    ensures
        (hex_upper(d) as u32) <= 0x7f,
        hex_value((hex_upper(d) as u32) as u8) == Some(d as u8),
{
}

proof fn lemma_encoded_byte_utf8(b: u8)
    ensures
        encode_utf8(encoded_byte(b)) == encoded_byte_bytes(b),
{
    if is_unreserved(b) {
        lemma_ascii_utf8(b as char);
    } else {
        let h1 = hex_upper((b / 16) as int);
        let h2 = hex_upper((b % 16) as int);
        lemma_hex_digit((b / 16) as int);
        lemma_hex_digit((b % 16) as int);
        lemma_ascii_utf8('%');
        lemma_ascii_utf8(h1);
        lemma_ascii_utf8(h2);
        assert(seq!['%', h1, h2] =~= seq!['%'] + seq![h1] + seq![h2]);
        lemma_encode_utf8_concat(seq!['%'] + seq![h1], seq![h2]);
        lemma_encode_utf8_concat(seq!['%'], seq![h1]);
        assert(encode_utf8(seq!['%', h1, h2]) =~= encoded_byte_bytes(b));
    }
}

proof fn lemma_decode_encoded_byte(b: u8, rest: Seq<u8>)
    ensures
        percent_decode(encoded_byte_bytes(b) + rest) == seq![b] + percent_decode(rest),
{
    let t = encoded_byte_bytes(b) + rest;
    if is_unreserved(b) {
        assert(t.drop_first() =~= rest);
    } else {
        lemma_hex_digit((b / 16) as int);
        lemma_hex_digit((b % 16) as int);
        assert(t.skip(3) =~= rest);
        assert(((b / 16) as u8 * 16 + (b % 16) as u8) as u8 == b);
    }
}

proof fn lemma_percent_round_trip(b: Seq<u8>)
    ensures
        percent_decode(encode_utf8(encode_bytes(b))) == b,
    decreases b.len(),
{
    if b.len() == 0 {
        assert(encode_utf8(Seq::<char>::empty()) =~= Seq::<u8>::empty());
    } else {
        let rest = b.drop_first();
        assert(encode_bytes(b) == encoded_byte(b[0]) + encode_bytes(rest));
        lemma_encode_utf8_concat(encoded_byte(b[0]), encode_bytes(rest));
        lemma_encoded_byte_utf8(b[0]);
        lemma_decode_encoded_byte(b[0], encode_utf8(encode_bytes(rest)));
        lemma_percent_round_trip(rest);
        assert(seq![b[0]] + rest =~= b);
    }
}

/// What `url_encode` writes, `url_decode` reads back unchanged.
pub proof fn law_url_round_trip(s: Seq<char>)
    ensures
        url_decoded(url_encoded(s)) == Some(s),
{
    lemma_percent_round_trip(encode_utf8(s));
    vstd::utf8::encode_utf8_valid_utf8(s);
    vstd::utf8::encode_utf8_decode_utf8(s);
}

} // verus!
