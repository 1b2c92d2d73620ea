//! The values that the authentication service passes around, and the two
//! interfaces through which it reaches users and stored sessions.
//!
//! Times are Unix timestamps in whole seconds, as the C interface hands them over.
use crate::auth::error::AuthError;
use crate::json::clone_json;
use vstd::prelude::*;

verus! {

/// The opaque identifier of a session, as carried in the session cookie.
#[derive(Debug, PartialEq, Eq, Hash)]
pub struct SessionId {
    id: String,
}

impl View for SessionId {
    type V = Seq<char>;

    closed spec fn view(&self) -> Seq<char> {
        self.id@
    }
}

impl SessionId {
    pub fn new(id: String) -> (r: SessionId)
        ensures
            r@ == id@,
    {
        SessionId { id }
    }

    pub fn as_str(&self) -> (s: &str)
        ensures
            s@ == self@,
    {
        self.id.as_str()
    }

    /// The identifier's text (what `to_string` gives).
    pub fn to_string(&self) -> (s: String)
        ensures
            s@ == self@,
    {
        self.id.clone()
    }

    pub fn duplicate(&self) -> (r: SessionId)
        ensures
            r@ == self@,
    {
        SessionId { id: self.id.clone() }
    }
}

/// A login request's user name and password.
pub struct Credentials {
    pub username: String,
    pub password: String,
}

/// What a user provider knows of an authenticated user.
#[derive(Debug)]
pub struct UserInfo {
    pub user_id: String,
    pub extra: serde_json::Value,
}

pub struct UserInfoView {
    pub user_id: Seq<char>,
    pub extra: serde_json::Value,
}

impl View for UserInfo {
    type V = UserInfoView;

    open spec fn view(&self) -> UserInfoView {
        UserInfoView { user_id: self.user_id@, extra: self.extra }
    }
}

impl UserInfo {
    pub fn duplicate(&self) -> (r: UserInfo)
        ensures
            r@ == self@,
    {
        UserInfo { user_id: self.user_id.clone(), extra: clone_json(&self.extra) }
    }
}

/// A stored session: whose it is, the user's data, and its deadlines.
#[derive(Debug)]
pub struct SessionInfo {
    pub user_id: String,
    pub data: serde_json::Value,
    pub issued_at: i128,
    pub expires_at: i128,
    pub idle_deadline: Option<i128>,
}

pub struct SessionInfoView {
    pub user_id: Seq<char>,
    pub data: serde_json::Value,
    pub issued_at: i128,
    pub expires_at: i128,
    pub idle_deadline: Option<i128>,
}

impl View for SessionInfo {
    type V = SessionInfoView;

    open spec fn view(&self) -> SessionInfoView {
        SessionInfoView {
            user_id: self.user_id@,
            data: self.data,
            issued_at: self.issued_at,
            expires_at: self.expires_at,
            idle_deadline: self.idle_deadline,
        }
    }
}

impl SessionInfo {
    pub fn duplicate(&self) -> (r: SessionInfo)
        ensures
            r@ == self@,
    {
        SessionInfo {
            user_id: self.user_id.clone(),
            data: clone_json(&self.data),
            issued_at: self.issued_at,
            expires_at: self.expires_at,
            idle_deadline: self.idle_deadline,
        }
    }
}

/// A response to hand back to the HTTP layer.
#[derive(Debug)]
pub struct HttpResponse {
    pub status: u16,
    pub body: String,
    pub headers: Vec<(String, String)>,
}

pub struct HttpResponseView {
    pub status: u16,
    pub body: Seq<char>,
    pub headers: Seq<(Seq<char>, Seq<char>)>,
}

impl View for HttpResponse {
    type V = HttpResponseView;

    open spec fn view(&self) -> HttpResponseView {
        HttpResponseView {
            status: self.status,
            body: self.body@,
            headers: self.headers@.map_values(|h: (String, String)| (h.0@, h.1@)),
        }
    }
}

impl HttpResponse {
    /// A response with a status and a body, and no headers.
    pub fn new(status: u16, body: String) -> (r: HttpResponse)
        ensures
            r@ == (HttpResponseView { status, body: body@, headers: Seq::empty() }),
    {
        let r = HttpResponse { status, body, headers: Vec::new() };
        assert(r@.headers =~= Seq::<(Seq<char>, Seq<char>)>::empty());
        r
    }

    /// A response whose body is the given JSON text.
    pub fn json(status: u16, json_text: String) -> (r: HttpResponse)
        ensures
            r@ == (HttpResponseView { status, body: json_text@, headers: Seq::empty() }),
    {
        HttpResponse::new(status, json_text)
    }

    /// This response with one more header, after the others.
    pub fn with_header(self, key: String, value: String) -> (r: HttpResponse)
        ensures
            r@ == (HttpResponseView {
                status: self@.status,
                body: self@.body,
                headers: self@.headers.push((key@, value@)),
            }),
    {
        let mut headers = self.headers;
        let ghost old_headers = headers@;
        headers.push((key, value));
        let r = HttpResponse { status: self.status, body: self.body, headers };
        assert(r@.headers =~= self@.headers.push((key@, value@)));
        r
    }
}

/// Where sessions are kept. What is stored is a map from session identifiers to
/// sessions. A store that is `infallible` never fails and keeps to the map it states in
/// `sessions`; of any other store (the defaults), the contracts promise nothing.
pub trait SessionStore {
    open spec fn sessions(&self) -> Map<Seq<char>, SessionInfoView> {
        Map::empty()
    }

    open spec fn infallible(&self) -> bool {
        false
    }

    fn save(&mut self, id: &SessionId, info: &SessionInfo) -> (r: Result<(), AuthError>)
        ensures
            final(self).infallible() == old(self).infallible(),
            old(self).infallible() ==> r is Ok && final(self).sessions() == old(self).sessions().insert(
                id@,
                info@,
            ),
    ;

    fn load(&self, id: &SessionId) -> (r: Result<Option<SessionInfo>, AuthError>)
        ensures
            self.infallible() ==> r is Ok,
            self.infallible() ==> (r matches Ok(Some(info)) ==> self.sessions().contains_key(id@)
                && self.sessions()[id@] == info@),
            self.infallible() ==> (r matches Ok(None) ==> !self.sessions().contains_key(id@)),
    ;

    fn delete(&mut self, id: &SessionId) -> (r: Result<(), AuthError>)
        ensures
            final(self).infallible() == old(self).infallible(),
            old(self).infallible() ==> r is Ok && final(self).sessions() == old(self).sessions().remove(
                id@,
            ),
    ;

    fn cleanup(&mut self) -> (r: Result<(), AuthError>)
        ensures
            final(self).infallible() == old(self).infallible(),
            old(self).infallible() ==> r is Ok && final(self).sessions().submap_of(
                old(self).sessions(),
            ),
    ;
}

/// Where users are checked. The provider alone decides whom it accepts.
pub trait UserProvider {
    fn authenticate(&self, credentials: &Credentials) -> Result<UserInfo, AuthError>;

    fn get_user_by_id(&self, user_id: &str) -> Result<Option<UserInfo>, AuthError>;
}

} // verus!
