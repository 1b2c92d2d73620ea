//! Creating, checking and ending sessions.
use crate::auth::config::{AuthConfig, AuthConfigView};
use crate::auth::error::{AuthError, AuthErrorView};
use crate::auth::types::{SessionId, SessionInfo, SessionInfoView, SessionStore, UserInfo, UserInfoView};
use crate::json::clone_json;
use crate::text::{owned, push_char};
use rand::Rng;
use vstd::prelude::*;

verus! {

/// The earliest Unix time that `time::OffsetDateTime` holds (-9999-01-01T00:00:00Z).
pub const MIN_TIMESTAMP: i64 = -377705116800i64;

/// The latest Unix time that `time::OffsetDateTime` holds (9999-12-31T23:59:59Z).
pub const MAX_TIMESTAMP: i64 = 253402300799i64;

/// Nanoseconds in a second.
pub const NANOS_PER_SECOND: i128 = 1_000_000_000i128;

/// The earliest instant that `time::OffsetDateTime` holds, in nanoseconds since the Unix
/// epoch (-9999-01-01T00:00:00Z).
pub const MIN_INSTANT: i128 = -377705116800_000_000_000i128;

/// The latest instant that `time::OffsetDateTime` holds, in nanoseconds since the Unix
/// epoch (9999-12-31T23:59:59.999999999Z).
pub const MAX_INSTANT: i128 = 253402300799_999_999_999i128;

/// The current instant in nanoseconds since the Unix epoch
/// (`OffsetDateTime::now_utc().unix_timestamp_nanos()`); whatever the clock says, it
/// lies within the range of `OffsetDateTime`.
#[verifier::external_body]
pub(crate) fn now_timestamp() -> (t: i128)
    ensures
        MIN_INSTANT <= t <= MAX_INSTANT,
{
    time::OffsetDateTime::now_utc().unix_timestamp_nanos()
}

pub open spec fn is_ascii_alphanumeric(c: char) -> bool {
    ('0' <= c <= '9') || ('A' <= c <= 'Z') || ('a' <= c <= 'z')
}

/// One byte drawn from `rand::distributions::Alphanumeric` with the thread's generator;
/// that distribution only yields the bytes of `A-Z`, `a-z` and `0-9`.
#[verifier::external_body]
fn random_alphanumeric() -> (b: u8)
    ensures
        is_ascii_alphanumeric(b as char),
{
    rand::thread_rng().sample(rand::distributions::Alphanumeric)
}

/// The shape of a generated session identifier: 32 ASCII letters and digits.
pub open spec fn is_session_token(s: Seq<char>) -> bool {
    s.len() == 32 && forall|i: int| 0 <= i < s.len() ==> is_ascii_alphanumeric(#[trigger] s[i])
}

/// A fresh random session identifier of 32 ASCII letters and digits.
pub fn generate_session_id() -> (id: SessionId)
    ensures
        is_session_token(id@),
{
    let mut s = String::new();
    let mut i: usize = 0;
    while i < 32
        invariant
            i <= 32,
            s@.len() == i,
            forall|j: int| 0 <= j < i ==> is_ascii_alphanumeric(#[trigger] s@[j]),
        decreases 32 - i,
    {
        let b = random_alphanumeric();
        push_char(&mut s, b as char);
        i = i + 1;
    }
    SessionId::new(s)
}

/// An instant, in nanoseconds since the Unix epoch, that `time::OffsetDateTime` can hold.
pub open spec fn time_in_range(t: int) -> bool {
    MIN_INSTANT <= t <= MAX_INSTANT
}

/// The deadlines of a session created at `now` can be held by `OffsetDateTime`: adding
/// the lifetime, and the idle timeout when there is one, stays within its range.
pub open spec fn deadlines_fit(c: AuthConfigView, now: i128) -> bool {
    time_in_range(now + c.session_lifetime_nanos) && (c.session_idle_timeout_nanos matches Some(t)
        ==> time_in_range(now + t))
}

/// Whether `now` plus `span` nanoseconds stays within the range of `OffsetDateTime`.
fn span_lands_in_range(now: i128, span: i128) -> (b: bool)
    requires
        in_time_range(now),
    ensures
        b == time_in_range(now + span),
{
    MIN_INSTANT - now <= span && span <= MAX_INSTANT - now
}

/// Whether the deadlines of a session created at `now` can be held by `OffsetDateTime`.
pub fn deadlines_fit_at(config: &AuthConfig, now: i128) -> (b: bool)
    requires
        in_time_range(now),
    ensures
        b == deadlines_fit(config@, now),
{
    let lifetime_fits = span_lands_in_range(now, config.session_lifetime_nanos);
    let idle_fits = match config.session_idle_timeout_nanos {
        Some(t) => span_lands_in_range(now, t),
        None => true,
    };
    lifetime_fits && idle_fits
}

/// An instant that `OffsetDateTime` can hold.
pub open spec fn in_time_range(now: i128) -> bool {
    MIN_INSTANT <= now <= MAX_INSTANT
}

/// The session that a user gets at instant `now`: it expires a session lifetime later
/// and, when an idle timeout is configured, must be used again within that timeout.
pub open spec fn new_session(config: AuthConfigView, user: UserInfoView, now: i128) -> SessionInfoView {
    SessionInfoView {
        user_id: user.user_id,
        data: user.extra,
        issued_at: now,
        expires_at: (now + config.session_lifetime_nanos) as i128,
        idle_deadline: match config.session_idle_timeout_nanos {
            Some(t) => Some((now + t) as i128),
            None => None,
        },
    }
}

/// A session is over once the instant is past its expiry or past its idle deadline.
pub open spec fn session_expired(info: SessionInfoView, now: i128) -> bool {
    now > info.expires_at || (info.idle_deadline matches Some(d) && now > d)
}

/// What checking a session identifier against the stored sessions finds.
pub enum SessionVerdict {
    Valid(SessionInfoView),
    NotFound,
    Expired,
}

pub open spec fn session_verdict(
    sessions: Map<Seq<char>, SessionInfoView>,
    id: Seq<char>,
    now: i128,
) -> SessionVerdict {
    if !sessions.contains_key(id) {
        SessionVerdict::NotFound
    } else if session_expired(sessions[id], now) {
        SessionVerdict::Expired
    } else {
        SessionVerdict::Valid(sessions[id])
    }
}

/// The session record for `user` created at `now`.
pub fn session_info_for(config: &AuthConfig, user: &UserInfo, now: i128) -> (info: SessionInfo)
    requires
        in_time_range(now),
        deadlines_fit(config@, now),
    ensures
        info@ == new_session(config@, user@, now),
{
    let idle_deadline = match config.session_idle_timeout_nanos {
        Some(t) => Some(now + t),
        None => None,
    };
    SessionInfo {
        user_id: user.user_id.clone(),
        data: clone_json(&user.extra),
        issued_at: now,
        expires_at: now + config.session_lifetime_nanos,
        idle_deadline,
    }
}

/// Whether a session is over at `now`.
pub fn is_expired(info: &SessionInfo, now: i128) -> (b: bool)
    ensures
        b == session_expired(info@, now),
{
    if now > info.expires_at {
        return true;
    }
    match info.idle_deadline {
        Some(d) => now > d,
        None => false,
    }
}

/// What creating a session answers once the store was asked to save it: the session
/// when the store saved it, the store's own error otherwise.
pub fn session_saved(saved: Result<(), AuthError>, info: SessionInfo) -> (r: Result<
    SessionInfo,
    AuthError,
>)
    ensures
        r == match saved {
            Ok(()) => Ok::<SessionInfo, AuthError>(info),
            Err(e) => Err(e),
        },
{
    match saved {
        Ok(()) => Ok(info),
        Err(e) => Err(e),
    }
}

/// The error that creating a session answers when its deadlines would leave the range
/// of `OffsetDateTime`.
pub open spec fn deadline_out_of_range() -> AuthErrorView {
    AuthErrorView::Internal("session deadline out of range"@)
}

/// Stores the session that `user_info` gets under `id` at instant `now`. Should its
/// deadlines not fit the range of `OffsetDateTime`, nothing is stored and the answer is
/// [`deadline_out_of_range`]; otherwise what the store's `save` answers decides the
/// result, as [`session_saved`] states.
pub fn create_session_at<S: SessionStore>(
    store: &mut S,
    config: &AuthConfig,
    user_info: &UserInfo,
    id: &SessionId,
    now: i128,
) -> (r: Result<SessionInfo, AuthError>)
    requires
        in_time_range(now),
    ensures
        final(store).infallible() == old(store).infallible(),
        r matches Ok(info) ==> deadlines_fit(config@, now) && info@ == new_session(
            config@,
            user_info@,
            now,
        ),
        !deadlines_fit(config@, now) ==> (r matches Err(e) && e@ == deadline_out_of_range()
            && *final(store) == *old(store)),
        deadlines_fit(config@, now) && old(store).infallible() ==> r is Ok && final(store).sessions()
            == old(store).sessions().insert(id@, new_session(config@, user_info@, now)),
{
    if !deadlines_fit_at(config, now) {
        return Err(AuthError::Internal(owned("session deadline out of range")));
    }
    let info = session_info_for(config, user_info, now);
    let saved = store.save(id, &info);
    session_saved(saved, info)
}

/// Creates and stores a session for `user_info` under a fresh identifier at the
/// current instant, as [`create_session_at`] says for that identifier and instant.
pub fn create_session<S: SessionStore>(
    store: &mut S,
    config: &AuthConfig,
    user_info: &UserInfo,
) -> (r: Result<(SessionId, SessionInfo), AuthError>)
    ensures
        final(store).infallible() == old(store).infallible(),
        r matches Ok((id, info)) ==> is_session_token(id@) && in_time_range(info@.issued_at)
            && deadlines_fit(config@, info@.issued_at)
            && info@ == new_session(config@, user_info@, info@.issued_at),
        old(store).infallible() ==> match r {
            Ok((id, info)) => final(store).sessions() == old(store).sessions().insert(id@, info@),
            Err(e) => e@ == deadline_out_of_range() && final(store).sessions() == old(
                store,
            ).sessions(),
        },
{
    let id = generate_session_id();
    let now = now_timestamp();
    match create_session_at(store, config, user_info, &id, now) {
        Ok(info) => Ok((id, info)),
        Err(e) => Err(e),
    }
}

/// What loading a session decides at time `now`.
pub enum LoadStep {
    /// The session is live.
    Valid(SessionInfo),
    /// The session is over: it is to be deleted, then answered as expired.
    Delete,
    /// The answer is this error.
    Fail(AuthError),
}

/// What the store's answer to `load` decides at time `now`: its error is passed on, a
/// missing session is `SessionNotFound`, an expired one is to be deleted, and a live
/// one is valid.
pub fn session_loaded(loaded: Result<Option<SessionInfo>, AuthError>, now: i128) -> (r: LoadStep)
    ensures
        r == match loaded {
            Err(e) => LoadStep::Fail(e),
            Ok(None) => LoadStep::Fail(AuthError::SessionNotFound),
            Ok(Some(info)) => if session_expired(info@, now) {
                LoadStep::Delete
            } else {
                LoadStep::Valid(info)
            },
        },
{
    match loaded {
        Err(e) => LoadStep::Fail(e),
        Ok(None) => LoadStep::Fail(AuthError::SessionNotFound),
        Ok(Some(info)) => if is_expired(&info, now) {
            LoadStep::Delete
        } else {
            LoadStep::Valid(info)
        },
    }
}

/// The error that an expired session is answered with once the store was asked to
/// delete it: `SessionExpired`, or the store's own error when the delete failed.
pub fn expired_session_deleted(deleted: Result<(), AuthError>) -> (e: AuthError)
    ensures
        e == match deleted {
            Ok(()) => AuthError::SessionExpired,
            Err(d) => d,
        },
{
    match deleted {
        Ok(()) => AuthError::SessionExpired,
        Err(d) => d,
    }
}

/// A validation result, its texts as character sequences.
pub open spec fn validated_view(r: Result<SessionInfo, AuthError>) -> Result<
    SessionInfoView,
    AuthErrorView,
> {
    match r {
        Ok(i) => Ok(i@),
        Err(e) => Err(e@),
    }
}

/// What validating session `id` at instant `now` answers and leaves, on a store that
/// held `before` and holds `after`: a live session is answered and nothing changes; a
/// missing one is `SessionNotFound`; an expired one is removed and answered
/// `SessionExpired`.
pub open spec fn validation_outcome(
    before: Map<Seq<char>, SessionInfoView>,
    after: Map<Seq<char>, SessionInfoView>,
    id: Seq<char>,
    now: i128,
    r: Result<SessionInfoView, AuthErrorView>,
) -> bool {
    match session_verdict(before, id, now) {
        SessionVerdict::Valid(info) => r == Ok::<SessionInfoView, AuthErrorView>(info) && after
            == before,
        SessionVerdict::NotFound => r == Err::<SessionInfoView, AuthErrorView>(
            AuthErrorView::SessionNotFound,
        ) && after == before,
        SessionVerdict::Expired => r == Err::<SessionInfoView, AuthErrorView>(
            AuthErrorView::SessionExpired,
        ) && after == before.remove(id),
    }
}

/// Checks session `id` at time `now`: the store's answer to `load` is read by
/// [`session_loaded`], and an expired session is deleted and answered by
/// [`expired_session_deleted`].
pub fn validate_session_at<S: SessionStore>(store: &mut S, id: &SessionId, now: i128) -> (r: Result<
    SessionInfo,
    AuthError,
>)
    ensures
        final(store).infallible() == old(store).infallible(),
        r matches Ok(info) ==> !session_expired(info@, now),
        old(store).infallible() ==> match session_verdict(old(store).sessions(), id@, now) {
            SessionVerdict::Valid(info) => r matches Ok(i) && i@ == info && final(store).sessions()
                == old(store).sessions(),
            SessionVerdict::NotFound => r matches Err(e) && e@ == AuthErrorView::SessionNotFound
                && final(store).sessions() == old(store).sessions(),
            SessionVerdict::Expired => r matches Err(e) && e@ == AuthErrorView::SessionExpired
                && final(store).sessions() == old(store).sessions().remove(id@),
        },
{
    let loaded = store.load(id);
    match session_loaded(loaded, now) {
        LoadStep::Valid(info) => Ok(info),
        LoadStep::Fail(e) => Err(e),
        LoadStep::Delete => {
            let deleted = store.delete(id);
            Err(expired_session_deleted(deleted))
        },
    }
}

/// Checks session `id` against the current time.
pub fn validate_session<S: SessionStore>(store: &mut S, id: &SessionId) -> (r: Result<
    SessionInfo,
    AuthError,
>)
    ensures
        final(store).infallible() == old(store).infallible(),
        old(store).infallible() ==> exists|now: i128|
            in_time_range(now) && #[trigger] validation_outcome(
                old(store).sessions(),
                final(store).sessions(),
                id@,
                now,
                validated_view(r),
            ),
{
    let now = now_timestamp();
    let r = validate_session_at(store, id, now);
    proof {
        if old(store).infallible() {
            assert(validation_outcome(
                old(store).sessions(),
                store.sessions(),
                id@,
                now,
                validated_view(r),
            ));
        }
    }
    r
}

/// Removes session `id` from the store; the answer is the store's answer to `delete`.
pub fn destroy_session<S: SessionStore>(store: &mut S, id: &SessionId) -> (r: Result<(), AuthError>)
    ensures
        final(store).infallible() == old(store).infallible(),
        old(store).infallible() ==> r is Ok && final(store).sessions() == old(store).sessions().remove(
            id@,
        ),
{
    store.delete(id)
}

/// A session is valid from the moment it is created until its deadlines pass.
pub proof fn law_new_session_valid_until_deadline(
    sessions: Map<Seq<char>, SessionInfoView>,
    config: AuthConfigView,
    user: UserInfoView,
    id: Seq<char>,
    created: i128,
    now: i128,
)
    requires
        in_time_range(created),
        deadlines_fit(config, created),
        created <= now,
        now <= created + config.session_lifetime_nanos,
        config.session_idle_timeout_nanos matches Some(t) ==> now <= created + t,
    ensures
        session_verdict(sessions.insert(id, new_session(config, user, created)), id, now)
            == SessionVerdict::Valid(new_session(config, user, created)),
{
}

/// Once the lifetime has passed, the session is expired, whatever else holds.
pub proof fn law_session_expires_after_lifetime(
    sessions: Map<Seq<char>, SessionInfoView>,
    config: AuthConfigView,
    user: UserInfoView,
    id: Seq<char>,
    created: i128,
    now: i128,
)
    requires
        in_time_range(created),
        deadlines_fit(config, created),
        now > created + config.session_lifetime_nanos,
    ensures
        session_verdict(sessions.insert(id, new_session(config, user, created)), id, now)
            == SessionVerdict::Expired,
{
}

/// A destroyed session is not found any more.
pub proof fn law_destroyed_session_not_found(
    sessions: Map<Seq<char>, SessionInfoView>,
    id: Seq<char>,
    now: i128,
)
    ensures
        session_verdict(sessions.remove(id), id, now) == SessionVerdict::NotFound,
{
}

/// Checking one session neither finds nor loses any other.
pub proof fn law_other_sessions_unaffected(
    sessions: Map<Seq<char>, SessionInfoView>,
    id: Seq<char>,
    other: Seq<char>,
    info: SessionInfoView,
    now: i128,
)
    requires
        id != other,
    ensures
        session_verdict(sessions.insert(id, info), other, now) == session_verdict(
            sessions,
            other,
            now,
        ),
        session_verdict(sessions.remove(id), other, now) == session_verdict(sessions, other, now),
{
}

} // verus!
