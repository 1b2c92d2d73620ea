//! What the C interface makes of its callbacks' answers. A callback returns 0 on
//! success and anything else on failure, with an error code (see
//! [`map_error_code`](crate::auth::error::map_error_code)); a session store hands
//! deadlines over as Unix timestamps, `-1` standing for "no idle deadline".
use crate::auth::config::AuthConfig;
use crate::auth::error::{code_error, map_error_code, AuthError, AuthErrorView};
use crate::auth::session::{in_time_range, MAX_INSTANT, MAX_TIMESTAMP, MIN_INSTANT, MIN_TIMESTAMP, NANOS_PER_SECOND};
use vstd::arithmetic::div_mod::{lemma_fundamental_div_mod, lemma_fundamental_div_mod_converse, lemma_mod_pos_bound};
use crate::auth::types::{SessionInfo, SessionInfoView, UserInfo, UserInfoView};
use crate::text::{opt_view, owned};
use vstd::prelude::*;

verus! {

/// `time::OffsetDateTime::from_unix_timestamp`, then `unix_timestamp`: a timestamp is
/// accepted exactly when it lies within the years -9999 to 9999, and is then given back
/// unchanged; otherwise the error's text is `timestamp was not in range`.
#[verifier::external_body]
fn check_unix_timestamp(t: i64) -> (r: Result<i64, String>)
    ensures
        r is Ok <==> MIN_TIMESTAMP <= t <= MAX_TIMESTAMP,
        r matches Ok(v) ==> v == t,
        r matches Err(e) ==> e@ == "timestamp was not in range"@,
{
    match time::OffsetDateTime::from_unix_timestamp(t) {
        Ok(d) => Ok(d.unix_timestamp()),
        Err(e) => Err(e.to_string()),
    }
}

/// The Unix time, in whole seconds, of an instant given in nanoseconds
/// (`OffsetDateTime::unix_timestamp`): the seconds are counted down to the whole second
/// at or before the instant.
pub open spec fn unix_seconds(t: i128) -> i64 {
    (t / NANOS_PER_SECOND) as i64
}

/// A Unix time in whole seconds that `OffsetDateTime` holds.
pub open spec fn seconds_in_range(t: i64) -> bool {
    MIN_TIMESTAMP <= t <= MAX_TIMESTAMP
}

/// The Unix time, in whole seconds, of an instant that `OffsetDateTime` holds.
pub fn unix_seconds_of(t: i128) -> (s: i64)
    requires
        in_time_range(t),
    ensures
        s == unix_seconds(t),
        seconds_in_range(s),
{
    let shifted: u128 = (t - MIN_INSTANT) as u128;
    let q: u128 = shifted / 1_000_000_000u128;
    proof {
        let x = shifted as int;
        let n = NANOS_PER_SECOND as int;
        lemma_fundamental_div_mod(x, n);
        lemma_mod_pos_bound(x, n);
        let r = x % n;
        assert(x == q * n + r);
        assert(t == (q - 377705116800) * n + r) by (nonlinear_arith)
            requires
                x == q * n + r,
                x == t + 377705116800 * n,
        ;
        lemma_fundamental_div_mod_converse(t as int, n, q - 377705116800, r);
        assert(0 <= q <= 631107417599) by (nonlinear_arith)
            requires
                x == q * n + r,
                0 <= r < n,
                n == 1_000_000_000,
                0 <= x <= MAX_INSTANT - MIN_INSTANT,
        ;
    }
    (q as i128 - 377705116800i128) as i64
}

/// The deadlines a session is saved with, as Unix times in whole seconds: issue time,
/// expiry, and the idle deadline or `-1` when there is none.
pub open spec fn saved_deadlines(info: SessionInfoView) -> (i64, i64, i64) {
    (
        unix_seconds(info.issued_at),
        unix_seconds(info.expires_at),
        match info.idle_deadline {
            Some(t) => unix_seconds(t),
            None => -1i64,
        },
    )
}

/// The deadlines to hand to a C session store's save callback.
pub fn save_deadlines(info: &SessionInfo) -> (r: (i64, i64, i64))
    requires
        in_time_range(info.issued_at),
        in_time_range(info.expires_at),
        info.idle_deadline matches Some(t) ==> in_time_range(t),
    ensures
        r == saved_deadlines(info@),
{
    let idle = match info.idle_deadline {
        Some(t) => unix_seconds_of(t),
        None => -1,
    };
    (unix_seconds_of(info.issued_at), unix_seconds_of(info.expires_at), idle)
}

/// What a session store's load callback gave: on failure the error of its code; without
/// a user the session is unknown; otherwise the session, once each deadline is a valid
/// Unix time in seconds (`-1` for the idle deadline meaning none), each taken as the
/// instant at the start of its second.
pub open spec fn loaded_session(
    ret: i32,
    err_code: i32,
    user_id: Option<Seq<char>>,
    data: serde_json::Value,
    issued: i64,
    expires: i64,
    idle: i64,
) -> Result<Option<SessionInfoView>, AuthErrorView> {
    if ret != 0 {
        Err(code_error(err_code))
    } else {
        match user_id {
            None => Ok(None),
            Some(u) => if !seconds_in_range(issued) || !seconds_in_range(expires) || (idle != -1
                && !seconds_in_range(idle)) {
                Err(AuthErrorView::Internal("timestamp was not in range"@))
            } else {
                Ok(
                    Some(
                        SessionInfoView {
                            user_id: u,
                            data,
                            issued_at: (issued * NANOS_PER_SECOND) as i128,
                            expires_at: (expires * NANOS_PER_SECOND) as i128,
                            idle_deadline: if idle == -1 {
                                None
                            } else {
                                Some((idle * NANOS_PER_SECOND) as i128)
                            },
                        },
                    ),
                )
            },
        }
    }
}

/// Makes the outcome of a session store's load callback: `ret` is what it returned,
/// `err_code` the error code it set, `user_id` the user id it set (none when it set a
/// null pointer), `data` the session data read from its JSON text.
pub fn session_from_callback(
    ret: i32,
    err_code: i32,
    user_id: Option<String>,
    data: serde_json::Value,
    issued: i64,
    expires: i64,
    idle: i64,
) -> (r: Result<Option<SessionInfo>, AuthError>)
    ensures
        ({
            let outcome = loaded_session(ret, err_code, opt_view(user_id), data, issued, expires, idle);
            &&& r matches Ok(Some(s)) ==> outcome == Ok::<Option<SessionInfoView>, AuthErrorView>(
                Some(s@),
            )
            &&& r matches Ok(None) ==> outcome == Ok::<Option<SessionInfoView>, AuthErrorView>(
                None,
            )
            &&& r matches Err(e) ==> outcome == Err::<Option<SessionInfoView>, AuthErrorView>(e@)
        }),
{
    if ret != 0 {
        return Err(map_error_code(err_code));
    }
    let user_id = match user_id {
        None => {
            return Ok(None);
        },
        Some(u) => u,
    };
    let issued_at = match check_unix_timestamp(issued) {
        Ok(t) => t,
        Err(e) => {
            return Err(AuthError::Internal(e));
        },
    };
    let expires_at = match check_unix_timestamp(expires) {
        Ok(t) => t,
        Err(e) => {
            return Err(AuthError::Internal(e));
        },
    };
    let idle_deadline = if idle == -1 {
        None
    } else {
        match check_unix_timestamp(idle) {
            Ok(t) => Some(t),
            Err(e) => {
                return Err(AuthError::Internal(e));
            },
        }
    };
    Ok(
        Some(
            SessionInfo {
                user_id,
                data,
                issued_at: issued_at as i128 * NANOS_PER_SECOND,
                expires_at: expires_at as i128 * NANOS_PER_SECOND,
                idle_deadline: match idle_deadline {
                    Some(t) => Some(t as i128 * NANOS_PER_SECOND),
                    None => None,
                },
            },
        ),
    )
}

/// What a save, delete or cleanup callback's return value gives: success on 0, else an
/// internal error naming the operation (`session <what> failed`).
pub open spec fn store_call_outcome(ret: i32, what: Seq<char>) -> Result<(), AuthErrorView> {
    if ret != 0 {
        Err(AuthErrorView::Internal("session "@ + what + " failed"@))
    } else {
        Ok(())
    }
}

fn store_call(ret: i32, what: &str) -> (r: Result<(), AuthError>)
    ensures
        r is Ok <==> store_call_outcome(ret, what@) is Ok,
        r matches Err(e) ==> store_call_outcome(ret, what@) == Err::<(), AuthErrorView>(e@),
{
    if ret != 0 {
        let mut m = owned("session ");
        crate::text::push_str(&mut m, what);
        crate::text::push_str(&mut m, " failed");
        Err(AuthError::Internal(m))
    } else {
        Ok(())
    }
}

/// The outcome of a session store's save callback.
pub fn save_result(ret: i32) -> (r: Result<(), AuthError>)
    ensures
        r is Ok <==> store_call_outcome(ret, "save"@) is Ok,
        r matches Err(e) ==> store_call_outcome(ret, "save"@) == Err::<(), AuthErrorView>(e@),
{
    store_call(ret, "save")
}

/// The outcome of a session store's delete callback.
pub fn delete_result(ret: i32) -> (r: Result<(), AuthError>)
    ensures
        r is Ok <==> store_call_outcome(ret, "delete"@) is Ok,
        r matches Err(e) ==> store_call_outcome(ret, "delete"@) == Err::<(), AuthErrorView>(e@),
{
    store_call(ret, "delete")
}

/// The outcome of a cleanup: without a cleanup callback there is nothing to do.
pub fn cleanup_result(ret: Option<i32>) -> (r: Result<(), AuthError>)
    ensures
        ret is None ==> r is Ok,
        ret matches Some(c) ==> (r is Ok <==> store_call_outcome(c, "cleanup"@) is Ok),
        ret matches Some(c) ==> (r matches Err(e) ==> store_call_outcome(c, "cleanup"@) == Err::<
            (),
            AuthErrorView,
        >(e@)),
{
    match ret {
        None => Ok(()),
        Some(c) => store_call(c, "cleanup"),
    }
}

/// What a user provider's authenticate callback gave: the error of its code on failure,
/// else the user it set.
pub fn user_from_callback(ret: i32, err_code: i32, user_id: String, extra: serde_json::Value) -> (r:
    Result<UserInfo, AuthError>)
    ensures
        ret != 0 ==> (r matches Err(e) && e@ == code_error(err_code)),
        ret == 0 ==> (r matches Ok(u) && u@ == (UserInfoView { user_id: user_id@, extra })),
{
    if ret != 0 {
        return Err(map_error_code(err_code));
    }
    Ok(UserInfo { user_id, extra })
}

/// What a user provider's lookup callback gave: the error of its code on failure, no
/// user when it set a null user id, else the user it set.
pub fn user_lookup_from_callback(
    ret: i32,
    err_code: i32,
    user_id: Option<String>,
    extra: serde_json::Value,
) -> (r: Result<Option<UserInfo>, AuthError>)
    ensures
        ret != 0 ==> (r matches Err(e) && e@ == code_error(err_code)),
        ret == 0 && user_id is None ==> r matches Ok(None),
        ret == 0 && user_id is Some ==> (r matches Ok(Some(u)) && u@ == (UserInfoView {
            user_id: user_id->0@,
            extra,
        })),
{
    if ret != 0 {
        return Err(map_error_code(err_code));
    }
    match user_id {
        None => Ok(None),
        Some(id) => Ok(Some(UserInfo { user_id: id, extra })),
    }
}

/// Sets the session lifetime, given in seconds, from the C interface; a lifetime that
/// is not positive is ignored.
pub fn set_session_lifetime(config: &mut AuthConfig, seconds: i64)
    ensures
        seconds > 0 ==> final(config)@ == (crate::auth::config::AuthConfigView {
            session_lifetime_nanos: (seconds * NANOS_PER_SECOND) as i128,
            ..old(config)@
        }),
        seconds <= 0 ==> final(config)@ == old(config)@,
{
    if seconds > 0 {
        config.session_lifetime_nanos = seconds as i128 * NANOS_PER_SECOND;
    }
}

/// A session saved through the C interface and loaded back is the same session when
/// its deadlines fall on whole seconds, unless its idle deadline is the Unix time `-1`,
/// which reads back as no idle deadline.
pub proof fn law_callback_session_round_trip(info: SessionInfoView)
    requires
        in_time_range(info.issued_at),
        in_time_range(info.expires_at),
        info.issued_at % NANOS_PER_SECOND == 0,
        info.expires_at % NANOS_PER_SECOND == 0,
        info.idle_deadline matches Some(t) ==> in_time_range(t) && t % NANOS_PER_SECOND == 0
            && t != -NANOS_PER_SECOND,
    ensures
        ({
            let (issued, expires, idle) = saved_deadlines(info);
            loaded_session(0, 0, Some(info.user_id), info.data, issued, expires, idle) == Ok::<
                Option<SessionInfoView>,
                AuthErrorView,
            >(Some(info))
        }),
{
    lemma_whole_second(info.issued_at);
    lemma_whole_second(info.expires_at);
    if let Some(t) = info.idle_deadline {
        lemma_whole_second(t);
    }
}

/// An instant on a whole second is its Unix time in seconds, in nanoseconds.
proof fn lemma_whole_second(t: i128)
    requires
        in_time_range(t),
        t % NANOS_PER_SECOND == 0,
    ensures
        unix_seconds(t) * NANOS_PER_SECOND == t,
        seconds_in_range(unix_seconds(t)),
        t != -NANOS_PER_SECOND ==> unix_seconds(t) != -1,
{
    lemma_fundamental_div_mod(t as int, NANOS_PER_SECOND as int);
    let q = t / NANOS_PER_SECOND;
    assert(MIN_TIMESTAMP <= q <= MAX_TIMESTAMP) by (nonlinear_arith)
        requires
            t == 1_000_000_000 * q,
            MIN_INSTANT <= t <= MAX_INSTANT,
    ;
}

} // verus!
