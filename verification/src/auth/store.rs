//! The stores and the user provider that come with the library.
use crate::auth::error::{AuthError, AuthErrorView};
use crate::auth::session::{in_time_range, now_timestamp};
use crate::auth::types::{
    Credentials, SessionId, SessionInfo, SessionInfoView, SessionStore, UserInfo, UserProvider,
};
use crate::json::json_string_object;
use crate::keyed::{
    as_map, distinct_keys, entries_view, find_key, has_key, lemma_absent, lemma_at, lemma_empty,
    lemma_push, lemma_remove, lemma_update, lemma_view_index, TextMap,
};
use crate::text::{opt_view, owned};
use vstd::prelude::*;

verus! {

/// The sessions of `m` that are still running at `now` (their expiry not yet passed).
pub open spec fn live_sessions(m: Map<Seq<char>, SessionInfoView>, now: i128) -> Map<
    Seq<char>,
    SessionInfoView,
> {
    Map::new(|k: Seq<char>| m.contains_key(k) && m[k].expires_at > now, |k: Seq<char>| m[k])
}

/// Sessions kept in memory.
pub struct MemorySessionStore {
    entries: Vec<(String, SessionInfo)>,
}

impl MemorySessionStore {
    #[verifier::type_invariant]
    spec fn keys_distinct(self) -> bool {
        distinct_keys(entries_view(self.entries@))
    }

    /// An empty store.
    pub fn new() -> (s: MemorySessionStore)
        ensures
            s.sessions() == Map::<Seq<char>, SessionInfoView>::empty(),
            s.infallible(),
    {
        proof {
            lemma_empty::<SessionInfoView>();
        }
        let entries: Vec<(String, SessionInfo)> = Vec::new();
        assert(entries_view(entries@) =~= Seq::<(Seq<char>, SessionInfoView)>::empty());
        MemorySessionStore { entries }
    }

    /// Drops every session whose expiry has passed at `now`.
    pub fn cleanup_at(&mut self, now: i128)
        ensures
            final(self).sessions() == live_sessions(old(self).sessions(), now),
    {
        proof {
            use_type_invariant(&*self);
        }
        let mut old_entries: Vec<(String, SessionInfo)> = Vec::new();
        std::mem::swap(&mut old_entries, &mut self.entries);
        let ghost old_view = entries_view(old_entries@);
        let mut kept: Vec<(String, SessionInfo)> = Vec::new();
        proof {
            lemma_empty::<SessionInfoView>();
            assert(entries_view(kept@) =~= Seq::<(Seq<char>, SessionInfoView)>::empty());
            assert(old_view.take(0) =~= Seq::<(Seq<char>, SessionInfoView)>::empty());
            assert(live_sessions(Map::<Seq<char>, SessionInfoView>::empty(), now) =~= Map::<
                Seq<char>,
                SessionInfoView,
            >::empty());
        }
        let n = old_entries.len();
        for i in 0..n
            invariant
                n == old_entries.len(),
                old_view == entries_view(old_entries@),
                distinct_keys(old_view),
                distinct_keys(entries_view(kept@)),
                forall|j: int|
                    0 <= j < kept.len() ==> has_key(old_view.take(i as int), #[trigger] entries_view(kept@)[j].0),
                as_map(entries_view(kept@)) == live_sessions(as_map(old_view.take(i as int)), now),
        {
            let ghost prefix = old_view.take(i as int);
            let ghost next = old_view.take(i + 1);
            proof {
                lemma_view_index(old_entries@, i as int);
                assert(next == prefix.push(old_view[i as int]));
                assert(distinct_keys(prefix)) by {
                    assert forall|a: int, b: int|
                        0 <= a < prefix.len() && 0 <= b < prefix.len() && a != b implies prefix[a].0
                        != prefix[b].0 by {
                        assert(prefix[a] == old_view[a] && prefix[b] == old_view[b]);
                    }
                }
                assert(!has_key(prefix, old_view[i as int].0)) by {
                    if has_key(prefix, old_view[i as int].0) {
                        let a = choose|a: int|
                            0 <= a < prefix.len() && prefix[a].0 == old_view[i as int].0;
                        assert(prefix[a] == old_view[a]);
                    }
                }
                lemma_push(prefix, old_view[i as int].0, old_view[i as int].1);
            }
            let expires = old_entries[i].1.expires_at;
            if expires > now {
                let key = old_entries[i].0.clone();
                let info = old_entries[i].1.duplicate();
                let ghost before = entries_view(kept@);
                proof {
                    assert(!has_key(before, old_view[i as int].0)) by {
                        if has_key(before, old_view[i as int].0) {
                            let j = choose|j: int|
                                0 <= j < before.len() && before[j].0 == old_view[i as int].0;
                            assert(has_key(prefix, before[j].0));
                        }
                    }
                    lemma_push(before, key@, info@);
                }
                kept.push((key, info));
                proof {
                    assert(entries_view(kept@) =~= before.push((key@, info@)));
                    assert(live_sessions(as_map(next), now) =~= live_sessions(
                        as_map(prefix),
                        now,
                    ).insert(key@, info@));
                    assert forall|j: int| 0 <= j < kept.len() implies has_key(
                        next,
                        #[trigger] entries_view(kept@)[j].0,
                    ) by {
                        if j < before.len() {
                            assert(entries_view(kept@)[j] == before[j]);
                            let a = choose|a: int|
                                0 <= a < prefix.len() && prefix[a].0 == before[j].0;
                            assert(next[a] == prefix[a]);
                        } else {
                            assert(next[i as int].0 == key@);
                        }
                    }
                }
            } else {
                proof {
                    assert(live_sessions(as_map(next), now) =~= live_sessions(
                        as_map(prefix),
                        now,
                    ));
                    assert forall|j: int| 0 <= j < kept.len() implies has_key(
                        next,
                        #[trigger] entries_view(kept@)[j].0,
                    ) by {
                        let a = choose|a: int|
                            0 <= a < prefix.len() && prefix[a].0 == entries_view(kept@)[j].0;
                        assert(next[a] == prefix[a]);
                    }
                }
            }
        }
        proof {
            assert(old_view.take(n as int) =~= old_view);
        }
        self.entries = kept;
    }
}

impl SessionStore for MemorySessionStore {
    closed spec fn sessions(&self) -> Map<Seq<char>, SessionInfoView> {
        as_map(entries_view(self.entries@))
    }

    open spec fn infallible(&self) -> bool {
        true
    }

    fn save(&mut self, id: &SessionId, info: &SessionInfo) -> (r: Result<(), AuthError>) {
        proof {
            use_type_invariant(&*self);
        }
        let mut entries: Vec<(String, SessionInfo)> = Vec::new();
        std::mem::swap(&mut entries, &mut self.entries);
        let ghost before = entries_view(entries@);
        let key = id.to_string();
        let copy = info.duplicate();
        match find_key(&entries, &key) {
            Some(i) => {
                proof {
                    lemma_view_index(entries@, i as int);
                    lemma_update(before, i as int, info@);
                }
                entries.set(i, (key, copy));
                proof {
                    assert(entries_view(entries@) =~= before.update(i as int, (before[i as int].0, info@)));
                }
            },
            None => {
                proof {
                    assert(!has_key(before, id@)) by {
                        if has_key(before, id@) {
                            let j = choose|j: int| 0 <= j < before.len() && before[j].0 == id@;
                            lemma_view_index(entries@, j);
                        }
                    }
                    lemma_push(before, id@, info@);
                }
                entries.push((key, copy));
                proof {
                    assert(entries_view(entries@) =~= before.push((id@, info@)));
                }
            },
        }
        self.entries = entries;
        Ok(())
    }

    fn load(&self, id: &SessionId) -> (r: Result<Option<SessionInfo>, AuthError>) {
        proof {
            use_type_invariant(self);
        }
        let key = id.to_string();
        match find_key(&self.entries, &key) {
            Some(i) => {
                proof {
                    lemma_view_index(self.entries@, i as int);
                    lemma_at(entries_view(self.entries@), i as int);
                }
                Ok(Some(self.entries[i].1.duplicate()))
            },
            None => {
                proof {
                    assert forall|j: int| 0 <= j < entries_view(self.entries@).len() implies entries_view(
                        self.entries@,
                    )[j].0 != id@ by {
                        lemma_view_index(self.entries@, j);
                    }
                    lemma_absent(entries_view(self.entries@), id@);
                }
                Ok(None)
            },
        }
    }

    fn delete(&mut self, id: &SessionId) -> (r: Result<(), AuthError>) {
        proof {
            use_type_invariant(&*self);
        }
        let mut entries: Vec<(String, SessionInfo)> = Vec::new();
        std::mem::swap(&mut entries, &mut self.entries);
        let ghost before = entries_view(entries@);
        let key = id.to_string();
        match find_key(&entries, &key) {
            Some(i) => {
                proof {
                    lemma_view_index(entries@, i as int);
                    lemma_remove(before, i as int);
                }
                entries.remove(i);
                proof {
                    assert(entries_view(entries@) =~= before.remove(i as int));
                }
            },
            None => {
                proof {
                    assert forall|j: int| 0 <= j < before.len() implies before[j].0 != id@ by {
                        lemma_view_index(entries@, j);
                    }
                    lemma_absent(before, id@);
                    assert(as_map(before).remove(id@) =~= as_map(before));
                }
            },
        }
        self.entries = entries;
        Ok(())
    }

    fn cleanup(&mut self) -> (r: Result<(), AuthError>)
        ensures
            exists|now: i128|
                in_time_range(now) && #[trigger] live_sessions(old(self).sessions(), now)
                    == final(self).sessions(),
    {
        let now = now_timestamp();
        self.cleanup_at(now);
        assert(live_sessions(old(self).sessions(), now) == self.sessions());
        Ok(())
    }
}

/// The cookie that an external service gave each user, kept by user id.
pub struct ExternalSessionStore {
    cookies: TextMap,
}

impl View for ExternalSessionStore {
    type V = Map<Seq<char>, Seq<char>>;

    closed spec fn view(&self) -> Map<Seq<char>, Seq<char>> {
        self.cookies@
    }
}

impl ExternalSessionStore {
    /// An empty store.
    pub fn new() -> (s: ExternalSessionStore)
        ensures
            s@ == Map::<Seq<char>, Seq<char>>::empty(),
    {
        ExternalSessionStore { cookies: TextMap::new() }
    }

    /// Records `cookie` for `user_id`, replacing what was there.
    pub fn set(&mut self, user_id: String, cookie: String)
        ensures
            final(self)@ == old(self)@.insert(user_id@, cookie@),
    {
        self.cookies.set(user_id, cookie);
    }

    /// The cookie recorded for `user_id`.
    pub fn get(&self, user_id: &str) -> (r: Option<String>)
        ensures
            r matches Some(c) ==> self@.contains_key(user_id@) && self@[user_id@] == c@,
            r is None ==> !self@.contains_key(user_id@),
            opt_view(r) == lookup(self@, user_id@),
    {
        self.cookies.get(user_id)
    }

    /// Forgets the cookie of `user_id`.
    pub fn remove(&mut self, user_id: &str)
        ensures
            final(self)@ == old(self)@.remove(user_id@),
    {
        self.cookies.remove(user_id);
    }
}

/// The upstream store gives back what was last set for a user, keeps every other user's
/// cookie as it was, and after a removal has nothing for that user.
pub proof fn law_external_store_read_after_write(
    cookies: Map<Seq<char>, Seq<char>>,
    user: Seq<char>,
    cookie: Seq<char>,
    other: Seq<char>,
)
    requires
        other != user,
    ensures
        cookies.insert(user, cookie).contains_key(user),
        cookies.insert(user, cookie)[user] == cookie,
        cookies.insert(user, cookie).contains_key(other) == cookies.contains_key(other),
        cookies.contains_key(other) ==> cookies.insert(user, cookie)[other] == cookies[other],
        !cookies.remove(user).contains_key(user),
        cookies.remove(user).contains_key(other) == cookies.contains_key(other),
{
}

/// A call that changes an [`ExternalSessionStore`].
pub enum ExternalStoreCall {
    /// `set(user_id, cookie)`.
    Put(Seq<char>, Seq<char>),
    /// `remove(user_id)`.
    Remove(Seq<char>),
}

/// The cookies that `calls`, made in order, leave in a store that held `cookies`, as
/// the contracts of [`ExternalSessionStore::set`] and [`ExternalSessionStore::remove`]
/// state each step.
pub open spec fn after_calls(cookies: Map<Seq<char>, Seq<char>>, calls: Seq<ExternalStoreCall>) -> Map<
    Seq<char>,
    Seq<char>,
>
    decreases calls.len(),
{
    if calls.len() == 0 {
        cookies
    } else {
        let before = after_calls(cookies, calls.drop_last());
        match calls.last() {
            ExternalStoreCall::Put(user, cookie) => before.insert(user, cookie),
            ExternalStoreCall::Remove(user) => before.remove(user),
        }
    }
}

/// The cookie that the last call about `user` set, or nothing when that call removed it
/// or there was none.
pub open spec fn last_cookie(calls: Seq<ExternalStoreCall>, user: Seq<char>) -> Option<Seq<char>>
    decreases calls.len(),
{
    if calls.len() == 0 {
        None
    } else {
        match calls.last() {
            ExternalStoreCall::Put(u, cookie) => if u == user {
                Some(cookie)
            } else {
                last_cookie(calls.drop_last(), user)
            },
            ExternalStoreCall::Remove(u) => if u == user {
                None
            } else {
                last_cookie(calls.drop_last(), user)
            },
        }
    }
}

/// What [`ExternalSessionStore::get`] answers for `user` on a store holding `cookies`.
pub open spec fn lookup(cookies: Map<Seq<char>, Seq<char>>, user: Seq<char>) -> Option<Seq<char>> {
    if cookies.contains_key(user) {
        Some(cookies[user])
    } else {
        None
    }
}

/// After any sequence of `set` and `remove` calls on a new store, `get(user)` gives the
/// cookie of the last `set` for that user with no later `remove` of it, and nothing when
/// there is no such `set`.
pub proof fn law_external_store_last_set_wins(calls: Seq<ExternalStoreCall>, user: Seq<char>)
    ensures
        lookup(after_calls(Map::empty(), calls), user) == last_cookie(calls, user),
    decreases calls.len(),
{
    if calls.len() > 0 {
        law_external_store_last_set_wins(calls.drop_last(), user);
    }
}

/// A single built-in account, `admin` with password `secret`, for development.
pub struct HardcodedUserProvider;

impl UserProvider for HardcodedUserProvider {
    fn authenticate(&self, credentials: &Credentials) -> (r: Result<UserInfo, AuthError>)
        ensures
            (credentials.username@ == "admin"@ && credentials.password@ == "secret"@) == r is Ok,
            r matches Ok(u) ==> u.user_id@ == "admin"@,
            r matches Err(e) ==> e@ == AuthErrorView::InvalidCredentials,
    {
        if credentials.username == owned("admin") && credentials.password == owned("secret") {
            Ok(UserInfo { user_id: owned("admin"), extra: json_string_object("role", "superuser") })
        } else {
            Err(AuthError::InvalidCredentials)
        }
    }

    fn get_user_by_id(&self, user_id: &str) -> (r: Result<Option<UserInfo>, AuthError>)
        ensures
            r is Ok,
            r matches Ok(o) ==> (o is Some == (user_id@ == "admin"@)),
            r matches Ok(Some(u)) ==> u.user_id@ == "admin"@,
    {
        if owned(user_id) == owned("admin") {
            Ok(
                Some(
                    UserInfo { user_id: owned("admin"), extra: json_string_object("role", "superuser") },
                ),
            )
        } else {
            Ok(None)
        }
    }
}

} // verus!
