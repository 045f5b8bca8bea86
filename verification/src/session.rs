use crate::cache::{
    session_cache_get, session_cache_insert, session_cache_new, session_entries, SessionCache,
};
use crate::time::utc_now;
use vstd::prelude::*;
use vstd::string::*;

verus! {

/// Sessions expire after 30 minutes of inactivity.
pub const SESSION_EXPIRY_SECS: u64 = 1800;

/// The length of a session identifier.
pub const SESSION_ID_LENGTH: usize = 16;

/// Why no session could be had for an event.
#[derive(Debug, Clone, Copy, PartialEq, Eq, Structural)]
pub enum SessionError {
    /// The store could not be reached.
    Unavailable,
}

/// A character of the URL-safe alphabet: a letter, a digit, `_` or `-`.
pub open spec fn is_id_char(c: char) -> bool {
    ||| 'a' <= c <= 'z'
    ||| 'A' <= c <= 'Z'
    ||| '0' <= c <= '9'
    ||| c == '_'
    ||| c == '-'
}

/// A random identifier of `size` characters, by `nanoid::format` with the
/// crate's default random source and its URL-safe alphabet (what the macro
/// `nanoid!` expands to). Only length and alphabet are stated: the characters
/// are random.
#[verifier::external_body]
pub(crate) fn random_id(size: usize) -> (id: String)
    requires
        0 < size <= 1024,
    ensures
        id@.len() == size,
        forall|i: int| 0 <= i < id@.len() ==> is_id_char(#[trigger] id@[i]),
{
    nanoid::format(nanoid::rngs::default, &nanoid::alphabet::SAFE, size)
}

/// A text that a new session identifier can be: sixteen characters of the
/// URL-safe alphabet.
pub open spec fn is_session_id(id: Seq<char>) -> bool {
    &&& id.len() == SESSION_ID_LENGTH
    &&& forall|i: int| 0 <= i < id.len() ==> is_id_char(#[trigger] id[i])
}

/// Generate a new session ID
pub fn generate_session_id() -> (id: String)
    ensures
        is_session_id(id@),
{
    random_id(SESSION_ID_LENGTH)
}

/// The key under which the session of a visitor on a site is kept: the pair
/// of the two.
pub open spec fn session_key(site_id: Seq<char>, visitor_fingerprint: Seq<char>) -> (
    Seq<char>,
    Seq<char>,
) {
    (site_id, visitor_fingerprint)
}

/// The seconds from `last_seen` to `now`; none where `now` lies before.
pub open spec fn idle_secs(last_seen: u64, now: u64) -> nat {
    if now >= last_seen {
        (now - last_seen) as nat
    } else {
        0
    }
}

/// The session of an event at `now`: that of the record found, where one was
/// found and it was seen less than the inactivity window ago; else the fresh
/// one.
pub open spec fn resolved_id(found: Option<(Seq<char>, u64)>, now: u64, fresh: Seq<char>) -> Seq<
    char,
> {
    match found {
        Some(record) => if idle_secs(record.1, now) < SESSION_EXPIRY_SECS {
            record.0
        } else {
            fresh
        },
        None => fresh,
    }
}

/// The record as a pair of texts and numbers.
pub open spec fn record_view(found: Option<(String, u64)>) -> Option<(Seq<char>, u64)> {
    match found {
        Some(record) => Some((record.0@, record.1)),
        None => None,
    }
}

/// Decides the session of an event at `now`, given the record found for its
/// visitor and a fresh identifier to use where a new session begins.
pub fn resolve_session(found: Option<(String, u64)>, now: u64, fresh: String) -> (id: String)
    ensures
        id@ == resolved_id(record_view(found), now, fresh@),
{
    match found {
        Some(record) => {
            let idle: u64 = if now >= record.1 {
                now - record.1
            } else {
                0
            };
            if idle < SESSION_EXPIRY_SECS {
                record.0
            } else {
                fresh
            }
        },
        None => fresh,
    }
}

/// The store of sessions: for each visitor of each site, the identifier of the
/// session and when it was last seen.
pub struct SessionStore {
    cache: SessionCache,
}

impl SessionStore {
    /// The records held, by session key. The store may let go of a record
    /// that has not been used for the length of the inactivity window.
    pub closed spec fn records(&self) -> Map<(Seq<char>, Seq<char>), (Seq<char>, u64)> {
        session_entries(self.cache)
    }

    /// What `get_or_create_at` does: the identifier handed out and the store
    /// afterwards. The identifier is the fresh one, or the one on record where
    /// that record is still live; the record then holds that identifier and
    /// the time `now`.
    pub open spec fn step_spec(
        before: SessionStore,
        key: (Seq<char>, Seq<char>),
        now: u64,
        fresh: Seq<char>,
        after: SessionStore,
        id: Seq<char>,
    ) -> bool {
        &&& id == fresh || (before.records().contains_key(key) && id == resolved_id(
            Some(before.records()[key]),
            now,
            fresh,
        ))
        &&& after.records().submap_of(before.records().insert(key, (id, now)))
    }

    /// What `get_or_create_session_id` does: a step of the store at some
    /// time, with some newly made session identifier as the fresh one. So the
    /// identifier handed out is one on record that is still live, or a newly
    /// made one.
    pub open spec fn found_or_minted(
        before: SessionStore,
        key: (Seq<char>, Seq<char>),
        after: SessionStore,
        id: Seq<char>,
    ) -> bool {
        exists|now: u64, fresh: Seq<char>|
            is_session_id(fresh) && #[trigger] Self::step_spec(before, key, now, fresh, after, id)
    }

    /// An empty store.
    pub fn new() -> (store: Self)
        ensures
            (store.records() == Map::<(Seq<char>, Seq<char>), (Seq<char>, u64)>::empty()),
    {
        SessionStore { cache: session_cache_new(SESSION_EXPIRY_SECS) }
    }

    /// The session of a visitor at the time `now` (in seconds): the one on
    /// record, renewed, where there is one that was seen less than the
    /// inactivity window ago; else a new one under the identifier `fresh_id`.
    pub fn get_or_create_at(
        &mut self,
        site_id: &str,
        visitor_fingerprint: &str,
        now: u64,
        fresh_id: String,
    ) -> (id: String)
        ensures
            Self::step_spec(
                *old(self),
                session_key(site_id@, visitor_fingerprint@),
                now,
                fresh_id@,
                *final(self),
                id@,
            ),
    {
        let ghost key = session_key(site_id@, visitor_fingerprint@);
        let found = session_cache_get(&mut self.cache, site_id, visitor_fingerprint);
        let ghost held = self.records();
        let id = resolve_session(found, now, fresh_id);
        session_cache_insert(
            &mut self.cache,
            site_id.to_owned(),
            visitor_fingerprint.to_owned(),
            id.clone(),
            now,
        );
        proof {
            let before = old(self).records();
            let wanted = before.insert(key, (id@, now));
            assert forall|k: (Seq<char>, Seq<char>)| #[trigger]
                self.records().dom().contains(k) implies wanted.dom().contains(k)
                && self.records()[k] == wanted[k] by {
                assert(held.insert(key, (id@, now)).dom().contains(k));
                if k != key {
                    assert(held.dom().contains(k));
                    assert(before.dom().contains(k));
                }
            }
        }
        id
    }
}

/// Get or create a session ID for a visitor, at the present time and with a
/// newly generated identifier for a new session.
pub fn get_or_create_session_id(
    store: &mut SessionStore,
    site_id: &str,
    visitor_fingerprint: &str,
) -> (r: Result<String, SessionError>)
    ensures
        r is Ok,
        SessionStore::found_or_minted(
            *old(store),
            session_key(site_id@, visitor_fingerprint@),
            *final(store),
            r->Ok_0@,
        ),
{
    let now = utc_now();
    let now_secs: u64 = if now.secs < 0 {
        0
    } else {
        now.secs as u64
    };
    let fresh = generate_session_id();
    let ghost fresh_text = fresh@;
    let id = store.get_or_create_at(site_id, visitor_fingerprint, now_secs, fresh);
    let r: Result<String, SessionError> = Ok(id);
    assert(SessionStore::step_spec(
        *old(store),
        session_key(site_id@, visitor_fingerprint@),
        now_secs,
        fresh_text,
        *store,
        r->Ok_0@,
    ));
    r
}

/// The identifier that `get_or_create_session_id` hands out is a newly made
/// one, sixteen characters of the URL-safe alphabet, or the one that was on
/// record for the visitor.
pub proof fn law_session_id_is_minted_or_on_record(
    before: SessionStore,
    key: (Seq<char>, Seq<char>),
    after: SessionStore,
    id: Seq<char>,
)
    requires
        SessionStore::found_or_minted(before, key, after, id),
    ensures
        is_session_id(id) || (before.records().contains_key(key) && before.records()[key].0 == id),
        after.records().contains_key(key) ==> after.records()[key].0 == id,
{
    let (now, fresh) = choose|now: u64, fresh: Seq<char>|
        is_session_id(fresh) && #[trigger] SessionStore::step_spec(
            before,
            key,
            now,
            fresh,
            after,
            id,
        );
    if after.records().contains_key(key) {
        assert(before.records().insert(key, (id, now)).dom().contains(key));
    }
}

/// A visitor's second event within the inactivity window is given the session
/// of the first, unless the store has let go of the record in between, in
/// which case the second event begins a new session. A second event after the
/// window always begins a new session.
pub proof fn law_session_window(
    s0: SessionStore,
    s1: SessionStore,
    s2: SessionStore,
    key: (Seq<char>, Seq<char>),
    first_time: u64,
    first_fresh: Seq<char>,
    first_id: Seq<char>,
    second_time: u64,
    second_fresh: Seq<char>,
    second_id: Seq<char>,
)
    requires
        SessionStore::step_spec(s0, key, first_time, first_fresh, s1, first_id),
        SessionStore::step_spec(s1, key, second_time, second_fresh, s2, second_id),
        first_time <= second_time,
    ensures
        second_time - first_time < SESSION_EXPIRY_SECS ==> second_id == first_id || second_id
            == second_fresh,
        second_time - first_time >= SESSION_EXPIRY_SECS ==> second_id == second_fresh,
{
    if second_id != second_fresh {
        assert(s1.records().dom().contains(key));
        assert(s0.records().insert(key, (first_id, first_time)).dom().contains(key));
        assert(s1.records()[key] == (first_id, first_time));
    }
}

/// Records are kept by the pair of site and visitor: two pairs that differ in
/// the site or in the visitor have different keys, so they never share a
/// record.
pub proof fn law_session_key_tells_pairs_apart(
    site1: Seq<char>,
    visitor1: Seq<char>,
    site2: Seq<char>,
    visitor2: Seq<char>,
)
    requires
        session_key(site1, visitor1) == session_key(site2, visitor2),
    ensures
        site1 == site2,
        visitor1 == visitor2,
{
}

/// A visitor's event leaves the records of all other visitors and sites as
/// they were, or lets go of them: none of them is changed or made.
pub proof fn law_other_records_untouched(
    before: SessionStore,
    key: (Seq<char>, Seq<char>),
    now: u64,
    fresh: Seq<char>,
    after: SessionStore,
    id: Seq<char>,
    other: (Seq<char>, Seq<char>),
)
    requires
        SessionStore::step_spec(before, key, now, fresh, after, id),
        other != key,
        after.records().contains_key(other),
    ensures
        before.records().contains_key(other),
        after.records()[other] == before.records()[other],
{
    assert(before.records().insert(key, (id, now)).dom().contains(other));
}

/// A record that is found is honoured exactly within the window: seen less
/// than the window ago, its identifier stays; seen longer ago, the fresh
/// identifier takes its place.
pub proof fn law_session_policy(id: Seq<char>, last_seen: u64, now: u64, fresh: Seq<char>)
    requires
        last_seen <= now,
    ensures
        now - last_seen < SESSION_EXPIRY_SECS ==> resolved_id(Some((id, last_seen)), now, fresh)
            == id,
        now - last_seen >= SESSION_EXPIRY_SECS ==> resolved_id(Some((id, last_seen)), now, fresh)
            == fresh,
{
}

} // verus!
