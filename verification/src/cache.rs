use crate::analytics::IpAddress;
use crate::urls::opt_text;
use vstd::prelude::*;

verus! {

/// The concurrent cache of the `moka` crate, `moka::sync::Cache`. Nothing is
/// known of a value of it but what the wrappers below state.
#[verifier::external_type_specification]
#[verifier::external_body]
#[verifier::reject_recursive_types(K)]
#[verifier::reject_recursive_types(V)]
#[verifier::reject_recursive_types(S)]
pub struct ExMokaCache<K, V, S>(moka::sync::Cache<K, V, S>);

/// The cache of sessions: by site and visitor fingerprint, a session
/// identifier and the time it was last seen.
pub type SessionCache = moka::sync::Cache<(String, String), (String, u64)>;

/// The cache of country lookups: by address, the country code found or the
/// absence of one.
pub type CountryCache = moka::sync::Cache<IpAddress, Option<String>>;

/// The cache of parsed user agents: by user agent text, browser family, major
/// version and OS family.
pub type AgentCache = moka::sync::Cache<String, (String, Option<String>, String)>;

/// The longest lifetime that a cache is built with here, in seconds: a
/// hundred years. (The builder refuses lifetimes over a thousand years.)
pub const MAX_LIFETIME_SECS: u64 = 3_153_600_000;

// A cache may let go of an entry at any time (its lifetime is over, or room is
// needed), so what a cache holds is stated from above: after a call it holds
// no more than the contract allows, and what `get` hands out it did hold.

/// What a session cache holds.
pub uninterp spec fn session_entries(cache: SessionCache) -> Map<
    (Seq<char>, Seq<char>),
    (Seq<char>, u64),
>;

/// What a country cache holds.
pub uninterp spec fn country_entries(cache: CountryCache) -> Map<IpAddress, Option<Seq<char>>>;

/// What a user agent cache holds.
pub uninterp spec fn agent_entries(cache: AgentCache) -> Map<
    Seq<char>,
    (Seq<char>, Option<Seq<char>>, Seq<char>),
>;

/// An empty session cache whose entries lapse after `idle_secs` seconds
/// without a `get` or `insert`; built by `moka::sync::Cache::builder()`.
#[verifier::external_body]
pub(crate) fn session_cache_new(idle_secs: u64) -> (cache: SessionCache)
    requires
        idle_secs <= MAX_LIFETIME_SECS,
    ensures
        (session_entries(cache) == Map::<(Seq<char>, Seq<char>), (Seq<char>, u64)>::empty()),
{
    moka::sync::Cache::builder().time_to_idle(std::time::Duration::from_secs(idle_secs)).build()
}

/// `moka::sync::Cache::get`: what comes back was held under that key, the
/// pair of site and fingerprint.
#[verifier::external_body]
pub(crate) fn session_cache_get(cache: &mut SessionCache, site: &str, visitor: &str) -> (r: Option<
    (String, u64),
>)
    ensures
        session_entries(*final(cache)).submap_of(session_entries(*old(cache))),
        r matches Some(v) ==> session_entries(*old(cache)).contains_key((site@, visitor@))
            && session_entries(*old(cache))[(site@, visitor@)] == (v.0@, v.1),
{
    cache.get(&(site.to_owned(), visitor.to_owned()))
}

/// `moka::sync::Cache::insert`: the value takes the place of what was held
/// under that key, the pair of site and fingerprint.
#[verifier::external_body]
pub(crate) fn session_cache_insert(
    cache: &mut SessionCache,
    site: String,
    visitor: String,
    id: String,
    seen: u64,
)
    ensures
        session_entries(*final(cache)).submap_of(
            session_entries(*old(cache)).insert((site@, visitor@), (id@, seen)),
        ),
{
    cache.insert((site, visitor), (id, seen));
}

/// An empty country cache for at most `capacity` entries, which lapse after
/// `idle_secs` seconds without a `get` or `insert`; built by
/// `moka::sync::Cache::builder()`.
#[verifier::external_body]
pub(crate) fn country_cache_new(capacity: u64, idle_secs: u64) -> (cache: CountryCache)
    requires
        idle_secs <= MAX_LIFETIME_SECS,
    ensures
        (country_entries(cache) == Map::<IpAddress, Option<Seq<char>>>::empty()),
{
    moka::sync::Cache::builder().max_capacity(capacity).time_to_idle(
        std::time::Duration::from_secs(idle_secs),
    ).build()
}

/// `moka::sync::Cache::get`: what comes back was held under that key.
#[verifier::external_body]
pub(crate) fn country_cache_get(cache: &mut CountryCache, key: &IpAddress) -> (r: Option<
    Option<String>,
>)
    ensures
        country_entries(*final(cache)).submap_of(country_entries(*old(cache))),
        r matches Some(v) ==> country_entries(*old(cache)).contains_key(*key) && country_entries(
            *old(cache),
        )[*key] == opt_text(v),
{
    cache.get(key)
}

/// `moka::sync::Cache::insert`: the value takes the place of what was held
/// under that key.
#[verifier::external_body]
pub(crate) fn country_cache_insert(cache: &mut CountryCache, key: IpAddress, value: Option<String>)
    ensures
        country_entries(*final(cache)).submap_of(
            country_entries(*old(cache)).insert(key, opt_text(value)),
        ),
{
    cache.insert(key, value);
}

/// An empty user agent cache for at most `capacity` entries, which lapse
/// `live_secs` seconds after their `insert`; built by
/// `moka::sync::Cache::builder()`.
#[verifier::external_body]
pub(crate) fn agent_cache_new(capacity: u64, live_secs: u64) -> (cache: AgentCache)
    requires
        live_secs <= MAX_LIFETIME_SECS,
    ensures
        (agent_entries(cache) == Map::<Seq<char>, (Seq<char>, Option<Seq<char>>, Seq<char>)>::empty()),
{
    moka::sync::Cache::builder().max_capacity(capacity).time_to_live(
        std::time::Duration::from_secs(live_secs),
    ).build()
}

/// `moka::sync::Cache::get`: what comes back was held under that key.
#[verifier::external_body]
pub(crate) fn agent_cache_get(cache: &mut AgentCache, key: &str) -> (r: Option<
    (String, Option<String>, String),
>)
    ensures
        agent_entries(*final(cache)).submap_of(agent_entries(*old(cache))),
        r matches Some(v) ==> agent_entries(*old(cache)).contains_key(key@) && agent_entries(
            *old(cache),
        )[key@] == (v.0@, opt_text(v.1), v.2@),
{
    cache.get(key)
}

/// `moka::sync::Cache::insert`: the value takes the place of what was held
/// under that key.
#[verifier::external_body]
pub(crate) fn agent_cache_insert(
    cache: &mut AgentCache,
    key: String,
    browser: String,
    version: Option<String>,
    os: String,
)
    ensures
        agent_entries(*final(cache)).submap_of(
            agent_entries(*old(cache)).insert(key@, (browser@, opt_text(version), os@)),
        ),
{
    cache.insert(key, (browser, version, os));
}

} // verus!
