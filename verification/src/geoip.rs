use crate::cache::{
    country_cache_get, country_cache_insert, country_cache_new, country_entries, CountryCache,
};
use crate::analytics::IpAddress;
use crate::config::Config;
use crate::fingerprint::opt_ip;
use crate::time::utc_now;
use crate::urls::opt_text;
use std::sync::Arc;
use vstd::prelude::*;

verus! {

/// The receiving end of a latest-value channel, `tokio::sync::watch::Receiver`.
#[verifier::external_type_specification]
#[verifier::external_body]
#[verifier::reject_recursive_types(T)]
pub struct ExWatchReceiver<T>(tokio::sync::watch::Receiver<T>);

/// A GeoIP database held in memory: a `maxminddb::Reader` over its bytes.
#[verifier::external_body]
pub struct GeoReader {
    pub reader: maxminddb::Reader<Vec<u8>>,
}

/// One immutable snapshot of the GeoIP database, shared by its readers.
pub type Snapshot = Arc<GeoReader>;

/// Notifies watchers when the GeoIP database is updated.
pub type GeoIpWatchRx = tokio::sync::watch::Receiver<Option<Arc<GeoReader>>>;

/// Cached answers lapse after twenty minutes without use.
pub const CACHE_TTI_SECS: u64 = 1200;

/// Cache up to 100k IP addresses
pub const CACHE_SIZE: u64 = 100000;

/// Check for reader updates every 20 minutes
pub const READER_UPDATE_CHECK_INTERVAL_SECS: u64 = 1200;

/// Whether `maxminddb::Reader::from_source` accepts these bytes as a database.
pub uninterp spec fn is_valid_database(bytes: Seq<u8>) -> bool;

/// What a database holds: the bytes it was opened from.
pub uninterp spec fn database_bytes(db: GeoReader) -> Seq<u8>;

/// Opens a database from a copy of the given bytes with
/// `maxminddb::Reader::from_source`; whether that succeeds depends on the
/// bytes alone, and the database that comes of it holds these bytes.
#[verifier::external_body]
pub(crate) fn open_database(bytes: &Vec<u8>) -> (r: Option<GeoReader>)
    ensures
        r is Some <==> is_valid_database(bytes@),
        r matches Some(db) ==> database_bytes(db) == bytes@,
{
    maxminddb::Reader::from_source(bytes.clone()).ok().map(|reader| GeoReader { reader })
}

/// Another handle on the same snapshot; this is `Arc::clone` of the standard
/// library.
#[verifier::external_body]
pub(crate) fn share_snapshot(snapshot: &Snapshot) -> (r: Snapshot)
    ensures
        r == *snapshot,
{
    Arc::clone(snapshot)
}

/// Whether a snapshot was published that this receiver has not seen yet, by
/// `tokio::sync::watch::Receiver::has_changed`; a closed channel counts as no
/// change. The answer depends on the publisher, so nothing is stated of it.
#[verifier::external_body]
fn watch_has_changed(rx: &GeoIpWatchRx) -> (r: bool) {
    rx.has_changed().unwrap_or(false)
}

/// The snapshot published last, marked as seen, by
/// `tokio::sync::watch::Receiver::borrow_and_update`. It depends on the
/// publisher, so nothing is stated of it.
#[verifier::external_body]
fn watch_take_latest(rx: &mut GeoIpWatchRx) -> (r: Option<Snapshot>) {
    rx.borrow_and_update().clone()
}

/// The snapshot published last, by `tokio::sync::watch::Receiver::borrow`. It
/// depends on the publisher, so nothing is stated of it.
#[verifier::external_body]
fn watch_current(rx: &GeoIpWatchRx) -> (r: Option<Snapshot>) {
    rx.borrow().clone()
}

/// The country code that a database with the given bytes holds for an
/// address, as `maxminddb::Reader::lookup` and the decoding of the record as a
/// `geoip2::Country` give it; none where the database has no record of the
/// address, the record names no country, or the lookup fails.
pub uninterp spec fn country_in_database(bytes: Seq<u8>, ip: IpAddress) -> Option<Seq<char>>;

/// Looks an address up in a snapshot with `maxminddb::Reader::lookup` and
/// decodes what is found as a `geoip2::Country`; the ISO code of its country
/// is the answer. The answer depends on the bytes of the database and the
/// address alone.
#[verifier::external_body]
pub(crate) fn query_country(snapshot: &GeoReader, ip: &IpAddress) -> (r: Option<String>)
    ensures
        opt_text(r) == country_in_database(database_bytes(*snapshot), *ip),
{
    let found = match ip {
        IpAddress::V4 { octets } => snapshot.reader.lookup((*octets).into()),
        IpAddress::V6 { segments } => snapshot.reader.lookup((*segments).into()),
    };
    let country = found.and_then(|result| result.decode::<maxminddb::geoip2::Country>());
    country.ok().flatten().and_then(|c| c.country.iso_code.map(|code| code.to_string()))
}

/// A loopback address: an IPv4 address of the network 127.0.0.0/8, or the
/// IPv6 address `::1`. A text that spells no address is none.
pub open spec fn is_loopback(ip: Option<IpAddress>) -> bool {
    match ip {
        Some(IpAddress::V4 { octets }) => octets[0] == 127,
        Some(IpAddress::V6 { segments }) => {
            &&& segments[0] == 0
            &&& segments[1] == 0
            &&& segments[2] == 0
            &&& segments[3] == 0
            &&& segments[4] == 0
            &&& segments[5] == 0
            &&& segments[6] == 0
            &&& segments[7] == 1
        },
        None => false,
    }
}

/// Whether an address is a loopback address.
pub fn address_is_loopback(ip: Option<&IpAddress>) -> (r: bool)
    ensures
        r == is_loopback(opt_ip(ip)),
{
    match ip {
        Some(IpAddress::V4 { octets }) => octets[0] == 127,
        Some(IpAddress::V6 { segments }) => segments[0] == 0 && segments[1] == 0 && segments[2]
            == 0 && segments[3] == 0 && segments[4] == 0 && segments[5] == 0 && segments[6] == 0
            && segments[7] == 1,
        None => false,
    }
}

/// The bytes of the database behind a snapshot.
pub open spec fn snapshot_bytes(snapshot: Snapshot) -> Seq<u8> {
    database_bytes(*snapshot)
}

/// The country of a client: what the snapshot in force gives for its address;
/// none without a snapshot, and none where the client's text spelled no
/// address.
pub open spec fn answer_of(snapshot: Option<Snapshot>, ip: Option<IpAddress>) -> Option<Seq<char>> {
    match (snapshot, ip) {
        (Some(current), Some(address)) => country_in_database(snapshot_bytes(current), address),
        _ => None,
    }
}

/// The GeoIP resolver: the current snapshot of the database, a cache of
/// answers given from it, and the time of the last check for a newer one.
pub struct GeoIpService {
    geoip_watch_rx: GeoIpWatchRx,
    current_reader: Option<Snapshot>,
    ip_cache: CountryCache,
    last_reader_check: u64,
}

impl GeoIpService {
    /// The snapshot in force.
    pub closed spec fn snapshot(&self) -> Option<Snapshot> {
        self.current_reader
    }

    /// The answers cached, by address. The cache may let go of any.
    pub closed spec fn cached(&self) -> Map<IpAddress, Option<Seq<char>>> {
        country_entries(self.ip_cache)
    }

    /// The time, in seconds, of the last check for a newer snapshot.
    pub closed spec fn last_check(&self) -> u64 {
        self.last_reader_check
    }

    /// Every cached answer is what the snapshot in force gives for its
    /// address; without a snapshot nothing is cached.
    pub open spec fn wf(&self) -> bool {
        forall|address: IpAddress| #[trigger]
            self.cached().dom().contains(address) ==> self.snapshot() is Some
                && self.cached()[address] == answer_of(self.snapshot(), Some(address))
    }

    /// Whether a check for a newer snapshot is due at `now`: not before the
    /// check interval has passed since the last one.
    pub open spec fn check_due(&self, now: u64) -> bool {
        now >= self.last_check() && now - self.last_check()
            >= READER_UPDATE_CHECK_INTERVAL_SECS
    }

    /// The snapshot that a resolver starts with: the one already published, if
    /// any; else the initial database, exactly where geolocation is enabled
    /// and the bytes are those of a database; else none.
    pub open spec fn starts_with(
        config: Config,
        initial_db: Option<Vec<u8>>,
        published: Option<Snapshot>,
        snapshot: Option<Snapshot>,
    ) -> bool {
        match published {
            Some(latest) => snapshot == Some(latest),
            None => if config.enable_geolocation && initial_db is Some && is_valid_database(
                initial_db->0@,
            ) {
                snapshot matches Some(first) && snapshot_bytes(first) == initial_db->0@
            } else {
                snapshot is None
            },
        }
    }

    /// What `lookup_at` does.
    ///
    /// A loopback address is answered "Localhost" and nothing changes. For any
    /// other client the answer is what the snapshot in force after the lookup
    /// gives for its address, whether it comes from the cache or from the
    /// database. The snapshot changes only by a check for a newer one, which
    /// is made only when one is due and the cache has no answer; a newer
    /// snapshot leaves nothing in the cache of what the old one gave.
    pub open spec fn lookup_spec(
        before: GeoIpService,
        ip: Option<IpAddress>,
        now: u64,
        after: GeoIpService,
        country: Option<String>,
    ) -> bool {
        if is_loopback(ip) {
            &&& opt_text(country) == Some("Localhost"@)
            &&& after.snapshot() == before.snapshot()
            &&& after.cached() == before.cached()
            &&& after.last_check() == before.last_check()
        } else {
            let answer = answer_of(after.snapshot(), ip);
            let kept = if after.snapshot() != before.snapshot() {
                Map::<IpAddress, Option<Seq<char>>>::empty()
            } else {
                before.cached()
            };
            &&& opt_text(country) == answer
            &&& {
                ||| after.last_check() == before.last_check() && after.snapshot()
                    == before.snapshot()
                ||| before.check_due(now) && after.last_check() == now
            }
            &&& after.cached().submap_of(
                match ip {
                    Some(address) => kept.insert(address, answer),
                    None => kept,
                },
            )
        }
    }

    /// A resolver that starts at the time `now`, given the snapshot that is
    /// already published on the channel, if any.
    pub fn with_published(
        config: &Config,
        initial_db: Option<Vec<u8>>,
        published: Option<Snapshot>,
        geoip_watch_rx: GeoIpWatchRx,
        now: u64,
    ) -> (service: Self)
        ensures
            service.wf(),
            (service.cached() == Map::<IpAddress, Option<Seq<char>>>::empty()),
            service.last_check() == now,
            Self::starts_with(*config, initial_db, published, service.snapshot()),
    {
        let initial_reader: Option<Snapshot> = if config.enable_geolocation {
            match &initial_db {
                Some(bytes) => match open_database(bytes) {
                    Some(reader) => Some(Arc::new(reader)),
                    None => None,
                },
                None => None,
            }
        } else {
            None
        };
        let reader_to_use = match published {
            Some(snapshot) => Some(snapshot),
            None => initial_reader,
        };
        GeoIpService {
            geoip_watch_rx,
            current_reader: reader_to_use,
            ip_cache: country_cache_new(CACHE_SIZE, CACHE_TTI_SECS),
            last_reader_check: now,
        }
    }

    /// A resolver that starts at the time `now`.
    ///
    /// Its first snapshot is the one already published on the channel, if
    /// any; else, with geolocation enabled, the database in `initial_db` (the
    /// bytes of the database file, where there is one), if it can be opened;
    /// else none.
    pub fn new(config: &Config, initial_db: Option<Vec<u8>>, geoip_watch_rx: GeoIpWatchRx, now: u64) -> (service:
        Self)
        ensures
            service.wf(),
            (service.cached() == Map::<IpAddress, Option<Seq<char>>>::empty()),
            service.last_check() == now,
            exists|published: Option<Snapshot>| #[trigger]
                Self::starts_with(*config, initial_db, published, service.snapshot()),
    {
        let published = watch_current(&geoip_watch_rx);
        let ghost seen = published;
        let service = Self::with_published(config, initial_db, published, geoip_watch_rx, now);
        assert(Self::starts_with(*config, initial_db, seen, service.snapshot()));
        service
    }

    /// Puts `snapshot` in force and a new, empty cache in the place of the
    /// old one: no answer given from an earlier snapshot is handed out any
    /// more.
    pub fn install_snapshot(&mut self, snapshot: Option<Snapshot>)
        ensures
            final(self).wf(),
            final(self).snapshot() == snapshot,
            (final(self).cached() == Map::<IpAddress, Option<Seq<char>>>::empty()),
            final(self).last_check() == old(self).last_check(),
    {
        self.current_reader = snapshot;
        self.ip_cache = country_cache_new(CACHE_SIZE, CACHE_TTI_SECS);
    }

    /// Ends a check that was due at `now`, given what the channel said:
    /// `Some(latest)` where it holds a snapshot that this resolver has not
    /// seen, else `None`. A snapshot not seen before is put in force and the
    /// cache emptied; else all stays as it was.
    pub fn apply_check(&mut self, now: u64, published: Option<Option<Snapshot>>)
        requires
            old(self).wf(),
            old(self).check_due(now),
        ensures
            final(self).wf(),
            final(self).last_check() == now,
            match published {
                Some(latest) => final(self).snapshot() == latest && final(self).cached() == Map::<
                    IpAddress,
                    Option<Seq<char>>,
                >::empty(),
                None => final(self).snapshot() == old(self).snapshot()
                    && final(self).cached() == old(self).cached(),
            },
    {
        self.last_reader_check = now;
        match published {
            Some(latest) => {
                self.install_snapshot(latest);
            },
            None => {},
        }
    }

    /// Checks for a newer snapshot if a check is due at `now`, and puts it in
    /// force if there is one.
    fn update_reader_if_changed(&mut self, now: u64)
        requires
            old(self).wf(),
        ensures
            final(self).wf(),
            final(self).cached().submap_of(old(self).cached()),
            old(self).check_due(now) ==> final(self).last_check() == now,
            !old(self).check_due(now) ==> final(self).last_check() == old(self).last_check()
                && final(self).snapshot() == old(self).snapshot(),
            final(self).snapshot() != old(self).snapshot() ==> final(self).cached() == Map::<
                IpAddress,
                Option<Seq<char>>,
            >::empty(),
    {
        let gone: u64 = if now >= self.last_reader_check {
            now - self.last_reader_check
        } else {
            0
        };
        if gone < READER_UPDATE_CHECK_INTERVAL_SECS {
            return ;
        }
        let published = if watch_has_changed(&self.geoip_watch_rx) {
            Some(watch_take_latest(&mut self.geoip_watch_rx))
        } else {
            None
        };
        self.apply_check(now, published);
    }

    /// Looks up the country of a client at the time `now` (in seconds), by
    /// the address that the client's text spells, if it spells one.
    pub fn lookup_at(&mut self, ip: Option<&IpAddress>, now: u64) -> (country: Option<String>)
        requires
            old(self).wf(),
        ensures
            final(self).wf(),
            Self::lookup_spec(*old(self), opt_ip(ip), now, *final(self), country),
    {
        if address_is_loopback(ip) {
            return Some("Localhost".to_owned());
        }
        let address: &IpAddress = match ip {
            Some(address) => address,
            None => {
                self.update_reader_if_changed(now);
                return None;
            },
        };
        let ghost before = self.cached();
        let cached = country_cache_get(&mut self.ip_cache, address);
        let ghost held = self.cached();
        proof {
            assert forall|a: IpAddress| #[trigger] held.dom().contains(a) implies before.dom().contains(
                a,
            ) && held[a] == before[a] by {}
            assert(self.wf());
        }
        match cached {
            Some(cached_result) => {
                proof {
                    assert(before.dom().contains(*address));
                    let answer = answer_of(self.snapshot(), Some(*address));
                    assert forall|a: IpAddress| #[trigger] held.dom().contains(a) implies before.insert(
                        *address,
                        answer,
                    ).dom().contains(a) && held[a] == before.insert(*address, answer)[a] by {
                        assert(before.dom().contains(a));
                    }
                }
                return cached_result;
            },
            None => {},
        }
        self.update_reader_if_changed(now);
        let ghost checked = self.cached();
        proof {
            assert forall|a: IpAddress| #[trigger] checked.dom().contains(a) implies before.dom().contains(
                a,
            ) && checked[a] == before[a] by {
                assert(held.dom().contains(a));
            }
        }
        let snapshot: Snapshot = match &self.current_reader {
            Some(snapshot) => share_snapshot(snapshot),
            None => {
                return None;
            },
        };
        let country: Option<String> = query_country(&snapshot, address);
        country_cache_insert(&mut self.ip_cache, *address, country.clone());
        proof {
            let answer = answer_of(self.snapshot(), Some(*address));
            let kept = if self.snapshot() != old(self).snapshot() {
                Map::<IpAddress, Option<Seq<char>>>::empty()
            } else {
                before
            };
            assert(opt_text(country) == answer);
            assert forall|a: IpAddress| #[trigger] self.cached().dom().contains(a) implies kept.insert(
                *address,
                answer,
            ).dom().contains(a) && self.cached()[a] == kept.insert(*address, answer)[a]
                && self.cached()[a] == answer_of(self.snapshot(), Some(a)) by {
                assert(checked.insert(*address, answer).dom().contains(a));
                if a != *address {
                    assert(checked.dom().contains(a));
                }
            }
        }
        country
    }

    /// Looks up the country of a client at the present time.
    pub fn lookup_country_code(&mut self, ip: Option<&IpAddress>) -> (country: Option<String>)
        requires
            old(self).wf(),
        ensures
            final(self).wf(),
            exists|now: u64| #[trigger]
                Self::lookup_spec(*old(self), opt_ip(ip), now, *final(self), country),
    {
        let now = utc_now();
        let now_secs: u64 = if now.secs < 0 {
            0
        } else {
            now.secs as u64
        };
        let country = self.lookup_at(ip, now_secs);
        assert(Self::lookup_spec(*old(self), opt_ip(ip), now_secs, *self, country));
        country
    }
}

/// Every loopback address is answered "Localhost" whatever the state of the
/// resolver, and the lookup leaves the resolver as it was.
pub proof fn law_loopback_is_localhost(
    before: GeoIpService,
    ip: Option<IpAddress>,
    now: u64,
    after: GeoIpService,
    country: Option<String>,
)
    requires
        GeoIpService::lookup_spec(before, ip, now, after, country),
        is_loopback(ip),
    ensures
        opt_text(country) == Some("Localhost"@),
        after.snapshot() == before.snapshot(),
        after.cached() == before.cached(),
        after.last_check() == before.last_check(),
{
}

/// A lookup during which the snapshot changes is answered from the new
/// snapshot, and nothing that was cached under the old one is left: the cache
/// holds the new answer at most.
pub proof fn law_swap_answers_from_new_snapshot(
    before: GeoIpService,
    ip: Option<IpAddress>,
    now: u64,
    after: GeoIpService,
    country: Option<String>,
)
    requires
        GeoIpService::lookup_spec(before, ip, now, after, country),
        after.snapshot() != before.snapshot(),
    ensures
        opt_text(country) == answer_of(after.snapshot(), ip),
        forall|address: IpAddress| #[trigger]
            after.cached().dom().contains(address) ==> Some(address) == ip
                && after.cached()[address] == answer_of(after.snapshot(), ip),
{
    assert forall|address: IpAddress| #[trigger]
        after.cached().dom().contains(address) implies Some(address) == ip
        && after.cached()[address] == answer_of(after.snapshot(), ip) by {
        let none = Map::<IpAddress, Option<Seq<char>>>::empty();
        match ip {
            Some(a) => {
                assert(none.insert(a, answer_of(after.snapshot(), ip)).dom().contains(address));
            },
            None => {
                assert(none.dom().contains(address));
            },
        }
    }
}

/// The cache does not change an answer: with the same snapshot in force,
/// every client of one address is given the same country, whether the answer
/// was cached or not.
pub proof fn law_cache_is_transparent(
    first: GeoIpService,
    second: GeoIpService,
    ip: Option<IpAddress>,
    now1: u64,
    now2: u64,
    after1: GeoIpService,
    after2: GeoIpService,
    country1: Option<String>,
    country2: Option<String>,
)
    requires
        GeoIpService::lookup_spec(first, ip, now1, after1, country1),
        GeoIpService::lookup_spec(second, ip, now2, after2, country2),
        after1.snapshot() == after2.snapshot(),
    ensures
        opt_text(country1) == opt_text(country2),
{
}

} // verus!
