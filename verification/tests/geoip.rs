use betterlytics::analytics::IpAddress;
use betterlytics::config::Config;
use betterlytics::geoip::{
    address_is_loopback, GeoIpService, GeoReader, Snapshot, CACHE_SIZE, CACHE_TTI_SECS,
    READER_UPDATE_CHECK_INTERVAL_SECS,
};
use betterlytics::geoip_updater::{
    extract_mmdb_from_archive, is_update_needed, prepare_update, GeoIpUpdater, HeadResponse,
    HeaderValue, LocalFile, UpdateError, UpdaterAction, UpdaterEvent, GEOIP_DATABASE_URL,
};
use std::io::Write;

fn config(enabled: bool, credentials: bool) -> Config {
    Config {
        server_port: 3000,
        server_host: "127.0.0.1".to_string(),
        log_level: "info".to_string(),
        clickhouse_url: "http://localhost:8123".to_string(),
        clickhouse_user: "default".to_string(),
        clickhouse_password: "password".to_string(),
        enable_geolocation: enabled,
        maxmind_account_id: if credentials { Some("account".to_string()) } else { None },
        maxmind_license_key: if credentials { Some("key".to_string()) } else { None },
        geoip_db_path: "assets/geoip/GeoLite2-Country.mmdb".to_string(),
        geoip_update_interval: 24 * 60 * 60,
        referrer_db_path: String::new(),
        ua_regexes_path: String::new(),
        data_retention_days: 365,
        enable_billing: false,
        enable_monitoring: false,
    }
}

fn text(out: &mut Vec<u8>, value: &str) {
    out.push(0x40 | value.len() as u8);
    out.extend_from_slice(value.as_bytes());
}

/// The bytes of a database of one node: every IPv4 address whose first bit is
/// 0 lies in the country `code`, and no other address is known.
fn database_of(code: &str) -> Vec<u8> {
    let mut out: Vec<u8> = vec![0, 0, 17, 0, 0, 1];
    out.extend_from_slice(&[0u8; 16]);
    out.push(0xe1);
    text(&mut out, "country");
    out.push(0xe1);
    text(&mut out, "iso_code");
    text(&mut out, code);
    out.extend_from_slice(b"\xab\xcd\xefMaxMind.com");
    out.push(0xe9);
    text(&mut out, "binary_format_major_version");
    out.extend_from_slice(&[0xa1, 2]);
    text(&mut out, "binary_format_minor_version");
    out.extend_from_slice(&[0xa0]);
    text(&mut out, "build_epoch");
    out.extend_from_slice(&[0x04, 0x02, 0x65, 0x53, 0xf1, 0x00]);
    text(&mut out, "database_type");
    text(&mut out, "Test");
    text(&mut out, "description");
    out.push(0xe0);
    text(&mut out, "ip_version");
    out.extend_from_slice(&[0xa1, 4]);
    text(&mut out, "languages");
    out.extend_from_slice(&[0x00, 0x04]);
    text(&mut out, "node_count");
    out.extend_from_slice(&[0xc1, 1]);
    text(&mut out, "record_size");
    out.extend_from_slice(&[0xa1, 24]);
    out
}

fn archive(files: &[(&str, &[u8])]) -> Vec<u8> {
    let encoder = flate2::write::GzEncoder::new(Vec::new(), flate2::Compression::default());
    let mut builder = tar::Builder::new(encoder);
    for (path, data) in files {
        let mut header = tar::Header::new_gnu();
        header.set_size(data.len() as u64);
        header.set_mode(0o644);
        header.set_cksum();
        builder.append_data(&mut header, path, *data).unwrap();
    }
    let mut encoder = builder.into_inner().unwrap();
    encoder.flush().unwrap();
    encoder.finish().unwrap()
}

fn head(status: u16, last_modified: HeaderValue) -> HeadResponse {
    HeadResponse { status, last_modified }
}

fn date(value: &str) -> HeaderValue {
    HeaderValue::Text(value.to_string())
}

fn tiny_database() -> Vec<u8> {
    database_of("SE")
}

fn snapshot_of(code: &str) -> Snapshot {
    let reader = maxminddb::Reader::from_source(database_of(code)).unwrap();
    std::sync::Arc::new(GeoReader { reader })
}

fn v4(a: u8, b: u8, c: u8, d: u8) -> IpAddress {
    IpAddress::V4 { octets: [a, b, c, d] }
}

fn low() -> IpAddress {
    v4(100, 1, 2, 3)
}

fn high() -> IpAddress {
    v4(203, 0, 113, 45)
}

fn service(now: u64) -> (GeoIpService, GeoIpUpdater) {
    let config = config(true, true);
    let (updater, rx) = GeoIpUpdater::new(&config);
    (GeoIpService::new(&config, None, rx, now), updater)
}

fn publish(updater: &mut GeoIpUpdater) {
    let body = archive(&[("GeoLite2-Country_20240101/GeoLite2-Country.mmdb", &tiny_database())]);
    assert!(matches!(updater.step(UpdaterEvent::Tick), UpdaterAction::CheckRemote));
    let checked = UpdaterEvent::Checked {
        head: head(200, date("Wed, 21 Oct 2015 07:28:00 GMT")),
        local: LocalFile::Missing,
    };
    assert!(matches!(updater.step(checked), UpdaterAction::Download));
    assert!(matches!(updater.step(UpdaterEvent::Downloaded { body }), UpdaterAction::ReplaceFile { .. }));
    assert!(matches!(
        updater.step(UpdaterEvent::FileReplaced { ok: true }),
        UpdaterAction::Published { delivered: true }
    ));
}

#[test]
fn resolver_constants() {
    assert_eq!(CACHE_TTI_SECS, 1200);
    assert_eq!(CACHE_SIZE, 100_000);
    assert_eq!(READER_UPDATE_CHECK_INTERVAL_SECS, 1200);
    assert_eq!(
        GEOIP_DATABASE_URL,
        "https://download.maxmind.com/geoip/databases/GeoLite2-Country/download?suffix=tar.gz"
    );
}

#[test]
fn loopback_addresses() {
    assert!(address_is_loopback(Some(&v4(127, 0, 0, 1))));
    assert!(address_is_loopback(Some(&v4(127, 0, 0, 2))));
    assert!(address_is_loopback(Some(&v4(127, 255, 255, 255))));
    assert!(address_is_loopback(Some(&IpAddress::V6 { segments: [0, 0, 0, 0, 0, 0, 0, 1] })));
    assert!(!address_is_loopback(Some(&v4(126, 0, 0, 1))));
    assert!(!address_is_loopback(Some(&v4(128, 0, 0, 1))));
    assert!(!address_is_loopback(Some(&v4(1, 127, 0, 0))));
    assert!(!address_is_loopback(Some(&IpAddress::V6 { segments: [0, 0, 0, 0, 0, 0, 0, 2] })));
    assert!(!address_is_loopback(Some(&IpAddress::V6 { segments: [1, 0, 0, 0, 0, 0, 0, 1] })));
    assert!(!address_is_loopback(Some(&IpAddress::V6 { segments: [0, 0, 0, 0, 0, 0xffff, 0x7f00, 1] })));
    assert!(!address_is_loopback(None));
}

#[test]
fn loopback_is_localhost_without_a_database() {
    let (mut service, _updater) = service(0);
    let v6 = IpAddress::V6 { segments: [0, 0, 0, 0, 0, 0, 0, 1] };
    assert_eq!(service.lookup_at(Some(&v4(127, 0, 0, 1)), 10).as_deref(), Some("Localhost"));
    assert_eq!(service.lookup_at(Some(&v6), 10).as_deref(), Some("Localhost"));
}

#[test]
fn loopback_is_localhost_with_a_database_and_a_cache() {
    let (mut service, mut updater) = service(0);
    publish(&mut updater);
    assert_eq!(service.lookup_at(Some(&low()), 5_000).as_deref(), Some("SE"));
    // The database knows 127.0.0.1 as an address in SE; the resolver does not ask it.
    let v6 = IpAddress::V6 { segments: [0, 0, 0, 0, 0, 0, 0, 1] };
    assert_eq!(service.lookup_at(Some(&v4(127, 0, 0, 1)), 5_001).as_deref(), Some("Localhost"));
    assert_eq!(service.lookup_at(Some(&v6), 5_001).as_deref(), Some("Localhost"));
    assert_eq!(
        service.lookup_country_code(Some(&v4(127, 0, 0, 1))).as_deref(),
        Some("Localhost")
    );
}

#[test]
fn every_loopback_spelling_is_localhost() {
    let (mut service, mut updater) = service(0);
    publish(&mut updater);
    let v6 = IpAddress::V6 { segments: [0, 0, 0, 0, 0, 0, 0, 1] };
    assert_eq!(service.lookup_at(Some(&v4(127, 0, 0, 2)), 5_000).as_deref(), Some("Localhost"));
    assert_eq!(service.lookup_at(Some(&v4(127, 255, 0, 9)), 5_000).as_deref(), Some("Localhost"));
    assert_eq!(service.lookup_at(Some(&v6), 5_000).as_deref(), Some("Localhost"));
    // A text that spells no address is no loopback address.
    assert_eq!(service.lookup_at(None, 5_000), None);
}

#[test]
fn without_a_database_there_is_no_country() {
    let (mut service, _updater) = service(0);
    assert_eq!(service.lookup_at(Some(&low()), 10), None);
    assert_eq!(service.lookup_country_code(Some(&low())), None);
}

#[test]
fn country_is_what_the_database_holds() {
    let config = config(true, false);
    let (_updater, rx) = GeoIpUpdater::new(&config);
    let mut service = GeoIpService::new(&config, Some(database_of("NO")), rx, 0);
    assert_eq!(service.lookup_at(Some(&low()), 1).as_deref(), Some("NO"));
    assert_eq!(service.lookup_at(Some(&v4(0, 0, 0, 0)), 1).as_deref(), Some("NO"));
    assert_eq!(service.lookup_at(Some(&v4(126, 255, 255, 255)), 1).as_deref(), Some("NO"));
    assert_eq!(service.lookup_at(Some(&high()), 1), None);
    assert_eq!(service.lookup_at(Some(&v4(128, 0, 0, 0)), 1), None);
    let v6 = IpAddress::V6 { segments: [0x2001, 0xdb8, 0, 0, 0, 0, 0, 1] };
    assert_eq!(service.lookup_at(Some(&v6), 1), None);
    assert_eq!(service.lookup_at(None, 1), None);
}

#[test]
fn repeated_lookups_give_the_same_answer() {
    let config = config(true, false);
    let (_updater, rx) = GeoIpUpdater::new(&config);
    let mut service = GeoIpService::new(&config, Some(database_of("SE")), rx, 0);
    for now in 1..5 {
        assert_eq!(service.lookup_at(Some(&low()), now).as_deref(), Some("SE"));
        assert_eq!(service.lookup_at(Some(&high()), now), None);
        assert_eq!(service.lookup_at(None, now), None);
    }
}

#[test]
fn initial_database_is_used_when_geolocation_is_on() {
    let on = config(true, false);
    let (_updater, rx) = GeoIpUpdater::new(&on);
    let mut service = GeoIpService::new(&on, Some(tiny_database()), rx, 0);
    assert_eq!(service.lookup_at(Some(&low()), 1).as_deref(), Some("SE"));

    let off = config(false, false);
    let (_updater, rx) = GeoIpUpdater::new(&off);
    let mut service = GeoIpService::new(&off, Some(tiny_database()), rx, 0);
    assert_eq!(service.lookup_at(Some(&low()), 1), None);

    let (_updater, rx) = GeoIpUpdater::new(&on);
    let mut service = GeoIpService::new(&on, Some(b"no database".to_vec()), rx, 0);
    assert_eq!(service.lookup_at(Some(&low()), 1), None);

    let (_updater, rx) = GeoIpUpdater::new(&on);
    let mut service = GeoIpService::new(&on, None, rx, 0);
    assert_eq!(service.lookup_at(Some(&low()), 1), None);
}

#[test]
fn published_snapshot_comes_before_the_initial_database() {
    let on = config(true, false);
    let (_updater, rx) = GeoIpUpdater::new(&on);
    let mut service =
        GeoIpService::with_published(&on, Some(database_of("SE")), Some(snapshot_of("NO")), rx, 0);
    assert_eq!(service.lookup_at(Some(&low()), 1).as_deref(), Some("NO"));

    let off = config(false, false);
    let (_updater, rx) = GeoIpUpdater::new(&off);
    let mut service = GeoIpService::with_published(&off, None, Some(snapshot_of("NO")), rx, 0);
    assert_eq!(service.lookup_at(Some(&low()), 1).as_deref(), Some("NO"));

    let with_credentials = config(true, true);
    let (mut updater, rx) = GeoIpUpdater::new(&with_credentials);
    publish(&mut updater);
    let mut service = GeoIpService::new(&with_credentials, Some(database_of("NO")), rx, 0);
    assert_eq!(service.lookup_at(Some(&low()), 1).as_deref(), Some("SE"));
}

#[test]
fn published_snapshot_is_taken_when_a_check_is_due() {
    let config = config(true, true);
    let (mut updater, rx) = GeoIpUpdater::new(&config);
    let mut service = GeoIpService::new(&config, Some(database_of("NO")), rx, 1_000);
    assert_eq!(service.lookup_at(Some(&low()), 1_001).as_deref(), Some("NO"));
    publish(&mut updater);
    // Before the check interval is over the old snapshot stays, cache and all.
    assert_eq!(service.lookup_at(Some(&v4(100, 9, 9, 9)), 1_000 + 1_199).as_deref(), Some("NO"));
    assert_eq!(service.lookup_at(Some(&low()), 1_000 + 1_199).as_deref(), Some("NO"));
    // A miss after the interval takes the new snapshot and empties the cache.
    assert_eq!(service.lookup_at(Some(&v4(100, 7, 7, 7)), 1_000 + 1_200).as_deref(), Some("SE"));
    assert_eq!(service.lookup_at(Some(&low()), 1_000 + 1_201).as_deref(), Some("SE"));
    assert_eq!(service.lookup_at(Some(&v4(100, 9, 9, 9)), 1_000 + 1_202).as_deref(), Some("SE"));
}

#[test]
fn installing_a_snapshot_empties_the_cache() {
    let config = config(true, false);
    let (_updater, rx) = GeoIpUpdater::new(&config);
    let mut service = GeoIpService::new(&config, Some(database_of("SE")), rx, 0);
    assert_eq!(service.lookup_at(Some(&low()), 1).as_deref(), Some("SE"));
    service.install_snapshot(Some(snapshot_of("NO")));
    assert_eq!(service.lookup_at(Some(&low()), 2).as_deref(), Some("NO"));
    service.install_snapshot(None);
    assert_eq!(service.lookup_at(Some(&low()), 3), None);
}

#[test]
fn a_due_check_puts_what_was_published_in_force() {
    let config = config(true, false);
    let (_updater, rx) = GeoIpUpdater::new(&config);
    let mut service = GeoIpService::new(&config, Some(database_of("SE")), rx, 0);
    assert_eq!(service.lookup_at(Some(&low()), 1).as_deref(), Some("SE"));
    // Nothing new on the channel: the snapshot stays.
    service.apply_check(1_200, None);
    assert_eq!(service.lookup_at(Some(&low()), 1_201).as_deref(), Some("SE"));
    // Something new: it is in force, and the cache is empty.
    service.apply_check(2_400, Some(Some(snapshot_of("NO"))));
    assert_eq!(service.lookup_at(Some(&low()), 2_401).as_deref(), Some("NO"));
    service.apply_check(3_600, Some(None));
    assert_eq!(service.lookup_at(Some(&low()), 3_601), None);
}

#[test]
fn update_is_needed_when_the_remote_is_newer() {
    let remote = head(200, date("Wed, 21 Oct 2015 07:28:00 GMT"));
    assert_eq!(is_update_needed(&remote, LocalFile::Modified { secs: 1_445_412_479 }), Ok(true));
    assert_eq!(is_update_needed(&remote, LocalFile::Modified { secs: 1_445_412_480 }), Ok(false));
    assert_eq!(is_update_needed(&remote, LocalFile::Modified { secs: 1_445_412_481 }), Ok(false));
    assert_eq!(is_update_needed(&remote, LocalFile::Missing), Ok(true));
    let legacy = head(204, date("Wednesday, 21-Oct-15 07:28:00 GMT"));
    assert_eq!(is_update_needed(&legacy, LocalFile::Modified { secs: 0 }), Ok(true));
}

#[test]
fn update_check_fails_with_its_reason() {
    let good = date("Wed, 21 Oct 2015 07:28:00 GMT");
    assert_eq!(
        is_update_needed(&head(401, good.clone()), LocalFile::Missing),
        Err(UpdateError::HeadFailed { status: 401 })
    );
    assert_eq!(
        is_update_needed(&head(199, good.clone()), LocalFile::Missing),
        Err(UpdateError::HeadFailed { status: 199 })
    );
    assert_eq!(
        is_update_needed(&head(300, good.clone()), LocalFile::Missing),
        Err(UpdateError::HeadFailed { status: 300 })
    );
    assert_eq!(
        is_update_needed(&head(200, HeaderValue::Missing), LocalFile::Missing),
        Err(UpdateError::NoLastModified)
    );
    assert_eq!(
        is_update_needed(&head(200, HeaderValue::NotText), LocalFile::Missing),
        Err(UpdateError::LastModifiedNotText)
    );
    assert_eq!(
        is_update_needed(&head(200, date("yesterday")), LocalFile::Missing),
        Err(UpdateError::LastModifiedNoDate)
    );
    assert_eq!(
        is_update_needed(&head(200, good.clone()), LocalFile::NoModifiedTime),
        Err(UpdateError::LocalTime)
    );
    assert_eq!(
        is_update_needed(&head(200, good), LocalFile::Unreadable),
        Err(UpdateError::LocalMetadata)
    );
}

#[test]
fn database_is_the_first_mmdb_file_of_the_archive() {
    let body = archive(&[
        ("GeoLite2-Country_20240101/COPYRIGHT.txt", b"copyright"),
        ("GeoLite2-Country_20240101/GeoLite2-Country.mmdb", b"first database"),
        ("GeoLite2-Country_20240101/backup.mmdb", b"second database"),
    ]);
    assert_eq!(extract_mmdb_from_archive(&body), Ok(b"first database".to_vec()));
}

#[test]
fn archive_without_a_database() {
    let body = archive(&[("dir/LICENSE.txt", b"license"), ("dir/mmdb", b"x"), ("dir/a.MMDB", b"y")]);
    assert_eq!(extract_mmdb_from_archive(&body), Err(UpdateError::NoDatabaseInArchive));
    let empty = archive(&[]);
    assert_eq!(extract_mmdb_from_archive(&empty), Err(UpdateError::NoDatabaseInArchive));
}

#[test]
fn damaged_archive() {
    assert_eq!(extract_mmdb_from_archive(&b"this is no gzip".to_vec()), Err(UpdateError::Archive));
    assert_eq!(extract_mmdb_from_archive(&Vec::new()), Err(UpdateError::Archive));
    let whole = archive(&[("dir/readme.txt", &[7u8; 4000]), ("dir/db.mmdb", &[9u8; 4000])]);
    let cut = whole[..whole.len() / 2].to_vec();
    assert_eq!(extract_mmdb_from_archive(&cut), Err(UpdateError::Archive));
}

#[test]
fn damage_behind_the_database_does_not_matter() {
    let mut body = archive(&[("dir/db.mmdb", b"database"), ("dir/z.txt", &[1u8; 100_000])]);
    let keep = body.len() - 20;
    body.truncate(keep);
    assert_eq!(extract_mmdb_from_archive(&body), Ok(b"database".to_vec()));
}

#[test]
fn downloaded_database_must_open() {
    let good = archive(&[("dir/GeoLite2-Country.mmdb", &tiny_database())]);
    match prepare_update(&good) {
        Ok(update) => assert_eq!(update.data, tiny_database()),
        Err(error) => panic!("the database is valid: {:?}", error),
    }
    let bad = archive(&[("dir/GeoLite2-Country.mmdb", b"no database at all")]);
    assert!(matches!(prepare_update(&bad), Err(UpdateError::InvalidDatabase)));
    let none = archive(&[("dir/readme.txt", b"nothing")]);
    assert!(matches!(prepare_update(&none), Err(UpdateError::NoDatabaseInArchive)));
    assert!(matches!(prepare_update(&b"junk".to_vec()), Err(UpdateError::Archive)));
}

#[test]
fn updater_without_credentials_does_nothing() {
    for (enabled, credentials) in [(false, true), (true, false), (false, false)] {
        let (mut updater, _rx) = GeoIpUpdater::new(&config(enabled, credentials));
        assert!(!updater.is_enabled());
        assert!(matches!(updater.step(UpdaterEvent::Tick), UpdaterAction::Nothing));
        assert!(matches!(updater.step(UpdaterEvent::Tick), UpdaterAction::Nothing));
        assert!(matches!(updater.step(UpdaterEvent::FileReplaced { ok: true }), UpdaterAction::Nothing));
    }
    let mut only_id = config(true, true);
    only_id.maxmind_license_key = None;
    assert!(!GeoIpUpdater::new(&only_id).0.is_enabled());
}

#[test]
fn update_cycle_runs_to_the_publication() {
    let (mut updater, _rx) = GeoIpUpdater::new(&config(true, true));
    assert!(updater.is_enabled());
    assert!(matches!(updater.step(UpdaterEvent::Tick), UpdaterAction::CheckRemote));
    // A tick in the middle of a cycle changes nothing.
    assert!(matches!(updater.step(UpdaterEvent::Tick), UpdaterAction::Nothing));
    let checked = UpdaterEvent::Checked {
        head: head(200, date("Wed, 21 Oct 2015 07:28:00 GMT")),
        local: LocalFile::Modified { secs: 1_000 },
    };
    assert!(matches!(updater.step(checked), UpdaterAction::Download));
    let body = archive(&[("dir/GeoLite2-Country.mmdb", &tiny_database())]);
    match updater.step(UpdaterEvent::Downloaded { body }) {
        UpdaterAction::ReplaceFile { data } => assert_eq!(data, tiny_database()),
        _ => panic!("the database is to be written"),
    }
    assert!(matches!(
        updater.step(UpdaterEvent::FileReplaced { ok: true }),
        UpdaterAction::Published { delivered: true }
    ));
    assert!(matches!(updater.step(UpdaterEvent::Tick), UpdaterAction::CheckRemote));
}

#[test]
fn publication_without_a_receiver_is_not_delivered() {
    let (mut updater, rx) = GeoIpUpdater::new(&config(true, true));
    drop(rx);
    assert!(matches!(updater.step(UpdaterEvent::Tick), UpdaterAction::CheckRemote));
    let checked = UpdaterEvent::Checked {
        head: head(200, date("Wed, 21 Oct 2015 07:28:00 GMT")),
        local: LocalFile::Missing,
    };
    assert!(matches!(updater.step(checked), UpdaterAction::Download));
    let body = archive(&[("dir/GeoLite2-Country.mmdb", &tiny_database())]);
    assert!(matches!(updater.step(UpdaterEvent::Downloaded { body }), UpdaterAction::ReplaceFile { .. }));
    assert!(matches!(
        updater.step(UpdaterEvent::FileReplaced { ok: true }),
        UpdaterAction::Published { delivered: false }
    ));
}

#[test]
fn update_cycle_ends_at_the_first_failure() {
    let (mut updater, _rx) = GeoIpUpdater::new(&config(true, true));
    assert!(matches!(updater.step(UpdaterEvent::Tick), UpdaterAction::CheckRemote));
    assert!(matches!(
        updater.step(UpdaterEvent::RequestFailed),
        UpdaterAction::Failed { error: UpdateError::RequestFailed }
    ));

    assert!(matches!(updater.step(UpdaterEvent::Tick), UpdaterAction::CheckRemote));
    let stale = UpdaterEvent::Checked {
        head: head(200, date("Wed, 21 Oct 2015 07:28:00 GMT")),
        local: LocalFile::Modified { secs: 2_000_000_000 },
    };
    assert!(matches!(updater.step(stale), UpdaterAction::Nothing));

    assert!(matches!(updater.step(UpdaterEvent::Tick), UpdaterAction::CheckRemote));
    let refused = UpdaterEvent::Checked { head: head(403, HeaderValue::Missing), local: LocalFile::Missing };
    assert!(matches!(
        updater.step(refused),
        UpdaterAction::Failed { error: UpdateError::HeadFailed { status: 403 } }
    ));

    assert!(matches!(updater.step(UpdaterEvent::Tick), UpdaterAction::CheckRemote));
    let newer = UpdaterEvent::Checked {
        head: head(200, date("Wed, 21 Oct 2015 07:28:00 GMT")),
        local: LocalFile::Missing,
    };
    assert!(matches!(updater.step(newer), UpdaterAction::Download));
    assert!(matches!(
        updater.step(UpdaterEvent::DownloadFailed),
        UpdaterAction::Failed { error: UpdateError::DownloadFailed }
    ));

    assert!(matches!(updater.step(UpdaterEvent::Tick), UpdaterAction::CheckRemote));
    let newer = UpdaterEvent::Checked {
        head: head(200, date("Wed, 21 Oct 2015 07:28:00 GMT")),
        local: LocalFile::Missing,
    };
    assert!(matches!(updater.step(newer), UpdaterAction::Download));
    let junk = UpdaterEvent::Downloaded { body: b"junk".to_vec() };
    assert!(matches!(updater.step(junk), UpdaterAction::Failed { error: UpdateError::Archive }));

    assert!(matches!(updater.step(UpdaterEvent::Tick), UpdaterAction::CheckRemote));
    let newer = UpdaterEvent::Checked {
        head: head(200, date("Wed, 21 Oct 2015 07:28:00 GMT")),
        local: LocalFile::Missing,
    };
    assert!(matches!(updater.step(newer), UpdaterAction::Download));
    let body = archive(&[("dir/GeoLite2-Country.mmdb", &tiny_database())]);
    assert!(matches!(updater.step(UpdaterEvent::Downloaded { body }), UpdaterAction::ReplaceFile { .. }));
    assert!(matches!(
        updater.step(UpdaterEvent::FileReplaced { ok: false }),
        UpdaterAction::Failed { error: UpdateError::ReplaceFailed }
    ));
    assert!(matches!(updater.step(UpdaterEvent::Tick), UpdaterAction::CheckRemote));
}

#[test]
fn failed_cycle_leaves_the_snapshot_in_force() {
    let (mut service, mut updater) = service(0);
    publish(&mut updater);
    assert_eq!(service.lookup_at(Some(&low()), 1_200).as_deref(), Some("SE"));
    assert!(matches!(updater.step(UpdaterEvent::Tick), UpdaterAction::CheckRemote));
    assert!(matches!(updater.step(UpdaterEvent::RequestFailed), UpdaterAction::Failed { .. }));
    // The next check finds nothing new: the snapshot stays.
    assert_eq!(service.lookup_at(Some(&v4(100, 7, 7, 7)), 2_400).as_deref(), Some("SE"));
    assert_eq!(service.lookup_at(Some(&low()), 2_401).as_deref(), Some("SE"));
}
