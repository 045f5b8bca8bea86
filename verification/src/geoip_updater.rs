use crate::config::Config;
use crate::geoip::{
    database_bytes, is_valid_database, open_database, GeoIpWatchRx, GeoReader,
};
use crate::text::same_text;
use crate::urls::opt_text;
use std::io::Read;
use std::sync::Arc;
use vstd::prelude::*;

verus! {

/// The sending end of a latest-value channel, `tokio::sync::watch::Sender`.
#[verifier::external_type_specification]
#[verifier::external_body]
#[verifier::reject_recursive_types(T)]
pub struct ExWatchSender<T>(tokio::sync::watch::Sender<T>);

/// Sends notifications when the GeoIP database is updated.
pub type GeoIpWatchTx = tokio::sync::watch::Sender<Option<Arc<GeoReader>>>;

/// Where the database archive is fetched from.
pub const GEOIP_DATABASE_URL: &'static str =
    "https://download.maxmind.com/geoip/databases/GeoLite2-Country/download?suffix=tar.gz";

/// The extension of the database file inside the archive.
pub const DATABASE_EXTENSION: &'static str = "mmdb";

/// One file of an archive.
#[derive(Debug, Clone)]
pub struct ArchiveEntry {
    /// The extension of the file's path, as `std::path::Path::extension`
    /// gives it
    pub extension: Option<String>,
    /// The content of the file
    pub data: Vec<u8>,
}

/// The mathematical value of an `ArchiveEntry`.
pub struct ArchiveEntryModel {
    pub extension: Option<Seq<char>>,
    pub data: Seq<u8>,
}

impl View for ArchiveEntry {
    type V = ArchiveEntryModel;

    open spec fn view(&self) -> ArchiveEntryModel {
        ArchiveEntryModel { extension: opt_text(self.extension), data: self.data@ }
    }
}

/// The values of a list of archive entries.
pub open spec fn entries_view(entries: Seq<ArchiveEntry>) -> Seq<ArchiveEntryModel> {
    Seq::new(entries.len(), |i: int| entries[i]@)
}

/// The seconds since the Unix epoch that an HTTP date stands for, as
/// `httpdate::parse_http_date` reads it; `None` where it reads no date.
pub uninterp spec fn http_date_secs_of(text: Seq<char>) -> Option<u64>;

/// What a gzip-compressed tar archive holds, read front to back with
/// `flate2::read::GzDecoder` and `tar::Archive::entries`: the files that could
/// be read before the first error, in their order, and whether the archive
/// was read to its end without an error. (A path that the platform cannot
/// hold counts as an error; on Unix there is no such path.)
pub uninterp spec fn archive_of(compressed: Seq<u8>) -> (Seq<ArchiveEntryModel>, bool);

/// Parses an HTTP date with `httpdate::parse_http_date` and gives the whole
/// seconds between the Unix epoch and it. The result depends on the text
/// alone.
#[verifier::external_body]
fn http_date_secs(text: &str) -> (r: Option<u64>)
    ensures
        r == http_date_secs_of(text@),
{
    match httpdate::parse_http_date(text) {
        Ok(time) => Some(
            time.duration_since(std::time::UNIX_EPOCH).map(|d| d.as_secs()).unwrap_or(0),
        ),
        Err(_) => None,
    }
}

/// Reads a gzip-compressed tar archive front to back, with
/// `flate2::read::GzDecoder` and `tar::Archive::entries`, and hands out each
/// file's extension and content. It stops at the first error; the flag
/// says whether there was none. The result depends on the bytes alone.
#[verifier::external_body]
fn read_archive(compressed: &Vec<u8>) -> (r: (Vec<ArchiveEntry>, bool))
    ensures
        (entries_view(r.0@), r.1) == archive_of(compressed@),
{
    let mut archive = tar::Archive::new(flate2::read::GzDecoder::new(compressed.as_slice()));
    let mut out = Vec::new();
    let Ok(entries) = archive.entries() else { return (out, false) };
    for entry in entries {
        let Ok(mut entry) = entry else { return (out, false) };
        let Ok(path) = entry.path() else { return (out, false) };
        let extension = path.extension().map(|e| e.to_string_lossy().into_owned());
        let mut data = Vec::new();
        if entry.read_to_end(&mut data).is_err() { return (out, false) }
        out.push(ArchiveEntry { extension, data });
    }
    (out, true)
}

/// What the sending end of the channel holds: the bytes of the database that
/// was published last, if any was.
pub uninterp spec fn sent_last(tx: GeoIpWatchTx) -> Option<Seq<u8>>;

/// A new channel for snapshots on which none is published yet, by
/// `tokio::sync::watch::channel`.
#[verifier::external_body]
fn watch_channel() -> (r: (GeoIpWatchTx, GeoIpWatchRx))
    ensures
        sent_last(r.0) is None,
{
    tokio::sync::watch::channel(None)
}

/// Publishes a database as the new snapshot with
/// `tokio::sync::watch::Sender::send`. With a receiver there, the channel then
/// holds this database; with none, the send fails and the channel holds what
/// it held. Whether a receiver is there depends on the receivers.
#[verifier::external_body]
fn watch_publish(tx: &mut GeoIpWatchTx, reader: GeoReader) -> (delivered: bool)
    ensures
        delivered ==> sent_last(*final(tx)) == Some(database_bytes(reader)),
        !delivered ==> sent_last(*final(tx)) == sent_last(*old(tx)),
{
    tx.send(Some(Arc::new(reader))).is_ok()
}

/// Why an update cycle ended without a new database.
#[derive(Debug, Clone, Copy, PartialEq, Eq, Structural)]
pub enum UpdateError {
    /// The metadata request did not reach the server.
    RequestFailed,
    /// The server answered the metadata request with this status.
    HeadFailed { status: u16 },
    /// The answer has no Last-Modified header.
    NoLastModified,
    /// The Last-Modified header is not text.
    LastModifiedNotText,
    /// The Last-Modified header is no HTTP date.
    LastModifiedNoDate,
    /// The modification time of the local file cannot be had.
    LocalTime,
    /// The local file cannot be examined.
    LocalMetadata,
    /// The download did not succeed.
    DownloadFailed,
    /// The archive is damaged before the point where a database was found.
    Archive,
    /// The archive holds no database file.
    NoDatabaseInArchive,
    /// The database file in the archive cannot be opened.
    InvalidDatabase,
    /// The database file could not be written into place.
    ReplaceFailed,
}

/// A Last-Modified header as it came.
#[derive(Debug, Clone)]
pub enum HeaderValue {
    Missing,
    NotText,
    Text(String),
}

/// The answer to the metadata request.
#[derive(Debug, Clone)]
pub struct HeadResponse {
    /// The status code
    pub status: u16,
    /// The Last-Modified header
    pub last_modified: HeaderValue,
}

/// What is known of the local database file.
#[derive(Debug, Clone, Copy, PartialEq, Eq, Structural)]
pub enum LocalFile {
    /// The file is there; it was last modified at this time (whole seconds
    /// since the Unix epoch).
    Modified { secs: u64 },
    /// The file is there, but its modification time cannot be had.
    NoModifiedTime,
    /// There is no such file.
    Missing,
    /// The file cannot be examined.
    Unreadable,
}

/// A status code of the 2xx class.
pub open spec fn is_success(status: u16) -> bool {
    200 <= status < 300
}

/// Whether the remote database is to be downloaded: it is where the remote
/// one was modified after the local one, or there is no local one.
pub open spec fn update_needed(head: HeadResponse, local: LocalFile) -> Result<bool, UpdateError> {
    if !is_success(head.status) {
        Err(UpdateError::HeadFailed { status: head.status })
    } else {
        match head.last_modified {
            HeaderValue::Missing => Err(UpdateError::NoLastModified),
            HeaderValue::NotText => Err(UpdateError::LastModifiedNotText),
            HeaderValue::Text(text) => match http_date_secs_of(text@) {
                None => Err(UpdateError::LastModifiedNoDate),
                Some(remote) => match local {
                    LocalFile::Modified { secs } => Ok(remote > secs),
                    LocalFile::NoModifiedTime => Err(UpdateError::LocalTime),
                    LocalFile::Missing => Ok(true),
                    LocalFile::Unreadable => Err(UpdateError::LocalMetadata),
                },
            },
        }
    }
}

/// Checks the remote Last-Modified header against the local file's
/// modification time.
pub fn is_update_needed(head: &HeadResponse, local: LocalFile) -> (r: Result<bool, UpdateError>)
    ensures
        r == update_needed(*head, local),
{
    if !(200 <= head.status && head.status < 300) {
        return Err(UpdateError::HeadFailed { status: head.status });
    }
    let text: &String = match &head.last_modified {
        HeaderValue::Missing => {
            return Err(UpdateError::NoLastModified);
        },
        HeaderValue::NotText => {
            return Err(UpdateError::LastModifiedNotText);
        },
        HeaderValue::Text(text) => text,
    };
    let remote: u64 = match http_date_secs(text.as_str()) {
        None => {
            return Err(UpdateError::LastModifiedNoDate);
        },
        Some(remote) => remote,
    };
    match local {
        LocalFile::Modified { secs } => Ok(remote > secs),
        LocalFile::NoModifiedTime => Err(UpdateError::LocalTime),
        LocalFile::Missing => Ok(true),
        LocalFile::Unreadable => Err(UpdateError::LocalMetadata),
    }
}

/// The content of the first file of an archive whose extension is `mmdb`.
pub open spec fn first_database(entries: Seq<ArchiveEntryModel>) -> Option<Seq<u8>>
    decreases entries.len(),
{
    if entries.len() == 0 {
        None
    } else if entries[0].extension == Some("mmdb"@) {
        Some(entries[0].data)
    } else {
        first_database(entries.drop_first())
    }
}

/// The database file that a downloaded archive holds: the first file with
/// the extension `mmdb` that can be read. Where there is none, the archive is
/// damaged if it could not be read to its end, else it holds no database.
pub open spec fn extracted(compressed: Seq<u8>) -> Result<Seq<u8>, UpdateError> {
    let read = archive_of(compressed);
    match first_database(read.0) {
        Some(data) => Ok(data),
        None => if read.1 {
            Err(UpdateError::NoDatabaseInArchive)
        } else {
            Err(UpdateError::Archive)
        },
    }
}

/// The bytes of a result.
pub open spec fn result_bytes(r: Result<Vec<u8>, UpdateError>) -> Result<Seq<u8>, UpdateError> {
    match r {
        Ok(data) => Ok(data@),
        Err(e) => Err(e),
    }
}

/// Decompresses gzip and extracts the .mmdb data from the tar archive bytes.
pub fn extract_mmdb_from_archive(compressed_data: &Vec<u8>) -> (r: Result<Vec<u8>, UpdateError>)
    ensures
        result_bytes(r) == extracted(compressed_data@),
{
    let read = read_archive(compressed_data);
    let entries = read.0;
    let complete = read.1;
    let ghost all = entries_view(entries@);
    let mut found: Option<Vec<u8>> = None;
    let mut looking: bool = true;
    assert(all.skip(0) == all);
    for entry in it: entries
        invariant
            entries_view(it.seq()) == all,
            looking ==> found is None && first_database(all) == first_database(
                all.skip(it.index()),
            ),
            !looking ==> found is Some && first_database(all) == Some(found->0@),
    {
        if looking {
            proof {
                assert(all.skip(it.index())[0] == entry@);
                assert(all.skip(it.index()).drop_first() == all.skip(it.index() + 1));
            }
            let matches = match &entry.extension {
                Some(extension) => same_text(extension.as_str(), DATABASE_EXTENSION),
                None => false,
            };
            if matches {
                found = Some(entry.data);
                looking = false;
            }
        }
    }
    proof {
        assert(all.skip(all.len() as int).len() == 0);
    }
    match found {
        Some(data) => Ok(data),
        None => if complete {
            Err(UpdateError::NoDatabaseInArchive)
        } else {
            Err(UpdateError::Archive)
        },
    }
}

/// A downloaded database that is ready to be put into place.
pub struct PreparedUpdate {
    /// The bytes of the database file
    pub data: Vec<u8>,
    /// The database, opened from those bytes
    pub reader: GeoReader,
}

/// What comes of a downloaded archive: its database file where it holds one
/// that can be opened, else the reason why not.
pub open spec fn prepared(compressed: Seq<u8>) -> Result<Seq<u8>, UpdateError> {
    match extracted(compressed) {
        Ok(data) => if is_valid_database(data) {
            Ok(data)
        } else {
            Err(UpdateError::InvalidDatabase)
        },
        Err(e) => Err(e),
    }
}

/// Extracts the database from a downloaded archive and opens it, which shows
/// that it is one.
pub fn prepare_update(compressed_data: &Vec<u8>) -> (r: Result<PreparedUpdate, UpdateError>)
    ensures
        match r {
            Ok(update) => prepared(compressed_data@) == Ok::<Seq<u8>, UpdateError>(update.data@)
                && database_bytes(update.reader) == update.data@,
            Err(e) => prepared(compressed_data@) == Err::<Seq<u8>, UpdateError>(e),
        },
{
    let data = match extract_mmdb_from_archive(compressed_data) {
        Ok(data) => data,
        Err(e) => {
            return Err(e);
        },
    };
    match open_database(&data) {
        Some(reader) => Ok(PreparedUpdate { data, reader }),
        None => Err(UpdateError::InvalidDatabase),
    }
}

/// Where an update cycle stands.
pub enum UpdaterState {
    /// No cycle is running.
    Idle,
    /// The metadata request is under way.
    Checking,
    /// The download is under way.
    Downloading,
    /// The database file is being put into place; this is the database.
    Replacing { reader: GeoReader },
}

/// What happened outside.
pub enum UpdaterEvent {
    /// The update interval is over.
    Tick,
    /// The metadata request did not reach the server.
    RequestFailed,
    /// The metadata request was answered; `local` is the state of the file.
    Checked { head: HeadResponse, local: LocalFile },
    /// The download did not succeed.
    DownloadFailed,
    /// The archive was downloaded.
    Downloaded { body: Vec<u8> },
    /// The database file was written into place, or could not be.
    FileReplaced { ok: bool },
}

/// What is to be done outside.
pub enum UpdaterAction {
    /// Nothing.
    Nothing,
    /// Send the metadata request and examine the local file.
    CheckRemote,
    /// Download the archive.
    Download,
    /// Write these bytes to a temporary file and rename it into place.
    ReplaceFile { data: Vec<u8> },
    /// Nothing: the new snapshot was published. `delivered` tells whether a
    /// receiver was there.
    Published { delivered: bool },
    /// Nothing: the cycle ended without a new database, for this reason.
    Failed { error: UpdateError },
}

/// The background updater of the GeoIP database.
pub struct GeoIpUpdater {
    enabled: bool,
    state: UpdaterState,
    watch_tx: GeoIpWatchTx,
}

/// Whether updates are on: geolocation is enabled and both credentials are
/// there.
pub open spec fn updates_enabled(config: Config) -> bool {
    config.enable_geolocation && config.maxmind_account_id is Some
        && config.maxmind_license_key is Some
}

impl GeoIpUpdater {
    pub closed spec fn enabled(&self) -> bool {
        self.enabled
    }

    pub closed spec fn state(&self) -> UpdaterState {
        self.state
    }

    /// The bytes of the database that the updater published last, if it
    /// published any.
    pub closed spec fn published(&self) -> Option<Seq<u8>> {
        sent_last(self.watch_tx)
    }

    /// What `step` does. An event that the state does not wait for changes
    /// nothing. A failure at any point ends the cycle. Only the last step of a
    /// cycle publishes: the database that was found valid, once its file is
    /// in place.
    pub open spec fn step_spec(
        before: GeoIpUpdater,
        event: UpdaterEvent,
        after: GeoIpUpdater,
        action: UpdaterAction,
    ) -> bool {
        &&& after.enabled() == before.enabled()
        &&& !(before.state() is Replacing && event == (UpdaterEvent::FileReplaced { ok: true }))
            ==> after.published() == before.published()
        &&& match (before.state(), event) {
            (UpdaterState::Idle, UpdaterEvent::Tick) => if before.enabled() {
                after.state() is Checking && action is CheckRemote
            } else {
                after.state() is Idle && action is Nothing
            },
            (UpdaterState::Checking, UpdaterEvent::RequestFailed) => after.state() is Idle
                && action == (UpdaterAction::Failed { error: UpdateError::RequestFailed }),
            (UpdaterState::Checking, UpdaterEvent::Checked { head, local }) => match update_needed(
                head,
                local,
            ) {
                Ok(true) => after.state() is Downloading && action is Download,
                Ok(false) => after.state() is Idle && action is Nothing,
                Err(error) => after.state() is Idle && action == (UpdaterAction::Failed { error }),
            },
            (UpdaterState::Downloading, UpdaterEvent::DownloadFailed) => after.state() is Idle
                && action == (UpdaterAction::Failed { error: UpdateError::DownloadFailed }),
            (UpdaterState::Downloading, UpdaterEvent::Downloaded { body }) => match prepared(
                body@,
            ) {
                Ok(data) => {
                    &&& after.state() matches UpdaterState::Replacing { reader }
                    &&& database_bytes(reader) == data
                    &&& action matches UpdaterAction::ReplaceFile { data: bytes }
                    &&& bytes@ == data
                },
                Err(error) => after.state() is Idle && action == (UpdaterAction::Failed { error }),
            },
            (UpdaterState::Replacing { reader }, UpdaterEvent::FileReplaced { ok }) => {
                &&& after.state() is Idle
                &&& if ok {
                    &&& action matches UpdaterAction::Published { delivered }
                    &&& delivered ==> after.published() == Some(database_bytes(reader))
                    &&& !delivered ==> after.published() == before.published()
                } else {
                    action == (UpdaterAction::Failed { error: UpdateError::ReplaceFailed })
                }
            },
            _ => after.state() == before.state() && action is Nothing,
        }
    }

    /// Creates a new updater and returns it along with a watch receiver.
    pub fn new(config: &Config) -> (r: (Self, GeoIpWatchRx))
        ensures
            r.0.enabled() == updates_enabled(*config),
            r.0.state() is Idle,
            r.0.published() is None,
    {
        let channel = watch_channel();
        let enabled = config.enable_geolocation && config.maxmind_account_id.is_some()
            && config.maxmind_license_key.is_some();
        (GeoIpUpdater { enabled, state: UpdaterState::Idle, watch_tx: channel.0 }, channel.1)
    }

    /// Whether the update loop is to run at all.
    pub fn is_enabled(&self) -> (r: bool)
        ensures
            r == self.enabled(),
    {
        self.enabled
    }

    /// Takes what happened outside and says what is to be done next.
    pub fn step(&mut self, event: UpdaterEvent) -> (action: UpdaterAction)
        ensures
            Self::step_spec(*old(self), event, *final(self), action),
    {
        let mut state = UpdaterState::Idle;
        std::mem::swap(&mut state, &mut self.state);
        match (state, event) {
            (UpdaterState::Idle, UpdaterEvent::Tick) => {
                if self.enabled {
                    self.state = UpdaterState::Checking;
                    UpdaterAction::CheckRemote
                } else {
                    UpdaterAction::Nothing
                }
            },
            (UpdaterState::Checking, UpdaterEvent::RequestFailed) => UpdaterAction::Failed {
                error: UpdateError::RequestFailed,
            },
            (UpdaterState::Checking, UpdaterEvent::Checked { head, local }) => {
                match is_update_needed(&head, local) {
                    Ok(true) => {
                        self.state = UpdaterState::Downloading;
                        UpdaterAction::Download
                    },
                    Ok(false) => UpdaterAction::Nothing,
                    Err(error) => UpdaterAction::Failed { error },
                }
            },
            (UpdaterState::Downloading, UpdaterEvent::DownloadFailed) => UpdaterAction::Failed {
                error: UpdateError::DownloadFailed,
            },
            (UpdaterState::Downloading, UpdaterEvent::Downloaded { body }) => {
                match prepare_update(&body) {
                    Ok(update) => {
                        self.state = UpdaterState::Replacing { reader: update.reader };
                        UpdaterAction::ReplaceFile { data: update.data }
                    },
                    Err(error) => UpdaterAction::Failed { error },
                }
            },
            (UpdaterState::Replacing { reader }, UpdaterEvent::FileReplaced { ok }) => {
                if ok {
                    let delivered = watch_publish(&mut self.watch_tx, reader);
                    UpdaterAction::Published { delivered }
                } else {
                    UpdaterAction::Failed { error: UpdateError::ReplaceFailed }
                }
            },
            (other, _) => {
                self.state = other;
                UpdaterAction::Nothing
            },
        }
    }
}

/// With updates off, the updater takes no action at all, whatever happens.
pub proof fn law_disabled_updater_is_idle(
    before: GeoIpUpdater,
    event: UpdaterEvent,
    after: GeoIpUpdater,
    action: UpdaterAction,
)
    requires
        GeoIpUpdater::step_spec(before, event, after, action),
        !before.enabled(),
        before.state() is Idle,
    ensures
        action is Nothing,
        after.state() is Idle,
        !after.enabled(),
{
}

/// What is published and received is the database that the cycle found valid
/// and wrote into place, and nothing is published on any other step.
pub proof fn law_publish_sends_the_valid_database(
    before: GeoIpUpdater,
    event: UpdaterEvent,
    after: GeoIpUpdater,
    action: UpdaterAction,
)
    requires
        GeoIpUpdater::step_spec(before, event, after, action),
        after.published() != before.published(),
    ensures
        before.state() matches UpdaterState::Replacing { reader } && after.published() == Some(
            database_bytes(reader),
        ),
        action == (UpdaterAction::Published { delivered: true }),
{
}

/// A snapshot is published only at the end of a complete cycle: after the
/// database was found valid and its file was written into place.
pub proof fn law_publish_ends_a_cycle(
    before: GeoIpUpdater,
    event: UpdaterEvent,
    after: GeoIpUpdater,
    action: UpdaterAction,
)
    requires
        GeoIpUpdater::step_spec(before, event, after, action),
        action is Published,
    ensures
        before.state() is Replacing,
        event == (UpdaterEvent::FileReplaced { ok: true }),
        after.state() is Idle,
{
}

} // verus!
