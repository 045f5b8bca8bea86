use crate::session::{is_id_char, random_id};
use crate::text::{
    chars_of, find_char, position_of, string_of_range, trim_range, trimmed,
};
use vstd::prelude::*;

verus! {

/// Raw tracking data received from the client.
#[derive(Debug, Clone)]
pub struct RawTrackingEvent {
    /// Site identifier
    pub site_id: String,
    /// Name of event
    pub event_name: String,
    /// Is event custom
    pub is_custom_event: bool,
    /// String encoded custom JSON properties
    pub properties: String,
    /// Page URL
    pub url: String,
    /// Referrer URL
    pub referrer: Option<String>,
    /// User agent
    pub user_agent: String,
    /// Screen resolution
    pub screen_resolution: String,
    /// Timestamp of the event
    pub timestamp: u64,
}

/// An IP address as plain numbers: what the transport layer parsed out of the
/// client's address.
#[derive(Debug, Clone, Copy, PartialEq, Eq, Hash)]
pub enum IpAddress {
    /// The four octets of an IPv4 address, first to last.
    V4 { octets: [u8; 4] },
    /// The eight 16-bit segments of an IPv6 address, first to last.
    V6 { segments: [u16; 8] },
}

/// The main analytics event type that includes server-side data.
#[derive(Debug, Clone)]
pub struct AnalyticsEvent {
    /// Raw tracking data from the client
    pub raw: RawTrackingEvent,
    /// Client IP address, as text
    pub ip_address: String,
    /// The address that `ip_address` spells, where it spells one
    pub ip: Option<IpAddress>,
}

impl AnalyticsEvent {
    pub fn new(raw: RawTrackingEvent, ip_address: String, ip: Option<IpAddress>) -> (event: Self)
        ensures
            event.raw == raw,
            event.ip_address == ip_address,
            event.ip == ip,
    {
        Self { raw, ip_address, ip }
    }
}

/// The length of a site identifier.
pub const SITE_ID_LENGTH: usize = 12;

/// Generate a unique site ID: twelve random characters of the URL-safe
/// alphabet.
pub fn generate_site_id() -> (id: String)
    ensures
        id@.len() == SITE_ID_LENGTH,
        forall|i: int| 0 <= i < id@.len() ==> is_id_char(#[trigger] id@[i]),
{
    random_id(SITE_ID_LENGTH)
}

/// A required field that a raw event lacks.
#[derive(Debug, Clone, Copy, PartialEq, Eq, Structural)]
pub enum MissingField {
    SiteId,
    Url,
    EventName,
}

impl MissingField {
    /// What the client is told.
    pub fn message(&self) -> (text: &'static str)
        ensures
            text@ == (match *self {
                MissingField::SiteId => "site_id is required"@,
                MissingField::Url => "url is required"@,
                MissingField::EventName => "event name is required"@,
            }),
    {
        match self {
            MissingField::SiteId => "site_id is required",
            MissingField::Url => "url is required",
            MissingField::EventName => "event name is required",
        }
    }
}

impl RawTrackingEvent {
    /// The first required field that is empty: the site, then the URL, then
    /// the name of the event.
    pub open spec fn first_missing(&self) -> Option<MissingField> {
        if self.site_id@.len() == 0 {
            Some(MissingField::SiteId)
        } else if self.url@.len() == 0 {
            Some(MissingField::Url)
        } else if self.event_name@.len() == 0 {
            Some(MissingField::EventName)
        } else {
            None
        }
    }

    /// Accepts a raw event that has its required fields, and says which one
    /// is missing of an event that has not.
    pub fn validate(&self) -> (r: Result<(), MissingField>)
        ensures
            match self.first_missing() {
                Some(field) => r == Err::<(), MissingField>(field),
                None => r is Ok,
            },
    {
        if self.site_id.as_str().is_empty() {
            Err(MissingField::SiteId)
        } else if self.url.as_str().is_empty() {
            Err(MissingField::Url)
        } else if self.event_name.as_str().is_empty() {
            Err(MissingField::EventName)
        } else {
            Ok(())
        }
    }
}

/// The first address of a forwarded-for header: what stands before the first
/// comma, without the white space around it.
pub open spec fn first_forwarded(value: Seq<char>) -> Seq<char> {
    match position_of(value, ',') {
        Some(i) => trimmed(value.subrange(0, i)),
        None => trimmed(value),
    }
}

/// The text of the first address in the value of a forwarded-for header.
pub fn first_forwarded_for(value: &str) -> (first: String)
    ensures
        first@ == first_forwarded(value@),
{
    let chars = chars_of(value);
    let end: usize = match find_char(&chars, ',') {
        Some(i) => i,
        None => {
            assert(chars@.subrange(0, chars.len() as int) == chars@);
            chars.len()
        },
    };
    let bounds = trim_range(&chars, 0, end);
    string_of_range(&chars, bounds.0, bounds.1)
}

} // verus!
