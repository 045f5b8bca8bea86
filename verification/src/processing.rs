use crate::analytics::{AnalyticsEvent, IpAddress};
use crate::bot_detection::{is_bot, BotDetector};
use crate::campaign::{parse_campaign_params, CampaignInfo};
use crate::fingerprint::{fingerprint_of, generate_fingerprint};
use crate::geoip::GeoIpService;
use crate::referrer::{parse_referrer, referrer_info_of, ReferrerDatabase, ReferrerInfo};
use crate::session::{
    get_or_create_session_id, is_session_id, session_key, SessionError, SessionStore,
};
use crate::text::{
    chars_of, find_char, parse_u32_of, parse_u32_range, position_of, push_char, trim_range,
    trimmed,
};
use crate::time::{timestamp_from_secs, utc_date_of, utc_now, UtcDate, UtcTimestamp};
use crate::ua_parser::{parse_user_agent, UaClassifier};
use crate::urls::{opt_text, parse_url, parsed_url_of};
use vstd::prelude::*;
use vstd::string::*;

verus! {

#[derive(Debug, Clone)]
pub struct ProcessedEvent {
    /// The event as it was received, with the client address
    pub event: AnalyticsEvent,
    /// Sessionization - new sessions are created if the user has not generated any events in over 30 minutes
    pub session_id: String,
    /// Contains the domain of the URL (e.g. "example.com" or "subdomain.example.com")
    pub domain: Option<String>,
    /// Contains only the path of the URL (e.g. "/path/to/page" or "/")
    pub url: String,
    /// Geolocation data
    pub country_code: Option<String>,
    /// Browser information - parsed from the user agent string
    pub browser: Option<String>,
    pub browser_version: Option<String>,
    /// Operating system - parsed from the user agent string
    pub os: Option<String>,
    /// Device type (mobile, tablet, laptop, desktop) - from the screen resolution
    pub device_type: Option<String>,
    pub site_id: String,
    pub visitor_fingerprint: String,
    pub timestamp: UtcTimestamp,
    /// Parsed referrer information
    pub referrer_info: ReferrerInfo,
    /// Parsed campaign parameters
    pub campaign_info: CampaignInfo,
    pub user_agent: String,
    /// Custom event handling
    pub event_type: String,
    pub custom_event_name: String,
    pub custom_event_json: String,
}

/// The device class of a screen that is `width` pixels wide.
pub open spec fn device_class_of(width: u32) -> Seq<char> {
    if width <= 575 {
        "mobile"@
    } else if width <= 991 {
        "tablet"@
    } else if width <= 1439 {
        "laptop"@
    } else {
        "desktop"@
    }
}

/// The width that a resolution such as "1920x1080" gives: the number before
/// the first `x`, white space around it aside.
pub open spec fn width_of(resolution: Seq<char>) -> Option<u32> {
    match position_of(resolution, 'x') {
        Some(i) => parse_u32_of(trimmed(resolution.subrange(0, i))),
        None => None,
    }
}

/// The device class that a screen resolution stands for; "unknown" where the
/// resolution gives no width.
pub open spec fn device_type_of(resolution: Seq<char>) -> Seq<char> {
    match width_of(resolution) {
        Some(width) => device_class_of(width),
        None => "unknown"@,
    }
}

/// Domain and path of a URL. Of a text that is no URL, all of it is the path,
/// with a slash put before it where it does not begin with one.
pub open spec fn domain_and_path_of(url: Seq<char>) -> (Option<Seq<char>>, Seq<char>) {
    match parsed_url_of(url) {
        Some(parts) => (
            parts.domain,
            if parts.path.len() == 0 {
                seq!['/']
            } else {
                parts.path
            },
        ),
        None => (
            None,
            if url.len() > 0 && url[0] == '/' {
                url
            } else {
                seq!['/'] + url
            },
        ),
    }
}

/// The time of an event: that which the client sent, where it is a time that
/// can be represented; else some time with its date (the time of processing).
pub open spec fn is_time_of(timestamp: UtcTimestamp, sent: u64) -> bool {
    &&& timestamp.wf()
    &&& utc_date_of((sent as i64) as int) is Some ==> timestamp.secs == sent as i64
}

impl ProcessedEvent {
    /// The kind of `self` was set from its raw event, starting from `before`:
    /// a custom event is of the kind "custom" and takes the name and the
    /// properties of the raw event; any other event is of the kind that its
    /// name says, and its custom name and properties are left as they were.
    pub open spec fn has_kind_set(&self, before: ProcessedEvent) -> bool {
        if before.event.raw.is_custom_event {
            &&& self.event_type@ == "custom"@
            &&& self.custom_event_name@ == before.event.raw.event_name@
            &&& self.custom_event_json@ == before.event.raw.properties@
        } else {
            &&& self.event_type@ == before.event.raw.event_name@
            &&& self.custom_event_name == before.custom_event_name
            &&& self.custom_event_json == before.custom_event_json
        }
    }

    /// The kind of a newly made record: a custom event is of the kind
    /// "custom" and has the name and the properties of the raw event; any
    /// other event is of the kind that its name says and has no custom name
    /// or properties.
    pub open spec fn has_kind_of(&self, event: AnalyticsEvent) -> bool {
        if event.raw.is_custom_event {
            &&& self.event_type@ == "custom"@
            &&& self.custom_event_name@ == event.raw.event_name@
            &&& self.custom_event_json@ == event.raw.properties@
        } else {
            &&& self.event_type@ == event.raw.event_name@
            &&& self.custom_event_name@.len() == 0
            &&& self.custom_event_json@.len() == 0
        }
    }

    /// What is known of an event before its country is: everything that is
    /// read off the raw event and the referrer database.
    pub open spec fn begins(&self, event: AnalyticsEvent, referrers: ReferrerDatabase) -> bool {
        &&& self.event == event
        &&& self.site_id@ == event.raw.site_id@
        &&& self.user_agent@ == event.raw.user_agent@
        &&& is_time_of(self.timestamp, event.raw.timestamp)
        &&& (opt_text(self.domain), self.url@) == domain_and_path_of(event.raw.url@)
        &&& self.has_kind_of(event)
        &&& self.referrer_info@ == referrer_info_of(
            referrers.entries(),
            opt_text(event.raw.referrer),
            Some(event.raw.url@),
        )
        &&& match parsed_url_of(event.raw.url@) {
            Some(url) => self.campaign_info.carries(url.query),
            None => self.campaign_info.is_empty(),
        }
    }

    /// Device, browser, OS and fingerprint are filled in: the device class of
    /// the screen resolution, what the rule set reports of the user agent, and
    /// the fingerprint of the client's address with these on some date.
    pub open spec fn is_enriched(&self, agents: UaClassifier) -> bool {
        let agent = agents.report_of(self.user_agent@);
        &&& opt_text(self.device_type) == Some(device_type_of(self.event.raw.screen_resolution@))
        &&& opt_text(self.browser) == Some(agent.0)
        &&& opt_text(self.browser_version) == agent.1
        &&& opt_text(self.os) == Some(agent.2)
        &&& exists|date: UtcDate|
            self.visitor_fingerprint@ == #[trigger] fingerprint_of(
                date,
                self.event.ip,
                opt_text(self.device_type),
                opt_text(self.browser),
                opt_text(self.browser_version),
                opt_text(self.os),
            )
    }

    /// `self` is `pending` with device, browser, OS and fingerprint filled in.
    pub open spec fn completes(&self, pending: ProcessedEvent, agents: UaClassifier) -> bool {
        &&& self.is_enriched(agents)
        &&& self.event == pending.event
        &&& self.site_id == pending.site_id
        &&& self.user_agent == pending.user_agent
        &&& self.timestamp == pending.timestamp
        &&& self.domain == pending.domain
        &&& self.url == pending.url
        &&& self.event_type == pending.event_type
        &&& self.custom_event_name == pending.custom_event_name
        &&& self.custom_event_json == pending.custom_event_json
        &&& self.referrer_info == pending.referrer_info
        &&& self.campaign_info == pending.campaign_info
        &&& self.country_code == pending.country_code
    }

    /// `self` is `other` but for the session.
    pub open spec fn differs_in_session_only(&self, other: ProcessedEvent) -> bool {
        *self == (ProcessedEvent { session_id: self.session_id, ..other })
    }
}

/// What the processing of an event comes to.
pub enum ProcessStep {
    /// The event is automated traffic and was discarded.
    Discarded,
    /// The event is enriched and ready for the writer.
    Ready(ProcessedEvent),
    /// No session could be had; the event is given up.
    Aborted,
}

/// Event processor that handles real-time processing
pub struct EventProcessor {
    bots: BotDetector,
    referrers: ReferrerDatabase,
    agents: UaClassifier,
    geoip_service: GeoIpService,
    sessions: SessionStore,
}

impl EventProcessor {
    pub closed spec fn bots(&self) -> BotDetector {
        self.bots
    }

    pub closed spec fn referrers(&self) -> ReferrerDatabase {
        self.referrers
    }

    pub closed spec fn agents(&self) -> UaClassifier {
        self.agents
    }

    pub closed spec fn geoip(&self) -> GeoIpService {
        self.geoip_service
    }

    pub closed spec fn sessions(&self) -> SessionStore {
        self.sessions
    }

    pub open spec fn wf(&self) -> bool {
        self.agents().wf() && self.geoip().wf()
    }

    /// The rule sets and databases that the processor was made with stay.
    pub open spec fn same_services(&self, other: EventProcessor) -> bool {
        &&& self.bots() == other.bots()
        &&& self.referrers() == other.referrers()
        &&& self.agents().rules() == other.agents().rules()
    }

    pub fn new(
        bots: BotDetector,
        referrers: ReferrerDatabase,
        agents: UaClassifier,
        geoip_service: GeoIpService,
        sessions: SessionStore,
    ) -> (processor: Self)
        requires
            agents.wf(),
            geoip_service.wf(),
        ensures
            processor.wf(),
            processor.bots() == bots,
            processor.referrers() == referrers,
            processor.agents() == agents,
            processor.geoip() == geoip_service,
            processor.sessions() == sessions,
    {
        EventProcessor { bots, referrers, agents, geoip_service, sessions }
    }

    /// The session of `done` is what the session store gave for its site and
    /// fingerprint at some time: the identifier on record where that is
    /// still live, else a newly made one.
    pub open spec fn session_found(before: EventProcessor, after: EventProcessor, done: ProcessedEvent) -> bool {
        SessionStore::found_or_minted(
            before.sessions(),
            session_key(done.site_id@, done.visitor_fingerprint@),
            after.sessions(),
            done.session_id@,
        )
    }

    /// The lookup of the country of a client came to `country`, at some time.
    pub open spec fn country_looked_up(
        before: EventProcessor,
        after: EventProcessor,
        ip: Option<IpAddress>,
        country: Option<String>,
    ) -> bool {
        exists|now: u64| #[trigger]
            GeoIpService::lookup_spec(before.geoip(), ip, now, after.geoip(), country)
    }

    /// Extract domain and path from a URL string.
    pub fn extract_domain_and_path_from_url(url_str: &str) -> (r: (Option<String>, String))
        ensures
            (opt_text(r.0), r.1@) == domain_and_path_of(url_str@),
    {
        match parse_url(url_str) {
            Some(parts) => {
                let path = if parts.path.as_str().is_empty() {
                    let mut slash = String::new();
                    push_char(&mut slash, '/');
                    assert(slash@ == seq!['/']);
                    slash
                } else {
                    parts.path
                };
                (parts.domain, path)
            },
            None => {
                let chars = chars_of(url_str);
                if chars.len() > 0 && chars[0] == '/' {
                    (None, url_str.to_owned())
                } else {
                    let mut path = String::new();
                    push_char(&mut path, '/');
                    path.append(url_str);
                    assert(path@ == seq!['/'] + url_str@);
                    (None, path)
                }
            },
        }
    }

    /// The device type for a screen resolution such as "1920x1080".
    pub fn detect_device_type_from_resolution(resolution: &str) -> (device: String)
        ensures
            device@ == device_type_of(resolution@),
    {
        let chars = chars_of(resolution);
        let width: Option<u32> = match find_char(&chars, 'x') {
            Some(i) => {
                let bounds = trim_range(&chars, 0, i);
                parse_u32_range(&chars, bounds.0, bounds.1)
            },
            None => None,
        };
        match width {
            Some(w) => {
                if w <= 575 {
                    "mobile".to_owned()
                } else if w <= 991 {
                    "tablet".to_owned()
                } else if w <= 1439 {
                    "laptop".to_owned()
                } else {
                    "desktop".to_owned()
                }
            },
            None => "unknown".to_owned(),
        }
    }

    /// The time of an event, from the timestamp that the client sent.
    pub fn normalize_timestamp(sent: u64) -> (timestamp: UtcTimestamp)
        ensures
            is_time_of(timestamp, sent),
    {
        match timestamp_from_secs(sent as i64) {
            Some(t) => t,
            None => utc_now(),
        }
    }

    /// Handle different event types
    fn handle_event_types(processed: &mut ProcessedEvent)
        ensures
            final(processed).has_kind_set(*old(processed)),
            *final(processed) == (ProcessedEvent {
                event_type: final(processed).event_type,
                custom_event_name: final(processed).custom_event_name,
                custom_event_json: final(processed).custom_event_json,
                ..*old(processed)
            }),
    {
        let event_name = processed.event.raw.event_name.clone();
        if processed.event.raw.is_custom_event {
            processed.event_type = "custom".to_owned();
            processed.custom_event_name = event_name;
            processed.custom_event_json = processed.event.raw.properties.clone();
        } else {
            processed.event_type = event_name;
        }
    }

    /// Fills in what follows the country: device type, browser and OS, and
    /// the visitor's fingerprint.
    fn enrich(&mut self, processed: ProcessedEvent) -> (done: ProcessedEvent)
        requires
            old(self).wf(),
        ensures
            final(self).wf(),
            final(self).same_services(*old(self)),
            final(self).geoip() == old(self).geoip(),
            final(self).sessions() == old(self).sessions(),
            done.completes(processed, old(self).agents()),
            done.session_id == processed.session_id,
    {
        let mut done = processed;
        let device = Self::detect_device_type_from_resolution(
            done.event.raw.screen_resolution.as_str(),
        );
        let parsed = parse_user_agent(&mut self.agents, done.user_agent.as_str());
        let fingerprint = generate_fingerprint(
            match &done.event.ip {
                Some(ip) => Some(ip),
                None => None,
            },
            Some(device.as_str()),
            Some(parsed.browser.as_str()),
            match &parsed.browser_version {
                Some(v) => Some(v.as_str()),
                None => None,
            },
            Some(parsed.os.as_str()),
        );
        done.device_type = Some(device);
        done.browser = Some(parsed.browser);
        done.browser_version = parsed.browser_version;
        done.os = Some(parsed.os);
        done.visitor_fingerprint = fingerprint;
        done
    }

    /// Ends the processing of an event with the outcome of the session
    /// lookup: with a session the event is ready, without one it is given up.
    pub fn finish_with_session(processed: ProcessedEvent, session: Result<String, SessionError>) -> (step:
        ProcessStep)
        ensures
            match session {
                Ok(id) => step matches ProcessStep::Ready(done) && done.session_id == id
                    && done.differs_in_session_only(processed),
                Err(_) => step is Aborted,
            },
    {
        match session {
            Ok(id) => {
                let mut done = processed;
                done.session_id = id;
                ProcessStep::Ready(done)
            },
            Err(_) => ProcessStep::Aborted,
        }
    }

    /// Enriches an event whose country is known and finds its session.
    fn complete(&mut self, processed: ProcessedEvent) -> (step: ProcessStep)
        requires
            old(self).wf(),
        ensures
            final(self).wf(),
            final(self).same_services(*old(self)),
            final(self).geoip() == old(self).geoip(),
            step matches ProcessStep::Ready(done) && done.completes(processed, old(self).agents())
                && Self::session_found(*old(self), *final(self), done),
    {
        let enriched = self.enrich(processed);
        let ghost before = self.sessions;
        let session = get_or_create_session_id(
            &mut self.sessions,
            enriched.site_id.as_str(),
            enriched.visitor_fingerprint.as_str(),
        );
        let ghost key = session_key(enriched.site_id@, enriched.visitor_fingerprint@);
        let ghost id = session->Ok_0@;
        let step = Self::finish_with_session(enriched, session);
        proof {
            let (now, fresh) = choose|now: u64, fresh: Seq<char>|
                is_session_id(fresh) && #[trigger] SessionStore::step_spec(
                    before,
                    key,
                    now,
                    fresh,
                    self.sessions,
                    id,
                );
            let done = step->Ready_0;
            assert(SessionStore::step_spec(
                old(self).sessions(),
                session_key(done.site_id@, done.visitor_fingerprint@),
                now,
                fresh,
                self.sessions(),
                done.session_id@,
            ));
        }
        step
    }

    /// Processes one event: how the raw event becomes an enriched one that is
    /// ready for the writer.
    ///
    /// Automated traffic is discarded. Else domain and path, kind, referrer
    /// and campaign are read off the raw event, the country of the client is
    /// looked up, and device, browser, OS, fingerprint and session are filled
    /// in.
    pub fn process_event(&mut self, event: AnalyticsEvent) -> (step: ProcessStep)
        requires
            old(self).wf(),
        ensures
            final(self).wf(),
            final(self).same_services(*old(self)),
            old(self).bots().flags(event.raw.user_agent@) <==> step is Discarded,
            step is Discarded ==> final(self).geoip() == old(self).geoip() && final(self).sessions()
                == old(self).sessions(),
            step matches ProcessStep::Ready(done) ==> {
                &&& done.begins(event, old(self).referrers())
                &&& done.is_enriched(old(self).agents())
                &&& Self::country_looked_up(*old(self), *final(self), event.ip, done.country_code)
                &&& Self::session_found(*old(self), *final(self), done)
            },
            !(step is Aborted),
    {
        let timestamp = Self::normalize_timestamp(event.raw.timestamp);
        if is_bot(&self.bots, event.raw.user_agent.as_str()) {
            return ProcessStep::Discarded;
        }
        let location = Self::extract_domain_and_path_from_url(event.raw.url.as_str());
        let referrer_info = parse_referrer(
            &self.referrers,
            match &event.raw.referrer {
                Some(r) => Some(r.as_str()),
                None => None,
            },
            Some(event.raw.url.as_str()),
        );
        let campaign_info = parse_campaign_params(event.raw.url.as_str());
        let site_id = event.raw.site_id.clone();
        let user_agent = event.raw.user_agent.clone();
        let country_code = self.geoip_service.lookup_country_code(
            match &event.ip {
                Some(ip) => Some(ip),
                None => None,
            },
        );
        let ghost looked = *self;
        proof {
            let now = choose|now: u64| #[trigger]
                GeoIpService::lookup_spec(
                    old(self).geoip_service,
                    event.ip,
                    now,
                    self.geoip_service,
                    country_code,
                );
            assert(GeoIpService::lookup_spec(
                old(self).geoip(),
                event.ip,
                now,
                looked.geoip(),
                country_code,
            ));
        }
        let mut processed = ProcessedEvent {
            event,
            event_type: String::new(),
            session_id: String::new(),
            country_code,
            browser: None,
            browser_version: None,
            os: None,
            device_type: None,
            site_id,
            visitor_fingerprint: String::new(),
            timestamp,
            domain: location.0,
            url: location.1,
            referrer_info,
            user_agent,
            campaign_info,
            custom_event_name: String::new(),
            custom_event_json: String::new(),
        };
        Self::handle_event_types(&mut processed);
        let step = self.complete(processed);
        proof {
            let done = step->Ready_0;
            assert(done.completes(processed, old(self).agents()));
            let (now, fresh) = choose|now: u64, fresh: Seq<char>|
                is_session_id(fresh) && #[trigger] SessionStore::step_spec(
                    looked.sessions(),
                    session_key(done.site_id@, done.visitor_fingerprint@),
                    now,
                    fresh,
                    self.sessions(),
                    done.session_id@,
                );
            assert(SessionStore::step_spec(
                old(self).sessions(),
                session_key(done.site_id@, done.visitor_fingerprint@),
                now,
                fresh,
                self.sessions(),
                done.session_id@,
            ));
        }
        step
    }
}

} // verus!
