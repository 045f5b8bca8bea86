use betterlytics::analytics::{
    first_forwarded_for, generate_site_id, AnalyticsEvent, IpAddress, MissingField,
    RawTrackingEvent,
};

fn raw(site_id: &str, url: &str, event_name: &str) -> RawTrackingEvent {
    RawTrackingEvent {
        site_id: site_id.to_string(),
        event_name: event_name.to_string(),
        is_custom_event: false,
        properties: String::new(),
        url: url.to_string(),
        referrer: None,
        user_agent: "agent".to_string(),
        screen_resolution: "1x1".to_string(),
        timestamp: 0,
    }
}

#[test]
fn event_keeps_what_it_was_made_of() {
    let ip = IpAddress::V4 { octets: [203, 0, 113, 45] };
    let event = AnalyticsEvent::new(raw("site", "https://example.com/", "pageview"), "203.0.113.45".to_string(), Some(ip));
    assert_eq!(event.raw.site_id, "site");
    assert_eq!(event.raw.url, "https://example.com/");
    assert_eq!(event.ip_address, "203.0.113.45");
    assert!(matches!(event.ip, Some(IpAddress::V4 { octets: [203, 0, 113, 45] })));
    let unparsed = AnalyticsEvent::new(raw("site", "u", "e"), "nonsense".to_string(), None);
    assert_eq!(unparsed.ip_address, "nonsense");
    assert!(unparsed.ip.is_none());
}

#[test]
fn site_ids_are_twelve_url_safe_characters() {
    let id = generate_site_id();
    assert_eq!(id.chars().count(), 12);
    assert!(id.chars().all(|c| c.is_ascii_alphanumeric() || c == '_' || c == '-'));
    assert_ne!(generate_site_id(), id);
}

#[test]
fn raw_event_with_its_fields_is_accepted() {
    assert_eq!(raw("site", "https://example.com/", "pageview").validate(), Ok(()));
}

#[test]
fn raw_event_without_a_required_field_is_rejected() {
    assert_eq!(raw("", "https://example.com/", "pageview").validate(), Err(MissingField::SiteId));
    assert_eq!(raw("site", "", "pageview").validate(), Err(MissingField::Url));
    assert_eq!(raw("site", "https://example.com/", "").validate(), Err(MissingField::EventName));
    assert_eq!(raw("", "", "").validate(), Err(MissingField::SiteId));
    assert_eq!(raw("site", "", "").validate(), Err(MissingField::Url));
    assert_eq!(MissingField::SiteId.message(), "site_id is required");
    assert_eq!(MissingField::Url.message(), "url is required");
    assert_eq!(MissingField::EventName.message(), "event name is required");
}

#[test]
fn first_forwarded_address() {
    assert_eq!(first_forwarded_for("203.0.113.45"), "203.0.113.45");
    assert_eq!(first_forwarded_for(" 203.0.113.45 , 10.0.0.1, 10.0.0.2"), "203.0.113.45");
    assert_eq!(first_forwarded_for("2001:db8::1,10.0.0.1"), "2001:db8::1");
    assert_eq!(first_forwarded_for(",10.0.0.1"), "");
    assert_eq!(first_forwarded_for(""), "");
    assert_eq!(first_forwarded_for("  \t "), "");
}
