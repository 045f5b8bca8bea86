use betterlytics::bot_detection::{is_bot, BotDetector};
use betterlytics::config::{Config, RetentionAction};
use betterlytics::tracking::{cache_age_secs, is_unique_visit, CACHE_THRESHOLD_SECS};

fn config(days: i32) -> Config {
    Config {
        server_port: 3000,
        server_host: "127.0.0.1".to_string(),
        log_level: "info".to_string(),
        clickhouse_url: "http://localhost:8123".to_string(),
        clickhouse_user: "default".to_string(),
        clickhouse_password: "password".to_string(),
        enable_geolocation: false,
        maxmind_account_id: None,
        maxmind_license_key: None,
        geoip_db_path: "assets/geoip/GeoLite2-Country.mmdb".to_string(),
        geoip_update_interval: 24 * 60 * 60,
        referrer_db_path: "assets/snowplow_referers/referers-latest.json".to_string(),
        ua_regexes_path: "assets/user_agent_headers/regexes.yaml".to_string(),
        data_retention_days: days,
        enable_billing: false,
        enable_monitoring: false,
    }
}

#[test]
fn empty_user_agent_is_a_bot() {
    let detector = BotDetector::new();
    assert!(is_bot(&detector, ""));
}

#[test]
fn known_crawlers_are_bots() {
    let detector = BotDetector::new();
    assert!(is_bot(&detector, "Googlebot/2.1 (+http://www.google.com/bot.html)"));
    assert!(is_bot(&detector, "Mozilla/5.0 (compatible; Bingbot/2.0; +http://www.bing.com/bingbot.htm)"));
    assert!(is_bot(&detector, "DuckDuckBot/1.0; (+http://duckduckgo.com/duckduckbot.html)"));
}

#[test]
fn browsers_are_no_bots() {
    let detector = BotDetector::new();
    assert!(!is_bot(
        &detector,
        "Mozilla/5.0 (Windows NT 10.0; Win64; x64) AppleWebKit/537.36 (KHTML, like Gecko) Chrome/58.0.3029.110 Safari/537.36"
    ));
    assert!(!is_bot(
        &detector,
        "Mozilla/5.0 (iPhone; CPU iPhone OS 10_3_1 like Mac OS X) AppleWebKit/603.1.30 (KHTML, like Gecko) Version/10.0 Mobile/14E304 Safari/602.1"
    ));
}

#[test]
fn retention_of_minus_one_removes_the_policy() {
    assert_eq!(config(-1).retention_action(), RetentionAction::Remove);
}

#[test]
fn positive_retention_is_applied() {
    assert_eq!(config(365).retention_action(), RetentionAction::Apply { days: 365 });
    assert_eq!(config(1).retention_action(), RetentionAction::Apply { days: 1 });
    assert_eq!(config(i32::MAX).retention_action(), RetentionAction::Apply { days: i32::MAX });
}

#[test]
fn other_retention_is_not_valid() {
    assert_eq!(config(0).retention_action(), RetentionAction::Keep);
    assert_eq!(config(-2).retention_action(), RetentionAction::Keep);
    assert_eq!(config(i32::MIN).retention_action(), RetentionAction::Keep);
}

#[test]
fn visit_is_unique_after_the_threshold() {
    assert_eq!(CACHE_THRESHOLD_SECS, 35 * 60);
    assert!(is_unique_visit(None, 1_000, 0));
    assert!(!is_unique_visit(Some(1_000), 1_000, 0));
    assert!(!is_unique_visit(Some(1_000), 1_000 + 2_100, 0));
    assert!(is_unique_visit(Some(1_000), 1_000 + 2_100, 1));
    assert!(is_unique_visit(Some(1_000), 1_000 + 2_101, 0));
    assert!(!is_unique_visit(Some(2_000), 1_000, 5));
    assert!(is_unique_visit(Some(i64::MIN), i64::MAX, 0));
    assert!(!is_unique_visit(Some(i64::MAX), i64::MIN, 0));
    assert_eq!(cache_age_secs(true), 40 * 60);
    assert_eq!(cache_age_secs(false), 30 * 60);
}

#[test]
fn default_detectors_judge_alike() {
    let first = BotDetector::new();
    let second = BotDetector::new();
    for agent in [
        "",
        "Googlebot",
        "Googlebot-Image/1.0",
        "curl/8.4.0",
        "Opera/9.60 (Windows NT 6.0; U; en) Presto/2.1.1",
        "Mozilla/5.0 (X11; Linux x86_64) AppleWebKit/537.36 (KHTML, like Gecko) Chrome/78.0.3904.97 Safari/537.36 Chrome-Lighthouse",
        "Mozilla/5.0 (Macintosh; Intel Mac OS X 10_15_7) AppleWebKit/537.36 (KHTML, like Gecko) Chrome/95.0.4638.54 Safari/537.36",
    ] {
        assert_eq!(is_bot(&first, agent), is_bot(&second, agent));
    }
    assert!(is_bot(&first, "Googlebot"));
    assert!(is_bot(&first, "Googlebot-Image/1.0"));
    assert!(!is_bot(&first, "Opera/9.60 (Windows NT 6.0; U; en) Presto/2.1.1"));
}
