pub mod analytics;
pub mod bot_detection;
pub mod cache;
pub mod campaign;
pub mod config;
pub mod db;
pub mod fingerprint;
pub mod geoip;
pub mod geoip_updater;
pub mod processing;
pub mod referrer;
pub mod session;
pub mod text;
pub mod time;
pub mod tracking;
pub mod ua_parser;
pub mod urls;
