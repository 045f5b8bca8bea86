use vstd::prelude::*;

verus! {

/// The settings that the service runs with.
#[derive(Debug, Clone)]
pub struct Config {
    pub server_port: u16,
    pub server_host: String,
    pub log_level: String,
    pub clickhouse_url: String,
    pub clickhouse_user: String,
    pub clickhouse_password: String,
    // GeoIP configuration
    pub enable_geolocation: bool,
    pub maxmind_account_id: Option<String>,
    pub maxmind_license_key: Option<String>,
    pub geoip_db_path: String,
    /// Seconds between two checks for a newer GeoIP database
    pub geoip_update_interval: u64,
    // Referrer and User Agent parsing configuration
    pub referrer_db_path: String,
    pub ua_regexes_path: String,
    pub data_retention_days: i32,
    // Billing configuration
    pub enable_billing: bool,
    // Monitoring configuration
    pub enable_monitoring: bool,
}

/// What is done about the store's data retention at start-up.
#[derive(Debug, Clone, Copy, PartialEq, Eq, Structural)]
pub enum RetentionAction {
    /// Remove the time-to-live from the events table.
    Remove,
    /// Set the time-to-live of the events table to this many days.
    Apply { days: i32 },
    /// Leave the table as it is: the setting is not valid.
    Keep,
}

impl Config {
    /// The retention action for the configured number of days: -1 switches
    /// retention off, a positive number sets it, anything else is not valid.
    pub fn retention_action(&self) -> (action: RetentionAction)
        ensures
            action == (if self.data_retention_days == -1 {
                RetentionAction::Remove
            } else if self.data_retention_days > 0 {
                RetentionAction::Apply { days: self.data_retention_days }
            } else {
                RetentionAction::Keep
            }),
    {
        if self.data_retention_days == -1 {
            RetentionAction::Remove
        } else if self.data_retention_days > 0 {
            RetentionAction::Apply { days: self.data_retention_days }
        } else {
            RetentionAction::Keep
        }
    }
}

} // verus!
