use crate::urls::{last_value, last_value_in, opt_text, parse_url, parsed_url_of};
use vstd::prelude::*;

verus! {

/// Campaign tracking information
#[derive(Debug, Clone)]
pub struct CampaignInfo {
    pub utm_source: Option<String>,
    pub utm_medium: Option<String>,
    pub utm_campaign: Option<String>,
    pub utm_term: Option<String>,
    pub utm_content: Option<String>,
}

impl Default for CampaignInfo {
    fn default() -> (info: Self)
        ensures
            info.utm_source is None,
            info.utm_medium is None,
            info.utm_campaign is None,
            info.utm_term is None,
            info.utm_content is None,
    {
        CampaignInfo {
            utm_source: None,
            utm_medium: None,
            utm_campaign: None,
            utm_term: None,
            utm_content: None,
        }
    }
}

impl CampaignInfo {
    /// The campaign parameters that a query string carries: for each of the
    /// five names, the value of the last pair under that name.
    pub open spec fn carries(&self, query: Seq<(Seq<char>, Seq<char>)>) -> bool {
        &&& opt_text(self.utm_source) == last_value(query, "utm_source"@)
        &&& opt_text(self.utm_medium) == last_value(query, "utm_medium"@)
        &&& opt_text(self.utm_campaign) == last_value(query, "utm_campaign"@)
        &&& opt_text(self.utm_term) == last_value(query, "utm_term"@)
        &&& opt_text(self.utm_content) == last_value(query, "utm_content"@)
    }

    /// No parameter is present.
    pub open spec fn is_empty(&self) -> bool {
        &&& self.utm_source is None
        &&& self.utm_medium is None
        &&& self.utm_campaign is None
        &&& self.utm_term is None
        &&& self.utm_content is None
    }

    /// The campaign parameters among the decoded pairs of a query string.
    pub fn from_query(query: &Vec<(String, String)>) -> (info: Self)
        ensures
            info.carries(crate::urls::pairs_text(query@)),
    {
        CampaignInfo {
            utm_source: last_value_in(query, "utm_source"),
            utm_medium: last_value_in(query, "utm_medium"),
            utm_campaign: last_value_in(query, "utm_campaign"),
            utm_term: last_value_in(query, "utm_term"),
            utm_content: last_value_in(query, "utm_content"),
        }
    }
}

/// Parse campaign parameters from a URL: the five UTM parameters of its query
/// string, and nothing where the text is no URL.
pub fn parse_campaign_params(url_str: &str) -> (info: CampaignInfo)
    ensures
        match parsed_url_of(url_str@) {
            Some(url) => info.carries(url.query),
            None => info.is_empty(),
        },
{
    match parse_url(url_str) {
        Some(parts) => CampaignInfo::from_query(&parts.query),
        None => CampaignInfo::default(),
    }
}

} // verus!
