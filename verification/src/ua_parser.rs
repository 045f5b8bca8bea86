use crate::cache::{agent_cache_get, agent_cache_insert, agent_cache_new, agent_entries, AgentCache};
use crate::text::same_text;
use crate::urls::opt_text;
use uaparser::Parser;
use vstd::prelude::*;

verus! {

/// The compiled rule set of the `uaparser` crate, `uaparser::UserAgentParser`.
#[verifier::external_type_specification]
#[verifier::external_body]
pub struct ExUserAgentParser(uaparser::UserAgentParser);

/// The error of the `uaparser` crate, `uaparser::Error`.
#[verifier::external_type_specification]
#[verifier::external_body]
pub struct ExUserAgentParserError(uaparser::Error);

/// The user agent cache holds up to this many entries.
pub const UA_CACHE_CAPACITY: u64 = 5_000;

/// An entry of the user agent cache lives for an hour.
pub const UA_CACHE_TTL_SECS: u64 = 3600;

#[derive(Debug, Clone)]
pub struct ParsedUserAgent {
    pub browser: String,
    pub browser_version: Option<String>,
    pub os: String,
}

/// The mathematical value of a `ParsedUserAgent`: browser family, browser
/// major version, OS family.
pub type AgentModel = (Seq<char>, Option<Seq<char>>, Seq<char>);

impl View for ParsedUserAgent {
    type V = AgentModel;

    open spec fn view(&self) -> AgentModel {
        (self.browser@, opt_text(self.browser_version), self.os@)
    }
}

/// Why a rule set could not be used.
#[derive(Debug, Clone, Copy, PartialEq, Eq, Structural)]
pub enum RulesError {
    /// The rule set is not well-formed, or one of its patterns is not.
    Invalid,
}

/// What a compiled rule set holds: the bytes of the rules it was compiled from.
pub uninterp spec fn agent_rules(parser: uaparser::UserAgentParser) -> Seq<u8>;

/// What `uaparser::Parser::parse` reads off a user agent with the rule set
/// compiled from `rules`: the browser family, the browser's major version,
/// the OS family.
pub uninterp spec fn agent_parse_of(rules: Seq<u8>, user_agent: Seq<char>) -> (
    Seq<char>,
    Option<Seq<char>>,
    Seq<char>,
);

/// Whether `uaparser` accepts a rule set: whether it is well-formed YAML of the
/// expected shape and each of its patterns compiles.
pub uninterp spec fn rules_compile(rules: Seq<u8>) -> bool;

/// Compiles a rule set given as YAML, by `uaparser::UserAgentParser::builder()`
/// with Unicode support and device rules switched off and `build_from_bytes`.
/// Whether that succeeds depends on the bytes alone, and the parser that comes
/// of it holds these rules.
#[verifier::external_body]
fn build_parser(rules: &Vec<u8>) -> (r: Result<uaparser::UserAgentParser, uaparser::Error>)
    ensures
        r is Ok <==> rules_compile(rules@),
        r matches Ok(parser) ==> agent_rules(parser) == rules@,
{
    uaparser::UserAgentParser::builder().with_unicode_support(false).with_device(
        false,
    ).build_from_bytes(rules.as_slice())
}

/// Parses a user agent with `uaparser::Parser::parse` and picks the browser
/// family, the browser's major version and the OS family from the result,
/// which is a function of the rules that the parser holds and the text.
#[verifier::external_body]
fn agent_parse(parser: &uaparser::UserAgentParser, user_agent: &str) -> (r: (
    String,
    Option<String>,
    String,
))
    ensures
        (r.0@, opt_text(r.1), r.2@) == agent_parse_of(agent_rules(*parser), user_agent@),
{
    let client = parser.parse(user_agent);
    (
        client.user_agent.family.to_string(),
        client.user_agent.major.map(|v| v.to_string()),
        client.os.family.to_string(),
    )
}

/// A family as it is reported: the rule set names what no rule matches
/// "Other", which is reported as "unknown".
pub open spec fn family_or_unknown(family: Seq<char>) -> Seq<char> {
    if family == "Other"@ {
        "unknown"@
    } else {
        family
    }
}

/// What is reported of a user agent, given what the rule set reads off it.
pub open spec fn reported(raw: AgentModel) -> AgentModel {
    (family_or_unknown(raw.0), raw.1, family_or_unknown(raw.2))
}

fn report_family(family: String) -> (r: String)
    ensures
        r@ == family_or_unknown(family@),
{
    if same_text(family.as_str(), "Other") {
        "unknown".to_owned()
    } else {
        family
    }
}

/// The user agent classifier: a compiled rule set and a cache of its results.
pub struct UaClassifier {
    parser: uaparser::UserAgentParser,
    cache: AgentCache,
}

impl UaClassifier {
    /// The rules that the classifier was compiled from.
    pub closed spec fn rules(&self) -> Seq<u8> {
        agent_rules(self.parser)
    }

    /// What the rule set and this classifier report of a user agent.
    pub open spec fn report_of(&self, user_agent: Seq<char>) -> AgentModel {
        reported(agent_parse_of(self.rules(), user_agent))
    }

    /// The cache holds nothing but what the rule set gives.
    pub closed spec fn wf(&self) -> bool {
        forall|k: Seq<char>| #[trigger]
            agent_entries(self.cache).dom().contains(k) ==> agent_entries(self.cache)[k]
                == self.report_of(k)
    }
}

/// Compiles the rule set `rules`, given as the bytes of its YAML file, into a
/// classifier with an empty cache.
pub fn initialize(rules: &Vec<u8>) -> (r: Result<UaClassifier, RulesError>)
    ensures
        r is Ok <==> rules_compile(rules@),
        r matches Ok(classifier) ==> classifier.wf() && classifier.rules() == rules@,
        r matches Err(e) ==> e == RulesError::Invalid,
{
    match build_parser(rules) {
        Ok(parser) => Ok(
            UaClassifier { parser, cache: agent_cache_new(UA_CACHE_CAPACITY, UA_CACHE_TTL_SECS) },
        ),
        Err(_) => Err(RulesError::Invalid),
    }
}

/// Parse a user agent string and return browser, browser_version, and OS
/// information: what the rule set reads off it, whether or not the cache
/// holds it already.
pub fn parse_user_agent(classifier: &mut UaClassifier, user_agent: &str) -> (parsed: ParsedUserAgent)
    requires
        old(classifier).wf(),
    ensures
        final(classifier).wf(),
        final(classifier).rules() == old(classifier).rules(),
        parsed@ == old(classifier).report_of(user_agent@),
{
    let ghost before = agent_entries(classifier.cache);
    let cached = agent_cache_get(&mut classifier.cache, user_agent);
    proof {
        assert forall|k: Seq<char>| #[trigger]
            agent_entries(classifier.cache).dom().contains(k) implies agent_entries(
            classifier.cache,
        )[k] == classifier.report_of(k) by {
            assert(before.dom().contains(k));
        }
    }
    match cached {
        Some(hit) => {
            assert(before.dom().contains(user_agent@));
            return ParsedUserAgent { browser: hit.0, browser_version: hit.1, os: hit.2 };
        },
        None => {},
    }
    let raw = agent_parse(&classifier.parser, user_agent);
    let browser = report_family(raw.0);
    let browser_version = raw.1;
    let os = report_family(raw.2);
    let ghost held = agent_entries(classifier.cache);
    agent_cache_insert(
        &mut classifier.cache,
        user_agent.to_owned(),
        browser.clone(),
        browser_version.clone(),
        os.clone(),
    );
    proof {
        assert forall|k: Seq<char>| #[trigger]
            agent_entries(classifier.cache).dom().contains(k) implies agent_entries(
            classifier.cache,
        )[k] == classifier.report_of(k) by {
            let wanted = held.insert(user_agent@, (browser@, opt_text(browser_version), os@));
            assert(wanted.dom().contains(k));
            if k != user_agent@ {
                assert(held.dom().contains(k));
            }
        }
    }
    ParsedUserAgent { browser, browser_version, os }
}

} // verus!
