use vstd::prelude::*;

verus! {

/// The detector of the `isbot` crate, `isbot::Bots`.
#[verifier::external_type_specification]
#[verifier::external_body]
pub struct ExBots(isbot::Bots);

/// What a detector holds: its set of patterns.
pub uninterp spec fn bot_patterns(detector: isbot::Bots) -> Set<Seq<char>>;

/// What `isbot::Bots::is_bot` says of a user agent, for a detector with the
/// given patterns.
pub uninterp spec fn bot_verdict_of(patterns: Set<Seq<char>>, user_agent: Seq<char>) -> bool;

/// What `isbot::Bots::is_bot` says of a user agent for the detector that
/// `isbot::Bots::default()` makes: the verdict of the crate's own list of
/// patterns.
pub uninterp spec fn default_bot_verdict_of(user_agent: Seq<char>) -> bool;

/// The detector with the crate's own list of bot patterns, by
/// `isbot::Bots::default()`. Each such detector is compiled from the same
/// list, so it judges every user agent as any other of them does.
#[verifier::external_body]
fn default_bots() -> (detector: isbot::Bots)
    ensures
        (forall|user_agent: Seq<char>| #[trigger]
            bot_verdict_of(bot_patterns(detector), user_agent) == default_bot_verdict_of(
                user_agent,
            )),
{
    isbot::Bots::default()
}

/// `isbot::Bots::is_bot`: whether the user agent matches one of the
/// detector's patterns, which depends on the patterns and the text alone.
#[verifier::external_body]
fn bots_match(detector: &isbot::Bots, user_agent: &str) -> (r: bool)
    ensures
        r == bot_verdict_of(bot_patterns(*detector), user_agent@),
{
    detector.is_bot(user_agent)
}

/// The bot filter: a detector of known bots and crawlers.
pub struct BotDetector {
    bots: isbot::Bots,
}

impl BotDetector {
    /// The detector's patterns.
    pub closed spec fn patterns(&self) -> Set<Seq<char>> {
        bot_patterns(self.bots)
    }

    /// What counts as automated traffic: a missing user agent, and one that
    /// the detector knows.
    pub open spec fn flags(&self, user_agent: Seq<char>) -> bool {
        user_agent.len() == 0 || bot_verdict_of(self.patterns(), user_agent)
    }

    /// What the default list of bot patterns counts as automated traffic: a
    /// missing user agent, and one that the list knows.
    pub open spec fn default_flags(user_agent: Seq<char>) -> bool {
        user_agent.len() == 0 || default_bot_verdict_of(user_agent)
    }

    /// A filter with the default list of bot patterns: it flags a user agent
    /// exactly where that list does.
    pub fn new() -> (detector: Self)
        ensures
            forall|user_agent: Seq<char>| #[trigger]
                detector.flags(user_agent) == Self::default_flags(user_agent),
    {
        BotDetector { bots: default_bots() }
    }
}

/// Whether an event with this user agent is automated traffic.
pub fn is_bot(detector: &BotDetector, user_agent: &str) -> (r: bool)
    ensures
        r == detector.flags(user_agent@),
{
    if user_agent.is_empty() {
        return true;
    }
    bots_match(&detector.bots, user_agent)
}

} // verus!
