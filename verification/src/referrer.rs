use crate::text::{position_of, same_text};
use crate::urls::{
    first_value, first_value_in, has_no_query_or_fragment, opt_text, pairs_text, parse_url,
    parsed_url_of, texts, url_with_pair_of, url_without_query_of, with_query_pair,
    without_query_and_fragment, UrlModel, UrlParts,
};
use vstd::prelude::*;
use vstd::string::*;

verus! {

/// Referrer source categories
#[derive(Debug, Clone, Copy, PartialEq, Eq, Structural)]
pub enum ReferrerSource {
    Direct,
    Search,
    Social,
    Email,
    Internal,
    Other,
}

impl Default for ReferrerSource {
    fn default() -> (source: Self)
        ensures
            source == ReferrerSource::Direct,
    {
        Self::Direct
    }
}

impl ReferrerSource {
    /// The name under which a category is stored.
    pub open spec fn name(self) -> Seq<char> {
        match self {
            ReferrerSource::Direct => "direct"@,
            ReferrerSource::Search => "search"@,
            ReferrerSource::Social => "social"@,
            ReferrerSource::Email => "email"@,
            ReferrerSource::Internal => "internal"@,
            ReferrerSource::Other => "other"@,
        }
    }

    /// The category that a medium of the referrer database stands for; no
    /// medium at all stands for a direct visit.
    pub open spec fn of_medium(medium: Option<Seq<char>>) -> ReferrerSource {
        match medium {
            None => ReferrerSource::Direct,
            Some(m) => if m == "search"@ {
                ReferrerSource::Search
            } else if m == "social"@ {
                ReferrerSource::Social
            } else if m == "internal"@ {
                ReferrerSource::Internal
            } else if m == "email"@ {
                ReferrerSource::Email
            } else {
                ReferrerSource::Other
            },
        }
    }

    /// Convert from a medium of the referrer database to our ReferrerSource
    pub fn from_referrer_medium(medium: Option<&str>) -> (source: Self)
        ensures
            source == Self::of_medium(
                match medium {
                    Some(m) => Some(m@),
                    None => None,
                },
            ),
    {
        match medium {
            None => ReferrerSource::Direct,
            Some(m) => {
                if same_text(m, "search") {
                    ReferrerSource::Search
                } else if same_text(m, "social") {
                    ReferrerSource::Social
                } else if same_text(m, "internal") {
                    ReferrerSource::Internal
                } else if same_text(m, "email") {
                    ReferrerSource::Email
                } else {
                    ReferrerSource::Other
                }
            },
        }
    }

    /// Convert the enum to a string representation
    pub fn as_str(&self) -> (s: &'static str)
        ensures
            s@ == self.name(),
    {
        match self {
            ReferrerSource::Direct => "direct",
            ReferrerSource::Search => "search",
            ReferrerSource::Social => "social",
            ReferrerSource::Email => "email",
            ReferrerSource::Internal => "internal",
            ReferrerSource::Other => "other",
        }
    }
}

/// Parsed referrer information
#[derive(Debug, Clone)]
pub struct ReferrerInfo {
    /// Sanitized referrer URL
    pub url: Option<String>,
    /// Source category (direct, search, social, etc.)
    pub source: ReferrerSource,
    /// Source name (e.g., "Google", "Facebook", etc.)
    pub source_name: Option<String>,
    /// Search term (if available from search engines)
    pub search_term: Option<String>,
}

impl Default for ReferrerInfo {
    fn default() -> (info: Self)
        ensures
            info.url is None,
            info.source == ReferrerSource::Direct,
            info.source_name is None,
            info.search_term is None,
    {
        ReferrerInfo { url: None, source: ReferrerSource::Direct, source_name: None, search_term: None }
    }
}

/// The referrer database of the `refparser` crate, `refparser::RefDb`.
#[verifier::external_type_specification]
#[verifier::external_body]
pub struct ExRefDb(refparser::RefDb);

/// What the referrer database knows of one domain.
#[derive(Debug, Clone)]
pub struct RefererMatch {
    /// The name of the source, such as "Google"
    pub source: String,
    /// The medium: "search", "social", "email" and the like
    pub medium: String,
    /// The names of the query parameters that carry a search term
    pub params: Vec<String>,
}

/// The mathematical value of a `RefererMatch`.
pub struct RefererModel {
    pub source: Seq<char>,
    pub medium: Seq<char>,
    pub params: Seq<Seq<char>>,
}

impl View for RefererMatch {
    type V = RefererModel;

    open spec fn view(&self) -> RefererModel {
        RefererModel { source: self.source@, medium: self.medium@, params: texts(self.params@) }
    }
}

/// What a referrer database holds: for each domain, what it knows of it.
pub uninterp spec fn refdb_entries(db: refparser::RefDb) -> Map<Seq<char>, RefererModel>;

/// The text between the first and the second slash of a path that has two
/// slashes: its first segment.
pub open spec fn first_segment(path: Seq<char>) -> Option<Seq<char>> {
    match position_of(path, '/') {
        Some(i) => {
            let rest = path.skip(i + 1);
            match position_of(rest, '/') {
                Some(j) => Some(rest.take(j)),
                None => None,
            }
        },
        None => None,
    }
}

/// The domains under which a URL is looked for, in this order: host and path
/// together, the host alone and, where the path has two slashes, the host
/// with the first segment of the path.
pub open spec fn lookup_keys(host: Seq<char>, path: Seq<char>) -> Seq<Seq<char>> {
    let plain = seq![host + path, host];
    match first_segment(path) {
        Some(segment) => plain.push(host + seq!['/'] + segment),
        None => plain,
    }
}

/// What is known of the first of `keys` that the database knows.
pub open spec fn first_known(entries: Map<Seq<char>, RefererModel>, keys: Seq<Seq<char>>) -> Option<
    RefererModel,
>
    decreases keys.len(),
{
    if keys.len() == 0 {
        None
    } else if entries.contains_key(keys[0]) {
        Some(entries[keys[0]])
    } else {
        first_known(entries, keys.drop_first())
    }
}

/// What `refparser::RefDb::lookup` finds for a URL in a database with the
/// given entries: nothing for a URL whose scheme is neither `http` nor
/// `https` or that has no host; else the first entry found under the URL's
/// lookup keys.
pub open spec fn referer_found(entries: Map<Seq<char>, RefererModel>, url: UrlModel) -> Option<
    RefererModel,
> {
    if (url.scheme == "http"@ || url.scheme == "https"@) && url.host is Some {
        first_known(entries, lookup_keys(url.host->0, url.path))
    } else {
        None
    }
}

/// What the database finds for the URL that a text parses to; nothing where
/// the text is no URL.
pub open spec fn referer_lookup_of(entries: Map<Seq<char>, RefererModel>, raw: Seq<char>) -> Option<
    RefererModel,
> {
    match parsed_url_of(raw) {
        Some(url) => referer_found(entries, url),
        None => None,
    }
}

/// An empty database, by `refparser::RefDb::default()`.
#[verifier::external_body]
fn refdb_new() -> (db: refparser::RefDb)
    ensures
        (refdb_entries(db) == Map::<Seq<char>, RefererModel>::empty()),
{
    refparser::RefDb::default()
}

/// Puts one entry into the database's public map `data`; an entry that was
/// there under the same domain is replaced.
#[verifier::external_body]
fn refdb_insert(db: &mut refparser::RefDb, domain: String, known: RefererMatch)
    ensures
        refdb_entries(*final(db)) == refdb_entries(*old(db)).insert(domain@, known@),
{
    db.data.insert(
        domain,
        refparser::Referer { source: known.source, medium: known.medium, params: known.params },
    );
}

/// Looks a URL up with `refparser::RefDb::lookup`, after parsing it with
/// `url::Url::parse`. The lookup wants the scheme `http` or `https` and a
/// host, and takes the first entry that the database holds under host and
/// path together, under the host, or under the host with the first segment of
/// the path; a text that is no URL finds nothing.
#[verifier::external_body]
fn refdb_lookup(db: &refparser::RefDb, raw: &str) -> (r: Option<RefererMatch>)
    ensures
        r is None <==> referer_lookup_of(refdb_entries(*db), raw@) is None,
        r matches Some(m) ==> referer_lookup_of(refdb_entries(*db), raw@) == Some(m@),
{
    match url::Url::parse(raw) {
        Ok(u) => db.lookup(&u).map(
            |known|
                RefererMatch {
                    source: known.source.clone(),
                    medium: known.medium.clone(),
                    params: known.params.clone(),
                },
        ),
        Err(_) => None,
    }
}

/// One line of a referrer database: a domain and what is known of it.
#[derive(Debug, Clone)]
pub struct ReferrerEntry {
    pub domain: String,
    pub known: RefererMatch,
}

/// The entries of a database into which `list` was put, first to last.
pub open spec fn entries_of(list: Seq<ReferrerEntry>) -> Map<Seq<char>, RefererModel>
    decreases list.len(),
{
    if list.len() == 0 {
        Map::empty()
    } else {
        entries_of(list.drop_last()).insert(list.last().domain@, list.last().known@)
    }
}

/// The database of known referrers: search engines, social networks and
/// e-mail providers by domain.
pub struct ReferrerDatabase {
    db: refparser::RefDb,
}

impl ReferrerDatabase {
    /// What the database knows, by domain.
    pub closed spec fn entries(&self) -> Map<Seq<char>, RefererModel> {
        refdb_entries(self.db)
    }

    /// A database that knows no domain.
    pub fn new() -> (db: Self)
        ensures
            (db.entries() == Map::<Seq<char>, RefererModel>::empty()),
    {
        ReferrerDatabase { db: refdb_new() }
    }

    /// Adds one entry; it replaces what was known of the same domain.
    pub fn insert(&mut self, entry: ReferrerEntry)
        ensures
            final(self).entries() == old(self).entries().insert(entry.domain@, entry.known@),
    {
        refdb_insert(&mut self.db, entry.domain, entry.known);
    }

    /// The database of the given entries; of two entries for one domain the
    /// later one counts.
    pub fn from_entries(list: Vec<ReferrerEntry>) -> (db: Self)
        ensures
            db.entries() == entries_of(list@),
    {
        let mut db = Self::new();
        let ghost all = list@;
        for entry in it: list
            invariant
                it.seq() == all,
                db.entries() == entries_of(all.take(it.index())),
        {
            proof {
                assert(all.take(it.index() + 1).drop_last() == all.take(it.index()));
            }
            db.insert(entry);
        }
        proof {
            assert(all.take(all.len() as int) == all);
        }
        db
    }

    /// What the database knows of the referrer URL `raw`.
    pub fn lookup(&self, raw: &str) -> (r: Option<RefererMatch>)
        ensures
            r is None <==> referer_lookup_of(self.entries(), raw@) is None,
            r matches Some(m) ==> referer_lookup_of(self.entries(), raw@) == Some(m@),
    {
        refdb_lookup(&self.db, raw)
    }
}

/// The mathematical value of a `ReferrerInfo`.
pub struct ReferrerInfoModel {
    pub url: Option<Seq<char>>,
    pub source: ReferrerSource,
    pub source_name: Option<Seq<char>>,
    pub search_term: Option<Seq<char>>,
}

impl View for ReferrerInfo {
    type V = ReferrerInfoModel;

    open spec fn view(&self) -> ReferrerInfoModel {
        ReferrerInfoModel {
            url: opt_text(self.url),
            source: self.source,
            source_name: opt_text(self.source_name),
            search_term: opt_text(self.search_term),
        }
    }
}

/// The search term of a query: the parameter names are tried in their order,
/// and the first one that has a pair with a value gives the term, from the
/// first such pair.
pub open spec fn search_term_of(
    query: Seq<(Seq<char>, Seq<char>)>,
    params: Seq<Seq<char>>,
) -> Option<Seq<char>>
    decreases params.len(),
{
    if params.len() == 0 {
        None
    } else {
        match first_value(query, params[0], true) {
            Some(v) => Some(v),
            None => search_term_of(query, params.drop_first()),
        }
    }
}

/// The URL `text` with the search parameters of `query` put behind it: for
/// each name in `params`, in their order, the first pair under that name.
pub open spec fn keep_params(
    text: Seq<char>,
    query: Seq<(Seq<char>, Seq<char>)>,
    params: Seq<Seq<char>>,
) -> Seq<char>
    decreases params.len(),
{
    if params.len() == 0 {
        text
    } else {
        let next = match first_value(query, params[0], false) {
            Some(v) => match url_with_pair_of(text, params[0], v) {
                Some(t) => t,
                None => text,
            },
            None => text,
        };
        keep_params(next, query, params.drop_first())
    }
}

/// Scheme, host and path of a URL put together again, without anything else.
pub open spec fn bare_text(url: UrlModel) -> Seq<char> {
    url.scheme + "://"@ + (match url.host {
        Some(h) => h,
        None => Seq::empty(),
    }) + url.path
}

/// The referrer URL as it is stored. Of a search engine's URL only scheme,
/// host, path and the search parameters stay; of any other URL the query
/// string and the fragment go.
pub open spec fn sanitized_of(
    raw: Seq<char>,
    url: UrlModel,
    is_search_engine: bool,
    params: Seq<Seq<char>>,
) -> Seq<char> {
    if is_search_engine && params.len() > 0 {
        let base = match parsed_url_of(bare_text(url)) {
            Some(b) => b.text,
            None => url.text,
        };
        keep_params(base, url.query, params)
    } else {
        match url_without_query_of(raw) {
            Some(t) => t,
            None => url.text,
        }
    }
}

/// The category of a referrer: that of its medium where the database knows
/// it; else internal where its host is the landing page's host, else other.
pub open spec fn source_of(
    found: Option<RefererModel>,
    referrer_host: Option<Seq<char>>,
    current_host: Option<Seq<char>>,
) -> ReferrerSource {
    match found {
        Some(known) => ReferrerSource::of_medium(
            if known.medium.len() == 0 {
                None
            } else {
                Some(known.medium)
            },
        ),
        None => match (referrer_host, current_host) {
            (Some(r), Some(c)) => if r == c {
                ReferrerSource::Internal
            } else {
                ReferrerSource::Other
            },
            _ => ReferrerSource::Other,
        },
    }
}

/// The host of the URL that a text parses to.
pub open spec fn host_of(raw: Option<Seq<char>>) -> Option<Seq<char>> {
    match raw {
        Some(text) => match parsed_url_of(text) {
            Some(url) => url.host,
            None => None,
        },
        None => None,
    }
}

/// What a referrer that parses to `url` is classified as, given what the
/// database found for it.
pub open spec fn classified(
    raw: Seq<char>,
    url: UrlModel,
    found: Option<RefererModel>,
    current_host: Option<Seq<char>>,
) -> ReferrerInfoModel {
    let is_search = found is Some && found->0.medium == "search"@;
    let params = match found {
        Some(known) => known.params,
        None => Seq::empty(),
    };
    ReferrerInfoModel {
        url: Some(sanitized_of(raw, url, is_search, params)),
        source: source_of(found, url.host, current_host),
        source_name: match found {
            Some(known) => Some(known.source),
            None => None,
        },
        search_term: if is_search {
            search_term_of(url.query, params)
        } else {
            None
        },
    }
}

/// What a visit is classified as, by its referrer and the landing URL.
pub open spec fn referrer_info_of(
    entries: Map<Seq<char>, RefererModel>,
    referrer: Option<Seq<char>>,
    current_url: Option<Seq<char>>,
) -> ReferrerInfoModel {
    if referrer is None || referrer->0.len() == 0 {
        ReferrerInfoModel {
            url: None,
            source: ReferrerSource::Direct,
            source_name: None,
            search_term: None,
        }
    } else {
        let raw = referrer->0;
        match parsed_url_of(raw) {
            None => ReferrerInfoModel {
                url: Some(raw),
                source: ReferrerSource::Other,
                source_name: None,
                search_term: None,
            },
            Some(url) => classified(raw, url, referer_lookup_of(entries, raw), host_of(current_url)),
        }
    }
}

/// Check if the referrer is internal to the current host
pub fn is_internal_referrer(referrer_host: &str, current_host: &String) -> (r: bool)
    ensures
        r == (referrer_host@ == current_host@),
{
    same_text(referrer_host, current_host.as_str())
}

/// Extract search term from the decoded query pairs using parameter names
pub fn extract_search_term(query: &Vec<(String, String)>, param_names: &Vec<String>) -> (r: Option<
    String,
>)
    ensures
        opt_text(r) == search_term_of(pairs_text(query@), texts(param_names@)),
{
    let ghost q = pairs_text(query@);
    let ghost names = texts(param_names@);
    let mut i: usize = 0;
    assert(names.skip(0) == names);
    while i < param_names.len()
        invariant
            i <= param_names.len(),
            q == pairs_text(query@),
            names == texts(param_names@),
            search_term_of(q, names) == search_term_of(q, names.skip(i as int)),
        decreases param_names.len() - i,
    {
        proof {
            assert(names.skip(i as int)[0] == param_names@[i as int]@);
            assert(names.skip(i as int).drop_first() == names.skip(i as int + 1));
        }
        match first_value_in(query, param_names[i].as_str(), true) {
            Some(v) => {
                return Some(v);
            },
            None => {},
        }
        i += 1;
    }
    proof {
        assert(names.skip(param_names.len() as int).len() == 0);
    }
    None
}

/// Sanitize a referrer URL for privacy compliance
/// - For search engines: keeps only search query parameters
/// - For all other sites: strips all query parameters
fn sanitize_referrer_url(
    raw: &str,
    referrer_url: &UrlParts,
    is_search_engine: bool,
    search_params: &Vec<String>,
) -> (clean: String)
    requires
        parsed_url_of(raw@) == Some(referrer_url@),
    ensures
        clean@ == sanitized_of(raw@, referrer_url@, is_search_engine, texts(search_params@)),
        !(is_search_engine && search_params.len() > 0) ==> has_no_query_or_fragment(clean@),
{
    if is_search_engine && search_params.len() > 0 {
        let mut bare = referrer_url.scheme.clone();
        bare.append("://");
        match &referrer_url.host {
            Some(h) => {
                bare.append(h.as_str());
            },
            None => {
                assert(bare@ + Seq::<char>::empty() == bare@);
            },
        }
        bare.append(referrer_url.path.as_str());
        assert(bare@ == bare_text(referrer_url@));
        let mut clean: String = match parse_url(bare.as_str()) {
            Some(b) => b.text,
            None => referrer_url.text.clone(),
        };
        let ghost base = clean@;
        let ghost q = pairs_text(referrer_url.query@);
        let ghost names = texts(search_params@);
        let mut i: usize = 0;
        assert(names.skip(0) == names);
        while i < search_params.len()
            invariant
                i <= search_params.len(),
                q == pairs_text(referrer_url.query@),
                names == texts(search_params@),
                keep_params(base, q, names) == keep_params(clean@, q, names.skip(i as int)),
            decreases search_params.len() - i,
        {
            proof {
                assert(names.skip(i as int)[0] == search_params@[i as int]@);
                assert(names.skip(i as int).drop_first() == names.skip(i as int + 1));
            }
            let param = search_params[i].as_str();
            match first_value_in(&referrer_url.query, param, false) {
                Some(value) => {
                    match with_query_pair(clean.as_str(), param, value.as_str()) {
                        Some(next) => {
                            clean = next;
                        },
                        None => {},
                    }
                },
                None => {},
            }
            i += 1;
        }
        proof {
            assert(names.skip(search_params.len() as int).len() == 0);
        }
        clean
    } else {
        match without_query_and_fragment(raw) {
            Some(clean) => clean,
            None => referrer_url.text.clone(),
        }
    }
}

/// Whether the search parameters of a referrer are kept when it is stored:
/// they are where the database knows the referrer as a search engine with
/// names of search parameters.
pub open spec fn keeps_search_parameters(entries: Map<Seq<char>, RefererModel>, raw: Seq<char>) -> bool {
    referer_lookup_of(entries, raw) matches Some(known) && known.medium == "search"@
        && known.params.len() > 0
}

/// Parse a referrer URL and extract useful information.
///
/// No referrer, or an empty one, is a direct visit with no URL stored. A
/// referrer that is no URL is stored as it came, under "other". Any other
/// referrer is classified by the database and stored sanitized: but for the
/// search parameters of a search engine, the URL stored has no query string
/// and no fragment.
pub fn parse_referrer(db: &ReferrerDatabase, referrer: Option<&str>, current_url: Option<&str>) -> (info:
    ReferrerInfo)
    ensures
        info@ == referrer_info_of(
            db.entries(),
            match referrer {
                Some(r) => Some(r@),
                None => None,
            },
            match current_url {
                Some(c) => Some(c@),
                None => None,
            },
        ),
        (referrer is Some && referrer->0@.len() > 0 && parsed_url_of(referrer->0@) is Some
            && !keeps_search_parameters(db.entries(), referrer->0@)) ==> (info.url is Some
            && has_no_query_or_fragment(info.url->0@)),
{
    let current_host: Option<String> = match current_url {
        Some(c) => match parse_url(c) {
            Some(parts) => parts.host,
            None => None,
        },
        None => None,
    };
    let referrer_str: &str = match referrer {
        Some(r) => r,
        None => {
            return ReferrerInfo::default();
        },
    };
    if referrer_str.is_empty() {
        return ReferrerInfo::default();
    }
    let referrer_url = match parse_url(referrer_str) {
        Some(parts) => parts,
        None => {
            return ReferrerInfo {
                url: Some(referrer_str.to_owned()),
                source: ReferrerSource::Other,
                source_name: None,
                search_term: None,
            };
        },
    };
    let found = db.lookup(referrer_str);
    match found {
        Some(known) => {
            let source = if known.medium.as_str().is_empty() {
                ReferrerSource::from_referrer_medium(None)
            } else {
                ReferrerSource::from_referrer_medium(Some(known.medium.as_str()))
            };
            let is_search = same_text(known.medium.as_str(), "search");
            let search_term = if is_search {
                extract_search_term(&referrer_url.query, &known.params)
            } else {
                None
            };
            let clean = sanitize_referrer_url(referrer_str, &referrer_url, is_search, &known.params);
            ReferrerInfo {
                url: Some(clean),
                source,
                source_name: Some(known.source),
                search_term,
            }
        },
        None => {
            let source = match (&referrer_url.host, &current_host) {
                (Some(r), Some(c)) => if is_internal_referrer(r.as_str(), c) {
                    ReferrerSource::Internal
                } else {
                    ReferrerSource::Other
                },
                _ => ReferrerSource::Other,
            };
            let empty: Vec<String> = Vec::new();
            let clean = sanitize_referrer_url(referrer_str, &referrer_url, false, &empty);
            ReferrerInfo { url: Some(clean), source, source_name: None, search_term: None }
        },
    }
}

/// A visit without a referrer, or with an empty one, is a direct visit, and no
/// URL is stored for it, whatever the database and the landing page.
pub proof fn law_no_referrer_is_direct(
    entries: Map<Seq<char>, RefererModel>,
    current_url: Option<Seq<char>>,
)
    ensures
        referrer_info_of(entries, None, current_url) == (ReferrerInfoModel {
            url: None,
            source: ReferrerSource::Direct,
            source_name: None,
            search_term: None,
        }),
        referrer_info_of(entries, Some(Seq::empty()), current_url) == (ReferrerInfoModel {
            url: None,
            source: ReferrerSource::Direct,
            source_name: None,
            search_term: None,
        }),
{
}

} // verus!
