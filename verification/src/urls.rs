use vstd::prelude::*;

verus! {

/// What the logic reads of a parsed URL, as plain values.
#[derive(Debug, Clone)]
pub struct UrlParts {
    /// The URL written out again in its normal form
    pub text: String,
    pub scheme: String,
    /// The host as text, where the URL has one
    pub host: Option<String>,
    /// The host where it is a domain name (not an IP address)
    pub domain: Option<String>,
    pub path: String,
    /// The pairs of the query string, decoded, in their order
    pub query: Vec<(String, String)>,
}

/// The mathematical value of a `UrlParts`.
pub struct UrlModel {
    pub text: Seq<char>,
    pub scheme: Seq<char>,
    pub host: Option<Seq<char>>,
    pub domain: Option<Seq<char>>,
    pub path: Seq<char>,
    pub query: Seq<(Seq<char>, Seq<char>)>,
}

/// The text of an optional string.
pub open spec fn opt_text(s: Option<String>) -> Option<Seq<char>> {
    match s {
        Some(t) => Some(t@),
        None => None,
    }
}

/// The pairs of texts of a list of pairs of strings.
pub open spec fn pairs_text(pairs: Seq<(String, String)>) -> Seq<(Seq<char>, Seq<char>)> {
    Seq::new(pairs.len(), |i: int| (pairs[i].0@, pairs[i].1@))
}

/// The texts of a list of strings.
pub open spec fn texts(list: Seq<String>) -> Seq<Seq<char>> {
    Seq::new(list.len(), |i: int| list[i]@)
}

impl View for UrlParts {
    type V = UrlModel;

    open spec fn view(&self) -> UrlModel {
        UrlModel {
            text: self.text@,
            scheme: self.scheme@,
            host: opt_text(self.host),
            domain: opt_text(self.domain),
            path: self.path@,
            query: pairs_text(self.query@),
        }
    }
}

/// What `url::Url::parse` makes of a text: `None` where it is no URL, else the
/// URL's serialization, scheme, host, domain, path and decoded query pairs.
pub uninterp spec fn parsed_url_of(raw: Seq<char>) -> Option<UrlModel>;

/// The serialization of the URL that a text parses to, after `set_query(None)`
/// and `set_fragment(None)` of the `url` crate; `None` where the text is no URL.
pub uninterp spec fn url_without_query_of(raw: Seq<char>) -> Option<Seq<char>>;

/// The serialization of the URL that a text parses to, after
/// `query_pairs_mut().append_pair(key, value)` of the `url` crate; `None` where
/// the text is no URL.
pub uninterp spec fn url_with_pair_of(raw: Seq<char>, key: Seq<char>, value: Seq<char>) -> Option<
    Seq<char>,
>;

/// Parses a URL with `url::Url::parse` and reads off it, by the crate's
/// getters `as_str`, `scheme`, `host_str`, `domain`, `path` and `query_pairs`,
/// what the library works with. The result is a function of the text alone.
#[verifier::external_body]
pub(crate) fn parse_url(raw: &str) -> (r: Option<UrlParts>)
    ensures
        r is None <==> parsed_url_of(raw@) is None,
        r matches Some(parts) ==> parsed_url_of(raw@) == Some(parts@),
{
    match url::Url::parse(raw) {
        Ok(u) => Some(
            UrlParts {
                text: u.as_str().to_string(),
                scheme: u.scheme().to_string(),
                host: u.host_str().map(|h| h.to_string()),
                domain: u.domain().map(|d| d.to_string()),
                path: u.path().to_string(),
                query: u.query_pairs().map(|(k, v)| (k.into_owned(), v.into_owned())).collect(),
            },
        ),
        Err(_) => None,
    }
}

/// A text without a question mark and without a hash sign: a URL written
/// out without query string and fragment.
pub open spec fn has_no_query_or_fragment(text: Seq<char>) -> bool {
    forall|i: int| 0 <= i < text.len() ==> (#[trigger] text[i]) != '?' && text[i] != '#'
}

/// The URL without its query string and fragment: parsed by `url::Url::parse`,
/// stripped by `set_query(None)` and `set_fragment(None)`, written out again.
/// It fails exactly where parsing fails. What is written out holds no `?` and
/// no `#`: the crate writes these two only before a query string and a
/// fragment, and percent-encodes them everywhere else.
#[verifier::external_body]
pub(crate) fn without_query_and_fragment(raw: &str) -> (r: Option<String>)
    ensures
        r is None <==> parsed_url_of(raw@) is None,
        opt_text(r) == url_without_query_of(raw@),
        r matches Some(text) ==> has_no_query_or_fragment(text@),
{
    match url::Url::parse(raw) {
        Ok(mut u) => {
            u.set_query(None);
            u.set_fragment(None);
            Some(u.to_string())
        },
        Err(_) => None,
    }
}

/// The URL with one more pair at the end of its query string: parsed by
/// `url::Url::parse`, extended by `query_pairs_mut().append_pair`, written out
/// again. It fails exactly where parsing fails.
#[verifier::external_body]
pub(crate) fn with_query_pair(raw: &str, key: &str, value: &str) -> (r: Option<String>)
    ensures
        r is None <==> parsed_url_of(raw@) is None,
        opt_text(r) == url_with_pair_of(raw@, key@, value@),
{
    match url::Url::parse(raw) {
        Ok(mut u) => {
            u.query_pairs_mut().append_pair(key, value);
            Some(u.to_string())
        },
        Err(_) => None,
    }
}

/// The value of the last pair of a query whose key is `key`.
pub open spec fn last_value(query: Seq<(Seq<char>, Seq<char>)>, key: Seq<char>) -> Option<Seq<char>>
    decreases query.len(),
{
    if query.len() == 0 {
        None
    } else if query.last().0 == key {
        Some(query.last().1)
    } else {
        last_value(query.drop_last(), key)
    }
}

/// The value of the first pair of a query whose key is `key`; with `filled`,
/// pairs with an empty value are passed over.
pub open spec fn first_value(query: Seq<(Seq<char>, Seq<char>)>, key: Seq<char>, filled: bool) -> Option<
    Seq<char>,
>
    decreases query.len(),
{
    if query.len() == 0 {
        None
    } else if query[0].0 == key && (!filled || query[0].1.len() > 0) {
        Some(query[0].1)
    } else {
        first_value(query.drop_first(), key, filled)
    }
}

pub fn last_value_in(query: &Vec<(String, String)>, key: &str) -> (r: Option<String>)
    ensures
        opt_text(r) == last_value(pairs_text(query@), key@),
{
    let ghost q = pairs_text(query@);
    let mut i: usize = query.len();
    assert(q.take(i as int) == q);
    while i > 0
        invariant
            i <= query.len(),
            q == pairs_text(query@),
            last_value(q, key@) == last_value(q.take(i as int), key@),
        decreases i,
    {
        let pair = &query[i - 1];
        proof {
            assert(q.take(i as int).last() == (pair.0@, pair.1@));
            assert(q.take(i as int).drop_last() == q.take(i as int - 1));
        }
        if crate::text::same_text(pair.0.as_str(), key) {
            return Some(pair.1.clone());
        }
        i -= 1;
    }
    proof {
        assert(q.take(0).len() == 0);
    }
    None
}

pub fn first_value_in(query: &Vec<(String, String)>, key: &str, filled: bool) -> (r: Option<String>)
    ensures
        opt_text(r) == first_value(pairs_text(query@), key@, filled),
{
    let ghost q = pairs_text(query@);
    let mut i: usize = 0;
    assert(q.skip(0) == q);
    while i < query.len()
        invariant
            i <= query.len(),
            q == pairs_text(query@),
            first_value(q, key@, filled) == first_value(q.skip(i as int), key@, filled),
        decreases query.len() - i,
    {
        let pair = &query[i];
        proof {
            assert(q.skip(i as int)[0] == (pair.0@, pair.1@));
            assert(q.skip(i as int).drop_first() == q.skip(i as int + 1));
        }
        if crate::text::same_text(pair.0.as_str(), key) && (!filled || !pair.1.as_str().is_empty()) {
            return Some(pair.1.clone());
        }
        i += 1;
    }
    proof {
        assert(q.skip(query.len() as int).len() == 0);
    }
    None
}

} // verus!
