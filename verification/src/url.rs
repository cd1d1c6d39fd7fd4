//! The address of a request. Parsing, normalising and percent-encoding are
//! done by the `url` crate behind `reqwest::Url`; the library keeps the parts
//! of the parsed URL that it signs and sends.

use crate::text::text_pairs;
use vstd::prelude::*;
use vstd::string::StringExecFns;
use vstd::utf8::encode_utf8;

verus! {

/// The parts of a parsed URL, as text.
pub ghost struct UrlParts {
    /// The whole URL as the parser writes it.
    pub href: Seq<char>,
    /// The path.
    pub path: Seq<char>,
    /// What follows `?`, where the URL has a query.
    pub query: Option<Seq<char>>,
}

/// A parsed absolute URL.
#[derive(Debug, PartialEq, Eq)]
pub struct RequestUrl {
    href: String,
    path: String,
    query: Option<String>,
}

impl View for RequestUrl {
    type V = UrlParts;

    closed spec fn view(&self) -> UrlParts {
        UrlParts {
            href: self.href@,
            path: self.path@,
            query: match self.query {
                Some(q) => Some(q@),
                None => None,
            },
        }
    }
}

/// The most bytes of text and query parameters that are handed to the
/// parser together. A URL is at most `u32::MAX` bytes long, and a byte of
/// input gives at most a few bytes of URL.
pub const MAX_URL_INPUT: usize = 0x100_0000;

/// The bytes that `pairs` add to a query at the least: those of each name
/// and value, and two for the signs that set them apart.
pub open spec fn pairs_len(pairs: Seq<(Seq<char>, Seq<char>)>) -> nat
    decreases pairs.len(),
{
    if pairs.len() == 0 {
        0
    } else {
        pairs_len(pairs.drop_last()) + encode_utf8(pairs.last().0).len() + encode_utf8(
            pairs.last().1,
        ).len() + 2
    }
}

/// The more pairs, the more bytes.
pub proof fn lemma_pairs_len_grows(pairs: Seq<(Seq<char>, Seq<char>)>, n: int)
    requires
        0 <= n <= pairs.len(),
    ensures
        pairs_len(pairs.take(n)) <= pairs_len(pairs),
    decreases pairs.len() - n,
{
    if n == pairs.len() {
        assert(pairs.take(n) =~= pairs);
    } else {
        assert(pairs.take(n + 1).drop_last() =~= pairs.take(n));
        lemma_pairs_len_grows(pairs, n + 1);
    }
}

/// What `reqwest::Url::parse` makes of `input`: the parts of the URL, or
/// `None` where `input` is not an absolute URL.
pub uninterp spec fn parsed_url(input: Seq<char>) -> Option<UrlParts>;

/// What `reqwest::Url::parse_with_params` makes of `input` and `params`: the
/// parts of the URL with the pairs appended to its query in their order, or
/// `None` where `input` is not an absolute URL.
pub uninterp spec fn parsed_url_with_params(
    input: Seq<char>,
    params: Seq<(Seq<char>, Seq<char>)>,
) -> Option<UrlParts>;

/// Path and query as they are signed: the path, and `?` with the query after
/// it where there is one.
pub open spec fn path_and_query(url: UrlParts) -> Seq<char> {
    match url.query {
        Some(q) => url.path + seq!['?'] + q,
        None => url.path,
    }
}

/// Trusted: `reqwest::Url::parse`, and `as_str`, `path` and `query` to copy
/// the result out.
///
/// The contract names the outcome as a function of the input text.
#[verifier::external_body]
pub(crate) fn parse_url(input: &str) -> (url: Option<RequestUrl>)
    ensures
        match url {
            Some(u) => parsed_url(input@) == Some(u@),
            None => parsed_url(input@) is None,
        },
{
    match reqwest::Url::parse(input) {
        Ok(url) => Some(RequestUrl {
            href: url.as_str().to_string(),
            path: url.path().to_string(),
            query: url.query().map(|q| q.to_string()),
        }),
        Err(_) => None,
    }
}

/// Trusted: `reqwest::Url::parse_with_params`, and `as_str`, `path` and
/// `query` to copy the result out.
///
/// The contract names the outcome as a function of the input text and of the
/// pairs in their order. The outside function appends the pairs through
/// `query_pairs_mut`, which panics where the URL grows past `u32::MAX`
/// bytes; inputs of more than `MAX_URL_INPUT` bytes are left out.
#[verifier::external_body]
pub(crate) fn parse_url_with_params(
    input: &str,
    params: &Vec<(String, String)>,
) -> (url: Option<RequestUrl>)
    requires
        encode_utf8(input@).len() + pairs_len(text_pairs(params@)) <= MAX_URL_INPUT,
    ensures
        match url {
            Some(u) => parsed_url_with_params(input@, text_pairs(params@)) == Some(u@),
            None => parsed_url_with_params(input@, text_pairs(params@)) is None,
        },
{
    match reqwest::Url::parse_with_params(input, params) {
        Ok(url) => Some(RequestUrl {
            href: url.as_str().to_string(),
            path: url.path().to_string(),
            query: url.query().map(|q| q.to_string()),
        }),
        Err(_) => None,
    }
}

impl RequestUrl {
    /// The whole URL.
    pub fn href(&self) -> (href: &str)
        ensures
            href@ == self@.href,
    {
        self.href.as_str()
    }

    /// The path.
    pub fn path(&self) -> (path: &str)
        ensures
            path@ == self@.path,
    {
        self.path.as_str()
    }

    /// The query, where the URL has one.
    pub fn query(&self) -> (query: Option<&str>)
        ensures
            match query {
                Some(q) => self@.query == Some(q@),
                None => self@.query is None,
            },
    {
        match &self.query {
            Some(q) => Some(q.as_str()),
            None => None,
        }
    }

    /// Path and query as they are signed.
    pub fn path_and_query(&self) -> (text: String)
        ensures
            text@ == path_and_query(self@),
    {
        let mut text = String::from_str(self.path.as_str());
        match &self.query {
            Some(q) => {
                proof {
                    reveal_strlit("?");
                }
                text.append("?");
                text.append(q.as_str());
            },
            None => {},
        }
        text
    }
}

} // verus!
