//! The settings of a client of the site, and the URL of a search.

use reqwest::Url;
use std::time::Duration;
use vstd::prelude::*;
use vstd::string::*;
use vstd::utf8::encode_utf8;

use crate::error::Error;
use crate::filter::Filter;
use crate::text::{decimal_digits, decimal_string, trim, trimmed};

verus! {

/// The host of the site.
pub const DEFAULT_HOST: &'static str = "https://en.yts-official.mx";

/// Seconds after which a request is given up, unless told otherwise.
pub const DEFAULT_TIMEOUT_SECS: u64 = 10;

/// What a client says it is, in the `User-Agent` header of its requests.
pub const USER_AGENT: &'static str = "Mozilla/5.0 (Linux x86_64)";

/// The path of the search page on the host.
pub const SEARCH_PATH: &'static str = "/browse-movies";

/// The query parameter that carries the search words.
pub const KEYWORD: &'static str = "keyword";

/// A parsed URL.
#[verifier::external_type_specification]
#[verifier::external_body]
pub struct ExUrl(Url);

/// The span of time that `Duration::from_secs` makes of a number of seconds.
pub uninterp spec fn seconds(secs: u64) -> Duration;

/// The URL that `Url::parse` makes of `input`, if it accepts it.
pub uninterp spec fn parsed_url(input: Seq<char>) -> Option<Url>;

/// The text of `url`, as `Url::as_str` gives it.
pub uninterp spec fn url_text(url: Url) -> Seq<char>;

/// `url` after `name` and `value` were appended to its query as one more
/// pair, encoded as form data.
pub uninterp spec fn with_query_pair(url: Url, name: Seq<char>, value: Seq<char>) -> Url;

/// `Duration::from_secs` of std: the span depends on the number alone.
pub assume_specification[ Duration::from_secs ](secs: u64) -> (duration: Duration)
    ensures
        duration == seconds(secs),
;

/// `Url::as_str` of the url crate (as reqwest hands it on) gives the text of a
/// URL.
pub assume_specification[ Url::as_str ](url: &Url) -> (text: &str)
    ensures
        text@ == url_text(*url),
;

/// `Url::parse` of the url crate either accepts the text or refuses it, and
/// which of the two, and the URL it returns, depend on the text alone. The
/// reason of a refusal is dropped.
#[verifier::external_body]
fn parse_url(input: &str) -> (url: Option<Url>)
    ensures
        url == parsed_url(input@),
{
    Url::parse(input).ok()
}

/// Whether `url` has room for one more query pair: with every byte of the
/// pair encoded at its longest, and the separators, the text stays within the
/// 32 bits in which a URL counts its positions.
pub open spec fn takes_pair(url: Url, name: Seq<char>, value: Seq<char>) -> bool {
    encode_utf8(url_text(url)).len() + 3 * (encode_utf8(name).len() + encode_utf8(value).len())
        + 3 <= u32::MAX
}

/// `Url::query_pairs_mut` followed by `Serializer::append_pair`, which puts
/// one more pair at the end of the query. The URL afterwards depends on the
/// URL before and on the pair alone. A URL that outgrows 32 bits of length
/// makes the url crate panic, so the call asks for room.
#[verifier::external_body]
fn append_query_pair(url: &mut Url, name: &str, value: &str)
    requires
        takes_pair(*old(url), name@, value@),
    ensures
        *final(url) == with_query_pair(*old(url), name@, value@),
{
    url.query_pairs_mut().append_pair(name, value);
}

/// The part of a search URL that states the filter: one parameter each for
/// quality, genre, rating, year, order and page, in this order, each led by
/// an ampersand.
pub open spec fn filter_query(filter: Filter) -> Seq<char> {
    "&quality="@ + filter.quality.token()@ + "&genre="@ + filter.genre.token()@ + "&rating="@
        + filter.rating.token()@ + "&year="@ + filter.year.token() + "&order_by="@
        + filter.order_by.token()@ + "&page="@ + decimal_digits(filter.page as nat)
}

/// The URL that the host and the search path make together, if they make
/// one.
pub open spec fn search_base(host: Seq<char>) -> Option<Url> {
    parsed_url(host + SEARCH_PATH@)
}

/// The URL of the search for `movie_name` under `filter` on `host`, if there
/// is one.
///
/// The URL is the host with the search path, parsed as a URL, then the search
/// words without the white space around them as its `keyword` parameter,
/// then the filter. There is none where host and path do not parse, or where
/// the parsed URL has no room for the search words.
pub open spec fn search_url(host: Seq<char>, movie_name: Seq<char>, filter: Filter) -> Option<
    Seq<char>,
> {
    match search_base(host) {
        Some(base) => if takes_pair(base, KEYWORD@, trimmed(movie_name)) {
            Some(
                url_text(with_query_pair(base, KEYWORD@, trimmed(movie_name))) + filter_query(
                    filter,
                ),
            )
        } else {
            None
        },
        None => None,
    }
}

/// Whether `url` has room for one more query pair.
fn has_room(url: &Url, name: &str, value: &str) -> (room: bool)
    ensures
        room == takes_pair(*url, name@, value@),
{
    let held: u128 = url.as_str().as_bytes().len() as u128;
    let pair: u128 = name.as_bytes().len() as u128 + value.as_bytes().len() as u128;
    held + 3 * pair + 3 <= u32::MAX as u128
}

/// Puts the parameters of `filter` at the end of `url`.
pub fn append_filter(url: String, filter: &Filter) -> (full: String)
    ensures
        full@ == url@ + filter_query(*filter),
{
    let mut full = url;
    full.append("&quality=");
    full.append(filter.quality_to_str());
    full.append("&genre=");
    full.append(filter.genre_to_str());
    full.append("&rating=");
    full.append(filter.rating_to_str());
    full.append("&year=");
    full.append(filter.year_to_str().as_str());
    full.append("&order_by=");
    full.append(filter.order_by_to_str());
    full.append("&page=");
    full.append(decimal_string(filter.page).as_str());
    assert(full@ =~= url@ + filter_query(*filter));
    full
}

/// The settings of a client: the host it asks, and how long it waits for an
/// answer.
#[derive(Debug)]
pub struct Yts<'a> {
    /// The host, with its scheme and without a path.
    pub host: &'a str,
    /// The time after which a request is given up.
    pub timeout: Duration,
}

impl<'a> Default for Yts<'a> {
    fn default() -> (yts: Yts<'a>)
        ensures
            yts.host == DEFAULT_HOST,
            yts.timeout == seconds(DEFAULT_TIMEOUT_SECS),
    {
        Yts { host: DEFAULT_HOST, timeout: Duration::from_secs(DEFAULT_TIMEOUT_SECS) }
    }
}

impl<'a> Yts<'a> {
    /// A client of `host` that waits `timeout` for each answer.
    pub fn new(host: &'a str, timeout: Duration) -> (yts: Yts<'a>)
        ensures
            yts.host == host,
            yts.timeout == timeout,
    {
        Yts { host, timeout }
    }

    /// The URL of the search for `movie_name` under `filter`. A host that is
    /// no base for a URL is reported with the host; search words that the URL
    /// has no room for are reported as too long.
    pub fn create_url(&self, movie_name: &str, filter: &Filter) -> (outcome: Result<String, Error>)
        ensures
            match search_url(self.host@, movie_name@, *filter) {
                Some(url) => outcome matches Ok(text) && text@ == url,
                None => if search_base(self.host@) is Some {
                    outcome == Err::<String, Error>(Error::LengthError)
                } else {
                    outcome matches Err(Error::ParseError(host)) && host@ == self.host@
                },
            },
    {
        let base = String::from_str(self.host).concat(SEARCH_PATH);
        let keyword = trim(movie_name);
        match parse_url(base.as_str()) {
            Some(parsed) => {
                let mut url = parsed;
                if has_room(&url, KEYWORD, keyword) {
                    append_query_pair(&mut url, KEYWORD, keyword);
                    Ok(append_filter(String::from_str(url.as_str()), filter))
                } else {
                    Err(Error::LengthError)
                }
            },
            None => Err(Error::ParseError(String::from_str(self.host))),
        }
    }
}

} // verus!
