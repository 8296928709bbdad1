//! Search filters and the tokens that stand for them in a search URL.

use vstd::prelude::*;
use vstd::std_specs::convert::FromSpecImpl;
use vstd::string::*;

use crate::genre::Genre;
use crate::text::{decimal_digits, decimal_string, is_substring, occurs_at, str_contains};

verus! {

/// Video quality of a torrent, and of a search filter.
#[derive(Debug, Clone, Copy, PartialEq, Eq, Structural)]
pub enum Quality {
    /// Any quality.
    All,
    /// 720p.
    P720,
    /// 1080p.
    P1080,
    /// 2160p (4K).
    P2160,
    /// 3D.
    ThreeD,
}

impl Quality {
    /// The token that stands for the quality in a search URL.
    pub open spec fn token(self) -> &'static str {
        match self {
            Quality::All => "all",
            Quality::P720 => "720p",
            Quality::P1080 => "1080p",
            Quality::P2160 => "2160p",
            Quality::ThreeD => "3D",
        }
    }

    /// The quality that a free-text label names: the first of 720, 1080 and
    /// 2160 that occurs in it decides, and a label with none of them is taken
    /// for 3D. No label is refused, and none names the wildcard.
    pub open spec fn of_label(label: Seq<char>) -> Quality {
        if is_substring("720"@, label) {
            Quality::P720
        } else if is_substring("1080"@, label) {
            Quality::P1080
        } else if is_substring("2160"@, label) {
            Quality::P2160
        } else {
            Quality::ThreeD
        }
    }
}

impl<'a> From<&Quality> for &'a str {
    fn from(value: &Quality) -> (token: &'a str)
        ensures
            token == value.token(),
    {
        match value {
            Quality::All => "all",
            Quality::P720 => "720p",
            Quality::P1080 => "1080p",
            Quality::P2160 => "2160p",
            Quality::ThreeD => "3D",
        }
    }
}

impl<'a> FromSpecImpl<&Quality> for &'a str {
    open spec fn obeys_from_spec() -> bool {
        true
    }

    open spec fn from_spec(value: &Quality) -> &'a str {
        value.token()
    }
}

impl From<&str> for Quality {
    // Lenient on purpose: a label that names no known resolution is read as
    // 3D instead of being refused.
    fn from(value: &str) -> (quality: Quality)
        ensures
            quality == Quality::of_label(value@),
    {
        if str_contains(value, "720") {
            Quality::P720
        } else if str_contains(value, "1080") {
            Quality::P1080
        } else if str_contains(value, "2160") {
            Quality::P2160
        } else {
            Quality::ThreeD
        }
    }
}

impl FromSpecImpl<&str> for Quality {
    open spec fn obeys_from_spec() -> bool {
        true
    }

    open spec fn from_spec(value: &str) -> Quality {
        Quality::of_label(value@)
    }
}

/// Reading the URL token of a quality gives the quality back, for every
/// quality but the wildcard: no label reads as the wildcard.
pub proof fn lemma_quality_round_trip(quality: Quality)
    requires
        quality != Quality::All,
    ensures
        Quality::of_label(quality.token()@) == quality,
{
    reveal_strlit("720");
    reveal_strlit("1080");
    reveal_strlit("2160");
    reveal_strlit("720p");
    reveal_strlit("1080p");
    reveal_strlit("2160p");
    reveal_strlit("3D");
    match quality {
        Quality::All => {},
        Quality::P720 => {
            assert("720p"@.subrange(0, 3) =~= "720"@);
            assert(occurs_at("720"@, "720p"@, 0));
        },
        Quality::P1080 => {
            assert forall|at: int| !occurs_at("720"@, "1080p"@, at) by {
                if 0 <= at <= 2 {
                    assert("1080p"@.subrange(at, at + 3)[0] != '7');
                }
            }
            assert("1080p"@.subrange(0, 4) =~= "1080"@);
            assert(occurs_at("1080"@, "1080p"@, 0));
        },
        Quality::P2160 => {
            assert forall|at: int| !occurs_at("720"@, "2160p"@, at) by {
                if 0 <= at <= 2 {
                    assert("2160p"@.subrange(at, at + 3)[0] != '7');
                }
            }
            assert forall|at: int| !occurs_at("1080"@, "2160p"@, at) by {
                if 0 <= at <= 1 {
                    assert("2160p"@.subrange(at, at + 4)[1] != '0');
                }
            }
            assert("2160p"@.subrange(0, 4) =~= "2160"@);
            assert(occurs_at("2160"@, "2160p"@, 0));
        },
        Quality::ThreeD => {},
    }
}

/// A label in which none of 720, 1080 and 2160 occurs reads as 3D.
pub proof fn lemma_unknown_quality_is_three_d(label: Seq<char>)
    requires
        !is_substring("720"@, label),
        !is_substring("1080"@, label),
        !is_substring("2160"@, label),
    ensures
        Quality::of_label(label) == Quality::ThreeD,
{
}

/// Least rating of a search filter.
#[derive(Debug, Clone, Copy, PartialEq, Eq, Structural)]
pub enum Rating {
    /// Any rating.
    All,
    /// 1 and above.
    One,
    /// 2 and above.
    Two,
    /// 3 and above.
    Three,
    /// 4 and above.
    Four,
    /// 5 and above.
    Five,
    /// 6 and above.
    Six,
    /// 7 and above.
    Seven,
    /// 8 and above.
    Eight,
    /// 9 and above.
    Nine,
}

impl Rating {
    /// The token that stands for the rating in a search URL: its digit.
    pub open spec fn token(self) -> &'static str {
        match self {
            Rating::All => "0",
            Rating::One => "1",
            Rating::Two => "2",
            Rating::Three => "3",
            Rating::Four => "4",
            Rating::Five => "5",
            Rating::Six => "6",
            Rating::Seven => "7",
            Rating::Eight => "8",
            Rating::Nine => "9",
        }
    }
}

impl<'a> From<&Rating> for &'a str {
    fn from(value: &Rating) -> (token: &'a str)
        ensures
            token == value.token(),
    {
        match value {
            Rating::All => "0",
            Rating::One => "1",
            Rating::Two => "2",
            Rating::Three => "3",
            Rating::Four => "4",
            Rating::Five => "5",
            Rating::Six => "6",
            Rating::Seven => "7",
            Rating::Eight => "8",
            Rating::Nine => "9",
        }
    }
}

impl<'a> FromSpecImpl<&Rating> for &'a str {
    open spec fn obeys_from_spec() -> bool {
        true
    }

    open spec fn from_spec(value: &Rating) -> &'a str {
        value.token()
    }
}

/// Release year of a search filter.
#[derive(Debug, Clone, Copy, PartialEq, Eq, Structural)]
pub enum Year {
    /// Any year.
    All,
    /// This year exactly.
    Equal(u32),
    /// 2000 to 2009.
    Range2000to2009,
    /// 1990 to 1999.
    Range1990to1999,
    /// 1980 to 1989.
    Range1980to1989,
    /// 1970 to 1979.
    Range1970to1979,
    /// 1950 to 1969.
    Range1950to1969,
    /// 1900 to 1949.
    Range1900to1949,
}

impl Year {
    /// The token that stands for the year in a search URL: `0` for any year,
    /// the year in decimal, or the first and last year of a range joined by
    /// a hyphen.
    pub open spec fn token(self) -> Seq<char> {
        match self {
            Year::All => "0"@,
            Year::Equal(year) => decimal_digits(year as nat),
            Year::Range2000to2009 => "2000-2009"@,
            Year::Range1990to1999 => "1990-1999"@,
            Year::Range1980to1989 => "1980-1989"@,
            Year::Range1970to1979 => "1970-1979"@,
            Year::Range1950to1969 => "1950-1969"@,
            Year::Range1900to1949 => "1900-1949"@,
        }
    }
}

impl From<&Year> for String {
    fn from(value: &Year) -> (token: String)
        ensures
            token@ == value.token(),
    {
        match value {
            Year::All => String::from_str("0"),
            Year::Equal(year) => decimal_string(*year),
            Year::Range2000to2009 => String::from_str("2000-2009"),
            Year::Range1990to1999 => String::from_str("1990-1999"),
            Year::Range1980to1989 => String::from_str("1980-1989"),
            Year::Range1970to1979 => String::from_str("1970-1979"),
            Year::Range1950to1969 => String::from_str("1950-1969"),
            Year::Range1900to1949 => String::from_str("1900-1949"),
        }
    }
}

// Two strings of the same characters need not be the same value to the
// verifier, so the conversion is stated through the characters of its result,
// in the contract of `from`, and not as an equation between strings.
impl FromSpecImpl<&Year> for String {
    open spec fn obeys_from_spec() -> bool {
        false
    }

    open spec fn from_spec(value: &Year) -> String {
        choose|token: String| token@ == value.token()
    }
}

/// Sort order of a search.
#[derive(Debug, Clone, Copy, PartialEq, Eq, Structural)]
pub enum OrderBy {
    /// Newest first.
    Latest,
    /// Oldest first.
    Oldest,
    /// Featured first.
    Featured,
    /// By release year.
    Year,
    /// By rating.
    Rating,
    /// By likes.
    Likes,
    /// By title.
    Alphabetical,
}

impl OrderBy {
    /// The token that stands for the order in a search URL.
    pub open spec fn token(self) -> &'static str {
        match self {
            OrderBy::Latest => "latest",
            OrderBy::Oldest => "oldest",
            OrderBy::Featured => "featured",
            OrderBy::Year => "year",
            OrderBy::Rating => "rating",
            OrderBy::Likes => "likes",
            OrderBy::Alphabetical => "alphabetical",
        }
    }
}

impl<'a> From<&OrderBy> for &'a str {
    fn from(value: &OrderBy) -> (token: &'a str)
        ensures
            token == value.token(),
    {
        match value {
            OrderBy::Latest => "latest",
            OrderBy::Oldest => "oldest",
            OrderBy::Featured => "featured",
            OrderBy::Year => "year",
            OrderBy::Rating => "rating",
            OrderBy::Likes => "likes",
            OrderBy::Alphabetical => "alphabetical",
        }
    }
}

impl<'a> FromSpecImpl<&OrderBy> for &'a str {
    open spec fn obeys_from_spec() -> bool {
        true
    }

    open spec fn from_spec(value: &OrderBy) -> &'a str {
        value.token()
    }
}

/// The constraints of one search.
#[derive(Debug, Clone, Copy, PartialEq, Eq, Structural)]
pub struct Filter {
    /// Video quality.
    pub quality: Quality,
    /// Genre.
    pub genre: Genre,
    /// Least rating.
    pub rating: Rating,
    /// Release year.
    pub year: Year,
    /// Sort order.
    pub order_by: OrderBy,
    /// Page of the result listing, counted from 1. The number is handed to
    /// the site as it is.
    pub page: u32,
}

impl Filter {
    /// The filter of a search that constrains nothing: any quality, genre,
    /// rating and year, newest first, first page.
    pub open spec fn unconstrained() -> Filter {
        Filter {
            quality: Quality::All,
            genre: Genre::All,
            rating: Rating::All,
            year: Year::All,
            order_by: OrderBy::Latest,
            page: 1,
        }
    }

    /// The URL token of the quality.
    pub fn quality_to_str(&self) -> (token: &str)
        ensures
            token == self.quality.token(),
    {
        (&self.quality).into()
    }

    /// The URL token of the genre.
    pub fn genre_to_str(&self) -> (token: &str)
        ensures
            token == self.genre.token(),
    {
        (&self.genre).into()
    }

    /// The URL token of the least rating.
    pub fn rating_to_str(&self) -> (token: &str)
        ensures
            token == self.rating.token(),
    {
        (&self.rating).into()
    }

    /// The URL token of the year.
    pub fn year_to_str(&self) -> (token: String)
        ensures
            token@ == self.year.token(),
    {
        (&self.year).into()
    }

    /// The URL token of the sort order.
    pub fn order_by_to_str(&self) -> (token: &str)
        ensures
            token == self.order_by.token(),
    {
        (&self.order_by).into()
    }
}

/// Builder of a [`Filter`]: starts from the unconstrained filter and replaces
/// one constraint per call.
#[derive(Debug)]
pub struct Filters(Filter);

impl View for Filters {
    type V = Filter;

    /// The filter as built so far.
    closed spec fn view(&self) -> Filter {
        self.0
    }
}

impl Default for Filters {
    fn default() -> (filters: Filters)
        ensures
            filters@ == Filter::unconstrained(),
    {
        Filters(
            Filter {
                quality: Quality::All,
                genre: Genre::All,
                rating: Rating::All,
                year: Year::All,
                order_by: OrderBy::Latest,
                page: 1,
            },
        )
    }
}

impl Filters {
    /// Replaces the quality.
    pub fn quality(self, quality: Quality) -> (filters: Filters)
        ensures
            filters@ == (Filter { quality, ..self@ }),
    {
        let mut filters = self;
        filters.0.quality = quality;
        filters
    }

    /// Replaces the genre.
    pub fn genre(self, genre: Genre) -> (filters: Filters)
        ensures
            filters@ == (Filter { genre, ..self@ }),
    {
        let mut filters = self;
        filters.0.genre = genre;
        filters
    }

    /// Replaces the least rating.
    pub fn rating(self, rating: Rating) -> (filters: Filters)
        ensures
            filters@ == (Filter { rating, ..self@ }),
    {
        let mut filters = self;
        filters.0.rating = rating;
        filters
    }

    /// Replaces the year.
    pub fn year(self, year: Year) -> (filters: Filters)
        ensures
            filters@ == (Filter { year, ..self@ }),
    {
        let mut filters = self;
        filters.0.year = year;
        filters
    }

    /// Replaces the sort order.
    pub fn order_by(self, order_by: OrderBy) -> (filters: Filters)
        ensures
            filters@ == (Filter { order_by, ..self@ }),
    {
        let mut filters = self;
        filters.0.order_by = order_by;
        filters
    }

    /// Replaces the page.
    pub fn page(self, page: u32) -> (filters: Filters)
        ensures
            filters@ == (Filter { page, ..self@ }),
    {
        let mut filters = self;
        filters.0.page = page;
        filters
    }

    /// The filter that was built.
    pub fn build(self) -> (filter: Filter)
        ensures
            filter == self@,
    {
        self.0
    }
}

} // verus!
