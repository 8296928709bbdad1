//! A page of search results, and its extraction from the HTML of the site.

use scraper::{ElementRef, Html, Selector};
use vstd::prelude::*;
use vstd::string::*;

use crate::error::{all_or_first_error, lemma_error_of_prefix, Error};
use crate::html::{
    compile, compiled_selector, document_matches, element_attr, element_matches, element_text,
    fits_parser, parsed_document, read_document, select_in_document, select_in_element, text_of,
    SELECTOR_LIMIT,
};
use crate::movie::{cells_of, movie_of_row, Movie, MovieView};
use crate::page::Page;
use crate::text::{decimal_u32, parse_u32};

verus! {

/// Selects the element that states how many results a search has.
pub const TOTAL_SELECTOR: &'static str = "div.container h2 b";

/// Selects the element that holds the result rows.
pub const CONTAINER_SELECTOR: &'static str = "section div.row";

/// Selects a result row within the element that holds them.
pub const ROW_SELECTOR: &'static str = "div.browse-movie-wrap";

/// Selects, within a result row, the link to the movie's page.
pub const LINK_SELECTOR: &'static str = "a.browse-movie-link";

/// Selects, within a result row, the poster image.
pub const IMAGE_SELECTOR: &'static str = "img";

/// The selectors of a result listing are within the limit that the library
/// sets for selector text.
proof fn lemma_selectors_within_limit()
    ensures
        TOTAL_SELECTOR@.len() <= SELECTOR_LIMIT,
        CONTAINER_SELECTOR@.len() <= SELECTOR_LIMIT,
        ROW_SELECTOR@.len() <= SELECTOR_LIMIT,
        LINK_SELECTOR@.len() <= SELECTOR_LIMIT,
        IMAGE_SELECTOR@.len() <= SELECTOR_LIMIT,
{
    reveal_strlit("div.container h2 b");
    reveal_strlit("section div.row");
    reveal_strlit("div.browse-movie-wrap");
    reveal_strlit("a.browse-movie-link");
    reveal_strlit("img");
}

/// One page of the results of a search.
#[derive(Debug, PartialEq, Eq)]
pub struct Response {
    /// Where the page stands in the listing.
    pub page: Page,
    /// The movies of the page, in the order of the page.
    pub movies: Vec<Movie>,
}

/// What a [`Response`] holds, as mathematical values.
pub struct ResponseView {
    pub page: Page,
    pub movies: Seq<MovieView>,
}

impl View for Response {
    type V = ResponseView;

    open spec fn view(&self) -> ResponseView {
        ResponseView { page: self.page, movies: self.movies.deep_view() }
    }
}

/// The number of results that a page states, read off the text that states
/// it. A page that states none, or no number, is taken to state zero.
pub open spec fn total_of(stated: Option<Seq<char>>) -> u32 {
    match stated {
        Some(text) => match decimal_u32(text) {
            Some(total) => total,
            None => 0,
        },
        None => 0,
    }
}

/// The first text node of the first of `found`, if there is one.
pub open spec fn first_text(found: Seq<ElementRef>) -> Option<Seq<char>> {
    if found.len() > 0 && element_text(found[0]).len() > 0 {
        Some(element_text(found[0])[0])
    } else {
        None
    }
}

/// The value of the attribute `name` of the first of `found`, if there is
/// one.
pub open spec fn first_attr(found: Seq<ElementRef>, name: Seq<char>) -> Option<Seq<char>> {
    if found.len() > 0 {
        element_attr(found[0], name)
    } else {
        None
    }
}

/// The elements below the first of `found` that match `selector`; none where
/// nothing was found.
pub open spec fn below_first(found: Seq<ElementRef>, selector: Selector) -> Seq<ElementRef> {
    if found.len() > 0 {
        element_matches(found[0], selector)
    } else {
        Seq::empty()
    }
}

/// The movie that the element of a result row shows, or why it shows none.
pub open spec fn row_outcome(
    host: Seq<char>,
    row: ElementRef,
    link: Selector,
    image: Selector,
) -> Result<MovieView, Error> {
    movie_of_row(
        host,
        first_attr(element_matches(row, link), "href"@),
        first_attr(element_matches(row, image), "src"@),
        cells_of(element_text(row)),
    )
}

/// What each of the result rows shows.
pub open spec fn row_outcomes(
    host: Seq<char>,
    rows: Seq<ElementRef>,
    link: Selector,
    image: Selector,
) -> Seq<Result<MovieView, Error>> {
    rows.map_values(|row: ElementRef| row_outcome(host, row, link, image))
}

/// The page of results that the HTML text `html` shows when read as page
/// number `page` of a listing.
///
/// The total is the number that the first element matching
/// [`TOTAL_SELECTOR`] states. The rows are the elements matching
/// [`ROW_SELECTOR`] below the first element matching [`CONTAINER_SELECTOR`].
/// One row that shows no movie fails the whole page, and so does a text too
/// long for the parser.
pub open spec fn listing_of(host: Seq<char>, html: Seq<char>, page: u32) -> Result<
    ResponseView,
    Error,
> {
    if !fits_parser(html) {
        Err(Error::LengthError)
    } else {
        listing_of_document(host, parsed_document(html), page)
    }
}

/// The page of results that a parsed document shows when read as page number
/// `page` of a listing.
pub open spec fn listing_of_document(host: Seq<char>, document: Html, page: u32) -> Result<
    ResponseView,
    Error,
> {
    match (
        compiled_selector(TOTAL_SELECTOR@),
        compiled_selector(CONTAINER_SELECTOR@),
        compiled_selector(ROW_SELECTOR@),
        compiled_selector(LINK_SELECTOR@),
        compiled_selector(IMAGE_SELECTOR@),
    ) {
        (Some(total), Some(container), Some(row), Some(link), Some(image)) => {
            let rows = below_first(document_matches(document, container), row);
            match all_or_first_error(row_outcomes(host, rows, link, image)) {
                Err(error) => Err(error),
                Ok(movies) => Ok(
                    ResponseView {
                        page: Page::of_total(
                            page,
                            total_of(first_text(document_matches(document, total))),
                        ),
                        movies,
                    },
                ),
            }
        },
        _ => Err(Error::SelectorError),
    }
}

/// Reads the number of results off the text that states it.
// Lenient on purpose: a missing or unreadable count must not fail the page.
pub fn read_total(stated: Option<&str>) -> (total: u32)
    ensures
        total == total_of(stated.deep_view()),
{
    match stated {
        Some(text) => match parse_u32(text) {
            Some(total) => total,
            None => 0,
        },
        None => 0,
    }
}

impl Response {
    /// Reads the page of results that `html` shows. `host` is put before the
    /// relative links of the page, and `page` is the number the page was asked
    /// for under.
    #[verifier::loop_isolation(false)]
    pub fn create(host: &str, html: &str, page: u32) -> (outcome: Result<Response, Error>)
        ensures
            match listing_of(host@, html@, page) {
                Ok(view) => outcome matches Ok(response) && response@ == view,
                Err(error) => outcome == Err::<Response, Error>(error),
            },
    {
        let document = match read_document(html) {
            Some(document) => document,
            None => {
                return Err(Error::LengthError);
            },
        };
        proof {
            lemma_selectors_within_limit();
        }
        let total_selector = compile(TOTAL_SELECTOR)?;
        let container_selector = compile(CONTAINER_SELECTOR)?;
        let row_selector = compile(ROW_SELECTOR)?;
        let link_selector = compile(LINK_SELECTOR)?;
        let image_selector = compile(IMAGE_SELECTOR)?;

        let counts = select_in_document(&document, &total_selector);
        let mut stated: Option<&str> = None;
        if counts.len() > 0 {
            let texts = text_of(counts[0]);
            if texts.len() > 0 {
                stated = Some(texts[0]);
            }
        }
        let total = read_total(stated);

        let containers = select_in_document(&document, &container_selector);
        let mut movies: Vec<Movie> = Vec::new();
        if containers.len() > 0 {
            let rows = select_in_element(containers[0], &row_selector);
            let ghost outcomes = row_outcomes(host@, rows@, link_selector, image_selector);
            let mut at: usize = 0;
            assert(outcomes.take(0) =~= Seq::empty());
            assert(movies.deep_view() =~= Seq::empty());
            while at < rows.len()
                invariant
                    at <= rows.len(),
                    outcomes == row_outcomes(host@, rows@, link_selector, image_selector),
                    all_or_first_error(outcomes.take(at as int)) == Ok::<Seq<MovieView>, Error>(
                        movies.deep_view(),
                    ),
                decreases rows.len() - at,
            {
                let row = rows[at];
                let links = select_in_element(row, &link_selector);
                let href = if links.len() > 0 {
                    links[0].attr("href")
                } else {
                    None
                };
                let images = select_in_element(row, &image_selector);
                let src = if images.len() > 0 {
                    images[0].attr("src")
                } else {
                    None
                };
                let texts = text_of(row);
                let ghost seen = outcomes.take(at + 1);
                proof {
                    assert(seen.drop_last() =~= outcomes.take(at as int));
                    assert(seen.last() == row_outcome(
                        host@,
                        row,
                        link_selector,
                        image_selector,
                    ));
                }
                match Movie::from_row(host, href, src, &texts) {
                    Ok(movie) => {
                        let ghost before = movies.deep_view();
                        movies.push(movie);
                        assert(movies.deep_view() =~= before.push(movie@));
                    },
                    Err(error) => {
                        proof {
                            lemma_error_of_prefix(outcomes, at + 1);
                        }
                        return Err(error);
                    },
                }
                at = at + 1;
            }
            assert(outcomes.take(at as int) =~= outcomes);
        } else {
            assert(movies.deep_view() =~= Seq::empty());
        }
        Ok(Response { page: Page::create(page, total), movies })
    }
}

} // verus!
