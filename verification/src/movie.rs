//! A movie of a result listing, and the rules that read one from the cells of
//! its row.

use vstd::prelude::*;
use vstd::string::*;

use crate::error::{all_or_first_error, lemma_error_of_prefix, Error};
use crate::genre::Genre;
use crate::text::{
    chars_of, decimal_u32, digit_value, is_digit, parse_u32, str_eq, trim, trimmed,
};

verus! {

/// A movie as a result listing shows it.
#[derive(Debug, PartialEq, Eq)]
pub struct Movie {
    /// Title.
    pub name: String,
    /// Release year.
    pub year: u32,
    /// Rating in tenths of a point: 85 stands for 8.5.
    pub rating: i32,
    /// Genres, in the order of the page.
    pub genre: Vec<Genre>,
    /// Absolute URL of the poster image.
    pub image: String,
    /// Absolute URL of the movie's own page, where its torrents are listed.
    pub link: String,
}

/// What a [`Movie`] holds, as mathematical values.
pub struct MovieView {
    pub name: Seq<char>,
    pub year: u32,
    pub rating: int,
    pub genre: Seq<Genre>,
    pub image: Seq<char>,
    pub link: Seq<char>,
}

impl View for Movie {
    type V = MovieView;

    open spec fn view(&self) -> MovieView {
        MovieView {
            name: self.name@,
            year: self.year,
            rating: self.rating as int,
            genre: self.genre@,
            image: self.image@,
            link: self.link@,
        }
    }
}

impl DeepView for Movie {
    type V = MovieView;

    open spec fn deep_view(&self) -> MovieView {
        self@
    }
}

/// The label of a row's link to its movie's page; it is no cell of the row.
pub open spec fn details_label() -> Seq<char> {
    "View Details"@
}

/// Whether a text node of a result row is one of its cells: it holds more
/// than white space and is not the label of the link.
pub open spec fn is_cell(text: Seq<char>) -> bool {
    trimmed(text).len() > 0 && text != details_label()
}

/// The cells among the text nodes of a result row, in order.
pub open spec fn cells_of(texts: Seq<Seq<char>>) -> Seq<Seq<char>> {
    texts.filter(|text: Seq<char>| is_cell(text))
}

/// The rating, in tenths, that the beginning of a rating cell denotes. Only
/// the first two characters count (the only one, where the cell has no
/// second). They denote a number where they are two digits, a digit before or
/// after a decimal point, or a digit after a sign; a single character
/// denotes one where it is a digit.
pub open spec fn rating_of(cell: Seq<char>) -> Option<int> {
    if cell.len() == 0 {
        None
    } else if cell.len() == 1 {
        if is_digit(cell[0]) {
            Some(10 * digit_value(cell[0]))
        } else {
            None
        }
    } else if is_digit(cell[0]) && is_digit(cell[1]) {
        Some(100 * digit_value(cell[0]) + 10 * digit_value(cell[1]))
    } else if is_digit(cell[0]) && cell[1] == '.' {
        Some(10 * digit_value(cell[0]))
    } else if cell[0] == '.' && is_digit(cell[1]) {
        Some(digit_value(cell[1]))
    } else if cell[0] == '+' && is_digit(cell[1]) {
        Some(10 * digit_value(cell[1]))
    } else if cell[0] == '-' && is_digit(cell[1]) {
        Some(-10 * digit_value(cell[1]))
    } else {
        None
    }
}

/// The genre that a genre cell names, or the error of a cell that names none.
pub open spec fn genre_of(cell: Seq<char>) -> Result<Genre, Error> {
    match Genre::of_label(cell) {
        Some(genre) => Ok(genre),
        None => Err(Error::MovieGenreError),
    }
}

/// What each of the genre cells of a row names.
pub open spec fn genre_outcomes(cells: Seq<Seq<char>>) -> Seq<Result<Genre, Error>> {
    cells.map_values(|cell: Seq<char>| genre_of(cell))
}

/// The genres that the genre cells of a row name, or the error of the first
/// cell that names none.
pub open spec fn genres_of(cells: Seq<Seq<char>>) -> Result<Seq<Genre>, Error> {
    all_or_first_error(genre_outcomes(cells))
}

/// The cells of a row that name genres: those after the rating and before
/// the title.
pub open spec fn genre_cells(cells: Seq<Seq<char>>) -> Seq<Seq<char>> {
    if cells.len() >= 3 {
        cells.subrange(1, cells.len() - 2)
    } else {
        Seq::empty()
    }
}

/// The movie that a result row shows, or why the row shows none.
///
/// `href` and `src` are the targets of the row's link and of its image,
/// relative to `host`; `cells` are the cells of the row. The first cell is
/// the rating, the last the release year, the one before it the title, and
/// those in between are genres. What is missing or unreadable is reported in
/// that order: link, image, rating, year, title, genres.
pub open spec fn movie_of_row(
    host: Seq<char>,
    href: Option<Seq<char>>,
    src: Option<Seq<char>>,
    cells: Seq<Seq<char>>,
) -> Result<MovieView, Error> {
    if href is None {
        Err(Error::MovieLinkError)
    } else if src is None {
        Err(Error::MovieImageError)
    } else if cells.len() == 0 || rating_of(cells[0]) is None {
        Err(Error::MovieRatingError)
    } else if decimal_u32(cells.last()) is None {
        Err(Error::MovieYearError)
    } else if cells.len() < 2 {
        Err(Error::MovieNameError)
    } else {
        match genres_of(genre_cells(cells)) {
            Err(error) => Err(error),
            Ok(genre) => Ok(
                MovieView {
                    name: cells[cells.len() - 2],
                    year: decimal_u32(cells.last())->0,
                    rating: rating_of(cells[0])->0,
                    genre,
                    image: host + src->0,
                    link: host + href->0,
                },
            ),
        }
    }
}

/// Whether a text node of a result row is one of its cells.
pub fn is_cell_text(text: &str) -> (cell: bool)
    ensures
        cell == is_cell(text@),
{
    !trim(text).is_empty() && !str_eq(text, "View Details")
}

/// The cells among the text nodes of a result row, in order.
pub fn cells<'a>(texts: &Vec<&'a str>) -> (kept: Vec<&'a str>)
    ensures
        kept.deep_view() == cells_of(texts.deep_view()),
{
    let ghost nodes = texts.deep_view();
    let mut kept: Vec<&'a str> = Vec::new();
    let mut at: usize = 0;
    proof {
        reveal(Seq::filter);
        assert(nodes.take(0).len() == 0);
        assert(kept.deep_view() =~= cells_of(nodes.take(0)));
    }
    while at < texts.len()
        invariant
            at <= texts.len(),
            nodes == texts.deep_view(),
            kept.deep_view() == cells_of(nodes.take(at as int)),
        decreases texts.len() - at,
    {
        let text = texts[at];
        let ghost before = kept.deep_view();
        proof {
            reveal(Seq::filter);
            assert(nodes.take(at + 1).drop_last() =~= nodes.take(at as int));
            assert(nodes.take(at + 1).last() == text@);
        }
        if is_cell_text(text) {
            kept.push(text);
            assert(kept.deep_view() =~= before.push(text@));
        }
        at = at + 1;
    }
    assert(nodes.take(at as int) =~= nodes);
    kept
}

/// Reads the rating, in tenths, off the beginning of a rating cell.
pub fn parse_rating(cell: &str) -> (rating: Option<i32>)
    ensures
        match rating {
            Some(tenths) => rating_of(cell@) == Some(tenths as int),
            None => rating_of(cell@) is None,
        },
{
    let chars = chars_of(cell);
    if chars.len() == 0 {
        return None;
    }
    let first = chars[0];
    if chars.len() == 1 {
        return if is_digit_char(first) {
            Some(10 * digit_of(first))
        } else {
            None
        };
    }
    let second = chars[1];
    if is_digit_char(first) && is_digit_char(second) {
        Some(100 * digit_of(first) + 10 * digit_of(second))
    } else if is_digit_char(first) && second == '.' {
        Some(10 * digit_of(first))
    } else if first == '.' && is_digit_char(second) {
        Some(digit_of(second))
    } else if first == '+' && is_digit_char(second) {
        Some(10 * digit_of(second))
    } else if first == '-' && is_digit_char(second) {
        Some(-10 * digit_of(second))
    } else {
        None
    }
}

/// Whether `character` is a decimal digit.
fn is_digit_char(character: char) -> (digit: bool)
    ensures
        digit == is_digit(character),
{
    '0' <= character && character <= '9'
}

/// The number a decimal digit stands for.
fn digit_of(character: char) -> (value: i32)
    requires
        is_digit(character),
    ensures
        value == digit_value(character),
        0 <= value <= 9,
{
    (character as u32 - '0' as u32) as i32
}

/// Reads the genre cells `cells[from..to]` of a row.
fn parse_genres(cells: &Vec<&str>, from: usize, to: usize) -> (outcome: Result<Vec<Genre>, Error>)
    requires
        from <= to <= cells.len(),
    ensures
        match genres_of(cells.deep_view().subrange(from as int, to as int)) {
            Ok(genres) => outcome matches Ok(read) && read@ == genres,
            Err(error) => outcome == Err::<Vec<Genre>, Error>(error),
        },
{
    let ghost labels = cells.deep_view().subrange(from as int, to as int);
    let ghost outcomes = genre_outcomes(labels);
    let mut genres: Vec<Genre> = Vec::new();
    let mut at: usize = from;
    assert(outcomes.take(0) =~= Seq::empty());
    while at < to
        invariant
            from <= at <= to <= cells.len(),
            labels == cells.deep_view().subrange(from as int, to as int),
            outcomes == genre_outcomes(labels),
            all_or_first_error(outcomes.take(at - from)) == Ok::<Seq<Genre>, Error>(genres@),
        decreases to - at,
    {
        let ghost seen = outcomes.take(at - from + 1);
        proof {
            assert(seen.drop_last() =~= outcomes.take(at - from));
            assert(seen.last() == genre_of(cells[at as int]@));
        }
        match Genre::from_label(cells[at]) {
            Some(genre) => {
                genres.push(genre);
            },
            None => {
                proof {
                    lemma_error_of_prefix(outcomes, at - from + 1);
                }
                return Err(Error::MovieGenreError);
            },
        }
        at = at + 1;
    }
    assert(outcomes.take(at - from) =~= outcomes);
    Ok(genres)
}

impl Movie {
    /// A movie with the given fields.
    pub fn new(
        name: String,
        year: u32,
        rating: i32,
        genre: Vec<Genre>,
        image: String,
        link: String,
    ) -> (movie: Movie)
        ensures
            movie == (Movie { name, year, rating, genre, image, link }),
    {
        Movie { name, year, rating, genre, image, link }
    }

    /// Reads the movie that a result row shows.
    ///
    /// `href` and `src` are the targets of the row's link and of its image as
    /// the page gives them, and `texts` are the row's text nodes in order.
    /// A row that lacks a part or holds an unreadable one yields no movie.
    pub fn from_row(host: &str, href: Option<&str>, src: Option<&str>, texts: &Vec<&str>) -> (outcome:
        Result<Movie, Error>)
        ensures
            match movie_of_row(
                host@,
                href.deep_view(),
                src.deep_view(),
                cells_of(texts.deep_view()),
            ) {
                Ok(view) => outcome matches Ok(movie) && movie@ == view,
                Err(error) => outcome == Err::<Movie, Error>(error),
            },
    {
        Movie::from_cells(host, href, src, &cells(texts))
    }

    /// Reads the movie that the cells of a result row show: the rating
    /// first, the release year last, the title before the year, and genres
    /// in between.
    pub fn from_cells(host: &str, href: Option<&str>, src: Option<&str>, cells: &Vec<&str>) -> (outcome:
        Result<Movie, Error>)
        ensures
            match movie_of_row(host@, href.deep_view(), src.deep_view(), cells.deep_view()) {
                Ok(view) => outcome matches Ok(movie) && movie@ == view,
                Err(error) => outcome == Err::<Movie, Error>(error),
            },
    {
        let href = match href {
            Some(href) => href,
            None => {
                return Err(Error::MovieLinkError);
            },
        };
        let src = match src {
            Some(src) => src,
            None => {
                return Err(Error::MovieImageError);
            },
        };
        if cells.len() == 0 {
            return Err(Error::MovieRatingError);
        }
        let rating = match parse_rating(cells[0]) {
            Some(rating) => rating,
            None => {
                return Err(Error::MovieRatingError);
            },
        };
        let year = match parse_u32(cells[cells.len() - 1]) {
            Some(year) => year,
            None => {
                return Err(Error::MovieYearError);
            },
        };
        if cells.len() < 2 {
            return Err(Error::MovieNameError);
        }
        let genres_end: usize = if cells.len() >= 3 {
            cells.len() - 2
        } else {
            1
        };
        proof {
            if cells.len() < 3 {
                assert(cells.deep_view().subrange(1, 1) =~= Seq::empty());
            }
        }
        let genre = parse_genres(cells, 1, genres_end)?;
        let name = String::from_str(cells[cells.len() - 2]);
        let image = String::from_str(host).concat(src);
        let link = String::from_str(host).concat(href);
        Ok(Movie::new(name, year, rating, genre, image, link))
    }
}

} // verus!
