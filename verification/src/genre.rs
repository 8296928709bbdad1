//! The genres the site files its movies under.

use vstd::prelude::*;
use vstd::std_specs::convert::FromSpecImpl;

use crate::text::str_eq;

verus! {

/// A genre of the site's closed vocabulary. `All` is the wildcard of a search
/// filter; no label in a page stands for it.
#[derive(Debug, Clone, Copy, PartialEq, Eq, Structural)]
pub enum Genre {
    All,
    Action,
    Adventure,
    Animation,
    Biography,
    Comedy,
    Crime,
    Documentary,
    Drama,
    Family,
    Fantasy,
    FilmNoir,
    GameShow,
    History,
    Horror,
    Music,
    Musical,
    Mystery,
    News,
    RealityTV,
    Romance,
    SciFi,
    Sport,
    TalkShow,
    Thriller,
    War,
    Western,
}

impl Genre {
    /// The lower-case token that stands for the genre in a search URL.
    pub open spec fn token(self) -> &'static str {
        match self {
            Genre::All => "all",
            Genre::Action => "action",
            Genre::Adventure => "adventure",
            Genre::Animation => "animation",
            Genre::Biography => "biography",
            Genre::Comedy => "comedy",
            Genre::Crime => "crime",
            Genre::Documentary => "documentary",
            Genre::Drama => "drama",
            Genre::Family => "family",
            Genre::Fantasy => "fantasy",
            Genre::FilmNoir => "film-noir",
            Genre::GameShow => "game-show",
            Genre::History => "history",
            Genre::Horror => "horror",
            Genre::Music => "music",
            Genre::Musical => "musical",
            Genre::Mystery => "mystery",
            Genre::News => "news",
            Genre::RealityTV => "reality-tv",
            Genre::Romance => "romance",
            Genre::SciFi => "sci-fi",
            Genre::Sport => "sport",
            Genre::TalkShow => "talk-show",
            Genre::Thriller => "thriller",
            Genre::War => "war",
            Genre::Western => "western",
        }
    }

    /// The genre that a capitalised page label stands for, if the label is one
    /// of the vocabulary. The wildcard has no label.
    pub open spec fn of_label(text: Seq<char>) -> Option<Genre> {
        if text == "Action"@ {
            Some(Genre::Action)
        } else if text == "Adventure"@ {
            Some(Genre::Adventure)
        } else if text == "Animation"@ {
            Some(Genre::Animation)
        } else if text == "Biography"@ {
            Some(Genre::Biography)
        } else if text == "Comedy"@ {
            Some(Genre::Comedy)
        } else if text == "Crime"@ {
            Some(Genre::Crime)
        } else if text == "Documentary"@ {
            Some(Genre::Documentary)
        } else if text == "Drama"@ {
            Some(Genre::Drama)
        } else if text == "Family"@ {
            Some(Genre::Family)
        } else if text == "Fantasy"@ {
            Some(Genre::Fantasy)
        } else if text == "Film-Noir"@ {
            Some(Genre::FilmNoir)
        } else if text == "Game-Show"@ {
            Some(Genre::GameShow)
        } else if text == "History"@ {
            Some(Genre::History)
        } else if text == "Horror"@ {
            Some(Genre::Horror)
        } else if text == "Music"@ {
            Some(Genre::Music)
        } else if text == "Musical"@ {
            Some(Genre::Musical)
        } else if text == "Mystery"@ {
            Some(Genre::Mystery)
        } else if text == "News"@ {
            Some(Genre::News)
        } else if text == "Reality-TV"@ {
            Some(Genre::RealityTV)
        } else if text == "Romance"@ {
            Some(Genre::Romance)
        } else if text == "Sci-Fi"@ {
            Some(Genre::SciFi)
        } else if text == "Sport"@ {
            Some(Genre::Sport)
        } else if text == "Talk-Show"@ {
            Some(Genre::TalkShow)
        } else if text == "Thriller"@ {
            Some(Genre::Thriller)
        } else if text == "War"@ {
            Some(Genre::War)
        } else if text == "Western"@ {
            Some(Genre::Western)
        } else {
            None
        }
    }

    /// Reads a page label. Labels are matched exactly, letter case included.
    pub fn from_label(text: &str) -> (genre: Option<Genre>)
        ensures
            genre == Genre::of_label(text@),
    {
        if str_eq(text, "Action") {
            Some(Genre::Action)
        } else if str_eq(text, "Adventure") {
            Some(Genre::Adventure)
        } else if str_eq(text, "Animation") {
            Some(Genre::Animation)
        } else if str_eq(text, "Biography") {
            Some(Genre::Biography)
        } else if str_eq(text, "Comedy") {
            Some(Genre::Comedy)
        } else if str_eq(text, "Crime") {
            Some(Genre::Crime)
        } else if str_eq(text, "Documentary") {
            Some(Genre::Documentary)
        } else if str_eq(text, "Drama") {
            Some(Genre::Drama)
        } else if str_eq(text, "Family") {
            Some(Genre::Family)
        } else if str_eq(text, "Fantasy") {
            Some(Genre::Fantasy)
        } else if str_eq(text, "Film-Noir") {
            Some(Genre::FilmNoir)
        } else if str_eq(text, "Game-Show") {
            Some(Genre::GameShow)
        } else if str_eq(text, "History") {
            Some(Genre::History)
        } else if str_eq(text, "Horror") {
            Some(Genre::Horror)
        } else if str_eq(text, "Music") {
            Some(Genre::Music)
        } else if str_eq(text, "Musical") {
            Some(Genre::Musical)
        } else if str_eq(text, "Mystery") {
            Some(Genre::Mystery)
        } else if str_eq(text, "News") {
            Some(Genre::News)
        } else if str_eq(text, "Reality-TV") {
            Some(Genre::RealityTV)
        } else if str_eq(text, "Romance") {
            Some(Genre::Romance)
        } else if str_eq(text, "Sci-Fi") {
            Some(Genre::SciFi)
        } else if str_eq(text, "Sport") {
            Some(Genre::Sport)
        } else if str_eq(text, "Talk-Show") {
            Some(Genre::TalkShow)
        } else if str_eq(text, "Thriller") {
            Some(Genre::Thriller)
        } else if str_eq(text, "War") {
            Some(Genre::War)
        } else if str_eq(text, "Western") {
            Some(Genre::Western)
        } else {
            None
        }
    }
}

impl<'a> From<&Genre> for &'a str {
    fn from(value: &Genre) -> (token: &'a str)
        ensures
            token == value.token(),
    {
        match value {
            Genre::All => "all",
            Genre::Action => "action",
            Genre::Adventure => "adventure",
            Genre::Animation => "animation",
            Genre::Biography => "biography",
            Genre::Comedy => "comedy",
            Genre::Crime => "crime",
            Genre::Documentary => "documentary",
            Genre::Drama => "drama",
            Genre::Family => "family",
            Genre::Fantasy => "fantasy",
            Genre::FilmNoir => "film-noir",
            Genre::GameShow => "game-show",
            Genre::History => "history",
            Genre::Horror => "horror",
            Genre::Music => "music",
            Genre::Musical => "musical",
            Genre::Mystery => "mystery",
            Genre::News => "news",
            Genre::RealityTV => "reality-tv",
            Genre::Romance => "romance",
            Genre::SciFi => "sci-fi",
            Genre::Sport => "sport",
            Genre::TalkShow => "talk-show",
            Genre::Thriller => "thriller",
            Genre::War => "war",
            Genre::Western => "western",
        }
    }
}

impl<'a> FromSpecImpl<&Genre> for &'a str {
    open spec fn obeys_from_spec() -> bool {
        true
    }

    open spec fn from_spec(value: &Genre) -> &'a str {
        value.token()
    }
}

} // verus!
