use yts_movies::{Filter, Filters, Genre, OrderBy, Page, Quality, Rating, Year};

#[test]
fn default_filter_serializes_to_the_unconstrained_tokens() {
    let filter = Filters::default().build();
    assert_eq!(filter.quality_to_str(), "all");
    assert_eq!(filter.genre_to_str(), "all");
    assert_eq!(filter.rating_to_str(), "0");
    assert_eq!(filter.year_to_str(), "0");
    assert_eq!(filter.order_by_to_str(), "latest");
    assert_eq!(filter.page, 1);
}

#[test]
fn default_filter_is_the_unconstrained_filter() {
    let filter = Filters::default().build();
    assert_eq!(
        filter,
        Filter {
            quality: Quality::All,
            genre: Genre::All,
            rating: Rating::All,
            year: Year::All,
            order_by: OrderBy::Latest,
            page: 1,
        }
    );
}

#[test]
fn each_setter_replaces_its_own_field_only() {
    let filter = Filters::default()
        .quality(Quality::P1080)
        .genre(Genre::Action)
        .rating(Rating::Seven)
        .year(Year::Range2000to2009)
        .order_by(OrderBy::Rating)
        .page(2)
        .build();
    assert_eq!(
        filter,
        Filter {
            quality: Quality::P1080,
            genre: Genre::Action,
            rating: Rating::Seven,
            year: Year::Range2000to2009,
            order_by: OrderBy::Rating,
            page: 2,
        }
    );

    let only_year = Filters::default().year(Year::Equal(1974)).build();
    assert_eq!(only_year.year, Year::Equal(1974));
    assert_eq!(only_year.quality, Quality::All);
    assert_eq!(only_year.genre, Genre::All);
    assert_eq!(only_year.rating, Rating::All);
    assert_eq!(only_year.order_by, OrderBy::Latest);
    assert_eq!(only_year.page, 1);
}

#[test]
fn a_later_setter_wins_over_an_earlier_one() {
    let filter = Filters::default().page(3).page(7).build();
    assert_eq!(filter.page, 7);
}

#[test]
fn page_number_is_passed_through_as_it_is() {
    assert_eq!(Filters::default().page(0).build().page, 0);
    assert_eq!(Filters::default().page(u32::MAX).build().page, u32::MAX);
}

#[test]
fn exact_year_serializes_to_its_digits() {
    let filter = Filters::default().year(Year::Equal(1974)).build();
    assert_eq!(filter.year_to_str(), "1974");
    assert_eq!(String::from(&Year::Equal(1974)), "1974");
    assert_eq!(String::from(&Year::Equal(0)), "0");
    assert_eq!(String::from(&Year::Equal(u32::MAX)), "4294967295");
}

#[test]
fn year_ranges_serialize_to_first_and_last_year() {
    assert_eq!(String::from(&Year::All), "0");
    assert_eq!(String::from(&Year::Range2000to2009), "2000-2009");
    assert_eq!(String::from(&Year::Range1990to1999), "1990-1999");
    assert_eq!(String::from(&Year::Range1980to1989), "1980-1989");
    assert_eq!(String::from(&Year::Range1970to1979), "1970-1979");
    assert_eq!(String::from(&Year::Range1950to1969), "1950-1969");
    assert_eq!(String::from(&Year::Range1900to1949), "1900-1949");
}

#[test]
fn quality_tokens() {
    assert_eq!(<&str>::from(&Quality::All), "all");
    assert_eq!(<&str>::from(&Quality::P720), "720p");
    assert_eq!(<&str>::from(&Quality::P1080), "1080p");
    assert_eq!(<&str>::from(&Quality::P2160), "2160p");
    assert_eq!(<&str>::from(&Quality::ThreeD), "3D");
}

#[test]
fn quality_round_trips_through_its_token() {
    for quality in [Quality::P720, Quality::P1080, Quality::P2160, Quality::ThreeD] {
        let token: &str = (&quality).into();
        assert_eq!(Quality::from(token), quality);
    }
}

#[test]
fn unknown_quality_label_reads_as_three_d() {
    assert_eq!(Quality::from("unknown-quality"), Quality::ThreeD);
    assert_eq!(Quality::from("3D"), Quality::ThreeD);
    assert_eq!(Quality::from(""), Quality::ThreeD);
    // No label reads as the wildcard, not even the wildcard's own token.
    assert_eq!(Quality::from("all"), Quality::ThreeD);
}

#[test]
fn quality_label_is_searched_for_the_resolution() {
    assert_eq!(Quality::from("720p.WEB"), Quality::P720);
    assert_eq!(Quality::from("1080p.BluRay"), Quality::P1080);
    assert_eq!(Quality::from("2160p.WEB.x265"), Quality::P2160);
    assert_eq!(Quality::from("BluRay 1080"), Quality::P1080);
    // 720 is looked for first.
    assert_eq!(Quality::from("1080 or 720"), Quality::P720);
    assert_eq!(Quality::from("2160 1080"), Quality::P1080);
    assert_eq!(Quality::from("72 0"), Quality::ThreeD);
}

#[test]
fn rating_tokens_are_their_digits() {
    let all = [
        (Rating::All, "0"),
        (Rating::One, "1"),
        (Rating::Two, "2"),
        (Rating::Three, "3"),
        (Rating::Four, "4"),
        (Rating::Five, "5"),
        (Rating::Six, "6"),
        (Rating::Seven, "7"),
        (Rating::Eight, "8"),
        (Rating::Nine, "9"),
    ];
    for (rating, token) in all {
        assert_eq!(<&str>::from(&rating), token);
        assert_eq!(Filters::default().rating(rating).build().rating_to_str(), token);
    }
}

#[test]
fn order_tokens() {
    let all = [
        (OrderBy::Latest, "latest"),
        (OrderBy::Oldest, "oldest"),
        (OrderBy::Featured, "featured"),
        (OrderBy::Year, "year"),
        (OrderBy::Rating, "rating"),
        (OrderBy::Likes, "likes"),
        (OrderBy::Alphabetical, "alphabetical"),
    ];
    for (order, token) in all {
        assert_eq!(<&str>::from(&order), token);
        assert_eq!(Filters::default().order_by(order).build().order_by_to_str(), token);
    }
}

fn genres() -> Vec<(Genre, &'static str, &'static str)> {
    vec![
        (Genre::Action, "action", "Action"),
        (Genre::Adventure, "adventure", "Adventure"),
        (Genre::Animation, "animation", "Animation"),
        (Genre::Biography, "biography", "Biography"),
        (Genre::Comedy, "comedy", "Comedy"),
        (Genre::Crime, "crime", "Crime"),
        (Genre::Documentary, "documentary", "Documentary"),
        (Genre::Drama, "drama", "Drama"),
        (Genre::Family, "family", "Family"),
        (Genre::Fantasy, "fantasy", "Fantasy"),
        (Genre::FilmNoir, "film-noir", "Film-Noir"),
        (Genre::GameShow, "game-show", "Game-Show"),
        (Genre::History, "history", "History"),
        (Genre::Horror, "horror", "Horror"),
        (Genre::Music, "music", "Music"),
        (Genre::Musical, "musical", "Musical"),
        (Genre::Mystery, "mystery", "Mystery"),
        (Genre::News, "news", "News"),
        (Genre::RealityTV, "reality-tv", "Reality-TV"),
        (Genre::Romance, "romance", "Romance"),
        (Genre::SciFi, "sci-fi", "Sci-Fi"),
        (Genre::Sport, "sport", "Sport"),
        (Genre::TalkShow, "talk-show", "Talk-Show"),
        (Genre::Thriller, "thriller", "Thriller"),
        (Genre::War, "war", "War"),
        (Genre::Western, "western", "Western"),
    ]
}

#[test]
fn genre_tokens_are_lower_case() {
    assert_eq!(<&str>::from(&Genre::All), "all");
    for (genre, token, _) in genres() {
        assert_eq!(<&str>::from(&genre), token);
        assert_eq!(Filters::default().genre(genre).build().genre_to_str(), token);
    }
}

#[test]
fn genre_labels_are_read_exactly() {
    for (genre, token, label) in genres() {
        assert_eq!(Genre::from_label(label), Some(genre));
        // The token of the URL is no label of a page.
        assert_eq!(Genre::from_label(token), None);
    }
}

#[test]
fn unknown_genre_label_is_refused() {
    assert_eq!(Genre::from_label("Telenovela"), None);
    assert_eq!(Genre::from_label(""), None);
    assert_eq!(Genre::from_label("All"), None);
    assert_eq!(Genre::from_label("all"), None);
    assert_eq!(Genre::from_label(" Crime"), None);
    assert_eq!(Genre::from_label("Sci Fi"), None);
}

#[test]
fn page_count_is_one_up_to_a_full_page() {
    assert_eq!(Page::create(1, 0).of, 1);
    assert_eq!(Page::create(1, 1).of, 1);
    assert_eq!(Page::create(1, 20).of, 1);
}

#[test]
fn page_count_rounds_up_beyond_a_full_page() {
    assert_eq!(Page::create(1, 21).of, 2);
    assert_eq!(Page::create(1, 40).of, 2);
    assert_eq!(Page::create(1, 41).of, 3);
    assert_eq!(Page::create(1, u32::MAX).of, 214_748_365);
}

#[test]
fn page_keeps_current_and_total() {
    let page = Page::create(7, 135);
    assert_eq!(page, Page { current: 7, of: 7, total: 135 });
}
