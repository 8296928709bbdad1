use std::time::Duration;

use yts_movies::client::{append_filter, DEFAULT_HOST, DEFAULT_TIMEOUT_SECS, USER_AGENT};
use yts_movies::{Error, Filters, Genre, OrderBy, Quality, Rating, Year, Yts};

#[test]
fn default_client_asks_the_site_and_waits_ten_seconds() {
    let yts = Yts::default();
    assert_eq!(yts.host, "https://en.yts-official.mx");
    assert_eq!(yts.timeout, Duration::from_secs(10));
    assert_eq!(DEFAULT_HOST, "https://en.yts-official.mx");
    assert_eq!(DEFAULT_TIMEOUT_SECS, 10);
    assert_eq!(USER_AGENT, "Mozilla/5.0 (Linux x86_64)");
}

#[test]
fn new_client_keeps_host_and_timeout() {
    let yts = Yts::new("http://localhost:8080", Duration::from_millis(250));
    assert_eq!(yts.host, "http://localhost:8080");
    assert_eq!(yts.timeout, Duration::from_millis(250));
}

#[test]
fn search_url_with_default_filter() {
    let url = Yts::default().create_url("the godfather", &Filters::default().build());
    assert_eq!(
        url,
        Ok("https://en.yts-official.mx/browse-movies?keyword=the+godfather&quality=all\
            &genre=all&rating=0&year=0&order_by=latest&page=1"
            .to_string())
    );
}

#[test]
fn search_url_states_every_filter_in_order() {
    let filter = Filters::default()
        .quality(Quality::P2160)
        .genre(Genre::SciFi)
        .rating(Rating::Eight)
        .year(Year::Equal(1974))
        .order_by(OrderBy::Alphabetical)
        .page(12)
        .build();
    let url = Yts::new("http://localhost:8080", Duration::from_secs(1)).create_url("x", &filter);
    assert_eq!(
        url,
        Ok("http://localhost:8080/browse-movies?keyword=x&quality=2160p&genre=sci-fi&rating=8\
            &year=1974&order_by=alphabetical&page=12"
            .to_string())
    );
    let filter = Filters::default().year(Year::Range1970to1979).order_by(OrderBy::Rating).build();
    assert_eq!(
        Yts::default().create_url("the godfather", &filter),
        Ok("https://en.yts-official.mx/browse-movies?keyword=the+godfather&quality=all\
            &genre=all&rating=0&year=1970-1979&order_by=rating&page=1"
            .to_string())
    );
}

#[test]
fn search_words_are_trimmed_and_encoded() {
    let filter = Filters::default().build();
    let tail = "&quality=all&genre=all&rating=0&year=0&order_by=latest&page=1";
    let cases = [
        ("  killers of the flower moon \n", "killers+of+the+flower+moon"),
        ("", ""),
        ("   ", ""),
        ("a&b=c", "a%26b%3Dc"),
        ("50% off?", "50%25+off%3F"),
        ("#1 + more", "%231+%2B+more"),
        ("amélie", "am%C3%A9lie"),
        ("a/b", "a%2Fb"),
    ];
    for (words, encoded) in cases {
        assert_eq!(
            Yts::default().create_url(words, &filter),
            Ok(format!("https://en.yts-official.mx/browse-movies?keyword={}{}", encoded, tail)),
            "{:?}",
            words
        );
    }
}

#[test]
fn host_is_parsed_as_a_url() {
    let filter = Filters::default().build();
    let tail = "&quality=all&genre=all&rating=0&year=0&order_by=latest&page=1";
    assert_eq!(
        Yts::new("HTTPS://EXAMPLE.org:443", Duration::from_secs(1)).create_url("x", &filter),
        Ok(format!("https://example.org/browse-movies?keyword=x{}", tail))
    );
    assert_eq!(
        Yts::new("http://example.org/mirror", Duration::from_secs(1)).create_url("x", &filter),
        Ok(format!("http://example.org/mirror/browse-movies?keyword=x{}", tail))
    );
}

#[test]
fn host_that_is_no_url_is_reported_with_the_host() {
    let filter = Filters::default().build();
    for host in ["", "en.yts-official.mx", "not a url", "//missing.scheme", "http://[::1"] {
        assert_eq!(
            Yts::new(host, Duration::from_secs(1)).create_url("the godfather", &filter),
            Err(Error::ParseError(host.to_string())),
            "{:?}",
            host
        );
    }
}

#[test]
fn append_filter_puts_the_parameters_after_the_url() {
    let filter = Filters::default().genre(Genre::FilmNoir).page(2).build();
    assert_eq!(
        append_filter("x?keyword=y".to_string(), &filter),
        "x?keyword=y&quality=all&genre=film-noir&rating=0&year=0&order_by=latest&page=2"
    );
    assert_eq!(
        append_filter(String::new(), &Filters::default().build()),
        "&quality=all&genre=all&rating=0&year=0&order_by=latest&page=1"
    );
}
