//! The torrents of a movie, and their extraction from the HTML of the movie's
//! page.

use scraper::{ElementRef, Html};
use vstd::prelude::*;
use vstd::string::*;

use crate::error::{all_or_first_error, lemma_error_of_prefix, Error};
use crate::filter::Quality;
use crate::html::{
    compile, compiled_selector, document_matches, element_attr, element_matches, element_text,
    fits_parser, parsed_document, read_document, select_in_document, select_in_element, text_of,
    SELECTOR_LIMIT,
};
use crate::text::{is_substring, str_contains, str_eq, trim, trimmed};

verus! {

/// Selects the section of a movie page that describes its torrents.
pub const TECH_SPECS_SELECTOR: &'static str = "div#movie-tech-specs";

/// Selects, within that section, the quality label of a torrent.
pub const QUALITY_SELECTOR: &'static str = "span.tech-quality";

/// Selects, within that section, the block of facts of a torrent.
pub const FACTS_SELECTOR: &'static str = "div.tech-spec-info";

/// Selects the paragraph of a movie page that holds the download links.
pub const DOWNLOADS_SELECTOR: &'static str = "div#movie-info p";

/// Selects a download link within that paragraph.
pub const ANCHOR_SELECTOR: &'static str = "a";

/// Where the size stands among the facts of a torrent.
pub const SIZE_AT: usize = 0;

/// Where the language stands among the facts of a torrent.
pub const LANGUAGE_AT: usize = 2;

/// Where the runtime stands among the facts of a torrent.
pub const RUNTIME_AT: usize = 3;

/// Where the count of peers and seeds stands among the facts of a torrent.
pub const PEERS_SEEDS_AT: usize = 4;

/// The selectors of a movie page are within the limit that the library sets
/// for selector text.
proof fn lemma_selectors_within_limit()
    ensures
        TECH_SPECS_SELECTOR@.len() <= SELECTOR_LIMIT,
        QUALITY_SELECTOR@.len() <= SELECTOR_LIMIT,
        FACTS_SELECTOR@.len() <= SELECTOR_LIMIT,
        DOWNLOADS_SELECTOR@.len() <= SELECTOR_LIMIT,
        ANCHOR_SELECTOR@.len() <= SELECTOR_LIMIT,
{
    reveal_strlit("div#movie-tech-specs");
    reveal_strlit("span.tech-quality");
    reveal_strlit("div.tech-spec-info");
    reveal_strlit("div#movie-info p");
    reveal_strlit("a");
}

/// One way to download a movie.
#[derive(Debug, PartialEq, Eq)]
pub struct Torrent {
    /// Video quality.
    pub quality: Quality,
    /// Size of the download, as the page words it.
    pub size: String,
    /// Language, as the page words it.
    pub language: String,
    /// Runtime, as the page words it.
    pub runtime: String,
    /// Peers and seeds, as the page words them.
    pub peers_seeds: String,
    /// Absolute URL of the torrent file.
    pub link: String,
}

/// What a [`Torrent`] holds, as mathematical values.
pub struct TorrentView {
    pub quality: Quality,
    pub size: Seq<char>,
    pub language: Seq<char>,
    pub runtime: Seq<char>,
    pub peers_seeds: Seq<char>,
    pub link: Seq<char>,
}

impl View for Torrent {
    type V = TorrentView;

    open spec fn view(&self) -> TorrentView {
        TorrentView {
            quality: self.quality,
            size: self.size@,
            language: self.language@,
            runtime: self.runtime@,
            peers_seeds: self.peers_seeds@,
            link: self.link@,
        }
    }
}

impl DeepView for Torrent {
    type V = TorrentView;

    open spec fn deep_view(&self) -> TorrentView {
        self@
    }
}

/// Whether a trimmed text node of a block of facts states a fact: it is not
/// empty, none of the block's labels, and no frame rate.
pub open spec fn is_fact(text: Seq<char>) -> bool {
    &&& text.len() > 0
    &&& text != "P/S"@
    &&& text != "Subtitles"@
    &&& text != "NR"@
    &&& !is_substring("fps"@, text)
}

/// The text nodes of a block of facts, each without the white space around
/// it.
pub open spec fn trimmed_all(texts: Seq<Seq<char>>) -> Seq<Seq<char>> {
    texts.map_values(|text: Seq<char>| trimmed(text))
}

/// The facts that the text nodes of a block state, in order.
pub open spec fn facts_of(texts: Seq<Seq<char>>) -> Seq<Seq<char>> {
    trimmed_all(texts).filter(|text: Seq<char>| is_fact(text))
}

/// The torrent that a download link, a quality label and a block of facts
/// describe together.
///
/// `href` is the target of the link, relative to `host`; a link without
/// target points at the host itself. `label` holds the text nodes of the
/// quality label, of which the first counts, and `facts` the facts of the
/// block, which are told apart by their place. A link without label or
/// block, an empty label, and a block too short for one of the places
/// describe no torrent.
pub open spec fn torrent_of(
    host: Seq<char>,
    href: Option<Seq<char>>,
    label: Option<Seq<Seq<char>>>,
    facts: Option<Seq<Seq<char>>>,
) -> Result<TorrentView, Error> {
    if label is None || label->0.len() == 0 || facts is None || facts->0.len() <= PEERS_SEEDS_AT {
        Err(Error::TorrentDataError)
    } else {
        Ok(
            TorrentView {
                quality: Quality::of_label(label->0[0]),
                size: facts->0[SIZE_AT as int],
                language: facts->0[LANGUAGE_AT as int],
                runtime: facts->0[RUNTIME_AT as int],
                peers_seeds: facts->0[PEERS_SEEDS_AT as int],
                link: host + match href {
                    Some(target) => target,
                    None => Seq::empty(),
                },
            },
        )
    }
}

/// The torrent that the download link at place `at` describes, together with
/// the quality label and the block of facts at the same place.
pub open spec fn anchor_outcome(
    host: Seq<char>,
    anchors: Seq<ElementRef>,
    labels: Seq<ElementRef>,
    blocks: Seq<ElementRef>,
    at: int,
) -> Result<TorrentView, Error> {
    torrent_of(
        host,
        element_attr(anchors[at], "href"@),
        if at < labels.len() {
            Some(element_text(labels[at]))
        } else {
            None
        },
        if at < blocks.len() {
            Some(facts_of(element_text(blocks[at])))
        } else {
            None
        },
    )
}

/// What each of the download links describes.
pub open spec fn anchor_outcomes(
    host: Seq<char>,
    anchors: Seq<ElementRef>,
    labels: Seq<ElementRef>,
    blocks: Seq<ElementRef>,
) -> Seq<Result<TorrentView, Error>> {
    Seq::new(anchors.len(), |at: int| anchor_outcome(host, anchors, labels, blocks, at))
}

/// The torrents that the HTML text `html` of a movie page lists.
///
/// There is one torrent for each element matching [`ANCHOR_SELECTOR`] below
/// the first element matching [`DOWNLOADS_SELECTOR`]. It is described by the
/// elements matching [`QUALITY_SELECTOR`] and [`FACTS_SELECTOR`] that stand
/// at the same place below the first element matching
/// [`TECH_SPECS_SELECTOR`]. A page without that section or without that
/// paragraph lists no torrents; one link that describes no torrent fails the
/// whole page, and so does a text too long for the parser.
pub open spec fn torrents_of(host: Seq<char>, html: Seq<char>) -> Result<Seq<TorrentView>, Error> {
    if !fits_parser(html) {
        Err(Error::LengthError)
    } else {
        torrents_of_document(host, parsed_document(html))
    }
}

/// The torrents that the parsed document of a movie page lists.
pub open spec fn torrents_of_document(host: Seq<char>, document: Html) -> Result<
    Seq<TorrentView>,
    Error,
> {
    match (
        compiled_selector(TECH_SPECS_SELECTOR@),
        compiled_selector(QUALITY_SELECTOR@),
        compiled_selector(FACTS_SELECTOR@),
        compiled_selector(DOWNLOADS_SELECTOR@),
        compiled_selector(ANCHOR_SELECTOR@),
    ) {
        (Some(tech_specs), Some(quality), Some(facts), Some(downloads), Some(anchor)) => {
            let sections = document_matches(document, tech_specs);
            let paragraphs = document_matches(document, downloads);
            if sections.len() == 0 || paragraphs.len() == 0 {
                Ok(Seq::empty())
            } else {
                all_or_first_error(
                    anchor_outcomes(
                        host,
                        element_matches(paragraphs[0], anchor),
                        element_matches(sections[0], quality),
                        element_matches(sections[0], facts),
                    ),
                )
            }
        },
        _ => Err(Error::SelectorError),
    }
}

impl Torrent {
    /// A torrent with the given fields; the quality is read off its label.
    pub fn new(
        quality: &str,
        size: &str,
        language: &str,
        runtime: &str,
        peers_seeds: &str,
        link: String,
    ) -> (torrent: Torrent)
        ensures
            torrent@ == (TorrentView {
                quality: Quality::of_label(quality@),
                size: size@,
                language: language@,
                runtime: runtime@,
                peers_seeds: peers_seeds@,
                link: link@,
            }),
    {
        Torrent {
            quality: Quality::from(quality),
            size: String::from_str(size),
            language: String::from_str(language),
            runtime: String::from_str(runtime),
            peers_seeds: String::from_str(peers_seeds),
            link,
        }
    }

    /// Whether a trimmed text node of a block of facts states a fact.
    pub fn skip_useless_str(value: &str) -> (useful: bool)
        ensures
            useful == is_fact(value@),
    {
        !value.is_empty() && !str_eq(value, "P/S") && !str_eq(value, "Subtitles") && !str_eq(
            value,
            "NR",
        ) && !str_contains(value, "fps")
    }

    /// The facts that the text nodes of a block state, in order.
    pub fn facts<'a>(texts: &Vec<&'a str>) -> (kept: Vec<&'a str>)
        ensures
            kept.deep_view() == facts_of(texts.deep_view()),
    {
        let ghost nodes = trimmed_all(texts.deep_view());
        let mut kept: Vec<&'a str> = Vec::new();
        let mut at: usize = 0;
        proof {
            reveal(Seq::filter);
            assert(nodes.take(0).len() == 0);
            assert(kept.deep_view() =~= nodes.take(0).filter(|text: Seq<char>| is_fact(text)));
        }
        while at < texts.len()
            invariant
                at <= texts.len(),
                nodes == trimmed_all(texts.deep_view()),
                kept.deep_view() == nodes.take(at as int).filter(|text: Seq<char>| is_fact(text)),
            decreases texts.len() - at,
        {
            let text = trim(texts[at]);
            let ghost before = kept.deep_view();
            proof {
                reveal(Seq::filter);
                assert(nodes.take(at + 1).drop_last() =~= nodes.take(at as int));
                assert(nodes.take(at + 1).last() == text@);
            }
            if Torrent::skip_useless_str(text) {
                kept.push(text);
                assert(kept.deep_view() =~= before.push(text@));
            }
            at = at + 1;
        }
        assert(nodes.take(at as int) =~= nodes);
        kept
    }

    /// Puts a torrent together from its download link, its quality label and
    /// its facts, as far as the page has them.
    pub fn from_parts(
        host: &str,
        href: Option<&str>,
        label: Option<&Vec<&str>>,
        facts: Option<&Vec<&str>>,
    ) -> (outcome: Result<Torrent, Error>)
        ensures
            match torrent_of(host@, href.deep_view(), label.deep_view(), facts.deep_view()) {
                Ok(view) => outcome matches Ok(torrent) && torrent@ == view,
                Err(error) => outcome == Err::<Torrent, Error>(error),
            },
    {
        let label = match label {
            Some(label) => label,
            None => {
                return Err(Error::TorrentDataError);
            },
        };
        let facts = match facts {
            Some(facts) => facts,
            None => {
                return Err(Error::TorrentDataError);
            },
        };
        if label.len() == 0 || facts.len() <= PEERS_SEEDS_AT {
            return Err(Error::TorrentDataError);
        }
        let link = match href {
            Some(target) => String::from_str(host).concat(target),
            None => {
                let link = String::from_str(host);
                assert(link@ =~= host@ + Seq::<char>::empty());
                link
            },
        };
        Ok(
            Torrent::new(
                label[0],
                facts[SIZE_AT],
                facts[LANGUAGE_AT],
                facts[RUNTIME_AT],
                facts[PEERS_SEEDS_AT],
                link,
            ),
        )
    }

    /// Reads the torrents that the movie page `html` lists. `host` is put
    /// before the relative links of the page.
    #[verifier::loop_isolation(false)]
    pub fn create(host: &str, html: &str) -> (outcome: Result<Vec<Torrent>, Error>)
        ensures
            match torrents_of(host@, html@) {
                Ok(views) => outcome matches Ok(torrents) && torrents.deep_view() == views,
                Err(error) => outcome == Err::<Vec<Torrent>, Error>(error),
            },
    {
        let document = match read_document(html) {
            Some(document) => document,
            None => {
                return Err(Error::LengthError);
            },
        };
        proof {
            lemma_selectors_within_limit();
        }
        let tech_specs_selector = compile(TECH_SPECS_SELECTOR)?;
        let quality_selector = compile(QUALITY_SELECTOR)?;
        let facts_selector = compile(FACTS_SELECTOR)?;
        let downloads_selector = compile(DOWNLOADS_SELECTOR)?;
        let anchor_selector = compile(ANCHOR_SELECTOR)?;

        let mut torrents: Vec<Torrent> = Vec::new();
        assert(torrents.deep_view() =~= Seq::empty());
        let sections = select_in_document(&document, &tech_specs_selector);
        let paragraphs = select_in_document(&document, &downloads_selector);
        if sections.len() == 0 || paragraphs.len() == 0 {
            return Ok(torrents);
        }
        let labels = select_in_element(sections[0], &quality_selector);
        let blocks = select_in_element(sections[0], &facts_selector);
        let anchors = select_in_element(paragraphs[0], &anchor_selector);
        let ghost outcomes = anchor_outcomes(host@, anchors@, labels@, blocks@);
        let mut at: usize = 0;
        assert(outcomes.take(0) =~= Seq::empty());
        while at < anchors.len()
            invariant
                at <= anchors.len(),
                all_or_first_error(outcomes.take(at as int)) == Ok::<Seq<TorrentView>, Error>(
                    torrents.deep_view(),
                ),
            decreases anchors.len() - at,
        {
            let href = anchors[at].attr("href");
            let label = if at < labels.len() {
                Some(text_of(labels[at]))
            } else {
                None
            };
            let facts = if at < blocks.len() {
                Some(Torrent::facts(&text_of(blocks[at])))
            } else {
                None
            };
            let ghost seen = outcomes.take(at + 1);
            proof {
                assert(seen.drop_last() =~= outcomes.take(at as int));
                assert(seen.last() == anchor_outcome(host@, anchors@, labels@, blocks@, at as int));
            }
            match Torrent::from_parts(host, href, label.as_ref(), facts.as_ref()) {
                Ok(torrent) => {
                    let ghost before = torrents.deep_view();
                    torrents.push(torrent);
                    assert(torrents.deep_view() =~= before.push(torrent@));
                },
                Err(error) => {
                    proof {
                        lemma_error_of_prefix(outcomes, at + 1);
                    }
                    return Err(error);
                },
            }
            at = at + 1;
        }
        assert(outcomes.take(at as int) =~= outcomes);
        Ok(torrents)
    }
}

} // verus!
