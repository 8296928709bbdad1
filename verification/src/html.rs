//! The HTML parser and the CSS selector engine, as far as the extraction uses
//! them. Documents, selectors and elements are values of the `scraper` crate;
//! what the crate computes from them is named here and not described further.

use scraper::error::SelectorErrorKind;
use scraper::{ElementRef, Html, Selector};
use vstd::prelude::*;
use vstd::utf8::encode_utf8;

use crate::error::Error;

verus! {

/// A parsed HTML document.
#[verifier::external_type_specification]
#[verifier::external_body]
pub struct ExHtml(Html);

/// A compiled group of CSS selectors.
#[verifier::external_type_specification]
#[verifier::external_body]
pub struct ExSelector(Selector);

/// A reference to an element of a parsed document.
#[verifier::external_type_specification]
#[verifier::external_body]
pub struct ExElementRef<'a>(ElementRef<'a>);

/// The reason why selector text was refused.
#[verifier::external_type_specification]
#[verifier::external_body]
pub struct ExSelectorErrorKind(SelectorErrorKind);

/// The most bytes that one piece of text may take inside the parser.
///
/// The parser keeps text in buffers that count their length in 32 bits and
/// round their capacity up to a power of two, and that panic when either
/// overflows. Half of what 32 bits hold keeps the capacity within what a
/// machine of 32 bits can allocate at all.
pub const PIECE_LIMIT: usize = 0x4000_0000;

/// The most bytes that the parser writes for one byte of its input: the
/// three bytes of the replacement character, for a NUL byte.
pub const GROWTH: usize = 3;

/// The most characters of selector text that the library hands to the
/// selector engine.
///
/// The engine counts the lines of the text in 32 bits, and matches a selector
/// by recursion over its combinators. This limit keeps both far from where
/// they fail.
pub const SELECTOR_LIMIT: usize = 1024;

/// Whether the parser takes the text `html`: no piece of the document can
/// then outgrow the buffer that holds it.
pub open spec fn fits_parser(html: Seq<char>) -> bool {
    GROWTH * encode_utf8(html).len() <= PIECE_LIMIT
}

/// The document that `Html::parse_document` makes of `html`.
pub uninterp spec fn parsed_document(html: Seq<char>) -> Html;

/// The selector that `Selector::parse` makes of `css`, if it accepts it.
pub uninterp spec fn compiled_selector(css: Seq<char>) -> Option<Selector>;

/// The elements of `document` that match `selector`, in the order in which
/// `Html::select` yields them.
pub uninterp spec fn document_matches(document: Html, selector: Selector) -> Seq<
    ElementRef<'static>,
>;

/// The elements below `element` that match `selector`, in the order in which
/// `ElementRef::select` yields them.
pub uninterp spec fn element_matches(element: ElementRef, selector: Selector) -> Seq<ElementRef>;

/// The text nodes below `element`, in the order in which `ElementRef::text`
/// yields them.
pub uninterp spec fn element_text(element: ElementRef) -> Seq<Seq<char>>;

/// The value that `ElementRef::attr` finds for the attribute `name` of
/// `element`, if the element has that attribute.
pub uninterp spec fn element_attr(element: ElementRef, name: Seq<char>) -> Option<Seq<char>>;

/// `Html::parse_document` of scraper returns a document for every text that
/// fits the parser, and the document depends on the text alone. A longer
/// text makes the parser's buffers panic, so the call asks for one that
/// fits.
pub assume_specification[ Html::parse_document ](document: &str) -> (parsed: Html)
    requires
        fits_parser(document@),
    ensures
        parsed == parsed_document(document@),
;

/// `Selector::parse` of scraper either compiles the text or refuses it, and
/// which of the two, and the selector it returns, depend on the text alone.
/// The call asks for text within the limit that the library sets itself.
pub assume_specification[ Selector::parse ](selectors: &str) -> (parsed: Result<
    Selector,
    SelectorErrorKind,
>)
    requires
        selectors@.len() <= SELECTOR_LIMIT,
    ensures
        match parsed {
            Ok(selector) => compiled_selector(selectors@) == Some(selector),
            Err(_) => compiled_selector(selectors@) is None,
        },
;

/// `ElementRef::attr` of scraper looks an attribute up by name; what it finds
/// depends on the element and the name alone.
pub assume_specification<'a>[ ElementRef::<'a>::attr ](
    element: &ElementRef<'a>,
    attr: &str,
) -> (value: Option<&'a str>)
    ensures
        match value {
            Some(text) => element_attr(*element, attr@) == Some(text@),
            None => element_attr(*element, attr@) is None,
        },
;

/// `Html::select` of scraper, with the elements it yields collected in order.
#[verifier::external_body]
pub(crate) fn select_in_document<'a>(document: &'a Html, selector: &Selector) -> (found: Vec<
    ElementRef<'a>,
>)
    ensures
        found@ == document_matches(*document, *selector),
{
    document.select(selector).collect()
}

/// `ElementRef::select` of scraper, with the elements it yields collected in
/// order.
#[verifier::external_body]
pub(crate) fn select_in_element<'a>(element: ElementRef<'a>, selector: &Selector) -> (found: Vec<
    ElementRef<'a>,
>)
    ensures
        found@ == element_matches(element, *selector),
{
    element.select(selector).collect()
}

/// `ElementRef::text` of scraper, with the text nodes it yields collected in
/// order.
#[verifier::external_body]
pub(crate) fn text_of<'a>(element: ElementRef<'a>) -> (text: Vec<&'a str>)
    ensures
        text.deep_view() == element_text(element),
{
    element.text().collect()
}

/// Parses `html` where it fits the parser.
pub(crate) fn read_document(html: &str) -> (document: Option<Html>)
    ensures
        document == if fits_parser(html@) {
            Some(parsed_document(html@))
        } else {
            None
        },
{
    if html.as_bytes().len() <= PIECE_LIMIT / GROWTH {
        Some(Html::parse_document(html))
    } else {
        None
    }
}

/// Compiles selector text; the one failure there is, is the engine's refusal.
pub(crate) fn compile(css: &str) -> (outcome: Result<Selector, Error>)
    requires
        css@.len() <= SELECTOR_LIMIT,
    ensures
        match compiled_selector(css@) {
            Some(selector) => outcome == Ok::<Selector, Error>(selector),
            None => outcome == Err::<Selector, Error>(Error::SelectorError),
        },
{
    match Selector::parse(css) {
        Ok(selector) => Ok(selector),
        Err(_) => Err(Error::SelectorError),
    }
}

} // verus!
