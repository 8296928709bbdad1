//! The ways in which building a URL or reading a page can fail.

use vstd::prelude::*;

verus! {

/// Why a URL could not be built or a page could not be read.
#[derive(Debug, PartialEq, Eq)]
pub enum Error {
    /// The selector engine refused one of the selectors the library uses.
    SelectorError,
    /// A result row has no link to its movie's page.
    MovieLinkError,
    /// A result row has no poster image.
    MovieImageError,
    /// A result row has no rating, or one that is not a number.
    MovieRatingError,
    /// A result row has no release year, or one that is not a number.
    MovieYearError,
    /// A result row has no title.
    MovieNameError,
    /// A result row names a genre outside the vocabulary.
    MovieGenreError,
    /// A movie page lacks a field of one of its torrents.
    TorrentDataError,
    /// The host, which the variant carries, is no base for a URL.
    ParseError(String),
    /// A page is longer than the parser takes, or the words of a search are
    /// longer than a URL takes.
    LengthError,
}

/// The outcome of reading a row of items one after the other: every item's
/// value in order, or the error of the first item that has one.
pub open spec fn all_or_first_error<T, E>(outcomes: Seq<Result<T, E>>) -> Result<Seq<T>, E>
    decreases outcomes.len(),
{
    if outcomes.len() == 0 {
        Ok(Seq::empty())
    } else {
        match all_or_first_error(outcomes.drop_last()) {
            Err(error) => Err(error),
            Ok(values) => match outcomes.last() {
                Err(error) => Err(error),
                Ok(value) => Ok(values.push(value)),
            },
        }
    }
}

/// Whether the item at place `at` is the first of `outcomes` that has an
/// error, and `error` is that error.
pub open spec fn fails_first_at<T, E>(outcomes: Seq<Result<T, E>>, at: int, error: E) -> bool {
    &&& 0 <= at < outcomes.len()
    &&& outcomes[at] == Err::<T, E>(error)
    &&& forall|before: int| 0 <= before < at ==> (#[trigger] outcomes[before]) is Ok
}

/// Whether every item of `outcomes` has a value, and `values` holds these
/// values, one for each item and in order.
pub open spec fn holds_all<T, E>(outcomes: Seq<Result<T, E>>, values: Seq<T>) -> bool {
    &&& values.len() == outcomes.len()
    &&& forall|at: int|
        0 <= at < outcomes.len() ==> #[trigger] outcomes[at] == Ok::<T, E>(values[at])
}

/// Reading a row of items gives all or nothing: either every item has a
/// value and these are the values read, or the error is that of the first
/// item that has one.
pub proof fn lemma_all_or_first_error<T, E>(outcomes: Seq<Result<T, E>>)
    ensures
        all_or_first_error(outcomes) matches Ok(values) ==> holds_all(outcomes, values),
        all_or_first_error(outcomes) matches Err(error) ==> exists|at: int|
            #[trigger] fails_first_at(outcomes, at, error),
    decreases outcomes.len(),
{
    if outcomes.len() > 0 {
        let shorter = outcomes.drop_last();
        lemma_all_or_first_error(shorter);
        let whole = all_or_first_error(outcomes);
        match all_or_first_error(shorter) {
            Err(error) => {
                let at = choose|at: int| #[trigger] fails_first_at(shorter, at, error);
                assert(outcomes[at] == shorter[at]);
                assert forall|before: int| 0 <= before < at implies (
                #[trigger] outcomes[before]) is Ok by {
                    assert(outcomes[before] == shorter[before]);
                }
                assert(fails_first_at(outcomes, at, whole->Err_0));
            },
            Ok(values) => match outcomes.last() {
                Err(error) => {
                    let at = outcomes.len() - 1;
                    assert forall|before: int| 0 <= before < at implies (
                    #[trigger] outcomes[before]) is Ok by {
                        assert(outcomes[before] == shorter[before]);
                    }
                    assert(fails_first_at(outcomes, at, whole->Err_0));
                },
                Ok(value) => {
                    assert forall|at: int| 0 <= at < outcomes.len() implies #[trigger] outcomes[at]
                        == Ok::<T, E>(whole->Ok_0[at]) by {
                        if at < shorter.len() {
                            assert(outcomes[at] == shorter[at]);
                        }
                    }
                },
            },
        }
    }
}

/// Once the beginning of a row of items has an error, the whole row has that
/// error.
pub proof fn lemma_error_of_prefix<T, E>(outcomes: Seq<Result<T, E>>, keep: int)
    requires
        0 <= keep <= outcomes.len(),
        all_or_first_error(outcomes.take(keep)) is Err,
    ensures
        all_or_first_error(outcomes) == all_or_first_error(outcomes.take(keep)),
    decreases outcomes.len() - keep,
{
    if keep == outcomes.len() {
        assert(outcomes.take(keep) =~= outcomes);
    } else {
        assert(outcomes.drop_last().take(keep) =~= outcomes.take(keep));
        lemma_error_of_prefix(outcomes.drop_last(), keep);
    }
}

} // verus!
