//! What becomes of the detail lookups.
//!
//! One lookup is made per candidate, and their outcomes come in the order in
//! which they complete. A candidate that the provider does not know is left
//! out without a word; any other failure ends the whole request with that
//! failure, and what was found until then is discarded.

use vstd::prelude::*;

use crate::error::{AppError, ErrorKind, ErrorView};
use crate::model::{details_views, MovieDetails, MovieDetailsView};

verus! {

/// The value of one lookup's outcome.
pub open spec fn outcome_view(outcome: Result<MovieDetails, AppError>) -> Result<
    MovieDetailsView,
    ErrorView,
> {
    match outcome {
        Ok(details) => Ok(details@),
        Err(error) => Err(error@),
    }
}

/// The values of a sequence of outcomes, in order.
pub open spec fn outcome_views(outcomes: Seq<Result<MovieDetails, AppError>>) -> Seq<
    Result<MovieDetailsView, ErrorView>,
> {
    outcomes.map_values(|o: Result<MovieDetails, AppError>| outcome_view(o))
}

/// The outcome is a failure that ends the request: an error of any kind but
/// `NotFound`.
pub open spec fn is_fatal(outcome: Result<MovieDetailsView, ErrorView>) -> bool {
    outcome is Err && outcome->Err_0.kind != ErrorKind::NotFound
}

/// The details that the successful lookups brought, in arrival order.
pub open spec fn found(outcomes: Seq<Result<MovieDetailsView, ErrorView>>) -> Seq<
    MovieDetailsView,
>
    decreases outcomes.len(),
{
    if outcomes.len() == 0 {
        Seq::empty()
    } else {
        let earlier = found(outcomes.drop_last());
        match outcomes.last() {
            Ok(details) => earlier.push(details),
            Err(_) => earlier,
        }
    }
}

/// The first failure in arrival order that ends the request, if there is one.
pub open spec fn first_fatal(outcomes: Seq<Result<MovieDetailsView, ErrorView>>) -> Option<
    ErrorView,
>
    decreases outcomes.len(),
{
    if outcomes.len() == 0 {
        None
    } else {
        match first_fatal(outcomes.drop_last()) {
            Some(error) => Some(error),
            None => if is_fatal(outcomes.last()) {
                Some(outcomes.last()->Err_0)
            } else {
                None
            },
        }
    }
}

/// What the lookups come to: the first fatal failure, or else everything that
/// was found.
pub open spec fn enriched(outcomes: Seq<Result<MovieDetailsView, ErrorView>>) -> Result<
    Seq<MovieDetailsView>,
    ErrorView,
> {
    match first_fatal(outcomes) {
        Some(error) => Err(error),
        None => Ok(found(outcomes)),
    }
}

/// The details gathered so far while the outcomes of one request arrive.
pub struct Enrichment {
    details: Vec<MovieDetails>,
}

impl View for Enrichment {
    type V = Seq<MovieDetailsView>;

    closed spec fn view(&self) -> Seq<MovieDetailsView> {
        details_views(self.details@)
    }
}

impl Enrichment {
    /// Nothing found yet.
    pub fn new() -> (e: Self)
        ensures
            e@ == Seq::<MovieDetailsView>::empty(),
    {
        let e = Enrichment { details: Vec::new() };
        e
    }

    /// Takes in the next outcome. Returns the error with which the request
    /// ends, or `None` where the next outcome is to be awaited.
    pub fn absorb(&mut self, outcome: Result<MovieDetails, AppError>) -> (fatal: Option<AppError>)
        ensures
            match outcome_view(outcome) {
                Ok(details) => fatal is None && final(self)@ == old(self)@.push(details),
                Err(error) => final(self)@ == old(self)@ && if error.kind
                    == ErrorKind::NotFound {
                    fatal is None
                } else {
                    fatal is Some && fatal->0@ == error
                },
            },
    {
        match outcome {
            Ok(details) => {
                proof {
                    self.details@.lemma_push_map_commute(|m: MovieDetails| m@, details);
                }
                self.details.push(details);
                None
            },
            Err(error) => {
                if error.is_not_found() {
                    None
                } else {
                    Some(error)
                }
            },
        }
    }

    /// How many candidates were found so far.
    pub fn len(&self) -> (n: usize)
        ensures
            n == self@.len(),
    {
        self.details.len()
    }

    /// Hands out what was found, in arrival order.
    pub fn into_details(self) -> (details: Vec<MovieDetails>)
        ensures
            details_views(details@) == self@,
    {
        self.details
    }
}

/// Goes through the outcomes of all lookups of one request in arrival order.
///
/// Fails with the first error that is not `NotFound`; otherwise returns the
/// details of every candidate that was found, in arrival order.
pub fn collect_details(outcomes: Vec<Result<MovieDetails, AppError>>) -> (result: Result<
    Vec<MovieDetails>,
    AppError,
>)
    ensures
        match enriched(outcome_views(outcomes@)) {
            Ok(details) => result is Ok && details_views(result->Ok_0@) == details,
            Err(error) => result is Err && result->Err_0@ == error,
        },
{
    let ghost all = outcome_views(outcomes@);
    let mut gathered = Enrichment::new();
    for outcome in it: outcomes
        invariant
            all == outcome_views(it.seq()),
            first_fatal(all.take(it.index() as int)) is None,
            gathered@ == found(all.take(it.index() as int)),
    {
        proof {
            let longer = all.take(it.index() + 1);
            assert(longer.drop_last() =~= all.take(it.index() as int));
        }
        match gathered.absorb(outcome) {
            Some(error) => {
                proof {
                    lemma_first_fatal_stays(all, it.index() + 1);
                }
                return Err(error);
            },
            None => {},
        }
    }
    assert(all.take(all.len() as int) =~= all);
    Ok(gathered.into_details())
}

/// A fatal failure among the first `n` outcomes is the first fatal failure of
/// them all.
pub proof fn lemma_first_fatal_stays(outcomes: Seq<Result<MovieDetailsView, ErrorView>>, n: int)
    requires
        0 <= n <= outcomes.len(),
        first_fatal(outcomes.take(n)) is Some,
    ensures
        first_fatal(outcomes) == first_fatal(outcomes.take(n)),
    decreases outcomes.len() - n,
{
    if n < outcomes.len() {
        assert(outcomes.take(n + 1).drop_last() =~= outcomes.take(n));
        lemma_first_fatal_stays(outcomes, n + 1);
    } else {
        assert(outcomes.take(n) =~= outcomes);
    }
}

/// A candidate that the provider does not know changes nothing: the request
/// ends as it would had that lookup never been made.
pub proof fn lemma_missing_candidate_is_left_out(
    outcomes: Seq<Result<MovieDetailsView, ErrorView>>,
    i: int,
)
    requires
        0 <= i < outcomes.len(),
        outcomes[i] is Err,
        outcomes[i]->Err_0.kind == ErrorKind::NotFound,
    ensures
        first_fatal(outcomes) == first_fatal(outcomes.remove(i)),
        found(outcomes) == found(outcomes.remove(i)),
        enriched(outcomes) == enriched(outcomes.remove(i)),
    decreases outcomes.len(),
{
    if i == outcomes.len() - 1 {
        assert(outcomes.remove(i) =~= outcomes.drop_last());
    } else {
        lemma_missing_candidate_is_left_out(outcomes.drop_last(), i);
        assert(outcomes.remove(i).drop_last() =~= outcomes.drop_last().remove(i));
    }
}

/// Where no lookup fails but for candidates that the provider does not know,
/// the request does not fail, and it keeps every candidate that was found.
pub proof fn lemma_missing_candidates_never_fail(
    outcomes: Seq<Result<MovieDetailsView, ErrorView>>,
)
    requires
        forall|i: int| 0 <= i < outcomes.len() ==> !is_fatal(#[trigger] outcomes[i]),
    ensures
        enriched(outcomes) == Ok::<Seq<MovieDetailsView>, ErrorView>(found(outcomes)),
        forall|i: int|
            0 <= i < outcomes.len() && outcomes[i] is Ok ==> found(outcomes).contains(
                #[trigger] outcomes[i]->Ok_0,
            ),
    decreases outcomes.len(),
{
    if outcomes.len() > 0 {
        let shorter = outcomes.drop_last();
        assert forall|i: int| 0 <= i < shorter.len() implies !is_fatal(#[trigger] shorter[i]) by {
            assert(shorter[i] == outcomes[i]);
        }
        lemma_missing_candidates_never_fail(shorter);
        assert forall|i: int| 0 <= i < outcomes.len() && outcomes[i] is Ok implies found(
            outcomes,
        ).contains(#[trigger] outcomes[i]->Ok_0) by {
            if i < shorter.len() {
                let at = choose|at: int|
                    0 <= at < found(shorter).len() && found(shorter)[at] == shorter[i]->Ok_0;
                assert(found(outcomes)[at] == outcomes[i]->Ok_0);
            } else {
                assert(found(outcomes)[found(outcomes).len() - 1] == outcomes[i]->Ok_0);
            }
        }
    }
}

/// A lookup that fails with anything but `NotFound` makes the request fail,
/// with an error of a kind other than `NotFound`; where no lookup before it
/// failed so, the request fails with the error of that very lookup.
pub proof fn lemma_fatal_failure_fails(
    outcomes: Seq<Result<MovieDetailsView, ErrorView>>,
    i: int,
)
    requires
        0 <= i < outcomes.len(),
        is_fatal(outcomes[i]),
    ensures
        enriched(outcomes) is Err,
        enriched(outcomes)->Err_0.kind != ErrorKind::NotFound,
        (forall|j: int| 0 <= j < i ==> !is_fatal(#[trigger] outcomes[j])) ==> enriched(outcomes)
            == Err::<Seq<MovieDetailsView>, ErrorView>(outcomes[i]->Err_0),
    decreases outcomes.len(),
{
    let shorter = outcomes.drop_last();
    if i < outcomes.len() - 1 {
        lemma_fatal_failure_fails(shorter, i);
        if forall|j: int| 0 <= j < i ==> !is_fatal(#[trigger] outcomes[j]) {
            assert forall|j: int| 0 <= j < i implies !is_fatal(#[trigger] shorter[j]) by {
                assert(shorter[j] == outcomes[j]);
            }
        }
    } else {
        if first_fatal(shorter) is Some {
            lemma_first_fatal_is_an_outcome(shorter);
        }
    }
}

/// The first fatal failure is the error of one of the lookups, and it is
/// fatal. Returns the place of that lookup.
pub proof fn lemma_first_fatal_is_an_outcome(
    outcomes: Seq<Result<MovieDetailsView, ErrorView>>,
) -> (at: int)
    requires
        first_fatal(outcomes) is Some,
    ensures
        0 <= at < outcomes.len(),
        is_fatal(outcomes[at]),
        outcomes[at]->Err_0 == first_fatal(outcomes)->0,
        forall|j: int| 0 <= j < at ==> !is_fatal(#[trigger] outcomes[j]),
    decreases outcomes.len(),
{
    let shorter = outcomes.drop_last();
    if first_fatal(shorter) is Some {
        let at = lemma_first_fatal_is_an_outcome(shorter);
        assert forall|j: int| 0 <= j < at implies !is_fatal(#[trigger] outcomes[j]) by {
            assert(shorter[j] == outcomes[j]);
        }
        at
    } else {
        let at = outcomes.len() - 1;
        assert forall|j: int| 0 <= j < at implies !is_fatal(#[trigger] outcomes[j]) by {
            if is_fatal(shorter[j]) {
                lemma_fatal_failure_fails(shorter, j);
            }
        }
        at
    }
}

/// The first fatal failure, read from the front: that of the first outcome
/// where it is fatal, else that of the outcomes after it.
pub proof fn lemma_first_fatal_from_front(outcomes: Seq<Result<MovieDetailsView, ErrorView>>)
    requires
        outcomes.len() > 0,
    ensures
        first_fatal(outcomes) == if is_fatal(outcomes.first()) {
            Some(outcomes.first()->Err_0)
        } else {
            first_fatal(outcomes.drop_first())
        },
    decreases outcomes.len(),
{
    if outcomes.len() == 1 {
        assert(outcomes.drop_last() =~= Seq::empty());
        assert(outcomes.drop_first() =~= Seq::empty());
    } else {
        lemma_first_fatal_from_front(outcomes.drop_last());
        assert(outcomes.drop_last().drop_first() =~= outcomes.drop_first().drop_last());
    }
}

/// What was found, read from the front: what the first outcome brought, then
/// what the outcomes after it brought.
pub proof fn lemma_found_from_front(outcomes: Seq<Result<MovieDetailsView, ErrorView>>)
    requires
        outcomes.len() > 0,
    ensures
        found(outcomes) == match outcomes.first() {
            Ok(details) => seq![details] + found(outcomes.drop_first()),
            Err(_) => found(outcomes.drop_first()),
        },
    decreases outcomes.len(),
{
    if outcomes.len() == 1 {
        assert(outcomes.drop_last() =~= Seq::empty());
        assert(outcomes.drop_first() =~= Seq::empty());
        assert(found(outcomes) =~= match outcomes.first() {
            Ok(details) => seq![details] + found(outcomes.drop_first()),
            Err(_) => found(outcomes.drop_first()),
        });
    } else {
        lemma_found_from_front(outcomes.drop_last());
        assert(outcomes.drop_last().drop_first() =~= outcomes.drop_first().drop_last());
        assert(found(outcomes) =~= match outcomes.first() {
            Ok(details) => seq![details] + found(outcomes.drop_first()),
            Err(_) => found(outcomes.drop_first()),
        });
    }
}

} // verus!
