//! How alike two movies are.
//!
//! The score is a weighted sum of four components, each between 0 and 1:
//! the Jaccard index of the two genre sets (weight 0.45), whether both movies
//! have the same known director (0.20), the number of shared cast ids out of
//! five (0.20) and how close the two vote averages are within a window of
//! five points (0.15). It is scaled to 0..=100 and rounded to one decimal; this
//! module holds it as a whole number of tenths, 0..=1000, computed over
//! fractions of whole numbers so that no rounding happens before the last step.

use std::collections::HashSet;
use vstd::prelude::*;
use vstd::set_lib::{lemma_len_subset, lemma_set_intersect_union_lens};
use vstd::seq_lib::seq_to_set_is_finite;

use crate::model::{MovieDetails, MovieDetailsView};

verus! {

broadcast use vstd::std_specs::hash::group_hash_axioms;

/// Weight of the genre component, in thousandths.
pub const GENRE_WEIGHT: u64 = 450;

/// Weight of the director component, in thousandths.
pub const DIRECTOR_WEIGHT: u64 = 200;

/// Weight of the cast component, in thousandths.
pub const CAST_WEIGHT: u64 = 200;

/// Weight of the rating component, in thousandths.
pub const RATING_WEIGHT: u64 = 150;

/// The number of shared cast ids at which the cast component is full.
pub const CAST_FULL: u64 = 5;

/// The difference of two vote averages, in thousandths of a point, at which
/// the rating component reaches zero.
pub const RATING_WINDOW_MILLI: u32 = 5000;

/// The highest score, in tenths of a point.
pub const MAX_SCORE: u32 = 1000;

/// The fraction `num / den`.
pub struct Ratio {
    pub num: int,
    pub den: int,
}

impl Ratio {
    /// The fraction 0/1.
    pub open spec fn zero() -> Ratio {
        Ratio { num: 0, den: 1 }
    }

    /// The fraction 1/1.
    pub open spec fn one() -> Ratio {
        Ratio { num: 1, den: 1 }
    }

    /// The fraction lies between 0 and 1 and its denominator is positive.
    pub open spec fn is_unit(self) -> bool {
        0 <= self.num <= self.den && 0 < self.den
    }

    /// The fraction is zero.
    pub open spec fn is_zero(self) -> bool {
        self.num == 0
    }

    /// `k` times the fraction.
    pub open spec fn times(self, k: int) -> Ratio {
        Ratio { num: k * self.num, den: self.den }
    }

    /// The sum of two fractions, over the product of their denominators.
    pub open spec fn plus(self, other: Ratio) -> Ratio {
        Ratio { num: self.num * other.den + other.num * self.den, den: self.den * other.den }
    }

    /// The whole number nearest to a fraction that is not negative; a half
    /// rounds up.
    pub open spec fn rounded(self) -> int {
        (2 * self.num + self.den) / (2 * self.den)
    }
}

/// The number of distinct ids of `a` that `b` holds too.
pub open spec fn shared_ids(a: Seq<u64>, b: Seq<u64>) -> nat {
    a.to_set().intersect(b.to_set()).len()
}

/// The number of distinct ids that `a` and `b` hold together.
pub open spec fn joint_ids(a: Seq<u64>, b: Seq<u64>) -> nat {
    a.to_set().union(b.to_set()).len()
}

/// The Jaccard index of two genre lists read as sets: the size of their
/// intersection over the size of their union. Zero where either is empty.
pub open spec fn genre_similarity(base: Seq<u64>, candidate: Seq<u64>) -> Ratio {
    if base.len() == 0 || candidate.len() == 0 {
        Ratio::zero()
    } else {
        Ratio { num: shared_ids(base, candidate) as int, den: joint_ids(base, candidate) as int }
    }
}

/// One where both directors are known and the same, else zero.
pub open spec fn director_match(base: Option<u64>, candidate: Option<u64>) -> Ratio {
    if base is Some && candidate is Some && base->0 == candidate->0 {
        Ratio::one()
    } else {
        Ratio::zero()
    }
}

/// The number of shared cast ids over five, at most one. Zero where either
/// list is empty.
pub open spec fn cast_overlap(base: Seq<u64>, candidate: Seq<u64>) -> Ratio {
    if base.len() == 0 || candidate.len() == 0 {
        Ratio::zero()
    } else {
        let shared = shared_ids(base, candidate) as int;
        Ratio {
            num: if shared < CAST_FULL {
                shared
            } else {
                CAST_FULL as int
            },
            den: CAST_FULL as int,
        }
    }
}

/// The distance of two vote averages, in thousandths of a point.
pub open spec fn rating_distance(base: u32, candidate: u32) -> int {
    if base >= candidate {
        base - candidate
    } else {
        candidate - base
    }
}

/// One minus a fifth of the distance of the two vote averages in points, and
/// zero from a distance of five points on.
pub open spec fn rating_proximity(base: u32, candidate: u32) -> Ratio {
    let distance = rating_distance(base, candidate);
    Ratio {
        num: if distance >= RATING_WINDOW_MILLI { 0 } else { RATING_WINDOW_MILLI - distance },
        den: RATING_WINDOW_MILLI as int,
    }
}

/// A thousand times the weighted sum of the four components.
pub open spec fn weighted_sum(base: MovieDetailsView, candidate: MovieDetailsView) -> Ratio {
    genre_similarity(base.genre_ids, candidate.genre_ids).times(GENRE_WEIGHT as int).plus(
        director_match(base.director_id, candidate.director_id).times(DIRECTOR_WEIGHT as int),
    ).plus(cast_overlap(base.cast_ids, candidate.cast_ids).times(CAST_WEIGHT as int)).plus(
        rating_proximity(base.vote_average_milli, candidate.vote_average_milli).times(
            RATING_WEIGHT as int,
        ),
    )
}

/// The similarity of two movies in tenths of a point: the weighted sum of the
/// components on a scale of 0 to 100, rounded to one decimal.
pub open spec fn score_tenths(base: MovieDetailsView, candidate: MovieDetailsView) -> int {
    weighted_sum(base, candidate).rounded()
}

/// A fraction of machine integers.
struct Fraction {
    num: u128,
    den: u128,
}

impl View for Fraction {
    type V = Ratio;

    closed spec fn view(&self) -> Ratio {
        Ratio { num: self.num as int, den: self.den as int }
    }
}

/// Sizes of two id lists read as sets, and of what they share.
struct Overlap {
    first: usize,
    second: usize,
    shared: usize,
}

/// The ids of a list as a set.
fn id_set(ids: &Vec<u64>) -> (set: HashSet<u64>)
    ensures
        set@ == ids@.to_set(),
{
    let mut set: HashSet<u64> = HashSet::new();
    let mut i: usize = 0;
    while i < ids.len()
        invariant
            i <= ids.len(),
            set@ == ids@.take(i as int).to_set(),
        decreases ids.len() - i,
    {
        proof {
            assert(ids@.take(i + 1) =~= ids@.take(i as int).push(ids@[i as int]));
            ids@.take(i as int).lemma_push_to_set_commute(ids@[i as int]);
        }
        set.insert(ids[i]);
        i += 1;
    }
    assert(ids@.take(ids.len() as int) =~= ids@);
    set
}

/// Counts the distinct ids of each list and those that both hold.
fn overlap(a: &Vec<u64>, b: &Vec<u64>) -> (o: Overlap)
    ensures
        o.first == a@.to_set().len(),
        o.second == b@.to_set().len(),
        o.shared == shared_ids(a@, b@),
{
    let other = id_set(b);
    let mut seen: HashSet<u64> = HashSet::new();
    let mut shared: usize = 0;
    let mut i: usize = 0;
    assert(Set::<u64>::empty().intersect(other@) =~= Set::<u64>::empty());
    while i < a.len()
        invariant
            i <= a.len(),
            other@ == b@.to_set(),
            seen@ == a@.take(i as int).to_set(),
            shared == seen@.intersect(other@).len(),
            shared <= i,
        decreases a.len() - i,
    {
        let id = a[i];
        let ghost before = seen@;
        proof {
            assert(a@.take(i + 1) =~= a@.take(i as int).push(id));
            a@.take(i as int).lemma_push_to_set_commute(id);
            seq_to_set_is_finite(a@.take(i as int));
        }
        let fresh = seen.insert(id);
        if fresh && other.contains(&id) {
            assert(before.insert(id).intersect(other@) =~= before.intersect(other@).insert(id));
            shared += 1;
        } else {
            assert(before.insert(id).intersect(other@) =~= before.intersect(other@));
        }
        i += 1;
    }
    proof {
        assert(a@.take(a.len() as int) =~= a@);
        seq_to_set_is_finite(a@);
        seq_to_set_is_finite(b@);
    }
    Overlap { first: seen.len(), second: other.len(), shared }
}

/// The largest denominator that `plus_weighted` takes: 2 to the power 80.
const DEN_LIMIT: u128 = 0x1_0000_0000_0000_0000_0000;

impl Fraction {
    /// `weight` times a fraction that is at most one.
    fn times(self, weight: u128) -> (product: Fraction)
        requires
            self@.is_unit(),
            self.den <= DEN_LIMIT,
            weight <= MAX_SCORE,
        ensures
            product@ == self@.times(weight as int),
            product.den == self.den,
            product.num <= weight * product.den,
    {
        proof {
            let (n, d, w) = (self.num as int, self.den as int, weight as int);
            assert(w * n <= w * d <= 1000 * 0x1_0000_0000_0000_0000_0000) by (nonlinear_arith)
                requires
                    0 <= n <= d <= 0x1_0000_0000_0000_0000_0000,
                    0 <= w <= 1000,
            ;
        }
        Fraction { num: weight * self.num, den: self.den }
    }

    /// Adds `weight` times `part` to a fraction that is at most `bound`.
    fn plus_weighted(self, weight: u128, part: Fraction, Ghost(bound): Ghost<int>) -> (sum:
        Fraction)
        requires
            0 < self.den <= DEN_LIMIT,
            0 <= bound,
            bound + weight <= MAX_SCORE,
            self.num <= bound * self.den,
            0 < part.den <= RATING_WINDOW_MILLI,
            part.num <= part.den,
        ensures
            sum@ == self@.plus(part@.times(weight as int)),
            sum.den == self.den * part.den,
            0 < sum.den,
            sum.num <= (bound + weight) * sum.den,
    {
        proof {
            let (n, d, pn, pd, w) = (
                self.num as int,
                self.den as int,
                part.num as int,
                part.den as int,
                weight as int,
            );
            assert(n * pd <= 1000 * 0x1_0000_0000_0000_0000_0000 * 5000) by (nonlinear_arith)
                requires
                    0 <= n <= bound * d,
                    0 <= bound <= 1000,
                    0 < d <= 0x1_0000_0000_0000_0000_0000,
                    0 < pd <= 5000,
            ;
            assert(w * pn <= 1000 * 5000) by (nonlinear_arith)
                requires
                    0 <= w <= 1000,
                    0 <= pn <= pd,
                    pd <= 5000,
            ;
            assert((w * pn) * d <= 1000 * 5000 * 0x1_0000_0000_0000_0000_0000)
                by (nonlinear_arith)
                requires
                    0 <= w * pn <= 1000 * 5000,
                    0 < d <= 0x1_0000_0000_0000_0000_0000,
            ;
            assert(d * pd <= 0x1_0000_0000_0000_0000_0000 * 5000) by (nonlinear_arith)
                requires
                    0 < d <= 0x1_0000_0000_0000_0000_0000,
                    0 < pd <= 5000,
            ;
            lemma_plus_within(self@, bound, part@, w);
        }
        Fraction {
            num: self.num * part.den + (weight * part.num) * self.den,
            den: self.den * part.den,
        }
    }
}

/// The genre component of the score.
fn genre_fraction(base: &Vec<u64>, candidate: &Vec<u64>) -> (f: Fraction)
    ensures
        f@ == genre_similarity(base@, candidate@),
        f@.is_unit(),
        f.den <= 2 * usize::MAX,
{
    if base.len() == 0 || candidate.len() == 0 {
        Fraction { num: 0, den: 1 }
    } else {
        let sizes = overlap(base, candidate);
        proof {
            seq_to_set_is_finite(base@);
            seq_to_set_is_finite(candidate@);
            let (a, b) = (base@.to_set(), candidate@.to_set());
            lemma_set_intersect_union_lens(a, b);
            lemma_len_subset(a.intersect(b), a.union(b));
            assert(a.union(b).contains(base@[0]));
        }
        Fraction {
            num: sizes.shared as u128,
            den: sizes.first as u128 + sizes.second as u128 - sizes.shared as u128,
        }
    }
}

/// The director component of the score.
fn director_fraction(base: Option<u64>, candidate: Option<u64>) -> (f: Fraction)
    ensures
        f@ == director_match(base, candidate),
        f@.is_unit(),
        f.den == 1,
{
    match (base, candidate) {
        (Some(base_id), Some(candidate_id)) => {
            if base_id == candidate_id {
                Fraction { num: 1, den: 1 }
            } else {
                Fraction { num: 0, den: 1 }
            }
        },
        _ => Fraction { num: 0, den: 1 },
    }
}

/// The cast component of the score.
fn cast_fraction(base: &Vec<u64>, candidate: &Vec<u64>) -> (f: Fraction)
    ensures
        f@ == cast_overlap(base@, candidate@),
        f@.is_unit(),
        f.den <= CAST_FULL,
{
    if base.len() == 0 || candidate.len() == 0 {
        Fraction { num: 0, den: 1 }
    } else {
        let sizes = overlap(base, candidate);
        let shared = sizes.shared as u128;
        Fraction {
            num: if shared < CAST_FULL as u128 {
                shared
            } else {
                CAST_FULL as u128
            },
            den: CAST_FULL as u128,
        }
    }
}

/// The rating component of the score.
fn rating_fraction(base: u32, candidate: u32) -> (f: Fraction)
    ensures
        f@ == rating_proximity(base, candidate),
        f@.is_unit(),
        f.den == RATING_WINDOW_MILLI,
{
    let distance = if base >= candidate {
        base - candidate
    } else {
        candidate - base
    };
    Fraction {
        num: if distance >= RATING_WINDOW_MILLI {
            0
        } else {
            (RATING_WINDOW_MILLI - distance) as u128
        },
        den: RATING_WINDOW_MILLI as u128,
    }
}

/// The similarity of `candidate` to `base`, in tenths of a point.
pub fn similarity_score(base: &MovieDetails, candidate: &MovieDetails) -> (score: u32)
    ensures
        score == score_tenths(base@, candidate@),
        score <= MAX_SCORE,
{
    let genre = genre_fraction(&base.genre_ids, &candidate.genre_ids);
    let director = director_fraction(base.director_id, candidate.director_id);
    let cast = cast_fraction(&base.cast_ids, &candidate.cast_ids);
    let rating = rating_fraction(base.vote_average_milli, candidate.vote_average_milli);

    let with_genre = genre.times(GENRE_WEIGHT as u128);
    let with_director = with_genre.plus_weighted(
        DIRECTOR_WEIGHT as u128,
        director,
        Ghost(GENRE_WEIGHT as int),
    );
    let with_cast = with_director.plus_weighted(
        CAST_WEIGHT as u128,
        cast,
        Ghost(GENRE_WEIGHT + DIRECTOR_WEIGHT),
    );
    proof {
        let (d, c) = (genre.den as int, cast.den as int);
        assert(d * c <= 0x2_0000_0000_0000_0000 * 5) by (nonlinear_arith)
            requires
                0 < d <= 0x2_0000_0000_0000_0000,
                0 < c <= 5,
        ;
    }
    let sum = with_cast.plus_weighted(
        RATING_WEIGHT as u128,
        rating,
        Ghost(GENRE_WEIGHT + DIRECTOR_WEIGHT + CAST_WEIGHT),
    );
    proof {
        let (n, d) = (sum.num as int, sum.den as int);
        assert(0 <= (2 * n + d) / (2 * d) <= 1000) by (nonlinear_arith)
            requires
                0 <= n <= 1000 * d,
                0 < d,
        ;
    }
    ((2 * sum.num + sum.den) / (2 * sum.den)) as u32
}

/// Adding a weighted component between 0 and 1 to a sum that is at most
/// `bound` gives a sum that is at most `bound + weight`.
pub proof fn lemma_plus_within(sum: Ratio, bound: int, part: Ratio, weight: int)
    by (nonlinear_arith)
    requires
        0 < sum.den,
        0 <= sum.num <= bound * sum.den,
        part.is_unit(),
        0 <= weight,
        0 <= bound,
    ensures
        0 < sum.plus(part.times(weight)).den,
        0 <= sum.plus(part.times(weight)).num <= (bound + weight) * sum.plus(
            part.times(weight),
        ).den,
{
}

/// The weighted sum of four full components, the first over `u`.
proof fn lemma_full_sum(u: int)
    by (nonlinear_arith)
    requires
        u > 0,
    ensures
        (Ratio { num: u, den: u }).times(450).plus(Ratio::one().times(200)).plus(
            (Ratio { num: 5, den: 5 }).times(200),
        ).plus((Ratio { num: 5000, den: 5000 }).times(150)) == (Ratio {
            num: 25_000_000 * u,
            den: 25_000 * u,
        }),
        (2 * (25_000_000 * u) + 25_000 * u) / (2 * (25_000 * u)) == 1000,
{
}

/// Each component of the score lies between 0 and 1.
pub proof fn lemma_components_are_unit(base: MovieDetailsView, candidate: MovieDetailsView)
    ensures
        genre_similarity(base.genre_ids, candidate.genre_ids).is_unit(),
        director_match(base.director_id, candidate.director_id).is_unit(),
        cast_overlap(base.cast_ids, candidate.cast_ids).is_unit(),
        rating_proximity(base.vote_average_milli, candidate.vote_average_milli).is_unit(),
{
    if base.genre_ids.len() > 0 && candidate.genre_ids.len() > 0 {
        let (a, b) = (base.genre_ids.to_set(), candidate.genre_ids.to_set());
        seq_to_set_is_finite(base.genre_ids);
        seq_to_set_is_finite(candidate.genre_ids);
        lemma_len_subset(a.intersect(b), a.union(b));
        assert(a.union(b).contains(base.genre_ids[0]));
    }
}

/// Every score lies between 0 and 100 points.
pub proof fn lemma_score_in_range(base: MovieDetailsView, candidate: MovieDetailsView)
    ensures
        0 <= score_tenths(base, candidate) <= MAX_SCORE,
{
    lemma_components_are_unit(base, candidate);
    let genre = genre_similarity(base.genre_ids, candidate.genre_ids);
    let director = director_match(base.director_id, candidate.director_id);
    let cast = cast_overlap(base.cast_ids, candidate.cast_ids);
    let rating = rating_proximity(base.vote_average_milli, candidate.vote_average_milli);
    let with_genre = genre.times(450);
    let with_director = with_genre.plus(director.times(200));
    let with_cast = with_director.plus(cast.times(200));
    let sum = with_cast.plus(rating.times(150));
    lemma_plus_within(with_genre, 450, director, 200);
    lemma_plus_within(with_director, 650, cast, 200);
    lemma_plus_within(with_cast, 850, rating, 150);
    let (n, d) = (sum.num, sum.den);
    assert(0 <= (2 * n + d) / (2 * d) <= 1000) by (nonlinear_arith)
        requires
            0 <= n <= 1000 * d,
            0 < d,
    ;
}

/// A movie compared with itself scores the full 100 points, where it has a
/// genre, a known director and at least five distinct cast ids.
pub proof fn lemma_same_movie_scores_full(movie: MovieDetailsView)
    requires
        movie.genre_ids.len() > 0,
        movie.director_id is Some,
        movie.cast_ids.to_set().len() >= CAST_FULL,
    ensures
        score_tenths(movie, movie) == MAX_SCORE,
{
    let genres = movie.genre_ids.to_set();
    let cast = movie.cast_ids.to_set();
    seq_to_set_is_finite(movie.genre_ids);
    assert(genres.intersect(genres) =~= genres);
    assert(genres.union(genres) =~= genres);
    assert(cast.intersect(cast) =~= cast);
    assert(genres.contains(movie.genre_ids[0]));
    assert(movie.cast_ids.len() > 0) by {
        if movie.cast_ids.len() == 0 {
            assert(cast =~= Set::<u64>::empty());
        }
    }
    let u = genres.len() as int;
    lemma_full_sum(u);
}

/// Swapping the two movies changes no component of the score, and so not the
/// score.
pub proof fn lemma_score_symmetric(a: MovieDetailsView, b: MovieDetailsView)
    ensures
        genre_similarity(a.genre_ids, b.genre_ids) == genre_similarity(b.genre_ids, a.genre_ids),
        director_match(a.director_id, b.director_id) == director_match(
            b.director_id,
            a.director_id,
        ),
        cast_overlap(a.cast_ids, b.cast_ids) == cast_overlap(b.cast_ids, a.cast_ids),
        rating_proximity(a.vote_average_milli, b.vote_average_milli) == rating_proximity(
            b.vote_average_milli,
            a.vote_average_milli,
        ),
        score_tenths(a, b) == score_tenths(b, a),
{
    lemma_overlap_symmetric(a.genre_ids, b.genre_ids);
    lemma_overlap_symmetric(a.cast_ids, b.cast_ids);
}

/// What two id lists share and what they hold together depends on no order
/// of the two.
pub proof fn lemma_overlap_symmetric(a: Seq<u64>, b: Seq<u64>)
    ensures
        shared_ids(a, b) == shared_ids(b, a),
        joint_ids(a, b) == joint_ids(b, a),
{
    assert(a.to_set().intersect(b.to_set()) =~= b.to_set().intersect(a.to_set()));
    assert(a.to_set().union(b.to_set()) =~= b.to_set().union(a.to_set()));
}

/// Where either list of ids is empty as a set, the genre component and the
/// cast component computed from the two lists are zero.
pub proof fn lemma_empty_side_contributes_nothing(base: Seq<u64>, candidate: Seq<u64>)
    requires
        base.to_set().is_empty() || candidate.to_set().is_empty(),
    ensures
        genre_similarity(base, candidate).is_zero(),
        cast_overlap(base, candidate).is_zero(),
{
    if base.len() > 0 {
        assert(base.to_set().contains(base[0]));
    }
    if candidate.len() > 0 {
        assert(candidate.to_set().contains(candidate[0]));
    }
}

} // verus!
