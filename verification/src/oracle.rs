//! The rules for data that an oracle submits, and what a submission does to
//! the reputation of the oracle.

use crate::error::AmocaError;
use crate::state::ClimateDataPoint;
use vstd::prelude::*;

verus! {

/// The most data points that one submission may hold.
pub const MAX_DATA_POINTS: usize = 10;

/// The greatest age, in seconds, at which a data point is still accepted.
pub const MAX_DATA_AGE: i64 = 3600;

/// The least confidence level at which a data point is accepted.
pub const MIN_CONFIDENCE: u8 = 50;

/// The highest reputation score.
pub const MAX_REPUTATION: u16 = 100;

/// The age of a data point at time `now`, in seconds.
pub open spec fn data_age(point: ClimateDataPoint, now: i64) -> int {
    now - point.timestamp
}

/// Why a data point is not accepted at time `now`, if it is not: it is older
/// than an hour, or else its confidence is below 50.
pub open spec fn point_rejection(point: ClimateDataPoint, now: i64) -> Option<AmocaError> {
    if data_age(point, now) > MAX_DATA_AGE {
        Some(AmocaError::StaleOracleData)
    } else if point.confidence_level < MIN_CONFIDENCE {
        Some(AmocaError::LowConfidenceData)
    } else {
        None
    }
}

/// Why the points from index `from` on are not all accepted, if they are
/// not: the rejection of the first of them that is rejected.
pub open spec fn points_rejection(points: Seq<ClimateDataPoint>, now: i64, from: int) -> Option<
    AmocaError,
>
    decreases points.len() - from,
{
    if from < 0 || from >= points.len() {
        None
    } else if point_rejection(points[from], now) is Some {
        point_rejection(points[from], now)
    } else {
        points_rejection(points, now, from + 1)
    }
}

/// Whether the age of every point that is looked at, from index `from` on,
/// can be computed in 64 bits. Points are looked at in order, up to and
/// including the first that is rejected.
pub open spec fn ages_in_range(points: Seq<ClimateDataPoint>, now: i64, from: int) -> bool
    decreases points.len() - from,
{
    if from < 0 || from >= points.len() {
        true
    } else {
        &&& i64::MIN <= data_age(points[from], now) <= i64::MAX
        &&& (point_rejection(points[from], now) is Some || ages_in_range(points, now, from + 1))
    }
}

/// The sum of the confidence levels of the points.
pub open spec fn confidence_sum(points: Seq<ClimateDataPoint>) -> nat
    decreases points.len(),
{
    if points.len() == 0 {
        0
    } else {
        confidence_sum(points.drop_last()) + points.last().confidence_level as nat
    }
}

/// The mean confidence level of the points, rounded down.
pub open spec fn average_confidence(points: Seq<ClimateDataPoint>) -> nat
    recommends
        points.len() > 0,
{
    confidence_sum(points) / points.len()
}

/// The reputation after a submission: midway between the reputation before
/// and the mean confidence of the submission, rounded down, and at most 100.
pub open spec fn blended_reputation(reputation: u16, average: nat) -> nat {
    let blend = (reputation + average) / 2;
    if blend <= MAX_REPUTATION {
        blend as nat
    } else {
        MAX_REPUTATION as nat
    }
}

/// The points from `from` on are all accepted exactly when each of them is,
/// and a rejection is that of a point before which all were accepted.
pub proof fn lemma_points_rejection(points: Seq<ClimateDataPoint>, now: i64, from: int)
    requires
        0 <= from <= points.len(),
    ensures
        points_rejection(points, now, from) is None <==> forall|i: int|
            from <= i < points.len() ==> point_rejection(#[trigger] points[i], now) is None,
        points_rejection(points, now, from) is Some ==> exists|i: int|
            {
                &&& from <= i < points.len()
                &&& point_rejection(#[trigger] points[i], now) == points_rejection(
                    points,
                    now,
                    from,
                )
                &&& forall|j: int|
                    from <= j < i ==> point_rejection(#[trigger] points[j], now) is None
            },
    decreases points.len() - from,
{
    if from < points.len() {
        lemma_points_rejection(points, now, from + 1);
        if point_rejection(points[from], now) is Some {
            assert(point_rejection(points[from], now) == points_rejection(points, now, from));
        } else {
            if points_rejection(points, now, from) is Some {
                let i = choose|i: int|
                    {
                        &&& from + 1 <= i < points.len()
                        &&& point_rejection(#[trigger] points[i], now) == points_rejection(
                            points,
                            now,
                            from + 1,
                        )
                        &&& forall|j: int|
                            from + 1 <= j < i ==> point_rejection(#[trigger] points[j], now)
                                is None
                    };
                assert forall|j: int| from <= j < i implies point_rejection(
                    #[trigger] points[j],
                    now,
                ) is None by {
                    if j == from {
                    }
                }
                assert(point_rejection(points[i], now) == points_rejection(points, now, from));
            }
            assert forall|i: int| from <= i < points.len() && (forall|k: int|
                from + 1 <= k < points.len() ==> point_rejection(#[trigger] points[k], now)
                    is None) implies point_rejection(#[trigger] points[i], now) is None by {
                if i > from {
                    assert(point_rejection(points[i], now) is None);
                }
            }
        }
    }
}

/// The confidence levels of accepted points sum to at least 50 for each
/// point and at most 255 for each point.
pub proof fn lemma_confidence_sum_bounds(points: Seq<ClimateDataPoint>, now: i64)
    requires
        points_rejection(points, now, 0) is None,
    ensures
        MIN_CONFIDENCE * points.len() <= confidence_sum(points) <= u8::MAX * points.len(),
    decreases points.len(),
{
    if points.len() > 0 {
        lemma_points_rejection(points, now, 0);
        let front = points.drop_last();
        assert forall|i: int| 0 <= i < front.len() implies point_rejection(
            #[trigger] front[i],
            now,
        ) is None by {
            assert(front[i] == points[i]);
        }
        lemma_points_rejection(front, now, 0);
        lemma_confidence_sum_bounds(front, now);
        assert(point_rejection(points[points.len() - 1], now) is None);
    }
}

/// A submission whose points are all accepted, and whose confidence levels
/// sum to at most 255, holds at most five points.
pub proof fn lemma_accepted_points_are_few(points: Seq<ClimateDataPoint>, now: i64)
    requires
        points_rejection(points, now, 0) is None,
        confidence_sum(points) <= u8::MAX,
    ensures
        points.len() <= 5,
{
    lemma_confidence_sum_bounds(points, now);
}

/// The sum over a front part of the points is at most the sum over all.
pub proof fn lemma_confidence_sum_front(points: Seq<ClimateDataPoint>, n: int)
    requires
        0 <= n <= points.len(),
    ensures
        confidence_sum(points.take(n)) <= confidence_sum(points),
    decreases points.len() - n,
{
    if n < points.len() {
        lemma_confidence_sum_front(points, n + 1);
        assert(points.take(n + 1).drop_last() =~= points.take(n));
    } else {
        assert(points.take(n) =~= points);
    }
}

/// The reputation after a submission is at most 100, and it lies between
/// the reputation before and the mean confidence where both are at most 100.
pub proof fn lemma_blended_reputation_bounds(reputation: u16, average: nat)
    ensures
        blended_reputation(reputation, average) <= MAX_REPUTATION,
        reputation <= MAX_REPUTATION && average <= MAX_REPUTATION ==> {
            &&& blended_reputation(reputation, average) == (reputation + average) / 2
            &&& reputation <= average ==> reputation <= blended_reputation(reputation, average)
                <= average
            &&& average <= reputation ==> average <= blended_reputation(reputation, average)
                <= reputation
        },
{
}

} // verus!
