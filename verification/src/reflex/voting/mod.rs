//! Triple modular redundancy: 2-out-of-3 voting with safety escalation.
//!
//! - two of the three sensors agree (within tolerance): their average is used;
//! - no two agree, or a sensor reports something that is not a finite number:
//!   escalate (uncertainty is treated as the worst case).
pub mod tolerances;

use vstd::prelude::*;

verus! {

/// One sensor reading as it reaches the voter.
#[derive(Clone, Copy, PartialEq, Eq, Debug, Structural)]
pub enum Reading {
    /// A finite reading, in fixed point (millionths of the unit).
    Finite(i64),
    /// The sensor reported NaN or an infinity.
    NonFinite,
}

/// Three redundant readings of one parameter: `a` is the primary sensor,
/// `b` and `c` the redundant ones.
#[derive(Clone, Copy, Debug)]
pub struct SensorTriplet<T> {
    pub a: T,
    pub b: T,
    pub c: T,
}

impl<T> SensorTriplet<T> {
    /// Create a sensor triplet.
    pub fn new(a: T, b: T, c: T) -> (triplet: Self)
        ensures
            triplet.a == a,
            triplet.b == b,
            triplet.c == c,
    {
        SensorTriplet { a, b, c }
    }
}

/// Result of a vote.
#[derive(Clone, Copy, Debug)]
pub enum VoteResult<T> {
    /// Two of the three sensors agreed: the value is valid.
    Consensus(T),
    /// No majority: unsafe, escalate the response.
    Escalate,
}

/// Two readings agree when they differ by at most `tolerance`.
pub open spec fn agree(x: i64, y: i64, tolerance: i64) -> bool {
    -tolerance <= x - y <= tolerance
}

/// Half of `s`, rounded toward zero.
pub open spec fn half_toward_zero(s: int) -> int {
    if s >= 0 {
        s / 2
    } else {
        -((-s) / 2)
    }
}

/// The average of two readings, rounded toward zero.
pub open spec fn average(x: i64, y: i64) -> i64 {
    half_toward_zero(x + y) as i64
}

/// The outcome of a vote: the first agreeing pair, in the order (a, b),
/// (b, c), (a, c), gives the consensus; a reading that is not finite, or no
/// agreeing pair, escalates.
pub open spec fn vote(triplet: SensorTriplet<Reading>, tolerance: i64) -> VoteResult<i64> {
    match (triplet.a, triplet.b, triplet.c) {
        (Reading::Finite(a), Reading::Finite(b), Reading::Finite(c)) => {
            if agree(a, b, tolerance) {
                VoteResult::Consensus(average(a, b))
            } else if agree(b, c, tolerance) {
                VoteResult::Consensus(average(b, c))
            } else if agree(a, c, tolerance) {
                VoteResult::Consensus(average(a, c))
            } else {
                VoteResult::Escalate
            }
        },
        _ => VoteResult::Escalate,
    }
}

/// All three readings are finite.
pub open spec fn all_finite(triplet: SensorTriplet<Reading>) -> bool {
    &&& triplet.a is Finite
    &&& triplet.b is Finite
    &&& triplet.c is Finite
}

/// Some two of the three (finite) readings agree.
pub open spec fn some_pair_agrees(triplet: SensorTriplet<Reading>, tolerance: i64) -> bool {
    let a = triplet.a->Finite_0;
    let b = triplet.b->Finite_0;
    let c = triplet.c->Finite_0;
    agree(a, b, tolerance) || agree(b, c, tolerance) || agree(a, c, tolerance)
}

/// The average of two readings lies between them.
pub proof fn lemma_average_between(x: i64, y: i64)
    ensures
        x <= y ==> x <= average(x, y) <= y,
        y <= x ==> y <= average(x, y) <= x,
        average(x, y) == half_toward_zero(x + y),
{
}

fn midpoint(x: i64, y: i64) -> (m: i64)
    ensures
        m == average(x, y),
{
    proof {
        lemma_average_between(x, y);
    }
    let s: i128 = x as i128 + y as i128;
    let h: i128 = if s >= 0 {
        s / 2
    } else {
        -((-s) / 2)
    };
    h as i64
}

fn agrees(x: i64, y: i64, tolerance: i64) -> (r: bool)
    ensures
        r == agree(x, y, tolerance),
{
    let d: i128 = x as i128 - y as i128;
    let t: i128 = tolerance as i128;
    -t <= d && d <= t
}

/// Vote on three readings of one parameter.
///
/// Returns `Consensus` of the average of the first agreeing pair ((a, b),
/// then (b, c), then (a, c)), and `Escalate` exactly when a reading is not
/// finite or no two readings agree. A consensus lies between the two
/// readings it averages.
pub fn vote_triplet(triplet: &SensorTriplet<Reading>, tolerance: i64) -> (result: VoteResult<i64>)
    ensures
        result == vote(*triplet, tolerance),
        result is Escalate <==> !all_finite(*triplet) || !some_pair_agrees(*triplet, tolerance),
        result matches VoteResult::Consensus(v) ==> exists|x: i64, y: i64|
            #![trigger agree(x, y, tolerance)]
            agree(x, y, tolerance) && v == average(x, y) && (x <= v <= y || y <= v <= x),
{
    let (a, b, c) = match (triplet.a, triplet.b, triplet.c) {
        (Reading::Finite(a), Reading::Finite(b), Reading::Finite(c)) => (a, b, c),
        _ => {
            return VoteResult::Escalate;
        },
    };
    proof {
        lemma_average_between(a, b);
        lemma_average_between(b, c);
        lemma_average_between(a, c);
    }
    if agrees(a, b, tolerance) {
        VoteResult::Consensus(midpoint(a, b))
    } else if agrees(b, c, tolerance) {
        VoteResult::Consensus(midpoint(b, c))
    } else if agrees(a, c, tolerance) {
        VoteResult::Consensus(midpoint(a, c))
    } else {
        VoteResult::Escalate
    }
}

} // verus!
