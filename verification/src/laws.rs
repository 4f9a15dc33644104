use vstd::prelude::*;

use crate::decimal::DECIMAL_FRACTIONAL;
use crate::state::{votes_needed_spec, BlockInfo, Proposal, Status, Threshold, Votes,
    PRECISION_FACTOR};
use vstd::arithmetic::div_mod::{lemma_div_denominator, lemma_div_is_ordered,
    lemma_fundamental_div_mod, lemma_fundamental_div_mod_converse, lemma_mod_bound};
use vstd::arithmetic::mul::{lemma_mul_inequality, lemma_mul_is_distributive_sub,
    lemma_mul_nonnegative, lemma_mul_strict_inequality_converse};

verus! {

/// The proposal with its stored status replaced and all else unchanged.
pub open spec fn with_status(p: Proposal, status: Status) -> Proposal {
    Proposal { status, ..p }
}

/// The proposal with its tally replaced and all else unchanged.
pub open spec fn with_votes(p: Proposal, votes: Votes) -> Proposal {
    Proposal { votes, ..p }
}

/// The bar never drops when the weight total grows.
pub proof fn lemma_votes_needed_monotone_in_weight(w1: int, w2: int, atomics: int)
    requires
        0 <= w1 <= w2,
        0 <= atomics,
    ensures
        votes_needed_spec(w1, atomics) <= votes_needed_spec(w2, atomics),
{
    let p = PRECISION_FACTOR as int;
    lemma_mul_inequality(w1, w2, atomics);
    lemma_div_is_ordered(w1 * atomics, w2 * atomics, p);
    lemma_div_is_ordered(w1 * atomics / p + (p - 1), w2 * atomics / p + (p - 1), p);
}

/// The bar never drops when the required fraction grows.
pub proof fn lemma_votes_needed_monotone_in_fraction(weight: int, a1: int, a2: int)
    requires
        0 <= weight,
        0 <= a1 <= a2,
    ensures
        votes_needed_spec(weight, a1) <= votes_needed_spec(weight, a2),
{
    let p = PRECISION_FACTOR as int;
    lemma_mul_inequality(a1, a2, weight);
    lemma_div_is_ordered(weight * a1, weight * a2, p);
    lemma_div_is_ordered(weight * a1 / p + (p - 1), weight * a2 / p + (p - 1), p);
}

/// For fractions on the 10^-9 grid (every percentage is), the computed bar
/// is exactly the ceiling of fraction * weight: rounding never requires one
/// vote fewer than the true fraction demands, and never one more.
pub proof fn lemma_votes_needed_is_ceiling(weight: int, atomics: int)
    requires
        0 <= weight,
        0 <= atomics,
        atomics % (PRECISION_FACTOR as int) == 0,
    ensures
        votes_needed_spec(weight, atomics) == (weight * atomics + (DECIMAL_FRACTIONAL - 1)) / (
        DECIMAL_FRACTIONAL as int),
{
    let p = PRECISION_FACTOR as int;
    let f = DECIMAL_FRACTIONAL as int;
    let b = atomics / p;
    lemma_fundamental_div_mod(atomics, p);
    assert(atomics == p * b);
    let x = weight * atomics;
    assert(x == p * (weight * b)) by (nonlinear_arith)
        requires
            atomics == p * b,
            x == weight * atomics,
    ;
    let big_x = weight * b;
    lemma_mul_nonnegative(weight, b);
    // The inner division drops the factor p exactly.
    vstd::arithmetic::div_mod::lemma_div_multiples_vanish(big_x, p);
    assert(x / p == big_x);
    // The exact ceiling over f collapses to the same two-step division.
    assert(x + f - 1 == p * (big_x + p - 1) + (p - 1)) by (nonlinear_arith)
        requires
            x == p * big_x,
            f == p * p,
    ;
    lemma_fundamental_div_mod_converse(x + f - 1, p, big_x + p - 1, p - 1);
    lemma_div_denominator(x + f - 1, p, p);
    assert((x + f - 1) / f == (big_x + p - 1) / p);
}

/// A fraction and its complement cannot both be cleared below the pool
/// size: the two bars together always cover the whole opinion pool.
pub proof fn lemma_votes_needed_split(pool: int, atomics: int)
    requires
        0 <= pool,
        0 <= atomics <= DECIMAL_FRACTIONAL,
    ensures
        votes_needed_spec(pool, atomics) + votes_needed_spec(
            pool,
            DECIMAL_FRACTIONAL - atomics,
        ) >= pool,
{
    let p = PRECISION_FACTOR as int;
    let f = DECIMAL_FRACTIONAL as int;
    let x = pool * atomics;
    let y = pool * (f - atomics);
    lemma_mul_nonnegative(pool, atomics);
    lemma_mul_nonnegative(pool, f - atomics);
    lemma_mul_is_distributive_sub(pool, f, atomics);
    assert(x + y == pool * f);

    let q1 = x / p;
    let q2 = y / p;
    lemma_fundamental_div_mod(x, p);
    lemma_mod_bound(x, p);
    lemma_fundamental_div_mod(y, p);
    lemma_mod_bound(y, p);
    assert(p * q1 >= x - (p - 1));
    assert(p * q2 >= y - (p - 1));

    let v1 = (q1 + p - 1) / p;
    let v2 = (q2 + p - 1) / p;
    lemma_fundamental_div_mod(q1 + p - 1, p);
    lemma_mod_bound(q1 + p - 1, p);
    lemma_fundamental_div_mod(q2 + p - 1, p);
    lemma_mod_bound(q2 + p - 1, p);
    assert(p * v1 >= q1);
    assert(p * v2 >= q2);

    assert(f * (v1 + v2) >= x + y - 2 * (p - 1)) by (nonlinear_arith)
        requires
            f == p * p,
            p * v1 >= q1,
            p * v2 >= q2,
            p * q1 >= x - (p - 1),
            p * q2 >= y - (p - 1),
            p > 0,
    ;
    assert(f * (v1 + v2) > f * (pool - 1));
    lemma_mul_strict_inequality_converse(pool - 1, v1 + v2, f);
}

/// A proposal whose tally does not exceed its snapshot total can never be
/// sure to pass and sure to fail at the same time.
pub proof fn lemma_pass_reject_exclusive(p: Proposal, block: BlockInfo)
    requires
        p.wf(),
        p.votes.total_spec() <= p.total_weight,
    ensures
        !(p.is_passed_spec(block) && p.is_rejected_spec(block)),
{
    if p.is_passed_spec(block) && p.is_rejected_spec(block) {
        match p.threshold {
            Threshold::AbsoluteCount { weight } => {
                // yes + no would exceed the snapshot total the tally respects
                assert(false);
            },
            Threshold::AbsolutePercentage { percentage } => {
                let pool = p.total_weight - p.votes.abstain;
                lemma_votes_needed_split(pool, percentage.atomics as int);
                assert(false);
            },
            Threshold::ThresholdQuorum { threshold, quorum } => {
                if p.expires.is_expired_spec(block) {
                    let pool = p.votes.total_spec() - p.votes.abstain;
                    lemma_votes_needed_split(pool, threshold.atomics as int);
                    assert(false);
                } else {
                    let pool = p.total_weight - p.votes.abstain;
                    lemma_votes_needed_split(pool, threshold.atomics as int);
                    assert(false);
                }
            },
        }
    }
}

/// Resolving a status and storing it is idempotent: resolving again at the
/// same clock reading returns the stored answer unchanged.
pub proof fn lemma_current_status_idempotent(p: Proposal, block: BlockInfo)
    ensures
        with_status(p, p.current_status_spec(block)).current_status_spec(block)
            == p.current_status_spec(block),
{
    let s = p.current_status_spec(block);
    if s is Open {
        assert(with_status(p, s) == p);
    }
}

/// Once the stored status is terminal, no later clock reading and no change
/// to the tally can move it: status resolution returns it unchanged.
pub proof fn lemma_terminal_status_stable(p: Proposal, votes: Votes, block: BlockInfo)
    requires
        p.status is Passed || p.status is Rejected,
    ensures
        with_votes(p, votes).current_status_spec(block) == p.status,
{
}

/// Once status resolution answers Passed or Rejected and that answer is
/// stored, every later resolution - at any clock reading, after any further
/// votes - yields the same terminal status.
pub proof fn lemma_no_terminal_regression(
    p: Proposal,
    first: BlockInfo,
    votes: Votes,
    later: BlockInfo,
)
    requires
        p.current_status_spec(first) is Passed || p.current_status_spec(first) is Rejected,
    ensures
        with_votes(with_status(p, p.current_status_spec(first)), votes).current_status_spec(later)
            == p.current_status_spec(first),
{
    lemma_terminal_status_stable(with_status(p, p.current_status_spec(first)), votes, later);
}

} // verus!
