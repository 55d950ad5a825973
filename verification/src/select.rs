//! Weighted and uniform selection of the next card.
//!
//! Learn mode draws the next card from the discrete distribution in which
//! each card's probability is proportional to its weight. The exact weights
//! are rationals; for sampling each is scaled to a positive integer by a
//! fixed-point factor, the scaled weights are summed, and a draw below the
//! total is mapped back to the unique index whose cumulative bracket it
//! falls in.

use vstd::prelude::*;

use vstd::arithmetic::div_mod::lemma_div_is_ordered;
use vstd::arithmetic::div_mod::lemma_div_multiples_vanish;
use vstd::arithmetic::mul::lemma_mul_inequality;

use crate::card::Flashcard;
use crate::errors::ReviewError;
use crate::rng::SplitMix64;
use crate::rng::spec_advance;
use crate::rng::spec_draw128;

verus! {

/// Fixed-point scale for sampling weights. It is divisible by every integer
/// up to 16, so the scaled weight of any card with at most 16 attempts is
/// exact; beyond that the quotient is rounded down (and floored at 1 so no
/// weight ever vanishes).
pub const WEIGHT_SCALE: u64 = 720720;

/// The largest scaled weight any card can have: `3 * WEIGHT_SCALE`, from the
/// prior for unseen cards. A seen card's weight `(i + 1) / (c + i)` never
/// exceeds 2.
pub const MAX_SCALED_WEIGHT: u64 = 3 * WEIGHT_SCALE;

/// The scaled sampling weight of one card: its exact rational weight times
/// `WEIGHT_SCALE`, rounded down, floored at 1.
pub open spec fn spec_scaled_weight(card: Flashcard) -> int {
    let w = card.spec_weight();
    let q = (w.num * WEIGHT_SCALE) / (w.den as int);
    if q == 0 {
        1
    } else {
        q
    }
}

/// The sum of the scaled weights of the first `n` cards.
pub open spec fn spec_prefix_weight(cards: Seq<Flashcard>, n: int) -> int
    decreases n,
{
    if n <= 0 {
        0
    } else {
        spec_prefix_weight(cards, n - 1) + spec_scaled_weight(cards[n - 1])
    }
}

/// The total scaled weight of a deck.
pub open spec fn spec_total_weight(cards: Seq<Flashcard>) -> int {
    spec_prefix_weight(cards, cards.len() as int)
}

/// Every scaled weight lies in `[1, MAX_SCALED_WEIGHT]`.
pub proof fn lemma_scaled_weight_bounds(card: Flashcard)
    ensures
        1 <= spec_scaled_weight(card) <= MAX_SCALED_WEIGHT,
{
    let w = card.spec_weight();
    assert(1 <= w.den);
    assert(w.num <= 3 * w.den);
    lemma_div_is_ordered(w.num * WEIGHT_SCALE, 3 * w.den * WEIGHT_SCALE, w.den as int);
    assert(3 * w.den * WEIGHT_SCALE == (w.den as int) * (3 * WEIGHT_SCALE)) by (nonlinear_arith);
    lemma_div_multiples_vanish(3 * WEIGHT_SCALE, w.den as int);
}

/// Prefix sums grow by at least one and at most `MAX_SCALED_WEIGHT` per
/// card, so `m <= n` implies
/// `prefix(m) + (n - m) <= prefix(n) <= prefix(m) + (n - m) * MAX_SCALED_WEIGHT`.
pub proof fn lemma_prefix_weight_monotone(cards: Seq<Flashcard>, m: int, n: int)
    requires
        0 <= m <= n <= cards.len(),
    ensures
        spec_prefix_weight(cards, m) + (n - m) <= spec_prefix_weight(cards, n),
        spec_prefix_weight(cards, n) <= spec_prefix_weight(cards, m) + (n - m)
            * MAX_SCALED_WEIGHT,
    decreases n - m,
{
    if m < n {
        lemma_prefix_weight_monotone(cards, m, n - 1);
        lemma_scaled_weight_bounds(cards[n - 1]);
    }
}

/// The draw-to-index map is a function: at most one index satisfies the
/// cumulative bracket `prefix(i) <= r < prefix(i + 1)`.
pub proof fn law_bracket_unique(cards: Seq<Flashcard>, r: int, i: int, j: int)
    requires
        0 <= i <= cards.len(),
        0 <= j <= cards.len(),
        spec_prefix_weight(cards, i) <= r < spec_prefix_weight(cards, i + 1),
        spec_prefix_weight(cards, j) <= r < spec_prefix_weight(cards, j + 1),
    ensures
        i == j,
{
    if i < j {
        lemma_prefix_weight_monotone(cards, i + 1, j);
    }
    if j < i {
        lemma_prefix_weight_monotone(cards, j + 1, i);
    }
}

/// The cumulative bracket of index `i` has width `spec_scaled_weight(cards[i])`:
/// of the `spec_total_weight(cards)` possible draws, exactly that many select
/// card `i`, so a uniform draw selects each card with probability
/// proportional to its weight.
pub proof fn law_bracket_width(cards: Seq<Flashcard>, i: int)
    requires
        0 <= i < cards.len(),
    ensures
        spec_prefix_weight(cards, i + 1) - spec_prefix_weight(cards, i) == spec_scaled_weight(
            cards[i],
        ),
{
}

/// Computes the scaled sampling weight of one card.
pub fn scaled_weight(card: &Flashcard) -> (w: u64)
    ensures
        w == spec_scaled_weight(*card),
        1 <= w <= MAX_SCALED_WEIGHT,
{
    proof {
        lemma_scaled_weight_bounds(*card);
    }
    let exact = card.weight();
    let q = (exact.num * WEIGHT_SCALE) / exact.den;
    if q == 0 {
        1
    } else {
        q
    }
}

/// Computes the total scaled weight of a deck. The total of a non-empty
/// deck is positive, and never exceeds `len * MAX_SCALED_WEIGHT`.
pub fn total_weight(cards: &Vec<Flashcard>) -> (t: u128)
    ensures
        t == spec_total_weight(cards@),
        cards@.len() <= t,
        t <= cards@.len() * MAX_SCALED_WEIGHT,
{
    let ghost s = cards@;
    let n = cards.len();
    let mut t: u128 = 0;
    let mut i: usize = 0;
    while i < n
        invariant
            0 <= i <= n,
            n == s.len(),
            cards@ == s,
            t == spec_prefix_weight(s, i as int),
            i <= t,
            t <= i * MAX_SCALED_WEIGHT,
        decreases n - i,
    {
        let w = scaled_weight(&cards[i]);
        proof {
            assert(i * MAX_SCALED_WEIGHT + MAX_SCALED_WEIGHT == (i + 1) * MAX_SCALED_WEIGHT)
                by (nonlinear_arith);
            lemma_mul_inequality(i + 1, usize::MAX as int, MAX_SCALED_WEIGHT as int);
        }
        t = t + w as u128;
        i = i + 1;
    }
    t
}

/// Maps a draw `r` below the total scaled weight to the unique index whose
/// cumulative bracket contains it: `prefix(i) <= r < prefix(i + 1)`.
///
/// Together with `law_bracket_unique` this pins the sampling distribution:
/// of the `total` possible draws, exactly `spec_scaled_weight(cards[i])`
/// select index `i`, so a uniform draw selects each card with probability
/// proportional to its weight.
pub fn select_weighted(cards: &Vec<Flashcard>, r: u128) -> (i: usize)
    requires
        cards@.len() > 0,
        r < spec_total_weight(cards@),
    ensures
        i < cards@.len(),
        spec_prefix_weight(cards@, i as int) <= r < spec_prefix_weight(cards@, i + 1),
{
    let ghost s = cards@;
    let n = cards.len();
    let mut i: usize = 0;
    let mut acc: u128 = 0;
    while i < n
        invariant
            0 <= i <= n,
            n == s.len(),
            cards@ == s,
            r < spec_total_weight(s),
            acc == spec_prefix_weight(s, i as int),
            acc <= r,
        decreases n - i,
    {
        let w = scaled_weight(&cards[i]);
        let gap = r - acc;
        if gap < w as u128 {
            return i;
        }
        acc = acc + w as u128;
        i = i + 1;
    }
    proof {
        assert(acc == spec_total_weight(s));
        assert(false);
    }
    unreached()
}

/// Picks an index with equal probability over all cards: a raw draw reduced
/// modulo the deck size.
pub fn random_index(len: usize, r: u64) -> (i: usize)
    requires
        len > 0,
    ensures
        i < len,
        i == r as int % len as int,
{
    (r % len as u64) as usize
}

/// Draws one index from the weighted distribution, taking its randomness
/// from an injected generator.
///
/// On an empty deck the distribution does not exist: `InvalidDistribution`
/// is reported and the generator is left untouched. On a non-empty deck the
/// result is the index whose cumulative bracket contains the draw
/// `spec_draw128(rng.state) % total`.
pub fn select(cards: &Vec<Flashcard>, rng: &mut SplitMix64) -> (r: Result<usize, ReviewError>)
    ensures
        cards@.len() == 0 ==> r == Err::<usize, ReviewError>(ReviewError::InvalidDistribution)
            && *final(rng) == *old(rng),
        cards@.len() > 0 ==> {
            let draw = spec_draw128(old(rng).state) % spec_total_weight(cards@);
            &&& r is Ok
            &&& r->Ok_0 < cards@.len()
            &&& spec_prefix_weight(cards@, r->Ok_0 as int) <= draw < spec_prefix_weight(
                cards@,
                r->Ok_0 + 1,
            )
            &&& final(rng).state == spec_advance(spec_advance(old(rng).state))
        },
{
    if cards.len() == 0 {
        return Err(ReviewError::InvalidDistribution);
    }
    let total = total_weight(cards);
    let draw = rng.next_below(total);
    Ok(select_weighted(cards, draw))
}

} // verus!
