use vstd::prelude::*;
use crate::grid::Cell;
use crate::model::GameModel;

verus! {

/// The time between two ticks is a fraction of a second: three tenths at
/// the start, and nine tenths of what it was after each fruit. This is the
/// numerator of that fraction at a speed level.
pub open spec fn interval_numerator(level: nat) -> nat
    decreases level,
{
    if level == 0 {
        3
    } else {
        9 * interval_numerator((level - 1) as nat)
    }
}

/// The denominator of the time between two ticks at a speed level.
pub open spec fn interval_denominator(level: nat) -> nat
    decreases level,
{
    if level == 0 {
        10
    } else {
        10 * interval_denominator((level - 1) as nat)
    }
}

/// The time between two ticks is positive at every speed level.
pub proof fn lemma_interval_positive(level: nat)
    ensures
        interval_numerator(level) > 0,
        interval_denominator(level) > 0,
    decreases level,
{
    if level > 0 {
        lemma_interval_positive((level - 1) as nat);
    }
}

/// One level up, the time between two ticks is exactly nine tenths of what
/// it was, and so shorter: with `n / d` the time before and `n' / d'` the
/// time after, `10 * n' * d == 9 * n * d'` and `n' * d < n * d'`.
pub proof fn lemma_interval_scales(level: nat)
    ensures
        10 * (interval_numerator(level + 1) * interval_denominator(level)) == 9 * (
        interval_numerator(level) * interval_denominator(level + 1)),
        interval_numerator(level + 1) * interval_denominator(level) < interval_numerator(level)
            * interval_denominator(level + 1),
{
    lemma_interval_positive(level);
    let n = interval_numerator(level);
    let d = interval_denominator(level);
    assert(interval_numerator(level + 1) == 9 * n);
    assert(interval_denominator(level + 1) == 10 * d);
    assert(10 * ((9 * n) * d) == 9 * (n * (10 * d))) by (nonlinear_arith);
    assert((9 * n) * d < n * (10 * d)) by (nonlinear_arith)
        requires
            n > 0,
            d > 0,
    ;
}

/// The higher the speed level, the shorter the time between two ticks:
/// with `n / d` the time at the lower level and `n' / d'` the time at the
/// higher one, `n' * d <= n * d'`.
pub proof fn lemma_interval_never_grows(lower: nat, higher: nat)
    requires
        lower <= higher,
    ensures
        interval_numerator(higher) * interval_denominator(lower) <= interval_numerator(lower)
            * interval_denominator(higher),
    decreases higher - lower,
{
    if lower < higher {
        let previous = (higher - 1) as nat;
        lemma_interval_never_grows(lower, previous);
        lemma_interval_positive(lower);
        lemma_interval_positive(previous);
        let n = interval_numerator(lower);
        let d = interval_denominator(lower);
        let np = interval_numerator(previous);
        let dp = interval_denominator(previous);
        assert(interval_numerator(higher) == 9 * np);
        assert(interval_denominator(higher) == 10 * dp);
        assert((9 * np) * d <= n * (10 * dp)) by (nonlinear_arith)
            requires
                np * d <= n * dp,
                n > 0,
                dp > 0,
                np > 0,
                d > 0,
        ;
    }
}

/// A tick in which the snake reaches the fruit multiplies the time between
/// two ticks by exactly nine tenths; any other tick leaves it as it was.
pub proof fn lemma_tick_speeds_up_by_tenth(s: GameModel, next_fruit: Cell)
    ensures
        !s.game_over && s.eats() ==> 10 * (interval_numerator(s.tick(next_fruit).speed_level)
            * interval_denominator(s.speed_level)) == 9 * (interval_numerator(s.speed_level)
            * interval_denominator(s.tick(next_fruit).speed_level)),
        s.game_over || !s.eats() ==> s.tick(next_fruit).speed_level == s.speed_level,
{
    if !s.game_over && s.eats() {
        lemma_interval_scales(s.speed_level);
    }
}

} // verus!
