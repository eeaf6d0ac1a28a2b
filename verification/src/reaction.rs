use vstd::prelude::*;
use crate::composition::UNIT;

verus! {

/// The bonus that elemental mastery `em` gives to a reaction whose bonus
/// approaches `numer / denom` with half-way point `offset`:
/// numer * em / (denom * (em + offset)), all in fixed point and rounded down.
pub open spec fn mastery_bonus(numer: int, denom: int, offset: int, em: int) -> int {
    (numer * em * UNIT) / (denom * (em + offset * UNIT))
}

/// Amplifying reactions (melt, vaporize): 25 * em / (9 * (em + 1400)).
pub open spec fn amp_bonus(em: int) -> int {
    mastery_bonus(25, 9, 1400, em)
}

/// Catalyze reactions (spread, aggravate): 5 * em / (em + 1200).
pub open spec fn catalyze_bonus(em: int) -> int {
    mastery_bonus(5, 1, 1200, em)
}

/// Transformative reactions (moonfall): 16 * em / (em + 2000).
pub open spec fn transformative_bonus(em: int) -> int {
    mastery_bonus(16, 1, 2000, em)
}

/// Moon-electro-charged reactions: 6 * em / (em + 2000).
pub open spec fn moonelectro_bonus(em: int) -> int {
    mastery_bonus(6, 1, 2000, em)
}

/// The four mastery bonuses, written out: amplifying 25 * em / (9 * (em + 1400)),
/// catalyze 5 * em / (em + 1200), transformative 16 * em / (em + 2000) and
/// moon-electro-charged 6 * em / (em + 2000), each in millionths, rounded down.
pub proof fn lemma_bonus_formulas(em: int)
    ensures
        amp_bonus(em) == (25 * em * UNIT) / (9 * (em + 1400 * UNIT)),
        catalyze_bonus(em) == (5 * em * UNIT) / (em + 1200 * UNIT),
        transformative_bonus(em) == (16 * em * UNIT) / (em + 2000 * UNIT),
        moonelectro_bonus(em) == (6 * em * UNIT) / (em + 2000 * UNIT),
{
}

/// More mastery never lowers a mastery bonus.
pub proof fn lemma_mastery_bonus_monotone(numer: int, denom: int, offset: int, a: int, b: int)
    requires
        0 < numer <= 100,
        0 < denom <= 100,
        0 < offset <= 10000,
        0 <= a <= b,
    ensures
        mastery_bonus(numer, denom, offset, a) <= mastery_bonus(numer, denom, offset, b),
{
    let c = offset * UNIT;
    let xa = numer * a * UNIT;
    let ya = denom * (a + c);
    let xb = numer * b * UNIT;
    let yb = denom * (b + c);
    assert(ya > 0 && yb > 0) by (nonlinear_arith)
        requires
            ya == denom * (a + c),
            yb == denom * (b + c),
            denom > 0,
            c > 0,
            a >= 0,
            b >= 0,
    ;
    assert(xa * yb <= xb * ya) by (nonlinear_arith)
        requires
            xa == numer * a * UNIT,
            xb == numer * b * UNIT,
            ya == denom * (a + c),
            yb == denom * (b + c),
            numer > 0,
            denom > 0,
            c > 0,
            0 <= a <= b,
    ;
    let qa = xa / ya;
    assert(qa * ya <= xa) by (nonlinear_arith)
        requires
            qa == xa / ya,
            ya > 0,
    ;
    assert(qa * yb <= xb) by (nonlinear_arith)
        requires
            qa * ya <= xa,
            xa * yb <= xb * ya,
            ya > 0,
            yb > 0,
            xa >= 0,
    ;
    assert(qa <= xb / yb) by (nonlinear_arith)
        requires
            qa * yb <= xb,
            yb > 0,
    ;
}

/// A mastery bonus is never negative and stays below numer / denom.
pub proof fn lemma_mastery_bonus_bounds(numer: int, denom: int, offset: int, em: int)
    requires
        0 < numer <= 100,
        0 < denom <= 100,
        0 < offset <= 10000,
        0 <= em,
    ensures
        0 <= mastery_bonus(numer, denom, offset, em),
        mastery_bonus(numer, denom, offset, em) * denom < numer * UNIT,
{
    let x = numer * em * UNIT;
    let y = denom * (em + offset * UNIT);
    let q = x / y;
    assert(y > 0 && x >= 0 && x * denom < numer * UNIT * y) by (nonlinear_arith)
        requires
            x == numer * em * UNIT,
            y == denom * (em + offset * UNIT),
            numer > 0,
            denom > 0,
            offset > 0,
            em >= 0,
    ;
    assert(0 <= q && q * y <= x) by (nonlinear_arith)
        requires
            q == x / y,
            y > 0,
            x >= 0,
    ;
    assert(q * denom < numer * UNIT) by (nonlinear_arith)
        requires
            q * y <= x,
            x * denom < numer * UNIT * y,
            y > 0,
            denom > 0,
            q >= 0,
    ;
}

fn mastery(numer: i64, denom: i64, offset: i64, em: i64) -> (r: i64)
    requires
        0 < numer <= 100,
        0 < denom <= 100,
        0 < offset <= 10000,
        0 <= em,
    ensures
        r == mastery_bonus(numer as int, denom as int, offset as int, em as int),
        0 <= r,
        r * denom < numer * UNIT,
{
    proof {
        lemma_mastery_bonus_bounds(numer as int, denom as int, offset as int, em as int);
        assert(0 <= numer * em * UNIT <= 100 * 0x8000_0000_0000_0000 * 1_000_000) by (
        nonlinear_arith)
            requires
                0 < numer <= 100,
                0 <= em < 0x8000_0000_0000_0000,
        ;
        assert(0 < denom * (em + offset * UNIT) <= 100 * (0x8000_0000_0000_0000
            + 10000 * 1_000_000)) by (nonlinear_arith)
            requires
                0 < denom <= 100,
                0 < offset <= 10000,
                0 <= em < 0x8000_0000_0000_0000,
        ;
    }
    let x: i128 = (numer as i128) * (em as i128) * (UNIT as i128);
    let y: i128 = (denom as i128) * ((em as i128) + (offset as i128) * (UNIT as i128));
    let q: i128 = x / y;
    assert(q == mastery_bonus(numer as int, denom as int, offset as int, em as int));
    assert(q < 100 * UNIT) by (nonlinear_arith)
        requires
            q * denom < numer * UNIT,
            0 < denom,
            numer <= 100,
            q >= 0,
    ;
    q as i64
}

/// The mastery bonus of the amplifying reactions, melt and vaporize.
pub fn amp(em: i64) -> (r: i64)
    requires
        0 <= em,
    ensures
        r == (25 * (em as int) * UNIT) / (9 * ((em as int) + 1400 * UNIT)),
        r == amp_bonus(em as int),
        0 <= r,
        r * 9 < 25 * UNIT,
{
    proof {
        lemma_bonus_formulas(em as int);
    }
    mastery(25, 9, 1400, em)
}

/// The mastery bonus of the catalyze reactions, spread and aggravate.
pub fn catalyze(em: i64) -> (r: i64)
    requires
        0 <= em,
    ensures
        r == (5 * (em as int) * UNIT) / ((em as int) + 1200 * UNIT),
        r == catalyze_bonus(em as int),
        0 <= r < 5 * UNIT,
{
    proof {
        lemma_bonus_formulas(em as int);
    }
    mastery(5, 1, 1200, em)
}

/// The mastery bonus of the transformative reactions.
pub fn transformative(em: i64) -> (r: i64)
    requires
        0 <= em,
    ensures
        r == (16 * (em as int) * UNIT) / ((em as int) + 2000 * UNIT),
        r == transformative_bonus(em as int),
        0 <= r < 16 * UNIT,
{
    proof {
        lemma_bonus_formulas(em as int);
    }
    mastery(16, 1, 2000, em)
}

/// The mastery bonus of the moon-electro-charged reactions.
pub fn moonelectro(em: i64) -> (r: i64)
    requires
        0 <= em,
    ensures
        r == (6 * (em as int) * UNIT) / ((em as int) + 2000 * UNIT),
        r == moonelectro_bonus(em as int),
        0 <= r < 6 * UNIT,
{
    proof {
        lemma_bonus_formulas(em as int);
    }
    mastery(6, 1, 2000, em)
}

} // verus!
