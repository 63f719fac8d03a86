//! The integer parts of the escape-time pixel kernel: control of the escape
//! loop, the colour ramp of the remaining count, and the mapping from a flat
//! pixel index to its coordinate.
use vstd::prelude::*;

verus! {

/// The escape loop goes on while the orbit is still inside the radius-2 disc
/// and more than one iteration remains.
pub open spec fn continues(remaining: nat, inside: bool) -> bool {
    inside && remaining > 1
}

/// The remaining count when the escape loop stops, given the outcome of each
/// magnitude test in turn (`true`: the orbit is still inside the disc) and
/// the count it started from. A test sequence that runs out stops the loop.
pub open spec fn remaining_at_stop(remaining: nat, inside: Seq<bool>) -> nat
    decreases inside.len(),
{
    if inside.len() > 0 && continues(remaining, inside[0]) {
        remaining_at_stop((remaining - 1) as nat, inside.drop_first())
    } else {
        remaining
    }
}

/// One decision of the escape loop: `Some` of the next remaining count when
/// the loop goes on, `None` when it stops at `remaining`.
pub fn escape_step(remaining: u32, inside: bool) -> (r: Option<u32>)
    ensures
        r == (if continues(remaining as nat, inside) {
            Some((remaining - 1) as u32)
        } else {
            None::<u32>
        }),
{
    if inside && remaining > 1 {
        Some(remaining - 1)
    } else {
        None
    }
}

/// Whatever the orbit does, an escape loop started from an iteration budget
/// of at least one stops with a remaining count between one and the budget.
pub proof fn lemma_remaining_within_budget(budget: nat, inside: Seq<bool>)
    requires
        budget >= 1,
    ensures
        1 <= remaining_at_stop(budget, inside) <= budget,
    decreases inside.len(),
{
    if inside.len() > 0 && continues(budget, inside[0]) {
        lemma_remaining_within_budget((budget - 1) as nat, inside.drop_first());
    }
}

/// With a budget of one iteration the loop stops at once, whatever the
/// orbit, and every pixel gets the colour of a full ratio: opaque white.
pub proof fn lemma_unit_budget_is_white(inside: Seq<bool>)
    ensures
        remaining_at_stop(1, inside) == 1,
        color_of(1, 1) == 0xFFFF_FFFF,
{
    assert(1nat * ((2 * 255nat - 1) * (2 * 255nat - 1)) <= 260100nat * 1) by (nonlinear_arith);
    assert(blue_level(1, 1) == 255);
    assert((510nat * 1 + 1) / (2nat * 1) == 255) by (nonlinear_arith);
    assert((510nat * 1 * 1 + 1 * 1) / (2nat * 1 * 1) == 255) by (nonlinear_arith);
}

/// `round(255 * remaining / budget)`; zero for an empty budget.
pub open spec fn red_level(remaining: nat, budget: nat) -> nat {
    if budget == 0 {
        0
    } else {
        (510 * remaining + budget) / (2 * budget)
    }
}

/// `round(255 * (remaining / budget)^2)`; zero for an empty budget.
pub open spec fn green_level(remaining: nat, budget: nat) -> nat {
    if budget == 0 {
        0
    } else {
        (510 * remaining * remaining + budget * budget) / (2 * budget * budget)
    }
}

/// Whether `k` rounds down from `255 * sqrt(remaining / budget)`, that is
/// whether `(k - 1/2)^2 <= 255^2 * remaining / budget`.
pub open spec fn blue_reaches(k: nat, remaining: nat, budget: nat) -> bool {
    k == 0 || budget * ((2 * k - 1) * (2 * k - 1)) <= 260100 * remaining
}

/// The largest level from `k` down that `blue_reaches`.
pub open spec fn blue_search(k: nat, remaining: nat, budget: nat) -> nat
    decreases k,
{
    if blue_reaches(k, remaining, budget) {
        k
    } else {
        blue_search((k - 1) as nat, remaining, budget)
    }
}

/// `round(255 * sqrt(remaining / budget))`, capped at 255; zero for an empty
/// budget.
pub open spec fn blue_level(remaining: nat, budget: nat) -> nat {
    if budget == 0 {
        0
    } else {
        blue_search(255, remaining, budget)
    }
}

/// An opaque pixel `0xFFRRGGBB`.
pub open spec fn packed(red: nat, green: nat, blue: nat) -> nat {
    0xFF00_0000 + red * 0x1_0000 + green * 0x100 + blue
}

/// The colour of a pixel whose escape loop stopped with `remaining` of
/// `budget` iterations left.
pub open spec fn color_of(remaining: nat, budget: nat) -> nat {
    packed(
        red_level(remaining, budget),
        green_level(remaining, budget),
        blue_level(remaining, budget),
    )
}

proof fn lemma_blue_search_bound(k: nat, remaining: nat, budget: nat)
    ensures
        blue_search(k, remaining, budget) <= k,
    decreases k,
{
    if !blue_reaches(k, remaining, budget) {
        lemma_blue_search_bound((k - 1) as nat, remaining, budget);
    }
}

/// The colour for a remaining count of `remaining` out of `budget`.
pub fn color_of_count(remaining: u32, budget: u32) -> (r: u32)
    requires
        remaining <= budget,
    ensures
        r == color_of(remaining as nat, budget as nat),
{
    if budget == 0 {
        return 0xFF00_0000;
    }
    let i: u128 = remaining as u128;
    let n: u128 = budget as u128;
    proof {
        assert(510 * i * i + n * n <= 511 * n * n) by (nonlinear_arith)
            requires i <= n;
        assert(n * n <= 0xFFFF_FFFF * 0xFFFF_FFFF) by (nonlinear_arith)
            requires n <= 0xFFFF_FFFF;
        assert(510 * i * i <= 510 * (n * n)) by (nonlinear_arith)
            requires i <= n;
        assert(2 * n * n == 2 * (n * n)) by (nonlinear_arith);
        assert(n * n >= 1) by (nonlinear_arith)
            requires n >= 1;
    }
    let red: u128 = (510 * i + n) / (2 * n);
    let green: u128 = (510 * i * i + n * n) / (2 * n * n);
    proof {
        assert(red <= 255) by (nonlinear_arith)
            requires red == (510 * i + n) / (2 * n), i <= n, n >= 1;
        assert(green <= 255) by (nonlinear_arith)
            requires green == (510 * i * i + n * n) / (2 * n * n), i <= n, n >= 1;
    }
    let mut blue: u64 = 255;
    loop
        invariant
            blue <= 255,
            blue_search(blue as nat, remaining as nat, budget as nat) == blue_search(
                255,
                remaining as nat,
                budget as nat,
            ),
        ensures
            blue <= 255,
            blue as nat == blue_search(255, remaining as nat, budget as nat),
        decreases blue,
    {
        if blue == 0 {
            break;
        }
        let half_step: u64 = 2 * blue - 1;
        proof {
            assert(half_step * half_step <= 509 * 509) by (nonlinear_arith)
                requires half_step <= 509;
            assert((budget as u64) * (half_step * half_step) <= 0xFFFF_FFFF * (509 * 509))
                by (nonlinear_arith)
                requires half_step * half_step <= 509 * 509, budget <= 0xFFFF_FFFF;
        }
        if (budget as u64) * (half_step * half_step) <= 260100 * (remaining as u64) {
            break;
        }
        blue = blue - 1;
    }
    proof {
        lemma_blue_search_bound(255, remaining as nat, budget as nat);
    }
    (0xFF00_0000u128 + red * 0x1_0000 + green * 0x100 + blue as u128) as u32
}

/// Column and row of the pixel at flat index `index` of a frame `width`
/// pixels wide, laid out row after row.
pub open spec fn coord_of(index: nat, width: nat) -> (nat, nat)
    recommends
        width >= 1,
{
    (index % width, index / width)
}

/// The coordinate of the pixel at flat index `index` in a `width` by
/// `height` frame.
pub fn pixel_coord(index: usize, width: usize, height: usize) -> (r: (usize, usize))
    requires
        width >= 1,
        index < width * height,
    ensures
        (r.0 as nat, r.1 as nat) == coord_of(index as nat, width as nat),
        r.0 < width,
        r.1 < height,
{
    proof {
        assert(index / width < height) by (nonlinear_arith)
            requires index < width * height, width >= 1;
    }
    (index % width, index / width)
}

} // verus!
