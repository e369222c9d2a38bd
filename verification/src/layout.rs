//! Arithmetic of the bar: the percentage and the number of filled and empty
//! columns for a counter and a total.

use vstd::prelude::*;
use vstd::arithmetic::div_mod::lemma_div_is_ordered;
use vstd::arithmetic::mul::lemma_mul_inequality;

verus! {

/// Widest bar that is drawn. A shorter sequence gets one column for each of
/// its elements; a longer one is scaled to this width.
pub const MAX_COLUMN_WIDTH: usize = 30;

/// Share of `total` that `counter` has reached, in whole percent, rounded
/// down. Of nothing, everything is done.
pub open spec fn percent(counter: nat, total: nat) -> nat {
    if total == 0 {
        100
    } else {
        counter * 100 / total
    }
}

/// Number of columns between the two delimiters.
pub open spec fn bar_width(total: nat) -> nat {
    if total < MAX_COLUMN_WIDTH {
        total
    } else {
        MAX_COLUMN_WIDTH as nat
    }
}

/// Number of filled columns. A short bar has one for each element taken,
/// a scaled bar as many as the percentage gives of the full width.
pub open spec fn filled_columns(counter: nat, total: nat) -> nat {
    if total == 0 {
        0
    } else if total < MAX_COLUMN_WIDTH {
        counter
    } else {
        MAX_COLUMN_WIDTH as nat * percent(counter, total) / 100
    }
}

/// Whether a bar can be drawn: the filled columns must not be more than the
/// bar is wide. Every counter up to the total has a bar.
pub open spec fn fits(counter: nat, total: nat) -> bool {
    filled_columns(counter, total) <= bar_width(total)
}

/// Number of empty columns: what the filled ones leave of the width.
pub open spec fn empty_columns(counter: nat, total: nat) -> nat
    recommends
        fits(counter, total),
{
    (bar_width(total) - filled_columns(counter, total)) as nat
}

/// Every counter up to the total has a bar.
pub proof fn lemma_counter_within_total_fits(counter: nat, total: nat)
    requires
        counter <= total,
    ensures
        fits(counter, total),
        percent(counter, total) <= 100,
{
    if total > 0 {
        lemma_mul_inequality(counter as int, total as int, 100);
        lemma_div_is_ordered(counter as int * 100, total as int * 100, total as int);
        assert(total as int * 100 / (total as int) == 100) by (nonlinear_arith)
            requires
                total > 0,
        ;
    }
}

/// For a total of thirty or more, the filled and the empty columns of
/// every counter up to the total add up to exactly thirty.
pub proof fn lemma_scaled_bar_is_thirty_wide(counter: nat, total: nat)
    requires
        total >= MAX_COLUMN_WIDTH,
        counter <= total,
    ensures
        filled_columns(counter, total) + empty_columns(counter, total) == MAX_COLUMN_WIDTH,
{
    lemma_counter_within_total_fits(counter, total);
}

/// For a total below thirty, the filled and the empty columns of every
/// counter that has a bar add up to exactly the total.
pub proof fn lemma_short_bar_is_total_wide(counter: nat, total: nat)
    requires
        total < MAX_COLUMN_WIDTH,
        fits(counter, total),
    ensures
        filled_columns(counter, total) + empty_columns(counter, total) == total,
{
}

/// For a fixed total, the percentage never falls as the counter rises.
pub proof fn lemma_percent_is_monotonic(lower: nat, upper: nat, total: nat)
    requires
        lower <= upper,
    ensures
        percent(lower, total) <= percent(upper, total),
{
    if total > 0 {
        lemma_mul_inequality(lower as int, upper as int, 100);
        lemma_div_is_ordered(lower as int * 100, upper as int * 100, total as int);
    }
}

/// Decides whether a bar can be drawn for `counter` out of `total`.
pub fn bar_fits(counter: usize, total: usize) -> (ok: bool)
    ensures
        ok == fits(counter as nat, total as nat),
{
    if total == 0 {
        true
    } else if total < MAX_COLUMN_WIDTH {
        counter <= total
    } else {
        let share: u128 = (counter as u128) * 100 / (total as u128);
        let width: u128 = MAX_COLUMN_WIDTH as u128;
        assert(share * width == share * 30) by (nonlinear_arith)
            requires
                width == 30,
        ;
        share * width / 100 <= width
    }
}

/// Computes the percentage for a bar that can be drawn.
pub fn percent_of(counter: usize, total: usize) -> (share: usize)
    requires
        fits(counter as nat, total as nat),
    ensures
        share == percent(counter as nat, total as nat),
        total > 0 ==> share <= 103,
{
    if total == 0 {
        100
    } else {
        let wide: u128 = (counter as u128) * 100 / (total as u128);
        proof {
            if total < MAX_COLUMN_WIDTH {
                lemma_counter_within_total_fits(counter as nat, total as nat);
            }
        }
        wide as usize
    }
}

/// Computes the width of the bar for `total` elements.
pub fn width_of(total: usize) -> (width: usize)
    ensures
        width == bar_width(total as nat),
{
    if total < MAX_COLUMN_WIDTH {
        total
    } else {
        MAX_COLUMN_WIDTH
    }
}

/// Computes the number of filled columns of a bar that can be drawn.
pub fn filled_of(counter: usize, total: usize) -> (filled: usize)
    requires
        fits(counter as nat, total as nat),
    ensures
        filled == filled_columns(counter as nat, total as nat),
        filled <= bar_width(total as nat),
{
    if total == 0 {
        0
    } else if total < MAX_COLUMN_WIDTH {
        counter
    } else {
        MAX_COLUMN_WIDTH * percent_of(counter, total) / 100
    }
}

} // verus!
