//! Counting and windowing rules for comparing the current price with a
//! reference price taken from earlier candles.

use vstd::prelude::*;

verus! {

/// Number of candles needed to compare against a reference over
/// `reference_period` candles, offset by `p`, for `consecutive_n` consecutive
/// checks (at least one), plus the current candle when it is left out of the
/// reference.
pub open spec fn spec_required_candle_count(
    reference_period: int,
    excludes_current_candle: bool,
    p: int,
    consecutive_n: int,
) -> int {
    reference_period + (if excludes_current_candle { 1int } else { 0int }) + p + (if consecutive_n
        > 0 {
        consecutive_n - 1
    } else {
        0
    })
}

/// See `spec_required_candle_count`.
pub fn required_candle_count(
    reference_period: usize,
    excludes_current_candle: bool,
    p: usize,
    consecutive_n: usize,
) -> (n: usize)
    requires
        spec_required_candle_count(
            reference_period as int,
            excludes_current_candle,
            p as int,
            consecutive_n as int,
        ) <= usize::MAX,
    ensures
        n as int == spec_required_candle_count(
            reference_period as int,
            excludes_current_candle,
            p as int,
            consecutive_n as int,
        ),
        n as int == reference_period as int + (if excludes_current_candle { 1int } else { 0int })
            + p as int + (if consecutive_n >= 1 { consecutive_n as int - 1 } else { 0int }),
{
    let current: usize = if excludes_current_candle {
        1
    } else {
        0
    };
    reference_period + current + p + consecutive_n.saturating_sub(1)
}

/// The candles a high/low reference is taken from: the whole window when the
/// current (last) candle counts, otherwise the window without its last candle,
/// which needs at least two candles.
pub fn high_low_reference_window<C>(window: &[C], include_current_candle: bool) -> (r: Option<
    &[C],
>)
    ensures
        include_current_candle ==> r == Some(window),
        !include_current_candle ==> (match r {
            Some(w) => window@.len() >= 2 && w@ == window@.drop_last(),
            None => window@.len() < 2,
        }),
{
    if include_current_candle {
        return Some(window);
    }
    if window.len() < 2 {
        return None;
    }
    let (head, _) = window.split_at(window.len() - 1);
    Some(head)
}

/// Each further unit of the offset `p`, of the reference period or of the
/// consecutive checks (beyond the first) costs exactly one candle, and leaving
/// the current candle out costs one more; in closed form the count is
/// `reference_period + [excludes] + p + max(consecutive_n - 1, 0)`.
pub proof fn lemma_candle_count_growth(
    reference_period: int,
    excludes_current_candle: bool,
    p: int,
    consecutive_n: int,
)
    requires
        reference_period >= 0,
        p >= 0,
        consecutive_n >= 0,
    ensures
        spec_required_candle_count(reference_period, excludes_current_candle, p + 1, consecutive_n)
            == spec_required_candle_count(reference_period, excludes_current_candle, p, consecutive_n)
            + 1,
        spec_required_candle_count(reference_period + 1, excludes_current_candle, p, consecutive_n)
            == spec_required_candle_count(reference_period, excludes_current_candle, p, consecutive_n)
            + 1,
        spec_required_candle_count(reference_period, true, p, consecutive_n)
            == spec_required_candle_count(reference_period, false, p, consecutive_n) + 1,
        spec_required_candle_count(reference_period, false, p, consecutive_n) == reference_period + p
            + (if consecutive_n >= 1 { consecutive_n - 1 } else { 0 }),
        spec_required_candle_count(reference_period, excludes_current_candle, p, 0)
            == spec_required_candle_count(reference_period, excludes_current_candle, p, 1),
        spec_required_candle_count(reference_period, excludes_current_candle, p, consecutive_n + 2)
            == spec_required_candle_count(reference_period, excludes_current_candle, p, consecutive_n + 1)
            + 1,
{
}

} // verus!
