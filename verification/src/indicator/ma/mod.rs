//! Moving-average kinds and the rule a list of moving-average periods obeys.

use vstd::prelude::*;

verus! {

/// How a moving average weighs its values.
#[derive(Debug, Clone, Copy, PartialEq, Eq, Structural)]
pub enum MAType {
    /// Exponential moving average: recent values weigh more.
    EMA,
    /// Simple moving average: every value weighs the same.
    SMA,
    /// Weighted moving average: weights grow linearly towards recent values.
    WMA,
}

impl MAType {
    /// Short name of the kind: `EMA`, `SMA` or `WMA`.
    pub fn to_string(&self) -> (s: String)
        ensures
            s@ == (match *self {
                MAType::EMA => "EMA"@,
                MAType::SMA => "SMA"@,
                MAType::WMA => "WMA"@,
            }),
    {
        match self {
            MAType::EMA => String::from_str("EMA"),
            MAType::SMA => String::from_str("SMA"),
            MAType::WMA => String::from_str("WMA"),
        }
    }
}

/// A list of moving-average periods is usable when it is not empty, every
/// period is positive and the periods strictly increase.
pub open spec fn valid_ma_periods(periods: Seq<usize>) -> bool {
    &&& periods.len() > 0
    &&& forall|i: int| 0 <= i < periods.len() ==> periods[i] > 0
    &&& forall|i: int, j: int| 0 <= i < j < periods.len() ==> periods[i] < periods[j]
}

/// Tells whether a list of periods can back a collection of moving averages
/// (see `valid_ma_periods`).
pub fn ma_periods_are_valid(periods: &[usize]) -> (ok: bool)
    ensures
        ok == valid_ma_periods(periods@),
        ok == (periods@.len() > 0 && (forall|i: int| 0 <= i < periods@.len() ==> periods@[i] > 0)
            && (forall|i: int, j: int|
            0 <= i < j < periods@.len() ==> periods@[i] < periods@[j])),
{
    if periods.len() == 0 {
        return false;
    }
    if periods[0] == 0 {
        return false;
    }
    let mut i: usize = 1;
    while i < periods.len()
        invariant
            1 <= i <= periods.len(),
            periods@[0] > 0,
            forall|a: int, b: int| 0 <= a < b < i ==> periods@[a] < periods@[b],
        decreases periods.len() - i,
    {
        if periods[i] <= periods[i - 1] {
            return false;
        }
        i = i + 1;
    }
    assert forall|k: int| 0 <= k < periods@.len() implies periods@[k] > 0 by {
        if k > 0 {
            assert(periods@[0] < periods@[k]);
        }
    }
    true
}

/// Any non-empty list of positive, strictly increasing periods is valid,
/// whatever its length; an empty list, a zero period or a pair out of order
/// makes it invalid.
pub proof fn lemma_valid_ma_periods_characterized(periods: Seq<usize>)
    ensures
        valid_ma_periods(periods) <==> (periods.len() > 0 && (forall|i: int|
            0 <= i < periods.len() ==> periods[i] > 0) && (forall|i: int, j: int|
            0 <= i < j < periods.len() ==> periods[i] < periods[j])),
        periods.len() == 0 ==> !valid_ma_periods(periods),
        forall|i: int| 0 <= i < periods.len() && periods[i] == 0 ==> !valid_ma_periods(periods),
        forall|i: int| 0 <= i < periods.len() - 1 && #[trigger] periods[i] >= periods[i + 1] ==> !valid_ma_periods(periods),
{
}

/// Appending a period larger than the last keeps a valid list valid, so the
/// length of a list never makes it invalid.
pub proof fn lemma_valid_ma_periods_extend(periods: Seq<usize>, next: usize)
    requires
        valid_ma_periods(periods),
        next > periods[periods.len() - 1],
    ensures
        valid_ma_periods(periods.push(next)),
{
    assert forall|i: int, j: int| 0 <= i < j < periods.push(next).len() implies periods.push(next)[i]
        < periods.push(next)[j] by {
        if j == periods.len() {
            if i < periods.len() - 1 {
                assert(periods[i] < periods[periods.len() - 1]);
            }
        }
    }
}

} // verus!
