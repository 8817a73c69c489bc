//! Parameters of the volume-weighted average price and the window rule that
//! the price series is cut to.

use vstd::prelude::*;
use crate::text::{decimal, push_decimal};

verus! {

/// Number of candles a VWAP with no period of its own looks back at.
pub const MAX_PERIOD_0_CAPACITY: usize = 500;

/// Parameters of a VWAP.
#[derive(Debug, Clone, Copy, PartialEq, Eq, Hash, Structural)]
pub struct VWAPParams {
    /// Number of candles looked at; 0 means all of them (up to
    /// `MAX_PERIOD_0_CAPACITY`).
    pub period: usize,
}

impl VWAPParams {
    /// Parameters with the given period.
    pub fn new(period: usize) -> (r: Self)
        ensures
            r.period == period,
    {
        VWAPParams { period }
    }

    /// Text form, `VWAP(<period>)`.
    pub fn to_string(&self) -> (s: String)
        ensures
            s@ == "VWAP("@ + decimal(self.period as nat) + ")"@,
    {
        let mut s = String::from_str("VWAP(");
        push_decimal(&mut s, self.period);
        s.append(")");
        s
    }

    /// Index of the first candle, among `len` candles, that the VWAP takes
    /// into account: the last `period` candles, or the last
    /// `MAX_PERIOD_0_CAPACITY` when the period is 0 (all candles when there
    /// are fewer).
    pub fn window_start(&self, len: usize) -> (start: usize)
        ensures
            start == vwap_window_start(len as int, self.period as int),
    {
        let limit = if self.period > 0 {
            self.period
        } else {
            MAX_PERIOD_0_CAPACITY
        };
        if len > limit {
            len - limit
        } else {
            0
        }
    }
}

/// First index kept of `len` candles for a VWAP of the given period.
pub open spec fn vwap_window_start(len: int, period: int) -> int {
    let limit = if period > 0 { period } else { MAX_PERIOD_0_CAPACITY as int };
    if len > limit { len - limit } else { 0 }
}

impl Default for VWAPParams {
    /// Period 0: every candle (up to `MAX_PERIOD_0_CAPACITY`).
    fn default() -> (r: Self)
        ensures
            r.period == 0,
    {
        Self::new(0)
    }
}

/// The window keeps at most the requested number of candles, and exactly
/// that many when enough are available; it never starts past the end.
pub proof fn lemma_vwap_window_size(len: int, period: int)
    requires
        len >= 0,
        period >= 0,
    ensures
        0 <= vwap_window_start(len, period) <= len,
        period > 0 ==> len - vwap_window_start(len, period) == if len < period { len } else { period },
        period == 0 ==> len - vwap_window_start(len, period) == if len < MAX_PERIOD_0_CAPACITY {
            len
        } else {
            MAX_PERIOD_0_CAPACITY as int
        },
{
}

} // verus!
