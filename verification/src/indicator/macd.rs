//! Parameters of the moving average convergence/divergence indicator.

use vstd::prelude::*;
use crate::text::{decimal, push_decimal};

verus! {

/// Parameters of a MACD.
#[derive(Debug, Clone, Copy, PartialEq, Eq, Hash, Structural)]
pub struct MACDParams {
    /// Period of the fast EMA.
    pub fast_period: usize,
    /// Period of the slow EMA.
    pub slow_period: usize,
    /// Period of the signal line.
    pub signal_period: usize,
}

impl MACDParams {
    /// Text form, `MACD(<fast>,<slow>,<signal>)`.
    pub fn to_string(&self) -> (s: String)
        ensures
            s@ == "MACD("@ + decimal(self.fast_period as nat) + ","@ + decimal(
                self.slow_period as nat,
            ) + ","@ + decimal(self.signal_period as nat) + ")"@,
    {
        let mut s = String::from_str("MACD(");
        push_decimal(&mut s, self.fast_period);
        s.append(",");
        push_decimal(&mut s, self.slow_period);
        s.append(",");
        push_decimal(&mut s, self.signal_period);
        s.append(")");
        s
    }
}

} // verus!
