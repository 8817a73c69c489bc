//! Parameters of the Ichimoku cloud.

use vstd::prelude::*;
use crate::text::{decimal, push_decimal};

verus! {

/// Parameters of an Ichimoku cloud.
#[derive(Debug, Clone, Copy, PartialEq, Eq, Hash, Structural)]
pub struct IchimokuParams {
    /// Conversion-line period (usually 9).
    pub tenkan_period: usize,
    /// Base-line period (usually 26).
    pub kijun_period: usize,
    /// Leading-span period (usually 52).
    pub senkou_period: usize,
}

impl IchimokuParams {
    /// Text form, `Ichimoku(<tenkan>,<kijun>,<senkou>)`.
    pub fn to_string(&self) -> (s: String)
        ensures
            s@ == "Ichimoku("@ + decimal(self.tenkan_period as nat) + ","@ + decimal(
                self.kijun_period as nat,
            ) + ","@ + decimal(self.senkou_period as nat) + ")"@,
    {
        let mut s = String::from_str("Ichimoku(");
        push_decimal(&mut s, self.tenkan_period);
        s.append(",");
        push_decimal(&mut s, self.kijun_period);
        s.append(",");
        push_decimal(&mut s, self.senkou_period);
        s.append(")");
        s
    }
}

} // verus!
