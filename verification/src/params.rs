//! Trade-level parameters shared across the swap path.
use vstd::prelude::*;

verus! {

/// Which side of the pair the trader pays in.
#[derive(Clone, Copy, Debug, PartialEq, Eq, Structural)]
pub enum TradeDirection {
    /// sell: pay base, receive quote
    BaseToQuote,
    /// buy: pay quote, receive base
    QuoteToBase,
}

impl TradeDirection {
    /// The raw value denoting this direction.
    pub fn to_u8(&self) -> (r: u8)
        ensures
            *self == TradeDirection::BaseToQuote ==> r == 0,
            *self == TradeDirection::QuoteToBase ==> r == 1,
    {
        match self {
            TradeDirection::BaseToQuote => 0,
            TradeDirection::QuoteToBase => 1,
        }
    }
}

} // verus!
