use vstd::prelude::*;

verus! {

/// Open, high, low and close prices of one instrument over one interval.
///
/// Prices are fixed-point integers (whole ticks of the quote currency).
/// A sound candle has `low <= open, close <= high`; the engine does not
/// rely on it.
#[derive(Clone, Copy, Debug, PartialEq, Eq, Structural)]
pub struct Candle {
    pub open: u32,
    pub high: u32,
    pub low: u32,
    pub close: u32,
}

} // verus!
