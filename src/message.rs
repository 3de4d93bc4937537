use vstd::prelude::*;
use crate::candle::Candle;
use crate::coin::Coin;
use crate::order::{FilledOrder, OpenOrder};

verus! {

/// A message from the strategy to the exchange.
#[derive(Clone, Copy, Debug, PartialEq, Eq, Structural)]
pub enum ToExchange {
    /// Market channel: ask for the candles of a symbol.
    Subscribe(Coin),
    /// Order channel: a new order for the book.
    Order(OpenOrder),
}

/// A message from the exchange to the strategy.
#[derive(Clone, Copy, Debug, PartialEq, Eq, Structural)]
pub enum ToStrategy {
    /// Market channel: a new candle of a subscribed symbol.
    MarketData(Coin, Candle),
    /// Order channel: an order that was filled.
    Fill(FilledOrder),
}

} // verus!
