use vstd::prelude::*;
use crate::coin::Coin;
use crate::message::{ToExchange, ToStrategy};
use crate::strategy::Strategy;

verus! {

/// A BTC strategy that follows the closing price; it places no orders yet.
pub struct SmaStrategy {
    /// Close of the latest BTC candle received.
    pub last_close: Option<u32>,
}

impl SmaStrategy {
    /// Takes note of a message: a BTC candle becomes the latest close.
    pub fn observe(&mut self, msg: ToStrategy)
        ensures
            final(self).last_close == (match msg {
                ToStrategy::MarketData(Coin::BTC, c) => Some(c.close),
                _ => old(self).last_close,
            }),
    {
        match msg {
            ToStrategy::MarketData(Coin::BTC, c) => {
                self.last_close = Some(c.close);
            },
            _ => {},
        }
    }
}

impl Strategy for SmaStrategy {
    open spec fn handled(self, msg: ToStrategy) -> Self {
        SmaStrategy {
            last_close: match msg {
                ToStrategy::MarketData(Coin::BTC, c) => Some(c.close),
                _ => self.last_close,
            },
        }
    }

    /// Subscribes to BTC and nothing else.
    fn init(&mut self) -> (r: Vec<ToExchange>)
        ensures
            r@ == seq![ToExchange::Subscribe(Coin::BTC)],
            *final(self) == *old(self),
    {
        let mut msgs: Vec<ToExchange> = Vec::new();
        msgs.push(ToExchange::Subscribe(Coin::BTC));
        assert(msgs@ =~= seq![ToExchange::Subscribe(Coin::BTC)]);
        msgs
    }

    fn handle_message(&mut self, msg: ToStrategy) {
        self.observe(msg);
    }

    /// Places no orders.
    fn compute(&mut self) -> (r: Vec<ToExchange>)
        ensures
            r@.len() == 0,
            *final(self) == *old(self),
    {
        Vec::new()
    }
}

} // verus!
