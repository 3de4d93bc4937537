use vstd::prelude::*;
use crate::message::{ToExchange, ToStrategy};

pub mod engine;
pub mod long_only_btc_candle_exchange;

verus! {

/// A simulated exchange that replays a candle table for one strategy.
///
/// Each tick the driver hands it the strategy's messages, then asks it to
/// move on while it has more data; the messages it returns go back to the
/// strategy.
pub trait Exchange {
    /// The exchange's own consistency condition.
    spec fn inv(&self) -> bool;

    /// Whether the clock can take one more step without overflowing.
    spec fn step_fits(&self) -> bool;

    /// Handles one message from the strategy.
    fn handle_message(&mut self, msg: ToExchange)
        requires
            old(self).inv(),
        ensures
            final(self).inv(),
    ;

    /// Handles all of `msgs`, in order.
    fn process_messages(&mut self, msgs: &Vec<ToExchange>)
        requires
            old(self).inv(),
        ensures
            final(self).inv(),
    ;

    /// Whether the exchange has more time to replay.
    fn can_update(&self) -> bool;

    /// Moves to the next tick and returns the messages for the strategy.
    fn update(&mut self) -> (r: Vec<ToStrategy>)
        requires
            old(self).inv(),
            old(self).step_fits(),
        ensures
            final(self).inv(),
    ;
}

} // verus!
