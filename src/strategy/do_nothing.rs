use vstd::prelude::*;
use crate::message::{ToExchange, ToStrategy};
use crate::strategy::Strategy;

verus! {

/// A strategy that subscribes to nothing and never trades.
pub struct DoNothing {}

impl Strategy for DoNothing {
    open spec fn handled(self, msg: ToStrategy) -> Self {
        self
    }

    fn init(&mut self) -> (r: Vec<ToExchange>)
        ensures
            r@.len() == 0,
    {
        Vec::new()
    }

    fn handle_message(&mut self, msg: ToStrategy) {
    }

    fn compute(&mut self) -> (r: Vec<ToExchange>)
        ensures
            r@.len() == 0,
    {
        Vec::new()
    }
}

} // verus!
