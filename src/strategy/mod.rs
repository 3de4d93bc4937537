use vstd::prelude::*;
use crate::message::{ToExchange, ToStrategy};

pub mod do_nothing;
pub mod sma_strategy;

verus! {

/// The strategy `s` after handling each of `msgs`, in order.
pub open spec fn handled_all<S: Strategy>(s: S, msgs: Seq<ToStrategy>) -> S
    decreases msgs.len(),
{
    if msgs.len() == 0 {
        s
    } else {
        handled_all(s, msgs.drop_last()).handled(msgs.last())
    }
}

/// A trading strategy driven by the exchange's messages.
pub trait Strategy: Sized {
    /// The strategy's state after handling `msg`.
    spec fn handled(self, msg: ToStrategy) -> Self;

    /// The messages to send before the run starts (subscriptions and such).
    fn init(&mut self) -> Vec<ToExchange>;

    /// Handles one message from the exchange.
    fn handle_message(&mut self, msg: ToStrategy)
        ensures
            *final(self) == old(self).handled(msg),
    ;

    /// Decides and returns the orders to send this round.
    fn compute(&mut self) -> Vec<ToExchange>;
}

/// Has `strategy` handle each of `msgs` once, in order.
pub fn process_messages<S: Strategy>(strategy: &mut S, msgs: &Vec<ToStrategy>)
    ensures
        *final(strategy) == handled_all(*old(strategy), msgs@),
{
    let mut k: usize = 0;
    while k < msgs.len()
        invariant
            k <= msgs@.len(),
            *strategy == handled_all(*old(strategy), msgs@.subrange(0, k as int)),
        decreases msgs@.len() - k,
    {
        proof {
            assert(msgs@.subrange(0, k + 1).drop_last() =~= msgs@.subrange(0, k as int));
            assert(msgs@.subrange(0, k + 1).last() == msgs@[k as int]);
        }
        strategy.handle_message(msgs[k]);
        k = k + 1;
    }
    assert(msgs@.subrange(0, msgs@.len() as int) =~= msgs@);
}

} // verus!
