use vstd::prelude::*;
use crate::candle::Candle;
use crate::order::{fill_of, FilledOrder, OpenOrder};

verus! {

/// What became of one order in one attempt.
#[derive(Clone, Copy, Debug, PartialEq, Eq, Structural)]
pub enum Outcome {
    /// Executed; the fill is reported to the strategy.
    Filled(FilledOrder),
    /// Not executable now; stays in the book.
    Open,
    /// Cancelled or rejected; leaves the book without a fill.
    Removed,
}

/// An outcome together with the cash and the held quantity of the order's
/// symbol after it.
#[derive(Clone, Copy, Debug, PartialEq, Eq, Structural)]
pub struct Step {
    pub outcome: Outcome,
    pub cash: u64,
    pub held: u64,
}

/// The order's limit, or the candle's open for a market order.
pub open spec fn effective_limit(order: OpenOrder, candle: Candle) -> u32 {
    match order.limit {
        Some(l) => l,
        None => candle.open,
    }
}

/// Price paid by a buy: the limit, but never above the candle's high.
pub open spec fn buy_price(order: OpenOrder, candle: Candle) -> u32 {
    let lim = effective_limit(order, candle);
    if candle.high <= lim { candle.high } else { lim }
}

/// Price received by a sell: the limit, but never below the candle's low.
pub open spec fn sell_price(order: OpenOrder, candle: Candle) -> u32 {
    let lim = effective_limit(order, candle);
    if lim <= candle.low { candle.low } else { lim }
}

/// Buy to open against `candle` with `cash` on hand and `held` of the symbol.
///
/// A limit below the low leaves the order open. A buy that costs more than
/// the cash, or whose position would not fit in 64 bits, is cancelled.
pub open spec fn bto_step(order: OpenOrder, candle: Candle, cash: u64, held: u64) -> Step {
    let price = buy_price(order, candle);
    let cost = price * order.quantity;
    if effective_limit(order, candle) < candle.low {
        Step { outcome: Outcome::Open, cash, held }
    } else if cash < cost || held + order.quantity > u64::MAX {
        Step { outcome: Outcome::Removed, cash, held }
    } else {
        Step {
            outcome: Outcome::Filled(fill_of(order, price)),
            cash: (cash - cost) as u64,
            held: (held + order.quantity) as u64,
        }
    }
}

/// Sell to close against `candle` with `cash` on hand and `held` of the symbol.
///
/// A limit above the high leaves the order open. A sell of more than is held,
/// or whose proceeds would take the cash past 64 bits, is rejected.
pub open spec fn stc_step(order: OpenOrder, candle: Candle, cash: u64, held: u64) -> Step {
    let price = sell_price(order, candle);
    let proceeds = price * order.quantity;
    if effective_limit(order, candle) > candle.high {
        Step { outcome: Outcome::Open, cash, held }
    } else if held < order.quantity || cash + proceeds > u64::MAX {
        Step { outcome: Outcome::Removed, cash, held }
    } else {
        Step {
            outcome: Outcome::Filled(fill_of(order, price)),
            cash: (cash + proceeds) as u64,
            held: (held - order.quantity) as u64,
        }
    }
}

fn limit_of(order: &OpenOrder, candle: &Candle) -> (r: u32)
    ensures
        r == effective_limit(*order, *candle),
{
    match order.limit {
        Some(l) => l,
        None => candle.open,
    }
}

fn amount(price: u32, quantity: u32) -> (r: u64)
    ensures
        r == price * quantity,
{
    proof {
        assert(price * quantity <= u32::MAX * u32::MAX) by (nonlinear_arith)
            requires
                price <= u32::MAX,
                quantity <= u32::MAX,
        ;
    }
    price as u64 * quantity as u64
}

/// Attempts a buy to open: see `bto_step`.
pub fn match_bto(order: &OpenOrder, candle: &Candle, cash: u64, held: u64) -> (r: Step)
    ensures
        r == bto_step(*order, *candle, cash, held),
{
    let lim = limit_of(order, candle);
    if lim < candle.low {
        return Step { outcome: Outcome::Open, cash, held };
    }
    let price: u32 = if candle.high <= lim { candle.high } else { lim };
    let cost = amount(price, order.quantity);
    if cash < cost || held > u64::MAX - order.quantity as u64 {
        return Step { outcome: Outcome::Removed, cash, held };
    }
    Step {
        outcome: Outcome::Filled(FilledOrder::new(order, price)),
        cash: cash - cost,
        held: held + order.quantity as u64,
    }
}

/// Attempts a sell to close: see `stc_step`.
pub fn match_stc(order: &OpenOrder, candle: &Candle, cash: u64, held: u64) -> (r: Step)
    ensures
        r == stc_step(*order, *candle, cash, held),
{
    let lim = limit_of(order, candle);
    if lim > candle.high {
        return Step { outcome: Outcome::Open, cash, held };
    }
    let price: u32 = if lim <= candle.low { candle.low } else { lim };
    let proceeds = amount(price, order.quantity);
    if held < order.quantity as u64 || cash > u64::MAX - proceeds {
        return Step { outcome: Outcome::Removed, cash, held };
    }
    Step {
        outcome: Outcome::Filled(FilledOrder::new(order, price)),
        cash: cash + proceeds,
        held: held - order.quantity as u64,
    }
}

} // verus!
