use vstd::prelude::*;
use crate::candle::Candle;
use crate::coin::{coin_index, NUM_COINS};
use crate::exchange::engine::{match_orders, order_step};
use crate::matching::{bto_step, stc_step, Outcome, Step};
use crate::order::{fill_of, OpenOrder, OrderType};

verus! {

/// A market buy against a candle whose low is at most its open fills at the
/// lower of the high and the open whenever the cash covers it (and the
/// position fits): the cash falls by price times quantity and the position
/// grows by the quantity. It never stays open.
pub proof fn market_buy_fills_at_open(order: OpenOrder, candle: Candle, cash: u64, held: u64)
    requires
        order.limit is None,
        candle.low <= candle.open,
    ensures
        ({
            let price = if candle.high <= candle.open { candle.high } else { candle.open };
            let s = bto_step(order, candle, cash, held);
            &&& s.outcome != Outcome::Open
            &&& (cash >= price * order.quantity && held + order.quantity <= u64::MAX) ==> s == Step {
                outcome: Outcome::Filled(fill_of(order, price)),
                cash: (cash - price * order.quantity) as u64,
                held: (held + order.quantity) as u64,
            }
        }),
{
}

/// A market sell against a candle whose open is at most its high, of no more
/// than is held, fills at the higher of the low and the open (where the cash
/// can take the proceeds): the cash grows by price times quantity and the
/// position falls by the quantity. It never stays open.
pub proof fn market_sell_fills_at_open(order: OpenOrder, candle: Candle, cash: u64, held: u64)
    requires
        order.limit is None,
        candle.open <= candle.high,
    ensures
        ({
            let price = if candle.open <= candle.low { candle.low } else { candle.open };
            let s = stc_step(order, candle, cash, held);
            &&& s.outcome != Outcome::Open
            &&& (held >= order.quantity && cash + price * order.quantity <= u64::MAX) ==> s == Step {
                outcome: Outcome::Filled(fill_of(order, price)),
                cash: (cash + price * order.quantity) as u64,
                held: (held - order.quantity) as u64,
            }
        }),
{
}

/// In the book, a market buy whose symbol's current candle has its low at
/// most its open fills at the lower of the high and the open when the cash
/// covers it: the cash falls by price times quantity and that symbol's long
/// position, alone, grows by the quantity.
pub proof fn market_buy_fills_in_book(
    order: OpenOrder,
    candles: Seq<Option<Candle>>,
    cash: u64,
    long: Seq<u64>,
)
    requires
        order.order_type == OrderType::BTO,
        order.limit is None,
        candles.len() == NUM_COINS,
        long.len() == NUM_COINS,
        candles[coin_index(order.symbol) as int] matches Some(c) && c.low <= c.open && cash >= (
        if c.high <= c.open {
            c.high
        } else {
            c.open
        }) * order.quantity,
        long[coin_index(order.symbol) as int] + order.quantity <= u64::MAX,
    ensures
        ({
            let i = coin_index(order.symbol) as int;
            let c = candles[i].unwrap();
            let price = if c.high <= c.open { c.high } else { c.open };
            order_step(order, candles, cash, long) == (
                Outcome::Filled(fill_of(order, price)),
                (cash - price * order.quantity) as u64,
                long.update(i, (long[i] + order.quantity) as u64),
            )
        }),
{
}

/// In the book, a market sell of no more than is held, whose symbol's current
/// candle has its open at most its high, fills at the higher of the low and
/// the open (where the cash can take the proceeds): the cash grows by price
/// times quantity and that symbol's long position, alone, falls by the
/// quantity.
pub proof fn market_sell_fills_in_book(
    order: OpenOrder,
    candles: Seq<Option<Candle>>,
    cash: u64,
    long: Seq<u64>,
)
    requires
        order.order_type == OrderType::STC,
        order.limit is None,
        candles.len() == NUM_COINS,
        long.len() == NUM_COINS,
        candles[coin_index(order.symbol) as int] matches Some(c) && c.open <= c.high && cash + (
        if c.open <= c.low {
            c.low
        } else {
            c.open
        }) * order.quantity <= u64::MAX,
        long[coin_index(order.symbol) as int] >= order.quantity,
    ensures
        ({
            let i = coin_index(order.symbol) as int;
            let c = candles[i].unwrap();
            let price = if c.open <= c.low { c.low } else { c.open };
            order_step(order, candles, cash, long) == (
                Outcome::Filled(fill_of(order, price)),
                (cash + price * order.quantity) as u64,
                long.update(i, (long[i] - order.quantity) as u64),
            )
        }),
{
}

/// A buy whose limit is below the low of its symbol's candle does not fill:
/// it stays in the book, with the ledger untouched, tick after tick for as
/// long as that candle is current.
pub proof fn buy_below_low_stays_open(
    order: OpenOrder,
    candles: Seq<Option<Candle>>,
    cash: u64,
    long: Seq<u64>,
)
    requires
        order.order_type == OrderType::BTO,
        candles.len() == NUM_COINS,
        long.len() == NUM_COINS,
        candles[coin_index(order.symbol) as int] matches Some(c) && order.limit matches Some(l) && l
            < c.low,
    ensures
        order_step(order, candles, cash, long) == (Outcome::Open, cash, long),
        match_orders(seq![order], candles, cash, long) == (seq![order], Seq::<
            crate::order::FilledOrder,
        >::empty(), cash, long),
{
    let c = candles[coin_index(order.symbol) as int].unwrap();
    assert(bto_step(order, c, cash, long[coin_index(order.symbol) as int]).held == long[coin_index(
        order.symbol,
    ) as int]);
    assert(long.update(coin_index(order.symbol) as int, long[coin_index(order.symbol) as int])
        =~= long);
    assert(seq![order].drop_last() =~= Seq::<OpenOrder>::empty());
    assert(seq![order].last() == order);
    assert(match_orders(Seq::<OpenOrder>::empty(), candles, cash, long) == (
        Seq::<OpenOrder>::empty(),
        Seq::<crate::order::FilledOrder>::empty(),
        cash,
        long,
    ));
    assert(Seq::<OpenOrder>::empty().push(order) =~= seq![order]);
}

/// Buying at market and then selling the same quantity at market against
/// the same candle returns the cash and the position to where they were.
pub proof fn round_trip_keeps_cash(
    buy: OpenOrder,
    sell: OpenOrder,
    candle: Candle,
    cash: u64,
    held: u64,
)
    requires
        buy.limit is None,
        sell.limit is None,
        buy.quantity == sell.quantity,
        candle.low <= candle.open <= candle.high,
        cash >= candle.open * buy.quantity,
        held + buy.quantity <= u64::MAX,
    ensures
        ({
            let b = bto_step(buy, candle, cash, held);
            let s = stc_step(sell, candle, b.cash, b.held);
            &&& b.outcome is Filled
            &&& s.outcome is Filled
            &&& s.cash == cash
            &&& s.held == held
        }),
{
}

/// Orders to sell to open or to buy to close are removed without a fill and
/// without touching the ledger, whatever the candles and the ledger hold.
pub proof fn short_orders_rejected(
    order: OpenOrder,
    candles: Seq<Option<Candle>>,
    cash: u64,
    long: Seq<u64>,
)
    requires
        order.order_type == OrderType::STO || order.order_type == OrderType::BTC,
    ensures
        order_step(order, candles, cash, long) == (Outcome::Removed, cash, long),
{
}

/// Positions in `orders` of the orders that a pass over the book fills, or
/// keeps open when `open` is set, in order.
pub open spec fn sources(
    orders: Seq<OpenOrder>,
    candles: Seq<Option<Candle>>,
    cash: u64,
    long: Seq<u64>,
    open: bool,
) -> Seq<int>
    decreases orders.len(),
{
    if orders.len() == 0 {
        Seq::empty()
    } else {
        let prev = match_orders(orders.drop_last(), candles, cash, long);
        let step = order_step(orders.last(), candles, prev.2, prev.3);
        let idx = sources(orders.drop_last(), candles, cash, long, open);
        if (open && step.0 is Open) || (!open && step.0 is Filled) {
            idx.push(orders.len() - 1)
        } else {
            idx
        }
    }
}

/// Whether `idx` lists distinct positions of a sequence of length `n`, in
/// increasing order.
pub open spec fn increasing_below(idx: Seq<int>, n: int) -> bool {
    &&& forall|j: int| 0 <= j < idx.len() ==> 0 <= #[trigger] idx[j] < n
    &&& forall|j1: int, j2: int| 0 <= j1 < j2 < idx.len() ==> idx[j1] < idx[j2]
}

/// One pass over the book reports each order at most once. Every fill comes
/// from its own order, which leaves the book; every order kept open is one of
/// the book's orders, unchanged; no order is both filled and kept, and none
/// is reported twice.
pub proof fn each_order_reported_once(
    orders: Seq<OpenOrder>,
    candles: Seq<Option<Candle>>,
    cash: u64,
    long: Seq<u64>,
)
    ensures
        ({
            let res = match_orders(orders, candles, cash, long);
            let filled = sources(orders, candles, cash, long, false);
            let kept = sources(orders, candles, cash, long, true);
            &&& res.0.len() + res.1.len() <= orders.len()
            &&& filled.len() == res.1.len()
            &&& kept.len() == res.0.len()
            &&& increasing_below(filled, orders.len() as int)
            &&& increasing_below(kept, orders.len() as int)
            &&& forall|j1: int, j2: int|
                0 <= j1 < filled.len() && 0 <= j2 < kept.len() ==> filled[j1] != kept[j2]
            &&& forall|j: int| 0 <= j < kept.len() ==> res.0[j] == orders[#[trigger] kept[j]]
            &&& forall|j: int|
                0 <= j < filled.len() ==> {
                    let o = orders[#[trigger] filled[j]];
                    &&& res.1[j].order_type == o.order_type
                    &&& res.1[j].symbol == o.symbol
                    &&& res.1[j].quantity == o.quantity
                }
        }),
    decreases orders.len(),
{
    if orders.len() > 0 {
        let front = orders.drop_last();
        each_order_reported_once(front, candles, cash, long);
        let prev = match_orders(front, candles, cash, long);
        let step = order_step(orders.last(), candles, prev.2, prev.3);
        let o = orders.last();
        let n = orders.len() - 1;
        assert forall|j: int| 0 <= j < n implies front[j] == orders[j] by {}
        if let Outcome::Filled(f) = step.0 {
            let i = coin_index(o.symbol) as int;
            assert(f.order_type == o.order_type && f.symbol == o.symbol && f.quantity
                == o.quantity) by {
                match o.order_type {
                    OrderType::BTO => {
                        let c = candles[i].unwrap();
                        assert(step.0 == bto_step(o, c, prev.2, prev.3[i]).outcome);
                    },
                    OrderType::STC => {
                        let c = candles[i].unwrap();
                        assert(step.0 == stc_step(o, c, prev.2, prev.3[i]).outcome);
                    },
                    _ => {},
                }
            }
        }
    }
}

} // verus!
