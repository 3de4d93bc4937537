use vstd::prelude::*;
use crate::candle::Candle;
use crate::coin::{coin_index, Coin, NUM_COINS};
use crate::exchange::engine;
use crate::exchange::engine::{
    advanced, fill_messages, market_key, market_messages, match_orders, orders_in, subscribes,
    STEP,
};
use crate::ledger::nlv_of;
use crate::exchange::Exchange;
use crate::message::{ToExchange, ToStrategy};
use crate::order::{FilledOrder, OpenOrder, OrderType};

verus! {

/// Side of an order on the long-only exchange.
#[derive(Clone, Copy, Debug, PartialEq, Eq, Structural)]
pub enum BuySell {
    Buy,
    Sell,
}

impl BuySell {
    /// A buy opens a long position, a sell closes one.
    pub fn order_type(self) -> (r: OrderType)
        ensures
            r == (match self {
                BuySell::Buy => OrderType::BTO,
                BuySell::Sell => OrderType::STC,
            }),
    {
        match self {
            BuySell::Buy => OrderType::BTO,
            BuySell::Sell => OrderType::STC,
        }
    }

    /// A BTC order of this side.
    pub fn order(self, quantity: u32, limit: Option<u32>) -> (r: OpenOrder)
        ensures
            r == (OpenOrder {
                order_type: match self {
                    BuySell::Buy => OrderType::BTO,
                    BuySell::Sell => OrderType::STC,
                },
                symbol: Coin::BTC,
                limit,
                quantity,
            }),
    {
        OpenOrder { order_type: self.order_type(), symbol: Coin::BTC, limit, quantity }
    }
}

/// A candle exchange that lists BTC alone and takes long positions only.
///
/// Market data: the strategy subscribes to BTC and then gets each new candle.
/// Orders: the strategy sends orders and gets a fill back for each one that
/// executes.
pub struct LongOnlyBtcCandleExchange {
    pub exchange: engine::Exchange,
}

impl LongOnlyBtcCandleExchange {
    /// An exchange holding `cash`, with no data yet: its clock starts at the
    /// latest possible time and ends at the earliest, so that loading data
    /// widens the span to the data's.
    pub fn new(cash: u64) -> (r: Self)
        ensures
            r.exchange.wf(),
            r.exchange.ledger.cash == cash,
            r.exchange.ledger.nlv == cash,
            forall|i: int| 0 <= i < NUM_COINS ==> r.exchange.ledger.long_positions@[i] == 0,
            forall|i: int| 0 <= i < NUM_COINS ==> r.exchange.ledger.short_positions@[i] == 0,
            forall|i: int| 0 <= i < NUM_COINS ==> r.exchange.current_candles@[i].is_none(),
            forall|i: int| 0 <= i < NUM_COINS ==> !r.exchange.subscriptions@[i],
            r.exchange.open_orders@.len() == 0,
            r.exchange.curr_time == u32::MAX,
            r.exchange.end_time == 0,
            r.exchange.market_data@ == Map::<u64, Candle>::empty(),
    {
        LongOnlyBtcCandleExchange { exchange: engine::Exchange::new(cash, u32::MAX, 0) }
    }

    /// Loads the BTC candle of `time`; the replayed span stretches from the
    /// earliest loaded time to the latest.
    pub fn load(&mut self, time: u32, candle: Candle)
        requires
            old(self).exchange.wf(),
            old(self).exchange.curr_time <= u32::MAX,
        ensures
            final(self).exchange.wf(),
            final(self).exchange.curr_time <= u32::MAX,
            final(self).exchange.market_data@ == old(self).exchange.market_data@.insert(
                market_key(coin_index(Coin::BTC) as int, time as int) as u64,
                candle,
            ),
            final(self).exchange.curr_time == if time < old(self).exchange.curr_time {
                time as u64
            } else {
                old(self).exchange.curr_time
            },
            final(self).exchange.end_time == if time > old(self).exchange.end_time {
                time as u64
            } else {
                old(self).exchange.end_time
            },
            final(self).exchange.ledger == old(self).exchange.ledger,
            final(self).exchange.open_orders == old(self).exchange.open_orders,
            final(self).exchange.current_candles == old(self).exchange.current_candles,
            final(self).exchange.subscriptions == old(self).exchange.subscriptions,
    {
        self.exchange.insert_candle(Coin::BTC, time, candle);
        if (time as u64) < self.exchange.curr_time {
            self.exchange.curr_time = time as u64;
        }
        if (time as u64) > self.exchange.end_time {
            self.exchange.end_time = time as u64;
        }
    }

    /// Runs the book once against the current candle; see
    /// `engine::Exchange::attempt_orders`.
    pub fn attempt_orders(&mut self) -> (r: Vec<FilledOrder>)
        requires
            old(self).exchange.wf(),
        ensures
            final(self).exchange.wf(),
            ({
                let res = match_orders(
                    old(self).exchange.open_orders@,
                    old(self).exchange.current_candles@,
                    old(self).exchange.ledger.cash,
                    old(self).exchange.ledger.long_positions@,
                );
                &&& final(self).exchange.open_orders@ == res.0
                &&& r@ == res.1
                &&& final(self).exchange.ledger.cash == res.2
                &&& final(self).exchange.ledger.long_positions@ == res.3
            }),
            final(self).exchange.keeps_all_but_cash_and_longs(&old(self).exchange),
    {
        self.exchange.attempt_orders()
    }
}

impl Exchange for LongOnlyBtcCandleExchange {
    open spec fn inv(&self) -> bool {
        self.exchange.wf()
    }

    open spec fn step_fits(&self) -> bool {
        self.exchange.curr_time <= u64::MAX - STEP
    }

    /// A subscription marks its coin; an order joins the end of the book.
    fn handle_message(&mut self, msg: ToExchange)
        ensures
            match msg {
                ToExchange::Subscribe(c) => {
                    &&& final(self).exchange.subscriptions@ == old(
                        self,
                    ).exchange.subscriptions@.update(coin_index(c) as int, true)
                    &&& final(self).exchange.open_orders == old(self).exchange.open_orders
                },
                ToExchange::Order(o) => {
                    &&& final(self).exchange.subscriptions == old(self).exchange.subscriptions
                    &&& final(self).exchange.open_orders@ == old(
                        self,
                    ).exchange.open_orders@.push(o)
                },
            },
            final(self).exchange.current_candles == old(self).exchange.current_candles,
            final(self).exchange.ledger == old(self).exchange.ledger,
            final(self).exchange.curr_time == old(self).exchange.curr_time,
            final(self).exchange.end_time == old(self).exchange.end_time,
            final(self).exchange.market_data == old(self).exchange.market_data,
    {
        self.exchange.handle_message(msg);
    }

    /// Every order among `msgs` joins the book in order; every subscription
    /// marks its coin.
    fn process_messages(&mut self, msgs: &Vec<ToExchange>)
        ensures
            final(self).exchange.open_orders@ == old(self).exchange.open_orders@ + orders_in(
                msgs@,
            ),
            forall|i: int|
                0 <= i < NUM_COINS ==> (#[trigger] final(self).exchange.subscriptions@[i] <==> (old(
                    self,
                ).exchange.subscriptions@[i] || subscribes(msgs@, i))),
            final(self).exchange.current_candles == old(self).exchange.current_candles,
            final(self).exchange.ledger == old(self).exchange.ledger,
            final(self).exchange.curr_time == old(self).exchange.curr_time,
            final(self).exchange.end_time == old(self).exchange.end_time,
            final(self).exchange.market_data == old(self).exchange.market_data,
    {
        self.exchange.process_messages(msgs);
    }

    fn can_update(&self) -> (r: bool)
        ensures
            r == (self.exchange.curr_time < self.exchange.end_time),
    {
        self.exchange.can_update()
    }

    /// One tick of the engine; see `engine::Exchange::update`.
    fn update(&mut self) -> (r: Vec<ToStrategy>)
        ensures
            ({
                let t = old(self).exchange.curr_time + STEP;
                let candles = advanced(
                    old(self).exchange.current_candles@,
                    old(self).exchange.market_data@,
                    t,
                );
                let res = match_orders(
                    old(self).exchange.open_orders@,
                    candles,
                    old(self).exchange.ledger.cash,
                    old(self).exchange.ledger.long_positions@,
                );
                &&& final(self).exchange.curr_time == t
                &&& final(self).exchange.current_candles@ == candles
                &&& final(self).exchange.open_orders@ == res.0
                &&& final(self).exchange.ledger.cash == res.2
                &&& final(self).exchange.ledger.long_positions@ == res.3
                &&& final(self).exchange.ledger.short_positions == old(
                    self,
                ).exchange.ledger.short_positions
                &&& final(self).exchange.ledger.nlv == nlv_of(
                    res.2,
                    res.3,
                    old(self).exchange.ledger.short_positions@,
                    candles,
                )
                &&& r@ == fill_messages(res.1) + market_messages(
                    old(self).exchange.subscriptions@,
                    old(self).exchange.market_data@,
                    t,
                    NUM_COINS as nat,
                )
            }),
            final(self).exchange.end_time == old(self).exchange.end_time,
            final(self).exchange.market_data == old(self).exchange.market_data,
            final(self).exchange.subscriptions == old(self).exchange.subscriptions,
    {
        self.exchange.update()
    }
}

} // verus!
