use vstd::prelude::*;
use std::collections::HashMap;
use crate::candle::Candle;
use crate::coin::{coin_at, coin_index, Coin, NUM_COINS};
use crate::ledger::{nlv_of, Ledger};
use crate::matching::{bto_step, match_bto, match_stc, stc_step, Outcome};
use crate::message::{ToExchange, ToStrategy};
use crate::order::{FilledOrder, OpenOrder, OrderType};

verus! {

broadcast use vstd::std_specs::hash::group_hash_axioms;

/// Seconds that the clock advances per tick.
pub const STEP: u64 = 60;

/// Key of the candle of coin number `i` at time `t` in the candle table.
pub open spec fn market_key(i: int, t: int) -> int {
    i * 0x1_0000_0000 + t
}

/// The candle of coin number `i` at time `t`, if the table has one.
pub open spec fn candle_at(data: Map<u64, Candle>, i: int, t: int) -> Option<Candle> {
    if t <= u32::MAX && data.contains_key(market_key(i, t) as u64) {
        Some(data[market_key(i, t) as u64])
    } else {
        None
    }
}

/// Current candles after moving to time `t`: a coin with data at `t` takes
/// the new candle, any other keeps its previous one.
pub open spec fn advanced(prev: Seq<Option<Candle>>, data: Map<u64, Candle>, t: int) -> Seq<
    Option<Candle>,
> {
    Seq::new(
        prev.len(),
        |i: int|
            match candle_at(data, i, t) {
                Some(c) => Some(c),
                None => prev[i],
            },
    )
}

/// One order's attempt against the current candles and the ledger's cash and
/// long positions: the outcome, the new cash and the new long positions.
///
/// Short orders are always rejected. A long order with no current candle for
/// its symbol stays open.
pub open spec fn order_step(
    order: OpenOrder,
    candles: Seq<Option<Candle>>,
    cash: u64,
    long: Seq<u64>,
) -> (Outcome, u64, Seq<u64>) {
    let i = coin_index(order.symbol) as int;
    match order.order_type {
        OrderType::BTO => match candles[i] {
            Some(c) => {
                let s = bto_step(order, c, cash, long[i]);
                (s.outcome, s.cash, long.update(i, s.held))
            },
            None => (Outcome::Open, cash, long),
        },
        OrderType::STC => match candles[i] {
            Some(c) => {
                let s = stc_step(order, c, cash, long[i]);
                (s.outcome, s.cash, long.update(i, s.held))
            },
            None => (Outcome::Open, cash, long),
        },
        _ => (Outcome::Removed, cash, long),
    }
}

/// One pass over the book in insertion order: the orders left open, the
/// fills, and the cash and long positions after all of them.
pub open spec fn match_orders(
    orders: Seq<OpenOrder>,
    candles: Seq<Option<Candle>>,
    cash: u64,
    long: Seq<u64>,
) -> (Seq<OpenOrder>, Seq<FilledOrder>, u64, Seq<u64>)
    decreases orders.len(),
{
    if orders.len() == 0 {
        (Seq::empty(), Seq::empty(), cash, long)
    } else {
        let prev = match_orders(orders.drop_last(), candles, cash, long);
        let step = order_step(orders.last(), candles, prev.2, prev.3);
        match step.0 {
            Outcome::Filled(f) => (prev.0, prev.1.push(f), step.1, step.2),
            Outcome::Open => (prev.0.push(orders.last()), prev.1, step.1, step.2),
            Outcome::Removed => (prev.0, prev.1, step.1, step.2),
        }
    }
}

/// The orders among `msgs`, in the order they came.
pub open spec fn orders_in(msgs: Seq<ToExchange>) -> Seq<OpenOrder>
    decreases msgs.len(),
{
    if msgs.len() == 0 {
        Seq::empty()
    } else {
        match msgs.last() {
            ToExchange::Order(o) => orders_in(msgs.drop_last()).push(o),
            ToExchange::Subscribe(_) => orders_in(msgs.drop_last()),
        }
    }
}

/// Whether `msg` subscribes to coin number `i`.
pub open spec fn subscribes_to(msg: ToExchange, i: int) -> bool {
    match msg {
        ToExchange::Subscribe(c) => coin_index(c) == i,
        ToExchange::Order(_) => false,
    }
}

/// Whether one of `msgs` subscribes to coin number `i`.
pub open spec fn subscribes(msgs: Seq<ToExchange>, i: int) -> bool {
    exists|k: int| 0 <= k < msgs.len() && subscribes_to(#[trigger] msgs[k], i)
}

/// Market data sent at time `t` for the first `n` coins: the new candle of
/// each subscribed coin that has one at `t`, in universe order.
pub open spec fn market_messages(subs: Seq<bool>, data: Map<u64, Candle>, t: int, n: nat) -> Seq<
    ToStrategy,
>
    decreases n,
{
    if n == 0 {
        Seq::empty()
    } else {
        let prev = market_messages(subs, data, t, (n - 1) as nat);
        let i = n - 1;
        match candle_at(data, i, t) {
            Some(c) => if subs[i] {
                prev.push(ToStrategy::MarketData(coin_at(i), c))
            } else {
                prev
            },
            None => prev,
        }
    }
}

/// The fill messages for `fills`, in order.
pub open spec fn fill_messages(fills: Seq<FilledOrder>) -> Seq<ToStrategy> {
    fills.map_values(|f: FilledOrder| ToStrategy::Fill(f))
}

/// A simulated exchange over a table of candles for the whole universe.
pub struct Exchange {
    /// Latest candle seen per coin, indexed by `Coin::index`.
    pub current_candles: Vec<Option<Candle>>,
    /// The book, in insertion order.
    pub open_orders: Vec<OpenOrder>,
    pub ledger: Ledger,
    pub curr_time: u64,
    pub end_time: u64,
    /// Candle table, keyed by coin index times 2^32 plus the timestamp.
    pub market_data: HashMap<u64, Candle>,
    /// Whether the strategy subscribed to each coin.
    pub subscriptions: Vec<bool>,
}

impl Exchange {
    /// Per-coin tables cover the universe.
    pub open spec fn wf(&self) -> bool {
        &&& self.current_candles.len() == NUM_COINS
        &&& self.subscriptions.len() == NUM_COINS
        &&& self.ledger.wf()
        &&& self.end_time <= u32::MAX
    }

    /// An exchange at `start_time` with `start_cash`, no positions, no orders,
    /// no subscriptions and an empty candle table.
    pub fn new(start_cash: u64, start_time: u32, end_time: u32) -> (r: Self)
        ensures
            r.wf(),
            r.ledger.cash == start_cash,
            r.ledger.nlv == start_cash,
            forall|i: int| 0 <= i < NUM_COINS ==> r.ledger.long_positions@[i] == 0,
            forall|i: int| 0 <= i < NUM_COINS ==> r.ledger.short_positions@[i] == 0,
            forall|i: int| 0 <= i < NUM_COINS ==> r.current_candles@[i].is_none(),
            forall|i: int| 0 <= i < NUM_COINS ==> !r.subscriptions@[i],
            r.open_orders@.len() == 0,
            r.curr_time == start_time,
            r.end_time == end_time,
            r.market_data@ == Map::<u64, Candle>::empty(),
    {
        let mut current_candles: Vec<Option<Candle>> = Vec::new();
        let mut subscriptions: Vec<bool> = Vec::new();
        let mut i: usize = 0;
        while i < NUM_COINS
            invariant
                i <= NUM_COINS,
                current_candles.len() == i,
                subscriptions.len() == i,
                forall|j: int| 0 <= j < i ==> current_candles@[j].is_none(),
                forall|j: int| 0 <= j < i ==> !subscriptions@[j],
            decreases NUM_COINS - i,
        {
            current_candles.push(None);
            subscriptions.push(false);
            i = i + 1;
        }
        Exchange {
            current_candles,
            open_orders: Vec::new(),
            ledger: Ledger::new(start_cash),
            curr_time: start_time as u64,
            end_time: end_time as u64,
            market_data: HashMap::new(),
            subscriptions,
        }
    }

    /// Puts `candle` in the table as the candle of `coin` at `time`.
    pub fn insert_candle(&mut self, coin: Coin, time: u32, candle: Candle)
        ensures
            final(self).market_data@ == old(self).market_data@.insert(
                market_key(coin_index(coin) as int, time as int) as u64,
                candle,
            ),
            final(self).current_candles == old(self).current_candles,
            final(self).open_orders == old(self).open_orders,
            final(self).ledger == old(self).ledger,
            final(self).curr_time == old(self).curr_time,
            final(self).end_time == old(self).end_time,
            final(self).subscriptions == old(self).subscriptions,
    {
        let key: u64 = coin.index() as u64 * 0x1_0000_0000 + time as u64;
        self.market_data.insert(key, candle);
    }

    /// Marks each of `coins` as subscribed.
    pub fn add_subscription(&mut self, coins: &[Coin])
        requires
            old(self).wf(),
        ensures
            final(self).wf(),
            final(self).subscriptions@.len() == NUM_COINS,
            forall|i: int|
                0 <= i < NUM_COINS ==> (final(self).subscriptions@[i] <==> (old(
                    self,
                ).subscriptions@[i] || exists|k: int|
                    0 <= k < coins@.len() && coin_index(#[trigger] coins@[k]) == i)),
            final(self).current_candles == old(self).current_candles,
            final(self).open_orders == old(self).open_orders,
            final(self).ledger == old(self).ledger,
            final(self).curr_time == old(self).curr_time,
            final(self).end_time == old(self).end_time,
            final(self).market_data == old(self).market_data,
    {
        let mut k: usize = 0;
        while k < coins.len()
            invariant
                k <= coins@.len(),
                self.wf(),
                forall|i: int|
                    0 <= i < NUM_COINS ==> (self.subscriptions@[i] <==> (old(
                        self,
                    ).subscriptions@[i] || exists|m: int|
                        0 <= m < k && coin_index(#[trigger] coins@[m]) == i)),
                self.current_candles == old(self).current_candles,
                self.open_orders == old(self).open_orders,
                self.ledger == old(self).ledger,
                self.curr_time == old(self).curr_time,
                self.end_time == old(self).end_time,
                self.market_data == old(self).market_data,
            decreases coins@.len() - k,
        {
            let i = coins[k].index();
            self.subscriptions.set(i, true);
            proof {
                assert(coin_index(coins@[k as int]) == i);
            }
            k = k + 1;
        }
    }

    /// Whether the clock has not yet reached the end time.
    pub fn can_update(&self) -> (r: bool)
        ensures
            r == (self.curr_time < self.end_time),
    {
        self.curr_time < self.end_time
    }

    /// Advances the clock one step and takes the new candle of every coin that
    /// has one at the new time; the others keep their previous candle.
    pub fn increment_time(&mut self)
        requires
            old(self).wf(),
            old(self).curr_time <= u64::MAX - STEP,
        ensures
            final(self).wf(),
            final(self).curr_time == old(self).curr_time + STEP,
            final(self).current_candles@ == advanced(
                old(self).current_candles@,
                old(self).market_data@,
                final(self).curr_time as int,
            ),
            final(self).open_orders == old(self).open_orders,
            final(self).ledger == old(self).ledger,
            final(self).end_time == old(self).end_time,
            final(self).market_data == old(self).market_data,
            final(self).subscriptions == old(self).subscriptions,
    {
        self.curr_time = self.curr_time + STEP;
        let t = self.curr_time;
        let ghost prev = self.current_candles@;
        let mut i: usize = 0;
        while i < NUM_COINS
            invariant
                i <= NUM_COINS,
                self.wf(),
                self.curr_time == t,
                self.curr_time == old(self).curr_time + STEP,
                prev == old(self).current_candles@,
                prev.len() == NUM_COINS,
                forall|j: int|
                    0 <= j < i ==> self.current_candles@[j] == advanced(
                        prev,
                        self.market_data@,
                        t as int,
                    )[j],
                forall|j: int| i <= j < NUM_COINS ==> self.current_candles@[j] == prev[j],
                self.open_orders == old(self).open_orders,
                self.ledger == old(self).ledger,
                self.end_time == old(self).end_time,
                self.market_data == old(self).market_data,
                self.subscriptions == old(self).subscriptions,
            decreases NUM_COINS - i,
        {
            if t <= u32::MAX as u64 {
                let key: u64 = i as u64 * 0x1_0000_0000 + t;
                assert(key == market_key(i as int, t as int));
                match self.market_data.get(&key) {
                    Some(c) => {
                        let c = *c;
                        self.current_candles.set(i, Some(c));
                    },
                    None => {},
                }
            }
            i = i + 1;
        }
        assert(self.current_candles@ =~= advanced(prev, self.market_data@, t as int));
    }

    /// Leaves everything but the cash and the long positions as it was.
    pub open spec fn keeps_all_but_cash_and_longs(&self, other: &Self) -> bool {
        &&& self.current_candles == other.current_candles
        &&& self.ledger.short_positions == other.ledger.short_positions
        &&& self.ledger.nlv == other.ledger.nlv
        &&& self.curr_time == other.curr_time
        &&& self.end_time == other.end_time
        &&& self.market_data == other.market_data
        &&& self.subscriptions == other.subscriptions
    }

    fn attempt_long(&mut self, order: &OpenOrder) -> (r: Outcome)
        requires
            old(self).wf(),
            order.order_type == OrderType::BTO || order.order_type == OrderType::STC,
        ensures
            final(self).wf(),
            (r, final(self).ledger.cash, final(self).ledger.long_positions@) == order_step(
                *order,
                old(self).current_candles@,
                old(self).ledger.cash,
                old(self).ledger.long_positions@,
            ),
            final(self).keeps_all_but_cash_and_longs(old(self)),
            final(self).open_orders == old(self).open_orders,
    {
        let i = order.symbol.index();
        match self.current_candles[i] {
            None => Outcome::Open,
            Some(candle) => {
                let held = self.ledger.long_positions[i];
                let s = if order.order_type == OrderType::BTO {
                    match_bto(order, &candle, self.ledger.cash, held)
                } else {
                    match_stc(order, &candle, self.ledger.cash, held)
                };
                self.ledger.cash = s.cash;
                self.ledger.long_positions.set(i, s.held);
                s.outcome
            },
        }
    }

    /// Attempts a buy to open against the current candle of its symbol.
    fn attempt_bto(&mut self, order: &OpenOrder) -> (r: Outcome)
        requires
            old(self).wf(),
            order.order_type == OrderType::BTO,
        ensures
            final(self).wf(),
            (r, final(self).ledger.cash, final(self).ledger.long_positions@) == order_step(
                *order,
                old(self).current_candles@,
                old(self).ledger.cash,
                old(self).ledger.long_positions@,
            ),
            final(self).keeps_all_but_cash_and_longs(old(self)),
            final(self).open_orders == old(self).open_orders,
    {
        self.attempt_long(order)
    }

    /// Attempts a sell to close against the current candle of its symbol.
    fn attempt_stc(&mut self, order: &OpenOrder) -> (r: Outcome)
        requires
            old(self).wf(),
            order.order_type == OrderType::STC,
        ensures
            final(self).wf(),
            (r, final(self).ledger.cash, final(self).ledger.long_positions@) == order_step(
                *order,
                old(self).current_candles@,
                old(self).ledger.cash,
                old(self).ledger.long_positions@,
            ),
            final(self).keeps_all_but_cash_and_longs(old(self)),
            final(self).open_orders == old(self).open_orders,
    {
        self.attempt_long(order)
    }

    /// Short selling is not supported: the order is rejected.
    fn attempt_sto(&self, order: &OpenOrder) -> (r: Outcome)
        ensures
            r == Outcome::Removed,
    {
        Outcome::Removed
    }

    /// Covering shorts is not supported: the order is rejected.
    fn attempt_btc(&self, order: &OpenOrder) -> (r: Outcome)
        ensures
            r == Outcome::Removed,
    {
        Outcome::Removed
    }

    /// Runs the book once against the current candles, in insertion order.
    /// Orders that stay open form the new book; the fills are returned.
    pub fn attempt_orders(&mut self) -> (r: Vec<FilledOrder>)
        requires
            old(self).wf(),
        ensures
            final(self).wf(),
            ({
                let res = match_orders(
                    old(self).open_orders@,
                    old(self).current_candles@,
                    old(self).ledger.cash,
                    old(self).ledger.long_positions@,
                );
                &&& final(self).open_orders@ == res.0
                &&& r@ == res.1
                &&& final(self).ledger.cash == res.2
                &&& final(self).ledger.long_positions@ == res.3
            }),
            final(self).keeps_all_but_cash_and_longs(old(self)),
    {
        let orders = self.open_orders.clone();
        let ghost orders0 = self.open_orders@;
        let ghost start = *self;
        let mut new_open_orders: Vec<OpenOrder> = Vec::new();
        let mut filled_orders: Vec<FilledOrder> = Vec::new();
        let mut k: usize = 0;
        while k < orders.len()
            invariant
                k <= orders@.len(),
                orders@ == orders0,
                self.wf(),
                self.keeps_all_but_cash_and_longs(&start),
                start.wf(),
                ({
                    let res = match_orders(
                        orders0.subrange(0, k as int),
                        start.current_candles@,
                        start.ledger.cash,
                        start.ledger.long_positions@,
                    );
                    &&& new_open_orders@ == res.0
                    &&& filled_orders@ == res.1
                    &&& self.ledger.cash == res.2
                    &&& self.ledger.long_positions@ == res.3
                }),
            decreases orders@.len() - k,
        {
            let order = orders[k];
            proof {
                assert(orders0.subrange(0, k + 1).drop_last() =~= orders0.subrange(0, k as int));
                assert(orders0.subrange(0, k + 1).last() == order);
            }
            let outcome = match order.order_type {
                OrderType::BTO => self.attempt_bto(&order),
                OrderType::STC => self.attempt_stc(&order),
                OrderType::STO => self.attempt_sto(&order),
                OrderType::BTC => self.attempt_btc(&order),
            };
            match outcome {
                Outcome::Filled(fill) => filled_orders.push(fill),
                Outcome::Open => new_open_orders.push(order),
                Outcome::Removed => {},
            }
            k = k + 1;
        }
        assert(orders0.subrange(0, orders0.len() as int) =~= orders0);
        self.open_orders = new_open_orders;
        filled_orders
    }

    /// Recomputes the ledger's net liquidation value at the current closes.
    pub fn compute_nlv(&mut self)
        requires
            old(self).wf(),
        ensures
            final(self).wf(),
            final(self).ledger.nlv == nlv_of(
                old(self).ledger.cash,
                old(self).ledger.long_positions@,
                old(self).ledger.short_positions@,
                old(self).current_candles@,
            ),
            final(self).ledger.cash == old(self).ledger.cash,
            final(self).ledger.long_positions == old(self).ledger.long_positions,
            final(self).ledger.short_positions == old(self).ledger.short_positions,
            final(self).current_candles == old(self).current_candles,
            final(self).open_orders == old(self).open_orders,
            final(self).curr_time == old(self).curr_time,
            final(self).end_time == old(self).end_time,
            final(self).market_data == old(self).market_data,
            final(self).subscriptions == old(self).subscriptions,
    {
        self.ledger.compute_nlv(&self.current_candles);
    }

    /// Applies one message: a subscription marks its coin, an order joins
    /// the end of the book.
    pub fn handle_message(&mut self, msg: ToExchange)
        requires
            old(self).wf(),
        ensures
            final(self).wf(),
            match msg {
                ToExchange::Subscribe(c) => {
                    &&& final(self).subscriptions@ == old(self).subscriptions@.update(
                        coin_index(c) as int,
                        true,
                    )
                    &&& final(self).open_orders == old(self).open_orders
                },
                ToExchange::Order(o) => {
                    &&& final(self).subscriptions == old(self).subscriptions
                    &&& final(self).open_orders@ == old(self).open_orders@.push(o)
                },
            },
            final(self).current_candles == old(self).current_candles,
            final(self).ledger == old(self).ledger,
            final(self).curr_time == old(self).curr_time,
            final(self).end_time == old(self).end_time,
            final(self).market_data == old(self).market_data,
    {
        match msg {
            ToExchange::Subscribe(c) => {
                self.subscriptions.set(c.index(), true);
            },
            ToExchange::Order(o) => {
                self.open_orders.push(o);
            },
        }
    }

    /// Applies every message of `msgs` in order.
    pub fn process_messages(&mut self, msgs: &Vec<ToExchange>)
        requires
            old(self).wf(),
        ensures
            final(self).wf(),
            final(self).open_orders@ == old(self).open_orders@ + orders_in(msgs@),
            forall|i: int|
                0 <= i < NUM_COINS ==> (#[trigger] final(self).subscriptions@[i] <==> (old(
                    self,
                ).subscriptions@[i] || subscribes(msgs@, i))),
            final(self).current_candles == old(self).current_candles,
            final(self).ledger == old(self).ledger,
            final(self).curr_time == old(self).curr_time,
            final(self).end_time == old(self).end_time,
            final(self).market_data == old(self).market_data,
    {
        let mut k: usize = 0;
        while k < msgs.len()
            invariant
                k <= msgs@.len(),
                self.wf(),
                self.open_orders@ == old(self).open_orders@ + orders_in(msgs@.subrange(0, k as int)),
                forall|i: int|
                    0 <= i < NUM_COINS ==> (self.subscriptions@[i] <==> (old(
                        self,
                    ).subscriptions@[i] || subscribes(msgs@.subrange(0, k as int), i))),
                self.current_candles == old(self).current_candles,
                self.ledger == old(self).ledger,
                self.curr_time == old(self).curr_time,
                self.end_time == old(self).end_time,
                self.market_data == old(self).market_data,
            decreases msgs@.len() - k,
        {
            let msg = msgs[k];
            let ghost pre = msgs@.subrange(0, k as int);
            let ghost post = msgs@.subrange(0, k + 1);
            proof {
                assert(post.drop_last() =~= pre);
                assert(post.last() == msg);
                assert forall|i: int|
                    subscribes(post, i) <==> (subscribes(pre, i) || subscribes_to(msg, i)) by {
                    if subscribes(post, i) {
                        let j = choose|j: int| 0 <= j < post.len() && subscribes_to(#[trigger] post[j], i);
                        if j < k {
                            assert(pre[j] == post[j]);
                        }
                    }
                    if subscribes(pre, i) {
                        let j = choose|j: int| 0 <= j < pre.len() && subscribes_to(#[trigger] pre[j], i);
                        assert(post[j] == pre[j]);
                    }
                    if subscribes_to(msg, i) {
                        assert(post[k as int] == msg);
                    }
                }
            }
            self.handle_message(msg);
            k = k + 1;
            proof {
                assert(self.open_orders@ =~= old(self).open_orders@ + orders_in(post));
            }
        }
        assert(msgs@.subrange(0, msgs@.len() as int) =~= msgs@);
    }

    /// The new candle at the current time of each subscribed coin that has
    /// one, in universe order.
    pub fn send_market_data(&self) -> (r: Vec<ToStrategy>)
        requires
            self.wf(),
        ensures
            r@ == market_messages(
                self.subscriptions@,
                self.market_data@,
                self.curr_time as int,
                NUM_COINS as nat,
            ),
    {
        let t = self.curr_time;
        let mut out: Vec<ToStrategy> = Vec::new();
        let mut i: usize = 0;
        while i < NUM_COINS
            invariant
                i <= NUM_COINS,
                self.wf(),
                t == self.curr_time,
                out@ == market_messages(self.subscriptions@, self.market_data@, t as int, i as nat),
            decreases NUM_COINS - i,
        {
            if t <= u32::MAX as u64 && self.subscriptions[i] {
                let key: u64 = i as u64 * 0x1_0000_0000 + t;
                assert(key == market_key(i as int, t as int));
                match self.market_data.get(&key) {
                    Some(c) => {
                        out.push(ToStrategy::MarketData(Coin::from_index(i), *c));
                    },
                    None => {},
                }
            }
            i = i + 1;
            assert(out@ =~= market_messages(self.subscriptions@, self.market_data@, t as int, i as nat));
        }
        out
    }

    /// Moves the book to the next tick: advances the clock, runs the book
    /// against the new candles, recomputes the net liquidation value, and
    /// returns the fills followed by the new candles of the subscribed coins.
    pub fn update(&mut self) -> (r: Vec<ToStrategy>)
        requires
            old(self).wf(),
            old(self).curr_time <= u64::MAX - STEP,
        ensures
            final(self).wf(),
            ({
                let t = old(self).curr_time + STEP;
                let candles = advanced(old(self).current_candles@, old(self).market_data@, t);
                let res = match_orders(
                    old(self).open_orders@,
                    candles,
                    old(self).ledger.cash,
                    old(self).ledger.long_positions@,
                );
                &&& final(self).curr_time == t
                &&& final(self).current_candles@ == candles
                &&& final(self).open_orders@ == res.0
                &&& final(self).ledger.cash == res.2
                &&& final(self).ledger.long_positions@ == res.3
                &&& final(self).ledger.short_positions == old(self).ledger.short_positions
                &&& final(self).ledger.nlv == nlv_of(
                    res.2,
                    res.3,
                    old(self).ledger.short_positions@,
                    candles,
                )
                &&& r@ == fill_messages(res.1) + market_messages(
                    old(self).subscriptions@,
                    old(self).market_data@,
                    t,
                    NUM_COINS as nat,
                )
            }),
            final(self).end_time == old(self).end_time,
            final(self).market_data == old(self).market_data,
            final(self).subscriptions == old(self).subscriptions,
    {
        self.increment_time();
        let fills = self.attempt_orders();
        self.compute_nlv();
        let mut out: Vec<ToStrategy> = Vec::new();
        let mut k: usize = 0;
        while k < fills.len()
            invariant
                k <= fills@.len(),
                out@ == fill_messages(fills@.subrange(0, k as int)),
            decreases fills@.len() - k,
        {
            out.push(ToStrategy::Fill(fills[k]));
            k = k + 1;
            assert(out@ =~= fill_messages(fills@.subrange(0, k as int)));
        }
        assert(fills@.subrange(0, fills@.len() as int) =~= fills@);
        let mut market = self.send_market_data();
        out.append(&mut market);
        out
    }

    /// Replays the rest of the span with no strategy attached: ticks while
    /// the clock is before the end time, and returns how many ticks it took.
    /// That is the number of steps that reach the end time, exactly
    /// `(end - start) / STEP` when the span is a whole number of steps.
    pub fn run_to_end(&mut self) -> (ticks: u64)
        requires
            old(self).wf(),
        ensures
            final(self).wf(),
            final(self).end_time == old(self).end_time,
            final(self).curr_time == old(self).curr_time + STEP * ticks,
            old(self).curr_time >= old(self).end_time ==> ticks == 0,
            old(self).curr_time < old(self).end_time ==> ticks > 0 && old(self).curr_time + STEP * (
            ticks - 1) < old(self).end_time <= final(self).curr_time,
            old(self).curr_time <= old(self).end_time && (old(self).end_time - old(self).curr_time)
                % (STEP as int) == 0 ==> ticks == (old(self).end_time - old(self).curr_time) / (
            STEP as int),
            final(self).curr_time >= final(self).end_time,
    {
        let ghost start = self.curr_time as int;
        let ghost end = self.end_time as int;
        let mut ticks: u64 = 0;
        while self.can_update()
            invariant
                self.wf(),
                self.end_time == end,
                start == old(self).curr_time,
                end == old(self).end_time,
                self.curr_time == start + STEP * ticks,
                ticks > 0 ==> start + STEP * (ticks - 1) < end,
            decreases end + STEP - self.curr_time,
        {
            proof {
                assert(ticks < 0x1_0000_0000) by (nonlinear_arith)
                    requires
                        start + 60 * ticks < end,
                        end <= 0xffff_ffff,
                        start >= 0,
                ;
            }
            self.update();
            ticks = ticks + 1;
        }
        proof {
            if start <= end && (end - start) % 60 == 0 {
                let m = (end - start) / 60;
                if start < end {
                    assert(ticks == m) by (nonlinear_arith)
                        requires
                            start + 60 * (ticks - 1) < end,
                            end <= start + 60 * ticks,
                            end - start == 60 * m,
                    ;
                }
            }
        }
        ticks
    }
}

} // verus!
