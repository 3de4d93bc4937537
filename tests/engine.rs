use backtest::candle::Candle;
use backtest::coin::Coin;
use backtest::exchange::engine::Exchange;
use backtest::exchange::long_only_btc_candle_exchange::{BuySell, LongOnlyBtcCandleExchange};
use backtest::exchange::Exchange as ExchangeTrait;
use backtest::ledger::Ledger;
use backtest::matching::{match_bto, match_stc, Outcome};
use backtest::message::{ToExchange, ToStrategy};
use backtest::order::{FilledOrder, OpenOrder, OrderType};
use backtest::strategy::do_nothing::DoNothing;
use backtest::strategy::sma_strategy::SmaStrategy;
use backtest::strategy::{process_messages, Strategy};

fn candle(open: u32, high: u32, low: u32, close: u32) -> Candle {
    Candle { open, high, low, close }
}

fn order(order_type: OrderType, symbol: Coin, limit: Option<u32>, quantity: u32) -> OpenOrder {
    OpenOrder { order_type, symbol, limit, quantity }
}

/// An exchange at time 0 whose BTC candle at time 60 is `c`, already advanced.
fn exchange_with_btc(cash: u64, c: Candle) -> Exchange {
    let mut ex = Exchange::new(cash, 0, 600);
    ex.insert_candle(Coin::BTC, 60, c);
    ex.increment_time();
    ex
}

#[test]
fn market_buy_fills_at_open() {
    let c = candle(100, 110, 90, 105);
    let o = order(OrderType::BTO, Coin::BTC, None, 3);
    let s = match_bto(&o, &c, 1000, 0);
    assert_eq!(s.outcome, Outcome::Filled(FilledOrder { order_type: OrderType::BTO, symbol: Coin::BTC, price: 100, quantity: 3 }));
    assert_eq!(s.cash, 700);
    assert_eq!(s.held, 3);
}

#[test]
fn market_buy_price_capped_at_high() {
    // an open above the high is clamped to the high
    let c = candle(120, 110, 90, 105);
    let o = order(OrderType::BTO, Coin::BTC, None, 2);
    let s = match_bto(&o, &c, 1000, 5);
    assert_eq!(s.outcome, Outcome::Filled(FilledOrder { order_type: OrderType::BTO, symbol: Coin::BTC, price: 110, quantity: 2 }));
    assert_eq!(s.cash, 780);
    assert_eq!(s.held, 7);
}

#[test]
fn limit_buy_fills_at_limit() {
    let c = candle(100, 110, 90, 105);
    let o = order(OrderType::BTO, Coin::ETH, Some(95), 4);
    let s = match_bto(&o, &c, 1000, 0);
    assert_eq!(s.outcome, Outcome::Filled(FilledOrder { order_type: OrderType::BTO, symbol: Coin::ETH, price: 95, quantity: 4 }));
    assert_eq!(s.cash, 620);
}

#[test]
fn market_sell_fills_at_open() {
    let c = candle(100, 110, 90, 105);
    let o = order(OrderType::STC, Coin::BTC, None, 3);
    let s = match_stc(&o, &c, 50, 5);
    assert_eq!(s.outcome, Outcome::Filled(FilledOrder { order_type: OrderType::STC, symbol: Coin::BTC, price: 100, quantity: 3 }));
    assert_eq!(s.cash, 350);
    assert_eq!(s.held, 2);
}

#[test]
fn market_sell_price_floored_at_low() {
    let c = candle(80, 110, 90, 105);
    let o = order(OrderType::STC, Coin::BTC, None, 1);
    let s = match_stc(&o, &c, 0, 1);
    assert_eq!(s.outcome, Outcome::Filled(FilledOrder { order_type: OrderType::STC, symbol: Coin::BTC, price: 90, quantity: 1 }));
    assert_eq!(s.cash, 90);
    assert_eq!(s.held, 0);
}

#[test]
fn limit_sell_above_high_stays_open() {
    let c = candle(100, 110, 90, 105);
    let o = order(OrderType::STC, Coin::BTC, Some(111), 1);
    let s = match_stc(&o, &c, 0, 1);
    assert_eq!(s.outcome, Outcome::Open);
    assert_eq!(s.cash, 0);
    assert_eq!(s.held, 1);
}

#[test]
fn buy_without_cash_is_cancelled() {
    let c = candle(100, 110, 90, 105);
    let o = order(OrderType::BTO, Coin::BTC, None, 11);
    let s = match_bto(&o, &c, 1000, 0);
    assert_eq!(s.outcome, Outcome::Removed);
    assert_eq!(s.cash, 1000);
    assert_eq!(s.held, 0);
}

#[test]
fn buy_with_exact_cash_fills() {
    let c = candle(100, 110, 90, 105);
    let o = order(OrderType::BTO, Coin::BTC, None, 10);
    let s = match_bto(&o, &c, 1000, 0);
    assert_eq!(s.cash, 0);
    assert_eq!(s.held, 10);
}

#[test]
fn sell_more_than_held_is_rejected() {
    let c = candle(100, 110, 90, 105);
    let o = order(OrderType::STC, Coin::BTC, None, 3);
    let s = match_stc(&o, &c, 10, 2);
    assert_eq!(s.outcome, Outcome::Removed);
    assert_eq!(s.cash, 10);
    assert_eq!(s.held, 2);
}

#[test]
fn buy_below_low_stays_open_across_ticks() {
    let mut ex = Exchange::new(1000, 0, 600);
    ex.insert_candle(Coin::BTC, 60, candle(100, 110, 90, 105));
    ex.insert_candle(Coin::BTC, 120, candle(100, 110, 90, 105));
    ex.handle_message(ToExchange::Order(order(OrderType::BTO, Coin::BTC, Some(89), 1)));
    for _ in 0..3 {
        let out = ex.update();
        assert!(out.iter().all(|m| !matches!(m, ToStrategy::Fill(_))));
        assert_eq!(ex.open_orders.len(), 1);
        assert_eq!(ex.ledger.cash, 1000);
    }
}

#[test]
fn order_without_candle_stays_open() {
    let mut ex = exchange_with_btc(1000, candle(100, 110, 90, 105));
    ex.handle_message(ToExchange::Order(order(OrderType::BTO, Coin::ETH, None, 1)));
    let fills = ex.attempt_orders();
    assert!(fills.is_empty());
    assert_eq!(ex.open_orders.len(), 1);
    assert_eq!(ex.ledger.cash, 1000);
}

#[test]
fn short_orders_are_removed() {
    let mut ex = exchange_with_btc(1000, candle(100, 110, 90, 105));
    ex.handle_message(ToExchange::Order(order(OrderType::STO, Coin::BTC, None, 1)));
    ex.handle_message(ToExchange::Order(order(OrderType::BTC, Coin::BTC, Some(100), 1)));
    // with no candle at all for the symbol, too
    ex.handle_message(ToExchange::Order(order(OrderType::STO, Coin::ADA, None, 1)));
    let fills = ex.attempt_orders();
    assert!(fills.is_empty());
    assert!(ex.open_orders.is_empty());
    assert_eq!(ex.ledger.cash, 1000);
    assert_eq!(ex.ledger.short_positions[Coin::BTC.index()], 0);
}

#[test]
fn exchange_buy_updates_ledger() {
    let mut ex = exchange_with_btc(1000, candle(100, 110, 90, 105));
    ex.handle_message(ToExchange::Order(order(OrderType::BTO, Coin::BTC, None, 4)));
    let fills = ex.attempt_orders();
    assert_eq!(fills, vec![FilledOrder { order_type: OrderType::BTO, symbol: Coin::BTC, price: 100, quantity: 4 }]);
    assert_eq!(ex.ledger.cash, 600);
    assert_eq!(ex.ledger.long_positions[Coin::BTC.index()], 4);
    assert!(ex.open_orders.is_empty());
}

#[test]
fn orders_share_no_liquidity_but_share_cash() {
    // each order is evaluated alone, in insertion order, against the cash left
    let mut ex = exchange_with_btc(250, candle(100, 110, 90, 105));
    ex.handle_message(ToExchange::Order(order(OrderType::BTO, Coin::BTC, None, 2)));
    ex.handle_message(ToExchange::Order(order(OrderType::BTO, Coin::BTC, None, 1)));
    ex.handle_message(ToExchange::Order(order(OrderType::BTO, Coin::BTC, Some(50), 1)));
    let fills = ex.attempt_orders();
    assert_eq!(fills.len(), 1);
    assert_eq!(ex.ledger.cash, 50);
    assert_eq!(ex.open_orders, vec![order(OrderType::BTO, Coin::BTC, Some(50), 1)]);
}

#[test]
fn nlv_marks_positions_at_close() {
    let mut ex = exchange_with_btc(1000, candle(100, 110, 90, 105));
    ex.handle_message(ToExchange::Order(order(OrderType::BTO, Coin::BTC, None, 4)));
    ex.attempt_orders();
    ex.compute_nlv();
    assert_eq!(ex.ledger.nlv, 600 + 4 * 105);
}

#[test]
fn nlv_of_new_ledger_is_cash() {
    let mut ledger = Ledger::new(1234);
    let candles: Vec<Option<Candle>> = vec![Some(candle(1, 1, 1, 7)); 13];
    ledger.compute_nlv(&candles);
    assert_eq!(ledger.nlv, 1234);
}

#[test]
fn nlv_counts_shorts_negatively() {
    let mut ledger = Ledger::new(1000);
    ledger.long_positions[0] = 2;
    ledger.short_positions[1] = 3;
    let mut candles: Vec<Option<Candle>> = vec![None; 13];
    candles[0] = Some(candle(10, 10, 10, 10));
    candles[1] = Some(candle(20, 20, 20, 20));
    ledger.compute_nlv(&candles);
    assert_eq!(ledger.nlv, 1000 + 2 * 10 - 3 * 20);
}

#[test]
fn nlv_of_largest_positions_fits() {
    let mut ledger = Ledger::new(u64::MAX);
    for i in 0..13 {
        ledger.long_positions[i] = u64::MAX;
    }
    let candles: Vec<Option<Candle>> = vec![Some(candle(0, u32::MAX, 0, u32::MAX)); 13];
    ledger.compute_nlv(&candles);
    assert_eq!(ledger.nlv, u64::MAX as i128 + 13 * (u64::MAX as i128) * (u32::MAX as i128));
}

#[test]
fn round_trip_keeps_cash() {
    let mut ex = Exchange::new(1000, 0, 600);
    let c = candle(100, 110, 90, 100);
    ex.insert_candle(Coin::BTC, 60, c);
    ex.insert_candle(Coin::BTC, 120, c);
    ex.handle_message(ToExchange::Order(order(OrderType::BTO, Coin::BTC, None, 5)));
    ex.update();
    assert_eq!(ex.ledger.cash, 500);
    ex.handle_message(ToExchange::Order(order(OrderType::STC, Coin::BTC, None, 5)));
    ex.update();
    assert_eq!(ex.ledger.cash, 1000);
    assert_eq!(ex.ledger.long_positions[Coin::BTC.index()], 0);
}

#[test]
fn clock_stops_after_span() {
    let mut ex = Exchange::new(0, 600, 600 + 60 * 7);
    let mut ticks = 0;
    while ex.can_update() {
        ex.update();
        ticks += 1;
    }
    assert_eq!(ticks, 7);
    assert_eq!(ex.curr_time, 600 + 60 * 7);
    // an update past the end still advances the clock
    ex.update();
    assert_eq!(ex.curr_time, 600 + 60 * 8);
}

#[test]
fn run_to_end_counts_whole_steps() {
    let mut ex = Exchange::new(0, 0, 600);
    assert_eq!(ex.run_to_end(), 10);
    assert_eq!(ex.curr_time, 600);
    assert!(!ex.can_update());
}

#[test]
fn run_to_end_rounds_partial_step_up() {
    let mut ex = Exchange::new(0, 0, 601);
    assert_eq!(ex.run_to_end(), 11);
    assert_eq!(ex.curr_time, 660);
}

#[test]
fn run_to_end_at_end_does_nothing() {
    let mut ex = Exchange::new(0, 120, 60);
    assert_eq!(ex.run_to_end(), 0);
    assert_eq!(ex.curr_time, 120);
}

#[test]
fn update_at_end_time_still_ticks() {
    let mut ex = LongOnlyBtcCandleExchange::new(0);
    ex.load(0, candle(1, 1, 1, 1));
    ex.load(60, candle(2, 3, 2, 3));
    ex.exchange.end_time = 0;
    ex.handle_message(ToExchange::Subscribe(Coin::BTC));
    assert!(!ex.can_update());
    let out = ex.update();
    assert_eq!(ex.exchange.curr_time, 60);
    assert_eq!(out, vec![ToStrategy::MarketData(Coin::BTC, candle(2, 3, 2, 3))]);
}

#[test]
fn stale_candle_carries_forward() {
    let mut ex = Exchange::new(0, 0, 600);
    ex.insert_candle(Coin::BTC, 60, candle(1, 2, 1, 2));
    ex.increment_time();
    ex.increment_time();
    assert_eq!(ex.current_candles[Coin::BTC.index()], Some(candle(1, 2, 1, 2)));
    assert_eq!(ex.current_candles[Coin::ETH.index()], None);
}

#[test]
fn market_data_only_for_subscribed_new_candles() {
    let mut ex = Exchange::new(0, 0, 600);
    ex.insert_candle(Coin::BTC, 60, candle(1, 2, 1, 2));
    ex.insert_candle(Coin::ETH, 60, candle(3, 4, 3, 4));
    ex.insert_candle(Coin::ADA, 60, candle(5, 6, 5, 6));
    ex.process_messages(&vec![ToExchange::Subscribe(Coin::ETH), ToExchange::Subscribe(Coin::BTC)]);
    let out = ex.update();
    assert_eq!(out, vec![
        ToStrategy::MarketData(Coin::BTC, candle(1, 2, 1, 2)),
        ToStrategy::MarketData(Coin::ETH, candle(3, 4, 3, 4)),
    ]);
    // no new candle at 120: nothing is sent
    let out = ex.update();
    assert!(out.is_empty());
}

#[test]
fn add_subscription_marks_coins() {
    let mut ex = Exchange::new(0, 0, 60);
    ex.add_subscription(&[Coin::XRP, Coin::ZEC]);
    assert!(ex.subscriptions[Coin::XRP.index()]);
    assert!(ex.subscriptions[Coin::ZEC.index()]);
    assert!(!ex.subscriptions[Coin::ADA.index()]);
}

#[test]
fn n_orders_give_each_fill_once() {
    let mut ex = Exchange::new(10_000, 0, 600);
    ex.insert_candle(Coin::BTC, 60, candle(100, 110, 90, 105));
    ex.insert_candle(Coin::BTC, 120, candle(100, 110, 90, 105));
    let mut msgs = Vec::new();
    for i in 0..10u32 {
        // even: market buys that fill; odd: limit buys below the low
        let limit = if i % 2 == 0 { None } else { Some(80) };
        msgs.push(ToExchange::Order(order(OrderType::BTO, Coin::BTC, limit, 1)));
    }
    ex.process_messages(&msgs);
    assert_eq!(ex.open_orders.len(), 10);
    let first = ex.update();
    let second = ex.update();
    let fills = |v: &Vec<ToStrategy>| v.iter().filter(|m| matches!(m, ToStrategy::Fill(_))).count();
    assert_eq!(fills(&first), 5);
    assert_eq!(fills(&second), 0);
    assert_eq!(ex.open_orders.len(), 5);
    assert_eq!(ex.ledger.cash, 10_000 - 500);
}

#[test]
fn coin_index_round_trips() {
    for i in 0..13usize {
        assert_eq!(Coin::from_index(i).index(), i);
    }
    assert_eq!(Coin::BTC.index(), 3);
}

#[test]
fn long_only_exchange_replays_loaded_span() {
    let mut ex = LongOnlyBtcCandleExchange::new(1000);
    ex.load(180, candle(100, 110, 90, 105));
    ex.load(60, candle(100, 110, 90, 105));
    ex.load(120, candle(100, 110, 90, 105));
    assert_eq!(ex.exchange.curr_time, 60);
    assert_eq!(ex.exchange.end_time, 180);
    let mut strategy = SmaStrategy { last_close: None };
    let first = strategy.init();
    ex.process_messages(&first);
    ex.handle_message(ToExchange::Order(BuySell::Buy.order(2, None)));
    let mut ticks = 0;
    while ex.can_update() {
        let out = ex.update();
        process_messages(&mut strategy, &out);
        ticks += 1;
    }
    assert_eq!(ticks, 2);
    assert_eq!(strategy.last_close, Some(105));
    assert_eq!(ex.exchange.ledger.cash, 800);
    assert!(strategy.compute().is_empty());
}

#[test]
fn long_only_attempt_orders_sells() {
    let mut ex = LongOnlyBtcCandleExchange::new(0);
    ex.load(60, candle(1, 1, 1, 1));
    ex.load(120, candle(100, 110, 90, 105));
    ex.exchange.ledger.long_positions[Coin::BTC.index()] = 3;
    ex.exchange.increment_time();
    ex.handle_message(ToExchange::Order(BuySell::Sell.order(2, Some(95))));
    let fills = ex.attempt_orders();
    assert_eq!(fills, vec![FilledOrder { order_type: OrderType::STC, symbol: Coin::BTC, price: 95, quantity: 2 }]);
    assert_eq!(ex.exchange.ledger.cash, 190);
}

#[test]
fn do_nothing_sends_nothing() {
    let mut s = DoNothing {};
    assert!(s.init().is_empty());
    s.handle_message(ToStrategy::MarketData(Coin::BTC, candle(1, 1, 1, 1)));
    assert!(s.compute().is_empty());
}

#[test]
fn long_only_ticks_once_per_step_of_span() {
    let mut ex = LongOnlyBtcCandleExchange::new(1000);
    ex.load(0, candle(1, 1, 1, 1));
    ex.load(600, candle(1, 1, 1, 1));
    for k in 0..10 {
        assert!(ex.can_update(), "tick {}", k);
        ex.update();
    }
    assert!(!ex.can_update());
    assert_eq!(ex.exchange.curr_time, 600);
}

#[test]
fn long_only_new_is_empty() {
    let ex = LongOnlyBtcCandleExchange::new(1000);
    assert!(!ex.can_update());
    assert!(ex.exchange.subscriptions.iter().all(|s| !*s));
    assert!(ex.exchange.current_candles.iter().all(|c| c.is_none()));
    assert!(ex.exchange.ledger.short_positions.iter().all(|q| *q == 0));
    assert!(ex.exchange.open_orders.is_empty());
}

#[test]
fn sma_strategy_subscribes_to_btc_and_tracks_close() {
    let mut s = SmaStrategy { last_close: None };
    assert_eq!(s.init(), vec![ToExchange::Subscribe(Coin::BTC)]);
    process_messages(&mut s, &vec![
        ToStrategy::MarketData(Coin::BTC, candle(1, 9, 1, 7)),
        ToStrategy::MarketData(Coin::ETH, candle(1, 9, 1, 3)),
    ]);
    assert_eq!(s.last_close, Some(7));
}
