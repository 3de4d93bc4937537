//! A discrete-time backtesting core: a simulated exchange that replays
//! candles, matches a strategy's orders against them and keeps a cash and
//! position ledger, with typed messages between exchange and strategy.

pub mod candle;
pub mod coin;
pub mod exchange;
pub mod laws;
pub mod ledger;
pub mod matching;
pub mod message;
pub mod order;
pub mod strategy;
