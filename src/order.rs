use vstd::prelude::*;
use crate::coin::Coin;

verus! {

/// Direction and intent of an order.
#[derive(Clone, Copy, Debug, PartialEq, Eq, Structural)]
pub enum OrderType {
    /// Buy to open or increase a long position.
    BTO,
    /// Sell to reduce or close a long position.
    STC,
    /// Sell to open a short position (not supported: always rejected).
    STO,
    /// Buy to close a short position (not supported: always rejected).
    BTC,
}

/// An order waiting in the book. With no limit it is a market order.
#[derive(Clone, Copy, Debug, PartialEq, Eq, Structural)]
pub struct OpenOrder {
    pub order_type: OrderType,
    pub symbol: Coin,
    pub limit: Option<u32>,
    pub quantity: u32,
}

/// The record of one executed order.
#[derive(Clone, Copy, Debug, PartialEq, Eq, Structural)]
pub struct FilledOrder {
    pub order_type: OrderType,
    pub symbol: Coin,
    pub price: u32,
    pub quantity: u32,
}

/// The fill of `order` at `price`.
pub open spec fn fill_of(order: OpenOrder, price: u32) -> FilledOrder {
    FilledOrder {
        order_type: order.order_type,
        symbol: order.symbol,
        price,
        quantity: order.quantity,
    }
}

impl FilledOrder {
    /// Records that `order` executed in full at `price`.
    pub fn new(order: &OpenOrder, price: u32) -> (r: Self)
        ensures
            r == fill_of(*order, price),
    {
        FilledOrder {
            order_type: order.order_type,
            symbol: order.symbol,
            price,
            quantity: order.quantity,
        }
    }
}

} // verus!
