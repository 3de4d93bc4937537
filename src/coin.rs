use vstd::prelude::*;

verus! {

/// The fixed universe of tradable instruments.
#[derive(Clone, Copy, Debug, PartialEq, Eq, Structural, Hash)]
pub enum Coin {
    ADA,
    BCH,
    BNB,
    BTC,
    DASH,
    EOS,
    ETH,
    LTC,
    NEO,
    TRX,
    XRP,
    XTZ,
    ZEC,
}

/// Number of instruments in the universe.
pub const NUM_COINS: usize = 13;

/// Position of a coin in the universe's fixed order.
pub open spec fn coin_index(c: Coin) -> nat {
    match c {
        Coin::ADA => 0,
        Coin::BCH => 1,
        Coin::BNB => 2,
        Coin::BTC => 3,
        Coin::DASH => 4,
        Coin::EOS => 5,
        Coin::ETH => 6,
        Coin::LTC => 7,
        Coin::NEO => 8,
        Coin::TRX => 9,
        Coin::XRP => 10,
        Coin::XTZ => 11,
        Coin::ZEC => 12,
    }
}

/// The coin at position `i` of the universe (the last one past the end).
pub open spec fn coin_at(i: int) -> Coin {
    if i == 0 {
        Coin::ADA
    } else if i == 1 {
        Coin::BCH
    } else if i == 2 {
        Coin::BNB
    } else if i == 3 {
        Coin::BTC
    } else if i == 4 {
        Coin::DASH
    } else if i == 5 {
        Coin::EOS
    } else if i == 6 {
        Coin::ETH
    } else if i == 7 {
        Coin::LTC
    } else if i == 8 {
        Coin::NEO
    } else if i == 9 {
        Coin::TRX
    } else if i == 10 {
        Coin::XRP
    } else if i == 11 {
        Coin::XTZ
    } else {
        Coin::ZEC
    }
}

impl Coin {
    /// The coin at position `i` of the universe.
    pub fn from_index(i: usize) -> (r: Coin)
        requires
            i < NUM_COINS,
        ensures
            r == coin_at(i as int),
            coin_index(r) == i,
    {
        if i == 0 {
            Coin::ADA
        } else if i == 1 {
            Coin::BCH
        } else if i == 2 {
            Coin::BNB
        } else if i == 3 {
            Coin::BTC
        } else if i == 4 {
            Coin::DASH
        } else if i == 5 {
            Coin::EOS
        } else if i == 6 {
            Coin::ETH
        } else if i == 7 {
            Coin::LTC
        } else if i == 8 {
            Coin::NEO
        } else if i == 9 {
            Coin::TRX
        } else if i == 10 {
            Coin::XRP
        } else if i == 11 {
            Coin::XTZ
        } else {
            Coin::ZEC
        }
    }

    /// The coin's position in the universe, used to index per-coin tables.
    pub fn index(&self) -> (r: usize)
        ensures
            r == coin_index(*self),
            r < NUM_COINS,
    {
        match self {
            Coin::ADA => 0,
            Coin::BCH => 1,
            Coin::BNB => 2,
            Coin::BTC => 3,
            Coin::DASH => 4,
            Coin::EOS => 5,
            Coin::ETH => 6,
            Coin::LTC => 7,
            Coin::NEO => 8,
            Coin::TRX => 9,
            Coin::XRP => 10,
            Coin::XTZ => 11,
            Coin::ZEC => 12,
        }
    }
}

} // verus!
