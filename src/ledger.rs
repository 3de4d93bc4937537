use vstd::prelude::*;
use crate::candle::Candle;
use crate::coin::NUM_COINS;

verus! {

/// Value of the first `n` positions at the close of the current candles;
/// a symbol with no current candle counts as zero.
pub open spec fn marked_value(pos: Seq<u64>, candles: Seq<Option<Candle>>, n: nat) -> int
    decreases n,
{
    if n == 0 {
        0
    } else {
        marked_value(pos, candles, (n - 1) as nat) + match candles[n - 1] {
            Some(c) => pos[n - 1] * c.close,
            None => 0,
        }
    }
}

/// Net liquidation value: cash plus longs less shorts, marked at the close.
pub open spec fn nlv_of(
    cash: u64,
    long: Seq<u64>,
    short: Seq<u64>,
    candles: Seq<Option<Candle>>,
) -> int {
    cash + marked_value(long, candles, NUM_COINS as nat) - marked_value(
        short,
        candles,
        NUM_COINS as nat,
    )
}

/// Cash, positions per coin (indexed by `Coin::index`) and the last computed
/// net liquidation value. Cash is unsigned, so it never goes negative.
pub struct Ledger {
    pub cash: u64,
    pub long_positions: Vec<u64>,
    pub short_positions: Vec<u64>,
    pub nlv: i128,
}

/// A vector of `n` zeros.
fn zeros(n: usize) -> (r: Vec<u64>)
    ensures
        r@ == Seq::new(n as nat, |i: int| 0u64),
{
    let mut r: Vec<u64> = Vec::new();
    let mut i: usize = 0;
    while i < n
        invariant
            i <= n,
            r@ == Seq::new(i as nat, |j: int| 0u64),
        decreases n - i,
    {
        r.push(0);
        i = i + 1;
        assert(r@ =~= Seq::new(i as nat, |j: int| 0u64));
    }
    r
}

/// Largest value one position can have at one close.
pub open spec fn max_mark() -> int {
    u64::MAX * u32::MAX
}

/// Sums the marked value of all positions, as `marked_value` does.
fn mark_positions(pos: &Vec<u64>, candles: &Vec<Option<Candle>>) -> (r: u128)
    requires
        pos.len() == NUM_COINS,
        candles.len() == NUM_COINS,
    ensures
        r == marked_value(pos@, candles@, NUM_COINS as nat),
        r <= NUM_COINS * max_mark(),
{
    let mut acc: u128 = 0;
    let mut i: usize = 0;
    while i < NUM_COINS
        invariant
            i <= NUM_COINS,
            pos.len() == NUM_COINS,
            candles.len() == NUM_COINS,
            acc == marked_value(pos@, candles@, i as nat),
            acc <= i * max_mark(),
        decreases NUM_COINS - i,
    {
        match candles[i] {
            Some(c) => {
                let p = pos[i];
                proof {
                    assert(p * c.close <= max_mark()) by (nonlinear_arith)
                        requires
                            p <= u64::MAX,
                            c.close <= u32::MAX,
                    ;
                    assert((i + 1) * max_mark() == i * max_mark() + max_mark()) by (nonlinear_arith);
                }
                acc = acc + p as u128 * c.close as u128;
            },
            None => {
                proof {
                    assert((i + 1) * max_mark() == i * max_mark() + max_mark()) by (nonlinear_arith);
                }
            },
        }
        i = i + 1;
    }
    acc
}

impl Ledger {
    /// Both position tables cover the whole universe.
    pub open spec fn wf(&self) -> bool {
        self.long_positions.len() == NUM_COINS && self.short_positions.len() == NUM_COINS
    }

    /// A ledger holding `cash` and no positions.
    pub fn new(cash: u64) -> (r: Self)
        ensures
            r.wf(),
            r.cash == cash,
            r.nlv == cash,
            forall|i: int| 0 <= i < NUM_COINS ==> r.long_positions@[i] == 0,
            forall|i: int| 0 <= i < NUM_COINS ==> r.short_positions@[i] == 0,
    {
        Ledger {
            cash,
            long_positions: zeros(NUM_COINS),
            short_positions: zeros(NUM_COINS),
            nlv: cash as i128,
        }
    }

    /// Recomputes the net liquidation value against `candles`.
    pub fn compute_nlv(&mut self, candles: &Vec<Option<Candle>>)
        requires
            old(self).wf(),
            candles.len() == NUM_COINS,
        ensures
            final(self).nlv == nlv_of(
                old(self).cash,
                old(self).long_positions@,
                old(self).short_positions@,
                candles@,
            ),
            final(self).cash == old(self).cash,
            final(self).long_positions == old(self).long_positions,
            final(self).short_positions == old(self).short_positions,
    {
        let long = mark_positions(&self.long_positions, candles);
        let short = mark_positions(&self.short_positions, candles);
        assert(NUM_COINS * max_mark() < 0x100_0000_0000_0000_0000_0000_0000_0000);
        self.nlv = self.cash as i128 + long as i128 - short as i128;
    }
}

} // verus!
