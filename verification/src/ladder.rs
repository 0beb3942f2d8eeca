//! Price levels and the snapshot of a book.
use vstd::prelude::*;

verus! {

/// One resting price level: a price in ticks and the base lots offered at it.
#[derive(Clone, Copy, Debug, PartialEq, Eq, Structural)]
pub struct PriceLevel {
    pub price_in_ticks: u64,
    pub size_in_base_lots: u64,
}

/// No level of `levels` is empty.
pub open spec fn sizes_positive(levels: Seq<PriceLevel>) -> bool {
    forall|i: int| 0 <= i < levels.len() ==> (#[trigger] levels[i]).size_in_base_lots > 0
}

/// Prices never rise along `levels`.
pub open spec fn prices_non_increasing(levels: Seq<PriceLevel>) -> bool {
    forall|i: int, j: int|
        0 <= i <= j < levels.len() ==> (#[trigger] levels[i]).price_in_ticks >= (
        #[trigger] levels[j]).price_in_ticks
}

/// Prices never fall along `levels`.
pub open spec fn prices_non_decreasing(levels: Seq<PriceLevel>) -> bool {
    forall|i: int, j: int|
        0 <= i <= j < levels.len() ==> (#[trigger] levels[i]).price_in_ticks <= (
        #[trigger] levels[j]).price_in_ticks
}

/// What `levels` must be to stand as one side of a snapshot.
pub open spec fn ordered_side(levels: Seq<PriceLevel>, descending: bool) -> bool {
    sizes_positive(levels) && if descending {
        prices_non_increasing(levels)
    } else {
        prices_non_decreasing(levels)
    }
}

/// Whether `levels` can be one side of a snapshot: no level is empty, and
/// prices never rise (`descending`) or never fall (otherwise).
pub fn is_ordered_side(levels: &Vec<PriceLevel>, descending: bool) -> (ordered: bool)
    ensures
        ordered == ordered_side(levels@, descending),
{
    let mut i: usize = 0;
    while i < levels.len()
        invariant
            i <= levels.len(),
            sizes_positive(levels@.take(i as int)),
            if descending {
                prices_non_increasing(levels@.take(i as int))
            } else {
                prices_non_decreasing(levels@.take(i as int))
            },
        decreases levels.len() - i,
    {
        if levels[i].size_in_base_lots == 0 {
            return false;
        }
        if i > 0 {
            let rises = levels[i - 1].price_in_ticks < levels[i].price_in_ticks;
            let falls = levels[i - 1].price_in_ticks > levels[i].price_in_ticks;
            if (descending && rises) || (!descending && falls) {
                return false;
            }
        }
        proof {
            let before = levels@.take(i as int);
            let now = levels@.take(i + 1);
            assert forall|j: int| 0 <= j < now.len() implies (#[trigger] now[j]).size_in_base_lots
                > 0 by {
                if j < i {
                    assert(before[j] == now[j]);
                }
            }
            assert forall|j: int, k: int| 0 <= j <= k < now.len() implies if descending {
                (#[trigger] now[j]).price_in_ticks >= (#[trigger] now[k]).price_in_ticks
            } else {
                now[j].price_in_ticks <= now[k].price_in_ticks
            } by {
                if k < i {
                    assert(before[j] == now[j] && before[k] == now[k]);
                } else if j < i {
                    assert(before[j] == now[j] && before[i - 1] == now[i - 1]);
                }
            }
        }
        i += 1;
    }
    assert(levels@.take(levels@.len() as int) =~= levels@);
    true
}

/// The visible book of a market: bids with the best (highest) first, asks with
/// the best (lowest) first.
#[derive(Clone, Debug)]
pub struct LadderSnapshot {
    pub bids: Vec<PriceLevel>,
    pub asks: Vec<PriceLevel>,
}

impl LadderSnapshot {
    /// The snapshot's invariant: both sides are ordered best first and hold no
    /// empty level.
    pub open spec fn wf(&self) -> bool {
        &&& prices_non_increasing(self.bids@)
        &&& prices_non_decreasing(self.asks@)
        &&& sizes_positive(self.bids@)
        &&& sizes_positive(self.asks@)
    }

    /// A snapshot of the given sides, if each is ordered best first and holds
    /// no empty level.
    pub fn new(bids: Vec<PriceLevel>, asks: Vec<PriceLevel>) -> (res: Option<LadderSnapshot>)
        ensures
            match res {
                Some(ladder) => ladder.wf() && ladder.bids@ == bids@ && ladder.asks@ == asks@,
                None => !(ordered_side(bids@, true) && ordered_side(asks@, false)),
            },
    {
        if is_ordered_side(&bids, true) && is_ordered_side(&asks, false) {
            Some(LadderSnapshot { bids, asks })
        } else {
            None
        }
    }
}

} // verus!
