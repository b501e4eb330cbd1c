//! Order-book snapshots and top-of-book extraction.
//!
//! A snapshot is reduced to a `TopOfBook`: the best bid is the highest bid
//! price present, the best ask the lowest ask price present, and an empty
//! side yields `None` so that a stale-but-valid prior value is never
//! overwritten with a default.

use vstd::prelude::*;

verus! {

/// One order-book level: an exact scaled price and the size resting there.
/// Only the price is consumed by the watcher.
#[derive(Clone, Copy, PartialEq, Eq, Structural, Debug)]
pub struct PriceLevel {
    pub price: u64,
    pub size: u64,
}

/// One venue's order book at one instant: bid levels and ask levels, in
/// whatever order the venue returned them.
#[derive(Clone, PartialEq, Eq, Debug)]
pub struct OrderBookSnapshot {
    pub bids: Vec<PriceLevel>,
    pub asks: Vec<PriceLevel>,
}

/// The best bid and best ask of one venue at one instant; `None` on a side
/// whose level list was empty.
#[derive(Clone, Copy, PartialEq, Eq, Debug)]
pub struct TopOfBook {
    pub bid: Option<u64>,
    pub ask: Option<u64>,
}

/// The highest price among `levels`, `None` when there are none.
pub open spec fn spec_best_bid(levels: Seq<PriceLevel>) -> Option<u64>
    decreases levels.len(),
{
    if levels.len() == 0 {
        None
    } else {
        match spec_best_bid(levels.drop_first()) {
            None => Some(levels[0].price),
            Some(m) => Some(if levels[0].price >= m { levels[0].price } else { m }),
        }
    }
}

/// The lowest price among `levels`, `None` when there are none.
pub open spec fn spec_best_ask(levels: Seq<PriceLevel>) -> Option<u64>
    decreases levels.len(),
{
    if levels.len() == 0 {
        None
    } else {
        match spec_best_ask(levels.drop_first()) {
            None => Some(levels[0].price),
            Some(m) => Some(if levels[0].price <= m { levels[0].price } else { m }),
        }
    }
}

/// What extraction yields for a whole snapshot.
pub open spec fn spec_extract(snapshot: OrderBookSnapshot) -> TopOfBook {
    TopOfBook { bid: spec_best_bid(snapshot.bids@), ask: spec_best_ask(snapshot.asks@) }
}

/// The best bid is a price present in the list and no bid price exceeds it,
/// whatever order the levels came in; it exists exactly when the list is
/// non-empty.
pub proof fn lemma_best_bid_is_max(levels: Seq<PriceLevel>)
    ensures
        spec_best_bid(levels) is Some <==> levels.len() > 0,
        levels.len() > 0 ==> exists|i: int|
            0 <= i < levels.len() && levels[i].price == spec_best_bid(levels)->Some_0,
        forall|i: int| 0 <= i < levels.len() ==> levels[i].price <= spec_best_bid(levels)->Some_0,
    decreases levels.len(),
{
    if levels.len() > 0 {
        let rest = levels.drop_first();
        lemma_best_bid_is_max(rest);
        let b = spec_best_bid(levels)->Some_0;
        if rest.len() == 0 {
            assert(levels[0].price == b);
        } else {
            let m = spec_best_bid(rest)->Some_0;
            if levels[0].price >= m {
                assert(levels[0].price == b);
            } else {
                let j = choose|j: int| 0 <= j < rest.len() && rest[j].price == m;
                assert(levels[j + 1].price == b);
            }
        }
        assert forall|i: int| 0 <= i < levels.len() implies levels[i].price <= b by {
            if i >= 1 {
                assert(rest[i - 1] == levels[i]);
            }
        }
    }
}

/// The best ask is a price present in the list and no ask price is below it,
/// whatever order the levels came in; it exists exactly when the list is
/// non-empty.
pub proof fn lemma_best_ask_is_min(levels: Seq<PriceLevel>)
    ensures
        spec_best_ask(levels) is Some <==> levels.len() > 0,
        levels.len() > 0 ==> exists|i: int|
            0 <= i < levels.len() && levels[i].price == spec_best_ask(levels)->Some_0,
        forall|i: int| 0 <= i < levels.len() ==> levels[i].price >= spec_best_ask(levels)->Some_0,
    decreases levels.len(),
{
    if levels.len() > 0 {
        let rest = levels.drop_first();
        lemma_best_ask_is_min(rest);
        let b = spec_best_ask(levels)->Some_0;
        if rest.len() == 0 {
            assert(levels[0].price == b);
        } else {
            let m = spec_best_ask(rest)->Some_0;
            if levels[0].price <= m {
                assert(levels[0].price == b);
            } else {
                let j = choose|j: int| 0 <= j < rest.len() && rest[j].price == m;
                assert(levels[j + 1].price == b);
            }
        }
        assert forall|i: int| 0 <= i < levels.len() implies levels[i].price >= b by {
            if i >= 1 {
                assert(rest[i - 1] == levels[i]);
            }
        }
    }
}

/// The highest price among `levels`, scanning the whole list rather than
/// trusting the venue's ordering; `None` when the list is empty.
pub fn best_bid(levels: &Vec<PriceLevel>) -> (r: Option<u64>)
    ensures
        r == spec_best_bid(levels@),
{
    let mut best: Option<u64> = None;
    let n = levels.len();
    let mut k: usize = 0;
    while k < n
        invariant
            n == levels@.len(),
            k <= n,
            best is Some <==> k > 0,
            k > 0 ==> exists|i: int| 0 <= i < k && levels@[i].price == best->Some_0,
            forall|i: int| 0 <= i < k ==> levels@[i].price <= best->Some_0,
        decreases n - k,
    {
        let p = levels[k].price;
        match best {
            None => {
                best = Some(p);
            }
            Some(m) => {
                if p > m {
                    best = Some(p);
                }
            }
        }
        k = k + 1;
    }
    proof {
        lemma_best_bid_is_max(levels@);
    }
    best
}

/// The lowest price among `levels`, scanning the whole list rather than
/// trusting the venue's ordering; `None` when the list is empty.
pub fn best_ask(levels: &Vec<PriceLevel>) -> (r: Option<u64>)
    ensures
        r == spec_best_ask(levels@),
{
    let mut best: Option<u64> = None;
    let n = levels.len();
    let mut k: usize = 0;
    while k < n
        invariant
            n == levels@.len(),
            k <= n,
            best is Some <==> k > 0,
            k > 0 ==> exists|i: int| 0 <= i < k && levels@[i].price == best->Some_0,
            forall|i: int| 0 <= i < k ==> levels@[i].price >= best->Some_0,
        decreases n - k,
    {
        let p = levels[k].price;
        match best {
            None => {
                best = Some(p);
            }
            Some(m) => {
                if p < m {
                    best = Some(p);
                }
            }
        }
        k = k + 1;
    }
    proof {
        lemma_best_ask_is_min(levels@);
    }
    best
}

/// Reduces a snapshot to its top of book: highest bid and lowest ask, with
/// `None` on a side whose list is empty.
pub fn extract(snapshot: &OrderBookSnapshot) -> (t: TopOfBook)
    ensures
        t == spec_extract(*snapshot),
        t.bid is Some <==> snapshot.bids@.len() > 0,
        t.ask is Some <==> snapshot.asks@.len() > 0,
{
    TopOfBook { bid: best_bid(&snapshot.bids), ask: best_ask(&snapshot.asks) }
}

} // verus!
