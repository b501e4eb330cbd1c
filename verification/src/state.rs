//! The shared price state: the most recently observed top of book for each
//! venue, updated atomically per venue and sticky on sides that a poll did
//! not observe.

use vstd::prelude::*;
use crate::book::TopOfBook;
use crate::market::ExchangeId;
use crate::market::Pair;

verus! {

/// Last-known best bid and ask for each of the two venues, plus the pair
/// being tracked. A side is `None` until the first successful observation
/// of that side, so the detector can suppress reports until both venues
/// have real data.
#[derive(Clone, Copy, PartialEq, Eq, Debug)]
pub struct PriceState {
    pub pair: Pair,
    pub binance_bid: Option<u64>,
    pub binance_ask: Option<u64>,
    pub hyperliquid_bid: Option<u64>,
    pub hyperliquid_ask: Option<u64>,
}

/// The last-known best bid of `exchange` in `s`.
pub open spec fn spec_bid(s: PriceState, exchange: ExchangeId) -> Option<u64> {
    match exchange {
        ExchangeId::Binance => s.binance_bid,
        ExchangeId::Hyperliquid => s.hyperliquid_bid,
    }
}

/// The last-known best ask of `exchange` in `s`.
pub open spec fn spec_ask(s: PriceState, exchange: ExchangeId) -> Option<u64> {
    match exchange {
        ExchangeId::Binance => s.binance_ask,
        ExchangeId::Hyperliquid => s.hyperliquid_ask,
    }
}

/// What `update` leaves in the state: both sides of `exchange` are rewritten
/// together from the one extraction result `top`, a side missing from `top`
/// keeps its prior value, and the other venue's sides are untouched.
pub open spec fn spec_update(s: PriceState, exchange: ExchangeId, top: TopOfBook) -> PriceState {
    let new_bid = if top.bid is Some { top.bid } else { spec_bid(s, exchange) };
    let new_ask = if top.ask is Some { top.ask } else { spec_ask(s, exchange) };
    match exchange {
        ExchangeId::Binance => PriceState { binance_bid: new_bid, binance_ask: new_ask, ..s },
        ExchangeId::Hyperliquid => PriceState {
            hyperliquid_bid: new_bid,
            hyperliquid_ask: new_ask,
            ..s
        },
    }
}

impl PriceState {
    /// A fresh state for `pair` with no observations yet on either venue.
    pub fn new(pair: Pair) -> (s: PriceState)
        ensures
            s == (PriceState {
                pair,
                binance_bid: None,
                binance_ask: None,
                hyperliquid_bid: None,
                hyperliquid_ask: None,
            }),
    {
        PriceState {
            pair,
            binance_bid: None,
            binance_ask: None,
            hyperliquid_bid: None,
            hyperliquid_ask: None,
        }
    }

    /// Overwrites both sides of `exchange` from the single extraction result
    /// `top`. A side on which `top` is `None` (empty book on that poll) keeps
    /// its last-known value; the other venue and the pair are untouched.
    pub fn update(&mut self, exchange: ExchangeId, top: TopOfBook)
        ensures
            *final(self) == spec_update(*old(self), exchange, top),
            top.bid is None ==> spec_bid(*final(self), exchange) == spec_bid(*old(self), exchange),
            top.ask is None ==> spec_ask(*final(self), exchange) == spec_ask(*old(self), exchange),
            top.bid is Some ==> spec_bid(*final(self), exchange) == top.bid,
            top.ask is Some ==> spec_ask(*final(self), exchange) == top.ask,
            final(self).pair == old(self).pair,
    {
        match exchange {
            ExchangeId::Binance => {
                if let Some(b) = top.bid {
                    self.binance_bid = Some(b);
                }
                if let Some(a) = top.ask {
                    self.binance_ask = Some(a);
                }
            }
            ExchangeId::Hyperliquid => {
                if let Some(b) = top.bid {
                    self.hyperliquid_bid = Some(b);
                }
                if let Some(a) = top.ask {
                    self.hyperliquid_ask = Some(a);
                }
            }
        }
    }
}

/// Applying the same extraction result twice leaves the state exactly as
/// applying it once: `update` is idempotent.
pub proof fn lemma_update_idempotent(s: PriceState, exchange: ExchangeId, top: TopOfBook)
    ensures
        spec_update(spec_update(s, exchange, top), exchange, top) == spec_update(s, exchange, top),
{
}

/// An update for one venue never touches the other venue's sides, and a side
/// the extraction did not observe keeps its last-known value.
pub proof fn lemma_update_is_isolated(s: PriceState, exchange: ExchangeId, top: TopOfBook, other: ExchangeId)
    requires
        other != exchange,
    ensures
        spec_bid(spec_update(s, exchange, top), other) == spec_bid(s, other),
        spec_ask(spec_update(s, exchange, top), other) == spec_ask(s, other),
        spec_update(s, exchange, top).pair == s.pair,
        top.bid is None ==> spec_bid(spec_update(s, exchange, top), exchange) == spec_bid(s, exchange),
        top.ask is None ==> spec_ask(spec_update(s, exchange, top), exchange) == spec_ask(s, exchange),
{
}

} // verus!
