//! One poll cycle: take the two per-venue fetch results of this cycle,
//! extract the top of book from each successful one, fold both into the
//! shared state, and run the detector on the result.
//!
//! The network calls themselves happen outside: the loop driver issues the
//! two fetches concurrently, joins them, and hands both results in as plain
//! values, so a failure on one venue can never block or discard the other
//! venue's result.

use vstd::prelude::*;
use crate::book::OrderBookSnapshot;
use crate::book::spec_extract;
use crate::detect::Opportunity;
use crate::detect::detect;
use crate::detect::spec_detect;
use crate::market::ExchangeId;
use crate::state::PriceState;
use crate::state::spec_ask;
use crate::state::spec_bid;
use crate::state::spec_update;

verus! {

/// A failed order-book fetch on one venue for one cycle: the venue's sides
/// of the state stay at their last-known values and the loop keeps running.
#[derive(Clone, Copy, PartialEq, Eq, Structural, Debug)]
pub struct FetchError;

/// What folding one venue's fetch result into the state leaves behind: on
/// success, the extraction of that snapshot applied to that venue's sides;
/// on failure, the state exactly as it was.
pub open spec fn spec_apply_fetch(
    s: PriceState,
    exchange: ExchangeId,
    fetched: Result<OrderBookSnapshot, FetchError>,
) -> PriceState {
    match fetched {
        Ok(book) => spec_update(s, exchange, spec_extract(book)),
        Err(_) => s,
    }
}

/// The state after one whole cycle: both venues' results of the same cycle
/// folded in, each independently of the other's outcome.
pub open spec fn spec_cycle_state(
    s: PriceState,
    binance_fetched: Result<OrderBookSnapshot, FetchError>,
    hyperliquid_fetched: Result<OrderBookSnapshot, FetchError>,
) -> PriceState {
    spec_apply_fetch(
        spec_apply_fetch(s, ExchangeId::Binance, binance_fetched),
        ExchangeId::Hyperliquid,
        hyperliquid_fetched,
    )
}

/// Runs the decision half of one cycle on the two fetch results: extracts
/// each successful snapshot, updates each venue's sides from its own
/// snapshot of this same cycle (never across cycles, never across venues),
/// and returns the detector's verdict on the new state. A failed fetch
/// leaves that venue's sides at their last-known values and neither blocks
/// nor discards the other venue's update.
pub fn poll_cycle(
    state: &mut PriceState,
    binance_fetched: Result<OrderBookSnapshot, FetchError>,
    hyperliquid_fetched: Result<OrderBookSnapshot, FetchError>,
) -> (r: Option<Opportunity>)
    ensures
        *final(state) == spec_cycle_state(*old(state), binance_fetched, hyperliquid_fetched),
        r == spec_detect(*final(state)),
        binance_fetched is Err ==> {
            &&& spec_bid(*final(state), ExchangeId::Binance) == spec_bid(*old(state), ExchangeId::Binance)
            &&& spec_ask(*final(state), ExchangeId::Binance) == spec_ask(*old(state), ExchangeId::Binance)
        },
        hyperliquid_fetched is Err ==> {
            &&& spec_bid(*final(state), ExchangeId::Hyperliquid) == spec_bid(*old(state), ExchangeId::Hyperliquid)
            &&& spec_ask(*final(state), ExchangeId::Hyperliquid) == spec_ask(*old(state), ExchangeId::Hyperliquid)
        },
        final(state).pair == old(state).pair,
{
    if let Ok(book) = &binance_fetched {
        let top = crate::book::extract(book);
        state.update(ExchangeId::Binance, top);
    }
    if let Ok(book) = &hyperliquid_fetched {
        let top = crate::book::extract(book);
        state.update(ExchangeId::Hyperliquid, top);
    }
    detect(state)
}

} // verus!
