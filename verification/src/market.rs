//! Venues, trading pairs, and the pure lookup from a (venue, pair)
//! combination to the venue's native market symbol.

use vstd::prelude::*;

verus! {

/// One of the two supported venues.
#[derive(Clone, Copy, PartialEq, Eq, Structural, Debug)]
pub enum ExchangeId {
    Binance,
    Hyperliquid,
}

/// A logical trading pair tracked by the watcher.
#[derive(Clone, Copy, PartialEq, Eq, Structural, Debug)]
pub enum Pair {
    RdntUsdt,
    RdntUsdc,
}

/// A (venue, pair) combination with no configured market symbol.
#[derive(Clone, Copy, PartialEq, Eq, Structural, Debug)]
pub struct UnsupportedMarketError {
    pub exchange: ExchangeId,
    pub pair: Pair,
}

/// The configured symbol table: which symbol each venue uses for each pair,
/// `None` where the combination is not configured.
pub open spec fn spec_market_symbol(exchange: ExchangeId, pair: Pair) -> Option<Seq<char>> {
    match (exchange, pair) {
        (ExchangeId::Binance, Pair::RdntUsdt) => Some("RDNTUSDT"@),
        (ExchangeId::Hyperliquid, Pair::RdntUsdc) => Some("RDNT"@),
        _ => None,
    }
}

/// Translates a (venue, pair) combination into the venue's native market
/// symbol. Total: an unconfigured combination yields
/// `UnsupportedMarketError`, never a panic.
pub fn market_symbol(exchange: ExchangeId, pair: Pair) -> (r: Result<&'static str, UnsupportedMarketError>)
    ensures
        r is Ok <==> spec_market_symbol(exchange, pair) is Some,
        r is Ok ==> r->Ok_0@ == spec_market_symbol(exchange, pair)->Some_0,
        r is Err ==> r->Err_0 == (UnsupportedMarketError { exchange, pair }),
{
    match (exchange, pair) {
        (ExchangeId::Binance, Pair::RdntUsdt) => Ok("RDNTUSDT"),
        (ExchangeId::Hyperliquid, Pair::RdntUsdc) => Ok("RDNT"),
        _ => Err(UnsupportedMarketError { exchange, pair }),
    }
}

} // verus!
