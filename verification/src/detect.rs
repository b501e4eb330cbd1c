//! The stateless opportunity detector: once per cycle it compares the two
//! venues' current best prices and reports a profitable crossing.

use vstd::prelude::*;
use crate::market::ExchangeId;
use crate::state::PriceState;

verus! {

/// A detected crossing: buy at `buy_price` on `buy_exchange`, sell at
/// `sell_price` on `sell_exchange`, for an exact margin of `profit` per
/// unit. Produced and reported immediately, never retained.
#[derive(Clone, Copy, PartialEq, Eq, Structural, Debug)]
pub struct Opportunity {
    pub buy_exchange: ExchangeId,
    pub sell_exchange: ExchangeId,
    pub buy_price: u64,
    pub sell_price: u64,
    pub profit: u64,
}

/// Detection is meaningful only once every side of both venues has been
/// observed at least once; until then reporting is suppressed.
pub open spec fn spec_ready(s: PriceState) -> bool {
    &&& s.binance_bid is Some
    &&& s.binance_ask is Some
    &&& s.hyperliquid_bid is Some
    &&& s.hyperliquid_ask is Some
}

/// The detector's verdict on a state. A report comes exactly when the state
/// is ready and one venue's best bid exceeds the other's best ask; when both
/// directions cross at once (a miscalibrated feed), the sell-on-Binance
/// direction takes precedence.
pub open spec fn spec_detect(s: PriceState) -> Option<Opportunity> {
    if !spec_ready(s) {
        None
    } else {
        let bb = s.binance_bid->Some_0;
        let ba = s.binance_ask->Some_0;
        let hb = s.hyperliquid_bid->Some_0;
        let ha = s.hyperliquid_ask->Some_0;
        if bb > ha {
            Some(Opportunity {
                buy_exchange: ExchangeId::Hyperliquid,
                sell_exchange: ExchangeId::Binance,
                buy_price: ha,
                sell_price: bb,
                profit: (bb - ha) as u64,
            })
        } else if hb > ba {
            Some(Opportunity {
                buy_exchange: ExchangeId::Binance,
                sell_exchange: ExchangeId::Hyperliquid,
                buy_price: ba,
                sell_price: hb,
                profit: (hb - ba) as u64,
            })
        } else {
            None
        }
    }
}

/// Compares the two venues' current best prices. Reports exactly when both
/// venues have been observed on both sides and one venue's best bid exceeds
/// the other venue's best ask; every report carries the exact per-unit
/// margin `sell_price - buy_price`, always positive.
pub fn detect(state: &PriceState) -> (r: Option<Opportunity>)
    ensures
        r == spec_detect(*state),
        r is Some ==> spec_ready(*state),
        r is Some ==> r->Some_0.sell_price > r->Some_0.buy_price,
        r is Some ==> r->Some_0.profit == r->Some_0.sell_price - r->Some_0.buy_price,
        r is Some ==> r->Some_0.buy_exchange != r->Some_0.sell_exchange,
{
    match (state.binance_bid, state.binance_ask, state.hyperliquid_bid, state.hyperliquid_ask) {
        (Some(bb), Some(ba), Some(hb), Some(ha)) => {
            if bb > ha {
                Some(Opportunity {
                    buy_exchange: ExchangeId::Hyperliquid,
                    sell_exchange: ExchangeId::Binance,
                    buy_price: ha,
                    sell_price: bb,
                    profit: bb - ha,
                })
            } else if hb > ba {
                Some(Opportunity {
                    buy_exchange: ExchangeId::Binance,
                    sell_exchange: ExchangeId::Hyperliquid,
                    buy_price: ba,
                    sell_price: hb,
                    profit: hb - ba,
                })
            } else {
                None
            }
        }
        _ => None,
    }
}

} // verus!
