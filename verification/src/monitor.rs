//! Order books, and the arbitrage opportunity that a pair of them can hold.
use vstd::prelude::*;

use crate::decimal::Decimal;
use crate::types::{B256, U256};

verus! {

/// A price level of an order book.
#[derive(Clone, Copy, Debug)]
pub struct Level<D = Decimal> {
    pub price: D,
    pub size: D,
}

/// The order book of one token. The best bid is the first of `bids` and the best ask the last of
/// `asks`.
#[derive(Clone, Debug)]
pub struct BookUpdate {
    pub asset_id: U256,
    pub bids: Vec<Level>,
    pub asks: Vec<Level>,
}

/// The order book of one token, in atoms.
pub struct BookView {
    pub asset_id: U256,
    pub bids: Seq<Level<int>>,
    pub asks: Seq<Level<int>>,
}

impl View for Level<Decimal> {
    type V = Level<int>;

    open spec fn view(&self) -> Level<int> {
        Level { price: self.price@, size: self.size@ }
    }
}

impl View for BookUpdate {
    type V = BookView;

    open spec fn view(&self) -> BookView {
        BookView {
            asset_id: self.asset_id,
            bids: self.bids@.map_values(|l: Level| l@),
            asks: self.asks@.map_values(|l: Level| l@),
        }
    }
}

/// The books of both tokens of a market.
#[derive(Clone, Debug)]
pub struct OrderBookPair {
    pub market_id: B256,
    pub yes_book: BookUpdate,
    pub no_book: BookUpdate,
}

/// The books of both tokens of a market, in atoms.
pub struct PairView {
    pub market_id: B256,
    pub yes_book: BookView,
    pub no_book: BookView,
}

impl View for OrderBookPair {
    type V = PairView;

    open spec fn view(&self) -> PairView {
        PairView { market_id: self.market_id, yes_book: self.yes_book@, no_book: self.no_book@ }
    }
}

impl BookView {
    /// The price of the best ask.
    pub open spec fn best_ask(self) -> Option<int> {
        if self.asks.len() > 0 {
            Some(self.asks.last().price)
        } else {
            None
        }
    }

    /// The price of the best bid.
    pub open spec fn best_bid(self) -> Option<int> {
        if self.bids.len() > 0 {
            Some(self.bids[0].price)
        } else {
            None
        }
    }
}

impl BookUpdate {
    /// The price of the best ask.
    pub fn best_ask(&self) -> (r: Option<Decimal>)
        ensures
            crate::decimal::opt_atoms(r) == self@.best_ask(),
    {
        if self.asks.len() > 0 {
            Some(self.asks[self.asks.len() - 1].price)
        } else {
            None
        }
    }

    /// The price of the best bid.
    pub fn best_bid(&self) -> (r: Option<Decimal>)
        ensures
            crate::decimal::opt_atoms(r) == self@.best_bid(),
    {
        if self.bids.len() > 0 {
            Some(self.bids[0].price)
        } else {
            None
        }
    }
}

/// A chance to buy both tokens of a market for less than they pay out together.
#[derive(Clone, Copy, Debug)]
pub struct ArbitrageOpportunity<D = Decimal> {
    pub market_id: B256,
    pub yes_token_id: U256,
    pub no_token_id: U256,
    pub yes_ask_price: D,
    pub no_ask_price: D,
    pub yes_size: D,
    pub no_size: D,
    pub profit_percentage: D,
}

impl View for ArbitrageOpportunity<Decimal> {
    type V = ArbitrageOpportunity<int>;

    open spec fn view(&self) -> ArbitrageOpportunity<int> {
        ArbitrageOpportunity {
            market_id: self.market_id,
            yes_token_id: self.yes_token_id,
            no_token_id: self.no_token_id,
            yes_ask_price: self.yes_ask_price@,
            no_ask_price: self.no_ask_price@,
            yes_size: self.yes_size@,
            no_size: self.no_size@,
            profit_percentage: self.profit_percentage@,
        }
    }
}

} // verus!
