//! What a pair of books says the two tokens are worth.
use vstd::prelude::*;

use crate::decimal;
use crate::decimal::{checked_add, checked_div, Decimal};
use crate::monitor::{BookUpdate, BookView, OrderBookPair, PairView};

verus! {

/// The middle between best bid and best ask, or the one that is there. `None` where the middle is
/// out of range, `Some(None)` where the book is empty.
pub open spec fn middle(book: BookView) -> Option<Option<int>> {
    match (book.best_bid(), book.best_ask()) {
        (Some(b), Some(a)) => match decimal::opt_quotient(
            decimal::sum(b, a),
            Some(decimal::atoms(2, 0)),
        ) {
            Some(m) => Some(Some(m)),
            None => None,
        },
        (Some(b), None) => Some(Some(b)),
        (None, Some(a)) => Some(Some(a)),
        (None, None) => Some(None),
    }
}

/// The middle between best bid and best ask, or the one that is there. `None` where the middle is
/// out of range, `Some(None)` where the book is empty.
pub fn midpoint(book: &BookUpdate) -> (r: Option<Option<Decimal>>)
    ensures
        (match r {
            Some(m) => Some(decimal::opt_atoms(m)),
            None => None,
        }) == middle(book@),
{
    match (book.best_bid(), book.best_ask()) {
        (Some(b), Some(a)) => Some(Some(checked_div(checked_add(b, a)?, Decimal::new(2, 0))?)),
        (Some(b), None) => Some(Some(b)),
        (None, Some(a)) => Some(Some(a)),
        (None, None) => Some(None),
    }
}

/// What the two tokens of a market are worth.
pub enum FairValue<D = Decimal> {
    /// A book is empty.
    Incomplete,
    /// The two middles do not add up to more than zero.
    ZeroSum,
    /// Each middle's share of the sum of both.
    Fair { yes: D, no: D },
}

impl View for FairValue<Decimal> {
    type V = FairValue<int>;

    open spec fn view(&self) -> FairValue<int> {
        match *self {
            FairValue::Incomplete => FairValue::Incomplete,
            FairValue::ZeroSum => FairValue::ZeroSum,
            FairValue::Fair { yes, no } => FairValue::Fair { yes: yes@, no: no@ },
        }
    }
}

/// Two middles, scaled so that they add up to one.
pub open spec fn shares(yes: int, no: int) -> Option<FairValue<int>> {
    match decimal::sum(yes, no) {
        Some(total) => if total > 0 {
            match (decimal::quotient(yes, total), decimal::quotient(no, total)) {
                (Some(y), Some(n)) => Some(FairValue::Fair { yes: y, no: n }),
                _ => None,
            }
        } else {
            Some(FairValue::ZeroSum)
        },
        None => None,
    }
}

/// What the two tokens of a market are worth; `None` where a step is out of range.
pub open spec fn worth(pair: PairView) -> Option<FairValue<int>> {
    match (middle(pair.yes_book), middle(pair.no_book)) {
        (Some(Some(y)), Some(Some(n))) => shares(y, n),
        (Some(_), Some(_)) => Some(FairValue::Incomplete),
        _ => None,
    }
}

/// What the two tokens of a market are worth; `None` where a step is out of range.
pub fn fair_value(pair: &OrderBookPair) -> (r: Option<FairValue>)
    ensures
        (match r {
            Some(f) => Some(f@),
            None => None,
        }) == worth(pair@),
{
    let yes_mid = midpoint(&pair.yes_book)?;
    let no_mid = midpoint(&pair.no_book)?;
    match (yes_mid, no_mid) {
        (Some(y), Some(n)) => {
            let total = checked_add(y, n)?;
            if total > Decimal::zero() {
                Some(FairValue::Fair { yes: checked_div(y, total)?, no: checked_div(n, total)? })
            } else {
                Some(FairValue::ZeroSum)
            }
        },
        _ => Some(FairValue::Incomplete),
    }
}

} // verus!
