//! What the two tokens of a market are worth: each the share of its own middle price in the sum of both.
use vstd::prelude::*;

use crate::decimal;
use crate::monitor::{BookView, PairView};

use super::fair_value;
use super::fair_value::FairValue;

verus! {

/// The best prices of a book, where it has them, lie between 0 and 1.
pub open spec fn usual_prices(book: BookView) -> bool {
    &&& book.bids.len() > 0 ==> 0 <= book.bids[0].price <= decimal::one()
    &&& book.asks.len() > 0 ==> 0 <= book.asks[book.asks.len() - 1].price <= decimal::one()
}

/// The middle of a book lies halfway between its first bid and its last ask; with one of them alone it is that
/// one, and with none there is no middle.
pub proof fn middle_is_halfway(book: BookView)
    requires
        usual_prices(book),
    ensures
        ({
            let n = book.asks.len();
            let m = fair_value::middle(book);
            &&& m is Some
            &&& m->0 is None <==> book.bids.len() == 0 && n == 0
            &&& m matches Some(Some(mid)) ==> {
                &&& 0 <= mid <= decimal::one()
                &&& book.bids.len() > 0 && n > 0 ==> -1 <= 2 * mid - (book.bids[0].price + book.asks[n - 1].price)
                    <= 1
                &&& book.bids.len() > 0 && n == 0 ==> mid == book.bids[0].price
                &&& book.bids.len() == 0 && n > 0 ==> mid == book.asks[n - 1].price
            }
        }),
{
    let n = book.asks.len();
    if book.bids.len() > 0 && n > 0 {
        let one = decimal::one();
        let two = decimal::atoms(2, 0);
        let t = book.bids[0].price + book.asks[n - 1].price;
        decimal::lemma_small_exact(t);
        assert(two == 2 * one);
        assert(0 <= t * one <= one * two) by (nonlinear_arith)
            requires
                0 <= t <= 2 * one,
                one > 0,
                two == 2 * one,
        ;
        assert(one * two <= decimal::MAX_MANTISSA * two && -decimal::MAX_MANTISSA * two <= 0) by (nonlinear_arith)
            requires
                two > 0,
                one <= decimal::MAX_MANTISSA,
        ;
        decimal::lemma_nearest_fine(t * one, two);
        decimal::lemma_nearest_error(t * one, two, 0);
        let mid = decimal::quotient(t, two)->0;
        assert(mid * two - t * one == (2 * mid - t) * one) by (nonlinear_arith)
            requires
                two == 2 * one,
        ;
        let e = 2 * mid - t;
        assert(-1 <= e <= 1) by (nonlinear_arith)
            requires
                one > 0,
                -(2 * one) <= 2 * (e * one) <= 2 * one,
        ;
        decimal::lemma_small_exact(0);
        decimal::lemma_nearest_scaled(0, two, 0);
        assert(0 * two == 0);
        decimal::lemma_nearest_monotone(0, t * one, two);
        decimal::lemma_small_exact(one);
        decimal::lemma_nearest_scaled(one, two, 0);
        decimal::lemma_nearest_monotone(t * one, one * two, two);
    }
}

/// A share of a sum.
proof fn lemma_share(part: int, total: int)
    requires
        0 <= part <= total,
        0 < total,
    ensures
        decimal::quotient(part, total) matches Some(q) && 2 * decimal::abs_of(q * total - part * decimal::one())
            <= total && 0 <= q <= decimal::one(),
        part == 0 ==> decimal::quotient(part, total) == Some(0int),
        part == total ==> decimal::quotient(part, total) == Some(decimal::one()),
{
    let one = decimal::one();
    assert(0 <= part * one <= one * total) by (nonlinear_arith)
        requires
            0 <= part <= total,
            one > 0,
    ;
    assert(one * total <= decimal::MAX_MANTISSA * total && -decimal::MAX_MANTISSA * total <= 0) by (nonlinear_arith)
        requires
            total > 0,
            one <= decimal::MAX_MANTISSA,
    ;
    decimal::lemma_nearest_fine(part * one, total);
    decimal::lemma_nearest_error(part * one, total, 0);
    assert(total * decimal::step(part * one, total) == total);
    decimal::lemma_small_exact(0);
    decimal::lemma_nearest_scaled(0, total, 0);
    assert(0 * total == 0 && 0 * one == 0);
    decimal::lemma_nearest_monotone(0, part * one, total);
    decimal::lemma_small_exact(one);
    decimal::lemma_nearest_scaled(one, total, 0);
    decimal::lemma_nearest_monotone(part * one, one * total, total);
    assert(part == total ==> part * one == one * total) by (nonlinear_arith);
}

/// Each token is worth its own middle's share of the sum of both middles, to half an atom: from 0 to 1, and
/// both together one.
pub proof fn worth_is_a_share(pair: PairView, yes_mid: int, no_mid: int)
    requires
        fair_value::middle(pair.yes_book) == Some(Some(yes_mid)),
        fair_value::middle(pair.no_book) == Some(Some(no_mid)),
        0 <= yes_mid <= decimal::one(),
        0 <= no_mid <= decimal::one(),
    ensures
        fair_value::worth(pair) is Some,
        yes_mid + no_mid == 0 <==> fair_value::worth(pair)->0 is ZeroSum,
        yes_mid + no_mid > 0 <==> fair_value::worth(pair)->0 is Fair,
        fair_value::worth(pair) matches Some(FairValue::Fair { yes, no }) ==> {
            let total = yes_mid + no_mid;
            &&& 0 <= yes <= decimal::one()
            &&& 0 <= no <= decimal::one()
            &&& 2 * decimal::abs_of(yes * total - yes_mid * decimal::one()) <= total
            &&& 2 * decimal::abs_of(no * total - no_mid * decimal::one()) <= total
            &&& decimal::one() - 1 <= yes + no <= decimal::one() + 1
        },
{
    let total = yes_mid + no_mid;
    let one = decimal::one();
    decimal::lemma_small_exact(total);
    if total > 0 {
        lemma_share(yes_mid, total);
        lemma_share(no_mid, total);
        let yes = decimal::quotient(yes_mid, total)->0;
        let no = decimal::quotient(no_mid, total)->0;
        let e = yes + no - one;
        assert(e * total == (yes * total - yes_mid * one) + (no * total - no_mid * one)) by (nonlinear_arith)
            requires
                e == yes + no - one,
                total == yes_mid + no_mid,
        ;
        assert(-1 <= e <= 1) by (nonlinear_arith)
            requires
                total > 0,
                -total <= e * total <= total,
        ;
    }
}

/// A book without bids and asks leaves nothing to go by.
pub proof fn empty_book_is_incomplete(pair: PairView)
    requires
        usual_prices(pair.yes_book),
        usual_prices(pair.no_book),
    ensures
        fair_value::worth(pair) is Some,
        fair_value::worth(pair)->0 is Incomplete <==> (pair.yes_book.bids.len() == 0 && pair.yes_book.asks.len()
            == 0) || (pair.no_book.bids.len() == 0 && pair.no_book.asks.len() == 0),
{
    middle_is_halfway(pair.yes_book);
    middle_is_halfway(pair.no_book);
    if fair_value::middle(pair.yes_book)->0 is Some && fair_value::middle(pair.no_book)->0 is Some {
        worth_is_a_share(
            pair,
            fair_value::middle(pair.yes_book)->0->0,
            fair_value::middle(pair.no_book)->0->0,
        );
    }
}

/// With the two books changed for each other, so is what the tokens are worth.
pub proof fn worth_mirrored(pair: PairView)
    ensures
        fair_value::worth(PairView { yes_book: pair.no_book, no_book: pair.yes_book, ..pair }) == match fair_value::worth(
            pair,
        ) {
            Some(FairValue::Fair { yes, no }) => Some(FairValue::Fair { yes: no, no: yes }),
            other => other,
        },
{
}

} // verus!
