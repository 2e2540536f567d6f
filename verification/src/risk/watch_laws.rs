//! What holds of a watched position: where it is sold, how much of it, and what is kept of it afterwards.
use vstd::prelude::*;

use crate::decimal;
use crate::monitor::BookView;
use crate::types::U256;

use super::hedge_map::HedgePosition;
use super::hedge_monitor;
use super::hedge_monitor::{Sale, Verdict};
use super::positions::TrackerView;

verus! {

/// A watched position takes its profit at so large a share above its entry price, and stops its loss at so
/// large a share below, each to half an atom; all else of it stays.
pub proof fn watch_has_its_prices(
    p: HedgePosition<int, Seq<char>>,
    entry: int,
    take_profit_pct: int,
    stop_loss_pct: int,
)
    requires
        0 <= entry <= decimal::one(),
        0 <= take_profit_pct <= decimal::one(),
        0 <= stop_loss_pct <= decimal::one(),
    ensures
        hedge_monitor::with_entry(p, entry, Some(take_profit_pct), Some(stop_loss_pct)) matches Some(w) && {
            let one = decimal::one();
            &&& 2 * decimal::abs_of(w.take_profit_price * one - entry * (one + take_profit_pct)) <= one
            &&& 2 * decimal::abs_of(w.stop_loss_price * one - entry * (one - stop_loss_pct)) <= one
            &&& w.stop_loss_price <= entry <= w.take_profit_price
            &&& w.entry_price == entry
            &&& w.token_id == p.token_id
            &&& w.opposite_token_id == p.opposite_token_id
            &&& w.amount == p.amount
            &&& w.pair_id == p.pair_id
            &&& w.order_id == p.order_id
            &&& w.pending_sell_amount == p.pending_sell_amount
        },
{
    let one = decimal::one();
    let (up, down) = (one + take_profit_pct, one - stop_loss_pct);
    decimal::lemma_small_exact(up);
    decimal::lemma_small_exact(down);
    assert(entry * one <= entry * up <= 2 * (one * one) && 0 <= entry * down <= entry * one <= one * one)
        by (nonlinear_arith)
        requires
            0 <= entry <= one,
            one <= up <= 2 * one,
            0 <= down <= one,
    ;
    assert(2 * (one * one) <= decimal::MAX_MANTISSA * one && -decimal::MAX_MANTISSA * one <= 0) by (nonlinear_arith)
        requires
            one > 0,
            2 * one <= decimal::MAX_MANTISSA,
    ;
    assert(0 <= entry * one) by (nonlinear_arith)
        requires
            0 <= entry,
            one > 0,
    ;
    decimal::lemma_nearest_fine(entry * up, one);
    decimal::lemma_nearest_error(entry * up, one, 0);
    decimal::lemma_nearest_fine(entry * down, one);
    decimal::lemma_nearest_error(entry * down, one, 0);
    decimal::lemma_small_exact(entry);
    decimal::lemma_nearest_scaled(entry, one, 0);
    decimal::lemma_nearest_monotone(entry * one, entry * up, one);
    decimal::lemma_nearest_monotone(entry * down, entry * one, one);
}

/// A watched position without an open order is sold when the bid for its token is at its gain or above, or at
/// its loss or below: as many shares as are held of it beyond the other side. In between, and where the other
/// side covers it, it is kept; and so it is when the book is another token's.
pub proof fn position_is_sold_at_gain_and_loss(
    p: HedgePosition<int, Seq<char>>,
    asset: U256,
    bid: int,
    tracker: TrackerView,
)
    requires
        p.order_id is None,
        decimal::representable(tracker.position(p.token_id) - tracker.position(p.opposite_token_id)),
    ensures
        ({
            let uncovered = tracker.position(p.token_id) - tracker.position(p.opposite_token_id);
            let reached = bid >= p.take_profit_price || bid <= p.stop_loss_price;
            let v = hedge_monitor::verdict(p, asset, bid, tracker);
            &&& asset == p.token_id && reached && uncovered > 0 ==> v == Some(
                Verdict::<int>::Sell { amount: uncovered },
            )
            &&& !(asset == p.token_id && reached && uncovered > 0) ==> v == Some(Verdict::<int>::Keep)
        }),
{
    decimal::lemma_representable_exact(tracker.position(p.token_id) - tracker.position(p.opposite_token_id));
}

/// What an open order has not filled is placed anew at the next gain or loss: its pending shares. While the bid
/// is in between, or the other side covers the position, the open order is forgotten.
pub proof fn pending_shares_are_placed_anew(
    p: HedgePosition<int, Seq<char>>,
    bid: int,
    tracker: TrackerView,
)
    requires
        p.order_id is Some,
        p.order_id != Some("processing"@),
        p.pending_sell_amount > 0,
        decimal::representable(tracker.position(p.token_id) - tracker.position(p.opposite_token_id)),
    ensures
        ({
            let uncovered = tracker.position(p.token_id) - tracker.position(p.opposite_token_id);
            let reached = bid >= p.take_profit_price || bid <= p.stop_loss_price;
            let v = hedge_monitor::verdict(p, p.token_id, bid, tracker);
            &&& reached && uncovered > 0 ==> v == Some(Verdict::<int>::Sell { amount: p.pending_sell_amount })
            &&& !(reached && uncovered > 0) ==> v == Some(Verdict::<int>::Forget)
        }),
{
    decimal::lemma_representable_exact(tracker.position(p.token_id) - tracker.position(p.opposite_token_id));
}

/// A position with an order that is just being placed, or that is filled, is kept.
pub proof fn placed_order_is_left_alone(
    p: HedgePosition<int, Seq<char>>,
    asset: U256,
    bid: int,
    tracker: TrackerView,
)
    requires
        p.order_id is Some,
        p.order_id == Some("processing"@) || p.pending_sell_amount <= 0,
    ensures
        hedge_monitor::verdict(p, asset, bid, tracker) == Some(Verdict::<int>::Keep),
{
}

/// After a look, a position that is sold is marked as being placed, one whose order is forgotten has none, and
/// one that is kept is as it was. Its prices, its tokens and its pair do not change.
pub proof fn look_changes_the_order_only(
    p: HedgePosition<int, Seq<char>>,
    asset: U256,
    bid: int,
    tracker: TrackerView,
)
    ensures
        ({
            let after = hedge_monitor::after_look(p, asset, bid, tracker);
            let v = hedge_monitor::verdict(p, asset, bid, tracker);
            &&& v matches Some(Verdict::Sell { .. }) ==> after.order_id == Some("processing"@)
            &&& v matches Some(Verdict::Forget) ==> after.order_id is None
            &&& v matches Some(Verdict::Keep) ==> after == p
            &&& after.entry_price == p.entry_price
            &&& after.take_profit_price == p.take_profit_price
            &&& after.stop_loss_price == p.stop_loss_price
            &&& after.token_id == p.token_id
            &&& after.opposite_token_id == p.opposite_token_id
            &&& after.pair_id == p.pair_id
            &&& after.pending_sell_amount == p.pending_sell_amount
        }),
{
}

/// Each position that is to be sold adds one sale: under its pair, of its token, at the bid, with its entry
/// price and the shares of its verdict. The others add none.
pub proof fn each_verdict_is_carried_out(
    entries: Seq<(Seq<char>, HedgePosition<int, Seq<char>>)>,
    key: Seq<char>,
    p: HedgePosition<int, Seq<char>>,
    asset: U256,
    bid: int,
    tracker: TrackerView,
)
    ensures
        ({
            let before = hedge_monitor::sales_of(entries, asset, bid, tracker);
            let after = hedge_monitor::sales_of(entries.push((key, p)), asset, bid, tracker);
            match hedge_monitor::verdict(p, asset, bid, tracker) {
                Some(Verdict::Sell { amount }) => {
                    &&& after.len() == before.len() + 1
                    &&& after.drop_last() == before
                    &&& after.last().pair_id == key
                    &&& after.last().token_id == p.token_id
                    &&& after.last().entry_price == p.entry_price
                    &&& after.last().price == bid
                    &&& after.last().amount == amount
                },
                _ => after == before,
            }
        }),
        hedge_monitor::sales_of(seq![], asset, bid, tracker) == Seq::<Sale<int, Seq<char>>>::empty(),
{
    assert(entries.push((key, p)).drop_last() =~= entries);
    let before = hedge_monitor::sales_of(entries, asset, bid, tracker);
    let after = hedge_monitor::sales_of(entries.push((key, p)), asset, bid, tracker);
    if after.len() == before.len() + 1 {
        assert(after.drop_last() =~= before);
    }
}

/// The bid that counts is the last one of the book.
pub proof fn last_bid_counts(book: BookView)
    ensures
        hedge_monitor::last_bid(book) is Some <==> book.bids.len() > 0,
        book.bids.len() > 0 ==> hedge_monitor::last_bid(book) == Some(book.bids[book.bids.len() - 1].price),
{
}

/// While shares of an order are left, it stays open with as many; with none left there is no order.
pub proof fn rest_of_a_sale_is_kept(p: HedgePosition<int, Seq<char>>, order_id: Seq<char>, remaining: int)
    ensures
        ({
            let after = hedge_monitor::after_sale(p, order_id, remaining);
            &&& remaining > 0 ==> after.order_id == Some(order_id) && after.pending_sell_amount == remaining
            &&& remaining <= 0 ==> after.order_id is None && after.pending_sell_amount == 0
            &&& after.entry_price == p.entry_price
            &&& after.take_profit_price == p.take_profit_price
            &&& after.stop_loss_price == p.stop_loss_price
            &&& after.token_id == p.token_id
        }),
{
}

/// Shares that were sold leave the position; without any, nothing is booked.
pub proof fn sold_shares_leave_the_position(
    tracker: TrackerView,
    token: U256,
    entry_price: int,
    filled: int,
    other: U256,
)
    requires
        other != token,
        decimal::representable(tracker.position(token) - filled),
    ensures
        filled <= 0 ==> hedge_monitor::sold(tracker, token, entry_price, filled) == (tracker, true),
        filled > 0 ==> {
            let (after, _) = hedge_monitor::sold(tracker, token, entry_price, filled);
            let left = tracker.position(token) - filled;
            &&& after.position(token) == if -decimal::atoms(1, 4) < left < decimal::atoms(1, 4) {
                0
            } else {
                left
            }
            &&& after.position(other) == tracker.position(other)
            &&& after.cost(other) == tracker.cost(other)
            &&& left < decimal::atoms(1, 4) && left > -decimal::atoms(1, 4) ==> after.cost(token) == 0
                && hedge_monitor::sold(tracker, token, entry_price, filled).1
        },
{
    decimal::lemma_representable_exact(tracker.position(token) - filled);
    let left = tracker.position(token) - filled;
    if filled > 0 && -decimal::atoms(1, 4) < left < decimal::atoms(1, 4) {
        let t = tracker.update_position(token, -filled)->0;
        super::positions::full_sale_clears_cost(t, token, entry_price, filled);
    }
}

/// Of an amount, what the fee (in percent) leaves is sold, in whole hundredths of a share and no less than one.
pub proof fn fee_is_taken_off(fee: int, amount: int, rest: int)
    requires
        0 <= fee < 100 * decimal::one(),
        fee % 100 == 0,
        amount >= 0,
        rest * (100 * decimal::one()) == amount * (100 * decimal::one() - fee),
        decimal::representable(rest),
        hedge_monitor::order_size_after_fee(fee, amount) is Some,
    ensures
        ({
            let size = hedge_monitor::order_size_after_fee(fee, amount)->0;
            let cent = decimal::atoms(1, 2);
            &&& rest >= cent ==> size <= rest < size + cent && size % cent == 0
            &&& rest < cent ==> size == cent
        }),
{
    let one = decimal::one();
    let hundred = decimal::atoms(1000, 1);
    assert(hundred == 100 * one);
    let d = hundred - fee;
    let f = d / 100;
    assert(d == 100 * f && 0 <= f <= one) by (nonlinear_arith)
        requires
            d == 100 * one - fee,
            fee % 100 == 0,
            0 <= fee < 100 * one,
            f == d / 100,
    ;
    assert(decimal::representable(d)) by {
        assert(d == f * decimal::pow10(2));
    }
    decimal::lemma_representable_exact(d);
    assert(d * one == f * hundred) by (nonlinear_arith)
        requires
            d == 100 * f,
            hundred == 100 * one,
    ;
    decimal::lemma_nearest_scaled(f, hundred, 0);
    decimal::lemma_small_exact(f);
    assert(amount * f == rest * one) by (nonlinear_arith)
        requires
            rest * (100 * one) == amount * d,
            d == 100 * f,
    ;
    decimal::lemma_nearest_scaled(rest, one, 0);
    decimal::lemma_representable_exact(rest);
    let cent = decimal::pow10(26);
    assert(rest >= 0) by (nonlinear_arith)
        requires
            amount * f == rest * one,
            amount >= 0,
            f >= 0,
            one > 0,
    ;
    let q = rest / cent;
    assert(q * cent <= rest < q * cent + cent && (q * cent) % cent == 0 && (rest >= cent ==> q * cent > 0) && (rest
        < cent ==> q == 0)) by (nonlinear_arith)
        requires
            cent > 0,
            rest >= 0,
            q == rest / cent,
    ;
}

} // verus!
