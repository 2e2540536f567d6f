//! What holds of the tracked shares and costs: a purchase adds what it costs, a sale takes off its part, and the
//! exposure is held against the limit as it is.
use vstd::prelude::*;

use crate::decimal;
use crate::positions::Position;
use crate::types::U256;

use super::positions;
use super::positions::TrackerView;
use super::token_amounts;

verus! {

/// A purchase adds its price for each share to the cost of its token, whatever is held; only a cost below one
/// cent is not kept.
pub proof fn purchase_adds_its_cost(tracker: TrackerView, token: U256, price: int, bought: int, paid: int)
    requires
        bought > 0,
        price * bought == paid * decimal::one(),
        decimal::representable(paid),
        decimal::representable(tracker.cost(token) + paid),
    ensures
        tracker.update_exposure_cost(token, price, bought) matches Some(after) && {
            let cost = tracker.cost(token) + paid;
            &&& after.cost(token) == if cost < decimal::atoms(1, 2) {
                0
            } else {
                cost
            }
            &&& after.positions == tracker.positions
            &&& after.max_exposure == tracker.max_exposure
        },
{
    decimal::lemma_nearest_scaled(paid, decimal::one(), 0);
    decimal::lemma_representable_exact(paid);
    decimal::lemma_representable_exact(tracker.cost(token) + paid);
}

/// A sale of a part of what is held leaves the rest of the cost in the same proportion, whatever the price: of
/// `held` shares `sold` go, so that of the cost `left` stays, with `left / cost == (held - sold) / held`.
pub proof fn sale_leaves_its_part(
    tracker: TrackerView,
    token: U256,
    price: int,
    sold: int,
    share: int,
    left: int,
)
    requires
        0 < sold <= tracker.position(token),
        share * tracker.position(token) == sold * decimal::one(),
        left * decimal::one() == tracker.cost(token) * (decimal::one() - share),
        tracker.cost(token) >= 0,
        decimal::representable(left),
    ensures
        tracker.update_exposure_cost(token, price, -sold) matches Some(after) && after.cost(token) == if left
            < decimal::atoms(1, 2) {
            0
        } else {
            left
        },
        left * tracker.position(token) == tracker.cost(token) * (tracker.position(token) - sold),
{
    let one = decimal::one();
    let held = tracker.position(token);
    let cost = tracker.cost(token);
    assert(0 <= share <= one) by (nonlinear_arith)
        requires
            0 < sold <= held,
            share * held == sold * one,
            one > 0,
    ;
    decimal::lemma_nearest_scaled(share, held, 0);
    decimal::lemma_small_exact(share);
    decimal::lemma_small_exact(one - share);
    assert(decimal::quotient(sold, held) == Some(share));
    decimal::lemma_nearest_scaled(left, one, 0);
    decimal::lemma_representable_exact(left);
    assert(left >= 0) by (nonlinear_arith)
        requires
            left * one == cost * (one - share),
            cost >= 0,
            share <= one,
            one > 0,
    ;
    assert(left * held == cost * (held - sold)) by (nonlinear_arith)
        requires
            left * one == cost * (one - share),
            share * held == sold * one,
            one > 0,
    ;
}

/// The price of a sale does not matter to the cost that is left.
pub proof fn sale_price_does_not_matter(tracker: TrackerView, token: U256, price: int, other: int, sold: int)
    requires
        sold > 0,
    ensures
        tracker.update_exposure_cost(token, price, -sold) == tracker.update_exposure_cost(token, other, -sold),
{
}

/// Shares that come or go change the position by as many. A position of less than 0.0001, up or down, is none,
/// and then its cost is gone; else the cost stays. Other tokens are as they were.
pub proof fn shares_add_up(tracker: TrackerView, token: U256, delta: int, other: U256)
    requires
        decimal::representable(tracker.position(token) + delta),
        other != token,
    ensures
        tracker.update_position(token, delta) matches Some(after) && {
            let p = tracker.position(token) + delta;
            let gone = -decimal::atoms(1, 4) < p < decimal::atoms(1, 4);
            &&& after.position(token) == if gone {
                0
            } else {
                p
            }
            &&& gone ==> after.cost(token) == 0
            &&& !gone ==> after.cost(token) == tracker.cost(token)
            &&& after.position(other) == tracker.position(other)
            &&& after.cost(other) == tracker.cost(other)
            &&& after.max_exposure == tracker.max_exposure
        },
{
    decimal::lemma_representable_exact(tracker.position(token) + delta);
}

/// An order is over the limit where the exposure and both its costs together are more than the limit.
pub proof fn limit_is_on_the_sum(exposure: int, yes_cost: int, no_cost: int, limit: int)
    requires
        decimal::representable(yes_cost + no_cost),
        decimal::representable(exposure + yes_cost + no_cost),
    ensures
        positions::exceeds(Some(exposure), yes_cost, no_cost, limit) == Some(
            exposure + yes_cost + no_cost > limit,
        ),
{
    decimal::lemma_representable_exact(yes_cost + no_cost);
    decimal::lemma_representable_exact(exposure + (yes_cost + no_cost));
}

/// A token counts with the shares that the exchange reported for it last; a position without shares is none.
pub proof fn reported_position_counts(
    reported: Seq<Position<int, Seq<char>>>,
    p: Position<int, Seq<char>>,
    token: U256,
)
    ensures
        positions::amount_or_zero(positions::reported_shares(reported.push(p)), token) == if p.asset == token {
            p.size
        } else {
            positions::amount_or_zero(positions::reported_shares(reported), token)
        },
        positions::amount_or_zero(
            positions::reported_shares(Seq::<Position<int, Seq<char>>>::empty()),
            token,
        ) == 0,
{
    assert(reported.push(p).drop_last() =~= reported);
}

/// A sync takes the shares from the exchange and leaves the costs and the limit alone; a reset takes the costs
/// and leaves the shares and the limit alone.
pub proof fn sync_and_reset_touch_one_thing(
    tracker: TrackerView,
    reported: Seq<Position<int, Seq<char>>>,
    token: U256,
)
    ensures
        tracker.synced(reported).cost(token) == tracker.cost(token),
        tracker.synced(reported).max_exposure == tracker.max_exposure,
        tracker.synced(reported).positions == positions::reported_shares(
            reported.filter(|p: Position<int, Seq<char>>| p.size > 0),
        ),
        tracker.reset_exposure().position(token) == tracker.position(token),
        tracker.reset_exposure().cost(token) == 0,
        tracker.reset_exposure().max_exposure == tracker.max_exposure,
{
}

/// The imbalance of a pair is how far its sides are apart, over all that is held of both; which side is which
/// does not matter.
pub proof fn imbalance_is_the_distance(tracker: TrackerView, yes_token: U256, no_token: U256)
    requires
        tracker.position(yes_token) >= 0,
        tracker.position(no_token) >= 0,
        tracker.position(yes_token) + tracker.position(no_token) > 0,
        decimal::representable(tracker.position(yes_token) + tracker.position(no_token)),
        decimal::representable(tracker.position(yes_token) - tracker.position(no_token)),
    ensures
        tracker.imbalance(no_token, yes_token) == tracker.imbalance(yes_token, no_token),
        tracker.imbalance(yes_token, no_token) matches Some(q) && {
            let (yes, no) = (tracker.position(yes_token), tracker.position(no_token));
            2 * decimal::abs_of(q * (yes + no) - decimal::abs_of(yes - no) * decimal::one()) <= yes + no
        },
{
    let (yes, no) = (tracker.position(yes_token), tracker.position(no_token));
    let one = decimal::one();
    let both = yes + no;
    decimal::lemma_representable_exact(both);
    decimal::lemma_representable_exact(yes - no);
    decimal::lemma_nearest_negated(yes - no, 1, 0);
    let apart = decimal::abs_of(yes - no);
    assert(0 <= apart * one <= one * both) by (nonlinear_arith)
        requires
            0 <= apart <= both,
            one > 0,
    ;
    assert(one * both <= decimal::MAX_MANTISSA * both && -decimal::MAX_MANTISSA * both <= 0) by (nonlinear_arith)
        requires
            both > 0,
            one <= decimal::MAX_MANTISSA,
    ;
    decimal::lemma_nearest_fine(apart * one, both);
    decimal::lemma_nearest_error(apart * one, both, 0);
    assert(both * decimal::step(apart * one, both) == both);
}

/// With one cost the exposure is that cost.
pub proof fn exposure_of_one_cost(tracker: TrackerView, token: U256, cost: int, e: Option<int>)
    requires
        tracker.costs == Map::<U256, int>::empty().insert(token, cost),
        decimal::representable(cost),
        tracker.may_have_exposure(e),
    ensures
        e == Some(cost),
{
    let m = tracker.costs;
    let values = choose|values: Seq<int>| #[trigger]
        token_amounts::lists_values(m, values) && e == decimal::total(values);
    let keys = choose|keys: Seq<U256>|
        {
            &&& #[trigger] keys.no_duplicates()
            &&& keys.to_set() == m.dom()
            &&& values == keys.map_values(|key: U256| m[key])
        };
    assert(m.dom().contains(token));
    assert(keys.to_set().contains(token));
    assert(keys.contains(token));
    assert forall|i: int| 0 <= i < keys.len() implies keys[i] == token by {
        assert(keys.to_set().contains(keys[i]));
    }
    assert(keys.len() == 1) by {
        if keys.len() > 1 {
            assert(keys[0] == token && keys[1] == token);
        }
    }
    assert(values[0] == cost);
    reveal_with_fuel(decimal::total, 3);
    assert(values.drop_last() =~= seq![]);
    decimal::lemma_representable_exact(cost);
}

/// With nothing held on either side there is no imbalance.
pub proof fn nothing_held_is_balanced(tracker: TrackerView, yes_token: U256, no_token: U256)
    requires
        tracker.position(yes_token) == 0,
        tracker.position(no_token) == 0,
    ensures
        tracker.imbalance(yes_token, no_token) == Some(0int),
{
    decimal::lemma_small_exact(0);
}

/// Where nothing is held, a trade that adds nothing leaves no cost.
pub proof fn no_cost_without_shares(cost: int, held: int, price: int, delta: int)
    requires
        held <= 0,
        delta <= 0,
    ensures
        positions::cost_after(cost, held, price, delta) == Some(0int),
{
}

} // verus!
