//! What becomes of the actions of a strategy: which orders are sent, which are blocked, and what is booked.
use vstd::prelude::*;

use crate::decimal;
use crate::monitor::ArbitrageOpportunity;
use crate::risk::positions::TrackerView;
use crate::types::U256;

use super::action_executor;
use super::action_executor::Step;
use super::Action;

verus! {

/// An order to buy is sent where its cost keeps the exposure within the limit, and blocked where it does not. It
/// is for the token, the size and the price that were asked for, the price in whole cents. Nothing is booked
/// yet.
pub proof fn order_is_sent_within_the_limit(
    dry_run: bool,
    token_id: U256,
    price: int,
    size: int,
    tracker: TrackerView,
    exposure: int,
    cost: int,
)
    requires
        0 <= price <= decimal::one(),
        decimal::product(action_executor::tick_price(price), size) == Some(cost),
        decimal::representable(exposure + cost),
    ensures
        action_executor::step_for(
            dry_run,
            Action::PostLimitOrder { token_id, price, size },
            tracker,
            Some(exposure),
        ) matches Some((step, after)) && {
            let within = exposure + cost <= tracker.max_exposure;
            &&& after == tracker
            &&& !within ==> (step matches Step::Blocked { order, cost: c, current, max } && c == cost && current
                == exposure && max == tracker.max_exposure && order.token_id == token_id && order.size == size
                && order.raw_price == price)
            &&& within && dry_run ==> (step matches Step::DryRunPost { order, cost: c } && c == cost
                && order.token_id == token_id && order.size == size && order.price
                == action_executor::tick_price(price))
            &&& within && !dry_run ==> (step matches Step::Post { order } && order.token_id == token_id
                && order.size == size && order.raw_price == price && order.price
                == action_executor::tick_price(price))
        },
{
    decimal::lemma_representable_exact(exposure + cost);
    lemma_hundredfold(price);
}

/// An order's price is in whole cents: the highest that is not above the price that was asked for, but at least
/// one cent and at most one dollar.
pub proof fn price_is_in_whole_cents(price: int)
    ensures
        ({
            let cent = decimal::pow10(26);
            let tick = action_executor::tick_price(price);
            &&& 100 * cent == decimal::one()
            &&& tick % cent == 0
            &&& cent <= tick <= 100 * cent
            &&& cent <= price <= 100 * cent ==> tick <= price < tick + cent
            &&& price < cent ==> tick == cent
            &&& price > 100 * cent ==> tick == 100 * cent
        }),
{
    let cent = decimal::pow10(26);
    let q = price / cent;
    assert(q * cent <= price < q * cent + cent && (q * cent) % cent == 0 && (price < cent ==> q * cent <= 0)
        && (price >= cent ==> q * cent >= cent) && (price > 100 * cent ==> q * cent >= 100 * cent)) by (nonlinear_arith)
        requires
            cent == 100_000_000_000_000_000_000_000_000int,
            q == price / cent,
    ;
    assert(cent % cent == 0 && (100 * cent) % cent == 0) by (nonlinear_arith)
        requires
            cent > 0,
    ;
}

/// What is tracked after several actions is what each leaves, one upon the other.
pub proof fn actions_are_tracked_in_turn(
    dry_run: bool,
    actions: Seq<Action<int, Seq<char>>>,
    action: Action<int, Seq<char>>,
    tracker: TrackerView,
)
    ensures
        action_executor::tracked_after_all(dry_run, actions.push(action), tracker) == action_executor::tracked_after(
            dry_run,
            action,
            action_executor::tracked_after_all(dry_run, actions, tracker),
        ),
        action_executor::tracked_after_all(dry_run, Seq::<Action<int, Seq<char>>>::empty(), tracker) == tracker,
        !(action is PlaceArbPair) ==> action_executor::tracked_after(dry_run, action, tracker) == tracker,
        dry_run ==> action_executor::tracked_after(dry_run, action, tracker) == tracker,
{
    assert(actions.push(action).drop_last() =~= actions);
}

/// A hundred times a price of at most one is in range.
proof fn lemma_hundredfold(price: int)
    requires
        0 <= price <= decimal::one(),
    ensures
        decimal::nearest(100 * price, 1) is Some,
{
    // At the step of 100 atoms the mantissa fits.
    lemma_fits_from(100 * price, 0);
}

/// A number of at most a hundred is in range.
proof fn lemma_fits_from(n: int, k: int)
    requires
        0 <= k <= 2,
        0 <= n <= 100 * decimal::one(),
    ensures
        decimal::nearest_from(n, 1, k) is Some,
    decreases 2 - k,
{
    let p = decimal::pow10(k);
    let q = decimal::round_half_even(n, 1 * p);
    if !(-decimal::MAX_MANTISSA <= q <= decimal::MAX_MANTISSA) {
        if k < 2 {
            lemma_fits_from(n, k + 1);
        } else {
            assert(0 <= n / p <= decimal::one()) by (nonlinear_arith)
                requires
                    p == 100,
                    0 <= n <= 100 * decimal::one(),
            ;
        }
    }
}

/// All open orders are cancelled when that is asked for, and in a dry run that is only noted; what is passed
/// over leads to nothing.
pub proof fn cancellations_and_skips(dry_run: bool, tracker: TrackerView, exposure: Option<int>)
    ensures
        action_executor::step_for(dry_run, Action::CancelAll, tracker, exposure) == Some(
            (
                if dry_run {
                    Step::<int, Seq<char>>::DryRunCancel
                } else {
                    Step::<int, Seq<char>>::Cancel
                },
                tracker,
            ),
        ),
        forall|reason: super::SkipReason<int, Seq<char>>| #[trigger]
            action_executor::step_for(dry_run, Action::Skip { reason }, tracker, exposure) == Some(
                (Step::<int, Seq<char>>::Pass { reason }, tracker),
            ),
{
}

/// A pair is booked before it is sent: the cost of each token grows by its own ask times the smaller of both
/// offers, and no other cost changes. In a dry run it is only noted, with both costs together.
pub proof fn pair_is_booked_before_it_is_sent(
    opp: ArbitrageOpportunity<int>,
    yes_dir: Seq<char>,
    no_dir: Seq<char>,
    tracker: TrackerView,
    exposure: Option<int>,
    size: int,
    yes_paid: int,
    no_paid: int,
    other: U256,
)
    requires
        opp.yes_token_id != opp.no_token_id,
        other != opp.yes_token_id,
        other != opp.no_token_id,
        0 < size,
        size <= opp.yes_size && size <= opp.no_size,
        size == opp.yes_size || size == opp.no_size,
        decimal::product(opp.yes_ask_price, size) == Some(yes_paid),
        decimal::product(opp.no_ask_price, size) == Some(no_paid),
        decimal::representable(yes_paid + no_paid),
        decimal::representable(tracker.cost(opp.yes_token_id) + yes_paid),
        decimal::representable(tracker.cost(opp.no_token_id) + no_paid),
        tracker.cost(opp.yes_token_id) + yes_paid >= decimal::atoms(1, 2),
        tracker.cost(opp.no_token_id) + no_paid >= decimal::atoms(1, 2),
    ensures
        action_executor::step_for(false, Action::PlaceArbPair { opp, yes_dir, no_dir }, tracker, exposure) matches Some(
            (step, after),
        ) && {
            &&& step == (Step::<int, Seq<char>>::SubmitPair { opp, size, yes_dir, no_dir })
            &&& after.cost(opp.yes_token_id) == tracker.cost(opp.yes_token_id) + yes_paid
            &&& after.cost(opp.no_token_id) == tracker.cost(opp.no_token_id) + no_paid
            &&& after.cost(other) == tracker.cost(other)
            &&& after.positions == tracker.positions
            &&& after == action_executor::tracked_after(
                false,
                Action::PlaceArbPair { opp, yes_dir, no_dir },
                tracker,
            )
        },
        action_executor::step_for(true, Action::PlaceArbPair { opp, yes_dir, no_dir }, tracker, exposure) == Some(
            (Step::<int, Seq<char>>::DryRunPair { opp, size, cost: yes_paid + no_paid }, tracker),
        ),
{
    decimal::lemma_representable_exact(yes_paid + no_paid);
    decimal::lemma_representable_exact(tracker.cost(opp.yes_token_id) + yes_paid);
    decimal::lemma_representable_exact(tracker.cost(opp.no_token_id) + no_paid);
}

} // verus!
