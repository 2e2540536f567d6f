//! What holds of winding down: when it starts, what it sells and at which price, and that it leaves nothing out.
use vstd::prelude::*;

use crate::decimal;
use crate::merge::MergeInfo;
use crate::positions::Position;
use crate::time::Now;
use crate::wind_down;
use crate::wind_down::{SellOrder, WindDownAction, WindDownPhase, WindDownView};

verus! {

/// What an event leads to keeps the price and the address, and sells at no other price.
pub open spec fn keeps_price(w: WindDownView, next: (WindDownView, WindDownAction<int>)) -> bool {
    &&& next.0.sell_price == w.sell_price
    &&& next.0.has_proxy == w.has_proxy
    &&& next.1 matches WindDownAction::Sell { price, .. } ==> price == w.sell_price
}

/// Every order to sell, whatever leads to it, carries the price that the wind-down was started with.
pub proof fn sells_at_the_set_price(
    w: WindDownView,
    success: bool,
    infos: Option<Seq<MergeInfo<int>>>,
    orders: Option<Seq<SellOrder<int>>>,
)
    ensures
        keeps_price(w, w.cancelled()),
        keeps_price(w, w.woke()),
        keeps_price(w, w.merges_known(infos)),
        keeps_price(w, w.merge_answered(success)),
        keeps_price(w, w.sales_known(orders)),
        keeps_price(w, w.sold()),
{
}

/// Orders are sold once they are known, and only then.
pub proof fn sells_only_what_is_known(w: WindDownView, success: bool, infos: Option<Seq<MergeInfo<int>>>)
    ensures
        w.cancelled().1 !is Sell,
        w.woke().1 !is Sell,
        w.merges_known(infos).1 !is Sell,
        w.merge_answered(success).1 !is Sell,
{
}

/// What is done, and where it stands, after so many orders were sold or not.
pub open spec fn after_sales(w: WindDownView, orders: Seq<SellOrder<int>>, n: nat) -> (
    WindDownView,
    WindDownAction<int>,
)
    decreases n,
{
    if n == 0 {
        w.sales_known(Some(orders))
    } else {
        after_sales(w, orders, (n - 1) as nat).0.sold()
    }
}

/// All orders are sold, one after the other and each once, and then it is over.
pub proof fn sells_all_in_turn(w: WindDownView, orders: Seq<SellOrder<int>>, n: nat)
    requires
        w.phase is FetchingToSell,
        n <= orders.len() <= usize::MAX,
    ensures
        n < orders.len() ==> after_sales(w, orders, n).1 == (WindDownAction::Sell {
            order: orders[n as int],
            price: w.sell_price,
        }),
        n == orders.len() ==> after_sales(w, orders, n).1 is Done && after_sales(w, orders, n).0.phase is Over,
        n < orders.len() ==> after_sales(w, orders, n).0.phase == (WindDownPhase::Selling { at: n as usize }),
        n < orders.len() ==> after_sales(w, orders, n).0.orders == orders,
        after_sales(w, orders, n).0.sell_price == w.sell_price,
    decreases n,
{
    if n > 0 {
        sells_all_in_turn(w, orders, (n - 1) as nat);
    }
}

/// One more position adds one order, for all its whole hundredths of shares, where it has at least one; else
/// it adds none.
pub proof fn each_position_is_sold(
    positions: Seq<Position<int, Seq<char>>>,
    p: Position<int, Seq<char>>,
)
    requires
        wind_down::sales(positions) is Some,
        wind_down::sales(positions.push(p)) is Some,
    ensures
        ({
            let before = wind_down::sales(positions)->0;
            let after = wind_down::sales(positions.push(p))->0;
            let cent = decimal::atoms(1, 2);
            &&& p.size < cent ==> after == before
            &&& p.size >= cent ==> {
                &&& after.len() == before.len() + 1
                &&& after.drop_last() == before
                &&& after.last().token_id == p.asset
                &&& after.last().size <= p.size < after.last().size + cent
                &&& after.last().size % cent == 0
            }
        }),
        wind_down::sales(seq![]) == Some(Seq::<SellOrder<int>>::empty()),
{
    let all = positions.push(p);
    let cent = decimal::atoms(1, 2);
    assert(all.drop_last() =~= positions);
    assert(cent == decimal::pow10(26));
    let q = p.size / cent;
    assert(q * cent <= p.size < q * cent + cent && (q * cent) % cent == 0 && (p.size >= cent ==> q >= 1) && (0 < p.size
        < cent ==> q == 0)) by (nonlinear_arith)
        requires
            cent > 0,
            q == p.size / cent,
    ;
    assert(q >= 1 ==> q * cent >= cent) by (nonlinear_arith)
        requires
            cent > 0,
    ;
    let after = wind_down::sales(all)->0;
    if p.size >= cent {
        assert(after.drop_last() =~= wind_down::sales(positions)->0);
    }
}

/// It is time to wind down in the last minutes that are set, and not before; with zero minutes it never is.
pub proof fn due_in_the_last_minutes(minutes: u64, window_end: i64, now: Now)
    requires
        minutes <= 1_000_000_000,
    ensures
        wind_down::due(minutes, window_end, now) == Some(
            minutes > 0 && window_end - now.utc < (minutes * 60 + 1) * 1_000_000_000,
        ),
{
}

/// After the cancellation ten seconds pass; then, with a known address, the positions are asked for.
pub proof fn cancels_first(w: WindDownView)
    requires
        w.phase is Cancelling,
    ensures
        w.cancelled().1 == (WindDownAction::<int>::Sleep { secs: 10 }),
        w.has_proxy ==> w.cancelled().0.woke().1 is FetchPositions,
        !w.has_proxy ==> w.cancelled().0.woke().1 is Done,
{
}

/// The markets that can be merged are merged one after the other, half a minute apart, whether or not a merge
/// succeeds. When all are through, the positions are asked for: at once where no market was merged, and half a
/// minute later where one was.
pub proof fn merges_all_in_turn(w: WindDownView, at: usize, merged_any: bool, success: bool)
    requires
        w.phase == (WindDownPhase::Merging { at, merged_any }),
        at < w.queue.len() <= usize::MAX,
    ensures
        ({
            let (next, action) = w.merge_answered(success);
            let merged = merged_any || success;
            &&& at + 1 < w.queue.len() ==> {
                &&& action == (WindDownAction::<int>::Sleep { secs: 30 })
                &&& next.woke().1 == (WindDownAction::<int>::Merge {
                    condition_id: w.queue[at + 1].condition_id,
                })
                &&& next.woke().0.phase == (WindDownPhase::Merging { at: (at + 1) as usize, merged_any: merged })
                &&& next.woke().0.queue == w.queue
            }
            &&& at + 1 == w.queue.len() && merged ==> {
                &&& action == (WindDownAction::<int>::Sleep { secs: 30 })
                &&& next.woke().1 is FetchPositions
                &&& next.woke().0.phase is FetchingToSell
            }
            &&& at + 1 == w.queue.len() && !merged ==> action is FetchPositions && next.phase is FetchingToSell
        }),
{
}

/// The first market of the queue is merged as soon as it is known; with none, or where the positions could not
/// be had, the positions are asked for again, to sell.
pub proof fn merges_from_the_first(w: WindDownView, infos: Option<Seq<MergeInfo<int>>>)
    requires
        w.phase is FetchingToMerge,
    ensures
        ({
            let (next, action) = w.merges_known(infos);
            &&& (infos matches Some(queue) && queue.len() > 0) ==> {
                &&& action == (WindDownAction::<int>::Merge { condition_id: (infos->0)[0].condition_id })
                &&& next.queue == infos->0
                &&& next.phase == (WindDownPhase::Merging { at: 0, merged_any: false })
            }
            &&& !(infos matches Some(queue) && queue.len() > 0) ==> action is FetchPositions && next.phase
                is FetchingToSell
        }),
{
}

/// Only a merge that succeeded is booked, and it is booked for the market that was merged.
pub proof fn failed_merge_is_not_booked(w: WindDownView, tracker: crate::risk::positions::TrackerView)
    ensures
        w.booked(false, tracker) == (tracker, true),
        w.phase matches WindDownPhase::Merging { at, .. } ==> w.booked(true, tracker) == crate::merge::merged(
            tracker,
            w.queue[at as int],
        ),
{
}

} // verus!
