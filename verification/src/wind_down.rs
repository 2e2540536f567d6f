//! Winding down before a window ends: cancel all orders, merge what can be merged, sell the rest.
use vstd::prelude::*;

use crate::decimal;
use crate::decimal::{floor_to_hundredth, Decimal};
use crate::merge;
use crate::merge::{book_merge, merge_info_with_both_sides, MergeInfo};
use crate::positions;
use crate::positions::Position;
use crate::risk::positions::{PositionTracker, TrackerView};
use crate::time;
use crate::time::{seconds_between, Now};
use crate::types::{B256, U256};

verus! {

/// Seconds between two merges, and between the last merge and the sales.
pub const MERGE_INTERVAL: u64 = 30;

/// Seconds between the cancellation and the first merge.
pub const DELAY_AFTER_CANCEL: u64 = 10;

/// Whether it is time to wind down: so many minutes before the end of the window, or fewer; zero minutes
/// for never. `None` where the seconds are out of range.
pub open spec fn due(minutes: u64, window_end: i64, now: Now) -> Option<bool> {
    let limit = (minutes as i64) * 60;
    if minutes == 0 {
        Some(false)
    } else if limit < i64::MIN || limit > i64::MAX {
        None
    } else {
        Some(time::whole_secs(window_end - now.utc) <= limit)
    }
}

/// Whether it is time to wind down. `None` where the seconds are out of range.
pub fn is_due(minutes: u64, window_end: i64, now: Now) -> (r: Option<bool>)
    ensures
        r == due(minutes, window_end, now),
{
    if minutes == 0 {
        return Some(false);
    }
    let limit = (minutes as i64).checked_mul(60)?;
    Some(seconds_between(window_end, now.utc) <= limit)
}

/// Shares of a token that are sold.
#[derive(Clone, Copy, Debug)]
pub struct SellOrder<D = Decimal> {
    pub token_id: U256,
    pub size: D,
}

impl View for SellOrder<Decimal> {
    type V = SellOrder<int>;

    open spec fn view(&self) -> SellOrder<int> {
        SellOrder { token_id: self.token_id, size: self.size@ }
    }
}

/// The orders, with the numbers in atoms.
pub open spec fn order_views(orders: Seq<SellOrder>) -> Seq<SellOrder<int>> {
    orders.map_values(|o: SellOrder| o@)
}

/// What is sold of the positions: of each its whole hundredths, where there is at least one. `None`
/// where a hundred times a size is out of range.
pub open spec fn sales(positions: Seq<Position<int, Seq<char>>>) -> Option<Seq<SellOrder<int>>>
    decreases positions.len(),
{
    if positions.len() == 0 {
        Some(seq![])
    } else {
        let p = positions.last();
        match sales(positions.drop_last()) {
            None => None,
            Some(before) => if p.size <= 0 {
                Some(before)
            } else if decimal::nearest(100 * p.size, 1) is None {
                None
            } else if decimal::whole_cents(p.size) < decimal::atoms(1, 2) {
                Some(before)
            } else {
                Some(
                    before.push(SellOrder { token_id: p.asset, size: decimal::whole_cents(p.size) }),
                )
            },
        }
    }
}

/// What is sold of the positions: of each its whole hundredths, where there is at least one. `None`
/// where a hundred times a size is out of range.
pub fn sell_orders(positions: &Vec<Position>) -> (r: Option<Vec<SellOrder>>)
    ensures
        (match r {
            Some(orders) => Some(order_views(orders@)),
            None => None,
        }) == sales(positions::position_views(positions@)),
{
    let ghost all = positions::position_views(positions@);
    let mut orders: Vec<SellOrder> = Vec::new();
    let mut i: usize = 0;
    assert(order_views(orders@) =~= seq![]);
    while i < positions.len()
        invariant
            i <= positions@.len(),
            all == positions::position_views(positions@),
            sales(all.take(i as int)) == Some(order_views(orders@)),
        decreases positions@.len() - i,
    {
        let p = &positions[i];
        let ghost before = order_views(orders@);
        assert(all.take(i + 1).drop_last() =~= all.take(i as int));
        assert(all.take(i + 1).last() == p@);
        if p.size > Decimal::zero() {
            let size = match floor_to_hundredth(p.size) {
                Some(size) => size,
                None => {
                    proof {
                        lemma_sales_none(all, i + 1);
                    }
                    return None;
                },
            };
            if size >= Decimal::new(1, 2) {
                let order = SellOrder { token_id: p.asset, size };
                orders.push(order);
                assert(order_views(orders@) =~= before.push(order@));
            }
        }
        i += 1;
    }
    assert(all.take(positions@.len() as int) =~= all);
    Some(orders)
}

/// Where the first positions are out of range, all of them are.
proof fn lemma_sales_none(positions: Seq<Position<int, Seq<char>>>, n: int)
    requires
        0 <= n <= positions.len(),
        sales(positions.take(n)) is None,
    ensures
        sales(positions) is None,
    decreases positions.len() - n,
{
    if n == positions.len() {
        assert(positions.take(n) =~= positions);
    } else {
        assert(positions.take(n + 1).drop_last() =~= positions.take(n));
        lemma_sales_none(positions, n + 1);
    }
}

/// What is done next.
#[derive(Clone, Copy, Debug)]
pub enum WindDownAction<D = Decimal> {
    /// All open orders are cancelled.
    CancelOrders,
    /// A wait.
    Sleep { secs: u64 },
    /// The positions are asked for.
    FetchPositions,
    /// A market is merged.
    Merge { condition_id: B256 },
    /// Shares are sold.
    Sell { order: SellOrder<D>, price: D },
    /// It is over.
    Done,
    /// Nothing: the event does not belong here.
    Ignore,
}

impl View for WindDownAction<Decimal> {
    type V = WindDownAction<int>;

    open spec fn view(&self) -> WindDownAction<int> {
        match *self {
            WindDownAction::CancelOrders => WindDownAction::CancelOrders,
            WindDownAction::Sleep { secs } => WindDownAction::Sleep { secs },
            WindDownAction::FetchPositions => WindDownAction::FetchPositions,
            WindDownAction::Merge { condition_id } => WindDownAction::Merge { condition_id },
            WindDownAction::Sell { order, price } => WindDownAction::Sell { order: order@, price: price@ },
            WindDownAction::Done => WindDownAction::Done,
            WindDownAction::Ignore => WindDownAction::Ignore,
        }
    }
}

/// Where it stands.
#[derive(Clone, Copy, Debug, PartialEq, Eq, Structural)]
pub enum WindDownPhase {
    /// The orders are being cancelled.
    Cancelling,
    /// A wait, until the cancellation shows in the positions.
    Settling,
    /// Waiting for the positions to merge.
    FetchingToMerge,
    /// Merging the market at this place of the queue; some market was merged before, or not.
    Merging { at: usize, merged_any: bool },
    /// Waiting before the market at this place of the queue.
    Pausing { next: usize, merged_any: bool },
    /// A wait, until the merges show in the positions.
    BeforeSales,
    /// Waiting for the positions to sell.
    FetchingToSell,
    /// Selling the shares at this place of the list.
    Selling { at: usize },
    /// Over.
    Over,
}

/// A wind-down, with the numbers in atoms.
#[verifier::ext_equal]
pub struct WindDownView {
    /// The wallet's address is known.
    pub has_proxy: bool,
    pub sell_price: int,
    pub phase: WindDownPhase,
    pub queue: Seq<MergeInfo<int>>,
    pub orders: Seq<SellOrder<int>>,
}

impl WindDownView {
    pub open spec fn at(self, phase: WindDownPhase, action: WindDownAction<int>) -> (
        WindDownView,
        WindDownAction<int>,
    ) {
        (WindDownView { phase, ..self }, action)
    }

    /// The orders are cancelled, or could not be: either way it goes on.
    pub open spec fn cancelled(self) -> (WindDownView, WindDownAction<int>) {
        match self.phase {
            WindDownPhase::Cancelling => self.at(
                WindDownPhase::Settling,
                WindDownAction::Sleep { secs: DELAY_AFTER_CANCEL },
            ),
            _ => (self, WindDownAction::Ignore),
        }
    }

    /// The wait is over. Without an address nothing is merged or sold.
    pub open spec fn woke(self) -> (WindDownView, WindDownAction<int>) {
        match self.phase {
            WindDownPhase::Settling => if self.has_proxy {
                self.at(WindDownPhase::FetchingToMerge, WindDownAction::FetchPositions)
            } else {
                self.at(WindDownPhase::Over, WindDownAction::Done)
            },
            WindDownPhase::Pausing { next, merged_any } => self.at(
                WindDownPhase::Merging { at: next, merged_any },
                WindDownAction::Merge { condition_id: self.queue[next as int].condition_id },
            ),
            WindDownPhase::BeforeSales => self.at(
                WindDownPhase::FetchingToSell,
                WindDownAction::FetchPositions,
            ),
            _ => (self, WindDownAction::Ignore),
        }
    }

    /// The merges are over. After a merge there is a wait before the sales.
    pub open spec fn merges_over(self, merged_any: bool) -> (WindDownView, WindDownAction<int>) {
        if merged_any {
            self.at(WindDownPhase::BeforeSales, WindDownAction::Sleep { secs: MERGE_INTERVAL })
        } else {
            self.at(WindDownPhase::FetchingToSell, WindDownAction::FetchPositions)
        }
    }

    /// What can be merged is known, or the positions could not be had.
    pub open spec fn merges_known(self, infos: Option<Seq<MergeInfo<int>>>) -> (
        WindDownView,
        WindDownAction<int>,
    ) {
        match (self.phase, infos) {
            (WindDownPhase::FetchingToMerge, Some(queue)) => if queue.len() == 0 {
                WindDownView { queue, ..self }.merges_over(false)
            } else {
                WindDownView { queue, ..self }.at(
                    WindDownPhase::Merging { at: 0, merged_any: false },
                    WindDownAction::Merge { condition_id: queue[0].condition_id },
                )
            },
            (WindDownPhase::FetchingToMerge, None) => self.merges_over(false),
            _ => (self, WindDownAction::Ignore),
        }
    }

    /// The market was merged, or not.
    pub open spec fn merge_answered(self, success: bool) -> (WindDownView, WindDownAction<int>) {
        match self.phase {
            WindDownPhase::Merging { at, merged_any } => if at + 1 < self.queue.len() {
                self.at(
                    WindDownPhase::Pausing {
                        next: (at + 1) as usize,
                        merged_any: merged_any || success,
                    },
                    WindDownAction::Sleep { secs: MERGE_INTERVAL },
                )
            } else {
                self.merges_over(merged_any || success)
            },
            _ => (self, WindDownAction::Ignore),
        }
    }

    /// What is tracked after the answer, and whether all of it could be booked: only a merge counts.
    pub open spec fn booked(self, success: bool, tracker: TrackerView) -> (TrackerView, bool) {
        match self.phase {
            WindDownPhase::Merging { at, .. } => if success {
                merge::merged(tracker, self.queue[at as int])
            } else {
                (tracker, true)
            },
            _ => (tracker, true),
        }
    }

    /// The sale at a place of the list, or the end.
    pub open spec fn sale(self, at: int) -> (WindDownView, WindDownAction<int>) {
        if at < self.orders.len() {
            self.at(
                WindDownPhase::Selling { at: at as usize },
                WindDownAction::Sell { order: self.orders[at], price: self.sell_price },
            )
        } else {
            self.at(WindDownPhase::Over, WindDownAction::Done)
        }
    }

    /// What can be sold is known, or the positions could not be had.
    pub open spec fn sales_known(self, orders: Option<Seq<SellOrder<int>>>) -> (
        WindDownView,
        WindDownAction<int>,
    ) {
        match (self.phase, orders) {
            (WindDownPhase::FetchingToSell, Some(list)) => WindDownView { orders: list, ..self }.sale(0),
            (WindDownPhase::FetchingToSell, None) => self.at(WindDownPhase::Over, WindDownAction::Done),
            _ => (self, WindDownAction::Ignore),
        }
    }

    /// The order to sell was taken, or not: either way it goes on.
    pub open spec fn sold(self) -> (WindDownView, WindDownAction<int>) {
        match self.phase {
            WindDownPhase::Selling { at } => self.sale(at + 1),
            _ => (self, WindDownAction::Ignore),
        }
    }
}

/// A wind-down.
pub struct WindDown {
    has_proxy: bool,
    sell_price: Decimal,
    phase: WindDownPhase,
    queue: Vec<MergeInfo>,
    orders: Vec<SellOrder>,
}

impl View for WindDown {
    type V = WindDownView;

    closed spec fn view(&self) -> WindDownView {
        WindDownView {
            has_proxy: self.has_proxy,
            sell_price: self.sell_price@,
            phase: self.phase,
            queue: merge::info_views(self.queue@),
            orders: order_views(self.orders@),
        }
    }
}

impl WindDown {
    /// The amounts of the queue of merges, with decimal places.
    pub closed spec fn amounts(self) -> Seq<decimal::Digits> {
        merge::amounts_of(self.queue@)
    }

    /// Places of the queue and of the list are there.
    #[verifier::type_invariant]
    spec fn wf(self) -> bool {
        match self.phase {
            WindDownPhase::Merging { at, .. } => at < self.queue@.len(),
            WindDownPhase::Pausing { next, .. } => next < self.queue@.len(),
            WindDownPhase::Selling { at } => at < self.orders@.len(),
            _ => true,
        }
    }

    /// A wind-down that starts with the cancellation of all orders.
    pub fn start(has_proxy: bool, sell_price: Decimal) -> (r: (Self, WindDownAction))
        ensures
            r.0@ == (WindDownView {
                has_proxy,
                sell_price: sell_price@,
                phase: WindDownPhase::Cancelling,
                queue: seq![],
                orders: seq![],
            }),
            r.1@ is CancelOrders,
    {
        let w = WindDown {
            has_proxy,
            sell_price,
            phase: WindDownPhase::Cancelling,
            queue: Vec::new(),
            orders: Vec::new(),
        };
        assert(w@.queue =~= seq![]);
        assert(w@.orders =~= seq![]);
        (w, WindDownAction::CancelOrders)
    }

    /// The orders are cancelled, or could not be.
    pub fn on_cancelled(&mut self) -> (r: WindDownAction)
        ensures
            (final(self)@, r@) == old(self)@.cancelled(),
            final(self).amounts() == old(self).amounts(),
    {
        match self.phase {
            WindDownPhase::Cancelling => {
                self.phase = WindDownPhase::Settling;
                WindDownAction::Sleep { secs: DELAY_AFTER_CANCEL }
            },
            _ => WindDownAction::Ignore,
        }
    }

    /// The wait is over.
    pub fn on_wake(&mut self) -> (r: WindDownAction)
        ensures
            (final(self)@, r@) == old(self)@.woke(),
            final(self).amounts() == old(self).amounts(),
    {
        proof {
            use_type_invariant(&*self);
        }
        match self.phase {
            WindDownPhase::Settling => if self.has_proxy {
                self.phase = WindDownPhase::FetchingToMerge;
                WindDownAction::FetchPositions
            } else {
                self.phase = WindDownPhase::Over;
                WindDownAction::Done
            },
            WindDownPhase::Pausing { next, merged_any } => {
                self.phase = WindDownPhase::Merging { at: next, merged_any };
                WindDownAction::Merge { condition_id: self.queue[next].condition_id }
            },
            WindDownPhase::BeforeSales => {
                self.phase = WindDownPhase::FetchingToSell;
                WindDownAction::FetchPositions
            },
            _ => WindDownAction::Ignore,
        }
    }

    /// The merges are over.
    fn end_merges(&mut self, merged_any: bool) -> (r: WindDownAction)
        ensures
            (final(self)@, r@) == old(self)@.merges_over(merged_any),
            final(self).amounts() == old(self).amounts(),
    {
        if merged_any {
            self.phase = WindDownPhase::BeforeSales;
            WindDownAction::Sleep { secs: MERGE_INTERVAL }
        } else {
            self.phase = WindDownPhase::FetchingToSell;
            WindDownAction::FetchPositions
        }
    }

    /// The positions are there, or they could not be had. `None` where a size is out of range: nothing
    /// is sold then.
    pub fn on_positions(&mut self, positions: Option<&Vec<Position>>) -> (r: Option<WindDownAction>)
        ensures
            match (old(self)@.phase, positions) {
                (WindDownPhase::FetchingToMerge, Some(ps)) => r is Some && exists|infos: Seq<MergeInfo<int>>| #[trigger]
                    merge::lists_infos(positions::position_views(ps@), infos) && (final(self)@, (r->0)@)
                        == old(self)@.merges_known(Some(infos)),
                (WindDownPhase::FetchingToMerge, None) => r is Some && (final(self)@, (r->0)@)
                    == old(self)@.merges_known(None),
                (WindDownPhase::FetchingToSell, Some(ps)) => match sales(positions::position_views(ps@)) {
                    Some(orders) => r is Some && (final(self)@, (r->0)@) == old(self)@.sales_known(
                        Some(orders),
                    ),
                    None => r is None && final(self)@ == old(self)@.at(
                        WindDownPhase::Over,
                        WindDownAction::Done,
                    ).0,
                },
                (WindDownPhase::FetchingToSell, None) => r is Some && (final(self)@, (r->0)@)
                    == old(self)@.sales_known(None),
                _ => r is Some && (r->0)@ is Ignore && final(self)@ == old(self)@,
            },
            final(self)@.sell_price == old(self)@.sell_price,
            r matches Some(WindDownAction::Sell { price, .. }) ==> price@ == old(self)@.sell_price,
            match (old(self)@.phase, positions) {
                (WindDownPhase::FetchingToMerge, Some(ps)) => merge::amounts_fit(
                    ps@,
                    final(self)@.queue,
                    final(self).amounts(),
                ),
                _ => final(self).amounts() == old(self).amounts(),
            },
    {
        match self.phase {
            WindDownPhase::FetchingToMerge => match positions {
                Some(ps) => {
                    let queue = merge_info_with_both_sides(ps);
                    assert(merge::lists_infos(
                        positions::position_views(ps@),
                        merge::info_views(queue@),
                    ));
                    if queue.len() == 0 {
                        self.queue = queue;
                        Some(self.end_merges(false))
                    } else {
                        let condition_id = queue[0].condition_id;
                        self.queue = queue;
                        self.phase = WindDownPhase::Merging { at: 0, merged_any: false };
                        Some(WindDownAction::Merge { condition_id })
                    }
                },
                None => Some(self.end_merges(false)),
            },
            WindDownPhase::FetchingToSell => match positions {
                Some(ps) => match sell_orders(ps) {
                    Some(orders) => {
                        if orders.len() == 0 {
                            self.orders = orders;
                            self.phase = WindDownPhase::Over;
                            Some(WindDownAction::Done)
                        } else {
                            let order = orders[0];
                            self.orders = orders;
                            self.phase = WindDownPhase::Selling { at: 0 };
                            Some(WindDownAction::Sell { order, price: self.sell_price })
                        }
                    },
                    None => {
                        self.phase = WindDownPhase::Over;
                        None
                    },
                },
                None => {
                    self.phase = WindDownPhase::Over;
                    Some(WindDownAction::Done)
                },
            },
            _ => Some(WindDownAction::Ignore),
        }
    }

    /// The market was merged, or not. What was merged is booked; the second result says whether all of
    /// it could be.
    pub fn on_merge(&mut self, success: bool, tracker: &mut PositionTracker) -> (r: (WindDownAction, bool))
        ensures
            (final(self)@, r.0@) == old(self)@.merge_answered(success),
            (final(tracker)@, r.1) == old(self)@.booked(success, old(tracker)@),
            final(self).amounts() == old(self).amounts(),
            final(tracker).ledger() == match old(self)@.phase {
                WindDownPhase::Merging { at, .. } if success => merge::ledger_merged(
                    old(tracker).ledger(),
                    old(self)@.queue[at as int].yes_token,
                    old(self)@.queue[at as int].no_token,
                    old(self).amounts()[at as int],
                ),
                _ => old(tracker).ledger(),
            },
    {
        proof {
            use_type_invariant(&*self);
        }
        match self.phase {
            WindDownPhase::Merging { at, merged_any } => {
                let waiting = self.queue.len() - at;
                let booked = if success {
                    book_merge(tracker, &self.queue[at]).is_some()
                } else {
                    true
                };
                if waiting > 1 {
                    self.phase = WindDownPhase::Pausing { next: at + 1, merged_any: merged_any || success };
                    (WindDownAction::Sleep { secs: MERGE_INTERVAL }, booked)
                } else {
                    (self.end_merges(merged_any || success), booked)
                }
            },
            _ => (WindDownAction::Ignore, true),
        }
    }

    /// The order to sell was taken, or not.
    pub fn on_sold(&mut self) -> (r: WindDownAction)
        ensures
            (final(self)@, r@) == old(self)@.sold(),
            final(self)@.sell_price == old(self)@.sell_price,
            r matches WindDownAction::Sell { price, .. } ==> price@ == old(self)@.sell_price,
            final(self).amounts() == old(self).amounts(),
    {
        proof {
            use_type_invariant(&*self);
        }
        match self.phase {
            WindDownPhase::Selling { at } => {
                let waiting = self.orders.len() - at;
                if waiting > 1 {
                    self.phase = WindDownPhase::Selling { at: at + 1 };
                    WindDownAction::Sell { order: self.orders[at + 1], price: self.sell_price }
                } else {
                    self.phase = WindDownPhase::Over;
                    WindDownAction::Done
                }
            },
            _ => WindDownAction::Ignore,
        }
    }
}

/// No order to sell is larger than the position, nor below one hundredth of a share.
pub proof fn sales_are_covered(positions: Seq<Position<int, Seq<char>>>, i: int)
    requires
        sales(positions) is Some,
        0 <= i < (sales(positions)->0).len(),
    ensures
        exists|j: int|
            0 <= j < positions.len() && (#[trigger] positions[j]).asset == (sales(positions)->0)[i].token_id
                && (sales(positions)->0)[i].size <= positions[j].size,
        (sales(positions)->0)[i].size >= decimal::atoms(1, 2),
    decreases positions.len(),
{
    let p = positions.last();
    let before = positions.drop_last();
    let cent = decimal::pow10(26);
    assert((p.size / cent) * cent <= p.size) by (nonlinear_arith)
        requires
            cent > 0,
    ;
    if i < (sales(before)->0).len() {
        sales_are_covered(before, i);
        let j = choose|j: int|
            0 <= j < before.len() && (#[trigger] before[j]).asset == (sales(before)->0)[i].token_id
                && (sales(before)->0)[i].size <= before[j].size;
        assert(positions[j] == before[j]);
    } else {
        assert(positions[positions.len() - 1] == p);
    }
}

/// Without a known address nothing is merged and nothing is sold.
pub proof fn nothing_without_an_address(w: WindDownView)
    requires
        !w.has_proxy,
        w.phase is Settling,
    ensures
        w.woke() == w.at(WindDownPhase::Over, WindDownAction::Done),
{
}

/// After a merge there is a wait of half a minute before the next merge or the sales.
pub proof fn merges_are_spaced(w: WindDownView)
    requires
        w.phase is Merging,
    ensures
        w.merge_answered(true).1 == (WindDownAction::<int>::Sleep { secs: MERGE_INTERVAL }),
{
}

} // verus!
