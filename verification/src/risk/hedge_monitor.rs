//! Watches single positions: each is sold when the bid reaches its gain or its loss, as far as the
//! other side of the market does not cover it.
use vstd::prelude::*;

use crate::decimal;
use crate::decimal::{
    checked_add, checked_div, checked_mul, checked_sub, floor_to_hundredth, Decimal,
};
use crate::monitor::{BookUpdate, BookView};
use crate::text::same_text;
use crate::types::U256;

use super::hedge_map;
use super::hedge_map::{
    all_hedges, get_hedge, insert_hedge, new_hedges, remove_hedge, HedgeEntry, HedgeMap, HedgePosition,
};
use super::ledger::Ledger;
use super::positions::{PositionTracker, TrackerView};
use super::recovery::RecoveryAction;

verus! {

/// The id of an order that is just being placed.
pub open spec fn being_placed() -> Seq<char> {
    "processing"@
}

/// `price * (1 + pct)`.
pub open spec fn above_by(price: int, pct: Option<int>) -> Option<int> {
    decimal::opt_product(Some(price), decimal::opt_sum(Some(decimal::one()), pct))
}

/// `price * (1 - pct)`.
pub open spec fn below_by(price: int, pct: Option<int>) -> Option<int> {
    decimal::opt_product(Some(price), decimal::opt_difference(Some(decimal::one()), pct))
}

/// The position with this entry price, and with the prices at which to sell so much above and below it.
/// `None` where one of them is out of range.
pub open spec fn with_entry(
    p: HedgePosition<int, Seq<char>>,
    entry_price: int,
    take_profit_pct: Option<int>,
    stop_loss_pct: Option<int>,
) -> Option<HedgePosition<int, Seq<char>>> {
    match (above_by(entry_price, take_profit_pct), below_by(entry_price, stop_loss_pct)) {
        (Some(take_profit_price), Some(stop_loss_price)) => Some(
            HedgePosition { entry_price, take_profit_price, stop_loss_price, ..p },
        ),
        _ => None,
    }
}

/// How far the price at which to take profit lies above the entry price, as a share of that.
pub open spec fn profit_share(p: HedgePosition<int, Seq<char>>) -> Option<int> {
    decimal::opt_quotient(
        decimal::difference(p.take_profit_price, p.entry_price),
        Some(p.entry_price),
    )
}

/// How far the price at which to stop a loss lies below the entry price, as a share of that.
pub open spec fn loss_share(p: HedgePosition<int, Seq<char>>) -> Option<int> {
    decimal::opt_quotient(
        decimal::difference(p.entry_price, p.stop_loss_price),
        Some(p.entry_price),
    )
}

/// What happens to a watched position.
pub enum Verdict<D = Decimal> {
    /// Nothing.
    Keep,
    /// Its open order is forgotten, so that it can be placed anew.
    Forget,
    /// This many shares are sold.
    Sell { amount: D },
}

impl View for Verdict<Decimal> {
    type V = Verdict<int>;

    open spec fn view(&self) -> Verdict<int> {
        match *self {
            Verdict::Keep => Verdict::Keep,
            Verdict::Forget => Verdict::Forget,
            Verdict::Sell { amount } => Verdict::Sell { amount: amount@ },
        }
    }
}

/// What happens to a watched position where a token has this best bid. `None` where the difference
/// between the two sides is out of range.
pub open spec fn verdict(
    p: HedgePosition<int, Seq<char>>,
    asset: U256,
    bid: int,
    tracker: TrackerView,
) -> Option<Verdict<int>> {
    let unfilled = p.order_id is Some && p.pending_sell_amount > 0;
    let idle = if unfilled {
        Verdict::Forget
    } else {
        Verdict::Keep
    };
    if p.token_id != asset || (p.order_id is Some && !unfilled) || p.order_id == Some(being_placed()) {
        Some(Verdict::Keep)
    } else if p.stop_loss_price < bid < p.take_profit_price {
        Some(idle)
    } else {
        match decimal::difference(tracker.position(p.token_id), tracker.position(p.opposite_token_id)) {
            None => None,
            Some(uncovered) => if uncovered <= 0 {
                Some(idle)
            } else if unfilled {
                Some(Verdict::Sell { amount: p.pending_sell_amount })
            } else {
                Some(Verdict::Sell { amount: uncovered })
            },
        }
    }
}

/// The position after its verdict.
pub open spec fn after_verdict(p: HedgePosition<int, Seq<char>>, v: Verdict<int>) -> HedgePosition<
    int,
    Seq<char>,
> {
    match v {
        Verdict::Keep => p,
        Verdict::Forget => HedgePosition { order_id: None, ..p },
        Verdict::Sell { .. } => HedgePosition { order_id: Some(being_placed()), ..p },
    }
}

/// The position after a look at the bid; as it was where the verdict is out of range.
pub open spec fn after_look(
    p: HedgePosition<int, Seq<char>>,
    asset: U256,
    bid: int,
    tracker: TrackerView,
) -> HedgePosition<int, Seq<char>> {
    match verdict(p, asset, bid, tracker) {
        Some(v) => after_verdict(p, v),
        None => p,
    }
}

/// An order to sell shares of a watched position.
#[derive(Debug)]
pub struct Sale<D = Decimal, S = String> {
    pub pair_id: S,
    pub token_id: U256,
    pub entry_price: D,
    pub price: D,
    pub amount: D,
}

impl View for Sale<Decimal, String> {
    type V = Sale<int, Seq<char>>;

    open spec fn view(&self) -> Sale<int, Seq<char>> {
        Sale {
            pair_id: self.pair_id@,
            token_id: self.token_id,
            entry_price: self.entry_price@,
            price: self.price@,
            amount: self.amount@,
        }
    }
}

/// The sales, with the numbers in atoms.
pub open spec fn sale_views(sales: Seq<Sale>) -> Seq<Sale<int, Seq<char>>> {
    sales.map_values(|s: Sale| s@)
}

/// The sales that the positions call for, in their order.
pub open spec fn sales_of(
    entries: Seq<(Seq<char>, HedgePosition<int, Seq<char>>)>,
    asset: U256,
    bid: int,
    tracker: TrackerView,
) -> Seq<Sale<int, Seq<char>>>
    decreases entries.len(),
{
    if entries.len() == 0 {
        seq![]
    } else {
        let before = sales_of(entries.drop_last(), asset, bid, tracker);
        let (key, p) = entries.last();
        match verdict(p, asset, bid, tracker) {
            Some(Verdict::Sell { amount }) => before.push(
                Sale {
                    pair_id: key,
                    token_id: p.token_id,
                    entry_price: p.entry_price,
                    price: bid,
                    amount,
                },
            ),
            _ => before,
        }
    }
}

/// The price of the last bid of a book.
pub open spec fn last_bid(book: BookView) -> Option<int> {
    if book.bids.len() > 0 {
        Some(book.bids.last().price)
    } else {
        None
    }
}

/// The shares that are put into an order to sell `amount` at a fee in percent: what is left after the
/// fee, in whole hundredths, and one hundredth at the least. `None` where a step is out of range.
pub open spec fn order_size_after_fee(fee: int, amount: int) -> Option<int> {
    let hundred = decimal::atoms(1000, 1);
    let available = if fee >= hundred {
        Some(decimal::atoms(1, 2))
    } else {
        decimal::opt_product(
            Some(amount),
            decimal::opt_quotient(decimal::difference(hundred, fee), Some(hundred)),
        )
    };
    match available {
        None => None,
        Some(a) => if decimal::nearest(100 * a, 1) is None {
            None
        } else if decimal::whole_cents(a) == 0 {
            Some(decimal::atoms(1, 2))
        } else {
            Some(decimal::whole_cents(a))
        },
    }
}

/// The shares that are put into an order to sell `base_amount` at a fee in percent. `None` where a step
/// is out of range.
pub fn calculate_sell_amount_with_size(fee: Decimal, base_amount: Decimal) -> (r: Option<Decimal>)
    ensures
        decimal::opt_atoms(r) == order_size_after_fee(fee@, base_amount@),
{
    let hundred = Decimal::new(1000, 1);
    let available = if fee >= hundred {
        Decimal::new(1, 2)
    } else {
        checked_mul(base_amount, checked_div(checked_sub(hundred, fee)?, hundred)?)?
    };
    let floored = floor_to_hundredth(available)?;
    if floored == Decimal::zero() {
        Some(Decimal::new(1, 2))
    } else {
        Some(floored)
    }
}

/// What became of an order to sell.
pub enum SaleOutcome {
    /// It was taken, and as much of it filled at once.
    Placed { order_id: String, order_size: Decimal, filled: Decimal },
    /// It was not taken.
    Failed,
}

/// What the exchange's answer to an order to sell of this size means; the error, in words, where it did
/// not take the order.
pub fn read_sale_answer(
    order_id: String,
    order_size: Decimal,
    success: bool,
    taking_amount: Decimal,
    error_msg: Option<String>,
) -> (r: Result<SaleOutcome, String>)
    ensures
        success ==> r == Ok::<SaleOutcome, String>(
            SaleOutcome::Placed { order_id, order_size, filled: taking_amount },
        ),
        !success ==> r is Err && (r->Err_0)@ == "GTC sell order failed: "@ + match error_msg {
            Some(m) => m@,
            None => "Unknown error"@,
        },
{
    if success {
        return Ok(SaleOutcome::Placed { order_id, order_size, filled: taking_amount });
    }
    let mut s = "GTC sell order failed: ".to_string();
    match error_msg {
        Some(m) => s.append(m.as_str()),
        None => s.append("Unknown error"),
    }
    Err(s)
}

/// A watched position after its order to sell was taken.
pub open spec fn after_sale(
    p: HedgePosition<int, Seq<char>>,
    order_id: Seq<char>,
    remaining: int,
) -> HedgePosition<int, Seq<char>> {
    if remaining > 0 {
        HedgePosition { order_id: Some(order_id), pending_sell_amount: remaining, ..p }
    } else {
        HedgePosition { order_id: None, pending_sell_amount: 0, ..p }
    }
}

/// What is tracked after shares were sold, the position first and the cost second, and whether both
/// could be booked.
pub open spec fn sold(tracker: TrackerView, token: U256, entry_price: int, filled: int) -> (TrackerView, bool) {
    if filled <= 0 {
        (tracker, true)
    } else {
        match tracker.update_position(token, -filled) {
            None => (tracker, false),
            Some(t) => match t.update_exposure_cost(token, entry_price, -filled) {
                None => (t, false),
                Some(u) => (u, true),
            },
        }
    }
}

/// What is tracked, with decimal places, after shares were sold.
pub open spec fn ledger_sold(ledger: Ledger, token: U256, entry_price: Decimal, filled: Decimal) -> Ledger {
    if filled@ <= 0 {
        ledger
    } else {
        let delta = decimal::Digits { atoms: -filled@, scale: filled.scale_of() };
        match ledger.booked(token, delta) {
            Some(l) => l.with(l.charged(token, entry_price.digits(), delta)),
            None => ledger,
        }
    }
}

/// The map with one value changed, where the key is there.
pub open spec fn changed(
    m: Map<Seq<char>, HedgePosition<int, Seq<char>>>,
    key: Seq<char>,
    p: HedgePosition<int, Seq<char>>,
) -> Map<Seq<char>, HedgePosition<int, Seq<char>>> {
    if m.contains_key(key) {
        m.insert(key, p)
    } else {
        m
    }
}

/// Watches positions.
pub struct HedgeMonitor {
    positions: HedgeMap,
}

impl View for HedgeMonitor {
    type V = Map<Seq<char>, HedgePosition<int, Seq<char>>>;

    /// The watched positions, by pair.
    closed spec fn view(&self) -> Map<Seq<char>, HedgePosition<int, Seq<char>>> {
        hedge_map::hedges(self.positions)
    }
}

/// What happens to a watched position where a token has this best bid. `None` where the difference
/// between the two sides is out of range.
fn judge(p: &HedgePosition, asset: U256, bid: Decimal, tracker: &PositionTracker) -> (r: Option<Verdict>)
    ensures
        (match r {
            Some(v) => Some(v@),
            None => None,
        }) == verdict(p@, asset, bid@, tracker@),
{
    let unfilled = match &p.order_id {
        Some(id) => {
            if same_text(id.as_str(), "processing") || p.pending_sell_amount <= Decimal::zero() {
                return Some(Verdict::Keep);
            }
            true
        },
        None => false,
    };
    let idle = if unfilled {
        Verdict::Forget
    } else {
        Verdict::Keep
    };
    if p.token_id != asset {
        return Some(Verdict::Keep);
    }
    if bid < p.take_profit_price && bid > p.stop_loss_price {
        return Some(idle);
    }
    let uncovered = checked_sub(
        tracker.get_position(p.token_id),
        tracker.get_position(p.opposite_token_id),
    )?;
    if uncovered <= Decimal::zero() {
        Some(idle)
    } else if unfilled {
        Some(Verdict::Sell { amount: p.pending_sell_amount })
    } else {
        Some(Verdict::Sell { amount: uncovered })
    }
}

impl HedgeMonitor {
    /// A monitor that watches nothing.
    pub fn new() -> (r: Self)
        ensures
            r@ == Map::<Seq<char>, HedgePosition<int, Seq<char>>>::empty(),
    {
        HedgeMonitor { positions: new_hedges() }
    }

    /// Watches a position, where the action asks for it. `None`, and no change, where a price at which
    /// to sell is out of range.
    pub fn add_position(&mut self, action: &RecoveryAction) -> (r: Option<()>)
        ensures
            match *action {
                RecoveryAction::MonitorForExit {
                    token_id,
                    opposite_token_id,
                    amount,
                    entry_price,
                    take_profit_pct,
                    stop_loss_pct,
                    pair_id,
                    market_display,
                } => {
                    let watched = with_entry(
                        HedgePosition {
                            token_id,
                            opposite_token_id,
                            amount: amount@,
                            entry_price: entry_price@,
                            take_profit_price: 0,
                            stop_loss_price: 0,
                            pair_id: pair_id@,
                            market_display: market_display@,
                            order_id: None,
                            pending_sell_amount: 0,
                        },
                        entry_price@,
                        Some(take_profit_pct@),
                        Some(stop_loss_pct@),
                    );
                    &&& r is Some <==> watched is Some
                    &&& r is Some ==> final(self)@ == old(self)@.insert(pair_id@, watched->0)
                },
                _ => r is Some && final(self)@ == old(self)@,
            },
            r is None ==> final(self)@ == old(self)@,
    {
        match action {
            RecoveryAction::MonitorForExit {
                token_id,
                opposite_token_id,
                amount,
                entry_price,
                take_profit_pct,
                stop_loss_pct,
                pair_id,
                market_display,
            } => {
                let one = Decimal::new(10, 1);
                let take_profit_price = checked_mul(*entry_price, checked_add(one, *take_profit_pct)?)?;
                let stop_loss_price = checked_mul(*entry_price, checked_sub(one, *stop_loss_pct)?)?;
                let position = HedgePosition {
                    token_id: *token_id,
                    opposite_token_id: *opposite_token_id,
                    amount: *amount,
                    entry_price: *entry_price,
                    take_profit_price,
                    stop_loss_price,
                    pair_id: pair_id.clone(),
                    market_display: market_display.clone(),
                    order_id: None,
                    pending_sell_amount: Decimal::zero(),
                };
                insert_hedge(&mut self.positions, pair_id.clone(), position);
                Some(())
            },
            _ => Some(()),
        }
    }

    /// Sets a new entry price and moves the two prices at which to sell in proportion. Nothing happens
    /// where the pair is not watched. `None`, and no change, where a step is out of range.
    pub fn update_entry_price(&mut self, pair_id: &str, entry_price: Decimal) -> (r: Option<()>)
        ensures
            !old(self)@.contains_key(pair_id@) ==> r is Some && final(self)@ == old(self)@,
            old(self)@.contains_key(pair_id@) ==> ({
                let p = old(self)@[pair_id@];
                let moved = with_entry(p, entry_price@, profit_share(p), loss_share(p));
                &&& r is Some <==> moved is Some
                &&& r is Some ==> final(self)@ == old(self)@.insert(pair_id@, moved->0)
            }),
            r is None ==> final(self)@ == old(self)@,
    {
        let mut p = match get_hedge(&self.positions, pair_id) {
            Some(p) => p,
            None => return Some(()),
        };
        let one = Decimal::new(10, 1);
        let before = p.entry_price;
        let gain = checked_div(checked_sub(p.take_profit_price, before)?, before)?;
        let loss = checked_div(checked_sub(before, p.stop_loss_price)?, before)?;
        p.take_profit_price = checked_mul(entry_price, checked_add(one, gain)?)?;
        p.stop_loss_price = checked_mul(entry_price, checked_sub(one, loss)?)?;
        p.entry_price = entry_price;
        insert_hedge(&mut self.positions, pair_id.to_string(), p);
        Some(())
    }

    /// Looks at the last bid of a book: the orders to sell that the watched positions of its token call
    /// for, in the order in which the map hands them out. Each of them is marked as being placed.
    /// `None`, and no change, where a step is out of range.
    pub fn check_and_execute(&mut self, book: &BookUpdate, tracker: &PositionTracker) -> (r: Option<Vec<Sale>>)
        ensures
            last_bid(book@) is None ==> r is Some && (r->0)@.len() == 0 && final(self)@ == old(self)@,
            last_bid(book@) matches Some(bid) ==> {
                &&& r is None <==> exists|k: Seq<char>| #[trigger]
                    old(self)@.contains_key(k) && verdict(old(self)@[k], book@.asset_id, bid, tracker@)
                        is None
                &&& r matches Some(sales) ==> {
                    &&& final(self)@ == old(self)@.map_values(
                        |p: HedgePosition<int, Seq<char>>|
                            after_look(p, book@.asset_id, bid, tracker@),
                    )
                    &&& exists|entries: Seq<(Seq<char>, HedgePosition<int, Seq<char>>)>| #[trigger]
                        hedge_map::lists_entries(old(self)@, entries) && sale_views(sales@)
                            == sales_of(entries, book@.asset_id, bid, tracker@)
                }
            },
            r is None ==> final(self)@ == old(self)@,
    {
        let n = book.bids.len();
        if n == 0 {
            return Some(Vec::new());
        }
        let bid = book.bids[n - 1].price;
        let asset = book.asset_id;
        assert(last_bid(book@) == Some(bid@));
        let entries = all_hedges(&self.positions);
        let ghost listed = hedge_map::entry_views(entries@);
        let ghost m = self@;
        let mut sales: Vec<Sale> = Vec::new();
        let mut updates: Vec<HedgeEntry> = Vec::new();
        let mut i: usize = 0;
        assert(sale_views(sales@) =~= seq![]);
        while i < entries.len()
            invariant
                i <= entries@.len(),
                listed == hedge_map::entry_views(entries@),
                hedge_map::lists_entries(m, listed),
                m == self@,
                self@ == old(self)@,
                asset == book@.asset_id,
                last_bid(book@) == Some(bid@),
                updates@.len() == i,
                forall|j: int| 0 <= j < i ==> verdict((#[trigger] listed[j]).1, asset, bid@, tracker@) is Some,
                forall|j: int|
                    0 <= j < i ==> (#[trigger] updates@[j]).key@ == listed[j].0 && updates@[j].position@
                        == after_look(listed[j].1, asset, bid@, tracker@),
                sale_views(sales@) == sales_of(listed.take(i as int), asset, bid@, tracker@),
            decreases entries@.len() - i,
        {
            let entry = &entries[i];
            let ghost p = entry.position@;
            assert(listed[i as int] == (entry.key@, p));
            proof {
                assert(listed.take(i + 1).drop_last() =~= listed.take(i as int));
                assert(listed.take(i + 1).last() == listed[i as int]);
                assert(m.contains_key(listed[i as int].0));
            }
            let v = judge(&entry.position, asset, bid, tracker)?;
            let mut next = entry.position.copied();
            let ghost before = sale_views(sales@);
            match v {
                Verdict::Keep => {},
                Verdict::Forget => {
                    next.order_id = None;
                },
                Verdict::Sell { amount } => {
                    next.order_id = Some("processing".to_string());
                    let sale = Sale {
                        pair_id: entry.key.clone(),
                        token_id: next.token_id,
                        entry_price: next.entry_price,
                        price: bid,
                        amount,
                    };
                    let ghost sv = sale@;
                    sales.push(sale);
                    assert(sale_views(sales@) =~= before.push(sv));
                },
            }
            updates.push(HedgeEntry { key: entry.key.clone(), position: next });
            i += 1;
        }
        assert(listed.take(listed.len() as int) =~= listed);
        let ghost f = |p: HedgePosition<int, Seq<char>>| after_look(p, asset, bid@, tracker@);
        assert forall|k: Seq<char>| #[trigger] m.contains_key(k) implies verdict(m[k], asset, bid@, tracker@) is Some by {
            let j = choose|j: int| 0 <= j < listed.len() && (#[trigger] listed[j]).0 == k;
            assert(verdict(listed[j].1, asset, bid@, tracker@) is Some);
        }
        let mut k: usize = 0;
        while k < updates.len()
            invariant
                k <= updates@.len(),
                updates@.len() == listed.len(),
                hedge_map::lists_entries(m, listed),
                f == (|p: HedgePosition<int, Seq<char>>| after_look(p, asset, bid@, tracker@)),
                forall|j: int|
                    0 <= j < updates@.len() ==> (#[trigger] updates@[j]).key@ == listed[j].0
                        && updates@[j].position@ == f(listed[j].1),
                self@.dom() == m.dom(),
                forall|j: int| 0 <= j < k ==> self@[(#[trigger] listed[j]).0] == f(m[listed[j].0]),
                forall|j: int| k <= j < listed.len() ==> self@[(#[trigger] listed[j]).0] == m[listed[j].0],
            decreases updates@.len() - k,
        {
            let u = &updates[k];
            assert(u.key@ == listed[k as int].0);
            insert_hedge(&mut self.positions, u.key.clone(), u.position.copied());
            assert(self@.dom() =~= m.dom());
            k += 1;
        }
        assert forall|key: Seq<char>| #[trigger] m.contains_key(key) implies self@[key] == f(m[key]) by {
            let j = choose|j: int| 0 <= j < listed.len() && (#[trigger] listed[j]).0 == key;
            assert(self@[listed[j].0] == f(m[listed[j].0]));
        }
        assert(self@ =~= m.map_values(f));
        assert(hedge_map::lists_entries(old(self)@, listed));
        Some(sales)
    }

    /// Books what became of an order to sell. `None` where a step is out of range: nothing changes in
    /// what is watched, and of the sale at most the shares are booked.
    pub fn settle(&mut self, tracker: &mut PositionTracker, sale: &Sale, outcome: &SaleOutcome) -> (r: Option<()>)
        ensures
            match *outcome {
                SaleOutcome::Failed => r is Some && final(tracker)@ == old(tracker)@ && final(self)@
                    == changed(
                    old(self)@,
                    sale.pair_id@,
                    (HedgePosition { order_id: None, ..old(self)@[sale.pair_id@] }),
                ),
                SaleOutcome::Placed { order_id, order_size, filled } => match decimal::difference(
                    order_size@,
                    filled@,
                ) {
                    None => r is None && final(tracker)@ == old(tracker)@,
                    Some(remaining) => {
                        &&& (final(tracker)@, r is Some) == sold(
                            old(tracker)@,
                            sale.token_id,
                            sale.entry_price@,
                            filled@,
                        )
                        &&& r is Some ==> final(self)@ == changed(
                            old(self)@,
                            sale.pair_id@,
                            after_sale(old(self)@[sale.pair_id@], order_id@, remaining),
                        )
                    },
                },
            },
            r is None ==> final(self)@ == old(self)@,
            final(tracker).ledger() == match *outcome {
                SaleOutcome::Placed { order_size, filled, .. } if decimal::difference(
                    order_size@,
                    filled@,
                ) is Some => ledger_sold(old(tracker).ledger(), sale.token_id, sale.entry_price, filled),
                _ => old(tracker).ledger(),
            },
    {
        match outcome {
            SaleOutcome::Failed => {
                match get_hedge(&self.positions, sale.pair_id.as_str()) {
                    Some(mut p) => {
                        p.order_id = None;
                        insert_hedge(&mut self.positions, sale.pair_id.clone(), p);
                    },
                    None => {},
                }
                Some(())
            },
            SaleOutcome::Placed { order_id, order_size, filled } => {
                let remaining = checked_sub(*order_size, *filled)?;
                if *filled > Decimal::zero() {
                    let delta = filled.neg();
                    tracker.update_position(sale.token_id, delta)?;
                    tracker.update_exposure_cost(sale.token_id, sale.entry_price, delta)?;
                }
                match get_hedge(&self.positions, sale.pair_id.as_str()) {
                    Some(mut p) => {
                        if remaining > Decimal::zero() {
                            p.order_id = Some(order_id.clone());
                            p.pending_sell_amount = remaining;
                        } else {
                            p.order_id = None;
                            p.pending_sell_amount = Decimal::zero();
                        }
                        insert_hedge(&mut self.positions, sale.pair_id.clone(), p);
                    },
                    None => {},
                }
                Some(())
            },
        }
    }

    /// Stops watching a pair.
    pub fn remove_position(&mut self, pair_id: &str)
        ensures
            final(self)@ == old(self)@.remove(pair_id@),
    {
        remove_hedge(&mut self.positions, pair_id);
    }

    /// All watched positions, in the order in which the map hands them out.
    pub fn get_positions(&self) -> (r: Vec<HedgePosition>)
        ensures
            exists|entries: Seq<(Seq<char>, HedgePosition<int, Seq<char>>)>| #[trigger]
                hedge_map::lists_entries(self@, entries) && r@.map_values(|p: HedgePosition| p@)
                    == entries.map_values(|e: (Seq<char>, HedgePosition<int, Seq<char>>)| e.1),
    {
        let entries = all_hedges(&self.positions);
        let ghost listed = hedge_map::entry_views(entries@);
        let mut r: Vec<HedgePosition> = Vec::new();
        let mut i: usize = 0;
        while i < entries.len()
            invariant
                i <= entries@.len(),
                r@.len() == i,
                listed == hedge_map::entry_views(entries@),
                forall|j: int| 0 <= j < i ==> (#[trigger] r@[j])@ == listed[j].1,
            decreases entries@.len() - i,
        {
            r.push(entries[i].position.copied());
            assert(listed[i as int].1 == entries@[i as int].position@);
            i += 1;
        }
        assert(hedge_map::lists_entries(self@, listed));
        assert(r@.map_values(|p: HedgePosition| p@) =~= listed.map_values(
            |e: (Seq<char>, HedgePosition<int, Seq<char>>)| e.1,
        ));
        r
    }
}

/// Only a position of the token is sold, only at its gain or its loss, only as far as the other side
/// does not cover it, and never while an order for it is being placed.
pub proof fn sale_has_a_reason(
    p: HedgePosition<int, Seq<char>>,
    asset: U256,
    bid: int,
    tracker: TrackerView,
)
    requires
        verdict(p, asset, bid, tracker) matches Some(Verdict::Sell { .. }),
    ensures
        p.token_id == asset,
        bid >= p.take_profit_price || bid <= p.stop_loss_price,
        decimal::difference(tracker.position(p.token_id), tracker.position(p.opposite_token_id))->0 > 0,
        p.order_id != Some(being_placed()),
        verdict(p, asset, bid, tracker)->0->amount > 0,
{
}

/// A position that is sold is not sold again until the outcome is booked.
pub proof fn no_second_sale(
    p: HedgePosition<int, Seq<char>>,
    asset: U256,
    bid: int,
    tracker: TrackerView,
    later_asset: U256,
    later_bid: int,
    later_tracker: TrackerView,
)
    requires
        verdict(p, asset, bid, tracker) matches Some(Verdict::Sell { .. }),
    ensures
        verdict(after_look(p, asset, bid, tracker), later_asset, later_bid, later_tracker) == Some(
            Verdict::<int>::Keep,
        ),
{
}

/// At a fee that is not negative, an order to sell at least one hundredth of a share is not larger than
/// the amount, and not smaller than one hundredth.
pub proof fn order_is_covered(fee: int, amount: int)
    requires
        fee >= 0,
        amount >= decimal::atoms(1, 2),
        decimal::representable(amount),
        order_size_after_fee(fee, amount) is Some,
    ensures
        order_size_after_fee(fee, amount)->0 <= amount,
        order_size_after_fee(fee, amount)->0 >= decimal::atoms(1, 2),
{
    let hundred = decimal::atoms(1000, 1);
    let one = decimal::one();
    let cent = decimal::pow10(26);
    if fee < hundred {
        assert(decimal::representable(hundred)) by {
            assert(hundred == 100 * decimal::pow10(28));
        }
        decimal::lemma_nearest_at_most(hundred - fee, hundred);
        decimal::lemma_small_exact(0);
        decimal::lemma_nearest_monotone(0, hundred - fee, 1);
        let rest = decimal::difference(hundred, fee)->0;
        assert(0 <= rest * one <= one * hundred) by (nonlinear_arith)
            requires
                0 <= rest <= hundred,
                one > 0,
        ;
        decimal::lemma_nearest_scaled(one, hundred, 0);
        assert(decimal::representable(one)) by {
            assert(one == 1 * decimal::pow10(28));
        }
        decimal::lemma_representable_exact(one);
        decimal::lemma_nearest_monotone(rest * one, one * hundred, hundred);
        decimal::lemma_nearest_scaled(0, hundred, 0);
        assert(0 * hundred == 0);
        decimal::lemma_nearest_monotone(0, rest * one, hundred);
        let factor = decimal::quotient(rest, hundred)->0;
        assert(0 <= amount * factor <= amount * one) by (nonlinear_arith)
            requires
                amount >= 0,
                0 <= factor <= one,
        ;
        decimal::lemma_nearest_scaled(amount, one, 0);
        decimal::lemma_representable_exact(amount);
        decimal::lemma_nearest_monotone(amount * factor, amount * one, one);
        decimal::lemma_nearest_scaled(0, one, 0);
        assert(0 * one == 0);
        decimal::lemma_nearest_monotone(0, amount * factor, one);
        let available = decimal::product(amount, factor)->0;
        assert(0 <= available <= amount);
        let q = available / cent;
        assert(q * cent <= available && q >= 0 && (q > 0 ==> q * cent >= cent)) by (nonlinear_arith)
            requires
                cent > 0,
                available >= 0,
                q == available / cent,
        ;
    } else {
        assert(decimal::whole_cents(decimal::atoms(1, 2)) == decimal::atoms(1, 2));
    }
}

} // verus!
