//! What is held of each token, and what it cost: the basis of the exposure limit.
use vstd::prelude::*;

use crate::decimal;
use crate::decimal::{checked_add, checked_div, checked_mul, checked_sub, sum_of, Decimal};
use crate::positions as reported;
use crate::positions::Position;
use crate::types::{Address, U256};

use super::ledger;
use super::ledger::Ledger;
use super::token_amounts;
use super::token_amounts::{
    all_amounts, clear_amounts, get_amount, insert_amount, new_amounts, remove_amount, TokenAmounts,
};

verus! {

/// The amounts of a map, in atoms.
pub open spec fn amounts_in_atoms(m: Map<U256, Decimal>) -> Map<U256, int> {
    m.map_values(|d: Decimal| d@)
}

/// What a map holds under a key, zero where it holds nothing.
pub open spec fn amount_or_zero(m: Map<U256, int>, token: U256) -> int {
    if m.contains_key(token) {
        m[token]
    } else {
        0
    }
}

/// A position of less than this, either way, counts as none: 0.0001.
pub open spec fn dust() -> int {
    decimal::atoms(1, 4)
}

/// A cost below this is forgotten: 0.01.
pub open spec fn smallest_cost() -> int {
    decimal::atoms(1, 2)
}

/// The cost of a holding after a trade of `delta` shares. A purchase adds its price; a sale takes off
/// the sold share of the cost, and all of it where nothing is held.
pub open spec fn cost_after(cost: int, held: int, price: int, delta: int) -> Option<int> {
    if delta > 0 {
        decimal::opt_sum(Some(cost), decimal::product(price, delta))
    } else if held > 0 {
        let sold_share = decimal::quotient(decimal::min_of(-delta, held), held);
        match decimal::opt_product(Some(cost), decimal::opt_difference(Some(decimal::one()), sold_share)) {
            Some(c) => Some(decimal::max_of(c, 0)),
            None => None,
        }
    } else {
        Some(0)
    }
}

/// What a [`PositionTracker`] knows, in atoms.
pub struct TrackerView {
    /// Shares held of each token; negative for a short position.
    pub positions: Map<U256, int>,
    /// What the shares of each token cost.
    pub costs: Map<U256, int>,
    pub max_exposure: int,
    pub proxy_address: Option<Address>,
}

impl TrackerView {
    pub open spec fn position(self, token: U256) -> int {
        amount_or_zero(self.positions, token)
    }

    pub open spec fn cost(self, token: U256) -> int {
        amount_or_zero(self.costs, token)
    }

    /// `delta` more shares of the token are held. A position of (almost) zero is zero and has no cost.
    pub open spec fn update_position(self, token: U256, delta: int) -> Option<TrackerView> {
        match decimal::sum(self.position(token), delta) {
            Some(p) => if decimal::abs_of(p) < dust() {
                Some(
                    TrackerView {
                        positions: self.positions.insert(token, 0),
                        costs: self.costs.remove(token),
                        ..self
                    },
                )
            } else {
                Some(TrackerView { positions: self.positions.insert(token, p), ..self })
            },
            None => None,
        }
    }

    /// The cost follows a trade of `delta` shares at `price`; a cost below one cent is forgotten.
    pub open spec fn update_exposure_cost(self, token: U256, price: int, delta: int) -> Option<
        TrackerView,
    > {
        if delta == 0 {
            Some(self)
        } else {
            match cost_after(self.cost(token), self.position(token), price, delta) {
                Some(c) => if c < smallest_cost() {
                    Some(TrackerView { costs: self.costs.remove(token), ..self })
                } else {
                    Some(TrackerView { costs: self.costs.insert(token, c), ..self })
                },
                None => None,
            }
        }
    }

    /// No cost is left.
    pub open spec fn reset_exposure(self) -> TrackerView {
        TrackerView { costs: Map::empty(), ..self }
    }

    /// The shares are those that the exchange reports, and no others; the costs stay.
    pub open spec fn synced(self, positions: Seq<Position<int, Seq<char>>>) -> TrackerView {
        TrackerView { positions: reported_shares(reported::held(positions)), ..self }
    }

    /// `e` is the sum of all costs, taken in some order; `None` if a partial sum is out of range.
    pub open spec fn may_have_exposure(self, e: Option<int>) -> bool {
        exists|values: Seq<int>| #[trigger] token_amounts::lists_values(self.costs, values) && e == decimal::total(values)
    }

    /// The imbalance of a pair: `|yes - no| / (yes + no)`, zero where the sum is zero.
    pub open spec fn imbalance(self, yes_token: U256, no_token: U256) -> Option<int> {
        let yes = self.position(yes_token);
        let no = self.position(no_token);
        if decimal::sum(yes, no) == Some(0int) {
            Some(0)
        } else {
            decimal::opt_quotient(opt_abs(decimal::difference(yes, no)), decimal::sum(yes, no))
        }
    }
}

/// The shares of each token, as the exchange reports them: what comes later replaces what came before.
pub open spec fn reported_shares(positions: Seq<Position<int, Seq<char>>>) -> Map<U256, int>
    decreases positions.len(),
{
    if positions.len() == 0 {
        Map::empty()
    } else {
        reported_shares(positions.drop_last()).insert(positions.last().asset, positions.last().size)
    }
}

/// The absolute value of a result.
pub open spec fn opt_abs(a: Option<int>) -> Option<int> {
    match a {
        Some(x) => Some(decimal::abs_of(x)),
        None => None,
    }
}

/// Whether an order of this cost would lift the exposure above the limit.
pub open spec fn exceeds(exposure: Option<int>, yes_cost: int, no_cost: int, limit: int) -> Option<bool> {
    match decimal::opt_sum(exposure, decimal::sum(yes_cost, no_cost)) {
        Some(e) => Some(e > limit),
        None => None,
    }
}

/// Shares held and their cost, per token.
pub struct PositionTracker {
    positions: TokenAmounts,
    exposure_costs: TokenAmounts,
    max_exposure: Decimal,
    proxy_address: Option<Address>,
}

impl View for PositionTracker {
    type V = TrackerView;

    closed spec fn view(&self) -> TrackerView {
        TrackerView {
            positions: amounts_in_atoms(token_amounts::amounts(self.positions)),
            costs: amounts_in_atoms(token_amounts::amounts(self.exposure_costs)),
            max_exposure: self.max_exposure@,
            proxy_address: self.proxy_address,
        }
    }
}

/// A listing of a map's values, in atoms, lists the atoms.
proof fn lemma_listing_in_atoms(m: Map<U256, Decimal>, values: Seq<Decimal>)
    requires
        token_amounts::lists_values(m, values),
    ensures
        token_amounts::lists_values(amounts_in_atoms(m), decimal::all_atoms(values)),
{
    let keys = choose|keys: Seq<U256>|
        {
            &&& #[trigger] keys.no_duplicates()
            &&& keys.to_set() == m.dom()
            &&& values == keys.map_values(|k: U256| m[k])
        };
    let n = amounts_in_atoms(m);
    assert(n.dom() =~= m.dom());
    assert forall|i: int| 0 <= i < keys.len() implies n[#[trigger] keys[i]] == m[keys[i]]@ by {
        assert(keys.to_set().contains(keys[i]));
    }
    assert(decimal::all_atoms(values) =~= keys.map_values(|k: U256| n[k]));
}

impl PositionTracker {
    /// What is tracked, with decimal places.
    pub closed spec fn ledger(self) -> Ledger {
        Ledger {
            shares: ledger::amounts_in_digits(token_amounts::amounts(self.positions)),
            costs: ledger::amounts_in_digits(token_amounts::amounts(self.exposure_costs)),
            limit: self.max_exposure.digits(),
        }
    }

    /// A tracker that holds nothing.
    pub fn new(max_exposure: Decimal, proxy_address: Option<Address>) -> (r: Self)
        ensures
            r@ == (TrackerView {
                positions: Map::empty(),
                costs: Map::empty(),
                max_exposure: max_exposure@,
                proxy_address,
            }),
            r.ledger() == (Ledger { shares: Map::empty(), costs: Map::empty(), limit: max_exposure.digits() }),
    {
        let r = PositionTracker {
            positions: new_amounts(),
            exposure_costs: new_amounts(),
            max_exposure,
            proxy_address,
        };
        assert(r@.positions =~= Map::empty());
        assert(r@.costs =~= Map::empty());
        assert(r.ledger() =~= (Ledger {
            shares: Map::empty(),
            costs: Map::empty(),
            limit: max_exposure.digits(),
        }));
        r
    }

    /// Books `delta` more shares of a token. `None`, and no change, where the sum is out of range.
    pub fn update_position(&mut self, token_id: U256, delta: Decimal) -> (r: Option<()>)
        ensures
            r is Some <==> old(self)@.update_position(token_id, delta@) is Some,
            r is Some ==> Some(final(self)@) == old(self)@.update_position(token_id, delta@),
            r is None ==> final(self)@ == old(self)@,
            r is Some <==> old(self).ledger().booked(token_id, delta.digits()) is Some,
            final(self).ledger() == old(self).ledger().with(
                old(self).ledger().booked(token_id, delta.digits()),
            ),
    {
        let held = self.get_position(token_id);
        let p = checked_add(held, delta)?;
        if p.abs() < Decimal::new(1, 4) {
            insert_amount(&mut self.positions, token_id, Decimal::zero());
            remove_amount(&mut self.exposure_costs, token_id);
            assert(self@.positions =~= old(self)@.positions.insert(token_id, 0));
            assert(self@.costs =~= old(self)@.costs.remove(token_id));
        } else {
            insert_amount(&mut self.positions, token_id, p);
            assert(self@.positions =~= old(self)@.positions.insert(token_id, p@));
        }
        assert(Some(self.ledger()) =~= old(self).ledger().booked(token_id, delta.digits()));
        Some(())
    }

    /// Books the cost of a trade of `delta` shares at `price` (a sale where `delta` is negative).
    /// `None`, and no change, where a step of the computation is out of range. What a tracker holds are
    /// decimals, so that a sale does not raise the cost.
    pub fn update_exposure_cost(&mut self, token_id: U256, price: Decimal, delta: Decimal) -> (r: Option<()>)
        ensures
            r is Some <==> old(self)@.update_exposure_cost(token_id, price@, delta@) is Some,
            r is Some ==> Some(final(self)@) == old(self)@.update_exposure_cost(
                token_id,
                price@,
                delta@,
            ),
            r is None ==> final(self)@ == old(self)@,
            r is Some <==> old(self).ledger().charged(token_id, price.digits(), delta.digits()) is Some,
            final(self).ledger() == old(self).ledger().with(
                old(self).ledger().charged(token_id, price.digits(), delta.digits()),
            ),
            decimal::representable(old(self)@.cost(token_id)),
            delta@ < 0 && old(self)@.cost(token_id) >= 0 ==> 0 <= final(self)@.cost(token_id) <= old(
                self,
            )@.cost(token_id),
    {
        let zero = Decimal::zero();
        let cost = match get_amount(&self.exposure_costs, token_id) {
            Some(c) => c.exact(),
            None => zero.exact(),
        };
        assert(cost@ == old(self)@.cost(token_id));
        if delta == zero {
            return Some(());
        }
        proof {
            if delta@ < 0 && cost@ >= 0 {
                sale_does_not_raise_cost(self@, token_id, price@, -delta@);
            }
        }
        let held = self.get_position(token_id);
        let new_cost = if delta > zero {
            checked_add(cost, checked_mul(price, delta)?)?
        } else if held > zero {
            let sold = delta.neg().min(held);
            let sold_share = checked_div(sold, held)?;
            let kept_share = checked_sub(Decimal::new(1, 0), sold_share)?;
            checked_mul(cost, kept_share)?.max(zero)
        } else {
            zero
        };
        if new_cost < Decimal::new(1, 2) {
            remove_amount(&mut self.exposure_costs, token_id);
            assert(self@.costs =~= old(self)@.costs.remove(token_id));
        } else {
            insert_amount(&mut self.exposure_costs, token_id, new_cost);
            assert(self@.costs =~= old(self)@.costs.insert(token_id, new_cost@));
        }
        assert(Some(self.ledger()) =~= old(self).ledger().charged(token_id, price.digits(), delta.digits()));
        Some(())
    }

    /// The limit on the exposure.
    pub fn max_exposure(&self) -> (r: Decimal)
        ensures
            r@ == self@.max_exposure,
            r.digits() == self.ledger().limit,
    {
        self.max_exposure
    }

    /// The wallet whose positions are tracked.
    pub fn proxy_address(&self) -> (r: Option<Address>)
        ensures
            r == self@.proxy_address,
    {
        self.proxy_address
    }

    /// Forgets all costs: a new round starts from no exposure.
    pub fn reset_exposure(&mut self)
        ensures
            final(self)@ == old(self)@.reset_exposure(),
            final(self).ledger() == old(self).ledger().reset(),
    {
        clear_amounts(&mut self.exposure_costs);
        assert(self@.costs =~= Map::empty());
        assert(self.ledger() =~= old(self).ledger().reset());
    }

    /// The shares held of a token, zero where none are.
    pub fn get_position(&self, token_id: U256) -> (r: Decimal)
        ensures
            r@ == self@.position(token_id),
            r.digits() == ledger::digits_or_none(self.ledger().shares, token_id),
            decimal::representable(r@),
    {
        match get_amount(&self.positions, token_id) {
            Some(p) => p.exact(),
            None => Decimal::zero().exact(),
        }
    }

    /// How uneven a pair is held: 0 for even, 1 for one-sided. `None` where a step is out of range.
    pub fn calculate_imbalance(&self, yes_token: U256, no_token: U256) -> (r: Option<Decimal>)
        ensures
            decimal::opt_atoms(r) == self@.imbalance(yes_token, no_token),
    {
        let yes = self.get_position(yes_token);
        let no = self.get_position(no_token);
        let both = checked_add(yes, no)?;
        if both == Decimal::zero() {
            return Some(Decimal::zero());
        }
        let apart = checked_sub(yes, no)?;
        checked_div(apart.abs(), both)
    }

    /// The sum of all costs, added up in the order in which the map hands them out; `None` where a
    /// partial sum is out of range.
    pub fn calculate_exposure(&self) -> (r: Option<Decimal>)
        ensures
            self@.may_have_exposure(decimal::opt_atoms(r)),
            self.ledger().may_add_up_to(decimal::opt_digits(r)),
    {
        let costs = all_amounts(&self.exposure_costs);
        proof {
            lemma_listing_in_atoms(token_amounts::amounts(self.exposure_costs), costs@);
            assert(token_amounts::lists_values(self@.costs, decimal::all_atoms(costs@)));
            ledger::lemma_listing_in_digits(token_amounts::amounts(self.exposure_costs), costs@);
            assert(token_amounts::lists_values(self.ledger().costs, decimal::all_digits(costs@)));
        }
        sum_of(&costs)
    }

    /// Whether the exposure is within the limit.
    pub fn is_within_limits(&self) -> (r: Option<bool>)
        ensures
            exists|e: Option<int>| #[trigger]
                self@.may_have_exposure(e) && r == match e {
                    Some(x) => Some(x <= self@.max_exposure),
                    None => None,
                },
    {
        let exposure = self.calculate_exposure();
        assert(self@.may_have_exposure(decimal::opt_atoms(exposure)));
        match exposure {
            Some(e) => Some(e <= self.max_exposure),
            None => None,
        }
    }

    /// Whether orders of these costs would lift the exposure above the limit.
    pub fn would_exceed_limit(&self, yes_cost: Decimal, no_cost: Decimal) -> (r: Option<bool>)
        ensures
            exists|e: Option<int>| #[trigger]
                self@.may_have_exposure(e) && r == exceeds(e, yes_cost@, no_cost@, self@.max_exposure),
    {
        let exposure = self.calculate_exposure();
        assert(self@.may_have_exposure(decimal::opt_atoms(exposure)));
        match exposure {
            Some(e) => exceeds_limit(e, yes_cost, no_cost, self.max_exposure),
            None => None,
        }
    }

    /// Replaces all shares by those that the exchange reports, and gives back the positions of more than
    /// zero shares.
    pub fn sync_from_api(&mut self, positions: Vec<Position>) -> (r: Vec<Position>)
        ensures
            final(self)@ == old(self)@.synced(reported::position_views(positions@)),
            final(self).ledger() == old(self).ledger().synced(positions@),
            reported::position_views(r@) == reported::held(reported::position_views(positions@)),
    {
        let ghost all = reported::position_views(positions@);
        let ghost more = |p: Position<int, Seq<char>>| p.size > 0;
        let ghost costs = self@.costs;
        clear_amounts(&mut self.positions);
        assert(self@.positions =~= Map::empty());
        assert(self.ledger().shares =~= Map::empty());
        let mut kept: Vec<Position> = Vec::new();
        let mut i: usize = 0;
        proof {
            reveal(Seq::filter);
            assert(all.take(0).filter(more) =~= seq![]);
            assert(reported::position_views(kept@) =~= seq![]);
        }
        while i < positions.len()
            invariant
                i <= positions@.len(),
                all == reported::position_views(positions@),
                more == (|p: Position<int, Seq<char>>| p.size > 0),
                reported::position_views(kept@) == all.take(i as int).filter(more),
                self@.positions == reported_shares(all.take(i as int).filter(more)),
                self@.costs == costs,
                self@.max_exposure == old(self)@.max_exposure,
                self@.proxy_address == old(self)@.proxy_address,
                self.ledger() == old(self).ledger().synced(positions@.take(i as int)),
            decreases positions@.len() - i,
        {
            let p = &positions[i];
            let ghost before = reported::position_views(kept@);
            proof {
                assert(all.take(i + 1).drop_last() =~= all.take(i as int));
                assert(all.take(i + 1).last() == p@);
                assert(positions@.take(i + 1).drop_last() =~= positions@.take(i as int));
                reveal(Seq::filter);
            }
            if p.size > Decimal::zero() {
                insert_amount(&mut self.positions, p.asset, p.size);
                kept.push(
                    Position {
                        asset: p.asset,
                        condition_id: p.condition_id,
                        outcome_index: p.outcome_index,
                        size: p.size,
                        title: p.title.clone(),
                    },
                );
                assert(reported::position_views(kept@) =~= before.push(p@));
                assert(before.push(p@).drop_last() =~= before);
                assert(self@.positions =~= reported_shares(before).insert(p.asset, p.size@));
            }
            assert(self.ledger().shares =~= ledger::reported_digits(positions@.take(i + 1)));
            i += 1;
        }
        assert(all.take(positions@.len() as int) =~= all);
        assert(positions@.take(positions@.len() as int) =~= positions@);
        kept
    }

    /// The shares held of both tokens of a pair.
    pub fn get_pair_positions(&self, yes_token: U256, no_token: U256) -> (r: (Decimal, Decimal))
        ensures
            r.0@ == self@.position(yes_token),
            r.1@ == self@.position(no_token),
    {
        (self.get_position(yes_token), self.get_position(no_token))
    }
}

/// Whether orders of these costs would lift this exposure above the limit.
pub fn exceeds_limit(exposure: Decimal, yes_cost: Decimal, no_cost: Decimal, limit: Decimal) -> (r: Option<bool>)
    ensures
        r == exceeds(Some(exposure@), yes_cost@, no_cost@, limit@),
{
    let order_cost = checked_add(yes_cost, no_cost)?;
    let after = checked_add(exposure, order_cost)?;
    Some(after > limit)
}

/// Every cost that is kept is at least one cent.
pub open spec fn costs_are_kept(tracker: TrackerView) -> bool {
    forall|token: U256| #[trigger] tracker.costs.contains_key(token) ==> tracker.costs[token] >= smallest_cost()
}

/// Every cost that is kept is one that a decimal can hold.
pub open spec fn costs_are_decimals(tracker: TrackerView) -> bool {
    forall|token: U256| #[trigger]
        tracker.costs.contains_key(token) ==> decimal::representable(tracker.costs[token])
}

/// No operation keeps a cost of less than one cent; without costs there is none.
pub proof fn kept_costs_stay(
    tracker: TrackerView,
    token: U256,
    price: int,
    delta: int,
    positions: Seq<Position<int, Seq<char>>>,
)
    requires
        costs_are_kept(tracker),
    ensures
        tracker.update_exposure_cost(token, price, delta) matches Some(t) ==> costs_are_kept(t),
        tracker.update_position(token, delta) matches Some(t) ==> costs_are_kept(t),
        costs_are_kept(tracker.reset_exposure()),
        costs_are_kept(tracker.synced(positions)),
{
}

/// Every operation keeps costs that a decimal can hold; without costs there is no other.
pub proof fn costs_stay_decimals(
    tracker: TrackerView,
    token: U256,
    price: int,
    delta: int,
    positions: Seq<Position<int, Seq<char>>>,
)
    requires
        costs_are_decimals(tracker),
    ensures
        tracker.update_exposure_cost(token, price, delta) matches Some(t) ==> costs_are_decimals(t),
        tracker.update_position(token, delta) matches Some(t) ==> costs_are_decimals(t),
        costs_are_decimals(tracker.reset_exposure()),
        costs_are_decimals(tracker.synced(positions)),
{
    let cost = tracker.cost(token);
    let held = tracker.position(token);
    if delta > 0 {
        if decimal::product(price, delta) is Some {
            decimal::lemma_nearest_representable(cost + decimal::product(price, delta)->0, 1, 0);
        }
    } else if held > 0 {
        let kept = decimal::opt_difference(
            Some(decimal::one()),
            decimal::quotient(decimal::min_of(-delta, held), held),
        );
        if kept is Some {
            decimal::lemma_nearest_representable(cost * kept->0, decimal::one(), 0);
        }
    }
}

/// A trade that is booked leaves all shares and the costs of all other tokens as they are, and one of no
/// shares changes nothing.
pub proof fn cost_update_touches_one_cost(
    tracker: TrackerView,
    token: U256,
    price: int,
    delta: int,
    other: U256,
)
    requires
        other != token,
    ensures
        tracker.update_exposure_cost(token, price, delta) matches Some(t) ==> {
            &&& t.positions == tracker.positions
            &&& t.cost(other) == tracker.cost(other)
            &&& t.costs.contains_key(other) == tracker.costs.contains_key(other)
            &&& t.max_exposure == tracker.max_exposure
            &&& t.proxy_address == tracker.proxy_address
        },
        tracker.update_exposure_cost(token, price, 0) == Some(tracker),
{
}

/// Selling all that is held, or more, clears the cost, whatever the price; so does a sale of a token of
/// which nothing is held.
pub proof fn full_sale_clears_cost(tracker: TrackerView, token: U256, price: int, sold: int)
    requires
        sold > 0,
        sold >= tracker.position(token),
    ensures
        tracker.update_exposure_cost(token, price, -sold) == Some(
            TrackerView { costs: tracker.costs.remove(token), ..tracker },
        ),
{
    let held = tracker.position(token);
    if held > 0 {
        let one = decimal::one();
        decimal::lemma_nearest_scaled(one, held, 0);
        assert(held * one == one * held) by (nonlinear_arith);
        assert(decimal::representable(one)) by {
            assert(one == 1 * decimal::pow10(28));
        }
        decimal::lemma_representable_exact(one);
        assert(decimal::quotient(held, held) == Some(one));
        decimal::lemma_small_exact(0);
        assert(decimal::difference(one, one) == Some(0int));
        let cost = tracker.cost(token);
        assert(cost * 0 == 0 * one) by (nonlinear_arith);
        decimal::lemma_nearest_scaled(0, one, 0);
        assert(decimal::product(cost, 0) == Some(0int));
    }
}

/// A sale never makes a cost grow.
pub proof fn sale_does_not_raise_cost(tracker: TrackerView, token: U256, price: int, sold: int)
    requires
        sold > 0,
        tracker.cost(token) >= 0,
        decimal::representable(tracker.cost(token)),
    ensures
        tracker.update_exposure_cost(token, price, -sold) matches Some(t) ==> 0 <= t.cost(token)
            <= tracker.cost(token),
{
    let held = tracker.position(token);
    let cost = tracker.cost(token);
    let one = decimal::one();
    if held > 0 {
        let part = decimal::min_of(sold, held);
        decimal::lemma_nearest_scaled(0, held, 0);
        decimal::lemma_small_exact(0);
        assert(0 * held == 0) by (nonlinear_arith);
        assert(part * one >= 0) by (nonlinear_arith)
            requires
                part > 0,
                one > 0,
        ;
        decimal::lemma_nearest_monotone(0, part * one, held);
        match decimal::quotient(part, held) {
            Some(share) => {
                assert(share >= 0);
                assert(decimal::representable(one)) by {
                    assert(one == 1 * decimal::pow10(28));
                }
                decimal::lemma_nearest_at_most(one - share, one);
                match decimal::difference(one, share) {
                    Some(kept) => {
                        assert(cost * kept <= cost * one) by (nonlinear_arith)
                            requires
                                cost >= 0,
                                kept <= one,
                        ;
                        decimal::lemma_nearest_scaled(cost, one, 0);
                        decimal::lemma_representable_exact(cost);
                        decimal::lemma_nearest_monotone(cost * kept, cost * one, one);
                    },
                    None => {},
                }
            },
            None => {},
        }
    }
}

/// After a reset there is no exposure.
pub proof fn reset_clears_exposure(tracker: TrackerView, e: Option<int>)
    requires
        tracker.reset_exposure().may_have_exposure(e),
    ensures
        e == Some(0int),
{
    let values = choose|values: Seq<int>| #[trigger]
        token_amounts::lists_values(tracker.reset_exposure().costs, values) && e == decimal::total(values);
    let keys = choose|keys: Seq<U256>|
        {
            &&& #[trigger] keys.no_duplicates()
            &&& keys.to_set() == tracker.reset_exposure().costs.dom()
            &&& values == keys.map_values(|k: U256| tracker.reset_exposure().costs[k])
        };
    if keys.len() > 0 {
        assert(keys.to_set().contains(keys[0]));
    }
}

/// An order that does not exceed the limit leaves the exposure within it.
pub proof fn accepted_order_keeps_limit(exposure: int, yes_cost: int, no_cost: int, limit: int)
    requires
        exceeds(Some(exposure), yes_cost, no_cost, limit) == Some(false),
    ensures
        decimal::opt_sum(Some(exposure), decimal::sum(yes_cost, no_cost)) is Some,
        decimal::opt_sum(Some(exposure), decimal::sum(yes_cost, no_cost))->0 <= limit,
{
}

/// A position that comes down to (almost) nothing has no cost left.
pub proof fn closed_position_has_no_cost(tracker: TrackerView, token: U256, delta: int)
    requires
        tracker.update_position(token, delta) is Some,
        (tracker.update_position(token, delta)->0).position(token) == 0,
    ensures
        (tracker.update_position(token, delta)->0).cost(token) == 0,
{
}

/// Where nothing is held short, the imbalance of a pair lies between 0 and 1: it is 0 where both sides are
/// the same, and 1 where only one is held.
pub proof fn imbalance_between_zero_and_one(tracker: TrackerView, yes_token: U256, no_token: U256)
    requires
        tracker.position(yes_token) >= 0,
        tracker.position(no_token) >= 0,
        decimal::representable(tracker.position(yes_token)),
        decimal::representable(tracker.position(no_token)),
    ensures
        tracker.imbalance(yes_token, no_token) matches Some(i) ==> 0 <= i <= decimal::one(),
        tracker.position(yes_token) == tracker.position(no_token) ==> (tracker.imbalance(
            yes_token,
            no_token,
        ) matches Some(i) ==> i == 0),
        tracker.position(yes_token) > 0 && tracker.position(no_token) == 0 ==> tracker.imbalance(
            yes_token,
            no_token,
        ) == Some(decimal::one()),
        tracker.position(yes_token) == 0 && tracker.position(no_token) > 0 ==> tracker.imbalance(
            yes_token,
            no_token,
        ) == Some(decimal::one()),
{
    let yes = tracker.position(yes_token);
    let no = tracker.position(no_token);
    let one = decimal::one();
    decimal::lemma_small_exact(0);
    decimal::lemma_nearest_monotone(yes - no, yes + no, 1);
    decimal::lemma_nearest_monotone(no - yes, yes + no, 1);
    decimal::lemma_nearest_negated(yes - no, 1, 0);
    decimal::lemma_nearest_monotone(0, yes + no, 1);
    decimal::lemma_representable_exact(yes);
    decimal::lemma_representable_exact(no);
    match (decimal::difference(yes, no), decimal::sum(yes, no)) {
        (Some(d), Some(both)) => {
            let apart = decimal::abs_of(d);
            assert(0 <= apart <= both);
            if both > 0 {
                assert(0 <= apart * one <= one * both) by (nonlinear_arith)
                    requires
                        0 <= apart <= both,
                        one > 0,
                ;
                decimal::lemma_nearest_scaled(one, both, 0);
                decimal::lemma_nearest_scaled(0, both, 0);
                assert(0 * both == 0);
                assert(decimal::representable(one)) by {
                    assert(one == 1 * decimal::pow10(28));
                }
                decimal::lemma_representable_exact(one);
                decimal::lemma_nearest_monotone(apart * one, one * both, both);
                decimal::lemma_nearest_monotone(0, apart * one, both);
                assert(apart == both ==> apart * one == one * both) by (nonlinear_arith);
            }
        },
        _ => {},
    }
}

} // verus!
