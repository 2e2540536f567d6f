//! The apex market maker: quotes both tokens of a market around their fair value, in four phases of
//! a five-minute window, leaning against its own inventory and backing off from toxic flow.
use vstd::prelude::*;

use crate::decimal;
use crate::decimal::{checked_add, checked_div, checked_mul, checked_sub, sum_of, Decimal};
use crate::market::MarketInfo;
use crate::monitor::{BookUpdate, BookView, Level, OrderBookPair, PairView};
use crate::strategy;
use crate::time;
use crate::time::{elapsed_millis, elapsed_nanos, seconds_between, Now};
use crate::types::{B256, U256};

use super::fair_value;
use super::fair_value::{fair_value, FairValue};
use super::market_table::{MarketSet, MarketTable};
use super::{has_room, skip, Action, SkipReason, StrategyContext, ToxicityReason};

verus! {

/// The settings of the apex market maker.
#[derive(Clone, Copy, Debug)]
pub struct ApexConfig<D = Decimal> {
    /// Distance of each bid from its reservation price, before the multipliers.
    pub base_spread: D,
    /// How far one share of net inventory shifts the reservation prices.
    pub inventory_gamma: D,
    /// The most shares that a side takes, if every quote is filled.
    pub max_position_per_side: D,
    /// Size of each quote.
    pub quote_size: D,
    /// Fewer seconds than this before the end of the window nothing is quoted.
    pub min_seconds_to_quote: i64,
    /// This many requotes in ten seconds are toxic, where some come in quick succession.
    pub toxicity_quote_threshold: u32,
    /// A move of the book's imbalance by this much is toxic.
    pub toxicity_imbalance_threshold: D,
}

impl View for ApexConfig<Decimal> {
    type V = ApexConfig<int>;

    open spec fn view(&self) -> ApexConfig<int> {
        ApexConfig {
            base_spread: self.base_spread@,
            inventory_gamma: self.inventory_gamma@,
            max_position_per_side: self.max_position_per_side@,
            quote_size: self.quote_size@,
            min_seconds_to_quote: self.min_seconds_to_quote,
            toxicity_quote_threshold: self.toxicity_quote_threshold,
            toxicity_imbalance_threshold: self.toxicity_imbalance_threshold@,
        }
    }
}

impl Default for ApexConfig<Decimal> {
    fn default() -> (r: Self)
        ensures
            r@ == (ApexConfig {
                base_spread: decimal::atoms(3, 2),
                inventory_gamma: decimal::atoms(5, 2),
                max_position_per_side: decimal::atoms(10, 0),
                quote_size: decimal::atoms(1, 0),
                min_seconds_to_quote: 10,
                toxicity_quote_threshold: 5,
                toxicity_imbalance_threshold: decimal::atoms(3, 1),
            }),
    {
        ApexConfig {
            base_spread: Decimal::new(3, 2),
            inventory_gamma: Decimal::new(5, 2),
            max_position_per_side: Decimal::new(10, 0),
            quote_size: Decimal::new(1, 0),
            min_seconds_to_quote: 10,
            toxicity_quote_threshold: 5,
            toxicity_imbalance_threshold: Decimal::new(3, 1),
        }
    }
}

/// The four phases of a window.
#[derive(Clone, Copy, Debug, PartialEq, Eq, Structural)]
pub enum ApexPhase {
    /// The first minute: wide quotes.
    Early,
    /// The second and third minute.
    Adaptive,
    /// The fourth minute: the inventory is brought down.
    Cleanup,
    /// From the fifth minute on: close to expiry.
    Resolution,
}

/// The phase after so many seconds.
pub open spec fn phase_after(elapsed: int) -> ApexPhase {
    if elapsed < 60 {
        ApexPhase::Early
    } else if elapsed < 180 {
        ApexPhase::Adaptive
    } else if elapsed < 240 {
        ApexPhase::Cleanup
    } else {
        ApexPhase::Resolution
    }
}

impl ApexPhase {
    /// The phase after so many seconds.
    pub fn from_elapsed_secs(elapsed: i64) -> (r: ApexPhase)
        ensures
            r == phase_after(elapsed as int),
    {
        if elapsed < 60 {
            ApexPhase::Early
        } else if elapsed < 180 {
            ApexPhase::Adaptive
        } else if elapsed < 240 {
            ApexPhase::Cleanup
        } else {
            ApexPhase::Resolution
        }
    }

    /// The factor on the spread, in atoms.
    pub open spec fn multiplier(self) -> int {
        match self {
            ApexPhase::Early => decimal::atoms(15, 1),
            ApexPhase::Adaptive => decimal::atoms(10, 1),
            ApexPhase::Cleanup => decimal::atoms(12, 1),
            ApexPhase::Resolution => decimal::atoms(20, 1),
        }
    }

    /// The factor on the spread.
    pub fn spread_multiplier(&self) -> (r: Decimal)
        ensures
            r@ == self.multiplier(),
    {
        match self {
            ApexPhase::Early => Decimal::new(15, 1),
            ApexPhase::Adaptive => Decimal::new(10, 1),
            ApexPhase::Cleanup => Decimal::new(12, 1),
            ApexPhase::Resolution => Decimal::new(20, 1),
        }
    }
}

/// How the flow of a market is judged.
#[derive(Clone, Copy, Debug, PartialEq, Eq, Structural)]
pub enum ToxicityState {
    Normal,
    Caution,
    Toxic,
}

impl ToxicityState {
    /// The factor on the spread, in atoms.
    pub open spec fn multiplier(self) -> int {
        match self {
            ToxicityState::Normal => decimal::atoms(10, 1),
            ToxicityState::Caution => decimal::atoms(15, 1),
            ToxicityState::Toxic => decimal::atoms(30, 1),
        }
    }

    /// The factor on the spread.
    pub fn spread_multiplier(&self) -> (r: Decimal)
        ensures
            r@ == self.multiplier(),
    {
        match self {
            ToxicityState::Normal => Decimal::new(10, 1),
            ToxicityState::Caution => Decimal::new(15, 1),
            ToxicityState::Toxic => Decimal::new(30, 1),
        }
    }
}

/// What is known of one market.
#[derive(Debug)]
pub struct MarketState {
    /// YES shares, counting every quote as filled.
    pub yes_held: Decimal,
    /// NO shares, counting every quote as filled.
    pub no_held: Decimal,
    /// When the market was requoted, oldest first.
    pub recent_quotes: Vec<u64>,
    /// The imbalance of the YES book at the last look.
    pub last_imbalance: Option<Decimal>,
    pub toxicity: ToxicityState,
    pub toxicity_reason: ToxicityReason,
}

/// What is known of one market, in atoms.
#[verifier::ext_equal]
pub struct MarketView {
    pub yes_held: int,
    pub no_held: int,
    pub recent_quotes: Seq<u64>,
    pub last_imbalance: Option<int>,
    pub toxicity: ToxicityState,
    pub toxicity_reason: ToxicityReason<int>,
}

impl View for MarketState {
    type V = MarketView;

    open spec fn view(&self) -> MarketView {
        MarketView {
            yes_held: self.yes_held@,
            no_held: self.no_held@,
            recent_quotes: self.recent_quotes@,
            last_imbalance: decimal::opt_atoms(self.last_imbalance),
            toxicity: self.toxicity,
            toxicity_reason: self.toxicity_reason@,
        }
    }
}

/// A market of which nothing is known.
pub open spec fn fresh_market() -> MarketView {
    MarketView {
        yes_held: 0,
        no_held: 0,
        recent_quotes: Seq::empty(),
        last_imbalance: None,
        toxicity: ToxicityState::Normal,
        toxicity_reason: ToxicityReason::Unjudged,
    }
}

impl Default for MarketState {
    fn default() -> (r: Self)
        ensures
            r@ == fresh_market(),
            r.held_digits() == (decimal::no_digits(), decimal::no_digits()),
    {
        MarketState {
            yes_held: Decimal::zero(),
            no_held: Decimal::zero(),
            recent_quotes: Vec::new(),
            last_imbalance: None,
            toxicity: ToxicityState::Normal,
            toxicity_reason: ToxicityReason::Unjudged,
        }
    }
}

impl MarketState {
    /// The YES and NO shares, with their decimal places.
    pub open spec fn held_digits(self) -> (decimal::Digits, decimal::Digits) {
        (self.yes_held.digits(), self.no_held.digits())
    }
}

/// A quote counts as a requote of its own when it comes more than half a second after the last one.
pub open spec fn quotes_after(quotes: Seq<u64>, now: u64) -> Seq<u64> {
    if quotes.len() == 0 || time::millis_between(now, quotes.last()) > 500 {
        quotes.push(now)
    } else {
        quotes
    }
}

/// The requotes of the last ten seconds.
pub open spec fn recent(quotes: Seq<u64>, now: u64) -> Seq<u64> {
    quotes.filter(|t: u64| time::nanos_since(now, t) < 10_000_000_000)
}

/// The shortest span between neighbours, in milliseconds.
pub open spec fn min_gap(quotes: Seq<u64>) -> Option<int>
    decreases quotes.len(),
{
    if quotes.len() < 2 {
        None
    } else {
        let gap = time::millis_between(quotes.last(), quotes[quotes.len() - 2]);
        match min_gap(quotes.drop_last()) {
            Some(g) => Some(decimal::min_of(g, gap)),
            None => Some(gap),
        }
    }
}

/// Caution starts one requote below the toxic number, and at one at the least.
pub open spec fn caution_threshold(threshold: u32) -> int {
    if threshold <= 2 {
        1
    } else {
        threshold - 1
    }
}

/// What the number of requotes, and how close they follow each other, says of the flow.
pub open spec fn velocity_signal(threshold: u32, quotes: Seq<u64>) -> (ToxicityState, ToxicityReason<int>) {
    let count = quotes.len() as u32;
    match min_gap(quotes) {
        Some(gap) if gap < 1500 && count >= threshold => (
            ToxicityState::Toxic,
            ToxicityReason::HighVelocity { quotes: count, min_gap_ms: gap as u64 },
        ),
        Some(gap) if gap < 1500 && count >= caution_threshold(threshold) => (
            ToxicityState::Caution,
            ToxicityReason::ModerateVelocity { quotes: count, min_gap_ms: gap as u64 },
        ),
        _ => (ToxicityState::Normal, ToxicityReason::Normal),
    }
}

/// What a move of the book's imbalance from `prev` to `curr` adds to that; `None` where the move is
/// out of range.
pub open spec fn imbalance_signal(
    threshold: int,
    prev: int,
    curr: int,
    so_far: (ToxicityState, ToxicityReason<int>),
) -> Option<(ToxicityState, ToxicityReason<int>)> {
    match decimal::difference(curr, prev) {
        None => None,
        Some(d) => {
            let shift = decimal::abs_of(d);
            if shift >= threshold {
                if so_far.0 is Toxic {
                    Some(so_far)
                } else {
                    Some((ToxicityState::Toxic, ToxicityReason::ImbalanceShift { prev, curr }))
                }
            } else {
                match decimal::quotient(threshold, decimal::atoms(2, 0)) {
                    None => None,
                    Some(half) => if shift >= half && so_far.0 is Normal {
                        Some((ToxicityState::Caution, ToxicityReason::ImbalanceDrift { prev, curr }))
                    } else {
                        Some(so_far)
                    },
                }
            }
        },
    }
}

/// The two signals together.
pub open spec fn judgement(
    config: ApexConfig<int>,
    quotes: Seq<u64>,
    prev: Option<int>,
    curr: Option<int>,
) -> Option<(ToxicityState, ToxicityReason<int>)> {
    let velocity = velocity_signal(config.toxicity_quote_threshold, quotes);
    match (curr, prev) {
        (Some(c), Some(p)) => imbalance_signal(config.toxicity_imbalance_threshold, p, c, velocity),
        _ => Some(velocity),
    }
}

/// A result that is at least `low`.
pub open spec fn opt_at_least(a: Option<int>, low: int) -> Option<int> {
    match a {
        Some(x) => Some(decimal::max_of(x, low)),
        None => None,
    }
}

/// The least bid: 0.01.
pub open spec fn cent() -> int {
    decimal::atoms(1, 2)
}

/// A bid raised by two cents, but not to within half a cent of the fair value, nor below one cent.
pub open spec fn raised(bid: Option<int>, fair: int) -> Option<int> {
    let cap = opt_at_least(decimal::difference(fair, decimal::atoms(5, 3)), cent());
    let up = decimal::opt_sum(bid, Some(decimal::atoms(2, 2)));
    match (up, cap) {
        (Some(u), Some(c)) => Some(decimal::max_of(decimal::min_of(u, c), cent())),
        _ => None,
    }
}

/// A bid lowered by three cents, but not below one.
pub open spec fn lowered(bid: Option<int>) -> Option<int> {
    opt_at_least(decimal::opt_difference(bid, Some(decimal::atoms(3, 2))), cent())
}

/// The half spread of a market with this net inventory.
pub open spec fn half_spread(
    config: ApexConfig<int>,
    phase: ApexPhase,
    toxicity: ToxicityState,
    net: int,
) -> Option<int> {
    let half = decimal::opt_product(
        decimal::product(config.base_spread, phase.multiplier()),
        Some(toxicity.multiplier()),
    );
    if phase is Cleanup && decimal::abs_of(net) > decimal::atoms(2, 0) {
        decimal::opt_product(half, Some(decimal::atoms(8, 1)))
    } else {
        half
    }
}

/// Two bids and whether each side may be bid for; `None` where a bid is out of range.
pub open spec fn opt_quotes(yes: Option<int>, no: Option<int>, can_yes: bool, can_no: bool) -> Option<
    (int, int, bool, bool),
> {
    match (yes, no) {
        (Some(y), Some(n)) => Some((y, n, can_yes, can_no)),
        _ => None,
    }
}

impl MarketView {
    /// YES shares less NO shares.
    pub open spec fn net_inventory(self) -> Option<int> {
        decimal::difference(self.yes_held, self.no_held)
    }

    /// A quote of `size` on one side, counted as filled.
    pub open spec fn record_quote(self, is_yes: bool, size: int, now: u64) -> Option<MarketView> {
        let quoted = MarketView { recent_quotes: quotes_after(self.recent_quotes, now), ..self };
        if is_yes {
            match decimal::sum(self.yes_held, size) {
                Some(held) => Some(MarketView { yes_held: held, ..quoted }),
                None => None,
            }
        } else {
            match decimal::sum(self.no_held, size) {
                Some(held) => Some(MarketView { no_held: held, ..quoted }),
                None => None,
            }
        }
    }

    /// Old requotes are forgotten, the flow is judged anew and the imbalance is kept for next time.
    pub open spec fn update_toxicity(
        self,
        config: ApexConfig<int>,
        imbalance: Option<int>,
        now: u64,
    ) -> Option<MarketView> {
        let quotes = recent(self.recent_quotes, now);
        match judgement(config, quotes, self.last_imbalance, imbalance) {
            Some((toxicity, toxicity_reason)) => Some(
                MarketView {
                    recent_quotes: quotes,
                    last_imbalance: imbalance,
                    toxicity,
                    toxicity_reason,
                    ..self
                },
            ),
            None => None,
        }
    }

    /// The fair values, moved against what is held on balance: the prices around which both sides are bid
    /// for.
    pub open spec fn reservation_prices(
        self,
        config: ApexConfig<int>,
        yes_fair: int,
        no_fair: int,
    ) -> Option<(int, int)> {
        let skew = decimal::opt_product(Some(config.inventory_gamma), self.net_inventory());
        match (decimal::opt_difference(Some(yes_fair), skew), decimal::opt_sum(Some(no_fair), skew)) {
            (Some(yes), Some(no)) => Some((yes, no)),
            _ => None,
        }
    }

    /// The bids for both sides and whether each side may be bid for.
    pub open spec fn calculate_quotes(
        self,
        config: ApexConfig<int>,
        phase: ApexPhase,
        yes_fair: int,
        no_fair: int,
    ) -> Option<(int, int, bool, bool)> {
        match self.net_inventory() {
            None => None,
            Some(net) => {
                let skew = decimal::product(config.inventory_gamma, net);
                let half = half_spread(config, phase, self.toxicity, net);
                let yes_bid = opt_at_least(
                    decimal::opt_difference(decimal::opt_difference(Some(yes_fair), skew), half),
                    cent(),
                );
                let no_bid = opt_at_least(
                    decimal::opt_difference(decimal::opt_sum(Some(no_fair), skew), half),
                    cent(),
                );
                let size = config.quote_size;
                let can_yes = strategy::fits(self.yes_held, size, config.max_position_per_side);
                let can_no = strategy::fits(self.no_held, size, config.max_position_per_side);
                if phase is Resolution {
                    if net > decimal::atoms(5, 0) {
                        opt_quotes(yes_bid, raised(no_bid, no_fair), false, can_no)
                    } else if net < decimal::atoms(-5, 0) {
                        opt_quotes(raised(yes_bid, yes_fair), no_bid, can_yes, false)
                    } else if net > decimal::atoms(2, 0) {
                        opt_quotes(lowered(yes_bid), no_bid, can_yes, can_no)
                    } else if net < decimal::atoms(-2, 0) {
                        opt_quotes(yes_bid, lowered(no_bid), can_yes, can_no)
                    } else {
                        opt_quotes(yes_bid, no_bid, can_yes, can_no)
                    }
                } else {
                    opt_quotes(yes_bid, no_bid, can_yes, can_no)
                }
            },
        }
    }
}

/// Two bids may not both be quoted where they add up to 0.99 or more. `None` where both would be
/// quoted and the sum is out of range.
pub open spec fn safe_pair(yes_bid: int, no_bid: int, can_yes: bool, can_no: bool) -> Option<bool> {
    if can_yes && can_no {
        match decimal::sum(yes_bid, no_bid) {
            Some(total) => Some(total < decimal::atoms(99, 2)),
            None => None,
        }
    } else {
        Some(true)
    }
}

/// The requotes of the last ten seconds.
fn keep_recent(quotes: &Vec<u64>, now: u64) -> (r: Vec<u64>)
    ensures
        r@ == recent(quotes@, now),
{
    let ghost fresh = |t: u64| time::nanos_since(now, t) < 10_000_000_000;
    let mut kept: Vec<u64> = Vec::new();
    let mut i: usize = 0;
    assert(quotes@.take(0).filter(fresh) =~= Seq::<u64>::empty()) by {
        reveal(Seq::filter);
    }
    while i < quotes.len()
        invariant
            i <= quotes@.len(),
            fresh == (|t: u64| time::nanos_since(now, t) < 10_000_000_000),
            kept@ == quotes@.take(i as int).filter(fresh),
        decreases quotes@.len() - i,
    {
        proof {
            assert(quotes@.take(i + 1).drop_last() =~= quotes@.take(i as int));
            assert(quotes@.take(i + 1).last() == quotes@[i as int]);
            reveal(Seq::filter);
        }
        if elapsed_nanos(now, quotes[i]) < 10_000_000_000 {
            kept.push(quotes[i]);
        }
        i += 1;
    }
    assert(quotes@.take(quotes@.len() as int) =~= quotes@);
    kept
}

/// The shortest span between neighbours, in milliseconds.
fn shortest_gap(quotes: &Vec<u64>) -> (r: Option<u64>)
    ensures
        r matches Some(g) ==> min_gap(quotes@) == Some(g as int),
        r is None ==> min_gap(quotes@) is None,
{
    if quotes.len() == 0 {
        return None;
    }
    let mut shortest: Option<u64> = None;
    let mut i: usize = 1;
    while i < quotes.len()
        invariant
            1 <= i <= quotes@.len(),
            shortest matches Some(g) ==> min_gap(quotes@.take(i as int)) == Some(g as int),
            shortest is None ==> min_gap(quotes@.take(i as int)) is None,
        decreases quotes@.len() - i,
    {
        let gap = elapsed_millis(quotes[i], quotes[i - 1]);
        assert(quotes@.take(i + 1).drop_last() =~= quotes@.take(i as int));
        shortest = match shortest {
            Some(g) => if g > gap {
                Some(gap)
            } else {
                Some(g)
            },
            None => Some(gap),
        };
        i += 1;
    }
    assert(quotes@.take(quotes@.len() as int) =~= quotes@);
    shortest
}

impl MarketState {
    /// YES shares less NO shares.
    pub fn net_inventory(&self) -> (r: Option<Decimal>)
        ensures
            decimal::opt_atoms(r) == self@.net_inventory(),
            decimal::opt_digits(r) == decimal::subtracted(self.yes_held.digits(), self.no_held.digits()),
    {
        checked_sub(self.yes_held, self.no_held)
    }

    /// Counts a quote of `size` on one side as filled. `None`, and no change, where the sum is out of
    /// range.
    pub fn record_quote(&mut self, is_yes: bool, size: Decimal, now: u64) -> (r: Option<()>)
        ensures
            r is Some <==> old(self)@.record_quote(is_yes, size@, now) is Some,
            r is Some ==> Some(final(self)@) == old(self)@.record_quote(is_yes, size@, now),
            r is Some && is_yes ==> Some(final(self).yes_held.digits()) == decimal::added(
                old(self).yes_held.digits(),
                size.digits(),
            ) && final(self).no_held == old(self).no_held,
            r is Some && !is_yes ==> Some(final(self).no_held.digits()) == decimal::added(
                old(self).no_held.digits(),
                size.digits(),
            ) && final(self).yes_held == old(self).yes_held,
            r is None ==> final(self)@ == old(self)@,
    {
        if is_yes {
            self.yes_held = checked_add(self.yes_held, size)?;
        } else {
            self.no_held = checked_add(self.no_held, size)?;
        }
        let n = self.recent_quotes.len();
        if n == 0 || elapsed_millis(now, self.recent_quotes[n - 1]) > 500 {
            self.recent_quotes.push(now);
        }
        Some(())
    }

    /// Judges the flow anew. `None`, and no change, where the move of the imbalance is out of range.
    pub fn update_toxicity(&mut self, config: &ApexConfig, current_imbalance: Option<Decimal>, now: u64) -> (r:
        Option<()>)
        ensures
            r is Some <==> old(self)@.update_toxicity(
                config@,
                decimal::opt_atoms(current_imbalance),
                now,
            ) is Some,
            r is Some ==> Some(final(self)@) == old(self)@.update_toxicity(
                config@,
                decimal::opt_atoms(current_imbalance),
                now,
            ),
            r is None ==> final(self)@ == old(self)@,
            final(self).held_digits() == old(self).held_digits(),
    {
        let quotes = keep_recent(&self.recent_quotes, now);
        let velocity: u32 = quotes.len() as u32;
        let threshold: u32 = config.toxicity_quote_threshold;
        let caution: u32 = if threshold <= 2 {
            1
        } else {
            threshold - 1
        };
        let gap = shortest_gap(&quotes);
        let (mut toxicity, mut reason) = match gap {
            Some(ms) => if ms < 1500 && velocity >= threshold {
                (
                    ToxicityState::Toxic,
                    ToxicityReason::HighVelocity { quotes: velocity, min_gap_ms: ms },
                )
            } else if ms < 1500 && velocity >= caution {
                (
                    ToxicityState::Caution,
                    ToxicityReason::ModerateVelocity { quotes: velocity, min_gap_ms: ms },
                )
            } else {
                (ToxicityState::Normal, ToxicityReason::Normal)
            },
            None => (ToxicityState::Normal, ToxicityReason::Normal),
        };
        assert((toxicity, reason@) == velocity_signal(threshold, quotes@));
        match (current_imbalance, self.last_imbalance) {
            (Some(curr), Some(prev)) => {
                let shift = checked_sub(curr, prev)?.abs();
                if shift >= config.toxicity_imbalance_threshold {
                    if toxicity != ToxicityState::Toxic {
                        toxicity = ToxicityState::Toxic;
                        reason = ToxicityReason::ImbalanceShift { prev, curr };
                    }
                } else {
                    let half = checked_div(config.toxicity_imbalance_threshold, Decimal::new(2, 0))?;
                    if shift >= half && toxicity == ToxicityState::Normal {
                        toxicity = ToxicityState::Caution;
                        reason = ToxicityReason::ImbalanceDrift { prev, curr };
                    }
                }
            },
            _ => {},
        }
        self.recent_quotes = quotes;
        self.last_imbalance = current_imbalance;
        self.toxicity = toxicity;
        self.toxicity_reason = reason;
        Some(())
    }

    /// The prices around which both sides are bid for: the more YES is held on balance, the lower the one
    /// for YES and the higher the one for NO. `None` where a step is out of range.
    pub fn reservation_prices(&self, config: &ApexConfig, yes_fair: Decimal, no_fair: Decimal) -> (r: Option<
        (Decimal, Decimal),
    >)
        ensures
            (match r {
                Some((yes, no)) => Some((yes@, no@)),
                None => None,
            }) == self@.reservation_prices(config@, yes_fair@, no_fair@),
    {
        let skew = checked_mul(config.inventory_gamma, self.net_inventory()?)?;
        Some((checked_sub(yes_fair, skew)?, checked_add(no_fair, skew)?))
    }

    /// The bids for both sides, and whether each side may be bid for. `None` where a step of the
    /// computation is out of range.
    pub fn calculate_quotes(
        &self,
        config: &ApexConfig,
        phase: ApexPhase,
        yes_fair: Decimal,
        no_fair: Decimal,
    ) -> (r: Option<(Decimal, Decimal, bool, bool)>)
        ensures
            (match r {
                Some(q) => Some((q.0@, q.1@, q.2, q.3)),
                None => None,
            }) == self@.calculate_quotes(config@, phase, yes_fair@, no_fair@),
    {
        let cent = Decimal::new(1, 2);
        let net = self.net_inventory()?;
        let (yes_reservation, no_reservation) = self.reservation_prices(config, yes_fair, no_fair)?;
        let mut half = checked_mul(
            checked_mul(config.base_spread, phase.spread_multiplier())?,
            self.toxicity.spread_multiplier(),
        )?;
        if phase == ApexPhase::Cleanup && net.abs() > Decimal::new(2, 0) {
            half = checked_mul(half, Decimal::new(8, 1))?;
        }
        let mut yes_bid = checked_sub(yes_reservation, half)?.max(cent);
        let mut no_bid = checked_sub(no_reservation, half)?.max(cent);
        let size = config.quote_size;
        let max = config.max_position_per_side;
        let mut can_bid_yes = has_room(self.yes_held, size, max);
        let mut can_bid_no = has_room(self.no_held, size, max);
        if phase == ApexPhase::Resolution {
            if net > Decimal::new(5, 0) {
                can_bid_yes = false;
                let no_cap = checked_sub(no_fair, Decimal::new(5, 3))?.max(cent);
                no_bid = checked_add(no_bid, Decimal::new(2, 2))?.min(no_cap).max(cent);
            } else if net < Decimal::new(-5, 0) {
                can_bid_no = false;
                let yes_cap = checked_sub(yes_fair, Decimal::new(5, 3))?.max(cent);
                yes_bid = checked_add(yes_bid, Decimal::new(2, 2))?.min(yes_cap).max(cent);
            } else if net > Decimal::new(2, 0) {
                yes_bid = checked_sub(yes_bid, Decimal::new(3, 2))?.max(cent);
            } else if net < Decimal::new(-2, 0) {
                no_bid = checked_sub(no_bid, Decimal::new(3, 2))?.max(cent);
            }
        }
        Some((yes_bid, no_bid, can_bid_yes, can_bid_no))
    }

    /// Whether two bids may be quoted: not both of them where they add up to 0.99 or more. `None`
    /// where both would be quoted and the sum is out of range.
    pub fn is_safe_pair_quote(yes_bid: Decimal, no_bid: Decimal, can_bid_yes: bool, can_bid_no: bool) -> (r:
        Option<bool>)
        ensures
            r == safe_pair(yes_bid@, no_bid@, can_bid_yes, can_bid_no),
    {
        if can_bid_yes && can_bid_no {
            Some(checked_add(yes_bid, no_bid)? < Decimal::new(99, 2))
        } else {
            Some(true)
        }
    }
}

/// The sizes of the three best bids, the best first.
pub open spec fn top_bids(bids: Seq<Level<int>>) -> Seq<int> {
    bids.take(decimal::min_of(3, bids.len() as int)).map_values(|l: Level<int>| l.size)
}

/// The sizes of the three best asks, the best first.
pub open spec fn top_asks(asks: Seq<Level<int>>) -> Seq<int> {
    Seq::new(
        decimal::min_of(3, asks.len() as int) as nat,
        |i: int| asks[asks.len() - 1 - i].size,
    )
}

/// How far the sizes near the top of a book lean to the bids: `(bids - asks) / (bids + asks)`.
/// `None` where a step is out of range, `Some(None)` where the sum is not above zero.
pub open spec fn lean(book: BookView) -> Option<Option<int>> {
    match (decimal::total(top_bids(book.bids)), decimal::total(top_asks(book.asks))) {
        (Some(bids), Some(asks)) => match decimal::sum(bids, asks) {
            Some(both) => if both > 0 {
                match decimal::opt_quotient(decimal::difference(bids, asks), Some(both)) {
                    Some(q) => Some(Some(q)),
                    None => None,
                }
            } else {
                Some(None)
            },
            None => None,
        },
        _ => None,
    }
}

/// How far the sizes near the top of a book lean to the bids. `None` where a step is out of range,
/// `Some(None)` where the sum is not above zero.
pub fn book_imbalance(book: &BookUpdate) -> (r: Option<Option<Decimal>>)
    ensures
        (match r {
            Some(q) => Some(decimal::opt_atoms(q)),
            None => None,
        }) == lean(book@),
{
    let mut bid_sizes: Vec<Decimal> = Vec::new();
    let mut i: usize = 0;
    while i < 3 && i < book.bids.len()
        invariant
            i <= 3,
            i <= book.bids@.len(),
            bid_sizes@.len() == i,
            forall|j: int| 0 <= j < i ==> (#[trigger] bid_sizes@[j])@ == book@.bids[j].size,
        decreases 3 - i,
    {
        bid_sizes.push(book.bids[i].size);
        i += 1;
    }
    let mut ask_sizes: Vec<Decimal> = Vec::new();
    let n = book.asks.len();
    let mut k: usize = 0;
    while k < 3 && k < n
        invariant
            k <= 3,
            k <= n,
            n == book.asks@.len(),
            ask_sizes@.len() == k,
            forall|j: int| 0 <= j < k ==> (#[trigger] ask_sizes@[j])@ == book@.asks[n - 1 - j].size,
        decreases 3 - k,
    {
        ask_sizes.push(book.asks[n - 1 - k].size);
        k += 1;
    }
    assert(decimal::all_atoms(bid_sizes@) =~= top_bids(book@.bids));
    assert(decimal::all_atoms(ask_sizes@) =~= top_asks(book@.asks));
    let bids = sum_of(&bid_sizes)?;
    let asks = sum_of(&ask_sizes)?;
    let both = checked_add(bids, asks)?;
    if both > Decimal::zero() {
        Some(Some(checked_div(checked_sub(bids, asks)?, both)?))
    } else {
        Some(None)
    }
}

/// What the apex market maker knows, in atoms.
#[verifier::ext_equal]
pub struct ApexView {
    pub config: ApexConfig<int>,
    pub markets: Map<B256, MarketView>,
    /// The markets with open quotes.
    pub markets_with_quotes: Set<B256>,
    /// When the window started, in nanoseconds since the Unix epoch.
    pub window_start: Option<i64>,
    /// When quotes were last looked at.
    pub last_requote: Option<u64>,
}

impl ApexView {
    /// What is known of a market.
    pub open spec fn market(self, id: B256) -> MarketView {
        if self.markets.contains_key(id) {
            self.markets[id]
        } else {
            fresh_market()
        }
    }

    /// A market's state is replaced.
    pub open spec fn with_market(self, id: B256, market: MarketView) -> ApexView {
        ApexView { markets: self.markets.insert(id, market), ..self }
    }

    /// A new window: nothing is known of any market, no quotes are open.
    pub open spec fn window_started(self, now: Now) -> ApexView {
        ApexView {
            markets: Map::empty(),
            markets_with_quotes: Set::empty(),
            window_start: Some(now.utc),
            last_requote: None,
            ..self
        }
    }

    /// Open quotes of the market are cancelled, and with them those of every other market.
    pub open spec fn cancelled(self, id: B256) -> (ApexView, Seq<Action<int, Seq<char>>>) {
        if self.markets_with_quotes.contains(id) {
            (ApexView { markets_with_quotes: Set::empty(), ..self }, seq![Action::CancelAll])
        } else {
            (self, seq![])
        }
    }

    /// Open quotes are cancelled and each side that may be bid for is quoted, where the market's
    /// tokens are known.
    pub open spec fn quoted(
        self,
        id: B256,
        tokens: Option<(U256, U256)>,
        quotes: (int, int, bool, bool),
        now: Now,
    ) -> Option<(ApexView, Seq<Action<int, Seq<char>>>)> {
        let (cleared, cancels) = self.cancelled(id);
        let size = self.config.quote_size;
        match tokens {
            None => Some((cleared, cancels)),
            Some((yes_token, no_token)) => {
                let first = if quotes.2 {
                    self.market(id).record_quote(true, size, now.instant)
                } else {
                    Some(self.market(id))
                };
                let second = match first {
                    Some(m) => if quotes.3 {
                        m.record_quote(false, size, now.instant)
                    } else {
                        Some(m)
                    },
                    None => None,
                };
                let yes_posts: Seq<Action<int, Seq<char>>> = if quotes.2 {
                    seq![Action::PostLimitOrder { token_id: yes_token, price: quotes.0, size }]
                } else {
                    seq![]
                };
                let no_posts: Seq<Action<int, Seq<char>>> = if quotes.3 {
                    seq![Action::PostLimitOrder { token_id: no_token, price: quotes.1, size }]
                } else {
                    seq![]
                };
                match second {
                    Some(m) => Some(
                        (
                            ApexView {
                                markets_with_quotes: cleared.markets_with_quotes.insert(id),
                                ..cleared.with_market(id, m)
                            },
                            cancels + yes_posts + no_posts,
                        ),
                    ),
                    None => None,
                }
            },
        }
    }

    /// The market's flow was judged: it is quoted around the fair values, unless the flow is toxic,
    /// the two bids leave no edge or neither side may be bid for.
    pub open spec fn judged(
        self,
        id: B256,
        tokens: Option<(U256, U256)>,
        phase: ApexPhase,
        yes_fair: int,
        no_fair: int,
        now: Now,
    ) -> Option<(ApexView, Seq<Action<int, Seq<char>>>)> {
        let market = self.market(id);
        if market.toxicity is Toxic {
            let (cleared, cancels) = self.cancelled(id);
            Some((cleared, cancels + strategy::skipped(SkipReason::Toxic(market.toxicity_reason))))
        } else {
            match market.calculate_quotes(self.config, phase, yes_fair, no_fair) {
                None => None,
                Some(q) => match safe_pair(q.0, q.1, q.2, q.3) {
                    None => None,
                    Some(false) => Some(
                        (self, strategy::skipped(SkipReason::UnsafePair { total: decimal::sum(q.0, q.1)->0 })),
                    ),
                    Some(true) => if !q.2 && !q.3 {
                        Some(
                            (
                                self,
                                strategy::skipped(
                                    SkipReason::NoSideLeft {
                                        yes_held: market.yes_held,
                                        no_held: market.no_held,
                                        net: market.net_inventory()->0,
                                    },
                                ),
                            ),
                        )
                    } else {
                        self.quoted(id, tokens, q, now)
                    },
                },
            }
        }
    }

    /// New books of a market, in time and not too soon after the last look.
    pub open spec fn requoted(
        self,
        pair: PairView,
        tokens: Option<(U256, U256)>,
        phase: ApexPhase,
        now: Now,
    ) -> Option<(ApexView, Seq<Action<int, Seq<char>>>)> {
        match fair_value::worth(pair) {
            None => None,
            Some(FairValue::Incomplete) => Some((self, strategy::skipped(SkipReason::IncompleteBook))),
            Some(FairValue::ZeroSum) => Some((self, strategy::skipped(SkipReason::ZeroMidpointSum))),
            Some(FairValue::Fair { yes, no }) => match lean(pair.yes_book) {
                None => None,
                Some(imbalance) => match self.market(pair.market_id).update_toxicity(
                    self.config,
                    imbalance,
                    now.instant,
                ) {
                    None => None,
                    Some(market) => self.with_market(pair.market_id, market).judged(
                        pair.market_id,
                        tokens,
                        phase,
                        yes,
                        no,
                        now,
                    ),
                },
            },
        }
    }

    /// New books of a market: what is known afterwards, and what is asked for. `None` where a step
    /// of the computation is out of range.
    pub open spec fn book_update(
        self,
        pair: PairView,
        tokens: Option<(U256, U256)>,
        window_end: i64,
        now: Now,
    ) -> Option<(ApexView, Seq<Action<int, Seq<char>>>)> {
        let remaining = time::whole_secs(window_end - now.utc);
        match self.window_start {
            None => Some((self, strategy::skipped(SkipReason::WindowNotStarted))),
            Some(start) => if remaining < self.config.min_seconds_to_quote {
                Some(
                    (
                        self,
                        strategy::skipped(
                            SkipReason::TooLate {
                                secs_remaining: remaining as i64,
                                min: self.config.min_seconds_to_quote,
                            },
                        ),
                    ),
                )
            } else if self.last_requote is Some && time::millis_between(
                now.instant,
                self.last_requote->0,
            ) < 2000 {
                Some((self, seq![]))
            } else {
                ApexView { last_requote: Some(now.instant), ..self }.requoted(
                    pair,
                    tokens,
                    phase_after(time::whole_secs(now.utc - start)),
                    now,
                )
            },
        }
    }
}

/// The apex market maker.
pub struct ApexMarketMakerStrategy {
    config: ApexConfig,
    markets: MarketTable<MarketState>,
    markets_with_quotes: MarketSet,
    window_start: Option<i64>,
    last_requote: Option<u64>,
}

impl View for ApexMarketMakerStrategy {
    type V = ApexView;

    closed spec fn view(&self) -> ApexView {
        ApexView {
            config: self.config@,
            markets: self.markets@,
            markets_with_quotes: self.markets_with_quotes@,
            window_start: self.window_start,
            last_requote: self.last_requote,
        }
    }
}

impl MarketState {
    /// A copy.
    fn copied(&self) -> (r: MarketState)
        ensures
            r@ == self@,
            r.held_digits() == self.held_digits(),
    {
        MarketState {
            yes_held: self.yes_held,
            no_held: self.no_held,
            recent_quotes: self.recent_quotes.clone(),
            last_imbalance: self.last_imbalance,
            toxicity: self.toxicity,
            toxicity_reason: self.toxicity_reason,
        }
    }
}

impl ApexMarketMakerStrategy {
    /// The settings, with their decimal places.
    pub closed spec fn settings(self) -> ApexConfig {
        self.config
    }

    /// The YES and NO shares of a market, counting every quote as filled, with their decimal places.
    pub closed spec fn held_digits(self, id: B256) -> (decimal::Digits, decimal::Digits) {
        if self.markets.states().contains_key(id) {
            self.markets.states()[id].held_digits()
        } else {
            (decimal::no_digits(), decimal::no_digits())
        }
    }

    /// Books of a market came in: its shares have the places that they show, and nothing else has changed.
    pub open spec fn keeps_places(self, before: ApexMarketMakerStrategy, id: B256) -> bool {
        &&& self.settings() == before.settings()
        &&& strategy::held_or_more(
            before.held_digits(id).0,
            self.held_digits(id).0,
            before.settings().quote_size,
        )
        &&& strategy::held_or_more(
            before.held_digits(id).1,
            self.held_digits(id).1,
            before.settings().quote_size,
        )
        &&& forall|other: B256|
            other != id ==> #[trigger] self.held_digits(other) == before.held_digits(other)
    }

    /// A market maker that waits for its first window.
    pub fn new(config: ApexConfig) -> (r: Self)
        ensures
            r@ == (ApexView {
                config: config@,
                markets: Map::empty(),
                markets_with_quotes: Set::empty(),
                window_start: None,
                last_requote: None,
            }),
            r.settings() == config,
            forall|id: B256| #[trigger] r.held_digits(id) == (decimal::no_digits(), decimal::no_digits()),
    {
        ApexMarketMakerStrategy {
            config,
            markets: MarketTable::new(),
            markets_with_quotes: MarketSet::new(),
            window_start: None,
            last_requote: None,
        }
    }

    /// The name of the strategy.
    pub fn name(&self) -> (r: &str)
        ensures
            r@ == "apex_mm"@,
    {
        "apex_mm"
    }

    /// Starts a window.
    pub fn on_window_start(&mut self, now: Now)
        ensures
            final(self)@ == old(self)@.window_started(now),
            final(self).settings() == old(self).settings(),
            forall|id: B256| #[trigger]
                final(self).held_digits(id) == (decimal::no_digits(), decimal::no_digits()),
    {
        self.markets = MarketTable::new();
        self.markets_with_quotes.clear();
        self.window_start = Some(now.utc);
        self.last_requote = None;
    }

    /// Looks at new books of a market. `None`, and no change, where a step of the computation is out
    /// of range.
    pub fn on_book_update(&mut self, pair: &OrderBookPair, ctx: &StrategyContext<'_>) -> (r: Option<
        Vec<Action>,
    >)
        ensures
            (match r {
                Some(actions) => Some((final(self)@, strategy::action_views(actions@))),
                None => None,
            }) == old(self)@.book_update(pair@, strategy::tokens_of(ctx.market_info), ctx.window_end, ctx.now),
            r is None ==> final(self)@ == old(self)@,
            final(self).keeps_places(*old(self), pair.market_id),
            r matches Some(actions) ==> strategy::action_places(
                actions@,
                old(self).held_digits(pair.market_id).0,
                old(self).held_digits(pair.market_id).1,
                old(self).settings().max_position_per_side,
            ),
    {
        let now = ctx.now;
        let start = match self.window_start {
            Some(start) => start,
            None => return Some(skip(SkipReason::WindowNotStarted)),
        };
        let phase = ApexPhase::from_elapsed_secs(seconds_between(now.utc, start));
        let remaining = seconds_between(ctx.window_end, now.utc);
        if remaining < self.config.min_seconds_to_quote {
            return Some(
                skip(
                    SkipReason::TooLate {
                        secs_remaining: remaining,
                        min: self.config.min_seconds_to_quote,
                    },
                ),
            );
        }
        match self.last_requote {
            Some(last) => if elapsed_millis(now.instant, last) < 2000 {
                let none: Vec<Action> = Vec::new();
                assert(strategy::action_views(none@) =~= seq![]);
                return Some(none);
            },
            None => {},
        }
        self.requote(pair, ctx.market_info, phase, now)
    }

    /// Looks at new books of a market, in time and not too soon after the last look.
    fn requote(&mut self, pair: &OrderBookPair, info: Option<&MarketInfo>, phase: ApexPhase, now: Now) -> (r:
        Option<Vec<Action>>)
        ensures
            (match r {
                Some(actions) => Some((final(self)@, strategy::action_views(actions@))),
                None => None,
            }) == (ApexView { last_requote: Some(now.instant), ..old(self)@ }).requoted(
                pair@,
                strategy::tokens_of(info),
                phase,
                now,
            ),
            r is None ==> final(self)@ == old(self)@,
            final(self).keeps_places(*old(self), pair.market_id),
            r matches Some(actions) ==> strategy::action_places(
                actions@,
                old(self).held_digits(pair.market_id).0,
                old(self).held_digits(pair.market_id).1,
                old(self).settings().max_position_per_side,
            ),
    {
        let (yes_fair, no_fair) = match fair_value(pair)? {
            FairValue::Incomplete => {
                self.last_requote = Some(now.instant);
                return Some(skip(SkipReason::IncompleteBook));
            },
            FairValue::ZeroSum => {
                self.last_requote = Some(now.instant);
                return Some(skip(SkipReason::ZeroMidpointSum));
            },
            FairValue::Fair { yes, no } => (yes, no),
        };
        let imbalance = book_imbalance(&pair.yes_book)?;
        let mut market = match self.markets.get(pair.market_id) {
            Some(m) => m.copied(),
            None => MarketState::default(),
        };
        market.update_toxicity(&self.config, imbalance, now.instant)?;
        self.quote_judged(pair.market_id, market, info, phase, (yes_fair, no_fair), now)
    }

    /// Keeps what is known of a market, and the time of the look.
    fn remember(&mut self, id: B256, market: MarketState, now: Now)
        requires
            market.held_digits() == old(self).held_digits(id),
        ensures
            final(self)@ == (ApexView { last_requote: Some(now.instant), ..old(self)@ }).with_market(id, market@),
            final(self).keeps_places(*old(self), id),
            final(self).held_digits(id) == old(self).held_digits(id),
    {
        let ghost m = market@;
        self.last_requote = Some(now.instant);
        self.markets.set(id, market);
        assert(self@ =~= (ApexView { last_requote: Some(now.instant), ..old(self)@ }).with_market(id, m));
        assert(self.held_digits(id) == old(self).held_digits(id));
    }

    /// Quotes a market whose flow was just judged.
    fn quote_judged(
        &mut self,
        id: B256,
        market: MarketState,
        info: Option<&MarketInfo>,
        phase: ApexPhase,
        fair: (Decimal, Decimal),
        now: Now,
    ) -> (r: Option<Vec<Action>>)
        requires
            market.held_digits() == old(self).held_digits(id),
        ensures
            (match r {
                Some(actions) => Some((final(self)@, strategy::action_views(actions@))),
                None => None,
            }) == (ApexView { last_requote: Some(now.instant), ..old(self)@ }).with_market(
                id,
                market@,
            ).judged(id, strategy::tokens_of(info), phase, fair.0@, fair.1@, now),
            r is None ==> final(self)@ == old(self)@,
            final(self).keeps_places(*old(self), id),
            r matches Some(actions) ==> strategy::action_places(
                actions@,
                old(self).held_digits(id).0,
                old(self).held_digits(id).1,
                old(self).settings().max_position_per_side,
            ),
    {
        let ghost judged = (ApexView { last_requote: Some(now.instant), ..self@ }).with_market(
            id,
            market@,
        );
        assert(judged.market(id) == market@);
        if market.toxicity == ToxicityState::Toxic {
            let ghost reason = SkipReason::<int, Seq<char>>::Toxic(market.toxicity_reason@);
            let mut actions = self.cancels(id);
            let ghost cancels = strategy::action_views(actions@);
            actions.push(Action::Skip { reason: SkipReason::Toxic(market.toxicity_reason) });
            assert(strategy::action_views(actions@) =~= cancels + strategy::skipped(reason));
            if self.markets_with_quotes.contains(id) {
                self.markets_with_quotes.clear();
            }
            self.remember(id, market, now);
            assert(self@ =~= judged.cancelled(id).0);
            return Some(actions);
        }
        let quotes = market.calculate_quotes(&self.config, phase, fair.0, fair.1)?;
        if !MarketState::is_safe_pair_quote(quotes.0, quotes.1, quotes.2, quotes.3)? {
            let total = checked_add(quotes.0, quotes.1)?;
            self.remember(id, market, now);
            return Some(skip(SkipReason::UnsafePair { total }));
        }
        if !quotes.2 && !quotes.3 {
            let reason = SkipReason::NoSideLeft {
                yes_held: market.yes_held,
                no_held: market.no_held,
                net: market.net_inventory()?,
            };
            self.remember(id, market, now);
            return Some(skip(reason));
        }
        self.post(id, market, info, quotes, now)
    }

    /// The cancellation that a market with open quotes needs.
    fn cancels(&self, id: B256) -> (r: Vec<Action>)
        ensures
            strategy::action_views(r@) == self@.cancelled(id).1,
            forall|i: int| 0 <= i < r@.len() ==> #[trigger] r@[i] is CancelAll,
    {
        let mut actions: Vec<Action> = Vec::new();
        if self.markets_with_quotes.contains(id) {
            actions.push(Action::CancelAll);
        }
        assert(strategy::action_views(actions@) =~= self@.cancelled(id).1);
        actions
    }

    /// Cancels open quotes and quotes each side that may be bid for.
    fn post(
        &mut self,
        id: B256,
        market: MarketState,
        info: Option<&MarketInfo>,
        quotes: (Decimal, Decimal, bool, bool),
        now: Now,
    ) -> (r: Option<Vec<Action>>)
        requires
            market.held_digits() == old(self).held_digits(id),
        ensures
            (match r {
                Some(actions) => Some((final(self)@, strategy::action_views(actions@))),
                None => None,
            }) == (ApexView { last_requote: Some(now.instant), ..old(self)@ }).with_market(
                id,
                market@,
            ).quoted(id, strategy::tokens_of(info), (quotes.0@, quotes.1@, quotes.2, quotes.3), now),
            r is None ==> final(self)@ == old(self)@,
            final(self).keeps_places(*old(self), id),
            r matches Some(actions) ==> strategy::action_places(
                actions@,
                old(self).held_digits(id).0,
                old(self).held_digits(id).1,
                old(self).settings().max_position_per_side,
            ),
    {
        let ghost judged = (ApexView { last_requote: Some(now.instant), ..self@ }).with_market(
            id,
            market@,
        );
        assert(judged.market(id) == market@);
        let mut market = market;
        let mut actions = self.cancels(id);
        let ghost cancels = strategy::action_views(actions@);
        match info {
            Some(info) => {
                let size = self.config.quote_size;
                if quotes.2 {
                    market.record_quote(true, size, now.instant)?;
                    actions.push(
                        Action::PostLimitOrder { token_id: info.yes_token_id, price: quotes.0, size },
                    );
                }
                let ghost with_yes = strategy::action_views(actions@);
                assert(with_yes =~= cancels + if quotes.2 {
                    seq![
                        Action::<int, Seq<char>>::PostLimitOrder {
                            token_id: info.yes_token_id,
                            price: quotes.0@,
                            size: size@,
                        },
                    ]
                } else {
                    seq![]
                });
                if quotes.3 {
                    market.record_quote(false, size, now.instant)?;
                    actions.push(
                        Action::PostLimitOrder { token_id: info.no_token_id, price: quotes.1, size },
                    );
                }
                assert(strategy::action_views(actions@) =~= with_yes + if quotes.3 {
                    seq![
                        Action::<int, Seq<char>>::PostLimitOrder {
                            token_id: info.no_token_id,
                            price: quotes.1@,
                            size: size@,
                        },
                    ]
                } else {
                    seq![]
                });
            },
            None => {},
        }
        let ghost last = market@;
        if self.markets_with_quotes.contains(id) {
            self.markets_with_quotes.clear();
        }
        if info.is_some() {
            self.markets_with_quotes.insert(id);
        }
        self.last_requote = Some(now.instant);
        self.markets.set(id, market);
        assert(judged.markets.insert(id, last) =~= self@.markets);
        Some(actions)
    }
}

} // verus!
