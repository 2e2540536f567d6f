//! The market maker: bids for both tokens of a market below their fair value, leaning against its own
//! inventory, wider early and late in a five-minute window.
//!
//! The inventory is a cautious one: every quote counts as filled.
use vstd::prelude::*;

use crate::decimal;
use crate::decimal::{checked_add, checked_mul, checked_sub, Decimal};
use crate::market::MarketInfo;
use crate::monitor::{OrderBookPair, PairView};
use crate::strategy;
use crate::time;
use crate::time::{elapsed_millis, elapsed_nanos, seconds_between, Now};
use crate::types::{B256, U256};

use super::fair_value;
use super::fair_value::{fair_value, FairValue};
use super::market_table::{MarketSet, MarketTable};
use super::{has_room, skip, Action, SkipReason, StrategyContext};

verus! {

/// The settings of the market maker.
#[derive(Clone, Copy, Debug)]
pub struct MmConfig<D = Decimal> {
    /// Distance of each bid from its reservation price, before the multipliers.
    pub base_spread: D,
    /// How far one share of net inventory shifts the reservation prices.
    pub inventory_gamma: D,
    /// The most shares that a side takes, if every quote is filled.
    pub max_position_per_side: D,
    /// Size of each quote.
    pub quote_size: D,
    /// Fewer seconds than this before the end of the window nothing is quoted.
    pub min_seconds_to_quote: i64,
}

impl View for MmConfig<Decimal> {
    type V = MmConfig<int>;

    open spec fn view(&self) -> MmConfig<int> {
        MmConfig {
            base_spread: self.base_spread@,
            inventory_gamma: self.inventory_gamma@,
            max_position_per_side: self.max_position_per_side@,
            quote_size: self.quote_size@,
            min_seconds_to_quote: self.min_seconds_to_quote,
        }
    }
}

impl Default for MmConfig<Decimal> {
    fn default() -> (r: Self)
        ensures
            r@ == (MmConfig {
                base_spread: decimal::atoms(3, 2),
                inventory_gamma: decimal::atoms(3, 2),
                max_position_per_side: decimal::atoms(5, 0),
                quote_size: decimal::atoms(1, 0),
                min_seconds_to_quote: 30,
            }),
    {
        MmConfig {
            base_spread: Decimal::new(3, 2),
            inventory_gamma: Decimal::new(3, 2),
            max_position_per_side: Decimal::new(5, 0),
            quote_size: Decimal::new(1, 0),
            min_seconds_to_quote: 30,
        }
    }
}

/// The three phases of a window.
#[derive(Clone, Copy, Debug, PartialEq, Eq, Structural)]
pub enum Phase {
    /// The first two minutes: wide quotes.
    Early,
    /// The third and fourth minute.
    Mid,
    /// From the fifth minute on: the widest quotes.
    Late,
}

/// The phase after so many seconds.
pub open spec fn phase_after(elapsed: int) -> Phase {
    if elapsed < 120 {
        Phase::Early
    } else if elapsed < 240 {
        Phase::Mid
    } else {
        Phase::Late
    }
}

impl Phase {
    /// The phase after so many seconds.
    pub fn from_elapsed_secs(elapsed: i64) -> (r: Phase)
        ensures
            r == phase_after(elapsed as int),
    {
        if elapsed < 120 {
            Phase::Early
        } else if elapsed < 240 {
            Phase::Mid
        } else {
            Phase::Late
        }
    }

    /// The factor on the spread, in atoms.
    pub open spec fn multiplier(self) -> int {
        match self {
            Phase::Early => decimal::atoms(15, 1),
            Phase::Mid => decimal::atoms(10, 1),
            Phase::Late => decimal::atoms(20, 1),
        }
    }

    /// The factor on the spread.
    pub fn spread_multiplier(&self) -> (r: Decimal)
        ensures
            r@ == self.multiplier(),
    {
        match self {
            Phase::Early => Decimal::new(15, 1),
            Phase::Mid => Decimal::new(10, 1),
            Phase::Late => Decimal::new(20, 1),
        }
    }
}

/// What is held and quoted in one market.
#[derive(Clone, Copy, Debug)]
pub struct InventoryState<D = Decimal> {
    /// YES shares, counting every quote as filled.
    pub yes_held: D,
    /// NO shares, counting every quote as filled.
    pub no_held: D,
    /// YES quotes in this window.
    pub yes_quotes: u32,
    /// NO quotes in this window.
    pub no_quotes: u32,
    /// Quotes since `recent_quote_window_start`.
    pub recent_quote_count: u32,
    /// Start of the ten seconds in which quotes are counted.
    pub recent_quote_window_start: Option<u64>,
}

impl View for InventoryState<Decimal> {
    type V = InventoryState<int>;

    open spec fn view(&self) -> InventoryState<int> {
        InventoryState {
            yes_held: self.yes_held@,
            no_held: self.no_held@,
            yes_quotes: self.yes_quotes,
            no_quotes: self.no_quotes,
            recent_quote_count: self.recent_quote_count,
            recent_quote_window_start: self.recent_quote_window_start,
        }
    }
}

/// Nothing held, nothing quoted.
pub open spec fn empty_inventory() -> InventoryState<int> {
    InventoryState {
        yes_held: 0,
        no_held: 0,
        yes_quotes: 0,
        no_quotes: 0,
        recent_quote_count: 0,
        recent_quote_window_start: None,
    }
}

impl Default for InventoryState<Decimal> {
    fn default() -> (r: Self)
        ensures
            r@ == empty_inventory(),
            r.yes_held.scale_of() == 0,
            r.no_held.scale_of() == 0,
    {
        InventoryState {
            yes_held: Decimal::zero(),
            no_held: Decimal::zero(),
            yes_quotes: 0,
            no_quotes: 0,
            recent_quote_count: 0,
            recent_quote_window_start: None,
        }
    }
}

/// The next count; `None` where a `u32` does not hold it.
pub open spec fn one_more(n: u32) -> Option<u32> {
    if n < u32::MAX {
        Some((n + 1) as u32)
    } else {
        None
    }
}

impl InventoryState<int> {
    /// YES shares less NO shares.
    pub open spec fn net(self) -> Option<int> {
        decimal::difference(self.yes_held, self.no_held)
    }

    /// Five quotes or more in the counted ten seconds.
    pub open spec fn toxic(self) -> bool {
        self.recent_quote_count >= 5
    }

    /// One more quote is counted, in the running ten seconds or in new ones that start now.
    pub open spec fn counted(self, now: u64) -> Option<InventoryState<int>> {
        match self.recent_quote_window_start {
            Some(start) if time::nanos_since(now, start) < 10_000_000_000 => match one_more(
                self.recent_quote_count,
            ) {
                Some(n) => Some(InventoryState { recent_quote_count: n, ..self }),
                None => None,
            },
            _ => Some(
                InventoryState {
                    recent_quote_window_start: Some(now),
                    recent_quote_count: 1,
                    ..self
                },
            ),
        }
    }

    /// A quote of `size` on one side, counted as filled.
    pub open spec fn emitted(self, is_yes: bool, size: int, now: u64) -> Option<InventoryState<int>> {
        if is_yes {
            match (decimal::sum(self.yes_held, size), one_more(self.yes_quotes)) {
                (Some(held), Some(n)) => InventoryState {
                    yes_held: held,
                    yes_quotes: n,
                    ..self
                }.counted(now),
                _ => None,
            }
        } else {
            match (decimal::sum(self.no_held, size), one_more(self.no_quotes)) {
                (Some(held), Some(n)) => InventoryState { no_held: held, no_quotes: n, ..self }.counted(
                    now,
                ),
                _ => None,
            }
        }
    }
}

impl InventoryState<Decimal> {
    /// YES shares less NO shares: positive where YES weighs more.
    pub fn net_inventory(&self) -> (r: Option<Decimal>)
        ensures
            decimal::opt_atoms(r) == self@.net(),
            decimal::opt_digits(r) == decimal::subtracted(self.yes_held.digits(), self.no_held.digits()),
    {
        checked_sub(self.yes_held, self.no_held)
    }

    /// Counts a quote of `size` on one side as filled. `None`, and no change, where a sum or a count is
    /// out of range.
    pub fn record_quote_emitted(&mut self, is_yes: bool, size: Decimal, now: u64) -> (r: Option<()>)
        ensures
            r is Some <==> old(self)@.emitted(is_yes, size@, now) is Some,
            r is Some ==> Some(final(self)@) == old(self)@.emitted(is_yes, size@, now),
            r is Some && is_yes ==> Some(final(self).yes_held.digits()) == decimal::added(
                old(self).yes_held.digits(),
                size.digits(),
            ) && final(self).no_held == old(self).no_held,
            r is Some && !is_yes ==> Some(final(self).no_held.digits()) == decimal::added(
                old(self).no_held.digits(),
                size.digits(),
            ) && final(self).yes_held == old(self).yes_held,
            r is None ==> final(self)@ == old(self)@,
    {
        let mut next = *self;
        if is_yes {
            next.yes_held = checked_add(next.yes_held, size)?;
            next.yes_quotes = next.yes_quotes.checked_add(1)?;
        } else {
            next.no_held = checked_add(next.no_held, size)?;
            next.no_quotes = next.no_quotes.checked_add(1)?;
        }
        let running = match next.recent_quote_window_start {
            Some(start) => elapsed_nanos(now, start) < 10_000_000_000,
            None => false,
        };
        if running {
            next.recent_quote_count = next.recent_quote_count.checked_add(1)?;
        } else {
            next.recent_quote_window_start = Some(now);
            next.recent_quote_count = 1;
        }
        *self = next;
        Some(())
    }

    /// Whether quotes come suspiciously fast.
    pub fn is_toxic(&self) -> (r: bool)
        ensures
            r == self@.toxic(),
    {
        self.recent_quote_count >= 5
    }
}

/// A bid: the reservation price less the half spread, at least one cent.
pub open spec fn bid(reservation: Option<int>, half_spread: Option<int>) -> Option<int> {
    match decimal::opt_difference(reservation, half_spread) {
        Some(b) => Some(decimal::max_of(b, decimal::atoms(1, 2))),
        None => None,
    }
}

/// The bids for YES and NO; `None` where a step of the computation is out of range.
pub open spec fn bids(
    config: MmConfig<int>,
    inventory: InventoryState<int>,
    phase: Phase,
    yes_fair: int,
    no_fair: int,
) -> Option<(int, int)> {
    let skew = decimal::opt_product(Some(config.inventory_gamma), inventory.net());
    let toxicity = if inventory.toxic() {
        decimal::atoms(30, 1)
    } else {
        decimal::atoms(10, 1)
    };
    let half_spread = decimal::opt_product(
        decimal::product(config.base_spread, phase.multiplier()),
        Some(toxicity),
    );
    match (
        bid(decimal::opt_difference(Some(yes_fair), skew), half_spread),
        bid(decimal::opt_sum(Some(no_fair), skew), half_spread),
    ) {
        (Some(yes), Some(no)) => Some((yes, no)),
        _ => None,
    }
}

/// The bids for YES and NO; `None` where a step of the computation is out of range.
fn quote_prices(
    config: &MmConfig,
    inventory: &InventoryState,
    phase: Phase,
    yes_fair: Decimal,
    no_fair: Decimal,
) -> (r: Option<(Decimal, Decimal)>)
    ensures
        (match r {
            Some((y, n)) => Some((y@, n@)),
            None => None,
        }) == bids(config@, inventory@, phase, yes_fair@, no_fair@),
{
    let cent = Decimal::new(1, 2);
    let net = inventory.net_inventory()?;
    let toxicity = if inventory.is_toxic() {
        Decimal::new(30, 1)
    } else {
        Decimal::new(10, 1)
    };
    let skew = checked_mul(config.inventory_gamma, net)?;
    let yes_reservation = checked_sub(yes_fair, skew)?;
    let no_reservation = checked_add(no_fair, skew)?;
    let half_spread = checked_mul(
        checked_mul(config.base_spread, phase.spread_multiplier())?,
        toxicity,
    )?;
    let yes_bid = checked_sub(yes_reservation, half_spread)?.max(cent);
    let no_bid = checked_sub(no_reservation, half_spread)?.max(cent);
    Some((yes_bid, no_bid))
}

/// What the market maker knows, in atoms.
#[verifier::ext_equal]
pub struct MmView {
    pub config: MmConfig<int>,
    pub inventory: Map<B256, InventoryState<int>>,
    /// The markets with open quotes.
    pub markets_with_quotes: Set<B256>,
    /// When the window started, in nanoseconds since the Unix epoch.
    pub window_start: Option<i64>,
    /// When quotes were last looked at.
    pub last_requote: Option<u64>,
}

impl MmView {
    /// What is held and quoted in a market.
    pub open spec fn inventory_of(self, id: B256) -> InventoryState<int> {
        if self.inventory.contains_key(id) {
            self.inventory[id]
        } else {
            empty_inventory()
        }
    }

    /// A market's inventory is replaced.
    pub open spec fn with_inventory(self, id: B256, inventory: InventoryState<int>) -> MmView {
        MmView { inventory: self.inventory.insert(id, inventory), ..self }
    }

    /// A new window: nothing is held in any market, no quotes are open.
    pub open spec fn window_started(self, now: Now) -> MmView {
        MmView {
            inventory: Map::empty(),
            markets_with_quotes: Set::empty(),
            window_start: Some(now.utc),
            last_requote: None,
            ..self
        }
    }

    /// Open quotes of the market are cancelled, and with them those of every other market.
    pub open spec fn cancelled(self, id: B256) -> (MmView, Seq<Action<int, Seq<char>>>) {
        if self.markets_with_quotes.contains(id) {
            (MmView { markets_with_quotes: Set::empty(), ..self }, seq![Action::CancelAll])
        } else {
            (self, seq![])
        }
    }

    /// Open quotes are cancelled and each side that has room for a quote under its cap is quoted,
    /// where the market's tokens are known.
    pub open spec fn quoted(
        self,
        id: B256,
        tokens: Option<(U256, U256)>,
        yes_bid: int,
        no_bid: int,
        now: Now,
    ) -> Option<(MmView, Seq<Action<int, Seq<char>>>)> {
        let (cleared, cancels) = self.cancelled(id);
        let size = self.config.quote_size;
        let held = self.inventory_of(id);
        let can_yes = strategy::fits(held.yes_held, size, self.config.max_position_per_side);
        let can_no = strategy::fits(held.no_held, size, self.config.max_position_per_side);
        match tokens {
            None => Some((cleared, cancels)),
            Some((yes_token, no_token)) => {
                let first = if can_yes {
                    held.emitted(true, size, now.instant)
                } else {
                    Some(held)
                };
                let second = match first {
                    Some(inv) => if can_no {
                        inv.emitted(false, size, now.instant)
                    } else {
                        Some(inv)
                    },
                    None => None,
                };
                let yes_posts: Seq<Action<int, Seq<char>>> = if can_yes {
                    seq![Action::PostLimitOrder { token_id: yes_token, price: yes_bid, size }]
                } else {
                    seq![]
                };
                let no_posts: Seq<Action<int, Seq<char>>> = if can_no {
                    seq![Action::PostLimitOrder { token_id: no_token, price: no_bid, size }]
                } else {
                    seq![]
                };
                match second {
                    Some(inv) => Some(
                        (
                            MmView {
                                markets_with_quotes: cleared.markets_with_quotes.insert(id),
                                ..cleared.with_inventory(id, inv)
                            },
                            cancels + yes_posts + no_posts,
                        ),
                    ),
                    None => None,
                }
            },
        }
    }

    /// The market is quoted around its fair values, unless the two bids leave no edge or neither side
    /// has room for a quote.
    pub open spec fn priced(
        self,
        id: B256,
        tokens: Option<(U256, U256)>,
        phase: Phase,
        yes_fair: int,
        no_fair: int,
        now: Now,
    ) -> Option<(MmView, Seq<Action<int, Seq<char>>>)> {
        let held = self.inventory_of(id);
        let size = self.config.quote_size;
        let max = self.config.max_position_per_side;
        match bids(self.config, held, phase, yes_fair, no_fair) {
            None => None,
            Some((yes_bid, no_bid)) => match decimal::sum(yes_bid, no_bid) {
                None => None,
                Some(total) => if total >= decimal::atoms(99, 2) {
                    Some((self, strategy::skipped(SkipReason::NoEdge { total })))
                } else if !strategy::fits(held.yes_held, size, max) && !strategy::fits(
                    held.no_held,
                    size,
                    max,
                ) {
                    Some(
                        (
                            self,
                            strategy::skipped(
                                SkipReason::MaxPosition {
                                    yes_held: held.yes_held,
                                    no_held: held.no_held,
                                    max,
                                },
                            ),
                        ),
                    )
                } else {
                    self.quoted(id, tokens, yes_bid, no_bid, now)
                },
            },
        }
    }

    /// New books of a market, in time and not too soon after the last look.
    pub open spec fn requoted(
        self,
        pair: PairView,
        tokens: Option<(U256, U256)>,
        phase: Phase,
        now: Now,
    ) -> Option<(MmView, Seq<Action<int, Seq<char>>>)> {
        match fair_value::worth(pair) {
            None => None,
            Some(FairValue::Incomplete) => Some((self, strategy::skipped(SkipReason::IncompleteBook))),
            Some(FairValue::ZeroSum) => Some((self, strategy::skipped(SkipReason::ZeroMidpointSum))),
            Some(FairValue::Fair { yes, no }) => self.with_inventory(
                pair.market_id,
                self.inventory_of(pair.market_id),
            ).priced(pair.market_id, tokens, phase, yes, no, now),
        }
    }

    /// New books of a market: what is known afterwards, and what is asked for. `None` where a step
    /// of the computation is out of range.
    pub open spec fn book_update(
        self,
        pair: PairView,
        tokens: Option<(U256, U256)>,
        window_end: i64,
        now: Now,
    ) -> Option<(MmView, Seq<Action<int, Seq<char>>>)> {
        let remaining = time::whole_secs(window_end - now.utc);
        match self.window_start {
            None => Some((self, strategy::skipped(SkipReason::WindowNotStarted))),
            Some(start) => if remaining < self.config.min_seconds_to_quote {
                Some(
                    (
                        self,
                        strategy::skipped(
                            SkipReason::TooLateToQuote {
                                secs_remaining: remaining as i64,
                                min: self.config.min_seconds_to_quote,
                            },
                        ),
                    ),
                )
            } else if self.last_requote is Some && time::millis_between(
                now.instant,
                self.last_requote->0,
            ) < 2000 {
                Some((self, seq![]))
            } else {
                MmView { last_requote: Some(now.instant), ..self }.requoted(
                    pair,
                    tokens,
                    phase_after(time::whole_secs(now.utc - start)),
                    now,
                )
            },
        }
    }
}

/// The market maker.
pub struct MarketMakerStrategy {
    mm_config: MmConfig,
    inventory: MarketTable<InventoryState>,
    markets_with_quotes: MarketSet,
    window_start: Option<i64>,
    last_requote: Option<u64>,
}

impl View for MarketMakerStrategy {
    type V = MmView;

    closed spec fn view(&self) -> MmView {
        MmView {
            config: self.mm_config@,
            inventory: self.inventory@,
            markets_with_quotes: self.markets_with_quotes@,
            window_start: self.window_start,
            last_requote: self.last_requote,
        }
    }
}

impl MarketMakerStrategy {
    /// The settings, with their decimal places.
    pub closed spec fn settings(self) -> MmConfig {
        self.mm_config
    }

    /// The YES and NO shares of a market, counting every quote as filled, with their decimal places.
    pub closed spec fn held_digits(self, id: B256) -> (decimal::Digits, decimal::Digits) {
        if self.inventory.states().contains_key(id) {
            let held = self.inventory.states()[id];
            (held.yes_held.digits(), held.no_held.digits())
        } else {
            (decimal::no_digits(), decimal::no_digits())
        }
    }

    /// Books of a market came in: its shares have the places that they show, and nothing else has changed.
    pub open spec fn keeps_places(self, before: MarketMakerStrategy, id: B256) -> bool {
        &&& self.settings() == before.settings()
        &&& strategy::held_or_more(
            before.held_digits(id).0,
            self.held_digits(id).0,
            before.settings().quote_size,
        )
        &&& strategy::held_or_more(
            before.held_digits(id).1,
            self.held_digits(id).1,
            before.settings().quote_size,
        )
        &&& forall|other: B256|
            other != id ==> #[trigger] self.held_digits(other) == before.held_digits(other)
    }

    /// A market maker that waits for its first window.
    pub fn new(mm_config: MmConfig) -> (r: Self)
        ensures
            r@ == (MmView {
                config: mm_config@,
                inventory: Map::empty(),
                markets_with_quotes: Set::empty(),
                window_start: None,
                last_requote: None,
            }),
            r.settings() == mm_config,
            forall|id: B256| #[trigger] r.held_digits(id) == (decimal::no_digits(), decimal::no_digits()),
    {
        MarketMakerStrategy {
            mm_config,
            inventory: MarketTable::new(),
            markets_with_quotes: MarketSet::new(),
            window_start: None,
            last_requote: None,
        }
    }

    /// The name of the strategy.
    pub fn name(&self) -> (r: &str)
        ensures
            r@ == "market_maker"@,
    {
        "market_maker"
    }

    /// Starts a window.
    pub fn on_window_start(&mut self, now: Now)
        ensures
            final(self)@ == old(self)@.window_started(now),
            final(self).settings() == old(self).settings(),
            forall|id: B256| #[trigger] final(self).held_digits(id) == (decimal::no_digits(), decimal::no_digits()),
    {
        self.inventory = MarketTable::new();
        self.markets_with_quotes.clear();
        self.window_start = Some(now.utc);
        self.last_requote = None;
    }

    /// Looks at new books of a market. `None`, and no change, where a step of the computation is out
    /// of range.
    pub fn on_book_update(&mut self, pair: &OrderBookPair, ctx: &StrategyContext<'_>) -> (r: Option<
        Vec<Action>,
    >)
        ensures
            (match r {
                Some(actions) => Some((final(self)@, strategy::action_views(actions@))),
                None => None,
            }) == old(self)@.book_update(
                pair@,
                strategy::tokens_of(ctx.market_info),
                ctx.window_end,
                ctx.now,
            ),
            r is None ==> final(self)@ == old(self)@,
            final(self).keeps_places(*old(self), pair.market_id),
            r matches Some(actions) ==> strategy::action_places(
                actions@,
                old(self).held_digits(pair.market_id).0,
                old(self).held_digits(pair.market_id).1,
                old(self).settings().max_position_per_side,
            ),
    {
        let now = ctx.now;
        let start = match self.window_start {
            Some(start) => start,
            None => return Some(skip(SkipReason::WindowNotStarted)),
        };
        let phase = Phase::from_elapsed_secs(seconds_between(now.utc, start));
        let remaining = seconds_between(ctx.window_end, now.utc);
        if remaining < self.mm_config.min_seconds_to_quote {
            return Some(
                skip(
                    SkipReason::TooLateToQuote {
                        secs_remaining: remaining,
                        min: self.mm_config.min_seconds_to_quote,
                    },
                ),
            );
        }
        match self.last_requote {
            Some(last) => if elapsed_millis(now.instant, last) < 2000 {
                let none: Vec<Action> = Vec::new();
                assert(strategy::action_views(none@) =~= seq![]);
                return Some(none);
            },
            None => {},
        }
        self.requote(pair, ctx.market_info, phase, now)
    }

    /// Keeps what is held in a market, and the time of the look.
    fn remember(&mut self, id: B256, held: InventoryState, now: Now)
        requires
            (held.yes_held.digits(), held.no_held.digits()) == old(self).held_digits(id),
        ensures
            final(self)@ == (MmView { last_requote: Some(now.instant), ..old(self)@ }).with_inventory(id, held@),
            final(self).keeps_places(*old(self), id),
    {
        self.last_requote = Some(now.instant);
        self.inventory.set(id, held);
        assert(self@ =~= (MmView { last_requote: Some(now.instant), ..old(self)@ }).with_inventory(id, held@));
        assert(self.held_digits(id) == old(self).held_digits(id));
    }

    /// Looks at new books of a market, in time and not too soon after the last look.
    fn requote(&mut self, pair: &OrderBookPair, info: Option<&MarketInfo>, phase: Phase, now: Now) -> (r:
        Option<Vec<Action>>)
        ensures
            (match r {
                Some(actions) => Some((final(self)@, strategy::action_views(actions@))),
                None => None,
            }) == (MmView { last_requote: Some(now.instant), ..old(self)@ }).requoted(
                pair@,
                strategy::tokens_of(info),
                phase,
                now,
            ),
            r is None ==> final(self)@ == old(self)@,
            final(self).keeps_places(*old(self), pair.market_id),
            r matches Some(actions) ==> strategy::action_places(
                actions@,
                old(self).held_digits(pair.market_id).0,
                old(self).held_digits(pair.market_id).1,
                old(self).settings().max_position_per_side,
            ),
    {
        let (yes_fair, no_fair) = match fair_value(pair)? {
            FairValue::Incomplete => {
                self.last_requote = Some(now.instant);
                return Some(skip(SkipReason::IncompleteBook));
            },
            FairValue::ZeroSum => {
                self.last_requote = Some(now.instant);
                return Some(skip(SkipReason::ZeroMidpointSum));
            },
            FairValue::Fair { yes, no } => (yes, no),
        };
        let id = pair.market_id;
        let held = match self.inventory.get(id) {
            Some(inv) => *inv,
            None => InventoryState::default(),
        };
        let ghost looked = (MmView { last_requote: Some(now.instant), ..self@ }).with_inventory(
            id,
            held@,
        );
        assert(looked.inventory_of(id) == held@);
        assert((held.yes_held.digits(), held.no_held.digits()) == self.held_digits(id));
        let (yes_bid, no_bid) = quote_prices(&self.mm_config, &held, phase, yes_fair, no_fair)?;
        let total = checked_add(yes_bid, no_bid)?;
        if total >= Decimal::new(99, 2) {
            self.remember(id, held, now);
            return Some(skip(SkipReason::NoEdge { total }));
        }
        let size = self.mm_config.quote_size;
        let max = self.mm_config.max_position_per_side;
        if !has_room(held.yes_held, size, max) && !has_room(held.no_held, size, max) {
            self.remember(id, held, now);
            return Some(
                skip(
                    SkipReason::MaxPosition { yes_held: held.yes_held, no_held: held.no_held, max },
                ),
            );
        }
        self.post(id, held, info, (yes_bid, no_bid), now)
    }

    /// The cancellation that a market with open quotes needs.
    fn cancels(&self, id: B256) -> (r: Vec<Action>)
        ensures
            strategy::action_views(r@) == self@.cancelled(id).1,
            forall|i: int| 0 <= i < r@.len() ==> #[trigger] r@[i] is CancelAll,
    {
        let mut actions: Vec<Action> = Vec::new();
        if self.markets_with_quotes.contains(id) {
            actions.push(Action::CancelAll);
        }
        assert(strategy::action_views(actions@) =~= self@.cancelled(id).1);
        actions
    }

    /// Cancels open quotes and quotes each side that has room for a quote.
    fn post(
        &mut self,
        id: B256,
        held: InventoryState,
        info: Option<&MarketInfo>,
        bids: (Decimal, Decimal),
        now: Now,
    ) -> (r: Option<Vec<Action>>)
        requires
            (held.yes_held.digits(), held.no_held.digits()) == old(self).held_digits(id),
        ensures
            (match r {
                Some(actions) => Some((final(self)@, strategy::action_views(actions@))),
                None => None,
            }) == (MmView { last_requote: Some(now.instant), ..old(self)@ }).with_inventory(
                id,
                held@,
            ).quoted(id, strategy::tokens_of(info), bids.0@, bids.1@, now),
            r is None ==> final(self)@ == old(self)@,
            final(self).keeps_places(*old(self), id),
            r matches Some(actions) ==> strategy::action_places(
                actions@,
                old(self).held_digits(id).0,
                old(self).held_digits(id).1,
                old(self).settings().max_position_per_side,
            ),
    {
        let ghost looked = (MmView { last_requote: Some(now.instant), ..self@ }).with_inventory(
            id,
            held@,
        );
        assert(looked.inventory_of(id) == held@);
        let mut inventory = held;
        let mut actions = self.cancels(id);
        let ghost cancels = strategy::action_views(actions@);
        let size = self.mm_config.quote_size;
        let max = self.mm_config.max_position_per_side;
        let can_bid_yes = has_room(held.yes_held, size, max);
        let can_bid_no = has_room(held.no_held, size, max);
        match info {
            Some(info) => {
                if can_bid_yes {
                    inventory.record_quote_emitted(true, size, now.instant)?;
                    actions.push(
                        Action::PostLimitOrder { token_id: info.yes_token_id, price: bids.0, size },
                    );
                }
                let ghost with_yes = strategy::action_views(actions@);
                assert(with_yes =~= cancels + if can_bid_yes {
                    seq![
                        Action::<int, Seq<char>>::PostLimitOrder {
                            token_id: info.yes_token_id,
                            price: bids.0@,
                            size: size@,
                        },
                    ]
                } else {
                    seq![]
                });
                if can_bid_no {
                    inventory.record_quote_emitted(false, size, now.instant)?;
                    actions.push(
                        Action::PostLimitOrder { token_id: info.no_token_id, price: bids.1, size },
                    );
                }
                assert(strategy::action_views(actions@) =~= with_yes + if can_bid_no {
                    seq![
                        Action::<int, Seq<char>>::PostLimitOrder {
                            token_id: info.no_token_id,
                            price: bids.1@,
                            size: size@,
                        },
                    ]
                } else {
                    seq![]
                });
            },
            None => {},
        }
        if self.markets_with_quotes.contains(id) {
            self.markets_with_quotes.clear();
        }
        if info.is_some() {
            self.markets_with_quotes.insert(id);
        }
        self.last_requote = Some(now.instant);
        self.inventory.set(id, inventory);
        assert(looked.inventory.insert(id, inventory@) =~= self@.inventory);
        Some(actions)
    }
}

} // verus!
