//! Spread arbitrage: buys both tokens of a market where their asks add up to enough less than one.
use vstd::prelude::*;

use crate::decimal;
use crate::decimal::{checked_add, checked_mul, checked_sub, Decimal};
use crate::monitor::{ArbitrageOpportunity, OrderBookPair, PairView};
use crate::risk::positions;
use crate::risk::positions::exceeds_limit;
use crate::strategy;
use crate::time;
use crate::time::{elapsed_nanos, seconds_between};

use super::{skip, Action, SkipReason, StrategyContext};

verus! {

/// Least time between two trades: three seconds, in nanoseconds.
pub const MIN_TRADE_INTERVAL: u64 = 3_000_000_000;

/// What the arbitrage strategy knows, in atoms.
pub struct ArbView {
    pub min_profit_threshold: int,
    /// When a pair was last bought.
    pub last_trade_time: Option<u64>,
}

/// Whether the two best asks add up to at most one less the spread. `None` where a step is out of
/// range.
pub open spec fn asks_low_enough(pair: PairView, spread: int) -> Option<bool> {
    match decimal::difference(decimal::atoms(10, 1), spread) {
        None => None,
        Some(threshold) => match (pair.yes_book.best_ask(), pair.no_book.best_ask()) {
            (Some(y), Some(n)) => match decimal::sum(y, n) {
                Some(asks) => Some(asks <= threshold),
                None => None,
            },
            _ => Some(false),
        },
    }
}

/// The shares that are bought of each token.
pub open spec fn order_size(opp: ArbitrageOpportunity<int>, max: int) -> int {
    decimal::min_of(decimal::min_of(opp.yes_size, opp.no_size), max)
}

/// What the shares of each token cost, and both together; `None` where a step is out of range.
pub open spec fn costs(opp: ArbitrageOpportunity<int>, size: int) -> Option<(int, int, int)> {
    match (
        decimal::product(opp.yes_ask_price, size),
        decimal::product(opp.no_ask_price, size),
    ) {
        (Some(yes), Some(no)) => match decimal::sum(yes, no) {
            Some(both) => Some((yes, no, both)),
            None => None,
        },
        _ => None,
    }
}

/// Why the prices of an opportunity, or the time left, forbid a trade.
pub enum Gate {
    Open,
    Shut(SkipReason<int, Seq<char>>),
}

/// Whether the prices of an opportunity and the time left allow a trade; `None` where the limit on
/// the time is out of range.
pub open spec fn price_and_time_gate(opp: ArbitrageOpportunity<int>, ctx: &StrategyContext<'_>) -> Option<Gate> {
    let config = ctx.config;
    if config.min_yes_price_threshold@ > 0 && opp.yes_ask_price < config.min_yes_price_threshold@ {
        Some(
            Gate::Shut(
                SkipReason::YesPriceLow {
                    price: opp.yes_ask_price,
                    min: config.min_yes_price_threshold@,
                },
            ),
        )
    } else if config.min_no_price_threshold@ > 0 && opp.no_ask_price < config.min_no_price_threshold@ {
        Some(
            Gate::Shut(
                SkipReason::NoPriceLow {
                    price: opp.no_ask_price,
                    min: config.min_no_price_threshold@,
                },
            ),
        )
    } else if config.stop_arbitrage_before_end_minutes > 0 && ctx.market_info is Some {
        let secs_left = time::whole_secs((ctx.market_info->0).end_date - ctx.now.utc);
        let limit = (config.stop_arbitrage_before_end_minutes as i64) * 60;
        if limit < i64::MIN || limit > i64::MAX {
            None
        } else if secs_left <= limit {
            Some(
                Gate::Shut(
                    SkipReason::MarketEnding {
                        secs_left: secs_left as i64,
                        stop_minutes: config.stop_arbitrage_before_end_minutes,
                    },
                ),
            )
        } else {
            Some(Gate::Open)
        }
    } else {
        Some(Gate::Open)
    }
}

impl ArbView {
    /// No trade was made in this window.
    pub open spec fn window_started(self) -> ArbView {
        ArbView { last_trade_time: None, ..self }
    }

    /// An opportunity at good prices and in time: it is taken where the exposure stays within its
    /// limit, the two sides are held evenly and the last trade was long enough ago.
    pub open spec fn weighed(
        self,
        opp: ArbitrageOpportunity<int>,
        ctx: &StrategyContext<'_>,
        exposure: Option<int>,
    ) -> Option<(ArbView, Seq<Action<int, Seq<char>>>)> {
        let limit = ctx.position_tracker@.max_exposure;
        let recent = match self.last_trade_time {
            Some(last) => time::nanos_since(ctx.now.instant, last) < MIN_TRADE_INTERVAL,
            None => false,
        };
        match costs(opp, order_size(opp, ctx.config.max_order_size_usdc@)) {
            None => None,
            Some((yes_cost, no_cost, order)) => match positions::exceeds(
                exposure,
                yes_cost,
                no_cost,
                limit,
            ) {
                None => None,
                Some(true) => Some(
                    (
                        self,
                        strategy::skipped(
                            SkipReason::RiskLimit { exposure: exposure->0, order, limit },
                        ),
                    ),
                ),
                Some(false) => if ctx.pair_unbalanced {
                    Some(
                        (
                            self,
                            strategy::skipped(
                                SkipReason::Unbalanced { market: ctx.market_display@ },
                            ),
                        ),
                    )
                } else if recent {
                    Some((self, strategy::skipped(SkipReason::TradeInterval)))
                } else {
                    Some(
                        (
                            ArbView { last_trade_time: Some(ctx.now.instant), ..self },
                            seq![
                                Action::PlaceArbPair {
                                    opp,
                                    yes_dir: ctx.yes_dir@,
                                    no_dir: ctx.no_dir@,
                                },
                            ],
                        ),
                    )
                },
            },
        }
    }

    /// New books of a market, at this exposure: what is known afterwards, and what is asked for.
    /// `None` where a step of the computation is out of range.
    pub open spec fn book_update(
        self,
        pair: PairView,
        ctx: &StrategyContext<'_>,
        exposure: Option<int>,
    ) -> Option<(ArbView, Seq<Action<int, Seq<char>>>)> {
        match asks_low_enough(pair, ctx.config.arbitrage_execution_spread@) {
            None => None,
            Some(false) => Some((self, seq![])),
            Some(true) => match ctx.opportunity {
                None => Some((self, seq![])),
                Some(opp) => match price_and_time_gate(opp@, ctx) {
                    None => None,
                    Some(Gate::Shut(reason)) => Some((self, strategy::skipped(reason))),
                    Some(Gate::Open) => self.weighed(opp@, ctx, exposure),
                },
            },
        }
    }
}

/// Spread arbitrage.
pub struct ArbitrageStrategy {
    min_profit_threshold: Decimal,
    last_trade_time: Option<u64>,
}

impl View for ArbitrageStrategy {
    type V = ArbView;

    closed spec fn view(&self) -> ArbView {
        ArbView {
            min_profit_threshold: self.min_profit_threshold@,
            last_trade_time: self.last_trade_time,
        }
    }
}

/// No action.
fn nothing() -> (r: Vec<Action>)
    ensures
        strategy::action_views(r@) == Seq::<Action<int, Seq<char>>>::empty(),
{
    let none: Vec<Action> = Vec::new();
    assert(strategy::action_views(none@) =~= Seq::<Action<int, Seq<char>>>::empty());
    none
}

/// Whether the two best asks add up to at most one less the spread. `None` where a step is out of
/// range.
fn spread_is_there(pair: &OrderBookPair, spread: Decimal) -> (r: Option<bool>)
    ensures
        r == asks_low_enough(pair@, spread@),
{
    let threshold = checked_sub(Decimal::new(10, 1), spread)?;
    match (pair.yes_book.best_ask(), pair.no_book.best_ask()) {
        (Some(y), Some(n)) => Some(checked_add(y, n)? <= threshold),
        _ => Some(false),
    }
}

/// Why the prices of an opportunity, or the time left, forbid a trade: `Some(None)` where they do
/// not, `None` where the limit on the time is out of range.
fn shut_by_price_or_time(opp: &ArbitrageOpportunity, ctx: &StrategyContext<'_>) -> (r: Option<
    Option<SkipReason>,
>)
    ensures
        (match r {
            None => None,
            Some(None) => Some(Gate::Open),
            Some(Some(reason)) => Some(Gate::Shut(reason@)),
        }) == price_and_time_gate(opp@, ctx),
{
    let zero = Decimal::zero();
    let min_yes = ctx.config.min_yes_price_threshold;
    if min_yes > zero && opp.yes_ask_price < min_yes {
        return Some(Some(SkipReason::YesPriceLow { price: opp.yes_ask_price, min: min_yes }));
    }
    let min_no = ctx.config.min_no_price_threshold;
    if min_no > zero && opp.no_ask_price < min_no {
        return Some(Some(SkipReason::NoPriceLow { price: opp.no_ask_price, min: min_no }));
    }
    let stop_minutes = ctx.config.stop_arbitrage_before_end_minutes;
    if stop_minutes > 0 {
        match ctx.market_info {
            Some(info) => {
                let secs_left = seconds_between(info.end_date, ctx.now.utc);
                let limit = (stop_minutes as i64).checked_mul(60)?;
                if secs_left <= limit {
                    return Some(Some(SkipReason::MarketEnding { secs_left, stop_minutes }));
                }
            },
            None => {},
        }
    }
    Some(None)
}

impl ArbitrageStrategy {
    /// A strategy that has not traded yet.
    pub fn new(min_profit_threshold: Decimal) -> (r: Self)
        ensures
            r@ == (ArbView { min_profit_threshold: min_profit_threshold@, last_trade_time: None }),
    {
        ArbitrageStrategy { min_profit_threshold, last_trade_time: None }
    }

    /// The least profit of an opportunity.
    pub fn min_profit_threshold(&self) -> (r: Decimal)
        ensures
            r@ == self@.min_profit_threshold,
    {
        self.min_profit_threshold
    }

    /// The name of the strategy.
    pub fn name(&self) -> (r: &str)
        ensures
            r@ == "arbitrage"@,
    {
        "arbitrage"
    }

    /// Starts a window.
    pub fn on_window_start(&mut self)
        ensures
            final(self)@ == old(self)@.window_started(),
    {
        self.last_trade_time = None;
    }

    /// Looks at new books of a market. `None`, and no change, where a step of the computation is out
    /// of range. The exposure is the sum of the tracked costs in the order in which they come.
    pub fn on_book_update(&mut self, pair: &OrderBookPair, ctx: &StrategyContext<'_>) -> (r: Option<
        Vec<Action>,
    >)
        ensures
            exists|e: Option<int>| #[trigger]
                ctx.position_tracker@.may_have_exposure(e) && (match r {
                    Some(actions) => Some((final(self)@, strategy::action_views(actions@))),
                    None => None,
                }) == old(self)@.book_update(pair@, ctx, e),
            r is None ==> final(self)@ == old(self)@,
    {
        let exposure = ctx.position_tracker.calculate_exposure();
        assert(ctx.position_tracker@.may_have_exposure(decimal::opt_atoms(exposure)));
        self.decide(pair, ctx, exposure)
    }

    /// Looks at new books of a market, at this exposure. `None`, and no change, where a step of the
    /// computation is out of range.
    pub fn decide(&mut self, pair: &OrderBookPair, ctx: &StrategyContext<'_>, exposure: Option<Decimal>) -> (r:
        Option<Vec<Action>>)
        ensures
            (match r {
                Some(actions) => Some((final(self)@, strategy::action_views(actions@))),
                None => None,
            }) == old(self)@.book_update(pair@, ctx, decimal::opt_atoms(exposure)),
            r is None ==> final(self)@ == old(self)@,
    {
        if !spread_is_there(pair, ctx.config.arbitrage_execution_spread)? {
            return Some(nothing());
        }
        let opp = match ctx.opportunity {
            Some(opp) => opp,
            None => return Some(nothing()),
        };
        match shut_by_price_or_time(&opp, ctx)? {
            Some(reason) => return Some(skip(reason)),
            None => {},
        }
        let size = opp.yes_size.min(opp.no_size).min(ctx.config.max_order_size_usdc);
        let yes_cost = checked_mul(opp.yes_ask_price, size)?;
        let no_cost = checked_mul(opp.no_ask_price, size)?;
        let order = checked_add(yes_cost, no_cost)?;
        let exposure = exposure?;
        let limit = ctx.position_tracker.max_exposure();
        if exceeds_limit(exposure, yes_cost, no_cost, limit)? {
            return Some(skip(SkipReason::RiskLimit { exposure, order, limit }));
        }
        if ctx.pair_unbalanced {
            return Some(skip(SkipReason::Unbalanced { market: ctx.market_display.to_string() }));
        }
        match self.last_trade_time {
            Some(last) => if elapsed_nanos(ctx.now.instant, last) < MIN_TRADE_INTERVAL {
                return Some(skip(SkipReason::TradeInterval));
            },
            None => {},
        }
        self.last_trade_time = Some(ctx.now.instant);
        let mut actions: Vec<Action> = Vec::new();
        actions.push(
            Action::PlaceArbPair {
                opp,
                yes_dir: ctx.yes_dir.to_string(),
                no_dir: ctx.no_dir.to_string(),
            },
        );
        assert(strategy::action_views(actions@) =~= seq![
            Action::<int, Seq<char>>::PlaceArbPair {
                opp: opp@,
                yes_dir: ctx.yes_dir@,
                no_dir: ctx.no_dir@,
            },
        ]);
        Some(actions)
    }
}

/// A pair is bought only where every condition holds: the asks leave the spread, there is an
/// opportunity, its prices are not below their thresholds, the market does not end too soon, the
/// exposure stays within its limit, the two sides are held evenly, and the last trade was at least
/// three seconds ago.
pub proof fn trade_meets_every_condition(
    s: ArbView,
    pair: PairView,
    ctx: &StrategyContext<'_>,
    exposure: Option<int>,
    i: int,
)
    requires
        s.book_update(pair, ctx, exposure) is Some,
        0 <= i < (s.book_update(pair, ctx, exposure)->0).1.len(),
        (s.book_update(pair, ctx, exposure)->0).1[i] is PlaceArbPair,
    ensures
        asks_low_enough(pair, ctx.config.arbitrage_execution_spread@) == Some(true),
        ctx.opportunity is Some,
        (s.book_update(pair, ctx, exposure)->0).1[i]->opp == (ctx.opportunity->0)@,
        (ctx.opportunity->0)@.yes_ask_price >= ctx.config.min_yes_price_threshold@ || ctx.config.min_yes_price_threshold@
            <= 0,
        (ctx.opportunity->0)@.no_ask_price >= ctx.config.min_no_price_threshold@ || ctx.config.min_no_price_threshold@
            <= 0,
        ({
            let opp = (ctx.opportunity->0)@;
            let (yes_cost, no_cost, _) = costs(opp, order_size(opp, ctx.config.max_order_size_usdc@))->0;
            positions::exceeds(exposure, yes_cost, no_cost, ctx.position_tracker@.max_exposure)
                == Some(false)
        }),
        !ctx.pair_unbalanced,
        s.last_trade_time matches Some(last) ==> time::nanos_since(ctx.now.instant, last)
            >= MIN_TRADE_INTERVAL,
        (s.book_update(pair, ctx, exposure)->0).0.last_trade_time == Some(ctx.now.instant),
{
}

/// Close to the end of a known market no pair is bought.
pub proof fn no_trade_near_the_end(
    s: ArbView,
    pair: PairView,
    ctx: &StrategyContext<'_>,
    exposure: Option<int>,
    i: int,
)
    requires
        s.book_update(pair, ctx, exposure) is Some,
        0 <= i < (s.book_update(pair, ctx, exposure)->0).1.len(),
        ctx.market_info is Some,
        0 < ctx.config.stop_arbitrage_before_end_minutes <= i64::MAX,
        time::whole_secs((ctx.market_info->0).end_date - ctx.now.utc)
            <= ctx.config.stop_arbitrage_before_end_minutes * 60,
    ensures
        (s.book_update(pair, ctx, exposure)->0).1[i] !is PlaceArbPair,
{
}

} // verus!
