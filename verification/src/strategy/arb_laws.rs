//! When the arbitrage strategy buys a pair, and when it does not.
use vstd::prelude::*;

use crate::decimal;
use crate::monitor::{ArbitrageOpportunity, PairView};

use super::arb;
use super::arb::ArbView;
use super::{Action, SkipReason, StrategyContext};

verus! {

/// The largest number of shares that neither offer nor the order limit is below.
pub open spec fn is_largest_size(size: int, opp: ArbitrageOpportunity<int>, max: int) -> bool {
    &&& size <= opp.yes_size
    &&& size <= opp.no_size
    &&& size <= max
    &&& size == opp.yes_size || size == opp.no_size || size == max
}

/// The best asks of both books are there, and lie between 0 and 1.
pub open spec fn has_usual_asks(pair: PairView) -> bool {
    let (yes, no) = (pair.yes_book.asks, pair.no_book.asks);
    &&& yes.len() > 0 && 0 <= yes[yes.len() - 1].price <= decimal::one()
    &&& no.len() > 0 && 0 <= no[no.len() - 1].price <= decimal::one()
}

/// The best asks together cost at most one less the spread.
pub open spec fn leaves_spread(pair: PairView, spread: int) -> bool {
    let (yes, no) = (pair.yes_book.asks, pair.no_book.asks);
    yes[yes.len() - 1].price + no[no.len() - 1].price <= decimal::one() - spread
}

/// The prices are not below their thresholds, where there are any, and the market does not end within the
/// minutes in which no pair is bought any more, where it is known.
pub open spec fn prices_and_time_allow(opp: ArbitrageOpportunity<int>, ctx: &StrategyContext<'_>) -> bool {
    let stop = ctx.config.stop_arbitrage_before_end_minutes;
    &&& ctx.config.min_yes_price_threshold@ <= 0 || opp.yes_ask_price >= ctx.config.min_yes_price_threshold@
    &&& ctx.config.min_no_price_threshold@ <= 0 || opp.no_ask_price >= ctx.config.min_no_price_threshold@
    &&& stop > 0 && ctx.market_info is Some ==> (ctx.market_info->0).end_date - ctx.now.utc >= (stop * 60 + 1)
        * 1_000_000_000
}

/// The last pair was bought three seconds ago or longer.
pub open spec fn rested(s: ArbView, ctx: &StrategyContext<'_>) -> bool {
    s.last_trade_time matches Some(last) ==> ctx.now.instant >= last + 3_000_000_000
}

/// What so many shares of each token cost, without a loss in the sums.
pub open spec fn costs_of(opp: ArbitrageOpportunity<int>, size: int, yes_cost: int, no_cost: int, exposure: int) -> bool {
    &&& decimal::product(opp.yes_ask_price, size) == Some(yes_cost)
    &&& decimal::product(opp.no_ask_price, size) == Some(no_cost)
    &&& decimal::representable(yes_cost + no_cost)
    &&& decimal::representable(exposure + yes_cost + no_cost)
}

/// The shares whose cost is held against the exposure limit are as many as neither offer nor the order limit
/// is below.
pub proof fn smallest_offer_counts(opp: ArbitrageOpportunity<int>, max: int, size: int)
    requires
        is_largest_size(size, opp, max),
    ensures
        arb::order_size(opp, max) == size,
{
}

/// A pair is bought where its asks leave the spread, its prices and the time allow it, the cost of the smallest
/// of both offers and the order limit keeps the exposure within its limit, the sides are held evenly and the
/// last pair is three seconds ago.
pub proof fn good_pair_is_bought(
    s: ArbView,
    pair: PairView,
    ctx: &StrategyContext<'_>,
    exposure: int,
    size: int,
    yes_cost: int,
    no_cost: int,
)
    requires
        has_usual_asks(pair),
        -decimal::one() <= ctx.config.arbitrage_execution_spread@ <= decimal::one(),
        leaves_spread(pair, ctx.config.arbitrage_execution_spread@),
        ctx.opportunity is Some,
        prices_and_time_allow((ctx.opportunity->0)@, ctx),
        ctx.config.stop_arbitrage_before_end_minutes <= 1_000_000_000,
        is_largest_size(size, (ctx.opportunity->0)@, ctx.config.max_order_size_usdc@),
        costs_of((ctx.opportunity->0)@, size, yes_cost, no_cost, exposure),
        exposure + yes_cost + no_cost <= ctx.position_tracker@.max_exposure,
        !ctx.pair_unbalanced,
        rested(s, ctx),
    ensures
        s.book_update(pair, ctx, Some(exposure)) == Some(
            (
                ArbView { last_trade_time: Some(ctx.now.instant), ..s },
                seq![
                    Action::<int, Seq<char>>::PlaceArbPair {
                        opp: (ctx.opportunity->0)@,
                        yes_dir: ctx.yes_dir@,
                        no_dir: ctx.no_dir@,
                    },
                ],
            ),
        ),
{
    lemma_asks(pair, ctx.config.arbitrage_execution_spread@);
    decimal::lemma_representable_exact(yes_cost + no_cost);
    decimal::lemma_representable_exact(exposure + (yes_cost + no_cost));
}

/// The sums on the asks are exact.
proof fn lemma_asks(pair: PairView, spread: int)
    requires
        has_usual_asks(pair),
        -decimal::one() <= spread <= decimal::one(),
    ensures
        arb::asks_low_enough(pair, spread) == Some(leaves_spread(pair, spread)),
{
    let (yes, no) = (pair.yes_book.asks, pair.no_book.asks);
    assert(decimal::atoms(10, 1) == decimal::one());
    decimal::lemma_small_exact(decimal::one() - spread);
    decimal::lemma_small_exact(yes[yes.len() - 1].price + no[no.len() - 1].price);
}

/// A pair whose cost would lift the exposure above its limit is not bought, and the reason says so.
pub proof fn costly_pair_is_not_bought(
    s: ArbView,
    pair: PairView,
    ctx: &StrategyContext<'_>,
    exposure: int,
    size: int,
    yes_cost: int,
    no_cost: int,
)
    requires
        has_usual_asks(pair),
        -decimal::one() <= ctx.config.arbitrage_execution_spread@ <= decimal::one(),
        leaves_spread(pair, ctx.config.arbitrage_execution_spread@),
        ctx.opportunity is Some,
        prices_and_time_allow((ctx.opportunity->0)@, ctx),
        ctx.config.stop_arbitrage_before_end_minutes <= 1_000_000_000,
        is_largest_size(size, (ctx.opportunity->0)@, ctx.config.max_order_size_usdc@),
        costs_of((ctx.opportunity->0)@, size, yes_cost, no_cost, exposure),
        exposure + yes_cost + no_cost > ctx.position_tracker@.max_exposure,
    ensures
        s.book_update(pair, ctx, Some(exposure)) == Some(
            (
                s,
                seq![
                    Action::<int, Seq<char>>::Skip {
                        reason: SkipReason::RiskLimit {
                            exposure,
                            order: yes_cost + no_cost,
                            limit: ctx.position_tracker@.max_exposure,
                        },
                    },
                ],
            ),
        ),
{
    lemma_asks(pair, ctx.config.arbitrage_execution_spread@);
    decimal::lemma_representable_exact(yes_cost + no_cost);
    decimal::lemma_representable_exact(exposure + (yes_cost + no_cost));
}

/// Without the spread between the asks, without an opportunity, below a price threshold, too close to the end,
/// above the exposure limit, with uneven sides or within three seconds of the last pair, no pair is bought.
pub proof fn bought_pair_was_good(
    s: ArbView,
    pair: PairView,
    ctx: &StrategyContext<'_>,
    exposure: int,
    size: int,
    yes_cost: int,
    no_cost: int,
    i: int,
)
    requires
        has_usual_asks(pair),
        -decimal::one() <= ctx.config.arbitrage_execution_spread@ <= decimal::one(),
        ctx.config.stop_arbitrage_before_end_minutes <= 1_000_000_000,
        ctx.opportunity is Some ==> is_largest_size(
            size,
            (ctx.opportunity->0)@,
            ctx.config.max_order_size_usdc@,
        ) && costs_of((ctx.opportunity->0)@, size, yes_cost, no_cost, exposure),
        s.book_update(pair, ctx, Some(exposure)) is Some,
        0 <= i < (s.book_update(pair, ctx, Some(exposure))->0).1.len(),
        (s.book_update(pair, ctx, Some(exposure))->0).1[i] is PlaceArbPair,
    ensures
        leaves_spread(pair, ctx.config.arbitrage_execution_spread@),
        ctx.opportunity is Some,
        prices_and_time_allow((ctx.opportunity->0)@, ctx),
        exposure + yes_cost + no_cost <= ctx.position_tracker@.max_exposure,
        !ctx.pair_unbalanced,
        rested(s, ctx),
        (s.book_update(pair, ctx, Some(exposure))->0).1.len() == 1,
{
    lemma_asks(pair, ctx.config.arbitrage_execution_spread@);
    decimal::lemma_representable_exact(yes_cost + no_cost);
    decimal::lemma_representable_exact(exposure + (yes_cost + no_cost));
}

/// What the costs of an order depend on: the asks that the opportunity names, YES with YES and NO with NO; and
/// with YES and NO changed for each other, so are the two costs.
pub proof fn costs_mirrored(opp: ArbitrageOpportunity<int>, size: int)
    ensures
        arb::costs(
            ArbitrageOpportunity {
                yes_ask_price: opp.no_ask_price,
                no_ask_price: opp.yes_ask_price,
                ..opp
            },
            size,
        ) == match arb::costs(opp, size) {
            Some((yes, no, both)) => Some((no, yes, both)),
            None => None,
        },
{
}

/// Where a book has no ask, no pair is bought, and nothing else changes.
pub proof fn pair_without_an_ask_is_not_bought(
    s: ArbView,
    pair: PairView,
    ctx: &StrategyContext<'_>,
    exposure: Option<int>,
)
    requires
        pair.yes_book.asks.len() == 0 || pair.no_book.asks.len() == 0,
        0 <= ctx.config.arbitrage_execution_spread@ <= decimal::one(),
    ensures
        s.book_update(pair, ctx, exposure) matches Some((t, actions)) && t == s && actions.len() == 0,
{
    decimal::lemma_small_exact(decimal::one() - ctx.config.arbitrage_execution_spread@);
}

} // verus!
