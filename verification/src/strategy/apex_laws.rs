//! What holds of the apex market maker whatever the books say.
use vstd::prelude::*;

use crate::decimal;
use crate::monitor::PairView;
use crate::strategy;
use crate::time;
use crate::time::Now;
use crate::types::{B256, U256};

use super::apex;
use super::apex::{ApexConfig, ApexPhase, ApexView, MarketView};
use super::{Action, SkipReason};

verus! {

/// What is asked for after new books; nothing where the computation is out of range.
pub open spec fn answer(
    s: ApexView,
    pair: PairView,
    tokens: Option<(U256, U256)>,
    window_end: i64,
    now: Now,
) -> Seq<Action<int, Seq<char>>> {
    match s.book_update(pair, tokens, window_end, now) {
        Some((_, actions)) => actions,
        None => seq![],
    }
}

/// What is known after new books; what was known before where the computation is out of range.
pub open spec fn after(
    s: ApexView,
    pair: PairView,
    tokens: Option<(U256, U256)>,
    window_end: i64,
    now: Now,
) -> ApexView {
    match s.book_update(pair, tokens, window_end, now) {
        Some((t, _)) => t,
        None => s,
    }
}

/// No order is posted.
pub open spec fn posts_nothing(actions: Seq<Action<int, Seq<char>>>) -> bool {
    forall|i: int| 0 <= i < actions.len() ==> #[trigger] actions[i] !is PostLimitOrder
}

/// Two orders that are posted together are one for each token, and their prices add up to less than
/// 0.99: whoever fills both pays less than the pair is worth.
pub proof fn pair_leaves_edge(
    s: ApexView,
    pair: PairView,
    tokens: Option<(U256, U256)>,
    window_end: i64,
    now: Now,
    i: int,
    j: int,
)
    requires
        0 <= i < j < answer(s, pair, tokens, window_end, now).len(),
        answer(s, pair, tokens, window_end, now)[i] is PostLimitOrder,
        answer(s, pair, tokens, window_end, now)[j] is PostLimitOrder,
    ensures
        tokens == Some(
            (
                answer(s, pair, tokens, window_end, now)[i]->token_id,
                answer(s, pair, tokens, window_end, now)[j]->token_id,
            ),
        ),
        answer(s, pair, tokens, window_end, now)[i]->price + answer(
            s,
            pair,
            tokens,
            window_end,
            now,
        )[j]->price < decimal::atoms(99, 2),
{
    let actions = answer(s, pair, tokens, window_end, now);
    let yes = actions[i]->price;
    let no = actions[j]->price;
    assert(decimal::sum(yes, no) is Some && decimal::sum(yes, no)->0 < decimal::atoms(99, 2));
    if yes + no >= decimal::atoms(99, 2) {
        assert(decimal::representable(decimal::atoms(99, 2))) by {
            assert(decimal::atoms(99, 2) == 99 * decimal::pow10(26));
        }
        decimal::lemma_nearest_at_least(yes + no, decimal::atoms(99, 2));
    }
}

/// Every order that is posted has the configured size and a price of at least one cent.
pub proof fn posted_prices(
    s: ApexView,
    pair: PairView,
    tokens: Option<(U256, U256)>,
    window_end: i64,
    now: Now,
    i: int,
)
    requires
        0 <= i < answer(s, pair, tokens, window_end, now).len(),
        answer(s, pair, tokens, window_end, now)[i] is PostLimitOrder,
    ensures
        answer(s, pair, tokens, window_end, now)[i]->price >= decimal::atoms(1, 2),
        answer(s, pair, tokens, window_end, now)[i]->size == s.config.quote_size,
{
}

/// Only a side that has room for the quote under its cap is quoted.
pub proof fn capped_side_is_not_quoted(
    s: ApexView,
    pair: PairView,
    yes_token: U256,
    no_token: U256,
    window_end: i64,
    now: Now,
    i: int,
)
    requires
        yes_token != no_token,
        0 <= i < answer(s, pair, Some((yes_token, no_token)), window_end, now).len(),
        answer(s, pair, Some((yes_token, no_token)), window_end, now)[i] is PostLimitOrder,
    ensures
        answer(s, pair, Some((yes_token, no_token)), window_end, now)[i]->token_id == yes_token
            ==> strategy::fits(
            s.market(pair.market_id).yes_held,
            s.config.quote_size,
            s.config.max_position_per_side,
        ),
        answer(s, pair, Some((yes_token, no_token)), window_end, now)[i]->token_id == no_token
            ==> strategy::fits(
            s.market(pair.market_id).no_held,
            s.config.quote_size,
            s.config.max_position_per_side,
        ),
{
}

/// Neither side holds more than the cap.
pub open spec fn within_caps(market: MarketView, config: ApexConfig<int>) -> bool {
    market.yes_held <= config.max_position_per_side && market.no_held <= config.max_position_per_side
}

/// No side goes above its cap, even if every quote is filled.
pub proof fn caps_hold(
    s: ApexView,
    pair: PairView,
    tokens: Option<(U256, U256)>,
    window_end: i64,
    now: Now,
)
    requires
        within_caps(s.market(pair.market_id), s.config),
    ensures
        within_caps(after(s, pair, tokens, window_end, now).market(pair.market_id), s.config),
{
}

/// An order counts as filled at once: what its side holds grows by its size.
pub proof fn every_order_is_counted(
    s: ApexView,
    pair: PairView,
    yes_token: U256,
    no_token: U256,
    window_end: i64,
    now: Now,
    i: int,
)
    requires
        yes_token != no_token,
        0 <= i < answer(s, pair, Some((yes_token, no_token)), window_end, now).len(),
        answer(s, pair, Some((yes_token, no_token)), window_end, now)[i] is PostLimitOrder,
    ensures
        ({
            let order = answer(s, pair, Some((yes_token, no_token)), window_end, now)[i];
            let before = s.market(pair.market_id);
            let later = after(s, pair, Some((yes_token, no_token)), window_end, now).market(pair.market_id);
            ||| order->token_id == yes_token && decimal::sum(before.yes_held, order->size) == Some(
                later.yes_held,
            )
            ||| order->token_id == no_token && decimal::sum(before.no_held, order->size) == Some(
                later.no_held,
            )
        }),
{
}

/// New books of a market, with what else is looked at.
pub struct BookEvent {
    pub pair: PairView,
    pub tokens: Option<(U256, U256)>,
    pub window_end: i64,
    pub now: Now,
}

/// What is known after one event upon the other.
pub open spec fn after_all(s: ApexView, events: Seq<BookEvent>) -> ApexView
    decreases events.len(),
{
    if events.len() == 0 {
        s
    } else {
        let e = events.last();
        after(after_all(s, events.drop_last()), e.pair, e.tokens, e.window_end, e.now)
    }
}

/// Position limits are never exceeded: from the start of a window on, whatever books come in, no side of
/// any market goes above its cap, even if every quote is filled.
pub proof fn caps_hold_all_window(s: ApexView, start: Now, events: Seq<BookEvent>, id: B256)
    requires
        s.config.max_position_per_side >= 0,
    ensures
        within_caps(after_all(s.window_started(start), events).market(id), s.config),
        after_all(s.window_started(start), events).config == s.config,
    decreases events.len(),
{
    if events.len() > 0 {
        let e = events.last();
        let before = after_all(s.window_started(start), events.drop_last());
        caps_hold_all_window(s, start, events.drop_last(), id);
        if id == e.pair.market_id {
            caps_hold(before, e.pair, e.tokens, e.window_end, e.now);
        } else {
            other_markets_unchanged(before, e.pair, e.tokens, e.window_end, e.now, id);
        }
    }
}

/// Books of one market change nothing that is known of another.
pub proof fn other_markets_unchanged(
    s: ApexView,
    pair: PairView,
    tokens: Option<(U256, U256)>,
    window_end: i64,
    now: Now,
    other: B256,
)
    requires
        other != pair.market_id,
    ensures
        after(s, pair, tokens, window_end, now).market(other) == s.market(other),
        after(s, pair, tokens, window_end, now).config == s.config,
        after(s, pair, tokens, window_end, now).window_start == s.window_start,
{
}

/// In a market whose flow is judged toxic nothing is posted.
pub proof fn toxic_market_is_not_quoted(
    s: ApexView,
    pair: PairView,
    tokens: Option<(U256, U256)>,
    window_end: i64,
    now: Now,
)
    requires
        after(s, pair, tokens, window_end, now).market(pair.market_id).toxicity is Toxic,
    ensures
        posts_nothing(answer(s, pair, tokens, window_end, now)),
{
}

/// Where a market is skipped as toxic, quotes that it has are cancelled first.
pub proof fn toxic_market_is_cancelled(
    s: ApexView,
    pair: PairView,
    tokens: Option<(U256, U256)>,
    window_end: i64,
    now: Now,
)
    requires
        answer(s, pair, tokens, window_end, now).len() > 0,
        answer(s, pair, tokens, window_end, now).last() matches Action::Skip {
            reason: SkipReason::Toxic(_),
        },
    ensures
        s.markets_with_quotes.contains(pair.market_id) ==> answer(s, pair, tokens, window_end, now)[0]
            is CancelAll,
        !after(s, pair, tokens, window_end, now).markets_with_quotes.contains(pair.market_id),
{
}

/// Within two seconds of the last look nothing is done.
pub proof fn requotes_are_two_seconds_apart(
    s: ApexView,
    pair: PairView,
    tokens: Option<(U256, U256)>,
    window_end: i64,
    now: Now,
)
    requires
        s.last_requote matches Some(last) && time::millis_between(now.instant, last) < 2000,
    ensures
        posts_nothing(answer(s, pair, tokens, window_end, now)),
        after(s, pair, tokens, window_end, now) == s,
{
}

/// Whoever posts has looked just then, so that the two seconds run from there.
pub proof fn posting_sets_the_clock(
    s: ApexView,
    pair: PairView,
    tokens: Option<(U256, U256)>,
    window_end: i64,
    now: Now,
)
    requires
        !posts_nothing(answer(s, pair, tokens, window_end, now)),
    ensures
        after(s, pair, tokens, window_end, now).last_requote == Some(now.instant),
        after(s, pair, tokens, window_end, now).markets_with_quotes.contains(pair.market_id),
{
}

/// Nothing is posted before a window starts, nor too close to its end.
pub proof fn no_quotes_out_of_time(
    s: ApexView,
    pair: PairView,
    tokens: Option<(U256, U256)>,
    window_end: i64,
    now: Now,
)
    requires
        s.window_start is None || time::whole_secs(window_end - now.utc)
            < s.config.min_seconds_to_quote,
    ensures
        posts_nothing(answer(s, pair, tokens, window_end, now)),
        after(s, pair, tokens, window_end, now) == s,
{
}

/// Close to expiry the heavy side is not quoted: with more than five shares net, only the other, and
/// that one at least half a cent below its fair value or at one cent.
pub proof fn resolution_flattens(
    market: MarketView,
    config: ApexConfig<int>,
    yes_fair: int,
    no_fair: int,
    net: int,
)
    requires
        market.net_inventory() == Some(net),
        market.calculate_quotes(config, ApexPhase::Resolution, yes_fair, no_fair) is Some,
    ensures
        ({
            let (yes_bid, no_bid, can_yes, can_no) = market.calculate_quotes(
                config,
                ApexPhase::Resolution,
                yes_fair,
                no_fair,
            )->0;
            &&& net > decimal::atoms(5, 0) ==> !can_yes && (no_bid == decimal::atoms(1, 2) || no_bid
                <= decimal::difference(no_fair, decimal::atoms(5, 3))->0)
            &&& net < decimal::atoms(-5, 0) ==> !can_no && (yes_bid == decimal::atoms(1, 2) || yes_bid
                <= decimal::difference(yes_fair, decimal::atoms(5, 3))->0)
        }),
{
}

/// Requotes that are at least a second and a half apart are normal, however many there are.
pub proof fn steady_cadence_is_normal(threshold: u32, quotes: Seq<u64>)
    requires
        forall|i: int| 0 < i < quotes.len() ==> time::millis_between(#[trigger] quotes[i], quotes[i - 1]) >= 1500,
    ensures
        apex::velocity_signal(threshold, quotes).0 is Normal,
{
    lemma_min_gap(quotes);
}

/// Neighbours at least a second and a half apart have no shorter gap.
proof fn lemma_min_gap(quotes: Seq<u64>)
    requires
        forall|i: int| 0 < i < quotes.len() ==> time::millis_between(#[trigger] quotes[i], quotes[i - 1]) >= 1500,
    ensures
        apex::min_gap(quotes) matches Some(gap) ==> gap >= 1500,
    decreases quotes.len(),
{
    if quotes.len() >= 2 {
        let before = quotes.drop_last();
        assert forall|i: int| 0 < i < before.len() implies time::millis_between(
            #[trigger] before[i],
            before[i - 1],
        ) >= 1500 by {
            assert(before[i] == quotes[i] && before[i - 1] == quotes[i - 1]);
        }
        lemma_min_gap(before);
        assert(quotes.last() == quotes[quotes.len() - 1]);
    }
}

/// Quotes within half a second of the last requote count as part of it.
pub proof fn burst_counts_once(market: MarketView, is_yes: bool, size: int, now: u64)
    requires
        market.recent_quotes.len() > 0,
        time::millis_between(now, market.recent_quotes.last()) <= 500,
        market.record_quote(is_yes, size, now) is Some,
    ensures
        (market.record_quote(is_yes, size, now)->0).recent_quotes == market.recent_quotes,
{
}

/// The more YES is held on balance, the lower the YES bid and the higher the NO bid.
pub proof fn inventory_skews_bids(
    light: MarketView,
    heavy: MarketView,
    config: ApexConfig<int>,
    phase: ApexPhase,
    yes_fair: int,
    no_fair: int,
)
    requires
        phase is Early || phase is Adaptive,
        light.toxicity == heavy.toxicity,
        light.net_inventory() is Some,
        heavy.net_inventory() is Some,
        light.net_inventory()->0 <= heavy.net_inventory()->0,
        config.inventory_gamma >= 0,
        light.calculate_quotes(config, phase, yes_fair, no_fair) is Some,
        heavy.calculate_quotes(config, phase, yes_fair, no_fair) is Some,
    ensures
        ({
            let (heavy_yes, heavy_no, _, _) = heavy.calculate_quotes(config, phase, yes_fair, no_fair)->0;
            let (light_yes, light_no, _, _) = light.calculate_quotes(config, phase, yes_fair, no_fair)->0;
            heavy_yes <= light_yes && heavy_no >= light_no
        }),
{
    let gamma = config.inventory_gamma;
    let (a, b) = (light.net_inventory()->0, heavy.net_inventory()->0);
    assert(gamma * a <= gamma * b) by (nonlinear_arith)
        requires
            gamma >= 0,
            a <= b,
    ;
    decimal::lemma_nearest_monotone(gamma * a, gamma * b, decimal::one());
    let (s, t) = (decimal::product(gamma, a)->0, decimal::product(gamma, b)->0);
    decimal::lemma_nearest_monotone(yes_fair - t, yes_fair - s, 1);
    decimal::lemma_nearest_monotone(no_fair + s, no_fair + t, 1);
    let half = apex::half_spread(config, phase, light.toxicity, a)->0;
    let (yes_t, yes_s) = (decimal::difference(yes_fair, t)->0, decimal::difference(yes_fair, s)->0);
    let (no_s, no_t) = (decimal::sum(no_fair, s)->0, decimal::sum(no_fair, t)->0);
    decimal::lemma_nearest_monotone(yes_t - half, yes_s - half, 1);
    decimal::lemma_nearest_monotone(no_s - half, no_t - half, 1);
}

/// A new window forgets every market and every quote.
pub proof fn window_start_forgets(s: ApexView, now: Now, id: B256)
    ensures
        s.window_started(now).market(id) == apex::fresh_market(),
        !s.window_started(now).markets_with_quotes.contains(id),
        s.window_started(now).last_requote is None,
        s.window_started(now).config == s.config,
{
}

/// The phases follow each other.
pub proof fn phases_in_order(earlier: int, later: int)
    requires
        earlier <= later,
    ensures
        apex::phase_after(later) is Early ==> apex::phase_after(earlier) is Early,
        apex::phase_after(earlier) is Resolution ==> apex::phase_after(later) is Resolution,
        apex::phase_after(later) is Adaptive ==> apex::phase_after(earlier) is Early || apex::phase_after(
            earlier,
        ) is Adaptive,
        apex::phase_after(earlier) is Cleanup ==> apex::phase_after(later) is Cleanup || apex::phase_after(
            later,
        ) is Resolution,
{
}

} // verus!
