//! What holds of the market maker whatever the books say.
use vstd::prelude::*;

use crate::decimal;
use crate::monitor::PairView;
use crate::strategy;
use crate::time;
use crate::time::Now;
use crate::types::{B256, U256};

use super::mm;
use super::mm::{InventoryState, MmConfig, MmView, Phase};
use super::Action;

verus! {

/// What is asked for after new books; nothing where the computation is out of range.
pub open spec fn answer(
    s: MmView,
    pair: PairView,
    tokens: Option<(U256, U256)>,
    window_end: i64,
    now: Now,
) -> Seq<Action<int, Seq<char>>> {
    match s.book_update(pair, tokens, window_end, now) {
        Some((_, actions)) => actions,
        None => seq![],
    }
}

/// What is known after new books; what was known before where the computation is out of range.
pub open spec fn after(
    s: MmView,
    pair: PairView,
    tokens: Option<(U256, U256)>,
    window_end: i64,
    now: Now,
) -> MmView {
    match s.book_update(pair, tokens, window_end, now) {
        Some((t, _)) => t,
        None => s,
    }
}

/// No order is posted.
pub open spec fn posts_nothing(actions: Seq<Action<int, Seq<char>>>) -> bool {
    forall|i: int| 0 <= i < actions.len() ==> #[trigger] actions[i] !is PostLimitOrder
}

/// If both orders fill, there is a profit: two orders that are posted together are one for each token,
/// and their prices add up to less than 0.99.
pub proof fn pair_leaves_edge(
    s: MmView,
    pair: PairView,
    tokens: Option<(U256, U256)>,
    window_end: i64,
    now: Now,
    i: int,
    j: int,
)
    requires
        0 <= i < j < answer(s, pair, tokens, window_end, now).len(),
        answer(s, pair, tokens, window_end, now)[i] is PostLimitOrder,
        answer(s, pair, tokens, window_end, now)[j] is PostLimitOrder,
    ensures
        tokens == Some(
            (
                answer(s, pair, tokens, window_end, now)[i]->token_id,
                answer(s, pair, tokens, window_end, now)[j]->token_id,
            ),
        ),
        answer(s, pair, tokens, window_end, now)[i]->price + answer(
            s,
            pair,
            tokens,
            window_end,
            now,
        )[j]->price < decimal::atoms(99, 2),
{
    let actions = answer(s, pair, tokens, window_end, now);
    let yes = actions[i]->price;
    let no = actions[j]->price;
    assert(decimal::sum(yes, no) is Some && decimal::sum(yes, no)->0 < decimal::atoms(99, 2));
    if yes + no >= decimal::atoms(99, 2) {
        assert(decimal::representable(decimal::atoms(99, 2))) by {
            assert(decimal::atoms(99, 2) == 99 * decimal::pow10(26));
        }
        decimal::lemma_nearest_at_least(yes + no, decimal::atoms(99, 2));
    }
}

/// Every order that is posted has the configured size and a price of at least one cent.
pub proof fn posted_prices(
    s: MmView,
    pair: PairView,
    tokens: Option<(U256, U256)>,
    window_end: i64,
    now: Now,
    i: int,
)
    requires
        0 <= i < answer(s, pair, tokens, window_end, now).len(),
        answer(s, pair, tokens, window_end, now)[i] is PostLimitOrder,
    ensures
        answer(s, pair, tokens, window_end, now)[i]->price >= decimal::atoms(1, 2),
        answer(s, pair, tokens, window_end, now)[i]->size == s.config.quote_size,
{
}

/// Only a side that has room for the quote under its cap is quoted.
pub proof fn capped_side_is_not_quoted(
    s: MmView,
    pair: PairView,
    yes_token: U256,
    no_token: U256,
    window_end: i64,
    now: Now,
    i: int,
)
    requires
        yes_token != no_token,
        0 <= i < answer(s, pair, Some((yes_token, no_token)), window_end, now).len(),
        answer(s, pair, Some((yes_token, no_token)), window_end, now)[i] is PostLimitOrder,
    ensures
        answer(s, pair, Some((yes_token, no_token)), window_end, now)[i]->token_id == yes_token
            ==> strategy::fits(
            s.inventory_of(pair.market_id).yes_held,
            s.config.quote_size,
            s.config.max_position_per_side,
        ),
        answer(s, pair, Some((yes_token, no_token)), window_end, now)[i]->token_id == no_token
            ==> strategy::fits(
            s.inventory_of(pair.market_id).no_held,
            s.config.quote_size,
            s.config.max_position_per_side,
        ),
{
}

/// Neither side holds more than the cap.
pub open spec fn within_caps(inventory: InventoryState<int>, config: MmConfig<int>) -> bool {
    &&& inventory.yes_held <= config.max_position_per_side
    &&& inventory.no_held <= config.max_position_per_side
}

/// No side goes above its cap, even if every quote is filled.
pub proof fn caps_hold(
    s: MmView,
    pair: PairView,
    tokens: Option<(U256, U256)>,
    window_end: i64,
    now: Now,
)
    requires
        within_caps(s.inventory_of(pair.market_id), s.config),
    ensures
        within_caps(after(s, pair, tokens, window_end, now).inventory_of(pair.market_id), s.config),
{
}

/// An order counts as filled at once: what its side holds grows by its size.
pub proof fn every_order_is_counted(
    s: MmView,
    pair: PairView,
    yes_token: U256,
    no_token: U256,
    window_end: i64,
    now: Now,
    i: int,
)
    requires
        yes_token != no_token,
        0 <= i < answer(s, pair, Some((yes_token, no_token)), window_end, now).len(),
        answer(s, pair, Some((yes_token, no_token)), window_end, now)[i] is PostLimitOrder,
    ensures
        ({
            let order = answer(s, pair, Some((yes_token, no_token)), window_end, now)[i];
            let before = s.inventory_of(pair.market_id);
            let later = after(s, pair, Some((yes_token, no_token)), window_end, now).inventory_of(pair.market_id);
            ||| order->token_id == yes_token && decimal::sum(before.yes_held, order->size) == Some(
                later.yes_held,
            )
            ||| order->token_id == no_token && decimal::sum(before.no_held, order->size) == Some(
                later.no_held,
            )
        }),
{
}

/// New books of a market, with what else is looked at.
pub struct BookEvent {
    pub pair: PairView,
    pub tokens: Option<(U256, U256)>,
    pub window_end: i64,
    pub now: Now,
}

/// What is known after one event upon the other.
pub open spec fn after_all(s: MmView, events: Seq<BookEvent>) -> MmView
    decreases events.len(),
{
    if events.len() == 0 {
        s
    } else {
        let e = events.last();
        after(after_all(s, events.drop_last()), e.pair, e.tokens, e.window_end, e.now)
    }
}

/// Position limits are never exceeded: from the start of a window on, whatever books come in, no side of
/// any market goes above its cap, even if every quote is filled.
pub proof fn caps_hold_all_window(s: MmView, start: Now, events: Seq<BookEvent>, id: B256)
    requires
        s.config.max_position_per_side >= 0,
    ensures
        within_caps(after_all(s.window_started(start), events).inventory_of(id), s.config),
        after_all(s.window_started(start), events).config == s.config,
    decreases events.len(),
{
    if events.len() > 0 {
        let e = events.last();
        let before = after_all(s.window_started(start), events.drop_last());
        caps_hold_all_window(s, start, events.drop_last(), id);
        if id == e.pair.market_id {
            caps_hold(before, e.pair, e.tokens, e.window_end, e.now);
        } else {
            other_markets_unchanged(before, e.pair, e.tokens, e.window_end, e.now, id);
        }
    }
}

/// Books of one market change nothing that is known of another.
pub proof fn other_markets_unchanged(
    s: MmView,
    pair: PairView,
    tokens: Option<(U256, U256)>,
    window_end: i64,
    now: Now,
    other: B256,
)
    requires
        other != pair.market_id,
    ensures
        after(s, pair, tokens, window_end, now).inventory_of(other) == s.inventory_of(other),
        after(s, pair, tokens, window_end, now).config == s.config,
        after(s, pair, tokens, window_end, now).window_start == s.window_start,
{
}

/// A cancellation covers every market: afterwards at most the market at hand has quotes.
pub proof fn cancelling_clears_all_markets(
    s: MmView,
    pair: PairView,
    tokens: Option<(U256, U256)>,
    window_end: i64,
    now: Now,
    other: B256,
)
    requires
        answer(s, pair, tokens, window_end, now).len() > 0,
        answer(s, pair, tokens, window_end, now)[0] is CancelAll,
        other != pair.market_id,
    ensures
        s.markets_with_quotes.contains(pair.market_id),
        !after(s, pair, tokens, window_end, now).markets_with_quotes.contains(other),
{
}

/// Within two seconds of the last look nothing is done.
pub proof fn requotes_are_two_seconds_apart(
    s: MmView,
    pair: PairView,
    tokens: Option<(U256, U256)>,
    window_end: i64,
    now: Now,
)
    requires
        s.last_requote matches Some(last) && time::millis_between(now.instant, last) < 2000,
    ensures
        posts_nothing(answer(s, pair, tokens, window_end, now)),
        after(s, pair, tokens, window_end, now) == s,
{
}

/// Whoever posts has looked just then, so that the two seconds run from there.
pub proof fn posting_sets_the_clock(
    s: MmView,
    pair: PairView,
    tokens: Option<(U256, U256)>,
    window_end: i64,
    now: Now,
)
    requires
        !posts_nothing(answer(s, pair, tokens, window_end, now)),
    ensures
        after(s, pair, tokens, window_end, now).last_requote == Some(now.instant),
        after(s, pair, tokens, window_end, now).markets_with_quotes.contains(pair.market_id),
{
}

/// Nothing is posted before a window starts, nor too close to its end.
pub proof fn no_quotes_out_of_time(
    s: MmView,
    pair: PairView,
    tokens: Option<(U256, U256)>,
    window_end: i64,
    now: Now,
)
    requires
        s.window_start is None || time::whole_secs(window_end - now.utc)
            < s.config.min_seconds_to_quote,
    ensures
        posts_nothing(answer(s, pair, tokens, window_end, now)),
        after(s, pair, tokens, window_end, now) == s,
{
}

/// The more YES is held on balance, the lower the YES bid and the higher the NO bid.
pub proof fn inventory_skews_bids(
    light: InventoryState<int>,
    heavy: InventoryState<int>,
    config: MmConfig<int>,
    phase: Phase,
    yes_fair: int,
    no_fair: int,
)
    requires
        light.toxic() == heavy.toxic(),
        light.net() is Some,
        heavy.net() is Some,
        light.net()->0 <= heavy.net()->0,
        config.inventory_gamma >= 0,
        mm::bids(config, light, phase, yes_fair, no_fair) is Some,
        mm::bids(config, heavy, phase, yes_fair, no_fair) is Some,
    ensures
        ({
            let (heavy_yes, heavy_no) = mm::bids(config, heavy, phase, yes_fair, no_fair)->0;
            let (light_yes, light_no) = mm::bids(config, light, phase, yes_fair, no_fair)->0;
            heavy_yes <= light_yes && heavy_no >= light_no
        }),
{
    let gamma = config.inventory_gamma;
    let (a, b) = (light.net()->0, heavy.net()->0);
    assert(gamma * a <= gamma * b) by (nonlinear_arith)
        requires
            gamma >= 0,
            a <= b,
    ;
    decimal::lemma_nearest_monotone(gamma * a, gamma * b, decimal::one());
    let (s, t) = (decimal::product(gamma, a)->0, decimal::product(gamma, b)->0);
    decimal::lemma_nearest_monotone(yes_fair - t, yes_fair - s, 1);
    decimal::lemma_nearest_monotone(no_fair + s, no_fair + t, 1);
    let toxicity = if light.toxic() {
        decimal::atoms(30, 1)
    } else {
        decimal::atoms(10, 1)
    };
    let half = decimal::opt_product(
        decimal::product(config.base_spread, phase.multiplier()),
        Some(toxicity),
    )->0;
    let (yes_t, yes_s) = (decimal::difference(yes_fair, t)->0, decimal::difference(yes_fair, s)->0);
    let (no_s, no_t) = (decimal::sum(no_fair, s)->0, decimal::sum(no_fair, t)->0);
    decimal::lemma_nearest_monotone(yes_t - half, yes_s - half, 1);
    decimal::lemma_nearest_monotone(no_s - half, no_t - half, 1);
}

/// Toxic flow widens the spread: neither bid is higher than it would be in normal flow.
pub proof fn toxic_flow_widens(
    normal: InventoryState<int>,
    toxic: InventoryState<int>,
    config: MmConfig<int>,
    phase: Phase,
    yes_fair: int,
    no_fair: int,
)
    requires
        !normal.toxic(),
        toxic.toxic(),
        normal.net() == toxic.net(),
        config.base_spread >= 0,
        mm::bids(config, normal, phase, yes_fair, no_fair) is Some,
        mm::bids(config, toxic, phase, yes_fair, no_fair) is Some,
    ensures
        ({
            let (toxic_yes, toxic_no) = mm::bids(config, toxic, phase, yes_fair, no_fair)->0;
            let (normal_yes, normal_no) = mm::bids(config, normal, phase, yes_fair, no_fair)->0;
            toxic_yes <= normal_yes && toxic_no <= normal_no
        }),
{
    let base = config.base_spread;
    let factor = phase.multiplier();
    assert(base * factor >= 0) by (nonlinear_arith)
        requires
            base >= 0,
            factor >= 0,
    ;
    assert(decimal::nearest(0, decimal::one()) == Some(0int)) by {
        decimal::lemma_nearest_negated(0, decimal::one(), 0);
        reveal_with_fuel(decimal::nearest_from, 2);
    }
    decimal::lemma_nearest_monotone(0, base * factor, decimal::one());
    let spread = decimal::product(base, factor)->0;
    let (low, high) = (decimal::atoms(10, 1), decimal::atoms(30, 1));
    assert(spread * low <= spread * high) by (nonlinear_arith)
        requires
            spread >= 0,
            low <= high,
    ;
    decimal::lemma_nearest_monotone(spread * low, spread * high, decimal::one());
    let (narrow, wide) = (decimal::product(spread, low)->0, decimal::product(spread, high)->0);
    let skew = decimal::product(config.inventory_gamma, normal.net()->0)->0;
    let yes = decimal::difference(yes_fair, skew)->0;
    let no = decimal::sum(no_fair, skew)->0;
    decimal::lemma_nearest_monotone(yes - wide, yes - narrow, 1);
    decimal::lemma_nearest_monotone(no - wide, no - narrow, 1);
}

/// A new window forgets every inventory and every quote.
pub proof fn window_start_forgets(s: MmView, now: Now, id: B256)
    ensures
        s.window_started(now).inventory_of(id) == mm::empty_inventory(),
        !s.window_started(now).markets_with_quotes.contains(id),
        s.window_started(now).last_requote is None,
        s.window_started(now).config == s.config,
{
}

} // verus!
