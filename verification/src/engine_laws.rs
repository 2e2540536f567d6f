//! What holds of a window: it trades with the strategy that is set and with that strategy's own settings.
use vstd::prelude::*;

use crate::config::Config;
use crate::engine;
use crate::engine::{EngineView, KeyVerdict, Surroundings, WindDownCall};
use crate::market::MarketInfo;
use crate::monitor::{OrderBookPair, PairView};
use crate::reports;
use crate::strategy::apex_laws;
use crate::strategy::mm_laws;
use crate::strategy::{RunnerView, StrategyContext};
use crate::text;
use crate::time::Now;
use crate::types::{B256, U256};

verus! {

/// The settings of the market maker are the same.
pub open spec fn same_maker_settings(a: Config, b: Config) -> bool {
    &&& a.mm_base_spread@ == b.mm_base_spread@
    &&& a.mm_inventory_gamma@ == b.mm_inventory_gamma@
    &&& a.mm_max_position_per_side@ == b.mm_max_position_per_side@
    &&& a.mm_quote_size@ == b.mm_quote_size@
    &&& a.mm_min_seconds_to_quote == b.mm_min_seconds_to_quote
}

/// The settings of the apex market maker are the same.
pub open spec fn same_apex_settings(a: Config, b: Config) -> bool {
    &&& a.apex_base_spread@ == b.apex_base_spread@
    &&& a.apex_inventory_gamma@ == b.apex_inventory_gamma@
    &&& a.apex_max_position_per_side@ == b.apex_max_position_per_side@
    &&& a.apex_quote_size@ == b.apex_quote_size@
    &&& a.apex_min_seconds_to_quote == b.apex_min_seconds_to_quote
    &&& a.apex_toxicity_quote_threshold == b.apex_toxicity_quote_threshold
    &&& a.apex_toxicity_imbalance_threshold@ == b.apex_toxicity_imbalance_threshold@
}

/// A window depends on the mode and on the settings of the strategy that it names, and on nothing else.
pub proof fn window_depends_on_its_own_settings(a: Config, b: Config, now: Now)
    requires
        a.trading_mode == b.trading_mode,
    ensures
        a.trading_mode is MarketMaker && same_maker_settings(a, b) ==> engine::configured_strategy(a).window_started(now)
            == engine::configured_strategy(b).window_started(now),
        a.trading_mode is ApexMarketMaker && same_apex_settings(a, b) ==> engine::configured_strategy(
            a,
        ).window_started(now) == engine::configured_strategy(b).window_started(now),
        (a.trading_mode is Arb || a.trading_mode is Hybrid) && a.min_profit_threshold@ == b.min_profit_threshold@
            ==> engine::configured_strategy(a).window_started(now) == engine::configured_strategy(b).window_started(
            now,
        ),
{
}

/// Each mode trades with its strategy; the one that is not there yet, with arbitrage.
pub proof fn mode_names_the_strategy(config: Config, now: Now)
    ensures
        ({
            let r = engine::configured_strategy(config).window_started(now);
            &&& r is MarketMaker <==> config.trading_mode is MarketMaker
            &&& r is ApexMarketMaker <==> config.trading_mode is ApexMarketMaker
            &&& r is Arb <==> config.trading_mode is Arb || config.trading_mode is Hybrid
        }),
{
}

/// In a window of the market maker, whatever books come in, every order has the size that is set for it; no side
/// holds more than its cap, if all is filled; nothing is posted in the last seconds that are set; and its spread
/// and its lean are those that are set. It holds nothing and has no orders at the start.
pub proof fn maker_window_uses_its_settings(
    config: Config,
    start: Now,
    events: Seq<mm_laws::BookEvent>,
    pair: PairView,
    tokens: Option<(U256, U256)>,
    window_end: i64,
    now: Now,
    i: int,
)
    requires
        config.trading_mode is MarketMaker,
    ensures
        engine::configured_strategy(config).window_started(start) matches RunnerView::MarketMaker(s) && {
            let later = mm_laws::after_all(s, events);
            let actions = mm_laws::answer(later, pair, tokens, window_end, now);
            &&& s.window_start == Some(start.utc)
            &&& s.last_requote is None
            &&& s.markets_with_quotes == Set::<B256>::empty()
            &&& s.inventory_of(pair.market_id).yes_held == 0
            &&& s.inventory_of(pair.market_id).no_held == 0
            &&& later.config.base_spread == config.mm_base_spread@
            &&& later.config.inventory_gamma == config.mm_inventory_gamma@
            &&& 0 <= i < actions.len() && actions[i] is PostLimitOrder ==> actions[i]->size
                == config.mm_quote_size@
            &&& config.mm_max_position_per_side@ >= 0 ==> {
                &&& later.inventory_of(pair.market_id).yes_held <= config.mm_max_position_per_side@
                &&& later.inventory_of(pair.market_id).no_held <= config.mm_max_position_per_side@
            }
            &&& config.mm_min_seconds_to_quote > 0 && window_end - now.utc < config.mm_min_seconds_to_quote
                * 1_000_000_000 ==> mm_laws::posts_nothing(actions)
        },
{
    match engine::configured_strategy(config) {
        RunnerView::MarketMaker(s) => {
            let begun = s.window_started(start);
            lemma_maker_keeps_settings(begun, events);
            let later = mm_laws::after_all(begun, events);
            if 0 <= i < mm_laws::answer(later, pair, tokens, window_end, now).len() && mm_laws::answer(
                later,
                pair,
                tokens,
                window_end,
                now,
            )[i] is PostLimitOrder {
                mm_laws::posted_prices(later, pair, tokens, window_end, now, i);
            }
            if config.mm_max_position_per_side@ >= 0 {
                mm_laws::caps_hold_all_window(s, start, events, pair.market_id);
            }
            if config.mm_min_seconds_to_quote > 0 && window_end - now.utc < config.mm_min_seconds_to_quote
                * 1_000_000_000 {
                mm_laws::no_quotes_out_of_time(later, pair, tokens, window_end, now);
            }
        },
        _ => {},
    }
}

/// Books do not change the settings.
proof fn lemma_maker_keeps_settings(s: crate::strategy::mm::MmView, events: Seq<mm_laws::BookEvent>)
    ensures
        mm_laws::after_all(s, events).config == s.config,
    decreases events.len(),
{
    if events.len() > 0 {
        lemma_maker_keeps_settings(s, events.drop_last());
    }
}

/// In a window of the apex market maker, whatever books come in, every order has the size that is set for it; no
/// side holds more than its cap, if all is filled; nothing is posted in the last seconds that are set; and its
/// spread, its lean and its thresholds are those that are set. It knows of no market at the start.
pub proof fn apex_window_uses_its_settings(
    config: Config,
    start: Now,
    events: Seq<apex_laws::BookEvent>,
    pair: PairView,
    tokens: Option<(U256, U256)>,
    window_end: i64,
    now: Now,
    i: int,
)
    requires
        config.trading_mode is ApexMarketMaker,
    ensures
        engine::configured_strategy(config).window_started(start) matches RunnerView::ApexMarketMaker(s) && {
            let later = apex_laws::after_all(s, events);
            let actions = apex_laws::answer(later, pair, tokens, window_end, now);
            &&& s.window_start == Some(start.utc)
            &&& s.last_requote is None
            &&& s.markets_with_quotes == Set::<B256>::empty()
            &&& s.market(pair.market_id).yes_held == 0
            &&& s.market(pair.market_id).no_held == 0
            &&& s.market(pair.market_id).last_imbalance is None
            &&& later.config.base_spread == config.apex_base_spread@
            &&& later.config.inventory_gamma == config.apex_inventory_gamma@
            &&& later.config.toxicity_quote_threshold == config.apex_toxicity_quote_threshold
            &&& later.config.toxicity_imbalance_threshold == config.apex_toxicity_imbalance_threshold@
            &&& 0 <= i < actions.len() && actions[i] is PostLimitOrder ==> actions[i]->size
                == config.apex_quote_size@
            &&& config.apex_max_position_per_side@ >= 0 ==> {
                &&& later.market(pair.market_id).yes_held <= config.apex_max_position_per_side@
                &&& later.market(pair.market_id).no_held <= config.apex_max_position_per_side@
            }
            &&& config.apex_min_seconds_to_quote > 0 && window_end - now.utc < config.apex_min_seconds_to_quote
                * 1_000_000_000 ==> apex_laws::posts_nothing(actions)
        },
{
    match engine::configured_strategy(config) {
        RunnerView::ApexMarketMaker(s) => {
            let begun = s.window_started(start);
            lemma_apex_keeps_settings(begun, events);
            let later = apex_laws::after_all(begun, events);
            if 0 <= i < apex_laws::answer(later, pair, tokens, window_end, now).len() && apex_laws::answer(
                later,
                pair,
                tokens,
                window_end,
                now,
            )[i] is PostLimitOrder {
                apex_laws::posted_prices(later, pair, tokens, window_end, now, i);
            }
            if config.apex_max_position_per_side@ >= 0 {
                apex_laws::caps_hold_all_window(s, start, events, pair.market_id);
            }
            if config.apex_min_seconds_to_quote > 0 && window_end - now.utc < config.apex_min_seconds_to_quote
                * 1_000_000_000 {
                apex_laws::no_quotes_out_of_time(later, pair, tokens, window_end, now);
            }
        },
        _ => {},
    }
}

/// Books do not change the settings.
proof fn lemma_apex_keeps_settings(s: crate::strategy::apex::ApexView, events: Seq<apex_laws::BookEvent>)
    ensures
        apex_laws::after_all(s, events).config == s.config,
    decreases events.len(),
{
    if events.len() > 0 {
        lemma_apex_keeps_settings(s, events.drop_last());
    }
}

/// In a window of arbitrage no pair was bought before the first.
pub proof fn arbitrage_window_starts_rested(config: Config, start: Now)
    requires
        config.trading_mode is Arb || config.trading_mode is Hybrid,
    ensures
        engine::configured_strategy(config).window_started(start) matches RunnerView::Arb(s)
            && s.last_trade_time is None && s.min_profit_threshold == config.min_profit_threshold@,
{
}

/// The arrows tell how the asks of a market have moved since its last books that had both: up, down, or not at
/// all, YES and NO each for itself. Other markets do not matter.
pub proof fn arrows_follow_the_asks(
    last: Map<B256, (int, int)>,
    first: PairView,
    between: PairView,
    second: PairView,
)
    requires
        first.market_id == second.market_id,
        between.market_id != first.market_id,
        first.yes_book.asks.len() > 0,
        first.no_book.asks.len() > 0,
        second.yes_book.asks.len() > 0,
        second.no_book.asks.len() > 0,
    ensures
        ({
            let known = engine::asks_after(engine::asks_after(last, first), between);
            let (yes, no) = engine::arrows(known, second);
            let (yes_before, yes_now) = (first.yes_book.asks.last().price, second.yes_book.asks.last().price);
            let (no_before, no_now) = (first.no_book.asks.last().price, second.no_book.asks.last().price);
            &&& yes_now > yes_before ==> yes == "↑"@
            &&& yes_now < yes_before ==> yes == "↓"@
            &&& yes_now == yes_before ==> yes == "−"@
            &&& no_now > no_before ==> no == "↑"@
            &&& no_now < no_before ==> no == "↓"@
            &&& no_now == no_before ==> no == "−"@
        }),
{
}

/// On the first books of a market there are no arrows, and books without an ask leave the last asks as they
/// were.
pub proof fn no_arrows_at_first(last: Map<B256, (int, int)>, pair: PairView)
    ensures
        !last.contains_key(pair.market_id) ==> engine::arrows(last, pair) == (""@, ""@),
        pair.yes_book.asks.len() == 0 || pair.no_book.asks.len() == 0 ==> engine::asks_after(last, pair) == last
            && engine::arrows(last, pair) == (""@, ""@),
{
}

/// A window ends five minutes after it started.
pub proof fn window_lasts_five_minutes(timestamp: i64, now: Now)
    requires
        0 <= timestamp <= 9_000_000_000,
    ensures
        engine::end_of_window(timestamp, now) == timestamp * 1_000_000_000 + 300_000_000_000,
{
}

/// The market that is found is one of those there are and has the id that was asked for; it is found where
/// there is one, and the later of two is taken.
pub proof fn found_market_is_the_one(markets: Seq<MarketInfo>, m: MarketInfo, id: B256)
    ensures
        engine::market_of(markets.push(m), id) == if m.market_id == id {
            Some(m)
        } else {
            engine::market_of(markets, id)
        },
        engine::market_of(Seq::<MarketInfo>::empty(), id) is None,
{
    assert(markets.push(m).drop_last() =~= markets);
}

/// Winding down starts in the last minutes that are set, and not before, and it is done once.
pub proof fn winding_down_starts_in_time(window: EngineView, minutes: u64, now: Now)
    requires
        minutes <= 1_000_000_000,
    ensures
        ({
            let time = minutes > 0 && window.window_end - now.utc < (minutes * 60 + 1) * 1_000_000_000;
            let (next, call) = window.wound_down(false, minutes, now);
            &&& call == Some(WindDownCall::Start) <==> time && !window.wind_down_done
            &&& next.wind_down_done <==> time || window.wind_down_done
            &&& next.window_end == window.window_end
            &&& next.last_asks == window.last_asks
            &&& next.window_timestamp == window.window_timestamp
        }),
{
    crate::wind_down_laws::due_in_the_last_minutes(minutes, window.window_end, now);
}

/// A market goes by its symbol, and by its title where it has none.
pub proof fn market_has_a_name(m: MarketInfo)
    ensures
        m.crypto_symbol@.len() > 0 ==> engine::display_name(Some(m)) == m.crypto_symbol@ + " prediction market"@,
        m.crypto_symbol@.len() == 0 ==> engine::display_name(Some(m)) == m.title@,
        engine::display_name(None) == "Unknown market"@,
{
}

/// A key that is blank is missing, whatever reading it gave; any other is good where reading it gave no error.
pub proof fn key_is_judged(key: Seq<char>, error: Option<Seq<char>>)
    ensures
        ({
            let r = engine::key_verdict(key, error);
            let blank = text::trimmed(key) == Seq::<char>::empty();
            &&& r == Some(KeyVerdict::Missing) <==> blank
            &&& r is None <==> !blank && error is None
            &&& !blank && error is Some ==> r == Some(KeyVerdict::Invalid(error->0))
        }),
{
    if text::trimmed(key).len() == 0 {
        assert(text::trimmed(key) =~= Seq::<char>::empty());
    }
}

/// A strategy is given what is around it: the settings, the market of the books, what is tracked, the opportunity,
/// the end of the window, the time, and for each side the arrow of that side.
pub proof fn strategy_sees_its_market(
    ctx: StrategyContext<'_>,
    window: EngineView,
    pair: PairView,
    around: Surroundings<'_>,
)
    requires
        engine::is_context(ctx, window, pair, around),
    ensures
        *ctx.config == *around.config,
        *ctx.position_tracker == *around.position_tracker,
        ctx.opportunity == around.opportunity,
        ctx.pair_unbalanced == around.pair_unbalanced,
        ctx.window_end == window.window_end,
        ctx.now == around.now,
        ctx.yes_dir@ == engine::arrows(window.last_asks, pair).0,
        ctx.no_dir@ == engine::arrows(window.last_asks, pair).1,
        ctx.market_info is Some <==> engine::market_of(around.markets@, pair.market_id) is Some,
        ctx.market_info matches Some(m) ==> Some(*m) == engine::market_of(around.markets@, pair.market_id),
        ctx.market_display@ == engine::display_name(engine::market_of(around.markets@, pair.market_id)),
{
}

/// Books are told under the name of their market, with each side's own arrow.
pub proof fn books_are_told_with_their_arrows(window: EngineView, pair: OrderBookPair, around: Surroundings<'_>)
    ensures
        window.line(pair, around) == reports::book_words(
            pair,
            engine::display_name(engine::market_of(around.markets@, pair.market_id)),
            engine::arrows(window.last_asks, pair@).0,
            engine::arrows(window.last_asks, pair@).1,
        ),
{
}

} // verus!
