//! What the two market makers owe when new books come in at the right time: a bid for each side that has room,
//! at its own price, after the old ones are cancelled; and no bid in toxic flow.
use vstd::prelude::*;

use crate::decimal;
use crate::monitor::PairView;
use crate::time::Now;
use crate::types::{B256, U256};

use super::apex;
use super::apex::{ApexPhase, ApexView};
use super::apex_laws;
use super::fair_value;
use super::fair_value::FairValue;
use super::flow_laws;
use super::mm;
use super::mm::{MmView, Phase};
use super::mm_laws;
use super::price_laws;
use super::{Action, SkipReason};

verus! {

/// A side has room for one more quote: it holds less than its cap, and not more with the quote.
pub open spec fn room(held: int, size: int, cap: int) -> bool {
    held < cap && held + size <= cap
}

/// An order to buy a token, where there is to be one.
pub open spec fn order_if(
    wanted: bool,
    token_id: U256,
    price: int,
    size: int,
) -> Seq<Action<int, Seq<char>>> {
    if wanted {
        seq![Action::PostLimitOrder { token_id, price, size }]
    } else {
        seq![]
    }
}

/// A cancellation of all orders, where there is to be one.
pub open spec fn cancel_if(wanted: bool) -> Seq<Action<int, Seq<char>>> {
    if wanted {
        seq![Action::CancelAll]
    } else {
        seq![]
    }
}

/// It is the time for a quote: the window has started, so many seconds of it or more are left, and the last
/// look is two seconds ago or longer.
pub open spec fn in_time(
    window_start: Option<i64>,
    last_requote: Option<u64>,
    min_seconds: i64,
    window_end: i64,
    now: Now,
) -> bool {
    &&& window_start is Some
    &&& min_seconds >= 0
    &&& window_end - now.utc >= min_seconds * 1_000_000_000
    &&& last_requote matches Some(last) ==> now.instant >= last + 2_000_000_000
}

/// The market maker quotes in time: whatever is open is cancelled first, and then each side that has room is
/// bid for, YES first, at its own bid for the minutes that have passed, and counted as filled.
pub proof fn maker_quotes_in_time(
    s: MmView,
    pair: PairView,
    yes_token: U256,
    no_token: U256,
    window_end: i64,
    now: Now,
    fair: (int, int),
    bids: (int, int),
)
    requires
        in_time(s.window_start, s.last_requote, s.config.min_seconds_to_quote, window_end, now),
        fair_value::worth(pair) == Some(FairValue::Fair { yes: fair.0, no: fair.1 }),
        mm::bids(
            s.config,
            s.inventory_of(pair.market_id),
            if now.utc - s.window_start->0 < 120_000_000_000 {
                Phase::Early
            } else if now.utc - s.window_start->0 < 240_000_000_000 {
                Phase::Mid
            } else {
                Phase::Late
            },
            fair.0,
            fair.1,
        ) == Some(bids),
        bids.0 + bids.1 < decimal::atoms(99, 2),
        s.inventory_of(pair.market_id).yes_quotes < u32::MAX,
        s.inventory_of(pair.market_id).no_quotes < u32::MAX,
        s.inventory_of(pair.market_id).recent_quote_count < u32::MAX - 1,
        decimal::representable(s.inventory_of(pair.market_id).yes_held + s.config.quote_size),
        decimal::representable(s.inventory_of(pair.market_id).no_held + s.config.quote_size),
    ensures
        ({
            let held = s.inventory_of(pair.market_id);
            let size = s.config.quote_size;
            let cap = s.config.max_position_per_side;
            let (yes, no) = (room(held.yes_held, size, cap), room(held.no_held, size, cap));
            let actions = mm_laws::answer(s, pair, Some((yes_token, no_token)), window_end, now);
            let after = mm_laws::after(s, pair, Some((yes_token, no_token)), window_end, now);
            &&& yes || no ==> actions == cancel_if(s.markets_with_quotes.contains(pair.market_id)) + order_if(
                yes,
                yes_token,
                bids.0,
                size,
            ) + order_if(no, no_token, bids.1, size)
            &&& !yes && !no ==> mm_laws::posts_nothing(actions)
            &&& after.inventory_of(pair.market_id).yes_held == held.yes_held + if yes {
                size
            } else {
                0
            }
            &&& after.inventory_of(pair.market_id).no_held == held.no_held + if no {
                size
            } else {
                0
            }
        }),
{
    let held = s.inventory_of(pair.market_id);
    decimal::lemma_representable_exact(held.yes_held + s.config.quote_size);
    decimal::lemma_representable_exact(held.no_held + s.config.quote_size);
    decimal::lemma_small_exact(bids.0 + bids.1);
    let looked = MmView { last_requote: Some(now.instant), ..s };
    let kept = looked.with_inventory(pair.market_id, held);
    assert(kept.inventory_of(pair.market_id) == held);
}

/// An order of the market maker is one for a token of the market, at the price that the bids give for that
/// very token after the minutes that have passed.
pub proof fn maker_orders_at_their_own_bids(
    s: MmView,
    pair: PairView,
    yes_token: U256,
    no_token: U256,
    window_end: i64,
    now: Now,
    i: int,
)
    requires
        yes_token != no_token,
        0 <= i < mm_laws::answer(s, pair, Some((yes_token, no_token)), window_end, now).len(),
        mm_laws::answer(s, pair, Some((yes_token, no_token)), window_end, now)[i] is PostLimitOrder,
    ensures
        s.window_start is Some,
        fair_value::worth(pair) matches Some(FairValue::Fair { yes, no }) && {
            let order = mm_laws::answer(s, pair, Some((yes_token, no_token)), window_end, now)[i];
            let passed = now.utc - s.window_start->0;
            let phase = if passed < 120_000_000_000 {
                Phase::Early
            } else if passed < 240_000_000_000 {
                Phase::Mid
            } else {
                Phase::Late
            };
            mm::bids(s.config, s.inventory_of(pair.market_id), phase, yes, no) matches Some((yes_bid, no_bid)) && {
                &&& order->token_id == yes_token || order->token_id == no_token
                &&& order->token_id == yes_token ==> order->price == yes_bid
                &&& order->token_id == no_token ==> order->price == no_bid
            }
        },
{
    let looked = MmView { last_requote: Some(now.instant), ..s };
    let kept = looked.with_inventory(pair.market_id, s.inventory_of(pair.market_id));
    assert(kept.inventory_of(pair.market_id) == s.inventory_of(pair.market_id));
}

/// With nothing held on balance, the market maker never pays more for a token than it is worth, or a cent.
pub proof fn maker_never_overpays(
    s: MmView,
    pair: PairView,
    yes_token: U256,
    no_token: U256,
    window_end: i64,
    now: Now,
    i: int,
)
    requires
        yes_token != no_token,
        s.config.base_spread >= 0,
        s.inventory_of(pair.market_id).yes_held == s.inventory_of(pair.market_id).no_held,
        0 <= i < mm_laws::answer(s, pair, Some((yes_token, no_token)), window_end, now).len(),
        mm_laws::answer(s, pair, Some((yes_token, no_token)), window_end, now)[i] is PostLimitOrder,
    ensures
        fair_value::worth(pair) matches Some(FairValue::Fair { yes, no }) && {
            let order = mm_laws::answer(s, pair, Some((yes_token, no_token)), window_end, now)[i];
            order->price <= decimal::max_of(
                if order->token_id == yes_token {
                    yes
                } else {
                    no
                },
                decimal::atoms(1, 2),
            )
        },
{
    maker_orders_at_their_own_bids(s, pair, yes_token, no_token, window_end, now, i);
    lemma_worth_is_decimal(pair);
    match fair_value::worth(pair) {
        Some(FairValue::Fair { yes, no }) => {
            let held = s.inventory_of(pair.market_id);
            price_laws::maker_bids_below_fair_value(s.config, held, Phase::Early, yes, no);
            price_laws::maker_bids_below_fair_value(s.config, held, Phase::Mid, yes, no);
            price_laws::maker_bids_below_fair_value(s.config, held, Phase::Late, yes, no);
        },
        _ => {},
    }
}

/// Fair values are decimals.
proof fn lemma_worth_is_decimal(pair: PairView)
    ensures
        fair_value::worth(pair) matches Some(FairValue::Fair { yes, no }) ==> decimal::representable(yes)
            && decimal::representable(no),
{
    match (fair_value::middle(pair.yes_book), fair_value::middle(pair.no_book)) {
        (Some(Some(y)), Some(Some(n))) => {
            if decimal::sum(y, n) is Some {
                let total = decimal::sum(y, n)->0;
                decimal::lemma_nearest_representable(y * decimal::one(), total, 0);
                decimal::lemma_nearest_representable(n * decimal::one(), total, 0);
            }
        },
        _ => {},
    }
}

/// Five quotes or more since ten seconds began, and only so many, are toxic for the market maker; a quote
/// after ten seconds begins new ones.
pub proof fn maker_counts_quotes(
    inventory: mm::InventoryState<int>,
    is_yes: bool,
    size: int,
    now: u64,
)
    requires
        inventory.emitted(is_yes, size, now) is Some,
    ensures
        ({
            let after = inventory.emitted(is_yes, size, now)->0;
            let running = inventory.recent_quote_window_start matches Some(start) && now < start + 10_000_000_000;
            &&& running ==> after.recent_quote_count == inventory.recent_quote_count + 1
                && after.recent_quote_window_start == inventory.recent_quote_window_start
            &&& !running ==> after.recent_quote_count == 1 && after.recent_quote_window_start == Some(now)
            &&& is_yes ==> after.yes_quotes == inventory.yes_quotes + 1 && after.no_quotes == inventory.no_quotes
                && after.no_held == inventory.no_held
            &&& !is_yes ==> after.no_quotes == inventory.no_quotes + 1 && after.yes_quotes == inventory.yes_quotes
                && after.yes_held == inventory.yes_held
        }),
{
}

/// The apex market maker quotes in time: the flow is judged first, and unless it is toxic, whatever is open is
/// cancelled and each side that may be bid for is bid for, YES first, at its own bid for the minutes that have
/// passed.
pub proof fn apex_quotes_in_time(
    s: ApexView,
    pair: PairView,
    yes_token: U256,
    no_token: U256,
    window_end: i64,
    now: Now,
    fair: (int, int),
    imbalance: Option<int>,
    market: apex::MarketView,
    quotes: (int, int, bool, bool),
)
    requires
        in_time(s.window_start, s.last_requote, s.config.min_seconds_to_quote, window_end, now),
        fair_value::worth(pair) == Some(FairValue::Fair { yes: fair.0, no: fair.1 }),
        apex::lean(pair.yes_book) == Some(imbalance),
        s.market(pair.market_id).update_toxicity(s.config, imbalance, now.instant) == Some(market),
        market.toxicity !is Toxic,
        market.calculate_quotes(
            s.config,
            if now.utc - s.window_start->0 < 60_000_000_000 {
                ApexPhase::Early
            } else if now.utc - s.window_start->0 < 180_000_000_000 {
                ApexPhase::Adaptive
            } else if now.utc - s.window_start->0 < 240_000_000_000 {
                ApexPhase::Cleanup
            } else {
                ApexPhase::Resolution
            },
            fair.0,
            fair.1,
        ) == Some(quotes),
        quotes.2 || quotes.3,
        quotes.2 && quotes.3 ==> quotes.0 + quotes.1 < decimal::atoms(99, 2),
        decimal::representable(s.market(pair.market_id).yes_held + s.config.quote_size),
        decimal::representable(s.market(pair.market_id).no_held + s.config.quote_size),
    ensures
        ({
            let size = s.config.quote_size;
            let actions = apex_laws::answer(s, pair, Some((yes_token, no_token)), window_end, now);
            let after = apex_laws::after(s, pair, Some((yes_token, no_token)), window_end, now).market(
                pair.market_id,
            );
            &&& actions == cancel_if(s.markets_with_quotes.contains(pair.market_id)) + order_if(
                quotes.2,
                yes_token,
                quotes.0,
                size,
            ) + order_if(quotes.3, no_token, quotes.1, size)
            &&& after.yes_held == s.market(pair.market_id).yes_held + if quotes.2 {
                size
            } else {
                0
            }
            &&& after.no_held == s.market(pair.market_id).no_held + if quotes.3 {
                size
            } else {
                0
            }
            &&& after.last_imbalance == imbalance
        }),
{
    let held = s.market(pair.market_id);
    decimal::lemma_representable_exact(held.yes_held + s.config.quote_size);
    decimal::lemma_representable_exact(held.no_held + s.config.quote_size);
    if quotes.2 && quotes.3 {
        decimal::lemma_small_exact(quotes.0 + quotes.1);
    }
    let looked = ApexView { last_requote: Some(now.instant), ..s };
    assert(looked.market(pair.market_id) == held);
    assert(looked.with_market(pair.market_id, market).market(pair.market_id) == market);
}

/// An order of the apex market maker is one for a token of the market, at the price that its quotes give for
/// that very token after the minutes that have passed, in the flow as it is judged by the YES book just then.
pub proof fn apex_orders_at_their_own_bids(
    s: ApexView,
    pair: PairView,
    yes_token: U256,
    no_token: U256,
    window_end: i64,
    now: Now,
    i: int,
)
    requires
        yes_token != no_token,
        0 <= i < apex_laws::answer(s, pair, Some((yes_token, no_token)), window_end, now).len(),
        apex_laws::answer(s, pair, Some((yes_token, no_token)), window_end, now)[i] is PostLimitOrder,
    ensures
        s.window_start is Some,
        apex::lean(pair.yes_book) is Some,
        s.market(pair.market_id).update_toxicity(s.config, apex::lean(pair.yes_book)->0, now.instant) is Some,
        fair_value::worth(pair) matches Some(FairValue::Fair { yes, no }) && {
            let order = apex_laws::answer(s, pair, Some((yes_token, no_token)), window_end, now)[i];
            let market = s.market(pair.market_id).update_toxicity(
                s.config,
                apex::lean(pair.yes_book)->0,
                now.instant,
            )->0;
            let passed = now.utc - s.window_start->0;
            let phase = if passed < 60_000_000_000 {
                ApexPhase::Early
            } else if passed < 180_000_000_000 {
                ApexPhase::Adaptive
            } else if passed < 240_000_000_000 {
                ApexPhase::Cleanup
            } else {
                ApexPhase::Resolution
            };
            market.calculate_quotes(s.config, phase, yes, no) matches Some((yes_bid, no_bid, can_yes, can_no)) && {
                &&& order->token_id == yes_token || order->token_id == no_token
                &&& order->token_id == yes_token ==> order->price == yes_bid && can_yes
                &&& order->token_id == no_token ==> order->price == no_bid && can_no
            }
        },
{
    let looked = ApexView { last_requote: Some(now.instant), ..s };
    assert(looked.market(pair.market_id) == s.market(pair.market_id));
}

/// With nothing held on balance, the apex market maker never pays more for a token than it is worth, or a
/// cent.
pub proof fn apex_never_overpays(
    s: ApexView,
    pair: PairView,
    yes_token: U256,
    no_token: U256,
    window_end: i64,
    now: Now,
    i: int,
)
    requires
        yes_token != no_token,
        s.config.base_spread >= 0,
        s.market(pair.market_id).yes_held == s.market(pair.market_id).no_held,
        0 <= i < apex_laws::answer(s, pair, Some((yes_token, no_token)), window_end, now).len(),
        apex_laws::answer(s, pair, Some((yes_token, no_token)), window_end, now)[i] is PostLimitOrder,
    ensures
        fair_value::worth(pair) matches Some(FairValue::Fair { yes, no }) && {
            let order = apex_laws::answer(s, pair, Some((yes_token, no_token)), window_end, now)[i];
            order->price <= decimal::max_of(
                if order->token_id == yes_token {
                    yes
                } else {
                    no
                },
                decimal::atoms(1, 2),
            )
        },
{
    apex_orders_at_their_own_bids(s, pair, yes_token, no_token, window_end, now, i);
    lemma_worth_is_decimal(pair);
    let market = s.market(pair.market_id).update_toxicity(
        s.config,
        apex::lean(pair.yes_book)->0,
        now.instant,
    )->0;
    match fair_value::worth(pair) {
        Some(FairValue::Fair { yes, no }) => {
            price_laws::apex_bids_below_fair_value(s.config, market, ApexPhase::Early, yes, no);
            price_laws::apex_bids_below_fair_value(s.config, market, ApexPhase::Adaptive, yes, no);
            price_laws::apex_bids_below_fair_value(s.config, market, ApexPhase::Cleanup, yes, no);
            price_laws::apex_bids_below_fair_value(s.config, market, ApexPhase::Resolution, yes, no);
        },
        _ => {},
    }
}

/// Where the imbalance of the YES book has moved by the threshold or more since the last look, in either
/// direction, the apex market maker posts nothing; in time, and where the tokens have a worth, it cancels what
/// is open, says that the flow is toxic and judges it so.
pub proof fn apex_backs_off_from_large_moves(
    s: ApexView,
    pair: PairView,
    tokens: Option<(U256, U256)>,
    window_end: i64,
    now: Now,
    prev: int,
    curr: int,
)
    requires
        s.market(pair.market_id).last_imbalance == Some(prev),
        apex::lean(pair.yes_book) == Some(Some(curr)),
        decimal::representable(s.config.toxicity_imbalance_threshold),
        curr - prev >= s.config.toxicity_imbalance_threshold || prev - curr
            >= s.config.toxicity_imbalance_threshold,
    ensures
        apex_laws::posts_nothing(apex_laws::answer(s, pair, tokens, window_end, now)),
        in_time(s.window_start, s.last_requote, s.config.min_seconds_to_quote, window_end, now) && (
        fair_value::worth(pair) matches Some(FairValue::Fair { .. })) && s.book_update(
            pair,
            tokens,
            window_end,
            now,
        ) is Some ==> {
            let actions = apex_laws::answer(s, pair, tokens, window_end, now);
            let after = apex_laws::after(s, pair, tokens, window_end, now);
            &&& actions.len() > 0
            &&& actions.last() matches Action::Skip { reason: SkipReason::Toxic(_) }
            &&& s.markets_with_quotes.contains(pair.market_id) ==> actions.len() == 2 && actions[0] is CancelAll
            &&& !s.markets_with_quotes.contains(pair.market_id) ==> actions.len() == 1
            &&& after.market(pair.market_id).toxicity is Toxic
            &&& !after.markets_with_quotes.contains(pair.market_id)
        },
{
    flow_laws::large_move_is_toxic(s.market(pair.market_id), s.config, prev, curr, now.instant);
    let looked = ApexView { last_requote: Some(now.instant), ..s };
    assert(looked.market(pair.market_id) == s.market(pair.market_id));
}

/// A market that was not quoted yet has nothing held and nothing counted, in either market maker.
pub proof fn market_starts_with_nothing(id: B256, maker: mm::MmView, other: ApexView)
    requires
        !maker.inventory.contains_key(id),
        !other.markets.contains_key(id),
    ensures
        ({
            let m = maker.inventory_of(id);
            &&& m.yes_held == 0 && m.no_held == 0
            &&& m.yes_quotes == 0 && m.no_quotes == 0
            &&& m.recent_quote_count == 0 && m.recent_quote_window_start is None
        }),
        other.market(id).yes_held == 0 && other.market(id).no_held == 0,
        other.market(id).recent_quotes.len() == 0,
{
}

} // verus!
