//! What holds of the strategies taken together: which one trades, and how much a side may still take.
use vstd::prelude::*;

use crate::decimal;
use crate::monitor::PairView;
use crate::time::Now;

use super::{Action, RunnerView, StrategyContext, TradingMode};

verus! {

/// A side may take more where it holds less than its cap and would not hold more than it afterwards.
pub proof fn side_stays_within_its_cap(held: int, size: int, cap: int)
    requires
        decimal::representable(held + size),
    ensures
        super::fits(held, size, cap) <==> held < cap && held + size <= cap,
{
    decimal::lemma_representable_exact(held + size);
}

/// The words that name a mode; any other word means arbitrage.
pub proof fn words_for_a_mode(word: Seq<char>)
    ensures
        super::mode_of_word(word) is MarketMaker <==> word == "mm"@ || word == "market_maker"@ || word
            == "marketmaker"@,
        super::mode_of_word(word) is Hybrid <==> word == "hybrid"@,
        super::mode_of_word(word) !is ApexMarketMaker,
{
    reveal_strlit("mm");
    reveal_strlit("market_maker");
    reveal_strlit("marketmaker");
    reveal_strlit("hybrid");
    assert("mm"@.len() == 2 && "hybrid"@.len() == 6 && "market_maker"@.len() == 12 && "marketmaker"@.len() == 11);
}

/// No two modes have one name.
pub proof fn modes_have_names_of_their_own(a: TradingMode, b: TradingMode)
    ensures
        a.short_name() == b.short_name() <==> a == b,
{
    reveal_strlit("arb");
    reveal_strlit("mm");
    reveal_strlit("apex_mm");
    reveal_strlit("hybrid");
    assert("arb"@.len() == 3 && "mm"@.len() == 2 && "apex_mm"@.len() == 7 && "hybrid"@.len() == 6);
}

/// A strategy stays the one it is: books lead to the actions of that strategy alone, and it keeps what it then
/// knows.
pub proof fn each_strategy_answers_for_itself(
    pair: PairView,
    ctx: &StrategyContext<'_>,
    exposure: Option<int>,
    runner: RunnerView,
    after: RunnerView,
    actions: Seq<Action<int, Seq<char>>>,
)
    requires
        runner.book_update(pair, ctx, exposure) == Some((after, actions)),
    ensures
        runner matches RunnerView::Arb(s) ==> (after matches RunnerView::Arb(t) && s.book_update(pair, ctx, exposure)
            == Some((t, actions))),
        runner matches RunnerView::MarketMaker(s) ==> (after matches RunnerView::MarketMaker(t) && s.book_update(
            pair,
            super::tokens_of(ctx.market_info),
            ctx.window_end,
            ctx.now,
        ) == Some((t, actions))),
        runner matches RunnerView::ApexMarketMaker(s) ==> (after matches RunnerView::ApexMarketMaker(t)
            && s.book_update(pair, super::tokens_of(ctx.market_info), ctx.window_end, ctx.now) == Some((t, actions))),
{
}

/// A new window starts for the strategy that trades.
pub proof fn window_starts_for_the_strategy(runner: RunnerView, now: Now)
    ensures
        runner is Arb <==> runner.window_started(now) is Arb,
        runner is MarketMaker <==> runner.window_started(now) is MarketMaker,
        runner is ApexMarketMaker <==> runner.window_started(now) is ApexMarketMaker,
        runner matches RunnerView::MarketMaker(s) ==> runner.window_started(now) == RunnerView::MarketMaker(
            s.window_started(now),
        ),
        runner matches RunnerView::ApexMarketMaker(s) ==> runner.window_started(now) == RunnerView::ApexMarketMaker(
            s.window_started(now),
        ),
{
}

} // verus!
