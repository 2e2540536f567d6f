//! Trading strategies. A strategy looks at the books of a market and answers with actions.
use vstd::prelude::*;

use crate::config::Config;
use crate::decimal;
use crate::decimal::{checked_add, Decimal};
use crate::market::MarketInfo;
use crate::monitor::{ArbitrageOpportunity, OrderBookPair, PairView};
use crate::risk::positions::PositionTracker;
use crate::text;
use crate::text::{cut_text, full_text, i64_text, same_text, to_lowercase, trim, u64_text};
use crate::time::Now;
use crate::types::U256;

use self::apex::{ApexMarketMakerStrategy, ApexView};
use self::arb::{ArbView, ArbitrageStrategy};
use self::mm::{MarketMakerStrategy, MmView};

pub mod action_executor;
pub mod apex;
pub mod apex_laws;
pub mod arb;
pub mod arb_laws;
pub mod execution_laws;
pub mod fair_value;
pub mod flow_laws;
pub mod market_table;
pub mod journal_laws;
pub mod mm;
pub mod mm_laws;
pub mod price_laws;
pub mod quoting_laws;
pub mod runner_laws;
pub mod value_laws;

verus! {

/// Why the flow of a market is judged as it is.
#[derive(Clone, Copy, Debug)]
pub enum ToxicityReason<D = Decimal> {
    /// Nothing was judged yet.
    Unjudged,
    /// Nothing stands out.
    Normal,
    /// As many requotes in ten seconds as the threshold, some of them in quick succession.
    HighVelocity { quotes: u32, min_gap_ms: u64 },
    /// Almost as many requotes as the threshold, some of them in quick succession.
    ModerateVelocity { quotes: u32, min_gap_ms: u64 },
    /// The book's imbalance moved by the threshold or more.
    ImbalanceShift { prev: D, curr: D },
    /// The book's imbalance moved by half the threshold or more.
    ImbalanceDrift { prev: D, curr: D },
}

impl View for ToxicityReason<Decimal> {
    type V = ToxicityReason<int>;

    open spec fn view(&self) -> ToxicityReason<int> {
        match *self {
            ToxicityReason::Unjudged => ToxicityReason::Unjudged,
            ToxicityReason::Normal => ToxicityReason::Normal,
            ToxicityReason::HighVelocity { quotes, min_gap_ms } => ToxicityReason::HighVelocity {
                quotes,
                min_gap_ms,
            },
            ToxicityReason::ModerateVelocity { quotes, min_gap_ms } => ToxicityReason::ModerateVelocity {
                quotes,
                min_gap_ms,
            },
            ToxicityReason::ImbalanceShift { prev, curr } => ToxicityReason::ImbalanceShift {
                prev: prev@,
                curr: curr@,
            },
            ToxicityReason::ImbalanceDrift { prev, curr } => ToxicityReason::ImbalanceDrift {
                prev: prev@,
                curr: curr@,
            },
        }
    }
}

impl ToxicityReason<int> {
    /// The reason in words.
    pub open spec fn text(self) -> Seq<char> {
        match self {
            ToxicityReason::Unjudged => "None"@,
            ToxicityReason::Normal => "Normal"@,
            ToxicityReason::HighVelocity { quotes, min_gap_ms } => "High velocity: "@ + text::digits(
                quotes as nat,
            ) + " quotes/10s (min gap: "@ + text::digits(min_gap_ms as nat) + "ms)"@,
            ToxicityReason::ModerateVelocity { quotes, min_gap_ms } => "Moderate velocity: "@
                + text::digits(quotes as nat) + " quotes/10s (min gap: "@ + text::digits(
                min_gap_ms as nat,
            ) + "ms)"@,
            ToxicityReason::ImbalanceShift { prev, curr } => "OB Imbalance shift: "@
                + text::decimal_text(prev, 2) + " -> "@ + text::decimal_text(curr, 2),
            ToxicityReason::ImbalanceDrift { prev, curr } => "OB Imbalance drift: "@
                + text::decimal_text(prev, 2) + " -> "@ + text::decimal_text(curr, 2),
        }
    }
}

impl ToxicityReason<Decimal> {
    /// The reason in words.
    pub fn text(&self) -> (r: String)
        ensures
            r@ == self@.text(),
    {
        match self {
            ToxicityReason::Unjudged => "None".to_string(),
            ToxicityReason::Normal => "Normal".to_string(),
            ToxicityReason::HighVelocity { quotes, min_gap_ms } => {
                let mut s = "High velocity: ".to_string();
                s.append(u64_text(*quotes as u64).as_str());
                s.append(" quotes/10s (min gap: ");
                s.append(u64_text(*min_gap_ms).as_str());
                s.append("ms)");
                s
            },
            ToxicityReason::ModerateVelocity { quotes, min_gap_ms } => {
                let mut s = "Moderate velocity: ".to_string();
                s.append(u64_text(*quotes as u64).as_str());
                s.append(" quotes/10s (min gap: ");
                s.append(u64_text(*min_gap_ms).as_str());
                s.append("ms)");
                s
            },
            ToxicityReason::ImbalanceShift { prev, curr } => {
                let mut s = "OB Imbalance shift: ".to_string();
                s.append(cut_text(*prev, 2).as_str());
                s.append(" -> ");
                s.append(cut_text(*curr, 2).as_str());
                s
            },
            ToxicityReason::ImbalanceDrift { prev, curr } => {
                let mut s = "OB Imbalance drift: ".to_string();
                s.append(cut_text(*prev, 2).as_str());
                s.append(" -> ");
                s.append(cut_text(*curr, 2).as_str());
                s
            },
        }
    }
}

/// Why a strategy does nothing.
#[derive(Debug)]
pub enum SkipReason<D = Decimal, S = String> {
    /// No window was started.
    WindowNotStarted,
    /// Fewer seconds are left than the configured least number (apex market maker).
    TooLate { secs_remaining: i64, min: i64 },
    /// Fewer seconds are left than the configured least number (market maker).
    TooLateToQuote { secs_remaining: i64, min: i64 },
    /// The two midpoints do not add up to more than zero.
    ZeroMidpointSum,
    /// A book has neither a bid nor an ask.
    IncompleteBook,
    /// The flow is toxic.
    Toxic(ToxicityReason<D>),
    /// Both sides would be quoted at bids that leave no edge (apex market maker).
    UnsafePair { total: D },
    /// Neither side may be quoted (apex market maker).
    NoSideLeft { yes_held: D, no_held: D, net: D },
    /// The two bids leave no edge (market maker).
    NoEdge { total: D },
    /// Neither side may be quoted (market maker).
    MaxPosition { yes_held: D, no_held: D, max: D },
    /// The YES ask is below its threshold.
    YesPriceLow { price: D, min: D },
    /// The NO ask is below its threshold.
    NoPriceLow { price: D, min: D },
    /// The market ends too soon.
    MarketEnding { secs_left: i64, stop_minutes: u64 },
    /// The order would lift the exposure above its limit.
    RiskLimit { exposure: D, order: D, limit: D },
    /// The two sides are held too unevenly.
    Unbalanced { market: S },
    /// The last trade was too short a while ago.
    TradeInterval,
}

impl View for SkipReason<Decimal, String> {
    type V = SkipReason<int, Seq<char>>;

    open spec fn view(&self) -> SkipReason<int, Seq<char>> {
        match *self {
            SkipReason::WindowNotStarted => SkipReason::WindowNotStarted,
            SkipReason::TooLate { secs_remaining, min } => SkipReason::TooLate { secs_remaining, min },
            SkipReason::TooLateToQuote { secs_remaining, min } => SkipReason::TooLateToQuote {
                secs_remaining,
                min,
            },
            SkipReason::ZeroMidpointSum => SkipReason::ZeroMidpointSum,
            SkipReason::IncompleteBook => SkipReason::IncompleteBook,
            SkipReason::Toxic(reason) => SkipReason::Toxic(reason@),
            SkipReason::UnsafePair { total } => SkipReason::UnsafePair { total: total@ },
            SkipReason::NoSideLeft { yes_held, no_held, net } => SkipReason::NoSideLeft {
                yes_held: yes_held@,
                no_held: no_held@,
                net: net@,
            },
            SkipReason::NoEdge { total } => SkipReason::NoEdge { total: total@ },
            SkipReason::MaxPosition { yes_held, no_held, max } => SkipReason::MaxPosition {
                yes_held: yes_held@,
                no_held: no_held@,
                max: max@,
            },
            SkipReason::YesPriceLow { price, min } => SkipReason::YesPriceLow {
                price: price@,
                min: min@,
            },
            SkipReason::NoPriceLow { price, min } => SkipReason::NoPriceLow { price: price@, min: min@ },
            SkipReason::MarketEnding { secs_left, stop_minutes } => SkipReason::MarketEnding {
                secs_left,
                stop_minutes,
            },
            SkipReason::RiskLimit { exposure, order, limit } => SkipReason::RiskLimit {
                exposure: exposure@,
                order: order@,
                limit: limit@,
            },
            SkipReason::Unbalanced { market } => SkipReason::Unbalanced { market: market@ },
            SkipReason::TradeInterval => SkipReason::TradeInterval,
        }
    }
}

impl SkipReason<Decimal, String> {
    /// The reason in words. Held amounts are written with the decimals that their scale says.
    pub open spec fn words(self) -> Seq<char> {
        match self {
            SkipReason::WindowNotStarted => "Window not started"@,
            SkipReason::TooLate { secs_remaining, min } => text::int_text(secs_remaining as int)
                + "s remaining < "@ + text::int_text(min as int) + "s min"@,
            SkipReason::TooLateToQuote { secs_remaining, min } => text::int_text(secs_remaining as int)
                + "s remaining < "@ + text::int_text(min as int) + "s min_to_quote"@,
            SkipReason::ZeroMidpointSum => "Zero midpoint sum"@,
            SkipReason::IncompleteBook => "Incomplete book data"@,
            SkipReason::Toxic(reason) => "Toxic: "@ + reason@.text(),
            SkipReason::UnsafePair { total } => "Unsafe dual-side bid sum: "@ + text::decimal_text(
                total@,
                4,
            ) + " (>= 0.99)"@,
            SkipReason::NoSideLeft { yes_held, no_held, net } => "Limits/Resolution reached | YES:"@
                + text::text_of(yes_held) + " NO:"@ + text::text_of(no_held) + " | inv:"@ + text::text_of(
                net,
            ),
            SkipReason::NoEdge { total } => "Bid total "@ + text::decimal_text(total@, 4)
                + " >= 0.99, no edge"@,
            SkipReason::MaxPosition { yes_held, no_held, max } => "Max position reached | YES:"@
                + text::text_of(yes_held) + " NO:"@ + text::text_of(no_held) + " | max:"@ + text::text_of(
                max,
            ),
            SkipReason::YesPriceLow { price, min } => "YES price "@ + text::decimal_text(price@, 4)
                + " < threshold "@ + text::decimal_text(min@, 4),
            SkipReason::NoPriceLow { price, min } => "NO price "@ + text::decimal_text(price@, 4)
                + " < threshold "@ + text::decimal_text(min@, 4),
            SkipReason::MarketEnding { secs_left, stop_minutes } => text::int_text(secs_left as int)
                + "s until market end (stop "@ + text::digits(stop_minutes as nat) + "min)"@,
            SkipReason::RiskLimit { exposure, order, limit } => "Risk limit | exposure:"@
                + text::decimal_text(exposure@, 2) + " order:"@ + text::decimal_text(order@, 2)
                + " limit:"@ + text::decimal_text(limit@, 2),
            SkipReason::Unbalanced { market } => "Position unbalanced | "@ + market@,
            SkipReason::TradeInterval => "Trade interval <3s"@,
        }
    }

    /// The reason in words.
    pub fn text(&self) -> (r: String)
        ensures
            r@ == self.words(),
    {
        match self {
            SkipReason::WindowNotStarted => "Window not started".to_string(),
            SkipReason::TooLate { secs_remaining, min } => {
                let mut s = i64_text(*secs_remaining);
                s.append("s remaining < ");
                s.append(i64_text(*min).as_str());
                s.append("s min");
                s
            },
            SkipReason::TooLateToQuote { secs_remaining, min } => {
                let mut s = i64_text(*secs_remaining);
                s.append("s remaining < ");
                s.append(i64_text(*min).as_str());
                s.append("s min_to_quote");
                s
            },
            SkipReason::ZeroMidpointSum => "Zero midpoint sum".to_string(),
            SkipReason::IncompleteBook => "Incomplete book data".to_string(),
            SkipReason::Toxic(reason) => {
                let mut s = "Toxic: ".to_string();
                s.append(reason.text().as_str());
                s
            },
            SkipReason::UnsafePair { total } => {
                let mut s = "Unsafe dual-side bid sum: ".to_string();
                s.append(cut_text(*total, 4).as_str());
                s.append(" (>= 0.99)");
                s
            },
            SkipReason::NoSideLeft { yes_held, no_held, net } => {
                let mut s = "Limits/Resolution reached | YES:".to_string();
                s.append(full_text(*yes_held).as_str());
                s.append(" NO:");
                s.append(full_text(*no_held).as_str());
                s.append(" | inv:");
                s.append(full_text(*net).as_str());
                s
            },
            SkipReason::NoEdge { total } => {
                let mut s = "Bid total ".to_string();
                s.append(cut_text(*total, 4).as_str());
                s.append(" >= 0.99, no edge");
                s
            },
            SkipReason::MaxPosition { yes_held, no_held, max } => {
                let mut s = "Max position reached | YES:".to_string();
                s.append(full_text(*yes_held).as_str());
                s.append(" NO:");
                s.append(full_text(*no_held).as_str());
                s.append(" | max:");
                s.append(full_text(*max).as_str());
                s
            },
            SkipReason::YesPriceLow { price, min } => {
                let mut s = "YES price ".to_string();
                s.append(cut_text(*price, 4).as_str());
                s.append(" < threshold ");
                s.append(cut_text(*min, 4).as_str());
                s
            },
            SkipReason::NoPriceLow { price, min } => {
                let mut s = "NO price ".to_string();
                s.append(cut_text(*price, 4).as_str());
                s.append(" < threshold ");
                s.append(cut_text(*min, 4).as_str());
                s
            },
            SkipReason::MarketEnding { secs_left, stop_minutes } => {
                let mut s = i64_text(*secs_left);
                s.append("s until market end (stop ");
                s.append(u64_text(*stop_minutes).as_str());
                s.append("min)");
                s
            },
            SkipReason::RiskLimit { exposure, order, limit } => {
                let mut s = "Risk limit | exposure:".to_string();
                s.append(cut_text(*exposure, 2).as_str());
                s.append(" order:");
                s.append(cut_text(*order, 2).as_str());
                s.append(" limit:");
                s.append(cut_text(*limit, 2).as_str());
                s
            },
            SkipReason::Unbalanced { market } => {
                let mut s = "Position unbalanced | ".to_string();
                s.append(market.as_str());
                s
            },
            SkipReason::TradeInterval => "Trade interval <3s".to_string(),
        }
    }
}

/// What a strategy asks for.
#[derive(Debug)]
pub enum Action<D = Decimal, S = String> {
    /// Buy both tokens of a market.
    PlaceArbPair { opp: ArbitrageOpportunity<D>, yes_dir: S, no_dir: S },
    /// Post a limit order to buy (good till cancelled).
    PostLimitOrder { token_id: U256, price: D, size: D },
    /// Cancel all open orders.
    CancelAll,
    /// Do nothing.
    Skip { reason: SkipReason<D, S> },
}

impl View for Action<Decimal, String> {
    type V = Action<int, Seq<char>>;

    open spec fn view(&self) -> Action<int, Seq<char>> {
        match *self {
            Action::PlaceArbPair { opp, yes_dir, no_dir } => Action::PlaceArbPair {
                opp: opp@,
                yes_dir: yes_dir@,
                no_dir: no_dir@,
            },
            Action::PostLimitOrder { token_id, price, size } => Action::PostLimitOrder {
                token_id,
                price: price@,
                size: size@,
            },
            Action::CancelAll => Action::CancelAll,
            Action::Skip { reason } => Action::Skip { reason: reason@ },
        }
    }
}

/// Actions, with the numbers in atoms.
pub open spec fn action_views(actions: Seq<Action>) -> Seq<Action<int, Seq<char>>> {
    actions.map_values(|a: Action| a@)
}

/// A skip, as the only action.
pub open spec fn skipped(reason: SkipReason<int, Seq<char>>) -> Seq<Action<int, Seq<char>>> {
    seq![Action::Skip { reason }]
}

/// The numbers of a reason that speaks of what is held have the decimal places of what is held.
pub open spec fn reason_places(
    reason: SkipReason,
    yes: decimal::Digits,
    no: decimal::Digits,
    cap: Decimal,
) -> bool {
    match reason {
        SkipReason::MaxPosition { yes_held, no_held, max } => {
            &&& yes_held.digits() == yes
            &&& no_held.digits() == no
            &&& max == cap
        },
        SkipReason::NoSideLeft { yes_held, no_held, net } => {
            &&& yes_held.digits() == yes
            &&& no_held.digits() == no
            &&& Some(net.digits()) == decimal::subtracted(yes, no)
        },
        _ => true,
    }
}

/// The same of every skip among the actions.
pub open spec fn action_places(
    actions: Seq<Action>,
    yes: decimal::Digits,
    no: decimal::Digits,
    cap: Decimal,
) -> bool {
    forall|i: int|
        #![trigger actions[i]]
        0 <= i < actions.len() ==> (actions[i] matches Action::Skip { reason } ==> reason_places(
            reason,
            yes,
            no,
            cap,
        ))
}

/// What is held after books came in: as before, or with one more quote.
pub open spec fn held_or_more(before: decimal::Digits, after: decimal::Digits, size: Decimal) -> bool {
    after == before || Some(after) == decimal::added(before, size.digits())
}

/// The two tokens of a market.
pub open spec fn tokens_of(market: Option<&MarketInfo>) -> Option<(U256, U256)> {
    match market {
        Some(m) => Some((m.yes_token_id, m.no_token_id)),
        None => None,
    }
}

/// A skip, as the only action.
pub fn skip(reason: SkipReason) -> (r: Vec<Action>)
    ensures
        action_views(r@) == skipped(reason@),
        r@ == seq![Action::<Decimal, String>::Skip { reason }],
{
    let ghost (g, whole) = (reason@, reason);
    let mut actions: Vec<Action> = Vec::new();
    actions.push(Action::Skip { reason });
    assert(actions@ =~= seq![Action::<Decimal, String>::Skip { reason: whole }]);
    assert(action_views(actions@) =~= skipped(g));
    actions
}

/// Whether a side that holds `held` may take `size` more: it holds less than its cap, and does not go above
/// it. A sum out of range is above every cap.
pub open spec fn fits(held: int, size: int, cap: int) -> bool {
    held < cap && (decimal::sum(held, size) matches Some(total) && total <= cap)
}

/// Whether a side that holds `held` may take `size` more.
fn has_room(held: Decimal, size: Decimal, cap: Decimal) -> (r: bool)
    ensures
        r == fits(held@, size@, cap@),
{
    if held >= cap {
        return false;
    }
    match checked_add(held, size) {
        Some(total) => total <= cap,
        None => false,
    }
}

/// What a strategy looks at besides the books.
pub struct StrategyContext<'a> {
    pub config: &'a Config,
    pub market_info: Option<&'a MarketInfo>,
    /// The market's name in messages.
    pub market_display: &'a str,
    pub position_tracker: &'a PositionTracker,
    /// The opportunity that the books hold, where they hold one.
    pub opportunity: Option<ArbitrageOpportunity>,
    /// The two sides of the market are held too unevenly.
    pub pair_unbalanced: bool,
    /// When the window ends, in nanoseconds since the Unix epoch.
    pub window_end: i64,
    pub yes_dir: &'a str,
    pub no_dir: &'a str,
    pub now: Now,
}

/// Which strategy trades.
#[derive(Clone, Copy, Debug, PartialEq, Eq, Structural)]
pub enum TradingMode {
    /// Spread arbitrage.
    Arb,
    /// Market making.
    MarketMaker,
    /// Market making with four phases and a watch on the flow.
    ApexMarketMaker,
    /// Not there yet: trades as `Arb`.
    Hybrid,
}

/// The mode that a lower-case word names; `Arb` for any other word.
pub open spec fn mode_of_word(word: Seq<char>) -> TradingMode {
    if word == "mm"@ || word == "market_maker"@ || word == "marketmaker"@ {
        TradingMode::MarketMaker
    } else if word == "hybrid"@ {
        TradingMode::Hybrid
    } else {
        TradingMode::Arb
    }
}

impl TradingMode {
    /// The mode that a lower-case word names; `Arb` for any other word.
    pub fn from_word(word: &str) -> (r: TradingMode)
        ensures
            r == mode_of_word(word@),
    {
        if same_text(word, "mm") || same_text(word, "market_maker") || same_text(word, "marketmaker") {
            TradingMode::MarketMaker
        } else if same_text(word, "hybrid") {
            TradingMode::Hybrid
        } else {
            TradingMode::Arb
        }
    }

    /// The mode that a text names, white space around it and case aside.
    pub fn parse(s: &str) -> (r: TradingMode)
        ensures
            r == mode_of_word(text::lowercase(text::trimmed(s@))),
            text::all_ascii(text::trimmed(s@)) ==> r == mode_of_word(
                text::trimmed(s@).map_values(|c: char| text::ascii_lower(c)),
            ),
    {
        let word = to_lowercase(trim(s));
        TradingMode::from_word(word.as_str())
    }

    /// The short name of the mode.
    pub open spec fn short_name(self) -> Seq<char> {
        match self {
            TradingMode::Arb => "arb"@,
            TradingMode::MarketMaker => "mm"@,
            TradingMode::ApexMarketMaker => "apex_mm"@,
            TradingMode::Hybrid => "hybrid"@,
        }
    }

    /// The short name of the mode.
    pub fn text(self) -> (r: &'static str)
        ensures
            r@ == self.short_name(),
    {
        match self {
            TradingMode::Arb => "arb",
            TradingMode::MarketMaker => "mm",
            TradingMode::ApexMarketMaker => "apex_mm",
            TradingMode::Hybrid => "hybrid",
        }
    }
}

/// Each of the three modes that can be configured is read back from its short name.
pub proof fn mode_round_trip(mode: TradingMode)
    requires
        mode !is ApexMarketMaker,
    ensures
        mode_of_word(mode.short_name()) == mode,
{
    reveal_strlit("arb");
    reveal_strlit("mm");
    reveal_strlit("market_maker");
    reveal_strlit("marketmaker");
    reveal_strlit("hybrid");
    assert("arb"@.len() == 3);
    assert("mm"@.len() == 2);
    assert("market_maker"@.len() == 12);
    assert("marketmaker"@.len() == 11);
    assert("hybrid"@.len() == 6);
}

/// What a strategy knows, in atoms.
pub enum RunnerView {
    Arb(ArbView),
    MarketMaker(MmView),
    ApexMarketMaker(ApexView),
}

impl RunnerView {
    /// A new window starts.
    pub open spec fn window_started(self, now: Now) -> RunnerView {
        match self {
            RunnerView::Arb(s) => RunnerView::Arb(s.window_started()),
            RunnerView::MarketMaker(s) => RunnerView::MarketMaker(s.window_started(now)),
            RunnerView::ApexMarketMaker(s) => RunnerView::ApexMarketMaker(s.window_started(now)),
        }
    }

    /// New books of a market, at this exposure.
    pub open spec fn book_update(
        self,
        pair: PairView,
        ctx: &StrategyContext<'_>,
        exposure: Option<int>,
    ) -> Option<(RunnerView, Seq<Action<int, Seq<char>>>)> {
        match self {
            RunnerView::Arb(s) => match s.book_update(pair, ctx, exposure) {
                Some((t, actions)) => Some((RunnerView::Arb(t), actions)),
                None => None,
            },
            RunnerView::MarketMaker(s) => match s.book_update(
                pair,
                tokens_of(ctx.market_info),
                ctx.window_end,
                ctx.now,
            ) {
                Some((t, actions)) => Some((RunnerView::MarketMaker(t), actions)),
                None => None,
            },
            RunnerView::ApexMarketMaker(s) => match s.book_update(
                pair,
                tokens_of(ctx.market_info),
                ctx.window_end,
                ctx.now,
            ) {
                Some((t, actions)) => Some((RunnerView::ApexMarketMaker(t), actions)),
                None => None,
            },
        }
    }

    /// The name of the strategy.
    pub open spec fn name(self) -> Seq<char> {
        match self {
            RunnerView::Arb(_) => "arbitrage"@,
            RunnerView::MarketMaker(_) => "market_maker"@,
            RunnerView::ApexMarketMaker(_) => "apex_mm"@,
        }
    }
}

/// The strategy that trades.
pub enum StrategyRunner {
    Arb(ArbitrageStrategy),
    MarketMaker(MarketMakerStrategy),
    ApexMarketMaker(ApexMarketMakerStrategy),
}

impl View for StrategyRunner {
    type V = RunnerView;

    open spec fn view(&self) -> RunnerView {
        match self {
            StrategyRunner::Arb(s) => RunnerView::Arb(s@),
            StrategyRunner::MarketMaker(s) => RunnerView::MarketMaker(s@),
            StrategyRunner::ApexMarketMaker(s) => RunnerView::ApexMarketMaker(s@),
        }
    }
}

impl StrategyRunner {
    /// The name of the strategy.
    pub fn name(&self) -> (r: &str)
        ensures
            r@ == self@.name(),
    {
        match self {
            StrategyRunner::Arb(s) => s.name(),
            StrategyRunner::MarketMaker(s) => s.name(),
            StrategyRunner::ApexMarketMaker(s) => s.name(),
        }
    }

    /// Starts a window.
    pub fn on_window_start(&mut self, now: Now)
        ensures
            final(self)@ == old(self)@.window_started(now),
    {
        match self {
            StrategyRunner::Arb(s) => s.on_window_start(),
            StrategyRunner::MarketMaker(s) => s.on_window_start(now),
            StrategyRunner::ApexMarketMaker(s) => s.on_window_start(now),
        }
    }

    /// Looks at new books of a market. `None`, and no change, where a step of the computation is out
    /// of range.
    pub fn on_book_update(&mut self, pair: &OrderBookPair, ctx: &StrategyContext<'_>) -> (r: Option<
        Vec<Action>,
    >)
        ensures
            exists|e: Option<int>| #[trigger]
                ctx.position_tracker@.may_have_exposure(e) && (match r {
                    Some(actions) => Some((final(self)@, action_views(actions@))),
                    None => None,
                }) == old(self)@.book_update(pair@, ctx, e),
            r is None ==> final(self)@ == old(self)@,
    {
        let exposure = ctx.position_tracker.calculate_exposure();
        assert(ctx.position_tracker@.may_have_exposure(crate::decimal::opt_atoms(exposure)));
        match self {
            StrategyRunner::Arb(s) => s.decide(pair, ctx, exposure),
            StrategyRunner::MarketMaker(s) => s.on_book_update(pair, ctx),
            StrategyRunner::ApexMarketMaker(s) => s.on_book_update(pair, ctx),
        }
    }
}

} // verus!
