//! One window of trading: what each event makes the bot do.
use vstd::prelude::*;

use crate::config::Config;
use crate::decimal::Decimal;
use crate::market::MarketInfo;
use crate::monitor::{ArbitrageOpportunity, OrderBookPair, PairView};
use crate::reports;
use crate::reports::book_line;
use crate::risk::positions::PositionTracker;
use crate::strategy;
use crate::strategy::apex::{ApexConfig, ApexMarketMakerStrategy, ApexView};
use crate::strategy::arb::{ArbView, ArbitrageStrategy};
use crate::strategy::mm::{MarketMakerStrategy, MmConfig, MmView};
use crate::strategy::{Action, RunnerView, StrategyContext, StrategyRunner, TradingMode};
use crate::text;
use crate::text::trim;
use crate::time::Now;
use crate::types::{Address, B256};
use crate::wind_down;
use crate::wind_down::is_due;

verus! {

/// The length of a window, in seconds.
pub const FIVE_MIN_SECS: i64 = 300;

/// A map from market id (its two halves) to the asks for YES and NO.
pub type AskMap = dashmap::DashMap<(u128, u128), (Decimal, Decimal)>;

/// The entries of the map.
pub uninterp spec fn asks(m: AskMap) -> Map<B256, (Decimal, Decimal)>;

/// `dashmap::DashMap::new`: a map without entries.
#[verifier::external_body]
fn new_asks() -> (m: AskMap)
    ensures
        asks(m) == (Map::<B256, (Decimal, Decimal)>::empty()),
{
    dashmap::DashMap::new()
}

/// `dashmap::DashMap::get`: the value under the key, if there is one.
#[verifier::external_body]
fn get_asks(m: &AskMap, market: B256) -> (r: Option<(Decimal, Decimal)>)
    ensures
        r == if asks(*m).contains_key(market) {
            Some(asks(*m)[market])
        } else {
            None
        },
{
    m.get(&(market.hi, market.lo)).map(|e| *e.value())
}

/// `dashmap::DashMap::insert`: the value replaces what stood under the key.
#[verifier::external_body]
fn insert_asks(m: &mut AskMap, market: B256, value: (Decimal, Decimal))
    ensures
        asks(*final(m)) == asks(*old(m)).insert(market, value),
{
    m.insert((market.hi, market.lo), value);
}

/// The entries of the map, in atoms.
pub open spec fn asks_in_atoms(m: Map<B256, (Decimal, Decimal)>) -> Map<B256, (int, int)> {
    m.map_values(|v: (Decimal, Decimal)| (v.0@, v.1@))
}

/// The arrow from one price to the next.
pub open spec fn arrow(price: int, before: int) -> Seq<char> {
    if price > before {
        "↑"@
    } else if price < before {
        "↓"@
    } else {
        "−"@
    }
}

/// The arrow from one price to the next.
fn direction(price: Decimal, before: Decimal) -> (r: &'static str)
    ensures
        r@ == arrow(price@, before@),
{
    if price > before {
        "↑"
    } else if price < before {
        "↓"
    } else {
        "−"
    }
}

/// The arrows of both asks since the last books of the market; empty on the first books, and where an
/// ask is missing.
pub open spec fn arrows(last: Map<B256, (int, int)>, pair: PairView) -> (Seq<char>, Seq<char>) {
    match (pair.yes_book.best_ask(), pair.no_book.best_ask()) {
        (Some(yes), Some(no)) if last.contains_key(pair.market_id) => (
            arrow(yes, last[pair.market_id].0),
            arrow(no, last[pair.market_id].1),
        ),
        _ => (""@, ""@),
    }
}

/// The last asks, after new books of a market.
pub open spec fn asks_after(last: Map<B256, (int, int)>, pair: PairView) -> Map<B256, (int, int)> {
    match (pair.yes_book.best_ask(), pair.no_book.best_ask()) {
        (Some(yes), Some(no)) => last.insert(pair.market_id, (yes, no)),
        _ => last,
    }
}

/// The market of this id; the last one where there are several.
pub open spec fn market_of(markets: Seq<MarketInfo>, id: B256) -> Option<MarketInfo>
    decreases markets.len(),
{
    if markets.len() == 0 {
        None
    } else if markets.last().market_id == id {
        Some(markets.last())
    } else {
        market_of(markets.drop_last(), id)
    }
}

/// The market of this id; the last one where there are several.
pub fn find_market(markets: &Vec<MarketInfo>, id: B256) -> (r: Option<&MarketInfo>)
    ensures
        (match r {
            Some(m) => Some(*m),
            None => None,
        }) == market_of(markets@, id),
{
    let mut i: usize = markets.len();
    assert(markets@.take(i as int) =~= markets@);
    while i > 0
        invariant
            i <= markets@.len(),
            market_of(markets@, id) == market_of(markets@.take(i as int), id),
        decreases i,
    {
        assert(markets@.take(i as int).last() == markets@[i - 1]);
        assert(markets@.take(i as int).drop_last() =~= markets@.take(i - 1));
        if markets[i - 1].market_id == id {
            return Some(&markets[i - 1]);
        }
        i -= 1;
    }
    None
}

/// A market's name in messages: by its symbol, or else by its title.
pub open spec fn display_name(market: Option<MarketInfo>) -> Seq<char> {
    match market {
        Some(m) => if m.crypto_symbol@.len() > 0 {
            m.crypto_symbol@ + " prediction market"@
        } else {
            m.title@
        },
        None => "Unknown market"@,
    }
}

/// A market's name in messages: by its symbol, or else by its title.
pub fn market_display(market: Option<&MarketInfo>) -> (r: String)
    ensures
        r@ == display_name(
            match market {
                Some(m) => Some(*m),
                None => None,
            },
        ),
{
    match market {
        Some(m) => if m.crypto_symbol.as_str().unicode_len() > 0 {
            let mut s = m.crypto_symbol.clone();
            s.append(" prediction market");
            s
        } else {
            m.title.clone()
        },
        None => "Unknown market".to_string(),
    }
}

/// The strategy that the settings ask for, before its first window.
pub open spec fn configured_strategy(config: Config) -> RunnerView {
    match config.trading_mode {
        TradingMode::MarketMaker => RunnerView::MarketMaker(
            MmView {
                config: MmConfig {
                    base_spread: config.mm_base_spread@,
                    inventory_gamma: config.mm_inventory_gamma@,
                    max_position_per_side: config.mm_max_position_per_side@,
                    quote_size: config.mm_quote_size@,
                    min_seconds_to_quote: config.mm_min_seconds_to_quote,
                },
                inventory: Map::empty(),
                markets_with_quotes: Set::empty(),
                window_start: None,
                last_requote: None,
            },
        ),
        TradingMode::ApexMarketMaker => RunnerView::ApexMarketMaker(
            ApexView {
                config: ApexConfig {
                    base_spread: config.apex_base_spread@,
                    inventory_gamma: config.apex_inventory_gamma@,
                    max_position_per_side: config.apex_max_position_per_side@,
                    quote_size: config.apex_quote_size@,
                    min_seconds_to_quote: config.apex_min_seconds_to_quote,
                    toxicity_quote_threshold: config.apex_toxicity_quote_threshold,
                    toxicity_imbalance_threshold: config.apex_toxicity_imbalance_threshold@,
                },
                markets: Map::empty(),
                markets_with_quotes: Set::empty(),
                window_start: None,
                last_requote: None,
            },
        ),
        _ => RunnerView::Arb(
            ArbView { min_profit_threshold: config.min_profit_threshold@, last_trade_time: None },
        ),
    }
}

/// The strategy that the settings ask for: the mode that is not there yet trades as arbitrage.
pub fn strategy_for(config: &Config) -> (r: StrategyRunner)
    ensures
        r@ == configured_strategy(*config),
{
    match config.trading_mode {
        TradingMode::Arb => StrategyRunner::Arb(ArbitrageStrategy::new(config.min_profit_threshold)),
        TradingMode::Hybrid => StrategyRunner::Arb(ArbitrageStrategy::new(config.min_profit_threshold)),
        TradingMode::MarketMaker => StrategyRunner::MarketMaker(
            MarketMakerStrategy::new(
                MmConfig {
                    base_spread: config.mm_base_spread,
                    inventory_gamma: config.mm_inventory_gamma,
                    max_position_per_side: config.mm_max_position_per_side,
                    quote_size: config.mm_quote_size,
                    min_seconds_to_quote: config.mm_min_seconds_to_quote,
                },
            ),
        ),
        TradingMode::ApexMarketMaker => StrategyRunner::ApexMarketMaker(
            ApexMarketMakerStrategy::new(
                ApexConfig {
                    base_spread: config.apex_base_spread,
                    inventory_gamma: config.apex_inventory_gamma,
                    max_position_per_side: config.apex_max_position_per_side,
                    quote_size: config.apex_quote_size,
                    min_seconds_to_quote: config.apex_min_seconds_to_quote,
                    toxicity_quote_threshold: config.apex_toxicity_quote_threshold,
                    toxicity_imbalance_threshold: config.apex_toxicity_imbalance_threshold,
                },
            ),
        ),
    }
}

/// Whether merging is scheduled.
#[derive(Clone, Copy, Debug, PartialEq, Eq, Structural)]
pub enum MergePlan {
    /// It is switched off.
    Off,
    /// It is switched on, but the wallet's address is not known.
    NoAddress,
    /// It runs in rounds.
    Every { minutes: u64, proxy: Address },
}

/// Whether merging is scheduled.
pub fn merge_plan(config: &Config) -> (r: MergePlan)
    ensures
        r == if config.merge_interval_minutes == 0 {
            MergePlan::Off
        } else {
            match config.proxy_address {
                Some(proxy) => MergePlan::Every { minutes: config.merge_interval_minutes, proxy },
                None => MergePlan::NoAddress,
            }
        },
{
    if config.merge_interval_minutes == 0 {
        return MergePlan::Off;
    }
    match config.proxy_address {
        Some(proxy) => MergePlan::Every { minutes: config.merge_interval_minutes, proxy },
        None => MergePlan::NoAddress,
    }
}

/// Why trading cannot start with a key.
#[derive(Debug)]
pub enum KeyError {
    /// There is none.
    Missing { slot: String },
    /// It cannot be read.
    Invalid { error: String },
}

impl KeyError {
    /// The error in words.
    pub open spec fn words(self) -> Seq<char> {
        match self {
            KeyError::Missing { slot } => "["@ + slot@
                + "] No private key configured. Set POLYMARKET_PRIVATE_KEY or use multi-wallet mode (WALLET_N_KEY)."@,
            KeyError::Invalid { error } => "Invalid private key format: "@ + error@,
        }
    }

    /// The error in words.
    pub fn text(&self) -> (r: String)
        ensures
            r@ == self.words(),
    {
        match self {
            KeyError::Missing { slot } => {
                let mut s = "[".to_string();
                s.append(slot.as_str());
                s.append(
                    "] No private key configured. Set POLYMARKET_PRIVATE_KEY or use multi-wallet mode (WALLET_N_KEY).",
                );
                s
            },
            KeyError::Invalid { error } => {
                let mut s = "Invalid private key format: ".to_string();
                s.append(error.as_str());
                s
            },
        }
    }
}

/// The error with which `alloy` refuses to read a text as a private key, if it does.
pub uninterp spec fn key_error(key: Seq<char>) -> Option<Seq<char>>;

/// `alloy::signers::local::PrivateKeySigner`'s `FromStr`: the error, in words, if there is one.
#[verifier::external_body]
fn read_key(key: &str) -> (r: Option<String>)
    ensures
        (match r {
            Some(e) => Some(e@),
            None => None,
        }) == key_error(key@),
{
    key.parse::<alloy::signers::local::PrivateKeySigner>().err().map(|e| e.to_string())
}

/// Whether trading can start with a key, where reading it gave this error or none.
pub open spec fn key_verdict(key: Seq<char>, error: Option<Seq<char>>) -> Option<KeyVerdict> {
    if text::trimmed(key).len() == 0 {
        Some(KeyVerdict::Missing)
    } else {
        match error {
            Some(e) => Some(KeyVerdict::Invalid(e)),
            None => None,
        }
    }
}

/// Why trading cannot start with a key.
pub enum KeyVerdict {
    Missing,
    Invalid(Seq<char>),
}

/// What an error says of the key.
pub open spec fn verdict_of(r: Result<(), KeyError>) -> Option<KeyVerdict> {
    match r {
        Ok(_) => None,
        Err(KeyError::Missing { .. }) => Some(KeyVerdict::Missing),
        Err(KeyError::Invalid { error }) => Some(KeyVerdict::Invalid(error@)),
    }
}

/// Whether trading can start with a key, where reading it gave this error or none.
pub fn judge_key(key: &str, slot_name: &str, error: Option<String>) -> (r: Result<(), KeyError>)
    ensures
        verdict_of(r) == key_verdict(
            key@,
            match error {
                Some(e) => Some(e@),
                None => None,
            },
        ),
        r matches Err(KeyError::Missing { slot }) ==> slot@ == slot_name@,
{
    if trim(key).unicode_len() == 0 {
        return Err(KeyError::Missing { slot: slot_name.to_string() });
    }
    match error {
        Some(error) => Err(KeyError::Invalid { error }),
        None => Ok(()),
    }
}

/// Whether trading can start with a key.
pub fn check_key(key: &str, slot_name: &str) -> (r: Result<(), KeyError>)
    ensures
        verdict_of(r) == key_verdict(key@, key_error(key@)),
        r matches Err(KeyError::Missing { slot }) ==> slot@ == slot_name@,
{
    judge_key(key, slot_name, read_key(key))
}

/// A window, with the numbers in atoms.
#[verifier::ext_equal]
pub struct EngineView {
    /// When the window started, in seconds since the Unix epoch.
    pub window_timestamp: i64,
    /// When the window ends, in nanoseconds since the Unix epoch.
    pub window_end: i64,
    pub wind_down_done: bool,
    pub last_asks: Map<B256, (int, int)>,
}

/// What is to be done about winding down.
#[derive(Clone, Copy, Debug, PartialEq, Eq, Structural)]
pub enum WindDownCall {
    /// Nothing.
    Wait,
    /// It starts.
    Start,
    /// It would start: in a dry run, which sends no orders, it is only noted.
    Note,
}

impl EngineView {
    /// What is to be done about winding down now, and the window afterwards: it is started or noted once,
    /// and from then on the strategy is not asked. `None` where the time for it is out of range.
    pub open spec fn wound_down(self, dry_run: bool, minutes: u64, now: Now) -> (
        EngineView,
        Option<WindDownCall>,
    ) {
        if self.wind_down_done {
            (self, Some(WindDownCall::Wait))
        } else {
            match wind_down::due(minutes, self.window_end, now) {
                None => (self, None),
                Some(false) => (self, Some(WindDownCall::Wait)),
                Some(true) => (
                    EngineView { wind_down_done: true, ..self },
                    Some(
                        if dry_run {
                            WindDownCall::Note
                        } else {
                            WindDownCall::Start
                        },
                    ),
                ),
            }
        }
    }
}

/// In a window winding down starts at most once, however often and with whatever settings it is asked for.
pub proof fn winding_down_starts_once(
    window: EngineView,
    dry_run: bool,
    minutes: u64,
    now: Now,
    dry_again: bool,
    again: u64,
    later: Now,
)
    requires
        window.wound_down(dry_run, minutes, now).1 matches Some(call) && call !is Wait,
    ensures
        window.wound_down(dry_run, minutes, now).0.wound_down(dry_again, again, later) == (
            window.wound_down(dry_run, minutes, now).0,
            Some(WindDownCall::Wait),
        ),
{
}

/// In a dry run nothing is wound down, and the strategy rests when it would in a live one.
pub proof fn dry_run_winds_nothing_down(window: EngineView, minutes: u64, now: Now)
    ensures
        window.wound_down(true, minutes, now).1 != Some(WindDownCall::Start),
        window.wound_down(true, minutes, now).0 == window.wound_down(false, minutes, now).0,
{
}

/// The end of the window that started at this second; the given time where it is out of range.
pub open spec fn end_of_window(timestamp: i64, now: Now) -> i64 {
    let end = (timestamp + FIVE_MIN_SECS) * 1_000_000_000;
    if i64::MIN <= end <= i64::MAX {
        end as i64
    } else {
        now.utc
    }
}

/// What new books lead to.
pub struct BookAnswer {
    pub market_display: String,
    /// The books, in words.
    pub line: String,
    pub actions: Vec<Action>,
}

/// What is known besides the books when they come.
pub struct Surroundings<'a> {
    pub config: &'a Config,
    pub markets: &'a Vec<MarketInfo>,
    pub position_tracker: &'a PositionTracker,
    /// The opportunity that the books hold, where they hold one.
    pub opportunity: Option<ArbitrageOpportunity>,
    /// The two sides of the market are held too unevenly.
    pub pair_unbalanced: bool,
    pub now: Now,
}

/// The context that a strategy is given is what the surroundings and the last asks say.
pub open spec fn is_context(
    ctx: StrategyContext<'_>,
    engine: EngineView,
    pair: PairView,
    around: Surroundings<'_>,
) -> bool {
    let market = market_of(around.markets@, pair.market_id);
    &&& *ctx.config == *around.config
    &&& (match ctx.market_info {
        Some(m) => Some(*m),
        None => None,
    }) == market
    &&& ctx.market_display@ == display_name(market)
    &&& *ctx.position_tracker == *around.position_tracker
    &&& ctx.opportunity == around.opportunity
    &&& ctx.pair_unbalanced == around.pair_unbalanced
    &&& ctx.window_end == engine.window_end
    &&& (ctx.yes_dir@, ctx.no_dir@) == arrows(engine.last_asks, pair)
    &&& ctx.now == around.now
}

/// One window of trading.
pub struct Engine {
    window_timestamp: i64,
    window_end: i64,
    wind_down_done: bool,
    last_asks: AskMap,
}

impl View for Engine {
    type V = EngineView;

    closed spec fn view(&self) -> EngineView {
        EngineView {
            window_timestamp: self.window_timestamp,
            window_end: self.window_end,
            wind_down_done: self.wind_down_done,
            last_asks: asks_in_atoms(asks(self.last_asks)),
        }
    }
}

impl EngineView {
    /// New books of a market, in words; `None` where a step of the computation is out of range.
    pub open spec fn line(self, pair: OrderBookPair, around: Surroundings<'_>) -> Option<Seq<char>> {
        let (yes_dir, no_dir) = arrows(self.last_asks, pair@);
        reports::book_words(
            pair,
            display_name(market_of(around.markets@, pair.market_id)),
            yes_dir,
            no_dir,
        )
    }
}

impl Engine {
    /// The window that started at this second.
    pub fn new(window_timestamp: i64, now: Now) -> (r: Self)
        ensures
            r@ == (EngineView {
                window_timestamp,
                window_end: end_of_window(window_timestamp, now),
                wind_down_done: false,
                last_asks: Map::empty(),
            }),
    {
        let end: i128 = (window_timestamp as i128 + FIVE_MIN_SECS as i128) * 1_000_000_000;
        let window_end = if end < i64::MIN as i128 || end > i64::MAX as i128 {
            now.utc
        } else {
            end as i64
        };
        let r = Engine { window_timestamp, window_end, wind_down_done: false, last_asks: new_asks() };
        assert(r@.last_asks =~= Map::empty());
        r
    }

    /// When the window ends, in nanoseconds since the Unix epoch.
    pub fn window_end(&self) -> (r: i64)
        ensures
            r == self@.window_end,
    {
        self.window_end
    }

    /// What is to be done about winding down now: it is started once, or noted once in a dry run. `None`,
    /// and no change, where the time for it is out of range.
    pub fn wind_down_starts(&mut self, config: &Config, now: Now) -> (r: Option<WindDownCall>)
        ensures
            (final(self)@, r) == old(self)@.wound_down(
                config.dry_run,
                config.wind_down_before_window_end_minutes,
                now,
            ),
    {
        if self.wind_down_done {
            return Some(WindDownCall::Wait);
        }
        if !is_due(config.wind_down_before_window_end_minutes, self.window_end, now)? {
            return Some(WindDownCall::Wait);
        }
        self.wind_down_done = true;
        if config.dry_run {
            Some(WindDownCall::Note)
        } else {
            Some(WindDownCall::Start)
        }
    }

    /// Whether another window has started.
    pub fn window_over(&self, current_timestamp: i64) -> (r: bool)
        ensures
            r == (current_timestamp != self@.window_timestamp),
    {
        current_timestamp != self.window_timestamp
    }

    /// The arrows of both asks since the last books of the market.
    pub fn directions(&mut self, pair: &OrderBookPair) -> (r: (&'static str, &'static str))
        ensures
            (r.0@, r.1@) == arrows(old(self)@.last_asks, pair@),
            final(self)@ == (EngineView {
                last_asks: asks_after(old(self)@.last_asks, pair@),
                ..old(self)@
            }),
    {
        match (pair.yes_book.best_ask(), pair.no_book.best_ask()) {
            (Some(yes), Some(no)) => {
                let arrows = match get_asks(&self.last_asks, pair.market_id) {
                    Some((last_yes, last_no)) => (direction(yes, last_yes), direction(no, last_no)),
                    None => ("", ""),
                };
                insert_asks(&mut self.last_asks, pair.market_id, (yes, no));
                assert(self@.last_asks =~= old(self)@.last_asks.insert(pair.market_id, (yes@, no@)));
                arrows
            },
            _ => ("", ""),
        }
    }

    /// New books of a market: they are put in words, and the strategy looks at them, unless positions are
    /// wound down. `None`, with no change but that of the last asks, where a step of the computation is out
    /// of range.
    pub fn on_books(&mut self, pair: &OrderBookPair, around: &Surroundings<'_>, runner: &mut StrategyRunner) -> (r:
        Option<BookAnswer>)
        ensures
            final(self)@ == (EngineView {
                last_asks: asks_after(old(self)@.last_asks, pair@),
                ..old(self)@
            }),
            r matches Some(answer) ==> answer.market_display@ == display_name(
                market_of(around.markets@, pair.market_id),
            ),
            r matches Some(answer) ==> Some(answer.line@) == old(self)@.line(*pair, *around),
            old(self)@.line(*pair, *around) is None ==> r is None,
            old(self)@.line(*pair, *around) is Some && old(self)@.wind_down_done ==> r is Some
                && (r->0).actions@.len() == 0 && final(runner)@ == old(runner)@,
            old(self)@.line(*pair, *around) is Some && !old(self)@.wind_down_done ==> exists|
                ctx: StrategyContext<'_>,
                e: Option<int>,
            |
                #![trigger is_context(ctx, old(self)@, pair@, *around), around.position_tracker@.may_have_exposure(
                    e,
                )]
                is_context(ctx, old(self)@, pair@, *around) && around.position_tracker@.may_have_exposure(e)
                    && (match r {
                    Some(answer) => Some((final(runner)@, strategy::action_views(answer.actions@))),
                    None => None,
                }) == old(runner)@.book_update(pair@, &ctx, e),
            r is None ==> final(runner)@ == old(runner)@,
    {
        let ghost before = self@;
        let (yes_dir, no_dir) = self.directions(pair);
        let market_info = find_market(around.markets, pair.market_id);
        let display = market_display(market_info);
        let line = book_line(pair, display.as_str(), yes_dir, no_dir)?;
        if self.wind_down_done {
            return Some(BookAnswer { market_display: display, line, actions: Vec::new() });
        }
        let ctx = StrategyContext {
            config: around.config,
            market_info,
            market_display: display.as_str(),
            position_tracker: around.position_tracker,
            opportunity: around.opportunity,
            pair_unbalanced: around.pair_unbalanced,
            window_end: self.window_end,
            yes_dir,
            no_dir,
            now: around.now,
        };
        assert(is_context(ctx, before, pair@, *around));
        let actions = runner.on_book_update(pair, &ctx)?;
        Some(BookAnswer { market_display: display.clone(), line, actions })
    }
}

/// Starts a window: the exposure is counted from zero, and the strategy starts afresh.
pub fn begin_window(config: &Config, tracker: &mut PositionTracker, now: Now) -> (r: StrategyRunner)
    ensures
        final(tracker)@ == old(tracker)@.reset_exposure(),
        final(tracker).ledger() == old(tracker).ledger().reset(),
        r@ == configured_strategy(*config).window_started(now),
{
    tracker.reset_exposure();
    let mut runner = strategy_for(config);
    runner.on_window_start(now);
    runner
}

} // verus!
