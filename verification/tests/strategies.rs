//! The market maker, the arbitrage strategy and what they have in common.
use poly_5min_bot::config::{Config, Environment};
use poly_5min_bot::decimal::Decimal;
use poly_5min_bot::market::MarketInfo;
use poly_5min_bot::monitor::{ArbitrageOpportunity, BookUpdate, Level, OrderBookPair};
use poly_5min_bot::risk::positions::PositionTracker;
use poly_5min_bot::strategy::arb::ArbitrageStrategy;
use poly_5min_bot::strategy::fair_value::{fair_value, FairValue};
use poly_5min_bot::strategy::mm::{InventoryState, MarketMakerStrategy, MmConfig, Phase};
use poly_5min_bot::strategy::{Action, SkipReason, StrategyContext, StrategyRunner, TradingMode};
use poly_5min_bot::time::{elapsed_millis, elapsed_nanos, seconds_between, Now};
use poly_5min_bot::types::{B256, U256};

const SECOND: u64 = 1_000_000_000;

fn dec(num: i64, scale: u32) -> Decimal {
    Decimal::new(num, scale)
}

fn at(secs: u64) -> Now {
    Now { instant: secs * SECOND, utc: (secs * SECOND) as i64 }
}

fn book(asset: u128, bid: Decimal, ask: Decimal) -> BookUpdate {
    BookUpdate {
        asset_id: U256 { hi: 0, lo: asset },
        bids: vec![Level { price: bid, size: dec(10, 0) }],
        asks: vec![Level { price: ask, size: dec(10, 0) }],
    }
}

fn pair(yes_ask: Decimal, no_ask: Decimal) -> OrderBookPair {
    OrderBookPair {
        market_id: B256 { hi: 0, lo: 7 },
        yes_book: book(1, dec(40, 2), yes_ask),
        no_book: book(2, dec(40, 2), no_ask),
    }
}

fn info() -> MarketInfo {
    MarketInfo {
        market_id: B256 { hi: 0, lo: 7 },
        title: "Bitcoin up or down".to_string(),
        crypto_symbol: "btc".to_string(),
        yes_token_id: U256 { hi: 0, lo: 1 },
        no_token_id: U256 { hi: 0, lo: 2 },
        end_date: 300 * SECOND as i64,
    }
}

fn settings() -> Config {
    Config::from_env(&Environment { vars: Vec::new() })
}

fn context<'a>(
    config: &'a Config,
    info: Option<&'a MarketInfo>,
    tracker: &'a PositionTracker,
    opportunity: Option<ArbitrageOpportunity>,
    now: Now,
) -> StrategyContext<'a> {
    StrategyContext {
        config,
        market_info: info,
        market_display: "btc prediction market",
        position_tracker: tracker,
        opportunity,
        pair_unbalanced: false,
        window_end: 300 * SECOND as i64,
        yes_dir: "↑",
        no_dir: "↓",
        now,
    }
}

fn reason(actions: &Vec<Action>) -> String {
    match &actions[actions.len() - 1] {
        Action::Skip { reason } => reason.text(),
        other => panic!("no skip: {:?}", other),
    }
}

fn posts(actions: &Vec<Action>) -> Vec<(u128, Decimal)> {
    actions
        .iter()
        .filter_map(|a| match a {
            Action::PostLimitOrder { token_id, price, .. } => Some((token_id.lo, *price)),
            _ => None,
        })
        .collect()
}

fn opportunity() -> ArbitrageOpportunity {
    ArbitrageOpportunity {
        market_id: B256 { hi: 0, lo: 7 },
        yes_token_id: U256 { hi: 0, lo: 1 },
        no_token_id: U256 { hi: 0, lo: 2 },
        yes_ask_price: dec(45, 2),
        no_ask_price: dec(50, 2),
        yes_size: dec(20, 0),
        no_size: dec(30, 0),
        profit_percentage: dec(5, 0),
    }
}

#[test]
fn maker_phases() {
    assert_eq!(Phase::from_elapsed_secs(-5), Phase::Early);
    assert_eq!(Phase::from_elapsed_secs(119), Phase::Early);
    assert_eq!(Phase::from_elapsed_secs(120), Phase::Mid);
    assert_eq!(Phase::from_elapsed_secs(239), Phase::Mid);
    assert_eq!(Phase::from_elapsed_secs(240), Phase::Late);
    assert!(Phase::Early.spread_multiplier() == dec(15, 1));
    assert!(Phase::Mid.spread_multiplier() == dec(1, 0));
    assert!(Phase::Late.spread_multiplier() == dec(2, 0));
}

#[test]
fn maker_quotes_stay_under_the_cap() {
    let c = MmConfig { max_position_per_side: dec(5, 0), quote_size: dec(2, 0), ..MmConfig::default() };
    let mut maker = MarketMakerStrategy::new(c);
    maker.on_window_start(at(0));
    let (config, tracker, info) = (settings(), PositionTracker::new(dec(1000, 0), None), info());
    let even = pair(dec(60, 2), dec(60, 2));
    let mut posted = Vec::new();
    let mut last = Vec::new();
    for i in 0..20 {
        let ctx = context(&config, Some(&info), &tracker, None, at(1 + 12 * i));
        last = maker.on_book_update(&even, &ctx).unwrap();
        posted.extend(posts(&last).into_iter().map(|(token, _)| token));
    }
    // Two quotes of two shares on each side: a third would make six.
    assert_eq!(posted, [1, 2, 1, 2]);
    assert_eq!(reason(&last), "Max position reached | YES:4 NO:4 | max:5");
}

#[test]
fn a_quote_larger_than_the_cap_never_goes_out() {
    let c = MmConfig { max_position_per_side: dec(5, 0), quote_size: dec(6, 0), ..MmConfig::default() };
    let mut maker = MarketMakerStrategy::new(c);
    maker.on_window_start(at(0));
    let (config, tracker, info) = (settings(), PositionTracker::new(dec(1000, 0), None), info());
    let ctx = context(&config, Some(&info), &tracker, None, at(1));
    let actions = maker.on_book_update(&pair(dec(60, 2), dec(60, 2)), &ctx).unwrap();
    assert_eq!(reason(&actions), "Max position reached | YES:0 NO:0 | max:5");
}

#[test]
fn empty_quotes_stop_at_the_cap() {
    let c = MmConfig { max_position_per_side: dec(0, 0), quote_size: dec(0, 0), ..MmConfig::default() };
    let mut maker = MarketMakerStrategy::new(c);
    maker.on_window_start(at(0));
    let (config, tracker, info) = (settings(), PositionTracker::new(dec(1000, 0), None), info());
    let ctx = context(&config, Some(&info), &tracker, None, at(1));
    let actions = maker.on_book_update(&pair(dec(60, 2), dec(60, 2)), &ctx).unwrap();
    assert_eq!(reason(&actions), "Max position reached | YES:0 NO:0 | max:0");
}

#[test]
fn maker_default_settings() {
    let c = MmConfig::default();
    assert!(c.base_spread == dec(3, 2) && c.inventory_gamma == dec(3, 2));
    assert!(c.max_position_per_side == dec(5, 0) && c.quote_size == dec(1, 0));
    assert_eq!(c.min_seconds_to_quote, 30);
}

#[test]
fn five_quotes_in_ten_seconds_are_toxic() {
    let mut inv = InventoryState::default();
    for i in 0..4 {
        inv.record_quote_emitted(true, dec(1, 0), i * SECOND).unwrap();
    }
    assert!(!inv.is_toxic());
    inv.record_quote_emitted(false, dec(1, 0), 9 * SECOND).unwrap();
    assert!(inv.is_toxic());
    assert_eq!((inv.yes_quotes, inv.no_quotes), (4, 1));
    assert!(inv.net_inventory().unwrap() == dec(3, 0));
    inv.record_quote_emitted(false, dec(1, 0), 10 * SECOND).unwrap();
    assert_eq!(inv.recent_quote_count, 1);
    assert!(!inv.is_toxic());
}

#[test]
fn a_count_out_of_range_changes_nothing() {
    let mut inv = InventoryState::default();
    inv.yes_quotes = u32::MAX;
    assert!(inv.record_quote_emitted(true, dec(1, 0), SECOND).is_none());
    assert!(inv.yes_held == dec(0, 0));
    assert_eq!(inv.recent_quote_count, 0);
}

#[test]
fn maker_quotes_both_sides() {
    let config = settings();
    let tracker = PositionTracker::new(dec(1000, 0), None);
    let m = info();
    let mut strategy = MarketMakerStrategy::new(MmConfig::default());
    assert_eq!(strategy.name(), "market_maker");
    let even = pair(dec(60, 2), dec(60, 2));
    let mut look = |strategy: &mut MarketMakerStrategy, now: Now| {
        strategy.on_book_update(&even, &context(&config, Some(&m), &tracker, None, now)).unwrap()
    };
    assert_eq!(reason(&look(&mut strategy, at(1))), "Window not started");
    strategy.on_window_start(at(0));
    let first = look(&mut strategy, at(1));
    // 0.5 - 0.03 * 1.5
    assert_eq!(posts(&first).len(), 2);
    assert!(posts(&first)[0].1 == dec(455, 3) && posts(&first)[1].1 == dec(455, 3));
    assert!(look(&mut strategy, at(2)).is_empty());
    let second = look(&mut strategy, at(3));
    assert!(matches!(second[0], Action::CancelAll));
    // From the fifth quote within ten seconds on the spread is three times as wide.
    let third = look(&mut strategy, at(5));
    assert!(posts(&third)[0].1 == dec(455, 3));
    let fourth = look(&mut strategy, at(7));
    assert!(posts(&fourth)[0].1 == dec(365, 3));
    look(&mut strategy, at(9));
    assert_eq!(
        reason(&look(&mut strategy, at(11))),
        "Max position reached | YES:5 NO:5 | max:5"
    );
    assert_eq!(reason(&look(&mut strategy, at(271))), "29s remaining < 30s min_to_quote");
}

#[test]
fn maker_leans_against_its_inventory() {
    let config = settings();
    let tracker = PositionTracker::new(dec(1000, 0), None);
    let m = info();
    let mut strategy = MarketMakerStrategy::new(MmConfig {
        max_position_per_side: dec(1, 0),
        quote_size: dec(1, 0),
        ..MmConfig::default()
    });
    strategy.on_window_start(at(0));
    let no_heavy = pair(dec(60, 2), dec(60, 2));
    let ctx = context(&config, Some(&m), &tracker, None, at(1));
    assert_eq!(posts(&strategy.on_book_update(&no_heavy, &ctx).unwrap()).len(), 2);
    let ctx = context(&config, Some(&m), &tracker, None, at(3));
    assert_eq!(
        reason(&strategy.on_book_update(&no_heavy, &ctx).unwrap()),
        "Max position reached | YES:1 NO:1 | max:1"
    );
}

#[test]
fn maker_without_edge_skips() {
    let config = settings();
    let tracker = PositionTracker::new(dec(1000, 0), None);
    let m = info();
    let mut strategy =
        MarketMakerStrategy::new(MmConfig { base_spread: dec(1, 3), ..MmConfig::default() });
    strategy.on_window_start(at(0));
    let ctx = context(&config, Some(&m), &tracker, None, at(1));
    assert_eq!(
        reason(&strategy.on_book_update(&pair(dec(60, 2), dec(60, 2)), &ctx).unwrap()),
        "Bid total 0.9970 >= 0.99, no edge"
    );
}

#[test]
fn fair_values_add_up_to_one() {
    match fair_value(&pair(dec(40, 2), dec(80, 2))).unwrap() {
        FairValue::Fair { yes, no } => assert!(yes == dec(4, 1) && no == dec(6, 1)),
        _ => panic!("no fair value"),
    }
}

#[test]
fn arbitrage_buys_both_sides() {
    let config = settings();
    let tracker = PositionTracker::new(dec(1000, 0), None);
    let m = info();
    let mut strategy = ArbitrageStrategy::new(dec(1, 3));
    assert_eq!(strategy.name(), "arbitrage");
    assert!(strategy.min_profit_threshold() == dec(1, 3));
    let books = pair(dec(45, 2), dec(50, 2));
    let ctx = context(&config, Some(&m), &tracker, Some(opportunity()), at(10));
    match &strategy.on_book_update(&books, &ctx).unwrap()[..] {
        [Action::PlaceArbPair { opp, yes_dir, no_dir }] => {
            assert!(opp.yes_ask_price == dec(45, 2));
            assert_eq!((yes_dir.as_str(), no_dir.as_str()), ("↑", "↓"));
        }
        other => panic!("{:?}", other),
    }
    let ctx = context(&config, Some(&m), &tracker, Some(opportunity()), at(12));
    assert_eq!(reason(&strategy.on_book_update(&books, &ctx).unwrap()), "Trade interval <3s");
    let ctx = context(&config, Some(&m), &tracker, Some(opportunity()), at(13));
    assert_eq!(strategy.on_book_update(&books, &ctx).unwrap().len(), 1);
    strategy.on_window_start();
    let ctx = context(&config, Some(&m), &tracker, Some(opportunity()), at(14));
    assert!(matches!(
        strategy.on_book_update(&books, &ctx).unwrap()[0],
        Action::PlaceArbPair { .. }
    ));
}

#[test]
fn arbitrage_needs_the_spread_and_an_opportunity() {
    let config = settings();
    let tracker = PositionTracker::new(dec(1000, 0), None);
    let m = info();
    let mut strategy = ArbitrageStrategy::new(dec(1, 3));
    let ctx = context(&config, Some(&m), &tracker, Some(opportunity()), at(10));
    assert!(strategy.on_book_update(&pair(dec(50, 2), dec(4901, 4)), &ctx).unwrap().is_empty());
    assert_eq!(strategy.on_book_update(&pair(dec(50, 2), dec(49, 2)), &ctx).unwrap().len(), 1);
    let ctx = context(&config, Some(&m), &tracker, None, at(20));
    assert!(strategy.on_book_update(&pair(dec(45, 2), dec(50, 2)), &ctx).unwrap().is_empty());
    let mut empty = pair(dec(45, 2), dec(50, 2));
    empty.no_book.asks.clear();
    let ctx = context(&config, Some(&m), &tracker, Some(opportunity()), at(20));
    assert!(strategy.on_book_update(&empty, &ctx).unwrap().is_empty());
}

#[test]
fn arbitrage_keeps_its_price_thresholds() {
    let mut config = settings();
    config.min_yes_price_threshold = dec(46, 2);
    config.min_no_price_threshold = dec(51, 2);
    let tracker = PositionTracker::new(dec(1000, 0), None);
    let m = info();
    let mut strategy = ArbitrageStrategy::new(dec(1, 3));
    let books = pair(dec(45, 2), dec(50, 2));
    let look = |strategy: &mut ArbitrageStrategy, config: &Config| {
        let ctx = context(config, Some(&m), &tracker, Some(opportunity()), at(10));
        reason(&strategy.on_book_update(&books, &ctx).unwrap())
    };
    assert_eq!(look(&mut strategy, &config), "YES price 0.4500 < threshold 0.4600");
    config.min_yes_price_threshold = dec(45, 2);
    assert_eq!(look(&mut strategy, &config), "NO price 0.5000 < threshold 0.5100");
}

#[test]
fn arbitrage_stops_before_the_end() {
    let mut config = settings();
    config.stop_arbitrage_before_end_minutes = 2;
    let tracker = PositionTracker::new(dec(1000, 0), None);
    let m = info();
    let mut strategy = ArbitrageStrategy::new(dec(1, 3));
    let books = pair(dec(45, 2), dec(50, 2));
    let ctx = context(&config, Some(&m), &tracker, Some(opportunity()), at(180));
    assert_eq!(
        reason(&strategy.on_book_update(&books, &ctx).unwrap()),
        "120s until market end (stop 2min)"
    );
    let ctx = context(&config, Some(&m), &tracker, Some(opportunity()), at(179));
    assert_eq!(strategy.on_book_update(&books, &ctx).unwrap().len(), 1);
    config.stop_arbitrage_before_end_minutes = u64::MAX / 4;
    let ctx = context(&config, Some(&m), &tracker, Some(opportunity()), at(10));
    assert!(strategy.on_book_update(&books, &ctx).is_none());
}

#[test]
fn arbitrage_keeps_the_exposure_limit() {
    let config = settings();
    let mut tracker = PositionTracker::new(dec(20, 0), None);
    tracker.update_exposure_cost(U256 { hi: 0, lo: 9 }, dec(5, 1), dec(3, 0)).unwrap();
    let m = info();
    let mut strategy = ArbitrageStrategy::new(dec(1, 3));
    let books = pair(dec(45, 2), dec(50, 2));
    let ctx = context(&config, Some(&m), &tracker, Some(opportunity()), at(10));
    // 20 shares of each at 0.45 and 0.5.
    assert_eq!(
        reason(&strategy.on_book_update(&books, &ctx).unwrap()),
        "Risk limit | exposure:1.50 order:19.00 limit:20.00"
    );
    let mut small = settings();
    small.max_order_size_usdc = dec(10, 0);
    let ctx = context(&small, Some(&m), &tracker, Some(opportunity()), at(10));
    assert!(matches!(
        strategy.on_book_update(&books, &ctx).unwrap()[0],
        Action::PlaceArbPair { .. }
    ));
}

#[test]
fn arbitrage_leaves_uneven_pairs() {
    let config = settings();
    let tracker = PositionTracker::new(dec(1000, 0), None);
    let m = info();
    let mut strategy = ArbitrageStrategy::new(dec(1, 3));
    let mut ctx = context(&config, Some(&m), &tracker, Some(opportunity()), at(10));
    ctx.pair_unbalanced = true;
    assert_eq!(
        reason(&strategy.on_book_update(&pair(dec(45, 2), dec(50, 2)), &ctx).unwrap()),
        "Position unbalanced | btc prediction market"
    );
    ctx.pair_unbalanced = false;
    assert!(strategy.decide(&pair(dec(45, 2), dec(50, 2)), &ctx, None).is_none());
}

#[test]
fn trading_modes() {
    assert_eq!(TradingMode::parse("  MM \n"), TradingMode::MarketMaker);
    assert_eq!(TradingMode::parse("market_maker"), TradingMode::MarketMaker);
    assert_eq!(TradingMode::parse("MarketMaker"), TradingMode::MarketMaker);
    assert_eq!(TradingMode::parse("hybrid"), TradingMode::Hybrid);
    assert_eq!(TradingMode::parse("arb"), TradingMode::Arb);
    assert_eq!(TradingMode::parse("apex"), TradingMode::Arb);
    assert_eq!(TradingMode::Arb.text(), "arb");
    assert_eq!(TradingMode::MarketMaker.text(), "mm");
    assert_eq!(TradingMode::Hybrid.text(), "hybrid");
    assert_eq!(TradingMode::ApexMarketMaker.text(), "apex_mm");
}

#[test]
fn the_runner_hands_on() {
    let config = settings();
    let tracker = PositionTracker::new(dec(1000, 0), None);
    let m = info();
    let mut arb = StrategyRunner::Arb(ArbitrageStrategy::new(dec(1, 3)));
    let mut maker = StrategyRunner::MarketMaker(MarketMakerStrategy::new(MmConfig::default()));
    assert_eq!((arb.name(), maker.name()), ("arbitrage", "market_maker"));
    arb.on_window_start(at(0));
    maker.on_window_start(at(0));
    let books = pair(dec(45, 2), dec(50, 2));
    let ctx = context(&config, Some(&m), &tracker, Some(opportunity()), at(10));
    assert!(matches!(
        arb.on_book_update(&books, &ctx).unwrap()[0],
        Action::PlaceArbPair { .. }
    ));
    assert_eq!(posts(&maker.on_book_update(&books, &ctx).unwrap()).len(), 2);
}

#[test]
fn skip_reasons_carry_their_numbers() {
    let r = SkipReason::TooLate { secs_remaining: -3, min: 10 };
    assert_eq!(r.text(), "-3s remaining < 10s min");
}

#[test]
fn spans_of_time() {
    assert_eq!(elapsed_nanos(5, 7), 0);
    assert_eq!(elapsed_millis(3_999_999, 1_000_000), 2);
    assert_eq!(seconds_between(-1_500_000_000, 0), -1);
    assert_eq!(seconds_between(1_999_999_999, 0), 1);
    assert_eq!(seconds_between(i64::MAX, i64::MIN), 18_446_744_073);
}

#[test]
fn cancelling_in_one_market_clears_the_others() {
    let config = settings();
    let tracker = PositionTracker::new(dec(1000, 0), None);
    let m = info();
    let mut strategy = MarketMakerStrategy::new(MmConfig::default());
    strategy.on_window_start(at(0));
    let here = pair(dec(60, 2), dec(60, 2));
    let there = OrderBookPair { market_id: B256 { hi: 0, lo: 8 }, ..here.clone() };
    let mut look = |books: &OrderBookPair, secs: u64| {
        let ctx = context(&config, Some(&m), &tracker, None, at(secs));
        matches!(strategy.on_book_update(books, &ctx).unwrap()[0], Action::CancelAll)
    };
    assert!(!look(&here, 1));
    assert!(!look(&there, 3));
    assert!(look(&here, 5));
    // The quotes of the other market went with it.
    assert!(!look(&there, 7));
    assert!(look(&there, 9));
}

#[test]
fn nothing_is_quoted_without_the_tokens() {
    let config = settings();
    let tracker = PositionTracker::new(dec(1000, 0), None);
    let mut strategy = MarketMakerStrategy::new(MmConfig::default());
    strategy.on_window_start(at(0));
    let ctx = context(&config, None, &tracker, None, at(1));
    assert!(strategy.on_book_update(&pair(dec(60, 2), dec(60, 2)), &ctx).unwrap().is_empty());
}
