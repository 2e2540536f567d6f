//! Merging, winding down, and one window of trading.
use poly_5min_bot::config::{Config, Environment};
use poly_5min_bot::decimal::Decimal;
use poly_5min_bot::engine::{
    begin_window, check_key, find_market, judge_key, market_display, merge_plan, strategy_for,
    Engine, MergePlan, Surroundings, WindDownCall,
};
use poly_5min_bot::market::MarketInfo;
use poly_5min_bot::merge::{
    book_merge, condition_ids_with_both_sides, merge_info_with_both_sides, MergeAction, MergeInfo,
    MergeTask,
};
use poly_5min_bot::monitor::{ArbitrageOpportunity, BookUpdate, Level, OrderBookPair};
use poly_5min_bot::positions::Position;
use poly_5min_bot::risk::positions::PositionTracker;
use poly_5min_bot::strategy::{Action, TradingMode};
use poly_5min_bot::time::Now;
use poly_5min_bot::types::{Address, B256, U256};
use poly_5min_bot::wind_down::{is_due, sell_orders, WindDown, WindDownAction};

fn dec(num: i64, scale: u32) -> Decimal {
    Decimal::new(num, scale)
}

fn token(n: u128) -> U256 {
    U256 { hi: 0, lo: n }
}

fn id(n: u128) -> B256 {
    B256 { hi: 0, lo: n }
}

fn at(secs: i64) -> Now {
    Now { instant: (secs as u64) * 1_000_000_000, utc: secs * 1_000_000_000 }
}

fn position(n: u128, condition: u128, outcome: i32, size: Decimal) -> Position {
    Position {
        asset: token(n),
        condition_id: id(condition),
        outcome_index: outcome,
        size,
        title: "t".to_string(),
    }
}

fn settings() -> Config {
    Config::from_env(&Environment { vars: Vec::new() })
}

#[test]
fn both_ways_of_numbering_merge() {
    let positions = vec![
        position(1, 10, 0, dec(5, 0)),
        position(2, 10, 1, dec(3, 0)),
        position(3, 20, 1, dec(4, 0)),
        position(4, 20, 2, dec(6, 0)),
        position(5, 30, 0, dec(1, 0)),
        position(6, 40, 0, dec(1, 0)),
        position(7, 40, 2, dec(1, 0)),
        position(8, 50, 0, dec(1, 0)),
        position(9, 50, 1, dec(0, 0)),
    ];
    assert_eq!(condition_ids_with_both_sides(&positions), [id(10), id(20)]);
    let infos = merge_info_with_both_sides(&positions);
    assert_eq!(infos.len(), 2);
    assert_eq!((infos[0].yes_token, infos[0].no_token), (token(1), token(2)));
    assert!(infos[0].amount == dec(3, 0));
    assert_eq!((infos[1].yes_token, infos[1].no_token), (token(3), token(4)));
    assert!(infos[1].amount == dec(4, 0));
}

#[test]
fn all_three_outcomes_merge_the_last_two() {
    let infos = merge_info_with_both_sides(&vec![
        position(1, 10, 0, dec(5, 0)),
        position(2, 10, 1, dec(3, 0)),
        position(3, 10, 2, dec(4, 0)),
        position(4, 10, 1, dec(2, 0)),
    ]);
    assert_eq!((infos[0].yes_token, infos[0].no_token), (token(4), token(3)));
    assert!(infos[0].amount == dec(2, 0));
    assert!(merge_info_with_both_sides(&Vec::new()).is_empty());
}

fn holding() -> PositionTracker {
    let mut t = PositionTracker::new(dec(100, 0), None);
    for n in [1, 2] {
        t.update_position(token(n), dec(4, 0)).unwrap();
        t.update_exposure_cost(token(n), dec(5, 1), dec(4, 0)).unwrap();
    }
    t
}

#[test]
fn a_merge_takes_both_sides_away() {
    let mut t = holding();
    let info = MergeInfo {
        condition_id: id(10),
        yes_token: token(1),
        no_token: token(2),
        amount: dec(3, 0),
    };
    book_merge(&mut t, &info).unwrap();
    assert!(t.get_position(token(1)) == dec(1, 0) && t.get_position(token(2)) == dec(1, 0));
    assert!(t.calculate_exposure().unwrap() == dec(1, 0));
}

fn two_markets() -> Vec<Position> {
    vec![
        position(1, 10, 0, dec(3, 0)),
        position(2, 10, 1, dec(3, 0)),
        position(3, 20, 0, dec(3, 0)),
        position(4, 20, 1, dec(3, 0)),
    ]
}

#[test]
fn rounds_of_merging() {
    let mut t = holding();
    let (mut task, first) = MergeTask::start(5).unwrap();
    assert_eq!(first, MergeAction::Sleep { secs: 10 });
    assert_eq!(task.on_wake(true), MergeAction::Sleep { secs: 300 });
    assert_eq!(task.on_wake(false), MergeAction::FetchPositions);
    assert_eq!(task.on_wake(false), MergeAction::Ignore);
    assert_eq!(task.on_merge(None, &mut t), (MergeAction::Ignore, true));
    assert_eq!(task.on_positions(Some(&two_markets())), MergeAction::Merge { condition_id: id(10) });
    assert_eq!(task.on_merge(None, &mut t), (MergeAction::Sleep { secs: 30 }, true));
    assert!(t.get_position(token(1)) == dec(1, 0));
    assert_eq!(task.on_wake(true), MergeAction::Merge { condition_id: id(20) });
    assert_eq!(task.on_merge(Some("no"), &mut t), (MergeAction::Sleep { secs: 300 }, true));
    assert_eq!(task.on_positions(None), MergeAction::Ignore);
    assert_eq!(task.on_wake(false), MergeAction::FetchPositions);
    assert_eq!(task.on_positions(None), MergeAction::Sleep { secs: 300 });
    assert_eq!(task.on_wake(false), MergeAction::FetchPositions);
    assert_eq!(task.on_positions(Some(&Vec::new())), MergeAction::Sleep { secs: 300 });
    assert!(MergeTask::start(u64::MAX).is_none());
}

#[test]
fn a_merge_that_came_too_fast_is_tried_once_more() {
    for words in ["HTTP 429: rate limit", "please retry in 10s"] {
        let mut t = holding();
        let (mut task, _) = MergeTask::start(1).unwrap();
        task.on_wake(false);
        task.on_positions(Some(&two_markets()));
        assert_eq!(task.on_merge(Some(words), &mut t), (MergeAction::Sleep { secs: 12 }, true));
        assert!(t.get_position(token(1)) == dec(4, 0));
        assert_eq!(task.on_wake(false), MergeAction::Merge { condition_id: id(10) });
        assert_eq!(task.on_merge(Some(words), &mut t), (MergeAction::Sleep { secs: 30 }, true));
        assert_eq!(task.on_wake(false), MergeAction::Merge { condition_id: id(20) });
    }
}

#[test]
fn when_to_wind_down() {
    let end = 300 * 1_000_000_000;
    assert_eq!(is_due(0, end, at(400)), Some(false));
    assert_eq!(is_due(1, end, at(239)), Some(false));
    assert_eq!(is_due(1, end, at(240)), Some(true));
    assert_eq!(is_due(1, end, Now { instant: 0, utc: 239_000_000_001 }), Some(true));
    assert_eq!(is_due(i64::MAX as u64, end, at(0)), None);
}

#[test]
fn whole_hundredths_are_sold() {
    let orders = sell_orders(&vec![
        position(1, 10, 0, dec(1239, 3)),
        position(2, 10, 1, dec(9, 3)),
        position(3, 20, 0, dec(-5, 0)),
        position(4, 20, 1, dec(1, 2)),
    ])
    .unwrap();
    assert_eq!(orders.len(), 2);
    assert!(orders[0].token_id == token(1) && orders[0].size == dec(123, 2));
    assert!(orders[1].token_id == token(4) && orders[1].size == dec(1, 2));
    let largest = Decimal::from_parts(79228162514264337593543950335, 0).unwrap();
    assert!(sell_orders(&vec![position(1, 10, 0, largest)]).is_none());
}

fn sleeps(action: WindDownAction) -> u64 {
    match action {
        WindDownAction::Sleep { secs } => secs,
        other => panic!("{:?}", other),
    }
}

fn merges(action: WindDownAction) -> B256 {
    match action {
        WindDownAction::Merge { condition_id } => condition_id,
        other => panic!("{:?}", other),
    }
}

#[test]
fn winding_down() {
    let mut t = holding();
    let (mut w, first) = WindDown::start(true, dec(1, 2));
    assert!(matches!(first, WindDownAction::CancelOrders));
    assert_eq!(sleeps(w.on_cancelled()), 10);
    assert!(matches!(w.on_cancelled(), WindDownAction::Ignore));
    assert!(matches!(w.on_wake(), WindDownAction::FetchPositions));
    assert_eq!(merges(w.on_positions(Some(&two_markets())).unwrap()), id(10));
    let (next, booked) = w.on_merge(true, &mut t);
    assert_eq!((sleeps(next), booked), (30, true));
    assert!(t.get_position(token(1)) == dec(1, 0));
    assert_eq!(merges(w.on_wake()), id(20));
    let (next, _) = w.on_merge(false, &mut t);
    assert_eq!(sleeps(next), 30);
    assert!(matches!(w.on_wake(), WindDownAction::FetchPositions));
    let rest = vec![position(1, 10, 0, dec(1, 0)), position(4, 20, 1, dec(2, 0))];
    match w.on_positions(Some(&rest)).unwrap() {
        WindDownAction::Sell { order, price } => {
            assert!(order.token_id == token(1) && order.size == dec(1, 0) && price == dec(1, 2));
        }
        other => panic!("{:?}", other),
    }
    assert!(matches!(w.on_sold(), WindDownAction::Sell { order, .. } if order.token_id == token(4)));
    assert!(matches!(w.on_sold(), WindDownAction::Done));
    assert!(matches!(w.on_sold(), WindDownAction::Ignore));
}

#[test]
fn winding_down_without_merges() {
    let mut t = holding();
    let start = || {
        let (mut w, _) = WindDown::start(true, dec(1, 2));
        w.on_cancelled();
        w.on_wake();
        w
    };
    let mut w = start();
    assert!(matches!(w.on_positions(None), Some(WindDownAction::FetchPositions)));
    assert!(matches!(w.on_positions(None), Some(WindDownAction::Done)));
    let mut w = start();
    assert!(matches!(w.on_positions(Some(&Vec::new())), Some(WindDownAction::FetchPositions)));
    assert!(matches!(w.on_positions(Some(&Vec::new())), Some(WindDownAction::Done)));
    let mut w = start();
    w.on_positions(Some(&two_markets()));
    w.on_merge(false, &mut t);
    w.on_wake();
    // No merge came about: there is nothing to wait for.
    assert!(matches!(w.on_merge(false, &mut t).0, WindDownAction::FetchPositions));
    let largest = Decimal::from_parts(79228162514264337593543950335, 0).unwrap();
    assert!(w.on_positions(Some(&vec![position(1, 10, 0, largest)])).is_none());
    assert!(matches!(w.on_wake(), WindDownAction::Ignore));
}

#[test]
fn winding_down_without_an_address() {
    let (mut w, _) = WindDown::start(false, dec(1, 2));
    w.on_cancelled();
    assert!(matches!(w.on_wake(), WindDownAction::Done));
}

fn book(asset: u128, ask: Option<Decimal>) -> BookUpdate {
    let level = |price| Level { price, size: dec(10, 0) };
    BookUpdate {
        asset_id: token(asset),
        bids: vec![level(dec(1, 1))],
        asks: ask.map(level).into_iter().collect(),
    }
}

fn books(yes: Option<Decimal>, no: Option<Decimal>) -> OrderBookPair {
    OrderBookPair { market_id: id(7), yes_book: book(1, yes), no_book: book(2, no) }
}

fn market(symbol: &str, title: &str) -> MarketInfo {
    MarketInfo {
        market_id: id(7),
        title: title.to_string(),
        crypto_symbol: symbol.to_string(),
        yes_token_id: token(1),
        no_token_id: token(2),
        end_date: 600_000_000_000,
    }
}

#[test]
fn arrows_follow_the_asks() {
    let mut e = Engine::new(300, at(300));
    assert_eq!(e.window_end(), 600_000_000_000);
    let mut see = |yes, no| e.directions(&books(yes, no));
    let d = |n| Some(dec(n, 2));
    assert_eq!(see(d(50), d(50)), ("", ""));
    assert_eq!(see(d(51), d(49)), ("↑", "↓"));
    assert_eq!(see(d(51), None), ("", ""));
    assert_eq!(see(d(51), d(50)), ("−", "↑"));
}

#[test]
fn markets_are_found_and_named() {
    let markets = vec![market("btc", "first"), market("", "second")];
    assert_eq!(find_market(&markets, id(7)).unwrap().title, "second");
    assert!(find_market(&markets, id(8)).is_none());
    assert_eq!(market_display(Some(&markets[0])), "btc prediction market");
    assert_eq!(market_display(Some(&markets[1])), "second");
    assert_eq!(market_display(None), "Unknown market");
}

#[test]
fn windows_end_and_wind_down_once() {
    let mut config = settings();
    let mut e = Engine::new(300, at(300));
    assert!(!e.window_over(300) && e.window_over(600));
    assert_eq!(e.wind_down_starts(&config, at(599)), Some(WindDownCall::Wait));
    config.wind_down_before_window_end_minutes = 1;
    assert_eq!(e.wind_down_starts(&config, at(539)), Some(WindDownCall::Wait));
    assert_eq!(e.wind_down_starts(&config, at(540)), Some(WindDownCall::Start));
    assert_eq!(e.wind_down_starts(&config, at(541)), Some(WindDownCall::Wait));
    assert_eq!(Engine::new(i64::MAX, at(5)).window_end(), 5_000_000_000);
}

#[test]
fn a_dry_run_only_notes_winding_down() {
    let mut config = settings();
    config.wind_down_before_window_end_minutes = 1;
    config.dry_run = true;
    let mut e = Engine::new(300, at(300));
    assert_eq!(e.wind_down_starts(&config, at(539)), Some(WindDownCall::Wait));
    assert_eq!(e.wind_down_starts(&config, at(550)), Some(WindDownCall::Note));
    assert_eq!(e.wind_down_starts(&config, at(551)), Some(WindDownCall::Wait));
    config.dry_run = false;
    assert_eq!(e.wind_down_starts(&config, at(552)), Some(WindDownCall::Wait));
}

fn opportunity() -> ArbitrageOpportunity {
    ArbitrageOpportunity {
        market_id: id(7),
        yes_token_id: token(1),
        no_token_id: token(2),
        yes_ask_price: dec(45, 2),
        no_ask_price: dec(50, 2),
        yes_size: dec(20, 0),
        no_size: dec(30, 0),
        profit_percentage: dec(5, 0),
    }
}

#[test]
fn books_reach_the_strategy() {
    let mut config = settings();
    config.wind_down_before_window_end_minutes = 1;
    let mut tracker = PositionTracker::new(dec(1000, 0), None);
    tracker.update_exposure_cost(token(1), dec(1, 0), dec(5, 0)).unwrap();
    let mut runner = begin_window(&config, &mut tracker, at(300));
    assert!(tracker.calculate_exposure().unwrap() == dec(0, 0));
    let markets = vec![market("btc", "t")];
    let mut e = Engine::new(300, at(300));
    let pair = books(Some(dec(45, 2)), Some(dec(50, 2)));
    let mut see = |e: &mut Engine, now| {
        let around = Surroundings {
            config: &config,
            markets: &markets,
            position_tracker: &tracker,
            opportunity: Some(opportunity()),
            pair_unbalanced: false,
            now,
        };
        e.on_books(&pair, &around, &mut runner).unwrap()
    };
    let answer = see(&mut e, at(310));
    assert_eq!(answer.market_display, "btc prediction market");
    assert!(matches!(&answer.actions[..], [Action::PlaceArbPair { yes_dir, .. }] if yes_dir.is_empty()));
    let answer = see(&mut e, at(320));
    assert!(matches!(&answer.actions[..], [Action::PlaceArbPair { yes_dir, .. }] if yes_dir == "−"));
    assert_eq!(e.wind_down_starts(&config, at(550)), Some(WindDownCall::Start));
    assert!(see(&mut e, at(551)).actions.is_empty());
}

#[test]
fn strategies_follow_the_mode() {
    let mut config = settings();
    assert_eq!(strategy_for(&config).name(), "arbitrage");
    config.trading_mode = TradingMode::Hybrid;
    assert_eq!(strategy_for(&config).name(), "arbitrage");
    config.trading_mode = TradingMode::MarketMaker;
    assert_eq!(strategy_for(&config).name(), "market_maker");
    config.trading_mode = TradingMode::ApexMarketMaker;
    assert_eq!(strategy_for(&config).name(), "apex_mm");
}

#[test]
fn merging_is_scheduled() {
    let mut config = settings();
    let proxy = Address { hi: 1, lo: 2 };
    assert_eq!(merge_plan(&config), MergePlan::Off);
    config.merge_interval_minutes = 5;
    assert_eq!(merge_plan(&config), MergePlan::NoAddress);
    config.proxy_address = Some(proxy);
    assert_eq!(merge_plan(&config), MergePlan::Every { minutes: 5, proxy });
}

#[test]
fn keys_are_checked() {
    let key = "0123456789abcdef0123456789abcdef0123456789abcdef0123456789abcdef";
    assert!(check_key(key, "s").is_ok());
    assert!(check_key(&format!("0x{}", key), "s").is_ok());
    assert!(check_key("xyz", "s").unwrap_err().text().starts_with("Invalid private key format: "));
    assert_eq!(
        check_key(" \n", "main").unwrap_err().text(),
        "[main] No private key configured. Set POLYMARKET_PRIVATE_KEY or use multi-wallet mode (WALLET_N_KEY)."
    );
    assert_eq!(
        judge_key("k", "s", Some("bad".to_string())).unwrap_err().text(),
        "Invalid private key format: bad"
    );
    assert!(judge_key("k", "s", None).is_ok());
}
