//! The apex market maker.
use poly_5min_bot::config::{Config, Environment};
use poly_5min_bot::decimal::Decimal;
use poly_5min_bot::market::MarketInfo;
use poly_5min_bot::monitor::{BookUpdate, Level, OrderBookPair};
use poly_5min_bot::risk::positions::PositionTracker;
use poly_5min_bot::strategy::apex::{
    book_imbalance, ApexConfig, ApexMarketMakerStrategy, ApexPhase, MarketState, ToxicityState,
};
use poly_5min_bot::strategy::fair_value::midpoint;
use poly_5min_bot::strategy::{Action, SkipReason, StrategyContext, ToxicityReason};
use poly_5min_bot::time::Now;
use poly_5min_bot::types::{B256, U256};

const SECOND: u64 = 1_000_000_000;

fn dec(num: i64, scale: u32) -> Decimal {
    Decimal::new(num, scale)
}

#[test]
fn test_phase_transitions() {
    assert_eq!(ApexPhase::from_elapsed_secs(0), ApexPhase::Early);
    assert_eq!(ApexPhase::from_elapsed_secs(59), ApexPhase::Early);
    assert_eq!(ApexPhase::from_elapsed_secs(60), ApexPhase::Adaptive);
    assert_eq!(ApexPhase::from_elapsed_secs(179), ApexPhase::Adaptive);
    assert_eq!(ApexPhase::from_elapsed_secs(180), ApexPhase::Cleanup);
    assert_eq!(ApexPhase::from_elapsed_secs(239), ApexPhase::Cleanup);
    assert_eq!(ApexPhase::from_elapsed_secs(240), ApexPhase::Resolution);
}

#[test]
fn test_toxicity_burst_protection() {
    let config = ApexConfig::default();
    let mut state = MarketState::default();
    let now = 100 * SECOND;
    for _ in 0..10 {
        state.record_quote(true, dec(1, 0), now).unwrap();
    }
    state.update_toxicity(&config, None, now).unwrap();
    assert_eq!(state.toxicity, ToxicityState::Normal, "Should not be toxic from a single rapid burst");
}

#[test]
fn test_toxicity_caution_threshold_not_too_low() {
    let config = ApexConfig::default();
    let mut state = MarketState::default();
    let now = 100 * SECOND;
    state.recent_quotes.push(now);
    state.recent_quotes.push(now);
    state.update_toxicity(&config, None, now).unwrap();
    assert_eq!(state.toxicity, ToxicityState::Normal);
}

#[test]
fn test_toxicity_normal_requote_cadence_not_flagged() {
    let config = ApexConfig::default();
    let mut state = MarketState::default();
    let now = 100 * SECOND;
    state.recent_quotes =
        vec![now - 8 * SECOND, now - 6 * SECOND, now - 4 * SECOND, now - 2 * SECOND, now];
    state.update_toxicity(&config, None, now).unwrap();
    assert_eq!(state.toxicity, ToxicityState::Normal);
}

#[test]
fn test_toxicity_imbalance_shift() {
    let config = ApexConfig::default();
    let mut state = MarketState::default();
    state.update_toxicity(&config, Some(dec(0, 1)), SECOND).unwrap();
    state.update_toxicity(&config, Some(dec(4, 1)), SECOND).unwrap();
    assert_eq!(state.toxicity, ToxicityState::Toxic);
    assert!(state.toxicity_reason.text().contains("OB Imbalance shift"));
}

#[test]
fn test_inventory_skew_direction() {
    let mut state = MarketState::default();
    state.record_quote(true, dec(10, 0), SECOND).unwrap();
    assert!(state.net_inventory().unwrap() == dec(10, 0));
    state.record_quote(false, dec(5, 0), SECOND).unwrap();
    assert!(state.net_inventory().unwrap() == dec(5, 0));
}

/// The YES price around which is bid at a fair value of one half and an inventory factor of 0.05.
fn reservation(yes_held: Decimal, no_held: Decimal) -> Decimal {
    let config = ApexConfig { inventory_gamma: dec(5, 2), ..ApexConfig::default() };
    let mut state = MarketState::default();
    state.yes_held = yes_held;
    state.no_held = no_held;
    state.reservation_prices(&config, dec(5, 1), dec(5, 1)).unwrap().0
}

#[test]
fn test_reservation_price_skew() {
    // Neutral.
    assert!(reservation(dec(0, 0), dec(0, 0)) == dec(5, 1));
    // YES heavy: 0.5 - 0.05 * 10 = 0.
    assert!(reservation(dec(10, 0), dec(0, 0)) == dec(0, 1));
    // NO heavy: 0.5 - 0.05 * (-10) = 1.
    assert!(reservation(dec(0, 0), dec(10, 0)) == dec(10, 1));
}

#[test]
fn bids_are_a_cent_at_the_least() {
    let config = ApexConfig { base_spread: dec(0, 0), ..ApexConfig::default() };
    let mut state = MarketState::default();
    state.yes_held = dec(10, 0);
    let (yes_bid, no_bid, _, _) =
        state.calculate_quotes(&config, ApexPhase::Adaptive, dec(5, 1), dec(5, 1)).unwrap();
    assert!(yes_bid == dec(1, 2) && no_bid == dec(1, 0));
    let (yes, no) = state.reservation_prices(&config, dec(5, 1), dec(5, 1)).unwrap();
    assert!(yes == dec(0, 0) && no == dec(1, 0));
}

#[test]
fn test_resolution_flattening() {
    let config = ApexConfig::default();
    let mut state = MarketState::default();
    state.yes_held = dec(10, 0);
    state.no_held = dec(0, 0);
    let (_yes_bid, no_bid, can_bid_yes, can_bid_no) =
        state.calculate_quotes(&config, ApexPhase::Resolution, dec(5, 1), dec(5, 1)).unwrap();
    assert!(!can_bid_yes, "Should disable YES bidding when heavily YES heavy");
    assert!(can_bid_no, "Should allow NO bidding");
    assert!(no_bid > dec(4, 1), "Should have aggressive NO bid prices");
    // 0.5 + 0.5 - 0.06 + 0.02 is above the cap half a cent below the fair value.
    assert!(no_bid == dec(495, 3));
}

#[test]
fn test_inventory_reservation_logic() {
    let config = ApexConfig::default();
    let mut state = MarketState::default();
    state.yes_held = dec(5, 0);
    state.no_held = dec(0, 0);
    let (yes_bid_heavy, _no_bid_heavy, _, _) =
        state.calculate_quotes(&config, ApexPhase::Adaptive, dec(5, 1), dec(5, 1)).unwrap();
    state.yes_held = dec(0, 0);
    let (yes_bid_neutral, _, _, _) =
        state.calculate_quotes(&config, ApexPhase::Adaptive, dec(5, 1), dec(5, 1)).unwrap();
    assert!(
        yes_bid_heavy < yes_bid_neutral,
        "Reservation price should lower YES bid when YES heavy"
    );
    assert!(yes_bid_neutral == dec(47, 2));
    assert!(yes_bid_heavy == dec(22, 2));
}

#[test]
fn test_quote_safety_invariant_dual_side() {
    let safe = MarketState::is_safe_pair_quote;
    assert!(!safe(dec(495, 3), dec(495, 3), true, true).unwrap());
    assert!(safe(dec(495, 3), dec(495, 3), true, false).unwrap());
    assert!(safe(dec(495, 3), dec(495, 3), false, true).unwrap());
    assert!(safe(dec(47, 2), dec(47, 2), true, true).unwrap());
}

#[test]
fn spread_multipliers() {
    assert!(ApexPhase::Early.spread_multiplier() == dec(15, 1));
    assert!(ApexPhase::Adaptive.spread_multiplier() == dec(1, 0));
    assert!(ApexPhase::Cleanup.spread_multiplier() == dec(12, 1));
    assert!(ApexPhase::Resolution.spread_multiplier() == dec(2, 0));
    assert!(ToxicityState::Normal.spread_multiplier() == dec(1, 0));
    assert!(ToxicityState::Caution.spread_multiplier() == dec(15, 1));
    assert!(ToxicityState::Toxic.spread_multiplier() == dec(3, 0));
}

#[test]
fn rapid_requotes_are_toxic_and_nearly_so_cautious() {
    let config = ApexConfig::default();
    let now = 100 * SECOND;
    let gap = SECOND * 14 / 10;
    let mut state = MarketState::default();
    state.recent_quotes = (0..5).map(|i| now - 6 * SECOND + i * gap).collect();
    state.update_toxicity(&config, None, now).unwrap();
    assert_eq!(state.toxicity, ToxicityState::Toxic);
    assert_eq!(state.toxicity_reason.text(), "High velocity: 5 quotes/10s (min gap: 1400ms)");
    state.recent_quotes = (0..4).map(|i| now - 6 * SECOND + i * gap).collect();
    state.update_toxicity(&config, None, now).unwrap();
    assert_eq!(state.toxicity, ToxicityState::Caution);
    assert_eq!(state.toxicity_reason.text(), "Moderate velocity: 4 quotes/10s (min gap: 1400ms)");
}

#[test]
fn quotes_older_than_ten_seconds_are_forgotten() {
    let config = ApexConfig::default();
    let mut state = MarketState::default();
    state.recent_quotes = vec![SECOND, 2 * SECOND, 11 * SECOND];
    state.update_toxicity(&config, None, 11 * SECOND).unwrap();
    assert_eq!(state.recent_quotes, vec![2 * SECOND, 11 * SECOND]);
}

#[test]
fn imbalance_drift_is_cautious_and_small_moves_are_normal() {
    let config = ApexConfig::default();
    let mut state = MarketState::default();
    state.update_toxicity(&config, Some(dec(0, 0)), SECOND).unwrap();
    assert_eq!(state.toxicity_reason.text(), "Normal");
    state.update_toxicity(&config, Some(dec(-15, 2)), SECOND).unwrap();
    assert_eq!(state.toxicity, ToxicityState::Caution);
    assert_eq!(state.toxicity_reason.text(), "OB Imbalance drift: 0.00 -> -0.15");
    state.update_toxicity(&config, Some(dec(-1, 2)), SECOND).unwrap();
    assert_eq!(state.toxicity, ToxicityState::Normal);
    assert_eq!(MarketState::default().toxicity_reason.text(), "None");
}

#[test]
fn requotes_half_a_second_apart_count_on_their_own() {
    let mut state = MarketState::default();
    state.record_quote(true, dec(1, 0), SECOND).unwrap();
    state.record_quote(true, dec(1, 0), SECOND + 500_999_999).unwrap();
    assert_eq!(state.recent_quotes.len(), 1);
    state.record_quote(false, dec(1, 0), SECOND + 501_000_000).unwrap();
    assert_eq!(state.recent_quotes.len(), 2);
    assert!(state.yes_held == dec(2, 0) && state.no_held == dec(1, 0));
}

#[test]
fn cleanup_and_resolution_prices() {
    let config = ApexConfig::default();
    let mut state = MarketState::default();
    state.yes_held = dec(3, 0);
    let quotes = |s: &MarketState, phase| s.calculate_quotes(&config, phase, dec(5, 1), dec(5, 1)).unwrap();
    // 0.5 - 0.15 - 0.03 * 1.2 * 0.8
    assert!(quotes(&state, ApexPhase::Cleanup).0 == dec(3212, 4));
    // 0.5 - 0.15 - 0.06 - 0.03
    assert!(quotes(&state, ApexPhase::Resolution).0 == dec(26, 2));
    state.yes_held = dec(0, 0);
    state.no_held = dec(3, 0);
    assert!(quotes(&state, ApexPhase::Resolution).1 == dec(26, 2));
    state.no_held = dec(6, 0);
    let (yes_bid, _, can_yes, can_no) = quotes(&state, ApexPhase::Resolution);
    assert!(yes_bid == dec(495, 3) && can_yes && !can_no);
}

fn level(price: Decimal, size: Decimal) -> Level {
    Level { price, size }
}

fn book(asset: u128, bids: Vec<Level>, asks: Vec<Level>) -> BookUpdate {
    BookUpdate { asset_id: U256 { hi: 0, lo: asset }, bids, asks }
}

fn market(n: u128) -> B256 {
    B256 { hi: 0, lo: n }
}

fn even_pair(n: u128) -> OrderBookPair {
    let side = |asset| {
        book(asset, vec![level(dec(49, 2), dec(10, 0))], vec![level(dec(51, 2), dec(10, 0))])
    };
    OrderBookPair { market_id: market(n), yes_book: side(1), no_book: side(2) }
}

fn info(n: u128) -> MarketInfo {
    MarketInfo {
        market_id: market(n),
        title: "Bitcoin up or down".to_string(),
        crypto_symbol: "btc".to_string(),
        yes_token_id: U256 { hi: 0, lo: 1 },
        no_token_id: U256 { hi: 0, lo: 2 },
        end_date: 300 * SECOND as i64,
    }
}

fn at(secs: u64) -> Now {
    Now { instant: secs * SECOND, utc: (secs * SECOND) as i64 }
}

fn look(
    strategy: &mut ApexMarketMakerStrategy,
    pair: &OrderBookPair,
    info: Option<&MarketInfo>,
    now: Now,
) -> Vec<Action> {
    let config = Config::from_env(&Environment { vars: Vec::new() });
    let tracker = PositionTracker::new(dec(1000, 0), None);
    let ctx = StrategyContext {
        config: &config,
        market_info: info,
        market_display: "btc",
        position_tracker: &tracker,
        opportunity: None,
        pair_unbalanced: false,
        window_end: 300 * SECOND as i64,
        yes_dir: "",
        no_dir: "",
        now,
    };
    strategy.on_book_update(pair, &ctx).unwrap()
}

fn reason(actions: &Vec<Action>) -> String {
    match &actions[actions.len() - 1] {
        Action::Skip { reason } => reason.text(),
        other => panic!("no skip: {:?}", other),
    }
}

fn posts(actions: &Vec<Action>) -> Vec<(u128, Decimal, Decimal)> {
    actions
        .iter()
        .filter_map(|a| match a {
            Action::PostLimitOrder { token_id, price, size } => Some((token_id.lo, *price, *size)),
            _ => None,
        })
        .collect()
}

#[test]
fn quotes_both_sides_and_requotes_after_two_seconds() {
    let mut strategy = ApexMarketMakerStrategy::new(ApexConfig::default());
    assert_eq!(strategy.name(), "apex_mm");
    let m = info(7);
    assert_eq!(reason(&look(&mut strategy, &even_pair(7), Some(&m), at(0))), "Window not started");
    strategy.on_window_start(at(0));
    let first = look(&mut strategy, &even_pair(7), Some(&m), at(1));
    let orders = posts(&first);
    assert_eq!(orders.len(), 2);
    assert_eq!((orders[0].0, orders[1].0), (1, 2));
    // 0.5 less 0.03 times the early multiplier of 1.5, twice.
    assert!(orders[0].1 == dec(455, 3) && orders[1].1 == dec(455, 3));
    assert!(orders[0].2 == dec(1, 0));
    assert!(look(&mut strategy, &even_pair(7), Some(&m), at(2)).is_empty());
    let second = look(&mut strategy, &even_pair(7), Some(&m), at(3));
    assert!(matches!(second[0], Action::CancelAll));
    assert_eq!(posts(&second).len(), 2);
}

#[test]
fn cancelling_one_market_cancels_all() {
    let mut strategy = ApexMarketMakerStrategy::new(ApexConfig::default());
    strategy.on_window_start(at(0));
    look(&mut strategy, &even_pair(7), Some(&info(7)), at(1));
    look(&mut strategy, &even_pair(8), Some(&info(8)), at(3));
    let third = look(&mut strategy, &even_pair(7), Some(&info(7)), at(5));
    assert!(matches!(third[0], Action::CancelAll));
    let fourth = look(&mut strategy, &even_pair(8), Some(&info(8)), at(7));
    assert_eq!(posts(&fourth).len(), 2);
    assert_eq!(fourth.len(), 2);
}

#[test]
fn a_new_window_forgets_everything() {
    let mut strategy = ApexMarketMakerStrategy::new(ApexConfig::default());
    strategy.on_window_start(at(0));
    look(&mut strategy, &even_pair(7), Some(&info(7)), at(1));
    strategy.on_window_start(at(1));
    let again = look(&mut strategy, &even_pair(7), Some(&info(7)), at(1));
    assert_eq!(again.len(), 2);
    assert_eq!(posts(&again).len(), 2);
}

#[test]
fn nothing_is_quoted_near_the_end() {
    let mut strategy = ApexMarketMakerStrategy::new(ApexConfig::default());
    strategy.on_window_start(at(0));
    assert_eq!(
        reason(&look(&mut strategy, &even_pair(7), Some(&info(7)), at(291))),
        "9s remaining < 10s min"
    );
    assert_eq!(posts(&look(&mut strategy, &even_pair(7), Some(&info(7)), at(290))).len(), 2);
}

#[test]
fn incomplete_and_worthless_books_are_skipped() {
    let mut strategy = ApexMarketMakerStrategy::new(ApexConfig::default());
    strategy.on_window_start(at(0));
    let mut pair = even_pair(7);
    pair.no_book = book(2, Vec::new(), Vec::new());
    assert_eq!(reason(&look(&mut strategy, &pair, Some(&info(7)), at(1))), "Incomplete book data");
    let zero = || vec![level(dec(0, 0), dec(1, 0))];
    pair.yes_book = book(1, zero(), zero());
    pair.no_book = book(2, zero(), Vec::new());
    assert_eq!(reason(&look(&mut strategy, &pair, Some(&info(7)), at(3))), "Zero midpoint sum");
}

#[test]
fn a_shift_of_the_book_cancels_and_skips() {
    let mut strategy = ApexMarketMakerStrategy::new(ApexConfig::default());
    strategy.on_window_start(at(0));
    look(&mut strategy, &even_pair(7), Some(&info(7)), at(1));
    let mut pair = even_pair(7);
    pair.yes_book.bids[0].size = dec(30, 0);
    let actions = look(&mut strategy, &pair, Some(&info(7)), at(3));
    assert!(matches!(actions[0], Action::CancelAll));
    assert_eq!(reason(&actions), "Toxic: OB Imbalance shift: 0.00 -> 0.50");
    assert!(posts(&actions).is_empty());
    pair.yes_book.bids[0].size = dec(200, 0);
    assert_eq!(
        reason(&look(&mut strategy, &pair, Some(&info(7)), at(5))),
        "Toxic: OB Imbalance shift: 0.50 -> 0.90"
    );
}

#[test]
fn tight_bids_on_both_sides_are_unsafe() {
    let config = ApexConfig { base_spread: dec(0, 0), ..ApexConfig::default() };
    let mut strategy = ApexMarketMakerStrategy::new(config);
    strategy.on_window_start(at(0));
    assert_eq!(
        reason(&look(&mut strategy, &even_pair(7), Some(&info(7)), at(1))),
        "Unsafe dual-side bid sum: 1.0000 (>= 0.99)"
    );
}

#[test]
fn full_sides_are_not_quoted() {
    let config = ApexConfig { max_position_per_side: dec(1, 0), ..ApexConfig::default() };
    let mut strategy = ApexMarketMakerStrategy::new(config);
    strategy.on_window_start(at(0));
    assert_eq!(posts(&look(&mut strategy, &even_pair(7), Some(&info(7)), at(1))).len(), 2);
    let actions = look(&mut strategy, &even_pair(7), Some(&info(7)), at(3));
    assert_eq!(reason(&actions), "Limits/Resolution reached | YES:1 NO:1 | inv:0");
    assert!(matches!(
        &actions[0],
        Action::Skip { reason: SkipReason::NoSideLeft { .. } }
    ));
}

#[test]
fn a_full_side_is_not_quoted_whatever_the_size() {
    for size in [dec(0, 0), dec(-1, 0), Decimal::from_parts(1, 28).unwrap()] {
        let config = ApexConfig { quote_size: size, ..ApexConfig::default() };
        let mut state = MarketState::default();
        state.yes_held = dec(10, 0);
        state.no_held = dec(10, 0);
        let (_, _, can_yes, can_no) =
            state.calculate_quotes(&config, ApexPhase::Adaptive, dec(5, 1), dec(5, 1)).unwrap();
        assert!(!can_yes && !can_no);
    }
}

#[test]
fn apex_quotes_stay_under_the_cap() {
    let config = ApexConfig {
        max_position_per_side: dec(5, 0),
        quote_size: dec(2, 0),
        ..ApexConfig::default()
    };
    let mut strategy = ApexMarketMakerStrategy::new(config);
    strategy.on_window_start(at(0));
    assert_eq!(posts(&look(&mut strategy, &even_pair(7), Some(&info(7)), at(1))).len(), 2);
    assert_eq!(posts(&look(&mut strategy, &even_pair(7), Some(&info(7)), at(5))).len(), 2);
    // Four are held, and two more would be six.
    assert_eq!(
        reason(&look(&mut strategy, &even_pair(7), Some(&info(7)), at(9))),
        "Limits/Resolution reached | YES:4 NO:4 | inv:0"
    );
}

#[test]
fn unknown_tokens_are_not_quoted() {
    let mut strategy = ApexMarketMakerStrategy::new(ApexConfig::default());
    strategy.on_window_start(at(0));
    assert!(look(&mut strategy, &even_pair(7), None, at(1)).is_empty());
}

#[test]
fn out_of_range_books_change_nothing() {
    let mut strategy = ApexMarketMakerStrategy::new(ApexConfig::default());
    strategy.on_window_start(at(0));
    let mut pair = even_pair(7);
    let max = Decimal::from_parts(79228162514264337593543950335, 0).unwrap();
    pair.yes_book.bids[0].price = max;
    pair.yes_book.asks[0].price = max;
    let config = Config::from_env(&Environment { vars: Vec::new() });
    let tracker = PositionTracker::new(dec(1000, 0), None);
    let m = info(7);
    let ctx = StrategyContext {
        config: &config,
        market_info: Some(&m),
        market_display: "btc",
        position_tracker: &tracker,
        opportunity: None,
        pair_unbalanced: false,
        window_end: 300 * SECOND as i64,
        yes_dir: "",
        no_dir: "",
        now: at(1),
    };
    assert!(strategy.on_book_update(&pair, &ctx).is_none());
    assert_eq!(posts(&look(&mut strategy, &even_pair(7), Some(&m), at(1))).len(), 2);
}

#[test]
fn midpoints_and_imbalances() {
    let b = book(
        1,
        vec![level(dec(48, 2), dec(1, 0)), level(dec(47, 2), dec(2, 0)), level(dec(46, 2), dec(3, 0)), level(dec(45, 2), dec(100, 0))],
        vec![level(dec(55, 2), dec(100, 0)), level(dec(52, 2), dec(1, 0)), level(dec(51, 2), dec(0, 0)), level(dec(50, 2), dec(1, 0))],
    );
    assert!(midpoint(&b).unwrap().unwrap() == dec(49, 2));
    // (6 - 2) / 8
    assert!(book_imbalance(&b).unwrap().unwrap() == dec(5, 1));
    let one_sided = book(1, vec![level(dec(48, 2), dec(1, 0))], Vec::new());
    assert!(midpoint(&one_sided).unwrap().unwrap() == dec(48, 2));
    let empty = book(1, Vec::new(), Vec::new());
    assert!(midpoint(&empty).unwrap().is_none());
    assert!(book_imbalance(&empty).unwrap().is_none());
}

#[test]
fn default_settings() {
    let c = ApexConfig::default();
    assert!(c.base_spread == dec(3, 2) && c.inventory_gamma == dec(5, 2));
    assert!(c.max_position_per_side == dec(10, 0) && c.quote_size == dec(1, 0));
    assert_eq!((c.min_seconds_to_quote, c.toxicity_quote_threshold), (10, 5));
    assert!(c.toxicity_imbalance_threshold == dec(3, 1));
    assert_eq!(ToxicityReason::Unjudged::<Decimal>.text(), "None");
}
