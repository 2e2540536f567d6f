//! What is reported of books, positions and orders.
use poly_5min_bot::config::OrderType;
use poly_5min_bot::decimal::Decimal;
use poly_5min_bot::monitor::{ArbitrageOpportunity, BookUpdate, Level, OrderBookPair};
use poly_5min_bot::positions::Position;
use poly_5min_bot::reports::{
    batch_failure_line, book_line, level_line, order_line, position_lines, refusal_line, settlement_reports, step_reports, time_line, Severity,
    Timing,
};
use poly_5min_bot::risk::positions::PositionTracker;
use poly_5min_bot::risk::recovery::{recovery_note, RecoveryAction};
use poly_5min_bot::strategy::action_executor::{pair_registration, ActionExecutor};
use poly_5min_bot::strategy::{Action, SkipReason};
use poly_5min_bot::text::full_text;
use poly_5min_bot::trading::executor::{OrderPairResult, PairPlan, PairQuote, PostResult, TradingExecutor};
use poly_5min_bot::types::{B256, U256};

fn dec(num: i64, scale: u32) -> Decimal {
    Decimal::new(num, scale)
}

fn token(n: u128) -> U256 {
    U256 { hi: 0, lo: n }
}

fn largest() -> Decimal {
    Decimal::from_parts(79228162514264337593543950335, 0).unwrap()
}

fn book(asks: &[(Decimal, Decimal)]) -> BookUpdate {
    BookUpdate {
        asset_id: token(1),
        bids: Vec::new(),
        asks: asks.iter().map(|(price, size)| Level { price: *price, size: *size }).collect(),
    }
}

fn pair(yes: &[(Decimal, Decimal)], no: &[(Decimal, Decimal)]) -> OrderBookPair {
    OrderBookPair { market_id: B256 { hi: 0, lo: 7 }, yes_book: book(yes), no_book: book(no) }
}

#[test]
fn books_in_words() {
    let cheap = pair(&[(dec(9, 1), dec(1, 0)), (dec(45, 2), dec(200, 1))], &[(dec(5, 1), dec(3, 0))]);
    assert_eq!(
        book_line(&cheap, "btc", "↑", "").unwrap(),
        "🚨Arbitrage opportunity btc | Yes:0.4500 size:20.0 ↑ | No:0.5000 size:3 | total:0.9500 profit:5.00%"
    );
    let dear = pair(&[(dec(5, 1), dec(1, 0))], &[(dec(5, 1), dec(2, 0))]);
    assert_eq!(
        book_line(&dear, "btc", "↑", "↓").unwrap(),
        "📊 btc | Yes:0.5000 size:1 | No:0.5000 size:2 | total:1.0000 (no arbitrage)"
    );
    assert_eq!(
        book_line(&pair(&[], &[(dec(5, 1), dec(2, 0))]), "btc", "", "").unwrap(),
        "📊 btc | Yes:none | No:0.5000 size:2 | no data"
    );
    let wide = pair(&[(largest(), dec(1, 0))], &[(largest(), dec(1, 0))]);
    assert!(book_line(&wide, "btc", "", "").is_none());
}

fn position(condition: u128, outcome: i32, size: Decimal, title: &str) -> Position {
    Position {
        asset: token(1),
        condition_id: B256 { hi: 0, lo: condition },
        outcome_index: outcome,
        size,
        title: title.to_string(),
    }
}

#[test]
fn positions_in_words() {
    assert_eq!(position_lines(&Vec::new()).unwrap(), ["📊 Position sync completed | No current positions"]);
    let long = "a".repeat(41);
    let held = vec![
        position(2, 0, dec(15, 1), ""),
        position(1, 1, dec(3, 0), &long),
        position(2, 1, dec(4, 0), "two"),
        position(2, 0, dec(250, 2), "other"),
        position(2, 2, dec(9, 0), "other"),
    ];
    assert_eq!(
        position_lines(&held).unwrap(),
        [
            "📊 Position sync completed | Total 5 positions, 2 markets".to_string(),
            "  📈 two | YES:2.50 NO:4".to_string(),
            format!("  📈 {}... | YES:0 NO:3", "a".repeat(37)),
        ]
    );
    let forty = "é".repeat(20);
    assert_eq!(position_lines(&vec![position(1, 5, dec(1, 0), &forty)]).unwrap()[1], format!("  📈 {} | YES:0 NO:0", forty));
    // The thirty-seventh byte lies within a character.
    assert!(position_lines(&vec![position(1, 0, dec(1, 0), &"é".repeat(21))]).is_none());
}

fn opportunity() -> ArbitrageOpportunity {
    ArbitrageOpportunity {
        market_id: B256 { hi: 0, lo: 7 },
        yes_token_id: token(1),
        no_token_id: token(2),
        yes_ask_price: dec(45, 2),
        no_ask_price: dec(5, 1),
        yes_size: dec(20, 0),
        no_size: dec(30, 0),
        profit_percentage: dec(5, 0),
    }
}

fn plan(order_type: OrderType, yes_first: bool) -> PairPlan {
    PairPlan {
        pair_id: "01234567-89ab".to_string(),
        yes_token_id: token(1),
        no_token_id: token(2),
        yes_price: dec(46, 2),
        no_price: dec(51, 2),
        size: dec(200, 1),
        order_type,
        expiration: None,
        yes_first,
    }
}

#[test]
fn orders_in_words() {
    let quote = PairQuote { yes_price: dec(46, 2), no_price: dec(51, 2), size: dec(200, 1) };
    assert_eq!(level_line(&quote), "📋 Level | YES 0.4600×20.00 NO 0.5100×20.00");
    assert_eq!(
        order_line(&opportunity(), &quote, OrderType::GTC, 300),
        "📤 Order | YES 0.4500→0.4600×20.0 NO 0.5000→0.5100×20.0 | GTC"
    );
    assert_eq!(
        order_line(&opportunity(), &quote, OrderType::GTD, 300),
        "📤 Order | YES 0.4500→0.4600×20.0 NO 0.5000→0.5100×20.0 | GTD | GTD 300s"
    );
    assert_eq!(
        refusal_line(dec(999, 3), dec(2, 0)),
        "⏭️ Skip order | YES amount:0.99 USD NO amount:2.00 USD | Both sides must be > $1"
    );
}

#[test]
fn bids_keep_their_decimal_places() {
    let trading = TradingExecutor::new(dec(100, 0), [dec(0, 0), dec(10, 3)], 300, OrderType::GTC);
    let quote = trading.quote_pair(&opportunity(), "↑", "↓").unwrap();
    assert_eq!(full_text(quote.yes_price), "0.45");
    assert_eq!(full_text(quote.no_price), "0.510");
    let steep = TradingExecutor::new(dec(3, 0), [dec(1, 0), dec(1, 0)], 300, OrderType::GTC);
    let quote = steep.quote_pair(&opportunity(), "", "").unwrap();
    assert_eq!(full_text(quote.yes_price), "1.0");
    assert_eq!(full_text(quote.size), "3");
    assert!(steep.arbitrage_order_type() == OrderType::GTC);
    let wide = TradingExecutor::new(dec(3, 0), [largest(), largest()], 300, OrderType::GTC);
    assert!(wide.quote_pair(&opportunity(), "", "").is_none());
}

#[test]
fn times_in_words() {
    let took = Timing { build: 1, sign: 20, send: 300, total: 322 };
    assert_eq!(
        time_line(&plan(OrderType::GTC, true), took),
        "⏱️ Time | 01234567 | Build1ms Sign20ms Send300ms Total322ms"
    );
    assert_eq!(
        batch_failure_line(&plan(OrderType::GTC, true), took, "closed"),
        "❌ Batch order API call failed | PairID:01234567 | YES price:0.46 (with slippage) | NO price:0.51 (with slippage) | Size:20.0 | Build:1ms | Sign:20ms | Send:300ms | Total:322ms | Error:closed"
    );
}

fn answer(filled: Decimal, success: bool, error: Option<&str>) -> PostResult {
    PostResult {
        order_id: "o".to_string(),
        taking_amount: filled,
        success,
        error_msg: error.map(|e| e.to_string()),
    }
}

fn settled(results: Vec<PostResult>) -> Vec<(Severity, String)> {
    settlement_reports(&plan(OrderType::GTD, false), &results).into_iter().map(|r| (r.severity, r.text)).collect()
}

#[test]
fn settlements_in_words() {
    // The NO order was sent first.
    assert_eq!(
        settled(vec![answer(dec(5, 0), true, None), answer(dec(40, 1), true, None)]),
        [(
            Severity::Info,
            "✅ Arbitrage successful | PairID:01234567 | YES filled:4.0 shares | NO filled:5 shares | Total filled:4.0 shares"
                .to_string()
        )]
    );
    assert_eq!(
        settled(vec![answer(dec(0, 0), false, Some("GTD order")), answer(dec(4, 0), true, None)]),
        [
            (
                Severity::Warning,
                "⚠️ Partial order status abnormal | PairID:01234567 | YES:Status abnormal (filled:4 shares) | NO:Partially unfilled (order placed) (filled:0 shares) | Risk management activated"
                    .to_string()
            ),
            (
                Severity::Warning,
                "⚠️ One-sided fill | 01234567 | YES filled 4 shares, NO not filled (risk control)".to_string()
            ),
        ]
    );
    assert_eq!(
        settled(vec![answer(dec(1, 0), true, None), answer(dec(0, 0), true, None)])[0].1,
        "⚠️ One-sided fill | 01234567 | NO filled 1 shares, YES not filled (risk control)"
    );
    assert_eq!(
        settled(vec![answer(dec(-1, 0), true, None), answer(dec(0, 0), true, None)])[0].1,
        "❌ Arbitrage failed | PairID:01234567 | Neither YES nor NO filled"
    );
    assert_eq!(
        settled(vec![answer(dec(0, 0), false, None), answer(dec(0, 0), false, Some("no orders found to match"))]),
        [(
            Severity::Error,
            "❌ Arbitrage failed | PairID:01234567 | YES order:No matching orders in book | NO order:Unknown error"
                .to_string()
        )]
    );
    assert_eq!(
        settled(Vec::new()),
        [(
            Severity::Error,
            "❌ Batch order returned incorrect number of results | PairID:01234567 | Expected:2 | Actual:0".to_string()
        )]
    );
}

fn reported(dry_run: bool, max: Decimal, action: Action) -> Vec<String> {
    let mut tracker = PositionTracker::new(max, None);
    let step = ActionExecutor::new(dry_run).execute(action, &mut tracker).unwrap();
    step_reports(&step, "m").into_iter().map(|r| r.text).collect()
}

#[test]
fn steps_in_words() {
    let post = |price| Action::PostLimitOrder { token_id: token(9), price, size: dec(20, 1) };
    assert_eq!(
        reported(true, dec(10, 0), post(dec(4567, 4))),
        [
            "Price normalized to tick size | m | raw:0.45670000 -> tick:0.45",
            "[DRY RUN] Would post limit BUY | m | token:9 | price:0.4500 | size:2.0",
        ]
    );
    assert!(reported(false, dec(10, 0), post(dec(45, 2))).is_empty());
    assert_eq!(
        reported(false, dec(5, 1), post(dec(45, 2))),
        ["⛔ MM PostLimitOrder blocked by exposure limit | cost:0.9000 | current:0.0000 | max:0.5000"]
    );
    assert_eq!(reported(true, dec(1, 0), Action::CancelAll), ["[DRY RUN] Would cancel all orders | m"]);
    assert!(reported(false, dec(1, 0), Action::CancelAll).is_empty());
    let arb = || Action::PlaceArbPair { opp: opportunity(), yes_dir: String::new(), no_dir: String::new() };
    assert_eq!(
        reported(true, dec(1, 0), arb()),
        ["[DRY RUN] Would execute arb | m | YES:0.4500 NO:0.5000 | profit:5.00% | size:20 | cost:19.00 USD"]
    );
    assert!(reported(false, dec(100, 0), arb()).is_empty());
    let skip = Action::Skip { reason: SkipReason::WindowNotStarted };
    assert_eq!(reported(false, dec(1, 0), skip), ["⏸️ m | Window not started"]);
}

#[test]
fn pairs_that_came_back_are_registered() {
    let result = OrderPairResult {
        pair_id: "p".to_string(),
        yes_order_id: "y".to_string(),
        no_order_id: "n".to_string(),
        yes_filled: dec(1, 0),
        no_filled: dec(2, 0),
        yes_size: dec(3, 0),
        no_size: dec(4, 0),
        success: true,
    };
    let r = pair_registration(&opportunity(), &Ok(result)).unwrap();
    assert_eq!((r.result.pair_id.as_str(), r.result.yes_order_id.as_str()), ("p", "y"));
    assert!(r.result.no_order_id == "n" && r.result.success);
    assert!(r.result.yes_filled == dec(1, 0) && r.result.no_filled == dec(2, 0));
    assert!(r.result.yes_size == dec(3, 0) && r.result.no_size == dec(4, 0));
    assert_eq!((r.market_id, r.yes_token_id, r.no_token_id), (B256 { hi: 0, lo: 7 }, token(1), token(2)));
    assert!(r.yes_price == dec(45, 2) && r.no_price == dec(5, 1));
    assert!(pair_registration(&opportunity(), &Err("no".to_string())).is_none());
}

#[test]
fn recoveries_in_words() {
    assert_eq!(recovery_note(&RecoveryAction::NoAction), None);
    assert_eq!(
        recovery_note(&RecoveryAction::SellExcess).unwrap(),
        "Partial fill imbalance, hedging disabled, no action"
    );
    assert_eq!(
        recovery_note(&RecoveryAction::ManualIntervention { reason: "x".to_string() }).unwrap(),
        "Manual intervention required: x"
    );
    let watch = RecoveryAction::MonitorForExit {
        token_id: token(1),
        opposite_token_id: token(2),
        amount: dec(1, 0),
        entry_price: dec(1, 0),
        take_profit_pct: dec(1, 0),
        stop_loss_pct: dec(1, 0),
        pair_id: String::new(),
        market_display: String::new(),
    };
    assert_eq!(recovery_note(&watch).unwrap(), "Single-sided fill, hedging disabled, no action");
}
