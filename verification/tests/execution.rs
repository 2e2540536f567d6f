//! Orders, pairs of orders and the journal.
use poly_5min_bot::config::OrderType;
use poly_5min_bot::decimal::Decimal;
use poly_5min_bot::monitor::ArbitrageOpportunity;
use poly_5min_bot::risk::positions::PositionTracker;
use poly_5min_bot::strategy::action_executor::{
    cancel_outcome, is_signature_rejection, pair_failure_text, pair_outcome, post_outcome,
    ActionExecutor, LimitOrder, Step,
};
use poly_5min_bot::strategy::{Action, SkipReason};
use poly_5min_bot::text::full_text;
use poly_5min_bot::time::Now;
use poly_5min_bot::trading::executor::{
    simplify_error, PairPlan, PostResult, TradingExecutor,
};
use poly_5min_bot::types::{B256, U256};
use poly_5min_bot::utils::trade_journal::{JournalEntry, Payload, TradeJournal};

fn dec(num: i64, scale: u32) -> Decimal {
    Decimal::new(num, scale)
}

fn token(n: u128) -> U256 {
    U256 { hi: 0, lo: n }
}

fn at(secs: i64) -> Now {
    Now { instant: 0, utc: secs * 1_000_000_000 }
}

fn largest() -> Decimal {
    Decimal::from_parts(79228162514264337593543950335, 0).unwrap()
}

fn opportunity() -> ArbitrageOpportunity {
    ArbitrageOpportunity {
        market_id: B256 { hi: 0xab << 120, lo: 7 },
        yes_token_id: token(1),
        no_token_id: U256 { hi: 1, lo: 0 },
        yes_ask_price: dec(45, 2),
        no_ask_price: dec(50, 2),
        yes_size: dec(20, 0),
        no_size: dec(30, 0),
        profit_percentage: dec(50, 1),
    }
}

fn post(price: Decimal, size: Decimal) -> Action {
    Action::PostLimitOrder { token_id: token(1), price, size }
}

fn pair() -> Action {
    Action::PlaceArbPair {
        opp: opportunity(),
        yes_dir: "↑".to_string(),
        no_dir: "↓".to_string(),
    }
}

fn line(entry: &JournalEntry) -> String {
    TradeJournal::new("s", None).log_event(&entry.event, "m", &entry.data, at(0))
}

fn around(event: &str, data: &str) -> String {
    format!(
        "{{\"data\":{{{}}},\"event\":\"{}\",\"market\":\"m\",\"slot\":\"s\",\"ts\":\"1970-01-01T00:00:00+00:00\"}}",
        data, event
    )
}

#[test]
fn prices_are_put_on_ticks() {
    let tick = |p| ActionExecutor::normalize_tick_price(p).unwrap();
    assert!(tick(dec(4567, 4)) == dec(45, 2));
    assert!(tick(dec(45, 2)) == dec(45, 2));
    assert!(tick(dec(9, 3)) == dec(1, 2));
    assert!(tick(dec(-3, 0)) == dec(1, 2));
    assert!(tick(dec(3, 0)) == dec(1, 0));
    assert!(ActionExecutor::normalize_tick_price(largest()).is_none());
}

#[test]
fn live_orders_are_sent() {
    let mut t = PositionTracker::new(dec(10, 0), None);
    let live = ActionExecutor::new(false);
    let step = live.execute(post(dec(4567, 4), dec(2, 0)), &mut t).unwrap();
    assert!(step.journal().is_none());
    match step {
        Step::Post { order } => {
            assert!(order.price == dec(45, 2) && order.raw_price == dec(4567, 4));
            assert!(order.size == dec(2, 0));
        }
        other => panic!("{:?}", other),
    }
    assert!(t.calculate_exposure().unwrap() == dec(0, 0));
    assert!(matches!(live.execute(Action::CancelAll, &mut t), Some(Step::Cancel)));
    let skip = Action::Skip { reason: SkipReason::TradeInterval };
    assert!(matches!(live.execute(skip, &mut t), Some(Step::Pass { .. })));
}

#[test]
fn orders_above_the_limit_are_blocked() {
    let mut t = PositionTracker::new(dec(10, 0), None);
    t.update_exposure_cost(token(5), dec(95, 1), dec(1, 0)).unwrap();
    let live = ActionExecutor::new(false);
    assert!(matches!(
        live.execute(post(dec(50, 2), dec(1, 0)), &mut t),
        Some(Step::Post { .. })
    ));
    let step = live.execute(post(dec(51, 2), dec(1, 0)), &mut t).unwrap();
    match &step {
        Step::Blocked { cost, current, max, .. } => {
            assert!(*cost == dec(51, 2) && *current == dec(95, 1) && *max == dec(10, 0));
        }
        other => panic!("{:?}", other),
    }
    assert_eq!(
        line(&step.journal().unwrap()),
        around(
            "order_blocked_exposure",
            "\"cost\":\"0.51\",\"current_exposure\":\"9.5\",\"max_exposure\":\"10\",\"price\":\"0.51\",\"raw_price\":\"0.51\",\"size\":\"1\",\"token_id\":\"1\",\"type\":\"post_limit_buy\""
        )
    );
    assert!(live.execute(post(dec(51, 2), largest()), &mut t).is_some());
    assert!(live.execute(post(largest(), dec(1, 0)), &mut t).is_none());
}

#[test]
fn the_exposure_keeps_its_decimal_places() {
    let mut t = PositionTracker::new(dec(1000, 2), None);
    t.update_position(token(5), dec(40, 1)).unwrap();
    t.update_exposure_cost(token(5), dec(50, 2), dec(40, 1)).unwrap();
    t.update_exposure_cost(token(6), dec(7, 0), dec(1, 0)).unwrap();
    let live = ActionExecutor::new(false);
    let noted = |t: &mut PositionTracker| {
        match live.execute(post(dec(90, 2), dec(9, 0)), t) {
            Some(Step::Blocked { cost, current, max, .. }) => {
                (full_text(cost), full_text(current), full_text(max))
            }
            other => panic!("{:?}", other),
        }
    };
    let words = |a: &str, b: &str, c: &str| (a.to_string(), b.to_string(), c.to_string());
    assert_eq!(noted(&mut t), words("8.10", "9.000", "10.00"));
    t.update_exposure_cost(token(5), dec(0, 0), dec(-20, 1)).unwrap();
    assert_eq!(noted(&mut t), words("8.10", "8.00000", "10.00"));
    t.reset_exposure();
    t.update_exposure_cost(token(6), dec(400, 2), dec(1, 0)).unwrap();
    assert_eq!(noted(&mut t), words("8.10", "4.00", "10.00"));
}

#[test]
fn a_dry_run_only_notes() {
    let mut t = PositionTracker::new(dec(100, 0), None);
    let dry = ActionExecutor::new(true);
    let step = dry.execute(post(dec(50, 2), dec(4, 0)), &mut t).unwrap();
    assert_eq!(
        line(&step.journal().unwrap()),
        around(
            "dry_run_post_limit_buy",
            "\"cost\":\"2.00\",\"price\":\"0.50\",\"raw_price\":\"0.50\",\"size\":\"4\",\"token_id\":\"1\""
        )
    );
    let step = dry.execute(Action::CancelAll, &mut t).unwrap();
    assert!(matches!(step, Step::DryRunCancel));
    assert_eq!(line(&step.journal().unwrap()), around("dry_run_cancel_all", ""));
    let step = dry.execute(pair(), &mut t).unwrap();
    match &step {
        Step::DryRunPair { size, cost, .. } => {
            assert!(*size == dec(20, 0) && *cost == dec(19, 0));
        }
        other => panic!("{:?}", other),
    }
    assert_eq!(
        line(&step.journal().unwrap()),
        around(
            "dry_run_arb_pair",
            "\"cost_usd\":\"19.00\",\"no_price\":\"0.50\",\"no_token_id\":\"340282366920938463463374607431768211456\",\"profit_pct\":\"5.0\",\"size\":\"20\",\"yes_price\":\"0.45\",\"yes_token_id\":\"1\""
        )
    );
    assert!(t.calculate_exposure().unwrap() == dec(0, 0));
}

#[test]
fn a_dry_run_out_of_range_books_nothing() {
    let mut t = PositionTracker::new(dec(100, 0), None);
    let opp = ArbitrageOpportunity { no_ask_price: largest(), ..opportunity() };
    let wide = || Action::PlaceArbPair { opp, yes_dir: String::new(), no_dir: String::new() };
    assert!(ActionExecutor::new(true).execute(wide(), &mut t).is_none());
    assert!(t.calculate_exposure().unwrap() == dec(0, 0));
    // A pair that is really submitted has its YES cost booked first: 0.45 * 20.
    assert!(ActionExecutor::new(false).execute(wide(), &mut t).is_none());
    assert!(t.calculate_exposure().unwrap() == dec(9, 0));
}

#[test]
fn a_live_pair_is_booked_at_once() {
    let mut t = PositionTracker::new(dec(100, 0), None);
    let live = ActionExecutor::new(false);
    let step = live.execute(pair(), &mut t).unwrap();
    assert!(t.calculate_exposure().unwrap() == dec(19, 0));
    let data = "\"market_id\":\"0xab00000000000000000000000000000000000000000000000000000000000007\",\"no_dir\":\"↓\",\"no_price\":\"0.50\",\"no_token_id\":\"340282366920938463463374607431768211456\",\"profit_pct\":\"5.0\",\"size\":\"20\",\"yes_dir\":\"↑\",\"yes_price\":\"0.45\",\"yes_token_id\":\"1\"";
    assert_eq!(line(&step.journal().unwrap()), around("arb_pair_submitted", data));
    let mut wide = opportunity();
    wide.no_ask_price = largest();
    let mut other = PositionTracker::new(dec(100, 0), None);
    assert!(live
        .execute_arb_pair(&mut other, wide, "↑".to_string(), "↓".to_string())
        .is_none());
    assert!(other.calculate_exposure().unwrap() == dec(9, 0));
}

#[test]
fn only_taken_orders_are_booked() {
    let mut t = PositionTracker::new(dec(100, 0), None);
    let order = LimitOrder {
        token_id: token(1),
        raw_price: dec(456, 3),
        price: dec(45, 2),
        size: dec(2, 0),
    };
    ActionExecutor::settle_post(&mut t, &order, false).unwrap();
    assert!(t.calculate_exposure().unwrap() == dec(0, 0));
    ActionExecutor::settle_post(&mut t, &order, true).unwrap();
    assert!(t.calculate_exposure().unwrap() == dec(9, 1));
    let data = "\"price\":\"0.45\",\"raw_price\":\"0.456\"";
    let rest = "\"size\":\"2\",\"token_id\":\"1\"";
    assert_eq!(
        line(&post_outcome(&order, &Ok("ok".to_string()))),
        around("limit_buy_posted", &format!("{},\"response\":\"ok\",{}", data, rest))
    );
    assert_eq!(
        line(&post_outcome(&order, &Err("bad \"x\"\n".to_string()))),
        around("limit_buy_failed", &format!("\"error\":\"bad \\\"x\\\"\\n\",{},{}", data, rest))
    );
}

#[test]
fn cancellations_are_noted() {
    assert_eq!(
        line(&cancel_outcome(&Ok("all".to_string()))),
        around("cancel_all_ok", "\"response\":\"all\"")
    );
    assert_eq!(
        line(&cancel_outcome(&Err("none".to_string()))),
        around("cancel_all_failed", "\"error\":\"none\"")
    );
}

#[test]
fn rejected_signatures_are_told_apart() {
    assert!(is_signature_rejection("400: Invalid Signature"));
    assert!(!is_signature_rejection("invalid price"));
    assert_eq!(pair_failure_text("arbitrage failed: x"), "arbitrage failed: x");
    assert_eq!(
        pair_failure_text("Arbitrage failed: x"),
        "Failed to execute arbitrage trade: Arbitrage failed: x"
    );
}

fn executor(order_type: OrderType) -> TradingExecutor {
    TradingExecutor::new(dec(100, 0), [dec(1, 2), dec(2, 2)], 300, order_type)
}

fn plan(order_type: OrderType) -> PairPlan {
    executor(order_type)
        .plan_arbitrage_pair("id".to_string(), &opportunity(), "↑", "↓", at(1000))
        .unwrap()
        .unwrap()
}

#[test]
fn pairs_are_planned() {
    let p = plan(OrderType::GTD);
    assert_eq!(p.pair_id, "id");
    assert_eq!((p.yes_token_id, p.no_token_id), (token(1), U256 { hi: 1, lo: 0 }));
    assert!(p.yes_price == dec(46, 2) && p.no_price == dec(52, 2));
    assert!(p.size == dec(20, 0));
    assert_eq!(p.expiration, Some(1300));
    assert!(!p.yes_first);
    assert_eq!(plan(OrderType::FAK).expiration, None);
    assert_eq!(plan(OrderType::GTC).order_type, OrderType::GTC);
    let e = executor(OrderType::FOK);
    assert!(e.slippage_for_direction("↓") == dec(2, 2));
    assert!(e.slippage_for_direction("↑") == dec(1, 2));
    assert!(e.slippage_for_direction("") == dec(1, 2));
}

#[test]
fn planned_sizes_and_prices_are_capped() {
    let small = TradingExecutor::new(dec(5, 0), [dec(9, 1), dec(0, 0)], 0, OrderType::GTC);
    let p = small
        .plan_arbitrage_pair("id".to_string(), &opportunity(), "↑", "↓", at(0))
        .unwrap()
        .unwrap();
    assert!(p.size == dec(5, 0) && p.yes_price == dec(1, 0) && p.no_price == dec(5, 1));
    assert!(p.yes_first);
}

#[test]
fn small_pairs_are_refused() {
    let tiny = TradingExecutor::new(dec(2, 0), [dec(0, 0), dec(0, 0)], 0, OrderType::GTC);
    let error = tiny
        .plan_arbitrage_pair("id".to_string(), &opportunity(), "↑", "↓", at(0))
        .unwrap()
        .unwrap_err();
    assert_eq!(
        error.text(),
        "Order amount does not meet exchange minimum: YES 0.90 USD, NO 1.00 USD, both sides must be > $1"
    );
}

#[test]
fn times_before_the_epoch_round_down() {
    let now = Now { instant: 0, utc: -1 };
    let p = executor(OrderType::GTD)
        .plan_arbitrage_pair("id".to_string(), &opportunity(), "↑", "↓", now)
        .unwrap()
        .unwrap();
    assert_eq!(p.expiration, Some(299));
    let far = TradingExecutor::new(dec(9, 0), [dec(0, 0), dec(0, 0)], u64::MAX / 2, OrderType::GTD);
    assert!(far
        .plan_arbitrage_pair("id".to_string(), &opportunity(), "↑", "↓", at(5))
        .is_none());
}

#[test]
fn pair_ids_are_fresh() {
    let e = executor(OrderType::GTC);
    let id = || e.execute_arbitrage_pair(&opportunity(), "↑", "↓", at(0)).unwrap().unwrap().pair_id;
    let (a, b) = (id(), id());
    assert_ne!(a, b);
    assert_eq!(a.len(), 36);
    for (i, c) in a.chars().enumerate() {
        if i == 8 || i == 13 || i == 18 || i == 23 {
            assert_eq!(c, '-');
        } else {
            assert!(c.is_ascii_digit() || ('a'..='f').contains(&c));
        }
    }
}

fn answer(id: &str, filled: Decimal, error: Option<&str>) -> PostResult {
    PostResult {
        order_id: id.to_string(),
        taking_amount: filled,
        success: error.is_none(),
        error_msg: error.map(|e| e.to_string()),
    }
}

#[test]
fn answers_follow_the_order_of_the_orders() {
    // NO was sent first.
    let p = plan(OrderType::GTC);
    let r = TradingExecutor::settle_arbitrage_pair(
        p,
        Ok(vec![answer("n", dec(0, 0), Some("x")), answer("y", dec(7, 0), None)]),
    )
    .unwrap();
    assert_eq!((r.yes_order_id.as_str(), r.no_order_id.as_str()), ("y", "n"));
    assert!(r.yes_filled == dec(7, 0) && r.no_filled == dec(0, 0));
    assert!(r.yes_size == dec(20, 0) && r.no_size == dec(20, 0) && r.success);
    assert_eq!(
        line(&pair_outcome(&opportunity(), &Ok(r))),
        around(
            "arb_pair_executed",
            "\"no_filled\":\"0\",\"no_order_id\":\"n\",\"no_size\":\"20\",\"pair_id\":\"id\",\"success\":true,\"yes_filled\":\"7\",\"yes_order_id\":\"y\",\"yes_size\":\"20\""
        )
    );
    assert_eq!(
        line(&pair_outcome(&opportunity(), &Err("e".to_string()))),
        around(
            "arb_pair_failed",
            "\"error\":\"e\",\"no_token_id\":\"340282366920938463463374607431768211456\",\"yes_token_id\":\"1\""
        )
    );
}

#[test]
fn unfilled_pairs_fail() {
    let settle = |answer| {
        TradingExecutor::settle_arbitrage_pair(plan(OrderType::GTC), answer).unwrap_err().text()
    };
    assert_eq!(settle(Err("down".to_string())), "Batch order API call failed: down");
    assert_eq!(
        settle(Ok(vec![answer("a", dec(1, 0), None)])),
        "Batch order returned incorrect number of results | Expected:2 | Actual:1"
    );
    assert_eq!(
        settle(Ok(vec![
            answer("n", dec(0, 0), Some("no orders found to match with FAK")),
            answer("y", dec(0, 0), None)
        ])),
        "Arbitrage failed: Neither YES nor NO order filled | YES: Unknown error, NO: No matching orders in book"
    );
}

#[test]
fn messages_in_plain_words() {
    let plain = |m: &str| simplify_error(&Some(m.to_string()));
    for kind in ["GTD", "FOK", "FAK", "GTC"] {
        assert_eq!(plain(&format!("a {} order", kind)), "Order cannot be filled");
    }
    assert_eq!(plain("no orders found to match"), "No matching orders in book");
    assert_eq!(plain("closed"), "closed");
    assert_eq!(simplify_error(&None), "Unknown error");
}

#[test]
fn journal_lines() {
    let journal = TradeJournal::new("slot-1", Some("a/b.jsonl"));
    assert_eq!(journal.path(), "a/b.jsonl");
    assert_eq!(TradeJournal::new("s", None).path(), "logs/trade_events.jsonl");
    let data = Payload::new().text("a", "1\n2").flag("b", false);
    let now = Now { instant: 0, utc: 1_700_000_000_123_456_789 };
    let text = journal.log_event("e", "m", &data, now);
    assert_eq!(
        text,
        "{\"data\":{\"a\":\"1\\n2\",\"b\":false},\"event\":\"e\",\"market\":\"m\",\"slot\":\"slot-1\",\"ts\":\"2023-11-14T22:13:20.123456789+00:00\"}"
    );
}

#[test]
fn the_outcome_of_a_pair_does_not_depend_on_which_order_went_first() {
    let settle = |yes_first: bool| {
        let plan = PairPlan { yes_first, ..plan(OrderType::GTC) };
        let (yes, no) = (answer("y", dec(1, 0), None), answer("n", dec(2, 0), None));
        let answers = if yes_first { vec![yes, no] } else { vec![no, yes] };
        let r = TradingExecutor::settle_arbitrage_pair(plan, Ok(answers)).unwrap();
        (r.yes_order_id, r.no_order_id, full_text(r.yes_filled), full_text(r.no_filled))
    };
    assert_eq!(settle(true), settle(false));
    assert_eq!(settle(true).2, "1");
}
