//! Positions, exposure and the watch over single positions.
use poly_5min_bot::decimal::Decimal;
use poly_5min_bot::monitor::{BookUpdate, Level};
use poly_5min_bot::positions::{position_owner, OwnerError, Position};
use poly_5min_bot::risk::hedge_monitor::{
    calculate_sell_amount_with_size, read_sale_answer, HedgeMonitor, Sale, SaleOutcome,
};
use poly_5min_bot::risk::positions::{exceeds_limit, PositionTracker};
use poly_5min_bot::risk::recovery::RecoveryAction;
use poly_5min_bot::types::{Address, B256, U256};

fn dec(num: i64, scale: u32) -> Decimal {
    Decimal::new(num, scale)
}

fn token(n: u128) -> U256 {
    U256 { hi: 0, lo: n }
}

fn tracker() -> PositionTracker {
    PositionTracker::new(dec(100, 0), None)
}

fn position(n: u128, condition: u128, outcome: i32, size: Decimal) -> Position {
    Position {
        asset: token(n),
        condition_id: B256 { hi: 0, lo: condition },
        outcome_index: outcome,
        size,
        title: "t".to_string(),
    }
}

#[test]
fn positions_add_up_and_vanish_near_zero() {
    let mut t = tracker();
    t.update_position(token(1), dec(5, 0)).unwrap();
    t.update_exposure_cost(token(1), dec(5, 1), dec(5, 0)).unwrap();
    t.update_position(token(1), dec(-49999, 4)).unwrap();
    assert!(t.get_position(token(1)) == dec(1, 4));
    assert!(t.calculate_exposure().unwrap() == dec(25, 1));
    t.update_position(token(1), dec(-1, 5)).unwrap();
    assert!(t.get_position(token(1)) == dec(0, 0));
    assert!(t.calculate_exposure().unwrap() == dec(0, 0));
    assert!(t.get_position(token(2)) == dec(0, 0));
}

#[test]
fn costs_follow_purchases_and_sales() {
    let mut t = tracker();
    t.update_position(token(1), dec(10, 0)).unwrap();
    t.update_exposure_cost(token(1), dec(5, 1), dec(10, 0)).unwrap();
    assert!(t.calculate_exposure().unwrap() == dec(5, 0));
    // A quarter of the shares takes a quarter of the cost.
    t.update_exposure_cost(token(1), dec(9, 1), dec(-25, 1)).unwrap();
    assert!(t.calculate_exposure().unwrap() == dec(375, 2));
    t.update_exposure_cost(token(1), dec(9, 1), dec(0, 0)).unwrap();
    assert!(t.calculate_exposure().unwrap() == dec(375, 2));
    // More than is held takes all of it.
    t.update_exposure_cost(token(1), dec(9, 1), dec(-50, 0)).unwrap();
    assert!(t.calculate_exposure().unwrap() == dec(0, 0));
    // A sale of what is not held clears the cost too.
    t.update_exposure_cost(token(2), dec(5, 1), dec(2, 0)).unwrap();
    t.update_exposure_cost(token(2), dec(5, 1), dec(-1, 0)).unwrap();
    assert!(t.calculate_exposure().unwrap() == dec(0, 0));
    // Less than one cent is forgotten.
    t.update_exposure_cost(token(3), dec(9, 3), dec(1, 0)).unwrap();
    assert!(t.calculate_exposure().unwrap() == dec(0, 0));
}

#[test]
fn the_exposure_limit() {
    let mut t = tracker();
    t.update_exposure_cost(token(1), dec(5, 1), dec(100, 0)).unwrap();
    t.update_exposure_cost(token(2), dec(4, 1), dec(100, 0)).unwrap();
    assert!(t.calculate_exposure().unwrap() == dec(90, 0));
    assert!(t.is_within_limits().unwrap());
    assert!(!t.would_exceed_limit(dec(5, 0), dec(5, 0)).unwrap());
    assert!(t.would_exceed_limit(dec(5, 0), dec(501, 2)).unwrap());
    assert!(t.max_exposure() == dec(100, 0));
    t.update_exposure_cost(token(3), dec(5, 1), dec(21, 0)).unwrap();
    assert!(!t.is_within_limits().unwrap());
    t.reset_exposure();
    assert!(t.calculate_exposure().unwrap() == dec(0, 0));
    assert!(!exceeds_limit(dec(1, 0), dec(1, 0), dec(1, 0), dec(3, 0)).unwrap());
}

#[test]
fn imbalance_of_a_pair() {
    let mut t = tracker();
    assert!(t.calculate_imbalance(token(1), token(2)).unwrap() == dec(0, 0));
    t.update_position(token(1), dec(3, 0)).unwrap();
    assert!(t.calculate_imbalance(token(1), token(2)).unwrap() == dec(1, 0));
    t.update_position(token(2), dec(1, 0)).unwrap();
    assert!(t.calculate_imbalance(token(1), token(2)).unwrap() == dec(5, 1));
    t.update_position(token(2), dec(2, 0)).unwrap();
    assert!(t.calculate_imbalance(token(1), token(2)).unwrap() == dec(0, 0));
    let (yes, no) = t.get_pair_positions(token(1), token(2));
    assert!(yes == dec(3, 0) && no == dec(3, 0));
}

#[test]
fn sums_out_of_range_leave_the_tracker_as_it_is() {
    let mut t = tracker();
    let max = Decimal::from_parts(79228162514264337593543950335, 0).unwrap();
    t.update_position(token(1), max).unwrap();
    assert!(t.update_position(token(1), max).is_none());
    assert!(t.get_position(token(1)) == max);
    assert!(t.update_exposure_cost(token(1), max, dec(2, 0)).is_none());
    assert!(t.calculate_exposure().unwrap() == dec(0, 0));
}

#[test]
fn a_sync_replaces_all_positions() {
    let address = Address { hi: 1, lo: 2 };
    let mut t = PositionTracker::new(dec(100, 0), Some(address));
    assert_eq!(t.proxy_address(), Some(address));
    t.update_position(token(1), dec(5, 0)).unwrap();
    t.update_exposure_cost(token(1), dec(1, 0), dec(5, 0)).unwrap();
    let kept = t.sync_from_api(vec![
        position(2, 1, 0, dec(3, 0)),
        position(3, 1, 1, dec(0, 0)),
        position(2, 1, 0, dec(4, 0)),
        position(4, 1, 1, dec(-1, 0)),
    ]);
    assert_eq!(kept.len(), 2);
    assert!(t.get_position(token(1)) == dec(0, 0));
    assert!(t.get_position(token(2)) == dec(4, 0));
    assert!(t.get_position(token(4)) == dec(0, 0));
    assert!(t.calculate_exposure().unwrap() == dec(5, 0));
}

#[test]
fn whose_positions() {
    assert_eq!(position_owner(None), Err(OwnerError::NotSet));
    assert_eq!(position_owner(Some("nobody")), Err(OwnerError::Invalid));
    assert_eq!(OwnerError::NotSet.text(), "POLYMARKET_PROXY_ADDRESS not set");
    assert_eq!(OwnerError::Invalid.text(), "POLYMARKET_PROXY_ADDRESS format invalid");
    assert_eq!(
        position_owner(Some("0x00000001000000000000000000000000000000Ff")),
        Ok(Address { hi: 1, lo: 255 })
    );
}

fn watch(pair_id: &str) -> RecoveryAction {
    RecoveryAction::MonitorForExit {
        token_id: token(1),
        opposite_token_id: token(2),
        amount: dec(10, 0),
        entry_price: dec(5, 1),
        take_profit_pct: dec(1, 1),
        stop_loss_pct: dec(2, 1),
        pair_id: pair_id.to_string(),
        market_display: "btc".to_string(),
    }
}

fn bids(asset: u128, best: Decimal) -> BookUpdate {
    BookUpdate {
        asset_id: token(asset),
        bids: vec![
            Level { price: dec(1, 2), size: dec(1, 0) },
            Level { price: best, size: dec(1, 0) },
        ],
        asks: Vec::new(),
    }
}

fn holding(yes: i64, no: i64) -> PositionTracker {
    let mut t = tracker();
    t.update_position(token(1), dec(yes, 0)).unwrap();
    t.update_position(token(2), dec(no, 0)).unwrap();
    t
}

#[test]
fn watched_positions_get_their_prices() {
    let mut h = HedgeMonitor::new();
    h.add_position(&watch("a")).unwrap();
    let p = &h.get_positions()[0];
    assert!(p.take_profit_price == dec(55, 2) && p.stop_loss_price == dec(4, 1));
    assert!(p.order_id.is_none() && p.pending_sell_amount == dec(0, 0));
    h.update_entry_price("a", dec(6, 1)).unwrap();
    let p = &h.get_positions()[0];
    assert!(p.take_profit_price == dec(66, 2) && p.stop_loss_price == dec(48, 2));
    assert!(p.entry_price == dec(6, 1));
    h.update_entry_price("b", dec(6, 1)).unwrap();
    h.add_position(&RecoveryAction::SellExcess).unwrap();
    h.add_position(&RecoveryAction::NoAction).unwrap();
    h.add_position(&RecoveryAction::ManualIntervention { reason: "x".to_string() }).unwrap();
    assert_eq!(h.get_positions().len(), 1);
    h.remove_position("a");
    assert!(h.get_positions().is_empty());
}

#[test]
fn a_moved_watch_is_like_a_fresh_one() {
    for (old, new) in [(dec(37, 2), dec(61, 2)), (dec(1, 2), dec(1, 0)), (dec(7, 1), dec(3, 2))] {
        let at = |entry_price| RecoveryAction::MonitorForExit {
            token_id: token(1),
            opposite_token_id: token(2),
            amount: dec(10, 0),
            entry_price,
            take_profit_pct: dec(333333, 7),
            stop_loss_pct: dec(777777, 7),
            pair_id: "a".to_string(),
            market_display: "btc".to_string(),
        };
        let mut moved = HedgeMonitor::new();
        moved.add_position(&at(old)).unwrap();
        moved.update_entry_price("a", new).unwrap();
        let mut fresh = HedgeMonitor::new();
        fresh.add_position(&at(new)).unwrap();
        let (m, f) = (moved.get_positions().remove(0), fresh.get_positions().remove(0));
        let atoms = |d: Decimal| d.mantissa() * 10i128.pow(28 - d.scale());
        let near = |x: Decimal, y: Decimal| (atoms(x) - atoms(y)).abs() <= 102;
        assert!(m.entry_price == f.entry_price);
        assert!(near(m.take_profit_price, f.take_profit_price));
        assert!(near(m.stop_loss_price, f.stop_loss_price));
    }
}

#[test]
fn an_entry_price_of_zero_cannot_be_scaled() {
    let mut h = HedgeMonitor::new();
    h.add_position(&watch("a")).unwrap();
    h.update_entry_price("a", dec(0, 0)).unwrap();
    assert!(h.update_entry_price("a", dec(5, 1)).is_none());
    assert!(h.get_positions()[0].entry_price == dec(0, 0));
}

#[test]
fn positions_are_sold_at_gain_and_loss() {
    let t = holding(10, 4);
    let mut h = HedgeMonitor::new();
    h.add_position(&watch("a")).unwrap();
    assert!(h.check_and_execute(&bids(1, dec(54, 2)), &t).unwrap().is_empty());
    assert!(h.check_and_execute(&bids(2, dec(9, 1)), &t).unwrap().is_empty());
    let empty = BookUpdate { asset_id: token(1), bids: Vec::new(), asks: Vec::new() };
    assert!(h.check_and_execute(&empty, &t).unwrap().is_empty());
    let sales = h.check_and_execute(&bids(1, dec(55, 2)), &t).unwrap();
    assert_eq!(sales.len(), 1);
    assert_eq!(sales[0].pair_id, "a");
    assert!(sales[0].amount == dec(6, 0) && sales[0].price == dec(55, 2));
    assert_eq!(h.get_positions()[0].order_id.as_deref(), Some("processing"));
    // While it is being placed it is not sold again.
    assert!(h.check_and_execute(&bids(1, dec(55, 2)), &t).unwrap().is_empty());
    let mut lossy = HedgeMonitor::new();
    lossy.add_position(&watch("a")).unwrap();
    assert_eq!(lossy.check_and_execute(&bids(1, dec(4, 1)), &t).unwrap().len(), 1);
}

#[test]
fn a_covered_position_is_kept() {
    let t = holding(4, 4);
    let mut h = HedgeMonitor::new();
    h.add_position(&watch("a")).unwrap();
    assert!(h.check_and_execute(&bids(1, dec(9, 1)), &t).unwrap().is_empty());
    assert!(h.get_positions()[0].order_id.is_none());
}

fn placed(order_size: Decimal, filled: Decimal) -> SaleOutcome {
    SaleOutcome::Placed { order_id: "0x0123456789abcdef".to_string(), order_size, filled }
}

#[test]
fn what_is_left_of_a_sale_is_placed_anew() {
    let mut t = holding(10, 4);
    t.update_exposure_cost(token(1), dec(5, 1), dec(10, 0)).unwrap();
    let mut h = HedgeMonitor::new();
    h.add_position(&watch("a")).unwrap();
    let sale = h.check_and_execute(&bids(1, dec(55, 2)), &t).unwrap().remove(0);
    h.settle(&mut t, &sale, &placed(dec(6, 0), dec(2, 0))).unwrap();
    let p = &h.get_positions()[0];
    assert_eq!(p.order_id.as_deref(), Some("0x0123456789abcdef"));
    assert!(p.pending_sell_amount == dec(4, 0));
    assert!(t.get_position(token(1)) == dec(8, 0));
    // Two of the eight shares that are left: a quarter of the cost of 5.
    assert!(t.calculate_exposure().unwrap() == dec(375, 2));
    // At a price in between the order is only forgotten.
    assert!(h.check_and_execute(&bids(1, dec(5, 1)), &t).unwrap().is_empty());
    assert!(h.get_positions()[0].order_id.is_none());
    let again = h.check_and_execute(&bids(1, dec(6, 1)), &t).unwrap();
    assert!(again[0].amount == dec(4, 0));
    h.settle(&mut t, &again[0], &placed(dec(4, 0), dec(0, 0))).unwrap();
    let replaced = h.check_and_execute(&bids(1, dec(7, 1)), &t).unwrap();
    assert!(replaced[0].amount == dec(4, 0) && replaced[0].price == dec(7, 1));
    h.settle(&mut t, &replaced[0], &placed(dec(4, 0), dec(4, 0))).unwrap();
    let p = &h.get_positions()[0];
    assert!(p.order_id.is_none() && p.pending_sell_amount == dec(0, 0));
    assert!(t.get_position(token(1)) == dec(4, 0));
}

#[test]
fn a_failed_sale_can_be_tried_again() {
    let mut t = holding(10, 4);
    let mut h = HedgeMonitor::new();
    h.add_position(&watch("a")).unwrap();
    let sale = h.check_and_execute(&bids(1, dec(55, 2)), &t).unwrap().remove(0);
    h.settle(&mut t, &sale, &SaleOutcome::Failed).unwrap();
    assert!(h.get_positions()[0].order_id.is_none());
    assert_eq!(h.check_and_execute(&bids(1, dec(55, 2)), &t).unwrap().len(), 1);
    h.remove_position("a");
    h.settle(&mut t, &sale, &placed(dec(6, 0), dec(6, 0))).unwrap();
    assert!(h.get_positions().is_empty());
    assert!(t.get_position(token(1)) == dec(4, 0));
}

#[test]
fn a_sale_out_of_range_changes_nothing() {
    let mut t = holding(10, 4);
    let max = Decimal::from_parts(79228162514264337593543950335, 0).unwrap();
    let mut h = HedgeMonitor::new();
    let sale = Sale {
        pair_id: "a".to_string(),
        token_id: token(1),
        entry_price: dec(5, 1),
        price: dec(5, 1),
        amount: dec(1, 0),
    };
    assert!(h.settle(&mut t, &sale, &placed(max, max.neg())).is_none());
    assert!(t.get_position(token(1)) == dec(10, 0));
}

#[test]
fn sizes_after_the_fee() {
    let size = |fee, amount| calculate_sell_amount_with_size(fee, amount).unwrap();
    // 10 * 0.9844 = 9.844
    assert!(size(dec(156, 2), dec(10, 0)) == dec(984, 2));
    assert!(size(dec(0, 0), dec(1239, 3)) == dec(123, 2));
    assert!(size(dec(0, 0), dec(9, 3)) == dec(1, 2));
    assert!(size(dec(100, 0), dec(50, 0)) == dec(1, 2));
    let max = Decimal::from_parts(79228162514264337593543950335, 0).unwrap();
    assert!(calculate_sell_amount_with_size(dec(0, 0), max).is_none());
}

#[test]
fn answers_to_a_sale() {
    let id = || "id".to_string();
    match read_sale_answer(id(), dec(5, 0), true, dec(2, 0), None) {
        Ok(SaleOutcome::Placed { order_id, order_size, filled }) => {
            assert_eq!(order_id, "id");
            assert!(order_size == dec(5, 0) && filled == dec(2, 0));
        }
        _ => panic!("not placed"),
    }
    assert_eq!(
        read_sale_answer(id(), dec(5, 0), false, dec(0, 0), Some("no".to_string())).err(),
        Some("GTC sell order failed: no".to_string())
    );
    assert_eq!(
        read_sale_answer(id(), dec(5, 0), false, dec(0, 0), None).err(),
        Some("GTC sell order failed: Unknown error".to_string())
    );
}

#[test]
fn the_exposure_is_the_sum_of_all_costs() {
    let mut forwards = tracker();
    let mut backwards = tracker();
    for i in 1..=50 {
        forwards.update_exposure_cost(token(i), dec(i as i64, 2), dec(3, 0)).unwrap();
        backwards.update_exposure_cost(token(51 - i), dec(51 - i as i64, 2), dec(3, 0)).unwrap();
    }
    // 0.03 * (1 + ... + 50)
    assert!(forwards.calculate_exposure().unwrap() == dec(3825, 2));
    assert!(backwards.calculate_exposure().unwrap() == dec(3825, 2));
}
