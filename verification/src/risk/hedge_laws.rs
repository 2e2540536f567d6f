//! A new entry price moves the prices at which to sell to where a fresh watch at that price would have put
//! them, up to rounding.
use vstd::prelude::*;

use crate::decimal;

use super::hedge_map::HedgePosition;
use super::hedge_monitor;

verus! {

/// The absolute value of a product.
proof fn lemma_abs_of_product(a: int, b: int)
    ensures
        decimal::abs_of(a * b) == decimal::abs_of(a) * decimal::abs_of(b),
{
    assert(decimal::abs_of(a * b) == decimal::abs_of(a) * decimal::abs_of(b)) by (nonlinear_arith);
}

/// The errors of a price that was moved: `moved` is close to `price * factor / one`, `fresh` is close to
/// `price * wanted / one`, and `entry` times the two factors is close.
proof fn lemma_moved_error(
    entry: int,
    price: int,
    factor: int,
    wanted: int,
    moved: int,
    fresh: int,
    moved_step: int,
    fresh_step: int,
    apart: int,
)
    requires
        2 * decimal::abs_of(moved * decimal::one() - price * factor) <= decimal::one() * moved_step,
        2 * decimal::abs_of(fresh * decimal::one() - price * wanted) <= decimal::one() * fresh_step,
        2 * decimal::abs_of(entry * (factor - wanted)) <= apart,
    ensures
        2 * decimal::abs_of(entry) * decimal::one() * decimal::abs_of(moved - fresh) <= decimal::abs_of(entry)
            * decimal::one() * (moved_step + fresh_step) + decimal::abs_of(price) * apart,
{
    let one = decimal::one();
    let x = moved * one - price * factor;
    let y = fresh * one - price * wanted;
    let z = entry * (factor - wanted);
    assert(entry * (one * (moved - fresh)) == entry * (moved * one - price * factor) - entry * (fresh * one - price
        * wanted) + price * (entry * (factor - wanted))) by (nonlinear_arith);
    lemma_abs_of_product(entry, x);
    lemma_abs_of_product(entry, y);
    lemma_abs_of_product(price, z);
    lemma_abs_of_product(entry, one * (moved - fresh));
    lemma_abs_of_product(one, moved - fresh);
    let e = decimal::abs_of(entry);
    let (ax, ay, az) = (decimal::abs_of(x), decimal::abs_of(y), decimal::abs_of(z));
    let ap = decimal::abs_of(price);
    let ad = decimal::abs_of(moved - fresh);
    assert(e * (one * ad) <= e * ax + e * ay + ap * az);
    assert(2 * (e * ax) <= e * (one * moved_step)) by (nonlinear_arith)
        requires
            e >= 0,
            2 * ax <= one * moved_step,
    ;
    assert(2 * (e * ay) <= e * (one * fresh_step)) by (nonlinear_arith)
        requires
            e >= 0,
            2 * ay <= one * fresh_step,
    ;
    assert(2 * (ap * az) <= ap * apart) by (nonlinear_arith)
        requires
            ap >= 0,
            2 * az <= apart,
    ;
    assert(2 * e * one * ad == 2 * (e * (one * ad))) by (nonlinear_arith);
    assert(e * one * (moved_step + fresh_step) == e * (one * moved_step) + e * (one * fresh_step)) by (nonlinear_arith);
}

/// The errors of a share that was read back: `sold` is close to `entry * wanted / one`, `gap` to the
/// difference of `sold` and `entry`, and `share` to `gap` over `entry`. `sign` is 1 for a share above the
/// entry price and -1 for one below it.
proof fn lemma_share_error(
    entry: int,
    wanted: int,
    sold: int,
    gap: int,
    share: int,
    factor: int,
    sign: int,
    steps: (int, int, int, int),
)
    requires
        sign == 1 || sign == -1,
        2 * decimal::abs_of(sold * decimal::one() - entry * wanted) <= decimal::one() * steps.0,
        2 * decimal::abs_of(gap - sign * (sold - entry)) <= steps.1,
        2 * decimal::abs_of(share * entry - gap * decimal::one()) <= decimal::abs_of(entry) * steps.2,
        2 * decimal::abs_of(factor - (decimal::one() + sign * share)) <= steps.3,
    ensures
        2 * decimal::abs_of(entry * (factor - wanted)) <= decimal::one() * (steps.0 + steps.1)
            + decimal::abs_of(entry) * (steps.2 + steps.3),
{
    let one = decimal::one();
    let a = sold * one - entry * wanted;
    let b = gap - sign * (sold - entry);
    let c = share * entry - gap * one;
    let f = factor - (one + sign * share);
    if sign == 1 {
        assert(entry * (factor - wanted) == (sold * one - entry * wanted) + one * (gap - (sold - entry)) + (share
            * entry - gap * one) + entry * (factor - (one + share))) by (nonlinear_arith);
        assert(sign * (sold - entry) == sold - entry && sign * share == share) by (nonlinear_arith)
            requires
                sign == 1,
        ;
        assert(entry * (factor - wanted) == a + one * b + c + entry * f);
    } else {
        assert(entry * (factor - wanted) == (sold * one - entry * wanted) - one * (gap + (sold - entry)) - (share
            * entry - gap * one) + entry * (factor - (one - share))) by (nonlinear_arith);
        assert(sign * (sold - entry) == -(sold - entry) && sign * share == -share) by (nonlinear_arith)
            requires
                sign == -1,
        ;
        assert(entry * (factor - wanted) == a - one * b - c + entry * f);
    }
    lemma_abs_of_product(one, b);
    lemma_abs_of_product(entry, f);
    let e = decimal::abs_of(entry);
    let (ab, af) = (decimal::abs_of(b), decimal::abs_of(f));
    assert(2 * (one * ab) <= one * steps.1) by (nonlinear_arith)
        requires
            one >= 0,
            2 * ab <= steps.1,
    ;
    assert(2 * (e * af) <= e * steps.3) by (nonlinear_arith)
        requires
            e >= 0,
            2 * af <= steps.3,
    ;
    assert(one * (steps.0 + steps.1) == one * steps.0 + one * steps.1) by (nonlinear_arith);
    assert(e * (steps.2 + steps.3) == e * steps.2 + e * steps.3) by (nonlinear_arith);
}

/// The step, in atoms, to which `a / b` is rounded.
pub open spec fn quotient_step(a: int, b: int) -> int {
    if b > 0 {
        decimal::step(a * decimal::one(), b)
    } else {
        decimal::step(-a * decimal::one(), -b)
    }
}

/// How far `moved` and `fresh` may be apart, where the prices of a position with the entry price `entry`
/// are moved to `price` in so many roundings: to the old price, to its distance from the entry price, to
/// the share of that, to the factor, to the moved price and to the fresh price, each off by half its step
/// at the most.
pub open spec fn apart_by_rounding(
    entry: int,
    price: int,
    moved: int,
    fresh: int,
    steps: Seq<int>,
) -> bool {
    let one = decimal::one();
    let e = decimal::abs_of(entry);
    2 * e * one * decimal::abs_of(moved - fresh) <= e * one * (steps[4] + steps[5]) + decimal::abs_of(price)
        * (one * (steps[0] + steps[1]) + e * (steps[2] + steps[3]))
}

/// The steps of the roundings on the way to the price at which to take profit.
pub open spec fn profit_steps(p: HedgePosition<int, Seq<char>>, pct: int, price: int) -> Seq<int> {
    let one = decimal::one();
    let wanted = decimal::sum(one, pct)->0;
    let gap = decimal::difference(p.take_profit_price, p.entry_price)->0;
    let share = hedge_monitor::profit_share(p)->0;
    let factor = decimal::sum(one, share)->0;
    seq![
        decimal::step(p.entry_price * wanted, one),
        decimal::step(p.take_profit_price - p.entry_price, 1),
        quotient_step(gap, p.entry_price),
        decimal::step(one + share, 1),
        decimal::step(price * factor, one),
        decimal::step(price * wanted, one),
    ]
}

/// The steps of the roundings on the way to the price at which to stop a loss.
pub open spec fn loss_steps(p: HedgePosition<int, Seq<char>>, pct: int, price: int) -> Seq<int> {
    let one = decimal::one();
    let wanted = decimal::difference(one, pct)->0;
    let gap = decimal::difference(p.entry_price, p.stop_loss_price)->0;
    let share = hedge_monitor::loss_share(p)->0;
    let factor = decimal::difference(one, share)->0;
    seq![
        decimal::step(p.entry_price * wanted, one),
        decimal::step(p.entry_price - p.stop_loss_price, 1),
        quotient_step(gap, p.entry_price),
        decimal::step(one - share, 1),
        decimal::step(price * factor, one),
        decimal::step(price * wanted, one),
    ]
}

/// A quotient is off by half a step at the most.
proof fn lemma_quotient_error(a: int, b: int)
    requires
        b != 0,
    ensures
        decimal::quotient(a, b) matches Some(q) ==> 2 * decimal::abs_of(q * b - a * decimal::one())
            <= decimal::abs_of(b) * quotient_step(a, b),
{
    let one = decimal::one();
    if b > 0 {
        decimal::lemma_nearest_error(a * one, b, 0);
    } else {
        decimal::lemma_nearest_error(-a * one, -b, 0);
        if decimal::quotient(a, b) is Some {
            let q = decimal::quotient(a, b)->0;
            assert(q * (-b) - (-a) * one == -(q * b - a * one)) by (nonlinear_arith);
        }
    }
}

/// A changed entry price puts the prices at which to sell where a watch that starts at that price, with
/// the same shares of profit and loss, would put them, up to the rounding of the steps in between. All
/// else stays as it is.
pub proof fn moved_like_a_fresh_watch(
    bare: HedgePosition<int, Seq<char>>,
    entry: int,
    take_profit_pct: int,
    stop_loss_pct: int,
    price: int,
)
    requires
        entry != 0,
        hedge_monitor::with_entry(bare, entry, Some(take_profit_pct), Some(stop_loss_pct)) is Some,
        hedge_monitor::with_entry(bare, price, Some(take_profit_pct), Some(stop_loss_pct)) is Some,
    ensures
        ({
            let p = hedge_monitor::with_entry(bare, entry, Some(take_profit_pct), Some(stop_loss_pct))->0;
            let fresh = hedge_monitor::with_entry(bare, price, Some(take_profit_pct), Some(stop_loss_pct))->0;
            hedge_monitor::with_entry(
                p,
                price,
                hedge_monitor::profit_share(p),
                hedge_monitor::loss_share(p),
            ) matches Some(moved) ==> {
                &&& moved == (HedgePosition {
                    take_profit_price: moved.take_profit_price,
                    stop_loss_price: moved.stop_loss_price,
                    ..fresh
                })
                &&& moved.entry_price == price
                &&& apart_by_rounding(
                    entry,
                    price,
                    moved.take_profit_price,
                    fresh.take_profit_price,
                    profit_steps(p, take_profit_pct, price),
                )
                &&& apart_by_rounding(
                    entry,
                    price,
                    moved.stop_loss_price,
                    fresh.stop_loss_price,
                    loss_steps(p, stop_loss_pct, price),
                )
            }
        }),
{
    let one = decimal::one();
    let p = hedge_monitor::with_entry(bare, entry, Some(take_profit_pct), Some(stop_loss_pct))->0;
    let fresh = hedge_monitor::with_entry(bare, price, Some(take_profit_pct), Some(stop_loss_pct))->0;
    match hedge_monitor::with_entry(
        p,
        price,
        hedge_monitor::profit_share(p),
        hedge_monitor::loss_share(p),
    ) {
        Some(moved) => {
            let s = profit_steps(p, take_profit_pct, price);
            let wanted = decimal::sum(one, take_profit_pct)->0;
            let gap = decimal::difference(p.take_profit_price, entry)->0;
            let share = hedge_monitor::profit_share(p)->0;
            let factor = decimal::sum(one, share)->0;
            decimal::lemma_nearest_error(entry * wanted, one, 0);
            decimal::lemma_nearest_error(p.take_profit_price - entry, 1, 0);
            lemma_quotient_error(gap, entry);
            decimal::lemma_nearest_error(one + share, 1, 0);
            lemma_share_error(
                entry,
                wanted,
                p.take_profit_price,
                gap,
                share,
                factor,
                1,
                (s[0], s[1], s[2], s[3]),
            );
            decimal::lemma_nearest_error(price * factor, one, 0);
            decimal::lemma_nearest_error(price * wanted, one, 0);
            lemma_moved_error(
                entry,
                price,
                factor,
                wanted,
                moved.take_profit_price,
                fresh.take_profit_price,
                s[4],
                s[5],
                one * (s[0] + s[1]) + decimal::abs_of(entry) * (s[2] + s[3]),
            );
            let t = loss_steps(p, stop_loss_pct, price);
            let wanted = decimal::difference(one, stop_loss_pct)->0;
            let gap = decimal::difference(entry, p.stop_loss_price)->0;
            let share = hedge_monitor::loss_share(p)->0;
            let factor = decimal::difference(one, share)->0;
            decimal::lemma_nearest_error(entry * wanted, one, 0);
            decimal::lemma_nearest_error(entry - p.stop_loss_price, 1, 0);
            lemma_quotient_error(gap, entry);
            decimal::lemma_nearest_error(one - share, 1, 0);
            lemma_share_error(
                entry,
                wanted,
                p.stop_loss_price,
                gap,
                share,
                factor,
                -1,
                (t[0], t[1], t[2], t[3]),
            );
            decimal::lemma_nearest_error(price * factor, one, 0);
            decimal::lemma_nearest_error(price * wanted, one, 0);
            lemma_moved_error(
                entry,
                price,
                factor,
                wanted,
                moved.stop_loss_price,
                fresh.stop_loss_price,
                t[4],
                t[5],
                one * (t[0] + t[1]) + decimal::abs_of(entry) * (t[2] + t[3]),
            );
        },
        None => {},
    }
}

/// A price of at most one, times a factor of at most two, is rounded to whole atoms and not above the
/// price times the bound on the factor.
proof fn lemma_scaled_price(price: int, factor: int, bound: int)
    requires
        0 <= price <= decimal::one(),
        0 <= factor <= bound * decimal::one(),
        0 <= bound <= 2,
    ensures
        decimal::product(price, factor) is Some,
        decimal::step(price * factor, decimal::one()) == 1,
        0 <= decimal::product(price, factor)->0 <= bound * price,
{
    let one = decimal::one();
    assert(0 <= price * factor <= (bound * price) * one) by (nonlinear_arith)
        requires
            0 <= price,
            0 <= factor <= bound * one,
    ;
    assert((bound * price) * one <= (2 * one) * one) by (nonlinear_arith)
        requires
            0 <= price <= one,
            0 <= bound <= 2,
    ;
    decimal::lemma_nearest_fine(price * factor, one);
    assert(bound * price <= 2 * one) by (nonlinear_arith)
        requires
            0 <= price <= one,
            0 <= bound <= 2,
    ;
    assert(0 <= bound * price) by (nonlinear_arith)
        requires
            0 <= price,
            0 <= bound,
    ;
    decimal::lemma_small_exact(bound * price);
    decimal::lemma_nearest_scaled(bound * price, one, 0);
    decimal::lemma_nearest_monotone(price * factor, (bound * price) * one, one);
    decimal::lemma_small_exact(0);
    decimal::lemma_nearest_scaled(0, one, 0);
    assert(0 * one == 0);
    decimal::lemma_nearest_monotone(0, price * factor, one);
}

/// A distance of at most the entry price is a share from 0 to 1, rounded to whole atoms.
proof fn lemma_share_of_entry(gap: int, entry: int)
    requires
        0 < entry,
        0 <= gap <= entry,
    ensures
        decimal::quotient(gap, entry) is Some,
        quotient_step(gap, entry) == 1,
        0 <= decimal::quotient(gap, entry)->0 <= decimal::one(),
{
    let one = decimal::one();
    assert(0 <= gap * one <= one * entry) by (nonlinear_arith)
        requires
            0 <= gap <= entry,
            one > 0,
    ;
    assert(one * entry <= decimal::MAX_MANTISSA * entry) by (nonlinear_arith)
        requires
            entry > 0,
            one <= decimal::MAX_MANTISSA,
    ;
    decimal::lemma_nearest_fine(gap * one, entry);
    decimal::lemma_small_exact(one);
    decimal::lemma_nearest_scaled(one, entry, 0);
    decimal::lemma_nearest_monotone(gap * one, one * entry, entry);
    decimal::lemma_small_exact(0);
    decimal::lemma_nearest_scaled(0, entry, 0);
    assert(0 * entry == 0);
    decimal::lemma_nearest_monotone(0, gap * one, entry);
}

/// With whole atoms as steps, an entry price of a cent or more and a price of at most one, the moved price
/// is at most 102 atoms off.
proof fn lemma_few_atoms(entry: int, price: int, moved: int, fresh: int, steps: Seq<int>)
    requires
        decimal::atoms(1, 2) <= entry,
        0 <= price <= decimal::one(),
        steps == seq![1int, 1, 1, 1, 1, 1],
        apart_by_rounding(entry, price, moved, fresh, steps),
    ensures
        decimal::abs_of(moved - fresh) <= 102,
{
    let one = decimal::one();
    let d = decimal::abs_of(moved - fresh);
    assert(2 * entry * one * d <= entry * one * 2 + price * (one * 2 + entry * 2));
    assert(price * (one * 2) <= 200 * (entry * one)) by (nonlinear_arith)
        requires
            0 <= price <= one,
            one <= 100 * entry,
            one > 0,
    ;
    assert(price * (entry * 2) <= 2 * (entry * one)) by (nonlinear_arith)
        requires
            0 <= price <= one,
            entry >= 0,
    ;
    assert(price * (one * 2 + entry * 2) == price * (one * 2) + price * (entry * 2)) by (nonlinear_arith);
    assert(2 * entry * one * d == 2 * ((entry * one) * d)) by (nonlinear_arith);
    assert(entry * one * 2 == 2 * (entry * one)) by (nonlinear_arith);
    let unit = entry * one;
    assert(unit > 0) by (nonlinear_arith)
        requires
            entry > 0,
            one > 0,
            unit == entry * one,
    ;
    assert(d <= 102) by (nonlinear_arith)
        requires
            unit > 0,
            2 * (unit * d) <= 204 * unit,
    ;
}

/// For an entry price from a cent to one, a new one of at most one, and shares of profit and loss from 0 to
/// 1, nothing is out of range, and the moved prices differ from those of a fresh watch by at most 102
/// atoms, that is, by about `10^-26`.
pub proof fn moved_prices_are_close(
    bare: HedgePosition<int, Seq<char>>,
    entry: int,
    take_profit_pct: int,
    stop_loss_pct: int,
    price: int,
)
    requires
        decimal::atoms(1, 2) <= entry <= decimal::one(),
        0 <= price <= decimal::one(),
        0 <= take_profit_pct <= decimal::one(),
        0 <= stop_loss_pct <= decimal::one(),
    ensures
        hedge_monitor::with_entry(bare, entry, Some(take_profit_pct), Some(stop_loss_pct)) is Some,
        hedge_monitor::with_entry(bare, price, Some(take_profit_pct), Some(stop_loss_pct)) is Some,
        ({
            let p = hedge_monitor::with_entry(bare, entry, Some(take_profit_pct), Some(stop_loss_pct))->0;
            let fresh = hedge_monitor::with_entry(bare, price, Some(take_profit_pct), Some(stop_loss_pct))->0;
            let moved = hedge_monitor::with_entry(
                p,
                price,
                hedge_monitor::profit_share(p),
                hedge_monitor::loss_share(p),
            );
            &&& moved is Some
            &&& decimal::abs_of((moved->0).take_profit_price - fresh.take_profit_price) <= 102
            &&& decimal::abs_of((moved->0).stop_loss_price - fresh.stop_loss_price) <= 102
        }),
{
    let one = decimal::one();
    decimal::lemma_small_exact(one + take_profit_pct);
    decimal::lemma_small_exact(one - stop_loss_pct);
    let up = one + take_profit_pct;
    let down = one - stop_loss_pct;
    lemma_scaled_price(entry, up, 2);
    lemma_scaled_price(entry, down, 1);
    lemma_scaled_price(price, up, 2);
    lemma_scaled_price(price, down, 1);
    let high = decimal::product(entry, up)->0;
    let low = decimal::product(entry, down)->0;
    assert(high >= entry) by {
        assert(entry * up >= entry * one) by (nonlinear_arith)
            requires
                entry >= 0,
                up >= one,
        ;
        decimal::lemma_small_exact(entry);
        decimal::lemma_nearest_scaled(entry, one, 0);
        decimal::lemma_nearest_monotone(entry * one, entry * up, one);
    }
    decimal::lemma_nearest_fine(high - entry, 1);
    decimal::lemma_small_exact(high - entry);
    decimal::lemma_nearest_fine(entry - low, 1);
    decimal::lemma_small_exact(entry - low);
    lemma_share_of_entry(high - entry, entry);
    lemma_share_of_entry(entry - low, entry);
    let gain = decimal::quotient(high - entry, entry)->0;
    let loss = decimal::quotient(entry - low, entry)->0;
    decimal::lemma_nearest_fine(one + gain, 1);
    decimal::lemma_small_exact(one + gain);
    decimal::lemma_nearest_fine(one - loss, 1);
    decimal::lemma_small_exact(one - loss);
    lemma_scaled_price(price, one + gain, 2);
    lemma_scaled_price(price, one - loss, 1);
    moved_like_a_fresh_watch(bare, entry, take_profit_pct, stop_loss_pct, price);
    let p = hedge_monitor::with_entry(bare, entry, Some(take_profit_pct), Some(stop_loss_pct))->0;
    let fresh = hedge_monitor::with_entry(bare, price, Some(take_profit_pct), Some(stop_loss_pct))->0;
    let moved = hedge_monitor::with_entry(
        p,
        price,
        hedge_monitor::profit_share(p),
        hedge_monitor::loss_share(p),
    )->0;
    let ones = seq![1int, 1, 1, 1, 1, 1];
    assert(profit_steps(p, take_profit_pct, price) =~= ones);
    assert(loss_steps(p, stop_loss_pct, price) =~= ones);
    lemma_few_atoms(entry, price, moved.take_profit_price, fresh.take_profit_price, ones);
    lemma_few_atoms(entry, price, moved.stop_loss_price, fresh.stop_loss_price, ones);
}

} // verus!
