//! Where the two market makers bid: below the fair value of the token that is bid for, by the spread of the
//! phase, moved against what is held.
use vstd::prelude::*;

use crate::decimal;

use super::apex;
use super::apex::{ApexConfig, ApexPhase, MarketView, ToxicityState};
use super::mm;
use super::mm::{InventoryState, MmConfig, Phase};

verus! {

/// A product of six at the most is off by half an atom at the most.
proof fn lemma_product_near(a: int, b: int)
    requires
        -6 * (decimal::one() * decimal::one()) <= a * b <= 6 * (decimal::one() * decimal::one()),
    ensures
        decimal::product(a, b) is Some,
        2 * decimal::abs_of(decimal::product(a, b)->0 * decimal::one() - a * b) <= decimal::one(),
{
    let one = decimal::one();
    assert(6 * (one * one) <= decimal::MAX_MANTISSA * one) by (nonlinear_arith)
        requires
            one > 0,
            6 * one <= decimal::MAX_MANTISSA,
    ;
    assert(-6 * (one * one) == -(6 * (one * one))) by (nonlinear_arith);
    assert(-decimal::MAX_MANTISSA * one == -(decimal::MAX_MANTISSA * one)) by (nonlinear_arith);
    decimal::lemma_nearest_fine(a * b, one);
    decimal::lemma_nearest_error(a * b, one, 0);
}

/// A product of two numbers that are not negative is not negative.
proof fn lemma_product_not_negative(a: int, b: int)
    requires
        a >= 0,
        b >= 0,
    ensures
        decimal::product(a, b) matches Some(p) ==> p >= 0,
{
    let one = decimal::one();
    assert(a * b >= 0) by (nonlinear_arith)
        requires
            a >= 0,
            b >= 0,
    ;
    decimal::lemma_small_exact(0);
    decimal::lemma_nearest_scaled(0, one, 0);
    assert(0 * one == 0);
    decimal::lemma_nearest_monotone(0, a * b, one);
}

/// A larger factor gives a larger product.
proof fn lemma_product_grows(a: int, b: int, c: int)
    requires
        a >= 0,
        b <= c,
    ensures
        decimal::product(a, b) matches Some(p) ==> (decimal::product(a, c) matches Some(q) ==> p <= q),
{
    assert(a * b <= a * c) by (nonlinear_arith)
        requires
            a >= 0,
            b <= c,
    ;
    decimal::lemma_nearest_monotone(a * b, a * c, decimal::one());
}

/// A product with zero is zero.
proof fn lemma_product_of_zero(a: int)
    ensures
        decimal::product(a, 0) == Some(0int),
        decimal::product(0, a) == Some(0int),
{
    let one = decimal::one();
    decimal::lemma_small_exact(0);
    decimal::lemma_nearest_scaled(0, one, 0);
    assert(0 * one == 0 && a * 0 == 0 && 0 * a == 0);
}

/// The opposite factor gives the opposite product.
proof fn lemma_product_negated(a: int, b: int)
    ensures
        decimal::product(a, -b) == match decimal::product(a, b) {
            Some(p) => Some(-p),
            None => None,
        },
{
    assert(a * (-b) == -(a * b)) by (nonlinear_arith);
    decimal::lemma_nearest_negated(a * b, decimal::one(), 0);
}

/// A decimal less zero is itself.
proof fn lemma_no_skew(a: int)
    requires
        decimal::representable(a),
    ensures
        decimal::difference(a, 0) == Some(a),
        decimal::sum(a, 0) == Some(a),
{
    decimal::lemma_representable_exact(a);
}

/// A decimal less something that is not negative is not above it.
proof fn lemma_less(a: int, b: int)
    requires
        decimal::representable(a),
        b >= 0,
    ensures
        decimal::difference(a, b) matches Some(c) ==> c <= a,
{
    decimal::lemma_nearest_at_most(a - b, a);
}

/// `n / (1000 * 10^28)`, but at least a cent, is at most three atoms from `bid`.
pub open spec fn three_atoms_from(bid: int, n: int) -> bool {
    let unit = 1000 * decimal::one();
    decimal::abs_of(decimal::max_of(n, unit * decimal::atoms(1, 2)) - unit * bid) <= 3 * unit
}

/// The errors of a bid: `skew` is close to `moved / 10^28`, `first` to `base * a / 10^28`, `wide` to
/// `first * b / 10^28`, and `half` to `wide * c / 10^28`, where `a`, `b` and `c` are so many tenths of one.
proof fn lemma_bid_near(
    fair: int,
    moved: int,
    base: int,
    factors: (int, int, int),
    bid: int,
    skew: int,
    halves: (int, int, int),
)
    requires
        10 <= factors.0 <= 20,
        10 <= factors.1 <= 30,
        0 <= factors.2 <= 10,
        2 * decimal::abs_of(skew * decimal::one() - moved) <= decimal::one(),
        2 * decimal::abs_of(halves.0 * decimal::one() - base * decimal::atoms(factors.0, 1)) <= decimal::one(),
        2 * decimal::abs_of(halves.1 * decimal::one() - halves.0 * decimal::atoms(factors.1, 1)) <= decimal::one(),
        2 * decimal::abs_of(halves.2 * decimal::one() - halves.1 * decimal::atoms(factors.2, 1)) <= decimal::one(),
        bid == decimal::max_of(fair - skew - halves.2, decimal::atoms(1, 2)),
    ensures
        three_atoms_from(
            bid,
            1000 * (fair * decimal::one()) - 1000 * moved - (factors.0 * factors.1 * factors.2) * (base
                * decimal::one()),
        ),
{
    let (a, b, c) = factors;
    let (first, wide, half) = halves;
    let one = decimal::one();
    let tenth = decimal::pow10(27);
    assert(one == 10 * tenth);
    let x = 1000 * (fair * one) - 1000 * moved - (a * b * c) * (base * one);
    let e1 = skew * one - moved;
    let e2 = first * one - base * (a * tenth);
    let e3 = wide * one - first * (b * tenth);
    let e4 = half * one - wide * (c * tenth);
    assert(10 * (first * one) - a * (base * one) == 10 * e2) by (nonlinear_arith)
        requires
            one == 10 * tenth,
            e2 == first * one - base * (a * tenth),
    ;
    assert(10 * (wide * one) - b * (first * one) == 10 * e3) by (nonlinear_arith)
        requires
            one == 10 * tenth,
            e3 == wide * one - first * (b * tenth),
    ;
    assert(10 * (half * one) - c * (wide * one) == 10 * e4) by (nonlinear_arith)
        requires
            one == 10 * tenth,
            e4 == half * one - wide * (c * tenth),
    ;
    assert(100 * (wide * one) - (a * b) * (base * one) == 100 * e3 + b * (10 * e2)) by (nonlinear_arith)
        requires
            10 * (wide * one) - b * (first * one) == 10 * e3,
            10 * (first * one) - a * (base * one) == 10 * e2,
    ;
    let e5 = 100 * e3 + b * (10 * e2);
    assert(1000 * (half * one) - (a * b * c) * (base * one) == 1000 * e4 + c * e5) by (nonlinear_arith)
        requires
            10 * (half * one) - c * (wide * one) == 10 * e4,
            100 * (wide * one) - (a * b) * (base * one) == e5,
    ;
    let y = fair - skew - half;
    assert(1000 * one * y == 1000 * (fair * one) - 1000 * (skew * one) - 1000 * (half * one)) by (nonlinear_arith)
        requires
            y == fair - skew - half,
    ;
    assert(x - 1000 * one * y == 1000 * e1 + 1000 * e4 + c * e5);
    assert(-150 * one <= b * (10 * e2) <= 150 * one) by (nonlinear_arith)
        requires
            10 <= b <= 30,
            -one <= 2 * e2 <= one,
    ;
    assert(-2000 * one <= c * e5 <= 2000 * one) by (nonlinear_arith)
        requires
            0 <= c <= 10,
            -200 * one <= e5 <= 200 * one,
            one > 0,
    ;
    assert(decimal::abs_of(x - 1000 * one * y) <= 3000 * one);
    let cent = decimal::atoms(1, 2);
    assert(y <= cent ==> 1000 * one * y <= 1000 * one * cent) by (nonlinear_arith)
        requires
            one > 0,
    ;
    assert(y >= cent ==> 1000 * one * y >= 1000 * one * cent) by (nonlinear_arith)
        requires
            one > 0,
    ;
}

/// A spread of at most one, times a factor of at most two and one of at most three, is at most six.
proof fn lemma_spread_in_range(base: int, a: int, b: int)
    requires
        10 <= a <= 20,
        10 <= b <= 30,
        0 <= base <= decimal::one(),
    ensures
        decimal::product(base, decimal::atoms(a, 1)) matches Some(first) && {
            &&& 2 * decimal::abs_of(first * decimal::one() - base * decimal::atoms(a, 1)) <= decimal::one()
            &&& 0 <= first <= 2 * decimal::one()
            &&& decimal::product(first, decimal::atoms(b, 1)) matches Some(wide) && 2 * decimal::abs_of(
                wide * decimal::one() - first * decimal::atoms(b, 1),
            ) <= decimal::one() && 0 <= wide <= 6 * decimal::one()
        },
{
    let one = decimal::one();
    let (fa, fb) = (decimal::atoms(a, 1), decimal::atoms(b, 1));
    assert(0 <= base * fa <= 2 * (one * one)) by (nonlinear_arith)
        requires
            0 <= base <= one,
            0 <= fa <= 2 * one,
    ;
    lemma_product_near(base, fa);
    lemma_product_not_negative(base, fa);
    let first = decimal::product(base, fa)->0;
    assert((2 * one) * one == 2 * (one * one)) by (nonlinear_arith);
    decimal::lemma_small_exact(2 * one);
    decimal::lemma_nearest_scaled(2 * one, one, 0);
    decimal::lemma_nearest_monotone(base * fa, (2 * one) * one, one);
    assert(0 <= first * fb <= 6 * (one * one)) by (nonlinear_arith)
        requires
            0 <= first <= 2 * one,
            0 <= fb <= 3 * one,
    ;
    lemma_product_near(first, fb);
    lemma_product_not_negative(first, fb);
    assert((6 * one) * one == 6 * (one * one)) by (nonlinear_arith);
    decimal::lemma_small_exact(6 * one);
    decimal::lemma_nearest_scaled(6 * one, one, 0);
    decimal::lemma_nearest_monotone(first * fb, (6 * one) * one, one);
}

/// A move of at most one, rounded.
proof fn lemma_skew_in_range(gamma: int, net: int)
    requires
        -(decimal::one() * decimal::one()) <= gamma * net <= decimal::one() * decimal::one(),
    ensures
        decimal::product(gamma, net) matches Some(skew) && 2 * decimal::abs_of(
            skew * decimal::one() - gamma * net,
        ) <= decimal::one() && -decimal::one() <= skew <= decimal::one(),
{
    let one = decimal::one();
    assert(one * one > 0) by (nonlinear_arith)
        requires
            one > 0,
    ;
    lemma_product_near(gamma, net);
    decimal::lemma_small_exact(one);
    decimal::lemma_nearest_scaled(one, one, 0);
    decimal::lemma_nearest_monotone(gamma * net, one * one, one);
    decimal::lemma_small_exact(-one);
    decimal::lemma_nearest_scaled(-one, one, 0);
    assert((-one) * one == -(one * one)) by (nonlinear_arith);
    decimal::lemma_nearest_monotone((-one) * one, gamma * net, one);
}

/// Prices, spreads and moves of the size that occurs: fair values and spread from 0 to 1, and a move by the
/// inventory of 1 at the most, up or down.
pub open spec fn usual(base: int, gamma: int, net: int, yes_fair: int, no_fair: int) -> bool {
    let one = decimal::one();
    &&& 0 <= base <= one
    &&& 0 <= yes_fair <= one
    &&& 0 <= no_fair <= one
    &&& -(one * one) <= gamma * net <= one * one
}

/// Each bid of the market maker lies below the fair value of its own token by the spread of the phase: one
/// and a half times the base spread early, once in the middle, twice late, and three times that in toxic
/// flow. YES is moved down, and NO up, by gamma for each share of YES that is held on balance. No bid is
/// below a cent.
pub proof fn maker_bids_near(
    config: MmConfig<int>,
    inventory: InventoryState<int>,
    phase: Phase,
    yes_fair: int,
    no_fair: int,
    net: int,
)
    requires
        inventory.yes_held - inventory.no_held == net,
        decimal::representable(net),
        usual(config.base_spread, config.inventory_gamma, net, yes_fair, no_fair),
    ensures
        mm::bids(config, inventory, phase, yes_fair, no_fair) is Some,
        ({
            let (yes_bid, no_bid) = mm::bids(config, inventory, phase, yes_fair, no_fair)->0;
            let one = decimal::one();
            let by_phase: int = match phase {
                Phase::Early => 15,
                Phase::Mid => 10,
                Phase::Late => 20,
            };
            let by_flow: int = if inventory.recent_quote_count >= 5 {
                30
            } else {
                10
            };
            let spread = (by_phase * by_flow * 10) * (config.base_spread * one);
            let moved = 1000 * (config.inventory_gamma * net);
            &&& three_atoms_from(yes_bid, 1000 * (yes_fair * one) - moved - spread)
            &&& three_atoms_from(no_bid, 1000 * (no_fair * one) + moved - spread)
        }),
{
    let one = decimal::one();
    let (base, gamma) = (config.base_spread, config.inventory_gamma);
    let a: int = match phase {
        Phase::Early => 15,
        Phase::Mid => 10,
        Phase::Late => 20,
    };
    let b: int = if inventory.recent_quote_count >= 5 {
        30
    } else {
        10
    };
    decimal::lemma_representable_exact(net);
    lemma_skew_in_range(gamma, net);
    lemma_spread_in_range(base, a, b);
    let skew = decimal::product(gamma, net)->0;
    let first = decimal::product(base, decimal::atoms(a, 1))->0;
    let wide = decimal::product(first, decimal::atoms(b, 1))->0;
    decimal::lemma_small_exact(yes_fair - skew);
    decimal::lemma_small_exact(no_fair + skew);
    decimal::lemma_small_exact(yes_fair - skew - wide);
    decimal::lemma_small_exact(no_fair + skew - wide);
    assert(decimal::atoms(10, 1) == one);
    assert(mm::bids(config, inventory, phase, yes_fair, no_fair) is Some);
    let (yes_bid, no_bid) = mm::bids(config, inventory, phase, yes_fair, no_fair)->0;
    lemma_bid_near(yes_fair, gamma * net, base, (a, b, 10), yes_bid, skew, (first, wide, wide));
    assert((-skew) * one == -(skew * one)) by (nonlinear_arith);
    lemma_bid_near(no_fair, -(gamma * net), base, (a, b, 10), no_bid, -skew, (first, wide, wide));
}

/// With nothing held on balance and a spread that is not negative, neither bid of the market maker is above
/// the fair value of its own token, or one cent.
pub proof fn maker_bids_below_fair_value(
    config: MmConfig<int>,
    inventory: InventoryState<int>,
    phase: Phase,
    yes_fair: int,
    no_fair: int,
)
    requires
        inventory.yes_held == inventory.no_held,
        config.base_spread >= 0,
        decimal::representable(yes_fair),
        decimal::representable(no_fair),
    ensures
        mm::bids(config, inventory, phase, yes_fair, no_fair) matches Some((yes_bid, no_bid)) ==> {
            &&& decimal::atoms(1, 2) <= yes_bid <= decimal::max_of(yes_fair, decimal::atoms(1, 2))
            &&& decimal::atoms(1, 2) <= no_bid <= decimal::max_of(no_fair, decimal::atoms(1, 2))
        },
{
    decimal::lemma_small_exact(0);
    lemma_product_of_zero(config.inventory_gamma);
    lemma_no_skew(yes_fair);
    lemma_no_skew(no_fair);
    lemma_product_not_negative(config.base_spread, phase.multiplier());
    if decimal::product(config.base_spread, phase.multiplier()) is Some {
        let first = decimal::product(config.base_spread, phase.multiplier())->0;
        let b = if inventory.toxic() {
            decimal::atoms(30, 1)
        } else {
            decimal::atoms(10, 1)
        };
        lemma_product_not_negative(first, b);
        if decimal::product(first, b) is Some {
            let half = decimal::product(first, b)->0;
            lemma_less(yes_fair, half);
            lemma_less(no_fair, half);
        }
    }
}

/// Each bid of the market maker follows the fair value of its own token, up and down, and does not look at
/// the other's.
pub proof fn maker_bids_follow_fair_value(
    config: MmConfig<int>,
    inventory: InventoryState<int>,
    phase: Phase,
    yes_low: int,
    yes_high: int,
    no_low: int,
    no_high: int,
)
    requires
        yes_low <= yes_high,
        no_low <= no_high,
    ensures
        mm::bids(config, inventory, phase, yes_low, no_high) matches Some((yes, no)) ==> {
            &&& mm::bids(config, inventory, phase, yes_high, no_high) matches Some((more_yes, same_no)) ==> yes
                <= more_yes && same_no == no
            &&& mm::bids(config, inventory, phase, yes_low, no_low) matches Some((same_yes, less_no)) ==> less_no
                <= no && same_yes == yes
        },
{
    let skew = decimal::opt_product(Some(config.inventory_gamma), inventory.net());
    if skew is Some {
        let s = skew->0;
        decimal::lemma_nearest_monotone(yes_low - s, yes_high - s, 1);
        decimal::lemma_nearest_monotone(no_low + s, no_high + s, 1);
        let half = decimal::opt_product(
            decimal::product(config.base_spread, phase.multiplier()),
            Some(
                if inventory.toxic() {
                    decimal::atoms(30, 1)
                } else {
                    decimal::atoms(10, 1)
                },
            ),
        );
        if half is Some {
            let h = half->0;
            let (yl, yh) = (decimal::difference(yes_low, s), decimal::difference(yes_high, s));
            let (nl, nh) = (decimal::sum(no_low, s), decimal::sum(no_high, s));
            if yl is Some && yh is Some {
                decimal::lemma_nearest_monotone(yl->0 - h, yh->0 - h, 1);
            }
            if nl is Some && nh is Some {
                decimal::lemma_nearest_monotone(nl->0 - h, nh->0 - h, 1);
            }
        }
    }
}

/// With YES and NO changed for each other, so are the two bids of the market maker.
pub proof fn maker_bids_mirrored(
    config: MmConfig<int>,
    inventory: InventoryState<int>,
    phase: Phase,
    yes_fair: int,
    no_fair: int,
)
    ensures
        ({
            let other = InventoryState { yes_held: inventory.no_held, no_held: inventory.yes_held, ..inventory };
            mm::bids(config, other, phase, no_fair, yes_fair) == match mm::bids(
                config,
                inventory,
                phase,
                yes_fair,
                no_fair,
            ) {
                Some((yes, no)) => Some((no, yes)),
                None => None,
            }
        }),
{
    decimal::lemma_nearest_negated(inventory.yes_held - inventory.no_held, 1, 0);
    if inventory.net() is Some {
        lemma_product_negated(config.inventory_gamma, inventory.net()->0);
    }
}

/// The market maker bids the lowest late, lower early than in the middle, and lower in toxic flow than in
/// normal flow.
pub proof fn maker_widens_by_phase(
    config: MmConfig<int>,
    inventory: InventoryState<int>,
    yes_fair: int,
    no_fair: int,
)
    requires
        config.base_spread >= 0,
        mm::bids(config, inventory, Phase::Early, yes_fair, no_fair) is Some,
        mm::bids(config, inventory, Phase::Mid, yes_fair, no_fair) is Some,
        mm::bids(config, inventory, Phase::Late, yes_fair, no_fair) is Some,
    ensures
        ({
            let early = mm::bids(config, inventory, Phase::Early, yes_fair, no_fair)->0;
            let mid = mm::bids(config, inventory, Phase::Mid, yes_fair, no_fair)->0;
            let late = mm::bids(config, inventory, Phase::Late, yes_fair, no_fair)->0;
            &&& late.0 <= early.0 <= mid.0
            &&& late.1 <= early.1 <= mid.1
        }),
{
    let base = config.base_spread;
    let b = if inventory.toxic() {
        decimal::atoms(30, 1)
    } else {
        decimal::atoms(10, 1)
    };
    let skew = decimal::opt_product(Some(config.inventory_gamma), inventory.net())->0;
    let yes = decimal::difference(yes_fair, skew)->0;
    let no = decimal::sum(no_fair, skew)->0;
    let m = decimal::product(base, decimal::atoms(10, 1))->0;
    let e = decimal::product(base, decimal::atoms(15, 1))->0;
    let l = decimal::product(base, decimal::atoms(20, 1))->0;
    lemma_product_grows(base, decimal::atoms(10, 1), decimal::atoms(15, 1));
    lemma_product_grows(base, decimal::atoms(15, 1), decimal::atoms(20, 1));
    assert(m * b == b * m && e * b == b * e && l * b == b * l) by (nonlinear_arith);
    lemma_product_grows(b, m, e);
    lemma_product_grows(b, e, l);
    let (hm, he, hl) = (decimal::product(m, b)->0, decimal::product(e, b)->0, decimal::product(l, b)->0);
    decimal::lemma_nearest_monotone(yes - he, yes - hm, 1);
    decimal::lemma_nearest_monotone(yes - hl, yes - he, 1);
    decimal::lemma_nearest_monotone(no - he, no - hm, 1);
    decimal::lemma_nearest_monotone(no - hl, no - he, 1);
}

/// Each bid of the apex market maker lies below the fair value of its own token by the spread: one and a half
/// times the base spread in the first minute, once in the second and third, 1.2 times in the fourth (and 0.8
/// times that with more than two shares on balance), and twice from the fifth on; all that one and a half
/// times in doubtful flow and three times in toxic flow. YES is moved down, and NO up, by gamma for each
/// share of YES that is held on balance. Close to expiry the heavy side's bid is three cents lower with more
/// than two shares on balance; with more than five, the light side's is two cents higher, but half a cent
/// below its fair value at the most, and the heavy side is not bid for. No bid is below a cent, and a side is
/// bid for only where one more quote stays within its cap.
pub proof fn apex_bids_near(
    config: ApexConfig<int>,
    market: MarketView,
    phase: ApexPhase,
    yes_fair: int,
    no_fair: int,
    net: int,
)
    requires
        market.yes_held - market.no_held == net,
        decimal::representable(net),
        decimal::representable(market.yes_held + config.quote_size),
        decimal::representable(market.no_held + config.quote_size),
        usual(config.base_spread, config.inventory_gamma, net, yes_fair, no_fair),
    ensures
        market.calculate_quotes(config, phase, yes_fair, no_fair) is Some,
        ({
            let (yes_bid, no_bid, can_yes, can_no) = market.calculate_quotes(
                config,
                phase,
                yes_fair,
                no_fair,
            )->0;
            let one = decimal::one();
            let unit = 1000 * one;
            let cent = unit * decimal::atoms(1, 2);
            let by_phase: int = match phase {
                ApexPhase::Early => 15,
                ApexPhase::Adaptive => 10,
                ApexPhase::Cleanup => 12,
                ApexPhase::Resolution => 20,
            };
            let by_flow: int = match market.toxicity {
                ToxicityState::Normal => 10,
                ToxicityState::Caution => 15,
                ToxicityState::Toxic => 30,
            };
            let by_load: int = if phase is Cleanup && (net > 2 * one || net < -2 * one) {
                8
            } else {
                10
            };
            let spread = (by_phase * by_flow * by_load) * (config.base_spread * one);
            let moved = 1000 * (config.inventory_gamma * net);
            let yes = 1000 * (yes_fair * one) - moved - spread;
            let no = 1000 * (no_fair * one) + moved - spread;
            let late = phase is Resolution;
            &&& three_atoms_from(
                yes_bid,
                if late && net < -5 * one {
                    decimal::min_of(
                        decimal::max_of(yes, cent) + 2 * cent,
                        unit * (yes_fair - decimal::atoms(5, 3)),
                    )
                } else if late && 2 * one < net <= 5 * one {
                    decimal::max_of(yes, cent) - 3 * cent
                } else {
                    yes
                },
            )
            &&& three_atoms_from(
                no_bid,
                if late && net > 5 * one {
                    decimal::min_of(
                        decimal::max_of(no, cent) + 2 * cent,
                        unit * (no_fair - decimal::atoms(5, 3)),
                    )
                } else if late && -5 * one <= net < -2 * one {
                    decimal::max_of(no, cent) - 3 * cent
                } else {
                    no
                },
            )
            &&& can_yes <==> market.yes_held < config.max_position_per_side && market.yes_held
                + config.quote_size <= config.max_position_per_side && !(late && net > 5 * one)
            &&& can_no <==> market.no_held < config.max_position_per_side && market.no_held
                + config.quote_size <= config.max_position_per_side && !(late && net < -5 * one)
        }),
{
    let one = decimal::one();
    assert(decimal::atoms(5, 0) == 5 * one && decimal::atoms(-5, 0) == -5 * one);
    assert(decimal::atoms(2, 0) == 2 * one && decimal::atoms(-2, 0) == -2 * one);
    decimal::lemma_representable_exact(net);
    decimal::lemma_representable_exact(market.yes_held + config.quote_size);
    decimal::lemma_representable_exact(market.no_held + config.quote_size);
    let (yes, no) = apex_exact(config, market, phase, yes_fair, no_fair, net);
    let (raw_yes, raw_no) = lemma_apex_raw(config, market, phase, yes_fair, no_fair, net);
    lemma_raised_near(raw_yes, yes, yes_fair);
    lemma_raised_near(raw_no, no, no_fair);
    lemma_lowered_near(raw_yes, yes);
    lemma_lowered_near(raw_no, no);
}

/// The bids before the adjustments close to expiry, `1000 * 10^28` times, without rounding.
spec fn apex_exact(
    config: ApexConfig<int>,
    market: MarketView,
    phase: ApexPhase,
    yes_fair: int,
    no_fair: int,
    net: int,
) -> (int, int) {
    let one = decimal::one();
    let by_phase: int = match phase {
        ApexPhase::Early => 15,
        ApexPhase::Adaptive => 10,
        ApexPhase::Cleanup => 12,
        ApexPhase::Resolution => 20,
    };
    let by_flow: int = match market.toxicity {
        ToxicityState::Normal => 10,
        ToxicityState::Caution => 15,
        ToxicityState::Toxic => 30,
    };
    let by_load: int = if phase is Cleanup && (net > 2 * one || net < -2 * one) {
        8
    } else {
        10
    };
    let spread = (by_phase * by_flow * by_load) * (config.base_spread * one);
    let moved = 1000 * (config.inventory_gamma * net);
    (1000 * (yes_fair * one) - moved - spread, 1000 * (no_fair * one) + moved - spread)
}

/// The bids before the adjustments close to expiry.
proof fn lemma_apex_raw(
    config: ApexConfig<int>,
    market: MarketView,
    phase: ApexPhase,
    yes_fair: int,
    no_fair: int,
    net: int,
) -> (r: (int, int))
    requires
        usual(config.base_spread, config.inventory_gamma, net, yes_fair, no_fair),
    ensures
        ({
            let skew = decimal::product(config.inventory_gamma, net);
            let half = apex::half_spread(config, phase, market.toxicity, net);
            &&& apex::opt_at_least(
                decimal::opt_difference(decimal::opt_difference(Some(yes_fair), skew), half),
                apex::cent(),
            ) == Some(r.0)
            &&& apex::opt_at_least(
                decimal::opt_difference(decimal::opt_sum(Some(no_fair), skew), half),
                apex::cent(),
            ) == Some(r.1)
        }),
        three_atoms_from(r.0, apex_exact(config, market, phase, yes_fair, no_fair, net).0),
        three_atoms_from(r.1, apex_exact(config, market, phase, yes_fair, no_fair, net).1),
        decimal::atoms(1, 2) <= r.0 <= 2 * decimal::one(),
        decimal::atoms(1, 2) <= r.1 <= 2 * decimal::one(),
{
    let one = decimal::one();
    let (base, gamma) = (config.base_spread, config.inventory_gamma);
    let a: int = match phase {
        ApexPhase::Early => 15,
        ApexPhase::Adaptive => 10,
        ApexPhase::Cleanup => 12,
        ApexPhase::Resolution => 20,
    };
    let b: int = match market.toxicity {
        ToxicityState::Normal => 10,
        ToxicityState::Caution => 15,
        ToxicityState::Toxic => 30,
    };
    let c: int = if phase is Cleanup && (net > 2 * one || net < -2 * one) {
        8
    } else {
        10
    };
    assert(decimal::atoms(2, 0) == 2 * one);
    lemma_skew_in_range(gamma, net);
    lemma_spread_in_range(base, a, b);
    let skew = decimal::product(gamma, net)->0;
    let first = decimal::product(base, decimal::atoms(a, 1))->0;
    let wide = decimal::product(first, decimal::atoms(b, 1))->0;
    let eight = decimal::atoms(8, 1);
    assert(0 <= wide * eight <= 6 * (one * one)) by (nonlinear_arith)
        requires
            0 <= wide <= 6 * one,
            0 <= eight <= one,
    ;
    lemma_product_near(wide, eight);
    lemma_product_not_negative(wide, eight);
    decimal::lemma_small_exact(6 * one);
    decimal::lemma_nearest_scaled(6 * one, one, 0);
    assert((6 * one) * one == 6 * (one * one)) by (nonlinear_arith);
    decimal::lemma_nearest_monotone(wide * eight, (6 * one) * one, one);
    let half = if c == 8 {
        decimal::product(wide, eight)->0
    } else {
        wide
    };
    assert(0 <= half <= 6 * one);
    assert(apex::half_spread(config, phase, market.toxicity, net) == Some(half));
    decimal::lemma_small_exact(yes_fair - skew);
    decimal::lemma_small_exact(no_fair + skew);
    decimal::lemma_small_exact(yes_fair - skew - half);
    decimal::lemma_small_exact(no_fair + skew - half);
    let cent = decimal::atoms(1, 2);
    let raw_yes = decimal::max_of(yes_fair - skew - half, cent);
    let raw_no = decimal::max_of(no_fair + skew - half, cent);
    lemma_bid_near(yes_fair, gamma * net, base, (a, b, c), raw_yes, skew, (first, wide, half));
    assert((-skew) * one == -(skew * one)) by (nonlinear_arith);
    lemma_bid_near(no_fair, -(gamma * net), base, (a, b, c), raw_no, -skew, (first, wide, half));
    (raw_yes, raw_no)
}

/// A bid that is raised close to expiry.
proof fn lemma_raised_near(raw: int, x: int, fair: int)
    requires
        three_atoms_from(raw, x),
        decimal::atoms(1, 2) <= raw <= 2 * decimal::one(),
        0 <= fair <= decimal::one(),
    ensures
        apex::raised(Some(raw), fair) matches Some(bid) && three_atoms_from(
            bid,
            ({
                let unit = 1000 * decimal::one();
                let cent = unit * decimal::atoms(1, 2);
                decimal::min_of(decimal::max_of(x, cent) + 2 * cent, unit * (fair - decimal::atoms(5, 3)))
            }),
        ),
{
    let unit = 1000 * decimal::one();
    let cent = decimal::atoms(1, 2);
    let two = decimal::atoms(2, 2);
    let cap = fair - decimal::atoms(5, 3);
    decimal::lemma_small_exact(raw + two);
    decimal::lemma_small_exact(cap);
    assert(unit * (raw + two) == unit * raw + 2 * (unit * cent)) by (nonlinear_arith)
        requires
            two == 2 * cent,
    ;
    lemma_unit_order(raw + two, cap);
    lemma_unit_order(raw + two, cent);
    lemma_unit_order(cap, cent);
    assert(unit * cent > 0) by (nonlinear_arith)
        requires
            unit > 0,
            cent > 0,
    ;
    let bid = apex::raised(Some(raw), fair)->0;
    let m = decimal::max_of(x, unit * cent);
    assert(decimal::abs_of(m - unit * raw) <= 3 * unit);
    assert(unit * bid == decimal::max_of(
        decimal::min_of(unit * (raw + two), unit * cap),
        unit * cent,
    ));
}

/// A bid that is lowered close to expiry.
proof fn lemma_lowered_near(raw: int, x: int)
    requires
        three_atoms_from(raw, x),
        decimal::atoms(1, 2) <= raw <= 2 * decimal::one(),
    ensures
        apex::lowered(Some(raw)) matches Some(bid) && three_atoms_from(
            bid,
            ({
                let cent = (1000 * decimal::one()) * decimal::atoms(1, 2);
                decimal::max_of(x, cent) - 3 * cent
            }),
        ),
{
    let unit = 1000 * decimal::one();
    let cent = decimal::atoms(1, 2);
    let three = decimal::atoms(3, 2);
    decimal::lemma_small_exact(raw - three);
    assert(unit * (raw - three) == unit * raw - 3 * (unit * cent)) by (nonlinear_arith)
        requires
            three == 3 * cent,
    ;
    lemma_unit_order(raw - three, cent);
    let bid = apex::lowered(Some(raw))->0;
    assert(unit * bid == decimal::max_of(unit * (raw - three), unit * cent));
}

/// Larger numbers stay larger in a finer unit.
proof fn lemma_unit_order(a: int, b: int)
    ensures
        a <= b ==> (1000 * decimal::one()) * a <= (1000 * decimal::one()) * b,
        a >= b ==> (1000 * decimal::one()) * a >= (1000 * decimal::one()) * b,
{
    let unit = 1000 * decimal::one();
    assert(a <= b ==> unit * a <= unit * b) by (nonlinear_arith)
        requires
            unit > 0,
    ;
    assert(a >= b ==> unit * a >= unit * b) by (nonlinear_arith)
        requires
            unit > 0,
    ;
}

/// With nothing held on balance and a spread that is not negative, neither bid of the apex market maker is
/// above the fair value of its own token, or one cent.
pub proof fn apex_bids_below_fair_value(
    config: ApexConfig<int>,
    market: MarketView,
    phase: ApexPhase,
    yes_fair: int,
    no_fair: int,
)
    requires
        market.yes_held == market.no_held,
        config.base_spread >= 0,
        decimal::representable(yes_fair),
        decimal::representable(no_fair),
    ensures
        market.calculate_quotes(config, phase, yes_fair, no_fair) matches Some((yes_bid, no_bid, _, _)) ==> {
            &&& decimal::atoms(1, 2) <= yes_bid <= decimal::max_of(yes_fair, decimal::atoms(1, 2))
            &&& decimal::atoms(1, 2) <= no_bid <= decimal::max_of(no_fair, decimal::atoms(1, 2))
        },
{
    decimal::lemma_small_exact(0);
    lemma_product_of_zero(config.inventory_gamma);
    lemma_no_skew(yes_fair);
    lemma_no_skew(no_fair);
    lemma_half_spread_not_negative(config, phase, market.toxicity, 0);
    if apex::half_spread(config, phase, market.toxicity, 0) is Some {
        let half = apex::half_spread(config, phase, market.toxicity, 0)->0;
        lemma_less(yes_fair, half);
        lemma_less(no_fair, half);
    }
}

/// The half spread is not negative where the base spread is not.
proof fn lemma_half_spread_not_negative(
    config: ApexConfig<int>,
    phase: ApexPhase,
    toxicity: ToxicityState,
    net: int,
)
    requires
        config.base_spread >= 0,
    ensures
        apex::half_spread(config, phase, toxicity, net) matches Some(half) ==> half >= 0,
{
    lemma_product_not_negative(config.base_spread, phase.multiplier());
    if decimal::product(config.base_spread, phase.multiplier()) is Some {
        let first = decimal::product(config.base_spread, phase.multiplier())->0;
        lemma_product_not_negative(first, toxicity.multiplier());
        if decimal::product(first, toxicity.multiplier()) is Some {
            lemma_product_not_negative(decimal::product(first, toxicity.multiplier())->0, decimal::atoms(8, 1));
        }
    }
}

/// Each bid of the apex market maker follows the fair value of its own token, up and down, and does not look
/// at the other's.
pub proof fn apex_bids_follow_fair_value(
    config: ApexConfig<int>,
    market: MarketView,
    phase: ApexPhase,
    yes_low: int,
    yes_high: int,
    no_low: int,
    no_high: int,
)
    requires
        yes_low <= yes_high,
        no_low <= no_high,
    ensures
        market.calculate_quotes(config, phase, yes_low, no_high) matches Some((yes, no, _, _)) ==> {
            &&& market.calculate_quotes(config, phase, yes_high, no_high) matches Some((more_yes, same_no, _, _))
                ==> yes <= more_yes && same_no == no
            &&& market.calculate_quotes(config, phase, yes_low, no_low) matches Some((same_yes, less_no, _, _))
                ==> less_no <= no && same_yes == yes
        },
{
    if market.net_inventory() is Some {
        let net = market.net_inventory()->0;
        let skew = decimal::product(config.inventory_gamma, net);
        let half = apex::half_spread(config, phase, market.toxicity, net);
        if skew is Some && half is Some {
            let (s, h) = (skew->0, half->0);
            decimal::lemma_nearest_monotone(yes_low - s, yes_high - s, 1);
            decimal::lemma_nearest_monotone(no_low + s, no_high + s, 1);
            let (yl, yh) = (decimal::difference(yes_low, s), decimal::difference(yes_high, s));
            let (nl, nh) = (decimal::sum(no_low, s), decimal::sum(no_high, s));
            let cent = apex::cent();
            if yl is Some && yh is Some {
                decimal::lemma_nearest_monotone(yl->0 - h, yh->0 - h, 1);
                lemma_adjusted_grows(yl->0, yh->0, h, yes_low, yes_high);
            }
            if nl is Some && nh is Some {
                decimal::lemma_nearest_monotone(nl->0 - h, nh->0 - h, 1);
                lemma_adjusted_grows(nl->0, nh->0, h, no_low, no_high);
            }
        }
    }
}

/// A higher bid stays the higher one when both are raised, and when both are lowered.
proof fn lemma_adjusted_grows(low: int, high: int, half: int, fair_low: int, fair_high: int)
    requires
        low <= high,
        fair_low <= fair_high,
    ensures
        ({
            let a = apex::opt_at_least(decimal::difference(low, half), apex::cent());
            let b = apex::opt_at_least(decimal::difference(high, half), apex::cent());
            &&& apex::raised(a, fair_low) matches Some(x) ==> (apex::raised(b, fair_high) matches Some(y) ==> x <= y)
            &&& apex::lowered(a) matches Some(x) ==> (apex::lowered(b) matches Some(y) ==> x <= y)
        }),
{
    decimal::lemma_nearest_monotone(low - half, high - half, 1);
    let a = apex::opt_at_least(decimal::difference(low, half), apex::cent());
    let b = apex::opt_at_least(decimal::difference(high, half), apex::cent());
    decimal::lemma_nearest_monotone(fair_low - decimal::atoms(5, 3), fair_high - decimal::atoms(5, 3), 1);
    if a is Some && b is Some {
        decimal::lemma_nearest_monotone(a->0 + decimal::atoms(2, 2), b->0 + decimal::atoms(2, 2), 1);
        decimal::lemma_nearest_monotone(a->0 - decimal::atoms(3, 2), b->0 - decimal::atoms(3, 2), 1);
    }
}

/// With YES and NO changed for each other, so are the two bids of the apex market maker, and which side may
/// be bid for.
pub proof fn apex_bids_mirrored(
    config: ApexConfig<int>,
    market: MarketView,
    phase: ApexPhase,
    yes_fair: int,
    no_fair: int,
)
    ensures
        ({
            let other = MarketView { yes_held: market.no_held, no_held: market.yes_held, ..market };
            other.calculate_quotes(config, phase, no_fair, yes_fair) == match market.calculate_quotes(
                config,
                phase,
                yes_fair,
                no_fair,
            ) {
                Some((yes, no, can_yes, can_no)) => Some((no, yes, can_no, can_yes)),
                None => None,
            }
        }),
{
    decimal::lemma_nearest_negated(market.yes_held - market.no_held, 1, 0);
    if market.net_inventory() is Some {
        lemma_product_negated(config.inventory_gamma, market.net_inventory()->0);
    }
}

/// With at most two shares on balance, the apex market maker bids the lowest from the fifth minute on, and
/// lower in the first than in the fourth, and in the fourth than in the two before.
pub proof fn apex_widens_by_phase(config: ApexConfig<int>, market: MarketView, yes_fair: int, no_fair: int, net: int)
    requires
        config.base_spread >= 0,
        market.net_inventory() == Some(net),
        decimal::atoms(-2, 0) <= net <= decimal::atoms(2, 0),
        forall|phase: ApexPhase| #[trigger] market.calculate_quotes(config, phase, yes_fair, no_fair) is Some,
    ensures
        ({
            let early = market.calculate_quotes(config, ApexPhase::Early, yes_fair, no_fair)->0;
            let adaptive = market.calculate_quotes(config, ApexPhase::Adaptive, yes_fair, no_fair)->0;
            let cleanup = market.calculate_quotes(config, ApexPhase::Cleanup, yes_fair, no_fair)->0;
            let resolution = market.calculate_quotes(config, ApexPhase::Resolution, yes_fair, no_fair)->0;
            &&& resolution.0 <= early.0 <= cleanup.0 <= adaptive.0
            &&& resolution.1 <= early.1 <= cleanup.1 <= adaptive.1
        }),
{
    let base = config.base_spread;
    let tox = market.toxicity;
    let b = tox.multiplier();
    let skew = decimal::product(config.inventory_gamma, net)->0;
    let early = market.calculate_quotes(config, ApexPhase::Early, yes_fair, no_fair);
    let adaptive = market.calculate_quotes(config, ApexPhase::Adaptive, yes_fair, no_fair);
    let cleanup = market.calculate_quotes(config, ApexPhase::Cleanup, yes_fair, no_fair);
    let resolution = market.calculate_quotes(config, ApexPhase::Resolution, yes_fair, no_fair);
    assert(early is Some && adaptive is Some && cleanup is Some && resolution is Some);
    let yes = decimal::difference(yes_fair, skew)->0;
    let no = decimal::sum(no_fair, skew)->0;
    lemma_wider(base, decimal::atoms(10, 1), decimal::atoms(12, 1), b, yes, no);
    lemma_wider(base, decimal::atoms(12, 1), decimal::atoms(15, 1), b, yes, no);
    lemma_wider(base, decimal::atoms(15, 1), decimal::atoms(20, 1), b, yes, no);
}

/// A larger factor on the spread does not raise a bid.
proof fn lemma_wider(base: int, narrow: int, wide: int, b: int, yes: int, no: int)
    requires
        base >= 0,
        narrow <= wide,
        b >= 0,
    ensures
        ({
            let n = decimal::opt_product(decimal::product(base, narrow), Some(b));
            let w = decimal::opt_product(decimal::product(base, wide), Some(b));
            &&& decimal::opt_difference(Some(yes), n) matches Some(x) ==> (decimal::opt_difference(Some(yes), w) matches Some(
                y,
            ) ==> y <= x)
            &&& decimal::opt_difference(Some(no), n) matches Some(x) ==> (decimal::opt_difference(Some(no), w) matches Some(
                y,
            ) ==> y <= x)
        }),
{
    lemma_product_grows(base, narrow, wide);
    let (p, q) = (decimal::product(base, narrow), decimal::product(base, wide));
    if p is Some && q is Some {
        assert(p->0 * b == b * p->0 && q->0 * b == b * q->0) by (nonlinear_arith);
        lemma_product_grows(b, p->0, q->0);
        let (n, w) = (decimal::product(p->0, b), decimal::product(q->0, b));
        if n is Some && w is Some {
            decimal::lemma_nearest_monotone(yes - w->0, yes - n->0, 1);
            decimal::lemma_nearest_monotone(no - w->0, no - n->0, 1);
        }
    }
}

/// The more doubtful the flow, the lower the bids of the apex market maker.
pub proof fn apex_widens_by_flow(
    config: ApexConfig<int>,
    market: MarketView,
    phase: ApexPhase,
    yes_fair: int,
    no_fair: int,
)
    requires
        phase is Early || phase is Adaptive,
        config.base_spread >= 0,
    ensures
        ({
            let calm = MarketView { toxicity: ToxicityState::Normal, ..market };
            let doubtful = MarketView { toxicity: ToxicityState::Caution, ..market };
            calm.calculate_quotes(config, phase, yes_fair, no_fair) matches Some((yes, no, _, _)) ==> (
            doubtful.calculate_quotes(config, phase, yes_fair, no_fair) matches Some((low_yes, low_no, _, _))
                ==> low_yes <= yes && low_no <= no)
        }),
{
    if market.net_inventory() is Some {
        let net = market.net_inventory()->0;
        let skew = decimal::product(config.inventory_gamma, net);
        let first = decimal::product(config.base_spread, phase.multiplier());
        lemma_product_not_negative(config.base_spread, phase.multiplier());
        if skew is Some && first is Some {
            lemma_product_grows(first->0, decimal::atoms(10, 1), decimal::atoms(15, 1));
            let (n, w) = (
                decimal::product(first->0, decimal::atoms(10, 1)),
                decimal::product(first->0, decimal::atoms(15, 1)),
            );
            let (yes, no) = (decimal::difference(yes_fair, skew->0), decimal::sum(no_fair, skew->0));
            if n is Some && w is Some && yes is Some && no is Some {
                decimal::lemma_nearest_monotone(yes->0 - w->0, yes->0 - n->0, 1);
                decimal::lemma_nearest_monotone(no->0 - w->0, no->0 - n->0, 1);
            }
        }
    }
}

/// The prices around which both sides are bid for are the fair values, each moved by the same amount: YES down and
/// NO up by what a share weighs times the shares of YES that are held beyond those of NO.
pub proof fn reservation_moves_against_what_is_held(
    config: ApexConfig<int>,
    market: MarketView,
    yes_fair: int,
    no_fair: int,
    moved: int,
)
    requires
        decimal::representable(market.yes_held - market.no_held),
        moved * decimal::one() == config.inventory_gamma * (market.yes_held - market.no_held),
        decimal::representable(moved),
        decimal::representable(yes_fair - moved),
        decimal::representable(no_fair + moved),
    ensures
        market.reservation_prices(config, yes_fair, no_fair) == Some((yes_fair - moved, no_fair + moved)),
{
    decimal::lemma_representable_exact(market.yes_held - market.no_held);
    decimal::lemma_nearest_scaled(moved, decimal::one(), 0);
    decimal::lemma_representable_exact(moved);
    decimal::lemma_representable_exact(yes_fair - moved);
    decimal::lemma_representable_exact(no_fair + moved);
}

} // verus!
