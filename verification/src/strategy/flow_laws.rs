//! How the apex market maker judges the flow of a market: by how fast it had to requote, and by how far the
//! sizes in the book have moved, in either direction.
use vstd::prelude::*;

use crate::decimal;
use crate::monitor::{BookView, Level};
use crate::time;

use super::apex;
use super::apex::{ApexConfig, MarketView};

verus! {

/// A book's imbalance that has moved by the threshold or more, in either direction, makes the flow toxic.
pub proof fn large_move_is_toxic(
    market: MarketView,
    config: ApexConfig<int>,
    prev: int,
    curr: int,
    now: u64,
)
    requires
        market.last_imbalance == Some(prev),
        decimal::representable(config.toxicity_imbalance_threshold),
        curr - prev >= config.toxicity_imbalance_threshold || prev - curr
            >= config.toxicity_imbalance_threshold,
    ensures
        market.update_toxicity(config, Some(curr), now) matches Some(after) ==> {
            &&& after.toxicity is Toxic
            &&& after.last_imbalance == Some(curr)
        },
{
    let t = config.toxicity_imbalance_threshold;
    if curr - prev >= t {
        decimal::lemma_nearest_at_least(curr - prev, t);
    }
    if prev - curr >= t {
        decimal::lemma_nearest_at_least(prev - curr, t);
        decimal::lemma_nearest_negated(prev - curr, 1, 0);
    }
}

/// A book's imbalance that has moved by half the threshold or more, in either direction, makes the flow
/// doubtful at the least.
pub proof fn half_a_move_is_doubtful(
    market: MarketView,
    config: ApexConfig<int>,
    prev: int,
    curr: int,
    now: u64,
)
    requires
        market.last_imbalance == Some(prev),
        0 <= config.toxicity_imbalance_threshold <= 2 * decimal::one(),
        2 * (curr - prev) > config.toxicity_imbalance_threshold || 2 * (prev - curr)
            > config.toxicity_imbalance_threshold,
    ensures
        market.update_toxicity(config, Some(curr), now) matches Some(after) ==> after.toxicity !is Normal,
{
    let t = config.toxicity_imbalance_threshold;
    let half = lemma_half(t);
    decimal::lemma_small_exact(half);
    assert(decimal::representable(half)) by {
        assert(half == half * decimal::pow10(0));
    }
    if 2 * (curr - prev) > t {
        decimal::lemma_nearest_at_least(curr - prev, half);
    }
    if 2 * (prev - curr) > t {
        decimal::lemma_nearest_at_least(prev - curr, half);
        decimal::lemma_nearest_negated(prev - curr, 1, 0);
    }
}

/// Half of a number, to an atom.
proof fn lemma_half(t: int) -> (half: int)
    requires
        0 <= t <= 2 * decimal::one(),
    ensures
        decimal::quotient(t, decimal::atoms(2, 0)) == Some(half),
        t - 1 <= 2 * half <= t + 1,
        0 <= half <= decimal::one(),
{
    let one = decimal::one();
    let two = decimal::atoms(2, 0);
    assert(two == 2 * one);
    assert(-decimal::MAX_MANTISSA * two <= t * one <= decimal::MAX_MANTISSA * two) by (nonlinear_arith)
        requires
            0 <= t <= 2 * one,
            one > 0,
            two == 2 * one,
            one <= decimal::MAX_MANTISSA,
    ;
    decimal::lemma_nearest_fine(t * one, two);
    decimal::lemma_nearest_error(t * one, two, 0);
    let half = decimal::quotient(t, two)->0;
    assert(half * two - t * one == (2 * half - t) * one) by (nonlinear_arith)
        requires
            two == 2 * one,
    ;
    let e = 2 * half - t;
    assert(-1 <= e <= 1) by (nonlinear_arith)
        requires
            one > 0,
            -(2 * one) <= 2 * (e * one) <= 2 * one,
    ;
    decimal::lemma_small_exact(0);
    decimal::lemma_nearest_scaled(0, two, 0);
    assert(0 * two == 0 && t * one >= 0) by (nonlinear_arith)
        requires
            t >= 0,
            one > 0,
    ;
    decimal::lemma_nearest_monotone(0, t * one, two);
    decimal::lemma_small_exact(one);
    decimal::lemma_nearest_scaled(one, two, 0);
    assert(t * one <= one * two) by (nonlinear_arith)
        requires
            t <= 2 * one,
            two == 2 * one,
            one > 0,
    ;
    decimal::lemma_nearest_monotone(t * one, one * two, two);
    half
}

/// A book's imbalance that has moved by less than half the threshold does not count: the flow is judged as if
/// nothing had been known of the book before.
pub proof fn small_move_does_not_count(
    market: MarketView,
    config: ApexConfig<int>,
    prev: int,
    curr: int,
    now: u64,
)
    requires
        market.last_imbalance == Some(prev),
        0 <= config.toxicity_imbalance_threshold <= 2 * decimal::one(),
        2 * (curr - prev) < config.toxicity_imbalance_threshold - 1,
        2 * (prev - curr) < config.toxicity_imbalance_threshold - 1,
    ensures
        market.update_toxicity(config, Some(curr), now) is Some,
        market.update_toxicity(config, Some(curr), now) == (MarketView {
            last_imbalance: None,
            ..market
        }).update_toxicity(config, Some(curr), now),
{
    let t = config.toxicity_imbalance_threshold;
    let half = lemma_half(t);
    decimal::lemma_small_exact(curr - prev);
}

/// The flow is judged the same where both imbalances point the other way.
pub proof fn judged_the_same_either_way(
    market: MarketView,
    config: ApexConfig<int>,
    prev: int,
    curr: int,
    now: u64,
)
    ensures
        ({
            let one_way = MarketView { last_imbalance: Some(prev), ..market };
            let other_way = MarketView { last_imbalance: Some(-prev), ..market };
            let a = one_way.update_toxicity(config, Some(curr), now);
            let b = other_way.update_toxicity(config, Some(-curr), now);
            &&& a is Some <==> b is Some
            &&& a is Some ==> (a->0).toxicity == (b->0).toxicity
        }),
{
    decimal::lemma_nearest_negated(curr - prev, 1, 0);
    assert(-(curr - prev) == -curr - (-prev));
}

/// Where nothing was known of the book before, or nothing is known now, only the requotes count.
pub proof fn unknown_book_does_not_count(
    market: MarketView,
    config: ApexConfig<int>,
    imbalance: Option<int>,
    now: u64,
)
    requires
        market.last_imbalance is None || imbalance is None,
    ensures
        market.update_toxicity(config, imbalance, now) is Some,
        ({
            let after = market.update_toxicity(config, imbalance, now)->0;
            let bare = (MarketView { last_imbalance: None, ..market }).update_toxicity(config, None, now)->0;
            &&& after.toxicity == bare.toxicity
            &&& after.last_imbalance == imbalance
        }),
{
}

/// Two neighbours are less than a second and a half apart.
pub open spec fn has_burst(quotes: Seq<u64>) -> bool {
    exists|i: int| 0 < i < quotes.len() && #[trigger] time::millis_between(quotes[i], quotes[i - 1]) < 1500
}

/// The shortest gap is below a second and a half where there is such a gap, and only there.
proof fn lemma_burst(quotes: Seq<u64>)
    ensures
        has_burst(quotes) <==> (apex::min_gap(quotes) matches Some(gap) && gap < 1500),
        apex::min_gap(quotes) matches Some(gap) ==> 0 <= gap <= u64::MAX,
    decreases quotes.len(),
{
    if quotes.len() >= 2 {
        let before = quotes.drop_last();
        lemma_burst(before);
        let n = quotes.len() - 1;
        let gap = time::millis_between(quotes[n], quotes[n - 1]);
        assert(quotes.last() == quotes[n]);
        if has_burst(before) {
            let i = choose|i: int|
                0 < i < before.len() && #[trigger] time::millis_between(before[i], before[i - 1]) < 1500;
            assert(time::millis_between(quotes[i], quotes[i - 1]) < 1500);
        }
        if has_burst(quotes) {
            let i = choose|i: int|
                0 < i < quotes.len() && #[trigger] time::millis_between(quotes[i], quotes[i - 1]) < 1500;
            if i < n {
                assert(time::millis_between(before[i], before[i - 1]) < 1500);
            }
        }
    }
}

/// As many requotes in the last ten seconds as the threshold, two of them less than a second and a half
/// apart, make the flow toxic, whatever the book says. One fewer makes it doubtful at the least. Without two
/// so close together, or with fewer, the requotes are normal.
pub proof fn fast_requotes_are_toxic(
    market: MarketView,
    config: ApexConfig<int>,
    imbalance: Option<int>,
    now: u64,
    kept: Seq<u64>,
)
    requires
        kept == market.recent_quotes.filter(|t: u64| t + 10_000_000_000 > now),
        kept.len() <= u32::MAX,
        market.update_toxicity(config, imbalance, now) is Some,
    ensures
        ({
            let after = market.update_toxicity(config, imbalance, now)->0;
            let limit = config.toxicity_quote_threshold;
            &&& after.recent_quotes == kept
            &&& has_burst(kept) && kept.len() >= limit ==> after.toxicity is Toxic
            &&& has_burst(kept) && kept.len() + 1 >= limit ==> after.toxicity !is Normal
            &&& market.last_imbalance is None && !(has_burst(kept) && kept.len() + 1 >= limit)
                ==> after.toxicity is Normal
            &&& market.last_imbalance is None && kept.len() < limit ==> after.toxicity !is Toxic
        }),
{
    lemma_burst(kept);
    let fresh = |t: u64| time::nanos_since(now, t) < 10_000_000_000;
    let direct = |t: u64| t + 10_000_000_000 > now;
    assert(fresh =~= direct);
    if has_burst(kept) {
        assert(kept.len() >= 2);
    }
}

/// A quote more than half a second after the last requote is a requote of its own.
pub proof fn later_quote_counts(market: MarketView, is_yes: bool, size: int, now: u64)
    requires
        market.recent_quotes.len() == 0 || now >= market.recent_quotes.last() + 501_000_000,
        market.record_quote(is_yes, size, now) is Some,
    ensures
        (market.record_quote(is_yes, size, now)->0).recent_quotes == market.recent_quotes.push(now),
{
}

/// A quote counts for its own side alone, with its size.
pub proof fn quote_counts_for_its_side(market: MarketView, size: int, now: u64)
    requires
        decimal::representable(market.yes_held + size),
        decimal::representable(market.no_held + size),
    ensures
        ({
            let yes = market.record_quote(true, size, now);
            let no = market.record_quote(false, size, now);
            &&& yes is Some && (yes->0).yes_held == market.yes_held + size && (yes->0).no_held == market.no_held
            &&& no is Some && (no->0).no_held == market.no_held + size && (no->0).yes_held == market.yes_held
            &&& (yes->0).toxicity == market.toxicity && (no->0).toxicity == market.toxicity
            &&& (yes->0).last_imbalance == market.last_imbalance && (no->0).last_imbalance == market.last_imbalance
        }),
{
    decimal::lemma_representable_exact(market.yes_held + size);
    decimal::lemma_representable_exact(market.no_held + size);
}

/// The sizes of three levels at the most, from the top of the bids.
pub open spec fn bids_near_top(book: BookView) -> int {
    (if book.bids.len() > 0 {
        book.bids[0].size
    } else {
        0
    }) + (if book.bids.len() > 1 {
        book.bids[1].size
    } else {
        0
    }) + (if book.bids.len() > 2 {
        book.bids[2].size
    } else {
        0
    })
}

/// The sizes of three levels at the most, from the top of the asks, which is their end.
pub open spec fn asks_near_top(book: BookView) -> int {
    let n = book.asks.len();
    (if n > 0 {
        book.asks[n - 1].size
    } else {
        0
    }) + (if n > 1 {
        book.asks[n - 2].size
    } else {
        0
    }) + (if n > 2 {
        book.asks[n - 3].size
    } else {
        0
    })
}

/// Sizes from zero to a million, in atoms of a grid on which their sums are exact.
pub open spec fn usual_sizes(levels: Seq<Level<int>>) -> bool {
    forall|i: int|
        0 <= i < levels.len() ==> 0 <= (#[trigger] levels[i]).size <= decimal::atoms(1_000_000, 0)
            && levels[i].size % decimal::pow10(8) == 0
}

/// Up to 7.9 million on a grid of twenty decimal places nothing is rounded.
proof fn lemma_grid_exact(e: int)
    requires
        0 <= e <= 6 * decimal::atoms(1_000_000, 0),
        e % decimal::pow10(8) == 0,
    ensures
        decimal::nearest(e, 1) == Some(e),
        decimal::representable(e),
{
    let p = decimal::pow10(8);
    let c = e / p;
    assert(e == c * p && 0 <= c) by (nonlinear_arith)
        requires
            p > 0,
            e >= 0,
            e % p == 0,
            c == e / p,
    ;
    assert(c <= decimal::MAX_MANTISSA) by (nonlinear_arith)
        requires
            e == c * p,
            p > 0,
            e <= 6 * decimal::atoms(1_000_000, 0),
            6 * decimal::atoms(1_000_000, 0) <= decimal::MAX_MANTISSA * p,
    ;
    assert(decimal::representable(c * decimal::pow10(8)));
    decimal::lemma_representable_exact(e);
}

/// Sums on the grid stay on it.
proof fn lemma_grid_sum(a: int, b: int)
    requires
        a % decimal::pow10(8) == 0,
        b % decimal::pow10(8) == 0,
    ensures
        (a + b) % decimal::pow10(8) == 0,
        (a - b) % decimal::pow10(8) == 0,
{
    let p = decimal::pow10(8);
    assert((a + b) % p == 0 && (a - b) % p == 0) by (nonlinear_arith)
        requires
            p == 100_000_000,
            a % p == 0,
            b % p == 0,
    ;
}

/// The total of three numbers at the most, on the grid.
proof fn lemma_top_total(sizes: Seq<int>)
    requires
        sizes.len() <= 3,
        forall|i: int|
            0 <= i < sizes.len() ==> 0 <= (#[trigger] sizes[i]) <= decimal::atoms(1_000_000, 0) && sizes[i]
                % decimal::pow10(8) == 0,
    ensures
        ({
            let sum = (if sizes.len() > 0 {
                sizes[0]
            } else {
                0
            }) + (if sizes.len() > 1 {
                sizes[1]
            } else {
                0
            }) + (if sizes.len() > 2 {
                sizes[2]
            } else {
                0
            });
            &&& decimal::total(sizes) == Some(sum)
            &&& 0 <= sum <= sizes.len() * decimal::atoms(1_000_000, 0)
            &&& sum % decimal::pow10(8) == 0
        }),
    decreases sizes.len(),
{
    if sizes.len() > 0 {
        let before = sizes.drop_last();
        assert forall|i: int| 0 <= i < before.len() implies 0 <= (#[trigger] before[i]) <= decimal::atoms(
            1_000_000,
            0,
        ) && before[i] % decimal::pow10(8) == 0 by {
            assert(before[i] == sizes[i]);
        }
        lemma_top_total(before);
        let n = sizes.len() - 1;
        assert(sizes.last() == sizes[n]);
        assert(0 <= sizes[n] <= decimal::atoms(1_000_000, 0) && sizes[n] % decimal::pow10(8) == 0);
        let a = decimal::total(before)->0;
        let most = decimal::atoms(1_000_000, 0);
        assert(sizes.len() * most == before.len() * most + most) by (nonlinear_arith)
            requires
                sizes.len() == before.len() + 1,
        ;
        assert(before.len() * most <= 2 * most) by (nonlinear_arith)
            requires
                before.len() <= 2,
                most >= 0,
        ;
        lemma_grid_sum(a, sizes[n]);
        lemma_grid_exact(a + sizes[n]);
        if n > 0 {
            assert(before[0] == sizes[0]);
        }
        if n > 1 {
            assert(before[1] == sizes[1]);
        }
    } else {
        assert(0int % decimal::pow10(8) == 0);
    }
}

/// The imbalance of a book is the difference of the sizes near its top, bids less asks, over their sum: it
/// runs from -1, where only asks are there, to 1, where only bids are. Levels below the third do not count.
pub proof fn imbalance_near_top(book: BookView)
    requires
        usual_sizes(book.bids),
        usual_sizes(book.asks),
    ensures
        ({
            let (bids, asks) = (bids_near_top(book), asks_near_top(book));
            &&& apex::lean(book) is Some
            &&& apex::lean(book)->0 is None <==> bids + asks == 0
            &&& apex::lean(book) matches Some(Some(q)) ==> {
                &&& 2 * decimal::abs_of(q * (bids + asks) - (bids - asks) * decimal::one()) <= bids + asks
                &&& -decimal::one() <= q <= decimal::one()
                &&& bids > 0 && asks == 0 ==> q == decimal::one()
                &&& asks > 0 && bids == 0 ==> q == -decimal::one()
                &&& bids == asks ==> q == 0
            }
        }),
{
    let one = decimal::one();
    let tb = apex::top_bids(book.bids);
    let ta = apex::top_asks(book.asks);
    assert forall|i: int| 0 <= i < tb.len() implies 0 <= (#[trigger] tb[i]) <= decimal::atoms(1_000_000, 0) && tb[i]
        % decimal::pow10(8) == 0 by {
        assert(tb[i] == book.bids[i].size);
    }
    assert forall|i: int| 0 <= i < ta.len() implies 0 <= (#[trigger] ta[i]) <= decimal::atoms(1_000_000, 0) && ta[i]
        % decimal::pow10(8) == 0 by {
        assert(ta[i] == book.asks[book.asks.len() - 1 - i].size);
    }
    lemma_top_total(tb);
    lemma_top_total(ta);
    let (bids, asks) = (bids_near_top(book), asks_near_top(book));
    assert(decimal::total(tb) == Some(bids)) by {
        assert(tb.len() == decimal::min_of(3, book.bids.len() as int));
        assert(tb.len() > 0 ==> tb[0] == book.bids[0].size);
        assert(tb.len() > 1 ==> tb[1] == book.bids[1].size);
        assert(tb.len() > 2 ==> tb[2] == book.bids[2].size);
    }
    assert(decimal::total(ta) == Some(asks)) by {
        let n = book.asks.len();
        assert(ta.len() == decimal::min_of(3, n as int));
        assert(ta.len() > 0 ==> ta[0] == book.asks[n - 1].size);
        assert(ta.len() > 1 ==> ta[1] == book.asks[n - 2].size);
        assert(ta.len() > 2 ==> ta[2] == book.asks[n - 3].size);
    }
    lemma_grid_sum(bids, asks);
    lemma_grid_exact(bids + asks);
    let both = bids + asks;
    let d = bids - asks;
    if d >= 0 {
        lemma_grid_exact(d);
    } else {
        lemma_grid_sum(asks, bids);
        lemma_grid_exact(-d);
        decimal::lemma_nearest_negated(-d, 1, 0);
    }
    assert(decimal::difference(bids, asks) == Some(d));
    if both > 0 {
        assert(-(one * both) <= d * one <= one * both) by (nonlinear_arith)
            requires
                -both <= d <= both,
                one > 0,
        ;
        assert(one * both <= decimal::MAX_MANTISSA * both && -decimal::MAX_MANTISSA * both <= -(one * both))
            by (nonlinear_arith)
            requires
                both > 0,
                one <= decimal::MAX_MANTISSA,
        ;
        decimal::lemma_nearest_fine(d * one, both);
        decimal::lemma_nearest_error(d * one, both, 0);
        decimal::lemma_small_exact(one);
        decimal::lemma_nearest_scaled(one, both, 0);
        decimal::lemma_nearest_monotone(d * one, one * both, both);
        decimal::lemma_small_exact(-one);
        decimal::lemma_nearest_scaled(-one, both, 0);
        assert((-one) * both == -(one * both)) by (nonlinear_arith);
        decimal::lemma_nearest_monotone((-one) * both, d * one, both);
        decimal::lemma_small_exact(0);
        decimal::lemma_nearest_scaled(0, both, 0);
        assert(0 * both == 0);
        assert(both == d ==> d * one == one * both) by (nonlinear_arith);
        assert(both == -d ==> d * one == (-one) * both) by (nonlinear_arith);
        assert(both * decimal::step(d * one, both) == both);
    }
}

} // verus!
