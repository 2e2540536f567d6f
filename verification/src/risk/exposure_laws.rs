//! What holds of the exposure, the sum of the costs: it is not negative, and it does not depend on the order
//! in which they are added up.
use vstd::prelude::*;

use crate::decimal;
use crate::types::U256;

use super::positions;
use super::positions::TrackerView;
use super::token_amounts;

verus! {

/// The numbers added up, without rounding.
pub open spec fn exact_total(values: Seq<int>) -> int
    decreases values.len(),
{
    if values.len() == 0 {
        0
    } else {
        exact_total(values.drop_last()) + values.last()
    }
}

/// Every cost is a whole number of steps of `10^k` atoms, and not negative.
pub open spec fn costs_on_grid(tracker: TrackerView, k: int) -> bool {
    &&& 0 <= k <= 28
    &&& forall|token: U256| #[trigger]
        tracker.costs.contains_key(token) ==> tracker.costs[token] >= 0 && tracker.costs[token]
            % decimal::pow10(k) == 0
}

/// Two listings of the keys of a map hold the same keys, as often.
proof fn lemma_same_multiset<K>(a: Seq<K>, b: Seq<K>)
    requires
        a.no_duplicates(),
        b.no_duplicates(),
        a.to_set() == b.to_set(),
    ensures
        a.to_multiset() == b.to_multiset(),
{
    broadcast use vstd::seq_lib::group_to_multiset_ensures;

    a.lemma_multiset_has_no_duplicates();
    b.lemma_multiset_has_no_duplicates();
    assert forall|k: K| #[trigger] a.to_multiset().count(k) == b.to_multiset().count(k) by {
        assert(a.to_set().contains(k) <==> a.contains(k));
        assert(b.to_set().contains(k) <==> b.contains(k));
        if a.contains(k) {
            assert(a.to_multiset().contains(k));
            assert(b.to_multiset().contains(k));
        }
    }
    assert(a.to_multiset() =~= b.to_multiset());
}

/// Adding up the values of keys is a fold over the keys.
proof fn lemma_total_is_fold(m: Map<U256, int>, keys: Seq<U256>, start: int)
    ensures
        keys.fold_right(|k: U256, acc: int| acc + m[k], start) == start + exact_total(
            keys.map_values(|k: U256| m[k]),
        ),
    decreases keys.len(),
{
    let values = keys.map_values(|k: U256| m[k]);
    if keys.len() > 0 {
        lemma_total_is_fold(m, keys.drop_last(), start + m[keys.last()]);
        assert(values.drop_last() =~= keys.drop_last().map_values(|k: U256| m[k]));
    }
}

/// Numbers on a grid, none of them negative, are added up without rounding as long as the sum fits.
proof fn lemma_total_exact(values: Seq<int>, k: int)
    requires
        0 <= k <= 28,
        forall|i: int| 0 <= i < values.len() ==> #[trigger] values[i] >= 0 && values[i] % decimal::pow10(k) == 0,
        exact_total(values) <= decimal::MAX_MANTISSA * decimal::pow10(k),
    ensures
        exact_total(values) >= 0,
        exact_total(values) % decimal::pow10(k) == 0,
        decimal::total(values) == Some(exact_total(values)),
    decreases values.len(),
{
    let p = decimal::pow10(k);
    decimal::lemma_pow10_divides(k, 28);
    if values.len() > 0 {
        let before = values.drop_last();
        assert forall|i: int| 0 <= i < before.len() implies #[trigger] before[i] >= 0 && before[i] % p == 0 by {
            assert(before[i] == values[i]);
        }
        assert(values[values.len() - 1] == values.last());
        lemma_total_exact(before, k);
        let (a, b) = (exact_total(before), values.last());
        let e = a + b;
        let (c, d) = (a / p, b / p);
        assert(a == c * p) by (nonlinear_arith)
            requires
                p > 0,
                a % p == 0,
                c == a / p,
        ;
        assert(b == d * p) by (nonlinear_arith)
            requires
                p > 0,
                b % p == 0,
                d == b / p,
        ;
        let n = c + d;
        assert(e == n * p) by (nonlinear_arith)
            requires
                a == c * p,
                b == d * p,
                e == a + b,
                n == c + d,
        ;
        assert(0 <= n <= decimal::MAX_MANTISSA) by (nonlinear_arith)
            requires
                p > 0,
                e == n * p,
                0 <= e <= decimal::MAX_MANTISSA * p,
        ;
        assert(e % p == 0) by (nonlinear_arith)
            requires
                p > 0,
                e == n * p,
        ;
        assert(decimal::representable(e));
        decimal::lemma_representable_exact(e);
    } else {
        assert(0int % p == 0) by (nonlinear_arith)
            requires
                p > 0,
        ;
    }
}

/// Where all costs lie on a grid and their sum fits on it, the exposure is their exact sum, whatever the
/// order in which they come: two readings of it agree.
pub proof fn exposure_does_not_depend_on_order(
    tracker: TrackerView,
    k: int,
    first: Seq<int>,
    second: Seq<int>,
)
    requires
        costs_on_grid(tracker, k),
        token_amounts::lists_values(tracker.costs, first),
        token_amounts::lists_values(tracker.costs, second),
        exact_total(first) <= decimal::MAX_MANTISSA * decimal::pow10(k),
    ensures
        decimal::total(first) == Some(exact_total(first)),
        decimal::total(second) == decimal::total(first),
{
    let m = tracker.costs;
    let a = choose|keys: Seq<U256>|
        {
            &&& #[trigger] keys.no_duplicates()
            &&& keys.to_set() == m.dom()
            &&& first == keys.map_values(|key: U256| m[key])
        };
    let b = choose|keys: Seq<U256>|
        {
            &&& #[trigger] keys.no_duplicates()
            &&& keys.to_set() == m.dom()
            &&& second == keys.map_values(|key: U256| m[key])
        };
    lemma_same_multiset(a, b);
    let f = |key: U256, acc: int| acc + m[key];
    vstd::seq_lib::lemma_fold_right_permutation(a, b, f, 0);
    lemma_total_is_fold(m, a, 0);
    lemma_total_is_fold(m, b, 0);
    assert(exact_total(first) == exact_total(second));
    assert forall|i: int| 0 <= i < first.len() implies #[trigger] first[i] >= 0 && first[i]
        % decimal::pow10(k) == 0 by {
        assert(a.to_set().contains(a[i]));
        assert(m.contains_key(a[i]));
    }
    assert forall|i: int| 0 <= i < second.len() implies #[trigger] second[i] >= 0 && second[i]
        % decimal::pow10(k) == 0 by {
        assert(b.to_set().contains(b[i]));
        assert(m.contains_key(b[i]));
    }
    lemma_total_exact(first, k);
    lemma_total_exact(second, k);
}

/// Numbers that are not negative add up to one that is not.
proof fn lemma_total_not_negative(values: Seq<int>)
    requires
        forall|i: int| 0 <= i < values.len() ==> #[trigger] values[i] >= 0,
    ensures
        decimal::total(values) matches Some(t) ==> t >= 0,
    decreases values.len(),
{
    if values.len() > 0 {
        let before = values.drop_last();
        assert forall|i: int| 0 <= i < before.len() implies #[trigger] before[i] >= 0 by {
            assert(before[i] == values[i]);
        }
        lemma_total_not_negative(before);
        if decimal::total(before) is Some {
            let sum = decimal::total(before)->0 + values.last();
            assert(values[values.len() - 1] == values.last());
            decimal::lemma_small_exact(0);
            decimal::lemma_nearest_monotone(0, sum, 1);
        }
    }
}

/// The exposure is never negative.
pub proof fn exposure_is_not_negative(tracker: TrackerView, e: int)
    requires
        positions::costs_are_kept(tracker),
        tracker.may_have_exposure(Some(e)),
    ensures
        e >= 0,
{
    let m = tracker.costs;
    let values = choose|values: Seq<int>| #[trigger]
        token_amounts::lists_values(m, values) && Some(e) == decimal::total(values);
    let keys = choose|keys: Seq<U256>|
        {
            &&& #[trigger] keys.no_duplicates()
            &&& keys.to_set() == m.dom()
            &&& values == keys.map_values(|key: U256| m[key])
        };
    assert forall|i: int| 0 <= i < values.len() implies #[trigger] values[i] >= 0 by {
        assert(keys.to_set().contains(keys[i]));
        assert(m.contains_key(keys[i]));
    }
    lemma_total_not_negative(values);
}

} // verus!
