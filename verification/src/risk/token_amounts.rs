//! The concurrent map from token id to amount, and what its operations do.
use vstd::prelude::*;

use crate::decimal::Decimal;
use crate::types::U256;

verus! {

#[verifier::external_type_specification]
#[verifier::external_body]
#[verifier::reject_recursive_types(K)]
#[verifier::reject_recursive_types(V)]
#[verifier::reject_recursive_types(S)]
pub struct ExDashMap<K, V, S>(dashmap::DashMap<K, V, S>);

/// A map from token id (its two halves) to an amount.
pub type TokenAmounts = dashmap::DashMap<(u128, u128), Decimal>;

/// The entries of the map.
pub uninterp spec fn amounts(m: TokenAmounts) -> Map<U256, Decimal>;

/// `values` holds the value of every key of `m` once, in some order.
pub open spec fn lists_values<K, V>(m: Map<K, V>, values: Seq<V>) -> bool {
    exists|keys: Seq<K>|
        {
            &&& #[trigger] keys.no_duplicates()
            &&& keys.to_set() == m.dom()
            &&& values == keys.map_values(|k: K| m[k])
        }
}

/// `dashmap::DashMap::new`: a map without entries.
#[verifier::external_body]
pub(crate) fn new_amounts() -> (m: TokenAmounts)
    ensures
        amounts(m) == (Map::<U256, Decimal>::empty()),
{
    dashmap::DashMap::new()
}

/// `dashmap::DashMap::get`: the value under the key, if there is one.
#[verifier::external_body]
pub(crate) fn get_amount(m: &TokenAmounts, token: U256) -> (r: Option<Decimal>)
    ensures
        r == if amounts(*m).contains_key(token) {
            Some(amounts(*m)[token])
        } else {
            None
        },
{
    m.get(&(token.hi, token.lo)).map(|e| *e.value())
}

/// `dashmap::DashMap::insert`: the value replaces what stood under the key.
#[verifier::external_body]
pub(crate) fn insert_amount(m: &mut TokenAmounts, token: U256, value: Decimal)
    ensures
        amounts(*final(m)) == amounts(*old(m)).insert(token, value),
{
    m.insert((token.hi, token.lo), value);
}

/// `dashmap::DashMap::remove`: nothing stands under the key any more.
#[verifier::external_body]
pub(crate) fn remove_amount(m: &mut TokenAmounts, token: U256)
    ensures
        amounts(*final(m)) == amounts(*old(m)).remove(token),
{
    m.remove(&(token.hi, token.lo));
}

/// `dashmap::DashMap::clear`: no entry is left.
#[verifier::external_body]
pub(crate) fn clear_amounts(m: &mut TokenAmounts)
    ensures
        amounts(*final(m)) == (Map::<U256, Decimal>::empty()),
{
    m.clear();
}

/// `dashmap::DashMap::iter`: the value of every entry, in an order that the map leaves open.
#[verifier::external_body]
pub(crate) fn all_amounts(m: &TokenAmounts) -> (r: Vec<Decimal>)
    ensures
        lists_values(amounts(*m), r@),
{
    m.iter().map(|e| *e.value()).collect()
}

} // verus!
