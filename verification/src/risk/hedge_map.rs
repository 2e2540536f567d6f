//! The concurrent map from pair to watched position, and what its operations do.
use vstd::prelude::*;

use crate::decimal::Decimal;
use crate::types::U256;

verus! {

/// A position that is watched until it is sold.
#[derive(Clone, Debug)]
pub struct HedgePosition<D = Decimal, S = String> {
    pub token_id: U256,
    /// The token of the other side.
    pub opposite_token_id: U256,
    pub amount: D,
    /// What a share was bought for.
    pub entry_price: D,
    /// At this bid or above it is sold at a gain.
    pub take_profit_price: D,
    /// At this bid or below it is sold at a loss.
    pub stop_loss_price: D,
    pub pair_id: S,
    /// The market's name in messages.
    pub market_display: S,
    /// The open order to sell, if there is one.
    pub order_id: Option<S>,
    /// What is left of the open order.
    pub pending_sell_amount: D,
}

impl View for HedgePosition<Decimal, String> {
    type V = HedgePosition<int, Seq<char>>;

    open spec fn view(&self) -> HedgePosition<int, Seq<char>> {
        HedgePosition {
            token_id: self.token_id,
            opposite_token_id: self.opposite_token_id,
            amount: self.amount@,
            entry_price: self.entry_price@,
            take_profit_price: self.take_profit_price@,
            stop_loss_price: self.stop_loss_price@,
            pair_id: self.pair_id@,
            market_display: self.market_display@,
            order_id: match self.order_id {
                Some(id) => Some(id@),
                None => None,
            },
            pending_sell_amount: self.pending_sell_amount@,
        }
    }
}

impl HedgePosition<Decimal, String> {
    /// A copy.
    pub fn copied(&self) -> (r: HedgePosition)
        ensures
            r@ == self@,
    {
        HedgePosition {
            token_id: self.token_id,
            opposite_token_id: self.opposite_token_id,
            amount: self.amount,
            entry_price: self.entry_price,
            take_profit_price: self.take_profit_price,
            stop_loss_price: self.stop_loss_price,
            pair_id: self.pair_id.clone(),
            market_display: self.market_display.clone(),
            order_id: match &self.order_id {
                Some(id) => Some(id.clone()),
                None => None,
            },
            pending_sell_amount: self.pending_sell_amount,
        }
    }
}

/// A pair and its watched position.
pub struct HedgeEntry {
    pub key: String,
    pub position: HedgePosition,
}

/// The pairs and positions of entries.
pub open spec fn entry_views(entries: Seq<HedgeEntry>) -> Seq<(Seq<char>, HedgePosition<int, Seq<char>>)> {
    entries.map_values(|e: HedgeEntry| (e.key@, e.position@))
}

/// `entries` holds every key of `m` once, with its value, in some order.
pub open spec fn lists_entries<K, V>(m: Map<K, V>, entries: Seq<(K, V)>) -> bool {
    &&& forall|i: int|
        0 <= i < entries.len() ==> m.contains_key((#[trigger] entries[i]).0) && m[entries[i].0] == entries[i].1
    &&& forall|i: int, j: int|
        0 <= i < j < entries.len() ==> (#[trigger] entries[i]).0 != (#[trigger] entries[j]).0
    &&& forall|k: K| #[trigger]
        m.contains_key(k) ==> exists|i: int| 0 <= i < entries.len() && (#[trigger] entries[i]).0 == k
}

/// A map from pair to watched position.
pub type HedgeMap = dashmap::DashMap<String, HedgePosition>;

/// The entries of the map.
pub uninterp spec fn hedges(m: HedgeMap) -> Map<Seq<char>, HedgePosition<int, Seq<char>>>;

/// `dashmap::DashMap::new`: a map without entries.
#[verifier::external_body]
pub(crate) fn new_hedges() -> (m: HedgeMap)
    ensures
        hedges(m) == (Map::<Seq<char>, HedgePosition<int, Seq<char>>>::empty()),
{
    dashmap::DashMap::new()
}

/// `dashmap::DashMap::get`: the value under the key, if there is one.
#[verifier::external_body]
pub(crate) fn get_hedge(m: &HedgeMap, key: &str) -> (r: Option<HedgePosition>)
    ensures
        r is Some <==> hedges(*m).contains_key(key@),
        r matches Some(p) ==> p@ == hedges(*m)[key@],
{
    m.get(key).map(|e| e.value().copied())
}

/// `dashmap::DashMap::insert`: the value replaces what stood under the key.
#[verifier::external_body]
pub(crate) fn insert_hedge(m: &mut HedgeMap, key: String, position: HedgePosition)
    ensures
        hedges(*final(m)) == hedges(*old(m)).insert(key@, position@),
{
    m.insert(key, position);
}

/// `dashmap::DashMap::remove`: nothing stands under the key any more.
#[verifier::external_body]
pub(crate) fn remove_hedge(m: &mut HedgeMap, key: &str)
    ensures
        hedges(*final(m)) == hedges(*old(m)).remove(key@),
{
    m.remove(key);
}

/// `dashmap::DashMap::iter`: every entry, in an order that the map leaves open.
#[verifier::external_body]
pub(crate) fn all_hedges(m: &HedgeMap) -> (r: Vec<HedgeEntry>)
    ensures
        lists_entries(hedges(*m), entry_views(r@)),
{
    m.iter().map(|e| HedgeEntry { key: e.key().clone(), position: e.value().copied() }).collect()
}

} // verus!
