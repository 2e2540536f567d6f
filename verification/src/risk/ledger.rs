//! Shares, costs and the limit with their decimal places, as the texts on them show them.
use vstd::prelude::*;

use crate::decimal;
use crate::decimal::{Decimal, Digits};
use crate::positions::Position;
use crate::types::U256;

use super::positions::{dust, smallest_cost};
use super::token_amounts;

verus! {

/// The amounts of a map, with their decimal places.
pub open spec fn amounts_in_digits(m: Map<U256, Decimal>) -> Map<U256, Digits> {
    m.map_values(|d: Decimal| d.digits())
}

/// What a map holds under a key, zero without decimal places where it holds nothing.
pub open spec fn digits_or_none(m: Map<U256, Digits>, token: U256) -> Digits {
    if m.contains_key(token) {
        m[token]
    } else {
        decimal::no_digits()
    }
}

/// What a position tracker knows, with decimal places.
#[verifier::ext_equal]
pub struct Ledger {
    /// Shares held of each token.
    pub shares: Map<U256, Digits>,
    /// What the shares of each token cost.
    pub costs: Map<U256, Digits>,
    /// The limit on the exposure.
    pub limit: Digits,
}

/// The cost of a holding after a trade of `delta` shares. A sale that leaves nothing gives less than one
/// cent here, whatever its sign: such a cost is not kept.
pub open spec fn digits_after(cost: Digits, held: Digits, price: Digits, delta: Digits) -> Option<Digits> {
    if delta.atoms > 0 {
        decimal::opt_added(Some(cost), decimal::multiplied(price, delta))
    } else if held.atoms > 0 {
        let sold = Digits { atoms: -delta.atoms, ..delta };
        let kept_share = match decimal::divided(
            if sold.atoms > held.atoms {
                held
            } else {
                sold
            },
            held,
        ) {
            Some(share) => decimal::subtracted(Digits { atoms: decimal::one(), scale: 0 }, share),
            None => None,
        };
        match kept_share {
            Some(share) => decimal::multiplied(cost, share),
            None => None,
        }
    } else {
        Some(decimal::no_digits())
    }
}

impl Ledger {
    /// `delta` more shares of the token are held. A position of (almost) zero is zero and has no cost.
    /// `None` where the sum is out of range.
    pub open spec fn booked(self, token: U256, delta: Digits) -> Option<Ledger> {
        match decimal::added(digits_or_none(self.shares, token), delta) {
            Some(p) => if decimal::abs_of(p.atoms) < dust() {
                Some(
                    Ledger {
                        shares: self.shares.insert(token, decimal::no_digits()),
                        costs: self.costs.remove(token),
                        ..self
                    },
                )
            } else {
                Some(Ledger { shares: self.shares.insert(token, p), ..self })
            },
            None => None,
        }
    }

    /// The cost follows a trade of `delta` shares at `price`; a cost below one cent is forgotten. `None`
    /// where a step is out of range.
    pub open spec fn charged(self, token: U256, price: Digits, delta: Digits) -> Option<Ledger> {
        if delta.atoms == 0 {
            Some(self)
        } else {
            match digits_after(
                digits_or_none(self.costs, token),
                digits_or_none(self.shares, token),
                price,
                delta,
            ) {
                Some(c) => if c.atoms < smallest_cost() {
                    Some(Ledger { costs: self.costs.remove(token), ..self })
                } else {
                    Some(Ledger { costs: self.costs.insert(token, c), ..self })
                },
                None => None,
            }
        }
    }

    /// The ledger after a booking; itself where there was none.
    pub open spec fn with(self, booking: Option<Ledger>) -> Ledger {
        match booking {
            Some(l) => l,
            None => self,
        }
    }

    /// No cost is left.
    pub open spec fn reset(self) -> Ledger {
        Ledger { costs: Map::empty(), ..self }
    }

    /// The shares are those that the exchange reports, and no others.
    pub open spec fn synced(self, positions: Seq<Position>) -> Ledger {
        Ledger { shares: reported_digits(positions), ..self }
    }

    /// `e` is the sum of all costs, taken in some order; `None` if a partial sum is out of range.
    pub open spec fn may_add_up_to(self, e: Option<Digits>) -> bool {
        exists|values: Seq<Digits>| #[trigger]
            token_amounts::lists_values(self.costs, values) && e == decimal::total_digits(values)
    }
}

/// The shares of each token, as the exchange reports them; positions of zero shares or less do not count.
pub open spec fn reported_digits(positions: Seq<Position>) -> Map<U256, Digits>
    decreases positions.len(),
{
    if positions.len() == 0 {
        Map::empty()
    } else if positions.last().size@ > 0 {
        reported_digits(positions.drop_last()).insert(positions.last().asset, positions.last().size.digits())
    } else {
        reported_digits(positions.drop_last())
    }
}

/// A listing of a map's values, with their decimal places, lists the decimal places.
pub proof fn lemma_listing_in_digits(m: Map<U256, Decimal>, values: Seq<Decimal>)
    requires
        token_amounts::lists_values(m, values),
    ensures
        token_amounts::lists_values(amounts_in_digits(m), decimal::all_digits(values)),
{
    let keys = choose|keys: Seq<U256>|
        {
            &&& #[trigger] keys.no_duplicates()
            &&& keys.to_set() == m.dom()
            &&& values == keys.map_values(|k: U256| m[k])
        };
    let n = amounts_in_digits(m);
    assert(n.dom() =~= m.dom());
    assert forall|i: int| 0 <= i < keys.len() implies n[#[trigger] keys[i]] == m[keys[i]].digits() by {
        assert(keys.to_set().contains(keys[i]));
    }
    assert(decimal::all_digits(values) =~= keys.map_values(|k: U256| n[k]));
}

} // verus!
