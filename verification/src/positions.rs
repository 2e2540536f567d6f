//! Positions as the exchange reports them.
use vstd::prelude::*;

use crate::decimal::Decimal;
use crate::types;
use crate::types::{parse_address, Address, B256, U256};

verus! {

/// Shares of one token.
#[derive(Clone, Debug)]
pub struct Position<D = Decimal, S = String> {
    pub asset: U256,
    pub condition_id: B256,
    /// Which side of the market the token is: 0 and 1, or 1 and 2, for YES and NO.
    pub outcome_index: i32,
    pub size: D,
    pub title: S,
}

impl View for Position<Decimal, String> {
    type V = Position<int, Seq<char>>;

    open spec fn view(&self) -> Position<int, Seq<char>> {
        Position {
            asset: self.asset,
            condition_id: self.condition_id,
            outcome_index: self.outcome_index,
            size: self.size@,
            title: self.title@,
        }
    }
}

/// The positions, with the numbers in atoms.
pub open spec fn position_views(positions: Seq<Position>) -> Seq<Position<int, Seq<char>>> {
    positions.map_values(|p: Position| p@)
}

/// The positions of more than zero shares.
pub open spec fn held(positions: Seq<Position<int, Seq<char>>>) -> Seq<Position<int, Seq<char>>> {
    positions.filter(|p: Position<int, Seq<char>>| p.size > 0)
}

/// Why it is not known whose positions to ask for.
#[derive(Clone, Copy, Debug, PartialEq, Eq, Structural)]
pub enum OwnerError {
    /// No address is configured.
    NotSet,
    /// The address cannot be read.
    Invalid,
}

impl OwnerError {
    /// The error in words.
    pub open spec fn words(self) -> Seq<char> {
        match self {
            OwnerError::NotSet => "POLYMARKET_PROXY_ADDRESS not set"@,
            OwnerError::Invalid => "POLYMARKET_PROXY_ADDRESS format invalid"@,
        }
    }

    /// The error in words.
    pub fn text(self) -> (r: &'static str)
        ensures
            r@ == self.words(),
    {
        match self {
            OwnerError::NotSet => "POLYMARKET_PROXY_ADDRESS not set",
            OwnerError::Invalid => "POLYMARKET_PROXY_ADDRESS format invalid",
        }
    }
}

/// Whose positions to ask for, from the configured address.
pub fn position_owner(configured: Option<&str>) -> (r: Result<Address, OwnerError>)
    ensures
        r == match configured {
            None => Err(OwnerError::NotSet),
            Some(s) => match types::address_of(s@) {
                Some(a) => Ok(a),
                None => Err(OwnerError::Invalid),
            },
        },
{
    match configured {
        None => Err(OwnerError::NotSet),
        Some(s) => match parse_address(s) {
            Some(a) => Ok(a),
            None => Err(OwnerError::Invalid),
        },
    }
}

} // verus!
