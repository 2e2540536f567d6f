//! What is done about a pair of which only one side, or not all, was filled.
use vstd::prelude::*;

use crate::decimal::Decimal;
use crate::types::U256;

verus! {

/// What is done about a pair.
#[derive(Debug)]
pub enum RecoveryAction {
    /// Nothing.
    NoAction,
    /// The filled side is watched until it can be sold at a gain or must be sold at a loss.
    MonitorForExit {
        token_id: U256,
        opposite_token_id: U256,
        amount: Decimal,
        entry_price: Decimal,
        take_profit_pct: Decimal,
        stop_loss_pct: Decimal,
        pair_id: String,
        market_display: String,
    },
    /// The side that was filled more is sold down.
    SellExcess,
    /// Someone must look at it.
    ManualIntervention { reason: String },
}

impl RecoveryAction {
    /// What is reported of the action, where anything is: single positions are not hedged.
    pub open spec fn noted(self) -> Option<Seq<char>> {
        match self {
            RecoveryAction::NoAction => None,
            RecoveryAction::MonitorForExit { .. } => Some("Single-sided fill, hedging disabled, no action"@),
            RecoveryAction::SellExcess => Some("Partial fill imbalance, hedging disabled, no action"@),
            RecoveryAction::ManualIntervention { reason } => Some(
                "Manual intervention required: "@ + reason@,
            ),
        }
    }
}

/// What is reported of the action, where anything is.
pub fn recovery_note(action: &RecoveryAction) -> (r: Option<String>)
    ensures
        (match r {
            Some(s) => Some(s@),
            None => None,
        }) == action.noted(),
{
    match action {
        RecoveryAction::NoAction => None,
        RecoveryAction::MonitorForExit { .. } => Some(
            "Single-sided fill, hedging disabled, no action".to_string(),
        ),
        RecoveryAction::SellExcess => Some(
            "Partial fill imbalance, hedging disabled, no action".to_string(),
        ),
        RecoveryAction::ManualIntervention { reason } => {
            let mut s = "Manual intervention required: ".to_string();
            s.append(reason.as_str());
            Some(s)
        },
    }
}

} // verus!
