//! What holds of the settings: each is read under its own name, and has its usual value where it is not made.
use vstd::prelude::*;

use crate::config;
use crate::config::{ClobSignatureMode, Config, EnvNumber, EnvVar};
use crate::decimal;
use crate::strategy;
use crate::text;
use crate::types;
use crate::types::Address;

verus! {

/// A setting stands at this place, and none of its name stands before it.
pub open spec fn counts(vars: Seq<EnvVar>, i: int) -> bool {
    &&& 0 <= i < vars.len()
    &&& forall|j: int| 0 <= j < i ==> (#[trigger] vars[j]).name@ != vars[i].name@
}

/// No setting has this name.
pub open spec fn not_made(vars: Seq<EnvVar>, name: Seq<char>) -> bool {
    forall|j: int| 0 <= j < vars.len() ==> (#[trigger] vars[j]).name@ != name
}

/// Of the settings of one name the first one counts.
pub proof fn first_setting_counts(vars: Seq<EnvVar>, i: int)
    requires
        counts(vars, i),
    ensures
        config::lookup(vars, vars[i].name@) == Some(vars[i]),
    decreases i,
{
    if i > 0 {
        let rest = vars.drop_first();
        assert(vars[0].name@ != vars[i].name@);
        assert forall|j: int| 0 <= j < i - 1 implies (#[trigger] rest[j]).name@ != rest[i - 1].name@ by {
            assert(rest[j] == vars[j + 1]);
        }
        first_setting_counts(rest, i - 1);
    }
}

/// A name under which no setting is made has none.
pub proof fn setting_that_is_not_made(vars: Seq<EnvVar>, name: Seq<char>)
    requires
        not_made(vars, name),
    ensures
        config::lookup(vars, name) is None,
    decreases vars.len(),
{
    if vars.len() > 0 {
        let rest = vars.drop_first();
        assert forall|j: int| 0 <= j < rest.len() implies (#[trigger] rest[j]).name@ != name by {
            assert(rest[j] == vars[j + 1]);
        }
        assert(vars[0].name@ != name);
        setting_that_is_not_made(rest, name);
    }
}

/// A number that is set is taken by the setting of that name; what is no number sets nothing.
pub proof fn number_is_read_under_its_name(c: Config, vars: Seq<EnvVar>, i: int)
    requires
        c.reads_general(vars),
        counts(vars, i),
    ensures
        vars[i].number matches EnvNumber::Value(d) ==> {
            &&& vars[i].name@ == "MIN_PROFIT_THRESHOLD"@ ==> c.min_profit_threshold@ == d@
            &&& vars[i].name@ == "MAX_ORDER_SIZE_USDC"@ ==> c.max_order_size_usdc@ == d@
            &&& vars[i].name@ == "RISK_MAX_EXPOSURE_USDC"@ ==> c.risk_max_exposure_usdc@ == d@
            &&& vars[i].name@ == "RISK_IMBALANCE_THRESHOLD"@ ==> c.risk_imbalance_threshold@ == d@
            &&& vars[i].name@ == "HEDGE_TAKE_PROFIT_PCT"@ ==> c.hedge_take_profit_pct@ == d@
            &&& vars[i].name@ == "HEDGE_STOP_LOSS_PCT"@ ==> c.hedge_stop_loss_pct@ == d@
            &&& vars[i].name@ == "ARBITRAGE_EXECUTION_SPREAD"@ ==> c.arbitrage_execution_spread@ == d@
            &&& vars[i].name@ == "MIN_YES_PRICE_THRESHOLD"@ ==> c.min_yes_price_threshold@ == d@
            &&& vars[i].name@ == "MIN_NO_PRICE_THRESHOLD"@ ==> c.min_no_price_threshold@ == d@
            &&& vars[i].name@ == "POSITION_BALANCE_THRESHOLD"@ ==> c.position_balance_threshold@ == d@
            &&& vars[i].name@ == "POSITION_BALANCE_MIN_TOTAL"@ ==> c.position_balance_min_total@ == d@
            &&& vars[i].name@ == "WIND_DOWN_SELL_PRICE"@ ==> c.wind_down_sell_price@ == d@
        },
        !(vars[i].number is Value) ==> {
            &&& vars[i].name@ == "MIN_PROFIT_THRESHOLD"@ ==> c.min_profit_threshold@ * 1000 == decimal::one()
            &&& vars[i].name@ == "MAX_ORDER_SIZE_USDC"@ ==> c.max_order_size_usdc@ == 100 * decimal::one()
            &&& vars[i].name@ == "RISK_MAX_EXPOSURE_USDC"@ ==> c.risk_max_exposure_usdc@ == 1000 * decimal::one()
            &&& vars[i].name@ == "RISK_IMBALANCE_THRESHOLD"@ ==> c.risk_imbalance_threshold@ * 10 == decimal::one()
            &&& vars[i].name@ == "HEDGE_TAKE_PROFIT_PCT"@ ==> c.hedge_take_profit_pct@ * 100 == 5 * decimal::one()
            &&& vars[i].name@ == "HEDGE_STOP_LOSS_PCT"@ ==> c.hedge_stop_loss_pct@ * 100 == 5 * decimal::one()
            &&& vars[i].name@ == "ARBITRAGE_EXECUTION_SPREAD"@ ==> c.arbitrage_execution_spread@ * 100 == decimal::one()
            &&& vars[i].name@ == "MIN_YES_PRICE_THRESHOLD"@ ==> c.min_yes_price_threshold@ == 0
            &&& vars[i].name@ == "MIN_NO_PRICE_THRESHOLD"@ ==> c.min_no_price_threshold@ == 0
            &&& vars[i].name@ == "POSITION_BALANCE_THRESHOLD"@ ==> c.position_balance_threshold@ == 2 * decimal::one()
            &&& vars[i].name@ == "POSITION_BALANCE_MIN_TOTAL"@ ==> c.position_balance_min_total@ == 5 * decimal::one()
            &&& vars[i].name@ == "WIND_DOWN_SELL_PRICE"@ ==> c.wind_down_sell_price@ * 100 == decimal::one()
        },
{
    first_setting_counts(vars, i);
}

/// A number that is set for a market maker is taken by the setting of that name; what is no number sets
/// nothing.
pub proof fn maker_number_is_read_under_its_name(c: Config, vars: Seq<EnvVar>, i: int)
    requires
        c.reads_makers(vars),
        counts(vars, i),
    ensures
        vars[i].number matches EnvNumber::Value(d) ==> {
            &&& vars[i].name@ == "MM_BASE_SPREAD"@ ==> c.mm_base_spread@ == d@
            &&& vars[i].name@ == "MM_INVENTORY_GAMMA"@ ==> c.mm_inventory_gamma@ == d@
            &&& vars[i].name@ == "MM_MAX_POSITION_PER_SIDE"@ ==> c.mm_max_position_per_side@ == d@
            &&& vars[i].name@ == "MM_QUOTE_SIZE"@ ==> c.mm_quote_size@ == d@
            &&& vars[i].name@ == "APEX_BASE_SPREAD"@ ==> c.apex_base_spread@ == d@
            &&& vars[i].name@ == "APEX_INVENTORY_GAMMA"@ ==> c.apex_inventory_gamma@ == d@
            &&& vars[i].name@ == "APEX_MAX_POSITION_PER_SIDE"@ ==> c.apex_max_position_per_side@ == d@
            &&& vars[i].name@ == "APEX_QUOTE_SIZE"@ ==> c.apex_quote_size@ == d@
            &&& vars[i].name@ == "APEX_TOXICITY_IMBALANCE_THRESHOLD"@ ==> c.apex_toxicity_imbalance_threshold@ == d@
        },
        !(vars[i].number is Value) ==> {
            &&& vars[i].name@ == "MM_BASE_SPREAD"@ ==> c.mm_base_spread@ * 100 == 3 * decimal::one()
            &&& vars[i].name@ == "MM_INVENTORY_GAMMA"@ ==> c.mm_inventory_gamma@ * 100 == 3 * decimal::one()
            &&& vars[i].name@ == "MM_MAX_POSITION_PER_SIDE"@ ==> c.mm_max_position_per_side@ == 5 * decimal::one()
            &&& vars[i].name@ == "MM_QUOTE_SIZE"@ ==> c.mm_quote_size@ == decimal::one()
            &&& vars[i].name@ == "APEX_BASE_SPREAD"@ ==> c.apex_base_spread@ * 100 == 3 * decimal::one()
            &&& vars[i].name@ == "APEX_INVENTORY_GAMMA"@ ==> c.apex_inventory_gamma@ * 100 == 5 * decimal::one()
            &&& vars[i].name@ == "APEX_MAX_POSITION_PER_SIDE"@ ==> c.apex_max_position_per_side@ == 10 * decimal::one()
            &&& vars[i].name@ == "APEX_QUOTE_SIZE"@ ==> c.apex_quote_size@ == decimal::one()
            &&& vars[i].name@ == "APEX_TOXICITY_IMBALANCE_THRESHOLD"@ ==> c.apex_toxicity_imbalance_threshold@ * 10 == 3 * decimal::one()
        },
{
    first_setting_counts(vars, i);
}

/// The numbers that are not set have these values.
pub proof fn usual_numbers(c: Config, vars: Seq<EnvVar>)
    requires
        c.reads_general(vars),
    ensures
        not_made(vars, "MIN_PROFIT_THRESHOLD"@) ==> c.min_profit_threshold@ * 1000 == decimal::one(),
        not_made(vars, "MAX_ORDER_SIZE_USDC"@) ==> c.max_order_size_usdc@ == 100 * decimal::one(),
        not_made(vars, "RISK_MAX_EXPOSURE_USDC"@) ==> c.risk_max_exposure_usdc@ == 1000 * decimal::one(),
        not_made(vars, "RISK_IMBALANCE_THRESHOLD"@) ==> c.risk_imbalance_threshold@ * 10 == decimal::one(),
        not_made(vars, "HEDGE_TAKE_PROFIT_PCT"@) ==> c.hedge_take_profit_pct@ * 100 == 5 * decimal::one(),
        not_made(vars, "HEDGE_STOP_LOSS_PCT"@) ==> c.hedge_stop_loss_pct@ * 100 == 5 * decimal::one(),
        not_made(vars, "ARBITRAGE_EXECUTION_SPREAD"@) ==> c.arbitrage_execution_spread@ * 100 == decimal::one(),
        not_made(vars, "MIN_YES_PRICE_THRESHOLD"@) ==> c.min_yes_price_threshold@ == 0,
        not_made(vars, "MIN_NO_PRICE_THRESHOLD"@) ==> c.min_no_price_threshold@ == 0,
        not_made(vars, "POSITION_BALANCE_THRESHOLD"@) ==> c.position_balance_threshold@ == 2 * decimal::one(),
        not_made(vars, "POSITION_BALANCE_MIN_TOTAL"@) ==> c.position_balance_min_total@ == 5 * decimal::one(),
        not_made(vars, "WIND_DOWN_SELL_PRICE"@) ==> c.wind_down_sell_price@ * 100 == decimal::one(),
{
    if not_made(vars, "MIN_PROFIT_THRESHOLD"@) {
        setting_that_is_not_made(vars, "MIN_PROFIT_THRESHOLD"@);
    }
    if not_made(vars, "MAX_ORDER_SIZE_USDC"@) {
        setting_that_is_not_made(vars, "MAX_ORDER_SIZE_USDC"@);
    }
    if not_made(vars, "RISK_MAX_EXPOSURE_USDC"@) {
        setting_that_is_not_made(vars, "RISK_MAX_EXPOSURE_USDC"@);
    }
    if not_made(vars, "RISK_IMBALANCE_THRESHOLD"@) {
        setting_that_is_not_made(vars, "RISK_IMBALANCE_THRESHOLD"@);
    }
    if not_made(vars, "HEDGE_TAKE_PROFIT_PCT"@) {
        setting_that_is_not_made(vars, "HEDGE_TAKE_PROFIT_PCT"@);
    }
    if not_made(vars, "HEDGE_STOP_LOSS_PCT"@) {
        setting_that_is_not_made(vars, "HEDGE_STOP_LOSS_PCT"@);
    }
    if not_made(vars, "ARBITRAGE_EXECUTION_SPREAD"@) {
        setting_that_is_not_made(vars, "ARBITRAGE_EXECUTION_SPREAD"@);
    }
    if not_made(vars, "MIN_YES_PRICE_THRESHOLD"@) {
        setting_that_is_not_made(vars, "MIN_YES_PRICE_THRESHOLD"@);
    }
    if not_made(vars, "MIN_NO_PRICE_THRESHOLD"@) {
        setting_that_is_not_made(vars, "MIN_NO_PRICE_THRESHOLD"@);
    }
    if not_made(vars, "POSITION_BALANCE_THRESHOLD"@) {
        setting_that_is_not_made(vars, "POSITION_BALANCE_THRESHOLD"@);
    }
    if not_made(vars, "POSITION_BALANCE_MIN_TOTAL"@) {
        setting_that_is_not_made(vars, "POSITION_BALANCE_MIN_TOTAL"@);
    }
    if not_made(vars, "WIND_DOWN_SELL_PRICE"@) {
        setting_that_is_not_made(vars, "WIND_DOWN_SELL_PRICE"@);
    }
}

/// The market makers' numbers that are not set have these values.
pub proof fn usual_maker_numbers(c: Config, vars: Seq<EnvVar>)
    requires
        c.reads_makers(vars),
    ensures
        not_made(vars, "MM_BASE_SPREAD"@) ==> c.mm_base_spread@ * 100 == 3 * decimal::one(),
        not_made(vars, "MM_INVENTORY_GAMMA"@) ==> c.mm_inventory_gamma@ * 100 == 3 * decimal::one(),
        not_made(vars, "MM_MAX_POSITION_PER_SIDE"@) ==> c.mm_max_position_per_side@ == 5 * decimal::one(),
        not_made(vars, "MM_QUOTE_SIZE"@) ==> c.mm_quote_size@ == decimal::one(),
        not_made(vars, "APEX_BASE_SPREAD"@) ==> c.apex_base_spread@ * 100 == 3 * decimal::one(),
        not_made(vars, "APEX_INVENTORY_GAMMA"@) ==> c.apex_inventory_gamma@ * 100 == 5 * decimal::one(),
        not_made(vars, "APEX_MAX_POSITION_PER_SIDE"@) ==> c.apex_max_position_per_side@ == 10 * decimal::one(),
        not_made(vars, "APEX_QUOTE_SIZE"@) ==> c.apex_quote_size@ == decimal::one(),
        not_made(vars, "APEX_TOXICITY_IMBALANCE_THRESHOLD"@) ==> c.apex_toxicity_imbalance_threshold@ * 10 == 3 * decimal::one(),
{
    if not_made(vars, "MM_BASE_SPREAD"@) {
        setting_that_is_not_made(vars, "MM_BASE_SPREAD"@);
    }
    if not_made(vars, "MM_INVENTORY_GAMMA"@) {
        setting_that_is_not_made(vars, "MM_INVENTORY_GAMMA"@);
    }
    if not_made(vars, "MM_MAX_POSITION_PER_SIDE"@) {
        setting_that_is_not_made(vars, "MM_MAX_POSITION_PER_SIDE"@);
    }
    if not_made(vars, "MM_QUOTE_SIZE"@) {
        setting_that_is_not_made(vars, "MM_QUOTE_SIZE"@);
    }
    if not_made(vars, "APEX_BASE_SPREAD"@) {
        setting_that_is_not_made(vars, "APEX_BASE_SPREAD"@);
    }
    if not_made(vars, "APEX_INVENTORY_GAMMA"@) {
        setting_that_is_not_made(vars, "APEX_INVENTORY_GAMMA"@);
    }
    if not_made(vars, "APEX_MAX_POSITION_PER_SIDE"@) {
        setting_that_is_not_made(vars, "APEX_MAX_POSITION_PER_SIDE"@);
    }
    if not_made(vars, "APEX_QUOTE_SIZE"@) {
        setting_that_is_not_made(vars, "APEX_QUOTE_SIZE"@);
    }
    if not_made(vars, "APEX_TOXICITY_IMBALANCE_THRESHOLD"@) {
        setting_that_is_not_made(vars, "APEX_TOXICITY_IMBALANCE_THRESHOLD"@);
    }
}

/// A whole number that is set is taken by the setting of that name; what is none sets nothing.
pub proof fn count_is_read_under_its_name(c: Config, vars: Seq<EnvVar>, i: int)
    requires
        c.reads_general(vars),
        counts(vars, i),
    ensures
        ({
            let n = text::unsigned_number(vars[i].value@, 18_446_744_073_709_551_615);
            &&& vars[i].name@ == "MARKET_REFRESH_ADVANCE_SECS"@ && n is Some ==> c.market_refresh_advance_secs == n->0
            &&& vars[i].name@ == "GTD_EXPIRATION_SECS"@ && n is Some ==> c.gtd_expiration_secs == n->0
            &&& vars[i].name@ == "STOP_ARBITRAGE_BEFORE_END_MINUTES"@ && n is Some ==> c.stop_arbitrage_before_end_minutes == n->0
            &&& vars[i].name@ == "MERGE_INTERVAL_MINUTES"@ && n is Some ==> c.merge_interval_minutes == n->0
            &&& vars[i].name@ == "POSITION_SYNC_INTERVAL_SECS"@ && n is Some ==> c.position_sync_interval_secs == n->0
            &&& vars[i].name@ == "POSITION_BALANCE_INTERVAL_SECS"@ && n is Some ==> c.position_balance_interval_secs == n->0
            &&& vars[i].name@ == "WIND_DOWN_BEFORE_WINDOW_END_MINUTES"@ && n is Some ==> c.wind_down_before_window_end_minutes == n->0
            &&& vars[i].name@ == "MARKET_REFRESH_ADVANCE_SECS"@ && n is None ==> c.market_refresh_advance_secs == 5
            &&& vars[i].name@ == "GTD_EXPIRATION_SECS"@ && n is None ==> c.gtd_expiration_secs == 300
            &&& vars[i].name@ == "STOP_ARBITRAGE_BEFORE_END_MINUTES"@ && n is None ==> c.stop_arbitrage_before_end_minutes == 0
            &&& vars[i].name@ == "MERGE_INTERVAL_MINUTES"@ && n is None ==> c.merge_interval_minutes == 0
            &&& vars[i].name@ == "POSITION_SYNC_INTERVAL_SECS"@ && n is None ==> c.position_sync_interval_secs == 10
            &&& vars[i].name@ == "POSITION_BALANCE_INTERVAL_SECS"@ && n is None ==> c.position_balance_interval_secs == 60
            &&& vars[i].name@ == "WIND_DOWN_BEFORE_WINDOW_END_MINUTES"@ && n is None ==> c.wind_down_before_window_end_minutes == 0
        }),
{
    first_setting_counts(vars, i);
}

/// The whole numbers that are not set have these values.
pub proof fn usual_counts(c: Config, vars: Seq<EnvVar>)
    requires
        c.reads_general(vars),
    ensures
        not_made(vars, "MARKET_REFRESH_ADVANCE_SECS"@) ==> c.market_refresh_advance_secs == 5,
        not_made(vars, "GTD_EXPIRATION_SECS"@) ==> c.gtd_expiration_secs == 300,
        not_made(vars, "STOP_ARBITRAGE_BEFORE_END_MINUTES"@) ==> c.stop_arbitrage_before_end_minutes == 0,
        not_made(vars, "MERGE_INTERVAL_MINUTES"@) ==> c.merge_interval_minutes == 0,
        not_made(vars, "POSITION_SYNC_INTERVAL_SECS"@) ==> c.position_sync_interval_secs == 10,
        not_made(vars, "POSITION_BALANCE_INTERVAL_SECS"@) ==> c.position_balance_interval_secs == 60,
        not_made(vars, "WIND_DOWN_BEFORE_WINDOW_END_MINUTES"@) ==> c.wind_down_before_window_end_minutes == 0,
{
    if not_made(vars, "MARKET_REFRESH_ADVANCE_SECS"@) {
        setting_that_is_not_made(vars, "MARKET_REFRESH_ADVANCE_SECS"@);
    }
    if not_made(vars, "GTD_EXPIRATION_SECS"@) {
        setting_that_is_not_made(vars, "GTD_EXPIRATION_SECS"@);
    }
    if not_made(vars, "STOP_ARBITRAGE_BEFORE_END_MINUTES"@) {
        setting_that_is_not_made(vars, "STOP_ARBITRAGE_BEFORE_END_MINUTES"@);
    }
    if not_made(vars, "MERGE_INTERVAL_MINUTES"@) {
        setting_that_is_not_made(vars, "MERGE_INTERVAL_MINUTES"@);
    }
    if not_made(vars, "POSITION_SYNC_INTERVAL_SECS"@) {
        setting_that_is_not_made(vars, "POSITION_SYNC_INTERVAL_SECS"@);
    }
    if not_made(vars, "POSITION_BALANCE_INTERVAL_SECS"@) {
        setting_that_is_not_made(vars, "POSITION_BALANCE_INTERVAL_SECS"@);
    }
    if not_made(vars, "WIND_DOWN_BEFORE_WINDOW_END_MINUTES"@) {
        setting_that_is_not_made(vars, "WIND_DOWN_BEFORE_WINDOW_END_MINUTES"@);
    }
}

/// The least seconds to quote and the number of quick quotes are read under their names.
pub proof fn maker_count_is_read_under_its_name(c: Config, vars: Seq<EnvVar>, i: int)
    requires
        c.reads_makers(vars),
        counts(vars, i),
    ensures
        ({
            let n = text::signed_number(vars[i].value@);
            let quotes = text::unsigned_number(vars[i].value@, 4_294_967_295);
            &&& vars[i].name@ == "MM_MIN_SECONDS_TO_QUOTE"@ && n is Some ==> c.mm_min_seconds_to_quote == n->0
            &&& vars[i].name@ == "MM_MIN_SECONDS_TO_QUOTE"@ && n is None ==> c.mm_min_seconds_to_quote == 30
            &&& vars[i].name@ == "APEX_MIN_SECONDS_TO_QUOTE"@ && n is Some ==> c.apex_min_seconds_to_quote == n->0
            &&& vars[i].name@ == "APEX_MIN_SECONDS_TO_QUOTE"@ && n is None ==> c.apex_min_seconds_to_quote == 10
            &&& vars[i].name@ == "APEX_TOXICITY_QUOTE_THRESHOLD"@ && quotes is Some
                ==> c.apex_toxicity_quote_threshold == quotes->0
            &&& vars[i].name@ == "APEX_TOXICITY_QUOTE_THRESHOLD"@ && quotes is None
                ==> c.apex_toxicity_quote_threshold == 5
        }),
        not_made(vars, "MM_MIN_SECONDS_TO_QUOTE"@) ==> c.mm_min_seconds_to_quote == 30,
        not_made(vars, "APEX_MIN_SECONDS_TO_QUOTE"@) ==> c.apex_min_seconds_to_quote == 10,
        not_made(vars, "APEX_TOXICITY_QUOTE_THRESHOLD"@) ==> c.apex_toxicity_quote_threshold == 5,
{
    first_setting_counts(vars, i);
    if not_made(vars, "MM_MIN_SECONDS_TO_QUOTE"@) {
        setting_that_is_not_made(vars, "MM_MIN_SECONDS_TO_QUOTE"@);
    }
    if not_made(vars, "APEX_MIN_SECONDS_TO_QUOTE"@) {
        setting_that_is_not_made(vars, "APEX_MIN_SECONDS_TO_QUOTE"@);
    }
    if not_made(vars, "APEX_TOXICITY_QUOTE_THRESHOLD"@) {
        setting_that_is_not_made(vars, "APEX_TOXICITY_QUOTE_THRESHOLD"@);
    }
}

/// A flag is on where its setting says so, and off where it says anything else; where it is not made, only the
/// confirmation of live trading is on.
pub proof fn flag_is_read_under_its_name(c: Config, vars: Seq<EnvVar>, i: int)
    requires
        c.reads_general(vars),
        counts(vars, i),
    ensures
        ({
            let on = text::says_true(text::trimmed(vars[i].value@));
            &&& vars[i].name@ == "DRY_RUN"@ ==> c.dry_run == on
            &&& vars[i].name@ == "STARTUP_WIZARD"@ ==> c.startup_wizard == on
            &&& vars[i].name@ == "LIVE_CONFIRM_REQUIRED"@ ==> c.live_confirm_required == on
            &&& vars[i].name@ == "MULTI_WALLET_NON_INTERACTIVE"@ ==> c.multi_wallet_non_interactive == on
        }),
        not_made(vars, "DRY_RUN"@) ==> !c.dry_run,
        not_made(vars, "STARTUP_WIZARD"@) ==> !c.startup_wizard,
        not_made(vars, "LIVE_CONFIRM_REQUIRED"@) ==> c.live_confirm_required,
        not_made(vars, "MULTI_WALLET_NON_INTERACTIVE"@) ==> !c.multi_wallet_non_interactive,
{
    first_setting_counts(vars, i);
    if not_made(vars, "DRY_RUN"@) {
        setting_that_is_not_made(vars, "DRY_RUN"@);
    }
    if not_made(vars, "STARTUP_WIZARD"@) {
        setting_that_is_not_made(vars, "STARTUP_WIZARD"@);
    }
    if not_made(vars, "LIVE_CONFIRM_REQUIRED"@) {
        setting_that_is_not_made(vars, "LIVE_CONFIRM_REQUIRED"@);
    }
    if not_made(vars, "MULTI_WALLET_NON_INTERACTIVE"@) {
        setting_that_is_not_made(vars, "MULTI_WALLET_NON_INTERACTIVE"@);
    }
}

/// The key, the proxy wallet, the symbols and the slippages are read under their names.
pub proof fn text_is_read_under_its_name(c: Config, vars: Seq<EnvVar>, i: int)
    requires
        c.reads_general(vars),
        counts(vars, i),
    ensures
        vars[i].name@ == "POLYMARKET_PRIVATE_KEY"@ ==> c.private_key@ == vars[i].value@,
        vars[i].name@ == "POLYMARKET_PROXY_ADDRESS"@ ==> c.proxy_address == types::address_of(vars[i].value@),
        vars[i].name@ == "CRYPTO_SYMBOLS"@ ==> {
            let words = text::comma_pieces(vars[i].value@);
            &&& c.crypto_symbols@.len() == words.len()
            &&& forall|k: int|
                0 <= k < words.len() ==> (#[trigger] c.crypto_symbols@[k])@ == text::lowercase(
                    text::trimmed(words[k]),
                )
        },
        vars[i].name@ == "SLIPPAGE"@ && vars[i].pieces@.len() > 0 ==> {
            &&& vars[i].pieces@[0] matches EnvNumber::Value(d) ==> c.slippage[0]@ == d@
            &&& vars[i].pieces@.len() == 1 ==> (vars[i].pieces@[0] matches EnvNumber::Value(d)
                ==> c.slippage[1]@ == d@)
            &&& vars[i].pieces@.len() > 1 ==> (vars[i].pieces@[1] matches EnvNumber::Value(d)
                ==> c.slippage[1]@ == d@)
            &&& vars[i].pieces@[0] is Unparsed ==> c.slippage[0]@ == 0
            &&& vars[i].pieces@[0] is OutOfRange ==> c.slippage[0]@ == 0
            &&& vars[i].pieces@.len() > 1 && vars[i].pieces@[1] is Unparsed ==> c.slippage[1]@ == 0
            &&& vars[i].pieces@.len() > 1 && vars[i].pieces@[1] is OutOfRange ==> c.slippage[1]@ * 100
                == decimal::one()
        },
{
    first_setting_counts(vars, i);
    if vars[i].name@ == "CRYPTO_SYMBOLS"@ {
        let read = c.crypto_symbols@.map_values(|w: String| w@);
        let words = text::comma_pieces(vars[i].value@);
        assert(read.len() == c.crypto_symbols@.len());
        assert(config::symbols_of(vars[i].value@).len() == words.len());
        assert forall|k: int| 0 <= k < words.len() implies (#[trigger] c.crypto_symbols@[k])@ == text::lowercase(
            text::trimmed(words[k]),
        ) by {
            assert(read[k] == c.crypto_symbols@[k]@);
            assert(config::symbols_of(vars[i].value@)[k] == text::lowercase(text::trimmed(words[k])));
        }
    }
}

/// Without its setting there is no key and no proxy wallet, and the slippages are nothing and a cent.
pub proof fn usual_texts(c: Config, vars: Seq<EnvVar>)
    requires
        c.reads_general(vars),
    ensures
        not_made(vars, "POLYMARKET_PRIVATE_KEY"@) ==> c.private_key@.len() == 0,
        not_made(vars, "POLYMARKET_PROXY_ADDRESS"@) ==> c.proxy_address is None,
        not_made(vars, "SLIPPAGE"@) ==> c.slippage[0]@ == 0 && c.slippage[1]@ * 100 == decimal::one(),
{
    reveal_strlit("");
    if not_made(vars, "POLYMARKET_PRIVATE_KEY"@) {
        setting_that_is_not_made(vars, "POLYMARKET_PRIVATE_KEY"@);
    }
    if not_made(vars, "POLYMARKET_PROXY_ADDRESS"@) {
        setting_that_is_not_made(vars, "POLYMARKET_PROXY_ADDRESS"@);
    }
    if not_made(vars, "SLIPPAGE"@) {
        setting_that_is_not_made(vars, "SLIPPAGE"@);
    }
}

/// The order type, the signature mode and the trading mode are those that their settings name.
pub proof fn word_is_read_under_its_name(c: Config, vars: Seq<EnvVar>, i: int)
    requires
        c.reads_general(vars),
        counts(vars, i),
    ensures
        ({
            let upper = text::uppercase(text::trimmed(vars[i].value@));
            let lower = text::lowercase(text::trimmed(vars[i].value@));
            &&& vars[i].name@ == "ARBITRAGE_ORDER_TYPE"@ ==> {
                &&& c.arbitrage_order_type is GTC <==> upper == "GTC"@
                &&& c.arbitrage_order_type is FOK <==> upper == "FOK"@
                &&& c.arbitrage_order_type is FAK <==> upper == "FAK"@
            }
            &&& vars[i].name@ == "CLOB_SIGNATURE_TYPE"@ ==> {
                &&& c.clob_signature_mode is Eoa <==> lower == "eoa"@
                &&& c.clob_signature_mode is Proxy <==> lower == "proxy"@
                &&& c.clob_signature_mode is GnosisSafe <==> lower == "gnosis_safe"@ || lower == "gnosissafe"@
                    || lower == "safe"@
            }
            &&& vars[i].name@ == "TRADING_MODE"@ ==> c.trading_mode == strategy::mode_of_word(lower)
        }),
{
    first_setting_counts(vars, i);
    lemma_order_words();
    lemma_signature_words();
}

/// The words for order types differ.
proof fn lemma_order_words()
    ensures
        "GTC"@ != "FOK"@,
        "GTC"@ != "FAK"@,
        "FOK"@ != "FAK"@,
{
    reveal_strlit("GTC");
    reveal_strlit("FOK");
    reveal_strlit("FAK");
    assert("GTC"@[0] == 'G' && "FOK"@[0] == 'F' && "FAK"@[0] == 'F');
    assert("FOK"@[1] == 'O' && "FAK"@[1] == 'A');
}

/// The words for signature modes differ.
proof fn lemma_signature_words()
    ensures
        "eoa"@ != "proxy"@,
        "eoa"@ != "gnosis_safe"@ && "eoa"@ != "gnosissafe"@ && "eoa"@ != "safe"@,
        "proxy"@ != "gnosis_safe"@ && "proxy"@ != "gnosissafe"@ && "proxy"@ != "safe"@,
{
    reveal_strlit("eoa");
    reveal_strlit("proxy");
    reveal_strlit("gnosis_safe");
    reveal_strlit("gnosissafe");
    reveal_strlit("safe");
    assert("eoa"@.len() == 3 && "proxy"@.len() == 5 && "safe"@.len() == 4);
    assert("gnosis_safe"@.len() == 11 && "gnosissafe"@.len() == 10);
}

/// A mode that names a kind of wallet is that kind, whatever the addresses. In the automatic mode it is the
/// key's own wallet where there is no proxy wallet; the proxy wallet that belongs to the key is one, the safe
/// that belongs to it is a safe, and any other counts as a proxy wallet.
pub proof fn signature_follows_the_addresses(
    mode: ClobSignatureMode,
    eoa: Option<Address>,
    proxy: Option<Address>,
    derived_proxy: Option<Address>,
    derived_safe: Option<Address>,
)
    ensures
        ({
            let r = mode.resolved(eoa, proxy, derived_proxy, derived_safe);
            &&& mode is Eoa ==> r is Eoa
            &&& mode is Proxy ==> r is Proxy
            &&& mode is GnosisSafe ==> r is GnosisSafe
            &&& mode is Auto ==> {
                &&& r is Eoa <==> proxy is None
                &&& proxy is Some && proxy == derived_proxy ==> r is Proxy
                &&& proxy is Some && proxy == derived_safe && proxy != derived_proxy && eoa is Some ==> r is GnosisSafe
                &&& r is GnosisSafe ==> proxy == derived_safe && eoa is Some
            }
        }),
{
}

} // verus!
