//! Settings.
use vstd::prelude::*;

use crate::decimal;
use crate::decimal::Decimal;
use crate::strategy;
use crate::strategy::TradingMode;
use crate::text;
use crate::text::{
    is_true, parse_i64, parse_u32, parse_u64, same_text, to_lowercase, to_uppercase, trim, trimmed_pieces,
};
use crate::types;
use crate::types::{parse_address, Address};

verus! {

/// How long an order stays in the book.
#[derive(Clone, Copy, Debug, PartialEq, Eq, Structural)]
pub enum OrderType {
    /// Good till cancelled.
    GTC,
    /// Good till a date.
    GTD,
    /// Fill or kill.
    FOK,
    /// Fill and kill.
    FAK,
}

/// The kind of wallet that signs.
#[derive(Clone, Copy, Debug, PartialEq, Eq, Structural)]
pub enum SignatureType {
    Eoa,
    Proxy,
    GnosisSafe,
}

/// Which kind of wallet is configured to sign.
#[derive(Clone, Copy, Debug, PartialEq, Eq, Structural)]
pub enum ClobSignatureMode {
    /// Found out from the addresses.
    Auto,
    Eoa,
    Proxy,
    GnosisSafe,
}

/// All settings.
#[derive(Clone, Debug)]
pub struct Config {
    pub private_key: String,
    /// The proxy wallet, where one is used.
    pub proxy_address: Option<Address>,
    pub min_profit_threshold: Decimal,
    pub max_order_size_usdc: Decimal,
    pub crypto_symbols: Vec<String>,
    pub market_refresh_advance_secs: u64,
    pub risk_max_exposure_usdc: Decimal,
    pub risk_imbalance_threshold: Decimal,
    /// A position is closed at this relative gain (0.05 for 5%).
    pub hedge_take_profit_pct: Decimal,
    /// A position is closed at this relative loss (0.05 for 5%).
    pub hedge_stop_loss_pct: Decimal,
    /// A pair is bought where the two asks add up to at most one less this.
    pub arbitrage_execution_spread: Decimal,
    /// Added to the ask: the second to a falling price, the first to any other.
    pub slippage: [Decimal; 2],
    /// Life of an order of type `GTD`.
    pub gtd_expiration_secs: u64,
    pub arbitrage_order_type: OrderType,
    pub clob_signature_mode: ClobSignatureMode,
    /// No pair is bought this close to the end of a market; 0 for no such limit.
    pub stop_arbitrage_before_end_minutes: u64,
    /// Time between two rounds of merging; 0 for none.
    pub merge_interval_minutes: u64,
    /// Least YES ask of a pair; 0 for no limit.
    pub min_yes_price_threshold: Decimal,
    /// Least NO ask of a pair; 0 for no limit.
    pub min_no_price_threshold: Decimal,
    pub position_sync_interval_secs: u64,
    pub position_balance_interval_secs: u64,
    pub position_balance_threshold: Decimal,
    pub position_balance_min_total: Decimal,
    /// Positions are wound down this close to the end of a window; 0 for never.
    pub wind_down_before_window_end_minutes: u64,
    pub wind_down_sell_price: Decimal,
    pub trading_mode: TradingMode,
    /// What would be ordered, cancelled or wound down is only noted.
    pub dry_run: bool,
    pub mm_base_spread: Decimal,
    pub mm_inventory_gamma: Decimal,
    pub mm_max_position_per_side: Decimal,
    pub mm_quote_size: Decimal,
    pub mm_min_seconds_to_quote: i64,
    /// The strategy is asked for at the start.
    pub startup_wizard: bool,
    /// Live trading must be confirmed at the start.
    pub live_confirm_required: bool,
    /// Several wallets start without questions.
    pub multi_wallet_non_interactive: bool,
    pub apex_base_spread: Decimal,
    pub apex_inventory_gamma: Decimal,
    pub apex_max_position_per_side: Decimal,
    pub apex_quote_size: Decimal,
    pub apex_min_seconds_to_quote: i64,
    pub apex_toxicity_quote_threshold: u32,
    pub apex_toxicity_imbalance_threshold: Decimal,
}

/// The order type that an upper-case word names; `GTD` for any other word.
pub open spec fn order_type_of_word(word: Seq<char>) -> OrderType {
    if word == "GTC"@ {
        OrderType::GTC
    } else if word == "FOK"@ {
        OrderType::FOK
    } else if word == "FAK"@ {
        OrderType::FAK
    } else {
        OrderType::GTD
    }
}

impl OrderType {
    /// The word for the order type.
    pub open spec fn word(self) -> Seq<char> {
        match self {
            OrderType::GTC => "GTC"@,
            OrderType::GTD => "GTD"@,
            OrderType::FOK => "FOK"@,
            OrderType::FAK => "FAK"@,
        }
    }

    /// The word for the order type.
    pub fn text(self) -> (r: &'static str)
        ensures
            r@ == self.word(),
    {
        match self {
            OrderType::GTC => "GTC",
            OrderType::GTD => "GTD",
            OrderType::FOK => "FOK",
            OrderType::FAK => "FAK",
        }
    }

    /// The order type that an upper-case word names; `GTD` for any other word.
    pub fn from_word(word: &str) -> (r: OrderType)
        ensures
            r == order_type_of_word(word@),
    {
        if same_text(word, "GTC") {
            OrderType::GTC
        } else if same_text(word, "FOK") {
            OrderType::FOK
        } else if same_text(word, "FAK") {
            OrderType::FAK
        } else {
            OrderType::GTD
        }
    }
}

/// The order type that a text names, white space around it and case aside; `GTD` where it names none.
pub fn parse_arbitrage_order_type(s: &str) -> (r: OrderType)
    ensures
        r == order_type_of_word(text::uppercase(text::trimmed(s@))),
        text::all_ascii(text::trimmed(s@)) ==> r == order_type_of_word(
            text::trimmed(s@).map_values(|c: char| text::ascii_upper(c)),
        ),
{
    let word = to_uppercase(trim(s));
    OrderType::from_word(word.as_str())
}

/// The signature mode that a lower-case word names; `Auto` for any other word.
pub open spec fn signature_mode_of_word(word: Seq<char>) -> ClobSignatureMode {
    if word == "eoa"@ {
        ClobSignatureMode::Eoa
    } else if word == "proxy"@ {
        ClobSignatureMode::Proxy
    } else if word == "gnosis_safe"@ || word == "gnosissafe"@ || word == "safe"@ {
        ClobSignatureMode::GnosisSafe
    } else {
        ClobSignatureMode::Auto
    }
}

impl ClobSignatureMode {
    /// The signature mode that a lower-case word names; `Auto` for any other word.
    pub fn from_word(word: &str) -> (r: ClobSignatureMode)
        ensures
            r == signature_mode_of_word(word@),
    {
        if same_text(word, "eoa") {
            ClobSignatureMode::Eoa
        } else if same_text(word, "proxy") {
            ClobSignatureMode::Proxy
        } else if same_text(word, "gnosis_safe") || same_text(word, "gnosissafe") || same_text(word, "safe") {
            ClobSignatureMode::GnosisSafe
        } else {
            ClobSignatureMode::Auto
        }
    }

    /// The signature mode that a text names, white space around it and case aside.
    pub fn parse(s: &str) -> (r: ClobSignatureMode)
        ensures
            r == signature_mode_of_word(text::lowercase(text::trimmed(s@))),
            text::all_ascii(text::trimmed(s@)) ==> r == signature_mode_of_word(
                text::trimmed(s@).map_values(|c: char| text::ascii_lower(c)),
            ),
    {
        let word = to_lowercase(trim(s));
        ClobSignatureMode::from_word(word.as_str())
    }

    /// The kind of wallet that signs. In the automatic mode it is found out from the proxy address: it
    /// may be the proxy wallet or the safe that belongs to the signing key; where it is neither it counts
    /// as a proxy wallet.
    pub open spec fn resolved(
        self,
        eoa_address: Option<Address>,
        proxy_address: Option<Address>,
        derived_proxy: Option<Address>,
        derived_safe: Option<Address>,
    ) -> SignatureType {
        match self {
            ClobSignatureMode::Eoa => SignatureType::Eoa,
            ClobSignatureMode::Proxy => SignatureType::Proxy,
            ClobSignatureMode::GnosisSafe => SignatureType::GnosisSafe,
            ClobSignatureMode::Auto => if proxy_address is None {
                SignatureType::Eoa
            } else if eoa_address is Some && derived_proxy != proxy_address && derived_safe
                == proxy_address {
                SignatureType::GnosisSafe
            } else {
                SignatureType::Proxy
            },
        }
    }

    /// The kind of wallet that signs. The last two addresses are the proxy wallet and the safe that
    /// belong to the signing key, where they are known.
    pub fn resolve(
        self,
        eoa_address: Option<Address>,
        proxy_address: Option<Address>,
        derived_proxy: Option<Address>,
        derived_safe: Option<Address>,
    ) -> (r: SignatureType)
        ensures
            r == self.resolved(eoa_address, proxy_address, derived_proxy, derived_safe),
    {
        match self {
            ClobSignatureMode::Auto => match (eoa_address, proxy_address) {
                (Some(_), Some(proxy)) => {
                    match derived_proxy {
                        Some(derived) => if derived == proxy {
                            return SignatureType::Proxy;
                        },
                        None => {},
                    }
                    match derived_safe {
                        Some(derived) => if derived == proxy {
                            return SignatureType::GnosisSafe;
                        },
                        None => {},
                    }
                    SignatureType::Proxy
                },
                (_, Some(_)) => SignatureType::Proxy,
                _ => SignatureType::Eoa,
            },
            ClobSignatureMode::Eoa => SignatureType::Eoa,
            ClobSignatureMode::Proxy => SignatureType::Proxy,
            ClobSignatureMode::GnosisSafe => SignatureType::GnosisSafe,
        }
    }

    /// The name of the mode.
    pub open spec fn words(self) -> Seq<char> {
        match self {
            ClobSignatureMode::Auto => "auto"@,
            ClobSignatureMode::Eoa => "eoa"@,
            ClobSignatureMode::Proxy => "proxy"@,
            ClobSignatureMode::GnosisSafe => "gnosis_safe"@,
        }
    }

    /// The name of the mode.
    pub fn as_str(self) -> (r: &'static str)
        ensures
            r@ == self.words(),
    {
        match self {
            ClobSignatureMode::Auto => "auto",
            ClobSignatureMode::Eoa => "eoa",
            ClobSignatureMode::Proxy => "proxy",
            ClobSignatureMode::GnosisSafe => "gnosis_safe",
        }
    }
}

/// Each mode is read back from its name.
pub proof fn signature_mode_round_trip(mode: ClobSignatureMode)
    ensures
        signature_mode_of_word(mode.words()) == mode,
{
    reveal_strlit("auto");
    reveal_strlit("eoa");
    reveal_strlit("proxy");
    reveal_strlit("gnosis_safe");
    reveal_strlit("gnosissafe");
    reveal_strlit("safe");
    assert("auto"@[0] == 'a' && "safe"@[0] == 's');
    assert("auto"@.len() == 4 && "eoa"@.len() == 3 && "proxy"@.len() == 5);
    assert("gnosis_safe"@.len() == 11 && "gnosissafe"@.len() == 10);
}

/// What a text says as a number.
#[derive(Clone, Copy, Debug)]
pub enum EnvNumber {
    /// It is no number.
    Unparsed,
    /// It is a number that a decimal cannot hold.
    OutOfRange,
    /// It is this number.
    Value(Decimal),
}

/// A setting.
#[derive(Debug)]
pub struct EnvVar {
    pub name: String,
    pub value: String,
    /// The value, read as a number.
    pub number: EnvNumber,
    /// The pieces between the value's commas, each trimmed and read as a number.
    pub pieces: Vec<EnvNumber>,
}

/// All settings that are made.
#[derive(Debug)]
pub struct Environment {
    pub vars: Vec<EnvVar>,
}

/// The first setting of this name.
pub open spec fn lookup(vars: Seq<EnvVar>, name: Seq<char>) -> Option<EnvVar>
    decreases vars.len(),
{
    if vars.len() == 0 {
        None
    } else if vars[0].name@ == name {
        Some(vars[0])
    } else {
        lookup(vars.drop_first(), name)
    }
}

/// The text of a setting, or the given one where it is not made.
pub open spec fn text_setting(vars: Seq<EnvVar>, name: Seq<char>, unset: Seq<char>) -> Seq<char> {
    match lookup(vars, name) {
        Some(v) => v.value@,
        None => unset,
    }
}

/// A setting as a number, or the given one where it is not made or does not say one.
pub open spec fn number_setting(vars: Seq<EnvVar>, name: Seq<char>, default: int) -> int {
    match lookup(vars, name) {
        Some(v) => match v.number {
            EnvNumber::Value(d) => d@,
            _ => default,
        },
        None => default,
    }
}

/// A setting as a whole number of at most `max`, or the given one where it is not made or does not say
/// one.
pub open spec fn count_setting(vars: Seq<EnvVar>, name: Seq<char>, max: int, default: int) -> int {
    match lookup(vars, name) {
        Some(v) => match text::unsigned_number(v.value@, max) {
            Some(n) => n,
            None => default,
        },
        None => default,
    }
}

/// A setting as a signed whole number, or the given one where it is not made or does not say one.
pub open spec fn signed_setting(vars: Seq<EnvVar>, name: Seq<char>, default: int) -> int {
    match lookup(vars, name) {
        Some(v) => match text::signed_number(v.value@) {
            Some(n) => n,
            None => default,
        },
        None => default,
    }
}

/// Whether a setting says `true`, white space around it and case aside; as given where it is not made.
pub open spec fn flag_setting(vars: Seq<EnvVar>, name: Seq<char>, unset: bool) -> bool {
    match lookup(vars, name) {
        Some(v) => text::says_true(text::trimmed(v.value@)),
        None => unset,
    }
}

/// The words between the commas of a text, trimmed and in lower case.
pub open spec fn symbols_of(s: Seq<char>) -> Seq<Seq<char>> {
    text::comma_pieces(s).map_values(|p: Seq<char>| text::lowercase(text::trimmed(p)))
}

/// One of the two slippages: zero where the piece is no number, and the given value where it is one that
/// a decimal cannot hold.
pub open spec fn slippage_piece(piece: EnvNumber, out_of_range: int) -> int {
    match piece {
        EnvNumber::Unparsed => 0,
        EnvNumber::OutOfRange => out_of_range,
        EnvNumber::Value(d) => d@,
    }
}

/// The two slippages: of one piece both, of more the first two, and 0 and 0.01 where there is none.
pub open spec fn slippages(pieces: Seq<EnvNumber>) -> (int, int) {
    if pieces.len() == 0 {
        (0, decimal::atoms(1, 2))
    } else if pieces.len() == 1 {
        (slippage_piece(pieces[0], 0), slippage_piece(pieces[0], decimal::atoms(1, 2)))
    } else {
        (slippage_piece(pieces[0], 0), slippage_piece(pieces[1], decimal::atoms(1, 2)))
    }
}

/// The two slippages of a setting; 0 and 0.01 where it is not made.
pub open spec fn slippage_setting(vars: Seq<EnvVar>, name: Seq<char>) -> (int, int) {
    match lookup(vars, name) {
        Some(v) => slippages(v.pieces@),
        None => (0, decimal::atoms(1, 2)),
    }
}

/// One of the two slippages.
fn slippage_number(piece: &EnvNumber, out_of_range: Decimal) -> (r: Decimal)
    ensures
        r@ == slippage_piece(*piece, out_of_range@),
{
    match piece {
        EnvNumber::Unparsed => Decimal::zero(),
        EnvNumber::OutOfRange => out_of_range,
        EnvNumber::Value(d) => *d,
    }
}

/// The two slippages: of one piece both, of more the first two, and 0 and 0.01 where there is none.
pub fn parse_slippage(pieces: &Vec<EnvNumber>) -> (r: [Decimal; 2])
    ensures
        (r[0]@, r[1]@) == slippages(pieces@),
{
    let zero = Decimal::zero();
    let cent = Decimal::new(1, 2);
    if pieces.len() == 0 {
        [zero, cent]
    } else if pieces.len() == 1 {
        [slippage_number(&pieces[0], zero), slippage_number(&pieces[0], cent)]
    } else {
        [slippage_number(&pieces[0], zero), slippage_number(&pieces[1], cent)]
    }
}

/// The words between the commas of a text, trimmed and in lower case.
pub fn parse_symbols(s: &str) -> (r: Vec<String>)
    ensures
        r@.map_values(|w: String| w@) == symbols_of(s@),
{
    let pieces = trimmed_pieces(s);
    let ghost trimmed = text::comma_pieces(s@).map_values(|p: Seq<char>| text::trimmed(p));
    let ghost expected = symbols_of(s@);
    let mut words: Vec<String> = Vec::new();
    let mut i: usize = 0;
    assert(trimmed.len() == expected.len());
    while i < pieces.len()
        invariant
            i <= pieces@.len(),
            words@.len() == i,
            trimmed == pieces@.map_values(|p: String| p@),
            trimmed.len() == expected.len(),
            forall|j: int| 0 <= j < expected.len() ==> #[trigger] expected[j] == text::lowercase(trimmed[j]),
            forall|j: int| 0 <= j < i ==> (#[trigger] words@[j])@ == expected[j],
        decreases pieces@.len() - i,
    {
        assert(trimmed[i as int] == pieces@[i as int]@);
        words.push(to_lowercase(pieces[i].as_str()));
        i += 1;
    }
    assert(pieces@.len() == trimmed.len());
    assert(words@.map_values(|w: String| w@) =~= expected);
    words
}

impl Environment {
    /// The first setting of this name.
    pub fn get(&self, name: &str) -> (r: Option<&EnvVar>)
        ensures
            (match r {
                Some(v) => Some(*v),
                None => None,
            }) == lookup(self.vars@, name@),
    {
        let mut i: usize = 0;
        assert(self.vars@.skip(0) =~= self.vars@);
        while i < self.vars.len()
            invariant
                i <= self.vars@.len(),
                lookup(self.vars@, name@) == lookup(self.vars@.skip(i as int), name@),
            decreases self.vars@.len() - i,
        {
            assert(self.vars@.skip(i as int)[0] == self.vars@[i as int]);
            assert(self.vars@.skip(i as int).drop_first() =~= self.vars@.skip(i + 1));
            if same_text(self.vars[i].name.as_str(), name) {
                return Some(&self.vars[i]);
            }
            i += 1;
        }
        None
    }

    /// The text of a setting, or the given one where it is not made.
    pub fn text_or(&self, name: &str, unset: &str) -> (r: String)
        ensures
            r@ == text_setting(self.vars@, name@, unset@),
    {
        match self.get(name) {
            Some(v) => v.value.clone(),
            None => unset.to_string(),
        }
    }

    /// A setting as a number, or the given one where it is not made or does not say one.
    pub fn number_or(&self, name: &str, default: Decimal) -> (r: Decimal)
        ensures
            r@ == number_setting(self.vars@, name@, default@),
    {
        match self.get(name) {
            Some(v) => match v.number {
                EnvNumber::Value(d) => d,
                _ => default,
            },
            None => default,
        }
    }

    /// A setting as a whole number, or the given one where it is not made or does not say one.
    pub fn u64_or(&self, name: &str, default: u64) -> (r: u64)
        ensures
            r == count_setting(self.vars@, name@, u64::MAX as int, default as int),
    {
        match self.get(name) {
            Some(v) => match parse_u64(v.value.as_str()) {
                Some(n) => n,
                None => default,
            },
            None => default,
        }
    }

    /// A setting as a whole number, or the given one where it is not made or does not say one.
    pub fn u32_or(&self, name: &str, default: u32) -> (r: u32)
        ensures
            r == count_setting(self.vars@, name@, u32::MAX as int, default as int),
    {
        match self.get(name) {
            Some(v) => match parse_u32(v.value.as_str()) {
                Some(n) => n,
                None => default,
            },
            None => default,
        }
    }

    /// A setting as a signed whole number, or the given one where it is not made or does not say one.
    pub fn i64_or(&self, name: &str, default: i64) -> (r: i64)
        ensures
            r == signed_setting(self.vars@, name@, default as int),
    {
        match self.get(name) {
            Some(v) => match parse_i64(v.value.as_str()) {
                Some(n) => n,
                None => default,
            },
            None => default,
        }
    }

    /// Whether a setting says `true`; as given where it is not made.
    pub fn flag_or(&self, name: &str, unset: bool) -> (r: bool)
        ensures
            r == flag_setting(self.vars@, name@, unset),
    {
        match self.get(name) {
            Some(v) => is_true(trim(v.value.as_str())),
            None => unset,
        }
    }
}

impl Config {
    /// The settings other than those of the two market makers are what the environment says.
    pub open spec fn reads_general(self, vars: Seq<EnvVar>) -> bool {
        &&& self.private_key@ == text_setting(vars, "POLYMARKET_PRIVATE_KEY"@, ""@)
        &&& self.proxy_address == match lookup(vars, "POLYMARKET_PROXY_ADDRESS"@) {
            Some(v) => types::address_of(v.value@),
            None => None,
        }
        &&& self.min_profit_threshold@ == number_setting(vars, "MIN_PROFIT_THRESHOLD"@, decimal::atoms(1, 3))
        &&& self.max_order_size_usdc@ == number_setting(vars, "MAX_ORDER_SIZE_USDC"@, decimal::atoms(100, 0))
        &&& self.crypto_symbols@.map_values(|w: String| w@) == symbols_of(
            text_setting(vars, "CRYPTO_SYMBOLS"@, "btc,eth,xrp,sol"@),
        )
        &&& self.market_refresh_advance_secs == count_setting(
            vars,
            "MARKET_REFRESH_ADVANCE_SECS"@,
            u64::MAX as int,
            5,
        )
        &&& self.risk_max_exposure_usdc@ == number_setting(
            vars,
            "RISK_MAX_EXPOSURE_USDC"@,
            decimal::atoms(1000, 0),
        )
        &&& self.risk_imbalance_threshold@ == number_setting(
            vars,
            "RISK_IMBALANCE_THRESHOLD"@,
            decimal::atoms(1, 1),
        )
        &&& self.hedge_take_profit_pct@ == number_setting(vars, "HEDGE_TAKE_PROFIT_PCT"@, decimal::atoms(5, 2))
        &&& self.hedge_stop_loss_pct@ == number_setting(vars, "HEDGE_STOP_LOSS_PCT"@, decimal::atoms(5, 2))
        &&& self.arbitrage_execution_spread@ == number_setting(
            vars,
            "ARBITRAGE_EXECUTION_SPREAD"@,
            decimal::atoms(1, 2),
        )
        &&& (self.slippage[0]@, self.slippage[1]@) == slippage_setting(vars, "SLIPPAGE"@)
        &&& self.gtd_expiration_secs == count_setting(vars, "GTD_EXPIRATION_SECS"@, u64::MAX as int, 300)
        &&& self.arbitrage_order_type == order_type_of_word(
            text::uppercase(text::trimmed(text_setting(vars, "ARBITRAGE_ORDER_TYPE"@, "GTD"@))),
        )
        &&& self.clob_signature_mode == signature_mode_of_word(
            text::lowercase(text::trimmed(text_setting(vars, "CLOB_SIGNATURE_TYPE"@, "auto"@))),
        )
        &&& self.stop_arbitrage_before_end_minutes == count_setting(
            vars,
            "STOP_ARBITRAGE_BEFORE_END_MINUTES"@,
            u64::MAX as int,
            0,
        )
        &&& self.merge_interval_minutes == count_setting(vars, "MERGE_INTERVAL_MINUTES"@, u64::MAX as int, 0)
        &&& self.min_yes_price_threshold@ == number_setting(vars, "MIN_YES_PRICE_THRESHOLD"@, 0)
        &&& self.min_no_price_threshold@ == number_setting(vars, "MIN_NO_PRICE_THRESHOLD"@, 0)
        &&& self.position_sync_interval_secs == count_setting(
            vars,
            "POSITION_SYNC_INTERVAL_SECS"@,
            u64::MAX as int,
            10,
        )
        &&& self.position_balance_interval_secs == count_setting(
            vars,
            "POSITION_BALANCE_INTERVAL_SECS"@,
            u64::MAX as int,
            60,
        )
        &&& self.position_balance_threshold@ == number_setting(
            vars,
            "POSITION_BALANCE_THRESHOLD"@,
            decimal::atoms(2, 0),
        )
        &&& self.position_balance_min_total@ == number_setting(
            vars,
            "POSITION_BALANCE_MIN_TOTAL"@,
            decimal::atoms(5, 0),
        )
        &&& self.wind_down_before_window_end_minutes == count_setting(
            vars,
            "WIND_DOWN_BEFORE_WINDOW_END_MINUTES"@,
            u64::MAX as int,
            0,
        )
        &&& self.wind_down_sell_price@ == number_setting(vars, "WIND_DOWN_SELL_PRICE"@, decimal::atoms(1, 2))
        &&& self.trading_mode == strategy::mode_of_word(
            text::lowercase(text::trimmed(text_setting(vars, "TRADING_MODE"@, "arb"@))),
        )
        &&& self.dry_run == flag_setting(vars, "DRY_RUN"@, false)
        &&& self.startup_wizard == flag_setting(vars, "STARTUP_WIZARD"@, false)
        &&& self.live_confirm_required == flag_setting(vars, "LIVE_CONFIRM_REQUIRED"@, true)
        &&& self.multi_wallet_non_interactive == flag_setting(vars, "MULTI_WALLET_NON_INTERACTIVE"@, false)
    }

    /// The settings of the two market makers are what the environment says.
    pub open spec fn reads_makers(self, vars: Seq<EnvVar>) -> bool {
        &&& self.mm_base_spread@ == number_setting(vars, "MM_BASE_SPREAD"@, decimal::atoms(3, 2))
        &&& self.mm_inventory_gamma@ == number_setting(vars, "MM_INVENTORY_GAMMA"@, decimal::atoms(3, 2))
        &&& self.mm_max_position_per_side@ == number_setting(
            vars,
            "MM_MAX_POSITION_PER_SIDE"@,
            decimal::atoms(5, 0),
        )
        &&& self.mm_quote_size@ == number_setting(vars, "MM_QUOTE_SIZE"@, decimal::atoms(1, 0))
        &&& self.mm_min_seconds_to_quote == signed_setting(vars, "MM_MIN_SECONDS_TO_QUOTE"@, 30)
        &&& self.apex_base_spread@ == number_setting(vars, "APEX_BASE_SPREAD"@, decimal::atoms(3, 2))
        &&& self.apex_inventory_gamma@ == number_setting(vars, "APEX_INVENTORY_GAMMA"@, decimal::atoms(5, 2))
        &&& self.apex_max_position_per_side@ == number_setting(
            vars,
            "APEX_MAX_POSITION_PER_SIDE"@,
            decimal::atoms(10, 0),
        )
        &&& self.apex_quote_size@ == number_setting(vars, "APEX_QUOTE_SIZE"@, decimal::atoms(1, 0))
        &&& self.apex_min_seconds_to_quote == signed_setting(vars, "APEX_MIN_SECONDS_TO_QUOTE"@, 10)
        &&& self.apex_toxicity_quote_threshold == count_setting(
            vars,
            "APEX_TOXICITY_QUOTE_THRESHOLD"@,
            u32::MAX as int,
            5,
        )
        &&& self.apex_toxicity_imbalance_threshold@ == number_setting(
            vars,
            "APEX_TOXICITY_IMBALANCE_THRESHOLD"@,
            decimal::atoms(3, 1),
        )
    }

    /// The settings that the environment makes, and the usual ones where it makes none.
    pub fn from_env(env: &Environment) -> (r: Config)
        ensures
            r.reads_general(env.vars@),
            r.reads_makers(env.vars@),
    {
        let proxy_address = match env.get("POLYMARKET_PROXY_ADDRESS") {
            Some(v) => parse_address(v.value.as_str()),
            None => None,
        };
        let slippage = match env.get("SLIPPAGE") {
            Some(v) => parse_slippage(&v.pieces),
            None => [Decimal::zero(), Decimal::new(1, 2)],
        };
        Config {
            private_key: env.text_or("POLYMARKET_PRIVATE_KEY", ""),
            proxy_address,
            min_profit_threshold: env.number_or("MIN_PROFIT_THRESHOLD", Decimal::new(1, 3)),
            max_order_size_usdc: env.number_or("MAX_ORDER_SIZE_USDC", Decimal::new(100, 0)),
            crypto_symbols: parse_symbols(env.text_or("CRYPTO_SYMBOLS", "btc,eth,xrp,sol").as_str()),
            market_refresh_advance_secs: env.u64_or("MARKET_REFRESH_ADVANCE_SECS", 5),
            risk_max_exposure_usdc: env.number_or("RISK_MAX_EXPOSURE_USDC", Decimal::new(1000, 0)),
            risk_imbalance_threshold: env.number_or("RISK_IMBALANCE_THRESHOLD", Decimal::new(1, 1)),
            hedge_take_profit_pct: env.number_or("HEDGE_TAKE_PROFIT_PCT", Decimal::new(5, 2)),
            hedge_stop_loss_pct: env.number_or("HEDGE_STOP_LOSS_PCT", Decimal::new(5, 2)),
            arbitrage_execution_spread: env.number_or("ARBITRAGE_EXECUTION_SPREAD", Decimal::new(1, 2)),
            slippage,
            gtd_expiration_secs: env.u64_or("GTD_EXPIRATION_SECS", 300),
            arbitrage_order_type: parse_arbitrage_order_type(
                env.text_or("ARBITRAGE_ORDER_TYPE", "GTD").as_str(),
            ),
            clob_signature_mode: ClobSignatureMode::parse(
                env.text_or("CLOB_SIGNATURE_TYPE", "auto").as_str(),
            ),
            stop_arbitrage_before_end_minutes: env.u64_or("STOP_ARBITRAGE_BEFORE_END_MINUTES", 0),
            merge_interval_minutes: env.u64_or("MERGE_INTERVAL_MINUTES", 0),
            min_yes_price_threshold: env.number_or("MIN_YES_PRICE_THRESHOLD", Decimal::zero()),
            min_no_price_threshold: env.number_or("MIN_NO_PRICE_THRESHOLD", Decimal::zero()),
            position_sync_interval_secs: env.u64_or("POSITION_SYNC_INTERVAL_SECS", 10),
            position_balance_interval_secs: env.u64_or("POSITION_BALANCE_INTERVAL_SECS", 60),
            position_balance_threshold: env.number_or("POSITION_BALANCE_THRESHOLD", Decimal::new(2, 0)),
            position_balance_min_total: env.number_or("POSITION_BALANCE_MIN_TOTAL", Decimal::new(5, 0)),
            wind_down_before_window_end_minutes: env.u64_or("WIND_DOWN_BEFORE_WINDOW_END_MINUTES", 0),
            wind_down_sell_price: env.number_or("WIND_DOWN_SELL_PRICE", Decimal::new(1, 2)),
            trading_mode: TradingMode::parse(env.text_or("TRADING_MODE", "arb").as_str()),
            dry_run: env.flag_or("DRY_RUN", false),
            mm_base_spread: env.number_or("MM_BASE_SPREAD", Decimal::new(3, 2)),
            mm_inventory_gamma: env.number_or("MM_INVENTORY_GAMMA", Decimal::new(3, 2)),
            mm_max_position_per_side: env.number_or("MM_MAX_POSITION_PER_SIDE", Decimal::new(5, 0)),
            mm_quote_size: env.number_or("MM_QUOTE_SIZE", Decimal::new(1, 0)),
            mm_min_seconds_to_quote: env.i64_or("MM_MIN_SECONDS_TO_QUOTE", 30),
            startup_wizard: env.flag_or("STARTUP_WIZARD", false),
            live_confirm_required: env.flag_or("LIVE_CONFIRM_REQUIRED", true),
            multi_wallet_non_interactive: env.flag_or("MULTI_WALLET_NON_INTERACTIVE", false),
            apex_base_spread: env.number_or("APEX_BASE_SPREAD", Decimal::new(3, 2)),
            apex_inventory_gamma: env.number_or("APEX_INVENTORY_GAMMA", Decimal::new(5, 2)),
            apex_max_position_per_side: env.number_or("APEX_MAX_POSITION_PER_SIDE", Decimal::new(10, 0)),
            apex_quote_size: env.number_or("APEX_QUOTE_SIZE", Decimal::new(1, 0)),
            apex_min_seconds_to_quote: env.i64_or("APEX_MIN_SECONDS_TO_QUOTE", 10),
            apex_toxicity_quote_threshold: env.u32_or("APEX_TOXICITY_QUOTE_THRESHOLD", 5),
            apex_toxicity_imbalance_threshold: env.number_or(
                "APEX_TOXICITY_IMBALANCE_THRESHOLD",
                Decimal::new(3, 1),
            ),
        }
    }
}

} // verus!
