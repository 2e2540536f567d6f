//! Settings, wallets and the start.
use poly_5min_bot::config::{
    parse_arbitrage_order_type, parse_slippage, parse_symbols, ClobSignatureMode, Config, EnvNumber,
    EnvVar, Environment, OrderType, SignatureType,
};
use poly_5min_bot::decimal::Decimal;
use poly_5min_bot::launcher::{
    accept_confirm, accept_number, accept_strategy, accept_wallet, address_preview,
    available_wallets, build_slots_non_interactive, confirms_live, is_multi_mode_available,
    key_preview, load_wallets, slot_config, slot_name, startup_summary, wallet_line, Picker,
    Question, Slot, WalletProfile,
};
use poly_5min_bot::strategy::TradingMode;
use poly_5min_bot::types::Address;

fn dec(num: i64, scale: u32) -> Decimal {
    Decimal::new(num, scale)
}

fn text(name: &str, value: &str) -> EnvVar {
    EnvVar {
        name: name.to_string(),
        value: value.to_string(),
        number: EnvNumber::Unparsed,
        pieces: Vec::new(),
    }
}

fn number(name: &str, value: EnvNumber) -> EnvVar {
    EnvVar { number: value, ..text(name, "") }
}

fn environment(vars: Vec<EnvVar>) -> Environment {
    Environment { vars }
}

#[test]
fn usual_settings() {
    let c = Config::from_env(&environment(Vec::new()));
    assert_eq!(c.private_key, "");
    assert_eq!(c.proxy_address, None);
    assert!(c.min_profit_threshold == dec(1, 3));
    assert!(c.max_order_size_usdc == dec(100, 0));
    assert_eq!(c.crypto_symbols, ["btc", "eth", "xrp", "sol"]);
    assert_eq!(c.market_refresh_advance_secs, 5);
    assert!(c.risk_max_exposure_usdc == dec(1000, 0) && c.risk_imbalance_threshold == dec(1, 1));
    assert!(c.hedge_take_profit_pct == dec(5, 2) && c.hedge_stop_loss_pct == dec(5, 2));
    assert!(c.arbitrage_execution_spread == dec(1, 2));
    assert!(c.slippage[0] == dec(0, 0) && c.slippage[1] == dec(1, 2));
    assert_eq!(c.gtd_expiration_secs, 300);
    assert_eq!(c.arbitrage_order_type, OrderType::GTD);
    assert_eq!(c.clob_signature_mode, ClobSignatureMode::Auto);
    assert_eq!((c.stop_arbitrage_before_end_minutes, c.merge_interval_minutes), (0, 0));
    assert!(c.min_yes_price_threshold == dec(0, 0) && c.min_no_price_threshold == dec(0, 0));
    assert_eq!((c.position_sync_interval_secs, c.position_balance_interval_secs), (10, 60));
    assert!(c.position_balance_threshold == dec(2, 0) && c.position_balance_min_total == dec(5, 0));
    assert_eq!(c.wind_down_before_window_end_minutes, 0);
    assert!(c.wind_down_sell_price == dec(1, 2));
    assert_eq!(c.trading_mode, TradingMode::Arb);
    assert!(!c.dry_run && !c.startup_wizard && c.live_confirm_required);
    assert!(!c.multi_wallet_non_interactive);
    assert!(c.mm_base_spread == dec(3, 2) && c.mm_inventory_gamma == dec(3, 2));
    assert!(c.mm_max_position_per_side == dec(5, 0) && c.mm_quote_size == dec(1, 0));
    assert_eq!(c.mm_min_seconds_to_quote, 30);
    assert!(c.apex_base_spread == dec(3, 2) && c.apex_inventory_gamma == dec(5, 2));
    assert!(c.apex_max_position_per_side == dec(10, 0) && c.apex_quote_size == dec(1, 0));
    assert_eq!((c.apex_min_seconds_to_quote, c.apex_toxicity_quote_threshold), (10, 5));
    assert!(c.apex_toxicity_imbalance_threshold == dec(3, 1));
}

#[test]
fn settings_that_are_made() {
    let c = Config::from_env(&environment(vec![
        text("POLYMARKET_PRIVATE_KEY", "k"),
        text("POLYMARKET_PROXY_ADDRESS", "0x000000010000000000000000000000000000000a"),
        number("MIN_PROFIT_THRESHOLD", EnvNumber::Value(dec(7, 3))),
        number("MM_BASE_SPREAD", EnvNumber::Value(dec(-1, 2))),
        number("MM_QUOTE_SIZE", EnvNumber::OutOfRange),
        text("CRYPTO_SYMBOLS", " BTC ,,Sol"),
        text("GTD_EXPIRATION_SECS", "+60"),
        text("MERGE_INTERVAL_MINUTES", " 5"),
        text("MM_MIN_SECONDS_TO_QUOTE", "-5"),
        text("APEX_TOXICITY_QUOTE_THRESHOLD", "4294967296"),
        text("ARBITRAGE_ORDER_TYPE", " fok\n"),
        text("CLOB_SIGNATURE_TYPE", "GnosisSafe"),
        text("TRADING_MODE", "MM"),
        text("DRY_RUN", " TRUE "),
        text("LIVE_CONFIRM_REQUIRED", "yes"),
        text("DRY_RUN", "false"),
    ]));
    assert_eq!(c.private_key, "k");
    assert_eq!(c.proxy_address, Some(Address { hi: 1, lo: 10 }));
    assert!(c.min_profit_threshold == dec(7, 3) && c.mm_base_spread == dec(-1, 2));
    assert!(c.mm_quote_size == dec(1, 0));
    assert_eq!(c.crypto_symbols, ["btc", "", "sol"]);
    assert_eq!((c.gtd_expiration_secs, c.merge_interval_minutes), (60, 0));
    assert_eq!((c.mm_min_seconds_to_quote, c.apex_toxicity_quote_threshold), (-5, 5));
    assert_eq!(c.arbitrage_order_type, OrderType::FOK);
    assert_eq!(c.clob_signature_mode, ClobSignatureMode::GnosisSafe);
    assert_eq!(c.trading_mode, TradingMode::MarketMaker);
    assert!(c.dry_run && !c.live_confirm_required);
}

#[test]
fn bad_addresses_are_dropped() {
    for bad in ["", "0x1", "0x00000001000000000000000000000000000000g0", " 0x0000000100000000000000000000000000000000"] {
        let c = Config::from_env(&environment(vec![text("POLYMARKET_PROXY_ADDRESS", bad)]));
        assert_eq!(c.proxy_address, None);
    }
    let c = Config::from_env(&environment(vec![text(
        "POLYMARKET_PROXY_ADDRESS",
        "FFFFFFFFffffffffffffffffffffffffffffffff",
    )]));
    assert_eq!(c.proxy_address, Some(Address { hi: u32::MAX, lo: u128::MAX }));
    let c = Config::from_env(&environment(vec![text(
        "POLYMARKET_PROXY_ADDRESS",
        "0X00000000000000000000000000000000000000AB",
    )]));
    assert_eq!(c.proxy_address, Some(Address { hi: 0, lo: 0xab }));
}

#[test]
fn order_types() {
    assert_eq!(parse_arbitrage_order_type("gtc"), OrderType::GTC);
    assert_eq!(parse_arbitrage_order_type("Gtd"), OrderType::GTD);
    assert_eq!(parse_arbitrage_order_type("fak"), OrderType::FAK);
    assert_eq!(parse_arbitrage_order_type("FOK"), OrderType::FOK);
    assert_eq!(parse_arbitrage_order_type("?"), OrderType::GTD);
    assert_eq!(OrderType::from_word("gtc"), OrderType::GTD);
}

#[test]
fn slippages() {
    let v = |n: i64| EnvNumber::Value(dec(n, 2));
    let s = |pieces: Vec<EnvNumber>| {
        let [a, b] = parse_slippage(&pieces);
        (a, b)
    };
    let (a, b) = s(vec![v(-2), v(0), v(5)]);
    assert!(a == dec(-2, 2) && b == dec(0, 0));
    let (a, b) = s(vec![v(3)]);
    assert!(a == dec(3, 2) && b == dec(3, 2));
    let (a, b) = s(vec![EnvNumber::Unparsed, EnvNumber::Unparsed]);
    assert!(a == dec(0, 0) && b == dec(0, 0));
    let (a, b) = s(vec![EnvNumber::OutOfRange]);
    assert!(a == dec(0, 0) && b == dec(1, 2));
    let (a, b) = s(Vec::new());
    assert!(a == dec(0, 0) && b == dec(1, 2));
    let var = EnvVar { pieces: vec![v(4), v(6)], ..text("SLIPPAGE", "0.04,0.06") };
    let c = Config::from_env(&environment(vec![var]));
    assert!(c.slippage[0] == dec(4, 2) && c.slippage[1] == dec(6, 2));
}

#[test]
fn symbols() {
    assert_eq!(parse_symbols(""), [""]);
    assert_eq!(parse_symbols("A, b\t"), ["a", "b"]);
}

#[test]
fn signature_modes() {
    for (word, mode) in [
        ("auto", ClobSignatureMode::Auto),
        ("eoa", ClobSignatureMode::Eoa),
        ("proxy", ClobSignatureMode::Proxy),
        ("gnosis_safe", ClobSignatureMode::GnosisSafe),
    ] {
        assert_eq!(ClobSignatureMode::parse(word), mode);
        assert_eq!(mode.as_str(), word);
    }
    assert_eq!(ClobSignatureMode::parse(" SAFE"), ClobSignatureMode::GnosisSafe);
    assert_eq!(ClobSignatureMode::parse("other"), ClobSignatureMode::Auto);
}

#[test]
fn signing_wallets() {
    let at = |lo| Some(Address { hi: 0, lo });
    let auto = ClobSignatureMode::Auto;
    assert_eq!(auto.resolve(at(1), at(2), at(2), at(3)), SignatureType::Proxy);
    assert_eq!(auto.resolve(at(1), at(3), at(2), at(3)), SignatureType::GnosisSafe);
    assert_eq!(auto.resolve(at(1), at(9), at(2), at(3)), SignatureType::Proxy);
    assert_eq!(auto.resolve(None, at(3), None, at(3)), SignatureType::Proxy);
    assert_eq!(auto.resolve(at(1), None, at(2), at(3)), SignatureType::Eoa);
    assert_eq!(ClobSignatureMode::Eoa.resolve(at(1), at(2), at(2), None), SignatureType::Eoa);
    assert_eq!(ClobSignatureMode::Proxy.resolve(None, None, None, None), SignatureType::Proxy);
    assert_eq!(
        ClobSignatureMode::GnosisSafe.resolve(None, None, None, None),
        SignatureType::GnosisSafe
    );
}

fn wallets() -> Vec<WalletProfile> {
    load_wallets(&environment(vec![
        text("WALLET_1_KEY", " 0123456789abcdef "),
        text("WALLET_2_KEY", " "),
        text("WALLET_3_KEY", "short"),
        text("WALLET_3_NAME", "third"),
        text("WALLET_3_PROXY", " 0xd8da6bf26964af9d7eed9e03e53415d37aa96045 "),
        text("WALLET_4_KEY", "ignored"),
    ]))
}

#[test]
fn wallets_are_loaded() {
    let w = wallets();
    assert_eq!(w.len(), 2);
    assert_eq!((w[0].name.as_str(), w[0].private_key.as_str()), ("Wallet-1", "0123456789abcdef"));
    assert_eq!((w[0].number, w[1].number), (1, 3));
    assert_eq!(w[0].proxy_address, None);
    assert_eq!((w[1].name.as_str(), w[1].private_key.as_str()), ("third", "short"));
    assert_eq!(
        w[1].proxy_address,
        Some(Address { hi: 0xd8da6bf2, lo: 0x6964af9d7eed9e03e53415d37aa96045 })
    );
    assert!(is_multi_mode_available(&environment(vec![text("WALLET_2_KEY", "k")])));
    assert!(!is_multi_mode_available(&environment(vec![text("WALLET_4_KEY", "k")])));
    assert!(!is_multi_mode_available(&environment(vec![text("WALLET_1_KEY", "  ")])));
}

#[test]
fn slots_from_the_environment() {
    let env = environment(vec![
        text("WALLET_1_STRATEGY", " Market_Maker "),
        text("WALLET_2_STRATEGY", "arb"),
        text("WALLET_3_STRATEGY", ""),
    ]);
    let slots = build_slots_non_interactive(&env, &wallets(), TradingMode::Hybrid).unwrap();
    assert_eq!(slots.len(), 2);
    assert_eq!((slots[0].index, slots[0].strategy), (1, TradingMode::MarketMaker));
    assert_eq!((slots[1].index, slots[1].strategy), (2, TradingMode::Hybrid));
    assert_eq!(slots[1].wallet.name, "third");
    assert_eq!(slot_name(&slots[1]), "Slot-2/hybrid/third");
    let bad = environment(vec![
        text("WALLET_1_STRATEGY", "arb"),
        text("WALLET_2_STRATEGY", "ignored"),
        text("WALLET_3_STRATEGY", " Apex "),
    ]);
    let error = build_slots_non_interactive(&bad, &wallets(), TradingMode::Arb).unwrap_err();
    assert_eq!(
        error.text(),
        "WALLET_3_STRATEGY has invalid value ' Apex '. Use one of: arb, mm, hybrid"
    );
}

#[test]
fn a_wallet_has_the_strategy_of_its_number() {
    let env = environment(vec![text("WALLET_2_KEY", "k2"), text("WALLET_2_STRATEGY", "mm")]);
    let w = load_wallets(&env);
    assert_eq!(w.len(), 1);
    assert_eq!((w[0].number, w[0].name.as_str()), (2, "Wallet-2"));
    let slots = build_slots_non_interactive(&env, &w, TradingMode::Arb).unwrap();
    assert_eq!(slots.len(), 1);
    assert_eq!(slots[0].wallet.private_key, "k2");
    assert_eq!((slots[0].index, slots[0].strategy), (1, TradingMode::MarketMaker));
    let other = environment(vec![text("WALLET_1_STRATEGY", "mm")]);
    let slots = build_slots_non_interactive(&other, &w, TradingMode::Arb).unwrap();
    assert_eq!(slots[0].strategy, TradingMode::Arb);
}

#[test]
fn a_slot_has_its_own_settings() {
    let base = Config::from_env(&environment(vec![text("POLYMARKET_PRIVATE_KEY", "base")]));
    let slot = Slot { index: 1, strategy: TradingMode::MarketMaker, wallet: wallets().remove(1) };
    let c = slot_config(base, &slot);
    assert_eq!(c.private_key, "short");
    assert_eq!(c.proxy_address, slot.wallet.proxy_address);
    assert_eq!(c.trading_mode, TradingMode::MarketMaker);
    assert_eq!(c.crypto_symbols.len(), 4);
}

#[test]
fn answers_to_the_questions() {
    assert_eq!(accept_number(" 2\n", 1, 3), Some(2));
    assert_eq!(accept_number("4", 1, 3), None);
    assert_eq!(accept_number("0", 1, 3), None);
    assert_eq!(accept_number("two", 1, 3), None);
    assert_eq!(accept_strategy("ARB\n"), Some(TradingMode::Arb));
    assert_eq!(accept_strategy("1"), Some(TradingMode::Arb));
    assert_eq!(accept_strategy("Mm"), Some(TradingMode::MarketMaker));
    assert_eq!(accept_strategy("2"), Some(TradingMode::MarketMaker));
    assert_eq!(accept_strategy("hybrid"), None);
    assert_eq!(accept_wallet("2", 3, &vec![0]), Some(1));
    assert_eq!(accept_wallet("1", 3, &vec![0]), None);
    assert_eq!(accept_wallet("0", 3, &vec![]), Some(0));
    assert_eq!(accept_wallet("4", 3, &vec![]), None);
    assert!(accept_confirm(" Y\n") && accept_confirm("y"));
    assert!(!accept_confirm("yes") && !accept_confirm(""));
    assert!(confirms_live(" LIVE\n") && !confirms_live("live"));
    assert_eq!(available_wallets(3, &vec![1]), [0, 2]);
}

#[test]
fn picking_two_slots() {
    let mut picker = Picker::new(wallets());
    assert_eq!((picker.question(), picker.most()), (Question::HowMany, 2));
    picker.answer("3");
    assert_eq!(picker.question(), Question::HowMany);
    picker.answer("2");
    assert_eq!(picker.question(), Question::Strategy);
    picker.answer("?");
    picker.answer("mm");
    assert_eq!(picker.question(), Question::Wallet { mode: TradingMode::MarketMaker });
    assert_eq!(picker.free(), [0, 1]);
    picker.answer("9");
    picker.answer("2");
    assert_eq!(picker.question(), Question::Strategy);
    assert_eq!(picker.free(), [0]);
    // The only wallet that is left is not asked for.
    picker.answer("arb");
    assert_eq!(picker.question(), Question::Start);
    let slots = picker.slots();
    assert_eq!((slots[0].index, slots[0].wallet.name.as_str()), (1, "third"));
    assert_eq!((slots[1].index, slots[1].wallet.name.as_str()), (2, "Wallet-1"));
    assert_eq!(slots[1].strategy, TradingMode::Arb);
    picker.answer("y");
    assert_eq!(picker.question(), Question::Started);
    picker.answer("n");
    assert_eq!(picker.question(), Question::Started);
}

#[test]
fn picking_can_be_given_up() {
    let mut picker = Picker::new(wallets());
    for line in ["1", "arb", "1", "no"] {
        picker.answer(line);
    }
    assert_eq!(picker.question(), Question::Aborted);
    assert_eq!(picker.slots().len(), 1);
}

#[test]
fn what_is_shown_of_keys() {
    assert_eq!(key_preview("0123456789").unwrap(), "***");
    assert_eq!(key_preview("0123456789a").unwrap(), "012345...789a");
    // Two bytes each: three characters in front and two at the end.
    assert_eq!(key_preview("éééééé").unwrap(), "ééé...éé");
    assert_eq!(key_preview("ééééé").unwrap(), "***");
    assert!(key_preview("aééééééé").is_none());
    assert!(key_preview("aaaaaa🚀aé").is_none());
}

#[test]
fn what_is_shown_of_wallets() {
    let w = wallets();
    assert_eq!(
        wallet_line(1, &w[0]).unwrap(),
        "  1. Wallet-1 (key: 012345...cdef | proxy: no proxy)"
    );
    assert_eq!(
        wallet_line(12, &w[1]).unwrap(),
        "  12. third (key: *** | proxy: 0xd8dA6BF26964aF9D7eEd9e03E53415D37aA96045)"
    );
    assert_eq!(address_preview(w[1].proxy_address), "0xd8da...6045");
    assert_eq!(address_preview(None), "none");
}

#[test]
fn the_startup_summary() {
    let mut c = Config::from_env(&environment(Vec::new()));
    assert_eq!(
        startup_summary(&c, &Vec::new()),
        [
            "  Mode:             Single-wallet",
            "  Dry Run:          DISABLED (Live Trading!)",
            "  Live Confirm:     REQUIRED",
            "  MW Auto Start:    DISABLED (interactive picker)",
            "  Trading Mode(s):  arb",
            "  Symbols:          btc, eth, xrp, sol",
            "  Wallets:          1 (detected from .env)",
        ]
    );
    c.dry_run = true;
    c.live_confirm_required = false;
    c.multi_wallet_non_interactive = true;
    c.crypto_symbols = Vec::new();
    assert_eq!(
        startup_summary(&c, &wallets()),
        [
            "  Mode:             Multi-wallet",
            "  Dry Run:          ENABLED (Simulated)",
            "  Live Confirm:     BYPASSED (Automation Mode)",
            "  MW Auto Start:    ENABLED (from env)",
            "  Trading Mode(s):  Multi-strategy",
            "  Symbols:          ",
            "  Wallets:          2 detected",
            "  [1] Wallet: Wallet-1     | Proxy: none",
            "  [2] Wallet: third        | Proxy: 0xd8da...6045",
        ]
    );
}
