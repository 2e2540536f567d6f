//! Several wallets, each with a strategy of its own: which there are, and who trades with which.
use vstd::prelude::*;

use crate::config;
use crate::config::{Config, EnvVar, Environment};
use crate::strategy::TradingMode;
use crate::text;
use crate::text::{
    char_bytes, count_in_front, is_longer, parse_u64, same_text, to_lowercase, trim, u64_text,
};
use crate::types;
use crate::types::{address_text, checksum_text, lemma_hex_digits_len, parse_address, Address};

verus! {

/// A wallet.
#[derive(Clone, Debug)]
pub struct WalletProfile<S = String> {
    /// The number in the names of its settings.
    pub number: u64,
    pub name: S,
    pub private_key: S,
    pub proxy_address: Option<Address>,
}

impl View for WalletProfile<String> {
    type V = WalletProfile<Seq<char>>;

    open spec fn view(&self) -> WalletProfile<Seq<char>> {
        WalletProfile {
            number: self.number,
            name: self.name@,
            private_key: self.private_key@,
            proxy_address: self.proxy_address,
        }
    }
}

impl WalletProfile<String> {
    /// A copy.
    fn copied(&self) -> (r: WalletProfile)
        ensures
            r@ == self@,
    {
        WalletProfile {
            number: self.number,
            name: self.name.clone(),
            private_key: self.private_key.clone(),
            proxy_address: self.proxy_address,
        }
    }
}

/// A strategy and the wallet that it trades with.
#[derive(Clone, Debug)]
pub struct Slot<S = String> {
    /// Counted from one.
    pub index: usize,
    pub strategy: TradingMode,
    pub wallet: WalletProfile<S>,
}

impl View for Slot<String> {
    type V = Slot<Seq<char>>;

    open spec fn view(&self) -> Slot<Seq<char>> {
        Slot { index: self.index, strategy: self.strategy, wallet: self.wallet@ }
    }
}

/// The wallets, as texts.
pub open spec fn wallet_views(wallets: Seq<WalletProfile>) -> Seq<WalletProfile<Seq<char>>> {
    wallets.map_values(|w: WalletProfile| w@)
}

/// The slots, as texts.
pub open spec fn slot_views(slots: Seq<Slot>) -> Seq<Slot<Seq<char>>> {
    slots.map_values(|s: Slot| s@)
}

/// The name of a setting of a numbered wallet.
pub open spec fn wallet_var(n: int, what: Seq<char>) -> Seq<char> {
    "WALLET_"@ + text::digits(n as nat) + what
}

/// The name of a setting of a numbered wallet.
fn wallet_var_name(n: u64, what: &str) -> (r: String)
    ensures
        r@ == wallet_var(n as int, what@),
{
    let mut s = "WALLET_".to_string();
    s.append(u64_text(n).as_str());
    s.append(what);
    s
}

/// The wallet of a number, where its key is set and not blank.
pub open spec fn numbered_wallet(vars: Seq<EnvVar>, n: int) -> Option<WalletProfile<Seq<char>>> {
    match config::lookup(vars, wallet_var(n, "_KEY"@)) {
        None => None,
        Some(key) => if text::trimmed(key.value@).len() == 0 {
            None
        } else {
            Some(
                WalletProfile {
                    number: n as u64,
                    name: config::text_setting(
                        vars,
                        wallet_var(n, "_NAME"@),
                        "Wallet-"@ + text::digits(n as nat),
                    ),
                    private_key: text::trimmed(key.value@),
                    proxy_address: match config::lookup(vars, wallet_var(n, "_PROXY"@)) {
                        Some(v) => if text::trimmed(v.value@).len() == 0 {
                            None
                        } else {
                            types::address_of(text::trimmed(v.value@))
                        },
                        None => None,
                    },
                },
            )
        },
    }
}

/// The wallets numbered from one to `n`.
pub open spec fn numbered_wallets(vars: Seq<EnvVar>, n: int) -> Seq<WalletProfile<Seq<char>>>
    decreases n,
{
    if n <= 0 {
        seq![]
    } else {
        match numbered_wallet(vars, n) {
            Some(w) => numbered_wallets(vars, n - 1).push(w),
            None => numbered_wallets(vars, n - 1),
        }
    }
}

/// The wallet of a number, where its key is set and not blank.
fn load_wallet(env: &Environment, n: u64) -> (r: Option<WalletProfile>)
    ensures
        (match r {
            Some(w) => Some(w@),
            None => None,
        }) == numbered_wallet(env.vars@, n as int),
{
    let key = match env.get(wallet_var_name(n, "_KEY").as_str()) {
        Some(v) => trim(v.value.as_str()),
        None => return None,
    };
    if key.unicode_len() == 0 {
        return None;
    }
    let mut usual = "Wallet-".to_string();
    usual.append(u64_text(n).as_str());
    let name = env.text_or(wallet_var_name(n, "_NAME").as_str(), usual.as_str());
    let proxy_address = match env.get(wallet_var_name(n, "_PROXY").as_str()) {
        Some(v) => {
            let s = trim(v.value.as_str());
            if s.unicode_len() == 0 {
                None
            } else {
                parse_address(s)
            }
        },
        None => None,
    };
    Some(WalletProfile { number: n, name, private_key: key.to_string(), proxy_address })
}

/// The wallets that are configured, of three at the most.
pub fn load_wallets(env: &Environment) -> (r: Vec<WalletProfile>)
    ensures
        wallet_views(r@) == numbered_wallets(env.vars@, 3),
{
    let mut wallets: Vec<WalletProfile> = Vec::new();
    let mut n: u64 = 0;
    assert(wallet_views(wallets@) =~= seq![]);
    while n < 3
        invariant
            n <= 3,
            wallet_views(wallets@) == numbered_wallets(env.vars@, n as int),
        decreases 3 - n,
    {
        n += 1;
        let ghost before = wallet_views(wallets@);
        match load_wallet(env, n) {
            Some(w) => {
                let ghost v = w@;
                wallets.push(w);
                assert(wallet_views(wallets@) =~= before.push(v));
            },
            None => {},
        }
    }
    wallets
}

/// Whether any wallet is configured.
pub fn is_multi_mode_available(env: &Environment) -> (r: bool)
    ensures
        r == (numbered_wallets(env.vars@, 3).len() > 0),
        r == exists|n: int| 1 <= n <= 3 && #[trigger] numbered_wallet(env.vars@, n) is Some,
{
    let wallets = load_wallets(env);
    proof {
        let vars = env.vars@;
        reveal_with_fuel(numbered_wallets, 4);
        assert(wallet_views(wallets@).len() == wallets@.len());
        assert(numbered_wallet(vars, 1) is Some || numbered_wallet(vars, 2) is Some || numbered_wallet(
            vars,
            3,
        ) is Some <==> numbered_wallets(vars, 3).len() > 0);
    }
    wallets.len() > 0
}

/// The mode that a lower-case word names for a slot, if it names one.
pub open spec fn slot_mode_of_word(word: Seq<char>) -> Option<TradingMode> {
    if word == "arb"@ {
        Some(TradingMode::Arb)
    } else if word == "mm"@ || word == "market_maker"@ || word == "marketmaker"@ {
        Some(TradingMode::MarketMaker)
    } else if word == "hybrid"@ {
        Some(TradingMode::Hybrid)
    } else {
        None
    }
}

/// The mode that a lower-case word names for a slot, if it names one.
pub fn slot_mode_from_word(word: &str) -> (r: Option<TradingMode>)
    ensures
        r == slot_mode_of_word(word@),
{
    if same_text(word, "arb") {
        Some(TradingMode::Arb)
    } else if same_text(word, "mm") || same_text(word, "market_maker") || same_text(word, "marketmaker") {
        Some(TradingMode::MarketMaker)
    } else if same_text(word, "hybrid") {
        Some(TradingMode::Hybrid)
    } else {
        None
    }
}

/// The mode of a numbered wallet: as its setting says, or the usual one where that is not made or blank.
/// `None` where the setting names no mode.
pub open spec fn slot_mode(vars: Seq<EnvVar>, number: int, usual: TradingMode) -> Option<TradingMode> {
    match config::lookup(vars, wallet_var(number, "_STRATEGY"@)) {
        Some(v) => if text::trimmed(v.value@).len() == 0 {
            Some(usual)
        } else {
            slot_mode_of_word(text::lowercase(text::trimmed(v.value@)))
        },
        None => Some(usual),
    }
}

/// A setting that names no mode.
#[derive(Debug)]
pub struct SlotError {
    pub variable: String,
    pub value: String,
}

impl SlotError {
    /// The error in words.
    pub open spec fn words(self) -> Seq<char> {
        self.variable@ + " has invalid value '"@ + self.value@ + "'. Use one of: arb, mm, hybrid"@
    }

    /// The error in words.
    pub fn text(&self) -> (r: String)
        ensures
            r@ == self.words(),
    {
        let mut s = self.variable.clone();
        s.append(" has invalid value '");
        s.append(self.value.as_str());
        s.append("'. Use one of: arb, mm, hybrid");
        s
    }
}

/// The mode of a numbered wallet, or the setting that names none.
fn read_slot_mode(env: &Environment, number: u64, usual: TradingMode) -> (r: Result<TradingMode, SlotError>)
    ensures
        match slot_mode(env.vars@, number as int, usual) {
            Some(mode) => r == Ok::<TradingMode, SlotError>(mode),
            None => {
                &&& r is Err
                &&& (r->Err_0).variable@ == wallet_var(number as int, "_STRATEGY"@)
                &&& (r->Err_0).value@ == config::text_setting(
                    env.vars@,
                    wallet_var(number as int, "_STRATEGY"@),
                    ""@,
                )
            },
        },
{
    let variable = wallet_var_name(number, "_STRATEGY");
    let raw = match env.get(variable.as_str()) {
        Some(v) => v.value.as_str(),
        None => return Ok(usual),
    };
    let word = trim(raw);
    if word.unicode_len() == 0 {
        return Ok(usual);
    }
    match slot_mode_from_word(to_lowercase(word).as_str()) {
        Some(mode) => Ok(mode),
        None => Err(SlotError { variable, value: raw.to_string() }),
    }
}

/// One slot for each wallet, in their order, each with the mode that is set for its wallet or else the
/// usual one; or the first setting that names no mode.
pub fn build_slots_non_interactive(
    env: &Environment,
    wallets: &Vec<WalletProfile>,
    default_strategy: TradingMode,
) -> (r: Result<Vec<Slot>, SlotError>)
    ensures
        match r {
            Ok(slots) => {
                &&& slots@.len() == wallets@.len()
                &&& forall|i: int|
                    0 <= i < slots@.len() ==> slot_mode(
                        env.vars@,
                        wallets@[i].number as int,
                        default_strategy,
                    ) == Some((#[trigger] slots@[i]).strategy) && slots@[i].index == i + 1
                        && slots@[i].wallet@ == wallets@[i]@
            },
            Err(e) => exists|i: int|
                {
                    &&& 0 <= i < wallets@.len()
                    &&& slot_mode(env.vars@, (#[trigger] wallets@[i]).number as int, default_strategy) is None
                    &&& forall|j: int|
                        0 <= j < i ==> slot_mode(
                            env.vars@,
                            (#[trigger] wallets@[j]).number as int,
                            default_strategy,
                        ) is Some
                    &&& e.variable@ == wallet_var(wallets@[i].number as int, "_STRATEGY"@)
                    &&& e.value@ == config::text_setting(
                        env.vars@,
                        wallet_var(wallets@[i].number as int, "_STRATEGY"@),
                        ""@,
                    )
                },
        },
{
    let mut slots: Vec<Slot> = Vec::new();
    let mut i: usize = 0;
    while i < wallets.len()
        invariant
            i <= wallets@.len(),
            slots@.len() == i,
            forall|j: int|
                0 <= j < i ==> slot_mode(env.vars@, wallets@[j].number as int, default_strategy) == Some(
                    (#[trigger] slots@[j]).strategy,
                ) && slots@[j].index == j + 1 && slots@[j].wallet@ == wallets@[j]@,
        decreases wallets@.len() - i,
    {
        match read_slot_mode(env, wallets[i].number, default_strategy) {
            Ok(strategy) => {
                slots.push(Slot { index: i + 1, strategy, wallet: wallets[i].copied() });
            },
            Err(e) => {
                assert forall|j: int| 0 <= j < i implies slot_mode(
                    env.vars@,
                    (#[trigger] wallets@[j]).number as int,
                    default_strategy,
                ) is Some by {
                    assert(slots@[j].index == j + 1);
                }
                return Err(e);
            },
        }
        i += 1;
    }
    Ok(slots)
}

/// A wallet that is loaded is the one of its number, and the numbers rise along the list.
pub proof fn loaded_wallets_keep_their_numbers(vars: Seq<EnvVar>, n: int, i: int)
    requires
        n <= u64::MAX,
        0 <= i < numbered_wallets(vars, n).len(),
    ensures
        1 <= numbered_wallets(vars, n)[i].number <= n,
        numbered_wallet(vars, numbered_wallets(vars, n)[i].number as int) == Some(
            numbered_wallets(vars, n)[i],
        ),
        forall|j: int|
            0 <= j < i ==> (#[trigger] numbered_wallets(vars, n)[j]).number < numbered_wallets(vars, n)[i].number,
    decreases n,
{
    let before = numbered_wallets(vars, n - 1);
    if i < before.len() {
        loaded_wallets_keep_their_numbers(vars, n - 1, i);
        assert(numbered_wallets(vars, n)[i] == before[i]);
        assert forall|j: int| 0 <= j < i implies (#[trigger] numbered_wallets(vars, n)[j]).number
            < numbered_wallets(vars, n)[i].number by {
            assert(numbered_wallets(vars, n)[j] == before[j]);
        }
    } else {
        assert forall|j: int| 0 <= j < i implies (#[trigger] numbered_wallets(vars, n)[j]).number
            < numbered_wallets(vars, n)[i].number by {
            loaded_wallets_keep_their_numbers(vars, n - 1, j);
            assert(numbered_wallets(vars, n)[j] == before[j]);
        }
    }
}

/// The settings of a slot: its wallet and its strategy, and the rest as it was.
pub fn slot_config(base: Config, slot: &Slot) -> (r: Config)
    ensures
        r == (Config {
            private_key: r.private_key,
            proxy_address: slot.wallet.proxy_address,
            trading_mode: slot.strategy,
            ..base
        }),
        r.private_key@ == slot.wallet.private_key@,
{
    Config {
        private_key: slot.wallet.private_key.clone(),
        proxy_address: slot.wallet.proxy_address,
        trading_mode: slot.strategy,
        ..base
    }
}

/// The name of a slot.
pub fn slot_name(slot: &Slot) -> (r: String)
    ensures
        r@ == "Slot-"@ + text::digits(slot.index as nat) + "/"@ + slot.strategy.short_name() + "/"@
            + slot.wallet.name@,
{
    let mut s = "Slot-".to_string();
    s.append(u64_text(slot.index as u64).as_str());
    s.append("/");
    s.append(slot.strategy.text());
    s.append("/");
    s.append(slot.wallet.name.as_str());
    s
}

/// The number that an answer gives, where it is within bounds.
pub open spec fn number_answer(line: Seq<char>, min: int, max: int) -> Option<int> {
    match text::unsigned_number(text::trimmed(line), u64::MAX as int) {
        Some(n) => if min <= n <= max {
            Some(n)
        } else {
            None
        },
        None => None,
    }
}

/// The number that an answer gives, where it is within bounds.
pub fn accept_number(line: &str, min: usize, max: usize) -> (r: Option<usize>)
    ensures
        (match r {
            Some(n) => Some(n as int),
            None => None,
        }) == number_answer(line@, min as int, max as int),
{
    let n = parse_u64(trim(line))?;
    if n >= min as u64 && n <= max as u64 {
        Some(n as usize)
    } else {
        None
    }
}

/// The mode that a lower-case answer names, if it names one.
pub open spec fn asked_mode_of_word(word: Seq<char>) -> Option<TradingMode> {
    if word == "arb"@ || word == "1"@ {
        Some(TradingMode::Arb)
    } else if word == "mm"@ || word == "2"@ {
        Some(TradingMode::MarketMaker)
    } else {
        None
    }
}

/// The mode that a lower-case answer names, if it names one.
pub fn asked_mode_from_word(word: &str) -> (r: Option<TradingMode>)
    ensures
        r == asked_mode_of_word(word@),
{
    if same_text(word, "arb") || same_text(word, "1") {
        Some(TradingMode::Arb)
    } else if same_text(word, "mm") || same_text(word, "2") {
        Some(TradingMode::MarketMaker)
    } else {
        None
    }
}

/// The mode that an answer names, if it names one.
pub open spec fn mode_answer(line: Seq<char>) -> Option<TradingMode> {
    asked_mode_of_word(text::lowercase(text::trimmed(line)))
}

/// The mode that an answer names, white space around it and case aside, if it names one.
pub fn accept_strategy(line: &str) -> (r: Option<TradingMode>)
    ensures
        r == mode_answer(line@),
        text::all_ascii(text::trimmed(line@)) ==> r == asked_mode_of_word(
            text::trimmed(line@).map_values(|c: char| text::ascii_lower(c)),
        ),
{
    asked_mode_from_word(to_lowercase(trim(line)).as_str())
}

/// The wallet that an answer picks, counted from zero, where it is not taken yet. The answers `0` and
/// `1` both mean the first.
pub open spec fn wallet_answer(line: Seq<char>, count: int, used: Seq<usize>) -> Option<int> {
    match text::unsigned_number(text::trimmed(line), u64::MAX as int) {
        Some(n) => {
            let at = if n == 0 {
                0
            } else {
                n - 1
            };
            if at < count && !used.contains(at as usize) {
                Some(at)
            } else {
                None
            }
        },
        None => None,
    }
}

/// Whether a wallet is taken.
fn is_used(used: &Vec<usize>, at: usize) -> (r: bool)
    ensures
        r == used@.contains(at),
{
    let mut i: usize = 0;
    while i < used.len()
        invariant
            i <= used@.len(),
            forall|j: int| 0 <= j < i ==> used@[j] != at,
        decreases used@.len() - i,
    {
        if used[i] == at {
            return true;
        }
        i += 1;
    }
    false
}

/// The wallet that an answer picks, counted from zero, where it is not taken yet.
pub fn accept_wallet(line: &str, count: usize, used: &Vec<usize>) -> (r: Option<usize>)
    ensures
        (match r {
            Some(at) => Some(at as int),
            None => None,
        }) == wallet_answer(line@, count as int, used@),
{
    let n = parse_u64(trim(line))?;
    let at: u64 = if n == 0 {
        0
    } else {
        n - 1
    };
    if at < count as u64 && !is_used(used, at as usize) {
        Some(at as usize)
    } else {
        None
    }
}

/// The wallets below `count` that are not taken.
pub open spec fn free_wallets(count: int, used: Seq<usize>) -> Seq<usize>
    decreases count,
{
    if count <= 0 {
        seq![]
    } else {
        let before = free_wallets(count - 1, used);
        if used.contains((count - 1) as usize) {
            before
        } else {
            before.push((count - 1) as usize)
        }
    }
}

/// The wallets that are not taken, in their order.
pub fn available_wallets(count: usize, used: &Vec<usize>) -> (r: Vec<usize>)
    ensures
        r@ == free_wallets(count as int, used@),
{
    let mut free: Vec<usize> = Vec::new();
    let mut i: usize = 0;
    while i < count
        invariant
            i <= count,
            free@ == free_wallets(i as int, used@),
        decreases count - i,
    {
        if !is_used(used, i) {
            free.push(i);
        }
        i += 1;
    }
    free
}

/// A free wallet is one of those there are, and not taken.
proof fn lemma_free_wallet(count: int, used: Seq<usize>, i: int)
    requires
        count <= usize::MAX,
        0 <= i < free_wallets(count, used).len(),
    ensures
        free_wallets(count, used)[i] < count,
        !used.contains(free_wallets(count, used)[i]),
    decreases count,
{
    if count > 0 && i < free_wallets(count - 1, used).len() {
        lemma_free_wallet(count - 1, used, i);
    }
}

/// An answer that says yes: `y` or `Y`.
pub open spec fn yes_answer(line: Seq<char>) -> bool {
    text::trimmed(line) == "y"@ || text::trimmed(line) == "Y"@
}

/// Whether an answer says yes.
pub fn accept_confirm(line: &str) -> (r: bool)
    ensures
        r == yes_answer(line@),
{
    let s = trim(line);
    same_text(s, "y") || same_text(s, "Y")
}

/// Whether an answer confirms live trading.
pub fn confirms_live(line: &str) -> (r: bool)
    ensures
        r == (text::trimmed(line@) == "LIVE"@),
{
    same_text(trim(line), "LIVE")
}

/// What is asked next.
#[derive(Clone, Copy, Debug, PartialEq, Eq, Structural)]
pub enum Question {
    /// How many strategies run.
    HowMany,
    /// Which strategy the next slot has.
    Strategy,
    /// Which wallet the slot with this strategy has.
    Wallet { mode: TradingMode },
    /// Whether to start.
    Start,
    /// Nothing: it starts.
    Started,
    /// Nothing: it does not start.
    Aborted,
}

/// A dialogue, as texts.
#[verifier::ext_equal]
pub struct PickerView {
    pub wallets: Seq<WalletProfile<Seq<char>>>,
    pub question: Question,
    /// How many slots are asked for.
    pub wanted: usize,
    pub slots: Seq<Slot<Seq<char>>>,
    /// The wallets of the slots, counted from zero.
    pub used: Seq<usize>,
}

impl PickerView {
    /// A slot gets its wallet. The next is asked for, or the start.
    pub open spec fn assigned(self, mode: TradingMode, at: int) -> PickerView {
        PickerView {
            slots: self.slots.push(
                Slot {
                    index: (self.slots.len() + 1) as usize,
                    strategy: mode,
                    wallet: self.wallets[at],
                },
            ),
            used: self.used.push(at as usize),
            question: if self.slots.len() + 1 < self.wanted {
                Question::Strategy
            } else {
                Question::Start
            },
            ..self
        }
    }

    /// The most slots that can be asked for: three, and not more than there are wallets.
    pub open spec fn most(self) -> int {
        if self.wallets.len() < 3 {
            self.wallets.len() as int
        } else {
            3
        }
    }

    /// The dialogue after an answer. An answer that does not fit changes nothing. A wallet is not asked
    /// for where only one is left.
    pub open spec fn answered(self, line: Seq<char>) -> PickerView {
        match self.question {
            Question::HowMany => match number_answer(line, 1, self.most()) {
                Some(n) => PickerView { wanted: n as usize, question: Question::Strategy, ..self },
                None => self,
            },
            Question::Strategy => match mode_answer(line) {
                Some(mode) => {
                    let free = free_wallets(self.wallets.len() as int, self.used);
                    if free.len() == 1 {
                        self.assigned(mode, free[0] as int)
                    } else {
                        PickerView { question: Question::Wallet { mode }, ..self }
                    }
                },
                None => self,
            },
            Question::Wallet { mode } => match wallet_answer(
                line,
                self.wallets.len() as int,
                self.used,
            ) {
                Some(at) => self.assigned(mode, at),
                None => self,
            },
            Question::Start => PickerView {
                question: if yes_answer(line) {
                    Question::Started
                } else {
                    Question::Aborted
                },
                ..self
            },
            _ => self,
        }
    }

    /// Each slot has a wallet of its own, and its number.
    pub open spec fn sound(self) -> bool {
        &&& self.used.no_duplicates()
        &&& self.used.len() == self.slots.len()
        &&& self.slots.len() <= self.wanted
        &&& self.wanted <= self.most()
        &&& self.question is HowMany ==> self.slots.len() == 0
        &&& self.question is Strategy || self.question is Wallet ==> self.slots.len() < self.wanted
        &&& self.question is Start || self.question is Started || self.question is Aborted
            ==> self.slots.len() == self.wanted
        &&& forall|i: int|
            0 <= i < self.slots.len() ==> {
                &&& (#[trigger] self.used[i]) < self.wallets.len()
                &&& self.slots[i].wallet == self.wallets[self.used[i] as int]
                &&& self.slots[i].index == i + 1
            }
    }
}

/// Asks for the slots.
pub struct Picker {
    wallets: Vec<WalletProfile>,
    question: Question,
    wanted: usize,
    slots: Vec<Slot>,
    used: Vec<usize>,
}

impl View for Picker {
    type V = PickerView;

    closed spec fn view(&self) -> PickerView {
        PickerView {
            wallets: wallet_views(self.wallets@),
            question: self.question,
            wanted: self.wanted,
            slots: slot_views(self.slots@),
            used: self.used@,
        }
    }
}

impl Picker {
    /// Each slot has a wallet of its own, and its number.
    #[verifier::type_invariant]
    spec fn wf(self) -> bool {
        self@.sound()
    }

    /// A dialogue over these wallets, before its first question.
    pub fn new(wallets: Vec<WalletProfile>) -> (r: Self)
        ensures
            r@ == (PickerView {
                wallets: wallet_views(wallets@),
                question: Question::HowMany,
                wanted: 0,
                slots: seq![],
                used: seq![],
            }),
            r@.sound(),
    {
        let slots: Vec<Slot> = Vec::new();
        let used: Vec<usize> = Vec::new();
        assert(slot_views(slots@) =~= seq![]);
        assert(used@ =~= seq![]);
        Picker { wallets, question: Question::HowMany, wanted: 0, slots, used }
    }

    /// What is asked next.
    pub fn question(&self) -> (r: Question)
        ensures
            r == self@.question,
    {
        self.question
    }

    /// The most slots that can be asked for.
    pub fn most(&self) -> (r: usize)
        ensures
            r == self@.most(),
    {
        if self.wallets.len() < 3 {
            self.wallets.len()
        } else {
            3
        }
    }

    /// The wallets that are not taken.
    pub fn free(&self) -> (r: Vec<usize>)
        ensures
            r@ == free_wallets(self@.wallets.len() as int, self@.used),
    {
        available_wallets(self.wallets.len(), &self.used)
    }

    /// The slots so far.
    pub fn slots(&self) -> (r: &Vec<Slot>)
        ensures
            slot_views(r@) == self@.slots,
            self@.sound(),
    {
        proof {
            use_type_invariant(self);
        }
        &self.slots
    }

    /// Gives a slot its wallet.
    fn assign(&mut self, mode: TradingMode, at: usize)
        requires
            old(self)@.slots.len() < old(self)@.wanted,
            at < old(self)@.wallets.len(),
            !old(self)@.used.contains(at),
        ensures
            final(self)@ == old(self)@.assigned(mode, at as int),
    {
        proof {
            use_type_invariant(&*self);
        }
        let ghost before = self@;
        let mut taken = Picker::new(Vec::new());
        std::mem::swap(self, &mut taken);
        let Picker { wallets, question: _, wanted, mut slots, mut used } = taken;
        let n = slots.len();
        let slot = Slot { index: n + 1, strategy: mode, wallet: wallets[at].copied() };
        let ghost v = slot@;
        slots.push(slot);
        used.push(at);
        let question = if n + 1 < wanted {
            Question::Strategy
        } else {
            Question::Start
        };
        let ghost next = before.assigned(mode, at as int);
        assert(slot_views(slots@) =~= before.slots.push(v));
        assert(used@ =~= next.used);
        assert forall|i: int| 0 <= i < next.slots.len() implies {
            &&& (#[trigger] next.used[i]) < next.wallets.len()
            &&& next.slots[i].wallet == next.wallets[next.used[i] as int]
            &&& next.slots[i].index == i + 1
        } by {
            if i < before.slots.len() {
                assert(before.used[i] < before.wallets.len());
            }
        }
        *self = Picker { wallets, question, wanted, slots, used };
    }

    /// An answer. One that does not fit changes nothing.
    pub fn answer(&mut self, line: &str)
        ensures
            final(self)@ == old(self)@.answered(line@),
            final(self)@.sound(),
    {
        proof {
            use_type_invariant(&*self);
        }
        match self.question {
            Question::HowMany => {
                let most = self.most();
                match accept_number(line, 1, most) {
                    Some(n) => {
                        self.wanted = n;
                        self.question = Question::Strategy;
                    },
                    None => {},
                }
            },
            Question::Strategy => match accept_strategy(line) {
                Some(mode) => {
                    let count = self.wallets.len();
                    let free = available_wallets(count, &self.used);
                    if free.len() == 1 {
                        proof {
                            lemma_free_wallet(count as int, self@.used, 0);
                        }
                        self.assign(mode, free[0]);
                    } else {
                        self.question = Question::Wallet { mode };
                    }
                },
                None => {},
            },
            Question::Wallet { mode } => match accept_wallet(line, self.wallets.len(), &self.used) {
                Some(at) => {
                    self.assign(mode, at);
                },
                None => {},
            },
            Question::Start => {
                if accept_confirm(line) {
                    self.question = Question::Started;
                } else {
                    self.question = Question::Aborted;
                }
            },
            _ => {},
        }
    }
}

/// No two slots share a wallet, whatever the answers.
pub proof fn slots_have_wallets_of_their_own(picker: PickerView, i: int, j: int)
    requires
        picker.sound(),
        0 <= i < j < picker.slots.len(),
    ensures
        picker.used[i] != picker.used[j],
        picker.slots[i].wallet == picker.wallets[picker.used[i] as int],
        picker.slots[j].wallet == picker.wallets[picker.used[j] as int],
{
}

/// While a slot is still to be filled, a wallet is free for it.
pub proof fn a_wallet_is_free(picker: PickerView)
    requires
        picker.sound(),
        picker.slots.len() < picker.wanted,
    ensures
        exists|at: int|
            0 <= at < picker.wallets.len() && !(#[trigger] picker.used.contains(at as usize)),
{
    let used = picker.used;
    let k = used.len() as int;
    if !used.contains(k as usize) {
        assert(0 <= k < picker.wallets.len());
    } else if k > 0 && !used.contains((k - 1) as usize) {
        assert(0 <= k - 1 < picker.wallets.len());
    } else {
        assert(k == 1 || k == 2);
        let first = used.index_of(k as usize);
        let second = used.index_of((k - 1) as usize);
        assert(used[first] == k && used[second] == k - 1);
        assert(first != second);
        assert(k == 2);
        assert(!used.contains(0usize)) by {
            if used.contains(0usize) {
                let third = used.index_of(0usize);
                assert(used[third] == 0);
            }
        }
        assert(0 <= 0int < picker.wallets.len() && !used.contains(0int as usize));
    }
}

/// How many characters make up the last `n` bytes of a text; `None` where a character would be cut, or
/// the text is shorter.
pub open spec fn chars_at_end(s: Seq<char>, n: int) -> Option<int>
    decreases s.len(),
{
    if n == 0 {
        Some(0)
    } else if s.len() == 0 || text::utf8_len(s.last()) > n {
        None
    } else {
        match chars_at_end(s.drop_last(), n - text::utf8_len(s.last())) {
            Some(k) => Some(k + 1),
            None => None,
        }
    }
}

/// The first six and the last four bytes of a text; `None` where a character would be cut.
pub open spec fn shortened(s: Seq<char>) -> Option<Seq<char>> {
    match (text::chars_in_front(s, 6), chars_at_end(s, 4)) {
        (Some(front), Some(end)) => Some(s.take(front) + "..."@ + s.skip(s.len() - end)),
        _ => None,
    }
}

/// How many characters make up the last `n` bytes of a text.
fn count_at_end(s: &str, n: usize) -> (r: Option<usize>)
    ensures
        (match r {
            Some(k) => Some(k as int),
            None => None,
        }) == chars_at_end(s@, n as int),
        r matches Some(k) ==> k <= s@.len(),
{
    let len = s.unicode_len();
    let mut i: usize = 0;
    let mut rest: usize = n;
    assert(s@.take(s@.len() as int) =~= s@);
    while rest > 0
        invariant
            i <= len == s@.len(),
            chars_at_end(s@, n as int) == match chars_at_end(s@.take(len - i), rest as int) {
                Some(k) => Some(k + i),
                None => None,
            },
        decreases rest,
    {
        if i == len {
            return None;
        }
        assert(s@.take(len - i).drop_last() =~= s@.take(len - i - 1));
        let size = char_bytes(s.get_char(len - i - 1));
        if size > rest {
            return None;
        }
        rest -= size;
        i += 1;
    }
    Some(i)
}

/// The first six and the last four bytes of a text; `None` where a character would be cut.
fn shorten(s: &str) -> (r: Option<String>)
    ensures
        (match r {
            Some(t) => Some(t@),
            None => None,
        }) == shortened(s@),
{
    let front = count_in_front(s, 6)?;
    let end = count_at_end(s, 4)?;
    let n = s.unicode_len();
    let mut r = s.substring_char(0, front).to_string();
    r.append("...");
    r.append(s.substring_char(n - end, n));
    assert(s@.subrange(0, front as int) =~= s@.take(front as int));
    assert(s@.subrange(n - end, n as int) =~= s@.skip(n - end));
    Some(r)
}

/// What is shown of a key: its two ends, or nothing of one of up to ten bytes. `None` where a character
/// would be cut.
pub open spec fn key_shown(key: Seq<char>) -> Option<Seq<char>> {
    if text::utf8_size(key) > 10 {
        shortened(key)
    } else {
        Some("***"@)
    }
}

/// What is shown of a key: its two ends, or nothing of a short one. `None` where a character would be
/// cut.
pub fn key_preview(key: &str) -> (r: Option<String>)
    ensures
        (match r {
            Some(t) => Some(t@),
            None => None,
        }) == key_shown(key@),
{
    if is_longer(key, 10) {
        shorten(key)
    } else {
        Some("***".to_string())
    }
}

/// What is shown of a wallet's address: its first six and its last four characters.
pub open spec fn address_shown(address: Option<Address>) -> Seq<char> {
    match address {
        Some(a) => {
            let s = types::address_words(a);
            s.take(6) + "..."@ + s.skip(38)
        },
        None => "none"@,
    }
}

/// What is shown of a wallet's address: its first six and its last four characters.
pub fn address_preview(address: Option<Address>) -> (r: String)
    ensures
        r@ == address_shown(address),
{
    match address {
        Some(a) => {
            let s = address_text(a);
            proof {
                reveal_strlit("0x");
                lemma_hex_digits_len(a.hi as int, 8);
                lemma_hex_digits_len(a.lo as int, 32);
            }
            let mut r = s.as_str().substring_char(0, 6).to_string();
            r.append("...");
            r.append(s.as_str().substring_char(38, 42));
            assert(s@.subrange(0, 6) =~= s@.take(6));
            assert(s@.subrange(38, 42) =~= s@.skip(38));
            r
        },
        None => "none".to_string(),
    }
}

/// How a wallet is offered; `None` where a character of its key would be cut.
pub fn wallet_line(number: u64, wallet: &WalletProfile) -> (r: Option<String>)
    ensures
        (match r {
            Some(line) => Some(line@),
            None => None,
        }) == match key_shown(wallet.private_key@) {
            Some(key) => Some(
                "  "@ + text::digits(number as nat) + ". "@ + wallet.name@ + " (key: "@ + key + " | proxy: "@ + (
                match wallet.proxy_address {
                    Some(a) => types::checksummed(a.hi as int, a.lo as int),
                    None => "no proxy"@,
                }) + ")"@,
            ),
            None => None,
        },
{
    let key = key_preview(wallet.private_key.as_str())?;
    let mut s = "  ".to_string();
    s.append(u64_text(number).as_str());
    s.append(". ");
    s.append(wallet.name.as_str());
    s.append(" (key: ");
    s.append(key.as_str());
    s.append(" | proxy: ");
    match wallet.proxy_address {
        Some(a) => s.append(checksum_text(a).as_str()),
        None => s.append("no proxy"),
    }
    s.append(")");
    Some(s)
}

/// The words with a comma and a space between each two.
pub open spec fn joined(words: Seq<Seq<char>>) -> Seq<char>
    decreases words.len(),
{
    if words.len() == 0 {
        seq![]
    } else if words.len() == 1 {
        words[0]
    } else {
        joined(words.drop_last()) + ", "@ + words.last()
    }
}

/// The words with a comma and a space between each two.
fn join(words: &Vec<String>) -> (r: String)
    ensures
        r@ == joined(words@.map_values(|w: String| w@)),
{
    let ghost all = words@.map_values(|w: String| w@);
    proof {
        reveal_strlit("");
    }
    if words.len() == 0 {
        let r = "".to_string();
        assert(r@ =~= joined(all));
        return r;
    }
    let mut r = words[0].clone();
    let mut i: usize = 1;
    assert(all.take(1)[0] == words@[0]@);
    while i < words.len()
        invariant
            1 <= i <= words@.len(),
            all == words@.map_values(|w: String| w@),
            r@ == joined(all.take(i as int)),
        decreases words@.len() - i,
    {
        r.append(", ");
        r.append(words[i].as_str());
        assert(all.take(i + 1).drop_last() =~= all.take(i as int));
        assert(all.take(i + 1).last() == words@[i as int]@);
        i += 1;
    }
    assert(all.take(words@.len() as int) =~= all);
    r
}

/// A text filled up with blanks on its right to at least this many characters.
pub open spec fn filled(s: Seq<char>, width: int) -> Seq<char> {
    if s.len() < width {
        s + Seq::new((width - s.len()) as nat, |i: int| ' ')
    } else {
        s
    }
}

/// A text filled up with blanks on its right to at least this many characters.
fn fill(s: &str, width: usize) -> (r: String)
    ensures
        r@ == filled(s@, width as int),
{
    proof {
        reveal_strlit(" ");
    }
    let mut n = s.unicode_len();
    let mut r = s.to_string();
    assert(r@ =~= s@ + Seq::new(0, |i: int| ' '));
    while n < width
        invariant
            s@.len() <= n,
            n <= width || n == s@.len(),
            " "@ == seq![' '],
            r@ == s@ + Seq::new((n - s@.len()) as nat, |i: int| ' '),
        decreases width - n,
    {
        r.append(" ");
        n += 1;
        assert(r@ =~= s@ + Seq::new((n - s@.len()) as nat, |i: int| ' '));
    }
    assert(r@ =~= filled(s@, width as int));
    r
}

/// Two texts, one behind the other.
fn after_label(label: &str, value: &str) -> (r: String)
    ensures
        r@ == label@ + value@,
{
    let mut s = label.to_string();
    s.append(value);
    s
}

/// What is said of the settings at the start.
pub open spec fn settings_summary(config: Config, wallets: int) -> Seq<Seq<char>> {
    seq![
        "  Mode:             "@ + (if wallets == 0 {
            "Single-wallet"@
        } else {
            "Multi-wallet"@
        }),
        "  Dry Run:          "@ + (if config.dry_run {
            "ENABLED (Simulated)"@
        } else {
            "DISABLED (Live Trading!)"@
        }),
        "  Live Confirm:     "@ + (if config.live_confirm_required {
            "REQUIRED"@
        } else {
            "BYPASSED (Automation Mode)"@
        }),
        "  MW Auto Start:    "@ + (if config.multi_wallet_non_interactive {
            "ENABLED (from env)"@
        } else {
            "DISABLED (interactive picker)"@
        }),
        "  Trading Mode(s):  "@ + (if wallets == 0 {
            config.trading_mode.short_name()
        } else {
            "Multi-strategy"@
        }),
        "  Symbols:          "@ + joined(config.crypto_symbols@.map_values(|w: String| w@)),
        "  Wallets:          "@ + (if wallets == 0 {
            "1 (detected from .env)"@
        } else {
            text::digits(wallets as nat) + " detected"@
        }),
    ]
}

/// What is said of a wallet at the start.
pub open spec fn wallet_summary(number: int, wallet: WalletProfile<Seq<char>>) -> Seq<char> {
    "  ["@ + text::digits(number as nat) + "] Wallet: "@ + filled(wallet.name, 12) + " | Proxy: "@
        + address_shown(wallet.proxy_address)
}

/// What is said at the start: of the settings, and then of each wallet.
pub fn startup_summary(config: &Config, wallets: &Vec<WalletProfile>) -> (r: Vec<String>)
    ensures
        r@.map_values(|l: String| l@) == settings_summary(*config, wallets@.len() as int) + Seq::new(
            wallets@.len(),
            |i: int| wallet_summary(i + 1, wallets@[i]@),
        ),
{
    let alone = wallets.len() == 0;
    let mut lines: Vec<String> = Vec::new();
    lines.push(after_label("  Mode:             ", if alone { "Single-wallet" } else { "Multi-wallet" }));
    lines.push(
        after_label(
            "  Dry Run:          ",
            if config.dry_run { "ENABLED (Simulated)" } else { "DISABLED (Live Trading!)" },
        ),
    );
    lines.push(
        after_label(
            "  Live Confirm:     ",
            if config.live_confirm_required { "REQUIRED" } else { "BYPASSED (Automation Mode)" },
        ),
    );
    lines.push(
        after_label(
            "  MW Auto Start:    ",
            if config.multi_wallet_non_interactive {
                "ENABLED (from env)"
            } else {
                "DISABLED (interactive picker)"
            },
        ),
    );
    lines.push(
        after_label(
            "  Trading Mode(s):  ",
            if alone { config.trading_mode.text() } else { "Multi-strategy" },
        ),
    );
    lines.push(after_label("  Symbols:          ", join(&config.crypto_symbols).as_str()));
    let mut count = u64_text(wallets.len() as u64);
    count.append(" detected");
    lines.push(
        after_label(
            "  Wallets:          ",
            if alone { "1 (detected from .env)" } else { count.as_str() },
        ),
    );
    let ghost head = settings_summary(*config, wallets@.len() as int);
    assert(lines@.map_values(|l: String| l@) =~= head);
    let mut i: usize = 0;
    assert(head + Seq::new(0, |j: int| wallet_summary(j + 1, wallets@[j]@)) =~= head);
    while i < wallets.len()
        invariant
            i <= wallets@.len(),
            lines@.map_values(|l: String| l@) == head + Seq::new(
                i as nat,
                |j: int| wallet_summary(j + 1, wallets@[j]@),
            ),
        decreases wallets@.len() - i,
    {
        let ghost before = lines@.map_values(|l: String| l@);
        let wallet = &wallets[i];
        i += 1;
        let mut s = "  [".to_string();
        s.append(u64_text(i as u64).as_str());
        s.append("] Wallet: ");
        s.append(fill(wallet.name.as_str(), 12).as_str());
        s.append(" | Proxy: ");
        s.append(address_preview(wallet.proxy_address).as_str());
        assert(s@ == wallet_summary(i as int, wallet@));
        let ghost v = s@;
        lines.push(s);
        assert(lines@.map_values(|l: String| l@) =~= before.push(v));
        assert(before.push(v) =~= head + Seq::new(
            i as nat,
            |j: int| wallet_summary(j + 1, wallets@[j]@),
        ));
    }
    lines
}

} // verus!
