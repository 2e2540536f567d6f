//! What holds of the start: which wallets there are, what each answer does, and what is shown of a key.
use vstd::prelude::*;

use crate::config::{Config, EnvVar};
use crate::config_laws;
use crate::launcher;
use crate::launcher::{PickerView, Question, WalletProfile};
use crate::strategy::TradingMode;
use crate::text;
use crate::text_laws;
use crate::types;

verus! {

/// A wallet is there where its key is set and not blank; it has its number and its key, without the white space
/// around that.
pub proof fn wallet_has_its_key(vars: Seq<EnvVar>, n: u64, i: int)
    ensures
        ({
            let name = "WALLET_"@ + text::digits(n as nat) + "_KEY"@;
            let found = launcher::numbered_wallet(vars, n as int);
            &&& config_laws::counts(vars, i) && vars[i].name@ == name ==> {
                let key = text::trimmed(vars[i].value@);
                &&& found is Some <==> key.len() > 0
                &&& found matches Some(w) ==> w.private_key == key && w.number == n
            }
            &&& config_laws::not_made(vars, name) ==> found is None
        }),
{
    let name = "WALLET_"@ + text::digits(n as nat) + "_KEY"@;
    if config_laws::counts(vars, i) && vars[i].name@ == name {
        config_laws::first_setting_counts(vars, i);
    }
    if config_laws::not_made(vars, name) {
        config_laws::setting_that_is_not_made(vars, name);
    }
}

/// A wallet has the name that is set for it, or else `Wallet-` and its number.
pub proof fn wallet_has_its_name(vars: Seq<EnvVar>, n: u64, i: int, w: WalletProfile<Seq<char>>)
    requires
        launcher::numbered_wallet(vars, n as int) == Some(w),
    ensures
        ({
            let name = "WALLET_"@ + text::digits(n as nat) + "_NAME"@;
            &&& config_laws::counts(vars, i) && vars[i].name@ == name ==> w.name == vars[i].value@
            &&& config_laws::not_made(vars, name) ==> w.name == "Wallet-"@ + text::digits(n as nat)
        }),
{
    let name = "WALLET_"@ + text::digits(n as nat) + "_NAME"@;
    if config_laws::counts(vars, i) && vars[i].name@ == name {
        config_laws::first_setting_counts(vars, i);
    }
    if config_laws::not_made(vars, name) {
        config_laws::setting_that_is_not_made(vars, name);
    }
}

/// A wallet has the proxy that is set for it, where that is an address.
pub proof fn wallet_has_its_proxy(vars: Seq<EnvVar>, n: u64, i: int, w: WalletProfile<Seq<char>>)
    requires
        launcher::numbered_wallet(vars, n as int) == Some(w),
    ensures
        ({
            let name = "WALLET_"@ + text::digits(n as nat) + "_PROXY"@;
            &&& config_laws::counts(vars, i) && vars[i].name@ == name ==> {
                let address = text::trimmed(vars[i].value@);
                &&& address.len() > 0 ==> w.proxy_address == types::address_of(address)
                &&& address.len() == 0 ==> w.proxy_address is None
            }
            &&& config_laws::not_made(vars, name) ==> w.proxy_address is None
        }),
{
    let name = "WALLET_"@ + text::digits(n as nat) + "_PROXY"@;
    if config_laws::counts(vars, i) && vars[i].name@ == name {
        config_laws::first_setting_counts(vars, i);
    }
    if config_laws::not_made(vars, name) {
        config_laws::setting_that_is_not_made(vars, name);
    }
}

/// Of the three numbers each wallet that is there is loaded.
pub proof fn each_wallet_is_loaded(vars: Seq<EnvVar>, n: int, last: int)
    requires
        1 <= n <= last,
        launcher::numbered_wallet(vars, n) is Some,
    ensures
        launcher::numbered_wallets(vars, last).contains(launcher::numbered_wallet(vars, n)->0),
    decreases last,
{
    let all = launcher::numbered_wallets(vars, last);
    let before = launcher::numbered_wallets(vars, last - 1);
    if n == last {
        assert(all[all.len() - 1] == launcher::numbered_wallet(vars, n)->0);
    } else {
        each_wallet_is_loaded(vars, n, last - 1);
        let w = launcher::numbered_wallet(vars, n)->0;
        let at = before.index_of(w);
        assert(before[at] == w);
        assert(all[at] == w);
    }
}

/// The words that name a mode for a slot.
pub proof fn words_for_a_slot(word: Seq<char>)
    ensures
        ({
            let mode = launcher::slot_mode_of_word(word);
            &&& mode == Some(TradingMode::Arb) <==> word == "arb"@
            &&& mode == Some(TradingMode::MarketMaker) <==> word == "mm"@ || word == "market_maker"@ || word
                == "marketmaker"@
            &&& mode == Some(TradingMode::Hybrid) <==> word == "hybrid"@
        }),
{
    reveal_strlit("arb");
    reveal_strlit("mm");
    reveal_strlit("market_maker");
    reveal_strlit("marketmaker");
    reveal_strlit("hybrid");
    assert("arb"@.len() == 3 && "mm"@.len() == 2 && "hybrid"@.len() == 6);
    assert("market_maker"@.len() == 12 && "marketmaker"@.len() == 11);
}

/// The answers that name a mode.
pub proof fn answers_for_a_mode(word: Seq<char>)
    ensures
        ({
            let mode = launcher::asked_mode_of_word(word);
            &&& mode == Some(TradingMode::Arb) <==> word == "arb"@ || word == "1"@
            &&& mode == Some(TradingMode::MarketMaker) <==> word == "mm"@ || word == "2"@
            &&& mode is Some ==> mode == Some(TradingMode::Arb) || mode == Some(TradingMode::MarketMaker)
        }),
{
    reveal_strlit("arb");
    reveal_strlit("1");
    reveal_strlit("mm");
    reveal_strlit("2");
    assert("arb"@.len() == 3 && "mm"@.len() == 2 && "1"@.len() == 1 && "2"@.len() == 1);
    assert("1"@[0] == '1' && "2"@[0] == '2');
}

/// A slot has the mode that is set for its wallet, and the usual one where none is set or the setting is blank.
pub proof fn slot_has_its_mode(vars: Seq<EnvVar>, n: u64, usual: TradingMode, i: int)
    ensures
        ({
            let name = "WALLET_"@ + text::digits(n as nat) + "_STRATEGY"@;
            let mode = launcher::slot_mode(vars, n as int, usual);
            &&& config_laws::counts(vars, i) && vars[i].name@ == name ==> {
                let word = text::trimmed(vars[i].value@);
                &&& word.len() == 0 ==> mode == Some(usual)
                &&& word.len() > 0 ==> mode == launcher::slot_mode_of_word(text::lowercase(word))
            }
            &&& config_laws::not_made(vars, name) ==> mode == Some(usual)
        }),
{
    let name = "WALLET_"@ + text::digits(n as nat) + "_STRATEGY"@;
    if config_laws::counts(vars, i) && vars[i].name@ == name {
        config_laws::first_setting_counts(vars, i);
    }
    if config_laws::not_made(vars, name) {
        config_laws::setting_that_is_not_made(vars, name);
    }
}

/// The digits of a number need no trimming.
proof fn lemma_digits_trimmed(n: nat)
    ensures
        text::trimmed(text::digits(n)) == text::digits(n),
{
    text_laws::lemma_digits(n);
    let d = text::digits(n);
    assert('0' <= d[0] && d[0] <= '9');
    assert('0' <= d[d.len() - 1] && d[d.len() - 1] <= '9');
}

/// A number that is answered is taken within its bounds, and refused outside them.
pub proof fn number_within_bounds_is_taken(n: u64, min: int, max: int)
    ensures
        launcher::number_answer(text::digits(n as nat), min, max) == if min <= n && n <= max {
            Some(n as int)
        } else {
            None
        },
{
    lemma_digits_trimmed(n as nat);
    text_laws::whole_number_reads_back(n as nat, u64::MAX as int);
}

/// An answer for a wallet counts from one, and is taken where there is that wallet and it is free; zero means
/// the first as well.
pub proof fn free_wallet_is_taken(n: u64, count: usize, used: Seq<usize>)
    ensures
        n > 0 ==> launcher::wallet_answer(text::digits(n as nat), count as int, used) == if n <= count
            && !used.contains((n - 1) as usize) {
            Some(n - 1)
        } else {
            None
        },
        count > 0 && !used.contains(0) ==> launcher::wallet_answer(text::digits(0), count as int, used) == Some(0int),
{
    lemma_digits_trimmed(n as nat);
    text_laws::whole_number_reads_back(n as nat, u64::MAX as int);
    lemma_digits_trimmed(0);
    text_laws::whole_number_reads_back(0, u64::MAX as int);
}

/// The free wallets are those there are that are not taken.
pub proof fn free_wallets_are_those_not_taken(count: int, used: Seq<usize>, at: usize)
    requires
        0 <= count <= usize::MAX,
    ensures
        launcher::free_wallets(count, used).contains(at) <==> at < count && !used.contains(at),
    decreases count,
{
    let all = launcher::free_wallets(count, used);
    if count > 0 {
        free_wallets_are_those_not_taken(count - 1, used, at);
        let before = launcher::free_wallets(count - 1, used);
        if before.contains(at) {
            let k = before.index_of(at);
            assert(before[k] == at);
            assert(all[k] == at);
        }
        if at == count - 1 && !used.contains(at) {
            assert(all[all.len() - 1] == at);
        }
        if all.contains(at) {
            let k = all.index_of(at);
            assert(all[k] == at);
            if k < before.len() {
                assert(before[k] == at);
            }
        }
    }
}

/// The first answer says how many slots there are: up to three, and not more than there are wallets. Then the
/// first strategy is asked for.
pub proof fn answer_on_how_many(picker: PickerView, n: u64)
    requires
        picker.question is HowMany,
    ensures
        ({
            let after = picker.answered(text::digits(n as nat));
            &&& 1 <= n <= 3 && n <= picker.wallets.len() ==> {
                &&& after.wanted == n
                &&& after.question is Strategy
                &&& after.slots == picker.slots
                &&& after.wallets == picker.wallets
                &&& after.used == picker.used
            }
            &&& n == 0 || n > 3 || n > picker.wallets.len() ==> after == picker
        }),
{
    number_within_bounds_is_taken(n, 1, picker.most());
}

/// With more than one wallet free, the answer on the strategy leads to the question for the wallet; with one
/// left, that one is taken without asking.
pub proof fn answer_on_the_strategy(picker: PickerView, line: Seq<char>, mode: TradingMode)
    requires
        picker.question is Strategy,
        launcher::mode_answer(line) == Some(mode),
    ensures
        ({
            let free = launcher::free_wallets(picker.wallets.len() as int, picker.used);
            let after = picker.answered(line);
            &&& free.len() != 1 ==> after.question == (Question::Wallet { mode }) && after.slots == picker.slots
                && after.used == picker.used && after.wanted == picker.wanted
            &&& free.len() == 1 ==> {
                &&& after.slots.len() == picker.slots.len() + 1
                &&& after.slots.drop_last() == picker.slots
                &&& after.slots.last().strategy == mode
                &&& after.slots.last().wallet == picker.wallets[free[0] as int]
                &&& after.used == picker.used.push(free[0])
                &&& after.question is Strategy || after.question is Start
            }
            &&& after.wallets == picker.wallets
        }),
{
    let free = launcher::free_wallets(picker.wallets.len() as int, picker.used);
    if free.len() == 1 {
        assert(picker.answered(line).slots.drop_last() =~= picker.slots);
    }
}

/// The wallet that is answered gets the strategy that was: they make the next slot. Then the next strategy is
/// asked for, or, with as many slots as are wanted, whether to start.
pub proof fn answer_on_the_wallet(picker: PickerView, mode: TradingMode, n: u64)
    requires
        picker.question == (Question::Wallet { mode }),
        1 <= n <= picker.wallets.len() <= usize::MAX,
        picker.slots.len() < usize::MAX,
        !picker.used.contains((n - 1) as usize),
    ensures
        ({
            let after = picker.answered(text::digits(n as nat));
            &&& after.slots.len() == picker.slots.len() + 1
            &&& after.slots.drop_last() == picker.slots
            &&& after.slots.last().index == after.slots.len()
            &&& after.slots.last().strategy == mode
            &&& after.slots.last().wallet == picker.wallets[n - 1]
            &&& after.used == picker.used.push((n - 1) as usize)
            &&& after.slots.len() < picker.wanted ==> after.question is Strategy
            &&& after.slots.len() >= picker.wanted ==> after.question is Start
            &&& after.wanted == picker.wanted
        }),
{
    free_wallet_is_taken(n, picker.wallets.len() as usize, picker.used);
    assert(picker.answered(text::digits(n as nat)).slots.drop_last() =~= picker.slots);
}

/// Only `y`, in either case, starts; any other answer does not. After that, answers change nothing.
pub proof fn answer_on_the_start(picker: PickerView, line: Seq<char>)
    ensures
        ({
            let after = picker.answered(line);
            let yes = text::trimmed(line) == seq!['y'] || text::trimmed(line) == seq!['Y'];
            &&& picker.question is Start && yes ==> after.question is Started
            &&& picker.question is Start && !yes ==> after.question is Aborted
            &&& picker.question is Start ==> after.slots == picker.slots && after.used == picker.used
            &&& picker.question is Started || picker.question is Aborted ==> after == picker
        }),
{
    reveal_strlit("y");
    reveal_strlit("Y");
    assert("y"@ =~= seq!['y']);
    assert("Y"@ =~= seq!['Y']);
}

/// Of a key of more than ten ASCII characters the first six and the last four are shown, and of a shorter one
/// nothing.
pub proof fn ends_of_a_key_are_shown(key: Seq<char>)
    requires
        forall|i: int| 0 <= i < key.len() ==> (#[trigger] key[i] as int) < 128,
    ensures
        key.len() <= 10 ==> launcher::key_shown(key) == Some(seq!['*', '*', '*']),
        key.len() > 10 ==> {
            let shown = launcher::key_shown(key);
            &&& shown is Some
            &&& (shown->0).len() == 13
            &&& (shown->0).take(6) == key.take(6)
            &&& (shown->0).skip(9) == key.skip(key.len() - 4)
            &&& (shown->0).subrange(6, 9) == seq!['.', '.', '.']
        },
{
    reveal_strlit("***");
    reveal_strlit("...");
    assert("***"@ =~= seq!['*', '*', '*']);
    text_laws::ascii_takes_a_byte_each(key, 6);
    if key.len() > 10 {
        lemma_ascii_end(key, 4);
        let shown = launcher::key_shown(key)->0;
        assert(shown.take(6) =~= key.take(6));
        assert(shown.skip(9) =~= key.skip(key.len() - 4));
        assert(shown.subrange(6, 9) =~= seq!['.', '.', '.']);
    }
}

/// Any number of ASCII characters can be taken from the end of a text.
proof fn lemma_ascii_end(s: Seq<char>, n: int)
    requires
        forall|i: int| 0 <= i < s.len() ==> (#[trigger] s[i] as int) < 128,
        0 <= n <= s.len(),
    ensures
        launcher::chars_at_end(s, n) == Some(n),
    decreases s.len(),
{
    if n > 0 {
        assert((s[s.len() - 1] as int) < 128);
        let rest = s.drop_last();
        assert forall|i: int| 0 <= i < rest.len() implies (#[trigger] rest[i] as int) < 128 by {
            assert(rest[i] == s[i]);
        }
        lemma_ascii_end(rest, n - 1);
    }
}

/// A text that is filled up is at least as long as asked for, and has blanks behind it only.
pub proof fn filled_text_keeps_its_front(s: Seq<char>, width: int)
    ensures
        ({
            let r = launcher::filled(s, width);
            &&& r.len() == if s.len() < width {
                width
            } else {
                s.len() as int
            }
            &&& r.take(s.len() as int) == s
            &&& forall|i: int| s.len() <= i < r.len() ==> #[trigger] r[i] == ' '
        }),
{
    assert(launcher::filled(s, width).take(s.len() as int) =~= s);
}

/// Words are joined with a comma and a blank.
pub proof fn words_are_joined_by_commas(words: Seq<Seq<char>>, word: Seq<char>)
    ensures
        words.len() > 0 ==> launcher::joined(words.push(word)) == launcher::joined(words) + seq![',', ' '] + word,
        launcher::joined(seq![word]) == word,
        launcher::joined(seq![]) == Seq::<char>::empty(),
{
    reveal_strlit(", ");
    assert(", "@ =~= seq![',', ' ']);
    assert(words.push(word).drop_last() =~= words);
}

/// The start says whether trading is simulated, whether it must be confirmed, and how wallets are picked.
pub proof fn start_says_how_it_trades(c: Config, wallets: int)
    ensures
        ({
            let lines = launcher::settings_summary(c, wallets);
            &&& lines.len() == 7
            &&& c.dry_run ==> lines[1] == "  Dry Run:          "@ + "ENABLED (Simulated)"@
            &&& !c.dry_run ==> lines[1] == "  Dry Run:          "@ + "DISABLED (Live Trading!)"@
            &&& c.live_confirm_required ==> lines[2] == "  Live Confirm:     "@ + "REQUIRED"@
            &&& !c.live_confirm_required ==> lines[2] == "  Live Confirm:     "@ + "BYPASSED (Automation Mode)"@
            &&& c.multi_wallet_non_interactive ==> lines[3] == "  MW Auto Start:    "@ + "ENABLED (from env)"@
            &&& !c.multi_wallet_non_interactive ==> lines[3] == "  MW Auto Start:    "@
                + "DISABLED (interactive picker)"@
            &&& wallets == 0 ==> lines[0] == "  Mode:             "@ + "Single-wallet"@
            &&& wallets > 0 ==> lines[0] == "  Mode:             "@ + "Multi-wallet"@
        }),
{
}

/// One more character adds its bytes.
proof fn lemma_size_of_one_more(s: Seq<char>, c: char)
    ensures
        text::utf8_size(s.push(c)) == text::utf8_size(s) + text::utf8_len(c),
    decreases s.len(),
{
    let t = s.push(c);
    if s.len() == 0 {
        assert(t.drop_first() =~= Seq::<char>::empty());
        assert(text::utf8_size(t.drop_first()) == 0);
    } else {
        lemma_size_of_one_more(s.drop_first(), c);
        assert(t.drop_first() =~= s.drop_first().push(c));
    }
}

/// The characters at the end make up the bytes asked for.
pub proof fn end_has_the_bytes_asked_for(s: Seq<char>, n: int)
    requires
        n >= 0,
        launcher::chars_at_end(s, n) is Some,
    ensures
        ({
            let k = launcher::chars_at_end(s, n)->0;
            &&& 0 <= k <= s.len()
            &&& text::utf8_size(s.skip(s.len() - k)) == n
        }),
    decreases s.len(),
{
    let k = launcher::chars_at_end(s, n)->0;
    if n == 0 {
        assert(s.skip(s.len() as int) =~= Seq::<char>::empty());
    } else {
        let rest = s.drop_last();
        end_has_the_bytes_asked_for(rest, n - text::utf8_len(s.last()));
        lemma_size_of_one_more(rest.skip(rest.len() - (k - 1)), s.last());
        assert(s.skip(s.len() - k) =~= rest.skip(rest.len() - (k - 1)).push(s.last()));
    }
}

/// Of an address its first six and its last four characters are shown.
pub proof fn ends_of_an_address_are_shown(a: types::Address)
    ensures
        ({
            let (all, shown) = (types::address_words(a), launcher::address_shown(Some(a)));
            &&& all.len() == 42
            &&& shown.len() == 13
            &&& shown.take(6) == all.take(6)
            &&& shown.subrange(6, 9) == seq!['.', '.', '.']
            &&& shown.skip(9) == all.skip(all.len() - 4)
        }),
        launcher::address_shown(None) == "none"@,
{
    reveal_strlit("0x");
    reveal_strlit("...");
    types::lemma_hex_digits_len(a.hi as int, 8);
    types::lemma_hex_digits_len(a.lo as int, 32);
    let (all, shown) = (types::address_words(a), launcher::address_shown(Some(a)));
    assert(shown.take(6) =~= all.take(6));
    assert(shown.subrange(6, 9) =~= seq!['.', '.', '.']);
    assert(shown.skip(9) =~= all.skip(all.len() - 4));
}

/// The start says which mode and which symbols are traded, and how many wallets there are.
pub proof fn start_says_what_it_trades(c: Config, wallets: int)
    requires
        wallets >= 0,
    ensures
        ({
            let lines = launcher::settings_summary(c, wallets);
            &&& wallets == 0 ==> lines[4] == "  Trading Mode(s):  "@ + c.trading_mode.short_name()
            &&& wallets > 0 ==> lines[4] == "  Trading Mode(s):  "@ + "Multi-strategy"@
            &&& lines[5] == "  Symbols:          "@ + launcher::joined(c.crypto_symbols@.map_values(|w: String| w@))
            &&& wallets == 0 ==> lines[6] == "  Wallets:          "@ + "1 (detected from .env)"@
            &&& wallets > 0 ==> lines[6] == "  Wallets:          "@ + (text::digits(wallets as nat) + " detected"@)
        }),
{
}

} // verus!
