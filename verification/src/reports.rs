//! What is reported of books, positions and orders, in words.
use vstd::prelude::*;

use crate::config::OrderType;
use crate::decimal;
use crate::decimal::{checked_add, checked_mul, checked_sub, Decimal};
use crate::monitor::{ArbitrageOpportunity, BookUpdate, Level, OrderBookPair};
use crate::positions::Position;
use crate::strategy::action_executor;
use crate::strategy::action_executor::{LimitOrder, Step};
use crate::text;
use crate::text::{contains, count_in_front, cut_text, full_text, is_longer, u64_text};
use crate::trading::executor;
use crate::trading::executor::{simplify_error, PairPlan, PairQuote, PostResult};
use crate::types::{token_text, B256};

verus! {

/// How grave a report is.
#[derive(Clone, Copy, Debug, PartialEq, Eq, Structural)]
pub enum Severity {
    Detail,
    Info,
    Warning,
    Error,
}

/// A line for whoever watches the bot.
#[derive(Debug)]
pub struct Report<S = String> {
    pub severity: Severity,
    pub text: S,
}

impl View for Report<String> {
    type V = Report<Seq<char>>;

    open spec fn view(&self) -> Report<Seq<char>> {
        Report { severity: self.severity, text: self.text@ }
    }
}

/// The reports, as texts.
pub open spec fn report_views(reports: Seq<Report>) -> Seq<Report<Seq<char>>> {
    reports.map_values(|r: Report| r@)
}

/// The best ask of a book.
pub open spec fn top_ask(book: BookUpdate) -> Option<Level> {
    if book.asks@.len() > 0 {
        Some(book.asks@.last())
    } else {
        None
    }
}

/// The best ask of a book.
fn find_top_ask(book: &BookUpdate) -> (r: Option<Level>)
    ensures
        r == top_ask(*book),
{
    if book.asks.len() > 0 {
        Some(book.asks[book.asks.len() - 1])
    } else {
        None
    }
}

/// What both best asks add up to: `Some(None)` where one is missing, `None` where the sum is out of range.
pub open spec fn asks_total(yes: Option<Level>, no: Option<Level>) -> Option<Option<int>> {
    match (yes, no) {
        (Some(y), Some(n)) => match decimal::sum(y.price@, n.price@) {
            Some(t) => Some(Some(t)),
            None => None,
        },
        _ => Some(None),
    }
}

/// One side of a pair of books, in words.
pub open spec fn ask_words(side: Seq<char>, ask: Option<Level>, dir: Seq<char>, arrows: bool) -> Seq<char> {
    match ask {
        Some(l) => {
            let words = side + ":"@ + text::decimal_text(l.price@, 4) + " size:"@ + text::text_of(l.size);
            if arrows && dir.len() > 0 {
                words + " "@ + dir
            } else {
                words
            }
        },
        None => side + ":none"@,
    }
}

/// What both asks leave, in words; `None` where the profit is out of range.
pub open spec fn spread_words(total: Option<int>) -> Option<Seq<char>> {
    match total {
        None => Some("no data"@),
        Some(t) => if t < decimal::one() {
            match decimal::opt_product(
                decimal::difference(decimal::one(), t),
                Some(decimal::atoms(1000, 1)),
            ) {
                Some(profit) => Some(
                    "total:"@ + text::decimal_text(t, 4) + " profit:"@ + text::decimal_text(profit, 2) + "%"@,
                ),
                None => None,
            }
        } else {
            Some("total:"@ + text::decimal_text(t, 4) + " (no arbitrage)"@)
        },
    }
}

/// A pair of books, in words: both asks, with arrows only where they leave a profit, and what they leave.
/// `None` where a step of the computation is out of range.
pub open spec fn book_words(
    pair: OrderBookPair,
    market_display: Seq<char>,
    yes_dir: Seq<char>,
    no_dir: Seq<char>,
) -> Option<Seq<char>> {
    let (yes, no) = (top_ask(pair.yes_book), top_ask(pair.no_book));
    match asks_total(yes, no) {
        None => None,
        Some(total) => {
            let profit = total matches Some(t) && t < decimal::one();
            let prefix = if profit {
                "🚨Arbitrage opportunity"@
            } else {
                "📊"@
            };
            match spread_words(total) {
                Some(spread) => Some(
                    prefix + " "@ + market_display + " | "@ + ask_words("Yes"@, yes, yes_dir, profit) + " | "@
                        + ask_words("No"@, no, no_dir, profit) + " | "@ + spread,
                ),
                None => None,
            }
        },
    }
}

/// One side of a pair of books, in words.
fn ask_text(side: &str, ask: &Option<Level>, dir: &str, arrows: bool) -> (r: String)
    ensures
        r@ == ask_words(side@, *ask, dir@, arrows),
{
    let mut s = side.to_string();
    match ask {
        Some(l) => {
            s.append(":");
            s.append(cut_text(l.price, 4).as_str());
            s.append(" size:");
            s.append(full_text(l.size).as_str());
            if arrows && dir.unicode_len() > 0 {
                s.append(" ");
                s.append(dir);
            }
        },
        None => {
            s.append(":none");
        },
    }
    s
}

/// What both asks leave, in words; `None` where the profit is out of range.
fn spread_text(total: &Option<Decimal>) -> (r: Option<String>)
    ensures
        (match r {
            Some(s) => Some(s@),
            None => None,
        }) == spread_words(decimal::opt_atoms(*total)),
{
    match total {
        None => Some("no data".to_string()),
        Some(t) => {
            let one = Decimal::new(10, 1);
            let mut s = "total:".to_string();
            s.append(cut_text(*t, 4).as_str());
            if *t < one {
                let profit = checked_mul(checked_sub(one, *t)?, Decimal::new(1000, 1))?;
                s.append(" profit:");
                s.append(cut_text(profit, 2).as_str());
                s.append("%");
            } else {
                s.append(" (no arbitrage)");
            }
            Some(s)
        },
    }
}

/// A pair of books, in words: both asks, with arrows only where they leave a profit, and what they leave.
/// `None` where a step of the computation is out of range.
pub fn book_line(pair: &OrderBookPair, market_display: &str, yes_dir: &str, no_dir: &str) -> (r: Option<String>)
    ensures
        (match r {
            Some(s) => Some(s@),
            None => None,
        }) == book_words(*pair, market_display@, yes_dir@, no_dir@),
{
    let yes = find_top_ask(&pair.yes_book);
    let no = find_top_ask(&pair.no_book);
    let total = match (&yes, &no) {
        (Some(y), Some(n)) => Some(checked_add(y.price, n.price)?),
        _ => None,
    };
    let profit = match &total {
        Some(t) => *t < Decimal::new(10, 1),
        None => false,
    };
    let spread = spread_text(&total)?;
    let mut s = if profit {
        "🚨Arbitrage opportunity".to_string()
    } else {
        "📊".to_string()
    };
    s.append(" ");
    s.append(market_display);
    s.append(" | ");
    s.append(ask_text("Yes", &yes, yes_dir, profit).as_str());
    s.append(" | ");
    s.append(ask_text("No", &no, no_dir, profit).as_str());
    s.append(" | ");
    s.append(spread.as_str());
    Some(s)
}

/// The markets of the positions, each once, in the order in which they first appear.
pub open spec fn market_ids(positions: Seq<Position>) -> Seq<B256>
    decreases positions.len(),
{
    if positions.len() == 0 {
        seq![]
    } else {
        let before = market_ids(positions.drop_last());
        if before.contains(positions.last().condition_id) {
            before
        } else {
            before.push(positions.last().condition_id)
        }
    }
}

/// The shares of one side of a market, in words: those of its last position, or none.
pub open spec fn side_words(positions: Seq<Position>, id: B256, outcome: i32) -> Seq<char>
    decreases positions.len(),
{
    if positions.len() == 0 {
        "0"@
    } else if positions.last().condition_id == id && positions.last().outcome_index == outcome {
        text::text_of(positions.last().size)
    } else {
        side_words(positions.drop_last(), id, outcome)
    }
}

/// The title of a market: the first that is not empty.
pub open spec fn title_of(positions: Seq<Position>, id: B256) -> Seq<char>
    decreases positions.len(),
{
    if positions.len() == 0 {
        seq![]
    } else {
        let before = title_of(positions.drop_last(), id);
        if before.len() == 0 && positions.last().condition_id == id {
            positions.last().title@
        } else {
            before
        }
    }
}

/// What is shown of a title: all of it, or the first 37 bytes and dots where it takes more than 40. `None`
/// where a character would be cut.
pub open spec fn title_shown(title: Seq<char>) -> Option<Seq<char>> {
    if text::utf8_size(title) > 40 {
        match text::chars_in_front(title, 37) {
            Some(k) => Some(title.take(k) + "..."@),
            None => None,
        }
    } else {
        Some(title)
    }
}

/// The positions in a market, in words; `None` where a character of the title would be cut.
pub open spec fn market_words(positions: Seq<Position>, id: B256) -> Option<Seq<char>> {
    match title_shown(title_of(positions, id)) {
        Some(title) => Some(
            "  📈 "@ + title + " | YES:"@ + side_words(positions, id, 0) + " NO:"@ + side_words(
                positions,
                id,
                1,
            ),
        ),
        None => None,
    }
}

/// The positions in these markets, in words; `None` where a character of a title would be cut.
pub open spec fn markets_words(positions: Seq<Position>, ids: Seq<B256>) -> Option<Seq<Seq<char>>>
    decreases ids.len(),
{
    if ids.len() == 0 {
        Some(seq![])
    } else {
        match (markets_words(positions, ids.drop_last()), market_words(positions, ids.last())) {
            (Some(before), Some(last)) => Some(before.push(last)),
            _ => None,
        }
    }
}

/// Positions that were just taken over, in words: how many there are, and a line for each market. `None`
/// where a character of a title would be cut.
pub open spec fn positions_words(positions: Seq<Position>) -> Option<Seq<Seq<char>>> {
    if positions.len() == 0 {
        Some(seq!["📊 Position sync completed | No current positions"@])
    } else {
        let ids = market_ids(positions);
        match markets_words(positions, ids) {
            Some(lines) => Some(
                seq![
                    "📊 Position sync completed | Total "@ + text::digits(positions.len() as nat) + " positions, "@
                        + text::digits(ids.len() as nat) + " markets"@,
                ] + lines,
            ),
            None => None,
        }
    }
}

/// The lines, as texts.
pub open spec fn line_views(lines: Seq<String>) -> Seq<Seq<char>> {
    lines.map_values(|l: String| l@)
}

/// Whether the list holds the market.
fn has_id(ids: &Vec<B256>, id: B256) -> (r: bool)
    ensures
        r == ids@.contains(id),
{
    let mut i: usize = 0;
    while i < ids.len()
        invariant
            i <= ids@.len(),
            forall|j: int| 0 <= j < i ==> ids@[j] != id,
        decreases ids@.len() - i,
    {
        if ids[i] == id {
            return true;
        }
        i += 1;
    }
    false
}

/// The markets of the positions, each once, in the order in which they first appear.
fn list_markets(positions: &Vec<Position>) -> (r: Vec<B256>)
    ensures
        r@ == market_ids(positions@),
{
    let mut ids: Vec<B256> = Vec::new();
    let mut i: usize = 0;
    assert(positions@.take(0) =~= Seq::<Position>::empty());
    while i < positions.len()
        invariant
            i <= positions@.len(),
            ids@ == market_ids(positions@.take(i as int)),
        decreases positions@.len() - i,
    {
        assert(positions@.take(i + 1).drop_last() =~= positions@.take(i as int));
        let id = positions[i].condition_id;
        if !has_id(&ids, id) {
            ids.push(id);
        }
        i += 1;
    }
    assert(positions@.take(positions@.len() as int) =~= positions@);
    ids
}

/// The shares of one side of a market, in words.
fn side_text(positions: &Vec<Position>, id: B256, outcome: i32) -> (r: String)
    ensures
        r@ == side_words(positions@, id, outcome),
{
    let mut i: usize = positions.len();
    assert(positions@.take(i as int) =~= positions@);
    while i > 0
        invariant
            i <= positions@.len(),
            side_words(positions@, id, outcome) == side_words(positions@.take(i as int), id, outcome),
        decreases i,
    {
        let p = &positions[i - 1];
        assert(positions@.take(i as int).drop_last() =~= positions@.take(i - 1));
        if p.condition_id == id && p.outcome_index == outcome {
            return full_text(p.size);
        }
        i -= 1;
    }
    "0".to_string()
}

/// The title of a market.
fn title_text(positions: &Vec<Position>, id: B256) -> (r: String)
    ensures
        r@ == title_of(positions@, id),
{
    let mut title = "".to_string();
    let mut i: usize = 0;
    proof {
        reveal_strlit("");
        assert(title@ =~= title_of(positions@.take(0), id));
    }
    while i < positions.len()
        invariant
            i <= positions@.len(),
            title@ == title_of(positions@.take(i as int), id),
        decreases positions@.len() - i,
    {
        assert(positions@.take(i + 1).drop_last() =~= positions@.take(i as int));
        if title.as_str().unicode_len() == 0 && positions[i].condition_id == id {
            title = positions[i].title.clone();
        }
        i += 1;
    }
    assert(positions@.take(positions@.len() as int) =~= positions@);
    title
}

/// What is shown of a title; `None` where a character would be cut.
fn show_title(title: String) -> (r: Option<String>)
    ensures
        (match r {
            Some(s) => Some(s@),
            None => None,
        }) == title_shown(title@),
{
    if is_longer(title.as_str(), 40) {
        let k = count_in_front(title.as_str(), 37)?;
        let mut s = title.as_str().substring_char(0, k).to_string();
        assert(title@.subrange(0, k as int) =~= title@.take(k as int));
        s.append("...");
        Some(s)
    } else {
        Some(title)
    }
}

/// The positions in a market, in words; `None` where a character of the title would be cut.
fn market_text(positions: &Vec<Position>, id: B256) -> (r: Option<String>)
    ensures
        (match r {
            Some(s) => Some(s@),
            None => None,
        }) == market_words(positions@, id),
{
    let title = show_title(title_text(positions, id))?;
    let mut s = "  📈 ".to_string();
    s.append(title.as_str());
    s.append(" | YES:");
    s.append(side_text(positions, id, 0).as_str());
    s.append(" NO:");
    s.append(side_text(positions, id, 1).as_str());
    Some(s)
}

/// Where no words can be found for some of the markets, none can be for all of them.
proof fn lemma_markets_words_prefix(positions: Seq<Position>, ids: Seq<B256>, k: int)
    requires
        0 <= k <= ids.len(),
        markets_words(positions, ids.take(k)) is None,
    ensures
        markets_words(positions, ids) is None,
    decreases ids.len() - k,
{
    if k < ids.len() {
        assert(ids.take(k + 1).drop_last() =~= ids.take(k));
        lemma_markets_words_prefix(positions, ids, k + 1);
    } else {
        assert(ids.take(k) =~= ids);
    }
}

/// Positions that were just taken over, in words: how many there are, and a line for each market, in the
/// order in which the markets first appear. `None` where a character of a title would be cut.
pub fn position_lines(positions: &Vec<Position>) -> (r: Option<Vec<String>>)
    ensures
        (match r {
            Some(lines) => Some(line_views(lines@)),
            None => None,
        }) == positions_words(positions@),
{
    let mut lines: Vec<String> = Vec::new();
    if positions.len() == 0 {
        lines.push("📊 Position sync completed | No current positions".to_string());
        assert(line_views(lines@) =~= seq!["📊 Position sync completed | No current positions"@]);
        return Some(lines);
    }
    let ids = list_markets(positions);
    let mut head = "📊 Position sync completed | Total ".to_string();
    head.append(u64_text(positions.len() as u64).as_str());
    head.append(" positions, ");
    head.append(u64_text(ids.len() as u64).as_str());
    head.append(" markets");
    let ghost first = seq![head@];
    lines.push(head);
    let mut i: usize = 0;
    proof {
        assert(ids@.take(0) =~= Seq::<B256>::empty());
        assert(line_views(lines@) =~= first + Seq::<Seq<char>>::empty());
    }
    while i < ids.len()
        invariant
            i <= ids@.len(),
            ids@ == market_ids(positions@),
            markets_words(positions@, ids@.take(i as int)) is Some,
            line_views(lines@) == first + markets_words(positions@, ids@.take(i as int))->0,
        decreases ids@.len() - i,
    {
        let ghost before = line_views(lines@);
        let ghost done = markets_words(positions@, ids@.take(i as int))->0;
        assert(ids@.take(i + 1).drop_last() =~= ids@.take(i as int));
        match market_text(positions, ids[i]) {
            Some(line) => {
                let ghost l = line@;
                lines.push(line);
                assert(line_views(lines@) =~= before.push(l));
                assert((first + done).push(l) =~= first + done.push(l));
            },
            None => {
                proof {
                    lemma_markets_words_prefix(positions@, ids@, i + 1);
                }
                return None;
            },
        }
        i += 1;
    }
    assert(ids@.take(ids@.len() as int) =~= ids@);
    Some(lines)
}

/// What is shown of a pair's id: its first eight characters.
pub open spec fn short_id(id: Seq<char>) -> Seq<char> {
    if id.len() > 8 {
        id.take(8)
    } else {
        id
    }
}

/// What is shown of a pair's id: its first eight characters.
fn shorten_id(id: &str) -> (r: String)
    ensures
        r@ == short_id(id@),
{
    if id.unicode_len() > 8 {
        assert(id@.subrange(0, 8) =~= id@.take(8));
        id.substring_char(0, 8).to_string()
    } else {
        id.to_string()
    }
}

/// The levels at which a pair is bought, in words.
pub fn level_line(quote: &PairQuote) -> (r: String)
    ensures
        r@ == "📋 Level | YES "@ + text::decimal_text(quote.yes_price@, 4) + "×"@ + text::decimal_text(
            quote.size@,
            2,
        ) + " NO "@ + text::decimal_text(quote.no_price@, 4) + "×"@ + text::decimal_text(quote.size@, 2),
{
    let mut s = "📋 Level | YES ".to_string();
    s.append(cut_text(quote.yes_price, 4).as_str());
    s.append("×");
    s.append(cut_text(quote.size, 2).as_str());
    s.append(" NO ");
    s.append(cut_text(quote.no_price, 4).as_str());
    s.append("×");
    s.append(cut_text(quote.size, 2).as_str());
    s
}

/// How long orders are good for, in words, where they are good till a date.
pub open spec fn expiry_words(order_type: OrderType, secs: u64) -> Seq<char> {
    if order_type is GTD {
        " | GTD "@ + text::digits(secs as nat) + "s"@
    } else {
        Seq::empty()
    }
}

/// A pair of orders that is about to be sent, in words: the asks, what is bid, and how long.
pub fn order_line(
    opp: &ArbitrageOpportunity,
    quote: &PairQuote,
    order_type: OrderType,
    gtd_expiration_secs: u64,
) -> (r: String)
    ensures
        r@ == "📤 Order | YES "@ + text::decimal_text(opp.yes_ask_price@, 4) + "→"@ + text::decimal_text(
            quote.yes_price@,
            4,
        ) + "×"@ + text::text_of(quote.size) + " NO "@ + text::decimal_text(opp.no_ask_price@, 4) + "→"@
            + text::decimal_text(quote.no_price@, 4) + "×"@ + text::text_of(quote.size) + " | "@
            + order_type.word() + expiry_words(order_type, gtd_expiration_secs),
{
    let mut s = "📤 Order | YES ".to_string();
    s.append(cut_text(opp.yes_ask_price, 4).as_str());
    s.append("→");
    s.append(cut_text(quote.yes_price, 4).as_str());
    s.append("×");
    s.append(full_text(quote.size).as_str());
    s.append(" NO ");
    s.append(cut_text(opp.no_ask_price, 4).as_str());
    s.append("→");
    s.append(cut_text(quote.no_price, 4).as_str());
    s.append("×");
    s.append(full_text(quote.size).as_str());
    s.append(" | ");
    s.append(order_type.text());
    let mut expiry = "".to_string();
    proof {
        reveal_strlit("");
    }
    if order_type == OrderType::GTD {
        expiry = " | GTD ".to_string();
        expiry.append(u64_text(gtd_expiration_secs).as_str());
        expiry.append("s");
    }
    assert(expiry@ =~= expiry_words(order_type, gtd_expiration_secs));
    s.append(expiry.as_str());
    s
}

/// A pair that is too small to be sent, in words.
pub fn refusal_line(yes_amount: Decimal, no_amount: Decimal) -> (r: String)
    ensures
        r@ == "⏭️ Skip order | YES amount:"@ + text::decimal_text(yes_amount@, 2) + " USD NO amount:"@
            + text::decimal_text(no_amount@, 2) + " USD | Both sides must be > $1"@,
{
    let mut s = "⏭️ Skip order | YES amount:".to_string();
    s.append(cut_text(yes_amount, 2).as_str());
    s.append(" USD NO amount:");
    s.append(cut_text(no_amount, 2).as_str());
    s.append(" USD | Both sides must be > $1");
    s
}

/// How long the steps of sending a pair took, in milliseconds.
#[derive(Clone, Copy, Debug)]
pub struct Timing {
    pub build: u64,
    pub sign: u64,
    pub send: u64,
    pub total: u64,
}

/// How long it took to send a pair, in words.
pub fn time_line(plan: &PairPlan, took: Timing) -> (r: String)
    ensures
        r@ == "⏱️ Time | "@ + short_id(plan.pair_id@) + " | Build"@ + text::digits(took.build as nat) + "ms Sign"@
            + text::digits(took.sign as nat) + "ms Send"@ + text::digits(took.send as nat) + "ms Total"@
            + text::digits(took.total as nat) + "ms"@,
{
    let mut s = "⏱️ Time | ".to_string();
    s.append(shorten_id(plan.pair_id.as_str()).as_str());
    s.append(" | Build");
    s.append(u64_text(took.build).as_str());
    s.append("ms Sign");
    s.append(u64_text(took.sign).as_str());
    s.append("ms Send");
    s.append(u64_text(took.send).as_str());
    s.append("ms Total");
    s.append(u64_text(took.total).as_str());
    s.append("ms");
    s
}

/// A pair that the exchange did not take, in words.
pub fn batch_failure_line(plan: &PairPlan, took: Timing, error: &str) -> (r: String)
    ensures
        r@ == "❌ Batch order API call failed | PairID:"@ + short_id(plan.pair_id@) + " | YES price:"@
            + text::text_of(plan.yes_price) + " (with slippage) | NO price:"@ + text::text_of(plan.no_price)
            + " (with slippage) | Size:"@ + text::text_of(plan.size) + " | Build:"@ + text::digits(
            took.build as nat,
        ) + "ms | Sign:"@ + text::digits(took.sign as nat) + "ms | Send:"@ + text::digits(took.send as nat)
            + "ms | Total:"@ + text::digits(took.total as nat) + "ms | Error:"@ + error@,
{
    let mut s = "❌ Batch order API call failed | PairID:".to_string();
    s.append(shorten_id(plan.pair_id.as_str()).as_str());
    s.append(" | YES price:");
    s.append(full_text(plan.yes_price).as_str());
    s.append(" (with slippage) | NO price:");
    s.append(full_text(plan.no_price).as_str());
    s.append(" (with slippage) | Size:");
    s.append(full_text(plan.size).as_str());
    s.append(" | Build:");
    s.append(u64_text(took.build).as_str());
    s.append("ms | Sign:");
    s.append(u64_text(took.sign).as_str());
    s.append("ms | Send:");
    s.append(u64_text(took.send).as_str());
    s.append("ms | Total:");
    s.append(u64_text(took.total).as_str());
    s.append("ms | Error:");
    s.append(error);
    s
}

/// What became of an order that the exchange does not call a success.
pub open spec fn status_word(msg: Option<String>) -> Seq<char> {
    let m = match msg {
        Some(m) => m@,
        None => "Unknown error"@,
    };
    if text::has_part(m, "no orders found to match"@) || text::has_part(m, "GTD"@) || text::has_part(m, "FOK"@)
        || text::has_part(m, "FAK"@) || text::has_part(m, "GTC"@) {
        "Partially unfilled (order placed)"@
    } else {
        "Status abnormal"@
    }
}

/// What became of an order that the exchange does not call a success.
fn status_text(msg: &Option<String>) -> (r: &'static str)
    ensures
        r@ == status_word(*msg),
{
    let m = match msg {
        Some(m) => m.as_str(),
        None => "Unknown error",
    };
    if contains(m, "no orders found to match") || contains(m, "GTD") || contains(m, "FOK") || contains(m, "FAK")
        || contains(m, "GTC") {
        "Partially unfilled (order placed)"
    } else {
        "Status abnormal"
    }
}

/// A pair of which at least one order is not called a success, in words.
pub open spec fn status_words(id: Seq<char>, yes: PostResult, no: PostResult) -> Seq<char> {
    "⚠️ Partial order status abnormal | PairID:"@ + short_id(id) + " | YES:"@ + status_word(yes.error_msg)
        + " (filled:"@ + text::text_of(yes.taking_amount) + " shares) | NO:"@ + status_word(no.error_msg)
        + " (filled:"@ + text::text_of(no.taking_amount) + " shares) | Risk management activated"@
}

/// A pair of which at least one order is not called a success, in words.
fn status_line(id: &str, yes: &PostResult, no: &PostResult) -> (r: String)
    ensures
        r@ == status_words(id@, *yes, *no),
{
    let mut s = "⚠️ Partial order status abnormal | PairID:".to_string();
    s.append(shorten_id(id).as_str());
    s.append(" | YES:");
    s.append(status_text(&yes.error_msg));
    s.append(" (filled:");
    s.append(full_text(yes.taking_amount).as_str());
    s.append(" shares) | NO:");
    s.append(status_text(&no.error_msg));
    s.append(" (filled:");
    s.append(full_text(no.taking_amount).as_str());
    s.append(" shares) | Risk management activated");
    s
}

/// What was filled of a pair: both sides, one of them, or neither.
pub open spec fn fill_report(id: Seq<char>, yes: Decimal, no: Decimal) -> Report<Seq<char>> {
    if yes@ > 0 && no@ > 0 {
        let both = decimal::lesser(yes, no);
        Report {
            severity: Severity::Info,
            text: "✅ Arbitrage successful | PairID:"@ + short_id(id) + " | YES filled:"@ + text::text_of(yes)
                + " shares | NO filled:"@ + text::text_of(no) + " shares | Total filled:"@ + text::text_of(both)
                + " shares"@,
        }
    } else if yes@ > 0 {
        Report {
            severity: Severity::Warning,
            text: "⚠️ One-sided fill | "@ + short_id(id) + " | YES filled "@ + text::text_of(yes)
                + " shares, NO not filled (risk control)"@,
        }
    } else if no@ > 0 {
        Report {
            severity: Severity::Warning,
            text: "⚠️ One-sided fill | "@ + short_id(id) + " | NO filled "@ + text::text_of(no)
                + " shares, YES not filled (risk control)"@,
        }
    } else {
        Report {
            severity: Severity::Warning,
            text: "❌ Arbitrage failed | PairID:"@ + short_id(id) + " | Neither YES nor NO filled"@,
        }
    }
}

/// What was filled of a pair: both sides, one of them, or neither.
fn report_fill(id: &str, yes: Decimal, no: Decimal) -> (r: Report)
    ensures
        r@ == fill_report(id@, yes, no),
{
    let zero = Decimal::zero();
    let short = shorten_id(id);
    if yes > zero && no > zero {
        let mut s = "✅ Arbitrage successful | PairID:".to_string();
        s.append(short.as_str());
        s.append(" | YES filled:");
        s.append(full_text(yes).as_str());
        s.append(" shares | NO filled:");
        s.append(full_text(no).as_str());
        s.append(" shares | Total filled:");
        s.append(full_text(yes.min(no)).as_str());
        s.append(" shares");
        Report { severity: Severity::Info, text: s }
    } else if yes > zero {
        let mut s = "⚠️ One-sided fill | ".to_string();
        s.append(short.as_str());
        s.append(" | YES filled ");
        s.append(full_text(yes).as_str());
        s.append(" shares, NO not filled (risk control)");
        Report { severity: Severity::Warning, text: s }
    } else if no > zero {
        let mut s = "⚠️ One-sided fill | ".to_string();
        s.append(short.as_str());
        s.append(" | NO filled ");
        s.append(full_text(no).as_str());
        s.append(" shares, YES not filled (risk control)");
        Report { severity: Severity::Warning, text: s }
    } else {
        let mut s = "❌ Arbitrage failed | PairID:".to_string();
        s.append(short.as_str());
        s.append(" | Neither YES nor NO filled");
        Report { severity: Severity::Warning, text: s }
    }
}

/// The message of an order.
pub open spec fn message_of(result: PostResult) -> Option<Seq<char>> {
    match result.error_msg {
        Some(m) => Some(m@),
        None => None,
    }
}

/// What is reported of the exchange's answers to a pair, in the order in which the orders were sent.
pub open spec fn settlement_words(plan: PairPlan, results: Seq<PostResult>) -> Seq<Report<Seq<char>>> {
    if results.len() != 2 {
        seq![
            Report {
                severity: Severity::Error,
                text: "❌ Batch order returned incorrect number of results | PairID:"@ + short_id(plan.pair_id@)
                    + " | Expected:2 | Actual:"@ + text::digits(results.len() as nat),
            },
        ]
    } else {
        let (yes, no) = if plan.yes_first {
            (results[0], results[1])
        } else {
            (results[1], results[0])
        };
        if yes.taking_amount@ == 0 && no.taking_amount@ == 0 {
            seq![
                Report {
                    severity: Severity::Error,
                    text: "❌ Arbitrage failed | PairID:"@ + short_id(plan.pair_id@) + " | YES order:"@
                        + executor::plain_error(message_of(yes)) + " | NO order:"@ + executor::plain_error(
                        message_of(no),
                    ),
                },
            ]
        } else {
            let status: Seq<Report<Seq<char>>> = if !yes.success || !no.success {
                seq![
                    Report { severity: Severity::Warning, text: status_words(plan.pair_id@, yes, no) },
                ]
            } else {
                seq![]
            };
            status.push(fill_report(plan.pair_id@, yes.taking_amount, no.taking_amount))
        }
    }
}

/// What is reported of the exchange's answers to a pair, in the order in which the orders were sent.
pub fn settlement_reports(plan: &PairPlan, results: &Vec<PostResult>) -> (r: Vec<Report>)
    ensures
        report_views(r@) == settlement_words(*plan, results@),
{
    let mut reports: Vec<Report> = Vec::new();
    let id = plan.pair_id.as_str();
    if results.len() != 2 {
        let mut s = "❌ Batch order returned incorrect number of results | PairID:".to_string();
        s.append(shorten_id(id).as_str());
        s.append(" | Expected:2 | Actual:");
        s.append(u64_text(results.len() as u64).as_str());
        reports.push(Report { severity: Severity::Error, text: s });
        assert(report_views(reports@) =~= settlement_words(*plan, results@));
        return reports;
    }
    let (yes, no) = if plan.yes_first {
        (&results[0], &results[1])
    } else {
        (&results[1], &results[0])
    };
    let zero = Decimal::zero();
    if yes.taking_amount == zero && no.taking_amount == zero {
        let mut s = "❌ Arbitrage failed | PairID:".to_string();
        s.append(shorten_id(id).as_str());
        s.append(" | YES order:");
        s.append(simplify_error(&yes.error_msg).as_str());
        s.append(" | NO order:");
        s.append(simplify_error(&no.error_msg).as_str());
        reports.push(Report { severity: Severity::Error, text: s });
        assert(report_views(reports@) =~= settlement_words(*plan, results@));
        return reports;
    }
    if !yes.success || !no.success {
        reports.push(Report { severity: Severity::Warning, text: status_line(id, yes, no) });
    }
    reports.push(report_fill(id, yes.taking_amount, no.taking_amount));
    assert(report_views(reports@) =~= settlement_words(*plan, results@));
    reports
}

/// A price that was moved to a tick, in words, where it was.
pub open spec fn tick_reports(order: LimitOrder, market: Seq<char>) -> Seq<Report<Seq<char>>> {
    if order.price@ != order.raw_price@ {
        seq![
            Report {
                severity: Severity::Warning,
                text: "Price normalized to tick size | "@ + market + " | raw:"@ + text::decimal_text(
                    order.raw_price@,
                    8,
                ) + " -> tick:"@ + text::decimal_text(order.price@, 2),
            },
        ]
    } else {
        seq![]
    }
}

/// What is reported of a step; nothing of an order and a cancellation that are sent, whose outcome is
/// reported instead.
pub open spec fn step_words(step: Step, market: Seq<char>) -> Seq<Report<Seq<char>>> {
    match step {
        Step::Pass { reason } => seq![
            Report { severity: Severity::Detail, text: "⏸️ "@ + market + " | "@ + reason.words() },
        ],
        Step::Blocked { order, cost, current, max } => tick_reports(order, market).push(
            Report {
                severity: Severity::Warning,
                text: "⛔ MM PostLimitOrder blocked by exposure limit | cost:"@ + text::decimal_text(cost@, 4)
                    + " | current:"@ + text::decimal_text(current@, 4) + " | max:"@ + text::decimal_text(
                    max@,
                    4,
                ),
            },
        ),
        Step::DryRunPost { order, .. } => tick_reports(order, market).push(
            Report {
                severity: Severity::Info,
                text: "[DRY RUN] Would post limit BUY | "@ + market + " | token:"@ + action_executor::token_words(
                    order.token_id,
                ) + " | price:"@ + text::decimal_text(order.price@, 4) + " | size:"@ + text::text_of(order.size),
            },
        ),
        Step::Post { order } => tick_reports(order, market),
        Step::DryRunCancel => seq![
            Report { severity: Severity::Info, text: "[DRY RUN] Would cancel all orders | "@ + market },
        ],
        Step::Cancel => seq![],
        Step::DryRunPair { opp, size, cost } => seq![
            Report {
                severity: Severity::Info,
                text: "[DRY RUN] Would execute arb | "@ + market + " | YES:"@ + text::decimal_text(
                    opp.yes_ask_price@,
                    4,
                ) + " NO:"@ + text::decimal_text(opp.no_ask_price@, 4) + " | profit:"@ + text::decimal_text(
                    opp.profit_percentage@,
                    2,
                ) + "% | size:"@ + text::text_of(size) + " | cost:"@ + text::decimal_text(cost@, 2) + " USD"@,
            },
        ],
        Step::SubmitPair { .. } => seq![],
    }
}

/// A price that was moved to a tick, in words, where it was.
fn report_tick(order: &LimitOrder, market: &str) -> (r: Vec<Report>)
    ensures
        report_views(r@) == tick_reports(*order, market@),
{
    let mut reports: Vec<Report> = Vec::new();
    if order.price != order.raw_price {
        let mut s = "Price normalized to tick size | ".to_string();
        s.append(market);
        s.append(" | raw:");
        s.append(cut_text(order.raw_price, 8).as_str());
        s.append(" -> tick:");
        s.append(cut_text(order.price, 2).as_str());
        reports.push(Report { severity: Severity::Warning, text: s });
    }
    assert(report_views(reports@) =~= tick_reports(*order, market@));
    reports
}

/// One more report.
fn with_report(reports: Vec<Report>, severity: Severity, text: String) -> (r: Vec<Report>)
    ensures
        report_views(r@) == report_views(reports@).push(Report { severity, text: text@ }),
{
    let ghost before = report_views(reports@);
    let mut r = reports;
    let report = Report { severity, text };
    let ghost last = report@;
    r.push(report);
    assert(report_views(r@) =~= before.push(last));
    r
}

/// What is reported of a step; nothing of an order and a cancellation that are sent, whose outcome is
/// reported instead.
pub fn step_reports(step: &Step, market: &str) -> (r: Vec<Report>)
    ensures
        report_views(r@) == step_words(*step, market@),
{
    let none: Vec<Report> = Vec::new();
    assert(report_views(none@) =~= seq![]);
    let r = match step {
        Step::Pass { reason } => {
            let mut s = "⏸️ ".to_string();
            s.append(market);
            s.append(" | ");
            s.append(reason.text().as_str());
            with_report(none, Severity::Detail, s)
        },
        Step::Blocked { order, cost, current, max } => {
            let mut s = "⛔ MM PostLimitOrder blocked by exposure limit | cost:".to_string();
            s.append(cut_text(*cost, 4).as_str());
            s.append(" | current:");
            s.append(cut_text(*current, 4).as_str());
            s.append(" | max:");
            s.append(cut_text(*max, 4).as_str());
            with_report(report_tick(order, market), Severity::Warning, s)
        },
        Step::DryRunPost { order, .. } => {
            let mut s = "[DRY RUN] Would post limit BUY | ".to_string();
            s.append(market);
            s.append(" | token:");
            s.append(token_text(order.token_id).as_str());
            s.append(" | price:");
            s.append(cut_text(order.price, 4).as_str());
            s.append(" | size:");
            s.append(full_text(order.size).as_str());
            with_report(report_tick(order, market), Severity::Info, s)
        },
        Step::Post { order } => report_tick(order, market),
        Step::DryRunCancel => {
            let mut s = "[DRY RUN] Would cancel all orders | ".to_string();
            s.append(market);
            with_report(none, Severity::Info, s)
        },
        Step::Cancel => none,
        Step::DryRunPair { opp, size, cost } => {
            let mut s = "[DRY RUN] Would execute arb | ".to_string();
            s.append(market);
            s.append(" | YES:");
            s.append(cut_text(opp.yes_ask_price, 4).as_str());
            s.append(" NO:");
            s.append(cut_text(opp.no_ask_price, 4).as_str());
            s.append(" | profit:");
            s.append(cut_text(opp.profit_percentage, 2).as_str());
            s.append("% | size:");
            s.append(full_text(*size).as_str());
            s.append(" | cost:");
            s.append(cut_text(*cost, 2).as_str());
            s.append(" USD");
            with_report(none, Severity::Info, s)
        },
        Step::SubmitPair { .. } => none,
    };
    assert(report_views(r@) =~= step_words(*step, market@));
    r
}

} // verus!
