//! What holds of reports: what is counted, what is shortened, and how bad each outcome is called.
use vstd::prelude::*;

use crate::config::OrderType;
use crate::decimal;
use crate::decimal::Decimal;
use crate::monitor::{BookUpdate, Level, OrderBookPair};
use crate::positions::Position;
use crate::reports;
use crate::strategy::action_executor::{LimitOrder, Step};
use crate::text;
use crate::text_laws;
use crate::trading::executor::{PairPlan, PostResult};
use crate::types::B256;

verus! {

/// Each market of the positions is listed once, and no other is.
pub proof fn each_market_is_listed_once(positions: Seq<Position>, id: B256)
    ensures
        reports::market_ids(positions).no_duplicates(),
        reports::market_ids(positions).contains(id) <==> exists|i: int|
            0 <= i < positions.len() && (#[trigger] positions[i]).condition_id == id,
    decreases positions.len(),
{
    if positions.len() > 0 {
        let front = positions.drop_last();
        let last = positions.last().condition_id;
        each_market_is_listed_once(front, id);
        let before = reports::market_ids(front);
        let all = reports::market_ids(positions);
        if before.contains(id) {
            let k = before.index_of(id);
            assert(before[k] == id);
            assert(all[k] == id);
            let i = choose|i: int| 0 <= i < front.len() && (#[trigger] front[i]).condition_id == id;
            assert(positions[i].condition_id == id);
        }
        if last == id {
            assert(positions[positions.len() - 1].condition_id == id);
            if !before.contains(last) {
                assert(all[all.len() - 1] == id);
            }
        }
        if all.contains(id) && !before.contains(id) {
            let k = all.index_of(id);
            assert(all[k] == id);
            if k < before.len() {
                assert(before[k] == id);
            }
        }
        if exists|i: int| 0 <= i < positions.len() && (#[trigger] positions[i]).condition_id == id {
            let i = choose|i: int| 0 <= i < positions.len() && (#[trigger] positions[i]).condition_id == id;
            if i < front.len() {
                assert(front[i].condition_id == id);
            }
        }
    }
}

/// Of a side of a market the last position is told, and `0` where there is none.
pub proof fn last_position_is_told(positions: Seq<Position>, p: Position, id: B256, outcome: i32)
    ensures
        ({
            let after = reports::side_words(positions.push(p), id, outcome);
            let counts = p.condition_id == id && p.outcome_index == outcome;
            &&& counts ==> after == text::text_of(p.size)
            &&& !counts ==> after == reports::side_words(positions, id, outcome)
        }),
        reports::side_words(Seq::<Position>::empty(), id, outcome) == seq!['0'],
{
    reveal_strlit("0");
    assert("0"@ =~= seq!['0']);
    assert(positions.push(p).drop_last() =~= positions);
}

/// A market has the first title that is not empty.
pub proof fn first_title_is_told(positions: Seq<Position>, p: Position, id: B256)
    ensures
        ({
            let before = reports::title_of(positions, id);
            let after = reports::title_of(positions.push(p), id);
            &&& before.len() > 0 || p.condition_id != id ==> after == before
            &&& before.len() == 0 && p.condition_id == id ==> after == p.title@
        }),
        reports::title_of(Seq::<Position>::empty(), id).len() == 0,
{
    assert(positions.push(p).drop_last() =~= positions);
}

/// A title of up to forty ASCII characters is shown whole; of a longer one, its first 37 and three dots.
pub proof fn long_title_is_cut(title: Seq<char>)
    requires
        forall|i: int| 0 <= i < title.len() ==> (#[trigger] title[i] as int) < 128,
    ensures
        title.len() <= 40 ==> reports::title_shown(title) == Some(title),
        title.len() > 40 ==> (reports::title_shown(title) matches Some(shown) && shown.len() == 40 && shown.take(37)
            == title.take(37) && shown.skip(37) == seq!['.', '.', '.']),
{
    reveal_strlit("...");
    text_laws::ascii_takes_a_byte_each(title, 37);
    if title.len() > 40 {
        let shown = reports::title_shown(title)->0;
        assert(shown.take(37) =~= title.take(37));
        assert(shown.skip(37) =~= seq!['.', '.', '.']);
    }
}

/// The first eight characters of an id are shown.
pub proof fn id_is_cut(id: Seq<char>)
    ensures
        ({
            let shown = reports::short_id(id);
            &&& shown.len() <= 8
            &&& id.len() <= 8 ==> shown == id
            &&& id.len() > 8 ==> shown.len() == 8 && shown == id.take(8)
        }),
{
}

/// The best ask is the last one of the book.
pub proof fn last_ask_is_told(book: BookUpdate)
    ensures
        book.asks@.len() == 0 <==> reports::top_ask(book) is None,
        book.asks@.len() > 0 ==> reports::top_ask(book) == Some(book.asks@[book.asks@.len() - 1]),
{
}

/// Both asks are told as their sum; while it is below one, what is left of one is told as a percentage of it, and
/// from there on that there is none.
pub proof fn profit_is_told_in_percent(yes: Level, no: Level)
    requires
        0 <= yes.price@ <= decimal::one(),
        0 <= no.price@ <= decimal::one(),
    ensures
        ({
            let total = yes.price@ + no.price@;
            let told = text::decimal_text(total, 4);
            &&& reports::asks_total(Some(yes), Some(no)) == Some(Some(total))
            &&& total < decimal::one() && decimal::representable(100 * (decimal::one() - total))
                ==> reports::spread_words(Some(total)) == Some(
                "total:"@ + told + " profit:"@ + text::decimal_text(100 * (decimal::one() - total), 2) + "%"@,
            )
            &&& total >= decimal::one() ==> reports::spread_words(Some(total)) == Some(
                "total:"@ + told + " (no arbitrage)"@,
            )
        }),
        reports::asks_total(None, Some(no)) == Some(None::<int>),
        reports::asks_total(Some(yes), None) == Some(None::<int>),
{
    let one = decimal::one();
    let total = yes.price@ + no.price@;
    decimal::lemma_small_exact(total);
    if total < one && decimal::representable(100 * (one - total)) {
        let left = one - total;
        decimal::lemma_small_exact(left);
        assert(decimal::atoms(1000, 1) == 100 * one);
        assert(left * (100 * one) == (100 * left) * one) by (nonlinear_arith);
        decimal::lemma_nearest_scaled(100 * left, one, 0);
        decimal::lemma_representable_exact(100 * left);
    }
}

/// A pair of which both sides were filled is told as such; with one side, or none, there is a warning.
pub proof fn one_sided_fill_is_a_warning(id: Seq<char>, yes: Decimal, no: Decimal)
    ensures
        (reports::fill_report(id, yes, no).severity is Info) <==> yes@ > 0 && no@ > 0,
        (reports::fill_report(id, yes, no).severity is Warning) <==> !(yes@ > 0 && no@ > 0),
        yes@ > 0 && no@ <= 0 ==> reports::fill_report(id, yes, no).text == "⚠️ One-sided fill | "@ + reports::short_id(
            id,
        ) + " | YES filled "@ + text::text_of(yes) + " shares, NO not filled (risk control)"@,
        no@ > 0 && yes@ <= 0 ==> reports::fill_report(id, yes, no).text == "⚠️ One-sided fill | "@ + reports::short_id(
            id,
        ) + " | NO filled "@ + text::text_of(no) + " shares, YES not filled (risk control)"@,
{
}

/// The answers to a pair are told: an error where there are not two or neither filled, and otherwise what was
/// filled, behind a warning where one of them was no success. Which answer is whose follows from which order was
/// sent first.
pub proof fn answers_are_told(plan: PairPlan, first: PostResult, second: PostResult, results: Seq<PostResult>)
    ensures
        results.len() != 2 ==> reports::settlement_words(plan, results).len() == 1 && (reports::settlement_words(
            plan,
            results,
        )[0].severity is Error),
        ({
            let (yes, no) = if plan.yes_first {
                (first, second)
            } else {
                (second, first)
            };
            let told = reports::settlement_words(plan, seq![first, second]);
            let unfilled = yes.taking_amount@ == 0 && no.taking_amount@ == 0;
            &&& unfilled ==> told.len() == 1 && told[0].severity is Error
            &&& !unfilled ==> told.last() == reports::fill_report(
                plan.pair_id@,
                yes.taking_amount,
                no.taking_amount,
            )
            &&& !unfilled && yes.success && no.success ==> told.len() == 1
            &&& !unfilled && !(yes.success && no.success) ==> told.len() == 2 && told[0].severity is Warning
        }),
{
}

/// A price that was moved to a tick is told, and one that was not is not.
pub proof fn moved_price_is_told(order: LimitOrder, market: Seq<char>)
    ensures
        order.price@ == order.raw_price@ ==> reports::tick_reports(order, market).len() == 0,
        order.price@ != order.raw_price@ ==> reports::tick_reports(order, market).len() == 1 && (reports::tick_reports(
            order,
            market,
        )[0].severity is Warning),
{
}

/// An order that is blocked is a warning, a dry run is told, and what is sent is told by its outcome.
pub proof fn steps_are_told(step: Step, market: Seq<char>)
    ensures
        ({
            let told = reports::step_words(step, market);
            &&& step is Blocked ==> told.len() > 0 && told.last().severity is Warning
            &&& step is DryRunPost || step is DryRunCancel || step is DryRunPair ==> told.len() > 0
                && told.last().severity is Info
            &&& step is Pass ==> told.len() == 1 && told[0].severity is Detail
            &&& step is Cancel || step is SubmitPair ==> told.len() == 0
            &&& step matches Step::Post { order } ==> told == reports::tick_reports(order, market)
        }),
{
}

/// A side of a pair of books is told with its price and its size, and with its arrow only where there is a profit.
pub proof fn ask_is_told(side: Seq<char>, ask: Level, dir: Seq<char>)
    requires
        dir.len() > 0,
    ensures
        ({
            let plain = side + ":"@ + text::decimal_text(ask.price@, 4) + " size:"@ + text::text_of(ask.size);
            &&& reports::ask_words(side, Some(ask), dir, false) == plain
            &&& reports::ask_words(side, Some(ask), dir, true) == plain + " "@ + dir
            &&& reports::ask_words(side, Some(ask), Seq::empty(), true) == plain
        }),
        reports::ask_words(side, None, dir, true) == side + ":none"@,
{
}

/// A pair of books is told YES first, each side with its own last ask and its own arrow; a profit is called one.
pub proof fn books_are_told(pair: OrderBookPair, market: Seq<char>, yes_dir: Seq<char>, no_dir: Seq<char>, total: int)
    requires
        pair.yes_book.asks@.len() > 0,
        pair.no_book.asks@.len() > 0,
        total == pair.yes_book.asks@[pair.yes_book.asks@.len() - 1].price@
            + pair.no_book.asks@[pair.no_book.asks@.len() - 1].price@,
        decimal::representable(total),
    ensures
        ({
            let yes = Some(pair.yes_book.asks@[pair.yes_book.asks@.len() - 1]);
            let no = Some(pair.no_book.asks@[pair.no_book.asks@.len() - 1]);
            let profit = total < decimal::one();
            let front = if profit {
                "🚨Arbitrage opportunity"@
            } else {
                "📊"@
            };
            reports::spread_words(Some(total)) matches Some(spread) ==> reports::book_words(
                pair,
                market,
                yes_dir,
                no_dir,
            ) == Some(
                front + " "@ + market + " | "@ + reports::ask_words("Yes"@, yes, yes_dir, profit) + " | "@
                    + reports::ask_words("No"@, no, no_dir, profit) + " | "@ + spread,
            )
        }),
{
    decimal::lemma_representable_exact(total);
}

/// How long orders are good for is told only of those that are good till a date.
pub proof fn expiry_is_told(order_type: OrderType, secs: u64)
    ensures
        order_type is GTD ==> reports::expiry_words(order_type, secs) == " | GTD "@ + text::digits(secs as nat) + "s"@,
        order_type !is GTD ==> reports::expiry_words(order_type, secs).len() == 0,
{
}

/// Each market has its line, in order.
pub proof fn each_market_has_its_line(positions: Seq<Position>, ids: Seq<B256>, id: B256)
    ensures
        ({
            let (before, last) = (reports::markets_words(positions, ids), reports::market_words(positions, id));
            let after = reports::markets_words(positions, ids.push(id));
            &&& before is Some && last is Some ==> after == Some((before->0).push(last->0))
            &&& before is None || last is None ==> after is None
        }),
        reports::title_shown(reports::title_of(positions, id)) matches Some(title) ==> reports::market_words(
            positions,
            id,
        ) == Some(
            "  📈 "@ + title + " | YES:"@ + reports::side_words(positions, id, 0) + " NO:"@ + reports::side_words(
                positions,
                id,
                1,
            ),
        ),
{
    assert(ids.push(id).drop_last() =~= ids);
}

/// What became of an order: placed but not filled where the message names no match or an order type.
pub proof fn unfilled_order_is_told(m: String)
    ensures
        ({
            let placed = text::has_part(m@, "no orders found to match"@) || text::has_part(m@, "GTD"@)
                || text::has_part(m@, "FOK"@) || text::has_part(m@, "FAK"@) || text::has_part(m@, "GTC"@);
            &&& placed ==> reports::status_word(Some(m)) == "Partially unfilled (order placed)"@
            &&& !placed ==> reports::status_word(Some(m)) == "Status abnormal"@
        }),
{
}

/// Positions that were taken over are told with their number and that of their markets, and then market by market.
pub proof fn positions_are_told(positions: Seq<Position>, lines: Seq<Seq<char>>)
    requires
        positions.len() > 0,
        reports::markets_words(positions, reports::market_ids(positions)) == Some(lines),
    ensures
        reports::positions_words(positions) matches Some(told) && {
            &&& told.len() == lines.len() + 1
            &&& told.skip(1) == lines
            &&& told[0] == "📊 Position sync completed | Total "@ + text::digits(positions.len()) + " positions, "@
                + text::digits(reports::market_ids(positions).len()) + " markets"@
        },
        reports::positions_words(Seq::empty()) == Some(seq!["📊 Position sync completed | No current positions"@]),
{
    let told = reports::positions_words(positions)->0;
    assert(told.skip(1) =~= lines);
}

/// Of a pair that was filled on both sides as many shares count as neither side is short of.
pub proof fn both_fills_are_told(id: Seq<char>, yes: Decimal, no: Decimal, both: Decimal)
    requires
        yes@ > 0,
        no@ > 0,
        both == yes && yes@ <= no@ || both == no && no@ < yes@,
    ensures
        reports::fill_report(id, yes, no).text == "✅ Arbitrage successful | PairID:"@ + reports::short_id(id)
            + " | YES filled:"@ + text::text_of(yes) + " shares | NO filled:"@ + text::text_of(no)
            + " shares | Total filled:"@ + text::text_of(both) + " shares"@,
{
}

} // verus!
