//! What holds of a pair of orders: its prices, its size, when it expires, and what the answers to it mean.
use vstd::prelude::*;

use crate::decimal;
use crate::monitor::ArbitrageOpportunity;
use crate::text;
use crate::time::Now;

use super::executor;
use super::executor::{ExecutorView, PairError, PairPlan, PostResult};

verus! {

/// Each token is bid for at its own ask and the slippage for its own direction, the second value where its
/// price falls and the first otherwise, and never above one. Of both, as many shares are bought as neither
/// offer nor the limit is below.
pub proof fn bids_are_asks_with_slippage(
    s: ExecutorView,
    opp: ArbitrageOpportunity<int>,
    yes_dir: Seq<char>,
    no_dir: Seq<char>,
)
    requires
        0 <= opp.yes_ask_price <= decimal::one(),
        0 <= opp.no_ask_price <= decimal::one(),
        -decimal::one() <= s.slippage.0 <= decimal::one(),
        -decimal::one() <= s.slippage.1 <= decimal::one(),
    ensures
        s.quote(opp, yes_dir, no_dir) matches Some(q) && {
            let yes = opp.yes_ask_price + if yes_dir == "↓"@ {
                s.slippage.1
            } else {
                s.slippage.0
            };
            let no = opp.no_ask_price + if no_dir == "↓"@ {
                s.slippage.1
            } else {
                s.slippage.0
            };
            &&& yes <= decimal::one() ==> q.yes_price == yes
            &&& yes > decimal::one() ==> q.yes_price == decimal::one()
            &&& no <= decimal::one() ==> q.no_price == no
            &&& no > decimal::one() ==> q.no_price == decimal::one()
            &&& q.size <= opp.yes_size && q.size <= opp.no_size && q.size <= s.max_order_size
            &&& q.size == opp.yes_size || q.size == opp.no_size || q.size == s.max_order_size
        },
{
    assert(decimal::atoms(10, 1) == decimal::one());
    decimal::lemma_small_exact(opp.yes_ask_price + s.slippage.0);
    decimal::lemma_small_exact(opp.yes_ask_price + s.slippage.1);
    decimal::lemma_small_exact(opp.no_ask_price + s.slippage.0);
    decimal::lemma_small_exact(opp.no_ask_price + s.slippage.1);
}

/// A pair is sent where both its orders are above one dollar, and refused, with their amounts, where one is not.
/// It is sent under its id, for the tokens of the opportunity, at its quote, with the order type that is set,
/// the dearer order first.
pub proof fn pair_is_sent_above_a_dollar(
    s: ExecutorView,
    pair_id: Seq<char>,
    opp: ArbitrageOpportunity<int>,
    yes_dir: Seq<char>,
    no_dir: Seq<char>,
    now: Now,
    quote: executor::PairQuote<int>,
    yes_amount: int,
    no_amount: int,
)
    requires
        s.quote(opp, yes_dir, no_dir) == Some(quote),
        decimal::product(quote.yes_price, quote.size) == Some(yes_amount),
        decimal::product(quote.no_price, quote.size) == Some(no_amount),
        s.gtd_expiration_secs <= 1_000_000_000,
    ensures
        s.plan(pair_id, opp, yes_dir, no_dir, now) matches Some(r) && {
            let enough = yes_amount > decimal::one() && no_amount > decimal::one();
            &&& enough ==> (r matches Ok(plan) && {
                &&& plan.pair_id == pair_id
                &&& plan.yes_token_id == opp.yes_token_id
                &&& plan.no_token_id == opp.no_token_id
                &&& plan.yes_price == quote.yes_price
                &&& plan.no_price == quote.no_price
                &&& plan.size == quote.size
                &&& plan.order_type == s.arbitrage_order_type
                &&& plan.yes_first <==> quote.yes_price >= quote.no_price
            })
            &&& !enough ==> (r matches Err(PairError::TooSmall { yes_amount: y, no_amount: n }) && y == yes_amount
                && n == no_amount)
        },
{
}

/// Orders that are good till a date expire so many seconds after they are sent, to the second; other orders do
/// not expire.
pub proof fn orders_expire_in_time(s: ExecutorView, now: Now)
    requires
        s.gtd_expiration_secs <= 1_000_000_000,
    ensures
        s.expiration_at(now) matches Some(end) && {
            &&& end is Some <==> s.arbitrage_order_type is GTD
            &&& end matches Some(secs) ==> {
                &&& (secs - s.gtd_expiration_secs) * 1_000_000_000 <= now.utc
                &&& now.utc < (secs - s.gtd_expiration_secs + 1) * 1_000_000_000
            }
        },
{
}

/// A pair counts as bought where one of its two orders, or both, were filled: each order's id and fill go to its
/// own token, whichever was sent first, and the sizes are those that were ordered. Without two answers, and
/// where neither order was filled, it fails.
pub proof fn fills_go_to_their_tokens(
    plan: PairPlan<int, Seq<char>>,
    results: Seq<PostResult<int, Seq<char>>>,
)
    ensures
        results.len() != 2 ==> (executor::settled(plan, results) matches Err(PairError::WrongCount { .. })),
        results.len() == 2 ==> {
            let (yes, no) = if plan.yes_first {
                (results[0], results[1])
            } else {
                (results[1], results[0])
            };
            let filled = yes.taking_amount != 0 || no.taking_amount != 0;
            &&& filled ==> (executor::settled(plan, results) matches Ok(pair) && {
                &&& pair.pair_id == plan.pair_id
                &&& pair.yes_order_id == yes.order_id
                &&& pair.no_order_id == no.order_id
                &&& pair.yes_filled == yes.taking_amount
                &&& pair.no_filled == no.taking_amount
                &&& pair.yes_size == plan.size
                &&& pair.no_size == plan.size
                &&& pair.success
            })
            &&& !filled ==> (executor::settled(plan, results) matches Err(PairError::NeitherFilled { .. }))
        },
{
}

/// A message that names no match says so in plain words; one that names an order type says that the order cannot
/// be filled; any other is passed on.
pub proof fn messages_in_plain_words(m: Seq<char>)
    ensures
        ({
            let unmatched = text::has_part(m, "no orders found to match"@);
            let unfilled = text::has_part(m, "GTD"@) || text::has_part(m, "FOK"@) || text::has_part(m, "FAK"@)
                || text::has_part(m, "GTC"@);
            &&& unmatched ==> executor::plain_error(Some(m)) == "No matching orders in book"@
            &&& !unmatched && unfilled ==> executor::plain_error(Some(m)) == "Order cannot be filled"@
            &&& !unmatched && !unfilled ==> executor::plain_error(Some(m)) == m
        }),
        executor::plain_error(None) == executor::plain_error(Some("Unknown error"@)),
{
}

} // verus!
