//! What holds of the journal: each step that is noted is noted with its own numbers, under their names.
use vstd::prelude::*;

use crate::decimal::Decimal;
use crate::text;
use crate::utils::trade_journal::PayloadView;

use super::action_executor;
use super::action_executor::{LimitOrder, Step};

verus! {

/// The data hold this text under this name.
pub open spec fn says(data: PayloadView, name: Seq<char>, value: Seq<char>) -> bool {
    data.texts.contains((name, value))
}

/// The data of an order are noted.
pub open spec fn says_order(data: PayloadView, order: LimitOrder) -> bool {
    &&& says(data, "token_id"@, text::digits(order.token_id.value() as nat))
    &&& says(data, "raw_price"@, text::text_of(order.raw_price))
    &&& says(data, "price"@, text::text_of(order.price))
    &&& says(data, "size"@, text::text_of(order.size))
}

/// One more text is noted, and those before it stay.
pub proof fn text_is_noted(data: PayloadView, name: Seq<char>, value: Seq<char>, flag: Seq<char>, on: bool)
    ensures
        says(data.text(name, value), name, value),
        forall|n: Seq<char>, v: Seq<char>| says(data, n, v) ==> #[trigger] says(data.text(name, value), n, v),
        data.text(name, value).flags == data.flags,
        data.flag(flag, on).flags.contains((flag, on)),
        data.flag(flag, on).texts == data.texts,
{
    let after = data.text(name, value).texts;
    assert(after[after.len() - 1] == (name, value));
    assert forall|n: Seq<char>, v: Seq<char>| says(data, n, v) implies #[trigger] says(
        data.text(name, value),
        n,
        v,
    ) by {
        let k = data.texts.index_of((n, v));
        assert(data.texts[k] == (n, v));
        assert(after[k] == (n, v));
    }
    let flags = data.flag(flag, on).flags;
    assert(flags[flags.len() - 1] == (flag, on));
}

/// An order that is blocked is noted with its cost, the exposure and the limit.
pub proof fn blocked_order_is_noted(order: LimitOrder, cost: Decimal, current: Decimal, max: Decimal)
    ensures
        (Step::<Decimal, String>::Blocked { order, cost, current, max }).noted() matches Some((event, data)) && {
            &&& event == "order_blocked_exposure"@
            &&& says_order(data, order)
            &&& says(data, "cost"@, text::text_of(cost))
            &&& says(data, "current_exposure"@, text::text_of(current))
            &&& says(data, "max_exposure"@, text::text_of(max))
        },
{
    let (_, data) = (Step::<Decimal, String>::Blocked { order, cost, current, max }).noted()->0;
    let t = data.texts;
    assert(t[1] == ("token_id"@, text::digits(order.token_id.value() as nat)));
    assert(t[2] == ("raw_price"@, text::text_of(order.raw_price)));
    assert(t[3] == ("price"@, text::text_of(order.price)));
    assert(t[4] == ("size"@, text::text_of(order.size)));
    assert(t[5] == ("cost"@, text::text_of(cost)));
    assert(t[6] == ("current_exposure"@, text::text_of(current)));
    assert(t[7] == ("max_exposure"@, text::text_of(max)));
}

/// An order that a dry run does not send is noted with its cost.
pub proof fn simulated_order_is_noted(order: LimitOrder, cost: Decimal)
    ensures
        (Step::<Decimal, String>::DryRunPost { order, cost }).noted() matches Some((event, data)) && {
            &&& event == "dry_run_post_limit_buy"@
            &&& says_order(data, order)
            &&& says(data, "cost"@, text::text_of(cost))
        },
{
    let (_, data) = (Step::<Decimal, String>::DryRunPost { order, cost }).noted()->0;
    let t = data.texts;
    assert(t[0] == ("token_id"@, text::digits(order.token_id.value() as nat)));
    assert(t[1] == ("raw_price"@, text::text_of(order.raw_price)));
    assert(t[2] == ("price"@, text::text_of(order.price)));
    assert(t[3] == ("size"@, text::text_of(order.size)));
    assert(t[4] == ("cost"@, text::text_of(cost)));
}

/// A pair is noted with its tokens, its prices, its size and its profit, whether it is sent or a dry run.
pub proof fn pair_is_noted(step: Step)
    requires
        step is DryRunPair || step is SubmitPair,
    ensures
        step.noted() matches Some((event, data)) && {
            let (opp, size) = match step {
                Step::DryRunPair { opp, size, .. } => (opp, size),
                Step::SubmitPair { opp, size, .. } => (opp, size),
                _ => arbitrary(),
            };
            &&& step is DryRunPair ==> event == "dry_run_arb_pair"@
            &&& step is SubmitPair ==> event == "arb_pair_submitted"@
            &&& says(data, "yes_token_id"@, text::digits(opp.yes_token_id.value() as nat))
            &&& says(data, "no_token_id"@, text::digits(opp.no_token_id.value() as nat))
            &&& says(data, "yes_price"@, text::text_of(opp.yes_ask_price))
            &&& says(data, "no_price"@, text::text_of(opp.no_ask_price))
            &&& says(data, "size"@, text::text_of(size))
            &&& says(data, "profit_pct"@, text::text_of(opp.profit_percentage))
            &&& step matches Step::DryRunPair { cost, .. } ==> says(data, "cost_usd"@, text::text_of(cost))
            &&& step matches Step::SubmitPair { yes_dir, no_dir, .. } ==> says(data, "yes_dir"@, yes_dir@) && says(
                data,
                "no_dir"@,
                no_dir@,
            )
        },
{
    let (_, data) = step.noted()->0;
    let t = data.texts;
    let (opp, size, at) = match step {
        Step::DryRunPair { opp, size, .. } => (opp, size, 0int),
        Step::SubmitPair { opp, size, .. } => (opp, size, 1int),
        _ => arbitrary(),
    };
    assert(t[at] == ("yes_token_id"@, action_executor::token_words(opp.yes_token_id)));
    assert(t[at + 1] == ("no_token_id"@, action_executor::token_words(opp.no_token_id)));
    assert(t[at + 2] == ("yes_price"@, text::text_of(opp.yes_ask_price)));
    assert(t[at + 3] == ("no_price"@, text::text_of(opp.no_ask_price)));
    assert(t[at + 4] == ("size"@, text::text_of(size)));
    assert(t[at + 5] == ("profit_pct"@, text::text_of(opp.profit_percentage)));
    match step {
        Step::DryRunPair { cost, .. } => {
            assert(t[6] == ("cost_usd"@, text::text_of(cost)));
        },
        Step::SubmitPair { yes_dir, no_dir, .. } => {
            assert(t[7] == ("yes_dir"@, yes_dir@));
            assert(t[8] == ("no_dir"@, no_dir@));
        },
        _ => {},
    }
}

/// What is not done at all, and what is sent and answered, is not noted here; a cancellation that a dry run does
/// not send is.
pub proof fn other_steps(step: Step)
    ensures
        step is Pass || step is Post || step is Cancel ==> step.noted() is None,
        step is DryRunCancel ==> (step.noted() matches Some((event, data)) && event == "dry_run_cancel_all"@
            && data.texts.len() == 0),
{
}

} // verus!
