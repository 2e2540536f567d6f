//! From actions to orders: what is sent to the exchange, what is only noted, and what is booked once
//! the exchange has answered. In a dry run nothing is sent and nothing is booked.
use vstd::prelude::*;

use crate::decimal;
use crate::decimal::{checked_add, checked_mul, floor_to_tick, Decimal};
use crate::monitor::ArbitrageOpportunity;
use crate::risk::ledger::Ledger;
use crate::risk::positions::{PositionTracker, TrackerView};
use crate::text;
use crate::text::{contains, full_text, to_lowercase};
use crate::trading::executor::OrderPairResult;
use crate::types;
use crate::types::{market_text, token_text, B256, U256};
use crate::utils::trade_journal::{JournalEntry, Payload, PayloadView};

use super::{Action, SkipReason};

verus! {

/// A limit order to buy.
#[derive(Clone, Copy, Debug)]
pub struct LimitOrder<D = Decimal> {
    pub token_id: U256,
    /// The price that the strategy asked for.
    pub raw_price: D,
    /// The price on the exchange's ticks.
    pub price: D,
    pub size: D,
}

impl View for LimitOrder<Decimal> {
    type V = LimitOrder<int>;

    open spec fn view(&self) -> LimitOrder<int> {
        LimitOrder {
            token_id: self.token_id,
            raw_price: self.raw_price@,
            price: self.price@,
            size: self.size@,
        }
    }
}

/// What is done about an action.
#[derive(Debug)]
pub enum Step<D = Decimal, S = String> {
    /// Nothing.
    Pass { reason: SkipReason<D, S> },
    /// Nothing: the order would lift the exposure above its limit.
    Blocked { order: LimitOrder<D>, cost: D, current: D, max: D },
    /// Nothing: a dry run.
    DryRunPost { order: LimitOrder<D>, cost: D },
    /// The order is sent.
    Post { order: LimitOrder<D> },
    /// Nothing: a dry run.
    DryRunCancel,
    /// All open orders are cancelled.
    Cancel,
    /// Nothing: a dry run.
    DryRunPair { opp: ArbitrageOpportunity<D>, size: D, cost: D },
    /// Both tokens are bought. The cost is booked already.
    SubmitPair { opp: ArbitrageOpportunity<D>, size: D, yes_dir: S, no_dir: S },
}

impl View for Step<Decimal, String> {
    type V = Step<int, Seq<char>>;

    open spec fn view(&self) -> Step<int, Seq<char>> {
        match *self {
            Step::Pass { reason } => Step::Pass { reason: reason@ },
            Step::Blocked { order, cost, current, max } => Step::Blocked {
                order: order@,
                cost: cost@,
                current: current@,
                max: max@,
            },
            Step::DryRunPost { order, cost } => Step::DryRunPost { order: order@, cost: cost@ },
            Step::Post { order } => Step::Post { order: order@ },
            Step::DryRunCancel => Step::DryRunCancel,
            Step::Cancel => Step::Cancel,
            Step::DryRunPair { opp, size, cost } => Step::DryRunPair {
                opp: opp@,
                size: size@,
                cost: cost@,
            },
            Step::SubmitPair { opp, size, yes_dir, no_dir } => Step::SubmitPair {
                opp: opp@,
                size: size@,
                yes_dir: yes_dir@,
                no_dir: no_dir@,
            },
        }
    }
}

/// The price on the exchange's ticks of one cent: rounded down, at least one cent, at most one.
pub open spec fn tick_price(price: int) -> int {
    decimal::min_of(
        decimal::max_of(decimal::whole_cents(price), decimal::atoms(1, 2)),
        decimal::atoms(10, 1),
    )
}

/// The decimal places of a price on the ticks: two, or one where it was above one.
pub open spec fn tick_scale(price: int) -> int {
    if decimal::whole_cents(price) > decimal::one() {
        1
    } else {
        2
    }
}

/// The order's numbers have the decimal places with which they are noted.
pub open spec fn order_places(order: LimitOrder, price: Decimal, size: Decimal) -> bool {
    &&& order.raw_price == price
    &&& order.size == size
    &&& order.price.scale_of() == tick_scale(price@)
}

/// The numbers of a step about an order have the decimal places with which they are noted.
pub open spec fn post_places(step: Step, price: Decimal, size: Decimal) -> bool {
    match step {
        Step::Blocked { order, cost, .. } => {
            &&& order_places(order, price, size)
            &&& Some(cost.digits()) == decimal::multiplied(order.price.digits(), size.digits())
        },
        Step::DryRunPost { order, cost } => {
            &&& order_places(order, price, size)
            &&& Some(cost.digits()) == decimal::multiplied(order.price.digits(), size.digits())
        },
        Step::Post { order } => order_places(order, price, size),
        _ => true,
    }
}

/// The numbers of a step about a pair have the decimal places with which they are noted.
pub open spec fn pair_places(step: Step, pair: ArbitrageOpportunity) -> bool {
    match step {
        Step::DryRunPair { opp, size, cost } => {
            &&& opp == pair
            &&& size == decimal::lesser(pair.yes_size, pair.no_size)
            &&& Some(cost.digits()) == decimal::opt_added(
                decimal::multiplied(pair.yes_ask_price.digits(), size.digits()),
                decimal::multiplied(pair.no_ask_price.digits(), size.digits()),
            )
        },
        Step::SubmitPair { opp, size, .. } => opp == pair && size == decimal::lesser(pair.yes_size, pair.no_size),
        _ => true,
    }
}

/// What is done about a wish to post an order, at this exposure and limit. `None` where a step of the
/// computation is out of range.
pub open spec fn post_step(
    dry_run: bool,
    token_id: U256,
    price: int,
    size: int,
    current: Option<int>,
    max: int,
) -> Option<Step<int, Seq<char>>> {
    let order = LimitOrder { token_id, raw_price: price, price: tick_price(price), size };
    if decimal::nearest(100 * price, 1) is None {
        None
    } else {
        match decimal::product(order.price, size) {
            None => None,
            Some(cost) => match decimal::opt_sum(current, Some(cost)) {
                None => None,
                Some(after) => if after > max {
                    Some(Step::Blocked { order, cost, current: current->0, max })
                } else if dry_run {
                    Some(Step::DryRunPost { order, cost })
                } else {
                    Some(Step::Post { order })
                },
            },
        }
    }
}

/// The cost of both tokens of a pair; `None` where a step is out of range.
pub open spec fn pair_cost(opp: ArbitrageOpportunity<int>, size: int) -> Option<int> {
    decimal::opt_sum(
        decimal::product(opp.yes_ask_price, size),
        decimal::product(opp.no_ask_price, size),
    )
}

/// The shares that are booked of each token of a pair.
pub open spec fn pair_size(opp: ArbitrageOpportunity<int>) -> int {
    decimal::min_of(opp.yes_size, opp.no_size)
}

/// What is tracked once the YES cost of a pair is booked.
pub open spec fn yes_booked(tracker: TrackerView, opp: ArbitrageOpportunity<int>) -> Option<TrackerView> {
    tracker.update_exposure_cost(opp.yes_token_id, opp.yes_ask_price, pair_size(opp))
}

/// What is tracked once the costs of a pair are booked, YES first.
pub open spec fn pair_booked(tracker: TrackerView, opp: ArbitrageOpportunity<int>) -> Option<TrackerView> {
    match yes_booked(tracker, opp) {
        Some(t) => t.update_exposure_cost(opp.no_token_id, opp.no_ask_price, pair_size(opp)),
        None => None,
    }
}

/// What is done about an action, and what is tracked afterwards. `None` where a step of the
/// computation is out of range.
pub open spec fn step_for(
    dry_run: bool,
    action: Action<int, Seq<char>>,
    tracker: TrackerView,
    exposure: Option<int>,
) -> Option<(Step<int, Seq<char>>, TrackerView)> {
    match action {
        Action::Skip { reason } => Some((Step::Pass { reason }, tracker)),
        Action::CancelAll => Some(
            (
                if dry_run {
                    Step::DryRunCancel
                } else {
                    Step::Cancel
                },
                tracker,
            ),
        ),
        Action::PostLimitOrder { token_id, price, size } => match post_step(
            dry_run,
            token_id,
            price,
            size,
            exposure,
            tracker.max_exposure,
        ) {
            Some(step) => Some((step, tracker)),
            None => None,
        },
        Action::PlaceArbPair { opp, yes_dir, no_dir } => if dry_run {
            match pair_cost(opp, pair_size(opp)) {
                Some(cost) => Some((Step::DryRunPair { opp, size: pair_size(opp), cost }, tracker)),
                None => None,
            }
        } else {
            match pair_booked(tracker, opp) {
                Some(t) => Some((Step::SubmitPair { opp, size: pair_size(opp), yes_dir, no_dir }, t)),
                None => None,
            }
        },
    }
}

/// What is tracked after an action, whether or not a step of the computation is out of range. Only a pair
/// that is really submitted is booked; where its NO cost is out of range, its YES cost alone.
pub open spec fn tracked_after(
    dry_run: bool,
    action: Action<int, Seq<char>>,
    tracker: TrackerView,
) -> TrackerView {
    match action {
        Action::PlaceArbPair { opp, .. } => if dry_run {
            tracker
        } else {
            match (yes_booked(tracker, opp), pair_booked(tracker, opp)) {
                (_, Some(t)) => t,
                (Some(t), None) => t,
                (None, None) => tracker,
            }
        },
        _ => tracker,
    }
}

/// What is tracked, with decimal places, after an action, whether or not a step of the computation is out
/// of range.
pub open spec fn ledger_after(dry_run: bool, action: Action, ledger: Ledger) -> Ledger {
    match action {
        Action::PlaceArbPair { opp, .. } => if dry_run {
            ledger
        } else {
            let size = decimal::lesser(opp.yes_size, opp.no_size).digits();
            match ledger.charged(opp.yes_token_id, opp.yes_ask_price.digits(), size) {
                Some(l) => l.with(l.charged(opp.no_token_id, opp.no_ask_price.digits(), size)),
                None => ledger,
            }
        },
        _ => ledger,
    }
}

/// What is tracked after one action upon the other.
pub open spec fn tracked_after_all(
    dry_run: bool,
    actions: Seq<Action<int, Seq<char>>>,
    tracker: TrackerView,
) -> TrackerView
    decreases actions.len(),
{
    if actions.len() == 0 {
        tracker
    } else {
        tracked_after(
            dry_run,
            actions.last(),
            tracked_after_all(dry_run, actions.drop_last(), tracker),
        )
    }
}

/// Carries out actions, or only notes them.
pub struct ActionExecutor {
    dry_run: bool,
}

impl View for ActionExecutor {
    type V = bool;

    /// Whether it only notes them.
    closed spec fn view(&self) -> bool {
        self.dry_run
    }
}

impl ActionExecutor {
    /// An executor, for a dry run or a live one.
    pub fn new(dry_run: bool) -> (r: Self)
        ensures
            r@ == dry_run,
    {
        ActionExecutor { dry_run }
    }

    /// The price on the exchange's ticks of one cent: rounded down, at least one cent, at most one.
    /// `None` where a hundred times the price is out of range.
    pub fn normalize_tick_price(price: Decimal) -> (r: Option<Decimal>)
        ensures
            r is Some <==> decimal::nearest(100 * price@, 1) is Some,
            r matches Some(p) ==> p@ == tick_price(price@),
            r matches Some(p) ==> p.scale_of() == tick_scale(price@),
    {
        Some(floor_to_tick(price)?.max(Decimal::new(1, 2)).min(Decimal::new(10, 1)))
    }

    /// What is done about a wish to post an order, at this exposure and limit. `None` where a step of
    /// the computation is out of range.
    pub fn plan_post(
        &self,
        token_id: U256,
        price: Decimal,
        size: Decimal,
        current: Option<Decimal>,
        max: Decimal,
    ) -> (r: Option<Step>)
        ensures
            (match r {
                Some(step) => Some(step@),
                None => None,
            }) == post_step(self@, token_id, price@, size@, decimal::opt_atoms(current), max@),
            r matches Some(step) ==> post_places(step, price, size),
            r matches Some(Step::Blocked { current: c, max: m, .. }) ==> current == Some(c) && m == max,
    {
        let order = LimitOrder {
            token_id,
            raw_price: price,
            price: ActionExecutor::normalize_tick_price(price)?,
            size,
        };
        let cost = checked_mul(order.price, size)?;
        let current = current?;
        if checked_add(current, cost)? > max {
            Some(Step::Blocked { order, cost, current, max })
        } else if self.dry_run {
            Some(Step::DryRunPost { order, cost })
        } else {
            Some(Step::Post { order })
        }
    }

    /// What is done about a pair: its cost is booked, YES first, unless this is a dry run. `None` where
    /// a step is out of range; where it is the NO cost, the YES cost is booked.
    pub fn execute_arb_pair(
        &self,
        tracker: &mut PositionTracker,
        opp: ArbitrageOpportunity,
        yes_dir: String,
        no_dir: String,
    ) -> (r: Option<Step>)
        ensures
            r is Some <==> step_for(
                self@,
                Action::PlaceArbPair { opp: opp@, yes_dir: yes_dir@, no_dir: no_dir@ },
                old(tracker)@,
                None,
            ) is Some,
            r matches Some(step) ==> Some((step@, final(tracker)@)) == step_for(
                self@,
                Action::PlaceArbPair { opp: opp@, yes_dir: yes_dir@, no_dir: no_dir@ },
                old(tracker)@,
                None,
            ),
            final(tracker)@ == tracked_after(
                self@,
                Action::PlaceArbPair { opp: opp@, yes_dir: yes_dir@, no_dir: no_dir@ },
                old(tracker)@,
            ),
            r matches Some(step) ==> pair_places(step, opp),
            final(tracker).ledger() == ledger_after(
                self@,
                Action::PlaceArbPair { opp, yes_dir, no_dir },
                old(tracker).ledger(),
            ),
    {
        let size = opp.yes_size.min(opp.no_size);
        if self.dry_run {
            let yes_cost = checked_mul(opp.yes_ask_price, size)?;
            let no_cost = checked_mul(opp.no_ask_price, size)?;
            return Some(Step::DryRunPair { opp, size, cost: checked_add(yes_cost, no_cost)? });
        }
        tracker.update_exposure_cost(opp.yes_token_id, opp.yes_ask_price, size)?;
        tracker.update_exposure_cost(opp.no_token_id, opp.no_ask_price, size)?;
        Some(Step::SubmitPair { opp, size, yes_dir, no_dir })
    }

    /// What is done about an action. `None` where a step of the computation is out of range; where that
    /// is the NO cost of a pair that is really submitted, the YES cost is booked, and otherwise nothing
    /// changes. The exposure is the sum of the tracked costs in the order in which they come.
    pub fn execute(&self, action: Action, tracker: &mut PositionTracker) -> (r: Option<Step>)
        ensures
            exists|e: Option<int>| #[trigger]
                old(tracker)@.may_have_exposure(e) && (match r {
                    Some(step) => Some((step@, final(tracker)@)),
                    None => None,
                }) == step_for(self@, action@, old(tracker)@, e),
            final(tracker)@ == tracked_after(self@, action@, old(tracker)@),
            self@ ==> final(tracker)@ == old(tracker)@,
            r matches Some(step) ==> match action {
                Action::PostLimitOrder { price, size, .. } => post_places(step, price, size),
                Action::PlaceArbPair { opp, .. } => pair_places(step, opp),
                _ => true,
            },
            r matches Some(Step::Blocked { current, max, .. }) ==> {
                &&& old(tracker).ledger().may_add_up_to(Some(current.digits()))
                &&& max.digits() == old(tracker).ledger().limit
            },
            final(tracker).ledger() == ledger_after(self@, action, old(tracker).ledger()),
    {
        let exposure = tracker.calculate_exposure();
        assert(tracker@.may_have_exposure(decimal::opt_atoms(exposure)));
        match action {
            Action::Skip { reason } => Some(Step::Pass { reason }),
            Action::CancelAll => if self.dry_run {
                Some(Step::DryRunCancel)
            } else {
                Some(Step::Cancel)
            },
            Action::PostLimitOrder { token_id, price, size } => {
                let max = tracker.max_exposure();
                self.plan_post(token_id, price, size, exposure, max)
            },
            Action::PlaceArbPair { opp, yes_dir, no_dir } => self.execute_arb_pair(
                tracker,
                opp,
                yes_dir,
                no_dir,
            ),
        }
    }

    /// Books an order that the exchange has taken, and only such a one. `None`, and no change, where
    /// the cost is out of range.
    pub fn settle_post(tracker: &mut PositionTracker, order: &LimitOrder, taken: bool) -> (r: Option<()>)
        ensures
            taken ==> (r is Some <==> old(tracker)@.update_exposure_cost(
                order.token_id,
                order.price@,
                order.size@,
            ) is Some),
            taken && r is Some ==> Some(final(tracker)@) == old(tracker)@.update_exposure_cost(
                order.token_id,
                order.price@,
                order.size@,
            ),
            r is None ==> final(tracker)@ == old(tracker)@,
            !taken ==> r is Some && final(tracker)@ == old(tracker)@,
            final(tracker).ledger() == if taken {
                old(tracker).ledger().with(
                    old(tracker).ledger().charged(order.token_id, order.price.digits(), order.size.digits()),
                )
            } else {
                old(tracker).ledger()
            },
    {
        if taken {
            tracker.update_exposure_cost(order.token_id, order.price, order.size)
        } else {
            Some(())
        }
    }
}

/// The text of a token id.
pub open spec fn token_words(token: U256) -> Seq<char> {
    text::digits(token.value() as nat)
}

/// The data of an order, in the journal, behind what `start` holds.
pub open spec fn order_data(start: PayloadView, order: LimitOrder) -> PayloadView {
    start.text("token_id"@, token_words(order.token_id)).text(
        "raw_price"@,
        text::text_of(order.raw_price),
    ).text("price"@, text::text_of(order.price)).text("size"@, text::text_of(order.size))
}

/// The data of an order, in the journal, behind what `start` holds.
fn order_payload(start: Payload, order: &LimitOrder) -> (r: Payload)
    ensures
        r@ == order_data(start@, *order),
{
    start.text("token_id", token_text(order.token_id).as_str()).text(
        "raw_price",
        full_text(order.raw_price).as_str(),
    ).text("price", full_text(order.price).as_str()).text("size", full_text(order.size).as_str())
}

/// The data of a pair, in the journal, behind what `start` holds.
pub open spec fn pair_data(start: PayloadView, opp: ArbitrageOpportunity, size: Decimal) -> PayloadView {
    start.text("yes_token_id"@, token_words(opp.yes_token_id)).text(
        "no_token_id"@,
        token_words(opp.no_token_id),
    ).text("yes_price"@, text::text_of(opp.yes_ask_price)).text(
        "no_price"@,
        text::text_of(opp.no_ask_price),
    ).text("size"@, text::text_of(size)).text("profit_pct"@, text::text_of(opp.profit_percentage))
}

/// The data of a pair, in the journal, behind what `start` holds.
fn pair_payload(start: Payload, opp: &ArbitrageOpportunity, size: Decimal) -> (r: Payload)
    ensures
        r@ == pair_data(start@, *opp, size),
{
    start.text("yes_token_id", token_text(opp.yes_token_id).as_str()).text(
        "no_token_id",
        token_text(opp.no_token_id).as_str(),
    ).text("yes_price", full_text(opp.yes_ask_price).as_str()).text(
        "no_price",
        full_text(opp.no_ask_price).as_str(),
    ).text("size", full_text(size).as_str()).text(
        "profit_pct",
        full_text(opp.profit_percentage).as_str(),
    )
}

impl Step<Decimal, String> {
    /// The journal's event for the step, and its data; none for a step whose outcome is noted instead.
    pub open spec fn noted(self) -> Option<(Seq<char>, PayloadView)> {
        match self {
            Step::Pass { .. } => None,
            Step::Blocked { order, cost, current, max } => Some(
                (
                    "order_blocked_exposure"@,
                    order_data(
                        PayloadView::empty().text("type"@, "post_limit_buy"@),
                        order,
                    ).text("cost"@, text::text_of(cost)).text(
                        "current_exposure"@,
                        text::text_of(current),
                    ).text("max_exposure"@, text::text_of(max)),
                ),
            ),
            Step::DryRunPost { order, cost } => Some(
                (
                    "dry_run_post_limit_buy"@,
                    order_data(PayloadView::empty(), order).text("cost"@, text::text_of(cost)),
                ),
            ),
            Step::Post { .. } => None,
            Step::DryRunCancel => Some(("dry_run_cancel_all"@, PayloadView::empty())),
            Step::Cancel => None,
            Step::DryRunPair { opp, size, cost } => Some(
                (
                    "dry_run_arb_pair"@,
                    pair_data(PayloadView::empty(), opp, size).text("cost_usd"@, text::text_of(cost)),
                ),
            ),
            Step::SubmitPair { opp, size, yes_dir, no_dir } => Some(
                (
                    "arb_pair_submitted"@,
                    pair_data(
                        PayloadView::empty().text("market_id"@, types::market_words(opp.market_id)),
                        opp,
                        size,
                    ).text("yes_dir"@, yes_dir@).text("no_dir"@, no_dir@),
                ),
            ),
        }
    }

    /// The journal's entry for the step; none for a step whose outcome is noted instead.
    pub fn journal(&self) -> (r: Option<JournalEntry>)
        ensures
            (match r {
                Some(e) => Some((e.event@, e.data@)),
                None => None,
            }) == self.noted(),
    {
        match self {
            Step::Pass { .. } => None,
            Step::Blocked { order, cost, current, max } => {
                let start = Payload::new().text("type", "post_limit_buy");
                let data = order_payload(start, order).text(
                    "cost",
                    full_text(*cost).as_str(),
                ).text("current_exposure", full_text(*current).as_str()).text(
                    "max_exposure",
                    full_text(*max).as_str(),
                );
                Some(JournalEntry { event: "order_blocked_exposure".to_string(), data })
            },
            Step::DryRunPost { order, cost } => {
                let data = order_payload(Payload::new(), order).text("cost", full_text(*cost).as_str());
                Some(JournalEntry { event: "dry_run_post_limit_buy".to_string(), data })
            },
            Step::Post { .. } => None,
            Step::DryRunCancel => Some(
                JournalEntry { event: "dry_run_cancel_all".to_string(), data: Payload::new() },
            ),
            Step::Cancel => None,
            Step::DryRunPair { opp, size, cost } => {
                let data = pair_payload(Payload::new(), opp, *size).text(
                    "cost_usd",
                    full_text(*cost).as_str(),
                );
                Some(JournalEntry { event: "dry_run_arb_pair".to_string(), data })
            },
            Step::SubmitPair { opp, size, yes_dir, no_dir } => {
                let start = Payload::new().text("market_id", market_text(opp.market_id).as_str());
                let data = pair_payload(start, opp, *size).text("yes_dir", yes_dir.as_str()).text(
                    "no_dir",
                    no_dir.as_str(),
                );
                Some(JournalEntry { event: "arb_pair_submitted".to_string(), data })
            },
        }
    }
}

/// The journal's entry for an order that was sent: taken, with the exchange's answer, or not, with the
/// error.
pub fn post_outcome(order: &LimitOrder, answer: &Result<String, String>) -> (r: JournalEntry)
    ensures
        match answer {
            Ok(response) => r.event@ == "limit_buy_posted"@ && r.data@ == order_data(PayloadView::empty(), *order).text(
                "response"@,
                response@,
            ),
            Err(error) => r.event@ == "limit_buy_failed"@ && r.data@ == order_data(PayloadView::empty(), *order).text(
                "error"@,
                error@,
            ),
        },
{
    let data = order_payload(Payload::new(), order);
    match answer {
        Ok(response) => JournalEntry {
            event: "limit_buy_posted".to_string(),
            data: data.text("response", response.as_str()),
        },
        Err(error) => JournalEntry {
            event: "limit_buy_failed".to_string(),
            data: data.text("error", error.as_str()),
        },
    }
}

/// The journal's entry for a cancellation: the exchange's answer, or the error.
pub fn cancel_outcome(answer: &Result<String, String>) -> (r: JournalEntry)
    ensures
        match answer {
            Ok(response) => r.event@ == "cancel_all_ok"@ && r.data@ == PayloadView::empty().text(
                "response"@,
                response@,
            ),
            Err(error) => r.event@ == "cancel_all_failed"@ && r.data@ == PayloadView::empty().text(
                "error"@,
                error@,
            ),
        },
{
    match answer {
        Ok(response) => JournalEntry {
            event: "cancel_all_ok".to_string(),
            data: Payload::new().text("response", response.as_str()),
        },
        Err(error) => JournalEntry {
            event: "cancel_all_failed".to_string(),
            data: Payload::new().text("error", error.as_str()),
        },
    }
}

/// The journal's entry for a pair that was sent: what was filled, or the error.
pub fn pair_outcome(opp: &ArbitrageOpportunity, answer: &Result<OrderPairResult, String>) -> (r: JournalEntry)
    ensures
        match answer {
            Ok(p) => r.event@ == "arb_pair_executed"@ && r.data@ == PayloadView::empty().text(
                "pair_id"@,
                p.pair_id@,
            ).text("yes_order_id"@, p.yes_order_id@).text("no_order_id"@, p.no_order_id@).text(
                "yes_filled"@,
                text::text_of(p.yes_filled),
            ).text("no_filled"@, text::text_of(p.no_filled)).text(
                "yes_size"@,
                text::text_of(p.yes_size),
            ).text("no_size"@, text::text_of(p.no_size)).flag("success"@, p.success),
            Err(error) => r.event@ == "arb_pair_failed"@ && r.data@ == PayloadView::empty().text(
                "error"@,
                error@,
            ).text("yes_token_id"@, token_words(opp.yes_token_id)).text(
                "no_token_id"@,
                token_words(opp.no_token_id),
            ),
        },
{
    match answer {
        Ok(p) => {
            let data = Payload::new().text("pair_id", p.pair_id.as_str()).text(
                "yes_order_id",
                p.yes_order_id.as_str(),
            ).text("no_order_id", p.no_order_id.as_str()).text(
                "yes_filled",
                full_text(p.yes_filled).as_str(),
            ).text("no_filled", full_text(p.no_filled).as_str()).text(
                "yes_size",
                full_text(p.yes_size).as_str(),
            ).text("no_size", full_text(p.no_size).as_str()).flag("success", p.success);
            JournalEntry { event: "arb_pair_executed".to_string(), data }
        },
        Err(error) => {
            let data = Payload::new().text("error", error.as_str()).text(
                "yes_token_id",
                token_text(opp.yes_token_id).as_str(),
            ).text("no_token_id", token_text(opp.no_token_id).as_str());
            JournalEntry { event: "arb_pair_failed".to_string(), data }
        },
    }
}

/// A pair that came back, as the risk management gets it.
#[derive(Debug)]
pub struct Registration {
    pub result: OrderPairResult,
    pub market_id: B256,
    pub yes_token_id: U256,
    pub no_token_id: U256,
    /// What YES was offered for.
    pub yes_price: Decimal,
    /// What NO was offered for.
    pub no_price: Decimal,
}

/// What the risk management gets of a pair that was sent: the pair with its market, its tokens and its asks
/// where it came back without an error, and nothing where it did not.
pub fn pair_registration(opp: &ArbitrageOpportunity, answer: &Result<OrderPairResult, String>) -> (r: Option<
    Registration,
>)
    ensures
        r is Some <==> answer is Ok,
        r matches Some(reg) ==> {
            &&& reg.result.same_as(answer->Ok_0)
            &&& reg.market_id == opp.market_id
            &&& reg.yes_token_id == opp.yes_token_id
            &&& reg.no_token_id == opp.no_token_id
            &&& reg.yes_price == opp.yes_ask_price
            &&& reg.no_price == opp.no_ask_price
        },
{
    match answer {
        Ok(p) => Some(
            Registration {
                result: p.copied(),
                market_id: opp.market_id,
                yes_token_id: opp.yes_token_id,
                no_token_id: opp.no_token_id,
                yes_price: opp.yes_ask_price,
                no_price: opp.no_ask_price,
            },
        ),
        Err(_) => None,
    }
}

/// Whether an error says that the signature was rejected, whatever the case of its letters.
pub fn is_signature_rejection(error: &str) -> (r: bool)
    ensures
        r == text::has_part(text::lowercase(error@), "invalid signature"@),
        text::all_ascii(error@) ==> r == text::has_part(
            error@.map_values(|c: char| text::ascii_lower(c)),
            "invalid signature"@,
        ),
{
    contains(to_lowercase(error).as_str(), "invalid signature")
}

/// What is reported of a pair that failed: the error itself where it says so, or else with words in
/// front.
pub fn pair_failure_text(error: &str) -> (r: String)
    ensures
        r@ == if text::has_part(error@, "arbitrage failed"@) {
            error@
        } else {
            "Failed to execute arbitrage trade: "@ + error@
        },
{
    if contains(error, "arbitrage failed") {
        error.to_string()
    } else {
        let mut s = "Failed to execute arbitrage trade: ".to_string();
        s.append(error);
        s
    }
}

/// The journal notes every step but an order and a cancellation that are sent, whose outcome it notes, and
/// what is passed over.
pub proof fn every_step_is_noted(step: Step)
    ensures
        step.noted() is None <==> step is Pass || step is Post || step is Cancel,
{
}

/// In a dry run nothing is sent and nothing is booked, whether or not a step of the computation is out of
/// range.
pub proof fn dry_run_sends_nothing(
    action: Action<int, Seq<char>>,
    tracker: TrackerView,
    exposure: Option<int>,
)
    ensures
        step_for(true, action, tracker, exposure) matches Some((step, after)) ==> {
            &&& step !is Post && step !is Cancel && step !is SubmitPair
            &&& after == tracker
        },
        tracked_after(true, action, tracker) == tracker,
{
}

/// However many actions come in a dry run, nothing is booked.
pub proof fn dry_run_books_nothing(actions: Seq<Action<int, Seq<char>>>, tracker: TrackerView)
    ensures
        tracked_after_all(true, actions, tracker) == tracker,
    decreases actions.len(),
{
    if actions.len() > 0 {
        dry_run_books_nothing(actions.drop_last(), tracker);
    }
}

/// An order is sent only where the exposure stays within its limit with it.
pub proof fn posts_keep_the_limit(
    action: Action<int, Seq<char>>,
    tracker: TrackerView,
    exposure: Option<int>,
    order: LimitOrder<int>,
)
    requires
        step_for(false, action, tracker, exposure) == Some((Step::<int, Seq<char>>::Post { order }, tracker)),
    ensures
        exposure is Some,
        ({
            let after = decimal::opt_sum(exposure, decimal::product(order.price, order.size));
            after is Some && after->0 <= tracker.max_exposure
        }),
{
}

/// A price on the ticks is a whole number of cents from one to a hundred, and not above the raw price
/// unless that is below one cent.
pub proof fn tick_price_in_range(price: int)
    ensures
        decimal::atoms(1, 2) <= tick_price(price) <= decimal::atoms(100, 2),
        tick_price(price) % decimal::atoms(1, 2) == 0,
        price >= decimal::atoms(1, 2) ==> tick_price(price) <= price,
        decimal::atoms(1, 2) <= price <= decimal::atoms(100, 2) ==> price < tick_price(price)
            + decimal::atoms(1, 2),
        tick_price(tick_price(price)) == tick_price(price),
{
    let cent = decimal::pow10(26);
    let q = price / cent;
    assert(price == q * cent + price % cent && 0 <= price % cent < cent) by (nonlinear_arith)
        requires
            cent > 0,
            q == price / cent,
    ;
    assert((q * cent) % cent == 0 && (q * cent) / cent == q) by (nonlinear_arith)
        requires
            cent > 0,
    ;
}

} // verus!
