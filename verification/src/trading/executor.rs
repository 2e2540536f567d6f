//! A pair of orders: how it is sent, and what its answer means.
use vstd::prelude::*;

use crate::config::OrderType;
use crate::decimal;
use crate::decimal::{checked_add, checked_mul, Decimal};
use crate::monitor::ArbitrageOpportunity;
use crate::text;
use crate::text::{contains, cut_text, same_text, u64_text};
use crate::time::Now;
use crate::types::U256;

verus! {

/// A pair of orders of which at least one was filled.
#[derive(Debug)]
pub struct OrderPairResult<D = Decimal, S = String> {
    pub pair_id: S,
    pub yes_order_id: S,
    pub no_order_id: S,
    pub yes_filled: D,
    pub no_filled: D,
    pub yes_size: D,
    pub no_size: D,
    pub success: bool,
}

impl View for OrderPairResult<Decimal, String> {
    type V = OrderPairResult<int, Seq<char>>;

    open spec fn view(&self) -> OrderPairResult<int, Seq<char>> {
        OrderPairResult {
            pair_id: self.pair_id@,
            yes_order_id: self.yes_order_id@,
            no_order_id: self.no_order_id@,
            yes_filled: self.yes_filled@,
            no_filled: self.no_filled@,
            yes_size: self.yes_size@,
            no_size: self.no_size@,
            success: self.success,
        }
    }
}

impl OrderPairResult<Decimal, String> {
    /// The same pair, with the same decimal places.
    pub open spec fn same_as(self, other: OrderPairResult) -> bool {
        &&& self@ == other@
        &&& self.yes_filled == other.yes_filled
        &&& self.no_filled == other.no_filled
        &&& self.yes_size == other.yes_size
        &&& self.no_size == other.no_size
    }

    /// A copy.
    pub fn copied(&self) -> (r: OrderPairResult)
        ensures
            r.same_as(*self),
    {
        OrderPairResult {
            pair_id: self.pair_id.clone(),
            yes_order_id: self.yes_order_id.clone(),
            no_order_id: self.no_order_id.clone(),
            yes_filled: self.yes_filled,
            no_filled: self.no_filled,
            yes_size: self.yes_size,
            no_size: self.no_size,
            success: self.success,
        }
    }
}

/// What is bid for both tokens of a pair.
#[derive(Clone, Copy, Debug)]
pub struct PairQuote<D = Decimal> {
    pub yes_price: D,
    pub no_price: D,
    /// Shares of each token.
    pub size: D,
}

impl View for PairQuote<Decimal> {
    type V = PairQuote<int>;

    open spec fn view(&self) -> PairQuote<int> {
        PairQuote { yes_price: self.yes_price@, no_price: self.no_price@, size: self.size@ }
    }
}

/// A pair of buy orders, ready to be sent.
#[derive(Debug)]
pub struct PairPlan<D = Decimal, S = String> {
    pub pair_id: S,
    pub yes_token_id: U256,
    pub no_token_id: U256,
    pub yes_price: D,
    pub no_price: D,
    /// Shares of each token.
    pub size: D,
    pub order_type: OrderType,
    /// When the orders expire, in seconds since the Unix epoch; only for orders with a date.
    pub expiration: Option<i64>,
    /// The YES order is sent first.
    pub yes_first: bool,
}

impl View for PairPlan<Decimal, String> {
    type V = PairPlan<int, Seq<char>>;

    open spec fn view(&self) -> PairPlan<int, Seq<char>> {
        PairPlan {
            pair_id: self.pair_id@,
            yes_token_id: self.yes_token_id,
            no_token_id: self.no_token_id,
            yes_price: self.yes_price@,
            no_price: self.no_price@,
            size: self.size@,
            order_type: self.order_type,
            expiration: self.expiration,
            yes_first: self.yes_first,
        }
    }
}

/// What the exchange says of one order.
#[derive(Debug)]
pub struct PostResult<D = Decimal, S = String> {
    pub order_id: S,
    /// Shares that were filled.
    pub taking_amount: D,
    pub success: bool,
    pub error_msg: Option<S>,
}

impl View for PostResult<Decimal, String> {
    type V = PostResult<int, Seq<char>>;

    open spec fn view(&self) -> PostResult<int, Seq<char>> {
        PostResult {
            order_id: self.order_id@,
            taking_amount: self.taking_amount@,
            success: self.success,
            error_msg: match self.error_msg {
                Some(msg) => Some(msg@),
                None => None,
            },
        }
    }
}

/// Why no pair was bought.
#[derive(Debug)]
pub enum PairError<D = Decimal, S = String> {
    /// An order is not above the exchange's least amount.
    TooSmall { yes_amount: D, no_amount: D },
    /// The exchange did not take the orders.
    BatchFailed { error: S },
    /// The exchange did not answer for two orders.
    WrongCount { actual: u64 },
    /// Neither order was filled.
    NeitherFilled { yes: S, no: S },
}

impl View for PairError<Decimal, String> {
    type V = PairError<int, Seq<char>>;

    open spec fn view(&self) -> PairError<int, Seq<char>> {
        match *self {
            PairError::TooSmall { yes_amount, no_amount } => PairError::TooSmall {
                yes_amount: yes_amount@,
                no_amount: no_amount@,
            },
            PairError::BatchFailed { error } => PairError::BatchFailed { error: error@ },
            PairError::WrongCount { actual } => PairError::WrongCount { actual },
            PairError::NeitherFilled { yes, no } => PairError::NeitherFilled { yes: yes@, no: no@ },
        }
    }
}

impl PairError<int, Seq<char>> {
    /// The error in words.
    pub open spec fn text(self) -> Seq<char> {
        match self {
            PairError::TooSmall { yes_amount, no_amount } => "Order amount does not meet exchange minimum: YES "@
                + text::decimal_text(yes_amount, 2) + " USD, NO "@ + text::decimal_text(no_amount, 2)
                + " USD, both sides must be > $1"@,
            PairError::BatchFailed { error } => "Batch order API call failed: "@ + error,
            PairError::WrongCount { actual } => "Batch order returned incorrect number of results | Expected:2 | Actual:"@
                + text::digits(actual as nat),
            PairError::NeitherFilled { yes, no } => "Arbitrage failed: Neither YES nor NO order filled | YES: "@
                + yes + ", NO: "@ + no,
        }
    }
}

impl PairError<Decimal, String> {
    /// The error in words.
    pub fn text(&self) -> (r: String)
        ensures
            r@ == self@.text(),
    {
        match self {
            PairError::TooSmall { yes_amount, no_amount } => {
                let mut s = "Order amount does not meet exchange minimum: YES ".to_string();
                s.append(cut_text(*yes_amount, 2).as_str());
                s.append(" USD, NO ");
                s.append(cut_text(*no_amount, 2).as_str());
                s.append(" USD, both sides must be > $1");
                s
            },
            PairError::BatchFailed { error } => {
                let mut s = "Batch order API call failed: ".to_string();
                s.append(error.as_str());
                s
            },
            PairError::WrongCount { actual } => {
                let mut s = "Batch order returned incorrect number of results | Expected:2 | Actual:".to_string();
                s.append(u64_text(*actual).as_str());
                s
            },
            PairError::NeitherFilled { yes, no } => {
                let mut s = "Arbitrage failed: Neither YES nor NO order filled | YES: ".to_string();
                s.append(yes.as_str());
                s.append(", NO: ");
                s.append(no.as_str());
                s
            },
        }
    }
}

/// The settings for pairs of orders, in atoms.
pub struct ExecutorView {
    pub max_order_size: int,
    pub slippage: (int, int),
    pub gtd_expiration_secs: u64,
    pub arbitrage_order_type: OrderType,
}

impl ExecutorView {
    /// What is added to an ask: the second value where the price falls, the first otherwise.
    pub open spec fn slippage_for(self, dir: Seq<char>) -> int {
        if dir == "↓"@ {
            self.slippage.1
        } else {
            self.slippage.0
        }
    }

    /// The price that is bid for a token: its ask with the slippage, at most one.
    pub open spec fn bid_for(self, ask: int, dir: Seq<char>) -> Option<int> {
        match decimal::sum(ask, self.slippage_for(dir)) {
            Some(p) => Some(decimal::min_of(p, decimal::atoms(10, 1))),
            None => None,
        }
    }

    /// The shares of each token.
    pub open spec fn size_for(self, opp: ArbitrageOpportunity<int>) -> int {
        decimal::min_of(decimal::min_of(opp.yes_size, opp.no_size), self.max_order_size)
    }

    /// What is bid for both tokens of an opportunity; `None` where a price is out of range.
    pub open spec fn quote(
        self,
        opp: ArbitrageOpportunity<int>,
        yes_dir: Seq<char>,
        no_dir: Seq<char>,
    ) -> Option<PairQuote<int>> {
        match (self.bid_for(opp.yes_ask_price, yes_dir), self.bid_for(opp.no_ask_price, no_dir)) {
            (Some(yes_price), Some(no_price)) => Some(
                PairQuote { yes_price, no_price, size: self.size_for(opp) },
            ),
            _ => None,
        }
    }

    /// When orders that are sent now expire; `None` where the time is out of range.
    pub open spec fn expiration_at(self, now: Now) -> Option<Option<i64>> {
        if self.arbitrage_order_type is GTD {
            let end = now.utc as int / 1_000_000_000 + (self.gtd_expiration_secs as i64);
            if i64::MIN <= end <= i64::MAX {
                Some(Some(end as i64))
            } else {
                None
            }
        } else {
            Some(None)
        }
    }

    /// The orders for an opportunity, or the error where one of them is not above one dollar. `None`
    /// where a step of the computation is out of range.
    pub open spec fn plan(
        self,
        pair_id: Seq<char>,
        opp: ArbitrageOpportunity<int>,
        yes_dir: Seq<char>,
        no_dir: Seq<char>,
        now: Now,
    ) -> Option<Result<PairPlan<int, Seq<char>>, PairError<int, Seq<char>>>> {
        match (self.quote(opp, yes_dir, no_dir), self.expiration_at(now)) {
            (Some(PairQuote { yes_price, no_price, size }), Some(expiration)) => match (
                decimal::product(yes_price, size),
                decimal::product(no_price, size),
            ) {
                (Some(yes_amount), Some(no_amount)) => if yes_amount <= decimal::one() || no_amount
                    <= decimal::one() {
                    Some(Err(PairError::TooSmall { yes_amount, no_amount }))
                } else {
                    Some(
                        Ok(
                            PairPlan {
                                pair_id,
                                yes_token_id: opp.yes_token_id,
                                no_token_id: opp.no_token_id,
                                yes_price,
                                no_price,
                                size,
                                order_type: self.arbitrage_order_type,
                                expiration,
                                yes_first: yes_price >= no_price,
                            },
                        ),
                    )
                },
                _ => None,
            },
            _ => None,
        }
    }
}

/// An exchange's message on an order that was not filled, in plain words.
pub open spec fn plain_error(msg: Option<Seq<char>>) -> Seq<char> {
    let m = match msg {
        Some(m) => m,
        None => "Unknown error"@,
    };
    if text::has_part(m, "no orders found to match"@) {
        "No matching orders in book"@
    } else if text::has_part(m, "GTD"@) || text::has_part(m, "FOK"@) || text::has_part(m, "FAK"@)
        || text::has_part(m, "GTC"@) {
        "Order cannot be filled"@
    } else {
        m
    }
}

/// An exchange's message on an order that was not filled, in plain words.
pub fn simplify_error(msg: &Option<String>) -> (r: String)
    ensures
        r@ == plain_error(
            match *msg {
                Some(m) => Some(m@),
                None => None,
            },
        ),
{
    let m = match msg {
        Some(m) => m.as_str(),
        None => "Unknown error",
    };
    if contains(m, "no orders found to match") {
        "No matching orders in book".to_string()
    } else if contains(m, "GTD") || contains(m, "FOK") || contains(m, "FAK") || contains(m, "GTC") {
        "Order cannot be filled".to_string()
    } else {
        m.to_string()
    }
}

/// What the exchange's answers, in the order in which the orders were sent, mean for a pair: it counts
/// where at least one order was filled.
pub open spec fn settled(
    plan: PairPlan<int, Seq<char>>,
    results: Seq<PostResult<int, Seq<char>>>,
) -> Result<OrderPairResult<int, Seq<char>>, PairError<int, Seq<char>>> {
    if results.len() != 2 {
        Err(PairError::WrongCount { actual: results.len() as u64 })
    } else {
        let (yes, no) = if plan.yes_first {
            (results[0], results[1])
        } else {
            (results[1], results[0])
        };
        if yes.taking_amount == 0 && no.taking_amount == 0 {
            Err(
                PairError::NeitherFilled { yes: plain_error(yes.error_msg), no: plain_error(no.error_msg) },
            )
        } else {
            Ok(
                OrderPairResult {
                    pair_id: plan.pair_id,
                    yes_order_id: yes.order_id,
                    no_order_id: no.order_id,
                    yes_filled: yes.taking_amount,
                    no_filled: no.taking_amount,
                    yes_size: plan.size,
                    no_size: plan.size,
                    success: true,
                },
            )
        }
    }
}

/// The answers, with the numbers in atoms.
pub open spec fn result_views(results: Seq<PostResult>) -> Seq<PostResult<int, Seq<char>>> {
    results.map_values(|r: PostResult| r@)
}

/// A lower-case hexadecimal digit.
pub open spec fn is_hex(c: char) -> bool {
    ('0' <= c && c <= '9') || ('a' <= c && c <= 'f')
}

/// The shape of a UUID: 36 characters, four of them hyphens and the others hexadecimal digits.
pub open spec fn uuid_shaped(s: Seq<char>) -> bool {
    &&& s.len() == 36
    &&& forall|i: int|
        0 <= i < 36 ==> if i == 8 || i == 13 || i == 18 || i == 23 {
            #[trigger] s[i] == '-'
        } else {
            is_hex(s[i])
        }
}

/// `uuid::Uuid::new_v4`, in its hyphenated form: a random identifier of which only the shape is known.
#[verifier::external_body]
fn fresh_id() -> (r: String)
    ensures
        uuid_shaped(r@),
{
    uuid::Uuid::new_v4().to_string()
}

/// Prepares pairs of orders and reads the exchange's answers to them.
pub struct TradingExecutor {
    max_order_size: Decimal,
    slippage: [Decimal; 2],
    gtd_expiration_secs: u64,
    arbitrage_order_type: OrderType,
}

impl View for TradingExecutor {
    type V = ExecutorView;

    closed spec fn view(&self) -> ExecutorView {
        ExecutorView {
            max_order_size: self.max_order_size@,
            slippage: (self.slippage[0]@, self.slippage[1]@),
            gtd_expiration_secs: self.gtd_expiration_secs,
            arbitrage_order_type: self.arbitrage_order_type,
        }
    }
}

impl TradingExecutor {
    /// The most shares of a pair.
    pub closed spec fn most(self) -> Decimal {
        self.max_order_size
    }

    /// What is added to an ask.
    pub closed spec fn slippage_of(self, dir: Seq<char>) -> Decimal {
        if dir == "↓"@ {
            self.slippage[1]
        } else {
            self.slippage[0]
        }
    }

    /// The price that is bid for a token, with its decimal places; `None` where it is out of range.
    pub open spec fn bid_digits(self, ask: Decimal, dir: Seq<char>) -> Option<decimal::Digits> {
        match decimal::added(ask.digits(), self.slippage_of(dir).digits()) {
            Some(d) => Some(
                if d.atoms > decimal::one() {
                    decimal::Digits { atoms: decimal::one(), scale: 1 }
                } else {
                    d
                },
            ),
            None => None,
        }
    }

    /// What kind of orders a pair is bought with.
    pub fn arbitrage_order_type(&self) -> (r: OrderType)
        ensures
            r == self@.arbitrage_order_type,
    {
        self.arbitrage_order_type
    }

    /// How long orders that are good till a date are good for.
    pub fn gtd_expiration_secs(&self) -> (r: u64)
        ensures
            r == self@.gtd_expiration_secs,
    {
        self.gtd_expiration_secs
    }

    /// An executor with these settings.
    pub fn new(
        max_order_size: Decimal,
        slippage: [Decimal; 2],
        gtd_expiration_secs: u64,
        arbitrage_order_type: OrderType,
    ) -> (r: Self)
        ensures
            r@ == (ExecutorView {
                max_order_size: max_order_size@,
                slippage: (slippage[0]@, slippage[1]@),
                gtd_expiration_secs,
                arbitrage_order_type,
            }),
            r.most() == max_order_size,
            forall|dir: Seq<char>| #[trigger]
                r.slippage_of(dir) == if dir == "↓"@ {
                    slippage[1]
                } else {
                    slippage[0]
                },
    {
        TradingExecutor { max_order_size, slippage, gtd_expiration_secs, arbitrage_order_type }
    }

    /// What is added to an ask: the second value where the price falls, the first otherwise.
    pub fn slippage_for_direction(&self, dir: &str) -> (r: Decimal)
        ensures
            r@ == self@.slippage_for(dir@),
            r == self.slippage_of(dir@),
    {
        if same_text(dir, "↓") {
            self.slippage[1]
        } else {
            self.slippage[0]
        }
    }

    /// When orders that are sent now expire; `None` where the time is out of range.
    fn expiration(&self, now: Now) -> (r: Option<Option<i64>>)
        ensures
            r == self@.expiration_at(now),
    {
        if self.arbitrage_order_type == OrderType::GTD {
            let secs: i64 = if now.utc >= 0 {
                now.utc / 1_000_000_000
            } else {
                -((-(now.utc as i128) + 999_999_999) / 1_000_000_000) as i64
            };
            assert(secs == now.utc as int / 1_000_000_000);
            Some(Some(secs.checked_add(self.gtd_expiration_secs as i64)?))
        } else {
            Some(None)
        }
    }

    /// What is bid for both tokens of an opportunity: the asks with the slippage, at most one. `None` where
    /// a price is out of range.
    pub fn quote_pair(&self, opp: &ArbitrageOpportunity, yes_dir: &str, no_dir: &str) -> (r: Option<PairQuote>)
        ensures
            (match r {
                Some(quote) => Some(quote@),
                None => None,
            }) == self@.quote(opp@, yes_dir@, no_dir@),
            r matches Some(quote) ==> {
                &&& quote.size == decimal::lesser(decimal::lesser(opp.yes_size, opp.no_size), self.most())
                &&& Some(quote.yes_price.digits()) == self.bid_digits(opp.yes_ask_price, yes_dir@)
                &&& Some(quote.no_price.digits()) == self.bid_digits(opp.no_ask_price, no_dir@)
            },
    {
        let one = Decimal::new(10, 1);
        Some(
            PairQuote {
                yes_price: checked_add(opp.yes_ask_price, self.slippage_for_direction(yes_dir))?.min(one),
                no_price: checked_add(opp.no_ask_price, self.slippage_for_direction(no_dir))?.min(one),
                size: opp.yes_size.min(opp.no_size).min(self.max_order_size),
            },
        )
    }

    /// The orders for an opportunity under a given id, or the error where one of them is not above one
    /// dollar. `None` where a step of the computation is out of range.
    pub fn plan_arbitrage_pair(
        &self,
        pair_id: String,
        opp: &ArbitrageOpportunity,
        yes_dir: &str,
        no_dir: &str,
        now: Now,
    ) -> (r: Option<Result<PairPlan, PairError>>)
        ensures
            (match r {
                None => None,
                Some(Ok(plan)) => Some(Ok(plan@)),
                Some(Err(error)) => Some(Err(error@)),
            }) == self@.plan(pair_id@, opp@, yes_dir@, no_dir@, now),
            r matches Some(Ok(plan)) ==> {
                &&& plan.size == decimal::lesser(decimal::lesser(opp.yes_size, opp.no_size), self.most())
                &&& Some(plan.yes_price.digits()) == self.bid_digits(opp.yes_ask_price, yes_dir@)
                &&& Some(plan.no_price.digits()) == self.bid_digits(opp.no_ask_price, no_dir@)
            },
    {
        let expiration = self.expiration(now)?;
        let PairQuote { yes_price, no_price, size } = self.quote_pair(opp, yes_dir, no_dir)?;
        let yes_amount = checked_mul(yes_price, size)?;
        let no_amount = checked_mul(no_price, size)?;
        let least = Decimal::new(1, 0);
        if yes_amount <= least || no_amount <= least {
            return Some(Err(PairError::TooSmall { yes_amount, no_amount }));
        }
        Some(
            Ok(
                PairPlan {
                    pair_id,
                    yes_token_id: opp.yes_token_id,
                    no_token_id: opp.no_token_id,
                    yes_price,
                    no_price,
                    size,
                    order_type: self.arbitrage_order_type,
                    expiration,
                    yes_first: yes_price >= no_price,
                },
            ),
        )
    }

    /// The orders for an opportunity under a fresh id, or the error where one of them is not above one
    /// dollar. `None` where a step of the computation is out of range.
    pub fn execute_arbitrage_pair(&self, opp: &ArbitrageOpportunity, yes_dir: &str, no_dir: &str, now: Now) -> (r:
        Option<Result<PairPlan, PairError>>)
        ensures
            exists|id: Seq<char>| #[trigger]
                uuid_shaped(id) && (match r {
                    None => None,
                    Some(Ok(plan)) => Some(Ok(plan@)),
                    Some(Err(error)) => Some(Err(error@)),
                }) == self@.plan(id, opp@, yes_dir@, no_dir@, now),
            r matches Some(Ok(plan)) ==> {
                &&& plan.size == decimal::lesser(decimal::lesser(opp.yes_size, opp.no_size), self.most())
                &&& Some(plan.yes_price.digits()) == self.bid_digits(opp.yes_ask_price, yes_dir@)
                &&& Some(plan.no_price.digits()) == self.bid_digits(opp.no_ask_price, no_dir@)
            },
    {
        let id = fresh_id();
        assert(uuid_shaped(id@));
        self.plan_arbitrage_pair(id, opp, yes_dir, no_dir, now)
    }

    /// What the exchange's answers to a pair of orders mean, in the order in which they were sent.
    pub fn settle_arbitrage_pair(plan: PairPlan, answer: Result<Vec<PostResult>, String>) -> (r: Result<
        OrderPairResult,
        PairError,
    >)
        ensures
            (match r {
                Ok(pair) => Ok(pair@),
                Err(error) => Err(error@),
            }) == match answer {
                Ok(results) => settled(plan@, result_views(results@)),
                Err(error) => Err(PairError::BatchFailed { error: error@ }),
            },
            r matches Ok(pair) ==> ({
                let results = (answer->Ok_0)@;
                let (yes, no) = if plan.yes_first {
                    (results[0], results[1])
                } else {
                    (results[1], results[0])
                };
                &&& pair.yes_filled == yes.taking_amount
                &&& pair.no_filled == no.taking_amount
                &&& pair.yes_size == plan.size
                &&& pair.no_size == plan.size
            }),
    {
        let results = match answer {
            Ok(results) => results,
            Err(error) => return Err(PairError::BatchFailed { error }),
        };
        if results.len() != 2 {
            return Err(PairError::WrongCount { actual: results.len() as u64 });
        }
        let (yes, no) = if plan.yes_first {
            (&results[0], &results[1])
        } else {
            (&results[1], &results[0])
        };
        let zero = Decimal::zero();
        if yes.taking_amount == zero && no.taking_amount == zero {
            return Err(
                PairError::NeitherFilled {
                    yes: simplify_error(&yes.error_msg),
                    no: simplify_error(&no.error_msg),
                },
            );
        }
        Ok(
            OrderPairResult {
                pair_id: plan.pair_id,
                yes_order_id: yes.order_id.clone(),
                no_order_id: no.order_id.clone(),
                yes_filled: yes.taking_amount,
                no_filled: no.taking_amount,
                yes_size: plan.size,
                no_size: plan.size,
                success: true,
            },
        )
    }
}

/// A pair that is sent: no price is above one, both orders are above one dollar, the size is within
/// what is offered and allowed, and the dearer order goes first.
pub proof fn sent_pair_is_sound(
    s: ExecutorView,
    pair_id: Seq<char>,
    opp: ArbitrageOpportunity<int>,
    yes_dir: Seq<char>,
    no_dir: Seq<char>,
    now: Now,
    plan: PairPlan<int, Seq<char>>,
)
    requires
        s.plan(pair_id, opp, yes_dir, no_dir, now) == Some(
            Ok::<PairPlan<int, Seq<char>>, PairError<int, Seq<char>>>(plan),
        ),
    ensures
        plan.yes_price <= decimal::one() && plan.no_price <= decimal::one(),
        decimal::product(plan.yes_price, plan.size)->0 > decimal::one(),
        decimal::product(plan.no_price, plan.size)->0 > decimal::one(),
        plan.size <= opp.yes_size && plan.size <= opp.no_size && plan.size <= s.max_order_size,
        plan.yes_first ==> plan.yes_price >= plan.no_price,
        !plan.yes_first ==> plan.no_price > plan.yes_price,
        plan.expiration is Some <==> plan.order_type is GTD,
{
}

/// The outcome does not depend on which order was sent first.
pub proof fn settlement_follows_the_orders(
    plan: PairPlan<int, Seq<char>>,
    yes: PostResult<int, Seq<char>>,
    no: PostResult<int, Seq<char>>,
)
    ensures
        settled(PairPlan { yes_first: true, ..plan }, seq![yes, no]) == settled(
            PairPlan { yes_first: false, ..plan },
            seq![no, yes],
        ),
        settled(PairPlan { yes_first: true, ..plan }, seq![yes, no]) is Ok <==> yes.taking_amount != 0
            || no.taking_amount != 0,
{
}

} // verus!
