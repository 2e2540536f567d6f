//! Merging: a YES and a NO share of one market are turned back into what they pay out together.
use vstd::prelude::*;

use crate::decimal;
use crate::decimal::Decimal;
use crate::positions;
use crate::positions::Position;
use crate::risk;
use crate::risk::ledger::Ledger;
use crate::risk::positions::{PositionTracker, TrackerView};
use crate::text;
use crate::text::contains;
use crate::types::{B256, U256};

verus! {

/// Seconds before the first round.
pub const INITIAL_DELAY: u64 = 10;

/// Seconds between two merges of a round.
pub const DELAY_BETWEEN_MERGES: u64 = 30;

/// Seconds before a merge is tried again after the node refused it for coming too fast.
pub const RATE_LIMIT_BACKOFF: u64 = 12;

/// What a market can be merged for.
#[derive(Clone, Copy, Debug)]
pub struct MergeInfo<D = Decimal> {
    pub condition_id: B256,
    pub yes_token: U256,
    pub no_token: U256,
    /// Shares of each side that go away.
    pub amount: D,
}

impl View for MergeInfo<Decimal> {
    type V = MergeInfo<int>;

    open spec fn view(&self) -> MergeInfo<int> {
        MergeInfo {
            condition_id: self.condition_id,
            yes_token: self.yes_token,
            no_token: self.no_token,
            amount: self.amount@,
        }
    }
}

/// The last position of more than zero shares on one side of a market.
pub open spec fn side(positions: Seq<Position<int, Seq<char>>>, id: B256, outcome: i32) -> Option<
    (U256, int),
>
    decreases positions.len(),
{
    if positions.len() == 0 {
        None
    } else {
        let p = positions.last();
        if p.size > 0 && p.condition_id == id && p.outcome_index == outcome {
            Some((p.asset, p.size))
        } else {
            side(positions.drop_last(), id, outcome)
        }
    }
}

/// Both sides of a market are held, by either way of numbering them.
pub open spec fn both_sides(positions: Seq<Position<int, Seq<char>>>, id: B256) -> bool {
    &&& side(positions, id, 1) is Some
    &&& side(positions, id, 0) is Some || side(positions, id, 2) is Some
}

/// Two sides of a market, YES first.
pub open spec fn pair_info(id: B256, yes: (U256, int), no: (U256, int)) -> MergeInfo<int> {
    MergeInfo {
        condition_id: id,
        yes_token: yes.0,
        no_token: no.0,
        amount: decimal::min_of(yes.1, no.1),
    }
}

/// What a market can be merged for: outcomes 1 and 2 where both are held, or else 0 and 1.
pub open spec fn info_of(positions: Seq<Position<int, Seq<char>>>, id: B256) -> Option<MergeInfo<int>> {
    match (side(positions, id, 0), side(positions, id, 1), side(positions, id, 2)) {
        (_, Some(yes), Some(no)) => Some(pair_info(id, yes, no)),
        (Some(yes), Some(no), None) => Some(pair_info(id, yes, no)),
        _ => None,
    }
}

/// The shares of the last position of more than zero shares on one side of a market, with decimal places.
pub open spec fn side_digits(positions: Seq<Position>, id: B256, outcome: i32) -> Option<decimal::Digits>
    decreases positions.len(),
{
    if positions.len() == 0 {
        None
    } else {
        let p = positions.last();
        if p.size@ > 0 && p.condition_id == id && p.outcome_index == outcome {
            Some(p.size.digits())
        } else {
            side_digits(positions.drop_last(), id, outcome)
        }
    }
}

/// The smaller of the two amounts; the first where they are equal.
pub open spec fn pair_digits(yes: decimal::Digits, no: decimal::Digits) -> decimal::Digits {
    if yes.atoms > no.atoms {
        no
    } else {
        yes
    }
}

/// The amount that a market can be merged for, with decimal places.
pub open spec fn merge_digits(positions: Seq<Position>, id: B256) -> Option<decimal::Digits> {
    match (side_digits(positions, id, 0), side_digits(positions, id, 1), side_digits(positions, id, 2)) {
        (_, Some(yes), Some(no)) => Some(pair_digits(yes, no)),
        (Some(yes), Some(no), None) => Some(pair_digits(yes, no)),
        _ => None,
    }
}

/// The amounts of the infos, with decimal places.
pub open spec fn amounts_of(infos: Seq<MergeInfo>) -> Seq<decimal::Digits> {
    infos.map_values(|i: MergeInfo| i.amount.digits())
}

/// The amounts are those that the markets of the queue can be merged for.
pub open spec fn amounts_fit(
    positions: Seq<Position>,
    queue: Seq<MergeInfo<int>>,
    amounts: Seq<decimal::Digits>,
) -> bool {
    &&& amounts.len() == queue.len()
    &&& forall|i: int|
        0 <= i < queue.len() ==> merge_digits(positions, queue[i].condition_id) == Some(#[trigger] amounts[i])
}

/// A market can be merged where both its sides are held.
pub proof fn mergeable_iff_both_sides(positions: Seq<Position<int, Seq<char>>>, id: B256)
    ensures
        both_sides(positions, id) <==> info_of(positions, id) is Some,
{
}

/// The market of a held side is among the markets of the positions.
proof fn lemma_side_listed(positions: Seq<Position<int, Seq<char>>>, id: B256, outcome: i32)
    ensures
        side(positions, id, outcome) is Some ==> exists|i: int|
            0 <= i < positions.len() && (#[trigger] positions[i]).condition_id == id,
    decreases positions.len(),
{
    if positions.len() > 0 {
        let p = positions.last();
        if p.size > 0 && p.condition_id == id && p.outcome_index == outcome {
            assert(positions[positions.len() - 1].condition_id == id);
        } else {
            lemma_side_listed(positions.drop_last(), id, outcome);
            if side(positions.drop_last(), id, outcome) is Some {
                let i = choose|i: int|
                    0 <= i < positions.len() - 1 && (#[trigger] positions.drop_last()[i]).condition_id == id;
                assert(positions[i].condition_id == id);
            }
        }
    }
}

/// The last position of more than zero shares on one side of a market.
fn find_side(positions: &Vec<Position>, id: B256, outcome: i32) -> (r: Option<(U256, Decimal)>)
    ensures
        (match r {
            Some((asset, size)) => Some((asset, size@)),
            None => None,
        }) == side(positions::position_views(positions@), id, outcome),
        (match r {
            Some((_, size)) => Some(size.digits()),
            None => None,
        }) == side_digits(positions@, id, outcome),
{
    let ghost all = positions::position_views(positions@);
    let mut i: usize = positions.len();
    assert(all.take(i as int) =~= all);
    assert(positions@.take(i as int) =~= positions@);
    while i > 0
        invariant
            i <= positions@.len(),
            all == positions::position_views(positions@),
            side(all, id, outcome) == side(all.take(i as int), id, outcome),
            side_digits(positions@, id, outcome) == side_digits(positions@.take(i as int), id, outcome),
        decreases i,
    {
        let p = &positions[i - 1];
        assert(all.take(i as int).last() == p@);
        assert(all.take(i as int).drop_last() =~= all.take(i - 1));
        assert(positions@.take(i as int).last() == *p);
        assert(positions@.take(i as int).drop_last() =~= positions@.take(i - 1));
        if p.size > Decimal::zero() && p.condition_id == id && p.outcome_index == outcome {
            return Some((p.asset, p.size));
        }
        i -= 1;
    }
    None
}

/// What a market can be merged for: outcomes 1 and 2 where both are held, or else 0 and 1.
fn find_info(positions: &Vec<Position>, id: B256) -> (r: Option<MergeInfo>)
    ensures
        (match r {
            Some(info) => Some(info@),
            None => None,
        }) == info_of(positions::position_views(positions@), id),
        r matches Some(info) ==> Some(info.amount.digits()) == merge_digits(positions@, id),
{
    let first = find_side(positions, id, 0);
    let second = find_side(positions, id, 1);
    let third = find_side(positions, id, 2);
    match (second, third) {
        (Some(yes), Some(no)) => Some(
            MergeInfo {
                condition_id: id,
                yes_token: yes.0,
                no_token: no.0,
                amount: yes.1.min(no.1),
            },
        ),
        _ => match (first, second) {
            (Some(yes), Some(no)) => Some(
                MergeInfo {
                    condition_id: id,
                    yes_token: yes.0,
                    no_token: no.0,
                    amount: yes.1.min(no.1),
                },
            ),
            _ => None,
        },
    }
}

/// The infos, with the numbers in atoms.
pub open spec fn info_views(infos: Seq<MergeInfo>) -> Seq<MergeInfo<int>> {
    infos.map_values(|i: MergeInfo| i@)
}

/// Every market that can be merged stands in the list once, with what it can be merged for, and no
/// other.
pub open spec fn lists_infos(positions: Seq<Position<int, Seq<char>>>, infos: Seq<MergeInfo<int>>) -> bool {
    &&& forall|i: int|
        0 <= i < infos.len() ==> info_of(positions, (#[trigger] infos[i]).condition_id) == Some(infos[i])
    &&& forall|i: int, j: int|
        0 <= i < j < infos.len() ==> (#[trigger] infos[i]).condition_id != (#[trigger] infos[j]).condition_id
    &&& forall|id: B256|
        #![trigger info_of(positions, id)]
        info_of(positions, id) is Some ==> exists|i: int|
            0 <= i < infos.len() && (#[trigger] infos[i]).condition_id == id
}

/// Whether the list speaks of a market.
fn has_info(infos: &Vec<MergeInfo>, id: B256) -> (r: bool)
    ensures
        r == exists|i: int| 0 <= i < infos@.len() && (#[trigger] info_views(infos@)[i]).condition_id == id,
{
    let mut i: usize = 0;
    while i < infos.len()
        invariant
            i <= infos@.len(),
            forall|j: int| 0 <= j < i ==> (#[trigger] info_views(infos@)[j]).condition_id != id,
        decreases infos@.len() - i,
    {
        if infos[i].condition_id == id {
            assert(info_views(infos@)[i as int].condition_id == id);
            return true;
        }
        i += 1;
    }
    false
}

/// What each market of which both sides are held can be merged for; in the order in which the markets
/// first appear.
pub fn merge_info_with_both_sides(positions: &Vec<Position>) -> (r: Vec<MergeInfo>)
    ensures
        lists_infos(positions::position_views(positions@), info_views(r@)),
        amounts_fit(positions@, info_views(r@), amounts_of(r@)),
{
    let ghost all = positions::position_views(positions@);
    let mut infos: Vec<MergeInfo> = Vec::new();
    let mut i: usize = 0;
    while i < positions.len()
        invariant
            i <= positions@.len(),
            all == positions::position_views(positions@),
            forall|j: int|
                0 <= j < infos@.len() ==> info_of(all, (#[trigger] info_views(infos@)[j]).condition_id) == Some(
                    info_views(infos@)[j],
                ),
            amounts_fit(positions@, info_views(infos@), amounts_of(infos@)),
            forall|j: int, k: int|
                0 <= j < k < infos@.len() ==> (#[trigger] info_views(infos@)[j]).condition_id != (
                #[trigger] info_views(infos@)[k]).condition_id,
            forall|j: int|
                0 <= j < i ==> info_of(all, (#[trigger] all[j]).condition_id) is Some ==> exists|k: int|
                    0 <= k < infos@.len() && (#[trigger] info_views(infos@)[k]).condition_id
                        == all[j].condition_id,
        decreases positions@.len() - i,
    {
        let id = positions[i].condition_id;
        assert(all[i as int].condition_id == id);
        let ghost before = info_views(infos@);
        let ghost amounts = amounts_of(infos@);
        if !has_info(&infos, id) {
            match find_info(positions, id) {
                Some(info) => {
                    assert(info@.condition_id == id);
                    infos.push(info);
                    assert(info_views(infos@) =~= before.push(info@));
                    assert(amounts_of(infos@) =~= amounts.push(info.amount.digits()));
                    assert(info_views(infos@)[before.len() as int].condition_id == id);
                    assert forall|j: int| 0 <= j < i && info_of(all, (#[trigger] all[j]).condition_id) is Some implies exists|
                        k: int,
                    |
                        0 <= k < infos@.len() && (#[trigger] info_views(infos@)[k]).condition_id
                            == all[j].condition_id by {
                        let k = choose|k: int|
                            0 <= k < before.len() && (#[trigger] before[k]).condition_id
                                == all[j].condition_id;
                        assert(info_views(infos@)[k] == before[k]);
                    }
                },
                None => {},
            }
        }
        i += 1;
    }
    assert forall|id: B256| #[trigger] info_of(all, id) is Some implies exists|k: int|
        0 <= k < infos@.len() && (#[trigger] info_views(infos@)[k]).condition_id == id by {
        lemma_side_listed(all, id, 1);
        let j = choose|j: int| 0 <= j < all.len() && (#[trigger] all[j]).condition_id == id;
        assert(info_of(all, all[j].condition_id) is Some);
    }
    infos
}

/// The markets of which both sides are held, each once.
pub fn condition_ids_with_both_sides(positions: &Vec<Position>) -> (r: Vec<B256>)
    ensures
        r@.no_duplicates(),
        forall|id: B256| #[trigger]
            r@.contains(id) <==> both_sides(positions::position_views(positions@), id),
{
    let ghost all = positions::position_views(positions@);
    let infos = merge_info_with_both_sides(positions);
    let ghost views = info_views(infos@);
    let mut ids: Vec<B256> = Vec::new();
    let mut i: usize = 0;
    while i < infos.len()
        invariant
            i <= infos@.len(),
            ids@.len() == i,
            views == info_views(infos@),
            forall|j: int| 0 <= j < i ==> #[trigger] ids@[j] == views[j].condition_id,
        decreases infos@.len() - i,
    {
        ids.push(infos[i].condition_id);
        assert(views[i as int].condition_id == ids@[i as int]);
        i += 1;
    }
    assert forall|id: B256| #[trigger] ids@.contains(id) <==> both_sides(all, id) by {
        mergeable_iff_both_sides(all, id);
        if ids@.contains(id) {
            let j = choose|j: int| 0 <= j < ids@.len() && ids@[j] == id;
            assert(views[j].condition_id == id);
        }
        if info_of(all, id) is Some {
            let j = choose|j: int| 0 <= j < views.len() && (#[trigger] views[j]).condition_id == id;
            assert(ids@[j] == id);
        }
    }
    ids
}

/// What is tracked after a merge, and whether all of it could be booked: first the costs of both sides
/// come down, by what is held before the merge, and then the shares.
pub open spec fn merged(tracker: TrackerView, info: MergeInfo<int>) -> (TrackerView, bool) {
    match tracker.update_exposure_cost(info.yes_token, 0, -info.amount) {
        None => (tracker, false),
        Some(a) => match a.update_exposure_cost(info.no_token, 0, -info.amount) {
            None => (a, false),
            Some(b) => match b.update_position(info.yes_token, -info.amount) {
                None => (b, false),
                Some(c) => match c.update_position(info.no_token, -info.amount) {
                    None => (c, false),
                    Some(d) => (d, true),
                },
            },
        },
    }
}

/// What is tracked, with decimal places, after a merge of so many shares.
pub open spec fn ledger_merged(
    ledger: Ledger,
    yes_token: U256,
    no_token: U256,
    amount: decimal::Digits,
) -> Ledger {
    let delta = decimal::Digits { atoms: -amount.atoms, ..amount };
    match ledger.charged(yes_token, decimal::no_digits(), delta) {
        None => ledger,
        Some(a) => match a.charged(no_token, decimal::no_digits(), delta) {
            None => a,
            Some(b) => match b.booked(yes_token, delta) {
                None => b,
                Some(c) => c.with(c.booked(no_token, delta)),
            },
        },
    }
}

/// Books a merge. `None` where a step is out of range; the steps before it stay booked.
pub fn book_merge(tracker: &mut PositionTracker, info: &MergeInfo) -> (r: Option<()>)
    ensures
        (final(tracker)@, r is Some) == merged(old(tracker)@, info@),
        final(tracker).ledger() == ledger_merged(
            old(tracker).ledger(),
            info.yes_token,
            info.no_token,
            info.amount.digits(),
        ),
        ({
            let (before, after) = (old(tracker)@, final(tracker)@);
            info@.amount > 0 && before.cost(info.yes_token) >= 0 && before.cost(info.no_token) >= 0 ==> {
                &&& after.cost(info.yes_token) <= before.cost(info.yes_token)
                &&& after.cost(info.no_token) <= before.cost(info.no_token)
            }
        }),
{
    let delta = info.amount.neg();
    let zero = Decimal::zero();
    tracker.update_exposure_cost(info.yes_token, zero, delta)?;
    tracker.update_exposure_cost(info.no_token, zero, delta)?;
    tracker.update_position(info.yes_token, delta)?;
    tracker.update_position(info.no_token, delta)
}

/// The error says that the node was asked too fast.
pub open spec fn rate_limited(error: Seq<char>) -> bool {
    text::has_part(error, "rate limit"@) || text::has_part(error, "retry in"@)
}

/// What the merge task does next.
#[derive(Clone, Copy, Debug, PartialEq, Eq, Structural)]
pub enum MergeAction {
    /// It waits.
    Sleep { secs: u64 },
    /// It asks for the positions.
    FetchPositions,
    /// It merges a market.
    Merge { condition_id: B256 },
    /// Nothing: the event does not belong here.
    Ignore,
}

/// Where the merge task stands.
#[derive(Clone, Copy, Debug, PartialEq, Eq, Structural)]
pub enum MergePhase {
    /// Between two rounds.
    Asleep,
    /// Waiting for the positions.
    Fetching,
    /// Waiting before the market at this place of the queue.
    Pausing { next: usize },
    /// Merging the market at this place of the queue, for the second time or not.
    Merging { at: usize, retried: bool },
    /// Waiting before the market at this place of the queue is tried again.
    BackingOff { at: usize },
}

/// The merge task, with the numbers in atoms.
#[verifier::ext_equal]
pub struct MergeTaskView {
    /// Seconds between two rounds.
    pub interval_secs: u64,
    pub phase: MergePhase,
    /// What this round merges.
    pub queue: Seq<MergeInfo<int>>,
}

impl MergeTaskView {
    /// The wait is over. A round starts with the positions, unless they are being wound down.
    pub open spec fn woke(self, wind_down: bool) -> (MergeTaskView, MergeAction) {
        match self.phase {
            MergePhase::Asleep => if wind_down {
                (self, MergeAction::Sleep { secs: self.interval_secs })
            } else {
                (MergeTaskView { phase: MergePhase::Fetching, ..self }, MergeAction::FetchPositions)
            },
            MergePhase::Pausing { next } => (
                MergeTaskView { phase: MergePhase::Merging { at: next, retried: false }, ..self },
                MergeAction::Merge { condition_id: self.queue[next as int].condition_id },
            ),
            MergePhase::BackingOff { at } => (
                MergeTaskView { phase: MergePhase::Merging { at, retried: true }, ..self },
                MergeAction::Merge { condition_id: self.queue[at as int].condition_id },
            ),
            _ => (self, MergeAction::Ignore),
        }
    }

    /// The round is over.
    pub open spec fn round_over(self) -> (MergeTaskView, MergeAction) {
        (
            MergeTaskView { phase: MergePhase::Asleep, ..self },
            MergeAction::Sleep { secs: self.interval_secs },
        )
    }

    /// The positions are there, with what can be merged, or they could not be had.
    pub open spec fn fetched(self, infos: Option<Seq<MergeInfo<int>>>) -> (MergeTaskView, MergeAction) {
        match (self.phase, infos) {
            (MergePhase::Fetching, None) => self.round_over(),
            (MergePhase::Fetching, Some(queue)) => if queue.len() == 0 {
                MergeTaskView { queue, ..self }.round_over()
            } else {
                (
                    MergeTaskView { phase: MergePhase::Merging { at: 0, retried: false }, queue, ..self },
                    MergeAction::Merge { condition_id: queue[0].condition_id },
                )
            },
            _ => (self, MergeAction::Ignore),
        }
    }

    /// The market at a place of the queue is done with.
    pub open spec fn next(self, at: int) -> (MergeTaskView, MergeAction) {
        if at + 1 < self.queue.len() {
            (
                MergeTaskView { phase: MergePhase::Pausing { next: (at + 1) as usize }, ..self },
                MergeAction::Sleep { secs: DELAY_BETWEEN_MERGES },
            )
        } else {
            self.round_over()
        }
    }

    /// The market was merged, or there was an error. After the first error for coming too fast it is
    /// tried once more.
    pub open spec fn answered(self, error: Option<Seq<char>>) -> (MergeTaskView, MergeAction) {
        match self.phase {
            MergePhase::Merging { at, retried } => match error {
                Some(e) if !retried && rate_limited(e) => (
                    MergeTaskView { phase: MergePhase::BackingOff { at }, ..self },
                    MergeAction::Sleep { secs: RATE_LIMIT_BACKOFF },
                ),
                _ => self.next(at as int),
            },
            _ => (self, MergeAction::Ignore),
        }
    }

    /// What is tracked after the answer, and whether all of it could be booked: only a merge counts.
    pub open spec fn booked(self, error: Option<Seq<char>>, tracker: TrackerView) -> (TrackerView, bool) {
        match (self.phase, error) {
            (MergePhase::Merging { at, .. }, None) => merged(tracker, self.queue[at as int]),
            _ => (tracker, true),
        }
    }
}

/// Merges, round by round, what can be merged.
pub struct MergeTask {
    interval_secs: u64,
    phase: MergePhase,
    queue: Vec<MergeInfo>,
}

impl View for MergeTask {
    type V = MergeTaskView;

    closed spec fn view(&self) -> MergeTaskView {
        MergeTaskView {
            interval_secs: self.interval_secs,
            phase: self.phase,
            queue: info_views(self.queue@),
        }
    }
}

impl MergeTask {
    /// The amounts of the queue, with decimal places.
    pub closed spec fn amounts(self) -> Seq<decimal::Digits> {
        amounts_of(self.queue@)
    }

    /// Places of the queue are there.
    #[verifier::type_invariant]
    spec fn wf(self) -> bool {
        match self.phase {
            MergePhase::Pausing { next } => next < self.queue@.len(),
            MergePhase::Merging { at, .. } => at < self.queue@.len(),
            MergePhase::BackingOff { at } => at < self.queue@.len(),
            _ => true,
        }
    }

    /// A task with this many minutes between two rounds, and its first wait. `None` where the seconds are
    /// out of range.
    pub fn start(interval_minutes: u64) -> (r: Option<(Self, MergeAction)>)
        ensures
            r is Some <==> interval_minutes * 60 <= u64::MAX,
            r matches Some((task, action)) ==> {
                &&& task@.interval_secs == interval_minutes * 60
                &&& task@.phase is Asleep
                &&& task@.queue == Seq::<MergeInfo<int>>::empty()
                &&& action == MergeAction::Sleep { secs: INITIAL_DELAY }
            },
    {
        let interval_secs = interval_minutes.checked_mul(60)?;
        let task = MergeTask { interval_secs, phase: MergePhase::Asleep, queue: Vec::new() };
        assert(task@.queue =~= Seq::<MergeInfo<int>>::empty());
        Some((task, MergeAction::Sleep { secs: INITIAL_DELAY }))
    }

    /// The wait is over, while positions are being wound down or not.
    pub fn on_wake(&mut self, wind_down: bool) -> (r: MergeAction)
        ensures
            (final(self)@, r) == old(self)@.woke(wind_down),
            final(self).amounts() == old(self).amounts(),
    {
        proof {
            use_type_invariant(&*self);
        }
        match self.phase {
            MergePhase::Asleep => if wind_down {
                MergeAction::Sleep { secs: self.interval_secs }
            } else {
                self.phase = MergePhase::Fetching;
                MergeAction::FetchPositions
            },
            MergePhase::Pausing { next } => {
                self.phase = MergePhase::Merging { at: next, retried: false };
                MergeAction::Merge { condition_id: self.queue[next].condition_id }
            },
            MergePhase::BackingOff { at } => {
                self.phase = MergePhase::Merging { at, retried: true };
                MergeAction::Merge { condition_id: self.queue[at].condition_id }
            },
            _ => MergeAction::Ignore,
        }
    }

    /// The positions are there, or they could not be had.
    pub fn on_positions(&mut self, positions: Option<&Vec<Position>>) -> (r: MergeAction)
        ensures
            match positions {
                None => (final(self)@, r) == old(self)@.fetched(None),
                Some(ps) => exists|infos: Seq<MergeInfo<int>>| #[trigger]
                    lists_infos(positions::position_views(ps@), infos) && (final(self)@, r)
                        == old(self)@.fetched(Some(infos)),
            },
            match (old(self)@.phase, positions) {
                (MergePhase::Fetching, Some(ps)) => amounts_fit(ps@, final(self)@.queue, final(self).amounts()),
                _ => final(self).amounts() == old(self).amounts(),
            },
    {
        let infos = match positions {
            Some(ps) => Some(merge_info_with_both_sides(ps)),
            None => None,
        };
        assert(positions matches Some(ps) ==> lists_infos(
            positions::position_views(ps@),
            info_views((infos->0)@),
        ));
        match self.phase {
            MergePhase::Fetching => {},
            _ => return MergeAction::Ignore,
        }
        match infos {
            None => {
                self.phase = MergePhase::Asleep;
                MergeAction::Sleep { secs: self.interval_secs }
            },
            Some(queue) => {
                if queue.len() == 0 {
                    self.queue = queue;
                    self.phase = MergePhase::Asleep;
                    MergeAction::Sleep { secs: self.interval_secs }
                } else {
                    let condition_id = queue[0].condition_id;
                    self.queue = queue;
                    self.phase = MergePhase::Merging { at: 0, retried: false };
                    MergeAction::Merge { condition_id }
                }
            },
        }
    }

    /// The market was merged, or there was an error. What was merged is booked; the second result says
    /// whether all of it could be.
    pub fn on_merge(&mut self, error: Option<&str>, tracker: &mut PositionTracker) -> (r: (MergeAction, bool))
        ensures
            ({
                let e = match error {
                    Some(e) => Some(e@),
                    None => None,
                };
                &&& (final(self)@, r.0) == old(self)@.answered(e)
                &&& (final(tracker)@, r.1) == old(self)@.booked(e, old(tracker)@)
            }),
            final(self).amounts() == old(self).amounts(),
            final(tracker).ledger() == match (old(self)@.phase, error) {
                (MergePhase::Merging { at, .. }, None) => ledger_merged(
                    old(tracker).ledger(),
                    old(self)@.queue[at as int].yes_token,
                    old(self)@.queue[at as int].no_token,
                    old(self).amounts()[at as int],
                ),
                _ => old(tracker).ledger(),
            },
    {
        proof {
            use_type_invariant(&*self);
        }
        let (at, retried) = match self.phase {
            MergePhase::Merging { at, retried } => (at, retried),
            _ => return (MergeAction::Ignore, true),
        };
        let waiting = self.queue.len() - at;
        let mut booked = true;
        match error {
            None => {
                booked = book_merge(tracker, &self.queue[at]).is_some();
            },
            Some(e) => {
                if !retried && (contains(e, "rate limit") || contains(e, "retry in")) {
                    self.phase = MergePhase::BackingOff { at };
                    return (MergeAction::Sleep { secs: RATE_LIMIT_BACKOFF }, true);
                }
            },
        }
        if waiting > 1 {
            self.phase = MergePhase::Pausing { next: at + 1 };
            (MergeAction::Sleep { secs: DELAY_BETWEEN_MERGES }, booked)
        } else {
            self.phase = MergePhase::Asleep;
            (MergeAction::Sleep { secs: self.interval_secs }, booked)
        }
    }
}

/// A market is merged only after a wait or as the first of its round: no merge follows another at once.
pub proof fn merges_are_spaced(task: MergeTaskView, error: Option<Seq<char>>)
    ensures
        task.answered(error).1 !is Merge,
        task.answered(error).1 matches MergeAction::Sleep { secs } ==> secs == DELAY_BETWEEN_MERGES || secs
            == RATE_LIMIT_BACKOFF || secs == task.interval_secs,
{
}

/// While positions are wound down no round of merging starts.
pub proof fn no_round_during_wind_down(task: MergeTaskView)
    requires
        task.phase is Asleep,
    ensures
        task.woke(true) == (task, MergeAction::Sleep { secs: task.interval_secs }),
{
}

/// A market is tried at most twice in a round.
pub proof fn one_retry(task: MergeTaskView, at: usize, error: Option<Seq<char>>)
    requires
        task.phase == (MergePhase::Merging { at, retried: true }),
    ensures
        task.answered(error) == task.next(at as int),
{
}

/// A failed merge books nothing.
pub proof fn failed_merge_books_nothing(task: MergeTaskView, error: Seq<char>, tracker: TrackerView)
    ensures
        task.booked(Some(error), tracker) == (tracker, true),
{
}

/// A merge does not raise the cost of either side, and leaves every other token as it is.
pub proof fn merge_does_not_raise_costs(tracker: TrackerView, info: MergeInfo<int>, other: U256)
    requires
        info.amount > 0,
        info.yes_token != info.no_token,
        other != info.yes_token,
        other != info.no_token,
        risk::positions::costs_are_kept(tracker),
        risk::positions::costs_are_decimals(tracker),
    ensures
        ({
            let (after, _) = merged(tracker, info);
            &&& after.cost(info.yes_token) <= tracker.cost(info.yes_token)
            &&& after.cost(info.no_token) <= tracker.cost(info.no_token)
            &&& after.cost(other) == tracker.cost(other)
            &&& after.position(other) == tracker.position(other)
        }),
{
    assert(decimal::representable(0)) by {
        assert(0 == 0 * decimal::pow10(0));
    }
    risk::positions::sale_does_not_raise_cost(tracker, info.yes_token, 0, info.amount);
    match tracker.update_exposure_cost(info.yes_token, 0, -info.amount) {
        Some(a) => {
            risk::positions::sale_does_not_raise_cost(a, info.no_token, 0, info.amount);
        },
        None => {},
    }
}

} // verus!
