//! What holds of merging: which markets can be merged and for how much, what is booked, and how a round runs.
use vstd::prelude::*;

use crate::decimal;
use crate::merge;
use crate::merge::{MergeAction, MergeInfo, MergePhase, MergeTaskView};
use crate::positions::Position;
use crate::risk;
use crate::risk::positions::TrackerView;
use crate::text;
use crate::types::B256;

verus! {

/// A position of the market, with shares, is the one that counts for its side from then on; other sides and
/// other markets are as they were, and positions without shares do not count.
pub proof fn later_position_counts(
    positions: Seq<Position<int, Seq<char>>>,
    p: Position<int, Seq<char>>,
    id: B256,
    outcome: i32,
)
    ensures
        ({
            let after = merge::side(positions.push(p), id, outcome);
            let counts = p.condition_id == id && p.outcome_index == outcome && p.size > 0;
            &&& counts ==> after == Some((p.asset, p.size))
            &&& !counts ==> after == merge::side(positions, id, outcome)
        }),
        merge::side(Seq::<Position<int, Seq<char>>>::empty(), id, outcome) is None,
{
    assert(positions.push(p).drop_last() =~= positions);
}

/// A market can be merged for as many shares as both sides have: not more than either, and all of one. YES is
/// the outcome of the lower number and NO that of the higher; with three outcomes, the last two count.
pub proof fn merged_amount_is_the_smaller_side(
    positions: Seq<Position<int, Seq<char>>>,
    id: B256,
    info: MergeInfo<int>,
)
    requires
        merge::info_of(positions, id) == Some(info),
    ensures
        info.condition_id == id,
        ({
            let (zero, one, two) = (
                merge::side(positions, id, 0),
                merge::side(positions, id, 1),
                merge::side(positions, id, 2),
            );
            &&& one is Some
            &&& two is Some || zero is Some
            &&& two matches Some((no_token, no)) ==> {
                &&& info.yes_token == (one->0).0
                &&& info.no_token == no_token
                &&& info.amount <= (one->0).1 && info.amount <= no
                &&& info.amount == (one->0).1 || info.amount == no
            }
            &&& two is None ==> {
                &&& info.yes_token == (zero->0).0
                &&& info.no_token == (one->0).0
                &&& info.amount <= (zero->0).1 && info.amount <= (one->0).1
                &&& info.amount == (zero->0).1 || info.amount == (one->0).1
            }
        }),
{
}

/// A market of which both sides are held can be merged, and one of which only one is held cannot.
pub proof fn two_sides_merge(p: Position<int, Seq<char>>, q: Position<int, Seq<char>>, id: B256)
    requires
        p.condition_id == id,
        q.condition_id == id,
        p.size > 0,
        q.size > 0,
        p.outcome_index + 1 == q.outcome_index,
        p.outcome_index == 0 || p.outcome_index == 1,
    ensures
        merge::info_of(seq![p, q], id) is Some,
        merge::info_of(seq![q, p], id) == merge::info_of(seq![p, q], id),
        merge::info_of(seq![p], id) is None,
        merge::info_of(seq![q], id) is None,
        (merge::info_of(seq![p, q], id)->0).yes_token == p.asset,
        (merge::info_of(seq![p, q], id)->0).no_token == q.asset,
{
    assert(seq![p, q].drop_last() =~= seq![p]);
    assert(seq![q, p].drop_last() =~= seq![q]);
    assert(seq![p].drop_last() =~= seq![]);
    assert(seq![q].drop_last() =~= seq![]);
    reveal_with_fuel(merge::side, 4);
}

/// A merge that is booked takes its amount off both sides, or all where less than 0.0001 would be left, and
/// where a side is merged in full, its cost is gone.
pub proof fn merge_takes_both_sides_down(tracker: TrackerView, info: MergeInfo<int>)
    requires
        info.amount > 0,
        info.yes_token != info.no_token,
        merge::merged(tracker, info).1,
        decimal::representable(tracker.position(info.yes_token) - info.amount),
        decimal::representable(tracker.position(info.no_token) - info.amount),
    ensures
        ({
            let after = merge::merged(tracker, info).0;
            let yes = tracker.position(info.yes_token) - info.amount;
            let no = tracker.position(info.no_token) - info.amount;
            let dust = decimal::atoms(1, 4);
            &&& after.position(info.yes_token) == if -dust < yes < dust {
                0
            } else {
                yes
            }
            &&& after.position(info.no_token) == if -dust < no < dust {
                0
            } else {
                no
            }
            &&& yes < dust && yes > -dust ==> after.cost(info.yes_token) == 0
            &&& no < dust && no > -dust ==> after.cost(info.no_token) == 0
            &&& yes <= 0 ==> after.cost(info.yes_token) == 0
            &&& no <= 0 ==> after.cost(info.no_token) == 0
            &&& after.max_exposure == tracker.max_exposure
        }),
{
    let yes = tracker.position(info.yes_token) - info.amount;
    let no = tracker.position(info.no_token) - info.amount;
    decimal::lemma_representable_exact(yes);
    decimal::lemma_representable_exact(no);
    if yes <= 0 {
        risk::positions::full_sale_clears_cost(tracker, info.yes_token, 0, info.amount);
    }
    match tracker.update_exposure_cost(info.yes_token, 0, -info.amount) {
        Some(a) => {
            assert(a.position(info.no_token) == tracker.position(info.no_token));
            if no <= 0 {
                risk::positions::full_sale_clears_cost(a, info.no_token, 0, info.amount);
            }
        },
        None => {},
    }
}

/// The cost that a merge leaves of a side is what a sale of as many shares at any price would leave.
pub proof fn merge_lowers_cost_like_a_sale(tracker: TrackerView, info: MergeInfo<int>, price: int)
    requires
        info.amount > 0,
        info.yes_token != info.no_token,
        merge::merged(tracker, info).1,
        tracker.position(info.yes_token) - info.amount >= decimal::atoms(1, 4),
        tracker.position(info.no_token) - info.amount >= decimal::atoms(1, 4),
        decimal::representable(tracker.position(info.yes_token) - info.amount),
        decimal::representable(tracker.position(info.no_token) - info.amount),
    ensures
        ({
            let after = merge::merged(tracker, info).0;
            &&& tracker.update_exposure_cost(info.yes_token, price, -info.amount) matches Some(t)
                && t.cost(info.yes_token) == after.cost(info.yes_token)
            &&& tracker.update_exposure_cost(info.no_token, price, -info.amount) matches Some(t)
                && t.cost(info.no_token) == after.cost(info.no_token)
        }),
{
    decimal::lemma_representable_exact(tracker.position(info.yes_token) - info.amount);
    decimal::lemma_representable_exact(tracker.position(info.no_token) - info.amount);
}

/// A round starts with the positions; each of its markets is merged in turn, half a minute apart. A merge that
/// the node refuses for coming too fast is tried once more after twelve seconds, and any other failure is
/// passed over. After the last market the task sleeps for its interval.
pub proof fn round_runs_in_turn(task: MergeTaskView, at: usize, retried: bool, error: Option<Seq<char>>)
    requires
        task.phase == (MergePhase::Merging { at, retried }),
        at < task.queue.len() <= usize::MAX,
    ensures
        ({
            let (next, action) = task.answered(error);
            let too_fast = error matches Some(e) && (text::has_part(e, "rate limit"@) || text::has_part(
                e,
                "retry in"@,
            ));
            &&& too_fast && !retried ==> {
                &&& action == (MergeAction::Sleep { secs: 12 })
                &&& next.woke(false).1 == (MergeAction::Merge { condition_id: task.queue[at as int].condition_id })
                &&& next.woke(false).0.phase == (MergePhase::Merging { at, retried: true })
            }
            &&& !(too_fast && !retried) && at + 1 < task.queue.len() ==> {
                &&& action == (MergeAction::Sleep { secs: 30 })
                &&& next.woke(false).1 == (MergeAction::Merge { condition_id: task.queue[at + 1].condition_id })
                &&& next.woke(false).0.phase == (MergePhase::Merging { at: (at + 1) as usize, retried: false })
            }
            &&& !(too_fast && !retried) && at + 1 == task.queue.len() ==> {
                &&& action == (MergeAction::Sleep { secs: task.interval_secs })
                &&& next.phase is Asleep
            }
            &&& next.queue == task.queue
            &&& next.interval_secs == task.interval_secs
        }),
{
}

/// After its sleep a task asks for the positions, and merges the first market that they allow; with none, it
/// sleeps on.
pub proof fn round_starts_with_the_positions(
    task: MergeTaskView,
    infos: Option<Seq<MergeInfo<int>>>,
)
    requires
        task.phase is Asleep,
    ensures
        task.woke(false).1 is FetchPositions,
        ({
            let (next, action) = task.woke(false).0.fetched(infos);
            &&& (infos matches Some(queue) && queue.len() > 0) ==> {
                &&& action == (MergeAction::Merge { condition_id: (infos->0)[0].condition_id })
                &&& next.phase == (MergePhase::Merging { at: 0, retried: false })
                &&& next.queue == infos->0
            }
            &&& !(infos matches Some(queue) && queue.len() > 0) ==> {
                &&& action == (MergeAction::Sleep { secs: task.interval_secs })
                &&& next.phase is Asleep
            }
        }),
{
}

/// A merge without an error is booked for the market that was merged.
pub proof fn merge_is_booked(task: MergeTaskView, at: usize, retried: bool, tracker: TrackerView)
    requires
        task.phase == (MergePhase::Merging { at, retried }),
    ensures
        task.booked(None, tracker) == merge::merged(tracker, task.queue[at as int]),
{
}

/// Both sides of a market are held where the outcome of number one is, and one beside it.
pub proof fn both_sides_are_neighbours(positions: Seq<Position<int, Seq<char>>>, id: B256)
    ensures
        merge::both_sides(positions, id) <==> merge::side(positions, id, 1) is Some && (merge::side(positions, id, 0) is Some
            || merge::side(positions, id, 2) is Some),
{
}

/// The list holds what each market can be merged for, each market once, and nothing else.
pub proof fn each_market_is_listed(positions: Seq<Position<int, Seq<char>>>, infos: Seq<MergeInfo<int>>, id: B256)
    requires
        merge::lists_infos(positions, infos),
    ensures
        merge::info_of(positions, id) matches Some(info) ==> infos.contains(info),
        merge::info_of(positions, id) is None ==> forall|i: int|
            0 <= i < infos.len() ==> (#[trigger] infos[i]).condition_id != id,
        infos.no_duplicates(),
{
    if merge::info_of(positions, id) is Some {
        let i = choose|i: int| 0 <= i < infos.len() && (#[trigger] infos[i]).condition_id == id;
        assert(infos[i] == merge::info_of(positions, id)->0);
    }
}

/// An error, or an answer while nothing is merged, books nothing.
pub proof fn nothing_else_is_booked(task: MergeTaskView, error: Option<Seq<char>>, tracker: TrackerView)
    requires
        error is Some || !(task.phase is Merging),
    ensures
        task.booked(error, tracker) == (tracker, true),
{
}

} // verus!
