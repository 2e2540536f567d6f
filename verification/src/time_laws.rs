//! What holds of spans of time.
use vstd::prelude::*;

use crate::time;

verus! {

/// A span has its whole seconds, and a broken one is dropped, whichever way it goes.
pub proof fn broken_second_is_dropped(nanos: int)
    ensures
        nanos >= 0 ==> time::whole_secs(nanos) * 1_000_000_000 <= nanos < (time::whole_secs(nanos) + 1) * 1_000_000_000,
        time::whole_secs(-nanos) == -time::whole_secs(nanos),
{
}

/// From an earlier reading to a later one there are so many nanoseconds, and the whole milliseconds in them; the
/// other way round there are none.
pub proof fn time_runs_forward(later: u64, earlier: u64)
    ensures
        later >= earlier ==> {
            let millis = time::millis_between(later, earlier);
            &&& earlier + time::nanos_since(later, earlier) == later
            &&& earlier + millis * 1_000_000 <= later < earlier + (millis + 1) * 1_000_000
        },
        later < earlier ==> time::nanos_since(later, earlier) == 0 && time::millis_between(later, earlier) == 0,
{
}

} // verus!
