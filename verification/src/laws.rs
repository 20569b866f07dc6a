//! What holds of every uptime query, whatever the system reports.

use vstd::prelude::*;
use crate::elapsed::{listing_uptime, text_uptime};
use crate::filetime::{process_times_uptime, ticks_uptime, FileTime};
use crate::timestamp::{clock_uptime, modified_time_uptime};
use crate::uptime::{Uptime, uptime_nanos};

verus! {

/// A query over the process times reports no negative uptime, and neither
/// does the count of ticks that it rests on.
pub proof fn lemma_process_times_uptime_non_negative(
    handle: int,
    creation: Option<FileTime>,
    system: Option<FileTime>,
    start: int,
    now: int,
)
    ensures
        process_times_uptime(handle, creation, system) matches Some(nanos) ==> nanos >= 0,
        ticks_uptime(start, now) matches Some(nanos) ==> nanos >= 0,
{
}

/// A query over the last-modified time reports no negative uptime, and
/// neither does the difference of instants that it rests on.
pub proof fn lemma_modified_time_uptime_non_negative(
    modified: Option<int>,
    now: Option<int>,
    created: int,
    seen: int,
)
    ensures
        modified_time_uptime(modified, now) matches Some(nanos) ==> nanos >= 0,
        clock_uptime(created, seen) matches Some(nanos) ==> nanos >= 0,
{
}

/// A process listing reports no negative uptime, neither as bytes nor as
/// text.
pub proof fn lemma_listing_uptime_non_negative(output: Seq<u8>, text: Seq<char>)
    ensures
        listing_uptime(output) matches Some(nanos) ==> nanos >= 0,
        text_uptime(text) matches Some(nanos) ==> nanos >= 0,
{
}

/// Between two queries of one process, the second no earlier than the first,
/// an uptime counted from ticks does not shrink. It grows by the time between
/// the two, rounded down to whole milliseconds, or by one millisecond more.
pub proof fn lemma_ticks_uptime_advances(start: int, first: int, second: int)
    requires
        start <= first <= second,
    ensures
        ticks_uptime(start, first) is Some,
        ticks_uptime(start, second) is Some,
        ticks_uptime(start, second)->0 - ticks_uptime(start, first)->0 >= ((second - first)
            / 10_000) * 1_000_000,
        ticks_uptime(start, second)->0 - ticks_uptime(start, first)->0 <= ((second - first)
            / 10_000) * 1_000_000 + 1_000_000,
{
}

/// Between two queries of one process, the second no earlier than the first,
/// an uptime taken from the wall clock grows by exactly the time between the
/// two.
pub proof fn lemma_clock_uptime_advances(created: int, first: int, second: int)
    requires
        created <= first <= second,
    ensures
        clock_uptime(created, first) is Some,
        clock_uptime(created, second) is Some,
        clock_uptime(created, second)->0 - clock_uptime(created, first)->0 == second - first,
{
}

/// A query in which a reading failed reports no uptime: not over the process
/// times, where the handle is null or a file time is missing, and not over
/// the last-modified time, where an instant is missing.
pub proof fn lemma_failed_reading_gives_none(
    handle: int,
    creation: Option<FileTime>,
    system: Option<FileTime>,
    modified: Option<int>,
    now: Option<int>,
)
    ensures
        handle == 0 || creation is None || system is None ==> process_times_uptime(
            handle,
            creation,
            system,
        ) is None,
        modified is None || now is None ==> modified_time_uptime(modified, now) is None,
{
}

/// A query whose readings all succeeded reports an uptime unless the clock
/// lies before the start of the process; a process seen at the instant of its
/// start has the uptime zero, which is an uptime.
pub proof fn lemma_good_readings_give_some(
    handle: int,
    creation: FileTime,
    system: FileTime,
    modified: int,
    now: int,
)
    ensures
        handle != 0 && creation.ticks_spec() <= system.ticks_spec() ==> process_times_uptime(
            handle,
            Some(creation),
            Some(system),
        ) is Some,
        handle != 0 ==> process_times_uptime(handle, Some(creation), Some(creation)) == Some(0int),
        modified <= now ==> modified_time_uptime(Some(modified), Some(now)) is Some,
        modified_time_uptime(Some(modified), Some(modified)) == Some(0int),
{
}

/// The contract of a query leaves room for one result. Two results that
/// stand for the same span, as the results of two queries over the same
/// readings do, are the same value, whichever variant of the query gave them.
pub proof fn lemma_result_is_determined(first: Option<Uptime>, second: Option<Uptime>)
    requires
        first matches Some(u) ==> u.wf(),
        second matches Some(u) ==> u.wf(),
        uptime_nanos(first) == uptime_nanos(second),
    ensures
        first == second,
{
    if let (Some(a), Some(b)) = (first, second) {
        Uptime::lemma_view_injective(a, b);
    }
}

} // verus!
