//! Versions of the groups' timetables.
use vstd::prelude::*;
use crate::types::{Id, Timespec};
use crate::db::{multi_row_text, multi_row_query};

verus! {

/// An event of a timetable as stored: start and end in whole seconds.
pub struct TimetableEventInfo {
    pub group_id: Id,
    pub event_id: Id,
    pub event_name: String,
    pub start_time: Timespec,
    pub end_time: Timespec,
    pub params: String,
}

/// An event of a timetable as read from its row.
pub fn timetable_event_from_row(
    group_id: Id,
    event_id: Id,
    event_name: String,
    start_sec: i64,
    end_sec: i64,
    params: String,
) -> (r: TimetableEventInfo)
    ensures
        r.group_id == group_id,
        r.event_id == event_id,
        r.event_name@ == event_name@,
        r.start_time == (Timespec { sec: start_sec, nsec: 0 }),
        r.end_time == (Timespec { sec: end_sec, nsec: 0 }),
        r.params@ == params@,
{
    TimetableEventInfo {
        group_id,
        event_id,
        event_name,
        start_time: Timespec { sec: start_sec, nsec: 0 },
        end_time: Timespec { sec: end_sec, nsec: 0 },
        params,
    }
}

/// The version that a new timetable of a group gets: one after the highest
/// stored, the first when none is stored.
pub fn next_timetable_version(max_version: Option<u32>) -> (r: u32)
    requires
        max_version matches Some(v) ==> v < u32::MAX,
    ensures
        r == (match max_version { Some(v) => v + 1, None => 1 }),
{
    match max_version {
        Some(v) => v + 1,
        None => 1,
    }
}

/// The statement that stores a timetable of `count` events.
pub fn add_timetable_query(count: usize) -> (r: String)
    ensures
        r@ == multi_row_text(
            "INSERT INTO timetable ( group_id, event_id, event_name, start_time, end_time, params, version ) VALUES( ?, ?, ?, ?, ?, ?, ? )"@,
            ", ( ?, ?, ?, ?, ?, ?, ? )"@, count as nat),
{
    multi_row_query(
        "INSERT INTO timetable ( group_id, event_id, event_name, start_time, end_time, params, version ) VALUES( ?, ?, ?, ?, ?, ?, ? )",
        ", ( ?, ?, ?, ?, ?, ?, ? )",
        count,
    )
}

} // verus!
