//! Which event kinds can do what.
use vstd::prelude::*;
use vstd::string::*;
use crate::types::{Id, CommonError, CommonResult};
use crate::parse_utils::{decimal, u64_to_string};
use super::{EventId, spec_event_id_number};

verus! {

fn not_found_error(prefix: &str, number: u64) -> (r: CommonError)
    ensures
        r.0@ == prefix@ + decimal(number as nat) + " not found."@,
{
    let n = u64_to_string(number);
    CommonError(String::from_str(prefix).concat(n.as_str()).concat(" not found."))
}

/// Event kinds that run on a schedule.
pub open spec fn is_scheduled_kind(id: EventId) -> bool {
    id == EventId::Publication || id == EventId::GroupCreation || id == EventId::LatePublication
        || id == EventId::GroupVoting
}

/// The event kind that handles scheduled events of kind `id`.
pub fn get_event(id: EventId) -> (r: CommonResult<EventId>)
    ensures
        is_scheduled_kind(id) ==> r == Ok::<EventId, CommonError>(id),
        !is_scheduled_kind(id) ==> r is Err && r->Err_0.0@ ==
            "EventsCollection, event with id="@ + decimal(spec_event_id_number(id) as nat) + " not found."@,
{
    match id {
        EventId::Publication | EventId::GroupCreation | EventId::LatePublication | EventId::GroupVoting => Ok(id),
        _ => Err(not_found_error("EventsCollection, event with id=", id.number())),
    }
}

/// The event kind that a group timetable entry with kind number `id` runs:
/// only publications can be put in a timetable.
pub fn get_timetable_event(id: Id) -> (r: CommonResult<EventId>)
    ensures
        id == spec_event_id_number(EventId::Publication) ==> r == Ok::<EventId, CommonError>(EventId::Publication),
        id != spec_event_id_number(EventId::Publication) ==> r is Err && r->Err_0.0@ ==
            "EventsCollection, timetable event with id="@ + decimal(id as nat) + " not found."@,
{
    if id == EventId::Publication.number() {
        Ok(EventId::Publication)
    } else {
        Err(not_found_error("EventsCollection, timetable event with id=", id))
    }
}

/// The event kind that a user creates by itself: only group creation.
pub fn get_user_created_event(id: EventId) -> (r: CommonResult<EventId>)
    ensures
        id == EventId::GroupCreation ==> r == Ok::<EventId, CommonError>(id),
        id != EventId::GroupCreation ==> r is Err && r->Err_0.0@ ==
            "EventsCollection, user creating event with id="@ + decimal(spec_event_id_number(id) as nat) + " not found."@,
{
    match id {
        EventId::GroupCreation => Ok(id),
        _ => Err(not_found_error("EventsCollection, user creating event with id=", id.number())),
    }
}

/// The event kind that a group vote decides on: only timetable changes.
pub fn get_change_by_voting(id: EventId) -> (r: CommonResult<EventId>)
    ensures
        id == EventId::ChangeTimetable ==> r == Ok::<EventId, CommonError>(id),
        id != EventId::ChangeTimetable ==> r is Err && r->Err_0.0@ ==
            "EventsCollection, change by voting event with id="@ + decimal(spec_event_id_number(id) as nat) + " not found."@,
{
    match id {
        EventId::ChangeTimetable => Ok(id),
        _ => Err(not_found_error("EventsCollection, change by voting event with id=", id.number())),
    }
}

/// The event kind that a member creates for a group: only timetable changes.
pub fn get_group_created_event(id: EventId) -> (r: CommonResult<EventId>)
    ensures
        id == EventId::ChangeTimetable ==> r == Ok::<EventId, CommonError>(id),
        id != EventId::ChangeTimetable ==> r is Err && r->Err_0.0@ ==
            "EventsCollection, group user creating event with id="@ + decimal(spec_event_id_number(id) as nat) + " not found."@,
{
    match id {
        EventId::ChangeTimetable => Ok(id),
        _ => Err(not_found_error("EventsCollection, group user creating event with id=", id.number())),
    }
}

} // verus!
