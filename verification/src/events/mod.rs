//! Events: things that happen to groups on a schedule (publications,
//! votes, changes of the timetable) and the decisions they take.
use vstd::prelude::*;
use vstd::string::*;
use crate::types::{Id, Timespec, ShortInfo, CommonError, CommonResult};
use crate::parse_utils::{decimal, u64_to_string};

pub mod feed_types;
pub mod group_voting;
pub mod change_timetable;
pub mod events_collection;
pub mod publication;
pub mod late_publication;
pub mod group_creation;
pub mod invite_to_group;
pub mod join_to_group;
pub mod helpers;
pub mod time_store;
pub mod events_manager;

verus! {

/// The kinds of events.
#[derive(Clone, Copy, Debug, PartialEq, Eq, Structural)]
pub enum EventId {
    Publication,
    GroupCreation,
    LatePublication,
    GroupVoting,
    ChangeTimetable,
    UserInvite,
    JoinToGroup,
}

/// The number that stands for an event kind in the database and in URLs.
pub open spec fn spec_event_id_number(id: EventId) -> u64 {
    match id {
        EventId::Publication => 1,
        EventId::GroupCreation => 2,
        EventId::LatePublication => 3,
        EventId::GroupVoting => 4,
        EventId::ChangeTimetable => 5,
        EventId::UserInvite => 6,
        EventId::JoinToGroup => 7,
    }
}

/// The event kind that a number stands for, if any.
pub open spec fn spec_event_id_from_number(n: int) -> Option<EventId> {
    if n == 1 { Some(EventId::Publication) }
    else if n == 2 { Some(EventId::GroupCreation) }
    else if n == 3 { Some(EventId::LatePublication) }
    else if n == 4 { Some(EventId::GroupVoting) }
    else if n == 5 { Some(EventId::ChangeTimetable) }
    else if n == 6 { Some(EventId::UserInvite) }
    else if n == 7 { Some(EventId::JoinToGroup) }
    else { None }
}

impl EventId {
    /// The number of this event kind.
    pub fn number(self) -> (r: u64)
        ensures
            r == spec_event_id_number(self),
    {
        match self {
            EventId::Publication => 1,
            EventId::GroupCreation => 2,
            EventId::LatePublication => 3,
            EventId::GroupVoting => 4,
            EventId::ChangeTimetable => 5,
            EventId::UserInvite => 6,
            EventId::JoinToGroup => 7,
        }
    }

    /// The event kind with number `n`, if any.
    pub fn from_number(n: i64) -> (r: Option<EventId>)
        ensures
            r == spec_event_id_from_number(n as int),
    {
        if n == 1 { Some(EventId::Publication) }
        else if n == 2 { Some(EventId::GroupCreation) }
        else if n == 3 { Some(EventId::LatePublication) }
        else if n == 4 { Some(EventId::GroupVoting) }
        else if n == 5 { Some(EventId::ChangeTimetable) }
        else if n == 6 { Some(EventId::UserInvite) }
        else if n == 7 { Some(EventId::JoinToGroup) }
        else { None }
    }
}

/// Every kind is found again from its number.
pub proof fn law_event_id_number_roundtrip(id: EventId)
    ensures
        spec_event_id_from_number(spec_event_id_number(id) as int) == Some(id),
{
}

/// Where an event is in its life.
#[derive(Clone, Copy, Debug, PartialEq, Eq, Structural)]
pub enum EventState {
    Disabled,
    NotStartedYet,
    Active,
    Finished,
}

/// What an event waits for from a user.
#[derive(Clone, Copy, Debug, PartialEq, Eq, Structural)]
pub enum UserAction {
    /// nothing is asked of the user
    NoAction,
    Vote,
    Publication,
}

/// An event as it stands in the schedule.
pub struct ScheduledEventInfo {
    pub id: EventId,
    pub scheduled_id: Id,
    pub start_time: Timespec,
    pub end_time: Timespec,
    pub name: String,
    pub data: String,
    pub state: EventState,
    /// the group the event belongs to, if any
    pub group: Option<ShortInfo>,
    pub creator: Option<ShortInfo>,
}

/// An event to be put into the schedule.
pub struct FullEventInfo {
    pub id: EventId,
    pub name: String,
    pub start_time: Timespec,
    pub end_time: Timespec,
    pub data: String,
    /// the group the event belongs to, if any
    pub group: Option<Id>,
    pub creator: Option<Id>,
}

/// The link to the page of the scheduled event `id`: "/#event/<id>".
pub fn make_event_link(id: Id) -> (r: String)
    ensures
        r@ == "/#event/"@ + decimal(id as nat),
{
    let n = u64_to_string(id);
    String::from_str("/#event/").concat(n.as_str())
}

/// The group of a scheduled event, or the error that it has none.
pub fn get_group_id(body: &ScheduledEventInfo) -> (r: CommonResult<Id>)
    ensures
        body.group is Some ==> r is Ok && r->Ok_0 == body.group->0.id,
        body.group is None ==> r is Err && r->Err_0.0@ ==
            "group_id not found in ScheduledEventInfo id="@ + decimal(spec_event_id_number(body.id) as nat)
                + " scheduled_id="@ + decimal(body.scheduled_id as nat),
{
    match &body.group {
        Some(group) => Ok(group.id),
        None => {
            let id = u64_to_string(body.id.number());
            let scheduled = u64_to_string(body.scheduled_id);
            Err(CommonError(
                String::from_str("group_id not found in ScheduledEventInfo id=")
                    .concat(id.as_str())
                    .concat(" scheduled_id=")
                    .concat(scheduled.as_str()),
            ))
        },
    }
}

} // verus!
