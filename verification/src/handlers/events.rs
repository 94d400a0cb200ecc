//! Routes of events and the identifiers their paths carry.
use vstd::prelude::*;
use crate::types::Id;
use crate::events::EventId;
use crate::handlers::utils::{parse_id, parse_event_id, spec_parse_event_id};
use crate::parse_utils::spec_parse_u64;

verus! {

pub fn path() -> (r: &'static str)
    ensures
        r@ == "/event/:id"@,
{
    "/event/:id"
}

pub fn create_path() -> (r: &'static str)
    ensures
        r@ == "/events/create/:id"@,
{
    "/events/create/:id"
}

pub fn group_create_path() -> (r: &'static str)
    ensures
        r@ == "/events/group/:group_id/create/:id"@,
{
    "/events/group/:group_id/create/:id"
}

/// The group and the event kind of a group event's path; `None` where either
/// is missing or unreadable.
pub fn group_and_event_id(group_id: Option<&str>, id: Option<&str>) -> (r: Option<(Id, EventId)>)
    ensures
        r == (match (group_id, id) {
            (Some(g), Some(e)) => match (spec_parse_u64(g@), spec_parse_event_id(e@)) {
                (Some(gid), Some(eid)) => Some((gid, eid)),
                _ => None,
            },
            _ => None,
        }),
{
    match parse_id(group_id) {
        Some(gid) => match parse_event_id(id) {
            Some(eid) => Some((gid, eid)),
            None => None,
        },
        None => None,
    }
}

} // verus!
