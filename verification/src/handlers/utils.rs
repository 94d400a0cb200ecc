//! Reading identifiers from the parameters of a request's path.
use vstd::prelude::*;
use crate::types::Id;
use crate::events::{EventId, spec_event_id_from_number};
use crate::parse_utils::{spec_parse_u64, parse_u64};

verus! {

/// The identifier written in a path parameter; `None` where the parameter is
/// missing or is no number.
pub fn parse_id(param: Option<&str>) -> (r: Option<Id>)
    ensures
        r == (match param { Some(p) => spec_parse_u64(p@), None => None }),
{
    match param {
        Some(p) => parse_u64(p),
        None => None,
    }
}

/// The event kind a path parameter names by its number.
pub open spec fn spec_parse_event_id(s: Seq<char>) -> Option<EventId> {
    match spec_parse_u64(s) {
        Some(n) => spec_event_id_from_number(n as int),
        None => None,
    }
}

/// The event kind named by a path parameter; `None` where the parameter is
/// missing or names no kind.
pub fn parse_event_id(param: Option<&str>) -> (r: Option<EventId>)
    ensures
        r == (match param { Some(p) => spec_parse_event_id(p@), None => None }),
{
    match param {
        Some(p) => match parse_u64(p) {
            Some(n) => if n <= 7 { EventId::from_number(n as i64) } else { None },
            None => None,
        },
        None => None,
    }
}

} // verus!
