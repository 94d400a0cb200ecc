//! A second chance for the members who missed a publication.
use vstd::prelude::*;
use vstd::string::*;
use crate::types::{Id, Timespec};
use crate::parse_utils::{spec_add_days, add_days};
use super::{EventId, FullEventInfo};

verus! {

/// The late publication event.
pub struct LatePublication;

/// The kind of the late publication event.
pub const ID: EventId = EventId::LatePublication;

/// What a late publication keeps: the publication it follows.
pub struct Info {
    pub parent_id: Id,
}

impl LatePublication {
    pub fn new() -> (r: LatePublication) {
        LatePublication
    }

    /// The kind of this event.
    pub fn id(&self) -> (r: EventId)
        ensures
            r == EventId::LatePublication,
    {
        ID
    }

    /// The data of a late publication that follows publication `parent_id`.
    pub fn make_info(parent_id: Id) -> (r: Info)
        ensures
            r.parent_id == parent_id,
    {
        Info { parent_id }
    }

    /// The late publication of `name` in group `group_id`, from `start_time`
    /// for `duration_days` days, with its encoded `Info`.
    pub fn create_info(
        group_id: Id,
        name: &str,
        start_time: Timespec,
        duration_days: i64,
        encoded_data: String,
    ) -> (r: FullEventInfo)
        requires
            -106751991167300 <= duration_days <= 106751991167300,
            i64::MIN <= start_time.sec + duration_days * 86400 <= i64::MAX,
        ensures
            r.id == EventId::LatePublication,
            r.name@ == "Догоняем "@ + name@,
            r.start_time == start_time,
            r.end_time == spec_add_days(start_time, duration_days as int),
            r.data@ == encoded_data@,
            r.group == Some(group_id),
            r.creator is None,
    {
        FullEventInfo {
            id: ID,
            name: String::from_str("Догоняем ").concat(name),
            start_time,
            end_time: add_days(&start_time, duration_days),
            data: encoded_data,
            group: Some(group_id),
            creator: None,
        }
    }

    /// The late publication ends early once every member has published.
    pub fn is_complete(&self, group_members_count: u32, published_photo_count: u32) -> (r: bool)
        ensures
            r == (group_members_count == published_photo_count),
    {
        group_members_count == published_photo_count
    }
}

} // verus!
