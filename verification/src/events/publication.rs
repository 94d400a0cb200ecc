//! A publication: the members of a group publish one photo each.
use vstd::prelude::*;
use crate::types::{Id, Timespec};
use crate::parse_utils::{spec_add_days, add_days, timespec_lt, time_before};
use super::{EventId, UserAction};

verus! {

/// The publication event.
pub struct Publication;

/// The kind of the publication event.
pub const ID: EventId = EventId::Publication;

impl Publication {
    pub fn new() -> (r: Publication) {
        Publication
    }

    /// The kind of this event.
    pub fn id(&self) -> (r: EventId)
        ensures
            r == EventId::Publication,
    {
        ID
    }

    /// A publication never ends before its time.
    pub fn is_complete(&self) -> (r: bool)
        ensures
            !r,
    {
        false
    }

    /// A publication in a timetable takes no parameters.
    pub fn is_valid_params(&self, params: &String) -> (r: bool)
        ensures
            r == (params@.len() == 0),
    {
        params.as_str().is_empty()
    }

    /// The data of a publication made from a timetable entry: empty, or
    /// `None` when the parameters do not fit a publication (it takes none).
    pub fn from_timetable(&self, _group_id: Id, params: &String) -> (r: Option<String>)
        ensures
            params@.len() == 0 ==> r is Some && r->0@.len() == 0,
            params@.len() != 0 ==> r is None,
    {
        if self.is_valid_params(params) {
            Some(String::new())
        } else {
            None
        }
    }

    /// A publication at `time` opens a day before it and closes at it.
    pub fn time_gate(&self, time: &Timespec) -> (r: (Timespec, Timespec))
        requires
            time.sec - 86400 >= i64::MIN,
        ensures
            r.0 == spec_add_days(*time, -1),
            r.1 == *time,
    {
        (add_days(time, -1), *time)
    }
}

/// What a publication asks of a user: a photo while the user has not
/// published one yet.
pub fn get_user_action(is_unpublished: bool) -> (r: UserAction)
    ensures
        r == (if is_unpublished { UserAction::Publication } else { UserAction::NoAction }),
{
    match is_unpublished {
        true => UserAction::Publication,
        false => UserAction::NoAction,
    }
}

/// When a publication ends at `end_time`, the next publication, `next`, must
/// not start more than a day later: the new start time it gets, if any.
pub fn next_start_correction(end_time: &Timespec, next: Option<(Id, Timespec)>) -> (r: Option<(Id, Timespec)>)
    requires
        end_time.sec + 86400 <= i64::MAX,
    ensures
        next is None ==> r is None,
        next is Some ==> {
            let calced = spec_add_days(*end_time, 1);
            &&& timespec_lt(calced, (next->0).1) ==> r == Some(((next->0).0, calced))
            &&& !timespec_lt(calced, (next->0).1) ==> r is None
        },
{
    match next {
        Some((next_id, next_start_time)) => {
            let calced_start_time = add_days(end_time, 1);
            if time_before(&calced_start_time, &next_start_time) {
                Some((next_id, calced_start_time))
            } else {
                None
            }
        },
        None => None,
    }
}

/// Why a photo is not published.
#[derive(Clone, Copy, Debug, PartialEq, Eq, Structural)]
pub enum PublishRefusal {
    /// there is no such photo
    NotFound,
    /// the photo belongs to someone else
    AccessDenied,
    /// the photo is already in a publication
    AlreadyPublished,
}

/// Whether user `user_id` may publish the photo owned by `photo_owner`
/// (`None` when there is no such photo) that is already published or not.
pub fn check_publish(user_id: Id, photo_owner: Option<Id>, is_published: bool) -> (r: Result<(), PublishRefusal>)
    ensures
        photo_owner is None ==> r == Err::<(), PublishRefusal>(PublishRefusal::NotFound),
        photo_owner is Some && photo_owner->0 != user_id ==> r == Err::<(), PublishRefusal>(PublishRefusal::AccessDenied),
        photo_owner == Some(user_id) && is_published ==> r == Err::<(), PublishRefusal>(PublishRefusal::AlreadyPublished),
        photo_owner == Some(user_id) && !is_published ==> r is Ok,
{
    match photo_owner {
        Some(owner) => {
            if owner == user_id {
                if is_published { Err(PublishRefusal::AlreadyPublished) } else { Ok(()) }
            } else {
                Err(PublishRefusal::AccessDenied)
            }
        },
        None => Err(PublishRefusal::NotFound),
    }
}

/// A late publication is opened when some members have not published.
pub fn needs_late_publication(unpublished_users_count: usize) -> (r: bool)
    ensures
        r == (unpublished_users_count > 0),
{
    unpublished_users_count != 0
}

/// The state of a publication as its page shows it.
pub struct PublicationInfo {
    pub id: EventId,
    pub name: String,
    pub all_count: u32,
    pub published: u32,
}

/// The state of the publication `name`: members of the group and photos published.
pub fn make_info(name: &String, group_members_count: u32, published_photo_count: u32) -> (r: PublicationInfo)
    ensures
        r.id == EventId::Publication,
        r.name@ == name@,
        r.all_count == group_members_count,
        r.published == published_photo_count,
{
    PublicationInfo { id: ID, name: name.clone(), all_count: group_members_count, published: published_photo_count }
}

} // verus!
