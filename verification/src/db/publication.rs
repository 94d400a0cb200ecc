//! Photos published in answer to publication events.
use vstd::prelude::*;
use crate::types::Id;

verus! {

/// The values of one publication as stored.
#[derive(Clone, Copy, Debug, PartialEq, Eq, Structural)]
pub struct PublicationRow {
    pub time: u64,
    pub scheduled_id: Id,
    pub user_id: Id,
    pub photo_id: Id,
    pub visible: bool,
    /// the photo published before, 0 for none
    pub prev: Id,
}

/// The row that publishes `photo` of `user` in answer to event `scheduled`.
pub fn publication_row(scheduled: Id, user: Id, photo: Id, visible: bool, time: u64, prev: Option<Id>) -> (r: PublicationRow)
    ensures
        r == (PublicationRow {
            time,
            scheduled_id: scheduled,
            user_id: user,
            photo_id: photo,
            visible,
            prev: match prev { Some(p) => p, None => 0 },
        }),
{
    PublicationRow {
        time,
        scheduled_id: scheduled,
        user_id: user,
        photo_id: photo,
        visible,
        prev: match prev { Some(p) => p, None => 0 },
    }
}

/// The last photo published in answer to an event, from the newest row:
/// `None` where there is no row or its photo is 0.
pub fn last_publication_photo(newest: Option<Id>) -> (r: Option<Id>)
    ensures
        r == (match newest { Some(id) => if id != 0 { Some(id) } else { None }, None => None }),
{
    match newest {
        Some(id) => if id != 0 { Some(id) } else { None },
        None => None,
    }
}

/// A user has not published yet: no publication of the user was counted.
pub fn nothing_published(count: i32) -> (r: bool)
    ensures
        r == (count == 0),
{
    count == 0
}

} // verus!
