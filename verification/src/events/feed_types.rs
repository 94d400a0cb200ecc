//! Entries of a group's feed.
use vstd::prelude::*;
use crate::types::{Id, ShortInfo};
use super::{EventId, UserAction};

verus! {

/// Whether a feed entry marks the start or the end of an event.
#[derive(Clone, Copy, Debug, PartialEq, Eq, Structural)]
pub enum FeedEventState {
    Start,
    Finish,
}

/// An entry of a group's feed as the web interface shows it.
pub struct FeedEventInfo {
    pub id: Id,
    pub is_new: bool,
    pub creation_time: u64,
    pub start_time: u64,
    pub end_time: u64,
    pub event_id: EventId,
    pub scheduled_id: Id,
    pub event_name: String,
    pub state: FeedEventState,
    pub data: String,
    pub creator: Option<ShortInfo>,
    pub group: ShortInfo,
    pub comments_count: usize,
    pub unreaded_comments: usize,
    pub action: UserAction,
}

} // verus!
