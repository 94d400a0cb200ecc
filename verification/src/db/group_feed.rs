//! The feeds of the groups in the database.
use vstd::prelude::*;
use vstd::string::*;
use vstd::utf8::{encode_utf8, is_ascii_chars};
use crate::types::{Id, ShortInfo};
use crate::events::{EventId, UserAction};
use crate::events::feed_types::{FeedEventState, FeedEventInfo};
use super::{SqlValue, bytes_are_text, text_bytes, lemma_ascii_bytes_injective};

verus! {

/// How a feed state is written in the `state` column.
pub open spec fn feed_state_text(s: FeedEventState) -> Seq<char> {
    match s {
        FeedEventState::Start => "start"@,
        FeedEventState::Finish => "finish"@,
    }
}

/// The feed state that the bytes of a `state` column stand for, if any.
pub open spec fn feed_state_from_bytes(b: Seq<u8>) -> Option<FeedEventState> {
    if b == encode_utf8("start"@) {
        Some(FeedEventState::Start)
    } else if b == encode_utf8("finish"@) {
        Some(FeedEventState::Finish)
    } else {
        None
    }
}

impl FeedEventState {
    /// The value of the `state` column for this state.
    pub fn to_value(&self) -> (r: SqlValue)
        ensures
            r matches SqlValue::Bytes(b) && b@ == encode_utf8(feed_state_text(*self)),
    {
        let text = match self {
            FeedEventState::Start => "start",
            FeedEventState::Finish => "finish",
        };
        SqlValue::Bytes(text_bytes(text))
    }
}

/// Every feed state is read back from the value written for it.
pub proof fn law_feed_state_roundtrip(s: FeedEventState)
    ensures
        feed_state_from_bytes(encode_utf8(feed_state_text(s))) == Some(s),
{
    reveal_strlit("start");
    reveal_strlit("finish");
    assert(is_ascii_chars("start"@));
    assert(is_ascii_chars("finish"@));
    assert("start"@ != "finish"@) by { assert("start"@.len() != "finish"@.len()); }
    lemma_ascii_bytes_injective("start"@, "finish"@);
}

/// A feed state read from the database, with the bytes it was read from.
pub struct FeedEventStateIr {
    val: FeedEventState,
    bytes: Vec<u8>,
}

impl FeedEventStateIr {
    pub closed spec fn value(&self) -> FeedEventState {
        self.val
    }

    pub closed spec fn raw(&self) -> Seq<u8> {
        self.bytes@
    }

    /// Reads a feed state from a column value; the value is handed back when
    /// it is not the text of a state.
    pub fn new(v: SqlValue) -> (r: Result<FeedEventStateIr, SqlValue>)
        ensures
            match v {
                SqlValue::Bytes(b) => match feed_state_from_bytes(b@) {
                    Some(s) => r is Ok && r->Ok_0.value() == s && r->Ok_0.raw() == b@,
                    None => r is Err && r->Err_0 == v,
                },
                _ => r is Err && r->Err_0 == v,
            },
    {
        match v {
            SqlValue::Bytes(bytes) => {
                let val = if bytes_are_text(&bytes, "start") {
                    Some(FeedEventState::Start)
                } else if bytes_are_text(&bytes, "finish") {
                    Some(FeedEventState::Finish)
                } else {
                    None
                };
                match val {
                    Some(val) => Ok(FeedEventStateIr { val, bytes }),
                    None => Err(SqlValue::Bytes(bytes)),
                }
            },
            _ => Err(v),
        }
    }

    /// The feed state read.
    pub fn commit(self) -> (r: FeedEventState)
        ensures
            r == self.value(),
    {
        self.val
    }

    /// The value the feed state was read from.
    pub fn rollback(self) -> (r: SqlValue)
        ensures
            r matches SqlValue::Bytes(b) && b@ == self.raw(),
    {
        SqlValue::Bytes(self.bytes)
    }
}

/// One row of a group's feed, joined with its event, group, creator and
/// whether the reader has seen it.
pub struct FeedRow {
    pub id: Id,
    pub creation_time: u64,
    pub state: FeedEventState,
    pub data: String,
    pub scheduled_id: Id,
    pub event_id: EventId,
    pub start_time: u64,
    pub end_time: u64,
    pub event_name: String,
    pub group_id: Id,
    pub group_name: String,
    pub user_id: Id,
    pub user_name: Option<String>,
    pub visited_id: Option<Id>,
    pub comments_count: usize,
    pub unreaded_comments: usize,
}

/// The feed entry a row stands for: a creator of 0 means none, and the entry
/// is new for the reader when the reader has not visited it.  The row does not
/// say what the event asks of the reader; `action` is that.
pub fn read_fields(row: FeedRow, action: UserAction) -> (r: FeedEventInfo)
    requires
        row.user_id != 0 ==> row.user_name is Some,
    ensures
        r.id == row.id,
        r.is_new == (row.visited_id is None),
        r.creation_time == row.creation_time,
        r.state == row.state,
        r.data@ == row.data@,
        r.scheduled_id == row.scheduled_id,
        r.event_id == row.event_id,
        r.start_time == row.start_time,
        r.end_time == row.end_time,
        r.event_name@ == row.event_name@,
        r.group.id == row.group_id,
        r.group.name@ == row.group_name@,
        row.user_id == 0 ==> r.creator is None,
        row.user_id != 0 ==> r.creator is Some && r.creator->0.id == row.user_id
            && r.creator->0.name@ == row.user_name->0@,
        r.comments_count == row.comments_count,
        r.unreaded_comments == row.unreaded_comments,
        r.action == action,
{
    let creator = if row.user_id == 0 {
        None
    } else {
        match row.user_name {
            Some(name) => Some(ShortInfo { id: row.user_id, name }),
            None => None,
        }
    };
    let is_new = match row.visited_id {
        Some(_) => false,
        None => true,
    };
    FeedEventInfo {
        id: row.id,
        is_new,
        creation_time: row.creation_time,
        state: row.state,
        data: row.data,
        scheduled_id: row.scheduled_id,
        event_id: row.event_id,
        start_time: row.start_time,
        end_time: row.end_time,
        event_name: row.event_name,
        group: ShortInfo { id: row.group_id, name: row.group_name },
        creator,
        comments_count: row.comments_count,
        unreaded_comments: row.unreaded_comments,
        action,
    }
}

} // verus!
