//! The schedule of events in the database.
use vstd::prelude::*;
use vstd::string::*;
use vstd::utf8::{encode_utf8, is_ascii_chars};
use crate::types::{Id, Timespec, ShortInfo};
use crate::parse_utils::{spec_into_timespec, into_timespec, spec_msecs, msecs};
use crate::events::{EventId, EventState, ScheduledEventInfo, FullEventInfo, spec_event_id_number,
    spec_event_id_from_number};
use super::{SqlValue, bytes_are_text, text_bytes, lemma_ascii_bytes_injective, multi_row_query, multi_row_text};

verus! {

/// How a state is written in the `state` column.
pub open spec fn event_state_text(s: EventState) -> Seq<char> {
    match s {
        EventState::NotStartedYet => "not_started_yet"@,
        EventState::Active => "active"@,
        EventState::Finished => "finished"@,
        EventState::Disabled => "disabled"@,
    }
}

/// The state that the bytes of a `state` column stand for, if any.
pub open spec fn event_state_from_bytes(b: Seq<u8>) -> Option<EventState> {
    if b == encode_utf8("not_started_yet"@) {
        Some(EventState::NotStartedYet)
    } else if b == encode_utf8("active"@) {
        Some(EventState::Active)
    } else if b == encode_utf8("finished"@) {
        Some(EventState::Finished)
    } else if b == encode_utf8("disabled"@) {
        Some(EventState::Disabled)
    } else {
        None
    }
}

impl EventState {
    /// The value of the `state` column for this state.
    pub fn to_value(&self) -> (r: SqlValue)
        ensures
            r matches SqlValue::Bytes(b) && b@ == encode_utf8(event_state_text(*self)),
    {
        let text = match self {
            EventState::NotStartedYet => "not_started_yet",
            EventState::Active => "active",
            EventState::Finished => "finished",
            EventState::Disabled => "disabled",
        };
        SqlValue::Bytes(text_bytes(text))
    }
}

/// Every state is read back from the value written for it.
pub proof fn law_event_state_roundtrip(s: EventState)
    ensures
        event_state_from_bytes(encode_utf8(event_state_text(s))) == Some(s),
{
    reveal_strlit("not_started_yet");
    reveal_strlit("active");
    reveal_strlit("finished");
    reveal_strlit("disabled");
    assert(is_ascii_chars("not_started_yet"@));
    assert(is_ascii_chars("active"@));
    assert(is_ascii_chars("finished"@));
    assert(is_ascii_chars("disabled"@));
    assert("not_started_yet"@ != "active"@) by { assert("not_started_yet"@.len() != "active"@.len()); }
    assert("not_started_yet"@ != "finished"@) by { assert("not_started_yet"@.len() != "finished"@.len()); }
    assert("not_started_yet"@ != "disabled"@) by { assert("not_started_yet"@.len() != "disabled"@.len()); }
    assert("active"@ != "finished"@) by { assert("active"@.len() != "finished"@.len()); }
    assert("active"@ != "disabled"@) by { assert("active"@.len() != "disabled"@.len()); }
    assert("finished"@ != "disabled"@) by { assert("finished"@[0] != "disabled"@[0]); }
    lemma_ascii_bytes_injective("not_started_yet"@, "active"@);
    lemma_ascii_bytes_injective("not_started_yet"@, "finished"@);
    lemma_ascii_bytes_injective("not_started_yet"@, "disabled"@);
    lemma_ascii_bytes_injective("active"@, "finished"@);
    lemma_ascii_bytes_injective("active"@, "disabled"@);
    lemma_ascii_bytes_injective("finished"@, "disabled"@);
}

/// A state read from the database, with the bytes it was read from.
pub struct EventStateIr {
    val: EventState,
    bytes: Vec<u8>,
}

impl EventStateIr {
    pub closed spec fn value(&self) -> EventState {
        self.val
    }

    pub closed spec fn raw(&self) -> Seq<u8> {
        self.bytes@
    }

    /// Reads a state from a column value; the value is handed back when it is
    /// not the text of a state.
    pub fn new(v: SqlValue) -> (r: Result<EventStateIr, SqlValue>)
        ensures
            match v {
                SqlValue::Bytes(b) => match event_state_from_bytes(b@) {
                    Some(s) => r is Ok && r->Ok_0.value() == s && r->Ok_0.raw() == b@,
                    None => r is Err && r->Err_0 == v,
                },
                _ => r is Err && r->Err_0 == v,
            },
    {
        match v {
            SqlValue::Bytes(bytes) => {
                let val = if bytes_are_text(&bytes, "not_started_yet") {
                    Some(EventState::NotStartedYet)
                } else if bytes_are_text(&bytes, "active") {
                    Some(EventState::Active)
                } else if bytes_are_text(&bytes, "finished") {
                    Some(EventState::Finished)
                } else if bytes_are_text(&bytes, "disabled") {
                    Some(EventState::Disabled)
                } else {
                    None
                };
                match val {
                    Some(val) => Ok(EventStateIr { val, bytes }),
                    None => Err(SqlValue::Bytes(bytes)),
                }
            },
            _ => Err(v),
        }
    }

    /// The state read.
    pub fn commit(self) -> (r: EventState)
        ensures
            r == self.value(),
    {
        self.val
    }

    /// The value the state was read from.
    pub fn rollback(self) -> (r: SqlValue)
        ensures
            r matches SqlValue::Bytes(b) && b@ == self.raw(),
    {
        SqlValue::Bytes(self.bytes)
    }
}

impl EventId {
    /// The value of the `event_id` column for this kind.
    pub fn to_value(&self) -> (r: SqlValue)
        ensures
            r == SqlValue::UInt(spec_event_id_number(*self)),
    {
        SqlValue::UInt(self.number())
    }
}

/// An event kind read from the database, with the number it was read from.
pub struct EventIdIr {
    val: EventId,
    raw: i64,
}

impl EventIdIr {
    pub closed spec fn value(&self) -> EventId {
        self.val
    }

    pub closed spec fn raw(&self) -> i64 {
        self.raw
    }

    /// Reads an event kind from a column value; the value is handed back when
    /// it is not the number of a kind.
    pub fn new(v: SqlValue) -> (r: Result<EventIdIr, SqlValue>)
        ensures
            match v {
                SqlValue::Int(num) => match spec_event_id_from_number(num as int) {
                    Some(id) => r is Ok && r->Ok_0.value() == id && r->Ok_0.raw() == num,
                    None => r is Err && r->Err_0 == v,
                },
                _ => r is Err && r->Err_0 == v,
            },
    {
        match v {
            SqlValue::Int(num) => match EventId::from_number(num) {
                Some(id) => Ok(EventIdIr { val: id, raw: num }),
                None => Err(SqlValue::Int(num)),
            },
            _ => Err(v),
        }
    }

    /// The kind read.
    pub fn commit(self) -> (r: EventId)
        ensures
            r == self.value(),
    {
        self.val
    }

    /// The value the kind was read from.
    pub fn rollback(self) -> (r: SqlValue)
        ensures
            r == SqlValue::Int(self.raw()),
    {
        SqlValue::Int(self.raw)
    }
}

/// One row of the schedule joined with the names of its group and creator.
pub struct EventRow {
    pub scheduled_id: Id,
    pub event_id: EventId,
    pub start_time: u64,
    pub end_time: u64,
    pub name: String,
    pub data: String,
    pub state: EventState,
    pub group_attached: bool,
    pub group_id: Id,
    pub group_name: Option<String>,
    pub creator_id: Id,
    pub creator_name: Option<String>,
}

/// `e` is the scheduled event that `row` stands for: times in milliseconds
/// become timestamps, the group is there only when the event is attached to
/// one, and a creator of 0 means there is none.
pub open spec fn event_of_row(row: EventRow, e: ScheduledEventInfo) -> bool {
    &&& e.scheduled_id == row.scheduled_id
    &&& e.id == row.event_id
    &&& e.start_time == spec_into_timespec(row.start_time)
    &&& e.end_time == spec_into_timespec(row.end_time)
    &&& e.name@ == row.name@
    &&& e.data@ == row.data@
    &&& e.state == row.state
    &&& (row.group_attached ==> e.group is Some && e.group->0.id == row.group_id
            && e.group->0.name@ == row.group_name->0@)
    &&& (!row.group_attached ==> e.group is None)
    &&& (row.creator_id != 0 ==> e.creator is Some && e.creator->0.id == row.creator_id
            && e.creator->0.name@ == row.creator_name->0@)
    &&& (row.creator_id == 0 ==> e.creator is None)
}

/// The scheduled event a row stands for.
pub fn scheduled_event_from_row(row: EventRow) -> (r: ScheduledEventInfo)
    requires
        row.group_attached ==> row.group_name is Some,
        row.creator_id != 0 ==> row.creator_name is Some,
    ensures
        event_of_row(row, r),
{
    let group = match row.group_attached {
        true => match row.group_name {
            Some(name) => Some(ShortInfo { id: row.group_id, name }),
            None => None,
        },
        false => None,
    };
    let creator = if row.creator_id == 0 {
        None
    } else {
        match row.creator_name {
            Some(name) => Some(ShortInfo { id: row.creator_id, name }),
            None => None,
        }
    };
    ScheduledEventInfo {
        scheduled_id: row.scheduled_id,
        id: row.event_id,
        start_time: into_timespec(row.start_time),
        end_time: into_timespec(row.end_time),
        name: row.name,
        data: row.data,
        state: row.state,
        group,
        creator,
    }
}

/// Reads every row of the schedule.
pub fn scheduled_events_from_rows(rows: Vec<EventRow>) -> (r: Vec<ScheduledEventInfo>)
    requires
        forall|i: int| 0 <= i < rows@.len() ==> {
            &&& ((#[trigger] rows@[i]).group_attached ==> rows@[i].group_name is Some)
            &&& (rows@[i].creator_id != 0 ==> rows@[i].creator_name is Some)
        },
    ensures
        r@.len() == rows@.len(),
        forall|i: int| 0 <= i < r@.len() ==> event_of_row(rows@[i], #[trigger] r@[i]),
{
    let mut events: Vec<ScheduledEventInfo> = Vec::new();
    let mut rows = rows;
    let ghost all = rows@;
    let n = rows.len();
    let mut i: usize = 0;
    while i < n
        invariant
            n == all.len(),
            i <= n,
            rows@ == all.subrange(i as int, n as int),
            events@.len() == i,
            forall|j: int| 0 <= j < n ==> {
                &&& ((#[trigger] all[j]).group_attached ==> all[j].group_name is Some)
                &&& (all[j].creator_id != 0 ==> all[j].creator_name is Some)
            },
            forall|j: int| 0 <= j < i ==> event_of_row(all[j], #[trigger] events@[j]),
        decreases n - i,
    {
        let row = rows.remove(0);
        proof {
            assert(row == all[i as int]);
            assert(rows@ =~= all.subrange(i + 1, n as int));
        }
        let e = scheduled_event_from_row(row);
        events.push(e);
        i = i + 1;
    }
    events
}

/// Whether an event belongs to a group, and which: no group is written as
/// (false, 0).
pub fn to_group_info(group: Option<Id>) -> (r: (bool, Id))
    ensures
        group is Some ==> r == (true, group->0),
        group is None ==> r == (false, 0u64),
{
    match group {
        Some(id) => (true, id),
        None => (false, 0),
    }
}

/// The values of one new row of the schedule.
pub struct EventInsertRow {
    pub event_id: EventId,
    pub name: String,
    pub start_time: u64,
    pub end_time: u64,
    pub data: String,
    pub group_attached: bool,
    pub group_id: Id,
    pub creator_id: Id,
}

/// Times that can be written in milliseconds.
pub open spec fn storable_time(t: Timespec) -> bool {
    t.sec >= 0 && 0 <= t.nsec < 1_000_000_000 && t.sec * 1000 + 999 <= u64::MAX
}

/// The row that stores a new event: times in milliseconds, no group written
/// as (false, 0), no creator written as 0.
pub fn event_insert_row(event: &FullEventInfo) -> (r: EventInsertRow)
    requires
        storable_time(event.start_time),
        storable_time(event.end_time),
    ensures
        r.event_id == event.id,
        r.name@ == event.name@,
        r.start_time == spec_msecs(event.start_time),
        r.end_time == spec_msecs(event.end_time),
        r.data@ == event.data@,
        (r.group_attached, r.group_id) == (if event.group is Some { (true, event.group->0) } else { (false, 0u64) }),
        r.creator_id == (if event.creator is Some { event.creator->0 } else { 0u64 }),
{
    let (group_attached, group_id) = to_group_info(event.group);
    let creator_id = match event.creator {
        Some(creator_id) => creator_id,
        None => 0,
    };
    EventInsertRow {
        event_id: event.id,
        name: event.name.clone(),
        start_time: msecs(&event.start_time),
        end_time: msecs(&event.end_time),
        data: event.data.clone(),
        group_attached,
        group_id,
        creator_id,
    }
}

/// The statement that adds `count` events to the schedule.
pub fn add_events_query(count: usize) -> (r: String)
    ensures
        r@ == multi_row_text(
            "INSERT INTO scheduled_events ( event_id, event_name, start_time, end_time, data, group_attached, group_id, creator_id ) VALUES( ?, ?, ?, ?, ?, ?, ?, ? )"@,
            ", ( ?, ?, ?, ?, ?, ?, ?, ? )"@, count as nat),
{
    multi_row_query(
        "INSERT INTO scheduled_events ( event_id, event_name, start_time, end_time, data, group_attached, group_id, creator_id ) VALUES( ?, ?, ?, ?, ?, ?, ?, ? )",
        ", ( ?, ?, ?, ?, ?, ?, ?, ? )",
        count,
    )
}

/// The condition that selects the `count` events by identifier.
pub fn event_infos_condition(count: usize) -> (r: String)
    requires
        count > 0,
    ensures
        r@ == multi_row_text("e.id in ( ?"@, ", ?"@, count as nat) + ")"@,
{
    let mut where_cond = multi_row_query("e.id in ( ?", ", ?", count);
    where_cond.append(")");
    where_cond
}

/// The next event after `start_time` as read from its row: identifier and
/// start time in milliseconds.
pub fn next_event_from_row(id: Id, start_time: u64) -> (r: (Id, Timespec))
    ensures
        r == (id, spec_into_timespec(start_time)),
{
    (id, into_timespec(start_time))
}

} // verus!
