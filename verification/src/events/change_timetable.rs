//! A change of a group's timetable, put to a vote of the group: which
//! scheduled events to switch off, which new ones to add.
use vstd::prelude::*;
use vstd::string::*;
use vstd::utf8::encode_utf8;
use crate::types::{Id, Timespec};
use crate::parse_utils::{strptime_timespec, parse_timespec, timespec_lt, time_before, spec_add_days, add_days};
use super::{EventId, EventState, FullEventInfo, spec_event_id_number};
use super::group_voting::SuccessCoeff;

use crate::events::group_creation::{lemma_maybe_contains, lemma_concat_contains};

verus! {

/// The timetable change event.
pub struct ChangeTimetable;

/// The kind of the timetable change event.
pub const ID: EventId = EventId::ChangeTimetable;

/// Days that the group has to vote on a change.
pub const DAYS_FOR_VOTE: i64 = 5;
pub const MAX_NAME_LENGTH: usize = 64;
pub const MAX_PARAMS_LENGTH: usize = 2048;
pub const MAX_DESCRIPTION_LENGTH: usize = 2048;

impl ChangeTimetable {
    pub fn new() -> (r: ChangeTimetable) {
        ChangeTimetable
    }
}

/// An event to add, as the request writes it.
pub struct AddEventInfoStr {
    pub event_id: Id,
    pub name: String,
    pub time: String,
    pub params: String,
}

/// The change as the request writes it.
pub struct TimetableDiffInfoStr {
    pub description: String,
    pub remove: Vec<Id>,
    pub add: Vec<AddEventInfoStr>,
}

/// An event to add, with its time read.
pub struct AddEventInfo {
    pub event_id: Id,
    pub name: String,
    pub time: Timespec,
    pub params: String,
}

/// The change with its times read.
pub struct TimetableDiffInfo {
    pub description: String,
    pub remove: Vec<Id>,
    pub add: Vec<AddEventInfo>,
}

/// What the group is told when it starts a change.
pub struct ChangeTimetableInfo {
    pub group_name: String,
    pub days_for_voting: i64,
}

/// Which part of the request a complaint is about.
#[derive(Clone, Copy, Debug, PartialEq, Eq, Structural)]
pub enum FieldClass {
    ForAdd,
    ForRemove,
    Common,
}

/// Which field a complaint is about.
#[derive(Clone, Copy, Debug, PartialEq, Eq, Structural)]
pub enum FieldType {
    Name,
    Datetime,
    Event,
    Params,
    Description,
}

/// What is wrong with the field.
#[derive(Clone, Copy, Debug, PartialEq, Eq, Structural)]
pub enum ErrorReason {
    TooLong,
    Invalid,
    TimeInPast,
    NotFound,
    Empty,
}

/// A complaint about field `field_type` of entry `idx` of part `field_class`.
#[derive(Clone, Copy, Debug, PartialEq, Eq, Structural)]
pub struct FieldErrorInfo {
    pub field_class: FieldClass,
    pub field_type: FieldType,
    pub idx: usize,
    pub reason: ErrorReason,
}

pub type FieldErrors = Vec<FieldErrorInfo>;

/// Length of a text in bytes of UTF-8, as `str::len` gives it back.
pub open spec fn byte_len(s: Seq<char>) -> usize {
    encode_utf8(s).len() as usize
}

pub open spec fn field_error(field_class: FieldClass, field_type: FieldType, idx: int, reason: ErrorReason) -> FieldErrorInfo {
    FieldErrorInfo { field_class, field_type, idx: idx as usize, reason }
}

/// Complaints about the description: it is empty, or it is too long.
pub open spec fn description_errors(description: Seq<char>) -> Seq<FieldErrorInfo> {
    (if description.len() == 0 {
        seq![field_error(FieldClass::Common, FieldType::Description, 0, ErrorReason::Empty)]
    } else {
        Seq::empty()
    }) + (if MAX_DESCRIPTION_LENGTH < byte_len(description) {
        seq![field_error(FieldClass::Common, FieldType::Description, 0, ErrorReason::TooLong)]
    } else {
        Seq::empty()
    })
}

/// Complaints about the times of the events to add that cannot be read.
pub open spec fn time_errors(add: Seq<AddEventInfoStr>) -> Seq<FieldErrorInfo>
    decreases add.len(),
{
    if add.len() == 0 {
        Seq::empty()
    } else {
        let prev = time_errors(add.drop_last());
        if strptime_timespec(add.last().time@) is None {
            prev.push(field_error(FieldClass::ForAdd, FieldType::Datetime, add.len() - 1, ErrorReason::Invalid))
        } else {
            prev
        }
    }
}

/// All complaints about a change as the request writes it.
pub open spec fn parse_times_errors(diff: TimetableDiffInfoStr) -> Seq<FieldErrorInfo> {
    description_errors(diff.description@) + time_errors(diff.add@)
}

fn push_if(errors: &mut FieldErrors, cond: bool, e: FieldErrorInfo)
    ensures
        final(errors)@ == old(errors)@ + (if cond { seq![e] } else { Seq::<FieldErrorInfo>::empty() }),
{
    if cond {
        errors.push(e);
    }
    proof {
        if !cond {
            assert(old(errors)@ + Seq::<FieldErrorInfo>::empty() =~= old(errors)@);
        }
    }
}

/// Reads the times of the events to add; the complaints about the
/// description and the times when there are any.
pub fn parse_times(diff_str: TimetableDiffInfoStr) -> (r: Result<TimetableDiffInfo, FieldErrors>)
    ensures
        r is Err <==> parse_times_errors(diff_str).len() > 0,
        r is Err ==> r->Err_0@ == parse_times_errors(diff_str),
        r is Ok ==> {
            let d = r->Ok_0;
            &&& d.description@ == diff_str.description@
            &&& d.remove@ == diff_str.remove@
            &&& d.add@.len() == diff_str.add@.len()
            &&& forall|i: int| 0 <= i < d.add@.len() ==> {
                    &&& (#[trigger] d.add@[i]).event_id == diff_str.add@[i].event_id
                    &&& d.add@[i].name@ == diff_str.add@[i].name@
                    &&& d.add@[i].params@ == diff_str.add@[i].params@
                    &&& strptime_timespec(diff_str.add@[i].time@) == Some(d.add@[i].time)
                }
        },
{
    let mut errors: FieldErrors = Vec::new();
    push_if(&mut errors, diff_str.description.as_str().is_empty(),
        FieldErrorInfo { field_class: FieldClass::Common, field_type: FieldType::Description, idx: 0, reason: ErrorReason::Empty });
    push_if(&mut errors, MAX_DESCRIPTION_LENGTH < diff_str.description.as_str().len(),
        FieldErrorInfo { field_class: FieldClass::Common, field_type: FieldType::Description, idx: 0, reason: ErrorReason::TooLong });
    proof {
        assert(errors@ =~= description_errors(diff_str.description@));
    }
    let ghost desc_errors = errors@;
    let mut parsed_time: Vec<AddEventInfo> = Vec::new();
    let n = diff_str.add.len();
    let mut idx: usize = 0;
    while idx < n
        invariant
            n == diff_str.add@.len(),
            idx <= n,
            errors@ == desc_errors + time_errors(diff_str.add@.subrange(0, idx as int)),
            time_errors(diff_str.add@.subrange(0, idx as int)).len() == 0 ==> {
                &&& parsed_time@.len() == idx
                &&& forall|i: int| 0 <= i < idx ==> {
                        &&& (#[trigger] parsed_time@[i]).event_id == diff_str.add@[i].event_id
                        &&& parsed_time@[i].name@ == diff_str.add@[i].name@
                        &&& parsed_time@[i].params@ == diff_str.add@[i].params@
                        &&& strptime_timespec(diff_str.add@[i].time@) == Some(parsed_time@[i].time)
                    }
            },
        decreases n - idx,
    {
        let add = &diff_str.add[idx];
        let ghost prefix = diff_str.add@.subrange(0, idx as int);
        let ghost next = diff_str.add@.subrange(0, idx + 1);
        proof {
            assert(next.drop_last() =~= prefix);
            assert(next.last() == *add);
        }
        match parse_timespec(add.time.as_str()) {
            Some(tm) => {
                parsed_time.push(AddEventInfo {
                    event_id: add.event_id,
                    name: add.name.clone(),
                    time: tm,
                    params: add.params.clone(),
                });
            },
            None => {
                errors.push(FieldErrorInfo {
                    field_class: FieldClass::ForAdd,
                    field_type: FieldType::Datetime,
                    idx: idx,
                    reason: ErrorReason::Invalid,
                });
                proof {
                    assert(errors@ =~= desc_errors + time_errors(next));
                }
            },
        }
        idx = idx + 1;
    }
    proof {
        assert(diff_str.add@.subrange(0, n as int) =~= diff_str.add@);
    }
    if errors.is_empty() {
        proof {
            assert(desc_errors.len() == 0);
        }
        Ok(TimetableDiffInfo { description: diff_str.description, remove: diff_str.remove, add: parsed_time })
    } else {
        Err(errors)
    }
}

/// Complaints about the event to add at position `idx`.
pub open spec fn add_entry_errors(add: AddEventInfo, idx: int, current_time: Timespec) -> Seq<FieldErrorInfo> {
    (if add.name@.len() == 0 {
        seq![field_error(FieldClass::ForAdd, FieldType::Name, idx, ErrorReason::Empty)]
    } else { Seq::empty() })
    + (if MAX_NAME_LENGTH < byte_len(add.name@) {
        seq![field_error(FieldClass::ForAdd, FieldType::Name, idx, ErrorReason::TooLong)]
    } else { Seq::empty() })
    + (if MAX_PARAMS_LENGTH < byte_len(add.params@) {
        seq![field_error(FieldClass::ForAdd, FieldType::Params, idx, ErrorReason::TooLong)]
    } else { Seq::empty() })
    + (if add.time.sec < current_time.sec {
        seq![field_error(FieldClass::ForAdd, FieldType::Datetime, idx, ErrorReason::TimeInPast)]
    } else { Seq::empty() })
    + (if add.event_id == spec_event_id_number(EventId::Publication) {
        if add.params@.len() != 0 {
            seq![field_error(FieldClass::ForAdd, FieldType::Params, idx, ErrorReason::Invalid)]
        } else { Seq::empty() }
    } else {
        seq![field_error(FieldClass::ForAdd, FieldType::Event, idx, ErrorReason::Invalid)]
    })
}

/// A complaint about field `field_type` of the event to add at `idx`.
pub open spec fn add_complaint(field_type: FieldType, idx: usize, reason: ErrorReason) -> FieldErrorInfo {
    FieldErrorInfo { field_class: FieldClass::ForAdd, field_type, idx, reason }
}

/// The complaints about one event to add, each exactly when its reason holds:
/// an empty name; a name of more than 64 bytes; parameters of more than 2048
/// bytes; a start in a second before the current one; parameters for a
/// publication, which takes none; and a kind of event other than a
/// publication, which is the only one a timetable holds.
pub proof fn law_add_entry_complaints(add: AddEventInfo, idx: usize, current_time: Timespec)
    requires
        encode_utf8(add.name@).len() <= usize::MAX,
        encode_utf8(add.params@).len() <= usize::MAX,
    ensures
        add_entry_errors(add, idx as int, current_time).contains(add_complaint(FieldType::Name, idx, ErrorReason::Empty))
            <==> add.name@.len() == 0,
        add_entry_errors(add, idx as int, current_time).contains(add_complaint(FieldType::Name, idx, ErrorReason::TooLong))
            <==> encode_utf8(add.name@).len() > 64,
        add_entry_errors(add, idx as int, current_time).contains(add_complaint(FieldType::Params, idx, ErrorReason::TooLong))
            <==> encode_utf8(add.params@).len() > 2048,
        add_entry_errors(add, idx as int, current_time).contains(add_complaint(FieldType::Datetime, idx, ErrorReason::TimeInPast))
            <==> add.time.sec < current_time.sec,
        add_entry_errors(add, idx as int, current_time).contains(add_complaint(FieldType::Params, idx, ErrorReason::Invalid))
            <==> (add.event_id == 1 && add.params@.len() != 0),
        add_entry_errors(add, idx as int, current_time).contains(add_complaint(FieldType::Event, idx, ErrorReason::Invalid))
            <==> add.event_id != 1,
{
    let i = idx as int;
    let a = (if add.name@.len() == 0 {
        seq![field_error(FieldClass::ForAdd, FieldType::Name, i, ErrorReason::Empty)]
    } else { Seq::empty() });
    let b = (if MAX_NAME_LENGTH < byte_len(add.name@) {
        seq![field_error(FieldClass::ForAdd, FieldType::Name, i, ErrorReason::TooLong)]
    } else { Seq::empty() });
    let c = (if MAX_PARAMS_LENGTH < byte_len(add.params@) {
        seq![field_error(FieldClass::ForAdd, FieldType::Params, i, ErrorReason::TooLong)]
    } else { Seq::empty() });
    let d = (if add.time.sec < current_time.sec {
        seq![field_error(FieldClass::ForAdd, FieldType::Datetime, i, ErrorReason::TimeInPast)]
    } else { Seq::empty() });
    let is_pub = add.event_id == spec_event_id_number(EventId::Publication);
    let e1 = (if is_pub && add.params@.len() != 0 {
        seq![field_error(FieldClass::ForAdd, FieldType::Params, i, ErrorReason::Invalid)]
    } else { Seq::empty() });
    let e2 = (if !is_pub {
        seq![field_error(FieldClass::ForAdd, FieldType::Event, i, ErrorReason::Invalid)]
    } else { Seq::empty() });
    let e = (if is_pub {
        if add.params@.len() != 0 {
            seq![field_error(FieldClass::ForAdd, FieldType::Params, i, ErrorReason::Invalid)]
        } else { Seq::empty() }
    } else {
        seq![field_error(FieldClass::ForAdd, FieldType::Event, i, ErrorReason::Invalid)]
    });
    assert(e =~= e1 + e2);
    let errs = add_entry_errors(add, i, current_time);
    assert(errs =~= a + b + c + d + e1 + e2);
    assert forall|t: FieldErrorInfo| #[trigger] errs.contains(t) <==> {
        ||| (add.name@.len() == 0 && field_error(FieldClass::ForAdd, FieldType::Name, i, ErrorReason::Empty) == t)
        ||| (MAX_NAME_LENGTH < byte_len(add.name@) && field_error(FieldClass::ForAdd, FieldType::Name, i, ErrorReason::TooLong) == t)
        ||| (MAX_PARAMS_LENGTH < byte_len(add.params@) && field_error(FieldClass::ForAdd, FieldType::Params, i, ErrorReason::TooLong) == t)
        ||| (add.time.sec < current_time.sec && field_error(FieldClass::ForAdd, FieldType::Datetime, i, ErrorReason::TimeInPast) == t)
        ||| (is_pub && add.params@.len() != 0 && field_error(FieldClass::ForAdd, FieldType::Params, i, ErrorReason::Invalid) == t)
        ||| (!is_pub && field_error(FieldClass::ForAdd, FieldType::Event, i, ErrorReason::Invalid) == t)
    } by {
        lemma_concat_contains(a + b + c + d + e1, e2, t);
        lemma_concat_contains(a + b + c + d, e1, t);
        lemma_concat_contains(a + b + c, d, t);
        lemma_concat_contains(a + b, c, t);
        lemma_concat_contains(a, b, t);
        lemma_maybe_contains(add.name@.len() == 0, field_error(FieldClass::ForAdd, FieldType::Name, i, ErrorReason::Empty), t);
        lemma_maybe_contains(MAX_NAME_LENGTH < byte_len(add.name@), field_error(FieldClass::ForAdd, FieldType::Name, i, ErrorReason::TooLong), t);
        lemma_maybe_contains(MAX_PARAMS_LENGTH < byte_len(add.params@), field_error(FieldClass::ForAdd, FieldType::Params, i, ErrorReason::TooLong), t);
        lemma_maybe_contains(add.time.sec < current_time.sec, field_error(FieldClass::ForAdd, FieldType::Datetime, i, ErrorReason::TimeInPast), t);
        lemma_maybe_contains(is_pub && add.params@.len() != 0, field_error(FieldClass::ForAdd, FieldType::Params, i, ErrorReason::Invalid), t);
        lemma_maybe_contains(!is_pub, field_error(FieldClass::ForAdd, FieldType::Event, i, ErrorReason::Invalid), t);
    }
    assert(byte_len(add.name@) == encode_utf8(add.name@).len());
    assert(byte_len(add.params@) == encode_utf8(add.params@).len());
    assert(spec_event_id_number(EventId::Publication) == 1);
}

/// Complaints about all the events to add, in order.
pub open spec fn add_errors(for_add: Seq<AddEventInfo>, current_time: Timespec) -> Seq<FieldErrorInfo>
    decreases for_add.len(),
{
    if for_add.len() == 0 {
        Seq::empty()
    } else {
        add_errors(for_add.drop_last(), current_time)
            + add_entry_errors(for_add.last(), for_add.len() - 1, current_time)
    }
}

/// Checks the events to add: names, parameters, times and kinds.
#[verifier::rlimit(40)]
pub fn check_for_add(for_add: &Vec<AddEventInfo>, current_time: &Timespec, errors: &mut FieldErrors)
    ensures
        final(errors)@ == old(errors)@ + add_errors(for_add@, *current_time),
{
    let ghost start = errors@;
    let n = for_add.len();
    let mut idx: usize = 0;
    while idx < n
        invariant
            n == for_add@.len(),
            idx <= n,
            errors@ == start + add_errors(for_add@.subrange(0, idx as int), *current_time),
        decreases n - idx,
    {
        let add = &for_add[idx];
        let ghost before = errors@;
        push_if(errors, add.name.as_str().is_empty(),
            FieldErrorInfo { field_class: FieldClass::ForAdd, field_type: FieldType::Name, idx, reason: ErrorReason::Empty });
        push_if(errors, MAX_NAME_LENGTH < add.name.as_str().len(),
            FieldErrorInfo { field_class: FieldClass::ForAdd, field_type: FieldType::Name, idx, reason: ErrorReason::TooLong });
        push_if(errors, MAX_PARAMS_LENGTH < add.params.as_str().len(),
            FieldErrorInfo { field_class: FieldClass::ForAdd, field_type: FieldType::Params, idx, reason: ErrorReason::TooLong });
        push_if(errors, add.time.sec < current_time.sec,
            FieldErrorInfo { field_class: FieldClass::ForAdd, field_type: FieldType::Datetime, idx, reason: ErrorReason::TimeInPast });
        if add.event_id == EventId::Publication.number() {
            push_if(errors, !add.params.as_str().is_empty(),
                FieldErrorInfo { field_class: FieldClass::ForAdd, field_type: FieldType::Params, idx, reason: ErrorReason::Invalid });
        } else {
            errors.push(FieldErrorInfo { field_class: FieldClass::ForAdd, field_type: FieldType::Event, idx, reason: ErrorReason::Invalid });
        }
        proof {
            let next = for_add@.subrange(0, idx + 1);
            assert(next.drop_last() =~= for_add@.subrange(0, idx as int));
            assert(next.last() == *add);
            assert(errors@ =~= before + add_entry_errors(*add, idx as int, *current_time));
            assert(errors@ =~= start + add_errors(next, *current_time));
        }
        idx = idx + 1;
    }
    proof {
        assert(for_add@.subrange(0, n as int) =~= for_add@);
    }
}

/// Complaints about the events to switch off, given when each starts
/// (`None` where there is no such event).
pub open spec fn remove_errors(start_times: Seq<Option<Timespec>>, current_time: Timespec) -> Seq<FieldErrorInfo>
    decreases start_times.len(),
{
    if start_times.len() == 0 {
        Seq::empty()
    } else {
        let prev = remove_errors(start_times.drop_last(), current_time);
        let idx = start_times.len() - 1;
        match start_times.last() {
            Some(t) => if timespec_lt(t, current_time) {
                prev.push(field_error(FieldClass::ForRemove, FieldType::Datetime, idx, ErrorReason::TimeInPast))
            } else {
                prev
            },
            None => prev.push(field_error(FieldClass::ForRemove, FieldType::Event, idx, ErrorReason::NotFound)),
        }
    }
}

/// The complaints about the events to switch off, event by event: the
/// `i`-th event gets a "time in past" complaint exactly when it exists and
/// starts strictly before `current_time` (an event that has not started yet
/// may be switched off), and a "not found" complaint exactly when it does not
/// exist; there is no other complaint.
pub proof fn law_remove_errors(start_times: Seq<Option<Timespec>>, current_time: Timespec)
    requires
        start_times.len() <= usize::MAX,
    ensures
        forall|e: FieldErrorInfo| #[trigger] remove_errors(start_times, current_time).contains(e) <==>
            exists|i: int| 0 <= i < start_times.len() && e.idx == i && e.field_class == FieldClass::ForRemove && {
                ||| (start_times[i] matches Some(t)
                        && (t.sec < current_time.sec || (t.sec == current_time.sec && t.nsec < current_time.nsec))
                        && e.field_type == FieldType::Datetime && e.reason == ErrorReason::TimeInPast)
                ||| (start_times[i] is None && e.field_type == FieldType::Event && e.reason == ErrorReason::NotFound)
            },
    decreases start_times.len(),
{
    if start_times.len() > 0 {
        let prev = start_times.drop_last();
        law_remove_errors(prev, current_time);
        let n = prev.len() as int;
        assert forall|e: FieldErrorInfo| #[trigger] remove_errors(start_times, current_time).contains(e) <==>
            exists|i: int| 0 <= i < start_times.len() && e.idx == i && e.field_class == FieldClass::ForRemove && {
                ||| (start_times[i] matches Some(t)
                        && (t.sec < current_time.sec || (t.sec == current_time.sec && t.nsec < current_time.nsec))
                        && e.field_type == FieldType::Datetime && e.reason == ErrorReason::TimeInPast)
                ||| (start_times[i] is None && e.field_type == FieldType::Event && e.reason == ErrorReason::NotFound)
            } by {
            let old_errs = remove_errors(prev, current_time);
            let errs = remove_errors(start_times, current_time);
            assert forall|i: int| 0 <= i < n implies #[trigger] prev[i] == start_times[i] by {}
            if errs.contains(e) {
                let k = choose|k: int| 0 <= k < errs.len() && errs[k] == e;
                if k < old_errs.len() {
                    assert(old_errs[k] == e);
                    assert(old_errs.contains(e));
                    let i = choose|i: int| 0 <= i < prev.len() && e.idx == i && e.field_class == FieldClass::ForRemove && {
                        ||| (prev[i] matches Some(t)
                                && (t.sec < current_time.sec || (t.sec == current_time.sec && t.nsec < current_time.nsec))
                                && e.field_type == FieldType::Datetime && e.reason == ErrorReason::TimeInPast)
                        ||| (prev[i] is None && e.field_type == FieldType::Event && e.reason == ErrorReason::NotFound)
                    };
                    assert(prev[i] == start_times[i]);
                } else {
                    assert(e.idx == n);
                }
            }
            if exists|i: int| 0 <= i < start_times.len() && e.idx == i && e.field_class == FieldClass::ForRemove && {
                ||| (start_times[i] matches Some(t)
                        && (t.sec < current_time.sec || (t.sec == current_time.sec && t.nsec < current_time.nsec))
                        && e.field_type == FieldType::Datetime && e.reason == ErrorReason::TimeInPast)
                ||| (start_times[i] is None && e.field_type == FieldType::Event && e.reason == ErrorReason::NotFound)
            } {
                let i = choose|i: int| 0 <= i < start_times.len() && e.idx == i && e.field_class == FieldClass::ForRemove && {
                    ||| (start_times[i] matches Some(t)
                            && (t.sec < current_time.sec || (t.sec == current_time.sec && t.nsec < current_time.nsec))
                            && e.field_type == FieldType::Datetime && e.reason == ErrorReason::TimeInPast)
                    ||| (start_times[i] is None && e.field_type == FieldType::Event && e.reason == ErrorReason::NotFound)
                };
                if i < n {
                    assert(prev[i] == start_times[i]);
                    assert(old_errs.contains(e));
                    let k = choose|k: int| 0 <= k < old_errs.len() && old_errs[k] == e;
                    assert(errs[k] == e);
                } else {
                    assert(errs.last() == e);
                    assert(errs[errs.len() - 1] == e);
                }
            }
        }
    }
}

/// Checks the events to switch off: each must exist and not have started.
/// `start_times[i]` is the start time of the event `for_remove[i]`, as the
/// schedule holds it.
pub fn check_for_remove(
    for_remove: &Vec<Id>,
    start_times: &Vec<Option<Timespec>>,
    current_time: &Timespec,
    errors: &mut FieldErrors,
)
    requires
        start_times@.len() == for_remove@.len(),
    ensures
        final(errors)@ == old(errors)@ + remove_errors(start_times@, *current_time),
{
    let ghost start = errors@;
    let n = for_remove.len();
    let mut idx: usize = 0;
    while idx < n
        invariant
            n == for_remove@.len(),
            n == start_times@.len(),
            idx <= n,
            errors@ == start + remove_errors(start_times@.subrange(0, idx as int), *current_time),
        decreases n - idx,
    {
        let ghost next = start_times@.subrange(0, idx + 1);
        proof {
            assert(next.drop_last() =~= start_times@.subrange(0, idx as int));
            assert(next.last() == start_times@[idx as int]);
        }
        match start_times[idx] {
            Some(remove_start_time) => {
                if time_before(&remove_start_time, current_time) {
                    errors.push(FieldErrorInfo {
                        field_class: FieldClass::ForRemove,
                        field_type: FieldType::Datetime,
                        idx,
                        reason: ErrorReason::TimeInPast,
                    });
                }
            },
            None => {
                errors.push(FieldErrorInfo {
                    field_class: FieldClass::ForRemove,
                    field_type: FieldType::Event,
                    idx,
                    reason: ErrorReason::NotFound,
                });
            },
        }
        idx = idx + 1;
    }
    proof {
        assert(start_times@.subrange(0, n as int) =~= start_times@);
    }
}

/// All complaints about a change: the events to add first, then those to
/// switch off.
pub fn check_diff(diff: &TimetableDiffInfo, start_times: &Vec<Option<Timespec>>, current_time: &Timespec) -> (r: FieldErrors)
    requires
        start_times@.len() == diff.remove@.len(),
    ensures
        r@ == add_errors(diff.add@, *current_time) + remove_errors(start_times@, *current_time),
{
    let mut errors = Vec::new();
    check_for_add(&diff.add, current_time, &mut errors);
    check_for_remove(&diff.remove, start_times, current_time, &mut errors);
    proof {
        assert(Seq::<FieldErrorInfo>::empty() + add_errors(diff.add@, *current_time) =~= add_errors(diff.add@, *current_time));
    }
    errors
}

/// A checked event to add: it is a publication and its parameters are empty.
pub open spec fn add_is_valid(add: AddEventInfo) -> bool {
    add.event_id == spec_event_id_number(EventId::Publication) && add.params@.len() == 0
}

/// An event with no complaint is a valid publication.
pub proof fn lemma_no_add_errors_valid(for_add: Seq<AddEventInfo>, current_time: Timespec)
    requires
        add_errors(for_add, current_time).len() == 0,
    ensures
        forall|i: int| 0 <= i < for_add.len() ==> add_is_valid(#[trigger] for_add[i]),
    decreases for_add.len(),
{
    if for_add.len() > 0 {
        lemma_no_add_errors_valid(for_add.drop_last(), current_time);
        assert forall|i: int| 0 <= i < for_add.len() implies add_is_valid(#[trigger] for_add[i]) by {
            if i < for_add.len() - 1 {
                assert(for_add[i] == for_add.drop_last()[i]);
            }
        }
    }
}

/// The switched-off publications that a checked change adds to the timetable
/// of `group_id`: each opens a day before its time and closes at it.
pub fn events_to_add(for_add: &Vec<AddEventInfo>, group_id: Id) -> (r: Vec<FullEventInfo>)
    requires
        forall|i: int| 0 <= i < for_add@.len() ==> (#[trigger] for_add@[i]).time.sec - 86400 >= i64::MIN,
    ensures
        r@.len() == for_add@.len(),
        forall|i: int| 0 <= i < r@.len() ==> {
            &&& (#[trigger] r@[i]).id == EventId::Publication
            &&& r@[i].name@ == for_add@[i].name@
            &&& r@[i].start_time == spec_add_days(for_add@[i].time, -1)
            &&& r@[i].end_time == for_add@[i].time
            &&& r@[i].data@.len() == 0
            &&& r@[i].group == Some(group_id)
            &&& r@[i].creator is None
        },
{
    let mut events: Vec<FullEventInfo> = Vec::new();
    let n = for_add.len();
    let mut i: usize = 0;
    while i < n
        invariant
            n == for_add@.len(),
            i <= n,
            events@.len() == i,
            forall|j: int| 0 <= j < n ==> (#[trigger] for_add@[j]).time.sec - 86400 >= i64::MIN,
            forall|j: int| 0 <= j < i ==> {
                &&& (#[trigger] events@[j]).id == EventId::Publication
                &&& events@[j].name@ == for_add@[j].name@
                &&& events@[j].start_time == spec_add_days(for_add@[j].time, -1)
                &&& events@[j].end_time == for_add@[j].time
                &&& events@[j].data@.len() == 0
                &&& events@[j].group == Some(group_id)
                &&& events@[j].creator is None
            },
        decreases n - i,
    {
        let add = &for_add[i];
        let start_time = add_days(&add.time, -1);
        events.push(FullEventInfo {
            id: EventId::Publication,
            name: add.name.clone(),
            start_time,
            end_time: add.time,
            data: String::new(),
            group: Some(group_id),
            creator: None,
        });
        i = i + 1;
    }
    events
}

/// What a timetable change keeps: its description, the events to switch off
/// and the events to switch on.
pub struct Data {
    pub description: String,
    pub disable: Vec<Id>,
    pub enable: Vec<Id>,
}

/// The data of a change whose new events got the identifiers `added_ids`.
pub fn make_data(diff: TimetableDiffInfo, added_ids: Vec<Id>) -> (r: Data)
    ensures
        r.description@ == diff.description@,
        r.disable@ == diff.remove@,
        r.enable@ == added_ids@,
{
    Data { description: diff.description, disable: diff.remove, enable: added_ids }
}

/// Half of the group must agree to a timetable change.
pub fn voting_coeff() -> (r: SuccessCoeff)
    ensures
        r.numer == 1 && r.denom == 2,
{
    SuccessCoeff { numer: 1, denom: 2 }
}

/// The change event itself for group `group_id`, starting `now` and open for
/// voting for `DAYS_FOR_VOTE` days, with its encoded `Data`.
pub fn change_event(group_id: Id, now: &Timespec, encoded_data: String) -> (r: FullEventInfo)
    requires
        now.sec + DAYS_FOR_VOTE * 86400 <= i64::MAX,
    ensures
        r.id == EventId::ChangeTimetable,
        r.name@ == "Изменения расписания"@,
        r.start_time == *now,
        r.end_time == spec_add_days(*now, DAYS_FOR_VOTE as int),
        r.data@ == encoded_data@,
        r.group == Some(group_id),
        r.creator is None,
{
    FullEventInfo {
        id: ID,
        name: String::from_str("Изменения расписания"),
        start_time: *now,
        end_time: add_days(now, DAYS_FOR_VOTE),
        data: encoded_data,
        group: Some(group_id),
        creator: None,
    }
}

/// What the group sees before it proposes a change.
pub fn creation_info(group_name: String) -> (r: ChangeTimetableInfo)
    ensures
        r.group_name@ == group_name@,
        r.days_for_voting == DAYS_FOR_VOTE,
{
    ChangeTimetableInfo { group_name, days_for_voting: DAYS_FOR_VOTE }
}

/// The states to set when the group accepts the change: the events to switch
/// off become disabled, then the new ones become scheduled.
pub fn apply_changes(data: &Data) -> (r: Vec<(Id, EventState)>)
    ensures
        r@.len() == data.disable@.len() + data.enable@.len(),
        forall|i: int| 0 <= i < data.disable@.len() ==> #[trigger] r@[i] == (data.disable@[i], EventState::Disabled),
        forall|i: int| 0 <= i < data.enable@.len() ==>
            #[trigger] r@[data.disable@.len() + i] == (data.enable@[i], EventState::NotStartedYet),
{
    let mut r: Vec<(Id, EventState)> = Vec::new();
    let n = data.disable.len();
    let mut i: usize = 0;
    while i < n
        invariant
            n == data.disable@.len(),
            i <= n,
            r@.len() == i,
            forall|j: int| 0 <= j < i ==> #[trigger] r@[j] == (data.disable@[j], EventState::Disabled),
        decreases n - i,
    {
        r.push((data.disable[i], EventState::Disabled));
        i = i + 1;
    }
    let m = data.enable.len();
    let mut k: usize = 0;
    while k < m
        invariant
            n == data.disable@.len(),
            m == data.enable@.len(),
            k <= m,
            r@.len() == n + k,
            forall|j: int| 0 <= j < n ==> #[trigger] r@[j] == (data.disable@[j], EventState::Disabled),
            forall|j: int| 0 <= j < k ==> #[trigger] r@[n + j] == (data.enable@[j], EventState::NotStartedYet),
        decreases m - k,
    {
        r.push((data.enable[k], EventState::NotStartedYet));
        k = k + 1;
    }
    r
}

} // verus!
