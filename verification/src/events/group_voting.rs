//! A vote of a whole group: another event that is applied only when enough
//! members of the group agree.
use vstd::prelude::*;
use crate::types::{Id, Timespec};
use crate::db::votes::Votes;
use super::{EventId, FullEventInfo, ScheduledEventInfo};

verus! {

/// The share of members that must agree, as the fraction `numer / denom`.
#[derive(Clone, Copy, Debug, PartialEq, Eq, Structural)]
pub struct SuccessCoeff {
    pub numer: u32,
    pub denom: u32,
}

/// How many yes votes make the decision when `all` members are counted: the
/// share of `all` rounded down, and never fewer than two.
pub open spec fn spec_min_success_count(all: nat, c: SuccessCoeff) -> nat {
    let scaled: nat = (all * (c.numer as nat)) / (c.denom as nat);
    let fitting = if scaled > usize::MAX { usize::MAX as nat } else { scaled };
    if fitting > 2 { fitting } else { 2 }
}

/// Yes votes needed when `all` members are counted.
pub fn min_success_count(all: usize, success_coeff: SuccessCoeff) -> (r: usize)
    requires
        success_coeff.denom > 0,
    ensures
        r == spec_min_success_count(all as nat, success_coeff),
{
    let all_wide = all as u128;
    let numer = success_coeff.numer as u128;
    proof {
        assert(all_wide * numer <= 0xffff_ffff_ffff_ffffu128 * 0xffff_ffffu128) by (nonlinear_arith)
            requires all_wide <= 0xffff_ffff_ffff_ffffu128, numer <= 0xffff_ffffu128;
    }
    let scaled = all_wide * numer / (success_coeff.denom as u128);
    let fitting: usize = if scaled > usize::MAX as u128 { usize::MAX } else { scaled as usize };
    if fitting > 2 { fitting } else { 2 }
}

/// Enough of all members have voted yes.
pub open spec fn spec_is_success(votes: &Votes, c: SuccessCoeff) -> bool {
    spec_min_success_count(votes.all_count as nat, c) <= votes.yes@.len()
}

/// Enough of the members that voted have voted yes.
pub open spec fn spec_is_finished_success(votes: &Votes, c: SuccessCoeff) -> bool {
    spec_min_success_count(votes.yes@.len() + votes.no@.len(), c) <= votes.yes@.len()
}

/// Even if every member who has not voted yet said yes, there would not be
/// enough yes votes.
pub open spec fn spec_is_fail(votes: &Votes, c: SuccessCoeff) -> bool {
    (votes.all_count - votes.no@.len() - votes.yes@.len()) + votes.yes@.len()
        < spec_min_success_count(votes.all_count as nat, c)
}

/// The yes and no votes are among the members counted.
pub open spec fn votes_wf(votes: &Votes) -> bool {
    votes.yes@.len() + votes.no@.len() <= votes.all_count
}

/// Enough of all members have voted yes.
pub fn is_success(votes: &Votes, success_coeff: SuccessCoeff) -> (r: bool)
    requires
        success_coeff.denom > 0,
    ensures
        r == spec_is_success(votes, success_coeff),
{
    min_success_count(votes.all_count, success_coeff) <= votes.yes.len()
}

/// At the end of the vote: enough of those who voted have voted yes, so that
/// absent members do not block every decision.
pub fn is_finished_success(votes: &Votes, success_coeff: SuccessCoeff) -> (r: bool)
    requires
        success_coeff.denom > 0,
        votes.yes@.len() + votes.no@.len() <= usize::MAX,
    ensures
        r == spec_is_finished_success(votes, success_coeff),
{
    min_success_count(votes.yes.len() + votes.no.len(), success_coeff) <= votes.yes.len()
}

/// The vote can no longer succeed.
pub fn is_fail(votes: &Votes, success_coeff: SuccessCoeff) -> (r: bool)
    requires
        success_coeff.denom > 0,
        votes_wf(votes),
    ensures
        r == spec_is_fail(votes, success_coeff),
{
    let yes_count = votes.yes.len();
    let no_count = votes.no.len();
    let not_voited_count = votes.all_count - no_count - yes_count;
    (not_voited_count + yes_count) < min_success_count(votes.all_count, success_coeff)
}

/// The vote may end before its time: it has failed or it has succeeded.
pub fn is_complete(votes: &Votes, success_coeff: SuccessCoeff) -> (r: bool)
    requires
        success_coeff.denom > 0,
        votes_wf(votes),
    ensures
        r == (spec_is_fail(votes, success_coeff) || spec_is_success(votes, success_coeff)),
{
    is_fail(votes, success_coeff) || is_success(votes, success_coeff)
}

/// The count of needed yes votes does not fall when more members are counted.
pub proof fn lemma_min_success_count_monotone(a: nat, b: nat, c: SuccessCoeff)
    requires
        a <= b,
        c.denom > 0,
    ensures
        spec_min_success_count(a, c) <= spec_min_success_count(b, c),
{
    let n = c.numer as nat;
    assert(a * n <= b * n) by (nonlinear_arith)
        requires a <= b;
    vstd::arithmetic::div_mod::lemma_div_is_ordered((a * n) as int, (b * n) as int, c.denom as int);
}

/// A vote never succeeds and fails at once.
pub proof fn law_success_excludes_fail(votes: &Votes, c: SuccessCoeff)
    requires
        c.denom > 0,
        votes_wf(votes),
    ensures
        !(spec_is_success(votes, c) && spec_is_fail(votes, c)),
{
}

/// A vote that has succeeded early still succeeds when it is counted at its end.
pub proof fn law_success_is_kept_at_finish(votes: &Votes, c: SuccessCoeff)
    requires
        c.denom > 0,
        votes_wf(votes),
        spec_is_success(votes, c),
    ensures
        spec_is_finished_success(votes, c),
{
    lemma_min_success_count_monotone((votes.yes@.len() + votes.no@.len()) as nat, votes.all_count as nat, c);
}

/// Nothing is decided without the consent of at least two members.
pub proof fn law_success_needs_two_yes(votes: &Votes, c: SuccessCoeff)
    requires
        spec_is_finished_success(votes, c) || spec_is_success(votes, c),
    ensures
        votes.yes@.len() >= 2,
{
}

/// At the end of a vote only the votes cast count: two tallies with the same
/// yes and no votes give the same result, however many members are absent.
pub proof fn law_finished_success_ignores_absent(v1: &Votes, v2: &Votes, c: SuccessCoeff)
    requires
        v1.yes@ == v2.yes@,
        v1.no@ == v2.no@,
    ensures
        spec_is_finished_success(v1, c) == spec_is_finished_success(v2, c),
{
}

/// At the end of a vote, with `y` yes and `n` no votes cast, the change is
/// accepted exactly when at least two members said yes and the share
/// `numer / denom` of the `y + n` cast votes is less than `y + 1`, that is,
/// rounded down it is no more than `y` (where that share fits in a `usize`).
pub proof fn law_finished_success_by_cast_votes(votes: &Votes, c: SuccessCoeff)
    requires
        c.denom > 0,
        ((votes.yes@.len() + votes.no@.len()) * (c.numer as int)) / (c.denom as int) <= usize::MAX,
    ensures
        spec_is_finished_success(votes, c) <==> {
            &&& votes.yes@.len() >= 2
            &&& (votes.yes@.len() + votes.no@.len()) * (c.numer as int) < (votes.yes@.len() + 1) * (c.denom as int)
        },
{
    let y = votes.yes@.len() as int;
    let total = (votes.yes@.len() + votes.no@.len()) as int;
    let a = total * (c.numer as int);
    let d = c.denom as int;
    let q = a / d;
    assert(q * d <= a < (q + 1) * d) by (nonlinear_arith)
        requires d > 0, q == a / d;
    assert(q <= y <==> a < (y + 1) * d) by (nonlinear_arith)
        requires d > 0, q * d <= a, a < (q + 1) * d;
}

/// What a group vote keeps of the event it decides on.
pub struct Data {
    pub internal_id: EventId,
    pub success_coeff: SuccessCoeff,
    pub internal_data: String,
}

/// The data of a vote on `internal_event`.
pub fn make_data(success_coeff: SuccessCoeff, internal_event: &FullEventInfo) -> (r: Data)
    ensures
        r.internal_id == internal_event.id,
        r.success_coeff == success_coeff,
        r.internal_data@ == internal_event.data@,
{
    Data { internal_id: internal_event.id, success_coeff, internal_data: internal_event.data.clone() }
}

/// A new vote of the group `group_id` on `internal_event`, whose data is the
/// encoded `make_data` record `encoded_data`.
pub fn new(group_id: Id, internal_event: &FullEventInfo, encoded_data: String) -> (r: FullEventInfo)
    ensures
        r.id == EventId::GroupVoting,
        r.name@ == internal_event.name@,
        r.start_time == internal_event.start_time,
        r.end_time == internal_event.end_time,
        r.data@ == encoded_data@,
        r.group == Some(group_id),
        r.creator == internal_event.creator,
{
    FullEventInfo {
        id: EventId::GroupVoting,
        name: internal_event.name.clone(),
        start_time: internal_event.start_time,
        end_time: internal_event.end_time,
        data: encoded_data,
        group: Some(group_id),
        creator: internal_event.creator,
    }
}

/// The group vote event.
pub struct GroupVoting;

/// The kind of the group vote event.
pub const ID: EventId = EventId::GroupVoting;

impl GroupVoting {
    pub fn new() -> (r: GroupVoting) {
        GroupVoting
    }

    /// The kind of this event.
    pub fn id(&self) -> (r: EventId)
        ensures
            r == EventId::GroupVoting,
    {
        ID
    }
}

/// The event that the vote decides on, as the event kind of that event sees it.
pub fn make_internal_body(data: &Data, body: &ScheduledEventInfo) -> (r: ScheduledEventInfo)
    ensures
        r.id == data.internal_id,
        r.start_time == body.start_time,
        r.end_time == body.end_time,
        r.scheduled_id == body.scheduled_id,
        r.name@ == body.name@,
        r.state == body.state,
        r.data@ == data.internal_data@,
        r.group is Some <==> body.group is Some,
        r.group is Some ==> r.group->0.id == body.group->0.id && r.group->0.name@ == body.group->0.name@,
        r.creator is Some <==> body.creator is Some,
        r.creator is Some ==> r.creator->0.id == body.creator->0.id && r.creator->0.name@ == body.creator->0.name@,
{
    ScheduledEventInfo {
        id: data.internal_id,
        start_time: body.start_time,
        end_time: body.end_time,
        scheduled_id: body.scheduled_id,
        name: body.name.clone(),
        state: body.state,
        data: data.internal_data.clone(),
        group: match &body.group { Some(g) => Some(g.duplicate()), None => None },
        creator: match &body.creator { Some(c) => Some(c.duplicate()), None => None },
    }
}

/// What the group's feed records at the end of a vote.
#[derive(Clone, Copy, Debug, PartialEq, Eq, Structural)]
pub struct FeedData {
    pub internal_id: EventId,
    pub is_success: bool,
}

/// How a vote ends: whether the change is applied, and what the feed records.
pub fn finish_outcome(votes: &Votes, data: &Data) -> (r: FeedData)
    requires
        data.success_coeff.denom > 0,
        votes.yes@.len() + votes.no@.len() <= usize::MAX,
    ensures
        r.internal_id == data.internal_id,
        r.is_success == spec_is_finished_success(votes, data.success_coeff),
{
    FeedData { internal_id: data.internal_id, is_success: is_finished_success(votes, data.success_coeff) }
}

/// What the feed records when a vote starts.
pub fn start_feed_data(data: &Data) -> (r: FeedData)
    ensures
        r.internal_id == data.internal_id,
        r.is_success,
{
    FeedData { internal_id: data.internal_id, is_success: true }
}

} // verus!
