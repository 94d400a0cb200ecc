//! The answers of the event routes that do not depend on an event's kind.
use vstd::prelude::*;
use crate::answer_types::FieldErrorInfo;
use crate::db::votes::Votes;
use super::publication::Publication;
use super::late_publication::LatePublication;
use super::group_voting::{SuccessCoeff, spec_is_fail, spec_is_success, votes_wf, is_complete};

verus! {

/// The complaint that the scheduled event asked for does not exist.
pub fn event_not_found() -> (r: FieldErrorInfo)
    ensures
        r.field@ == "event"@,
        r.reason@ == "not_found"@,
{
    FieldErrorInfo::not_found("event")
}

/// A group event is created only by a member of the group: the complaint
/// for anybody else.
pub fn check_group_member(is_member: bool) -> (r: Option<FieldErrorInfo>)
    ensures
        is_member ==> r is None,
        !is_member ==> (r matches Some(e) && e.field@ == "user"@ && e.reason@ == "not_in_group"@),
{
    if is_member {
        None
    } else {
        Some(FieldErrorInfo::new("user", "not_in_group"))
    }
}

/// What decides whether a scheduled event is complete, read after a user
/// acted on it; one variant for each kind of event that a user acts on.
pub enum CompletionFacts {
    /// a publication: it is never complete before its time
    Publication,
    /// a group creation: whether every invited user has voted
    GroupCreation { all_voted: bool },
    /// a late publication: the members of the group and the photos published
    LatePublication { members_count: u32, published_count: u32 },
    /// a group vote: the votes so far and the share of members that must agree
    GroupVoting { votes: Votes, success_coeff: SuccessCoeff },
}

/// After a user's action on an event: whether the event is complete, so that
/// it is finished at once rather than at its end time.
pub fn finish_after_action(facts: &CompletionFacts) -> (r: bool)
    requires
        facts matches CompletionFacts::GroupVoting { votes, success_coeff }
            ==> success_coeff.denom > 0 && votes_wf(votes),
    ensures
        facts is Publication ==> !r,
        facts matches CompletionFacts::GroupCreation { all_voted } ==> r == all_voted,
        facts matches CompletionFacts::LatePublication { members_count, published_count }
            ==> r == (members_count == published_count),
        facts matches CompletionFacts::GroupVoting { votes, success_coeff }
            ==> r == (spec_is_fail(votes, *success_coeff) || spec_is_success(votes, *success_coeff)),
{
    match facts {
        CompletionFacts::Publication => Publication::new().is_complete(),
        CompletionFacts::GroupCreation { all_voted } => *all_voted,
        CompletionFacts::LatePublication { members_count, published_count } =>
            LatePublication::new().is_complete(*members_count, *published_count),
        CompletionFacts::GroupVoting { votes, success_coeff } => is_complete(votes, *success_coeff),
    }
}

} // verus!
