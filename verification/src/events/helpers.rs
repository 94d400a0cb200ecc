//! Decisions shared by the events that ask users to vote.
use vstd::prelude::*;
use crate::answer_types::FieldErrorInfo;
use super::UserAction;

verus! {

/// What a vote asks of a user: a vote while the user has not voted.
pub fn get_action_by_vote(is_need_vote: bool) -> (r: UserAction)
    ensures
        r == (if is_need_vote { UserAction::Vote } else { UserAction::NoAction }),
{
    match is_need_vote {
        true => UserAction::Vote,
        false => UserAction::NoAction,
    }
}

/// Whether a user's vote is taken: only from a user that has still to vote;
/// otherwise the complaint that the user has no vote to give.
pub fn check_user_vote(is_need_vote: bool) -> (r: Result<(), FieldErrorInfo>)
    ensures
        is_need_vote ==> r is Ok,
        !is_need_vote ==> r is Err && r->Err_0.field@ == "user"@ && r->Err_0.reason@ == "no_need_vote"@,
{
    if is_need_vote {
        Ok(())
    } else {
        Err(FieldErrorInfo::new("user", "no_need_vote"))
    }
}

} // verus!
