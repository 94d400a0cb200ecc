//! Inviting a user into a group.
use vstd::prelude::*;
use vstd::string::*;
use crate::types::{Id, Timespec};
use crate::answer_types::FieldErrorInfo;
use crate::events::change_timetable::byte_len;
use crate::parse_utils::{spec_add_days, add_days};
use crate::db::votes::Votes;
use super::{EventId, FullEventInfo};

verus! {

/// The invitation event.
pub struct UserInviteToGroup;

/// The kind of the invitation event.
pub const ID: EventId = EventId::UserInvite;

/// What an invitation keeps: the group, the user invited and the words.
pub struct UserInviteInfo {
    pub group_id: Id,
    pub user_id: Id,
    pub text: String,
}

impl UserInviteToGroup {
    pub fn new() -> (r: UserInviteToGroup) {
        UserInviteToGroup
    }

    /// The kind of this event.
    pub fn id(&self) -> (r: EventId)
        ensures
            r == EventId::UserInvite,
    {
        ID
    }
}

/// The first complaint about an invitation with words `text` of a user that
/// exists or not and is already a member or not; `None` if there is none.
pub fn check_invite(text: &String, user_exists: bool, is_member: bool) -> (r: Option<FieldErrorInfo>)
    ensures
        text@.len() == 0 ==> r is Some && r->0.field@ == "text"@ && r->0.reason@ == "empty"@,
        text@.len() != 0 && 2048 < byte_len(text@) ==>
            r is Some && r->0.field@ == "text"@ && r->0.reason@ == "too_long"@,
        text@.len() != 0 && byte_len(text@) <= 2048 && !user_exists ==>
            r is Some && r->0.field@ == "user"@ && r->0.reason@ == "not_found"@,
        text@.len() != 0 && byte_len(text@) <= 2048 && user_exists && is_member ==>
            r is Some && r->0.field@ == "user"@ && r->0.reason@ == "in_group"@,
        text@.len() != 0 && byte_len(text@) <= 2048 && user_exists && !is_member ==> r is None,
{
    if text.as_str().is_empty() {
        return Some(FieldErrorInfo::empty("text"));
    }
    if 2048 < text.as_str().len() {
        return Some(FieldErrorInfo::too_long("text"));
    }
    if !user_exists {
        return Some(FieldErrorInfo::not_found("user"));
    }
    if is_member {
        return Some(FieldErrorInfo::new("user", "in_group"));
    }
    None
}

/// "Приглашение пользователя '<user>' в группу '<group>'"
pub fn make_invite_name(group_name: &str, user_name: &str) -> (r: String)
    ensures
        r@ == "Приглашение пользователя '"@ + user_name@ + "' в группу '"@ + group_name@ + "'"@,
{
    String::from_str("Приглашение пользователя '").concat(user_name).concat("' в группу '").concat(group_name).concat("'")
}

/// The invitation of `user_name` into `group_name` by `user_id` at `now`,
/// open for seven days, with its encoded `UserInviteInfo`.
pub fn invite_event(group_name: &str, user_name: &str, user_id: Id, now: &Timespec, encoded_data: String) -> (r: FullEventInfo)
    requires
        now.sec + 7 * 86400 <= i64::MAX,
    ensures
        r.id == EventId::UserInvite,
        r.name@ == "Приглашение пользователя '"@ + user_name@ + "' в группу '"@ + group_name@ + "'"@,
        r.start_time == *now,
        r.end_time == spec_add_days(*now, 7),
        r.data@ == encoded_data@,
        r.group is None,
        r.creator == Some(user_id),
{
    FullEventInfo {
        id: ID,
        name: make_invite_name(group_name, user_name),
        start_time: *now,
        end_time: add_days(now, 7),
        data: encoded_data,
        group: None,
        creator: Some(user_id),
    }
}

/// Whether the invited user has answered, and whether the answer is yes.
pub fn invite_state(votes: &Votes) -> (r: (bool, bool))
    requires
        votes.yes@.len() + votes.no@.len() <= usize::MAX,
    ensures
        r.0 == (0 < votes.yes@.len() + votes.no@.len()),
        r.1 == (0 < votes.yes@.len()),
{
    (0 < votes.yes.len() + votes.no.len(), 0 < votes.yes.len())
}

} // verus!
