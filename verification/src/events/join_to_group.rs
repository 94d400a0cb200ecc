//! A user joins a group once the group agrees.
use vstd::prelude::*;
use vstd::string::*;
use crate::types::{Id, Timespec, ShortInfo};
use crate::parse_utils::{spec_add_days, add_days};
use super::{EventId, FullEventInfo};
use super::group_voting::SuccessCoeff;

verus! {

/// The event of a user joining a group.
pub struct JoinToGroup;

/// The kind of the join event.
pub const ID: EventId = EventId::JoinToGroup;

/// What a join keeps: who joins, and the words of the invitation.
pub struct Data {
    pub user_id: Id,
    pub text: String,
}

/// What the join's page shows.
pub struct JoinToGroupInfo {
    pub user: ShortInfo,
    pub text: String,
}

impl JoinToGroup {
    pub fn new() -> (r: JoinToGroup) {
        JoinToGroup
    }

    /// The data of the join of `user` with the invitation `text`.
    pub fn make_data(user: &ShortInfo, text: &str) -> (r: Data)
        ensures
            r.user_id == user.id,
            r.text@ == text@,
    {
        Data { user_id: user.id, text: text.to_owned() }
    }

    /// The join of `user` to group `group_id` proposed by `creator` at `now`,
    /// open for seven days, with its encoded `Data`; the group votes on it.
    pub fn create(creator: Id, group_id: Id, user: &ShortInfo, now: &Timespec, encoded_data: String) -> (r: FullEventInfo)
        requires
            now.sec + 7 * 86400 <= i64::MAX,
        ensures
            r.id == EventId::JoinToGroup,
            r.name@ == "Присоединение к группе пользователя '"@ + user.name@ + "'"@,
            r.start_time == *now,
            r.end_time == spec_add_days(*now, 7),
            r.data@ == encoded_data@,
            r.group == Some(group_id),
            r.creator == Some(creator),
    {
        FullEventInfo {
            id: ID,
            name: String::from_str("Присоединение к группе пользователя '").concat(user.name.as_str()).concat("'"),
            start_time: *now,
            end_time: add_days(now, 7),
            data: encoded_data,
            group: Some(group_id),
            creator: Some(creator),
        }
    }

    /// Every member must agree to a join.
    pub fn voting_coeff() -> (r: SuccessCoeff)
        ensures
            r.numer == 1 && r.denom == 1,
    {
        SuccessCoeff { numer: 1, denom: 1 }
    }

    /// The short name of the join of `user_name` to `group_name`, used in mail.
    pub fn name(user_name: &str, group_name: &str) -> (r: String)
        ensures
            r@ == "Присоединение '"@ + user_name@ + "' к группе '"@ + group_name@ + "'"@,
    {
        String::from_str("Присоединение '").concat(user_name).concat("' к группе '").concat(group_name).concat("'")
    }

    /// What the join's page shows of `user` and the invitation in `data`.
    pub fn info(user: &ShortInfo, data: &Data) -> (r: JoinToGroupInfo)
        ensures
            r.user.id == user.id,
            r.user.name@ == user.name@,
            r.text@ == data.text@,
    {
        JoinToGroupInfo { user: user.duplicate(), text: data.text.clone() }
    }
}

} // verus!
