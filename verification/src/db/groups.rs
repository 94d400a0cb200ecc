//! Groups and their members.
use vstd::prelude::*;
use crate::types::Id;
use crate::db::{multi_row_text, multi_row_query, pair_values, make_pair_values};

verus! {

/// The statement that adds `count` members to a group.
pub fn add_members_query(count: usize) -> (r: String)
    ensures
        r@ == multi_row_text("INSERT INTO group_members ( user_id, group_id ) VALUES( ?, ? )"@,
            ", ( ?, ? )"@, count as nat),
{
    multi_row_query("INSERT INTO group_members ( user_id, group_id ) VALUES( ?, ? )", ", ( ?, ? )", count)
}

/// The values of that statement: each member, then the group.
pub fn add_members_values(group_id: Id, members: &Vec<Id>) -> (r: Vec<Id>)
    ensures
        r@ == pair_values(members@, group_id, false),
{
    make_pair_values(members, group_id, false)
}

/// A lookup by key found the row it looks for: exactly one row came back.
pub fn found_one(rows_count: usize) -> (r: bool)
    ensures
        r == (rows_count == 1),
{
    rows_count == 1
}

} // verus!
