//! Registered users.
use vstd::prelude::*;
use crate::db::{multi_row_text, multi_row_query};

verus! {

/// The text of the statement that reads the activated users among `count`
/// identifiers.
pub open spec fn users_by_id_text(count: nat) -> Seq<char> {
    multi_row_text("SELECT id, login, mail, join_time FROM users WHERE id IN ( ? "@, ", ?"@, count)
        + " ) AND activated=true"@
}

/// The statement that reads the activated users among `count` identifiers.
pub fn users_by_id_query(count: usize) -> (r: String)
    ensures
        r@ == users_by_id_text(count as nat),
{
    let mut query = multi_row_query("SELECT id, login, mail, join_time FROM users WHERE id IN ( ? ", ", ?", count);
    query.append(" ) AND activated=true");
    query
}

/// A name or an address is taken: some row came back.
pub fn any_found(rows_count: usize) -> (r: bool)
    ensures
        r == (rows_count != 0),
{
    rows_count != 0
}

} // verus!
