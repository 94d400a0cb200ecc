//! Links between comments and the mail that told users about them.
use vstd::prelude::*;
use crate::types::Id;
use crate::db::{multi_row_text, multi_row_query};

verus! {

/// A mail message sent to a user about a comment.
#[derive(Clone, Copy, Debug, PartialEq, Eq, Structural)]
pub struct MessageLink {
    pub user_id: Id,
    pub message_id: Id,
}

/// The statement that stores `count` links of one comment.
pub fn add_links_query(count: usize) -> (r: String)
    ensures
        r@ == multi_row_text(
            "INSERT INTO comment_message_link ( user_id, comment_id, message_id ) VALUES ( ?, ?, ? )"@,
            ", ( ?, ?, ? )"@, count as nat),
{
    multi_row_query(
        "INSERT INTO comment_message_link ( user_id, comment_id, message_id ) VALUES ( ?, ?, ? )",
        ", ( ?, ?, ? )",
        count,
    )
}

/// The values of that statement: user, comment and message of each link.
pub open spec fn link_values(comment_id: Id, links: Seq<MessageLink>) -> Seq<Id>
    decreases links.len(),
{
    if links.len() == 0 {
        Seq::empty()
    } else {
        let l = links.last();
        link_values(comment_id, links.drop_last()).push(l.user_id).push(comment_id).push(l.message_id)
    }
}

/// Lists the values that store the links of comment `comment_id`.
pub fn make_link_values(comment_id: Id, links: &Vec<MessageLink>) -> (r: Vec<Id>)
    ensures
        r@ == link_values(comment_id, links@),
{
    let mut values: Vec<Id> = Vec::new();
    let n = links.len();
    let mut i: usize = 0;
    while i < n
        invariant
            n == links@.len(),
            i <= n,
            values@ == link_values(comment_id, links@.subrange(0, i as int)),
        decreases n - i,
    {
        let link = links[i];
        proof {
            let next = links@.subrange(0, i + 1);
            assert(next.drop_last() =~= links@.subrange(0, i as int));
            assert(next.last() == link);
        }
        values.push(link.user_id);
        values.push(comment_id);
        values.push(link.message_id);
        i = i + 1;
    }
    proof {
        assert(links@.subrange(0, n as int) =~= links@);
    }
    values
}

/// The text of the statement that finds the messages of a user linked to
/// `count` comments.
pub open spec fn linked_messages_text(count: nat) -> Seq<char> {
    multi_row_text(
        "SELECT message_id FROM comment_message_link WHERE user_id=? AND comment_id IN ( ?"@,
        ",? "@, count) + ")"@
}

/// The statement that finds the messages linked to `count` comments; `None`
/// when there are no comments, for then nothing is asked and nothing found.
pub fn linked_messages_query(count: usize) -> (r: Option<String>)
    ensures
        count == 0 ==> r is None,
        count > 0 ==> r is Some && r->0@ == linked_messages_text(count as nat),
{
    if count == 0 {
        return None;
    }
    let mut query = multi_row_query(
        "SELECT message_id FROM comment_message_link WHERE user_id=? AND comment_id IN ( ?",
        ",? ",
        count,
    );
    query.append(")");
    Some(query)
}

/// The values of that statement: the user, then the comments.
pub fn linked_messages_values(user_id: Id, comment_ids: &Vec<Id>) -> (r: Vec<Id>)
    ensures
        r@ == seq![user_id] + comment_ids@,
{
    let mut values: Vec<Id> = Vec::new();
    values.push(user_id);
    let n = comment_ids.len();
    let mut i: usize = 0;
    while i < n
        invariant
            n == comment_ids@.len(),
            i <= n,
            values@ == seq![user_id] + comment_ids@.subrange(0, i as int),
        decreases n - i,
    {
        values.push(comment_ids[i]);
        proof {
            assert(seq![user_id] + comment_ids@.subrange(0, i + 1)
                =~= (seq![user_id] + comment_ids@.subrange(0, i as int)).push(comment_ids@[i as int]));
        }
        i = i + 1;
    }
    proof {
        assert(comment_ids@.subrange(0, n as int) =~= comment_ids@);
    }
    values
}

} // verus!
