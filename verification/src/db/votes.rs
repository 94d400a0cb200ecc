//! Votes of the users that an event asks.
use vstd::prelude::*;
use crate::types::Id;
use crate::db::{multi_row_text, multi_row_query, pair_values, make_pair_values};

verus! {

/// The votes on one event: how many users may vote, and who said yes or no.
pub struct Votes {
    pub all_count: usize,
    pub yes: Vec<Id>,
    pub no: Vec<Id>,
}

/// One row of the votes table: a user with the right to vote, whether the
/// user voted, and the vote.
#[derive(Clone, Copy, Debug, PartialEq, Eq, Structural)]
pub struct VoteRow {
    pub user_id: Id,
    pub voted: bool,
    pub vote: bool,
}

/// The users of `rows` that voted yes, in order.
pub open spec fn yes_ids(rows: Seq<VoteRow>) -> Seq<Id>
    decreases rows.len(),
{
    if rows.len() == 0 {
        Seq::empty()
    } else {
        let r = rows.last();
        if r.voted && r.vote { yes_ids(rows.drop_last()).push(r.user_id) } else { yes_ids(rows.drop_last()) }
    }
}

/// The users of `rows` that voted no, in order.
pub open spec fn no_ids(rows: Seq<VoteRow>) -> Seq<Id>
    decreases rows.len(),
{
    if rows.len() == 0 {
        Seq::empty()
    } else {
        let r = rows.last();
        if r.voted && !r.vote { no_ids(rows.drop_last()).push(r.user_id) } else { no_ids(rows.drop_last()) }
    }
}

/// Counts the votes read from the votes table.
pub fn votes_from_rows(rows: &Vec<VoteRow>) -> (r: Votes)
    ensures
        r.all_count == rows@.len(),
        r.yes@ == yes_ids(rows@),
        r.no@ == no_ids(rows@),
{
    let mut votes = Votes { yes: Vec::new(), no: Vec::new(), all_count: 0 };
    let n = rows.len();
    let mut i: usize = 0;
    while i < n
        invariant
            n == rows@.len(),
            i <= n,
            votes.all_count == i,
            votes.yes@ == yes_ids(rows@.subrange(0, i as int)),
            votes.no@ == no_ids(rows@.subrange(0, i as int)),
        decreases n - i,
    {
        let row = rows[i];
        proof {
            let next = rows@.subrange(0, i + 1);
            assert(next.drop_last() =~= rows@.subrange(0, i as int));
            assert(next.last() == row);
        }
        if row.voted {
            if row.vote == true {
                votes.yes.push(row.user_id);
            } else {
                votes.no.push(row.user_id);
            }
        }
        votes.all_count += 1;
        i = i + 1;
    }
    proof {
        assert(rows@.subrange(0, n as int) =~= rows@);
    }
    votes
}

/// Nobody is counted twice: the yes and no votes together are never more than
/// the users asked.
pub proof fn law_votes_within_voters(rows: Seq<VoteRow>)
    ensures
        yes_ids(rows).len() + no_ids(rows).len() <= rows.len(),
    decreases rows.len(),
{
    if rows.len() > 0 {
        law_votes_within_voters(rows.drop_last());
    }
}

/// The statement that gives `count` users the right to vote on an event.
pub fn add_rights_of_voting_query(count: usize) -> (r: String)
    ensures
        r@ == multi_row_text("INSERT INTO votes ( scheduled_id, user_id ) VALUES ( ?, ? )"@, ", ( ?, ? )"@, count as nat),
{
    multi_row_query("INSERT INTO votes ( scheduled_id, user_id ) VALUES ( ?, ? )", ", ( ?, ? )", count)
}

/// The values of that statement: the event, then each user.
pub fn add_rights_of_voting_values(scheduled_id: Id, users: &Vec<Id>) -> (r: Vec<Id>)
    ensures
        r@ == pair_values(users@, scheduled_id, true),
{
    make_pair_values(users, scheduled_id, true)
}

} // verus!
