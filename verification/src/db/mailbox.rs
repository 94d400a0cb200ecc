//! The users' mailboxes.
use vstd::prelude::*;
use vstd::string::*;
use crate::parse_utils::{spec_str_between, str_between, spec_parse_u64, parse_u64};

verus! {

/// The condition that keeps only unread messages, where asked for.
pub open spec fn unread_condition(only_unreaded: bool) -> Seq<char> {
    if only_unreaded { " AND readed='false'"@ } else { ""@ }
}

/// The statement that counts the messages of a recipient.
pub fn messages_count_query(only_unreaded: bool) -> (r: String)
    ensures
        r@ == "SELECT COUNT(id) FROM mailbox WHERE recipient_id=? "@ + unread_condition(only_unreaded) + ";"@,
{
    let mut query = String::from_str("SELECT COUNT(id) FROM mailbox WHERE recipient_id=? ");
    if only_unreaded {
        query.append(" AND readed='false'");
    }
    query.append(";");
    proof {
        if !only_unreaded {
            reveal_strlit("");
            assert(query@ =~= "SELECT COUNT(id) FROM mailbox WHERE recipient_id=? "@ + ""@ + ";"@);
        }
    }
    query
}

/// The statement that reads a page of the messages of a recipient, newest
/// first, unread ones only where asked for.
pub fn messages_from_last_query(only_unreaded: bool) -> (r: String)
    ensures
        r@ == "SELECT id, creation_time, sender_name, subject, body, readed FROM mailbox WHERE recipient_id = ? "@
            + (if only_unreaded { "AND readed='false'"@ } else { ""@ })
            + " ORDER BY creation_time DESC LIMIT ? OFFSET ?;"@,
{
    let mut query = String::from_str(
        "SELECT id, creation_time, sender_name, subject, body, readed FROM mailbox WHERE recipient_id = ? ");
    let ghost head = query@;
    if only_unreaded {
        query.append("AND readed='false'");
    }
    proof {
        reveal_strlit("");
        if !only_unreaded {
            assert(query@ =~= head + ""@);
        }
    }
    query.append(" ORDER BY creation_time DESC LIMIT ? OFFSET ?;");
    query
}

/// What `u32::from_str` gives back: the `u64` value where it fits in 32 bits.
pub open spec fn spec_parse_u32(s: Seq<char>) -> Option<u32> {
    match spec_parse_u64(s) {
        Some(v) => if v <= u32::MAX { Some(v as u32) } else { None },
        None => None,
    }
}

/// The number of rows that an update matched, as the server reports it in
/// the text "Rows matched: N  Changed: M  Warnings: W"; `None` where the text
/// says no such number.
pub open spec fn spec_matched_rows(info: Seq<char>) -> Option<u32> {
    match spec_str_between(info, "matched: "@, " "@) {
        Some(t) => spec_parse_u32(t),
        None => None,
    }
}

/// Reads the number of matched rows from the report of an update.
pub fn matched_rows(info: &str) -> (r: Option<u32>)
    ensures
        r == spec_matched_rows(info@),
{
    match str_between(info, "matched: ", " ") {
        None => None,
        Some(t) => match parse_u64(t.as_str()) {
            None => None,
            Some(v) => if v <= 4294967295 { Some(v as u32) } else { None },
        },
    }
}

/// Marking a message read succeeded when the update matched exactly one of
/// the recipient's messages; `None` where the report holds no count.
pub fn marked_as_readed(info: &str) -> (r: Option<bool>)
    ensures
        match spec_matched_rows(info@) {
            Some(n) => r == Some(n == 1),
            None => r is None,
        },
{
    match matched_rows(info) {
        Some(n) => Some(n == 1),
        None => None,
    }
}

} // verus!
