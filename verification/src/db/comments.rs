//! Comments on photos and events in the database.
use vstd::prelude::*;
use vstd::string::*;
use vstd::utf8::{encode_utf8, is_ascii_chars};
use crate::types::{Id, ShortInfo, CommentFor};
use super::{SqlValue, bytes_are_text, text_bytes, lemma_ascii_bytes_injective};

verus! {

/// A comment as the web interface shows it to a reader.
pub struct CommentInfo {
    pub id: Id,
    pub creation_time: u64,
    pub edit_time: u64,
    pub creator: ShortInfo,
    pub text: String,
    /// the reader wrote it
    pub is_editable: bool,
    /// the reader has not seen it yet
    pub is_new: bool,
}

/// How the target of a comment is written in the `comment_for` column.
pub open spec fn comment_for_text(c: CommentFor) -> Seq<char> {
    match c {
        CommentFor::Event => "event"@,
        CommentFor::Photo => "photo"@,
    }
}

/// The target that the bytes of a `comment_for` column stand for, if any.
pub open spec fn comment_for_from_bytes(b: Seq<u8>) -> Option<CommentFor> {
    if b == encode_utf8("event"@) {
        Some(CommentFor::Event)
    } else if b == encode_utf8("photo"@) {
        Some(CommentFor::Photo)
    } else {
        None
    }
}

impl CommentFor {
    /// The value of the `comment_for` column for this target.
    pub fn to_value(&self) -> (r: SqlValue)
        ensures
            r matches SqlValue::Bytes(b) && b@ == encode_utf8(comment_for_text(*self)),
    {
        let text = match self {
            CommentFor::Event => "event",
            CommentFor::Photo => "photo",
        };
        SqlValue::Bytes(text_bytes(text))
    }
}

/// Every target is read back from the value written for it.
pub proof fn law_comment_for_roundtrip(c: CommentFor)
    ensures
        comment_for_from_bytes(encode_utf8(comment_for_text(c))) == Some(c),
{
    reveal_strlit("event");
    reveal_strlit("photo");
    assert(is_ascii_chars("event"@));
    assert(is_ascii_chars("photo"@));
    assert("event"@ != "photo"@) by { assert("event"@[0] != "photo"@[0]); }
    lemma_ascii_bytes_injective("event"@, "photo"@);
}

/// A comment target read from the database, with the bytes it was read from.
pub struct CommentForIr {
    val: CommentFor,
    bytes: Vec<u8>,
}

impl CommentForIr {
    pub closed spec fn value(&self) -> CommentFor {
        self.val
    }

    pub closed spec fn raw(&self) -> Seq<u8> {
        self.bytes@
    }

    /// Reads a comment target from a column value; the value is handed back
    /// when it is not the text of a target.
    pub fn new(v: SqlValue) -> (r: Result<CommentForIr, SqlValue>)
        ensures
            match v {
                SqlValue::Bytes(b) => match comment_for_from_bytes(b@) {
                    Some(c) => r is Ok && r->Ok_0.value() == c && r->Ok_0.raw() == b@,
                    None => r is Err && r->Err_0 == v,
                },
                _ => r is Err && r->Err_0 == v,
            },
    {
        match v {
            SqlValue::Bytes(bytes) => {
                let val = if bytes_are_text(&bytes, "event") {
                    Some(CommentFor::Event)
                } else if bytes_are_text(&bytes, "photo") {
                    Some(CommentFor::Photo)
                } else {
                    None
                };
                match val {
                    Some(val) => Ok(CommentForIr { val, bytes }),
                    None => Err(SqlValue::Bytes(bytes)),
                }
            },
            _ => Err(v),
        }
    }

    /// The target read.
    pub fn commit(self) -> (r: CommentFor)
        ensures
            r == self.value(),
    {
        self.val
    }

    /// The value the target was read from.
    pub fn rollback(self) -> (r: SqlValue)
        ensures
            r matches SqlValue::Bytes(b) && b@ == self.raw(),
    {
        SqlValue::Bytes(self.bytes)
    }
}

/// One row of the comments, joined with its author and whether the reader
/// has seen it.
pub struct CommentRow {
    pub id: Id,
    pub time: u64,
    pub edit_time: u64,
    pub text: String,
    pub user_id: Id,
    pub user_name: String,
    pub visited_id: Option<Id>,
}

/// The comment a row stands for, as reader `reader_id` sees it: editable when
/// the reader wrote it, new when the reader has not visited it.
pub fn read_comment_fields(reader_id: Id, row: CommentRow) -> (r: CommentInfo)
    ensures
        r.id == row.id,
        r.creation_time == row.time,
        r.edit_time == row.edit_time,
        r.creator.id == row.user_id,
        r.creator.name@ == row.user_name@,
        r.text@ == row.text@,
        r.is_editable == (reader_id == row.user_id),
        r.is_new == (row.visited_id is None),
{
    CommentInfo {
        id: row.id,
        creation_time: row.time,
        edit_time: row.edit_time,
        creator: ShortInfo { id: row.user_id, name: row.user_name },
        text: row.text,
        is_editable: reader_id == row.user_id,
        is_new: if let Some(_) = row.visited_id { false } else { true },
    }
}

} // verus!
