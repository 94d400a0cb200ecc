//! What each user has already seen.
use vstd::prelude::*;
use vstd::string::*;
use vstd::utf8::{encode_utf8, is_ascii_chars};
use crate::types::Id;
use super::{SqlValue, bytes_are_text, text_bytes, lemma_ascii_bytes_injective, multi_row_query, multi_row_text};

verus! {

/// The kinds of content that are marked as seen.
#[derive(Clone, Copy, Debug, PartialEq, Eq, Structural)]
pub enum VisitedContent {
    Feed,
    Comment,
}

/// How a kind of content is written in the `content_type` column.
pub open spec fn visited_text(c: VisitedContent) -> Seq<char> {
    match c {
        VisitedContent::Feed => "feed"@,
        VisitedContent::Comment => "comment"@,
    }
}

/// The kind of content that the bytes of a `content_type` column stand for.
pub open spec fn visited_from_bytes(b: Seq<u8>) -> Option<VisitedContent> {
    if b == encode_utf8("feed"@) {
        Some(VisitedContent::Feed)
    } else if b == encode_utf8("comment"@) {
        Some(VisitedContent::Comment)
    } else {
        None
    }
}

impl VisitedContent {
    /// The value of the `content_type` column for this kind.
    pub fn to_value(&self) -> (r: SqlValue)
        ensures
            r matches SqlValue::Bytes(b) && b@ == encode_utf8(visited_text(*self)),
    {
        let text = match self {
            VisitedContent::Feed => "feed",
            VisitedContent::Comment => "comment",
        };
        SqlValue::Bytes(text_bytes(text))
    }
}

/// Every kind is read back from the value written for it.
pub proof fn law_visited_roundtrip(c: VisitedContent)
    ensures
        visited_from_bytes(encode_utf8(visited_text(c))) == Some(c),
{
    reveal_strlit("feed");
    reveal_strlit("comment");
    assert(is_ascii_chars("feed"@));
    assert(is_ascii_chars("comment"@));
    assert("feed"@ != "comment"@) by { assert("feed"@.len() != "comment"@.len()); }
    lemma_ascii_bytes_injective("feed"@, "comment"@);
}

/// A kind of content read from the database, with the bytes it was read from.
pub struct VisitedContentIr {
    val: VisitedContent,
    bytes: Vec<u8>,
}

impl VisitedContentIr {
    pub closed spec fn value(&self) -> VisitedContent {
        self.val
    }

    pub closed spec fn raw(&self) -> Seq<u8> {
        self.bytes@
    }

    /// Reads a kind of content from a column value; the value is handed back
    /// when it is not the text of a kind.
    pub fn new(v: SqlValue) -> (r: Result<VisitedContentIr, SqlValue>)
        ensures
            match v {
                SqlValue::Bytes(b) => match visited_from_bytes(b@) {
                    Some(c) => r is Ok && r->Ok_0.value() == c && r->Ok_0.raw() == b@,
                    None => r is Err && r->Err_0 == v,
                },
                _ => r is Err && r->Err_0 == v,
            },
    {
        match v {
            SqlValue::Bytes(bytes) => {
                let val = if bytes_are_text(&bytes, "feed") {
                    Some(VisitedContent::Feed)
                } else if bytes_are_text(&bytes, "comment") {
                    Some(VisitedContent::Comment)
                } else {
                    None
                };
                match val {
                    Some(val) => Ok(VisitedContentIr { val, bytes }),
                    None => Err(SqlValue::Bytes(bytes)),
                }
            },
            _ => Err(v),
        }
    }

    /// The kind read.
    pub fn commit(self) -> (r: VisitedContent)
        ensures
            r == self.value(),
    {
        self.val
    }

    /// The value the kind was read from.
    pub fn rollback(self) -> (r: SqlValue)
        ensures
            r matches SqlValue::Bytes(b) && b@ == self.raw(),
    {
        SqlValue::Bytes(self.bytes)
    }
}

/// The statement that marks `count` items as seen; `None` when there is
/// nothing to mark.
pub fn set_visited_query(count: usize) -> (r: Option<String>)
    ensures
        count == 0 ==> r is None,
        count > 0 ==> r is Some && r->0@ == multi_row_text(
            "INSERT INTO visited ( user_id, content_type, content_id ) VALUES( ?, ?, ? )"@, ", (?, ?, ?)"@, count as nat),
{
    if count == 0 {
        return None;
    }
    Some(multi_row_query("INSERT INTO visited ( user_id, content_type, content_id ) VALUES( ?, ?, ? )", ", (?, ?, ?)", count))
}

} // verus!
