//! What the library makes of database rows, and the statements it sends.
use vstd::prelude::*;
use vstd::string::*;
use vstd::utf8::{encode_utf8, is_ascii_chars, is_ascii_chars_encode_utf8};
use crate::types::Id;

pub mod votes;
pub mod events;
pub mod group_feed;
pub mod comments;
pub mod photos;
pub mod visited;
pub mod comment_message_link;
pub mod groups;
pub mod users;
pub mod mailbox;
pub mod publication;
pub mod timetable;

verus! {

/// A value of a database column, as far as the library reads it.
pub enum SqlValue {
    NULL,
    Bytes(Vec<u8>),
    Int(i64),
    UInt(u64),
    /// a value of any other kind (dates, times, floating point numbers)
    Other,
}

/// The bytes of the UTF-8 text `s`.
pub fn text_bytes(s: &str) -> (r: Vec<u8>)
    ensures
        r@ == encode_utf8(s@),
{
    s.as_bytes_vec()
}

/// The two byte strings are equal.
pub fn bytes_equal(a: &[u8], b: &[u8]) -> (r: bool)
    ensures
        r == (a@ == b@),
{
    if a.len() != b.len() {
        return false;
    }
    let n = a.len();
    let mut i: usize = 0;
    while i < n
        invariant
            n == a@.len(),
            n == b@.len(),
            i <= n,
            forall|j: int| 0 <= j < i ==> a@[j] == b@[j],
        decreases n - i,
    {
        if a[i] != b[i] {
            return false;
        }
        i = i + 1;
    }
    assert(a@ =~= b@);
    true
}

/// The byte string `b` is the UTF-8 text `s`.
pub fn bytes_are_text(b: &Vec<u8>, s: &str) -> (r: bool)
    ensures
        r == (b@ == encode_utf8(s@)),
{
    let t = text_bytes(s);
    bytes_equal(b.as_slice(), t.as_slice())
}

/// Two ASCII texts have the same UTF-8 bytes only when they are the same text.
pub proof fn lemma_ascii_bytes_injective(a: Seq<char>, b: Seq<char>)
    requires
        is_ascii_chars(a),
        is_ascii_chars(b),
        a != b,
    ensures
        encode_utf8(a) != encode_utf8(b),
{
    is_ascii_chars_encode_utf8(a);
    is_ascii_chars_encode_utf8(b);
    if a.len() == b.len() {
        let i = choose|i: int| 0 <= i < a.len() && a[i] != b[i];
        if !(a =~= b) {
            assert(exists|i: int| 0 <= i < a.len() && a[i] != b[i]);
        }
        assert(a[i] as u8 != b[i] as u8);
    }
}

/// `tail` written `count` times.
pub open spec fn repeat(tail: Seq<char>, count: nat) -> Seq<char>
    decreases count,
{
    if count == 0 { Seq::empty() } else { repeat(tail, (count - 1) as nat) + tail }
}

/// A statement for `count` rows: `head`, then `tail` once more for each row
/// after the first.
pub open spec fn multi_row_text(head: Seq<char>, tail: Seq<char>, count: nat) -> Seq<char> {
    head + repeat(tail, if count > 0 { (count - 1) as nat } else { 0 })
}

/// Builds the text of a statement for `count` rows.
pub fn multi_row_query(head: &str, tail: &str, count: usize) -> (r: String)
    ensures
        r@ == multi_row_text(head@, tail@, count as nat),
{
    let mut query = String::from_str(head);
    let mut i: usize = 1;
    while i < count
        invariant
            1 <= i,
            i <= if count > 0 { count } else { 1 },
            query@ == head@ + repeat(tail@, (i - 1) as nat),
        decreases count - i,
    {
        query.append(tail);
        proof {
            assert(head@ + repeat(tail@, (i - 1) as nat) + tail@ =~= head@ + repeat(tail@, i as nat));
        }
        i = i + 1;
    }
    proof {
        assert(head@ + repeat(tail@, 0) =~= head@);
    }
    query
}

/// The values of statements that insert pairs: for each of `items`, the pair
/// (item, `fixed`) or (`fixed`, item).
pub open spec fn pair_values(items: Seq<Id>, fixed: Id, fixed_first: bool) -> Seq<Id>
    decreases items.len(),
{
    if items.len() == 0 {
        Seq::empty()
    } else {
        let prev = pair_values(items.drop_last(), fixed, fixed_first);
        if fixed_first { prev.push(fixed).push(items.last()) } else { prev.push(items.last()).push(fixed) }
    }
}

/// Lists the values of a statement that inserts one pair per item.
pub fn make_pair_values(items: &Vec<Id>, fixed: Id, fixed_first: bool) -> (r: Vec<Id>)
    ensures
        r@ == pair_values(items@, fixed, fixed_first),
{
    let mut values: Vec<Id> = Vec::new();
    let n = items.len();
    let mut i: usize = 0;
    while i < n
        invariant
            n == items@.len(),
            i <= n,
            values@ == pair_values(items@.subrange(0, i as int), fixed, fixed_first),
        decreases n - i,
    {
        proof {
            let next = items@.subrange(0, i + 1);
            assert(next.drop_last() =~= items@.subrange(0, i as int));
            assert(next.last() == items@[i as int]);
        }
        if fixed_first {
            values.push(fixed);
            values.push(items[i]);
        } else {
            values.push(items[i]);
            values.push(fixed);
        }
        i = i + 1;
    }
    proof {
        assert(items@.subrange(0, n as int) =~= items@);
    }
    values
}

} // verus!
