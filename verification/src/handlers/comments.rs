//! Comments: the checks of a new comment, which comments a reader sees for
//! the first time, and the users a comment mentions with "@name".
use vstd::prelude::*;
use vstd::string::*;
use crate::types::{Id, ShortInfo, CommentFor, CommonError};
use crate::authentication::User;
use crate::answer_types::FieldErrorInfo;
use crate::db::comments::CommentInfo;

verus! {

/// How many comments one page shows.
pub const IN_PAGE_COUNT: u32 = 10;
/// The longest comment accepted, in characters.
pub const MAX_COMMENT_LENGTH: usize = 8192;

/// The complaint about a comment's text, if any: it is empty, or longer than
/// `MAX_COMMENT_LENGTH` characters.
pub open spec fn spec_comment_error(text: Seq<char>) -> Option<Seq<char>> {
    if text.len() == 0 {
        Some("empty"@)
    } else if text.len() > MAX_COMMENT_LENGTH {
        Some("too_long"@)
    } else {
        None
    }
}

/// Checks the text of a new or edited comment; the complaint is about the
/// field "text".
pub fn check_comment(text: &str) -> (r: Option<FieldErrorInfo>)
    ensures
        match spec_comment_error(text@) {
            Some(why) => r is Some && r->0.field@ == "text"@ && r->0.reason@ == why,
            None => r is None,
        },
{
    if text.is_empty() {
        return Some(FieldErrorInfo::empty("text"));
    }
    if MAX_COMMENT_LENGTH < text.unicode_len() {
        return Some(FieldErrorInfo::too_long("text"));
    }
    None
}

/// The identifiers of the comments that the reader has not seen, in order.
pub open spec fn new_ids(comments: Seq<CommentInfo>) -> Seq<Id>
    decreases comments.len(),
{
    if comments.len() == 0 {
        Seq::empty()
    } else {
        let c = comments.last();
        if c.is_new { new_ids(comments.drop_last()).push(c.id) } else { new_ids(comments.drop_last()) }
    }
}

/// Lists the comments that the reader sees for the first time.
pub fn new_comment_ids(comments: &Vec<CommentInfo>) -> (r: Vec<Id>)
    ensures
        r@ == new_ids(comments@),
{
    let mut ids: Vec<Id> = Vec::new();
    let n = comments.len();
    let mut i: usize = 0;
    while i < n
        invariant
            n == comments@.len(),
            i <= n,
            ids@ == new_ids(comments@.subrange(0, i as int)),
        decreases n - i,
    {
        proof {
            let next = comments@.subrange(0, i + 1);
            assert(next.drop_last() =~= comments@.subrange(0, i as int));
            assert(next.last() == comments@[i as int]);
        }
        if comments[i].is_new {
            ids.push(comments[i].id);
        }
        i = i + 1;
    }
    proof {
        assert(comments@.subrange(0, n as int) =~= comments@);
    }
    ids
}

/// The pattern of a mention: "@" and the word after it.
pub const MENTION_PATTERN: &'static str = "@(\\w+)";

/// What group `group` captured in each match, match after match, when the
/// regular expression `pattern` of the `regex` crate runs over `text`: its
/// text, or `None` in a match where the group took no part; `None` as a whole
/// where `Regex::new` refuses the pattern.
pub uninterp spec fn regex_group_captures(pattern: Seq<char>, text: Seq<char>, group: usize) -> Option<Seq<Option<Seq<char>>>>;

/// The texts of a list of optional strings.
pub open spec fn opt_texts(v: Seq<Option<String>>) -> Seq<Option<Seq<char>>> {
    v.map_values(|o: Option<String>| match o { Some(s) => Some(s@), None => None })
}

/// Calls `regex::Regex::new` and `Regex::captures_iter`, and gives for each
/// match what `Captures::get(group)` found.  The result is named by
/// `regex_group_captures`.
#[verifier::external_body]
fn group_captures(pattern: &str, text: &str, group: usize) -> (r: Option<Vec<Option<String>>>)
    ensures
        match regex_group_captures(pattern@, text@, group) {
            Some(caps) => r is Some && opt_texts(r->0@) == caps,
            None => r is None,
        },
{
    match regex::Regex::new(pattern) {
        Ok(re) => Some(re.captures_iter(text).map(|caps| caps.get(group).map(|m| m.as_str().to_owned())).collect()),
        Err(_) => None,
    }
}

/// What `str::to_lowercase` gives for `s`.
pub uninterp spec fn lowercase(s: Seq<char>) -> Seq<char>;

/// Calls `str::to_lowercase`; the result is named by `lowercase`.
#[verifier::external_body]
fn to_lowercase(s: &str) -> (r: String)
    ensures
        r@ == lowercase(s@),
{
    s.to_lowercase()
}

/// The texts of a list of strings.
pub open spec fn texts(v: Seq<String>) -> Seq<Seq<char>> {
    v.map_values(|s: String| s@)
}

/// No text occurs twice.
pub open spec fn no_duplicates(s: Seq<Seq<char>>) -> bool {
    forall|i: int, j: int| 0 <= i < s.len() && 0 <= j < s.len() && i != j ==> s[i] != s[j]
}

/// The lower-case forms of the names that were captured.
pub open spec fn lowered(caps: Seq<Option<Seq<char>>>) -> Set<Seq<char>> {
    Set::new(|x: Seq<char>| exists|i: int| 0 <= i < caps.len() && caps[i] is Some && x == lowercase(caps[i]->0))
}

fn contains_text(v: &Vec<String>, x: &String) -> (r: bool)
    ensures
        r == texts(v@).contains(x@),
{
    let n = v.len();
    let mut i: usize = 0;
    while i < n
        invariant
            n == v@.len(),
            i <= n,
            forall|j: int| 0 <= j < i ==> v@[j]@ != x@,
        decreases n - i,
    {
        if v[i] == *x {
            assert(texts(v@)[i as int] == x@);
            return true;
        }
        i = i + 1;
    }
    assert forall|j: int| 0 <= j < texts(v@).len() implies texts(v@)[j] != x@ by {
        assert(texts(v@)[j] == v@[j]@);
    }
    false
}

/// The users a comment mentions: the lower-case names after each "@", each
/// once; `None` where the mention pattern is refused.
pub fn make_notice_set(msg: &str) -> (r: Option<Vec<String>>)
    ensures
        match regex_group_captures(MENTION_PATTERN@, msg@, 1) {
            Some(caps) => r is Some && no_duplicates(texts(r->0@)) && texts(r->0@).to_set() == lowered(caps),
            None => r is None,
        },
{
    let names = match group_captures(MENTION_PATTERN, msg, 1) {
        Some(names) => names,
        None => return None,
    };
    let ghost all = opt_texts(names@);
    let mut result: Vec<String> = Vec::new();
    let n = names.len();
    let mut i: usize = 0;
    while i < n
        invariant
            n == names@.len(),
            all == opt_texts(names@),
            i <= n,
            no_duplicates(texts(result@)),
            texts(result@).to_set() == lowered(all.take(i as int)),
        decreases n - i,
    {
        let ghost before = texts(result@);
        let ghost prev = all.take(i as int);
        let ghost next = all.take(i + 1);
        proof {
            assert(all[i as int] == (match names@[i as int] { Some(s) => Some(s@), None => None::<Seq<char>> }));
            assert forall|k: int| 0 <= k < i implies #[trigger] next[k] == prev[k] by {}
        }
        match &names[i] {
            Some(name) => {
                let lower = to_lowercase(name.as_str());
                if !contains_text(&result, &lower) {
                    result.push(lower);
                    proof {
                        assert(texts(result@) =~= before.push(lower@));
                        assert forall|a: int, b: int| 0 <= a < texts(result@).len() && 0 <= b < texts(result@).len() && a != b
                            implies texts(result@)[a] != texts(result@)[b] by {
                            if a < before.len() && b < before.len() {
                            } else if a < before.len() {
                                assert(before.contains(before[a]));
                            } else {
                                assert(before.contains(before[b]));
                            }
                        }
                    }
                }
                proof {
                    assert forall|x: Seq<char>| #[trigger] texts(result@).to_set().contains(x) <==> lowered(next).contains(x) by {
                        if lowered(next).contains(x) {
                            let k = choose|k: int| 0 <= k < next.len() && next[k] is Some && x == lowercase(next[k]->0);
                            if k < i {
                                assert(lowered(prev).contains(x));
                                assert(before.to_set().contains(x));
                                let m = choose|m: int| 0 <= m < before.len() && before[m] == x;
                                assert(texts(result@)[m] == x);
                            } else {
                                assert(x == lower@);
                                if before.contains(x) {
                                    let m = choose|m: int| 0 <= m < before.len() && before[m] == x;
                                    assert(texts(result@)[m] == x);
                                } else {
                                    assert(texts(result@).last() == x);
                                }
                            }
                        }
                        if texts(result@).to_set().contains(x) {
                            let m = choose|m: int| 0 <= m < texts(result@).len() && texts(result@)[m] == x;
                            if m < before.len() {
                                assert(before.to_set().contains(x));
                                assert(lowered(prev).contains(x));
                                let k = choose|k: int| 0 <= k < prev.len() && prev[k] is Some && x == lowercase(prev[k]->0);
                                assert(next[k] == prev[k]);
                            } else {
                                assert(x == lowercase(next[i as int]->0));
                            }
                        }
                    }
                    assert(texts(result@).to_set() =~= lowered(next));
                }
            },
            None => {
                proof {
                    assert forall|x: Seq<char>| lowered(next).contains(x) <==> #[trigger] lowered(prev).contains(x) by {
                        if lowered(next).contains(x) {
                            let k = choose|k: int| 0 <= k < next.len() && next[k] is Some && x == lowercase(next[k]->0);
                            assert(k != i);
                            assert(next[k] == prev[k]);
                        }
                        if lowered(prev).contains(x) {
                            let k = choose|k: int| 0 <= k < prev.len() && prev[k] is Some && x == lowercase(prev[k]->0);
                            assert(next[k] == prev[k]);
                        }
                    }
                    assert(lowered(next) =~= lowered(prev));
                }
            },
        }
        i = i + 1;
    }
    proof {
        assert(all.take(n as int) =~= all);
    }
    Some(result)
}

/// The mentions without the name `name` (compared in lower case): the
/// author, or the owner who is told anyway, gets no notice of a mention.
pub fn remove_mention(notices: Vec<String>, name: &str) -> (r: Vec<String>)
    requires
        no_duplicates(texts(notices@)),
    ensures
        no_duplicates(texts(r@)),
        texts(r@).to_set() == texts(notices@).to_set().remove(lowercase(name@)),
{
    let lower = to_lowercase(name);
    let ghost all = texts(notices@);
    let mut result: Vec<String> = Vec::new();
    let n = notices.len();
    let mut i: usize = 0;
    while i < n
        invariant
            n == notices@.len(),
            all == texts(notices@),
            i <= n,
            lower@ == lowercase(name@),
            no_duplicates(all),
            no_duplicates(texts(result@)),
            texts(result@).to_set() == all.take(i as int).to_set().remove(lower@),
        decreases n - i,
    {
        let item = notices[i].clone();
        let ghost before = texts(result@);
        let ghost prev = all.take(i as int);
        let ghost next = all.take(i + 1);
        proof {
            assert(all[i as int] == item@);
            assert(next =~= prev.push(item@));
            assert(!prev.contains(item@)) by {
                if prev.contains(item@) {
                    let k = choose|k: int| 0 <= k < prev.len() && prev[k] == item@;
                    assert(all[k] == all[i as int]);
                }
            }
        }
        if !(item == lower) {
            result.push(item);
            proof {
                assert(texts(result@) =~= before.push(item@));
                assert(!before.contains(item@)) by {
                    if before.contains(item@) {
                        assert(before.to_set().contains(item@));
                        assert(prev.to_set().contains(item@));
                    }
                }
                assert forall|a: int, b: int| 0 <= a < texts(result@).len() && 0 <= b < texts(result@).len() && a != b
                    implies texts(result@)[a] != texts(result@)[b] by {
                    if a < before.len() && b < before.len() {
                    } else if a < before.len() {
                        assert(before.contains(before[a]));
                    } else {
                        assert(before.contains(before[b]));
                    }
                }
            }
        }
        proof {
            assert forall|x: Seq<char>| #[trigger] texts(result@).to_set().contains(x)
                <==> next.to_set().remove(lower@).contains(x) by {
                if next.to_set().remove(lower@).contains(x) {
                    let k = choose|k: int| 0 <= k < next.len() && next[k] == x;
                    if k < i {
                        assert(prev[k] == x);
                        assert(prev.to_set().remove(lower@).contains(x));
                        let m = choose|m: int| 0 <= m < before.len() && before[m] == x;
                        assert(texts(result@)[m] == x);
                    } else {
                        assert(texts(result@).last() == x);
                    }
                }
                if texts(result@).to_set().contains(x) {
                    let m = choose|m: int| 0 <= m < texts(result@).len() && texts(result@)[m] == x;
                    if m < before.len() {
                        assert(before.to_set().contains(x));
                        let k = choose|k: int| 0 <= k < prev.len() && prev[k] == x;
                        assert(next[k] == x);
                    } else {
                        assert(next[i as int] == x);
                    }
                }
            }
            assert(texts(result@).to_set() =~= next.to_set().remove(lower@));
        }
        i = i + 1;
    }
    proof {
        assert(all.take(n as int) =~= all);
    }
    result
}

/// Who is told of a new comment, besides the users it mentions.
pub struct NoticePlan {
    /// the owner of the commented photo gets a mail of its own
    pub notify_owner: bool,
    /// the owner of the commented photo; 0 for an event
    pub owner_id: Id,
    /// the users told of a mention
    pub notices: Vec<String>,
}

/// Plans the notices of a new comment by `commenter`.  A comment on a photo
/// tells the photo's owner, unless the owner wrote it, and the owner gets no
/// second notice for a mention; a photo that cannot be found is an error.  A
/// comment on an event tells the mentioned users only.
pub fn plan_notices(
    notices: Vec<String>,
    comment_for: CommentFor,
    commenter: &User,
    photo_owner: Option<&ShortInfo>,
) -> (r: Result<NoticePlan, CommonError>)
    requires
        no_duplicates(texts(notices@)),
    ensures
        comment_for == CommentFor::Event ==> (r matches Ok(p) && !p.notify_owner && p.owner_id == 0
            && texts(p.notices@) == texts(notices@)),
        comment_for == CommentFor::Photo && photo_owner is None ==> (r matches Err(e) && e.0@ == "invalid photo id"@),
        comment_for == CommentFor::Photo && photo_owner is Some ==> (r matches Ok(p)
            && p.notify_owner == (commenter.id != photo_owner->0.id)
            && p.owner_id == photo_owner->0.id
            && no_duplicates(texts(p.notices@))
            && texts(p.notices@).to_set() == texts(notices@).to_set().remove(lowercase(photo_owner->0.name@))),
{
    match comment_for {
        CommentFor::Photo => match photo_owner {
            None => Err(CommonError(String::from_str("invalid photo id"))),
            Some(owner) => {
                let rest = remove_mention(notices, owner.name.as_str());
                Ok(NoticePlan { notify_owner: commenter.id != owner.id, owner_id: owner.id, notices: rest })
            },
        },
        CommentFor::Event => Ok(NoticePlan { notify_owner: false, owner_id: 0, notices }),
    }
}

} // verus!
