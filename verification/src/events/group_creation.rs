//! Creating a group: the invited users vote whether to join it.
use vstd::prelude::*;
use vstd::string::*;
use std::collections::HashSet;
use crate::types::{Id, Timespec};
use crate::answer_types::{FieldErrorInfo, errors_view, field_error_view, lemma_errors_view_push};
use crate::parse_utils::{decimal, u64_to_string, spec_add_days, add_days, char_digit, lemma_decimal_len, lemma_decimal_chars_are_digits};
use super::{EventId, FullEventInfo};
use crate::mail_writer::{MailWriter, MailWriterBody};

verus! {

broadcast use vstd::std_specs::hash::group_hash_axioms;

/// The group creation event.
pub struct GroupCreation;

/// The kind of the group creation event.
pub const ID: EventId = EventId::GroupCreation;

/// The request to create a group.
pub struct GroupInfo {
    pub name: String,
    pub description: String,
    /// the users invited, as the request lists them
    pub members: Vec<Id>,
}

/// What a group creation keeps: who started it, who is invited, and the group.
pub struct Info {
    pub initiator: Id,
    /// the users invited
    pub members: HashSet<Id>,
    pub name: String,
    pub description: String,
}

/// What the page of a group creation shows.
pub struct GroupCreationInfo {
    pub description: String,
    pub all_count: usize,
    pub yes: usize,
    pub no: usize,
}

impl GroupCreation {
    pub fn new() -> (r: GroupCreation) {
        GroupCreation
    }

    /// The kind of this event.
    pub fn id(&self) -> (r: EventId)
        ensures
            r == EventId::GroupCreation,
    {
        ID
    }
}

/// Complaints about the listed users that do not exist, each named by its
/// identifier; `exists[i]` tells whether user `members[i]` exists.
pub open spec fn missing_member_errors(members: Seq<Id>, exists: Seq<bool>) -> Seq<(Seq<char>, Seq<char>)>
    decreases members.len(),
{
    if members.len() == 0 || exists.len() != members.len() {
        Seq::empty()
    } else {
        let prev = missing_member_errors(members.drop_last(), exists.drop_last());
        if exists.last() { prev } else { prev.push((decimal(members.last() as nat), "not_found"@)) }
    }
}

/// The users invited: those listed that exist, without the one who creates
/// the group.
pub open spec fn accepted_members(members: Seq<Id>, exists: Seq<bool>, user_id: Id) -> Set<Id> {
    Set::new(|id: Id| id != user_id && exists|i: int| 0 <= i < members.len() && exists[i] && members[i] == id)
}

/// All complaints about a request to create a group, in the order they are made.
pub open spec fn creation_errors(
    name: Seq<char>,
    description: Seq<char>,
    group_exists: bool,
    members: Seq<Id>,
    exists: Seq<bool>,
    user_id: Id,
) -> Seq<(Seq<char>, Seq<char>)> {
    (if name.len() == 0 { seq![("name"@, "empty"@)] } else { Seq::empty() })
    + (if description.len() == 0 { seq![("description"@, "empty"@)] } else { Seq::empty() })
    + (if 64 < name.len() { seq![("name"@, "too_long"@)] } else { Seq::empty() })
    + (if 2048 < description.len() { seq![("description"@, "too_long"@)] } else { Seq::empty() })
    + (if group_exists { seq![("group"@, "exists"@)] } else { Seq::empty() })
    + missing_member_errors(members, exists)
    + (if accepted_members(members, exists, user_id).is_empty() { seq![("members"@, "not_found"@)] } else { Seq::empty() })
}

/// Each complaint about a missing member names it by its number, written in
/// decimal digits.
pub proof fn lemma_missing_member_errors_are_numbers(members: Seq<Id>, exists: Seq<bool>)
    ensures
        forall|k: int| 0 <= k < missing_member_errors(members, exists).len() ==> {
            let f = #[trigger] missing_member_errors(members, exists)[k].0;
            &&& f.len() >= 1
            &&& char_digit(f[0]) is Some
        },
    decreases members.len(),
{
    if members.len() != 0 && exists.len() == members.len() {
        lemma_missing_member_errors_are_numbers(members.drop_last(), exists.drop_last());
        lemma_decimal_len(members.last() as nat);
        lemma_decimal_chars_are_digits(members.last() as nat);
    }
}

/// A one-complaint-or-none list holds a complaint exactly when its condition
/// holds and it is that complaint.
pub(crate) proof fn lemma_maybe_contains<A>(cond: bool, p: A, t: A)
    ensures
        (if cond { seq![p] } else { Seq::<A>::empty() }).contains(t) <==> (cond && p == t),
{
    if cond {
        assert(seq![p][0] == p);
    }
}

/// A text is in a concatenation exactly when it is in one of its parts.
pub(crate) proof fn lemma_concat_contains<A>(x: Seq<A>, y: Seq<A>, t: A)
    ensures
        (x + y).contains(t) <==> (x.contains(t) || y.contains(t)),
{
    if (x + y).contains(t) {
        let k = choose|k: int| 0 <= k < (x + y).len() && (x + y)[k] == t;
        if k < x.len() {
            assert(x[k] == t);
        } else {
            assert(y[k - x.len()] == t);
        }
    }
    if x.contains(t) {
        let k = choose|k: int| 0 <= k < x.len() && x[k] == t;
        assert((x + y)[k] == t);
    }
    if y.contains(t) {
        let k = choose|k: int| 0 <= k < y.len() && y[k] == t;
        assert((x + y)[k + x.len()] == t);
    }
}

/// The complaints about a request to create a group, each exactly when its
/// reason holds: an empty name, an empty description, a name of more than 64
/// characters, a description of more than 2048 characters, and a group of
/// that name that exists already.
pub proof fn law_creation_complaints(
    name: Seq<char>,
    description: Seq<char>,
    group_exists: bool,
    members: Seq<Id>,
    exists: Seq<bool>,
    user_id: Id,
)
    ensures
        ({
            let errs = creation_errors(name, description, group_exists, members, exists, user_id);
            let name_f = seq!['n', 'a', 'm', 'e'];
            let description_f = seq!['d', 'e', 's', 'c', 'r', 'i', 'p', 't', 'i', 'o', 'n'];
            let empty_r = seq!['e', 'm', 'p', 't', 'y'];
            let too_long_r = seq!['t', 'o', 'o', '_', 'l', 'o', 'n', 'g'];
            &&& errs.contains((name_f, empty_r)) <==> name.len() == 0
            &&& errs.contains((description_f, empty_r)) <==> description.len() == 0
            &&& errs.contains((name_f, too_long_r)) <==> name.len() > 64
            &&& errs.contains((description_f, too_long_r)) <==> description.len() > 2048
            &&& errs.contains((seq!['g', 'r', 'o', 'u', 'p'], seq!['e', 'x', 'i', 's', 't', 's'])) <==> group_exists
        }),
{
    let name_f = seq!['n', 'a', 'm', 'e'];
    let description_f = seq!['d', 'e', 's', 'c', 'r', 'i', 'p', 't', 'i', 'o', 'n'];
    let group_f = seq!['g', 'r', 'o', 'u', 'p'];
    let empty_r = seq!['e', 'm', 'p', 't', 'y'];
    let too_long_r = seq!['t', 'o', 'o', '_', 'l', 'o', 'n', 'g'];
    let exists_r = seq!['e', 'x', 'i', 's', 't', 's'];
    reveal_strlit("name");
    reveal_strlit("empty");
    reveal_strlit("description");
    reveal_strlit("too_long");
    reveal_strlit("group");
    reveal_strlit("exists");
    reveal_strlit("members");
    reveal_strlit("not_found");
    assert("name"@ =~= name_f);
    assert("description"@ =~= description_f);
    assert("group"@ =~= group_f);
    assert("empty"@ =~= empty_r);
    assert("too_long"@ =~= too_long_r);
    assert("exists"@ =~= exists_r);
    assert(name_f != description_f && name_f != group_f && description_f != group_f) by {
        assert(name_f.len() != description_f.len() && name_f.len() != group_f.len() && description_f.len() != group_f.len());
    }
    assert(empty_r != too_long_r && empty_r != exists_r && too_long_r != exists_r) by {
        assert(empty_r.len() != too_long_r.len() && empty_r[0] != exists_r[1] && too_long_r.len() != exists_r.len());
    }
    assert("members"@ != name_f && "members"@ != description_f && "members"@ != group_f) by {
        assert("members"@.len() != name_f.len() && "members"@.len() != description_f.len() && "members"@.len() != group_f.len());
    }
    let missing = missing_member_errors(members, exists);
    lemma_missing_member_errors_are_numbers(members, exists);
    assert(char_digit('n') is None && char_digit('d') is None && char_digit('g') is None);
    assert forall|t: (Seq<char>, Seq<char>)| t.0 == name_f || t.0 == description_f || t.0 == group_f
        implies !#[trigger] missing.contains(t) by {
        if missing.contains(t) {
            let k = choose|k: int| 0 <= k < missing.len() && missing[k] == t;
            assert(char_digit(missing[k].0[0]) is Some);
        }
    }
    let a = (if name.len() == 0 { seq![("name"@, "empty"@)] } else { Seq::empty() });
    let b = (if description.len() == 0 { seq![("description"@, "empty"@)] } else { Seq::empty() });
    let c = (if 64 < name.len() { seq![("name"@, "too_long"@)] } else { Seq::empty() });
    let d = (if 2048 < description.len() { seq![("description"@, "too_long"@)] } else { Seq::empty() });
    let e = (if group_exists { seq![("group"@, "exists"@)] } else { Seq::empty() });
    let g = (if accepted_members(members, exists, user_id).is_empty() { seq![("members"@, "not_found"@)] } else { Seq::empty() });
    let errs = creation_errors(name, description, group_exists, members, exists, user_id);
    assert(errs =~= a + b + c + d + e + missing + g);
    let targets = seq![(name_f, empty_r), (description_f, empty_r), (name_f, too_long_r), (description_f, too_long_r), (group_f, exists_r)];
    assert forall|i: int| 0 <= i < 5 implies {
        let t = #[trigger] targets[i];
        errs.contains(t) <==> (a.contains(t) || b.contains(t) || c.contains(t) || d.contains(t) || e.contains(t))
    } by {
        let t = targets[i];
        lemma_concat_contains(a + b + c + d + e + missing, g, t);
        lemma_concat_contains(a + b + c + d + e, missing, t);
        lemma_concat_contains(a + b + c + d, e, t);
        lemma_concat_contains(a + b + c, d, t);
        lemma_concat_contains(a + b, c, t);
        lemma_concat_contains(a, b, t);
        assert(!missing.contains(t));
        lemma_maybe_contains(accepted_members(members, exists, user_id).is_empty(), ("members"@, "not_found"@), t);
        assert(!g.contains(t));
    }
    assert forall|i: int| 0 <= i < 5 implies {
        let t = #[trigger] targets[i];
        &&& a.contains(t) <==> (name.len() == 0 && ("name"@, "empty"@) == t)
        &&& b.contains(t) <==> (description.len() == 0 && ("description"@, "empty"@) == t)
        &&& c.contains(t) <==> (64 < name.len() && ("name"@, "too_long"@) == t)
        &&& d.contains(t) <==> (2048 < description.len() && ("description"@, "too_long"@) == t)
        &&& e.contains(t) <==> (group_exists && ("group"@, "exists"@) == t)
    } by {
        let t = targets[i];
        lemma_maybe_contains(name.len() == 0, ("name"@, "empty"@), t);
        lemma_maybe_contains(description.len() == 0, ("description"@, "empty"@), t);
        lemma_maybe_contains(64 < name.len(), ("name"@, "too_long"@), t);
        lemma_maybe_contains(2048 < description.len(), ("description"@, "too_long"@), t);
        lemma_maybe_contains(group_exists, ("group"@, "exists"@), t);
    }
    assert(targets[0] == (name_f, empty_r));
    assert(targets[1] == (description_f, empty_r));
    assert(targets[2] == (name_f, too_long_r));
    assert(targets[3] == (description_f, too_long_r));
    assert(targets[4] == (group_f, exists_r));
}

fn push_error_if(errors: &mut Vec<FieldErrorInfo>, cond: bool, e: FieldErrorInfo)
    ensures
        errors_view(final(errors)@) == errors_view(old(errors)@)
            + (if cond { seq![field_error_view(e)] } else { Seq::<(Seq<char>, Seq<char>)>::empty() }),
{
    if cond {
        proof { lemma_errors_view_push(errors@, e); }
        errors.push(e);
    }
    proof {
        if cond {
            assert(errors_view(old(errors)@).push(field_error_view(e)) =~= errors_view(old(errors)@) + seq![field_error_view(e)]);
        } else {
            assert(errors_view(old(errors)@) + Seq::<(Seq<char>, Seq<char>)>::empty() =~= errors_view(old(errors)@));
        }
    }
}

/// Checks a request of user `user_id` to create a group; `group_exists` tells
/// whether a group with that name exists and `member_exists[i]` whether the
/// user `group_info.members[i]` exists.  The data of the new event, or the
/// complaints.
pub fn check_creation(
    group_info: &GroupInfo,
    user_id: Id,
    group_exists: bool,
    member_exists: &Vec<bool>,
) -> (r: Result<Info, Vec<FieldErrorInfo>>)
    requires
        member_exists@.len() == group_info.members@.len(),
    ensures
        ({
            let errs = creation_errors(group_info.name@, group_info.description@, group_exists,
                group_info.members@, member_exists@, user_id);
            &&& (r is Err <==> errs.len() > 0)
            &&& (r is Err ==> errors_view(r->Err_0@) == errs)
            &&& (r is Ok ==> {
                    let info = r->Ok_0;
                    &&& info.initiator == user_id
                    &&& info.name@ == group_info.name@
                    &&& info.description@ == group_info.description@
                    &&& info.members@ == accepted_members(group_info.members@, member_exists@, user_id)
                })
        }),
{
    let mut errors: Vec<FieldErrorInfo> = Vec::new();
    proof { assert(errors_view(errors@) =~= Seq::empty()); }
    push_error_if(&mut errors, group_info.name.as_str().is_empty(), FieldErrorInfo::empty("name"));
    push_error_if(&mut errors, group_info.description.as_str().is_empty(), FieldErrorInfo::empty("description"));
    push_error_if(&mut errors, 64 < group_info.name.as_str().unicode_len(), FieldErrorInfo::too_long("name"));
    push_error_if(&mut errors, 2048 < group_info.description.as_str().unicode_len(), FieldErrorInfo::too_long("description"));
    push_error_if(&mut errors, group_exists, FieldErrorInfo::new("group", "exists"));
    let ghost head = errors_view(errors@);
    let members = &group_info.members;
    let n = members.len();
    let mut invited: HashSet<Id> = HashSet::new();
    let mut i: usize = 0;
    while i < n
        invariant
            n == members@.len(),
            n == member_exists@.len(),
            i <= n,
            errors_view(errors@) == head + missing_member_errors(members@.subrange(0, i as int), member_exists@.subrange(0, i as int)),
            forall|id: Id| #[trigger] invited@.contains(id) <==>
                (exists|j: int| 0 <= j < i && member_exists@[j] && members@[j] == id),
        decreases n - i,
    {
        let id = members[i];
        let ghost pm = members@.subrange(0, i + 1);
        let ghost pe = member_exists@.subrange(0, i + 1);
        proof {
            assert(pm.drop_last() =~= members@.subrange(0, i as int));
            assert(pe.drop_last() =~= member_exists@.subrange(0, i as int));
        }
        let ghost old_inv = invited@;
        if member_exists[i] {
            invited.insert(id);
        } else {
            let id_str = u64_to_string(id);
            let e = FieldErrorInfo::not_found(id_str.as_str());
            proof { lemma_errors_view_push(errors@, e); }
            errors.push(e);
        }
        proof {
            assert forall|x: Id| #[trigger] invited@.contains(x) <==>
                (exists|j: int| 0 <= j < i + 1 && member_exists@[j] && members@[j] == x) by {
                if member_exists@[i as int] && x == id {
                    assert(member_exists@[i as int] && members@[i as int] == x);
                }
                if exists|j: int| 0 <= j < i + 1 && member_exists@[j] && members@[j] == x {
                    let j = choose|j: int| 0 <= j < i + 1 && member_exists@[j] && members@[j] == x;
                    if j < i {
                        assert(old_inv.contains(x));
                    }
                }
                if old_inv.contains(x) {
                    let j = choose|j: int| 0 <= j < i && member_exists@[j] && members@[j] == x;
                    assert(0 <= j < i + 1 && member_exists@[j] && members@[j] == x);
                }
            }
        }
        i = i + 1;
    }
    proof {
        assert(members@.subrange(0, n as int) =~= members@);
        assert(member_exists@.subrange(0, n as int) =~= member_exists@);
    }
    // the creator of the group is not invited
    invited.remove(&user_id);
    proof {
        let acc = accepted_members(members@, member_exists@, user_id);
        assert(invited@ =~= acc);
    }
    push_error_if(&mut errors, invited.is_empty(), FieldErrorInfo::not_found("members"));
    if errors.len() != 0 {
        return Err(errors);
    }
    Ok(Info {
        initiator: user_id,
        members: invited,
        name: group_info.name.clone(),
        description: group_info.description.clone(),
    })
}

/// The group creation event started by `user_id` at `now`, open for three
/// days, with its encoded `Info`.
pub fn creation_event(name: &String, user_id: Id, now: &Timespec, encoded_data: String) -> (r: FullEventInfo)
    requires
        now.sec + 3 * 86400 <= i64::MAX,
    ensures
        r.id == EventId::GroupCreation,
        r.name@ == name@,
        r.start_time == *now,
        r.end_time == spec_add_days(*now, 3),
        r.data@ == encoded_data@,
        r.group is None,
        r.creator == Some(user_id),
{
    FullEventInfo {
        id: ID,
        name: name.clone(),
        start_time: *now,
        end_time: add_days(now, 3),
        data: encoded_data,
        group: None,
        creator: Some(user_id),
    }
}

/// What happens when the vote on a new group ends.
pub enum FinishPlan {
    /// create the group with these members, the initiator last
    CreateGroup { members: Vec<Id> },
    /// nobody agreed: tell the initiator
    NobodyJoined,
    /// a group with that name appeared meanwhile: tell these users
    NameTaken { notify: Vec<Id> },
}

/// The end of a group creation: with `yes` the users that agreed, and
/// `group_exists` whether a group of that name exists by now.
pub fn finish_plan(group_exists: bool, yes: &Vec<Id>, initiator: Id) -> (r: FinishPlan)
    ensures
        !group_exists && yes@.len() > 0 ==> (r matches FinishPlan::CreateGroup { members } && members@ == yes@.push(initiator)),
        !group_exists && yes@.len() == 0 ==> r is NobodyJoined,
        group_exists ==> (r matches FinishPlan::NameTaken { notify } && notify@ == yes@.push(initiator)),
{
    let mut users = yes.clone();
    if !group_exists {
        if yes.len() != 0 {
            users.push(initiator);
            FinishPlan::CreateGroup { members: users }
        } else {
            FinishPlan::NobodyJoined
        }
    } else {
        users.push(initiator);
        FinishPlan::NameTaken { notify: users }
    }
}

/// Who is told at the end of a group creation, and the mail they get (its
/// subject and body): the new members are welcomed to the group; when nobody
/// agreed, the initiator learns that the group was not created; when the name
/// was taken meanwhile, those who agreed and the initiator learn it.
pub fn finish_notice(writer: &MailWriterBody, plan: &FinishPlan, initiator: Id, group_name: &str) -> (r: (Vec<Id>, String, String))
    ensures
        plan matches FinishPlan::CreateGroup { members } ==> {
            &&& r.0@ == members@
            &&& r.1@ == "Добро пожаловать в группу \""@ + group_name@ + "\""@
            &&& r.2@ == "Группа с именем **"@ + group_name@ + "** создана. Развлекайтесь!"@
        },
        plan is NobodyJoined ==> {
            &&& r.0@ == seq![initiator]
            &&& r.1@ == "Группа '"@ + group_name@ + "' не создана"@
            &&& r.2@ == "К сожалению ни один из приглашенных вами пользователей не согласился создать группу."@
        },
        plan matches FinishPlan::NameTaken { notify } ==> {
            &&& r.0@ == notify@
            &&& r.1@ == "Группа с именем '"@ + group_name@ + "' уже существует"@
            &&& r.2@ == "Группа с именем **"@ + group_name@ + "** была уже создана за время пока вы решали создавать вашу группу или нет.\nСоздайте новую группу с другим именем или присоединитесь к существующей"@
        },
{
    match plan {
        FinishPlan::CreateGroup { members } => {
            let (subject, mail) = writer.write_welcome_to_group_mail(group_name);
            (members.clone(), subject, mail)
        },
        FinishPlan::NobodyJoined => {
            let (subject, mail) = writer.write_nobody_need_your_group_mail(group_name);
            let mut to: Vec<Id> = Vec::new();
            to.push(initiator);
            (to, subject, mail)
        },
        FinishPlan::NameTaken { notify } => {
            let (subject, mail) = writer.write_group_name_already_exists_mail(group_name);
            (notify.clone(), subject, mail)
        },
    }
}

/// What the page of a group creation shows: the description and the votes.
pub fn creation_info(info: &Info, all_count: usize, yes_count: usize, no_count: usize) -> (r: GroupCreationInfo)
    ensures
        r.description@ == info.description@,
        r.all_count == all_count,
        r.yes == yes_count,
        r.no == no_count,
{
    GroupCreationInfo { description: info.description.clone(), all_count, yes: yes_count, no: no_count }
}

} // verus!
