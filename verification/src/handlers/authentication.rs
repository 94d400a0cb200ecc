//! Registration and log-in: the checks of what a visitor sends, the password
//! hash, registration keys and the answer to a log-in.
use vstd::prelude::*;
use vstd::string::*;
use vstd::utf8::encode_utf8;
use crate::types::{Id, ShortInfo};
use crate::answer_types::FieldErrorInfo;
use crate::authentication::{User, SessionsStoreMiddleware, SessionsModel, spec_add_new_session};
use rand::Rng;
use rustc_serialize::base64::ToBase64;

verus! {

/// The route that ends a registration.
pub fn registration_end_path() -> (r: &'static str)
    ensures
        r@ == "/registration/:regkey"@,
{
    "/registration/:regkey"
}

/// The route of the logged-in user's own description.
pub fn user_info_path() -> (r: &'static str)
    ensures
        r@ == "/user_info"@,
{
    "/user_info"
}

/// The longest user name accepted, in bytes.
pub const MAX_USER_NAME_LEN: usize = 24;
/// The longest mail address accepted, in bytes.
pub const MAX_EMAIL_LEN: usize = 128;

/// The first complaint about a registration request, in the order the fields
/// are checked; `None` when both fields pass.
pub open spec fn spec_registration_error(user: Seq<char>, email: Seq<char>) -> Option<(Seq<char>, Seq<char>)> {
    if user.len() == 0 {
        Some(("user"@, "empty"@))
    } else if encode_utf8(user).len() > MAX_USER_NAME_LEN {
        Some(("user"@, "too_long"@))
    } else if email.len() == 0 {
        Some(("email"@, "empty"@))
    } else if encode_utf8(email).len() > MAX_EMAIL_LEN {
        Some(("email"@, "too_long"@))
    } else {
        None
    }
}

/// Checks the name and address of a registration request.
pub fn check_registration(user: &str, email: &str) -> (r: Option<FieldErrorInfo>)
    ensures
        match spec_registration_error(user@, email@) {
            Some((f, why)) => r is Some && r->0.field@ == f && r->0.reason@ == why,
            None => r is None,
        },
{
    if user.is_empty() {
        return Some(FieldErrorInfo::empty("user"));
    }
    if MAX_USER_NAME_LEN < user.as_bytes().len() {
        return Some(FieldErrorInfo::too_long("user"));
    }
    if email.is_empty() {
        return Some(FieldErrorInfo::empty("email"));
    }
    if MAX_EMAIL_LEN < email.as_bytes().len() {
        return Some(FieldErrorInfo::too_long("email"));
    }
    None
}

/// What `crypto::bcrypt::bcrypt(cost, salt, password, ..)` writes into its
/// 24-byte output.
pub uninterp spec fn bcrypt_hash(cost: u32, salt: Seq<u8>, password: Seq<u8>) -> Seq<u8>;

/// Calls `crypto::bcrypt::bcrypt`, which asserts a cost below 32, a salt of 16
/// bytes and a password of 1 to 72 bytes, and fills a 24-byte buffer.  The
/// bytes are named by `bcrypt_hash`.
#[verifier::external_body]
fn bcrypt(cost: u32, salt: &[u8], password: &[u8]) -> (r: Vec<u8>)
    requires
        cost < 32,
        salt@.len() == 16,
        0 < password@.len() <= 72,
    ensures
        r@ == bcrypt_hash(cost, salt@, password@),
        r@.len() == 24,
{
    let mut output: [u8; 24] = [0; 24];
    crypto::bcrypt::bcrypt(cost, salt, password, &mut output);
    output.to_vec()
}

/// The letter of the standard base64 alphabet for the 6-bit value `v`.
pub open spec fn base64_letter(v: int) -> char {
    if v < 26 {
        ('A' as int + v) as char
    } else if v < 52 {
        ('a' as int + (v - 26)) as char
    } else if v < 62 {
        ('0' as int + (v - 52)) as char
    } else if v == 62 {
        '+'
    } else {
        '/'
    }
}

/// Standard base64 (RFC 4648) of `bytes`: each group of three bytes becomes
/// four letters, and a last group of one or two bytes is padded with `=`;
/// no line breaks.
pub open spec fn base64_standard(bytes: Seq<u8>) -> Seq<char>
    decreases bytes.len(),
{
    if bytes.len() == 0 {
        Seq::empty()
    } else {
        let b0 = bytes[0] as int;
        let b1 = if bytes.len() > 1 { bytes[1] as int } else { 0 };
        let b2 = if bytes.len() > 2 { bytes[2] as int } else { 0 };
        let first = base64_letter(b0 / 4);
        let second = base64_letter((b0 % 4) * 16 + b1 / 16);
        let third = if bytes.len() > 1 { base64_letter((b1 % 16) * 4 + b2 / 64) } else { '=' };
        let fourth = if bytes.len() > 2 { base64_letter(b2 % 64) } else { '=' };
        if bytes.len() <= 3 {
            seq![first, second, third, fourth]
        } else {
            seq![first, second, third, fourth] + base64_standard(bytes.skip(3))
        }
    }
}

/// Calls `ToBase64::to_base64` with `rustc_serialize::base64::STANDARD`: the
/// standard alphabet, padding with `=`, and no line breaks.
#[verifier::external_body]
fn to_base64_standard(bytes: &[u8]) -> (r: String)
    ensures
        r@ == base64_standard(bytes@),
{
    bytes.to_base64(rustc_serialize::base64::STANDARD)
}

/// The bcrypt cost of stored passwords.
pub const BCRYPT_COST: u32 = 12;

/// The stored form of `password` for a user with registration key `reg_key`:
/// bcrypt with the key's first 16 bytes as salt, in base64.
pub open spec fn spec_password_hash(reg_key: Seq<char>, password: Seq<char>) -> Seq<char> {
    base64_standard(bcrypt_hash(BCRYPT_COST, encode_utf8(reg_key).take(16), encode_utf8(password)))
}

/// Computes the stored form of a password.
pub fn make_password_hash(reg_key: &str, password: &str) -> (r: String)
    requires
        encode_utf8(reg_key@).len() >= 16,
        0 < encode_utf8(password@).len() <= 72,
    ensures
        r@ == spec_password_hash(reg_key@, password@),
{
    let key_bytes = reg_key.as_bytes();
    let mut salt: Vec<u8> = Vec::new();
    let mut i: usize = 0;
    while i < 16
        invariant
            key_bytes@ == encode_utf8(reg_key@),
            key_bytes@.len() >= 16,
            i <= 16,
            salt@ == key_bytes@.take(i as int),
        decreases 16 - i,
    {
        salt.push(key_bytes[i]);
        proof {
            assert(key_bytes@.take(i + 1) =~= key_bytes@.take(i as int).push(key_bytes@[i as int]));
        }
        i = i + 1;
    }
    let hash = bcrypt(BCRYPT_COST, salt.as_slice(), password.as_bytes());
    to_base64_standard(hash.as_slice())
}

/// A letter of the Latin alphabet or a decimal digit.
pub open spec fn is_alnum(c: char) -> bool {
    ('A' <= c && c <= 'Z') || ('a' <= c && c <= 'z') || ('0' <= c && c <= '9')
}

/// Draws `count` characters from the operating system's random source,
/// through `rand::OsRng::new` and `Rng::gen_ascii_chars`, whose alphabet is
/// the Latin letters and the digits.  `None` where the source cannot be
/// opened.  Nothing is said of which characters come out.
#[verifier::external_body]
fn os_random_alnum(count: usize) -> (r: Option<String>)
    ensures
        r matches Some(s) ==> s@.len() == count && forall|i: int| 0 <= i < count ==> is_alnum(#[trigger] s@[i]),
{
    match rand::OsRng::new() {
        Ok(mut rng) => Some(rng.gen_ascii_chars().take(count).collect()),
        Err(_) => None,
    }
}

/// The length of registration keys.
pub const REG_KEY_LEN: usize = 50;

/// A new random registration key of 50 letters and digits; `None` where the
/// system's random source cannot be opened.
pub fn gen_reg_key() -> (r: Option<String>)
    ensures
        r matches Some(k) ==> k@.len() == REG_KEY_LEN && forall|i: int| 0 <= i < REG_KEY_LEN ==> is_alnum(#[trigger] k@[i]),
{
    os_random_alnum(REG_KEY_LEN)
}

/// The answer to a log-in: the new session, or the complaint that no such
/// user is known.
pub enum LoginAnswer {
    Sid(String),
    Bad(FieldErrorInfo),
}

/// Logs in the user found, if any: a found user gets a new session (closing
/// the one it had); otherwise the answer is that the user was not found and
/// the sessions stay as they were.
pub fn make_login(store: &mut SessionsStoreMiddleware, maybe_user: Option<User>) -> (r: LoginAnswer)
    requires
        old(store)@.counter < u64::MAX,
    ensures
        match maybe_user {
            Some(u) => r matches LoginAnswer::Sid(sid)
                && (final(store)@, sid@) == spec_add_new_session(old(store)@, u@),
            None => r matches LoginAnswer::Bad(e)
                && e.field@ == "user"@ && e.reason@ == "not_found"@
                && final(store)@ == old(store)@,
        },
{
    match maybe_user {
        Some(user) => LoginAnswer::Sid(store.add_new_session(&user)),
        None => LoginAnswer::Bad(FieldErrorInfo::not_found("user")),
    }
}

/// A group of the user with the number of its feed events the user has not
/// seen.
pub struct GroupInfo {
    pub id: Id,
    pub name: String,
    pub unwatched_events: u32,
}

/// The unseen count of group `group_id`: the first pair for that group, 0
/// where there is none.
pub open spec fn unwatched_count(counts: Seq<(Id, u32)>, group_id: Id) -> u32
    decreases counts.len(),
{
    if counts.len() == 0 {
        0
    } else if counts[0].0 == group_id {
        counts[0].1
    } else {
        unwatched_count(counts.drop_first(), group_id)
    }
}

fn find_unwatched(counts: &Vec<(Id, u32)>, group_id: Id) -> (r: u32)
    ensures
        r == unwatched_count(counts@, group_id),
{
    let n = counts.len();
    let mut i: usize = 0;
    assert(counts@.subrange(0, n as int) =~= counts@);
    while i < n
        invariant
            n == counts@.len(),
            i <= n,
            unwatched_count(counts@, group_id) == unwatched_count(counts@.subrange(i as int, n as int), group_id),
        decreases n - i,
    {
        let ghost rest = counts@.subrange(i as int, n as int);
        assert(rest.drop_first() =~= counts@.subrange(i + 1, n as int));
        assert(rest[0] == counts@[i as int]);
        if counts[i].0 == group_id {
            return counts[i].1;
        }
        i = i + 1;
    }
    assert(counts@.subrange(n as int, n as int).len() == 0);
    0
}

/// The user's groups, each with its unseen count.
pub fn groups_with_unwatched(groups: &Vec<ShortInfo>, counts: &Vec<(Id, u32)>) -> (r: Vec<GroupInfo>)
    ensures
        r@.len() == groups@.len(),
        forall|i: int| 0 <= i < r@.len() ==> {
            &&& (#[trigger] r@[i]).id == groups@[i].id
            &&& r@[i].name@ == groups@[i].name@
            &&& r@[i].unwatched_events == unwatched_count(counts@, groups@[i].id)
        },
{
    let mut result: Vec<GroupInfo> = Vec::new();
    let n = groups.len();
    let mut i: usize = 0;
    while i < n
        invariant
            n == groups@.len(),
            i <= n,
            result@.len() == i,
            forall|j: int| 0 <= j < i ==> {
                &&& (#[trigger] result@[j]).id == groups@[j].id
                &&& result@[j].name@ == groups@[j].name@
                &&& result@[j].unwatched_events == unwatched_count(counts@, groups@[j].id)
            },
        decreases n - i,
    {
        let group = &groups[i];
        let count = find_unwatched(counts, group.id);
        result.push(GroupInfo { id: group.id, name: group.name.clone(), unwatched_events: count });
        i = i + 1;
    }
    result
}

} // verus!
