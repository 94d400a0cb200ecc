//! Search of users by the start of their names.
use vstd::prelude::*;
use vstd::string::*;

verus! {

/// The route of the user search.
pub fn users_path() -> (r: &'static str)
    ensures
        r@ == "/search/users"@,
{
    "/search/users"
}

/// How many users one search answers with.
pub const IN_PAGE_COUNT: u32 = 100;

/// The `LIKE` pattern of names that start with `like`.
pub fn like_pattern(like: &str) -> (r: String)
    ensures
        r@ == like@ + "%"@,
{
    let mut pattern = String::from_str(like);
    pattern.append("%");
    pattern
}

} // verus!
