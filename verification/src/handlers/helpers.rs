//! Helpers shared by the handlers.
use vstd::prelude::*;
use crate::answer_types::PaginationInfo;
use crate::types::Id;

verus! {

/// Number of pages that `all_count` items fill, `in_page_count` to a page.
pub open spec fn pages_count(all_count: nat, in_page_count: nat) -> nat {
    if all_count % in_page_count == 0 {
        all_count / in_page_count
    } else {
        all_count / in_page_count + 1
    }
}

/// Page `current` of `all_count` items shown `in_page_count` to a page.
pub fn make_pagination(current: u32, all_count: u32, in_page_count: u32) -> (r: PaginationInfo)
    requires
        in_page_count != 0,
    ensures
        r.current == current,
        r.count == pages_count(all_count as nat, in_page_count as nat),
{
    let mut pages_count = all_count / in_page_count;
    if (all_count % in_page_count) != 0 {
        proof {
            assert(all_count / in_page_count < u32::MAX) by (nonlinear_arith)
                requires in_page_count != 0, all_count % in_page_count != 0;
        }
        pages_count += 1;
    }
    PaginationInfo { current, count: pages_count }
}

/// The pages hold every item: `count` pages of `in_page_count` are enough, and
/// one page fewer is not.
pub proof fn law_pages_hold_all_items(all_count: nat, in_page_count: nat)
    requires
        in_page_count > 0,
    ensures
        pages_count(all_count, in_page_count) * in_page_count >= all_count,
        pages_count(all_count, in_page_count) > 0 ==> (pages_count(all_count, in_page_count) - 1) * in_page_count < all_count,
{
    let q = all_count / in_page_count;
    let r = all_count % in_page_count;
    assert(all_count == q * in_page_count + r) by (nonlinear_arith)
        requires in_page_count > 0, q == all_count / in_page_count, r == all_count % in_page_count;
    if r == 0 {
        assert(q * in_page_count >= all_count);
        if q > 0 {
            assert((q - 1) * in_page_count == q * in_page_count - in_page_count) by (nonlinear_arith);
        }
    } else {
        assert((q + 1) * in_page_count == q * in_page_count + in_page_count) by (nonlinear_arith);
        assert(r < in_page_count);
    }
}

/// What a user may do with a record that has an owner.
#[derive(Clone, Copy, Debug, PartialEq, Eq, Structural)]
pub enum Access {
    /// there is no such record
    NotFound,
    /// the record belongs to someone else
    Denied,
    /// the record is the user's own
    Allowed,
}

/// Whether user `user_id` may change a record owned by `owner`, `None` when
/// the record does not exist.
pub fn owner_access(owner: Option<Id>, user_id: Id) -> (r: Access)
    ensures
        r == (match owner {
            None => Access::NotFound,
            Some(o) => if o == user_id { Access::Allowed } else { Access::Denied },
        }),
{
    match owner {
        None => Access::NotFound,
        Some(o) => if o == user_id { Access::Allowed } else { Access::Denied },
    }
}

/// The offset of page `page` of `in_page_count` items; `None` where it does
/// not fit in 32 bits.
pub fn page_offset(page: u32, in_page_count: u32) -> (r: Option<u32>)
    ensures
        page * in_page_count <= u32::MAX ==> r == Some((page * in_page_count) as u32),
        page * in_page_count > u32::MAX ==> r is None,
{
    page.checked_mul(in_page_count)
}

/// Whether the user named `user_name` may change a record owned by the user
/// named `owner`, `None` when the record does not exist.
pub fn owner_name_access(owner: Option<&String>, user_name: &String) -> (r: Access)
    ensures
        r == (match owner {
            None => Access::NotFound,
            Some(o) => if o@ == user_name@ { Access::Allowed } else { Access::Denied },
        }),
{
    match owner {
        None => Access::NotFound,
        Some(o) => if *o == *user_name { Access::Allowed } else { Access::Denied },
    }
}

} // verus!
