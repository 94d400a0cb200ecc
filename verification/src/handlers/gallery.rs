//! Routes of the users' galleries.
use vstd::prelude::*;

verus! {

/// How many photos one page of a gallery shows.
pub const IN_PAGE_COUNT: u32 = 12;

pub fn gallery_count_path() -> (r: &'static str)
    ensures
        r@ == "/gallery/count"@,
{
    "/gallery/count"
}

pub fn gallery_path() -> (r: &'static str)
    ensures
        r@ == "/gallery"@,
{
    "/gallery"
}

pub fn gallery_unpublished_path() -> (r: &'static str)
    ensures
        r@ == "/gallery/unpublished"@,
{
    "/gallery/unpublished"
}

pub fn photo_info_path() -> (r: &'static str)
    ensures
        r@ == "gallery/photo_info"@,
{
    "gallery/photo_info"
}

} // verus!
