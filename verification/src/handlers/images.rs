//! Photos and their previews, found by file name.
use vstd::prelude::*;
use crate::types::Id;
use crate::parse_utils::{spec_before_first, before_first, spec_parse_u64, parse_u64};

verus! {

/// The route of full-size photos.
pub fn photos_path() -> (r: &'static str)
    ensures
        r@ == "/photo/:filename"@,
{
    "/photo/:filename"
}

/// The route of previews.
pub fn preview_path() -> (r: &'static str)
    ensures
        r@ == "/preview/:filename"@,
{
    "/preview/:filename"
}

/// The photo that a file name such as "42.jpg" asks for: the number before
/// the first dot.
pub fn image_id_from_filename(filename: &str) -> (r: Option<Id>)
    ensures
        r == spec_parse_u64(spec_before_first(filename@, "."@)),
{
    let name = before_first(filename, ".");
    parse_u64(name.as_str())
}

} // verus!
