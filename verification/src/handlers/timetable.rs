//! The route that sets a group's timetable.
use vstd::prelude::*;

verus! {

pub fn timetable_path() -> (r: &'static str)
    ensures
        r@ == "/timetable/:group_id"@,
{
    "/timetable/:group_id"
}

} // verus!
