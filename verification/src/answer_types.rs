//! The small records that answers to the web interface are made of.
use vstd::prelude::*;
use vstd::string::*;

verus! {

/// Which page is shown and how many pages there are.
#[derive(Clone, Copy, Debug, PartialEq, Eq, Structural)]
pub struct PaginationInfo {
    pub current: u32,
    pub count: u32,
}

/// A complaint about one field of a request.
#[derive(Clone, Debug)]
pub struct FieldErrorInfo {
    pub field: String,
    pub reason: String,
}

/// A complaint seen as its field and reason.
pub open spec fn field_error_view(e: FieldErrorInfo) -> (Seq<char>, Seq<char>) {
    (e.field@, e.reason@)
}

/// Complaints seen as fields and reasons.
pub open spec fn errors_view(errors: Seq<FieldErrorInfo>) -> Seq<(Seq<char>, Seq<char>)> {
    errors.map_values(|e: FieldErrorInfo| field_error_view(e))
}

/// Adding a complaint adds its view.
pub proof fn lemma_errors_view_push(errors: Seq<FieldErrorInfo>, e: FieldErrorInfo)
    ensures
        errors_view(errors.push(e)) == errors_view(errors).push(field_error_view(e)),
{
    assert(errors_view(errors.push(e)) =~= errors_view(errors).push(field_error_view(e)));
}

impl FieldErrorInfo {
    /// The field `field` is refused for `reason`.
    pub fn new(field: &str, reason: &str) -> (r: FieldErrorInfo)
        ensures
            r.field@ == field@,
            r.reason@ == reason@,
    {
        FieldErrorInfo { field: String::from_str(field), reason: String::from_str(reason) }
    }

    /// The field `field` is empty.
    pub fn empty(field: &str) -> (r: FieldErrorInfo)
        ensures
            r.field@ == field@,
            r.reason@ == "empty"@,
    {
        FieldErrorInfo::new(field, "empty")
    }

    /// The field `field` is too long.
    pub fn too_long(field: &str) -> (r: FieldErrorInfo)
        ensures
            r.field@ == field@,
            r.reason@ == "too_long"@,
    {
        FieldErrorInfo::new(field, "too_long")
    }

    /// What the field `field` names does not exist.
    pub fn not_found(field: &str) -> (r: FieldErrorInfo)
        ensures
            r.field@ == field@,
            r.reason@ == "not_found"@,
    {
        FieldErrorInfo::new(field, "not_found")
    }
}

} // verus!
