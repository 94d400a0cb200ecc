//! The standard texts of the errors that handlers report.
use vstd::prelude::*;
use vstd::string::*;
use crate::types::CommonError;

verus! {

/// "can not find parameter '<prm>'"
pub fn param_not_found(prm: &str) -> (r: CommonError)
    ensures
        r.0@ == "can not find parameter '"@ + prm@ + "'"@,
{
    CommonError(String::from_str("can not find parameter '").concat(prm).concat("'"))
}

/// "invalid type of parameter '<prm>'"
pub fn invalid_type_param(prm: &str) -> (r: CommonError)
    ensures
        r.0@ == "invalid type of parameter '"@ + prm@ + "'"@,
{
    CommonError(String::from_str("invalid type of parameter '").concat(prm).concat("'"))
}

/// "filesystem error: <description of the I/O error>"
pub fn fs_error(description: &str) -> (r: CommonError)
    ensures
        r.0@ == "filesystem error: "@ + description@,
{
    CommonError(String::from_str("filesystem error: ").concat(description))
}

/// "error while working with image: <description of the image error>"
pub fn image_error(description: &str) -> (r: CommonError)
    ensures
        r.0@ == "error while working with image: "@ + description@,
{
    CommonError(String::from_str("error while working with image: ").concat(description))
}

/// "error <fn_name> failed: <description of the error>"
pub fn fn_failed(fn_name: &str, description: &str) -> (r: CommonError)
    ensures
        r.0@ == "error "@ + fn_name@ + " failed: "@ + description@,
{
    CommonError(String::from_str("error ").concat(fn_name).concat(" failed: ").concat(description))
}

} // verus!
