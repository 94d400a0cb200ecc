//! Texts of the errors about request parameters.
use vstd::prelude::*;
use vstd::string::*;

verus! {

/// "can not find parameter '<prm>'"
pub fn param_not_found(prm: &str) -> (r: String)
    ensures
        r@ == "can not find parameter '"@ + prm@ + "'"@,
{
    String::from_str("can not find parameter '").concat(prm).concat("'")
}

/// "invalid type of parameter '<prm>'"
pub fn invalid_type_param(prm: &str) -> (r: String)
    ensures
        r@ == "invalid type of parameter '"@ + prm@ + "'"@,
{
    String::from_str("invalid type of parameter '").concat(prm).concat("'")
}

/// "not a string param '<prm>'"
pub fn not_a_string_param(prm: &str) -> (r: String)
    ensures
        r@ == "not a string param '"@ + prm@ + "'"@,
{
    String::from_str("not a string param '").concat(prm).concat("'")
}

/// "filesystem error: <description of the I/O error>"
pub fn fs_error(description: &str) -> (r: String)
    ensures
        r@ == "filesystem error: "@ + description@,
{
    String::from_str("filesystem error: ").concat(description)
}

} // verus!
