//! The text of a request: the JSON that a GET carries in its query and any
//! other request in its body.
use vstd::prelude::*;
use vstd::string::*;
use vstd::utf8::{valid_utf8, decode_utf8};
use crate::types::CommonError;
use crate::params_body_parser::str_from_utf8;

verus! {

/// The most bytes of a request body that are read; a body that fills it is
/// refused.
pub const BODY_LIMIT: usize = 2097152;

/// The value of the hexadecimal digit `b` (`0-9`, `a-f`, `A-F`).
pub open spec fn hex_digit_value(b: u8) -> Option<int> {
    if 48 <= b <= 57 {
        Some(b - 48)
    } else if 97 <= b <= 102 {
        Some(b - 87)
    } else if 65 <= b <= 70 {
        Some(b - 55)
    } else {
        None
    }
}

/// Percent-decoding: each `%` followed by two hexadecimal digits stands for
/// the byte they write; every other byte, a lone `%` among them, stands for
/// itself.
pub open spec fn percent_decoded(bytes: Seq<u8>) -> Seq<u8>
    decreases bytes.len(),
{
    if bytes.len() == 0 {
        Seq::empty()
    } else if bytes.len() >= 3 && bytes[0] == 37 && hex_digit_value(bytes[1]) is Some
        && hex_digit_value(bytes[2]) is Some {
        seq![(hex_digit_value(bytes[1])->0 * 16 + hex_digit_value(bytes[2])->0) as u8]
            + percent_decoded(bytes.skip(3))
    } else {
        seq![bytes[0]] + percent_decoded(bytes.skip(1))
    }
}

/// What `percent_encoding::percent_decode(bytes).decode_utf8_lossy()` gives:
/// the percent-decoded bytes read as UTF-8, with U+FFFD in place of what is
/// no UTF-8.
pub uninterp spec fn percent_decoded_lossy(bytes: Seq<u8>) -> Seq<char>;

/// Calls `percent_encoding::percent_decode` and `decode_utf8_lossy` on the
/// result.  The text is named by `percent_decoded_lossy`; where the decoded
/// bytes are valid UTF-8 it is exactly the text they encode.
#[verifier::external_body]
pub(crate) fn percent_decode_lossy(bytes: &[u8]) -> (r: String)
    ensures
        r@ == percent_decoded_lossy(bytes@),
        valid_utf8(percent_decoded(bytes@)) ==> r@ == decode_utf8(percent_decoded(bytes@)),
{
    percent_encoding::percent_decode(bytes).decode_utf8_lossy().into_owned()
}

/// The body of a request read as UTF-8; a body that is no UTF-8 reads as the
/// empty text.
pub open spec fn body_text(body: Seq<u8>) -> Seq<char> {
    if valid_utf8(body) { decode_utf8(body) } else { Seq::empty() }
}

/// The error of `r`, as text.
pub open spec fn error_text(r: Result<String, CommonError>) -> Seq<char> {
    match r {
        Err(e) => e.0@,
        Ok(_) => Seq::empty(),
    }
}

/// The text of a request.  A GET (`is_get`) carries it percent-encoded in the
/// query, `query`, if the request has one; another request carries it in its
/// body, `body`, which is `None` where reading the body failed and is read up
/// to `BODY_LIMIT` bytes.
pub fn request_text(is_get: bool, query: Option<&[u8]>, body: Option<&Vec<u8>>) -> (r: Result<String, CommonError>)
    ensures
        is_get && query is None ==> r is Err && error_text(r) == "no query part found"@,
        is_get && query is Some ==> (r matches Ok(s) && s@ == percent_decoded_lossy(query->0@)),
        is_get && query is Some && valid_utf8(percent_decoded(query->0@)) ==>
            (r matches Ok(s) && s@ == decode_utf8(percent_decoded(query->0@))),
        !is_get && body is None ==> r is Err && error_text(r) == "error while reading request body"@,
        !is_get && body is Some && body->0@.len() >= BODY_LIMIT ==>
            r is Err && error_text(r) == "request body too BIG!"@,
        !is_get && body is Some && body->0@.len() < BODY_LIMIT ==>
            (r matches Ok(s) && s@ == body_text(body->0@)),
{
    if is_get {
        match query {
            Some(q) => Ok(percent_decode_lossy(q)),
            None => Err(CommonError(String::from_str("no query part found"))),
        }
    } else {
        match body {
            None => Err(CommonError(String::from_str("error while reading request body"))),
            Some(b) => {
                if b.len() >= BODY_LIMIT {
                    Err(CommonError(String::from_str("request body too BIG!")))
                } else {
                    match str_from_utf8(b.as_slice()) {
                        Some(t) => Ok(String::from_str(t)),
                        None => {
                            proof { reveal_strlit(""); }
                            Ok(String::from_str(""))
                        },
                    }
                }
            },
        }
    }
}

} // verus!
