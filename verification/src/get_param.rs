//! Reading typed values from the parameters of a request.
use vstd::prelude::*;
use crate::types::{Id, CommonResult};
use crate::err_msg::invalid_type_param;
use crate::parse_utils::{spec_parse_u64, parse_u64};

verus! {

/// All the texts are numbers.
pub open spec fn all_ids(strings: Seq<String>) -> bool {
    forall|i: int| 0 <= i < strings.len() ==> (#[trigger] spec_parse_u64(strings[i]@)) is Some
}

/// Reads the identifiers that the values of parameter `prm` hold; the error
/// names the parameter where one of them is no number.
pub fn params_id(strings: &Vec<String>, prm: &str) -> (r: CommonResult<Vec<Id>>)
    ensures
        all_ids(strings@) ==> (r matches Ok(ids) && ids@.len() == strings@.len()
            && forall|i: int| 0 <= i < ids@.len() ==> Some(#[trigger] ids@[i]) == spec_parse_u64(strings@[i]@)),
        !all_ids(strings@) ==> (r matches Err(e) && e.0@ == "invalid type of parameter '"@ + prm@ + "'"@),
{
    let mut ids: Vec<Id> = Vec::new();
    let n = strings.len();
    let mut i: usize = 0;
    while i < n
        invariant
            n == strings@.len(),
            i <= n,
            ids@.len() == i,
            forall|j: int| 0 <= j < i ==> Some(#[trigger] ids@[j]) == spec_parse_u64(strings@[j]@),
        decreases n - i,
    {
        match parse_u64(strings[i].as_str()) {
            Some(id) => ids.push(id),
            None => {
                assert(spec_parse_u64(strings@[i as int]@) is None);
                return Err(invalid_type_param(prm));
            },
        }
        i = i + 1;
    }
    assert forall|j: int| 0 <= j < strings@.len() implies (#[trigger] spec_parse_u64(strings@[j]@)) is Some by {
        assert(Some(ids@[j]) == spec_parse_u64(strings@[j]@));
    }
    Ok(ids)
}

} // verus!
