//! The binary parameters of a request, read from a "multipart/form-data"
//! body: each part between two boundaries holds a head, an empty line and
//! the data.
use vstd::prelude::*;
use vstd::string::*;
use vstd::slice::slice_subrange;
use vstd::utf8::{encode_utf8, valid_utf8, decode_utf8};
use crate::parse_utils::{occurs_at, spec_find_from, lemma_find_from_bounds, spec_str_between, str_between};
use crate::text_map::TextMap;

verus! {

/// The most bytes of a body that are read.
pub const BODY_LIMIT: u64 = 5242880;

/// `pat` stands in `s` at position `i`, `i + pat.len()` being within `s`.
fn bytes_match_at(s: &[u8], pat: &[u8], i: usize) -> (r: bool)
    requires
        i + pat@.len() <= s@.len(),
    ensures
        r == occurs_at(s@, pat@, i as int),
{
    let s_len = s.len();
    let n = pat.len();
    let mut k: usize = 0;
    while k < n
        invariant
            s_len == s@.len(),
            n == pat@.len(),
            i + n <= s@.len(),
            k <= n,
            forall|j: int| 0 <= j < k ==> s@[i + j] == pat@[j],
        decreases n - k,
    {
        if s[i + k] != pat[k] {
            proof {
                assert(s@.subrange(i as int, i + n)[k as int] != pat@[k as int]);
            }
            return false;
        }
        k = k + 1;
    }
    assert(s@.subrange(i as int, i + n) =~= pat@);
    true
}

/// The first position at or after `from` where `pat` stands in `s`.
pub fn bytes_find_from(s: &[u8], pat: &[u8], from: usize) -> (r: Option<usize>)
    ensures
        match spec_find_from(s@, pat@, from as int) {
            None => r is None,
            Some(i) => r == Some(i as usize),
        },
{
    let s_len = s.len();
    let pat_len = pat.len();
    if pat_len > s_len || from > s_len - pat_len {
        assert(spec_find_from(s@, pat@, from as int) is None);
        return None;
    }
    let last = s_len - pat_len;
    let mut i = from;
    while i <= last
        invariant
            s_len == s@.len(),
            pat_len == pat@.len(),
            last == s_len - pat_len,
            from <= i,
            spec_find_from(s@, pat@, from as int) == spec_find_from(s@, pat@, i as int),
        decreases last + 1 - i,
    {
        if bytes_match_at(s, pat, i) {
            return Some(i);
        }
        if i == last {
            assert(spec_find_from(s@, pat@, i + 1) is None);
            assert(spec_find_from(s@, pat@, i as int) is None);
            return None;
        }
        i = i + 1;
    }
    None
}

/// The positions of the boundaries in `body` from `from` on, each search
/// going on after the boundary found; none for an empty boundary.
pub open spec fn boundary_starts(body: Seq<u8>, boundary: Seq<u8>, from: int) -> Seq<int>
    decreases body.len() + 1 - from,
{
    if boundary.len() == 0 || from < 0 {
        Seq::empty()
    } else {
        match spec_find_from(body, boundary, from) {
            None => Seq::empty(),
            Some(p) => {
                proof {
                    lemma_find_from_bounds(body, boundary, from);
                }
                seq![p] + boundary_starts(body, boundary, p + boundary.len())
            },
        }
    }
}

/// The parts between consecutive boundaries: from the end of one boundary to
/// the start of the next.
pub open spec fn part_ranges(starts: Seq<int>, boundary_len: int) -> Seq<(int, int)> {
    Seq::new(
        if starts.len() >= 1 { (starts.len() - 1) as nat } else { 0 },
        |k: int| (starts[k] + boundary_len, starts[k + 1]),
    )
}

/// The parts of `body` between its boundaries.
pub open spec fn spec_boundary_idx(body: Seq<u8>, boundary: Seq<u8>) -> Seq<(int, int)> {
    part_ranges(boundary_starts(body, boundary, 0), boundary.len() as int)
}

proof fn lemma_starts_in_body(body: Seq<u8>, boundary: Seq<u8>, from: int)
    requires
        from >= 0,
    ensures
        forall|k: int| 0 <= k < boundary_starts(body, boundary, from).len() ==> {
            &&& from <= #[trigger] boundary_starts(body, boundary, from)[k]
            &&& boundary_starts(body, boundary, from)[k] + boundary.len() <= body.len()
        },
        forall|k: int| 0 <= k < boundary_starts(body, boundary, from).len() - 1 ==>
            #[trigger] boundary_starts(body, boundary, from)[k] + boundary.len() <= boundary_starts(body, boundary, from)[k + 1],
    decreases body.len() + 1 - from,
{
    if boundary.len() > 0 {
        lemma_find_from_bounds(body, boundary, from);
        if let Some(p) = spec_find_from(body, boundary, from) {
            lemma_starts_in_body(body, boundary, p + boundary.len());
            let rest = boundary_starts(body, boundary, p + boundary.len());
            let all = boundary_starts(body, boundary, from);
            assert(all == seq![p] + rest);
            assert forall|k: int| 0 <= k < all.len() - 1 implies #[trigger] all[k] + boundary.len() <= all[k + 1] by {
                if k == 0 {
                    assert(all[1] == rest[0]);
                } else {
                    assert(all[k] == rest[k - 1] && all[k + 1] == rest[k]);
                }
            }
        }
    }
}

/// The positions of the boundaries in a body.
fn boundary_positions(body: &[u8], boundary: &[u8]) -> (r: Vec<usize>)
    ensures
        r@.map_values(|x: usize| x as int) == boundary_starts(body@, boundary@, 0),
{
    let mut starts: Vec<usize> = Vec::new();
    let blen = boundary.len();
    let body_len = body.len();
    if blen == 0 {
        assert(starts@.map_values(|x: usize| x as int) =~= boundary_starts(body@, boundary@, 0));
        return starts;
    }
    let ghost all = boundary_starts(body@, boundary@, 0);
    let mut pos: usize = 0;
    let mut done = false;
    assert(starts@.map_values(|x: usize| x as int) + all =~= all);
    while !done
        invariant
            blen == boundary@.len(),
            body_len == body@.len(),
            blen > 0,
            pos <= body_len,
            starts@.map_values(|x: usize| x as int) + boundary_starts(body@, boundary@, pos as int) == all,
            done ==> boundary_starts(body@, boundary@, pos as int) == Seq::<int>::empty(),
        decreases body_len - pos + if done { 0int } else { 1int },
    {
        proof {
            lemma_find_from_bounds(body@, boundary@, pos as int);
        }
        let ghost before = starts@.map_values(|x: usize| x as int);
        match bytes_find_from(body, boundary, pos) {
            None => {
                done = true;
            },
            Some(p) => {
                starts.push(p);
                proof {
                    assert(starts@.map_values(|x: usize| x as int) =~= before.push(p as int));
                    assert(boundary_starts(body@, boundary@, pos as int)
                        == seq![p as int] + boundary_starts(body@, boundary@, p + blen));
                    assert(before.push(p as int) + boundary_starts(body@, boundary@, p + blen)
                        =~= before + (seq![p as int] + boundary_starts(body@, boundary@, p + blen)));
                }
                pos = p + blen;
            },
        }
    }
    assert(starts@.map_values(|x: usize| x as int) + Seq::<int>::empty() =~= starts@.map_values(|x: usize| x as int));
    starts
}

/// Finds the parts between the boundaries of a body.
pub fn boundary_idx(body: &[u8], boundary: &[u8]) -> (r: Vec<(usize, usize)>)
    ensures
        r@.len() == spec_boundary_idx(body@, boundary@).len(),
        forall|k: int| 0 <= k < r@.len() ==> {
            &&& (#[trigger] r@[k]).0 as int == spec_boundary_idx(body@, boundary@)[k].0
            &&& r@[k].1 as int == spec_boundary_idx(body@, boundary@)[k].1
            &&& r@[k].0 <= r@[k].1 <= body@.len()
        },
{
    let ghost all = boundary_starts(body@, boundary@, 0);
    proof {
        lemma_starts_in_body(body@, boundary@, 0);
    }
    let starts = boundary_positions(body, boundary);
    let blen = boundary.len();
    let ghost sv = starts@.map_values(|x: usize| x as int);
    let mut ranges: Vec<(usize, usize)> = Vec::new();
    let n = starts.len();
    let mut k: usize = 0;
    let count: usize = if n > 0 { n - 1 } else { 0 };
    while k < count
        invariant
            n == starts@.len(),
            count == if n > 0 { n - 1 } else { 0 },
            sv == starts@.map_values(|x: usize| x as int),
            sv == all,
            blen == boundary@.len(),
            k <= count,
            ranges@.len() == k,
            forall|j: int| 0 <= j < all.len() ==> #[trigger] all[j] + boundary@.len() <= body@.len(),
            forall|j: int| 0 <= j < all.len() - 1 ==> #[trigger] all[j] + boundary@.len() <= all[j + 1],
            forall|j: int| 0 <= j < k ==> {
                &&& (#[trigger] ranges@[j]).0 as int == all[j] + blen
                &&& ranges@[j].1 as int == all[j + 1]
                &&& ranges@[j].0 <= ranges@[j].1 <= body@.len()
            },
        decreases n - k,
    {
        assert(sv[k as int] == starts@[k as int] && sv[k + 1] == starts@[k + 1]);
        ranges.push((starts[k] + blen, starts[k + 1]));
        k = k + 1;
    }
    assert(spec_boundary_idx(body@, boundary@).len() == count);
    ranges
}

/// `s` cut at its first `sep`: what comes before and what comes after.
pub open spec fn spec_split_seq(s: Seq<u8>, sep: Seq<u8>) -> Option<(Seq<u8>, Seq<u8>)> {
    match spec_find_from(s, sep, 0) {
        Some(i) => Some((s.subrange(0, i), s.subrange(i + sep.len(), s.len() as int))),
        None => None,
    }
}

/// `s` cut at its first `a`, or, where there is none, at its first `b`.
pub open spec fn spec_split_seq_alt(s: Seq<u8>, a: Seq<u8>, b: Seq<u8>) -> Option<(Seq<u8>, Seq<u8>)> {
    match spec_split_seq(s, a) {
        Some(parts) => Some(parts),
        None => spec_split_seq(s, b),
    }
}

fn split_seq<'a>(s: &'a [u8], sep: &[u8]) -> (r: Option<(&'a [u8], &'a [u8])>)
    ensures
        match spec_split_seq(s@, sep@) {
            Some((x, y)) => r matches Some((rx, ry)) && rx@ == x && ry@ == y,
            None => r is None,
        },
{
    let s_len = s.len();
    proof {
        lemma_find_from_bounds(s@, sep@, 0);
    }
    match bytes_find_from(s, sep, 0) {
        Some(i) => Some((slice_subrange(s, 0, i), slice_subrange(s, i + sep.len(), s.len()))),
        None => None,
    }
}

proof fn lemma_split_alt_shorter(s: Seq<u8>, a: Seq<u8>, b: Seq<u8>)
    ensures
        spec_split_seq_alt(s, a, b) matches Some((x, y)) ==> y.len() <= s.len(),
{
    lemma_find_from_bounds(s, a, 0);
    lemma_find_from_bounds(s, b, 0);
}

/// Cuts a part into its head and its data at the first empty line, written
/// "\r\n\r\n" or "\n\n".
pub fn split_seq_alt<'a>(s: &'a [u8], a: &[u8], b: &[u8]) -> (r: Option<(&'a [u8], &'a [u8])>)
    ensures
        match spec_split_seq_alt(s@, a@, b@) {
            Some((x, y)) => r matches Some((rx, ry)) && rx@ == x && ry@ == y,
            None => r is None,
        },
{
    match split_seq(s, a) {
        Some(parts) => Some(parts),
        None => split_seq(s, b),
    }
}

/// Calls `std::str::from_utf8`: the text whose UTF-8 encoding `bytes` are,
/// where they are valid UTF-8 (no overlong form, no surrogate, nothing past
/// U+10FFFF), else `None`.
#[verifier::external_body]
pub(crate) fn str_from_utf8(bytes: &[u8]) -> (r: Option<&str>)
    ensures
        r is Some <==> valid_utf8(bytes@),
        r matches Some(t) ==> t@ == decode_utf8(bytes@) && encode_utf8(t@) == bytes@,
{
    std::str::from_utf8(bytes).ok()
}

/// A binary parameter: the name of the file it came from, if given, and its
/// bytes.
pub struct BinParam {
    pub filename: Option<String>,
    pub data: Vec<u8>,
}

impl View for BinParam {
    type V = (Option<Seq<char>>, Seq<u8>);

    open spec fn view(&self) -> (Option<Seq<char>>, Seq<u8>) {
        (match self.filename { Some(f) => Some(f@), None => None }, self.data@)
    }
}

/// Why the binary parameters cannot be read.
#[derive(Clone, Copy, Debug, PartialEq, Eq, Structural)]
pub enum BinParamsError {
    TooBig,
    NotMultipartFormData,
    IoError,
}

/// What one part of a body gives.
pub enum PartRead {
    /// the part has no head or no name: it is passed over
    Skip,
    /// the part's data is shorter than the line end and dashes that close
    /// it; the body cannot be read
    Short,
    Param { name: Seq<char>, filename: Option<Seq<char>>, data: Seq<u8> },
}

/// The head of a part as text: empty where it is no UTF-8.
pub open spec fn head_text(head: Seq<u8>) -> Seq<char> {
    if valid_utf8(head) { decode_utf8(head) } else { Seq::empty() }
}

/// Reads the part `from..to` of `body`: its head up to the first empty line
/// names the parameter (name="...") and maybe its file (filename="..."); the
/// data is the rest of the part without its last 4 bytes.
pub open spec fn spec_read_part(body: Seq<u8>, from: int, to: int) -> PartRead {
    match spec_split_seq_alt(body.subrange(from, to), seq![13u8, 10u8, 13u8, 10u8], seq![10u8, 10u8]) {
        None => PartRead::Skip,
        Some((head, data)) => match spec_str_between(head_text(head), "name=\""@, "\""@) {
            None => PartRead::Skip,
            Some(name) => if data.len() < 4 {
                PartRead::Short
            } else {
                PartRead::Param {
                    name,
                    filename: spec_str_between(head_text(head), "filename=\""@, "\""@),
                    data: body.subrange(to - data.len(), to - 4),
                }
            },
        },
    }
}

/// The parameters of the parts `ranges` of `body`, a later part replacing an
/// earlier one of the same name; `None` where a part is too short.
pub open spec fn spec_params_of(body: Seq<u8>, ranges: Seq<(int, int)>) -> Option<Map<Seq<char>, (Option<Seq<char>>, Seq<u8>)>>
    decreases ranges.len(),
{
    if ranges.len() == 0 {
        Some(Map::empty())
    } else {
        match spec_params_of(body, ranges.drop_last()) {
            None => None,
            Some(m) => match spec_read_part(body, ranges.last().0, ranges.last().1) {
                PartRead::Skip => Some(m),
                PartRead::Short => None,
                PartRead::Param { name, filename, data } => Some(m.insert(name, (filename, data))),
            },
        }
    }
}

/// The binary parameters of a multipart body.
pub open spec fn spec_bin_params(body: Seq<u8>, boundary: Seq<u8>) -> Option<Map<Seq<char>, (Option<Seq<char>>, Seq<u8>)>> {
    spec_params_of(body, spec_boundary_idx(body, boundary))
}

/// Reads the part `from..to` of `body`; `Err(())` where it is too short.
fn read_binary_part(body: &[u8], from: usize, to: usize) -> (r: Result<Option<(String, BinParam)>, ()>)
    requires
        from <= to <= body@.len(),
    ensures
        match spec_read_part(body@, from as int, to as int) {
            PartRead::Skip => r == Ok::<Option<(String, BinParam)>, ()>(None),
            PartRead::Short => r is Err,
            PartRead::Param { name, filename, data } => r matches Ok(Some((n, p)))
                && n@ == name && p@ == (filename, data),
        },
{
    let chunk = slice_subrange(body, from, to);
    let crlf2: [u8; 4] = [13, 10, 13, 10];
    let lf2: [u8; 2] = [10, 10];
    assert(crlf2@ =~= seq![13u8, 10u8, 13u8, 10u8]);
    assert(lf2@ =~= seq![10u8, 10u8]);
    proof {
        lemma_split_alt_shorter(chunk@, crlf2@, lf2@);
    }
    let (head, data) = match split_seq_alt(chunk, crlf2.as_slice(), lf2.as_slice()) {
        Some(parts) => parts,
        None => return Ok(None),
    };
    let head_str = match str_from_utf8(head) {
        Some(t) => t,
        None => "",
    };
    proof {
        reveal_strlit("");
        assert(head_str@ == head_text(head@));
    }
    let name = match str_between(head_str, "name=\"", "\"") {
        Some(name) => name,
        None => return Ok(None),
    };
    let data_len = data.len();
    if data_len < 4 {
        return Err(());
    }
    let bytes = slice_subrange(body, to - data_len, to - 4);
    let param = BinParam {
        filename: str_between(head_str, "filename=\"", "\""),
        data: vstd::slice::slice_to_vec(bytes),
    };
    Ok(Some((name, param)))
}

/// The binary parameters as read.
pub struct BinParams {
    map: TextMap<BinParam>,
}

impl View for BinParams {
    type V = Map<Seq<char>, (Option<Seq<char>>, Seq<u8>)>;

    closed spec fn view(&self) -> Map<Seq<char>, (Option<Seq<char>>, Seq<u8>)> {
        self.map@.map_values(|p: BinParam| p@)
    }
}

impl BinParams {
    /// The parameter `name`.
    pub fn get(&self, name: &str) -> (r: Option<&BinParam>)
        ensures
            self@.contains_key(name@) ==> r is Some && r->0@ == self@[name@],
            !self@.contains_key(name@) ==> r is None,
    {
        self.map.get(name)
    }
}

/// Reads the binary parameters of a multipart body whose parts are
/// separated by `boundary`; `None` where a part is too short to be read.
pub fn read_all_binary_parts(body: &[u8], boundary: &[u8]) -> (r: Option<BinParams>)
    ensures
        match spec_bin_params(body@, boundary@) {
            Some(m) => r is Some && r->0@ == m,
            None => r is None,
        },
{
    let ranges = boundary_idx(body, boundary);
    let ghost spec_ranges = spec_boundary_idx(body@, boundary@);
    let mut params = BinParams { map: TextMap::new() };
    assert(params@ =~= Map::<Seq<char>, (Option<Seq<char>>, Seq<u8>)>::empty());
    let n = ranges.len();
    let mut i: usize = 0;
    while i < n
        invariant
            n == ranges@.len(),
            n == spec_ranges.len(),
            spec_ranges == spec_boundary_idx(body@, boundary@),
            i <= n,
            forall|k: int| 0 <= k < n ==> {
                &&& (#[trigger] ranges@[k]).0 as int == spec_ranges[k].0
                &&& ranges@[k].1 as int == spec_ranges[k].1
                &&& ranges@[k].0 <= ranges@[k].1 <= body@.len()
            },
            spec_params_of(body@, spec_ranges.take(i as int)) == Some(params@),
        decreases n - i,
    {
        let (from, to) = ranges[i];
        proof {
            let next = spec_ranges.take(i + 1);
            assert(next.drop_last() =~= spec_ranges.take(i as int));
            assert(next.last() == spec_ranges[i as int]);
        }
        match read_binary_part(body, from, to) {
            Err(()) => {
                proof {
                    assert(spec_params_of(body@, spec_ranges.take(i + 1)) is None);
                    lemma_params_of_none_extends(body@, spec_ranges, i + 1);
                    assert(spec_ranges.take(n as int) =~= spec_ranges);
                }
                return None;
            },
            Ok(None) => {},
            Ok(Some((name, param))) => {
                let ghost before = params.map@;
                let ghost pv = param@;
                let ghost nv = name@;
                params.map.insert(name, param);
                proof {
                    assert(params.map@.map_values(|p: BinParam| p@) =~= before.map_values(|p: BinParam| p@).insert(nv, pv));
                }
            },
        }
        i = i + 1;
    }
    proof {
        assert(spec_ranges.take(n as int) =~= spec_ranges);
    }
    Some(params)
}

/// Once a part cannot be read, no longer list of parts can.
proof fn lemma_params_of_none_extends(body: Seq<u8>, ranges: Seq<(int, int)>, i: int)
    requires
        0 <= i <= ranges.len(),
        spec_params_of(body, ranges.take(i)) is None,
    ensures
        spec_params_of(body, ranges.take(ranges.len() as int)) is None,
    decreases ranges.len() - i,
{
    if i < ranges.len() {
        let next = ranges.take(i + 1);
        assert(next.drop_last() =~= ranges.take(i));
        lemma_params_of_none_extends(body, ranges, i + 1);
    }
}

/// The binary parameters of a request's body, as read up to `BODY_LIMIT`
/// bytes: a body that fills the limit is too big.  `Ok(None)` where a part
/// is too short to be read.
pub fn bin_params_of_body(body: &Vec<u8>, boundary: &str) -> (r: Result<Option<BinParams>, BinParamsError>)
    ensures
        body@.len() == BODY_LIMIT ==> r == Err::<Option<BinParams>, BinParamsError>(BinParamsError::TooBig),
        body@.len() != BODY_LIMIT ==> (r matches Ok(p) && match spec_bin_params(body@, encode_utf8(boundary@)) {
            Some(m) => p is Some && p->0@ == m,
            None => p is None,
        }),
{
    if body.len() as u64 == BODY_LIMIT {
        return Err(BinParamsError::TooBig);
    }
    Ok(read_all_binary_parts(body.as_slice(), boundary.as_bytes()))
}

} // verus!
