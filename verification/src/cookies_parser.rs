//! The cookies of a request, read from its "Cookie" header.
use vstd::prelude::*;
use vstd::string::*;
use crate::text_map::TextMap;

verus! {

/// The pieces of `s` between the occurrences of `sep`, as `str::split` gives
/// them: one piece more than there are separators.
pub open spec fn spec_split(s: Seq<char>, sep: char) -> Seq<Seq<char>>
    decreases s.len(),
{
    if s.len() == 0 {
        seq![Seq::empty()]
    } else {
        let prev = spec_split(s.drop_last(), sep);
        if s.last() == sep {
            prev.push(Seq::empty())
        } else {
            prev.update(prev.len() - 1, prev.last().push(s.last()))
        }
    }
}

proof fn lemma_split_nonempty(s: Seq<char>, sep: char)
    ensures
        spec_split(s, sep).len() >= 1,
    decreases s.len(),
{
    if s.len() > 0 {
        lemma_split_nonempty(s.drop_last(), sep);
    }
}

/// Splits `s` at each `sep`.
pub fn split(s: &str, sep: char) -> (r: Vec<String>)
    ensures
        r@.map_values(|p: String| p@) == spec_split(s@, sep),
{
    let n = s.unicode_len();
    let mut pieces: Vec<String> = Vec::new();
    let mut start: usize = 0;
    let mut i: usize = 0;
    assert(s@.subrange(0, 0) =~= Seq::<char>::empty());
    while i < n
        invariant
            n == s@.len(),
            start <= i <= n,
            pieces@.map_values(|p: String| p@).push(s@.subrange(start as int, i as int))
                == spec_split(s@.subrange(0, i as int), sep),
        decreases n - i,
    {
        let c = s.get_char(i);
        let ghost done = pieces@.map_values(|p: String| p@);
        proof {
            let pre = s@.subrange(0, i as int);
            let nxt = s@.subrange(0, i + 1);
            assert(nxt.drop_last() =~= pre);
            assert(nxt.last() == c);
            lemma_split_nonempty(pre, sep);
        }
        if c == sep {
            let ghost old_start = start;
            let piece = s.substring_char(start, i).to_string();
            pieces.push(piece);
            start = i + 1;
            proof {
                assert(pieces@.map_values(|p: String| p@) =~= done.push(s@.subrange(old_start as int, i as int)));
                assert(s@.subrange(start as int, i + 1) =~= Seq::<char>::empty());
            }
        } else {
            proof {
                assert(s@.subrange(start as int, i + 1) =~= s@.subrange(start as int, i as int).push(c));
            }
        }
        i = i + 1;
    }
    let last = s.substring_char(start, n).to_string();
    pieces.push(last);
    proof {
        assert(s@.subrange(0, n as int) =~= s@);
    }
    pieces
}

/// The cookies that the pieces of a header (split at ';') give: a piece of
/// exactly one '=' is a name and a value, any other piece is skipped, and a
/// later value of a name replaces an earlier one.
pub open spec fn cookies_of(pieces: Seq<Seq<char>>) -> Map<Seq<char>, Seq<char>>
    decreases pieces.len(),
{
    if pieces.len() == 0 {
        Map::empty()
    } else {
        let m = cookies_of(pieces.drop_last());
        let parts = spec_split(pieces.last(), '=');
        if parts.len() == 2 { m.insert(parts[0], parts[1]) } else { m }
    }
}

/// The cookies of a "Cookie" header.
pub open spec fn spec_parse_cookies(header: Seq<char>) -> Map<Seq<char>, Seq<char>> {
    cookies_of(spec_split(header, ';'))
}

/// The cookies of a request, by name.
pub struct Cookies {
    map: TextMap<String>,
}

impl View for Cookies {
    type V = Map<Seq<char>, Seq<char>>;

    closed spec fn view(&self) -> Map<Seq<char>, Seq<char>> {
        self.map@.map_values(|v: String| v@)
    }
}

impl Cookies {
    /// No cookies, as for a request without a "Cookie" header.
    pub fn new() -> (r: Cookies)
        ensures
            r@ == Map::<Seq<char>, Seq<char>>::empty(),
    {
        let r = Cookies { map: TextMap::new() };
        assert(r@ =~= Map::<Seq<char>, Seq<char>>::empty());
        r
    }

    /// Reads the cookies of a "Cookie" header.
    pub fn parse(header: &str) -> (r: Cookies)
        ensures
            r@ == spec_parse_cookies(header@),
    {
        let pieces = split(header, ';');
        let ghost all = pieces@.map_values(|p: String| p@);
        let mut cookies = Cookies::new();
        let n = pieces.len();
        let mut i: usize = 0;
        while i < n
            invariant
                n == pieces@.len(),
                all == pieces@.map_values(|p: String| p@),
                all == spec_split(header@, ';'),
                i <= n,
                cookies@ == cookies_of(all.take(i as int)),
            decreases n - i,
        {
            let parts = split(pieces[i].as_str(), '=');
            proof {
                let next = all.take(i + 1);
                assert(next.drop_last() =~= all.take(i as int));
                assert(next.last() == pieces@[i as int]@);
            }
            if parts.len() == 2 {
                let ghost pv = parts@.map_values(|p: String| p@);
                let name = parts[0].clone();
                let value = parts[1].clone();
                proof {
                    assert(pv[0] == name@ && pv[1] == value@);
                }
                cookies.insert(name, value);
            }
            i = i + 1;
        }
        proof {
            assert(all.take(n as int) =~= all);
        }
        cookies
    }

    /// Sets the cookie `name`.
    fn insert(&mut self, name: String, value: String)
        ensures
            final(self)@ == old(self)@.insert(name@, value@),
    {
        let ghost before = self.map@;
        let ghost v = value@;
        self.map.insert(name, value);
        proof {
            assert(self.map@.map_values(|x: String| x@) =~= before.map_values(|x: String| x@).insert(name@, v));
        }
    }

    /// The value of the cookie `key`.
    pub fn cookie(&self, key: &str) -> (r: Option<&String>)
        ensures
            self@.contains_key(key@) ==> r is Some && r->0@ == self@[key@],
            !self@.contains_key(key@) ==> r is None,
    {
        self.map.get(key)
    }
}

/// The middleware that reads the cookies of each request.
#[derive(Clone, Copy)]
pub struct CookiesParser;

/// The cookie-reading middleware.
pub fn middleware() -> (r: CookiesParser) {
    CookiesParser
}

} // verus!
