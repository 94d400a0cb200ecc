//! Small text and time helpers shared by the rest of the library:
//! decimal rendering and parsing of integers, millisecond conversions
//! of timestamps and the time format used by request parameters.
use vstd::prelude::*;
use vstd::string::*;
use crate::types::Timespec;

verus! {

/// The character that writes the decimal digit `d`.
pub open spec fn digit_char(d: nat) -> char {
    if d == 0 { '0' } else if d == 1 { '1' } else if d == 2 { '2' } else if d == 3 { '3' }
    else if d == 4 { '4' } else if d == 5 { '5' } else if d == 6 { '6' } else if d == 7 { '7' }
    else if d == 8 { '8' } else { '9' }
}

/// The value of a decimal digit character, `None` for any other character.
pub open spec fn char_digit(c: char) -> Option<nat> {
    if c == '0' { Some(0) } else if c == '1' { Some(1) } else if c == '2' { Some(2) }
    else if c == '3' { Some(3) } else if c == '4' { Some(4) } else if c == '5' { Some(5) }
    else if c == '6' { Some(6) } else if c == '7' { Some(7) } else if c == '8' { Some(8) }
    else if c == '9' { Some(9) } else { None }
}

/// Decimal representation of `n`, without sign or leading zeros.
pub open spec fn decimal(n: nat) -> Seq<char>
    decreases n,
{
    if n < 10 {
        seq![digit_char(n)]
    } else {
        decimal(n / 10).push(digit_char(n % 10))
    }
}

pub proof fn lemma_decimal_len(n: nat)
    ensures
        decimal(n).len() >= 1,
        n >= 10 ==> decimal(n).len() >= 2,
    decreases n,
{
    if n >= 10 {
        lemma_decimal_len(n / 10);
    }
}

pub proof fn lemma_decimal_chars_are_digits(n: nat)
    ensures
        forall|i: int| 0 <= i < decimal(n).len() ==> (#[trigger] char_digit(decimal(n)[i])) is Some,
    decreases n,
{
    if n >= 10 {
        lemma_decimal_chars_are_digits(n / 10);
    }
}

/// Two numbers with the same decimal representation are equal.
pub proof fn lemma_decimal_injective(a: nat, b: nat)
    requires
        decimal(a) == decimal(b),
    ensures
        a == b,
    decreases a,
{
    lemma_decimal_len(a);
    lemma_decimal_len(b);
    if a < 10 && b < 10 {
        assert(decimal(a)[0] == digit_char(a));
        assert(decimal(b)[0] == digit_char(b));
    } else if a >= 10 && b >= 10 {
        let da = decimal(a);
        let db = decimal(b);
        assert(da.last() == digit_char(a % 10));
        assert(db.last() == digit_char(b % 10));
        assert(da.drop_last() =~= decimal(a / 10));
        assert(db.drop_last() =~= decimal(b / 10));
        lemma_decimal_injective(a / 10, b / 10);
    } else {
        assert(false);
    }
}

fn digit_str(d: u64) -> (r: &'static str)
    requires
        d < 10,
    ensures
        r@ == seq![digit_char(d as nat)],
{
    proof {
        reveal_strlit("0");
        reveal_strlit("1");
        reveal_strlit("2");
        reveal_strlit("3");
        reveal_strlit("4");
        reveal_strlit("5");
        reveal_strlit("6");
        reveal_strlit("7");
        reveal_strlit("8");
        reveal_strlit("9");
    }
    if d == 0 { "0" } else if d == 1 { "1" } else if d == 2 { "2" } else if d == 3 { "3" }
    else if d == 4 { "4" } else if d == 5 { "5" } else if d == 6 { "6" } else if d == 7 { "7" }
    else if d == 8 { "8" } else { "9" }
}

/// Renders `n` in decimal, as `format!("{}", n)` does.
pub fn u64_to_string(n: u64) -> (r: String)
    ensures
        r@ == decimal(n as nat),
    decreases n,
{
    if n < 10 {
        String::from_str(digit_str(n))
    } else {
        let mut s = u64_to_string(n / 10);
        s.append(digit_str(n % 10));
        s
    }
}

/// The value of a sequence of decimal digits, most significant first.
pub open spec fn digits_value(s: Seq<char>) -> nat
    decreases s.len(),
{
    if s.len() == 0 {
        0
    } else {
        digits_value(s.drop_last()) * 10 + char_digit(s.last()).unwrap_or(0)
    }
}

pub open spec fn all_digits(s: Seq<char>) -> bool {
    forall|i: int| 0 <= i < s.len() ==> (#[trigger] char_digit(s[i])) is Some
}

/// The digits of an unsigned number: the text without one leading `+`.
pub open spec fn unsigned_digits(s: Seq<char>) -> Seq<char> {
    if s.len() > 0 && s[0] == '+' { s.drop_first() } else { s }
}

/// What `u64::from_str` gives back: an optional `+`, then at least one digit,
/// and a value that fits in 64 bits.
pub open spec fn spec_parse_u64(s: Seq<char>) -> Option<u64> {
    let d = unsigned_digits(s);
    if d.len() > 0 && all_digits(d) && digits_value(d) <= u64::MAX {
        Some(digits_value(d) as u64)
    } else {
        None
    }
}

/// The value of the decimal digit `c`, `None` for any other character.
pub fn char_to_digit(c: char) -> (r: Option<u64>)
    ensures
        r is Some <==> char_digit(c) is Some,
        r is Some ==> r->0 == char_digit(c)->0 && r->0 < 10,
{
    if c == '0' { Some(0) } else if c == '1' { Some(1) } else if c == '2' { Some(2) }
    else if c == '3' { Some(3) } else if c == '4' { Some(4) } else if c == '5' { Some(5) }
    else if c == '6' { Some(6) } else if c == '7' { Some(7) } else if c == '8' { Some(8) }
    else if c == '9' { Some(9) } else { None }
}

proof fn lemma_digits_value_monotone(s: Seq<char>, i: int)
    requires
        0 <= i <= s.len(),
        all_digits(s),
    ensures
        digits_value(s.subrange(0, i)) <= digits_value(s),
    decreases s.len() - i,
{
    if i < s.len() {
        lemma_digits_value_monotone(s, i + 1);
        let p = s.subrange(0, i + 1);
        assert(p.drop_last() =~= s.subrange(0, i));
        assert(digits_value(p) == digits_value(s.subrange(0, i)) * 10 + char_digit(p.last()).unwrap_or(0));
    } else {
        assert(s.subrange(0, i) =~= s);
    }
}

proof fn lemma_digits_value_decimal(n: nat)
    ensures
        digits_value(decimal(n)) == n,
        all_digits(decimal(n)),
    decreases n,
{
    lemma_decimal_chars_are_digits(n);
    if n < 10 {
        let d = decimal(n);
        assert(d.drop_last() =~= Seq::<char>::empty());
        assert(digits_value(d.drop_last()) == 0);
        assert(d.last() == digit_char(n));
        assert(char_digit(digit_char(n)) == Some(n));
    } else {
        lemma_digits_value_decimal(n / 10);
        let d = decimal(n);
        assert(d.drop_last() =~= decimal(n / 10));
        assert(d.last() == digit_char(n % 10));
        assert(char_digit(digit_char(n % 10)) == Some(n % 10));
        assert((n / 10) * 10 + n % 10 == n);
    }
}

/// A number written by `u64_to_string` is read back by `parse_u64`: the
/// links and identifiers the site writes can be parsed again.
pub proof fn law_parse_decimal_roundtrip(n: u64)
    ensures
        spec_parse_u64(decimal(n as nat)) == Some(n),
{
    lemma_digits_value_decimal(n as nat);
    lemma_decimal_len(n as nat);
    assert(decimal(n as nat)[0] != '+') by {
        assert(char_digit(decimal(n as nat)[0]) is Some);
    }
    assert(unsigned_digits(decimal(n as nat)) == decimal(n as nat));
}

/// Parses an unsigned 64-bit integer as `u64::from_str` does.
pub fn parse_u64(s: &str) -> (r: Option<u64>)
    ensures
        r == spec_parse_u64(s@),
{
    let len = s.unicode_len();
    let mut start: usize = 0;
    if len > 0 && s.get_char(0) == '+' {
        start = 1;
    }
    let ghost d = unsigned_digits(s@);
    proof {
        if start == 1 {
            assert(d =~= s@.subrange(1, len as int));
        } else {
            assert(d =~= s@.subrange(0, len as int));
        }
    }
    if start == len {
        return None;
    }
    let mut value: u64 = 0;
    let mut i: usize = start;
    while i < len
        invariant
            start <= i <= len,
            len == s@.len(),
            start == 0 || start == 1,
            d =~= s@.subrange(start as int, len as int),
            d.len() > 0,
            d == unsigned_digits(s@),
            all_digits(s@.subrange(start as int, i as int)),
            value as nat == digits_value(s@.subrange(start as int, i as int)),
        decreases len - i,
    {
        let c = s.get_char(i);
        let ghost prefix = s@.subrange(start as int, i as int);
        let ghost next = s@.subrange(start as int, i + 1);
        proof {
            assert(next.drop_last() =~= prefix);
            assert(next.last() == c);
        }
        match char_to_digit(c) {
            None => {
                proof {
                    assert(d[i - start] == c);
                    assert(!all_digits(d));
                }
                return None;
            },
            Some(v) => {
                if value > (u64::MAX - v) / 10 {
                    proof {
                        assert(digits_value(next) == value * 10 + v);
                        assert(value * 10 + v > u64::MAX) by (nonlinear_arith)
                            requires value > (u64::MAX - v) / 10, v < 10;
                        assert(next =~= d.subrange(0, i + 1 - start));
                        if all_digits(d) {
                            lemma_digits_value_monotone(d, i + 1 - start);
                        }
                    }
                    return None;
                }
                proof {
                    assert(value * 10 + v <= u64::MAX) by (nonlinear_arith)
                        requires value <= (u64::MAX - v) / 10, v < 10;
                    assert(all_digits(next)) by {
                        assert forall|j: int| 0 <= j < next.len() implies (#[trigger] char_digit(next[j])) is Some by {
                            if j < prefix.len() {
                                assert(next[j] == prefix[j]);
                            }
                        }
                    }
                }
                value = value * 10 + v;
                i = i + 1;
            },
        }
    }
    proof {
        assert(s@.subrange(start as int, len as int) =~= d);
    }
    Some(value)
}

/// Milliseconds since the epoch of a timestamp: whole seconds and the
/// milliseconds of the nanoseconds.
pub open spec fn spec_msecs(t: Timespec) -> int {
    t.sec * 1000 + t.nsec / 1_000_000
}

/// The timestamp that `msecs` milliseconds since the epoch stand for.
pub open spec fn spec_into_timespec(msecs: u64) -> Timespec {
    Timespec { sec: (msecs / 1000) as i64, nsec: ((msecs % 1000) * 1_000_000) as i32 }
}

/// Milliseconds since the epoch of `t`.
pub fn msecs(t: &Timespec) -> (r: u64)
    requires
        t.sec >= 0,
        0 <= t.nsec < 1_000_000_000,
        t.sec * 1000 + 999 <= u64::MAX,
    ensures
        r == spec_msecs(*t),
{
    (t.sec as u64) * 1000 + (t.nsec as u64) / 1_000_000
}

/// The timestamp of `ms` milliseconds since the epoch.
pub fn into_timespec(ms: u64) -> (r: Timespec)
    ensures
        r == spec_into_timespec(ms),
        0 <= r.nsec < 1_000_000_000,
        r.sec >= 0,
{
    Timespec { sec: (ms / 1000) as i64, nsec: ((ms % 1000) * 1_000_000) as i32 }
}

/// Reading a millisecond count back gives the same count.
pub proof fn law_msecs_roundtrip(ms: u64)
    ensures
        spec_msecs(spec_into_timespec(ms)) == ms,
{
    let t = spec_into_timespec(ms);
    assert(t.nsec / 1_000_000 == ms % 1000);
}

/// `a` comes before `b`, seconds first and then nanoseconds.
pub open spec fn timespec_lt(a: Timespec, b: Timespec) -> bool {
    a.sec < b.sec || (a.sec == b.sec && a.nsec < b.nsec)
}

/// `a` comes before `b`.
pub fn time_before(a: &Timespec, b: &Timespec) -> (r: bool)
    ensures
        r == timespec_lt(*a, *b),
{
    a.sec < b.sec || (a.sec == b.sec && a.nsec < b.nsec)
}

/// Seconds in a day.
pub const SECS_IN_DAY: i64 = 86400;

/// `t` moved by a whole number of days, as adding `time::Duration::days(days)` does.
pub open spec fn spec_add_days(t: Timespec, days: int) -> Timespec {
    Timespec { sec: (t.sec + days * 86400) as i64, nsec: t.nsec }
}

/// `t` moved by `days` whole days (backwards when negative).
pub fn add_days(t: &Timespec, days: i64) -> (r: Timespec)
    requires
        i64::MIN <= t.sec + days * 86400 <= i64::MAX,
        -106751991167300 <= days <= 106751991167300,
    ensures
        r == spec_add_days(*t, days as int),
{
    Timespec { sec: t.sec + days * SECS_IN_DAY, nsec: t.nsec }
}

/// `pat` stands in `s` at position `i`.
pub open spec fn occurs_at<A>(s: Seq<A>, pat: Seq<A>, i: int) -> bool {
    0 <= i && i + pat.len() <= s.len() && s.subrange(i, i + pat.len()) == pat
}

/// The first position at or after `from` where `pat` stands in `s`.
pub open spec fn spec_find_from<A>(s: Seq<A>, pat: Seq<A>, from: int) -> Option<int>
    decreases s.len() + 1 - from,
{
    if from < 0 || from + pat.len() > s.len() {
        None
    } else if occurs_at(s, pat, from) {
        Some(from)
    } else {
        spec_find_from(s, pat, from + 1)
    }
}

/// `pat` stands in `s` at position `i`, `i + pat.len()` being within `s`.
fn matches_at(s: &str, pat: &str, i: usize, s_len: usize, pat_len: usize) -> (r: bool)
    requires
        s_len == s@.len(),
        pat_len == pat@.len(),
        i + pat_len <= s_len,
    ensures
        r == occurs_at(s@, pat@, i as int),
{
    let mut k: usize = 0;
    while k < pat_len
        invariant
            s_len == s@.len(),
            pat_len == pat@.len(),
            i + pat_len <= s_len,
            k <= pat_len,
            forall|j: int| 0 <= j < k ==> s@[i + j] == pat@[j],
        decreases pat_len - k,
    {
        if s.get_char(i + k) != pat.get_char(k) {
            proof {
                assert(s@.subrange(i as int, i + pat_len)[k as int] != pat@[k as int]);
            }
            return false;
        }
        k = k + 1;
    }
    assert(s@.subrange(i as int, i + pat_len) =~= pat@);
    true
}

/// The first position at or after `from` where `pat` stands in `s`.
pub fn find_from(s: &str, pat: &str, from: usize) -> (r: Option<usize>)
    ensures
        match spec_find_from(s@, pat@, from as int) {
            None => r is None,
            Some(i) => r == Some(i as usize),
        },
{
    let s_len = s.unicode_len();
    let pat_len = pat.unicode_len();
    if pat_len > s_len || from > s_len - pat_len {
        assert(spec_find_from(s@, pat@, from as int) is None);
        return None;
    }
    let last = s_len - pat_len;
    let mut i = from;
    while i <= last
        invariant
            s_len == s@.len(),
            pat_len == pat@.len(),
            last == s_len - pat_len,
            from <= i,
            spec_find_from(s@, pat@, from as int) == spec_find_from(s@, pat@, i as int),
        decreases last + 1 - i,
    {
        if matches_at(s, pat, i, s_len, pat_len) {
            return Some(i);
        }
        if i == last {
            assert(spec_find_from(s@, pat@, i + 1) is None);
            assert(spec_find_from(s@, pat@, i as int) is None);
            return None;
        }
        i = i + 1;
    }
    None
}

/// The text between the first `start` in `s` and the first `end` after it.
pub open spec fn spec_str_between(s: Seq<char>, start: Seq<char>, end: Seq<char>) -> Option<Seq<char>> {
    match spec_find_from(s, start, 0) {
        None => None,
        Some(a) => match spec_find_from(s, end, a + start.len()) {
            None => None,
            Some(b) => Some(s.subrange(a + start.len(), b)),
        },
    }
}

/// What is found is at or after `from`, and stands there.
pub proof fn lemma_find_from_bounds<A>(s: Seq<A>, pat: Seq<A>, from: int)
    ensures
        spec_find_from(s, pat, from) matches Some(i) ==> from <= i && occurs_at(s, pat, i),
    decreases s.len() + 1 - from,
{
    if !(from < 0 || from + pat.len() > s.len()) && !occurs_at(s, pat, from) {
        lemma_find_from_bounds(s, pat, from + 1);
    }
}

/// Nothing is found before what is found.
pub proof fn lemma_find_from_first<A>(s: Seq<A>, pat: Seq<A>, from: int, k: int)
    requires
        from <= k,
        spec_find_from(s, pat, from) matches Some(i) ==> k < i,
        spec_find_from(s, pat, from) is None ==> k + pat.len() <= s.len(),
        0 <= from,
    ensures
        !occurs_at(s, pat, k),
    decreases s.len() + 1 - from,
{
    if !(from + pat.len() > s.len()) && !occurs_at(s, pat, from) && from < k {
        lemma_find_from_first(s, pat, from + 1, k);
    }
}

/// The text between the first `start` in `s` and the first `end` after it;
/// `None` where either is missing.
pub fn str_between(s: &str, start: &str, end: &str) -> (r: Option<String>)
    ensures
        match spec_str_between(s@, start@, end@) {
            None => r is None,
            Some(t) => r is Some && r->0@ == t,
        },
{
    let s_len = s.unicode_len();
    proof {
        lemma_find_from_bounds(s@, start@, 0);
    }
    match find_from(s, start, 0) {
        None => None,
        Some(a) => {
            let from = a + start.unicode_len();
            proof {
                lemma_find_from_bounds(s@, end@, from as int);
            }
            match find_from(s, end, from) {
                None => None,
                Some(b) => Some(s.substring_char(from, b).to_string()),
            }
        },
    }
}

/// What `str_between` finds stands in the text: the start mark, the text
/// found and the end mark, one after the other; and the text found holds no
/// end mark, where the end mark is not empty.
pub proof fn law_str_between_found(s: Seq<char>, start: Seq<char>, end: Seq<char>)
    ensures
        spec_str_between(s, start, end) matches Some(t) ==> exists|i: int|
            #![trigger s.subrange(i, i + start.len() + t.len() + end.len())]
            0 <= i && i + start.len() + t.len() + end.len() <= s.len()
            && s.subrange(i, i + start.len() + t.len() + end.len()) == start + t + end,
        end.len() > 0 ==> (spec_str_between(s, start, end) matches Some(t) ==> forall|j: int|
            0 <= j && j + end.len() <= t.len() ==> #[trigger] t.subrange(j, j + end.len()) != end),
{
    if let Some(t) = spec_str_between(s, start, end) {
        lemma_find_from_bounds(s, start, 0);
        let a = spec_find_from(s, start, 0)->0;
        lemma_find_from_bounds(s, end, a + start.len());
        let b = spec_find_from(s, end, a + start.len())->0;
        assert(t == s.subrange(a + start.len(), b));
        assert(a + start.len() + t.len() + end.len() == b + end.len());
        assert(s.subrange(a, a + start.len() + t.len() + end.len()) =~= start + t + end);
        assert forall|j: int| end.len() > 0 && 0 <= j && j + end.len() <= t.len() implies #[trigger] t.subrange(j, j + end.len()) != end by {
            let k = a + start.len() + j;
            lemma_find_from_first(s, end, a + start.len(), k);
            assert(t.subrange(j, j + end.len()) =~= s.subrange(k, k + end.len()));
        }
    }
}

/// `s` ends with `suffix`.
pub open spec fn spec_ends_with(s: Seq<char>, suffix: Seq<char>) -> bool {
    suffix.len() <= s.len() && s.subrange(s.len() - suffix.len(), s.len() as int) == suffix
}

/// `s` ends with `suffix`, as `str::ends_with` tells.
pub fn ends_with(s: &str, suffix: &str) -> (r: bool)
    ensures
        r == spec_ends_with(s@, suffix@),
{
    let s_len = s.unicode_len();
    let suffix_len = suffix.unicode_len();
    if suffix_len > s_len {
        return false;
    }
    matches_at(s, suffix, s_len - suffix_len, s_len, suffix_len)
}

/// The text of `s` before its first `sep`, all of `s` where there is none.
pub open spec fn spec_before_first(s: Seq<char>, sep: Seq<char>) -> Seq<char> {
    match spec_find_from(s, sep, 0) {
        Some(i) => s.subrange(0, i),
        None => s,
    }
}

/// The first piece of `s` split at `sep`, as `s.split(sep).next()` gives it.
pub fn before_first(s: &str, sep: &str) -> (r: String)
    ensures
        r@ == spec_before_first(s@, sep@),
{
    let s_len = s.unicode_len();
    proof {
        lemma_find_from_bounds(s@, sep@, 0);
    }
    match find_from(s, sep, 0) {
        Some(i) => s.substring_char(0, i).to_string(),
        None => s.to_string(),
    }
}

/// The format of dates and times in requests: "2015.03.21 18:05:00".
pub const TIME_FORMAT: &'static str = "%Y.%m.%d %k:%M:%S";

/// What `time::strptime(s, TIME_FORMAT)` followed by `to_timespec` gives back
/// for the text `s`; `None` where it refuses the text.
pub uninterp spec fn strptime_timespec(s: Seq<char>) -> Option<Timespec>;

/// Reads a date and time written in `TIME_FORMAT`, taken as UTC.
///
/// Calls `time::strptime` and `Tm::to_timespec`.  The result is named by
/// `strptime_timespec`; the only further fact stated is that the nanoseconds
/// are in range, which `Timespec::new` asserts.
#[verifier::external_body]
pub(crate) fn parse_timespec(s: &str) -> (r: Option<Timespec>)
    ensures
        r == strptime_timespec(s@),
        r is Some ==> 0 <= r->0.nsec < 1_000_000_000,
{
    match time::strptime(s, TIME_FORMAT) {
        Ok(tm) => {
            let t = tm.to_timespec();
            Some(Timespec { sec: t.sec, nsec: t.nsec })
        },
        Err(_) => None,
    }
}

} // verus!
