//! Maps keyed by text, kept as lists: a value for each name, a later value
//! replacing an earlier one.
use vstd::prelude::*;
use vstd::string::*;

verus! {

spec fn entries_map<V>(s: Seq<(String, V)>) -> Map<Seq<char>, V> {
    Map::new(
        |k: Seq<char>| exists|i: int| 0 <= i < s.len() && s[i].0@ == k,
        |k: Seq<char>| s[choose|i: int| 0 <= i < s.len() && s[i].0@ == k].1,
    )
}

spec fn names_distinct<V>(s: Seq<(String, V)>) -> bool {
    forall|i: int, j: int| 0 <= i < s.len() && 0 <= j < s.len() && i != j
        ==> (#[trigger] s[i]).0@ != (#[trigger] s[j]).0@
}

proof fn lemma_entry_at<V>(s: Seq<(String, V)>, i: int)
    requires
        names_distinct(s),
        0 <= i < s.len(),
    ensures
        entries_map(s).contains_key(s[i].0@),
        entries_map(s)[s[i].0@] == s[i].1,
{
    let k = s[i].0@;
    assert(entries_map(s).dom().contains(k));
    let c = choose|j: int| 0 <= j < s.len() && s[j].0@ == k;
    assert(c == i);
}

/// A map from texts to values, kept as a list in which no text occurs twice.
pub struct TextMap<V> {
    entries: Vec<(String, V)>,
}

impl<V> View for TextMap<V> {
    type V = Map<Seq<char>, V>;

    closed spec fn view(&self) -> Map<Seq<char>, V> {
        entries_map(self.entries@)
    }
}

impl<V> TextMap<V> {
    #[verifier::type_invariant]
    closed spec fn inv(self) -> bool {
        names_distinct(self.entries@)
    }

    /// No entries.
    pub fn new() -> (r: TextMap<V>)
        ensures
            r@ == Map::<Seq<char>, V>::empty(),
    {
        let r = TextMap { entries: Vec::new() };
        assert(r@ =~= Map::<Seq<char>, V>::empty());
        r
    }

    /// The position of the entry named `name`.
    fn position(&self, name: &str) -> (r: Option<usize>)
        ensures
            match r {
                Some(i) => i < self.entries@.len() && self.entries@[i as int].0@ == name@,
                None => !self@.contains_key(name@),
            },
    {
        let key = String::from_str(name);
        let n = self.entries.len();
        let mut i: usize = 0;
        while i < n
            invariant
                n == self.entries@.len(),
                key@ == name@,
                i <= n,
                forall|j: int| 0 <= j < i ==> self.entries@[j].0@ != name@,
            decreases n - i,
        {
            if self.entries[i].0 == key {
                return Some(i);
            }
            i = i + 1;
        }
        None
    }

    /// The value named `name`.
    pub fn get(&self, name: &str) -> (r: Option<&V>)
        ensures
            self@.contains_key(name@) ==> r == Some(&self@[name@]),
            !self@.contains_key(name@) ==> r is None,
    {
        proof {
            use_type_invariant(self);
        }
        match self.position(name) {
            Some(i) => {
                proof {
                    lemma_entry_at(self.entries@, i as int);
                }
                Some(&self.entries[i].1)
            },
            None => None,
        }
    }

    /// Sets the value named `name`; an earlier value of that name is replaced.
    pub fn insert(&mut self, name: String, value: V)
        ensures
            final(self)@ == old(self)@.insert(name@, value),
    {
        proof {
            use_type_invariant(&*self);
        }
        let ghost s = self.entries@;
        let found = self.position(name.as_str());
        let mut entries: Vec<(String, V)> = Vec::new();
        std::mem::swap(&mut entries, &mut self.entries);
        match found {
            Some(i) => {
                let ghost k = name@;
                let ghost v = value;
                entries.set(i, (name, value));
                proof {
                    let t = entries@;
                    assert(t == s.update(i as int, (t[i as int].0, v)));
                    assert(names_distinct(t)) by {
                        assert forall|a: int, b: int| 0 <= a < t.len() && 0 <= b < t.len() && a != b
                            implies (#[trigger] t[a]).0@ != (#[trigger] t[b]).0@ by {
                            assert(s[a].0@ == t[a].0@ && s[b].0@ == t[b].0@);
                        }
                    }
                    assert forall|q: Seq<char>| #[trigger] entries_map(t).contains_key(q)
                        <==> entries_map(s).insert(k, v).contains_key(q) by {
                        if entries_map(t).contains_key(q) {
                            let a = choose|a: int| 0 <= a < t.len() && t[a].0@ == q;
                            assert(s[a].0@ == q);
                        }
                        if entries_map(s).contains_key(q) {
                            let a = choose|a: int| 0 <= a < s.len() && s[a].0@ == q;
                            assert(t[a].0@ == q);
                        }
                        if q == k {
                            assert(t[i as int].0@ == q);
                        }
                    }
                    assert forall|q: Seq<char>| #[trigger] entries_map(t).contains_key(q)
                        implies entries_map(t)[q] == entries_map(s).insert(k, v)[q] by {
                        let a = choose|a: int| 0 <= a < t.len() && t[a].0@ == q;
                        lemma_entry_at(t, a);
                        if a != i {
                            lemma_entry_at(s, a);
                        }
                    }
                    assert(entries_map(t) =~= entries_map(s).insert(k, v));
                }
                self.entries = entries;
            },
            None => {
                let ghost e = (name, value);
                entries.push((name, value));
                proof {
                    let t = entries@;
                    let n = s.len() as int;
                    assert(t == s.push(e));
                    assert(names_distinct(t)) by {
                        assert forall|a: int, b: int| 0 <= a < t.len() && 0 <= b < t.len() && a != b
                            implies (#[trigger] t[a]).0@ != (#[trigger] t[b]).0@ by {
                            if a < n && b < n {
                                assert(t[a] == s[a] && t[b] == s[b]);
                            } else if a < n {
                                assert(t[a] == s[a]);
                                assert(!entries_map(s).contains_key(e.0@));
                            } else {
                                assert(t[b] == s[b]);
                                assert(!entries_map(s).contains_key(e.0@));
                            }
                        }
                    }
                    lemma_entry_at(t, n);
                    assert forall|q: Seq<char>| #[trigger] entries_map(t).contains_key(q)
                        <==> entries_map(s).insert(e.0@, e.1).contains_key(q) by {
                        if entries_map(t).contains_key(q) && q != e.0@ {
                            let a = choose|a: int| 0 <= a < t.len() && t[a].0@ == q;
                            assert(a < n);
                            assert(t[a] == s[a]);
                        }
                        if entries_map(s).contains_key(q) {
                            let a = choose|a: int| 0 <= a < s.len() && s[a].0@ == q;
                            assert(t[a] == s[a]);
                        }
                    }
                    assert forall|q: Seq<char>| #[trigger] entries_map(t).contains_key(q)
                        implies entries_map(t)[q] == entries_map(s).insert(e.0@, e.1)[q] by {
                        let a = choose|a: int| 0 <= a < t.len() && t[a].0@ == q;
                        lemma_entry_at(t, a);
                        if a < n {
                            assert(t[a] == s[a]);
                            lemma_entry_at(s, a);
                        }
                    }
                    assert(entries_map(t) =~= entries_map(s).insert(e.0@, e.1));
                }
                self.entries = entries;
            },
        }
    }
}

/// A read gives back what the last write of that name wrote, and a write
/// leaves the other names as they were.
pub proof fn law_read_after_write<V>(m: Map<Seq<char>, V>, name: Seq<char>, value: V, other: Seq<char>)
    ensures
        m.insert(name, value).contains_key(name),
        m.insert(name, value)[name] == value,
        other != name ==> (m.insert(name, value).contains_key(other) <==> m.contains_key(other)),
        other != name && m.contains_key(other) ==> m.insert(name, value)[other] == m[other],
{
}

} // verus!
