//! Sessions of logged-in users and the check that a request belongs to one.
use vstd::prelude::*;
use crate::types::Id;
use crate::parse_utils::{decimal, u64_to_string, lemma_decimal_injective};

verus! {

/// What the site knows of a logged-in user.
#[derive(Clone, Debug)]
pub struct User {
    pub name: String,
    pub id: Id,
    pub mail: String,
}

/// A user seen as plain values.
pub struct UserView {
    pub name: Seq<char>,
    pub id: Id,
    pub mail: Seq<char>,
}

impl View for User {
    type V = UserView;

    open spec fn view(&self) -> UserView {
        UserView { name: self.name@, id: self.id, mail: self.mail@ }
    }
}

impl User {
    /// A copy of this user.
    pub fn duplicate(&self) -> (r: User)
        ensures
            r@ == self@,
    {
        User { name: self.name.clone(), id: self.id, mail: self.mail.clone() }
    }
}

/// The value of the session cookie.
pub type SessionId = String;

/// Numbers the sessions one after the other.
struct SessionIdGenerator {
    state: Id,
}

impl SessionIdGenerator {
    fn new() -> (g: SessionIdGenerator)
        ensures
            g.state == 0,
    {
        SessionIdGenerator { state: 0 }
    }

    /// The next session identifier: the decimal text of the next number.
    fn gen(&mut self) -> (sid: SessionId)
        requires
            old(self).state < u64::MAX,
        ensures
            final(self).state == old(self).state + 1,
            sid@ == decimal(final(self).state as nat),
    {
        self.state = self.state + 1;
        u64_to_string(self.state)
    }
}

/// The sessions as plain values: which user each session belongs to, which
/// session each user has, and how many session identifiers were handed out.
pub struct SessionsModel {
    pub sessions: Map<Seq<char>, UserView>,
    pub by_user: Map<Id, Seq<char>>,
    pub counter: nat,
}

impl SessionsModel {
    /// Each user has at most one session, the two maps are each other's
    /// inverse, and every session identifier is the decimal text of a number
    /// already handed out.
    pub open spec fn wf(self) -> bool {
        &&& self.sessions.dom().finite()
        &&& forall|uid: Id| #[trigger] self.by_user.contains_key(uid) ==> {
                &&& self.sessions.contains_key(self.by_user[uid])
                &&& self.sessions[self.by_user[uid]].id == uid
            }
        &&& forall|sid: Seq<char>| #[trigger] self.sessions.contains_key(sid) ==> {
                &&& self.by_user.contains_key(self.sessions[sid].id)
                &&& self.by_user[self.sessions[sid].id] == sid
                &&& exists|k: nat| 1 <= k <= self.counter && sid == #[trigger] decimal(k)
            }
    }
}

/// The store after `user` logs in, and the session identifier handed out:
/// the user's earlier session, if any, is dropped, and a new one with the
/// next number is opened.
pub open spec fn spec_add_new_session(m: SessionsModel, user: UserView) -> (SessionsModel, Seq<char>) {
    let sid = decimal(m.counter + 1);
    let kept = if m.by_user.contains_key(user.id) {
        m.sessions.remove(m.by_user[user.id])
    } else {
        m.sessions
    };
    (SessionsModel {
        sessions: kept.insert(sid, user),
        by_user: m.by_user.insert(user.id, sid),
        counter: m.counter + 1,
    }, sid)
}

struct SessionEntry {
    number: u64,
    sid: SessionId,
    user: User,
}

spec fn sessions_of(s: Seq<SessionEntry>) -> Map<Seq<char>, UserView> {
    Map::new(
        |k: Seq<char>| exists|i: int| 0 <= i < s.len() && s[i].sid@ == k,
        |k: Seq<char>| s[choose|i: int| 0 <= i < s.len() && s[i].sid@ == k].user@,
    )
}

spec fn by_user_of(s: Seq<SessionEntry>) -> Map<Id, Seq<char>> {
    Map::new(
        |k: Id| exists|i: int| 0 <= i < s.len() && s[i].user.id == k,
        |k: Id| s[choose|i: int| 0 <= i < s.len() && s[i].user.id == k].sid@,
    )
}

spec fn entries_wf(s: Seq<SessionEntry>, counter: nat) -> bool {
    &&& forall|i: int| 0 <= i < s.len() ==> {
            &&& 1 <= #[trigger] s[i].number <= counter
            &&& s[i].sid@ == decimal(s[i].number as nat)
        }
    &&& forall|i: int, j: int| 0 <= i < s.len() && 0 <= j < s.len() && i != j ==> {
            &&& (#[trigger] s[i]).sid@ != (#[trigger] s[j]).sid@
            &&& s[i].user.id != s[j].user.id
        }
}

proof fn lemma_entry_lookup(s: Seq<SessionEntry>, counter: nat, i: int)
    requires
        entries_wf(s, counter),
        0 <= i < s.len(),
    ensures
        sessions_of(s).contains_key(s[i].sid@),
        sessions_of(s)[s[i].sid@] == s[i].user@,
        by_user_of(s).contains_key(s[i].user.id),
        by_user_of(s)[s[i].user.id] == s[i].sid@,
{
    let k = s[i].sid@;
    assert(sessions_of(s).dom().contains(k));
    let c = choose|j: int| 0 <= j < s.len() && s[j].sid@ == k;
    assert(c == i);
    let u = s[i].user.id;
    assert(by_user_of(s).dom().contains(u));
    let d = choose|j: int| 0 <= j < s.len() && s[j].user.id == u;
    assert(d == i);
}

proof fn lemma_sessions_finite(s: Seq<SessionEntry>)
    ensures
        sessions_of(s).dom().finite(),
    decreases s.len(),
{
    let f = |i: int| s[i].sid@;
    let idx = Set::new(|i: int| 0 <= i < s.len());
    vstd::set_lib::lemma_int_range(0, s.len() as int);
    assert(idx =~= vstd::set_lib::set_int_range(0, s.len() as int));
    idx.lemma_map_finite(f);
    assert(sessions_of(s).dom() =~= idx.map(f)) by {
        assert forall|k: Seq<char>| sessions_of(s).dom().contains(k) implies idx.map(f).contains(k) by {
            let i = choose|i: int| 0 <= i < s.len() && s[i].sid@ == k;
            assert(idx.contains(i));
        }
    }
}

/// The entries' view is a well-formed model.
proof fn lemma_entries_model_wf(s: Seq<SessionEntry>, counter: nat)
    requires
        entries_wf(s, counter),
    ensures
        (SessionsModel { sessions: sessions_of(s), by_user: by_user_of(s), counter }).wf(),
{
    lemma_sessions_finite(s);
    let m = SessionsModel { sessions: sessions_of(s), by_user: by_user_of(s), counter };
    assert forall|uid: Id| #[trigger] m.by_user.contains_key(uid) implies {
        &&& m.sessions.contains_key(m.by_user[uid])
        &&& m.sessions[m.by_user[uid]].id == uid
    } by {
        let i = choose|i: int| 0 <= i < s.len() && s[i].user.id == uid;
        lemma_entry_lookup(s, counter, i);
    }
    assert forall|sid: Seq<char>| #[trigger] m.sessions.contains_key(sid) implies {
        &&& m.by_user.contains_key(m.sessions[sid].id)
        &&& m.by_user[m.sessions[sid].id] == sid
        &&& exists|k: nat| 1 <= k <= m.counter && sid == #[trigger] decimal(k)
    } by {
        let i = choose|i: int| 0 <= i < s.len() && s[i].sid@ == sid;
        lemma_entry_lookup(s, counter, i);
        let k = s[i].number as nat;
        assert(sid == decimal(k));
    }
}

proof fn lemma_entries_remove(s: Seq<SessionEntry>, counter: nat, r: int)
    requires
        entries_wf(s, counter),
        0 <= r < s.len(),
    ensures
        entries_wf(s.remove(r), counter),
        sessions_of(s.remove(r)) =~= sessions_of(s).remove(s[r].sid@),
        by_user_of(s.remove(r)) =~= by_user_of(s).remove(s[r].user.id),
{
    let t = s.remove(r);
    assert forall|i: int| 0 <= i < t.len() implies t[i] == s[if i < r { i } else { i + 1 }] by {}
    assert(entries_wf(t, counter)) by {
        assert forall|i: int, j: int| 0 <= i < t.len() && 0 <= j < t.len() && i != j implies {
            &&& (#[trigger] t[i]).sid@ != (#[trigger] t[j]).sid@
            &&& t[i].user.id != t[j].user.id
        } by {
            let a = if i < r { i } else { i + 1 };
            let b = if j < r { j } else { j + 1 };
            assert(s[a] == t[i] && s[b] == t[j]);
        }
        assert forall|i: int| 0 <= i < t.len() implies {
            &&& 1 <= #[trigger] t[i].number <= counter
            &&& t[i].sid@ == decimal(t[i].number as nat)
        } by {
            let a = if i < r { i } else { i + 1 };
            assert(s[a] == t[i]);
        }
    }
    assert forall|k: Seq<char>| #[trigger] sessions_of(t).contains_key(k) <==> sessions_of(s).remove(s[r].sid@).contains_key(k) by {
        if sessions_of(t).contains_key(k) {
            let i = choose|i: int| 0 <= i < t.len() && t[i].sid@ == k;
            let a = if i < r { i } else { i + 1 };
            assert(s[a] == t[i]);
            lemma_entry_lookup(s, counter, a);
        }
        if sessions_of(s).remove(s[r].sid@).contains_key(k) {
            let a = choose|a: int| 0 <= a < s.len() && s[a].sid@ == k;
            assert(a != r);
            let i = if a < r { a } else { a - 1 };
            assert(t[i] == s[a]);
        }
    }
    assert forall|k: Seq<char>| #[trigger] sessions_of(t).contains_key(k) implies sessions_of(t)[k] == sessions_of(s)[k] by {
        let i = choose|i: int| 0 <= i < t.len() && t[i].sid@ == k;
        let a = if i < r { i } else { i + 1 };
        assert(s[a] == t[i]);
        lemma_entry_lookup(s, counter, a);
        lemma_entry_lookup(t, counter, i);
    }
    assert forall|k: Id| #[trigger] by_user_of(t).contains_key(k) <==> by_user_of(s).remove(s[r].user.id).contains_key(k) by {
        if by_user_of(t).contains_key(k) {
            let i = choose|i: int| 0 <= i < t.len() && t[i].user.id == k;
            let a = if i < r { i } else { i + 1 };
            assert(s[a] == t[i]);
            lemma_entry_lookup(s, counter, a);
        }
        if by_user_of(s).remove(s[r].user.id).contains_key(k) {
            let a = choose|a: int| 0 <= a < s.len() && s[a].user.id == k;
            assert(a != r);
            let i = if a < r { a } else { a - 1 };
            assert(t[i] == s[a]);
        }
    }
    assert forall|k: Id| #[trigger] by_user_of(t).contains_key(k) implies by_user_of(t)[k] == by_user_of(s)[k] by {
        let i = choose|i: int| 0 <= i < t.len() && t[i].user.id == k;
        let a = if i < r { i } else { i + 1 };
        assert(s[a] == t[i]);
        lemma_entry_lookup(s, counter, a);
        lemma_entry_lookup(t, counter, i);
    }
}

proof fn lemma_entries_push(s: Seq<SessionEntry>, counter: nat, e: SessionEntry)
    requires
        entries_wf(s, counter),
        e.number == counter + 1,
        e.sid@ == decimal(e.number as nat),
        forall|i: int| 0 <= i < s.len() ==> s[i].user.id != e.user.id,
    ensures
        entries_wf(s.push(e), counter + 1),
        sessions_of(s.push(e)) =~= sessions_of(s).insert(e.sid@, e.user@),
        by_user_of(s.push(e)) =~= by_user_of(s).insert(e.user.id, e.sid@),
{
    let t = s.push(e);
    assert forall|i: int| 0 <= i < s.len() implies t[i].sid@ != e.sid@ by {
        if t[i].sid@ == e.sid@ {
            lemma_decimal_injective(s[i].number as nat, e.number as nat);
        }
    }
    assert(entries_wf(t, counter + 1)) by {
        assert forall|i: int, j: int| 0 <= i < t.len() && 0 <= j < t.len() && i != j implies {
            &&& (#[trigger] t[i]).sid@ != (#[trigger] t[j]).sid@
            &&& t[i].user.id != t[j].user.id
        } by {
            if i < s.len() && j < s.len() {
                assert(t[i] == s[i] && t[j] == s[j]);
            }
        }
    }
    let n = s.len() as int;
    lemma_entry_lookup(t, counter + 1, n);
    assert forall|k: Seq<char>| #[trigger] sessions_of(t).contains_key(k) <==> sessions_of(s).insert(e.sid@, e.user@).contains_key(k) by {
        if sessions_of(t).contains_key(k) && k != e.sid@ {
            let i = choose|i: int| 0 <= i < t.len() && t[i].sid@ == k;
            assert(i < n);
            assert(t[i] == s[i]);
            lemma_entry_lookup(s, counter, i);
        }
        if sessions_of(s).contains_key(k) {
            let i = choose|i: int| 0 <= i < s.len() && s[i].sid@ == k;
            assert(t[i] == s[i]);
            lemma_entry_lookup(t, counter + 1, i);
        }
    }
    assert forall|k: Seq<char>| #[trigger] sessions_of(t).contains_key(k) implies sessions_of(t)[k] == sessions_of(s).insert(e.sid@, e.user@)[k] by {
        if k != e.sid@ {
            let i = choose|i: int| 0 <= i < t.len() && t[i].sid@ == k;
            assert(i < n);
            assert(t[i] == s[i]);
            lemma_entry_lookup(s, counter, i);
            lemma_entry_lookup(t, counter + 1, i);
        }
    }
    assert forall|k: Id| #[trigger] by_user_of(t).contains_key(k) <==> by_user_of(s).insert(e.user.id, e.sid@).contains_key(k) by {
        if by_user_of(t).contains_key(k) && k != e.user.id {
            let i = choose|i: int| 0 <= i < t.len() && t[i].user.id == k;
            assert(i < n);
            assert(t[i] == s[i]);
            lemma_entry_lookup(s, counter, i);
        }
        if by_user_of(s).contains_key(k) {
            let i = choose|i: int| 0 <= i < s.len() && s[i].user.id == k;
            assert(t[i] == s[i]);
            lemma_entry_lookup(t, counter + 1, i);
        }
    }
    assert forall|k: Id| #[trigger] by_user_of(t).contains_key(k) implies by_user_of(t)[k] == by_user_of(s).insert(e.user.id, e.sid@)[k] by {
        if k != e.user.id {
            let i = choose|i: int| 0 <= i < t.len() && t[i].user.id == k;
            assert(i < n);
            assert(t[i] == s[i]);
            lemma_entry_lookup(s, counter, i);
            lemma_entry_lookup(t, counter + 1, i);
        }
    }
}

/// The store of active sessions.
pub struct SessionsStore {
    entries: Vec<SessionEntry>,
    session_id_generator: SessionIdGenerator,
}

impl View for SessionsStore {
    type V = SessionsModel;

    closed spec fn view(&self) -> SessionsModel {
        SessionsModel {
            sessions: sessions_of(self.entries@),
            by_user: by_user_of(self.entries@),
            counter: self.session_id_generator.state as nat,
        }
    }
}

impl SessionsStore {
    #[verifier::type_invariant]
    closed spec fn inv(self) -> bool {
        entries_wf(self.entries@, self.session_id_generator.state as nat)
    }

    /// An empty store.
    pub fn new() -> (r: SessionsStore)
        ensures
            r@.sessions == Map::<Seq<char>, UserView>::empty(),
            r@.by_user == Map::<Id, Seq<char>>::empty(),
            r@.counter == 0,
    {
        let r = SessionsStore { entries: Vec::new(), session_id_generator: SessionIdGenerator::new() };
        assert(sessions_of(r.entries@) =~= Map::empty());
        assert(by_user_of(r.entries@) =~= Map::empty());
        r
    }

    /// The user that the session `session_id` belongs to.
    pub fn user_by_session_id(&self, session_id: &SessionId) -> (r: Option<User>)
        ensures
            self@.wf(),
            r is Some <==> self@.sessions.contains_key(session_id@),
            r is Some ==> r->0@ == self@.sessions[session_id@],
    {
        proof {
            use_type_invariant(self);
            lemma_entries_model_wf(self.entries@, self.session_id_generator.state as nat);
        }
        let n = self.entries.len();
        let mut i: usize = 0;
        while i < n
            invariant
                n == self.entries@.len(),
                i <= n,
                entries_wf(self.entries@, self.session_id_generator.state as nat),
                self@.wf(),
                forall|j: int| 0 <= j < i ==> self.entries@[j].sid@ != session_id@,
            decreases n - i,
        {
            if self.entries[i].sid == *session_id {
                proof { lemma_entry_lookup(self.entries@, self.session_id_generator.state as nat, i as int); }
                return Some(self.entries[i].user.duplicate());
            }
            i = i + 1;
        }
        None
    }

    /// Opens a new session for `user` and closes the one it had, if any.
    pub fn add_new_session(&mut self, user: &User) -> (sid: SessionId)
        requires
            old(self)@.counter < u64::MAX,
        ensures
            old(self)@.wf(),
            final(self)@.wf(),
            (final(self)@, sid@) == spec_add_new_session(old(self)@, user@),
    {
        proof {
            use_type_invariant(&*self);
            lemma_entries_model_wf(self.entries@, self.session_id_generator.state as nat);
        }
        let ghost counter = self.session_id_generator.state as nat;
        let ghost s0 = self.entries@;
        let n = self.entries.len();
        let mut found: Option<usize> = None;
        let mut i: usize = 0;
        while i < n
            invariant
                n == self.entries@.len(),
                self.entries@ == s0,
                i <= n,
                found is None ==> forall|j: int| 0 <= j < i ==> s0[j].user.id != user.id,
                found is Some ==> found->0 < n && s0[found->0 as int].user.id == user.id,
            decreases n - i,
        {
            if found.is_none() && self.entries[i].user.id == user.id {
                found = Some(i);
            }
            i = i + 1;
        }
        let mut entries = Vec::new();
        std::mem::swap(&mut entries, &mut self.entries);
        let ghost s1;
        match found {
            Some(r) => {
                proof {
                    lemma_entry_lookup(s0, counter, r as int);
                    lemma_entries_remove(s0, counter, r as int);
                }
                entries.remove(r);
                proof {
                    s1 = entries@;
                    assert forall|j: int| 0 <= j < s1.len() implies s1[j].user.id != user.id by {
                        let a = if j < r { j } else { j + 1 };
                        assert(s1[j] == s0[a]);
                    }
                }
            },
            None => {
                proof {
                    s1 = s0;
                    assert(!by_user_of(s0).contains_key(user.id));
                }
            },
        }
        let mut generator = SessionIdGenerator { state: self.session_id_generator.state };
        let sid = generator.gen();
        let entry = SessionEntry { number: generator.state, sid: sid.clone(), user: user.duplicate() };
        self.session_id_generator = generator;
        proof { lemma_entries_push(s1, counter, entry); }
        let ghost e = entry;
        entries.push(entry);
        self.entries = entries;
        proof {
            lemma_entries_model_wf(self.entries@, self.session_id_generator.state as nat);
            assert(self.entries@ == s1.push(e));
            let expected = spec_add_new_session(old(self)@, user@);
            assert(sid@ == expected.1);
            if found is Some {
                assert(by_user_of(s0).remove(user.id).insert(user.id, sid@) =~= by_user_of(s0).insert(user.id, sid@));
            }
            assert(self@.sessions =~= expected.0.sessions);
            assert(self@.by_user =~= expected.0.by_user);
        }
        sid
    }
}

/// Shared access to the session store for request handlers.
pub struct SessionsStoreMiddleware {
    store: SessionsStore,
}

impl View for SessionsStoreMiddleware {
    type V = SessionsModel;

    closed spec fn view(&self) -> SessionsModel {
        self.store@
    }
}

impl SessionsStoreMiddleware {
    /// Another session can be numbered: the counter has not reached its end.
    pub fn has_room(&self) -> (r: bool)
        ensures
            r == (self@.counter < u64::MAX),
    {
        self.store.session_id_generator.state < u64::MAX
    }

    /// The user that the session `session_id` belongs to.
    pub fn user_by_session_id(&self, session_id: &SessionId) -> (r: Option<User>)
        ensures
            self@.wf(),
            r is Some <==> self@.sessions.contains_key(session_id@),
            r is Some ==> r->0@ == self@.sessions[session_id@],
    {
        self.store.user_by_session_id(session_id)
    }

    /// Opens a new session for `user`, closing the one it had, and returns its identifier.
    pub fn add_new_session(&mut self, user: &User) -> (sid: SessionId)
        requires
            old(self)@.counter < u64::MAX,
        ensures
            old(self)@.wf(),
            final(self)@.wf(),
            (final(self)@, sid@) == spec_add_new_session(old(self)@, user@),
    {
        self.store.add_new_session(user)
    }
}

/// A session store with no session in it.
pub fn create_session_store() -> (r: SessionsStoreMiddleware)
    ensures
        r@.sessions == Map::<Seq<char>, UserView>::empty(),
        r@.by_user == Map::<Id, Seq<char>>::empty(),
        r@.counter == 0,
{
    SessionsStoreMiddleware { store: SessionsStore::new() }
}

/// After a log-in, its session identifier resolves to the user that logged in.
pub proof fn law_new_session_resolves_to_user(m: SessionsModel, user: UserView)
    ensures
        spec_add_new_session(m, user).0.sessions.contains_key(spec_add_new_session(m, user).1),
        spec_add_new_session(m, user).0.sessions[spec_add_new_session(m, user).1] == user,
{
}

/// A log-in closes the session that the same user had before.
pub proof fn law_old_session_closed(m: SessionsModel, user: UserView)
    requires
        m.wf(),
        m.by_user.contains_key(user.id),
    ensures
        !spec_add_new_session(m, user).0.sessions.contains_key(m.by_user[user.id]),
{
    let old_sid = m.by_user[user.id];
    let new_sid = decimal(m.counter + 1);
    assert(m.sessions.contains_key(old_sid));
    let k = choose|k: nat| 1 <= k <= m.counter && old_sid == #[trigger] decimal(k);
    if old_sid == new_sid {
        lemma_decimal_injective(k, m.counter + 1);
    }
}

/// A log-in leaves the sessions of every other user as they were.
pub proof fn law_other_sessions_kept(m: SessionsModel, user: UserView, sid: Seq<char>)
    requires
        m.wf(),
        m.sessions.contains_key(sid),
        m.sessions[sid].id != user.id,
    ensures
        spec_add_new_session(m, user).0.sessions.contains_key(sid),
        spec_add_new_session(m, user).0.sessions[sid] == m.sessions[sid],
{
    let new_sid = decimal(m.counter + 1);
    let k = choose|k: nat| 1 <= k <= m.counter && sid == #[trigger] decimal(k);
    if sid == new_sid {
        lemma_decimal_injective(k, m.counter + 1);
    }
    if m.by_user.contains_key(user.id) {
        assert(m.by_user[user.id] != sid);
    }
}

/// Logging in keeps the store well formed: still one session per user.
pub proof fn law_add_session_keeps_wf(m: SessionsModel, user: UserView)
    requires
        m.wf(),
    ensures
        spec_add_new_session(m, user).0.wf(),
{
    let (m2, sid) = spec_add_new_session(m, user);
    let kept = if m.by_user.contains_key(user.id) { m.sessions.remove(m.by_user[user.id]) } else { m.sessions };
    assert forall|s: Seq<char>| kept.contains_key(s) implies s != sid && kept[s].id != user.id by {
        let k = choose|k: nat| 1 <= k <= m.counter && s == #[trigger] decimal(k);
        if s == sid {
            lemma_decimal_injective(k, m.counter + 1);
        }
    }
    assert forall|uid: Id| #[trigger] m2.by_user.contains_key(uid) implies {
        &&& m2.sessions.contains_key(m2.by_user[uid])
        &&& m2.sessions[m2.by_user[uid]].id == uid
    } by {
        if uid != user.id {
            let s = m.by_user[uid];
            assert(kept.contains_key(s));
        }
    }
    assert forall|s: Seq<char>| #[trigger] m2.sessions.contains_key(s) implies {
        &&& m2.by_user.contains_key(m2.sessions[s].id)
        &&& m2.by_user[m2.sessions[s].id] == s
        &&& exists|k: nat| 1 <= k <= m2.counter && s == #[trigger] decimal(k)
    } by {
        if s == sid {
            assert(decimal(m.counter + 1) == s);
        } else {
            assert(kept.contains_key(s));
            let k = choose|k: nat| 1 <= k <= m.counter && s == #[trigger] decimal(k);
            assert(1 <= k <= m2.counter);
        }
    }
}

/// The store after the users `users` logged in, one after the other, into a
/// store made empty.
pub open spec fn logins(users: Seq<UserView>) -> SessionsModel
    decreases users.len(),
{
    if users.len() == 0 {
        SessionsModel { sessions: Map::empty(), by_user: Map::empty(), counter: 0 }
    } else {
        spec_add_new_session(logins(users.drop_last()), users.last()).0
    }
}

/// The user of the `i`-th log-in of `users` logs in again later.
pub open spec fn logs_in_again(users: Seq<UserView>, i: int) -> bool {
    exists|j: int| i < j < users.len() && #[trigger] users[j].id == users[i].id
}

/// A history of log-ins numbers its sessions one after the other.
pub proof fn law_login_counter(users: Seq<UserView>)
    ensures
        logins(users).counter == users.len(),
    decreases users.len(),
{
    if users.len() > 0 {
        law_login_counter(users.drop_last());
    }
}

/// Over a whole history of log-ins into a store made empty: the `i`-th log-in
/// is handed the session identifier `i + 1` in decimal; that session still
/// resolves, to the user of that log-in, exactly when the same user has not
/// logged in again since; no other session is open; and the store stays well
/// formed.
pub proof fn law_session_history(users: Seq<UserView>)
    ensures
        logins(users).wf(),
        logins(users).counter == users.len(),
        forall|i: int| 0 <= i < users.len()
            ==> #[trigger] spec_add_new_session(logins(users.take(i)), users[i]).1 == decimal((i + 1) as nat),
        forall|i: int| 0 <= i < users.len()
            ==> (logins(users).sessions.contains_key(#[trigger] decimal((i + 1) as nat)) <==> !logs_in_again(users, i)),
        forall|i: int| 0 <= i < users.len() && logins(users).sessions.contains_key(#[trigger] decimal((i + 1) as nat))
            ==> logins(users).sessions[decimal((i + 1) as nat)] == users[i],
        forall|sid: Seq<char>| #[trigger] logins(users).sessions.contains_key(sid)
            ==> exists|i: int| 0 <= i < users.len() && sid == #[trigger] decimal((i + 1) as nat),
    decreases users.len(),
{
    law_login_counter(users);
    assert forall|i: int| 0 <= i < users.len()
        implies #[trigger] spec_add_new_session(logins(users.take(i)), users[i]).1 == decimal((i + 1) as nat) by {
        law_login_counter(users.take(i));
    }
    if users.len() == 0 {
        let m = logins(users);
        assert(m.sessions.dom() =~= Set::empty());
        return;
    }
    let prev = users.drop_last();
    let u = users.last();
    let n = prev.len() as int;
    law_session_history(prev);
    let m = logins(prev);
    let m2 = logins(users);
    assert(m2 == spec_add_new_session(m, u).0);
    law_add_session_keeps_wf(m, u);
    law_new_session_resolves_to_user(m, u);
    let new_sid = decimal((n + 1) as nat);
    let kept = if m.by_user.contains_key(u.id) { m.sessions.remove(m.by_user[u.id]) } else { m.sessions };
    assert(m2.sessions == kept.insert(new_sid, u));
    assert forall|i: int| 0 <= i < n implies {
        &&& (m2.sessions.contains_key(#[trigger] decimal((i + 1) as nat)) <==> !logs_in_again(users, i))
        &&& m2.sessions.contains_key(decimal((i + 1) as nat)) ==> m2.sessions[decimal((i + 1) as nat)] == users[i]
    } by {
        let sid = decimal((i + 1) as nat);
        assert(prev[i] == users[i]);
        if sid == new_sid {
            lemma_decimal_injective((i + 1) as nat, (n + 1) as nat);
        }
        if users[i].id == u.id {
            assert(users[n] == u);
            assert(logs_in_again(users, i));
            if m.sessions.contains_key(sid) {
                assert(m.sessions[sid] == users[i]);
                assert(m.by_user[u.id] == sid);
            }
            assert(!kept.contains_key(sid));
        } else {
            assert(logs_in_again(users, i) == logs_in_again(prev, i)) by {
                if logs_in_again(users, i) {
                    let j = choose|j: int| i < j < users.len() && #[trigger] users[j].id == users[i].id;
                    assert(j != n);
                    assert(prev[j] == users[j]);
                }
                if logs_in_again(prev, i) {
                    let j = choose|j: int| i < j < prev.len() && #[trigger] prev[j].id == prev[i].id;
                    assert(users[j] == prev[j]);
                }
            }
            if m.sessions.contains_key(sid) {
                law_other_sessions_kept(m, u, sid);
            } else {
                assert(!kept.contains_key(sid));
            }
        }
    }
    assert(!logs_in_again(users, n));
    assert forall|i: int| 0 <= i < users.len()
        implies (m2.sessions.contains_key(#[trigger] decimal((i + 1) as nat)) <==> !logs_in_again(users, i)) by {
        if i < n {
            assert(m2.sessions.contains_key(decimal((i + 1) as nat)) <==> !logs_in_again(users, i));
        }
    }
    assert forall|i: int| 0 <= i < users.len() && m2.sessions.contains_key(#[trigger] decimal((i + 1) as nat))
        implies m2.sessions[decimal((i + 1) as nat)] == users[i] by {
        if i < n {
            assert(m2.sessions.contains_key(decimal((i + 1) as nat)));
        }
    }
    assert forall|sid: Seq<char>| #[trigger] m2.sessions.contains_key(sid)
        implies exists|i: int| 0 <= i < users.len() && sid == #[trigger] decimal((i + 1) as nat) by {
        if sid == new_sid {
            assert(sid == decimal((n + 1) as nat));
        } else {
            assert(m.sessions.contains_key(sid));
            let i = choose|i: int| 0 <= i < prev.len() && sid == #[trigger] decimal((i + 1) as nat);
            assert(sid == decimal((i + 1) as nat));
        }
    }
}

/// The check that a request comes from a logged-in user.
pub struct Autentication {
    pub login_page_path: String,
}

impl Autentication {
    /// The page shown to visitors who are not logged in.
    pub fn login_page_path(&self) -> (r: &String)
        ensures
            r@ == self.login_page_path@,
    {
        &self.login_page_path
    }

    /// The user that the request's session cookie belongs to; `None` means the
    /// visitor is sent to the login page.
    pub fn find_user(&self, store: &SessionsStoreMiddleware, session_cookie: Option<&String>) -> (r: Option<User>)
        ensures
            session_cookie is None ==> r is None,
            session_cookie is Some ==> {
                &&& (r is Some <==> store@.sessions.contains_key(session_cookie->0@))
                &&& (r is Some ==> r->0@ == store@.sessions[session_cookie->0@])
            },
    {
        match session_cookie {
            Some(sid) => store.user_by_session_id(sid),
            None => None,
        }
    }
}

/// The authentication check, which sends unknown visitors to the page at `c`.
pub fn middleware(c: &String) -> (r: Autentication)
    ensures
        r.login_page_path@ == c@,
{
    Autentication { login_page_path: c.clone() }
}

/// The name of the cookie that holds the session identifier.
pub fn session_cookie_name() -> (r: &'static str)
    ensures
        r@ == "sid"@,
{
    "sid"
}

} // verus!
