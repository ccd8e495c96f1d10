//! The birthday store: one date of birth per username.
//!
//! The store is modelled as a map from username to date of birth; writes
//! replace the whole record, so the last write wins. This in-memory form is
//! the verified reference; an adapter over an external key-value service
//! can sit in front of it as long as it honours the same map semantics.

use vstd::prelude::*;

use crate::date::Date;

verus! {

/// A failure reported by the storage collaborator. It is never interpreted
/// here, only forwarded (to the log, not to the client).
pub struct StoreError {
    pub message: String,
}

/// The records held by the store, as a map from username to date of birth.
pub open spec fn entries_map(s: Seq<(String, Date)>) -> Map<Seq<char>, Date>
    decreases s.len(),
{
    if s.len() == 0 {
        Map::empty()
    } else {
        entries_map(s.drop_last()).insert(s.last().0@, s.last().1)
    }
}

/// No two entries share a username.
pub open spec fn unique_keys(s: Seq<(String, Date)>) -> bool {
    forall|i: int, j: int| 0 <= i < j < s.len() ==> s[i].0@ != s[j].0@
}

/// The birthday records.
pub struct Store {
    entries: Vec<(String, Date)>,
}

impl View for Store {
    type V = Map<Seq<char>, Date>;

    closed spec fn view(&self) -> Map<Seq<char>, Date> {
        entries_map(self.entries@)
    }
}

proof fn lemma_entries_map_found(s: Seq<(String, Date)>, i: int)
    requires
        unique_keys(s),
        0 <= i < s.len(),
    ensures
        entries_map(s).contains_key(s[i].0@),
        entries_map(s)[s[i].0@] == s[i].1,
    decreases s.len(),
{
    if i < s.len() - 1 {
        lemma_entries_map_found(s.drop_last(), i);
    }
}

proof fn lemma_entries_map_absent(s: Seq<(String, Date)>, k: Seq<char>)
    requires
        forall|i: int| 0 <= i < s.len() ==> (#[trigger] s[i]).0@ != k,
    ensures
        !entries_map(s).contains_key(k),
    decreases s.len(),
{
    if s.len() > 0 {
        lemma_entries_map_absent(s.drop_last(), k);
    }
}

proof fn lemma_entries_map_update(s: Seq<(String, Date)>, i: int, v: Date)
    requires
        unique_keys(s),
        0 <= i < s.len(),
    ensures
        entries_map(s.update(i, (s[i].0, v))) == entries_map(s).insert(s[i].0@, v),
    decreases s.len(),
{
    let t = s.update(i, (s[i].0, v));
    if i == s.len() - 1 {
        assert(t.drop_last() =~= s.drop_last());
        assert(entries_map(t) =~= entries_map(s).insert(s[i].0@, v));
    } else {
        lemma_entries_map_update(s.drop_last(), i, v);
        assert(t.drop_last() =~= s.drop_last().update(i, (s[i].0, v)));
        assert(entries_map(t) =~= entries_map(s).insert(s[i].0@, v));
    }
}

impl Store {
    /// The store's internal shape is sound: usernames are unique and every
    /// stored date is a real calendar date.
    pub closed spec fn wf(&self) -> bool {
        &&& unique_keys(self.entries@)
        &&& forall|i: int|
            0 <= i < self.entries@.len() ==> (#[trigger] self.entries@[i]).1.wf()
    }

    /// An empty store.
    pub fn new() -> (s: Store)
        ensures
            s.wf(),
            s@ == Map::<Seq<char>, Date>::empty(),
    {
        Store { entries: Vec::new() }
    }

    /// Look up the date of birth stored for `username`; `None` when no
    /// record exists.
    pub fn get_birthday(&self, username: &str) -> (r: Option<Date>)
        requires
            self.wf(),
        ensures
            r == if self@.contains_key(username@) {
                Some(self@[username@])
            } else {
                None::<Date>
            },
            r matches Some(d) ==> d.wf(),
    {
        let key = String::from_str(username);
        let n = self.entries.len();
        let mut i: usize = 0;
        while i < n
            invariant
                i <= n,
                n == self.entries@.len(),
                key@ == username@,
                self.wf(),
                forall|j: int| 0 <= j < i ==> (#[trigger] self.entries@[j]).0@ != username@,
            decreases n - i,
        {
            if self.entries[i].0 == key {
                proof {
                    lemma_entries_map_found(self.entries@, i as int);
                }
                return Some(self.entries[i].1);
            }
            i = i + 1;
        }
        proof {
            lemma_entries_map_absent(self.entries@, username@);
        }
        None
    }

    /// Store `dob` as the full record for `username`, replacing any prior
    /// value.
    pub fn upsert_birthday(&mut self, username: String, dob: Date)
        requires
            old(self).wf(),
            dob.wf(),
        ensures
            final(self).wf(),
            final(self)@ == old(self)@.insert(username@, dob),
    {
        let n = self.entries.len();
        let mut i: usize = 0;
        while i < n
            invariant
                i <= n,
                n == self.entries@.len(),
                self.wf(),
                dob.wf(),
                self.entries@ == old(self).entries@,
                forall|j: int| 0 <= j < i ==> (#[trigger] self.entries@[j]).0@ != username@,
            decreases n - i,
        {
            if self.entries[i].0 == username {
                proof {
                    lemma_entries_map_update(self.entries@, i as int, dob);
                }
                self.entries[i].1 = dob;
                proof {
                    let s = self.entries@;
                    let so = old(self).entries@;
                    assert(s =~= so.update(i as int, (so[i as int].0, dob)));
                    assert forall|p: int| 0 <= p < s.len() implies (#[trigger] s[p]).1.wf() by {
                        if p == i as int {
                            assert(s[p] == (so[i as int].0, dob));
                        } else {
                            assert(s[p] == so[p]);
                        }
                    }
                    assert forall|p: int, q: int| 0 <= p < q < s.len() implies (
                    #[trigger] s[p]).0@ != (#[trigger] s[q]).0@ by {
                        assert(s[p].0 == so[p].0);
                        assert(s[q].0 == so[q].0);
                    }
                }
                return ;
            }
            i = i + 1;
        }
        proof {
            lemma_entries_map_absent(self.entries@, username@);
            let t = self.entries@.push((username, dob));
            assert(t.drop_last() =~= self.entries@);
        }
        self.entries.push((username, dob));
    }
}

/// Storing a record and then reading the same username yields exactly the
/// stored date, and storing the same record again changes nothing more:
/// the last write wins.
pub proof fn lemma_store_round_trip(m: Map<Seq<char>, Date>, u: Seq<char>, d: Date)
    ensures
        m.insert(u, d).contains_key(u),
        m.insert(u, d)[u] == d,
        m.insert(u, d).insert(u, d) == m.insert(u, d),
{
    assert(m.insert(u, d).insert(u, d) =~= m.insert(u, d));
}

} // verus!
