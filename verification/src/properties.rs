//! The key/value properties a stream is created with (the session manager reads
//! them to route the stream).

use vstd::prelude::*;

verus! {

/// A dictionary of string properties: each key once, in the order in which the
/// keys were first set.
#[derive(Debug)]
pub struct Properties {
    entries: Vec<(String, String)>,
}

/// No key occurs twice among `s`.
pub open spec fn unique_keys(s: Seq<(Seq<char>, Seq<char>)>) -> bool {
    forall|i: int, j: int| 0 <= i < j < s.len() ==> #[trigger] s[i].0 != #[trigger] s[j].0
}

/// The index of `key` among the entries `s`, if it is there.
pub open spec fn key_index(s: Seq<(Seq<char>, Seq<char>)>, key: Seq<char>) -> Option<int> {
    if exists|i: int| 0 <= i < s.len() && s[i].0 == key {
        Some(choose|i: int| 0 <= i < s.len() && s[i].0 == key)
    } else {
        None
    }
}

/// The entries `s` after setting `key` to `value`: the value of an existing key
/// is replaced in place, a new key is appended.
pub open spec fn set_entry(s: Seq<(Seq<char>, Seq<char>)>, key: Seq<char>, value: Seq<char>) -> Seq<
    (Seq<char>, Seq<char>),
> {
    match key_index(s, key) {
        Some(i) => s.update(i, (key, value)),
        None => s.push((key, value)),
    }
}

/// In entries without repeated keys, the entry that holds `key` is the one
/// `key_index` finds.
pub proof fn lemma_key_index_found(s: Seq<(Seq<char>, Seq<char>)>, key: Seq<char>, i: int)
    requires
        unique_keys(s),
        0 <= i < s.len(),
        s[i].0 == key,
    ensures
        key_index(s, key) == Some(i),
{
    let j = choose|j: int| 0 <= j < s.len() && s[j].0 == key;
    if j != i {
        if j < i {
            assert(s[j].0 != s[i].0);
        } else {
            assert(s[i].0 != s[j].0);
        }
    }
}

/// Setting a key keeps the keys of the entries distinct.
proof fn lemma_set_entry_unique(s: Seq<(Seq<char>, Seq<char>)>, key: Seq<char>, value: Seq<char>)
    requires
        unique_keys(s),
    ensures
        unique_keys(set_entry(s, key, value)),
{
    let t = set_entry(s, key, value);
    match key_index(s, key) {
        Some(i) => {
            assert forall|a: int, b: int| 0 <= a < b < t.len() implies #[trigger] t[a].0 != #[trigger] t[b].0 by {
                assert(s[a].0 != s[b].0);
            }
        },
        None => {
            assert forall|a: int, b: int| 0 <= a < b < t.len() implies #[trigger] t[a].0 != #[trigger] t[b].0 by {
                if b < s.len() {
                    assert(s[a].0 != s[b].0);
                } else {
                    assert(!(0 <= a < s.len() && s[a].0 == key));
                }
            }
        },
    }
}

/// The value of `key` among the entries `s`, if it is there.
pub open spec fn lookup(s: Seq<(Seq<char>, Seq<char>)>, key: Seq<char>) -> Option<Seq<char>> {
    match key_index(s, key) {
        Some(i) => Some(s[i].1),
        None => None,
    }
}

/// After a key is set, reading it gives the value it was set to, and reading
/// any other key gives what it gave before.
pub proof fn lemma_set_then_lookup(
    s: Seq<(Seq<char>, Seq<char>)>,
    key: Seq<char>,
    value: Seq<char>,
    other: Seq<char>,
)
    requires
        unique_keys(s),
    ensures
        lookup(set_entry(s, key, value), other) == if other == key {
            Some(value)
        } else {
            lookup(s, other)
        },
{
    let t = set_entry(s, key, value);
    lemma_set_entry_unique(s, key, value);
    let pos: int = match key_index(s, key) {
        Some(i) => i,
        None => s.len() as int,
    };
    if let Some(i) = key_index(s, key) {
        lemma_key_index_found(s, key, i);
    }
    assert(t[pos] == (key, value));
    if other == key {
        lemma_key_index_found(t, key, pos);
    } else {
        match key_index(s, other) {
            Some(j) => {
                lemma_key_index_found(s, other, j);
                assert(j != pos);
                assert(t[j] == s[j]);
                lemma_key_index_found(t, other, j);
            },
            None => {
                assert forall|j: int| 0 <= j < t.len() implies t[j].0 != other by {
                    if j != pos {
                        assert(t[j] == s[j]);
                        assert(!(0 <= j < s.len() && s[j].0 == other));
                    }
                }
            },
        }
    }
}

impl Properties {
    /// The entries, as character strings, in order.
    pub closed spec fn view(&self) -> Seq<(Seq<char>, Seq<char>)> {
        self.entries@.map_values(|e: (String, String)| (e.0@, e.1@))
    }

    /// Each key occurs once.
    pub open spec fn wf(&self) -> bool {
        unique_keys(self.view())
    }

    /// An empty dictionary.
    pub fn new() -> (r: Self)
        ensures
            r.view() == Seq::<(Seq<char>, Seq<char>)>::empty(),
            r.wf(),
    {
        let r = Properties { entries: Vec::new() };
        assert(r.view() =~= Seq::<(Seq<char>, Seq<char>)>::empty());
        r
    }

    /// The number of keys.
    pub fn len(&self) -> (r: usize)
        ensures r == self.view().len(),
    {
        self.entries.len()
    }

    /// Sets `key` to `value`, replacing the value the key had.
    pub fn insert(&mut self, key: String, value: String)
        requires old(self).wf(),
        ensures
            final(self).view() == set_entry(old(self).view(), key@, value@),
            final(self).wf(),
    {
        let ghost s = self.view();
        proof {
            lemma_set_entry_unique(s, key@, value@);
        }
        let n = self.entries.len();
        let mut i: usize = 0;
        while i < n
            invariant
                n == self.entries.len(),
                i <= n,
                s == self.view(),
                s == old(self).view(),
                unique_keys(s),
                forall|j: int| 0 <= j < i ==> s[j].0 != key@,
            decreases n - i,
        {
            if self.entries[i].0 == key {
                proof {
                    lemma_key_index_found(s, key@, i as int);
                }
                let k = self.entries[i].0.clone();
                self.entries.set(i, (k, value));
                assert(self.view() =~= s.update(i as int, (key@, value@)));
                return;
            }
            i = i + 1;
        }
        self.entries.push((key, value));
        assert(self.view() =~= s.push((key@, value@)));
    }

    /// The value of `key`, if the key is set.
    pub fn get(&self, key: &str) -> (r: Option<&String>)
        requires self.wf(),
        ensures
            match key_index(self.view(), key@) {
                Some(i) => r matches Some(v) && v@ == self.view()[i].1,
                None => r is None,
            },
    {
        let wanted: String = key.to_owned();
        let n = self.entries.len();
        let mut i: usize = 0;
        while i < n
            invariant
                n == self.entries.len(),
                i <= n,
                wanted@ == key@,
                unique_keys(self.view()),
                forall|j: int| 0 <= j < i ==> self.view()[j].0 != key@,
            decreases n - i,
        {
            if self.entries[i].0 == wanted {
                proof {
                    lemma_key_index_found(self.view(), key@, i as int);
                }
                return Some(&self.entries[i].1);
            }
            i = i + 1;
        }
        None
    }

    /// The entries, in order.
    pub fn entries(&self) -> (r: &Vec<(String, String)>)
        ensures r@.map_values(|e: (String, String)| (e.0@, e.1@)) == self.view(),
    {
        &self.entries
    }
}

} // verus!
