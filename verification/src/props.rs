//! Named own properties of engine objects: a map from (object handle,
//! property name) to value that also remembers the order in which names
//! were first defined.
use crate::jsval::JSVal;
use vstd::prelude::*;

verus! {

/// One defined property.
pub struct PropertyEntry {
    pub obj: u64,
    pub name: String,
    pub value: JSVal,
}

impl PropertyEntry {
    pub open spec fn key(self) -> (u64, Seq<char>) {
        (self.obj, self.name@)
    }
}

/// The names of the entries of `s` that belong to `obj`, in order.
pub open spec fn names_in(s: Seq<PropertyEntry>, obj: u64) -> Seq<Seq<char>>
    decreases s.len(),
{
    if s.len() == 0 {
        Seq::empty()
    } else if s.last().obj == obj {
        names_in(s.drop_last(), obj).push(s.last().name@)
    } else {
        names_in(s.drop_last(), obj)
    }
}

/// Entries that agree on object and name list the same names.
proof fn lemma_names_in_eq(s: Seq<PropertyEntry>, t: Seq<PropertyEntry>, o: u64)
    requires
        s.len() == t.len(),
        forall|k: int| 0 <= k < s.len() ==> (#[trigger] s[k]).obj == t[k].obj && s[k].name@ == t[k].name@,
    ensures
        names_in(s, o) == names_in(t, o),
    decreases s.len(),
{
    if s.len() > 0 {
        lemma_names_in_eq(s.drop_last(), t.drop_last(), o);
    }
}

/// A name is listed for `obj` exactly when some entry of `obj` carries it.
proof fn lemma_names_in_contains(s: Seq<PropertyEntry>, obj: u64, n: Seq<char>)
    ensures
        names_in(s, obj).contains(n) <==> exists|i: int|
            0 <= i < s.len() && s[i].obj == obj && s[i].name@ == n,
    decreases s.len(),
{
    if s.len() > 0 {
        let t = s.drop_last();
        lemma_names_in_contains(t, obj, n);
        if names_in(s, obj).contains(n) {
            if s.last().obj == obj && s.last().name@ == n {
                assert(s[s.len() - 1].obj == obj);
            } else {
                if s.last().obj == obj {
                    let k = choose|k: int| 0 <= k < names_in(s, obj).len() && names_in(s, obj)[k] == n;
                    assert(names_in(t, obj)[k] == n);
                }
                assert(names_in(t, obj).contains(n));
                let i = choose|i: int| 0 <= i < t.len() && t[i].obj == obj && t[i].name@ == n;
                assert(s[i] == t[i]);
            }
        }
        if exists|i: int| 0 <= i < s.len() && s[i].obj == obj && s[i].name@ == n {
            let i = choose|i: int| 0 <= i < s.len() && s[i].obj == obj && s[i].name@ == n;
            if i == s.len() - 1 {
                assert(names_in(s, obj).last() == n);
            } else {
                assert(t[i] == s[i]);
                assert(names_in(t, obj).contains(n));
                let k = choose|k: int| 0 <= k < names_in(t, obj).len() && names_in(t, obj)[k] == n;
                if s.last().obj == obj {
                    assert(names_in(s, obj)[k] == n);
                }
            }
        }
    }
}

/// When no two entries share object and name, no name is listed twice.
proof fn lemma_names_in_no_duplicates(s: Seq<PropertyEntry>, obj: u64)
    requires
        forall|i: int, j: int| 0 <= i < j < s.len() ==> s[i].key() != s[j].key(),
    ensures
        names_in(s, obj).no_duplicates(),
    decreases s.len(),
{
    if s.len() > 0 {
        let t = s.drop_last();
        assert forall|i: int, j: int| 0 <= i < j < t.len() implies t[i].key() != t[j].key() by {
            assert(s[i] == t[i] && s[j] == t[j]);
        }
        lemma_names_in_no_duplicates(t, obj);
        if s.last().obj == obj {
            lemma_names_in_contains(t, obj, s.last().name@);
            if names_in(t, obj).contains(s.last().name@) {
                let i = choose|i: int| 0 <= i < t.len() && t[i].obj == obj && t[i].name@ == s.last().name@;
                assert(s[i].key() == s[s.len() - 1].key());
            }
            let r = names_in(s, obj);
            assert forall|a: int, b: int| 0 <= a < r.len() && 0 <= b < r.len() && a != b implies r[a] != r[b] by {
                if b == r.len() - 1 {
                    assert(names_in(t, obj)[a] == r[a]);
                } else if a == r.len() - 1 {
                    assert(names_in(t, obj)[b] == r[b]);
                } else {
                    assert(names_in(t, obj)[a] == r[a] && names_in(t, obj)[b] == r[b]);
                }
            }
        }
    }
}

/// The properties of all objects.
pub struct PropertyMap {
    entries: Vec<PropertyEntry>,
    contents: Ghost<Map<(u64, Seq<char>), JSVal>>,
}

impl PropertyMap {
    /// The properties as a map from (object, name) to value.
    pub closed spec fn view(&self) -> Map<(u64, Seq<char>), JSVal> {
        self.contents@
    }

    /// The names of `obj`'s properties, in the order they were first defined.
    pub closed spec fn names_of(&self, obj: u64) -> Seq<Seq<char>> {
        names_in(self.entries@, obj)
    }

    pub closed spec fn wf(&self) -> bool {
        &&& forall|i: int|
            0 <= i < self.entries@.len() ==> #[trigger] self.contents@.contains_key(
                self.entries@[i].key(),
            ) && self.contents@[self.entries@[i].key()] == self.entries@[i].value
        &&& forall|k: (u64, Seq<char>)|
            #[trigger] self.contents@.contains_key(k) ==> exists|i: int|
                0 <= i < self.entries@.len() && self.entries@[i].key() == k
        &&& forall|i: int, j: int|
            0 <= i < j < self.entries@.len() ==> self.entries@[i].key() != self.entries@[j].key()
    }

    pub fn new() -> (m: PropertyMap)
        ensures
            m.wf(),
            m@ == Map::<(u64, Seq<char>), JSVal>::empty(),
            forall|o: u64| m.names_of(o) == Seq::<Seq<char>>::empty(),
    {
        let m = PropertyMap { entries: Vec::new(), contents: Ghost(Map::empty()) };
        assert forall|o: u64| m.names_of(o) == Seq::<Seq<char>>::empty() by {
            assert(m.entries@.filter(|e: PropertyEntry| e.obj == o) =~= Seq::<PropertyEntry>::empty());
        }
        m
    }

    /// The position of the entry for (`obj`, `name`), if there is one.
    fn find(&self, obj: u64, name: &String) -> (r: Option<usize>)
        requires
            self.wf(),
        ensures
            match r {
                Some(i) => i < self.entries@.len() && self.entries@[i as int].key() == (obj, name@)
                    && self@.contains_key((obj, name@)),
                None => !self@.contains_key((obj, name@)),
            },
    {
        let mut i: usize = 0;
        while i < self.entries.len()
            invariant
                self.wf(),
                i <= self.entries@.len(),
                forall|j: int| 0 <= j < i ==> self.entries@[j].key() != (obj, name@),
            decreases self.entries@.len() - i,
        {
            if self.entries[i].obj == obj && self.entries[i].name == *name {
                assert(self.contents@.contains_key(self.entries@[i as int].key()));
                return Some(i);
            }
            i = i + 1;
        }
        proof {
            if self.contents@.contains_key((obj, name@)) {
                let j = choose|j: int|
                    0 <= j < self.entries@.len() && self.entries@[j].key() == (obj, name@);
                assert(false);
            }
        }
        None
    }

    /// The value of `obj`'s property `name`, if it is defined.
    pub fn get(&self, obj: u64, name: &String) -> (r: Option<JSVal>)
        requires
            self.wf(),
        ensures
            r == (if self@.contains_key((obj, name@)) {
                Some(self@[(obj, name@)])
            } else {
                None
            }),
    {
        match self.find(obj, name) {
            Some(i) => Some(self.entries[i].value),
            None => None,
        }
    }

    /// Whether `obj` has a property `name`.
    pub fn contains(&self, obj: u64, name: &String) -> (b: bool)
        requires
            self.wf(),
        ensures
            b == self@.contains_key((obj, name@)),
    {
        self.find(obj, name).is_some()
    }

    /// Defines or overwrites `obj`'s property `name`.
    pub fn set(&mut self, obj: u64, name: String, value: JSVal)
        requires
            old(self).wf(),
        ensures
            final(self).wf(),
            final(self)@ == old(self)@.insert((obj, name@), value),
            forall|o: u64|
                #[trigger] final(self).names_of(o) == if o == obj && !old(self)@.contains_key(
                    (obj, name@),
                ) {
                    old(self).names_of(o).push(name@)
                } else {
                    old(self).names_of(o)
                },
    {
        let ghost key = (obj, name@);
        match self.find(obj, &name) {
            Some(i) => {
                let ghost old_entries = self.entries@;
                let ghost old_map = self.contents@;
                let entry = PropertyEntry { obj, name, value };
                self.entries.set(i, entry);
                proof {
                    let new_map = old_map.insert(key, value);
                    self.contents@ = new_map;
                    assert(old_entries[i as int].key() == key);
                    assert forall|j: int| 0 <= j < self.entries@.len() implies
                        #[trigger] new_map.contains_key(self.entries@[j].key())
                        && new_map[self.entries@[j].key()] == self.entries@[j].value by {
                        if j != i {
                            assert(old_map.contains_key(old_entries[j].key()));
                            if j < i {
                                assert(old_entries[j].key() != old_entries[i as int].key());
                            } else {
                                assert(old_entries[i as int].key() != old_entries[j].key());
                            }
                        }
                    }
                    assert forall|j: int, l: int| 0 <= j < l < self.entries@.len() implies
                        self.entries@[j].key() != self.entries@[l].key() by {
                        assert(old_entries[j].key() != old_entries[l].key());
                    }
                    assert forall|o: u64| #[trigger] self.names_of(o) == old(self).names_of(o) by {
                        lemma_names_in_eq(self.entries@, old_entries, o);
                    }
                    assert forall|k: (u64, Seq<char>)|
                        #[trigger] new_map.contains_key(k) implies exists|j: int|
                            0 <= j < self.entries@.len() && self.entries@[j].key() == k by {
                        if k != key {
                            assert(old_map.contains_key(k));
                            let j = choose|j: int|
                                0 <= j < old_entries.len() && old_entries[j].key() == k;
                            assert(self.entries@[j].key() == k);
                        } else {
                            assert(self.entries@[i as int].key() == k);
                        }
                    }
                }
            },
            None => {
                let ghost old_entries = self.entries@;
                let ghost old_map = self.contents@;
                let entry = PropertyEntry { obj, name, value };
                self.entries.push(entry);
                proof {
                    let new_map = old_map.insert(key, value);
                    self.contents@ = new_map;
                    let n = old_entries.len() as int;
                    assert(self.entries@.drop_last() =~= old_entries);
                    assert(self.entries@[n].key() == key);
                    assert forall|j: int| 0 <= j < self.entries@.len() implies
                        #[trigger] new_map.contains_key(self.entries@[j].key())
                        && new_map[self.entries@[j].key()] == self.entries@[j].value by {
                        if j != n {
                            assert(old_map.contains_key(old_entries[j].key()));
                            assert(old_entries[j].key() != key);
                        }
                    }
                    assert forall|j: int, l: int| 0 <= j < l < self.entries@.len() implies
                        self.entries@[j].key() != self.entries@[l].key() by {
                        if l == n {
                            assert(old_map.contains_key(old_entries[j].key()));
                        } else {
                            assert(old_entries[j].key() != old_entries[l].key());
                        }
                    }
                    assert forall|o: u64|
                        #[trigger] self.names_of(o) == if o == obj {
                            old(self).names_of(o).push(name@)
                        } else {
                            old(self).names_of(o)
                        } by {
                        assert(self.entries@.last().obj == obj);
                    }
                    assert forall|k: (u64, Seq<char>)|
                        #[trigger] new_map.contains_key(k) implies exists|j: int|
                            0 <= j < self.entries@.len() && self.entries@[j].key() == k by {
                        if k != key {
                            assert(old_map.contains_key(k));
                            let j = choose|j: int|
                                0 <= j < old_entries.len() && old_entries[j].key() == k;
                            assert(self.entries@[j].key() == k);
                        } else {
                            assert(self.entries@[n].key() == k);
                        }
                    }
                }
            },
        }
    }

    /// Every defined property of `obj` is listed by `names_of` exactly once,
    /// and nothing else is listed.
    pub proof fn law_property_names_listed_once(&self, obj: u64)
        requires
            self.wf(),
        ensures
            self.names_of(obj).no_duplicates(),
            forall|n: Seq<char>|
                #[trigger] self.names_of(obj).contains(n) <==> self@.contains_key((obj, n)),
    {
        lemma_names_in_no_duplicates(self.entries@, obj);
        assert forall|n: Seq<char>|
            #[trigger] self.names_of(obj).contains(n) <==> self@.contains_key((obj, n)) by {
            lemma_names_in_contains(self.entries@, obj, n);
            if self@.contains_key((obj, n)) {
                let i = choose|i: int| 0 <= i < self.entries@.len() && self.entries@[i].key() == (obj, n);
                assert(self.entries@[i].obj == obj && self.entries@[i].name@ == n);
            }
            if self.names_of(obj).contains(n) {
                let i = choose|i: int|
                    0 <= i < self.entries@.len() && self.entries@[i].obj == obj && self.entries@[i].name@ == n;
                assert(self.contents@.contains_key(self.entries@[i].key()));
            }
        }
    }

    /// The names of `obj`'s properties, in the order they were first defined.
    pub fn names(&self, obj: u64) -> (v: Vec<String>)
        requires
            self.wf(),
        ensures
            v@.map_values(|s: String| s@) == self.names_of(obj),
    {
        let mut v: Vec<String> = Vec::new();
        let mut i: usize = 0;
        while i < self.entries.len()
            invariant
                i <= self.entries@.len(),
                v@.map_values(|s: String| s@) == names_in(self.entries@.subrange(0, i as int), obj),
            decreases self.entries@.len() - i,
        {
            let ghost pre = self.entries@.subrange(0, i as int);
            let ghost post = self.entries@.subrange(0, i + 1);
            assert(post.drop_last() =~= pre);
            assert(post.last() == self.entries@[i as int]);
            if self.entries[i].obj == obj {
                v.push(self.entries[i].name.clone());
                assert(v@.map_values(|s: String| s@) =~= names_in(pre, obj).push(self.entries@[i as int].name@));
            }
            i = i + 1;
        }
        assert(self.entries@.subrange(0, i as int) =~= self.entries@);
        v
    }
}

} // verus!
