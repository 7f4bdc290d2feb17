//! The `Record` (open-ended dictionary) type: string keys mapped to values
//! in the order they were first inserted, held in an `indexmap::IndexMap`.
//!
//! What the map holds is named by `index_map_entries`: its key-value pairs
//! in order, each key as its text and each value by its bits.
use crate::descriptor::{PropertyDescriptor, JSPROP_ENUMERATE};
use crate::jsval::{jsid, object_value, JSVal};
use crate::v8_glue::{
    after_store_strings, get_property_by_jsid, get_property_descriptor_by_jsid, get_property_keys,
    id_name, js_new_object, key_ids, listed_indices, property_name_from_jsid, value_by_id,
    after_store_object, GlueModel, GlueState,
};
use indexmap::IndexMap;
use vstd::prelude::*;

verus! {

#[verifier::external_type_specification]
#[verifier::external_body]
#[verifier::reject_recursive_types(K)]
#[verifier::reject_recursive_types(V)]
#[verifier::reject_recursive_types(S)]
pub struct ExIndexMap<K, V, S>(IndexMap<K, V, S>);

/// The key-value pairs of `m`, in the map's order.
pub uninterp spec fn index_map_entries(m: IndexMap<String, JSVal>) -> Seq<(Seq<char>, u64)>;

/// The position of the first pair with key `k` in `entries`, if any.
pub open spec fn entry_position(entries: Seq<(Seq<char>, u64)>, k: Seq<char>) -> Option<int>
    decreases entries.len(),
{
    if entries.len() == 0 {
        None
    } else if entries[0].0 == k {
        Some(0)
    } else {
        match entry_position(entries.drop_first(), k) {
            Some(i) => Some(i + 1),
            None => None,
        }
    }
}

/// `entries` after inserting `k` with value `v`: a present key keeps its
/// place and takes the new value; a new key goes last.
pub open spec fn entries_insert(entries: Seq<(Seq<char>, u64)>, k: Seq<char>, v: u64) -> Seq<
    (Seq<char>, u64),
> {
    match entry_position(entries, k) {
        Some(i) => entries.update(i, (k, v)),
        None => entries.push((k, v)),
    }
}

/// `IndexMap::new`: a map with no pairs.
#[verifier::external_body]
fn new_index_map() -> (m: IndexMap<String, JSVal>)
    ensures
        index_map_entries(m) == Seq::<(Seq<char>, u64)>::empty(),
{
    IndexMap::new()
}

/// `IndexMap::insert`: an existing key keeps its place in the order and
/// takes the new value; a new key is appended last.
#[verifier::external_body]
fn index_map_insert(m: &mut IndexMap<String, JSVal>, key: String, value: JSVal)
    ensures
        index_map_entries(*final(m)) == entries_insert(
            index_map_entries(*old(m)),
            key@,
            value.asBits_,
        ),
{
    m.insert(key, value);
}

/// `IndexMap::len`: the number of pairs.
#[verifier::external_body]
fn index_map_len(m: &IndexMap<String, JSVal>) -> (n: usize)
    ensures
        n == index_map_entries(*m).len(),
{
    m.len()
}

/// `IndexMap::get_index`: the pair at position `i`, copied out, or `None`
/// past the end.
#[verifier::external_body]
fn index_map_get_index(m: &IndexMap<String, JSVal>, i: usize) -> (r: Option<(String, JSVal)>)
    ensures
        match r {
            Some(kv) => i < index_map_entries(*m).len() && kv.0@ == index_map_entries(*m)[i as int].0
                && kv.1.asBits_ == index_map_entries(*m)[i as int].1,
            None => i >= index_map_entries(*m).len(),
        },
{
    match m.get_index(i) {
        Some((k, v)) => Some((k.clone(), *v)),
        None => None,
    }
}

/// `IndexMap::get`: the value stored under `key`, copied out.
#[verifier::external_body]
fn index_map_get(m: &IndexMap<String, JSVal>, key: &str) -> (r: Option<JSVal>)
    ensures
        match entry_position(index_map_entries(*m), key@) {
            Some(i) => r == Some(JSVal { asBits_: index_map_entries(*m)[i].1 }),
            None => r is None,
        },
{
    match m.get(key) {
        Some(v) => Some(*v),
        None => None,
    }
}

/// The outcome of converting a JS value: the converted value, or a message
/// saying why the value does not convert.
pub enum ConversionResult<T> {
    Success(T),
    Failure(String),
}

impl<T> ConversionResult<T> {
    /// The converted value, if the conversion succeeded.
    pub fn get_success_value(self) -> (r: Option<T>)
        ensures
            r == match self {
                ConversionResult::Success(v) => Some(v),
                ConversionResult::Failure(_) => None,
            },
    {
        match self {
            ConversionResult::Success(v) => Some(v),
            ConversionResult::Failure(_) => None,
        }
    }
}

/// An open-ended dictionary from string keys to JS values, keeping the
/// order in which keys were first inserted.  Keys are the text of property
/// ids (as a `DOMString` key reads them); records keyed by byte strings or
/// by Unicode scalar-value strings, and values other than raw JS values,
/// are not provided.
pub struct Record {
    map: IndexMap<String, JSVal>,
}

impl View for Record {
    type V = Seq<(Seq<char>, u64)>;

    /// The record's key-value pairs in order, each value by its bits.
    closed spec fn view(&self) -> Seq<(Seq<char>, u64)> {
        index_map_entries(self.map)
    }
}

impl Record {
    /// An empty record.
    pub fn new() -> (r: Record)
        ensures
            r@ == Seq::<(Seq<char>, u64)>::empty(),
    {
        Record { map: new_index_map() }
    }

    /// The number of entries.
    pub fn len(&self) -> (n: usize)
        ensures
            n == self@.len(),
    {
        index_map_len(&self.map)
    }

    /// The entry at position `i`, or `None` past the end.
    pub fn get_index(&self, i: usize) -> (r: Option<(String, JSVal)>)
        ensures
            match r {
                Some(kv) => i < self@.len() && kv.0@ == self@[i as int].0 && kv.1.asBits_
                    == self@[i as int].1,
                None => i >= self@.len(),
            },
    {
        index_map_get_index(&self.map, i)
    }

    /// The value stored under `key`.
    pub fn get(&self, key: &str) -> (r: Option<JSVal>)
        ensures
            match entry_position(self@, key@) {
                Some(i) => r == Some(JSVal { asBits_: self@[i].1 }),
                None => r is None,
            },
    {
        index_map_get(&self.map, key)
    }

    /// Stores `value` under `key`: a present key keeps its place.
    pub fn insert(&mut self, key: String, value: JSVal)
        ensures
            final(self)@ == entries_insert(old(self)@, key@, value.asBits_),
    {
        index_map_insert(&mut self.map, key, value);
    }
}

impl Record {
    /// Writes the record into `rval` as a new plain object.  The engine
    /// glue cannot define a property by a UTF-16 name (that call always
    /// fails, and the conversion gives up on the first entry), so only an
    /// empty record converts.
    pub fn safe_to_jsval(&self, state: &mut GlueState, rval: &mut JSVal)
        requires
            old(state).wf(),
            old(state).can_allocate(1),
            old(state)@.global_id is Some,
            self@.len() == 0,
        ensures
            final(state).wf(),
            final(state)@ == after_store_object(old(state)@, old(state)@.next_handle),
            *final(rval) == object_value(old(state)@.next_handle),
    {
        let js_object = js_new_object(state);
        *rval = JSVal::from_object(js_object);
    }
}

impl Default for Record {
    fn default() -> (r: Record)
        ensures
            r@ == Seq::<(Seq<char>, u64)>::empty(),
    {
        Record::new()
    }
}

/// The message for a value that is not an object.
pub open spec fn not_an_object_message() -> Seq<char> {
    "Record value was not an object"@
}

/// The message for a key that is not a string.
pub open spec fn key_failure_message() -> Seq<char> {
    "Failed to get DOMString"@
}

/// The entries a record read from `obj` through the keys `ids` holds: each
/// key that names a value of `obj` (an enumerable own property) is inserted
/// under its text with that value.  `None` when such a key has no text.
pub open spec fn record_entries_of(m: GlueModel, obj: u64, ids: Seq<jsid>) -> Option<
    Seq<(Seq<char>, u64)>,
>
    decreases ids.len(),
{
    if ids.len() == 0 {
        Some(Seq::empty())
    } else {
        match record_entries_of(m, obj, ids.drop_last()) {
            None => None,
            Some(es) => match value_by_id(m, obj, ids.last()) {
                None => Some(es),
                Some(v) => match id_name(m, ids.last()) {
                    None => None,
                    Some(k) => Some(entries_insert(es, k, v.asBits_)),
                },
            },
        }
    }
}

/// The record key a property id stands for: the text of a string id, the
/// decimal text of an integer id; other ids do not convert.
pub fn dom_string_from_id(state: &GlueState, id: jsid) -> (r: ConversionResult<String>)
    ensures
        match id_name(state@, id) {
            Some(n) => match r {
                ConversionResult::Success(s) => s@ == n,
                ConversionResult::Failure(_) => false,
            },
            None => match r {
                ConversionResult::Success(_) => false,
                ConversionResult::Failure(msg) => msg@ == key_failure_message(),
            },
        },
{
    match property_name_from_jsid(state, id) {
        Some(k) => ConversionResult::Success(k),
        None => ConversionResult::Failure("Failed to get DOMString".to_owned()),
    }
}

proof fn lemma_failure_persists(m: GlueModel, obj: u64, ids: Seq<jsid>, j: int)
    requires
        0 <= j <= ids.len(),
        record_entries_of(m, obj, ids.subrange(0, j)) is None,
    ensures
        record_entries_of(m, obj, ids) is None,
    decreases ids.len() - j,
{
    if j < ids.len() {
        assert(ids.subrange(0, j + 1).drop_last() =~= ids.subrange(0, j));
        lemma_failure_persists(m, obj, ids, j + 1);
    } else {
        assert(ids.subrange(0, j) =~= ids);
    }
}

/// Reads a record from `value`: every enumerable own property of the
/// object, in key order (array indices, then named properties as they
/// were defined), stored under its key's text.  A value that is not an
/// object does not convert; a null object fails.
pub fn safe_from_jsval(state: &mut GlueState, value: JSVal) -> (r: Result<ConversionResult<Record>, ()>)
    requires
        old(state).wf(),
        value.holds_object() && value.object_handle() != 0 ==> old(state)@.global_id is Some && old(
            state,
        ).can_allocate((old(state)@.property_names)(value.object_handle()).len()),
    ensures
        final(state).wf(),
        if !value.holds_object() {
            final(state)@ == old(state)@ && match r {
                Ok(ConversionResult::Failure(msg)) => msg@ == not_an_object_message(),
                _ => false,
            }
        } else if value.object_handle() == 0 {
            final(state)@ == old(state)@ && r is Err
        } else {
            let m0 = old(state)@;
            let obj = value.object_handle();
            let m1 = after_store_strings(m0, m0.next_handle, (m0.property_names)(obj));
            let ids = key_ids(
                listed_indices(m0, obj),
                m0.next_handle,
                (m0.property_names)(obj).len(),
            );
            final(state)@ == m1 && match record_entries_of(m1, obj, ids) {
                Some(es) => match r {
                    Ok(ConversionResult::Success(rec)) => rec@ == es,
                    _ => false,
                },
                None => match r {
                    Ok(ConversionResult::Failure(msg)) => msg@ == key_failure_message(),
                    _ => false,
                },
            }
        },
{
    if !value.is_object() {
        return Ok(ConversionResult::Failure("Record value was not an object".to_owned()));
    }
    let object = value.to_object();
    let mut ids: Vec<jsid> = Vec::new();
    if !get_property_keys(state, object, &mut ids) {
        return Err(());
    }
    let ghost m1 = state@;
    let ghost all = ids@;
    assert(all =~= Seq::<jsid>::empty() + all);
    let mut map = Record::new();
    let mut i: usize = 0;
    assert(all.subrange(0, 0) =~= Seq::<jsid>::empty());
    while i < ids.len()
        invariant
            i <= ids@.len(),
            ids@ == all,
            state.wf(),
            state@ == m1,
            object != 0,
            record_entries_of(m1, object, all.subrange(0, i as int)) == Some(map@),
        decreases ids@.len() - i,
    {
        let id = ids[i];
        assert(all.subrange(0, i + 1).drop_last() =~= all.subrange(0, i as int));
        assert(all.subrange(0, i + 1).last() == id);
        let mut desc = PropertyDescriptor::default();
        let _is_none = get_property_descriptor_by_jsid(state, object, id, &mut desc);
        proof {
            assert(JSPROP_ENUMERATE & JSPROP_ENUMERATE != 0) by (bit_vector);
            assert(0u32 & JSPROP_ENUMERATE == 0) by (bit_vector);
        }
        if desc.enumerable_() {
            let key = match dom_string_from_id(state, id) {
                ConversionResult::Success(k) => k,
                ConversionResult::Failure(message) => {
                    proof {
                        lemma_failure_persists(m1, object, all, i + 1);
                    }
                    return Ok(ConversionResult::Failure(message));
                },
            };
            let property = match get_property_by_jsid(state, object, id) {
                Some(v) => v,
                None => JSVal::undefined(),
            };
            map.insert(key, property);
        }
        i = i + 1;
    }
    assert(all.subrange(0, all.len() as int) =~= all);
    Ok(ConversionResult::Success(map))
}


proof fn lemma_entry_position(entries: Seq<(Seq<char>, u64)>, k: Seq<char>)
    ensures
        match entry_position(entries, k) {
            Some(i) => 0 <= i < entries.len() && entries[i].0 == k && forall|j: int|
                0 <= j < i ==> entries[j].0 != k,
            None => forall|j: int| 0 <= j < entries.len() ==> entries[j].0 != k,
        },
    decreases entries.len(),
{
    if entries.len() > 0 && entries[0].0 != k {
        let rest = entries.drop_first();
        lemma_entry_position(rest, k);
        match entry_position(rest, k) {
            Some(i) => {
                assert forall|j: int| 0 <= j < i + 1 implies entries[j].0 != k by {
                    if j > 0 {
                        assert(entries[j] == rest[j - 1]);
                    }
                }
            },
            None => {
                assert forall|j: int| 0 <= j < entries.len() implies entries[j].0 != k by {
                    if j > 0 {
                        assert(entries[j] == rest[j - 1]);
                    }
                }
            },
        }
    }
}

proof fn lemma_position_at(entries: Seq<(Seq<char>, u64)>, k: Seq<char>, i: int)
    requires
        0 <= i < entries.len(),
        entries[i].0 == k,
        forall|j: int| 0 <= j < i ==> entries[j].0 != k,
    ensures
        entry_position(entries, k) == Some(i),
    decreases i,
{
    if i > 0 {
        let rest = entries.drop_first();
        assert forall|j: int| 0 <= j < i - 1 implies rest[j].0 != k by {
            assert(rest[j] == entries[j + 1]);
        }
        lemma_position_at(rest, k, i - 1);
    }
}

proof fn lemma_no_position(entries: Seq<(Seq<char>, u64)>, k: Seq<char>)
    requires
        forall|j: int| 0 <= j < entries.len() ==> entries[j].0 != k,
    ensures
        entry_position(entries, k) is None,
    decreases entries.len(),
{
    if entries.len() > 0 {
        let rest = entries.drop_first();
        assert forall|j: int| 0 <= j < rest.len() implies rest[j].0 != k by {
            assert(rest[j] == entries[j + 1]);
        }
        lemma_no_position(rest, k);
    }
}

/// After inserting `v` under `k`, a record finds `k` and gives back `v`.
pub proof fn law_record_get_after_insert(entries: Seq<(Seq<char>, u64)>, k: Seq<char>, v: u64)
    ensures
        entry_position(entries_insert(entries, k, v), k) is Some,
        entries_insert(entries, k, v)[entry_position(entries_insert(entries, k, v), k).unwrap()].1
            == v,
{
    lemma_entry_position(entries, k);
    let after = entries_insert(entries, k, v);
    match entry_position(entries, k) {
        Some(i) => {
            assert forall|j: int| 0 <= j < i implies after[j].0 != k by {
                assert(after[j] == entries[j]);
            }
            lemma_position_at(after, k, i);
        },
        None => {
            assert forall|j: int| 0 <= j < entries.len() implies after[j].0 != k by {
                assert(after[j] == entries[j]);
            }
            lemma_position_at(after, k, entries.len() as int);
        },
    }
}

/// Inserting under `k` leaves what a record gives back under any other key
/// `other`, and where it finds it.
pub proof fn law_record_insert_keeps_other_keys(
    entries: Seq<(Seq<char>, u64)>,
    k: Seq<char>,
    v: u64,
    other: Seq<char>,
)
    requires
        other != k,
    ensures
        entry_position(entries_insert(entries, k, v), other) == entry_position(entries, other),
        match entry_position(entries, other) {
            Some(i) => entries_insert(entries, k, v)[i] == entries[i],
            None => true,
        },
{
    lemma_entry_position(entries, k);
    lemma_entry_position(entries, other);
    let after = entries_insert(entries, k, v);
    assert(forall|j: int| 0 <= j < entries.len() && after[j].0 == other ==> after[j] == entries[j]);
    match entry_position(entries, other) {
        Some(i) => {
            assert(after[i] == entries[i]);
            assert forall|j: int| 0 <= j < i implies after[j].0 != other by {
                if after[j].0 == other {
                    assert(after[j] == entries[j]);
                }
            }
            lemma_position_at(after, other, i);
        },
        None => {
            assert forall|j: int| 0 <= j < after.len() implies after[j].0 != other by {
                if j < entries.len() && after[j].0 == other {
                    assert(after[j] == entries[j]);
                }
            }
            lemma_no_position(after, other);
        },
    }
}

} // verus!
