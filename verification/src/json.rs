//! An in-memory JSON document model.
//!
//! [`JsonValue`] is the executable tree; its mathematical image is
//! [`Json`], where objects abstract to a `Map` from key to value and a
//! later entry for a key shadows an earlier one. The object helpers
//! ([`obj_get`], [`obj_insert`]) are specified against that map.

use vstd::prelude::*;

verus! {

/// One JSON value, as the adaptation layer reads and writes it.
///
/// A number that fits `i64` is kept exactly; any other number (too
/// large, or not an integer) is kept as its textual form in
/// [`JsonValue::OtherNum`], so it passes through untouched — no
/// provider shape reads such a number.
#[derive(Debug, PartialEq)]
pub enum JsonValue {
    Null,
    Bool(bool),
    Int(i64),
    OtherNum(String),
    Str(String),
    Arr(Vec<JsonValue>),
    Obj(Vec<(String, JsonValue)>),
}

/// Mathematical image of [`JsonValue`].
pub enum Json {
    Null,
    Bool(bool),
    Int(int),
    OtherNum(Seq<char>),
    Str(Seq<char>),
    Arr(Seq<Json>),
    Obj(Map<Seq<char>, Json>),
}

/// The map an object's entry list denotes: entries are added in order,
/// so a later entry for the same key wins.
pub open spec fn map_of_entries(s: Seq<(String, JsonValue)>) -> Map<Seq<char>, Json>
    decreases s,
{
    if s.len() == 0 {
        Map::empty()
    } else {
        map_of_entries(s.drop_last()).insert(s.last().0@, s.last().1.spec_view())
    }
}

/// The sequence of images of a list of values, in order.
pub open spec fn seq_of_items(s: Seq<JsonValue>) -> Seq<Json>
    decreases s,
{
    if s.len() == 0 {
        Seq::empty()
    } else {
        seq_of_items(s.drop_last()).push(s.last().spec_view())
    }
}

impl JsonValue {
    pub open spec fn spec_view(self) -> Json
        decreases self,
    {
        match self {
            JsonValue::Null => Json::Null,
            JsonValue::Bool(b) => Json::Bool(b),
            JsonValue::Int(i) => Json::Int(i as int),
            JsonValue::OtherNum(t) => Json::OtherNum(t@),
            JsonValue::Str(s) => Json::Str(s@),
            JsonValue::Arr(items) => Json::Arr(seq_of_items(items@)),
            JsonValue::Obj(entries) => Json::Obj(map_of_entries(entries@)),
        }
    }
}

/// [`seq_of_items`] maps each element to its image, preserving length
/// and order.
pub broadcast proof fn lemma_seq_of_items(s: Seq<JsonValue>)
    ensures
        (#[trigger] seq_of_items(s)).len() == s.len(),
        forall|i: int| 0 <= i < s.len() ==> seq_of_items(s)[i] == s[i].spec_view(),
    decreases s,
{
    if s.len() > 0 {
        lemma_seq_of_items(s.drop_last());
    }
}

impl View for JsonValue {
    type V = Json;

    open spec fn view(&self) -> Json {
        self.spec_view()
    }
}

/// What looking a key up in a JSON value yields: the object's entry at
/// that key, or nothing when the value is no object or lacks the key.
pub open spec fn jget(j: Json, k: Seq<char>) -> Option<Json> {
    if j is Obj && j->Obj_0.contains_key(k) {
        Some(j->Obj_0[k])
    } else {
        None
    }
}

/// Appending an entry updates the entry list's map at that entry's key.
pub broadcast proof fn lemma_map_of_entries_push(s: Seq<(String, JsonValue)>, e: (String, JsonValue))
    ensures
        #[trigger] map_of_entries(s.push(e)) == map_of_entries(s).insert(e.0@, e.1.spec_view()),
{
    assert(s.push(e).drop_last() =~= s);
    assert(s.push(e).last() == e);
}

/// A key that no entry of `s` carries is absent from the entry list's map.
pub proof fn lemma_map_of_entries_absent(s: Seq<(String, JsonValue)>, k: Seq<char>)
    requires
        forall|j: int| 0 <= j < s.len() ==> s[j].0@ != k,
    ensures
        !map_of_entries(s).contains_key(k),
    decreases s,
{
    if s.len() > 0 {
        lemma_map_of_entries_absent(s.drop_last(), k);
    }
}

/// The last entry of `s` that carries a key decides the entry list's
/// map at that key.
pub proof fn lemma_map_of_entries_last_wins(s: Seq<(String, JsonValue)>, i: int)
    requires
        0 <= i < s.len(),
        forall|j: int| i < j < s.len() ==> s[j].0@ != s[i].0@,
    ensures
        map_of_entries(s).contains_key(s[i].0@),
        map_of_entries(s)[s[i].0@] == s[i].1.spec_view(),
    decreases s,
{
    if i < s.len() - 1 {
        lemma_map_of_entries_last_wins(s.drop_last(), i);
    }
}

/// Removing one entry leaves the entry list's map unchanged at every
/// other key.
pub proof fn lemma_map_of_entries_remove(s: Seq<(String, JsonValue)>, i: int, k: Seq<char>)
    requires
        0 <= i < s.len(),
        k != s[i].0@,
    ensures
        map_of_entries(s.remove(i)).contains_key(k) == map_of_entries(s).contains_key(k),
        map_of_entries(s).contains_key(k) ==> map_of_entries(s.remove(i))[k] == map_of_entries(
            s,
        )[k],
    decreases s,
{
    if i == s.len() - 1 {
        assert(s.remove(i) =~= s.drop_last());
    } else {
        lemma_map_of_entries_remove(s.drop_last(), i, k);
        assert(s.remove(i).drop_last() =~= s.drop_last().remove(i));
        assert(s.remove(i).last() == s.last());
    }
}

/// The position of the last entry that carries `key`, if any.
pub fn entries_find_last(entries: &Vec<(String, JsonValue)>, key: &str) -> (r: Option<usize>)
    ensures
        match r {
            Some(i) => i < entries@.len() && entries@[i as int].0@ == key@
                && map_of_entries(entries@).contains_key(key@) && map_of_entries(entries@)[key@]
                == entries@[i as int].1.spec_view(),
            None => !map_of_entries(entries@).contains_key(key@),
        },
{
    let k: String = key.to_owned();
    let mut i: usize = entries.len();
    while i > 0
        invariant
            i <= entries@.len(),
            k@ == key@,
            forall|j: int| i <= j < entries@.len() ==> entries@[j].0@ != key@,
        decreases i,
    {
        i = i - 1;
        if entries[i].0 == k {
            proof {
                lemma_map_of_entries_last_wins(entries@, i as int);
            }
            return Some(i);
        }
    }
    proof {
        lemma_map_of_entries_absent(entries@, key@);
    }
    None
}

/// The value the entry list's map carries at `key`, if any.
pub fn entries_get<'a>(entries: &'a Vec<(String, JsonValue)>, key: &str) -> (r: Option<
    &'a JsonValue,
>)
    ensures
        match r {
            Some(v) => map_of_entries(entries@).contains_key(key@) && v.spec_view()
                == map_of_entries(entries@)[key@],
            None => !map_of_entries(entries@).contains_key(key@),
        },
{
    match entries_find_last(entries, key) {
        Some(i) => Some(&entries[i].1),
        None => None,
    }
}

} // verus!
