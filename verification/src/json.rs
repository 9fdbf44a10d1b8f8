pub mod backend;

use backend::array_value;
use backend::bool_value;
use backend::distinct_keys;
use backend::json_model;
use backend::json_parse;
use backend::json_text;
use backend::null_value;
use backend::object_value;
use backend::open;
use backend::opened_members;
use backend::owned_members;
use backend::parse_value;
use backend::render_value;
use backend::signed_value;
use backend::text_value;
use backend::unsigned_value;
use backend::Opened;
use serde_json::Value;
use vstd::prelude::*;

verus! {

/// A JSON document as a mathematical value.
///
/// Integers are unbounded here; objects are finite maps from keys to
/// documents, so the order in which an object's members were written is not
/// part of the document.  A number that is not an integer is identified by
/// its canonical decimal text.
pub enum JsonValue {
    Null,
    Bool(bool),
    /// A number written without fraction or exponent.
    Integer(int),
    /// Any other number, by the text that `serde_json` writes for it.
    Real(Seq<char>),
    Text(Seq<char>),
    Array(Seq<JsonValue>),
    Object(Map<Seq<char>, JsonValue>),
}

/// A JSON document held in memory.
///
/// An object is kept as the list of its members.  Where a key occurs more
/// than once in that list, its first entry counts.
#[derive(Debug, PartialEq, Eq)]
pub enum Json {
    Null,
    Bool(bool),
    /// An integer from zero to `u64::MAX`.  `parse` gives every such
    /// integer in this form.
    Unsigned(u64),
    /// An integer that fits an `i64`.  `parse` gives the negative ones in
    /// this form.
    Signed(i64),
    /// A number that is not an integer, or does not fit either integer
    /// form, by its canonical decimal text.
    Real(String),
    Text(String),
    Array(Vec<Json>),
    Object(Vec<(String, Json)>),
}

/// The map that a list of members denotes: of several entries with one key
/// the first counts.
pub open spec fn members_map(entries: Seq<(Seq<char>, JsonValue)>) -> Map<Seq<char>, JsonValue>
    decreases entries.len(),
{
    if entries.len() == 0 {
        Map::empty()
    } else {
        let rest = members_map(entries.drop_last());
        let (key, value) = entries.last();
        if rest.contains_key(key) {
            rest
        } else {
            rest.insert(key, value)
        }
    }
}

/// The documents of a list of items.
pub open spec fn items_view(items: Seq<Json>) -> Seq<JsonValue>
    decreases items,
{
    Seq::new(
        items.len(),
        |i: int|
            if 0 <= i < items.len() {
                items[i].view()
            } else {
                JsonValue::Null
            },
    )
}

/// The members of a list of entries, as key and document.
pub open spec fn entries_view(entries: Seq<(String, Json)>) -> Seq<(Seq<char>, JsonValue)>
    decreases entries,
{
    Seq::new(
        entries.len(),
        |i: int|
            if 0 <= i < entries.len() {
                (entries[i].0@, entries[i].1.view())
            } else {
                (Seq::empty(), JsonValue::Null)
            },
    )
}

impl View for Json {
    type V = JsonValue;

    open spec fn view(&self) -> JsonValue
        decreases self,
    {
        match self {
            Json::Null => JsonValue::Null,
            Json::Bool(b) => JsonValue::Bool(*b),
            Json::Unsigned(n) => JsonValue::Integer(*n as int),
            Json::Signed(n) => JsonValue::Integer(*n as int),
            Json::Real(t) => JsonValue::Real(t@),
            Json::Text(t) => JsonValue::Text(t@),
            Json::Array(items) => JsonValue::Array(items_view(items@)),
            Json::Object(entries) => JsonValue::Object(members_map(entries_view(entries@))),
        }
    }
}

impl DeepView for Json {
    type V = JsonValue;

    open spec fn deep_view(&self) -> JsonValue {
        self@
    }
}

/// The member of an object under a key, if `doc` is an object and has one.
pub open spec fn member(doc: JsonValue, key: Seq<char>) -> Option<JsonValue> {
    match doc {
        JsonValue::Object(members) => if members.contains_key(key) {
            Some(members[key])
        } else {
            None
        },
        _ => None,
    }
}

/// Whether entry `i` is the first entry of the list with the key.
pub open spec fn first_with_key(entries: Seq<(Seq<char>, JsonValue)>, key: Seq<char>, i: int) -> bool {
    &&& 0 <= i < entries.len()
    &&& entries[i].0 == key
    &&& forall|j: int| 0 <= j < i ==> entries[j].0 != key
}

/// A key is in the map of a list of members exactly when some entry has it,
/// and the map gives it the value of the first such entry.
pub proof fn lemma_members_map(entries: Seq<(Seq<char>, JsonValue)>, key: Seq<char>)
    ensures
        members_map(entries).contains_key(key) <==> exists|i: int|
            0 <= i < entries.len() && entries[i].0 == key,
        forall|i: int| first_with_key(entries, key, i) ==> members_map(entries)[key] == entries[i].1,
    decreases entries.len(),
{
    if entries.len() > 0 {
        let rest = entries.drop_last();
        let last = entries.len() - 1;
        lemma_members_map(rest, key);
        assert(forall|i: int| 0 <= i < rest.len() ==> rest[i] == entries[i]);
        if members_map(rest).contains_key(key) {
            let w = choose|i: int| 0 <= i < rest.len() && rest[i].0 == key;
            assert(entries[w].0 == key);
            assert forall|i: int| first_with_key(entries, key, i) implies members_map(entries)[key]
                == entries[i].1 by {
                if i == last {
                    assert(entries[w].0 != key);
                }
                assert(first_with_key(rest, key, i));
            }
        } else {
            if entries[last].0 == key {
                assert forall|i: int| first_with_key(entries, key, i) implies members_map(
                    entries,
                )[key] == entries[i].1 by {
                    if i < last {
                        assert(rest[i].0 == key);
                    }
                }
            } else {
                assert forall|i: int| 0 <= i < entries.len() implies entries[i].0 != key by {
                    if i < last {
                        assert(rest[i].0 == entries[i].0);
                    }
                }
            }
        }
    }
}

/// Adding an entry at the end adds its key to the map, unless an earlier
/// entry has the key already.
pub proof fn lemma_members_push(entries: Seq<(Seq<char>, JsonValue)>, key: Seq<char>, value: JsonValue)
    ensures
        members_map(entries.push((key, value))) == if members_map(entries).contains_key(key) {
            members_map(entries)
        } else {
            members_map(entries).insert(key, value)
        },
{
    assert(entries.push((key, value)).drop_last() =~= entries);
}

/// The map of a list of members has finitely many keys.
pub proof fn lemma_members_map_finite(entries: Seq<(Seq<char>, JsonValue)>)
    ensures
        members_map(entries).dom().finite(),
    decreases entries.len(),
{
    if entries.len() > 0 {
        lemma_members_map_finite(entries.drop_last());
    }
}

/// Copies a `serde_json::Value` into a document of this library.
fn from_value(v: &Value) -> (r: Json)
    ensures
        r@ == json_model(*v),
    decreases json_model(*v),
{
    match open(v) {
        Opened::Null => Json::Null,
        Opened::Bool(b) => Json::Bool(b),
        Opened::Number => match v.as_u64() {
            Some(n) => Json::Unsigned(n),
            None => match v.as_i64() {
                Some(n) => Json::Signed(n),
                None => Json::Real(render_value(v)),
            },
        },
        Opened::Text(s) => Json::Text(s.clone()),
        Opened::Array(items) => {
            let ghost models = Seq::new(items@.len(), |i: int| json_model(items@[i]));
            let mut out: Vec<Json> = Vec::new();
            let mut i: usize = 0;
            while i < items.len()
                invariant
                    i <= items.len(),
                    out.len() == i,
                    json_model(*v) == JsonValue::Array(models),
                    models == Seq::new(items@.len(), |i: int| json_model(items@[i])),
                    forall|j: int| 0 <= j < i ==> out@[j]@ == json_model(items@[j]),
                decreases items.len() - i,
            {
                proof {
                    let doc = json_model(*v);
                    assert(models[i as int] == json_model(items@[i as int]));
                    assert(decreases_to!(doc => doc->Array_0));
                    assert(decreases_to!(models => models[i as int]));
                }
                let item = from_value(&items[i]);
                out.push(item);
                i += 1;
            }
            proof {
                assert(items_view(out@) =~= models);
            }
            Json::Array(out)
        },
        Opened::Object(entries) => {
            let ghost members = opened_members(entries@);
            let mut out: Vec<(String, Json)> = Vec::new();
            let mut i: usize = 0;
            while i < entries.len()
                invariant
                    i <= entries.len(),
                    out.len() == i,
                    json_model(*v) == JsonValue::Object(members_map(members)),
                    members == opened_members(entries@),
                    distinct_keys(members),
                    forall|j: int| 0 <= j < i ==> entries_view(out@)[j] == members[j],
                decreases entries.len() - i,
            {
                let (key, value) = entries[i];
                proof {
                    let doc = json_model(*v);
                    let map = members_map(members);
                    let k = members[i as int].0;
                    lemma_members_map(members, k);
                    lemma_members_map_finite(members);
                    assert(first_with_key(members, k, i as int));
                    assert(map[k] == json_model(*value));
                    assert(decreases_to!(doc => doc->Object_0));
                    assert(decreases_to!(map => map[k]));
                }
                let item = from_value(value);
                out.push((key.clone(), item));
                i += 1;
            }
            proof {
                assert(entries_view(out@) =~= members);
            }
            Json::Object(out)
        },
    }
}

/// Whether the document can be written as text: each number in it that is
/// not an integer is identified by a text that reads back as that number.
pub open spec fn renderable(doc: JsonValue) -> bool
    decreases doc,
{
    match doc {
        JsonValue::Real(t) => json_parse(t) == Some(JsonValue::Real(t)),
        JsonValue::Array(items) => forall|i: int| 0 <= i < items.len() ==> renderable(#[trigger] items[i]),
        JsonValue::Object(members) => forall|k: Seq<char>| #[trigger]
            members.contains_key(k) ==> renderable(members[k]),
        _ => true,
    }
}

/// Whether some member under construction has the key.
fn has_key(out: &Vec<(String, Value)>, key: &String) -> (r: bool)
    ensures
        r == exists|j: int| 0 <= j < out@.len() && out@[j].0@ == key@,
{
    let mut j: usize = 0;
    while j < out.len()
        invariant
            j <= out.len(),
            forall|k: int| 0 <= k < j ==> out@[k].0@ != key@,
        decreases out.len() - j,
    {
        if out[j].0 == *key {
            return true;
        }
        j += 1;
    }
    false
}

/// The value that holds a number which is not an integer, given the text
/// that identifies it.
fn real_value(text: &String) -> (r: Option<Value>)
    ensures
        match r {
            Some(v) => renderable(JsonValue::Real(text@)) && json_model(v) == JsonValue::Real(text@),
            None => !renderable(JsonValue::Real(text@)),
        },
{
    match parse_value(text.as_str()) {
        None => None,
        Some(v) => {
            let is_number = match open(&v) {
                Opened::Number => true,
                _ => false,
            };
            if is_number && v.as_u64().is_none() && v.as_i64().is_none() {
                let written = render_value(&v);
                if written == *text {
                    Some(v)
                } else {
                    None
                }
            } else {
                None
            }
        },
    }
}

/// Copies a document of this library into a `serde_json::Value`.
fn to_value(doc: &Json) -> (r: Option<Value>)
    ensures
        match r {
            Some(v) => renderable(doc@) && json_model(v) == doc@,
            None => !renderable(doc@),
        },
    decreases doc,
{
    match doc {
        Json::Null => Some(null_value()),
        Json::Bool(b) => Some(bool_value(*b)),
        Json::Unsigned(n) => Some(unsigned_value(*n)),
        Json::Signed(n) => Some(signed_value(*n)),
        Json::Real(t) => real_value(t),
        Json::Text(t) => Some(text_value(t.clone())),
        Json::Array(items) => {
            let mut out: Vec<Value> = Vec::new();
            let mut i: usize = 0;
            while i < items.len()
                invariant
                    i <= items.len(),
                    out.len() == i,
                    *doc == Json::Array(*items),
                    doc@ == JsonValue::Array(items_view(items@)),
                    forall|j: int| 0 <= j < i ==> json_model(out@[j]) == items@[j]@,
                    forall|j: int| 0 <= j < i ==> renderable(items@[j]@),
                decreases items.len() - i,
            {
                proof {
                    assert(items_view(items@)[i as int] == items@[i as int]@);
                    assert(decreases_to!(*doc => doc->Array_0));
                    assert(decreases_to!(*items => items@[i as int]));
                }
                match to_value(&items[i]) {
                    Some(v) => out.push(v),
                    None => {
                        proof {
                            let listed = items_view(items@);
                            assert(!renderable(listed[i as int]));
                            assert(doc@->Array_0 == listed);
                            assert(!renderable(doc@));
                        }
                        return None;
                    },
                }
                i += 1;
            }
            proof {
                let models = Seq::new(out@.len(), |i: int| json_model(out@[i]));
                assert(models =~= items_view(items@));
                assert forall|j: int| 0 <= j < items_view(items@).len() implies renderable(
                    #[trigger] items_view(items@)[j],
                ) by {
                    assert(items_view(items@)[j] == items@[j]@);
                }
            }
            Some(array_value(out))
        },
        Json::Object(entries) => {
            let ghost all = entries_view(entries@);
            let mut out: Vec<(String, Value)> = Vec::new();
            let mut i: usize = 0;
            while i < entries.len()
                invariant
                    i <= entries.len(),
                    all == entries_view(entries@),
                    *doc == Json::Object(*entries),
                    doc@ == JsonValue::Object(members_map(all)),
                    distinct_keys(owned_members(out@)),
                    members_map(owned_members(out@)) == members_map(all.take(i as int)),
                    forall|k: Seq<char>| #[trigger]
                        members_map(all.take(i as int)).contains_key(k) ==> renderable(
                            members_map(all.take(i as int))[k],
                        ),
                decreases entries.len() - i,
            {
                let ghost seen = members_map(all.take(i as int));
                let ghost key = entries@[i as int].0@;
                let ghost value = entries@[i as int].1@;
                proof {
                    assert(all[i as int] == (key, value));
                    assert(all.take(i + 1).drop_last() =~= all.take(i as int));
                    assert(all.take(i + 1).last() == all[i as int]);
                    lemma_members_map(owned_members(out@), key);
                    lemma_members_map(all.take(i as int), key);
                    assert(members_map(all.take(i + 1)) == if seen.contains_key(key) {
                        seen
                    } else {
                        seen.insert(key, value)
                    });
                }
                if !has_key(&out, &entries[i].0) {
                    proof {
                        assert(!seen.contains_key(key));
                        assert(first_with_key(all, key, i as int)) by {
                            assert forall|j: int| 0 <= j < i implies all[j].0 != key by {
                                assert(all.take(i as int)[j] == all[j]);
                            }
                        }
                        lemma_members_map(all, key);
                        assert(members_map(all).contains_key(key));
                        assert(members_map(all)[key] == value);
                        assert(decreases_to!(*doc => doc->Object_0));
                        assert(decreases_to!(*entries => entries@[i as int]));
                        assert(decreases_to!(entries@[i as int] => entries@[i as int].1));
                    }
                    match to_value(&entries[i].1) {
                        Some(v) => {
                            let ghost before = owned_members(out@);
                            out.push((entries[i].0.clone(), v));
                            proof {
                                let after = owned_members(out@);
                                assert(after.drop_last() =~= before);
                                assert(after.last() == (key, value));
                                assert(members_map(after) == seen.insert(key, value));
                                assert forall|a: int, b: int| 0 <= a < b < after.len() implies after[a].0
                                    != after[b].0 by {
                                    if b < before.len() {
                                        assert(after[a] == before[a]);
                                        assert(after[b] == before[b]);
                                    } else {
                                        assert(after[a] == before[a]);
                                        assert(out@[a].0@ == before[a].0);
                                    }
                                }
                            }
                        },
                        None => {
                            proof {
                                assert(doc@->Object_0 == members_map(all));
                                assert(!renderable(members_map(all)[key]));
                                assert(!renderable(doc@));
                            }
                            return None;
                        },
                    }
                } else {
                    proof {
                        let j = choose|j: int| 0 <= j < out@.len() && out@[j].0@ == key;
                        assert(owned_members(out@)[j].0 == key);
                        assert(seen.contains_key(key));
                    }
                }
                i += 1;
            }
            proof {
                assert(all.take(entries@.len() as int) =~= all);
            }
            Some(object_value(out))
        },
    }
}

impl Json {
    /// Adds an entry at the end of an object's entries.  The object gains
    /// the member, unless an earlier entry has the key already: of two
    /// entries with one key only the first counts.
    pub fn add_member(entries: &mut Vec<(String, Json)>, key: &str, value: Json)
        ensures
            final(entries)@.len() == old(entries)@.len() + 1,
            final(entries)@.drop_last() == old(entries)@,
            final(entries)@.last().0@ == key@,
            final(entries)@.last().1 == value,
            members_map(entries_view(final(entries)@)) == if members_map(
                entries_view(old(entries)@),
            ).contains_key(key@) {
                members_map(entries_view(old(entries)@))
            } else {
                members_map(entries_view(old(entries)@)).insert(key@, value@)
            },
    {
        let ghost before = entries_view(entries@);
        entries.push((key.to_owned(), value));
        proof {
            assert(entries@.drop_last() =~= old(entries)@);
            assert(entries_view(entries@) =~= before.push((key@, value@)));
            lemma_members_push(before, key@, value@);
        }
    }

    /// The member under a key: the value of the first entry with that key,
    /// if the document is an object and has such an entry.
    pub fn get(&self, key: &str) -> (r: Option<&Json>)
        ensures
            match r {
                Some(found) => member(self@, key@) == Some(found@),
                None => member(self@, key@) is None,
            },
    {
        match self {
            Json::Object(entries) => {
                let wanted = key.to_owned();
                let ghost all = entries_view(entries@);
                let mut i: usize = 0;
                while i < entries.len()
                    invariant
                        i <= entries.len(),
                        wanted@ == key@,
                        all == entries_view(entries@),
                        self@ == JsonValue::Object(members_map(all)),
                        forall|j: int| 0 <= j < i ==> all[j].0 != key@,
                    decreases entries.len() - i,
                {
                    if entries[i].0 == wanted {
                        proof {
                            assert(all[i as int] == (entries@[i as int].0@, entries@[i as int].1@));
                            assert(first_with_key(all, key@, i as int));
                            lemma_members_map(all, key@);
                        }
                        return Some(&entries[i].1);
                    }
                    assert(all[i as int].0 == entries@[i as int].0@);
                    i += 1;
                }
                proof {
                    lemma_members_map(all, key@);
                }
                None
            },
            _ => None,
        }
    }

    /// A copy of the document.
    pub fn duplicate(&self) -> (r: Json)
        ensures
            r@ == self@,
        decreases self,
    {
        match self {
            Json::Null => Json::Null,
            Json::Bool(b) => Json::Bool(*b),
            Json::Unsigned(n) => Json::Unsigned(*n),
            Json::Signed(n) => Json::Signed(*n),
            Json::Real(t) => Json::Real(t.clone()),
            Json::Text(t) => Json::Text(t.clone()),
            Json::Array(items) => {
                let mut out: Vec<Json> = Vec::new();
                let mut i: usize = 0;
                while i < items.len()
                    invariant
                        i <= items.len(),
                        out.len() == i,
                        *self == Json::Array(*items),
                        forall|j: int| 0 <= j < i ==> out@[j]@ == items@[j]@,
                    decreases items.len() - i,
                {
                    proof {
                        assert(decreases_to!(*self => self->Array_0));
                        assert(decreases_to!(*items => items@[i as int]));
                    }
                    out.push(items[i].duplicate());
                    i += 1;
                }
                proof {
                    assert(items_view(out@) =~= items_view(items@));
                }
                Json::Array(out)
            },
            Json::Object(entries) => {
                let mut out: Vec<(String, Json)> = Vec::new();
                let mut i: usize = 0;
                while i < entries.len()
                    invariant
                        i <= entries.len(),
                        out.len() == i,
                        *self == Json::Object(*entries),
                        forall|j: int| 0 <= j < i ==> out@[j].0@ == entries@[j].0@,
                        forall|j: int| 0 <= j < i ==> out@[j].1@ == entries@[j].1@,
                    decreases entries.len() - i,
                {
                    proof {
                        assert(decreases_to!(*self => self->Object_0));
                        assert(decreases_to!(*entries => entries@[i as int]));
                        assert(decreases_to!(entries@[i as int] => entries@[i as int].1));
                    }
                    out.push((entries[i].0.clone(), entries[i].1.duplicate()));
                    i += 1;
                }
                proof {
                    assert(entries_view(out@) =~= entries_view(entries@));
                }
                Json::Object(out)
            },
        }
    }

    /// Reads a document from JSON text.  There is a document exactly when
    /// the text is well-formed JSON.
    pub fn parse(text: &str) -> (r: Option<Json>)
        ensures
            match r {
                Some(doc) => json_parse(text@) == Some(doc@),
                None => json_parse(text@) is None,
            },
    {
        match parse_value(text) {
            Some(v) => Some(from_value(&v)),
            None => None,
        }
    }

    /// Writes the document as compact JSON text.  There is a text exactly
    /// when the document is renderable.
    pub fn render(&self) -> (r: Option<String>)
        ensures
            match r {
                Some(text) => renderable(self@) && text@ == json_text(self@),
                None => !renderable(self@),
            },
    {
        match to_value(self) {
            Some(v) => Some(render_value(&v)),
            None => None,
        }
    }
}

} // verus!
