use crate::json::member;
use crate::json::Json;
use crate::json::JsonValue;
use vstd::prelude::*;

verus! {

/// A value that can be read from a JSON document by its structure.
///
/// `decoded` says, for every document, whether it has the shape of such a
/// value and which value it then denotes; `from_json` computes the same.
pub trait FromJson: Sized + DeepView {
    /// The value that a document denotes, if it has the required shape.
    spec fn decoded(doc: JsonValue) -> Option<<Self as DeepView>::V>;

    /// Reads the value from a document.
    fn from_json(doc: &Json) -> (r: Option<Self>)
        ensures
            match r {
                Some(value) => Self::decoded(doc@) == Some(value.deep_view()),
                None => Self::decoded(doc@) is None,
            },
    ;
}

/// The value denoted by the member of `doc` under `key`: there is one when
/// `doc` is an object, has that member, and the member has the shape of a
/// `T`.
pub open spec fn field<T: FromJson>(doc: JsonValue, key: Seq<char>) -> Option<<T as DeepView>::V> {
    match member(doc, key) {
        Some(value) => T::decoded(value),
        None => None,
    }
}

/// The value of a field that may be written under either of two names.
/// A document that has members under both names is refused.
pub open spec fn field_either<T: FromJson>(doc: JsonValue, key: Seq<char>, alias: Seq<char>) -> Option<
    <T as DeepView>::V,
> {
    if member(doc, key) is Some && member(doc, alias) is Some {
        None
    } else if member(doc, key) is Some {
        field::<T>(doc, key)
    } else {
        field::<T>(doc, alias)
    }
}

/// Reads the member of `doc` under `key` as a `T`.
pub fn read_field<T: FromJson>(doc: &Json, key: &str) -> (r: Option<T>)
    ensures
        match r {
            Some(value) => field::<T>(doc@, key@) == Some(value.deep_view()),
            None => field::<T>(doc@, key@) is None,
        },
{
    match doc.get(key) {
        Some(value) => T::from_json(value),
        None => None,
    }
}

/// Reads a field that may be written under either of two names.
pub fn read_field_either<T: FromJson>(doc: &Json, key: &str, alias: &str) -> (r: Option<T>)
    ensures
        match r {
            Some(value) => field_either::<T>(doc@, key@, alias@) == Some(value.deep_view()),
            None => field_either::<T>(doc@, key@, alias@) is None,
        },
{
    match doc.get(key) {
        Some(value) => match doc.get(alias) {
            Some(_) => None,
            None => T::from_json(value),
        },
        None => read_field(doc, alias),
    }
}

impl FromJson for String {
    /// A text is read from a JSON string and from nothing else.
    open spec fn decoded(doc: JsonValue) -> Option<Seq<char>> {
        match doc {
            JsonValue::Text(t) => Some(t),
            _ => None,
        }
    }

    fn from_json(doc: &Json) -> (r: Option<String>) {
        match doc {
            Json::Text(t) => Some(t.clone()),
            _ => None,
        }
    }
}

impl FromJson for u64 {
    /// A `u64` is read from an integer in its range, written without
    /// fraction or exponent.
    open spec fn decoded(doc: JsonValue) -> Option<u64> {
        match doc {
            JsonValue::Integer(n) => if 0 <= n <= u64::MAX {
                Some(n as u64)
            } else {
                None
            },
            _ => None,
        }
    }

    fn from_json(doc: &Json) -> (r: Option<u64>)
        ensures
            r == u64::decoded(doc@),
    {
        match doc {
            Json::Unsigned(n) => Some(*n),
            Json::Signed(n) => if *n >= 0 {
                Some(*n as u64)
            } else {
                None
            },
            _ => None,
        }
    }
}

impl FromJson for u32 {
    /// A `u32` is read from an integer in its range.
    open spec fn decoded(doc: JsonValue) -> Option<u32> {
        match doc {
            JsonValue::Integer(n) => if 0 <= n <= u32::MAX {
                Some(n as u32)
            } else {
                None
            },
            _ => None,
        }
    }

    fn from_json(doc: &Json) -> (r: Option<u32>)
        ensures
            r == u32::decoded(doc@),
    {
        let wide = u64::from_json(doc);
        match wide {
            Some(n) => if n <= 0xFFFF_FFFF {
                Some(n as u32)
            } else {
                None
            },
            None => None,
        }
    }
}

impl FromJson for Json {
    /// Every document is read as itself.
    open spec fn decoded(doc: JsonValue) -> Option<JsonValue> {
        Some(doc)
    }

    fn from_json(doc: &Json) -> (r: Option<Json>) {
        Some(doc.duplicate())
    }
}

impl<T: FromJson> FromJson for Vec<T> {
    /// A list is read from an array whose items all have the shape of a
    /// `T`; it holds their values in the array's order.
    open spec fn decoded(doc: JsonValue) -> Option<Seq<<T as DeepView>::V>> {
        match doc {
            JsonValue::Array(items) => if forall|i: int|
                0 <= i < items.len() ==> (#[trigger] T::decoded(items[i])) is Some {
                Some(Seq::new(items.len(), |i: int| T::decoded(items[i]).unwrap()))
            } else {
                None
            },
            _ => None,
        }
    }

    fn from_json(doc: &Json) -> (r: Option<Vec<T>>) {
        match doc {
            Json::Array(items) => {
                let mut out: Vec<T> = Vec::new();
                let mut i: usize = 0;
                while i < items.len()
                    invariant
                        i <= items.len(),
                        out.len() == i,
                        doc@ == JsonValue::Array(crate::json::items_view(items@)),
                        forall|j: int| 0 <= j < i ==> T::decoded(items@[j]@) == Some(out@[j].deep_view()),
                    decreases items.len() - i,
                {
                    assert(crate::json::items_view(items@)[i as int] == items@[i as int]@);
                    match T::from_json(&items[i]) {
                        Some(x) => out.push(x),
                        None => {
                            return None;
                        },
                    }
                    i += 1;
                }
                proof {
                    let listed = crate::json::items_view(items@);
                    assert forall|j: int| 0 <= j < listed.len() implies (#[trigger] T::decoded(
                        listed[j],
                    )) is Some by {
                        assert(listed[j] == items@[j]@);
                    }
                    assert(out.deep_view() =~= Seq::new(
                        listed.len(),
                        |i: int| T::decoded(listed[i]).unwrap(),
                    )) by {
                        assert forall|j: int| 0 <= j < listed.len() implies out.deep_view()[j]
                            == T::decoded(listed[j]).unwrap() by {
                            assert(listed[j] == items@[j]@);
                        }
                    }
                }
                Some(out)
            },
            _ => None,
        }
    }
}

} // verus!
