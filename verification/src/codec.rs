//! The way of a typed value into JSON and out of it.

use crate::json::{lemma_array_view, lemma_object_view, members_of, values_of, Json, JsonValue};
use vstd::prelude::*;

verus! {

/// A type that can be written as a JSON value.
///
/// An implementation says with `json_model` which value it is written as;
/// `to_value` is held to it.
pub trait ToJson {
    /// The JSON value that `self` is written as: `null`, unless the
    /// implementation says otherwise.
    open spec fn json_model(&self) -> JsonValue {
        JsonValue::Null
    }

    /// Writes `self` as a JSON value.
    fn to_value(&self) -> (r: Json)
        ensures
            r@ == self.json_model(),
    ;
}

/// A type that can be read from a JSON value.
///
/// An implementation says with `fits` which values it reads and with
/// `decodes` what it reads from them; `from_json` is held to both.
pub trait FromJson: Sized {
    /// Whether `value` has the shape of this type. Every value has, unless
    /// the implementation says otherwise.
    open spec fn fits(value: JsonValue) -> bool {
        true
    }

    /// Whether `decoded` is what `value` holds. Nothing is said of it,
    /// unless the implementation says otherwise.
    open spec fn decodes(value: JsonValue, decoded: Self) -> bool {
        true
    }

    /// Reads a value of this type: `Some` exactly for the values that fit.
    fn from_json(value: &Json) -> (r: Option<Self>)
        ensures
            r is Some <==> Self::fits(value@),
            r matches Some(decoded) ==> Self::decodes(value@, decoded),
    ;
}

/// Whether `value` is an object with a member under `key` that fits `T`.
pub open spec fn field_fits<T: FromJson>(value: JsonValue, key: Seq<char>) -> bool {
    value.get(key) matches Some(member) && T::fits(member)
}

/// Whether `value` is an object whose member under `key` holds `decoded`.
pub open spec fn field_decodes<T: FromJson>(value: JsonValue, key: Seq<char>, decoded: T) -> bool {
    value.get(key) matches Some(member) && T::decodes(member, decoded)
}

/// Reads the member of an object under `key`. A missing member does not fit.
pub fn field<T: FromJson>(value: &Json, key: &str) -> (r: Option<T>)
    ensures
        r is Some <==> field_fits::<T>(value@, key@),
        r matches Some(decoded) ==> field_decodes::<T>(value@, key@, decoded),
{
    match value.get(key) {
        Some(member) => T::from_json(member),
        None => None,
    }
}

/// Writes one member of an object.
pub fn member<T: ToJson>(key: &str, value: &T) -> (r: (String, Json))
    ensures
        r.0@ == key@,
        r.1@ == value.json_model(),
{
    (key.to_owned(), value.to_value())
}

/// The object with these members, in this order.
pub fn object(members: Vec<(String, Json)>) -> (r: Json)
    ensures
        r@ == JsonValue::Object(members_of(members@)),
{
    proof {
        lemma_object_view(members);
    }
    Json::Object(members)
}

impl ToJson for bool {
    open spec fn json_model(&self) -> JsonValue {
        JsonValue::Bool(*self)
    }

    fn to_value(&self) -> (r: Json) {
        Json::Bool(*self)
    }
}

impl ToJson for usize {
    open spec fn json_model(&self) -> JsonValue {
        JsonValue::Integer(*self as int)
    }

    fn to_value(&self) -> (r: Json) {
        Json::Unsigned(*self as u64)
    }
}

impl ToJson for isize {
    open spec fn json_model(&self) -> JsonValue {
        JsonValue::Integer(*self as int)
    }

    fn to_value(&self) -> (r: Json) {
        Json::Signed(*self as i64)
    }
}

impl ToJson for String {
    open spec fn json_model(&self) -> JsonValue {
        JsonValue::Text(self@)
    }

    fn to_value(&self) -> (r: Json) {
        Json::Text(self.clone())
    }
}

impl ToJson for Json {
    open spec fn json_model(&self) -> JsonValue {
        self@
    }

    fn to_value(&self) -> (r: Json) {
        self.clone()
    }
}

/// An array of the items, item by item.
impl<T: ToJson> ToJson for Vec<T> {
    open spec fn json_model(&self) -> JsonValue {
        JsonValue::Array(Seq::new(self@.len(), |i: int| self@[i].json_model()))
    }

    fn to_value(&self) -> (r: Json) {
        let mut items: Vec<Json> = Vec::new();
        let mut i: usize = 0;
        while i < self.len()
            invariant
                i <= self.len(),
                items@.len() == i,
                forall|k: int| 0 <= k < i ==> (#[trigger] items@[k])@ == self@[k].json_model(),
            decreases self.len() - i,
        {
            items.push(self[i].to_value());
            i += 1;
        }
        proof {
            lemma_array_view(items);
            assert(values_of(items@) =~= self.json_model()->Array_0);
        }
        Json::Array(items)
    }
}

impl FromJson for bool {
    open spec fn fits(value: JsonValue) -> bool {
        value is Bool
    }

    open spec fn decodes(value: JsonValue, decoded: bool) -> bool {
        value == JsonValue::Bool(decoded)
    }

    fn from_json(value: &Json) -> (r: Option<bool>) {
        value.as_bool()
    }
}

impl FromJson for usize {
    open spec fn fits(value: JsonValue) -> bool {
        value matches JsonValue::Integer(n) && 0 <= n <= usize::MAX
    }

    open spec fn decodes(value: JsonValue, decoded: usize) -> bool {
        value == JsonValue::Integer(decoded as int)
    }

    fn from_json(value: &Json) -> (r: Option<usize>) {
        value.as_usize()
    }
}

impl FromJson for isize {
    open spec fn fits(value: JsonValue) -> bool {
        value matches JsonValue::Integer(n) && isize::MIN <= n <= isize::MAX
    }

    open spec fn decodes(value: JsonValue, decoded: isize) -> bool {
        value == JsonValue::Integer(decoded as int)
    }

    fn from_json(value: &Json) -> (r: Option<isize>) {
        value.as_isize()
    }
}

impl FromJson for String {
    open spec fn fits(value: JsonValue) -> bool {
        value is Text
    }

    open spec fn decodes(value: JsonValue, decoded: String) -> bool {
        value == JsonValue::Text(decoded@)
    }

    fn from_json(value: &Json) -> (r: Option<String>) {
        match value.as_str() {
            Some(text) => Some(text.to_owned()),
            None => None,
        }
    }
}

/// The answer of an action that gives no data: only `null` is read.
impl FromJson for () {
    open spec fn fits(value: JsonValue) -> bool {
        value == JsonValue::Null
    }

    open spec fn decodes(value: JsonValue, decoded: ()) -> bool {
        value == JsonValue::Null
    }

    fn from_json(value: &Json) -> (r: Option<()>) {
        if value.is_null() {
            Some(())
        } else {
            None
        }
    }
}

/// Any value, kept as it is.
impl FromJson for Json {
    open spec fn fits(value: JsonValue) -> bool {
        true
    }

    open spec fn decodes(value: JsonValue, decoded: Json) -> bool {
        decoded@ == value
    }

    fn from_json(value: &Json) -> (r: Option<Json>) {
        Some(value.clone())
    }
}

/// An array whose items all fit, item by item.
impl<T: FromJson> FromJson for Vec<T> {
    open spec fn fits(value: JsonValue) -> bool {
        value matches JsonValue::Array(items) && forall|i: int|
            0 <= i < items.len() ==> T::fits(#[trigger] items[i])
    }

    open spec fn decodes(value: JsonValue, decoded: Vec<T>) -> bool {
        value matches JsonValue::Array(items) && decoded@.len() == items.len() && forall|i: int|
            0 <= i < items.len() ==> T::decodes(#[trigger] items[i], decoded@[i])
    }

    fn from_json(value: &Json) -> (r: Option<Vec<T>>) {
        match value.as_array() {
            None => None,
            Some(items) => {
                let ghost models = values_of(items@);
                let mut decoded: Vec<T> = Vec::new();
                let mut i: usize = 0;
                while i < items.len()
                    invariant
                        i <= items.len(),
                        models == values_of(items@),
                        value@ == JsonValue::Array(models),
                        decoded@.len() == i,
                        forall|k: int| 0 <= k < i ==> T::fits(#[trigger] models[k]),
                        forall|k: int|
                            0 <= k < i ==> T::decodes(#[trigger] models[k], decoded@[k]),
                    decreases items.len() - i,
                {
                    match T::from_json(&items[i]) {
                        Some(item) => {
                            decoded.push(item);
                        },
                        None => {
                            assert(value@->Array_0 == models);
                            assert(!T::fits(models[i as int]));
                            return None;
                        },
                    }
                    i += 1;
                }
                Some(decoded)
            },
        }
    }
}

} // verus!
