//! JSON values: the executable [`Json`] tree and its mathematical model
//! [`JsonValue`].

use vstd::prelude::*;

verus! {

/// A JSON value as contracts see it.
///
/// Integers are unbounded, text is a sequence of characters, and an object is
/// the sequence of its members in document order.
pub enum JsonValue {
    Null,
    Bool(bool),
    Integer(int),
    /// A number that is no integer of 64 bits, by its literal.
    Real(Seq<char>),
    Text(Seq<char>),
    Array(Seq<JsonValue>),
    Object(Seq<(Seq<char>, JsonValue)>),
}

/// The value that `members` holds under `key`: that of the last member with
/// this key, as a later member overwrites an earlier one with the same key.
pub open spec fn lookup(members: Seq<(Seq<char>, JsonValue)>, key: Seq<char>) -> Option<JsonValue>
    decreases members.len(),
{
    if members.len() == 0 {
        None
    } else if members.last().0 == key {
        Some(members.last().1)
    } else {
        lookup(members.drop_last(), key)
    }
}

impl JsonValue {
    /// The member of an object under `key`; `None` for a missing key and for
    /// every value that is no object.
    pub open spec fn get(self, key: Seq<char>) -> Option<JsonValue> {
        match self {
            JsonValue::Object(members) => lookup(members, key),
            _ => None,
        }
    }

    /// Whether an object has a member under `key`.
    pub open spec fn has(self, key: Seq<char>) -> bool {
        self.get(key) is Some
    }
}

/// A JSON value in memory.
///
/// `Unsigned` and `Signed` hold the integers that fit in 64 bits; both stand
/// for the same mathematical integer where their ranges overlap. `Real` keeps
/// every other number by its literal. An object keeps its members in order.
#[derive(Debug, PartialEq, Eq)]
pub enum Json {
    Null,
    Bool(bool),
    Unsigned(u64),
    Signed(i64),
    Real(String),
    Text(String),
    Array(Vec<Json>),
    Object(Vec<(String, Json)>),
}

/// The model of a value in memory.
pub open spec fn value_of(json: Json) -> JsonValue
    decreases json,
{
    match json {
        Json::Null => JsonValue::Null,
        Json::Bool(b) => JsonValue::Bool(b),
        Json::Unsigned(n) => JsonValue::Integer(n as int),
        Json::Signed(n) => JsonValue::Integer(n as int),
        Json::Real(literal) => JsonValue::Real(literal@),
        Json::Text(text) => JsonValue::Text(text@),
        Json::Array(items) => JsonValue::Array(
            Seq::new(
                items@.len(),
                |i: int|
                    if 0 <= i < items@.len() {
                        value_of(items@[i])
                    } else {
                        JsonValue::Null
                    },
            ),
        ),
        Json::Object(members) => JsonValue::Object(
            Seq::new(
                members@.len(),
                |i: int|
                    if 0 <= i < members@.len() {
                        (members@[i].0@, value_of(members@[i].1))
                    } else {
                        (Seq::empty(), JsonValue::Null)
                    },
            ),
        ),
    }
}

/// The models of the items of an array, in order.
pub open spec fn values_of(items: Seq<Json>) -> Seq<JsonValue> {
    Seq::new(items.len(), |i: int| value_of(items[i]))
}

/// The models of the members of an object, in order.
pub open spec fn members_of(members: Seq<(String, Json)>) -> Seq<(Seq<char>, JsonValue)> {
    Seq::new(members.len(), |i: int| (members[i].0@, value_of(members[i].1)))
}

impl View for Json {
    type V = JsonValue;

    open spec fn view(&self) -> JsonValue {
        value_of(*self)
    }
}

/// The model of an array is the array of its items' models.
pub proof fn lemma_array_view(items: Vec<Json>)
    ensures
        Json::Array(items)@ == JsonValue::Array(values_of(items@)),
{
    assert(Json::Array(items)@->Array_0 =~= values_of(items@));
}

/// The model of an object is the sequence of its members' models.
pub proof fn lemma_object_view(members: Vec<(String, Json)>)
    ensures
        Json::Object(members)@ == JsonValue::Object(members_of(members@)),
{
    assert(Json::Object(members)@->Object_0 =~= members_of(members@));
}

/// Looking a key up sees the last member only if it has that key.
pub proof fn lemma_lookup_push(
    members: Seq<(Seq<char>, JsonValue)>,
    key: Seq<char>,
    value: JsonValue,
    wanted: Seq<char>,
)
    ensures
        lookup(members.push((key, value)), wanted) == if key == wanted {
            Some(value)
        } else {
            lookup(members, wanted)
        },
{
    let longer = members.push((key, value));
    assert(longer.last() == (key, value));
    assert(longer.drop_last() =~= members);
}

impl Json {
    /// Whether this is the JSON `null`.
    pub fn is_null(&self) -> (r: bool)
        ensures
            r == (self@ == JsonValue::Null),
    {
        match self {
            Json::Null => true,
            _ => false,
        }
    }

    /// The member of an object under `key`: the last one with that key.
    pub fn get(&self, key: &str) -> (r: Option<&Json>)
        ensures
            match r {
                Some(found) => self@.get(key@) == Some(found@),
                None => self@.get(key@) is None,
            },
    {
        match self {
            Json::Object(members) => {
                proof {
                    lemma_object_view(*members);
                }
                let ghost all = members_of(members@);
                let wanted = key.to_owned();
                let mut i: usize = members.len();
                assert(all.subrange(0, i as int) =~= all);
                while i > 0
                    invariant
                        i <= members.len(),
                        wanted@ == key@,
                        all == members_of(members@),
                        self@ == JsonValue::Object(all),
                        lookup(all, key@) == lookup(all.subrange(0, i as int), key@),
                    decreases i,
                {
                    i -= 1;
                    let ghost upto = all.subrange(0, i + 1);
                    assert(upto.last() == all[i as int]);
                    assert(upto.drop_last() =~= all.subrange(0, i as int));
                    if members[i].0 == wanted {
                        assert(lookup(upto, key@) == Some(all[i as int].1));
                        return Some(&members[i].1);
                    }
                    assert(lookup(upto, key@) == lookup(all.subrange(0, i as int), key@));
                }
                None
            },
            _ => None,
        }
    }

    /// The truth value, if this is `true` or `false`.
    pub fn as_bool(&self) -> (r: Option<bool>)
        ensures
            r == match self@ {
                JsonValue::Bool(b) => Some(b),
                _ => None,
            },
    {
        match self {
            Json::Bool(b) => Some(*b),
            _ => None,
        }
    }

    /// The number, if this is an integer from 0 to `u64::MAX`.
    pub fn as_u64(&self) -> (r: Option<u64>)
        ensures
            r == match self@ {
                JsonValue::Integer(n) if 0 <= n <= u64::MAX => Some(n as u64),
                _ => None,
            },
    {
        match self {
            Json::Unsigned(n) => Some(*n),
            Json::Signed(n) => if *n >= 0 {
                Some(*n as u64)
            } else {
                None
            },
            _ => None,
        }
    }

    /// The number, if this is an integer from `i64::MIN` to `i64::MAX`.
    pub fn as_i64(&self) -> (r: Option<i64>)
        ensures
            r == match self@ {
                JsonValue::Integer(n) if i64::MIN <= n <= i64::MAX => Some(n as i64),
                _ => None,
            },
    {
        match self {
            Json::Unsigned(n) => if *n <= i64::MAX as u64 {
                Some(*n as i64)
            } else {
                None
            },
            Json::Signed(n) => Some(*n),
            _ => None,
        }
    }

    /// The number, if this is an integer from 0 to `usize::MAX`.
    pub fn as_usize(&self) -> (r: Option<usize>)
        ensures
            r == match self@ {
                JsonValue::Integer(n) if 0 <= n <= usize::MAX => Some(n as usize),
                _ => None,
            },
    {
        match self.as_u64() {
            Some(n) => if n <= usize::MAX as u64 {
                Some(n as usize)
            } else {
                None
            },
            None => None,
        }
    }

    /// The number, if this is an integer from `isize::MIN` to `isize::MAX`.
    pub fn as_isize(&self) -> (r: Option<isize>)
        ensures
            r == match self@ {
                JsonValue::Integer(n) if isize::MIN <= n <= isize::MAX => Some(n as isize),
                _ => None,
            },
    {
        match self.as_i64() {
            Some(n) => if isize::MIN as i64 <= n && n <= isize::MAX as i64 {
                Some(n as isize)
            } else {
                None
            },
            None => None,
        }
    }

    /// The text, if this is a JSON string.
    pub fn as_str(&self) -> (r: Option<&str>)
        ensures
            match r {
                Some(text) => self@ == JsonValue::Text(text@),
                None => !(self@ is Text),
            },
    {
        match self {
            Json::Text(text) => Some(text.as_str()),
            _ => None,
        }
    }

    /// The items, if this is an array.
    pub fn as_array(&self) -> (r: Option<&Vec<Json>>)
        ensures
            match r {
                Some(items) => self@ == JsonValue::Array(values_of(items@)),
                None => !(self@ is Array),
            },
    {
        match self {
            Json::Array(items) => {
                proof {
                    lemma_array_view(*items);
                }
                Some(items)
            },
            _ => None,
        }
    }

    /// The members, if this is an object.
    pub fn as_object(&self) -> (r: Option<&Vec<(String, Json)>>)
        ensures
            match r {
                Some(members) => self@ == JsonValue::Object(members_of(members@)),
                None => !(self@ is Object),
            },
    {
        match self {
            Json::Object(members) => {
                proof {
                    lemma_object_view(*members);
                }
                Some(members)
            },
            _ => None,
        }
    }
}

impl Default for Json {
    /// The JSON `null`.
    fn default() -> (r: Json)
        ensures
            r@ == JsonValue::Null,
    {
        Json::Null
    }
}

impl Clone for Json {
    /// A copy with the same model.
    fn clone(&self) -> (r: Self)
        ensures
            r@ == self@,
        decreases self,
    {
        match self {
            Json::Null => Json::Null,
            Json::Bool(b) => Json::Bool(*b),
            Json::Unsigned(n) => Json::Unsigned(*n),
            Json::Signed(n) => Json::Signed(*n),
            Json::Real(literal) => Json::Real(literal.clone()),
            Json::Text(text) => Json::Text(text.clone()),
            Json::Array(items) => {
                let mut copies: Vec<Json> = Vec::new();
                let mut i: usize = 0;
                while i < items.len()
                    invariant
                        i <= items.len(),
                        *self == Json::Array(*items),
                        copies.len() == i,
                        forall|k: int| 0 <= k < i ==> copies@[k]@ == items@[k]@,
                    decreases items.len() - i,
                {
                    assert(decreases_to!(*self => self->Array_0@[i as int]));
                    let copy = items[i].clone();
                    copies.push(copy);
                    i += 1;
                }
                proof {
                    lemma_array_view(*items);
                    lemma_array_view(copies);
                    assert(values_of(copies@) =~= values_of(items@));
                }
                Json::Array(copies)
            },
            Json::Object(members) => {
                let mut copies: Vec<(String, Json)> = Vec::new();
                let mut i: usize = 0;
                while i < members.len()
                    invariant
                        i <= members.len(),
                        *self == Json::Object(*members),
                        copies.len() == i,
                        forall|k: int|
                            0 <= k < i ==> copies@[k].0@ == members@[k].0@ && copies@[k].1@
                                == members@[k].1@,
                    decreases members.len() - i,
                {
                    let key = members[i].0.clone();
                    assert(decreases_to!(*self => self->Object_0@[i as int].1));
                    let value = members[i].1.clone();
                    copies.push((key, value));
                    i += 1;
                }
                proof {
                    lemma_object_view(*members);
                    lemma_object_view(copies);
                    assert(members_of(copies@) =~= members_of(members@));
                }
                Json::Object(copies)
            },
        }
    }
}

} // verus!
