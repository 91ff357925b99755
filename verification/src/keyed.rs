//! Objects read as maps: from text keys, and from keys that are numbers
//! written as text.

use crate::codec::FromJson;
use crate::json::{lookup, members_of, Json, JsonValue};
use std::collections::HashMap;
use vstd::prelude::*;
use vstd::std_specs::hash::*;

verus! {

/// Whether no later member of `members` has the key of member `at`.
pub open spec fn is_last_of_its_key(members: Seq<(Seq<char>, JsonValue)>, at: int) -> bool {
    forall|later: int| at < later < members.len() ==> (#[trigger] members[later]).0 != members[at].0
}

/// Whether no key occurs twice in `entries`.
pub open spec fn distinct_keys<T>(entries: Seq<(String, T)>) -> bool {
    forall|i: int, j: int|
        0 <= i < j < entries.len() ==> (#[trigger] entries[i]).0@ != (#[trigger] entries[j]).0@
}

/// Looking up the key of a member that is the last of its key finds that
/// member.
pub proof fn lemma_lookup_finds_last(members: Seq<(Seq<char>, JsonValue)>, at: int)
    requires
        0 <= at < members.len(),
        is_last_of_its_key(members, at),
    ensures
        lookup(members, members[at].0) == Some(members[at].1),
    decreases members.len(),
{
    if at == members.len() - 1 {
    } else {
        let shorter = members.drop_last();
        assert(members.last() == members[members.len() - 1]);
        assert forall|later: int| at < later < shorter.len() implies (#[trigger] shorter[later]).0
            != shorter[at].0 by {
            assert(shorter[later] == members[later]);
        }
        lemma_lookup_finds_last(shorter, at);
    }
}

/// Every member is followed, at its own place or later, by the last member
/// of its key.
pub proof fn lemma_last_of_key_exists(members: Seq<(Seq<char>, JsonValue)>, at: int) -> (last: int)
    requires
        0 <= at < members.len(),
    ensures
        at <= last < members.len(),
        members[last].0 == members[at].0,
        is_last_of_its_key(members, last),
    decreases members.len() - at,
{
    if is_last_of_its_key(members, at) {
        at
    } else {
        let later = choose|later: int|
            at < later < members.len() && (#[trigger] members[later]).0 == members[at].0;
        lemma_last_of_key_exists(members, later)
    }
}

/// Whether a later member of `members` than the one at `at` has its key.
fn has_later_twin(members: &Vec<(String, Json)>, at: usize) -> (r: bool)
    requires
        at < members.len(),
    ensures
        r == !is_last_of_its_key(members_of(members@), at as int),
{
    let ghost models = members_of(members@);
    let mut later: usize = at + 1;
    while later < members.len()
        invariant
            at < later <= members.len(),
            models == members_of(members@),
            forall|seen: int| at < seen < later ==> (#[trigger] models[seen]).0 != models[at as int].0,
        decreases members.len() - later,
    {
        if members[later].0 == members[at].0 {
            assert(models[later as int].0 == models[at as int].0);
            return true;
        }
        later += 1;
    }
    false
}

/// An object read as a map from its keys: one entry for each key, in the
/// order in which the keys end, with the value of the last member of that
/// key. No key occurs twice in what is read.
impl<T: FromJson> FromJson for Vec<(String, T)> {
    open spec fn fits(value: JsonValue) -> bool {
        value matches JsonValue::Object(members) && forall|i: int|
            0 <= i < members.len() ==> T::fits((#[trigger] members[i]).1)
    }

    open spec fn decodes(value: JsonValue, decoded: Vec<(String, T)>) -> bool {
        &&& value matches JsonValue::Object(members)
        &&& distinct_keys(decoded@)
        &&& forall|j: int|
            0 <= j < decoded@.len() ==> (lookup(members, (#[trigger] decoded@[j]).0@) matches Some(
                found,
            ) && T::decodes(found, decoded@[j].1))
        &&& forall|i: int|
            0 <= i < members.len() ==> exists|j: int|
                0 <= j < decoded@.len() && (#[trigger] decoded@[j]).0@ == (#[trigger] members[i]).0
    }

    fn from_json(value: &Json) -> (r: Option<Vec<(String, T)>>) {
        let members = match value.as_object() {
            Some(members) => members,
            None => {
                return None;
            },
        };
        let ghost models = members_of(members@);
        let ghost mut picked: Seq<int> = Seq::empty();
        let mut decoded: Vec<(String, T)> = Vec::new();
        let mut i: usize = 0;
        while i < members.len()
            invariant
                i <= members.len(),
                models == members_of(members@),
                value@ == JsonValue::Object(models),
                decoded@.len() == picked.len(),
                forall|p: int| 0 <= p < i ==> T::fits((#[trigger] models[p]).1),
                forall|j: int|
                    0 <= j < picked.len() ==> {
                        &&& 0 <= (#[trigger] picked[j]) < i
                        &&& is_last_of_its_key(models, picked[j])
                        &&& decoded@[j].0@ == models[picked[j]].0
                        &&& T::decodes(models[picked[j]].1, decoded@[j].1)
                    },
                forall|a: int, b: int|
                    0 <= a < b < picked.len() ==> (#[trigger] picked[a]) < (#[trigger] picked[b]),
                forall|p: int|
                    0 <= p < i && is_last_of_its_key(models, p) ==> exists|j: int|
                        0 <= j < picked.len() && #[trigger] picked[j] == p,
            decreases members.len() - i,
        {
            let item = match T::from_json(&members[i].1) {
                Some(item) => item,
                None => {
                    assert(value@->Object_0 == models);
                    assert(!T::fits(models[i as int].1));
                    return None;
                },
            };
            if !has_later_twin(members, i) {
                let ghost before = picked;
                decoded.push((members[i].0.clone(), item));
                proof {
                    picked = picked.push(i as int);
                    assert(picked[picked.len() - 1] == i);
                    assert forall|p: int|
                        0 <= p < i + 1 && is_last_of_its_key(models, p) implies exists|j: int|
                        0 <= j < picked.len() && #[trigger] picked[j] == p by {
                        if p < i {
                            let j = choose|j: int| 0 <= j < before.len() && #[trigger] before[j] == p;
                            assert(picked[j] == p);
                        } else {
                            assert(picked[picked.len() - 1] == p);
                        }
                    }
                }
            }
            i += 1;
        }
        proof {
            assert forall|a: int, b: int| 0 <= a < b < decoded@.len() implies (
            #[trigger] decoded@[a]).0@ != (#[trigger] decoded@[b]).0@ by {
                assert(picked[a] < picked[b]);
                assert(models[picked[b]].0 != models[picked[a]].0);
            }
            assert forall|j: int| 0 <= j < decoded@.len() implies (lookup(
                models,
                (#[trigger] decoded@[j]).0@,
            ) matches Some(found) && T::decodes(found, decoded@[j].1)) by {
                assert(0 <= picked[j] < models.len());
                lemma_lookup_finds_last(models, picked[j]);
            }
            assert forall|p: int| 0 <= p < models.len() implies exists|j: int|
                0 <= j < decoded@.len() && (#[trigger] decoded@[j]).0@ == (
                #[trigger] models[p]).0 by {
                let last = lemma_last_of_key_exists(models, p);
                let j = choose|j: int| 0 <= j < picked.len() && #[trigger] picked[j] == last;
                assert(decoded@[j].0@ == models[p].0);
            }
        }
        Some(decoded)
    }
}

/// The digit that a character stands for, if it is one of `0` to `9`.
pub open spec fn digit_of(c: char) -> Option<int> {
    if 48 <= c as u32 <= 57 {
        Some(c as u32 - 48)
    } else {
        None
    }
}

/// The number that a text of digits stands for in base ten; `None` where a
/// character is no digit.
pub open spec fn digits_value(text: Seq<char>) -> Option<int>
    decreases text.len(),
{
    if text.len() == 0 {
        Some(0)
    } else {
        match (digits_value(text.drop_last()), digit_of(text.last())) {
            (Some(high), Some(low)) => Some(10 * high + low),
            _ => None,
        }
    }
}

/// The index that a key stands for: the key is a number in base ten,
/// without a sign and without needless zeros in front, that fits a `usize`.
pub open spec fn index_of(key: Seq<char>) -> Option<usize> {
    if key.len() == 0 || (key.len() > 1 && key[0] == '0') {
        None
    } else {
        match digits_value(key) {
            Some(number) if number <= usize::MAX => Some(number as usize),
            _ => None,
        }
    }
}

/// A text of digits stands for at least as much as each of its beginnings,
/// and a beginning that is no number leaves the text none.
pub proof fn lemma_digits_grow(text: Seq<char>, upto: int)
    requires
        0 <= upto <= text.len(),
    ensures
        match digits_value(text) {
            Some(whole) => digits_value(text.subrange(0, upto)) matches Some(part) && 0 <= part
                <= whole,
            None => true,
        },
    decreases text.len(),
{
    if upto == text.len() {
        assert(text.subrange(0, upto) =~= text);
        if text.len() > 0 {
            lemma_digits_grow(text.drop_last(), upto - 1);
        }
    } else {
        assert(text.drop_last().subrange(0, upto) =~= text.subrange(0, upto));
        lemma_digits_grow(text.drop_last(), upto);
    }
}

/// Reads a key as an index.
pub fn parse_index(key: &str) -> (r: Option<usize>)
    ensures
        r == index_of(key@),
{
    let length = key.unicode_len();
    if length == 0 {
        return None;
    }
    if length > 1 && key.get_char(0) == '0' {
        return None;
    }
    let mut total: usize = 0;
    let mut i: usize = 0;
    assert(key@.subrange(0, 0) =~= Seq::<char>::empty());
    while i < length
        invariant
            i <= length,
            length == key@.len(),
            digits_value(key@.subrange(0, i as int)) == Some(total as int),
        decreases length - i,
    {
        let c = key.get_char(i);
        let code = c as u32;
        let ghost longer = key@.subrange(0, i + 1);
        assert(longer.drop_last() =~= key@.subrange(0, i as int));
        assert(longer.last() == c);
        proof {
            lemma_digits_grow(key@, i + 1);
        }
        if code < 48 || code > 57 {
            return None;
        }
        let digit = (code - 48) as usize;
        if total > (usize::MAX - digit) / 10 {
            return None;
        }
        total = total * 10 + digit;
        i += 1;
    }
    assert(key@.subrange(0, i as int) =~= key@);
    Some(total)
}

/// Whether no later member of `members` has a key that stands for the same
/// index as the key of member `at`.
pub open spec fn is_last_of_its_index(members: Seq<(Seq<char>, JsonValue)>, at: int) -> bool {
    forall|later: int|
        at < later < members.len() ==> index_of((#[trigger] members[later]).0) != index_of(
            members[at].0,
        )
}

/// An object read as a map from indices: every key is read as an index, and
/// under each index stands the value of the last member with that index.
impl<T: FromJson> FromJson for HashMap<usize, T> {
    open spec fn fits(value: JsonValue) -> bool {
        value matches JsonValue::Object(members) && forall|i: int|
            0 <= i < members.len() ==> index_of((#[trigger] members[i]).0) is Some && T::fits(
                members[i].1,
            )
    }

    open spec fn decodes(value: JsonValue, decoded: HashMap<usize, T>) -> bool {
        &&& value matches JsonValue::Object(members)
        &&& forall|i: int|
            0 <= i < members.len() ==> (index_of((#[trigger] members[i]).0) matches Some(index)
                && decoded@.contains_key(index))
        &&& forall|i: int|
            0 <= i < members.len() && is_last_of_its_index(members, i) ==> T::decodes(
                (#[trigger] members[i]).1,
                decoded@[index_of(members[i].0).unwrap()],
            )
        &&& forall|index: usize| #[trigger]
            decoded@.contains_key(index) ==> exists|i: int|
                0 <= i < members.len() && index_of((#[trigger] members[i]).0) == Some(index)
    }

    fn from_json(value: &Json) -> (r: Option<HashMap<usize, T>>) {
        broadcast use group_hash_axioms;

        let members = match value.as_object() {
            Some(members) => members,
            None => {
                return None;
            },
        };
        let ghost models = members_of(members@);
        let mut decoded: HashMap<usize, T> = HashMap::new();
        let mut i: usize = 0;
        while i < members.len()
            invariant
                i <= members.len(),
                models == members_of(members@),
                value@ == JsonValue::Object(models),
                forall|p: int|
                    0 <= p < i ==> (index_of((#[trigger] models[p]).0) matches Some(index)
                        && decoded@.contains_key(index) && T::fits(models[p].1)),
                forall|p: int|
                    0 <= p < i && (forall|later: int|
                        p < later < i ==> index_of((#[trigger] models[later]).0) != index_of(
                            models[p].0,
                        )) ==> T::decodes(
                        (#[trigger] models[p]).1,
                        decoded@[index_of(models[p].0).unwrap()],
                    ),
                forall|index: usize| #[trigger]
                    decoded@.contains_key(index) ==> exists|p: int|
                        0 <= p < i && index_of((#[trigger] models[p]).0) == Some(index),
            decreases members.len() - i,
        {
            let index = match parse_index(members[i].0.as_str()) {
                Some(index) => index,
                None => {
                    assert(value@->Object_0 == models);
                    assert(index_of(models[i as int].0) is None);
                    return None;
                },
            };
            let item = match T::from_json(&members[i].1) {
                Some(item) => item,
                None => {
                    assert(value@->Object_0 == models);
                    assert(!T::fits(models[i as int].1));
                    return None;
                },
            };
            let ghost before = decoded@;
            decoded.insert(index, item);
            proof {
                assert(decoded@ == before.insert(index, item));
                assert forall|p: int|
                    0 <= p < i + 1 && (forall|later: int|
                        p < later < i + 1 ==> index_of((#[trigger] models[later]).0) != index_of(
                            models[p].0,
                        )) implies T::decodes(
                    (#[trigger] models[p]).1,
                    decoded@[index_of(models[p].0).unwrap()],
                ) by {
                    if p < i {
                        assert(index_of(models[i as int].0) != index_of(models[p].0));
                        assert forall|later: int| p < later < i implies index_of(
                            (#[trigger] models[later]).0,
                        ) != index_of(models[p].0) by {}
                    }
                }
                assert forall|found: usize| #[trigger]
                    decoded@.contains_key(found) implies exists|p: int|
                    0 <= p < i + 1 && index_of((#[trigger] models[p]).0) == Some(found) by {
                    if found == index {
                        assert(index_of(models[i as int].0) == Some(found));
                    } else {
                        assert(before.contains_key(found));
                        let p = choose|p: int|
                            0 <= p < i && index_of((#[trigger] models[p]).0) == Some(found);
                        assert(index_of(models[p].0) == Some(found));
                    }
                }
            }
            i += 1;
        }
        proof {
            assert(value@->Object_0 == models);
        }
        Some(decoded)
    }
}

} // verus!
