//! Records on the wire: a fixed list of named fields, written as a JSON object
//! and read from an object by name or from an array by position.
use vstd::prelude::*;

use crate::json::{json_of, member, member_of, members, Json};

verus! {

/// The characters of each name of a list.
pub open spec fn names_of(names: Seq<&str>) -> Seq<Seq<char>> {
    names.map_values(|name: &str| name@)
}

/// No name occurs twice.
pub open spec fn distinct(names: Seq<Seq<char>>) -> bool {
    forall|i: int, j: int| 0 <= i < j < names.len() ==> names[i] != names[j]
}

/// Every member of `object` has one of the names.
pub open spec fn only_named(object: Map<Seq<char>, Json>, names: Seq<Seq<char>>) -> bool {
    forall|name: Seq<char>| #[trigger] object.contains_key(name) ==> names.contains(name)
}

/// `json` can be a record with the fields `names`: an object whose members all
/// have one of those names, or an array of at most that many elements.
pub open spec fn fits(json: Json, names: Seq<Seq<char>>) -> bool {
    match json {
        Json::Object(object) => only_named(object, names),
        Json::Array(elements) => elements.len() <= names.len(),
        _ => false,
    }
}

/// The field at `index` in the list `names`: the member of that name in an object,
/// the element at that index in an array.
pub open spec fn field(json: Json, names: Seq<Seq<char>>, index: int) -> Option<Json> {
    match json {
        Json::Object(object) => member_of(object, names[index]),
        Json::Array(elements) => if index < elements.len() {
            Some(elements[index])
        } else {
            None
        },
        _ => None,
    }
}

/// What a field that was looked up holds.
pub open spec fn found_json(found: Option<&serde_json::Value>) -> Option<Json> {
    match found {
        Some(value) => Some(json_of(*value)),
        None => None,
    }
}

/// An optional field: one that is absent and one that is `null` read the same.
pub open spec fn optional(field: Option<Json>) -> Option<Json> {
    match field {
        Some(json) if !(json is Null) => Some(json),
        _ => None,
    }
}

/// A field that holds a string.
pub open spec fn text_field(field: Option<Json>) -> Option<Seq<char>> {
    match field {
        Some(Json::Text(text)) => Some(text),
        _ => None,
    }
}

/// The object with one more member, or the same object where there is no value to
/// write.
pub open spec fn with_optional(
    object: Map<Seq<char>, Json>,
    name: Seq<char>,
    value: Option<Json>,
) -> Map<Seq<char>, Json> {
    match value {
        Some(value) => object.insert(name, value),
        None => object,
    }
}

/// The names among the first `count` that `object` has.
spec fn present(
    object: Map<Seq<char>, Json>,
    names: Seq<Seq<char>>,
    count: int,
) -> Set<Seq<char>>
    decreases count,
{
    if count <= 0 {
        Set::empty()
    } else if object.contains_key(names[count - 1]) {
        present(object, names, count - 1).insert(names[count - 1])
    } else {
        present(object, names, count - 1)
    }
}

proof fn lemma_present(object: Map<Seq<char>, Json>, names: Seq<Seq<char>>, count: int)
    requires
        0 <= count <= names.len(),
    ensures
        present(object, names, count).finite(),
        forall|name: Seq<char>| #[trigger]
            present(object, names, count).contains(name) <==> (object.contains_key(name)
                && exists|i: int| 0 <= i < count && names[i] == name),
    decreases count,
{
    if count > 0 {
        lemma_present(object, names, count - 1);
        let last = names[count - 1];
        assert forall|name: Seq<char>| #[trigger]
            present(object, names, count).contains(name) <==> (object.contains_key(name)
                && exists|i: int| 0 <= i < count && names[i] == name) by {
            if name == last {
                assert(names[count - 1] == name);
            }
        }
    }
}

/// Whether `value` can be a record with the fields `names`.
pub(crate) fn record_fits(value: &serde_json::Value, names: &Vec<&'static str>) -> (answer: bool)
    requires
        distinct(names_of(names@)),
    ensures
        answer == fits(json_of(*value), names_of(names@)),
{
    let ghost known = names_of(names@);
    if let Some(array) = value.as_array() {
        return array.len() <= names.len();
    }
    if let Some(object) = value.as_object() {
        let ghost table = members(*object);
        let mut seen: usize = 0;
        let mut i: usize = 0;
        while i < names.len()
            invariant
                i <= names.len(),
                seen <= i,
                known == names_of(names@),
                distinct(known),
                table == members(*object),
                present(table, known, i as int).finite(),
                present(table, known, i as int).len() == seen,
            decreases names.len() - i,
        {
            proof {
                lemma_present(table, known, i as int);
                assert(known[i as int] == names@[i as int]@);
            }
            if member(object, names[i]).is_some() {
                seen += 1;
            }
            i += 1;
        }
        let count: usize = object.len();
        proof {
            let found = present(table, known, i as int);
            assert(json_of(*value) == Json::Object(table));
            lemma_present(table, known, i as int);
            assert(found.subset_of(table.dom()));
            if seen == count {
                vstd::set_lib::lemma_subset_equality(found, table.dom());
                assert forall|name: Seq<char>| #[trigger]
                    table.contains_key(name) implies known.contains(name) by {
                    assert(found.contains(name));
                }
            } else if fits(json_of(*value), known) {
                assert(only_named(table, known));
                assert forall|name: Seq<char>| #[trigger]
                    table.dom().contains(name) implies found.contains(name) by {
                    assert(table.contains_key(name));
                    assert(known.contains(name));
                    let i = choose|i: int| 0 <= i < known.len() && known[i] == name;
                    assert(known[i] == name);
                }
                assert(found =~= table.dom());
            }
        }
        return seen == count;
    }
    false
}

/// The field called `name`, which stands at `index` in the list of fields.
pub(crate) fn record_field<'a>(
    value: &'a serde_json::Value,
    names: &Vec<&'static str>,
    index: usize,
) -> (found: Option<&'a serde_json::Value>)
    requires
        index < names@.len(),
    ensures
        found_json(found) == field(json_of(*value), names_of(names@), index as int),
{
    if let Some(array) = value.as_array() {
        if index < array.len() {
            return Some(&array[index]);
        }
        return None;
    }
    if let Some(object) = value.as_object() {
        return member(object, names[index]);
    }
    None
}

} // verus!
