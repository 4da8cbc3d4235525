//! Records of the protocol as their JSON texts have them.
//!
//! A `serde_json::Value` holds each member of an object once, while a text may have a
//! name twice. A record in which a field occurs twice is refused, so this is looked at
//! before a text becomes a value. Only the record itself, the detail of an error and a
//! trace context have fields; what lies deeper is a payload, where the last of the
//! members with one name stands.
use vstd::prelude::*;

use crate::json::{
    array_value, json_of, jsons_of, member, member_of, members, no_members, object_value,
    payload_of, Json,
};
use crate::jsonrpc_laws::unknown_members_are_refused;
use crate::jsonrpc_lite::{
    error_names, message_from_json, request_names, response_names, trace_names,
};
use crate::messages::entries_of;
use crate::record::distinct;

verus! {

/// A member or an element of a record: the members of an object in the order of the
/// text, or any other value.
#[derive(Debug, Clone)]
pub enum WirePart {
    Object(Vec<(String, serde_json::Value)>),
    Other(serde_json::Value),
}

/// The text of a record: the members of an object in the order of the text, the
/// elements of an array, or any other value.
#[derive(Debug, Clone)]
pub enum WireNode {
    Object(Vec<(String, WirePart)>),
    Array(Vec<WirePart>),
    Other(serde_json::Value),
}

/// What a [`WirePart`] holds.
pub enum PartView {
    Object(Seq<(Seq<char>, Json)>),
    Other(Json),
}

/// What a [`WireNode`] holds.
pub enum NodeView {
    Object(Seq<(Seq<char>, PartView)>),
    Array(Seq<PartView>),
    Other(Json),
}

impl View for WirePart {
    type V = PartView;

    open spec fn view(&self) -> PartView {
        match self {
            WirePart::Object(entries) => PartView::Object(entries_of(entries@)),
            WirePart::Other(value) => PartView::Other(json_of(*value)),
        }
    }
}

impl View for WireNode {
    type V = NodeView;

    open spec fn view(&self) -> NodeView {
        match self {
            WireNode::Object(entries) => NodeView::Object(
                entries@.map_values(|entry: (String, WirePart)| (entry.0@, entry.1@)),
            ),
            WireNode::Array(parts) => NodeView::Array(parts@.map_values(|part: WirePart| part@)),
            WireNode::Other(value) => NodeView::Other(json_of(*value)),
        }
    }
}

// ---------------------------------------------------------------------------
// The model

/// The names of the members, in their order.
pub open spec fn entry_names<T>(entries: Seq<(Seq<char>, T)>) -> Seq<Seq<char>> {
    entries.map_values(|entry: (Seq<char>, T)| entry.0)
}

/// The object with these members: of those with one name, the last stands.
pub open spec fn table(entries: Seq<(Seq<char>, Json)>) -> Map<Seq<char>, Json>
    decreases entries.len(),
{
    if entries.len() == 0 {
        no_members()
    } else {
        table(entries.drop_last()).insert(entries.last().0, entries.last().1)
    }
}

/// `name` occurs more than once.
pub open spec fn occurs_twice(names: Seq<Seq<char>>, name: Seq<char>) -> bool {
    exists|i: int, j: int| 0 <= i < j < names.len() && names[i] == name && names[j] == name
}

/// A part as a payload.
pub open spec fn payload_part(part: PartView) -> Json {
    match part {
        PartView::Object(entries) => Json::Object(table(entries)),
        PartView::Other(json) => json,
    }
}

/// A part as the detail of an error: no member occurs twice.
pub open spec fn error_part(part: PartView) -> Option<Json> {
    match part {
        PartView::Object(entries) if !distinct(entry_names(entries)) => None,
        _ => Some(payload_part(part)),
    }
}

/// A part as a trace context: neither field occurs twice, and other members are of no
/// account.
pub open spec fn trace_part(part: PartView) -> Option<Json> {
    match part {
        PartView::Object(entries) if occurs_twice(entry_names(entries), trace_names()[0])
            || occurs_twice(entry_names(entries), trace_names()[1]) => None,
        _ => Some(payload_part(part)),
    }
}

/// A member of a record.
pub open spec fn named_part(entry: (Seq<char>, PartView)) -> Option<Json> {
    if entry.0 == "error"@ {
        error_part(entry.1)
    } else if entry.0 == "trace"@ {
        trace_part(entry.1)
    } else {
        Some(payload_part(entry.1))
    }
}

/// An element of a record that is an array. The detail of an error stands first in an
/// error response, and the trace context fourth in a request.
pub open spec fn placed_part(index: int, part: PartView) -> Option<Json> {
    if index == 0 {
        error_part(part)
    } else if index == 3 {
        trace_part(part)
    } else {
        Some(payload_part(part))
    }
}

/// The members of a record, where each can be read.
pub open spec fn named_parts(entries: Seq<(Seq<char>, PartView)>) -> Seq<(Seq<char>, Json)> {
    entries.map_values(|entry: (Seq<char>, PartView)| (entry.0, named_part(entry)->0))
}

/// The elements of a record, where each can be read.
pub open spec fn placed_parts(parts: Seq<PartView>) -> Seq<Json> {
    parts.map(|index: int, part: PartView| placed_part(index, part)->0)
}

/// Each member of a record can be read.
pub open spec fn all_named(entries: Seq<(Seq<char>, PartView)>) -> bool {
    forall|i: int| 0 <= i < entries.len() ==> named_part(#[trigger] entries[i]) is Some
}

/// Each element of a record can be read.
pub open spec fn all_placed(parts: Seq<PartView>) -> bool {
    forall|i: int| 0 <= i < parts.len() ==> placed_part(i, #[trigger] parts[i]) is Some
}

/// The value of a record, or `None` where a member of the record or of its error, or
/// a field of its trace, occurs twice.
pub open spec fn record_of(node: NodeView) -> Option<Json> {
    match node {
        NodeView::Object(entries) => if distinct(entry_names(entries)) && all_named(entries) {
            Some(Json::Object(table(named_parts(entries))))
        } else {
            None
        },
        NodeView::Array(parts) => if all_placed(parts) {
            Some(Json::Array(placed_parts(parts)))
        } else {
            None
        },
        NodeView::Other(json) => Some(json),
    }
}

// ---------------------------------------------------------------------------
// Reading

proof fn lemma_table_names(entries: Seq<(Seq<char>, Json)>, name: Seq<char>)
    ensures
        table(entries).contains_key(name) <==> exists|i: int|
            0 <= i < entries.len() && #[trigger] entries[i].0 == name,
    decreases entries.len(),
{
    if entries.len() > 0 {
        let before = entries.drop_last();
        lemma_table_names(before, name);
        if table(before).contains_key(name) {
            let i = choose|i: int| 0 <= i < before.len() && #[trigger] before[i].0 == name;
            assert(entries[i].0 == name);
        }
        if entries.last().0 == name {
            assert(entries[entries.len() - 1].0 == name);
        }
        if exists|i: int| 0 <= i < entries.len() && #[trigger] entries[i].0 == name {
            let i = choose|i: int| 0 <= i < entries.len() && #[trigger] entries[i].0 == name;
            if i < before.len() {
                assert(before[i].0 == name);
            }
        }
    }
}

/// The members, where no name occurs twice.
fn sole_members(entries: &Vec<(String, serde_json::Value)>) -> (found: Option<
    serde_json::Map<String, serde_json::Value>,
>)
    ensures
        match found {
            Some(map) => distinct(entry_names(entries_of(entries@))) && members(map) == table(
                entries_of(entries@),
            ),
            None => !distinct(entry_names(entries_of(entries@))),
        },
{
    let ghost all = entries_of(entries@);
    let ghost names = entry_names(all);
    let mut map: serde_json::Map<String, serde_json::Value> = serde_json::Map::new();
    let mut i: usize = 0;
    while i < entries.len()
        invariant
            i <= entries.len(),
            all == entries_of(entries@),
            names == entry_names(all),
            members(map) == table(all.take(i as int)),
            distinct(names.take(i as int)),
        decreases entries.len() - i,
    {
        let ghost before = all.take(i as int);
        let ghost next = all.take(i + 1);
        proof {
            assert(next.drop_last() =~= before);
            assert(next.last() == (entries@[i as int].0@, json_of(entries@[i as int].1)));
            lemma_table_names(before, names[i as int]);
        }
        if member(&map, entries[i].0.as_str()).is_some() {
            proof {
                let k = choose|k: int|
                    0 <= k < before.len() && #[trigger] before[k].0 == names[i as int];
                assert(names[k] == names[i as int]);
            }
            return None;
        }
        proof {
            assert forall|k: int| 0 <= k < i implies names[k] != names[i as int] by {
                assert(before[k].0 == names[k]);
            }
        }
        map.insert(entries[i].0.clone(), entries[i].1.clone());
        i += 1;
    }
    assert(all.take(i as int) =~= all);
    assert(names.take(i as int) =~= names);
    Some(map)
}

/// The members, of which the last with each name stands.
fn last_members(entries: &Vec<(String, serde_json::Value)>) -> (map: serde_json::Map<
    String,
    serde_json::Value,
>)
    ensures
        members(map) == table(entries_of(entries@)),
{
    let ghost all = entries_of(entries@);
    let mut map: serde_json::Map<String, serde_json::Value> = serde_json::Map::new();
    let mut i: usize = 0;
    while i < entries.len()
        invariant
            i <= entries.len(),
            all == entries_of(entries@),
            members(map) == table(all.take(i as int)),
        decreases entries.len() - i,
    {
        proof {
            let next = all.take(i + 1);
            assert(next.drop_last() =~= all.take(i as int));
            assert(next.last() == (entries@[i as int].0@, json_of(entries@[i as int].1)));
        }
        map.insert(entries[i].0.clone(), entries[i].1.clone());
        i += 1;
    }
    assert(all.take(i as int) =~= all);
    map
}

/// Whether a member called `name` occurs more than once.
fn has_twice(entries: &Vec<(String, serde_json::Value)>, name: &str) -> (answer: bool)
    ensures
        answer == occurs_twice(entry_names(entries_of(entries@)), name@),
{
    let ghost names = entry_names(entries_of(entries@));
    let wanted = name.to_string();
    let mut seen = false;
    let mut i: usize = 0;
    while i < entries.len()
        invariant
            i <= entries.len(),
            names == entry_names(entries_of(entries@)),
            wanted@ == name@,
            seen <==> exists|k: int| 0 <= k < i && #[trigger] names[k] == name@,
            !occurs_twice(names.take(i as int), name@),
        decreases entries.len() - i,
    {
        proof {
            assert(names[i as int] == entries@[i as int].0@);
        }
        if entries[i].0 == wanted {
            if seen {
                proof {
                    let k = choose|k: int| 0 <= k < i && #[trigger] names[k] == name@;
                    assert(names[k] == name@ && names[i as int] == name@);
                }
                return true;
            }
            seen = true;
        }
        proof {
            let next = names.take(i + 1);
            let before = names.take(i as int);
            assert forall|a: int, b: int|
                0 <= a < b < next.len() && #[trigger] next[a] == name@ implies #[trigger] next[b]
                != name@ by {
                assert(names[a] == name@);
                if b < i {
                    assert(before[a] == next[a] && before[b] == next[b]);
                }
            }
        }
        i += 1;
    }
    assert(names.take(i as int) =~= names);
    false
}

fn payload_value(part: &WirePart) -> (value: serde_json::Value)
    ensures
        json_of(value) == payload_part(part@),
{
    match part {
        WirePart::Object(entries) => object_value(last_members(entries)),
        WirePart::Other(value) => value.clone(),
    }
}

fn error_value(part: &WirePart) -> (value: Option<serde_json::Value>)
    ensures
        payload_of(value) == error_part(part@),
{
    match part {
        WirePart::Object(entries) => match sole_members(entries) {
            Some(map) => Some(object_value(map)),
            None => None,
        },
        WirePart::Other(value) => Some(value.clone()),
    }
}

/// The value of a trace context, or `None` where one of its fields occurs twice.
pub fn trace_value(part: &WirePart) -> (value: Option<serde_json::Value>)
    ensures
        payload_of(value) == trace_part(part@),
{
    if let WirePart::Object(entries) = part {
        if has_twice(entries, "traceparent") || has_twice(entries, "tracestate") {
            return None;
        }
    }
    Some(payload_value(part))
}

/// The value of a record, or `None` where a member of the record or of its error, or
/// a field of its trace, occurs twice.
pub fn record_value(node: &WireNode) -> (value: Option<serde_json::Value>)
    ensures
        payload_of(value) == record_of(node@),
{
    match node {
        WireNode::Object(entries) => object_record(entries),
        WireNode::Array(parts) => array_record(parts),
        WireNode::Other(value) => Some(value.clone()),
    }
}

fn object_record(entries: &Vec<(String, WirePart)>) -> (value: Option<serde_json::Value>)
    ensures
        payload_of(value) == record_of(WireNode::Object(*entries)@),
{
    let ghost all = WireNode::Object(*entries)@->Object_0;
    let error_name = "error".to_string();
    let trace_name = "trace".to_string();
    let mut read: Vec<(String, serde_json::Value)> = Vec::new();
    let mut i: usize = 0;
    while i < entries.len()
        invariant
            i <= entries.len(),
            all == WireNode::Object(*entries)@->Object_0,
            error_name@ == "error"@,
            trace_name@ == "trace"@,
            all_named(all.take(i as int)),
            entries_of(read@) == named_parts(all.take(i as int)),
        decreases entries.len() - i,
    {
        let part = &entries[i].1;
        proof {
            assert(all[i as int] == (entries@[i as int].0@, part@));
        }
        let value = if entries[i].0 == error_name {
            error_value(part)
        } else if entries[i].0 == trace_name {
            trace_value(part)
        } else {
            Some(payload_value(part))
        };
        match value {
            Some(value) => {
                let ghost before = read@;
                read.push((entries[i].0.clone(), value));
                proof {
                    assert(all.take(i + 1) =~= all.take(i as int).push(all[i as int]));
                    assert(entries_of(read@) =~= entries_of(before).push(
                        (all[i as int].0, json_of(value)),
                    ));
                    assert(named_parts(all.take(i + 1)) =~= named_parts(all.take(i as int)).push(
                        (all[i as int].0, json_of(value)),
                    ));
                }
            },
            None => {
                return None;
            },
        }
        i += 1;
    }
    proof {
        assert(all.take(i as int) =~= all);
        assert(entry_names(named_parts(all)) =~= entry_names(all));
    }
    match sole_members(&read) {
        Some(map) => Some(object_value(map)),
        None => None,
    }
}

fn array_record(parts: &Vec<WirePart>) -> (value: Option<serde_json::Value>)
    ensures
        payload_of(value) == record_of(WireNode::Array(*parts)@),
{
    let ghost all = WireNode::Array(*parts)@->Array_0;
    let mut read: Vec<serde_json::Value> = Vec::new();
    let mut i: usize = 0;
    while i < parts.len()
        invariant
            i <= parts.len(),
            all == WireNode::Array(*parts)@->Array_0,
            all_placed(all.take(i as int)),
            jsons_of(read@) == placed_parts(all.take(i as int)),
        decreases parts.len() - i,
    {
        let part = &parts[i];
        proof {
            assert(all[i as int] == part@);
        }
        let value = if i == 0 {
            error_value(part)
        } else if i == 3 {
            trace_value(part)
        } else {
            Some(payload_value(part))
        };
        match value {
            Some(value) => {
                let ghost before = read@;
                read.push(value);
                proof {
                    assert(all.take(i + 1) =~= all.take(i as int).push(all[i as int]));
                    assert(jsons_of(read@) =~= jsons_of(before).push(json_of(value)));
                    assert(placed_parts(all.take(i + 1)) =~= placed_parts(
                        all.take(i as int),
                    ).push(json_of(value)));
                }
            },
            None => {
                return None;
            },
        }
        i += 1;
    }
    assert(all.take(i as int) =~= all);
    Some(array_value(read))
}

// ---------------------------------------------------------------------------
// Laws

/// Where no name occurs twice, the object has each member as it stands, and no other.
pub proof fn tables_keep_members(entries: Seq<(Seq<char>, Json)>, name: Seq<char>)
    requires
        distinct(entry_names(entries)),
    ensures
        forall|i: int|
            0 <= i < entries.len() ==> member_of(table(entries), (#[trigger] entries[i]).0)
                == Some(entries[i].1),
        member_of(table(entries), name) is Some <==> entry_names(entries).contains(name),
    decreases entries.len(),
{
    let names = entry_names(entries);
    lemma_table_names(entries, name);
    if names.contains(name) {
        let i = choose|i: int| 0 <= i < names.len() && names[i] == name;
        assert(entries[i].0 == name);
    }
    if table(entries).contains_key(name) {
        let i = choose|i: int| 0 <= i < entries.len() && #[trigger] entries[i].0 == name;
        assert(names[i] == name);
    }
    if entries.len() > 0 {
        let before = entries.drop_last();
        assert(entry_names(before) =~= names.drop_last());
        tables_keep_members(before, name);
        assert forall|i: int| 0 <= i < entries.len() implies member_of(
            table(entries),
            (#[trigger] entries[i]).0,
        ) == Some(entries[i].1) by {
            if i < entries.len() - 1 {
                assert(before[i] == entries[i]);
                assert(names[i] != names[entries.len() - 1]);
            }
        }
    }
}

/// A record that has a member twice is refused.
pub proof fn repeated_record_members_are_refused(
    entries: Seq<(Seq<char>, PartView)>,
    i: int,
    j: int,
)
    requires
        0 <= i < j < entries.len(),
        entries[i].0 == entries[j].0,
    ensures
        record_of(NodeView::Object(entries)) is None,
{
    let names = entry_names(entries);
    assert(names[i] == names[j]);
}

/// A record is refused where its error has a member twice, or its trace a field.
pub proof fn repeated_nested_fields_are_refused(
    entries: Seq<(Seq<char>, PartView)>,
    i: int,
    nested: Seq<(Seq<char>, Json)>,
    a: int,
    b: int,
)
    requires
        0 <= i < entries.len(),
        entries[i].1 == PartView::Object(nested),
        0 <= a < b < nested.len(),
        nested[a].0 == nested[b].0,
        entries[i].0 == "error"@ || entries[i].0 == "trace"@ && trace_names().contains(nested[a].0),
    ensures
        record_of(NodeView::Object(entries)) is None,
{
    reveal_strlit("error");
    reveal_strlit("trace");
    let names = entry_names(nested);
    assert(names[a] == names[b]);
    assert("error"@[0] != "trace"@[0]);
    if entries[i].0 == "trace"@ {
        let known = trace_names();
        assert(nested[a].0 == known[0] || nested[a].0 == known[1]);
        assert(occurs_twice(names, names[a]));
    }
    assert(named_part(entries[i]) is None);
}

/// Refusing every repeat refuses no message for the sake of a member that is no field:
/// an object with such a member is no message, whichever of the repeats stands.
pub proof fn other_repeats_are_no_messages(entries: Seq<(Seq<char>, Json)>, i: int)
    requires
        0 <= i < entries.len(),
        !request_names().contains(entries[i].0),
        !response_names().contains(entries[i].0),
        !error_names().contains(entries[i].0),
    ensures
        message_from_json(Json::Object(table(entries))) is None,
{
    lemma_table_names(entries, entries[i].0);
    unknown_members_are_refused(table(entries), entries[i].0);
}

/// Two of the members have the same name.
pub open spec fn has_repeat(entries: Seq<(String, serde_json::Value)>) -> bool {
    exists|i: int, j: int|
        0 <= i < j < entries.len() && #[trigger] entries[i].0@ == #[trigger] entries[j].0@
}

/// Two of the members are called `name`.
pub open spec fn repeats(entries: Seq<(String, serde_json::Value)>, name: Seq<char>) -> bool {
    exists|i: int, j: int|
        0 <= i < j < entries.len() && #[trigger] entries[i].0@ == name && #[trigger] entries[j].0@
            == name
}

/// The member at `i` is the last with its name.
pub open spec fn is_last(entries: Seq<(String, serde_json::Value)>, i: int) -> bool {
    &&& 0 <= i < entries.len()
    &&& forall|j: int| i < j < entries.len() ==> #[trigger] entries[j].0@ != entries[i].0@
}

/// The object has the names of the members and no other, and under each the value of the
/// last member with that name.
pub open spec fn has_the_last(
    object: Map<Seq<char>, Json>,
    entries: Seq<(String, serde_json::Value)>,
) -> bool {
    &&& forall|name: Seq<char>| #[trigger]
        object.contains_key(name) <==> exists|i: int|
            0 <= i < entries.len() && #[trigger] entries[i].0@ == name
    &&& forall|i: int| #[trigger]
        is_last(entries, i) ==> object[entries[i].0@] == json_of(entries[i].1)
}

/// `json` is the part as it was sent: an object stays an object with its members, and
/// anything else stays what it is.
pub open spec fn is_as_sent(json: Json, part: WirePart) -> bool {
    match part {
        WirePart::Object(entries) => json matches Json::Object(object) && has_the_last(
            object,
            entries@,
        ),
        WirePart::Other(value) => json == json_of(value),
    }
}

/// The part is an object with a member twice.
pub open spec fn repeats_a_member(part: WirePart) -> bool {
    part matches WirePart::Object(entries) && has_repeat(entries@)
}

/// The part is an object with a field of a trace context twice.
pub open spec fn repeats_a_trace_field(part: WirePart) -> bool {
    part matches WirePart::Object(entries) && (repeats(entries@, "traceparent"@) || repeats(
        entries@,
        "tracestate"@,
    ))
}

proof fn lemma_table_has_the_last(entries: Seq<(String, serde_json::Value)>)
    ensures
        has_the_last(table(entries_of(entries)), entries),
    decreases entries.len(),
{
    let all = entries_of(entries);
    let object = table(all);
    assert forall|name: Seq<char>| #[trigger] object.contains_key(name) <==> exists|i: int|
        0 <= i < entries.len() && #[trigger] entries[i].0@ == name by {
        lemma_table_names(all, name);
        if object.contains_key(name) {
            let i = choose|i: int| 0 <= i < all.len() && #[trigger] all[i].0 == name;
            assert(entries[i].0@ == name);
        }
        if exists|i: int| 0 <= i < entries.len() && #[trigger] entries[i].0@ == name {
            let i = choose|i: int| 0 <= i < entries.len() && #[trigger] entries[i].0@ == name;
            assert(all[i].0 == name);
        }
    }
    if entries.len() > 0 {
        let front = entries.drop_last();
        let n = entries.len() - 1;
        lemma_table_has_the_last(front);
        assert(entries_of(front) =~= all.drop_last());
        assert(all.last() == (entries[n].0@, json_of(entries[n].1)));
        assert forall|i: int| #[trigger] is_last(entries, i) implies object[entries[i].0@]
            == json_of(entries[i].1) by {
            if i < n {
                assert(entries[n].0@ != entries[i].0@);
                assert(front[i] == entries[i]);
                assert forall|j: int| i < j < front.len() implies #[trigger] front[j].0@
                    != front[i].0@ by {
                    assert(entries[j].0@ != entries[i].0@);
                }
                assert(is_last(front, i));
            }
        }
    }
}

proof fn lemma_parts_are_as_sent(part: WirePart)
    ensures
        is_as_sent(payload_part(part@), part),
        error_part(part@) is None <==> repeats_a_member(part),
        error_part(part@) matches Some(json) ==> is_as_sent(json, part),
        trace_part(part@) is None <==> repeats_a_trace_field(part),
        trace_part(part@) matches Some(json) ==> is_as_sent(json, part),
{
    if let WirePart::Object(entries) = part {
        lemma_table_has_the_last(entries@);
        lemma_repeat(entries);
        lemma_twice(entries, "traceparent"@);
        lemma_twice(entries, "tracestate"@);
    }
}

proof fn lemma_repeat(entries: Vec<(String, serde_json::Value)>)
    ensures
        distinct(entry_names(entries_of(entries@))) <==> !has_repeat(entries@),
{
    let names = entry_names(entries_of(entries@));
    assert(names.len() == entries@.len());
    assert forall|i: int| 0 <= i < names.len() implies #[trigger] names[i] == entries@[i].0@ by {}
    if !distinct(names) {
        let (i, j) = choose|i: int, j: int|
            0 <= i < j < names.len() && #[trigger] names[i] == #[trigger] names[j];
        assert(entries@[i].0@ == entries@[j].0@);
    }
    if has_repeat(entries@) {
        let (i, j) = choose|i: int, j: int|
            0 <= i < j < entries@.len() && #[trigger] entries@[i].0@ == #[trigger] entries@[j].0@;
        assert(names[i] == names[j]);
    }
}

proof fn lemma_twice(entries: Vec<(String, serde_json::Value)>, name: Seq<char>)
    ensures
        occurs_twice(entry_names(entries_of(entries@)), name) <==> repeats(entries@, name),
{
    let names = entry_names(entries_of(entries@));
    assert forall|i: int| 0 <= i < names.len() implies #[trigger] names[i] == entries@[i].0@ by {}
    if occurs_twice(names, name) {
        let (i, j) = choose|i: int, j: int|
            0 <= i < j < names.len() && names[i] == name && names[j] == name;
        assert(entries@[i].0@ == name && entries@[j].0@ == name);
    }
    if repeats(entries@, name) {
        let (i, j) = choose|i: int, j: int|
            0 <= i < j < entries@.len() && #[trigger] entries@[i].0@ == name
                && #[trigger] entries@[j].0@ == name;
        assert(names[i] == name && names[j] == name);
    }
}

/// A record that is an object is read exactly when no member occurs twice, in it or in
/// its error, and no field of its trace. It then has the names that were sent and no
/// other, and each member is as it was sent.
pub proof fn record_objects_are_as_sent(
    entries: Vec<(String, WirePart)>,
    value: Option<serde_json::Value>,
)
    requires
        payload_of(value) == record_of(WireNode::Object(entries)@),
    ensures
        value is None <==> {
            ||| exists|i: int, j: int|
                0 <= i < j < entries@.len() && #[trigger] entries@[i].0@
                    == #[trigger] entries@[j].0@
            ||| exists|i: int|
                0 <= i < entries@.len() && #[trigger] entries@[i].0@ == "error"@
                    && repeats_a_member(entries@[i].1)
            ||| exists|i: int|
                0 <= i < entries@.len() && #[trigger] entries@[i].0@ == "trace"@
                    && repeats_a_trace_field(entries@[i].1)
        },
        value matches Some(value) ==> {
            &&& json_of(value) matches Json::Object(object)
            &&& forall|name: Seq<char>| #[trigger]
                object.contains_key(name) <==> exists|i: int|
                    0 <= i < entries@.len() && #[trigger] entries@[i].0@ == name
            &&& forall|i: int|
                0 <= i < entries@.len() ==> is_as_sent(
                    object[#[trigger] entries@[i].0@],
                    entries@[i].1,
                )
        },
{
    reveal_strlit("error");
    reveal_strlit("trace");
    assert("error"@[0] != "trace"@[0]);
    let all = WireNode::Object(entries)@->Object_0;
    let names = entry_names(all);
    assert forall|i: int| 0 <= i < all.len() implies names[i] == entries@[i].0@
        && #[trigger] all[i] == (entries@[i].0@, entries@[i].1@) by {}
    assert forall|i: int| 0 <= i < entries@.len() implies {
        &&& named_part(all[i]) is None <==> (#[trigger] entries@[i].0@ == "error"@
            && repeats_a_member(entries@[i].1) || entries@[i].0@ == "trace"@
            && repeats_a_trace_field(entries@[i].1))
        &&& named_part(all[i]) matches Some(json) ==> is_as_sent(json, entries@[i].1)
    } by {
        lemma_parts_are_as_sent(entries@[i].1);
        assert(all[i] == (entries@[i].0@, entries@[i].1@));
    }
    if !distinct(names) {
        let (i, j) = choose|i: int, j: int|
            0 <= i < j < names.len() && #[trigger] names[i] == #[trigger] names[j];
        assert(all[i].0 == names[i] && all[j].0 == names[j]);
        assert(entries@[i].0@ == entries@[j].0@);
    }
    if exists|i: int, j: int|
        0 <= i < j < entries@.len() && #[trigger] entries@[i].0@ == #[trigger] entries@[j].0@ {
        let (i, j) = choose|i: int, j: int|
            0 <= i < j < entries@.len() && #[trigger] entries@[i].0@ == #[trigger] entries@[j].0@;
        assert(all[i].0 == names[i] && all[j].0 == names[j]);
        assert(names[i] == names[j]);
    }
    if !all_named(all) {
        let i = choose|i: int| 0 <= i < all.len() && named_part(#[trigger] all[i]) is None;
        assert(entries@[i].0@ == all[i].0);
    }
    if let Some(value) = value {
        let read = named_parts(all);
        let object = table(read);
        assert(json_of(value) == Json::Object(object));
        assert(entry_names(read) =~= names);
        assert forall|name: Seq<char>| #[trigger] object.contains_key(name) <==> exists|i: int|
            0 <= i < entries@.len() && #[trigger] entries@[i].0@ == name by {
            lemma_table_names(read, name);
            if object.contains_key(name) {
                let i = choose|i: int| 0 <= i < read.len() && #[trigger] read[i].0 == name;
                assert(all[i].0 == entries@[i].0@);
            }
            if exists|i: int| 0 <= i < entries@.len() && #[trigger] entries@[i].0@ == name {
                let i = choose|i: int|
                    0 <= i < entries@.len() && #[trigger] entries@[i].0@ == name;
                assert(all[i].0 == name);
                assert(read[i].0 == name);
            }
        }
        tables_keep_members(read, Seq::empty());
        assert forall|i: int| 0 <= i < entries@.len() implies is_as_sent(
            object[#[trigger] entries@[i].0@],
            entries@[i].1,
        ) by {
            assert(all[i].0 == entries@[i].0@);
            assert(named_part(all[i]) is Some);
            assert(read[i] == (all[i].0, named_part(all[i])->0));
            assert(member_of(object, read[i].0) == Some(read[i].1));
        }
    }
}

/// A record that is an array is read exactly when its first element has no member twice
/// and its fourth no field of a trace. It then has its elements in their order, each as it
/// was sent.
pub proof fn record_arrays_are_as_sent(parts: Vec<WirePart>, value: Option<serde_json::Value>)
    requires
        payload_of(value) == record_of(WireNode::Array(parts)@),
    ensures
        value is None <==> {
            ||| parts@.len() > 0 && repeats_a_member(parts@[0])
            ||| parts@.len() > 3 && repeats_a_trace_field(parts@[3])
        },
        value matches Some(value) ==> {
            &&& json_of(value) matches Json::Array(elements)
            &&& elements.len() == parts@.len()
            &&& forall|i: int|
                0 <= i < parts@.len() ==> is_as_sent(#[trigger] elements[i], parts@[i])
        },
{
    let all = WireNode::Array(parts)@->Array_0;
    assert forall|i: int| 0 <= i < all.len() implies {
        &&& #[trigger] all[i] == parts@[i]@
        &&& placed_part(i, all[i]) is None <==> (i == 0 && repeats_a_member(parts@[i]) || i == 3
            && repeats_a_trace_field(parts@[i]))
        &&& placed_part(i, all[i]) matches Some(json) ==> is_as_sent(json, parts@[i])
    } by {
        lemma_parts_are_as_sent(parts@[i]);
    }
    if parts@.len() > 0 {
        assert(all[0] == parts@[0]@);
    }
    if parts@.len() > 3 {
        assert(all[3] == parts@[3]@);
    }
    if let Some(value) = value {
        let elements = placed_parts(all);
        assert(json_of(value) == Json::Array(elements));
        assert forall|i: int| 0 <= i < parts@.len() implies is_as_sent(
            #[trigger] elements[i],
            parts@[i],
        ) by {
            assert(all[i] == parts@[i]@);
            assert(elements[i] == placed_part(i, all[i])->0);
        }
    }
}

/// A record that is neither is read as it is. A trace context by itself is read exactly
/// when none of its fields occurs twice, and then as it was sent.
pub proof fn other_records_and_traces_are_as_sent(
    json: serde_json::Value,
    value: Option<serde_json::Value>,
    part: WirePart,
    trace: Option<serde_json::Value>,
)
    requires
        payload_of(value) == record_of(WireNode::Other(json)@),
        payload_of(trace) == trace_part(part@),
    ensures
        value matches Some(value) && json_of(value) == json_of(json),
        trace is None <==> repeats_a_trace_field(part),
        trace matches Some(trace) ==> is_as_sent(json_of(trace), part),
{
    lemma_parts_are_as_sent(part);
}

/// The payload of a record is what was sent: under `params` and under `result` stands an
/// object exactly where an object was sent, with the members that it was sent with, so
/// that one without members has none, and anything else is itself.
pub proof fn payloads_are_kept(
    entries: Vec<(String, WirePart)>,
    value: serde_json::Value,
    i: int,
)
    requires
        payload_of(Some(value)) == record_of(WireNode::Object(entries)@),
        0 <= i < entries@.len(),
        entries@[i].0@ == "params"@ || entries@[i].0@ == "result"@,
    ensures
        json_of(value) matches Json::Object(object) && object.contains_key(entries@[i].0@)
            && match entries@[i].1 {
            WirePart::Object(sent) => {
                &&& object[entries@[i].0@] matches Json::Object(payload)
                &&& has_the_last(payload, sent@)
                &&& sent@.len() == 0 ==> payload == Map::<Seq<char>, Json>::empty()
            },
            WirePart::Other(sent) => object[entries@[i].0@] == json_of(sent),
        },
{
    record_objects_are_as_sent(entries, Some(value));
    let object = json_of(value)->Object_0;
    assert(is_as_sent(object[entries@[i].0@], entries@[i].1));
    assert(object.contains_key(entries@[i].0@));
    if let WirePart::Object(sent) = entries@[i].1 {
        if sent@.len() == 0 {
            let payload = object[entries@[i].0@]->Object_0;
            assert(payload =~= Map::<Seq<char>, Json>::empty());
        }
    }
}

} // verus!
