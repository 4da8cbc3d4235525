//! What travels over a participant's socket.
//!
//! A message is a JSON object whose `type` member says which message it is.
use vstd::prelude::*;

use crate::json::{
    json_of, json_text, jsons_of, lemma_text_array, text_array, text_array_value, text_value,
    value_text, Json,
};
use crate::quoting::{
    arrays_are_written_in_order, bracketed, bracketed_texts_differ, comma_parts, quoted,
    quoted_texts_differ,
};
use crate::text::{text_of, texts_are_those_of_the_strings, texts_of};

verus! {

/// A message to a participant.
#[derive(Debug, Clone)]
pub enum ServerMessage {
    /// The transcript so far.
    Snapshot { lines: Vec<String> },
    /// Lines that were added to the transcript.
    Transcript { lines: Vec<String> },
    /// A note from the session itself.
    System { text: String },
}

/// A message from a participant.
#[derive(Debug, Clone, PartialEq, Eq)]
pub enum ClientMessage {
    Chat { name: String, text: String },
}

/// The top level of a JSON text that a participant sent: the members of an object in
/// the order of the text, where a name may occur more than once, or the elements
/// of an array.
#[derive(Debug, Clone)]
pub enum ClientFrame {
    Object(Vec<(String, serde_json::Value)>),
    Array(Vec<serde_json::Value>),
}

/// What a [`ServerMessage`] is.
pub enum ServerMessageView {
    Snapshot { lines: Seq<Seq<char>> },
    Transcript { lines: Seq<Seq<char>> },
    System { text: Seq<char> },
}

/// What a [`ClientMessage`] is.
pub enum ClientMessageView {
    Chat { name: Seq<char>, text: Seq<char> },
}

/// What a [`ClientFrame`] holds.
pub enum ClientFrameView {
    Object(Seq<(Seq<char>, Json)>),
    Array(Seq<Json>),
}

impl View for ServerMessage {
    type V = ServerMessageView;

    open spec fn view(&self) -> ServerMessageView {
        match self {
            ServerMessage::Snapshot { lines } => ServerMessageView::Snapshot {
                lines: texts_of(lines@),
            },
            ServerMessage::Transcript { lines } => ServerMessageView::Transcript {
                lines: texts_of(lines@),
            },
            ServerMessage::System { text } => ServerMessageView::System { text: text@ },
        }
    }
}

impl View for ClientMessage {
    type V = ClientMessageView;

    open spec fn view(&self) -> ClientMessageView {
        match self {
            ClientMessage::Chat { name, text } => ClientMessageView::Chat {
                name: name@,
                text: text@,
            },
        }
    }
}

/// The members of an object, by the characters of their names.
pub open spec fn entries_of(entries: Seq<(String, serde_json::Value)>) -> Seq<(Seq<char>, Json)> {
    entries.map_values(|entry: (String, serde_json::Value)| (entry.0@, json_of(entry.1)))
}

impl View for ClientFrame {
    type V = ClientFrameView;

    open spec fn view(&self) -> ClientFrameView {
        match self {
            ClientFrame::Object(entries) => ClientFrameView::Object(entries_of(entries@)),
            ClientFrame::Array(elements) => ClientFrameView::Array(jsons_of(elements@)),
        }
    }
}

// ---------------------------------------------------------------------------
// To a participant

/// What a message carries, as JSON.
pub open spec fn body_json(message: ServerMessageView) -> Json {
    match message {
        ServerMessageView::Snapshot { lines } => text_array(lines),
        ServerMessageView::Transcript { lines } => text_array(lines),
        ServerMessageView::System { text } => Json::Text(text),
    }
}

/// The text of a message up to what it carries.
pub open spec fn opening(message: ServerMessageView) -> Seq<char> {
    match message {
        ServerMessageView::Snapshot { .. } => "{\"type\":\"snapshot\",\"lines\":"@,
        ServerMessageView::Transcript { .. } => "{\"type\":\"transcript\",\"lines\":"@,
        ServerMessageView::System { .. } => "{\"type\":\"system\",\"text\":"@,
    }
}

/// The text of a message whose body has the text `body`.
pub open spec fn framed(message: ServerMessageView, body: Seq<char>) -> Seq<char> {
    opening(message) + body + "}"@
}

/// The JSON text of what a message carries.
pub open spec fn body_text(message: ServerMessageView) -> Seq<char> {
    match message {
        ServerMessageView::Snapshot { lines } => bracketed(lines),
        ServerMessageView::Transcript { lines } => bracketed(lines),
        ServerMessageView::System { text } => quoted(text),
    }
}

/// The text of a message.
pub open spec fn server_text(message: ServerMessageView) -> Seq<char> {
    framed(message, body_text(message))
}

impl ServerMessage {
    /// The text of the message, given the JSON text of what it carries.
    pub fn frame(&self, body: &str) -> (text: String)
        ensures
            text@ == framed(self@, body@),
    {
        let opening = match self {
            ServerMessage::Snapshot { .. } => "{\"type\":\"snapshot\",\"lines\":",
            ServerMessage::Transcript { .. } => "{\"type\":\"transcript\",\"lines\":",
            ServerMessage::System { .. } => "{\"type\":\"system\",\"text\":",
        };
        let mut text = opening.to_string();
        text.append(body);
        text.append("}");
        text
    }

    /// The text of the message. There always is one.
    pub fn to_text(&self) -> (text: Option<String>)
        ensures
            text_of(text) == Some(server_text(self@)),
    {
        let body = match self {
            ServerMessage::Snapshot { lines } => text_array_value(lines),
            ServerMessage::Transcript { lines } => text_array_value(lines),
            ServerMessage::System { text } => text_value(text.clone()),
        };
        proof {
            bodies_are_json(self@);
        }
        match value_text(&body) {
            Ok(body) => Some(self.frame(body.as_str())),
            Err(_) => None,
        }
    }
}

// ---------------------------------------------------------------------------
// From a participant

/// The values of the members called `name`, in their order.
pub open spec fn values_named(entries: Seq<(Seq<char>, Json)>, name: Seq<char>) -> Seq<Json>
    decreases entries.len(),
{
    if entries.len() == 0 {
        Seq::empty()
    } else {
        let before = values_named(entries.drop_last(), name);
        if entries.last().0 == name {
            before.push(entries.last().1)
        } else {
            before
        }
    }
}

/// The string of the member called `name`, where there is exactly one such member
/// and it holds a string.
pub open spec fn sole_text(entries: Seq<(Seq<char>, Json)>, name: Seq<char>) -> Option<Seq<char>> {
    let values = values_named(entries, name);
    if values.len() == 1 {
        string_of(values[0])
    } else {
        None
    }
}

/// The string that a value holds.
pub open spec fn string_of(json: Json) -> Option<Seq<char>> {
    match json {
        Json::Text(text) => Some(text),
        _ => None,
    }
}

/// The chat message with these three parts.
pub open spec fn chat(
    kind: Option<Seq<char>>,
    name: Option<Seq<char>>,
    text: Option<Seq<char>>,
) -> Option<ClientMessageView> {
    match (kind, name, text) {
        (Some(kind), Some(name), Some(text)) if kind == "chat"@ => Some(
            ClientMessageView::Chat { name, text },
        ),
        _ => None,
    }
}

/// The message that a frame holds: `type` must be `chat`, and `name` and `text` must
/// be strings. In an object each of the three must occur once, and other members
/// are not looked at. In an array the three stand in this order, alone.
pub open spec fn client_message(frame: ClientFrameView) -> Option<ClientMessageView> {
    match frame {
        ClientFrameView::Object(entries) => chat(
            sole_text(entries, "type"@),
            sole_text(entries, "name"@),
            sole_text(entries, "text"@),
        ),
        ClientFrameView::Array(elements) => if elements.len() == 3 {
            chat(string_of(elements[0]), string_of(elements[1]), string_of(elements[2]))
        } else {
            None
        },
    }
}

/// The characters of an optional string.
pub open spec fn optional_text(text: Option<&str>) -> Option<Seq<char>> {
    match text {
        Some(text) => Some(text@),
        None => None,
    }
}

/// The string of the member called `name`, where there is exactly one such member
/// and it holds a string.
fn find_sole_text<'a>(
    entries: &'a Vec<(String, serde_json::Value)>,
    name: &str,
) -> (text: Option<&'a str>)
    ensures
        optional_text(text) == sole_text(entries_of(entries@), name@),
{
    let ghost all = entries_of(entries@);
    let wanted = name.to_string();
    let mut found: Option<&'a serde_json::Value> = None;
    let mut i: usize = 0;
    while i < entries.len()
        invariant
            i <= entries.len(),
            all == entries_of(entries@),
            wanted@ == name@,
            match found {
                Some(value) => values_named(all.take(i as int), name@) == seq![json_of(*value)],
                None => values_named(all.take(i as int), name@).len() == 0,
            },
        decreases entries.len() - i,
    {
        let ghost before = all.take(i as int);
        let ghost next = all.take(i + 1);
        proof {
            assert(next.drop_last() =~= before);
            assert(next.last() == (entries@[i as int].0@, json_of(entries@[i as int].1)));
        }
        if entries[i].0 == wanted {
            if found.is_some() {
                proof {
                    lemma_more_entries(all, name@, i + 1, all.len() as int);
                    assert(all.take(all.len() as int) =~= all);
                }
                return None;
            }
            found = Some(&entries[i].1);
        }
        i += 1;
    }
    assert(all.take(i as int) =~= all);
    match found {
        Some(value) => value.as_str(),
        None => None,
    }
}

/// More members never take a value away.
proof fn lemma_more_entries(entries: Seq<(Seq<char>, Json)>, name: Seq<char>, a: int, b: int)
    requires
        0 <= a <= b <= entries.len(),
    ensures
        values_named(entries.take(a), name).len() <= values_named(entries.take(b), name).len(),
    decreases b,
{
    if a < b {
        assert(entries.take(b).drop_last() =~= entries.take(b - 1));
        lemma_more_entries(entries, name, a, b - 1);
    }
}

impl ClientMessage {
    /// Reads what a participant sent.
    pub fn from_frame(frame: &ClientFrame) -> (message: Option<ClientMessage>)
        ensures
            match message {
                Some(message) => client_message(frame@) == Some(message@),
                None => client_message(frame@) is None,
            },
    {
        let (kind, name, text) = match frame {
            ClientFrame::Object(entries) => (
                find_sole_text(entries, "type"),
                find_sole_text(entries, "name"),
                find_sole_text(entries, "text"),
            ),
            ClientFrame::Array(elements) => {
                if elements.len() != 3 {
                    return None;
                }
                (elements[0].as_str(), elements[1].as_str(), elements[2].as_str())
            },
        };
        match (kind, name, text) {
            (Some(kind), Some(name), Some(text)) => {
                if kind.to_string() == "chat".to_string() {
                    Some(ClientMessage::Chat { name: name.to_string(), text: text.to_string() })
                } else {
                    None
                }
            },
            _ => None,
        }
    }
}

// ---------------------------------------------------------------------------
// Laws

/// The names that a chat message is read by.
pub open spec fn chat_names() -> Seq<Seq<char>> {
    seq!["type"@, "name"@, "text"@]
}

proof fn reveal_chat_names()
    ensures
        "type"@ != "name"@,
        "type"@ != "text"@,
        "name"@ != "text"@,
{
    reveal_strlit("type");
    reveal_strlit("name");
    reveal_strlit("text");
    assert("type"@[1] == 'y' && "name"@[1] == 'a' && "text"@[1] == 'e');
}

/// What the page sends is read as the chat message that it is.
pub proof fn chat_objects_are_read(name: Seq<char>, text: Seq<char>)
    ensures
        client_message(
            ClientFrameView::Object(
                seq![
                    ("type"@, Json::Text("chat"@)),
                    ("name"@, Json::Text(name)),
                    ("text"@, Json::Text(text)),
                ],
            ),
        ) == Some(ClientMessageView::Chat { name, text }),
{
    reveal_chat_names();
    let kind_entry = ("type"@, Json::Text("chat"@));
    let name_entry = ("name"@, Json::Text(name));
    let text_entry = ("text"@, Json::Text(text));
    let three = seq![kind_entry, name_entry, text_entry];
    assert(three.drop_last() =~= seq![kind_entry, name_entry]);
    assert(three.drop_last().drop_last() =~= seq![kind_entry]);
    assert(three.drop_last().drop_last().drop_last() =~= Seq::empty());
    reveal_with_fuel(values_named, 4);
    assert(values_named(three, "type"@) =~= seq![Json::Text("chat"@)]);
    assert(values_named(three, "name"@) =~= seq![Json::Text(name)]);
    assert(values_named(three, "text"@) =~= seq![Json::Text(text)]);
}

proof fn lemma_values_move(
    before: Seq<(Seq<char>, Json)>,
    after: Seq<(Seq<char>, Json)>,
    name: Seq<char>,
)
    ensures
        values_named(before + after, name) == values_named(before, name) + values_named(
            after,
            name,
        ),
    decreases after.len(),
{
    if after.len() == 0 {
        assert(before + after =~= before);
        assert(values_named(before, name) + values_named(after, name) =~= values_named(
            before,
            name,
        ));
    } else {
        assert((before + after).drop_last() =~= before + after.drop_last());
        lemma_values_move(before, after.drop_last(), name);
        assert(values_named(before + after, name) =~= values_named(before, name) + values_named(
            after,
            name,
        ));
    }
}

/// A member with any other name makes no difference, wherever it stands.
pub proof fn other_members_are_ignored(
    before: Seq<(Seq<char>, Json)>,
    other: (Seq<char>, Json),
    after: Seq<(Seq<char>, Json)>,
)
    requires
        !chat_names().contains(other.0),
    ensures
        client_message(ClientFrameView::Object(before + seq![other] + after)) == client_message(
            ClientFrameView::Object(before + after),
        ),
{
    let names = chat_names();
    assert(names.contains(names[0]) && names.contains(names[1]) && names.contains(names[2]));
    assert forall|name: Seq<char>| #[trigger] names.contains(name) implies values_named(
        before + seq![other] + after,
        name,
    ) == values_named(before + after, name) by {
        lemma_values_move(before + seq![other], after, name);
        lemma_values_move(before, seq![other], name);
        lemma_values_move(before, after, name);
        reveal_with_fuel(values_named, 2);
        assert(seq![other].drop_last() =~= Seq::empty());
        assert(seq![other].last() == other);
        assert(values_named(seq![other], name) =~= Seq::empty());
        assert(values_named(before, name) + values_named(seq![other], name) =~= values_named(
            before,
            name,
        ));
    }
}

/// A chat message that says its type, its name or its text twice is not read.
pub proof fn repeated_members_are_refused(
    entries: Seq<(Seq<char>, Json)>,
    name: Seq<char>,
    i: int,
    j: int,
)
    requires
        chat_names().contains(name),
        0 <= i < j < entries.len(),
        entries[i].0 == name,
        entries[j].0 == name,
    ensures
        client_message(ClientFrameView::Object(entries)) is None,
{
    lemma_more_entries(entries, name, 0, i);
    assert(entries.take(i + 1).drop_last() =~= entries.take(i));
    lemma_more_entries(entries, name, i + 1, j);
    assert(entries.take(j + 1).drop_last() =~= entries.take(j));
    lemma_more_entries(entries, name, j + 1, entries.len() as int);
    assert(entries.take(entries.len() as int) =~= entries);
    let names = chat_names();
    assert(name == names[0] || name == names[1] || name == names[2]);
}

/// The text of a message tells which kind of message it is.
pub proof fn frames_tell_the_kind(
    one: ServerMessageView,
    two: ServerMessageView,
    body: Seq<char>,
    other: Seq<char>,
)
    requires
        framed(one, body) == framed(two, other),
    ensures
        one is Snapshot <==> two is Snapshot,
        one is Transcript <==> two is Transcript,
        one is System <==> two is System,
{
    reveal_strlit("{\"type\":\"snapshot\",\"lines\":");
    reveal_strlit("{\"type\":\"transcript\",\"lines\":");
    reveal_strlit("{\"type\":\"system\",\"text\":");
    assert(framed(one, body)[10] == opening(one)[10]);
    assert(framed(two, other)[10] == opening(two)[10]);
}

/// The text of what a message carries is the text of a JSON value.
pub proof fn bodies_are_json(message: ServerMessageView)
    ensures
        body_text(message) == json_text(body_json(message)),
{
    match message {
        ServerMessageView::Snapshot { lines } => lemma_text_array(lines),
        ServerMessageView::Transcript { lines } => lemma_text_array(lines),
        ServerMessageView::System { .. } => {},
    }
}

/// Different messages have different texts.
pub proof fn server_texts_tell_messages_apart(one: ServerMessageView, two: ServerMessageView)
    requires
        server_text(one) == server_text(two),
    ensures
        one == two,
{
    frames_tell_the_kind(one, two, body_text(one), body_text(two));
    let start = opening(one).len() as int;
    let end = server_text(one).len() - "}"@.len();
    assert(opening(one) == opening(two));
    assert(body_text(one) =~= server_text(one).subrange(start, end));
    assert(body_text(two) =~= server_text(two).subrange(start, end));
    match (one, two) {
        (ServerMessageView::Snapshot { lines: a }, ServerMessageView::Snapshot { lines: b }) => {
            bracketed_texts_differ(a, b);
        },
        (
            ServerMessageView::Transcript { lines: a },
            ServerMessageView::Transcript { lines: b },
        ) => {
            bracketed_texts_differ(a, b);
        },
        (ServerMessageView::System { text: a }, ServerMessageView::System { text: b }) => {
            quoted_texts_differ(a, b);
        },
        _ => {},
    }
}

/// The model of a message has what the message has, and nothing else.
pub proof fn messages_are_what_they_carry(message: ServerMessage)
    ensures
        match message {
            ServerMessage::Snapshot { lines } => message@ matches ServerMessageView::Snapshot {
                lines: model,
            } && model.len() == lines@.len() && forall|i: int|
                0 <= i < lines@.len() ==> #[trigger] model[i] == lines@[i]@,
            ServerMessage::Transcript { lines } => message@ matches ServerMessageView::Transcript {
                lines: model,
            } && model.len() == lines@.len() && forall|i: int|
                0 <= i < lines@.len() ==> #[trigger] model[i] == lines@[i]@,
            ServerMessage::System { text } => message@ == (ServerMessageView::System {
                text: text@,
            }),
        },
{
}

/// A message has a text. That of a snapshot or a transcript is an object with the type
/// and, in order, every line as a JSON string; that of a system message is an object
/// with the type and the note as a JSON string.
pub proof fn server_texts_have_every_line_in_order(message: ServerMessage, text: Option<String>)
    requires
        text_of(text) == Some(server_text(message@)),
    ensures
        text matches Some(text) && match message {
            ServerMessage::Snapshot { lines } => text@ == "{\"type\":\"snapshot\",\"lines\":"@
                + seq!['['] + comma_parts(lines@).flatten() + seq![']', '}'],
            ServerMessage::Transcript { lines } => text@
                == "{\"type\":\"transcript\",\"lines\":"@ + seq!['['] + comma_parts(
                lines@,
            ).flatten() + seq![']', '}'],
            ServerMessage::System { text: note } => text@ == "{\"type\":\"system\",\"text\":"@
                + quoted(note@) + seq!['}'],
        },
{
    texts_are_those_of_the_strings(Seq::empty(), text);
    reveal_strlit("}");
    assert("}"@ =~= seq!['}']);
    match message {
        ServerMessage::Snapshot { lines } => {
            texts_are_those_of_the_strings(lines@, None);
            arrays_are_written_in_order(lines@, texts_of(lines@));
            assert(text->0@ =~= "{\"type\":\"snapshot\",\"lines\":"@ + seq!['['] + comma_parts(
                lines@,
            ).flatten() + seq![']', '}']);
        },
        ServerMessage::Transcript { lines } => {
            texts_are_those_of_the_strings(lines@, None);
            arrays_are_written_in_order(lines@, texts_of(lines@));
            assert(text->0@ =~= "{\"type\":\"transcript\",\"lines\":"@ + seq!['[']
                + comma_parts(lines@).flatten() + seq![']', '}']);
        },
        ServerMessage::System { .. } => {},
    }
}

/// One more line at the end of a message is one more JSON string at the end of its text,
/// and leaves the rest of the text as it was.
pub proof fn a_further_line_comes_last(
    lines: Vec<String>,
    more: Vec<String>,
    line: String,
    short: Option<String>,
    long: Option<String>,
)
    requires
        more@ == lines@.push(line),
        ({
            ||| text_of(short) == Some(server_text(ServerMessage::Snapshot { lines }@)) && text_of(
                long,
            ) == Some(server_text(ServerMessage::Snapshot { lines: more }@))
            ||| text_of(short) == Some(server_text(ServerMessage::Transcript { lines }@))
                && text_of(long) == Some(server_text(ServerMessage::Transcript { lines: more }@))
        }),
    ensures
        short matches Some(short) && long matches Some(long) && short@.len() >= 2 && long@
            == short@.drop_last().drop_last() + (if lines@.len() == 0 {
            Seq::empty()
        } else {
            seq![',']
        }) + quoted(line@) + seq![']', '}'],
{
    if text_of(short) == Some(server_text(ServerMessage::Snapshot { lines }@)) && text_of(long)
        == Some(server_text(ServerMessage::Snapshot { lines: more }@)) {
        server_texts_have_every_line_in_order(ServerMessage::Snapshot { lines }, short);
        server_texts_have_every_line_in_order(ServerMessage::Snapshot { lines: more }, long);
    } else {
        server_texts_have_every_line_in_order(ServerMessage::Transcript { lines }, short);
        server_texts_have_every_line_in_order(ServerMessage::Transcript { lines: more }, long);
    }
    let last = if lines@.len() == 0 {
        quoted(line@)
    } else {
        seq![','] + quoted(line@)
    };
    assert(comma_parts(more@) =~= comma_parts(lines@).push(last));
    comma_parts(lines@).lemma_flatten_push(last);
    assert(long->0@ =~= short->0@.drop_last().drop_last() + (if lines@.len() == 0 {
        Seq::empty()
    } else {
        seq![',']
    }) + quoted(line@) + seq![']', '}']);
}

/// The text round a body is an object with the type of the message and the body.
pub proof fn frames_are_objects_with_the_body(message: ServerMessage, body: &str, text: String)
    requires
        text@ == framed(message@, body@),
    ensures
        match message {
            ServerMessage::Snapshot { .. } => text@ == "{\"type\":\"snapshot\",\"lines\":"@ + body@
                + "}"@,
            ServerMessage::Transcript { .. } => text@ == "{\"type\":\"transcript\",\"lines\":"@
                + body@ + "}"@,
            ServerMessage::System { .. } => text@ == "{\"type\":\"system\",\"text\":"@ + body@
                + "}"@,
        },
{
}

/// The member at `i` is called `name`, and no other is.
pub open spec fn stands_alone(
    entries: Seq<(String, serde_json::Value)>,
    name: Seq<char>,
    i: int,
) -> bool {
    &&& 0 <= i < entries.len()
    &&& entries[i].0@ == name
    &&& forall|j: int| 0 <= j < entries.len() && j != i ==> #[trigger] entries[j].0@ != name
}

/// A count of members by name: how many values there are, and which.
proof fn lemma_values_named(entries: Seq<(String, serde_json::Value)>, name: Seq<char>)
    ensures
        ({
            let values = values_named(entries_of(entries), name);
            &&& values.len() == 0 <==> forall|i: int|
                0 <= i < entries.len() ==> #[trigger] entries[i].0@ != name
            &&& values.len() == 1 <==> exists|i: int| #[trigger] stands_alone(entries, name, i)
            &&& forall|i: int| #[trigger]
                stands_alone(entries, name, i) ==> values == seq![json_of(entries[i].1)]
        }),
    decreases entries.len(),
{
    let all = entries_of(entries);
    let values = values_named(all, name);
    if entries.len() > 0 {
        let front = entries.drop_last();
        let n = entries.len() - 1;
        assert(entries_of(front) =~= all.drop_last());
        assert(all.last() == (entries[n].0@, json_of(entries[n].1)));
        lemma_values_named(front, name);
        let before = values_named(entries_of(front), name);
        assert forall|i: int| 0 <= i < n implies front[i] == entries[i] by {}
        if entries[n].0@ == name {
            assert(values == before.push(json_of(entries[n].1)));
            if values.len() == 1 {
                assert(stands_alone(entries, name, n)) by {
                    assert forall|j: int| 0 <= j < entries.len() && j != n implies
                        #[trigger] entries[j].0@ != name by {
                        assert(front[j].0@ != name);
                    }
                }
            }
            assert forall|i: int| #[trigger] stands_alone(entries, name, i) implies values
                == seq![json_of(entries[i].1)] by {
                assert(i == n) by {
                    if i != n {
                        assert(entries[n].0@ != name);
                    }
                }
                assert forall|j: int| 0 <= j < front.len() implies #[trigger] front[j].0@
                    != name by {
                    assert(entries[j].0@ != name);
                }
                assert(values =~= seq![json_of(entries[i].1)]);
            }
        } else {
            assert(values == before);
            assert forall|i: int| #[trigger] stands_alone(entries, name, i) <==> stands_alone(
                front,
                name,
                i,
            ) by {
                if stands_alone(entries, name, i) {
                    assert(i != n);
                    assert(front[i].0@ == name);
                    assert forall|j: int| 0 <= j < front.len() && j != i implies
                        #[trigger] front[j].0@ != name by {
                        assert(entries[j].0@ != name);
                    }
                }
                if stands_alone(front, name, i) {
                    assert(entries[i].0@ == name);
                    assert forall|j: int| 0 <= j < entries.len() && j != i implies
                        #[trigger] entries[j].0@ != name by {
                        if j < n {
                            assert(front[j].0@ != name);
                        }
                    }
                }
            }
            if values.len() == 1 {
                let i = choose|i: int| #[trigger] stands_alone(front, name, i);
                assert(stands_alone(entries, name, i));
            }
            if exists|i: int| #[trigger] stands_alone(entries, name, i) {
                let i = choose|i: int| #[trigger] stands_alone(entries, name, i);
                assert(stands_alone(front, name, i));
            }
            if values.len() == 0 {
                assert forall|i: int| 0 <= i < entries.len() implies #[trigger] entries[i].0@
                    != name by {
                    if i < n {
                        assert(front[i].0@ != name);
                    }
                }
            }
        }
        if forall|i: int| 0 <= i < entries.len() ==> #[trigger] entries[i].0@ != name {
            assert forall|i: int| 0 <= i < front.len() implies #[trigger] front[i].0@ != name by {
                assert(entries[i].0@ != name);
            }
            assert(entries[n].0@ != name);
        }
    }
}

/// A chat message is read exactly from an object whose one `type` is `chat` and which has
/// one string called `name` and one called `text`, and these are its name and its
/// text; or from an array of `chat`, the name and the text.
pub proof fn chats_have_the_name_and_text_that_were_sent(
    frame: ClientFrame,
    message: Option<ClientMessage>,
)
    requires
        match message {
            Some(message) => client_message(frame@) == Some(message@),
            None => client_message(frame@) is None,
        },
    ensures
        match frame {
            ClientFrame::Object(entries) => {
                &&& forall|kind: int, named: int, said: int|
                    {
                        &&& #[trigger] stands_alone(entries@, "type"@, kind)
                        &&& #[trigger] stands_alone(entries@, "name"@, named)
                        &&& #[trigger] stands_alone(entries@, "text"@, said)
                    } ==> match message {
                        Some(ClientMessage::Chat { name, text }) => {
                            &&& json_of(entries@[kind].1) == Json::Text("chat"@)
                            &&& json_of(entries@[named].1) == Json::Text(name@)
                            &&& json_of(entries@[said].1) == Json::Text(text@)
                        },
                        None => {
                            ||| json_of(entries@[kind].1) != Json::Text("chat"@)
                            ||| !(json_of(entries@[named].1) is Text)
                            ||| !(json_of(entries@[said].1) is Text)
                        },
                    }
                &&& message is Some ==> {
                    &&& exists|i: int| #[trigger] stands_alone(entries@, "type"@, i)
                    &&& exists|i: int| #[trigger] stands_alone(entries@, "name"@, i)
                    &&& exists|i: int| #[trigger] stands_alone(entries@, "text"@, i)
                }
            },
            ClientFrame::Array(elements) => match message {
                Some(ClientMessage::Chat { name, text }) => {
                    &&& elements@.len() == 3
                    &&& json_of(elements@[0]) == Json::Text("chat"@)
                    &&& json_of(elements@[1]) == Json::Text(name@)
                    &&& json_of(elements@[2]) == Json::Text(text@)
                },
                None => {
                    ||| elements@.len() != 3
                    ||| json_of(elements@[0]) != Json::Text("chat"@)
                    ||| !(json_of(elements@[1]) is Text)
                    ||| !(json_of(elements@[2]) is Text)
                },
            },
        },
{
    match frame {
        ClientFrame::Object(entries) => {
            lemma_values_named(entries@, "type"@);
            lemma_values_named(entries@, "name"@);
            lemma_values_named(entries@, "text"@);
        },
        ClientFrame::Array(elements) => {},
    }
}

} // verus!
