//! A multiplayer session: who may join it, and what those who join are shown.
use vstd::prelude::*;

use crate::decimal::{append_decimal, decimal, is_numeral, numerals_are_read_back};
use crate::history::{
    batches_do_not_matter, latest, the_last_lines_are_kept, trim_history, HISTORY_LIMIT,
};
use crate::messages::{
    messages_are_what_they_carry, server_text, server_texts_have_every_line_in_order,
    ServerMessage, ServerMessageView,
};
use crate::page::INDEX_HTML;
use crate::quoting::comma_parts;
use crate::socket::{ActionView, Socket, SocketAction, SocketPhase};
use crate::text::{copy_texts, text_of, texts_are_those_of_the_strings, texts_of};

verus! {

/// What a visitor without the right token is told.
pub const INVALID_TOKEN: &'static str = "Invalid invite token";

/// The host that an invite names where the machine's address is not known.
pub const LOCALHOST: &'static str = "127.0.0.1";

/// The answer to a visitor who asks for the page.
#[derive(Debug, Clone, Copy, PartialEq, Eq)]
pub enum PageReply {
    /// The page, as HTML.
    Html(&'static str),
    /// Status 401, with this text.
    Unauthorized(&'static str),
}

/// The answer to a visitor who asks for a socket.
#[derive(Debug, Clone, Copy, PartialEq, Eq)]
pub enum SocketReply {
    /// The connection becomes a socket.
    Upgrade,
    /// Status 401, with this text.
    Unauthorized(&'static str),
}

// ---------------------------------------------------------------------------
// Tokens and invites

/// A lower-case hexadecimal digit.
pub open spec fn is_hex_digit(c: char) -> bool {
    '0' <= c <= '9' || 'a' <= c <= 'f'
}

/// The hyphenated text of a random UUID: five groups of lower-case hexadecimal
/// digits, with the version digit 4 and a variant digit 8, 9, a or b.
pub open spec fn is_random_uuid(text: Seq<char>) -> bool {
    &&& text.len() == 36
    &&& forall|i: int|
        0 <= i < 36 ==> if i == 8 || i == 13 || i == 18 || i == 23 {
            #[trigger] text[i] == '-'
        } else {
            is_hex_digit(text[i])
        }
    &&& text[14] == '4'
    &&& (text[19] == '8' || text[19] == '9' || text[19] == 'a' || text[19] == 'b')
}

/// `Uuid::new_v4` and its `Display`: the text of a version 4 UUID. Which one it is
/// is left to chance. A machine without a source of random numbers panics.
#[verifier::external_body]
fn new_token() -> (token: String)
    ensures
        is_random_uuid(token@),
{
    uuid::Uuid::new_v4().to_string()
}

/// The host that an invite names: the machine's address in its network, where that
/// is known.
pub open spec fn display_host(lan_ip: Option<Seq<char>>) -> Seq<char> {
    match lan_ip {
        Some(host) => host,
        None => LOCALHOST@,
    }
}

/// The address that a participant opens to join.
pub open spec fn invite_url(host: Seq<char>, port: nat, token: Seq<char>) -> Seq<char> {
    "http://"@ + host + ":"@ + decimal(port) + "?token="@ + token
}

/// The address that a participant opens to join.
fn make_invite_url(host: &str, port: u16, token: &str) -> (url: String)
    ensures
        url@ == invite_url(host@, port as nat, token@),
{
    let mut url = "http://".to_string();
    url.append(host);
    url.append(":");
    append_decimal(&mut url, port as u64);
    url.append("?token=");
    url.append(token);
    url
}

// ---------------------------------------------------------------------------
// What a session holds

/// What a [`MultiplayerState`] holds.
pub struct StateView {
    pub token: Seq<char>,
    pub history: Seq<Seq<char>>,
}

/// The token that lets a visitor in, and the transcript.
pub struct MultiplayerState {
    token: String,
    history: Vec<String>,
}

impl View for MultiplayerState {
    type V = StateView;

    closed spec fn view(&self) -> StateView {
        StateView { token: self.token@, history: texts_of(self.history@) }
    }
}

/// The parameters of a request, by their characters.
pub open spec fn parameters_of(query: Seq<(String, String)>) -> Seq<(Seq<char>, Seq<char>)> {
    query.map_values(|parameter: (String, String)| (parameter.0@, parameter.1@))
}

/// The value of the parameter called `name`; where there are several, of the last.
pub open spec fn parameter(query: Seq<(Seq<char>, Seq<char>)>, name: Seq<char>) -> Option<Seq<char>>
    decreases query.len(),
{
    if query.len() == 0 {
        None
    } else if query.last().0 == name {
        Some(query.last().1)
    } else {
        parameter(query.drop_last(), name)
    }
}

/// A visitor with this token is let in.
pub open spec fn admits(state: StateView, token: Option<Seq<char>>) -> bool {
    token == Some(state.token)
}

/// The state after `lines` were published.
pub open spec fn published(state: StateView, lines: Seq<Seq<char>>) -> StateView {
    StateView { token: state.token, history: latest(state.history + lines) }
}

/// The value of the parameter called `name`; where there are several, of the last.
fn find_parameter<'a>(query: &'a Vec<(String, String)>, name: &str) -> (value: Option<&'a String>)
    ensures
        parameter(parameters_of(query@), name@) == (match value {
            Some(value) => Some(value@),
            None => None,
        }),
{
    let ghost all = parameters_of(query@);
    let wanted = name.to_string();
    let mut i: usize = query.len();
    assert(all.take(i as int) =~= all);
    while i > 0
        invariant
            i <= query.len(),
            all == parameters_of(query@),
            wanted@ == name@,
            parameter(all, name@) == parameter(all.take(i as int), name@),
        decreases i,
    {
        proof {
            let rest = all.take(i as int);
            assert(rest.drop_last() =~= all.take(i - 1));
            assert(rest.last() == (query@[i - 1].0@, query@[i - 1].1@));
        }
        i -= 1;
        if query[i].0 == wanted {
            return Some(&query[i].1);
        }
    }
    None
}

proof fn lemma_latest_texts(lines: Seq<String>)
    ensures
        texts_of(latest(lines)) == latest(texts_of(lines)),
{
    assert(texts_of(latest(lines)) =~= latest(texts_of(lines)));
}

impl MultiplayerState {
    #[verifier::type_invariant]
    spec fn within_limit(self) -> bool {
        self.history@.len() <= HISTORY_LIMIT
    }

    /// The state of a session that starts with `initial_history`.
    pub fn new(token: String, initial_history: Vec<String>) -> (state: MultiplayerState)
        ensures
            state@.token == token@,
            state@.history == latest(texts_of(initial_history@)),
    {
        proof {
            lemma_latest_texts(initial_history@);
        }
        MultiplayerState { token, history: trim_history(initial_history) }
    }

    /// The token.
    pub fn token(&self) -> (token: &str)
        ensures
            token@ == self@.token,
    {
        self.token.as_str()
    }

    /// The transcript, which never holds more lines than the limit.
    pub fn history(&self) -> (history: &Vec<String>)
        ensures
            texts_of(history@) == self@.history,
            self@.history.len() <= HISTORY_LIMIT,
    {
        proof {
            use_type_invariant(self);
        }
        &self.history
    }

    /// Adds lines to the transcript, and gives the message that tells the participants
    /// of them. No lines are no message.
    pub fn publish_lines(&mut self, lines: Vec<String>) -> (message: Option<ServerMessage>)
        ensures
            final(self)@ == published(old(self)@, texts_of(lines@)),
            match message {
                Some(message) => lines@.len() > 0 && message@ == (ServerMessageView::Transcript {
                    lines: texts_of(lines@),
                }),
                None => lines@.len() == 0,
            },
    {
        proof {
            use_type_invariant(&*self);
        }
        let ghost before = self@.history;
        if lines.is_empty() {
            proof {
                assert(before + texts_of(lines@) =~= before);
            }
            return None;
        }
        let mut added = copy_texts(&lines);
        let mut history: Vec<String> = Vec::new();
        std::mem::swap(&mut history, &mut self.history);
        history.append(&mut added);
        proof {
            lemma_latest_texts(history@);
            assert(texts_of(history@) =~= before + texts_of(lines@));
        }
        self.history = trim_history(history);
        Some(ServerMessage::Transcript { lines })
    }

    /// The message that shows a new participant the transcript.
    pub fn snapshot(&self) -> (message: ServerMessage)
        ensures
            message@ == (ServerMessageView::Snapshot { lines: self@.history }),
    {
        ServerMessage::Snapshot { lines: copy_texts(&self.history) }
    }

    /// Starts the socket of a new participant: the transcript so far is sent.
    pub fn open_socket(&self) -> (started: (Socket, SocketAction))
        ensures
            started.0@ == SocketPhase::Greeting,
            started.1@ == (ActionView::Send {
                text: server_text(ServerMessageView::Snapshot { lines: self@.history }),
            }),
    {
        Socket::open(self.snapshot().to_text())
    }

    /// Answers a visitor who asks for the page, given the parameters of the request.
    pub fn index(&self, query: &Vec<(String, String)>) -> (reply: PageReply)
        ensures
            match reply {
                PageReply::Html(page) => page@ == INDEX_HTML@ && admits(
                    self@,
                    parameter(parameters_of(query@), "token"@),
                ),
                PageReply::Unauthorized(text) => text@ == INVALID_TOKEN@ && !admits(
                    self@,
                    parameter(parameters_of(query@), "token"@),
                ),
            },
    {
        if let Some(token) = find_parameter(query, "token") {
            if *token == self.token {
                return PageReply::Html(INDEX_HTML);
            }
        }
        PageReply::Unauthorized(INVALID_TOKEN)
    }

    /// Answers a visitor who asks for a socket, given the token of the request.
    pub fn ws_handler(&self, token: &String) -> (reply: SocketReply)
        ensures
            match reply {
                SocketReply::Upgrade => admits(self@, Some(token@)),
                SocketReply::Unauthorized(text) => !admits(self@, Some(token@)) && text@
                    == INVALID_TOKEN@,
            },
    {
        if *token == self.token {
            SocketReply::Upgrade
        } else {
            SocketReply::Unauthorized(INVALID_TOKEN)
        }
    }
}

// ---------------------------------------------------------------------------
// The session

/// What a [`MultiplayerSession`] holds.
pub struct SessionView {
    pub state: StateView,
    pub url: Seq<char>,
}

/// A running session.
pub struct MultiplayerSession {
    state: MultiplayerState,
    url: String,
}

impl View for MultiplayerSession {
    type V = SessionView;

    closed spec fn view(&self) -> SessionView {
        SessionView { state: self.state@, url: self.url@ }
    }
}

/// A session that starts.
pub open spec fn started(
    token: Seq<char>,
    initial_history: Seq<Seq<char>>,
    lan_ip: Option<Seq<char>>,
    port: nat,
) -> SessionView {
    SessionView {
        state: StateView { token, history: latest(initial_history) },
        url: invite_url(display_host(lan_ip), port, token),
    }
}

impl MultiplayerSession {
    /// Starts a session on `port` with a token of its own.
    pub fn start(initial_history: Vec<String>, lan_ip: Option<String>, port: u16) -> (session:
        MultiplayerSession)
        ensures
            is_random_uuid(session@.state.token),
            session@ == started(
                session@.state.token,
                texts_of(initial_history@),
                text_of(lan_ip),
                port as nat,
            ),
    {
        MultiplayerSession::with_token(new_token(), initial_history, lan_ip, port)
    }

    /// Starts a session on `port` with this token.
    pub fn with_token(
        token: String,
        initial_history: Vec<String>,
        lan_ip: Option<String>,
        port: u16,
    ) -> (session: MultiplayerSession)
        ensures
            session@ == started(
                token@,
                texts_of(initial_history@),
                text_of(lan_ip),
                port as nat,
            ),
    {
        let host = match lan_ip {
            Some(host) => host,
            None => LOCALHOST.to_string(),
        };
        let url = make_invite_url(host.as_str(), port, token.as_str());
        MultiplayerSession { state: MultiplayerState::new(token, initial_history), url }
    }

    /// The address that a participant opens to join.
    pub fn url(&self) -> (url: &str)
        ensures
            url@ == self@.url,
    {
        self.url.as_str()
    }

    /// What the session holds.
    pub fn state(&self) -> (state: &MultiplayerState)
        ensures
            state@ == self@.state,
    {
        &self.state
    }

    /// Adds lines to the transcript, and gives the message that tells the participants
    /// of them. No lines are no message.
    pub fn publish_lines(&mut self, lines: Vec<String>) -> (message: Option<ServerMessage>)
        ensures
            final(self)@ == (SessionView {
                state: published(old(self)@.state, texts_of(lines@)),
                url: old(self)@.url,
            }),
            match message {
                Some(message) => lines@.len() > 0 && message@ == (ServerMessageView::Transcript {
                    lines: texts_of(lines@),
                }),
                None => lines@.len() == 0,
            },
    {
        self.state.publish_lines(lines)
    }

    /// The message that shows the participants a note from the session itself.
    pub fn publish_system(&self, text: String) -> (message: ServerMessage)
        ensures
            message@ == (ServerMessageView::System { text: text@ }),
    {
        ServerMessage::System { text }
    }
}

// ---------------------------------------------------------------------------
// Laws

/// The state after several batches of lines were published.
pub open spec fn published_all(state: StateView, batches: Seq<Seq<Seq<char>>>) -> StateView
    decreases batches.len(),
{
    if batches.len() == 0 {
        state
    } else {
        published(published_all(state, batches.drop_last()), batches.last())
    }
}

/// The lines of the batches, one after the other.
pub open spec fn all_lines(batches: Seq<Seq<Seq<char>>>) -> Seq<Seq<char>>
    decreases batches.len(),
{
    if batches.len() == 0 {
        Seq::empty()
    } else {
        all_lines(batches.drop_last()) + batches.last()
    }
}

/// However lines are published, the transcript is the latest lines of what it was
/// and of all that came, and the token stays.
pub proof fn the_transcript_is_the_latest_lines(state: StateView, batches: Seq<Seq<Seq<char>>>)
    requires
        state.history.len() <= HISTORY_LIMIT,
    ensures
        published_all(state, batches).history == latest(state.history + all_lines(batches)),
        published_all(state, batches).token == state.token,
    decreases batches.len(),
{
    if batches.len() == 0 {
        assert(state.history + all_lines(batches) =~= state.history);
    } else {
        let before = all_lines(batches.drop_last());
        the_transcript_is_the_latest_lines(state, batches.drop_last());
        batches_do_not_matter(state.history, before, batches.last());
    }
}

proof fn lemma_published_in_turn(
    state: StateView,
    before: Seq<Seq<Seq<char>>>,
    after: Seq<Seq<Seq<char>>>,
)
    ensures
        published_all(state, before + after) == published_all(published_all(state, before), after),
    decreases after.len(),
{
    if after.len() == 0 {
        assert(before + after =~= before);
    } else {
        assert((before + after).drop_last() =~= before + after.drop_last());
        lemma_published_in_turn(state, before, after.drop_last());
    }
}

/// A participant who joins after the batches `before` and is then told of the batches
/// `after` has been shown, at the end, all that a new participant is shown: the
/// snapshot followed by those lines ends in the transcript.
pub proof fn participants_see_the_transcript(
    state: StateView,
    before: Seq<Seq<Seq<char>>>,
    after: Seq<Seq<Seq<char>>>,
)
    requires
        state.history.len() <= HISTORY_LIMIT,
    ensures
        latest(published_all(state, before).history + all_lines(after)) == published_all(
            state,
            before + after,
        ).history,
{
    lemma_published_in_turn(state, before, after);
    the_transcript_is_the_latest_lines(state, before);
    the_transcript_is_the_latest_lines(published_all(state, before), after);
}

/// The token stands at the end of an invite, so that sessions with different tokens
/// have different invites.
pub proof fn invites_tell_tokens_apart(
    host: Seq<char>,
    port: nat,
    token: Seq<char>,
    other: Seq<char>,
)
    ensures
        invite_url(host, port, token).skip(
            invite_url(host, port, token).len() - token.len(),
        ) == token,
        invite_url(host, port, token) == invite_url(host, port, other) ==> token == other,
{
    let prefix = "http://"@ + host + ":"@ + decimal(port) + "?token="@;
    let one = invite_url(host, port, token);
    let two = invite_url(host, port, other);
    assert(one.skip(one.len() - token.len()) =~= token);
    if one == two {
        assert(one.skip(prefix.len() as int) =~= token);
        assert(two.skip(prefix.len() as int) =~= other);
    }
}

/// A token that a session makes for itself holds only digits, lower-case letters
/// and hyphens, so that it stands in an address as it is.
pub proof fn tokens_need_no_escaping(token: Seq<char>, i: int)
    requires
        is_random_uuid(token),
        0 <= i < token.len(),
    ensures
        is_hex_digit(token[i]) || token[i] == '-',
{
}

/// Who is let in does not depend on what is published.
pub proof fn publishing_does_not_change_who_is_admitted(
    state: StateView,
    lines: Seq<Seq<char>>,
    token: Option<Seq<char>>,
)
    ensures
        admits(published(state, lines), token) == admits(state, token),
{
}

/// A session's address is made of `http://`, the machine's address or else
/// `127.0.0.1`, a colon, the numeral of the port, `?token=` and the token, whatever these
/// are. `digits` is what stands for the port.
pub proof fn invites_name_host_port_and_token(
    session: SessionView,
    token: Seq<char>,
    initial_history: Vec<String>,
    lan_ip: Option<String>,
    port: u16,
) -> (digits: Seq<char>)
    requires
        session == started(token, texts_of(initial_history@), text_of(lan_ip), port as nat),
    ensures
        is_numeral(digits, port as int),
        lan_ip matches Some(host) ==> session.url == "http://"@ + host@ + ":"@ + digits
            + "?token="@ + token,
        lan_ip is None ==> session.url == "http://"@ + "127.0.0.1"@ + ":"@ + digits + "?token="@
            + token,
{
    numerals_are_read_back(port as nat);
    decimal(port as nat)
}

/// Sessions of one machine with one token have different addresses if their ports are
/// different.
pub proof fn invites_tell_ports_apart(
    one: SessionView,
    two: SessionView,
    token: Seq<char>,
    initial_history: Vec<String>,
    other_history: Vec<String>,
    lan_ip: Option<String>,
    port: u16,
    other_port: u16,
)
    requires
        one == started(token, texts_of(initial_history@), text_of(lan_ip), port as nat),
        two == started(token, texts_of(other_history@), text_of(lan_ip), other_port as nat),
        one.url == two.url,
    ensures
        port == other_port,
{
    let a = invites_name_host_port_and_token(one, token, initial_history, lan_ip, port);
    let b = invites_name_host_port_and_token(two, token, other_history, lan_ip, other_port);
    let host = match lan_ip {
        Some(host) => host@,
        None => "127.0.0.1"@,
    };
    let start = ("http://"@ + host + ":"@).len() as int;
    let end = one.url.len() - ("?token="@ + token).len();
    assert(a =~= one.url.subrange(start, end));
    assert(b =~= two.url.subrange(start, end));
}

/// A session starts with its token and with the last four thousand of the lines it is
/// given, or with all where they are not more.
pub proof fn sessions_start_with_the_last_lines(
    session: SessionView,
    token: Seq<char>,
    initial_history: Vec<String>,
    lan_ip: Option<String>,
    port: u16,
)
    requires
        session == started(token, texts_of(initial_history@), text_of(lan_ip), port as nat),
    ensures
        session.state.token == token,
        starts_with_the_last(session.state.history, initial_history),
{
    states_start_with_the_last_lines(session.state, initial_history);
}

/// `kept` is the last four thousand of the lines, or all where they are not more.
pub open spec fn starts_with_the_last(kept: Seq<Seq<char>>, lines: Vec<String>) -> bool {
    &&& lines@.len() > 4000 ==> kept.len() == 4000
    &&& lines@.len() <= 4000 ==> kept.len() == lines@.len()
    &&& forall|k: int|
        0 <= k < kept.len() ==> #[trigger] kept[k] == lines@[lines@.len() - kept.len() + k]@
}

/// A state starts with the last four thousand of the lines it is given, or with all where
/// they are not more.
pub proof fn states_start_with_the_last_lines(state: StateView, initial_history: Vec<String>)
    requires
        state.history == latest(texts_of(initial_history@)),
    ensures
        starts_with_the_last(state.history, initial_history),
{
    texts_are_those_of_the_strings(initial_history@, None);
    the_last_lines_are_kept(texts_of(initial_history@), state.history);
}

/// Publishing puts the lines after the transcript, in their order, and drops lines from
/// its front as far as there are more than four thousand. The token stays.
pub proof fn published_lines_come_last(before: StateView, after: StateView, lines: Vec<String>)
    requires
        after == published(before, texts_of(lines@)),
    ensures
        after.token == before.token,
        before.history.len() + lines@.len() > 4000 ==> after.history.len() == 4000,
        before.history.len() + lines@.len() <= 4000 ==> after.history.len()
            == before.history.len() + lines@.len(),
        forall|k: int|
            0 <= k < after.history.len() ==> #[trigger] after.history[k] == ({
                let place = before.history.len() + lines@.len() - after.history.len() + k;
                if place < before.history.len() {
                    before.history[place]
                } else {
                    lines@[place - before.history.len()]@
                }
            }),
{
    texts_are_those_of_the_strings(lines@, None);
    the_last_lines_are_kept(before.history + texts_of(lines@), after.history);
}

/// A visitor is let in exactly when the last parameter called `token` is the session's
/// token, or, at the socket, when the token given is.
pub proof fn the_token_alone_lets_in(state: StateView, query: Vec<(String, String)>, given: String)
    ensures
        admits(state, parameter(parameters_of(query@), "token"@)) <==> exists|i: int|
            {
                &&& 0 <= i < query@.len()
                &&& #[trigger] query@[i].0@ == "token"@
                &&& query@[i].1@ == state.token
                &&& forall|j: int| i < j < query@.len() ==> #[trigger] query@[j].0@ != "token"@
            },
        admits(state, Some(given@)) <==> given@ == state.token,
        INVALID_TOKEN@ == "Invalid invite token"@,
{
    let found = lemma_last_parameter(query, query@.len() as int);
    assert(parameters_of(query@).take(query@.len() as int) =~= parameters_of(query@));
    if admits(state, parameter(parameters_of(query@), "token"@)) {
        assert(query@[found].0@ == "token"@);
    }
}

/// The place of the last parameter called `token` among the first `count`.
proof fn lemma_last_parameter(query: Vec<(String, String)>, count: int) -> (found: int)
    requires
        0 <= count <= query@.len(),
    ensures
        -1 <= found < count,
        forall|j: int| found < j < count ==> #[trigger] query@[j].0@ != "token"@,
        found >= 0 ==> query@[found].0@ == "token"@ && parameter(
            parameters_of(query@).take(count),
            "token"@,
        ) == Some(query@[found].1@),
        found < 0 ==> parameter(parameters_of(query@).take(count), "token"@) is None,
    decreases count,
{
    let all = parameters_of(query@).take(count);
    if count == 0 {
        -1
    } else {
        assert(all.last() == (query@[count - 1].0@, query@[count - 1].1@));
        assert(all.drop_last() =~= parameters_of(query@).take(count - 1));
        if query@[count - 1].0@ == "token"@ {
            count - 1
        } else {
            lemma_last_parameter(query, count - 1)
        }
    }
}

/// Lines that are published are told to the participants, all of them and in their order,
/// and where there are none nothing is told.
pub proof fn published_lines_are_told_as_they_are(
    lines: Vec<String>,
    message: Option<ServerMessage>,
)
    requires
        match message {
            Some(message) => lines@.len() > 0 && message@ == (ServerMessageView::Transcript {
                lines: texts_of(lines@),
            }),
            None => lines@.len() == 0,
        },
    ensures
        lines@.len() == 0 ==> message is None,
        lines@.len() > 0 ==> {
            &&& message matches Some(ServerMessage::Transcript { lines: told })
            &&& told@.len() == lines@.len()
            &&& forall|i: int| 0 <= i < lines@.len() ==> #[trigger] told@[i]@ == lines@[i]@
        },
{
    texts_are_those_of_the_strings(lines@, None);
    if let Some(message) = message {
        messages_are_what_they_carry(message);
        if let ServerMessage::Transcript { lines: told } = message {
            assert forall|i: int| 0 <= i < lines@.len() implies #[trigger] told@[i]@
                == lines@[i]@ by {
                assert(texts_of(lines@)[i] == lines@[i]@);
            }
        }
    }
}

/// The snapshot has every line of the transcript in its order, and a note is told as it
/// is.
pub proof fn snapshots_and_notes_are_told_as_they_are(
    history: Vec<String>,
    snapshot: ServerMessage,
    text: String,
    note: ServerMessage,
)
    requires
        snapshot@ == (ServerMessageView::Snapshot { lines: texts_of(history@) }),
        note@ == (ServerMessageView::System { text: text@ }),
    ensures
        snapshot matches ServerMessage::Snapshot { lines } && lines@.len() == history@.len()
            && forall|i: int|
            0 <= i < history@.len() ==> #[trigger] lines@[i]@ == history@[i]@,
        note matches ServerMessage::System { text: told } && told@ == text@,
{
    texts_are_those_of_the_strings(history@, None);
    messages_are_what_they_carry(snapshot);
    messages_are_what_they_carry(note);
    if let ServerMessage::Snapshot { lines } = snapshot {
        assert forall|i: int| 0 <= i < history@.len() implies #[trigger] lines@[i]@
            == history@[i]@ by {
            assert(texts_of(history@)[i] == history@[i]@);
        }
    }
}

/// The first thing that a new participant is sent is the snapshot, with every line of the
/// transcript in its order.
pub proof fn new_participants_are_sent_the_transcript(history: Vec<String>, action: SocketAction)
    requires
        action@ == (ActionView::Send {
            text: server_text(ServerMessageView::Snapshot { lines: texts_of(history@) }),
        }),
    ensures
        action matches SocketAction::Send { text } && text@
            == "{\"type\":\"snapshot\",\"lines\":"@ + seq!['['] + comma_parts(history@).flatten()
            + seq![']', '}'],
{
    if let SocketAction::Send { text } = action {
        server_texts_have_every_line_in_order(
            ServerMessage::Snapshot { lines: history },
            Some(text),
        );
    }
}

/// A token that a session makes for itself has five groups of hexadecimal digits, of
/// eight, four, four, four and twelve, with hyphens between them; the third starts with 4
/// and the fourth with 8, 9, a or b.
pub proof fn tokens_are_uuids_of_version_four(token: Seq<char>)
    requires
        is_random_uuid(token),
    ensures
        token.len() == 36,
        forall|i: int|
            0 <= i < 36 ==> (#[trigger] token[i] == '-' <==> i == 8 || i == 13 || i == 18 || i
                == 23),
        forall|i: int|
            0 <= i < 36 && #[trigger] token[i] != '-' ==> ('0' <= token[i] <= '9' || 'a' <= token[i]
                <= 'f'),
        token[14] == '4',
        token[19] == '8' || token[19] == '9' || token[19] == 'a' || token[19] == 'b',
{
}

} // verus!
