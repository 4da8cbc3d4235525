//! The course of one participant's socket.
//!
//! The snapshot goes out first. From then on every broadcast message is relayed and
//! every chat message is delivered, until a send fails or either side closes.
//! [`Socket`] decides what is done next; whoever drives it does it and reports what
//! came of it.
use vstd::prelude::*;

use crate::messages::{
    client_message, server_text, ClientFrame, ClientFrameView, ClientMessage, ClientMessageView,
    ServerMessage, ServerMessageView,
};
use crate::names::{
    clean_name, cleaned, is_shown_name, shown_names_are_cut_from_the_name,
    shown_names_are_presentable, NAME_LIMIT,
};
use crate::text::{
    encloses, is_blank, is_trimmed_from, is_white_space, text_of, trim, trimmed,
    trimmed_has_no_blank_ends, trimming_takes_white_space_alone,
};

verus! {

/// Where a socket stands.
#[derive(Debug, Clone, Copy, PartialEq, Eq, Structural)]
pub enum SocketPhase {
    /// The snapshot is on its way.
    Greeting,
    /// Waiting for a broadcast message or for the participant.
    Serving,
    /// A broadcast message is on its way.
    Relaying,
    /// Over.
    Closed,
}

/// A chat message as it is handed to the application.
#[derive(Debug, Clone, PartialEq, Eq)]
pub struct ChatMessage {
    pub author: String,
    pub text: String,
}

/// What happened.
#[derive(Debug, Clone)]
pub enum SocketEvent {
    /// The send that was asked for has succeeded or failed.
    Sent { delivered: bool },
    /// A message was broadcast to all participants.
    Broadcast { message: ServerMessage },
    /// Broadcast messages were missed because too many were waiting.
    Lagged,
    /// There will be no more broadcast messages.
    BroadcastClosed,
    /// The participant sent a text; `frame` is `None` where it is not a JSON object
    /// or array.
    Text { frame: Option<ClientFrame> },
    /// The participant sent something that is neither text nor a close.
    Other,
    /// The participant closed the socket, or its stream ended.
    Close,
    /// Receiving from the participant failed.
    Failed,
}

/// What is to be done.
#[derive(Debug, Clone, PartialEq, Eq)]
pub enum SocketAction {
    /// Send this text to the participant, and report how that went.
    Send { text: String },
    /// Wait for what happens next.
    Listen,
    /// Hand this message to the application, and wait for what happens next.
    Deliver { chat: ChatMessage },
    /// Leave the socket.
    Stop,
}

/// What a [`ChatMessage`] holds.
pub struct ChatView {
    pub author: Seq<char>,
    pub text: Seq<char>,
}

/// What a [`SocketEvent`] is.
pub enum EventView {
    Sent { delivered: bool },
    Broadcast { message: ServerMessageView },
    Lagged,
    BroadcastClosed,
    Text { frame: Option<ClientFrameView> },
    Other,
    Close,
    Failed,
}

/// What a [`SocketAction`] is.
pub enum ActionView {
    Send { text: Seq<char> },
    Listen,
    Deliver { chat: ChatView },
    Stop,
}

impl View for ChatMessage {
    type V = ChatView;

    open spec fn view(&self) -> ChatView {
        ChatView { author: self.author@, text: self.text@ }
    }
}

impl View for SocketEvent {
    type V = EventView;

    open spec fn view(&self) -> EventView {
        match self {
            SocketEvent::Sent { delivered } => EventView::Sent { delivered: *delivered },
            SocketEvent::Broadcast { message } => EventView::Broadcast { message: message@ },
            SocketEvent::Lagged => EventView::Lagged,
            SocketEvent::BroadcastClosed => EventView::BroadcastClosed,
            SocketEvent::Text { frame } => EventView::Text {
                frame: match frame {
                    Some(frame) => Some(frame@),
                    None => None,
                },
            },
            SocketEvent::Other => EventView::Other,
            SocketEvent::Close => EventView::Close,
            SocketEvent::Failed => EventView::Failed,
        }
    }
}

impl View for SocketAction {
    type V = ActionView;

    open spec fn view(&self) -> ActionView {
        match self {
            SocketAction::Send { text } => ActionView::Send { text: text@ },
            SocketAction::Listen => ActionView::Listen,
            SocketAction::Deliver { chat } => ActionView::Deliver { chat: chat@ },
            SocketAction::Stop => ActionView::Stop,
        }
    }
}

// ---------------------------------------------------------------------------
// Chat

/// The chat message that the application gets: with the author's name cleaned and
/// the text trimmed, and none at all where the text is blank.
pub open spec fn accepted(message: ClientMessageView) -> Option<ChatView> {
    match message {
        ClientMessageView::Chat { name, text } => if trimmed(text).len() == 0 {
            None
        } else {
            Some(ChatView { author: cleaned(name), text: trimmed(text) })
        },
    }
}

/// What the application gets of a text that a participant sent.
pub open spec fn received(frame: Option<ClientFrameView>) -> Option<ChatView> {
    match frame {
        Some(frame) => match client_message(frame) {
            Some(message) => accepted(message),
            None => None,
        },
        None => None,
    }
}

/// The message as the application gets it, if it gets it.
pub fn accept_chat(message: &ClientMessage) -> (chat: Option<ChatMessage>)
    ensures
        match chat {
            Some(chat) => accepted(message@) == Some(chat@),
            None => accepted(message@) is None,
        },
{
    match message {
        ClientMessage::Chat { name, text } => {
            let author = clean_name(name.as_str());
            let text = trim(text.as_str());
            if text.is_empty() {
                None
            } else {
                Some(ChatMessage { author, text: text.to_string() })
            }
        },
    }
}

/// What the application gets of a text that a participant sent.
fn receive(frame: &Option<ClientFrame>) -> (chat: Option<ChatMessage>)
    ensures
        ({
            let received = received(
                match frame {
                    Some(frame) => Some(frame@),
                    None => None,
                },
            );
            match chat {
                Some(chat) => received == Some(chat@),
                None => received is None,
            }
        }),
{
    match frame {
        Some(frame) => match ClientMessage::from_frame(frame) {
            Some(message) => accept_chat(&message),
            None => None,
        },
        None => None,
    }
}

// ---------------------------------------------------------------------------
// The socket

/// `event` can happen in `phase`: a send is reported while one is on its way, and
/// everything else happens while the socket waits.
pub open spec fn expects(phase: SocketPhase, event: EventView) -> bool {
    match phase {
        SocketPhase::Greeting | SocketPhase::Relaying => event is Sent,
        SocketPhase::Serving => !(event is Sent),
        SocketPhase::Closed => false,
    }
}

/// The start: the snapshot is sent, where it has a text.
pub open spec fn opened(snapshot: Option<Seq<char>>) -> (SocketPhase, ActionView) {
    match snapshot {
        Some(text) => (SocketPhase::Greeting, ActionView::Send { text }),
        None => (SocketPhase::Serving, ActionView::Listen),
    }
}

/// A broadcast message is sent on, where it has a text.
pub open spec fn relayed(message: Option<Seq<char>>) -> (SocketPhase, ActionView) {
    match message {
        Some(text) => (SocketPhase::Relaying, ActionView::Send { text }),
        None => (SocketPhase::Serving, ActionView::Listen),
    }
}

/// What an event leads to.
pub open spec fn stepped(event: EventView) -> (SocketPhase, ActionView) {
    match event {
        EventView::Sent { delivered } => if delivered {
            (SocketPhase::Serving, ActionView::Listen)
        } else {
            (SocketPhase::Closed, ActionView::Stop)
        },
        EventView::Broadcast { message } => relayed(Some(server_text(message))),
        EventView::Lagged => (SocketPhase::Serving, ActionView::Listen),
        EventView::BroadcastClosed => (SocketPhase::Closed, ActionView::Stop),
        EventView::Text { frame } => match received(frame) {
            Some(chat) => (SocketPhase::Serving, ActionView::Deliver { chat }),
            None => (SocketPhase::Serving, ActionView::Listen),
        },
        EventView::Other => (SocketPhase::Serving, ActionView::Listen),
        EventView::Close => (SocketPhase::Closed, ActionView::Stop),
        EventView::Failed => (SocketPhase::Closed, ActionView::Stop),
    }
}

/// One participant's socket.
#[derive(Debug, Clone, Copy, PartialEq, Eq)]
pub struct Socket {
    phase: SocketPhase,
}

impl View for Socket {
    type V = SocketPhase;

    closed spec fn view(&self) -> SocketPhase {
        self.phase
    }
}

impl Socket {
    /// Starts a socket, given the text of the snapshot, if it has one.
    pub fn open(snapshot: Option<String>) -> (started: (Socket, SocketAction))
        ensures
            (started.0@, started.1@) == opened(text_of(snapshot)),
    {
        match snapshot {
            Some(text) => (Socket { phase: SocketPhase::Greeting }, SocketAction::Send { text }),
            None => (Socket { phase: SocketPhase::Serving }, SocketAction::Listen),
        }
    }

    /// Where the socket stands.
    pub fn phase(&self) -> (phase: SocketPhase)
        ensures
            phase == self@,
    {
        self.phase
    }

    /// Whether `event` can happen now.
    pub fn expects(&self, event: &SocketEvent) -> (answer: bool)
        ensures
            answer == expects(self@, event@),
    {
        let report = matches!(event, SocketEvent::Sent { .. });
        match self.phase {
            SocketPhase::Greeting | SocketPhase::Relaying => report,
            SocketPhase::Serving => !report,
            SocketPhase::Closed => false,
        }
    }

    /// Sends on a broadcast message, given its text, if it has one.
    pub fn relay(&mut self, message: Option<String>) -> (action: SocketAction)
        requires
            old(self)@ == SocketPhase::Serving,
        ensures
            (final(self)@, action@) == relayed(text_of(message)),
    {
        match message {
            Some(text) => {
                self.phase = SocketPhase::Relaying;
                SocketAction::Send { text }
            },
            None => SocketAction::Listen,
        }
    }

    /// Takes in what happened and decides what is done next.
    pub fn step(&mut self, event: SocketEvent) -> (action: SocketAction)
        requires
            expects(old(self)@, event@),
        ensures
            (final(self)@, action@) == stepped(event@),
    {
        match event {
            SocketEvent::Sent { delivered } => if delivered {
                self.phase = SocketPhase::Serving;
                SocketAction::Listen
            } else {
                self.phase = SocketPhase::Closed;
                SocketAction::Stop
            },
            SocketEvent::Broadcast { message } => self.relay(message.to_text()),
            SocketEvent::Lagged | SocketEvent::Other => SocketAction::Listen,
            SocketEvent::BroadcastClosed | SocketEvent::Close | SocketEvent::Failed => {
                self.phase = SocketPhase::Closed;
                SocketAction::Stop
            },
            SocketEvent::Text { frame } => match receive(&frame) {
                Some(chat) => SocketAction::Deliver { chat },
                None => SocketAction::Listen,
            },
        }
    }
}

// ---------------------------------------------------------------------------
// Laws

/// Only a chat message whose text is not blank reaches the application. Its author
/// has a presentable name, and its text has no white space around it.
pub proof fn only_proper_chats_are_delivered(event: EventView)
    ensures
        stepped(event).1 matches ActionView::Deliver { chat } ==> {
            &&& event matches EventView::Text { frame: Some(frame) }
            &&& client_message(frame) matches Some(ClientMessageView::Chat { name, text })
            &&& !is_blank(text)
            &&& chat == ChatView { author: cleaned(name), text: trimmed(text) }
            &&& 0 < chat.author.len() <= NAME_LIMIT
            &&& chat.text.len() > 0
            &&& !is_white_space(chat.text[0])
            &&& !is_white_space(chat.text.last())
        },
{
    if let EventView::Text { frame: Some(frame) } = event {
        if let Some(ClientMessageView::Chat { name, text }) = client_message(frame) {
            trimmed_has_no_blank_ends(text);
            shown_names_are_presentable(name);
        }
    }
}

/// Every chat message whose text is not blank reaches the application.
pub proof fn every_proper_chat_is_delivered(
    frame: ClientFrameView,
    name: Seq<char>,
    text: Seq<char>,
)
    requires
        client_message(frame) == Some(ClientMessageView::Chat { name, text }),
        !is_blank(text),
    ensures
        stepped(EventView::Text { frame: Some(frame) }) == (
            SocketPhase::Serving,
            ActionView::Deliver { chat: ChatView { author: cleaned(name), text: trimmed(text) } },
        ),
{
    trimmed_has_no_blank_ends(text);
}

/// A socket ends exactly when a send failed, the broadcast ended, the participant
/// left or receiving failed, and leaving it is what is done then.
pub proof fn sockets_end_for_a_reason(event: EventView)
    ensures
        stepped(event).0 == SocketPhase::Closed <==> (event == (EventView::Sent {
            delivered: false,
        }) || event is BroadcastClosed || event is Close || event is Failed),
        stepped(event).1 is Stop <==> stepped(event).0 == SocketPhase::Closed,
{
}

/// The phase after a course of events.
pub open spec fn phase_after(start: SocketPhase, events: Seq<EventView>) -> SocketPhase {
    if events.len() == 0 {
        start
    } else {
        stepped(events.last()).0
    }
}

/// Each event can happen when it does.
pub open spec fn possible(start: SocketPhase, events: Seq<EventView>) -> bool
    decreases events.len(),
{
    events.len() == 0 || {
        &&& possible(start, events.drop_last())
        &&& expects(phase_after(start, events.drop_last()), events.last())
    }
}

/// What is sent in the course of the events, after the snapshot.
pub open spec fn sent(events: Seq<EventView>) -> Seq<Seq<char>>
    decreases events.len(),
{
    if events.len() == 0 {
        Seq::empty()
    } else {
        match stepped(events.last()).1 {
            ActionView::Send { text } => sent(events.drop_last()).push(text),
            _ => sent(events.drop_last()),
        }
    }
}

/// The texts of the messages that are broadcast in the course of the events.
pub open spec fn broadcast(events: Seq<EventView>) -> Seq<Seq<char>>
    decreases events.len(),
{
    if events.len() == 0 {
        Seq::empty()
    } else {
        match events.last() {
            EventView::Broadcast { message } => broadcast(events.drop_last()).push(
                server_text(message),
            ),
            _ => broadcast(events.drop_last()),
        }
    }
}

/// A participant is sent every broadcast message that its socket hears of, in their
/// order, and nothing else.
pub proof fn broadcasts_are_relayed_in_order(events: Seq<EventView>)
    ensures
        sent(events) == broadcast(events),
    decreases events.len(),
{
    if events.len() > 0 {
        broadcasts_are_relayed_in_order(events.drop_last());
    }
}

/// Nothing happens on a socket after it has ended: only the last event can end it.
pub proof fn nothing_follows_the_end(start: SocketPhase, events: Seq<EventView>, i: int)
    requires
        possible(start, events),
        0 <= i < events.len(),
        stepped(events[i]).0 == SocketPhase::Closed,
    ensures
        i == events.len() - 1,
    decreases events.len(),
{
    if i < events.len() - 1 {
        nothing_follows_the_end(start, events.drop_last(), i);
    }
}

/// A socket that waits for a send to be reported relays nothing before that: the
/// snapshot comes before every broadcast message.
pub proof fn the_snapshot_comes_first(snapshot: Seq<char>, events: Seq<EventView>)
    requires
        possible(opened(Some(snapshot)).0, events),
        events.len() > 0,
    ensures
        opened(Some(snapshot)).1 == (ActionView::Send { text: snapshot }),
        events[0] is Sent,
    decreases events.len(),
{
    if events.len() > 1 {
        the_snapshot_comes_first(snapshot, events.drop_last());
    }
}

/// A chat message is accepted exactly when its text has something other than white space.
/// Its author is then the name as it is shown, and its text what stands between the white
/// space around it.
pub proof fn accepted_chats_are_what_was_sent(message: ClientMessage, chat: Option<ChatMessage>)
    requires
        match chat {
            Some(chat) => accepted(message@) == Some(chat@),
            None => accepted(message@) is None,
        },
    ensures
        match message {
            ClientMessage::Chat { name, text } => match chat {
                Some(chat) => {
                    &&& is_shown_name(chat.author@, name@)
                    &&& is_trimmed_from(chat.text@, text@)
                    &&& exists|i: int| 0 <= i < text@.len() && !is_white_space(#[trigger] text@[i])
                },
                None => forall|i: int|
                    0 <= i < text@.len() ==> is_white_space(#[trigger] text@[i]),
            },
        },
{
    let ClientMessage::Chat { name, text } = message;
    trimmed_has_no_blank_ends(text@);
    let (start, end) = trimming_takes_white_space_alone(text@);
    let (left, right) = shown_names_are_cut_from_the_name(name@);
    if let Some(chat) = chat {
        assert(encloses(text@, start, end) && chat.text@ == text@.subrange(start, end));
        assert(encloses(name@, left, right));
        assert(start < end);
        assert(!is_white_space(text@[start]));
    }
}

/// What is done on each event, whatever it holds. `message` is what is read from a text
/// that the participant sent.
pub proof fn every_event_leads_to_its_action(
    event: SocketEvent,
    message: Option<ClientMessage>,
    phase: SocketPhase,
    action: SocketAction,
)
    requires
        (phase, action@) == stepped(event@),
        event matches SocketEvent::Text { frame: Some(frame) } ==> match message {
            Some(message) => client_message(frame@) == Some(message@),
            None => client_message(frame@) is None,
        },
    ensures
        match event {
            SocketEvent::Sent { delivered: true } => phase == SocketPhase::Serving
                && action is Listen,
            SocketEvent::Sent { delivered: false } => phase == SocketPhase::Closed
                && action is Stop,
            SocketEvent::Broadcast { message: told } => action matches SocketAction::Send { text }
                && text@ == server_text(told@) && phase == SocketPhase::Relaying,
            SocketEvent::Lagged => phase == SocketPhase::Serving && action is Listen,
            SocketEvent::BroadcastClosed => phase == SocketPhase::Closed && action is Stop,
            SocketEvent::Text { frame: None } => phase == SocketPhase::Serving && action is Listen,
            SocketEvent::Text { frame: Some(_) } => phase == SocketPhase::Serving && match message {
                Some(ClientMessage::Chat { name, text }) => if forall|i: int|
                    0 <= i < text@.len() ==> is_white_space(#[trigger] text@[i]) {
                    action is Listen
                } else {
                    &&& action matches SocketAction::Deliver { chat }
                    &&& is_shown_name(chat.author@, name@)
                    &&& is_trimmed_from(chat.text@, text@)
                },
                None => action is Listen,
            },
            SocketEvent::Other => phase == SocketPhase::Serving && action is Listen,
            SocketEvent::Close => phase == SocketPhase::Closed && action is Stop,
            SocketEvent::Failed => phase == SocketPhase::Closed && action is Stop,
        },
{
    if let SocketEvent::Text { frame: Some(frame) } = event {
        if let Some(message) = message {
            if let SocketAction::Deliver { chat } = action {
                accepted_chats_are_what_was_sent(message, Some(chat));
            } else {
                accepted_chats_are_what_was_sent(message, None);
            }
        }
    }
}

/// A socket starts by sending the text it is given, and a waiting socket sends on the text
/// it is given; without a text it waits for what happens.
pub proof fn given_texts_are_sent(
    text: Option<String>,
    phase: SocketPhase,
    action: SocketAction,
    later_phase: SocketPhase,
    later_action: SocketAction,
)
    requires
        (phase, action@) == opened(text_of(text)),
        (later_phase, later_action@) == relayed(text_of(text)),
    ensures
        match text {
            Some(text) => {
                &&& phase == SocketPhase::Greeting
                &&& action matches SocketAction::Send { text: sent } && sent@ == text@
                &&& later_phase == SocketPhase::Relaying
                &&& later_action matches SocketAction::Send { text: sent } && sent@ == text@
            },
            None => {
                &&& phase == SocketPhase::Serving && action is Listen
                &&& later_phase == SocketPhase::Serving && later_action is Listen
            },
        },
{
}

/// A report of a send can come exactly while one is on its way, every other event exactly
/// while the socket waits, and nothing at all once it is over.
pub proof fn events_come_when_they_can(phase: SocketPhase, event: SocketEvent)
    ensures
        phase == SocketPhase::Greeting ==> (expects(phase, event@) <==> event is Sent),
        phase == SocketPhase::Relaying ==> (expects(phase, event@) <==> event is Sent),
        phase == SocketPhase::Serving ==> (expects(phase, event@) <==> event !is Sent),
        phase == SocketPhase::Closed ==> !expects(phase, event@),
{
}

} // verus!
