use codex_session::history::{trim_history, HISTORY_LIMIT};
use codex_session::messages::{ClientFrame, ClientMessage, ServerMessage};
use codex_session::names::clean_name;
use codex_session::page::INDEX_HTML;
use codex_session::session::{
    MultiplayerSession, MultiplayerState, PageReply, SocketReply, INVALID_TOKEN,
};
use codex_session::socket::{
    accept_chat, ChatMessage, Socket, SocketAction, SocketEvent, SocketPhase,
};
use codex_session::transcript::{join_texts, lines_to_plain_text};
use ratatui::style::{Color, Style};
use ratatui::text::{Line, Span};
use serde_json::Value;

fn strings(texts: &[&str]) -> Vec<String> {
    texts.iter().map(|text| text.to_string()).collect()
}

fn numbered(count: usize) -> Vec<String> {
    (0..count).map(|idx| idx.to_string()).collect::<Vec<_>>()
}

fn chat_frame(name: &str, text: &str) -> ClientFrame {
    ClientFrame::Object(vec![
        ("type".to_string(), Value::from("chat")),
        ("name".to_string(), Value::from(name)),
        ("text".to_string(), Value::from(text)),
    ])
}

fn session() -> MultiplayerSession {
    MultiplayerSession::with_token(
        "secret".to_string(),
        strings(&["one", "two"]),
        Some("192.168.0.7".to_string()),
        4321,
    )
}

#[test]
fn clean_name_defaults_blank_names_to_guest() {
    assert_eq!(clean_name("   "), "Guest");
}

#[test]
fn clean_name_limits_long_names() {
    let name = "abcdefghijklmnopqrstuvwxyzABCDEFGHIJKLMNOPQRSTUVWXYZ";
    assert_eq!(clean_name(name).chars().count(), 40);
}

#[test]
fn trim_history_keeps_latest_lines() {
    let history = (0..(HISTORY_LIMIT + 5))
        .map(|idx| idx.to_string())
        .collect::<Vec<_>>();
    let trimmed = trim_history(history);
    assert_eq!(trimmed.len(), HISTORY_LIMIT);
    assert_eq!(trimmed.first().map(String::as_str), Some("5"));
}

#[test]
fn names_are_trimmed_and_counted_in_characters() {
    assert_eq!(clean_name("  Ada \n"), "Ada");
    assert_eq!(clean_name(""), "Guest");
    assert_eq!(clean_name("\u{3000}\u{85}\u{a0}"), "Guest");
    assert_eq!(clean_name("a b"), "a b");
    assert_eq!(clean_name(&"\u{e9}".repeat(41)), "\u{e9}".repeat(40));
    let cut = format!("{} b", "a".repeat(39));
    assert_eq!(clean_name(&cut), format!("{} ", "a".repeat(39)));
    // U+180E and U+200B are not white space.
    assert_eq!(clean_name("\u{180e}"), "\u{180e}");
    assert_eq!(clean_name("\u{200b}"), "\u{200b}");
}

#[test]
fn the_white_space_that_is_trimmed() {
    let white_space = [
        '\u{9}', '\u{a}', '\u{b}', '\u{c}', '\u{d}', '\u{20}', '\u{85}', '\u{a0}', '\u{1680}',
        '\u{2000}', '\u{2001}', '\u{2002}', '\u{2003}', '\u{2004}', '\u{2005}', '\u{2006}',
        '\u{2007}', '\u{2008}', '\u{2009}', '\u{200a}', '\u{2028}', '\u{2029}', '\u{202f}',
        '\u{205f}', '\u{3000}',
    ];
    for code in 0u32..=0x10ffff {
        if let Some(c) = char::from_u32(code) {
            let blank = clean_name(&c.to_string()) == "Guest";
            assert_eq!(blank, white_space.contains(&c));
        }
    }
}

#[test]
fn short_histories_are_kept_whole() {
    assert_eq!(trim_history(vec![]), Vec::<String>::new());
    assert_eq!(trim_history(numbered(HISTORY_LIMIT)), numbered(HISTORY_LIMIT));
    let long = trim_history(numbered(HISTORY_LIMIT + 5));
    assert_eq!(trim_history(long.clone()), long);
    assert_eq!(long.last().map(String::as_str), Some("4004"));
}

#[test]
fn spans_are_joined_without_their_style() {
    let line = Line::from(vec![
        Span::styled("bold ", Style::default().fg(Color::Red)),
        Span::raw("plain"),
    ]);
    assert_eq!(
        lines_to_plain_text(vec![line, Line::default(), Line::from("x")]),
        strings(&["bold plain", "", "x"])
    );
    assert_eq!(lines_to_plain_text(vec![]), Vec::<String>::new());
    assert_eq!(join_texts(&strings(&["a", "", "bc"])), "abc");
}

#[test]
fn server_messages_have_their_text() {
    let snapshot = ServerMessage::Snapshot {
        lines: strings(&["a", "say \"hi\""]),
    };
    assert_eq!(
        snapshot.to_text(),
        Some("{\"type\":\"snapshot\",\"lines\":[\"a\",\"say \\\"hi\\\"\"]}".to_string())
    );
    let transcript = ServerMessage::Transcript { lines: vec![] };
    assert_eq!(
        transcript.to_text(),
        Some("{\"type\":\"transcript\",\"lines\":[]}".to_string())
    );
    let system = ServerMessage::System {
        text: "line\nbreak".to_string(),
    };
    assert_eq!(
        system.to_text(),
        Some("{\"type\":\"system\",\"text\":\"line\\nbreak\"}".to_string())
    );
    assert_eq!(system.frame("0"), "{\"type\":\"system\",\"text\":0}");
    assert_eq!(snapshot.frame("0"), "{\"type\":\"snapshot\",\"lines\":0}");
    assert_eq!(transcript.frame("0"), "{\"type\":\"transcript\",\"lines\":0}");
}

#[test]
fn every_character_of_a_server_text_is_escaped_as_json() {
    let texts = [
        ("\u{0}\u{1}\u{7}\u{b}", "\\u0000\\u0001\\u0007\\u000b"),
        ("\u{e}\u{f}\u{10}\u{1a}\u{1f}", "\\u000e\\u000f\\u0010\\u001a\\u001f"),
        ("\u{8}\t\n\u{c}\r", "\\b\\t\\n\\f\\r"),
        ("\"\\/", "\\\"\\\\/"),
        (" ~\u{7f}\u{80}\u{2028}\u{1f600}", " ~\u{7f}\u{80}\u{2028}\u{1f600}"),
    ];
    for (text, escaped) in texts {
        let system = ServerMessage::System {
            text: text.to_string(),
        };
        assert_eq!(
            system.to_text(),
            Some(format!("{{\"type\":\"system\",\"text\":\"{escaped}\"}}"))
        );
        let snapshot = ServerMessage::Snapshot {
            lines: strings(&[text, "", text]),
        };
        assert_eq!(
            snapshot.to_text(),
            Some(format!(
                "{{\"type\":\"snapshot\",\"lines\":[\"{escaped}\",\"\",\"{escaped}\"]}}"
            ))
        );
    }
}

#[test]
fn different_messages_have_different_texts() {
    let lines = [
        strings(&[]),
        strings(&[""]),
        strings(&["", ""]),
        strings(&["\",\""]),
        strings(&["a,b"]),
        strings(&["a", "b"]),
    ];
    let mut texts: Vec<Option<String>> = Vec::new();
    for lines in lines {
        texts.push(ServerMessage::Snapshot { lines: lines.clone() }.to_text());
        texts.push(ServerMessage::Transcript { lines }.to_text());
    }
    texts.push(ServerMessage::System { text: String::new() }.to_text());
    texts.push(ServerMessage::System { text: "[]".to_string() }.to_text());
    for (i, one) in texts.iter().enumerate() {
        for two in &texts[i + 1..] {
            assert_ne!(one, two);
        }
    }
}

#[test]
fn server_texts_are_json() {
    let message = ServerMessage::Snapshot {
        lines: strings(&["\u{1f600}", "\u{0}\\"]),
    };
    let text = message.to_text().expect("text");
    let value: Value = serde_json::from_str(&text).expect("json");
    assert_eq!(value["type"], Value::from("snapshot"));
    assert_eq!(value["lines"], Value::from(strings(&["\u{1f600}", "\u{0}\\"])));
}

#[test]
fn chat_frames_are_read() {
    let chat = Some(ClientMessage::Chat {
        name: "n".to_string(),
        text: "t".to_string(),
    });
    assert_eq!(ClientMessage::from_frame(&chat_frame("n", "t")), chat);
    let reordered = ClientFrame::Object(vec![
        ("text".to_string(), Value::from("t")),
        ("extra".to_string(), Value::Null),
        ("extra".to_string(), Value::Null),
        ("name".to_string(), Value::from("n")),
        ("type".to_string(), Value::from("chat")),
    ]);
    assert_eq!(ClientMessage::from_frame(&reordered), chat);
    let positional = ClientFrame::Array(vec![
        Value::from("chat"),
        Value::from("n"),
        Value::from("t"),
    ]);
    assert_eq!(ClientMessage::from_frame(&positional), chat);
}

#[test]
fn other_frames_are_not_read() {
    let pair = |name: &str, value: Value| (name.to_string(), value);
    let refused = vec![
        ClientFrame::Object(vec![]),
        ClientFrame::Object(vec![
            pair("name", Value::from("n")),
            pair("text", Value::from("t")),
        ]),
        ClientFrame::Object(vec![
            pair("type", Value::from("Chat")),
            pair("name", Value::from("n")),
            pair("text", Value::from("t")),
        ]),
        ClientFrame::Object(vec![
            pair("type", Value::from("chat")),
            pair("name", Value::from(1)),
            pair("text", Value::from("t")),
        ]),
        ClientFrame::Object(vec![
            pair("type", Value::from("chat")),
            pair("name", Value::from("n")),
            pair("name", Value::from("n")),
            pair("text", Value::from("t")),
        ]),
        ClientFrame::Object(vec![
            pair("type", Value::from("chat")),
            pair("type", Value::from("chat")),
            pair("name", Value::from("n")),
            pair("text", Value::from("t")),
        ]),
        ClientFrame::Array(vec![Value::from("chat"), Value::from("n")]),
        ClientFrame::Array(vec![
            Value::from("chat"),
            Value::from("n"),
            Value::from("t"),
            Value::Null,
        ]),
        ClientFrame::Array(vec![Value::from(0), Value::from("n"), Value::from("t")]),
    ];
    for frame in refused {
        assert_eq!(ClientMessage::from_frame(&frame), None);
    }
}

#[test]
fn blank_chats_are_dropped() {
    let chat = |name: &str, text: &str| ClientMessage::Chat {
        name: name.to_string(),
        text: text.to_string(),
    };
    assert_eq!(accept_chat(&chat("Ada", " \t\n ")), None);
    assert_eq!(
        accept_chat(&chat(" ", "  hello  world ")),
        Some(ChatMessage {
            author: "Guest".to_string(),
            text: "hello  world".to_string(),
        })
    );
}

#[test]
fn a_socket_runs_its_course() {
    let (mut socket, action) = session().state().open_socket();
    assert_eq!(socket.phase(), SocketPhase::Greeting);
    assert_eq!(
        action,
        SocketAction::Send {
            text: "{\"type\":\"snapshot\",\"lines\":[\"one\",\"two\"]}".to_string(),
        }
    );

    let sent = SocketEvent::Sent { delivered: true };
    assert!(socket.expects(&sent));
    assert!(!socket.expects(&SocketEvent::Lagged));
    assert_eq!(socket.step(sent), SocketAction::Listen);
    assert_eq!(socket.phase(), SocketPhase::Serving);
    assert!(!socket.expects(&SocketEvent::Sent { delivered: true }));

    assert_eq!(socket.step(SocketEvent::Lagged), SocketAction::Listen);
    assert_eq!(socket.step(SocketEvent::Other), SocketAction::Listen);
    assert_eq!(socket.step(SocketEvent::Text { frame: None }), SocketAction::Listen);
    assert_eq!(
        socket.step(SocketEvent::Text {
            frame: Some(chat_frame("Ada", " hi ")),
        }),
        SocketAction::Deliver {
            chat: ChatMessage {
                author: "Ada".to_string(),
                text: "hi".to_string(),
            },
        }
    );
    assert_eq!(
        socket.step(SocketEvent::Text {
            frame: Some(chat_frame("Ada", " ")),
        }),
        SocketAction::Listen
    );

    assert_eq!(
        socket.step(SocketEvent::Broadcast {
            message: ServerMessage::System {
                text: "x".to_string(),
            },
        }),
        SocketAction::Send {
            text: "{\"type\":\"system\",\"text\":\"x\"}".to_string(),
        }
    );
    assert_eq!(socket.phase(), SocketPhase::Relaying);
    assert_eq!(
        socket.step(SocketEvent::Sent { delivered: true }),
        SocketAction::Listen
    );

    assert_eq!(socket.step(SocketEvent::Close), SocketAction::Stop);
    assert_eq!(socket.phase(), SocketPhase::Closed);
    assert!(!socket.expects(&SocketEvent::Lagged));
    assert!(!socket.expects(&SocketEvent::Sent { delivered: true }));
}

#[test]
fn sockets_end_when_a_side_fails() {
    for event in vec![
        SocketEvent::BroadcastClosed,
        SocketEvent::Close,
        SocketEvent::Failed,
    ] {
        let (mut socket, action) = Socket::open(None);
        assert_eq!(action, SocketAction::Listen);
        assert_eq!(socket.step(event), SocketAction::Stop);
        assert_eq!(socket.phase(), SocketPhase::Closed);
    }
    let (mut socket, _) = Socket::open(Some("text".to_string()));
    assert_eq!(
        socket.step(SocketEvent::Sent { delivered: false }),
        SocketAction::Stop
    );

    let (mut socket, _) = Socket::open(None);
    assert_eq!(socket.relay(None), SocketAction::Listen);
    assert_eq!(socket.phase(), SocketPhase::Serving);
    assert_eq!(
        socket.relay(Some("text".to_string())),
        SocketAction::Send {
            text: "text".to_string(),
        }
    );
    assert_eq!(
        socket.step(SocketEvent::Sent { delivered: false }),
        SocketAction::Stop
    );
}

#[test]
fn only_the_token_lets_a_visitor_in() {
    let session = session();
    let state: &MultiplayerState = session.state();
    let right = "secret".to_string();
    let wrong = "secret ".to_string();
    let query = |name: &str, value: &str| (name.to_string(), value.to_string());
    assert_eq!(
        state.index(&vec![query("token", "secret")]),
        PageReply::Html(INDEX_HTML)
    );
    for refused in vec![
        vec![],
        vec![query("token", "secret ")],
        vec![query("Token", "secret")],
        vec![query("token", "secret"), query("token", "other")],
    ] {
        assert_eq!(state.index(&refused), PageReply::Unauthorized(INVALID_TOKEN));
    }
    // Of several tokens the last counts, and other parameters do not.
    assert_eq!(
        state.index(&vec![
            query("token", "other"),
            query("token", "secret"),
            query("other", "x"),
        ]),
        PageReply::Html(INDEX_HTML)
    );
    assert_eq!(state.ws_handler(&right), SocketReply::Upgrade);
    assert_eq!(state.ws_handler(&wrong), SocketReply::Unauthorized(INVALID_TOKEN));
    assert_eq!(INVALID_TOKEN, "Invalid invite token");
    assert_eq!(state.token(), "secret");
}

#[test]
fn invites_name_host_port_and_token() {
    assert_eq!(session().url(), "http://192.168.0.7:4321?token=secret");
    let local = MultiplayerSession::with_token("t".to_string(), vec![], None, 0);
    assert_eq!(local.url(), "http://127.0.0.1:0?token=t");
    let last = MultiplayerSession::with_token("t".to_string(), vec![], None, 65535);
    assert_eq!(last.url(), "http://127.0.0.1:65535?token=t");
}

#[test]
fn a_started_session_has_a_random_token() {
    let one = MultiplayerSession::start(vec![], None, 80);
    let two = MultiplayerSession::start(vec![], None, 80);
    let token = one.state().token().to_string();
    assert_ne!(token, two.state().token());
    assert_eq!(one.url(), format!("http://127.0.0.1:80?token={token}"));
    let characters: Vec<char> = token.chars().collect();
    assert_eq!(characters.len(), 36);
    for (i, c) in characters.iter().enumerate() {
        if i == 8 || i == 13 || i == 18 || i == 23 {
            assert_eq!(*c, '-');
        } else {
            assert!(c.is_ascii_digit() || ('a'..='f').contains(c));
        }
    }
    assert_eq!(characters[14], '4');
    assert!(['8', '9', 'a', 'b'].contains(&characters[19]));
}

#[test]
fn published_lines_reach_the_transcript_and_the_participants() {
    let mut session = session();
    assert!(session.publish_lines(vec![]).is_none());
    assert_eq!(session.state().history(), &strings(&["one", "two"]));

    let message = session.publish_lines(strings(&["three"])).expect("message");
    assert_eq!(
        message.to_text(),
        Some("{\"type\":\"transcript\",\"lines\":[\"three\"]}".to_string())
    );
    assert_eq!(session.state().history(), &strings(&["one", "two", "three"]));
    assert_eq!(
        session.state().snapshot().to_text(),
        Some("{\"type\":\"snapshot\",\"lines\":[\"one\",\"two\",\"three\"]}".to_string())
    );
    assert_eq!(
        session.publish_system("s".to_string()).to_text(),
        Some("{\"type\":\"system\",\"text\":\"s\"}".to_string())
    );
    assert_eq!(session.url(), "http://192.168.0.7:4321?token=secret");
}

#[test]
fn the_transcript_holds_the_latest_lines() {
    let mut in_two = MultiplayerState::new("t".to_string(), numbered(HISTORY_LIMIT + 1));
    assert_eq!(in_two.history().first().map(String::as_str), Some("1"));
    in_two.publish_lines(strings(&["a", "b"]));
    in_two.publish_lines(strings(&["c"]));

    let mut in_one = MultiplayerState::new("t".to_string(), numbered(HISTORY_LIMIT + 1));
    let message = in_one.publish_lines(strings(&["a", "b", "c"])).expect("message");
    assert_eq!(in_one.history(), in_two.history());
    assert_eq!(in_one.history().len(), HISTORY_LIMIT);
    assert_eq!(in_one.history().first().map(String::as_str), Some("4"));
    assert_eq!(in_one.history().last().map(String::as_str), Some("c"));
    // The participants are told of every line, however many are kept.
    let more = in_one.publish_lines(numbered(HISTORY_LIMIT + 2)).expect("message");
    match (message, more) {
        (ServerMessage::Transcript { lines }, ServerMessage::Transcript { lines: all }) => {
            assert_eq!(lines, strings(&["a", "b", "c"]));
            assert_eq!(all.len(), HISTORY_LIMIT + 2);
        }
        _ => panic!("not a transcript"),
    }
    assert_eq!(in_one.history().first().map(String::as_str), Some("2"));
}
