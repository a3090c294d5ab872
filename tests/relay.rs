use chat_relay::session::{
    begin_session, name_prompt, Action, BroadcastMessage, Event, PeerAddr, Phase, Session,
};
use chat_relay::text::{is_space_char, relay_text, trim_spaces};

fn addr(port: u16) -> PeerAddr {
    PeerAddr { ip: 0x7f00_0001, port, v6: false, flowinfo: 0, scope_id: 0 }
}

fn join(reply: &str, port: u16) -> Session {
    begin_session(Some(reply.to_string()), addr(port)).expect("the name is not blank")
}

fn published(a: Action) -> BroadcastMessage {
    match a {
        Action::Publish(m) => m,
        other => panic!("expected a publication, got {:?}", other),
    }
}

fn written(a: Action) -> Option<String> {
    match a {
        Action::Write(t) => Some(t),
        Action::Idle => None,
        other => panic!("expected a write or nothing, got {:?}", other),
    }
}

#[test]
fn prompt_text() {
    assert_eq!(name_prompt(), "Please enter your name: ");
}

#[test]
fn space_chars() {
    for c in [' ', '\t', '\n', '\r', '\u{0b}', '\u{0c}', '\u{85}', '\u{a0}', '\u{1680}', '\u{2000}', '\u{200a}', '\u{2028}', '\u{2029}', '\u{202f}', '\u{205f}', '\u{3000}'] {
        assert!(is_space_char(c), "{:?}", c);
        assert!(c.is_whitespace());
    }
    for c in ['a', '0', ':', '\u{200b}', '\u{1f}', '\u{feff}'] {
        assert!(!is_space_char(c), "{:?}", c);
        assert!(!c.is_whitespace());
    }
}

#[test]
fn trims_both_ends() {
    assert_eq!(trim_spaces("  alice \r\n"), "alice");
    assert_eq!(trim_spaces("\u{3000}bob smith\u{a0}"), "bob smith");
    assert_eq!(trim_spaces("carol"), "carol");
    assert_eq!(trim_spaces(" \t\n"), "");
    assert_eq!(trim_spaces(""), "");
    assert_eq!(trim_spaces("  é  "), "é");
}

#[test]
fn relay_text_format() {
    assert_eq!(relay_text("alice", "hello\n"), "alice: hello\n");
    assert_eq!(relay_text("", ""), ": ");
}

#[test]
fn handshake_takes_trimmed_name() {
    let s = join("  alice\n", 4000);
    assert_eq!(s.name(), "alice");
    assert_eq!(s.peer(), addr(4000));
    assert_eq!(s.phase(), Phase::Active);
}

#[test]
fn handshake_refuses_blank_or_failed_reply() {
    assert!(begin_session(Some("   \n".to_string()), addr(1)).is_none());
    assert!(begin_session(Some("\n".to_string()), addr(1)).is_none());
    assert!(begin_session(Some(String::new()), addr(1)).is_none());
    assert!(begin_session(None, addr(1)).is_none());
}

#[test]
fn line_is_published_under_name() {
    let mut s = join("alice\n", 4000);
    let m = published(s.step(Event::Line("hi there\n".to_string())));
    assert_eq!(m.text, "alice: hi there\n");
    assert_eq!(m.origin, addr(4000));
    assert_eq!(s.phase(), Phase::Active);
}

#[test]
fn own_message_is_not_echoed() {
    let mut s = join("alice\n", 4000);
    let m = BroadcastMessage { text: "alice: x\n".to_string(), origin: addr(4000) };
    assert_eq!(written(s.step(Event::Delivered(m))), None);
    assert_eq!(s.phase(), Phase::Active);
}

#[test]
fn same_ip_other_port_is_another_peer() {
    let mut s = join("alice\n", 4000);
    let m = BroadcastMessage { text: "bob: x\n".to_string(), origin: addr(4001) };
    assert_eq!(written(s.step(Event::Delivered(m))), Some("bob: x\n".to_string()));
}

#[test]
fn read_closed_disconnects() {
    let mut s = join("alice\n", 4000);
    assert!(matches!(s.step(Event::ReadClosed), Action::Stop));
    assert_eq!(s.phase(), Phase::Disconnected);
    assert!(matches!(s.step(Event::Line("late\n".to_string())), Action::Stop));
    assert_eq!(s.phase(), Phase::Disconnected);
}

#[test]
fn read_failure_is_fatal() {
    let mut s = join("alice\n", 4000);
    assert!(matches!(s.step(Event::ReadFailed), Action::Stop));
    assert_eq!(s.phase(), Phase::Errored);
}

#[test]
fn bus_failure_is_fatal() {
    let mut s = join("alice\n", 4000);
    assert!(matches!(s.step(Event::BusFailed), Action::Stop));
    assert_eq!(s.phase(), Phase::Errored);
}

#[test]
fn write_failure_is_not_fatal() {
    let mut s = join("alice\n", 4000);
    assert!(matches!(s.step(Event::WriteFailed), Action::Idle));
    assert_eq!(s.phase(), Phase::Active);
}

#[test]
fn publish_without_subscribers_is_harmless() {
    let mut s = join("alice\n", 4000);
    published(s.step(Event::Line("anyone?\n".to_string())));
    assert!(matches!(s.step(Event::PublishUnheard), Action::Idle));
    assert_eq!(s.phase(), Phase::Active);
    let m = published(s.step(Event::Line("still here\n".to_string())));
    assert_eq!(m.text, "alice: still here\n");
}

#[test]
fn alice_hello_reaches_bob_only() {
    let mut x = join("alice\n", 5001);
    let m = published(x.step(Event::Line("hello\n".to_string())));
    let mut y = join("bob\n", 5002);
    assert_eq!(written(y.step(Event::Delivered(m.clone()))), Some("alice: hello\n".to_string()));
    assert_eq!(written(x.step(Event::Delivered(m))), None);
}

#[test]
fn departed_peer_does_not_disturb_others() {
    let mut x = join("alice\n", 5001);
    let mut y = join("bob\n", 5002);
    assert!(matches!(x.step(Event::ReadClosed), Action::Stop));
    let m = published(y.step(Event::Line("anyone left?\n".to_string())));
    assert_eq!(m.text, "bob: anyone left?\n");
    assert!(matches!(y.step(Event::PublishUnheard), Action::Idle));
    assert_eq!(y.phase(), Phase::Active);
    assert!(matches!(x.step(Event::Delivered(m)), Action::Stop));
}

#[test]
fn one_senders_lines_keep_their_order() {
    let mut x = join("alice\n", 5001);
    let mut y = join("bob\n", 5002);
    let lines = ["one\n", "two\n", "three\n"];
    let mut out = Vec::new();
    for l in lines {
        let m = published(x.step(Event::Line(l.to_string())));
        let own = published(y.step(Event::Line(format!("re {}", l))));
        assert_eq!(written(y.step(Event::Delivered(own))), None);
        if let Some(t) = written(y.step(Event::Delivered(m))) {
            out.push(t);
        }
    }
    assert_eq!(out, vec!["alice: one\n", "alice: two\n", "alice: three\n"]);
}
