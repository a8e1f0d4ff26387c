use bing2bing::client::Client;
use bing2bing::frame::Bing2BingFrame;
use bing2bing::ui::{parse_ui_line, say_line, whisper_line, UiClientMessage, UiInput};
use bytes::Bytes;

fn dbg<T: std::fmt::Debug>(x: &T) -> String {
    format!("{:?}", x)
}

#[test]
fn client_messages_carry_its_name() {
    let c = Client::new("me".to_string());
    assert_eq!(c.name(), "me");
    assert_eq!(dbg(&c.say("hi")), r#"Say(("me", "hi"))"#);
    assert_eq!(dbg(&c.whisper("b", "psst")), r#"Whisper(("me", "b", "psst"))"#);
    assert_eq!(dbg(&c.ping("b", 99)), r#"Ping(("me", "b", 99))"#);
    assert_eq!(
        dbg(&c.send_extension(2, Bing2BingFrame::Text("p".to_string()))),
        r#"Extension(("me", 2, Text("p")))"#
    );
    assert_eq!(dbg(&c.deliver("b", vec![1, 2])), r#"Deliver(("me", "b", [1, 2]))"#);
    match c.broadcast(vec![4, 5]) {
        bing2bing::message::ClientServerMessage::Broadcast((from, data)) => {
            assert_eq!(from, "me");
            assert_eq!(data, Bytes::from(vec![4u8, 5]));
        }
        other => panic!("unexpected {:?}", other),
    }
}

#[test]
fn ui_requests_become_client_messages() {
    let c = Client::new("me".to_string());
    assert_eq!(
        dbg(&c.ui_request(UiClientMessage::Extension(3, "x".to_string()))),
        r#"Extension(("me", 3, Text("x")))"#
    );
    assert_eq!(
        dbg(&c.ui_request(UiClientMessage::Broadcast("someone".to_string(), vec![7]))),
        r#"Broadcast(("me", b"\x07"))"#
    );
    assert_eq!(dbg(&c.ui_request(UiClientMessage::Say("s".to_string()))), r#"Say(("me", "s"))"#);
}

fn line(l: &str) -> String {
    dbg(&parse_ui_line(l))
}

#[test]
fn ui_lines() {
    assert!(matches!(parse_ui_line("/quit"), UiInput::Quit));
    assert_eq!(line("/say hello there"), r#"Send(Say("hello there"))"#);
    assert_eq!(line("just chatting"), r#"Send(Say("just chatting"))"#);
    assert_eq!(line("/quit now"), r#"Send(Say("/quit now"))"#);
    assert_eq!(line("/say"), r#"Send(Say("/say"))"#);
}

#[test]
fn simple_ui_takes_other_commands_as_chat() {
    assert_eq!(line("/whisper bob hi"), r#"Send(Say("/whisper bob hi"))"#);
    assert_eq!(line("/whisper bob"), r#"Send(Say("/whisper bob"))"#);
    assert_eq!(line("/ping bob"), r#"Send(Say("/ping bob"))"#);
    assert_eq!(line("/extension 2 Valid: x"), r#"Send(Say("/extension 2 Valid: x"))"#);
    assert_eq!(line("/deliver bob data"), r#"Send(Say("/deliver bob data"))"#);
    assert_eq!(line("/broadcast ab"), r#"Send(Say("/broadcast ab"))"#);
}

#[test]
fn display_lines() {
    assert_eq!(say_line("2024-01-01 10:00:00", "alice", "hi"), "[2024-01-01 10:00:00] alice: hi\n");
    assert_eq!(
        whisper_line("2024-01-01 10:00:00", "alice", "psst"),
        "[2024-01-01 10:00:00] alice whispered to you: psst\n"
    );
}

#[test]
fn client_duplicate_keeps_name() {
    let c = Client::new("me".to_string());
    assert_eq!(c.duplicate().name(), "me");
}
