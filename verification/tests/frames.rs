use bing2bing::cmd::announce::Announce;
use bing2bing::cmd::broadcast::Broadcast;
use bing2bing::cmd::deliver::Deliver;
use bing2bing::cmd::extension::Extension;
use bing2bing::cmd::ping::Ping;
use bing2bing::cmd::pong::Pong;
use bing2bing::cmd::register::Register;
use bing2bing::cmd::say::Say;
use bing2bing::cmd::whisper::Whisper;
use bing2bing::command::Bing2BingCommand;
use bing2bing::frame::Bing2BingFrame;
use bing2bing::parser::{ParseError, Parser};
use bytes::Bytes;

fn text(s: &str) -> Bing2BingFrame {
    Bing2BingFrame::Text(s.to_string())
}

fn dbg<T: std::fmt::Debug>(x: &T) -> String {
    format!("{:?}", x)
}

#[test]
fn whisper_into_frame_layout() {
    let w = Whisper::new("alice", 7, "bob", "hi there");
    assert_eq!(w.source, "alice");
    assert_eq!(w.sequence_number, 7);
    assert_eq!(w.destination, "bob");
    assert_eq!(w.message, "hi there");
    let f = w.into_frame();
    assert_eq!(
        dbg(&f),
        r#"Array([Text("whisper"), Text("alice"), Number(7), Text("bob"), Text("hi there")])"#
    );
}

#[test]
fn extension_into_frame_layout() {
    let e = Extension::new("alice".to_string(), 3, 9, Bing2BingFrame::Number(42));
    assert_eq!(e.get_sequence_number(), 3);
    assert_eq!(e.get_source(), "alice");
    let f = e.into_frame();
    assert_eq!(
        dbg(&f),
        r#"Array([Text("extension"), Text("alice"), Number(3), Number(9), Number(42)])"#
    );
}

#[test]
fn broadcast_into_frame_carries_bytes() {
    let b = Broadcast::new("carol".to_string(), 1, Bytes::from(vec![1u8, 2, 3]));
    let f = b.into_frame();
    assert_eq!(
        dbg(&f),
        r#"Array([Text("broadcast"), Text("carol"), Number(1), Bulk([1, 2, 3])])"#
    );
}

#[test]
fn whisper_round_trip() {
    let f = Whisper::new("alice", 11, "bob", "secret").into_frame();
    match Bing2BingCommand::from_frame(f) {
        Ok(Bing2BingCommand::Whisper(w)) => {
            assert_eq!(w.source, "alice");
            assert_eq!(w.sequence_number, 11);
            assert_eq!(w.destination, "bob");
            assert_eq!(w.message, "secret");
        }
        other => panic!("unexpected {:?}", other),
    }
}

#[test]
fn extension_round_trip_keeps_payload() {
    let payload = Bing2BingFrame::Array(vec![text("x"), Bing2BingFrame::Bulk(vec![9])]);
    let f = Extension::new("dan".to_string(), 2, 5, payload).into_frame();
    match Bing2BingCommand::from_frame(f) {
        Ok(Bing2BingCommand::Extension(e)) => {
            assert_eq!(e.source, "dan");
            assert_eq!(e.sequence_number, 2);
            assert_eq!(e.extension_id, 5);
            assert_eq!(dbg(&e.payload), r#"Array([Text("x"), Bulk([9])])"#);
        }
        other => panic!("unexpected {:?}", other),
    }
}

#[test]
fn broadcast_round_trip_keeps_bytes() {
    let f = Broadcast::new("eve".to_string(), 4, Bytes::from(vec![7u8, 8])).into_frame();
    match Bing2BingCommand::from_frame(f) {
        Ok(Bing2BingCommand::Broadcast(b)) => {
            assert_eq!(b.source, "eve");
            assert_eq!(b.sequence_number, 4);
            assert_eq!(b.data, Bytes::from(vec![7u8, 8]));
        }
        other => panic!("unexpected {:?}", other),
    }
}

#[test]
fn other_commands_round_trip() {
    match Bing2BingCommand::from_frame(Say::new("a".to_string(), 1, "hello").into_frame()) {
        Ok(Bing2BingCommand::Say(s)) => {
            assert_eq!((s.source.as_str(), s.sequence_number, s.message.as_str()), ("a", 1, "hello"))
        }
        other => panic!("unexpected {:?}", other),
    }
    match Bing2BingCommand::from_frame(Ping::new("a", "b", 2, 1000).into_frame()) {
        Ok(Bing2BingCommand::Ping(p)) => {
            assert_eq!((p.source.as_str(), p.destination.as_str(), p.sequence_number, p.sent_at), ("a", "b", 2, 1000))
        }
        other => panic!("unexpected {:?}", other),
    }
    match Bing2BingCommand::from_frame(Pong::new("b", "a", 3, 1000).into_frame()) {
        Ok(Bing2BingCommand::Pong(p)) => {
            assert_eq!((p.source.as_str(), p.destination.as_str(), p.sequence_number, p.sent_at), ("b", "a", 3, 1000))
        }
        other => panic!("unexpected {:?}", other),
    }
    let d = Deliver::new("a".to_string(), 4, "c".to_string(), Bytes::from(vec![5u8]));
    match Bing2BingCommand::from_frame(d.into_frame()) {
        Ok(Bing2BingCommand::Deliver(d)) => {
            assert_eq!((d.source.as_str(), d.sequence_number, d.destination.as_str()), ("a", 4, "c"));
            assert_eq!(d.data, Bytes::from(vec![5u8]));
        }
        other => panic!("unexpected {:?}", other),
    }
    match Bing2BingCommand::from_frame(Register::new("a", 5, "10.0.0.1", "3000").into_frame()) {
        Ok(Bing2BingCommand::Register(r)) => {
            assert_eq!(
                (r.name.as_str(), r.sequence_number, r.ip_address.as_str(), r.port.as_str()),
                ("a", 5, "10.0.0.1", "3000")
            )
        }
        other => panic!("unexpected {:?}", other),
    }
}

#[test]
fn announce_round_trip() {
    let a = Announce::new(
        "a",
        6,
        "10.0.0.1",
        3000,
        2,
        "Paris",
        "48.85".to_string(),
        "2.35".to_string(),
        vec!["b".to_string(), "c".to_string()],
    );
    let f = a.into_frame();
    assert_eq!(
        dbg(&f),
        r#"Array([Text("announce"), Text("a"), Number(6), Text("10.0.0.1"), Number(3000), Number(2), Text("Paris"), Text("48.85"), Text("2.35"), Array([Text("b"), Text("c")])])"#
    );
    match Bing2BingCommand::from_frame(f) {
        Ok(Bing2BingCommand::Announce(a)) => {
            assert_eq!(a.source, "a");
            assert_eq!(a.sequence_number, 6);
            assert_eq!(a.details.len(), 7);
        }
        other => panic!("unexpected {:?}", other),
    }
}

#[test]
fn unknown_tag_is_unknown() {
    let f = Bing2BingFrame::Array(vec![text("dance"), text("x")]);
    assert!(matches!(Bing2BingCommand::from_frame(f), Ok(Bing2BingCommand::Unknown)));
}

#[test]
fn malformed_commands_are_refused() {
    assert_eq!(
        Bing2BingCommand::from_frame(text("whisper")).err(),
        Some(ParseError::NotAnArray)
    );
    assert_eq!(
        Bing2BingCommand::from_frame(Bing2BingFrame::Array(vec![])).err(),
        Some(ParseError::EndOfStream)
    );
    assert_eq!(
        Bing2BingCommand::from_frame(Bing2BingFrame::Array(vec![Bing2BingFrame::Number(1)])).err(),
        Some(ParseError::UnexpectedFrame)
    );
    let short = Bing2BingFrame::Array(vec![text("say"), text("a"), Bing2BingFrame::Number(1)]);
    assert_eq!(Bing2BingCommand::from_frame(short).err(), Some(ParseError::EndOfStream));
    let wrong = Bing2BingFrame::Array(vec![text("say"), text("a"), text("1"), text("m")]);
    assert_eq!(Bing2BingCommand::from_frame(wrong).err(), Some(ParseError::UnexpectedFrame));
    let long = Bing2BingFrame::Array(vec![
        text("say"),
        text("a"),
        Bing2BingFrame::Number(1),
        text("m"),
        text("extra"),
    ]);
    assert_eq!(Bing2BingCommand::from_frame(long).err(), Some(ParseError::ExtraFrames));
}

#[test]
fn parser_reads_parts_in_order() {
    let f = Bing2BingFrame::Array(vec![
        text("a"),
        Bing2BingFrame::Number(5),
        Bing2BingFrame::Bulk(vec![1, 2]),
    ]);
    let mut p = Parser::new(f).unwrap();
    assert_eq!(p.next_text().unwrap(), "a");
    assert_eq!(p.next_number().unwrap(), 5);
    assert_eq!(p.next_bytes().unwrap(), Bytes::from(vec![1u8, 2]));
    assert_eq!(p.finish(), Ok(()));
    assert_eq!(p.next().err(), Some(ParseError::EndOfStream));
    assert_eq!(p.next_text().err(), Some(ParseError::EndOfStream));
}

#[test]
fn parser_errors() {
    assert_eq!(Parser::new(Bing2BingFrame::Number(1)).err(), Some(ParseError::NotAnArray));
    let mut p = Parser::new(Bing2BingFrame::Array(vec![Bing2BingFrame::Number(1), text("b")])).unwrap();
    assert_eq!(p.finish(), Err(ParseError::ExtraFrames));
    assert_eq!(p.next_text().err(), Some(ParseError::UnexpectedFrame));
    assert_eq!(p.next_number().err(), Some(ParseError::UnexpectedFrame));
    assert_eq!(p.finish(), Ok(()));
}

#[test]
fn duplicate_frame_is_equal() {
    let f = Bing2BingFrame::Array(vec![text("a"), Bing2BingFrame::Array(vec![Bing2BingFrame::Bulk(vec![3])])]);
    assert_eq!(dbg(&f.duplicate()), dbg(&f));
}
