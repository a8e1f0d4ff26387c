use bing2bing::cmd::extension::{Extension, ExtensionAction};
use bing2bing::cmd::ping::Ping;
use bing2bing::cmd::pong::Pong;
use bing2bing::cmd::say::Say;
use bing2bing::cmd::whisper::Whisper;
use bing2bing::cmd::announce::Announce;
use bing2bing::cmd::broadcast::Broadcast;
use bing2bing::cmd::deliver::Deliver;
use bing2bing::cmd::register::Register;
use bing2bing::frame::Bing2BingFrame;
use bing2bing::message::ClientServerMessage;
use bing2bing::parser::ParseError;
use bing2bing::server::{ConnectionAction, PeeringInfo, RegisterResponseError, Server};
use bing2bing::util::{AdjacencyList, ProcessedCommands, SequenceNumberGenerator};
use bytes::Bytes;

fn dbg<T: std::fmt::Debug>(x: &T) -> String {
    format!("{:?}", x)
}

fn text(s: &str) -> Bing2BingFrame {
    Bing2BingFrame::Text(s.to_string())
}

fn peering() -> PeeringInfo {
    PeeringInfo { adjacency_list: AdjacencyList::new(), processed_commands: ProcessedCommands::new() }
}

#[test]
fn sequence_numbers_count_up_and_wrap() {
    let mut g = SequenceNumberGenerator::new(5);
    assert_eq!(g.next(), 5);
    assert_eq!(g.next(), 6);
    let mut g = SequenceNumberGenerator::new(u64::MAX);
    assert_eq!(g.next(), u64::MAX);
    assert_eq!(g.next(), 0);
}

#[test]
fn processed_commands_remember() {
    let mut p = ProcessedCommands::new();
    let a = "alice".to_string();
    assert!(!p.check_duplicate(&a, 1));
    p.set_processed(a.clone(), 1);
    assert!(p.check_duplicate(&a, 1));
    assert!(!p.check_duplicate(&a, 2));
    assert!(!p.check_duplicate(&"bob".to_string(), 1));
}

#[test]
fn adjacency_list_remembers() {
    let mut l = AdjacencyList::new();
    assert!(!l.contains(&"b".to_string()));
    l.insert("b".to_string());
    l.insert("b".to_string());
    assert!(l.contains(&"b".to_string()));
}

#[test]
fn same_command_twice_is_handled_once() {
    let me = "me".to_string();
    let mut info = peering();
    let mut seq = SequenceNumberGenerator::new(0);
    let first = Server::handle_frame(&mut info, Say::new("a".to_string(), 1, "hi").into_frame(), &me, &mut seq).unwrap();
    assert_eq!(first.len(), 2);
    let second = Server::handle_frame(&mut info, Say::new("a".to_string(), 1, "hi").into_frame(), &me, &mut seq).unwrap();
    assert!(second.is_empty());
    let other = Server::handle_frame(&mut info, Say::new("a".to_string(), 2, "hi").into_frame(), &me, &mut seq).unwrap();
    assert_eq!(other.len(), 2);
}

#[test]
fn say_goes_to_client_and_onwards() {
    let me = "me".to_string();
    let mut info = peering();
    let mut seq = SequenceNumberGenerator::new(0);
    let actions = Server::handle_frame(&mut info, Say::new("a".to_string(), 1, "hi").into_frame(), &me, &mut seq).unwrap();
    assert_eq!(dbg(&actions[0]), r#"ToClient(Say(("a", "hi")))"#);
    assert_eq!(
        dbg(&actions[1]),
        r#"Broadcast(Outgoing { from: "a", frame: Array([Text("say"), Text("a"), Number(1), Text("hi")]) })"#
    );
}

#[test]
fn ping_for_me_is_answered_with_a_pong() {
    let me = "me".to_string();
    let mut info = peering();
    let mut seq = SequenceNumberGenerator::new(40);
    let actions = Server::handle_frame(&mut info, Ping::new("a", "me", 3, 1234).into_frame(), &me, &mut seq).unwrap();
    assert_eq!(actions.len(), 1);
    assert_eq!(
        dbg(&actions[0]),
        r#"Broadcast(Outgoing { from: "me", frame: Array([Text("pong"), Text("me"), Number(40), Text("a"), Number(1234)]) })"#
    );
    assert_eq!(seq.next(), 41);
}

#[test]
fn ping_for_another_is_forwarded() {
    let me = "me".to_string();
    let mut info = peering();
    let mut seq = SequenceNumberGenerator::new(40);
    let actions = Server::handle_frame(&mut info, Ping::new("a", "b", 3, 1234).into_frame(), &me, &mut seq).unwrap();
    assert_eq!(
        dbg(&actions[0]),
        r#"Broadcast(Outgoing { from: "a", frame: Array([Text("ping"), Text("a"), Number(3), Text("b"), Number(1234)]) })"#
    );
    assert_eq!(seq.next(), 40);
}

#[test]
fn pong_for_me_reaches_client() {
    let me = "me".to_string();
    let mut info = peering();
    let mut seq = SequenceNumberGenerator::new(0);
    let actions = Server::handle_frame(&mut info, Pong::new("b", "me", 9, 77).into_frame(), &me, &mut seq).unwrap();
    assert_eq!(dbg(&actions[0]), r#"ToClient(Pong(("b", 77)))"#);
    let actions = Server::handle_frame(&mut info, Pong::new("b", "c", 10, 77).into_frame(), &me, &mut seq).unwrap();
    assert_eq!(
        dbg(&actions[0]),
        r#"Broadcast(Outgoing { from: "b", frame: Array([Text("pong"), Text("b"), Number(10), Text("c"), Number(77)]) })"#
    );
}

#[test]
fn whisper_routing() {
    let me = "me".to_string();
    let mut info = peering();
    let mut seq = SequenceNumberGenerator::new(0);
    let to_me = Server::handle_frame(&mut info, Whisper::new("a", 1, "me", "psst").into_frame(), &me, &mut seq).unwrap();
    assert_eq!(dbg(&to_me[0]), r#"ToClient(Whisper(("a", "me", "psst")))"#);
    let other = Server::handle_frame(&mut info, Whisper::new("a", 2, "c", "psst").into_frame(), &me, &mut seq).unwrap();
    assert_eq!(other.len(), 1);
    assert_eq!(
        dbg(&other[0]),
        r#"Broadcast(Outgoing { from: "a", frame: Array([Text("whisper"), Text("a"), Number(2), Text("c"), Text("psst")]) })"#
    );
    let ann = Announce::new("c", 1, "10.0.0.3", 3003, 1, "Rome", "41.9".to_string(), "12.5".to_string(), vec![]);
    let ann_actions = Server::handle_frame(&mut info, ann.into_frame(), &me, &mut seq).unwrap();
    assert_eq!(ann_actions.len(), 1);
    assert!(info.adjacency_list.contains(&"c".to_string()));
}

#[test]
fn whisper_apply_broadcasts() {
    let o = Whisper::new("a", 1, "c", "m").apply();
    assert_eq!(
        dbg(&o),
        r#"Outgoing { from: "a", frame: Array([Text("whisper"), Text("a"), Number(1), Text("c"), Text("m")]) }"#
    );
}

#[test]
fn broadcast_and_deliver_handling() {
    let me = "me".to_string();
    let mut info = peering();
    let mut seq = SequenceNumberGenerator::new(0);
    let b = Broadcast::new("a".to_string(), 1, Bytes::from(vec![1u8, 2]));
    let actions = Server::handle_frame(&mut info, b.into_frame(), &me, &mut seq).unwrap();
    assert_eq!(dbg(&actions[0]), r#"ToClient(Broadcast(("a", b"\x01\x02")))"#);
    assert_eq!(
        dbg(&actions[1]),
        r#"Broadcast(Outgoing { from: "a", frame: Array([Text("broadcast"), Text("a"), Number(1), Bulk([1, 2])]) })"#
    );
    let d = Deliver::new("a".to_string(), 2, "me".to_string(), Bytes::from(vec![3u8]));
    let actions = Server::handle_frame(&mut info, d.into_frame(), &me, &mut seq).unwrap();
    assert_eq!(dbg(&actions[0]), r#"ToClient(Deliver(("a", "me", [3])))"#);
    let d = Deliver::new("a".to_string(), 3, "z".to_string(), Bytes::from(vec![3u8]));
    let actions = Server::handle_frame(&mut info, d.into_frame(), &me, &mut seq).unwrap();
    assert_eq!(
        dbg(&actions[0]),
        r#"Broadcast(Outgoing { from: "a", frame: Array([Text("deliver"), Text("a"), Number(3), Text("z"), Bulk([3])]) })"#
    );
}

#[test]
fn extension_handling_compares_sequence_numbers() {
    let me = "me".to_string();
    let mut info = peering();
    let mut seq = SequenceNumberGenerator::new(7);
    let e = Extension::new("a".to_string(), 7, 3, text("x"));
    let actions = Server::handle_frame(&mut info, e.into_frame(), &me, &mut seq).unwrap();
    assert_eq!(dbg(&actions[0]), r#"ToClient(Extension(("a", 3, Text("x"))))"#);
    let e = Extension::new("a".to_string(), 2, 3, text("x"));
    let actions = Server::handle_frame(&mut info, e.into_frame(), &me, &mut seq).unwrap();
    assert!(matches!(actions[0], ConnectionAction::RunExtension(_)));
    assert_eq!(seq.next(), 9);
}

#[test]
fn register_and_unknown_do_nothing() {
    let me = "me".to_string();
    let mut info = peering();
    let mut seq = SequenceNumberGenerator::new(0);
    let r = Register::new("a", 1, "1.2.3.4", "5").into_frame();
    assert!(Server::handle_frame(&mut info, r, &me, &mut seq).unwrap().is_empty());
    let u = Bing2BingFrame::Array(vec![text("nope")]);
    assert!(Server::handle_frame(&mut info, u, &me, &mut seq).unwrap().is_empty());
}

#[test]
fn malformed_frame_is_an_error() {
    let me = "me".to_string();
    let mut info = peering();
    let mut seq = SequenceNumberGenerator::new(0);
    let r = Server::handle_frame(&mut info, Bing2BingFrame::Number(3), &me, &mut seq);
    assert_eq!(r.err(), Some(ParseError::NotAnArray));
}

#[test]
fn client_requests_take_fresh_sequence_numbers() {
    let mut seq = SequenceNumberGenerator::new(100);
    let o = Server::handle_client_message(ClientServerMessage::Say(("me".to_string(), "yo".to_string())), &mut seq);
    assert_eq!(dbg(&o), r#"Outgoing { from: "me", frame: Array([Text("say"), Text("me"), Number(100), Text("yo")]) }"#);
    let o = Server::handle_client_message(ClientServerMessage::Ping(("me".to_string(), "b".to_string(), 5)), &mut seq);
    assert_eq!(dbg(&o.frame), r#"Array([Text("ping"), Text("me"), Number(101), Text("b"), Number(5)])"#);
    let o = Server::handle_client_message(
        ClientServerMessage::Whisper(("me".to_string(), "b".to_string(), "m".to_string())),
        &mut seq,
    );
    assert_eq!(dbg(&o.frame), r#"Array([Text("whisper"), Text("me"), Number(102), Text("b"), Text("m")])"#);
    let o = Server::handle_client_message(ClientServerMessage::Extension(("me".to_string(), 4, text("t"))), &mut seq);
    assert_eq!(dbg(&o.frame), r#"Array([Text("extension"), Text("me"), Number(103), Number(4), Text("t")])"#);
    let o = Server::handle_client_message(
        ClientServerMessage::Deliver(("me".to_string(), "b".to_string(), vec![1, 2])),
        &mut seq,
    );
    assert_eq!(dbg(&o.frame), r#"Array([Text("deliver"), Text("me"), Number(104), Text("b"), Bulk([1, 2])])"#);
    let o = Server::handle_client_message(
        ClientServerMessage::Broadcast(("me".to_string(), Bytes::from(vec![9u8]))),
        &mut seq,
    );
    assert_eq!(dbg(&o.frame), r#"Array([Text("broadcast"), Text("me"), Number(105), Bulk([9])])"#);
    assert_eq!(seq.next(), 106);
}

#[test]
fn server_new_reads_the_port() {
    let s = Server::new("me", "10.0.0.1", "3001");
    assert_eq!(s.name(), "me");
    assert_eq!(s.ip_address(), "10.0.0.1");
    assert_eq!(s.port(), 3001);
    assert_eq!(
        dbg(&s.register_frame(0)),
        r#"Array([Text("register"), Text("me"), Number(0), Text("10.0.0.1"), Text("3001")])"#
    );
}

fn entry(n: &str, ip: &str, port: &str) -> Bing2BingFrame {
    Bing2BingFrame::Array(vec![text(n), text(ip), text(port)])
}

#[test]
fn register_response_is_read() {
    let s = Server::new("me", "10.0.0.1", "3001");
    let resp = Bing2BingFrame::Array(vec![entry("a", "1.1.1.1", "1"), entry("me", "10.0.0.1", "3001"), entry("b", "2.2.2.2", "2")]);
    let peers = s.parse_register_response(resp).unwrap();
    assert_eq!(
        peers,
        vec![
            ("a".to_string(), "1.1.1.1".to_string(), "1".to_string()),
            ("me".to_string(), "10.0.0.1".to_string(), "3001".to_string()),
            ("b".to_string(), "2.2.2.2".to_string(), "2".to_string()),
        ]
    );
    let connect = s.peers_to_connect(peers);
    assert_eq!(
        connect,
        vec![
            ("a".to_string(), "1.1.1.1".to_string(), "1".to_string()),
            ("b".to_string(), "2.2.2.2".to_string(), "2".to_string()),
        ]
    );
    assert!(s.parse_register_response(Bing2BingFrame::Array(vec![])).unwrap().is_empty());
}

#[test]
fn register_response_errors() {
    let s = Server::new("me", "10.0.0.1", "3001");
    assert_eq!(
        s.parse_register_response(text("x")).err(),
        Some(RegisterResponseError::Parse(ParseError::NotAnArray))
    );
    assert_eq!(
        s.parse_register_response(Bing2BingFrame::Array(vec![entry("a", "b", "c"), text("x")])).err(),
        Some(RegisterResponseError::EntryNotAnArray)
    );
    let short = Bing2BingFrame::Array(vec![Bing2BingFrame::Array(vec![text("a"), text("b")])]);
    assert_eq!(
        s.parse_register_response(short).err(),
        Some(RegisterResponseError::Parse(ParseError::EndOfStream))
    );
    let bad = Bing2BingFrame::Array(vec![Bing2BingFrame::Array(vec![text("a"), Bing2BingFrame::Number(1), text("c")])]);
    assert_eq!(
        s.parse_register_response(bad).err(),
        Some(RegisterResponseError::Parse(ParseError::UnexpectedFrame))
    );
    let long = Bing2BingFrame::Array(vec![Bing2BingFrame::Array(vec![text("a"), text("b"), text("c"), text("d")])]);
    assert_eq!(
        s.parse_register_response(long).err(),
        Some(RegisterResponseError::Parse(ParseError::ExtraFrames))
    );
}

#[test]
fn available_incoming_connections() {
    assert_eq!(Server::available_incoming(2, 5), 3);
    assert_eq!(Server::available_incoming(5, 5), 0);
    assert_eq!(Server::available_incoming(9, 5), 0);
}

#[test]
fn announcement_layout() {
    let s = Server::new("me", "10.0.0.1", "3001");
    let o = s.announcement(8, 1, 5, "Oslo", "59.9".to_string(), "10.7".to_string(), vec!["a".to_string()]);
    assert_eq!(
        dbg(&o),
        r#"Outgoing { from: "me", frame: Array([Text("announce"), Text("me"), Number(8), Text("10.0.0.1"), Number(3001), Number(4), Text("Oslo"), Text("59.9"), Text("10.7"), Array([Text("a")])]) }"#
    );
}

#[test]
fn outgoing_helpers() {
    assert_eq!(
        dbg(&Server::pong("me", "a", 1, 2)),
        r#"Outgoing { from: "me", frame: Array([Text("pong"), Text("me"), Number(1), Text("a"), Number(2)]) }"#
    );
    assert_eq!(
        dbg(&Server::say("me".to_string(), "x".to_string(), 3)),
        r#"Outgoing { from: "me", frame: Array([Text("say"), Text("me"), Number(3), Text("x")]) }"#
    );
}

fn ext(id: u64, payload: Bing2BingFrame) -> Extension {
    Extension::new("src".to_string(), 1, id, payload)
}

#[test]
fn extension_one_logs_statistics_and_passes_on() {
    let a = ext(1, text("cpu")).my_apply(3, 0);
    assert_eq!(a.len(), 2);
    assert_eq!(dbg(&a[0]), r#"AppendStatistics { path: "system_stats.log", source: "src", payload: Text("cpu") }"#);
    assert_eq!(
        dbg(&a[1]),
        r#"Broadcast(Outgoing { from: "src", frame: Array([Text("extension"), Text("src"), Number(1), Number(1), Text("cpu")]) })"#
    );
}

#[test]
fn extension_two_echoes_valid_messages() {
    let a = ext(2, text("Valid: yes")).my_apply(0, 0);
    assert_eq!(dbg(&a[0]), r#"Broadcast(Outgoing { from: "src", frame: Text("Echo from src: Valid: yes") })"#);
    assert_eq!(
        dbg(&a[1]),
        r#"AppendToFile { path: "validated_messages.log", contents: "Broadcasting a valid message: Echo from src: Valid: yes\n" }"#
    );
    assert!(ext(2, text("nope")).my_apply(0, 0).is_empty());
    assert!(ext(2, Bing2BingFrame::Number(1)).my_apply(0, 0).is_empty());
}

#[test]
fn extension_three_counts_peers() {
    let a = ext(3, text("count")).my_apply(12, 0);
    assert_eq!(
        dbg(&a[0]),
        r#"AppendToFile { path: "peer_count.log", contents: "Number of connected peers as reported by src: 12\n" }"#
    );
}

#[test]
fn extension_four_broadcasts_time() {
    let a = ext(4, text("time")).my_apply(0, 1700000000);
    assert_eq!(dbg(&a[0]), r#"Broadcast(Outgoing { from: "src", frame: Text("System time from src: 1700000000") })"#);
    assert_eq!(
        dbg(&a[1]),
        r#"AppendToFile { path: "broadcast_times.log", contents: "Broadcasting System Time: System time from src: 1700000000\n" }"#
    );
}

#[test]
fn extension_five_forwards_important_messages() {
    let a = ext(5, text("this is important")).my_apply(0, 0);
    assert_eq!(dbg(&a[0]), r#"Broadcast(Outgoing { from: "src", frame: Text("this is important") })"#);
    assert_eq!(
        dbg(&a[1]),
        r#"AppendToFile { path: "important_messages.log", contents: "Forwarding important message: this is important\n" }"#
    );
    assert!(ext(5, text("trivial")).my_apply(0, 0).is_empty());
}

#[test]
fn extension_six_saves() {
    let a = ext(6, text("Save me")).my_apply(0, 0);
    assert_eq!(dbg(&a[0]), r#"AppendToFile { path: "saved_messages.log", contents: "Save me" }"#);
    assert!(ext(6, text("save me")).my_apply(0, 0).is_empty());
}

#[test]
fn unknown_extension_is_passed_on() {
    let a = ext(77, text("?")).my_apply(0, 0);
    assert_eq!(a.len(), 1);
    assert!(matches!(a[0], ExtensionAction::Broadcast(_)));
    assert_eq!(
        dbg(&a[0]),
        r#"Broadcast(Outgoing { from: "src", frame: Array([Text("extension"), Text("src"), Number(1), Number(77), Text("?")]) })"#
    );
}

#[test]
fn outgoing_skips_its_own_sender() {
    let o = Server::say("b".to_string(), "x".to_string(), 1);
    let peers = vec!["a".to_string(), "b".to_string(), "c".to_string()];
    assert_eq!(o.recipients(&peers), vec!["a".to_string(), "c".to_string()]);
    assert!(o.recipients(&vec![]).is_empty());
}

#[test]
fn ping_comes_back_as_pong() {
    let alice = "alice".to_string();
    let bob = "bob".to_string();
    let mut alice_seq = SequenceNumberGenerator::new(0);
    let mut bob_seq = SequenceNumberGenerator::new(50);
    let out = Server::handle_client_message(
        ClientServerMessage::Ping((alice.clone(), bob.clone(), 4242)),
        &mut alice_seq,
    );
    let mut bob_info = peering();
    let mut answer = Server::handle_frame(&mut bob_info, out.frame, &bob, &mut bob_seq).unwrap();
    let pong = match answer.remove(0) {
        ConnectionAction::Broadcast(o) => {
            assert_eq!(o.from, "bob");
            o.frame
        }
        other => panic!("unexpected {:?}", other),
    };
    let mut alice_info = peering();
    let back = Server::handle_frame(&mut alice_info, pong, &alice, &mut alice_seq).unwrap();
    assert_eq!(dbg(&back[0]), r#"ToClient(Pong(("bob", 4242)))"#);
}

#[test]
fn request_reaches_other_client() {
    let client = bing2bing::client::Client::new("alice".to_string());
    let mut seq = SequenceNumberGenerator::new(0);
    let out = Server::handle_client_message(client.whisper("bob", "hello bob"), &mut seq);
    let mut info = peering();
    let mut bob_seq = SequenceNumberGenerator::new(0);
    let got = Server::handle_frame(&mut info, out.frame, &"bob".to_string(), &mut bob_seq).unwrap();
    assert_eq!(dbg(&got[0]), r#"ToClient(Whisper(("alice", "bob", "hello bob")))"#);
}
