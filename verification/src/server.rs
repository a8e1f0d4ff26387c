//! The decisions of a peer's server: what goes out to the network for each
//! request of its client, how each command that arrives is handled, and how
//! the peer registers and announces itself.

use crate::cmd::announce::{announce_details, announce_frame, Announce, AnnounceView};
use crate::cmd::broadcast::{broadcast_frame, Broadcast, BroadcastView};
use crate::cmd::deliver::{deliver_frame, Deliver, DeliverView};
use crate::cmd::extension::{extension_frame, Extension, ExtensionView};
use crate::cmd::ping::{ping_frame, Ping, PingView};
use crate::cmd::pong::{pong_frame, Pong, PongView};
use crate::cmd::register::{register_frame, Register, RegisterView};
use crate::cmd::say::{say_frame, Say, SayView};
use crate::cmd::whisper::{whisper_frame, Whisper, WhisperView};
use crate::command::{
    decode_command, lemma_broadcast_round_trip, lemma_deliver_round_trip, lemma_extension_round_trip,
    lemma_ping_round_trip, lemma_pong_round_trip, lemma_say_round_trip, lemma_whisper_round_trip, Bing2BingCommand,
    CommandView,
};
use crate::frame::{Bing2BingFrame, FrameView};
use crate::message::{ClientServerMessage, MessageView};
use crate::parser::{fields_error, lemma_fields_skip, FieldKind, ParseError, Parser};
use crate::payload::{bytes_clone, bytes_contents, bytes_from_vec, bytes_to_vec};
use crate::text::{decimal, parse_u64, parse_u64_spec, u64_to_decimal};
use crate::util::{successor, AdjacencyList, ProcessedCommands, SequenceNumberGenerator};
use bytes::Bytes;
use vstd::prelude::*;

verus! {

/// A frame to send to every connected peer, on behalf of `from`.
#[derive(Debug)]
pub struct Outgoing {
    /// The peer the frame is sent on behalf of.
    pub from: String,
    /// The frame.
    pub frame: Bing2BingFrame,
}

impl View for Outgoing {
    type V = (Seq<char>, FrameView);

    open spec fn view(&self) -> (Seq<char>, FrameView) {
        (self.from@, self.frame@)
    }
}

impl Outgoing {
    /// The connected peers the frame goes to: every one but the peer it is
    /// sent on behalf of, in the order given.
    pub fn recipients(&self, peers: &Vec<String>) -> (r: Vec<String>)
        ensures
            r@.map_values(|p: String| p@) == peers@.map_values(|p: String| p@).filter(
                |p: Seq<char>| p != self.from@,
            ),
    {
        let ghost from = self.from@;
        let ghost keep = |p: Seq<char>| p != from;
        let ghost all = peers@.map_values(|p: String| p@);
        let mut r: Vec<String> = Vec::new();
        let mut i: usize = 0;
        while i < peers.len()
            invariant
                from == self.from@,
                keep == (|p: Seq<char>| p != from),
                all == peers@.map_values(|p: String| p@),
                i <= peers.len(),
                r@.map_values(|p: String| p@) == all.take(i as int).filter(keep),
            decreases peers.len() - i,
        {
            let ghost pv = peers@[i as int]@;
            assert(all[i as int] == pv);
            proof {
                reveal_with_fuel(Seq::<_>::filter, 1);
                assert(all.take(i + 1).drop_last() =~= all.take(i as int));
            }
            if peers[i] != self.from {
                let ghost before = r@.map_values(|p: String| p@);
                r.push(peers[i].clone());
                assert(r@.map_values(|p: String| p@) =~= before.push(pv));
            }
            i = i + 1;
        }
        assert(all.take(peers.len() as int) =~= all);
        assert(keep =~= (|p: Seq<char>| p != self.from@));
        r
    }
}

/// What a peer does about one command that arrived on a connection.
#[derive(Debug)]
pub enum ConnectionAction {
    /// Hand a message to the peer's own client.
    ToClient(ClientServerMessage),
    /// Send a frame to every connected peer, on behalf of `from`.
    Broadcast(Outgoing),
    /// Run an extension; see [`Extension::my_apply`].
    RunExtension(Extension),
}

/// The value of a [`ConnectionAction`].
pub enum ActionView {
    ToClient(MessageView),
    Broadcast(Seq<char>, FrameView),
    RunExtension(ExtensionView),
}

impl View for ConnectionAction {
    type V = ActionView;

    open spec fn view(&self) -> ActionView {
        match self {
            ConnectionAction::ToClient(m) => ActionView::ToClient(m@),
            ConnectionAction::Broadcast(o) => ActionView::Broadcast(o.from@, o.frame@),
            ConnectionAction::RunExtension(e) => ActionView::RunExtension(e@),
        }
    }
}

/// The views of a list of actions.
pub open spec fn actions_view(v: Seq<ConnectionAction>) -> Seq<ActionView> {
    v.map_values(|a: ConnectionAction| a@)
}

/// What a peer remembers across the commands of all its connections.
#[derive(Debug)]
pub struct PeeringInfo {
    /// The peers a route is known to.
    pub adjacency_list: AdjacencyList,
    /// The commands already processed.
    pub processed_commands: ProcessedCommands,
}

impl View for PeeringInfo {
    type V = (Set<Seq<char>>, Set<(Seq<char>, u64)>);

    open spec fn view(&self) -> (Set<Seq<char>>, Set<(Seq<char>, u64)>) {
        (self.adjacency_list@, self.processed_commands@)
    }
}

/// The key by which a command is recognized when it arrives again: its
/// sender and sequence number.
pub open spec fn command_key(c: CommandView) -> Option<(Seq<char>, u64)> {
    match c {
        CommandView::Ping(x) => Some((x.source, x.sequence_number)),
        CommandView::Pong(x) => Some((x.source, x.sequence_number)),
        CommandView::Say(x) => Some((x.source, x.sequence_number)),
        CommandView::Announce(x) => Some((x.source, x.sequence_number)),
        CommandView::Broadcast(x) => Some((x.source, x.sequence_number)),
        CommandView::Deliver(x) => Some((x.source, x.sequence_number)),
        CommandView::Whisper(x) => Some((x.source, x.sequence_number)),
        CommandView::Extension(x) => Some((x.source, x.sequence_number)),
        CommandView::Register(x) => Some((x.name, x.sequence_number)),
        CommandView::Unknown => None,
    }
}

/// Whether handling `c` draws a sequence number: a ping meant for us (we
/// answer it with a pong of our own) and every extension message.
pub open spec fn draws_sequence_number(c: CommandView, my_name: Seq<char>) -> bool {
    match c {
        CommandView::Ping(x) => x.destination == my_name,
        CommandView::Extension(_) => true,
        _ => false,
    }
}

/// The routes known after handling `c`: an announcement makes its sender known.
pub open spec fn routes_after(c: CommandView, routes: Set<Seq<char>>) -> Set<Seq<char>> {
    match c {
        CommandView::Announce(x) => routes.insert(x.source),
        _ => routes,
    }
}

/// What a peer named `my_name` does about a new command `c`, when `seq` is
/// the next sequence number it would hand out.
pub open spec fn command_actions(c: CommandView, my_name: Seq<char>, seq: u64) -> Seq<ActionView> {
    match c {
        CommandView::Pong(x) => if x.destination == my_name {
            seq![ActionView::ToClient(MessageView::Pong(x.source, x.sent_at))]
        } else {
            seq![ActionView::Broadcast(x.source, pong_frame(x))]
        },
        CommandView::Ping(x) => if x.destination == my_name {
            seq![
                ActionView::Broadcast(
                    my_name,
                    pong_frame(
                        PongView {
                            source: my_name,
                            sequence_number: seq,
                            destination: x.source,
                            sent_at: x.sent_at,
                        },
                    ),
                ),
            ]
        } else {
            seq![ActionView::Broadcast(x.source, ping_frame(x))]
        },
        CommandView::Say(x) => seq![
            ActionView::ToClient(MessageView::Say(x.source, x.message)),
            ActionView::Broadcast(x.source, say_frame(x)),
        ],
        CommandView::Announce(x) => seq![ActionView::Broadcast(x.source, announce_frame(x))],
        CommandView::Broadcast(x) => seq![
            ActionView::ToClient(MessageView::Broadcast(x.source, x.data)),
            ActionView::Broadcast(x.source, broadcast_frame(x)),
        ],
        CommandView::Deliver(x) => if x.destination == my_name {
            seq![ActionView::ToClient(MessageView::Deliver(x.source, x.destination, x.data))]
        } else {
            seq![ActionView::Broadcast(x.source, deliver_frame(x))]
        },
        CommandView::Whisper(x) => if x.destination == my_name {
            seq![ActionView::ToClient(MessageView::Whisper(x.source, x.destination, x.message))]
        } else {
            seq![ActionView::Broadcast(x.source, whisper_frame(x))]
        },
        CommandView::Extension(x) => if x.sequence_number == seq {
            seq![ActionView::ToClient(MessageView::Extension(x.source, x.extension_id, x.payload))]
        } else {
            seq![ActionView::RunExtension(x)]
        },
        CommandView::Register(_) => seq![],
        CommandView::Unknown => seq![],
    }
}

/// Whether `c` was processed before.
pub open spec fn seen_before(c: CommandView, processed: Set<(Seq<char>, u64)>) -> bool {
    match command_key(c) {
        Some(k) => processed.contains(k),
        None => false,
    }
}

/// The processed commands once `c` is processed too.
pub open spec fn mark_processed(c: CommandView, processed: Set<(Seq<char>, u64)>) -> Set<
    (Seq<char>, u64),
> {
    match command_key(c) {
        Some(k) => processed.insert(k),
        None => processed,
    }
}

/// The sequence number the generator holds after handling `c`.
pub open spec fn seq_after(c: CommandView, my_name: Seq<char>, seq: u64) -> u64 {
    if draws_sequence_number(c, my_name) {
        successor(seq)
    } else {
        seq
    }
}

/// The sender and sequence number of a command, by which it is recognized
/// when it arrives again.
fn command_key_of(command: &Bing2BingCommand) -> (r: Option<(String, u64)>)
    ensures
        match (r, command_key(command@)) {
            (Some(k), Some(kv)) => k.0@ == kv.0 && k.1 == kv.1,
            (None, None) => true,
            _ => false,
        },
{
    match command {
        Bing2BingCommand::Ping(c) => Some((c.get_source(), c.get_sequence_number())),
        Bing2BingCommand::Pong(c) => Some((c.get_source(), c.get_sequence_number())),
        Bing2BingCommand::Say(c) => Some((c.get_source(), c.get_sequence_number())),
        Bing2BingCommand::Announce(c) => Some((c.get_source(), c.get_sequence_number())),
        Bing2BingCommand::Broadcast(c) => Some((c.get_source(), c.get_sequence_number())),
        Bing2BingCommand::Deliver(c) => Some((c.get_source(), c.get_sequence_number())),
        Bing2BingCommand::Whisper(c) => Some((c.get_source(), c.get_sequence_number())),
        Bing2BingCommand::Extension(c) => Some((c.get_source(), c.get_sequence_number())),
        Bing2BingCommand::Register(c) => Some((c.get_source(), c.get_sequence_number())),
        Bing2BingCommand::Unknown => None,
    }
}


/// Why a tracker's answer to a registration could not be read.
#[derive(Debug, Clone, Copy, PartialEq, Eq, Structural)]
pub enum RegisterResponseError {
    /// The answer, or one of its entries, is malformed.
    Parse(ParseError),
    /// An entry of the answer is not an `Array`.
    EntryNotAnArray,
}

/// A peer as the tracker lists it: `(name, ip_address, port)`.
pub type PeerEntryView = (Seq<char>, Seq<char>, Seq<char>);

/// The kinds of the parts of one entry of a tracker's answer.
pub open spec fn peer_entry_kinds() -> Seq<FieldKind> {
    seq![FieldKind::Text, FieldKind::Text, FieldKind::Text]
}

/// One entry of a tracker's answer: an `Array` of three `Text`s.
pub open spec fn peer_entry(e: FrameView) -> Result<PeerEntryView, RegisterResponseError> {
    match e {
        FrameView::Array(p) => match fields_error(peer_entry_kinds(), p) {
            Some(err) => Err(RegisterResponseError::Parse(err)),
            None => Ok((p[0]->Text_0, p[1]->Text_0, p[2]->Text_0)),
        },
        _ => Err(RegisterResponseError::EntryNotAnArray),
    }
}

/// The entries of a tracker's answer, in order, or the first error met.
pub open spec fn peer_entries(es: Seq<FrameView>) -> Result<Seq<PeerEntryView>, RegisterResponseError>
    decreases es.len(),
{
    if es.len() == 0 {
        Ok(seq![])
    } else {
        match peer_entry(es[0]) {
            Err(e) => Err(e),
            Ok(t) => match peer_entries(es.drop_first()) {
                Err(e) => Err(e),
                Ok(rest) => Ok(seq![t] + rest),
            },
        }
    }
}

/// What a tracker's answer to a registration lists: it must be an `Array`
/// of entries.
pub open spec fn register_response(f: FrameView) -> Result<Seq<PeerEntryView>, RegisterResponseError> {
    match f {
        FrameView::Array(es) => peer_entries(es),
        _ => Err(RegisterResponseError::Parse(ParseError::NotAnArray)),
    }
}

/// The views of a list of peers.
pub open spec fn entries_view(v: Seq<(String, String, String)>) -> Seq<PeerEntryView> {
    v.map_values(|t: (String, String, String)| (t.0@, t.1@, t.2@))
}

/// `acc` followed by the outcome `r`.
pub open spec fn prepend_entries(
    acc: Seq<PeerEntryView>,
    r: Result<Seq<PeerEntryView>, RegisterResponseError>,
) -> Result<Seq<PeerEntryView>, RegisterResponseError> {
    match r {
        Ok(rest) => Ok(acc + rest),
        Err(e) => Err(e),
    }
}

/// The number of incoming connections a peer still offers.
pub open spec fn available_incoming_spec(num_incoming_conns: u64, max_incoming_conns: u64) -> u64 {
    if num_incoming_conns < max_incoming_conns {
        (max_incoming_conns - num_incoming_conns) as u64
    } else {
        0
    }
}

/// The frame a client's request goes out in, under sequence number `seq`,
/// and the peer it is sent on behalf of.
pub open spec fn client_request_outgoing(m: MessageView, seq: u64) -> (Seq<char>, FrameView) {
    match m {
        MessageView::Ping(from, to, sent_at) => (
            from,
            ping_frame(PingView { source: from, sequence_number: seq, destination: to, sent_at }),
        ),
        MessageView::Whisper(from, to, message) => (
            from,
            whisper_frame(WhisperView { source: from, sequence_number: seq, destination: to, message }),
        ),
        MessageView::Say(from, message) => (
            from,
            say_frame(SayView { source: from, sequence_number: seq, message }),
        ),
        MessageView::Extension(from, extension_id, payload) => (
            from,
            extension_frame(ExtensionView { source: from, sequence_number: seq, extension_id, payload }),
        ),
        MessageView::Deliver(from, to, data) => (
            from,
            deliver_frame(DeliverView { source: from, sequence_number: seq, destination: to, data }),
        ),
        MessageView::Broadcast(from, data) => (
            from,
            broadcast_frame(BroadcastView { source: from, sequence_number: seq, data }),
        ),
        MessageView::Pong(from, _) => (from, FrameView::Array(seq![])),
    }
}

/// Reads one entry of a tracker's answer.
fn parse_peer_entry(entry: Bing2BingFrame) -> (r: Result<(String, String, String), RegisterResponseError>)
    ensures
        match (r, peer_entry(entry@)) {
            (Ok(t), Ok(tv)) => t.0@ == tv.0 && t.1@ == tv.1 && t.2@ == tv.2,
            (Err(e), Err(ev)) => e == ev,
            _ => false,
        },
{
    let is_array = match &entry {
        Bing2BingFrame::Array(_) => true,
        _ => false,
    };
    if !is_array {
        return Err(RegisterResponseError::EntryNotAnArray);
    }
    let mut parse = match Parser::new(entry) {
        Ok(p) => p,
        Err(e) => {
            return Err(RegisterResponseError::Parse(e));
        },
    };
    let ghost p0 = parse@;
    let ghost k = peer_entry_kinds();
    proof {
        lemma_fields_skip(k, p0, 0);
        assert(p0 =~= p0.skip(0));
    }
    let name = match parse.next_text() {
        Ok(x) => x,
        Err(e) => {
            return Err(RegisterResponseError::Parse(e));
        },
    };
    proof {
        assert(parse@ =~= p0.skip(1));
        lemma_fields_skip(k, p0, 1);
    }
    let ip_address = match parse.next_text() {
        Ok(x) => x,
        Err(e) => {
            return Err(RegisterResponseError::Parse(e));
        },
    };
    proof {
        assert(parse@ =~= p0.skip(2));
        lemma_fields_skip(k, p0, 2);
    }
    let port = match parse.next_text() {
        Ok(x) => x,
        Err(e) => {
            return Err(RegisterResponseError::Parse(e));
        },
    };
    proof {
        assert(parse@ =~= p0.skip(3));
        lemma_fields_skip(k, p0, 3);
        assert(k.skip(3) =~= Seq::<FieldKind>::empty());
    }
    match parse.finish() {
        Ok(()) => {},
        Err(e) => {
            return Err(RegisterResponseError::Parse(e));
        },
    }
    Ok((name, ip_address, port))
}

/// A command is handled at most once: once a frame has been handled, the
/// command it carries counts as seen, so the same command arriving again, on
/// any connection, is dropped without any action.
pub proof fn lemma_handled_at_most_once(c: CommandView, processed: Set<(Seq<char>, u64)>)
    requires
        command_key(c) is Some,
    ensures
        seen_before(c, mark_processed(c, processed)),
{
}

/// The command that a client's request reaches the other peers as.
pub open spec fn request_command(m: MessageView, seq: u64) -> CommandView {
    match m {
        MessageView::Ping(from, to, sent_at) => CommandView::Ping(
            PingView { source: from, sequence_number: seq, destination: to, sent_at },
        ),
        MessageView::Whisper(from, to, message) => CommandView::Whisper(
            WhisperView { source: from, sequence_number: seq, destination: to, message },
        ),
        MessageView::Say(from, message) => CommandView::Say(
            SayView { source: from, sequence_number: seq, message },
        ),
        MessageView::Extension(from, extension_id, payload) => CommandView::Extension(
            ExtensionView { source: from, sequence_number: seq, extension_id, payload },
        ),
        MessageView::Deliver(from, to, data) => CommandView::Deliver(
            DeliverView { source: from, sequence_number: seq, destination: to, data },
        ),
        MessageView::Broadcast(from, data) => CommandView::Broadcast(
            BroadcastView { source: from, sequence_number: seq, data },
        ),
        MessageView::Pong(_, _) => CommandView::Unknown,
    }
}

/// What a client asks for reaches the other peers as exactly that: the
/// frame that goes out decodes to the requested command, from the client,
/// under the sequence number drawn for it, and it is sent on the client's
/// behalf.
pub proof fn lemma_request_reaches_peers(m: MessageView, seq: u64)
    requires
        !(m is Pong),
    ensures
        decode_command(client_request_outgoing(m, seq).1) == Ok::<CommandView, ParseError>(
            request_command(m, seq),
        ),
        command_key(request_command(m, seq)) == Some((client_request_outgoing(m, seq).0, seq)),
{
    match request_command(m, seq) {
        CommandView::Ping(c) => lemma_ping_round_trip(c),
        CommandView::Whisper(c) => lemma_whisper_round_trip(c),
        CommandView::Say(c) => lemma_say_round_trip(c),
        CommandView::Extension(c) => lemma_extension_round_trip(c),
        CommandView::Deliver(c) => lemma_deliver_round_trip(c),
        CommandView::Broadcast(c) => lemma_broadcast_round_trip(c),
        _ => {},
    }
}

/// A ping comes back as a pong: the peer it is addressed to answers, on
/// behalf of itself, with a pong to the sender that carries the ping's
/// `sent_at`; and that pong, once it reaches the sender, hands the sender's
/// client the responder's name and the time the ping was sent.
pub proof fn lemma_ping_answered(
    from: Seq<char>,
    to: Seq<char>,
    sent_at: u64,
    ping_seq: u64,
    responder_seq: u64,
    sender_seq: u64,
)
    ensures
        ({
            let ping = request_command(MessageView::Ping(from, to, sent_at), ping_seq);
            let answer = command_actions(ping, to, responder_seq);
            &&& answer.len() == 1
            &&& answer[0] is Broadcast
            &&& answer[0]->Broadcast_0 == to
            &&& decode_command(answer[0]->Broadcast_1) matches Ok(pong) && command_actions(pong, from, sender_seq)
                == seq![ActionView::ToClient(MessageView::Pong(to, sent_at))]
        }),
{
    lemma_pong_round_trip(
        PongView { source: to, sequence_number: responder_seq, destination: from, sent_at },
    );
}

/// What a client says, whispers or delivers reaches the client of the peer
/// it is meant for unchanged: a say reaches every peer's client, a whisper or
/// a delivery the client of its destination, the first time the command
/// arrives there.
pub proof fn lemma_request_reaches_client(
    m: MessageView,
    seq: u64,
    receiver: Seq<char>,
    receiver_seq: u64,
)
    requires
        m is Say || (m is Whisper && m->Whisper_1 == receiver) || (m is Deliver && m->Deliver_1 == receiver),
    ensures
        command_actions(request_command(m, seq), receiver, receiver_seq)[0] == ActionView::ToClient(m),
{
}

/// A peer offers all its free incoming connections: with `n` of at most `m`
/// connections taken, it announces `m - n` more (all `m` when none is taken
/// yet), and none once `n` reaches `m`; it never offers more than `m`.
pub proof fn lemma_available_incoming_counts_free_connections(n: u64, m: u64)
    ensures
        n < m ==> available_incoming_spec(n, m) + n == m,
        n == 0 ==> available_incoming_spec(n, m) == m,
        n >= m ==> available_incoming_spec(n, m) == 0,
        available_incoming_spec(n, m) <= m,
{
}

/// Every command other than `Unknown` is recognized when it comes again, by
/// its sender and its sequence number: once handled, it counts as seen, so a
/// second arrival of the same frame, whatever command it carries, gives no
/// action.
pub proof fn lemma_known_commands_are_recognized(c: CommandView, processed: Set<(Seq<char>, u64)>)
    requires
        !(c is Unknown),
    ensures
        seen_before(c, mark_processed(c, processed)),
        match c {
            CommandView::Ping(x) => command_key(c) == Some((x.source, x.sequence_number)),
            CommandView::Pong(x) => command_key(c) == Some((x.source, x.sequence_number)),
            CommandView::Say(x) => command_key(c) == Some((x.source, x.sequence_number)),
            CommandView::Announce(x) => command_key(c) == Some((x.source, x.sequence_number)),
            CommandView::Broadcast(x) => command_key(c) == Some((x.source, x.sequence_number)),
            CommandView::Deliver(x) => command_key(c) == Some((x.source, x.sequence_number)),
            CommandView::Whisper(x) => command_key(c) == Some((x.source, x.sequence_number)),
            CommandView::Extension(x) => command_key(c) == Some((x.source, x.sequence_number)),
            CommandView::Register(x) => command_key(c) == Some((x.name, x.sequence_number)),
            CommandView::Unknown => true,
        },
{
}

/// A tracker's answer made of well-formed entries (each an `Array` of three
/// `Text`s: name, address, port) lists exactly one peer per entry, in order:
/// every entry is read, none is dropped or added.
pub proof fn lemma_register_response_lists_every_entry(es: Seq<FrameView>)
    requires
        forall|i: int|
            0 <= i < es.len() ==> {
                &&& #[trigger] es[i] is Array
                &&& es[i]->Array_0.len() == 3
                &&& es[i]->Array_0[0] is Text
                &&& es[i]->Array_0[1] is Text
                &&& es[i]->Array_0[2] is Text
            },
    ensures
        register_response(FrameView::Array(es)) is Ok,
        register_response(FrameView::Array(es))->Ok_0.len() == es.len(),
        forall|i: int|
            0 <= i < es.len() ==> #[trigger] register_response(FrameView::Array(es))->Ok_0[i] == (
                es[i]->Array_0[0]->Text_0,
                es[i]->Array_0[1]->Text_0,
                es[i]->Array_0[2]->Text_0,
            ),
    decreases es.len(),
{
    if es.len() > 0 {
        let rest = es.drop_first();
        lemma_register_response_lists_every_entry(rest);
        let p = es[0]->Array_0;
        let k = peer_entry_kinds();
        assert(k.drop_first() =~= seq![FieldKind::Text, FieldKind::Text]);
        assert(k.drop_first().drop_first() =~= seq![FieldKind::Text]);
        assert(k.drop_first().drop_first().drop_first() =~= Seq::<FieldKind>::empty());
        assert(p.drop_first().drop_first().drop_first().len() == 0);
        reveal_with_fuel(fields_error, 4);
        assert(fields_error(k, p) is None);
        let t = (p[0]->Text_0, p[1]->Text_0, p[2]->Text_0);
        assert(peer_entry(es[0]) == Ok::<PeerEntryView, RegisterResponseError>(t));
        let v = peer_entries(rest)->Ok_0;
        assert(peer_entries(es) == Ok::<Seq<PeerEntryView>, RegisterResponseError>(seq![t] + v));
        assert forall|i: int| 0 <= i < es.len() implies #[trigger] (seq![t] + v)[i] == (
            es[i]->Array_0[0]->Text_0,
            es[i]->Array_0[1]->Text_0,
            es[i]->Array_0[2]->Text_0,
        ) by {
            if i > 0 {
                assert(rest[i - 1] == es[i]);
                assert(register_response(FrameView::Array(rest))->Ok_0[i - 1] == v[i - 1]);
            }
        }
    }
}

/// A peer never connects to itself: no peer it picks from a tracker's answer
/// bears its own name.
pub proof fn lemma_never_connects_to_self(entries: Seq<PeerEntryView>, name: Seq<char>, i: int)
    requires
        0 <= i < entries.filter(|t: PeerEntryView| t.0 != name).len(),
    ensures
        entries.filter(|t: PeerEntryView| t.0 != name)[i].0 != name,
{
    entries.lemma_filter_pred(|t: PeerEntryView| t.0 != name, i);
}

/// Sending `frame` to every connected peer, on behalf of `from`.
fn forward(from: String, frame: Bing2BingFrame) -> (r: ConnectionAction)
    ensures
        r@ == ActionView::Broadcast(from@, frame@),
{
    ConnectionAction::Broadcast(Outgoing { from, frame })
}

/// The values of a peer's server that the protocol uses: its name and the
/// address it listens on.
#[derive(Debug)]
pub struct Server {
    name: String,
    ip_address: String,
    port: u64,
}

/// The value of a [`Server`].
pub struct ServerView {
    pub name: Seq<char>,
    pub ip_address: Seq<char>,
    pub port: u64,
}

impl View for Server {
    type V = ServerView;

    closed spec fn view(&self) -> ServerView {
        ServerView { name: self.name@, ip_address: self.ip_address@, port: self.port }
    }
}

impl Server {
    /// The server of the peer `name`, listening on `bind_address:port`; the
    /// port must be a decimal number.
    pub fn new(name: &str, bind_address: &str, port: &str) -> (r: Server)
        requires
            parse_u64_spec(port@) is Some,
        ensures
            r@ == (ServerView {
                name: name@,
                ip_address: bind_address@,
                port: parse_u64_spec(port@)->0,
            }),
    {
        let port = parse_u64(port);
        Server { name: name.to_string(), ip_address: bind_address.to_string(), port: port.unwrap() }
    }

    /// The say that goes out when `from` says `message`.
    pub fn say(from: String, message: String, sequence_number: u64) -> (r: Outgoing)
        ensures
            r@ == (from@, say_frame(SayView { source: from@, sequence_number, message: message@ })),
    {
        let frame = Say::new(from.clone(), sequence_number, message.as_str()).into_frame();
        Outgoing { from, frame }
    }

    /// The ping that goes out when `from` pings `to`.
    pub fn ping(from: &str, to: &str, sequence_number: u64, sent_at: u64) -> (r: Outgoing)
        ensures
            r@ == (from@, ping_frame(PingView { source: from@, sequence_number, destination: to@, sent_at })),
    {
        let frame = Ping::new(from, to, sequence_number, sent_at).into_frame();
        Outgoing { from: from.to_string(), frame }
    }

    /// The pong that goes out when `from` answers a ping of `to`.
    pub fn pong(from: &str, to: &str, sequence_number: u64, sent_at: u64) -> (r: Outgoing)
        ensures
            r@ == (from@, pong_frame(PongView { source: from@, sequence_number, destination: to@, sent_at })),
    {
        let frame = Pong::new(from, to, sequence_number, sent_at).into_frame();
        Outgoing { from: from.to_string(), frame }
    }

    /// The whisper that goes out when `from` whispers `message` to `to`.
    pub fn whisper(from: &str, to: &str, message: &str, sequence_number: u64) -> (r: Outgoing)
        ensures
            r@ == (from@, whisper_frame(
                WhisperView { source: from@, sequence_number, destination: to@, message: message@ },
            )),
    {
        let frame = Whisper::new(from, sequence_number, to, message).into_frame();
        Outgoing { from: from.to_string(), frame }
    }

    /// The extension message that goes out when `from` sends `payload` to
    /// extension `extension_id`.
    pub fn extension(from: &str, extension_id: u64, payload: Bing2BingFrame, sequence_number: u64) -> (r: Outgoing)
        ensures
            r@ == (from@, extension_frame(
                ExtensionView { source: from@, sequence_number, extension_id, payload: payload@ },
            )),
    {
        let frame = Extension::new(from.to_string(), sequence_number, extension_id, payload).into_frame();
        Outgoing { from: from.to_string(), frame }
    }

    /// The delivery that goes out when `from` delivers `data` to `to`.
    pub fn deliver(from: &str, sequence_number: u64, to: &str, data: Bytes) -> (r: Outgoing)
        ensures
            r@ == (from@, deliver_frame(
                DeliverView { source: from@, sequence_number, destination: to@, data: bytes_contents(data) },
            )),
    {
        let frame = Deliver::new(from.to_string(), sequence_number, to.to_string(), data).into_frame();
        Outgoing { from: from.to_string(), frame }
    }

    /// The broadcast that goes out when `from` broadcasts `data`.
    pub fn broadcast(from: &str, sequence_number: u64, data: Bytes) -> (r: Outgoing)
        ensures
            r@ == (from@, broadcast_frame(
                BroadcastView { source: from@, sequence_number, data: bytes_contents(data) },
            )),
    {
        let frame = Broadcast::new(from.to_string(), sequence_number, data).into_frame();
        Outgoing { from: from.to_string(), frame }
    }

    /// What goes out for a request of the peer's own client; each request
    /// takes the next sequence number.  A client never sends a pong.
    pub fn handle_client_message(
        message: ClientServerMessage,
        sequence_numbers: &mut SequenceNumberGenerator,
    ) -> (r: Outgoing)
        requires
            !(message is Pong),
        ensures
            r@ == client_request_outgoing(message@, old(sequence_numbers)@),
            final(sequence_numbers)@ == successor(old(sequence_numbers)@),
    {
        match message {
            ClientServerMessage::Ping((from, to, sent_at)) => {
                let sequence_number = sequence_numbers.next();
                Server::ping(from.as_str(), to.as_str(), sequence_number, sent_at)
            },
            ClientServerMessage::Whisper((from, to, message)) => {
                let sequence_number = sequence_numbers.next();
                Server::whisper(from.as_str(), to.as_str(), message.as_str(), sequence_number)
            },
            ClientServerMessage::Say((from, message)) => {
                let sequence_number = sequence_numbers.next();
                Server::say(from, message, sequence_number)
            },
            ClientServerMessage::Extension((from, extension_id, payload)) => {
                let sequence_number = sequence_numbers.next();
                Server::extension(from.as_str(), extension_id, payload, sequence_number)
            },
            ClientServerMessage::Deliver((from, to, data)) => {
                let sequence_number = sequence_numbers.next();
                Server::deliver(from.as_str(), sequence_number, to.as_str(), bytes_from_vec(data))
            },
            ClientServerMessage::Broadcast((from, data)) => {
                let sequence_number = sequence_numbers.next();
                Server::broadcast(from.as_str(), sequence_number, data)
            },
            ClientServerMessage::Pong(_) => {
                proof {
                    assert(false);
                }
                Outgoing { from: String::new(), frame: Bing2BingFrame::Array(Vec::new()) }
            },
        }
    }

    /// The registration this peer sends the tracker.
    pub fn register_frame(&self, sequence_number: u64) -> (r: Bing2BingFrame)
        ensures
            r@ == register_frame(
                RegisterView {
                    name: self@.name,
                    sequence_number,
                    ip_address: self@.ip_address,
                    port: decimal(self@.port as nat),
                },
            ),
    {
        let port = u64_to_decimal(self.port);
        Register::new(self.name.as_str(), sequence_number, self.ip_address.as_str(), port.as_str()).into_frame()
    }

    /// Reads the tracker's answer to a registration: the peers it lists.
    pub fn parse_register_response(&self, response: Bing2BingFrame) -> (r: Result<
        Vec<(String, String, String)>,
        RegisterResponseError,
    >)
        ensures
            match (r, register_response(response@)) {
                (Ok(v), Ok(vv)) => entries_view(v@) == vv,
                (Err(e), Err(ev)) => e == ev,
                _ => false,
            },
    {
        let ghost rv = response@;
        let mut parse = match Parser::new(response) {
            Ok(p) => p,
            Err(e) => {
                return Err(RegisterResponseError::Parse(e));
            },
        };
        let ghost p0 = parse@;
        let mut ret: Vec<(String, String, String)> = Vec::new();
        loop
            invariant
                rv == response@,
                register_response(rv) == peer_entries(p0),
                peer_entries(p0) == prepend_entries(entries_view(ret@), peer_entries(parse@)),
            decreases parse@.len(),
        {
            match parse.next() {
                Ok(entry) => {
                    match parse_peer_entry(entry) {
                        Ok(t) => {
                            let ghost acc = entries_view(ret@);
                            ret.push(t);
                            proof {
                                assert(entries_view(ret@) =~= acc.push((t.0@, t.1@, t.2@)));
                                match peer_entries(parse@) {
                                    Ok(rest) => {
                                        assert(acc + (seq![(t.0@, t.1@, t.2@)] + rest) =~= acc.push(
                                            (t.0@, t.1@, t.2@),
                                        ) + rest);
                                    },
                                    Err(_) => {},
                                }
                            }
                        },
                        Err(e) => {
                            return Err(e);
                        },
                    }
                },
                Err(_) => {
                    assert(entries_view(ret@) + seq![] =~= entries_view(ret@));
                    return Ok(ret);
                },
            }
        }
    }

    /// The peers of a tracker's answer that this peer connects to: all but
    /// itself, in the order listed.
    pub fn peers_to_connect(&self, received: Vec<(String, String, String)>) -> (r: Vec<
        (String, String, String),
    >)
        ensures
            entries_view(r@) == entries_view(received@).filter(
                |t: PeerEntryView| t.0 != self@.name,
            ),
    {
        let ghost name = self@.name;
        let ghost keep = |t: PeerEntryView| t.0 != name;
        let ghost all = entries_view(received@);
        let mut r: Vec<(String, String, String)> = Vec::new();
        let mut i: usize = 0;
        while i < received.len()
            invariant
                name == self@.name,
                keep == (|t: PeerEntryView| t.0 != name),
                all == entries_view(received@),
                i <= received.len(),
                entries_view(r@) == all.take(i as int).filter(keep),
            decreases received.len() - i,
        {
            let t = &received[i];
            let ghost ev = (t.0@, t.1@, t.2@);
            assert(all[i as int] == ev);
            proof {
                reveal_with_fuel(Seq::<_>::filter, 1);
                assert(all.take(i + 1).drop_last() =~= all.take(i as int));
            }
            if t.0 != self.name {
                let ghost before = entries_view(r@);
                r.push((t.0.clone(), t.1.clone(), t.2.clone()));
                assert(entries_view(r@) =~= before.push(ev));
            }
            i = i + 1;
        }
        assert(all.take(all.len() as int) =~= all);
        r
    }

    /// The name of this peer.
    pub fn name(&self) -> (r: &String)
        ensures
            r@ == self@.name,
    {
        &self.name
    }

    /// The address this peer listens on.
    pub fn ip_address(&self) -> (r: &String)
        ensures
            r@ == self@.ip_address,
    {
        &self.ip_address
    }

    /// The port this peer listens on.
    pub fn port(&self) -> (r: u64)
        ensures
            r == self@.port,
    {
        self.port
    }

    /// How many more incoming connections a peer with `num_incoming_conns`
    /// of at most `max_incoming_conns` accepts.
    pub fn available_incoming(num_incoming_conns: u64, max_incoming_conns: u64) -> (r: u64)
        ensures
            r == available_incoming_spec(num_incoming_conns, max_incoming_conns),
    {
        if num_incoming_conns < max_incoming_conns {
            max_incoming_conns - num_incoming_conns
        } else {
            0
        }
    }

    /// The announcement this peer sends out: where it listens, how many more
    /// incoming connections it accepts, where it is (`latitude` and
    /// `longitude` as decimal text) and whom it is connected to.
    pub fn announcement(
        &self,
        sequence_number: u64,
        num_incoming_conns: u64,
        max_incoming_conns: u64,
        city: &str,
        latitude: String,
        longitude: String,
        peers: Vec<String>,
    ) -> (r: Outgoing)
        ensures
            r@ == (self@.name, announce_frame(
                AnnounceView {
                    source: self@.name,
                    sequence_number,
                    details: announce_details(
                        self@.ip_address,
                        self@.port,
                        available_incoming_spec(num_incoming_conns, max_incoming_conns),
                        city@,
                        latitude@,
                        longitude@,
                        peers@.map_values(|s: String| s@),
                    ),
                },
            )),
    {
        let available = Server::available_incoming(num_incoming_conns, max_incoming_conns);
        let announce = Announce::new(
            self.name.as_str(),
            sequence_number,
            self.ip_address.as_str(),
            self.port,
            available,
            city,
            latitude,
            longitude,
            peers,
        );
        Outgoing { from: self.name.clone(), frame: announce.into_frame() }
    }

    /// Handles a command that was not processed before: what to do about it,
    /// and which routes and sequence numbers it uses up.
    pub fn process_command(
        command: Bing2BingCommand,
        adjacency_list: &mut AdjacencyList,
        my_name: &String,
        sequence_numbers: &mut SequenceNumberGenerator,
    ) -> (r: Vec<ConnectionAction>)
        ensures
            actions_view(r@) == command_actions(command@, my_name@, old(sequence_numbers)@),
            final(adjacency_list)@ == routes_after(command@, old(adjacency_list)@),
            final(sequence_numbers)@ == seq_after(command@, my_name@, old(sequence_numbers)@),
    {
        let ghost c = command@;
        let mut actions: Vec<ConnectionAction> = Vec::new();
        match command {
            Bing2BingCommand::Pong(cmd) => {
                if cmd.destination == *my_name {
                    let message = ClientServerMessage::Pong((cmd.source, cmd.sent_at));
                    actions.push(ConnectionAction::ToClient(message));
                } else {
                    let from = cmd.source.clone();
                    actions.push(forward(from, cmd.into_frame()));
                }
            },
            Bing2BingCommand::Ping(cmd) => {
                if cmd.destination == *my_name {
                    let sequence_number = sequence_numbers.next();
                    let pong = Pong::new(
                        my_name.as_str(),
                        cmd.source.as_str(),
                        sequence_number,
                        cmd.sent_at,
                    );
                    actions.push(forward(my_name.clone(), pong.into_frame()));
                } else {
                    let from = cmd.source.clone();
                    actions.push(forward(from, cmd.into_frame()));
                }
            },
            Bing2BingCommand::Say(cmd) => {
                let message = ClientServerMessage::Say((cmd.source.clone(), cmd.message.clone()));
                actions.push(ConnectionAction::ToClient(message));
                let from = cmd.source.clone();
                actions.push(forward(from, cmd.into_frame()));
            },
            Bing2BingCommand::Announce(cmd) => {
                adjacency_list.insert(cmd.source.clone());
                let from = cmd.source.clone();
                actions.push(forward(from, cmd.into_frame()));
            },
            Bing2BingCommand::Broadcast(cmd) => {
                let message = ClientServerMessage::Broadcast((cmd.source.clone(), bytes_clone(&cmd.data)));
                actions.push(ConnectionAction::ToClient(message));
                actions.push(ConnectionAction::Broadcast(cmd.apply()));
            },
            Bing2BingCommand::Deliver(cmd) => {
                if cmd.destination == *my_name {
                    let data = bytes_to_vec(&cmd.data);
                    let message = ClientServerMessage::Deliver((cmd.source, cmd.destination, data));
                    actions.push(ConnectionAction::ToClient(message));
                } else {
                    let from = cmd.source.clone();
                    actions.push(forward(from, cmd.into_frame()));
                }
            },
            Bing2BingCommand::Whisper(cmd) => {
                if cmd.destination == *my_name {
                    let message = ClientServerMessage::Whisper((cmd.source, cmd.destination, cmd.message));
                    actions.push(ConnectionAction::ToClient(message));
                } else {
                    actions.push(ConnectionAction::Broadcast(cmd.apply()));
                }
            },
            Bing2BingCommand::Extension(cmd) => {
                if cmd.sequence_number == sequence_numbers.next() {
                    let message = ClientServerMessage::Extension((cmd.source, cmd.extension_id, cmd.payload));
                    actions.push(ConnectionAction::ToClient(message));
                } else {
                    actions.push(ConnectionAction::RunExtension(cmd));
                }
            },
            Bing2BingCommand::Register(_) => {},
            Bing2BingCommand::Unknown => {},
        }
        assert(actions_view(actions@) =~= command_actions(
            c,
            my_name@,
            old(sequence_numbers)@,
        ));
        actions
    }

    /// Handles one frame that arrived on a connection: recognizes the command,
    /// drops it if it was processed before, and otherwise records it and
    /// handles it.
    pub fn handle_frame(
        peering_info: &mut PeeringInfo,
        frame: Bing2BingFrame,
        my_name: &String,
        sequence_numbers: &mut SequenceNumberGenerator,
    ) -> (r: Result<Vec<ConnectionAction>, ParseError>)
        ensures
            match decode_command(frame@) {
                Err(e) => {
                    &&& r == Err::<Vec<ConnectionAction>, ParseError>(e)
                    &&& final(peering_info)@ == old(peering_info)@
                    &&& final(sequence_numbers)@ == old(sequence_numbers)@
                },
                Ok(c) => if seen_before(c, old(peering_info).processed_commands@) {
                    &&& r matches Ok(a) && a@.len() == 0
                    &&& final(peering_info)@ == old(peering_info)@
                    &&& final(sequence_numbers)@ == old(sequence_numbers)@
                } else {
                    &&& r matches Ok(a) && actions_view(a@) == command_actions(
                        c,
                        my_name@,
                        old(sequence_numbers)@,
                    )
                    &&& final(peering_info).processed_commands@ == mark_processed(
                        c,
                        old(peering_info).processed_commands@,
                    )
                    &&& final(peering_info).adjacency_list@ == routes_after(
                        c,
                        old(peering_info).adjacency_list@,
                    )
                    &&& final(sequence_numbers)@ == seq_after(c, my_name@, old(sequence_numbers)@)
                },
            },
    {
        let command = match Bing2BingCommand::from_frame(frame) {
            Ok(c) => c,
            Err(e) => {
                return Err(e);
            },
        };
        match command_key_of(&command) {
            Some((source, sequence_number)) => {
                if peering_info.processed_commands.check_duplicate(&source, sequence_number) {
                    return Ok(Vec::new());
                }
                peering_info.processed_commands.set_processed(source, sequence_number);
            },
            None => {},
        }
        Ok(Server::process_command(command, &mut peering_info.adjacency_list, my_name, sequence_numbers))
    }
}

} // verus!
