//! The `extension` command: a hook for extensions of the protocol.

use crate::frame::{lemma_array_view, Bing2BingFrame, FrameView};
use crate::parser::{
    fields_consumed, fields_error, lemma_fields_skip, FieldKind, ParseError,
    Parser,
};
use crate::server::Outgoing;
use crate::text::{
    chars_of, concat, concat3, concat4, contains_block, contains_str, decimal, has_prefix,
    starts_with, u64_to_decimal,
};
use vstd::prelude::*;

verus! {

broadcast use lemma_array_view;

/// A message for an extension of the protocol: an extension id and a payload
/// frame whose meaning the extension decides.
///
/// On the wire: `["extension", source, sequence_number, extension_id, payload]`.
#[derive(Debug)]
pub struct Extension {
    /// The sender.
    pub source: String,
    /// The sequence number the sender gave it.
    pub sequence_number: u64,
    /// Which extension it is for.
    pub extension_id: u64,
    /// What the extension works on.
    pub payload: Bing2BingFrame,
}

/// The value of a [`Extension`].
pub struct ExtensionView {
    pub source: Seq<char>,
    pub sequence_number: u64,
    pub extension_id: u64,
    pub payload: FrameView,
}

impl View for Extension {
    type V = ExtensionView;

    open spec fn view(&self) -> ExtensionView {
        ExtensionView {
            source: self.source@,
            sequence_number: self.sequence_number,
            extension_id: self.extension_id,
            payload: self.payload@,
        }
    }
}

/// The kinds of the parts that follow the `extension` tag.
pub open spec fn extension_kinds() -> Seq<FieldKind> {
    seq![FieldKind::Text, FieldKind::Number, FieldKind::Number, FieldKind::Any]
}

/// The extension that well-formed parts (after the tag) describe.
pub open spec fn extension_from_parts(p: Seq<FrameView>) -> ExtensionView {
    ExtensionView {
        source: p[0]->Text_0,
        sequence_number: p[1]->Number_0,
        extension_id: p[2]->Number_0,
        payload: p[3],
    }
}

/// The frame that carries a extension.
pub open spec fn extension_frame(c: ExtensionView) -> FrameView {
    FrameView::Array(
        seq![
            FrameView::Text("extension"@),
            FrameView::Text(c.source),
            FrameView::Number(c.sequence_number),
            FrameView::Number(c.extension_id),
            c.payload,
        ],
    )
}


/// Something an extension asks the peer to do.
#[derive(Debug)]
pub enum ExtensionAction {
    /// Append `contents` to the file `path`.
    AppendToFile { path: String, contents: String },
    /// Append `"Stats at {source}: {payload:?}\n"` (the payload in its debug
    /// form) to the file `path`.
    AppendStatistics { path: String, source: String, payload: Bing2BingFrame },
    /// Send a frame to every connected peer.
    Broadcast(Outgoing),
}

/// The value of an [`ExtensionAction`].
pub enum ExtensionActionView {
    AppendToFile(Seq<char>, Seq<char>),
    AppendStatistics(Seq<char>, Seq<char>, FrameView),
    Broadcast(Seq<char>, FrameView),
}

impl View for ExtensionAction {
    type V = ExtensionActionView;

    open spec fn view(&self) -> ExtensionActionView {
        match self {
            ExtensionAction::AppendToFile { path, contents } => ExtensionActionView::AppendToFile(
                path@,
                contents@,
            ),
            ExtensionAction::AppendStatistics { path, source, payload } => ExtensionActionView::AppendStatistics(
                path@,
                source@,
                payload@,
            ),
            ExtensionAction::Broadcast(o) => ExtensionActionView::Broadcast(o.from@, o.frame@),
        }
    }
}

/// The views of a list of extension actions.
pub open spec fn extension_actions_view(v: Seq<ExtensionAction>) -> Seq<ExtensionActionView> {
    v.map_values(|a: ExtensionAction| a@)
}

/// What the known extensions do with an extension message `e`, when the peer
/// has `num_peers` connected peers and the time is `now_secs` seconds after
/// the Unix epoch.
///
/// 1. logs the message's statistics, then passes the message on;
/// 2. for a text starting with `Valid:`, sends an echo of it to every peer and logs the echo;
/// 3. logs how many peers are connected;
/// 4. sends the system time to every peer and logs it;
/// 5. for a text containing `important`, sends the text to every peer and logs it;
/// 6. for a text containing `Save`, saves it;
///
/// and any other extension id passes the message on unchanged.
pub open spec fn extension_actions(e: ExtensionView, num_peers: nat, now_secs: u64) -> Seq<
    ExtensionActionView,
> {
    if e.extension_id == 1 {
        seq![
            ExtensionActionView::AppendStatistics("system_stats.log"@, e.source, e.payload),
            ExtensionActionView::Broadcast(e.source, extension_frame(e)),
        ]
    } else if e.extension_id == 2 {
        match e.payload {
            FrameView::Text(msg) => if has_prefix(msg, "Valid:"@) {
                let echo = "Echo from "@ + e.source + ": "@ + msg;
                seq![
                    ExtensionActionView::Broadcast(e.source, FrameView::Text(echo)),
                    ExtensionActionView::AppendToFile(
                        "validated_messages.log"@,
                        "Broadcasting a valid message: "@ + echo + "\n"@,
                    ),
                ]
            } else {
                seq![]
            },
            _ => seq![],
        }
    } else if e.extension_id == 3 {
        seq![
            ExtensionActionView::AppendToFile(
                "peer_count.log"@,
                "Number of connected peers as reported by "@ + e.source + ": "@ + decimal(num_peers)
                    + "\n"@,
            ),
        ]
    } else if e.extension_id == 4 {
        let time_message = "System time from "@ + e.source + ": "@ + decimal(now_secs as nat);
        seq![
            ExtensionActionView::Broadcast(e.source, FrameView::Text(time_message)),
            ExtensionActionView::AppendToFile(
                "broadcast_times.log"@,
                "Broadcasting System Time: "@ + time_message + "\n"@,
            ),
        ]
    } else if e.extension_id == 5 {
        match e.payload {
            FrameView::Text(msg) => if contains_block(msg, "important"@) {
                seq![
                    ExtensionActionView::Broadcast(e.source, e.payload),
                    ExtensionActionView::AppendToFile(
                        "important_messages.log"@,
                        "Forwarding important message: "@ + msg + "\n"@,
                    ),
                ]
            } else {
                seq![]
            },
            _ => seq![],
        }
    } else if e.extension_id == 6 {
        match e.payload {
            FrameView::Text(msg) => if contains_block(msg, "Save"@) {
                seq![ExtensionActionView::AppendToFile("saved_messages.log"@, msg)]
            } else {
                seq![]
            },
            _ => seq![],
        }
    } else {
        seq![ExtensionActionView::Broadcast(e.source, extension_frame(e))]
    }
}

/// Extension 6 saves a text exactly when `Save` occurs somewhere in it, at
/// any position: the text itself is appended to `saved_messages.log` and
/// nothing else happens; any other text is left alone.
pub proof fn lemma_extension_six_saves_when_text_holds_save(
    e: ExtensionView,
    num_peers: nat,
    now_secs: u64,
    msg: Seq<char>,
)
    requires
        e.extension_id == 6,
        e.payload == FrameView::Text(msg),
    ensures
        (exists|i: int| 0 <= i && i + 4 <= msg.len() && #[trigger] msg.subrange(i, i + 4) == "Save"@)
            ==> extension_actions(e, num_peers, now_secs) == seq![
            ExtensionActionView::AppendToFile("saved_messages.log"@, msg),
        ],
        !(exists|i: int| 0 <= i && i + 4 <= msg.len() && #[trigger] msg.subrange(i, i + 4) == "Save"@)
            ==> extension_actions(e, num_peers, now_secs).len() == 0,
{
    reveal_strlit("Save");
    assert("Save"@.len() == 4);
}

/// Extension 5 forwards a text exactly when `important` occurs somewhere in
/// it: the text goes to every peer on behalf of the sender, and a line naming
/// it is appended to `important_messages.log`; any other text is left alone.
pub proof fn lemma_extension_five_forwards_when_text_holds_important(
    e: ExtensionView,
    num_peers: nat,
    now_secs: u64,
    msg: Seq<char>,
)
    requires
        e.extension_id == 5,
        e.payload == FrameView::Text(msg),
    ensures
        (exists|i: int| 0 <= i && i + 9 <= msg.len() && #[trigger] msg.subrange(i, i + 9) == "important"@)
            ==> extension_actions(e, num_peers, now_secs) == seq![
            ExtensionActionView::Broadcast(e.source, FrameView::Text(msg)),
            ExtensionActionView::AppendToFile(
                "important_messages.log"@,
                "Forwarding important message: "@ + msg + "\n"@,
            ),
        ],
        !(exists|i: int| 0 <= i && i + 9 <= msg.len() && #[trigger] msg.subrange(i, i + 9) == "important"@)
            ==> extension_actions(e, num_peers, now_secs).len() == 0,
{
    reveal_strlit("important");
    assert("important"@.len() == 9);
}

/// Extension 2 echoes a text exactly when it begins with `Valid:`; any other
/// text is left alone.
pub proof fn lemma_extension_two_echoes_when_text_begins_valid(
    e: ExtensionView,
    num_peers: nat,
    now_secs: u64,
    msg: Seq<char>,
)
    requires
        e.extension_id == 2,
        e.payload == FrameView::Text(msg),
    ensures
        (msg.len() >= 6 && msg.subrange(0, 6) == "Valid:"@) ==> extension_actions(
            e,
            num_peers,
            now_secs,
        ) == seq![
            ExtensionActionView::Broadcast(e.source, FrameView::Text("Echo from "@ + e.source + ": "@ + msg)),
            ExtensionActionView::AppendToFile(
                "validated_messages.log"@,
                "Broadcasting a valid message: "@ + ("Echo from "@ + e.source + ": "@ + msg) + "\n"@,
            ),
        ],
        !(msg.len() >= 6 && msg.subrange(0, 6) == "Valid:"@) ==> extension_actions(
            e,
            num_peers,
            now_secs,
        ).len() == 0,
{
    reveal_strlit("Valid:");
    assert("Valid:"@.len() == 6);
}

/// Sending `frame` to every connected peer, on behalf of `from`.
fn forward(from: &str, frame: Bing2BingFrame) -> (r: ExtensionAction)
    ensures
        r@ == ExtensionActionView::Broadcast(from@, frame@),
{
    ExtensionAction::Broadcast(Outgoing { from: from.to_string(), frame })
}

/// Appending `contents` to the file `path`.
fn append_to(path: &str, contents: String) -> (r: ExtensionAction)
    ensures
        r@ == ExtensionActionView::AppendToFile(path@, contents@),
{
    ExtensionAction::AppendToFile { path: path.to_string(), contents }
}

impl Extension {
    /// An extension message from `source`.
    pub fn new(source: String, sequence_number: u64, extension_id: u64, payload: Bing2BingFrame) -> (r: Self)
        ensures
            r@ == (ExtensionView {
                source: source@,
                sequence_number: sequence_number,
                extension_id: extension_id,
                payload: payload@,
            }),
    {
        Self { source, sequence_number, extension_id, payload }
    }

    /// The frame that carries this extension.
    pub fn into_frame(self) -> (r: Bing2BingFrame)
        ensures
            r@ == extension_frame(self@),
    {
        let ghost v = self@;
        let cmd = vec![
            Bing2BingFrame::Text("extension".to_string()),
            Bing2BingFrame::Text(self.source),
            Bing2BingFrame::Number(self.sequence_number),
            Bing2BingFrame::Number(self.extension_id),
            self.payload,
        ];
        let r = Bing2BingFrame::Array(cmd);
        assert(r@->Array_0 =~= extension_frame(v)->Array_0);
        r
    }

    /// Reads a extension from the parts that follow the `extension` tag.
    pub fn parse_frames(parse: &mut Parser) -> (r: Result<Extension, ParseError>)
        ensures
            match fields_error(extension_kinds(), old(parse)@) {
                Some(e) => r == Err::<Extension, ParseError>(e),
                None => (r matches Ok(c) && c@ == extension_from_parts(old(parse)@)),
            },
            final(parse)@ == old(parse)@.skip(fields_consumed(extension_kinds(), old(parse)@)),
    {
        let ghost p0 = parse@;
        let ghost k = extension_kinds();
        proof {
            lemma_fields_skip(k, p0, 0);
            assert(p0 =~= p0.skip(0));
        }
        let source = match parse.next_text() {
            Ok(x) => x,
            Err(e) => {
                return Err(e);
            },
        };
        proof {
            assert(parse@ =~= p0.skip(1));
            lemma_fields_skip(k, p0, 1);
        }
        let sequence_number = match parse.next_number() {
            Ok(x) => x,
            Err(e) => {
                return Err(e);
            },
        };
        proof {
            assert(parse@ =~= p0.skip(2));
            lemma_fields_skip(k, p0, 2);
        }
        let extension_id = match parse.next_number() {
            Ok(x) => x,
            Err(e) => {
                return Err(e);
            },
        };
        proof {
            assert(parse@ =~= p0.skip(3));
            lemma_fields_skip(k, p0, 3);
        }
        let payload = match parse.next() {
            Ok(x) => x,
            Err(e) => {
                return Err(e);
            },
        };
        proof {
            assert(parse@ =~= p0.skip(4));
            lemma_fields_skip(k, p0, 4);
            assert(k.skip(4) =~= Seq::<FieldKind>::empty());
        }
        match parse.finish() {
            Ok(()) => {},
            Err(e) => {
                return Err(e);
            },
        }
        Ok(Extension { source, sequence_number, extension_id, payload })
    }

    /// The sequence number the sender gave this extension.
    pub fn get_sequence_number(&self) -> (r: u64)
        ensures
            r == self.sequence_number,
    {
        self.sequence_number
    }

    /// The peer that sent this extension.
    pub fn get_source(&self) -> (r: String)
        ensures
            r@ == self.source@,
    {
        self.source.clone()
    }

    /// An extension message equal to this one.
    pub fn duplicate(&self) -> (r: Self)
        ensures
            r@ == self@,
    {
        Extension {
            source: self.source.clone(),
            sequence_number: self.sequence_number,
            extension_id: self.extension_id,
            payload: self.payload.duplicate(),
        }
    }


    /// What the extension this message is for does with it; see
    /// [`extension_actions`].  The actions are to be carried out in order.
    pub fn my_apply(&self, num_peers: usize, now_secs: u64) -> (r: Vec<ExtensionAction>)
        ensures
            extension_actions_view(r@) == extension_actions(self@, num_peers as nat, now_secs),
    {
        let source = self.source.as_str();
        let mut actions: Vec<ExtensionAction> = Vec::new();
        if self.extension_id == 1 {
            actions.push(ExtensionAction::AppendStatistics {
                path: "system_stats.log".to_string(),
                source: self.source.clone(),
                payload: self.payload.duplicate(),
            });
            actions.push(forward(source, self.duplicate().into_frame()));
        } else if self.extension_id == 2 {
            if let Bing2BingFrame::Text(msg) = &self.payload {
                if starts_with(&chars_of(msg.as_str()), "Valid:") {
                    let echo = concat4("Echo from ", source, ": ", msg.as_str());
                    let line = concat3("Broadcasting a valid message: ", echo.as_str(), "\n");
                    actions.push(forward(source, Bing2BingFrame::Text(echo)));
                    actions.push(append_to("validated_messages.log", line));
                }
            }
        } else if self.extension_id == 3 {
            let count = u64_to_decimal(num_peers as u64);
            let report = concat4("Number of connected peers as reported by ", source, ": ", count.as_str());
            actions.push(append_to("peer_count.log", concat(report.as_str(), "\n")));
        } else if self.extension_id == 4 {
            let secs = u64_to_decimal(now_secs);
            let time_message = concat4("System time from ", source, ": ", secs.as_str());
            let line = concat3("Broadcasting System Time: ", time_message.as_str(), "\n");
            actions.push(forward(source, Bing2BingFrame::Text(time_message)));
            actions.push(append_to("broadcast_times.log", line));
        } else if self.extension_id == 5 {
            if let Bing2BingFrame::Text(msg) = &self.payload {
                if contains_str(&chars_of(msg.as_str()), "important") {
                    let line = concat3("Forwarding important message: ", msg.as_str(), "\n");
                    actions.push(forward(source, self.payload.duplicate()));
                    actions.push(append_to("important_messages.log", line));
                }
            }
        } else if self.extension_id == 6 {
            if let Bing2BingFrame::Text(msg) = &self.payload {
                if contains_str(&chars_of(msg.as_str()), "Save") {
                    actions.push(append_to("saved_messages.log", msg.clone()));
                }
            }
        } else {
            actions.push(forward(source, self.duplicate().into_frame()));
        }
        assert(extension_actions_view(actions@) =~= extension_actions(
            self@,
            num_peers as nat,
            now_secs,
        ));
        actions
    }
}

} // verus!
