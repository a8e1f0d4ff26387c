//! The `ping` command: a latency probe.

use crate::frame::{lemma_array_view, Bing2BingFrame, FrameView};
use crate::parser::{
    fields_consumed, fields_error, lemma_fields_skip, FieldKind, ParseError,
    Parser,
};
use vstd::prelude::*;

verus! {

broadcast use lemma_array_view;

/// A message that asks `destination` to answer with a pong; `sent_at` is the time (in milliseconds)
/// at which the ping was sent.
///
/// On the wire: `["ping", source, sequence_number, destination, sent_at]`.
#[derive(Debug)]
pub struct Ping {
    /// The sender.
    pub source: String,
    /// The sequence number the sender gave it.
    pub sequence_number: u64,
    /// The peer it is meant for.
    pub destination: String,
    /// When the ping was sent, in milliseconds.
    pub sent_at: u64,
}

/// The value of a [`Ping`].
pub struct PingView {
    pub source: Seq<char>,
    pub sequence_number: u64,
    pub destination: Seq<char>,
    pub sent_at: u64,
}

impl View for Ping {
    type V = PingView;

    open spec fn view(&self) -> PingView {
        PingView {
            source: self.source@,
            sequence_number: self.sequence_number,
            destination: self.destination@,
            sent_at: self.sent_at,
        }
    }
}

/// The kinds of the parts that follow the `ping` tag.
pub open spec fn ping_kinds() -> Seq<FieldKind> {
    seq![FieldKind::Text, FieldKind::Number, FieldKind::Text, FieldKind::Number]
}

/// The ping that well-formed parts (after the tag) describe.
pub open spec fn ping_from_parts(p: Seq<FrameView>) -> PingView {
    PingView {
        source: p[0]->Text_0,
        sequence_number: p[1]->Number_0,
        destination: p[2]->Text_0,
        sent_at: p[3]->Number_0,
    }
}

/// The frame that carries a ping.
pub open spec fn ping_frame(c: PingView) -> FrameView {
    FrameView::Array(
        seq![
            FrameView::Text("ping"@),
            FrameView::Text(c.source),
            FrameView::Number(c.sequence_number),
            FrameView::Text(c.destination),
            FrameView::Number(c.sent_at),
        ],
    )
}

impl Ping {
    /// A ping from `source` to `destination`.
    pub fn new(source: &str, destination: &str, sequence_number: u64, sent_at: u64) -> (r: Self)
        ensures
            r@ == (PingView {
                source: source@,
                sequence_number: sequence_number,
                destination: destination@,
                sent_at: sent_at,
            }),
    {
        Self {
            source: source.to_string(),
            sequence_number,
            destination: destination.to_string(),
            sent_at,
        }
    }

    /// The frame that carries this ping.
    pub fn into_frame(self) -> (r: Bing2BingFrame)
        ensures
            r@ == ping_frame(self@),
    {
        let ghost v = self@;
        let cmd = vec![
            Bing2BingFrame::Text("ping".to_string()),
            Bing2BingFrame::Text(self.source),
            Bing2BingFrame::Number(self.sequence_number),
            Bing2BingFrame::Text(self.destination),
            Bing2BingFrame::Number(self.sent_at),
        ];
        let r = Bing2BingFrame::Array(cmd);
        assert(r@->Array_0 =~= ping_frame(v)->Array_0);
        r
    }

    /// Reads a ping from the parts that follow the `ping` tag.
    pub fn parse_frames(parse: &mut Parser) -> (r: Result<Ping, ParseError>)
        ensures
            match fields_error(ping_kinds(), old(parse)@) {
                Some(e) => r == Err::<Ping, ParseError>(e),
                None => (r matches Ok(c) && c@ == ping_from_parts(old(parse)@)),
            },
            final(parse)@ == old(parse)@.skip(fields_consumed(ping_kinds(), old(parse)@)),
    {
        let ghost p0 = parse@;
        let ghost k = ping_kinds();
        proof {
            lemma_fields_skip(k, p0, 0);
            assert(p0 =~= p0.skip(0));
        }
        let source = match parse.next_text() {
            Ok(x) => x,
            Err(e) => {
                return Err(e);
            },
        };
        proof {
            assert(parse@ =~= p0.skip(1));
            lemma_fields_skip(k, p0, 1);
        }
        let sequence_number = match parse.next_number() {
            Ok(x) => x,
            Err(e) => {
                return Err(e);
            },
        };
        proof {
            assert(parse@ =~= p0.skip(2));
            lemma_fields_skip(k, p0, 2);
        }
        let destination = match parse.next_text() {
            Ok(x) => x,
            Err(e) => {
                return Err(e);
            },
        };
        proof {
            assert(parse@ =~= p0.skip(3));
            lemma_fields_skip(k, p0, 3);
        }
        let sent_at = match parse.next_number() {
            Ok(x) => x,
            Err(e) => {
                return Err(e);
            },
        };
        proof {
            assert(parse@ =~= p0.skip(4));
            lemma_fields_skip(k, p0, 4);
            assert(k.skip(4) =~= Seq::<FieldKind>::empty());
        }
        match parse.finish() {
            Ok(()) => {},
            Err(e) => {
                return Err(e);
            },
        }
        Ok(Ping { source, sequence_number, destination, sent_at })
    }

    /// The sequence number the sender gave this ping.
    pub fn get_sequence_number(&self) -> (r: u64)
        ensures
            r == self.sequence_number,
    {
        self.sequence_number
    }

    /// The peer that sent this ping.
    pub fn get_source(&self) -> (r: String)
        ensures
            r@ == self.source@,
    {
        self.source.clone()
    }
}

} // verus!
