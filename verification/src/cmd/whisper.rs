//! The `whisper` command: a direct message from one peer to another.

use crate::frame::{lemma_array_view, Bing2BingFrame, FrameView};
use crate::parser::{
    fields_consumed, fields_error, lemma_fields_skip, FieldKind, ParseError,
    Parser,
};
use crate::server::Outgoing;
use vstd::prelude::*;

verus! {

broadcast use lemma_array_view;

/// A direct message between two peers, forwarded towards its destination.
///
/// On the wire: `["whisper", source, sequence_number, destination, message]`.
#[derive(Debug)]
pub struct Whisper {
    /// The sender.
    pub source: String,
    /// The sequence number the sender gave it.
    pub sequence_number: u64,
    /// The peer it is meant for.
    pub destination: String,
    /// The text of the message.
    pub message: String,
}

/// The value of a [`Whisper`].
pub struct WhisperView {
    pub source: Seq<char>,
    pub sequence_number: u64,
    pub destination: Seq<char>,
    pub message: Seq<char>,
}

impl View for Whisper {
    type V = WhisperView;

    open spec fn view(&self) -> WhisperView {
        WhisperView {
            source: self.source@,
            sequence_number: self.sequence_number,
            destination: self.destination@,
            message: self.message@,
        }
    }
}

/// The kinds of the parts that follow the `whisper` tag.
pub open spec fn whisper_kinds() -> Seq<FieldKind> {
    seq![FieldKind::Text, FieldKind::Number, FieldKind::Text, FieldKind::Text]
}

/// The whisper that well-formed parts (after the tag) describe.
pub open spec fn whisper_from_parts(p: Seq<FrameView>) -> WhisperView {
    WhisperView {
        source: p[0]->Text_0,
        sequence_number: p[1]->Number_0,
        destination: p[2]->Text_0,
        message: p[3]->Text_0,
    }
}

/// The frame that carries a whisper.
pub open spec fn whisper_frame(c: WhisperView) -> FrameView {
    FrameView::Array(
        seq![
            FrameView::Text("whisper"@),
            FrameView::Text(c.source),
            FrameView::Number(c.sequence_number),
            FrameView::Text(c.destination),
            FrameView::Text(c.message),
        ],
    )
}

impl Whisper {
    /// A whisper from `source` to `destination`.
    pub fn new(source: &str, sequence_number: u64, destination: &str, message: &str) -> (r: Self)
        ensures
            r@ == (WhisperView {
                source: source@,
                sequence_number: sequence_number,
                destination: destination@,
                message: message@,
            }),
    {
        let source = source.to_string();
        let destination = destination.to_string();
        let message = message.to_string();
        Self { source, sequence_number, destination, message }
    }

    /// The frame that carries this whisper.
    pub fn into_frame(self) -> (r: Bing2BingFrame)
        ensures
            r@ == whisper_frame(self@),
    {
        let ghost v = self@;
        let cmd = vec![
            Bing2BingFrame::Text("whisper".to_string()),
            Bing2BingFrame::Text(self.source),
            Bing2BingFrame::Number(self.sequence_number),
            Bing2BingFrame::Text(self.destination),
            Bing2BingFrame::Text(self.message),
        ];
        let r = Bing2BingFrame::Array(cmd);
        assert(r@->Array_0 =~= whisper_frame(v)->Array_0);
        r
    }

    /// Reads a whisper from the parts that follow the `whisper` tag.
    pub fn parse_frames(parse: &mut Parser) -> (r: Result<Whisper, ParseError>)
        ensures
            match fields_error(whisper_kinds(), old(parse)@) {
                Some(e) => r == Err::<Whisper, ParseError>(e),
                None => (r matches Ok(c) && c@ == whisper_from_parts(old(parse)@)),
            },
            final(parse)@ == old(parse)@.skip(fields_consumed(whisper_kinds(), old(parse)@)),
    {
        let ghost p0 = parse@;
        let ghost k = whisper_kinds();
        proof {
            lemma_fields_skip(k, p0, 0);
            assert(p0 =~= p0.skip(0));
        }
        let source = match parse.next_text() {
            Ok(x) => x,
            Err(e) => {
                return Err(e);
            },
        };
        proof {
            assert(parse@ =~= p0.skip(1));
            lemma_fields_skip(k, p0, 1);
        }
        let sequence_number = match parse.next_number() {
            Ok(x) => x,
            Err(e) => {
                return Err(e);
            },
        };
        proof {
            assert(parse@ =~= p0.skip(2));
            lemma_fields_skip(k, p0, 2);
        }
        let destination = match parse.next_text() {
            Ok(x) => x,
            Err(e) => {
                return Err(e);
            },
        };
        proof {
            assert(parse@ =~= p0.skip(3));
            lemma_fields_skip(k, p0, 3);
        }
        let message = match parse.next_text() {
            Ok(x) => x,
            Err(e) => {
                return Err(e);
            },
        };
        proof {
            assert(parse@ =~= p0.skip(4));
            lemma_fields_skip(k, p0, 4);
            assert(k.skip(4) =~= Seq::<FieldKind>::empty());
        }
        match parse.finish() {
            Ok(()) => {},
            Err(e) => {
                return Err(e);
            },
        }
        Ok(Whisper { source, sequence_number, destination, message })
    }

    /// The sequence number the sender gave this whisper.
    pub fn get_sequence_number(&self) -> (r: u64)
        ensures
            r == self.sequence_number,
    {
        self.sequence_number
    }

    /// The peer that sent this whisper.
    pub fn get_source(&self) -> (r: String)
        ensures
            r@ == self.source@,
    {
        self.source.clone()
    }



    /// Passes this whisper on: it is broadcast to every connected peer, on
    /// behalf of its source, so that it eventually reaches its destination.
    pub fn apply(self) -> (r: Outgoing)
        ensures
            r@ == (self@.source, whisper_frame(self@)),
    {
        let from = self.source.clone();
        Outgoing { from, frame: self.into_frame() }
    }
}

} // verus!
