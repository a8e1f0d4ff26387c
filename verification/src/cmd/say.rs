//! The `say` command: a chat message for everyone.

use crate::frame::{lemma_array_view, Bing2BingFrame, FrameView};
use crate::parser::{
    fields_consumed, fields_error, lemma_fields_skip, FieldKind, ParseError,
    Parser,
};
use vstd::prelude::*;

verus! {

broadcast use lemma_array_view;

/// A chat message that spreads through the whole network.
///
/// On the wire: `["say", source, sequence_number, message]`.
#[derive(Debug)]
pub struct Say {
    /// The sender.
    pub source: String,
    /// The sequence number the sender gave it.
    pub sequence_number: u64,
    /// The text of the message.
    pub message: String,
}

/// The value of a [`Say`].
pub struct SayView {
    pub source: Seq<char>,
    pub sequence_number: u64,
    pub message: Seq<char>,
}

impl View for Say {
    type V = SayView;

    open spec fn view(&self) -> SayView {
        SayView {
            source: self.source@,
            sequence_number: self.sequence_number,
            message: self.message@,
        }
    }
}

/// The kinds of the parts that follow the `say` tag.
pub open spec fn say_kinds() -> Seq<FieldKind> {
    seq![FieldKind::Text, FieldKind::Number, FieldKind::Text]
}

/// The say that well-formed parts (after the tag) describe.
pub open spec fn say_from_parts(p: Seq<FrameView>) -> SayView {
    SayView {
        source: p[0]->Text_0,
        sequence_number: p[1]->Number_0,
        message: p[2]->Text_0,
    }
}

/// The frame that carries a say.
pub open spec fn say_frame(c: SayView) -> FrameView {
    FrameView::Array(
        seq![
            FrameView::Text("say"@),
            FrameView::Text(c.source),
            FrameView::Number(c.sequence_number),
            FrameView::Text(c.message),
        ],
    )
}

impl Say {
    /// A chat message from `source`.
    pub fn new(source: String, sequence_number: u64, message: &str) -> (r: Self)
        ensures
            r@ == (SayView {
                source: source@,
                sequence_number: sequence_number,
                message: message@,
            }),
    {
        Self { source, sequence_number, message: message.to_string() }
    }

    /// The frame that carries this say.
    pub fn into_frame(self) -> (r: Bing2BingFrame)
        ensures
            r@ == say_frame(self@),
    {
        let ghost v = self@;
        let cmd = vec![
            Bing2BingFrame::Text("say".to_string()),
            Bing2BingFrame::Text(self.source),
            Bing2BingFrame::Number(self.sequence_number),
            Bing2BingFrame::Text(self.message),
        ];
        let r = Bing2BingFrame::Array(cmd);
        assert(r@->Array_0 =~= say_frame(v)->Array_0);
        r
    }

    /// Reads a say from the parts that follow the `say` tag.
    pub fn parse_frames(parse: &mut Parser) -> (r: Result<Say, ParseError>)
        ensures
            match fields_error(say_kinds(), old(parse)@) {
                Some(e) => r == Err::<Say, ParseError>(e),
                None => (r matches Ok(c) && c@ == say_from_parts(old(parse)@)),
            },
            final(parse)@ == old(parse)@.skip(fields_consumed(say_kinds(), old(parse)@)),
    {
        let ghost p0 = parse@;
        let ghost k = say_kinds();
        proof {
            lemma_fields_skip(k, p0, 0);
            assert(p0 =~= p0.skip(0));
        }
        let source = match parse.next_text() {
            Ok(x) => x,
            Err(e) => {
                return Err(e);
            },
        };
        proof {
            assert(parse@ =~= p0.skip(1));
            lemma_fields_skip(k, p0, 1);
        }
        let sequence_number = match parse.next_number() {
            Ok(x) => x,
            Err(e) => {
                return Err(e);
            },
        };
        proof {
            assert(parse@ =~= p0.skip(2));
            lemma_fields_skip(k, p0, 2);
        }
        let message = match parse.next_text() {
            Ok(x) => x,
            Err(e) => {
                return Err(e);
            },
        };
        proof {
            assert(parse@ =~= p0.skip(3));
            lemma_fields_skip(k, p0, 3);
            assert(k.skip(3) =~= Seq::<FieldKind>::empty());
        }
        match parse.finish() {
            Ok(()) => {},
            Err(e) => {
                return Err(e);
            },
        }
        Ok(Say { source, sequence_number, message })
    }

    /// The sequence number the sender gave this say.
    pub fn get_sequence_number(&self) -> (r: u64)
        ensures
            r == self.sequence_number,
    {
        self.sequence_number
    }

    /// The peer that sent this say.
    pub fn get_source(&self) -> (r: String)
        ensures
            r@ == self.source@,
    {
        self.source.clone()
    }
}

} // verus!
