//! The `deliver` command: data for one peer.

use crate::frame::{lemma_array_view, Bing2BingFrame, FrameView};
use crate::parser::{
    fields_consumed, fields_error, lemma_fields_skip, FieldKind, ParseError,
    Parser,
};
use crate::payload::{bytes_contents, bytes_to_vec};
use bytes::Bytes;
use vstd::prelude::*;

verus! {

broadcast use lemma_array_view;

/// Data (a `Bulk` frame on the wire) meant for one peer.
///
/// On the wire: `["deliver", source, sequence_number, destination, data]`.
#[derive(Debug)]
pub struct Deliver {
    /// The sender.
    pub source: String,
    /// The sequence number the sender gave it.
    pub sequence_number: u64,
    /// The peer it is meant for.
    pub destination: String,
    /// The data.
    pub data: Bytes,
}

/// The value of a [`Deliver`].
pub struct DeliverView {
    pub source: Seq<char>,
    pub sequence_number: u64,
    pub destination: Seq<char>,
    pub data: Seq<u8>,
}

impl View for Deliver {
    type V = DeliverView;

    open spec fn view(&self) -> DeliverView {
        DeliverView {
            source: self.source@,
            sequence_number: self.sequence_number,
            destination: self.destination@,
            data: bytes_contents(self.data),
        }
    }
}

/// The kinds of the parts that follow the `deliver` tag.
pub open spec fn deliver_kinds() -> Seq<FieldKind> {
    seq![FieldKind::Text, FieldKind::Number, FieldKind::Text, FieldKind::Bulk]
}

/// The deliver that well-formed parts (after the tag) describe.
pub open spec fn deliver_from_parts(p: Seq<FrameView>) -> DeliverView {
    DeliverView {
        source: p[0]->Text_0,
        sequence_number: p[1]->Number_0,
        destination: p[2]->Text_0,
        data: p[3]->Bulk_0,
    }
}

/// The frame that carries a deliver.
pub open spec fn deliver_frame(c: DeliverView) -> FrameView {
    FrameView::Array(
        seq![
            FrameView::Text("deliver"@),
            FrameView::Text(c.source),
            FrameView::Number(c.sequence_number),
            FrameView::Text(c.destination),
            FrameView::Bulk(c.data),
        ],
    )
}

impl Deliver {
    /// A delivery of `data` from `source` to `destination`.
    pub fn new(source: String, sequence_number: u64, destination: String, data: Bytes) -> (r: Self)
        ensures
            r@ == (DeliverView {
                source: source@,
                sequence_number: sequence_number,
                destination: destination@,
                data: bytes_contents(data),
            }),
    {
        Self { source, sequence_number, destination, data }
    }

    /// The frame that carries this deliver.
    pub fn into_frame(self) -> (r: Bing2BingFrame)
        ensures
            r@ == deliver_frame(self@),
    {
        let ghost v = self@;
        let cmd = vec![
            Bing2BingFrame::Text("deliver".to_string()),
            Bing2BingFrame::Text(self.source),
            Bing2BingFrame::Number(self.sequence_number),
            Bing2BingFrame::Text(self.destination),
            Bing2BingFrame::Bulk(bytes_to_vec(&self.data)),
        ];
        let r = Bing2BingFrame::Array(cmd);
        assert(r@->Array_0 =~= deliver_frame(v)->Array_0);
        r
    }

    /// Reads a deliver from the parts that follow the `deliver` tag.
    pub fn parse_frames(parse: &mut Parser) -> (r: Result<Deliver, ParseError>)
        ensures
            match fields_error(deliver_kinds(), old(parse)@) {
                Some(e) => r == Err::<Deliver, ParseError>(e),
                None => (r matches Ok(c) && c@ == deliver_from_parts(old(parse)@)),
            },
            final(parse)@ == old(parse)@.skip(fields_consumed(deliver_kinds(), old(parse)@)),
    {
        let ghost p0 = parse@;
        let ghost k = deliver_kinds();
        proof {
            lemma_fields_skip(k, p0, 0);
            assert(p0 =~= p0.skip(0));
        }
        let source = match parse.next_text() {
            Ok(x) => x,
            Err(e) => {
                return Err(e);
            },
        };
        proof {
            assert(parse@ =~= p0.skip(1));
            lemma_fields_skip(k, p0, 1);
        }
        let sequence_number = match parse.next_number() {
            Ok(x) => x,
            Err(e) => {
                return Err(e);
            },
        };
        proof {
            assert(parse@ =~= p0.skip(2));
            lemma_fields_skip(k, p0, 2);
        }
        let destination = match parse.next_text() {
            Ok(x) => x,
            Err(e) => {
                return Err(e);
            },
        };
        proof {
            assert(parse@ =~= p0.skip(3));
            lemma_fields_skip(k, p0, 3);
        }
        let data = match parse.next_bytes() {
            Ok(x) => x,
            Err(e) => {
                return Err(e);
            },
        };
        proof {
            assert(parse@ =~= p0.skip(4));
            lemma_fields_skip(k, p0, 4);
            assert(k.skip(4) =~= Seq::<FieldKind>::empty());
        }
        match parse.finish() {
            Ok(()) => {},
            Err(e) => {
                return Err(e);
            },
        }
        Ok(Deliver { source, sequence_number, destination, data })
    }

    /// The sequence number the sender gave this deliver.
    pub fn get_sequence_number(&self) -> (r: u64)
        ensures
            r == self.sequence_number,
    {
        self.sequence_number
    }

    /// The peer that sent this deliver.
    pub fn get_source(&self) -> (r: String)
        ensures
            r@ == self.source@,
    {
        self.source.clone()
    }
}

} // verus!
