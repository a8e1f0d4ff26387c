//! The `broadcast` command: data for every peer of the network.

use crate::frame::{lemma_array_view, Bing2BingFrame, FrameView};
use crate::parser::{
    fields_consumed, fields_error, lemma_fields_skip, FieldKind, ParseError,
    Parser,
};
use crate::payload::{bytes_contents, bytes_to_vec};
use bytes::Bytes;
use crate::server::Outgoing;
use vstd::prelude::*;

verus! {

broadcast use lemma_array_view;

/// Data (a `Bulk` frame on the wire) for every peer of the network.
///
/// On the wire: `["broadcast", source, sequence_number, data]`.
#[derive(Debug)]
pub struct Broadcast {
    /// The sender.
    pub source: String,
    /// The sequence number the sender gave it.
    pub sequence_number: u64,
    /// The data.
    pub data: Bytes,
}

/// The value of a [`Broadcast`].
pub struct BroadcastView {
    pub source: Seq<char>,
    pub sequence_number: u64,
    pub data: Seq<u8>,
}

impl View for Broadcast {
    type V = BroadcastView;

    open spec fn view(&self) -> BroadcastView {
        BroadcastView {
            source: self.source@,
            sequence_number: self.sequence_number,
            data: bytes_contents(self.data),
        }
    }
}

/// The kinds of the parts that follow the `broadcast` tag.
pub open spec fn broadcast_kinds() -> Seq<FieldKind> {
    seq![FieldKind::Text, FieldKind::Number, FieldKind::Bulk]
}

/// The broadcast that well-formed parts (after the tag) describe.
pub open spec fn broadcast_from_parts(p: Seq<FrameView>) -> BroadcastView {
    BroadcastView {
        source: p[0]->Text_0,
        sequence_number: p[1]->Number_0,
        data: p[2]->Bulk_0,
    }
}

/// The frame that carries a broadcast.
pub open spec fn broadcast_frame(c: BroadcastView) -> FrameView {
    FrameView::Array(
        seq![
            FrameView::Text("broadcast"@),
            FrameView::Text(c.source),
            FrameView::Number(c.sequence_number),
            FrameView::Bulk(c.data),
        ],
    )
}

impl Broadcast {
    /// A broadcast of `data` from `source`.
    pub fn new(source: String, sequence_number: u64, data: Bytes) -> (r: Self)
        ensures
            r@ == (BroadcastView {
                source: source@,
                sequence_number: sequence_number,
                data: bytes_contents(data),
            }),
    {
        Self { source, sequence_number, data }
    }

    /// The frame that carries this broadcast.
    pub fn into_frame(self) -> (r: Bing2BingFrame)
        ensures
            r@ == broadcast_frame(self@),
    {
        let ghost v = self@;
        let cmd = vec![
            Bing2BingFrame::Text("broadcast".to_string()),
            Bing2BingFrame::Text(self.source),
            Bing2BingFrame::Number(self.sequence_number),
            Bing2BingFrame::Bulk(bytes_to_vec(&self.data)),
        ];
        let r = Bing2BingFrame::Array(cmd);
        assert(r@->Array_0 =~= broadcast_frame(v)->Array_0);
        r
    }

    /// Reads a broadcast from the parts that follow the `broadcast` tag.
    pub fn parse_frames(parse: &mut Parser) -> (r: Result<Broadcast, ParseError>)
        ensures
            match fields_error(broadcast_kinds(), old(parse)@) {
                Some(e) => r == Err::<Broadcast, ParseError>(e),
                None => (r matches Ok(c) && c@ == broadcast_from_parts(old(parse)@)),
            },
            final(parse)@ == old(parse)@.skip(fields_consumed(broadcast_kinds(), old(parse)@)),
    {
        let ghost p0 = parse@;
        let ghost k = broadcast_kinds();
        proof {
            lemma_fields_skip(k, p0, 0);
            assert(p0 =~= p0.skip(0));
        }
        let source = match parse.next_text() {
            Ok(x) => x,
            Err(e) => {
                return Err(e);
            },
        };
        proof {
            assert(parse@ =~= p0.skip(1));
            lemma_fields_skip(k, p0, 1);
        }
        let sequence_number = match parse.next_number() {
            Ok(x) => x,
            Err(e) => {
                return Err(e);
            },
        };
        proof {
            assert(parse@ =~= p0.skip(2));
            lemma_fields_skip(k, p0, 2);
        }
        let data = match parse.next_bytes() {
            Ok(x) => x,
            Err(e) => {
                return Err(e);
            },
        };
        proof {
            assert(parse@ =~= p0.skip(3));
            lemma_fields_skip(k, p0, 3);
            assert(k.skip(3) =~= Seq::<FieldKind>::empty());
        }
        match parse.finish() {
            Ok(()) => {},
            Err(e) => {
                return Err(e);
            },
        }
        Ok(Broadcast { source, sequence_number, data })
    }

    /// The sequence number the sender gave this broadcast.
    pub fn get_sequence_number(&self) -> (r: u64)
        ensures
            r == self.sequence_number,
    {
        self.sequence_number
    }

    /// The peer that sent this broadcast.
    pub fn get_source(&self) -> (r: String)
        ensures
            r@ == self.source@,
    {
        self.source.clone()
    }



    /// Passes this broadcast on to every connected peer, on behalf of its source.
    pub fn apply(self) -> (r: Outgoing)
        ensures
            r@ == (self@.source, broadcast_frame(self@)),
    {
        let from = self.source.clone();
        Outgoing { from, frame: self.into_frame() }
    }
}

} // verus!
