//! The `announce` command: a peer tells the network where it is and whom it
//! is connected to.

use crate::frame::{frames_view, lemma_array_view, Bing2BingFrame, FrameView};
use crate::parser::{
    consumed_prefix, fields_consumed, lemma_consumed_trans, lemma_fields_skip, prefix_error, FieldKind, ParseError,
    Parser,
};
use vstd::prelude::*;

verus! {

broadcast use {lemma_array_view, lemma_consumed_trans};

/// A peer's periodic announcement of itself.
///
/// On the wire: `["announce", source, sequence_number, details...]`, where the
/// details are the address, port, number of free incoming connections, city,
/// latitude and longitude (as decimal text) and the array of the names of the
/// peers it is connected to.
#[derive(Debug)]
pub struct Announce {
    /// The announcing peer.
    pub source: String,
    /// The sequence number the sender gave it.
    pub sequence_number: u64,
    /// The parts after the sequence number.
    pub details: Vec<Bing2BingFrame>,
}

/// The value of an [`Announce`].
pub struct AnnounceView {
    pub source: Seq<char>,
    pub sequence_number: u64,
    pub details: Seq<FrameView>,
}

impl View for Announce {
    type V = AnnounceView;

    open spec fn view(&self) -> AnnounceView {
        AnnounceView {
            source: self.source@,
            sequence_number: self.sequence_number,
            details: frames_view(self.details@),
        }
    }
}

/// The kinds of the parts that must follow the `announce` tag.
pub open spec fn announce_kinds() -> Seq<FieldKind> {
    seq![FieldKind::Text, FieldKind::Number]
}

/// The announcement that well-formed parts (after the tag) describe.
pub open spec fn announce_from_parts(p: Seq<FrameView>) -> AnnounceView {
    AnnounceView { source: p[0]->Text_0, sequence_number: p[1]->Number_0, details: p.skip(2) }
}

/// The frame that carries an announcement.
pub open spec fn announce_frame(c: AnnounceView) -> FrameView {
    FrameView::Array(
        seq![FrameView::Text("announce"@), FrameView::Text(c.source), FrameView::Number(c.sequence_number)]
            + c.details,
    )
}

/// The details of an announcement, in the order they travel.
pub open spec fn announce_details(
    ip_address: Seq<char>,
    port: u64,
    available_incoming: u64,
    city: Seq<char>,
    latitude: Seq<char>,
    longitude: Seq<char>,
    peers: Seq<Seq<char>>,
) -> Seq<FrameView> {
    seq![
        FrameView::Text(ip_address),
        FrameView::Number(port),
        FrameView::Number(available_incoming),
        FrameView::Text(city),
        FrameView::Text(latitude),
        FrameView::Text(longitude),
        FrameView::Array(Seq::new(peers.len(), |i: int| FrameView::Text(peers[i]))),
    ]
}

impl Announce {
    /// An announcement by `source`; `latitude` and `longitude` are decimal text.
    pub fn new(
        source: &str,
        sequence_number: u64,
        ip_address: &str,
        port: u64,
        available_incoming: u64,
        city: &str,
        latitude: String,
        longitude: String,
        peers: Vec<String>,
    ) -> (r: Self)
        ensures
            r@ == (AnnounceView {
                source: source@,
                sequence_number,
                details: announce_details(
                    ip_address@,
                    port,
                    available_incoming,
                    city@,
                    latitude@,
                    longitude@,
                    peers@.map_values(|s: String| s@),
                ),
            }),
    {
        let ghost names = peers@.map_values(|s: String| s@);
        let mut peer_frames: Vec<Bing2BingFrame> = Vec::new();
        let mut i: usize = 0;
        while i < peers.len()
            invariant
                i <= peers.len(),
                names == peers@.map_values(|s: String| s@),
                peer_frames@.len() == i,
                forall|j: int| 0 <= j < i ==> #[trigger] peer_frames@[j]@ == FrameView::Text(names[j]),
            decreases peers.len() - i,
        {
            peer_frames.push(Bing2BingFrame::Text(peers[i].clone()));
            i = i + 1;
        }
        let peer_array = Bing2BingFrame::Array(peer_frames);
        assert(peer_array@->Array_0 =~= Seq::new(names.len(), |i: int| FrameView::Text(names[i])));
        let details = vec![
            Bing2BingFrame::Text(ip_address.to_string()),
            Bing2BingFrame::Number(port),
            Bing2BingFrame::Number(available_incoming),
            Bing2BingFrame::Text(city.to_string()),
            Bing2BingFrame::Text(latitude),
            Bing2BingFrame::Text(longitude),
            peer_array,
        ];
        let r = Announce { source: source.to_string(), sequence_number, details };
        assert(r@.details =~= announce_details(
            ip_address@,
            port,
            available_incoming,
            city@,
            latitude@,
            longitude@,
            names,
        ));
        r
    }

    /// The frame that carries this announcement.
    pub fn into_frame(self) -> (r: Bing2BingFrame)
        ensures
            r@ == announce_frame(self@),
    {
        let ghost v = self@;
        let mut cmd = vec![
            Bing2BingFrame::Text("announce".to_string()),
            Bing2BingFrame::Text(self.source),
            Bing2BingFrame::Number(self.sequence_number),
        ];
        let mut details = self.details;
        cmd.append(&mut details);
        let r = Bing2BingFrame::Array(cmd);
        assert(r@->Array_0 =~= announce_frame(v)->Array_0);
        r
    }

    /// Reads an announcement from the parts that follow the `announce` tag;
    /// every part after the sequence number becomes a detail.
    pub fn parse_frames(parse: &mut Parser) -> (r: Result<Announce, ParseError>)
        ensures
            match prefix_error(announce_kinds(), old(parse)@) {
                Some(e) => r == Err::<Announce, ParseError>(e),
                None => (r matches Ok(c) && c@ == announce_from_parts(old(parse)@)),
            },
            prefix_error(announce_kinds(), old(parse)@) is Some ==> final(parse)@ == old(parse)@.skip(
                fields_consumed(announce_kinds(), old(parse)@),
            ),
            prefix_error(announce_kinds(), old(parse)@) is None ==> final(parse)@.len() == 0,
    {
        let ghost p0 = parse@;
        let ghost k = announce_kinds();
        proof {
            lemma_fields_skip(k, p0, 0);
            assert(p0 =~= p0.skip(0));
        }
        let source = match parse.next_text() {
            Ok(x) => x,
            Err(e) => {
                return Err(e);
            },
        };
        proof {
            assert(parse@ =~= p0.skip(1));
            lemma_fields_skip(k, p0, 1);
        }
        let sequence_number = match parse.next_number() {
            Ok(x) => x,
            Err(e) => {
                return Err(e);
            },
        };
        proof {
            assert(parse@ =~= p0.skip(2));
            lemma_fields_skip(k, p0, 2);
            assert(k.skip(2) =~= Seq::<FieldKind>::empty());
        }
        let mut details: Vec<Bing2BingFrame> = Vec::new();
        loop
            invariant
                consumed_prefix(p0, parse@),
                p0.skip(2) == frames_view(details@) + parse@,
                prefix_error(announce_kinds(), p0) is None,
                announce_from_parts(p0).source == source@,
                announce_from_parts(p0).sequence_number == sequence_number,
            ensures
                frames_view(details@) == p0.skip(2),
                parse@.len() == 0,
            decreases parse@.len(),
        {
            match parse.next() {
                Ok(f) => {
                    details.push(f);
                    assert(p0.skip(2) =~= frames_view(details@) + parse@);
                },
                Err(_) => {
                    assert(frames_view(details@) =~= p0.skip(2));
                    break ;
                },
            }
        }
        let r = Announce { source, sequence_number, details };
        assert(r@ == announce_from_parts(p0));
        Ok(r)
    }

    /// The sequence number the sender gave this announcement.
    pub fn get_sequence_number(&self) -> (r: u64)
        ensures
            r == self.sequence_number,
    {
        self.sequence_number
    }

    /// The peer that sent this announcement.
    pub fn get_source(&self) -> (r: String)
        ensures
            r@ == self.source@,
    {
        self.source.clone()
    }
}

} // verus!
