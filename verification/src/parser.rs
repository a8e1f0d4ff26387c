//! Reading the parts of an `Array` frame one by one.

use crate::frame::{frames_view, lemma_array_view, Bing2BingFrame, FrameView};
use crate::payload::{bytes_contents, bytes_from_vec};
use bytes::Bytes;
use std::collections::VecDeque;
use vstd::prelude::*;

verus! {

broadcast use lemma_array_view;

/// Why reading a frame's parts failed.
#[derive(Debug, Clone, Copy, PartialEq, Eq, Structural)]
pub enum ParseError {
    /// A part was asked for, but none is left.
    EndOfStream,
    /// The frame handed to [`Parser::new`] is not an `Array`.
    NotAnArray,
    /// The next part is not of the kind that was asked for.
    UnexpectedFrame,
    /// Parts are left over where none should be.
    ExtraFrames,
}

/// The kind of part a command expects at a position.
pub enum FieldKind {
    Text,
    Number,
    Bulk,
    Any,
}

/// Whether a part is of the given kind.
pub open spec fn has_kind(f: FrameView, k: FieldKind) -> bool {
    match k {
        FieldKind::Text => f is Text,
        FieldKind::Number => f is Number,
        FieldKind::Bulk => f is Bulk,
        FieldKind::Any => true,
    }
}

/// The error that reading the fields `kinds` from `parts` and then finishing
/// runs into, if any: the first missing part gives `EndOfStream`, the first
/// part of the wrong kind `UnexpectedFrame`, and parts left over `ExtraFrames`.
pub open spec fn fields_error(kinds: Seq<FieldKind>, parts: Seq<FrameView>) -> Option<ParseError>
    decreases kinds.len(),
{
    if kinds.len() == 0 {
        if parts.len() == 0 {
            None
        } else {
            Some(ParseError::ExtraFrames)
        }
    } else if parts.len() == 0 {
        Some(ParseError::EndOfStream)
    } else if !has_kind(parts[0], kinds[0]) {
        Some(ParseError::UnexpectedFrame)
    } else {
        fields_error(kinds.drop_first(), parts.drop_first())
    }
}

/// The error that reading the fields `kinds` (without finishing) runs into.
pub open spec fn prefix_error(kinds: Seq<FieldKind>, parts: Seq<FrameView>) -> Option<ParseError>
    decreases kinds.len(),
{
    if kinds.len() == 0 {
        None
    } else if parts.len() == 0 {
        Some(ParseError::EndOfStream)
    } else if !has_kind(parts[0], kinds[0]) {
        Some(ParseError::UnexpectedFrame)
    } else {
        prefix_error(kinds.drop_first(), parts.drop_first())
    }
}

/// `after` is what is left of `before` once some parts at its front were read.
pub open spec fn consumed_prefix(before: Seq<FrameView>, after: Seq<FrameView>) -> bool {
    after.len() <= before.len() && after == before.skip(before.len() - after.len())
}

/// Reading parts off the front twice is reading parts off the front.
pub broadcast proof fn lemma_consumed_trans(a: Seq<FrameView>, b: Seq<FrameView>, c: Seq<FrameView>)
    requires
        #[trigger] consumed_prefix(a, b),
        #[trigger] consumed_prefix(b, c),
    ensures
        consumed_prefix(a, c),
{
    assert(c =~= a.skip(a.len() - c.len()));
}

/// Once the first `i` parts have the kinds asked for, what remains to be
/// checked is the rest of the kinds against the rest of the parts.
pub proof fn lemma_fields_skip(k: Seq<FieldKind>, p: Seq<FrameView>, i: int)
    requires
        0 <= i <= k.len(),
        i <= p.len(),
        forall|j: int| 0 <= j < i ==> has_kind(#[trigger] p[j], k[j]),
    ensures
        fields_error(k, p) == fields_error(k.skip(i), p.skip(i)),
        prefix_error(k, p) == prefix_error(k.skip(i), p.skip(i)),
        fields_consumed(k, p) == i + fields_consumed(k.skip(i), p.skip(i)),
        i < p.len() ==> p.skip(i).drop_first() == p.skip(i + 1),
    decreases i,
{
    if i < p.len() {
        assert(p.skip(i).drop_first() =~= p.skip(i + 1));
    }
    if i == 0 {
        assert(k.skip(0) =~= k);
        assert(p.skip(0) =~= p);
    } else {
        assert(has_kind(p[0], k[0]));
        lemma_fields_skip(k.drop_first(), p.drop_first(), i - 1);
        assert(k.drop_first().skip(i - 1) =~= k.skip(i));
        assert(p.drop_first().skip(i - 1) =~= p.skip(i));
    }
}

/// How many parts reading the fields `kinds` takes off the front of `parts`
/// before it finishes or fails: a missing part takes none, a part of the
/// wrong kind is taken before the failure.
pub open spec fn fields_consumed(kinds: Seq<FieldKind>, parts: Seq<FrameView>) -> int
    decreases kinds.len(),
{
    if kinds.len() == 0 || parts.len() == 0 {
        0
    } else if !has_kind(parts[0], kinds[0]) {
        1
    } else {
        1 + fields_consumed(kinds.drop_first(), parts.drop_first())
    }
}

/// Reads the parts of an `Array` frame, front to back.
pub struct Parser {
    parts: VecDeque<Bing2BingFrame>,
}

impl View for Parser {
    type V = Seq<FrameView>;

    /// The parts not read yet.
    closed spec fn view(&self) -> Seq<FrameView> {
        frames_view(self.parts@)
    }
}

impl Parser {
    /// A parser over the parts of `frame`, which must be an `Array`.
    pub fn new(frame: Bing2BingFrame) -> (r: Result<Parser, ParseError>)
        ensures
            match frame@ {
                FrameView::Array(parts) => (r matches Ok(p) && p@ == parts),
                _ => r == Err::<Parser, ParseError>(ParseError::NotAnArray),
            },
    {
        match frame {
            Bing2BingFrame::Array(v) => {
                let ghost orig = v@;
                let mut v = v;
                let mut parts: VecDeque<Bing2BingFrame> = VecDeque::new();
                while v.len() > 0
                    invariant
                        v@ + parts@ == orig,
                    decreases v.len(),
                {
                    let f = v.pop().unwrap();
                    parts.push_front(f);
                    assert(v@ + parts@ =~= orig);
                }
                assert(parts@ =~= orig);
                let p = Parser { parts };
                proof {
                    assert(frame@ == FrameView::Array(frames_view(orig)));
                }
                Ok(p)
            },
            _ => Err(ParseError::NotAnArray),
        }
    }

    /// The next part.
    pub fn next(&mut self) -> (r: Result<Bing2BingFrame, ParseError>)
        ensures
            consumed_prefix(old(self)@, final(self)@),
            old(self)@.len() == 0 ==> r == Err::<Bing2BingFrame, ParseError>(
                ParseError::EndOfStream,
            ) && final(self)@ == old(self)@,
            old(self)@.len() > 0 ==> final(self)@ == old(self)@.drop_first() && (r matches Ok(f)
                && f@ == old(self)@[0]),
    {
        match self.parts.pop_front() {
            Some(f) => {
                assert(frames_view(self.parts@) =~= frames_view(old(self).parts@).drop_first());
                assert(self@ =~= old(self)@.skip(1));
                Ok(f)
            },
            None => {
                assert(self@ =~= old(self)@.skip(0));
                Err(ParseError::EndOfStream)
            },
        }
    }

    /// The next part, which must be `Text`.
    pub fn next_text(&mut self) -> (r: Result<String, ParseError>)
        ensures
            consumed_prefix(old(self)@, final(self)@),
            old(self)@.len() == 0 ==> r == Err::<String, ParseError>(ParseError::EndOfStream)
                && final(self)@ == old(self)@,
            old(self)@.len() > 0 ==> final(self)@ == old(self)@.drop_first() && match old(
                self,
            )@[0] {
                FrameView::Text(t) => (r matches Ok(s) && s@ == t),
                _ => r == Err::<String, ParseError>(ParseError::UnexpectedFrame),
            },
    {
        match self.next() {
            Ok(Bing2BingFrame::Text(s)) => Ok(s),
            Ok(_) => Err(ParseError::UnexpectedFrame),
            Err(e) => Err(e),
        }
    }

    /// The next part, which must be a `Number`.
    pub fn next_number(&mut self) -> (r: Result<u64, ParseError>)
        ensures
            consumed_prefix(old(self)@, final(self)@),
            old(self)@.len() == 0 ==> r == Err::<u64, ParseError>(ParseError::EndOfStream)
                && final(self)@ == old(self)@,
            old(self)@.len() > 0 ==> final(self)@ == old(self)@.drop_first() && match old(
                self,
            )@[0] {
                FrameView::Number(n) => r == Ok::<u64, ParseError>(n),
                _ => r == Err::<u64, ParseError>(ParseError::UnexpectedFrame),
            },
    {
        match self.next() {
            Ok(Bing2BingFrame::Number(n)) => Ok(n),
            Ok(_) => Err(ParseError::UnexpectedFrame),
            Err(e) => Err(e),
        }
    }

    /// The next part, which must be `Bulk`, as `Bytes`.
    pub fn next_bytes(&mut self) -> (r: Result<Bytes, ParseError>)
        ensures
            consumed_prefix(old(self)@, final(self)@),
            old(self)@.len() == 0 ==> r == Err::<Bytes, ParseError>(ParseError::EndOfStream)
                && final(self)@ == old(self)@,
            old(self)@.len() > 0 ==> final(self)@ == old(self)@.drop_first() && match old(
                self,
            )@[0] {
                FrameView::Bulk(b) => (r matches Ok(d) && bytes_contents(d) == b),
                _ => r == Err::<Bytes, ParseError>(ParseError::UnexpectedFrame),
            },
    {
        match self.next() {
            Ok(Bing2BingFrame::Bulk(b)) => Ok(bytes_from_vec(b)),
            Ok(_) => Err(ParseError::UnexpectedFrame),
            Err(e) => Err(e),
        }
    }

    /// Succeeds when every part has been read.
    pub fn finish(&self) -> (r: Result<(), ParseError>)
        ensures
            self@.len() == 0 ==> r == Ok::<(), ParseError>(()),
            self@.len() > 0 ==> r == Err::<(), ParseError>(ParseError::ExtraFrames),
    {
        if self.parts.len() == 0 {
            Ok(())
        } else {
            Err(ParseError::ExtraFrames)
        }
    }
}

} // verus!
