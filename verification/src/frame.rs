//! The wire-level value exchanged between peers: a [`Bing2BingFrame`].

use vstd::prelude::*;

verus! {

/// A protocol frame. Commands travel as an `Array` whose first element is a
/// `Text` naming the command.
#[derive(Debug)]
pub enum Bing2BingFrame {
    Text(String),
    Number(u64),
    Bulk(Vec<u8>),
    Array(Vec<Bing2BingFrame>),
}

/// The mathematical value of a frame.
pub enum FrameView {
    Text(Seq<char>),
    Number(u64),
    Bulk(Seq<u8>),
    Array(Seq<FrameView>),
}

/// The view of a frame: strings and byte vectors by their contents,
/// arrays element by element.
pub open spec fn frame_view(f: Bing2BingFrame) -> FrameView
    decreases f,
{
    match f {
        Bing2BingFrame::Text(s) => FrameView::Text(s@),
        Bing2BingFrame::Number(n) => FrameView::Number(n),
        Bing2BingFrame::Bulk(b) => FrameView::Bulk(b@),
        Bing2BingFrame::Array(v) => FrameView::Array(
            Seq::new(
                v.len() as nat,
                |i: int|
                    if 0 <= i < v.len() {
                        frame_view(v[i])
                    } else {
                        FrameView::Number(0)
                    },
            ),
        ),
    }
}

impl View for Bing2BingFrame {
    type V = FrameView;

    open spec fn view(&self) -> FrameView {
        frame_view(*self)
    }
}

/// The views of a vector of frames.
pub open spec fn frames_view(v: Seq<Bing2BingFrame>) -> Seq<FrameView> {
    Seq::new(v.len(), |i: int| v[i]@)
}

/// An `Array` frame is seen as the array of the views of its elements.
pub broadcast proof fn lemma_array_view(v: Vec<Bing2BingFrame>)
    ensures
        #[trigger] Bing2BingFrame::Array(v)@ == FrameView::Array(frames_view(v@)),
{
    let a = Bing2BingFrame::Array(v);
    assert(frame_view(a)->Array_0 =~= frames_view(v@));
}

impl Bing2BingFrame {
    /// A frame equal to this one, made element by element.
    pub fn duplicate(&self) -> (r: Bing2BingFrame)
        ensures
            r@ == self@,
        decreases self,
    {
        broadcast use lemma_array_view;

        match self {
            Bing2BingFrame::Text(s) => Bing2BingFrame::Text(s.clone()),
            Bing2BingFrame::Number(n) => Bing2BingFrame::Number(*n),
            Bing2BingFrame::Bulk(b) => {
                let c = b.clone();
                assert(c@ =~= b@);
                Bing2BingFrame::Bulk(c)
            },
            Bing2BingFrame::Array(v) => {
                let mut out: Vec<Bing2BingFrame> = Vec::new();
                let mut i: usize = 0;
                while i < v.len()
                    invariant
                        i <= v.len(),
                        *self == Bing2BingFrame::Array(*v),
                        out@.len() == i,
                        forall|j: int| 0 <= j < i ==> #[trigger] out@[j]@ == v@[j]@,
                    decreases v.len() - i,
                {
                    proof {
                        assert(decreases_to!(*v => v[i as int]));
                        assert(decreases_to!(*self => (*self)->Array_0));
                        assert(decreases_to!(*self => v[i as int]));
                    }
                    let f = v[i].duplicate();
                    out.push(f);
                    i = i + 1;
                }
                assert(frames_view(out@) =~= frames_view(v@));
                Bing2BingFrame::Array(out)
            },
        }
    }
}

} // verus!
