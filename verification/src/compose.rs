//! Which bytes of the canvas go to the display buffer for a dirty rectangle.

use vstd::prelude::*;
use crate::layout::ClipRect;

verus! {

/// A run of bytes, at the same offset in the canvas and in the display buffer.
#[derive(Clone, Copy, Debug, PartialEq, Eq, Structural)]
pub struct Span {
    pub offset: u64,
    pub len: u64,
}

/// The run of bytes of row `row` of a rectangle, in a buffer whose rows are
/// `pitch` bytes apart and whose pixels take `cpp` bytes.
pub open spec fn spec_span(clip: ClipRect, pitch: u32, cpp: u32, row: int) -> Span {
    Span {
        offset: (clip.y1 * pitch + clip.x1 * cpp + row * pitch) as u64,
        len: ((clip.x2 - clip.x1) * cpp) as u64,
    }
}

/// The runs of bytes that a rectangle covers, one for each of its rows.
pub open spec fn spec_spans(clip: ClipRect, pitch: u32, cpp: u32) -> Seq<Span> {
    Seq::new((clip.y2 - clip.y1) as nat, |row: int| spec_span(clip, pitch, cpp, row))
}

/// Whether every run lies within a buffer of `size` bytes.
pub open spec fn spec_spans_within(spans: Seq<Span>, size: u64) -> bool {
    forall|i: int| 0 <= i < spans.len() ==> (#[trigger] spans[i]).offset + spans[i].len <= size
}

/// The runs of bytes to copy for one dirty rectangle.
pub fn clip_spans(clip: &ClipRect, pitch: u32, cpp: u32) -> (spans: Vec<Span>)
    requires
        clip.x1 <= clip.x2,
        clip.y1 <= clip.y2,
    ensures
        spans@ == spec_spans(*clip, pitch, cpp),
{
    let p: u64 = pitch as u64;
    let c: u64 = cpp as u64;
    assert(clip.y1 * pitch <= 0xffff * 0xffff_ffff) by (nonlinear_arith)
        requires
            clip.y1 <= 0xffff,
            pitch <= 0xffff_ffff,
    ;
    assert(clip.x1 * cpp <= 0xffff * 0xffff_ffff) by (nonlinear_arith)
        requires
            clip.x1 <= 0xffff,
            cpp <= 0xffff_ffff,
    ;
    assert((clip.x2 - clip.x1) * cpp <= 0xffff * 0xffff_ffff) by (nonlinear_arith)
        requires
            0 <= clip.x2 - clip.x1 <= 0xffff,
            cpp <= 0xffff_ffff,
    ;
    let base_offset: u64 = (clip.y1 as u64) * p + (clip.x1 as u64) * c;
    let len: u64 = ((clip.x2 - clip.x1) as u64) * c;
    let rows: u16 = clip.y2 - clip.y1;
    let mut spans: Vec<Span> = Vec::new();
    let mut i: u16 = 0;
    while i < rows
        invariant
            i <= rows,
            rows == clip.y2 - clip.y1,
            p == pitch,
            base_offset == clip.y1 * pitch + clip.x1 * cpp,
            base_offset <= 2 * (0xffff * 0xffff_ffff),
            len == (clip.x2 - clip.x1) * cpp,
            spans@.len() == i,
            forall|j: int| 0 <= j < i ==> spans@[j] == spec_span(*clip, pitch, cpp, j),
        decreases rows - i,
    {
        assert(i * pitch <= 0xffff * 0xffff_ffff) by (nonlinear_arith)
            requires
                i <= 0xffff,
                pitch <= 0xffff_ffff,
        ;
        spans.push(Span { offset: base_offset + (i as u64) * p, len });
        i += 1;
    }
    assert(spans@ =~= spec_spans(*clip, pitch, cpp));
    spans
}

/// Whether every run lies within a buffer of `size` bytes, so that copying
/// them stays inside it.
pub fn spans_within(spans: &Vec<Span>, size: u64) -> (r: bool)
    ensures
        r == spec_spans_within(spans@, size),
{
    let mut i: usize = 0;
    while i < spans.len()
        invariant
            i <= spans@.len(),
            forall|j: int| 0 <= j < i ==> (#[trigger] spans@[j]).offset + spans@[j].len <= size,
        decreases spans@.len() - i,
    {
        let s = spans[i];
        if s.len > size || s.offset > size - s.len {
            return false;
        }
        i += 1;
    }
    true
}

} // verus!
