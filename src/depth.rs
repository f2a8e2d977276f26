use vstd::prelude::*;

use crate::passes::DepthMode;

verus! {

/// Depth value of the far plane, the value the opaque pass clears to (depth one).
pub const DEPTH_FAR: u32 = 0xffff_ffff;

/// What one pixel of the colour and depth targets holds.
#[derive(Debug, Clone, Copy, PartialEq, Eq, Structural)]
pub struct PixelState {
    pub depth: u32,
    pub color: u32,
}

/// A fragment that a draw produces on the pixel, with its depth as a fixed-point fraction
/// of the far plane.
#[derive(Debug, Clone, Copy, PartialEq, Eq, Structural)]
pub struct Fragment {
    pub depth: u32,
    pub color: u32,
}

/// Whether a fragment survives the depth test: always without depth, else only when nearer
/// than what is stored.
pub open spec fn passes_depth(mode: DepthMode, incoming: u32, stored: u32) -> bool {
    match mode {
        DepthMode::Off => true,
        _ => incoming < stored,
    }
}

pub open spec fn shade_spec(p: PixelState, mode: DepthMode, f: Fragment) -> PixelState {
    if passes_depth(mode, f.depth, p.depth) {
        PixelState {
            depth: if mode == DepthMode::TestWrite { f.depth } else { p.depth },
            color: f.color,
        }
    } else {
        p
    }
}

/// The pixel after drawing `frags` in order.
pub open spec fn shade_all(p: PixelState, mode: DepthMode, frags: Seq<Fragment>) -> PixelState
    decreases frags.len(),
{
    if frags.len() == 0 {
        p
    } else {
        shade_all(shade_spec(p, mode, frags[0]), mode, frags.subrange(1, frags.len() as int))
    }
}

pub fn depth_test(mode: DepthMode, incoming: u32, stored: u32) -> (r: bool)
    ensures
        r == passes_depth(mode, incoming, stored),
{
    match mode {
        DepthMode::Off => true,
        _ => incoming < stored,
    }
}

/// Draws one fragment on the pixel.
pub fn shade(p: PixelState, mode: DepthMode, f: Fragment) -> (r: PixelState)
    ensures
        r == shade_spec(p, mode, f),
{
    if depth_test(mode, f.depth, p.depth) {
        PixelState {
            depth: if mode == DepthMode::TestWrite { f.depth } else { p.depth },
            color: f.color,
        }
    } else {
        p
    }
}

/// Draws the fragments in order on a pixel cleared to `clear_color` at the far plane.
pub fn resolve_pixel(clear_color: u32, mode: DepthMode, frags: &Vec<Fragment>) -> (r: PixelState)
    ensures
        r == shade_all(PixelState { depth: DEPTH_FAR, color: clear_color }, mode, frags@),
{
    let ghost start = PixelState { depth: DEPTH_FAR, color: clear_color };
    let mut p = PixelState { depth: DEPTH_FAR, color: clear_color };
    let mut i: usize = 0;
    assert(frags@.subrange(0, frags@.len() as int) =~= frags@);
    while i < frags.len()
        invariant
            i <= frags@.len(),
            shade_all(start, mode, frags@) == shade_all(p, mode, frags@.subrange(i as int, frags@.len() as int)),
        decreases frags@.len() - i,
    {
        let ghost rest = frags@.subrange(i as int, frags@.len() as int);
        assert(rest[0] == frags@[i as int]);
        assert(rest.subrange(1, rest.len() as int) =~= frags@.subrange(i + 1, frags@.len() as int));
        p = shade(p, mode, frags[i]);
        i = i + 1;
    }
    assert(frags@.subrange(i as int, frags@.len() as int) =~= Seq::<Fragment>::empty());
    p
}

/// With depth tested and written, two fragments nearer than the far plane at different
/// depths leave the nearer one's colour, whichever is drawn first.
pub proof fn lemma_nearer_wins(a: Fragment, b: Fragment, clear_color: u32)
    requires
        a.depth < b.depth,
        b.depth < DEPTH_FAR,
    ensures
        shade_all(PixelState { depth: DEPTH_FAR, color: clear_color }, DepthMode::TestWrite, seq![a, b]).color == a.color,
        shade_all(PixelState { depth: DEPTH_FAR, color: clear_color }, DepthMode::TestWrite, seq![b, a]).color == a.color,
{
    let p = PixelState { depth: DEPTH_FAR, color: clear_color };
    let ab = seq![a, b];
    let ba = seq![b, a];
    assert(ab.subrange(1, 2) =~= seq![b]);
    assert(ba.subrange(1, 2) =~= seq![a]);
    assert(seq![b].subrange(1, 1) =~= Seq::<Fragment>::empty());
    assert(seq![a].subrange(1, 1) =~= Seq::<Fragment>::empty());
    let m = DepthMode::TestWrite;
    assert(shade_all(p, m, ab) == shade_all(shade_spec(p, m, a), m, seq![b]));
    assert(shade_all(shade_spec(p, m, a), m, seq![b]) == shade_all(shade_spec(shade_spec(p, m, a), m, b), m, Seq::<Fragment>::empty()));
    assert(shade_all(p, m, ba) == shade_all(shade_spec(p, m, b), m, seq![a]));
    assert(shade_all(shade_spec(p, m, b), m, seq![a]) == shade_all(shade_spec(shade_spec(p, m, b), m, a), m, Seq::<Fragment>::empty()));
}

} // verus!
