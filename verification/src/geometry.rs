//! The outline of a triangle or rotor, as a sequence of path commands whose
//! points are named symbolically: each lies on one of two circles around the
//! shape's centre, at a whole number of angular steps past the rotation.

use vstd::prelude::*;

verus! {

/// The angular unit of the outline walk, in degrees: one third of the
/// 120-degree turn between neighbouring vertices of an equilateral triangle.
pub const STEP_DEGREES: u32 = 40;

/// Which of the two concentric circles around the shape's centre a path
/// point lies on.
#[derive(Clone, Copy, Debug, PartialEq, Eq, Structural)]
pub enum RadiusKind {
    /// The main circle, through the triangle's vertices.
    Outer,
    /// The control-point circle, nine tenths of the outer radius, on which
    /// the curved variant places the control points of its edges.
    Inner,
}

/// The radius of the circle picked by `kind`, in thousandths of the outer
/// radius.
pub open spec fn radius_milli_spec(kind: RadiusKind) -> u32 {
    match kind {
        RadiusKind::Outer => 1000u32,
        RadiusKind::Inner => 900u32,
    }
}

/// The radius of the circle picked by `kind`, in thousandths of the outer
/// radius.
pub fn radius_milli(kind: RadiusKind) -> (r: u32)
    ensures
        r == radius_milli_spec(kind),
{
    match kind {
        RadiusKind::Outer => 1000,
        RadiusKind::Inner => 900,
    }
}

/// A point of the outline, determined by the shape's centre, outer radius
/// and rotation: it lies on the circle picked by `radius`, at the angle
/// `rotation + step * STEP_DEGREES` degrees, measured from east and turning
/// clockwise on a canvas whose vertical axis grows downward.
#[derive(Clone, Copy, Debug, PartialEq, Eq, Structural)]
pub struct CirclePoint {
    pub radius: RadiusKind,
    pub step: u32,
}

/// One command of an outline path.
#[derive(Clone, Copy, Debug, PartialEq, Eq, Structural)]
pub enum Segment {
    /// Start the outline at the point.
    MoveTo(CirclePoint),
    /// A straight edge to the point.
    LineTo(CirclePoint),
    /// A curved edge: a cubic curve through two control points to an end
    /// point.
    CubicTo(CirclePoint, CirclePoint, CirclePoint),
    /// Close the outline back to its starting point.
    Close,
}

/// The edge that ends at the vertex reached after `edge` thirds of a full
/// turn (so at step `3 * edge`).  The straight variant draws a line to that
/// vertex; the curved variant bulges outward through two control points on
/// the inner circle, placed one and two thirds of the way along the turn.
pub open spec fn edge_spec(wankel: bool, edge: u32) -> Segment
    recommends
        1 <= edge <= 3,
{
    if wankel {
        Segment::CubicTo(
            CirclePoint { radius: RadiusKind::Inner, step: (3 * edge - 2) as u32 },
            CirclePoint { radius: RadiusKind::Inner, step: (3 * edge - 1) as u32 },
            CirclePoint { radius: RadiusKind::Outer, step: (3 * edge) as u32 },
        )
    } else {
        Segment::LineTo(CirclePoint { radius: RadiusKind::Outer, step: (3 * edge) as u32 })
    }
}

/// The whole outline: it starts at the vertex at step 0, visits the vertices
/// at steps 3 and 6, returns to the start at step 9 (one full turn), and
/// closes.
pub open spec fn outline_seq(wankel: bool) -> Seq<Segment> {
    seq![
        Segment::MoveTo(CirclePoint { radius: RadiusKind::Outer, step: 0 }),
        edge_spec(wankel, 1),
        edge_spec(wankel, 2),
        edge_spec(wankel, 3),
        Segment::Close,
    ]
}

/// The edge command ending at step `3 * e`, as `edge_spec` describes it.
fn edge(wankel: bool, e: u32) -> (r: Segment)
    requires
        1 <= e <= 3,
    ensures
        r == edge_spec(wankel, e),
{
    if wankel {
        Segment::CubicTo(
            CirclePoint { radius: RadiusKind::Inner, step: 3 * e - 2 },
            CirclePoint { radius: RadiusKind::Inner, step: 3 * e - 1 },
            CirclePoint { radius: RadiusKind::Outer, step: 3 * e },
        )
    } else {
        Segment::LineTo(CirclePoint { radius: RadiusKind::Outer, step: 3 * e })
    }
}

/// Builds the outline of the triangle (straight edges) or of the rotor
/// (curved edges), exactly as `outline_seq` gives it.
pub fn triangle_outline(wankel: bool) -> (r: Vec<Segment>)
    ensures
        r@ == outline_seq(wankel),
{
    let mut r: Vec<Segment> = Vec::new();
    r.push(Segment::MoveTo(CirclePoint { radius: RadiusKind::Outer, step: 0 }));
    r.push(edge(wankel, 1));
    r.push(edge(wankel, 2));
    r.push(edge(wankel, 3));
    r.push(Segment::Close);
    proof {
        assert(r@ =~= outline_seq(wankel));
    }
    r
}

/// The two variants differ exactly in their edges: the curved outline has a
/// cubic curve wherever the straight outline has a line, and neither holds a
/// command of the other kind.
pub proof fn lemma_outline_edges(wankel: bool)
    ensures
        wankel ==> forall|i: int|
            0 <= i < outline_seq(wankel).len() ==> !(outline_seq(wankel)[i] is LineTo),
        wankel ==> exists|i: int|
            0 <= i < outline_seq(wankel).len() && outline_seq(wankel)[i] is CubicTo,
        !wankel ==> forall|i: int|
            0 <= i < outline_seq(wankel).len() ==> !(outline_seq(wankel)[i] is CubicTo),
        !wankel ==> exists|i: int|
            0 <= i < outline_seq(wankel).len() && outline_seq(wankel)[i] is LineTo,
{
    let s = outline_seq(wankel);
    assert(s.len() == 5);
    assert(s[0] is MoveTo);
    assert(s[1] == edge_spec(wankel, 1));
    assert(s[2] == edge_spec(wankel, 2));
    assert(s[3] == edge_spec(wankel, 3));
    assert(s[4] is Close);
    if wankel {
        assert(s[1] is CubicTo);
        assert(forall|i: int| 0 <= i < s.len() ==> !(s[i] is LineTo));
    } else {
        assert(s[1] is LineTo);
        assert(forall|i: int| 0 <= i < s.len() ==> !(s[i] is CubicTo));
    }
}

} // verus!
