//! Whole drawing plans: one triangle or rotor with its paint, and the
//! demonstration frame with its fixed line segment.

use crate::geometry::CirclePoint;
use crate::geometry::RadiusKind;
use crate::geometry::Segment;
use crate::geometry::outline_seq;
use crate::geometry::triangle_outline;
use crate::shading::COLOR_TRANSPARENT_BLUE;
use crate::shading::COLOR_WHITE;
use crate::shading::EllipseShader;
use crate::shading::Highlight;
use crate::shading::PEN_SIZE_360THS;
use crate::shading::corner_radii;
use crate::shading::corner_radii_spec;
use crate::shading::ellipse_shader;
use crate::shading::highlight;
use crate::shading::stroke_width_360ths;
use vstd::prelude::*;

verus! {

/// How an outline is painted: the paint of the whole drawing call.
#[derive(Clone, Copy, Debug, PartialEq, Eq)]
pub enum PaintPlan {
    /// Fill the outline with the gradient shading a selected corner.
    Fill(EllipseShader),
    /// Stroke the outline, anti-aliased with bevelled joins, shaded by the
    /// specular highlight.
    Stroke(StrokePlan),
}

/// The paint of a stroked outline.
#[derive(Clone, Copy, Debug, PartialEq, Eq)]
pub struct StrokePlan {
    /// The stroke width, in 360ths of a pixel.
    pub width_360ths: i32,
    /// The highlight shader laid over the stroke.
    pub highlight: Highlight,
}

/// One planned triangle or rotor: where it sits, how its outline runs, and
/// how it is painted.
pub struct TrianglePlan {
    /// The shape's centre, in canvas coordinates.
    pub center: (i32, i32),
    /// The outer radius, in pixels: the vertices lie on this circle.
    pub radius: i32,
    /// The paint of the drawing call.
    pub paint: PaintPlan,
    /// The outline's path commands.
    pub outline: Vec<Segment>,
}

/// The paint shading corner `index`: the corner's ellipse gradient, centred
/// on the vertex at step `3 * index`, fading from the base colour into
/// transparent blue.
pub open spec fn corner_paint_spec(index: i32, color: u32, wankel: bool) -> PaintPlan
    recommends
        0 <= index <= 2,
{
    PaintPlan::Fill(
        EllipseShader {
            base_radius: corner_radii_spec(index, wankel).0,
            scale_y_num: corner_radii_spec(index, wankel).1,
            scale_y_den: corner_radii_spec(index, wankel).0,
            center: CirclePoint { radius: RadiusKind::Outer, step: (3 * index) as u32 },
            colors: (color, COLOR_TRANSPARENT_BLUE),
        },
    )
}

/// The paint stroking the outline when no corner is selected: the standard
/// stroke width for the canvas, under the white-to-base-colour highlight.
pub open spec fn stroke_paint_spec(canvas_width: i32, color: u32) -> PaintPlan {
    PaintPlan::Stroke(
        StrokePlan {
            width_360ths: if canvas_width < PEN_SIZE_360THS {
                PEN_SIZE_360THS
            } else {
                canvas_width
            },
            highlight: Highlight {
                center_dy_tenths: -5i32,
                radius_tenths: 5u32,
                colors: (COLOR_WHITE, color),
            },
        },
    )
}

/// Plans one triangle or rotor around `center` with outer radius `radius`.
/// A selected corner `vertex` switches the paint from stroking the outline
/// to filling it with that corner's gradient.  The plan is refused — `None`
/// — exactly when a corner index outside 0, 1, 2 is given, the one
/// caller-contract violation, which the rendering layer turns into an
/// abort; every other input yields a plan.
pub fn triangle_plan(
    canvas_width: i32,
    center: (i32, i32),
    radius: i32,
    vertex: Option<i32>,
    color: u32,
    wankel: bool,
) -> (r: Option<TrianglePlan>)
    ensures
        r is Some <==> (vertex matches Some(index) ==> 0 <= index <= 2),
        r matches Some(plan) ==> {
            &&& plan.center == center
            &&& plan.radius == radius
            &&& plan.outline@ == outline_seq(wankel)
            &&& plan.paint == (match vertex {
                Some(index) => corner_paint_spec(index, color, wankel),
                None => stroke_paint_spec(canvas_width, color),
            })
        },
{
    let paint: PaintPlan = match vertex {
        Some(index) => {
            match corner_radii(index, wankel) {
                Some(radii) => PaintPlan::Fill(
                    ellipse_shader(
                        CirclePoint { radius: RadiusKind::Outer, step: (3 * index) as u32 },
                        radii,
                        (color, COLOR_TRANSPARENT_BLUE),
                    ),
                ),
                None => {
                    return None;
                },
            }
        },
        None => PaintPlan::Stroke(
            StrokePlan { width_360ths: stroke_width_360ths(canvas_width), highlight: highlight(color) },
        ),
    };
    Some(TrianglePlan { center, radius, paint, outline: triangle_outline(wankel) })
}

/// A point in absolute canvas coordinates.
#[derive(Clone, Copy, Debug, PartialEq, Eq, Structural)]
pub struct CanvasPoint {
    pub x: i32,
    pub y: i32,
}

/// One command of the frame's path, over absolute canvas points.
#[derive(Clone, Copy, Debug, PartialEq, Eq, Structural)]
pub enum FrameSegment {
    /// Start the path at the point.
    MoveTo(CanvasPoint),
    /// A straight segment to the point.
    LineTo(CanvasPoint),
    /// Close the path.
    Close,
}

/// The frame's fixed path: one straight segment from (100, 100) to
/// (200, 200), closed.
pub open spec fn frame_path_seq() -> Seq<FrameSegment> {
    seq![
        FrameSegment::MoveTo(CanvasPoint { x: 100, y: 100 }),
        FrameSegment::LineTo(CanvasPoint { x: 200, y: 200 }),
        FrameSegment::Close,
    ]
}

/// The planned frame: its path, stroked white, anti-aliased with bevelled
/// joins, at the given width.
pub struct FramePlan {
    /// The path commands.
    pub path: Vec<FrameSegment>,
    /// The stroke width, in 360ths of a pixel.
    pub width_360ths: i32,
    /// The stroke colour.
    pub color: u32,
}

/// Plans the demonstration frame: the fixed line segment of
/// `frame_path_seq`, stroked white at the standard width for the canvas.
pub fn frame_plan(canvas_width: i32) -> (r: FramePlan)
    ensures
        r.path@ == frame_path_seq(),
        r.width_360ths == (if canvas_width < PEN_SIZE_360THS {
            PEN_SIZE_360THS
        } else {
            canvas_width
        }),
        r.color == COLOR_WHITE,
{
    let mut path: Vec<FrameSegment> = Vec::new();
    path.push(FrameSegment::MoveTo(CanvasPoint { x: 100, y: 100 }));
    path.push(FrameSegment::LineTo(CanvasPoint { x: 200, y: 200 }));
    path.push(FrameSegment::Close);
    proof {
        assert(path@ =~= frame_path_seq());
    }
    FramePlan { path, width_360ths: stroke_width_360ths(canvas_width), color: COLOR_WHITE }
}

} // verus!
