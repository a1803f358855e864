//! Paint and gradient descriptions: the corner-gradient tuning constants,
//! the elliptical stretch of a radial gradient, the specular highlight, and
//! the stroke width.

use crate::geometry::CirclePoint;
use vstd::prelude::*;

verus! {

/// Opaque white, as a packed 32-bit ARGB colour.
pub const COLOR_WHITE: u32 = 0xffff_ffff;

/// Fully transparent blue, the outer colour every corner gradient fades to.
pub const COLOR_TRANSPARENT_BLUE: u32 = 0x0000_00ff;

/// The least stroke width — one pixel —, in 360ths of a pixel.
pub const PEN_SIZE_360THS: i32 = 360;

/// The ellipse radii shading the triangle's corner `index`, in thousandths
/// of the side length.  Corners 0 and 2 share one tuning and corner 1 has
/// its own, each with separate constants for the curved and the straight
/// variant.  The values are hand-tuned visual-design constants with no
/// stated derivation.
pub open spec fn corner_radii_spec(index: i32, wankel: bool) -> (u32, u32)
    recommends
        0 <= index <= 2,
{
    if index == 1 {
        if wankel {
            (404u32, 500u32)
        } else {
            (420u32, 500u32)
        }
    } else {
        if wankel {
            (360u32, 404u32)
        } else {
            (300u32, 600u32)
        }
    }
}

/// The ellipse radii shading corner `index`, in thousandths of the side
/// length, or `None` exactly when `index` names no corner of a triangle.
pub fn corner_radii(index: i32, wankel: bool) -> (r: Option<(u32, u32)>)
    ensures
        r is Some <==> 0 <= index <= 2,
        0 <= index <= 2 ==> r == Some(corner_radii_spec(index, wankel)),
{
    if 0 <= index && index <= 2 {
        if index == 1 {
            if wankel {
                Some((404, 500))
            } else {
                Some((420, 500))
            }
        } else {
            if wankel {
                Some((360, 404))
            } else {
                Some((300, 600))
            }
        }
    } else {
        None
    }
}

/// A radial gradient stretched into an ellipse.  The underlying circular
/// gradient sits at the origin with radius `base_radius`, is scaled on the
/// vertical axis by `scale_y_num / scale_y_den`, and is then translated to
/// `center`; colours run from `colors.0` at the centre to `colors.1` at the
/// rim.  Lengths are thousandths of the side length.
#[derive(Clone, Copy, Debug, PartialEq, Eq)]
pub struct EllipseShader {
    pub base_radius: u32,
    pub scale_y_num: u32,
    pub scale_y_den: u32,
    pub center: CirclePoint,
    pub colors: (u32, u32),
}

/// Stretches a circular radial gradient into the ellipse with radii
/// `radii = (rx, ry)` at `center`: the circular gradient keeps the first
/// radius and is scaled vertically by `ry / rx`, so no stretch happens
/// exactly when the two radii agree.
pub fn ellipse_shader(center: CirclePoint, radii: (u32, u32), colors: (u32, u32)) -> (r:
    EllipseShader)
    ensures
        r.base_radius == radii.0,
        r.scale_y_num == radii.1,
        r.scale_y_den == radii.0,
        r.center == center,
        r.colors == colors,
{
    EllipseShader {
        base_radius: radii.0,
        scale_y_num: radii.1,
        scale_y_den: radii.0,
        center,
        colors,
    }
}

/// The specular highlight laid over a stroked outline: a plain radial
/// gradient from white down to the shape's base colour.  Its centre sits
/// half an outer radius above the shape's centre (the vertical offset is
/// negative because the canvas's vertical axis grows downward) and its
/// radius is half the outer radius; both lengths are tenths of the outer
/// radius.
#[derive(Clone, Copy, Debug, PartialEq, Eq)]
pub struct Highlight {
    pub center_dy_tenths: i32,
    pub radius_tenths: u32,
    pub colors: (u32, u32),
}

/// The highlight fading from white into `color`, placed as `Highlight`
/// describes it.
pub fn highlight(color: u32) -> (r: Highlight)
    ensures
        r.center_dy_tenths == -5,
        r.radius_tenths == 5,
        r.colors == (COLOR_WHITE, color),
{
    Highlight { center_dy_tenths: -5, radius_tenths: 5, colors: (COLOR_WHITE, color) }
}

/// The stroke width, in 360ths of a pixel: one 360th of the canvas width,
/// but never thinner than the pen size of one pixel.
pub fn stroke_width_360ths(canvas_width: i32) -> (r: i32)
    ensures
        r == (if canvas_width < PEN_SIZE_360THS {
            PEN_SIZE_360THS
        } else {
            canvas_width
        }),
        r >= PEN_SIZE_360THS,
{
    if canvas_width < PEN_SIZE_360THS {
        PEN_SIZE_360THS
    } else {
        canvas_width
    }
}

} // verus!
