//! Drawing plans for triangles and Wankel-rotor shapes.
//!
//! The library decides *what* is drawn: the ordered path commands of a
//! triangle outline (optionally with curved, rotor-style edges), the paint
//! used for it (an anti-aliased stroke with a specular highlight, or a
//! radial-gradient fill of one corner), and the affine stretch that turns a
//! circular gradient into an elliptical one.  Every quantity is expressed
//! exactly, as integers relative to the shape's centre, outer radius,
//! rotation and side length, so each plan is verified down to its constants.
//! A thin rendering layer evaluates the plans in floating point and hands
//! them to a 2D vector-graphics canvas.

pub mod geometry;
pub mod scene;
pub mod shading;
