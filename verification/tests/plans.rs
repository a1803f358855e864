use rotor::geometry::{radius_milli, triangle_outline, CirclePoint, RadiusKind, Segment, STEP_DEGREES};
use rotor::scene::{
    frame_plan, triangle_plan, CanvasPoint, FrameSegment, PaintPlan, StrokePlan,
};
use rotor::shading::{
    corner_radii, ellipse_shader, highlight, stroke_width_360ths, EllipseShader, Highlight,
    COLOR_TRANSPARENT_BLUE, COLOR_WHITE, PEN_SIZE_360THS,
};

fn outer(step: u32) -> CirclePoint {
    CirclePoint { radius: RadiusKind::Outer, step }
}

fn inner(step: u32) -> CirclePoint {
    CirclePoint { radius: RadiusKind::Inner, step }
}

#[test]
fn straight_outline_has_only_lines() {
    let outline: Vec<Segment> = triangle_outline(false);
    let expected: Vec<Segment> = vec![
        Segment::MoveTo(outer(0)),
        Segment::LineTo(outer(3)),
        Segment::LineTo(outer(6)),
        Segment::LineTo(outer(9)),
        Segment::Close,
    ];
    assert_eq!(outline, expected);
    assert!(!outline.iter().any(|s| matches!(s, Segment::CubicTo(..))));
}

#[test]
fn curved_outline_has_only_cubic_edges() {
    let outline: Vec<Segment> = triangle_outline(true);
    let expected: Vec<Segment> = vec![
        Segment::MoveTo(outer(0)),
        Segment::CubicTo(inner(1), inner(2), outer(3)),
        Segment::CubicTo(inner(4), inner(5), outer(6)),
        Segment::CubicTo(inner(7), inner(8), outer(9)),
        Segment::Close,
    ];
    assert_eq!(outline, expected);
    assert!(!outline.iter().any(|s| matches!(s, Segment::LineTo(..))));
    assert!(outline.iter().any(|s| matches!(s, Segment::CubicTo(..))));
}

#[test]
fn three_steps_make_the_turn_between_vertices() {
    // Neighbouring vertices are 120 degrees apart, walked in three steps.
    assert_eq!(3 * STEP_DEGREES, 120);
}

#[test]
fn control_circle_is_nine_tenths_of_the_outer() {
    assert_eq!(radius_milli(RadiusKind::Outer), 1000);
    assert_eq!(radius_milli(RadiusKind::Inner), 900);
}

#[test]
fn corner_radii_keep_the_tuned_constants() {
    assert_eq!(corner_radii(0, true), Some((360, 404)));
    assert_eq!(corner_radii(2, true), Some((360, 404)));
    assert_eq!(corner_radii(1, true), Some((404, 500)));
    assert_eq!(corner_radii(0, false), Some((300, 600)));
    assert_eq!(corner_radii(2, false), Some((300, 600)));
    assert_eq!(corner_radii(1, false), Some((420, 500)));
}

#[test]
fn corner_radii_reject_everything_but_the_three_corners() {
    assert_eq!(corner_radii(3, true), None);
    assert_eq!(corner_radii(3, false), None);
    assert_eq!(corner_radii(-1, false), None);
    assert_eq!(corner_radii(17, true), None);
}

#[test]
fn stroke_width_is_canvas_width_but_at_least_the_pen_size() {
    // In 360ths of a pixel: a 100-pixel canvas keeps the one-pixel pen,
    // a 720-pixel canvas gets a two-pixel stroke.
    assert_eq!(stroke_width_360ths(100), 360);
    assert_eq!(stroke_width_360ths(720), 720);
    assert_eq!(stroke_width_360ths(360), 360);
    assert_eq!(stroke_width_360ths(361), 361);
    assert_eq!(stroke_width_360ths(0), PEN_SIZE_360THS);
}

#[test]
fn ellipse_shader_scales_by_the_ratio_of_the_radii() {
    let shader: EllipseShader = ellipse_shader(outer(3), (300, 600), (0xff00_0000, COLOR_TRANSPARENT_BLUE));
    assert_eq!(shader.base_radius, 300);
    assert_eq!(shader.scale_y_num, 600);
    assert_eq!(shader.scale_y_den, 300);
    assert_eq!(shader.center, outer(3));
    assert_eq!(shader.colors, (0xff00_0000, COLOR_TRANSPARENT_BLUE));
}

#[test]
fn highlight_sits_half_a_radius_above_the_centre() {
    let h: Highlight = highlight(0xffab_cdef);
    assert_eq!(h.center_dy_tenths, -5);
    assert_eq!(h.radius_tenths, 5);
    assert_eq!(h.colors, (COLOR_WHITE, 0xffab_cdef));
}

#[test]
fn triangle_plan_accepts_the_three_corners_and_no_other() {
    let color: u32 = 0xff12_3456;
    for index in 0i32..3i32 {
        let plan = triangle_plan(720, (50, 60), 10, Some(index), color, true);
        assert!(plan.is_some());
    }
    assert!(triangle_plan(720, (50, 60), 10, Some(3), color, true).is_none());
    assert!(triangle_plan(720, (50, 60), 10, Some(-1), color, false).is_none());
    assert!(triangle_plan(720, (50, 60), 10, None, color, false).is_some());
}

#[test]
fn triangle_plan_fills_a_selected_corner_with_its_gradient() {
    let color: u32 = 0xff12_3456;
    let plan = triangle_plan(720, (50, 60), 10, Some(1), color, false).unwrap();
    assert_eq!(plan.center, (50, 60));
    assert_eq!(plan.radius, 10);
    match plan.paint {
        PaintPlan::Fill(shader) => {
            assert_eq!(shader.base_radius, 420);
            assert_eq!(shader.scale_y_num, 500);
            assert_eq!(shader.scale_y_den, 420);
            // The gradient is centred on the vertex a third of a turn past
            // the rotation: step 3 on the outer circle.
            assert_eq!(shader.center, outer(3));
            assert_eq!(shader.colors, (color, COLOR_TRANSPARENT_BLUE));
        }
        PaintPlan::Stroke(_) => panic!("a selected corner must be gradient-filled"),
    }
    assert_eq!(plan.outline, triangle_outline(false));
}

#[test]
fn triangle_plan_strokes_when_no_corner_is_selected() {
    let color: u32 = 0xff65_4321;
    let plan = triangle_plan(720, (0, 0), 10, None, color, true).unwrap();
    match plan.paint {
        PaintPlan::Stroke(stroke) => {
            let expected: StrokePlan =
                StrokePlan { width_360ths: 720, highlight: highlight(color) };
            assert_eq!(stroke, expected);
        }
        PaintPlan::Fill(_) => panic!("without a selected corner the outline is stroked"),
    }
    assert_eq!(plan.outline, triangle_outline(true));
}

#[test]
fn frame_plan_strokes_one_white_segment() {
    let plan = frame_plan(100);
    let expected: Vec<FrameSegment> = vec![
        FrameSegment::MoveTo(CanvasPoint { x: 100, y: 100 }),
        FrameSegment::LineTo(CanvasPoint { x: 200, y: 200 }),
        FrameSegment::Close,
    ];
    assert_eq!(plan.path, expected);
    assert_eq!(plan.color, COLOR_WHITE);
    assert_eq!(plan.width_360ths, 360);
    assert_eq!(frame_plan(720).width_360ths, 720);
}
