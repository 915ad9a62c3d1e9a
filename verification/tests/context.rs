use piet::kurbo::{Affine, PathEl, Point, QuadBez, Rect};
use piet::{Color, LineCap, LineJoin};
use piet_backends::color::{channel_byte, color_channels, Rgba8};
use piet_backends::coregraphics::{BackendOp, Brush, CoreGraphicsContext, CoreGraphicsText};
use piet_backends::error::Error;
use piet_backends::geometry::elevate;
use piet_backends::stroke::{
    convert_line_cap, convert_line_join, CGLineCap, CGLineJoin, Real, StrokeStyle, DEFAULT_MITER_LIMIT_BITS,
};
use piet_backends::svg_text::Text;

fn as_real(x: f64) -> Real {
    Real { bits: x.to_bits() }
}

fn triangle() -> Vec<PathEl> {
    vec![
        PathEl::MoveTo(Point::new(0.0, 0.0)),
        PathEl::LineTo(Point::new(4.0, 0.0)),
        PathEl::LineTo(Point::new(0.0, 3.0)),
        PathEl::ClosePath,
    ]
}

fn triangle_ops() -> Vec<BackendOp> {
    vec![
        BackendOp::BeginPath,
        BackendOp::MoveToPoint(Point::new(0.0, 0.0)),
        BackendOp::AddLineToPoint(Point::new(4.0, 0.0)),
        BackendOp::AddLineToPoint(Point::new(0.0, 3.0)),
        BackendOp::ClosePath,
    ]
}

#[test]
fn channel_bytes_round_trip_through_fractions() {
    for b in 0u32..=255 {
        let byte = channel_byte(b | 0xABCD_EF00);
        assert_eq!(byte as u32, b);
        let frac = (byte as f64) * (1.0 / 255.0);
        assert!((0.0..=1.0).contains(&frac));
        assert_eq!((frac * 255.0).round() as u32, b);
    }
}

#[test]
fn channels_are_red_green_blue_alpha() {
    assert_eq!(color_channels(0x11223344), Rgba8 { r: 0x11, g: 0x22, b: 0x33, a: 0x44 });
    assert_eq!(color_channels(0xFF0000FF), Rgba8 { r: 255, g: 0, b: 0, a: 255 });
}

#[test]
fn clear_to_red_sets_the_color_and_fills_the_clip() {
    let mut ctx = CoreGraphicsContext::new();
    let ops = ctx.clear(Color::from_rgba32_u32(0xFF0000FF));
    assert_eq!(
        ops,
        vec![BackendOp::SetRgbFillColor(Rgba8 { r: 255, g: 0, b: 0, a: 255 }), BackendOp::FillClipBounds]
    );
}

#[test]
fn solid_brush_holds_the_color_word() {
    let mut ctx = CoreGraphicsContext::new();
    assert_eq!(ctx.solid_brush(Color::from_rgba32_u32(0x11223344)), Brush::Solid(0x11223344));
    assert_eq!(ctx.solid_brush(Color::rgb8(1, 2, 3)), Brush::Solid(0x010203FF));
}

#[test]
fn gradients_are_not_supported() {
    let mut ctx = CoreGraphicsContext::new();
    let path = triangle();
    assert_eq!(ctx.fill(&path, &Brush::Gradient), Err(Error::NotSupported));
    assert_eq!(ctx.fill_even_odd(&path, &Brush::Gradient), Err(Error::NotSupported));
    assert_eq!(ctx.stroke(&path, &Brush::Gradient, as_real(1.0)), Err(Error::NotSupported));
    assert!(matches!(ctx.set_fill_brush(&Brush::Gradient), Err(Error::NotSupported)));
    assert!(matches!(ctx.set_stroke_brush(&Brush::Gradient), Err(Error::NotSupported)));
    // The context is as it was: a later fill still works.
    assert_eq!(ctx.depth(), 0);
    assert!(ctx.fill(&path, &Brush::Solid(0xFF)).is_ok());
}

#[test]
fn fill_sets_path_then_color_then_fills() {
    let mut ctx = CoreGraphicsContext::new();
    let mut expected = triangle_ops();
    expected.push(BackendOp::SetRgbFillColor(Rgba8 { r: 1, g: 2, b: 3, a: 4 }));
    expected.push(BackendOp::FillPath);
    assert_eq!(ctx.fill(&triangle(), &Brush::Solid(0x01020304)), Ok(expected));

    let mut expected = triangle_ops();
    expected.push(BackendOp::SetRgbFillColor(Rgba8 { r: 1, g: 2, b: 3, a: 4 }));
    expected.push(BackendOp::EoFillPath);
    assert_eq!(ctx.fill_even_odd(&triangle(), &Brush::Solid(0x01020304)), Ok(expected));
}

#[test]
fn clip_sets_path_then_clips() {
    let mut ctx = CoreGraphicsContext::new();
    let mut expected = triangle_ops();
    expected.push(BackendOp::Clip);
    assert_eq!(ctx.clip(&triangle()), expected);
}

#[test]
fn stroke_without_style_takes_the_defaults() {
    let mut ctx = CoreGraphicsContext::new();
    let ops = ctx.stroke(&triangle(), &Brush::Solid(0x0A0B0C0D), as_real(2.5)).unwrap();
    let mut expected = triangle_ops();
    expected.push(BackendOp::SetLineWidth(as_real(2.5)));
    expected.push(BackendOp::SetLineJoin(CGLineJoin::CGLineJoinMiter));
    expected.push(BackendOp::SetLineCap(CGLineCap::CGLineCapButt));
    expected.push(BackendOp::SetMiterLimit(as_real(10.0)));
    expected.push(BackendOp::SetLineDash(as_real(0.0), Vec::new()));
    expected.push(BackendOp::SetRgbStrokeColor(Rgba8 { r: 10, g: 11, b: 12, a: 13 }));
    expected.push(BackendOp::StrokePath);
    assert_eq!(ops, expected);
    assert_eq!(f64::from_bits(DEFAULT_MITER_LIMIT_BITS), 10.0);
}

#[test]
fn stroke_styled_takes_each_override() {
    let mut ctx = CoreGraphicsContext::new();
    let style = StrokeStyle {
        line_join: Some(LineJoin::Round),
        line_cap: Some(LineCap::Square),
        dash: Some((vec![as_real(4.0), as_real(2.0)], as_real(1.0))),
        miter_limit: Some(as_real(3.0)),
    };
    let ops = ctx.set_stroke(as_real(-1.0), Some(&style));
    assert_eq!(
        ops,
        vec![
            BackendOp::SetLineWidth(as_real(-1.0)),
            BackendOp::SetLineJoin(CGLineJoin::CGLineJoinRound),
            BackendOp::SetLineCap(CGLineCap::CGLineCapSquare),
            BackendOp::SetMiterLimit(as_real(3.0)),
            BackendOp::SetLineDash(as_real(1.0), vec![as_real(4.0), as_real(2.0)]),
        ]
    );
    let styled = ctx.stroke_styled(&triangle(), &Brush::Solid(0xFF), as_real(1.0), &style).unwrap();
    assert_eq!(styled.len(), 5 + 5 + 2);
    assert_eq!(styled[5..10], ctx.set_stroke(as_real(1.0), Some(&style))[..]);

    let partial = StrokeStyle { line_join: Some(LineJoin::Bevel), line_cap: None, dash: None, miter_limit: None };
    assert_eq!(
        ctx.set_stroke(as_real(1.0), Some(&partial)),
        vec![
            BackendOp::SetLineWidth(as_real(1.0)),
            BackendOp::SetLineJoin(CGLineJoin::CGLineJoinBevel),
            BackendOp::SetLineCap(CGLineCap::CGLineCapButt),
            BackendOp::SetMiterLimit(as_real(10.0)),
            BackendOp::SetLineDash(as_real(0.0), Vec::new()),
        ]
    );
}

#[test]
fn joins_and_caps_convert_by_name() {
    assert_eq!(convert_line_join(LineJoin::Miter), CGLineJoin::CGLineJoinMiter);
    assert_eq!(convert_line_join(LineJoin::Round), CGLineJoin::CGLineJoinRound);
    assert_eq!(convert_line_join(LineJoin::Bevel), CGLineJoin::CGLineJoinBevel);
    assert_eq!(convert_line_cap(LineCap::Butt), CGLineCap::CGLineCapButt);
    assert_eq!(convert_line_cap(LineCap::Round), CGLineCap::CGLineCapRound);
    assert_eq!(convert_line_cap(LineCap::Square), CGLineCap::CGLineCapSquare);
}

fn quad_at(p0: Point, p1: Point, p2: Point, t: f64) -> (f64, f64) {
    let mt = 1.0 - t;
    (
        mt * mt * p0.x + 2.0 * mt * t * p1.x + t * t * p2.x,
        mt * mt * p0.y + 2.0 * mt * t * p1.y + t * t * p2.y,
    )
}

fn cubic_at(p0: Point, p1: Point, p2: Point, p3: Point, t: f64) -> (f64, f64) {
    let mt = 1.0 - t;
    (
        mt * mt * mt * p0.x + 3.0 * mt * mt * t * p1.x + 3.0 * mt * t * t * p2.x + t * t * t * p3.x,
        mt * mt * mt * p0.y + 3.0 * mt * mt * t * p1.y + 3.0 * mt * t * t * p2.y + t * t * t * p3.y,
    )
}

#[test]
fn raised_quadratic_traces_the_same_curve() {
    let cases = [
        (Point::new(0.0, 0.0), Point::new(1.0, 2.0), Point::new(3.0, 0.0)),
        (Point::new(-5.5, 2.25), Point::new(10.0, -7.0), Point::new(0.125, 100.0)),
        (Point::new(1.0, 1.0), Point::new(1.0, 1.0), Point::new(1.0, 1.0)),
    ];
    for &(last, ctrl, end) in &cases {
        let mut ctx = CoreGraphicsContext::new();
        let ops = ctx.set_path(&vec![PathEl::MoveTo(last), PathEl::QuadTo(ctrl, end)]);
        assert_eq!(ops.len(), 3);
        let (c1, c2, c3) = match &ops[2] {
            BackendOp::AddCurveToPoint(a, b, c) => (*a, *b, *c),
            other => panic!("not a curve: {:?}", other),
        };
        assert_eq!(c3, end);
        for &t in &[0.0, 0.25, 0.5, 0.75, 1.0] {
            let q = quad_at(last, ctrl, end, t);
            let c = cubic_at(last, c1, c2, c3, t);
            assert!((q.0 - c.0).abs() < 1e-9);
            assert!((q.1 - c.1).abs() < 1e-9);
        }
    }
}

#[test]
fn raised_control_points_have_their_exact_values() {
    let (c1, c2) = elevate(Point::new(0.0, 0.0), Point::new(3.0, 6.0), Point::new(6.0, 0.0));
    assert_eq!(c1, Point::new(2.0, 4.0));
    assert_eq!(c2, Point::new(4.0, 4.0));
    let raised = QuadBez::new(Point::new(1.0, 2.0), Point::new(3.5, -4.0), Point::new(9.0, 9.0)).raise();
    let (c1, c2) = elevate(Point::new(1.0, 2.0), Point::new(3.5, -4.0), Point::new(9.0, 9.0));
    assert_eq!((c1, c2), (raised.p1, raised.p2));
    assert!(c1 != Point::new(1.0, 2.0));
}

#[test]
fn path_elements_become_calls_in_order() {
    let mut ctx = CoreGraphicsContext::new();
    let path = vec![
        PathEl::MoveTo(Point::new(1.0, 1.0)),
        PathEl::CurveTo(Point::new(2.0, 2.0), Point::new(3.0, 2.0), Point::new(4.0, 1.0)),
        PathEl::ClosePath,
        PathEl::QuadTo(Point::new(7.0, 4.0), Point::new(10.0, 1.0)),
    ];
    // Closing leaves the current point at the end of the curve, (4, 1).
    assert_eq!(
        ctx.set_path(&path),
        vec![
            BackendOp::BeginPath,
            BackendOp::MoveToPoint(Point::new(1.0, 1.0)),
            BackendOp::AddCurveToPoint(Point::new(2.0, 2.0), Point::new(3.0, 2.0), Point::new(4.0, 1.0)),
            BackendOp::ClosePath,
            BackendOp::AddCurveToPoint(Point::new(6.0, 3.0), Point::new(8.0, 3.0), Point::new(10.0, 1.0)),
        ]
    );
    assert_eq!(ctx.set_path(&Vec::new()), vec![BackendOp::BeginPath]);
}

#[test]
fn a_path_that_draws_before_it_moves_starts_at_the_origin() {
    let mut ctx = CoreGraphicsContext::new();
    let ops = ctx.set_path(&vec![PathEl::QuadTo(Point::new(3.0, 6.0), Point::new(6.0, 0.0))]);
    assert_eq!(
        ops,
        vec![
            BackendOp::BeginPath,
            BackendOp::AddCurveToPoint(Point::new(2.0, 4.0), Point::new(4.0, 4.0), Point::new(6.0, 0.0)),
        ]
    );
    let ops = ctx.set_path(&vec![PathEl::LineTo(Point::new(1.0, 1.0))]);
    assert_eq!(ops, vec![BackendOp::BeginPath, BackendOp::AddLineToPoint(Point::new(1.0, 1.0))]);
}

#[test]
fn saves_and_restores_nest() {
    let mut ctx = CoreGraphicsContext::new();
    for n in 0..4usize {
        for i in 0..n {
            assert_eq!(ctx.save(), Ok(vec![BackendOp::SaveGState]));
            assert_eq!(ctx.depth(), i + 1);
        }
        for i in 0..n {
            assert_eq!(ctx.restore(), Ok(vec![BackendOp::RestoreGState]));
            assert_eq!(ctx.depth(), n - i - 1);
        }
        assert_eq!(ctx.restore(), Err(Error::BackendFailure));
        assert_eq!(ctx.depth(), 0);
    }
}

#[test]
fn clip_and_transform_do_not_touch_the_stack() {
    let mut ctx = CoreGraphicsContext::new();
    ctx.save().unwrap();
    ctx.clip(&triangle());
    let t = Affine::translate((2.0, 3.0));
    assert_eq!(ctx.transform(t), vec![BackendOp::ConcatCtm(t)]);
    assert_eq!(ctx.depth(), 1);
    assert!(ctx.restore().is_ok());
    assert!(ctx.restore().is_err());
}

#[test]
fn the_reported_transform_is_the_default_one() {
    let ctx = CoreGraphicsContext::new();
    assert_eq!(ctx.current_transform(), Affine::default());
}

#[test]
fn the_reported_transform_does_not_follow_the_session() {
    let mut ctx = CoreGraphicsContext::new();
    let before = ctx.current_transform();
    ctx.save().unwrap();
    ctx.transform(Affine::translate((2.0, 3.0)));
    assert_eq!(ctx.current_transform(), before);
    ctx.restore().unwrap();
    assert_eq!(ctx.current_transform(), before);
    assert!(ctx.current_transform() != Affine::translate((2.0, 3.0)));
}

#[test]
fn unfinished_operations_are_not_supported() {
    let mut ctx = CoreGraphicsContext::new();
    assert_eq!(ctx.status(), Err(Error::NotSupported));
    assert_eq!(
        ctx.blurred_rect(Rect::new(0.0, 0.0, 1.0, 1.0), as_real(2.0), &Brush::Solid(0)),
        Err(Error::NotSupported)
    );
    assert_eq!(ctx.finish(), Ok(()));
    assert_eq!(ctx.text(), CoreGraphicsText {});
    let mut text: CoreGraphicsText = ctx.text();
    assert!(matches!(text.new_font_by_name("serif", as_real(12.0)).build(), Err(Error::NotSupported)));
}

#[test]
fn markup_text_builds_nothing() {
    let mut text = Text::new();
    assert!(matches!(text.new_font_by_name("serif", as_real(12.0)).build(), Err(Error::NotSupported)));
}

#[test]
fn brushes_resolve_to_themselves() {
    assert_eq!(Brush::Solid(7).make_brush(), &Brush::Solid(7));
    assert_eq!(Brush::Gradient.make_brush(), &Brush::Gradient);
}
