use direct2d::brush::{Brush, GradientStopCollection};
use direct2d::enums::{CapStyle, DashStyle, ExtendMode, Gamma, LineJoin, StrokeTransformType};
use direct2d::error::{Error, E_INVALIDARG};
use direct2d::factory::Factory;
use direct2d::geometry::RoundedRectangle;
use direct2d::gradient_builder::{GradientStopBuilder, LinearGradientBrushBuilder};
use direct2d::math::{ColorF, Matrix3x2f, Point2f, Rectf, RoundedRect, Scalar, ONE_BITS, TEN_BITS};
use direct2d::properties::{BrushProperties, GradientStop};
use direct2d::stroke_style::StrokeStyleBuilder1;

fn s(v: f32) -> Scalar {
    Scalar::from_bits(v.to_bits())
}

fn stop(position: f32, r: f32, g: f32, b: f32) -> GradientStop {
    GradientStop { position: s(position), color: ColorF { r: s(r), g: s(g), b: s(b), a: s(1.0) } }
}

#[test]
fn scalar_constants_match_their_values() {
    assert_eq!(Scalar::one().to_bits(), 1.0f32.to_bits());
    assert_eq!(Scalar::ten().to_bits(), 10.0f32.to_bits());
    assert_eq!(Scalar::zero().to_bits(), 0.0f32.to_bits());
    assert_eq!(ONE_BITS, 1.0f32.to_bits());
    assert_eq!(TEN_BITS, 10.0f32.to_bits());
    let m = Matrix3x2f::identity();
    assert_eq!(f32::from_bits(m.a.bits), 1.0);
    assert_eq!(f32::from_bits(m.d.bits), 1.0);
    assert_eq!(f32::from_bits(m.b.bits), 0.0);
}

#[test]
fn enum_codes_follow_the_engine() {
    assert_eq!(CapStyle::Flat.to_native(), 0);
    assert_eq!(CapStyle::Triangle.to_native(), 3);
    assert_eq!(LineJoin::MiterOrBevel.to_native(), 3);
    assert_eq!(DashStyle::Custom.to_native(), 5);
    assert_eq!(DashStyle::DashDotDot.to_native(), 4);
    assert_eq!(StrokeTransformType::Hairline.to_native(), 2);
}

#[test]
fn stroke_style_defaults_build() {
    let mut f = Factory::new();
    let style = StrokeStyleBuilder1::new().build(&mut f).unwrap();
    let (p, dashes) = style.contents(&f);
    assert_eq!(p.start_cap, 0);
    assert_eq!(p.end_cap, 0);
    assert_eq!(p.dash_cap, 0);
    assert_eq!(p.line_join, 0);
    assert_eq!(f32::from_bits(p.miter_limit.bits), 10.0);
    assert_eq!(p.dash_style, 0);
    assert_eq!(f32::from_bits(p.dash_offset.bits), 0.0);
    assert_eq!(p.transform_type, 0);
    assert!(dashes.is_empty());
    assert_eq!(f.ref_count(style.object_id()), 1);
}

#[test]
fn stroke_style_properties_round_trip() {
    let mut f = Factory::new();
    let style = StrokeStyleBuilder1::new()
        .with_start_cap(CapStyle::Round)
        .with_end_cap(CapStyle::Square)
        .with_dash_cap(CapStyle::Triangle)
        .with_line_join(LineJoin::Bevel)
        .with_miter_limit(s(4.5))
        .with_dash_style(DashStyle::DashDot)
        .with_dash_offset(s(2.0))
        .build(&mut f)
        .unwrap();
    let (p, dashes) = style.contents(&f);
    assert_eq!(p.start_cap, CapStyle::Round.to_native());
    assert_eq!(p.end_cap, CapStyle::Square.to_native());
    assert_eq!(p.dash_cap, CapStyle::Triangle.to_native());
    assert_eq!(p.line_join, LineJoin::Bevel.to_native());
    assert_eq!(f32::from_bits(p.miter_limit.bits), 4.5);
    assert_eq!(p.dash_style, DashStyle::DashDot.to_native());
    assert_eq!(f32::from_bits(p.dash_offset.bits), 2.0);
    assert!(dashes.is_empty());
}

#[test]
fn stroke_style_dashes_select_custom_style() {
    let mut f = Factory::new();
    let pattern = [s(1.0), s(2.0), s(3.0)];
    let style = StrokeStyleBuilder1::new().with_dashes(&pattern).build(&mut f).unwrap();
    let (p, dashes) = style.contents(&f);
    assert_eq!(p.dash_style, 5);
    assert_eq!(dashes, pattern.to_vec());
}

#[test]
fn stroke_style_dashes_without_custom_style_fail() {
    let mut f = Factory::new();
    let pattern = [s(1.0)];
    let r = StrokeStyleBuilder1::new()
        .with_dashes(&pattern)
        .with_dash_style(DashStyle::Dash)
        .build(&mut f);
    assert_eq!(r.err(), Some(Error::from_hresult(E_INVALIDARG)));
    assert_eq!(f.object_count(), 0);
}

#[test]
fn stroke_style_custom_without_dashes_fails() {
    let mut f = Factory::new();
    let r = StrokeStyleBuilder1::new().with_dash_style(DashStyle::Custom).build(&mut f);
    assert_eq!(r.err().map(|e| e.hresult()), Some(E_INVALIDARG));
}

#[test]
fn gradient_brush_defaults() {
    let mut f = Factory::new();
    let brush = LinearGradientBrushBuilder::new()
        .with_stop(stop(0.0, 1.0, 0.0, 0.0))
        .build(&mut f)
        .unwrap();
    assert_eq!(f32::from_bits(brush.get_opacity(&f).bits), 1.0);
    assert_eq!(brush.get_transform(&f), Matrix3x2f::identity());
    assert_eq!(brush.get_start_point(&f), Point2f::origin());
    assert_eq!(brush.get_end_point(&f), Point2f::origin());
    let col = brush.get_gradient_stop_collection(&mut f);
    let (stops, gamma, extend) = col.contents(&f);
    assert_eq!(stops.len(), 1);
    assert_eq!(gamma, Gamma::Gamma22);
    assert_eq!(extend, ExtendMode::Clamp);
}

#[test]
fn gradient_brush_properties_round_trip() {
    let mut f = Factory::new();
    let mut t = Matrix3x2f::identity();
    t.x = s(5.0);
    t.y = s(-3.0);
    let more = [stop(0.5, 0.0, 1.0, 0.0), stop(1.0, 0.0, 0.0, 1.0)];
    let brush = LinearGradientBrushBuilder::new()
        .with_opacity(s(0.25))
        .with_transform(t)
        .with_start(Point2f::new(s(1.0), s(2.0)))
        .with_end(Point2f::new(s(10.0), s(20.0)))
        .with_extend_mode(ExtendMode::Mirror)
        .with_gamma(Gamma::Gamma10)
        .with_stop(stop(0.0, 1.0, 0.0, 0.0))
        .with_stops(&more)
        .build(&mut f)
        .unwrap();
    assert_eq!(f32::from_bits(brush.get_opacity(&f).bits), 0.25);
    assert_eq!(brush.get_transform(&f), t);
    assert_eq!(f32::from_bits(brush.get_start_point(&f).y.bits), 2.0);
    assert_eq!(f32::from_bits(brush.get_end_point(&f).x.bits), 10.0);
    let col = brush.get_gradient_stop_collection(&mut f);
    let (stops, gamma, extend) = col.contents(&f);
    assert_eq!(stops, vec![stop(0.0, 1.0, 0.0, 0.0), more[0], more[1]]);
    assert_eq!(gamma, Gamma::Gamma10);
    assert_eq!(extend, ExtendMode::Mirror);
}

#[test]
fn gradient_brush_with_properties_sets_both() {
    let mut f = Factory::new();
    let t = Matrix3x2f { a: s(2.0), b: s(0.0), c: s(0.0), d: s(2.0), x: s(0.0), y: s(0.0) };
    let brush = LinearGradientBrushBuilder::new()
        .with_properties(BrushProperties::new(s(0.5), &t))
        .with_stop(stop(0.0, 0.0, 0.0, 0.0))
        .build(&mut f)
        .unwrap();
    assert_eq!(f32::from_bits(brush.get_opacity(&f).bits), 0.5);
    assert_eq!(brush.get_transform(&f), t);
}

#[test]
fn gradient_brush_without_stops_fails() {
    let mut f = Factory::new();
    let r = LinearGradientBrushBuilder::new().with_opacity(s(0.5)).build(&mut f);
    assert_eq!(r.err(), Some(Error { hr: E_INVALIDARG }));
    assert_eq!(f.object_count(), 0);
    let r = GradientStopBuilder::new().build(&mut f);
    assert_eq!(r.err().map(|e| e.hresult()), Some(E_INVALIDARG));
}

#[test]
fn gradient_brush_pending_stops_make_one_owned_collection() {
    let mut f = Factory::new();
    let brush = LinearGradientBrushBuilder::new()
        .with_stop(stop(0.0, 1.0, 1.0, 1.0))
        .build(&mut f)
        .unwrap();
    assert_eq!(f.object_count(), 2);
    assert_eq!(brush.object_id(), 1);
    assert_eq!(f.ref_count(0), 1);
    assert_eq!(f.ref_count(1), 1);
}

#[test]
fn gradient_brush_uses_existing_collection() {
    let mut f = Factory::new();
    let col = GradientStopCollection::create(
        &mut f,
        vec![stop(0.0, 1.0, 0.0, 0.0), stop(1.0, 0.0, 0.0, 1.0)],
        Gamma::Gamma10,
        ExtendMode::Wrap,
    )
    .unwrap();
    let brush = LinearGradientBrushBuilder::new().with_stop_collection(&col).build(&mut f).unwrap();
    assert_eq!(f.ref_count(col.object_id()), 2);
    let again = brush.get_gradient_stop_collection(&mut f);
    assert_eq!(again.object_id(), col.object_id());
    assert_eq!(f.ref_count(col.object_id()), 3);
    let (stops, gamma, extend) = again.contents(&f);
    assert_eq!(stops.len(), 2);
    assert_eq!(gamma, Gamma::Gamma10);
    assert_eq!(extend, ExtendMode::Wrap);
}

#[test]
fn generic_brush_shares_the_object() {
    let mut f = Factory::new();
    let mut brush = LinearGradientBrushBuilder::new()
        .with_stop(stop(0.0, 1.0, 0.0, 0.0))
        .build(&mut f)
        .unwrap();
    let id = brush.object_id();
    let mut generic = brush.to_generic(&mut f);
    assert_eq!(generic.object_id(), id);
    assert_eq!(f.ref_count(id), 2);
    generic.set_opacity(&mut f, s(0.75));
    assert_eq!(f32::from_bits(brush.get_opacity(&f).bits), 0.75);
    let t = Matrix3x2f { a: s(1.0), b: s(0.0), c: s(0.0), d: s(1.0), x: s(7.0), y: s(8.0) };
    brush.set_transform(&mut f, &t);
    assert_eq!(generic.get_transform(&f), t);
    brush.set_opacity(&mut f, s(0.125));
    assert_eq!(f32::from_bits(generic.get_opacity(&f).bits), 0.125);
    let third = generic.clone_in(&mut f);
    assert_eq!(f.ref_count(id), 3);
    third.release(&mut f);
    generic.set_transform(&mut f, &Matrix3x2f::identity());
    assert_eq!(brush.get_transform(&f), Matrix3x2f::identity());
}

#[test]
fn releasing_last_handle_frees_object() {
    let mut f = Factory::new();
    let brush = LinearGradientBrushBuilder::new()
        .with_stop(stop(0.0, 1.0, 0.0, 0.0))
        .build(&mut f)
        .unwrap();
    let id = brush.object_id();
    let second = brush.clone_in(&mut f);
    assert_eq!(f.ref_count(id), 2);
    brush.release(&mut f);
    assert_eq!(f.ref_count(id), 1);
    assert_eq!(f.ref_count(0), 1);
    second.release(&mut f);
    assert_eq!(f.ref_count(id), 0);
    assert_eq!(f.ref_count(0), 0);
}

#[test]
fn collection_outlives_brush_while_held() {
    let mut f = Factory::new();
    let col = GradientStopCollection::create(
        &mut f,
        vec![stop(0.0, 1.0, 0.0, 0.0)],
        Gamma::Gamma22,
        ExtendMode::Clamp,
    )
    .unwrap();
    let brush = LinearGradientBrushBuilder::new().with_stop_collection(&col).build(&mut f).unwrap();
    brush.release(&mut f);
    assert_eq!(f.ref_count(col.object_id()), 1);
    let id = col.object_id();
    col.release(&mut f);
    assert_eq!(f.ref_count(id), 0);
}

#[test]
fn stroke_style_and_geometry_release() {
    let mut f = Factory::new();
    let style = StrokeStyleBuilder1::new().build(&mut f).unwrap();
    let copy = style.clone_in(&mut f);
    assert_eq!(f.ref_count(style.object_id()), 2);
    style.release(&mut f);
    copy.release(&mut f);
    assert_eq!(f.ref_count(0), 0);
    let rr = RoundedRect {
        rect: Rectf { left: s(0.0), top: s(0.0), right: s(100.0), bottom: s(50.0) },
        radius_x: s(5.0),
        radius_y: s(6.0),
    };
    let g = RoundedRectangle::create(&mut f, &rr).unwrap();
    assert_eq!(g.get_rounded_rect(&f), rr);
    let g2 = g.clone_in(&mut f);
    g.release(&mut f);
    assert_eq!(f.ref_count(g2.object_id()), 1);
    g2.release(&mut f);
    assert_eq!(f.ref_count(1), 0);
}

fn opacity_bits<B: Brush>(b: &B, f: &Factory) -> u32 {
    b.get_opacity(f).to_bits()
}

#[test]
fn brushes_share_capabilities_through_the_trait() {
    let mut f = Factory::new();
    let mut brush = LinearGradientBrushBuilder::new()
        .with_opacity(s(0.5))
        .with_stop(stop(0.0, 1.0, 0.0, 0.0))
        .build(&mut f)
        .unwrap();
    let generic = brush.to_generic(&mut f);
    assert_eq!(opacity_bits(&brush, &f), 0.5f32.to_bits());
    assert_eq!(opacity_bits(&generic, &f), 0.5f32.to_bits());
    Brush::set_opacity(&mut brush, &mut f, s(0.0));
    assert_eq!(opacity_bits(&generic, &f), 0.0f32.to_bits());
    let wider = generic.to_generic(&mut f);
    assert_eq!(wider.object_id(), brush.object_id());
    assert_eq!(f.ref_count(brush.object_id()), 3);
}
