use graphics_context::context::RectangleColorContext;
use graphics_context::render::{rect_corners, vertex_colors, Command, Corner, RenderError};
use graphics_context::scalar::{Channel, Color, Scalar};
use graphics_context::shape::{RectEdit, Rectangle, Shape};
use graphics_context::transform::{Factor, Matrix, Transform};

fn s(v: f64) -> Scalar {
    Scalar { bits: v.to_bits() }
}

fn ch(v: f32) -> Channel {
    Channel { bits: v.to_bits() }
}

fn rect(x: f64, y: f64, w: f64, h: f64) -> Rectangle {
    Rectangle { x: s(x), y: s(y), w: s(w), h: s(h) }
}

fn color(a: f32) -> Color {
    Color { r: ch(1.0), g: ch(0.5), b: ch(0.0), a: ch(a) }
}

fn ctx(a: f32) -> RectangleColorContext {
    RectangleColorContext::new(Shape::new(rect(10.0, 10.0, 20.0, 30.0)), color(a))
}

#[test]
fn channel_zero_and_one() {
    assert!(ch(0.0).is_zero());
    assert!(ch(-0.0).is_zero());
    assert!(!ch(0.25).is_zero());
    assert!(ch(1.0).is_one());
    assert!(!ch(0.999).is_one());
    assert!(!ch(f32::NAN).is_zero());
    assert!(!ch(f32::NAN).is_one());
}

#[test]
fn new_context_starts_at_identity() {
    let c = ctx(1.0);
    assert!(c.base.factors.is_empty());
    assert!(c.transform.factors.is_empty());
    assert_eq!(c.rect.rect, rect(10.0, 10.0, 20.0, 30.0));
    assert!(c.rect.edits.is_empty());
}

#[test]
fn with_view_sets_both_frames() {
    let m = Matrix { xx: s(2.0), xy: s(0.0), x0: s(1.0), yx: s(0.0), yy: s(2.0), y0: s(3.0) };
    let c = RectangleColorContext::with_view(m, Shape::new(rect(0.0, 0.0, 1.0, 1.0)), color(1.0));
    assert_eq!(c.base.factors, vec![Factor::Matrix(m)]);
    assert_eq!(c.transform.factors, vec![Factor::Matrix(m)]);
}

#[test]
fn global_translations_compose_on_the_left() {
    let c = ctx(1.0).trans(s(1.0), s(2.0)).trans(s(3.0), s(4.0));
    assert_eq!(
        c.transform.factors,
        vec![Factor::Translate(s(3.0), s(4.0)), Factor::Translate(s(1.0), s(2.0))]
    );
}

#[test]
fn local_and_global_differ() {
    let c = ctx(1.0);
    let local = c.rot_rad_local(s(0.5)).trans_local(s(1.0), s(0.0));
    let global = c.rot_rad(s(0.5)).trans(s(1.0), s(0.0));
    assert_eq!(
        local.transform.factors,
        vec![Factor::Rotate(s(0.5)), Factor::Translate(s(1.0), s(0.0))]
    );
    assert_eq!(
        global.transform.factors,
        vec![Factor::Translate(s(1.0), s(0.0)), Factor::Rotate(s(0.5))]
    );
    assert_ne!(local.transform.factors, global.transform.factors);
}

#[test]
fn local_rotations_accumulate() {
    let c = ctx(1.0).scale(s(2.0), s(2.0)).rot_rad_local(s(0.25)).rot_rad_local(s(0.5));
    assert_eq!(
        c.transform.factors,
        vec![Factor::Scale(s(2.0), s(2.0)), Factor::Rotate(s(0.25)), Factor::Rotate(s(0.5))]
    );
}

#[test]
fn scale_and_shear_global_and_local() {
    let c = ctx(1.0).trans(s(1.0), s(1.0));
    assert_eq!(
        c.scale(s(2.0), s(3.0)).transform.factors,
        vec![Factor::Scale(s(2.0), s(3.0)), Factor::Translate(s(1.0), s(1.0))]
    );
    assert_eq!(
        c.scale_local(s(2.0), s(3.0)).transform.factors,
        vec![Factor::Translate(s(1.0), s(1.0)), Factor::Scale(s(2.0), s(3.0))]
    );
    assert_eq!(
        c.shear(s(0.5), s(0.0)).transform.factors,
        vec![Factor::Shear(s(0.5), s(0.0)), Factor::Translate(s(1.0), s(1.0))]
    );
    assert_eq!(
        c.shear_local(s(0.5), s(0.0)).transform.factors,
        vec![Factor::Translate(s(1.0), s(1.0)), Factor::Shear(s(0.5), s(0.0))]
    );
}

#[test]
fn view_after_store_view_restores_stored() {
    let stored = ctx(1.0).trans(s(5.0), s(6.0)).store_view();
    let moved = stored.rot_rad(s(1.0)).reset().scale_local(s(2.0), s(2.0)).margin(s(1.0)).view();
    assert_eq!(
        moved.transform.factors,
        vec![Factor::Translate(s(5.0), s(6.0))]
    );
}

#[test]
fn reset_yields_identity() {
    let c = ctx(1.0).trans(s(5.0), s(6.0)).store_view().rot_rad(s(1.0)).reset();
    assert!(c.transform.factors.is_empty());
    assert_eq!(c.base.factors, vec![Factor::Translate(s(5.0), s(6.0))]);
}

#[test]
fn derivation_leaves_parent_unchanged() {
    let parent = ctx(0.5).trans(s(1.0), s(2.0));
    let _a = parent.trans(s(3.0), s(4.0));
    let _b = parent.margin(s(2.0));
    let _c = parent.store_view();
    let _d = parent.reset();
    let _e = parent.round(s(4.0));
    assert!(parent.base.factors.is_empty());
    assert_eq!(parent.transform.factors, vec![Factor::Translate(s(1.0), s(2.0))]);
    assert_eq!(parent.rect.rect, rect(10.0, 10.0, 20.0, 30.0));
    assert!(parent.rect.edits.is_empty());
    assert_eq!(parent.color, color(0.5));
}

#[test]
fn round_extends_rectangle() {
    let c = ctx(1.0);
    let r = c.round(s(4.0));
    assert_eq!(r.round_rect.shape.rect, rect(10.0, 10.0, 20.0, 30.0));
    assert_eq!(r.round_rect.radius, s(4.0));
    assert_eq!(r.color, c.color);
    assert_eq!(c.rect.rect, rect(10.0, 10.0, 20.0, 30.0));
}

#[test]
fn margin_and_rel_record_edits() {
    let c = RectangleColorContext::new(Shape::new(rect(0.0, 0.0, 10.0, 10.0)), color(1.0));
    let m = c.margin(s(5.0)).rel(s(1.0), s(-1.0));
    assert_eq!(m.rect.rect, rect(0.0, 0.0, 10.0, 10.0));
    assert_eq!(
        m.rect.edits,
        vec![RectEdit::Margin(s(5.0)), RectEdit::Relative(s(1.0), s(-1.0))]
    );
    assert!(c.rect.edits.is_empty());
}

#[test]
fn transform_multiply_concatenates() {
    let a = Transform::from_factor(Factor::Rotate(s(1.0)));
    let b = Transform::from_factor(Factor::Scale(s(2.0), s(2.0)));
    assert_eq!(
        a.multiply(&b).factors,
        vec![Factor::Rotate(s(1.0)), Factor::Scale(s(2.0), s(2.0))]
    );
    assert!(Transform::identity().multiply(&Transform::identity()).factors.is_empty());
}

#[test]
fn triangle_list_order() {
    assert_eq!(
        rect_corners(),
        vec![
            Corner::TopLeft,
            Corner::TopRight,
            Corner::BottomLeft,
            Corner::TopRight,
            Corner::BottomRight,
            Corner::BottomLeft,
        ]
    );
    assert_eq!(vertex_colors(color(0.5)), vec![color(0.5); 6]);
}

#[test]
fn fill_transparent_submits_nothing() {
    let cmds = ctx(0.0).fill(true).unwrap();
    assert!(cmds.is_empty());
    let cmds = ctx(-0.0).fill(true).unwrap();
    assert!(cmds.is_empty());
}

#[test]
fn fill_translucent_brackets_blend() {
    let c = ctx(0.5).trans(s(1.0), s(1.0));
    let cmds = c.fill(true).unwrap();
    assert_eq!(cmds.len(), 3);
    assert!(matches!(cmds[0], Command::EnableBlend));
    match &cmds[1] {
        Command::Triangles(b) => {
            assert_eq!(b.transform.factors, vec![Factor::Translate(s(1.0), s(1.0))]);
            assert_eq!(b.rect.rect, rect(10.0, 10.0, 20.0, 30.0));
            assert_eq!(b.corners, rect_corners());
            assert_eq!(b.colors, vec![color(0.5); 6]);
        }
        _ => panic!("expected a draw call"),
    }
    assert!(matches!(cmds[2], Command::DisableBlend));
}

#[test]
fn fill_opaque_draws_once() {
    let cmds = ctx(1.0).fill(true).unwrap();
    assert_eq!(cmds.len(), 1);
    assert!(matches!(cmds[0], Command::Triangles(_)));
}

#[test]
fn fill_unsupported_is_capability_mismatch() {
    assert_eq!(ctx(0.5).fill(false).unwrap_err(), RenderError::CapabilityMismatch);
    assert_eq!(ctx(0.0).fill(false).unwrap_err(), RenderError::CapabilityMismatch);
}

#[test]
fn clear_submits_color() {
    match ctx(0.5).clear(true) {
        Ok(Command::Clear(c)) => assert_eq!(c, color(0.5)),
        _ => panic!("expected a clear"),
    }
    assert_eq!(ctx(0.5).clear(false).unwrap_err(), RenderError::CapabilityMismatch);
}
