use vstd::prelude::*;

use crate::scalar::{Color, Scalar};
use crate::shape::{RectEdit, RoundShape, Shape, ShapeModel};
use crate::transform::{Factor, Matrix, Transform};

verus! {

/// A derivation of a new context from an existing one.
#[derive(Clone, Copy, Debug, PartialEq, Eq, Structural)]
pub enum Derivation {
    /// Apply a factor in the world frame: it multiplies the transform on the left.
    Global(Factor),
    /// Apply a factor in the object's own frame: it multiplies the transform on the right.
    Local(Factor),
    /// Inset the rectangle by a margin.
    Margin(Scalar),
    /// Offset the rectangle relative to its extent.
    Relative(Scalar, Scalar),
    /// Go back to the stored view.
    View,
    /// Go back to the identity.
    Reset,
    /// Make the current transform the stored view.
    StoreView,
}

/// The mathematical value of a rectangle color context.
pub struct ContextModel {
    pub base: Seq<Factor>,
    pub transform: Seq<Factor>,
    pub rect: ShapeModel,
    pub color: Color,
}

impl ContextModel {
    /// The context that a derivation yields; the parent is left as it is.
    pub open spec fn after(self, d: Derivation) -> ContextModel {
        match d {
            Derivation::Global(f) => ContextModel { transform: seq![f] + self.transform, ..self },
            Derivation::Local(f) => ContextModel { transform: self.transform + seq![f], ..self },
            Derivation::Margin(m) => ContextModel {
                rect: ShapeModel { rect: self.rect.rect, edits: self.rect.edits.push(RectEdit::Margin(m)) },
                ..self
            },
            Derivation::Relative(x, y) => ContextModel {
                rect: ShapeModel {
                    rect: self.rect.rect,
                    edits: self.rect.edits.push(RectEdit::Relative(x, y)),
                },
                ..self
            },
            Derivation::View => ContextModel { transform: self.base, ..self },
            Derivation::Reset => ContextModel { transform: Seq::empty(), ..self },
            Derivation::StoreView => ContextModel { base: self.transform, ..self },
        }
    }

    /// The context that a sequence of derivations yields, applied in order.
    pub open spec fn after_all(self, ds: Seq<Derivation>) -> ContextModel
        decreases ds.len(),
    {
        if ds.len() == 0 {
            self
        } else {
            self.after(ds[0]).after_all(ds.drop_first())
        }
    }
}

/// A rectangle color context: a view frame, a current transform, a
/// rectangle and a fill color.
#[derive(Debug)]
pub struct RectangleColorContext {
    /// Base/original transformation.
    pub base: Transform,
    /// Current transformation.
    pub transform: Transform,
    /// Current rectangle.
    pub rect: Shape,
    /// Current color.
    pub color: Color,
}

/// A rounded rectangle color context.
#[derive(Debug)]
pub struct RoundRectangleColorContext {
    /// Base/original transformation.
    pub base: Transform,
    /// Current transformation.
    pub transform: Transform,
    /// Current rounded rectangle.
    pub round_rect: RoundShape,
    /// Current color.
    pub color: Color,
}

impl RectangleColorContext {
    /// The mathematical value of this context.
    pub open spec fn model(&self) -> ContextModel {
        ContextModel {
            base: self.base@,
            transform: self.transform@,
            rect: self.rect@,
            color: self.color,
        }
    }
}

impl RectangleColorContext {
    /// A context for `rect` and `color` whose view frame and transform are
    /// both the identity.
    pub fn new(rect: Shape, color: Color) -> (r: RectangleColorContext)
        ensures
            r.model() == (ContextModel { base: Seq::empty(), transform: Seq::empty(), rect: rect@, color }),
    {
        RectangleColorContext { base: Transform::identity(), transform: Transform::identity(), rect, color }
    }

    /// A context for `rect` and `color` whose view frame and transform are
    /// both the matrix `view`.
    pub fn with_view(view: Matrix, rect: Shape, color: Color) -> (r: RectangleColorContext)
        ensures
            r.model() == (ContextModel {
                base: seq![Factor::Matrix(view)],
                transform: seq![Factor::Matrix(view)],
                rect: rect@,
                color,
            }),
    {
        RectangleColorContext {
            base: Transform::from_matrix(view),
            transform: Transform::from_matrix(view),
            rect,
            color,
        }
    }

    /// This context with the transform replaced by `transform`.
    fn with_transform(&self, transform: Transform) -> (r: RectangleColorContext)
        ensures
            r.model() == (ContextModel { transform: transform@, ..self.model() }),
    {
        RectangleColorContext {
            base: self.base.duplicate(),
            transform,
            rect: self.rect.duplicate(),
            color: self.color,
        }
    }

    /// This context with the factor `f` applied in the world frame.
    fn global(&self, f: Factor) -> (r: RectangleColorContext)
        ensures
            r.model() == self.model().after(Derivation::Global(f)),
    {
        let t = Transform::from_factor(f);
        self.with_transform(t.multiply(&self.transform))
    }

    /// This context with the factor `f` applied in the object's own frame.
    fn local(&self, f: Factor) -> (r: RectangleColorContext)
        ensures
            r.model() == self.model().after(Derivation::Local(f)),
    {
        let t = Transform::from_factor(f);
        self.with_transform(self.transform.multiply(&t))
    }

    /// Translates in the world frame: `transform' = Translate(x, y) * transform`.
    pub fn trans(&self, x: Scalar, y: Scalar) -> (r: RectangleColorContext)
        ensures
            r.model() == self.model().after(Derivation::Global(Factor::Translate(x, y))),
            r.model().transform == seq![Factor::Translate(x, y)] + self.model().transform,
    {
        self.global(Factor::Translate(x, y))
    }

    /// Translates in the object's frame: `transform' = transform * Translate(x, y)`.
    pub fn trans_local(&self, x: Scalar, y: Scalar) -> (r: RectangleColorContext)
        ensures
            r.model() == self.model().after(Derivation::Local(Factor::Translate(x, y))),
            r.model().transform == self.model().transform + seq![Factor::Translate(x, y)],
    {
        self.local(Factor::Translate(x, y))
    }

    /// Rotates by `angle` radians in the world frame.
    pub fn rot_rad(&self, angle: Scalar) -> (r: RectangleColorContext)
        ensures
            r.model() == self.model().after(Derivation::Global(Factor::Rotate(angle))),
            r.model().transform == seq![Factor::Rotate(angle)] + self.model().transform,
    {
        self.global(Factor::Rotate(angle))
    }

    /// Rotates by `angle` radians in the object's frame.
    pub fn rot_rad_local(&self, angle: Scalar) -> (r: RectangleColorContext)
        ensures
            r.model() == self.model().after(Derivation::Local(Factor::Rotate(angle))),
            r.model().transform == self.model().transform + seq![Factor::Rotate(angle)],
    {
        self.local(Factor::Rotate(angle))
    }

    /// Scales by `(sx, sy)` in the world frame.
    pub fn scale(&self, sx: Scalar, sy: Scalar) -> (r: RectangleColorContext)
        ensures
            r.model() == self.model().after(Derivation::Global(Factor::Scale(sx, sy))),
            r.model().transform == seq![Factor::Scale(sx, sy)] + self.model().transform,
    {
        self.global(Factor::Scale(sx, sy))
    }

    /// Scales by `(sx, sy)` in the object's frame.
    pub fn scale_local(&self, sx: Scalar, sy: Scalar) -> (r: RectangleColorContext)
        ensures
            r.model() == self.model().after(Derivation::Local(Factor::Scale(sx, sy))),
            r.model().transform == self.model().transform + seq![Factor::Scale(sx, sy)],
    {
        self.local(Factor::Scale(sx, sy))
    }

    /// Shears by `(sx, sy)` in the world frame.
    pub fn shear(&self, sx: Scalar, sy: Scalar) -> (r: RectangleColorContext)
        ensures
            r.model() == self.model().after(Derivation::Global(Factor::Shear(sx, sy))),
            r.model().transform == seq![Factor::Shear(sx, sy)] + self.model().transform,
    {
        self.global(Factor::Shear(sx, sy))
    }

    /// Shears by `(sx, sy)` in the object's frame.
    pub fn shear_local(&self, sx: Scalar, sy: Scalar) -> (r: RectangleColorContext)
        ensures
            r.model() == self.model().after(Derivation::Local(Factor::Shear(sx, sy))),
            r.model().transform == self.model().transform + seq![Factor::Shear(sx, sy)],
    {
        self.local(Factor::Shear(sx, sy))
    }

    /// Insets the rectangle by `m` on all sides; the rest is kept.
    pub fn margin(&self, m: Scalar) -> (r: RectangleColorContext)
        ensures
            r.model() == self.model().after(Derivation::Margin(m)),
    {
        RectangleColorContext {
            base: self.base.duplicate(),
            transform: self.transform.duplicate(),
            rect: self.rect.with_edit(RectEdit::Margin(m)),
            color: self.color,
        }
    }

    /// Offsets the rectangle by `(x, y)` in units of its extent; the rest is kept.
    pub fn rel(&self, x: Scalar, y: Scalar) -> (r: RectangleColorContext)
        ensures
            r.model() == self.model().after(Derivation::Relative(x, y)),
    {
        RectangleColorContext {
            base: self.base.duplicate(),
            transform: self.transform.duplicate(),
            rect: self.rect.with_edit(RectEdit::Relative(x, y)),
            color: self.color,
        }
    }

    /// A rounded rectangle context with the same frames, color and
    /// rectangle, and corner radius `radius`.
    pub fn round(&self, radius: Scalar) -> (r: RoundRectangleColorContext)
        ensures
            r.base@ == self.model().base,
            r.transform@ == self.model().transform,
            r.round_rect.shape@ == self.model().rect,
            r.round_rect.radius == radius,
            r.color == self.model().color,
    {
        RoundRectangleColorContext {
            base: self.base.duplicate(),
            transform: self.transform.duplicate(),
            round_rect: RoundShape { shape: self.rect.duplicate(), radius },
            color: self.color,
        }
    }

    /// Restores the transform to the stored view frame.
    pub fn view(&self) -> (r: RectangleColorContext)
        ensures
            r.model() == self.model().after(Derivation::View),
            r.model().transform == self.model().base,
    {
        self.with_transform(self.base.duplicate())
    }

    /// Restores the transform to the identity, whatever the view frame.
    pub fn reset(&self) -> (r: RectangleColorContext)
        ensures
            r.model() == self.model().after(Derivation::Reset),
            r.model().transform == Seq::<Factor>::empty(),
    {
        self.with_transform(Transform::identity())
    }

    /// Makes the current transform the stored view frame.
    pub fn store_view(&self) -> (r: RectangleColorContext)
        ensures
            r.model() == self.model().after(Derivation::StoreView),
            r.model().base == self.model().transform,
    {
        RectangleColorContext {
            base: self.transform.duplicate(),
            transform: self.transform.duplicate(),
            rect: self.rect.duplicate(),
            color: self.color,
        }
    }
}

} // verus!
