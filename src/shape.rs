use vstd::prelude::*;

use crate::scalar::Scalar;

verus! {

/// An axis-aligned rectangle `(x, y, width, height)`; a negative extent is a
/// flipped one, not an error.
#[derive(Clone, Copy, Debug, PartialEq, Eq, Structural)]
pub struct Rectangle {
    pub x: Scalar,
    pub y: Scalar,
    pub w: Scalar,
    pub h: Scalar,
}

/// An adjustment of a rectangle, computed by the rectangle helpers when the
/// shape is drawn.
#[derive(Clone, Copy, Debug, PartialEq, Eq, Structural)]
pub enum RectEdit {
    /// Inset (or grow, for a negative value) by a margin on all sides.
    Margin(Scalar),
    /// Offset by `(dx, dy)` in units of the rectangle's own extent.
    Relative(Scalar, Scalar),
}

/// A rectangle together with the adjustments applied to it, in order.
#[derive(Debug)]
pub struct Shape {
    pub rect: Rectangle,
    pub edits: Vec<RectEdit>,
}

/// A rounded rectangle: a shape extended by a corner radius.
#[derive(Debug)]
pub struct RoundShape {
    pub shape: Shape,
    pub radius: Scalar,
}

/// The mathematical value of a shape.
pub struct ShapeModel {
    pub rect: Rectangle,
    pub edits: Seq<RectEdit>,
}

impl View for Shape {
    type V = ShapeModel;

    open spec fn view(&self) -> ShapeModel {
        ShapeModel { rect: self.rect, edits: self.edits@ }
    }
}

/// Appends the edits of `a` to `out`.
fn push_all(out: &mut Vec<RectEdit>, a: &Vec<RectEdit>)
    ensures
        final(out)@ == old(out)@ + a@,
{
    let mut i: usize = 0;
    while i < a.len()
        invariant
            i <= a@.len(),
            out@ == old(out)@ + a@.subrange(0, i as int),
        decreases a@.len() - i,
    {
        out.push(a[i]);
        i = i + 1;
        assert(a@.subrange(0, i as int) == a@.subrange(0, i - 1 as int).push(a@[i - 1]));
    }
    assert(a@.subrange(0, a@.len() as int) == a@);
}

impl Shape {
    /// The plain rectangle `rect`, with no adjustment.
    pub fn new(rect: Rectangle) -> (r: Shape)
        ensures
            r@ == (ShapeModel { rect, edits: Seq::<RectEdit>::empty() }),
    {
        Shape { rect, edits: Vec::new() }
    }

    /// A copy of this shape.
    pub fn duplicate(&self) -> (r: Shape)
        ensures
            r@ == self@,
    {
        let mut edits: Vec<RectEdit> = Vec::new();
        push_all(&mut edits, &self.edits);
        Shape { rect: self.rect, edits }
    }

    /// This shape followed by one more adjustment.
    pub fn with_edit(&self, e: RectEdit) -> (r: Shape)
        ensures
            r@ == (ShapeModel { rect: self@.rect, edits: self@.edits.push(e) }),
    {
        let mut edits: Vec<RectEdit> = Vec::new();
        push_all(&mut edits, &self.edits);
        edits.push(e);
        Shape { rect: self.rect, edits }
    }
}

} // verus!
