use vstd::prelude::*;

use crate::context::{ContextModel, RectangleColorContext};
use crate::scalar::Color;
use crate::shape::Shape;
use crate::transform::Transform;

verus! {

/// A corner of a rectangle `(x, y, w, h)`.
#[derive(Clone, Copy, Debug, PartialEq, Eq, Structural)]
pub enum Corner {
    /// `(x, y)`
    TopLeft,
    /// `(x + w, y)`
    TopRight,
    /// `(x, y + h)`
    BottomLeft,
    /// `(x + w, y + h)`
    BottomRight,
}

/// Number of vertices in the triangle list of a rectangle.
pub const RECT_VERTICES: usize = 6;

/// The fixed vertex order of a rectangle's triangle list: the triangles
/// (top-left, top-right, bottom-left) and (top-right, bottom-right,
/// bottom-left), split along the top-right to bottom-left diagonal.
pub open spec fn corner_order() -> Seq<Corner> {
    seq![
        Corner::TopLeft,
        Corner::TopRight,
        Corner::BottomLeft,
        Corner::TopRight,
        Corner::BottomRight,
        Corner::BottomLeft,
    ]
}

/// The corners of a rectangle's triangle list, in `corner_order`.
pub fn rect_corners() -> (r: Vec<Corner>)
    ensures
        r@ == corner_order(),
{
    let r = vec![
        Corner::TopLeft,
        Corner::TopRight,
        Corner::BottomLeft,
        Corner::TopRight,
        Corner::BottomRight,
        Corner::BottomLeft,
    ];
    assert(r@ == corner_order());
    r
}

/// `color` once for each vertex of a rectangle's triangle list.
pub fn vertex_colors(color: Color) -> (r: Vec<Color>)
    ensures
        r@ == Seq::new(RECT_VERTICES as nat, |_i: int| color),
{
    let mut r: Vec<Color> = Vec::new();
    let mut i: usize = 0;
    while i < RECT_VERTICES
        invariant
            i <= RECT_VERTICES,
            r@ == Seq::new(i as nat, |_i: int| color),
        decreases RECT_VERTICES - i,
    {
        r.push(color);
        i = i + 1;
        assert(r@ =~= Seq::new(i as nat, |_i: int| color));
    }
    r
}

/// One draw call: the rectangle `rect`, mapped through `transform`, as the
/// triangle list given by `corners`, with one color per vertex.
#[derive(Debug)]
pub struct Batch {
    pub transform: Transform,
    pub rect: Shape,
    pub corners: Vec<Corner>,
    pub colors: Vec<Color>,
}

/// A request to a rendering back end.
#[derive(Debug)]
pub enum Command {
    /// Turn alpha blending on.
    EnableBlend,
    /// Turn alpha blending off.
    DisableBlend,
    /// Draw a triangle list with per-vertex colors.
    Triangles(Batch),
    /// Clear the target to a color.
    Clear(Color),
}

/// Why a back end cannot carry out a request.
#[derive(Clone, Copy, Debug, PartialEq, Eq, Structural)]
pub enum RenderError {
    /// The back end does not support the mode that the request needs.
    CapabilityMismatch,
}

/// The command draws the rectangle of context `c` in its color.
pub open spec fn draws(cmd: Command, c: ContextModel) -> bool {
    match cmd {
        Command::Triangles(b) => {
            &&& b.transform@ == c.transform
            &&& b.rect@ == c.rect
            &&& b.corners@ == corner_order()
            &&& b.colors@ == Seq::new(RECT_VERTICES as nat, |_i: int| c.color)
        },
        _ => false,
    }
}

impl RectangleColorContext {
    /// The requests that fill this context's rectangle with its color, on a
    /// back end that supports colored triangle lists exactly when
    /// `supports_tri_list` holds.
    ///
    /// A fully transparent color needs no request. A color that is not
    /// fully opaque is drawn with blending turned on just for this draw.
    pub fn fill(&self, supports_tri_list: bool) -> (r: Result<Vec<Command>, RenderError>)
        ensures
            !supports_tri_list <==> r is Err,
            r is Err ==> r->Err_0 == RenderError::CapabilityMismatch,
            r is Ok && self.model().color.a.spec_is_zero() ==> r->Ok_0@.len() == 0,
            r is Ok && !self.model().color.a.spec_is_zero() && self.model().color.a.spec_is_one() ==> {
                &&& r->Ok_0@.len() == 1
                &&& draws(r->Ok_0@[0], self.model())
            },
            r is Ok && !self.model().color.a.spec_is_zero() && !self.model().color.a.spec_is_one() ==> {
                &&& r->Ok_0@.len() == 3
                &&& r->Ok_0@[0] is EnableBlend
                &&& draws(r->Ok_0@[1], self.model())
                &&& r->Ok_0@[2] is DisableBlend
            },
    {
        if !supports_tri_list {
            return Err(RenderError::CapabilityMismatch);
        }
        let mut cmds: Vec<Command> = Vec::new();
        let alpha = self.color.a;
        if alpha.is_zero() {
            return Ok(cmds);
        }
        let needs_blend = !alpha.is_one();
        if needs_blend {
            cmds.push(Command::EnableBlend);
        }
        let batch = Batch {
            transform: self.transform.duplicate(),
            rect: self.rect.duplicate(),
            corners: rect_corners(),
            colors: vertex_colors(self.color),
        };
        cmds.push(Command::Triangles(batch));
        if needs_blend {
            cmds.push(Command::DisableBlend);
        }
        Ok(cmds)
    }

    /// The request that clears the target to this context's color, on a back
    /// end that supports clearing exactly when `supports_clear` holds.
    pub fn clear(&self, supports_clear: bool) -> (r: Result<Command, RenderError>)
        ensures
            supports_clear ==> r == Ok::<Command, RenderError>(Command::Clear(self.model().color)),
            !supports_clear ==> r == Err::<Command, RenderError>(RenderError::CapabilityMismatch),
    {
        if supports_clear {
            Ok(Command::Clear(self.color))
        } else {
            Err(RenderError::CapabilityMismatch)
        }
    }
}

} // verus!
