use vstd::prelude::*;

use crate::scalar::Scalar;

verus! {

/// A 2x3 affine matrix given row by row: `[[xx, xy, x0], [yx, yy, y0]]`.
#[derive(Clone, Copy, Debug, PartialEq, Eq, Structural)]
pub struct Matrix {
    pub xx: Scalar,
    pub xy: Scalar,
    pub x0: Scalar,
    pub yx: Scalar,
    pub yy: Scalar,
    pub y0: Scalar,
}

/// One elementary factor of an affine transform.
#[derive(Clone, Copy, Debug, PartialEq, Eq, Structural)]
pub enum Factor {
    /// An arbitrary matrix, such as an initial view handed in by the caller.
    Matrix(Matrix),
    /// Translation by `(dx, dy)`.
    Translate(Scalar, Scalar),
    /// Rotation by an angle in radians.
    Rotate(Scalar),
    /// Scaling by `(sx, sy)`.
    Scale(Scalar, Scalar),
    /// Shearing by `(sx, sy)`.
    Shear(Scalar, Scalar),
}

/// An affine transform, kept as the product of its factors from left to
/// right. The empty product is the identity; composing two transforms
/// concatenates their factors, so the order of composition is exact and
/// observable. Evaluating the product to a numeric matrix is left to the
/// caller's matrix arithmetic.
#[derive(Debug)]
pub struct Transform {
    pub factors: Vec<Factor>,
}

impl View for Transform {
    type V = Seq<Factor>;

    open spec fn view(&self) -> Seq<Factor> {
        self.factors@
    }
}

/// Appends the factors of `a` to `out`.
fn push_all(out: &mut Vec<Factor>, a: &Vec<Factor>)
    ensures
        final(out)@ == old(out)@ + a@,
{
    let mut i: usize = 0;
    while i < a.len()
        invariant
            i <= a@.len(),
            out@ == old(out)@ + a@.subrange(0, i as int),
        decreases a@.len() - i,
    {
        out.push(a[i]);
        i = i + 1;
        assert(a@.subrange(0, i as int) == a@.subrange(0, i - 1 as int).push(a@[i - 1]));
    }
    assert(a@.subrange(0, a@.len() as int) == a@);
}

impl Transform {
    /// The identity transform: the empty product.
    pub fn identity() -> (r: Transform)
        ensures
            r@ == Seq::<Factor>::empty(),
    {
        Transform { factors: Vec::new() }
    }

    /// The transform made of the single factor `f`.
    pub fn from_factor(f: Factor) -> (r: Transform)
        ensures
            r@ == seq![f],
    {
        let mut factors: Vec<Factor> = Vec::new();
        factors.push(f);
        Transform { factors }
    }

    /// The transform equal to the matrix `m`.
    pub fn from_matrix(m: Matrix) -> (r: Transform)
        ensures
            r@ == seq![Factor::Matrix(m)],
    {
        Transform::from_factor(Factor::Matrix(m))
    }

    /// A copy of this transform.
    pub fn duplicate(&self) -> (r: Transform)
        ensures
            r@ == self@,
    {
        let mut factors: Vec<Factor> = Vec::new();
        push_all(&mut factors, &self.factors);
        Transform { factors }
    }

    /// The product `self * other`: `other` is applied first, then `self`.
    pub fn multiply(&self, other: &Transform) -> (r: Transform)
        ensures
            r@ == self@ + other@,
    {
        let mut factors: Vec<Factor> = Vec::new();
        push_all(&mut factors, &self.factors);
        push_all(&mut factors, &other.factors);
        Transform { factors }
    }
}

} // verus!
