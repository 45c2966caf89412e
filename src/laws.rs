use vstd::prelude::*;

use crate::context::{ContextModel, Derivation};
use crate::scalar::Scalar;
use crate::transform::Factor;

verus! {

/// Local operations compose in the object's own frame and global ones in the
/// world frame: rotating then translating locally appends the rotation and
/// then the translation on the right, while the global variant puts them on
/// the left in the reverse order. From the identity the two differ.
pub proof fn lemma_local_and_global_order(c: ContextModel, angle: Scalar, x: Scalar, y: Scalar)
    ensures
        c.after(Derivation::Local(Factor::Rotate(angle))).after(
            Derivation::Local(Factor::Translate(x, y)),
        ).transform == c.transform + seq![Factor::Rotate(angle), Factor::Translate(x, y)],
        c.after(Derivation::Global(Factor::Rotate(angle))).after(
            Derivation::Global(Factor::Translate(x, y)),
        ).transform == seq![Factor::Translate(x, y), Factor::Rotate(angle)] + c.transform,
        c.transform.len() == 0 ==> c.after(Derivation::Local(Factor::Rotate(angle))).after(
            Derivation::Local(Factor::Translate(x, y)),
        ).transform != c.after(Derivation::Global(Factor::Rotate(angle))).after(
            Derivation::Global(Factor::Translate(x, y)),
        ).transform,
{
    let r = Factor::Rotate(angle);
    let t = Factor::Translate(x, y);
    assert(c.transform + seq![r] + seq![t] =~= c.transform + seq![r, t]);
    assert(seq![t] + (seq![r] + c.transform) =~= seq![t, r] + c.transform);
    if c.transform.len() == 0 {
        assert((c.transform + seq![r, t])[0] == r);
        assert((seq![t, r] + c.transform)[0] == t);
    }
}

/// Two local rotations accumulate in the object's frame, in the order given.
pub proof fn lemma_local_rotations_accumulate(c: ContextModel, a: Scalar, b: Scalar)
    ensures
        c.after(Derivation::Local(Factor::Rotate(a))).after(
            Derivation::Local(Factor::Rotate(b)),
        ).transform == c.transform + seq![Factor::Rotate(a), Factor::Rotate(b)],
{
    assert(c.transform + seq![Factor::Rotate(a)] + seq![Factor::Rotate(b)] =~= c.transform + seq![
        Factor::Rotate(a),
        Factor::Rotate(b),
    ]);
}

/// Only `store_view` changes the view frame.
pub proof fn lemma_base_kept_without_store(c: ContextModel, ds: Seq<Derivation>)
    requires
        forall|i: int| 0 <= i < ds.len() ==> ds[i] != Derivation::StoreView,
    ensures
        c.after_all(ds).base == c.base,
    decreases ds.len(),
{
    if ds.len() > 0 {
        let rest = ds.drop_first();
        assert forall|i: int| 0 <= i < rest.len() implies rest[i] != Derivation::StoreView by {
            assert(rest[i] == ds[i + 1]);
        }
        lemma_base_kept_without_store(c.after(ds[0]), rest);
    }
}

/// `view` after `store_view` restores the transform current at the time of
/// `store_view`, whatever other derivations came in between, as long as none
/// of them is a second `store_view`.
pub proof fn lemma_view_restores_stored(c: ContextModel, ds: Seq<Derivation>)
    requires
        forall|i: int| 0 <= i < ds.len() ==> ds[i] != Derivation::StoreView,
    ensures
        c.after(Derivation::StoreView).after_all(ds).after(Derivation::View).transform
            == c.transform,
{
    lemma_base_kept_without_store(c.after(Derivation::StoreView), ds);
}

/// `reset` yields the identity transform, whatever the view frame and the
/// transform were before.
pub proof fn lemma_reset_is_identity(c: ContextModel)
    ensures
        c.after(Derivation::Reset).transform == Seq::<Factor>::empty(),
{
}

/// A derivation changes only the part of the context that it is about; every
/// other part of the new context equals the parent's, and the color is
/// never changed.
pub proof fn lemma_derivation_keeps_untouched(c: ContextModel, d: Derivation)
    ensures
        c.after(d).color == c.color,
        !(d is StoreView) ==> c.after(d).base == c.base,
        !(d is Margin || d is Relative) ==> c.after(d).rect == c.rect,
        (d is Margin || d is Relative || d is StoreView) ==> c.after(d).transform == c.transform,
{
}

} // verus!
