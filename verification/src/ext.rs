//! Extensions to `glam`.

use crate::lanes::IntLanes;
use crate::vec::GVec;
use vstd::prelude::*;

verus! {

/// Generalization of the `select()` function of the vectors: it takes lane `i`
/// of the result from lane `i` of the vector that `indices[i]` chooses among
/// `vecs`.
///
/// `indices` must hold an index for each lane, and each of them must lie in
/// `vecs`.
pub fn select<V: GVec>(vecs: &[V], indices: &[usize]) -> (r: V)
    requires
        indices@.len() >= V::dim(),
        forall|i: int| 0 <= i < V::dim() ==> #[trigger] indices@[i] < vecs@.len(),
    ensures
        r.lanes() =~= Seq::new(V::dim(), |i: int| vecs@[indices@[i] as int].lanes()[i]),
{
    proof {
        V::dim_is_const();
    }
    let mut picked: Vec<V::Scalar> = Vec::new();
    let mut i: usize = 0;
    while i < V::DIM
        invariant
            V::DIM == V::dim(),
            i <= V::DIM,
            indices@.len() >= V::dim(),
            forall|k: int| 0 <= k < V::dim() ==> #[trigger] indices@[k] < vecs@.len(),
            picked@.len() == i,
            forall|k: int|
                0 <= k < i ==> V::val(#[trigger] picked@[k])
                    == vecs@[indices@[k] as int].lanes()[k],
        decreases V::DIM - i,
    {
        let chosen: usize = indices[i];
        let lane = vecs[chosen].lane(i);
        picked.push(lane);
        i += 1;
    }
    V::from_slice(picked.as_slice())
}

} // verus!
