//! The static quad: four corners, split into two counter-clockwise triangles.
use vstd::prelude::*;

verus! {

/// Corners of the quad, in the order the vertex buffer lists them.
pub const QUAD_VERTEX_COUNT: u16 = 4;

/// The quad's triangulation: (0, 1, 2) and (2, 3, 0).
pub open spec fn quad_index_seq() -> Seq<u16> {
    seq![0u16, 1u16, 2u16, 2u16, 3u16, 0u16]
}

/// The index buffer of the quad.
pub fn quad_indices() -> (r: Vec<u16>)
    ensures
        r@ == quad_index_seq(),
        forall|i: int| 0 <= i < r@.len() ==> #[trigger] r@[i] < QUAD_VERTEX_COUNT,
{
    let r = vec![0u16, 1u16, 2u16, 2u16, 3u16, 0u16];
    assert(r@ =~= quad_index_seq());
    r
}

} // verus!
