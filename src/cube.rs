use vstd::prelude::*;

verus! {

/// The number of corners of the cube mesh.
pub const CUBE_VERTEX_COUNT: u16 = 8;

/// The triangles of the cube, three corner numbers each, two per face.
pub open spec fn cube_index_list() -> Seq<u16> {
    seq![
        0, 1, 2, 0, 2, 3,
        0, 4, 1, 1, 4, 5,
        1, 5, 2, 2, 5, 6,
        2, 6, 7, 2, 7, 3,
        3, 4, 0, 3, 7, 4,
        6, 5, 4, 4, 7, 6,
    ]
}

/// The index buffer of the cube mesh: twelve triangles, each naming corners
/// of the mesh only.
pub fn cube_indices() -> (r: Vec<u16>)
    ensures
        r@ == cube_index_list(),
        r@.len() == 36,
        forall|i: int| 0 <= i < r@.len() ==> #[trigger] r@[i] < CUBE_VERTEX_COUNT,
{
    let r: Vec<u16> = vec![
        0, 1, 2, 0, 2, 3,
        0, 4, 1, 1, 4, 5,
        1, 5, 2, 2, 5, 6,
        2, 6, 7, 2, 7, 3,
        3, 4, 0, 3, 7, 4,
        6, 5, 4, 4, 7, 6,
    ];
    assert(r@ =~= cube_index_list());
    r
}

} // verus!
