use vstd::prelude::*;
use crate::geometry::{QuadVertex, quad_vertices_spec};
use crate::transform::{Mat4Fx, Vec3Fx, ONE, scale_translation_matrix};

verus! {

/// The homogeneous position the vertex stage multiplies by the model
/// matrix: the vertex's position with its y negated, and w = 1. The
/// negation reconciles the texture's top-left origin with clip space's
/// bottom-left origin.
pub open spec fn vertex_stage_input(v: QuadVertex) -> Seq<int> {
    seq![v.x as int, -(v.y as int), v.z as int, 1]
}

/// Row `row` of `m` times the vertex stage's input for `v`. The model
/// matrix holds fixed-point values, so the result is the clip coordinate
/// times [`ONE`].
pub open spec fn clip_coordinate(m: Mat4Fx, v: QuadVertex, row: int) -> int {
    let p = vertex_stage_input(v);
    m.entry(row, 0) * p[0] + m.entry(row, 1) * p[1] + m.entry(row, 2) * p[2] + m.entry(row, 3)
        * p[3]
}

/// The model matrix that leaves positions unchanged: unit scale, identity
/// rotation, no translation.
pub open spec fn identity_model() -> Mat4Fx {
    scale_translation_matrix(Vec3Fx { x: ONE, y: ONE, z: ONE }, Vec3Fx { x: 0, y: 0, z: 0 })
}

/// The quad corner whose texture coordinate is (0,0) has y = -1; the vertex
/// stage turns that into +1, so under the identity model matrix it lands at
/// vertical clip position +1, the magnitude of its input y.
pub proof fn lemma_y_flip()
    ensures
        forall|i: int|
            #![trigger quad_vertices_spec()[i]]
            0 <= i < 4 && quad_vertices_spec()[i].u == 0 && quad_vertices_spec()[i].v == 0 ==> {
                let v = quad_vertices_spec()[i];
                &&& v.y == -1
                &&& vertex_stage_input(v)[1] == 1
                &&& clip_coordinate(identity_model(), v, 1) == ONE * 1
                &&& clip_coordinate(identity_model(), v, 0) == ONE * v.x
            },
{
    assert forall|i: int|
        #![trigger quad_vertices_spec()[i]]
        0 <= i < 4 && quad_vertices_spec()[i].u == 0 && quad_vertices_spec()[i].v == 0 implies {
        let v = quad_vertices_spec()[i];
        &&& v.y == -1
        &&& vertex_stage_input(v)[1] == 1
        &&& clip_coordinate(identity_model(), v, 1) == ONE * 1
        &&& clip_coordinate(identity_model(), v, 0) == ONE * v.x
    } by {
        assert(i == 0);
    }
}

} // verus!
