use vstd::prelude::*;

verus! {

/// One corner of the textured quad: a position in model space and the
/// texture coordinate that is sampled there.
#[derive(Clone, Copy, Debug, PartialEq, Eq, Structural)]
pub struct QuadVertex {
    pub x: i8,
    pub y: i8,
    pub z: i8,
    pub u: u8,
    pub v: u8,
}

/// Number of vertices in the quad's vertex buffer.
pub const QUAD_VERTEX_COUNT: usize = 4;

/// Number of indices in the quad's index buffer (two triangles).
pub const QUAD_INDEX_COUNT: u32 = 6;

/// Number of components stored per vertex: three for the position, two for
/// the texture coordinate.
pub const VERTEX_STRIDE: usize = 5;

/// A corner in the z = 0 plane with the given position and texture
/// coordinate.
pub open spec fn corner(x: i8, y: i8, u: u8, v: u8) -> QuadVertex {
    QuadVertex { x, y, z: 0, u, v }
}

/// The quad's corners, in vertex-buffer order.
pub open spec fn quad_vertices_spec() -> Seq<QuadVertex> {
    seq![corner(-1i8, -1i8, 0, 0), corner(-1i8, 1, 0, 1), corner(1, 1, 1, 1), corner(1, -1i8, 1, 0)]
}

/// The quad's triangle list: two triangles sharing the diagonal from
/// vertex 0 to vertex 2.
pub open spec fn quad_indices_spec() -> Seq<u32> {
    seq![0u32, 1, 2, 2, 3, 0]
}

/// Component `k` of vertex `v` in the interleaved layout
/// (x, y, z, u, v).
pub open spec fn vertex_component(v: QuadVertex, k: int) -> i8 {
    if k == 0 {
        v.x
    } else if k == 1 {
        v.y
    } else if k == 2 {
        v.z
    } else if k == 3 {
        v.u as i8
    } else {
        v.v as i8
    }
}

/// Vertices of the quad's vertex buffer.
pub fn quad_vertices() -> (r: Vec<QuadVertex>)
    ensures
        r@ == quad_vertices_spec(),
{
    let r: Vec<QuadVertex> = vec![
        QuadVertex { x: -1, y: -1, z: 0, u: 0, v: 0 },
        QuadVertex { x: -1, y: 1, z: 0, u: 0, v: 1 },
        QuadVertex { x: 1, y: 1, z: 0, u: 1, v: 1 },
        QuadVertex { x: 1, y: -1, z: 0, u: 1, v: 0 },
    ];
    assert(r@ =~= quad_vertices_spec());
    r
}

/// Indices of the quad's index buffer.
pub fn quad_indices() -> (r: Vec<u32>)
    ensures
        r@ == quad_indices_spec(),
{
    let r: Vec<u32> = vec![0, 1, 2, 2, 3, 0];
    assert(r@ =~= quad_indices_spec());
    r
}

/// The quad's vertex buffer contents, interleaved as
/// (x, y, z, u, v) for each vertex in order.
pub fn vertex_data() -> (r: Vec<i8>)
    ensures
        r@.len() == QUAD_VERTEX_COUNT * VERTEX_STRIDE,
        forall|i: int, k: int|
            0 <= i < QUAD_VERTEX_COUNT && 0 <= k < VERTEX_STRIDE ==> #[trigger] r@[i
                * VERTEX_STRIDE + k] == vertex_component(quad_vertices_spec()[i], k),
{
    let vertices = quad_vertices();
    let mut r: Vec<i8> = Vec::new();
    let mut i: usize = 0;
    while i < vertices.len()
        invariant
            vertices@ == quad_vertices_spec(),
            i <= vertices@.len(),
            r@.len() == i * VERTEX_STRIDE,
            forall|j: int, k: int|
                0 <= j < i && 0 <= k < VERTEX_STRIDE ==> #[trigger] r@[j * VERTEX_STRIDE + k]
                    == vertex_component(vertices@[j], k),
        decreases vertices@.len() - i,
    {
        let v = vertices[i];
        r.push(v.x);
        r.push(v.y);
        r.push(v.z);
        r.push(v.u as i8);
        r.push(v.v as i8);
        assert forall|j: int, k: int|
            0 <= j < i + 1 && 0 <= k < VERTEX_STRIDE implies #[trigger] r@[j * VERTEX_STRIDE + k]
            == vertex_component(vertices@[j], k) by {
            if j == i {
                assert(j * VERTEX_STRIDE + k == i * 5 + k);
            } else {
                assert(j * VERTEX_STRIDE + k < i * 5) by (nonlinear_arith)
                    requires
                        j < i,
                        0 <= k < 5,
                ;
            }
        }
        i = i + 1;
    }
    r
}

/// Twice the signed area of the triangle through three quad vertices.
pub open spec fn doubled_signed_area(a: QuadVertex, b: QuadVertex, c: QuadVertex) -> int {
    (b.x - a.x) * (c.y - a.y) - (b.y - a.y) * (c.x - a.x)
}

/// Some vertex of the quad lies at (`x`, `y`).
pub open spec fn has_corner(x: int, y: int) -> bool {
    exists|i: int| 0 <= i < 4 && #[trigger] quad_vertices_spec()[i].x == x && quad_vertices_spec()[i].y == y
}

/// Vertex of the quad that index `k` of the index buffer points at.
pub open spec fn indexed_vertex(k: int) -> QuadVertex {
    quad_vertices_spec()[quad_indices_spec()[k] as int]
}

/// The quad geometry is four corners of the square [-1,1]x[-1,1], each
/// textured with the matching corner of the unit texture square, and six
/// indices that form two non-degenerate triangles. The triangles share the
/// diagonal from vertex 0 to vertex 2, lie on opposite sides of it, and each
/// covers half of the square, so together they cover it exactly once.
pub proof fn lemma_quad_geometry()
    ensures
        quad_vertices_spec().len() == QUAD_VERTEX_COUNT,
        quad_indices_spec().len() == 2 * 3,
        forall|k: int| 0 <= k < 6 ==> quad_indices_spec()[k] < QUAD_VERTEX_COUNT,
        forall|i: int|
            #![trigger quad_vertices_spec()[i]]
            0 <= i < 4 ==> {
                let v = quad_vertices_spec()[i];
                &&& v.x == -1 || v.x == 1
                &&& v.y == -1 || v.y == 1
                &&& v.z == 0
                &&& 2 * v.u == v.x + 1
                &&& 2 * v.v == v.y + 1
            },
        has_corner(-1, -1) && has_corner(-1, 1) && has_corner(1, 1) && has_corner(1, -1),
        quad_indices_spec()[0] == quad_indices_spec()[5],
        quad_indices_spec()[2] == quad_indices_spec()[3],
        doubled_signed_area(indexed_vertex(0), indexed_vertex(1), indexed_vertex(2)) == -4,
        doubled_signed_area(indexed_vertex(3), indexed_vertex(4), indexed_vertex(5)) == -4,
        doubled_signed_area(indexed_vertex(0), indexed_vertex(2), indexed_vertex(1)) * doubled_signed_area(
            indexed_vertex(0),
            indexed_vertex(2),
            indexed_vertex(4),
        ) < 0,
{
    let q = quad_vertices_spec();
    assert(q[0].x == -1 && q[0].y == -1);
    assert(q[1].x == -1 && q[1].y == 1);
    assert(q[2].x == 1 && q[2].y == 1);
    assert(q[3].x == 1 && q[3].y == -1);
}

} // verus!
