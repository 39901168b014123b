//! The mesh that the shader is drawn on: one quad that fills the screen.

use vstd::prelude::*;

verus! {

/// A corner of the mesh. Coordinates and colour channels are whole numbers;
/// the screen spans -1 to 1 in both directions.
#[derive(Clone, Copy, Debug, PartialEq, Eq, Structural)]
pub struct QuadVertex {
    pub x: i8,
    pub y: i8,
    pub z: i8,
    pub red: u8,
    pub green: u8,
    pub blue: u8,
}

/// A white corner in the plane of the screen.
pub open spec fn corner(x: int, y: int) -> QuadVertex {
    QuadVertex { x: x as i8, y: y as i8, z: 0, red: 1, green: 1, blue: 1 }
}

/// The four corners of the screen.
pub open spec fn quad_vertices() -> Seq<QuadVertex> {
    seq![corner(-1, -1), corner(-1, 1), corner(1, -1), corner(1, 1)]
}

/// The two triangles of the quad, three indices each.
pub open spec fn quad_indices() -> Seq<u16> {
    seq![2, 1, 0, 3, 1, 2]
}

/// Twice the area of the triangle `a`, `b`, `c` in the plane of the screen:
/// positive where the corners run counter-clockwise.
pub open spec fn doubled_area(a: QuadVertex, b: QuadVertex, c: QuadVertex) -> int {
    (b.x - a.x) * (c.y - a.y) - (c.x - a.x) * (b.y - a.y)
}

/// Twice the area of the `t`-th triangle that `indices` picks from
/// `vertices`.
pub open spec fn triangle_area(vertices: Seq<QuadVertex>, indices: Seq<u16>, t: int) -> int {
    doubled_area(
        vertices[indices[3 * t] as int],
        vertices[indices[3 * t + 1] as int],
        vertices[indices[3 * t + 2] as int],
    )
}

fn white(x: i8, y: i8) -> (v: QuadVertex)
    ensures
        v == corner(x as int, y as int),
{
    QuadVertex { x, y, z: 0, red: 1, green: 1, blue: 1 }
}

/// The vertices and the triangle indices of the quad.
pub fn fullscreen_quad() -> (mesh: (Vec<QuadVertex>, Vec<u16>))
    ensures
        mesh.0@ == quad_vertices(),
        mesh.1@ == quad_indices(),
{
    let vertices = vec![white(-1, -1), white(-1, 1), white(1, -1), white(1, 1)];
    let indices: Vec<u16> = vec![2, 1, 0, 3, 1, 2];
    assert(vertices@ =~= quad_vertices());
    assert(indices@ =~= quad_indices());
    (vertices, indices)
}

/// The quad is a well-formed mesh that covers the screen once: every index
/// names a vertex, both triangles run counter-clockwise, they meet in the
/// diagonal from the upper left to the lower right corner, and their areas
/// add up to that of the screen, a square of side 2.
pub proof fn lemma_quad_covers_screen()
    ensures
        quad_indices().len() == 6,
        forall|k: int| 0 <= k < 6 ==> 0 <= #[trigger] quad_indices()[k] < quad_vertices().len(),
        forall|k: int| 0 <= k < 4 ==> -1 <= #[trigger] quad_vertices()[k].x <= 1,
        forall|k: int| 0 <= k < 4 ==> -1 <= #[trigger] quad_vertices()[k].y <= 1,
        triangle_area(quad_vertices(), quad_indices(), 0) == 4,
        triangle_area(quad_vertices(), quad_indices(), 1) == 4,
        quad_indices()[1] == quad_indices()[4],
        quad_indices()[0] == quad_indices()[5],
        quad_vertices()[quad_indices()[1] as int] == corner(-1, 1),
        quad_vertices()[quad_indices()[0] as int] == corner(1, -1),
        triangle_area(quad_vertices(), quad_indices(), 0) + triangle_area(
            quad_vertices(),
            quad_indices(),
            1,
        ) == 2 * (2 * 2),
{
    let v = quad_vertices();
    let i = quad_indices();
    assert(v[i[0] as int] == corner(1, -1) && v[i[1] as int] == corner(-1, 1));
    assert(v[i[2] as int] == corner(-1, -1) && v[i[3] as int] == corner(1, 1));
    assert(v[i[4] as int] == corner(-1, 1) && v[i[5] as int] == corner(1, -1));
    assert(doubled_area(corner(1, -1), corner(-1, 1), corner(-1, -1)) == 4) by {
        assert(corner(1, -1).y == -1 && corner(-1, 1).x == -1 && corner(-1, -1).x == -1);
        assert((-2) * 0 - (-2) * 2 == 4);
    }
    assert(doubled_area(corner(1, 1), corner(-1, 1), corner(1, -1)) == 4) by {
        assert(corner(-1, 1).x == -1 && corner(1, -1).y == -1);
        assert((-2) * (-2) - 0 * 0 == 4);
    }
}

} // verus!
