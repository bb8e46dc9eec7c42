//! The unit cube on which the skybox is drawn: eight corners and twelve
//! triangles, two for each side. The data is the same for every skybox.

use vstd::prelude::*;

verus! {

/// Corners of the cube.
pub const CORNER_COUNT: usize = 8;

/// Triangles of the cube.
pub const TRIANGLE_COUNT: usize = 12;

/// Indices of one draw call of the cube: three for each triangle.
pub const SKYBOX_INDEX_COUNT: i32 = 36;

/// The three coordinates of corner `c`, each -1 or 1.
pub open spec fn corner(c: int) -> (int, int, int) {
    if c == 0 {
        (-1, 1, -1)
    } else if c == 1 {
        (-1, -1, -1)
    } else if c == 2 {
        (1, -1, -1)
    } else if c == 3 {
        (1, 1, -1)
    } else if c == 4 {
        (-1, 1, 1)
    } else if c == 5 {
        (-1, -1, 1)
    } else if c == 6 {
        (1, -1, 1)
    } else {
        (1, 1, 1)
    }
}

/// The three corners of triangle `t`.
pub open spec fn triangle(t: int) -> (int, int, int) {
    if t == 0 {
        (0, 1, 2)
    } else if t == 1 {
        (2, 3, 0)
    } else if t == 2 {
        (4, 5, 6)
    } else if t == 3 {
        (6, 7, 4)
    } else if t == 4 {
        (4, 5, 1)
    } else if t == 5 {
        (1, 0, 4)
    } else if t == 6 {
        (3, 2, 6)
    } else if t == 7 {
        (6, 7, 3)
    } else if t == 8 {
        (4, 0, 3)
    } else if t == 9 {
        (3, 7, 4)
    } else if t == 10 {
        (1, 5, 6)
    } else {
        (6, 2, 1)
    }
}

/// Component `k` of a triple.
pub open spec fn component(triple: (int, int, int), k: int) -> int {
    if k == 0 {
        triple.0
    } else if k == 1 {
        triple.1
    } else {
        triple.2
    }
}

/// The flattened coordinates of the eight corners.
pub open spec fn unit_cube_corners() -> Seq<int> {
    Seq::new(24, |i: int| component(corner(i / 3), i % 3))
}

/// The flattened corners of the twelve triangles.
pub open spec fn unit_cube_indices() -> Seq<int> {
    Seq::new(36, |i: int| component(triangle(i / 3), i % 3))
}

/// The axis a side of the cube is square to: 0 for x, 1 for y, 2 for z.
/// Sides are counted as their triangles are: near, far, left, right, top,
/// bottom.
pub open spec fn side_axis(side: int) -> int {
    if side == 0 || side == 1 {
        2
    } else if side == 2 || side == 3 {
        0
    } else {
        1
    }
}

/// On which end of its axis a side lies.
pub open spec fn side_sign(side: int) -> int {
    if side == 0 || side == 2 || side == 5 {
        -1
    } else {
        1
    }
}

/// Corner `c` lies on `side`.
pub open spec fn on_side(c: int, side: int) -> bool {
    component(corner(c), side_axis(side)) == side_sign(side)
}

/// Corner `c` is a corner of triangle `t`.
pub open spec fn touches(t: int, c: int) -> bool {
    triangle(t).0 == c || triangle(t).1 == c || triangle(t).2 == c
}

/// The coordinates of the eight corners, flattened: x, y and z of the
/// first, then of the second, and so on.
pub fn skybox_vertices() -> (corners: [i8; 24])
    ensures
        forall|i: int| 0 <= i < 24 ==> (#[trigger] corners@[i]) as int == unit_cube_corners()[i],
{
    let corners: [i8; 24] = [
        -1, 1, -1,
        -1, -1, -1,
        1, -1, -1,
        1, 1, -1,
        -1, 1, 1,
        -1, -1, 1,
        1, -1, 1,
        1, 1, 1,
    ];
    corners
}

/// The corners of the twelve triangles, flattened: two triangles for each
/// of the near, far, left, right, top and bottom side.
pub fn skybox_indices() -> (indices: [u32; 36])
    ensures
        forall|i: int| 0 <= i < 36 ==> (#[trigger] indices@[i]) as int == unit_cube_indices()[i],
        forall|i: int| 0 <= i < 36 ==> (#[trigger] indices@[i]) < CORNER_COUNT,
{
    let indices: [u32; 36] = [
        0, 1, 2,
        2, 3, 0,
        4, 5, 6,
        6, 7, 4,
        4, 5, 1,
        1, 0, 4,
        3, 2, 6,
        6, 7, 3,
        4, 0, 3,
        3, 7, 4,
        1, 5, 6,
        6, 2, 1,
    ];
    indices
}

/// Every triangle names three corners of the cube that differ from one
/// another.
pub proof fn lemma_triangles_name_corners(t: int)
    requires
        0 <= t < TRIANGLE_COUNT,
    ensures
        0 <= triangle(t).0 < CORNER_COUNT,
        0 <= triangle(t).1 < CORNER_COUNT,
        0 <= triangle(t).2 < CORNER_COUNT,
        triangle(t).0 != triangle(t).1,
        triangle(t).1 != triangle(t).2,
        triangle(t).0 != triangle(t).2,
{
}

/// The triangles `2 * side` and `2 * side + 1` lie flat on `side`, and
/// together they reach each corner of it: the two of them close the side.
pub proof fn lemma_two_triangles_close_a_side(side: int, c: int)
    requires
        0 <= side < 6,
        0 <= c < CORNER_COUNT,
    ensures
        on_side(triangle(2 * side).0, side),
        on_side(triangle(2 * side).1, side),
        on_side(triangle(2 * side).2, side),
        on_side(triangle(2 * side + 1).0, side),
        on_side(triangle(2 * side + 1).1, side),
        on_side(triangle(2 * side + 1).2, side),
        on_side(c, side) ==> touches(2 * side, c) || touches(2 * side + 1, c),
{
}

} // verus!
