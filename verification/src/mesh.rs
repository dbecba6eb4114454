//! The cube: eight coloured corners and the six faces between them.
//!
//! Coordinates are counted in halves, so that the cube with edge one and its
//! centre at the origin has corners at `-1` and `1` on every axis. Colour
//! channels are `0` or `1`.

use vstd::prelude::*;

verus! {

/// A corner of the mesh: where it is, in halves, and its colour.
#[derive(Clone, Copy, Debug, PartialEq, Eq)]
pub struct Corner {
    pub x: i8,
    pub y: i8,
    pub z: i8,
    pub red: u8,
    pub green: u8,
    pub blue: u8,
}

/// A face with four corners, named by their indices in the order in which
/// they go round the face.
#[derive(Clone, Copy, Debug, PartialEq, Eq)]
pub struct Quad {
    pub a: u32,
    pub b: u32,
    pub c: u32,
    pub d: u32,
}

/// The coordinate of `corner` on `axis`: 0 for x, 1 for y, anything else
/// for z.
pub open spec fn coordinate(corner: Corner, axis: int) -> int {
    if axis == 0 {
        corner.x as int
    } else if axis == 1 {
        corner.y as int
    } else {
        corner.z as int
    }
}

/// The two triangles that cover a face: `a b c` and `c d a`.
pub open spec fn quad_triangles(q: Quad) -> Seq<u32> {
    seq![q.a, q.b, q.c, q.c, q.d, q.a]
}

/// The triangle list of a run of faces: the triangles of each face in turn.
pub open spec fn triangle_list(faces: Seq<Quad>) -> Seq<u32>
    decreases faces.len(),
{
    if faces.len() == 0 {
        Seq::empty()
    } else {
        triangle_list(faces.drop_last()) + quad_triangles(faces.last())
    }
}

/// Whether every corner of `q` exists among `count` corners.
pub open spec fn quad_in_range(q: Quad, count: nat) -> bool {
    q.a < count && q.b < count && q.c < count && q.d < count
}

/// Whether the four corners of `q` all have the coordinate `side` on `axis`,
/// so that the face lies in that plane.
pub open spec fn lies_on(corners: Seq<Corner>, q: Quad, axis: int, side: int) -> bool {
    &&& quad_in_range(q, corners.len())
    &&& coordinate(corners[q.a as int], axis) == side
    &&& coordinate(corners[q.b as int], axis) == side
    &&& coordinate(corners[q.c as int], axis) == side
    &&& coordinate(corners[q.d as int], axis) == side
}

/// The corner at `(x, y, z)` halves with the colour `(red, green, blue)`.
pub open spec fn corner_at(x: int, y: int, z: int, red: u8, green: u8, blue: u8) -> Corner {
    Corner { x: x as i8, y: y as i8, z: z as i8, red, green, blue }
}

/// The corners of the cube: the front face counter-clockwise from the lower
/// left, then the back face likewise.
pub open spec fn cube_corners() -> Seq<Corner> {
    seq![
        corner_at(-1, -1, 1, 1, 0, 0),
        corner_at(1, -1, 1, 0, 1, 0),
        corner_at(1, 1, 1, 0, 0, 1),
        corner_at(-1, 1, 1, 1, 1, 0),
        corner_at(-1, -1, -1, 0, 1, 1),
        corner_at(1, -1, -1, 1, 0, 1),
        corner_at(1, 1, -1, 1, 1, 1),
        corner_at(-1, 1, -1, 0, 0, 0),
    ]
}

/// The faces of the cube: front, back, top, bottom, right, left.
pub open spec fn cube_faces() -> Seq<Quad> {
    seq![
        Quad { a: 0, b: 1, c: 2, d: 3 },
        Quad { a: 4, b: 5, c: 6, d: 7 },
        Quad { a: 7, b: 6, c: 2, d: 3 },
        Quad { a: 4, b: 5, c: 1, d: 0 },
        Quad { a: 5, b: 6, c: 2, d: 1 },
        Quad { a: 7, b: 4, c: 0, d: 3 },
    ]
}

/// The axis that the `i`-th face of the cube is square to.
pub open spec fn face_axis(i: int) -> int {
    if i < 2 {
        2
    } else if i < 4 {
        1
    } else {
        0
    }
}

/// The side of the cube that its `i`-th face is on.
pub open spec fn face_side(i: int) -> int {
    if i % 2 == 0 {
        1
    } else {
        -1
    }
}

/// A triangle list has six indices for each face, and names only corners
/// that exist if the faces do.
pub proof fn triangle_list_is_in_range(faces: Seq<Quad>, count: nat)
    requires
        forall|i: int| 0 <= i < faces.len() ==> quad_in_range(#[trigger] faces[i], count),
    ensures
        triangle_list(faces).len() == 6 * faces.len(),
        forall|k: int| 0 <= k < triangle_list(faces).len() ==> #[trigger] triangle_list(faces)[k] < count,
    decreases faces.len(),
{
    if faces.len() > 0 {
        triangle_list_is_in_range(faces.drop_last(), count);
        assert(quad_in_range(faces[faces.len() - 1], count));
    }
}

/// The corners are the eight corners of the cube with edge one about the
/// origin: every coordinate is one half up or down, no two corners have all
/// three alike, and so the box around them has its centre at the origin.
pub proof fn corners_form_the_centred_cube()
    ensures
        cube_corners().len() == 8,
        forall|i: int, axis: int|
            0 <= i < 8 ==> {
                let at = #[trigger] coordinate(cube_corners()[i], axis);
                at == -1 || at == 1
            },
        forall|i: int, j: int|
            0 <= i < j < 8 ==> (#[trigger] cube_corners()[i].x != #[trigger] cube_corners()[j].x
                || cube_corners()[i].y != cube_corners()[j].y || cube_corners()[i].z
                != cube_corners()[j].z),
        forall|axis: int|
            #![trigger coordinate(cube_corners()[0], axis)]
            coordinate(cube_corners()[0], axis) + coordinate(cube_corners()[6], axis) == 0,
{
}

/// Each face of the cube lies on a side of its own, and its four corners
/// exist.
pub proof fn faces_lie_on_the_six_sides()
    ensures
        cube_faces().len() == 6,
        forall|i: int|
            0 <= i < 6 ==> lies_on(
                cube_corners(),
                #[trigger] cube_faces()[i],
                face_axis(i),
                face_side(i),
            ),
        forall|i: int, j: int|
            0 <= i < j < 6 ==> (face_axis(i), face_side(i)) != (face_axis(j), face_side(j)),
{
}

/// The triangle list of the cube has twelve triangles and names only corners
/// that exist.
pub proof fn cube_triangles_are_in_range()
    ensures
        triangle_list(cube_faces()).len() == 36,
        forall|k: int|
            0 <= k < 36 ==> #[trigger] triangle_list(cube_faces())[k] < cube_corners().len(),
{
    faces_lie_on_the_six_sides();
    triangle_list_is_in_range(cube_faces(), 8);
}

/// The corners of the cube.
pub fn corners() -> (list: Vec<Corner>)
    ensures
        list@ == cube_corners(),
{
    let mut list: Vec<Corner> = Vec::new();
    list.push(Corner { x: -1, y: -1, z: 1, red: 1, green: 0, blue: 0 });
    list.push(Corner { x: 1, y: -1, z: 1, red: 0, green: 1, blue: 0 });
    list.push(Corner { x: 1, y: 1, z: 1, red: 0, green: 0, blue: 1 });
    list.push(Corner { x: -1, y: 1, z: 1, red: 1, green: 1, blue: 0 });
    list.push(Corner { x: -1, y: -1, z: -1, red: 0, green: 1, blue: 1 });
    list.push(Corner { x: 1, y: -1, z: -1, red: 1, green: 0, blue: 1 });
    list.push(Corner { x: 1, y: 1, z: -1, red: 1, green: 1, blue: 1 });
    list.push(Corner { x: -1, y: 1, z: -1, red: 0, green: 0, blue: 0 });
    assert(list@ =~= cube_corners());
    list
}

/// The faces of the cube.
pub fn faces() -> (list: Vec<Quad>)
    ensures
        list@ == cube_faces(),
{
    let mut list: Vec<Quad> = Vec::new();
    list.push(Quad { a: 0, b: 1, c: 2, d: 3 });
    list.push(Quad { a: 4, b: 5, c: 6, d: 7 });
    list.push(Quad { a: 7, b: 6, c: 2, d: 3 });
    list.push(Quad { a: 4, b: 5, c: 1, d: 0 });
    list.push(Quad { a: 5, b: 6, c: 2, d: 1 });
    list.push(Quad { a: 7, b: 4, c: 0, d: 3 });
    assert(list@ =~= cube_faces());
    list
}

/// The triangle list of `faces`, as an indexed draw takes it.
pub fn triangle_indices(faces: &[Quad]) -> (list: Vec<u32>)
    ensures
        list@ == triangle_list(faces@),
{
    let mut list: Vec<u32> = Vec::new();
    let n: usize = faces.len();
    let mut i: usize = 0;
    while i < n
        invariant
            i <= n,
            n == faces@.len(),
            list@ == triangle_list(faces@.take(i as int)),
        decreases n - i,
    {
        let q: Quad = faces[i];
        list.push(q.a);
        list.push(q.b);
        list.push(q.c);
        list.push(q.c);
        list.push(q.d);
        list.push(q.a);
        assert(faces@.take(i + 1).drop_last() =~= faces@.take(i as int));
        assert(list@ =~= triangle_list(faces@.take(i as int)) + quad_triangles(q));
        i = i + 1;
    }
    assert(faces@.take(n as int) =~= faces@);
    list
}

/// The triangle list of the cube.
pub fn indices() -> (list: Vec<u32>)
    ensures
        list@ == triangle_list(cube_faces()),
        list@.len() == 36,
        forall|k: int| 0 <= k < 36 ==> #[trigger] list@[k] < 8,
{
    proof {
        cube_triangles_are_in_range();
    }
    let all = faces();
    triangle_indices(all.as_slice())
}

} // verus!
