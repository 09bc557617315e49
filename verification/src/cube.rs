//! The unit cube and the six cubemap camera orientations.
//!
//! Every cubemap pass renders the same unit cube: eight corners at
//! coordinates of magnitude one, twelve triangles.  Each of the six
//! faces is rendered with the camera at the origin looking down one of
//! the signed coordinate axes with a fixed up direction.  All of this
//! data is integral, so it is stated and checked exactly.

use vstd::prelude::*;

verus! {

/// An integer three-component vector.
#[derive(Clone, Copy, PartialEq, Eq, Structural, Debug)]
pub struct Vec3i {
    pub x: i32,
    pub y: i32,
    pub z: i32,
}

/// The dot product of two integer vectors.
pub open spec fn dot(a: Vec3i, b: Vec3i) -> int {
    a.x * b.x + a.y * b.y + a.z * b.z
}

/// A signed unit axis vector: one of the six cube face directions.
pub open spec fn is_axis_unit(v: Vec3i) -> bool {
    ||| v == (Vec3i { x: 1, y: 0, z: 0 })
    ||| v == (Vec3i { x: -1i32, y: 0, z: 0 })
    ||| v == (Vec3i { x: 0, y: 1, z: 0 })
    ||| v == (Vec3i { x: 0, y: -1i32, z: 0 })
    ||| v == (Vec3i { x: 0, y: 0, z: 1 })
    ||| v == (Vec3i { x: 0, y: 0, z: -1i32 })
}

/// The eight corners of the unit cube, front face (positive z) first,
/// in the order the mesh builder uploads them.
pub open spec fn cube_corners_rep() -> Seq<Vec3i> {
    seq![
        Vec3i { x: -1i32, y: -1i32, z: 1 },
        Vec3i { x: 1, y: -1i32, z: 1 },
        Vec3i { x: 1, y: 1, z: 1 },
        Vec3i { x: -1i32, y: 1, z: 1 },
        Vec3i { x: -1i32, y: -1i32, z: -1i32 },
        Vec3i { x: 1, y: -1i32, z: -1i32 },
        Vec3i { x: 1, y: 1, z: -1i32 },
        Vec3i { x: -1i32, y: 1, z: -1i32 },
    ]
}

/// The 36 vertex indices of the cube's twelve triangles: two triangles
/// per face, in the order front, right, back, left, bottom, top.
pub open spec fn cube_indices_rep() -> Seq<u32> {
    seq![
        0u32, 1u32, 2u32, 2u32, 3u32, 0u32,
        1u32, 5u32, 6u32, 6u32, 2u32, 1u32,
        7u32, 6u32, 5u32, 5u32, 4u32, 7u32,
        4u32, 0u32, 3u32, 3u32, 7u32, 4u32,
        4u32, 5u32, 1u32, 1u32, 0u32, 4u32,
        3u32, 2u32, 6u32, 6u32, 7u32, 3u32,
    ]
}

/// The corner positions of the unit cube.
pub fn cube_corners() -> (corners: Vec<Vec3i>)
    ensures
        corners@ == cube_corners_rep(),
{
    let mut corners: Vec<Vec3i> = Vec::new();
    corners.push(Vec3i { x: -1i32, y: -1i32, z: 1 });
    corners.push(Vec3i { x: 1, y: -1i32, z: 1 });
    corners.push(Vec3i { x: 1, y: 1, z: 1 });
    corners.push(Vec3i { x: -1i32, y: 1, z: 1 });
    corners.push(Vec3i { x: -1i32, y: -1i32, z: -1i32 });
    corners.push(Vec3i { x: 1, y: -1i32, z: -1i32 });
    corners.push(Vec3i { x: 1, y: 1, z: -1i32 });
    corners.push(Vec3i { x: -1i32, y: 1, z: -1i32 });
    proof {
        assert(corners@ =~= cube_corners_rep());
    }
    corners
}

/// The triangle indices of the unit cube.
pub fn cube_indices() -> (indices: Vec<u32>)
    ensures
        indices@ == cube_indices_rep(),
{
    let mut v: Vec<u32> = Vec::new();
    v.push(0);
    v.push(1);
    v.push(2);
    v.push(2);
    v.push(3);
    v.push(0);
    v.push(1);
    v.push(5);
    v.push(6);
    v.push(6);
    v.push(2);
    v.push(1);
    v.push(7);
    v.push(6);
    v.push(5);
    v.push(5);
    v.push(4);
    v.push(7);
    v.push(4);
    v.push(0);
    v.push(3);
    v.push(3);
    v.push(7);
    v.push(4);
    v.push(4);
    v.push(5);
    v.push(1);
    v.push(1);
    v.push(0);
    v.push(4);
    v.push(3);
    v.push(2);
    v.push(6);
    v.push(6);
    v.push(7);
    v.push(3);
    proof {
        assert(v@ =~= cube_indices_rep());
    }
    v
}

/// Every triangle index points at one of the cube's eight corners.
pub proof fn lemma_cube_indices_in_range()
    ensures
        cube_indices_rep().len() == 36,
        forall|i: int| 0 <= i < 36 ==> cube_indices_rep()[i] < 8,
{
}

/// Every corner of the cube is used by some triangle.
pub proof fn lemma_cube_indices_cover_corners()
    ensures
        forall|c: u32| c < 8 ==> cube_indices_rep().contains(c),
{
    assert forall|c: u32| c < 8 implies cube_indices_rep().contains(c) by {
        if c == 0 {
            assert(cube_indices_rep()[0] == c);
        } else if c == 1 {
            assert(cube_indices_rep()[1] == c);
        } else if c == 2 {
            assert(cube_indices_rep()[2] == c);
        } else if c == 3 {
            assert(cube_indices_rep()[4] == c);
        } else if c == 4 {
            assert(cube_indices_rep()[16] == c);
        } else if c == 5 {
            assert(cube_indices_rep()[7] == c);
        } else if c == 6 {
            assert(cube_indices_rep()[8] == c);
        } else {
            assert(cube_indices_rep()[12] == c);
        }
    }
}

/// The camera orientation that renders one cubemap face: a forward
/// (look-at) direction and an up direction.
#[derive(Clone, Copy, PartialEq, Eq, Structural, Debug)]
pub struct FaceOrientation {
    pub forward: Vec3i,
    pub up: Vec3i,
}

/// The orientations of the six cubemap faces, in render order:
/// positive x, negative x, negative y, positive y, positive z,
/// negative z.
pub open spec fn face_orientations_rep() -> Seq<FaceOrientation> {
    seq![
        FaceOrientation {
            forward: Vec3i { x: 1, y: 0, z: 0 },
            up: Vec3i { x: 0, y: -1i32, z: 0 },
        },
        FaceOrientation {
            forward: Vec3i { x: -1i32, y: 0, z: 0 },
            up: Vec3i { x: 0, y: -1i32, z: 0 },
        },
        FaceOrientation {
            forward: Vec3i { x: 0, y: -1i32, z: 0 },
            up: Vec3i { x: 0, y: 0, z: -1i32 },
        },
        FaceOrientation {
            forward: Vec3i { x: 0, y: 1, z: 0 },
            up: Vec3i { x: 0, y: 0, z: 1 },
        },
        FaceOrientation {
            forward: Vec3i { x: 0, y: 0, z: 1 },
            up: Vec3i { x: 0, y: -1i32, z: 0 },
        },
        FaceOrientation {
            forward: Vec3i { x: 0, y: 0, z: -1i32 },
            up: Vec3i { x: 0, y: -1i32, z: 0 },
        },
    ]
}

/// The camera orientation for one face of the cubemap.
pub fn face_orientation(face: u32) -> (o: FaceOrientation)
    requires
        face < 6,
    ensures
        o == face_orientations_rep()[face as int],
{
    if face == 0 {
        FaceOrientation { forward: Vec3i { x: 1, y: 0, z: 0 }, up: Vec3i { x: 0, y: -1i32, z: 0 } }
    } else if face == 1 {
        FaceOrientation { forward: Vec3i { x: -1i32, y: 0, z: 0 }, up: Vec3i { x: 0, y: -1i32, z: 0 } }
    } else if face == 2 {
        FaceOrientation { forward: Vec3i { x: 0, y: -1i32, z: 0 }, up: Vec3i { x: 0, y: 0, z: -1i32 } }
    } else if face == 3 {
        FaceOrientation { forward: Vec3i { x: 0, y: 1, z: 0 }, up: Vec3i { x: 0, y: 0, z: 1 } }
    } else if face == 4 {
        FaceOrientation { forward: Vec3i { x: 0, y: 0, z: 1 }, up: Vec3i { x: 0, y: -1i32, z: 0 } }
    } else {
        FaceOrientation { forward: Vec3i { x: 0, y: 0, z: -1i32 }, up: Vec3i { x: 0, y: -1i32, z: 0 } }
    }
}

/// Each face looks down a signed axis with an up direction at a right
/// angle to it.
pub proof fn lemma_face_orientations_well_formed()
    ensures
        face_orientations_rep().len() == 6,
        forall|i: int|
            0 <= i < 6 ==> is_axis_unit(#[trigger] face_orientations_rep()[i].forward),
        forall|i: int| 0 <= i < 6 ==> is_axis_unit(#[trigger] face_orientations_rep()[i].up),
        forall|i: int|
            0 <= i < 6 ==> dot(
                (#[trigger] face_orientations_rep()[i]).forward,
                face_orientations_rep()[i].up,
            ) == 0,
{
    assert forall|i: int|
        0 <= i < 6 implies dot(
        (#[trigger] face_orientations_rep()[i]).forward,
        face_orientations_rep()[i].up,
    ) == 0 by {
        let o = face_orientations_rep()[i];
        if i == 2 || i == 3 {
            assert(o.forward.x == 0 && o.up.y == 0 && o.forward.z == 0);
            assert(dot(o.forward, o.up) == 0);
        } else {
            assert(o.up.x == 0 && o.up.z == 0 && o.forward.y == 0);
            assert(dot(o.forward, o.up) == 0);
        }
    }
}

/// The six face directions cover all six signed axes: every signed unit
/// axis is the forward direction of exactly one face.
pub proof fn lemma_face_orientations_cover_axes()
    ensures
        forall|v: Vec3i|
            is_axis_unit(v) ==> exists|i: int|
                0 <= i < 6 && (#[trigger] face_orientations_rep()[i]).forward == v,
        forall|i: int, j: int|
            0 <= i < 6 && 0 <= j < 6 && i != j ==> (#[trigger] face_orientations_rep()[i]).forward
                != (#[trigger] face_orientations_rep()[j]).forward,
{
    assert forall|v: Vec3i| is_axis_unit(v) implies exists|i: int|
        0 <= i < 6 && (#[trigger] face_orientations_rep()[i]).forward == v by {
        if v == (Vec3i { x: 1, y: 0, z: 0 }) {
            assert(face_orientations_rep()[0].forward == v);
        } else if v == (Vec3i { x: -1i32, y: 0, z: 0 }) {
            assert(face_orientations_rep()[1].forward == v);
        } else if v == (Vec3i { x: 0, y: -1i32, z: 0 }) {
            assert(face_orientations_rep()[2].forward == v);
        } else if v == (Vec3i { x: 0, y: 1, z: 0 }) {
            assert(face_orientations_rep()[3].forward == v);
        } else if v == (Vec3i { x: 0, y: 0, z: 1 }) {
            assert(face_orientations_rep()[4].forward == v);
        } else {
            assert(face_orientations_rep()[5].forward == v);
        }
    }
}

} // verus!
