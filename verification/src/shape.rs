//! Collision shapes as the bridge records them.

use vstd::prelude::*;
use crate::math::Vec3;

verus! {

/// One triangle of a mesh, as indices into the mesh's point list.
#[derive(Clone, Copy, PartialEq, Eq, Structural, Debug)]
pub struct Triangle {
    pub a: u32,
    pub b: u32,
    pub c: u32,
}

/// The shape owned by a collider.
#[derive(Clone, PartialEq, Debug)]
pub enum Shape {
    Ball { radius: i64 },
    Cuboid { half_extents: Vec3 },
    Mesh { points: Vec<Vec3>, triangles: Vec<Triangle> },
    ConvexHull { points: Vec<Vec3> },
}

/// A shape-specific payload handed to a shape mutator: a scalar for a ball's
/// radius, a vector for a cuboid's half-extents.
#[derive(Clone, Copy, PartialEq, Eq, Debug)]
pub enum ShapeParam {
    Scalar(i64),
    Vector(Vec3),
}

/// The mathematical view of a shape: point lists become sequences.
#[verifier::ext_equal]
pub enum ShapeV {
    Ball { radius: int },
    Cuboid { half_extents: Vec3 },
    Mesh { points: Seq<Vec3>, triangles: Seq<Triangle> },
    ConvexHull { points: Seq<Vec3> },
}

impl View for Shape {
    type V = ShapeV;

    open spec fn view(&self) -> ShapeV {
        match self {
            Shape::Ball { radius } => ShapeV::Ball { radius: *radius as int },
            Shape::Cuboid { half_extents } => ShapeV::Cuboid { half_extents: *half_extents },
            Shape::Mesh { points, triangles } => ShapeV::Mesh {
                points: points@,
                triangles: triangles@,
            },
            Shape::ConvexHull { points } => ShapeV::ConvexHull { points: points@ },
        }
    }
}

/// A flat index list grouped into triangles, three indices at a time; a
/// trailing remainder of one or two indices is dropped.
pub open spec fn triangles_of(indices: Seq<u32>) -> Seq<Triangle> {
    Seq::new(
        (indices.len() as int / 3) as nat,
        |k: int| Triangle { a: indices[3 * k], b: indices[3 * k + 1], c: indices[3 * k + 2] },
    )
}

/// Groups a flat index list into triangles.
pub fn group_triangles(indices: &Vec<u32>) -> (r: Vec<Triangle>)
    ensures
        r@ == triangles_of(indices@),
{
    let n: usize = indices.len() / 3;
    let mut out: Vec<Triangle> = Vec::new();
    let mut t: usize = 0;
    while t < n
        invariant
            n == indices@.len() as int / 3,
            indices@.len() <= usize::MAX,
            t <= n,
            out@.len() == t,
            forall|j: int|
                0 <= j < t ==> #[trigger] out@[j] == (Triangle {
                    a: indices@[3 * j],
                    b: indices@[3 * j + 1],
                    c: indices@[3 * j + 2],
                }),
        decreases n - t,
    {
        proof {
            assert(3 * (indices@.len() as int / 3) <= indices@.len() as int);
            assert(3 * t + 2 < indices@.len());
        }
        out.push(Triangle { a: indices[3 * t], b: indices[3 * t + 1], c: indices[3 * t + 2] });
        t = t + 1;
    }
    proof {
        assert(out@ =~= triangles_of(indices@));
    }
    out
}

} // verus!
