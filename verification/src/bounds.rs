//! Axis-aligned bounds of the generated vertex positions.

use crate::mesh::Vec3Bits;
use crate::mesh::Vertex;
use crate::scalar::max_scalar;
use crate::scalar::min_scalar;
use crate::scalar::scalar_max;
use crate::scalar::scalar_min;
use vstd::prelude::*;

verus! {

/// Component-wise minimum of two encoded points.
pub open spec fn vec3_min(a: Vec3Bits, b: Vec3Bits) -> Vec3Bits {
    Vec3Bits { x: scalar_min(a.x, b.x), y: scalar_min(a.y, b.y), z: scalar_min(a.z, b.z) }
}

/// Component-wise maximum of two encoded points.
pub open spec fn vec3_max(a: Vec3Bits, b: Vec3Bits) -> Vec3Bits {
    Vec3Bits { x: scalar_max(a.x, b.x), y: scalar_max(a.y, b.y), z: scalar_max(a.z, b.z) }
}

/// Folds the positions of `s` into the running bounds `(mn, mx)`, in
/// sequence order.
pub open spec fn spec_bounds_from(s: Seq<Vertex>, mn: Vec3Bits, mx: Vec3Bits) -> (Vec3Bits,
    Vec3Bits)
    decreases s.len(),
{
    if s.len() == 0 {
        (mn, mx)
    } else {
        spec_bounds_from(
            s.subrange(1, s.len() as int),
            vec3_min(mn, s[0].position),
            vec3_max(mx, s[0].position),
        )
    }
}

/// The per-axis minima and maxima of the vertex positions of `s`.  An
/// empty sequence has the fixed degenerate bounds (0, 0, 0)..(0, 0, 0):
/// no geometry, no extent.
pub open spec fn spec_bounds(s: Seq<Vertex>) -> (Vec3Bits, Vec3Bits) {
    if s.len() == 0 {
        (Vec3Bits { x: 0, y: 0, z: 0 }, Vec3Bits { x: 0, y: 0, z: 0 })
    } else {
        spec_bounds_from(s.subrange(1, s.len() as int), s[0].position, s[0].position)
    }
}

/// Calculates the bounding coordinates of a list of vertices: a single
/// scan tracking running per-axis minima and maxima over the position
/// components only.
pub fn bounding_coords(points: &Vec<Vertex>) -> (r: (Vec3Bits, Vec3Bits))
    ensures
        r == spec_bounds(points@),
{
    if points.len() == 0 {
        return (Vec3Bits { x: 0, y: 0, z: 0 }, Vec3Bits { x: 0, y: 0, z: 0 });
    }
    let mut mn = points[0].position;
    let mut mx = points[0].position;
    let mut i: usize = 1;
    while i < points.len()
        invariant
            1 <= i <= points@.len(),
            spec_bounds_from(points@.subrange(i as int, points@.len() as int), mn, mx)
                == spec_bounds(points@),
        decreases points@.len() - i,
    {
        let p = points[i].position;
        proof {
            let rest = points@.subrange(i as int, points@.len() as int);
            assert(rest.subrange(1, rest.len() as int) =~= points@.subrange(
                i + 1,
                points@.len() as int,
            ));
        }
        mn = Vec3Bits {
            x: min_scalar(mn.x, p.x),
            y: min_scalar(mn.y, p.y),
            z: min_scalar(mn.z, p.z),
        };
        mx = Vec3Bits {
            x: max_scalar(mx.x, p.x),
            y: max_scalar(mx.y, p.y),
            z: max_scalar(mx.z, p.z),
        };
        i = i + 1;
    }
    proof {
        assert(points@.subrange(points@.len() as int, points@.len() as int) =~= Seq::<
            Vertex,
        >::empty());
    }
    (mn, mx)
}

} // verus!
