//! Properties of the generator, stated and proved over the specification
//! functions that the executable functions are verified against.

use crate::container::Glb;
use crate::mesh::Face;
use crate::mesh::Vertex;
use crate::mesh::face_corner;
use crate::mesh::face_normal;
use crate::mesh::spec_face_vertices;
use crate::mesh::spec_faces_vertices;
use crate::mesh::spec_grid_vertices;
use crate::mesh::spec_image_vertices;
use crate::mesh::spec_pixel_vertices;
use crate::mesh::spec_row_vertices;
use crate::mesh::spec_visible_faces;
use crate::pack::packed_bytes;
use crate::pack::spec_pad4;
use crate::pixel::Image;
use crate::pixel::Pixel;
use crate::pixel::PixelClassifier;
use crate::pixel::spec_is_empty_pixel;
use vstd::prelude::*;

verus! {

/// Vertex `k` of face block `g` of the sequence `s`.
pub open spec fn block_vertex(s: Seq<Vertex>, g: int, k: int) -> Vertex {
    s[6 * g + k]
}

/// The encoding triple `n` is one of the six axis-unit normals.
pub open spec fn is_axis_unit_normal(n: crate::mesh::Vec3Bits) -> bool {
    ||| n == face_normal(Face::Up)
    ||| n == face_normal(Face::Down)
    ||| n == face_normal(Face::Forward)
    ||| n == face_normal(Face::Back)
    ||| n == face_normal(Face::Left)
    ||| n == face_normal(Face::Right)
}

/// The six vertices of face block `g` all carry one normal, and it is an
/// axis-unit vector.
pub open spec fn face_block_normal_ok(s: Seq<Vertex>, g: int) -> bool {
    &&& is_axis_unit_normal(block_vertex(s, g, 0).normal)
    &&& forall|k: int|
        0 <= k < 6 ==> (#[trigger] block_vertex(s, g, k)).normal == block_vertex(s, g, 0).normal
}

/// The sequence is whole face blocks of six vertices, each with one
/// axis-unit normal.
pub open spec fn face_blocks_normals_ok(s: Seq<Vertex>) -> bool {
    &&& s.len() % 6 == 0
    &&& forall|g: int| 0 <= g < s.len() / 6 ==> #[trigger] face_block_normal_ok(s, g)
}

/// For one emitted face, every vertex normal equals the face's axis-unit
/// vector, for all positions and heights.
pub proof fn lemma_face_vertices_normals(x: int, y: int, p: Pixel, height_bits: u32, f: Face)
    ensures
        forall|k: int|
            0 <= k < 6 ==> (#[trigger] spec_face_vertices(x, y, p, height_bits, f)[k]).normal
                == face_normal(f),
{
}

/// A single face's six vertices form one well-normaled block.
proof fn lemma_face_vertices_block(x: int, y: int, p: Pixel, height_bits: u32, f: Face)
    ensures
        face_blocks_normals_ok(spec_face_vertices(x, y, p, height_bits, f)),
{
    let s = spec_face_vertices(x, y, p, height_bits, f);
    assert forall|k: int| 0 <= k < 6 implies (#[trigger] block_vertex(s, 0, k)).normal
        == face_normal(f) by {
        assert(block_vertex(s, 0, k) == s[k]);
    };
    assert(block_vertex(s, 0, 0).normal == face_normal(f));
    assert(face_block_normal_ok(s, 0));
}

/// Well-normaled face blocks stay so under concatenation.
proof fn lemma_face_blocks_concat(a: Seq<Vertex>, b: Seq<Vertex>)
    requires
        face_blocks_normals_ok(a),
        face_blocks_normals_ok(b),
    ensures
        face_blocks_normals_ok(a + b),
{
    let c = a + b;
    let na = a.len() / 6;
    assert(a.len() == 6 * na);
    assert(c.len() % 6 == 0);
    assert forall|g: int| 0 <= g < c.len() / 6 implies #[trigger] face_block_normal_ok(c, g) by {
        if g < na {
            assert(face_block_normal_ok(a, g));
            assert forall|k: int| 0 <= k < 6 implies (#[trigger] block_vertex(c, g, k)).normal
                == block_vertex(c, g, 0).normal by {
                assert(6 * g + k < a.len());
                assert(block_vertex(c, g, k) == a[6 * g + k]);
                assert(block_vertex(a, g, k) == a[6 * g + k]);
                assert(block_vertex(c, g, 0) == block_vertex(a, g, 0));
            };
            assert(block_vertex(c, g, 0) == block_vertex(a, g, 0));
        } else {
            let g2 = g - na;
            assert(0 <= g2 < b.len() / 6);
            assert(face_block_normal_ok(b, g2));
            assert forall|k: int| 0 <= k < 6 implies (#[trigger] block_vertex(c, g, k)).normal
                == block_vertex(c, g, 0).normal by {
                assert(6 * g + k >= a.len());
                assert(block_vertex(c, g, k) == b[6 * g2 + k]);
                assert(block_vertex(b, g2, k) == b[6 * g2 + k]);
                assert(block_vertex(c, g, 0) == block_vertex(b, g2, 0));
            };
            assert(block_vertex(c, g, 0) == block_vertex(b, g2, 0));
        }
    };
}

/// The vertices of any face list are whole, well-normaled face blocks.
proof fn lemma_faces_vertices_blocks(x: int, y: int, p: Pixel, height_bits: u32, faces: Seq<Face>)
    ensures
        face_blocks_normals_ok(spec_faces_vertices(x, y, p, height_bits, faces)),
    decreases faces.len(),
{
    if faces.len() == 0 {
        assert(face_blocks_normals_ok(Seq::<Vertex>::empty()));
    } else {
        lemma_faces_vertices_blocks(x, y, p, height_bits, faces.drop_last());
        lemma_face_vertices_block(x, y, p, height_bits, faces.last());
        lemma_face_blocks_concat(
            spec_faces_vertices(x, y, p, height_bits, faces.drop_last()),
            spec_face_vertices(x, y, p, height_bits, faces.last()),
        );
    }
}

/// The vertices of one cell are whole, well-normaled face blocks.
proof fn lemma_pixel_vertices_blocks(
    img: Image,
    classifier: PixelClassifier,
    height_bits: u32,
    x: int,
    y: int,
)
    ensures
        face_blocks_normals_ok(spec_pixel_vertices(img, classifier, height_bits, x, y)),
{
    if spec_is_empty_pixel(classifier, img.spec_pixel(x, y)) {
        assert(face_blocks_normals_ok(Seq::<Vertex>::empty()));
    } else {
        lemma_faces_vertices_blocks(
            x,
            y,
            img.spec_pixel(x, y),
            height_bits,
            spec_visible_faces(img, classifier, x, y),
        );
    }
}

/// The vertices of a row prefix are whole, well-normaled face blocks.
proof fn lemma_row_vertices_blocks(
    img: Image,
    classifier: PixelClassifier,
    height_bits: u32,
    y: int,
    n: int,
)
    ensures
        face_blocks_normals_ok(spec_row_vertices(img, classifier, height_bits, y, n)),
    decreases n,
{
    if n <= 0 {
        assert(face_blocks_normals_ok(Seq::<Vertex>::empty()));
    } else {
        lemma_row_vertices_blocks(img, classifier, height_bits, y, n - 1);
        lemma_pixel_vertices_blocks(img, classifier, height_bits, n - 1, y);
        lemma_face_blocks_concat(
            spec_row_vertices(img, classifier, height_bits, y, n - 1),
            spec_pixel_vertices(img, classifier, height_bits, n - 1, y),
        );
    }
}

/// The vertices of a grid prefix are whole, well-normaled face blocks.
proof fn lemma_grid_vertices_blocks(
    img: Image,
    classifier: PixelClassifier,
    height_bits: u32,
    m: int,
)
    ensures
        face_blocks_normals_ok(spec_grid_vertices(img, classifier, height_bits, m)),
    decreases m,
{
    if m <= 0 {
        assert(face_blocks_normals_ok(Seq::<Vertex>::empty()));
    } else {
        lemma_grid_vertices_blocks(img, classifier, height_bits, m - 1);
        lemma_row_vertices_blocks(img, classifier, height_bits, m - 1, img.width as int);
        lemma_face_blocks_concat(
            spec_grid_vertices(img, classifier, height_bits, m - 1),
            spec_row_vertices(img, classifier, height_bits, m - 1, img.width as int),
        );
    }
}

/// The generated mesh is whole face blocks of six vertices, and within
/// each block every vertex normal equals one face's axis-unit vector —
/// for every image, classifier and height.
pub proof fn lemma_image_vertex_normals(img: Image, classifier: PixelClassifier, height_bits: u32)
    ensures
        face_blocks_normals_ok(spec_image_vertices(img, classifier, height_bits)),
{
    lemma_grid_vertices_blocks(img, classifier, height_bits, img.height as int);
}

/// Difference of two integer points.
pub open spec fn ivec_sub(a: (int, int, int), b: (int, int, int)) -> (int, int, int) {
    (a.0 - b.0, a.1 - b.1, a.2 - b.2)
}

/// Cross product of two integer vectors.
pub open spec fn ivec_cross(a: (int, int, int), b: (int, int, int)) -> (int, int, int) {
    (a.1 * b.2 - a.2 * b.1, a.2 * b.0 - a.0 * b.2, a.0 * b.1 - a.1 * b.0)
}

/// An integer vector scaled by `c`.
pub open spec fn ivec_scale(c: int, v: (int, int, int)) -> (int, int, int) {
    (c * v.0, c * v.1, c * v.2)
}

/// The outward axis direction of a face, as an integer unit vector.
pub open spec fn face_axis(f: Face) -> (int, int, int) {
    match f {
        Face::Up => (0, 0, 1),
        Face::Down => (0, 0, -1),
        Face::Forward => (0, -1, 0),
        Face::Back => (0, 1, 0),
        Face::Left => (-1, 0, 0),
        Face::Right => (1, 0, 0),
    }
}

/// Corner `k` of face `f` over the cell at (`x`, `y`) with height `h`, in
/// exact integer coordinates: the point whose encodings the emitted
/// vertex positions carry.
pub open spec fn corner_point(x: int, y: int, h: int, f: Face, k: int) -> (int, int, int) {
    let c = face_corner(f, k);
    (x + c.0, y + c.1, if c.2 == 1 {
        h
    } else {
        0
    })
}

/// The edge cross product of triangle `t` (0 or 1) of face `f`: edges
/// taken from the triangle's first corner to its second and third.
pub open spec fn triangle_cross(x: int, y: int, h: int, f: Face, t: int) -> (int, int, int) {
    let v0 = corner_point(x, y, h, f, 3 * t);
    let v1 = corner_point(x, y, h, f, 3 * t + 1);
    let v2 = corner_point(x, y, h, f, 3 * t + 2);
    ivec_cross(ivec_sub(v1, v0), ivec_sub(v2, v0))
}

/// The magnitude by which a face's triangle cross products exceed its
/// unit axis: 1 for the caps, the extrusion height for the side faces.
pub open spec fn face_cross_scale(f: Face, h: int) -> int {
    match f {
        Face::Up => 1,
        Face::Down => 1,
        Face::Forward => h,
        Face::Back => h,
        Face::Left => h,
        Face::Right => h,
    }
}

/// For every face and both of its triangles, the winding — the cross
/// product of the edge vectors, over the exact corner coordinates — is a
/// positive multiple of the face's declared outward axis, for every cell
/// and every positive height.  (A zero or negative height reverses the
/// side faces' winding, so it is excluded.)
#[verifier::rlimit(100)]
pub proof fn lemma_face_winding(x: int, y: int, h: int, f: Face, t: int)
    requires
        h > 0,
        0 <= t < 2,
    ensures
        triangle_cross(x, y, h, f, t) == ivec_scale(face_cross_scale(f, h), face_axis(f)),
        face_cross_scale(f, h) > 0,
{
    match f {
        Face::Up => {
            if t == 0 {
                let v0 = corner_point(x, y, h, f, 0);
                let v1 = corner_point(x, y, h, f, 1);
                let v2 = corner_point(x, y, h, f, 2);
                assert(v0 == (x, y, h));
                assert(v1 == (x + 1, y, h));
                assert(v2 == (x, y + 1, h));
                let e1 = ivec_sub(v1, v0);
                let e2 = ivec_sub(v2, v0);
                assert(e1 == (1int, 0int, 0int));
                assert(e2 == (0int, 1int, 0int));
                assert(ivec_cross(e1, e2) == (0int, 0int, 1int)) by (nonlinear_arith)
                    requires
                        e1 == (1int, 0int, 0int),
                        e2 == (0int, 1int, 0int),
                ;
                assert(triangle_cross(x, y, h, f, t) == ivec_cross(e1, e2));
                let ax = face_axis(f);
                assert(ax == (0int, 0int, 1int));
                assert(ivec_scale(1, ax) == (0int, 0int, 1int)) by (nonlinear_arith)
                    requires
                        ax == (0int, 0int, 1int),
                ;
                assert(ivec_scale(1, face_axis(f)) == (0int, 0int, 1int));
            } else {
                let v0 = corner_point(x, y, h, f, 3);
                let v1 = corner_point(x, y, h, f, 4);
                let v2 = corner_point(x, y, h, f, 5);
                assert(v0 == (x, y + 1, h));
                assert(v1 == (x + 1, y, h));
                assert(v2 == (x + 1, y + 1, h));
                let e1 = ivec_sub(v1, v0);
                let e2 = ivec_sub(v2, v0);
                assert(e1 == (1int, -1int, 0int));
                assert(e2 == (1int, 0int, 0int));
                assert(ivec_cross(e1, e2) == (0int, 0int, 1int)) by (nonlinear_arith)
                    requires
                        e1 == (1int, -1int, 0int),
                        e2 == (1int, 0int, 0int),
                ;
                assert(triangle_cross(x, y, h, f, t) == ivec_cross(e1, e2));
                let ax = face_axis(f);
                assert(ax == (0int, 0int, 1int));
                assert(ivec_scale(1, ax) == (0int, 0int, 1int)) by (nonlinear_arith)
                    requires
                        ax == (0int, 0int, 1int),
                ;
                assert(ivec_scale(1, face_axis(f)) == (0int, 0int, 1int));
            }
        },
        Face::Down => {
            if t == 0 {
                let v0 = corner_point(x, y, h, f, 0);
                let v1 = corner_point(x, y, h, f, 1);
                let v2 = corner_point(x, y, h, f, 2);
                assert(v0 == (x, y, 0int));
                assert(v1 == (x, y + 1, 0int));
                assert(v2 == (x + 1, y, 0int));
                let e1 = ivec_sub(v1, v0);
                let e2 = ivec_sub(v2, v0);
                assert(e1 == (0int, 1int, 0int));
                assert(e2 == (1int, 0int, 0int));
                assert(ivec_cross(e1, e2) == (0int, 0int, -1int)) by (nonlinear_arith)
                    requires
                        e1 == (0int, 1int, 0int),
                        e2 == (1int, 0int, 0int),
                ;
                assert(triangle_cross(x, y, h, f, t) == ivec_cross(e1, e2));
                let ax = face_axis(f);
                assert(ax == (0int, 0int, -1int));
                assert(ivec_scale(1, ax) == (0int, 0int, -1int)) by (nonlinear_arith)
                    requires
                        ax == (0int, 0int, -1int),
                ;
                assert(ivec_scale(1, face_axis(f)) == (0int, 0int, -1int));
            } else {
                let v0 = corner_point(x, y, h, f, 3);
                let v1 = corner_point(x, y, h, f, 4);
                let v2 = corner_point(x, y, h, f, 5);
                assert(v0 == (x, y + 1, 0int));
                assert(v1 == (x + 1, y + 1, 0int));
                assert(v2 == (x + 1, y, 0int));
                let e1 = ivec_sub(v1, v0);
                let e2 = ivec_sub(v2, v0);
                assert(e1 == (1int, 0int, 0int));
                assert(e2 == (1int, -1int, 0int));
                assert(ivec_cross(e1, e2) == (0int, 0int, -1int)) by (nonlinear_arith)
                    requires
                        e1 == (1int, 0int, 0int),
                        e2 == (1int, -1int, 0int),
                ;
                assert(triangle_cross(x, y, h, f, t) == ivec_cross(e1, e2));
                let ax = face_axis(f);
                assert(ax == (0int, 0int, -1int));
                assert(ivec_scale(1, ax) == (0int, 0int, -1int)) by (nonlinear_arith)
                    requires
                        ax == (0int, 0int, -1int),
                ;
                assert(ivec_scale(1, face_axis(f)) == (0int, 0int, -1int));
            }
        },
        Face::Forward => {
            if t == 0 {
                let v0 = corner_point(x, y, h, f, 0);
                let v1 = corner_point(x, y, h, f, 1);
                let v2 = corner_point(x, y, h, f, 2);
                assert(v0 == (x, y, 0int));
                assert(v1 == (x + 1, y, 0int));
                assert(v2 == (x, y, h));
                let e1 = ivec_sub(v1, v0);
                let e2 = ivec_sub(v2, v0);
                assert(e1 == (1int, 0int, 0int));
                assert(e2 == (0int, 0int, h));
                assert(ivec_cross(e1, e2) == (0int, (-h), 0int)) by (nonlinear_arith)
                    requires
                        e1 == (1int, 0int, 0int),
                        e2 == (0int, 0int, h),
                ;
                assert(triangle_cross(x, y, h, f, t) == ivec_cross(e1, e2));
                let ax = face_axis(f);
                assert(ax == (0int, -1int, 0int));
                assert(ivec_scale(h, ax) == (0int, (-h), 0int)) by (nonlinear_arith)
                    requires
                        ax == (0int, -1int, 0int),
                ;
                assert(ivec_scale(h, face_axis(f)) == (0int, (-h), 0int));
            } else {
                let v0 = corner_point(x, y, h, f, 3);
                let v1 = corner_point(x, y, h, f, 4);
                let v2 = corner_point(x, y, h, f, 5);
                assert(v0 == (x, y, h));
                assert(v1 == (x + 1, y, 0int));
                assert(v2 == (x + 1, y, h));
                let e1 = ivec_sub(v1, v0);
                let e2 = ivec_sub(v2, v0);
                assert(e1 == (1int, 0int, (-h)));
                assert(e2 == (1int, 0int, 0int));
                assert(ivec_cross(e1, e2) == (0int, (-h), 0int)) by (nonlinear_arith)
                    requires
                        e1 == (1int, 0int, (-h)),
                        e2 == (1int, 0int, 0int),
                ;
                assert(triangle_cross(x, y, h, f, t) == ivec_cross(e1, e2));
                let ax = face_axis(f);
                assert(ax == (0int, -1int, 0int));
                assert(ivec_scale(h, ax) == (0int, (-h), 0int)) by (nonlinear_arith)
                    requires
                        ax == (0int, -1int, 0int),
                ;
                assert(ivec_scale(h, face_axis(f)) == (0int, (-h), 0int));
            }
        },
        Face::Back => {
            if t == 0 {
                let v0 = corner_point(x, y, h, f, 0);
                let v1 = corner_point(x, y, h, f, 1);
                let v2 = corner_point(x, y, h, f, 2);
                assert(v0 == (x, y + 1, 0int));
                assert(v1 == (x, y + 1, h));
                assert(v2 == (x + 1, y + 1, 0int));
                let e1 = ivec_sub(v1, v0);
                let e2 = ivec_sub(v2, v0);
                assert(e1 == (0int, 0int, h));
                assert(e2 == (1int, 0int, 0int));
                assert(ivec_cross(e1, e2) == (0int, h, 0int)) by (nonlinear_arith)
                    requires
                        e1 == (0int, 0int, h),
                        e2 == (1int, 0int, 0int),
                ;
                assert(triangle_cross(x, y, h, f, t) == ivec_cross(e1, e2));
                let ax = face_axis(f);
                assert(ax == (0int, 1int, 0int));
                assert(ivec_scale(h, ax) == (0int, h, 0int)) by (nonlinear_arith)
                    requires
                        ax == (0int, 1int, 0int),
                ;
                assert(ivec_scale(h, face_axis(f)) == (0int, h, 0int));
            } else {
                let v0 = corner_point(x, y, h, f, 3);
                let v1 = corner_point(x, y, h, f, 4);
                let v2 = corner_point(x, y, h, f, 5);
                assert(v0 == (x + 1, y + 1, 0int));
                assert(v1 == (x, y + 1, h));
                assert(v2 == (x + 1, y + 1, h));
                let e1 = ivec_sub(v1, v0);
                let e2 = ivec_sub(v2, v0);
                assert(e1 == (-1int, 0int, h));
                assert(e2 == (0int, 0int, h));
                assert(ivec_cross(e1, e2) == (0int, h, 0int)) by (nonlinear_arith)
                    requires
                        e1 == (-1int, 0int, h),
                        e2 == (0int, 0int, h),
                ;
                assert(triangle_cross(x, y, h, f, t) == ivec_cross(e1, e2));
                let ax = face_axis(f);
                assert(ax == (0int, 1int, 0int));
                assert(ivec_scale(h, ax) == (0int, h, 0int)) by (nonlinear_arith)
                    requires
                        ax == (0int, 1int, 0int),
                ;
                assert(ivec_scale(h, face_axis(f)) == (0int, h, 0int));
            }
        },
        Face::Left => {
            if t == 0 {
                let v0 = corner_point(x, y, h, f, 0);
                let v1 = corner_point(x, y, h, f, 1);
                let v2 = corner_point(x, y, h, f, 2);
                assert(v0 == (x, y, 0int));
                assert(v1 == (x, y, h));
                assert(v2 == (x, y + 1, 0int));
                let e1 = ivec_sub(v1, v0);
                let e2 = ivec_sub(v2, v0);
                assert(e1 == (0int, 0int, h));
                assert(e2 == (0int, 1int, 0int));
                assert(ivec_cross(e1, e2) == ((-h), 0int, 0int)) by (nonlinear_arith)
                    requires
                        e1 == (0int, 0int, h),
                        e2 == (0int, 1int, 0int),
                ;
                assert(triangle_cross(x, y, h, f, t) == ivec_cross(e1, e2));
                let ax = face_axis(f);
                assert(ax == (-1int, 0int, 0int));
                assert(ivec_scale(h, ax) == ((-h), 0int, 0int)) by (nonlinear_arith)
                    requires
                        ax == (-1int, 0int, 0int),
                ;
                assert(ivec_scale(h, face_axis(f)) == ((-h), 0int, 0int));
            } else {
                let v0 = corner_point(x, y, h, f, 3);
                let v1 = corner_point(x, y, h, f, 4);
                let v2 = corner_point(x, y, h, f, 5);
                assert(v0 == (x, y + 1, 0int));
                assert(v1 == (x, y, h));
                assert(v2 == (x, y + 1, h));
                let e1 = ivec_sub(v1, v0);
                let e2 = ivec_sub(v2, v0);
                assert(e1 == (0int, -1int, h));
                assert(e2 == (0int, 0int, h));
                assert(ivec_cross(e1, e2) == ((-h), 0int, 0int)) by (nonlinear_arith)
                    requires
                        e1 == (0int, -1int, h),
                        e2 == (0int, 0int, h),
                ;
                assert(triangle_cross(x, y, h, f, t) == ivec_cross(e1, e2));
                let ax = face_axis(f);
                assert(ax == (-1int, 0int, 0int));
                assert(ivec_scale(h, ax) == ((-h), 0int, 0int)) by (nonlinear_arith)
                    requires
                        ax == (-1int, 0int, 0int),
                ;
                assert(ivec_scale(h, face_axis(f)) == ((-h), 0int, 0int));
            }
        },
        Face::Right => {
            if t == 0 {
                let v0 = corner_point(x, y, h, f, 0);
                let v1 = corner_point(x, y, h, f, 1);
                let v2 = corner_point(x, y, h, f, 2);
                assert(v0 == (x + 1, y, 0int));
                assert(v1 == (x + 1, y + 1, 0int));
                assert(v2 == (x + 1, y, h));
                let e1 = ivec_sub(v1, v0);
                let e2 = ivec_sub(v2, v0);
                assert(e1 == (0int, 1int, 0int));
                assert(e2 == (0int, 0int, h));
                assert(ivec_cross(e1, e2) == (h, 0int, 0int)) by (nonlinear_arith)
                    requires
                        e1 == (0int, 1int, 0int),
                        e2 == (0int, 0int, h),
                ;
                assert(triangle_cross(x, y, h, f, t) == ivec_cross(e1, e2));
                let ax = face_axis(f);
                assert(ax == (1int, 0int, 0int));
                assert(ivec_scale(h, ax) == (h, 0int, 0int)) by (nonlinear_arith)
                    requires
                        ax == (1int, 0int, 0int),
                ;
                assert(ivec_scale(h, face_axis(f)) == (h, 0int, 0int));
            } else {
                let v0 = corner_point(x, y, h, f, 3);
                let v1 = corner_point(x, y, h, f, 4);
                let v2 = corner_point(x, y, h, f, 5);
                assert(v0 == (x + 1, y + 1, 0int));
                assert(v1 == (x + 1, y + 1, h));
                assert(v2 == (x + 1, y, h));
                let e1 = ivec_sub(v1, v0);
                let e2 = ivec_sub(v2, v0);
                assert(e1 == (0int, 0int, h));
                assert(e2 == (0int, -1int, h));
                assert(ivec_cross(e1, e2) == (h, 0int, 0int)) by (nonlinear_arith)
                    requires
                        e1 == (0int, 0int, h),
                        e2 == (0int, -1int, h),
                ;
                assert(triangle_cross(x, y, h, f, t) == ivec_cross(e1, e2));
                let ax = face_axis(f);
                assert(ax == (1int, 0int, 0int));
                assert(ivec_scale(h, ax) == (h, 0int, 0int)) by (nonlinear_arith)
                    requires
                        ax == (1int, 0int, 0int),
                ;
                assert(ivec_scale(h, face_axis(f)) == (h, 0int, 0int));
            }
        },
    }
}

/// Each emitted vertex position carries exactly the encodings of its
/// corner point: the cell coordinates plus the corner offsets, and the
/// given height encoding (or zero) for the vertical component.  This ties
/// the winding statement, made over exact corner coordinates, to the
/// emitted data.
pub proof fn lemma_face_vertex_encodes_corner(
    x: int,
    y: int,
    p: Pixel,
    height_bits: u32,
    f: Face,
    k: int,
)
    requires
        0 <= k < 6,
    ensures
        ({
            let c = face_corner(f, k);
            let v = spec_face_vertices(x, y, p, height_bits, f)[k];
            &&& v.position.x == crate::scalar::scalar_of_uint((x + c.0) as u32)
            &&& v.position.y == crate::scalar::scalar_of_uint((y + c.1) as u32)
            &&& v.position.z == (if c.2 == 1 {
                height_bits
            } else {
                crate::scalar::SCALAR_ZERO
            })
            &&& v.normal == face_normal(f)
        }),
{
}

/// The generator is deterministic: two vertex sequences generated from
/// one image, classifier and height are equal.  The executable generator
/// is verified to return exactly this specification value, so re-running
/// it on unchanged input yields identical output.
pub proof fn lemma_generation_deterministic(
    img: Image,
    classifier: PixelClassifier,
    height_bits: u32,
    v1: Seq<Vertex>,
    v2: Seq<Vertex>,
)
    requires
        v1 == spec_image_vertices(img, classifier, height_bits),
        v2 == spec_image_vertices(img, classifier, height_bits),
    ensures
        v1 == v2,
{
}

/// Container assembly is deterministic: two successful containers
/// assembled from one metadata text and one vertex sequence — each
/// holding what `create_glb` is verified to return — carry one total
/// length and byte-identical output.
pub proof fn lemma_container_deterministic(json: Seq<u8>, vertices: Seq<Vertex>, g1: Glb, g2: Glb)
    requires
        g1.json@ == json + Seq::new(
            (spec_pad4(json.len() as int) - json.len()) as nat,
            |i: int| 32u8,
        ),
        g2.json@ == json + Seq::new(
            (spec_pad4(json.len() as int) - json.len()) as nat,
            |i: int| 32u8,
        ),
        g1.bin@ == packed_bytes(vertices),
        g2.bin@ == packed_bytes(vertices),
        g1.length == crate::container::spec_total_glb_len(json.len() as int, vertices.len() as int),
        g2.length == crate::container::spec_total_glb_len(json.len() as int, vertices.len() as int),
    ensures
        g1.length == g2.length,
        crate::container::spec_glb_bytes(g1) == crate::container::spec_glb_bytes(g2),
{
}

/// A fully transparent image of any size generates no vertices at all.
pub proof fn lemma_transparent_image_empty(
    img: Image,
    classifier: PixelClassifier,
    height_bits: u32,
)
    requires
        img.wf(),
        forall|i: int|
            0 <= i < img.pixels@.len() ==> spec_is_empty_pixel(
                classifier,
                #[trigger] img.pixels@[i],
            ),
    ensures
        spec_image_vertices(img, classifier, height_bits) == Seq::<Vertex>::empty(),
{
    lemma_transparent_grid_empty(img, classifier, height_bits, img.height as int);
}

/// Row prefixes of a fully transparent image generate nothing.
proof fn lemma_transparent_row_empty(
    img: Image,
    classifier: PixelClassifier,
    height_bits: u32,
    y: int,
    n: int,
)
    requires
        img.wf(),
        0 <= y < img.height as int,
        n <= img.width as int,
        forall|i: int|
            0 <= i < img.pixels@.len() ==> spec_is_empty_pixel(
                classifier,
                #[trigger] img.pixels@[i],
            ),
    ensures
        spec_row_vertices(img, classifier, height_bits, y, n) == Seq::<Vertex>::empty(),
    decreases n,
{
    if n <= 0 {
    } else {
        lemma_transparent_row_empty(img, classifier, height_bits, y, n - 1);
        crate::pixel::lemma_row_major_index_in_range(
            img.width as int,
            img.height as int,
            n - 1,
            y,
        );
        assert(spec_is_empty_pixel(classifier, img.spec_pixel(n - 1, y)));
        assert(spec_row_vertices(img, classifier, height_bits, y, n) =~= Seq::<Vertex>::empty());
    }
}

/// Grid prefixes of a fully transparent image generate nothing.
proof fn lemma_transparent_grid_empty(
    img: Image,
    classifier: PixelClassifier,
    height_bits: u32,
    m: int,
)
    requires
        img.wf(),
        m <= img.height as int,
        forall|i: int|
            0 <= i < img.pixels@.len() ==> spec_is_empty_pixel(
                classifier,
                #[trigger] img.pixels@[i],
            ),
    ensures
        spec_grid_vertices(img, classifier, height_bits, m) == Seq::<Vertex>::empty(),
    decreases m,
{
    if m <= 0 {
    } else {
        lemma_transparent_grid_empty(img, classifier, height_bits, m - 1);
        lemma_transparent_row_empty(img, classifier, height_bits, m - 1, img.width as int);
        assert(spec_grid_vertices(img, classifier, height_bits, m) =~= Seq::<Vertex>::empty());
    }
}

} // verus!
