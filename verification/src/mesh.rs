//! Mesh generation: one unit cube per solid pixel, extruded to the given
//! height, with hidden faces culled.
//!
//! Every face is emitted as 6 vertices (2 triangles) from a fixed per-face
//! table of corner offsets and an outward unit normal.  Coordinates and
//! colors are produced as single-precision encodings (see `scalar`).

use crate::pixel::Image;
use crate::pixel::Pixel;
use crate::pixel::PixelClassifier;
use crate::pixel::is_empty_pixel;
use crate::pixel::spec_is_empty_pixel;
use crate::scalar::SCALAR_NEG_ONE;
use crate::scalar::SCALAR_ONE;
use crate::scalar::SCALAR_ZERO;
use crate::scalar::scalar_of_channel;
use crate::scalar::scalar_of_uint;
use crate::scalar::channel_to_scalar;
use crate::scalar::uint_to_scalar;
use vstd::prelude::*;

verus! {

/// Three single-precision encodings: a point, a direction or a color.
#[derive(Clone, Copy, Debug, PartialEq, Eq, Structural)]
pub struct Vec3Bits {
    pub x: u32,
    pub y: u32,
    pub z: u32,
}

/// One mesh vertex: position in model units (pixels), outward unit normal,
/// and color with channels scaled into [0, 1].  All nine components are
/// single-precision encodings.
#[derive(Clone, Copy, Debug, PartialEq, Eq, Structural)]
pub struct Vertex {
    pub position: Vec3Bits,
    pub normal: Vec3Bits,
    pub color: Vec3Bits,
}

/// The six faces of a voxel.  `Up` is the cap at the extruded height,
/// `Down` the cap at zero; `Forward` faces the lower image rows, `Back`
/// the higher; `Left` and `Right` face the lower and higher columns.
#[derive(Clone, Copy, Debug, PartialEq, Eq, Structural)]
pub enum Face {
    Up,
    Down,
    Forward,
    Back,
    Left,
    Right,
}

/// The outward unit normal of a face, encoded.
pub open spec fn face_normal(f: Face) -> Vec3Bits {
    match f {
        Face::Up => Vec3Bits { x: SCALAR_ZERO, y: SCALAR_ZERO, z: SCALAR_ONE },
        Face::Down => Vec3Bits { x: SCALAR_ZERO, y: SCALAR_ZERO, z: SCALAR_NEG_ONE },
        Face::Forward => Vec3Bits { x: SCALAR_ZERO, y: SCALAR_NEG_ONE, z: SCALAR_ZERO },
        Face::Back => Vec3Bits { x: SCALAR_ZERO, y: SCALAR_ONE, z: SCALAR_ZERO },
        Face::Left => Vec3Bits { x: SCALAR_NEG_ONE, y: SCALAR_ZERO, z: SCALAR_ZERO },
        Face::Right => Vec3Bits { x: SCALAR_ONE, y: SCALAR_ZERO, z: SCALAR_ZERO },
    }
}

/// Corner offsets of vertex `k` of face `f`: column offset and row offset
/// in {0, 1}, and 1 when the corner sits at the extruded height rather
/// than at zero.  The order of the six corners fixes the winding of the
/// two triangles, outward per face.
pub open spec fn face_corner(f: Face, k: int) -> (int, int, int) {
    match f {
        Face::Up => seq![(0, 0, 1), (1, 0, 1), (0, 1, 1), (0, 1, 1), (1, 0, 1), (1, 1, 1)][k],
        Face::Down => seq![(0, 0, 0), (0, 1, 0), (1, 0, 0), (0, 1, 0), (1, 1, 0), (1, 0, 0)][k],
        Face::Forward => seq![(0, 0, 0), (1, 0, 0), (0, 0, 1), (0, 0, 1), (1, 0, 0), (1, 0, 1)][k],
        Face::Back => seq![(0, 1, 0), (0, 1, 1), (1, 1, 0), (1, 1, 0), (0, 1, 1), (1, 1, 1)][k],
        Face::Left => seq![(0, 0, 0), (0, 0, 1), (0, 1, 0), (0, 1, 0), (0, 0, 1), (0, 1, 1)][k],
        Face::Right => seq![(1, 0, 0), (1, 1, 0), (1, 0, 1), (1, 1, 0), (1, 1, 1), (1, 0, 1)][k],
    }
}

/// The encoded color of a pixel: each 8-bit channel scaled into [0, 1].
pub open spec fn spec_pixel_color(p: Pixel) -> Vec3Bits {
    Vec3Bits {
        x: scalar_of_channel(p.r),
        y: scalar_of_channel(p.g),
        z: scalar_of_channel(p.b),
    }
}

/// Vertex `k` of face `f` of the unit cube over the cell at column `x`,
/// row `y`, with the cap at the height encoded by `height_bits`.
pub open spec fn spec_face_vertex(
    x: int,
    y: int,
    p: Pixel,
    height_bits: u32,
    f: Face,
    k: int,
) -> Vertex {
    let c = face_corner(f, k);
    Vertex {
        position: Vec3Bits {
            x: scalar_of_uint((x + c.0) as u32),
            y: scalar_of_uint((y + c.1) as u32),
            z: if c.2 == 1 {
                height_bits
            } else {
                SCALAR_ZERO
            },
        },
        normal: face_normal(f),
        color: spec_pixel_color(p),
    }
}

/// The six vertices (two triangles) of face `f` of the cell at (`x`, `y`).
pub open spec fn spec_face_vertices(
    x: int,
    y: int,
    p: Pixel,
    height_bits: u32,
    f: Face,
) -> Seq<Vertex> {
    Seq::new(6, |k: int| spec_face_vertex(x, y, p, height_bits, f, k))
}

/// Emits the 6 vertices of one face of the cell at column `x`, row `y`,
/// colored by `color`, capped at the height encoded by `height_bits`.
pub fn create_pixel_verticies_face(
    x: u32,
    y: u32,
    color: &Pixel,
    height_bits: u32,
    face: Face,
) -> (v: Vec<Vertex>)
    requires
        x < u32::MAX,
        y < u32::MAX,
    ensures
        v@ == spec_face_vertices(x as int, y as int, *color, height_bits, face),
{
    let x0 = uint_to_scalar(x);
    let x1 = uint_to_scalar(x + 1);
    let y0 = uint_to_scalar(y);
    let y1 = uint_to_scalar(y + 1);
    let z0 = SCALAR_ZERO;
    let z1 = height_bits;
    let col = Vec3Bits {
        x: channel_to_scalar(color.r),
        y: channel_to_scalar(color.g),
        z: channel_to_scalar(color.b),
    };
    let n = match face {
        Face::Up => Vec3Bits { x: SCALAR_ZERO, y: SCALAR_ZERO, z: SCALAR_ONE },
        Face::Down => Vec3Bits { x: SCALAR_ZERO, y: SCALAR_ZERO, z: SCALAR_NEG_ONE },
        Face::Forward => Vec3Bits { x: SCALAR_ZERO, y: SCALAR_NEG_ONE, z: SCALAR_ZERO },
        Face::Back => Vec3Bits { x: SCALAR_ZERO, y: SCALAR_ONE, z: SCALAR_ZERO },
        Face::Left => Vec3Bits { x: SCALAR_NEG_ONE, y: SCALAR_ZERO, z: SCALAR_ZERO },
        Face::Right => Vec3Bits { x: SCALAR_ONE, y: SCALAR_ZERO, z: SCALAR_ZERO },
    };
    let v: Vec<Vertex> = match face {
        Face::Up => vec![
            Vertex { position: Vec3Bits { x: x0, y: y0, z: z1 }, normal: n, color: col },
            Vertex { position: Vec3Bits { x: x1, y: y0, z: z1 }, normal: n, color: col },
            Vertex { position: Vec3Bits { x: x0, y: y1, z: z1 }, normal: n, color: col },
            Vertex { position: Vec3Bits { x: x0, y: y1, z: z1 }, normal: n, color: col },
            Vertex { position: Vec3Bits { x: x1, y: y0, z: z1 }, normal: n, color: col },
            Vertex { position: Vec3Bits { x: x1, y: y1, z: z1 }, normal: n, color: col },
        ],
        Face::Down => vec![
            Vertex { position: Vec3Bits { x: x0, y: y0, z: z0 }, normal: n, color: col },
            Vertex { position: Vec3Bits { x: x0, y: y1, z: z0 }, normal: n, color: col },
            Vertex { position: Vec3Bits { x: x1, y: y0, z: z0 }, normal: n, color: col },
            Vertex { position: Vec3Bits { x: x0, y: y1, z: z0 }, normal: n, color: col },
            Vertex { position: Vec3Bits { x: x1, y: y1, z: z0 }, normal: n, color: col },
            Vertex { position: Vec3Bits { x: x1, y: y0, z: z0 }, normal: n, color: col },
        ],
        Face::Forward => vec![
            Vertex { position: Vec3Bits { x: x0, y: y0, z: z0 }, normal: n, color: col },
            Vertex { position: Vec3Bits { x: x1, y: y0, z: z0 }, normal: n, color: col },
            Vertex { position: Vec3Bits { x: x0, y: y0, z: z1 }, normal: n, color: col },
            Vertex { position: Vec3Bits { x: x0, y: y0, z: z1 }, normal: n, color: col },
            Vertex { position: Vec3Bits { x: x1, y: y0, z: z0 }, normal: n, color: col },
            Vertex { position: Vec3Bits { x: x1, y: y0, z: z1 }, normal: n, color: col },
        ],
        Face::Back => vec![
            Vertex { position: Vec3Bits { x: x0, y: y1, z: z0 }, normal: n, color: col },
            Vertex { position: Vec3Bits { x: x0, y: y1, z: z1 }, normal: n, color: col },
            Vertex { position: Vec3Bits { x: x1, y: y1, z: z0 }, normal: n, color: col },
            Vertex { position: Vec3Bits { x: x1, y: y1, z: z0 }, normal: n, color: col },
            Vertex { position: Vec3Bits { x: x0, y: y1, z: z1 }, normal: n, color: col },
            Vertex { position: Vec3Bits { x: x1, y: y1, z: z1 }, normal: n, color: col },
        ],
        Face::Left => vec![
            Vertex { position: Vec3Bits { x: x0, y: y0, z: z0 }, normal: n, color: col },
            Vertex { position: Vec3Bits { x: x0, y: y0, z: z1 }, normal: n, color: col },
            Vertex { position: Vec3Bits { x: x0, y: y1, z: z0 }, normal: n, color: col },
            Vertex { position: Vec3Bits { x: x0, y: y1, z: z0 }, normal: n, color: col },
            Vertex { position: Vec3Bits { x: x0, y: y0, z: z1 }, normal: n, color: col },
            Vertex { position: Vec3Bits { x: x0, y: y1, z: z1 }, normal: n, color: col },
        ],
        Face::Right => vec![
            Vertex { position: Vec3Bits { x: x1, y: y0, z: z0 }, normal: n, color: col },
            Vertex { position: Vec3Bits { x: x1, y: y1, z: z0 }, normal: n, color: col },
            Vertex { position: Vec3Bits { x: x1, y: y0, z: z1 }, normal: n, color: col },
            Vertex { position: Vec3Bits { x: x1, y: y1, z: z0 }, normal: n, color: col },
            Vertex { position: Vec3Bits { x: x1, y: y1, z: z1 }, normal: n, color: col },
            Vertex { position: Vec3Bits { x: x1, y: y0, z: z1 }, normal: n, color: col },
        ],
    };
    proof {
        assert(v@ =~= spec_face_vertices(x as int, y as int, *color, height_bits, face));
    }
    v
}

/// The vertices of all six faces of the cell at (`x`, `y`), unculled, in
/// the order Up, Down, Forward, Back, Left, Right.
pub open spec fn spec_cube_vertices(x: int, y: int, p: Pixel, height_bits: u32) -> Seq<Vertex> {
    spec_face_vertices(x, y, p, height_bits, Face::Up) + spec_face_vertices(
        x,
        y,
        p,
        height_bits,
        Face::Down,
    ) + spec_face_vertices(x, y, p, height_bits, Face::Forward) + spec_face_vertices(
        x,
        y,
        p,
        height_bits,
        Face::Back,
    ) + spec_face_vertices(x, y, p, height_bits, Face::Left) + spec_face_vertices(
        x,
        y,
        p,
        height_bits,
        Face::Right,
    )
}

/// Converts the cell at column `x`, row `y` to a full cube of 36 vertices
/// (6 faces, none culled), colored by `color`, with the cap at the height
/// encoded by `height_bits`.
pub fn create_pixel_verticies(x: u32, y: u32, color: &Pixel, height_bits: u32) -> (v: Vec<Vertex>)
    requires
        x < u32::MAX,
        y < u32::MAX,
    ensures
        v@ == spec_cube_vertices(x as int, y as int, *color, height_bits),
{
    let mut v = create_pixel_verticies_face(x, y, color, height_bits, Face::Up);
    let mut rest = create_pixel_verticies_face(x, y, color, height_bits, Face::Down);
    v.append(&mut rest);
    let mut rest = create_pixel_verticies_face(x, y, color, height_bits, Face::Forward);
    v.append(&mut rest);
    let mut rest = create_pixel_verticies_face(x, y, color, height_bits, Face::Back);
    v.append(&mut rest);
    let mut rest = create_pixel_verticies_face(x, y, color, height_bits, Face::Left);
    v.append(&mut rest);
    let mut rest = create_pixel_verticies_face(x, y, color, height_bits, Face::Right);
    v.append(&mut rest);
    v
}

/// Whether face `f` of the solid cell at (`x`, `y`) is visible.  The two
/// caps always are.  A lateral face is visible when the cell sits on that
/// face's image boundary (nothing can occlude an edge pixel), or when the
/// single adjacent pixel across that face is classified empty — a plain
/// 2D four-neighbor test.  On an axis where the image is one pixel wide,
/// both opposing faces are boundary faces and both are visible.
pub open spec fn spec_face_visible(
    img: Image,
    classifier: PixelClassifier,
    x: int,
    y: int,
    f: Face,
) -> bool {
    match f {
        Face::Up => true,
        Face::Down => true,
        Face::Forward => y == 0 || spec_is_empty_pixel(classifier, img.spec_pixel(x, y - 1)),
        Face::Back => y == img.height - 1 || spec_is_empty_pixel(
            classifier,
            img.spec_pixel(x, y + 1),
        ),
        Face::Left => x == 0 || spec_is_empty_pixel(classifier, img.spec_pixel(x - 1, y)),
        Face::Right => x == img.width - 1 || spec_is_empty_pixel(
            classifier,
            img.spec_pixel(x + 1, y),
        ),
    }
}

/// A one-face sequence when `b` holds, else an empty one.
pub open spec fn face_if(b: bool, f: Face) -> Seq<Face> {
    if b {
        seq![f]
    } else {
        Seq::empty()
    }
}

/// The visible faces of the solid cell at (`x`, `y`), in the fixed order
/// Up, Down, Forward, Back, Left, Right.
pub open spec fn spec_visible_faces(
    img: Image,
    classifier: PixelClassifier,
    x: int,
    y: int,
) -> Seq<Face> {
    seq![Face::Up, Face::Down] + face_if(
        spec_face_visible(img, classifier, x, y, Face::Forward),
        Face::Forward,
    ) + face_if(spec_face_visible(img, classifier, x, y, Face::Back), Face::Back) + face_if(
        spec_face_visible(img, classifier, x, y, Face::Left),
        Face::Left,
    ) + face_if(spec_face_visible(img, classifier, x, y, Face::Right), Face::Right)
}

/// Returns the faces that should be visible for the cell at column `x`,
/// row `y` of `image`.
pub fn cull_faces(image: &Image, classifier: PixelClassifier, x: u32, y: u32) -> (faces: Vec<Face>)
    requires
        image.wf(),
        x < image.width,
        y < image.height,
    ensures
        faces@ == spec_visible_faces(*image, classifier, x as int, y as int),
{
    let mut faces: Vec<Face> = Vec::new();
    faces.push(Face::Up);
    faces.push(Face::Down);
    if y == 0 || is_empty_pixel(classifier, &image.pixel(x, y - 1)) {
        faces.push(Face::Forward);
    }
    if y == image.height - 1 || is_empty_pixel(classifier, &image.pixel(x, y + 1)) {
        faces.push(Face::Back);
    }
    if x == 0 || is_empty_pixel(classifier, &image.pixel(x - 1, y)) {
        faces.push(Face::Left);
    }
    if x == image.width - 1 || is_empty_pixel(classifier, &image.pixel(x + 1, y)) {
        faces.push(Face::Right);
    }
    proof {
        assert(faces@ =~= spec_visible_faces(*image, classifier, x as int, y as int));
    }
    faces
}

/// The vertices of the listed faces of the cell at (`x`, `y`), in list
/// order.
pub open spec fn spec_faces_vertices(
    x: int,
    y: int,
    p: Pixel,
    height_bits: u32,
    faces: Seq<Face>,
) -> Seq<Vertex>
    decreases faces.len(),
{
    if faces.len() == 0 {
        Seq::empty()
    } else {
        spec_faces_vertices(x, y, p, height_bits, faces.drop_last()) + spec_face_vertices(
            x,
            y,
            p,
            height_bits,
            faces.last(),
        )
    }
}

/// The vertices of the solid cell at (`x`, `y`): its visible faces in
/// order; an empty cell contributes nothing.
pub open spec fn spec_pixel_vertices(
    img: Image,
    classifier: PixelClassifier,
    height_bits: u32,
    x: int,
    y: int,
) -> Seq<Vertex> {
    if spec_is_empty_pixel(classifier, img.spec_pixel(x, y)) {
        Seq::empty()
    } else {
        spec_faces_vertices(x, y, img.spec_pixel(x, y), height_bits, spec_visible_faces(
            img,
            classifier,
            x,
            y,
        ))
    }
}

/// The vertices of the first `n` cells of row `y`, left to right.
pub open spec fn spec_row_vertices(
    img: Image,
    classifier: PixelClassifier,
    height_bits: u32,
    y: int,
    n: int,
) -> Seq<Vertex>
    decreases n,
{
    if n <= 0 {
        Seq::empty()
    } else {
        spec_row_vertices(img, classifier, height_bits, y, n - 1) + spec_pixel_vertices(
            img,
            classifier,
            height_bits,
            n - 1,
            y,
        )
    }
}

/// The vertices of the first `m` rows, top to bottom.
pub open spec fn spec_grid_vertices(
    img: Image,
    classifier: PixelClassifier,
    height_bits: u32,
    m: int,
) -> Seq<Vertex>
    decreases m,
{
    if m <= 0 {
        Seq::empty()
    } else {
        spec_grid_vertices(img, classifier, height_bits, m - 1) + spec_row_vertices(
            img,
            classifier,
            height_bits,
            m - 1,
            img.width as int,
        )
    }
}

/// All vertices of the mesh generated from `img`: cells scanned row-major
/// (rows outer, columns inner), solid cells emitting their visible faces.
pub open spec fn spec_image_vertices(
    img: Image,
    classifier: PixelClassifier,
    height_bits: u32,
) -> Seq<Vertex> {
    spec_grid_vertices(img, classifier, height_bits, img.height as int)
}

/// Converts an image to the list of vertices of its voxel mesh: one cube
/// per solid pixel, extruded to the height encoded by `height_bits`, with
/// faces hidden by solid neighbors culled.  Cells are scanned row-major,
/// which makes the output a function of the image alone.
pub fn image_to_vertices(image: &Image, height_bits: u32, classifier: PixelClassifier) -> (v: Vec<
    Vertex,
>)
    requires
        image.wf(),
    ensures
        v@ == spec_image_vertices(*image, classifier, height_bits),
{
    let mut v: Vec<Vertex> = Vec::new();
    let mut y: u32 = 0;
    while y < image.height
        invariant
            image.wf(),
            y <= image.height,
            v@ == spec_grid_vertices(*image, classifier, height_bits, y as int),
        decreases image.height - y,
    {
        let mut x: u32 = 0;
        while x < image.width
            invariant
                image.wf(),
                y < image.height,
                x <= image.width,
                v@ == spec_grid_vertices(*image, classifier, height_bits, y as int)
                    + spec_row_vertices(*image, classifier, height_bits, y as int, x as int),
            decreases image.width - x,
        {
            let ghost base = v@;
            let p = image.pixel(x, y);
            if !is_empty_pixel(classifier, &p) {
                let faces = cull_faces(image, classifier, x, y);
                let mut k: usize = 0;
                while k < faces.len()
                    invariant
                        k <= faces@.len(),
                        x < u32::MAX,
                        y < u32::MAX,
                        v@ == base + spec_faces_vertices(
                            x as int,
                            y as int,
                            p,
                            height_bits,
                            faces@.take(k as int),
                        ),
                    decreases faces@.len() - k,
                {
                    let mut fv = create_pixel_verticies_face(x, y, &p, height_bits, faces[k]);
                    v.append(&mut fv);
                    proof {
                        assert(faces@.take(k + 1).drop_last() =~= faces@.take(k as int));
                        assert(faces@.take(k + 1).last() == faces@[k as int]);
                    }
                    k = k + 1;
                }
                proof {
                    assert(faces@.take(faces@.len() as int) =~= faces@);
                }
            }
            proof {
                assert(v@ == base + spec_pixel_vertices(
                    *image,
                    classifier,
                    height_bits,
                    x as int,
                    y as int,
                ));
            }
            x = x + 1;
        }
        y = y + 1;
    }
    v
}

} // verus!
