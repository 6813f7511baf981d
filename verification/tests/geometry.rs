//! Mesh generation: culling, per-face emission, bounds and determinism.

use voxelify::bounding_coords;
use voxelify::create_pixel_verticies;
use voxelify::cull_faces;
use voxelify::image_to_vertices;
use voxelify::is_empty_pixel;
use voxelify::Face;
use voxelify::Image;
use voxelify::Pixel;
use voxelify::PixelClassifier;
use voxelify::Vertex;

fn solid() -> Pixel {
    Pixel::opaque(200, 100, 50)
}

fn black() -> Pixel {
    Pixel::opaque(0, 0, 0)
}

fn image(width: u32, height: u32, pixels: Vec<Pixel>) -> Image {
    Image::new(width, height, pixels).expect("pixel count must match the dimensions")
}

fn fv(v: &Vertex) -> [f32; 9] {
    [
        f32::from_bits(v.position.x),
        f32::from_bits(v.position.y),
        f32::from_bits(v.position.z),
        f32::from_bits(v.normal.x),
        f32::from_bits(v.normal.y),
        f32::from_bits(v.normal.z),
        f32::from_bits(v.color.x),
        f32::from_bits(v.color.y),
        f32::from_bits(v.color.z),
    ]
}

#[test]
fn classifier_conventions_differ_on_transparent_red() {
    let p = Pixel { r: 255, g: 0, b: 0, a: 0 };
    assert!(is_empty_pixel(PixelClassifier::AlphaZero, &p));
    assert!(!is_empty_pixel(PixelClassifier::PureBlack, &p));
    let q = Pixel::opaque(0, 0, 0);
    assert!(!is_empty_pixel(PixelClassifier::AlphaZero, &q));
    assert!(is_empty_pixel(PixelClassifier::PureBlack, &q));
}

#[test]
fn single_pixel_cube_has_six_faces_and_exact_bounds() {
    // A 1-by-1 fully opaque image at height 2.0: 6 faces, 36 vertices,
    // position bounds (0, 0, 0)..(1, 1, 2).
    let img = image(1, 1, vec![solid()]);
    let verts = image_to_vertices(&img, (2.0f32).to_bits(), PixelClassifier::PureBlack);
    assert_eq!(verts.len(), 36);
    let (min, max) = bounding_coords(&verts);
    assert_eq!(f32::from_bits(min.x), 0.0);
    assert_eq!(f32::from_bits(min.y), 0.0);
    assert_eq!(f32::from_bits(min.z), 0.0);
    assert_eq!(f32::from_bits(max.x), 1.0);
    assert_eq!(f32::from_bits(max.y), 1.0);
    assert_eq!(f32::from_bits(max.z), 2.0);
}

#[test]
fn two_opaque_pixels_cull_the_shared_edge() {
    // Both sides of the shared internal edge are culled: 2 * 6 - 2 = 10
    // faces, 60 vertices.
    let img = image(2, 1, vec![solid(), solid()]);
    let verts = image_to_vertices(&img, (2.0f32).to_bits(), PixelClassifier::PureBlack);
    assert_eq!(verts.len(), 10 * 6);
    let faces0 = cull_faces(&img, PixelClassifier::PureBlack, 0, 0);
    let faces1 = cull_faces(&img, PixelClassifier::PureBlack, 1, 0);
    assert_eq!(
        faces0,
        vec![Face::Up, Face::Down, Face::Forward, Face::Back, Face::Left]
    );
    assert_eq!(
        faces1,
        vec![Face::Up, Face::Down, Face::Forward, Face::Back, Face::Right]
    );
}

#[test]
fn one_pixel_wide_image_emits_both_opposing_faces() {
    // On an axis where the image is one pixel wide, both boundary faces
    // are visible at once.
    let img = image(1, 3, vec![solid(), solid(), solid()]);
    let faces = cull_faces(&img, PixelClassifier::PureBlack, 0, 1);
    assert!(faces.contains(&Face::Left));
    assert!(faces.contains(&Face::Right));
    assert!(!faces.contains(&Face::Forward));
    assert!(!faces.contains(&Face::Back));
}

#[test]
fn interior_pixel_faces_follow_empty_neighbors() {
    // The middle pixel of a plus-shaped neighborhood: solid left and
    // right neighbors hide the lateral x faces, empty rows above and
    // below leave the y faces visible.
    let rows = vec![
        black(), solid(), black(),
        solid(), solid(), solid(),
        black(), solid(), black(),
    ];
    let img = image(3, 3, rows);
    let faces = cull_faces(&img, PixelClassifier::PureBlack, 1, 1);
    assert_eq!(faces, vec![Face::Up, Face::Down]);
    let edge = cull_faces(&img, PixelClassifier::PureBlack, 0, 1);
    assert_eq!(
        edge,
        vec![Face::Up, Face::Down, Face::Forward, Face::Back, Face::Left]
    );
}

#[test]
fn empty_pixels_emit_nothing() {
    // A fully transparent image of any size yields zero vertices.
    let img = image(4, 3, vec![black(); 12]);
    let verts = image_to_vertices(&img, (2.0f32).to_bits(), PixelClassifier::PureBlack);
    assert_eq!(verts.len(), 0);
}

#[test]
fn full_cube_lists_all_six_faces_in_order() {
    let height = (3.0f32).to_bits();
    let v = create_pixel_verticies(2, 5, &solid(), height);
    assert_eq!(v.len(), 36);
    // Block order: Up, Down, Forward, Back, Left, Right — read off the
    // normals.
    let expected_normals = [
        [0.0f32, 0.0, 1.0],
        [0.0, 0.0, -1.0],
        [0.0, -1.0, 0.0],
        [0.0, 1.0, 0.0],
        [-1.0, 0.0, 0.0],
        [1.0, 0.0, 0.0],
    ];
    for (block, expected) in expected_normals.iter().enumerate() {
        for k in 0..6 {
            let w = fv(&v[6 * block + k]);
            assert_eq!(&w[3..6], expected, "block {} vertex {}", block, k);
        }
    }
    // The Up cap's first triangle spans the unit square at the extruded
    // height.
    assert_eq!(&fv(&v[0])[0..3], &[2.0, 5.0, 3.0]);
    assert_eq!(&fv(&v[1])[0..3], &[3.0, 5.0, 3.0]);
    assert_eq!(&fv(&v[2])[0..3], &[2.0, 6.0, 3.0]);
}

#[test]
fn cube_colors_scale_the_channels() {
    let v = create_pixel_verticies(0, 0, &Pixel::opaque(255, 128, 0), (1.0f32).to_bits());
    for w in v.iter() {
        assert_eq!(f32::from_bits(w.color.x), 1.0);
        assert_eq!(f32::from_bits(w.color.y), 128.0f32 / 255.0);
        assert_eq!(f32::from_bits(w.color.z), 0.0);
    }
}

#[test]
fn every_face_block_winds_along_its_normal() {
    // The cross product of each triangle's edge vectors points along the
    // block's declared normal.
    let img = image(2, 2, vec![solid(), black(), solid(), solid()]);
    let verts = image_to_vertices(&img, (2.0f32).to_bits(), PixelClassifier::PureBlack);
    assert_eq!(verts.len() % 6, 0);
    for tri in verts.chunks(3) {
        let a = fv(&tri[0]);
        let b = fv(&tri[1]);
        let c = fv(&tri[2]);
        let e1 = [b[0] - a[0], b[1] - a[1], b[2] - a[2]];
        let e2 = [c[0] - a[0], c[1] - a[1], c[2] - a[2]];
        let cross = [
            e1[1] * e2[2] - e1[2] * e2[1],
            e1[2] * e2[0] - e1[0] * e2[2],
            e1[0] * e2[1] - e1[1] * e2[0],
        ];
        let n = &a[3..6];
        let dot = cross[0] * n[0] + cross[1] * n[1] + cross[2] * n[2];
        assert!(dot > 0.0, "triangle winds against its normal");
        // The normal is an axis unit vector shared by the whole triangle.
        assert_eq!(n, &fv(&tri[1])[3..6]);
        assert_eq!(n, &fv(&tri[2])[3..6]);
        assert_eq!(n.iter().map(|v| v.abs()).sum::<f32>(), 1.0);
    }
}

#[test]
fn generation_is_deterministic() {
    let pixels = vec![
        solid(), black(), Pixel::opaque(1, 2, 3),
        black(), solid(), Pixel::opaque(9, 8, 7),
    ];
    let img1 = image(3, 2, pixels.clone());
    let img2 = image(3, 2, pixels);
    let h = (1.5f32).to_bits();
    let v1 = image_to_vertices(&img1, h, PixelClassifier::PureBlack);
    let v2 = image_to_vertices(&img2, h, PixelClassifier::PureBlack);
    assert_eq!(v1, v2);
}

#[test]
fn bounds_of_no_vertices_are_all_zero() {
    let verts: Vec<Vertex> = Vec::new();
    let (min, max) = bounding_coords(&verts);
    assert_eq!((min.x, min.y, min.z), (0, 0, 0));
    assert_eq!((max.x, max.y, max.z), (0, 0, 0));
}
