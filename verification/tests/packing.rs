//! Byte packing: exact layout, alignment and the unpack round trip.

use voxelify::align_to_multiple_of_four;
use voxelify::generate_indices;
use voxelify::to_padded_byte_vector;
use voxelify::Vec3Bits;
use voxelify::Vertex;

fn vertex(seed: u32) -> Vertex {
    let f = |k: u32| (seed as f32 * 3.5 + k as f32 * 0.25).to_bits();
    Vertex {
        position: Vec3Bits { x: f(0), y: f(1), z: f(2) },
        normal: Vec3Bits { x: f(3), y: f(4), z: f(5) },
        color: Vec3Bits { x: f(6), y: f(7), z: f(8) },
    }
}

#[test]
fn packed_length_is_36_bytes_per_vertex_and_aligned() {
    for n in 0..10 {
        let verts: Vec<Vertex> = (0..n).map(vertex).collect();
        let bytes = to_padded_byte_vector(&verts);
        assert_eq!(bytes.len(), 36 * n as usize);
        assert_eq!(bytes.len() % 4, 0);
    }
}

#[test]
fn packing_then_unpacking_reproduces_every_attribute() {
    // Reading the packed bytes back as 9 little-endian floats per record
    // reproduces the original attributes exactly.
    let verts: Vec<Vertex> = (0..7).map(vertex).collect();
    let bytes = to_padded_byte_vector(&verts);
    assert_eq!(bytes.len(), 36 * verts.len());
    for (i, v) in verts.iter().enumerate() {
        let rec = &bytes[36 * i..36 * (i + 1)];
        let read = |k: usize| {
            f32::from_bits(u32::from_le_bytes([
                rec[4 * k],
                rec[4 * k + 1],
                rec[4 * k + 2],
                rec[4 * k + 3],
            ]))
        };
        let original = [
            v.position.x, v.position.y, v.position.z,
            v.normal.x, v.normal.y, v.normal.z,
            v.color.x, v.color.y, v.color.z,
        ];
        for (k, &bits) in original.iter().enumerate() {
            assert_eq!(read(k), f32::from_bits(bits), "record {} component {}", i, k);
        }
    }
}

#[test]
fn packed_bytes_are_little_endian_in_declaration_order() {
    let v = Vertex {
        position: Vec3Bits { x: 0x0403_0201, y: 0, z: 0 },
        normal: Vec3Bits { x: 0, y: 0, z: 0 },
        color: Vec3Bits { x: 0, y: 0, z: 0x0D0C_0B0A },
    };
    let bytes = to_padded_byte_vector(&vec![v]);
    assert_eq!(&bytes[0..4], &[0x01, 0x02, 0x03, 0x04]);
    assert_eq!(&bytes[32..36], &[0x0A, 0x0B, 0x0C, 0x0D]);
    assert!(bytes[4..32].iter().all(|&b| b == 0));
}

#[test]
fn alignment_rounds_up_to_the_next_multiple_of_four() {
    let cases = [(0usize, 0usize), (1, 4), (2, 4), (3, 4), (4, 4), (5, 8), (35, 36), (36, 36)];
    for &(input, expected) in cases.iter() {
        let mut n = input;
        align_to_multiple_of_four(&mut n);
        assert_eq!(n, expected, "align {}", input);
    }
}

#[test]
fn indices_cover_quads_as_two_triangles() {
    assert_eq!(
        generate_indices(8),
        vec![0, 1, 2, 0, 2, 3, 4, 5, 6, 4, 6, 7]
    );
    // A trailing partial quad contributes no indices.
    assert_eq!(generate_indices(7), vec![0, 1, 2, 0, 2, 3]);
    assert_eq!(generate_indices(3), Vec::<u32>::new());
    assert_eq!(generate_indices(0), Vec::<u32>::new());
}
