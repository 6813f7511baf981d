//! Metadata assembly, container framing, and the two error conditions.

use voxelify::compute_glb_length;
use voxelify::create_glb;
use voxelify::create_gltf_root;
use voxelify::glb_to_bytes;
use voxelify::image_to_vertices;
use voxelify::Image;
use voxelify::Pixel;
use voxelify::PixelClassifier;
use voxelify::Vec3Bits;
use voxelify::Vertex;
use voxelify::VoxelifyError;

fn sample_vertices(n: u32) -> Vec<Vertex> {
    (0..n)
        .map(|k| {
            let f = |j: u32| ((k * 9 + j) as f32).to_bits();
            Vertex {
                position: Vec3Bits { x: f(0), y: f(1), z: f(2) },
                normal: Vec3Bits { x: 0, y: 0, z: (1.0f32).to_bits() },
                color: Vec3Bits { x: f(6), y: f(7), z: f(8) },
            }
        })
        .collect()
}

#[test]
fn root_wires_the_entity_lists_bottom_up() {
    let verts = sample_vertices(4);
    let root = create_gltf_root(&verts, Some(String::from("payload.bin"))).unwrap();
    assert_eq!(root.buffers.len(), 1);
    assert_eq!(root.buffers[0].byte_length, 36 * 4);
    assert_eq!(root.buffers[0].uri.as_deref(), Some("payload.bin"));
    assert_eq!(root.buffer_views.len(), 1);
    assert_eq!(root.buffer_views[0].buffer, 0);
    assert_eq!(root.buffer_views[0].byte_length, 36 * 4);
    assert_eq!(root.buffer_views[0].byte_stride, 36);
    assert!(root.buffer_views[0].target_array_buffer);
    assert_eq!(root.accessors.len(), 3);
    let offsets: Vec<usize> = root.accessors.iter().map(|a| a.byte_offset).collect();
    assert_eq!(offsets, vec![0, 12, 24]);
    for a in root.accessors.iter() {
        assert_eq!(a.buffer_view, 0);
        assert_eq!(a.count, 4);
    }
    assert_eq!(root.meshes.len(), 1);
    assert_eq!(root.meshes[0].primitives.len(), 1);
    let prim = root.meshes[0].primitives[0];
    assert_eq!((prim.positions, prim.normals, prim.colors), (0, 1, 2));
    assert_eq!(root.nodes.len(), 1);
    assert_eq!(root.nodes[0].mesh, Some(0));
    assert_eq!(root.scenes.len(), 1);
    assert_eq!(root.scenes[0].nodes, vec![0]);
}

#[test]
fn position_accessor_carries_the_computed_bounds() {
    let verts = sample_vertices(2);
    let root = create_gltf_root(&verts, None).unwrap();
    let positions = &root.accessors[0];
    let min = positions.min.unwrap();
    let max = positions.max.unwrap();
    assert_eq!(f32::from_bits(min.x), 0.0);
    assert_eq!(f32::from_bits(min.y), 1.0);
    assert_eq!(f32::from_bits(min.z), 2.0);
    assert_eq!(f32::from_bits(max.x), 9.0);
    assert_eq!(f32::from_bits(max.y), 10.0);
    assert_eq!(f32::from_bits(max.z), 11.0);
}

#[test]
fn normal_accessor_declares_fixed_unit_bounds() {
    let root = create_gltf_root(&sample_vertices(1), None).unwrap();
    let normals = &root.accessors[1];
    let min = normals.min.unwrap();
    let max = normals.max.unwrap();
    for c in [min.x, min.y, min.z] {
        assert_eq!(f32::from_bits(c), -1.0);
    }
    for c in [max.x, max.y, max.z] {
        assert_eq!(f32::from_bits(c), 1.0);
    }
    let colors = &root.accessors[2];
    assert!(colors.min.is_none());
    assert!(colors.max.is_none());
}

#[test]
fn non_finite_positions_are_a_serialization_error() {
    for bad in [f32::NAN.to_bits(), f32::INFINITY.to_bits(), f32::NEG_INFINITY.to_bits()] {
        let mut verts = sample_vertices(3);
        verts[1].position.y = bad;
        let r = create_gltf_root(&verts, None);
        assert!(matches!(r, Err(VoxelifyError::SerializationError)));
    }
    // A non-finite color is no obstacle: only positions feed the declared
    // bounds.
    let mut verts = sample_vertices(3);
    verts[1].color.y = f32::NAN.to_bits();
    assert!(create_gltf_root(&verts, None).is_ok());
}

#[test]
fn total_length_counts_header_chunks_and_padding() {
    // 12-byte header + two 8-byte chunk headers + padded chunks.
    assert_eq!(compute_glb_length(2, 1), Ok(12 + 8 + 8 + 4 + 36));
    assert_eq!(compute_glb_length(4, 0), Ok(12 + 8 + 8 + 4 + 0));
    assert_eq!(compute_glb_length(0, 0), Ok(28));
}

#[test]
fn oversized_totals_are_a_distinct_size_error() {
    // Enough vertex records to pass the 32-bit length field.
    assert_eq!(
        compute_glb_length(2, 200_000_000),
        Err(VoxelifyError::SizeError)
    );
    assert_eq!(
        compute_glb_length(usize::MAX, 1),
        Err(VoxelifyError::SizeError)
    );
    // Just below and above the limit.
    let limit = u32::MAX as usize;
    assert!(compute_glb_length(limit - 3 - 28, 0).is_ok());
    assert_eq!(
        compute_glb_length(limit - 3 - 28 + 4, 0),
        Err(VoxelifyError::SizeError)
    );
}

#[test]
fn container_bytes_follow_the_layout() {
    let verts = sample_vertices(1);
    let glb = create_glb(b"{}".to_vec(), &verts).unwrap();
    assert_eq!(glb.length, 28 + 4 + 36);
    // The metadata text is padded with trailing spaces to 4 bytes.
    assert_eq!(glb.json, b"{}  ".to_vec());
    assert_eq!(glb.bin.len(), 36);
    let bytes = glb_to_bytes(&glb);
    assert_eq!(bytes.len(), glb.length as usize);
    assert_eq!(&bytes[0..4], b"glTF");
    assert_eq!(u32::from_le_bytes(bytes[4..8].try_into().unwrap()), 2);
    assert_eq!(
        u32::from_le_bytes(bytes[8..12].try_into().unwrap()),
        glb.length
    );
    assert_eq!(u32::from_le_bytes(bytes[12..16].try_into().unwrap()), 4);
    assert_eq!(&bytes[16..20], b"JSON");
    assert_eq!(&bytes[20..24], b"{}  ");
    assert_eq!(u32::from_le_bytes(bytes[24..28].try_into().unwrap()), 36);
    assert_eq!(&bytes[28..32], b"BIN\0");
    assert_eq!(&bytes[32..], &glb.bin[..]);
}

#[test]
fn emitted_container_parses_as_binary_gltf() {
    let img = Image::new(2, 1, vec![Pixel::opaque(10, 20, 30), Pixel::opaque(0, 0, 0)]).unwrap();
    let verts = image_to_vertices(&img, (2.0f32).to_bits(), PixelClassifier::PureBlack);
    let glb = create_glb(b"{\"asset\":{\"version\":\"2.0\"}}".to_vec(), &verts).unwrap();
    let bytes = glb_to_bytes(&glb);
    let parsed = gltf::Glb::from_slice(&bytes).expect("the emitted container must parse");
    assert_eq!(&parsed.header.magic, b"glTF");
    assert_eq!(parsed.header.version, 2);
    assert_eq!(parsed.header.length as usize, bytes.len());
    assert_eq!(parsed.json.as_ref(), glb.json.as_slice());
    assert_eq!(parsed.bin.as_deref(), Some(glb.bin.as_slice()));
}

#[test]
fn transparent_image_yields_a_valid_empty_container() {
    // Fully transparent image: zero vertices, and still a well-formed,
    // parseable container with an empty payload.
    let img = Image::new(3, 2, vec![Pixel::opaque(0, 0, 0); 6]).unwrap();
    let verts = image_to_vertices(&img, (2.0f32).to_bits(), PixelClassifier::PureBlack);
    assert_eq!(verts.len(), 0);
    let root = create_gltf_root(&verts, None).unwrap();
    assert_eq!(root.accessors[0].count, 0);
    let glb = create_glb(b"{}".to_vec(), &verts).unwrap();
    assert_eq!(glb.length, 28 + 4);
    let bytes = glb_to_bytes(&glb);
    let parsed = gltf::Glb::from_slice(&bytes).expect("the empty container must parse");
    assert_eq!(parsed.bin.as_deref(), Some(&[][..]));
}

#[test]
fn assembly_is_deterministic() {
    let verts = sample_vertices(5);
    let json = b"{\"asset\":{\"version\":\"2.0\"}}".to_vec();
    let b1 = glb_to_bytes(&create_glb(json.clone(), &verts).unwrap());
    let b2 = glb_to_bytes(&create_glb(json, &verts).unwrap());
    assert_eq!(b1, b2);
}
