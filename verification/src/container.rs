//! The scene-metadata document and the binary container.
//!
//! The metadata is an arena: buffers, buffer views, accessors, meshes,
//! nodes and scenes live in flat, append-only lists and refer to each
//! other by integer index, built bottom-up so every index exists before
//! its parent mentions it.  The container is the metadata text and the
//! packed payload, each padded to 4 bytes, behind a fixed 12-byte header,
//! each chunk behind its own 8-byte header.

use crate::bounds::bounding_coords;
use crate::bounds::spec_bounds;
use crate::error::VoxelifyError;
use crate::mesh::Vec3Bits;
use crate::mesh::Vertex;
use crate::pack::append_bytes;
use crate::pack::le_bytes;
use crate::pack::packed_bytes;
use crate::pack::pad_to_four;
use crate::pack::push_le_bytes;
use crate::pack::spec_pad4;
use crate::pack::to_padded_byte_vector;
use crate::scalar::SCALAR_NEG_ONE;
use crate::scalar::SCALAR_ONE;
use crate::scalar::is_finite_scalar;
use vstd::prelude::*;

verus! {

/// One backing buffer: the byte length of the (unpadded) payload, and an
/// optional external URI.  Without a URI the payload is embedded in the
/// container's binary chunk.
#[derive(Clone, Debug, PartialEq)]
pub struct Buffer {
    pub byte_length: usize,
    pub uri: Option<String>,
}

/// A byte-range window into a buffer, interleaved with the given stride,
/// marked for vertex-attribute use.
#[derive(Clone, Copy, Debug, PartialEq, Eq, Structural)]
pub struct BufferView {
    pub buffer: usize,
    pub byte_length: usize,
    pub byte_stride: usize,
    pub target_array_buffer: bool,
}

/// A typed view over a region of a buffer view: `count` 3-component
/// single-precision elements starting at `byte_offset`, with optional
/// declared bounds.
#[derive(Clone, Copy, Debug, PartialEq)]
pub struct Accessor {
    pub buffer_view: usize,
    pub byte_offset: usize,
    pub count: usize,
    pub min: Option<Vec3Bits>,
    pub max: Option<Vec3Bits>,
}

/// One triangle-list, non-indexed primitive referencing its position,
/// normal and color accessors by index.
#[derive(Clone, Copy, Debug, PartialEq, Eq, Structural)]
pub struct Primitive {
    pub positions: usize,
    pub normals: usize,
    pub colors: usize,
}

/// A mesh: its primitives.
#[derive(Clone, Debug, PartialEq)]
pub struct Mesh {
    pub primitives: Vec<Primitive>,
}

/// A scene-graph node, optionally referencing a mesh by index.
#[derive(Clone, Copy, Debug, PartialEq)]
pub struct Node {
    pub mesh: Option<usize>,
}

/// A scene: the indices of its root nodes.
#[derive(Clone, Debug, PartialEq)]
pub struct Scene {
    pub nodes: Vec<usize>,
}

/// The metadata document: flat, append-only entity lists referencing one
/// another by integer index — a directed acyclic reference graph.
#[derive(Clone, Debug, PartialEq)]
pub struct GltfRoot {
    pub buffers: Vec<Buffer>,
    pub buffer_views: Vec<BufferView>,
    pub accessors: Vec<Accessor>,
    pub meshes: Vec<Mesh>,
    pub nodes: Vec<Node>,
    pub scenes: Vec<Scene>,
}

impl GltfRoot {
    /// An empty document.
    pub fn new() -> (r: GltfRoot)
        ensures
            r.buffers@ =~= Seq::<Buffer>::empty(),
            r.buffer_views@ =~= Seq::<BufferView>::empty(),
            r.accessors@ =~= Seq::<Accessor>::empty(),
            r.meshes@ =~= Seq::<Mesh>::empty(),
            r.nodes@ =~= Seq::<Node>::empty(),
            r.scenes@ =~= Seq::<Scene>::empty(),
    {
        GltfRoot {
            buffers: Vec::new(),
            buffer_views: Vec::new(),
            accessors: Vec::new(),
            meshes: Vec::new(),
            nodes: Vec::new(),
            scenes: Vec::new(),
        }
    }

    /// Every index stored in the document points at an existing entity —
    /// the reference graph is acyclic by construction, children coming
    /// before their parents.
    pub open spec fn wf(&self) -> bool {
        &&& forall|i: int|
            0 <= i < self.buffer_views@.len() ==> (#[trigger] self.buffer_views@[i]).buffer
                < self.buffers@.len()
        &&& forall|i: int|
            0 <= i < self.accessors@.len() ==> (#[trigger] self.accessors@[i]).buffer_view
                < self.buffer_views@.len()
        &&& forall|i: int, j: int|
            0 <= i < self.meshes@.len() && 0 <= j < self.meshes@[i].primitives@.len() ==> {
                let p = #[trigger] self.meshes@[i].primitives@[j];
                p.positions < self.accessors@.len() && p.normals < self.accessors@.len()
                    && p.colors < self.accessors@.len()
            }
        &&& forall|i: int|
            0 <= i < self.nodes@.len() ==> ((#[trigger] self.nodes@[i]).mesh matches Some(m) ==> m
                < self.meshes@.len())
        &&& forall|i: int, j: int|
            0 <= i < self.scenes@.len() && 0 <= j < self.scenes@[i].nodes@.len()
                ==> (#[trigger] self.scenes@[i].nodes@[j]) < self.nodes@.len()
    }

    /// Appends a buffer and returns its index.
    pub fn push_buffer(&mut self, b: Buffer) -> (i: usize)
        ensures
            final(self).buffers@ == old(self).buffers@.push(b),
            i == old(self).buffers@.len(),
            final(self).buffer_views@ == old(self).buffer_views@,
            final(self).accessors@ == old(self).accessors@,
            final(self).meshes@ == old(self).meshes@,
            final(self).nodes@ == old(self).nodes@,
            final(self).scenes@ == old(self).scenes@,
    {
        let i = self.buffers.len();
        self.buffers.push(b);
        i
    }

    /// Appends a buffer view and returns its index.
    pub fn push_buffer_view(&mut self, v: BufferView) -> (i: usize)
        ensures
            final(self).buffer_views@ == old(self).buffer_views@.push(v),
            i == old(self).buffer_views@.len(),
            final(self).buffers@ == old(self).buffers@,
            final(self).accessors@ == old(self).accessors@,
            final(self).meshes@ == old(self).meshes@,
            final(self).nodes@ == old(self).nodes@,
            final(self).scenes@ == old(self).scenes@,
    {
        let i = self.buffer_views.len();
        self.buffer_views.push(v);
        i
    }

    /// Appends an accessor and returns its index.
    pub fn push_accessor(&mut self, a: Accessor) -> (i: usize)
        ensures
            final(self).accessors@ == old(self).accessors@.push(a),
            i == old(self).accessors@.len(),
            final(self).buffers@ == old(self).buffers@,
            final(self).buffer_views@ == old(self).buffer_views@,
            final(self).meshes@ == old(self).meshes@,
            final(self).nodes@ == old(self).nodes@,
            final(self).scenes@ == old(self).scenes@,
    {
        let i = self.accessors.len();
        self.accessors.push(a);
        i
    }

    /// Appends a mesh and returns its index.
    pub fn push_mesh(&mut self, m: Mesh) -> (i: usize)
        ensures
            final(self).meshes@ == old(self).meshes@.push(m),
            i == old(self).meshes@.len(),
            final(self).buffers@ == old(self).buffers@,
            final(self).buffer_views@ == old(self).buffer_views@,
            final(self).accessors@ == old(self).accessors@,
            final(self).nodes@ == old(self).nodes@,
            final(self).scenes@ == old(self).scenes@,
    {
        let i = self.meshes.len();
        self.meshes.push(m);
        i
    }

    /// Appends a node and returns its index.
    pub fn push_node(&mut self, n: Node) -> (i: usize)
        ensures
            final(self).nodes@ == old(self).nodes@.push(n),
            i == old(self).nodes@.len(),
            final(self).buffers@ == old(self).buffers@,
            final(self).buffer_views@ == old(self).buffer_views@,
            final(self).accessors@ == old(self).accessors@,
            final(self).meshes@ == old(self).meshes@,
            final(self).scenes@ == old(self).scenes@,
    {
        let i = self.nodes.len();
        self.nodes.push(n);
        i
    }

    /// Appends a scene and returns its index.
    pub fn push_scene(&mut self, s: Scene) -> (i: usize)
        ensures
            final(self).scenes@ == old(self).scenes@.push(s),
            i == old(self).scenes@.len(),
            final(self).buffers@ == old(self).buffers@,
            final(self).buffer_views@ == old(self).buffer_views@,
            final(self).accessors@ == old(self).accessors@,
            final(self).meshes@ == old(self).meshes@,
            final(self).nodes@ == old(self).nodes@,
    {
        let i = self.scenes.len();
        self.scenes.push(s);
        i
    }
}

/// The three position components of `v` are finite.
pub open spec fn spec_vertex_position_finite(v: Vertex) -> bool {
    &&& crate::scalar::scalar_is_finite(v.position.x)
    &&& crate::scalar::scalar_is_finite(v.position.y)
    &&& crate::scalar::scalar_is_finite(v.position.z)
}

/// Every vertex of `s` has a finite position.
pub open spec fn spec_positions_finite(s: Seq<Vertex>) -> bool {
    forall|i: int| 0 <= i < s.len() ==> #[trigger] spec_vertex_position_finite(s[i])
}

/// The three accessors of the document, sharing buffer view 0 at rising
/// byte offsets: positions at 0 with the computed bounds; normals at 12
/// with the fixed declared bounds (-1, -1, -1)..(1, 1, 1), never
/// recomputed since normals are unit by construction; colors at 24 with
/// no declared bounds.
pub open spec fn spec_accessors(count: usize, bounds: (Vec3Bits, Vec3Bits)) -> Seq<Accessor> {
    seq![
        Accessor { buffer_view: 0, byte_offset: 0, count, min: Some(bounds.0), max: Some(bounds.1) },
        Accessor {
            buffer_view: 0,
            byte_offset: 12,
            count,
            min: Some(Vec3Bits { x: SCALAR_NEG_ONE, y: SCALAR_NEG_ONE, z: SCALAR_NEG_ONE }),
            max: Some(Vec3Bits { x: SCALAR_ONE, y: SCALAR_ONE, z: SCALAR_ONE }),
        },
        Accessor { buffer_view: 0, byte_offset: 24, count, min: None, max: None },
    ]
}

/// Builds the metadata document for `vertices`: one buffer (optionally
/// referenced by `uri`), one interleaved buffer view of 36-byte records,
/// the position, normal and color accessors, one mesh with one non-indexed
/// triangle-list primitive, one node and one scene.  The export is refused
/// with `SerializationError` exactly when some vertex position component
/// is non-finite — such a document cannot be converted to text.
pub fn create_gltf_root(vertices: &Vec<Vertex>, uri: Option<String>) -> (r: Result<
    GltfRoot,
    VoxelifyError,
>)
    requires
        vertices@.len() * 36 <= usize::MAX,
    ensures
        r is Ok <==> spec_positions_finite(vertices@),
        r matches Err(e) ==> e == VoxelifyError::SerializationError,
        r matches Ok(root) ==> {
            &&& root.wf()
            &&& root.buffers@.len() == 1
            &&& root.buffers@[0].byte_length == 36 * vertices@.len()
            &&& root.buffers@[0].uri == uri
            &&& root.buffer_views@ =~= seq![
                BufferView {
                    buffer: 0,
                    byte_length: (36 * vertices@.len()) as usize,
                    byte_stride: 36,
                    target_array_buffer: true,
                },
            ]
            &&& root.accessors@ =~= spec_accessors(vertices@.len() as usize, spec_bounds(vertices@))
            &&& root.meshes@.len() == 1
            &&& root.meshes@[0].primitives@ =~= seq![
                Primitive { positions: 0, normals: 1, colors: 2 },
            ]
            &&& root.nodes@ =~= seq![Node { mesh: Some(0) }]
            &&& root.scenes@.len() == 1
            &&& root.scenes@[0].nodes@ =~= seq![0usize]
        },
{
    let mut i: usize = 0;
    while i < vertices.len()
        invariant
            i <= vertices@.len(),
            forall|j: int| 0 <= j < i ==> #[trigger] spec_vertex_position_finite(vertices@[j]),
        decreases vertices@.len() - i,
    {
        let p = vertices[i].position;
        if !(is_finite_scalar(p.x) && is_finite_scalar(p.y) && is_finite_scalar(p.z)) {
            proof {
                assert(!spec_vertex_position_finite(vertices@[i as int]));
            }
            return Err(VoxelifyError::SerializationError);
        }
        i = i + 1;
    }

    let vertex_buffer_length = crate::pack::calculate_buffer_length(vertices);
    let (min, max) = bounding_coords(vertices);

    let mut root = GltfRoot::new();
    let buffer = root.push_buffer(Buffer { byte_length: vertex_buffer_length, uri });
    let vertex_buffer_view = root.push_buffer_view(
        BufferView {
            buffer,
            byte_length: vertex_buffer_length,
            byte_stride: 36,
            target_array_buffer: true,
        },
    );
    let positions = root.push_accessor(
        Accessor {
            buffer_view: vertex_buffer_view,
            byte_offset: 0,
            count: vertices.len(),
            min: Some(min),
            max: Some(max),
        },
    );
    let normals = root.push_accessor(
        Accessor {
            buffer_view: vertex_buffer_view,
            byte_offset: 12,
            count: vertices.len(),
            min: Some(Vec3Bits { x: SCALAR_NEG_ONE, y: SCALAR_NEG_ONE, z: SCALAR_NEG_ONE }),
            max: Some(Vec3Bits { x: SCALAR_ONE, y: SCALAR_ONE, z: SCALAR_ONE }),
        },
    );
    let colors = root.push_accessor(
        Accessor {
            buffer_view: vertex_buffer_view,
            byte_offset: 24,
            count: vertices.len(),
            min: None,
            max: None,
        },
    );
    let primitive = Primitive { positions, normals, colors };
    let mesh = root.push_mesh(Mesh { primitives: vec![primitive] });
    let node = root.push_node(Node { mesh: Some(mesh) });
    let scene_nodes: Vec<usize> = vec![node];
    root.push_scene(Scene { nodes: scene_nodes });
    Ok(root)
}

/// The total container length for a metadata text of `json_len` bytes and
/// `vertex_count` packed records: the 12-byte header, two 8-byte chunk
/// headers, and both padded chunk bodies.
pub open spec fn spec_total_glb_len(json_len: int, vertex_count: int) -> int {
    12 + 8 + 8 + spec_pad4(json_len) + spec_pad4(36 * vertex_count)
}

/// Computes the total container length, or refuses with `SizeError`
/// exactly when it exceeds the format's 32-bit length field.
pub fn compute_glb_length(json_len: usize, vertex_count: usize) -> (r: Result<u32, VoxelifyError>)
    ensures
        r is Ok <==> spec_total_glb_len(json_len as int, vertex_count as int) <= u32::MAX,
        r matches Ok(n) ==> n == spec_total_glb_len(json_len as int, vertex_count as int),
        r matches Err(e) ==> e == VoxelifyError::SizeError,
{
    if vertex_count > (0xFFFF_FFFFusize) / 36 {
        proof {
            assert(spec_pad4(36 * vertex_count as int) >= 36 * vertex_count as int);
            assert(spec_pad4(json_len as int) >= json_len as int >= 0);
        }
        return Err(VoxelifyError::SizeError);
    }
    if json_len > 0xFFFF_FFFFusize - 3 {
        proof {
            assert(spec_pad4(json_len as int) >= json_len as int);
            assert(spec_pad4(36 * vertex_count as int) >= 36 * vertex_count as int >= 0);
        }
        return Err(VoxelifyError::SizeError);
    }
    let padded_json = (((json_len as u64) + 3) / 4) * 4;
    let padded_bin = (((vertex_count as u64) * 36 + 3) / 4) * 4;
    let total = 12 + 8 + 8 + padded_json + padded_bin;
    if total > 0xFFFF_FFFFu64 {
        return Err(VoxelifyError::SizeError);
    }
    Ok(total as u32)
}

/// The assembled binary container: total length, padded metadata text and
/// padded payload.
#[derive(Clone, Debug, PartialEq)]
pub struct Glb {
    pub length: u32,
    pub json: Vec<u8>,
    pub bin: Vec<u8>,
}

impl Glb {
    /// Both chunks are padded to 4 bytes and the recorded length counts
    /// the header, the two chunk headers and both chunk bodies.
    pub open spec fn wf(&self) -> bool {
        &&& self.json@.len() % 4 == 0
        &&& self.bin@.len() % 4 == 0
        &&& self.length == 12 + 8 + 8 + self.json@.len() + self.bin@.len()
    }
}

/// Assembles the container from the serialized metadata text and the
/// vertex sequence: the text is padded with trailing spaces and the packed
/// payload with zeros, each to a multiple of 4 bytes.  Refused with
/// `SizeError` exactly when the total length exceeds the 32-bit length
/// field; nothing partial is produced.
pub fn create_glb(json: Vec<u8>, vertices: &Vec<Vertex>) -> (r: Result<Glb, VoxelifyError>)
    ensures
        r is Ok <==> spec_total_glb_len(json@.len() as int, vertices@.len() as int) <= u32::MAX,
        r matches Err(e) ==> e == VoxelifyError::SizeError,
        r matches Ok(g) ==> {
            &&& g.wf()
            &&& g.length == spec_total_glb_len(json@.len() as int, vertices@.len() as int)
            &&& g.json@ == json@ + Seq::new(
                (spec_pad4(json@.len() as int) - json@.len()) as nat,
                |i: int| 32u8,
            )
            &&& g.bin@ == packed_bytes(vertices@)
        },
{
    let total = match compute_glb_length(json.len(), vertices.len()) {
        Ok(n) => n,
        Err(e) => {
            return Err(e);
        },
    };
    proof {
        assert(spec_pad4(json@.len() as int) >= json@.len() as int);
        assert(spec_pad4(36 * vertices@.len() as int) >= 36 * vertices@.len() as int >= 0);
    }
    let mut json = json;
    pad_to_four(&mut json, 0x20);
    let bin = to_padded_byte_vector(vertices);
    Ok(Glb { length: total, json, bin })
}

/// The container's bytes: magic `glTF`, version 2 and total length, each
/// little-endian where multi-byte; then the metadata chunk (length, type
/// `JSON`, text) and the binary chunk (length, type `BIN\0`, payload).
pub open spec fn spec_glb_bytes(g: Glb) -> Seq<u8> {
    seq![0x67u8, 0x6Cu8, 0x54u8, 0x46u8] + le_bytes(2) + le_bytes(g.length) + le_bytes(
        g.json@.len() as u32,
    ) + seq![0x4Au8, 0x53u8, 0x4Fu8, 0x4Eu8] + g.json@ + le_bytes(g.bin@.len() as u32) + seq![
        0x42u8,
        0x49u8,
        0x4Eu8,
        0x00u8,
    ] + g.bin@
}

/// Emits the assembled container as its final byte stream, exactly
/// `length` bytes long.
pub fn glb_to_bytes(glb: &Glb) -> (r: Vec<u8>)
    requires
        glb.wf(),
    ensures
        r@ == spec_glb_bytes(*glb),
        r@.len() == glb.length as int,
{
    let mut out: Vec<u8> = Vec::new();
    out.push(0x67);
    out.push(0x6C);
    out.push(0x54);
    out.push(0x46);
    push_le_bytes(&mut out, 2);
    push_le_bytes(&mut out, glb.length);
    push_le_bytes(&mut out, glb.json.len() as u32);
    out.push(0x4A);
    out.push(0x53);
    out.push(0x4F);
    out.push(0x4E);
    append_bytes(&mut out, &glb.json);
    push_le_bytes(&mut out, glb.bin.len() as u32);
    out.push(0x42);
    out.push(0x49);
    out.push(0x4E);
    out.push(0x00);
    append_bytes(&mut out, &glb.bin);
    proof {
        assert(out@ =~= spec_glb_bytes(*glb));
    }
    out
}

} // verus!
