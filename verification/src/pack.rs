//! Serialization of the vertex sequence to raw little-endian bytes, and
//! the container alignment helpers.
//!
//! One vertex record is 9 components of 4 bytes each — position, normal
//! and color, in declaration order, with no interior padding — so a record
//! is 36 bytes and the packed payload is always a multiple of 4 bytes.

use crate::mesh::Vec3Bits;
use crate::mesh::Vertex;
use vstd::prelude::*;

verus! {

/// The four little-endian bytes of `x`.
pub open spec fn le_bytes(x: u32) -> Seq<u8> {
    seq![
        (x & 0xFF) as u8,
        ((x >> 8) & 0xFF) as u8,
        ((x >> 16) & 0xFF) as u8,
        ((x >> 24) & 0xFF) as u8,
    ]
}

/// The value read back from four little-endian bytes.
pub open spec fn u32_of_le(b0: u8, b1: u8, b2: u8, b3: u8) -> u32 {
    (b0 as u32) | ((b1 as u32) << 8) | ((b2 as u32) << 16) | ((b3 as u32) << 24)
}

/// Writing a value and reading it back returns the value.
pub proof fn lemma_le_roundtrip(x: u32)
    ensures
        u32_of_le(
            (x & 0xFF) as u8,
            ((x >> 8) & 0xFF) as u8,
            ((x >> 16) & 0xFF) as u8,
            ((x >> 24) & 0xFF) as u8,
        ) == x,
{
    assert(((x & 0xFF) as u8 as u32) | (((x >> 8) & 0xFF) as u8 as u32) << 8 | (((x >> 16)
        & 0xFF) as u8 as u32) << 16 | (((x >> 24) & 0xFF) as u8 as u32) << 24 == x)
        by (bit_vector);
}

/// The 36 bytes of one vertex record: position, normal, color, each as
/// three little-endian 4-byte components.
pub open spec fn vertex_bytes(v: Vertex) -> Seq<u8> {
    le_bytes(v.position.x) + le_bytes(v.position.y) + le_bytes(v.position.z) + le_bytes(v.normal.x)
        + le_bytes(v.normal.y) + le_bytes(v.normal.z) + le_bytes(v.color.x) + le_bytes(v.color.y)
        + le_bytes(v.color.z)
}

/// The packed bytes of a vertex sequence: the records in order.
pub open spec fn packed_bytes(s: Seq<Vertex>) -> Seq<u8>
    decreases s.len(),
{
    if s.len() == 0 {
        Seq::empty()
    } else {
        packed_bytes(s.drop_last()) + vertex_bytes(s.last())
    }
}

/// The packed payload is exactly 36 bytes per record.
pub proof fn lemma_packed_len(s: Seq<Vertex>)
    ensures
        packed_bytes(s).len() == 36 * s.len(),
    decreases s.len(),
{
    if s.len() > 0 {
        lemma_packed_len(s.drop_last());
    }
}

/// Appends the four little-endian bytes of `x`.
pub(crate) fn push_le_bytes(out: &mut Vec<u8>, x: u32)
    ensures
        final(out)@ == old(out)@ + le_bytes(x),
{
    out.push((x & 0xFF) as u8);
    out.push(((x >> 8) & 0xFF) as u8);
    out.push(((x >> 16) & 0xFF) as u8);
    out.push(((x >> 24) & 0xFF) as u8);
    proof {
        assert(final(out)@ =~= old(out)@ + le_bytes(x));
    }
}

/// Appends a copy of `src` to `out`.
pub(crate) fn append_bytes(out: &mut Vec<u8>, src: &Vec<u8>)
    ensures
        final(out)@ == old(out)@ + src@,
{
    let mut i: usize = 0;
    while i < src.len()
        invariant
            i <= src@.len(),
            out@ == old(out)@ + src@.take(i as int),
        decreases src@.len() - i,
    {
        out.push(src[i]);
        proof {
            assert(old(out)@ + src@.take(i + 1) =~= (old(out)@ + src@.take(i as int)).push(
                src@[i as int],
            ));
        }
        i = i + 1;
    }
    proof {
        assert(src@.take(src@.len() as int) =~= src@);
    }
}

/// Appends `fill` bytes until the length of `out` is a multiple of 4.
pub fn pad_to_four(out: &mut Vec<u8>, fill: u8)
    requires
        old(out)@.len() + 3 <= usize::MAX,
    ensures
        final(out)@.len() == spec_pad4(old(out)@.len() as int),
        final(out)@ == old(out)@ + Seq::new(
            (spec_pad4(old(out)@.len() as int) - old(out)@.len()) as nat,
            |i: int| fill,
        ),
{
    while out.len() % 4 != 0
        invariant
            old(out)@.len() <= out@.len() <= spec_pad4(old(out)@.len() as int),
            out@ == old(out)@ + Seq::new(
                (out@.len() - old(out)@.len()) as nat,
                |i: int| fill,
            ),
        decreases (4 - out@.len() % 4) % 4,
    {
        out.push(fill);
        proof {
            assert(out@ =~= old(out)@ + Seq::new(
                (out@.len() - old(out)@.len()) as nat,
                |i: int| fill,
            ));
        }
    }
}

/// The least multiple of 4 at or above `n`.
pub open spec fn spec_pad4(n: int) -> int {
    ((n + 3) / 4) * 4
}

/// Rounds `n` up to the next multiple of four, in place.
pub fn align_to_multiple_of_four(n: &mut usize)
    requires
        *old(n) + 3 <= usize::MAX,
    ensures
        *final(n) == spec_pad4(*old(n) as int),
{
    let s = *n + 3;
    *n = s & !3;
    proof {
        assert(s & !3usize == s - s % 4) by (bit_vector);
    }
}

/// The byte length of the packed form of `vertices`: 36 bytes per record.
pub fn calculate_buffer_length(vertices: &Vec<Vertex>) -> (r: usize)
    requires
        vertices@.len() * 36 <= usize::MAX,
    ensures
        r == 36 * vertices@.len(),
{
    vertices.len() * 36
}

/// Serializes the vertex sequence to raw bytes — 9 little-endian 4-byte
/// components per record, no interior padding — then appends zero bytes
/// until the total is a multiple of 4.  A record being 36 bytes, the
/// payload is already aligned and no padding is ever appended.
pub fn to_padded_byte_vector(vertices: &Vec<Vertex>) -> (r: Vec<u8>)
    requires
        vertices@.len() * 36 <= usize::MAX,
    ensures
        r@ == packed_bytes(vertices@),
        r@.len() == 36 * vertices@.len(),
        r@.len() % 4 == 0,
{
    let mut out: Vec<u8> = Vec::new();
    let mut i: usize = 0;
    while i < vertices.len()
        invariant
            i <= vertices@.len(),
            out@ == packed_bytes(vertices@.take(i as int)),
            out@.len() == 36 * i,
        decreases vertices@.len() - i,
    {
        let v = vertices[i];
        proof {
            lemma_packed_len(vertices@.take(i as int));
            assert(vertices@.take(i + 1).drop_last() =~= vertices@.take(i as int));
            assert(vertices@.take(i + 1).last() == vertices@[i as int]);
        }
        push_le_bytes(&mut out, v.position.x);
        push_le_bytes(&mut out, v.position.y);
        push_le_bytes(&mut out, v.position.z);
        push_le_bytes(&mut out, v.normal.x);
        push_le_bytes(&mut out, v.normal.y);
        push_le_bytes(&mut out, v.normal.z);
        push_le_bytes(&mut out, v.color.x);
        push_le_bytes(&mut out, v.color.y);
        push_le_bytes(&mut out, v.color.z);
        proof {
            assert(out@ =~= packed_bytes(vertices@.take(i as int)) + vertex_bytes(
                vertices@[i as int],
            ));
        }
        i = i + 1;
    }
    proof {
        assert(vertices@.take(vertices@.len() as int) =~= vertices@);
    }
    pad_to_four(&mut out, 0);
    out
}

/// The vertex sequence read back from packed bytes: each 36-byte record
/// reinterpreted as 9 little-endian 4-byte components.
pub open spec fn unpacked_vertices(b: Seq<u8>) -> Seq<Vertex>
    decreases b.len(),
{
    if b.len() < 36 {
        Seq::empty()
    } else {
        seq![
            Vertex {
                position: Vec3Bits {
                    x: u32_of_le(b[0], b[1], b[2], b[3]),
                    y: u32_of_le(b[4], b[5], b[6], b[7]),
                    z: u32_of_le(b[8], b[9], b[10], b[11]),
                },
                normal: Vec3Bits {
                    x: u32_of_le(b[12], b[13], b[14], b[15]),
                    y: u32_of_le(b[16], b[17], b[18], b[19]),
                    z: u32_of_le(b[20], b[21], b[22], b[23]),
                },
                color: Vec3Bits {
                    x: u32_of_le(b[24], b[25], b[26], b[27]),
                    y: u32_of_le(b[28], b[29], b[30], b[31]),
                    z: u32_of_le(b[32], b[33], b[34], b[35]),
                },
            },
        ] + unpacked_vertices(b.skip(36))
    }
}

/// Packing then unpacking a vertex sequence — reading the bytes back as
/// 9 components per 36-byte record — reproduces the original attributes
/// exactly.
pub proof fn lemma_pack_unpack(s: Seq<Vertex>)
    ensures
        unpacked_vertices(packed_bytes(s)) == s,
    decreases s.len(),
{
    if s.len() == 0 {
    } else {
        lemma_pack_unpack_first(s);
    }
}

/// Helper for the round trip, peeling the first record off the front.
#[verifier::rlimit(100)]
proof fn lemma_pack_unpack_first(s: Seq<Vertex>)
    requires
        s.len() > 0,
    ensures
        unpacked_vertices(packed_bytes(s)) == s,
    decreases s.len(),
{
    lemma_packed_front(s);
    let b = packed_bytes(s);
    lemma_packed_len(s);
    let v = s[0];
    lemma_le_roundtrip(v.position.x);
    lemma_le_roundtrip(v.position.y);
    lemma_le_roundtrip(v.position.z);
    lemma_le_roundtrip(v.normal.x);
    lemma_le_roundtrip(v.normal.y);
    lemma_le_roundtrip(v.normal.z);
    lemma_le_roundtrip(v.color.x);
    lemma_le_roundtrip(v.color.y);
    lemma_le_roundtrip(v.color.z);
    assert(b.skip(36) =~= packed_bytes(s.skip(1)));
    assert(b.len() == 36 * s.len());
    if s.len() == 1 {
        assert(s.skip(1) =~= Seq::<Vertex>::empty());
        assert(packed_bytes(Seq::<Vertex>::empty()) == Seq::<u8>::empty());
        assert(b.skip(36) =~= Seq::<u8>::empty());
        assert(unpacked_vertices(b.skip(36)) == Seq::<Vertex>::empty());
        assert(unpacked_vertices(b)[0] == v);
        assert(unpacked_vertices(b) =~= s);
    } else {
        lemma_pack_unpack_first(s.skip(1));
        assert(unpacked_vertices(b.skip(36)) == s.skip(1));
        assert(unpacked_vertices(b)[0] == v);
        assert(unpacked_vertices(b) =~= s);
    }
}

/// The packed bytes equally read as the first record followed by the
/// packed rest.
#[verifier::rlimit(100)]
proof fn lemma_packed_front(s: Seq<Vertex>)
    requires
        s.len() > 0,
    ensures
        packed_bytes(s) == vertex_bytes(s[0]) + packed_bytes(s.skip(1)),
    decreases s.len(),
{
    if s.len() == 1 {
        assert(s.drop_last() =~= Seq::<Vertex>::empty());
        assert(s.skip(1) =~= Seq::<Vertex>::empty());
        assert(packed_bytes(Seq::<Vertex>::empty()) == Seq::<u8>::empty());
        assert(packed_bytes(s) == packed_bytes(s.drop_last()) + vertex_bytes(s.last()));
        assert(s.last() == s[0]);
        assert(packed_bytes(s) =~= vertex_bytes(s[0]) + packed_bytes(s.skip(1)));
    } else {
        lemma_packed_front(s.drop_last());
        assert(s.drop_last()[0] == s[0]);
        assert(s.drop_last().skip(1) =~= s.skip(1).drop_last());
        assert(packed_bytes(s.drop_last()) == vertex_bytes(s[0]) + packed_bytes(
            s.skip(1).drop_last(),
        ));
        assert(s.skip(1).last() == s.last());
        assert(packed_bytes(s.skip(1)) == packed_bytes(s.skip(1).drop_last()) + vertex_bytes(
            s.last(),
        ));
        assert(packed_bytes(s) == packed_bytes(s.drop_last()) + vertex_bytes(s.last()));
        vstd::seq_lib::lemma_concat_associative(
            vertex_bytes(s[0]),
            packed_bytes(s.skip(1).drop_last()),
            vertex_bytes(s.last()),
        );
    }
}

/// Quad `q` of the index list points at its 4 vertices as two triangles,
/// (0, 1, 2) and (0, 2, 3), relative to base offset `4 * q`.
pub open spec fn quad_indices_ok(indices: Seq<u32>, q: int) -> bool {
    &&& indices[6 * q] == 4 * q
    &&& indices[6 * q + 1] == 4 * q + 1
    &&& indices[6 * q + 2] == 4 * q + 2
    &&& indices[6 * q + 3] == 4 * q
    &&& indices[6 * q + 4] == 4 * q + 2
    &&& indices[6 * q + 5] == 4 * q + 3
}

/// Generates an index list for a 4-vertices-per-quad layout: for each
/// quad, two triangles (0, 1, 2) and (0, 2, 3) at rising base offsets.
pub fn generate_indices(vertex_count: usize) -> (indices: Vec<u32>)
    requires
        vertex_count <= u32::MAX,
    ensures
        indices@.len() == 6 * (vertex_count as int / 4),
        forall|q: int| 0 <= q < vertex_count as int / 4 ==> #[trigger] quad_indices_ok(indices@, q),
{
    let indices_count = vertex_count / 4;
    let mut indices: Vec<u32> = Vec::with_capacity(indices_count);
    let mut q: usize = 0;
    while q < indices_count
        invariant
            q <= indices_count,
            indices_count == vertex_count as int / 4,
            vertex_count <= u32::MAX,
            indices@.len() == 6 * q,
            forall|j: int| 0 <= j < q ==> #[trigger] quad_indices_ok(indices@, j),
        decreases indices_count - q,
    {
        let ghost prev = indices@;
        let base = (q as u32) * 4;
        indices.push(base);
        indices.push(base + 1);
        indices.push(base + 2);
        indices.push(base);
        indices.push(base + 2);
        indices.push(base + 3);
        proof {
            assert(indices@ =~= prev + seq![
                base,
                (base + 1) as u32,
                (base + 2) as u32,
                base,
                (base + 2) as u32,
                (base + 3) as u32,
            ]);
            assert forall|j: int| 0 <= j < q + 1 implies #[trigger] quad_indices_ok(
                indices@,
                j,
            ) by {
                if j < q {
                    assert(quad_indices_ok(prev, j));
                } else {
                    assert(indices@[6 * j] == base);
                    assert(indices@[6 * j + 1] == base + 1);
                    assert(indices@[6 * j + 2] == base + 2);
                    assert(indices@[6 * j + 3] == base);
                    assert(indices@[6 * j + 4] == base + 2);
                    assert(indices@[6 * j + 5] == base + 3);
                }
            };
        }
        q = q + 1;
    }
    indices
}

} // verus!
