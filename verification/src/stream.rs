//! Vertex stream interleaving.
//!
//! The attribute channels are interleaved into one flat buffer with a fixed
//! per-vertex layout of 17 words:
//! position(3) + color(3) + normal(3) + tangent(3) + bitangent(3) +
//! texcoord(2). A channel shorter than the position list is padded with a
//! fixed default: color opaque white, normal +Z, tangent +X, bitangent +Y,
//! texcoord the origin. Order and stride are a binding contract with the
//! GPU pipeline's vertex-attribute descriptor.

use vstd::prelude::*;

use crate::bits::{ONE_BITS, V2, V3, ZERO_BITS};

verus! {

/// Words per interleaved vertex.
pub const FLOATS_PER_VERTEX: u32 = 17;

/// Bytes per interleaved vertex: 17 words of 4 bytes.
pub const VERTEX_STRIDE_BYTES: u32 = 68;

/// Entry `i` of a three-component channel, or the channel's default when
/// the list is too short.
pub open spec fn attr3_or(s: Seq<V3>, i: int, d: V3) -> V3 {
    if 0 <= i < s.len() {
        s[i]
    } else {
        d
    }
}

/// Entry `i` of a two-component channel, or the channel's default when the
/// list is too short.
pub open spec fn attr2_or(s: Seq<V2>, i: int, d: V2) -> V2 {
    if 0 <= i < s.len() {
        s[i]
    } else {
        d
    }
}

pub open spec fn default_color() -> V3 {
    V3 { x: ONE_BITS, y: ONE_BITS, z: ONE_BITS }
}

pub open spec fn default_normal() -> V3 {
    V3 { x: ZERO_BITS, y: ZERO_BITS, z: ONE_BITS }
}

pub open spec fn default_tangent() -> V3 {
    V3 { x: ONE_BITS, y: ZERO_BITS, z: ZERO_BITS }
}

pub open spec fn default_bitangent() -> V3 {
    V3 { x: ZERO_BITS, y: ONE_BITS, z: ZERO_BITS }
}

pub open spec fn default_texcoord() -> V2 {
    V2 { x: ZERO_BITS, y: ZERO_BITS }
}

/// The layout contract for one vertex: the 17 words starting at `base`
/// hold position, color, normal, tangent, bitangent and texcoord, in that
/// order, with short channels replaced by their defaults.
pub open spec fn vertex_encoded(
    out: Seq<u32>,
    base: int,
    pos: Seq<V3>,
    col: Seq<V3>,
    nrm: Seq<V3>,
    tan: Seq<V3>,
    bit: Seq<V3>,
    uv: Seq<V2>,
    v: int,
) -> bool {
    let p = pos[v];
    let c = attr3_or(col, v, default_color());
    let n = attr3_or(nrm, v, default_normal());
    let t = attr3_or(tan, v, default_tangent());
    let b = attr3_or(bit, v, default_bitangent());
    let u = attr2_or(uv, v, default_texcoord());
    &&& out[base] == p.x
    &&& out[base + 1] == p.y
    &&& out[base + 2] == p.z
    &&& out[base + 3] == c.x
    &&& out[base + 4] == c.y
    &&& out[base + 5] == c.z
    &&& out[base + 6] == n.x
    &&& out[base + 7] == n.y
    &&& out[base + 8] == n.z
    &&& out[base + 9] == t.x
    &&& out[base + 10] == t.y
    &&& out[base + 11] == t.z
    &&& out[base + 12] == b.x
    &&& out[base + 13] == b.y
    &&& out[base + 14] == b.z
    &&& out[base + 15] == u.x
    &&& out[base + 16] == u.y
}

/// Interleave the attribute channels into one flat buffer, 17 words per
/// vertex, padding short channels with their documented defaults.
pub fn interleave(
    positions: &Vec<V3>,
    colors: &Vec<V3>,
    normals: &Vec<V3>,
    tangents: &Vec<V3>,
    bitangents: &Vec<V3>,
    texcoords: &Vec<V2>,
) -> (r: Vec<u32>)
    requires
        17 * positions@.len() <= usize::MAX,
    ensures
        r@.len() == 17 * positions@.len(),
        forall|v: int|
            0 <= v < positions@.len() ==> #[trigger] vertex_encoded(
                r@,
                17 * v,
                positions@,
                colors@,
                normals@,
                tangents@,
                bitangents@,
                texcoords@,
                v,
            ),
{
    let n = positions.len();
    let mut out: Vec<u32> = Vec::new();
    let mut v: usize = 0;
    while v < n
        invariant
            n == positions@.len(),
            17 * n <= usize::MAX,
            v <= n,
            out@.len() == 17 * v,
            forall|j: int|
                0 <= j < v ==> #[trigger] vertex_encoded(
                    out@,
                    17 * j,
                    positions@,
                    colors@,
                    normals@,
                    tangents@,
                    bitangents@,
                    texcoords@,
                    j,
                ),
        decreases n - v,
    {
        let ghost out_before = out@;
        let p = positions[v];
        let c = if v < colors.len() {
            colors[v]
        } else {
            V3::ones()
        };
        let nr = if v < normals.len() {
            normals[v]
        } else {
            V3::unit_z()
        };
        let t = if v < tangents.len() {
            tangents[v]
        } else {
            V3::unit_x()
        };
        let b = if v < bitangents.len() {
            bitangents[v]
        } else {
            V3::unit_y()
        };
        let u = if v < texcoords.len() {
            texcoords[v]
        } else {
            V2::zero()
        };
        out.push(p.x);
        out.push(p.y);
        out.push(p.z);
        out.push(c.x);
        out.push(c.y);
        out.push(c.z);
        out.push(nr.x);
        out.push(nr.y);
        out.push(nr.z);
        out.push(t.x);
        out.push(t.y);
        out.push(t.z);
        out.push(b.x);
        out.push(b.y);
        out.push(b.z);
        out.push(u.x);
        out.push(u.y);
        proof {
            assert(out@.len() == 17 * (v as int) + 17);
            assert forall|j: int| 0 <= j < v as int + 1 implies #[trigger] vertex_encoded(
                out@,
                17 * j,
                positions@,
                colors@,
                normals@,
                tangents@,
                bitangents@,
                texcoords@,
                j,
            ) by {
                if j < v as int {
                    assert(vertex_encoded(
                        out_before,
                        17 * j,
                        positions@,
                        colors@,
                        normals@,
                        tangents@,
                        bitangents@,
                        texcoords@,
                        j,
                    ));
                    assert(17 * j + 16 < 17 * (v as int));
                    assert forall|k: int| 0 <= k < out_before.len() implies out@[k]
                        == out_before[k] by {}
                } else {
                    assert(out@[17 * (v as int)] == p.x);
                }
            }
        }
        v += 1;
    }
    out
}

/// One attribute slot of the vertex descriptor: a shader location, a byte
/// offset into the vertex, and a component count.
#[derive(Clone, Copy, Debug, PartialEq, Eq, Structural)]
pub struct VertexAttribute {
    pub shader_location: u32,
    pub offset_bytes: u32,
    pub components: u32,
}

/// The vertex-attribute descriptor matching `interleave`'s layout: six
/// attributes at consecutive shader locations whose byte offsets tile the
/// stride exactly.
pub fn vertex_layout() -> (r: Vec<VertexAttribute>)
    ensures
        r@.len() == 6,
        r@[0] == (VertexAttribute { shader_location: 0, offset_bytes: 0, components: 3 }),
        r@[1] == (VertexAttribute { shader_location: 1, offset_bytes: 12, components: 3 }),
        r@[2] == (VertexAttribute { shader_location: 2, offset_bytes: 24, components: 3 }),
        r@[3] == (VertexAttribute { shader_location: 3, offset_bytes: 36, components: 3 }),
        r@[4] == (VertexAttribute { shader_location: 4, offset_bytes: 48, components: 3 }),
        r@[5] == (VertexAttribute { shader_location: 5, offset_bytes: 60, components: 2 }),
        forall|i: int|
            0 <= i < 5 ==> #[trigger] r@[i + 1].offset_bytes == r@[i].offset_bytes + 4 * r@[
                i
            ].components,
        forall|i: int| 0 <= i < 6 ==> #[trigger] r@[i].shader_location == i,
        r@[5].offset_bytes + 4 * r@[5].components == VERTEX_STRIDE_BYTES,
        VERTEX_STRIDE_BYTES == 4 * FLOATS_PER_VERTEX,
{
    let mut r: Vec<VertexAttribute> = Vec::new();
    r.push(VertexAttribute { shader_location: 0, offset_bytes: 0, components: 3 });
    r.push(VertexAttribute { shader_location: 1, offset_bytes: 12, components: 3 });
    r.push(VertexAttribute { shader_location: 2, offset_bytes: 24, components: 3 });
    r.push(VertexAttribute { shader_location: 3, offset_bytes: 36, components: 3 });
    r.push(VertexAttribute { shader_location: 4, offset_bytes: 48, components: 3 });
    r.push(VertexAttribute { shader_location: 5, offset_bytes: 60, components: 2 });
    r
}

} // verus!
