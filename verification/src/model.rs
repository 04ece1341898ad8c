//! The in-memory mesh model.
//!
//! A model owns a flat position list, optional per-vertex attribute lists,
//! and a triangle index list over shared vertices. Attribute lists, when
//! present, match the vertex count; indices come in triples and stay in
//! bounds. Triangle winding is reversed at exposure time: a stored triangle
//! `(a, b, c)` is handed to the GPU — and to the tangent solver — as
//! `(c, b, a)`, matching the target coordinate handedness.

use vstd::prelude::*;

use crate::bits::{V2, V3};
use crate::material::MaterialRecord;
use crate::tangent;
use crate::tangent::{accum_after, averaged, effective_texcoords};

verus! {

/// The index list with each triangle's winding reversed: entry `k` of the
/// result is entry `3*(k/3) + (2 - k%3)` of the input, so a triangle
/// `(a, b, c)` is exposed as `(c, b, a)`.
pub open spec fn reversed_winding(idx: Seq<u32>) -> Seq<u32> {
    Seq::new(idx.len(), |k: int| idx[3 * (k / 3) + (2 - (k % 3))])
}

/// Reversing the winding twice restores the original index list: the
/// exposure-time flip of each triangle is an involution.
pub proof fn lemma_winding_reversal_involutive(idx: Seq<u32>)
    requires
        idx.len() % 3 == 0,
    ensures
        reversed_winding(reversed_winding(idx)) == idx,
{
    let rev = reversed_winding(idx);
    assert forall|k: int| 0 <= k < idx.len() implies reversed_winding(rev)[k] == idx[k] by {
        let p = 3 * (k / 3) + (2 - (k % 3));
        vstd::arithmetic::div_mod::lemma_fundamental_div_mod(k, 3);
        vstd::arithmetic::div_mod::lemma_fundamental_div_mod_converse(p, 3, k / 3, 2 - (k % 3));
        assert(rev[p] == idx[3 * (p / 3) + (2 - (p % 3))]);
        assert(3 * (p / 3) + (2 - (p % 3)) == k);
    }
    assert(reversed_winding(reversed_winding(idx)) =~= idx);
}

pub struct Model {
    /// The sub-model's name from the asset.
    pub name: String,
    /// One position per vertex, as float bit patterns.
    pub positions: Vec<V3>,
    /// Per-vertex colors; either empty or one per vertex.
    pub vertex_colors: Vec<V3>,
    /// Per-vertex normals; either empty or one per vertex.
    pub normals: Vec<V3>,
    /// Per-vertex texture coordinates; either empty or one per vertex.
    pub texcoords: Vec<V2>,
    /// Stored triangle indices, three per triangle, referencing `positions`.
    pub index_data: Vec<u32>,
    /// The material associated with this sub-model, if any.
    pub material: Option<MaterialRecord>,
}

impl Model {
    /// The model invariant: indices come in bounded triples, attribute
    /// lists are empty or parallel to the positions, and the index count
    /// fits the GPU's 32-bit draw range.
    pub open spec fn wf(self) -> bool {
        &&& self.index_data@.len() % 3 == 0
        &&& self.index_data@.len() <= u32::MAX
        &&& 17 * self.positions@.len() <= usize::MAX
        &&& forall|k: int|
            0 <= k < self.index_data@.len() ==> (self.index_data@[k] as int)
                < self.positions@.len()
        &&& self.vertex_colors@.len() == 0 || self.vertex_colors@.len() == self.positions@.len()
        &&& self.normals@.len() == 0 || self.normals@.len() == self.positions@.len()
        &&& self.texcoords@.len() == 0 || self.texcoords@.len() == self.positions@.len()
    }

    /// Validate raw attribute and index lists into a model. Returns `None`
    /// exactly when the lists violate the model invariant.
    pub fn new(
        name: String,
        positions: Vec<V3>,
        vertex_colors: Vec<V3>,
        normals: Vec<V3>,
        texcoords: Vec<V2>,
        index_data: Vec<u32>,
        material: Option<MaterialRecord>,
    ) -> (r: Option<Model>)
        ensures
            ({
                let m = Model {
                    name: name,
                    positions: positions,
                    vertex_colors: vertex_colors,
                    normals: normals,
                    texcoords: texcoords,
                    index_data: index_data,
                    material: material,
                };
                &&& r is Some <==> m.wf()
                &&& r is Some ==> r->Some_0.positions@ == positions@
                    && r->Some_0.vertex_colors@ == vertex_colors@ && r->Some_0.normals@
                    == normals@ && r->Some_0.texcoords@ == texcoords@ && r->Some_0.index_data@
                    == index_data@ && r->Some_0.name@ == name@ && r->Some_0.wf()
            }),
    {
        let n = positions.len();
        if index_data.len() % 3 != 0 {
            return None;
        }
        if index_data.len() > u32::MAX as usize {
            return None;
        }
        // The interleaved stream of 17 words per vertex must be
        // addressable.
        if n > usize::MAX / 17 {
            return None;
        }
        if !(vertex_colors.len() == 0 || vertex_colors.len() == n) {
            return None;
        }
        if !(normals.len() == 0 || normals.len() == n) {
            return None;
        }
        if !(texcoords.len() == 0 || texcoords.len() == n) {
            return None;
        }
        let mut k: usize = 0;
        let idx_len = index_data.len();
        while k < idx_len
            invariant
                idx_len == index_data@.len(),
                n == positions@.len(),
                k <= idx_len,
                forall|j: int| 0 <= j < k ==> (index_data@[j] as int) < n,
            decreases idx_len - k,
        {
            if index_data[k] as usize >= n {
                return None;
            }
            k += 1;
        }
        Some(
            Model {
                name,
                positions,
                vertex_colors,
                normals,
                texcoords,
                index_data,
                material,
            },
        )
    }

    /// The number of indices one indexed draw of this model covers (the
    /// deduplicated vertices are shared; what the GPU iterates is the index
    /// list).
    pub fn vertex_count(&self) -> (r: u32)
        requires
            self.wf(),
        ensures
            r == self.index_data@.len(),
    {
        self.index_data.len() as u32
    }

    /// The triangle indices in exposed order: each stored triangle
    /// `(a, b, c)` comes out as `(c, b, a)`.
    pub fn indices(&self) -> (r: Vec<u32>)
        requires
            self.wf(),
        ensures
            r@ == reversed_winding(self.index_data@),
            r@.len() == self.index_data@.len(),
    {
        let mut out: Vec<u32> = Vec::new();
        let idx_len = self.index_data.len();
        let tri_total = idx_len / 3;
        let mut t: usize = 0;
        proof {
            assert(idx_len as int == 3 * (idx_len as int / 3) + (idx_len as int % 3));
        }
        while t < tri_total
            invariant
                idx_len == self.index_data@.len(),
                idx_len % 3 == 0,
                tri_total == idx_len / 3,
                3 * (tri_total as int) == idx_len,
                t <= tri_total,
                out@.len() == 3 * t,
                forall|j: int|
                    0 <= j < out@.len() ==> out@[j] == reversed_winding(self.index_data@)[j],
            decreases tri_total - t,
        {
            proof {
                assert(3 * (t as int) + 2 < idx_len);
            }
            out.push(self.index_data[3 * t + 2]);
            out.push(self.index_data[3 * t + 1]);
            out.push(self.index_data[3 * t]);
            proof {
                let rev = reversed_winding(self.index_data@);
                let base = 3 * (t as int);
                assert(base / 3 == t as int && base % 3 == 0) by (nonlinear_arith)
                    requires
                        base == 3 * (t as int),
                        0 <= t,
                ;
                assert((base + 1) / 3 == t as int && (base + 1) % 3 == 1) by (nonlinear_arith)
                    requires
                        base == 3 * (t as int),
                        0 <= t,
                ;
                assert((base + 2) / 3 == t as int && (base + 2) % 3 == 2) by (nonlinear_arith)
                    requires
                        base == 3 * (t as int),
                        0 <= t,
                ;
                assert(out@[base] == rev[base]);
                assert(out@[base + 1] == rev[base + 1]);
                assert(out@[base + 2] == rev[base + 2]);
            }
            t += 1;
        }
        proof {
            assert(out@ =~= reversed_winding(self.index_data@));
        }
        out
    }

    /// Per-vertex tangents, bitangents and smoothed normals, computed over
    /// the exposed (winding-reversed) triangle list exactly as
    /// `tangent::solve` states.
    pub fn tbn(&self) -> (r: (Vec<V3>, Vec<V3>, Vec<V3>))
        requires
            self.wf(),
        ensures
            r.0@.len() == self.positions@.len(),
            r.1@.len() == self.positions@.len(),
            r.2@.len() == self.positions@.len(),
            forall|i: int|
                0 <= i < self.positions@.len() ==> {
                    let uv = effective_texcoords(self.positions@, self.texcoords@);
                    let idx = reversed_winding(self.index_data@);
                    let acc = accum_after(self.positions@, uv, idx, idx.len() as int / 3);
                    &&& #[trigger] r.0@[i] == averaged(
                        acc.tangents,
                        acc.counts,
                        i,
                        tangent::fallback_tangent(),
                    )
                    &&& r.1@[i] == averaged(
                        acc.bitangents,
                        acc.counts,
                        i,
                        tangent::fallback_bitangent(),
                    )
                    &&& r.2@[i] == averaged(acc.normals, acc.counts, i, tangent::fallback_normal())
                },
    {
        let rev = self.indices();
        proof {
            let idx = reversed_winding(self.index_data@);
            assert forall|k: int| 0 <= k < idx.len() implies (idx[k] as int)
                < self.positions@.len() by {
                let p = 3 * (k / 3) + (2 - (k % 3));
                assert(0 <= p < idx.len());
            }
        }
        tangent::solve(&self.positions, &self.texcoords, &rev)
    }
}

} // verus!
