//! Per-vertex tangent-space synthesis.
//!
//! For every triangle whose UV mapping admits a unique 2x2 solve, the tangent
//! and bitangent of that solve and the normal candidate
//! `normalize(cross(bitangent, tangent))` are accumulated into the triangle's
//! three vertices; a per-vertex counter records how many triangles
//! contributed. A vertex touched by at least one solved triangle yields the
//! normalized average of its accumulators; a vertex touched by none yields
//! the fixed fallback axes +X / +Y / +Z.

use vstd::prelude::*;

use crate::bits::{zero2, zero3, ONE_BITS, V2, V3, ZERO_BITS};
use crate::vecmath::{
    add3, add3_of, cross3, cross3_of, divn3, divn3_of, normalize3, normalize3_of, sub2, sub2_of,
    sub3, sub3_of, uv_basis, uv_basis_of,
};

verus! {

/// Fallback tangent for a vertex no solved triangle touches: +X.
pub open spec fn fallback_tangent() -> V3 {
    V3 { x: ONE_BITS, y: ZERO_BITS, z: ZERO_BITS }
}

/// Fallback bitangent for a vertex no solved triangle touches: +Y.
pub open spec fn fallback_bitangent() -> V3 {
    V3 { x: ZERO_BITS, y: ONE_BITS, z: ZERO_BITS }
}

/// Fallback normal for a vertex no solved triangle touches: +Z.
pub open spec fn fallback_normal() -> V3 {
    V3 { x: ZERO_BITS, y: ZERO_BITS, z: ONE_BITS }
}

/// The texcoord list actually used by the solver: when its length does not
/// match the vertex count, every texcoord is treated as zero.
pub open spec fn effective_texcoords(pos: Seq<V3>, uv: Seq<V2>) -> Seq<V2> {
    if uv.len() == pos.len() {
        uv
    } else {
        Seq::new(pos.len(), |i: int| zero2())
    }
}

/// The tangent/bitangent solve of one triangle `(i0, i1, i2)`: the unique
/// solution of
/// `pos[i1] - pos[i0] = du1.x * T + du1.y * B`,
/// `pos[i2] - pos[i0] = du2.x * T + du2.y * B`,
/// with `du1 = uv[i1] - uv[i0]`, `du2 = uv[i2] - uv[i0]`,
/// or `None` when the system is singular.
pub open spec fn tri_basis(pos: Seq<V3>, uv: Seq<V2>, i0: int, i1: int, i2: int) -> Option<
    (V3, V3),
> {
    uv_basis_of(
        sub2_of(uv[i1], uv[i0]),
        sub2_of(uv[i2], uv[i0]),
        sub3_of(pos[i1], pos[i0]),
        sub3_of(pos[i2], pos[i0]),
    )
}

/// The running accumulation over triangles: per-vertex sums of contributed
/// tangents, bitangents and normal candidates, and the number of
/// contributing triangles.
pub struct Accum {
    pub tangents: Seq<V3>,
    pub bitangents: Seq<V3>,
    pub normals: Seq<V3>,
    pub counts: Seq<int>,
}

/// Add `v` into entry `i` of a sum sequence.
pub open spec fn accum_add(s: Seq<V3>, i: int, v: V3) -> Seq<V3> {
    s.update(i, add3_of(s[i], v))
}

/// Increment entry `i` of a counter sequence.
pub open spec fn bump(c: Seq<int>, i: int) -> Seq<int> {
    c.update(i, c[i] + 1)
}

/// Fold one solved triangle into the accumulation. The three additions are
/// sequential, so a triangle that repeats a vertex index contributes to that
/// vertex once per occurrence.
pub open spec fn accum_tri(a: Accum, i0: int, i1: int, i2: int, tan: V3, bit: V3, nrm: V3) -> Accum {
    Accum {
        tangents: accum_add(accum_add(accum_add(a.tangents, i0, tan), i1, tan), i2, tan),
        bitangents: accum_add(accum_add(accum_add(a.bitangents, i0, bit), i1, bit), i2, bit),
        normals: accum_add(accum_add(accum_add(a.normals, i0, nrm), i1, nrm), i2, nrm),
        counts: bump(bump(bump(a.counts, i0), i1), i2),
    }
}

/// The empty accumulation over `n` vertices.
pub open spec fn init_accum(n: nat) -> Accum {
    Accum {
        tangents: Seq::new(n, |i: int| zero3()),
        bitangents: Seq::new(n, |i: int| zero3()),
        normals: Seq::new(n, |i: int| zero3()),
        counts: Seq::new(n, |i: int| 0),
    }
}

/// The accumulation after folding the first `t` triangles of `idx`.
pub open spec fn accum_after(pos: Seq<V3>, uv: Seq<V2>, idx: Seq<u32>, t: int) -> Accum
    decreases t,
{
    if t <= 0 {
        init_accum(pos.len())
    } else {
        let a = accum_after(pos, uv, idx, t - 1);
        let i0 = idx[3 * (t - 1)] as int;
        let i1 = idx[3 * (t - 1) + 1] as int;
        let i2 = idx[3 * (t - 1) + 2] as int;
        match tri_basis(pos, uv, i0, i1, i2) {
            Some(tb) => accum_tri(
                a,
                i0,
                i1,
                i2,
                tb.0,
                tb.1,
                normalize3_of(cross3_of(tb.1, tb.0)),
            ),
            None => a,
        }
    }
}

/// The final per-vertex output: the normalized average when at least one
/// triangle contributed, the fallback axis otherwise.
pub open spec fn averaged(sums: Seq<V3>, counts: Seq<int>, i: int, fallback: V3) -> V3 {
    if counts[i] > 0 {
        normalize3_of(divn3_of(sums[i], counts[i] as usize))
    } else {
        fallback
    }
}

/// All four accumulator sequences keep the vertex count as their length, and
/// every counter stays between 0 and three times the number of folded
/// triangles (a degenerate triangle that repeats a vertex index contributes
/// once per occurrence).
pub proof fn lemma_accum_shape(pos: Seq<V3>, uv: Seq<V2>, idx: Seq<u32>, t: int)
    requires
        0 <= t,
        3 * t <= idx.len(),
        forall|k: int| 0 <= k < idx.len() ==> (idx[k] as int) < pos.len(),
    ensures
        accum_after(pos, uv, idx, t).tangents.len() == pos.len(),
        accum_after(pos, uv, idx, t).bitangents.len() == pos.len(),
        accum_after(pos, uv, idx, t).normals.len() == pos.len(),
        accum_after(pos, uv, idx, t).counts.len() == pos.len(),
        forall|i: int|
            0 <= i < pos.len() ==> 0 <= #[trigger] accum_after(pos, uv, idx, t).counts[i] <= 3 * t,
    decreases t,
{
    if t > 0 {
        lemma_accum_shape(pos, uv, idx, t - 1);
        let a = accum_after(pos, uv, idx, t - 1);
        let next = accum_after(pos, uv, idx, t);
        let i0 = idx[3 * (t - 1)] as int;
        let i1 = idx[3 * (t - 1) + 1] as int;
        let i2 = idx[3 * (t - 1) + 2] as int;
        match tri_basis(pos, uv, i0, i1, i2) {
            Some(tb) => {
                assert forall|i: int| 0 <= i < pos.len() implies 0 <= #[trigger] next.counts[i]
                    <= 3 * t by {
                    assert(0 <= a.counts[i] <= 3 * (t - 1));
                }
            }
            None => {}
        }
    }
}

/// A vertex that no successfully solved triangle among the first `t` names
/// keeps a zero counter and zero sums.
pub proof fn lemma_untouched_vertex(pos: Seq<V3>, uv: Seq<V2>, idx: Seq<u32>, t: int, i: int)
    requires
        0 <= t,
        3 * t <= idx.len(),
        forall|k: int| 0 <= k < idx.len() ==> (idx[k] as int) < pos.len(),
        0 <= i < pos.len(),
        forall|s: int|
            0 <= s < t && #[trigger] tri_basis(
                pos,
                uv,
                idx[3 * s] as int,
                idx[3 * s + 1] as int,
                idx[3 * s + 2] as int,
            ) is Some ==> idx[3 * s] as int != i && idx[3 * s + 1] as int != i && idx[3 * s + 2]
                as int != i,
    ensures
        accum_after(pos, uv, idx, t).counts[i] == 0,
        accum_after(pos, uv, idx, t).tangents[i] == zero3(),
        accum_after(pos, uv, idx, t).bitangents[i] == zero3(),
        accum_after(pos, uv, idx, t).normals[i] == zero3(),
    decreases t,
{
    if t > 0 {
        lemma_untouched_vertex(pos, uv, idx, t - 1, i);
        lemma_accum_shape(pos, uv, idx, t - 1);
    }
}

/// A vertex shared by zero triangles with a valid UV solve comes out of the
/// averaging as exactly the documented fallback axes: tangent +X, bitangent
/// +Y, normal +Z.
pub proof fn lemma_isolated_vertex_fallback(pos: Seq<V3>, uv: Seq<V2>, idx: Seq<u32>, i: int)
    requires
        idx.len() % 3 == 0,
        forall|k: int| 0 <= k < idx.len() ==> (idx[k] as int) < pos.len(),
        0 <= i < pos.len(),
        forall|s: int|
            0 <= s < idx.len() / 3 && #[trigger] tri_basis(
                pos,
                uv,
                idx[3 * s] as int,
                idx[3 * s + 1] as int,
                idx[3 * s + 2] as int,
            ) is Some ==> idx[3 * s] as int != i && idx[3 * s + 1] as int != i && idx[3 * s + 2]
                as int != i,
    ensures
        ({
            let acc = accum_after(pos, uv, idx, idx.len() as int / 3);
            &&& averaged(acc.tangents, acc.counts, i, fallback_tangent()) == fallback_tangent()
            &&& averaged(acc.bitangents, acc.counts, i, fallback_bitangent())
                == fallback_bitangent()
            &&& averaged(acc.normals, acc.counts, i, fallback_normal()) == fallback_normal()
        }),
{
    lemma_untouched_vertex(pos, uv, idx, idx.len() as int / 3, i);
}

/// Materialize the effective texcoord list: the given texcoords when their
/// length matches the vertex count, all zeros otherwise.
fn materialize_texcoords(positions: &Vec<V3>, texcoords: &Vec<V2>) -> (r: Vec<V2>)
    ensures
        r@ == effective_texcoords(positions@, texcoords@),
        r@.len() == positions@.len(),
{
    let n = positions.len();
    let mut uvs: Vec<V2> = Vec::new();
    if texcoords.len() == n {
        let mut i: usize = 0;
        while i < n
            invariant
                texcoords@.len() == n == positions@.len(),
                i <= n,
                uvs@ == texcoords@.subrange(0, i as int),
            decreases n - i,
        {
            uvs.push(texcoords[i]);
            i += 1;
        }
        proof {
            assert(uvs@ =~= effective_texcoords(positions@, texcoords@));
        }
    } else {
        let mut i: usize = 0;
        while i < n
            invariant
                texcoords@.len() != positions@.len(),
                n == positions@.len(),
                i <= n,
                uvs@.len() == i,
                forall|j: int| 0 <= j < i ==> uvs@[j] == zero2(),
            decreases n - i,
        {
            uvs.push(V2::zero());
            i += 1;
        }
        proof {
            assert(uvs@ =~= effective_texcoords(positions@, texcoords@));
        }
    }
    uvs
}

/// The tangent/bitangent solve of every triangle, in triangle order: entry
/// `t` is `tri_basis` of the `t`-th index triple — `Some` exactly when the
/// solve of that triangle's UV system has a unique solution.
pub fn triangle_bases(positions: &Vec<V3>, texcoords: &Vec<V2>, indices: &Vec<u32>) -> (r: Vec<
    Option<(V3, V3)>,
>)
    requires
        indices@.len() % 3 == 0,
        forall|k: int| 0 <= k < indices@.len() ==> (indices@[k] as int) < positions@.len(),
    ensures
        r@.len() == indices@.len() / 3,
        forall|t: int|
            0 <= t < r@.len() ==> #[trigger] r@[t] == tri_basis(
                positions@,
                effective_texcoords(positions@, texcoords@),
                indices@[3 * t] as int,
                indices@[3 * t + 1] as int,
                indices@[3 * t + 2] as int,
            ),
{
    let ghost uv_spec = effective_texcoords(positions@, texcoords@);
    let uvs = materialize_texcoords(positions, texcoords);
    let mut r: Vec<Option<(V3, V3)>> = Vec::new();
    let idx_len = indices.len();
    let tri_total = idx_len / 3;
    let n = positions.len();
    let mut t: usize = 0;
    while t < tri_total
        invariant
            n == positions@.len(),
            uvs@ == uv_spec,
            uvs@.len() == n,
            indices@.len() % 3 == 0,
            idx_len == indices@.len(),
            tri_total == indices@.len() / 3,
            forall|k: int| 0 <= k < indices@.len() ==> (indices@[k] as int) < n,
            t <= tri_total,
            r@.len() == t,
            forall|j: int|
                0 <= j < t ==> #[trigger] r@[j] == tri_basis(
                    positions@,
                    uv_spec,
                    indices@[3 * j] as int,
                    indices@[3 * j + 1] as int,
                    indices@[3 * j + 2] as int,
                ),
        decreases tri_total - t,
    {
        proof {
            assert(indices@.len() as int == 3 * (indices@.len() as int / 3) + (indices@.len()
                as int % 3));
            assert(3 * (t as int) + 2 < indices@.len());
        }
        let i0 = indices[3 * t] as usize;
        let i1 = indices[3 * t + 1] as usize;
        let i2 = indices[3 * t + 2] as usize;
        let du1 = sub2(uvs[i1], uvs[i0]);
        let du2 = sub2(uvs[i2], uvs[i0]);
        let dp1 = sub3(positions[i1], positions[i0]);
        let dp2 = sub3(positions[i2], positions[i0]);
        r.push(uv_basis(du1, du2, dp1, dp2));
        t += 1;
    }
    r
}

/// Compute per-vertex tangents, bitangents and smoothed normals for an
/// indexed triangle list. Texcoords whose length does not match the vertex
/// count are treated as all zero. The result follows `accum_after` /
/// `averaged` exactly: one entry per vertex, the normalized average of the
/// per-triangle solves that touched it, or the fallback axes when none did.
pub fn solve(positions: &Vec<V3>, texcoords: &Vec<V2>, indices: &Vec<u32>) -> (r: (
    Vec<V3>,
    Vec<V3>,
    Vec<V3>,
))
    requires
        indices@.len() % 3 == 0,
        forall|k: int| 0 <= k < indices@.len() ==> (indices@[k] as int) < positions@.len(),
    ensures
        r.0@.len() == positions@.len(),
        r.1@.len() == positions@.len(),
        r.2@.len() == positions@.len(),
        forall|i: int|
            0 <= i < positions@.len() ==> {
                let uv = effective_texcoords(positions@, texcoords@);
                let acc = accum_after(positions@, uv, indices@, indices@.len() as int / 3);
                &&& #[trigger] r.0@[i] == averaged(acc.tangents, acc.counts, i, fallback_tangent())
                &&& r.1@[i] == averaged(acc.bitangents, acc.counts, i, fallback_bitangent())
                &&& r.2@[i] == averaged(acc.normals, acc.counts, i, fallback_normal())
            },
{
    let n = positions.len();
    let ghost uv_spec = effective_texcoords(positions@, texcoords@);
    let uvs = materialize_texcoords(positions, texcoords);

    // Zero-initialize the accumulators.
    let mut tans: Vec<V3> = Vec::new();
    let mut bits: Vec<V3> = Vec::new();
    let mut nrms: Vec<V3> = Vec::new();
    let mut counts: Vec<usize> = Vec::new();
    let mut i: usize = 0;
    while i < n
        invariant
            i <= n,
            tans@.len() == i,
            bits@.len() == i,
            nrms@.len() == i,
            counts@.len() == i,
            forall|j: int| 0 <= j < i ==> tans@[j] == zero3(),
            forall|j: int| 0 <= j < i ==> bits@[j] == zero3(),
            forall|j: int| 0 <= j < i ==> nrms@[j] == zero3(),
            forall|j: int| 0 <= j < i ==> counts@[j] == 0,
        decreases n - i,
    {
        tans.push(V3::zero());
        bits.push(V3::zero());
        nrms.push(V3::zero());
        counts.push(0);
        i += 1;
    }
    proof {
        let a0 = init_accum(positions@.len());
        assert(tans@ =~= a0.tangents);
        assert(bits@ =~= a0.bitangents);
        assert(nrms@ =~= a0.normals);
        assert forall|j: int| 0 <= j < n implies counts@[j] as int == a0.counts[j] by {}
    }

    // Fold every triangle into the accumulators.
    let idx_len = indices.len();
    let tri_total = idx_len / 3;
    let mut t: usize = 0;
    while t < tri_total
        invariant
            positions@.len() == n,
            uvs@ == uv_spec,
            uvs@.len() == n,
            indices@.len() % 3 == 0,
            idx_len == indices@.len(),
            tri_total == indices@.len() / 3,
            forall|k: int| 0 <= k < indices@.len() ==> (indices@[k] as int) < n,
            t <= tri_total,
            accum_after(positions@, uv_spec, indices@, t as int).counts.len() == n,
            tans@ == accum_after(positions@, uv_spec, indices@, t as int).tangents,
            bits@ == accum_after(positions@, uv_spec, indices@, t as int).bitangents,
            nrms@ == accum_after(positions@, uv_spec, indices@, t as int).normals,
            counts@.len() == n,
            forall|j: int|
                0 <= j < n ==> counts@[j] as int == accum_after(
                    positions@,
                    uv_spec,
                    indices@,
                    t as int,
                ).counts[j],
        decreases tri_total - t,
    {
        proof {
            lemma_accum_shape(positions@, uv_spec, indices@, t as int);
            assert(indices@.len() as int == 3 * (indices@.len() as int / 3) + (indices@.len()
                as int % 3));
            assert(3 * (t as int) + 2 < indices@.len());
        }
        let i0 = indices[3 * t] as usize;
        let i1 = indices[3 * t + 1] as usize;
        let i2 = indices[3 * t + 2] as usize;
        let du1 = sub2(uvs[i1], uvs[i0]);
        let du2 = sub2(uvs[i2], uvs[i0]);
        let dp1 = sub3(positions[i1], positions[i0]);
        let dp2 = sub3(positions[i2], positions[i0]);
        let ghost acc_prev = accum_after(positions@, uv_spec, indices@, t as int);
        match uv_basis(du1, du2, dp1, dp2) {
            Some((tan, bit)) => {
                let nrm = normalize3(cross3(bit, tan));
                proof {
                    lemma_accum_shape(positions@, uv_spec, indices@, t as int);
                    // Counters cannot overflow: they are bounded by the index
                    // list length.
                    assert(acc_prev.counts[i0 as int] <= 3 * (t as int));
                    assert(acc_prev.counts[i1 as int] <= 3 * (t as int));
                    assert(acc_prev.counts[i2 as int] <= 3 * (t as int));
                    assert(3 * (t as int) + 3 <= indices@.len());
                }
                let v0 = add3(tans[i0], tan);
                tans.set(i0, v0);
                let v1 = add3(tans[i1], tan);
                tans.set(i1, v1);
                let v2 = add3(tans[i2], tan);
                tans.set(i2, v2);
                let w0 = add3(bits[i0], bit);
                bits.set(i0, w0);
                let w1 = add3(bits[i1], bit);
                bits.set(i1, w1);
                let w2 = add3(bits[i2], bit);
                bits.set(i2, w2);
                let u0 = add3(nrms[i0], nrm);
                nrms.set(i0, u0);
                let u1 = add3(nrms[i1], nrm);
                nrms.set(i1, u1);
                let u2 = add3(nrms[i2], nrm);
                nrms.set(i2, u2);
                let c0 = counts[i0] + 1;
                counts.set(i0, c0);
                let c1 = counts[i1] + 1;
                counts.set(i1, c1);
                let c2 = counts[i2] + 1;
                counts.set(i2, c2);
                proof {
                    let acc_next = accum_after(positions@, uv_spec, indices@, t as int + 1);
                    assert(acc_next == accum_tri(
                        acc_prev,
                        i0 as int,
                        i1 as int,
                        i2 as int,
                        tan,
                        bit,
                        nrm,
                    ));
                    assert(tans@ =~= acc_next.tangents);
                    assert(bits@ =~= acc_next.bitangents);
                    assert(nrms@ =~= acc_next.normals);
                    assert forall|j: int| 0 <= j < n implies counts@[j] as int
                        == acc_next.counts[j] by {}
                }
            }
            None => {
                proof {
                    assert(accum_after(positions@, uv_spec, indices@, t as int + 1) == acc_prev);
                }
            }
        }
        t += 1;
    }

    // Average or fall back, per vertex.
    let ghost acc = accum_after(positions@, uv_spec, indices@, indices@.len() as int / 3);
    proof {
        lemma_accum_shape(positions@, uv_spec, indices@, indices@.len() as int / 3);
    }
    let mut out_t: Vec<V3> = Vec::new();
    let mut out_b: Vec<V3> = Vec::new();
    let mut out_n: Vec<V3> = Vec::new();
    let mut i: usize = 0;
    while i < n
        invariant
            positions@.len() == n,
            tans@ == acc.tangents,
            bits@ == acc.bitangents,
            nrms@ == acc.normals,
            counts@.len() == n,
            acc.counts.len() == n,
            forall|j: int| 0 <= j < n ==> counts@[j] as int == acc.counts[j],
            tans@.len() == n,
            bits@.len() == n,
            nrms@.len() == n,
            i <= n,
            out_t@.len() == i,
            out_b@.len() == i,
            out_n@.len() == i,
            forall|j: int|
                0 <= j < i ==> out_t@[j] == averaged(acc.tangents, acc.counts, j, fallback_tangent()),
            forall|j: int|
                0 <= j < i ==> out_b@[j] == averaged(
                    acc.bitangents,
                    acc.counts,
                    j,
                    fallback_bitangent(),
                ),
            forall|j: int|
                0 <= j < i ==> out_n@[j] == averaged(acc.normals, acc.counts, j, fallback_normal()),
        decreases n - i,
    {
        let c = counts[i];
        if c > 0 {
            out_t.push(normalize3(divn3(tans[i], c)));
            out_b.push(normalize3(divn3(bits[i], c)));
            out_n.push(normalize3(divn3(nrms[i], c)));
        } else {
            out_t.push(V3::unit_x());
            out_b.push(V3::unit_y());
            out_n.push(V3::unit_z());
        }
        i += 1;
    }
    (out_t, out_b, out_n)
}

} // verus!
