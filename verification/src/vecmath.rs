//! Trusted float-vector primitives.
//!
//! The pipeline's float arithmetic is delegated to glam and nalgebra. Each
//! operation is a deterministic function of its argument bit patterns (IEEE
//! 754 arithmetic), so its result is given a name: an uninterpreted spec
//! function that the wrapper's contract applies. Verified code reasons about
//! the surrounding structure (which values flow where) in terms of these
//! names; the numeric content itself is checked by the crate's tests.

use vstd::prelude::*;

use bytemuck::cast;
use glam::{Vec2, Vec3, Vec4};
use nalgebra::{Matrix2, Matrix2x3, LU};

use crate::bits::{V2, V3};

verus! {

/// Component-wise difference `a - b` of two float vectors, as bit patterns.
pub uninterp spec fn sub3_of(a: V3, b: V3) -> V3;

/// Component-wise sum `a + b` of two float vectors, as bit patterns.
pub uninterp spec fn add3_of(a: V3, b: V3) -> V3;

/// Component-wise difference `a - b` of two float texcoords, as bit patterns.
pub uninterp spec fn sub2_of(a: V2, b: V2) -> V2;

/// The cross product `a x b`, as bit patterns.
pub uninterp spec fn cross3_of(a: V3, b: V3) -> V3;

/// The vector scaled to unit length, `v / |v|`, as bit patterns.
pub uninterp spec fn normalize3_of(v: V3) -> V3;

/// The vector divided component-wise by the float value of the count `n`.
pub uninterp spec fn divn3_of(v: V3, n: usize) -> V3;

/// The unique solution `(t, b)` of the 2x2 linear system
/// `dp1 = du1.x * t + du1.y * b`, `dp2 = du2.x * t + du2.y * b`,
/// or `None` when the coefficient matrix is singular.
pub uninterp spec fn uv_basis_of(du1: V2, du2: V2, dp1: V3, dp2: V3) -> Option<(V3, V3)>;

/// Relies on glam's `Vec3` subtraction: component-wise IEEE difference.
#[verifier::external_body]
pub(crate) fn sub3(a: V3, b: V3) -> (r: V3)
    ensures
        r == sub3_of(a, b),
{
    let ga: Vec3 = cast([a.x, a.y, a.z]);
    let gb: Vec3 = cast([b.x, b.y, b.z]);
    let c: [u32; 3] = cast(ga - gb);
    V3 { x: c[0], y: c[1], z: c[2] }
}

/// Relies on glam's `Vec3` addition: component-wise IEEE sum.
#[verifier::external_body]
pub(crate) fn add3(a: V3, b: V3) -> (r: V3)
    ensures
        r == add3_of(a, b),
{
    let ga: Vec3 = cast([a.x, a.y, a.z]);
    let gb: Vec3 = cast([b.x, b.y, b.z]);
    let c: [u32; 3] = cast(ga + gb);
    V3 { x: c[0], y: c[1], z: c[2] }
}

/// Relies on glam's `Vec2` subtraction: component-wise IEEE difference.
#[verifier::external_body]
pub(crate) fn sub2(a: V2, b: V2) -> (r: V2)
    ensures
        r == sub2_of(a, b),
{
    let ga: Vec2 = cast([a.x, a.y]);
    let gb: Vec2 = cast([b.x, b.y]);
    let c: [u32; 2] = cast(ga - gb);
    V2 { x: c[0], y: c[1] }
}

/// Relies on glam's `Vec3::cross`.
#[verifier::external_body]
pub(crate) fn cross3(a: V3, b: V3) -> (r: V3)
    ensures
        r == cross3_of(a, b),
{
    let ga: Vec3 = cast([a.x, a.y, a.z]);
    let gb: Vec3 = cast([b.x, b.y, b.z]);
    let c: [u32; 3] = cast(ga.cross(gb));
    V3 { x: c[0], y: c[1], z: c[2] }
}

/// Relies on glam's `Vec3::normalize`: `v` times the reciprocal of its length.
#[verifier::external_body]
pub(crate) fn normalize3(v: V3) -> (r: V3)
    ensures
        r == normalize3_of(v),
{
    let g: Vec3 = cast([v.x, v.y, v.z]);
    let c: [u32; 3] = cast(g.normalize());
    V3 { x: c[0], y: c[1], z: c[2] }
}

/// Relies on glam's `Vec3` division by a splatted scalar, used to average an
/// accumulated vector over `n` contributions. `n` is positive, so no
/// component divides zero by zero.
#[verifier::external_body]
pub(crate) fn divn3(v: V3, n: usize) -> (r: V3)
    requires
        n >= 1,
    ensures
        r == divn3_of(v, n),
{
    let g: Vec3 = cast([v.x, v.y, v.z]);
    let c: [u32; 3] = cast(g / Vec3::splat(n as _));
    V3 { x: c[0], y: c[1], z: c[2] }
}

/// Relies on nalgebra's LU decomposition (`nalgebra::linalg::LU::new` plus
/// `solve`): returns the solution of the 2x2 system whose coefficient rows
/// are `du1`, `du2` and whose right-hand-side rows are `dp1`, `dp2`, as the
/// solution's rows; `None` exactly when the coefficient matrix is singular.
#[verifier::external_body]
pub(crate) fn uv_basis(du1: V2, du2: V2, dp1: V3, dp2: V3) -> (r: Option<(V3, V3)>)
    ensures
        r == uv_basis_of(du1, du2, dp1, dp2),
{
    let u: Vec4 = cast([du1.x, du1.y, du2.x, du2.y]);
    let p1: Vec3 = cast([dp1.x, dp1.y, dp1.z]);
    let p2: Vec3 = cast([dp2.x, dp2.y, dp2.z]);
    let lu = LU::new(Matrix2::from_row_iterator(u.to_array()));
    let s = lu.solve(&Matrix2x3::from_row_iterator(p1.to_array().into_iter().chain(p2.to_array())))?;
    let t: [u32; 6] = cast(s.data.0);
    Some((V3 { x: t[0], y: t[2], z: t[4] }, V3 { x: t[1], y: t[3], z: t[5] }))
}

} // verus!
