//! Offscreen cascade planning.
//!
//! A fixed total of directional slices is rendered through 6 principal axis
//! directions. The hardware bounds how many multiview layers one pass can
//! write, so the slices are partitioned into batches of at most that many
//! consecutive slices; the last batch is clamped to what remains. Two
//! generations of output textures alternate between passes: pass `p` writes
//! generation `(p + 1) % 2` while generation `p % 2` holds the previous
//! pass's result.

use vstd::prelude::*;

use crate::bits::{NEG_ONE_BITS, ONE_BITS, V3, ZERO_BITS};

verus! {

/// Total number of directional slices of the offscreen cascade.
pub const SLICES: u32 = 256;

/// Number of principal axis directions rendered per batch.
pub const AXIS_COUNT: u32 = 6;

/// Number of batches needed for `slices` slices under a limit of
/// `max_views` multiview layers per pass: the ceiling of their quotient.
pub open spec fn batch_count_of(slices: int, max_views: int) -> int {
    (slices + max_views - 1) / max_views
}

/// First slice of batch `i`.
pub open spec fn batch_first_of(max_views: int, i: int) -> int {
    i * max_views
}

/// Number of slices batch `i` renders: the full limit, clamped to what
/// remains for the last batch.
pub open spec fn batch_views_of(slices: int, max_views: int, i: int) -> int {
    if (i + 1) * max_views <= slices {
        max_views
    } else {
        slices - i * max_views
    }
}

/// One batch of the cascade: a run of consecutive slices rendered in a
/// single multiview pass.
#[derive(Clone, Copy, Debug, PartialEq, Eq, Structural)]
pub struct CascadeBatch {
    pub first_slice: u32,
    pub view_count: u32,
}

/// The number of batches, computed without overflow.
pub fn batch_count(slices: u32, max_views: u32) -> (r: u32)
    requires
        max_views >= 1,
    ensures
        r as int == batch_count_of(slices as int, max_views as int),
        r <= slices,
{
    let wide = (slices as u64 + max_views as u64 - 1) / max_views as u64;
    proof {
        let s = slices as int;
        let m = max_views as int;
        let bc = (s + m - 1) / m;
        vstd::arithmetic::div_mod::lemma_fundamental_div_mod(s + m - 1, m);
        assert(bc * m == m * bc) by (nonlinear_arith);
        assert(bc <= s) by (nonlinear_arith)
            requires
                m >= 1,
                s >= 0,
                bc * m >= s,
                bc * m <= s + m - 1,
                bc >= 0,
        ;
    }
    wide as u32
}

/// Partition `slices` slices into batches of at most `max_views`
/// consecutive slices. Every batch except possibly the last is full; the
/// last is clamped to the remaining slices, never overrunning the total.
pub fn plan_batches(slices: u32, max_views: u32) -> (r: Vec<CascadeBatch>)
    requires
        max_views >= 1,
    ensures
        r@.len() == batch_count_of(slices as int, max_views as int),
        forall|i: int|
            0 <= i < r@.len() ==> #[trigger] r@[i].first_slice as int == batch_first_of(
                max_views as int,
                i,
            ),
        forall|i: int|
            0 <= i < r@.len() ==> #[trigger] r@[i].view_count as int == batch_views_of(
                slices as int,
                max_views as int,
                i,
            ),
{
    let bc = batch_count(slices, max_views);
    let mut r: Vec<CascadeBatch> = Vec::new();
    let mut next_first: u32 = 0;
    let mut i: u32 = 0;
    while i < bc
        invariant
            max_views >= 1,
            bc as int == batch_count_of(slices as int, max_views as int),
            i <= bc,
            r@.len() == i,
            i < bc ==> next_first as int == (i as int) * (max_views as int),
            i < bc ==> next_first < slices,
            forall|j: int|
                0 <= j < i ==> #[trigger] r@[j].first_slice as int == batch_first_of(
                    max_views as int,
                    j,
                ),
            forall|j: int|
                0 <= j < i ==> #[trigger] r@[j].view_count as int == batch_views_of(
                    slices as int,
                    max_views as int,
                    j,
                ),
        decreases bc - i,
    {
        let remaining = slices - next_first;
        let views = if remaining > max_views {
            max_views
        } else {
            remaining
        };
        r.push(CascadeBatch { first_slice: next_first, view_count: views });
        proof {
            let s = slices as int;
            let m = max_views as int;
            let ii = i as int;
            assert((ii + 1) * m == ii * m + m) by (nonlinear_arith);
            assert(views as int == batch_views_of(s, m, ii));
            lemma_next_first(s, m, ii);
        }
        next_first = next_first + views;
        i += 1;
        proof {
            if (i as int) < bc as int {
                lemma_inside_has_room(slices as int, max_views as int, i as int);
            }
        }
    }
    r
}

/// Every batch index below the batch count starts strictly inside the
/// slice total.
proof fn lemma_inside_has_room(s: int, m: int, i: int)
    requires
        m >= 1,
        s >= 0,
        0 <= i < batch_count_of(s, m),
    ensures
        i * m < s,
{
    let bc = batch_count_of(s, m);
    vstd::arithmetic::div_mod::lemma_fundamental_div_mod(s + m - 1, m);
    assert(bc * m == m * bc) by (nonlinear_arith);
    assert(i * m <= (bc - 1) * m) by (nonlinear_arith)
        requires
            i <= bc - 1,
            m >= 1,
    ;
    assert((bc - 1) * m == bc * m - m) by (nonlinear_arith);
}

/// After the last batch the running first-slice cursor has consumed the
/// whole total.
proof fn lemma_last_reaches_total(s: int, m: int)
    requires
        m >= 1,
        s >= 0,
    ensures
        batch_count_of(s, m) * m >= s,
{
    let bc = batch_count_of(s, m);
    vstd::arithmetic::div_mod::lemma_fundamental_div_mod(s + m - 1, m);
    assert(bc * m == m * bc) by (nonlinear_arith);
}

/// One batch advances the first-slice cursor by its clamped view count:
/// to the next full boundary, or to the total for the last batch.
proof fn lemma_next_first(s: int, m: int, i: int)
    requires
        m >= 1,
        s >= 0,
        0 <= i,
        i * m < s,
    ensures
        i * m + batch_views_of(s, m, i) == if (i + 1) * m <= s {
            (i + 1) * m
        } else {
            s
        },
        1 <= batch_views_of(s, m, i) <= m,
        i * m + batch_views_of(s, m, i) <= s,
{
    assert((i + 1) * m == i * m + m) by (nonlinear_arith);
}

/// The batches tile the slice range exactly: slice `k` lies in batch
/// `k / max_views`, at layer `k % max_views`, strictly inside that batch's
/// clamped view count — the last batch never overruns the total.
pub proof fn lemma_batches_partition(slices: int, max_views: int, k: int)
    requires
        max_views >= 1,
        0 <= k < slices,
    ensures
        0 <= k / max_views < batch_count_of(slices, max_views),
        batch_first_of(max_views, k / max_views) <= k,
        k - batch_first_of(max_views, k / max_views) == k % max_views,
        k % max_views < batch_views_of(slices, max_views, k / max_views),
        batch_first_of(max_views, k / max_views) + batch_views_of(
            slices,
            max_views,
            k / max_views,
        ) <= slices,
{
    let m = max_views;
    let s = slices;
    let b = k / m;
    vstd::arithmetic::div_mod::lemma_fundamental_div_mod(k, m);
    assert(b * m == m * b) by (nonlinear_arith);
    assert((b + 1) * m == b * m + m) by (nonlinear_arith);
    // b < batch_count: b*m <= k < s <= bc*m, so b < bc.
    lemma_last_reaches_total(s, m);
    let bc = batch_count_of(s, m);
    assert(b < bc) by (nonlinear_arith)
        requires
            b * m <= k,
            k < s,
            s <= bc * m,
            m >= 1,
            b >= 0,
            bc >= 0,
    ;
}

/// The global slice index and its two bounding plane indices for layer `k`
/// of a batch: slice `g` steps between planes `g` and `g + 1`.
pub fn slice_planes(batch: &CascadeBatch, k: u32) -> (r: (u32, u32))
    requires
        k < batch.view_count,
        batch.first_slice + batch.view_count <= u32::MAX,
    ensures
        r.0 == batch.first_slice + k,
        r.1 == batch.first_slice + k + 1,
{
    (batch.first_slice + k, batch.first_slice + k + 1)
}

/// The texture generation pass `p` writes into: `(p + 1) % 2`.
pub open spec fn write_generation_of(p: int) -> int {
    (p + 1) % 2
}

/// The texture generation pass `p` reads from: `p % 2`.
pub open spec fn read_generation_of(p: int) -> int {
    p % 2
}

/// The generation written by pass `pass_index`.
pub fn write_generation(pass_index: u32) -> (r: u32)
    ensures
        r as int == write_generation_of(pass_index as int),
{
    if pass_index % 2 == 0 {
        1
    } else {
        0
    }
}

/// The generation read by pass `pass_index`.
pub fn read_generation(pass_index: u32) -> (r: u32)
    ensures
        r as int == read_generation_of(pass_index as int),
{
    pass_index % 2
}

/// The ping-pong discipline: a pass never writes the generation it reads,
/// and each pass reads exactly what the previous pass wrote.
pub proof fn lemma_ping_pong(p: int)
    requires
        p >= 0,
    ensures
        write_generation_of(p) != read_generation_of(p),
        read_generation_of(p + 1) == write_generation_of(p),
{
}

/// The six principal axis directions, in order +X, -X, +Y, -Y, +Z, -Z.
pub fn axis_directions() -> (r: Vec<V3>)
    ensures
        r@.len() == AXIS_COUNT,
        r@[0] == (V3 { x: ONE_BITS, y: ZERO_BITS, z: ZERO_BITS }),
        r@[1] == (V3 { x: NEG_ONE_BITS, y: ZERO_BITS, z: ZERO_BITS }),
        r@[2] == (V3 { x: ZERO_BITS, y: ONE_BITS, z: ZERO_BITS }),
        r@[3] == (V3 { x: ZERO_BITS, y: NEG_ONE_BITS, z: ZERO_BITS }),
        r@[4] == (V3 { x: ZERO_BITS, y: ZERO_BITS, z: ONE_BITS }),
        r@[5] == (V3 { x: ZERO_BITS, y: ZERO_BITS, z: NEG_ONE_BITS }),
{
    let mut r: Vec<V3> = Vec::new();
    r.push(V3 { x: ONE_BITS, y: ZERO_BITS, z: ZERO_BITS });
    r.push(V3 { x: NEG_ONE_BITS, y: ZERO_BITS, z: ZERO_BITS });
    r.push(V3 { x: ZERO_BITS, y: ONE_BITS, z: ZERO_BITS });
    r.push(V3 { x: ZERO_BITS, y: NEG_ONE_BITS, z: ZERO_BITS });
    r.push(V3 { x: ZERO_BITS, y: ZERO_BITS, z: ONE_BITS });
    r.push(V3 { x: ZERO_BITS, y: ZERO_BITS, z: NEG_ONE_BITS });
    r
}

} // verus!
