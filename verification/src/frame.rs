//! Per-frame pass orchestration.
//!
//! Each presented frame runs a strictly ordered, single timeline: first the
//! offscreen cascade passes (each iterating every batch and every axis),
//! then the main color+depth pass — clearing color to opaque black and
//! depth to the far plane, replaying the main draw bundle, and drawing the
//! debug geometry when enabled — then the present. The plan below is that
//! order as data; the GPU layer replays it step by step.

use vstd::prelude::*;

use crate::bits::{ONE_BITS, V4, ZERO_BITS};
use crate::cascade::{read_generation_of, write_generation_of};

verus! {

/// One step of a frame, in execution order.
#[derive(Clone, Copy, Debug, PartialEq, Eq, Structural)]
pub enum PassStep {
    /// One multiview render of the whole geometry list: cascade pass
    /// `pass_index`, batch `batch_index`, axis `axis_index`, writing into
    /// texture generation `write_generation` while generation
    /// `read_generation` holds the previous pass's result.
    Offscreen {
        pass_index: u32,
        batch_index: u32,
        axis_index: u32,
        write_generation: u32,
        read_generation: u32,
    },
    /// The main color+depth pass: clear, replay the main draw bundle, then
    /// draw the debug geometry when enabled.
    Main { clear_color: V4, clear_depth: u32, debug_geometry: bool },
    /// Hand the finished color target over for compositing and present it.
    Present,
}

/// Opaque black: the main pass's clear color.
pub open spec fn clear_color_black() -> V4 {
    V4 { x: ZERO_BITS, y: ZERO_BITS, z: ZERO_BITS, w: ONE_BITS }
}

/// A step's position is strictly below the block of any later pass.
proof fn lemma_step_index_bound(pp: int, kt: int, p2: int, b2: int, a2: int)
    requires
        0 <= p2 < pp,
        0 <= b2 < kt,
        0 <= a2 < 6,
    ensures
        0 <= (p2 * kt + b2) * 6 + a2,
        (p2 * kt + b2) * 6 + a2 < pp * kt * 6,
{
    assert((p2 * kt + b2) * 6 + a2 < (p2 * kt + kt) * 6) by (nonlinear_arith)
        requires
            b2 < kt,
            a2 < 6,
            0 <= a2,
    ;
    assert((p2 * kt + kt) * 6 == (p2 + 1) * (kt * 6)) by (nonlinear_arith);
    assert((p2 + 1) * (kt * 6) <= pp * (kt * 6)) by (nonlinear_arith)
        requires
            p2 + 1 <= pp,
            kt * 6 >= 0,
    ;
    assert(pp * (kt * 6) == pp * kt * 6) by (nonlinear_arith);
    assert(0 <= (p2 * kt + b2) * 6 + a2) by (nonlinear_arith)
        requires
            0 <= p2,
            0 <= b2,
            0 <= a2,
            0 <= kt,
    ;
}

/// The offscreen step for cascade pass `p`, batch `b`, axis `a`.
pub open spec fn offscreen_step_of(p: int, b: int, a: int) -> PassStep {
    PassStep::Offscreen {
        pass_index: p as u32,
        batch_index: b as u32,
        axis_index: a as u32,
        write_generation: write_generation_of(p) as u32,
        read_generation: read_generation_of(p) as u32,
    }
}

/// Build one frame's ordered step list: `cascade_passes` offscreen passes,
/// each covering every batch and all six axes in order, then the main pass
/// (clearing to opaque black and far depth), then the present.
pub fn frame_plan(cascade_passes: u32, batch_total: u32, debug_geometry: bool) -> (r: Vec<
    PassStep,
>)
    requires
        (cascade_passes as int) * (batch_total as int) * 6 + 2 <= usize::MAX,
    ensures
        r@.len() == (cascade_passes as int) * (batch_total as int) * 6 + 2,
        forall|p: int, b: int, a: int|
            0 <= p < cascade_passes && 0 <= b < batch_total && 0 <= a < 6 ==> r@[(p * (
            batch_total as int) + b) * 6 + a] == offscreen_step_of(p, b, a),
        r@[r@.len() - 2] == (PassStep::Main {
            clear_color: clear_color_black(),
            clear_depth: ONE_BITS,
            debug_geometry: debug_geometry,
        }),
        r@[r@.len() - 1] == PassStep::Present,
{
    let mut r: Vec<PassStep> = Vec::new();
    let ghost kt = batch_total as int;
    let mut p: u32 = 0;
    while p < cascade_passes
        invariant
            kt == batch_total as int,
            (cascade_passes as int) * kt * 6 + 2 <= usize::MAX,
            p <= cascade_passes,
            r@.len() == (p as int) * kt * 6,
            forall|p2: int, b2: int, a2: int|
                0 <= p2 < p && 0 <= b2 < kt && 0 <= a2 < 6 ==> r@[(p2 * kt + b2) * 6 + a2]
                    == offscreen_step_of(p2, b2, a2),
        decreases cascade_passes - p,
    {
        proof {
            assert((p as int) * kt * 6 <= (cascade_passes as int) * kt * 6) by (nonlinear_arith)
                requires
                    0 <= (p as int) && (p as int) <= (cascade_passes as int),
                    kt >= 0,
            ;
        }
        let wg = crate::cascade::write_generation(p);
        let rg = crate::cascade::read_generation(p);
        let mut b: u32 = 0;
        while b < batch_total
            invariant
                kt == batch_total as int,
                (cascade_passes as int) * kt * 6 + 2 <= usize::MAX,
                p < cascade_passes,
                b <= batch_total,
                wg as int == write_generation_of(p as int),
                rg as int == read_generation_of(p as int),
                r@.len() == (p as int) * kt * 6 + (b as int) * 6,
                forall|p2: int, b2: int, a2: int|
                    0 <= p2 < p && 0 <= b2 < kt && 0 <= a2 < 6 ==> r@[(p2 * kt + b2) * 6 + a2]
                        == offscreen_step_of(p2, b2, a2),
                forall|b2: int, a2: int|
                    0 <= b2 < b && 0 <= a2 < 6 ==> r@[((p as int) * kt + b2) * 6 + a2]
                        == offscreen_step_of(p as int, b2, a2),
            decreases batch_total - b,
        {
            proof {
                assert(((p as int) * kt + kt) * 6 <= (cascade_passes as int) * kt * 6)
                    by (nonlinear_arith)
                    requires
                        0 <= (p as int) && (p as int) < (cascade_passes as int),
                        kt >= 0,
                ;
                assert(((p as int) * kt + (b as int)) * 6 == (p as int) * kt * 6 + (b as int) * 6)
                    by (nonlinear_arith);
                assert(((p as int) * kt + (b as int) + 1) * 6 == (p as int) * kt * 6 + (b as int)
                    * 6 + 6) by (nonlinear_arith);
            }
            let mut a: u32 = 0;
            while a < 6
                invariant
                    kt == batch_total as int,
                    p < cascade_passes,
                    b < batch_total,
                    a <= 6,
                    wg as int == write_generation_of(p as int),
                    rg as int == read_generation_of(p as int),
                    r@.len() == (p as int) * kt * 6 + (b as int) * 6 + a,
                    (p as int) * kt * 6 + (b as int) * 6 + 6 <= (cascade_passes as int) * kt * 6,
                    ((p as int) * kt + (b as int)) * 6 == (p as int) * kt * 6 + (b as int) * 6,
                    (cascade_passes as int) * kt * 6 + 2 <= usize::MAX,
                    forall|p2: int, b2: int, a2: int|
                        0 <= p2 < p && 0 <= b2 < kt && 0 <= a2 < 6 ==> r@[(p2 * kt + b2) * 6 + a2]
                            == offscreen_step_of(p2, b2, a2),
                    forall|b2: int, a2: int|
                        0 <= b2 < b && 0 <= a2 < 6 ==> r@[((p as int) * kt + b2) * 6 + a2]
                            == offscreen_step_of(p as int, b2, a2),
                    forall|a2: int|
                        0 <= a2 < a ==> r@[((p as int) * kt + (b as int)) * 6 + a2]
                            == offscreen_step_of(p as int, b as int, a2),
                decreases 6 - a,
            {
                r.push(
                    PassStep::Offscreen {
                        pass_index: p,
                        batch_index: b,
                        axis_index: a,
                        write_generation: wg,
                        read_generation: rg,
                    },
                );
                proof {
                    assert forall|p2: int, b2: int, a2: int|
                        0 <= p2 < p && 0 <= b2 < kt && 0 <= a2 < 6 implies r@[(p2 * kt + b2) * 6
                        + a2] == offscreen_step_of(p2, b2, a2) by {
                        lemma_step_index_bound(p as int, kt, p2, b2, a2);
                    }
                }
                a += 1;
            }
            b += 1;
        }
        proof {
            assert((p as int) * kt * 6 + kt * 6 == ((p as int) + 1) * kt * 6) by (nonlinear_arith);
        }
        p += 1;
    }
    proof {
        assert(r@.len() == (cascade_passes as int) * kt * 6);
    }
    r.push(
        PassStep::Main {
            clear_color: V4 { x: ZERO_BITS, y: ZERO_BITS, z: ZERO_BITS, w: ONE_BITS },
            clear_depth: ONE_BITS,
            debug_geometry: debug_geometry,
        },
    );
    r.push(PassStep::Present);
    proof {
        assert forall|p2: int, b2: int, a2: int|
            0 <= p2 < cascade_passes && 0 <= b2 < kt && 0 <= a2 < 6 implies r@[(p2 * kt + b2) * 6
            + a2] == offscreen_step_of(p2, b2, a2) by {
            lemma_step_index_bound(cascade_passes as int, kt, p2, b2, a2);
        }
    }
    r
}

/// A numeric text field of the light-position override: a component keeps
/// its previous value when the new text fails to parse.
pub fn overridden_component(previous: u32, parsed: Option<u32>) -> (r: u32)
    ensures
        r == match parsed {
            Some(v) => v,
            None => previous,
        },
{
    match parsed {
        Some(v) => v,
        None => previous,
    }
}

} // verus!
