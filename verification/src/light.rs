//! Light-source selection.
//!
//! Among the loaded sub-models, the ones whose material name matches the
//! light predicate are candidates; the scene light is the centroid (the
//! arithmetic mean of the vertex positions) of the first candidate in model
//! order. Later candidates are silently ignored — a documented consequence
//! of loader ordering, kept as-is. When no candidate exists, the caller
//! falls back to an externally supplied position.

use vstd::prelude::*;

use crate::bits::{zero3, ONE_BITS, V3, V4};
use crate::model::Model;
use crate::vecmath::{add3, add3_of, divn3, divn3_of};

verus! {

/// The light's GPU uniform: its world-space position as a homogeneous
/// point, the fourth component fixed at 1.0.
#[derive(Clone, Copy, Debug, PartialEq, Eq, Structural)]
pub struct UniformLight {
    pub position: V4,
}

impl UniformLight {
    /// Encode a light position for upload.
    pub fn new(position: V3) -> (r: UniformLight)
        ensures
            r.position == (V4 { x: position.x, y: position.y, z: position.z, w: ONE_BITS }),
    {
        UniformLight {
            position: V4 { x: position.x, y: position.y, z: position.z, w: ONE_BITS },
        }
    }
}

/// The float sum of the first `k` positions, folded left from the zero
/// vector in list order.
pub open spec fn sum3_prefix(pos: Seq<V3>, k: int) -> V3
    decreases k,
{
    if k <= 0 {
        zero3()
    } else {
        add3_of(sum3_prefix(pos, k - 1), pos[k - 1])
    }
}

/// The arithmetic mean of the positions; the zero vector for an empty list
/// (the degenerate case a mesh without vertices would otherwise turn into a
/// division of zero by zero).
pub open spec fn centroid_of(pos: Seq<V3>) -> V3 {
    if pos.len() == 0 {
        zero3()
    } else {
        divn3_of(sum3_prefix(pos, pos.len() as int), pos.len() as usize)
    }
}

/// Whether a model is a light candidate: its material's name equals the
/// light name.
pub open spec fn is_light(m: Model, light_name: Seq<char>) -> bool {
    match m.material {
        Some(mr) => mr.name@ == light_name,
        None => false,
    }
}

/// The position of the first light candidate at or after `i`, if any.
pub open spec fn first_light_from(models: Seq<Model>, light_name: Seq<char>, i: int) -> Option<
    int,
>
    decreases models.len() - i,
{
    if i < 0 || i >= models.len() {
        None
    } else if is_light(models[i], light_name) {
        Some(i)
    } else {
        first_light_from(models, light_name, i + 1)
    }
}

/// The centroid of a model's vertex positions.
pub fn centroid(positions: &Vec<V3>) -> (r: V3)
    ensures
        r == centroid_of(positions@),
{
    let n = positions.len();
    if n == 0 {
        return V3::zero();
    }
    let mut acc = V3::zero();
    let mut i: usize = 0;
    while i < n
        invariant
            n == positions@.len(),
            i <= n,
            acc == sum3_prefix(positions@, i as int),
        decreases n - i,
    {
        acc = add3(acc, positions[i]);
        i += 1;
    }
    divn3(acc, n)
}

/// Scan the models in order and return the centroid of the first light
/// candidate, or `None` when no material matches the light name.
pub fn select_light(models: &Vec<Model>, light_name: &String) -> (r: Option<V3>)
    ensures
        r == match first_light_from(models@, light_name@, 0) {
            Some(i) => Some(centroid_of(models@[i].positions@)),
            None => None::<V3>,
        },
{
    let n = models.len();
    let mut i: usize = 0;
    while i < n
        invariant
            n == models@.len(),
            i <= n,
            first_light_from(models@, light_name@, 0) == first_light_from(
                models@,
                light_name@,
                i as int,
            ),
        decreases n - i,
    {
        let candidate = match &models[i].material {
            Some(mr) => mr.name.eq(light_name),
            None => false,
        };
        if candidate {
            proof {
                assert(is_light(models@[i as int], light_name@));
                assert(first_light_from(models@, light_name@, i as int) == Some(i as int));
            }
            return Some(centroid(&models[i].positions));
        }
        proof {
            assert(!is_light(models@[i as int], light_name@));
        }
        i += 1;
    }
    None
}

/// The first light candidate alone decides the scene light: whenever model
/// `i` is a candidate and no earlier model is, the selection is exactly the
/// centroid of model `i`'s vertices — later candidates do not enter.
pub proof fn lemma_first_candidate_wins(models: Seq<Model>, light_name: Seq<char>, i: int)
    requires
        0 <= i < models.len(),
        is_light(models[i], light_name),
        forall|j: int| 0 <= j < i ==> !is_light(#[trigger] models[j], light_name),
    ensures
        first_light_from(models, light_name, 0) == Some(i),
    decreases i,
{
    lemma_first_light_step(models, light_name, 0, i);
}

proof fn lemma_first_light_step(models: Seq<Model>, light_name: Seq<char>, k: int, i: int)
    requires
        0 <= k <= i < models.len(),
        is_light(models[i], light_name),
        forall|j: int| 0 <= j < i ==> !is_light(#[trigger] models[j], light_name),
    ensures
        first_light_from(models, light_name, k) == Some(i),
    decreases i - k,
{
    if k < i {
        lemma_first_light_step(models, light_name, k + 1, i);
    }
}

} // verus!
