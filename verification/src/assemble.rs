//! GPU resource planning.
//!
//! For each loaded model this layer computes everything the GPU upload
//! needs as plain data: the interleaved vertex stream, the exposed index
//! list, the material uniform block and the texture-enable mask. The plans
//! of all models, in model order, form the scene's draw bundle; the GPU
//! layer records it once and replays it every frame. Resizing the output
//! surface touches only the depth-buffer dimensions — never the scene
//! plans.

use vstd::prelude::*;

use crate::bits::V3;
use crate::light::{centroid_of, first_light_from, select_light};
use crate::material::{
    bind_material, bound_block, texture_mask, texture_mask_of, UniformMaterial,
};
use crate::model::{reversed_winding, Model};
use crate::stream::{interleave, vertex_encoded};
use crate::tangent::{
    accum_after, averaged, effective_texcoords, fallback_bitangent, fallback_normal,
    fallback_tangent,
};

verus! {

/// Whether a model's material carries a decoded color texture.
pub open spec fn has_color_texture(m: Model) -> bool {
    match m.material {
        Some(mr) => mr.color_texture is Some,
        None => false,
    }
}

/// Whether a model's material carries a decoded normal texture.
pub open spec fn has_normal_texture(m: Model) -> bool {
    match m.material {
        Some(mr) => mr.normal_texture is Some,
        None => false,
    }
}

/// The material uniform block a model binds: its material's encoding, or
/// the all-absent encoding when it has none.
pub open spec fn model_block(m: Model) -> UniformMaterial {
    match m.material {
        Some(mr) => bound_block(mr.ambient, mr.diffuse, mr.specular, mr.shininess),
        None => bound_block(None, None, None, None),
    }
}

/// The per-vertex tangent channel a model's stream carries.
pub open spec fn solved_tangents(m: Model) -> Seq<V3> {
    let idx = reversed_winding(m.index_data@);
    let uv = effective_texcoords(m.positions@, m.texcoords@);
    let acc = accum_after(m.positions@, uv, idx, idx.len() as int / 3);
    Seq::new(m.positions@.len(), |i: int| averaged(acc.tangents, acc.counts, i, fallback_tangent()))
}

/// The per-vertex bitangent channel a model's stream carries.
pub open spec fn solved_bitangents(m: Model) -> Seq<V3> {
    let idx = reversed_winding(m.index_data@);
    let uv = effective_texcoords(m.positions@, m.texcoords@);
    let acc = accum_after(m.positions@, uv, idx, idx.len() as int / 3);
    Seq::new(
        m.positions@.len(),
        |i: int| averaged(acc.bitangents, acc.counts, i, fallback_bitangent()),
    )
}

/// The solver's smoothed per-vertex normals.
pub open spec fn solved_normals_of(m: Model) -> Seq<V3> {
    let idx = reversed_winding(m.index_data@);
    let uv = effective_texcoords(m.positions@, m.texcoords@);
    let acc = accum_after(m.positions@, uv, idx, idx.len() as int / 3);
    Seq::new(m.positions@.len(), |i: int| averaged(acc.normals, acc.counts, i, fallback_normal()))
}

/// The normal channel a model's stream carries: the asset's own normals
/// when present, the solver's smoothed normals otherwise.
pub open spec fn normal_channel(m: Model) -> Seq<V3> {
    if m.normals@.len() > 0 {
        m.normals@
    } else {
        solved_normals_of(m)
    }
}

/// Everything the GPU upload of one model needs, as plain data.
pub struct GeomPlan {
    /// The source model's name.
    pub name: String,
    /// The interleaved vertex stream, 17 words per vertex.
    pub vertex_data: Vec<u32>,
    /// The exposed (winding-reversed) index list.
    pub index_data: Vec<u32>,
    /// The material uniform block.
    pub uniform: UniformMaterial,
    /// The texture-enable mask: bit 0 color, bit 1 normal.
    pub texture_mask: u32,
    /// The number of indices one replay draws.
    pub draw_count: u32,
}

/// The contract tying a geometry plan to its source model.
pub open spec fn geom_matches(g: GeomPlan, m: Model) -> bool {
    &&& g.name@ == m.name@
    &&& g.index_data@ == reversed_winding(m.index_data@)
    &&& g.draw_count == m.index_data@.len()
    &&& g.uniform == model_block(m)
    &&& g.texture_mask == texture_mask_of(has_color_texture(m), has_normal_texture(m))
    &&& g.vertex_data@.len() == 17 * m.positions@.len()
    &&& forall|v: int|
        0 <= v < m.positions@.len() ==> #[trigger] vertex_encoded(
            g.vertex_data@,
            17 * v,
            m.positions@,
            m.vertex_colors@,
            normal_channel(m),
            solved_tangents(m),
            solved_bitangents(m),
            m.texcoords@,
            v,
        )
}

/// Build the GPU plan for one model: solve its tangent space, interleave
/// its vertex stream, encode its material, and expose its indices.
pub fn build_geom(model: &Model) -> (g: GeomPlan)
    requires
        model.wf(),
    ensures
        geom_matches(g, *model),
{
    let index_data = model.indices();
    let (tans, bitans, nrms) = model.tbn();
    proof {
        let m = *model;
        assert forall|i: int| 0 <= i < m.positions@.len() implies bitans@[i]
            == solved_bitangents(m)[i] && nrms@[i] == solved_normals_of(m)[i] by {
            assert(tans@[i] == solved_tangents(m)[i]);
        }
        assert(tans@ =~= solved_tangents(m));
        assert(bitans@ =~= solved_bitangents(m));
        assert(nrms@ =~= solved_normals_of(m));
        if m.normals@.len() == 0 {
            assert(nrms@ =~= normal_channel(m));
        }
    }
    let vertex_data = if model.normals.len() > 0 {
        interleave(
            &model.positions,
            &model.vertex_colors,
            &model.normals,
            &tans,
            &bitans,
            &model.texcoords,
        )
    } else {
        interleave(
            &model.positions,
            &model.vertex_colors,
            &nrms,
            &tans,
            &bitans,
            &model.texcoords,
        )
    };
    let uniform = bind_material(&model.material);
    let mask = match &model.material {
        Some(mr) => texture_mask(mr.color_texture.is_some(), mr.normal_texture.is_some()),
        None => texture_mask(false, false),
    };
    let draw_count = model.vertex_count();
    GeomPlan {
        name: model.name.clone(),
        vertex_data,
        index_data,
        uniform,
        texture_mask: mask,
        draw_count,
    }
}

/// The whole scene as plain data: one geometry plan per model, in model
/// order, plus the scene light.
pub struct ScenePlan {
    /// One plan per model, in model order; entry `i` belongs to model `i`.
    pub geoms: Vec<GeomPlan>,
    /// The scene light: the first light sub-mesh's centroid, or the
    /// supplied fallback when no sub-mesh matches.
    pub light_position: V3,
    /// Whether the light came from the scene rather than the fallback.
    pub light_from_scene: bool,
}

/// Build the scene plan: every model's geometry plan in order, and the
/// light selected by the material-name predicate with the supplied
/// fallback.
pub fn assemble_scene(models: &Vec<Model>, light_name: &String, fallback_light: V3) -> (r:
    ScenePlan)
    requires
        forall|i: int| 0 <= i < models@.len() ==> (#[trigger] models@[i]).wf(),
    ensures
        r.geoms@.len() == models@.len(),
        forall|i: int|
            0 <= i < models@.len() ==> #[trigger] geom_matches(r.geoms@[i], models@[i]),
        ({
            let found = first_light_from(models@, light_name@, 0);
            &&& r.light_from_scene == (found is Some)
            &&& r.light_position == match found {
                Some(i) => centroid_of(models@[i].positions@),
                None => fallback_light,
            }
        }),
{
    let light = select_light(models, light_name);
    let (light_position, light_from_scene) = match light {
        Some(p) => (p, true),
        None => (fallback_light, false),
    };
    let mut geoms: Vec<GeomPlan> = Vec::new();
    let n = models.len();
    let mut i: usize = 0;
    while i < n
        invariant
            n == models@.len(),
            i <= n,
            geoms@.len() == i,
            forall|j: int| 0 <= j < n ==> (#[trigger] models@[j]).wf(),
            forall|j: int| 0 <= j < i ==> #[trigger] geom_matches(geoms@[j], models@[j]),
        decreases n - i,
    {
        let g = build_geom(&models[i]);
        geoms.push(g);
        i += 1;
    }
    ScenePlan { geoms, light_position, light_from_scene }
}

/// The renderer's mutable surface state: the scene plan and the depth
/// buffer's dimensions.
pub struct RendererPlan {
    pub scene: ScenePlan,
    pub depth_width: u32,
    pub depth_height: u32,
}

/// What a resize does: the depth buffer takes exactly the new dimensions
/// and the scene plan — the draw bundle — is left untouched.
pub open spec fn resized(before: RendererPlan, after: RendererPlan, width: u32, height: u32) -> bool {
    &&& after.depth_width == width
    &&& after.depth_height == height
    &&& after.scene == before.scene
}

impl RendererPlan {
    /// Resize the output surface: recreate only the depth buffer at the
    /// new dimensions; the recorded draw bundle is not touched.
    pub fn resize(&mut self, width: u32, height: u32)
        ensures
            resized(*old(self), *final(self), width, height),
    {
        self.depth_width = width;
        self.depth_height = height;
    }
}

/// Resizing twice with the same dimensions yields a depth buffer of
/// identical size both times and leaves the scene plan object-identical to
/// what it was before either call.
pub proof fn lemma_resize_idempotent(
    s0: RendererPlan,
    s1: RendererPlan,
    s2: RendererPlan,
    width: u32,
    height: u32,
)
    requires
        resized(s0, s1, width, height),
        resized(s1, s2, width, height),
    ensures
        s1.depth_width == s2.depth_width,
        s1.depth_height == s2.depth_height,
        s2.scene == s0.scene,
{
}

} // verus!
