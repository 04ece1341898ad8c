//! Material records and their GPU uniform encoding.
//!
//! Each optional color channel is encoded as four components: the value (or
//! zero) followed by a presence sign, +1.0 when the channel is set and -1.0
//! when it is absent, so the shader can branch on the sign alone. A separate
//! bitmask records which textures are bound: bit 0 for the color texture,
//! bit 1 for the normal texture.

use vstd::prelude::*;

use crate::bits::{NEG_ONE_BITS, ONE_BITS, V3, V4, ZERO_BITS};

verus! {

#[verifier::external_type_specification]
#[verifier::external_body]
pub struct ExDynamicImage(image::DynamicImage);

/// A material as loaded from the asset's material library. Any field may be
/// absent; absence is distinct from a zero value. Texture images are carried
/// through opaquely: the pipeline only ever asks whether they are present.
pub struct MaterialRecord {
    /// The material's name, as given by the asset; the light predicate
    /// matches on it.
    pub name: String,
    /// Ambient color, three float bit patterns.
    pub ambient: Option<V3>,
    /// Diffuse color, three float bit patterns.
    pub diffuse: Option<V3>,
    /// Specular color, three float bit patterns.
    pub specular: Option<V3>,
    /// Shininess exponent, one float bit pattern.
    pub shininess: Option<u32>,
    /// Decoded color texture, if the asset names one and it decoded.
    pub color_texture: Option<image::DynamicImage>,
    /// Decoded normal-map texture, if the asset names one and it decoded.
    pub normal_texture: Option<image::DynamicImage>,
}

/// The fixed-size uniform block a material is encoded into. The `w`
/// component of each channel is the presence sign.
#[derive(Clone, Copy, Debug, PartialEq, Eq, Structural)]
pub struct UniformMaterial {
    pub ambient: V4,
    pub diffuse: V4,
    pub specular: V4,
    pub shininess: u32,
}

/// One optional color channel encoded as value-plus-presence-sign.
pub open spec fn encoded_channel(c: Option<V3>) -> V4 {
    match c {
        Some(v) => V4 { x: v.x, y: v.y, z: v.z, w: ONE_BITS },
        None => V4 { x: ZERO_BITS, y: ZERO_BITS, z: ZERO_BITS, w: NEG_ONE_BITS },
    }
}

/// Shininess defaults to 1.0 when absent.
pub open spec fn encoded_shininess(s: Option<u32>) -> u32 {
    match s {
        Some(b) => b,
        None => ONE_BITS,
    }
}

/// The uniform block for an optional material: a missing material encodes
/// exactly like a material with every field absent.
pub open spec fn bound_block(ambient: Option<V3>, diffuse: Option<V3>, specular: Option<V3>, shininess: Option<u32>) -> UniformMaterial {
    UniformMaterial {
        ambient: encoded_channel(ambient),
        diffuse: encoded_channel(diffuse),
        specular: encoded_channel(specular),
        shininess: encoded_shininess(shininess),
    }
}

impl MaterialRecord {
    /// Encode this record into its uniform block.
    pub fn bind(&self) -> (r: UniformMaterial)
        ensures
            r == bound_block(self.ambient, self.diffuse, self.specular, self.shininess),
    {
        UniformMaterial {
            ambient: encode_channel(&self.ambient),
            diffuse: encode_channel(&self.diffuse),
            specular: encode_channel(&self.specular),
            shininess: match &self.shininess {
                Some(b) => *b,
                None => ONE_BITS,
            },
        }
    }
}

/// Encode an optional material: absence encodes as the all-absent block.
pub fn bind_material(material: &Option<MaterialRecord>) -> (r: UniformMaterial)
    ensures
        r == match material {
            Some(m) => bound_block(m.ambient, m.diffuse, m.specular, m.shininess),
            None => bound_block(None, None, None, None),
        },
{
    match material {
        Some(m) => m.bind(),
        None => UniformMaterial {
            ambient: encode_channel(&None),
            diffuse: encode_channel(&None),
            specular: encode_channel(&None),
            shininess: ONE_BITS,
        },
    }
}

fn encode_channel(c: &Option<V3>) -> (r: V4)
    ensures
        r == encoded_channel(*c),
{
    match c {
        Some(v) => V4 { x: v.x, y: v.y, z: v.z, w: ONE_BITS },
        None => V4 { x: ZERO_BITS, y: ZERO_BITS, z: ZERO_BITS, w: NEG_ONE_BITS },
    }
}

/// The texture-enable bitmask: bit 0 set when a color texture is bound,
/// bit 1 set when a normal texture is bound.
pub open spec fn texture_mask_of(color_present: bool, normal_present: bool) -> u32 {
    ((if color_present {
        1int
    } else {
        0int
    }) + (if normal_present {
        2int
    } else {
        0int
    })) as u32
}

/// Compute the texture-enable bitmask.
pub fn texture_mask(color_present: bool, normal_present: bool) -> (r: u32)
    ensures
        r == texture_mask_of(color_present, normal_present),
{
    let c: u32 = if color_present {
        1
    } else {
        0
    };
    let nm: u32 = if normal_present {
        1
    } else {
        0
    };
    proof {
        assert(0u32 | (0u32 << 1) == 0) by (bit_vector);
        assert(1u32 | (0u32 << 1) == 1) by (bit_vector);
        assert(0u32 | (1u32 << 1) == 2) by (bit_vector);
        assert(1u32 | (1u32 << 1) == 3) by (bit_vector);
    }
    c | (nm << 1)
}

/// The mask actually uploaded when the user toggles normal mapping: the
/// color bit is kept, the normal bit passes only while the toggle is on.
pub open spec fn applied_mask_of(mask: u32, enable_normal_map: bool) -> u32 {
    mask & (if enable_normal_map {
        3u32
    } else {
        1u32
    })
}

/// Apply the normal-map toggle to a stored texture mask.
pub fn applied_mask(mask: u32, enable_normal_map: bool) -> (r: u32)
    ensures
        r == applied_mask_of(mask, enable_normal_map),
{
    let e: u32 = if enable_normal_map {
        1
    } else {
        0
    };
    proof {
        let m = mask;
        assert(m & ((0u32 << 1) | 1) == m & 1) by (bit_vector);
        assert(m & ((1u32 << 1) | 1) == m & 3) by (bit_vector);
    }
    mask & ((e << 1) | 1)
}

/// Toggling normal mapping on a mask built from texture presence behaves
/// like building the mask with the normal texture gated by the toggle: the
/// color bit is untouched and the normal bit is the conjunction.
pub proof fn lemma_applied_mask_gates_normal_bit(c: bool, n: bool, e: bool)
    ensures
        applied_mask_of(texture_mask_of(c, n), e) == texture_mask_of(c, n && e),
{
    assert(0u32 & 3 == 0 && 1u32 & 3 == 1 && 2u32 & 3 == 2 && 3u32 & 3 == 3) by (bit_vector);
    assert(0u32 & 1 == 0 && 1u32 & 1 == 1 && 2u32 & 1 == 0 && 3u32 & 1 == 1) by (bit_vector);
}

/// A record with every field absent encodes with all presence signs
/// negative, shininess defaulted to 1.0, and a zero texture mask.
pub proof fn lemma_all_absent_encoding(
    ambient: Option<V3>,
    diffuse: Option<V3>,
    specular: Option<V3>,
    shininess: Option<u32>,
)
    requires
        ambient is None,
        diffuse is None,
        specular is None,
        shininess is None,
    ensures
        bound_block(ambient, diffuse, specular, shininess).ambient.w == NEG_ONE_BITS,
        bound_block(ambient, diffuse, specular, shininess).diffuse.w == NEG_ONE_BITS,
        bound_block(ambient, diffuse, specular, shininess).specular.w == NEG_ONE_BITS,
        bound_block(ambient, diffuse, specular, shininess).shininess == ONE_BITS,
        texture_mask_of(false, false) == 0,
{
}

/// A fully populated record encodes with all presence signs positive, the
/// channel values and shininess passed through bit-for-bit, and both
/// texture-mask bits set.
pub proof fn lemma_fully_populated_encoding(a: V3, d: V3, s: V3, sh: u32)
    ensures
        bound_block(Some(a), Some(d), Some(s), Some(sh)) == (UniformMaterial {
            ambient: V4 { x: a.x, y: a.y, z: a.z, w: ONE_BITS },
            diffuse: V4 { x: d.x, y: d.y, z: d.z, w: ONE_BITS },
            specular: V4 { x: s.x, y: s.y, z: s.z, w: ONE_BITS },
            shininess: sh,
        }),
        texture_mask_of(true, true) == 3,
{
}

} // verus!
