//! Surface materials.

use vstd::prelude::*;
use crate::vec3::Vec3;

verus! {

/// A surface material: base color, emission, and the diffuse/specular mixing
/// parameters.  Colors are fixed-point RGB triples; a material is immutable
/// and copied into every hit record.
#[derive(Clone, Copy, Debug, PartialEq, Eq, Structural)]
pub struct Material {
    pub color: Vec3,
    pub emission_color: Vec3,
    pub emission_strength: i64,
    pub smoothness: i64,
    pub specular_probability: i64,
    pub specular_color: Vec3,
}

/// A vector with no negative component.
pub open spec fn non_negative_v(v: Vec3) -> bool {
    0 <= v.x && 0 <= v.y && 0 <= v.z
}

/// A well-formed material: colors are non-negative, the emission strength is
/// non-negative, and smoothness and specular probability lie in [0, 1].
pub open spec fn material_wf(m: Material) -> bool {
    &&& non_negative_v(m.color)
    &&& non_negative_v(m.emission_color)
    &&& non_negative_v(m.specular_color)
    &&& 0 <= m.emission_strength
    &&& 0 <= m.smoothness <= 65536
    &&& 0 <= m.specular_probability <= 65536
}

impl Material {
    /// Build a material from its parts.
    pub fn new(
        color: Vec3,
        emission_color: Vec3,
        emission_strength: i64,
        smoothness: i64,
        specular_probability: i64,
        specular_color: Vec3,
    ) -> (r: Material)
        ensures
            r == (Material {
                color,
                emission_color,
                emission_strength,
                smoothness,
                specular_probability,
                specular_color,
            }),
    {
        Material {
            color,
            emission_color,
            emission_strength,
            smoothness,
            specular_probability,
            specular_color,
        }
    }
}

} // verus!
