use vstd::prelude::*;

verus! {

/// The switches of the lighting model for one frame, handed to every
/// shading call.
#[derive(Debug, Clone, Copy, PartialEq, Eq, Structural)]
pub struct ShadingFlags {
    pub is_diffuse: bool,
    pub is_specular: bool,
    pub is_shadow: bool,
    pub is_reflection: bool,
}

impl ShadingFlags {
    pub fn new(is_diffuse: bool, is_specular: bool, is_shadow: bool, is_reflection: bool) -> (f:
        Self)
        ensures
            f == (ShadingFlags { is_diffuse, is_specular, is_shadow, is_reflection }),
    {
        ShadingFlags { is_diffuse, is_specular, is_shadow, is_reflection }
    }
}

/// Which terms a point or directional light contributes at a hit point.
#[derive(Debug, Clone, Copy, PartialEq, Eq, Structural)]
pub enum LightTerms {
    /// A sphere stands between the hit point and the light: the light
    /// contributes nothing.
    Occluded,
    /// Diffuse and specular lighting are both switched off: the light
    /// contributes a unit intensity, whatever the geometry.
    Unshaded,
    /// The light contributes the sum of the terms that are switched on.
    Shaded { diffuse: bool, specular: bool },
}

/// Decides how a point or directional light is evaluated at a hit point.
/// `occluded` tells whether the shadow ray toward the light hit a sphere;
/// it only counts when shadows are switched on.
pub fn light_terms(flags: &ShadingFlags, occluded: bool) -> (t: LightTerms)
    ensures
        (t is Occluded) <==> (flags.is_shadow && occluded),
        (t is Unshaded) <==> (!(flags.is_shadow && occluded) && !flags.is_diffuse
            && !flags.is_specular),
        t is Shaded ==> t->diffuse == flags.is_diffuse && t->specular == flags.is_specular,
{
    if flags.is_shadow && occluded {
        return LightTerms::Occluded;
    }
    if !flags.is_diffuse && !flags.is_specular {
        return LightTerms::Unshaded;
    }
    LightTerms::Shaded { diffuse: flags.is_diffuse, specular: flags.is_specular }
}

/// Decides whether the color at a hit point is blended with a reflected
/// ray's color, and with which recursion budget that ray is traced.
/// `reflective` tells whether the material's reflectivity is positive.
/// The budget strictly decreases, so the recursion ends.
pub fn next_reflection_depth(flags: &ShadingFlags, reflective: bool, recursion_depth: u8) -> (r:
    Option<u8>)
    ensures
        r is Some <==> (flags.is_reflection && reflective && recursion_depth > 0),
        r is Some ==> r->0 == recursion_depth - 1,
        recursion_depth == 0 ==> r is None,
{
    if !reflective || recursion_depth == 0 || !flags.is_reflection {
        return None;
    }
    Some(recursion_depth - 1)
}

} // verus!
