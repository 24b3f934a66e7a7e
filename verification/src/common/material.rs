//! Surface materials: what becomes of a ray that hits a surface.
//!
//! A material either absorbs the ray or scatters it, returning the colour by
//! which the light carried along the new ray is multiplied (the attenuation)
//! and the new ray itself. The directions a material chooses between are
//! computed by the caller and handed over in a [`ScatterSample`].

use crate::common::ray::Ray;
use crate::common::scalar::Scalar;
use crate::common::vec3::{Color, Vec3};
use crate::hittable::hit_record::HitRecord;
use vstd::prelude::*;

verus! {

/// A diffuse surface.
#[derive(Clone, Copy, Debug, PartialEq, Eq, Structural)]
pub struct Lambertian {
    pub albedo: Color,
}

/// A mirror whose reflections are blurred by `fuzz`, a number in `[0, 1]`.
#[derive(Clone, Copy, Debug, PartialEq, Eq, Structural)]
pub struct Metal {
    pub fuzz: Scalar,
    pub albedo: Color,
}

/// A clear refracting medium such as glass, with index of refraction `ir`.
#[derive(Clone, Copy, Debug, PartialEq, Eq, Structural)]
pub struct Dielectric {
    pub ir: Scalar,
}

/// Any of the materials a surface can have.
#[derive(Clone, Copy, Debug, PartialEq, Eq, Structural)]
pub enum Material {
    Lambertian(Lambertian),
    Metal(Metal),
    Dielectric(Dielectric),
}

/// The directions a material chooses between at one hit, and the numbers it
/// chooses by. One variant per material.
#[derive(Clone, Copy, Debug, PartialEq, Eq, Structural)]
pub enum ScatterSample {
    /// For a diffuse surface: the surface normal plus a random unit vector.
    Lambertian { scatter_direction: Vec3 },
    /// For a metal: the incoming unit direction mirrored about the normal and
    /// offset by `fuzz` times a random point of the unit ball, and the dot
    /// product of that direction with the normal.
    Metal { direction: Vec3, direction_dot_normal: Scalar },
    /// For a dielectric: the refraction ratio times the sine of the angle of
    /// incidence, the reflectance at that angle, a uniform draw from
    /// `[0, 1)`, and the incoming unit direction both mirrored and refracted.
    Dielectric {
        ratio_sin_theta: Scalar,
        reflectance: Scalar,
        draw: Scalar,
        reflected: Vec3,
        refracted: Vec3,
    },
}

/// White: the attenuation of a medium that absorbs nothing.
pub open spec fn white() -> Color {
    Vec3(Scalar::one(), Scalar::one(), Scalar::one())
}

impl Lambertian {
    /// The direction a diffuse surface scatters along: the sampled one,
    /// unless it is too short to be a direction, then the normal.
    pub open spec fn scattered_direction(normal: Vec3, scatter_direction: Vec3) -> Vec3 {
        if scatter_direction.spec_near_zero() {
            normal
        } else {
            scatter_direction
        }
    }

    /// A diffuse surface of the given colour.
    pub fn new(albedo: Color) -> (r: Lambertian)
        ensures
            r.albedo == albedo,
    {
        Lambertian { albedo }
    }

    /// Scatters a ray that hit at `hit_record`. `scatter_direction` is the
    /// surface normal plus a random unit vector. A diffuse surface always
    /// scatters: from the hit point, along `scatter_direction`, or along the
    /// normal where the two nearly cancel; the attenuation is the albedo.
    pub fn scatter(&self, hit_record: &HitRecord, scatter_direction: Vec3) -> (r: Option<
        (Color, Ray),
    >)
        ensures
            r == Some(
                (
                    self.albedo,
                    (Ray {
                        origin: hit_record.p,
                        direction: Self::scattered_direction(hit_record.normal, scatter_direction),
                    }),
                ),
            ),
    {
        let direction = if scatter_direction.near_zero() {
            hit_record.normal
        } else {
            scatter_direction
        };
        Some((self.albedo, Ray::new(hit_record.p, direction)))
    }
}

impl Metal {
    /// The fuzz is a number from zero to one.
    pub open spec fn well_formed(self) -> bool {
        Scalar::zero().spec_le(self.fuzz) && self.fuzz.spec_le(Scalar::one())
    }

    /// The fuzz a metal is built with: the requested one held to `[0, 1]`,
    /// and `1` where the request is a NaN.
    pub open spec fn held_fuzz(fuzz: Scalar) -> Scalar {
        fuzz.spec_min(Scalar::one()).spec_max(Scalar::zero())
    }

    /// A metal of the given colour. The fuzz is held to `[0, 1]`; a NaN
    /// becomes `1`.
    pub fn new(albedo: Color, fuzz: Scalar) -> (r: Metal)
        ensures
            r.albedo == albedo,
            r.fuzz == Self::held_fuzz(fuzz),
            r.well_formed(),
    {
        Metal { albedo, fuzz: fuzz.min(Scalar::one()).max(Scalar::zero()) }
    }

    /// Scatters a ray that hit at `hit_record`. `direction` is the incoming
    /// unit direction mirrored about the normal and offset by the fuzz times
    /// a random point of the unit ball; `direction_dot_normal` is its dot
    /// product with the normal. The ray is scattered along `direction` from
    /// the hit point, with the albedo as attenuation, exactly when that dot
    /// product is above zero; otherwise it is absorbed.
    pub fn scatter(&self, hit_record: &HitRecord, direction: Vec3, direction_dot_normal: Scalar) -> (r:
        Option<(Color, Ray)>)
        ensures
            r == if direction_dot_normal.spec_gt(Scalar::zero()) {
                Some((self.albedo, (Ray { origin: hit_record.p, direction })))
            } else {
                None
            },
    {
        if direction_dot_normal.gt(Scalar::zero()) {
            Some((self.albedo, Ray::new(hit_record.p, direction)))
        } else {
            None
        }
    }
}

impl Dielectric {
    /// Whether the medium mirrors the ray rather than letting it through:
    /// when no refracted ray exists (total internal reflection), or when the
    /// reflectance exceeds the draw.
    pub open spec fn reflects(ratio_sin_theta: Scalar, reflectance: Scalar, draw: Scalar) -> bool {
        ratio_sin_theta.spec_gt(Scalar::one()) || reflectance.spec_gt(draw)
    }

    /// A medium with the given index of refraction.
    pub fn new(index_of_refraction: Scalar) -> (r: Dielectric)
        ensures
            r.ir == index_of_refraction,
    {
        Dielectric { ir: index_of_refraction }
    }

    /// The ratio of the refractive index on the side the ray comes from to
    /// that on the side it enters: `reciprocal`, which is to be `1 / ir`,
    /// for a ray entering through a front face, and `ir` for one leaving.
    pub fn refraction_ratio(&self, front_face: bool, reciprocal: Scalar) -> (r: Scalar)
        ensures
            r == if front_face {
                reciprocal
            } else {
                self.ir
            },
    {
        if front_face {
            reciprocal
        } else {
            self.ir
        }
    }

    /// Scatters a ray that hit at `hit_record`. With `theta` the angle of
    /// incidence, `ratio_sin_theta` is the refraction ratio times
    /// `sin(theta)`, `reflectance` the share of light mirrored at that
    /// angle, and `draw` a uniform draw from `[0, 1)`; `reflected` and
    /// `refracted` are the incoming unit direction mirrored about the normal
    /// and bent through the surface. A dielectric always scatters, from the
    /// hit point and with white attenuation: along `reflected` if
    /// `ratio_sin_theta > 1` or `reflectance > draw`, else along `refracted`.
    pub fn scatter(
        &self,
        hit_record: &HitRecord,
        ratio_sin_theta: Scalar,
        reflectance: Scalar,
        draw: Scalar,
        reflected: Vec3,
        refracted: Vec3,
    ) -> (r: Option<(Color, Ray)>)
        ensures
            r == Some(
                (
                    white(),
                    (Ray {
                        origin: hit_record.p,
                        direction: if Self::reflects(ratio_sin_theta, reflectance, draw) {
                            reflected
                        } else {
                            refracted
                        },
                    }),
                ),
            ),
    {
        let direction = if ratio_sin_theta.gt(Scalar::one()) || reflectance.gt(draw) {
            reflected
        } else {
            refracted
        };
        let one = Scalar::one();
        Some((Vec3(one, one, one), Ray::new(hit_record.p, direction)))
    }
}

impl Material {
    /// The sample holds what this material chooses between.
    pub open spec fn suits(self, sample: ScatterSample) -> bool {
        match self {
            Material::Lambertian(_) => sample is Lambertian,
            Material::Metal(_) => sample is Metal,
            Material::Dielectric(_) => sample is Dielectric,
        }
    }

    /// What the material does with a ray that hit at `hit_record`: `None` if
    /// the ray is absorbed, else the attenuation and the scattered ray. A
    /// sample that does not suit the material gives it nothing to scatter
    /// along, and the ray counts as absorbed.
    pub open spec fn spec_scatter(self, hit_record: HitRecord, sample: ScatterSample) -> Option<
        (Color, Ray),
    > {
        match (self, sample) {
            (Material::Lambertian(m), ScatterSample::Lambertian { scatter_direction }) => Some(
                (
                    m.albedo,
                    Ray {
                        origin: hit_record.p,
                        direction: Lambertian::scattered_direction(
                            hit_record.normal,
                            scatter_direction,
                        ),
                    },
                ),
            ),
            (Material::Metal(m), ScatterSample::Metal { direction, direction_dot_normal }) => {
                if direction_dot_normal.spec_gt(Scalar::zero()) {
                    Some((m.albedo, Ray { origin: hit_record.p, direction }))
                } else {
                    None
                }
            },
            (
                Material::Dielectric(_),
                ScatterSample::Dielectric { ratio_sin_theta, reflectance, draw, reflected, refracted },
            ) => Some(
                (
                    white(),
                    Ray {
                        origin: hit_record.p,
                        direction: if Dielectric::reflects(ratio_sin_theta, reflectance, draw) {
                            reflected
                        } else {
                            refracted
                        },
                    },
                ),
            ),
            _ => None,
        }
    }

    /// Whether the sample holds what this material chooses between.
    pub fn accepts(&self, sample: &ScatterSample) -> (r: bool)
        ensures
            r == self.suits(*sample),
    {
        match (self, sample) {
            (Material::Lambertian(_), ScatterSample::Lambertian { .. }) => true,
            (Material::Metal(_), ScatterSample::Metal { .. }) => true,
            (Material::Dielectric(_), ScatterSample::Dielectric { .. }) => true,
            _ => false,
        }
    }

    /// Scatters or absorbs a ray that hit at `hit_record`.
    pub fn scatter(&self, hit_record: &HitRecord, sample: &ScatterSample) -> (r: Option<
        (Color, Ray),
    >)
        ensures
            r == self.spec_scatter(*hit_record, *sample),
            !self.suits(*sample) ==> r is None,
    {
        match (self, sample) {
            (Material::Lambertian(m), ScatterSample::Lambertian { scatter_direction }) => {
                m.scatter(hit_record, *scatter_direction)
            },
            (Material::Metal(m), ScatterSample::Metal { direction, direction_dot_normal }) => {
                m.scatter(hit_record, *direction, *direction_dot_normal)
            },
            (
                Material::Dielectric(m),
                ScatterSample::Dielectric { ratio_sin_theta, reflectance, draw, reflected, refracted },
            ) => m.scatter(hit_record, *ratio_sin_theta, *reflectance, *draw, *reflected, *refracted),
            _ => None,
        }
    }
}

} // verus!
