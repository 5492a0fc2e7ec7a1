//! Materials: what a surface gives off and where it sends a ray on.

pub mod dieletric;
pub mod diffuse_light;
pub mod isotropic;
pub mod lambertian;
pub mod metal;
pub mod pbr;

use crate::intersection::ray::Ray;
use crate::material::dieletric::Dieletric;
use crate::material::diffuse_light::DiffuseLight;
use crate::material::isotropic::Isotropic;
use crate::material::lambertian::Lambertian;
use crate::material::metal::Metal;
use crate::material::pbr::Pbr;
use crate::texture::Textures;
use vstd::prelude::*;

verus! {

/// A ray sent on by a surface, and the texture that tints it.
#[derive(Clone, Copy, Debug, PartialEq, Eq, Structural)]
pub struct ScatterRecord {
    pub texture_index: usize,
    pub scattered: Ray,
}

impl ScatterRecord {
    /// The record of a ray sent on and the texture that tints it.
    pub fn new(scattered: Ray, texture_index: usize) -> (s: ScatterRecord)
        ensures
            s == (ScatterRecord { texture_index, scattered }),
    {
        ScatterRecord { texture_index, scattered }
    }
}

/// Every kind of material a scene can hold.
#[derive(Clone, Copy, Debug, PartialEq, Eq, Structural)]
pub enum MaterialType {
    Lambertian(Lambertian),
    Metal(Metal),
    Dieletric(Dieletric),
    Isotropic(Isotropic),
    DiffuseLight(DiffuseLight),
    Pbr(Pbr),
}

/// The materials of a scene and the textures they refer to.
pub struct MaterialList {
    pub materials: Vec<MaterialType>,
    pub textures: Vec<Textures>,
}

impl MaterialType {
    /// The texture that the surface gives off light with, if it gives off
    /// any.
    pub open spec fn emitted_spec(&self) -> Option<usize> {
        match self {
            MaterialType::Lambertian(l) => l.emitted,
            MaterialType::Metal(m) => m.emitted,
            MaterialType::Dieletric(d) => d.emitted,
            MaterialType::Isotropic(i) => i.emitted,
            MaterialType::DiffuseLight(d) => Some(d.texture_index),
            MaterialType::Pbr(p) => p.emitted,
        }
    }

    /// The texture that tints what the surface sends on; for a light, the
    /// texture it shines with.
    pub open spec fn texture_index_spec(&self) -> usize {
        match self {
            MaterialType::Lambertian(l) => l.texture_index,
            MaterialType::Metal(m) => m.texture_index,
            MaterialType::Dieletric(d) => d.texture_index,
            MaterialType::Isotropic(i) => i.texture_index,
            MaterialType::DiffuseLight(d) => d.texture_index,
            MaterialType::Pbr(p) => p.texture_index,
        }
    }

    /// Whether every texture the material refers to is one of the first
    /// `textures` textures.
    pub open spec fn refers_below(&self, textures: int) -> bool {
        &&& self.texture_index_spec() < textures
        &&& self.emitted_spec() matches Some(e) ==> e < textures
        &&& self matches MaterialType::Pbr(p) ==> p.roughness_index < textures
    }

    /// The texture that the surface gives off light with, if it gives off
    /// any. A light always does.
    pub fn emitted(&self) -> (e: Option<usize>)
        ensures
            e == self.emitted_spec(),
    {
        match self {
            MaterialType::Lambertian(l) => l.emitted(),
            MaterialType::Metal(m) => m.emitted(),
            MaterialType::Dieletric(d) => d.emitted(),
            MaterialType::Isotropic(i) => i.emitted(),
            MaterialType::DiffuseLight(d) => d.emitted(),
            MaterialType::Pbr(p) => p.emitted(),
        }
    }

    /// The texture that tints what the surface sends on.
    pub fn texture_index(&self) -> (t: usize)
        ensures
            t == self.texture_index_spec(),
    {
        match self {
            MaterialType::Lambertian(l) => l.texture_index,
            MaterialType::Metal(m) => m.texture_index,
            MaterialType::Dieletric(d) => d.texture_index,
            MaterialType::Isotropic(i) => i.texture_index,
            MaterialType::DiffuseLight(d) => d.texture_index,
            MaterialType::Pbr(p) => p.texture_index,
        }
    }

    /// Whether every texture the material refers to is one of the first
    /// `textures` textures.
    pub fn refers_to_textures_below(&self, textures: usize) -> (ok: bool)
        ensures
            ok == self.refers_below(textures as int),
    {
        if self.texture_index() >= textures {
            return false;
        }
        if let Some(e) = self.emitted() {
            if e >= textures {
                return false;
            }
        }
        match self {
            MaterialType::Pbr(p) => p.roughness_index < textures,
            _ => true,
        }
    }
}

impl MaterialList {
    /// Whether every material refers to textures of the list only, and
    /// every checker texture to textures of the list only.
    pub open spec fn well_formed(&self) -> bool {
        &&& forall|i: int|
            0 <= i < self.materials.len() ==> (#[trigger] self.materials[i]).refers_below(
                self.textures.len() as int,
            )
        &&& forall|i: int|
            0 <= i < self.textures.len() ==> (#[trigger] self.textures[i]).refers_below(
                self.textures.len() as int,
            )
    }

    /// See [`well_formed`](Self::well_formed).
    pub fn is_well_formed(&self) -> (ok: bool)
        ensures
            ok == self.well_formed(),
    {
        let n = self.textures.len();
        let mut i: usize = 0;
        while i < self.materials.len()
            invariant
                i <= self.materials.len(),
                n == self.textures.len(),
                forall|k: int|
                    0 <= k < i ==> (#[trigger] self.materials[k]).refers_below(n as int),
            decreases self.materials.len() - i,
        {
            if !self.materials[i].refers_to_textures_below(n) {
                return false;
            }
            i = i + 1;
        }
        let mut j: usize = 0;
        while j < n
            invariant
                j <= n,
                n == self.textures.len(),
                forall|k: int|
                    0 <= k < self.materials.len() ==> (#[trigger] self.materials[k]).refers_below(
                        n as int,
                    ),
                forall|k: int| 0 <= k < j ==> (#[trigger] self.textures[k]).refers_below(n as int),
            decreases n - j,
        {
            if !self.textures[j].refers_to_textures_below(n) {
                return false;
            }
            j = j + 1;
        }
        true
    }
}

} // verus!
