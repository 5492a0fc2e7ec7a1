//! The scene as the renderer owns it, and the frame it fills.

use crate::camera::Camera;
use crate::geometry::hittable::HittableList;
use crate::geometry::aabb::Aabb;
use crate::geometry::{
    all_below, leaf_hits_satisfy, scan_is_determined, scanned_hits_satisfy, tests_are_functions,
    Geometry,
};
use crate::intersection::hit_record::HitRecord;
use crate::intersection::ray::Ray;
use crate::material::{MaterialType, ScatterRecord};
use crate::scalar::Scalar;
use crate::texture::Textures;
use crate::vec3::Vec3;
use vstd::prelude::*;

verus! {

/// The bit pattern of 0.999, the brightest a channel gets.
pub const BRIGHTEST_BITS: u32 = 0x3f7f_be77;

/// The bit pattern of 1.0.
pub const ONE_BITS: u32 = 0x3f80_0000;

/// The bit pattern of 0.001, the near end of the window in which a ray
/// looks for hits, so that it does not hit the surface it starts from.
pub const NEAR_BITS: u32 = 0x3a83_126f;

/// The bit pattern of sixteen ninths, the usual aspect ratio.
pub const USUAL_ASPECT_RATIO_BITS: u32 = 0x3fe3_8e39;

/// The usual number of rays per pixel.
pub const USUAL_SAMPLES: u32 = 10;

/// The usual number of bounces after which a ray is given up.
pub const USUAL_MAX_DEPTH: u32 = 50;

/// How a picture is to be rendered.
pub struct RenderSettings {
    pub image_width: u32,
    pub aspect_ratio: Scalar,
    /// The number of rays cast per pixel.
    pub samples: u32,
    /// The number of bounces after which a ray is given up.
    pub max_depth: u32,
    pub background_color: Vec3,
    /// Where the picture is to be written.
    pub path: String,
}

impl RenderSettings {
    /// The settings with the given values.
    pub fn new(
        image_width: u32,
        aspect_ratio: Scalar,
        samples: u32,
        max_depth: u32,
        background_color: Vec3,
        path: String,
    ) -> (s: RenderSettings)
        ensures
            s.image_width == image_width,
            s.aspect_ratio == aspect_ratio,
            s.samples == samples,
            s.max_depth == max_depth,
            s.background_color == background_color,
            s.path == path,
    {
        RenderSettings { image_width, aspect_ratio, samples, max_depth, background_color, path }
    }

    /// The settings for a picture of the given width, written to the given
    /// path, with the usual values for everything else: the aspect ratio is
    /// sixteen to nine, ten rays are cast per pixel, a ray is given up after
    /// fifty bounces, and the background is black.
    pub fn with_defaults(image_width: u32, path: String) -> (s: RenderSettings)
        ensures
            s.image_width == image_width,
            s.aspect_ratio == (Scalar { bits: USUAL_ASPECT_RATIO_BITS }),
            s.samples == USUAL_SAMPLES,
            s.max_depth == USUAL_MAX_DEPTH,
            s.background_color == Vec3::zero_spec(),
            s.path == path,
    {
        RenderSettings {
            image_width,
            aspect_ratio: Scalar::from_bits(USUAL_ASPECT_RATIO_BITS),
            samples: USUAL_SAMPLES,
            max_depth: USUAL_MAX_DEPTH,
            background_color: Vec3::zero(),
            path,
        }
    }
}

/// A scene ready to be rendered: materials, textures, shapes, camera and
/// settings.
pub struct Renderer {
    pub materials: Vec<MaterialType>,
    pub textures: Vec<Textures>,
    pub geometry: HittableList,
    pub camera: Camera,
    pub settings: RenderSettings,
}

impl Renderer {
    /// The scene of the given parts.
    pub fn new(
        materials: Vec<MaterialType>,
        textures: Vec<Textures>,
        geometry: HittableList,
        camera: Camera,
        settings: RenderSettings,
    ) -> (renderer: Renderer)
        ensures
            renderer.materials == materials,
            renderer.textures == textures,
            renderer.geometry == geometry,
            renderer.camera == camera,
            renderer.settings == settings,
    {
        Renderer { materials, textures, geometry, camera, settings }
    }

    /// Whether every index in the scene points at something: every shape
    /// at a material of the scene, every material and every checker
    /// texture at textures of the scene.
    pub open spec fn well_formed(&self) -> bool {
        &&& all_below(self.geometry.objects@, self.materials.len() as int)
        &&& forall|i: int|
            0 <= i < self.materials.len() ==> (#[trigger] self.materials[i]).refers_below(
                self.textures.len() as int,
            )
        &&& forall|i: int|
            0 <= i < self.textures.len() ==> (#[trigger] self.textures[i]).refers_below(
                self.textures.len() as int,
            )
    }

    /// See [`well_formed`](Self::well_formed).
    pub fn is_well_formed(&self) -> (ok: bool)
        ensures
            ok == self.well_formed(),
    {
        let materials = self.materials.len();
        let textures = self.textures.len();
        let mut g: usize = 0;
        while g < self.geometry.objects.len()
            invariant
                g <= self.geometry.objects.len(),
                materials == self.materials.len(),
                forall|k: int|
                    0 <= k < g ==> (#[trigger] self.geometry.objects@[k]).materials_below(
                        materials as int,
                    ),
            decreases self.geometry.objects.len() - g,
        {
            if !self.geometry.objects[g].refers_to_materials_below(materials) {
                return false;
            }
            g = g + 1;
        }
        let mut i: usize = 0;
        while i < materials
            invariant
                i <= materials,
                materials == self.materials.len(),
                textures == self.textures.len(),
                all_below(self.geometry.objects@, materials as int),
                forall|k: int|
                    0 <= k < i ==> (#[trigger] self.materials[k]).refers_below(textures as int),
            decreases materials - i,
        {
            if !self.materials[i].refers_to_textures_below(textures) {
                return false;
            }
            i = i + 1;
        }
        let mut j: usize = 0;
        while j < textures
            invariant
                j <= textures,
                materials == self.materials.len(),
                textures == self.textures.len(),
                all_below(self.geometry.objects@, materials as int),
                forall|k: int|
                    0 <= k < materials ==> (#[trigger] self.materials[k]).refers_below(
                        textures as int,
                    ),
                forall|k: int|
                    0 <= k < j ==> (#[trigger] self.textures[k]).refers_below(textures as int),
            decreases textures - j,
        {
            if !self.textures[j].refers_to_textures_below(textures) {
                return false;
            }
            j = j + 1;
        }
        true
    }

    /// The window in which a ray looks for hits: from 0.001, so that it
    /// does not hit the surface it starts from, to infinity.
    pub open spec fn window() -> (Scalar, Scalar) {
        (Scalar { bits: NEAR_BITS }, Scalar::infinity_spec())
    }

    /// Whether the three shading operations may be called on every
    /// argument.
    pub open spec fn always_callable<S, T, M>(scatter: &S, texture_value: &T, blend: &M) -> bool where
        S: Fn(&MaterialType, &Ray, &HitRecord, u32, u32) -> Option<ScatterRecord>,
        T: Fn(usize, &HitRecord) -> Vec3,
        M: Fn(Vec3, Vec3, Vec3) -> Vec3,
     {
        &&& forall|m: &MaterialType, r: &Ray, rec: &HitRecord, sample: u32, depth: u32| #[trigger]
            call_requires(*scatter, (m, r, rec, sample, depth))
        &&& forall|t: usize, rec: &HitRecord| #[trigger] call_requires(*texture_value, (t, rec))
        &&& forall|a: Vec3, b: Vec3, c: Vec3| #[trigger] call_requires(*blend, (a, b, c))
    }

    /// Whether every hit that the scene can report refers to a material of
    /// the scene.
    pub open spec fn hits_are_shaded<B, L>(&self, box_hit: &B, leaf_hit: &L) -> bool where
        B: Fn(&Aabb, &Ray, Scalar, Scalar) -> bool,
        L: Fn(&Geometry, &Ray, Scalar, Scalar) -> Option<HitRecord>,
     {
        forall|r: &Ray, t_min: Scalar, t_max: Scalar, rec: HitRecord| #[trigger]
            self.geometry.hit_outcome(r, t_min, t_max, box_hit, leaf_hit, Some(rec))
                ==> rec.material_index < self.materials.len()
    }

    /// Whether `color` is what a surface may give off at a hit: what
    /// `texture_value` reports for the material's emitted texture, and
    /// black for a material that gives off nothing.
    pub open spec fn emitted_outcome<T>(
        material: MaterialType,
        rec: &HitRecord,
        texture_value: &T,
        color: Vec3,
    ) -> bool where T: Fn(usize, &HitRecord) -> Vec3 {
        match material.emitted_spec() {
            Some(texture) => call_ensures(*texture_value, (texture, rec), color),
            None => color == Vec3::zero_spec(),
        }
    }

    /// Whether `color` is what [`ray_color`](Self::ray_color) may report
    /// for a ray that met the scene as `hit` says, with `depth` bounces
    /// left, at least one.
    ///
    /// A ray that hit nothing has the background colour. A ray that hit a
    /// surface has what the surface gives off, if the surface swallows the
    /// ray; and otherwise what `blend` makes of what the surface gives
    /// off, the colour of the scattering texture at the hit, and the
    /// colour of the scattered ray with one bounce less.
    pub open spec fn shade_outcome<B, L, S, T, M>(
        &self,
        ray: &Ray,
        depth: u32,
        sample: u32,
        hit: Option<HitRecord>,
        box_hit: &B,
        leaf_hit: &L,
        scatter: &S,
        texture_value: &T,
        blend: &M,
        color: Vec3,
    ) -> bool where
        B: Fn(&Aabb, &Ray, Scalar, Scalar) -> bool,
        L: Fn(&Geometry, &Ray, Scalar, Scalar) -> Option<HitRecord>,
        S: Fn(&MaterialType, &Ray, &HitRecord, u32, u32) -> Option<ScatterRecord>,
        T: Fn(usize, &HitRecord) -> Vec3,
        M: Fn(Vec3, Vec3, Vec3) -> Vec3,

        decreases depth, 0nat,
    {
        match hit {
            None => color == self.settings.background_color,
            Some(rec) => {
                let material = self.materials[rec.material_index as int];
                &&& depth > 0
                &&& exists|emitted: Vec3, scattered: Option<ScatterRecord>|
                    {
                        &&& #[trigger] Renderer::emitted_outcome(
                            material,
                            &rec,
                            texture_value,
                            emitted,
                        )
                        &&& #[trigger] call_ensures(
                            *scatter,
                            (&material, ray, &rec, sample, depth),
                            scattered,
                        )
                        &&& match scattered {
                            None => color == emitted,
                            Some(s) => exists|attenuation: Vec3, incoming: Vec3|
                                {
                                    &&& call_ensures(
                                        *texture_value,
                                        (s.texture_index, &rec),
                                        attenuation,
                                    )
                                    &&& self.color_outcome(
                                        &s.scattered,
                                        (depth - 1) as u32,
                                        sample,
                                        box_hit,
                                        leaf_hit,
                                        scatter,
                                        texture_value,
                                        blend,
                                        incoming,
                                    )
                                    &&& #[trigger] call_ensures(
                                        *blend,
                                        (emitted, attenuation, incoming),
                                        color,
                                    )
                                },
                        }
                    }
            },
        }
    }

    /// Whether `color` is what [`ray_color`](Self::ray_color) may report
    /// for a ray with `depth` bounces left: black where none is left, and
    /// otherwise the shade (see [`shade_outcome`](Self::shade_outcome)) of
    /// what the ray hits in the scene within the window from 0.001 to
    /// infinity.
    pub open spec fn color_outcome<B, L, S, T, M>(
        &self,
        ray: &Ray,
        depth: u32,
        sample: u32,
        box_hit: &B,
        leaf_hit: &L,
        scatter: &S,
        texture_value: &T,
        blend: &M,
        color: Vec3,
    ) -> bool where
        B: Fn(&Aabb, &Ray, Scalar, Scalar) -> bool,
        L: Fn(&Geometry, &Ray, Scalar, Scalar) -> Option<HitRecord>,
        S: Fn(&MaterialType, &Ray, &HitRecord, u32, u32) -> Option<ScatterRecord>,
        T: Fn(usize, &HitRecord) -> Vec3,
        M: Fn(Vec3, Vec3, Vec3) -> Vec3,

        decreases depth, 1nat,
    {
        if depth == 0 {
            color == Vec3::zero_spec()
        } else {
            exists|hit: Option<HitRecord>|
                {
                    &&& #[trigger] self.geometry.hit_outcome(
                        ray,
                        Renderer::window().0,
                        Renderer::window().1,
                        box_hit,
                        leaf_hit,
                        hit,
                    )
                    &&& self.shade_outcome(
                        ray,
                        depth,
                        sample,
                        hit,
                        box_hit,
                        leaf_hit,
                        scatter,
                        texture_value,
                        blend,
                        color,
                    )
                }
        }
    }

    /// The colour that a ray brings back from the scene, followed for at
    /// most `depth` bounces.
    ///
    /// With no bounce left the colour is black; this is the only way a
    /// path ends early. Otherwise the ray is cast into the scene, within
    /// the window from 0.001 to infinity. If it hits nothing, the colour is
    /// the background colour. If it hits a surface, the surface's material
    /// says what it gives off and whether it sends the ray on. Where it
    /// does, the colour is what the surface gives off, plus the colour of
    /// the scattered ray, followed for one bounce less, tinted by the
    /// scattering texture; where it does not, the colour is what the
    /// surface gives off.
    ///
    /// The scene is searched with `box_hit` and `leaf_hit` (see
    /// [`Geometry::hit`]). `scatter` says where a material sends a ray,
    /// `texture_value` gives the colour of a texture at a hit, and `blend`
    /// adds to its first argument the product of the other two.
    ///
    /// `sample` is the number of the sample that the ray belongs to. The
    /// library hands it to `scatter` together with the number of bounces
    /// left, so that what is random about a bounce can be drawn from a
    /// source that is fixed by sample and bounce: a caller who does so gets
    /// the same colour again (see [`color_is_determined`]).
    pub fn ray_color<B, L, S, T, M>(
        &self,
        ray: &Ray,
        depth: u32,
        sample: u32,
        box_hit: &B,
        leaf_hit: &L,
        scatter: &S,
        texture_value: &T,
        blend: &M,
    ) -> (color: Vec3) where
        B: Fn(&Aabb, &Ray, Scalar, Scalar) -> bool,
        L: Fn(&Geometry, &Ray, Scalar, Scalar) -> Option<HitRecord>,
        S: Fn(&MaterialType, &Ray, &HitRecord, u32, u32) -> Option<ScatterRecord>,
        T: Fn(usize, &HitRecord) -> Vec3,
        M: Fn(Vec3, Vec3, Vec3) -> Vec3,

        requires
            Geometry::always_callable(box_hit, leaf_hit),
            Renderer::always_callable(scatter, texture_value, blend),
            self.hits_are_shaded(box_hit, leaf_hit),
        ensures
            self.color_outcome(
                ray,
                depth,
                sample,
                box_hit,
                leaf_hit,
                scatter,
                texture_value,
                blend,
                color,
            ),
        decreases depth,
    {
        if depth == 0 {
            return Vec3::zero();
        }
        let near = Scalar::from_bits(NEAR_BITS);
        let far = Scalar::infinity();
        let hit = self.geometry.hit(ray, near, far, box_hit, leaf_hit);
        let color = match hit {
            Some(t) => {
                let material = self.materials[t.material_index];
                let emitted = match material.emitted() {
                    Some(texture) => (*texture_value)(texture, &t),
                    None => Vec3::zero(),
                };
                assert(Renderer::emitted_outcome(material, &t, texture_value, emitted));
                let scattered = (*scatter)(&material, ray, &t, sample, depth);
                match scattered {
                    Some(r) => {
                        let attenuation = (*texture_value)(r.texture_index, &t);
                        let incoming = self.ray_color(
                            &r.scattered,
                            depth - 1,
                            sample,
                            box_hit,
                            leaf_hit,
                            scatter,
                            texture_value,
                            blend,
                        );
                        let blended = (*blend)(emitted, attenuation, incoming);
                        assert(call_ensures(*blend, (emitted, attenuation, incoming), blended));
                        blended
                    },
                    None => emitted,
                }
            },
            None => self.settings.background_color,
        };
        assert(self.geometry.hit_outcome(
            ray,
            Renderer::window().0,
            Renderer::window().1,
            box_hit,
            leaf_hit,
            hit,
        ));
        assert(self.shade_outcome(
            ray,
            depth,
            sample,
            hit,
            box_hit,
            leaf_hit,
            scatter,
            texture_value,
            blend,
            color,
        ));
        color
    }

    /// White: the tint that leaves a colour as it is.
    pub open spec fn white() -> Vec3 {
        Vec3 {
            x: Scalar { bits: ONE_BITS },
            y: Scalar { bits: ONE_BITS },
            z: Scalar { bits: ONE_BITS },
        }
    }

    /// Whether `sum` is what the first `n` samples of the pixel in column
    /// `x` of row `y` may add up to: nothing adds up to black, and every
    /// further sample adds, by `blend` with a white tint, the colour of the
    /// ray that `primary_ray` casts through the pixel for the sample of
    /// that number, followed for the number of bounces that the settings
    /// allow.
    pub open spec fn sum_outcome<P, B, L, S, T, M>(
        &self,
        x: u32,
        y: u32,
        n: nat,
        primary_ray: &P,
        box_hit: &B,
        leaf_hit: &L,
        scatter: &S,
        texture_value: &T,
        blend: &M,
        sum: Vec3,
    ) -> bool where
        P: Fn(u32, u32, u32) -> Ray,
        B: Fn(&Aabb, &Ray, Scalar, Scalar) -> bool,
        L: Fn(&Geometry, &Ray, Scalar, Scalar) -> Option<HitRecord>,
        S: Fn(&MaterialType, &Ray, &HitRecord, u32, u32) -> Option<ScatterRecord>,
        T: Fn(usize, &HitRecord) -> Vec3,
        M: Fn(Vec3, Vec3, Vec3) -> Vec3,

        decreases n,
    {
        if n == 0 {
            sum == Vec3::zero_spec()
        } else {
            exists|before: Vec3, ray: Ray, sample: Vec3|
                {
                    &&& self.sum_outcome(
                        x,
                        y,
                        (n - 1) as nat,
                        primary_ray,
                        box_hit,
                        leaf_hit,
                        scatter,
                        texture_value,
                        blend,
                        before,
                    )
                    &&& #[trigger] call_ensures(*primary_ray, (x, y, (n - 1) as u32), ray)
                    &&& self.color_outcome(
                        &ray,
                        self.settings.max_depth,
                        (n - 1) as u32,
                        box_hit,
                        leaf_hit,
                        scatter,
                        texture_value,
                        blend,
                        sample,
                    )
                    &&& #[trigger] call_ensures(*blend, (before, Renderer::white(), sample), sum)
                }
        }
    }

    /// Whether `pixel` is what [`per_pixel`](Self::per_pixel) may report:
    /// the sum of all samples, developed, clamped (see
    /// [`clamp_color`](Self::clamp_color)) and quantized.
    pub open spec fn pixel_outcome<P, B, L, S, T, M, D, Q>(
        &self,
        x: u32,
        y: u32,
        primary_ray: &P,
        box_hit: &B,
        leaf_hit: &L,
        scatter: &S,
        texture_value: &T,
        blend: &M,
        develop: &D,
        quantize: &Q,
        pixel: [u8; 3],
    ) -> bool where
        P: Fn(u32, u32, u32) -> Ray,
        B: Fn(&Aabb, &Ray, Scalar, Scalar) -> bool,
        L: Fn(&Geometry, &Ray, Scalar, Scalar) -> Option<HitRecord>,
        S: Fn(&MaterialType, &Ray, &HitRecord, u32, u32) -> Option<ScatterRecord>,
        T: Fn(usize, &HitRecord) -> Vec3,
        M: Fn(Vec3, Vec3, Vec3) -> Vec3,
        D: Fn(Vec3, u32) -> Vec3,
        Q: Fn(Vec3) -> [u8; 3],
     {
        exists|sum: Vec3, developed: Vec3|
            {
                &&& self.sum_outcome(
                    x,
                    y,
                    self.settings.samples as nat,
                    primary_ray,
                    box_hit,
                    leaf_hit,
                    scatter,
                    texture_value,
                    blend,
                    sum,
                )
                &&& #[trigger] call_ensures(*develop, (sum, self.settings.samples), developed)
                &&& call_ensures(*quantize, (Renderer::clamped(developed),), pixel)
            }
    }

    /// The colour of the pixel in column `x` of row `y`.
    ///
    /// As many rays as the settings ask for are cast through the pixel,
    /// each by `primary_ray`, which is told the pixel and the number of the
    /// sample, counted from zero, and jitters the ray within the pixel,
    /// across the lens and across the shutter interval. Their colours (see
    /// [`ray_color`](Self::ray_color)) are added up, `develop` turns the
    /// sum into the average and takes the square root of every channel,
    /// the result is clamped, and `quantize` scales it to bytes.
    pub fn per_pixel<P, B, L, S, T, M, D, Q>(
        &self,
        x: u32,
        y: u32,
        primary_ray: &P,
        box_hit: &B,
        leaf_hit: &L,
        scatter: &S,
        texture_value: &T,
        blend: &M,
        develop: &D,
        quantize: &Q,
    ) -> (pixel: [u8; 3]) where
        P: Fn(u32, u32, u32) -> Ray,
        B: Fn(&Aabb, &Ray, Scalar, Scalar) -> bool,
        L: Fn(&Geometry, &Ray, Scalar, Scalar) -> Option<HitRecord>,
        S: Fn(&MaterialType, &Ray, &HitRecord, u32, u32) -> Option<ScatterRecord>,
        T: Fn(usize, &HitRecord) -> Vec3,
        M: Fn(Vec3, Vec3, Vec3) -> Vec3,
        D: Fn(Vec3, u32) -> Vec3,
        Q: Fn(Vec3) -> [u8; 3],

        requires
            Geometry::always_callable(box_hit, leaf_hit),
            Renderer::always_callable(scatter, texture_value, blend),
            Renderer::finish_callable(primary_ray, develop, quantize),
            self.hits_are_shaded(box_hit, leaf_hit),
        ensures
            self.pixel_outcome(
                x,
                y,
                primary_ray,
                box_hit,
                leaf_hit,
                scatter,
                texture_value,
                blend,
                develop,
                quantize,
                pixel,
            ),
    {
        let white = Vec3::splat(Scalar::from_bits(ONE_BITS));
        let mut color = Vec3::zero();
        let mut s: u32 = 0;
        while s < self.settings.samples
            invariant
                s <= self.settings.samples,
                white == Renderer::white(),
                Geometry::always_callable(box_hit, leaf_hit),
                Renderer::always_callable(scatter, texture_value, blend),
                Renderer::finish_callable(primary_ray, develop, quantize),
                self.hits_are_shaded(box_hit, leaf_hit),
                self.sum_outcome(
                    x,
                    y,
                    s as nat,
                    primary_ray,
                    box_hit,
                    leaf_hit,
                    scatter,
                    texture_value,
                    blend,
                    color,
                ),
            decreases self.settings.samples - s,
        {
            let ray = (*primary_ray)(x, y, s);
            let rc = self.ray_color(
                &ray,
                self.settings.max_depth,
                s,
                box_hit,
                leaf_hit,
                scatter,
                texture_value,
                blend,
            );
            let ghost before = color;
            color = (*blend)(color, white, rc);
            assert(call_ensures(*primary_ray, (x, y, s), ray));
            assert(call_ensures(*blend, (before, Renderer::white(), rc), color));
            s = s + 1;
        }
        let developed = (*develop)(color, self.settings.samples);
        assert(call_ensures(*develop, (color, self.settings.samples), developed));
        let clamped = Renderer::clamp_color(developed);
        (*quantize)(clamped)
    }

    /// Whether the operations that start and finish a pixel may be called
    /// on every argument.
    pub open spec fn finish_callable<P, D, Q>(primary_ray: &P, develop: &D, quantize: &Q) -> bool where
        P: Fn(u32, u32, u32) -> Ray,
        D: Fn(Vec3, u32) -> Vec3,
        Q: Fn(Vec3) -> [u8; 3],
     {
        &&& forall|x: u32, y: u32, sample: u32| #[trigger] call_requires(*primary_ray, (x, y, sample))
        &&& forall|sum: Vec3, samples: u32| #[trigger] call_requires(*develop, (sum, samples))
        &&& forall|color: Vec3| #[trigger] call_requires(*quantize, (color,))
    }

    /// A colour with every channel held between zero and 0.999.
    pub open spec fn clamped(color: Vec3) -> Vec3 {
        color.max_spec(Vec3::zero_spec()).min_spec(
            Vec3 {
                x: Scalar { bits: BRIGHTEST_BITS },
                y: Scalar { bits: BRIGHTEST_BITS },
                z: Scalar { bits: BRIGHTEST_BITS },
            },
        )
    }

    /// A colour with every channel held between zero and 0.999, as it is
    /// before it is scaled to a byte.
    pub fn clamp_color(color: Vec3) -> (clamped: Vec3)
        ensures
            clamped == Renderer::clamped(color),
    {
        color.clamp(Vec3::zero(), Vec3::splat(Scalar::from_bits(BRIGHTEST_BITS)))
    }
}

/// Where every hit that the leaf test can report refers to a material of
/// the scene, so does every hit that the scene can report.
pub proof fn scene_hits_are_shaded<B, L>(renderer: &Renderer, box_hit: &B, leaf_hit: &L) where
    B: Fn(&Aabb, &Ray, Scalar, Scalar) -> bool,
    L: Fn(&Geometry, &Ray, Scalar, Scalar) -> Option<HitRecord>,

    requires
        leaf_hits_satisfy(
            leaf_hit,
            |rec: HitRecord| rec.material_index < renderer.materials.len(),
        ),
    ensures
        renderer.hits_are_shaded(box_hit, leaf_hit),
{
    let property = |rec: HitRecord| rec.material_index < renderer.materials.len();
    assert forall|r: &Ray, t_min: Scalar, t_max: Scalar, rec: HitRecord| #[trigger]
        renderer.geometry.hit_outcome(
            r,
            t_min,
            t_max,
            box_hit,
            leaf_hit,
            Some(rec),
        ) implies rec.material_index < renderer.materials.len() by {
        scanned_hits_satisfy(
            &renderer.geometry,
            renderer.geometry.objects.len() as nat,
            r,
            t_min,
            t_max,
            box_hit,
            leaf_hit,
            property,
            rec,
        );
    }
}

/// Whether each shading operation answers the same question the same way
/// every time.
pub open spec fn shading_is_a_function<S, T, M>(scatter: &S, texture_value: &T, blend: &M) -> bool where
    S: Fn(&MaterialType, &Ray, &HitRecord, u32, u32) -> Option<ScatterRecord>,
    T: Fn(usize, &HitRecord) -> Vec3,
    M: Fn(Vec3, Vec3, Vec3) -> Vec3,
 {
    &&& forall|m: &MaterialType, r: &Ray, rec: &HitRecord, sample: u32, depth: u32, x: Option<ScatterRecord>, y: Option<ScatterRecord>|
        #![trigger call_ensures(*scatter, (m, r, rec, sample, depth), x), call_ensures(*scatter, (m, r, rec, sample, depth), y)]
        call_ensures(*scatter, (m, r, rec, sample, depth), x) && call_ensures(
            *scatter,
            (m, r, rec, sample, depth),
            y,
        ) ==> x == y
    &&& forall|t: usize, rec: &HitRecord, x: Vec3, y: Vec3|
        #![trigger call_ensures(*texture_value, (t, rec), x), call_ensures(*texture_value, (t, rec), y)]
        call_ensures(*texture_value, (t, rec), x) && call_ensures(*texture_value, (t, rec), y)
            ==> x == y
    &&& forall|a: Vec3, b: Vec3, c: Vec3, x: Vec3, y: Vec3|
        #![trigger call_ensures(*blend, (a, b, c), x), call_ensures(*blend, (a, b, c), y)]
        call_ensures(*blend, (a, b, c), x) && call_ensures(*blend, (a, b, c), y) ==> x == y
}

/// The renderer adds no chance of its own: with tests and shading
/// operations that answer the same question the same way every time, the
/// colour that a ray brings back is determined.
pub proof fn color_is_determined<B, L, S, T, M>(
    renderer: &Renderer,
    ray: &Ray,
    depth: u32,
    sample: u32,
    box_hit: &B,
    leaf_hit: &L,
    scatter: &S,
    texture_value: &T,
    blend: &M,
    one: Vec3,
    other: Vec3,
) where
    B: Fn(&Aabb, &Ray, Scalar, Scalar) -> bool,
    L: Fn(&Geometry, &Ray, Scalar, Scalar) -> Option<HitRecord>,
    S: Fn(&MaterialType, &Ray, &HitRecord, u32, u32) -> Option<ScatterRecord>,
    T: Fn(usize, &HitRecord) -> Vec3,
    M: Fn(Vec3, Vec3, Vec3) -> Vec3,

    requires
        tests_are_functions(box_hit, leaf_hit),
        shading_is_a_function(scatter, texture_value, blend),
        renderer.color_outcome(
            ray,
            depth,
            sample,
            box_hit,
            leaf_hit,
            scatter,
            texture_value,
            blend,
            one,
        ),
        renderer.color_outcome(
            ray,
            depth,
            sample,
            box_hit,
            leaf_hit,
            scatter,
            texture_value,
            blend,
            other,
        ),
    ensures
        one == other,
    decreases depth,
{
    if depth > 0 {
        let near = Renderer::window().0;
        let far = Renderer::window().1;
        let hit = choose|hit: Option<HitRecord>|
            {
                &&& #[trigger] renderer.geometry.hit_outcome(
                    ray,
                    near,
                    far,
                    box_hit,
                    leaf_hit,
                    hit,
                )
                &&& renderer.shade_outcome(
                    ray,
                    depth,
                    sample,
                    hit,
                    box_hit,
                    leaf_hit,
                    scatter,
                    texture_value,
                    blend,
                    one,
                )
            };
        let hit2 = choose|hit: Option<HitRecord>|
            {
                &&& #[trigger] renderer.geometry.hit_outcome(
                    ray,
                    near,
                    far,
                    box_hit,
                    leaf_hit,
                    hit,
                )
                &&& renderer.shade_outcome(
                    ray,
                    depth,
                    sample,
                    hit,
                    box_hit,
                    leaf_hit,
                    scatter,
                    texture_value,
                    blend,
                    other,
                )
            };
        scan_is_determined(
            &renderer.geometry,
            renderer.geometry.objects.len() as nat,
            ray,
            near,
            far,
            box_hit,
            leaf_hit,
            hit,
            hit2,
        );
        match hit {
            None => {},
            Some(rec) => {
                let material = renderer.materials[rec.material_index as int];
                let (emitted, scattered) = choose|emitted: Vec3, scattered: Option<ScatterRecord>|
                    {
                        &&& #[trigger] Renderer::emitted_outcome(
                            material,
                            &rec,
                            texture_value,
                            emitted,
                        )
                        &&& #[trigger] call_ensures(
                            *scatter,
                            (&material, ray, &rec, sample, depth),
                            scattered,
                        )
                        &&& match scattered {
                            None => one == emitted,
                            Some(s) => exists|attenuation: Vec3, incoming: Vec3|
                                {
                                    &&& call_ensures(
                                        *texture_value,
                                        (s.texture_index, &rec),
                                        attenuation,
                                    )
                                    &&& renderer.color_outcome(
                                        &s.scattered,
                                        (depth - 1) as u32,
                                        sample,
                                        box_hit,
                                        leaf_hit,
                                        scatter,
                                        texture_value,
                                        blend,
                                        incoming,
                                    )
                                    &&& #[trigger] call_ensures(
                                        *blend,
                                        (emitted, attenuation, incoming),
                                        one,
                                    )
                                },
                        }
                    };
                let (emitted2, scattered2) = choose|emitted: Vec3, scattered: Option<ScatterRecord>|
                    {
                        &&& #[trigger] Renderer::emitted_outcome(
                            material,
                            &rec,
                            texture_value,
                            emitted,
                        )
                        &&& #[trigger] call_ensures(
                            *scatter,
                            (&material, ray, &rec, sample, depth),
                            scattered,
                        )
                        &&& match scattered {
                            None => other == emitted,
                            Some(s) => exists|attenuation: Vec3, incoming: Vec3|
                                {
                                    &&& call_ensures(
                                        *texture_value,
                                        (s.texture_index, &rec),
                                        attenuation,
                                    )
                                    &&& renderer.color_outcome(
                                        &s.scattered,
                                        (depth - 1) as u32,
                                        sample,
                                        box_hit,
                                        leaf_hit,
                                        scatter,
                                        texture_value,
                                        blend,
                                        incoming,
                                    )
                                    &&& #[trigger] call_ensures(
                                        *blend,
                                        (emitted, attenuation, incoming),
                                        other,
                                    )
                                },
                        }
                    };
                assert(emitted == emitted2);
                assert(scattered == scattered2);
                match scattered {
                    None => {},
                    Some(s) => {
                        let (attenuation, incoming) = choose|attenuation: Vec3, incoming: Vec3|
                            {
                                &&& call_ensures(
                                    *texture_value,
                                    (s.texture_index, &rec),
                                    attenuation,
                                )
                                &&& renderer.color_outcome(
                                    &s.scattered,
                                    (depth - 1) as u32,
                                    sample,
                                    box_hit,
                                    leaf_hit,
                                    scatter,
                                    texture_value,
                                    blend,
                                    incoming,
                                )
                                &&& #[trigger] call_ensures(
                                    *blend,
                                    (emitted, attenuation, incoming),
                                    one,
                                )
                            };
                        let (attenuation2, incoming2) = choose|attenuation: Vec3, incoming: Vec3|
                            {
                                &&& call_ensures(
                                    *texture_value,
                                    (s.texture_index, &rec),
                                    attenuation,
                                )
                                &&& renderer.color_outcome(
                                    &s.scattered,
                                    (depth - 1) as u32,
                                    sample,
                                    box_hit,
                                    leaf_hit,
                                    scatter,
                                    texture_value,
                                    blend,
                                    incoming,
                                )
                                &&& #[trigger] call_ensures(
                                    *blend,
                                    (emitted, attenuation, incoming),
                                    other,
                                )
                            };
                        color_is_determined(
                            renderer,
                            &s.scattered,
                            (depth - 1) as u32,
                            sample,
                            box_hit,
                            leaf_hit,
                            scatter,
                            texture_value,
                            blend,
                            incoming,
                            incoming2,
                        );
                    },
                }
            },
        }
    }
}

/// Whether each operation that starts or finishes a pixel answers the same
/// question the same way every time.
pub open spec fn finish_is_a_function<P, D, Q>(primary_ray: &P, develop: &D, quantize: &Q) -> bool where
    P: Fn(u32, u32, u32) -> Ray,
    D: Fn(Vec3, u32) -> Vec3,
    Q: Fn(Vec3) -> [u8; 3],
 {
    &&& forall|x: u32, y: u32, sample: u32, a: Ray, b: Ray|
        #![trigger call_ensures(*primary_ray, (x, y, sample), a), call_ensures(*primary_ray, (x, y, sample), b)]
        call_ensures(*primary_ray, (x, y, sample), a) && call_ensures(
            *primary_ray,
            (x, y, sample),
            b,
        ) ==> a == b
    &&& forall|sum: Vec3, samples: u32, a: Vec3, b: Vec3|
        #![trigger call_ensures(*develop, (sum, samples), a), call_ensures(*develop, (sum, samples), b)]
        call_ensures(*develop, (sum, samples), a) && call_ensures(*develop, (sum, samples), b)
            ==> a == b
    &&& forall|color: Vec3, a: [u8; 3], b: [u8; 3]|
        #![trigger call_ensures(*quantize, (color,), a), call_ensures(*quantize, (color,), b)]
        call_ensures(*quantize, (color,), a) && call_ensures(*quantize, (color,), b) ==> a == b
}

/// With operations that answer the same question the same way every time,
/// the sum of the first `n` samples of a pixel is determined.
pub proof fn sum_is_determined<P, B, L, S, T, M>(
    renderer: &Renderer,
    x: u32,
    y: u32,
    n: nat,
    primary_ray: &P,
    box_hit: &B,
    leaf_hit: &L,
    scatter: &S,
    texture_value: &T,
    blend: &M,
    one: Vec3,
    other: Vec3,
) where
    P: Fn(u32, u32, u32) -> Ray,
    B: Fn(&Aabb, &Ray, Scalar, Scalar) -> bool,
    L: Fn(&Geometry, &Ray, Scalar, Scalar) -> Option<HitRecord>,
    S: Fn(&MaterialType, &Ray, &HitRecord, u32, u32) -> Option<ScatterRecord>,
    T: Fn(usize, &HitRecord) -> Vec3,
    M: Fn(Vec3, Vec3, Vec3) -> Vec3,

    requires
        tests_are_functions(box_hit, leaf_hit),
        shading_is_a_function(scatter, texture_value, blend),
        forall|px: u32, py: u32, sample: u32, a: Ray, b: Ray|
            #![trigger call_ensures(*primary_ray, (px, py, sample), a), call_ensures(*primary_ray, (px, py, sample), b)]
            call_ensures(*primary_ray, (px, py, sample), a) && call_ensures(
                *primary_ray,
                (px, py, sample),
                b,
            ) ==> a == b,
        renderer.sum_outcome(
            x,
            y,
            n,
            primary_ray,
            box_hit,
            leaf_hit,
            scatter,
            texture_value,
            blend,
            one,
        ),
        renderer.sum_outcome(
            x,
            y,
            n,
            primary_ray,
            box_hit,
            leaf_hit,
            scatter,
            texture_value,
            blend,
            other,
        ),
    ensures
        one == other,
    decreases n,
{
    if n > 0 {
        let (before, ray, sample) = choose|before: Vec3, ray: Ray, sample: Vec3|
            {
                &&& renderer.sum_outcome(
                    x,
                    y,
                    (n - 1) as nat,
                    primary_ray,
                    box_hit,
                    leaf_hit,
                    scatter,
                    texture_value,
                    blend,
                    before,
                )
                &&& #[trigger] call_ensures(*primary_ray, (x, y, (n - 1) as u32), ray)
                &&& renderer.color_outcome(
                    &ray,
                    renderer.settings.max_depth,
                    (n - 1) as u32,
                    box_hit,
                    leaf_hit,
                    scatter,
                    texture_value,
                    blend,
                    sample,
                )
                &&& #[trigger] call_ensures(*blend, (before, Renderer::white(), sample), one)
            };
        let (before2, ray2, sample2) = choose|before: Vec3, ray: Ray, sample: Vec3|
            {
                &&& renderer.sum_outcome(
                    x,
                    y,
                    (n - 1) as nat,
                    primary_ray,
                    box_hit,
                    leaf_hit,
                    scatter,
                    texture_value,
                    blend,
                    before,
                )
                &&& #[trigger] call_ensures(*primary_ray, (x, y, (n - 1) as u32), ray)
                &&& renderer.color_outcome(
                    &ray,
                    renderer.settings.max_depth,
                    (n - 1) as u32,
                    box_hit,
                    leaf_hit,
                    scatter,
                    texture_value,
                    blend,
                    sample,
                )
                &&& #[trigger] call_ensures(*blend, (before, Renderer::white(), sample), other)
            };
        sum_is_determined(
            renderer,
            x,
            y,
            (n - 1) as nat,
            primary_ray,
            box_hit,
            leaf_hit,
            scatter,
            texture_value,
            blend,
            before,
            before2,
        );
        assert(ray == ray2);
        color_is_determined(
            renderer,
            &ray,
            renderer.settings.max_depth,
            (n - 1) as u32,
            box_hit,
            leaf_hit,
            scatter,
            texture_value,
            blend,
            sample,
            sample2,
        );
    }
}

/// Rendering the same pixel twice gives the same bytes: with operations
/// that answer the same question the same way every time, what
/// [`Renderer::per_pixel`] reports is determined. The operations are told
/// the pixel, the sample and the bounce, so this covers every render whose
/// random draws are fixed by these, whatever the order in which pixels are
/// rendered: the samples of a pixel may all be different rays.
pub proof fn pixel_is_determined<P, B, L, S, T, M, D, Q>(
    renderer: &Renderer,
    x: u32,
    y: u32,
    primary_ray: &P,
    box_hit: &B,
    leaf_hit: &L,
    scatter: &S,
    texture_value: &T,
    blend: &M,
    develop: &D,
    quantize: &Q,
    one: [u8; 3],
    other: [u8; 3],
) where
    P: Fn(u32, u32, u32) -> Ray,
    B: Fn(&Aabb, &Ray, Scalar, Scalar) -> bool,
    L: Fn(&Geometry, &Ray, Scalar, Scalar) -> Option<HitRecord>,
    S: Fn(&MaterialType, &Ray, &HitRecord, u32, u32) -> Option<ScatterRecord>,
    T: Fn(usize, &HitRecord) -> Vec3,
    M: Fn(Vec3, Vec3, Vec3) -> Vec3,
    D: Fn(Vec3, u32) -> Vec3,
    Q: Fn(Vec3) -> [u8; 3],

    requires
        tests_are_functions(box_hit, leaf_hit),
        shading_is_a_function(scatter, texture_value, blend),
        finish_is_a_function(primary_ray, develop, quantize),
        renderer.pixel_outcome(
            x,
            y,
            primary_ray,
            box_hit,
            leaf_hit,
            scatter,
            texture_value,
            blend,
            develop,
            quantize,
            one,
        ),
        renderer.pixel_outcome(
            x,
            y,
            primary_ray,
            box_hit,
            leaf_hit,
            scatter,
            texture_value,
            blend,
            develop,
            quantize,
            other,
        ),
    ensures
        one == other,
{
    let samples = renderer.settings.samples;
    let (sum, developed) = choose|sum: Vec3, developed: Vec3|
        {
            &&& renderer.sum_outcome(
                x,
                y,
                samples as nat,
                primary_ray,
                box_hit,
                leaf_hit,
                scatter,
                texture_value,
                blend,
                sum,
            )
            &&& #[trigger] call_ensures(*develop, (sum, samples), developed)
            &&& call_ensures(*quantize, (Renderer::clamped(developed),), one)
        };
    let (sum2, developed2) = choose|sum: Vec3, developed: Vec3|
        {
            &&& renderer.sum_outcome(
                x,
                y,
                samples as nat,
                primary_ray,
                box_hit,
                leaf_hit,
                scatter,
                texture_value,
                blend,
                sum,
            )
            &&& #[trigger] call_ensures(*develop, (sum, samples), developed)
            &&& call_ensures(*quantize, (Renderer::clamped(developed),), other)
        };
    sum_is_determined(
        renderer,
        x,
        y,
        samples as nat,
        primary_ray,
        box_hit,
        leaf_hit,
        scatter,
        texture_value,
        blend,
        sum,
        sum2,
    );
}

/// After clamping, a channel that was a number lies between zero and
/// 0.999.
pub proof fn clamped_channel_is_in_range(channel: Scalar)
    requires
        !channel.nan(),
    ensures
        Scalar::zero_spec().le_spec(
            channel.max_spec(Scalar::zero_spec()).min_spec(Scalar { bits: BRIGHTEST_BITS }),
        ),
        channel.max_spec(Scalar::zero_spec()).min_spec(Scalar { bits: BRIGHTEST_BITS }).le_spec(
            Scalar { bits: BRIGHTEST_BITS },
        ),
{
}

} // verus!
