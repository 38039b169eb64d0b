//! Scene descriptions: a plain-value descriptor tree and the build pass
//! that turns it into the live surface/material/texture graph.
//!
//! Image textures are described by a file path; the decoded pixels come in
//! through an [`ImageLibrary`] that the caller fills.  A descriptor naming
//! a path the library lacks, or an empty acceleration-structure list, is a
//! malformed scene: building reports an error instead of a world.

use crate::bvh::BvhNode;
use crate::fx::{fx_div, Fx, SCALE};
use crate::hitable::{
    box_panels, BoxObject, FlipNormals, Hitable, HitableList, MovingSphere, RectSliceXy,
    RectSliceXz, RectSliceYz, Sphere,
};
use crate::material::{
    Dielectric, DiffuseLight, Lambertian, Material as MaterialClass, Metal,
};
use crate::rng::{random_below, random_unit};
use crate::texture::{
    CheckerTexture, ImageTexture, NoiseTexture, SolidTexture, Texture as TextureClass,
};
use crate::vec3::Vec3;
use std::rc::Rc;
use vstd::prelude::*;
use vstd::string::StringExecFns;

verus! {

/// A decoded image: its path, dimensions and RGB bytes.
#[derive(Debug)]
pub struct ImageEntry {
    pub path: String,
    pub nx: u32,
    pub ny: u32,
    pub pixels: Vec<u8>,
}

/// The decoded images a scene build may refer to.
#[derive(Debug)]
pub struct ImageLibrary {
    pub entries: Vec<ImageEntry>,
}

/// Whether the library holds an image under this path.
pub open spec fn lib_has(lib: Seq<ImageEntry>, path: Seq<char>) -> bool {
    exists|i: int| 0 <= i < lib.len() && #[trigger] lib[i].path@ == path
}

impl ImageLibrary {
    pub fn new() -> (lib: ImageLibrary)
        ensures
            lib.entries@.len() == 0,
    {
        ImageLibrary { entries: Vec::new() }
    }

    pub fn put(&mut self, entry: ImageEntry)
        ensures
            final(self).entries@ == old(self).entries@.push(entry),
    {
        self.entries.push(entry);
    }

    /// The first entry under the given path, if any.
    pub fn find(&self, path: &String) -> (r: Option<&ImageEntry>)
        ensures
            (match r {
                Some(e) => e.path@ == path@ && exists|i: int|
                    0 <= i < self.entries@.len() && #[trigger] self.entries@[i] == *e,
                None => !lib_has(self.entries@, path@),
            }),
    {
        let mut i: usize = 0;
        while i < self.entries.len()
            invariant
                i <= self.entries@.len(),
                forall|k: int| 0 <= k < i ==> #[trigger] self.entries@[k].path@ != path@,
            decreases self.entries@.len() - i,
        {
            if self.entries[i].path.eq(path) {
                return Some(&self.entries[i]);
            }
            i = i + 1;
        }
        None
    }
}

/// Texture descriptors, as written in a scene file.
#[derive(Debug)]
pub enum Texture {
    SolidTexture(u16, u16, u16),
    CheckerTexture { odd: Box<Texture>, even: Box<Texture> },
    NoiseTexture { scale: Fx },
    ImageTexture { path: String },
}

/// Material descriptors.
#[derive(Debug)]
pub enum Material {
    Lambertian { texture: Texture },
    Dielectric(Fx),
    Metal { texture: Texture, fuzz: Fx },
    DiffuseLight { texture: Texture },
}

/// Object descriptors.
#[derive(Debug)]
pub enum Object {
    Sphere { position: (Fx, Fx, Fx), radius: Fx, material: Material },
    MovingSphere { position: (Fx, Fx, Fx), shift: (Fx, Fx, Fx), radius: Fx, material: Material },
    RectSliceXy { params: (Fx, Fx, Fx, Fx, Fx), material: Material },
    RectSliceXz { params: (Fx, Fx, Fx, Fx, Fx), material: Material },
    RectSliceYz { params: (Fx, Fx, Fx, Fx, Fx), material: Material },
    FlipNormals(Box<Object>),
    BoxObject { p0: (Fx, Fx, Fx), p1: (Fx, Fx, Fx), material: Material },
    BvhNode { objects: Box<Vec<Object>> },
}

/// A whole scene description: camera parameters and object descriptors.
#[derive(Debug)]
pub struct MapFile {
    pub lookfrom: (Fx, Fx, Fx),
    pub lookat: (Fx, Fx, Fx),
    pub dist_to_focus: Fx,
    pub aperture: Fx,
    pub objects: Vec<Object>,
}

/// A malformed scene description, with what was wrong.
#[derive(Debug)]
pub enum SceneError {
    InvalidScene(String),
}

/// A texture descriptor builds iff every image path it names is present.
pub open spec fn texture_ok(t: Texture, lib: Seq<ImageEntry>) -> bool
    decreases t,
{
    match t {
        Texture::SolidTexture(_, _, _) => true,
        Texture::CheckerTexture { odd, even } => texture_ok(*odd, lib) && texture_ok(*even, lib),
        Texture::NoiseTexture { .. } => true,
        Texture::ImageTexture { path } => lib_has(lib, path@),
    }
}

pub open spec fn material_ok(m: Material, lib: Seq<ImageEntry>) -> bool {
    match m {
        Material::Lambertian { texture } => texture_ok(texture, lib),
        Material::Dielectric(_) => true,
        Material::Metal { texture, .. } => texture_ok(texture, lib),
        Material::DiffuseLight { texture } => texture_ok(texture, lib),
    }
}

/// An object descriptor builds iff its materials build and every nested
/// acceleration-structure list is nonempty.
pub open spec fn object_ok(o: Object, lib: Seq<ImageEntry>) -> bool
    decreases o, 0nat,
{
    match o {
        Object::Sphere { material, .. } => material_ok(material, lib),
        Object::MovingSphere { material, .. } => material_ok(material, lib),
        Object::RectSliceXy { material, .. } => material_ok(material, lib),
        Object::RectSliceXz { material, .. } => material_ok(material, lib),
        Object::RectSliceYz { material, .. } => material_ok(material, lib),
        Object::FlipNormals(child) => object_ok(*child, lib),
        Object::BoxObject { material, .. } => material_ok(material, lib),
        Object::BvhNode { objects } => objects@.len() >= 1 && objects_ok(
            objects@,
            objects@.len() as int,
            lib,
        ),
    }
}

/// The first `n` descriptors all build.
pub open spec fn objects_ok(s: Seq<Object>, n: int, lib: Seq<ImageEntry>) -> bool
    decreases s, n,
{
    if n <= 0 || n > s.len() {
        true
    } else {
        objects_ok(s, n - 1, lib) && object_ok(s[n - 1], lib)
    }
}

/// A 16-bit channel value scaled into `[0, 1]` (the descriptor convention
/// divides by 255; values above 255 give light intensities above one).
pub open spec fn chan16(c: int) -> int {
    fx_div(crate::fx::clip(c * SCALE as int), 255 * SCALE as int)
}

/// The live texture a descriptor builds to, given the library.
pub open spec fn built_texture(t: TextureClass, d: Texture, lib: Seq<ImageEntry>) -> bool
    decreases d,
{
    match d {
        Texture::SolidTexture(r, g, b) => t matches TextureClass::Solid(s) && s.color.v() == (
            chan16(r as int),
            chan16(g as int),
            chan16(b as int),
        ),
        Texture::CheckerTexture { odd, even } => t matches TextureClass::Checker(c)
            && built_texture(*c.odd, *odd, lib) && built_texture(*c.even, *even, lib),
        Texture::NoiseTexture { scale } => t == TextureClass::Noise(NoiseTexture { scale }),
        Texture::ImageTexture { path } => t matches TextureClass::Image(img) && exists|i: int|
            0 <= i < lib.len() && #[trigger] lib[i].path@ == path@ && img.nx == lib[i].nx
                && img.ny == lib[i].ny && img.pixels@ == lib[i].pixels@,
    }
}

/// The live material a descriptor builds to.
pub open spec fn built_material(m: MaterialClass, d: Material, lib: Seq<ImageEntry>) -> bool {
    match d {
        Material::Lambertian { texture } => m matches MaterialClass::Lambertian(l)
            && built_texture(l.albedo, texture, lib),
        Material::Dielectric(x) => m == MaterialClass::Dielectric(Dielectric { ref_index: x }),
        Material::Metal { texture, fuzz } => m matches MaterialClass::Metal(mm) && built_texture(
            mm.albedo,
            texture,
            lib,
        ) && mm.fuzz.raw as int == (if fuzz.raw < SCALE {
            fuzz.raw as int
        } else {
            SCALE as int
        }),
        Material::DiffuseLight { texture } => m matches MaterialClass::DiffuseLight(dl)
            && built_texture(dl.emit, texture, lib),
    }
}

/// The live object a descriptor builds to (the acceleration-structure
/// variant is built with randomized splits, so only its shape is pinned).
pub open spec fn built_object(h: Hitable, d: Object, lib: Seq<ImageEntry>) -> bool
    decreases d, 0nat,
{
    match d {
        Object::Sphere { position, radius, material } => h matches Hitable::Sphere(s)
            && s.center == (Vec3 { x: position.0, y: position.1, z: position.2 }) && s.radius
            == radius && built_material(*s.material, material, lib),
        Object::MovingSphere { position, shift, radius, material } => h matches Hitable::MovingSphere(m)
            && m.centers.0 == (Vec3 { x: position.0, y: position.1, z: position.2 })
            && m.centers.1.v() == crate::vec3::v3add(
            (position.0.raw as int, position.1.raw as int, position.2.raw as int),
            (shift.0.raw as int, shift.1.raw as int, shift.2.raw as int),
        ) && m.time0.raw == 0 && m.time1.raw == SCALE && m.radius == radius && built_material(
            *m.material,
            material,
            lib,
        ),
        Object::RectSliceXy { params, material } => h matches Hitable::RectXy(q) && q.x0
            == params.0 && q.x1 == params.1 && q.y0 == params.2 && q.y1 == params.3 && q.k
            == params.4 && built_material(*q.material, material, lib),
        Object::RectSliceXz { params, material } => h matches Hitable::RectXz(q) && q.x0
            == params.0 && q.x1 == params.1 && q.z0 == params.2 && q.z1 == params.3 && q.k
            == params.4 && built_material(*q.material, material, lib),
        Object::RectSliceYz { params, material } => h matches Hitable::RectYz(q) && q.y0
            == params.0 && q.y1 == params.1 && q.z0 == params.2 && q.z1 == params.3 && q.k
            == params.4 && built_material(*q.material, material, lib),
        Object::FlipNormals(child) => h matches Hitable::Flip(f) && built_object(
            *f.child,
            *child,
            lib,
        ),
        Object::BoxObject { p0, p1, material } => h matches Hitable::BoxObj(b) && b.p0 == (Vec3 {
            x: p0.0,
            y: p0.1,
            z: p0.2,
        }) && b.p1 == (Vec3 { x: p1.0, y: p1.1, z: p1.2 }) && exists|mt: Rc<MaterialClass>|
            built_material(*mt, material, lib) && b.hitlist.list@ =~= #[trigger] box_panels(
                b.p0,
                b.p1,
                mt,
            ),
        Object::BvhNode { objects } => h matches Hitable::Bvh(node) && exists|hs: Seq<Hitable>|
            #![trigger crate::bvh::elems_seq(hs)]
            hs.len() == objects@.len() && (forall|i: int|
                0 <= i < hs.len() ==> built_object(#[trigger] hs[i], objects@[i], lib))
                && crate::bvh::bvh_elems(node).to_multiset() == crate::bvh::elems_seq(
                hs,
            ).to_multiset(),
    }
}

fn build_channel(c: u16) -> (r: Fx)
    ensures
        r.raw as int == chan16(c as int),
{
    Fx::from_int(c as i64).div(Fx::from_int(255))
}

impl MapFile {
    /// Build the live texture for a descriptor, or report the missing
    /// image.
    pub fn build_texture(texture: &Texture, images: &ImageLibrary) -> (r: Result<
        TextureClass,
        SceneError,
    >)
        ensures
            r is Ok <==> texture_ok(*texture, images.entries@),
            (match r {
                Ok(t) => built_texture(t, *texture, images.entries@),
                Err(_) => true,
            }),
        decreases *texture,
    {
        match texture {
            Texture::SolidTexture(r, g, b) => Ok(
                SolidTexture::new(
                    Vec3 {
                        x: build_channel(*r),
                        y: build_channel(*g),
                        z: build_channel(*b),
                    },
                ),
            ),
            Texture::CheckerTexture { odd, even } => {
                let o = match Self::build_texture(odd, images) {
                    Ok(o) => o,
                    Err(e) => {
                        return Err(e);
                    },
                };
                let e = match Self::build_texture(even, images) {
                    Ok(e) => e,
                    Err(err) => {
                        return Err(err);
                    },
                };
                Ok(CheckerTexture::new(o, e))
            },
            Texture::NoiseTexture { scale } => Ok(NoiseTexture::new(*scale)),
            Texture::ImageTexture { path } => {
                match images.find(path) {
                    Some(entry) => {
                        let px = entry.pixels.clone();
                        proof {
                            assert(px@ =~= entry.pixels@) by {
                                broadcast use vstd::std_specs::vec::group_vec_axioms;

                                assert forall|i: int| 0 <= i < px@.len() implies px@[i]
                                    == entry.pixels@[i] by {
                                    assert(vstd::pervasive::cloned::<u8>(
                                        entry.pixels@[i],
                                        px@[i],
                                    ));
                                }
                            }
                        }
                        Ok(
                            TextureClass::Image(
                                ImageTexture { nx: entry.nx, ny: entry.ny, pixels: px },
                            ),
                        )
                    },
                    None => Err(
                        SceneError::InvalidScene(String::from_str("missing image texture file")),
                    ),
                }
            },
        }
    }

    /// Build the live material for a descriptor.
    pub fn build_material(material: &Material, images: &ImageLibrary) -> (r: Result<
        MaterialClass,
        SceneError,
    >)
        ensures
            r is Ok <==> material_ok(*material, images.entries@),
            (match r {
                Ok(m) => built_material(m, *material, images.entries@),
                Err(_) => true,
            }),
    {
        match material {
            Material::Lambertian { texture } => {
                match Self::build_texture(texture, images) {
                    Ok(t) => Ok(MaterialClass::Lambertian(Lambertian::new(t))),
                    Err(e) => Err(e),
                }
            },
            Material::Dielectric(x) => Ok(MaterialClass::Dielectric(Dielectric::new(*x))),
            Material::Metal { texture, fuzz } => {
                match Self::build_texture(texture, images) {
                    Ok(t) => Ok(MaterialClass::Metal(Metal::new(t, *fuzz))),
                    Err(e) => Err(e),
                }
            },
            Material::DiffuseLight { texture } => {
                match Self::build_texture(texture, images) {
                    Ok(t) => Ok(MaterialClass::DiffuseLight(DiffuseLight::new(t))),
                    Err(e) => Err(e),
                }
            },
        }
    }

    /// Build the whole world: every descriptor in order.
    pub fn build_world(&self, images: &ImageLibrary) -> (r: Result<HitableList, SceneError>)
        ensures
            r is Ok <==> objects_ok(self.objects@, self.objects@.len() as int, images.entries@),
            (match r {
                Ok(w) => w.list@.len() == self.objects@.len() && (forall|i: int|
                    0 <= i < w.list@.len() ==> built_object(
                        #[trigger] w.list@[i],
                        self.objects@[i],
                        images.entries@,
                    )) && (forall|i: int|
                    0 <= i < w.list@.len() ==> crate::bvh::boxed_h(
                        #[trigger] w.list@[i],
                        0,
                        SCALE as int,
                    )),
                Err(_) => true,
            }),
    {
        let mut world = HitableList::new();
        let mut i: usize = 0;
        while i < self.objects.len()
            invariant
                i <= self.objects@.len(),
                world.list@.len() == i,
                objects_ok(self.objects@, i as int, images.entries@),
                forall|k: int|
                    0 <= k < i ==> built_object(
                        #[trigger] world.list@[k],
                        self.objects@[k],
                        images.entries@,
                    ),
                forall|k: int|
                    0 <= k < i ==> crate::bvh::boxed_h(#[trigger] world.list@[k], 0, SCALE as int),
            decreases self.objects@.len() - i,
        {
            match self.objects[i].parse(images) {
                Ok(h) => {
                    world.put(h);
                },
                Err(e) => {
                    proof {
                        lemma_objects_ok_prefix_fails(
                            self.objects@,
                            self.objects@.len() as int,
                            i as int,
                            images.entries@,
                        );
                    }
                    return Err(e);
                },
            }
            i = i + 1;
        }
        Ok(world)
    }
}

/// If some descriptor fails, the whole prefix check fails.
proof fn lemma_objects_ok_prefix_fails(s: Seq<Object>, n: int, j: int, lib: Seq<ImageEntry>)
    requires
        0 <= j < n <= s.len(),
        !object_ok(s[j], lib),
    ensures
        !objects_ok(s, n, lib),
    decreases n,
{
    if j < n - 1 {
        lemma_objects_ok_prefix_fails(s, n - 1, j, lib);
    }
}

impl Object {
    /// Build the live object for this descriptor.
    pub fn parse(&self, images: &ImageLibrary) -> (r: Result<Hitable, SceneError>)
        ensures
            r is Ok <==> object_ok(*self, images.entries@),
            (match r {
                Ok(h) => built_object(h, *self, images.entries@) && crate::bvh::boxed_h(
                    h,
                    0,
                    SCALE as int,
                ),
                Err(_) => true,
            }),
        decreases *self, 0nat,
    {
        match self {
            Object::Sphere { position, radius, material } => {
                match MapFile::build_material(material, images) {
                    Ok(m) => Ok(
                        Hitable::Sphere(
                            Sphere::with_values(
                                Vec3 { x: position.0, y: position.1, z: position.2 },
                                *radius,
                                Rc::new(m),
                            ),
                        ),
                    ),
                    Err(e) => Err(e),
                }
            },
            Object::MovingSphere { position, shift, radius, material } => {
                match MapFile::build_material(material, images) {
                    Ok(m) => {
                        let c0 = Vec3 { x: position.0, y: position.1, z: position.2 };
                        let c1 = c0.add(Vec3 { x: shift.0, y: shift.1, z: shift.2 });
                        Ok(
                            Hitable::MovingSphere(
                                MovingSphere::with_values(
                                    (c0, c1),
                                    Fx::zero(),
                                    Fx { raw: SCALE },
                                    *radius,
                                    Rc::new(m),
                                ),
                            ),
                        )
                    },
                    Err(e) => Err(e),
                }
            },
            Object::RectSliceXy { params, material } => {
                match MapFile::build_material(material, images) {
                    Ok(m) => Ok(Hitable::RectXy(RectSliceXy::new(Rc::new(m), *params))),
                    Err(e) => Err(e),
                }
            },
            Object::RectSliceXz { params, material } => {
                match MapFile::build_material(material, images) {
                    Ok(m) => Ok(Hitable::RectXz(RectSliceXz::new(Rc::new(m), *params))),
                    Err(e) => Err(e),
                }
            },
            Object::RectSliceYz { params, material } => {
                match MapFile::build_material(material, images) {
                    Ok(m) => Ok(Hitable::RectYz(RectSliceYz::new(Rc::new(m), *params))),
                    Err(e) => Err(e),
                }
            },
            Object::FlipNormals(child) => {
                match child.parse(images) {
                    Ok(h) => Ok(Hitable::Flip(FlipNormals::new(Box::new(h)))),
                    Err(e) => Err(e),
                }
            },
            Object::BoxObject { p0, p1, material } => {
                match MapFile::build_material(material, images) {
                    Ok(m) => {
                        let mt = Rc::new(m);
                        let b = BoxObject::new(
                            Vec3 { x: p0.0, y: p0.1, z: p0.2 },
                            Vec3 { x: p1.0, y: p1.1, z: p1.2 },
                            mt,
                        );
                        Ok(Hitable::BoxObj(b))
                    },
                    Err(e) => Err(e),
                }
            },
            Object::BvhNode { objects } => {
                let mut children: Vec<Hitable> = Vec::new();
                let mut i: usize = 0;
                while i < objects.len()
                    invariant
                        *self == (Object::BvhNode { objects: *objects }),
                        i <= objects@.len(),
                        children@.len() == i,
                        objects_ok(objects@, i as int, images.entries@),
                        forall|k: int|
                            0 <= k < i ==> built_object(
                                #[trigger] children@[k],
                                objects@[k],
                                images.entries@,
                            ),
                        forall|k: int|
                            0 <= k < i ==> crate::bvh::boxed_h(
                                #[trigger] children@[k],
                                0,
                                SCALE as int,
                            ),
                    decreases objects@.len() - i,
                {
                    proof {
                        assert((*self)->BvhNode_objects == *objects);
                        assert(decreases_to!(*self => (*self)->BvhNode_objects));
                        assert(decreases_to!((**objects) => (**objects)@));
                        assert(decreases_to!((**objects)@ => (**objects)@[i as int]));
                        assert(decreases_to!(*self, 0nat => objects@[i as int], 0nat));
                    }
                    match objects[i].parse(images) {
                        Ok(h) => {
                            children.push(h);
                        },
                        Err(e) => {
                            proof {
                                lemma_objects_ok_prefix_fails(
                                    objects@,
                                    objects@.len() as int,
                                    i as int,
                                    images.entries@,
                                );
                            }
                            return Err(e);
                        },
                    }
                    i = i + 1;
                }
                if children.len() == 0 {
                    return Err(
                        SceneError::InvalidScene(
                            String::from_str("empty list for the acceleration structure"),
                        ),
                    );
                }
                let ghost built_children = children@;
                let node = BvhNode::new(&mut children, Fx::zero(), Fx { raw: SCALE });
                proof {
                    assert(crate::bvh::bvh_elems(node).to_multiset() == crate::bvh::elems_seq(
                        built_children,
                    ).to_multiset());
                }
                Ok(Hitable::Bvh(node))
            },
        }
    }
}

/// The four descriptors of the small test scene.
pub open spec fn test_map_objects() -> Seq<Object> {
    seq![
        Object::Sphere { position: (Fx { raw: 0 }, Fx { raw: -65536000i64 }, Fx { raw: 0 }), radius: Fx { raw: 65536000 }, material: Material::Lambertian { texture: Texture::NoiseTexture { scale: Fx { raw: 65536 } } } },
        Object::Sphere { position: (Fx { raw: 0 }, Fx { raw: -131072i64 }, Fx { raw: 0 }), radius: Fx { raw: 131072 }, material: Material::Lambertian { texture: Texture::NoiseTexture { scale: Fx { raw: 65536 } } } },
        Object::Sphere { position: (Fx { raw: 0 }, Fx { raw: 458752 }, Fx { raw: 0 }), radius: Fx { raw: 131072 }, material: Material::DiffuseLight { texture: Texture::SolidTexture(1020, 1020, 1020) } },
        Object::RectSliceXy { params: (Fx { raw: 0 }, Fx { raw: 196608 }, Fx { raw: 0 }, Fx { raw: 196608 }, Fx { raw: -131072i64 }), material: Material::DiffuseLight { texture: Texture::SolidTexture(1020, 1020, 1020) } },
    ]
}

/// The eight descriptors of the enclosure scene.
pub open spec fn cornell_box_objects() -> Seq<Object> {
    seq![
        Object::FlipNormals(Box::new(Object::RectSliceYz { params: (Fx { raw: 0 }, Fx { raw: 36372480 }, Fx { raw: 0 }, Fx { raw: 36372480 }, Fx { raw: 36372480 }), material: Material::Lambertian { texture: Texture::SolidTexture(0, 255, 0) } })),
        Object::RectSliceYz { params: (Fx { raw: 0 }, Fx { raw: 36372480 }, Fx { raw: 0 }, Fx { raw: 36372480 }, Fx { raw: 0 }), material: Material::Lambertian { texture: Texture::SolidTexture(255, 0, 0) } },
        Object::RectSliceXz { params: (Fx { raw: 13959168 }, Fx { raw: 22478848 }, Fx { raw: 14876672 }, Fx { raw: 21757952 }, Fx { raw: 36306944 }), material: Material::DiffuseLight { texture: Texture::SolidTexture(3825, 3825, 3825) } },
        Object::FlipNormals(Box::new(Object::RectSliceXz { params: (Fx { raw: 0 }, Fx { raw: 36372480 }, Fx { raw: 0 }, Fx { raw: 36372480 }, Fx { raw: 36372480 }), material: Material::Lambertian { texture: Texture::SolidTexture(255, 255, 255) } })),
        Object::RectSliceXz { params: (Fx { raw: 0 }, Fx { raw: 36372480 }, Fx { raw: 0 }, Fx { raw: 36372480 }, Fx { raw: 0 }), material: Material::Lambertian { texture: Texture::SolidTexture(255, 255, 255) } },
        Object::FlipNormals(Box::new(Object::RectSliceXy { params: (Fx { raw: 0 }, Fx { raw: 36372480 }, Fx { raw: 0 }, Fx { raw: 36372480 }, Fx { raw: 36372480 }), material: Material::Lambertian { texture: Texture::SolidTexture(255, 255, 255) } })),
        Object::BoxObject { p0: (Fx { raw: 8519680 }, Fx { raw: 0 }, Fx { raw: 4259840 }), p1: (Fx { raw: 19333120 }, Fx { raw: 10813440 }, Fx { raw: 15073280 }), material: Material::Lambertian { texture: Texture::SolidTexture(255, 255, 255) } },
        Object::BoxObject { p0: (Fx { raw: 16777216 }, Fx { raw: 0 }, Fx { raw: 19333120 }), p1: (Fx { raw: 28180480 }, Fx { raw: 21626880 }, Fx { raw: 30146560 }), material: Material::Lambertian { texture: Texture::SolidTexture(255, 255, 255) } },
    ]
}

impl MapFile {
    /// A small test scene: a noise-textured ground and sphere under two
    /// lights.
    pub fn test_map() -> (m: MapFile)
        ensures
            m.lookfrom == (Fx { raw: 2621440 }, Fx { raw: 458752 }, Fx { raw: 0 }),
            m.lookat == (Fx { raw: 0 }, Fx { raw: 0 }, Fx { raw: 0 }),
            m.dist_to_focus.raw == 655360,
            m.aperture.raw == 0,
            m.objects@ =~= test_map_objects(),
    {
        let mut objects: Vec<Object> = Vec::new();
        objects.push(
            Object::Sphere {
                position: (Fx::from_int(0), Fx::from_int(-1000), Fx::from_int(0)),
                radius: Fx::from_int(1000),
                material: Material::Lambertian {
                    texture: Texture::NoiseTexture { scale: Fx { raw: SCALE } },
                },
            },
        );
        objects.push(
            Object::Sphere {
                position: (Fx::from_int(0), Fx::from_int(-2), Fx::from_int(0)),
                radius: Fx::from_int(2),
                material: Material::Lambertian {
                    texture: Texture::NoiseTexture { scale: Fx { raw: SCALE } },
                },
            },
        );
        objects.push(
            Object::Sphere {
                position: (Fx::from_int(0), Fx::from_int(7), Fx::from_int(0)),
                radius: Fx::from_int(2),
                material: Material::DiffuseLight {
                    texture: Texture::SolidTexture(1020, 1020, 1020),
                },
            },
        );
        objects.push(
            Object::RectSliceXy {
                params: (
                    Fx::from_int(0),
                    Fx::from_int(3),
                    Fx::from_int(0),
                    Fx::from_int(3),
                    Fx::from_int(-2),
                ),
                material: Material::DiffuseLight {
                    texture: Texture::SolidTexture(1020, 1020, 1020),
                },
            },
        );
        MapFile {
            lookfrom: (Fx::from_int(40), Fx::from_int(7), Fx::from_int(0)),
            lookat: (Fx::from_int(0), Fx::from_int(0), Fx::from_int(0)),
            dist_to_focus: Fx::from_int(10),
            aperture: Fx::from_int(0),
            objects,
        }
    }

    /// The classic enclosure: five walls, a panel light, and two boxes.
    pub fn cornell_box() -> (m: MapFile)
        ensures
            m.lookfrom == (Fx { raw: 18219008 }, Fx { raw: 18219008 }, Fx { raw: (-52428800) as i64 }),
            m.lookat == (Fx { raw: 18219008 }, Fx { raw: 18219008 }, Fx { raw: 0 }),
            m.dist_to_focus.raw == 655360,
            m.aperture.raw == 0,
            m.objects@ =~= cornell_box_objects(),
    {
        let mut objects: Vec<Object> = Vec::new();
        objects.push(
            Object::FlipNormals(
                Box::new(
                    Object::RectSliceYz {
                        params: (
                            Fx::from_int(0),
                            Fx::from_int(555),
                            Fx::from_int(0),
                            Fx::from_int(555),
                            Fx::from_int(555),
                        ),
                        material: Material::Lambertian {
                            texture: Texture::SolidTexture(0, 255, 0),
                        },
                    },
                ),
            ),
        );
        objects.push(
            Object::RectSliceYz {
                params: (
                    Fx::from_int(0),
                    Fx::from_int(555),
                    Fx::from_int(0),
                    Fx::from_int(555),
                    Fx::from_int(0),
                ),
                material: Material::Lambertian { texture: Texture::SolidTexture(255, 0, 0) },
            },
        );
        objects.push(
            Object::RectSliceXz {
                params: (
                    Fx::from_int(213),
                    Fx::from_int(343),
                    Fx::from_int(227),
                    Fx::from_int(332),
                    Fx::from_int(554),
                ),
                material: Material::DiffuseLight {
                    texture: Texture::SolidTexture(3825, 3825, 3825),
                },
            },
        );
        objects.push(
            Object::FlipNormals(
                Box::new(
                    Object::RectSliceXz {
                        params: (
                            Fx::from_int(0),
                            Fx::from_int(555),
                            Fx::from_int(0),
                            Fx::from_int(555),
                            Fx::from_int(555),
                        ),
                        material: Material::Lambertian {
                            texture: Texture::SolidTexture(255, 255, 255),
                        },
                    },
                ),
            ),
        );
        objects.push(
            Object::RectSliceXz {
                params: (
                    Fx::from_int(0),
                    Fx::from_int(555),
                    Fx::from_int(0),
                    Fx::from_int(555),
                    Fx::from_int(0),
                ),
                material: Material::Lambertian {
                    texture: Texture::SolidTexture(255, 255, 255),
                },
            },
        );
        objects.push(
            Object::FlipNormals(
                Box::new(
                    Object::RectSliceXy {
                        params: (
                            Fx::from_int(0),
                            Fx::from_int(555),
                            Fx::from_int(0),
                            Fx::from_int(555),
                            Fx::from_int(555),
                        ),
                        material: Material::Lambertian {
                            texture: Texture::SolidTexture(255, 255, 255),
                        },
                    },
                ),
            ),
        );
        objects.push(
            Object::BoxObject {
                p0: (Fx::from_int(130), Fx::from_int(0), Fx::from_int(65)),
                p1: (Fx::from_int(295), Fx::from_int(165), Fx::from_int(230)),
                material: Material::Lambertian {
                    texture: Texture::SolidTexture(255, 255, 255),
                },
            },
        );
        objects.push(
            Object::BoxObject {
                p0: (Fx::from_int(256), Fx::from_int(0), Fx::from_int(295)),
                p1: (Fx::from_int(430), Fx::from_int(330), Fx::from_int(460)),
                material: Material::Lambertian {
                    texture: Texture::SolidTexture(255, 255, 255),
                },
            },
        );
        MapFile {
            lookfrom: (Fx::from_int(278), Fx::from_int(278), Fx::from_int(-800)),
            lookat: (Fx::from_int(278), Fx::from_int(278), Fx::from_int(0)),
            dist_to_focus: Fx::from_int(10),
            aperture: Fx::from_int(0),
            objects,
        }
    }

}

/// One cell of the terrain grid: a 100-wide box of the ground color whose
/// random top stays within `100 * [0.01, 1.01)`.
pub open spec fn ground_grid_box(o: Object) -> bool {
    &&& o matches Object::BoxObject { p0, p1, material }
    &&& material == (Material::Lambertian { texture: Texture::SolidTexture(122, 212, 135) })
    &&& p0.1.raw == 0
    &&& p1.0.raw == p0.0.raw + 6553600
    &&& p1.2.raw == p0.2.raw + 6553600
    &&& 65500 <= p1.1.raw <= 6619000
    &&& -91750400 <= p0.0.raw <= 32768000
    &&& -26214400 <= p0.2.raw <= 98304000
}

/// A small randomized sphere of the scattered field: radius one fifth, a
/// center on the unit-height plane inside the grid, kept clear of the
/// image sphere's site.
pub open spec fn small_scatter_object(o: Object) -> bool {
    let clear = (262144int, 13107int, 0int);
    &&& (o matches Object::Sphere { radius, .. } && radius.raw == 13107) || (o matches Object::MovingSphere { radius, shift, .. }
        && radius.raw == 13107 && shift == (Fx { raw: 0 }, Fx { raw: 0 }, Fx { raw: 0 }))
    &&& (match o {
        Object::Sphere { position, .. } => position.1.raw == 13107 && -524288
            <= position.0.raw <= 524288 && -524288 <= position.2.raw <= 524288
            && crate::vec3::v3len(
            crate::vec3::v3sub(
                (position.0.raw as int, position.1.raw as int, position.2.raw as int),
                clear,
            ),
        ) > 58982,
        Object::MovingSphere { position, .. } => position.1.raw == 13107 && -524288
            <= position.0.raw <= 524288 && -524288 <= position.2.raw <= 524288
            && crate::vec3::v3len(
            crate::vec3::v3sub(
                (position.0.raw as int, position.1.raw as int, position.2.raw as int),
                clear,
            ),
        ) > 58982,
        _ => false,
    })
}

/// The random placement jitter `0.9 * u` for `u` drawn from `[0, 1)`
/// stays inside `[0, 0.9)`.
proof fn lemma_scatter_jitter_bounds(r: int)
    requires
        0 <= r < 65536,
    ensures
        0 <= crate::fx::fx_mul(58982, r) <= 58981,
{
    assert(0 <= 58982 * r <= 58982 * 65535) by (nonlinear_arith)
        requires
            0 <= r < 65536,
    ;
    vstd::arithmetic::div_mod::lemma_div_pos_is_pos(58982 * r, 65536);
    vstd::arithmetic::div_mod::lemma_div_is_ordered(58982 * r, 58982int * 65535, 65536);
}

impl MapFile {
    /// A terrain of randomized boxes under a panel light, with one sphere
    /// of each material kind.
    pub fn map2() -> (m: MapFile)
        ensures
            m.lookfrom == (Fx { raw: 31326208 }, Fx { raw: 18219008 }, Fx { raw: (-39321600) as i64 }),
            m.lookat == (Fx { raw: 18219008 }, Fx { raw: 18219008 }, Fx { raw: 0 }),
            m.dist_to_focus.raw == 655360,
            m.aperture.raw == 0,
            m.objects@.len() == 7,
            m.objects@[0] matches Object::BvhNode { objects: gb } && gb@.len() == 401 && gb@[400]
                == (Object::BoxObject { p0: (Fx { raw: 10813440 }, Fx { raw: 0 }, Fx { raw: -1310720i64 }), p1: (Fx { raw: 19660800 }, Fx { raw: 6881280 }, Fx { raw: 9830400 }), material: Material::Lambertian { texture: Texture::SolidTexture(122, 212, 135) } }) && (forall|k: int|
                0 <= k < 400 ==> ground_grid_box(#[trigger] gb@[k])),
            m.objects@[1] == (Object::RectSliceXz { params: (Fx { raw: 8060928 }, Fx { raw: 27721728 }, Fx { raw: 9633792 }, Fx { raw: 27000832 }, Fx { raw: 36306944 }), material: Material::DiffuseLight { texture: Texture::SolidTexture(1785, 1785, 1785) } }),
            m.objects@[2] == (Object::MovingSphere { position: (Fx { raw: 26214400 }, Fx { raw: 26214400 }, Fx { raw: 26214400 }), shift: (Fx { raw: 1966080 }, Fx { raw: 0 }, Fx { raw: 0 }), radius: Fx { raw: 3276800 }, material: Material::Lambertian { texture: Texture::SolidTexture(178, 76, 25) } }),
            m.objects@[3] == (Object::Sphere { position: (Fx { raw: 16384000 }, Fx { raw: 9830400 }, Fx { raw: 2949120 }), radius: Fx { raw: 3276800 }, material: Material::Dielectric(Fx { raw: 98304 }) }),
            m.objects@[4] == (Object::Sphere { position: (Fx { raw: 0 }, Fx { raw: 9830400 }, Fx { raw: 9502720 }), radius: Fx { raw: 3276800 }, material: Material::Metal { texture: Texture::SolidTexture(204, 204, 230), fuzz: Fx { raw: 655360 } } }),
            m.objects@[5] matches Object::Sphere { position, radius, material } && position == (
                Fx { raw: 26214400 },
                Fx { raw: 13762560 },
                Fx { raw: 26214400 },
            ) && radius.raw == 6553600 && (material matches Material::Lambertian { texture }
                && (texture matches Texture::ImageTexture { path } && path@
                == "./textures/earthmap.jpg"@)),
            m.objects@[6] == (Object::Sphere { position: (Fx { raw: 14417920 }, Fx { raw: 18350080 }, Fx { raw: 19660800 }), radius: Fx { raw: 5242880 }, material: Material::Lambertian { texture: Texture::NoiseTexture { scale: Fx { raw: 65536 } } } }),
    {
        let mut ground_box: Vec<Object> = Vec::new();
        let mut objects: Vec<Object> = Vec::new();
        let mut i: i64 = 0;
        while i < 20
            invariant
                0 <= i <= 20,
                ground_box@.len() == 20 * i,
                forall|k: int| 0 <= k < ground_box@.len() ==> ground_grid_box(#[trigger] ground_box@[k]),
            decreases 20 - i,
        {
            let mut j: i64 = 0;
            while j < 20
                invariant
                    0 <= j <= 20,
                    0 <= i < 20,
                    ground_box@.len() == 20 * i + j,
                    forall|k: int|
                        0 <= k < ground_box@.len() ==> ground_grid_box(
                            #[trigger] ground_box@[k],
                        ),
                decreases 20 - j,
            {
                let w = Fx::from_int(100);
                let x0 = Fx::from_int(500).sub(Fx::from_int(i).mul(w));
                let z0 = Fx::from_int(1500).sub(Fx::from_int(j).mul(w));
                let y0 = Fx::from_int(0);
                let x1 = x0.add(w);
                let jitter = random_unit().add(Fx { raw: 655 });
                let y1 = Fx::from_int(100).mul(jitter);
                let z1 = z0.add(w);
                proof {
                    assert(6553600 * (jitter.raw as int) == 65536 * (100 * (jitter.raw as int)))
                        by (nonlinear_arith);
                    vstd::arithmetic::div_mod::lemma_div_multiples_vanish(
                        100 * (jitter.raw as int),
                        65536,
                    );
                    assert(y1.raw as int == 100 * (jitter.raw as int));
                }
                let cell = Object::BoxObject {
                    p0: (x0, y0, z0),
                    p1: (x1, y1, z1),
                    material: Material::Lambertian {
                        texture: Texture::SolidTexture(122, 212, 135),
                    },
                };
                proof {
                    assert(ground_grid_box(cell));
                }
                ground_box.push(cell);
                j = j + 1;
            }
            i = i + 1;
        }
        ground_box.push(
            Object::BoxObject {
                p0: (Fx::from_int(165), Fx::from_int(0), Fx::from_int(-20)),
                p1: (Fx::from_int(300), Fx::from_int(105), Fx::from_int(150)),
                material: Material::Lambertian {
                    texture: Texture::SolidTexture(122, 212, 135),
                },
            },
        );
        objects.push(Object::BvhNode { objects: Box::new(ground_box) });
        objects.push(
            Object::RectSliceXz {
                params: (
                    Fx::from_int(123),
                    Fx::from_int(423),
                    Fx::from_int(147),
                    Fx::from_int(412),
                    Fx::from_int(554),
                ),
                material: Material::DiffuseLight {
                    texture: Texture::SolidTexture(1785, 1785, 1785),
                },
            },
        );
        objects.push(
            Object::MovingSphere {
                position: (Fx::from_int(400), Fx::from_int(400), Fx::from_int(400)),
                shift: (Fx::from_int(30), Fx::from_int(0), Fx::from_int(0)),
                radius: Fx::from_int(50),
                material: Material::Lambertian {
                    texture: Texture::SolidTexture(178, 76, 25),
                },
            },
        );
        objects.push(
            Object::Sphere {
                position: (Fx::from_int(250), Fx::from_int(150), Fx::from_int(45)),
                radius: Fx::from_int(50),
                material: Material::Dielectric(Fx { raw: 98304 }),
            },
        );
        objects.push(
            Object::Sphere {
                position: (Fx::from_int(0), Fx::from_int(150), Fx::from_int(145)),
                radius: Fx::from_int(50),
                material: Material::Metal {
                    texture: Texture::SolidTexture(204, 204, 230),
                    fuzz: Fx::from_int(10),
                },
            },
        );
        objects.push(
            Object::Sphere {
                position: (Fx::from_int(400), Fx::from_int(210), Fx::from_int(400)),
                radius: Fx::from_int(100),
                material: Material::Lambertian {
                    texture: Texture::ImageTexture {
                        path: String::from_str("./textures/earthmap.jpg"),
                    },
                },
            },
        );
        objects.push(
            Object::Sphere {
                position: (Fx::from_int(220), Fx::from_int(280), Fx::from_int(300)),
                radius: Fx::from_int(80),
                material: Material::Lambertian {
                    texture: Texture::NoiseTexture { scale: Fx { raw: SCALE } },
                },
            },
        );
        MapFile {
            lookat: (Fx::from_int(278), Fx::from_int(278), Fx::from_int(0)),
            lookfrom: (Fx::from_int(478), Fx::from_int(278), Fx::from_int(-600)),
            dist_to_focus: Fx::from_int(10),
            aperture: Fx::from_int(0),
            objects,
        }
    }

    /// A randomized field of small spheres around a few fixed large ones.
    pub fn generate_random() -> (m: MapFile)
        ensures
            m.lookfrom == (Fx { raw: 917504 }, Fx { raw: 262144 }, Fx { raw: 458752 }),
            m.lookat == (Fx { raw: 0 }, Fx { raw: 0 }, Fx { raw: 0 }),
            m.dist_to_focus.raw == 655360,
            m.aperture.raw == 0,
            5 <= m.objects@.len() <= 261,
            forall|k: int|
                0 <= k < m.objects@.len() - 5 ==> small_scatter_object(#[trigger] m.objects@[k]),
            m.objects@[m.objects@.len() - 5] == (Object::Sphere { position: (Fx { raw: 0 }, Fx { raw: -65536000i64 }, Fx { raw: 0 }), radius: Fx { raw: 65536000 }, material: Material::Lambertian { texture: Texture::CheckerTexture { odd: Box::new(Texture::SolidTexture(235, 47, 6)), even: Box::new(Texture::SolidTexture(12, 36, 97)) } } }),
            m.objects@[m.objects@.len() - 4] == (Object::Sphere { position: (Fx { raw: -524288i64 }, Fx { raw: 65536 }, Fx { raw: 0 }), radius: Fx { raw: 65536 }, material: Material::Lambertian { texture: Texture::NoiseTexture { scale: Fx { raw: 65536 } } } }),
            m.objects@[m.objects@.len() - 3] == (Object::Sphere { position: (Fx { raw: -262144i64 }, Fx { raw: 65536 }, Fx { raw: 0 }), radius: Fx { raw: 65536 }, material: Material::Lambertian { texture: Texture::SolidTexture(102, 51, 25) } }),
            m.objects@[m.objects@.len() - 2] == (Object::Sphere { position: (Fx { raw: 0 }, Fx { raw: 65536 }, Fx { raw: 0 }), radius: Fx { raw: 65536 }, material: Material::Dielectric(Fx { raw: 98304 }) }),
            m.objects@[m.objects@.len() - 1] matches Object::Sphere { position, radius, material }
                && position == (Fx { raw: 262144 }, Fx { raw: 65536 }, Fx { raw: 0 }) && radius.raw
                == 65536 && (material matches Material::Lambertian { texture } && (texture matches Texture::ImageTexture {
                path,
            } && path@ == "./textures/earthmap.jpg"@)),
    {
        let mut objects: Vec<Object> = Vec::new();
        let mut a: i64 = -8;
        while a < 8
            invariant
                -8 <= a <= 8,
                objects@.len() <= 16 * (a + 8),
                forall|k: int|
                    0 <= k < objects@.len() ==> small_scatter_object(#[trigger] objects@[k]),
            decreases 8 - a,
        {
            let mut b: i64 = -8;
            while b < 8
                invariant
                    -8 <= b <= 8,
                    -8 <= a < 8,
                    objects@.len() <= 16 * (a + 8) + (b + 8),
                    forall|k: int|
                        0 <= k < objects@.len() ==> small_scatter_object(#[trigger] objects@[k]),
                decreases 8 - b,
            {
                let pick = random_unit();
                let ux = random_unit();
                let uz = random_unit();
                let rx = Fx { raw: 58982 }.mul(ux);
                let rz = Fx { raw: 58982 }.mul(uz);
                proof {
                    lemma_scatter_jitter_bounds(ux.raw as int);
                    lemma_scatter_jitter_bounds(uz.raw as int);
                }
                let center = (
                    Fx::from_int(a).add(rx),
                    Fx { raw: 13107 },
                    Fx::from_int(b).add(rz),
                );
                let offset = Vec3 { x: center.0, y: center.1, z: center.2 }.sub(
                    Vec3 { x: Fx::from_int(4), y: Fx { raw: 13107 }, z: Fx::from_int(0) },
                );
                if offset.len().raw > 58982 {
                    if pick.raw < 13107 {
                        objects.push(
                            Object::Sphere {
                                position: center,
                                radius: Fx { raw: 13107 },
                                material: Material::Lambertian {
                                    texture: Texture::NoiseTexture { scale: Fx { raw: SCALE } },
                                },
                            },
                        );
                    } else if pick.raw < 26214 {
                        objects.push(
                            Object::MovingSphere {
                                position: center,
                                shift: (Fx::from_int(0), Fx::from_int(0), Fx::from_int(0)),
                                radius: Fx { raw: 13107 },
                                material: Material::Lambertian {
                                    texture: Texture::SolidTexture(
                                        (random_below(256)) as u16,
                                        (random_below(256)) as u16,
                                        (random_below(256)) as u16,
                                    ),
                                },
                            },
                        );
                    } else if pick.raw < 45875 {
                        objects.push(
                            Object::Sphere {
                                position: center,
                                radius: Fx { raw: 13107 },
                                material: Material::Metal {
                                    texture: Texture::SolidTexture(
                                        (random_below(256)) as u16,
                                        (random_below(256)) as u16,
                                        (random_below(256)) as u16,
                                    ),
                                    fuzz: Fx { raw: 19660 },
                                },
                            },
                        );
                    } else {
                        objects.push(
                            Object::Sphere {
                                position: center,
                                radius: Fx { raw: 13107 },
                                material: Material::Dielectric(Fx { raw: 98304 }),
                            },
                        );
                    }
                }
                b = b + 1;
            }
            a = a + 1;
        }
        objects.push(
            Object::Sphere {
                position: (Fx::from_int(0), Fx::from_int(-1000), Fx::from_int(0)),
                radius: Fx::from_int(1000),
                material: Material::Lambertian {
                    texture: Texture::CheckerTexture {
                        odd: Box::new(Texture::SolidTexture(235, 47, 6)),
                        even: Box::new(Texture::SolidTexture(12, 36, 97)),
                    },
                },
            },
        );
        objects.push(
            Object::Sphere {
                position: (Fx::from_int(-8), Fx::from_int(1), Fx::from_int(0)),
                radius: Fx::from_int(1),
                material: Material::Lambertian {
                    texture: Texture::NoiseTexture { scale: Fx { raw: SCALE } },
                },
            },
        );
        objects.push(
            Object::Sphere {
                position: (Fx::from_int(-4), Fx::from_int(1), Fx::from_int(0)),
                radius: Fx::from_int(1),
                material: Material::Lambertian {
                    texture: Texture::SolidTexture(102, 51, 25),
                },
            },
        );
        objects.push(
            Object::Sphere {
                position: (Fx::from_int(0), Fx::from_int(1), Fx::from_int(0)),
                radius: Fx::from_int(1),
                material: Material::Dielectric(Fx { raw: 98304 }),
            },
        );
        objects.push(
            Object::Sphere {
                position: (Fx::from_int(4), Fx::from_int(1), Fx::from_int(0)),
                radius: Fx::from_int(1),
                material: Material::Lambertian {
                    texture: Texture::ImageTexture {
                        path: String::from_str("./textures/earthmap.jpg"),
                    },
                },
            },
        );
        MapFile {
            lookfrom: (Fx::from_int(14), Fx::from_int(4), Fx::from_int(7)),
            lookat: (Fx::from_int(0), Fx::from_int(0), Fx::from_int(0)),
            dist_to_focus: Fx::from_int(10),
            aperture: Fx::from_int(0),
            objects,
        }
    }
}

} // verus!
