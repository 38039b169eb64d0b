use raytracer::fx::{Fx, SCALE};
use raytracer::map::{
    ImageEntry, ImageLibrary, MapFile, Material, Object, SceneError, Texture,
};
use raytracer::render::{average_images, render, to_pixel};
use raytracer::texture::{ImageTexture, SolidTexture, Texture as LiveTexture};
use raytracer::vec3::Vec3;

fn fxi(v: i64) -> Fx {
    Fx::from_int(v)
}

fn vec(x: i64, y: i64, z: i64) -> Vec3 {
    Vec3 { x: fxi(x), y: fxi(y), z: fxi(z) }
}

#[test]
fn solid_texture_returns_its_color() {
    let t = SolidTexture::new(vec(1, 0, 0));
    let c = t.value(fxi(0), fxi(0), vec(7, 8, 9));
    assert_eq!((c.x.raw, c.y.raw, c.z.raw), (SCALE, 0, 0));
}

#[test]
fn checker_at_origin_picks_even() {
    let t = raytracer::texture::CheckerTexture::new(
        SolidTexture::new(vec(1, 0, 0)),
        SolidTexture::new(vec(0, 0, 1)),
    );
    // all three sines vanish at the origin; the product is not negative
    let c = t.value(fxi(0), fxi(0), vec(0, 0, 0));
    assert_eq!((c.x.raw, c.y.raw, c.z.raw), (0, 0, SCALE));
}

#[test]
fn noise_texture_is_a_grey_level() {
    let t = raytracer::texture::NoiseTexture::new(fxi(1));
    let c = t.value(fxi(0), fxi(0), vec(3, 1, 2));
    assert_eq!(c.x.raw, c.y.raw);
    assert_eq!(c.y.raw, c.z.raw);
    assert!(0 <= c.x.raw && c.x.raw <= SCALE + 16);
}

#[test]
fn image_texture_nearest_sample() {
    // a 2x1 image: left pixel pure red, right pixel pure blue
    let t = ImageTexture::new(2, 1, vec![255, 0, 0, 0, 0, 255]);
    let left = t.value(fxi(0), fxi(0), vec(0, 0, 0));
    assert_eq!((left.x.raw, left.y.raw, left.z.raw), (SCALE, 0, 0));
    let right = t.value(Fx { raw: SCALE - 1 }, fxi(0), vec(0, 0, 0));
    assert_eq!((right.x.raw, right.y.raw, right.z.raw), (0, 0, SCALE));
}

#[test]
fn build_world_from_descriptors() {
    let map = MapFile::test_map();
    let lib = ImageLibrary::new();
    let world = map.build_world(&lib).expect("test scene builds");
    assert_eq!(world.list.len(), 4);
}

#[test]
fn cornell_box_builds() {
    let map = MapFile::cornell_box();
    let lib = ImageLibrary::new();
    let world = map.build_world(&lib).expect("cornell scene builds");
    assert_eq!(world.list.len(), 8);
}

#[test]
fn missing_image_texture_is_a_build_error() {
    let desc = Object::Sphere {
        position: (fxi(0), fxi(0), fxi(0)),
        radius: fxi(1),
        material: Material::Lambertian {
            texture: Texture::ImageTexture { path: "nowhere.png".to_string() },
        },
    };
    let lib = ImageLibrary::new();
    let err = desc.parse(&lib);
    assert!(matches!(err, Err(SceneError::InvalidScene(_))));
}

#[test]
fn present_image_texture_builds() {
    let desc = Object::Sphere {
        position: (fxi(0), fxi(0), fxi(0)),
        radius: fxi(1),
        material: Material::Lambertian {
            texture: Texture::ImageTexture { path: "earth.png".to_string() },
        },
    };
    let mut lib = ImageLibrary::new();
    lib.put(ImageEntry { path: "earth.png".to_string(), nx: 1, ny: 1, pixels: vec![1, 2, 3] });
    let built = desc.parse(&lib).expect("library has the image");
    match built {
        raytracer::hitable::Hitable::Sphere(s) => {
            match &*s.material {
                raytracer::material::Material::Lambertian(l) => match &l.albedo {
                    LiveTexture::Image(img) => {
                        assert_eq!((img.nx, img.ny), (1, 1));
                        assert_eq!(img.pixels, vec![1, 2, 3]);
                    },
                    _ => panic!("expected an image texture"),
                },
                _ => panic!("expected a diffuse material"),
            }
        },
        _ => panic!("expected a sphere"),
    }
}

#[test]
fn empty_acceleration_list_is_a_build_error() {
    let desc = Object::BvhNode { objects: Box::new(std::vec::Vec::new()) };
    let lib = ImageLibrary::new();
    assert!(matches!(desc.parse(&lib), Err(SceneError::InvalidScene(_))));
}

#[test]
fn map2_and_random_scenes_build() {
    let mut lib = ImageLibrary::new();
    lib.put(
        ImageEntry {
            path: "./textures/earthmap.jpg".to_string(),
            nx: 2,
            ny: 2,
            pixels: vec![0; 12],
        },
    );
    assert!(MapFile::map2().build_world(&lib).is_ok());
    assert!(MapFile::generate_random().build_world(&lib).is_ok());
}

#[test]
fn gamma_encoding_known_values() {
    // full white clamps and encodes to 255, black to 0, quarter grey to 127
    assert_eq!(to_pixel(vec(1, 1, 1)), (255, 255, 255));
    assert_eq!(to_pixel(vec(5, 5, 5)), (255, 255, 255));
    assert_eq!(to_pixel(vec(0, 0, 0)), (0, 0, 0));
    assert_eq!(to_pixel(Vec3 { x: Fx { raw: SCALE / 4 }, y: fxi(0), z: fxi(0) }).0, 127);
    // a negative channel (no such light) reads as black
    assert_eq!(to_pixel(vec(-1, 0, 0)).0, 0);
}

#[test]
fn averaging_two_black_images_stays_black() {
    let black: Vec<Vec<(u8, u8, u8)>> = vec![vec![(0, 0, 0); 4]; 3];
    let folded = average_images(&black, &black);
    assert_eq!(folded.len(), 3);
    for row in folded.iter() {
        assert_eq!(row.len(), 4);
        for px in row.iter() {
            assert_eq!(*px, (0, 0, 0));
        }
    }
}

#[test]
fn averaging_white_and_black_gives_mid_gray() {
    let black: Vec<Vec<(u8, u8, u8)>> = vec![vec![(0, 0, 0); 2]; 2];
    let white: Vec<Vec<(u8, u8, u8)>> = vec![vec![(255, 255, 255); 2]; 2];
    let folded = average_images(&white, &black);
    for row in folded.iter() {
        for px in row.iter() {
            assert_eq!(*px, (127, 127, 127));
        }
    }
}

#[test]
fn render_produces_the_requested_raster() {
    let map = MapFile::test_map();
    let lib = ImageLibrary::new();
    let world = map.build_world(&lib).expect("scene builds");
    let cam = raytracer::camera::Camera::new(
        vec(40, 7, 0),
        vec(0, 0, 0),
        vec(0, 1, 0),
        fxi(40),
        fxi(1),
        fxi(0),
        fxi(10),
        fxi(0),
        fxi(1),
        false,
    );
    let img = render(&cam, &world, 8, 6, 2);
    assert_eq!(img.len(), 6);
    for row in img.iter() {
        assert_eq!(row.len(), 8);
    }
}
