use palette::Srgb;
use raytracer::lights::find_lights;
use raytracer::material::{Glass, Lambertian, Light, Material, Metal};
use raytracer::point::Point3D;
use raytracer::scene::{Camera, Config};
use raytracer::sky::Sky;
use raytracer::sphere::Sphere;
use raytracer::trace::{bounce_depth, in_light_sampling_window, samples_lights};

fn light_at(z: f64) -> Sphere<f64, Srgb> {
    Sphere::new(Point3D::new(0.0, 0.0, z), 0.5, Material::Light(Light::new()))
}

fn grey_at(z: f64) -> Sphere<f64, Srgb> {
    Sphere::new(
        Point3D::new(0.0, 0.0, z),
        0.5,
        Material::Lambertian(Lambertian::new(Srgb::new(0.5 as f32, 0.5 as f32, 0.5 as f32))),
    )
}

#[test]
fn test_find_lights() {
    let world = vec![
        Sphere::new(
            Point3D::new(0.0, 0.0, -1.0),
            0.5,
            Material::Light(Light::new()),
        ),
        Sphere::new(
            Point3D::new(0.0, 0.0, -1.0),
            0.5,
            Material::Lambertian(Lambertian::new(Srgb::new(
                0.5 as f32, 0.5 as f32, 0.5 as f32,
            ))),
        ),
    ];
    assert_eq!(find_lights(&world).len(), 1);
}

#[test]
fn find_lights_keeps_order_and_only_lights() {
    let world = vec![light_at(-1.0), grey_at(-2.0), light_at(-3.0), grey_at(-4.0), light_at(-5.0)];
    let lights = find_lights(&world);
    assert_eq!(lights.len(), 3);
    assert_eq!(lights[0].center.z, -1.0);
    assert_eq!(lights[1].center.z, -3.0);
    assert_eq!(lights[2].center.z, -5.0);
    assert!(lights.iter().all(|s| s.material.is_light()));
}

#[test]
fn find_lights_of_empty_and_dark_worlds() {
    let empty: Vec<Sphere<f64, Srgb>> = Vec::new();
    assert!(find_lights(&empty).is_empty());
    let dark = vec![grey_at(-1.0), grey_at(-2.0)];
    assert!(find_lights(&dark).is_empty());
}

#[test]
fn material_tags() {
    let glass: Material<Srgb, f64> = Material::Glass(Glass::new(1.5));
    let metal: Material<Srgb, f64> = Material::Metal(Metal::new(Srgb::new(0.8, 0.8, 0.8), 0.3));
    let light: Material<Srgb, f64> = Material::Light(Light::new());
    assert!(glass.is_glass());
    assert!(!glass.is_light());
    assert!(light.is_light());
    assert!(!metal.is_light() && !metal.is_glass());
    assert_eq!(glass.light_sampling_percent(), 5);
    assert_eq!(metal.light_sampling_percent(), 10);
    assert_eq!(light.light_sampling_percent(), 10);
}

#[test]
fn spent_budget_has_no_bounce() {
    assert_eq!(bounce_depth(0), None);
    assert_eq!(bounce_depth(1), Some(0));
    assert_eq!(bounce_depth(50), Some(49));
}

#[test]
fn light_sampling_only_in_last_two_bounces() {
    assert!(in_light_sampling_window(10, 10));
    assert!(in_light_sampling_window(9, 10));
    assert!(!in_light_sampling_window(8, 10));
    assert!(in_light_sampling_window(1, 2));
    assert!(in_light_sampling_window(0, 1));
    assert!(in_light_sampling_window(0, 0));
}

#[test]
fn light_sampling_needs_lights_draw_and_window() {
    assert!(samples_lights(2, true, 5, 5));
    assert!(!samples_lights(0, true, 5, 5));
    assert!(!samples_lights(2, false, 5, 5));
    assert!(!samples_lights(2, true, 2, 5));
}

#[test]
fn point_setters_change_one_coordinate() {
    let mut p = Point3D::new(1.0, 2.0, 3.0);
    p.set_y(-4.0);
    assert_eq!((p.x(), p.y(), p.z()), (1.0, -4.0, 3.0));
    p.set_x(7.0);
    p.set_z(8.0);
    assert_eq!(p, Point3D::new(7.0, -4.0, 8.0));
}

fn scene(width: usize, height: usize, samples: u32) -> Config<f64, Srgb> {
    let o = Point3D::new(0.0, 0.0, 0.0);
    Config {
        width,
        height,
        samples_per_pixel: samples,
        max_depth: 2,
        camera: Camera {
            origin: o,
            lower_left_corner: o,
            horizontal: o,
            vertical: o,
            look_at: o,
            view_up: o,
            vertical_fov: 20.0,
            aspect_ratio: 1.333,
        },
        objects: Vec::new(),
        sky: Some(Sky::new_default_sky()),
    }
}

#[test]
fn renderable_scenes() {
    assert!(scene(80, 60, 1).is_renderable());
    assert!(!scene(0, 60, 1).is_renderable());
    assert!(!scene(80, 0, 1).is_renderable());
    assert!(!scene(80, 60, 0).is_renderable());
}
