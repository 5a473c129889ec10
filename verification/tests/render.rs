use glam::Vec3;
use glam::Vec4;
use pathtrace::image::Chunk;
use pathtrace::image::Image;
use pathtrace::image::Pixel;
use pathtrace::integrator::ray_color;
use pathtrace::integrator::PathStep;
use pathtrace::layout::CHUNK_DIM;
use pathtrace::material::Bounce;
use pathtrace::material::Lambert;
use pathtrace::material::Material;
use pathtrace::material::MaterialKind;
use pathtrace::object::Hit;
use pathtrace::object::Intersection;
use pathtrace::object::Sphere;
use pathtrace::ray::Ray;
use pathtrace::sampling::accepts_candidate;
use pathtrace::sampling::chunk_seed;
use pathtrace::sampling::random;
use pathtrace::sampling::random_vector;
use pathtrace::sampling::unit_sample_from;
use pathtrace::sampling::Sampler;
use pathtrace::sampling::is_unit_sample;
use pathtrace::scalar::Scalar;
use pathtrace::vector::Vector;
use pathtrace::world::find_nearest_hit;
use pathtrace::world::World;
use rand::rngs::SmallRng;
use rand::Rng;
use rand::SeedableRng;

const SURVIVAL: f32 = 63.0 / 64.0;

fn scalar(value: f32) -> Scalar {
    Scalar::from_bits(value.to_bits())
}

fn number(scalar: Scalar) -> f32 {
    f32::from_bits(scalar.to_bits())
}

fn vector(value: Vec3) -> Vector {
    Vector::new(scalar(value.x), scalar(value.y), scalar(value.z))
}

fn vec3(vector: Vector) -> Vec3 {
    Vec3::new(number(vector.x), number(vector.y), number(vector.z))
}

fn new_ray(origin: Vec3, direction: Vec3) -> Ray {
    Ray { origin: vector(origin), direction: vector(direction.normalize()) }
}

fn intersect(sphere: &Sphere, ray: &Ray) -> Intersection {
    let center = vec3(sphere.center);
    let radius = number(sphere.radius);
    let direction = vec3(ray.direction);
    let oc = vec3(ray.origin) - center;
    let a = direction.length_squared();
    let b = 2.0 * oc.dot(direction);
    let c = oc.length_squared() - radius * radius;
    let discriminant = b * b - 4.0 * a * c;
    let distance = (-b - discriminant.sqrt()) / 2.0 / a;
    let point = vec3(ray.origin) + distance * direction;
    let normal = (point - center).normalize();
    Intersection {
        discriminant: scalar(discriminant),
        distance: scalar(distance),
        point: vector(point),
        normal: vector(normal),
    }
}

fn background(ray: &Ray) -> Vec4 {
    let t = 0.5 * vec3(ray.direction).normalize().y + 0.5;
    Vec4::new(1.0 - t + 0.5 * t, 1.0 - t + 0.7 * t, 1.0, 1.0)
}

fn random_on_unit_sphere(rng: &mut Sampler) -> Vec3 {
    loop {
        let v = vec3(random_vector(rng)) * 2.0 - 1.0;
        if accepts_candidate(scalar(v.length_squared())) {
            return v.normalize();
        }
    }
}

fn draw_bounce(material: &MaterialKind, hit: &Hit, rng: &mut Sampler) -> Bounce {
    let MaterialKind::Lambert(lambert) = material;
    let sample = random(rng);
    if Lambert::is_survivor(sample) {
        let direction = vec3(hit.normal) + random_on_unit_sphere(rng);
        Bounce {
            sample,
            direction: vector(direction.normalize()),
            attenuation: vector(vec3(lambert.albedo) / SURVIVAL),
        }
    } else {
        Bounce { sample, direction: Vector::zero_value(), attenuation: Vector::zero_value() }
    }
}

fn radiance(first: Ray, world: &World, limit: usize, rng: &mut Sampler) -> Vec4 {
    let mut ray = first;
    let mut attenuations: Vec<Vec3> = Vec::new();
    let last = loop {
        let probes: Vec<Intersection> =
            world.objects.iter().map(|sphere| intersect(sphere, &ray)).collect();
        let seen = match find_nearest_hit(world, &probes) {
            Some(hit) => {
                let material = world.material(hit.material);
                Some((hit, draw_bounce(&material, &hit, rng)))
            }
            None => None,
        };
        match ray_color(ray, world, seen, attenuations.len(), limit) {
            PathStep::Background => break background(&ray),
            PathStep::Black => break Vec4::new(0.0, 0.0, 0.0, 1.0),
            PathStep::Attenuate { attenuation, next_ray } => {
                attenuations.push(vec3(attenuation));
                ray = next_ray;
            }
        }
    };
    attenuations.iter().rev().fold(last, |color, attenuation| color * attenuation.extend(1.0))
}

fn camera_ray(width: usize, height: usize, u: f32, v: f32) -> Ray {
    let viewport_width = 2.0 * width as f32 / height as f32;
    let lower_left = Vec3::new(-viewport_width / 2.0, -1.0, -1.0);
    let direction =
        lower_left + Vec3::new(viewport_width, 0.0, 0.0) * u + Vec3::new(0.0, 2.0, 0.0) * v;
    new_ray(Vec3::ZERO, direction)
}

fn render_chunk(world: &World, image: &Image, index: usize, samples: usize, seed: u64) -> Chunk {
    let width = image.width();
    let height = image.height();
    let mut rng = Sampler::seeded(chunk_seed(seed, index));
    let mut chunk = Chunk::default();
    for local_y in 0..CHUNK_DIM {
        for local_x in 0..CHUNK_DIM {
            if let Some((x, y)) = image.position(index, local_x, local_y) {
                let mut acc = Vec4::ZERO;
                for _ in 0..samples {
                    let u = (x as f32 + number(random(&mut rng))) / width as f32;
                    let v = (y as f32 + number(random(&mut rng))) / height as f32;
                    acc += radiance(camera_ray(width, height, u, v), world, 4096, &mut rng)
                        / samples as f32;
                }
                chunk.set(
                    local_x,
                    local_y,
                    Pixel::new(scalar(acc.x), scalar(acc.y), scalar(acc.z), scalar(acc.w)),
                );
            }
        }
    }
    chunk
}

fn render(world: &World, width: usize, height: usize, samples: usize, seed: u64, backwards: bool) -> Image {
    let mut image = Image::new(width, height);
    let count = image.chunk_count();
    for step in 0..count {
        let index = if backwards { count - 1 - step } else { step };
        let chunk = render_chunk(world, &image, index, samples, seed);
        image.put_chunk(index, chunk);
    }
    image
}

fn two_spheres() -> World {
    let objects = vec![
        Sphere::new(vector(Vec3::new(0.0, 0.0, -1.0)), scalar(0.5), 0),
        Sphere::new(vector(Vec3::new(0.0, -100.5, -1.0)), scalar(100.0), 1),
    ];
    let materials = vec![
        MaterialKind::Lambert(Lambert { albedo: vector(Vec3::new(0.8, 0.2, 0.2)) }),
        MaterialKind::Lambert(Lambert { albedo: vector(Vec3::new(0.2, 0.8, 0.2)) }),
    ];
    World::new(objects, materials).unwrap()
}

fn pixels(image: &Image) -> Vec<Pixel> {
    let mut all = Vec::new();
    for y in 0..image.height() {
        for x in 0..image.width() {
            all.push(image.get(x, y));
        }
    }
    all
}

#[test]
fn two_spheres_render_apart_from_the_sky() {
    let world = two_spheres();
    let image = render(&world, 1024, 512, 16, 7, false);
    assert_eq!(image.width(), 1024);
    assert_eq!(image.height(), 512);
    assert_eq!(image.chunk_count(), 32 * 16);
    let sphere = image.get(512, 256);
    let sky = image.get(512, 500);
    assert_ne!(sphere, sky);
    assert_ne!(sky, Pixel::default());
    assert_ne!(sphere, Pixel::default());
    assert_eq!(number(sphere.a), 1.0);
    assert_eq!(number(sky.a), 1.0);
    // The sky is brightest in blue; the red sphere reflects more red than green.
    assert_eq!(number(sky.b), 1.0);
    assert!(number(sky.r) < 1.0 && number(sky.r) > 0.5);
    assert!(number(sphere.r) > number(sphere.g));
    // Every pixel was written, and the image is not of one colour.
    let all = pixels(&image);
    assert_eq!(all.len(), 1024 * 512);
    assert!(all.iter().all(|pixel| number(pixel.a) == 1.0));
    assert!(all.iter().any(|pixel| *pixel != all[0]));
    // The exporter's first row is the image's last.
    assert_eq!(image.export_pixel(512, 11), sky);
}

#[test]
fn every_pixel_of_a_render_is_written() {
    let world = two_spheres();
    let image = render(&world, 40, 33, 2, 7, false);
    for pixel in pixels(&image) {
        assert_eq!(number(pixel.a), 1.0);
    }
}

#[test]
fn the_same_seed_renders_the_same_image() {
    let world = two_spheres();
    let first = render(&world, 64, 40, 4, 7, false);
    let second = render(&world, 64, 40, 4, 7, false);
    assert_eq!(pixels(&first), pixels(&second));
    let other = render(&world, 64, 40, 4, 8, false);
    assert_ne!(pixels(&first), pixels(&other));
}

#[test]
fn the_order_of_the_chunks_does_not_matter() {
    let world = two_spheres();
    let forwards = render(&world, 70, 40, 4, 7, false);
    let backwards = render(&world, 70, 40, 4, 7, true);
    assert_eq!(pixels(&forwards), pixels(&backwards));
}

#[test]
fn a_ray_at_the_small_sphere_hits_it_in_front() {
    let world = two_spheres();
    let ray = new_ray(Vec3::ZERO, Vec3::new(0.0, 0.0, -1.0));
    let probes: Vec<Intersection> =
        world.objects.iter().map(|sphere| intersect(sphere, &ray)).collect();
    let hit = find_nearest_hit(&world, &probes).unwrap();
    assert_eq!(hit.material, 0);
    assert!((number(hit.distance) - 0.5).abs() < 1.0e-5);
    assert!(hit.distance.is_positive());
    let to_surface = vec3(hit.point) - Vec3::new(0.0, 0.0, -1.0);
    assert!((to_surface.length() - 0.5).abs() < 1.0e-5);
    assert!((vec3(hit.normal).length() - 1.0).abs() < 1.0e-5);
}

#[test]
fn a_ray_at_the_ground_hits_the_large_sphere() {
    let world = two_spheres();
    let ray = new_ray(Vec3::ZERO, Vec3::new(0.0, -1.0, -0.2));
    let probes: Vec<Intersection> =
        world.objects.iter().map(|sphere| intersect(sphere, &ray)).collect();
    let hit = find_nearest_hit(&world, &probes).unwrap();
    assert_eq!(hit.material, 1);
    let to_surface = vec3(hit.point) - Vec3::new(0.0, -100.5, -1.0);
    assert!((to_surface.length() - 100.0).abs() < 1.0e-3);
}

#[test]
fn a_ray_at_the_sky_hits_nothing() {
    let world = two_spheres();
    let ray = new_ray(Vec3::ZERO, Vec3::new(0.0, 1.0, 0.0));
    let probes: Vec<Intersection> =
        world.objects.iter().map(|sphere| intersect(sphere, &ray)).collect();
    assert_eq!(find_nearest_hit(&world, &probes), None);
    assert_eq!(ray_color(ray, &world, None, 0, 16), PathStep::Background);
}

#[test]
fn the_roulette_keeps_the_mean_at_the_albedo() {
    let albedo = Vec3::new(0.8, 0.2, 0.2);
    let lambert = Lambert { albedo: vector(albedo) };
    let hit = Hit {
        point: vector(Vec3::new(0.0, 0.0, -0.5)),
        normal: vector(Vec3::new(0.0, 0.0, 1.0)),
        distance: scalar(0.5),
        material: 0,
    };
    let ray = new_ray(Vec3::ZERO, Vec3::new(0.0, 0.0, -1.0));
    let mut rng = Sampler::seeded(7);
    let trials = 400_000;
    let mut sum = [0.0f64; 3];
    let mut ended = 0;
    for _ in 0..trials {
        let sample = random(&mut rng);
        assert!(is_unit_sample(sample));
        let bounce = Bounce {
            sample,
            direction: vector(Vec3::new(0.0, 0.0, 1.0)),
            attenuation: vector(albedo / SURVIVAL),
        };
        let scatter = lambert.scatter(ray, hit, bounce);
        if scatter.is_absorbed() {
            ended += 1;
        }
        let attenuation = vec3(scatter.attenuation);
        sum[0] += attenuation.x as f64;
        sum[1] += attenuation.y as f64;
        sum[2] += attenuation.z as f64;
    }
    let share = ended as f64 / trials as f64;
    assert!((share - 1.0 / 64.0).abs() < 0.002, "share of ended paths: {share}");
    assert!((sum[0] / trials as f64 - 0.8).abs() < 0.004);
    assert!((sum[1] / trials as f64 - 0.2).abs() < 0.002);
    assert!((sum[2] / trials as f64 - 0.2).abs() < 0.002);
}


#[test]
fn the_sampler_draws_what_the_generator_draws() {
    let mut sampler = Sampler::seeded(7);
    let mut generator = SmallRng::seed_from_u64(7);
    for _ in 0..10_000 {
        let expected: f32 = generator.gen();
        assert_eq!(random(&mut sampler), scalar(expected));
    }
}

#[test]
fn the_sampler_of_a_chunk_is_seeded_by_the_sum() {
    let mut sampler = Sampler::seeded(chunk_seed(7, 35));
    let mut generator = SmallRng::seed_from_u64(42);
    for _ in 0..100 {
        let expected = Vec3::new(generator.gen(), generator.gen(), generator.gen());
        assert_eq!(random_vector(&mut sampler), vector(expected));
    }
    let mut wrapped = Sampler::seeded(chunk_seed(u64::MAX, 8));
    let mut generator = SmallRng::seed_from_u64(7);
    for _ in 0..100 {
        let expected: f32 = generator.gen();
        assert_eq!(random(&mut wrapped), scalar(expected));
    }
}

#[test]
fn streams_of_different_seeds_differ() {
    let mut first = Sampler::seeded(7);
    let mut second = Sampler::seeded(8);
    let a: Vec<Scalar> = (0..16).map(|_| random(&mut first)).collect();
    let b: Vec<Scalar> = (0..16).map(|_| random(&mut second)).collect();
    assert_ne!(a, b);
    let mut again = Sampler::seeded(7);
    let c: Vec<Scalar> = (0..16).map(|_| random(&mut again)).collect();
    assert_eq!(a, c);
}

#[test]
fn a_word_stands_for_its_upper_24_bits() {
    assert_eq!(unit_sample_from(0), scalar(0.0));
    assert_eq!(unit_sample_from(255), scalar(0.0));
    assert_eq!(unit_sample_from(256), scalar(1.0 / 16_777_216.0));
    assert_eq!(unit_sample_from(0x8000_0000), scalar(0.5));
    assert_eq!(unit_sample_from(0x4000_0000), scalar(0.25));
    assert_eq!(unit_sample_from(0xC000_0000), scalar(0.75));
    assert_eq!(unit_sample_from(0xFC00_0000), scalar(63.0 / 64.0));
    assert_eq!(unit_sample_from(u32::MAX), scalar(0.999_999_94));
    assert_eq!(unit_sample_from(u32::MAX).to_bits(), 0x3F7F_FFFF);
    let mut word: u32 = 1;
    for _ in 0..100_000 {
        word = word.wrapping_mul(1_664_525).wrapping_add(1_013_904_223);
        let expected = (word >> 8) as f32 * (1.0 / 16_777_216.0);
        assert_eq!(unit_sample_from(word), scalar(expected));
        assert!(is_unit_sample(unit_sample_from(word)));
    }
    for shift in 0..32 {
        let word = 1u32 << shift;
        let expected = (word >> 8) as f32 * (1.0 / 16_777_216.0);
        assert_eq!(unit_sample_from(word), scalar(expected));
        let below = word.wrapping_sub(1);
        let expected = (below >> 8) as f32 * (1.0 / 16_777_216.0);
        assert_eq!(unit_sample_from(below), scalar(expected));
    }
}
