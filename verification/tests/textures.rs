use rand::rngs::StdRng;
use rand::{Rng, SeedableRng};
use tracer::error::TracerError;
use tracer::scalar::Scalar;
use tracer::texture::checker::Checker;
use tracer::texture::image::{Image, ImageBuilder};
use tracer::texture::noise::{Noise, NoiseBuilder};
use tracer::texture::perlin::Perlin;
use tracer::texture::solid::Solid;
use tracer::texture::Textures;
use tracer::vec3::Vec3;

fn s(x: f32) -> Scalar {
    Scalar::from_bits(x.to_bits())
}

fn v(x: f32, y: f32, z: f32) -> Vec3 {
    Vec3::new(s(x), s(y), s(z))
}

fn lattice_vectors() -> Vec<Vec3> {
    (0..256).map(|i| v(i as f32, 0.5 * i as f32, -(i as f32))).collect()
}

#[test]
fn solid_is_the_same_everywhere() {
    let t = Solid::new(v(0.1, 0.2, 0.3));
    assert_eq!(t.value(s(0.0), s(0.0), v(0.0, 0.0, 0.0)), v(0.1, 0.2, 0.3));
    assert_eq!(t.value(s(0.7), s(0.9), v(5.0, -3.0, 2.0)), v(0.1, 0.2, 0.3));
    let u = Solid::new_from_rgb(s(0.4), s(0.5), s(0.6));
    assert_eq!(u.color_value, v(0.4, 0.5, 0.6));
}

#[test]
fn checker_selects_by_sign() {
    let c = Checker::new(3, 4, s(10.0));
    assert_eq!(c.scale, s(10.0));
    assert_eq!(c.select(s(-0.25)), 3);
    assert_eq!(c.select(s(0.25)), 4);
    assert_eq!(c.select(s(0.0)), 4);
    assert_eq!(c.select(s(-0.0)), 4);
    assert_eq!(c.select(s(f32::NAN)), 4);
}

#[test]
fn checker_pattern_in_space() {
    let c = Checker::new(0, 1, s(1.0));
    let at = |x: f32, y: f32, z: f32| c.select(s((x * 1.0).sin() * (y * 1.0).sin() * (z * 1.0).sin()));
    assert_eq!(at(1.0, 1.0, 1.0), 1);
    assert_eq!(at(-1.0, 1.0, 1.0), 0);
    assert_eq!(at(-1.0, -1.0, 1.0), 1);
    assert_eq!(at(4.0, 1.0, 1.0), 0);
}

#[test]
fn checker_refers_to_textures() {
    assert!(Textures::Checker(Checker::new(0, 1, s(1.0))).refers_to_textures_below(2));
    assert!(!Textures::Checker(Checker::new(0, 2, s(1.0))).refers_to_textures_below(2));
    assert!(!Textures::Checker(Checker::new(2, 0, s(1.0))).refers_to_textures_below(2));
    assert!(Textures::Solid(Solid::new(v(0.0, 0.0, 0.0))).refers_to_textures_below(0));
}

#[test]
fn image_is_checked_on_construction() {
    let ok = Image::new(2, 2, vec![0; 12]).unwrap();
    assert_eq!((ok.width, ok.height, ok.bytes_per_line), (2, 2, 6));
    assert!(matches!(Image::new(2, 2, vec![0; 11]), Err(TracerError::ImageError(_))));
    assert!(matches!(Image::new(2, 2, vec![0; 13]), Err(TracerError::ImageError(_))));
    assert!(matches!(Image::new(0, 2, vec![]), Err(TracerError::ImageError(_))));
    assert!(matches!(Image::new(2, 0, vec![]), Err(TracerError::ImageError(_))));
    assert!(matches!(Image::new(u32::MAX, 1, vec![0; 3]), Err(TracerError::ImageError(_))));
}

#[test]
fn image_texel_reads_the_nearest_pixel() {
    // a picture of three columns and two rows
    let bytes: Vec<u8> = (0..18).collect();
    let picture = Image::new(3, 2, bytes).unwrap();
    assert_eq!(picture.texel(0, 0), [0, 1, 2]);
    assert_eq!(picture.texel(1, 0), [3, 4, 5]);
    assert_eq!(picture.texel(2, 0), [6, 7, 8]);
    assert_eq!(picture.texel(0, 1), [9, 10, 11]);
    assert_eq!(picture.texel(2, 1), [15, 16, 17]);
    // beyond the edge: the last column and row
    assert_eq!(picture.texel(3, 0), [6, 7, 8]);
    assert_eq!(picture.texel(100, 1), [15, 16, 17]);
    assert_eq!(picture.texel(1, 2), [12, 13, 14]);
    assert_eq!(picture.texel(u32::MAX, u32::MAX), [15, 16, 17]);
}

#[test]
fn image_coordinates_are_clamped() {
    assert_eq!(Image::clamp_uv(s(0.25), s(0.75)), (s(0.25), s(0.75)));
    assert_eq!(Image::clamp_uv(s(-0.5), s(1.5)), (s(0.0), s(1.0)));
    assert_eq!(Image::clamp_uv(s(2.0), s(-3.0)), (s(1.0), s(0.0)));
}

#[test]
fn image_builder_holds_its_path() {
    let b = ImageBuilder::new("assets/earthmap.jpg".to_string());
    assert_eq!(b.path, "assets/earthmap.jpg");
}

#[test]
fn permutation_holds_every_number_once() {
    for seed in 0..5 {
        let mut rng = StdRng::seed_from_u64(seed);
        let table = Perlin::perlin_generate_perm(&mut rng);
        assert_eq!(table.len(), 256);
        let mut sorted = table.clone();
        sorted.sort();
        assert_eq!(sorted, (0..256).collect::<Vec<i32>>());
    }
}

#[test]
fn permute_shuffles_in_place() {
    let mut rng = StdRng::seed_from_u64(7);
    let mut table: Vec<i32> = (0..256).map(|i| i * 3).collect();
    let before = table.clone();
    Perlin::permute(&mut table, &mut rng);
    assert_ne!(table, before);
    let mut sorted = table.clone();
    sorted.sort();
    assert_eq!(sorted, before);
}

#[test]
fn same_seed_same_tables() {
    let mut a = StdRng::seed_from_u64(11);
    let mut b = StdRng::seed_from_u64(11);
    let first = Perlin::new(lattice_vectors(), &mut a);
    let second = Perlin::new(lattice_vectors(), &mut b);
    assert_eq!(first.perm_x, second.perm_x);
    assert_eq!(first.perm_y, second.perm_y);
    assert_eq!(first.perm_z, second.perm_z);
    assert_ne!(first.perm_x, first.perm_y);
}

#[test]
fn lattice_vector_is_addressed_through_the_tables() {
    let mut rng = StdRng::seed_from_u64(3);
    let lattice = Perlin::new(lattice_vectors(), &mut rng);
    assert_eq!(lattice.ran.len(), 256);
    for (i, j, k) in [(0, 0, 0), (1, 2, 3), (255, 256, 257), (-1, -2, -300), (i32::MAX, i32::MIN, 12345)] {
        let index = lattice.perm_x[(i & 255) as usize]
            ^ lattice.perm_y[(j & 255) as usize]
            ^ lattice.perm_z[(k & 255) as usize];
        assert_eq!(lattice.vector_at(i, j, k), lattice.ran[index as usize]);
    }
}

#[test]
fn corners_are_the_eight_neighbours() {
    let mut rng = StdRng::seed_from_u64(3);
    let lattice = Perlin::new(lattice_vectors(), &mut rng);
    for (i, j, k) in [(0, 0, 0), (7, -9, 300), (i32::MAX, 255, -1)] {
        let c = lattice.corners(i, j, k);
        for di in 0..2 {
            for dj in 0..2 {
                for dk in 0..2 {
                    assert_eq!(
                        c[di as usize][dj as usize][dk as usize],
                        lattice.vector_at(i.wrapping_add(di), j.wrapping_add(dj), k.wrapping_add(dk))
                    );
                }
            }
        }
    }
}

#[test]
fn noise_holds_its_parts() {
    let mut rng = StdRng::seed_from_u64(3);
    let lattice = Perlin::new(lattice_vectors(), &mut rng);
    let table = lattice.perm_x.clone();
    let n = Noise::new(s(4.0), lattice);
    assert_eq!(n.scale, s(4.0));
    assert_eq!(n.noise.perm_x, table);
    assert_eq!(NoiseBuilder::new(s(4.0)).scale, s(4.0));
    assert_eq!(NoiseBuilder::with_defaults().scale, s(256.0));
}

#[test]
fn permute_with_draws_of_the_first_place_rotates() {
    // every entry changes places with the first: the table moves on by one
    let mut table: Vec<i32> = (0..256).collect();
    Perlin::permute_with(&mut table, &vec![0; 255]);
    let want: Vec<i32> = (0..256).map(|k| (k + 1) % 256).collect();
    assert_eq!(table, want);
}

#[test]
fn permute_with_draws_of_the_own_place_changes_nothing() {
    let mut table: Vec<i32> = (0..256).map(|k| 7 * k).collect();
    let before = table.clone();
    let targets: Vec<usize> = (0..255).map(|k| 255 - k).collect();
    Perlin::permute_with(&mut table, &targets);
    assert_eq!(table, before);
}

#[test]
fn permute_with_exchanges_from_the_last_entry_down() {
    // the last entry goes to place 10, then the entry before it to place 20
    let mut table: Vec<i32> = (0..256).collect();
    let mut targets: Vec<usize> = (0..255).map(|k| 255 - k).collect();
    targets[0] = 10;
    targets[1] = 20;
    Perlin::permute_with(&mut table, &targets);
    let mut want: Vec<i32> = (0..256).collect();
    want.swap(255, 10);
    want.swap(254, 20);
    assert_eq!(table, want);
    assert_eq!(table[10], 255);
    assert_eq!(table[255], 10);
    assert_eq!(table[20], 254);
    assert_eq!(table[254], 20);
}

#[test]
fn permute_applies_the_draws_of_the_generator() {
    for seed in 0..5 {
        let mut drawing = StdRng::seed_from_u64(seed);
        let targets: Vec<usize> = (1..256usize).rev().map(|i| drawing.gen_range(0..i + 1)).collect();
        let mut by_draws: Vec<i32> = (0..256).collect();
        Perlin::permute_with(&mut by_draws, &targets);
        let mut rng = StdRng::seed_from_u64(seed);
        let mut by_generator: Vec<i32> = (0..256).collect();
        Perlin::permute(&mut by_generator, &mut rng);
        assert_eq!(by_generator, by_draws);
        assert_ne!(by_generator, (0..256).collect::<Vec<i32>>());
    }
}
