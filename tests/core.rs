use rand::{Rng, SeedableRng};
use raytracer::camera::half_pixel_offset;
use raytracer::frame::{render_frame, Color};
use raytracer::sampling::pixel_seed;
use raytracer::hit::{nearest_hit, pick_root, Root};
use raytracer::shading::{crossing, regime_of, shading_step, Crossing, Hit, Regime, Step};

#[test]
fn root_none_without_positive_discriminant() {
    assert_eq!(pick_root(false, true, true), None);
    assert_eq!(pick_root(false, false, false), None);
}

#[test]
fn root_none_when_surface_behind_origin() {
    assert_eq!(pick_root(true, false, false), None);
}

#[test]
fn root_near_from_outside() {
    assert_eq!(pick_root(true, true, true), Some(Root::Near));
}

#[test]
fn root_far_from_inside() {
    assert_eq!(pick_root(true, false, true), Some(Root::Far));
}

#[test]
fn nearest_takes_least_key() {
    let keys = vec![Some(30), None, Some(12), Some(50)];
    assert_eq!(nearest_hit(&keys), Some(2));
}

#[test]
fn nearest_ties_go_to_first() {
    let keys = vec![None, Some(7), Some(9), Some(7)];
    assert_eq!(nearest_hit(&keys), Some(1));
}

#[test]
fn nearest_none_when_all_missed() {
    let keys: Vec<Option<u32>> = vec![None, None, None];
    assert_eq!(nearest_hit(&keys), None);
}

#[test]
fn nearest_none_without_shapes() {
    let keys: Vec<Option<u32>> = Vec::new();
    assert_eq!(nearest_hit(&keys), None);
}

#[test]
fn nearest_handles_extreme_keys() {
    let keys = vec![Some(u32::MAX), Some(0), Some(u32::MAX)];
    assert_eq!(nearest_hit(&keys), Some(1));
    let keys = vec![Some(u32::MAX)];
    assert_eq!(nearest_hit(&keys), Some(0));
}

#[test]
fn regimes_of_materials() {
    assert_eq!(regime_of(true, false), Regime::Specular);
    assert_eq!(regime_of(true, true), Regime::Specular);
    assert_eq!(regime_of(false, true), Regime::Refractive);
    assert_eq!(regime_of(false, false), Regime::Opaque);
}

#[test]
fn background_is_black_whatever_the_budget() {
    assert_eq!(shading_step(Hit::Background, 3, true), Step::Background);
    assert_eq!(shading_step(Hit::Background, 0, false), Step::Background);
}

#[test]
fn mirror_spends_one_bounce() {
    assert_eq!(
        shading_step(Hit::Surface(Regime::Specular), 2, false),
        Step::Reflect { next: 1 }
    );
}

#[test]
fn dielectric_spends_one_bounce() {
    assert_eq!(
        shading_step(Hit::Surface(Regime::Refractive), 1, true),
        Step::Refract { next: 0 }
    );
}

#[test]
fn opaque_scatters_only_when_diffuse_sampling() {
    assert_eq!(
        shading_step(Hit::Surface(Regime::Opaque), 1, true),
        Step::Scatter { next: 0 }
    );
    assert_eq!(shading_step(Hit::Surface(Regime::Opaque), 1, false), Step::Direct);
}

#[test]
fn exhausted_budget_gives_direct_light() {
    assert_eq!(shading_step(Hit::Surface(Regime::Specular), 0, true), Step::Direct);
    assert_eq!(shading_step(Hit::Surface(Regime::Refractive), 0, true), Step::Direct);
    assert_eq!(shading_step(Hit::Surface(Regime::Opaque), 0, true), Step::Direct);
}

#[test]
fn largest_budget_decrements() {
    assert_eq!(
        shading_step(Hit::Surface(Regime::Specular), u8::MAX, false),
        Step::Reflect { next: 254 }
    );
}

#[test]
fn bounded_chain_of_mirrors() {
    let mut remaining: u8 = 4;
    let mut searches: u32 = 0;
    loop {
        searches += 1;
        match shading_step(Hit::Surface(Regime::Specular), remaining, false) {
            Step::Reflect { next } => remaining = next,
            Step::Direct => break,
            other => panic!("unexpected step {:?}", other),
        }
    }
    assert_eq!(searches, 5);
}

#[test]
fn entering_ray_is_bent() {
    assert_eq!(crossing(true, false), Crossing::Enter);
    assert_eq!(crossing(true, true), Crossing::Enter);
}

#[test]
fn leaving_ray_is_bent_when_possible() {
    assert_eq!(crossing(false, false), Crossing::Exit);
}

#[test]
fn leaving_ray_beyond_critical_angle_is_mirrored() {
    assert_eq!(crossing(false, true), Crossing::TotalInternalReflection);
}

#[test]
fn pixel_centre_offsets() {
    assert_eq!(half_pixel_offset(0, 640), -641);
    assert_eq!(half_pixel_offset(320, 640), -1);
    assert_eq!(half_pixel_offset(639, 640), 637);
    assert_eq!(half_pixel_offset(240, 480), -1);
    assert_eq!(half_pixel_offset(u32::MAX, 0), 2 * (u32::MAX as i64) - 1);
}

fn gradient(x: u32, y: u32) -> Color {
    ((x * 10) as u8, (y * 20) as u8, 7)
}

#[test]
fn frame_holds_each_shaded_pixel() {
    let frame = render_frame(3, 2, gradient);
    assert_eq!(frame.image.width(), 3);
    assert_eq!(frame.image.height(), 2);
    for y in 0..2u32 {
        for x in 0..3u32 {
            let (r, g, b) = gradient(x, y);
            assert_eq!(frame.image.get_pixel(x, y).0, [r, g, b]);
        }
    }
    assert_eq!(frame.image.get_pixel(2, 1).0, [20, 20, 7]);
}

#[test]
fn empty_frame() {
    let frame = render_frame(0, 0, gradient);
    assert_eq!(frame.image.width(), 0);
    assert_eq!(frame.image.height(), 0);
}

#[test]
fn frame_shades_rows_in_order() {
    let order = std::cell::RefCell::new(Vec::new());
    let _ = render_frame(2, 2, |x, y| {
        order.borrow_mut().push((x, y));
        (0, 0, 0)
    });
    assert_eq!(order.into_inner(), vec![(0, 0), (1, 0), (0, 1), (1, 1)]);
}

#[test]
fn deterministic_frames_are_identical() {
    let a = render_frame(4, 3, gradient);
    let b = render_frame(4, 3, gradient);
    assert_eq!(a.image.as_raw(), b.image.as_raw());
}

#[test]
fn pixel_seed_flips_key_bits() {
    assert_eq!(pixel_seed(0, 0, 0), 0);
    assert_eq!(pixel_seed(0, 5, 0), 5);
    assert_eq!(pixel_seed(0, 0, 1), 1u64 << 32);
    assert_eq!(pixel_seed(0xff, 0x0f, 2), 0xf0 | (2u64 << 32));
    assert_eq!(pixel_seed(u64::MAX, u32::MAX, u32::MAX), 0);
}

#[test]
fn pixel_seeds_differ_between_pixels() {
    let seed = 0x1234_5678_9abc_def0;
    let mut seen = std::collections::HashSet::new();
    for y in 0..16u32 {
        for x in 0..16u32 {
            assert!(seen.insert(pixel_seed(seed, x, y)));
        }
    }
    assert_eq!(pixel_seed(seed, 3, 4), pixel_seed(seed, 3, 4));
}

fn seeded_noise(seed: u64, x: u32, y: u32) -> Color {
    let mut rng = rand::rngs::StdRng::seed_from_u64(pixel_seed(seed, x, y));
    (rng.random(), rng.random(), rng.random())
}

#[test]
fn seeded_frames_repeat_with_their_seed() {
    let a = render_frame(5, 4, |x, y| seeded_noise(42, x, y));
    let b = render_frame(5, 4, |x, y| seeded_noise(42, x, y));
    let c = render_frame(5, 4, |x, y| seeded_noise(43, x, y));
    assert_eq!(a.image.as_raw(), b.image.as_raw());
    assert_ne!(a.image.as_raw(), c.image.as_raw());
}

#[test]
fn wide_empty_frame_is_accepted() {
    let frame = render_frame(1000, 0, gradient);
    assert_eq!(frame.image.width(), 1000);
    assert_eq!(frame.image.height(), 0);
}
