use raytracer::integrator::{on_query, on_scatter, AfterQuery, AfterScatter, MAX_DEPTH};
use raytracer::material::{clamp_fuzz, orientation, refracts, Lobe, Material, Probe, Side};

fn probe(facing: i64, discriminant: i64, draw: i64, reflectance: i64) -> Probe {
    Probe { facing, discriminant, draw, reflectance }
}

#[test]
fn lambertian_always_scatters() {
    for facing in [-5_i64, 0, 5] {
        for discriminant in [-1_i64, 0, 1] {
            for draw in [0_i64, 3] {
                let p = probe(facing, discriminant, draw, 2);
                assert_eq!(Material::Lambertian.scatter(&p), Some(Lobe::Diffuse));
            }
        }
    }
}

#[test]
fn metal_reflects_a_ray_that_leaves_the_surface() {
    // A ray straight down on a surface with normal (0, 0, 1) and no blur:
    // the mirror direction is the normal, and its dot product with it is one.
    let p = probe(raytracer::key::ONE, 0, 0, 0);
    assert_eq!(Material::Metal.scatter(&p), Some(Lobe::Reflected));
    assert_eq!(Material::Metal.scatter(&probe(1, 0, 0, 0)), Some(Lobe::Reflected));
}

#[test]
fn metal_swallows_a_ray_that_points_into_the_surface() {
    assert_eq!(Material::Metal.scatter(&probe(-1, 9, 9, 9)), None);
    assert_eq!(Material::Metal.scatter(&probe(i64::MIN, 9, 9, 9)), None);
}

#[test]
fn metal_swallows_a_ray_along_the_surface() {
    assert_eq!(Material::Metal.scatter(&probe(0, 9, 9, 9)), None);
}

#[test]
fn glass_reflects_under_total_internal_reflection() {
    for discriminant in [i64::MIN, -7, -1] {
        for draw in [0_i64, 1, 5, 100] {
            for reflectance in [0_i64, 1, 5, 100] {
                let p = probe(-3, discriminant, draw, reflectance);
                assert_eq!(Material::Dielectric.scatter(&p), Some(Lobe::Reflected));
            }
        }
    }
}

#[test]
fn glass_at_a_discriminant_of_zero_lets_the_draw_decide() {
    assert_eq!(Material::Dielectric.scatter(&probe(0, 0, 5, 1)), Some(Lobe::Refracted));
    assert_eq!(Material::Dielectric.scatter(&probe(0, 0, 1, 1)), Some(Lobe::Refracted));
    assert_eq!(Material::Dielectric.scatter(&probe(0, 0, 0, 1)), Some(Lobe::Reflected));
}

#[test]
fn glass_bends_a_ray_where_the_draw_is_not_below_the_reflectance() {
    assert_eq!(Material::Dielectric.scatter(&probe(0, 1, 5, 5)), Some(Lobe::Refracted));
    assert_eq!(Material::Dielectric.scatter(&probe(0, 1, 6, 5)), Some(Lobe::Refracted));
    assert_eq!(Material::Dielectric.scatter(&probe(0, 1, 0, 0)), Some(Lobe::Refracted));
}

#[test]
fn glass_reflects_where_the_draw_is_below_the_reflectance() {
    assert_eq!(Material::Dielectric.scatter(&probe(0, 1, 4, 5)), Some(Lobe::Reflected));
    assert_eq!(Material::Dielectric.scatter(&probe(0, 77, 0, 1)), Some(Lobe::Reflected));
}

#[test]
fn glass_never_swallows_a_ray() {
    for discriminant in [-1_i64, 0, 1] {
        for draw in [0_i64, 1, 2] {
            for reflectance in [0_i64, 1, 2] {
                assert!(Material::Dielectric.scatter(&probe(0, discriminant, draw, reflectance)).is_some());
            }
        }
    }
}

#[test]
fn refraction_fails_only_below_a_discriminant_of_zero() {
    assert!(refracts(1));
    assert!(refracts(i64::MAX));
    assert!(refracts(0));
    assert!(!refracts(-1));
    assert!(!refracts(i64::MIN));
}

#[test]
fn orientation_follows_the_sign_of_the_incidence() {
    assert_eq!(orientation(1), Side::Inside);
    assert_eq!(orientation(i64::MAX), Side::Inside);
    assert_eq!(orientation(0), Side::Outside);
    assert_eq!(orientation(-1), Side::Outside);
    assert_eq!(orientation(i64::MIN), Side::Outside);
}

#[test]
fn fuzz_is_capped_at_one() {
    let one = raytracer::key::key(1.0_f32.to_bits()).unwrap();
    assert_eq!(one, raytracer::key::ONE);
    assert_eq!(clamp_fuzz(one), one);
    assert_eq!(clamp_fuzz(one + 1), one);
    assert_eq!(clamp_fuzz(raytracer::key::key(7.5_f32.to_bits()).unwrap()), one);
    assert_eq!(clamp_fuzz(i64::MAX), one);
    assert_eq!(clamp_fuzz(one - 1), one - 1);
    let half = raytracer::key::key(0.5_f32.to_bits()).unwrap();
    assert_eq!(clamp_fuzz(half), half);
    assert_eq!(clamp_fuzz(0), 0);
    assert_eq!(clamp_fuzz(-4), -4);
}

#[test]
fn cut_off_is_fifty() {
    assert_eq!(MAX_DEPTH, 50);
}

#[test]
fn miss_ends_in_the_sky_at_every_depth() {
    for depth in [0_usize, 1, 49, 50, 51, 1000, usize::MAX] {
        assert_eq!(on_query(false, depth), AfterQuery::Sky);
    }
}

#[test]
fn hit_below_the_cut_off_asks_the_material() {
    for depth in 0..50_usize {
        assert_eq!(on_query(true, depth), AfterQuery::Scatter);
    }
}

#[test]
fn hit_at_the_cut_off_ends_in_black() {
    for depth in [50_usize, 51, 1000, usize::MAX] {
        assert_eq!(on_query(true, depth), AfterQuery::Black);
    }
}

#[test]
fn scattered_ray_is_followed_one_level_deeper() {
    for depth in 0..50_usize {
        assert_eq!(on_scatter(true, depth), AfterScatter::Recurse(depth + 1));
    }
    assert_eq!(on_scatter(true, 49), AfterScatter::Recurse(50));
}

#[test]
fn swallowed_ray_ends_in_black() {
    for depth in [0_usize, 1, 49, 50, usize::MAX] {
        assert_eq!(on_scatter(false, depth), AfterScatter::Black);
    }
}

#[test]
fn nothing_is_followed_beyond_the_cut_off() {
    for depth in [50_usize, 51, usize::MAX] {
        assert_eq!(on_scatter(true, depth), AfterScatter::Black);
    }
}

#[test]
fn path_between_two_mirrors_ends_in_black() {
    let mut depth = 0_usize;
    let mut queries = 0_usize;
    let end = loop {
        queries += 1;
        assert!(queries <= 1000);
        match on_query(true, depth) {
            AfterQuery::Scatter => match on_scatter(true, depth) {
                AfterScatter::Recurse(deeper) => {
                    assert_eq!(deeper, depth + 1);
                    depth = deeper;
                },
                AfterScatter::Black => break AfterQuery::Black,
            },
            end => break end,
        }
    };
    assert_eq!(end, AfterQuery::Black);
    assert_eq!(depth, 50);
    assert_eq!(queries, 51);
}

#[test]
fn path_that_leaves_after_three_bounces_ends_in_the_sky() {
    let hits = [true, true, true, false];
    let mut depth = 0_usize;
    let end = loop {
        match on_query(hits[depth], depth) {
            AfterQuery::Scatter => match on_scatter(true, depth) {
                AfterScatter::Recurse(deeper) => depth = deeper,
                AfterScatter::Black => break AfterQuery::Black,
            },
            end => break end,
        }
    };
    assert_eq!(end, AfterQuery::Sky);
    assert_eq!(depth, 3);
}
