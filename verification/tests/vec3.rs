use raytracer::common::decimal::to_decimal;
use raytracer::common::scalar::Scalar;
use raytracer::common::vec3::{Color, Point3, Vec3, NEAR_ZERO_BITS};
use raytracer::image::ppm_header;

fn s(x: f64) -> Scalar {
    Scalar::from_bits(x.to_bits())
}

fn v(x: f64, y: f64, z: f64) -> Vec3 {
    Vec3::new(s(x), s(y), s(z))
}

fn f(x: Scalar) -> f64 {
    f64::from_bits(x.to_bits())
}

#[test]
fn new_keeps_the_components_in_order() {
    let a = v(1.0, -2.5, 3.25);
    assert_eq!(f(a.x()), 1.0);
    assert_eq!(f(a.y()), -2.5);
    assert_eq!(f(a.z()), 3.25);
    assert_eq!(a, Vec3(s(1.0), s(-2.5), s(3.25)));
}

#[test]
fn points_and_colours_are_vectors() {
    let p: Point3 = v(1.0, 2.0, 3.0);
    let c: Color = p;
    assert_eq!(c, v(1.0, 2.0, 3.0));
}

#[test]
fn zeros_is_three_positive_zeros() {
    let z = Vec3::zeros();
    assert_eq!(z.x().to_bits(), 0);
    assert_eq!(z.y().to_bits(), 0);
    assert_eq!(z.z().to_bits(), 0);
}

#[test]
fn neg_flips_every_sign() {
    let a = v(1.0, -2.5, 0.0).neg();
    assert_eq!(a.x().to_bits(), (-1.0f64).to_bits());
    assert_eq!(a.y().to_bits(), 2.5f64.to_bits());
    assert_eq!(a.z().to_bits(), (-0.0f64).to_bits());
    assert_eq!(a.neg(), v(1.0, -2.5, 0.0));
}

#[test]
fn near_zero_threshold_is_one_in_a_hundred_million() {
    assert_eq!(NEAR_ZERO_BITS, 1e-8f64.to_bits());
}

#[test]
fn near_zero_needs_every_component_small() {
    let e = 1e-8;
    let values = [0.0, -0.0, 9.9e-9, -9.9e-9, e, -e, 1.1e-8, 1.0, -1.0, f64::NAN, f64::INFINITY];
    for x in values {
        for y in values {
            for z in values {
                let expected = x.abs() < e && y.abs() < e && z.abs() < e;
                assert_eq!(v(x, y, z).near_zero(), expected, "near_zero({x}, {y}, {z})");
            }
        }
    }
    assert!(v(0.0, 0.0, 0.0).near_zero());
    assert!(v(9.9e-9, -9.9e-9, 0.0).near_zero());
    assert!(!v(1e-8, 0.0, 0.0).near_zero());
    assert!(!v(0.0, 0.0, 1.0).near_zero());
}

#[test]
fn unit_ball_sample_is_kept_only_below_squared_length_one() {
    let mut x = -1.0;
    while x < 1.0 {
        let mut y = -1.0;
        while y < 1.0 {
            let mut z = -1.0;
            while z < 1.0 {
                let length_squared: f64 = x * x + y * y + z * z;
                let candidate = v(x, y, z);
                let sample = Vec3::random_in_unit_sphere(candidate, s(length_squared));
                if length_squared < 1.0 {
                    assert_eq!(sample, Some(candidate));
                } else {
                    assert_eq!(sample, None);
                }
                z += 0.25;
            }
            y += 0.25;
        }
        x += 0.25;
    }
}

#[test]
fn unit_ball_sample_on_the_sphere_itself_is_rejected() {
    assert_eq!(Vec3::random_in_unit_sphere(v(1.0, 0.0, 0.0), s(1.0)), None);
    assert_eq!(Vec3::random_in_unit_sphere(v(0.6, 0.8, 0.0), s(0.6 * 0.6 + 0.8 * 0.8)), None);
    assert_eq!(
        Vec3::random_in_unit_sphere(v(0.5, 0.5, 0.5), s(0.75)),
        Some(v(0.5, 0.5, 0.5))
    );
    assert_eq!(Vec3::random_in_unit_sphere(v(0.0, 0.0, 0.0), s(f64::NAN)), None);
}

#[test]
fn unit_disk_sample_lies_in_the_plane_and_inside_the_circle() {
    let mut x = -1.0;
    while x < 1.0 {
        let mut y = -1.0;
        while y < 1.0 {
            let length_squared: f64 = x * x + y * y + 0.0 * 0.0;
            let sample = Vec3::random_in_unit_disk(s(x), s(y), s(length_squared));
            match sample {
                Some(p) => {
                    assert!(length_squared < 1.0);
                    assert_eq!(p, v(x, y, 0.0));
                }
                None => assert!(length_squared >= 1.0),
            }
            y += 0.125;
        }
        x += 0.125;
    }
}

fn float_pixel_text(sum: [f64; 3], samples_per_pixel: u32) -> String {
    let scale = 1.0 / samples_per_pixel as f64;
    let r = (sum[0] * scale).sqrt();
    let g = (sum[1] * scale).sqrt();
    let b = (sum[2] * scale).sqrt();
    format!(
        "{} {} {}\n",
        (r.clamp(0.0, 0.999) * 256.0) as u32,
        (g.clamp(0.0, 0.999) * 256.0) as u32,
        (b.clamp(0.0, 0.999) * 256.0) as u32
    )
}

fn gamma_corrected(sum: [f64; 3], samples_per_pixel: u32) -> Vec3 {
    let scale = 1.0 / samples_per_pixel as f64;
    v((sum[0] * scale).sqrt(), (sum[1] * scale).sqrt(), (sum[2] * scale).sqrt())
}

#[test]
fn pixel_text_of_known_colours() {
    assert_eq!(v(0.0, 0.5, 1.0).get_color_buf(), "0 128 255\n");
    assert_eq!(v(0.25, 0.75, 0.999).get_color_buf(), "64 192 255\n");
    assert_eq!(v(-1.0, f64::NAN, 2.0).get_color_buf(), "0 0 255\n");
    assert_eq!(v(0.00390625, 0.0390625, 0.390625).get_color_buf(), "1 10 100\n");
}

#[test]
fn pixel_text_agrees_with_the_float_formula() {
    let sums = [
        [0.0, 0.0, 0.0],
        [500.0, 250.0, 125.0],
        [499.9, 0.001, 73.2],
        [1000.0, 12.5, 0.3],
        [3.7, 401.25, 77.0],
        [-4.0, 2.0, 1.0],
        [f64::INFINITY, 1.0, 1.0],
    ];
    for sum in sums {
        for samples in [1u32, 10, 100, 500] {
            assert_eq!(
                gamma_corrected(sum, samples).get_color_buf(),
                float_pixel_text(sum, samples),
                "{sum:?} over {samples}"
            );
        }
    }
}

#[test]
fn decimal_numerals_agree_with_the_standard_library() {
    for n in 0u32..1200 {
        assert_eq!(to_decimal(n), n.to_string());
    }
    for n in [9_999u32, 10_000, 65_535, 1_000_000, 4_294_967_295, 4_294_967_290, 1_000_000_007] {
        assert_eq!(to_decimal(n), n.to_string());
    }
    assert_eq!(to_decimal(0), "0");
    assert_eq!(to_decimal(255), "255");
}

#[test]
fn pixmap_header_names_format_size_and_depth() {
    assert_eq!(ppm_header(1200, 800), "P3\n1200 800\n255\n");
    assert_eq!(ppm_header(1, 1), "P3\n1 1\n255\n");
    assert_eq!(ppm_header(0, 4_294_967_295), "P3\n0 4294967295\n255\n");
}
