use vectoria::camera::Camera;
use vectoria::camera::camera_basis;
use vectoria::camera::view_matrix;
use vectoria::composer::Mat3;
use vectoria::composer::compose;
use vectoria::composer::normal_matrix;
use vectoria::composer::upper3x3;
use vectoria::fixed::FX_ONE;
use vectoria::matrix::Mat4;
use vectoria::matrix::mat4_mul;
use vectoria::matrix::model_matrix;
use vectoria::projection::ProjectionParams;
use vectoria::projection::aspect_ratio_fixed;
use vectoria::projection::perspective_matrix;
use vectoria::vec3::Vec3;
use vectoria::vec3::cross_scaled;
use vectoria::vec3::dot_scaled;
use vectoria::vec3::normalize;

fn dot_raw(a: &Vec3, b: &Vec3) -> i128 {
    a.x as i128 * b.x as i128 + a.y as i128 * b.y as i128 + a.z as i128 * b.z as i128
}

const ONE_SQ: i128 = 1_000_000_000_000;

#[test]
fn normalize_pins_the_exact_fixed_point_result() {
    let v = Vec3::new(-2_000_000, 1_000_000, 1_000_000);
    let f = normalize(&v).unwrap();
    assert_eq!((f.x, f.y, f.z), (-816_496, 408_248, 408_248));
}

#[test]
fn normalize_rejects_the_zero_vector() {
    assert!(normalize(&Vec3::new(0, 0, 0)).is_none());
}

#[test]
fn cross_products_are_orthogonal_to_their_factors() {
    let a = Vec3::new(3_141_592, -2_718_281, 1_414_213);
    let b = Vec3::new(-577_215, 1_732_050, 2_236_067);
    let c = cross_scaled(&a, &b);
    // Scaling back truncates each component, so the dot products are not
    // exactly zero but stay within one truncation unit per term.
    let tol: i128 = 3 * 4_000_000;
    assert!(dot_raw(&c, &a).abs() <= tol);
    assert!(dot_raw(&c, &b).abs() <= tol);
}

#[test]
fn scenario_camera_basis_is_orthonormal_within_tolerance() {
    // Camera at (2, -1, 1) looking toward (-2, 1, 1) with up (0, 1, 0).
    let camera = Camera {
        position: Vec3::new(2_000_000, -1_000_000, 1_000_000),
        direction: Vec3::new(-2_000_000, 1_000_000, 1_000_000),
        up: Vec3::new(0, 1_000_000, 0),
    };
    let (s, u, f) = camera_basis(&camera).unwrap();
    // The exact fixed-point values of the construction.
    assert_eq!((s.x, s.y, s.z), (447_213, 0, 894_427));
    assert_eq!((u.x, u.y, u.z), (365_148, 912_869, -182_573));
    assert_eq!((f.x, f.y, f.z), (-816_496, 408_248, 408_248));
    // |s| = |u| = |f| = 1 and pairwise dot products 0, within truncation.
    let norm_tol: i128 = 10_000_000;
    let dot_tol: i128 = 5_000_000;
    assert!((dot_raw(&s, &s) - ONE_SQ).abs() <= norm_tol);
    assert!((dot_raw(&u, &u) - ONE_SQ).abs() <= norm_tol);
    assert!((dot_raw(&f, &f) - ONE_SQ).abs() <= norm_tol);
    assert!(dot_raw(&s, &u).abs() <= dot_tol);
    assert!(dot_raw(&u, &f).abs() <= dot_tol);
    assert!(dot_raw(&f, &s).abs() <= dot_tol);
}

#[test]
fn view_matrix_carries_the_basis_and_the_translation() {
    let camera = Camera {
        position: Vec3::new(2_000_000, -1_000_000, 1_000_000),
        direction: Vec3::new(-2_000_000, 1_000_000, 1_000_000),
        up: Vec3::new(0, 1_000_000, 0),
    };
    let m = view_matrix(&camera).unwrap();
    assert_eq!((m.m00, m.m01, m.m02), (447_213, 0, 894_427));
    assert_eq!((m.m10, m.m11, m.m12), (365_148, 912_869, -182_573));
    assert_eq!((m.m20, m.m21, m.m22), (-816_496, 408_248, 408_248));
    assert_eq!((m.m03, m.m13, m.m23), (-1_788_853, 365_146, 1_632_992));
    assert_eq!((m.m30, m.m31, m.m32, m.m33), (0, 0, 0, FX_ONE));
}

#[test]
fn view_matrix_rejects_up_parallel_to_direction() {
    let camera = Camera {
        position: Vec3::new(0, 0, 0),
        direction: Vec3::new(0, 2_000_000, 0),
        up: Vec3::new(0, 1_000_000, 0),
    };
    assert!(view_matrix(&camera).is_none());
    let zero_direction = Camera {
        position: Vec3::new(0, 0, 0),
        direction: Vec3::new(0, 0, 0),
        up: Vec3::new(0, 1_000_000, 0),
    };
    assert!(view_matrix(&zero_direction).is_none());
}

#[test]
fn perspective_entries_match_the_formulas() {
    // fov = pi / 3: the focal scale is 1 / tan(pi / 6) = sqrt(3).
    let p = ProjectionParams {
        focal: 1_732_050,
        aspect_ratio: aspect_ratio_fixed(720, 480),
        z_near: 100_000,
        z_far: 1_024_000_000,
    };
    assert_eq!(p.aspect_ratio, 666_666);
    let m = perspective_matrix(&p);
    assert_eq!(m.m00, 1_154_698);
    assert_eq!(m.m11, 1_732_050);
    assert_eq!(m.m22, 1_000_195);
    assert_eq!(m.m23, -200_019);
    assert_eq!(m.m32, FX_ONE);
    assert_eq!(
        (m.m01, m.m02, m.m03, m.m10, m.m12, m.m13, m.m20, m.m21, m.m30, m.m31, m.m33),
        (0, 0, 0, 0, 0, 0, 0, 0, 0, 0, 0),
    );
    // Determinism: the same parameters give the same matrix.
    assert_eq!(perspective_matrix(&p), m);
}

#[test]
fn perspective_maps_the_near_and_far_planes_to_unit_depths() {
    let p = ProjectionParams {
        focal: 1_732_050,
        aspect_ratio: 666_666,
        z_near: 100_000,
        z_far: 1_024_000_000,
    };
    let m = perspective_matrix(&p);
    let a = m.m22 as f64 / FX_ONE as f64;
    let b = m.m23 as f64 / FX_ONE as f64;
    let depth = |z: f64| (a * z + b) / z;
    assert!((depth(0.1) + 1.0).abs() < 1e-3);
    assert!((depth(1024.0) - 1.0).abs() < 1e-3);
}

#[test]
fn matrix_product_scales_back_once() {
    let id = Mat4::identity();
    assert_eq!(mat4_mul(&id, &id), id);
    let a = model_matrix(2_000_000, 0);
    let b = model_matrix(3_000_000, 500_000);
    let ab = mat4_mul(&a, &b);
    assert_eq!(ab.m00, 6_000_000);
    assert_eq!(ab.m11, 6_000_000);
    assert_eq!(ab.m22, 6_000_000);
    assert_eq!(ab.m23, 1_000_000);
    assert_eq!(ab.m33, FX_ONE);
    assert_eq!(mat4_mul(&id, &b), b);
}

#[test]
fn normal_matrix_inverts_a_uniform_scale() {
    let block = Mat3 {
        n00: 2_000_000,
        n01: 0,
        n02: 0,
        n10: 0,
        n11: 2_000_000,
        n12: 0,
        n20: 0,
        n21: 0,
        n22: 2_000_000,
    };
    let n = normal_matrix(&block).unwrap();
    assert_eq!((n.n00, n.n11, n.n22), (500_000, 500_000, 500_000));
    assert_eq!((n.n01, n.n02, n.n10, n.n12, n.n20, n.n21), (0, 0, 0, 0, 0, 0));
}

#[test]
fn normal_matrix_reports_a_singular_block() {
    let block = Mat3 { n00: 0, n01: 0, n02: 0, n10: 0, n11: 0, n12: 0, n20: 0, n21: 0, n22: 0 };
    assert!(normal_matrix(&block).is_none());
    let flat = Mat3 {
        n00: 1_000_000,
        n01: 0,
        n02: 0,
        n10: 0,
        n11: 1_000_000,
        n12: 0,
        n20: 0,
        n21: 0,
        n22: 0,
    };
    assert!(normal_matrix(&flat).is_none());
}

#[test]
fn compose_builds_the_frame_transforms() {
    let projection = Mat4::identity();
    let view = Mat4::identity();
    let model = model_matrix(1_000_000, 0);
    let (mvp, normal) = compose(&projection, &view, &model);
    assert_eq!(mvp, Mat4::identity());
    let n = normal.unwrap();
    assert_eq!((n.n00, n.n11, n.n22), (FX_ONE, FX_ONE, FX_ONE));
    assert_eq!(upper3x3(&mvp).n00, FX_ONE);
}

#[test]
fn dot_products_scale_back_once() {
    let a = Vec3::new(2_000_000, 0, 1_000_000);
    let b = Vec3::new(500_000, 4_000_000, -1_000_000);
    // (2 * 0.5 + 0 * 4 + 1 * -1) = 0
    assert_eq!(dot_scaled(&a, &b), 0);
    let c = Vec3::new(1_500_000, 0, 0);
    assert_eq!(dot_scaled(&a, &c), 3_000_000);
}
