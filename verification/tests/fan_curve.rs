use fw_ec::fan_curve::{
    FanProfile, builtin_profiles, generate_fan_curve_lut, generate_fan_curve_lut_dyn,
    try_generate_fan_curve_lut_dyn,
    get_profile_by_name, new_profile,
};
use fw_ec::spline::CurveError;
use fw_ec::temp::EcTemp;

fn const_lut_as_vec<const N: usize, const LUT_SIZE: usize>(points: &[(u8, u8); N]) -> Vec<u8> {
    generate_fan_curve_lut::<N, LUT_SIZE>(points).to_vec()
}

fn runtime_lut_or_panic(points: &[(u8, u8)]) -> Vec<u8> {
    match try_generate_fan_curve_lut_dyn(points) {
        Ok(lut) => lut,
        Err(e) => panic!("Failed to generate runtime LUT for test: {e:?}"),
    }
}

fn builtin(name: &str) -> FanProfile {
    let all = builtin_profiles();
    match get_profile_by_name(name, &all, None) {
        Some(p) => p.clone(),
        None => panic!("no built-in profile named {name}"),
    }
}

fn check_all_in_range() {
    for profile in builtin_profiles() {
        for &v in profile.lut.iter() {
            assert!(v <= 100, "Profile '{}' has out-of-range value {v}", profile.name);
        }
    }
    let lut = generate_fan_curve_lut_dyn(&[(10, 0), (50, 100)]);
    assert!(lut.iter().all(|&v| v <= 100));
}

fn check_knots_exact() {
    let points: &[(u8, u8)] = &[(10, 0), (30, 50), (50, 100)];
    let lut = generate_fan_curve_lut_dyn(points);
    assert_eq!(lut[0], 0, "First knot Y should be 0");
    assert_eq!(lut[20], 50, "Middle knot Y should be 50");
    assert_eq!(lut[40], 100, "Last knot Y should be 100");
}

fn check_two_point_linear() {
    const POINTS: [(u8, u8); 2] = [(0, 0), (100, 100)];
    const LUT_SIZE: usize = 101;
    let const_lut = const_lut_as_vec::<2, LUT_SIZE>(&POINTS);
    let runtime_lut = generate_fan_curve_lut_dyn(&POINTS);
    assert_eq!(const_lut, runtime_lut, "Two-point linear parity failed");
    for (i, &v) in runtime_lut.iter().enumerate() {
        assert_eq!(v, i as u8, "Two-point linear: index {i} should equal {i}, got {v}");
    }
}

fn check_flat_plateau() {
    let points: &[(u8, u8)] = &[(0, 20), (20, 50), (40, 50), (60, 100)];
    let lut = generate_fan_curve_lut_dyn(points);
    for (idx, &v) in lut[20..=40].iter().enumerate() {
        assert_eq!(v, 50, "Flat plateau broken at index {}: expected 50, got {v}", idx + 20);
    }
    for w in lut.windows(2) {
        assert!(w[1] >= w[0], "LUT not non-decreasing: {:?} → {:?}", w[0], w[1]);
    }
}

fn check_non_uniform() {
    const POINTS: [(u8, u8); 3] = [(0, 0), (10, 80), (90, 100)];
    const LUT_SIZE: usize = 91;
    let const_lut = const_lut_as_vec::<3, LUT_SIZE>(&POINTS);
    let runtime_lut = generate_fan_curve_lut_dyn(&POINTS);
    assert_eq!(const_lut, runtime_lut, "Non-uniform spacing parity failed");
}

#[test]
fn fan_curve_output_values_in_range() {
    check_all_in_range();
}

#[test]
fn fan_curve_knot_values_are_exact() {
    check_knots_exact();
}

#[test]
fn fan_curve_two_point_linear_matches_const() {
    check_two_point_linear();
}

#[test]
fn fan_curve_flat_plateau_stays_flat() {
    check_flat_plateau();
}

#[test]
fn fan_curve_non_uniform_spacing_matches_const() {
    check_non_uniform();
}

#[test]
fn tests_output_values_in_range() {
    check_all_in_range();
}

#[test]
fn tests_knot_values_are_exact() {
    check_knots_exact();
}

#[test]
fn tests_two_point_linear_matches_const() {
    check_two_point_linear();
}

#[test]
fn tests_flat_plateau_stays_flat() {
    check_flat_plateau();
}

#[test]
fn tests_non_uniform_spacing_matches_const() {
    check_non_uniform();
}

fn parity(name: &str, points: &[(u8, u8)], fixed: &[u8]) {
    let profile = builtin(name);
    let runtime = runtime_lut_or_panic(points);
    assert_eq!(profile.lut, runtime, "Parity failure for profile '{name}'");
    assert_eq!(fixed, runtime.as_slice(), "Fixed-size parity failure for profile '{name}'");
}

#[test]
fn parity_fw_laziest() {
    parity(
        "fw-laziest",
        &[(45, 0), (65, 25), (70, 35), (75, 50), (85, 100)],
        &generate_fan_curve_lut::<5, 41>(&[(45, 0), (65, 25), (70, 35), (75, 50), (85, 100)]),
    );
}

#[test]
fn parity_fw_lazy() {
    parity(
        "fw-lazy",
        &[(50, 15), (65, 25), (70, 35), (75, 50), (85, 100)],
        &generate_fan_curve_lut::<5, 36>(&[(50, 15), (65, 25), (70, 35), (75, 50), (85, 100)]),
    );
}

#[test]
fn parity_fw_medium() {
    parity(
        "fw-medium",
        &[(40, 15), (60, 30), (70, 40), (75, 80), (85, 100)],
        &generate_fan_curve_lut::<5, 46>(&[(40, 15), (60, 30), (70, 40), (75, 80), (85, 100)]),
    );
}

#[test]
fn parity_fw_deaf() {
    parity(
        "fw-deaf",
        &[(0, 20), (40, 30), (50, 50), (60, 100)],
        &generate_fan_curve_lut::<4, 61>(&[(0, 20), (40, 30), (50, 50), (60, 100)]),
    );
}

#[test]
fn parity_fw_aeolus() {
    parity(
        "fw-aeolus",
        &[(0, 20), (40, 50), (60, 100)],
        &generate_fan_curve_lut::<3, 61>(&[(0, 20), (40, 50), (60, 100)]),
    );
}

#[test]
fn parity_default() {
    parity(
        "default",
        &[(25, 10), (30, 15), (45, 30), (60, 50), (75, 80), (85, 100)],
        &generate_fan_curve_lut::<6, 61>(&[(25, 10), (30, 15), (45, 30), (60, 50), (75, 80), (85, 100)]),
    );
}

#[test]
fn parity_quiet() {
    parity(
        "quiet",
        &[(30, 10), (35, 15), (50, 25), (65, 40), (80, 60), (85, 80), (90, 90), (92, 100)],
        &generate_fan_curve_lut::<8, 63>(&[(30, 10), (35, 15), (50, 25), (65, 40), (80, 60), (85, 80), (90, 90), (92, 100)]),
    );
}

#[test]
fn parity_performance() {
    parity(
        "performance",
        &[(25, 15), (35, 30), (50, 50), (65, 75), (80, 100)],
        &generate_fan_curve_lut::<5, 56>(&[(25, 15), (35, 30), (50, 50), (65, 75), (80, 100)]),
    );
}

#[test]
fn parity_turbo() {
    parity(
        "turbo",
        &[(25, 25), (30, 35), (45, 50), (60, 75), (70, 100)],
        &generate_fan_curve_lut::<5, 46>(&[(25, 25), (30, 35), (45, 50), (60, 75), (70, 100)]),
    );
}

#[test]
fn parity_deaf() {
    parity(
        "deaf",
        &[(25, 35), (30, 40), (45, 50), (60, 75), (65, 100)],
        &generate_fan_curve_lut::<5, 41>(&[(25, 35), (30, 40), (45, 50), (60, 75), (65, 100)]),
    );
}

#[test]
fn curve_errors_are_reported_in_order() {
    assert_eq!(try_generate_fan_curve_lut_dyn(&[(10, 0)]), Err(CurveError::TooFewPoints));
    assert_eq!(try_generate_fan_curve_lut_dyn(&[(10, 101), (20, 0)]), Err(CurveError::StartYOutOfRange));
    assert_eq!(try_generate_fan_curve_lut_dyn(&[(10, 0), (20, 101)]), Err(CurveError::EndYOutOfRange));
    assert_eq!(
        try_generate_fan_curve_lut_dyn(&[(10, 0), (10, 50), (20, 100)]),
        Err(CurveError::NotIncreasing)
    );
    assert_eq!(
        try_generate_fan_curve_lut_dyn(&[(10, 0), (15, 150), (20, 100)]),
        Err(CurveError::YOutOfRange)
    );
}

#[test]
fn two_knot_curve_rounds_halves_up() {
    // Slope 1/2: odd indices fall on halves, which round away from zero.
    let lut = runtime_lut_or_panic(&[(0, 0), (4, 2)]);
    assert_eq!(lut, vec![0, 1, 1, 2, 2]);
}

#[test]
fn falling_curve_stays_between_knots() {
    let lut = runtime_lut_or_panic(&[(0, 100), (10, 40), (30, 0)]);
    assert_eq!(lut.len(), 31);
    assert_eq!(lut[0], 100);
    assert_eq!(lut[10], 40);
    assert_eq!(lut[30], 0);
    for (i, &v) in lut.iter().enumerate().take(11) {
        assert!(v >= 40 && v <= 100, "index {i}: {v}");
    }
    for w in lut.windows(2) {
        assert!(w[1] <= w[0]);
    }
}

#[test]
fn fan_speed_clamps_to_the_profile_range() {
    let p = builtin("fw-aeolus");
    assert_eq!(p.start, 73);
    assert_eq!(p.end, 133);
    assert_eq!(p.get_fan_speed(EcTemp(0)), p.lut[0]);
    assert_eq!(p.get_fan_speed(EcTemp(73)), 20);
    assert_eq!(p.get_fan_speed(EcTemp(113)), 50);
    assert_eq!(p.get_fan_speed(EcTemp(200)), 100);
}

#[test]
fn profile_lookup_prefers_builtins_then_external() {
    let builtins = builtin_profiles();
    let external = vec![
        new_profile("mine", &[(20, 10), (70, 90)], &builtins).unwrap(),
        new_profile("default", &[(20, 10), (70, 100)], &builtins).unwrap(),
    ];
    let found = get_profile_by_name("default", &builtins, Some(&external)).unwrap();
    assert_eq!(found.lut, builtin("default").lut);
    let mine = get_profile_by_name("mine", &builtins, Some(&external)).unwrap();
    assert_eq!(mine.start, 93);
    assert_eq!(mine.end, 143);
    assert!(get_profile_by_name("mine", &builtins, None).is_none());
    assert!(get_profile_by_name("nothing", &builtins, Some(&external)).is_none());
}

#[test]
fn new_profile_reuses_a_builtin_table_with_the_same_signature() {
    let builtins = builtin_profiles();
    let copy = new_profile("copy", &[(0, 20), (40, 50), (60, 100)], &builtins).unwrap();
    let aeolus = builtin("fw-aeolus");
    assert_eq!(copy.signature, aeolus.signature);
    assert_eq!(copy.lut, aeolus.lut);
    assert_eq!(copy.name, "copy");
    assert_ne!(copy.signature, builtin("fw-deaf").signature);
}

#[test]
fn new_profile_reports_a_bad_curve() {
    let builtins = builtin_profiles();
    assert_eq!(
        new_profile("bad", &[(30, 0), (20, 50)], &builtins).err(),
        Some(CurveError::NotIncreasing)
    );
}

#[test]
fn profile_summary_shows_celsius_range_and_signature() {
    let p = builtin("fw-aeolus");
    let text = p.describe();
    let expected = format!(
        "Fan Curve: fw-aeolus\nDefined between +0°C and +60°C\nSignature: 0x{:x}\n",
        p.signature
    );
    assert_eq!(text, expected);
}

#[test]
fn signature_is_the_xxh3_of_the_knot_bytes() {
    let builtins = builtin_profiles();
    let p = new_profile("x", &[(0, 20), (40, 50), (60, 100)], &builtins).unwrap();
    assert_eq!(p.signature, xxhash_rust::xxh3::xxh3_64(&[0, 20, 40, 50, 60, 100]));
    let q = fw_ec::fan_curve::profile_with_signature("y", &[(10, 0), (20, 100)], 5, &builtins).unwrap();
    assert_eq!(q.signature, 5);
    assert_eq!(q.lut.len(), 11);
    assert_eq!(fw_ec::fan_curve::curve_signature(&[(10, 0), (20, 100)]), xxhash_rust::xxh3::xxh3_64(&[10, 0, 20, 100]));
}

/// The table computed in double precision, step for step as a floating-point
/// implementation of the same monotone Hermite spline does it.
fn float_reference(points: &[(u8, u8)]) -> Vec<u8> {
    let pts: Vec<(u8, u8)> = points.iter().map(|&(x, y)| (x.saturating_add(73), y)).collect();
    let slope = |a: (u8, u8), b: (u8, u8)| -> f64 {
        if a.0 == b.0 {
            0.0
        } else {
            (f64::from(b.1) - f64::from(a.1)) / (f64::from(b.0) - f64::from(a.0))
        }
    };
    let n = pts.len();
    let mut t = vec![0.0f64; n];
    t[0] = slope(pts[0], pts[1]);
    t[n - 1] = slope(pts[n - 2], pts[n - 1]);
    for i in 1..n - 1 {
        t[i] = (slope(pts[i - 1], pts[i]) + slope(pts[i], pts[i + 1])) * 0.5;
    }
    for i in 0..n - 1 {
        let s = slope(pts[i], pts[i + 1]);
        let max_t = 3.0 * s.abs();
        if s == 0.0 {
            t[i] = 0.0;
            t[i + 1] = 0.0;
        } else {
            if t[i].signum() != s.signum() {
                t[i] = 0.0;
            } else if t[i].abs() > max_t {
                t[i] = s.signum() * max_t;
            }
            if t[i + 1].signum() != s.signum() {
                t[i + 1] = 0.0;
            } else if t[i + 1].abs() > max_t {
                t[i + 1] = s.signum() * max_t;
            }
        }
    }
    let mut lut = Vec::new();
    for x in pts[0].0..=pts[n - 1].0 {
        let mut seg = 0;
        while seg < n - 1 {
            if x >= pts[seg].0 && x <= pts[seg + 1].0 {
                break;
            }
            seg += 1;
        }
        let (p0, p1) = (pts[seg], pts[seg + 1]);
        if x == p0.0 {
            lut.push(p0.1);
        } else if x == p1.0 {
            lut.push(p1.1);
        } else {
            let dx = f64::from(p1.0 - p0.0);
            let u = (f64::from(x) - f64::from(p0.0)) / dx;
            let (u2, u3) = (u * u, u * u * u);
            let h00 = 2.0 * u3 - 3.0 * u2 + 1.0;
            let h10 = u3 - 2.0 * u2 + u;
            let h01 = -2.0 * u3 + 3.0 * u2;
            let h11 = u3 - u2;
            let y = h00 * f64::from(p0.1) + h01 * f64::from(p1.1) + h10 * t[seg] * dx + h11 * t[seg + 1] * dx;
            lut.push(y.round().clamp(0.0, 100.0) as u8);
        }
    }
    lut
}

#[test]
fn exact_tables_match_the_floating_point_reference() {
    let curves: [&[(u8, u8)]; 12] = [
        &[(45, 0), (65, 25), (70, 35), (75, 50), (85, 100)],
        &[(50, 15), (65, 25), (70, 35), (75, 50), (85, 100)],
        &[(40, 15), (60, 30), (70, 40), (75, 80), (85, 100)],
        &[(0, 20), (40, 30), (50, 50), (60, 100)],
        &[(0, 20), (40, 50), (60, 100)],
        &[(25, 10), (30, 15), (45, 30), (60, 50), (75, 80), (85, 100)],
        &[(30, 10), (35, 15), (50, 25), (65, 40), (80, 60), (85, 80), (90, 90), (92, 100)],
        &[(25, 15), (35, 30), (50, 50), (65, 75), (80, 100)],
        &[(25, 25), (30, 35), (45, 50), (60, 75), (70, 100)],
        &[(25, 35), (30, 40), (45, 50), (60, 75), (65, 100)],
        &[(0, 20), (20, 50), (40, 50), (60, 100)],
        &[(0, 0), (10, 80), (90, 100)],
    ];
    for c in curves {
        assert_eq!(runtime_lut_or_panic(c), float_reference(c), "curve {c:?}");
    }
}

#[test]
fn exact_half_values_round_away_from_zero() {
    // On this line the value at index 14 is exactly 10 + 85 * 14 / 20 = 69.5.
    let lut = generate_fan_curve_lut_dyn(&[(25, 10), (45, 95)]);
    assert_eq!(lut.len(), 21);
    assert_eq!(lut[14], 70);
    assert_eq!(lut[0], 10);
    assert_eq!(lut[20], 95);
}
