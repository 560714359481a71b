use raytracer::intersect::choose_root;

fn bits(x: f64) -> u64 {
    x.to_bits()
}

fn pick(root1: f64, root2: f64, lower: f64, upper: f64) -> Option<f64> {
    choose_root(bits(root1), bits(root2), bits(lower), bits(upper)).map(f64::from_bits)
}

#[test]
fn ray_from_outside_takes_near_side() {
    // A ray starting 1 + r from the centre of a sphere of radius r, aimed at it, has
    // roots 1 and 1 + 2r.
    assert_eq!(pick(2.0, 1.0, 1e-200, f64::INFINITY), Some(1.0));
    assert_eq!(pick(1.0, 2.0, 1e-200, f64::INFINITY), Some(1.0));
}

#[test]
fn ray_from_inside_takes_far_side() {
    assert_eq!(pick(0.75, -0.25, 1e-200, f64::INFINITY), Some(0.75));
    assert_eq!(pick(-0.25, 0.75, 1e-200, f64::INFINITY), Some(0.75));
}

#[test]
fn sphere_behind_ray_is_not_hit() {
    assert_eq!(pick(-1.0, -3.0, 1e-200, f64::INFINITY), None);
}

#[test]
fn roots_beyond_upper_bound_are_not_hit() {
    assert_eq!(pick(5.0, 7.0, 0.0, 4.0), None);
    assert_eq!(pick(5.0, 3.0, 0.0, 4.0), Some(3.0));
}

#[test]
fn bounds_are_inclusive() {
    assert_eq!(pick(4.0, 9.0, 0.0, 4.0), Some(4.0));
    assert_eq!(pick(-1.0, 0.5, 0.5, 4.0), Some(0.5));
}

#[test]
fn tangent_ray_has_one_root() {
    assert_eq!(pick(2.5, 2.5, 1e-200, f64::INFINITY), Some(2.5));
}

#[test]
fn equal_roots_keep_the_first() {
    let r = choose_root(bits(0.0), bits(-0.0), bits(-1.0), bits(1.0));
    assert_eq!(r, Some(bits(0.0)));
}

#[test]
fn nan_roots_are_not_hit() {
    assert_eq!(pick(f64::NAN, f64::NAN, 0.0, f64::INFINITY), None);
    assert_eq!(pick(f64::NAN, 2.0, 0.0, f64::INFINITY), Some(2.0));
}
